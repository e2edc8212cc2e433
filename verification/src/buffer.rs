//! The byte buffer: one two-digit token for each byte of the file.

use crate::hex::{decode_token, encode_byte, is_token, lemma_token_round_trip, token_of, token_value};
use vstd::prelude::*;

verus! {

/// The tokens of a sequence of bytes, in order.
pub open spec fn tokens_of(bytes: Seq<u8>) -> Seq<Seq<char>> {
    Seq::new(bytes.len(), |i: int| token_of(bytes[i]))
}

/// Whether every element is exactly two hexadecimal digits.
pub open spec fn all_tokens(tokens: Seq<Seq<char>>) -> bool {
    forall|i: int| 0 <= i < tokens.len() ==> is_token(#[trigger] tokens[i])
}

/// The bytes that a sequence of tokens stands for.
pub open spec fn bytes_of(tokens: Seq<Seq<char>>) -> Seq<u8>
    recommends
        all_tokens(tokens),
{
    Seq::new(tokens.len(), |i: int| token_value(tokens[i]) as u8)
}

/// Whether `index` is the place of the first element that is not a token.
pub open spec fn first_bad_token(tokens: Seq<Seq<char>>, index: int) -> bool {
    &&& 0 <= index < tokens.len()
    &&& !is_token(tokens[index])
    &&& forall|j: int| 0 <= j < index ==> is_token(#[trigger] tokens[j])
}

/// Encoding bytes as tokens and decoding them again gives the bytes back.
pub proof fn lemma_round_trip(bytes: Seq<u8>)
    ensures
        all_tokens(tokens_of(bytes)),
        bytes_of(tokens_of(bytes)) == bytes,
{
    assert forall|i: int| 0 <= i < bytes.len() implies is_token(#[trigger] tokens_of(bytes)[i])
        && token_value(tokens_of(bytes)[i]) == bytes[i] by {
        lemma_token_round_trip(bytes[i]);
    }
    assert(bytes_of(tokens_of(bytes)) =~= bytes);
}

/// A token that could not be decoded.
#[derive(Clone, Copy, Debug, PartialEq, Eq, Structural)]
pub struct DecodeError {
    /// Where the offending token stands in the buffer.
    pub index: usize,
}

/// Maps each raw byte to its two-character upper-case token.
pub fn parse_bytes(bytes: Vec<u8>) -> (tokens: Vec<String>)
    ensures
        tokens.deep_view() == tokens_of(bytes@),
{
    let mut tokens: Vec<String> = Vec::new();
    let mut i: usize = 0;
    while i < bytes.len()
        invariant
            i <= bytes.len(),
            tokens.len() == i,
            forall|j: int| 0 <= j < i ==> (#[trigger] tokens[j])@ == token_of(bytes[j]),
        decreases bytes.len() - i,
    {
        tokens.push(encode_byte(bytes[i]));
        i += 1;
    }
    assert(tokens.deep_view() =~= tokens_of(bytes@));
    tokens
}

/// Decodes every token back into its byte. Fails at the first element
/// that is not exactly two hexadecimal digits.
pub fn to_bytes(tokens: &Vec<String>) -> (r: Result<Vec<u8>, DecodeError>)
    ensures
        match r {
            Ok(bytes) => all_tokens(tokens.deep_view()) && bytes@ == bytes_of(tokens.deep_view()),
            Err(e) => first_bad_token(tokens.deep_view(), e.index as int),
        },
{
    let mut bytes: Vec<u8> = Vec::new();
    let mut i: usize = 0;
    while i < tokens.len()
        invariant
            i <= tokens.len(),
            bytes.len() == i,
            forall|j: int| 0 <= j < i ==> is_token(#[trigger] tokens.deep_view()[j]),
            forall|j: int| 0 <= j < i ==> bytes[j] == token_value(#[trigger] tokens.deep_view()[j]),
        decreases tokens.len() - i,
    {
        assert(tokens.deep_view()[i as int] == tokens[i as int]@);
        match decode_token(tokens[i].as_str()) {
            Some(b) => bytes.push(b),
            None => {
                return Err(DecodeError { index: i });
            },
        }
        i += 1;
    }
    assert(bytes@ =~= bytes_of(tokens.deep_view()));
    Ok(bytes)
}

/// The editable sequence of byte tokens. Its length is fixed when it is
/// loaded; tokens are only ever overwritten in place.
pub struct Buffer {
    tokens: Vec<String>,
}

impl View for Buffer {
    type V = Seq<Seq<char>>;

    closed spec fn view(&self) -> Seq<Seq<char>> {
        self.tokens.deep_view()
    }
}

impl Buffer {
    /// Every token is exactly two hexadecimal digits.
    pub open spec fn wf(&self) -> bool {
        all_tokens(self@)
    }

    /// The bytes that the buffer stands for.
    pub open spec fn bytes(&self) -> Seq<u8>
        recommends
            self.wf(),
    {
        bytes_of(self@)
    }

    /// Builds the buffer of a file's contents.
    pub fn load(raw: Vec<u8>) -> (b: Buffer)
        ensures
            b@ == tokens_of(raw@),
            b.wf(),
            b.bytes() == raw@,
    {
        proof {
            lemma_round_trip(raw@);
        }
        Buffer { tokens: parse_bytes(raw) }
    }

    /// The number of bytes.
    pub fn len(&self) -> (n: usize)
        ensures
            n == self@.len(),
    {
        self.tokens.len()
    }

    /// The token at `index`.
    pub fn token(&self, index: usize) -> (t: &String)
        requires
            index < self@.len(),
        ensures
            t@ == self@[index as int],
    {
        &self.tokens[index]
    }

    /// All tokens, in order.
    pub fn tokens(&self) -> (t: &Vec<String>)
        ensures
            t.deep_view() == self@,
    {
        &self.tokens
    }

    /// Replaces the token at `index` and touches no other.
    pub fn overwrite(&mut self, index: usize, hex_text: String)
        requires
            index < old(self)@.len(),
            is_token(hex_text@),
        ensures
            final(self)@ == old(self)@.update(index as int, hex_text@),
            old(self).wf() ==> final(self).wf(),
    {
        self.tokens[index] = hex_text;
        assert(self@ =~= old(self)@.update(index as int, hex_text@));
    }

    /// Decodes the buffer for writing. Fails at the first token that is
    /// not exactly two hexadecimal digits, which cannot happen while the
    /// buffer is well formed.
    pub fn to_bytes(&self) -> (r: Result<Vec<u8>, DecodeError>)
        ensures
            match r {
                Ok(bytes) => self.wf() && bytes@ == self.bytes(),
                Err(e) => first_bad_token(self@, e.index as int),
            },
    {
        to_bytes(&self.tokens)
    }
}

} // verus!
