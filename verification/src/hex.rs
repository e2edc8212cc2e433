//! Hexadecimal digits and two-digit byte tokens.

use vstd::prelude::*;

verus! {

/// Whether `c` is one of `0-9`, `a-f` or `A-F`.
pub open spec fn is_hex_digit(c: char) -> bool {
    ('0' <= c && c <= '9') || ('a' <= c && c <= 'f') || ('A' <= c && c <= 'F')
}

/// Whether `c` is one of `0-9` or `A-F`.
pub open spec fn is_upper_hex_digit(c: char) -> bool {
    ('0' <= c && c <= '9') || ('A' <= c && c <= 'F')
}

/// The value, 0 to 15, of a hexadecimal digit.
pub open spec fn digit_value(c: char) -> int
    recommends
        is_hex_digit(c),
{
    if '0' <= c && c <= '9' {
        c as int - '0' as int
    } else if 'a' <= c && c <= 'f' {
        c as int - 'a' as int + 10
    } else {
        c as int - 'A' as int + 10
    }
}

/// The upper-case digit that stands for `v`.
pub open spec fn upper_digit(v: int) -> char
    recommends
        0 <= v < 16,
{
    if v < 10 {
        ('0' as int + v) as char
    } else {
        ('A' as int + v - 10) as char
    }
}

/// `c` with the letters `a-f` raised to `A-F`; every other character is
/// left as it is.
pub open spec fn to_upper(c: char) -> char {
    if 'a' <= c && c <= 'f' {
        (c as int - 32) as char
    } else {
        c
    }
}

/// Tests whether `c` is a hexadecimal digit.
pub fn is_hex(c: char) -> (b: bool)
    ensures
        b == is_hex_digit(c),
{
    ('0' <= c && c <= '9') || ('a' <= c && c <= 'f') || ('A' <= c && c <= 'F')
}

/// Raises a lower-case hexadecimal letter to upper case.
pub fn upper(c: char) -> (r: char)
    ensures
        r == to_upper(c),
        is_hex_digit(c) ==> is_upper_hex_digit(r) && digit_value(r) == digit_value(c),
{
    if 'a' <= c && c <= 'f' {
        ((c as u8) - 32) as char
    } else {
        c
    }
}

/// The value of the hexadecimal digit `c`, or `None` for any other
/// character.
pub fn value_of(c: char) -> (r: Option<u8>)
    ensures
        r is Some <==> is_hex_digit(c),
        r matches Some(v) ==> v == digit_value(c) && v < 16,
{
    if '0' <= c && c <= '9' {
        Some((c as u8) - 48)
    } else if 'a' <= c && c <= 'f' {
        Some((c as u8) - 87)
    } else if 'A' <= c && c <= 'F' {
        Some((c as u8) - 55)
    } else {
        None
    }
}

/// The upper-case digit for a value below 16.
pub(crate) fn digit_of(v: u8) -> (c: char)
    requires
        v < 16,
    ensures
        c == upper_digit(v as int),
        is_upper_hex_digit(c),
        digit_value(c) == v,
{
    if v < 10 {
        (48 + v) as char
    } else {
        (55 + v) as char
    }
}

/// The text that holds the single digit `c`.
pub(crate) fn digit_text(c: char) -> (s: &'static str)
    requires
        is_upper_hex_digit(c),
    ensures
        s@ == seq![c],
{
    proof {
        reveal_strlit("0");
        reveal_strlit("1");
        reveal_strlit("2");
        reveal_strlit("3");
        reveal_strlit("4");
        reveal_strlit("5");
        reveal_strlit("6");
        reveal_strlit("7");
        reveal_strlit("8");
        reveal_strlit("9");
        reveal_strlit("A");
        reveal_strlit("B");
        reveal_strlit("C");
        reveal_strlit("D");
        reveal_strlit("E");
        reveal_strlit("F");
    }
    match c {
        '0' => "0",
        '1' => "1",
        '2' => "2",
        '3' => "3",
        '4' => "4",
        '5' => "5",
        '6' => "6",
        '7' => "7",
        '8' => "8",
        '9' => "9",
        'A' => "A",
        'B' => "B",
        'C' => "C",
        'D' => "D",
        'E' => "E",
        _ => "F",
    }
}

/// The token of a byte: its two upper-case hexadecimal digits, the high
/// one first.
pub open spec fn token_of(b: u8) -> Seq<char> {
    seq![upper_digit(b as int / 16), upper_digit(b as int % 16)]
}

/// Whether `s` is exactly two hexadecimal digits, of either case.
pub open spec fn is_token(s: Seq<char>) -> bool {
    s.len() == 2 && is_hex_digit(s[0]) && is_hex_digit(s[1])
}

/// The byte that a token stands for.
pub open spec fn token_value(s: Seq<char>) -> int
    recommends
        is_token(s),
{
    16 * digit_value(s[0]) + digit_value(s[1])
}

/// Every byte's token is a token, and it decodes to that byte.
pub proof fn lemma_token_round_trip(b: u8)
    ensures
        is_token(token_of(b)),
        is_upper_hex_digit(token_of(b)[0]),
        is_upper_hex_digit(token_of(b)[1]),
        token_value(token_of(b)) == b,
{
}

/// Every token stands for a byte.
pub proof fn lemma_token_value_is_byte(s: Seq<char>)
    requires
        is_token(s),
    ensures
        0 <= token_value(s) < 256,
{
}

/// Writes a byte as its token.
pub fn encode_byte(b: u8) -> (s: String)
    ensures
        s@ == token_of(b),
{
    let mut s = String::from_str(digit_text(digit_of(b / 16)));
    s.append(digit_text(digit_of(b % 16)));
    s
}

/// Reads a token back into its byte; `None` unless `s` is exactly two
/// hexadecimal digits.
pub fn decode_token(s: &str) -> (r: Option<u8>)
    ensures
        r is Some <==> is_token(s@),
        r matches Some(v) ==> v == token_value(s@),
{
    if s.unicode_len() != 2 {
        return None;
    }
    match (value_of(s.get_char(0)), value_of(s.get_char(1))) {
        (Some(hi), Some(lo)) => Some(16 * hi + lo),
        _ => None,
    }
}

/// The upper-case hexadecimal digits of `n`, without leading zeros; a
/// single `0` for zero.
pub open spec fn hex_text(n: nat) -> Seq<char>
    decreases n,
{
    if n < 16 {
        seq![upper_digit(n as int)]
    } else {
        hex_text(n / 16).push(upper_digit(n as int % 16))
    }
}

/// `s` with zeros put before it until it is at least `width` long.
pub open spec fn zero_padded(s: Seq<char>, width: nat) -> Seq<char> {
    if s.len() >= width {
        s
    } else {
        Seq::new((width - s.len()) as nat, |i: int| '0') + s
    }
}

/// The number of hexadecimal digits of `n`.
pub fn hex_len(n: usize) -> (len: usize)
    ensures
        len == hex_text(n as nat).len(),
        len >= 1,
{
    let mut len: usize = 1;
    let mut rest: usize = n;
    while rest >= 16
        invariant
            1 <= len,
            len - 1 + rest <= n,
            hex_text(n as nat).len() == hex_text(rest as nat).len() + len - 1,
        decreases rest,
    {
        rest = rest / 16;
        len = len + 1;
    }
    len
}

/// Appends the hexadecimal digits of `n` to `s`.
pub fn push_hex(s: &mut String, n: usize)
    ensures
        final(s)@ == old(s)@ + hex_text(n as nat),
    decreases n,
{
    if n >= 16 {
        push_hex(s, n / 16);
    }
    s.append(digit_text(digit_of((n % 16) as u8)));
}

/// Appends the hexadecimal digits of `n` to `s`, with zeros before them
/// where there are fewer than `width`.
pub fn push_hex_padded(s: &mut String, n: usize, width: usize)
    ensures
        final(s)@ == old(s)@ + zero_padded(hex_text(n as nat), width as nat),
{
    let len = hex_len(n);
    let mut k: usize = len;
    while k < width
        invariant
            len <= k,
            k <= width || k == len,
            s@ == old(s)@ + Seq::new((k - len) as nat, |i: int| '0'),
        decreases width - k,
    {
        proof {
            reveal_strlit("0");
        }
        s.append("0");
        k = k + 1;
        assert(s@ =~= old(s)@ + Seq::new((k - len) as nat, |i: int| '0'));
    }
    push_hex(s, n);
    assert(s@ =~= old(s)@ + zero_padded(hex_text(n as nat), width as nat));
}

} // verus!
