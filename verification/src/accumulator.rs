//! The input accumulator: the hexadecimal digits typed so far for the
//! selected byte, two at most.

use crate::hex::{digit_text, is_hex, is_hex_digit, is_token, is_upper_hex_digit, to_upper, upper};
use vstd::prelude::*;

verus! {

/// The digits typed so far.
#[derive(Clone, Copy, Debug, PartialEq, Eq, Structural)]
pub enum Accumulator {
    Empty,
    OneDigit(char),
    TwoDigits(char, char),
}

impl Accumulator {
    /// The digits, in the order in which they were typed.
    pub open spec fn digits(self) -> Seq<char> {
        match self {
            Accumulator::Empty => seq![],
            Accumulator::OneDigit(c) => seq![c],
            Accumulator::TwoDigits(c1, c2) => seq![c1, c2],
        }
    }

    /// Every digit held is an upper-case hexadecimal digit.
    pub open spec fn wf(self) -> bool {
        match self {
            Accumulator::Empty => true,
            Accumulator::OneDigit(c) => is_upper_hex_digit(c),
            Accumulator::TwoDigits(c1, c2) => is_upper_hex_digit(c1) && is_upper_hex_digit(c2),
        }
    }

    /// The state after the character `c` was typed: a hexadecimal digit
    /// is appended in upper case while there is room for it; a third
    /// digit and every other character are dropped.
    pub open spec fn typed(self, c: char) -> Accumulator {
        if !is_hex_digit(c) {
            self
        } else {
            match self {
                Accumulator::Empty => Accumulator::OneDigit(to_upper(c)),
                Accumulator::OneDigit(c1) => Accumulator::TwoDigits(c1, to_upper(c)),
                Accumulator::TwoDigits(_, _) => self,
            }
        }
    }

    /// The state after the last digit, if there is one, was deleted.
    pub open spec fn erased(self) -> Accumulator {
        match self {
            Accumulator::Empty => Accumulator::Empty,
            Accumulator::OneDigit(_) => Accumulator::Empty,
            Accumulator::TwoDigits(c1, _) => Accumulator::OneDigit(c1),
        }
    }

    /// The state after every character of `keys` was typed in turn.
    pub open spec fn typed_all(self, keys: Seq<char>) -> Accumulator
        decreases keys.len(),
    {
        if keys.len() == 0 {
            self
        } else {
            self.typed_all(keys.drop_last()).typed(keys.last())
        }
    }

    /// An accumulator with nothing typed.
    pub fn new() -> (a: Accumulator)
        ensures
            a == Accumulator::Empty,
    {
        Accumulator::Empty
    }

    /// The number of digits held.
    pub fn len(&self) -> (n: usize)
        ensures
            n == self.digits().len(),
            n <= 2,
    {
        match self {
            Accumulator::Empty => 0,
            Accumulator::OneDigit(_) => 1,
            Accumulator::TwoDigits(_, _) => 2,
        }
    }

    /// Takes the key press `c`.
    pub fn press(&mut self, c: char)
        ensures
            *final(self) == old(self).typed(c),
            old(self).wf() ==> final(self).wf(),
    {
        if is_hex(c) {
            match *self {
                Accumulator::Empty => {
                    *self = Accumulator::OneDigit(upper(c));
                },
                Accumulator::OneDigit(c1) => {
                    *self = Accumulator::TwoDigits(c1, upper(c));
                },
                Accumulator::TwoDigits(_, _) => {},
            }
        }
    }

    /// Deletes the last digit, if there is one.
    pub fn delete(&mut self)
        ensures
            *final(self) == old(self).erased(),
            old(self).wf() ==> final(self).wf(),
    {
        match *self {
            Accumulator::Empty => {},
            Accumulator::OneDigit(_) => {
                *self = Accumulator::Empty;
            },
            Accumulator::TwoDigits(c1, _) => {
                *self = Accumulator::OneDigit(c1);
            },
        }
    }

    /// Empties the accumulator.
    pub fn reset(&mut self)
        ensures
            *final(self) == Accumulator::Empty,
    {
        *self = Accumulator::Empty;
    }

    /// The digits as text.
    pub fn text(&self) -> (s: String)
        requires
            self.wf(),
        ensures
            s@ == self.digits(),
    {
        match *self {
            Accumulator::Empty => String::new(),
            Accumulator::OneDigit(c) => String::from_str(digit_text(c)),
            Accumulator::TwoDigits(c1, c2) => {
                let mut s = String::from_str(digit_text(c1));
                s.append(digit_text(c2));
                s
            },
        }
    }

    /// Hands out the token once two digits are held, and starts over.
    /// With fewer digits nothing is handed out and nothing changes.
    pub fn commit(&mut self) -> (token: Option<String>)
        requires
            old(self).wf(),
        ensures
            match token {
                Some(t) => *old(self) is TwoDigits && t@ == old(self).digits() && is_token(t@)
                    && *final(self) == Accumulator::Empty,
                None => !(*old(self) is TwoDigits) && *final(self) == *old(self),
            },
    {
        match *self {
            Accumulator::TwoDigits(_, _) => {
                let t = self.text();
                *self = Accumulator::Empty;
                Some(t)
            },
            _ => None,
        }
    }
}

/// A well-formed accumulator stays well formed under every key press and
/// never holds more than two digits.
pub proof fn lemma_typed_bounded(a: Accumulator, c: char)
    ensures
        a.typed(c).digits().len() <= 2,
        a.wf() ==> a.typed(c).wf(),
        a is TwoDigits ==> a.typed(c) == a,
{
}

/// Whatever is typed, and however much of it, the accumulator never
/// holds more than two digits, and once it holds two, further key
/// presses leave it as it is.
pub proof fn lemma_typed_all_bounded(a: Accumulator, keys: Seq<char>)
    ensures
        a.typed_all(keys).digits().len() <= 2,
        a.wf() ==> a.typed_all(keys).wf(),
        a is TwoDigits ==> a.typed_all(keys) == a,
    decreases keys.len(),
{
    if keys.len() > 0 {
        lemma_typed_all_bounded(a, keys.drop_last());
        lemma_typed_bounded(a.typed_all(keys.drop_last()), keys.last());
    }
}

} // verus!
