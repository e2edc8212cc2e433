//! The cursor: the index of the selected byte, moved in steps and clamped
//! to the buffer.

use vstd::math::{max, min};
use vstd::prelude::*;

verus! {

/// One step towards the start, stopping at 0.
pub open spec fn left_of(index: int) -> int {
    max(0, index - 1)
}

/// One step towards the end of a buffer of `len` bytes, stopping at the
/// last byte.
pub open spec fn right_of(index: int, len: int) -> int {
    min(len - 1, index + 1)
}

/// One row of `width` bytes up, stopping at 0.
pub open spec fn up_from(index: int, width: int) -> int {
    max(0, index - width)
}

/// One row of `width` bytes down in a buffer of `len` bytes, stopping at
/// the last byte.
pub open spec fn down_from(index: int, len: int, width: int) -> int {
    min(len - 1, index + width)
}

/// The index of the selected byte.
#[derive(Clone, Copy, Debug, PartialEq, Eq, Structural)]
pub struct Cursor {
    pub index: usize,
}

impl Cursor {
    /// A cursor on the first byte.
    pub fn new() -> (c: Cursor)
        ensures
            c.index == 0,
    {
        Cursor { index: 0 }
    }

    /// Steps one byte back; stays at 0.
    pub fn move_left(&mut self)
        ensures
            final(self).index == left_of(old(self).index as int),
    {
        if self.index > 0 {
            self.index = self.index - 1;
        }
    }

    /// Steps one byte forward; stays on the last of the `len` bytes.
    pub fn move_right(&mut self, len: usize)
        requires
            len >= 1,
        ensures
            final(self).index == right_of(old(self).index as int, len as int),
    {
        if self.index >= len - 1 {
            self.index = len - 1;
        } else {
            self.index = self.index + 1;
        }
    }

    /// Steps `width` bytes back; stops at 0.
    pub fn move_up(&mut self, width: usize)
        ensures
            final(self).index == up_from(old(self).index as int, width as int),
    {
        if self.index >= width {
            self.index = self.index - width;
        } else {
            self.index = 0;
        }
    }

    /// Steps `width` bytes forward; stops on the last of the `len` bytes.
    pub fn move_down(&mut self, len: usize, width: usize)
        requires
            len >= 1,
        ensures
            final(self).index == down_from(old(self).index as int, len as int, width as int),
    {
        if self.index >= len - 1 || width >= len - 1 - self.index {
            self.index = len - 1;
        } else {
            self.index = self.index + width;
        }
    }
}

/// A cursor inside the buffer stays inside it, whichever way it moves.
pub proof fn lemma_moves_stay_inside(index: int, len: int, width: int)
    requires
        0 <= index < len,
        0 <= width,
    ensures
        0 <= left_of(index) < len,
        0 <= right_of(index, len) < len,
        0 <= up_from(index, width) < len,
        0 <= down_from(index, len, width) < len,
{
}

/// Right and then left comes back to where it started, except from the
/// last byte: there the step to the right is clamped, so the step to the
/// left ends one byte before it (or at 0 in a buffer of one byte).
pub proof fn lemma_right_then_left(index: int, len: int)
    requires
        0 <= index < len,
    ensures
        index < len - 1 ==> left_of(right_of(index, len)) == index,
        index == len - 1 ==> right_of(index, len) == index,
        index == len - 1 ==> left_of(right_of(index, len)) == max(0, len - 2),
{
}

/// Left and then right comes back to where it started, except from the
/// first byte: there the step to the left is clamped, so the step to the
/// right ends one byte after it (or at 0 in a buffer of one byte).
pub proof fn lemma_left_then_right(index: int, len: int)
    requires
        0 <= index < len,
    ensures
        index > 0 ==> right_of(left_of(index), len) == index,
        index == 0 ==> left_of(index) == index,
        index == 0 ==> right_of(left_of(index), len) == min(len - 1, 1),
{
}

/// Down and then up comes back to where it started wherever a whole row
/// lies below the cursor; up and then down wherever one lies above it.
pub proof fn lemma_rows_undo(index: int, len: int, width: int)
    requires
        0 <= index < len,
        0 <= width,
    ensures
        index + width < len ==> up_from(down_from(index, len, width), width) == index,
        index >= width ==> down_from(up_from(index, width), len, width) == index,
{
}

} // verus!
