//! What the display is given to paint: the grid of tokens with the
//! selected one marked, and the three parts of the status bar.

use crate::accumulator::Accumulator;
use crate::hex::{hex_text, push_hex_padded, zero_padded};
use crate::session::Session;
use vstd::math::min;
use vstd::prelude::*;

verus! {

/// One place of the grid.
#[derive(Debug, PartialEq, Eq)]
pub struct Cell {
    /// The byte's token.
    pub token: String,
    /// Whether the cursor is on this byte.
    pub selected: bool,
}

/// A cell, as contracts see it.
pub struct CellView {
    pub token: Seq<char>,
    pub selected: bool,
}

impl DeepView for Cell {
    type V = CellView;

    open spec fn deep_view(&self) -> CellView {
        CellView { token: self.token@, selected: self.selected }
    }
}

/// The number of rows that `len` bytes take in rows of `width`.
pub open spec fn row_count(len: int, width: int) -> int
    recommends
        width >= 1,
{
    (len + width - 1) / width
}

/// The number of bytes in row `row`: `width`, or what is left of the
/// buffer in its last row.
pub open spec fn row_len(len: int, width: int, row: int) -> int {
    min(width, len - row * width)
}

/// Row `row` of the grid.
pub open spec fn grid_row(
    tokens: Seq<Seq<char>>,
    cursor: int,
    width: int,
    row: int,
) -> Seq<CellView> {
    Seq::new(
        row_len(tokens.len() as int, width, row) as nat,
        |col: int|
            CellView { token: tokens[row * width + col], selected: row * width + col == cursor },
    )
}

/// The grid: the tokens in order, `width` to a row, the last row as
/// long as what is left; the cell at `cursor` is the selected one.
pub open spec fn grid(tokens: Seq<Seq<char>>, cursor: int, width: int) -> Seq<Seq<CellView>> {
    Seq::new(
        row_count(tokens.len() as int, width) as nat,
        |row: int| grid_row(tokens, cursor, width, row),
    )
}

/// The text that shows the cursor: its index in at least eight
/// upper-case hexadecimal digits.
pub open spec fn cursor_line(cursor: nat) -> Seq<char> {
    "Cursor: "@ + zero_padded(hex_text(cursor), 8)
}

/// The text that shows the digits typed so far.
pub open spec fn input_line(input: Accumulator) -> Seq<char> {
    "Buffer: "@ + input.digits()
}

proof fn lemma_last_row(len: int, width: int, rows: int)
    requires
        width >= 1,
        rows >= 0,
        rows * width < len <= rows * width + width,
    ensures
        row_count(len, width) == rows + 1,
{
    assert((len + width - 1) / width == rows + 1) by (nonlinear_arith)
        requires
            width >= 1,
            rows >= 0,
            rows * width < len <= rows * width + width,
    ;
}

proof fn lemma_no_rows(width: int)
    requires
        width >= 1,
    ensures
        row_count(0, width) == 0,
{
    assert((0 + width - 1) / width == 0) by (nonlinear_arith)
        requires
            width >= 1,
    ;
}

/// Every byte has its place in the grid, row `index / width` and column
/// `index % width`, and the cell there holds its token and is the
/// selected one exactly if the cursor is on that byte.
pub proof fn lemma_grid_places(tokens: Seq<Seq<char>>, cursor: int, width: int, index: int)
    requires
        width >= 1,
        0 <= index < tokens.len(),
    ensures
        0 <= index / width < grid(tokens, cursor, width).len(),
        0 <= index % width < grid(tokens, cursor, width)[index / width].len(),
        grid(tokens, cursor, width)[index / width][index % width] == (CellView {
            token: tokens[index],
            selected: index == cursor,
        }),
{
    let len = tokens.len() as int;
    let row = index / width;
    let col = index % width;
    let rows = (len + width - 1) / width;
    assert(0 <= row < rows && 0 <= col < width && row * width + col == index)
        by (nonlinear_arith)
        requires
            width >= 1,
            0 <= index < len,
            row == index / width,
            col == index % width,
            rows == (len + width - 1) / width,
    ;
}

/// Lays the tokens out in rows of `width`.
pub fn grid_rows(tokens: &Vec<String>, cursor: usize, width: usize) -> (rows: Vec<Vec<Cell>>)
    requires
        width >= 1,
    ensures
        rows.deep_view() == grid(tokens.deep_view(), cursor as int, width as int),
{
    let len = tokens.len();
    let mut rows: Vec<Vec<Cell>> = Vec::new();
    let mut start: usize = 0;
    proof {
        lemma_no_rows(width as int);
        assert(0 * width == 0) by (nonlinear_arith);
    }
    while start < len
        invariant
            len == tokens.len(),
            width >= 1,
            start <= len,
            start < len ==> start == rows.len() * width,
            start == len ==> rows.len() == row_count(len as int, width as int),
            forall|r: int|
                0 <= r < rows.len() ==> (#[trigger] rows[r]).deep_view() == grid_row(
                    tokens.deep_view(),
                    cursor as int,
                    width as int,
                    r,
                ),
        decreases len - start,
    {
        let end = if len - start <= width {
            len
        } else {
            start + width
        };
        let mut row: Vec<Cell> = Vec::new();
        let mut i: usize = start;
        while i < end
            invariant
                len == tokens.len(),
                start <= i <= end <= len,
                row.len() == i - start,
                forall|c: int|
                    0 <= c < row.len() ==> (#[trigger] row[c]).deep_view() == (CellView {
                        token: tokens[start + c]@,
                        selected: start + c == cursor,
                    }),
            decreases end - i,
        {
            row.push(Cell { token: tokens[i].clone(), selected: i == cursor });
            i = i + 1;
        }
        proof {
            let r = rows.len() as int;
            assert(row.len() == row_len(len as int, width as int, r));
            assert(row.deep_view() =~= grid_row(
                tokens.deep_view(),
                cursor as int,
                width as int,
                r,
            ));
            if end == len {
                lemma_last_row(len as int, width as int, r);
            } else {
                assert((r + 1) * width == r * width + width) by (nonlinear_arith);
            }
        }
        rows.push(row);
        start = end;
    }
    assert(rows.deep_view() =~= grid(tokens.deep_view(), cursor as int, width as int));
    rows
}

/// One frame's worth of state.
#[derive(Debug, PartialEq, Eq)]
pub struct Snapshot {
    /// The grid of tokens.
    pub rows: Vec<Vec<Cell>>,
    /// The row that the cursor is in.
    pub cursor_row: usize,
    /// The status bar's first part: where the cursor is.
    pub cursor_line: String,
    /// The status bar's second part: the digits typed so far.
    pub input_line: String,
    /// The status bar's last part: how the last save went.
    pub status_line: String,
}

impl Snapshot {
    /// Takes a snapshot of a session.
    pub fn of(session: &Session) -> (snap: Snapshot)
        requires
            session.wf(),
        ensures
            snap.rows.deep_view() == grid(
                session@.tokens,
                session@.cursor,
                session@.width,
            ),
            snap.cursor_row == session@.cursor / session@.width,
            snap.cursor_line@ == cursor_line(session@.cursor as nat),
            snap.input_line@ == input_line(session@.input),
            snap.status_line@ == session@.status.text(),
    {
        let cursor = session.cursor();
        let width = session.row_width();
        let mut cursor_line = String::from_str("Cursor: ");
        push_hex_padded(&mut cursor_line, cursor, 8);
        let mut input_line = String::from_str("Buffer: ");
        input_line.append(session.input().text().as_str());
        Snapshot {
            rows: grid_rows(session.tokens(), cursor, width),
            cursor_row: cursor / width,
            cursor_line,
            input_line,
            status_line: String::from_str(session.status().message()),
        }
    }
}

} // verus!
