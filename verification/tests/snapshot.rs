use hex_editor::session::{Key, Session};
use hex_editor::snapshot::{grid_rows, Cell, Snapshot};

fn strings(tokens: &[&str]) -> Vec<String> {
    tokens.iter().map(|t| t.to_string()).collect()
}

fn cell(token: &str, selected: bool) -> Cell {
    Cell { token: token.to_string(), selected }
}

fn row_lengths(rows: &[Vec<Cell>]) -> Vec<usize> {
    rows.iter().map(|row| row.len()).collect()
}

#[test]
fn a_short_buffer_is_one_short_row() {
    let rows = grid_rows(&strings(&["00", "1A", "FF"]), 1, 8);
    assert_eq!(rows, vec![vec![cell("00", false), cell("1A", true), cell("FF", false)]]);
}

#[test]
fn an_empty_buffer_has_no_rows() {
    assert_eq!(grid_rows(&strings(&[]), 0, 8), Vec::<Vec<Cell>>::new());
}

#[test]
fn the_last_row_is_as_long_as_what_is_left() {
    let tokens: Vec<String> = (0..17).map(|i| format!("{i:02X}")).collect();
    let rows = grid_rows(&tokens, 16, 8);
    assert_eq!(row_lengths(&rows), vec![8, 8, 1]);
    assert_eq!(rows[2], vec![cell("10", true)]);
    assert_eq!(rows[1][7], cell("0F", false));
    let rows = grid_rows(&tokens[..16].to_vec(), 3, 8);
    assert_eq!(row_lengths(&rows), vec![8, 8]);
    let rows = grid_rows(&tokens[..8].to_vec(), 3, 8);
    assert_eq!(row_lengths(&rows), vec![8]);
    let rows = grid_rows(&tokens[..9].to_vec(), 3, 8);
    assert_eq!(row_lengths(&rows), vec![8, 1]);
    let rows = grid_rows(&tokens[..5].to_vec(), 3, 2);
    assert_eq!(row_lengths(&rows), vec![2, 2, 1]);
    let rows = grid_rows(&tokens[..3].to_vec(), 0, 1);
    assert_eq!(row_lengths(&rows), vec![1, 1, 1]);
    let rows = grid_rows(&tokens[..3].to_vec(), 0, usize::MAX);
    assert_eq!(row_lengths(&rows), vec![3]);
}

#[test]
fn the_grid_holds_every_token_once_and_marks_the_cursor_only() {
    let tokens: Vec<String> = (0..21).map(|i| format!("{i:02X}")).collect();
    for width in 1..=9usize {
        for cursor in [0usize, 7, 8, 20] {
            let rows = grid_rows(&tokens, cursor, width);
            let flat: Vec<&Cell> = rows.iter().flatten().collect();
            assert_eq!(flat.len(), tokens.len());
            for (i, c) in flat.iter().enumerate() {
                assert_eq!(c.token, tokens[i]);
                assert_eq!(c.selected, i == cursor);
                assert_eq!(&&rows[i / width][i % width], c);
            }
            assert_eq!(rows.len(), (tokens.len() + width - 1) / width);
        }
    }
}

#[test]
fn a_cursor_outside_the_tokens_marks_none() {
    let rows = grid_rows(&strings(&["00", "01"]), 2, 8);
    assert_eq!(rows, vec![vec![cell("00", false), cell("01", false)]]);
}

#[test]
fn snapshot_of_a_fresh_session() {
    let s = Session::new(vec![0x00, 0x1A, 0xFF]);
    let snap = Snapshot::of(&s);
    assert_eq!(snap.rows, vec![vec![cell("00", true), cell("1A", false), cell("FF", false)]]);
    assert_eq!(snap.cursor_row, 0);
    assert_eq!(snap.cursor_line, "Cursor: 00000000");
    assert_eq!(snap.input_line, "Buffer: ");
    assert_eq!(snap.status_line, "");
}

#[test]
fn snapshot_follows_the_session() {
    let mut s = Session::new((0..40).collect());
    for _ in 0..3 {
        s.handle_key(Key::Down);
    }
    for _ in 0..2 {
        s.handle_key(Key::Right);
    }
    s.handle_key(Key::Char('c'));
    let snap = Snapshot::of(&s);
    assert_eq!(snap.rows.len(), 5);
    assert_eq!(snap.cursor_row, 3);
    assert_eq!(snap.rows[3][2], cell("1A", true));
    assert_eq!(snap.rows[3][1], cell("19", false));
    assert_eq!(snap.cursor_line, "Cursor: 0000001A");
    assert_eq!(snap.input_line, "Buffer: C");
    assert_eq!(snap.status_line, "");
    s.handle_key(Key::Char('4'));
    s.finish_save(true);
    let snap = Snapshot::of(&s);
    assert_eq!(snap.input_line, "Buffer: C4");
    assert_eq!(snap.status_line, "Save was successful");
    s.finish_save(false);
    let snap = Snapshot::of(&s);
    assert_eq!(snap.input_line, "Buffer: ");
    assert_eq!(snap.status_line, "Save was unsuccessful");
}

#[test]
fn snapshot_uses_the_session_s_row_width() {
    let mut s = Session::with_row_width((0..10).collect(), 4);
    s.handle_key(Key::Down);
    s.handle_key(Key::Down);
    let snap = Snapshot::of(&s);
    assert_eq!(row_lengths(&snap.rows), vec![4, 4, 2]);
    assert_eq!(snap.cursor_row, 2);
    assert_eq!(snap.rows[2][0], cell("08", true));
    assert_eq!(snap.cursor_line, "Cursor: 00000008");
}
