use hex_editor::cursor::Cursor;

fn at(index: usize) -> Cursor {
    Cursor { index }
}

#[test]
fn new_cursor_is_on_the_first_byte() {
    assert_eq!(Cursor::new(), at(0));
}

#[test]
fn move_left_stops_at_zero() {
    let mut c = at(3);
    c.move_left();
    assert_eq!(c.index, 2);
    let mut c = at(0);
    c.move_left();
    assert_eq!(c.index, 0);
}

#[test]
fn move_right_stops_at_the_last_byte() {
    let mut c = at(3);
    c.move_right(5);
    assert_eq!(c.index, 4);
    c.move_right(5);
    assert_eq!(c.index, 4);
    let mut c = at(0);
    c.move_right(1);
    assert_eq!(c.index, 0);
}

#[test]
fn move_up_is_a_clamped_subtraction() {
    let mut c = at(3);
    c.move_up(8);
    assert_eq!(c.index, 0);
    let mut c = at(8);
    c.move_up(8);
    assert_eq!(c.index, 0);
    let mut c = at(21);
    c.move_up(8);
    assert_eq!(c.index, 13);
}

#[test]
fn move_down_from_2_in_5_bytes_clamps_to_4() {
    let mut c = at(2);
    c.move_down(5, 8);
    assert_eq!(c.index, 4);
}

#[test]
fn move_down_steps_a_whole_row_where_there_is_one() {
    let mut c = at(2);
    c.move_down(20, 8);
    assert_eq!(c.index, 10);
    c.move_down(20, 8);
    assert_eq!(c.index, 18);
    c.move_down(20, 8);
    assert_eq!(c.index, 19);
    let mut c = at(3);
    c.move_down(12, 8);
    assert_eq!(c.index, 11);
}

#[test]
fn move_down_does_not_overflow() {
    let mut c = at(5);
    c.move_down(10, usize::MAX);
    assert_eq!(c.index, 9);
    let mut c = at(usize::MAX - 2);
    c.move_down(usize::MAX, 8);
    assert_eq!(c.index, usize::MAX - 1);
}

#[test]
fn right_then_left_returns_except_from_the_last_byte() {
    let len = 6;
    for start in 0..len - 1 {
        let mut c = at(start);
        c.move_right(len);
        c.move_left();
        assert_eq!(c.index, start);
    }
    let mut c = at(len - 1);
    c.move_right(len);
    assert_eq!(c.index, len - 1);
    c.move_left();
    assert_eq!(c.index, len - 2);
}

#[test]
fn left_then_right_returns_except_from_the_first_byte() {
    let len = 6;
    for start in 1..len {
        let mut c = at(start);
        c.move_left();
        c.move_right(len);
        assert_eq!(c.index, start);
    }
    let mut c = at(0);
    c.move_left();
    assert_eq!(c.index, 0);
    c.move_right(len);
    assert_eq!(c.index, 1);
}
