use phosphor::cursor::Cursor;
use phosphor::types::Position;

#[test]
fn cursor_test_cursor_movement() {
    let mut cursor = Cursor::new();
    assert_eq!(cursor.position(), Position::new(0, 0));

    cursor.move_right(5);
    assert_eq!(cursor.position(), Position::new(0, 5));

    cursor.move_down(3);
    assert_eq!(cursor.position(), Position::new(3, 5));

    cursor.move_left(2);
    assert_eq!(cursor.position(), Position::new(3, 3));

    cursor.move_up(1);
    assert_eq!(cursor.position(), Position::new(2, 3));
}

#[test]
fn test_cursor_save_restore() {
    let mut cursor = Cursor::new();

    cursor.set_position(Position::new(5, 10));
    cursor.save();

    cursor.set_position(Position::new(1, 1));
    assert_eq!(cursor.position(), Position::new(1, 1));

    cursor.restore();
    assert_eq!(cursor.position(), Position::new(5, 10));
}

#[test]
fn test_cursor_saturating_movement() {
    let mut cursor = Cursor::new();

    cursor.move_left(10);
    assert_eq!(cursor.position(), Position::new(0, 0));

    cursor.move_up(10);
    assert_eq!(cursor.position(), Position::new(0, 0));
}

#[test]
fn cursor_saturates_at_the_top_of_u16() {
    let mut cursor = Cursor::new();
    cursor.set_row(65530);
    cursor.move_down(10);
    assert_eq!(cursor.position().row, 65535);
    cursor.set_col(3);
    cursor.saturating_left();
    assert_eq!(cursor.position().col, 2);
    cursor.set_column(0);
    cursor.saturating_left();
    assert_eq!(cursor.position().col, 0);
    assert!(cursor.is_visible());
    cursor.set_visible(false);
    assert!(!cursor.is_visible());
}
