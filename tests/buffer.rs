use phosphor::buffer::{ScreenBuffer, ScrollbackBuffer};
use phosphor::types::{Cell, Position, Size};

#[test]
fn test_screen_buffer_basic() {
    let mut buffer = ScreenBuffer::new(Size::new(10, 5));

    let pos = Position::new(2, 3);
    buffer.set_cell(pos, Cell::new('A'));
    assert_eq!(buffer.get_cell(pos).ch, 'A');

    let oob_pos = Position::new(10, 10);
    buffer.set_cell(oob_pos, Cell::new('B'));
    assert_eq!(buffer.get_cell(oob_pos).ch, ' ');
}

#[test]
fn test_screen_buffer_resize() {
    let mut buffer = ScreenBuffer::new(Size::new(5, 3));

    buffer.set_cell(Position::new(0, 0), Cell::new('A'));
    buffer.set_cell(Position::new(2, 4), Cell::new('B'));

    buffer.resize(Size::new(7, 5));
    assert_eq!(buffer.get_cell(Position::new(0, 0)).ch, 'A');
    assert_eq!(buffer.get_cell(Position::new(2, 4)).ch, 'B');
    assert_eq!(buffer.size(), Size::new(7, 5));

    buffer.resize(Size::new(3, 2));
    assert_eq!(buffer.get_cell(Position::new(0, 0)).ch, 'A');
    assert_eq!(buffer.size(), Size::new(3, 2));
}

#[test]
fn test_scrollback_buffer() {
    let mut scrollback = ScrollbackBuffer::new(3);

    scrollback.push(vec![Cell::new('1')]);
    scrollback.push(vec![Cell::new('2')]);
    scrollback.push(vec![Cell::new('3')]);
    assert_eq!(scrollback.len(), 3);

    scrollback.push(vec![Cell::new('4')]);
    assert_eq!(scrollback.len(), 3);

    assert_eq!(scrollback.get_line(0).unwrap()[0].ch, '2');
    assert_eq!(scrollback.get_line(2).unwrap()[0].ch, '4');
}

#[test]
fn scrollback_of_capacity_zero_keeps_nothing() {
    let mut scrollback = ScrollbackBuffer::new(0);
    scrollback.push(vec![Cell::new('1')]);
    assert_eq!(scrollback.len(), 0);
    assert!(scrollback.is_empty());
}

#[test]
fn screen_buffer_line_operations() {
    let mut buffer = ScreenBuffer::new(Size::new(3, 3));
    buffer.set_cell(Position::new(0, 0), Cell::new('a'));
    buffer.set_cell(Position::new(1, 0), Cell::new('b'));
    buffer.set_cell(Position::new(2, 0), Cell::new('c'));
    let top = buffer.remove_top_line().unwrap();
    assert_eq!(top[0].ch, 'a');
    buffer.add_blank_line();
    assert_eq!(buffer.get_cell(Position::new(0, 0)).ch, 'b');
    assert_eq!(buffer.get_cell(Position::new(2, 0)).ch, ' ');
    buffer.insert_blank_line(0);
    buffer.remove_bottom_line();
    assert_eq!(buffer.get_cell(Position::new(0, 0)).ch, ' ');
    assert_eq!(buffer.get_cell(Position::new(1, 0)).ch, 'b');
    buffer.clear_line(1);
    assert_eq!(buffer.get_cell(Position::new(1, 0)).ch, ' ');
    buffer.set_cell(Position::new(1, 1), Cell::new('x'));
    buffer.clear_cell(Position::new(1, 1));
    assert_eq!(buffer.get_cell(Position::new(1, 1)), Cell::blank());
    buffer.set_cell(Position::new(2, 2), Cell::new('y'));
    buffer.clear();
    assert_eq!(buffer.get_cell(Position::new(2, 2)), Cell::blank());
    assert_eq!(buffer.lines().len(), 3);
    assert!(buffer.get_line(3).is_none());
    assert_eq!(buffer.get_line(2).unwrap().len(), 3);
}
