use phosphor::state::TerminalState;
use phosphor::types::{Color, Position, Size};

#[test]
fn test_write_char() {
    let mut state = TerminalState::new(Size::new(80, 24));
    state.write_char('A');
    assert_eq!(state.cursor_position(), Position::new(0, 1));

    let cell = state.screen_buffer().get_cell(Position::new(0, 0));
    assert_eq!(cell.ch, 'A');
}

#[test]
fn test_newline() {
    let mut state = TerminalState::new(Size::new(80, 24));
    state.write_char('\n');
    assert_eq!(state.cursor_position(), Position::new(1, 0));
}

#[test]
fn test_carriage_return() {
    let mut state = TerminalState::new(Size::new(80, 24));
    state.write_str("Hello");
    state.write_char('\r');
    assert_eq!(state.cursor_position(), Position::new(0, 0));
}

#[test]
fn test_line_wrap() {
    let mut state = TerminalState::new(Size::new(3, 24));
    state.write_str("ABCD");
    assert_eq!(state.cursor_position(), Position::new(1, 1));
}

#[test]
fn test_tab() {
    let mut state = TerminalState::new(Size::new(80, 24));
    state.write_char('\t');
    assert_eq!(state.cursor_position(), Position::new(0, 8));

    state.write_char('X');
    state.write_char('\t');
    assert_eq!(state.cursor_position(), Position::new(0, 16));
}

#[test]
fn test_scroll() {
    let mut state = TerminalState::new(Size::new(80, 3));

    for i in 0..4 {
        state.write_str(&format!("Line {}\n", i));
    }

    assert_eq!(state.cursor_position().row, 2);
    assert_eq!(state.scrollback_buffer().len(), 1);
}

#[test]
fn debug_scroll() {
    let mut state = TerminalState::new(Size::new(80, 3));

    println!(
        "Initial: cursor={:?}, scrollback={}",
        state.cursor_position(),
        state.scrollback_buffer().len()
    );

    for i in 0..4 {
        state.write_str(&format!("Line {}\n", i));
        println!(
            "After Line {}: cursor={:?}, scrollback={}",
            i,
            state.cursor_position(),
            state.scrollback_buffer().len()
        );
    }
}

#[test]
fn tab_without_stop_goes_to_last_column() {
    let mut state = TerminalState::new(Size::new(10, 2));
    state.write_char('\t');
    assert_eq!(state.cursor_position(), Position::new(0, 8));
    state.write_char('\t');
    assert_eq!(state.cursor_position(), Position::new(0, 9));
    state.clear_all_tab_stops();
    state.set_cursor_position(Position::new(0, 0));
    state.write_char('\t');
    assert_eq!(state.cursor_position(), Position::new(0, 9));
}

#[test]
fn backspace_only_moves_left() {
    let mut state = TerminalState::new(Size::new(10, 2));
    state.write_str("ab\x08");
    assert_eq!(state.cursor_position(), Position::new(0, 1));
    assert_eq!(state.screen_buffer().get_cell(Position::new(0, 1)).ch, 'b');
    state.write_str("\x08\x08\x08");
    assert_eq!(state.cursor_position(), Position::new(0, 0));
}

#[test]
fn writes_on_an_empty_screen_are_dropped() {
    let mut state = TerminalState::new(Size::new(0, 0));
    state.write_str("abc");
    assert_eq!(state.cursor_position(), Position::new(0, 0));
    assert_eq!(state.scrollback_buffer().len(), 0);
}

#[test]
fn resize_keeps_cells_and_clamps_cursor() {
    let mut state = TerminalState::new(Size::new(10, 5));
    state.write_str("hello");
    state.set_cursor_position(Position::new(4, 9));
    state.resize(Size::new(4, 2));
    assert_eq!(state.cursor_position(), Position::new(1, 3));
    assert_eq!(state.screen_buffer().get_cell(Position::new(0, 3)).ch, 'l');
    assert_eq!(state.size(), Size::new(4, 2));
}

#[test]
fn alternate_screen_round_trip() {
    let mut state = TerminalState::new(Size::new(5, 2));
    state.write_str("ab");
    state.enable_alternate_screen();
    assert!(state.snapshot().alternate_screen_active);
    assert_eq!(state.screen_buffer().get_cell(Position::new(0, 0)).ch, ' ');
    state.write_str("zz");
    state.disable_alternate_screen();
    assert!(!state.snapshot().alternate_screen_active);
    assert_eq!(state.screen_buffer().get_cell(Position::new(0, 0)).ch, 'a');
    assert_eq!(state.screen_buffer().get_cell(Position::new(0, 1)).ch, 'b');
}

#[test]
fn save_and_restore_cursor_position() {
    let mut state = TerminalState::new(Size::new(20, 10));
    state.set_cursor_position(Position::new(3, 4));
    state.save_cursor();
    state.set_cursor_position(Position::new(7, 1));
    state.cursor_up(2);
    state.restore_cursor();
    assert_eq!(state.cursor_position(), Position::new(3, 4));
}

#[test]
fn default_palette_entries() {
    let state = TerminalState::new(Size::new(2, 2));
    assert_eq!(state.palette_color(1), Color::Red);
    assert_eq!(state.palette_color(16), Color::Rgb(0, 0, 0));
    assert_eq!(state.palette_color(17), Color::Rgb(0, 0, 95));
    assert_eq!(state.palette_color(231), Color::Rgb(255, 255, 255));
    assert_eq!(state.palette_color(232), Color::Rgb(8, 8, 8));
    assert_eq!(state.palette_color(255), Color::Rgb(238, 238, 238));
}
