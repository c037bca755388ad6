use phosphor::ansi::AnsiProcessor;
use phosphor::parser::VteParser;
use phosphor::state::TerminalState;
use phosphor::traits::{CsiSequence, EraseMode, OscSequence, ParsedEvent};
use phosphor::types::{AttributeFlags, Cell, CellAttributes, Color, Position, Size, TerminalMode};

fn feed(state: &mut TerminalState, parser: &mut VteParser, bytes: &[u8]) -> Vec<ParsedEvent> {
    let events = parser.parse(bytes);
    AnsiProcessor::process_events(state, events.clone());
    events
}

fn cells(state: &TerminalState) -> Vec<Vec<Cell>> {
    state.screen_buffer().lines().to_vec()
}

fn all_blank(state: &TerminalState) -> bool {
    cells(state).iter().all(|row| row.iter().all(|c| *c == Cell::blank()))
}

#[test]
fn erase_and_home_gives_blank_screen() {
    let mut state = TerminalState::new(Size::new(80, 24));
    let mut parser = VteParser::new();
    feed(&mut state, &mut parser, b"some text\r\nmore");
    feed(&mut state, &mut parser, b"\x1b[2J\x1b[H");
    assert!(all_blank(&state));
    assert_eq!(state.cursor_position(), Position::new(0, 0));
}

#[test]
fn cursor_position_then_print() {
    let mut state = TerminalState::new(Size::new(80, 24));
    let mut parser = VteParser::new();
    feed(&mut state, &mut parser, b"\x1b[10;20HA");
    let cell = state.screen_buffer().get_cell(Position::new(9, 19));
    assert_eq!(cell.ch, 'A');
    assert_eq!(cell.attrs, CellAttributes::default());
    assert_eq!(state.cursor_position(), Position::new(9, 20));
}

#[test]
fn colors_then_reset() {
    let mut state = TerminalState::new(Size::new(80, 24));
    let mut parser = VteParser::new();
    feed(&mut state, &mut parser, b"\x1b[31;44mX\x1b[0mY");
    let x = state.screen_buffer().get_cell(Position::new(0, 0));
    assert_eq!(x.ch, 'X');
    assert_eq!(x.attrs.fg_color, Color::Red);
    assert_eq!(x.attrs.bg_color, Color::Blue);
    let y = state.screen_buffer().get_cell(Position::new(0, 1));
    assert_eq!(y.ch, 'Y');
    assert_eq!(y.attrs, CellAttributes::default());
}

#[test]
fn cursor_back_saturates() {
    let mut state = TerminalState::new(Size::new(80, 24));
    let mut parser = VteParser::new();
    feed(&mut state, &mut parser, b"A\x1b[5D");
    assert_eq!(state.cursor_position(), Position::new(0, 0));
}

#[test]
fn indexed_foreground() {
    let mut state = TerminalState::new(Size::new(80, 24));
    let mut parser = VteParser::new();
    feed(&mut state, &mut parser, b"\x1b[38;5;123mZ");
    let z = state.screen_buffer().get_cell(Position::new(0, 0));
    assert_eq!(z.ch, 'Z');
    assert_eq!(z.attrs.fg_color, Color::Indexed(123));
}

#[test]
fn title_changes_no_cell() {
    let mut state = TerminalState::new(Size::new(80, 24));
    let mut parser = VteParser::new();
    let before = cells(&state);
    let events = feed(&mut state, &mut parser, b"\x1b]0;hello\x07");
    assert_eq!(events.len(), 1);
    match &events[0] {
        ParsedEvent::Osc(OscSequence::SetTitle(t)) => assert_eq!(t, "hello"),
        _ => panic!("Expected OSC SetTitle event"),
    }
    assert_eq!(cells(&state), before);
    assert_eq!(state.cursor_position(), Position::new(0, 0));
}

#[test]
fn three_row_scroll() {
    let mut state = TerminalState::new(Size::new(80, 3));
    let mut parser = VteParser::new();
    feed(&mut state, &mut parser, b"Line 0\nLine 1\nLine 2\nLine 3\n");
    assert_eq!(state.cursor_position().row, 2);
    assert_eq!(state.scrollback_buffer().len(), 1);
    let line: String = state.scrollback_buffer().get_line(0).unwrap().iter().map(|c| c.ch).collect();
    assert!(line.contains("Line 0"));
}

#[test]
fn alternate_screen_restores_primary() {
    let mut state = TerminalState::new(Size::new(80, 24));
    let mut parser = VteParser::new();
    feed(&mut state, &mut parser, b"primary text\r\nsecond line");
    let before = cells(&state);
    feed(&mut state, &mut parser, b"\x1b[?1049h");
    assert!(state.mode().contains(TerminalMode::ALTERNATE_SCREEN));
    feed(&mut state, &mut parser, b"full screen app output\r\n\x1b[31mred");
    feed(&mut state, &mut parser, b"\x1b[?1049l");
    assert_eq!(cells(&state), before);
    assert!(!state.mode().contains(TerminalMode::ALTERNATE_SCREEN));
}

#[test]
fn batching_of_events_does_not_matter() {
    let input: &[u8] = b"ab\x1b[2;3Hcd\x1b[1;31me\x1b[Kf\x1b[S\tg\x1bM";
    let mut one = TerminalState::new(Size::new(10, 4));
    let mut parser = VteParser::new();
    feed(&mut one, &mut parser, input);
    let mut two = TerminalState::new(Size::new(10, 4));
    let events = VteParser::new().parse(input);
    for e in events {
        AnsiProcessor::process_event(&mut two, e);
    }
    assert_eq!(cells(&one), cells(&two));
    assert_eq!(one.cursor_position(), two.cursor_position());
    assert_eq!(one.snapshot(), two.snapshot());
}

#[test]
fn erase_all_keeps_cursor_and_scrollback() {
    let mut state = TerminalState::new(Size::new(4, 2));
    let mut parser = VteParser::new();
    feed(&mut state, &mut parser, b"abcdefghij");
    let sb = state.scrollback_buffer().len();
    let pos = state.cursor_position();
    AnsiProcessor::process_event(&mut state, ParsedEvent::Csi(CsiSequence::EraseDisplay(EraseMode::All)));
    assert!(all_blank(&state));
    assert_eq!(state.cursor_position(), pos);
    assert_eq!(state.scrollback_buffer().len(), sb);
}

#[test]
fn printable_run_positions() {
    let mut state = TerminalState::new(Size::new(4, 3));
    state.write_str("abcdefg");
    assert_eq!(state.cursor_position(), Position::new(1, 3));
    let mut full = TerminalState::new(Size::new(4, 3));
    full.write_str("abcdefghijklmn");
    assert_eq!(full.cursor_position(), Position::new(2, 2));
    assert_eq!(full.scrollback_buffer().len(), 1);
}

#[test]
fn save_moves_restore() {
    let mut state = TerminalState::new(Size::new(80, 24));
    let mut parser = VteParser::new();
    feed(&mut state, &mut parser, b"\x1b[5;7H\x1b[s\x1b[10B\x1b[3C\r\x1b[2;2H\x1b[u");
    assert_eq!(state.cursor_position(), Position::new(4, 6));
    feed(&mut state, &mut parser, b"\x1b[3;3H\x1b7\x1b[H\x1b8");
    assert_eq!(state.cursor_position(), Position::new(2, 2));
}

#[test]
fn scrollback_stays_bounded() {
    let mut state = TerminalState::new(Size::new(2, 1));
    for _ in 0..10100 {
        state.write_str("x\n");
    }
    assert!(state.scrollback_buffer().len() <= 10000);
    let mut parser = VteParser::new();
    feed(&mut state, &mut parser, b"\x1b[3J");
    assert_eq!(state.scrollback_buffer().len(), 0);
}

#[test]
fn resize_scenario() {
    let mut state = TerminalState::new(Size::new(6, 4));
    let mut parser = VteParser::new();
    feed(&mut state, &mut parser, b"abc\r\ndef\x1b[4;6H");
    state.resize(Size::new(2, 2));
    assert_eq!(state.screen_buffer().get_cell(Position::new(0, 1)).ch, 'b');
    assert_eq!(state.screen_buffer().get_cell(Position::new(1, 0)).ch, 'd');
    assert_eq!(state.cursor_position(), Position::new(1, 1));
    assert_eq!(state.snapshot().cursor, Position::new(1, 1));
}

#[test]
fn bold_dim_and_reset_codes() {
    let mut state = TerminalState::new(Size::new(10, 2));
    let mut parser = VteParser::new();
    feed(&mut state, &mut parser, b"\x1b[1;2;5;7m");
    let f = state.attributes().flags;
    assert!(f.contains(AttributeFlags::BOLD) && f.contains(AttributeFlags::DIM));
    assert!(f.contains(AttributeFlags::BLINK_SLOW) && f.contains(AttributeFlags::REVERSE));
    feed(&mut state, &mut parser, b"\x1b[22;25m");
    let f = state.attributes().flags;
    assert!(!f.contains(AttributeFlags::BOLD) && !f.contains(AttributeFlags::DIM));
    assert!(!f.contains(AttributeFlags::BLINK_SLOW));
    assert!(f.contains(AttributeFlags::REVERSE));
    feed(&mut state, &mut parser, b"\x1b[92;103m");
    assert_eq!(state.attributes().fg_color, Color::BrightGreen);
    assert_eq!(state.attributes().bg_color, Color::BrightYellow);
    feed(&mut state, &mut parser, b"\x1b[39;49m");
    assert_eq!(state.attributes().fg_color, Color::Default);
}

#[test]
fn hyperlinks_and_palette_changes() {
    let mut state = TerminalState::new(Size::new(10, 2));
    let mut parser = VteParser::new();
    feed(&mut state, &mut parser, b"\x1b]8;id=a;http://x\x07L\x1b]8;;\x07N");
    let l = state.screen_buffer().get_cell(Position::new(0, 0));
    assert_eq!(l.hyperlink, Some(0));
    assert_eq!(state.hyperlink_uri(0).unwrap(), "http://x");
    assert_eq!(state.screen_buffer().get_cell(Position::new(0, 1)).hyperlink, None);
    feed(&mut state, &mut parser, b"\x1b]4;5;#010203\x07");
    assert_eq!(state.palette_color(5), Color::Rgb(1, 2, 3));
    feed(&mut state, &mut parser, b"\x1bc");
    assert_eq!(state.palette_color(5), Color::Magenta);
}

#[test]
fn snapshot_cursor_is_clamped() {
    let mut state = TerminalState::new(Size::new(80, 1));
    state.write_char('\n');
    assert_eq!(state.snapshot().cursor, Position::new(0, 0));
    assert_eq!(state.snapshot().cursor, state.cursor_position());
}

#[test]
fn new_tab_stop_is_reached() {
    let mut state = TerminalState::new(Size::new(20, 2));
    state.set_cursor_position(Position::new(0, 5));
    state.set_tab_stop();
    state.set_cursor_position(Position::new(0, 2));
    state.write_char('\t');
    assert_eq!(state.cursor_position(), Position::new(0, 5));
    state.write_char('\t');
    assert_eq!(state.cursor_position(), Position::new(0, 8));
}

#[test]
fn split_text_applies_like_whole() {
    let mut one = TerminalState::new(Size::new(3, 2));
    AnsiProcessor::process_event(&mut one, ParsedEvent::Text("abcde".to_string()));
    let mut two = TerminalState::new(Size::new(3, 2));
    AnsiProcessor::process_event(&mut two, ParsedEvent::Text("ab".to_string()));
    AnsiProcessor::process_event(&mut two, ParsedEvent::Text("cde".to_string()));
    assert_eq!(cells(&one), cells(&two));
    assert_eq!(one.snapshot(), two.snapshot());
}

#[test]
fn restore_after_direct_moves() {
    let mut state = TerminalState::new(Size::new(20, 10));
    state.set_cursor_position(Position::new(2, 3));
    state.save_cursor();
    state.cursor_mut().move_down(4);
    state.cursor_mut().move_right(7);
    state.set_cursor_position(Position::new(9, 0));
    state.restore_cursor();
    assert_eq!(state.cursor_position(), Position::new(2, 3));
}

#[test]
fn printable_run_cells() {
    let mut state = TerminalState::new(Size::new(4, 3));
    state.write_str("abcdefghij");
    let text: String = "abcdefghij".to_string();
    for (i, ch) in text.chars().enumerate() {
        let cell = state.screen_buffer().get_cell(Position::new((i / 4) as u16, (i % 4) as u16));
        assert_eq!(cell.ch, ch);
    }
    assert_eq!(state.scrollback_buffer().len(), 0);
    assert_eq!(state.cursor_position(), Position::new(2, 2));
}
