use phosphor::ansi::AnsiProcessor;
use phosphor::parser::VteParser;
use phosphor::state::TerminalState;
use phosphor::types::{AttributeFlags, Color, Position, Size};

#[test]
fn ansi_test_cursor_movement() {
    let mut state = TerminalState::new(Size::new(80, 24));
    let mut parser = VteParser::new();

    let events = parser.parse(b"\x1b[10;20H");
    for event in events {
        AnsiProcessor::process_event(&mut state, event);
    }
    assert_eq!(state.cursor_position(), Position::new(9, 19));

    let events = parser.parse(b"\x1b[5A");
    for event in events {
        AnsiProcessor::process_event(&mut state, event);
    }
    assert_eq!(state.cursor_position(), Position::new(4, 19));
}

#[test]
fn test_colors() {
    let mut state = TerminalState::new(Size::new(80, 24));
    let mut parser = VteParser::new();

    let events = parser.parse(b"\x1b[31;44m");
    for event in events {
        AnsiProcessor::process_event(&mut state, event);
    }

    let attrs = state.attributes();
    assert_eq!(attrs.fg_color, Color::Red);
    assert_eq!(attrs.bg_color, Color::Blue);

    let events = parser.parse(b"\x1b[0m");
    for event in events {
        AnsiProcessor::process_event(&mut state, event);
    }

    let attrs = state.attributes();
    assert_eq!(attrs.fg_color, Color::Default);
    assert_eq!(attrs.bg_color, Color::Default);
}

#[test]
fn test_text_attributes() {
    let mut state = TerminalState::new(Size::new(80, 24));
    let mut parser = VteParser::new();

    let events = parser.parse(b"\x1b[1;3;4m");
    for event in events {
        AnsiProcessor::process_event(&mut state, event);
    }

    let attrs = state.attributes();
    assert!(attrs.flags.contains(AttributeFlags::BOLD));
    assert!(attrs.flags.contains(AttributeFlags::ITALIC));
    assert!(attrs.flags.contains(AttributeFlags::UNDERLINE));
}
