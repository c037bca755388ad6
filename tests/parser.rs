use phosphor::parser::VteParser;
use phosphor::traits::{
    ClipboardType, ControlEvent, CsiSequence, EscSequence, Mode, OscSequence, ParsedEvent,
    SgrParameter,
};
use phosphor::types::Color;

#[test]
fn test_plain_text() {
    let mut parser = VteParser::new();
    let events = parser.parse(b"Hello, World!");

    assert_eq!(events.len(), 1);
    match &events[0] {
        ParsedEvent::Text(s) => assert_eq!(s, "Hello, World!"),
        _ => panic!("Expected text event"),
    }
}

#[test]
fn test_control_characters() {
    let mut parser = VteParser::new();
    let events = parser.parse(b"Hello\nWorld\r\n");

    assert_eq!(events.len(), 5);
    assert!(matches!(events[0], ParsedEvent::Text(_)));
    assert!(matches!(events[1], ParsedEvent::Control(ControlEvent::NewLine)));
    assert!(matches!(events[2], ParsedEvent::Text(_)));
    assert!(matches!(events[3], ParsedEvent::Control(ControlEvent::CarriageReturn)));
    assert!(matches!(events[4], ParsedEvent::Control(ControlEvent::NewLine)));
}

#[test]
fn lib_test_cursor_movement() {
    let mut parser = VteParser::new();

    let events = parser.parse(b"\x1b[5A");
    assert_eq!(events.len(), 1);
    assert!(matches!(events[0], ParsedEvent::Csi(CsiSequence::CursorUp(5))));

    let events = parser.parse(b"\x1b[10;20H");
    assert_eq!(events.len(), 1);
    assert!(matches!(events[0], ParsedEvent::Csi(CsiSequence::CursorPosition { row: 10, col: 20 })));
}

#[test]
fn test_sgr_colors() {
    let mut parser = VteParser::new();

    let events = parser.parse(b"\x1b[31;42m");
    assert_eq!(events.len(), 1);
    match &events[0] {
        ParsedEvent::Csi(CsiSequence::SetGraphicsRendition(params)) => {
            assert_eq!(params.len(), 2);
            assert!(matches!(params[0], SgrParameter::Foreground(Color::Red)));
            assert!(matches!(params[1], SgrParameter::Background(Color::Green)));
        }
        _ => panic!("Expected SGR event"),
    }

    let events = parser.parse(b"\x1b[38;5;123m");
    assert_eq!(events.len(), 1);
    match &events[0] {
        ParsedEvent::Csi(CsiSequence::SetGraphicsRendition(params)) => {
            assert_eq!(params.len(), 1);
            assert!(matches!(params[0], SgrParameter::Foreground(Color::Indexed(123))));
        }
        _ => panic!("Expected SGR event"),
    }

    let events = parser.parse(b"\x1b[48;2;255;128;0m");
    assert_eq!(events.len(), 1);
    match &events[0] {
        ParsedEvent::Csi(CsiSequence::SetGraphicsRendition(params)) => {
            assert_eq!(params.len(), 1);
            assert!(matches!(params[0], SgrParameter::Background(Color::Rgb(255, 128, 0))));
        }
        _ => panic!("Expected SGR event"),
    }
}

#[test]
fn test_osc_sequences() {
    let mut parser = VteParser::new();

    let events = parser.parse(b"\x1b]0;My Terminal\x07");
    assert_eq!(events.len(), 1);
    match &events[0] {
        ParsedEvent::Osc(OscSequence::SetTitle(title)) => {
            assert_eq!(title, "My Terminal");
        }
        _ => panic!("Expected OSC SetTitle event"),
    }

    let events = parser.parse(b"\x1b]8;id=test;https://example.com\x07");
    assert_eq!(events.len(), 1);
    match &events[0] {
        ParsedEvent::Osc(OscSequence::SetHyperlink { id, uri }) => {
            assert_eq!(id.as_deref(), Some("test"));
            assert_eq!(uri, "https://example.com");
        }
        _ => panic!("Expected OSC SetHyperlink event"),
    }
}

/// Each character of each text as its own entry, other events by their
/// debug form: equal lists mean the same output up to how texts are cut.
fn units(events: &[ParsedEvent]) -> Vec<String> {
    let mut out = Vec::new();
    for e in events {
        match e {
            ParsedEvent::Text(s) => {
                for c in s.chars() {
                    out.push(format!("char {}", c));
                }
            }
            other => out.push(format!("{:?}", other)),
        }
    }
    out
}

#[test]
fn bytewise_parse_matches_whole_parse() {
    let input: &[u8] = b"ab\x1b[31;1mc\xc3\xa9d\x1b]0;t\xc3\xa9\x07\r\n\x1b[?25l\x1b7x\x1b[2J\xe2\x82";
    let mut whole = VteParser::new();
    let all = whole.parse(input);
    let mut split = VteParser::new();
    let mut pieces = Vec::new();
    for b in input {
        pieces.extend(split.parse(&[*b]));
    }
    pieces.extend(split.parse(b"\xacz"));
    let mut all_then = all.clone();
    all_then.extend(whole.parse(b"\xacz"));
    assert_eq!(units(&all_then), units(&pieces));
}

#[test]
fn sequence_split_across_chunks() {
    let mut parser = VteParser::new();
    assert_eq!(parser.parse(b"\x1b[1").len(), 0);
    let events = parser.parse(b"0;2H");
    assert!(matches!(events[0], ParsedEvent::Csi(CsiSequence::CursorPosition { row: 10, col: 2 })));
}

#[test]
fn utf8_text_and_replacement() {
    let mut parser = VteParser::new();
    let events = parser.parse("h\u{e9}\u{20ac}\u{1F600}".as_bytes());
    match &events[0] {
        ParsedEvent::Text(s) => assert_eq!(s, "h\u{e9}\u{20ac}\u{1F600}"),
        _ => panic!("Expected text event"),
    }
    let events = parser.parse(b"a\xffb\xc3(");
    match &events[0] {
        ParsedEvent::Text(s) => assert_eq!(s, "a\u{FFFD}b\u{FFFD}("),
        _ => panic!("Expected text event"),
    }
    let events = parser.parse(b"\xed\xa0\x80");
    match &events[0] {
        ParsedEvent::Text(s) => assert_eq!(s, "\u{FFFD}\u{FFFD}\u{FFFD}"),
        _ => panic!("Expected text event"),
    }
}

#[test]
fn empty_sgr_is_reset_and_private_modes() {
    let mut parser = VteParser::new();
    let events = parser.parse(b"\x1b[m\x1b[?1049h\x1b[?25l\x1b[4l\x1b[?9999h");
    assert_eq!(events.len(), 4);
    match &events[0] {
        ParsedEvent::Csi(CsiSequence::SetGraphicsRendition(p)) => {
            assert_eq!(p.len(), 1);
            assert!(matches!(p[0], SgrParameter::Reset));
        }
        _ => panic!("Expected SGR event"),
    }
    match &events[1] {
        ParsedEvent::Csi(CsiSequence::SetMode(m)) => assert_eq!(m, &vec![Mode::AlternateScreen]),
        _ => panic!("Expected set mode"),
    }
    assert!(matches!(events[2], ParsedEvent::Csi(CsiSequence::HideCursor)));
    match &events[3] {
        ParsedEvent::Csi(CsiSequence::ResetMode(m)) => assert_eq!(m, &vec![Mode::Insert]),
        _ => panic!("Expected reset mode"),
    }
}

#[test]
fn esc_sequences_and_erase_modes() {
    let mut parser = VteParser::new();
    let events = parser.parse(b"\x1b7\x1b8\x1bc\x1bD\x1bM\x1b(B\x1b[3J\x1b[3K\x1b[1K\x1b[0J");
    assert!(matches!(events[0], ParsedEvent::Esc(EscSequence::SaveCursor)));
    assert!(matches!(events[1], ParsedEvent::Esc(EscSequence::RestoreCursor)));
    assert!(matches!(events[2], ParsedEvent::Esc(EscSequence::Reset)));
    assert!(matches!(events[3], ParsedEvent::Esc(EscSequence::Index)));
    assert!(matches!(events[4], ParsedEvent::Esc(EscSequence::ReverseIndex)));
    assert!(matches!(events[5], ParsedEvent::Csi(CsiSequence::EraseDisplay(phosphor::traits::EraseMode::Saved))));
    assert!(matches!(events[6], ParsedEvent::Csi(CsiSequence::EraseLine(phosphor::traits::EraseMode::Below))));
    assert!(matches!(events[7], ParsedEvent::Csi(CsiSequence::EraseLine(phosphor::traits::EraseMode::Above))));
    assert!(matches!(events[8], ParsedEvent::Csi(CsiSequence::EraseDisplay(phosphor::traits::EraseMode::Below))));
    assert_eq!(events.len(), 9);
}

#[test]
fn osc_color_clipboard_and_reset_link() {
    let mut parser = VteParser::new();
    let events = parser.parse(b"\x1b]4;1;#ff8000\x1b\\\x1b]4;2;rgb:10/20/30\x07\x1b]52;p;aGk=\x07\x1b]8;;\x07");
    assert_eq!(events.len(), 4);
    assert!(matches!(events[0], ParsedEvent::Osc(OscSequence::SetColor { index: 1, color: Color::Rgb(255, 128, 0) })));
    assert!(matches!(events[1], ParsedEvent::Osc(OscSequence::SetColor { index: 2, color: Color::Rgb(16, 32, 48) })));
    match &events[2] {
        ParsedEvent::Osc(OscSequence::Clipboard { clipboard, data }) => {
            assert_eq!(*clipboard, ClipboardType::Primary);
            assert_eq!(data, "aGk=");
        }
        _ => panic!("Expected clipboard event"),
    }
    assert!(matches!(events[3], ParsedEvent::Osc(OscSequence::ResetHyperlink)));
}

#[test]
fn controls_inside_csi_are_executed() {
    let mut parser = VteParser::new();
    let events = parser.parse(b"\x1b[2\nA");
    assert_eq!(events.len(), 2);
    assert!(matches!(events[0], ParsedEvent::Control(ControlEvent::NewLine)));
    assert!(matches!(events[1], ParsedEvent::Csi(CsiSequence::CursorUp(2))));
    let events = parser.parse(b"\x1b[5\x18A");
    assert_eq!(events.len(), 1);
    assert!(matches!(&events[0], ParsedEvent::Text(s) if s == "A"));
    assert_eq!(parser.take_events().len(), 0);
}
