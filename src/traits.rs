use vstd::prelude::*;
use crate::types::Color;

verus! {

/// Events produced by the parser.
#[derive(Clone, Debug)]
pub enum ParsedEvent {
    Text(String),
    Control(ControlEvent),
    Csi(CsiSequence),
    Osc(OscSequence),
    Esc(EscSequence),
}

#[derive(Clone, Copy, Debug, PartialEq, Eq, Structural)]
pub enum ControlEvent {
    NewLine,
    CarriageReturn,
    Tab,
    Backspace,
    Clear,
    Bell,
    FormFeed,
    VerticalTab,
}

/// Control Sequence Introducer (CSI) sequences.
#[derive(Clone, Debug)]
pub enum CsiSequence {
    CursorUp(u16),
    CursorDown(u16),
    CursorForward(u16),
    CursorBack(u16),
    CursorPosition { row: u16, col: u16 },
    CursorColumn(u16),
    CursorNextLine(u16),
    CursorPreviousLine(u16),
    EraseDisplay(EraseMode),
    EraseLine(EraseMode),
    ScrollUp(u16),
    ScrollDown(u16),
    SetGraphicsRendition(Vec<SgrParameter>),
    ShowCursor,
    HideCursor,
    SetMode(Vec<Mode>),
    ResetMode(Vec<Mode>),
    DeviceStatusReport,
    CursorPositionReport,
    SaveCursor,
    RestoreCursor,
}

/// Operating System Command (OSC) sequences.
#[derive(Clone, Debug)]
pub enum OscSequence {
    SetTitle(String),
    SetIcon(String),
    SetHyperlink { id: Option<String>, uri: String },
    ResetHyperlink,
    SetColor { index: u8, color: Color },
    ResetColor(u8),
    Clipboard { clipboard: ClipboardType, data: String },
}

/// ESC sequences other than CSI and OSC.
#[derive(Clone, Copy, Debug, PartialEq, Eq, Structural)]
pub enum EscSequence {
    Index,
    NextLine,
    TabSet,
    ReverseIndex,
    KeypadApplicationMode,
    KeypadNumericMode,
    SaveCursor,
    RestoreCursor,
    Reset,
}

#[derive(Clone, Copy, Debug, PartialEq, Eq, Structural)]
pub enum EraseMode {
    Below,
    Above,
    All,
    Saved,
}

#[derive(Clone, Copy, Debug, PartialEq, Eq, Structural)]
pub enum SgrParameter {
    Reset,
    Bold,
    Dim,
    Italic,
    Underline,
    Blink,
    Reverse,
    Hidden,
    Strikethrough,
    NoBold,
    NoDim,
    NoItalic,
    NoUnderline,
    NoBlink,
    NoReverse,
    NoHidden,
    NoStrikethrough,
    Foreground(Color),
    Background(Color),
    UnderlineColor(Color),
    DefaultForeground,
    DefaultBackground,
    DefaultUnderlineColor,
}

#[derive(Clone, Copy, Debug, PartialEq, Eq, Structural)]
pub enum Mode {
    KeyboardAction,
    Insert,
    SendReceive,
    LineFeed,
    ApplicationCursor,
    ApplicationKeypad,
    ColumnMode,
    ScrollMode,
    ScreenMode,
    OriginMode,
    AutoWrap,
    AutoRepeat,
    MouseReporting,
    CursorVisible,
    AlternateScreen,
    BracketedPaste,
    FocusReporting,
}

#[derive(Clone, Copy, Debug, PartialEq, Eq, Structural)]
pub enum ClipboardType {
    Clipboard,
    Primary,
    Secondary,
}

/// A CSI sequence with its vectors seen as sequences. Sequences without a
/// vector are kept as they are.
pub enum CsiView {
    Plain(CsiSequence),
    Sgr(Seq<SgrParameter>),
    SetModes(Seq<Mode>),
    ResetModes(Seq<Mode>),
}

/// An OSC sequence with its strings seen as character sequences.
pub enum OscView {
    SetTitle(Seq<char>),
    SetIcon(Seq<char>),
    SetHyperlink { id: Option<Seq<char>>, uri: Seq<char> },
    ResetHyperlink,
    SetColor { index: u8, color: Color },
    ResetColor(u8),
    Clipboard { clipboard: ClipboardType, data: Seq<char> },
}

/// A parsed event with its strings and vectors seen as sequences.
pub enum EventView {
    Text(Seq<char>),
    Control(ControlEvent),
    Csi(CsiView),
    Osc(OscView),
    Esc(EscSequence),
}

pub open spec fn csi_view(c: CsiSequence) -> CsiView {
    match c {
        CsiSequence::SetGraphicsRendition(v) => CsiView::Sgr(v@),
        CsiSequence::SetMode(v) => CsiView::SetModes(v@),
        CsiSequence::ResetMode(v) => CsiView::ResetModes(v@),
        _ => CsiView::Plain(c),
    }
}

pub open spec fn opt_str_view(s: Option<String>) -> Option<Seq<char>> {
    match s {
        Some(t) => Some(t@),
        None => None,
    }
}

pub open spec fn osc_view(o: OscSequence) -> OscView {
    match o {
        OscSequence::SetTitle(s) => OscView::SetTitle(s@),
        OscSequence::SetIcon(s) => OscView::SetIcon(s@),
        OscSequence::SetHyperlink { id, uri } => OscView::SetHyperlink {
            id: opt_str_view(id),
            uri: uri@,
        },
        OscSequence::ResetHyperlink => OscView::ResetHyperlink,
        OscSequence::SetColor { index, color } => OscView::SetColor { index, color },
        OscSequence::ResetColor(i) => OscView::ResetColor(i),
        OscSequence::Clipboard { clipboard, data } => OscView::Clipboard { clipboard, data: data@ },
    }
}

pub open spec fn event_view(e: ParsedEvent) -> EventView {
    match e {
        ParsedEvent::Text(s) => EventView::Text(s@),
        ParsedEvent::Control(c) => EventView::Control(c),
        ParsedEvent::Csi(c) => EventView::Csi(csi_view(c)),
        ParsedEvent::Osc(o) => EventView::Osc(osc_view(o)),
        ParsedEvent::Esc(e) => EventView::Esc(e),
    }
}

pub open spec fn events_view(es: Seq<ParsedEvent>) -> Seq<EventView> {
    Seq::new(es.len(), |i: int| event_view(es[i]))
}

/// A parser whose state persists between calls.
pub trait TerminalParser {
    fn parse(&mut self, data: &[u8]) -> Vec<ParsedEvent>;
}

} // verus!
