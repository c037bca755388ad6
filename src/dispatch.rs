use vstd::prelude::*;
use crate::traits::{
    ClipboardType, ControlEvent, CsiSequence, CsiView, EraseMode, EscSequence, EventView, Mode,
    OscSequence, OscView, ParsedEvent, SgrParameter, events_view,
};
use crate::types::{ansi_color, Color};
use crate::utf8::{decode_utf8, decode_utf8_exec, string_from_chars};

verus! {

/// Event of a C0 control byte; bytes without one give none.
pub open spec fn execute_events(b: u8) -> Seq<EventView> {
    if b == 0x07 {
        seq![EventView::Control(ControlEvent::Bell)]
    } else if b == 0x08 {
        seq![EventView::Control(ControlEvent::Backspace)]
    } else if b == 0x09 {
        seq![EventView::Control(ControlEvent::Tab)]
    } else if b == 0x0A {
        seq![EventView::Control(ControlEvent::NewLine)]
    } else if b == 0x0B {
        seq![EventView::Control(ControlEvent::VerticalTab)]
    } else if b == 0x0C {
        seq![EventView::Control(ControlEvent::FormFeed)]
    } else if b == 0x0D {
        seq![EventView::Control(ControlEvent::CarriageReturn)]
    } else {
        Seq::empty()
    }
}

pub open spec fn esc_of(b: u8) -> Option<EscSequence> {
    if b == 0x44 {
        Some(EscSequence::Index)
    } else if b == 0x45 {
        Some(EscSequence::NextLine)
    } else if b == 0x48 {
        Some(EscSequence::TabSet)
    } else if b == 0x4D {
        Some(EscSequence::ReverseIndex)
    } else if b == 0x63 {
        Some(EscSequence::Reset)
    } else if b == 0x37 {
        Some(EscSequence::SaveCursor)
    } else if b == 0x38 {
        Some(EscSequence::RestoreCursor)
    } else if b == 0x3D {
        Some(EscSequence::KeypadApplicationMode)
    } else if b == 0x3E {
        Some(EscSequence::KeypadNumericMode)
    } else {
        None
    }
}

/// Event of an ESC sequence with final byte `b`; only sequences without
/// intermediate bytes are recognized.
pub open spec fn esc_events(inter: Seq<u8>, ignoring: bool, b: u8) -> Seq<EventView> {
    if ignoring || inter.len() > 0 {
        Seq::empty()
    } else {
        match esc_of(b) {
            Some(e) => seq![EventView::Esc(e)],
            None => Seq::empty(),
        }
    }
}

/// Parameter `i`, or `d` when it is missing or zero.
pub open spec fn get_param(ps: Seq<u16>, i: int, d: u16) -> u16 {
    if 0 <= i < ps.len() && ps[i] > 0 {
        ps[i]
    } else {
        d
    }
}

/// The first parameter, 0 when there is none.
pub open spec fn first_param(ps: Seq<u16>) -> u16 {
    if ps.len() > 0 {
        ps[0]
    } else {
        0
    }
}

pub open spec fn clamp_u8(v: u16) -> u8 {
    if v > 255 {
        255
    } else {
        v as u8
    }
}

/// The color that an extended color code at `i` (38 or 48) selects, with the
/// number of parameters it takes: `5;n` for an indexed color, `2;r;g;b` for
/// an RGB color.
pub open spec fn ext_color(ps: Seq<u16>, i: int) -> Option<(Color, int)> {
    if i + 2 < ps.len() && ps[i + 1] == 5 {
        Some((Color::Indexed(clamp_u8(ps[i + 2])), 3))
    } else if i + 4 < ps.len() && ps[i + 1] == 2 {
        Some((Color::Rgb(clamp_u8(ps[i + 2]), clamp_u8(ps[i + 3]), clamp_u8(ps[i + 4])), 5))
    } else {
        None
    }
}

/// The attribute change of a one-parameter SGR code.
pub open spec fn sgr_code(v: u16) -> Option<SgrParameter> {
    if v == 0 {
        Some(SgrParameter::Reset)
    } else if v == 1 {
        Some(SgrParameter::Bold)
    } else if v == 2 {
        Some(SgrParameter::Dim)
    } else if v == 3 {
        Some(SgrParameter::Italic)
    } else if v == 4 {
        Some(SgrParameter::Underline)
    } else if v == 5 {
        Some(SgrParameter::Blink)
    } else if v == 7 {
        Some(SgrParameter::Reverse)
    } else if v == 8 {
        Some(SgrParameter::Hidden)
    } else if v == 9 {
        Some(SgrParameter::Strikethrough)
    } else if v == 21 {
        Some(SgrParameter::NoBold)
    } else if v == 22 {
        Some(SgrParameter::NoDim)
    } else if v == 23 {
        Some(SgrParameter::NoItalic)
    } else if v == 24 {
        Some(SgrParameter::NoUnderline)
    } else if v == 25 {
        Some(SgrParameter::NoBlink)
    } else if v == 27 {
        Some(SgrParameter::NoReverse)
    } else if v == 28 {
        Some(SgrParameter::NoHidden)
    } else if v == 29 {
        Some(SgrParameter::NoStrikethrough)
    } else if 30 <= v && v <= 37 {
        Some(SgrParameter::Foreground(ansi_color((v - 30) as u8)))
    } else if v == 39 {
        Some(SgrParameter::DefaultForeground)
    } else if 40 <= v && v <= 47 {
        Some(SgrParameter::Background(ansi_color((v - 40) as u8)))
    } else if v == 49 {
        Some(SgrParameter::DefaultBackground)
    } else if 90 <= v && v <= 97 {
        Some(SgrParameter::Foreground(ansi_color((v - 82) as u8)))
    } else if 100 <= v && v <= 107 {
        Some(SgrParameter::Background(ansi_color((v - 92) as u8)))
    } else {
        None
    }
}

/// The attribute changes of the SGR parameters from index `i` on, read left
/// to right. An unknown code, or an extended color code without a complete
/// color after it, is skipped on its own.
pub open spec fn sgr_from(ps: Seq<u16>, i: nat) -> Seq<SgrParameter>
    decreases ps.len() - i,
{
    if i >= ps.len() {
        Seq::empty()
    } else if ps[i as int] == 38 || ps[i as int] == 48 {
        match ext_color(ps, i as int) {
            Some(cn) => seq![
                if ps[i as int] == 38 {
                    SgrParameter::Foreground(cn.0)
                } else {
                    SgrParameter::Background(cn.0)
                },
            ] + sgr_from(ps, (i + cn.1) as nat),
            None => sgr_from(ps, i + 1),
        }
    } else {
        match sgr_code(ps[i as int]) {
            Some(p) => seq![p] + sgr_from(ps, i + 1),
            None => sgr_from(ps, i + 1),
        }
    }
}

/// The attribute changes that SGR parameters ask for. No parameter at all
/// means a reset.
pub open spec fn sgr_parse(ps: Seq<u16>) -> Seq<SgrParameter> {
    if ps.len() == 0 {
        seq![SgrParameter::Reset]
    } else {
        sgr_from(ps, 0)
    }
}

/// The mode that an ANSI mode number names.
pub open spec fn ansi_mode_of(v: u16) -> Option<Mode> {
    if v == 2 {
        Some(Mode::KeyboardAction)
    } else if v == 4 {
        Some(Mode::Insert)
    } else if v == 12 {
        Some(Mode::SendReceive)
    } else if v == 20 {
        Some(Mode::LineFeed)
    } else {
        None
    }
}

/// The mode that a DEC private mode number names.
pub open spec fn dec_mode_of(v: u16) -> Option<Mode> {
    if v == 1 {
        Some(Mode::ApplicationCursor)
    } else if v == 3 {
        Some(Mode::ColumnMode)
    } else if v == 4 {
        Some(Mode::ScrollMode)
    } else if v == 5 {
        Some(Mode::ScreenMode)
    } else if v == 6 {
        Some(Mode::OriginMode)
    } else if v == 7 {
        Some(Mode::AutoWrap)
    } else if v == 8 {
        Some(Mode::AutoRepeat)
    } else if v == 47 || v == 1047 || v == 1049 {
        Some(Mode::AlternateScreen)
    } else if v == 1000 || v == 1002 || v == 1003 {
        Some(Mode::MouseReporting)
    } else if v == 1004 {
        Some(Mode::FocusReporting)
    } else if v == 2004 {
        Some(Mode::BracketedPaste)
    } else {
        None
    }
}

/// Event of one mode number of a set (`on`) or reset mode sequence.
/// Private mode 25 shows or hides the cursor.
pub open spec fn mode_event(v: u16, private: bool, on: bool) -> Seq<EventView> {
    if private && v == 25 {
        seq![EventView::Csi(CsiView::Plain(if on { CsiSequence::ShowCursor } else { CsiSequence::HideCursor }))]
    } else {
        match if private { dec_mode_of(v) } else { ansi_mode_of(v) } {
            Some(m) => seq![EventView::Csi(if on { CsiView::SetModes(seq![m]) } else { CsiView::ResetModes(seq![m]) })],
            None => Seq::empty(),
        }
    }
}

pub open spec fn mode_events(ps: Seq<u16>, private: bool, on: bool) -> Seq<EventView>
    decreases ps.len(),
{
    if ps.len() == 0 {
        Seq::empty()
    } else {
        mode_events(ps.drop_last(), private, on) + mode_event(ps.last(), private, on)
    }
}

pub open spec fn plain(c: CsiSequence) -> Seq<EventView> {
    seq![EventView::Csi(CsiView::Plain(c))]
}

pub open spec fn erase_of(v: u16, max: u16) -> EraseMode {
    if v == 1 {
        EraseMode::Above
    } else if v == 2 {
        EraseMode::All
    } else if v == 3 && max == 3 {
        EraseMode::Saved
    } else {
        EraseMode::Below
    }
}

/// Events of a CSI sequence with parameters `ps`, intermediate bytes `inter`
/// and final byte `a`. Movement counts of 0 or missing mean 1.
pub open spec fn csi_events(ps: Seq<u16>, inter: Seq<u8>, a: u8) -> Seq<EventView> {
    if inter.len() == 0 {
        if a == 0x41 {
            plain(CsiSequence::CursorUp(get_param(ps, 0, 1)))
        } else if a == 0x42 {
            plain(CsiSequence::CursorDown(get_param(ps, 0, 1)))
        } else if a == 0x43 {
            plain(CsiSequence::CursorForward(get_param(ps, 0, 1)))
        } else if a == 0x44 {
            plain(CsiSequence::CursorBack(get_param(ps, 0, 1)))
        } else if a == 0x45 {
            plain(CsiSequence::CursorNextLine(get_param(ps, 0, 1)))
        } else if a == 0x46 {
            plain(CsiSequence::CursorPreviousLine(get_param(ps, 0, 1)))
        } else if a == 0x47 {
            plain(CsiSequence::CursorColumn(get_param(ps, 0, 1)))
        } else if a == 0x48 || a == 0x66 {
            plain(CsiSequence::CursorPosition { row: get_param(ps, 0, 1), col: get_param(ps, 1, 1) })
        } else if a == 0x4A {
            plain(CsiSequence::EraseDisplay(erase_of(first_param(ps), 3)))
        } else if a == 0x4B {
            plain(CsiSequence::EraseLine(erase_of(first_param(ps), 2)))
        } else if a == 0x53 {
            plain(CsiSequence::ScrollUp(get_param(ps, 0, 1)))
        } else if a == 0x54 {
            plain(CsiSequence::ScrollDown(get_param(ps, 0, 1)))
        } else if a == 0x6D {
            seq![EventView::Csi(CsiView::Sgr(sgr_parse(ps)))]
        } else if a == 0x68 {
            mode_events(ps, false, true)
        } else if a == 0x6C {
            mode_events(ps, false, false)
        } else if a == 0x73 {
            plain(CsiSequence::SaveCursor)
        } else if a == 0x75 {
            plain(CsiSequence::RestoreCursor)
        } else if a == 0x6E && first_param(ps) == 5 {
            plain(CsiSequence::DeviceStatusReport)
        } else if a == 0x6E && first_param(ps) == 6 {
            plain(CsiSequence::CursorPositionReport)
        } else {
            Seq::empty()
        }
    } else if inter == seq![0x3Fu8] && a == 0x68 {
        mode_events(ps, true, true)
    } else if inter == seq![0x3Fu8] && a == 0x6C {
        mode_events(ps, true, false)
    } else {
        Seq::empty()
    }
}

pub open spec fn is_digit(b: u8) -> bool {
    0x30 <= b && b <= 0x39
}

pub open spec fn dec_value(s: Seq<u8>) -> nat
    decreases s.len(),
{
    if s.len() == 0 {
        0
    } else {
        dec_value(s.drop_last()) * 10 + (s.last() - 0x30) as nat
    }
}

/// The number that one to four decimal digits spell.
pub open spec fn dec_num(s: Seq<u8>) -> Option<nat> {
    if 1 <= s.len() <= 4 && (forall|i: int| 0 <= i < s.len() ==> is_digit(#[trigger] s[i])) {
        Some(dec_value(s))
    } else {
        None
    }
}

pub open spec fn hex_val(b: u8) -> Option<u8> {
    if 0x30 <= b && b <= 0x39 {
        Some((b - 0x30) as u8)
    } else if 0x61 <= b && b <= 0x66 {
        Some((b - 0x57) as u8)
    } else if 0x41 <= b && b <= 0x46 {
        Some((b - 0x37) as u8)
    } else {
        None
    }
}

/// The byte that the two hex digits at `i` spell.
pub open spec fn hex_pair(s: Seq<u8>, i: int) -> Option<u8> {
    match (hex_val(s[i]), hex_val(s[i + 1])) {
        (Some(h), Some(l)) => Some((h * 16 + l) as u8),
        _ => None,
    }
}

pub open spec fn rgb_of(r: Option<u8>, g: Option<u8>, b: Option<u8>) -> Option<Color> {
    match (r, g, b) {
        (Some(r), Some(g), Some(b)) => Some(Color::Rgb(r, g, b)),
        _ => None,
    }
}

/// A color written `#rrggbb` or `rgb:rr/gg/bb`, two hex digits each.
pub open spec fn parse_color(s: Seq<u8>) -> Option<Color> {
    if s.len() == 7 && s[0] == 0x23 {
        rgb_of(hex_pair(s, 1), hex_pair(s, 3), hex_pair(s, 5))
    } else if s.len() == 12 && s[0] == 0x72 && s[1] == 0x67 && s[2] == 0x62 && s[3] == 0x3A && s[6] == 0x2F
        && s[9] == 0x2F {
        rgb_of(hex_pair(s, 4), hex_pair(s, 7), hex_pair(s, 10))
    } else {
        None
    }
}

/// The `id=` value of the parameters of a hyperlink.
pub open spec fn link_id(p: Seq<u8>) -> Option<Seq<char>> {
    if p.len() >= 3 && p[0] == 0x69 && p[1] == 0x64 && p[2] == 0x3D {
        Some(decode_utf8(p.subrange(3, p.len() as int)))
    } else {
        None
    }
}

pub open spec fn selection_of(p: Seq<u8>) -> ClipboardType {
    if p.len() > 0 && p[0] == 0x70 {
        ClipboardType::Primary
    } else if p.len() > 0 && p[0] == 0x73 {
        ClipboardType::Secondary
    } else {
        ClipboardType::Clipboard
    }
}

/// Events of an OSC string split at `;` into `osc`.
pub open spec fn osc_events(osc: Seq<Seq<u8>>) -> Seq<EventView> {
    if osc.len() == 0 {
        Seq::empty()
    } else {
        let num = dec_num(osc[0]);
        if num == Some(0nat) || num == Some(2nat) {
            if osc.len() > 1 {
                seq![EventView::Osc(OscView::SetTitle(decode_utf8(osc[1])))]
            } else {
                Seq::empty()
            }
        } else if num == Some(8nat) {
            if osc.len() > 2 {
                if osc[2].len() == 0 {
                    seq![EventView::Osc(OscView::ResetHyperlink)]
                } else {
                    seq![EventView::Osc(OscView::SetHyperlink { id: link_id(osc[1]), uri: decode_utf8(osc[2]) })]
                }
            } else {
                Seq::empty()
            }
        } else if num == Some(4nat) {
            if osc.len() > 2 && dec_num(osc[1]).is_some() && dec_num(osc[1]).unwrap() <= 255
                && parse_color(osc[2]).is_some() {
                seq![EventView::Osc(OscView::SetColor {
                    index: dec_num(osc[1]).unwrap() as u8,
                    color: parse_color(osc[2]).unwrap(),
                })]
            } else {
                Seq::empty()
            }
        } else if num == Some(52nat) {
            if osc.len() > 2 {
                seq![EventView::Osc(OscView::Clipboard { clipboard: selection_of(osc[1]), data: decode_utf8(osc[2]) })]
            } else {
                Seq::empty()
            }
        } else {
            Seq::empty()
        }
    }
}

fn one(e: ParsedEvent) -> (r: Vec<ParsedEvent>)
    ensures
        events_view(r@) == seq![crate::traits::event_view(e)],
{
    let mut v: Vec<ParsedEvent> = Vec::new();
    v.push(e);
    assert(events_view(v@) =~= seq![crate::traits::event_view(e)]);
    v
}

fn none() -> (r: Vec<ParsedEvent>)
    ensures
        events_view(r@) == Seq::<EventView>::empty(),
{
    let v: Vec<ParsedEvent> = Vec::new();
    assert(events_view(v@) =~= Seq::<EventView>::empty());
    v
}

fn csi(c: CsiSequence) -> (r: Vec<ParsedEvent>)
    requires
        crate::traits::csi_view(c) == CsiView::Plain(c),
    ensures
        events_view(r@) == plain(c),
{
    one(ParsedEvent::Csi(c))
}

/// Events of a C0 control byte.
pub fn execute_events_exec(b: u8) -> (r: Vec<ParsedEvent>)
    ensures
        events_view(r@) == execute_events(b),
{
    match b {
        0x07 => one(ParsedEvent::Control(ControlEvent::Bell)),
        0x08 => one(ParsedEvent::Control(ControlEvent::Backspace)),
        0x09 => one(ParsedEvent::Control(ControlEvent::Tab)),
        0x0A => one(ParsedEvent::Control(ControlEvent::NewLine)),
        0x0B => one(ParsedEvent::Control(ControlEvent::VerticalTab)),
        0x0C => one(ParsedEvent::Control(ControlEvent::FormFeed)),
        0x0D => one(ParsedEvent::Control(ControlEvent::CarriageReturn)),
        _ => none(),
    }
}

/// Events of an ESC sequence.
pub fn esc_events_exec(inter: &Vec<u8>, ignoring: bool, b: u8) -> (r: Vec<ParsedEvent>)
    ensures
        events_view(r@) == esc_events(inter@, ignoring, b),
{
    if ignoring || inter.len() > 0 {
        return none();
    }
    let e = match b {
        0x44 => EscSequence::Index,
        0x45 => EscSequence::NextLine,
        0x48 => EscSequence::TabSet,
        0x4D => EscSequence::ReverseIndex,
        0x63 => EscSequence::Reset,
        0x37 => EscSequence::SaveCursor,
        0x38 => EscSequence::RestoreCursor,
        0x3D => EscSequence::KeypadApplicationMode,
        0x3E => EscSequence::KeypadNumericMode,
        _ => {
            return none();
        },
    };
    one(ParsedEvent::Esc(e))
}

/// Parameter `index`, or `default` when it is missing or zero.
pub fn get_param_exec(params: &Vec<u16>, index: usize, default: u16) -> (r: u16)
    ensures
        r == get_param(params@, index as int, default),
{
    if index < params.len() && params[index] > 0 {
        params[index]
    } else {
        default
    }
}

fn clamp_u8_exec(v: u16) -> (r: u8)
    ensures
        r == clamp_u8(v),
{
    if v > 255 {
        255
    } else {
        v as u8
    }
}

fn sgr_code_exec(v: u16) -> (r: Option<SgrParameter>)
    ensures
        r == sgr_code(v),
{
    match v {
        0 => Some(SgrParameter::Reset),
        1 => Some(SgrParameter::Bold),
        2 => Some(SgrParameter::Dim),
        3 => Some(SgrParameter::Italic),
        4 => Some(SgrParameter::Underline),
        5 => Some(SgrParameter::Blink),
        7 => Some(SgrParameter::Reverse),
        8 => Some(SgrParameter::Hidden),
        9 => Some(SgrParameter::Strikethrough),
        21 => Some(SgrParameter::NoBold),
        22 => Some(SgrParameter::NoDim),
        23 => Some(SgrParameter::NoItalic),
        24 => Some(SgrParameter::NoUnderline),
        25 => Some(SgrParameter::NoBlink),
        27 => Some(SgrParameter::NoReverse),
        28 => Some(SgrParameter::NoHidden),
        29 => Some(SgrParameter::NoStrikethrough),
        30..=37 => Some(SgrParameter::Foreground(Color::from_ansi((v - 30) as u8))),
        39 => Some(SgrParameter::DefaultForeground),
        40..=47 => Some(SgrParameter::Background(Color::from_ansi((v - 40) as u8))),
        49 => Some(SgrParameter::DefaultBackground),
        90..=97 => Some(SgrParameter::Foreground(Color::from_ansi((v - 82) as u8))),
        100..=107 => Some(SgrParameter::Background(Color::from_ansi((v - 92) as u8))),
        _ => None,
    }
}

/// The attribute changes that SGR parameters ask for, read left to right.
pub fn parse_sgr_params(params: &Vec<u16>) -> (r: Vec<SgrParameter>)
    ensures
        r@ == sgr_parse(params@),
{
    let mut out: Vec<SgrParameter> = Vec::new();
    let n = params.len();
    if n == 0 {
        out.push(SgrParameter::Reset);
        assert(out@ =~= seq![SgrParameter::Reset]);
        return out;
    }
    let ghost ps = params@;
    let mut i: usize = 0;
    while i < n
        invariant
            n == ps.len(),
            ps == params@,
            i <= n + 4,
            out@ + sgr_from(ps, i as nat) == sgr_from(ps, 0),
        decreases n + 4 - i,
    {
        let ghost before = out@;
        let v = params[i];
        if v == 38 || v == 48 {
            let ext: Option<(Color, usize)> = if n - i > 2 && params[i + 1] == 5 {
                Some((Color::Indexed(clamp_u8_exec(params[i + 2])), 3))
            } else if n - i > 4 && params[i + 1] == 2 {
                Some((
                    Color::Rgb(
                        clamp_u8_exec(params[i + 2]),
                        clamp_u8_exec(params[i + 3]),
                        clamp_u8_exec(params[i + 4]),
                    ),
                    5,
                ))
            } else {
                None
            };
            match ext {
                Some((c, k)) => {
                    let p = if v == 38 {
                        SgrParameter::Foreground(c)
                    } else {
                        SgrParameter::Background(c)
                    };
                    out.push(p);
                    assert(out@ + sgr_from(ps, (i + k) as nat) =~= before + sgr_from(ps, i as nat));
                    i = i + k;
                },
                None => {
                    i = i + 1;
                },
            }
        } else {
            match sgr_code_exec(v) {
                Some(p) => {
                    out.push(p);
                    assert(out@ + sgr_from(ps, (i + 1) as nat) =~= before + sgr_from(ps, i as nat));
                },
                None => {},
            }
            i = i + 1;
        }
    }
    assert(sgr_from(ps, i as nat) =~= Seq::<SgrParameter>::empty());
    assert(out@ =~= out@ + sgr_from(ps, i as nat));
    out
}

fn mode_of_exec(v: u16, private: bool) -> (r: Option<Mode>)
    ensures
        r == (if private { dec_mode_of(v) } else { ansi_mode_of(v) }),
{
    if private {
        match v {
            1 => Some(Mode::ApplicationCursor),
            3 => Some(Mode::ColumnMode),
            4 => Some(Mode::ScrollMode),
            5 => Some(Mode::ScreenMode),
            6 => Some(Mode::OriginMode),
            7 => Some(Mode::AutoWrap),
            8 => Some(Mode::AutoRepeat),
            47 | 1047 | 1049 => Some(Mode::AlternateScreen),
            1000 | 1002 | 1003 => Some(Mode::MouseReporting),
            1004 => Some(Mode::FocusReporting),
            2004 => Some(Mode::BracketedPaste),
            _ => None,
        }
    } else {
        match v {
            2 => Some(Mode::KeyboardAction),
            4 => Some(Mode::Insert),
            12 => Some(Mode::SendReceive),
            20 => Some(Mode::LineFeed),
            _ => None,
        }
    }
}

/// Events of the mode numbers of a set (`on`) or reset mode sequence, one
/// per recognized number.
fn mode_events_exec(params: &Vec<u16>, private: bool, on: bool) -> (r: Vec<ParsedEvent>)
    ensures
        events_view(r@) == mode_events(params@, private, on),
{
    let mut out: Vec<ParsedEvent> = Vec::new();
    let n = params.len();
    let mut i: usize = 0;
    assert(events_view(out@) =~= mode_events(params@.subrange(0, 0), private, on));
    while i < n
        invariant
            n == params@.len(),
            i <= n,
            events_view(out@) == mode_events(params@.subrange(0, i as int), private, on),
        decreases n - i,
    {
        let ghost before = out@;
        let v = params[i];
        if private && v == 25 {
            let c = if on { CsiSequence::ShowCursor } else { CsiSequence::HideCursor };
            out.push(ParsedEvent::Csi(c));
        } else {
            match mode_of_exec(v, private) {
                Some(m) => {
                    let mut ms: Vec<Mode> = Vec::new();
                    ms.push(m);
                    assert(ms@ =~= seq![m]);
                    if on {
                        out.push(ParsedEvent::Csi(CsiSequence::SetMode(ms)));
                    } else {
                        out.push(ParsedEvent::Csi(CsiSequence::ResetMode(ms)));
                    }
                },
                None => {},
            }
        }
        assert(params@.subrange(0, i + 1).drop_last() =~= params@.subrange(0, i as int));
        assert(events_view(out@) =~= events_view(before) + mode_event(v, private, on));
        i = i + 1;
    }
    assert(params@.subrange(0, n as int) =~= params@);
    out
}

/// Events of a CSI sequence.
pub fn csi_events_exec(params: &Vec<u16>, inter: &Vec<u8>, action: u8) -> (r: Vec<ParsedEvent>)
    ensures
        events_view(r@) == csi_events(params@, inter@, action),
{
    if inter.len() == 0 {
        match action {
            0x41 => csi(CsiSequence::CursorUp(get_param_exec(params, 0, 1))),
            0x42 => csi(CsiSequence::CursorDown(get_param_exec(params, 0, 1))),
            0x43 => csi(CsiSequence::CursorForward(get_param_exec(params, 0, 1))),
            0x44 => csi(CsiSequence::CursorBack(get_param_exec(params, 0, 1))),
            0x45 => csi(CsiSequence::CursorNextLine(get_param_exec(params, 0, 1))),
            0x46 => csi(CsiSequence::CursorPreviousLine(get_param_exec(params, 0, 1))),
            0x47 => csi(CsiSequence::CursorColumn(get_param_exec(params, 0, 1))),
            0x48 | 0x66 => csi(
                CsiSequence::CursorPosition {
                    row: get_param_exec(params, 0, 1),
                    col: get_param_exec(params, 1, 1),
                },
            ),
            0x4A | 0x4B => {
                let v = if params.len() > 0 { params[0] } else { 0 };
                let mode = if v == 1 {
                    EraseMode::Above
                } else if v == 2 {
                    EraseMode::All
                } else if v == 3 && action == 0x4A {
                    EraseMode::Saved
                } else {
                    EraseMode::Below
                };
                if action == 0x4A {
                    csi(CsiSequence::EraseDisplay(mode))
                } else {
                    csi(CsiSequence::EraseLine(mode))
                }
            },
            0x53 => csi(CsiSequence::ScrollUp(get_param_exec(params, 0, 1))),
            0x54 => csi(CsiSequence::ScrollDown(get_param_exec(params, 0, 1))),
            0x6D => one(ParsedEvent::Csi(CsiSequence::SetGraphicsRendition(parse_sgr_params(params)))),
            0x68 => mode_events_exec(params, false, true),
            0x6C => mode_events_exec(params, false, false),
            0x73 => csi(CsiSequence::SaveCursor),
            0x75 => csi(CsiSequence::RestoreCursor),
            0x6E => {
                let v = if params.len() > 0 { params[0] } else { 0 };
                if v == 5 {
                    csi(CsiSequence::DeviceStatusReport)
                } else if v == 6 {
                    csi(CsiSequence::CursorPositionReport)
                } else {
                    none()
                }
            },
            _ => none(),
        }
    } else if inter.len() == 1 && inter[0] == 0x3F && (action == 0x68 || action == 0x6C) {
        assert(inter@ =~= seq![0x3Fu8]);
        mode_events_exec(params, true, action == 0x68)
    } else {
        assert(inter@ != seq![0x3Fu8] || (action != 0x68 && action != 0x6C)) by {
            if inter@ == seq![0x3Fu8] {
                assert(inter@.len() == 1 && inter@[0] == 0x3F);
            }
        }
        none()
    }
}

/// The number that one to four decimal digits spell.
fn dec_num_exec(s: &Vec<u8>) -> (r: Option<u32>)
    ensures
        r.is_some() == dec_num(s@).is_some(),
        r.is_some() ==> r.unwrap() as nat == dec_num(s@).unwrap(),
{
    let n = s.len();
    if n == 0 || n > 4 {
        return None;
    }
    let mut v: u32 = 0;
    let mut i: usize = 0;
    while i < n
        invariant
            1 <= n <= 4,
            n == s@.len(),
            i <= n,
            forall|k: int| 0 <= k < i ==> is_digit(#[trigger] s@[k]),
            v as nat == dec_value(s@.subrange(0, i as int)),
            i == 0 ==> v == 0,
            i <= 1 ==> v < 10,
            i <= 2 ==> v < 100,
            i <= 3 ==> v < 1000,
            v < 10000,
        decreases n - i,
    {
        let b = s[i];
        if b < 0x30 || b > 0x39 {
            assert(!is_digit(s@[i as int]));
            return None;
        }
        assert(s@.subrange(0, i + 1).drop_last() =~= s@.subrange(0, i as int));
        v = v * 10 + (b - 0x30) as u32;
        i = i + 1;
    }
    assert(s@.subrange(0, n as int) =~= s@);
    Some(v)
}

fn hex_val_exec(b: u8) -> (r: Option<u8>)
    ensures
        r == hex_val(b),
{
    if 0x30 <= b && b <= 0x39 {
        Some(b - 0x30)
    } else if 0x61 <= b && b <= 0x66 {
        Some(b - 0x57)
    } else if 0x41 <= b && b <= 0x46 {
        Some(b - 0x37)
    } else {
        None
    }
}

fn hex_pair_exec(s: &Vec<u8>, i: usize) -> (r: Option<u8>)
    requires
        i + 1 < s@.len(),
        s@.len() <= 12,
    ensures
        r == hex_pair(s@, i as int),
{
    match (hex_val_exec(s[i]), hex_val_exec(s[i + 1])) {
        (Some(h), Some(l)) => Some(h * 16 + l),
        _ => None,
    }
}

fn rgb_of_exec(r: Option<u8>, g: Option<u8>, b: Option<u8>) -> (c: Option<Color>)
    ensures
        c == rgb_of(r, g, b),
{
    match (r, g, b) {
        (Some(r), Some(g), Some(b)) => Some(Color::Rgb(r, g, b)),
        _ => None,
    }
}

/// A color written `#rrggbb` or `rgb:rr/gg/bb`.
pub fn parse_color_exec(s: &Vec<u8>) -> (r: Option<Color>)
    ensures
        r == parse_color(s@),
{
    let n = s.len();
    if n == 7 && s[0] == 0x23 {
        rgb_of_exec(hex_pair_exec(s, 1), hex_pair_exec(s, 3), hex_pair_exec(s, 5))
    } else if n == 12 && s[0] == 0x72 && s[1] == 0x67 && s[2] == 0x62 && s[3] == 0x3A && s[6] == 0x2F && s[9]
        == 0x2F {
        rgb_of_exec(hex_pair_exec(s, 4), hex_pair_exec(s, 7), hex_pair_exec(s, 10))
    } else {
        None
    }
}

fn decode_string(s: &[u8]) -> (r: String)
    ensures
        r@ == decode_utf8(s@),
{
    let chars = decode_utf8_exec(s);
    string_from_chars(&chars)
}

fn link_id_exec(p: &Vec<u8>) -> (r: Option<String>)
    ensures
        crate::traits::opt_str_view(r) == link_id(p@),
{
    let n = p.len();
    if n >= 3 && p[0] == 0x69 && p[1] == 0x64 && p[2] == 0x3D {
        let mut rest: Vec<u8> = Vec::new();
        let mut i: usize = 3;
        while i < n
            invariant
                3 <= i <= n,
                n == p@.len(),
                rest@ == p@.subrange(3, i as int),
            decreases n - i,
        {
            rest.push(p[i]);
            i = i + 1;
            assert(rest@ =~= p@.subrange(3, i as int));
        }
        Some(decode_string(rest.as_slice()))
    } else {
        None
    }
}

fn selection_exec(p: &Vec<u8>) -> (r: ClipboardType)
    ensures
        r == selection_of(p@),
{
    if p.len() > 0 && p[0] == 0x70 {
        ClipboardType::Primary
    } else if p.len() > 0 && p[0] == 0x73 {
        ClipboardType::Secondary
    } else {
        ClipboardType::Clipboard
    }
}

pub open spec fn osc_params_view(v: Seq<Vec<u8>>) -> Seq<Seq<u8>> {
    Seq::new(v.len(), |i: int| v[i]@)
}

/// Events of an OSC string split at `;`.
pub fn osc_events_exec(osc: &Vec<Vec<u8>>) -> (r: Vec<ParsedEvent>)
    ensures
        events_view(r@) == osc_events(osc_params_view(osc@)),
{
    let ghost ps = osc_params_view(osc@);
    let n = osc.len();
    if n == 0 {
        return none();
    }
    assert(ps[0] == osc@[0]@);
    let num = dec_num_exec(&osc[0]);
    match num {
        Some(0) | Some(2) => {
            if n > 1 {
                assert(ps[1] == osc@[1]@);
                one(ParsedEvent::Osc(OscSequence::SetTitle(decode_string(osc[1].as_slice()))))
            } else {
                none()
            }
        },
        Some(8) => {
            if n > 2 {
                assert(ps[1] == osc@[1]@);
                assert(ps[2] == osc@[2]@);
                if osc[2].len() == 0 {
                    one(ParsedEvent::Osc(OscSequence::ResetHyperlink))
                } else {
                    let id = link_id_exec(&osc[1]);
                    let uri = decode_string(osc[2].as_slice());
                    one(ParsedEvent::Osc(OscSequence::SetHyperlink { id, uri }))
                }
            } else {
                none()
            }
        },
        Some(4) => {
            if n > 2 {
                assert(ps[1] == osc@[1]@);
                assert(ps[2] == osc@[2]@);
                match (dec_num_exec(&osc[1]), parse_color_exec(&osc[2])) {
                    (Some(index), Some(color)) => {
                        if index <= 255 {
                            one(ParsedEvent::Osc(OscSequence::SetColor { index: index as u8, color }))
                        } else {
                            none()
                        }
                    },
                    _ => none(),
                }
            } else {
                none()
            }
        },
        Some(52) => {
            if n > 2 {
                assert(ps[1] == osc@[1]@);
                assert(ps[2] == osc@[2]@);
                let clipboard = selection_exec(&osc[1]);
                let data = decode_string(osc[2].as_slice());
                one(ParsedEvent::Osc(OscSequence::Clipboard { clipboard, data }))
            } else {
                none()
            }
        },
        _ => none(),
    }
}

} // verus!
