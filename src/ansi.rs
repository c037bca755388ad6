use vstd::prelude::*;
use crate::model::{
    apply_all, apply_m, control_m, csi_m, esc_m, index_m, osc_m, sgr_all, sgr_m, set_mode_m,
    set_modes_m, TermModel,
};
use crate::state::TerminalState;
use crate::traits::{
    csi_view, event_view, events_view, osc_view, ControlEvent, CsiSequence, EraseMode,
    EscSequence, Mode, OscSequence, ParsedEvent, SgrParameter,
};
use crate::types::{AttributeFlags, Color, Position};

verus! {

/// Applies parsed events to a terminal state.
pub struct AnsiProcessor;

impl AnsiProcessor {
    /// Applies one parsed event.
    pub fn process_event(state: &mut TerminalState, event: ParsedEvent)
        requires
            old(state).wf(),
        ensures
            final(state).wf(),
            final(state)@ == apply_m(old(state)@, event_view(event)),
    {
        match event {
            ParsedEvent::Text(text) => {
                state.write_str(text.as_str());
            },
            ParsedEvent::Control(control) => {
                Self::process_control(state, control);
            },
            ParsedEvent::Csi(csi) => {
                Self::process_csi(state, csi);
            },
            ParsedEvent::Osc(osc) => {
                Self::process_osc(state, osc);
            },
            ParsedEvent::Esc(esc) => {
                Self::process_esc(state, esc);
            },
        }
    }

    /// Applies parsed events in order.
    pub fn process_events(state: &mut TerminalState, events: Vec<ParsedEvent>)
        requires
            old(state).wf(),
        ensures
            final(state).wf(),
            final(state)@ == apply_all(old(state)@, events_view(events@)),
    {
        let ghost m = state@;
        let ghost es = events_view(events@);
        let mut rest = events;
        let n = rest.len();
        let mut k: usize = 0;
        while rest.len() > 0
            invariant
                es.len() == n,
                k + rest@.len() == n,
                events_view(rest@) == es.subrange(k as int, n as int),
                state.wf(),
                state@ == apply_all(m, es.subrange(0, k as int)),
            decreases rest@.len(),
        {
            let ghost before = rest@;
            let e = rest.remove(0);
            assert(event_view(e) == es[k as int]) by {
                assert(events_view(before)[0] == es.subrange(k as int, n as int)[0]);
            }
            assert(events_view(rest@) =~= es.subrange(k + 1, n as int)) by {
                assert forall|j: int| 0 <= j < rest@.len() implies events_view(rest@)[j]
                    == es.subrange(k + 1, n as int)[j] by {
                    assert(rest@[j] == before[j + 1]);
                    assert(events_view(before)[j + 1] == es.subrange(k as int, n as int)[j + 1]);
                }
            }
            Self::process_event(state, e);
            assert(es.subrange(0, k + 1).drop_last() =~= es.subrange(0, k as int));
            k = k + 1;
        }
        assert(es.subrange(0, n as int) =~= es);
    }

    fn process_control(state: &mut TerminalState, control: ControlEvent)
        requires
            old(state).wf(),
        ensures
            final(state).wf(),
            final(state)@ == control_m(old(state)@, control),
    {
        match control {
            ControlEvent::NewLine => state.write_char('\n'),
            ControlEvent::CarriageReturn => state.write_char('\r'),
            ControlEvent::Tab => state.write_char('\t'),
            ControlEvent::Backspace => state.write_char('\x08'),
            ControlEvent::Bell => {},
            ControlEvent::FormFeed => Self::clear_screen(state, EraseMode::All),
            ControlEvent::VerticalTab => state.write_char('\n'),
            ControlEvent::Clear => Self::clear_screen(state, EraseMode::All),
        }
    }

    fn process_csi(state: &mut TerminalState, csi: CsiSequence)
        requires
            old(state).wf(),
        ensures
            final(state).wf(),
            final(state)@ == csi_m(old(state)@, csi_view(csi)),
    {
        let ghost m = state@;
        match csi {
            CsiSequence::CursorUp(n) => state.cursor_up(n),
            CsiSequence::CursorDown(n) => state.cursor_down(n),
            CsiSequence::CursorForward(n) => state.cursor_forward(n),
            CsiSequence::CursorBack(n) => state.cursor_back(n),
            CsiSequence::CursorPosition { row, col } => {
                let size = state.size();
                let pos = Position::new(
                    crate::state::below_exec(crate::cursor::u16_sat_sub(row, 1), size.rows),
                    crate::state::below_exec(crate::cursor::u16_sat_sub(col, 1), size.cols),
                );
                state.set_cursor_position(pos);
            },
            CsiSequence::CursorColumn(col) => {
                let size = state.size();
                let row = state.cursor().position().row;
                let c = crate::state::below_exec(crate::cursor::u16_sat_sub(col, 1), size.cols);
                state.set_cursor_position(Position::new(row, c));
            },
            CsiSequence::CursorNextLine(n) => {
                let row = state.cursor().position().row;
                state.set_cursor_position(Position::new(row, 0));
                state.cursor_down(n);
            },
            CsiSequence::CursorPreviousLine(n) => {
                let row = state.cursor().position().row;
                state.set_cursor_position(Position::new(row, 0));
                state.cursor_up(n);
            },
            CsiSequence::EraseDisplay(mode) => Self::clear_screen(state, mode),
            CsiSequence::EraseLine(mode) => Self::clear_line(state, mode),
            CsiSequence::ScrollUp(n) => state.scroll_up_by(n),
            CsiSequence::ScrollDown(n) => state.scroll_down_by(n),
            CsiSequence::SetGraphicsRendition(params) => {
                let n = params.len();
                let mut i: usize = 0;
                while i < n
                    invariant
                        n == params@.len(),
                        i <= n,
                        state.wf(),
                        state@ == (TermModel { attrs: sgr_all(m.attrs, params@.subrange(0, i as int)), ..m }),
                    decreases n - i,
                {
                    Self::apply_sgr(state, params[i]);
                    assert(params@.subrange(0, i + 1).drop_last() =~= params@.subrange(0, i as int));
                    i = i + 1;
                }
                assert(params@.subrange(0, n as int) =~= params@);
            },
            CsiSequence::ShowCursor => state.set_cursor_visible(true),
            CsiSequence::HideCursor => state.set_cursor_visible(false),
            CsiSequence::SetMode(modes) => Self::set_modes(state, &modes, true),
            CsiSequence::ResetMode(modes) => Self::set_modes(state, &modes, false),
            CsiSequence::SaveCursor => state.save_cursor(),
            CsiSequence::RestoreCursor => state.restore_cursor(),
            CsiSequence::DeviceStatusReport => {},
            CsiSequence::CursorPositionReport => {},
        }
    }

    fn set_modes(state: &mut TerminalState, modes: &Vec<Mode>, enabled: bool)
        requires
            old(state).wf(),
        ensures
            final(state).wf(),
            final(state)@ == set_modes_m(old(state)@, modes@, enabled),
    {
        let ghost m = state@;
        let n = modes.len();
        let mut i: usize = 0;
        while i < n
            invariant
                n == modes@.len(),
                i <= n,
                state.wf(),
                state@ == set_modes_m(m, modes@.subrange(0, i as int), enabled),
            decreases n - i,
        {
            Self::set_mode(state, modes[i], enabled);
            assert(modes@.subrange(0, i + 1).drop_last() =~= modes@.subrange(0, i as int));
            i = i + 1;
        }
        assert(modes@.subrange(0, n as int) =~= modes@);
    }

    fn process_osc(state: &mut TerminalState, osc: OscSequence)
        requires
            old(state).wf(),
        ensures
            final(state).wf(),
            final(state)@ == osc_m(old(state)@, osc_view(osc)),
    {
        match osc {
            OscSequence::SetHyperlink { id, uri } => state.set_hyperlink(uri),
            OscSequence::ResetHyperlink => state.reset_hyperlink(),
            OscSequence::SetColor { index, color } => state.set_palette_color(index, color),
            OscSequence::ResetColor(index) => state.reset_palette_color(index),
            OscSequence::SetTitle(_) => {},
            OscSequence::SetIcon(_) => {},
            OscSequence::Clipboard { .. } => {},
        }
    }

    fn index(state: &mut TerminalState)
        requires
            old(state).wf(),
        ensures
            final(state).wf(),
            final(state)@ == index_m(old(state)@),
    {
        let rows = state.size().rows;
        let pos = state.cursor().position();
        if rows == 0 {
        } else if pos.row as u32 + 1 >= rows as u32 {
            state.scroll_up();
            state.set_cursor_position(Position::new(rows - 1, pos.col));
        } else {
            state.set_cursor_position(Position::new(pos.row + 1, pos.col));
        }
    }

    fn process_esc(state: &mut TerminalState, esc: EscSequence)
        requires
            old(state).wf(),
        ensures
            final(state).wf(),
            final(state)@ == esc_m(old(state)@, esc),
    {
        match esc {
            EscSequence::Index => Self::index(state),
            EscSequence::NextLine => {
                let row = state.cursor().position().row;
                state.set_cursor_position(Position::new(row, 0));
                Self::index(state);
            },
            EscSequence::TabSet => state.set_tab_stop(),
            EscSequence::ReverseIndex => {
                if state.cursor_position().row == 0 {
                    state.scroll_down();
                } else {
                    state.cursor_up(1);
                }
            },
            EscSequence::KeypadApplicationMode => state.set_mode_flag(Mode::ApplicationKeypad, true),
            EscSequence::KeypadNumericMode => state.set_mode_flag(Mode::ApplicationKeypad, false),
            EscSequence::SaveCursor => state.save_cursor(),
            EscSequence::RestoreCursor => state.restore_cursor(),
            EscSequence::Reset => state.reset(),
        }
    }

    fn apply_sgr(state: &mut TerminalState, param: SgrParameter)
        requires
            old(state).wf(),
        ensures
            final(state).wf(),
            final(state)@ == (TermModel { attrs: sgr_m(old(state)@.attrs, param), ..old(state)@ }),
    {
        let ghost m = state@;
        match param {
            SgrParameter::Reset => state.reset_attributes(),
            SgrParameter::Bold => state.set_attribute_flag(AttributeFlags::BOLD, true),
            SgrParameter::Dim => state.set_attribute_flag(AttributeFlags::DIM, true),
            SgrParameter::Italic => state.set_attribute_flag(AttributeFlags::ITALIC, true),
            SgrParameter::Underline => state.set_attribute_flag(AttributeFlags::UNDERLINE, true),
            SgrParameter::Blink => state.set_attribute_flag(AttributeFlags::BLINK_SLOW, true),
            SgrParameter::Reverse => state.set_attribute_flag(AttributeFlags::REVERSE, true),
            SgrParameter::Hidden => state.set_attribute_flag(AttributeFlags::HIDDEN, true),
            SgrParameter::Strikethrough => state.set_attribute_flag(AttributeFlags::STRIKETHROUGH, true),
            SgrParameter::NoBold => state.set_attribute_flag(AttributeFlags::BOLD, false),
            SgrParameter::NoDim => {
                state.set_attribute_flag(AttributeFlags::BOLD, false);
                state.set_attribute_flag(AttributeFlags::DIM, false);
            },
            SgrParameter::NoItalic => state.set_attribute_flag(AttributeFlags::ITALIC, false),
            SgrParameter::NoUnderline => state.set_attribute_flag(AttributeFlags::UNDERLINE, false),
            SgrParameter::NoBlink => {
                state.set_attribute_flag(AttributeFlags::BLINK_SLOW, false);
                state.set_attribute_flag(AttributeFlags::BLINK_FAST, false);
            },
            SgrParameter::NoReverse => state.set_attribute_flag(AttributeFlags::REVERSE, false),
            SgrParameter::NoHidden => state.set_attribute_flag(AttributeFlags::HIDDEN, false),
            SgrParameter::NoStrikethrough => state.set_attribute_flag(AttributeFlags::STRIKETHROUGH, false),
            SgrParameter::Foreground(color) => state.set_foreground_color(color),
            SgrParameter::Background(color) => state.set_background_color(color),
            SgrParameter::UnderlineColor(color) => state.set_underline_color(Some(color)),
            SgrParameter::DefaultForeground => state.set_foreground_color(Color::Default),
            SgrParameter::DefaultBackground => state.set_background_color(Color::Default),
            SgrParameter::DefaultUnderlineColor => state.set_underline_color(None),
        }
    }

    fn clear_screen(state: &mut TerminalState, mode: EraseMode)
        requires
            old(state).wf(),
        ensures
            final(state).wf(),
            final(state)@ == crate::model::erase_display_m(old(state)@, mode),
    {
        state.erase_display(mode);
    }

    fn clear_line(state: &mut TerminalState, mode: EraseMode)
        requires
            old(state).wf(),
        ensures
            final(state).wf(),
            final(state)@ == crate::model::erase_line_m(old(state)@, mode),
    {
        state.erase_line(mode);
    }

    fn set_mode(state: &mut TerminalState, mode: Mode, enabled: bool)
        requires
            old(state).wf(),
        ensures
            final(state).wf(),
            final(state)@ == set_mode_m(old(state)@, mode, enabled),
    {
        match mode {
            Mode::AlternateScreen => {
                if enabled {
                    state.enable_alternate_screen();
                } else {
                    state.disable_alternate_screen();
                }
            },
            _ => state.set_mode_flag(mode, enabled),
        }
    }
}

} // verus!
