use vstd::prelude::*;
use crate::buffer::{blank_grid, blank_row, grid_set, pushed_bounded, resized_grid, shaped};
use crate::cursor::{sat_add, sat_sub, CursorView};
use crate::traits::{
    ControlEvent, CsiSequence, CsiView, EraseMode, EscSequence, EventView, Mode, OscView,
    SgrParameter,
};
use crate::types::{
    ansi_color, blank_cell, default_attrs, default_mode_bits, AttributeFlags, Cell,
    CellAttributes, Color, CursorStyle, Position, Size, TerminalMode,
};

verus! {

/// Number of scrollback lines a new terminal keeps.
pub const DEFAULT_SCROLLBACK: usize = 10000;

/// Everything a terminal state holds, as mathematical values.
#[verifier::ext_equal]
pub struct TermModel {
    pub size: Size,
    pub cursor: CursorView,
    /// Slot of save/restore cursor; independent of the cursor's own slot.
    pub saved_cursor: Option<Position>,
    pub grid: Seq<Seq<Cell>>,
    /// The primary grid, kept aside while the alternate screen is shown.
    pub alt: Option<Seq<Seq<Cell>>>,
    pub scrollback: Seq<Seq<Cell>>,
    pub max_lines: nat,
    pub mode: TerminalMode,
    pub style: CursorStyle,
    pub attrs: CellAttributes,
    pub palette: Seq<Color>,
    /// One entry per column: whether a tab stop stands there.
    pub tabs: Seq<bool>,
    /// Hyperlink given to the cells written next, as an index into `links`.
    pub link: Option<usize>,
    pub links: Seq<Seq<char>>,
}

/// The invariant of a terminal state.
pub open spec fn model_wf(m: TermModel) -> bool {
    &&& shaped(m.grid, m.size.rows as nat, m.size.cols as nat)
    &&& (m.alt.is_some() ==> shaped(m.alt.unwrap(), m.size.rows as nat, m.size.cols as nat))
    &&& m.scrollback.len() <= m.max_lines
    &&& m.palette.len() == 256
    &&& m.tabs.len() == m.size.cols
}

pub open spec fn cube_level(x: int) -> u8 {
    if x == 0 {
        0
    } else {
        (55 + x * 40) as u8
    }
}

/// Entry `i` of the default palette: the 16 ANSI colors, a 6x6x6 color
/// cube, then 24 grays.
pub open spec fn palette_entry(i: int) -> Color {
    if i < 16 {
        ansi_color(i as u8)
    } else if i < 232 {
        Color::Rgb(cube_level((i - 16) / 36), cube_level(((i - 16) / 6) % 6), cube_level((i - 16) % 6))
    } else {
        Color::Rgb((8 + (i - 232) * 10) as u8, (8 + (i - 232) * 10) as u8, (8 + (i - 232) * 10) as u8)
    }
}

pub open spec fn default_palette() -> Seq<Color> {
    Seq::new(256, |i: int| palette_entry(i))
}

/// A tab stop every 8 columns, starting at column 0.
pub open spec fn default_tabs(cols: nat) -> Seq<bool> {
    Seq::new(cols, |c: int| c % 8 == 0)
}

/// A new terminal of the given size.
pub open spec fn new_model(size: Size) -> TermModel {
    TermModel {
        size,
        cursor: CursorView { position: Position { row: 0, col: 0 }, saved: None, visible: true },
        saved_cursor: None,
        grid: blank_grid(size.rows as nat, size.cols as nat),
        alt: None,
        scrollback: Seq::empty(),
        max_lines: DEFAULT_SCROLLBACK as nat,
        mode: TerminalMode { bits: default_mode_bits() },
        style: CursorStyle::Block,
        attrs: default_attrs(),
        palette: default_palette(),
        tabs: default_tabs(size.cols as nat),
        link: None,
        links: Seq::empty(),
    }
}

/// `v` held below `limit`: at most `limit - 1`, and 0 when `limit` is 0.
pub open spec fn below(v: u16, limit: u16) -> u16 {
    if limit == 0 {
        0
    } else if v >= limit {
        (limit - 1) as u16
    } else {
        v
    }
}

pub open spec fn flag_set(bits: u32, flag: u32, on: bool) -> u32 {
    if on {
        bits | flag
    } else {
        bits & !flag
    }
}

pub open spec fn attr_set(a: CellAttributes, flag: u16, on: bool) -> CellAttributes {
    CellAttributes {
        flags: AttributeFlags {
            bits: if on {
                a.flags.bits | flag
            } else {
                a.flags.bits & !flag
            },
        },
        ..a
    }
}

pub open spec fn with_pos(m: TermModel, row: u16, col: u16) -> TermModel {
    TermModel {
        cursor: CursorView { position: Position { row, col }, ..m.cursor },
        ..m
    }
}

pub open spec fn with_row(m: TermModel, row: u16) -> TermModel {
    with_pos(m, row, m.cursor.position.col)
}

pub open spec fn with_col(m: TermModel, col: u16) -> TermModel {
    with_pos(m, m.cursor.position.row, col)
}

pub open spec fn with_mode(m: TermModel, flag: u32, on: bool) -> TermModel {
    TermModel { mode: TerminalMode { bits: flag_set(m.mode.bits, flag, on) }, ..m }
}

/// The cursor position that readers see: held inside the screen.
pub open spec fn visible_pos(m: TermModel) -> Position {
    Position {
        row: below(m.cursor.position.row, m.size.rows),
        col: below(m.cursor.position.col, m.size.cols),
    }
}

/// The top row goes to the scrollback and a blank row enters at the bottom.
pub open spec fn scroll_up_m(m: TermModel) -> TermModel {
    if m.size.rows == 0 {
        m
    } else {
        TermModel {
            grid: m.grid.drop_first().push(blank_row(m.size.cols as nat)),
            scrollback: pushed_bounded(m.scrollback, m.grid[0], m.max_lines),
            ..m
        }
    }
}

/// A blank row enters at the top and the bottom row is dropped.
pub open spec fn scroll_down_m(m: TermModel) -> TermModel {
    if m.size.rows == 0 {
        m
    } else {
        TermModel { grid: m.grid.insert(0, blank_row(m.size.cols as nat)).drop_last(), ..m }
    }
}

pub open spec fn scroll_up_n(m: TermModel, n: nat) -> TermModel
    decreases n,
{
    if n == 0 {
        m
    } else {
        scroll_up_m(scroll_up_n(m, (n - 1) as nat))
    }
}

pub open spec fn scroll_down_n(m: TermModel, n: nat) -> TermModel
    decreases n,
{
    if n == 0 {
        m
    } else {
        scroll_down_m(scroll_down_n(m, (n - 1) as nat))
    }
}

/// Moves the cursor one column on after a write: past the last column it
/// wraps to the next row (scrolling at the bottom) when line wrap is set,
/// and stays in the last column otherwise.
pub open spec fn advance_m(m: TermModel) -> TermModel {
    let rows = m.size.rows;
    let cols = m.size.cols;
    let col = sat_add(m.cursor.position.col, 1);
    if rows == 0 || cols == 0 {
        m
    } else if col < cols {
        with_col(m, col)
    } else if m.mode.has(TerminalMode::LINE_WRAP) {
        let row = sat_add(m.cursor.position.row, 1);
        if row >= rows {
            with_pos(scroll_up_m(m), (rows - 1) as u16, 0)
        } else {
            with_pos(m, row, 0)
        }
    } else {
        with_col(m, (cols - 1) as u16)
    }
}

/// Writes a printable character at the cursor, with the active attributes
/// and hyperlink, then advances the cursor. A cursor below the screen first
/// scrolls the screen by one row.
pub open spec fn put_char_m(m: TermModel, ch: char) -> TermModel {
    let rows = m.size.rows;
    let cols = m.size.cols;
    if rows == 0 || cols == 0 {
        m
    } else {
        let m1 = if m.cursor.position.row >= rows {
            with_row(scroll_up_m(m), (rows - 1) as u16)
        } else {
            m
        };
        let p = m1.cursor.position;
        let cell = Cell { ch, attrs: m1.attrs, hyperlink: m1.link };
        let m2 = if p.col < cols {
            TermModel { grid: grid_set(m1.grid, p.row as int, p.col as int, cell), ..m1 }
        } else {
            m1
        };
        advance_m(m2)
    }
}

/// Line feed: one row down, at most to the virtual row just below the
/// screen. It never scrolls; the next printable write does.
pub open spec fn newline_m(m: TermModel) -> TermModel {
    let row = m.cursor.position.row;
    with_row(m, if row >= m.size.rows { m.size.rows } else { (row + 1) as u16 })
}

/// The first column at or after `from` that holds a tab stop, or -1.
pub open spec fn next_tab(tabs: Seq<bool>, from: int) -> int
    decreases tabs.len() - from,
{
    if from < 0 || from >= tabs.len() {
        -1
    } else if tabs[from] {
        from
    } else {
        next_tab(tabs, from + 1)
    }
}

pub open spec fn tab_m(m: TermModel) -> TermModel {
    let t = next_tab(m.tabs, m.cursor.position.col + 1);
    with_col(m, if t >= 0 { t as u16 } else { sat_sub(m.size.cols, 1) })
}

pub open spec fn write_char_m(m: TermModel, ch: char) -> TermModel {
    if ch == '\n' {
        newline_m(m)
    } else if ch == '\r' {
        with_col(m, 0)
    } else if ch == '\t' {
        tab_m(m)
    } else if ch == '\x08' {
        with_col(m, sat_sub(m.cursor.position.col, 1))
    } else if ch == '\0' {
        m
    } else {
        put_char_m(m, ch)
    }
}

pub open spec fn write_str_m(m: TermModel, s: Seq<char>) -> TermModel
    decreases s.len(),
{
    if s.len() == 0 {
        m
    } else {
        write_char_m(write_str_m(m, s.drop_last()), s.last())
    }
}

/// The grid with the cells that an erase of the display clears made blank,
/// for a cursor at (`cr`, `cc`).
pub open spec fn erase_display_grid(g: Seq<Seq<Cell>>, mode: EraseMode, cr: int, cc: int) -> Seq<Seq<Cell>> {
    Seq::new(
        g.len(),
        |r: int|
            Seq::new(
                g[r].len(),
                |c: int|
                    if match mode {
                        EraseMode::Below => r > cr || (r == cr && c >= cc),
                        EraseMode::Above => r < cr || (r == cr && c <= cc),
                        EraseMode::All => true,
                        EraseMode::Saved => false,
                    } {
                        blank_cell()
                    } else {
                        g[r][c]
                    },
            ),
    )
}

/// The grid with the cells of row `cr` that an erase of the line clears made
/// blank, for a cursor in column `cc`.
pub open spec fn erase_line_grid(g: Seq<Seq<Cell>>, mode: EraseMode, cr: int, cc: int) -> Seq<Seq<Cell>> {
    Seq::new(
        g.len(),
        |r: int|
            Seq::new(
                g[r].len(),
                |c: int|
                    if r == cr && match mode {
                        EraseMode::Below => c >= cc,
                        EraseMode::Above => c <= cc,
                        _ => true,
                    } {
                        blank_cell()
                    } else {
                        g[r][c]
                    },
            ),
    )
}

pub open spec fn erase_display_m(m: TermModel, mode: EraseMode) -> TermModel {
    let p = visible_pos(m);
    if mode == EraseMode::Saved {
        TermModel { scrollback: Seq::empty(), ..m }
    } else {
        TermModel { grid: erase_display_grid(m.grid, mode, p.row as int, p.col as int), ..m }
    }
}

pub open spec fn erase_line_m(m: TermModel, mode: EraseMode) -> TermModel {
    let p = visible_pos(m);
    TermModel { grid: erase_line_grid(m.grid, mode, p.row as int, p.col as int), ..m }
}

pub open spec fn sgr_m(a: CellAttributes, p: SgrParameter) -> CellAttributes {
    match p {
        SgrParameter::Reset => default_attrs(),
        SgrParameter::Bold => attr_set(a, AttributeFlags::BOLD, true),
        SgrParameter::Dim => attr_set(a, AttributeFlags::DIM, true),
        SgrParameter::Italic => attr_set(a, AttributeFlags::ITALIC, true),
        SgrParameter::Underline => attr_set(a, AttributeFlags::UNDERLINE, true),
        SgrParameter::Blink => attr_set(a, AttributeFlags::BLINK_SLOW, true),
        SgrParameter::Reverse => attr_set(a, AttributeFlags::REVERSE, true),
        SgrParameter::Hidden => attr_set(a, AttributeFlags::HIDDEN, true),
        SgrParameter::Strikethrough => attr_set(a, AttributeFlags::STRIKETHROUGH, true),
        SgrParameter::NoBold => attr_set(a, AttributeFlags::BOLD, false),
        SgrParameter::NoDim => attr_set(attr_set(a, AttributeFlags::BOLD, false), AttributeFlags::DIM, false),
        SgrParameter::NoItalic => attr_set(a, AttributeFlags::ITALIC, false),
        SgrParameter::NoUnderline => attr_set(a, AttributeFlags::UNDERLINE, false),
        SgrParameter::NoBlink => attr_set(
            attr_set(a, AttributeFlags::BLINK_SLOW, false),
            AttributeFlags::BLINK_FAST,
            false,
        ),
        SgrParameter::NoReverse => attr_set(a, AttributeFlags::REVERSE, false),
        SgrParameter::NoHidden => attr_set(a, AttributeFlags::HIDDEN, false),
        SgrParameter::NoStrikethrough => attr_set(a, AttributeFlags::STRIKETHROUGH, false),
        SgrParameter::Foreground(c) => CellAttributes { fg_color: c, ..a },
        SgrParameter::Background(c) => CellAttributes { bg_color: c, ..a },
        SgrParameter::UnderlineColor(c) => CellAttributes { underline_color: Some(c), ..a },
        SgrParameter::DefaultForeground => CellAttributes { fg_color: Color::Default, ..a },
        SgrParameter::DefaultBackground => CellAttributes { bg_color: Color::Default, ..a },
        SgrParameter::DefaultUnderlineColor => CellAttributes { underline_color: None, ..a },
    }
}

pub open spec fn sgr_all(a: CellAttributes, ps: Seq<SgrParameter>) -> CellAttributes
    decreases ps.len(),
{
    if ps.len() == 0 {
        a
    } else {
        sgr_m(sgr_all(a, ps.drop_last()), ps.last())
    }
}

pub open spec fn enable_alt_m(m: TermModel) -> TermModel {
    if m.alt.is_none() {
        TermModel {
            alt: Some(m.grid),
            grid: blank_grid(m.size.rows as nat, m.size.cols as nat),
            mode: TerminalMode { bits: m.mode.bits | TerminalMode::ALTERNATE_SCREEN },
            ..m
        }
    } else {
        m
    }
}

pub open spec fn disable_alt_m(m: TermModel) -> TermModel {
    match m.alt {
        Some(g) => TermModel {
            grid: g,
            alt: None,
            mode: TerminalMode { bits: m.mode.bits & !TerminalMode::ALTERNATE_SCREEN },
            ..m
        },
        None => m,
    }
}

/// The mode bit that a mode sets, or 0 for modes that are not tracked.
pub open spec fn mode_flag(mode: Mode) -> u32 {
    match mode {
        Mode::Insert => TerminalMode::INSERT_MODE,
        Mode::AutoWrap => TerminalMode::LINE_WRAP,
        Mode::BracketedPaste => TerminalMode::BRACKETED_PASTE,
        Mode::FocusReporting => TerminalMode::FOCUS_REPORTING,
        Mode::MouseReporting => TerminalMode::MOUSE_REPORTING,
        Mode::ApplicationCursor => TerminalMode::APPLICATION_CURSOR,
        Mode::ApplicationKeypad => TerminalMode::APPLICATION_KEYPAD,
        Mode::OriginMode => TerminalMode::ORIGIN_MODE,
        Mode::ScreenMode => TerminalMode::REVERSE_VIDEO,
        Mode::CursorVisible => TerminalMode::CURSOR_VISIBLE,
        _ => 0,
    }
}

pub open spec fn set_mode_m(m: TermModel, mode: Mode, on: bool) -> TermModel {
    if mode == Mode::AlternateScreen {
        if on {
            enable_alt_m(m)
        } else {
            disable_alt_m(m)
        }
    } else if mode_flag(mode) == 0 {
        m
    } else {
        with_mode(m, mode_flag(mode), on)
    }
}

pub open spec fn set_modes_m(m: TermModel, modes: Seq<Mode>, on: bool) -> TermModel
    decreases modes.len(),
{
    if modes.len() == 0 {
        m
    } else {
        set_mode_m(set_modes_m(m, modes.drop_last(), on), modes.last(), on)
    }
}

pub open spec fn save_cursor_m(m: TermModel) -> TermModel {
    TermModel { saved_cursor: Some(m.cursor.position), ..m }
}

/// Moves back to the saved position, if any, and empties the slot.
pub open spec fn restore_cursor_m(m: TermModel) -> TermModel {
    match m.saved_cursor {
        Some(p) => TermModel { saved_cursor: None, ..with_pos(m, p.row, p.col) },
        None => m,
    }
}

pub open spec fn cursor_down_m(m: TermModel, n: u16) -> TermModel {
    with_row(m, below(sat_add(m.cursor.position.row, n), m.size.rows))
}

pub open spec fn cursor_forward_m(m: TermModel, n: u16) -> TermModel {
    with_col(m, below(sat_add(m.cursor.position.col, n), m.size.cols))
}

pub open spec fn csi_m(m: TermModel, c: CsiView) -> TermModel {
    match c {
        CsiView::Sgr(ps) => TermModel { attrs: sgr_all(m.attrs, ps), ..m },
        CsiView::SetModes(ms) => set_modes_m(m, ms, true),
        CsiView::ResetModes(ms) => set_modes_m(m, ms, false),
        CsiView::Plain(s) => match s {
            CsiSequence::CursorUp(n) => with_row(m, sat_sub(m.cursor.position.row, n)),
            CsiSequence::CursorDown(n) => cursor_down_m(m, n),
            CsiSequence::CursorForward(n) => cursor_forward_m(m, n),
            CsiSequence::CursorBack(n) => with_col(m, sat_sub(m.cursor.position.col, n)),
            CsiSequence::CursorPosition { row, col } => with_pos(
                m,
                below(sat_sub(row, 1), m.size.rows),
                below(sat_sub(col, 1), m.size.cols),
            ),
            CsiSequence::CursorColumn(col) => with_col(m, below(sat_sub(col, 1), m.size.cols)),
            CsiSequence::CursorNextLine(n) => cursor_down_m(with_col(m, 0), n),
            CsiSequence::CursorPreviousLine(n) => with_pos(m, sat_sub(m.cursor.position.row, n), 0),
            CsiSequence::EraseDisplay(mode) => erase_display_m(m, mode),
            CsiSequence::EraseLine(mode) => erase_line_m(m, mode),
            CsiSequence::ScrollUp(n) => scroll_up_n(m, n as nat),
            CsiSequence::ScrollDown(n) => scroll_down_n(m, n as nat),
            CsiSequence::SetGraphicsRendition(v) => TermModel { attrs: sgr_all(m.attrs, v@), ..m },
            CsiSequence::ShowCursor => with_mode(m, TerminalMode::CURSOR_VISIBLE, true),
            CsiSequence::HideCursor => with_mode(m, TerminalMode::CURSOR_VISIBLE, false),
            CsiSequence::SetMode(v) => set_modes_m(m, v@, true),
            CsiSequence::ResetMode(v) => set_modes_m(m, v@, false),
            CsiSequence::SaveCursor => save_cursor_m(m),
            CsiSequence::RestoreCursor => restore_cursor_m(m),
            CsiSequence::DeviceStatusReport => m,
            CsiSequence::CursorPositionReport => m,
        },
    }
}

/// Index: one row down; at the bottom row the screen scrolls instead.
pub open spec fn index_m(m: TermModel) -> TermModel {
    let rows = m.size.rows;
    if rows == 0 {
        m
    } else if m.cursor.position.row + 1 >= rows {
        with_row(scroll_up_m(m), (rows - 1) as u16)
    } else {
        with_row(m, (m.cursor.position.row + 1) as u16)
    }
}

/// Reverse index: one row up; at the top row the screen scrolls down instead.
pub open spec fn reverse_index_m(m: TermModel) -> TermModel {
    if visible_pos(m).row == 0 {
        scroll_down_m(m)
    } else {
        with_row(m, sat_sub(m.cursor.position.row, 1))
    }
}

pub open spec fn set_tab_stop_m(m: TermModel) -> TermModel {
    let c = m.cursor.position.col;
    if c < m.size.cols {
        TermModel { tabs: m.tabs.update(c as int, true), ..m }
    } else {
        m
    }
}

pub open spec fn esc_m(m: TermModel, e: EscSequence) -> TermModel {
    match e {
        EscSequence::Index => index_m(m),
        EscSequence::NextLine => index_m(with_col(m, 0)),
        EscSequence::TabSet => set_tab_stop_m(m),
        EscSequence::ReverseIndex => reverse_index_m(m),
        EscSequence::KeypadApplicationMode => with_mode(m, TerminalMode::APPLICATION_KEYPAD, true),
        EscSequence::KeypadNumericMode => with_mode(m, TerminalMode::APPLICATION_KEYPAD, false),
        EscSequence::SaveCursor => save_cursor_m(m),
        EscSequence::RestoreCursor => restore_cursor_m(m),
        EscSequence::Reset => new_model(m.size),
    }
}

pub open spec fn osc_m(m: TermModel, o: OscView) -> TermModel {
    match o {
        OscView::SetHyperlink { id, uri } => TermModel {
            link: Some(m.links.len() as usize),
            links: m.links.push(uri),
            ..m
        },
        OscView::ResetHyperlink => TermModel { link: None, ..m },
        OscView::SetColor { index, color } => TermModel { palette: m.palette.update(index as int, color), ..m },
        OscView::ResetColor(i) => TermModel {
            palette: m.palette.update(i as int, palette_entry(i as int)),
            ..m
        },
        _ => m,
    }
}

pub open spec fn control_m(m: TermModel, c: ControlEvent) -> TermModel {
    match c {
        ControlEvent::NewLine => newline_m(m),
        ControlEvent::VerticalTab => newline_m(m),
        ControlEvent::CarriageReturn => with_col(m, 0),
        ControlEvent::Tab => tab_m(m),
        ControlEvent::Backspace => with_col(m, sat_sub(m.cursor.position.col, 1)),
        ControlEvent::Bell => m,
        ControlEvent::FormFeed => erase_display_m(m, EraseMode::All),
        ControlEvent::Clear => erase_display_m(m, EraseMode::All),
    }
}

/// What applying one parsed event does to the terminal.
pub open spec fn apply_m(m: TermModel, e: EventView) -> TermModel {
    match e {
        EventView::Text(s) => write_str_m(m, s),
        EventView::Control(c) => control_m(m, c),
        EventView::Csi(c) => csi_m(m, c),
        EventView::Osc(o) => osc_m(m, o),
        EventView::Esc(e) => esc_m(m, e),
    }
}

/// Applying events one after another.
pub open spec fn apply_all(m: TermModel, es: Seq<EventView>) -> TermModel
    decreases es.len(),
{
    if es.len() == 0 {
        m
    } else {
        apply_m(apply_all(m, es.drop_last()), es.last())
    }
}

pub open spec fn resize_m(m: TermModel, s: Size) -> TermModel {
    TermModel {
        size: s,
        grid: resized_grid(m.grid, s.rows as nat, s.cols as nat),
        alt: match m.alt {
            Some(g) => Some(resized_grid(g, s.rows as nat, s.cols as nat)),
            None => None,
        },
        tabs: default_tabs(s.cols as nat),
        ..with_pos(m, below(m.cursor.position.row, s.rows), below(m.cursor.position.col, s.cols))
    }
}

/// Cell (`r`, `c`) comes before cell (`r2`, `c2`) in reading order.
pub open spec fn lex_lt(r: int, c: int, r2: int, c2: int) -> bool {
    r < r2 || (r == r2 && c < c2)
}

/// The grid with the cells from (`r1`, `c1`) up to, not including,
/// (`r2`, `c2`) in reading order made blank.
pub open spec fn erase_range_grid(g: Seq<Seq<Cell>>, r1: int, c1: int, r2: int, c2: int) -> Seq<Seq<Cell>> {
    Seq::new(
        g.len(),
        |r: int|
            Seq::new(
                g[r].len(),
                |c: int|
                    if !lex_lt(r, c, r1, c1) && lex_lt(r, c, r2, c2) {
                        blank_cell()
                    } else {
                        g[r][c]
                    },
            ),
    )
}

} // verus!
