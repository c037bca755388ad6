use vstd::prelude::*;
use vstd::std_specs::iter::IteratorSpec;
use crate::buffer::{grid_set, rows_have_width, shaped, ScreenBuffer, ScrollbackBuffer};
use crate::cursor::{sat_sub, u16_sat_add, u16_sat_sub, Cursor};
use crate::model::{
    advance_m, attr_set, model_wf, new_model, newline_m, next_tab, palette_entry, cube_level,
    default_palette, default_tabs, put_char_m, scroll_down_m, scroll_up_m, tab_m, with_col,
    write_char_m, write_str_m, TermModel, DEFAULT_SCROLLBACK, erase_range_grid, lex_lt,
    scroll_up_n, scroll_down_n, below, visible_pos, with_pos, with_row, with_mode,
    erase_display_m, erase_line_m, erase_display_grid, erase_line_grid, enable_alt_m,
    disable_alt_m, save_cursor_m, restore_cursor_m, resize_m, cursor_down_m, cursor_forward_m,
    set_tab_stop_m, mode_flag,
};

use crate::traits::{EraseMode, Mode};
use crate::types::{
    blank_cell, Cell, CellAttributes, Color, CursorStyle, Position, Size, TerminalMode,
    TerminalSnapshot,
};

verus! {

/// The terminal state: cursor, screens, scrollback, modes, attributes,
/// palette and tab stops. It changes only through the rules of the state
/// engine.
pub struct TerminalState {
    size: Size,
    cursor: Cursor,
    saved_cursor: Option<Position>,
    screen_buffer: ScreenBuffer,
    alternate_buffer: Option<ScreenBuffer>,
    scrollback_buffer: ScrollbackBuffer,
    mode: TerminalMode,
    cursor_style: CursorStyle,
    active_attributes: CellAttributes,
    color_palette: Vec<Color>,
    tab_stops: Vec<bool>,
    hyperlink: Option<usize>,
    hyperlinks: Vec<String>,
}

pub open spec fn strings_view(v: Seq<String>) -> Seq<Seq<char>> {
    Seq::new(v.len(), |i: int| v[i]@)
}

pub open spec fn opt_grid(b: Option<ScreenBuffer>) -> Option<Seq<Seq<Cell>>> {
    match b {
        Some(s) => Some(s@),
        None => None,
    }
}

impl View for TerminalState {
    type V = TermModel;

    closed spec fn view(&self) -> TermModel {
        TermModel {
            size: self.size,
            cursor: self.cursor@,
            saved_cursor: self.saved_cursor,
            grid: self.screen_buffer@,
            alt: opt_grid(self.alternate_buffer),
            scrollback: self.scrollback_buffer@,
            max_lines: self.scrollback_buffer.max(),
            mode: self.mode,
            style: self.cursor_style,
            attrs: self.active_attributes,
            palette: self.color_palette@,
            tabs: self.tab_stops@,
            link: self.hyperlink,
            links: strings_view(self.hyperlinks@),
        }
    }
}

fn cube_level_exec(x: u32) -> (r: u8)
    requires
        x < 6,
    ensures
        r == cube_level(x as int),
{
    if x == 0 {
        0
    } else {
        (55 + x * 40) as u8
    }
}

fn palette_entry_exec(i: u32) -> (r: Color)
    requires
        i < 256,
    ensures
        r == palette_entry(i as int),
{
    if i < 16 {
        Color::from_ansi(i as u8)
    } else if i < 232 {
        let k = i - 16;
        Color::Rgb(cube_level_exec(k / 36), cube_level_exec((k / 6) % 6), cube_level_exec(k % 6))
    } else {
        let g = (8 + (i - 232) * 10) as u8;
        Color::Rgb(g, g, g)
    }
}

impl TerminalState {
    /// The state's parts agree with each other and with the model's invariant.
    pub closed spec fn wf(&self) -> bool {
        &&& model_wf(self@)
        &&& self.screen_buffer.spec_size() == self.size
        &&& (self.alternate_buffer.is_some() ==> self.alternate_buffer.unwrap().spec_size() == self.size)
    }

    /// A well-formed state's model meets the model's invariant: grids of the
    /// state's size, scrollback within its bound, a full palette and one
    /// tab-stop entry per column.
    pub proof fn lemma_model_wf(&self)
        requires
            self.wf(),
        ensures
            model_wf(self@),
    {
    }

    /// A new terminal of the given size.
    pub fn new(size: Size) -> (r: TerminalState)
        ensures
            r.wf(),
            r@ == new_model(size),
    {
        let r = TerminalState {
            size,
            cursor: Cursor::new(),
            saved_cursor: None,
            screen_buffer: ScreenBuffer::new(size),
            alternate_buffer: None,
            scrollback_buffer: ScrollbackBuffer::new(DEFAULT_SCROLLBACK),
            mode: TerminalMode::default(),
            cursor_style: CursorStyle::default(),
            active_attributes: CellAttributes::default(),
            color_palette: Self::default_palette(),
            tab_stops: Self::default_tab_stops(size.cols),
            hyperlink: None,
            hyperlinks: Vec::new(),
        };
        assert(strings_view(r.hyperlinks@) =~= Seq::<Seq<char>>::empty());
        assert(r@ =~= new_model(size));
        r
    }

    /// The default 256-color palette.
    fn default_palette() -> (r: Vec<Color>)
        ensures
            r@ == default_palette(),
    {
        let mut palette: Vec<Color> = Vec::new();
        let mut i: u32 = 0;
        while i < 256
            invariant
                i <= 256,
                palette@ =~= Seq::new(i as nat, |k: int| palette_entry(k)),
            decreases 256 - i,
        {
            palette.push(palette_entry_exec(i));
            i = i + 1;
        }
        palette
    }

    /// A tab stop every 8 columns.
    fn default_tab_stops(cols: u16) -> (r: Vec<bool>)
        ensures
            r@ == default_tabs(cols as nat),
    {
        let mut stops: Vec<bool> = Vec::new();
        let mut c: u16 = 0;
        while c < cols
            invariant
                c <= cols,
                stops@ =~= Seq::new(c as nat, |k: int| k % 8 == 0),
            decreases cols - c,
        {
            stops.push(c % 8 == 0);
            c = c + 1;
        }
        stops
    }

    /// Scrolls the screen up by one row; the top row goes to the scrollback.
    pub fn scroll_up(&mut self)
        requires
            old(self).wf(),
        ensures
            final(self).wf(),
            final(self)@ == scroll_up_m(old(self)@),
    {
        if self.size.rows == 0 {
            return;
        }
        let ghost m = self@;
        let line = self.screen_buffer.remove_top_line();
        match line {
            Some(l) => self.scrollback_buffer.push(l),
            None => {},
        }
        self.screen_buffer.add_blank_line();
        assert(rows_have_width(self.screen_buffer@, self.size.cols as nat));
        assert(self@ =~= scroll_up_m(m));
    }

    /// Scrolls the screen down by one row; the bottom row is lost.
    pub fn scroll_down(&mut self)
        requires
            old(self).wf(),
        ensures
            final(self).wf(),
            final(self)@ == scroll_down_m(old(self)@),
    {
        if self.size.rows == 0 {
            return;
        }
        let ghost m = self@;
        self.screen_buffer.insert_blank_line(0);
        self.screen_buffer.remove_bottom_line();
        assert(rows_have_width(self.screen_buffer@, self.size.cols as nat));
        assert(self@ =~= scroll_down_m(m));
    }

    fn advance_cursor(&mut self)
        requires
            old(self).wf(),
        ensures
            final(self).wf(),
            final(self)@ == advance_m(old(self)@),
    {
        if self.size.rows == 0 || self.size.cols == 0 {
            return;
        }
        let ghost m = self@;
        self.cursor.move_right(1);
        if self.cursor.position().col >= self.size.cols {
            if self.mode.contains(TerminalMode::LINE_WRAP) {
                self.cursor.set_column(0);
                self.cursor.move_down(1);
                if self.cursor.position().row >= self.size.rows {
                    self.scroll_up();
                    self.cursor.set_row(self.size.rows - 1);
                }
            } else {
                self.cursor.set_column(self.size.cols - 1);
            }
        }
        assert(self@ =~= advance_m(m));
    }

    fn put_char(&mut self, ch: char)
        requires
            old(self).wf(),
        ensures
            final(self).wf(),
            final(self)@ == put_char_m(old(self)@, ch),
    {
        if self.size.rows == 0 || self.size.cols == 0 {
            return;
        }
        let ghost m = self@;
        if self.cursor.position().row >= self.size.rows {
            self.scroll_up();
            self.cursor.set_row(self.size.rows - 1);
        }
        let ghost m1 = self@;
        let pos = self.cursor.position();
        let cell = Cell { ch, attrs: self.active_attributes, hyperlink: self.hyperlink };
        self.screen_buffer.set_cell(pos, cell);
        assert(self@ =~= (if pos.col < self.size.cols {
            TermModel { grid: grid_set(m1.grid, pos.row as int, pos.col as int, cell), ..m1 }
        } else {
            m1
        }));
        self.advance_cursor();
    }

    /// The first tab stop at or after column `from`.
    fn find_tab(&self, from: usize) -> (r: Option<usize>)
        ensures
            r.is_some() ==> next_tab(self@.tabs, from as int) == r.unwrap() as int,
            r.is_none() ==> next_tab(self@.tabs, from as int) == -1,
    {
        let n = self.tab_stops.len();
        let mut i = from;
        while i < n
            invariant
                from <= i,
                n == self.tab_stops@.len(),
                next_tab(self@.tabs, from as int) == next_tab(self@.tabs, i as int),
            decreases n - i,
        {
            if self.tab_stops[i] {
                return Some(i);
            }
            i = i + 1;
        }
        None
    }

    fn tab(&mut self)
        requires
            old(self).wf(),
        ensures
            final(self).wf(),
            final(self)@ == tab_m(old(self)@),
    {
        let ghost m = self@;
        let col = self.cursor.position().col;
        let target = match self.find_tab(col as usize + 1) {
            Some(t) => t as u16,
            None => u16_sat_sub(self.size.cols, 1),
        };
        self.cursor.set_column(target);
        assert(self@ =~= tab_m(m));
    }

    fn new_line(&mut self)
        requires
            old(self).wf(),
        ensures
            final(self).wf(),
            final(self)@ == newline_m(old(self)@),
    {
        let ghost m = self@;
        let row = self.cursor.position().row;
        if row >= self.size.rows {
            self.cursor.set_row(self.size.rows);
        } else {
            self.cursor.set_row(row + 1);
        }
        assert(self@ =~= newline_m(m));
    }

    fn carriage_return(&mut self)
        requires
            old(self).wf(),
        ensures
            final(self).wf(),
            final(self)@ == with_col(old(self)@, 0),
    {
        let ghost m = self@;
        self.cursor.set_column(0);
        assert(self@ =~= with_col(m, 0));
    }

    fn backspace(&mut self)
        requires
            old(self).wf(),
        ensures
            final(self).wf(),
            final(self)@ == with_col(old(self)@, sat_sub(old(self)@.cursor.position.col, 1)),
    {
        let ghost m = self@;
        self.cursor.saturating_left();
        assert(self@ =~= with_col(m, sat_sub(m.cursor.position.col, 1)));
    }

    /// Writes one character: line feed, carriage return, tab and backspace
    /// move the cursor, NUL is dropped, anything else is printed.
    pub fn write_char(&mut self, ch: char)
        requires
            old(self).wf(),
        ensures
            final(self).wf(),
            final(self)@ == write_char_m(old(self)@, ch),
    {
        if ch == '\n' {
            self.new_line();
        } else if ch == '\r' {
            self.carriage_return();
        } else if ch == '\t' {
            self.tab();
        } else if ch == '\x08' {
            self.backspace();
        } else if ch == '\0' {
        } else {
            self.put_char(ch);
        }
    }

    /// Writes each character of `s` in turn.
    pub fn write_str(&mut self, s: &str)
        requires
            old(self).wf(),
        ensures
            final(self).wf(),
            final(self)@ == write_str_m(old(self)@, s@),
    {
        let ghost m = self@;
        let mut chars = s.chars();
        let ghost mut k: int = 0;
        loop
            invariant
                0 <= k <= s@.len(),
                chars.remaining() == s@.subrange(k, s@.len() as int),
                self.wf(),
                self@ == write_str_m(m, s@.subrange(0, k)),
            ensures
                k == s@.len(),
                self.wf(),
                self@ == write_str_m(m, s@.subrange(0, k)),
            decreases s@.len() - k,
        {
            let ghost before = chars;
            match chars.next() {
                Some(ch) => {
                    proof {
                        vstd::string::next_postcondition(&before, &chars, Some(ch));
                    }
                    self.write_char(ch);
                    assert(s@.subrange(0, k + 1).drop_last() =~= s@.subrange(0, k));
                    assert(chars.remaining() =~= s@.subrange(k + 1, s@.len() as int));
                    proof {
                        k = k + 1;
                    }
                },
                None => {
                    proof {
                        vstd::string::next_postcondition(&before, &chars, None);
                    }
                    break;
                },
            }
        }
        assert(s@.subrange(0, s@.len() as int) =~= s@);
    }

    pub fn set_attributes(&mut self, attrs: CellAttributes)
        requires
            old(self).wf(),
        ensures
            final(self).wf(),
            final(self)@ == (TermModel { attrs, ..old(self)@ }),
    {
        let ghost m = self@;
        self.active_attributes = attrs;
        assert(self@ =~= TermModel { attrs, ..m });
    }

    pub fn attributes(&self) -> (r: &CellAttributes)
        ensures
            *r == self@.attrs,
    {
        &self.active_attributes
    }

    /// Turns one attribute flag on or off.
    pub fn set_attribute_flag(&mut self, flag: u16, enabled: bool)
        requires
            old(self).wf(),
        ensures
            final(self).wf(),
            final(self)@ == (TermModel { attrs: attr_set(old(self)@.attrs, flag, enabled), ..old(self)@ }),
    {
        let ghost m = self@;
        if enabled {
            self.active_attributes.flags.insert(flag);
        } else {
            self.active_attributes.flags.remove(flag);
        }
        assert(self@ =~= TermModel { attrs: attr_set(m.attrs, flag, enabled), ..m });
    }

    pub fn set_foreground_color(&mut self, color: Color)
        requires
            old(self).wf(),
        ensures
            final(self).wf(),
            final(self)@ == (TermModel { attrs: CellAttributes { fg_color: color, ..old(self)@.attrs }, ..old(self)@ }),
    {
        let ghost m = self@;
        self.active_attributes.fg_color = color;
        assert(self@ =~= TermModel { attrs: CellAttributes { fg_color: color, ..m.attrs }, ..m });
    }

    pub fn set_background_color(&mut self, color: Color)
        requires
            old(self).wf(),
        ensures
            final(self).wf(),
            final(self)@ == (TermModel { attrs: CellAttributes { bg_color: color, ..old(self)@.attrs }, ..old(self)@ }),
    {
        let ghost m = self@;
        self.active_attributes.bg_color = color;
        assert(self@ =~= TermModel { attrs: CellAttributes { bg_color: color, ..m.attrs }, ..m });
    }

    pub fn set_underline_color(&mut self, color: Option<Color>)
        requires
            old(self).wf(),
        ensures
            final(self).wf(),
            final(self)@ == (TermModel {
                attrs: CellAttributes { underline_color: color, ..old(self)@.attrs },
                ..old(self)@
            }),
    {
        let ghost m = self@;
        self.active_attributes.underline_color = color;
        assert(self@ =~= TermModel { attrs: CellAttributes { underline_color: color, ..m.attrs }, ..m });
    }

    pub fn reset_attributes(&mut self)
        requires
            old(self).wf(),
        ensures
            final(self).wf(),
            final(self)@ == (TermModel { attrs: crate::types::default_attrs(), ..old(self)@ }),
    {
        let ghost m = self@;
        self.active_attributes = CellAttributes::default();
        assert(self@ =~= TermModel { attrs: crate::types::default_attrs(), ..m });
    }

    /// Blanks the cells from (`r1`, `c1`) up to, not including, (`r2`, `c2`)
    /// in reading order.
    fn erase_range(&mut self, r1: u16, c1: u16, r2: u16, c2: u16)
        requires
            old(self).wf(),
        ensures
            final(self).wf(),
            final(self)@ == (TermModel {
                grid: erase_range_grid(old(self)@.grid, r1 as int, c1 as int, r2 as int, c2 as int),
                ..old(self)@
            }),
    {
        let ghost m = self@;
        let ghost g = m.grid;
        let rows = self.size.rows;
        let cols = self.size.cols;
        let mut r: u16 = 0;
        assert(g =~~= Seq::new(
            g.len(),
            |i: int|
                Seq::new(
                    g[i].len(),
                    |j: int|
                        if lex_lt(i, j, 0, 0) && !lex_lt(i, j, r1 as int, c1 as int)
                            && lex_lt(i, j, r2 as int, c2 as int) {
                            blank_cell()
                        } else {
                            g[i][j]
                        },
                ),
        ));
        while r < rows
            invariant
                r <= rows,
                rows == self.size.rows,
                cols == self.size.cols,
                self.wf(),
                shaped(g, rows as nat, cols as nat),
                self@ == (TermModel {
                    grid: Seq::new(
                        g.len(),
                        |i: int|
                            Seq::new(
                                g[i].len(),
                                |j: int|
                                    if lex_lt(i, j, r as int, 0) && !lex_lt(i, j, r1 as int, c1 as int)
                                        && lex_lt(i, j, r2 as int, c2 as int) {
                                        blank_cell()
                                    } else {
                                        g[i][j]
                                    },
                            ),
                    ),
                    ..m
                }),
            decreases rows - r,
        {
            let mut c: u16 = 0;
            while c < cols
                invariant
                    c <= cols,
                    r < rows,
                    rows == self.size.rows,
                    cols == self.size.cols,
                    self.wf(),
                    shaped(g, rows as nat, cols as nat),
                    self@ == (TermModel {
                        grid: Seq::new(
                            g.len(),
                            |i: int|
                                Seq::new(
                                    g[i].len(),
                                    |j: int|
                                        if lex_lt(i, j, r as int, c as int) && !lex_lt(i, j, r1 as int, c1 as int)
                                            && lex_lt(i, j, r2 as int, c2 as int) {
                                            blank_cell()
                                        } else {
                                            g[i][j]
                                        },
                                ),
                        ),
                        ..m
                    }),
                decreases cols - c,
            {
                let ghost before = self@.grid;
                let inside = !(r < r1 || (r == r1 && c < c1)) && (r < r2 || (r == r2 && c < c2));
                if inside {
                    self.screen_buffer.clear_cell(Position::new(r, c));
                }
                let ghost next = Seq::new(
                    g.len(),
                    |i: int|
                        Seq::new(
                            g[i].len(),
                            |j: int|
                                if lex_lt(i, j, r as int, (c + 1) as int) && !lex_lt(i, j, r1 as int, c1 as int)
                                    && lex_lt(i, j, r2 as int, c2 as int) {
                                    blank_cell()
                                } else {
                                    g[i][j]
                                },
                        ),
                );
                assert(self@.grid =~~= next);
                c = c + 1;
            }
            let ghost next = Seq::new(
                g.len(),
                |i: int|
                    Seq::new(
                        g[i].len(),
                        |j: int|
                            if lex_lt(i, j, (r + 1) as int, 0) && !lex_lt(i, j, r1 as int, c1 as int)
                                && lex_lt(i, j, r2 as int, c2 as int) {
                                blank_cell()
                            } else {
                                g[i][j]
                            },
                    ),
            );
            assert(self@.grid =~~= next);
            r = r + 1;
        }
        assert(self@.grid =~~= erase_range_grid(g, r1 as int, c1 as int, r2 as int, c2 as int));
        assert(self@ =~= TermModel { grid: erase_range_grid(g, r1 as int, c1 as int, r2 as int, c2 as int), ..m });
    }

    /// Erases part of the display around the cursor, or the scrollback.
    pub fn erase_display(&mut self, mode: EraseMode)
        requires
            old(self).wf(),
        ensures
            final(self).wf(),
            final(self)@ == erase_display_m(old(self)@, mode),
    {
        let ghost m = self@;
        let p = self.cursor_position();
        match mode {
            EraseMode::Saved => {
                self.scrollback_buffer.clear();
                assert(self@ =~= erase_display_m(m, mode));
            },
            EraseMode::Below => {
                self.erase_range(p.row, p.col, self.size.rows, 0);
                assert(self@.grid =~~= erase_display_grid(m.grid, mode, p.row as int, p.col as int));
            },
            EraseMode::Above => {
                self.erase_range(0, 0, p.row, p.col + 1);
                assert(self@.grid =~~= erase_display_grid(m.grid, mode, p.row as int, p.col as int));
            },
            EraseMode::All => {
                self.erase_range(0, 0, self.size.rows, 0);
                assert(self@.grid =~~= erase_display_grid(m.grid, mode, p.row as int, p.col as int));
            },
        }
    }

    /// Erases part of the cursor's row.
    pub fn erase_line(&mut self, mode: EraseMode)
        requires
            old(self).wf(),
        ensures
            final(self).wf(),
            final(self)@ == erase_line_m(old(self)@, mode),
    {
        let ghost m = self@;
        let p = self.cursor_position();
        match mode {
            EraseMode::Below => {
                self.erase_range(p.row, p.col, p.row + 1, 0);
            },
            EraseMode::Above => {
                self.erase_range(p.row, 0, p.row, p.col + 1);
            },
            _ => {
                self.erase_range(p.row, 0, p.row + 1, 0);
            },
        }
        assert(self@.grid =~~= erase_line_grid(m.grid, mode, p.row as int, p.col as int));
    }

    /// Scrolls up `n` times.
    pub fn scroll_up_by(&mut self, n: u16)
        requires
            old(self).wf(),
        ensures
            final(self).wf(),
            final(self)@ == scroll_up_n(old(self)@, n as nat),
    {
        let ghost m = self@;
        let mut i: u16 = 0;
        while i < n
            invariant
                i <= n,
                self.wf(),
                self@ == scroll_up_n(m, i as nat),
            decreases n - i,
        {
            self.scroll_up();
            i = i + 1;
        }
    }

    /// Scrolls down `n` times.
    pub fn scroll_down_by(&mut self, n: u16)
        requires
            old(self).wf(),
        ensures
            final(self).wf(),
            final(self)@ == scroll_down_n(old(self)@, n as nat),
    {
        let ghost m = self@;
        let mut i: u16 = 0;
        while i < n
            invariant
                i <= n,
                self.wf(),
                self@ == scroll_down_n(m, i as nat),
            decreases n - i,
        {
            self.scroll_down();
            i = i + 1;
        }
    }

    /// The cursor position, held inside the screen.
    pub fn cursor_position(&self) -> (r: Position)
        ensures
            r == visible_pos(self@),
    {
        let pos = self.cursor.position();
        Position::new(below_exec(pos.row, self.size.rows), below_exec(pos.col, self.size.cols))
    }

    pub fn size(&self) -> (r: Size)
        ensures
            r == self@.size,
    {
        self.size
    }

    pub fn screen_buffer(&self) -> (r: &ScreenBuffer)
        requires
            self.wf(),
        ensures
            r@ == self@.grid,
            r.spec_size() == self@.size,
            r.wf(),
    {
        &self.screen_buffer
    }

    pub fn scrollback_buffer(&self) -> (r: &ScrollbackBuffer)
        ensures
            r@ == self@.scrollback,
            r.max() == self@.max_lines,
    {
        &self.scrollback_buffer
    }

    /// Direct access to the screen; the state stays well formed as long as
    /// the buffer keeps the state's size.
    pub fn screen_buffer_mut(&mut self) -> (r: &mut ScreenBuffer)
        ensures
            *r == old(self).spec_screen(),
            final(self)@ == (TermModel { grid: final(r)@, ..old(self)@ }),
            old(self).wf() && final(r).wf() && final(r).spec_size() == old(self)@.size ==> final(self).wf(),
    {
        &mut self.screen_buffer
    }

    /// Direct access to the scrollback; its capacity cannot change.
    pub fn scrollback_buffer_mut(&mut self) -> (r: &mut ScrollbackBuffer)
        ensures
            *r == old(self).spec_scrollback(),
            final(self)@ == (TermModel { scrollback: final(r)@, max_lines: final(r).max(), ..old(self)@ }),
            old(self).wf() && final(r).wf() && final(r).max() == old(self)@.max_lines ==> final(self).wf(),
    {
        &mut self.scrollback_buffer
    }

    /// Direct access to the cursor; any position keeps the state well formed.
    pub fn cursor_mut(&mut self) -> (r: &mut Cursor)
        ensures
            *r == old(self).spec_cursor(),
            final(self)@ == (TermModel { cursor: final(r)@, ..old(self)@ }),
            old(self).wf() ==> final(self).wf(),
    {
        &mut self.cursor
    }

    /// The cursor with its own save slot and visibility; its row may be the
    /// virtual row just below the screen.
    pub fn cursor(&self) -> (r: &Cursor)
        ensures
            r@ == self@.cursor,
    {
        &self.cursor
    }

    /// The cursor as it stands, possibly on the virtual row below the screen.
    pub closed spec fn spec_cursor(&self) -> Cursor {
        self.cursor
    }

    /// The screen that is shown.
    pub closed spec fn spec_screen(&self) -> ScreenBuffer {
        self.screen_buffer
    }

    pub closed spec fn spec_scrollback(&self) -> ScrollbackBuffer {
        self.scrollback_buffer
    }

    pub fn set_cursor_position(&mut self, pos: Position)
        requires
            old(self).wf(),
        ensures
            final(self).wf(),
            final(self)@ == with_pos(old(self)@, pos.row, pos.col),
    {
        let ghost m = self@;
        self.cursor.set_position(pos);
        assert(self@ =~= with_pos(m, pos.row, pos.col));
    }

    /// Moves the cursor up `n` rows, stopping at the top row.
    pub fn cursor_up(&mut self, n: u16)
        requires
            old(self).wf(),
        ensures
            final(self).wf(),
            final(self)@ == with_row(old(self)@, sat_sub(old(self)@.cursor.position.row, n)),
    {
        let ghost m = self@;
        self.cursor.move_up(n);
        assert(self@ =~= with_row(m, sat_sub(m.cursor.position.row, n)));
    }

    /// Moves the cursor down `n` rows, stopping at the bottom row.
    pub fn cursor_down(&mut self, n: u16)
        requires
            old(self).wf(),
        ensures
            final(self).wf(),
            final(self)@ == cursor_down_m(old(self)@, n),
    {
        let ghost m = self@;
        let row = below_exec(u16_sat_add(self.cursor.position().row, n), self.size.rows);
        self.cursor.set_row(row);
        assert(self@ =~= cursor_down_m(m, n));
    }

    /// Moves the cursor right `n` columns, stopping at the last column.
    pub fn cursor_forward(&mut self, n: u16)
        requires
            old(self).wf(),
        ensures
            final(self).wf(),
            final(self)@ == cursor_forward_m(old(self)@, n),
    {
        let ghost m = self@;
        let col = below_exec(u16_sat_add(self.cursor.position().col, n), self.size.cols);
        self.cursor.set_column(col);
        assert(self@ =~= cursor_forward_m(m, n));
    }

    /// Moves the cursor left `n` columns, stopping at column 0.
    pub fn cursor_back(&mut self, n: u16)
        requires
            old(self).wf(),
        ensures
            final(self).wf(),
            final(self)@ == with_col(old(self)@, sat_sub(old(self)@.cursor.position.col, n)),
    {
        let ghost m = self@;
        self.cursor.move_left(n);
        assert(self@ =~= with_col(m, sat_sub(m.cursor.position.col, n)));
    }

    /// Turns the mode bit of `mode` on or off; modes without a bit, the
    /// alternate screen among them, are ignored.
    pub fn set_mode_flag(&mut self, mode: Mode, enabled: bool)
        requires
            old(self).wf(),
        ensures
            final(self).wf(),
            final(self)@ == (if mode_flag(mode) == 0 {
                old(self)@
            } else {
                with_mode(old(self)@, mode_flag(mode), enabled)
            }),
    {
        let ghost m = self@;
        let flag: u32 = match mode {
            Mode::Insert => TerminalMode::INSERT_MODE,
            Mode::AutoWrap => TerminalMode::LINE_WRAP,
            Mode::BracketedPaste => TerminalMode::BRACKETED_PASTE,
            Mode::FocusReporting => TerminalMode::FOCUS_REPORTING,
            Mode::MouseReporting => TerminalMode::MOUSE_REPORTING,
            Mode::ApplicationCursor => TerminalMode::APPLICATION_CURSOR,
            Mode::ApplicationKeypad => TerminalMode::APPLICATION_KEYPAD,
            Mode::OriginMode => TerminalMode::ORIGIN_MODE,
            Mode::ScreenMode => TerminalMode::REVERSE_VIDEO,
            Mode::CursorVisible => TerminalMode::CURSOR_VISIBLE,
            _ => 0,
        };
        if flag != 0 {
            if enabled {
                self.mode.insert(flag);
            } else {
                self.mode.remove(flag);
            }
            assert(self@ =~= with_mode(m, mode_flag(mode), enabled));
        }
    }

    pub fn mode(&self) -> (r: TerminalMode)
        ensures
            r == self@.mode,
    {
        self.mode
    }

    pub fn set_mode(&mut self, mode: TerminalMode)
        requires
            old(self).wf(),
        ensures
            final(self).wf(),
            final(self)@ == (TermModel { mode, ..old(self)@ }),
    {
        let ghost m = self@;
        self.mode = mode;
        assert(self@ =~= TermModel { mode, ..m });
    }

    /// Shows a fresh blank screen and keeps the primary one aside; does
    /// nothing when the alternate screen is already shown.
    pub fn enable_alternate_screen(&mut self)
        requires
            old(self).wf(),
        ensures
            final(self).wf(),
            final(self)@ == enable_alt_m(old(self)@),
    {
        let ghost m = self@;
        if self.alternate_buffer.is_none() {
            let mut other = ScreenBuffer::new(self.size);
            std::mem::swap(&mut self.screen_buffer, &mut other);
            self.alternate_buffer = Some(other);
            self.mode.insert(TerminalMode::ALTERNATE_SCREEN);
            assert(self@ =~= enable_alt_m(m));
        }
    }

    /// Brings the primary screen back; does nothing when it is shown.
    pub fn disable_alternate_screen(&mut self)
        requires
            old(self).wf(),
        ensures
            final(self).wf(),
            final(self)@ == disable_alt_m(old(self)@),
    {
        let ghost m = self@;
        let kept = self.alternate_buffer.take();
        match kept {
            Some(main) => {
                self.screen_buffer = main;
                self.mode.remove(TerminalMode::ALTERNATE_SCREEN);
                assert(self@ =~= disable_alt_m(m));
            },
            None => {
                assert(self@ =~= m);
            },
        }
    }

    /// Saves the cursor position; a later save overwrites it.
    pub fn save_cursor(&mut self)
        requires
            old(self).wf(),
        ensures
            final(self).wf(),
            final(self)@ == save_cursor_m(old(self)@),
    {
        let ghost m = self@;
        self.saved_cursor = Some(self.cursor.position());
        assert(self@ =~= save_cursor_m(m));
    }

    /// Moves the cursor back to the saved position and empties the slot.
    pub fn restore_cursor(&mut self)
        requires
            old(self).wf(),
        ensures
            final(self).wf(),
            final(self)@ == restore_cursor_m(old(self)@),
    {
        let ghost m = self@;
        if let Some(pos) = self.saved_cursor {
            self.cursor.set_position(pos);
            self.saved_cursor = None;
            assert(self@ =~= restore_cursor_m(m));
        }
    }

    pub fn set_cursor_style(&mut self, style: CursorStyle)
        requires
            old(self).wf(),
        ensures
            final(self).wf(),
            final(self)@ == (TermModel { style, ..old(self)@ }),
    {
        let ghost m = self@;
        self.cursor_style = style;
        assert(self@ =~= TermModel { style, ..m });
    }

    pub fn cursor_style(&self) -> (r: CursorStyle)
        ensures
            r == self@.style,
    {
        self.cursor_style
    }

    pub fn set_cursor_visible(&mut self, visible: bool)
        requires
            old(self).wf(),
        ensures
            final(self).wf(),
            final(self)@ == with_mode(old(self)@, TerminalMode::CURSOR_VISIBLE, visible),
    {
        let ghost m = self@;
        if visible {
            self.mode.insert(TerminalMode::CURSOR_VISIBLE);
        } else {
            self.mode.remove(TerminalMode::CURSOR_VISIBLE);
        }
        assert(self@ =~= with_mode(m, TerminalMode::CURSOR_VISIBLE, visible));
    }

    /// Sets a tab stop at the cursor's column.
    pub fn set_tab_stop(&mut self)
        requires
            old(self).wf(),
        ensures
            final(self).wf(),
            final(self)@ == set_tab_stop_m(old(self)@),
    {
        let ghost m = self@;
        let col = self.cursor.position().col;
        if col < self.size.cols {
            self.tab_stops.set(col as usize, true);
            assert(self@ =~= set_tab_stop_m(m));
        }
    }

    /// Removes the tab stop at the cursor's column, if any.
    pub fn clear_tab_stop(&mut self)
        requires
            old(self).wf(),
        ensures
            final(self).wf(),
            final(self)@ == (if old(self)@.cursor.position.col < old(self)@.size.cols {
                TermModel { tabs: old(self)@.tabs.update(old(self)@.cursor.position.col as int, false), ..old(self)@ }
            } else {
                old(self)@
            }),
    {
        let ghost m = self@;
        let col = self.cursor.position().col;
        if col < self.size.cols {
            self.tab_stops.set(col as usize, false);
            assert(self@ =~= TermModel { tabs: m.tabs.update(col as int, false), ..m });
        }
    }

    /// Removes every tab stop.
    pub fn clear_all_tab_stops(&mut self)
        requires
            old(self).wf(),
        ensures
            final(self).wf(),
            final(self)@ == (TermModel { tabs: Seq::new(old(self)@.size.cols as nat, |c: int| false), ..old(self)@ }),
    {
        let ghost m = self@;
        let n = self.tab_stops.len();
        let mut i: usize = 0;
        while i < n
            invariant
                i <= n,
                n == self.tab_stops@.len(),
                self.wf(),
                self@ == (TermModel {
                    tabs: Seq::new(n as nat, |c: int| if c < i { false } else { m.tabs[c] }),
                    ..m
                }),
            decreases n - i,
        {
            self.tab_stops.set(i, false);
            i = i + 1;
            assert(self@ =~= TermModel {
                tabs: Seq::new(n as nat, |c: int| if c < i { false } else { m.tabs[c] }),
                ..m
            });
        }
        assert(self@ =~= TermModel { tabs: Seq::new(m.size.cols as nat, |c: int| false), ..m });
    }

    /// Resizes both screens without reflow, resets the tab stops for the new
    /// width and brings the cursor inside the new screen.
    pub fn resize(&mut self, new_size: Size)
        requires
            old(self).wf(),
        ensures
            final(self).wf(),
            final(self)@ == resize_m(old(self)@, new_size),
    {
        let ghost m = self@;
        self.size = new_size;
        self.screen_buffer.resize(new_size);
        let kept = self.alternate_buffer.take();
        match kept {
            Some(mut b) => {
                b.resize(new_size);
                self.alternate_buffer = Some(b);
            },
            None => {},
        }
        self.tab_stops = Self::default_tab_stops(new_size.cols);
        let pos = self.cursor.position();
        self.cursor.set_position(
            Position::new(below_exec(pos.row, new_size.rows), below_exec(pos.col, new_size.cols)),
        );
        assert(self@ =~= resize_m(m, new_size));
    }

    /// Back to the state of a new terminal of the current size.
    pub fn reset(&mut self)
        requires
            old(self).wf(),
        ensures
            final(self).wf(),
            final(self)@ == new_model(old(self)@.size),
    {
        *self = TerminalState::new(self.size);
    }

    /// Hyperlink given to the cells written from now on.
    pub fn set_hyperlink(&mut self, uri: String)
        requires
            old(self).wf(),
        ensures
            final(self).wf(),
            final(self)@ == (TermModel {
                link: Some(old(self)@.links.len() as usize),
                links: old(self)@.links.push(uri@),
                ..old(self)@
            }),
    {
        let ghost m = self@;
        self.hyperlink = Some(self.hyperlinks.len());
        self.hyperlinks.push(uri);
        assert(strings_view(self.hyperlinks@) =~= m.links.push(uri@));
        assert(self@ =~= TermModel { link: Some(m.links.len() as usize), links: m.links.push(uri@), ..m });
    }

    /// Cells written from now on carry no hyperlink.
    pub fn reset_hyperlink(&mut self)
        requires
            old(self).wf(),
        ensures
            final(self).wf(),
            final(self)@ == (TermModel { link: None, ..old(self)@ }),
    {
        let ghost m = self@;
        self.hyperlink = None;
        assert(self@ =~= TermModel { link: None, ..m });
    }

    /// The target of hyperlink `id`.
    pub fn hyperlink_uri(&self, id: usize) -> (r: Option<&String>)
        ensures
            r.is_some() <==> id < self@.links.len(),
            r.is_some() ==> r.unwrap()@ == self@.links[id as int],
    {
        if id < self.hyperlinks.len() {
            Some(&self.hyperlinks[id])
        } else {
            None
        }
    }

    /// Sets palette entry `index`.
    pub fn set_palette_color(&mut self, index: u8, color: Color)
        requires
            old(self).wf(),
        ensures
            final(self).wf(),
            final(self)@ == (TermModel { palette: old(self)@.palette.update(index as int, color), ..old(self)@ }),
    {
        let ghost m = self@;
        self.color_palette.set(index as usize, color);
        assert(self@ =~= TermModel { palette: m.palette.update(index as int, color), ..m });
    }

    /// Palette entry `index`.
    pub fn palette_color(&self, index: u8) -> (r: Color)
        requires
            self.wf(),
        ensures
            r == self@.palette[index as int],
    {
        self.color_palette[index as usize]
    }

    /// Puts palette entry `index` back to its default.
    pub fn reset_palette_color(&mut self, index: u8)
        requires
            old(self).wf(),
        ensures
            final(self).wf(),
            final(self)@ == (TermModel {
                palette: old(self)@.palette.update(index as int, palette_entry(index as int)),
                ..old(self)@
            }),
    {
        let c = palette_entry_exec(index as u32);
        self.set_palette_color(index, c);
    }

    /// A copy of the cursor, modes, attributes and size. The cursor is
    /// read as outside readers see it: held inside the screen.
    pub fn snapshot(&self) -> (r: TerminalSnapshot)
        ensures
            r == (TerminalSnapshot {
                size: self@.size,
                cursor: visible_pos(self@),
                cursor_style: self@.style,
                mode: self@.mode,
                active_attributes: self@.attrs,
                alternate_screen_active: self@.alt.is_some(),
            }),
    {
        TerminalSnapshot {
            size: self.size,
            cursor: self.cursor_position(),
            cursor_style: self.cursor_style,
            mode: self.mode,
            active_attributes: self.active_attributes,
            alternate_screen_active: self.alternate_buffer.is_some(),
        }
    }
}

/// `v` held below `limit`, 0 when `limit` is 0.
pub fn below_exec(v: u16, limit: u16) -> (r: u16)
    ensures
        r == below(v, limit),
{
    if limit == 0 {
        0
    } else if v >= limit {
        limit - 1
    } else {
        v
    }
}

} // verus!
