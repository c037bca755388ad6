//! Properties of the parser and of the state engine, proved over the spec
//! functions that the executable functions' contracts are stated in.
use vstd::prelude::*;
use crate::buffer::{blank_grid, shaped};

use crate::model::{
    apply_all, apply_m, disable_alt_m, enable_alt_m, erase_display_m, model_wf, put_char_m,
    resize_m, restore_cursor_m, save_cursor_m, scroll_up_m, with_row, write_char_m, write_str_m,
    TermModel, scroll_up_n, scroll_down_n, set_modes_m, next_tab, set_tab_stop_m, tab_m, with_col,
};
use crate::parser::{run, step, Atom, ParserModel, ParserState};
use crate::traits::{ControlEvent, CsiSequence, CsiView, EraseMode, EventView, Mode};
use crate::types::{Position, TerminalMode};

verus! {

/// Bytes read one at a time, each as a chunk of its own.
pub open spec fn run_bytewise(p: ParserModel, bs: Seq<u8>) -> (ParserModel, Seq<Atom>)
    decreases bs.len(),
{
    if bs.len() == 0 {
        (p, Seq::empty())
    } else {
        let first = run(p, seq![bs[0]]);
        let rest = run_bytewise(first.0, bs.drop_first());
        (rest.0, first.1 + rest.1)
    }
}

/// The parser is resumable: reading `a` and then `b` gives the same state,
/// and the same characters and events in the same order, as reading
/// `a + b` at once.
pub proof fn law_parse_chunks(p: ParserModel, a: Seq<u8>, b: Seq<u8>)
    ensures
        run(p, a + b).0 == run(run(p, a).0, b).0,
        run(p, a + b).1 == run(p, a).1 + run(run(p, a).0, b).1,
    decreases b.len(),
{
    if b.len() == 0 {
        assert(a + b =~= a);
        assert(run(p, a).1 + run(run(p, a).0, b).1 =~= run(p, a).1);
    } else {
        law_parse_chunks(p, a, b.drop_last());
        assert((a + b).drop_last() =~= a + b.drop_last());
        assert((a + b).last() == b.last());
        let r = run(run(p, a).0, b.drop_last());
        let s = step(r.0, b.last());
        assert(run(p, a).1 + (r.1 + s.1) =~= (run(p, a).1 + r.1) + s.1);
    }
}

/// Streaming equivalence: feeding the parser one byte per call gives the
/// same state, and the same characters and events in the same order, as
/// feeding all bytes in one call.
pub proof fn law_parse_bytewise(p: ParserModel, bs: Seq<u8>)
    ensures
        run_bytewise(p, bs) == run(p, bs),
    decreases bs.len(),
{
    if bs.len() > 0 {
        let head = seq![bs[0]];
        let tail = bs.drop_first();
        assert(head + tail =~= bs);
        law_parse_chunks(p, head, tail);
        law_parse_bytewise(run(p, head).0, tail);
    }
}

/// Applying events is independent of how they are cut into batches.
pub proof fn law_apply_chunks(m: TermModel, a: Seq<EventView>, b: Seq<EventView>)
    ensures
        apply_all(m, a + b) == apply_all(apply_all(m, a), b),
    decreases b.len(),
{
    if b.len() == 0 {
        assert(a + b =~= a);
    } else {
        law_apply_chunks(m, a, b.drop_last());
        assert((a + b).drop_last() =~= a + b.drop_last());
        assert((a + b).last() == b.last());
    }
}

/// Erasing the whole display leaves every cell blank with default
/// attributes, and changes neither the cursor nor the scrollback.
pub proof fn law_erase_all(m: TermModel)
    requires
        model_wf(m),
    ensures
        apply_m(m, EventView::Csi(CsiView::Plain(CsiSequence::EraseDisplay(EraseMode::All)))).grid
            == blank_grid(m.size.rows as nat, m.size.cols as nat),
        apply_m(m, EventView::Csi(CsiView::Plain(CsiSequence::EraseDisplay(EraseMode::All)))).cursor
            == m.cursor,
        apply_m(m, EventView::Csi(CsiView::Plain(CsiSequence::EraseDisplay(EraseMode::All)))).scrollback
            == m.scrollback,
        apply_m(m, EventView::Control(ControlEvent::FormFeed)).grid == blank_grid(
            m.size.rows as nat,
            m.size.cols as nat,
        ),
        apply_m(m, EventView::Control(ControlEvent::FormFeed)).cursor == m.cursor,
        apply_m(m, EventView::Control(ControlEvent::FormFeed)).scrollback == m.scrollback,
{
    let r = erase_display_m(m, EraseMode::All);
    assert(r.grid =~~= blank_grid(m.size.rows as nat, m.size.cols as nat));
}

/// A character that moves the cursor as it is printed.
pub open spec fn printable(c: char) -> bool {
    c != '\n' && c != '\r' && c != '\t' && c != '\x08' && c != '\0'
}

proof fn lemma_next_position(l: int, c: int)
    requires
        l >= 0,
        c > 0,
    ensures
        l % c + 1 < c ==> (l + 1) % c == l % c + 1 && (l + 1) / c == l / c,
        l % c + 1 >= c ==> (l + 1) % c == 0 && (l + 1) / c == l / c + 1,
        0 <= l % c < c,
{
    assert(l == c * (l / c) + l % c) by (nonlinear_arith)
        requires
            c > 0,
    ;
    assert(0 <= l % c < c) by (nonlinear_arith)
        requires
            c > 0,
    ;
    if l % c + 1 < c {
        assert(l + 1 == (l / c) * c + (l % c + 1)) by (nonlinear_arith)
            requires
                l == c * (l / c) + l % c,
        ;
        vstd::arithmetic::div_mod::lemma_fundamental_div_mod_converse(l + 1, c, l / c, l % c + 1);
    } else {
        assert(l + 1 == (l / c + 1) * c + 0) by (nonlinear_arith)
            requires
                l == c * (l / c) + l % c,
                l % c + 1 == c,
        ;
        vstd::arithmetic::div_mod::lemma_fundamental_div_mod_converse(l + 1, c, l / c + 1, 0);
    }
}

/// Where printing `l` characters from the origin leaves the cursor: the
/// row is held at the last one once the screen has filled up.
pub open spec fn wrapped_position(l: int, rows: int, cols: int) -> (int, int) {
    (if l / cols < rows - 1 { l / cols } else { rows - 1 }, l % cols)
}

/// Rows scrolled off the top by printing `l` characters from the origin:
/// one for each wrap past the last row.
pub open spec fn scrolled(l: int, rows: int, cols: int) -> int {
    if l / cols >= rows {
        l / cols - rows + 1
    } else {
        0
    }
}

proof fn lemma_scrolled_monotone(a: int, b: int, rows: int, cols: int)
    requires
        0 <= a <= b,
        cols > 0,
    ensures
        scrolled(a, rows, cols) <= scrolled(b, rows, cols),
{
    vstd::arithmetic::div_mod::lemma_div_is_ordered(a, b, cols);
}

proof fn lemma_grid_set(g: Seq<Seq<crate::types::Cell>>, rows: nat, cols: nat, r: int, c: int, cell: crate::types::Cell)
    requires
        shaped(g, rows, cols),
        0 <= r < rows,
        0 <= c < cols,
    ensures
        shaped(crate::buffer::grid_set(g, r, c, cell), rows, cols),
        forall|i: int, j: int|
            0 <= i < rows && 0 <= j < cols && (i != r || j != c) ==> #[trigger] crate::buffer::grid_set(
                g,
                r,
                c,
                cell,
            )[i][j] == g[i][j],
        crate::buffer::grid_set(g, r, c, cell)[r][c] == cell,
{
    let g2 = crate::buffer::grid_set(g, r, c, cell);
    assert forall|i: int| 0 <= i < g2.len() implies (#[trigger] g2[i]).len() == cols by {
        if i != r {
            assert(g2[i] == g[i]);
        }
    }
}

#[verifier::spinoff_prover]
proof fn lemma_write_printable(m: TermModel, s: Seq<char>)
    requires
        model_wf(m),
        m.size.rows > 0,
        m.size.cols > 0,
        m.mode.has(TerminalMode::LINE_WRAP),
        m.cursor.position == (Position { row: 0, col: 0 }),
        forall|i: int| 0 <= i < s.len() ==> printable(#[trigger] s[i]),
        m.scrollback.len() + scrolled(s.len() as int, m.size.rows as int, m.size.cols as int) <= m.max_lines,
    ensures
        write_str_m(m, s).size == m.size,
        write_str_m(m, s).mode == m.mode,
        write_str_m(m, s).max_lines == m.max_lines,
        shaped(write_str_m(m, s).grid, m.size.rows as nat, m.size.cols as nat),
        write_str_m(m, s).cursor.position.row as int == wrapped_position(
            s.len() as int,
            m.size.rows as int,
            m.size.cols as int,
        ).0,
        write_str_m(m, s).cursor.position.col as int == wrapped_position(
            s.len() as int,
            m.size.rows as int,
            m.size.cols as int,
        ).1,
        write_str_m(m, s).scrollback.len() == m.scrollback.len() + scrolled(
            s.len() as int,
            m.size.rows as int,
            m.size.cols as int,
        ),
        s.len() < m.size.rows * m.size.cols ==> write_str_m(m, s).scrollback == m.scrollback,
        s.len() < m.size.rows * m.size.cols ==> forall|i: int|
            0 <= i < s.len() ==> (#[trigger] write_str_m(m, s).grid[i / (m.size.cols as int)][i % (
            m.size.cols as int)]).ch == s[i],
    decreases s.len(),
{
    let rows = m.size.rows as int;
    let cols = m.size.cols as int;
    if s.len() == 0 {
        assert(0int / cols == 0 && 0int % cols == 0) by (nonlinear_arith)
            requires
                cols > 0,
        ;
    } else {
        let t = s.drop_last();
        let l = t.len() as int;
        lemma_scrolled_monotone(l, l + 1, rows, cols);
        lemma_write_printable(m, t);
        let m1 = write_str_m(m, t);
        lemma_next_position(l, cols);
        let ch = s.last();
        assert(printable(ch));
        assert(write_str_m(m, s) == write_char_m(m1, ch));
        assert(write_char_m(m1, ch) == put_char_m(m1, ch));
        assert(m1.cursor.position.row < rows);
        let row = m1.cursor.position.row as int;
        let col = m1.cursor.position.col as int;
        let cell = crate::types::Cell { ch, attrs: m1.attrs, hyperlink: m1.link };
        let g2 = crate::buffer::grid_set(m1.grid, row, col, cell);
        lemma_grid_set(m1.grid, rows as nat, cols as nat, row, col, cell);
        if s.len() < rows * cols {
            vstd::arithmetic::div_mod::lemma_fundamental_div_mod(l, cols);
            assert(l / cols < rows) by (nonlinear_arith)
                requires
                    l + 1 < rows * cols,
                    cols > 0,
                    l >= 0,
            ;
            assert(l % cols + 1 < cols || l / cols + 1 < rows) by (nonlinear_arith)
                requires
                    l + 1 < rows * cols,
                    cols > 0,
                    l >= 0,
                    l == cols * (l / cols) + l % cols,
                    l % cols < cols,
            ;
            assert(row == l / cols);
            assert forall|i: int| 0 <= i < s.len() implies (#[trigger] write_str_m(m, s).grid[i / cols][i
                % cols]).ch == s[i] by {
                vstd::arithmetic::div_mod::lemma_fundamental_div_mod(i, cols);
                vstd::arithmetic::div_mod::lemma_fundamental_div_mod(l, cols);
                if i < l {
                    assert(i / cols != l / cols || i % cols != l % cols);
                    vstd::arithmetic::div_mod::lemma_div_is_ordered(i, l, cols);
                    vstd::arithmetic::div_mod::lemma_div_pos_is_pos(i, cols);
                    vstd::arithmetic::div_mod::lemma_mod_bound(i, cols);
                    assert(g2[i / cols][i % cols] == m1.grid[i / cols][i % cols]);
                } else {
                    assert(i == l);
                }
            }
        }
    }
}

/// Printing `l` printable characters from the origin with line wrap on:
/// when they fit on the screen the cursor ends at (`l / cols`, `l % cols`);
/// otherwise it ends on the last row.
pub proof fn law_printable_run(m: TermModel, s: Seq<char>)
    requires
        model_wf(m),
        m.size.rows > 0,
        m.size.cols > 0,
        m.mode.has(TerminalMode::LINE_WRAP),
        m.cursor.position == (Position { row: 0, col: 0 }),
        forall|i: int| 0 <= i < s.len() ==> printable(#[trigger] s[i]),
        m.scrollback.len() + scrolled(s.len() as int, m.size.rows as int, m.size.cols as int) <= m.max_lines,
    ensures
        s.len() < m.size.rows * m.size.cols ==> write_str_m(m, s).cursor.position.row as int == (
        s.len() as int) / (m.size.cols as int) && write_str_m(m, s).cursor.position.col as int == (
        s.len() as int) % (m.size.cols as int),
        s.len() < m.size.rows * m.size.cols ==> write_str_m(m, s).scrollback == m.scrollback,
        s.len() < m.size.rows * m.size.cols ==> forall|i: int|
            0 <= i < s.len() ==> (#[trigger] write_str_m(m, s).grid[i / (m.size.cols as int)][i % (
            m.size.cols as int)]).ch == s[i],
        s.len() >= m.size.rows * m.size.cols ==> write_str_m(m, s).cursor.position.row == m.size.rows
            - 1 && write_str_m(m, s).cursor.position.col as int == (s.len() as int) % (m.size.cols as int),
        s.len() >= m.size.rows * m.size.cols ==> write_str_m(m, s).scrollback.len() == m.scrollback.len()
            + (s.len() as int) / (m.size.cols as int) - m.size.rows + 1,
{
    lemma_write_printable(m, s);
    let l = s.len() as int;
    let rows = m.size.rows as int;
    let cols = m.size.cols as int;
    if l < rows * cols {
        assert(l / cols < rows) by (nonlinear_arith)
            requires
                l < rows * cols,
                cols > 0,
                l >= 0,
        ;
    } else {
        assert(l / cols >= rows) by (nonlinear_arith)
            requires
                l >= rows * cols,
                cols > 0,
        ;
    }
}

proof fn lemma_write_keeps_alt(m: TermModel, s: Seq<char>)
    ensures
        write_str_m(m, s).alt == m.alt,
        write_str_m(m, s).size == m.size,
    decreases s.len(),
{
    if s.len() > 0 {
        lemma_write_keeps_alt(m, s.drop_last());
    }
}

/// Showing the alternate screen and going back restores the primary screen
/// cell for cell, whatever was written on the alternate screen meanwhile.
pub proof fn law_alternate_screen(m: TermModel, s: Seq<char>)
    requires
        model_wf(m),
        m.alt.is_none(),
    ensures
        disable_alt_m(enable_alt_m(m)).grid == m.grid,
        disable_alt_m(write_str_m(enable_alt_m(m), s)).grid == m.grid,
{
    lemma_write_keeps_alt(enable_alt_m(m), s);
}

/// An event that only moves the cursor.
pub open spec fn is_cursor_move(e: EventView) -> bool {
    match e {
        EventView::Control(c) => c == ControlEvent::NewLine || c == ControlEvent::CarriageReturn || c
            == ControlEvent::Tab || c == ControlEvent::Backspace || c == ControlEvent::VerticalTab,
        EventView::Csi(CsiView::Plain(c)) => match c {
            CsiSequence::CursorUp(_) => true,
            CsiSequence::CursorDown(_) => true,
            CsiSequence::CursorForward(_) => true,
            CsiSequence::CursorBack(_) => true,
            CsiSequence::CursorPosition { .. } => true,
            CsiSequence::CursorColumn(_) => true,
            CsiSequence::CursorNextLine(_) => true,
            CsiSequence::CursorPreviousLine(_) => true,
            _ => false,
        },
        _ => false,
    }
}

proof fn lemma_moves_keep_slot(m: TermModel, es: Seq<EventView>)
    requires
        forall|i: int| 0 <= i < es.len() ==> is_cursor_move(#[trigger] es[i]),
    ensures
        apply_all(m, es).saved_cursor == m.saved_cursor,
    decreases es.len(),
{
    if es.len() > 0 {
        lemma_moves_keep_slot(m, es.drop_last());
        assert(is_cursor_move(es.last()));
    }
}

/// Saving the cursor, moving it about, then restoring it brings it back to
/// the saved position.
pub proof fn law_save_restore(m: TermModel, moves: Seq<EventView>)
    requires
        forall|i: int| 0 <= i < moves.len() ==> is_cursor_move(#[trigger] moves[i]),
    ensures
        restore_cursor_m(apply_all(save_cursor_m(m), moves)).cursor.position == m.cursor.position,
{
    lemma_moves_keep_slot(save_cursor_m(m), moves);
}

proof fn lemma_scroll_up_n_bound(m: TermModel, n: nat)
    requires
        m.scrollback.len() <= m.max_lines,
    ensures
        scroll_up_n(m, n).scrollback.len() <= scroll_up_n(m, n).max_lines,
        scroll_up_n(m, n).max_lines == m.max_lines,
    decreases n,
{
    if n > 0 {
        lemma_scroll_up_n_bound(m, (n - 1) as nat);
    }
}

proof fn lemma_scroll_down_n_keeps(m: TermModel, n: nat)
    ensures
        scroll_down_n(m, n).scrollback == m.scrollback,
        scroll_down_n(m, n).max_lines == m.max_lines,
    decreases n,
{
    if n > 0 {
        lemma_scroll_down_n_keeps(m, (n - 1) as nat);
    }
}

proof fn lemma_modes_keep(m: TermModel, ms: Seq<crate::traits::Mode>, on: bool)
    ensures
        set_modes_m(m, ms, on).scrollback == m.scrollback,
        set_modes_m(m, ms, on).max_lines == m.max_lines,
    decreases ms.len(),
{
    if ms.len() > 0 {
        lemma_modes_keep(m, ms.drop_last(), on);
    }
}

proof fn lemma_write_bound(m: TermModel, s: Seq<char>)
    requires
        m.scrollback.len() <= m.max_lines,
    ensures
        write_str_m(m, s).scrollback.len() <= write_str_m(m, s).max_lines,
        write_str_m(m, s).max_lines == m.max_lines,
    decreases s.len(),
{
    if s.len() > 0 {
        lemma_write_bound(m, s.drop_last());
        let m1 = write_str_m(m, s.drop_last());
        let m2 = if m1.cursor.position.row >= m1.size.rows {
            with_row(scroll_up_m(m1), (m1.size.rows - 1) as u16)
        } else {
            m1
        };
        assert(m2.scrollback.len() <= m2.max_lines);
    }
}

proof fn lemma_bound_kept(m: TermModel, e: EventView)
    requires
        m.scrollback.len() <= m.max_lines,
    ensures
        apply_m(m, e).scrollback.len() <= apply_m(m, e).max_lines,
{
    match e {
        EventView::Text(s) => lemma_write_bound(m, s),
        EventView::Csi(c) => match c {
            CsiView::SetModes(ms) => lemma_modes_keep(m, ms, true),
            CsiView::ResetModes(ms) => lemma_modes_keep(m, ms, false),
            CsiView::Plain(p) => match p {
                CsiSequence::ScrollUp(n) => lemma_scroll_up_n_bound(m, n as nat),
                CsiSequence::ScrollDown(n) => lemma_scroll_down_n_keeps(m, n as nat),
                CsiSequence::SetMode(v) => lemma_modes_keep(m, v@, true),
                CsiSequence::ResetMode(v) => lemma_modes_keep(m, v@, false),
                _ => {},
            },
            _ => {},
        },
        _ => {},
    }
}

/// The scrollback keeps to its bound: no event takes it past `max_lines`.
pub proof fn law_scrollback_bound(m: TermModel, e: EventView)
    requires
        m.scrollback.len() <= m.max_lines,
    ensures
        apply_m(m, e).scrollback.len() <= apply_m(m, e).max_lines,
{
    lemma_bound_kept(m, e);
}

/// The scrollback keeps to its bound over any sequence of events.
pub proof fn law_scrollback_bound_all(m: TermModel, es: Seq<EventView>)
    requires
        m.scrollback.len() <= m.max_lines,
    ensures
        apply_all(m, es).scrollback.len() <= apply_all(m, es).max_lines,
    decreases es.len(),
{
    if es.len() > 0 {
        law_scrollback_bound_all(m, es.drop_last());
        lemma_bound_kept(apply_all(m, es.drop_last()), es.last());
    }
}

proof fn lemma_next_tab_reaches(tabs: Seq<bool>, from: int, k: int)
    requires
        0 <= from <= k < tabs.len(),
        tabs[k],
        forall|t: int| from <= t < k ==> !tabs[t],
    ensures
        next_tab(tabs, from) == k,
    decreases k - from,
{
    if from < k {
        lemma_next_tab_reaches(tabs, from + 1, k);
    }
}

/// A tab stop set at the cursor's column `k` is where a tab from an earlier
/// column `j` lands when no stop stands between them.
pub proof fn law_tab_stop(m: TermModel, j: u16)
    requires
        model_wf(m),
        m.cursor.position.col < m.size.cols,
        j < m.cursor.position.col,
        forall|t: int| j < t < m.cursor.position.col ==> !m.tabs[t],
    ensures
        set_tab_stop_m(m).tabs[m.cursor.position.col as int],
        tab_m(with_col(set_tab_stop_m(m), j)).cursor.position.col == m.cursor.position.col,
{
    let k = m.cursor.position.col as int;
    let tabs = set_tab_stop_m(m).tabs;
    lemma_next_tab_reaches(tabs, j + 1, k);
}

proof fn lemma_write_split(m: TermModel, x: Seq<char>, y: Seq<char>)
    ensures
        write_str_m(m, x + y) == write_str_m(write_str_m(m, x), y),
    decreases y.len(),
{
    if y.len() == 0 {
        assert(x + y =~= x);
    } else {
        lemma_write_split(m, x, y.drop_last());
        assert((x + y).drop_last() =~= x + y.drop_last());
        assert((x + y).last() == y.last());
    }
}

/// Writing `x + y` is writing `x`, then `y`: a text event split in two
/// applies like the whole.
pub proof fn law_text_split(m: TermModel, x: Seq<char>, y: Seq<char>)
    ensures
        write_str_m(m, x + y) == write_str_m(write_str_m(m, x), y),
        apply_m(m, EventView::Text(x + y)) == apply_m(apply_m(m, EventView::Text(x)), EventView::Text(y)),
{
    lemma_write_split(m, x, y);
    assert(apply_m(m, EventView::Text(x + y)) == write_str_m(m, x + y));
    assert(apply_m(m, EventView::Text(x)) == write_str_m(m, x));
    assert(apply_m(write_str_m(m, x), EventView::Text(y)) == write_str_m(write_str_m(m, x), y));
}

/// Restoring the cursor returns it to the position saved, whatever moved
/// it meanwhile, as long as the save slot was left alone: cursor events,
/// `set_cursor_position` and changes through `cursor_mut` all leave it so.
pub proof fn law_restore_saved(m: TermModel, moved: TermModel)
    requires
        moved.saved_cursor == save_cursor_m(m).saved_cursor,
    ensures
        restore_cursor_m(moved).cursor.position == m.cursor.position,
        restore_cursor_m(moved).grid == moved.grid,
        restore_cursor_m(moved).attrs == moved.attrs,
{
}

/// Resizing keeps every cell inside both the old and the new screen, and
/// brings the cursor inside the new screen.
pub proof fn law_resize(m: TermModel, s: crate::types::Size)
    requires
        model_wf(m),
    ensures
        forall|r: int, c: int|
            0 <= r < m.size.rows && r < s.rows && 0 <= c < m.size.cols && c < s.cols ==> #[trigger] resize_m(
                m,
                s,
            ).grid[r][c] == m.grid[r][c],
        s.rows > 0 ==> resize_m(m, s).cursor.position.row < s.rows,
        s.cols > 0 ==> resize_m(m, s).cursor.position.col < s.cols,
        model_wf(resize_m(m, s)),
{
    let g = resize_m(m, s).grid;
    assert(shaped(g, s.rows as nat, s.cols as nat));
}

/// The bytes of `ESC [ ? 1049` followed by `last` (`h` sets, `l` resets).
pub open spec fn alt_screen_bytes(last: u8) -> Seq<u8> {
    seq![0x1Bu8, 0x5Bu8, 0x3Fu8, 0x31u8, 0x30u8, 0x34u8, 0x39u8, last]
}

proof fn lemma_run_steps(p: ParserModel, bs: Seq<u8>)
    requires
        bs.len() == 8,
    ensures
        run(p, bs) == {
            let s0 = step(p, bs[0]);
            let s1 = step(s0.0, bs[1]);
            let s2 = step(s1.0, bs[2]);
            let s3 = step(s2.0, bs[3]);
            let s4 = step(s3.0, bs[4]);
            let s5 = step(s4.0, bs[5]);
            let s6 = step(s5.0, bs[6]);
            let s7 = step(s6.0, bs[7]);
            (s7.0, s0.1 + s1.1 + s2.1 + s3.1 + s4.1 + s5.1 + s6.1 + s7.1)
        },
{
    reveal_with_fuel(run, 9);
    assert(bs.drop_last().drop_last().drop_last().drop_last().drop_last().drop_last().drop_last().drop_last()
        =~= Seq::<u8>::empty());
    assert(bs.drop_last().drop_last().drop_last().drop_last().drop_last().drop_last().drop_last() =~= seq![bs[0]]);
    assert(bs.drop_last().drop_last().drop_last().drop_last().drop_last().drop_last() =~= seq![bs[0], bs[1]]);
    assert(bs.drop_last().drop_last().drop_last().drop_last().drop_last() =~= seq![bs[0], bs[1], bs[2]]);
    assert(bs.drop_last().drop_last().drop_last().drop_last() =~= seq![bs[0], bs[1], bs[2], bs[3]]);
    assert(bs.drop_last().drop_last().drop_last() =~= seq![bs[0], bs[1], bs[2], bs[3], bs[4]]);
    assert(bs.drop_last().drop_last() =~= seq![bs[0], bs[1], bs[2], bs[3], bs[4], bs[5]]);
    assert(bs.drop_last() =~= seq![bs[0], bs[1], bs[2], bs[3], bs[4], bs[5], bs[6]]);
    let e = Seq::<Atom>::empty();
    assert(e + step(p, bs[0]).1 =~= step(p, bs[0]).1);
}

/// From the ground state, `ESC [ ? 1049 h` gives exactly one event, which
/// shows the alternate screen, and `ESC [ ? 1049 l` exactly one, which
/// brings the primary screen back; the parser is back in the ground state.
pub proof fn law_alternate_screen_sequence(p: ParserModel, on: bool)
    requires
        p.state == ParserState::Ground,
        p.utf8.left == 0,
    ensures
        run(p, alt_screen_bytes(if on { 0x68u8 } else { 0x6Cu8 })).0.state == ParserState::Ground,
        run(p, alt_screen_bytes(if on { 0x68u8 } else { 0x6Cu8 })).1 == seq![
            Atom::Ev(EventView::Csi(
                if on {
                    CsiView::SetModes(seq![Mode::AlternateScreen])
                } else {
                    CsiView::ResetModes(seq![Mode::AlternateScreen])
                },
            )),
        ],
{
    let last: u8 = if on { 0x68u8 } else { 0x6Cu8 };
    let bs = alt_screen_bytes(last);
    lemma_run_steps(p, bs);
    let s0 = step(p, bs[0]);
    assert(s0.0.state == ParserState::Escape && s0.1.len() == 0);
    let s1 = step(s0.0, bs[1]);
    assert(s1.0.state == ParserState::CsiEntry && s1.1.len() == 0);
    assert(s1.0.params.len() == 0 && s1.0.inter.len() == 0 && !s1.0.ignoring && s1.0.param == 0 && !s1.0.sub);
    let s2 = step(s1.0, bs[2]);
    assert(s2.0.state == ParserState::CsiParam && s2.1.len() == 0);
    assert(s2.0.inter =~= seq![0x3Fu8]);
    let s3 = step(s2.0, bs[3]);
    assert(s3.0.param == 1 && s3.1.len() == 0 && s3.0.state == ParserState::CsiParam);
    let s4 = step(s3.0, bs[4]);
    assert(s4.0.param == 10 && s4.1.len() == 0 && s4.0.state == ParserState::CsiParam);
    let s5 = step(s4.0, bs[5]);
    assert(s5.0.param == 104 && s5.1.len() == 0 && s5.0.state == ParserState::CsiParam);
    let s6 = step(s5.0, bs[6]);
    assert(s6.0.param == 1049 && s6.1.len() == 0 && s6.0.state == ParserState::CsiParam);
    assert(s6.0.params.len() == 0 && s6.0.inter =~= seq![0x3Fu8] && !s6.0.ignoring);
    let s7 = step(s6.0, bs[7]);
    let ps = s6.0.params.push(s6.0.param);
    assert(ps =~= seq![1049u16]);
    assert(ps.drop_last() =~= Seq::<u16>::empty());
    let ev = crate::dispatch::mode_events(ps, true, on);
    assert(ps.last() == 1049u16);
    assert(crate::dispatch::mode_events(ps.drop_last(), true, on) == Seq::<EventView>::empty());
    assert(Seq::<EventView>::empty() + crate::dispatch::mode_event(1049, true, on)
        =~= crate::dispatch::mode_event(1049, true, on));
    assert(ev =~= crate::dispatch::mode_event(1049, true, on));
    assert(crate::parser::views_atoms(ev).len() == 1) by {
        assert(ev.drop_last() =~= Seq::<EventView>::empty());
    }
    assert(s7.1 =~= crate::parser::views_atoms(ev));
    let e = Seq::<Atom>::empty();
    assert(s0.1 + s1.1 + s2.1 + s3.1 + s4.1 + s5.1 + s6.1 + s7.1 =~= s7.1);
    assert(ev.drop_last() =~= Seq::<EventView>::empty());
    assert(crate::parser::views_atoms(ev) =~= seq![Atom::Ev(ev[0])]);
}

/// The events of `ESC [ ? 1049 h`, any text, then `ESC [ ? 1049 l` leave
/// the primary screen as it was before them.
pub proof fn law_alternate_screen_events(m: TermModel, t: Seq<char>)
    requires
        model_wf(m),
        m.alt.is_none(),
    ensures
        apply_all(
            m,
            seq![
                EventView::Csi(CsiView::SetModes(seq![Mode::AlternateScreen])),
                EventView::Text(t),
                EventView::Csi(CsiView::ResetModes(seq![Mode::AlternateScreen])),
            ],
        ).grid == m.grid,
{
    let es = seq![
        EventView::Csi(CsiView::SetModes(seq![Mode::AlternateScreen])),
        EventView::Text(t),
        EventView::Csi(CsiView::ResetModes(seq![Mode::AlternateScreen])),
    ];
    reveal_with_fuel(apply_all, 4);
    assert(es.drop_last().drop_last().drop_last() =~= Seq::<EventView>::empty());
    assert(es.drop_last().drop_last() =~= seq![es[0]]);
    assert(es.drop_last() =~= seq![es[0], es[1]]);
    let alt = seq![Mode::AlternateScreen];
    assert(alt.drop_last() =~= Seq::<Mode>::empty());
    assert(alt.last() == Mode::AlternateScreen);
    assert(set_modes_m(m, alt.drop_last(), true) == m);
    assert(set_modes_m(m, alt, true) == enable_alt_m(m));
    let m2 = write_str_m(enable_alt_m(m), t);
    assert(set_modes_m(m2, alt.drop_last(), false) == m2);
    assert(set_modes_m(m2, alt, false) == disable_alt_m(m2));
    law_alternate_screen(m, t);
}

/// One output unit applied to the terminal: a character is written, an
/// event applied.
pub open spec fn apply_atom(m: TermModel, a: Atom) -> TermModel {
    match a {
        Atom::Ch(c) => write_char_m(m, c),
        Atom::Ev(e) => apply_m(m, e),
    }
}

pub open spec fn apply_atoms(m: TermModel, a: Seq<Atom>) -> TermModel
    decreases a.len(),
{
    if a.len() == 0 {
        m
    } else {
        apply_atom(apply_atoms(m, a.drop_last()), a.last())
    }
}

proof fn lemma_apply_atoms_split(m: TermModel, a: Seq<Atom>, b: Seq<Atom>)
    ensures
        apply_atoms(m, a + b) == apply_atoms(apply_atoms(m, a), b),
    decreases b.len(),
{
    if b.len() == 0 {
        assert(a + b =~= a);
    } else {
        lemma_apply_atoms_split(m, a, b.drop_last());
        assert((a + b).drop_last() =~= a + b.drop_last());
        assert((a + b).last() == b.last());
    }
}

proof fn lemma_apply_chars(m: TermModel, s: Seq<char>)
    ensures
        apply_atoms(m, crate::parser::chars_atoms(s)) == write_str_m(m, s),
    decreases s.len(),
{
    if s.len() > 0 {
        lemma_apply_chars(m, s.drop_last());
        let a = crate::parser::chars_atoms(s);
        assert(a.drop_last() =~= crate::parser::chars_atoms(s.drop_last()));
        assert(a.last() == Atom::Ch(s.last()));
    }
}

proof fn lemma_apply_all_atoms(m: TermModel, es: Seq<EventView>)
    ensures
        apply_all(m, es) == apply_atoms(m, crate::parser::views_atoms(es)),
    decreases es.len(),
{
    if es.len() > 0 {
        lemma_apply_all_atoms(m, es.drop_last());
        let head = crate::parser::views_atoms(es.drop_last());
        let e = es.last();
        lemma_apply_atoms_split(m, head, crate::parser::view_atoms(e));
        let m1 = apply_atoms(m, head);
        match e {
            EventView::Text(t) => {
                lemma_apply_chars(m1, t);
            },
            _ => {
                let one = seq![Atom::Ev(e)];
                assert(one.drop_last() =~= Seq::<Atom>::empty());
                assert(apply_atoms(m1, one.drop_last()) == m1);
                assert(one.last() == Atom::Ev(e));
                assert(apply_atom(m1, Atom::Ev(e)) == apply_m(m1, e));
                assert(apply_atoms(m1, one) == apply_m(m1, e));
            },
        }
    }
}

/// Applying events depends only on the characters and events they carry,
/// not on how texts are cut.
pub proof fn law_apply_units(m: TermModel, es1: Seq<EventView>, es2: Seq<EventView>)
    requires
        crate::parser::views_atoms(es1) == crate::parser::views_atoms(es2),
    ensures
        apply_all(m, es1) == apply_all(m, es2),
{
    lemma_apply_all_atoms(m, es1);
    lemma_apply_all_atoms(m, es2);
}

/// Parsing `a + b` at once and applying its events gives the same terminal
/// as parsing `a`, then `b`, with one parser and applying each batch of
/// events in turn.
pub proof fn law_parse_and_apply_chunks(
    p: ParserModel,
    m: TermModel,
    a: Seq<u8>,
    b: Seq<u8>,
    whole: Seq<crate::traits::ParsedEvent>,
    first: Seq<crate::traits::ParsedEvent>,
    second: Seq<crate::traits::ParsedEvent>,
)
    requires
        crate::parser::flatten(whole) == run(p, a + b).1,
        crate::parser::flatten(first) == run(p, a).1,
        crate::parser::flatten(second) == run(run(p, a).0, b).1,
    ensures
        apply_all(m, crate::traits::events_view(whole)) == apply_all(
            apply_all(m, crate::traits::events_view(first)),
            crate::traits::events_view(second),
        ),
{
    law_parse_chunks(p, a, b);
    let vw = crate::traits::events_view(whole);
    let v1 = crate::traits::events_view(first);
    let v2 = crate::traits::events_view(second);
    lemma_apply_all_atoms(m, vw);
    lemma_apply_all_atoms(m, v1);
    lemma_apply_all_atoms(apply_all(m, v1), v2);
    lemma_apply_atoms_split(m, crate::parser::views_atoms(v1), crate::parser::views_atoms(v2));
}

} // verus!
