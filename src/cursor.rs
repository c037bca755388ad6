use vstd::prelude::*;
use crate::types::Position;

verus! {

/// `a + b`, saturating at `u16::MAX`.
pub open spec fn sat_add(a: u16, b: u16) -> u16 {
    if a + b > 0xFFFF {
        0xFFFF
    } else {
        (a + b) as u16
    }
}

/// `a - b`, saturating at zero.
pub open spec fn sat_sub(a: u16, b: u16) -> u16 {
    if a < b {
        0
    } else {
        (a - b) as u16
    }
}

pub fn u16_sat_add(a: u16, b: u16) -> (r: u16)
    ensures
        r == sat_add(a, b),
{
    if a as u32 + b as u32 > 0xFFFF {
        0xFFFF
    } else {
        a + b
    }
}

pub fn u16_sat_sub(a: u16, b: u16) -> (r: u16)
    ensures
        r == sat_sub(a, b),
{
    if a < b {
        0
    } else {
        a - b
    }
}

/// What a cursor holds: its position, its own save slot and its visibility.
pub struct CursorView {
    pub position: Position,
    pub saved: Option<Position>,
    pub visible: bool,
}

/// Cursor with saturating movement. Upper bounds are the terminal state's
/// business, not the cursor's.
#[derive(Clone, Copy, Debug)]
pub struct Cursor {
    position: Position,
    saved_position: Option<Position>,
    visible: bool,
}

impl View for Cursor {
    type V = CursorView;

    closed spec fn view(&self) -> CursorView {
        CursorView { position: self.position, saved: self.saved_position, visible: self.visible }
    }
}

impl Cursor {
    /// A visible cursor at the origin with nothing saved.
    pub fn new() -> (r: Cursor)
        ensures
            r@ == (CursorView { position: Position { row: 0, col: 0 }, saved: None, visible: true }),
    {
        Cursor { position: Position::new(0, 0), saved_position: None, visible: true }
    }

    pub fn position(&self) -> (r: Position)
        ensures
            r == self@.position,
    {
        self.position
    }

    pub fn set_position(&mut self, pos: Position)
        ensures
            final(self)@ == (CursorView { position: pos, ..old(self)@ }),
    {
        self.position = pos;
    }

    pub fn set_row(&mut self, row: u16)
        ensures
            final(self)@ == (CursorView { position: Position { row, ..old(self)@.position }, ..old(self)@ }),
    {
        self.position.row = row;
    }

    pub fn set_col(&mut self, col: u16)
        ensures
            final(self)@ == (CursorView { position: Position { col, ..old(self)@.position }, ..old(self)@ }),
    {
        self.position.col = col;
    }

    /// Same as `set_col`.
    pub fn set_column(&mut self, col: u16)
        ensures
            final(self)@ == (CursorView { position: Position { col, ..old(self)@.position }, ..old(self)@ }),
    {
        self.position.col = col;
    }

    pub fn move_up(&mut self, n: u16)
        ensures
            final(self)@ == (CursorView {
                position: Position { row: sat_sub(old(self)@.position.row, n), ..old(self)@.position },
                ..old(self)@
            }),
    {
        self.position.row = u16_sat_sub(self.position.row, n);
    }

    pub fn move_down(&mut self, n: u16)
        ensures
            final(self)@ == (CursorView {
                position: Position { row: sat_add(old(self)@.position.row, n), ..old(self)@.position },
                ..old(self)@
            }),
    {
        self.position.row = u16_sat_add(self.position.row, n);
    }

    pub fn move_left(&mut self, n: u16)
        ensures
            final(self)@ == (CursorView {
                position: Position { col: sat_sub(old(self)@.position.col, n), ..old(self)@.position },
                ..old(self)@
            }),
    {
        self.position.col = u16_sat_sub(self.position.col, n);
    }

    pub fn move_right(&mut self, n: u16)
        ensures
            final(self)@ == (CursorView {
                position: Position { col: sat_add(old(self)@.position.col, n), ..old(self)@.position },
                ..old(self)@
            }),
    {
        self.position.col = u16_sat_add(self.position.col, n);
    }

    /// One column to the left, stopping at column 0.
    pub fn saturating_left(&mut self)
        ensures
            final(self)@ == (CursorView {
                position: Position { col: sat_sub(old(self)@.position.col, 1), ..old(self)@.position },
                ..old(self)@
            }),
    {
        self.position.col = u16_sat_sub(self.position.col, 1);
    }

    /// Saves the position in the cursor's own slot; a later save overwrites it.
    pub fn save(&mut self)
        ensures
            final(self)@ == (CursorView { saved: Some(old(self)@.position), ..old(self)@ }),
    {
        self.saved_position = Some(self.position);
    }

    /// Moves back to the saved position, if one was saved; the slot keeps it.
    pub fn restore(&mut self)
        ensures
            final(self)@ == (match old(self)@.saved {
                Some(p) => CursorView { position: p, ..old(self)@ },
                None => old(self)@,
            }),
    {
        if let Some(pos) = self.saved_position {
            self.position = pos;
        }
    }

    pub fn is_visible(&self) -> (r: bool)
        ensures
            r == self@.visible,
    {
        self.visible
    }

    pub fn set_visible(&mut self, visible: bool)
        ensures
            final(self)@ == (CursorView { visible, ..old(self)@ }),
    {
        self.visible = visible;
    }
}

impl Default for Cursor {
    fn default() -> (r: Cursor)
        ensures
            r@ == (CursorView { position: Position { row: 0, col: 0 }, saved: None, visible: true }),
    {
        Cursor::new()
    }
}

} // verus!
