use vstd::prelude::*;
use std::collections::VecDeque;
use crate::types::{Cell, Position, Size, blank_cell};

verus! {

/// A row of `n` blank cells.
pub open spec fn blank_row(n: nat) -> Seq<Cell> {
    Seq::new(n, |j: int| blank_cell())
}

/// A grid of `rows` rows of `cols` blank cells.
pub open spec fn blank_grid(rows: nat, cols: nat) -> Seq<Seq<Cell>> {
    Seq::new(rows, |i: int| blank_row(cols))
}

/// Every row of `g` holds `cols` cells.
pub open spec fn rows_have_width(g: Seq<Seq<Cell>>, cols: nat) -> bool {
    forall|i: int| 0 <= i < g.len() ==> (#[trigger] g[i]).len() == cols
}

/// `g` is a grid of `rows` rows of `cols` cells.
pub open spec fn shaped(g: Seq<Seq<Cell>>, rows: nat, cols: nat) -> bool {
    g.len() == rows && rows_have_width(g, cols)
}

/// `g` with the cell at (`r`, `c`) replaced.
pub open spec fn grid_set(g: Seq<Seq<Cell>>, r: int, c: int, cell: Cell) -> Seq<Seq<Cell>> {
    g.update(r, g[r].update(c, cell))
}

/// `g` cut or padded with blanks to `rows` rows of `cols` cells: a cell that
/// lies inside both shapes keeps its value.
pub open spec fn resized_grid(g: Seq<Seq<Cell>>, rows: nat, cols: nat) -> Seq<Seq<Cell>> {
    Seq::new(
        rows,
        |i: int|
            Seq::new(
                cols,
                |j: int|
                    if i < g.len() && j < g[i].len() {
                        g[i][j]
                    } else {
                        blank_cell()
                    },
            ),
    )
}

/// The cells of each row.
pub open spec fn lines_view(v: Seq<Vec<Cell>>) -> Seq<Seq<Cell>> {
    Seq::new(v.len(), |i: int| v[i]@)
}

/// Screen buffer: the visible grid, row-major.
pub struct ScreenBuffer {
    lines: Vec<Vec<Cell>>,
    size: Size,
}

impl View for ScreenBuffer {
    type V = Seq<Seq<Cell>>;

    closed spec fn view(&self) -> Seq<Seq<Cell>> {
        lines_view(self.lines@)
    }
}

impl ScreenBuffer {
    /// The size that the buffer was made or last resized with.
    pub closed spec fn spec_size(&self) -> Size {
        self.size
    }

    /// The rows match the buffer's size.
    pub open spec fn wf(&self) -> bool {
        shaped(self@, self.spec_size().rows as nat, self.spec_size().cols as nat)
    }

    fn blank_line(cols: u16) -> (r: Vec<Cell>)
        ensures
            r@ == blank_row(cols as nat),
    {
        let mut line: Vec<Cell> = Vec::new();
        let mut j: u16 = 0;
        while j < cols
            invariant
                j <= cols,
                line@ == blank_row(j as nat),
            decreases cols - j,
        {
            line.push(Cell::blank());
            j = j + 1;
            assert(line@ =~= blank_row(j as nat));
        }
        line
    }

    /// A buffer of blank cells of the given size.
    pub fn new(size: Size) -> (r: ScreenBuffer)
        ensures
            r@ == blank_grid(size.rows as nat, size.cols as nat),
            r.spec_size() == size,
            r.wf(),
    {
        let mut lines: Vec<Vec<Cell>> = Vec::new();
        let mut i: u16 = 0;
        while i < size.rows
            invariant
                i <= size.rows,
                lines@.len() == i,
                lines_view(lines@) == blank_grid(i as nat, size.cols as nat),
            decreases size.rows - i,
        {
            let line = Self::blank_line(size.cols);
            let ghost before = lines@;
            lines.push(line);
            assert forall|k: int| 0 <= k < before.len() implies lines@[k]@ == blank_row(size.cols as nat) by {
                assert(lines@[k] == before[k]);
                assert(lines_view(before)[k] == blank_grid(i as nat, size.cols as nat)[k]);
            }
            i = i + 1;
            assert(lines_view(lines@) =~= blank_grid(i as nat, size.cols as nat));
        }
        let r = ScreenBuffer { lines, size };
        assert(r@ =~= blank_grid(size.rows as nat, size.cols as nat));
        r
    }

    /// Writes a cell; a position outside the buffer is ignored.
    pub fn set_cell(&mut self, pos: Position, cell: Cell)
        requires
            old(self).wf(),
        ensures
            final(self).spec_size() == old(self).spec_size(),
            final(self).wf(),
            final(self)@ == (if pos.row < old(self).spec_size().rows && pos.col < old(self).spec_size().cols {
                grid_set(old(self)@, pos.row as int, pos.col as int, cell)
            } else {
                old(self)@
            }),
    {
        if pos.row < self.size.rows && pos.col < self.size.cols {
            let ghost g = self@;
            assert(self.lines@[pos.row as int]@ == g[pos.row as int]);
            self.lines[pos.row as usize][pos.col as usize] = cell;
            assert(self@ =~= grid_set(g, pos.row as int, pos.col as int, cell));
        }
    }

    /// Reads a cell; a position outside the buffer reads as a blank.
    pub fn get_cell(&self, pos: Position) -> (r: Cell)
        requires
            self.wf(),
        ensures
            r == (if pos.row < self.spec_size().rows && pos.col < self.spec_size().cols {
                self@[pos.row as int][pos.col as int]
            } else {
                blank_cell()
            }),
    {
        if pos.row < self.size.rows && pos.col < self.size.cols {
            assert(self.lines@[pos.row as int]@ == self@[pos.row as int]);
            self.lines[pos.row as usize][pos.col as usize]
        } else {
            Cell::blank()
        }
    }

    /// The row `row`, if it lies inside the buffer.
    pub fn get_line(&self, row: u16) -> (r: Option<&Vec<Cell>>)
        requires
            self.wf(),
        ensures
            row < self.spec_size().rows <==> r.is_some(),
            r.is_some() ==> r.unwrap()@ == self@[row as int],
    {
        if row < self.size.rows {
            Some(&self.lines[row as usize])
        } else {
            None
        }
    }

    /// Removes the top row and hands it back; `None` when there is no row.
    pub fn remove_top_line(&mut self) -> (r: Option<Vec<Cell>>)
        ensures
            final(self).spec_size() == old(self).spec_size(),
            old(self)@.len() == 0 ==> r.is_none() && final(self)@ == old(self)@,
            old(self)@.len() > 0 ==> r.is_some() && r.unwrap()@ == old(self)@[0]
                && final(self)@ == old(self)@.drop_first(),
    {
        if self.lines.len() > 0 {
            let ghost g = self@;
            let line = self.lines.remove(0);
            assert(self@ =~= g.drop_first());
            Some(line)
        } else {
            None
        }
    }

    /// Appends a blank row of the buffer's width at the bottom.
    pub fn add_blank_line(&mut self)
        ensures
            final(self).spec_size() == old(self).spec_size(),
            final(self)@ == old(self)@.push(blank_row(old(self).spec_size().cols as nat)),
    {
        let ghost g = self@;
        let line = Self::blank_line(self.size.cols);
        self.lines.push(line);
        assert(self@ =~= g.push(blank_row(self.size.cols as nat)));
    }

    /// Inserts a blank row before row `row`; a row past the bottom is ignored.
    pub fn insert_blank_line(&mut self, row: u16)
        ensures
            final(self).spec_size() == old(self).spec_size(),
            final(self)@ == (if row as int <= old(self)@.len() {
                old(self)@.insert(row as int, blank_row(old(self).spec_size().cols as nat))
            } else {
                old(self)@
            }),
    {
        if (row as usize) <= self.lines.len() {
            let ghost g = self@;
            let line = Self::blank_line(self.size.cols);
            self.lines.insert(row as usize, line);
            assert(self@ =~= g.insert(row as int, blank_row(self.size.cols as nat)));
        }
    }

    /// Removes the bottom row, if there is one.
    pub fn remove_bottom_line(&mut self)
        ensures
            final(self).spec_size() == old(self).spec_size(),
            final(self)@ == (if old(self)@.len() > 0 {
                old(self)@.drop_last()
            } else {
                old(self)@
            }),
    {
        if self.lines.len() > 0 {
            let ghost g = self@;
            let _ = self.lines.pop();
            assert(self@ =~= g.drop_last());
        }
    }

    /// Blanks every cell.
    pub fn clear(&mut self)
        requires
            old(self).wf(),
        ensures
            final(self).spec_size() == old(self).spec_size(),
            final(self).wf(),
            final(self)@ == blank_grid(old(self).spec_size().rows as nat, old(self).spec_size().cols as nat),
    {
        let ghost g = self@;
        let rows = self.lines.len();
        let mut i: usize = 0;
        while i < rows
            invariant
                rows == self.lines@.len(),
                rows == g.len(),
                self.size == old(self).size,
                i <= rows,
                shaped(g, self.size.rows as nat, self.size.cols as nat),
                forall|k: int| 0 <= k < i ==> self.lines@[k]@ == blank_row(self.size.cols as nat),
                forall|k: int| i <= k < rows ==> self.lines@[k]@ == g[k],
            decreases rows - i,
        {
            let line = Self::blank_line(self.size.cols);
            self.lines.set(i, line);
            i = i + 1;
        }
        assert(self@ =~= blank_grid(self.size.rows as nat, self.size.cols as nat));
    }

    /// Blanks row `row`, if it lies inside the buffer.
    pub fn clear_line(&mut self, row: u16)
        requires
            old(self).wf(),
        ensures
            final(self).spec_size() == old(self).spec_size(),
            final(self).wf(),
            final(self)@ == (if row < old(self).spec_size().rows {
                old(self)@.update(row as int, blank_row(old(self).spec_size().cols as nat))
            } else {
                old(self)@
            }),
    {
        if row < self.size.rows {
            let ghost g = self@;
            let line = Self::blank_line(self.size.cols);
            self.lines.set(row as usize, line);
            assert(self@ =~= g.update(row as int, blank_row(self.size.cols as nat)));
        }
    }

    /// Blanks one cell; a position outside the buffer is ignored.
    pub fn clear_cell(&mut self, pos: Position)
        requires
            old(self).wf(),
        ensures
            final(self).spec_size() == old(self).spec_size(),
            final(self).wf(),
            final(self)@ == (if pos.row < old(self).spec_size().rows && pos.col < old(self).spec_size().cols {
                grid_set(old(self)@, pos.row as int, pos.col as int, blank_cell())
            } else {
                old(self)@
            }),
    {
        self.set_cell(pos, Cell::blank());
    }

    /// Resizes without reflow: rows are cut or padded with blanks on the
    /// right, then rows are dropped from or added at the bottom.
    pub fn resize(&mut self, new_size: Size)
        requires
            old(self).wf(),
        ensures
            final(self).spec_size() == new_size,
            final(self).wf(),
            final(self)@ == resized_grid(old(self)@, new_size.rows as nat, new_size.cols as nat),
    {
        let ghost g = self@;
        let old_rows = self.lines.len();
        let mut i: usize = 0;
        while i < old_rows
            invariant
                old_rows == self.lines@.len(),
                old_rows == g.len(),
                i <= old_rows,
                self.size == old(self).size,
                shaped(g, self.size.rows as nat, self.size.cols as nat),
                forall|k: int| 0 <= k < i ==> self.lines@[k]@ == resized_grid(g, new_size.rows as nat, new_size.cols as nat)[k]
                    || k >= new_size.rows,
                forall|k: int| 0 <= k < i ==> #[trigger] self.lines@[k]@ == Seq::new(
                    new_size.cols as nat,
                    |j: int| if j < g[k].len() { g[k][j] } else { blank_cell() },
                ),
                forall|k: int| i <= k < old_rows ==> self.lines@[k]@ == g[k],
            decreases old_rows - i,
        {
            let mut line: Vec<Cell> = Vec::new();
            self.lines.set_and_swap(i, &mut line);
            let ghost row = line@;
            assert(row == g[i as int]);
            if new_size.cols > self.size.cols {
                let mut j: u16 = self.size.cols;
                while j < new_size.cols
                    invariant
                        self.size.cols <= j <= new_size.cols,
                        row.len() == self.size.cols,
                        line@ == Seq::new(j as nat, |c: int| if c < row.len() { row[c] } else { blank_cell() }),
                    decreases new_size.cols - j,
                {
                    line.push(Cell::blank());
                    j = j + 1;
                    assert(line@ =~= Seq::new(j as nat, |c: int| if c < row.len() { row[c] } else { blank_cell() }));
                }
            } else if new_size.cols < self.size.cols {
                line.truncate(new_size.cols as usize);
            }
            assert(line@ =~= Seq::new(
                new_size.cols as nat,
                |j: int| if j < g[i as int].len() { g[i as int][j] } else { blank_cell() },
            ));
            self.lines.set(i, line);
            i = i + 1;
        }
        if new_size.rows > self.size.rows {
            let mut k: u16 = self.size.rows;
            while k < new_size.rows
                invariant
                    self.size.rows <= k <= new_size.rows,
                    self.lines@.len() == k,
                    old_rows == self.size.rows,
                    shaped(g, self.size.rows as nat, self.size.cols as nat),
                    forall|r: int| 0 <= r < old_rows ==> #[trigger] self.lines@[r]@ == Seq::new(
                        new_size.cols as nat,
                        |j: int| if j < g[r].len() { g[r][j] } else { blank_cell() },
                    ),
                    forall|r: int| old_rows <= r < k ==> #[trigger] self.lines@[r]@ == blank_row(new_size.cols as nat),
                decreases new_size.rows - k,
            {
                let line = Self::blank_line(new_size.cols);
                self.lines.push(line);
                k = k + 1;
            }
        } else if new_size.rows < self.size.rows {
            self.lines.truncate(new_size.rows as usize);
        }
        let ghost target = resized_grid(g, new_size.rows as nat, new_size.cols as nat);
        assert forall|r: int| 0 <= r < new_size.rows implies #[trigger] self@[r] == target[r] by {
            if r < g.len() {
                assert(self@[r] =~= target[r]);
            } else {
                assert(self@[r] =~= target[r]);
            }
        }
        assert(self@ =~= target);
        self.size = new_size;
    }

    pub fn size(&self) -> (r: Size)
        ensures
            r == self.spec_size(),
    {
        self.size
    }

    /// All rows, top first.
    pub fn lines(&self) -> (r: &[Vec<Cell>])
        ensures
            r@.len() == self@.len(),
            forall|i: int| 0 <= i < r@.len() ==> (#[trigger] r@[i])@ == self@[i],
    {
        self.lines.as_slice()
    }
}

/// `s` with `line` added at the back; past `max` lines the oldest is dropped.
pub open spec fn pushed_bounded(s: Seq<Seq<Cell>>, line: Seq<Cell>, max: nat) -> Seq<Seq<Cell>> {
    if s.len() + 1 > max {
        s.push(line).drop_first()
    } else {
        s.push(line)
    }
}

/// Scrollback: a bounded first-in first-out store of lines that left the
/// top of the screen. Index 0 is the oldest line.
pub struct ScrollbackBuffer {
    lines: VecDeque<Vec<Cell>>,
    max_lines: usize,
}

impl View for ScrollbackBuffer {
    type V = Seq<Seq<Cell>>;

    closed spec fn view(&self) -> Seq<Seq<Cell>> {
        lines_view(self.lines@)
    }
}

impl ScrollbackBuffer {
    /// The number of lines the buffer keeps at most.
    pub closed spec fn max(&self) -> nat {
        self.max_lines as nat
    }

    pub open spec fn wf(&self) -> bool {
        self@.len() <= self.max()
    }

    pub fn new(max_lines: usize) -> (r: ScrollbackBuffer)
        ensures
            r@ == Seq::<Seq<Cell>>::empty(),
            r.max() == max_lines,
            r.wf(),
    {
        let r = ScrollbackBuffer { lines: VecDeque::new(), max_lines };
        assert(r@ =~= Seq::<Seq<Cell>>::empty());
        r
    }

    /// Adds a line; when the buffer is full the oldest line is evicted. A
    /// buffer of capacity zero keeps nothing.
    pub fn push(&mut self, line: Vec<Cell>)
        requires
            old(self).wf(),
        ensures
            final(self).max() == old(self).max(),
            final(self).wf(),
            final(self)@ == pushed_bounded(old(self)@, line@, old(self).max()),
    {
        let ghost g = self@;
        let ghost l = line@;
        self.lines.push_back(line);
        assert(self@ =~= g.push(l));
        if self.lines.len() > self.max_lines {
            let _ = self.lines.pop_front();
            assert(self@ =~= g.push(l).drop_first());
        }
    }

    pub fn len(&self) -> (r: usize)
        ensures
            r == self@.len(),
    {
        self.lines.len()
    }

    pub fn is_empty(&self) -> (r: bool)
        ensures
            r == (self@.len() == 0),
    {
        self.lines.len() == 0
    }

    /// The line at `index`, 0 being the oldest.
    pub fn get_line(&self, index: usize) -> (r: Option<&Vec<Cell>>)
        ensures
            index < self@.len() <==> r.is_some(),
            r.is_some() ==> r.unwrap()@ == self@[index as int],
    {
        if index < self.lines.len() {
            Some(&self.lines[index])
        } else {
            None
        }
    }

    pub fn clear(&mut self)
        ensures
            final(self).max() == old(self).max(),
            final(self).wf(),
            final(self)@ == Seq::<Seq<Cell>>::empty(),
    {
        self.lines.clear();
        assert(self@ =~= Seq::<Seq<Cell>>::empty());
    }

    /// All lines, oldest first.
    pub fn lines(&self) -> (r: &VecDeque<Vec<Cell>>)
        ensures
            lines_view(r@) == self@,
    {
        &self.lines
    }
}

} // verus!
