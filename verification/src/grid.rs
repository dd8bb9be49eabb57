//! The occupancy grid: a fixed-width, fixed-height buffer of cells, stored
//! row-major, with bounds-checked read/write and a bulk clear.
//!
//! Bounds policy: `set` outside the grid is a no-op, `get` outside the grid
//! returns `Cell::Empty`; neither panics.

use vstd::prelude::*;

verus! {

/// State of one grid cell.
#[derive(Clone, Copy, PartialEq, Eq, Structural, Debug)]
pub enum Cell {
    Empty,
    Filled,
}

/// Mathematical model of a grid: its dimensions and the flat, row-major
/// sequence of cells (the cell at (x, y) sits at position `y * width + x`).
pub struct GridModel {
    pub width: nat,
    pub height: nat,
    pub cells: Seq<Cell>,
}

impl GridModel {
    /// The buffer holds exactly `width * height` cells, always.
    pub open spec fn wf(self) -> bool {
        self.cells.len() == self.width * self.height
    }

    pub open spec fn in_bounds(self, x: int, y: int) -> bool {
        0 <= x < self.width && 0 <= y < self.height
    }

    /// Row-major buffer position of the cell at (x, y).
    pub open spec fn pos(self, x: int, y: int) -> int {
        y * self.width + x
    }

    /// The state of the cell at (x, y); empty outside the grid.
    pub open spec fn read(self, x: int, y: int) -> Cell {
        if self.in_bounds(x, y) {
            self.cells[self.pos(x, y)]
        } else {
            Cell::Empty
        }
    }

    /// The grid after writing `s` at (x, y); unchanged when (x, y) is
    /// outside the grid.
    pub open spec fn write(self, x: int, y: int, s: Cell) -> GridModel {
        if self.in_bounds(x, y) {
            GridModel { cells: self.cells.update(self.pos(x, y), s), ..self }
        } else {
            self
        }
    }

    /// The grid with every cell reset to empty; dimensions kept.
    pub open spec fn cleared(self) -> GridModel {
        GridModel { cells: Seq::new(self.cells.len(), |i: int| Cell::Empty), ..self }
    }
}

/// In a well-formed grid, every in-bounds coordinate maps to a position
/// inside the buffer.
pub proof fn lemma_pos_in_range(m: GridModel, x: int, y: int)
    requires
        m.wf(),
        m.in_bounds(x, y),
    ensures
        0 <= m.pos(x, y) < m.cells.len(),
{
    assert(0 <= y * m.width + x < m.width * m.height) by (nonlinear_arith)
        requires
            0 <= x < m.width,
            0 <= y < m.height,
    ;
}

/// Distinct in-bounds coordinates map to distinct buffer positions.
pub proof fn lemma_pos_injective(m: GridModel, x: int, y: int, x2: int, y2: int)
    requires
        m.in_bounds(x, y),
        m.in_bounds(x2, y2),
        m.pos(x, y) == m.pos(x2, y2),
    ensures
        x == x2 && y == y2,
{
    assert(x == x2 && y == y2) by (nonlinear_arith)
        requires
            0 <= x < m.width,
            0 <= x2 < m.width,
            y * m.width + x == y2 * m.width + x2,
            0 <= y,
            0 <= y2,
    ;
}

/// Reading a cell immediately after writing it returns the written state.
pub proof fn lemma_set_then_get(m: GridModel, x: int, y: int, s: Cell)
    requires
        m.wf(),
        m.in_bounds(x, y),
    ensures
        m.write(x, y, s).read(x, y) == s,
{
    lemma_pos_in_range(m, x, y);
}

/// A write leaves every other cell as it was.
pub proof fn lemma_write_frame(m: GridModel, x: int, y: int, s: Cell, x2: int, y2: int)
    requires
        m.wf(),
        !(x == x2 && y == y2),
    ensures
        m.write(x, y, s).read(x2, y2) == m.read(x2, y2),
{
    if m.in_bounds(x, y) && m.in_bounds(x2, y2) {
        lemma_pos_in_range(m, x, y);
        lemma_pos_in_range(m, x2, y2);
        if m.pos(x, y) == m.pos(x2, y2) {
            lemma_pos_injective(m, x, y, x2, y2);
        }
    }
}

/// Out-of-bounds coordinates: a write is a no-op and a read returns empty.
pub proof fn lemma_out_of_bounds(m: GridModel, x: int, y: int, s: Cell)
    requires
        !m.in_bounds(x, y),
    ensures
        m.write(x, y, s) == m,
        m.read(x, y) == Cell::Empty,
{
}

/// After a clear, a read at any coordinate — in bounds or not — returns
/// empty.
pub proof fn lemma_clear_then_get(m: GridModel, x: int, y: int)
    requires
        m.wf(),
    ensures
        m.cleared().read(x, y) == Cell::Empty,
{
    if m.cleared().in_bounds(x, y) {
        lemma_pos_in_range(m.cleared(), x, y);
    }
}

/// A buffer of `n` empty cells.
fn empty_cells(n: usize) -> (v: Vec<Cell>)
    ensures
        v@.len() == n,
        forall|j: int| 0 <= j < n ==> v@[j] == Cell::Empty,
{
    let mut v: Vec<Cell> = Vec::new();
    let mut i: usize = 0;
    while i < n
        invariant
            i <= n,
            v@.len() == i,
            forall|j: int| 0 <= j < i ==> v@[j] == Cell::Empty,
        decreases n - i,
    {
        v.push(Cell::Empty);
        i = i + 1;
    }
    v
}

/// Fixed-size occupancy buffer: the playfield.
pub struct Grid {
    width: usize,
    height: usize,
    cells: Vec<Cell>,
}

impl View for Grid {
    type V = GridModel;

    closed spec fn view(&self) -> GridModel {
        GridModel { width: self.width as nat, height: self.height as nat, cells: self.cells@ }
    }
}

impl Grid {
    /// A fresh grid of the given dimensions with every cell empty.
    pub fn new(width: usize, height: usize) -> (g: Grid)
        requires
            width * height <= usize::MAX,
        ensures
            g@.wf(),
            g@.width == width,
            g@.height == height,
            forall|x: int, y: int| g@.read(x, y) == Cell::Empty,
    {
        let cells = empty_cells(width * height);
        let g = Grid { width, height, cells };
        proof {
            assert forall|x: int, y: int| g@.read(x, y) == Cell::Empty by {
                if g@.in_bounds(x, y) {
                    lemma_pos_in_range(g@, x, y);
                }
            }
        }
        g
    }

    /// Width in cells.
    pub fn width(&self) -> (w: usize)
        ensures
            w == self@.width,
    {
        self.width
    }

    /// Height in cells.
    pub fn height(&self) -> (h: usize)
        ensures
            h == self@.height,
    {
        self.height
    }

    /// Number of cells in the buffer.
    pub fn cell_count(&self) -> (n: usize)
        requires
            self@.wf(),
        ensures
            n == self@.width * self@.height,
    {
        self.cells.len()
    }

    /// Whether (x, y) lies inside the grid.
    pub fn in_bounds(&self, x: usize, y: usize) -> (b: bool)
        ensures
            b == self@.in_bounds(x as int, y as int),
    {
        x < self.width && y < self.height
    }

    /// The state of the cell at (x, y); `Cell::Empty` outside the grid.
    pub fn get(&self, x: usize, y: usize) -> (c: Cell)
        requires
            self@.wf(),
        ensures
            c == self@.read(x as int, y as int),
    {
        if x < self.width && y < self.height {
            let len = self.cells.len();
            proof {
                lemma_pos_in_range(self@, x as int, y as int);
            }
            let pos = y * self.width + x;
            assert(pos < len);
            self.cells[pos]
        } else {
            Cell::Empty
        }
    }

    /// Write `s` at (x, y); a no-op outside the grid.
    pub fn set(&mut self, x: usize, y: usize, s: Cell)
        requires
            old(self)@.wf(),
        ensures
            final(self)@ == old(self)@.write(x as int, y as int, s),
            final(self)@.wf(),
    {
        if x < self.width && y < self.height {
            let len = self.cells.len();
            proof {
                lemma_pos_in_range(self@, x as int, y as int);
            }
            let pos = y * self.width + x;
            assert(pos < len);
            self.cells[pos] = s;
        }
    }

    /// Reset every cell to empty; dimensions are kept.
    pub fn clear(&mut self)
        ensures
            final(self)@ == old(self)@.cleared(),
            old(self)@.wf() ==> final(self)@.wf(),
    {
        let n = self.cells.len();
        self.cells = empty_cells(n);
        proof {
            assert(self@.cells =~= old(self)@.cleared().cells);
        }
    }
}

} // verus!
