//! The playfield: a pixel-space placement, the occupancy grid, the tick
//! timer driving the game's logic updates, and the layout of the grid as
//! pixel rectangles for a renderer to fill in.

use crate::grid::Cell;
use crate::grid::Grid;
use crate::timer::Timer;
use crate::FIELD_HEIGHT;
use crate::FIELD_WIDTH;
use crate::GRID_HEIGHT;
use crate::GRID_WIDTH;
use crate::MOVE_INTERVAL_MICROS;
use crate::WINDOW_HEIGHT;
use crate::WINDOW_WIDTH;
use vstd::arithmetic::div_mod::lemma_fundamental_div_mod;
use vstd::arithmetic::div_mod::lemma_mod_bound;
use vstd::arithmetic::div_mod::lemma_multiply_divide_lt;
use vstd::prelude::*;

verus! {

/// One grid cell laid out as a pixel rectangle, with its occupancy.
#[derive(Clone, Copy, PartialEq, Eq, Structural, Debug)]
pub struct CellRect {
    pub x: u32,
    pub y: u32,
    pub w: u32,
    pub h: u32,
    pub filled: bool,
}

/// The playfield, centred in the window, owning its grid and tick timer.
pub struct Field {
    /// Pixel position of the left edge.
    pub x: u32,
    /// Pixel position of the top edge.
    pub y: u32,
    /// Pixel width.
    pub width: u32,
    /// Pixel height.
    pub height: u32,
    /// The occupancy grid.
    pub grid: Grid,
    /// The timer firing the logic ticks.
    pub timer: Timer,
    /// Total number of ticks fired so far.
    pub moves: u64,
}

impl Field {
    /// Well-formedness: grid and timer are well formed, the grid has at
    /// least one cell each way, cell counts fit in pixel arithmetic, and
    /// the field lies within addressable pixel space.
    pub open spec fn wf(self) -> bool {
        &&& self.grid@.wf()
        &&& self.timer@.wf()
        &&& 0 < self.grid@.width <= u32::MAX
        &&& 0 < self.grid@.height <= u32::MAX
        &&& self.x + self.width <= u32::MAX
        &&& self.y + self.height <= u32::MAX
    }

    /// Pixel width of one grid cell.
    pub open spec fn spec_cell_w(self) -> int {
        self.width as int / self.grid@.width as int
    }

    /// Pixel height of one grid cell.
    pub open spec fn spec_cell_h(self) -> int {
        self.height as int / self.grid@.height as int
    }

    /// What the rectangle for the cell at row-major position `k` must be:
    /// placed at the field's origin offset by the cell's coordinates
    /// scaled to pixels, one cell in extent, and marked filled exactly
    /// when the grid cell is filled.
    pub open spec fn rect_ok(self, k: int, c: CellRect) -> bool {
        let gw = self.grid@.width as int;
        &&& c.x == self.x + (k % gw) * self.spec_cell_w()
        &&& c.y == self.y + (k / gw) * self.spec_cell_h()
        &&& c.w == self.spec_cell_w()
        &&& c.h == self.spec_cell_h()
        &&& c.filled == (self.grid@.read(k % gw, k / gw) == Cell::Filled)
    }

    /// A fresh playfield: centred in the window, grid all empty, timer at
    /// zero, no ticks fired yet.
    pub fn new() -> (f: Field)
        ensures
            f.wf(),
            f.x == (WINDOW_WIDTH - FIELD_WIDTH) / 2,
            f.y == (WINDOW_HEIGHT - FIELD_HEIGHT) / 2,
            f.width == FIELD_WIDTH,
            f.height == FIELD_HEIGHT,
            f.grid@.width == GRID_WIDTH,
            f.grid@.height == GRID_HEIGHT,
            forall|x: int, y: int| f.grid@.read(x, y) == Cell::Empty,
            f.timer@.interval == MOVE_INTERVAL_MICROS,
            f.timer@.acc == 0,
            f.moves == 0,
    {
        Field {
            x: (WINDOW_WIDTH - FIELD_WIDTH) / 2,
            y: (WINDOW_HEIGHT - FIELD_HEIGHT) / 2,
            width: FIELD_WIDTH,
            height: FIELD_HEIGHT,
            grid: Grid::new(GRID_WIDTH, GRID_HEIGHT),
            timer: Timer::new(MOVE_INTERVAL_MICROS),
            moves: 0,
        }
    }

    /// Whether one frame of elapsed time `dt_micros` can be absorbed
    /// without the accumulator or the tick counter outgrowing their
    /// machine words.
    pub fn can_update(&self, dt_micros: u64) -> (b: bool)
        requires
            self.wf(),
        ensures
            b == (self.timer@.acc + dt_micros <= u64::MAX && self.moves + self.timer@.step_ticks(
                dt_micros as int,
            ) <= u64::MAX),
    {
        let acc = self.timer.accumulated();
        if dt_micros <= u64::MAX - acc {
            let ticks = (acc + dt_micros) / self.timer.interval();
            self.moves <= u64::MAX - ticks
        } else {
            false
        }
    }

    /// Absorb one frame of elapsed time: advance the timer, count the
    /// ticks it fired, and return that count. The grid and the pixel
    /// placement are untouched.
    pub fn update(&mut self, dt_micros: u64) -> (ticks: u64)
        requires
            old(self).wf(),
            old(self).timer@.acc + dt_micros <= u64::MAX,
            old(self).moves + old(self).timer@.step_ticks(dt_micros as int) <= u64::MAX,
        ensures
            final(self).wf(),
            final(self).timer@ == old(self).timer@.step(dt_micros as int),
            ticks == old(self).timer@.step_ticks(dt_micros as int),
            final(self).moves == old(self).moves + ticks,
            final(self).grid@ == old(self).grid@,
            final(self).x == old(self).x,
            final(self).y == old(self).y,
            final(self).width == old(self).width,
            final(self).height == old(self).height,
    {
        let ticks = self.timer.advance(dt_micros);
        self.moves = self.moves + ticks;
        ticks
    }

    /// Lay the grid out as pixel rectangles, row-major: one rectangle per
    /// cell, marked with the cell's occupancy, for a renderer to fill in.
    pub fn cell_rects(&self) -> (r: Vec<CellRect>)
        requires
            self.wf(),
        ensures
            r@.len() == self.grid@.width * self.grid@.height,
            forall|k: int| 0 <= k < r@.len() ==> self.rect_ok(k, #[trigger] r@[k]),
    {
        let gw = self.grid.width();
        let gh = self.grid.height();
        let cw = self.width / (gw as u32);
        let ch = self.height / (gh as u32);
        let total = self.grid.cell_count();
        proof {
            assert(gw as int * gh as int == total as int) by (nonlinear_arith)
                requires
                    total == self.grid@.width * self.grid@.height,
                    gw == self.grid@.width,
                    gh == self.grid@.height,
            ;
            lemma_fundamental_div_mod(self.width as int, gw as int);
            lemma_mod_bound(self.width as int, gw as int);
            lemma_fundamental_div_mod(self.height as int, gh as int);
            lemma_mod_bound(self.height as int, gh as int);
        }
        let mut r: Vec<CellRect> = Vec::new();
        let mut k: usize = 0;
        while k < total
            invariant
                self.wf(),
                k <= total,
                total == self.grid@.width * self.grid@.height,
                gw == self.grid@.width,
                gh == self.grid@.height,
                0 < gw <= u32::MAX,
                0 < gh <= u32::MAX,
                cw == self.spec_cell_w(),
                ch == self.spec_cell_h(),
                gw as int * cw as int <= self.width,
                gh as int * ch as int <= self.height,
                gw as int * gh as int == total as int,
                r@.len() == k,
                forall|j: int| 0 <= j < k ==> self.rect_ok(j, #[trigger] r@[j]),
            decreases total - k,
        {
            let gx = k % gw;
            let gy = k / gw;
            proof {
                lemma_mod_bound(k as int, gw as int);
                lemma_multiply_divide_lt(k as int, gw as int, gh as int);
                assert(gx as int * cw as int + cw as int <= gw as int * cw as int)
                    by (nonlinear_arith)
                    requires
                        (gx as int) < (gw as int),
                        0 <= cw as int,
                ;
                assert(gy as int * ch as int + ch as int <= gh as int * ch as int)
                    by (nonlinear_arith)
                    requires
                        (gy as int) < (gh as int),
                        0 <= ch as int,
                ;
            }
            let cell = self.grid.get(gx, gy);
            let px = self.x + (gx as u32) * cw;
            let py = self.y + (gy as u32) * ch;
            r.push(CellRect { x: px, y: py, w: cw, h: ch, filled: cell == Cell::Filled });
            k = k + 1;
        }
        r
    }
}

} // verus!
