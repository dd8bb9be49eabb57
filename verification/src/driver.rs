//! The frame driver: owns the playfield and the per-frame statistics and
//! decides, for each event pulled from the windowing collaborator, how the
//! state changes and what the collaborator should do next. The blocking
//! event pull and the drawing itself stay outside; they hand events in and
//! carry actions out as plain values.

use crate::field::Field;
use crate::fps::fps_of;
use crate::fps::FrameStats;
use crate::geom::Rec;
use crate::geom::Vec2;
use crate::grid::Cell;
use crate::WINDOW_HEIGHT;
use crate::WINDOW_WIDTH;
use vstd::prelude::*;

verus! {

/// One event pulled from the windowing collaborator.
#[derive(Clone, Copy, PartialEq, Eq, Structural, Debug)]
pub enum Event {
    /// A render is pending.
    Render,
    /// An update is pending, with the frame's elapsed time in
    /// microseconds.
    Update { dt_micros: u64 },
    /// The collaborator signalled close.
    Close,
}

/// What the collaborator should do after an event is handled.
#[derive(Clone, Copy, PartialEq, Eq, Structural, Debug)]
pub enum Action {
    /// Draw the current state.
    Draw,
    /// The state advanced; this many ticks fired.
    Stepped { ticks: u64 },
    /// Stop pulling events.
    Stop,
}

/// The frame driver: the playfield, the per-frame statistics, and whether
/// the loop should keep running.
pub struct Driver {
    pub field: Field,
    pub stats: FrameStats,
    pub running: bool,
}

impl Driver {
    pub open spec fn wf(self) -> bool {
        self.field.wf()
    }

    /// Whether one update event with elapsed time `dt_micros` fits the
    /// machine words (see `Field::can_update`).
    pub open spec fn spec_can_update(self, dt_micros: u64) -> bool {
        &&& self.field.timer@.acc + dt_micros <= u64::MAX
        &&& self.field.moves + self.field.timer@.step_ticks(dt_micros as int) <= u64::MAX
    }

    /// A fresh driver: a fresh playfield, statistics at zero, running.
    pub fn new() -> (d: Driver)
        ensures
            d.wf(),
            d.running,
            d.stats.spec_fps() == 0,
            d.field.moves == 0,
            d.field.timer@.acc == 0,
            d.field.timer@.interval == crate::MOVE_INTERVAL_MICROS,
            d.field.grid@.width == crate::GRID_WIDTH,
            d.field.grid@.height == crate::GRID_HEIGHT,
            forall|x: int, y: int| d.field.grid@.read(x, y) == Cell::Empty,
    {
        Driver { field: Field::new(), stats: FrameStats::new(), running: true }
    }

    /// The whole window as a pixel rectangle: the bound that drawing is
    /// laid out against.
    pub fn window_bounds(&self) -> (r: Rec)
        ensures
            r.pos.x == 0 && r.pos.y == 0,
            r.dim.x == WINDOW_WIDTH && r.dim.y == WINDOW_HEIGHT,
    {
        Rec::new(Vec2::new(0, 0), Vec2::new(WINDOW_WIDTH, WINDOW_HEIGHT))
    }

    /// Whether an event can be handled without arithmetic overflow: always,
    /// except an update whose elapsed time the counters cannot absorb.
    pub fn can_handle(&self, e: Event) -> (b: bool)
        requires
            self.wf(),
        ensures
            b == match e {
                Event::Update { dt_micros } => self.spec_can_update(dt_micros),
                _ => true,
            },
    {
        match e {
            Event::Update { dt_micros } => self.field.can_update(dt_micros),
            _ => true,
        }
    }

    /// Absorb one frame of elapsed time: the playfield's timer advances
    /// and counts its ticks, the statistics are recomputed from the
    /// frame's elapsed time, and the number of ticks fired is returned.
    pub fn update(&mut self, dt_micros: u64) -> (ticks: u64)
        requires
            old(self).wf(),
            old(self).spec_can_update(dt_micros),
        ensures
            final(self).wf(),
            final(self).field.timer@ == old(self).field.timer@.step(dt_micros as int),
            ticks == old(self).field.timer@.step_ticks(dt_micros as int),
            final(self).field.moves == old(self).field.moves + ticks,
            final(self).field.grid@ == old(self).field.grid@,
            final(self).stats.spec_fps() == fps_of(dt_micros as int),
            final(self).running == old(self).running,
    {
        let ticks = self.field.update(dt_micros);
        self.stats.update(dt_micros);
        ticks
    }

    /// Handle one event: a pending render asks for a draw and changes
    /// nothing; a pending update advances the state and reports the ticks
    /// fired; a close signal stops the loop.
    pub fn handle_event(&mut self, e: Event) -> (a: Action)
        requires
            old(self).wf(),
            (match e {
                Event::Update { dt_micros } => old(self).spec_can_update(dt_micros),
                _ => true,
            }),
        ensures
            final(self).wf(),
            (match e {
                Event::Render => *final(self) == *old(self) && a == Action::Draw,
                Event::Update { dt_micros } => {
                    &&& final(self).field.timer@ == old(self).field.timer@.step(dt_micros as int)
                    &&& final(self).field.moves == old(self).field.moves + old(
                        self,
                    ).field.timer@.step_ticks(dt_micros as int)
                    &&& final(self).field.grid@ == old(self).field.grid@
                    &&& final(self).stats.spec_fps() == fps_of(dt_micros as int)
                    &&& final(self).running == old(self).running
                    &&& a == (Action::Stepped {
                        ticks: old(self).field.timer@.step_ticks(dt_micros as int) as u64,
                    })
                },
                Event::Close => {
                    &&& final(self).field == old(self).field
                    &&& final(self).stats == old(self).stats
                    &&& !final(self).running
                    &&& a == Action::Stop
                },
            }),
    {
        match e {
            Event::Render => Action::Draw,
            Event::Update { dt_micros } => {
                let ticks = self.update(dt_micros);
                Action::Stepped { ticks }
            },
            Event::Close => {
                self.running = false;
                Action::Stop
            },
        }
    }
}

} // verus!
