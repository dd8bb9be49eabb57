//! The tick timer: accumulates elapsed time and fires a discrete tick each
//! time the accumulator crosses a fixed interval, carrying the remainder
//! over (never truncating it), so repeated frames do not drift.

use vstd::arithmetic::div_mod::lemma_fundamental_div_mod;
use vstd::arithmetic::div_mod::lemma_fundamental_div_mod_converse;
use vstd::arithmetic::div_mod::lemma_mod_bound;
use vstd::prelude::*;

verus! {

/// Mathematical model of a timer: the tick interval and the time
/// accumulated since the last tick, both in the same time unit.
pub struct TimerModel {
    pub interval: int,
    pub acc: int,
}

impl TimerModel {
    /// The interval is positive and the accumulator always holds strictly
    /// less than one interval (the drift bound).
    pub open spec fn wf(self) -> bool {
        0 < self.interval <= u64::MAX && 0 <= self.acc < self.interval
    }

    /// The timer after one frame of elapsed time `dt`.
    pub open spec fn step(self, dt: int) -> TimerModel {
        TimerModel { interval: self.interval, acc: (self.acc + dt) % self.interval }
    }

    /// How many ticks one frame of elapsed time `dt` fires.
    pub open spec fn step_ticks(self, dt: int) -> int {
        (self.acc + dt) / self.interval
    }
}

/// The timer after `n` frames, each of elapsed time `d`.
pub open spec fn timer_after_frames(t0: TimerModel, d: int, n: nat) -> TimerModel
    decreases n,
{
    if n == 0 {
        t0
    } else {
        timer_after_frames(t0, d, (n - 1) as nat).step(d)
    }
}

/// The total number of ticks fired over `n` frames, each of elapsed time
/// `d`.
pub open spec fn ticks_after_frames(t0: TimerModel, d: int, n: nat) -> int
    decreases n,
{
    if n == 0 {
        0
    } else {
        ticks_after_frames(t0, d, (n - 1) as nat) + timer_after_frames(
            t0,
            d,
            (n - 1) as nat,
        ).step_ticks(d)
    }
}

/// Over `n` frames each of elapsed time `d`, a well-formed timer fires
/// exactly `floor((acc + n * d) / interval)` ticks — for a fresh timer,
/// `floor(n * d / interval)` — and is left holding `(acc + n * d) %
/// interval`: the accumulated error never reaches one interval, however
/// many frames pass.
pub proof fn lemma_tick_count(t0: TimerModel, d: int, n: nat)
    requires
        t0.wf(),
        0 <= d,
    ensures
        ticks_after_frames(t0, d, n) == (t0.acc + n * d) / t0.interval,
        timer_after_frames(t0, d, n).interval == t0.interval,
        timer_after_frames(t0, d, n).acc == (t0.acc + n * d) % t0.interval,
        timer_after_frames(t0, d, n).wf(),
    decreases n,
{
    let i = t0.interval;
    if n == 0 {
        lemma_fundamental_div_mod_converse(t0.acc, i, 0, t0.acc);
    } else {
        let m = (n - 1) as nat;
        lemma_tick_count(t0, d, m);
        let a = t0.acc + m * d;
        let acc = a % i;
        let q = a / i;
        let t = (acc + d) / i;
        let r = (acc + d) % i;
        assert(0 <= a) by (nonlinear_arith)
            requires
                a == t0.acc + m * d,
                0 <= t0.acc,
                0 <= m,
                0 <= d,
        ;
        lemma_fundamental_div_mod(a, i);
        lemma_fundamental_div_mod(acc + d, i);
        lemma_mod_bound(acc + d, i);
        assert(t0.acc + n * d == a + d) by (nonlinear_arith)
            requires
                a == t0.acc + (n - 1) * d,
        ;
        assert(i * q + i * t == i * (q + t)) by (nonlinear_arith);
        assert(a + d == i * (q + t) + r);
        assert((q + t) * i == i * (q + t)) by (nonlinear_arith);
        lemma_fundamental_div_mod_converse(a + d, i, q + t, r);
    }
}

/// The tick timer, counting time in microseconds.
pub struct Timer {
    interval: u64,
    acc: u64,
}

impl View for Timer {
    type V = TimerModel;

    closed spec fn view(&self) -> TimerModel {
        TimerModel { interval: self.interval as int, acc: self.acc as int }
    }
}

impl Timer {
    /// A fresh timer with the given positive tick interval and nothing
    /// accumulated.
    pub fn new(interval: u64) -> (t: Timer)
        requires
            interval > 0,
        ensures
            t@.wf(),
            t@.interval == interval,
            t@.acc == 0,
    {
        Timer { interval, acc: 0 }
    }

    /// The tick interval.
    pub fn interval(&self) -> (i: u64)
        ensures
            i == self@.interval,
    {
        self.interval
    }

    /// The time accumulated since the last tick.
    pub fn accumulated(&self) -> (a: u64)
        ensures
            a == self@.acc,
    {
        self.acc
    }

    /// Advance the timer by one frame of elapsed time `dt` and return how
    /// many ticks fired: the accumulator grows by `dt`, fires one tick per
    /// whole interval contained in it, and keeps the remainder.
    pub fn advance(&mut self, dt: u64) -> (ticks: u64)
        requires
            old(self)@.wf(),
            old(self)@.acc + dt <= u64::MAX,
        ensures
            final(self)@ == old(self)@.step(dt as int),
            ticks == old(self)@.step_ticks(dt as int),
            final(self)@.wf(),
    {
        let sum = self.acc + dt;
        let ticks = sum / self.interval;
        self.acc = sum % self.interval;
        ticks
    }
}

} // verus!
