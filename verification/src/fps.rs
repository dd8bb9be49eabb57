//! Per-frame statistics: the frames-per-second figure derived from the
//! last frame's elapsed time, and the ASCII label that displays it.

use crate::MICROS_PER_SECOND;
use vstd::arithmetic::div_mod::lemma_div_is_ordered_by_denominator;
use vstd::arithmetic::div_mod::lemma_fundamental_div_mod_converse;
use vstd::arithmetic::div_mod::lemma_small_mod;
use vstd::prelude::*;

verus! {

/// Frames per second derived from one frame's elapsed time in
/// microseconds: the whole number of such frames that fit in a second,
/// and zero when no time has elapsed.
pub open spec fn fps_of(dt_micros: int) -> int {
    if dt_micros <= 0 {
        0
    } else {
        MICROS_PER_SECOND as int / dt_micros
    }
}

/// The decimal digits of `n`, as ASCII bytes, most significant first, with
/// no leading zeros (the number zero is the single digit `0`).
pub open spec fn decimal_of(n: nat) -> Seq<u8>
    decreases n,
{
    if n < 10 {
        seq![(48 + n) as u8]
    } else {
        decimal_of(n / 10).push((48 + n % 10) as u8)
    }
}

/// The ASCII label displaying an FPS figure: `FPS: ` then its digits.
pub open spec fn fps_label_of(n: nat) -> Seq<u8> {
    seq![70u8, 80u8, 83u8, 58u8, 32u8] + decimal_of(n)
}

/// Frames per second for a frame that took `dt_micros` microseconds.
pub fn frames_per_second(dt_micros: u64) -> (r: u32)
    ensures
        r == fps_of(dt_micros as int),
{
    if dt_micros == 0 {
        0
    } else {
        let q = MICROS_PER_SECOND / dt_micros;
        proof {
            lemma_div_is_ordered_by_denominator(MICROS_PER_SECOND as int, 1, dt_micros as int);
            lemma_fundamental_div_mod_converse(
                MICROS_PER_SECOND as int,
                1,
                MICROS_PER_SECOND as int,
                0,
            );
        }
        q as u32
    }
}

/// The decimal digits of `n`, as ASCII bytes, most significant first.
pub fn decimal_digits(n: u32) -> (r: Vec<u8>)
    ensures
        r@ == decimal_of(n as nat),
{
    let mut rev: Vec<u8> = Vec::new();
    let mut m: u32 = n;
    if m == 0 {
        rev.push(48);
    }
    proof {
        if m == 0 {
            assert(rev@.reverse() =~= decimal_of(n as nat));
        } else {
            assert(decimal_of(m as nat) + rev@.reverse() =~= decimal_of(n as nat));
        }
    }
    while m > 0
        invariant
            m > 0 ==> decimal_of(n as nat) == decimal_of(m as nat) + rev@.reverse(),
            m == 0 ==> decimal_of(n as nat) == rev@.reverse() && rev@.len() > 0,
        decreases m,
    {
        let d: u8 = 48 + (m % 10) as u8;
        let ghost prev = rev@;
        rev.push(d);
        proof {
            assert(rev@.reverse() =~= seq![d] + prev.reverse());
            if m < 10 {
                lemma_small_mod(m as nat, 10);
                assert(decimal_of(m as nat) == seq![d]);
                assert(decimal_of(n as nat) =~= rev@.reverse());
            } else {
                assert(decimal_of(m as nat) == decimal_of((m / 10) as nat).push(d));
                assert(decimal_of(m as nat) =~= decimal_of((m / 10) as nat) + seq![d]);
                assert(decimal_of(n as nat) =~= decimal_of((m / 10) as nat) + rev@.reverse());
            }
        }
        m = m / 10;
    }
    let mut r: Vec<u8> = Vec::new();
    let mut j: usize = rev.len();
    assert(r@ =~= rev@.subrange(j as int, rev@.len() as int).reverse());
    while j > 0
        invariant
            j <= rev@.len(),
            decimal_of(n as nat) == rev@.reverse(),
            r@ == rev@.subrange(j as int, rev@.len() as int).reverse(),
        decreases j,
    {
        j = j - 1;
        let ghost prev = r@;
        r.push(rev[j]);
        proof {
            assert(r@ =~= rev@.subrange(j as int, rev@.len() as int).reverse());
        }
    }
    proof {
        assert(rev@.subrange(0, rev@.len() as int) =~= rev@);
    }
    r
}

/// The ASCII label for an FPS figure, e.g. `FPS: 60`.
pub fn fps_label(fps: u32) -> (r: Vec<u8>)
    ensures
        r@ == fps_label_of(fps as nat),
{
    let mut r: Vec<u8> = Vec::new();
    r.push(70);
    r.push(80);
    r.push(83);
    r.push(58);
    r.push(32);
    let mut digits = decimal_digits(fps);
    r.append(&mut digits);
    proof {
        assert(r@ =~= fps_label_of(fps as nat));
    }
    r
}

/// Per-frame derived statistics, recomputed from each frame's elapsed
/// time.
pub struct FrameStats {
    fps: u32,
}

impl FrameStats {
    /// The last frame's frames-per-second figure.
    pub closed spec fn spec_fps(self) -> int {
        self.fps as int
    }

    /// A fresh counter showing zero.
    pub fn new() -> (s: FrameStats)
        ensures
            s.spec_fps() == 0,
    {
        FrameStats { fps: 0 }
    }

    /// Recompute the figure from one frame's elapsed time in microseconds.
    pub fn update(&mut self, dt_micros: u64)
        ensures
            final(self).spec_fps() == fps_of(dt_micros as int),
    {
        self.fps = frames_per_second(dt_micros);
    }

    /// The current frames-per-second figure.
    pub fn fps(&self) -> (r: u32)
        ensures
            r == self.spec_fps(),
    {
        self.fps
    }

    /// The ASCII label for the current figure.
    pub fn label(&self) -> (r: Vec<u8>)
        ensures
            r@ == fps_label_of(self.spec_fps() as nat),
    {
        fps_label(self.fps)
    }
}

} // verus!
