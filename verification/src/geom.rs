//! Small pixel-space geometry helpers used when laying out what to draw.

use vstd::prelude::*;

verus! {

/// A point or extent in pixels.
#[derive(Clone, Copy, PartialEq, Eq, Structural, Debug)]
pub struct Vec2 {
    pub x: u32,
    pub y: u32,
}

impl Vec2 {
    pub fn new(x: u32, y: u32) -> (v: Vec2)
        ensures
            v.x == x,
            v.y == y,
    {
        Vec2 { x, y }
    }
}

/// An axis-aligned rectangle in pixels: a position and an extent.
#[derive(Clone, Copy, PartialEq, Eq, Structural, Debug)]
pub struct Rec {
    pub pos: Vec2,
    pub dim: Vec2,
}

impl Rec {
    pub fn new(pos: Vec2, dim: Vec2) -> (r: Rec)
        ensures
            r.pos == pos,
            r.dim == dim,
    {
        Rec { pos, dim }
    }
}

} // verus!
