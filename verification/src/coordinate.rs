//! The user-facing origin convention: canvas coordinates are always
//! top-left-origin with Y growing downward; the displayed system may instead
//! put the origin bottom-left with Y growing upward, a flip about the
//! tracked canvas height.

use vstd::prelude::*;
use crate::geom::{Point, MAX_DIM, MAX_CANVAS_COORD};

verus! {

/// The origin convention and the canvas height the Y flip is taken against.
/// The height is in milli-pixels and must track the canvas's logical height.
#[derive(Clone, Copy, PartialEq, Eq, Structural, Debug)]
pub struct CoordinateSystem {
    pub origin_top_left: bool,
    pub canvas_height: i64,
}

impl CoordinateSystem {
    pub open spec fn wf(self) -> bool {
        0 < self.canvas_height <= MAX_DIM
    }

    /// The displayed Y for a canvas-space Y: identity under a top-left
    /// origin, flipped about the canvas height under a bottom-left origin.
    pub open spec fn sys_y(self, y: int) -> int {
        if self.origin_top_left {
            y
        } else {
            self.canvas_height - y
        }
    }

    /// A fresh convention against the default canvas height of 1080 pixels,
    /// updated as soon as a resolution is applied.
    pub fn new(origin_top_left: bool) -> (c: CoordinateSystem)
        ensures
            c.origin_top_left == origin_top_left,
            c.canvas_height == 1_080_000,
            c.wf(),
    {
        CoordinateSystem { origin_top_left, canvas_height: 1_080_000 }
    }

    pub fn set_origin_top_left(&mut self, origin_top_left: bool)
        ensures
            final(self).origin_top_left == origin_top_left,
            final(self).canvas_height == old(self).canvas_height,
            old(self).wf() ==> final(self).wf(),
    {
        self.origin_top_left = origin_top_left;
    }

    pub fn is_origin_top_left(&self) -> (r: bool)
        ensures
            r == self.origin_top_left,
    {
        self.origin_top_left
    }

    /// Must be called whenever the canvas's logical height changes, or the
    /// flip would be taken against a stale height.
    pub fn update_canvas_height(&mut self, height: i64)
        requires
            0 < height <= MAX_DIM,
        ensures
            final(self).canvas_height == height,
            final(self).origin_top_left == old(self).origin_top_left,
            final(self).wf(),
    {
        self.canvas_height = height;
    }

    /// Canvas coordinates to the chosen display system.
    pub fn to_system_coordinates(&self, canvas_pos: Point) -> (r: Point)
        requires
            self.wf(),
            canvas_pos.in_canvas_range_spec(),
        ensures
            r.x == canvas_pos.x,
            r.y == self.sys_y(canvas_pos.y as int),
    {
        if self.origin_top_left {
            canvas_pos
        } else {
            Point { x: canvas_pos.x, y: self.canvas_height - canvas_pos.y }
        }
    }

    /// The chosen display system back to canvas coordinates; the flip is its
    /// own inverse, so this is the same map.
    pub fn from_system_coordinates(&self, system_pos: Point) -> (r: Point)
        requires
            self.wf(),
            system_pos.in_canvas_range_spec(),
        ensures
            r.x == system_pos.x,
            r.y == self.sys_y(system_pos.y as int),
    {
        if self.origin_top_left {
            system_pos
        } else {
            Point { x: system_pos.x, y: self.canvas_height - system_pos.y }
        }
    }
}

/// Converting to the display system and back returns every point exactly:
/// the Y flip is an involution, whichever convention is active.
pub proof fn lemma_system_round_trip(c: CoordinateSystem, y: int)
    ensures
        c.sys_y(c.sys_y(y)) == y,
{
}

} // verus!
