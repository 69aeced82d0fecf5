//! The grid settings: cell size, visibility, and whether clicks snap to
//! grid intersections. The snapping arithmetic itself lives with the
//! session controller, which also knows the canvas bounds.

use vstd::prelude::*;
use crate::geom::MAX_DIM;

verus! {

/// Grid cell size (milli-pixels), visibility and snap flags.
#[derive(Clone, Copy, PartialEq, Eq, Structural, Debug)]
pub struct Grid {
    pub size: i64,
    pub visible: bool,
    pub snapping: bool,
}

impl Grid {
    pub open spec fn wf(self) -> bool {
        0 < self.size <= MAX_DIM
    }

    /// A grid of the given cell size and visibility, with snapping off.
    pub fn new(size: i64, visible: bool) -> (g: Grid)
        requires
            0 < size <= MAX_DIM,
        ensures
            g.size == size,
            g.visible == visible,
            !g.snapping,
            g.wf(),
    {
        Grid { size, visible, snapping: false }
    }

    pub fn get_size(&self) -> (s: i64)
        ensures
            s == self.size,
    {
        self.size
    }

    pub fn set_size(&mut self, size: i64)
        requires
            0 < size <= MAX_DIM,
        ensures
            final(self).size == size,
            final(self).visible == old(self).visible,
            final(self).snapping == old(self).snapping,
            final(self).wf(),
    {
        self.size = size;
    }

    pub fn is_visible(&self) -> (v: bool)
        ensures
            v == self.visible,
    {
        self.visible
    }

    pub fn set_visible(&mut self, visible: bool)
        ensures
            final(self).visible == visible,
            final(self).size == old(self).size,
            final(self).snapping == old(self).snapping,
    {
        self.visible = visible;
    }

    pub fn is_snapping_enabled(&self) -> (s: bool)
        ensures
            s == self.snapping,
    {
        self.snapping
    }

    pub fn set_snapping(&mut self, snapping: bool)
        ensures
            final(self).snapping == snapping,
            final(self).size == old(self).size,
            final(self).visible == old(self).visible,
    {
        self.snapping = snapping;
    }
}

} // verus!
