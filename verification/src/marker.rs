//! A placed marker: its canonical canvas-space position, the position shown
//! to the user under the active origin convention, and its colour.

use vstd::prelude::*;
use crate::geom::Point;

verus! {

/// An opaque sRGB colour.
#[derive(Clone, Copy, PartialEq, Eq, Structural, Debug)]
pub struct RgbColor {
    pub r: u8,
    pub g: u8,
    pub b: u8,
}

impl RgbColor {
    pub fn new(r: u8, g: u8, b: u8) -> (c: RgbColor)
        ensures
            c.r == r,
            c.g == g,
            c.b == b,
    {
        RgbColor { r, g, b }
    }
}

/// A point of interest the user dropped on the canvas. `position` is the
/// canonical canvas-space location; `system_position` is that location
/// passed through the origin convention active when it was last computed.
#[derive(Clone, Copy, PartialEq, Eq, Structural, Debug)]
pub struct Marker {
    pub position: Point,
    pub system_position: Point,
    pub color: RgbColor,
}

impl Marker {
    pub fn new(position: Point, system_position: Point, color: RgbColor) -> (m: Marker)
        ensures
            m.position == position,
            m.system_position == system_position,
            m.color == color,
    {
        Marker { position, system_position, color }
    }
}

} // verus!
