//! Core of a screen-coordinate picking tool: a pannable, zoomable canvas of a
//! chosen resolution on which labeled markers are placed, with grid snapping,
//! a selectable origin convention, and clipboard-ready coordinate text.
//!
//! All geometry is carried in milli-pixels (thousandths of a pixel) held in
//! `i64`, so every transform is exact integer arithmetic with a specified
//! rounding rule. The windowing shell converts to and from its own floating
//! point types at the boundary.

pub mod app;
pub mod canvas;
pub mod coordinate;
pub mod geom;
pub mod grid;
pub mod marker;
pub mod text;
