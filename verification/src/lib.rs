//! Axis-aligned 2D geometry: sizes, points, and rectangles.
//!
//! Three value types, composed bottom-up: [`Size`] is a width/height pair,
//! [`Point`] is an x/y coordinate, and [`Rect`] anchors a `Size` at a `Point`
//! (its top-left corner, with y growing downward as on a screen). Every
//! operation is a pure, deterministic function of its inputs, and every
//! contract pins the result down exactly, coordinate by coordinate.
//!
//! Coordinates are exact integers. Callers that work in finer units scale
//! their values before building the types.
use vstd::prelude::*;

pub mod point;
pub mod rect;
pub mod size;

pub use point::Point;
pub use rect::Rect;
pub use size::Size;

verus! {

/// A coordinate, length, or per-axis factor.
pub type Scalar = i64;

/// An ordered pair of scalars: a displacement or a per-axis factor.
pub type Vec2d = [Scalar; 2];

} // verus!
