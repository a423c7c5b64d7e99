//! A location in the plane, with translation by scalar or vector.
use vstd::prelude::*;

use crate::Scalar;
use crate::Vec2d;

verus! {

/// A point in the Cartesian plane.
#[derive(Clone, Copy, Debug, PartialEq, Eq, Structural)]
pub struct Point {
    /// The x coordinate.
    pub x: Scalar,
    /// The y coordinate.
    pub y: Scalar,
}

impl Point {
    /// The vector `[x, y]` that [`Point::to_vec2d`] returns.
    pub open spec fn spec_to_vec2d(self) -> Seq<Scalar> {
        seq![self.x, self.y]
    }

    /// The point translated component-wise by the vector `v`.
    ///
    /// Total over all inputs; the casts are exact whenever the sums fit
    /// in a `Scalar`, which the executable [`Point::add_vector`] requires.
    pub open spec fn spec_add_vector(self, v: Vec2d) -> Point {
        Point { x: (self.x + v[0]) as Scalar, y: (self.y + v[1]) as Scalar }
    }

    /// The point translated component-wise by the negation of `v`.
    pub open spec fn spec_sub_vector(self, v: Vec2d) -> Point {
        Point { x: (self.x - v[0]) as Scalar, y: (self.y - v[1]) as Scalar }
    }

    /// Convert the point to a vector.
    pub fn to_vec2d(&self) -> (r: Vec2d)
        ensures
            r@ == self.spec_to_vec2d(),
    {
        [self.x, self.y]
    }

    /// Add the same scalar to both coordinates.
    pub fn add_scalar(self, s: Scalar) -> (r: Point)
        requires
            i64::MIN <= self.x + s <= i64::MAX,
            i64::MIN <= self.y + s <= i64::MAX,
        ensures
            r.x == self.x + s,
            r.y == self.y + s,
    {
        Point { x: self.x + s, y: self.y + s }
    }

    /// Subtract the same scalar from both coordinates.
    pub fn sub_scalar(self, s: Scalar) -> (r: Point)
        requires
            i64::MIN <= self.x - s <= i64::MAX,
            i64::MIN <= self.y - s <= i64::MAX,
        ensures
            r.x == self.x - s,
            r.y == self.y - s,
    {
        Point { x: self.x - s, y: self.y - s }
    }

    /// Add a vector component-wise.
    pub fn add_vector(self, v: Vec2d) -> (r: Point)
        requires
            i64::MIN <= self.x + v[0] <= i64::MAX,
            i64::MIN <= self.y + v[1] <= i64::MAX,
        ensures
            r == self.spec_add_vector(v),
            r.x == self.x + v[0],
            r.y == self.y + v[1],
    {
        Point { x: self.x + v[0], y: self.y + v[1] }
    }

    /// Subtract a vector component-wise.
    pub fn sub_vector(self, v: Vec2d) -> (r: Point)
        requires
            i64::MIN <= self.x - v[0] <= i64::MAX,
            i64::MIN <= self.y - v[1] <= i64::MAX,
        ensures
            r == self.spec_sub_vector(v),
            r.x == self.x - v[0],
            r.y == self.y - v[1],
    {
        Point { x: self.x - v[0], y: self.y - v[1] }
    }
}

impl core::convert::From<Vec2d> for Point {
    /// Creates a point from a vector: `x = v[0]`, `y = v[1]`.
    fn from(v: Vec2d) -> (r: Point) {
        Point { x: v[0], y: v[1] }
    }
}

impl vstd::std_specs::convert::FromSpecImpl<Vec2d> for Point {
    open spec fn obeys_from_spec() -> bool {
        true
    }

    open spec fn from_spec(v: Vec2d) -> Point {
        Point { x: v[0], y: v[1] }
    }
}

/// Translating a point by a vector and reading it back gives the per-axis
/// sums, and translating back by the same vector restores the point:
/// `(p + v).to_vec2d() == [p.x + v[0], p.y + v[1]]` and
/// `((p + v) - v).to_vec2d() == p.to_vec2d()`.
pub proof fn lemma_add_vector_round_trip(p: Point, v: Vec2d)
    requires
        i64::MIN <= p.x + v[0] <= i64::MAX,
        i64::MIN <= p.y + v[1] <= i64::MAX,
    ensures
        p.spec_add_vector(v).spec_to_vec2d()[0] == p.x + v[0],
        p.spec_add_vector(v).spec_to_vec2d()[1] == p.y + v[1],
        p.spec_add_vector(v).spec_sub_vector(v).spec_to_vec2d() == p.spec_to_vec2d(),
{
    assert(p.spec_add_vector(v).spec_sub_vector(v).spec_to_vec2d() =~= p.spec_to_vec2d());
}

} // verus!
