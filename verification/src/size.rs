//! The extent of a shape: a width/height pair with scalar and
//! component-wise scaling.
use vstd::prelude::*;

use crate::Scalar;
use crate::Vec2d;

verus! {

/// The size of a shape.
///
/// Negative widths and heights are representable; nothing here rejects
/// them, and consumers (such as [`crate::Rect::margin`]) handle them
/// gracefully.
#[derive(Clone, Copy, Debug, PartialEq, Eq, Structural)]
pub struct Size {
    /// The horizontal length of the shape (width).
    pub w: Scalar,
    /// The vertical length of the shape (height).
    pub h: Scalar,
}

impl Size {
    /// The vector `[w, h]` that [`Size::to_vec2d`] returns.
    pub open spec fn spec_to_vec2d(self) -> Seq<Scalar> {
        seq![self.w, self.h]
    }

    /// The size scaled component-wise: width by `v[0]`, height by `v[1]`.
    ///
    /// Total over all inputs; the casts are exact whenever the products
    /// fit in a `Scalar`, which the executable [`Size::scale_by`] requires.
    pub open spec fn spec_scale_by(self, v: Vec2d) -> Size {
        Size { w: (self.w * v[0]) as Scalar, h: (self.h * v[1]) as Scalar }
    }

    /// The size scaled uniformly: both width and height by `s`.
    pub open spec fn spec_scale_uniform(self, s: Scalar) -> Size {
        Size { w: (self.w * s) as Scalar, h: (self.h * s) as Scalar }
    }

    /// Convert size to a vector.
    pub fn to_vec2d(&self) -> (r: Vec2d)
        ensures
            r@ == self.spec_to_vec2d(),
    {
        [self.w, self.h]
    }

    /// Scale the size component-wise: width by `v[0]`, height by `v[1]`.
    pub fn scale_by(self, v: Vec2d) -> (r: Size)
        requires
            i64::MIN <= self.w * v[0] <= i64::MAX,
            i64::MIN <= self.h * v[1] <= i64::MAX,
        ensures
            r == self.spec_scale_by(v),
            r.w == self.w * v[0],
            r.h == self.h * v[1],
    {
        Size { w: self.w * v[0], h: self.h * v[1] }
    }

    /// Scale the size uniformly by `s`.
    pub fn scale_uniform(self, s: Scalar) -> (r: Size)
        requires
            i64::MIN <= self.w * s <= i64::MAX,
            i64::MIN <= self.h * s <= i64::MAX,
        ensures
            r == self.spec_scale_uniform(s),
            r.w == self.w * s,
            r.h == self.h * s,
    {
        Size { w: self.w * s, h: self.h * s }
    }
}

impl core::convert::From<Vec2d> for Size {
    /// Creates a size from a vector: `w = v[0]`, `h = v[1]`.
    fn from(v: Vec2d) -> (r: Size) {
        Size { w: v[0], h: v[1] }
    }
}

impl vstd::std_specs::convert::FromSpecImpl<Vec2d> for Size {
    open spec fn obeys_from_spec() -> bool {
        true
    }

    open spec fn from_spec(v: Vec2d) -> Size {
        Size { w: v[0], h: v[1] }
    }
}

/// Scaling a size component-wise and reading it back as a vector gives
/// the per-axis products: `(s * v).to_vec2d() == [s.w * v[0], s.h * v[1]]`.
pub proof fn lemma_scale_by_to_vec2d(s: Size, v: Vec2d)
    requires
        i64::MIN <= s.w * v[0] <= i64::MAX,
        i64::MIN <= s.h * v[1] <= i64::MAX,
    ensures
        s.spec_scale_by(v).spec_to_vec2d()[0] == s.w * v[0],
        s.spec_scale_by(v).spec_to_vec2d()[1] == s.h * v[1],
{
}

} // verus!
