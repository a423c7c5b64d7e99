//! An axis-aligned rectangle: a size anchored at its top-left corner,
//! with the derived geometry — containment, margins, relative offsets,
//! and circumscribed or centered variants.
use vstd::prelude::*;

use crate::Point;
use crate::Scalar;
use crate::Size;
use crate::Vec2d;

verus! {

/// A rectangle, anchored at its top-left corner and extending `+w` in x
/// and `+h` in y. The y axis grows downward, as in screen coordinates,
/// so `top()` is numerically less than `bottom()`.
#[derive(Clone, Copy, Debug, PartialEq, Eq, Structural)]
pub struct Rect {
    /// The position of the top left corner of the rectangle.
    pub pos: Point,
    /// The width and height of the rectangle.
    pub size: Size,
}

impl Rect {
    /// The position of the left side: `pos.x`.
    pub open spec fn spec_left(self) -> int {
        self.pos.x as int
    }

    /// The position of the top side: `pos.y`.
    pub open spec fn spec_top(self) -> int {
        self.pos.y as int
    }

    /// The position of the right side: `pos.x + size.w`.
    pub open spec fn spec_right(self) -> int {
        self.pos.x + self.size.w
    }

    /// The position of the bottom side: `pos.y + size.h`.
    pub open spec fn spec_bottom(self) -> int {
        self.pos.y + self.size.h
    }

    /// Returns the position of the left side of the rectangle.
    pub fn left(&self) -> (r: Scalar)
        ensures
            r == self.spec_left(),
    {
        self.pos.x
    }

    /// Returns the position of the top side of the rectangle.
    pub fn top(&self) -> (r: Scalar)
        ensures
            r == self.spec_top(),
    {
        self.pos.y
    }

    /// Returns the position of the right side of the rectangle.
    pub fn right(&self) -> (r: Scalar)
        requires
            i64::MIN <= self.pos.x + self.size.w <= i64::MAX,
        ensures
            r == self.spec_right(),
    {
        self.pos.x + self.size.w
    }

    /// Returns the position of the bottom side of the rectangle.
    pub fn bottom(&self) -> (r: Scalar)
        requires
            i64::MIN <= self.pos.y + self.size.h <= i64::MAX,
        ensures
            r == self.spec_bottom(),
    {
        self.pos.y + self.size.h
    }

    /// The array `[x, y, w, h]` that [`Rect::to_array`] and
    /// [`Rect::into_array`] return.
    pub open spec fn spec_to_array(self) -> Seq<Scalar> {
        seq![self.pos.x, self.pos.y, self.size.w, self.size.h]
    }

    /// The rectangle a 4-element array `[x, y, w, h]` describes.
    pub open spec fn spec_from_array(v: [Scalar; 4]) -> Rect {
        Rect { pos: Point { x: v[0], y: v[1] }, size: Size { w: v[2], h: v[3] } }
    }

    /// Converts a rectangle to `[x, y, w, h]`, borrowing it.
    pub fn to_array(&self) -> (r: [Scalar; 4])
        ensures
            r@ == self.spec_to_array(),
    {
        [self.pos.x, self.pos.y, self.size.w, self.size.h]
    }

    /// Converts a rectangle into `[x, y, w, h]`, consuming it.
    pub fn into_array(self) -> (r: [Scalar; 4])
        ensures
            r@ == self.spec_to_array(),
    {
        [self.pos.x, self.pos.y, self.size.w, self.size.h]
    }

    /// Create a square rectangle with sides of length `len` and top left
    /// corner at `pos`.
    pub fn new_square(pos: Point, len: Scalar) -> (r: Rect)
        ensures
            r.pos == pos,
            r.size == (Size { w: len, h: len }),
    {
        Rect { pos, size: Size { w: len, h: len } }
    }

    /// Create the smallest axis-aligned rectangle that circumscribes the
    /// circle with the given center and radius: a square of side
    /// `2 * radius` whose top left corner is `center - (radius, radius)`.
    pub fn new_circle(center: Point, radius: Scalar) -> (r: Rect)
        requires
            i64::MIN <= center.x - radius <= i64::MAX,
            i64::MIN <= center.y - radius <= i64::MAX,
            i64::MIN <= 2 * radius <= i64::MAX,
        ensures
            r.pos.x == center.x - radius,
            r.pos.y == center.y - radius,
            r.size.w == 2 * radius,
            r.size.h == 2 * radius,
    {
        Rect {
            pos: Point { x: center.x - radius, y: center.y - radius },
            size: Size { w: 2 * radius, h: 2 * radius },
        }
    }

    /// Whether `point` lies strictly inside the rectangle: points exactly
    /// on the boundary are not contained (open-rectangle semantics).
    pub open spec fn spec_contains(self, point: Point) -> bool {
        &&& self.spec_left() < point.x < self.spec_right()
        &&& self.spec_top() < point.y < self.spec_bottom()
    }

    /// Compute whether or not the point is inside the rectangle.
    ///
    /// The comparisons are strict on every side: a point exactly on an
    /// edge or corner is outside.
    pub fn contains(&self, point: Point) -> (r: bool)
        requires
            i64::MIN <= self.pos.x + self.size.w <= i64::MAX,
            i64::MIN <= self.pos.y + self.size.h <= i64::MAX,
        ensures
            r == self.spec_contains(point),
    {
        self.left() < point.x && point.x < self.right() && self.top() < point.y && point.y
            < self.bottom()
    }

    /// Computes a rectangle with quadruple the surface area of self and
    /// with center `(self.pos.x, self.pos.y)`.
    pub fn centered(&self) -> (r: Rect)
        requires
            i64::MIN <= self.pos.x - self.size.w <= i64::MAX,
            i64::MIN <= self.pos.y - self.size.h <= i64::MAX,
            i64::MIN <= 2 * self.size.w <= i64::MAX,
            i64::MIN <= 2 * self.size.h <= i64::MAX,
        ensures
            r.pos.x == self.pos.x - self.size.w,
            r.pos.y == self.pos.y - self.size.h,
            r.size.w == 2 * self.size.w,
            r.size.h == 2 * self.size.h,
    {
        Rect {
            pos: Point { x: self.pos.x - self.size.w, y: self.pos.y - self.size.h },
            size: self.size.scale_uniform(2),
        }
    }

    /// Computes a scaled rectangle with the same position as self: the
    /// size is scaled component-wise by `v`, the position is unchanged.
    pub fn scaled(&self, v: Vec2d) -> (r: Rect)
        requires
            i64::MIN <= self.size.w * v[0] <= i64::MAX,
            i64::MIN <= self.size.h * v[1] <= i64::MAX,
        ensures
            r.pos == self.pos,
            r.size.w == self.size.w * v[0],
            r.size.h == self.size.h * v[1],
    {
        Rect { pos: self.pos, size: self.size.scale_by(v) }
    }

    /// The rectangle that [`Rect::margin`] returns: shrunk by `m` on
    /// every side, with each collapsed axis pinned at the midpoint of the
    /// original extent on that axis.
    pub open spec fn spec_margin(self, m: Scalar) -> Rect {
        let w = self.size.w - 2 * m;
        let h = self.size.h - 2 * m;
        Rect {
            pos: Point {
                x: if w < 0 {
                    (self.pos.x + spec_half(self.size.w as int)) as Scalar
                } else {
                    (self.pos.x + m) as Scalar
                },
                y: if h < 0 {
                    (self.pos.y + spec_half(self.size.h as int)) as Scalar
                } else {
                    (self.pos.y + m) as Scalar
                },
            },
            size: Size {
                w: if w < 0 {
                    0
                } else {
                    w as Scalar
                },
                h: if h < 0 {
                    0
                } else {
                    h as Scalar
                },
            },
        }
    }

    /// Computes a rectangle whose perimeter forms the inside edge of a
    /// margin with size `m` for self: the classic inset operation.
    ///
    /// Each axis is handled independently. Where the margin exceeds half
    /// the extent on an axis (the shrunk extent would be negative), that
    /// axis collapses to zero length, positioned at the midpoint of the
    /// original extent rather than at `pos + m`, so the rectangle never
    /// inverts: it can degenerate to a line or a point, but its width and
    /// height never go negative.
    pub fn margin(&self, m: Scalar) -> (r: Rect)
        requires
            i64::MIN <= 2 * m <= i64::MAX,
            i64::MIN <= self.size.w - 2 * m <= i64::MAX,
            i64::MIN <= self.size.h - 2 * m <= i64::MAX,
            self.size.w - 2 * m < 0 ==> i64::MIN <= self.pos.x + spec_half(
                self.size.w as int,
            ) <= i64::MAX,
            self.size.w - 2 * m >= 0 ==> i64::MIN <= self.pos.x + m <= i64::MAX,
            self.size.h - 2 * m < 0 ==> i64::MIN <= self.pos.y + spec_half(
                self.size.h as int,
            ) <= i64::MAX,
            self.size.h - 2 * m >= 0 ==> i64::MIN <= self.pos.y + m <= i64::MAX,
        ensures
            r == self.spec_margin(m),
    {
        let w: Scalar = self.size.w - 2 * m;
        let h: Scalar = self.size.h - 2 * m;
        let x: Scalar = if w < 0 {
            self.pos.x + self.size.w / 2
        } else {
            self.pos.x + m
        };
        let new_w: Scalar = if w < 0 {
            0
        } else {
            w
        };
        let y: Scalar = if h < 0 {
            self.pos.y + self.size.h / 2
        } else {
            self.pos.y + m
        };
        let new_h: Scalar = if h < 0 {
            0
        } else {
            h
        };
        Rect { pos: Point { x, y }, size: Size { w: new_w, h: new_h } }
    }

    /// Computes a rectangle translated (slid) in the direction of the
    /// vector a distance relative to the size of the rectangle. For
    /// example, `self.relative([1, 1])` returns a rectangle one rectangle
    /// to the right and down from the original.
    pub fn relative(&self, v: Vec2d) -> (r: Rect)
        requires
            i64::MIN <= self.size.w * v[0] <= i64::MAX,
            i64::MIN <= self.size.h * v[1] <= i64::MAX,
            i64::MIN <= self.pos.x + self.size.w * v[0] <= i64::MAX,
            i64::MIN <= self.pos.y + self.size.h * v[1] <= i64::MAX,
        ensures
            r.pos.x == self.pos.x + self.size.w * v[0],
            r.pos.y == self.pos.y + self.size.h * v[1],
            r.size == self.size,
    {
        Rect { pos: self.pos.add_vector(self.size.scale_by(v).to_vec2d()), size: self.size }
    }
}

impl core::convert::From<(Point, Size)> for Rect {
    /// Creates a rectangle from the position of its top left corner and
    /// its size.
    fn from(rectangle: (Point, Size)) -> (r: Rect) {
        let (pos, size) = rectangle;
        Rect { pos, size }
    }
}

impl vstd::std_specs::convert::FromSpecImpl<(Point, Size)> for Rect {
    open spec fn obeys_from_spec() -> bool {
        true
    }

    open spec fn from_spec(rectangle: (Point, Size)) -> Rect {
        Rect { pos: rectangle.0, size: rectangle.1 }
    }
}

impl core::convert::From<[Scalar; 4]> for Rect {
    /// Creates a rectangle from an array `[x, y, w, h]`.
    fn from(v: [Scalar; 4]) -> (r: Rect) {
        Rect { pos: Point { x: v[0], y: v[1] }, size: Size { w: v[2], h: v[3] } }
    }
}

impl vstd::std_specs::convert::FromSpecImpl<[Scalar; 4]> for Rect {
    open spec fn obeys_from_spec() -> bool {
        true
    }

    open spec fn from_spec(v: [Scalar; 4]) -> Rect {
        Rect::spec_from_array(v)
    }
}

/// Half of `a`, rounded toward zero, as the division operator on
/// [`Scalar`] computes it. [`Rect::margin`] places the position of a
/// collapsed axis at this midpoint of the original extent.
pub open spec fn spec_half(a: int) -> int {
    if a >= 0 {
        a / 2
    } else {
        -((-a) / 2)
    }
}

/// Converting a rectangle to `[x, y, w, h]` and back reproduces it, field
/// for field, and converting the result forward again gives the same
/// array: the two conversions are exact inverses.
pub proof fn lemma_array_round_trip(r: Rect, a: [Scalar; 4])
    requires
        a@ == r.spec_to_array(),
    ensures
        Rect::spec_from_array(a) == r,
        Rect::spec_from_array(a).spec_to_array() == a@,
{
    assert(Rect::spec_from_array(a).spec_to_array() =~= a@);
}

/// The sides a rectangle exposes are consistent with its stored extent:
/// `right() - left() == size.w` and `bottom() - top() == size.h`.
pub proof fn lemma_sides_match_size(r: Rect)
    ensures
        r.spec_right() - r.spec_left() == r.size.w,
        r.spec_bottom() - r.spec_top() == r.size.h,
{
}

} // verus!
