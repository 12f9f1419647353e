//! Integer plane geometry: points and axis-aligned rectangles.
//!
//! Coordinates are whole layout units. Sums and differences that leave the
//! range of `i64` stay at its nearest end.

use vstd::prelude::*;
use crate::clock::clamp_i64;

verus! {

/// `a + b`, held at the ends of the range of `i64`.
pub fn sat_add(a: i64, b: i64) -> (r: i64)
    ensures
        r == clamp_i64(a + b),
{
    let s: i128 = a as i128 + b as i128;
    if s > i64::MAX as i128 {
        i64::MAX
    } else if s < i64::MIN as i128 {
        i64::MIN
    } else {
        s as i64
    }
}

/// `a - b`, held at the ends of the range of `i64`.
pub fn sat_sub(a: i64, b: i64) -> (r: i64)
    ensures
        r == clamp_i64(a - b),
{
    let s: i128 = a as i128 - b as i128;
    if s > i64::MAX as i128 {
        i64::MAX
    } else if s < i64::MIN as i128 {
        i64::MIN
    } else {
        s as i64
    }
}

/// The smaller of two coordinates.
pub open spec fn min_of(a: i64, b: i64) -> i64 {
    if a <= b {
        a
    } else {
        b
    }
}

/// The larger of two coordinates.
pub open spec fn max_of(a: i64, b: i64) -> i64 {
    if a >= b {
        a
    } else {
        b
    }
}

/// A point, or a displacement, in the plane.
#[derive(Clone, Copy, Debug, PartialEq, Eq, Structural)]
pub struct Vec2 {
    pub x: i64,
    pub y: i64,
}

impl Vec2 {
    /// The origin.
    pub open spec fn spec_zero() -> Vec2 {
        Vec2 { x: 0, y: 0 }
    }

    /// Componentwise saturating sum.
    pub open spec fn spec_plus(self, other: Vec2) -> Vec2 {
        Vec2 { x: clamp_i64(self.x + other.x), y: clamp_i64(self.y + other.y) }
    }

    /// Componentwise saturating difference.
    pub open spec fn spec_minus(self, other: Vec2) -> Vec2 {
        Vec2 { x: clamp_i64(self.x - other.x), y: clamp_i64(self.y - other.y) }
    }

    /// The point `(x, y)`.
    pub fn new(x: i64, y: i64) -> (v: Vec2)
        ensures
            v == (Vec2 { x, y }),
    {
        Vec2 { x, y }
    }

    /// The origin.
    #[verifier::when_used_as_spec(spec_zero)]
    pub fn zero() -> (v: Vec2)
        ensures
            v == Vec2::spec_zero(),
    {
        Vec2 { x: 0, y: 0 }
    }

    /// The point with both coordinates equal to `v`.
    pub fn same(v: i64) -> (r: Vec2)
        ensures
            r == (Vec2 { x: v, y: v }),
    {
        Vec2 { x: v, y: v }
    }

    /// The horizontal displacement of length `v`.
    pub fn x(v: i64) -> (r: Vec2)
        ensures
            r == (Vec2 { x: v, y: 0 }),
    {
        Vec2 { x: v, y: 0 }
    }

    /// The vertical displacement of length `v`.
    pub fn y(v: i64) -> (r: Vec2)
        ensures
            r == (Vec2 { x: 0, y: v }),
    {
        Vec2 { x: 0, y: v }
    }

    /// Componentwise saturating sum.
    #[verifier::when_used_as_spec(spec_plus)]
    pub fn plus(self, other: Vec2) -> (r: Vec2)
        ensures
            r == self.spec_plus(other),
    {
        Vec2 { x: sat_add(self.x, other.x), y: sat_add(self.y, other.y) }
    }

    /// Componentwise saturating difference.
    #[verifier::when_used_as_spec(spec_minus)]
    pub fn minus(self, other: Vec2) -> (r: Vec2)
        ensures
            r == self.spec_minus(other),
    {
        Vec2 { x: sat_sub(self.x, other.x), y: sat_sub(self.y, other.y) }
    }
}

/// An axis-aligned rectangle. A point belongs to it when it lies at or after
/// `left_top` and strictly before `right_bottom` on both axes, so a rectangle
/// whose corners coincide or are out of order holds no point.
#[derive(Clone, Copy, Debug, PartialEq, Eq, Structural)]
pub struct Area {
    pub left_top: Vec2,
    pub right_bottom: Vec2,
}

impl Area {
    /// The rectangle with both corners at the origin.
    pub open spec fn spec_zero() -> Area {
        Area { left_top: Vec2::spec_zero(), right_bottom: Vec2::spec_zero() }
    }

    /// The rectangle spanned by two opposite corners, in either order.
    pub open spec fn spec_new(a: Vec2, b: Vec2) -> Area {
        Area {
            left_top: Vec2 { x: min_of(a.x, b.x), y: min_of(a.y, b.y) },
            right_bottom: Vec2 { x: max_of(a.x, b.x), y: max_of(a.y, b.y) },
        }
    }

    /// Whether `p` belongs to the rectangle.
    pub open spec fn contains(self, p: Vec2) -> bool {
        &&& self.left_top.x <= p.x < self.right_bottom.x
        &&& self.left_top.y <= p.y < self.right_bottom.y
    }

    /// Whether the rectangle holds no point.
    pub open spec fn spec_is_empty(self) -> bool {
        self.left_top.x >= self.right_bottom.x || self.left_top.y >= self.right_bottom.y
    }

    /// Saturating extent along the horizontal axis.
    pub open spec fn spec_width(self) -> i64 {
        clamp_i64(self.right_bottom.x - self.left_top.x)
    }

    /// Saturating extent along the vertical axis.
    pub open spec fn spec_height(self) -> i64 {
        clamp_i64(self.right_bottom.y - self.left_top.y)
    }

    /// Both extents as one displacement.
    pub open spec fn spec_width_and_height(self) -> Vec2 {
        Vec2 { x: self.spec_width(), y: self.spec_height() }
    }

    /// The common part of two rectangles, or the zero rectangle when they
    /// share no point.
    pub open spec fn spec_cross_part(self, other: Area) -> Area {
        let part = Area {
            left_top: Vec2 {
                x: max_of(self.left_top.x, other.left_top.x),
                y: max_of(self.left_top.y, other.left_top.y),
            },
            right_bottom: Vec2 {
                x: min_of(self.right_bottom.x, other.right_bottom.x),
                y: min_of(self.right_bottom.y, other.right_bottom.y),
            },
        };
        if part.spec_is_empty() {
            Area::spec_zero()
        } else {
            part
        }
    }

    /// The smallest rectangle around two rectangles; an empty one counts for
    /// nothing.
    pub open spec fn spec_combine(self, other: Area) -> Area {
        if self.spec_is_empty() {
            other
        } else if other.spec_is_empty() {
            self
        } else {
            Area {
                left_top: Vec2 {
                    x: min_of(self.left_top.x, other.left_top.x),
                    y: min_of(self.left_top.y, other.left_top.y),
                },
                right_bottom: Vec2 {
                    x: max_of(self.right_bottom.x, other.right_bottom.x),
                    y: max_of(self.right_bottom.y, other.right_bottom.y),
                },
            }
        }
    }

    /// The rectangle moved by `delta`.
    pub open spec fn spec_moved(self, delta: Vec2) -> Area {
        Area {
            left_top: self.left_top.spec_plus(delta),
            right_bottom: self.right_bottom.spec_plus(delta),
        }
    }

    /// The rectangle with every side moved inwards by `margin`.
    pub open spec fn spec_shrink(self, margin: Vec2) -> Area {
        Area {
            left_top: self.left_top.spec_plus(margin),
            right_bottom: self.right_bottom.spec_minus(margin),
        }
    }

    /// The rectangle spanned by two opposite corners, in either order.
    #[verifier::when_used_as_spec(spec_new)]
    pub fn new(a: Vec2, b: Vec2) -> (r: Area)
        ensures
            r == Area::spec_new(a, b),
    {
        Area {
            left_top: Vec2 {
                x: if a.x <= b.x { a.x } else { b.x },
                y: if a.y <= b.y { a.y } else { b.y },
            },
            right_bottom: Vec2 {
                x: if a.x >= b.x { a.x } else { b.x },
                y: if a.y >= b.y { a.y } else { b.y },
            },
        }
    }

    /// The rectangle from the origin to `size`.
    pub fn new_with_origin(size: Vec2) -> (r: Area)
        ensures
            r == Area::spec_new(Vec2::spec_zero(), size),
    {
        Area::new(Vec2::zero(), size)
    }

    /// The rectangle with both corners at the origin.
    #[verifier::when_used_as_spec(spec_zero)]
    pub fn zero() -> (r: Area)
        ensures
            r == Area::spec_zero(),
    {
        Area { left_top: Vec2::zero(), right_bottom: Vec2::zero() }
    }

    /// Whether `p` belongs to the rectangle.
    pub fn is_point_inside(&self, p: &Vec2) -> (r: bool)
        ensures
            r == self.contains(*p),
    {
        self.left_top.x <= p.x && p.x < self.right_bottom.x && self.left_top.y <= p.y && p.y
            < self.right_bottom.y
    }

    /// Whether the rectangle holds no point.
    pub fn is_empty(&self) -> (r: bool)
        ensures
            r == self.spec_is_empty(),
    {
        self.left_top.x >= self.right_bottom.x || self.left_top.y >= self.right_bottom.y
    }

    /// Saturating extent along the horizontal axis.
    pub fn width(&self) -> (r: i64)
        ensures
            r == self.spec_width(),
    {
        sat_sub(self.right_bottom.x, self.left_top.x)
    }

    /// Saturating extent along the vertical axis.
    pub fn height(&self) -> (r: i64)
        ensures
            r == self.spec_height(),
    {
        sat_sub(self.right_bottom.y, self.left_top.y)
    }

    /// Both extents as one displacement.
    pub fn width_and_height(&self) -> (r: Vec2)
        ensures
            r == self.spec_width_and_height(),
    {
        Vec2 { x: self.width(), y: self.height() }
    }

    /// The corner with the smallest coordinates.
    pub fn left_top(&self) -> (r: Vec2)
        ensures
            r == self.left_top,
    {
        self.left_top
    }

    /// The corner with the largest coordinates.
    pub fn right_bottom(&self) -> (r: Vec2)
        ensures
            r == self.right_bottom,
    {
        self.right_bottom
    }

    /// The corner at the left of the lower edge.
    pub fn left_bottom(&self) -> (r: Vec2)
        ensures
            r == (Vec2 { x: self.left_top.x, y: self.right_bottom.y }),
    {
        Vec2 { x: self.left_top.x, y: self.right_bottom.y }
    }

    /// The corner at the right of the upper edge.
    pub fn right_top(&self) -> (r: Vec2)
        ensures
            r == (Vec2 { x: self.right_bottom.x, y: self.left_top.y }),
    {
        Vec2 { x: self.right_bottom.x, y: self.left_top.y }
    }

    /// The common part of two rectangles, or the zero rectangle when they
    /// share no point.
    pub fn cross_part(&self, other: &Area) -> (r: Area)
        ensures
            r == self.spec_cross_part(*other),
    {
        let l = if self.left_top.x >= other.left_top.x { self.left_top.x } else { other.left_top.x };
        let t = if self.left_top.y >= other.left_top.y { self.left_top.y } else { other.left_top.y };
        let r = if self.right_bottom.x <= other.right_bottom.x {
            self.right_bottom.x
        } else {
            other.right_bottom.x
        };
        let b = if self.right_bottom.y <= other.right_bottom.y {
            self.right_bottom.y
        } else {
            other.right_bottom.y
        };
        if l >= r || t >= b {
            Area::zero()
        } else {
            Area { left_top: Vec2 { x: l, y: t }, right_bottom: Vec2 { x: r, y: b } }
        }
    }

    /// Grows `self` to the smallest rectangle around itself and `other`; an
    /// empty rectangle counts for nothing.
    pub fn combine(&mut self, other: &Area)
        ensures
            *final(self) == old(self).spec_combine(*other),
    {
        if self.is_empty() {
            *self = *other;
        } else if !other.is_empty() {
            if other.left_top.x < self.left_top.x {
                self.left_top.x = other.left_top.x;
            }
            if other.left_top.y < self.left_top.y {
                self.left_top.y = other.left_top.y;
            }
            if other.right_bottom.x > self.right_bottom.x {
                self.right_bottom.x = other.right_bottom.x;
            }
            if other.right_bottom.y > self.right_bottom.y {
                self.right_bottom.y = other.right_bottom.y;
            }
        }
    }

    /// Moves the rectangle by `delta`.
    pub fn move_by(&mut self, delta: Vec2)
        ensures
            *final(self) == old(self).spec_moved(delta),
    {
        self.left_top = self.left_top.plus(delta);
        self.right_bottom = self.right_bottom.plus(delta);
    }

    /// The rectangle with every side moved inwards by `margin`.
    pub fn shrink(&self, margin: Vec2) -> (r: Area)
        ensures
            r == self.spec_shrink(margin),
    {
        Area {
            left_top: self.left_top.plus(margin),
            right_bottom: self.right_bottom.minus(margin),
        }
    }
}

/// A point belongs to the common part of two rectangles exactly when it
/// belongs to both.
pub proof fn lemma_cross_part_contains(a: Area, b: Area, p: Vec2)
    ensures
        a.spec_cross_part(b).contains(p) <==> a.contains(p) && b.contains(p),
{
}

/// Every point of either rectangle belongs to their combination.
pub proof fn lemma_combine_contains(a: Area, b: Area, p: Vec2)
    requires
        a.contains(p) || b.contains(p),
    ensures
        a.spec_combine(b).contains(p),
{
}

} // verus!
