//! Points, vectors and rectangles on a grid of whole units.
//!
//! A rectangle covers the units from `min` up to, but not including, `max`,
//! so two rectangles that share an edge share no unit.

use vstd::prelude::*;

verus! {

/// A position, in units, relative to the window's top-left corner.
#[derive(Clone, Copy, Debug, PartialEq, Eq, Structural)]
pub struct Point {
    pub x: i32,
    pub y: i32,
}

/// A displacement in units.
#[derive(Clone, Copy, Debug, PartialEq, Eq, Structural)]
pub struct Vector {
    pub dx: i32,
    pub dy: i32,
}

/// An axis-aligned rectangle. It is empty when `max` is not right of and
/// below `min`.
#[derive(Clone, Copy, Debug, PartialEq, Eq, Structural)]
pub struct Rect {
    pub min: Point,
    pub max: Point,
}

/// The value of the coordinate type that is nearest to `v`.
pub open spec fn clamp_coord(v: int) -> int {
    if v < i32::MIN {
        i32::MIN as int
    } else if v > i32::MAX {
        i32::MAX as int
    } else {
        v
    }
}

/// Brings a wide intermediate result back into the coordinate type.
pub fn clamp_to_coord(v: i64) -> (r: i32)
    ensures
        r == clamp_coord(v as int),
{
    if v < i32::MIN as i64 {
        i32::MIN
    } else if v > i32::MAX as i64 {
        i32::MAX
    } else {
        v as i32
    }
}

impl Vector {
    /// No movement.
    pub open spec fn spec_zero() -> Vector {
        Vector { dx: 0, dy: 0 }
    }

    #[verifier::when_used_as_spec(spec_zero)]
    pub fn zero() -> (v: Vector)
        ensures
            v == Vector::spec_zero(),
    {
        Vector { dx: 0, dy: 0 }
    }
}

impl Rect {
    /// Number of unit columns between the left and right edge; negative
    /// when the edges are crossed.
    pub open spec fn width(self) -> int {
        self.max.x - self.min.x
    }

    /// Number of unit rows between the top and bottom edge; negative when
    /// the edges are crossed.
    pub open spec fn height(self) -> int {
        self.max.y - self.min.y
    }

    /// Whether the unit at `p` belongs to the rectangle.
    pub open spec fn spec_contains(&self, p: Point) -> bool {
        &&& self.min.x <= p.x < self.max.x
        &&& self.min.y <= p.y < self.max.y
    }

    /// Whether the rectangle covers no unit at all.
    pub open spec fn spec_is_empty(&self) -> bool {
        self.max.x <= self.min.x || self.max.y <= self.min.y
    }

    /// Whether every unit of `self` is also a unit of `outer`.
    pub open spec fn within(self, outer: Rect) -> bool {
        forall|p: Point| self.spec_contains(p) ==> outer.spec_contains(p)
    }

    /// Whether the two rectangles share no unit.
    pub open spec fn disjoint(self, other: Rect) -> bool {
        forall|p: Point| !(self.spec_contains(p) && other.spec_contains(p))
    }

    /// The strip of `height` rows along the top edge. The strip keeps the
    /// left, top and right edge; its bottom edge stops at the end of the
    /// coordinate space.
    pub open spec fn spec_top_strip(&self, height: u32) -> Rect {
        Rect {
            min: self.min,
            max: Point { x: self.max.x, y: clamp_coord(self.min.y + height) as i32 },
        }
    }

    /// The unit in the middle, rounded towards the top-left.
    pub open spec fn spec_center(&self) -> Point {
        Point {
            x: ((self.min.x + self.max.x) / 2) as i32,
            y: ((self.min.y + self.max.y) / 2) as i32,
        }
    }

    #[verifier::when_used_as_spec(spec_contains)]
    pub fn contains(&self, p: Point) -> (hit: bool)
        ensures
            hit == self.spec_contains(p),
    {
        self.min.x <= p.x && p.x < self.max.x && self.min.y <= p.y && p.y < self.max.y
    }

    #[verifier::when_used_as_spec(spec_is_empty)]
    pub fn is_empty(&self) -> (empty: bool)
        ensures
            empty == self.spec_is_empty(),
            empty <==> forall|p: Point| !self.spec_contains(p),
    {
        let empty = self.max.x <= self.min.x || self.max.y <= self.min.y;
        proof {
            if !empty {
                assert(self.spec_contains(self.min));
            }
        }
        empty
    }

    #[verifier::when_used_as_spec(spec_top_strip)]
    pub fn top_strip(&self, height: u32) -> (strip: Rect)
        ensures
            strip == self.spec_top_strip(height),
            strip.min == self.min,
            strip.max.x == self.max.x,
            self.min.y + height <= i32::MAX ==> strip.height() == height,
            height <= self.height() ==> strip.height() == height && strip.within(*self),
    {
        let bottom = clamp_to_coord(self.min.y as i64 + height as i64);
        Rect { min: self.min, max: Point { x: self.max.x, y: bottom } }
    }

    #[verifier::when_used_as_spec(spec_center)]
    pub fn center(&self) -> (c: Point)
        ensures
            c == self.spec_center(),
            !self.spec_is_empty() ==> self.spec_contains(c),
    {
        Point { x: midpoint(self.min.x, self.max.x), y: midpoint(self.min.y, self.max.y) }
    }
}

/// The whole number halfway between `a` and `b`, rounded down.
pub fn midpoint(a: i32, b: i32) -> (m: i32)
    ensures
        m == (a + b) / 2,
{
    let shifted: u64 = ((a as i64 - i32::MIN as i64) + (b as i64 - i32::MIN as i64)) as u64;
    (((shifted / 2) as i64) + i32::MIN as i64) as i32
}

} // verus!
