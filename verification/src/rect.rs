//! Axis-aligned rectangles, stored as two corner points.

use vstd::prelude::*;
use crate::vector2::Vec2;
use crate::vector2::fits_i32;

verus! {

/// An axis-aligned rectangle spanning `p1` (one corner) to `p2` (the
/// opposite corner). Most uses keep `p1` as the top-left corner.
#[derive(Clone, Copy, Debug, PartialEq, Eq, Structural)]
pub struct Rect<T> {
    pub p1: Vec2<T>,
    pub p2: Vec2<T>,
}

impl<T> Rect<T> {
    pub fn new(p1: Vec2<T>, p2: Vec2<T>) -> (r: Self)
        ensures
            r == (Rect { p1, p2 }),
    {
        Rect { p1, p2 }
    }
}

impl Default for Rect<i32> {
    /// The degenerate rectangle at the origin.
    fn default() -> (r: Self)
        ensures
            r.p1.x == 0 && r.p1.y == 0 && r.p2.x == 0 && r.p2.y == 0,
    {
        Rect { p1: Vec2 { x: 0, y: 0 }, p2: Vec2 { x: 0, y: 0 } }
    }
}

impl Rect<i32> {
    /// True when the whole segment from `position` to `position2` lies in the
    /// rectangle; the rectangle's own border counts as inside.
    pub fn is_line_segment_inside(&self, position: Vec2<i32>, position2: Vec2<i32>) -> (r: bool)
        ensures
            r == (self.p1.x <= position.x <= self.p2.x && self.p1.y <= position.y <= self.p2.y
                && self.p1.x <= position2.x <= self.p2.x && self.p1.y <= position2.y
                <= self.p2.y),
    {
        position.x >= self.p1.x && position.x <= self.p2.x && position.y >= self.p1.y && position.y
            <= self.p2.y && position2.x >= self.p1.x && position2.x <= self.p2.x && position2.y
            >= self.p1.y && position2.y <= self.p2.y
    }
}

impl From<Rect<i32>> for Rect<i64> {
    fn from(value: Rect<i32>) -> (r: Self) {
        Rect {
            p1: Vec2 { x: value.p1.x as i64, y: value.p1.y as i64 },
            p2: Vec2 { x: value.p2.x as i64, y: value.p2.y as i64 },
        }
    }
}

impl vstd::std_specs::convert::FromSpecImpl<Rect<i32>> for Rect<i64> {
    open spec fn obeys_from_spec() -> bool {
        true
    }

    open spec fn from_spec(value: Rect<i32>) -> Self {
        Rect {
            p1: Vec2 { x: value.p1.x as i64, y: value.p1.y as i64 },
            p2: Vec2 { x: value.p2.x as i64, y: value.p2.y as i64 },
        }
    }
}

impl TryFrom<Rect<i64>> for Rect<i32> {
    type Error = ();

    /// Fails when a coordinate lies outside the `i32` range.
    fn try_from(value: Rect<i64>) -> (r: Result<Self, ()>) {
        if value.p1.x < i32::MIN as i64 || value.p1.x > i32::MAX as i64 || value.p1.y
            < i32::MIN as i64 || value.p1.y > i32::MAX as i64 || value.p2.x < i32::MIN as i64
            || value.p2.x > i32::MAX as i64 || value.p2.y < i32::MIN as i64 || value.p2.y
            > i32::MAX as i64 {
            Err(())
        } else {
            Ok(
                Rect {
                    p1: Vec2 { x: value.p1.x as i32, y: value.p1.y as i32 },
                    p2: Vec2 { x: value.p2.x as i32, y: value.p2.y as i32 },
                },
            )
        }
    }
}

impl vstd::std_specs::convert::TryFromSpecImpl<Rect<i64>> for Rect<i32> {
    open spec fn obeys_try_from_spec() -> bool {
        true
    }

    open spec fn try_from_spec(value: Rect<i64>) -> Result<Self, ()> {
        if fits_i32(value.p1.x as int) && fits_i32(value.p1.y as int) && fits_i32(value.p2.x as int)
            && fits_i32(value.p2.y as int) {
            Ok(
                Rect {
                    p1: Vec2 { x: value.p1.x as i32, y: value.p1.y as i32 },
                    p2: Vec2 { x: value.p2.x as i32, y: value.p2.y as i32 },
                },
            )
        } else {
            Err(())
        }
    }
}

/// Position tests of a point against a rectangle.
pub trait PointGeometry<T> {
    /// True when `self` lies in `rect`, border included.
    fn is_inside_box(self, rect: Rect<T>) -> bool;
}

impl PointGeometry<i32> for Vec2<i32> {
    fn is_inside_box(self, rect: Rect<i32>) -> (r: bool)
        ensures
            r == (rect.p1.x <= self.x <= rect.p2.x && rect.p1.y <= self.y <= rect.p2.y),
    {
        rect.p1.x <= self.x && rect.p1.y <= self.y && self.x <= rect.p2.x && self.y <= rect.p2.y
    }
}

} // verus!
