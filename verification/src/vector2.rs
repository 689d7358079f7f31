//! Two-component vectors: points, displacements and sizes in the plane.

use vstd::prelude::*;

verus! {

/// True when a mathematical integer fits in `i32`.
pub open spec fn fits_i32(v: int) -> bool {
    i32::MIN <= v <= i32::MAX
}

/// A point or displacement in the plane.
#[derive(Clone, Copy, Debug, PartialEq, Eq, Structural)]
pub struct Vec2<T> {
    pub x: T,
    pub y: T,
}

impl<T> Vec2<T> {
    pub fn new(x: T, y: T) -> (r: Self)
        ensures
            r == (Vec2 { x, y }),
    {
        Vec2 { x, y }
    }

    /// Component count of this vector kind.
    pub fn len(&self) -> (r: usize)
        ensures
            r == 2,
    {
        2
    }
}

impl<T: Copy> Vec2<T> {
    /// Component by position: `0` is `x`, `1` is `y`.
    pub fn get(&self, index: usize) -> (r: T)
        requires
            index < 2,
        ensures
            r == (if index == 0 { self.x } else { self.y }),
    {
        if index == 0 {
            self.x
        } else {
            self.y
        }
    }

    /// The components as a pair, `x` first.
    pub fn into(self) -> (r: (T, T))
        ensures
            r.0 == self.x,
            r.1 == self.y,
    {
        (self.x, self.y)
    }

    /// Consuming component iterator; yields `x`, then `y`.
    pub fn into_iter(self) -> (r: IntoIter<T>)
        ensures
            r.vector == self,
            r.index == 0,
    {
        IntoIter { vector: self, index: 0 }
    }
}

/// Yields the components of a [`Vec2`] in order.
pub struct IntoIter<T> {
    pub vector: Vec2<T>,
    pub index: usize,
}

impl<T: Copy> IntoIter<T> {
    pub fn next(&mut self) -> (r: Option<T>)
        ensures
            old(self).index == 0 ==> r == Some(old(self).vector.x) && final(self).index == 1,
            old(self).index == 1 ==> r == Some(old(self).vector.y) && final(self).index == 2,
            old(self).index >= 2 ==> r is None && final(self).index == old(self).index,
            final(self).vector == old(self).vector,
    {
        if self.index == 0 {
            self.index = 1;
            Some(self.vector.x)
        } else if self.index == 1 {
            self.index = 2;
            Some(self.vector.y)
        } else {
            None
        }
    }
}

impl Vec2<i32> {
    /// Componentwise absolute value.
    pub fn abs(self) -> (r: Self)
        requires
            self.x != i32::MIN,
            self.y != i32::MIN,
        ensures
            r.x == (if self.x < 0 { -self.x } else { self.x as int }),
            r.y == (if self.y < 0 { -self.y } else { self.y as int }),
    {
        Vec2 {
            x: if self.x < 0 { -self.x } else { self.x },
            y: if self.y < 0 { -self.y } else { self.y },
        }
    }

    /// Dot product.
    pub fn dot(self, v: Self) -> (r: i32)
        requires
            fits_i32(self.x * v.x),
            fits_i32(self.y * v.y),
            fits_i32(self.x * v.x + self.y * v.y),
        ensures
            r == self.x * v.x + self.y * v.y,
    {
        self.x * v.x + self.y * v.y
    }

    /// Squared Euclidean length.
    pub fn sqr_length(&self) -> (r: i32)
        requires
            fits_i32(self.x * self.x),
            fits_i32(self.y * self.y),
            fits_i32(self.x * self.x + self.y * self.y),
        ensures
            r == self.x * self.x + self.y * self.y,
    {
        self.x * self.x + self.y * self.y
    }
}

impl core::ops::Add for Vec2<i32> {
    type Output = Vec2<i32>;

    fn add(self, rhs: Self) -> (r: Self) {
        Vec2 { x: self.x + rhs.x, y: self.y + rhs.y }
    }
}

impl vstd::std_specs::ops::AddSpecImpl for Vec2<i32> {
    open spec fn obeys_add_spec() -> bool {
        true
    }

    open spec fn add_req(self, rhs: Self) -> bool {
        fits_i32(self.x + rhs.x) && fits_i32(self.y + rhs.y)
    }

    open spec fn add_spec(self, rhs: Self) -> Self {
        Vec2 { x: (self.x + rhs.x) as i32, y: (self.y + rhs.y) as i32 }
    }
}

impl core::ops::Add<i32> for Vec2<i32> {
    type Output = Vec2<i32>;

    fn add(self, rhs: i32) -> (r: Self) {
        Vec2 { x: self.x + rhs, y: self.y + rhs }
    }
}

impl vstd::std_specs::ops::AddSpecImpl<i32> for Vec2<i32> {
    open spec fn obeys_add_spec() -> bool {
        true
    }

    open spec fn add_req(self, rhs: i32) -> bool {
        fits_i32(self.x + rhs) && fits_i32(self.y + rhs)
    }

    open spec fn add_spec(self, rhs: i32) -> Self {
        Vec2 { x: (self.x + rhs) as i32, y: (self.y + rhs) as i32 }
    }
}

impl core::ops::Add<Vec2<i32>> for i32 {
    type Output = Vec2<i32>;

    fn add(self, rhs: Vec2<i32>) -> (r: Vec2<i32>) {
        Vec2 { x: self + rhs.x, y: self + rhs.y }
    }
}

impl vstd::std_specs::ops::AddSpecImpl<Vec2<i32>> for i32 {
    open spec fn obeys_add_spec() -> bool {
        true
    }

    open spec fn add_req(self, rhs: Vec2<i32>) -> bool {
        fits_i32(self + rhs.x) && fits_i32(self + rhs.y)
    }

    open spec fn add_spec(self, rhs: Vec2<i32>) -> Vec2<i32> {
        Vec2 { x: (self + rhs.x) as i32, y: (self + rhs.y) as i32 }
    }
}

impl core::ops::Sub for Vec2<i32> {
    type Output = Vec2<i32>;

    fn sub(self, rhs: Self) -> (r: Self) {
        Vec2 { x: self.x - rhs.x, y: self.y - rhs.y }
    }
}

impl vstd::std_specs::ops::SubSpecImpl for Vec2<i32> {
    open spec fn obeys_sub_spec() -> bool {
        true
    }

    open spec fn sub_req(self, rhs: Self) -> bool {
        fits_i32(self.x - rhs.x) && fits_i32(self.y - rhs.y)
    }

    open spec fn sub_spec(self, rhs: Self) -> Self {
        Vec2 { x: (self.x - rhs.x) as i32, y: (self.y - rhs.y) as i32 }
    }
}

impl core::ops::Sub<i32> for Vec2<i32> {
    type Output = Vec2<i32>;

    fn sub(self, rhs: i32) -> (r: Self) {
        Vec2 { x: self.x - rhs, y: self.y - rhs }
    }
}

impl vstd::std_specs::ops::SubSpecImpl<i32> for Vec2<i32> {
    open spec fn obeys_sub_spec() -> bool {
        true
    }

    open spec fn sub_req(self, rhs: i32) -> bool {
        fits_i32(self.x - rhs) && fits_i32(self.y - rhs)
    }

    open spec fn sub_spec(self, rhs: i32) -> Self {
        Vec2 { x: (self.x - rhs) as i32, y: (self.y - rhs) as i32 }
    }
}

impl core::ops::Mul<i32> for Vec2<i32> {
    type Output = Vec2<i32>;

    fn mul(self, rhs: i32) -> (r: Self) {
        Vec2 { x: self.x * rhs, y: self.y * rhs }
    }
}

impl vstd::std_specs::ops::MulSpecImpl<i32> for Vec2<i32> {
    open spec fn obeys_mul_spec() -> bool {
        true
    }

    open spec fn mul_req(self, rhs: i32) -> bool {
        fits_i32(self.x * rhs) && fits_i32(self.y * rhs)
    }

    open spec fn mul_spec(self, rhs: i32) -> Self {
        Vec2 { x: (self.x * rhs) as i32, y: (self.y * rhs) as i32 }
    }
}

impl core::ops::Mul<Vec2<i32>> for i32 {
    type Output = Vec2<i32>;

    fn mul(self, rhs: Vec2<i32>) -> (r: Vec2<i32>) {
        Vec2 { x: self * rhs.x, y: self * rhs.y }
    }
}

impl vstd::std_specs::ops::MulSpecImpl<Vec2<i32>> for i32 {
    open spec fn obeys_mul_spec() -> bool {
        true
    }

    open spec fn mul_req(self, rhs: Vec2<i32>) -> bool {
        fits_i32(self * rhs.x) && fits_i32(self * rhs.y)
    }

    open spec fn mul_spec(self, rhs: Vec2<i32>) -> Vec2<i32> {
        Vec2 { x: (self * rhs.x) as i32, y: (self * rhs.y) as i32 }
    }
}

impl core::ops::Div<i32> for Vec2<i32> {
    type Output = Vec2<i32>;

    fn div(self, rhs: i32) -> (r: Self) {
        Vec2 { x: self.x / rhs, y: self.y / rhs }
    }
}

impl vstd::std_specs::ops::DivSpecImpl<i32> for Vec2<i32> {
    open spec fn obeys_div_spec() -> bool {
        true
    }

    open spec fn div_req(self, rhs: i32) -> bool {
        rhs != 0 && !(self.x == i32::MIN && rhs == -1) && !(self.y == i32::MIN && rhs == -1)
    }

    open spec fn div_spec(self, rhs: i32) -> Self {
        Vec2 {
            x: (if self.x >= 0 {
                (self.x / rhs) as i32
            } else {
                (-((-self.x) / (rhs as int))) as i32
            }),
            y: (if self.y >= 0 {
                (self.y / rhs) as i32
            } else {
                (-((-self.y) / (rhs as int))) as i32
            }),
        }
    }
}

impl core::ops::Rem<i32> for Vec2<i32> {
    type Output = Vec2<i32>;

    fn rem(self, rhs: i32) -> (r: Self) {
        Vec2 { x: self.x % rhs, y: self.y % rhs }
    }
}

impl vstd::std_specs::ops::RemSpecImpl<i32> for Vec2<i32> {
    open spec fn obeys_rem_spec() -> bool {
        true
    }

    open spec fn rem_req(self, rhs: i32) -> bool {
        rhs != 0 && !(self.x == i32::MIN && rhs == -1) && !(self.y == i32::MIN && rhs == -1)
    }

    open spec fn rem_spec(self, rhs: i32) -> Self {
        Vec2 {
            x: (if self.x >= 0 {
                (self.x % rhs) as i32
            } else {
                (-((-self.x) % (rhs as int))) as i32
            }),
            y: (if self.y >= 0 {
                (self.y % rhs) as i32
            } else {
                (-((-self.y) % (rhs as int))) as i32
            }),
        }
    }
}

impl core::ops::Neg for Vec2<i32> {
    type Output = Vec2<i32>;

    fn neg(self) -> (r: Self) {
        Vec2 { x: -self.x, y: -self.y }
    }
}

impl vstd::std_specs::ops::NegSpecImpl for Vec2<i32> {
    open spec fn obeys_neg_spec() -> bool {
        true
    }

    open spec fn neg_req(self) -> bool {
        self.x != i32::MIN && self.y != i32::MIN
    }

    open spec fn neg_spec(self) -> Self {
        Vec2 { x: (-self.x) as i32, y: (-self.y) as i32 }
    }
}

impl From<i32> for Vec2<i32> {
    /// Fills both components with the given value.
    fn from(value: i32) -> (r: Self) {
        Vec2 { x: value, y: value }
    }
}

impl vstd::std_specs::convert::FromSpecImpl<i32> for Vec2<i32> {
    open spec fn obeys_from_spec() -> bool {
        true
    }

    open spec fn from_spec(value: i32) -> Self {
        Vec2 { x: value, y: value }
    }
}

impl From<Vec2<i8>> for Vec2<i32> {
    fn from(value: Vec2<i8>) -> (r: Self) {
        Vec2 { x: value.x as i32, y: value.y as i32 }
    }
}

impl vstd::std_specs::convert::FromSpecImpl<Vec2<i8>> for Vec2<i32> {
    open spec fn obeys_from_spec() -> bool {
        true
    }

    open spec fn from_spec(value: Vec2<i8>) -> Self {
        Vec2 { x: value.x as i32, y: value.y as i32 }
    }
}

impl From<(i32, i32)> for Vec2<i32> {
    fn from(value: (i32, i32)) -> (r: Self) {
        Vec2 { x: value.0, y: value.1 }
    }
}

impl vstd::std_specs::convert::FromSpecImpl<(i32, i32)> for Vec2<i32> {
    open spec fn obeys_from_spec() -> bool {
        true
    }

    open spec fn from_spec(value: (i32, i32)) -> Self {
        Vec2 { x: value.0, y: value.1 }
    }
}

impl From<[i32; 2]> for Vec2<i32> {
    fn from(value: [i32; 2]) -> (r: Self) {
        Vec2 { x: value[0], y: value[1] }
    }
}

impl vstd::std_specs::convert::FromSpecImpl<[i32; 2]> for Vec2<i32> {
    open spec fn obeys_from_spec() -> bool {
        true
    }

    open spec fn from_spec(value: [i32; 2]) -> Self {
        Vec2 { x: value[0], y: value[1] }
    }
}

impl From<&[i32]> for Vec2<i32> {
    /// Reads the first two elements; missing elements are taken as zero.
    fn from(value: &[i32]) -> (r: Self) {
        let x: i32 = if value.len() >= 1 {
            value[0]
        } else {
            0
        };
        let y: i32 = if value.len() >= 2 {
            value[1]
        } else {
            0
        };
        Vec2 { x, y }
    }
}

impl vstd::std_specs::convert::FromSpecImpl<&[i32]> for Vec2<i32> {
    open spec fn obeys_from_spec() -> bool {
        true
    }

    open spec fn from_spec(value: &[i32]) -> Self {
        Vec2 {
            x: (if value@.len() >= 1 { value@[0] } else { 0i32 }),
            y: (if value@.len() >= 2 { value@[1] } else { 0i32 }),
        }
    }
}

impl TryFrom<Vec2<i64>> for Vec2<i32> {
    type Error = ();

    /// Fails when either component lies outside the `i32` range.
    fn try_from(value: Vec2<i64>) -> (r: Result<Self, ()>) {
        if value.x < i32::MIN as i64 || value.x > i32::MAX as i64 || value.y < i32::MIN as i64
            || value.y > i32::MAX as i64 {
            Err(())
        } else {
            Ok(Vec2 { x: value.x as i32, y: value.y as i32 })
        }
    }
}

impl vstd::std_specs::convert::TryFromSpecImpl<Vec2<i64>> for Vec2<i32> {
    open spec fn obeys_try_from_spec() -> bool {
        true
    }

    open spec fn try_from_spec(value: Vec2<i64>) -> Result<Self, ()> {
        if fits_i32(value.x as int) && fits_i32(value.y as int) {
            Ok(Vec2 { x: value.x as i32, y: value.y as i32 })
        } else {
            Err(())
        }
    }
}

impl TryFrom<Vec2<i32>> for Vec2<u8> {
    type Error = ();

    /// Fails when either component lies outside the `u8` range.
    fn try_from(value: Vec2<i32>) -> (r: Result<Self, ()>) {
        if value.x < 0 || value.x > u8::MAX as i32 || value.y < 0 || value.y > u8::MAX as i32 {
            Err(())
        } else {
            Ok(Vec2 { x: value.x as u8, y: value.y as u8 })
        }
    }
}

impl vstd::std_specs::convert::TryFromSpecImpl<Vec2<i32>> for Vec2<u8> {
    open spec fn obeys_try_from_spec() -> bool {
        true
    }

    open spec fn try_from_spec(value: Vec2<i32>) -> Result<Self, ()> {
        if 0 <= value.x <= u8::MAX && 0 <= value.y <= u8::MAX {
            Ok(Vec2 { x: value.x as u8, y: value.y as u8 })
        } else {
            Err(())
        }
    }
}

} // verus!
