//! Three-component vectors.

use vstd::prelude::*;
use crate::vector2::Vec2;
use crate::vector2::fits_i32;

verus! {

/// A point or displacement in three dimensions.
#[derive(Clone, Copy, Debug, PartialEq, Eq, Structural)]
pub struct Vec3<T> {
    pub x: T,
    pub y: T,
    pub z: T,
}

impl<T> Vec3<T> {
    pub fn new(x: T, y: T, z: T) -> (r: Self)
        ensures
            r == (Vec3 { x, y, z }),
    {
        Vec3 { x, y, z }
    }

    /// Component count of this vector kind.
    pub fn len(&self) -> (r: usize)
        ensures
            r == 3,
    {
        3
    }
}

impl<T: Copy> Vec3<T> {
    /// Component by position: `0` is `x`, `1` is `y`, `2` is `z`.
    pub fn get(&self, index: usize) -> (r: T)
        requires
            index < 3,
        ensures
            r == (if index == 0 {
                self.x
            } else if index == 1 {
                self.y
            } else {
                self.z
            }),
    {
        if index == 0 {
            self.x
        } else if index == 1 {
            self.y
        } else {
            self.z
        }
    }

    pub fn xy(self) -> (r: Vec2<T>)
        ensures
            r == (Vec2 { x: self.x, y: self.y }),
    {
        Vec2 { x: self.x, y: self.y }
    }

    pub fn xz(self) -> (r: Vec2<T>)
        ensures
            r == (Vec2 { x: self.x, y: self.z }),
    {
        Vec2 { x: self.x, y: self.z }
    }

    pub fn yz(self) -> (r: Vec2<T>)
        ensures
            r == (Vec2 { x: self.y, y: self.z }),
    {
        Vec2 { x: self.y, y: self.z }
    }

    /// Consuming component iterator; yields `x`, `y`, then `z`.
    pub fn into_iter(self) -> (r: IntoIter<T>)
        ensures
            r.vector == self,
            r.index == 0,
    {
        IntoIter { vector: self, index: 0 }
    }
}

/// Yields the components of a [`Vec3`] in order.
pub struct IntoIter<T> {
    pub vector: Vec3<T>,
    pub index: usize,
}

impl<T: Copy> IntoIter<T> {
    pub fn next(&mut self) -> (r: Option<T>)
        ensures
            old(self).index == 0 ==> r == Some(old(self).vector.x) && final(self).index == 1,
            old(self).index == 1 ==> r == Some(old(self).vector.y) && final(self).index == 2,
            old(self).index == 2 ==> r == Some(old(self).vector.z) && final(self).index == 3,
            old(self).index >= 3 ==> r is None && final(self).index == old(self).index,
            final(self).vector == old(self).vector,
    {
        if self.index == 0 {
            self.index = 1;
            Some(self.vector.x)
        } else if self.index == 1 {
            self.index = 2;
            Some(self.vector.y)
        } else if self.index == 2 {
            self.index = 3;
            Some(self.vector.z)
        } else {
            None
        }
    }
}

impl Vec3<i32> {
    /// Cross product. Note the sign convention of the middle component:
    /// it is not negated here.
    pub fn cross(self, vector: Self) -> (r: Self)
        requires
            fits_i32(self.y * vector.z - self.z * vector.y),
            fits_i32(self.x * vector.z - self.z * vector.x),
            fits_i32(self.x * vector.y - self.y * vector.x),
            fits_i32(self.y * vector.z),
            fits_i32(self.z * vector.y),
            fits_i32(self.x * vector.z),
            fits_i32(self.z * vector.x),
            fits_i32(self.x * vector.y),
            fits_i32(self.y * vector.x),
        ensures
            r.x == self.y * vector.z - self.z * vector.y,
            r.y == self.x * vector.z - self.z * vector.x,
            r.z == self.x * vector.y - self.y * vector.x,
    {
        Vec3 {
            x: self.y * vector.z - self.z * vector.y,
            y: self.x * vector.z - self.z * vector.x,
            z: self.x * vector.y - self.y * vector.x,
        }
    }
}

impl core::ops::Add for Vec3<i32> {
    type Output = Vec3<i32>;

    fn add(self, rhs: Self) -> (r: Self) {
        Vec3 { x: self.x + rhs.x, y: self.y + rhs.y, z: self.z + rhs.z }
    }
}

impl vstd::std_specs::ops::AddSpecImpl for Vec3<i32> {
    open spec fn obeys_add_spec() -> bool {
        true
    }

    open spec fn add_req(self, rhs: Self) -> bool {
        fits_i32(self.x + rhs.x) && fits_i32(self.y + rhs.y) && fits_i32(self.z + rhs.z)
    }

    open spec fn add_spec(self, rhs: Self) -> Self {
        Vec3 { x: (self.x + rhs.x) as i32, y: (self.y + rhs.y) as i32, z: (self.z + rhs.z) as i32 }
    }
}

impl core::ops::Add<i32> for Vec3<i32> {
    type Output = Vec3<i32>;

    fn add(self, rhs: i32) -> (r: Self) {
        Vec3 { x: self.x + rhs, y: self.y + rhs, z: self.z + rhs }
    }
}

impl vstd::std_specs::ops::AddSpecImpl<i32> for Vec3<i32> {
    open spec fn obeys_add_spec() -> bool {
        true
    }

    open spec fn add_req(self, rhs: i32) -> bool {
        fits_i32(self.x + rhs) && fits_i32(self.y + rhs) && fits_i32(self.z + rhs)
    }

    open spec fn add_spec(self, rhs: i32) -> Self {
        Vec3 { x: (self.x + rhs) as i32, y: (self.y + rhs) as i32, z: (self.z + rhs) as i32 }
    }
}

impl core::ops::Add<Vec3<i32>> for i32 {
    type Output = Vec3<i32>;

    fn add(self, rhs: Vec3<i32>) -> (r: Vec3<i32>) {
        Vec3 { x: self + rhs.x, y: self + rhs.y, z: self + rhs.z }
    }
}

impl vstd::std_specs::ops::AddSpecImpl<Vec3<i32>> for i32 {
    open spec fn obeys_add_spec() -> bool {
        true
    }

    open spec fn add_req(self, rhs: Vec3<i32>) -> bool {
        fits_i32(self + rhs.x) && fits_i32(self + rhs.y) && fits_i32(self + rhs.z)
    }

    open spec fn add_spec(self, rhs: Vec3<i32>) -> Vec3<i32> {
        Vec3 { x: (self + rhs.x) as i32, y: (self + rhs.y) as i32, z: (self + rhs.z) as i32 }
    }
}

impl core::ops::Sub for Vec3<i32> {
    type Output = Vec3<i32>;

    fn sub(self, rhs: Self) -> (r: Self) {
        Vec3 { x: self.x - rhs.x, y: self.y - rhs.y, z: self.z - rhs.z }
    }
}

impl vstd::std_specs::ops::SubSpecImpl for Vec3<i32> {
    open spec fn obeys_sub_spec() -> bool {
        true
    }

    open spec fn sub_req(self, rhs: Self) -> bool {
        fits_i32(self.x - rhs.x) && fits_i32(self.y - rhs.y) && fits_i32(self.z - rhs.z)
    }

    open spec fn sub_spec(self, rhs: Self) -> Self {
        Vec3 { x: (self.x - rhs.x) as i32, y: (self.y - rhs.y) as i32, z: (self.z - rhs.z) as i32 }
    }
}

impl core::ops::Sub<i32> for Vec3<i32> {
    type Output = Vec3<i32>;

    fn sub(self, rhs: i32) -> (r: Self) {
        Vec3 { x: self.x - rhs, y: self.y - rhs, z: self.z - rhs }
    }
}

impl vstd::std_specs::ops::SubSpecImpl<i32> for Vec3<i32> {
    open spec fn obeys_sub_spec() -> bool {
        true
    }

    open spec fn sub_req(self, rhs: i32) -> bool {
        fits_i32(self.x - rhs) && fits_i32(self.y - rhs) && fits_i32(self.z - rhs)
    }

    open spec fn sub_spec(self, rhs: i32) -> Self {
        Vec3 { x: (self.x - rhs) as i32, y: (self.y - rhs) as i32, z: (self.z - rhs) as i32 }
    }
}

impl core::ops::Mul<i32> for Vec3<i32> {
    type Output = Vec3<i32>;

    fn mul(self, rhs: i32) -> (r: Self) {
        Vec3 { x: self.x * rhs, y: self.y * rhs, z: self.z * rhs }
    }
}

impl vstd::std_specs::ops::MulSpecImpl<i32> for Vec3<i32> {
    open spec fn obeys_mul_spec() -> bool {
        true
    }

    open spec fn mul_req(self, rhs: i32) -> bool {
        fits_i32(self.x * rhs) && fits_i32(self.y * rhs) && fits_i32(self.z * rhs)
    }

    open spec fn mul_spec(self, rhs: i32) -> Self {
        Vec3 { x: (self.x * rhs) as i32, y: (self.y * rhs) as i32, z: (self.z * rhs) as i32 }
    }
}

impl core::ops::Mul<Vec3<i32>> for i32 {
    type Output = Vec3<i32>;

    fn mul(self, rhs: Vec3<i32>) -> (r: Vec3<i32>) {
        Vec3 { x: self * rhs.x, y: self * rhs.y, z: self * rhs.z }
    }
}

impl vstd::std_specs::ops::MulSpecImpl<Vec3<i32>> for i32 {
    open spec fn obeys_mul_spec() -> bool {
        true
    }

    open spec fn mul_req(self, rhs: Vec3<i32>) -> bool {
        fits_i32(self * rhs.x) && fits_i32(self * rhs.y) && fits_i32(self * rhs.z)
    }

    open spec fn mul_spec(self, rhs: Vec3<i32>) -> Vec3<i32> {
        Vec3 { x: (self * rhs.x) as i32, y: (self * rhs.y) as i32, z: (self * rhs.z) as i32 }
    }
}

impl core::ops::Div<i32> for Vec3<i32> {
    type Output = Vec3<i32>;

    fn div(self, rhs: i32) -> (r: Self) {
        Vec3 { x: self.x / rhs, y: self.y / rhs, z: self.z / rhs }
    }
}

impl vstd::std_specs::ops::DivSpecImpl<i32> for Vec3<i32> {
    open spec fn obeys_div_spec() -> bool {
        true
    }

    open spec fn div_req(self, rhs: i32) -> bool {
        rhs != 0 && !(self.x == i32::MIN && rhs == -1) && !(self.y == i32::MIN && rhs == -1) && !(
        self.z == i32::MIN && rhs == -1)
    }

    open spec fn div_spec(self, rhs: i32) -> Self {
        Vec3 {
            x: (if self.x >= 0 {
                (self.x / rhs) as i32
            } else {
                (-((-self.x) / (rhs as int))) as i32
            }),
            y: (if self.y >= 0 {
                (self.y / rhs) as i32
            } else {
                (-((-self.y) / (rhs as int))) as i32
            }),
            z: (if self.z >= 0 {
                (self.z / rhs) as i32
            } else {
                (-((-self.z) / (rhs as int))) as i32
            }),
        }
    }
}

impl core::ops::Rem<i32> for Vec3<i32> {
    type Output = Vec3<i32>;

    fn rem(self, rhs: i32) -> (r: Self) {
        Vec3 { x: self.x % rhs, y: self.y % rhs, z: self.z % rhs }
    }
}

impl vstd::std_specs::ops::RemSpecImpl<i32> for Vec3<i32> {
    open spec fn obeys_rem_spec() -> bool {
        true
    }

    open spec fn rem_req(self, rhs: i32) -> bool {
        rhs != 0 && !(self.x == i32::MIN && rhs == -1) && !(self.y == i32::MIN && rhs == -1) && !(
        self.z == i32::MIN && rhs == -1)
    }

    open spec fn rem_spec(self, rhs: i32) -> Self {
        Vec3 {
            x: (if self.x >= 0 {
                (self.x % rhs) as i32
            } else {
                (-((-self.x) % (rhs as int))) as i32
            }),
            y: (if self.y >= 0 {
                (self.y % rhs) as i32
            } else {
                (-((-self.y) % (rhs as int))) as i32
            }),
            z: (if self.z >= 0 {
                (self.z % rhs) as i32
            } else {
                (-((-self.z) % (rhs as int))) as i32
            }),
        }
    }
}

impl core::ops::Neg for Vec3<i32> {
    type Output = Vec3<i32>;

    fn neg(self) -> (r: Self) {
        Vec3 { x: -self.x, y: -self.y, z: -self.z }
    }
}

impl vstd::std_specs::ops::NegSpecImpl for Vec3<i32> {
    open spec fn obeys_neg_spec() -> bool {
        true
    }

    open spec fn neg_req(self) -> bool {
        self.x != i32::MIN && self.y != i32::MIN && self.z != i32::MIN
    }

    open spec fn neg_spec(self) -> Self {
        Vec3 { x: (-self.x) as i32, y: (-self.y) as i32, z: (-self.z) as i32 }
    }
}

impl From<i32> for Vec3<i32> {
    /// Fills all components with the given value.
    fn from(value: i32) -> (r: Self) {
        Vec3 { x: value, y: value, z: value }
    }
}

impl vstd::std_specs::convert::FromSpecImpl<i32> for Vec3<i32> {
    open spec fn obeys_from_spec() -> bool {
        true
    }

    open spec fn from_spec(value: i32) -> Self {
        Vec3 { x: value, y: value, z: value }
    }
}

impl From<Vec3<i8>> for Vec3<i32> {
    fn from(value: Vec3<i8>) -> (r: Self) {
        Vec3 { x: value.x as i32, y: value.y as i32, z: value.z as i32 }
    }
}

impl vstd::std_specs::convert::FromSpecImpl<Vec3<i8>> for Vec3<i32> {
    open spec fn obeys_from_spec() -> bool {
        true
    }

    open spec fn from_spec(value: Vec3<i8>) -> Self {
        Vec3 { x: value.x as i32, y: value.y as i32, z: value.z as i32 }
    }
}

impl From<(i32, i32, i32)> for Vec3<i32> {
    fn from(value: (i32, i32, i32)) -> (r: Self) {
        Vec3 { x: value.0, y: value.1, z: value.2 }
    }
}

impl vstd::std_specs::convert::FromSpecImpl<(i32, i32, i32)> for Vec3<i32> {
    open spec fn obeys_from_spec() -> bool {
        true
    }

    open spec fn from_spec(value: (i32, i32, i32)) -> Self {
        Vec3 { x: value.0, y: value.1, z: value.2 }
    }
}

impl From<Vec3<i32>> for (i32, i32, i32) {
    fn from(value: Vec3<i32>) -> (r: Self) {
        (value.x, value.y, value.z)
    }
}

impl vstd::std_specs::convert::FromSpecImpl<Vec3<i32>> for (i32, i32, i32) {
    open spec fn obeys_from_spec() -> bool {
        true
    }

    open spec fn from_spec(value: Vec3<i32>) -> Self {
        (value.x, value.y, value.z)
    }
}

impl From<[i32; 3]> for Vec3<i32> {
    fn from(value: [i32; 3]) -> (r: Self) {
        Vec3 { x: value[0], y: value[1], z: value[2] }
    }
}

impl vstd::std_specs::convert::FromSpecImpl<[i32; 3]> for Vec3<i32> {
    open spec fn obeys_from_spec() -> bool {
        true
    }

    open spec fn from_spec(value: [i32; 3]) -> Self {
        Vec3 { x: value[0], y: value[1], z: value[2] }
    }
}

impl From<&[i32]> for Vec3<i32> {
    /// Reads the first three elements; missing elements are taken as zero.
    fn from(value: &[i32]) -> (r: Self) {
        let x: i32 = if value.len() >= 1 {
            value[0]
        } else {
            0
        };
        let y: i32 = if value.len() >= 2 {
            value[1]
        } else {
            0
        };
        let z: i32 = if value.len() >= 3 {
            value[2]
        } else {
            0
        };
        Vec3 { x, y, z }
    }
}

impl vstd::std_specs::convert::FromSpecImpl<&[i32]> for Vec3<i32> {
    open spec fn obeys_from_spec() -> bool {
        true
    }

    open spec fn from_spec(value: &[i32]) -> Self {
        Vec3 {
            x: (if value@.len() >= 1 { value@[0] } else { 0i32 }),
            y: (if value@.len() >= 2 { value@[1] } else { 0i32 }),
            z: (if value@.len() >= 3 { value@[2] } else { 0i32 }),
        }
    }
}

impl TryFrom<Vec3<i64>> for Vec3<i32> {
    type Error = ();

    /// Fails when a component lies outside the `i32` range.
    fn try_from(value: Vec3<i64>) -> (r: Result<Self, ()>) {
        if value.x < i32::MIN as i64 || value.x > i32::MAX as i64 || value.y < i32::MIN as i64
            || value.y > i32::MAX as i64 || value.z < i32::MIN as i64 || value.z > i32::MAX as i64 {
            Err(())
        } else {
            Ok(Vec3 { x: value.x as i32, y: value.y as i32, z: value.z as i32 })
        }
    }
}

impl vstd::std_specs::convert::TryFromSpecImpl<Vec3<i64>> for Vec3<i32> {
    open spec fn obeys_try_from_spec() -> bool {
        true
    }

    open spec fn try_from_spec(value: Vec3<i64>) -> Result<Self, ()> {
        if fits_i32(value.x as int) && fits_i32(value.y as int) && fits_i32(value.z as int) {
            Ok(Vec3 { x: value.x as i32, y: value.y as i32, z: value.z as i32 })
        } else {
            Err(())
        }
    }
}

impl TryFrom<Vec3<i32>> for Vec3<u8> {
    type Error = ();

    /// Fails when a component lies outside the `u8` range.
    fn try_from(value: Vec3<i32>) -> (r: Result<Self, ()>) {
        if value.x < 0 || value.x > u8::MAX as i32 || value.y < 0 || value.y > u8::MAX as i32
            || value.z < 0 || value.z > u8::MAX as i32 {
            Err(())
        } else {
            Ok(Vec3 { x: value.x as u8, y: value.y as u8, z: value.z as u8 })
        }
    }
}

impl vstd::std_specs::convert::TryFromSpecImpl<Vec3<i32>> for Vec3<u8> {
    open spec fn obeys_try_from_spec() -> bool {
        true
    }

    open spec fn try_from_spec(value: Vec3<i32>) -> Result<Self, ()> {
        if 0 <= value.x <= u8::MAX && 0 <= value.y <= u8::MAX && 0 <= value.z <= u8::MAX {
            Ok(Vec3 { x: value.x as u8, y: value.y as u8, z: value.z as u8 })
        } else {
            Err(())
        }
    }
}

} // verus!
