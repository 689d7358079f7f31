//! 3-by-3 matrices, row-major.

use vstd::prelude::*;
use crate::vector2::Vec2;
use crate::vector2::fits_i32;

verus! {

/// A 3-by-3 matrix, stored row-major: the entry at column `c` of
/// row `r` sits at index `3 * r + c`.
#[derive(Clone, Copy, Debug, PartialEq, Eq, Structural)]
pub struct Mat3x3<T> {
    pub data: [T; 9],
}

impl<T> Mat3x3<T> {
    pub fn new(data: [T; 9]) -> (r: Self)
        ensures
            r == (Mat3x3 { data }),
    {
        Mat3x3 { data }
    }
}

impl<T: Copy> Mat3x3<T> {
    /// The entry at the given column and row.
    pub fn get(&self, column: usize, row: usize) -> (r: T)
        requires
            column < 3,
            row < 3,
        ensures
            r == self.data[3 * row + column],
    {
        self.data[3 * row + column]
    }
}

impl Default for Mat3x3<i32> {
    /// The identity matrix.
    fn default() -> (r: Self)
        ensures
            r.data@ == seq![1, 0, 0, 0, 1, 0, 0, 0, 1i32],
    {
        Mat3x3 { data: [1, 0, 0, 0, 1, 0, 0, 0, 1] }
    }
}

impl From<i32> for Mat3x3<i32> {
    /// Fills every entry with the given value.
    fn from(value: i32) -> (r: Self) {
        Mat3x3 { data: [value, value, value, value, value, value, value, value, value] }
    }
}

impl vstd::std_specs::convert::FromSpecImpl<i32> for Mat3x3<i32> {
    open spec fn obeys_from_spec() -> bool {
        true
    }

    open spec fn from_spec(value: i32) -> Self {
        Mat3x3 { data: [value, value, value, value, value, value, value, value, value] }
    }
}

impl From<i64> for Mat3x3<i64> {
    /// Fills every entry with the given value.
    fn from(value: i64) -> (r: Self) {
        Mat3x3 { data: [value, value, value, value, value, value, value, value, value] }
    }
}

impl vstd::std_specs::convert::FromSpecImpl<i64> for Mat3x3<i64> {
    open spec fn obeys_from_spec() -> bool {
        true
    }

    open spec fn from_spec(value: i64) -> Self {
        Mat3x3 { data: [value, value, value, value, value, value, value, value, value] }
    }
}

impl core::ops::Add<i32> for Mat3x3<i32> {
    type Output = Mat3x3<i32>;

    fn add(self, rhs: i32) -> (r: Self) {
        Mat3x3 { data: [self.data[0] + rhs, self.data[1] + rhs, self.data[2] + rhs, self.data[3] + rhs, self.data[4] + rhs, self.data[5] + rhs, self.data[6] + rhs, self.data[7] + rhs, self.data[8] + rhs] }
    }
}

impl vstd::std_specs::ops::AddSpecImpl<i32> for Mat3x3<i32> {
    open spec fn obeys_add_spec() -> bool {
        true
    }

    open spec fn add_req(self, rhs: i32) -> bool {
        fits_i32(self.data[0] + rhs) && fits_i32(self.data[1] + rhs) && fits_i32(self.data[2] + rhs) && fits_i32(self.data[3] + rhs) && fits_i32(self.data[4] + rhs) && fits_i32(self.data[5] + rhs) && fits_i32(self.data[6] + rhs) && fits_i32(self.data[7] + rhs) && fits_i32(self.data[8] + rhs)
    }

    open spec fn add_spec(self, rhs: i32) -> Self {
        Mat3x3 { data: [(self.data[0] + rhs) as i32, (self.data[1] + rhs) as i32, (self.data[2] + rhs) as i32, (self.data[3] + rhs) as i32, (self.data[4] + rhs) as i32, (self.data[5] + rhs) as i32, (self.data[6] + rhs) as i32, (self.data[7] + rhs) as i32, (self.data[8] + rhs) as i32] }
    }
}

impl core::ops::Add for Mat3x3<i32> {
    type Output = Mat3x3<i32>;

    fn add(self, rhs: Self) -> (r: Self) {
        Mat3x3 { data: [self.data[0] + rhs.data[0], self.data[1] + rhs.data[1], self.data[2] + rhs.data[2], self.data[3] + rhs.data[3], self.data[4] + rhs.data[4], self.data[5] + rhs.data[5], self.data[6] + rhs.data[6], self.data[7] + rhs.data[7], self.data[8] + rhs.data[8]] }
    }
}

impl vstd::std_specs::ops::AddSpecImpl for Mat3x3<i32> {
    open spec fn obeys_add_spec() -> bool {
        true
    }

    open spec fn add_req(self, rhs: Self) -> bool {
        fits_i32(self.data[0] + rhs.data[0]) && fits_i32(self.data[1] + rhs.data[1]) && fits_i32(self.data[2] + rhs.data[2]) && fits_i32(self.data[3] + rhs.data[3]) && fits_i32(self.data[4] + rhs.data[4]) && fits_i32(self.data[5] + rhs.data[5]) && fits_i32(self.data[6] + rhs.data[6]) && fits_i32(self.data[7] + rhs.data[7]) && fits_i32(self.data[8] + rhs.data[8])
    }

    open spec fn add_spec(self, rhs: Self) -> Self {
        Mat3x3 { data: [(self.data[0] + rhs.data[0]) as i32, (self.data[1] + rhs.data[1]) as i32, (self.data[2] + rhs.data[2]) as i32, (self.data[3] + rhs.data[3]) as i32, (self.data[4] + rhs.data[4]) as i32, (self.data[5] + rhs.data[5]) as i32, (self.data[6] + rhs.data[6]) as i32, (self.data[7] + rhs.data[7]) as i32, (self.data[8] + rhs.data[8]) as i32] }
    }
}

impl core::ops::Sub<i32> for Mat3x3<i32> {
    type Output = Mat3x3<i32>;

    fn sub(self, rhs: i32) -> (r: Self) {
        Mat3x3 { data: [self.data[0] - rhs, self.data[1] - rhs, self.data[2] - rhs, self.data[3] - rhs, self.data[4] - rhs, self.data[5] - rhs, self.data[6] - rhs, self.data[7] - rhs, self.data[8] - rhs] }
    }
}

impl vstd::std_specs::ops::SubSpecImpl<i32> for Mat3x3<i32> {
    open spec fn obeys_sub_spec() -> bool {
        true
    }

    open spec fn sub_req(self, rhs: i32) -> bool {
        fits_i32(self.data[0] - rhs) && fits_i32(self.data[1] - rhs) && fits_i32(self.data[2] - rhs) && fits_i32(self.data[3] - rhs) && fits_i32(self.data[4] - rhs) && fits_i32(self.data[5] - rhs) && fits_i32(self.data[6] - rhs) && fits_i32(self.data[7] - rhs) && fits_i32(self.data[8] - rhs)
    }

    open spec fn sub_spec(self, rhs: i32) -> Self {
        Mat3x3 { data: [(self.data[0] - rhs) as i32, (self.data[1] - rhs) as i32, (self.data[2] - rhs) as i32, (self.data[3] - rhs) as i32, (self.data[4] - rhs) as i32, (self.data[5] - rhs) as i32, (self.data[6] - rhs) as i32, (self.data[7] - rhs) as i32, (self.data[8] - rhs) as i32] }
    }
}

impl core::ops::Sub for Mat3x3<i32> {
    type Output = Mat3x3<i32>;

    fn sub(self, rhs: Self) -> (r: Self) {
        Mat3x3 { data: [self.data[0] - rhs.data[0], self.data[1] - rhs.data[1], self.data[2] - rhs.data[2], self.data[3] - rhs.data[3], self.data[4] - rhs.data[4], self.data[5] - rhs.data[5], self.data[6] - rhs.data[6], self.data[7] - rhs.data[7], self.data[8] - rhs.data[8]] }
    }
}

impl vstd::std_specs::ops::SubSpecImpl for Mat3x3<i32> {
    open spec fn obeys_sub_spec() -> bool {
        true
    }

    open spec fn sub_req(self, rhs: Self) -> bool {
        fits_i32(self.data[0] - rhs.data[0]) && fits_i32(self.data[1] - rhs.data[1]) && fits_i32(self.data[2] - rhs.data[2]) && fits_i32(self.data[3] - rhs.data[3]) && fits_i32(self.data[4] - rhs.data[4]) && fits_i32(self.data[5] - rhs.data[5]) && fits_i32(self.data[6] - rhs.data[6]) && fits_i32(self.data[7] - rhs.data[7]) && fits_i32(self.data[8] - rhs.data[8])
    }

    open spec fn sub_spec(self, rhs: Self) -> Self {
        Mat3x3 { data: [(self.data[0] - rhs.data[0]) as i32, (self.data[1] - rhs.data[1]) as i32, (self.data[2] - rhs.data[2]) as i32, (self.data[3] - rhs.data[3]) as i32, (self.data[4] - rhs.data[4]) as i32, (self.data[5] - rhs.data[5]) as i32, (self.data[6] - rhs.data[6]) as i32, (self.data[7] - rhs.data[7]) as i32, (self.data[8] - rhs.data[8]) as i32] }
    }
}

impl core::ops::Mul for Mat3x3<i32> {
    type Output = Mat3x3<i32>;

    fn mul(self, rhs: Self) -> (r: Self) {
        proof {
            assert forall|a: i32, b: i32| -0x4000_0000_0000_0000i128 <= #[trigger] ((a as i128) * (b as i128)) <= 0x4000_0000_0000_0000i128 by {
                assert(-0x4000_0000_0000_0000i128 <= (a as i128) * (b as i128) <= 0x4000_0000_0000_0000i128) by (nonlinear_arith)
                    requires
                        -0x8000_0000 <= a as i128 <= 0x8000_0000,
                        -0x8000_0000 <= b as i128 <= 0x8000_0000,
                ;
            }
        }
        let e00: i128 = (self.data[0] as i128) * (rhs.data[0] as i128) + (self.data[1] as i128) * (rhs.data[3] as i128) + (self.data[2] as i128) * (rhs.data[6] as i128);
        let e01: i128 = (self.data[0] as i128) * (rhs.data[1] as i128) + (self.data[1] as i128) * (rhs.data[4] as i128) + (self.data[2] as i128) * (rhs.data[7] as i128);
        let e02: i128 = (self.data[0] as i128) * (rhs.data[2] as i128) + (self.data[1] as i128) * (rhs.data[5] as i128) + (self.data[2] as i128) * (rhs.data[8] as i128);
        let e10: i128 = (self.data[3] as i128) * (rhs.data[0] as i128) + (self.data[4] as i128) * (rhs.data[3] as i128) + (self.data[5] as i128) * (rhs.data[6] as i128);
        let e11: i128 = (self.data[3] as i128) * (rhs.data[1] as i128) + (self.data[4] as i128) * (rhs.data[4] as i128) + (self.data[5] as i128) * (rhs.data[7] as i128);
        let e12: i128 = (self.data[3] as i128) * (rhs.data[2] as i128) + (self.data[4] as i128) * (rhs.data[5] as i128) + (self.data[5] as i128) * (rhs.data[8] as i128);
        let e20: i128 = (self.data[6] as i128) * (rhs.data[0] as i128) + (self.data[7] as i128) * (rhs.data[3] as i128) + (self.data[8] as i128) * (rhs.data[6] as i128);
        let e21: i128 = (self.data[6] as i128) * (rhs.data[1] as i128) + (self.data[7] as i128) * (rhs.data[4] as i128) + (self.data[8] as i128) * (rhs.data[7] as i128);
        let e22: i128 = (self.data[6] as i128) * (rhs.data[2] as i128) + (self.data[7] as i128) * (rhs.data[5] as i128) + (self.data[8] as i128) * (rhs.data[8] as i128);
        Mat3x3 { data: [e00 as i32, e01 as i32, e02 as i32, e10 as i32, e11 as i32, e12 as i32, e20 as i32, e21 as i32, e22 as i32] }
    }
}

impl vstd::std_specs::ops::MulSpecImpl for Mat3x3<i32> {
    open spec fn obeys_mul_spec() -> bool {
        true
    }

    open spec fn mul_req(self, rhs: Self) -> bool {
        fits_i32(self.data[0] * rhs.data[0] + self.data[1] * rhs.data[3] + self.data[2] * rhs.data[6]) && fits_i32(self.data[0] * rhs.data[1] + self.data[1] * rhs.data[4] + self.data[2] * rhs.data[7]) && fits_i32(self.data[0] * rhs.data[2] + self.data[1] * rhs.data[5] + self.data[2] * rhs.data[8]) && fits_i32(self.data[3] * rhs.data[0] + self.data[4] * rhs.data[3] + self.data[5] * rhs.data[6]) && fits_i32(self.data[3] * rhs.data[1] + self.data[4] * rhs.data[4] + self.data[5] * rhs.data[7]) && fits_i32(self.data[3] * rhs.data[2] + self.data[4] * rhs.data[5] + self.data[5] * rhs.data[8]) && fits_i32(self.data[6] * rhs.data[0] + self.data[7] * rhs.data[3] + self.data[8] * rhs.data[6]) && fits_i32(self.data[6] * rhs.data[1] + self.data[7] * rhs.data[4] + self.data[8] * rhs.data[7]) && fits_i32(self.data[6] * rhs.data[2] + self.data[7] * rhs.data[5] + self.data[8] * rhs.data[8])
    }

    open spec fn mul_spec(self, rhs: Self) -> Self {
        Mat3x3 { data: [(self.data[0] * rhs.data[0] + self.data[1] * rhs.data[3] + self.data[2] * rhs.data[6]) as i32, (self.data[0] * rhs.data[1] + self.data[1] * rhs.data[4] + self.data[2] * rhs.data[7]) as i32, (self.data[0] * rhs.data[2] + self.data[1] * rhs.data[5] + self.data[2] * rhs.data[8]) as i32, (self.data[3] * rhs.data[0] + self.data[4] * rhs.data[3] + self.data[5] * rhs.data[6]) as i32, (self.data[3] * rhs.data[1] + self.data[4] * rhs.data[4] + self.data[5] * rhs.data[7]) as i32, (self.data[3] * rhs.data[2] + self.data[4] * rhs.data[5] + self.data[5] * rhs.data[8]) as i32, (self.data[6] * rhs.data[0] + self.data[7] * rhs.data[3] + self.data[8] * rhs.data[6]) as i32, (self.data[6] * rhs.data[1] + self.data[7] * rhs.data[4] + self.data[8] * rhs.data[7]) as i32, (self.data[6] * rhs.data[2] + self.data[7] * rhs.data[5] + self.data[8] * rhs.data[8]) as i32] }
    }
}

impl Mat3x3<i32> {
    /// A scaling transform.
    pub fn with_scale(vector: Vec2<i32>) -> (r: Self)
        ensures
            r.data@ == seq![vector.x, 0, 0, 0, vector.y, 0, 0, 0, 1i32],
    {
        Mat3x3 { data: [vector.x, 0, 0, 0, vector.y, 0, 0, 0, 1] }
    }

    /// A translation transform.
    pub fn with_translate(vector: Vec2<i32>) -> (r: Self)
        ensures
            r.data@ == seq![1i32, 0, vector.x, 0, 1, vector.y, 0, 0, 1],
    {
        Mat3x3 { data: [1, 0, vector.x, 0, 1, vector.y, 0, 0, 1] }
    }

    /// Multiplies the two diagonal scale entries in place.
    pub fn scale(&mut self, vector: Vec2<i32>)
        requires
            i32::MIN <= old(self).data[0] * vector.x <= i32::MAX,
            i32::MIN <= old(self).data[4] * vector.y <= i32::MAX,
        ensures
            final(self).data@ == old(self).data@.update(0, (old(self).data[0] * vector.x) as i32).update(
                4,
                (old(self).data[4] * vector.y) as i32,
            ),
    {
        let v0 = self.data[0] * vector.x;
        let v4 = self.data[4] * vector.y;
        self.data[0] = v0;
        self.data[4] = v4;
        proof {
            assert(self.data@ =~= old(self).data@.update(0, v0).update(4, v4));
        }
    }

    /// Replaces the translation entries in place.
    pub fn translate(&mut self, vector: Vec2<i32>)
        ensures
            final(self).data@ == old(self).data@.update(2, vector.x).update(5, vector.y),
    {
        self.data[2] = vector.x;
        self.data[5] = vector.y;
        proof {
            assert(self.data@ =~= old(self).data@.update(2, vector.x).update(5, vector.y));
        }
    }
}

impl Mat3x3<i64> {
    /// A scaling transform.
    pub fn with_scale(vector: Vec2<i64>) -> (r: Self)
        ensures
            r.data@ == seq![vector.x, 0, 0, 0, vector.y, 0, 0, 0, 1i64],
    {
        Mat3x3 { data: [vector.x, 0, 0, 0, vector.y, 0, 0, 0, 1] }
    }

    /// A translation transform.
    pub fn with_translate(vector: Vec2<i64>) -> (r: Self)
        ensures
            r.data@ == seq![1i64, 0, vector.x, 0, 1, vector.y, 0, 0, 1],
    {
        Mat3x3 { data: [1, 0, vector.x, 0, 1, vector.y, 0, 0, 1] }
    }

    /// Multiplies the two diagonal scale entries in place.
    pub fn scale(&mut self, vector: Vec2<i64>)
        requires
            i64::MIN <= old(self).data[0] * vector.x <= i64::MAX,
            i64::MIN <= old(self).data[4] * vector.y <= i64::MAX,
        ensures
            final(self).data@ == old(self).data@.update(0, (old(self).data[0] * vector.x) as i64).update(
                4,
                (old(self).data[4] * vector.y) as i64,
            ),
    {
        let v0 = self.data[0] * vector.x;
        let v4 = self.data[4] * vector.y;
        self.data[0] = v0;
        self.data[4] = v4;
        proof {
            assert(self.data@ =~= old(self).data@.update(0, v0).update(4, v4));
        }
    }

    /// Replaces the translation entries in place.
    pub fn translate(&mut self, vector: Vec2<i64>)
        ensures
            final(self).data@ == old(self).data@.update(2, vector.x).update(5, vector.y),
    {
        self.data[2] = vector.x;
        self.data[5] = vector.y;
        proof {
            assert(self.data@ =~= old(self).data@.update(2, vector.x).update(5, vector.y));
        }
    }
}

} // verus!
