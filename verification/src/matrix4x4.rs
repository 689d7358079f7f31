//! 4-by-4 matrices, row-major.

use vstd::prelude::*;
use crate::vector2::Vec2;
use crate::vector2::fits_i32;

verus! {

/// A 4-by-4 matrix, stored row-major: the entry at column `c` of
/// row `r` sits at index `4 * r + c`.
#[derive(Clone, Copy, Debug, PartialEq, Eq, Structural)]
pub struct Mat4x4<T> {
    pub data: [T; 16],
}

impl<T> Mat4x4<T> {
    pub fn new(data: [T; 16]) -> (r: Self)
        ensures
            r == (Mat4x4 { data }),
    {
        Mat4x4 { data }
    }
}

impl<T: Copy> Mat4x4<T> {
    /// The entry at the given column and row.
    pub fn get(&self, column: usize, row: usize) -> (r: T)
        requires
            column < 4,
            row < 4,
        ensures
            r == self.data[4 * row + column],
    {
        self.data[4 * row + column]
    }
}

impl Default for Mat4x4<i32> {
    /// The identity matrix.
    fn default() -> (r: Self)
        ensures
            r.data@ == seq![1, 0, 0, 0, 0, 1, 0, 0, 0, 0, 1, 0, 0, 0, 0, 1i32],
    {
        Mat4x4 { data: [1, 0, 0, 0, 0, 1, 0, 0, 0, 0, 1, 0, 0, 0, 0, 1] }
    }
}

impl From<i32> for Mat4x4<i32> {
    /// Fills every entry with the given value.
    fn from(value: i32) -> (r: Self) {
        Mat4x4 { data: [value, value, value, value, value, value, value, value, value, value, value, value, value, value, value, value] }
    }
}

impl vstd::std_specs::convert::FromSpecImpl<i32> for Mat4x4<i32> {
    open spec fn obeys_from_spec() -> bool {
        true
    }

    open spec fn from_spec(value: i32) -> Self {
        Mat4x4 { data: [value, value, value, value, value, value, value, value, value, value, value, value, value, value, value, value] }
    }
}

impl From<i64> for Mat4x4<i64> {
    /// Fills every entry with the given value.
    fn from(value: i64) -> (r: Self) {
        Mat4x4 { data: [value, value, value, value, value, value, value, value, value, value, value, value, value, value, value, value] }
    }
}

impl vstd::std_specs::convert::FromSpecImpl<i64> for Mat4x4<i64> {
    open spec fn obeys_from_spec() -> bool {
        true
    }

    open spec fn from_spec(value: i64) -> Self {
        Mat4x4 { data: [value, value, value, value, value, value, value, value, value, value, value, value, value, value, value, value] }
    }
}

impl core::ops::Add<i32> for Mat4x4<i32> {
    type Output = Mat4x4<i32>;

    fn add(self, rhs: i32) -> (r: Self) {
        Mat4x4 { data: [self.data[0] + rhs, self.data[1] + rhs, self.data[2] + rhs, self.data[3] + rhs, self.data[4] + rhs, self.data[5] + rhs, self.data[6] + rhs, self.data[7] + rhs, self.data[8] + rhs, self.data[9] + rhs, self.data[10] + rhs, self.data[11] + rhs, self.data[12] + rhs, self.data[13] + rhs, self.data[14] + rhs, self.data[15] + rhs] }
    }
}

impl vstd::std_specs::ops::AddSpecImpl<i32> for Mat4x4<i32> {
    open spec fn obeys_add_spec() -> bool {
        true
    }

    open spec fn add_req(self, rhs: i32) -> bool {
        fits_i32(self.data[0] + rhs) && fits_i32(self.data[1] + rhs) && fits_i32(self.data[2] + rhs) && fits_i32(self.data[3] + rhs) && fits_i32(self.data[4] + rhs) && fits_i32(self.data[5] + rhs) && fits_i32(self.data[6] + rhs) && fits_i32(self.data[7] + rhs) && fits_i32(self.data[8] + rhs) && fits_i32(self.data[9] + rhs) && fits_i32(self.data[10] + rhs) && fits_i32(self.data[11] + rhs) && fits_i32(self.data[12] + rhs) && fits_i32(self.data[13] + rhs) && fits_i32(self.data[14] + rhs) && fits_i32(self.data[15] + rhs)
    }

    open spec fn add_spec(self, rhs: i32) -> Self {
        Mat4x4 { data: [(self.data[0] + rhs) as i32, (self.data[1] + rhs) as i32, (self.data[2] + rhs) as i32, (self.data[3] + rhs) as i32, (self.data[4] + rhs) as i32, (self.data[5] + rhs) as i32, (self.data[6] + rhs) as i32, (self.data[7] + rhs) as i32, (self.data[8] + rhs) as i32, (self.data[9] + rhs) as i32, (self.data[10] + rhs) as i32, (self.data[11] + rhs) as i32, (self.data[12] + rhs) as i32, (self.data[13] + rhs) as i32, (self.data[14] + rhs) as i32, (self.data[15] + rhs) as i32] }
    }
}

impl core::ops::Add for Mat4x4<i32> {
    type Output = Mat4x4<i32>;

    fn add(self, rhs: Self) -> (r: Self) {
        Mat4x4 { data: [self.data[0] + rhs.data[0], self.data[1] + rhs.data[1], self.data[2] + rhs.data[2], self.data[3] + rhs.data[3], self.data[4] + rhs.data[4], self.data[5] + rhs.data[5], self.data[6] + rhs.data[6], self.data[7] + rhs.data[7], self.data[8] + rhs.data[8], self.data[9] + rhs.data[9], self.data[10] + rhs.data[10], self.data[11] + rhs.data[11], self.data[12] + rhs.data[12], self.data[13] + rhs.data[13], self.data[14] + rhs.data[14], self.data[15] + rhs.data[15]] }
    }
}

impl vstd::std_specs::ops::AddSpecImpl for Mat4x4<i32> {
    open spec fn obeys_add_spec() -> bool {
        true
    }

    open spec fn add_req(self, rhs: Self) -> bool {
        fits_i32(self.data[0] + rhs.data[0]) && fits_i32(self.data[1] + rhs.data[1]) && fits_i32(self.data[2] + rhs.data[2]) && fits_i32(self.data[3] + rhs.data[3]) && fits_i32(self.data[4] + rhs.data[4]) && fits_i32(self.data[5] + rhs.data[5]) && fits_i32(self.data[6] + rhs.data[6]) && fits_i32(self.data[7] + rhs.data[7]) && fits_i32(self.data[8] + rhs.data[8]) && fits_i32(self.data[9] + rhs.data[9]) && fits_i32(self.data[10] + rhs.data[10]) && fits_i32(self.data[11] + rhs.data[11]) && fits_i32(self.data[12] + rhs.data[12]) && fits_i32(self.data[13] + rhs.data[13]) && fits_i32(self.data[14] + rhs.data[14]) && fits_i32(self.data[15] + rhs.data[15])
    }

    open spec fn add_spec(self, rhs: Self) -> Self {
        Mat4x4 { data: [(self.data[0] + rhs.data[0]) as i32, (self.data[1] + rhs.data[1]) as i32, (self.data[2] + rhs.data[2]) as i32, (self.data[3] + rhs.data[3]) as i32, (self.data[4] + rhs.data[4]) as i32, (self.data[5] + rhs.data[5]) as i32, (self.data[6] + rhs.data[6]) as i32, (self.data[7] + rhs.data[7]) as i32, (self.data[8] + rhs.data[8]) as i32, (self.data[9] + rhs.data[9]) as i32, (self.data[10] + rhs.data[10]) as i32, (self.data[11] + rhs.data[11]) as i32, (self.data[12] + rhs.data[12]) as i32, (self.data[13] + rhs.data[13]) as i32, (self.data[14] + rhs.data[14]) as i32, (self.data[15] + rhs.data[15]) as i32] }
    }
}

impl core::ops::Sub<i32> for Mat4x4<i32> {
    type Output = Mat4x4<i32>;

    fn sub(self, rhs: i32) -> (r: Self) {
        Mat4x4 { data: [self.data[0] - rhs, self.data[1] - rhs, self.data[2] - rhs, self.data[3] - rhs, self.data[4] - rhs, self.data[5] - rhs, self.data[6] - rhs, self.data[7] - rhs, self.data[8] - rhs, self.data[9] - rhs, self.data[10] - rhs, self.data[11] - rhs, self.data[12] - rhs, self.data[13] - rhs, self.data[14] - rhs, self.data[15] - rhs] }
    }
}

impl vstd::std_specs::ops::SubSpecImpl<i32> for Mat4x4<i32> {
    open spec fn obeys_sub_spec() -> bool {
        true
    }

    open spec fn sub_req(self, rhs: i32) -> bool {
        fits_i32(self.data[0] - rhs) && fits_i32(self.data[1] - rhs) && fits_i32(self.data[2] - rhs) && fits_i32(self.data[3] - rhs) && fits_i32(self.data[4] - rhs) && fits_i32(self.data[5] - rhs) && fits_i32(self.data[6] - rhs) && fits_i32(self.data[7] - rhs) && fits_i32(self.data[8] - rhs) && fits_i32(self.data[9] - rhs) && fits_i32(self.data[10] - rhs) && fits_i32(self.data[11] - rhs) && fits_i32(self.data[12] - rhs) && fits_i32(self.data[13] - rhs) && fits_i32(self.data[14] - rhs) && fits_i32(self.data[15] - rhs)
    }

    open spec fn sub_spec(self, rhs: i32) -> Self {
        Mat4x4 { data: [(self.data[0] - rhs) as i32, (self.data[1] - rhs) as i32, (self.data[2] - rhs) as i32, (self.data[3] - rhs) as i32, (self.data[4] - rhs) as i32, (self.data[5] - rhs) as i32, (self.data[6] - rhs) as i32, (self.data[7] - rhs) as i32, (self.data[8] - rhs) as i32, (self.data[9] - rhs) as i32, (self.data[10] - rhs) as i32, (self.data[11] - rhs) as i32, (self.data[12] - rhs) as i32, (self.data[13] - rhs) as i32, (self.data[14] - rhs) as i32, (self.data[15] - rhs) as i32] }
    }
}

impl core::ops::Sub for Mat4x4<i32> {
    type Output = Mat4x4<i32>;

    fn sub(self, rhs: Self) -> (r: Self) {
        Mat4x4 { data: [self.data[0] - rhs.data[0], self.data[1] - rhs.data[1], self.data[2] - rhs.data[2], self.data[3] - rhs.data[3], self.data[4] - rhs.data[4], self.data[5] - rhs.data[5], self.data[6] - rhs.data[6], self.data[7] - rhs.data[7], self.data[8] - rhs.data[8], self.data[9] - rhs.data[9], self.data[10] - rhs.data[10], self.data[11] - rhs.data[11], self.data[12] - rhs.data[12], self.data[13] - rhs.data[13], self.data[14] - rhs.data[14], self.data[15] - rhs.data[15]] }
    }
}

impl vstd::std_specs::ops::SubSpecImpl for Mat4x4<i32> {
    open spec fn obeys_sub_spec() -> bool {
        true
    }

    open spec fn sub_req(self, rhs: Self) -> bool {
        fits_i32(self.data[0] - rhs.data[0]) && fits_i32(self.data[1] - rhs.data[1]) && fits_i32(self.data[2] - rhs.data[2]) && fits_i32(self.data[3] - rhs.data[3]) && fits_i32(self.data[4] - rhs.data[4]) && fits_i32(self.data[5] - rhs.data[5]) && fits_i32(self.data[6] - rhs.data[6]) && fits_i32(self.data[7] - rhs.data[7]) && fits_i32(self.data[8] - rhs.data[8]) && fits_i32(self.data[9] - rhs.data[9]) && fits_i32(self.data[10] - rhs.data[10]) && fits_i32(self.data[11] - rhs.data[11]) && fits_i32(self.data[12] - rhs.data[12]) && fits_i32(self.data[13] - rhs.data[13]) && fits_i32(self.data[14] - rhs.data[14]) && fits_i32(self.data[15] - rhs.data[15])
    }

    open spec fn sub_spec(self, rhs: Self) -> Self {
        Mat4x4 { data: [(self.data[0] - rhs.data[0]) as i32, (self.data[1] - rhs.data[1]) as i32, (self.data[2] - rhs.data[2]) as i32, (self.data[3] - rhs.data[3]) as i32, (self.data[4] - rhs.data[4]) as i32, (self.data[5] - rhs.data[5]) as i32, (self.data[6] - rhs.data[6]) as i32, (self.data[7] - rhs.data[7]) as i32, (self.data[8] - rhs.data[8]) as i32, (self.data[9] - rhs.data[9]) as i32, (self.data[10] - rhs.data[10]) as i32, (self.data[11] - rhs.data[11]) as i32, (self.data[12] - rhs.data[12]) as i32, (self.data[13] - rhs.data[13]) as i32, (self.data[14] - rhs.data[14]) as i32, (self.data[15] - rhs.data[15]) as i32] }
    }
}

impl core::ops::Mul for Mat4x4<i32> {
    type Output = Mat4x4<i32>;

    fn mul(self, rhs: Self) -> (r: Self) {
        proof {
            assert forall|a: i32, b: i32| -0x4000_0000_0000_0000i128 <= #[trigger] ((a as i128) * (b as i128)) <= 0x4000_0000_0000_0000i128 by {
                assert(-0x4000_0000_0000_0000i128 <= (a as i128) * (b as i128) <= 0x4000_0000_0000_0000i128) by (nonlinear_arith)
                    requires
                        -0x8000_0000 <= a as i128 <= 0x8000_0000,
                        -0x8000_0000 <= b as i128 <= 0x8000_0000,
                ;
            }
        }
        let e00: i128 = (self.data[0] as i128) * (rhs.data[0] as i128) + (self.data[1] as i128) * (rhs.data[4] as i128) + (self.data[2] as i128) * (rhs.data[8] as i128) + (self.data[3] as i128) * (rhs.data[12] as i128);
        let e01: i128 = (self.data[0] as i128) * (rhs.data[1] as i128) + (self.data[1] as i128) * (rhs.data[5] as i128) + (self.data[2] as i128) * (rhs.data[9] as i128) + (self.data[3] as i128) * (rhs.data[13] as i128);
        let e02: i128 = (self.data[0] as i128) * (rhs.data[2] as i128) + (self.data[1] as i128) * (rhs.data[6] as i128) + (self.data[2] as i128) * (rhs.data[10] as i128) + (self.data[3] as i128) * (rhs.data[14] as i128);
        let e03: i128 = (self.data[0] as i128) * (rhs.data[3] as i128) + (self.data[1] as i128) * (rhs.data[7] as i128) + (self.data[2] as i128) * (rhs.data[11] as i128) + (self.data[3] as i128) * (rhs.data[15] as i128);
        let e10: i128 = (self.data[4] as i128) * (rhs.data[0] as i128) + (self.data[5] as i128) * (rhs.data[4] as i128) + (self.data[6] as i128) * (rhs.data[8] as i128) + (self.data[7] as i128) * (rhs.data[12] as i128);
        let e11: i128 = (self.data[4] as i128) * (rhs.data[1] as i128) + (self.data[5] as i128) * (rhs.data[5] as i128) + (self.data[6] as i128) * (rhs.data[9] as i128) + (self.data[7] as i128) * (rhs.data[13] as i128);
        let e12: i128 = (self.data[4] as i128) * (rhs.data[2] as i128) + (self.data[5] as i128) * (rhs.data[6] as i128) + (self.data[6] as i128) * (rhs.data[10] as i128) + (self.data[7] as i128) * (rhs.data[14] as i128);
        let e13: i128 = (self.data[4] as i128) * (rhs.data[3] as i128) + (self.data[5] as i128) * (rhs.data[7] as i128) + (self.data[6] as i128) * (rhs.data[11] as i128) + (self.data[7] as i128) * (rhs.data[15] as i128);
        let e20: i128 = (self.data[8] as i128) * (rhs.data[0] as i128) + (self.data[9] as i128) * (rhs.data[4] as i128) + (self.data[10] as i128) * (rhs.data[8] as i128) + (self.data[11] as i128) * (rhs.data[12] as i128);
        let e21: i128 = (self.data[8] as i128) * (rhs.data[1] as i128) + (self.data[9] as i128) * (rhs.data[5] as i128) + (self.data[10] as i128) * (rhs.data[9] as i128) + (self.data[11] as i128) * (rhs.data[13] as i128);
        let e22: i128 = (self.data[8] as i128) * (rhs.data[2] as i128) + (self.data[9] as i128) * (rhs.data[6] as i128) + (self.data[10] as i128) * (rhs.data[10] as i128) + (self.data[11] as i128) * (rhs.data[14] as i128);
        let e23: i128 = (self.data[8] as i128) * (rhs.data[3] as i128) + (self.data[9] as i128) * (rhs.data[7] as i128) + (self.data[10] as i128) * (rhs.data[11] as i128) + (self.data[11] as i128) * (rhs.data[15] as i128);
        let e30: i128 = (self.data[12] as i128) * (rhs.data[0] as i128) + (self.data[13] as i128) * (rhs.data[4] as i128) + (self.data[14] as i128) * (rhs.data[8] as i128) + (self.data[15] as i128) * (rhs.data[12] as i128);
        let e31: i128 = (self.data[12] as i128) * (rhs.data[1] as i128) + (self.data[13] as i128) * (rhs.data[5] as i128) + (self.data[14] as i128) * (rhs.data[9] as i128) + (self.data[15] as i128) * (rhs.data[13] as i128);
        let e32: i128 = (self.data[12] as i128) * (rhs.data[2] as i128) + (self.data[13] as i128) * (rhs.data[6] as i128) + (self.data[14] as i128) * (rhs.data[10] as i128) + (self.data[15] as i128) * (rhs.data[14] as i128);
        let e33: i128 = (self.data[12] as i128) * (rhs.data[3] as i128) + (self.data[13] as i128) * (rhs.data[7] as i128) + (self.data[14] as i128) * (rhs.data[11] as i128) + (self.data[15] as i128) * (rhs.data[15] as i128);
        Mat4x4 { data: [e00 as i32, e01 as i32, e02 as i32, e03 as i32, e10 as i32, e11 as i32, e12 as i32, e13 as i32, e20 as i32, e21 as i32, e22 as i32, e23 as i32, e30 as i32, e31 as i32, e32 as i32, e33 as i32] }
    }
}

impl vstd::std_specs::ops::MulSpecImpl for Mat4x4<i32> {
    open spec fn obeys_mul_spec() -> bool {
        true
    }

    open spec fn mul_req(self, rhs: Self) -> bool {
        fits_i32(self.data[0] * rhs.data[0] + self.data[1] * rhs.data[4] + self.data[2] * rhs.data[8] + self.data[3] * rhs.data[12]) && fits_i32(self.data[0] * rhs.data[1] + self.data[1] * rhs.data[5] + self.data[2] * rhs.data[9] + self.data[3] * rhs.data[13]) && fits_i32(self.data[0] * rhs.data[2] + self.data[1] * rhs.data[6] + self.data[2] * rhs.data[10] + self.data[3] * rhs.data[14]) && fits_i32(self.data[0] * rhs.data[3] + self.data[1] * rhs.data[7] + self.data[2] * rhs.data[11] + self.data[3] * rhs.data[15]) && fits_i32(self.data[4] * rhs.data[0] + self.data[5] * rhs.data[4] + self.data[6] * rhs.data[8] + self.data[7] * rhs.data[12]) && fits_i32(self.data[4] * rhs.data[1] + self.data[5] * rhs.data[5] + self.data[6] * rhs.data[9] + self.data[7] * rhs.data[13]) && fits_i32(self.data[4] * rhs.data[2] + self.data[5] * rhs.data[6] + self.data[6] * rhs.data[10] + self.data[7] * rhs.data[14]) && fits_i32(self.data[4] * rhs.data[3] + self.data[5] * rhs.data[7] + self.data[6] * rhs.data[11] + self.data[7] * rhs.data[15]) && fits_i32(self.data[8] * rhs.data[0] + self.data[9] * rhs.data[4] + self.data[10] * rhs.data[8] + self.data[11] * rhs.data[12]) && fits_i32(self.data[8] * rhs.data[1] + self.data[9] * rhs.data[5] + self.data[10] * rhs.data[9] + self.data[11] * rhs.data[13]) && fits_i32(self.data[8] * rhs.data[2] + self.data[9] * rhs.data[6] + self.data[10] * rhs.data[10] + self.data[11] * rhs.data[14]) && fits_i32(self.data[8] * rhs.data[3] + self.data[9] * rhs.data[7] + self.data[10] * rhs.data[11] + self.data[11] * rhs.data[15]) && fits_i32(self.data[12] * rhs.data[0] + self.data[13] * rhs.data[4] + self.data[14] * rhs.data[8] + self.data[15] * rhs.data[12]) && fits_i32(self.data[12] * rhs.data[1] + self.data[13] * rhs.data[5] + self.data[14] * rhs.data[9] + self.data[15] * rhs.data[13]) && fits_i32(self.data[12] * rhs.data[2] + self.data[13] * rhs.data[6] + self.data[14] * rhs.data[10] + self.data[15] * rhs.data[14]) && fits_i32(self.data[12] * rhs.data[3] + self.data[13] * rhs.data[7] + self.data[14] * rhs.data[11] + self.data[15] * rhs.data[15])
    }

    open spec fn mul_spec(self, rhs: Self) -> Self {
        Mat4x4 { data: [(self.data[0] * rhs.data[0] + self.data[1] * rhs.data[4] + self.data[2] * rhs.data[8] + self.data[3] * rhs.data[12]) as i32, (self.data[0] * rhs.data[1] + self.data[1] * rhs.data[5] + self.data[2] * rhs.data[9] + self.data[3] * rhs.data[13]) as i32, (self.data[0] * rhs.data[2] + self.data[1] * rhs.data[6] + self.data[2] * rhs.data[10] + self.data[3] * rhs.data[14]) as i32, (self.data[0] * rhs.data[3] + self.data[1] * rhs.data[7] + self.data[2] * rhs.data[11] + self.data[3] * rhs.data[15]) as i32, (self.data[4] * rhs.data[0] + self.data[5] * rhs.data[4] + self.data[6] * rhs.data[8] + self.data[7] * rhs.data[12]) as i32, (self.data[4] * rhs.data[1] + self.data[5] * rhs.data[5] + self.data[6] * rhs.data[9] + self.data[7] * rhs.data[13]) as i32, (self.data[4] * rhs.data[2] + self.data[5] * rhs.data[6] + self.data[6] * rhs.data[10] + self.data[7] * rhs.data[14]) as i32, (self.data[4] * rhs.data[3] + self.data[5] * rhs.data[7] + self.data[6] * rhs.data[11] + self.data[7] * rhs.data[15]) as i32, (self.data[8] * rhs.data[0] + self.data[9] * rhs.data[4] + self.data[10] * rhs.data[8] + self.data[11] * rhs.data[12]) as i32, (self.data[8] * rhs.data[1] + self.data[9] * rhs.data[5] + self.data[10] * rhs.data[9] + self.data[11] * rhs.data[13]) as i32, (self.data[8] * rhs.data[2] + self.data[9] * rhs.data[6] + self.data[10] * rhs.data[10] + self.data[11] * rhs.data[14]) as i32, (self.data[8] * rhs.data[3] + self.data[9] * rhs.data[7] + self.data[10] * rhs.data[11] + self.data[11] * rhs.data[15]) as i32, (self.data[12] * rhs.data[0] + self.data[13] * rhs.data[4] + self.data[14] * rhs.data[8] + self.data[15] * rhs.data[12]) as i32, (self.data[12] * rhs.data[1] + self.data[13] * rhs.data[5] + self.data[14] * rhs.data[9] + self.data[15] * rhs.data[13]) as i32, (self.data[12] * rhs.data[2] + self.data[13] * rhs.data[6] + self.data[14] * rhs.data[10] + self.data[15] * rhs.data[14]) as i32, (self.data[12] * rhs.data[3] + self.data[13] * rhs.data[7] + self.data[14] * rhs.data[11] + self.data[15] * rhs.data[15]) as i32] }
    }
}

} // verus!
