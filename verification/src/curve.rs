//! Adaptive flattening of quadratic and cubic Bézier curves into straight
//! segments, in subpixel fixed-point arithmetic (256 subpixel units per
//! pixel).
//!
//! The segment count is the smallest `n` whose uniform parameter steps
//! keep every chord within the fixed flatness tolerance of a tenth of a
//! pixel: the distance from a chord over a parameter step of `1/n` to the
//! curve is at most `|B''| / (8 n^2)`, so it is enough that
//! `n^4 * (8 * tolerance)^2 >= |B''|^2`, which the count conditions below
//! state in exact integers.

use vstd::prelude::*;
use crate::glyph_render::div_round_i128;
use crate::glyph_render::spec_div_round;
use crate::vector2::Vec2;

verus! {

/// Subpixel coordinates accepted by the flattening routines.
pub open spec fn spec_coord_ok(v: int) -> bool {
    -0x1000_0000 <= v <= 0x1000_0000
}

/// Both components in range.
pub open spec fn spec_point_ok(p: Vec2<i64>) -> bool {
    spec_coord_ok(p.x as int) && spec_coord_ok(p.y as int)
}

/// The squared norm of the constant second derivative of the quadratic
/// curve, up to the factor 2: `|p0 - 2 p1 + p2|^2`.
pub open spec fn spec_quad_accel2(p0: Vec2<i64>, p1: Vec2<i64>, p2: Vec2<i64>) -> int {
    let ax = p0.x - 2 * p1.x + p2.x;
    let ay = p0.y - 2 * p1.y + p2.y;
    ax * ax + ay * ay
}

/// The count condition: `n` uniform steps keep the flatness error of a
/// curve with squared acceleration `s` under the tolerance. Derived from
/// `sqrt(s) / (4 n^2) <= 25.6` subpixels by squaring:
/// `25 s <= 262144 n^4`.
pub open spec fn spec_count_ok(n: int, s: int) -> bool {
    &&& n >= 1
    &&& 262144 * n * n * n * n >= 25 * s
    &&& (n > 1 ==> 262144 * (n - 1) * (n - 1) * (n - 1) * (n - 1) < 25 * s)
}

/// The point of the quadratic curve at parameter `i / n`, each component
/// rounded to the nearest subpixel:
/// `((n-i)^2 p0 + 2 i (n-i) p1 + i^2 p2) / n^2`.
pub open spec fn spec_quad_point(
    p0: Vec2<i64>,
    p1: Vec2<i64>,
    p2: Vec2<i64>,
    i: int,
    n: int,
) -> Vec2<i64> {
    let u = n - i;
    Vec2 {
        x: spec_div_round(u * u * p0.x + 2 * i * u * p1.x + i * i * p2.x, n * n) as i64,
        y: spec_div_round(u * u * p0.y + 2 * i * u * p1.y + i * i * p2.y, n * n) as i64,
    }
}

/// The point of the cubic curve at parameter `i / n`, rounded likewise:
/// `((n-i)^3 p0 + 3 i (n-i)^2 p1 + 3 i^2 (n-i) p2 + i^3 p3) / n^3`.
pub open spec fn spec_cube_point(
    p0: Vec2<i64>,
    p1: Vec2<i64>,
    p2: Vec2<i64>,
    p3: Vec2<i64>,
    i: int,
    n: int,
) -> Vec2<i64> {
    let u = n - i;
    Vec2 {
        x: spec_div_round(
            u * u * u * p0.x + 3 * i * u * u * p1.x + 3 * i * i * u * p2.x + i * i * i * p3.x,
            n * n * n,
        ) as i64,
        y: spec_div_round(
            u * u * u * p0.y + 3 * i * u * u * p1.y + 3 * i * i * u * p2.y + i * i * i * p3.y,
            n * n * n,
        ) as i64,
    }
}

/// The squared acceleration that drives the cubic count: the larger of
/// `|p0 - 2 p1 + p2|^2` and `|p1 - 2 p2 + p3|^2`, scaled by 9, since the
/// cubic second derivative reaches six times the control difference where
/// the quadratic one is twice it.
pub open spec fn spec_cube_accel2(
    p0: Vec2<i64>,
    p1: Vec2<i64>,
    p2: Vec2<i64>,
    p3: Vec2<i64>,
) -> int {
    let s1 = spec_quad_accel2(p0, p1, p2);
    let s2 = spec_quad_accel2(p1, p2, p3);
    9 * (if s1 >= s2 {
        s1
    } else {
        s2
    })
}

/// The smallest step count meeting the flatness tolerance for squared
/// acceleration `s`.
fn segment_count(s: i128) -> (n: u32)
    requires
        0 <= s <= 0x2_4000_0000_0000_0000i128,
    ensures
        spec_count_ok(n as int, s as int),
        n <= 8192,
{
    let mut n: u32 = 1;
    loop
        invariant
            1 <= n <= 8192,
            0 <= s <= 0x2_4000_0000_0000_0000i128,
            n > 1 ==> 262144 * (n - 1) * (n - 1) * (n - 1) * (n - 1) < 25 * s,
        ensures
            spec_count_ok(n as int, s as int),
            n <= 8192,
        decreases 8192 - n,
    {
        let ni: i128 = n as i128;
        proof {
            let N = ni as int;
            assert(0 <= N * N <= 0x800_0000 && 0 <= 262144 * (N * N) * N <= 0x2000_0000_0000_0000
                && 0 <= (262144 * (N * N) * N) * N <= 0x7000_0000_0000_0000_0000)
                by (nonlinear_arith)
                requires
                    1 <= N <= 8192,
            ;
        }
        let n2: i128 = ni * ni;
        let lhs: i128 = 262144 * n2 * ni * ni;
        proof {
            assert(lhs as int == 262144 * (ni as int) * (ni as int) * (ni as int) * (ni as int))
                by (nonlinear_arith)
                requires
                    lhs == 262144 * (ni * ni) * ni * ni,
            ;
        }
        if lhs >= 25 * s {
            break ;
        }
        proof {
            let N = n as int;
            assert(N <= 8191) by (nonlinear_arith)
                requires
                    262144 * N * N * N * N < 25 * s,
                    s <= 0x2_4000_0000_0000_0000i128,
                    N >= 1,
            ;
        }
        n = n + 1;
    }
    n
}

/// Evaluates the curve at `i / n` (see the matching spec function).
pub fn quad_curve_point(p0: Vec2<i64>, p1: Vec2<i64>, p2: Vec2<i64>, i: u32, n: u32) -> (r: Vec2<i64>)
    requires
        spec_point_ok(p0),
        spec_point_ok(p1),
        spec_point_ok(p2),
        1 <= n <= 8192,
        0 <= i <= n,
    ensures
        r == spec_quad_point(p0, p1, p2, i as int, n as int),
        spec_point_ok(r),
{
    let u: i128 = (n - i) as i128;
    let ii: i128 = i as i128;
    proof {
        let U = u as int;
        let I = ii as int;
        let N = n as int;
            assert(0 <= U * U <= 0x4000_0000 && 0 <= I * I <= 0x4000_0000 && 0 <= (2 * I) * U
                <= 0x8000_0000 && 1 <= N * N <= 0x4000_0000) by (nonlinear_arith)
                requires
                    0 <= U <= 8192,
                    0 <= I <= 8192,
                    1 <= N <= 8192,
            ;
            assert(-0x1000_0000_0000_0000 <= (U * U) * p0.x <= 0x1000_0000_0000_0000) by (nonlinear_arith)
                requires
                    0 <= (U * U) <= 0x8000_0000,
                    -0x1000_0000 <= p0.x <= 0x1000_0000,
            ;
            assert(-0x1000_0000_0000_0000 <= ((2 * I) * U) * p1.x <= 0x1000_0000_0000_0000) by (nonlinear_arith)
                requires
                    0 <= ((2 * I) * U) <= 0x8000_0000,
                    -0x1000_0000 <= p1.x <= 0x1000_0000,
            ;
            assert(-0x1000_0000_0000_0000 <= (I * I) * p2.x <= 0x1000_0000_0000_0000) by (nonlinear_arith)
                requires
                    0 <= (I * I) <= 0x8000_0000,
                    -0x1000_0000 <= p2.x <= 0x1000_0000,
            ;
            assert(-0x1000_0000_0000_0000 <= (U * U) * p0.y <= 0x1000_0000_0000_0000) by (nonlinear_arith)
                requires
                    0 <= (U * U) <= 0x8000_0000,
                    -0x1000_0000 <= p0.y <= 0x1000_0000,
            ;
            assert(-0x1000_0000_0000_0000 <= ((2 * I) * U) * p1.y <= 0x1000_0000_0000_0000) by (nonlinear_arith)
                requires
                    0 <= ((2 * I) * U) <= 0x8000_0000,
                    -0x1000_0000 <= p1.y <= 0x1000_0000,
            ;
            assert(-0x1000_0000_0000_0000 <= (I * I) * p2.y <= 0x1000_0000_0000_0000) by (nonlinear_arith)
                requires
                    0 <= (I * I) <= 0x8000_0000,
                    -0x1000_0000 <= p2.y <= 0x1000_0000,
            ;
            assert forall|cx0: int, cx1: int, cx2: int|
                spec_coord_ok(cx0) && spec_coord_ok(cx1) && spec_coord_ok(cx2) implies -0x1000_0000
                * (N * N) <= #[trigger] (U * U * cx0 + 2 * I * U * cx1 + I * I * cx2)
                <= 0x1000_0000 * (N * N) by {
                assert(-0x1000_0000 * (N * N) <= U * U * cx0 + 2 * I * U * cx1 + I * I * cx2
                    <= 0x1000_0000 * (N * N)) by (nonlinear_arith)
                    requires
                        0 <= U,
                        0 <= I,
                        U + I == N,
                        -0x1000_0000 <= cx0 <= 0x1000_0000,
                        -0x1000_0000 <= cx1 <= 0x1000_0000,
                        -0x1000_0000 <= cx2 <= 0x1000_0000,
                ;
            }
            assert(0x1000_0000 * (N * N) <= 0x1000_0000_0000_0000) by (nonlinear_arith)
                requires
                    1 <= N * N <= 0x4000_0000,
            ;
    }
    let nn: i128 = (n as i128) * (n as i128);
    let num_x: i128 = u * u * (p0.x as i128) + 2 * ii * u * (p1.x as i128) + ii * ii * (
    p2.x as i128);
    let num_y: i128 = u * u * (p0.y as i128) + 2 * ii * u * (p1.y as i128) + ii * ii * (
    p2.y as i128);
    let x = div_round_i128(num_x, nn);
    let y = div_round_i128(num_y, nn);
    proof {
        crate::glyph_render::lemma_div_round_bounded(num_x as int, nn as int, 0x1000_0000);
        crate::glyph_render::lemma_div_round_bounded(num_y as int, nn as int, 0x1000_0000);
    }
    Vec2 { x: x as i64, y: y as i64 }
}

/// Evaluates the curve at `i / n` (see the matching spec function).
pub fn cube_curve_point(p0: Vec2<i64>, p1: Vec2<i64>, p2: Vec2<i64>, p3: Vec2<i64>, i: u32, n: u32) -> (r: Vec2<i64>)
    requires
        spec_point_ok(p0),
        spec_point_ok(p1),
        spec_point_ok(p2),
        spec_point_ok(p3),
        1 <= n <= 8192,
        0 <= i <= n,
    ensures
        r == spec_cube_point(p0, p1, p2, p3, i as int, n as int),
        spec_point_ok(r),
{
    let u: i128 = (n - i) as i128;
    let ii: i128 = i as i128;
    proof {
        let U = u as int;
        let I = ii as int;
        let N = n as int;
            assert(0 <= U * U <= 0x4000_0000 && 0 <= I * I <= 0x4000_0000 && 0 <= (U * U) * U
                <= 0x100_0000_0000 && 0 <= (3 * I) * U <= 0x1_0000_0000 && 0 <= ((3 * I) * U) * U
                <= 0x400_0000_0000 && 0 <= (3 * I) * I <= 0x1_0000_0000 && 0 <= ((3 * I) * I) * U
                <= 0x400_0000_0000 && 0 <= (I * I) * I <= 0x100_0000_0000 && 1 <= N * N
                <= 0x4000_0000 && 1 <= (N * N) * N <= 0x100_0000_0000) by (nonlinear_arith)
                requires
                    0 <= U <= 8192,
                    0 <= I <= 8192,
                    1 <= N <= 8192,
            ;
            assert(-0x800_0000_0000_0000_0000 <= ((U * U) * U) * p0.x <= 0x800_0000_0000_0000_0000)
                by (nonlinear_arith)
                requires
                    0 <= ((U * U) * U) <= 0x400_0000_0000,
                    -0x1000_0000 <= p0.x <= 0x1000_0000,
            ;
            assert(-0x800_0000_0000_0000_0000 <= (((3 * I) * U) * U) * p1.x <= 0x800_0000_0000_0000_0000)
                by (nonlinear_arith)
                requires
                    0 <= (((3 * I) * U) * U) <= 0x400_0000_0000,
                    -0x1000_0000 <= p1.x <= 0x1000_0000,
            ;
            assert(-0x800_0000_0000_0000_0000 <= (((3 * I) * I) * U) * p2.x <= 0x800_0000_0000_0000_0000)
                by (nonlinear_arith)
                requires
                    0 <= (((3 * I) * I) * U) <= 0x400_0000_0000,
                    -0x1000_0000 <= p2.x <= 0x1000_0000,
            ;
            assert(-0x800_0000_0000_0000_0000 <= ((I * I) * I) * p3.x <= 0x800_0000_0000_0000_0000)
                by (nonlinear_arith)
                requires
                    0 <= ((I * I) * I) <= 0x400_0000_0000,
                    -0x1000_0000 <= p3.x <= 0x1000_0000,
            ;
            assert(-0x800_0000_0000_0000_0000 <= ((U * U) * U) * p0.y <= 0x800_0000_0000_0000_0000)
                by (nonlinear_arith)
                requires
                    0 <= ((U * U) * U) <= 0x400_0000_0000,
                    -0x1000_0000 <= p0.y <= 0x1000_0000,
            ;
            assert(-0x800_0000_0000_0000_0000 <= (((3 * I) * U) * U) * p1.y <= 0x800_0000_0000_0000_0000)
                by (nonlinear_arith)
                requires
                    0 <= (((3 * I) * U) * U) <= 0x400_0000_0000,
                    -0x1000_0000 <= p1.y <= 0x1000_0000,
            ;
            assert(-0x800_0000_0000_0000_0000 <= (((3 * I) * I) * U) * p2.y <= 0x800_0000_0000_0000_0000)
                by (nonlinear_arith)
                requires
                    0 <= (((3 * I) * I) * U) <= 0x400_0000_0000,
                    -0x1000_0000 <= p2.y <= 0x1000_0000,
            ;
            assert(-0x800_0000_0000_0000_0000 <= ((I * I) * I) * p3.y <= 0x800_0000_0000_0000_0000)
                by (nonlinear_arith)
                requires
                    0 <= ((I * I) * I) <= 0x400_0000_0000,
                    -0x1000_0000 <= p3.y <= 0x1000_0000,
            ;
            assert forall|cx0: int, cx1: int, cx2: int, cx3: int|
                spec_coord_ok(cx0) && spec_coord_ok(cx1) && spec_coord_ok(cx2) && spec_coord_ok(
                    cx3,
                ) implies -0x1000_0000 * ((N * N) * N) <= #[trigger] (U * U * U * cx0 + 3 * I * U
                * U * cx1 + 3 * I * I * U * cx2 + I * I * I * cx3) <= 0x1000_0000 * ((N * N)
                * N) by {
                assert(-0x1000_0000 * ((N * N) * N) <= U * U * U * cx0 + 3 * I * U * U * cx1 + 3
                    * I * I * U * cx2 + I * I * I * cx3 <= 0x1000_0000 * ((N * N) * N))
                    by (nonlinear_arith)
                    requires
                        0 <= U,
                        0 <= I,
                        U + I == N,
                        -0x1000_0000 <= cx0 <= 0x1000_0000,
                        -0x1000_0000 <= cx1 <= 0x1000_0000,
                        -0x1000_0000 <= cx2 <= 0x1000_0000,
                        -0x1000_0000 <= cx3 <= 0x1000_0000,
                ;
            }
            assert(0x1000_0000 * ((N * N) * N) <= 0x100_0000_0000_0000_0000) by (nonlinear_arith)
                requires
                    1 <= (N * N) * N <= 0x100_0000_0000,
            ;
    }
    let nnn: i128 = (n as i128) * (n as i128) * (n as i128);
    let num_x: i128 = u * u * u * (p0.x as i128) + 3 * ii * u * u * (p1.x as i128) + 3 * ii * ii * u
        * (p2.x as i128) + ii * ii * ii * (p3.x as i128);
    let num_y: i128 = u * u * u * (p0.y as i128) + 3 * ii * u * u * (p1.y as i128) + 3 * ii * ii * u
        * (p2.y as i128) + ii * ii * ii * (p3.y as i128);
    let x = div_round_i128(num_x, nnn);
    let y = div_round_i128(num_y, nnn);
    proof {
        crate::glyph_render::lemma_div_round_bounded(num_x as int, nnn as int, 0x1000_0000);
        crate::glyph_render::lemma_div_round_bounded(num_y as int, nnn as int, 0x1000_0000);
    }
    Vec2 { x: x as i64, y: y as i64 }
}

/// Flattens the quadratic curve into the points at `i / n` for
/// `i = 1 ..= n`, where `n` is the smallest count meeting the flatness
/// tolerance. The start point (`i = 0`) is left out: it duplicates the
/// caller's current point. The end point is hit exactly.
pub fn subdivide_quad_curve(p0: Vec2<i64>, p1: Vec2<i64>, p2: Vec2<i64>) -> (r: Vec<Vec2<i64>>)
    requires
        spec_point_ok(p0),
        spec_point_ok(p1),
        spec_point_ok(p2),
    ensures
        1 <= r@.len() <= 8192,
        spec_count_ok(r@.len() as int, spec_quad_accel2(p0, p1, p2)),
        forall|i: int|
            0 <= i < r@.len() ==> r@[i] == spec_quad_point(p0, p1, p2, i + 1, r@.len() as int),
        forall|i: int| 0 <= i < r@.len() ==> spec_point_ok(#[trigger] r@[i]),
{
    proof {
        let ax = p0.x - 2 * p1.x + p2.x;
        let ay = p0.y - 2 * p1.y + p2.y;
        assert(0 <= ax * ax <= 0x1000_0000_0000_0000 && 0 <= ay * ay <= 0x1000_0000_0000_0000
            && 0 <= ax * ax + ay * ay <= 0x2000_0000_0000_0000) by (nonlinear_arith)
            requires
                -0x4000_0000 <= ax <= 0x4000_0000,
                -0x4000_0000 <= ay <= 0x4000_0000,
        ;
    }
    let ax: i128 = p0.x as i128 - 2 * p1.x as i128 + p2.x as i128;
    let ay: i128 = p0.y as i128 - 2 * p1.y as i128 + p2.y as i128;
    let s: i128 = ax * ax + ay * ay;
    let n = segment_count(s);
    let mut r: Vec<Vec2<i64>> = Vec::new();
    let mut i: u32 = 1;
    while i <= n
        invariant
            1 <= i <= n + 1,
            1 <= n <= 8192,
            spec_point_ok(p0),
            spec_point_ok(p1),
            spec_point_ok(p2),
            r@.len() == i - 1,
            forall|t: int| 0 <= t < r@.len() ==> r@[t] == spec_quad_point(p0, p1, p2, t + 1, n as int),
            forall|t: int| 0 <= t < r@.len() ==> spec_point_ok(#[trigger] r@[t]),
        decreases n + 1 - i,
    {
        let p = quad_curve_point(p0, p1, p2, i, n);
        r.push(p);
        i = i + 1;
    }
    r
}

/// Flattens the cubic curve likewise (see [`subdivide_quad_curve`]).
pub fn subdivide_cube_curve(p0: Vec2<i64>, p1: Vec2<i64>, p2: Vec2<i64>, p3: Vec2<i64>) -> (r: Vec<
    Vec2<i64>,
>)
    requires
        spec_point_ok(p0),
        spec_point_ok(p1),
        spec_point_ok(p2),
        spec_point_ok(p3),
    ensures
        1 <= r@.len() <= 8192,
        spec_count_ok(r@.len() as int, spec_cube_accel2(p0, p1, p2, p3)),
        forall|i: int|
            0 <= i < r@.len() ==> r@[i] == spec_cube_point(p0, p1, p2, p3, i + 1, r@.len() as int),
        forall|i: int| 0 <= i < r@.len() ==> spec_point_ok(#[trigger] r@[i]),
{
    proof {
        let ax1 = p0.x - 2 * p1.x + p2.x;
        let ay1 = p0.y - 2 * p1.y + p2.y;
        let ax2 = p1.x - 2 * p2.x + p3.x;
        let ay2 = p1.y - 2 * p2.y + p3.y;
        assert(0 <= ax1 * ax1 <= 0x1000_0000_0000_0000 && 0 <= ay1 * ay1
            <= 0x1000_0000_0000_0000 && 0 <= ax2 * ax2 <= 0x1000_0000_0000_0000 && 0 <= ay2 * ay2
            <= 0x1000_0000_0000_0000 && 0 <= ax1 * ax1 + ay1 * ay1 <= 0x2000_0000_0000_0000 && 0
            <= ax2 * ax2 + ay2 * ay2 <= 0x2000_0000_0000_0000) by (nonlinear_arith)
            requires
                -0x4000_0000 <= ax1 <= 0x4000_0000,
                -0x4000_0000 <= ay1 <= 0x4000_0000,
                -0x4000_0000 <= ax2 <= 0x4000_0000,
                -0x4000_0000 <= ay2 <= 0x4000_0000,
        ;
    }
    let ax1: i128 = p0.x as i128 - 2 * p1.x as i128 + p2.x as i128;
    let ay1: i128 = p0.y as i128 - 2 * p1.y as i128 + p2.y as i128;
    let ax2: i128 = p1.x as i128 - 2 * p2.x as i128 + p3.x as i128;
    let ay2: i128 = p1.y as i128 - 2 * p2.y as i128 + p3.y as i128;
    let s1: i128 = ax1 * ax1 + ay1 * ay1;
    let s2: i128 = ax2 * ax2 + ay2 * ay2;
    let s: i128 = 9 * (if s1 >= s2 {
        s1
    } else {
        s2
    });
    let n = segment_count(s);
    let mut r: Vec<Vec2<i64>> = Vec::new();
    let mut i: u32 = 1;
    while i <= n
        invariant
            1 <= i <= n + 1,
            1 <= n <= 8192,
            spec_point_ok(p0),
            spec_point_ok(p1),
            spec_point_ok(p2),
            spec_point_ok(p3),
            r@.len() == i - 1,
            forall|t: int|
                0 <= t < r@.len() ==> r@[t] == spec_cube_point(p0, p1, p2, p3, t + 1, n as int),
            forall|t: int| 0 <= t < r@.len() ==> spec_point_ok(#[trigger] r@[t]),
        decreases n + 1 - i,
    {
        let p = cube_curve_point(p0, p1, p2, p3, i, n);
        r.push(p);
        i = i + 1;
    }
    r
}

} // verus!
