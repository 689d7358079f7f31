//! Line segments: rasterized point iteration, segment/segment crossing and
//! interval subtraction.

use vstd::prelude::*;
use crate::vector2::Vec2;

verus! {

/// A segment between two values (two points, or two scalars for an interval
/// of columns).
#[derive(Clone, Copy, Debug, PartialEq, Eq, Structural)]
pub struct Line<T> {
    pub p1: T,
    pub p2: T,
}

impl<T> Line<T> {
    pub fn new(p1: T, p2: T) -> (r: Self)
        ensures
            r == (Line { p1, p2 }),
    {
        Line { p1, p2 }
    }
}

/// A segment between two points in the plane.
pub type Line2<T> = Line<Vec2<T>>;

/// One of the two coordinate axes of the plane.
#[derive(Clone, Copy, Debug, PartialEq, Eq, Structural)]
pub enum Axis2d {
    X,
    Y,
}

/// Coordinates accepted by the point iterators: far enough from the `i32`
/// limits that differences and step counts cannot overflow.
pub open spec fn mid_i32(v: int) -> bool {
    -0x3FFF_FFFF <= v <= 0x3FFF_FFFF
}

/// Builds a point with the given major-axis and minor-axis values.
pub open spec fn spec_arrange(axis: Axis2d, i_value: int, j_value: int) -> Vec2<i32> {
    if axis == Axis2d::X {
        Vec2 { x: i_value as i32, y: j_value as i32 }
    } else {
        Vec2 { x: j_value as i32, y: i_value as i32 }
    }
}


/// The walk parameters of the by-axis iteration for the given endpoints:
/// `(start_major, start_minor, major_span, minor_span, minor_direction)`.
pub open spec fn spec_axis_params(point: Vec2<i32>, point2: Vec2<i32>, axis: Axis2d) -> (
    int,
    int,
    int,
    int,
    int,
) {
    let (a_i, a_j, b_i, b_j) = if axis == Axis2d::X {
        (point.x as int, point.y as int, point2.x as int, point2.y as int)
    } else {
        (point.y as int, point.x as int, point2.y as int, point2.x as int)
    };
    let (s_i, s_j, e_i, e_j) = if b_i > a_i {
        (a_i, a_j, b_i, b_j)
    } else {
        (b_i, b_j, a_i, a_j)
    };
    let len_i = if e_i >= s_i {
        e_i - s_i + 1
    } else {
        s_i - e_i + 1
    };
    let len_j = if e_j >= s_j {
        e_j - s_j + 1
    } else {
        s_j - e_j + 1
    };
    let dir = if s_j < e_j {
        1int
    } else {
        -1int
    };
    (s_i, s_j, len_i, len_j, dir)
}

/// How many points the by-axis walk yields.
pub open spec fn spec_axis_total(point: Vec2<i32>, point2: Vec2<i32>, axis: Axis2d) -> int {
    spec_axis_params(point, point2, axis).2
}

/// The `m`-th point of the by-axis walk.
pub open spec fn spec_axis_point(point: Vec2<i32>, point2: Vec2<i32>, axis: Axis2d, m: int) -> Vec2<
    i32,
> {
    let (s_i, s_j, len_i, len_j, dir) = spec_axis_params(point, point2, axis);
    spec_arrange(axis, s_i + m, s_j + dir * ((m * len_j) / len_i))
}

/// The axis the gap-free line walk advances along: the one with the larger
/// coordinate span.
pub open spec fn spec_line_axis(point: Vec2<i32>, point2: Vec2<i32>) -> Axis2d {
    let dx = if point2.x >= point.x {
        point2.x - point.x
    } else {
        point.x - point2.x
    };
    let dy = if point2.y >= point.y {
        point2.y - point.y
    } else {
        point.y - point2.y
    };
    if dx >= dy {
        Axis2d::X
    } else {
        Axis2d::Y
    }
}

/// Walks the pixels of a line segment along one axis: the chosen axis
/// advances by one each step, the other axis follows the line by
/// accumulated remainders, as in Bresenham's algorithm.
pub struct LinePointsByAxisIter {
    axis: Axis2d,
    len_i: i32,
    len_j: i32,
    error: i64,
    j_value: i32,
    dir: i32,
    i_value: i32,
    end_i_value: i32,
    start: Ghost<(int, int)>,
}

impl LinePointsByAxisIter {
    /// Steps taken so far.
    pub closed spec fn spec_steps(&self) -> int {
        self.i_value - self.start@.0
    }

    /// Total number of points the whole walk yields.
    pub closed spec fn spec_total(&self) -> int {
        self.len_i as int
    }

    pub closed spec fn spec_axis(&self) -> Axis2d {
        self.axis
    }

    /// Internal consistency: the error term and the minor coordinate hold
    /// exactly the accumulated-remainder values for the current step.
    pub closed spec fn wf(&self) -> bool {
        let m = self.i_value - self.start@.0;
        &&& (self.dir == 1 || self.dir == -1)
        &&& 1 <= self.len_i
        &&& 1 <= self.len_j
        &&& self.end_i_value == self.start@.0 + self.len_i - 1
        &&& 0 <= m <= self.len_i
        &&& mid_i32(self.start@.0)
        &&& mid_i32(self.start@.1)
        &&& mid_i32(self.end_i_value as int)
        &&& mid_i32(self.start@.1 + self.dir * (self.len_j - 1))
        &&& self.error == (m * self.len_j) % (self.len_i as int)
        &&& self.j_value == self.start@.1 + self.dir * ((m * self.len_j) / (self.len_i as int))
    }

    /// The point emitted `m` steps after the current one.
    pub closed spec fn spec_point_at(&self, m: int) -> Vec2<i32> {
        let steps = self.i_value - self.start@.0 + m;
        spec_arrange(
            self.axis,
            self.start@.0 + steps,
            self.start@.1 + self.dir * ((steps * self.len_j) / (self.len_i as int)),
        )
    }

    /// Minor-axis movement stays within the segment's own range.
    proof fn lemma_div_progress_bounds(&self, m: int)
        requires
            self.wf(),
            0 <= m <= self.len_i - 1,
        ensures
            0 <= (m * self.len_j) / (self.len_i as int) <= self.len_j - 1,
    {
        let li = self.len_i as int;
        let lj = self.len_j as int;
        assert(0 <= m * lj <= (li - 1) * lj) by (nonlinear_arith)
            requires
                0 <= m <= li - 1,
                1 <= lj,
        ;
        assert((m * lj) / li >= 0) by (nonlinear_arith)
            requires
                m * lj >= 0,
                li >= 1,
        ;
        assert((m * lj) / li <= lj - 1) by (nonlinear_arith)
            requires
                0 <= m * lj <= (li - 1) * lj,
                1 <= li,
                1 <= lj,
        ;
    }

    pub fn new(point: Vec2<i32>, point2: Vec2<i32>, axis: Axis2d) -> (r: Self)
        requires
            mid_i32(point.x as int),
            mid_i32(point.y as int),
            mid_i32(point2.x as int),
            mid_i32(point2.y as int),
        ensures
            r.wf(),
            r.spec_steps() == 0,
            r.spec_axis() == axis,
            r.spec_total() == spec_axis_total(point, point2, axis),
            forall|m: int| #[trigger] r.spec_point_at(m) == spec_axis_point(point, point2, axis, m),
    {
        let (a_i, a_j, b_i, b_j): (i32, i32, i32, i32) = match axis {
            Axis2d::X => (point.x, point.y, point2.x, point2.y),
            Axis2d::Y => (point.y, point.x, point2.y, point2.x),
        };
        // Walk in the direction of growing major axis.
        let (s_i, s_j, e_i, e_j): (i32, i32, i32, i32) = if b_i > a_i {
            (a_i, a_j, b_i, b_j)
        } else {
            (b_i, b_j, a_i, a_j)
        };
        let len_i: i32 = if e_i >= s_i {
            e_i - s_i + 1
        } else {
            s_i - e_i + 1
        };
        let len_j: i32 = if e_j >= s_j {
            e_j - s_j + 1
        } else {
            s_j - e_j + 1
        };
        let dir: i32 = if s_j < e_j {
            1
        } else {
            -1
        };
        let r = LinePointsByAxisIter {
            axis,
            len_i,
            len_j,
            error: 0,
            j_value: s_j,
            dir,
            i_value: s_i,
            end_i_value: e_i,
            start: Ghost((s_i as int, s_j as int)),
        };
        proof {
            assert((0 * len_j as int) == 0) by (nonlinear_arith);
            assert(0int % (len_i as int) == 0 && 0int / (len_i as int) == 0) by (nonlinear_arith)
                requires
                    len_i >= 1,
            ;
            assert(dir as int * 0 == 0) by (nonlinear_arith);
            if dir == 1 {
                assert(s_j as int + dir * (len_j - 1) == e_j) by (nonlinear_arith)
                    requires
                        dir == 1,
                        len_j == e_j - s_j + 1,
                ;
            } else {
                assert(s_j as int + dir * (len_j - 1) == e_j) by (nonlinear_arith)
                    requires
                        dir == -1,
                        len_j == s_j - e_j + 1,
                ;
            }
        }
        r
    }

    /// The next pixel of the walk, or `None` when the far endpoint has been
    /// passed.
    pub fn next(&mut self) -> (r: Option<Vec2<i32>>)
        requires
            old(self).wf(),
        ensures
            final(self).wf(),
            final(self).spec_axis() == old(self).spec_axis(),
            final(self).spec_total() == old(self).spec_total(),
            old(self).spec_steps() >= old(self).spec_total() ==> r is None && *final(self)
                == *old(self),
            old(self).spec_steps() < old(self).spec_total() ==> r == Some(
                old(self).spec_point_at(0),
            ) && final(self).spec_steps() == old(self).spec_steps() + 1 && (forall|m: int|
                final(self).spec_point_at(m) == old(self).spec_point_at(m + 1)),
    {
        if self.i_value > self.end_i_value {
            return None;
        }
        let ghost m = self.i_value - self.start@.0;
        let pos = match self.axis {
            Axis2d::X => Vec2 { x: self.i_value, y: self.j_value },
            Axis2d::Y => Vec2 { x: self.j_value, y: self.i_value },
        };
        proof {
            let li = self.len_i as int;
            let lj = self.len_j as int;
            let q = (m * lj) / li;
            let rr = (m * lj) % li;
            vstd::arithmetic::div_mod::lemma_mod_bound(m * lj, li);
            vstd::arithmetic::div_mod::lemma_fundamental_div_mod(m * lj, li);
            let k2 = (rr + lj) / li;
            let r2 = (rr + lj) % li;
            vstd::arithmetic::div_mod::lemma_mod_bound(rr + lj, li);
            vstd::arithmetic::div_mod::lemma_fundamental_div_mod(rr + lj, li);
            // Stepping once adds the remainder-carried quotient to the
            // minor coordinate.
            assert((m + 1) * lj == (q + k2) * li + r2) by (nonlinear_arith)
                requires
                    m * lj == li * q + rr,
                    rr + lj == li * k2 + r2,
            ;
            vstd::arithmetic::div_mod::lemma_fundamental_div_mod_converse(
                (m + 1) * lj,
                li,
                q + k2,
                r2,
            );
            self.lemma_div_progress_bounds(m);
            if m + 1 <= li - 1 {
                self.lemma_div_progress_bounds(m + 1);
            } else {
                assert((m + 1) * lj == lj * li + 0) by (nonlinear_arith)
                    requires
                        m + 1 == li,
                ;
                vstd::arithmetic::div_mod::lemma_fundamental_div_mod_converse(
                    (m + 1) * lj,
                    li,
                    lj,
                    0,
                );
            }
        }
        let new_error: i64 = self.error + self.len_j as i64;
        let k: i64 = new_error / self.len_i as i64;
        proof {
            let li = self.len_i as int;
            let lj = self.len_j as int;
            let q = (m * lj) / li;
            let k2 = (new_error as int) / li;
            assert(0 <= k2 <= lj);
            assert(0 <= q <= lj - 1);
            assert(q + k2 == ((m + 1) * lj) / li);
            assert(0 <= q + k2 <= lj);
            assert(self.j_value as int + k2 * (self.dir as int) == self.start@.1 + self.dir * (q
                + k2) && self.start@.1 - lj <= self.start@.1 + self.dir * (q + k2)
                <= self.start@.1 + lj) by (nonlinear_arith)
                requires
                    self.j_value == self.start@.1 + self.dir * q,
                    self.dir == 1 || self.dir == -1,
                    0 <= q + k2 <= lj,
            ;
        }
        self.error = new_error % self.len_i as i64;
        self.j_value = self.j_value + (k as i32) * self.dir;
        self.i_value = self.i_value + 1;
        Some(pos)
    }
}

/// Walks the pixels of a line segment, choosing the axis with the larger
/// span so that the walk never leaves gaps.
pub struct LinePointsIter {}

impl LinePointsIter {
    pub fn new(point: Vec2<i32>, point2: Vec2<i32>) -> (r: LinePointsByAxisIter)
        requires
            mid_i32(point.x as int),
            mid_i32(point.y as int),
            mid_i32(point2.x as int),
            mid_i32(point2.y as int),
        ensures
            r.wf(),
            r.spec_steps() == 0,
            r.spec_axis() == spec_line_axis(point, point2),
            r.spec_total() == spec_axis_total(point, point2, spec_line_axis(point, point2)),
            forall|m: int| #[trigger] r.spec_point_at(m) == spec_axis_point(
                point,
                point2,
                spec_line_axis(point, point2),
                m,
            ),
    {
        let dx: i32 = if point2.x >= point.x {
            point2.x - point.x
        } else {
            point.x - point2.x
        };
        let dy: i32 = if point2.y >= point.y {
            point2.y - point.y
        } else {
            point.y - point2.y
        };
        if dx >= dy {
            LinePointsByAxisIter::new(point, point2, Axis2d::X)
        } else {
            LinePointsByAxisIter::new(point, point2, Axis2d::Y)
        }
    }
}

/// The exact rational crossing condition of two closed segments: both
/// interpolation parameters lie in `[0, 1]`. Parallel pairs (zero
/// denominator) report no crossing, collinear overlap included.
pub open spec fn spec_segments_cross(
    p1: Vec2<i32>,
    p2: Vec2<i32>,
    q1: Vec2<i32>,
    q2: Vec2<i32>,
) -> bool {
    let den = (q2.y - q1.y) * (p2.x - p1.x) - (q2.x - q1.x) * (p2.y - p1.y);
    let a = (q2.x - q1.x) * (p1.y - q1.y) - (q2.y - q1.y) * (p1.x - q1.x);
    let b = (p2.x - p1.x) * (p1.y - q1.y) - (p2.y - p1.y) * (p1.x - q1.x);
    if den == 0 {
        false
    } else if den > 0 {
        0 <= a <= den && 0 <= b <= den
    } else {
        den <= a <= 0 && den <= b <= 0
    }
}

/// Whether the closed segment `line_point`–`line_point2` crosses the closed
/// segment `line2_point`–`line2_point2`, in exact integer arithmetic;
/// parallel segments report `false` even when collinear and overlapping.
pub fn is_crossing_line_segments(
    line_point: Vec2<i32>,
    line_point2: Vec2<i32>,
    line2_point: Vec2<i32>,
    line2_point2: Vec2<i32>,
) -> (r: bool)
    ensures
        r == spec_segments_cross(line_point, line_point2, line2_point, line2_point2),
{
    let x1 = line_point.x as i128;
    let y1 = line_point.y as i128;
    let x2 = line_point2.x as i128;
    let y2 = line_point2.y as i128;
    let x3 = line2_point.x as i128;
    let y3 = line2_point.y as i128;
    let x4 = line2_point2.x as i128;
    let y4 = line2_point2.y as i128;

    let dy43 = y4 - y3;
    let dx21 = x2 - x1;
    let dx43 = x4 - x3;
    let dy21 = y2 - y1;
    let dy13 = y1 - y3;
    let dx13 = x1 - x3;
    proof {
        assert forall|u: int, v: int|
            -0x1_0000_0000 <= u <= 0x1_0000_0000 && -0x1_0000_0000 <= v <= 0x1_0000_0000
                implies -0x1_0000_0000_0000_0000 <= #[trigger] (u * v)
                <= 0x1_0000_0000_0000_0000 by {
            assert(-0x1_0000_0000_0000_0000 <= u * v <= 0x1_0000_0000_0000_0000)
                by (nonlinear_arith)
                requires
                    -0x1_0000_0000 <= u <= 0x1_0000_0000,
                    -0x1_0000_0000 <= v <= 0x1_0000_0000,
            ;
        }
    }
    let den = dy43 * dx21 - dx43 * dy21;
    let a = dx43 * dy13 - dy43 * dx13;
    let b = dx21 * dy13 - dy21 * dx13;

    if den == 0 {
        false
    } else if den > 0 {
        0 <= a && a <= den && 0 <= b && b <= den
    } else {
        den <= a && a <= 0 && den <= b && b <= 0
    }
}

/// True when `m` lies in one of the intervals of `r`.
pub open spec fn spec_covered(r: Seq<Line<i32>>, m: int) -> bool {
    exists|k: int| 0 <= k < r.len() && (#[trigger] r[k]).p1 <= m <= r[k].p2
}

/// True when `m` occurs among the first `k` values of `points`.
pub open spec fn spec_point_among(points: Seq<i32>, k: int, m: int) -> bool {
    exists|j: int| 0 <= j < k && #[trigger] points[j] == m
}

/// Subtracts a set of columns from the interval `line`, returning the
/// maximal runs of columns in `line` that contain none of the points.
/// `points` must be sorted ascending; duplicates are allowed.
#[verifier::rlimit(100)]
pub fn intersect(line: Line<i32>, points: &Vec<i32>) -> (r: Vec<Line<i32>>)
    requires
        forall|i: int, j: int| 0 <= i < j < points@.len() ==> points@[i] <= points@[j],
    ensures
        forall|k: int|
            0 <= k < r@.len() ==> line.p1 <= (#[trigger] r@[k]).p1 && r@[k].p1 <= r@[k].p2
                && r@[k].p2 <= line.p2,
        forall|k: int| 0 <= k && k + 1 < r@.len() ==> (#[trigger] r@[k]).p2 + 2 <= r@[k + 1].p1,
        forall|m: int|
            line.p1 <= m <= line.p2 ==> (#[trigger] spec_covered(r@, m) <==> !spec_point_among(
                points@,
                points@.len() as int,
                m,
            )),
{
    let mut r: Vec<Line<i32>> = Vec::new();
    let mut start: i64 = line.p1 as i64;
    let mut idx: usize = 0;
    if line.p2 < line.p1 {
        return r;
    }
    while idx < points.len() && points[idx] as i64 <= line.p2 as i64
        invariant
            forall|i: int, j: int| 0 <= i < j < points@.len() ==> points@[i] <= points@[j],
            line.p1 <= line.p2,
            idx <= points@.len(),
            line.p1 <= start <= line.p2 as i64 + 1,
            idx > 0 ==> points@[idx - 1] < start,
            start > line.p1 as i64 ==> spec_point_among(points@, idx as int, start - 1),
            forall|k: int|
                0 <= k < r@.len() ==> line.p1 <= (#[trigger] r@[k]).p1 && r@[k].p1 <= r@[k].p2
                    && r@[k].p2 + 2 <= start,
            forall|k: int| 0 <= k && k + 1 < r@.len() ==> (#[trigger] r@[k]).p2 + 2 <= r@[k + 1].p1,
            forall|m: int|
                line.p1 <= m < start ==> (#[trigger] spec_covered(r@, m) <==> !spec_point_among(
                    points@,
                    idx as int,
                    m,
                )),
        decreases points@.len() - idx,
    {
        let pt: i64 = points[idx] as i64;
        let ghost r_old = r@;
        let ghost start_old = start as int;
        if pt >= start {
            if pt > start {
                r.push(Line { p1: start as i32, p2: (pt - 1) as i32 });
            }
            start = pt + 1;
        }
        idx = idx + 1;
        proof {
            let n = r@.len() as int;
            // Every prefix point sits below the old cursor.
            assert forall|j: int| 0 <= j < idx - 1 implies #[trigger] points@[j]
                < start_old by {
                assert(points@[j] <= points@[idx - 2] || j == idx - 2);
                if j < idx - 2 {
                    assert(points@[j] <= points@[idx - 2]);
                }
            }
            // Interval bounds carry over to the new list and cursor.
            assert forall|k: int| 0 <= k < n implies line.p1 <= (#[trigger] r@[k]).p1 && r@[k].p1
                <= r@[k].p2 && r@[k].p2 + 2 <= start by {
                if k < r_old.len() {
                    assert(r@[k] == r_old[k]);
                } else {
                    assert(r@[k] == (Line { p1: start_old as i32, p2: (pt - 1) as i32 }));
                }
            }
            assert forall|k: int| 0 <= k && k + 1 < n implies (#[trigger] r@[k]).p2 + 2 <= r@[k
                + 1].p1 by {
                assert(r@[k] == r_old[k]);
                if k + 1 < r_old.len() {
                    assert(r@[k + 1] == r_old[k + 1]);
                } else {
                    assert(r@[k + 1] == (Line { p1: start_old as i32, p2: (pt - 1) as i32 }));
                }
            }
            // The covered columns below the cursor are exactly those missing
            // from the prefix.
            assert forall|m: int| line.p1 <= m < start implies (#[trigger] spec_covered(r@, m)
                <==> !spec_point_among(points@, idx as int, m)) by {
                if m < start_old {
                    if spec_covered(r_old, m) {
                        let k = choose|k: int|
                            0 <= k < r_old.len() && (#[trigger] r_old[k]).p1 <= m <= r_old[k].p2;
                        assert(r@[k].p1 <= m <= r@[k].p2);
                        assert(spec_covered(r@, m));
                    }
                    if spec_covered(r@, m) && !spec_covered(r_old, m) {
                        let k = choose|k: int|
                            0 <= k < r@.len() && (#[trigger] r@[k]).p1 <= m <= r@[k].p2;
                        assert(k == r_old.len());
                        assert(r@[k].p1 == start_old as i32);
                        assert(false);
                    }
                    if spec_point_among(points@, idx as int, m) {
                        let j = choose|j: int| 0 <= j < idx && #[trigger] points@[j] == m;
                        if j == idx - 1 {
                            // The consumed point: below the old cursor only
                            // when it duplicates the recorded cursor edge.
                            assert(pt < start_old || m > start_old - 1);
                            if pt < start_old {
                                assert(start_old > line.p1);
                                let j0 = choose|j0: int|
                                    0 <= j0 < idx - 1 && #[trigger] points@[j0] == start_old - 1;
                                assert(points@[j0] <= points@[idx - 1]);
                                assert(pt == start_old - 1);
                                assert(spec_point_among(points@, idx as int - 1, m));
                            }
                        } else {
                            assert(spec_point_among(points@, idx as int - 1, m));
                        }
                    }
                    if spec_point_among(points@, idx as int - 1, m) {
                        assert(spec_point_among(points@, idx as int, m));
                    }
                } else {
                    // Columns between the old cursor and the consumed point.
                    assert(start_old <= pt);
                    if m < pt {
                        assert(pt > start_old);
                        assert(r@[n - 1].p1 <= m <= r@[n - 1].p2);
                        assert(spec_covered(r@, m));
                        if spec_point_among(points@, idx as int, m) {
                            let j = choose|j: int| 0 <= j < idx && #[trigger] points@[j] == m;
                            if j < idx - 1 {
                                assert(points@[j] < start_old);
                            }
                            assert(false);
                        }
                    } else {
                        assert(m == pt);
                        assert(points@[idx - 1] == m);
                        assert(spec_point_among(points@, idx as int, m));
                        if spec_covered(r@, m) {
                            let k = choose|k: int|
                                0 <= k < r@.len() && (#[trigger] r@[k]).p1 <= m <= r@[k].p2;
                            assert(r@[k].p2 + 2 <= start);
                            assert(false);
                        }
                    }
                }
            }
        }
    }
    let ghost idx_end = idx as int;
    proof {
        // No remaining point lands in the uncovered tail of the interval.
        assert forall|m: int| start <= m <= line.p2 implies !spec_point_among(
            points@,
            points@.len() as int,
            m,
        ) by {
            if spec_point_among(points@, points@.len() as int, m) {
                let j = choose|j: int| 0 <= j < points@.len() && #[trigger] points@[j] == m;
                if j < idx_end {
                    if j < idx_end - 1 {
                        assert(points@[j] <= points@[idx_end - 1]);
                    }
                    assert(points@[j] < start);
                } else {
                    // The loop stopped: either everything was consumed, or
                    // the next point already lies past the interval.
                    assert(idx_end < points@.len() && points@[idx_end] > line.p2);
                    assert(points@[idx_end] <= points@[j] || j == idx_end);
                }
                assert(false);
            }
        }
        // Prefix membership and full membership agree below the cursor.
        assert forall|m: int| line.p1 <= m < start implies (spec_point_among(
            points@,
            idx_end,
            m,
        ) <==> spec_point_among(points@, points@.len() as int, m)) by {
            if spec_point_among(points@, points@.len() as int, m) && !spec_point_among(
                points@,
                idx_end,
                m,
            ) {
                let j = choose|j: int| 0 <= j < points@.len() && #[trigger] points@[j] == m;
                assert(j >= idx_end);
                if idx_end < points@.len() && points@[idx_end] as i64 > line.p2 as i64 {
                    assert(points@[idx_end] <= points@[j] || j == idx_end);
                    assert(m > line.p2);
                    assert(m < start);
                    assert(start <= line.p2 as i64 + 1);
                    assert(false);
                } else {
                    assert(idx_end == points@.len());
                    assert(false);
                }
            }
            if spec_point_among(points@, idx_end, m) {
                assert(spec_point_among(points@, points@.len() as int, m));
            }
        }
    }
    if start <= line.p2 as i64 {
        let ghost r_before = r@;
        r.push(Line { p1: start as i32, p2: line.p2 });
        proof {
            assert forall|m: int| line.p1 <= m < start implies (#[trigger] spec_covered(r@, m)
                <==> spec_covered(r_before, m)) by {
                if spec_covered(r_before, m) {
                    let k = choose|k: int|
                        0 <= k < r_before.len() && (#[trigger] r_before[k]).p1 <= m
                            <= r_before[k].p2;
                    assert(r@[k].p1 <= m <= r@[k].p2);
                }
                if spec_covered(r@, m) {
                    let k = choose|k: int|
                        0 <= k < r@.len() && (#[trigger] r@[k]).p1 <= m <= r@[k].p2;
                    if k < r_before.len() {
                        assert(spec_covered(r_before, m));
                    }
                }
            }
            assert forall|m: int| start <= m <= line.p2 implies spec_covered(r@, m) by {
                assert(r@[r@.len() - 1].p1 <= m <= r@[r@.len() - 1].p2);
            }
            assert forall|k: int| 0 <= k < r@.len() implies line.p1 <= (#[trigger] r@[k]).p1
                && r@[k].p1 <= r@[k].p2 && r@[k].p2 <= line.p2 by {
                if k < r_before.len() {
                    assert(r@[k] == r_before[k]);
                } else {
                    assert(r@[k] == (Line { p1: start as i32, p2: line.p2 }));
                }
            }
            assert forall|k: int| 0 <= k && k + 1 < r@.len() implies (#[trigger] r@[k]).p2 + 2 <= r@[k
                + 1].p1 by {
                assert(r@[k] == r_before[k]);
                if k + 1 < r_before.len() {
                    assert(r@[k + 1] == r_before[k + 1]);
                } else {
                    assert(r@[k + 1] == (Line { p1: start as i32, p2: line.p2 }));
                }
            }
        }
    }
    r
}

} // verus!
