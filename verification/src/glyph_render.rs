//! Closed outlines tagged with a winding direction, and the scanline
//! rasterizer that fills them into a pixel buffer.
//!
//! Conventions, fixed here once for the whole crate: pixel `y` grows
//! downward; a simple polygon traced clockwise on screen has a
//! non-negative doubled signed area (sum of cross products of consecutive
//! vertices) and is classified [`SweepDirection::Clockwise`]. Clockwise
//! outlines are filled with the foreground value, counter-clockwise ones
//! punch the hole value strictly between their crossings.

use vstd::prelude::*;
use crate::buffer2d::Buffer2dRead;
use crate::buffer2d::Buffer2dWrite;
use crate::rasterizate::SimpleRasterizate;
use crate::rasterizate::spec_pix_at;
use crate::curve::spec_count_ok;
use crate::curve::spec_cube_accel2;
use crate::curve::spec_cube_point;
use crate::curve::spec_point_ok;
use crate::curve::spec_quad_accel2;
use crate::curve::spec_quad_point;
use crate::curve::subdivide_cube_curve;
use crate::curve::subdivide_quad_curve;
use crate::matrix3x3::Mat3x3;
use crate::vector2::Vec2;

verus! {

/// The sense in which a closed outline is traced.
#[derive(Clone, Copy, Debug, PartialEq, Eq, Structural)]
pub enum SweepDirection {
    Clockwise,
    Counterclockwise,
}

/// Twice the cross product term of two consecutive vertices.
pub open spec fn spec_cross(p: Vec2<i32>, q: Vec2<i32>) -> int {
    p.x * q.y - p.y * q.x
}

/// The cross term of edge `i` of the closed polygon: from vertex `i` to
/// vertex `i + 1`, the last edge wrapping back to vertex `0`.
pub open spec fn spec_edge_term(s: Seq<Vec2<i32>>, i: int) -> int {
    spec_cross(
        s[i],
        s[
            if i + 1 == s.len() {
                0int
            } else {
                i + 1
            }
        ],
    )
}

/// Sum of the edge cross terms over edge indices `[a, b)`.
pub open spec fn spec_term_sum(s: Seq<Vec2<i32>>, a: int, b: int) -> int
    decreases b - a,
{
    if a >= b {
        0
    } else {
        spec_edge_term(s, a) + spec_term_sum(s, a + 1, b)
    }
}

/// Twice the signed area of the closed polygon, in y-down coordinates:
/// non-negative for a clockwise trace.
pub open spec fn spec_signed_area2(s: Seq<Vec2<i32>>) -> int {
    spec_term_sum(s, 0, s.len() as int)
}

/// The winding direction the builder assigns at close time.
pub open spec fn spec_direction_of(s: Seq<Vec2<i32>>) -> SweepDirection {
    if spec_signed_area2(s) >= 0 {
        SweepDirection::Clockwise
    } else {
        SweepDirection::Counterclockwise
    }
}

/// The most vertices an outline may hold; the winding accumulator cannot
/// overflow below this count.
pub const MAX_OUTLINE_POINTS: usize = 0x1000_0000;

/// Computes the winding direction of a closed polygon from the sign of its
/// doubled signed area.
pub fn compute_direction(points: &Vec<Vec2<i32>>) -> (r: SweepDirection)
    requires
        points@.len() <= MAX_OUTLINE_POINTS,
    ensures
        r == spec_direction_of(points@),
{
    let n = points.len();
    let mut acc: i128 = 0;
    let mut i: usize = 0;
    proof {
        lemma_term_sum_bound(points@, 0, n as int);
    }
    while i < n
        invariant
            i <= n,
            n == points@.len(),
            n <= MAX_OUTLINE_POINTS,
            acc == spec_term_sum(points@, 0, i as int),
        decreases n - i,
    {
        let p = points[i];
        let q = if i + 1 == n {
            points[0]
        } else {
            points[i + 1]
        };
        proof {
            assert(-0x8000_0000_0000_0000i128 <= (p.x as i128) * (q.y as i128)
                <= 0x8000_0000_0000_0000i128) by (nonlinear_arith)
                requires
                    -0x8000_0000 <= p.x as i128 <= 0x8000_0000,
                    -0x8000_0000 <= q.y as i128 <= 0x8000_0000,
            ;
            assert(-0x8000_0000_0000_0000i128 <= (p.y as i128) * (q.x as i128)
                <= 0x8000_0000_0000_0000i128) by (nonlinear_arith)
                requires
                    -0x8000_0000 <= p.y as i128 <= 0x8000_0000,
                    -0x8000_0000 <= q.x as i128 <= 0x8000_0000,
            ;
            lemma_term_sum_bound(points@, 0, i as int);
            lemma_term_sum_split(points@, 0, i as int, i as int + 1);
            assert(spec_term_sum(points@, i as int + 1, i as int + 1) == 0);
            assert(spec_term_sum(points@, i as int, i as int + 1) == spec_edge_term(
                points@,
                i as int,
            ));
            lemma_term_sum_bound(points@, 0, i as int + 1);
            assert((i as int) * 0x1_0000_0000_0000_0000 <= 0x1000_0000
                * 0x1_0000_0000_0000_0000 && (i as int + 1) * 0x1_0000_0000_0000_0000 <= 0x1000_0000
                * 0x1_0000_0000_0000_0000) by (nonlinear_arith)
                requires
                    i + 1 <= 0x1000_0000,
            ;
        }
        let term: i128 = (p.x as i128) * (q.y as i128) - (p.y as i128) * (q.x as i128);
        acc = acc + term;
        i = i + 1;
    }
    if acc >= 0 {
        SweepDirection::Clockwise
    } else {
        SweepDirection::Counterclockwise
    }
}

/// Each edge term is bounded by the square of the coordinate range, so a
/// partial sum never overflows the accumulator.
pub proof fn lemma_term_sum_bound(s: Seq<Vec2<i32>>, a: int, b: int)
    requires
        0 <= a <= b,
        b <= s.len(),
    ensures
        -(b - a) * 0x1_0000_0000_0000_0000 <= spec_term_sum(s, a, b) <= (b - a)
            * 0x1_0000_0000_0000_0000,
    decreases b - a,
{
    if a >= b {
    } else {
        lemma_term_sum_bound(s, a + 1, b);
        let p = s[a];
        let q = s[
            if a + 1 == s.len() {
                0int
            } else {
                a + 1
            }
        ];
        assert(-0x8000_0000_0000_0000 <= p.x * q.y <= 0x8000_0000_0000_0000) by (nonlinear_arith)
            requires
                -0x8000_0000 <= p.x <= 0x8000_0000,
                -0x8000_0000 <= q.y <= 0x8000_0000,
        ;
        assert(-0x8000_0000_0000_0000 <= p.y * q.x <= 0x8000_0000_0000_0000) by (nonlinear_arith)
            requires
                -0x8000_0000 <= p.y <= 0x8000_0000,
                -0x8000_0000 <= q.x <= 0x8000_0000,
        ;
        assert((b - a) * 0x1_0000_0000_0000_0000 == 0x1_0000_0000_0000_0000 + (b - a - 1)
            * 0x1_0000_0000_0000_0000) by (nonlinear_arith);
    }
}

/// A sum over `[a, c)` splits at any middle point `b`.
pub proof fn lemma_term_sum_split(s: Seq<Vec2<i32>>, a: int, b: int, c: int)
    requires
        a <= b <= c,
    ensures
        spec_term_sum(s, a, c) == spec_term_sum(s, a, b) + spec_term_sum(s, b, c),
    decreases b - a,
{
    if a < b {
        lemma_term_sum_split(s, a + 1, b, c);
    }
}

/// A closed polygon outline: at least two vertices, the last connecting
/// back to the first, with the winding direction fixed at creation from
/// the vertex order and never recomputed.
pub struct Outline {
    pub direction: SweepDirection,
    pub points: Vec<Vec2<i32>>,
}

impl Outline {
    /// The invariant every outline of a [`GlyphRender`] carries.
    pub open spec fn wf(&self) -> bool {
        self.points@.len() >= 2 && self.direction == spec_direction_of(self.points@)
    }
}

/// How a segment meets a scanline row, in y-down coordinates: `Above`
/// means the rest of the segment lies above the row (smaller `y`),
/// `Below` that it lies below, `Both` that the segment strictly straddles
/// the row, and `Flat` that the segment lies exactly on the row.
#[derive(Clone, Copy, Debug, PartialEq, Eq, Structural)]
pub enum CrossingKind {
    Above,
    Below,
    Both,
    Flat,
}

/// One crossing of an outline edge with a scanline row. Ephemeral: built,
/// sorted, cleaned and paired per row, then discarded.
#[derive(Clone, Copy, Debug, PartialEq, Eq, Structural)]
pub struct ScanlineCrossing {
    pub x: i32,
    pub kind: CrossingKind,
    pub edge: usize,
}

/// Division rounded to the nearest integer, halves away from zero.
pub open spec fn spec_div_round(a: int, b: int) -> int {
    let aa = if b < 0 {
        -a
    } else {
        a
    };
    let bb = if b < 0 {
        -b
    } else {
        b
    };
    if aa >= 0 {
        (2 * aa + bb) / (2 * bb)
    } else {
        -((2 * (-aa) + bb) / (2 * bb))
    }
}

/// The column where the edge from `p1` to `p2` meets row `y`, rounded to
/// the nearest integer. Exact at the endpoints.
pub open spec fn spec_edge_x(p1: Vec2<i32>, p2: Vec2<i32>, y: int) -> int {
    p1.x + spec_div_round((y - p1.y) * (p2.x - p1.x), p2.y - p1.y)
}

/// A value divided by `b` stays between the multiples of `b` around it.
pub proof fn lemma_div_round_range(a: int, b: int, lo: int, hi: int)
    requires
        b != 0,
        (if b > 0 {
            lo * b <= a <= hi * b
        } else {
            hi * b <= a <= lo * b
        }),
        lo <= 0 <= hi,
    ensures
        lo <= spec_div_round(a, b) <= hi,
{
    let aa = if b < 0 {
        -a
    } else {
        a
    };
    let bb = if b < 0 {
        -b
    } else {
        b
    };
    assert(lo * bb <= aa <= hi * bb) by (nonlinear_arith)
        requires
            (if b > 0 {
                lo * b <= a <= hi * b
            } else {
                hi * b <= a <= lo * b
            }),
            b != 0,
            aa == (if b < 0 {
                -a
            } else {
                a
            }),
            bb == (if b < 0 {
                -b
            } else {
                b
            }),
    ;
    if aa >= 0 {
        let x = 2 * aa + bb;
        let d = 2 * bb;
        let q = x / d;
        let r = x % d;
        vstd::arithmetic::div_mod::lemma_fundamental_div_mod(x, d);
        vstd::arithmetic::div_mod::lemma_mod_bound(x, d);
        assert(q <= hi && lo <= q) by (nonlinear_arith)
            requires
                x == d * q + r,
                0 <= r < d,
                d == 2 * bb,
                x == 2 * aa + bb,
                bb >= 1,
                0 <= aa <= hi * bb,
                lo <= 0,
        ;
    } else {
        let x = 2 * (-aa) + bb;
        let d = 2 * bb;
        let q = x / d;
        let r = x % d;
        vstd::arithmetic::div_mod::lemma_fundamental_div_mod(x, d);
        vstd::arithmetic::div_mod::lemma_mod_bound(x, d);
        assert(-q >= lo && -q <= hi) by (nonlinear_arith)
            requires
                x == d * q + r,
                0 <= r < d,
                d == 2 * bb,
                x == 2 * (-aa) + bb,
                bb >= 1,
                aa < 0,
                lo * bb <= aa,
                hi >= 0,
        ;
    }
}

/// A rounded quotient of a value within `c` multiples of the divisor
/// stays within `c`.
pub proof fn lemma_div_round_bounded(a: int, b: int, c: int)
    requires
        b >= 1,
        c >= 0,
        -c * b <= a <= c * b,
    ensures
        -c <= spec_div_round(a, b) <= c,
{
    lemma_div_round_range(a, b, -c, c);
}

/// The crossing column lies between the two endpoint columns.
proof fn lemma_edge_x_range(p1: Vec2<i32>, p2: Vec2<i32>, y: int)
    requires
        p1.y != p2.y,
        (if p1.y <= p2.y {
            p1.y <= y <= p2.y
        } else {
            p2.y <= y <= p1.y
        }),
    ensures
        (if p1.x <= p2.x {
            p1.x <= spec_edge_x(p1, p2, y) <= p2.x
        } else {
            p2.x <= spec_edge_x(p1, p2, y) <= p1.x
        }),
{
    let num = (y - p1.y) * (p2.x - p1.x);
    let den = p2.y - p1.y;
    let dx = p2.x - p1.x;
    if dx >= 0 {
        assert((if den > 0 {
            0 * den <= num <= dx * den
        } else {
            dx * den <= num <= 0 * den
        })) by (nonlinear_arith)
            requires
                num == (y - p1.y) * dx,
                den == p2.y - p1.y,
                dx >= 0,
                den != 0,
                (if p1.y <= p2.y {
                    p1.y <= y <= p2.y
                } else {
                    p2.y <= y <= p1.y
                }),
        ;
        lemma_div_round_range(num, den, 0, dx);
    } else {
        assert((if den > 0 {
            dx * den <= num <= 0 * den
        } else {
            0 * den <= num <= dx * den
        })) by (nonlinear_arith)
            requires
                num == (y - p1.y) * dx,
                den == p2.y - p1.y,
                dx < 0,
                den != 0,
                (if p1.y <= p2.y {
                    p1.y <= y <= p2.y
                } else {
                    p2.y <= y <= p1.y
                }),
        ;
        lemma_div_round_range(num, den, dx, 0);
    }
}

/// Division rounded to nearest, halves away from zero, on machine
/// integers.
pub(crate) fn div_round_i128(a: i128, b: i128) -> (r: i128)
    requires
        b != 0,
        -0x1_0000_0000_0000_0000_0000i128 <= a <= 0x1_0000_0000_0000_0000_0000i128,
        -0x100_0000_0000i128 <= b <= 0x100_0000_0000i128,
    ensures
        r == spec_div_round(a as int, b as int),
{
    let (aa, bb): (i128, i128) = if b < 0 {
        (-a, -b)
    } else {
        (a, b)
    };
    if aa >= 0 {
        (2 * aa + bb) / (2 * bb)
    } else {
        -((2 * (-aa) + bb) / (2 * bb))
    }
}

/// The crossings edge `e` from `p1` to `p2` contributes to row `y`: none
/// when the row misses the edge, a flat pair for a horizontal edge on the
/// row, one classified crossing otherwise.
pub open spec fn spec_classify(p1: Vec2<i32>, p2: Vec2<i32>, y: int, e: int) -> Seq<
    ScanlineCrossing,
> {
    if p1.y == p2.y {
        if p1.y == y {
            let lo_x = if p1.x <= p2.x {
                p1.x
            } else {
                p2.x
            };
            let hi_x = if p1.x <= p2.x {
                p2.x
            } else {
                p1.x
            };
            seq![
                ScanlineCrossing { x: lo_x, kind: CrossingKind::Flat, edge: e as usize },
                ScanlineCrossing { x: hi_x, kind: CrossingKind::Flat, edge: e as usize },
            ]
        } else {
            seq![]
        }
    } else {
        let lo = if p1.y <= p2.y {
            p1.y as int
        } else {
            p2.y as int
        };
        let hi = if p1.y <= p2.y {
            p2.y as int
        } else {
            p1.y as int
        };
        if lo <= y <= hi {
            let kind = if y == lo {
                CrossingKind::Below
            } else if y == hi {
                CrossingKind::Above
            } else {
                CrossingKind::Both
            };
            seq![
                ScanlineCrossing { x: spec_edge_x(p1, p2, y) as i32, kind, edge: e as usize },
            ]
        } else {
            seq![]
        }
    }
}

/// Classifies one edge against row `y` (see [`spec_classify`]).
pub fn classify_edge(p1: Vec2<i32>, p2: Vec2<i32>, y: i32, e: usize) -> (r: Vec<ScanlineCrossing>)
    ensures
        r@ == spec_classify(p1, p2, y as int, e as int),
{
    let mut r: Vec<ScanlineCrossing> = Vec::new();
    if p1.y == p2.y {
        if p1.y == y {
            let (lo_x, hi_x) = if p1.x <= p2.x {
                (p1.x, p2.x)
            } else {
                (p2.x, p1.x)
            };
            r.push(ScanlineCrossing { x: lo_x, kind: CrossingKind::Flat, edge: e });
            r.push(ScanlineCrossing { x: hi_x, kind: CrossingKind::Flat, edge: e });
            proof {
                assert(r@ =~= spec_classify(p1, p2, y as int, e as int));
            }
        } else {
            proof {
                assert(r@ =~= spec_classify(p1, p2, y as int, e as int));
            }
        }
        return r;
    }
    let (lo, hi): (i32, i32) = if p1.y <= p2.y {
        (p1.y, p2.y)
    } else {
        (p2.y, p1.y)
    };
    if lo <= y && y <= hi {
        let kind = if y == lo {
            CrossingKind::Below
        } else if y == hi {
            CrossingKind::Above
        } else {
            CrossingKind::Both
        };
        proof {
            assert(-0x1_0000_0000_0000_0000i128 <= (y as i128 - p1.y as i128) * (p2.x as i128
                - p1.x as i128) <= 0x1_0000_0000_0000_0000i128) by (nonlinear_arith)
                requires
                    -0x1_0000_0000i128 <= y as i128 - p1.y as i128 <= 0x1_0000_0000i128,
                    -0x1_0000_0000i128 <= p2.x as i128 - p1.x as i128 <= 0x1_0000_0000i128,
            ;
            lemma_edge_x_range(p1, p2, y as int);
        }
        let num: i128 = (y as i128 - p1.y as i128) * (p2.x as i128 - p1.x as i128);
        let den: i128 = p2.y as i128 - p1.y as i128;
        let xq: i128 = p1.x as i128 + div_round_i128(num, den);
        let x: i32 = xq as i32;
        r.push(ScanlineCrossing { x, kind, edge: e });
        proof {
            assert(r@ =~= spec_classify(p1, p2, y as int, e as int));
        }
    } else {
        proof {
            assert(r@ =~= spec_classify(p1, p2, y as int, e as int));
        }
    }
    r
}

/// The two endpoints of edge `i` of the closed polygon `points`: the last
/// edge wraps back to the first vertex.
pub open spec fn spec_edge_points(points: Seq<Vec2<i32>>, i: int) -> (Vec2<i32>, Vec2<i32>) {
    (
        points[i],
        points[
            if i + 1 == points.len() {
                0int
            } else {
                i + 1
            }
        ],
    )
}

/// All point crossings the first `k` edges contribute to row `y`, in edge
/// order. Flat pairs carry no crossing of their own: the fill of a
/// boundary row is decided by the `Above`/`Below` crossings of the edges
/// adjacent to the flat one, which keeps an all-horizontal degenerate
/// outline from painting anything.
pub open spec fn spec_collect(points: Seq<Vec2<i32>>, y: int, k: int) -> Seq<ScanlineCrossing>
    decreases k,
{
    if k <= 0 {
        seq![]
    } else {
        let (p1, p2) = spec_edge_points(points, k - 1);
        let cs = spec_classify(p1, p2, y, k - 1);
        spec_collect(points, y, k - 1) + (if cs.len() > 0 && cs[0].kind == CrossingKind::Flat {
            seq![]
        } else {
            cs
        })
    }
}

/// Sort rank of a crossing kind; ties on the column sort `Above` before
/// `Below` so that a vertex-touch pair stands adjacent.
pub open spec fn spec_rank(k: CrossingKind) -> int {
    match k {
        CrossingKind::Above => 0,
        CrossingKind::Below => 1,
        CrossingKind::Both => 2,
        CrossingKind::Flat => 3,
    }
}

/// Total order on crossings: by column, then kind, then edge index.
pub open spec fn spec_key_le(a: ScanlineCrossing, b: ScanlineCrossing) -> bool {
    a.x < b.x || (a.x == b.x && (spec_rank(a.kind) < spec_rank(b.kind) || (spec_rank(a.kind)
        == spec_rank(b.kind) && a.edge <= b.edge)))
}

/// Inserts a crossing into a sorted sequence, keeping the order.
pub open spec fn spec_insert_sorted(s: Seq<ScanlineCrossing>, c: ScanlineCrossing) -> Seq<
    ScanlineCrossing,
>
    decreases s.len(),
{
    if s.len() == 0 {
        seq![c]
    } else if spec_key_le(c, s[0]) {
        seq![c] + s
    } else {
        seq![s[0]] + spec_insert_sorted(s.skip(1), c)
    }
}

/// Insertion sort of the crossings of one row.
pub open spec fn spec_sort(s: Seq<ScanlineCrossing>) -> Seq<ScanlineCrossing>
    decreases s.len(),
{
    if s.len() == 0 {
        seq![]
    } else {
        spec_insert_sorted(spec_sort(s.drop_last()), s.last())
    }
}

/// An `Above` and a `Below` in either order.
pub open spec fn spec_complementary(a: CrossingKind, b: CrossingKind) -> bool {
    (a == CrossingKind::Above && b == CrossingKind::Below) || (a == CrossingKind::Below && b
        == CrossingKind::Above)
}

/// Whether two edge indices are neighbours around the closed polygon of
/// `n` edges.
pub open spec fn spec_adjacent_edges(e1: int, e2: int, n: int) -> bool {
    e1 + 1 == e2 || e2 + 1 == e1 || (e1 == 0 && e2 == n - 1) || (e2 == 0 && e1 == n - 1)
}

/// Vertex-touch cleanup: two crossings at the same column from adjacent
/// edges, one `Above` and one `Below`, are the two halves of the outline
/// passing through a shared vertex on the row; they merge into a single
/// crossing so the vertex is not counted twice.
pub open spec fn spec_merge(s: Seq<ScanlineCrossing>, n: int) -> Seq<ScanlineCrossing>
    decreases s.len(),
{
    if s.len() < 2 {
        s
    } else if s[0].x == s[1].x && spec_complementary(s[0].kind, s[1].kind) && spec_adjacent_edges(
        s[0].edge as int,
        s[1].edge as int,
        n,
    ) {
        seq![ScanlineCrossing { x: s[0].x, kind: CrossingKind::Both, edge: s[0].edge }]
            + spec_merge(s.skip(2), n)
    } else {
        seq![s[0]] + spec_merge(s.skip(1), n)
    }
}

/// Left-to-right pairing of the cleaned crossings of one row. An odd
/// count signals degenerate geometry: the row is skipped for this
/// outline. A shrunk span excludes both endpoints, as hole filling
/// demands.
pub open spec fn spec_pair_spans(c: Seq<ScanlineCrossing>, shrink: bool) -> Seq<(int, int)> {
    if c.len() % 2 == 1 {
        seq![]
    } else {
        Seq::new(
            (c.len() / 2) as nat,
            |k: int|
                if shrink {
                    (c[2 * k].x + 1, c[2 * k + 1].x - 1)
                } else {
                    (c[2 * k].x as int, c[2 * k + 1].x as int)
                },
        )
    }
}

/// The filled spans of one outline on row `y`: crossings collected over
/// every edge, sorted, vertex-touches merged, then paired.
pub open spec fn spec_row_spans(points: Seq<Vec2<i32>>, y: int, shrink: bool) -> Seq<(int, int)> {
    spec_pair_spans(
        spec_merge(spec_sort(spec_collect(points, y, points.len() as int)), points.len() as int),
        shrink,
    )
}

/// True when column `x` lies in one of `spans`.
pub open spec fn spec_spans_cover(spans: Seq<(int, int)>, x: int) -> bool {
    exists|k: int| 0 <= k < spans.len() && (#[trigger] spans[k]).0 <= x <= spans[k].1
}

/// True when column `x` of row `y` is filled by the outline `points`.
pub open spec fn spec_row_covers(points: Seq<Vec2<i32>>, y: int, x: int, shrink: bool) -> bool {
    spec_spans_cover(spec_row_spans(points, y, shrink), x)
}

/// Collects the point crossings of every edge of the outline with row
/// `y`, in edge order (see [`spec_collect`]).
fn collect_row_crossings(points: &Vec<Vec2<i32>>, y: i32) -> (r: Vec<ScanlineCrossing>)
    requires
        points@.len() >= 1,
    ensures
        r@ == spec_collect(points@, y as int, points@.len() as int),
{
    let n = points.len();
    let mut collected: Vec<ScanlineCrossing> = Vec::new();
    let mut i: usize = 0;
    while i < n
        invariant
            i <= n,
            n == points@.len(),
            n >= 1,
            collected@ == spec_collect(points@, y as int, i as int),
        decreases n - i,
    {
        let p1 = points[i];
        let p2 = if i + 1 == n {
            points[0]
        } else {
            points[i + 1]
        };
        let cs = classify_edge(p1, p2, y, i);
        if !(cs.len() > 0 && matches!(cs[0].kind, CrossingKind::Flat)) {
            let mut j: usize = 0;
            let ghost before = collected@;
            while j < cs.len()
                invariant
                    j <= cs@.len(),
                    collected@ == before + cs@.take(j as int),
                decreases cs@.len() - j,
            {
                collected.push(cs[j]);
                proof {
                    assert(before + cs@.take(j as int + 1) =~= (before + cs@.take(j as int)).push(
                        cs@[j as int],
                    ));
                }
                j = j + 1;
            }
            proof {
                assert(cs@.take(cs@.len() as int) =~= cs@);
            }
        }
        proof {
            assert(spec_collect(points@, y as int, i as int + 1) == spec_collect(
                points@,
                y as int,
                i as int,
            ) + (if cs@.len() > 0 && cs@[0].kind == CrossingKind::Flat {
                seq![]
            } else {
                cs@
            }));
            if cs@.len() > 0 && cs@[0].kind == CrossingKind::Flat {
                assert(collected@ =~= spec_collect(points@, y as int, i as int + 1));
            }
        }
        i = i + 1;
    }
    collected
}

/// Insertion sort of a row's crossings by (column, kind, edge).
fn sort_crossings(collected: &Vec<ScanlineCrossing>) -> (r: Vec<ScanlineCrossing>)
    ensures
        r@ == spec_sort(collected@),
{
    let mut sorted: Vec<ScanlineCrossing> = Vec::new();
    let mut i: usize = 0;
    while i < collected.len()
        invariant
            i <= collected@.len(),
            sorted@ == spec_sort(collected@.take(i as int)),
        decreases collected@.len() - i,
    {
        let c = collected[i];
        let mut j: usize = 0;
        while j < sorted.len() && !crossing_le(c, sorted[j])
            invariant
                j <= sorted@.len(),
                forall|t: int| 0 <= t < j ==> !spec_key_le(c, sorted@[t]),
            decreases sorted@.len() - j,
        {
            j = j + 1;
        }
        let ghost sorted_before = sorted@;
        sorted.insert(j, c);
        proof {
            lemma_insert_sorted_at(sorted_before, c, j as int);
            assert(sorted@ =~= sorted_before.take(j as int) + seq![c] + sorted_before.skip(
                j as int,
            ));
            assert(collected@.take(i as int + 1).drop_last() =~= collected@.take(i as int));
            assert(collected@.take(i as int + 1).last() == collected@[i as int]);
        }
        i = i + 1;
    }
    proof {
        assert(collected@.take(collected@.len() as int) =~= collected@);
    }
    sorted
}

/// Vertex-touch cleanup of a sorted crossing list (see [`spec_merge`]);
/// `n` is the outline's edge count.
fn merge_crossings(sorted: &Vec<ScanlineCrossing>, n: usize) -> (r: Vec<ScanlineCrossing>)
    requires
        n >= 1,
    ensures
        r@ == spec_merge(sorted@, n as int),
{
    let mut merged: Vec<ScanlineCrossing> = Vec::new();
    let mut i: usize = 0;
    proof {
        assert(sorted@.skip(0) =~= sorted@);
    }
    while i < sorted.len()
        invariant
            i <= sorted@.len(),
            n >= 1,
            spec_merge(sorted@, n as int) == merged@ + spec_merge(sorted@.skip(i as int), n as int),
        decreases sorted@.len() - i,
    {
        let a = sorted[i];
        let ghost tail = sorted@.skip(i as int);
        proof {
            assert(tail[0] == a);
        }
        if i + 1 < sorted.len() {
            let b = sorted[i + 1];
            proof {
                assert(tail[1] == b);
            }
            let adjacent = (a.edge as u128) + 1 == (b.edge as u128) || (b.edge as u128) + 1 == (
            a.edge as u128) || (a.edge == 0 && b.edge == n - 1) || (b.edge == 0 && a.edge == n - 1);
            let compl = (matches!(a.kind, CrossingKind::Above) && matches!(
                b.kind,
                CrossingKind::Below,
            )) || (matches!(a.kind, CrossingKind::Below) && matches!(b.kind, CrossingKind::Above));
            if a.x == b.x && compl && adjacent {
                merged.push(ScanlineCrossing { x: a.x, kind: CrossingKind::Both, edge: a.edge });
                proof {
                    assert(tail.skip(2) =~= sorted@.skip(i as int + 2));
                    assert(spec_merge(tail, n as int) == seq![
                        ScanlineCrossing { x: a.x, kind: CrossingKind::Both, edge: a.edge },
                    ] + spec_merge(sorted@.skip(i as int + 2), n as int));
                }
                i = i + 2;
                continue ;
            }
        }
        merged.push(a);
        proof {
            assert(tail.skip(1) =~= sorted@.skip(i as int + 1));
            assert(spec_merge(tail, n as int) == seq![a] + spec_merge(
                sorted@.skip(i as int + 1),
                n as int,
            ));
        }
        i = i + 1;
    }
    proof {
        assert(sorted@.skip(sorted@.len() as int) =~= Seq::<ScanlineCrossing>::empty());
        assert(merged@ =~= merged@ + spec_merge(sorted@.skip(sorted@.len() as int), n as int));
    }
    merged
}

/// Collects, sorts and cleans the crossings of one outline on row `y`.
pub fn outline_row_crossings(points: &Vec<Vec2<i32>>, y: i32) -> (r: Vec<ScanlineCrossing>)
    requires
        points@.len() >= 1,
    ensures
        r@ == spec_merge(
            spec_sort(spec_collect(points@, y as int, points@.len() as int)),
            points@.len() as int,
        ),
{
    let collected = collect_row_crossings(points, y);
    let sorted = sort_crossings(&collected);
    merge_crossings(&sorted, points.len())
}

/// Sort rank of a crossing kind (see [`spec_rank`]).
fn rank(k: CrossingKind) -> (r: u8)
    ensures
        r as int == spec_rank(k),
{
    match k {
        CrossingKind::Above => 0,
        CrossingKind::Below => 1,
        CrossingKind::Both => 2,
        CrossingKind::Flat => 3,
    }
}

/// The sort order of two crossings (see [`spec_key_le`]).
fn crossing_le(a: ScanlineCrossing, b: ScanlineCrossing) -> (r: bool)
    ensures
        r == spec_key_le(a, b),
{
    a.x < b.x || (a.x == b.x && (rank(a.kind) < rank(b.kind) || (rank(a.kind) == rank(b.kind)
        && a.edge <= b.edge)))
}

/// Inserting before the first larger element is what the sorted-insert
/// recursion does.
proof fn lemma_insert_sorted_at(s: Seq<ScanlineCrossing>, c: ScanlineCrossing, j: int)
    requires
        0 <= j <= s.len(),
        forall|t: int| 0 <= t < j ==> !spec_key_le(c, s[t]),
        j < s.len() ==> spec_key_le(c, s[j]),
    ensures
        spec_insert_sorted(s, c) == s.take(j) + seq![c] + s.skip(j),
    decreases j,
{
    if s.len() == 0 {
        assert(spec_insert_sorted(s, c) =~= s.take(j) + seq![c] + s.skip(j));
    } else if j == 0 {
        assert(spec_key_le(c, s[0]));
        assert(spec_insert_sorted(s, c) =~= s.take(0) + seq![c] + s.skip(0));
    } else {
        assert(!spec_key_le(c, s[0]));
        lemma_insert_sorted_at(s.skip(1), c, j - 1);
        assert(s.skip(1).take(j - 1) =~= s.take(j).skip(1));
        assert(s.skip(1).skip(j - 1) =~= s.skip(j));
        assert(spec_insert_sorted(s, c) == seq![s[0]] + spec_insert_sorted(s.skip(1), c));
        assert(seq![s[0]] + (s.skip(1).take(j - 1) + seq![c] + s.skip(1).skip(j - 1)) =~= s.take(j)
            + seq![c] + s.skip(j));
    }
}

/// True when column `x` lies in one of the machine-integer spans.
pub open spec fn spec_spans_cover_vec(spans: Seq<(i32, i32)>, x: int) -> bool {
    exists|k: int| 0 <= k < spans.len() && (#[trigger] spans[k]).0 <= x <= spans[k].1
}

/// The spans of one outline on row `y`, paired left to right from the
/// cleaned crossings; empty on odd parity (degenerate geometry for this
/// row). `shrink` excludes the two endpoints of every span.
pub fn outline_row_spans(points: &Vec<Vec2<i32>>, y: i32, shrink: bool) -> (r: Vec<(i32, i32)>)
    requires
        points@.len() >= 1,
    ensures
        forall|x: int|
            #[trigger] spec_spans_cover_vec(r@, x) <==> spec_row_covers(
                points@,
                y as int,
                x,
                shrink,
            ),
{
    let merged = outline_row_crossings(points, y);
    let ghost spans_spec = spec_row_spans(points@, y as int, shrink);
    let mut r: Vec<(i32, i32)> = Vec::new();
    if merged.len() % 2 == 1 {
        proof {
            assert(spans_spec.len() == 0);
            assert forall|x: int| #[trigger] spec_spans_cover_vec(r@, x) <==> spec_row_covers(
                points@,
                y as int,
                x,
                shrink,
            ) by {
                assert(!spec_spans_cover_vec(r@, x));
                assert(!spec_spans_cover(spans_spec, x));
            }
        }
        return r;
    }
    let merged_len = merged.len();
    let half = merged_len / 2;
    let mut k: usize = 0;
    proof {
        assert(spans_spec.len() == half);
    }
    while k < half
        invariant
            k <= half,
            half == merged@.len() / 2,
            merged_len == merged@.len(),
            merged@.len() % 2 == 0,
            merged@ == spec_merge(
                spec_sort(spec_collect(points@, y as int, points@.len() as int)),
                points@.len() as int,
            ),
            spans_spec == spec_row_spans(points@, y as int, shrink),
            spans_spec.len() == half,
            spans_spec == spec_pair_spans(merged@, shrink),
            forall|x: int|
                #[trigger] spec_spans_cover_vec(r@, x) <==> (exists|t: int|
                    0 <= t < k && (#[trigger] spans_spec[t]).0 <= x <= spans_spec[t].1),
        decreases half - k,
    {
        proof {
            vstd::arithmetic::div_mod::lemma_fundamental_div_mod(merged@.len() as int, 2);
            assert(2 * half == merged@.len());
        }
        let a: i32 = merged[2 * k].x;
        let b: i32 = merged[2 * k + 1].x;
        let ghost r_before = r@;
        let ghost sp = spans_spec[k as int];
        proof {
            assert(sp == (if shrink {
                (a as int + 1, b as int - 1)
            } else {
                (a as int, b as int)
            }));
        }
        if shrink {
            if (a as i64) + 1 <= (b as i64) - 1 {
                r.push((a + 1, b - 1));
            }
        } else {
            r.push((a, b));
        }
        proof {
            assert forall|x: int| #[trigger] spec_spans_cover_vec(r@, x) <==> (exists|t: int|
                0 <= t < k + 1 && (#[trigger] spans_spec[t]).0 <= x <= spans_spec[t].1) by {
                if spec_spans_cover_vec(r@, x) {
                    let j = choose|j: int|
                        0 <= j < r@.len() && (#[trigger] r@[j]).0 <= x <= r@[j].1;
                    if j < r_before.len() {
                        assert(spec_spans_cover_vec(r_before, x));
                        let t = choose|t: int|
                            0 <= t < k && (#[trigger] spans_spec[t]).0 <= x <= spans_spec[t].1;
                        assert(0 <= t < k + 1 && spans_spec[t].0 <= x <= spans_spec[t].1);
                    } else {
                        assert(sp.0 <= x <= sp.1);
                        assert(0 <= k < k + 1 && spans_spec[k as int].0 <= x <= spans_spec[
                            k as int
                        ].1);
                    }
                }
                if exists|t: int|
                    0 <= t < k + 1 && (#[trigger] spans_spec[t]).0 <= x <= spans_spec[t].1 {
                    let t = choose|t: int|
                        0 <= t < k + 1 && (#[trigger] spans_spec[t]).0 <= x <= spans_spec[t].1;
                    if t < k {
                        assert(spec_spans_cover_vec(r_before, x));
                        let j = choose|j: int|
                            0 <= j < r_before.len() && (#[trigger] r_before[j]).0 <= x
                                <= r_before[j].1;
                        assert(r@[j] == r_before[j]);
                        assert(spec_spans_cover_vec(r@, x));
                    } else {
                        assert(sp.0 <= x <= sp.1);
                        assert(sp.0 <= sp.1);
                        assert(r@[r@.len() - 1].0 <= x <= r@[r@.len() - 1].1);
                        assert(spec_spans_cover_vec(r@, x));
                    }
                }
            }
        }
        k = k + 1;
    }
    proof {
        assert forall|x: int| #[trigger] spec_spans_cover_vec(r@, x) <==> spec_row_covers(
            points@,
            y as int,
            x,
            shrink,
        ) by {
            if spec_spans_cover(spans_spec, x) {
                let t = choose|t: int|
                    0 <= t < spans_spec.len() && (#[trigger] spans_spec[t]).0 <= x
                        <= spans_spec[t].1;
                assert(0 <= t < k && spans_spec[t].0 <= x <= spans_spec[t].1);
            }
        }
    }
    r
}

/// Fills every span of `spans` on row `y` of the buffer with `value`;
/// all other pixels keep their value.
fn fill_spans(
    buffer: &mut crate::buffer2d::Buffer2d<crate::vector4::Vec4<u8>>,
    y: i32,
    spans: &Vec<(i32, i32)>,
    value: crate::vector4::Vec4<u8>,
)
    requires
        old(buffer).wf(),
    ensures
        final(buffer).wf(),
        final(buffer).spec_width() == old(buffer).spec_width(),
        final(buffer).spec_height() == old(buffer).spec_height(),
        final(buffer).spec_view().len() == old(buffer).spec_view().len(),
        forall|px: int, py: int|
            0 <= px < old(buffer).spec_width() && 0 <= py < old(buffer).spec_height()
                ==> #[trigger] spec_pix_at(final(buffer).spec_view(), old(buffer).spec_width(), px, py) == (if py
                == y && spec_spans_cover_vec(spans@, px) {
                value
            } else {
                spec_pix_at(old(buffer).spec_view(), old(buffer).spec_width(), px, py)
            }),
{
    let ghost w = old(buffer).spec_width();
    let ghost h = old(buffer).spec_height();
    proof {
        old(buffer).lemma_wf_len();
    }
    let n = spans.len();
    let mut j: usize = 0;
    while j < n
        invariant
            buffer.wf(),
            w == buffer.spec_width(),
            h == buffer.spec_height(),
            buffer.spec_view().len() == old(buffer).spec_view().len(),
            buffer.spec_view().len() == w * h,
            j <= n,
            n == spans@.len(),
            forall|px: int, py: int|
                0 <= px < w && 0 <= py < h ==> #[trigger] spec_pix_at(buffer.spec_view(), w, px, py) == (if py == y && (
                exists|t: int|
                    0 <= t < j && (#[trigger] spans@[t]).0 <= px <= spans@[t].1) {
                    value
                } else {
                    spec_pix_at(old(buffer).spec_view(), w, px, py)
                }),
        decreases n - j,
    {
        let (lo, hi) = spans[j];
        let ghost view_before = buffer.spec_view();
        if lo > hi {
            proof {
                assert forall|px: int, py: int| 0 <= px < w && 0 <= py < h implies
                    #[trigger] spec_pix_at(buffer.spec_view(), w, px, py) == (if py == y && (
                exists|t: int|
                    0 <= t < j + 1 && (#[trigger] spans@[t]).0 <= px <= spans@[t].1) {
                    value
                } else {
                    spec_pix_at(old(buffer).spec_view(), w, px, py)
                }) by {
                    if exists|t: int|
                        0 <= t < j + 1 && (#[trigger] spans@[t]).0 <= px <= spans@[t].1 {
                        let t = choose|t: int|
                            0 <= t < j + 1 && (#[trigger] spans@[t]).0 <= px <= spans@[t].1;
                        assert(t != j);
                        assert(0 <= t < j && spans@[t].0 <= px <= spans@[t].1);
                    }
                }
            }
            j = j + 1;
            continue ;
        }
        buffer.draw_horizontal_line(lo, hi, y, value);
        proof {
            assert forall|px: int, py: int| 0 <= px < w && 0 <= py < h implies
                #[trigger] spec_pix_at(buffer.spec_view(), w, px, py) == (if py == y && (exists|t: int|
                0 <= t < j + 1 && (#[trigger] spans@[t]).0 <= px <= spans@[t].1) {
                value
            } else {
                spec_pix_at(old(buffer).spec_view(), w, px, py)
            }) by {
                assert(0 <= py * w + px < w * h) by (nonlinear_arith)
                    requires
                        0 <= px < w,
                        0 <= py < h,
                ;
                crate::rasterizate::lemma_on_hline_at(
                    w,
                    h,
                    lo as int,
                    hi as int,
                    y as int,
                    px,
                    py,
                );
                assert(buffer.spec_view()[py * w + px] == (if crate::rasterizate::spec_on_hline(
                    w,
                    h,
                    lo as int,
                    hi as int,
                    y as int,
                    py * w + px,
                ) {
                    value
                } else {
                    view_before[py * w + px]
                }));
                if py == y && lo <= px <= hi {
                    assert(0 <= j < j + 1 && spans@[j as int].0 <= px <= spans@[j as int].1);
                } else {
                    assert(#[trigger] spec_pix_at(buffer.spec_view(), w, px, py) == spec_pix_at(
                        view_before,
                        w,
                        px,
                        py,
                    ));
                    if py == y && exists|t: int|
                        0 <= t < j + 1 && (#[trigger] spans@[t]).0 <= px <= spans@[t].1 {
                        let t = choose|t: int|
                            0 <= t < j + 1 && (#[trigger] spans@[t]).0 <= px <= spans@[t].1;
                        assert(t != j);
                        assert(0 <= t < j && spans@[t].0 <= px <= spans@[t].1);
                    }
                }
            }
        }
        j = j + 1;
    }
    proof {
        assert forall|px: int, py: int| 0 <= px < w && 0 <= py < h implies
            #[trigger] spec_pix_at(buffer.spec_view(), w, px, py) == (if py == y && spec_spans_cover_vec(spans@, px) {
            value
        } else {
            spec_pix_at(old(buffer).spec_view(), w, px, py)
        }) by {
        }
    }
}

/// True when some outline of direction `dir` fills column `x` of row `y`.
/// Counter-clockwise outlines cover only strictly between their
/// crossings.
pub open spec fn spec_dir_covers(
    outlines: Seq<Outline>,
    dir: SweepDirection,
    y: int,
    x: int,
) -> bool {
    exists|k: int|
        0 <= k < outlines.len() && (#[trigger] outlines[k]).direction == dir && spec_row_covers(
            outlines[k].points@,
            y,
            x,
            dir == SweepDirection::Counterclockwise,
        )
}

/// A set of direction-tagged closed outlines, ready to be filled.
pub struct GlyphRender {
    pub outlines: Vec<Outline>,
}

impl GlyphRender {
    /// Every outline carries its invariant.
    pub open spec fn wf(&self) -> bool {
        forall|k: int| 0 <= k < self.outlines@.len() ==> (#[trigger] self.outlines@[k]).wf()
    }

    /// Scanline-fills the outlines into `buffer`: row by row, every
    /// clockwise outline paints `foreground` across its spans, then every
    /// counter-clockwise outline paints `hole` strictly between its
    /// crossings, punching the interior of holes. Pixels no outline
    /// covers keep their value.
    pub fn rasterizate(
        &self,
        buffer: &mut crate::buffer2d::Buffer2d<crate::vector4::Vec4<u8>>,
        foreground: crate::vector4::Vec4<u8>,
        hole: crate::vector4::Vec4<u8>,
    )
        requires
            old(buffer).wf(),
            old(buffer).spec_height() <= 0x7FFF_FFFF,
            self.wf(),
        ensures
            final(buffer).wf(),
            final(buffer).spec_width() == old(buffer).spec_width(),
            final(buffer).spec_height() == old(buffer).spec_height(),
            final(buffer).spec_view().len() == old(buffer).spec_view().len(),
            forall|px: int, py: int|
                0 <= px < old(buffer).spec_width() && 0 <= py < old(buffer).spec_height()
                    ==> #[trigger] spec_pix_at(final(buffer).spec_view(), old(buffer).spec_width(), px, py) == (if
                    spec_dir_covers(self.outlines@, SweepDirection::Counterclockwise, py, px) {
                    hole
                } else if spec_dir_covers(self.outlines@, SweepDirection::Clockwise, py, px) {
                    foreground
                } else {
                    spec_pix_at(old(buffer).spec_view(), old(buffer).spec_width(), px, py)
                }),
    {
        let ghost w = old(buffer).spec_width();
        let ghost h = old(buffer).spec_height();
        let height = buffer.height();
        let mut y: usize = 0;
        while y < height
            invariant
                buffer.wf(),
                w == buffer.spec_width(),
                h == buffer.spec_height(),
                h <= 0x7FFF_FFFF,
                height == h,
                buffer.spec_view().len() == old(buffer).spec_view().len(),
                y <= height,
                self.wf(),
                forall|px: int, py: int|
                    0 <= px < w && 0 <= py < h ==> #[trigger] spec_pix_at(buffer.spec_view(), w, px, py) == (if py < y
                        && spec_dir_covers(
                        self.outlines@,
                        SweepDirection::Counterclockwise,
                        py,
                        px,
                    ) {
                        hole
                    } else if py < y && spec_dir_covers(
                        self.outlines@,
                        SweepDirection::Clockwise,
                        py,
                        px,
                    ) {
                        foreground
                    } else {
                        spec_pix_at(old(buffer).spec_view(), w, px, py)
                    }),
            decreases height - y,
        {
            let yi: i32 = y as i32;
            let row = self.row_spans(yi);
            let (cw_spans, cc_spans) = row;
            let ghost view_before = buffer.spec_view();
            fill_spans(buffer, yi, &cw_spans, foreground);
            fill_spans(buffer, yi, &cc_spans, hole);
            proof {
                assert forall|px: int, py: int| 0 <= px < w && 0 <= py < h implies
                    #[trigger] spec_pix_at(buffer.spec_view(), w, px, py) == (if py < y + 1 && spec_dir_covers(
                    self.outlines@,
                    SweepDirection::Counterclockwise,
                    py,
                    px,
                ) {
                    hole
                } else if py < y + 1 && spec_dir_covers(
                    self.outlines@,
                    SweepDirection::Clockwise,
                    py,
                    px,
                ) {
                    foreground
                } else {
                    spec_pix_at(old(buffer).spec_view(), w, px, py)
                }) by {
                    if py == y {
                        assert(spec_spans_cover_vec(cc_spans@, px) <==> spec_dir_covers(
                            self.outlines@,
                            SweepDirection::Counterclockwise,
                            py,
                            px,
                        ));
                        assert(spec_spans_cover_vec(cw_spans@, px) <==> spec_dir_covers(
                            self.outlines@,
                            SweepDirection::Clockwise,
                            py,
                            px,
                        ));
                    }
                }
            }
            y = y + 1;
        }
    }

    /// The foreground and hole span lists of row `y`, concatenated over
    /// the outlines by winding direction.
    fn row_spans(&self, y: i32) -> (r: (Vec<(i32, i32)>, Vec<(i32, i32)>))
        requires
            self.wf(),
        ensures
            forall|x: int|
                #[trigger] spec_spans_cover_vec(r.0@, x) <==> spec_dir_covers(
                    self.outlines@,
                    SweepDirection::Clockwise,
                    y as int,
                    x,
                ),
            forall|x: int|
                #[trigger] spec_spans_cover_vec(r.1@, x) <==> spec_dir_covers(
                    self.outlines@,
                    SweepDirection::Counterclockwise,
                    y as int,
                    x,
                ),
    {
        let mut cw_spans: Vec<(i32, i32)> = Vec::new();
        let mut cc_spans: Vec<(i32, i32)> = Vec::new();
        let count = self.outlines.len();
        let mut k: usize = 0;
        while k < count
            invariant
                k <= count,
                count == self.outlines@.len(),
                self.wf(),
                forall|x: int|
                    #[trigger] spec_spans_cover_vec(cw_spans@, x) <==> (exists|t: int|
                        0 <= t < k && (#[trigger] self.outlines@[t]).direction
                            == SweepDirection::Clockwise && spec_row_covers(
                            self.outlines@[t].points@,
                            y as int,
                            x,
                            false,
                        )),
                forall|x: int|
                    #[trigger] spec_spans_cover_vec(cc_spans@, x) <==> (exists|t: int|
                        0 <= t < k && (#[trigger] self.outlines@[t]).direction
                            == SweepDirection::Counterclockwise && spec_row_covers(
                            self.outlines@[t].points@,
                            y as int,
                            x,
                            true,
                        )),
            decreases count - k,
        {
            let outline = &self.outlines[k];
            let is_cc = matches!(outline.direction, SweepDirection::Counterclockwise);
            let sp = outline_row_spans(&outline.points, y, is_cc);
            let ghost cw_before = cw_spans@;
            let ghost cc_before = cc_spans@;
            if is_cc {
                append_spans(&mut cc_spans, &sp);
                proof {
                    lemma_append_cover_step(
                        cc_before,
                        cc_spans@,
                        sp@,
                        self.outlines@,
                        SweepDirection::Counterclockwise,
                        y as int,
                        k as int,
                        true,
                    );
                    assert forall|x: int| #[trigger] spec_spans_cover_vec(cw_spans@, x) <==> (
                    exists|t: int|
                        0 <= t < k + 1 && (#[trigger] self.outlines@[t]).direction
                            == SweepDirection::Clockwise && spec_row_covers(
                            self.outlines@[t].points@,
                            y as int,
                            x,
                            false,
                        )) by {
                        if exists|t: int|
                            0 <= t < k + 1 && (#[trigger] self.outlines@[t]).direction
                                == SweepDirection::Clockwise && spec_row_covers(
                                self.outlines@[t].points@,
                                y as int,
                                x,
                                false,
                            ) {
                            let t = choose|t: int|
                                0 <= t < k + 1 && (#[trigger] self.outlines@[t]).direction
                                    == SweepDirection::Clockwise && spec_row_covers(
                                    self.outlines@[t].points@,
                                    y as int,
                                    x,
                                    false,
                                );
                            assert(t < k);
                        }
                    }
                }
            } else {
                append_spans(&mut cw_spans, &sp);
                proof {
                    lemma_append_cover_step(
                        cw_before,
                        cw_spans@,
                        sp@,
                        self.outlines@,
                        SweepDirection::Clockwise,
                        y as int,
                        k as int,
                        false,
                    );
                    assert forall|x: int| #[trigger] spec_spans_cover_vec(cc_spans@, x) <==> (
                    exists|t: int|
                        0 <= t < k + 1 && (#[trigger] self.outlines@[t]).direction
                            == SweepDirection::Counterclockwise && spec_row_covers(
                            self.outlines@[t].points@,
                            y as int,
                            x,
                            true,
                        )) by {
                        if exists|t: int|
                            0 <= t < k + 1 && (#[trigger] self.outlines@[t]).direction
                                == SweepDirection::Counterclockwise && spec_row_covers(
                                self.outlines@[t].points@,
                                y as int,
                                x,
                                true,
                            ) {
                            let t = choose|t: int|
                                0 <= t < k + 1 && (#[trigger] self.outlines@[t]).direction
                                    == SweepDirection::Counterclockwise && spec_row_covers(
                                    self.outlines@[t].points@,
                                    y as int,
                                    x,
                                    true,
                                );
                            assert(t < k);
                        }
                    }
                }
            }
            k = k + 1;
        }
        (cw_spans, cc_spans)
    }
}

/// Appends all spans of `src` to `dst`.
fn append_spans(dst: &mut Vec<(i32, i32)>, src: &Vec<(i32, i32)>)
    ensures
        final(dst)@ == old(dst)@ + src@,
{
    let mut j: usize = 0;
    while j < src.len()
        invariant
            j <= src@.len(),
            dst@ == old(dst)@ + src@.take(j as int),
        decreases src@.len() - j,
    {
        dst.push(src[j]);
        proof {
            assert(old(dst)@ + src@.take(j as int + 1) =~= (old(dst)@ + src@.take(j as int)).push(
                src@[j as int],
            ));
        }
        j = j + 1;
    }
    proof {
        assert(src@.take(src@.len() as int) =~= src@);
    }
}

/// Concatenating the spans of the `k`-th outline extends the covered set
/// by exactly that outline's coverage.
proof fn lemma_append_cover_step(
    before: Seq<(i32, i32)>,
    after: Seq<(i32, i32)>,
    sp: Seq<(i32, i32)>,
    outlines: Seq<Outline>,
    dir: SweepDirection,
    y: int,
    k: int,
    shrink: bool,
)
    requires
        after == before + sp,
        0 <= k < outlines.len(),
        outlines[k].direction == dir,
        shrink == (dir == SweepDirection::Counterclockwise),
        forall|x: int|
            #[trigger] spec_spans_cover_vec(sp, x) <==> spec_row_covers(
                outlines[k].points@,
                y,
                x,
                shrink,
            ),
        forall|x: int|
            #[trigger] spec_spans_cover_vec(before, x) <==> (exists|t: int|
                0 <= t < k && (#[trigger] outlines[t]).direction == dir && spec_row_covers(
                    outlines[t].points@,
                    y,
                    x,
                    shrink,
                )),
    ensures
        forall|x: int|
            #[trigger] spec_spans_cover_vec(after, x) <==> (exists|t: int|
                0 <= t < k + 1 && (#[trigger] outlines[t]).direction == dir && spec_row_covers(
                    outlines[t].points@,
                    y,
                    x,
                    shrink,
                )),
{
    assert forall|x: int| #[trigger] spec_spans_cover_vec(after, x) <==> (exists|t: int|
        0 <= t < k + 1 && (#[trigger] outlines[t]).direction == dir && spec_row_covers(
            outlines[t].points@,
            y,
            x,
            shrink,
        )) by {
        if spec_spans_cover_vec(after, x) {
            let j = choose|j: int| 0 <= j < after.len() && (#[trigger] after[j]).0 <= x <= after[j].1;
            if j < before.len() {
                assert(before[j] == after[j]);
                assert(spec_spans_cover_vec(before, x));
                let t = choose|t: int|
                    0 <= t < k && (#[trigger] outlines[t]).direction == dir && spec_row_covers(
                        outlines[t].points@,
                        y,
                        x,
                        shrink,
                    );
                assert(0 <= t < k + 1 && outlines[t].direction == dir && spec_row_covers(
                    outlines[t].points@,
                    y,
                    x,
                    shrink,
                ));
            } else {
                assert(sp[j - before.len()] == after[j]);
                assert(spec_spans_cover_vec(sp, x));
                assert(0 <= k < k + 1 && outlines[k].direction == dir && spec_row_covers(
                    outlines[k].points@,
                    y,
                    x,
                    shrink,
                ));
            }
        }
        if exists|t: int|
            0 <= t < k + 1 && (#[trigger] outlines[t]).direction == dir && spec_row_covers(
                outlines[t].points@,
                y,
                x,
                shrink,
            ) {
            let t = choose|t: int|
                0 <= t < k + 1 && (#[trigger] outlines[t]).direction == dir && spec_row_covers(
                    outlines[t].points@,
                    y,
                    x,
                    shrink,
                );
            if t < k {
                assert(spec_spans_cover_vec(before, x));
                let j = choose|j: int|
                    0 <= j < before.len() && (#[trigger] before[j]).0 <= x <= before[j].1;
                assert(after[j] == before[j]);
                assert(spec_spans_cover_vec(after, x));
            } else {
                assert(spec_spans_cover_vec(sp, x));
                let j = choose|j: int| 0 <= j < sp.len() && (#[trigger] sp[j]).0 <= x <= sp[j].1;
                assert(after[before.len() + j] == sp[j]);
                assert(spec_spans_cover_vec(after, x));
            }
        }
    }
}

/// Transform entries accepted by the builder: small enough that applying
/// the transform cannot overflow.
pub open spec fn spec_transform_ok(m: Mat3x3<i64>) -> bool {
    forall|i: int| 0 <= i < 9 ==> -0x4_0000_0000 <= #[trigger] m.data[i] <= 0x4_0000_0000
}

/// Glyph-space inputs accepted by the builder.
pub open spec fn spec_input_ok(p: Vec2<i64>) -> bool {
    -0x100_0000 <= p.x <= 0x100_0000 && -0x100_0000 <= p.y <= 0x100_0000
}

/// Clamps a transformed subpixel coordinate into the range the flattening
/// and rasterization stages accept.
pub open spec fn spec_clamp_coord(v: int) -> int {
    if v > 0x1000_0000 {
        0x1000_0000
    } else if v < -0x1000_0000 {
        -0x1000_0000
    } else {
        v
    }
}

/// Applies the affine transform (entries in 1/65536 units) to a glyph
/// point, yielding subpixel coordinates (1/256 pixel units), rounded to
/// the nearest subpixel and clamped into range.
pub open spec fn spec_transform_point(m: Mat3x3<i64>, p: Vec2<i64>) -> Vec2<i64> {
    Vec2 {
        x: spec_clamp_coord(
            spec_div_round(m.data[0] * p.x + m.data[1] * p.y + m.data[2], 256),
        ) as i64,
        y: spec_clamp_coord(
            spec_div_round(m.data[3] * p.x + m.data[4] * p.y + m.data[5], 256),
        ) as i64,
    }
}

/// Rounds a subpixel point to whole pixels, halves away from zero.
pub open spec fn spec_round_px(p: Vec2<i64>) -> Vec2<i32> {
    Vec2 { x: spec_div_round(p.x as int, 256) as i32, y: spec_div_round(p.y as int, 256) as i32 }
}

/// Applies the transform to one input point (see
/// [`spec_transform_point`]).
fn transform_point(m: &Mat3x3<i64>, p: Vec2<i64>) -> (r: Vec2<i64>)
    requires
        spec_transform_ok(*m),
        spec_input_ok(p),
    ensures
        r == spec_transform_point(*m, p),
        spec_point_ok(r),
{
    proof {
        assert forall|a: i64, b: i64|
            -0x4_0000_0000 <= a <= 0x4_0000_0000 && -0x100_0000 <= b <= 0x100_0000
                implies -0x4_0000_0000_0000_0000 <= #[trigger] ((a as i128) * (b as i128))
                <= 0x4_0000_0000_0000_0000 by {
            assert(-0x4_0000_0000_0000_0000 <= (a as i128) * (b as i128)
                <= 0x4_0000_0000_0000_0000) by (nonlinear_arith)
                requires
                    -0x4_0000_0000 <= a as i128 <= 0x4_0000_0000,
                    -0x100_0000 <= b as i128 <= 0x100_0000,
            ;
        }
    }
    let nx: i128 = (m.get(0, 0) as i128) * (p.x as i128) + (m.get(1, 0) as i128) * (p.y as i128) + (
    m.get(2, 0) as i128);
    let ny: i128 = (m.get(0, 1) as i128) * (p.x as i128) + (m.get(1, 1) as i128) * (p.y as i128) + (
    m.get(2, 1) as i128);
    let x = clamp_coord(div_round_i128(nx, 256));
    let y = clamp_coord(div_round_i128(ny, 256));
    Vec2 { x, y }
}

/// Clamps a subpixel coordinate into range (see [`spec_clamp_coord`]).
fn clamp_coord(v: i128) -> (r: i64)
    ensures
        r as int == spec_clamp_coord(v as int),
{
    if v > 0x1000_0000 {
        0x1000_0000
    } else if v < -0x1000_0000 {
        -0x1000_0000
    } else {
        v as i64
    }
}

/// Rounds a subpixel point to whole pixels (see [`spec_round_px`]).
fn round_px(p: Vec2<i64>) -> (r: Vec2<i32>)
    requires
        spec_point_ok(p),
    ensures
        r == spec_round_px(p),
{
    proof {
        lemma_div_round_bounded(p.x as int, 256, 0x1000_0000);
        lemma_div_round_bounded(p.y as int, 256, 0x1000_0000);
    }
    let x = div_round_i128(p.x as i128, 256);
    let y = div_round_i128(p.y as i128, 256);
    Vec2 { x: x as i32, y: y as i32 }
}

/// A stateful visitor that receives move/line/quad/cube path commands
/// from a font-outline decoder, transforms the points, flattens the
/// curves, and groups the resulting straight segments into closed,
/// direction-tagged outlines.
pub struct GlyphRenderBuilder {
    transform: Mat3x3<i64>,
    points: Vec<Vec2<i32>>,
    prev_point: Vec2<i64>,
    outlines: Vec<Outline>,
    was_closed: bool,
}

impl GlyphRenderBuilder {
    pub closed spec fn spec_transform(&self) -> Mat3x3<i64> {
        self.transform
    }

    /// The pixel points accumulated for the outline being traced.
    pub closed spec fn spec_points(&self) -> Seq<Vec2<i32>> {
        self.points@
    }

    /// The current (pen) position, in subpixels.
    pub closed spec fn spec_prev(&self) -> Vec2<i64> {
        self.prev_point
    }

    /// The closed outlines gathered so far.
    pub closed spec fn spec_outlines(&self) -> Seq<Outline> {
        self.outlines@
    }

    pub closed spec fn spec_was_closed(&self) -> bool {
        self.was_closed
    }

    /// The builder's invariant: a usable transform, a bounded point
    /// accumulator, a pen position in range and well-formed outlines.
    pub open spec fn wf(&self) -> bool {
        &&& spec_transform_ok(self.spec_transform())
        &&& self.spec_points().len() <= MAX_OUTLINE_POINTS
        &&& spec_point_ok(self.spec_prev())
        &&& (forall|k: int|
            0 <= k < self.spec_outlines().len() ==> (#[trigger] self.spec_outlines()[k]).wf())
    }

    pub fn new(transform: Mat3x3<i64>) -> (r: Self)
        requires
            spec_transform_ok(transform),
        ensures
            r.wf(),
            r.spec_transform() == transform,
            r.spec_points().len() == 0,
            r.spec_outlines().len() == 0,
            r.spec_prev() == (Vec2 { x: 0i64, y: 0i64 }),
            !r.spec_was_closed(),
    {
        GlyphRenderBuilder {
            transform,
            points: Vec::new(),
            prev_point: Vec2 { x: 0, y: 0 },
            outlines: Vec::new(),
            was_closed: false,
        }
    }

    /// Whether a close command has been seen since the builder was made.
    pub fn was_closed(&self) -> (r: bool)
        ensures
            r == self.spec_was_closed(),
    {
        self.was_closed
    }

    /// Starts a new contour at `point`: moves the pen without emitting a
    /// segment.
    pub fn move_to(&mut self, point: Vec2<i64>)
        requires
            old(self).wf(),
            spec_input_ok(point),
        ensures
            final(self).wf(),
            final(self).spec_prev() == spec_transform_point(old(self).spec_transform(), point),
            final(self).spec_transform() == old(self).spec_transform(),
            final(self).spec_points() == old(self).spec_points(),
            final(self).spec_outlines() == old(self).spec_outlines(),
            final(self).spec_was_closed() == old(self).spec_was_closed(),
    {
        self.prev_point = transform_point(&self.transform, point);
        proof {
            assert forall|k: int| 0 <= k < self.spec_outlines().len() implies (
            #[trigger] self.spec_outlines()[k]).wf() by {
                assert(self.spec_outlines()[k] == old(self).spec_outlines()[k]);
            }
        }
    }

    /// Emits a straight segment to `point`: the transformed point joins
    /// the accumulated outline. A full accumulator drops the point.
    pub fn line_to(&mut self, point: Vec2<i64>)
        requires
            old(self).wf(),
            spec_input_ok(point),
        ensures
            final(self).wf(),
            final(self).spec_prev() == spec_transform_point(old(self).spec_transform(), point),
            final(self).spec_transform() == old(self).spec_transform(),
            final(self).spec_outlines() == old(self).spec_outlines(),
            final(self).spec_was_closed() == old(self).spec_was_closed(),
            final(self).spec_points() == (if old(self).spec_points().len()
                < MAX_OUTLINE_POINTS {
                old(self).spec_points().push(
                    spec_round_px(spec_transform_point(old(self).spec_transform(), point)),
                )
            } else {
                old(self).spec_points()
            }),
    {
        let tp = transform_point(&self.transform, point);
        if self.points.len() < MAX_OUTLINE_POINTS {
            let px = round_px(tp);
            self.points.push(px);
        }
        self.prev_point = tp;
        proof {
            assert forall|k: int| 0 <= k < self.spec_outlines().len() implies (
            #[trigger] self.spec_outlines()[k]).wf() by {
                assert(self.spec_outlines()[k] == old(self).spec_outlines()[k]);
            }
        }
    }

    /// Flattens the quadratic curve from the pen through `control` to
    /// `end` and appends the chord points (the start point excluded).
    /// Points past a full accumulator are dropped.
    pub fn quad_to(&mut self, control: Vec2<i64>, end: Vec2<i64>)
        requires
            old(self).wf(),
            spec_input_ok(control),
            spec_input_ok(end),
        ensures
            final(self).wf(),
            final(self).spec_prev() == spec_transform_point(old(self).spec_transform(), end),
            final(self).spec_transform() == old(self).spec_transform(),
            final(self).spec_outlines() == old(self).spec_outlines(),
            final(self).spec_was_closed() == old(self).spec_was_closed(),
            exists|n: int|
                #[trigger] spec_count_ok(
                    n,
                    spec_quad_accel2(
                        old(self).spec_prev(),
                        spec_transform_point(old(self).spec_transform(), control),
                        spec_transform_point(old(self).spec_transform(), end),
                    ),
                ) && final(self).spec_points() == old(self).spec_points() + Seq::new(
                    (if n <= MAX_OUTLINE_POINTS - old(self).spec_points().len() {
                        n
                    } else {
                        MAX_OUTLINE_POINTS - old(self).spec_points().len()
                    }) as nat,
                    (|i: int|
                        spec_round_px(
                            spec_quad_point(
                                old(self).spec_prev(),
                                spec_transform_point(old(self).spec_transform(), control),
                                spec_transform_point(old(self).spec_transform(), end),
                                i + 1,
                                n,
                            ),
                        )),
                ),
    {
        let p0 = self.prev_point;
        let p1 = transform_point(&self.transform, control);
        let p2 = transform_point(&self.transform, end);
        let flat = subdivide_quad_curve(p0, p1, p2);
        let ghost n = flat@.len() as int;
        let mut i: usize = 0;
        let ghost points0 = self.points@;
        while i < flat.len()
            invariant
                i <= flat@.len(),
                flat@.len() <= MAX_OUTLINE_POINTS,
                forall|t: int|
                    0 <= t < flat@.len() ==> #[trigger] flat@[t] == spec_quad_point(
                        p0,
                        p1,
                        p2,
                        t + 1,
                        n,
                    ),
                forall|t: int| 0 <= t < flat@.len() ==> spec_point_ok(#[trigger] flat@[t]),
                n == flat@.len(),
                points0.len() <= MAX_OUTLINE_POINTS,
                self.points@.len() <= MAX_OUTLINE_POINTS,
                self.points@ == points0 + Seq::new(
                    (if i as int <= MAX_OUTLINE_POINTS - points0.len() {
                        i as int
                    } else {
                        MAX_OUTLINE_POINTS - points0.len()
                    }) as nat,
                    |t: int| spec_round_px(spec_quad_point(p0, p1, p2, t + 1, n)),
                ),
                self.transform == old(self).transform,
                self.prev_point == old(self).prev_point,
                self.outlines@ == old(self).outlines@,
                self.was_closed == old(self).was_closed,
            decreases flat@.len() - i,
        {
            let ghost before = self.points@;
            if self.points.len() < MAX_OUTLINE_POINTS {
                let px = round_px(flat[i]);
                self.points.push(px);
            }
            proof {
                let room = MAX_OUTLINE_POINTS - points0.len();
                let f = |t: int| spec_round_px(spec_quad_point(p0, p1, p2, t + 1, n));
                if before.len() < MAX_OUTLINE_POINTS {
                    assert(i as int <= room);
                    assert(self.points@ =~= points0 + Seq::new(
                        (if i + 1 <= room {
                            i + 1
                        } else {
                            room
                        }) as nat,
                        f,
                    ));
                } else {
                    assert(i as int >= room);
                    assert(self.points@ =~= points0 + Seq::new(
                        (if i + 1 <= room {
                            i + 1
                        } else {
                            room
                        }) as nat,
                        f,
                    ));
                }
            }
            i = i + 1;
        }
        self.prev_point = p2;
        proof {
            assert forall|k: int| 0 <= k < self.spec_outlines().len() implies (
            #[trigger] self.spec_outlines()[k]).wf() by {
                assert(self.spec_outlines()[k] == old(self).spec_outlines()[k]);
            }
        }
    }

    /// Flattens the cubic curve from the pen through the two controls to
    /// `end` and appends the chord points, as [`Self::quad_to`] does.
    pub fn curve_to(&mut self, control1: Vec2<i64>, control2: Vec2<i64>, end: Vec2<i64>)
        requires
            old(self).wf(),
            spec_input_ok(control1),
            spec_input_ok(control2),
            spec_input_ok(end),
        ensures
            final(self).wf(),
            final(self).spec_prev() == spec_transform_point(old(self).spec_transform(), end),
            final(self).spec_transform() == old(self).spec_transform(),
            final(self).spec_outlines() == old(self).spec_outlines(),
            final(self).spec_was_closed() == old(self).spec_was_closed(),
            exists|n: int|
                #[trigger] spec_count_ok(
                    n,
                    spec_cube_accel2(
                        old(self).spec_prev(),
                        spec_transform_point(old(self).spec_transform(), control1),
                        spec_transform_point(old(self).spec_transform(), control2),
                        spec_transform_point(old(self).spec_transform(), end),
                    ),
                ) && final(self).spec_points() == old(self).spec_points() + Seq::new(
                    (if n <= MAX_OUTLINE_POINTS - old(self).spec_points().len() {
                        n
                    } else {
                        MAX_OUTLINE_POINTS - old(self).spec_points().len()
                    }) as nat,
                    (|i: int|
                        spec_round_px(
                            spec_cube_point(
                                old(self).spec_prev(),
                                spec_transform_point(old(self).spec_transform(), control1),
                                spec_transform_point(old(self).spec_transform(), control2),
                                spec_transform_point(old(self).spec_transform(), end),
                                i + 1,
                                n,
                            ),
                        )),
                ),
    {
        let p0 = self.prev_point;
        let p1 = transform_point(&self.transform, control1);
        let p2 = transform_point(&self.transform, control2);
        let p3 = transform_point(&self.transform, end);
        let flat = subdivide_cube_curve(p0, p1, p2, p3);
        let ghost n = flat@.len() as int;
        let mut i: usize = 0;
        let ghost points0 = self.points@;
        while i < flat.len()
            invariant
                i <= flat@.len(),
                flat@.len() <= MAX_OUTLINE_POINTS,
                forall|t: int|
                    0 <= t < flat@.len() ==> #[trigger] flat@[t] == spec_cube_point(
                        p0,
                        p1,
                        p2,
                        p3,
                        t + 1,
                        n,
                    ),
                forall|t: int| 0 <= t < flat@.len() ==> spec_point_ok(#[trigger] flat@[t]),
                n == flat@.len(),
                points0.len() <= MAX_OUTLINE_POINTS,
                self.points@.len() <= MAX_OUTLINE_POINTS,
                self.points@ == points0 + Seq::new(
                    (if i as int <= MAX_OUTLINE_POINTS - points0.len() {
                        i as int
                    } else {
                        MAX_OUTLINE_POINTS - points0.len()
                    }) as nat,
                    |t: int| spec_round_px(spec_cube_point(p0, p1, p2, p3, t + 1, n)),
                ),
                self.transform == old(self).transform,
                self.prev_point == old(self).prev_point,
                self.outlines@ == old(self).outlines@,
                self.was_closed == old(self).was_closed,
            decreases flat@.len() - i,
        {
            let ghost before = self.points@;
            if self.points.len() < MAX_OUTLINE_POINTS {
                let px = round_px(flat[i]);
                self.points.push(px);
            }
            proof {
                let room = MAX_OUTLINE_POINTS - points0.len();
                let f = |t: int| spec_round_px(spec_cube_point(p0, p1, p2, p3, t + 1, n));
                if before.len() < MAX_OUTLINE_POINTS {
                    assert(i as int <= room);
                    assert(self.points@ =~= points0 + Seq::new(
                        (if i + 1 <= room {
                            i + 1
                        } else {
                            room
                        }) as nat,
                        f,
                    ));
                } else {
                    assert(i as int >= room);
                    assert(self.points@ =~= points0 + Seq::new(
                        (if i + 1 <= room {
                            i + 1
                        } else {
                            room
                        }) as nat,
                        f,
                    ));
                }
            }
            i = i + 1;
        }
        self.prev_point = p3;
        proof {
            assert forall|k: int| 0 <= k < self.spec_outlines().len() implies (
            #[trigger] self.spec_outlines()[k]).wf() by {
                assert(self.spec_outlines()[k] == old(self).spec_outlines()[k]);
            }
        }
    }

    /// Finalizes the accumulated points into an outline: fewer than two
    /// points are silently discarded; otherwise the winding direction is
    /// computed once, here, and the outline stored. The accumulator is
    /// cleared either way.
    pub fn push_outline(&mut self)
        requires
            old(self).wf(),
        ensures
            final(self).wf(),
            final(self).spec_points().len() == 0,
            final(self).spec_transform() == old(self).spec_transform(),
            final(self).spec_prev() == old(self).spec_prev(),
            final(self).spec_was_closed() == old(self).spec_was_closed(),
            old(self).spec_points().len() < 2 ==> final(self).spec_outlines() == old(
                self,
            ).spec_outlines(),
            old(self).spec_points().len() >= 2 ==> final(self).spec_outlines().len() == old(
                self,
            ).spec_outlines().len() + 1,
            old(self).spec_points().len() >= 2 ==> final(self).spec_outlines().subrange(
                0,
                old(self).spec_outlines().len() as int,
            ) == old(self).spec_outlines(),
            old(self).spec_points().len() >= 2 ==> final(self).spec_outlines().last().direction
                == spec_direction_of(old(self).spec_points()),
            old(self).spec_points().len() >= 2 ==> final(self).spec_outlines().last().points@
                == old(self).spec_points(),
    {
        if self.points.len() < 2 {
            self.points = Vec::new();
            return ;
        }
        let direction = compute_direction(&self.points);
        let mut points: Vec<Vec2<i32>> = Vec::new();
        core::mem::swap(&mut points, &mut self.points);
        self.outlines.push(Outline { direction, points });
        proof {
            assert(self.outlines@.subrange(0, old(self).spec_outlines().len() as int) =~= old(
                self,
            ).spec_outlines());
        }
    }

    /// Closes the current contour: the accumulated points become an
    /// outline and the closed flag is raised.
    pub fn close(&mut self)
        requires
            old(self).wf(),
        ensures
            final(self).wf(),
            final(self).spec_points().len() == 0,
            final(self).spec_transform() == old(self).spec_transform(),
            final(self).spec_prev() == old(self).spec_prev(),
            final(self).spec_was_closed(),
            old(self).spec_points().len() < 2 ==> final(self).spec_outlines() == old(
                self,
            ).spec_outlines(),
            old(self).spec_points().len() >= 2 ==> final(self).spec_outlines().len() == old(
                self,
            ).spec_outlines().len() + 1,
            old(self).spec_points().len() >= 2 ==> final(self).spec_outlines().subrange(
                0,
                old(self).spec_outlines().len() as int,
            ) == old(self).spec_outlines(),
            old(self).spec_points().len() >= 2 ==> final(self).spec_outlines().last().direction
                == spec_direction_of(old(self).spec_points()),
            old(self).spec_points().len() >= 2 ==> final(self).spec_outlines().last().points@
                == old(self).spec_points(),
    {
        self.push_outline();
        self.was_closed = true;
    }

    /// Hands the collected outlines over for rasterization.
    pub fn build(self) -> (r: GlyphRender)
        requires
            self.wf(),
        ensures
            r.wf(),
            r.outlines@ == self.spec_outlines(),
    {
        GlyphRender { outlines: self.outlines }
    }
}

/// The vertex order reversed.
pub open spec fn spec_reversed(s: Seq<Vec2<i32>>) -> Seq<Vec2<i32>> {
    Seq::new(s.len(), |i: int| s[s.len() - 1 - i])
}

/// Sums are invariant under an index shift that maps edge terms onto each
/// other.
proof fn lemma_term_sum_shifted(r: Seq<Vec2<i32>>, s: Seq<Vec2<i32>>, a: int, b: int, d: int)
    requires
        forall|i: int| a <= i < b ==> #[trigger] spec_edge_term(r, i) == spec_edge_term(s, i + d),
    ensures
        spec_term_sum(r, a, b) == spec_term_sum(s, a + d, b + d),
    decreases b - a,
{
    if a < b {
        lemma_term_sum_shifted(r, s, a + 1, b, d);
    }
}

/// Sums over negated terms in reversed index order.
proof fn lemma_term_sum_reversed(r: Seq<Vec2<i32>>, s: Seq<Vec2<i32>>, a: int, b: int, c: int)
    requires
        forall|i: int| a <= i < b ==> #[trigger] spec_edge_term(r, i) == -spec_edge_term(s, c - i),
    ensures
        spec_term_sum(r, a, b) == -spec_term_sum(s, c - b + 1, c - a + 1),
    decreases b - a,
{
    if a >= b {
    } else {
        lemma_term_sum_reversed(r, s, a + 1, b, c);
        lemma_term_sum_split(s, c - b + 1, c - a, c - a + 1);
        assert(spec_term_sum(s, c - a, c - a + 1) == spec_edge_term(s, c - a) + spec_term_sum(
            s,
            c - a + 1,
            c - a + 1,
        ));
    }
}

/// The cross product changes sign when its arguments swap.
proof fn lemma_cross_antisym(p: Vec2<i32>, q: Vec2<i32>)
    ensures
        spec_cross(p, q) == -spec_cross(q, p),
{
    assert(p.x * q.y - p.y * q.x == -(q.x * p.y - q.y * p.x)) by (nonlinear_arith);
}

/// Winding determinism: the computed winding direction of a closed
/// polygon does not depend on which vertex the trace starts at. Rotating
/// the vertex list leaves the doubled signed area, and so the direction,
/// unchanged.
pub proof fn lemma_winding_rotation_invariant(s: Seq<Vec2<i32>>, k: int)
    requires
        0 <= k <= s.len(),
    ensures
        spec_signed_area2(s.subrange(k, s.len() as int) + s.subrange(0, k)) == spec_signed_area2(
            s,
        ),
        spec_direction_of(s.subrange(k, s.len() as int) + s.subrange(0, k)) == spec_direction_of(
            s,
        ),
{
    let n = s.len() as int;
    let r = s.subrange(k, n) + s.subrange(0, k);
    assert(r.len() == n);
    if k == 0 || k == n {
        assert(r =~= s);
    } else {
        assert forall|i: int| 0 <= i < n - k implies #[trigger] spec_edge_term(r, i)
            == spec_edge_term(s, i + k) by {
            assert(r[i] == s[i + k]);
            if i + 1 < n - k {
                assert(r[i + 1] == s[i + k + 1]);
            } else {
                assert(i + 1 == n - k);
                if i + k + 1 == n {
                    assert(r[i + 1] == s[0]);
                } else {
                    assert(r[i + 1] == s[i + k + 1 - n]);
                }
            }
        }
        assert forall|i: int| n - k <= i < n implies #[trigger] spec_edge_term(r, i)
            == spec_edge_term(s, i - (n - k)) by {
            assert(r[i] == s[i - (n - k)]);
            if i + 1 < n {
                assert(r[i + 1] == s[i + 1 - (n - k)]);
            } else {
                assert(r[0] == s[k]);
            }
        }
        lemma_term_sum_shifted(r, s, 0, n - k, k);
        lemma_term_sum_shifted(r, s, n - k, n, -(n - k));
        lemma_term_sum_split(r, 0, n - k, n);
        lemma_term_sum_split(s, 0, k, n);
    }
}

/// Reversal symmetry: reversing the point order of a closed polygon
/// negates the doubled signed area, so a polygon with nonzero area flips
/// its computed winding direction.
pub proof fn lemma_winding_reversal(s: Seq<Vec2<i32>>)
    ensures
        spec_signed_area2(spec_reversed(s)) == -spec_signed_area2(s),
        spec_signed_area2(s) != 0 ==> spec_direction_of(spec_reversed(s)) != spec_direction_of(s),
{
    let n = s.len() as int;
    let r = spec_reversed(s);
    if n == 0 {
        assert(spec_term_sum(r, 0, 0) == 0);
    } else {
        assert forall|i: int| 0 <= i < n - 1 implies #[trigger] spec_edge_term(r, i)
            == -spec_edge_term(s, n - 2 - i) by {
            assert(r[i] == s[n - 1 - i]);
            assert(r[i + 1] == s[n - 2 - i]);
            lemma_cross_antisym(r[i], r[i + 1]);
        }
        lemma_term_sum_reversed(r, s, 0, n - 1, n - 2);
        assert(spec_term_sum(r, 0, n - 1) == -spec_term_sum(s, 0, n - 1));
        assert(spec_edge_term(r, n - 1) == -spec_edge_term(s, n - 1)) by {
            assert(r[n - 1] == s[0]);
            assert(r[0] == s[n - 1]);
            lemma_cross_antisym(s[0], s[n - 1]);
        }
        lemma_term_sum_split(r, 0, n - 1, n);
        lemma_term_sum_split(s, 0, n - 1, n);
        assert(spec_term_sum(r, n - 1, n) == spec_edge_term(r, n - 1) + spec_term_sum(r, n, n));
        assert(spec_term_sum(s, n - 1, n) == spec_edge_term(s, n - 1) + spec_term_sum(s, n, n));
    }
}

/// Whether vertex `i` lies below row `y` (larger `y`, since `y` grows
/// downward).
pub open spec fn spec_below(s: Seq<Vec2<i32>>, y: int, i: int) -> bool {
    s[i].y > y
}

/// On a row that passes through no vertex, an edge contributes one `Both`
/// crossing when its endpoints lie on opposite sides, and nothing
/// otherwise.
proof fn lemma_classify_off_vertex(s: Seq<Vec2<i32>>, y: int, i: int)
    requires
        0 <= i < s.len(),
        forall|t: int| 0 <= t < s.len() ==> (#[trigger] s[t]).y != y,
    ensures
        ({
            let (p1, p2) = spec_edge_points(s, i);
            let j = if i + 1 == s.len() {
                0int
            } else {
                i + 1
            };
            spec_classify(p1, p2, y, i).len() == (if spec_below(s, y, i) != spec_below(s, y, j) {
                1int
            } else {
                0int
            })
        }),
{
    let (p1, p2) = spec_edge_points(s, i);
    let j = if i + 1 == s.len() {
        0int
    } else {
        i + 1
    };
    assert(p1 == s[i] && p2 == s[j]);
    assert(p1.y != y && p2.y != y);
}

/// The parity of the crossings the first `k` edges collect matches
/// whether vertex `0` and vertex `k` lie on the same side of the row.
proof fn lemma_collect_parity(s: Seq<Vec2<i32>>, y: int, k: int)
    requires
        1 <= k <= s.len(),
        k < s.len(),
        forall|t: int| 0 <= t < s.len() ==> (#[trigger] s[t]).y != y,
    ensures
        spec_collect(s, y, k).len() % 2 == (if spec_below(s, y, 0) != spec_below(s, y, k) {
            1int
        } else {
            0int
        }),
    decreases k,
{
    lemma_classify_off_vertex(s, y, k - 1);
    if k == 1 {
        assert(spec_collect(s, y, 0).len() == 0);
    } else {
        lemma_collect_parity(s, y, k - 1);
    }
}

/// Scanline parity: on a row that passes through no vertex of a closed
/// polygon, the collected crossings are all true (`Both`) crossings and
/// their number is even.
pub proof fn lemma_scanline_parity(s: Seq<Vec2<i32>>, y: int)
    requires
        s.len() >= 1,
        forall|t: int| 0 <= t < s.len() ==> (#[trigger] s[t]).y != y,
    ensures
        spec_collect(s, y, s.len() as int).len() % 2 == 0,
{
    let n = s.len() as int;
    lemma_classify_off_vertex(s, y, n - 1);
    if n == 1 {
        assert(spec_collect(s, y, 0).len() == 0);
    } else {
        lemma_collect_parity(s, y, n - 1);
    }
}

/// Every crossing in the sequence is a strict (`Both`) crossing.
pub open spec fn spec_all_both(c: Seq<ScanlineCrossing>) -> bool {
    forall|i: int| 0 <= i < c.len() ==> (#[trigger] c[i]).kind == CrossingKind::Both
}

proof fn lemma_insert_len_and_both(c: Seq<ScanlineCrossing>, x: ScanlineCrossing)
    ensures
        spec_insert_sorted(c, x).len() == c.len() + 1,
        spec_all_both(c) && x.kind == CrossingKind::Both ==> spec_all_both(
            spec_insert_sorted(c, x),
        ),
    decreases c.len(),
{
    if c.len() == 0 {
    } else if spec_key_le(x, c[0]) {
    } else {
        lemma_insert_len_and_both(c.skip(1), x);
        if spec_all_both(c) && x.kind == CrossingKind::Both {
            assert forall|i: int| 0 <= i < c.skip(1).len() implies (#[trigger] c.skip(1)[i]).kind
                == CrossingKind::Both by {
                assert(c.skip(1)[i] == c[i + 1]);
            }
            let r = seq![c[0]] + spec_insert_sorted(c.skip(1), x);
            assert forall|i: int| 0 <= i < r.len() implies (#[trigger] r[i]).kind
                == CrossingKind::Both by {
                if i > 0 {
                    assert(r[i] == spec_insert_sorted(c.skip(1), x)[i - 1]);
                }
            }
        }
    }
}

proof fn lemma_sort_len_and_both(c: Seq<ScanlineCrossing>)
    ensures
        spec_sort(c).len() == c.len(),
        spec_all_both(c) ==> spec_all_both(spec_sort(c)),
    decreases c.len(),
{
    if c.len() > 0 {
        lemma_sort_len_and_both(c.drop_last());
        lemma_insert_len_and_both(spec_sort(c.drop_last()), c.last());
        if spec_all_both(c) {
            assert forall|i: int| 0 <= i < c.drop_last().len() implies (
            #[trigger] c.drop_last()[i]).kind == CrossingKind::Both by {
                assert(c.drop_last()[i] == c[i]);
            }
            assert(c.last().kind == CrossingKind::Both);
        }
    }
}

/// Vertex-touch cleanup leaves a list of strict crossings untouched.
proof fn lemma_merge_all_both(c: Seq<ScanlineCrossing>, n: int)
    requires
        spec_all_both(c),
    ensures
        spec_merge(c, n) == c,
    decreases c.len(),
{
    if c.len() < 2 {
        assert(spec_merge(c, n) =~= c);
    } else {
        assert(c[0].kind == CrossingKind::Both);
        assert(c[1].kind == CrossingKind::Both);
        assert forall|i: int| 0 <= i < c.skip(1).len() implies (#[trigger] c.skip(1)[i]).kind
            == CrossingKind::Both by {
            assert(c.skip(1)[i] == c[i + 1]);
        }
        lemma_merge_all_both(c.skip(1), n);
        assert(spec_merge(c, n) =~= c);
    }
}

/// On a row through no vertex, every collected crossing is strict.
proof fn lemma_collect_all_both(s: Seq<Vec2<i32>>, y: int, k: int)
    requires
        0 <= k <= s.len(),
        forall|t: int| 0 <= t < s.len() ==> (#[trigger] s[t]).y != y,
    ensures
        spec_all_both(spec_collect(s, y, k)),
    decreases k,
{
    if k > 0 {
        lemma_collect_all_both(s, y, k - 1);
        let (p1, p2) = spec_edge_points(s, k - 1);
        assert(p1.y != y && p2.y != y);
        let prev = spec_collect(s, y, k - 1);
        let whole = spec_collect(s, y, k);
        assert forall|i: int| 0 <= i < whole.len() implies (#[trigger] whole[i]).kind
            == CrossingKind::Both by {
            if i < prev.len() {
                assert(whole[i] == prev[i]);
            }
        }
    }
}

/// Scanline parity, carried through the whole per-row pipeline: on a row
/// through no vertex, the sorted and cleaned crossing list still holds an
/// even number of strict crossings, so the row is never skipped as
/// degenerate and its spans pair up fully.
pub proof fn lemma_scanline_parity_cleaned(s: Seq<Vec2<i32>>, y: int)
    requires
        s.len() >= 1,
        forall|t: int| 0 <= t < s.len() ==> (#[trigger] s[t]).y != y,
    ensures
        spec_merge(spec_sort(spec_collect(s, y, s.len() as int)), s.len() as int).len() % 2 == 0,
{
    let n = s.len() as int;
    lemma_scanline_parity(s, y);
    lemma_collect_all_both(s, y, n);
    lemma_sort_len_and_both(spec_collect(s, y, n));
    lemma_merge_all_both(spec_sort(spec_collect(s, y, n)), n);
}

} // verus!
