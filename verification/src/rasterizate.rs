//! Drawing primitives over any writable 2D buffer: solid fill, checked
//! point writes, horizontal spans and rasterized line segments.

use vstd::prelude::*;
use crate::buffer2d::Buffer2dRead;
use crate::buffer2d::Buffer2dWrite;
use crate::line::LinePointsIter;
use crate::line::mid_i32;
use crate::line::spec_axis_point;
use crate::line::spec_axis_total;
use crate::line::spec_line_axis;
use crate::vector2::Vec2;

verus! {

/// True when `(x, y)` is a pixel position of a `w` by `h` buffer.
pub open spec fn spec_in_bounds(w: nat, h: nat, x: int, y: int) -> bool {
    0 <= x < w && 0 <= y < h
}

/// Row-major storage index of the pixel `(x, y)`.
pub open spec fn spec_pix_index(w: nat, x: int, y: int) -> int {
    y * w + x
}


/// The value a row-major view holds at pixel `(x, y)`.
pub open spec fn spec_pix_at<T>(view: Seq<T>, w: nat, x: int, y: int) -> T {
    view[y * w + x]
}

/// True when storage index `i` belongs to the horizontal span of row `y`
/// between columns `x0` and `x1` (either order), clipped to the buffer.
pub open spec fn spec_on_hline(w: nat, h: nat, x0: int, x1: int, y: int, i: int) -> bool {
    let lo0 = if x0 <= x1 {
        x0
    } else {
        x1
    };
    let hi0 = if x0 <= x1 {
        x1
    } else {
        x0
    };
    let lo = if lo0 < 0 {
        0
    } else {
        lo0
    };
    let hi = if hi0 > w - 1 {
        w - 1
    } else {
        hi0
    };
    0 <= y < h && lo <= hi && y * w + lo <= i <= y * w + hi
}

/// True when storage index `i` holds one of the in-bounds pixels of the
/// rasterized segment from `p0` to `p1`.
pub open spec fn spec_on_line(w: nat, h: nat, p0: Vec2<i32>, p1: Vec2<i32>, i: int) -> bool {
    let axis = spec_line_axis(p0, p1);
    exists|m: int|
        0 <= m < spec_axis_total(p0, p1, axis) && {
            let pt = #[trigger] spec_axis_point(p0, p1, axis, m);
            spec_in_bounds(w, h, pt.x as int, pt.y as int) && i == spec_pix_index(
                w,
                pt.x as int,
                pt.y as int,
            )
        }
}


/// What the span predicate means for the pixel `(px, py)`: its row is `y`
/// and its column lies between the two ends.
pub proof fn lemma_on_hline_at(w: nat, h: nat, x0: int, x1: int, y: int, px: int, py: int)
    requires
        0 <= px < w,
        0 <= py < h,
    ensures
        spec_on_hline(w, h, x0, x1, y, py * w + px) <==> (py == y && (if x0 <= x1 {
            x0
        } else {
            x1
        }) <= px <= (if x0 <= x1 {
            x1
        } else {
            x0
        })),
{
    let lo0 = if x0 <= x1 {
        x0
    } else {
        x1
    };
    let hi0 = if x0 <= x1 {
        x1
    } else {
        x0
    };
    let lo = if lo0 < 0 {
        0
    } else {
        lo0
    };
    let hi = if hi0 > w - 1 {
        w - 1
    } else {
        hi0
    };
    if spec_on_hline(w, h, x0, x1, y, py * w + px) {
        assert(py == y) by (nonlinear_arith)
            requires
                0 <= px < w,
                0 <= lo <= hi <= w - 1,
                y * w + lo <= py * w + px <= y * w + hi,
        ;
    }
    if py == y && lo0 <= px <= hi0 {
        assert(lo <= px <= hi);
        assert(y * w + lo <= py * w + px <= y * w + hi);
    }
}

/// Drawing primitives available on every writable 2D buffer.
pub trait SimpleRasterizate<T: Copy>: Buffer2dWrite<T> {
    /// Sets every pixel to `value`.
    fn fill(&mut self, value: T)
        requires
            old(self).wf(),
        ensures
            final(self).wf(),
            final(self).spec_width() == old(self).spec_width(),
            final(self).spec_height() == old(self).spec_height(),
            final(self).spec_view().len() == old(self).spec_view().len(),
            forall|i: int|
                0 <= i < final(self).spec_view().len() ==> final(self).spec_view()[i] == value,
    {
        proof {
            old(self).lemma_wf_len();
        }
        let h = self.height();
        let w = self.width();
        let mut y: usize = 0;
        while y < h
            invariant
                self.wf(),
                w == self.spec_width(),
                h == self.spec_height(),
                self.spec_view().len() == old(self).spec_view().len(),
                self.spec_view().len() == w * h,
                y <= h,
                forall|i: int| 0 <= i < y * w ==> self.spec_view()[i] == value,
            decreases h - y,
        {
            let mut x: usize = 0;
            while x < w
                invariant
                    self.wf(),
                    w == self.spec_width(),
                    h == self.spec_height(),
                    self.spec_view().len() == old(self).spec_view().len(),
                    self.spec_view().len() == w * h,
                    y < h,
                    x <= w,
                    forall|i: int| 0 <= i < y * w + x ==> self.spec_view()[i] == value,
                decreases w - x,
            {
                proof {
                    assert(y * w + x < w * h) by (nonlinear_arith)
                        requires
                            x < w,
                            y < h,
                    ;
                }
                self.set_value(Vec2 { x, y }, value);
                x = x + 1;
            }
            proof {
                assert((y + 1) * w == y * w + w) by (nonlinear_arith);
            }
            y = y + 1;
        }
        proof {
            assert forall|i: int| 0 <= i < self.spec_view().len() implies self.spec_view()[i]
                == value by {
                assert(self.spec_view().len() == h * w);
                assert(h * w == w * h) by (nonlinear_arith);
            }
        }
    }

    /// The pixel at `position`, or `None` when it lies outside the buffer.
    fn pixel(&self, position: Vec2<i32>) -> (r: Option<T>)
        requires
            self.wf(),
        ensures
            r == (if spec_in_bounds(
                self.spec_width(),
                self.spec_height(),
                position.x as int,
                position.y as int,
            ) {
                Some(
                    self.spec_view()[spec_pix_index(
                        self.spec_width(),
                        position.x as int,
                        position.y as int,
                    )],
                )
            } else {
                None
            }),
    {
        if position.x < 0 || position.y < 0 {
            return None;
        }
        let x = position.x as usize;
        let y = position.y as usize;
        if x >= self.width() || y >= self.height() {
            return None;
        }
        Some(self.value(Vec2 { x, y }))
    }

    /// Writes `value` at `point`; writes outside the buffer are dropped.
    fn draw_point(&mut self, point: Vec2<i32>, value: T)
        requires
            old(self).wf(),
        ensures
            final(self).wf(),
            final(self).spec_width() == old(self).spec_width(),
            final(self).spec_height() == old(self).spec_height(),
            final(self).spec_view() == (if spec_in_bounds(
                old(self).spec_width(),
                old(self).spec_height(),
                point.x as int,
                point.y as int,
            ) {
                old(self).spec_view().update(
                    spec_pix_index(old(self).spec_width(), point.x as int, point.y as int),
                    value,
                )
            } else {
                old(self).spec_view()
            }),
    {
        if point.x < 0 || point.y < 0 {
            return ;
        }
        let x = point.x as usize;
        let y = point.y as usize;
        if x >= self.width() || y >= self.height() {
            return ;
        }
        self.set_value(Vec2 { x, y }, value);
    }

    /// Fills row `y` from column `x0` to column `x1` (either order),
    /// clipped to the buffer; rows outside the buffer are dropped.
    fn draw_horizontal_line(&mut self, x0: i32, x1: i32, y: i32, value: T)
        requires
            old(self).wf(),
        ensures
            final(self).wf(),
            final(self).spec_width() == old(self).spec_width(),
            final(self).spec_height() == old(self).spec_height(),
            final(self).spec_view().len() == old(self).spec_view().len(),
            forall|i: int|
                0 <= i < final(self).spec_view().len() ==> final(self).spec_view()[i] == (if
                    spec_on_hline(
                    old(self).spec_width(),
                    old(self).spec_height(),
                    x0 as int,
                    x1 as int,
                    y as int,
                    i,
                ) {
                    value
                } else {
                    old(self).spec_view()[i]
                }),
    {
        proof {
            old(self).lemma_wf_len();
        }
        let w = self.width();
        let h = self.height();
        if y < 0 || y as usize >= h {
            return ;
        }
        let yy = y as usize;
        let (lo0, hi0): (i32, i32) = if x0 <= x1 {
            (x0, x1)
        } else {
            (x1, x0)
        };
        let lo: usize = if lo0 < 0 {
            0
        } else {
            lo0 as usize
        };
        if hi0 < 0 {
            return ;
        }
        let hi_excl: usize = if hi0 as usize >= w {
            w
        } else {
            hi0 as usize + 1
        };
        let mut x: usize = lo;
        if x >= hi_excl {
            return ;
        }
        proof {
            assert(yy * w + w <= h * w) by (nonlinear_arith)
                requires
                    yy < h,
                    w >= 0,
            ;
            assert(h * w == w * h) by (nonlinear_arith);
        }
        while x < hi_excl
            invariant
                self.wf(),
                w == self.spec_width(),
                h == self.spec_height(),
                self.spec_view().len() == old(self).spec_view().len(),
                self.spec_view().len() == w * h,
                yy < h,
                yy == y,
                lo <= x <= hi_excl,
                hi_excl <= w,
                yy * w + w <= w * h,
                forall|i: int|
                    0 <= i < self.spec_view().len() ==> self.spec_view()[i] == (if yy * w + lo <= i
                        < yy * w + x {
                        value
                    } else {
                        old(self).spec_view()[i]
                    }),
            decreases hi_excl - x,
        {
            self.set_value(Vec2 { x, y: yy }, value);
            x = x + 1;
        }
    }

    /// Rasterizes the segment from `p0` to `p1` with Bresenham stepping
    /// along the longer axis, writing only in-bounds pixels.
    fn draw_line(&mut self, p0: Vec2<i32>, p1: Vec2<i32>, color: T)
        requires
            old(self).wf(),
            mid_i32(p0.x as int),
            mid_i32(p0.y as int),
            mid_i32(p1.x as int),
            mid_i32(p1.y as int),
        ensures
            final(self).wf(),
            final(self).spec_width() == old(self).spec_width(),
            final(self).spec_height() == old(self).spec_height(),
            final(self).spec_view().len() == old(self).spec_view().len(),
            forall|i: int|
                0 <= i < final(self).spec_view().len() ==> final(self).spec_view()[i] == (if
                    spec_on_line(old(self).spec_width(), old(self).spec_height(), p0, p1, i) {
                    color
                } else {
                    old(self).spec_view()[i]
                }),
    {
        proof {
            old(self).lemma_wf_len();
        }
        let ghost w = self.spec_width();
        let ghost h = self.spec_height();
        let ghost axis = spec_line_axis(p0, p1);
        let mut it = LinePointsIter::new(p0, p1);
        let ghost total = it.spec_total();
        let mut done: u64 = 0;
        loop
            invariant
                self.wf(),
                w == self.spec_width(),
                h == self.spec_height(),
                self.spec_view().len() == old(self).spec_view().len(),
                self.spec_view().len() == w * h,
                it.wf(),
                it.spec_axis() == axis,
                it.spec_total() == total,
                total == spec_axis_total(p0, p1, axis),
                0 <= it.spec_steps() <= total,
                done == it.spec_steps(),
                forall|m: int| #[trigger] it.spec_point_at(m) == spec_axis_point(
                    p0,
                    p1,
                    axis,
                    m + it.spec_steps(),
                ),
                forall|i: int|
                    0 <= i < self.spec_view().len() ==> self.spec_view()[i] == (if (exists|m: int|
                        0 <= m < it.spec_steps() && {
                            let pt = #[trigger] spec_axis_point(p0, p1, axis, m);
                            spec_in_bounds(w, h, pt.x as int, pt.y as int) && i == spec_pix_index(
                                w,
                                pt.x as int,
                                pt.y as int,
                            )
                        }) {
                        color
                    } else {
                        old(self).spec_view()[i]
                    }),
            ensures
                it.spec_steps() == total,
            decreases total - it.spec_steps(),
        {
            let ghost steps_before = it.spec_steps();
            let ghost view_before = self.spec_view();
            let ghost it0 = it;
            match it.next() {
                Some(p) => {
                    self.draw_point(p, color);
                    done = done + 1;
                    proof {
                        let pt = spec_axis_point(p0, p1, axis, steps_before);
                        if spec_in_bounds(w, h, p.x as int, p.y as int) {
                            assert(spec_pix_index(w, p.x as int, p.y as int) < w * h)
                                by (nonlinear_arith)
                                requires
                                    0 <= p.x < w,
                                    0 <= p.y < h,
                            ;
                        }
                        assert(self.spec_view().len() == view_before.len());
                        assert(p == it0.spec_point_at(0));
                        assert(it0.spec_point_at(0) == spec_axis_point(
                            p0,
                            p1,
                            axis,
                            0 + steps_before,
                        ));
                        assert forall|m: int| #[trigger] it.spec_point_at(m) == spec_axis_point(
                            p0,
                            p1,
                            axis,
                            m + it.spec_steps(),
                        ) by {
                            assert(it.spec_point_at(m) == it0.spec_point_at(m + 1));
                            assert(it0.spec_point_at(m + 1) == spec_axis_point(
                                p0,
                                p1,
                                axis,
                                m + 1 + steps_before,
                            ));
                        }
                        assert forall|i: int| 0 <= i < self.spec_view().len() implies
                            self.spec_view()[i] == (if (exists|m: int|
                            0 <= m < it.spec_steps() && {
                                let pm = #[trigger] spec_axis_point(p0, p1, axis, m);
                                spec_in_bounds(w, h, pm.x as int, pm.y as int) && i
                                    == spec_pix_index(w, pm.x as int, pm.y as int)
                            }) {
                            color
                        } else {
                            old(self).spec_view()[i]
                        }) by {
                            if spec_in_bounds(w, h, pt.x as int, pt.y as int) && i == spec_pix_index(
                                w,
                                pt.x as int,
                                pt.y as int,
                            ) {
                                // The point just painted covers this index.
                                assert(spec_pix_index(w, pt.x as int, pt.y as int) < w * h)
                                    by (nonlinear_arith)
                                    requires
                                        0 <= pt.x < w,
                                        0 <= pt.y < h,
                                ;
                                assert(0 <= steps_before < it.spec_steps() && {
                                    let pm = spec_axis_point(p0, p1, axis, steps_before);
                                    spec_in_bounds(w, h, pm.x as int, pm.y as int) && i
                                        == spec_pix_index(w, pm.x as int, pm.y as int)
                                });
                                assert(self.spec_view()[i] == color);
                            } else {
                                if spec_in_bounds(w, h, pt.x as int, pt.y as int) {
                                    assert(spec_pix_index(w, pt.x as int, pt.y as int) < w * h)
                                        by (nonlinear_arith)
                                        requires
                                            0 <= pt.x < w,
                                            0 <= pt.y < h,
                                    ;
                                }
                                assert(self.spec_view()[i] == view_before[i]);
                                if exists|m: int|
                                    0 <= m < it.spec_steps() && {
                                        let pm = #[trigger] spec_axis_point(p0, p1, axis, m);
                                        spec_in_bounds(w, h, pm.x as int, pm.y as int) && i
                                            == spec_pix_index(w, pm.x as int, pm.y as int)
                                    } {
                                    let m = choose|m: int|
                                        0 <= m < it.spec_steps() && {
                                            let pm = #[trigger] spec_axis_point(p0, p1, axis, m);
                                            spec_in_bounds(w, h, pm.x as int, pm.y as int) && i
                                                == spec_pix_index(w, pm.x as int, pm.y as int)
                                        };
                                    assert(m != steps_before);
                                    assert(0 <= m < steps_before && {
                                        let pm = spec_axis_point(p0, p1, axis, m);
                                        spec_in_bounds(w, h, pm.x as int, pm.y as int) && i
                                            == spec_pix_index(w, pm.x as int, pm.y as int)
                                    });
                                    assert(view_before[i] == color);
                                } else {
                                    assert(!(exists|m: int|
                                        0 <= m < steps_before && {
                                            let pm = #[trigger] spec_axis_point(p0, p1, axis, m);
                                            spec_in_bounds(w, h, pm.x as int, pm.y as int) && i
                                                == spec_pix_index(w, pm.x as int, pm.y as int)
                                        }));
                                    assert(view_before[i] == old(self).spec_view()[i]);
                                }
                            }
                        }
                    }
                },
                None => {
                    proof {
                        assert(it.spec_steps() == total);
                    }
                    break ;
                },
            }
        }
        proof {
            assert(it.spec_steps() == total);
            assert forall|i: int| 0 <= i < self.spec_view().len() implies self.spec_view()[i] == (
            if spec_on_line(w, h, p0, p1, i) {
                color
            } else {
                old(self).spec_view()[i]
            }) by {
                if spec_on_line(w, h, p0, p1, i) {
                    let m = choose|m: int|
                        0 <= m < spec_axis_total(p0, p1, axis) && {
                            let pm = #[trigger] spec_axis_point(p0, p1, axis, m);
                            spec_in_bounds(w, h, pm.x as int, pm.y as int) && i == spec_pix_index(
                                w,
                                pm.x as int,
                                pm.y as int,
                            )
                        };
                    assert(0 <= m < it.spec_steps() && {
                        let pm = spec_axis_point(p0, p1, axis, m);
                        spec_in_bounds(w, h, pm.x as int, pm.y as int) && i == spec_pix_index(
                            w,
                            pm.x as int,
                            pm.y as int,
                        )
                    });
                } else {
                    if exists|m: int|
                        0 <= m < it.spec_steps() && {
                            let pm = #[trigger] spec_axis_point(p0, p1, axis, m);
                            spec_in_bounds(w, h, pm.x as int, pm.y as int) && i == spec_pix_index(
                                w,
                                pm.x as int,
                                pm.y as int,
                            )
                        } {
                        let m = choose|m: int|
                            0 <= m < it.spec_steps() && {
                                let pm = #[trigger] spec_axis_point(p0, p1, axis, m);
                                spec_in_bounds(w, h, pm.x as int, pm.y as int) && i
                                    == spec_pix_index(w, pm.x as int, pm.y as int)
                            };
                        assert(spec_on_line(w, h, p0, p1, i));
                        assert(false);
                    }
                }
            }
        }
    }
}

impl<T: Copy, U: Buffer2dWrite<T>> SimpleRasterizate<T> for U {

}

} // verus!
