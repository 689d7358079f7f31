//! Bounds-checked 2D pixel storage, row-major, origin top-left.

use vstd::prelude::*;
use crate::rect::Rect;
use crate::vector2::Vec2;
use crate::vector4::Vec4;

verus! {

/// Read access to a 2D grid of values.
pub trait Buffer2dRead<T: Copy>: Sized {
    /// Width and height as mathematical integers.
    spec fn spec_width(&self) -> nat;

    spec fn spec_height(&self) -> nat;

    /// The stored values, row-major: the value at `(x, y)` sits at index
    /// `y * width + x`.
    spec fn spec_view(&self) -> Seq<T>;

    /// Internal consistency: the storage holds exactly `width * height`
    /// values.
    spec fn wf(&self) -> bool;

    /// Well-formedness pins the storage length to `width * height`.
    proof fn lemma_wf_len(&self)
        requires
            self.wf(),
        ensures
            self.spec_view().len() == self.spec_width() * self.spec_height(),
    ;

    fn width(&self) -> (r: usize)
        requires
            self.wf(),
        ensures
            r == self.spec_width(),
    ;

    fn height(&self) -> (r: usize)
        requires
            self.wf(),
        ensures
            r == self.spec_height(),
    ;

    fn size(&self) -> (r: Vec2<usize>)
        requires
            self.wf(),
        ensures
            r.x == self.spec_width(),
            r.y == self.spec_height(),
    ;

    fn value(&self, position: Vec2<usize>) -> (r: T)
        requires
            self.wf(),
            position.x < self.spec_width(),
            position.y < self.spec_height(),
        ensures
            r == self.spec_view()[position.y * self.spec_width() + position.x],
    ;
}

/// Write access to a 2D grid of values. The position must be proven in
/// bounds by the caller; there is no run-time check on this path.
pub trait Buffer2dWrite<T: Copy>: Buffer2dRead<T> {
    fn set_value(&mut self, position: Vec2<usize>, value: T)
        requires
            old(self).wf(),
            position.x < old(self).spec_width(),
            position.y < old(self).spec_height(),
        ensures
            final(self).wf(),
            final(self).spec_width() == old(self).spec_width(),
            final(self).spec_height() == old(self).spec_height(),
            final(self).spec_view() == old(self).spec_view().update(
                position.y * old(self).spec_width() + position.x,
                value,
            ),
    ;
}

/// An owned 2D buffer of values, row-major.
#[derive(Debug)]
pub struct Buffer2d<T> {
    size: Vec2<usize>,
    buffer: Vec<T>,
}

impl<T: Copy> Buffer2d<T> {
    /// A buffer of the given size with every cell set to `value`.
    pub fn new(size: Vec2<usize>, value: T) -> (r: Self)
        requires
            size.x * size.y <= usize::MAX,
        ensures
            r.wf(),
            r.spec_width() == size.x,
            r.spec_height() == size.y,
            r.spec_view() == Seq::new((size.x * size.y) as nat, |i: int| value),
    {
        let count: usize = size.x * size.y;
        let mut buffer: Vec<T> = Vec::new();
        let mut i: usize = 0;
        while i < count
            invariant
                i <= count,
                buffer@.len() == i,
                forall|j: int| 0 <= j < i ==> buffer@[j] == value,
            decreases count - i,
        {
            buffer.push(value);
            i = i + 1;
        }
        proof {
            assert(buffer@ =~= Seq::new((size.x * size.y) as nat, |i: int| value));
        }
        Buffer2d { size, buffer }
    }
}

impl<T: Copy> Buffer2d<T> {
    /// A buffer of the given size taking its cell values, row by row, from
    /// `items`.
    pub fn from_iter(size: Vec2<usize>, items: Vec<T>) -> (r: Self)
        requires
            items@.len() == size.x * size.y,
        ensures
            r.wf(),
            r.spec_width() == size.x,
            r.spec_height() == size.y,
            r.spec_view() == items@,
    {
        Buffer2d { size, buffer: items }
    }

    /// The backing storage, row-major.
    pub fn buffer(&self) -> (r: &Vec<T>)
        ensures
            r@ == self.spec_view(),
    {
        &self.buffer
    }

    /// A read view of the whole buffer.
    pub fn as_slice(&self) -> (r: Buffer2dSlice<T>)
        requires
            self.wf(),
        ensures
            r.wf(),
            r.spec_width() == self.spec_width(),
            r.spec_height() == self.spec_height(),
            forall|x: nat, y: nat|
                x < r.spec_width() && y < r.spec_height() ==> r.spec_at(x, y) == self.spec_view()[(
                y * self.spec_width() + x) as int],
    {
        let size = self.size();
        Buffer2dSlice { buffer: self, rect: Rect { p1: Vec2 { x: 0, y: 0 }, p2: size } }
    }

    /// A read view of the cells inside `rect` (`p1` inclusive, `p2`
    /// exclusive).
    pub fn slice(&self, rect: Rect<usize>) -> (r: Buffer2dSlice<T>)
        requires
            self.wf(),
            rect.p1.x <= rect.p2.x,
            rect.p1.y <= rect.p2.y,
            rect.p2.x <= self.spec_width(),
            rect.p2.y <= self.spec_height(),
        ensures
            r.wf(),
            r.spec_width() == rect.p2.x - rect.p1.x,
            r.spec_height() == rect.p2.y - rect.p1.y,
            forall|x: nat, y: nat|
                x < r.spec_width() && y < r.spec_height() ==> r.spec_at(x, y) == self.spec_view()[(
                (y + rect.p1.y) * self.spec_width() + x + rect.p1.x) as int],
    {
        Buffer2dSlice { buffer: self, rect }
    }
}

impl Buffer2d<Vec4<u8>> {
    /// The pixels as raw bytes, four per pixel, in `x`, `y`, `z`, `w`
    /// (red, green, blue, alpha) order.
    pub fn to_r8g8b8a8(&self) -> (r: Vec<u8>)
        requires
            self.wf(),
            self.spec_view().len() * 4 <= usize::MAX,
        ensures
            r@.len() == self.spec_view().len() * 4,
            forall|i: int|
                0 <= i < self.spec_view().len() ==> r@[4 * i] == self.spec_view()[i].x && r@[4 * i
                    + 1] == self.spec_view()[i].y && r@[4 * i + 2] == self.spec_view()[i].z && r@[4
                    * i + 3] == self.spec_view()[i].w,
    {
        let n = self.buffer.len();
        let mut output: Vec<u8> = Vec::new();
        let mut i: usize = 0;
        while i < n
            invariant
                i <= n,
                n == self.spec_view().len(),
                n * 4 <= usize::MAX,
                output@.len() == 4 * i,
                forall|j: int|
                    0 <= j < i ==> output@[4 * j] == self.spec_view()[j].x && output@[4 * j + 1]
                        == self.spec_view()[j].y && output@[4 * j + 2] == self.spec_view()[j].z
                        && output@[4 * j + 3] == self.spec_view()[j].w,
            decreases n - i,
        {
            let pixel = self.buffer[i];
            output.push(pixel.x);
            output.push(pixel.y);
            output.push(pixel.z);
            output.push(pixel.w);
            i = i + 1;
        }
        output
    }
}

impl<T: Copy> Clone for Buffer2d<T> {
    fn clone(&self) -> Self {
        Buffer2d { size: self.size, buffer: self.buffer.clone() }
    }
}

impl<T: Copy> Buffer2dRead<T> for Buffer2d<T> {
    closed spec fn spec_width(&self) -> nat {
        self.size.x as nat
    }

    closed spec fn spec_height(&self) -> nat {
        self.size.y as nat
    }

    closed spec fn spec_view(&self) -> Seq<T> {
        self.buffer@
    }

    closed spec fn wf(&self) -> bool {
        self.buffer@.len() == self.size.x * self.size.y
    }

    proof fn lemma_wf_len(&self) {
    }

    fn width(&self) -> usize {
        self.size.x
    }

    fn height(&self) -> usize {
        self.size.y
    }

    fn size(&self) -> Vec2<usize> {
        self.size
    }

    fn value(&self, position: Vec2<usize>) -> T {
        let n: usize = self.buffer.len();
        proof {
            assert(self.size.x * position.y + position.x < self.size.x * self.size.y)
                by (nonlinear_arith)
                requires
                    position.x < self.size.x,
                    position.y < self.size.y,
            ;
        }
        self.buffer[self.size.x * position.y + position.x]
    }
}

impl<T: Copy> Buffer2dWrite<T> for Buffer2d<T> {
    fn set_value(&mut self, position: Vec2<usize>, value: T) {
        let n: usize = self.buffer.len();
        proof {
            assert(self.size.x * position.y + position.x < self.size.x * self.size.y)
                by (nonlinear_arith)
                requires
                    position.x < self.size.x,
                    position.y < self.size.y,
            ;
        }
        let index: usize = self.size.x * position.y + position.x;
        self.buffer.set(index, value);
    }
}

/// A read-only window into a [`Buffer2d`].
pub struct Buffer2dSlice<'a, T: Copy> {
    buffer: &'a Buffer2d<T>,
    rect: Rect<usize>,
}

impl<'a, T: Copy> Buffer2dSlice<'a, T> {
    /// The window's consistency: the rectangle is ordered and lies inside
    /// the parent buffer.
    pub closed spec fn wf(&self) -> bool {
        self.buffer.wf() && self.rect.p1.x <= self.rect.p2.x && self.rect.p1.y <= self.rect.p2.y
            && self.rect.p2.x <= self.buffer.spec_width() && self.rect.p2.y
            <= self.buffer.spec_height()
    }

    pub closed spec fn spec_width(&self) -> nat {
        (self.rect.p2.x - self.rect.p1.x) as nat
    }

    pub closed spec fn spec_height(&self) -> nat {
        (self.rect.p2.y - self.rect.p1.y) as nat
    }

    /// The value the window shows at `(x, y)`.
    pub closed spec fn spec_at(&self, x: nat, y: nat) -> T {
        self.buffer.spec_view()[((y + self.rect.p1.y) * self.buffer.spec_width() + x
            + self.rect.p1.x) as int]
    }

    /// The parent buffer this window was made from.
    pub closed spec fn spec_buffer(&self) -> &'a Buffer2d<T> {
        self.buffer
    }

    /// The underlying whole buffer.
    pub fn buffer2d(&self) -> (r: &'a Buffer2d<T>)
        ensures
            r == self.spec_buffer(),
    {
        self.buffer
    }

    pub fn width(&self) -> (r: usize)
        requires
            self.wf(),
        ensures
            r == self.spec_width(),
    {
        self.rect.p2.x - self.rect.p1.x
    }

    pub fn height(&self) -> (r: usize)
        requires
            self.wf(),
        ensures
            r == self.spec_height(),
    {
        self.rect.p2.y - self.rect.p1.y
    }

    pub fn size(&self) -> (r: Vec2<usize>)
        requires
            self.wf(),
        ensures
            r.x == self.spec_width(),
            r.y == self.spec_height(),
    {
        Vec2 { x: self.rect.p2.x - self.rect.p1.x, y: self.rect.p2.y - self.rect.p1.y }
    }

    pub fn value(&self, position: Vec2<usize>) -> (r: T)
        requires
            self.wf(),
            position.x < self.spec_width(),
            position.y < self.spec_height(),
        ensures
            r == self.spec_at(position.x as nat, position.y as nat),
    {
        self.buffer.value(
            Vec2 { x: self.rect.p1.x + position.x, y: self.rect.p1.y + position.y },
        )
    }
}

} // verus!
