//! Settings gathered before a window is opened.

use vstd::prelude::*;

verus! {

/// Window settings, filled in by chained calls; the windowing layer
/// consumes them to open the window.
pub struct WindowBuilder<'a> {
    pub width: usize,
    pub height: usize,
    pub title: &'a str,
}

impl<'a> WindowBuilder<'a> {
    pub fn new() -> (r: Self)
        ensures
            r.width == 800,
            r.height == 600,
    {
        WindowBuilder { width: 800, height: 600, title: "Default Window Title" }
    }

    pub fn with_inner_size(self, width: usize, height: usize) -> (r: Self)
        ensures
            r.width == width,
            r.height == height,
            r.title == self.title,
    {
        WindowBuilder { width, height, title: self.title }
    }

    pub fn with_title(self, title: &'a str) -> (r: Self)
        ensures
            r.width == self.width,
            r.height == self.height,
            r.title == title,
    {
        WindowBuilder { width: self.width, height: self.height, title }
    }
}

impl<'a> Default for WindowBuilder<'a> {
    fn default() -> (r: Self)
        ensures
            r.width == 800,
            r.height == 600,
    {
        WindowBuilder { width: 800, height: 600, title: "Default Window Title" }
    }
}

} // verus!
