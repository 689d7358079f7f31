//! Per-character layout data produced when a font atlas is rendered.

use vstd::prelude::*;
use crate::rect::Rect;

verus! {

/// Where a character's glyph was placed in the rendered atlas.
#[derive(Clone, Copy, Debug, PartialEq, Eq, Structural)]
pub struct CharInfo {
    pub bounding_box: Rect<i32>,
}

impl CharInfo {
    pub fn new(bounding_box: Rect<i32>) -> (r: Self)
        ensures
            r.bounding_box == bounding_box,
    {
        CharInfo { bounding_box }
    }
}

/// How a font's pixel size is given: absolute pixels, or hundredths of
/// the viewport height.
pub enum FontSize {
    Px(u32),
    Vs(u32),
}

} // verus!
