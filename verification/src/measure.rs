//! Pixel measurement: the walk over the rasterizer's per-glyph pixel
//! bounding boxes that yields an aggregate's width and height.
//!
//! The rasterizer reports, for each positioned glyph, an optional pixel
//! bounding box in integer pixel coordinates; non-rendering glyphs such as
//! whitespace report none and are skipped. The measured width is the largest
//! right edge over all boxes and the height the largest bottom edge, both
//! clamped to be non-negative.

use vstd::prelude::*;

verus! {

/// A glyph's pixel bounding box, in integer pixel coordinates.
#[derive(Clone, Copy, PartialEq, Eq, Structural, Debug)]
pub struct PixelRect {
    pub min_x: i32,
    pub min_y: i32,
    pub max_x: i32,
    pub max_y: i32,
}

/// The largest right edge over all present boxes, at least `0`.
pub open spec fn spec_max_right(boxes: Seq<Option<PixelRect>>) -> int
    decreases boxes.len(),
{
    if boxes.len() == 0 {
        0
    } else {
        let rest = spec_max_right(boxes.drop_last());
        match boxes.last() {
            Some(r) => if r.max_x > rest {
                r.max_x as int
            } else {
                rest
            },
            None => rest,
        }
    }
}

/// The largest bottom edge over all present boxes, at least `0`.
pub open spec fn spec_max_bottom(boxes: Seq<Option<PixelRect>>) -> int
    decreases boxes.len(),
{
    if boxes.len() == 0 {
        0
    } else {
        let rest = spec_max_bottom(boxes.drop_last());
        match boxes.last() {
            Some(r) => if r.max_y > rest {
                r.max_y as int
            } else {
                rest
            },
            None => rest,
        }
    }
}

/// Both measured extents are non-negative and fit in 32 bits.
pub proof fn lemma_extents_in_range(boxes: Seq<Option<PixelRect>>)
    ensures
        0 <= spec_max_right(boxes) <= i32::MAX,
        0 <= spec_max_bottom(boxes) <= i32::MAX,
    decreases boxes.len(),
{
    if boxes.len() > 0 {
        lemma_extents_in_range(boxes.drop_last());
    }
}

/// Walks the rasterizer's glyph bounding boxes and returns the measured
/// `(width, height)`: the largest right and bottom pixel edges, skipping
/// glyphs with no visible box, clamped to be non-negative.
pub fn glyph_extents(boxes: &Vec<Option<PixelRect>>) -> (dims: (u32, u32))
    ensures
        dims.0 == spec_max_right(boxes@),
        dims.1 == spec_max_bottom(boxes@),
{
    let mut max_w: i32 = 0;
    let mut max_h: i32 = 0;
    let mut i: usize = 0;
    while i < boxes.len()
        invariant
            i <= boxes@.len(),
            max_w == spec_max_right(boxes@.take(i as int)),
            max_h == spec_max_bottom(boxes@.take(i as int)),
        decreases boxes@.len() - i,
    {
        proof {
            assert(boxes@.take(i + 1).drop_last() =~= boxes@.take(i as int));
            assert(boxes@.take(i + 1).last() == boxes@[i as int]);
            lemma_extents_in_range(boxes@.take(i as int));
        }
        match boxes[i] {
            Some(rect) => {
                if rect.max_x > max_w {
                    max_w = rect.max_x;
                }
                if rect.max_y > max_h {
                    max_h = rect.max_y;
                }
            },
            None => {},
        }
        i = i + 1;
    }
    proof {
        assert(boxes@.take(boxes@.len() as int) =~= boxes@);
        lemma_extents_in_range(boxes@);
    }
    (max_w as u32, max_h as u32)
}

} // verus!
