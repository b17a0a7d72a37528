//! The shared per-frame glyph queue and the batch a draw call flushes.
//!
//! The rendering context owns exactly one queue; every aggregate accumulates
//! its sections into it and a single flush per frame drains it whole. The
//! queue keeps sections in the order they were queued, and a flush cannot
//! drain a subset: it always takes everything accumulated so far, whoever
//! queued it.

use vstd::prelude::*;

use crate::section::LayoutSection;
use crate::style::DrawParam;

verus! {

/// The shared accumulation queue of not-yet-drawn layout sections.
pub struct GlyphQueue {
    /// Sections in the order they were queued.
    pub sections: Vec<LayoutSection>,
}

impl GlyphQueue {
    /// An empty queue.
    pub fn new() -> (q: GlyphQueue)
        ensures
            q.sections@.len() == 0,
    {
        GlyphQueue { sections: Vec::new() }
    }

    /// How many sections are queued.
    pub fn len(&self) -> (n: usize)
        ensures
            n == self.sections@.len(),
    {
        self.sections.len()
    }

    /// True when nothing is queued.
    pub fn is_empty(&self) -> (r: bool)
        ensures
            r == (self.sections@.len() == 0),
    {
        self.sections.len() == 0
    }
}

/// Everything one batched draw call submits: the entire drained queue, in
/// queueing order, and the draw parameters from which the renderer composes
/// the single transform applied to every glyph of the batch.
pub struct DrawBatch {
    /// The drained sections, in the order they were queued.
    pub sections: Vec<LayoutSection>,
    /// The parameters of this draw call.
    pub param: DrawParam,
}

} // verus!
