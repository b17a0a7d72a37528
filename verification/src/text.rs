//! The styled text aggregate: an ordered sequence of fragments, aggregate
//! defaults, wrap bounds and layout policy, plus a lazily-filled measurement
//! cache that every mutation clears whole.

use vstd::prelude::*;
use vstd::string::StringExecFns;

use crate::fragment::concat_texts;
use crate::fragment::lemma_concat_texts_take_step;
use crate::fragment::TextFragment;
use crate::measure::glyph_extents;
use crate::measure::spec_max_bottom;
use crate::measure::spec_max_right;
use crate::measure::PixelRect;
use crate::queue::DrawBatch;
use crate::queue::GlyphQueue;
use crate::scalar::Point;
use crate::scalar::Scalar;
use crate::scalar::INFINITY_BITS;
use crate::section::run_resolves;
use crate::section::spec_h_shift;
use crate::section::HorizontalShift;
use crate::section::LayoutSection;
use crate::section::SectionRun;
use crate::style::BlendMode;
use crate::style::Color;
use crate::style::DrawParam;
use crate::style::FontId;
use crate::style::HorizontalAlign;
use crate::style::Scale;
use crate::style::TextLayout;

verus! {

/// The error an aggregate operation can report.
#[derive(Clone, Copy, PartialEq, Eq, Structural, Debug)]
pub enum TextError {
    /// A fragment index at or past the current fragment count.
    FragmentOutOfRange { index: usize, len: usize },
}

/// Drawable styled text: an ordered sequence of fragments plus aggregate
/// defaults, wrap bounds, layout policy and a measurement cache.
#[derive(Clone, Debug)]
pub struct TextCached {
    /// The fragments, in concatenation and layout order.
    pub fragments: Vec<TextFragment>,
    /// Stored and returned unchanged; the batched text path does not act on
    /// it.
    pub blend_mode: Option<BlendMode>,
    /// Wrap bounds; `+infinity` on the x-axis disables wrapping.
    pub bounds: Point,
    /// Wrap and alignment policy; forced to the neutral default whenever the
    /// horizontal bound is infinite.
    pub layout: TextLayout,
    /// Default font for fragments without their own.
    pub font_id: FontId,
    /// Default scale for fragments without their own.
    pub font_scale: Scale,
    /// Cached concatenated contents, cleared by every mutation.
    pub cached_string: Option<String>,
    /// Cached measured width, cleared by every mutation.
    pub cached_width: Option<u32>,
    /// Cached measured height, cleared by every mutation.
    pub cached_height: Option<u32>,
}

/// The section `s` is exactly the layout request for aggregate `t` placed at
/// `dest`: the caller's destination and the alignment shift, the aggregate's
/// bounds and policy, and one style-resolved run per fragment in order.
pub open spec fn section_for(
    s: LayoutSection,
    t: TextCached,
    default_color: Color,
    dest: Point,
    override_color: Option<Color>,
) -> bool {
    &&& s.screen_position == dest
    &&& s.bounds == t.bounds
    &&& s.layout == t.layout
    &&& s.h_shift == spec_h_shift(t.bounds, t.layout)
    &&& s.runs@.len() == t.fragments@.len()
    &&& forall|i: int|
        0 <= i < t.fragments@.len() ==> run_resolves(
            #[trigger] s.runs@[i],
            t.fragments@[i],
            default_color,
            override_color,
            t.font_id,
            t.font_scale,
        )
}

impl TextCached {
    /// Cache consistency: a cached string is the concatenation of the current
    /// fragments, and width and height are only ever cached together.
    pub open spec fn wf(self) -> bool {
        &&& (self.cached_string matches Some(s) ==> s@ == concat_texts(self.fragments@))
        &&& (self.cached_width is Some <==> self.cached_height is Some)
    }

    /// All three cache fields are empty.
    pub open spec fn caches_cleared(self) -> bool {
        &&& self.cached_string is None
        &&& self.cached_width is None
        &&& self.cached_height is None
    }

    /// `self` and `other` have the same bounds, layout policy and default
    /// style.
    pub open spec fn same_defaults(self, other: TextCached) -> bool {
        &&& self.bounds == other.bounds
        &&& self.layout == other.layout
        &&& self.font_id == other.font_id
        &&& self.font_scale == other.font_scale
        &&& self.blend_mode == other.blend_mode
    }

    /// The freshly-constructed state: no fragments, unbounded extent, neutral
    /// layout, default font and scale, empty caches.
    pub open spec fn is_default(self) -> bool {
        &&& self.fragments@.len() == 0
        &&& self.blend_mode is None
        &&& self.bounds == (Point {
            x: Scalar { bits: INFINITY_BITS },
            y: Scalar { bits: INFINITY_BITS },
        })
        &&& self.layout == TextLayout::spec_default()
        &&& self.font_id == FontId(0usize)
        &&& self.font_scale == Scale::spec_default()
        &&& self.caches_cleared()
    }

    /// An aggregate with no fragments and all defaults.
    pub fn new_empty() -> (t: TextCached)
        ensures
            t.is_default(),
            t.wf(),
    {
        TextCached {
            fragments: Vec::new(),
            blend_mode: None,
            bounds: Point::unbounded(),
            layout: TextLayout::default_layout(),
            font_id: FontId::default_font(),
            font_scale: Scale::default_scale(),
            cached_string: None,
            cached_width: None,
            cached_height: None,
        }
    }

    /// An aggregate holding one initial fragment, otherwise all defaults.
    pub fn new(fragment: TextFragment) -> (t: TextCached)
        ensures
            t.fragments@ =~= seq![fragment],
            t.blend_mode is None,
            t.bounds == (Point {
                x: Scalar { bits: INFINITY_BITS },
                y: Scalar { bits: INFINITY_BITS },
            }),
            t.layout == TextLayout::spec_default(),
            t.font_id == FontId(0usize),
            t.font_scale == Scale::spec_default(),
            t.caches_cleared(),
            t.wf(),
    {
        let mut t = TextCached::new_empty();
        t.add_fragment(fragment);
        t
    }

    /// Appends a fragment at the end and clears the caches.
    pub fn add_fragment(&mut self, fragment: TextFragment)
        ensures
            final(self).fragments@ == old(self).fragments@.push(fragment),
            final(self).same_defaults(*old(self)),
            final(self).caches_cleared(),
            final(self).wf(),
    {
        self.fragments.push(fragment);
        self.invalidate_caches();
    }

    /// Replaces the fragment at `old_index` and clears the caches. Fails with
    /// an out-of-range error, leaving the aggregate unmodified, when
    /// `old_index` is at or past the fragment count.
    pub fn replace_fragment(&mut self, old_index: usize, new_fragment: TextFragment) -> (r: Result<
        (),
        TextError,
    >)
        ensures
            match r {
                Ok(()) => {
                    &&& old_index < old(self).fragments@.len()
                    &&& final(self).fragments@ == old(self).fragments@.update(
                        old_index as int,
                        new_fragment,
                    )
                    &&& final(self).same_defaults(*old(self))
                    &&& final(self).caches_cleared()
                    &&& final(self).wf()
                },
                Err(e) => {
                    &&& old_index >= old(self).fragments@.len()
                    &&& *final(self) == *old(self)
                    &&& e == (TextError::FragmentOutOfRange {
                        index: old_index,
                        len: old(self).fragments@.len() as usize,
                    })
                },
            },
    {
        let len: usize = self.fragments.len();
        if old_index >= len {
            return Err(TextError::FragmentOutOfRange { index: old_index, len });
        }
        self.fragments.set(old_index, new_fragment);
        self.invalidate_caches();
        Ok(())
    }

    /// Sets the wrap bounds and clears the caches. An infinite horizontal
    /// bound makes wrapping meaningless, so it forces the layout back to the
    /// neutral default even when a layout is passed; with a finite bound a
    /// passed layout is adopted and a missing one leaves the current policy
    /// in place.
    pub fn set_bounds(&mut self, bounds: Point, layout: Option<TextLayout>)
        ensures
            final(self).bounds == bounds,
            bounds.x.spec_is_pos_infinity() ==> final(self).layout == TextLayout::spec_default(),
            !bounds.x.spec_is_pos_infinity() && layout is Some ==> final(self).layout == layout->0,
            !bounds.x.spec_is_pos_infinity() && layout is None ==> final(self).layout == old(
                self,
            ).layout,
            final(self).fragments@ == old(self).fragments@,
            final(self).font_id == old(self).font_id,
            final(self).font_scale == old(self).font_scale,
            final(self).blend_mode == old(self).blend_mode,
            final(self).caches_cleared(),
            final(self).wf(),
    {
        self.bounds = bounds;
        if self.bounds.x.is_pos_infinity() {
            self.layout = TextLayout::default_layout();
        } else {
            if let Some(layout) = layout {
                self.layout = layout;
            }
        }
        self.invalidate_caches();
    }

    /// Sets the aggregate's default font and scale and clears the caches.
    pub fn set_font(&mut self, font_id: FontId, font_scale: Scale)
        ensures
            final(self).font_id == font_id,
            final(self).font_scale == font_scale,
            final(self).fragments@ == old(self).fragments@,
            final(self).bounds == old(self).bounds,
            final(self).layout == old(self).layout,
            final(self).blend_mode == old(self).blend_mode,
            final(self).caches_cleared(),
            final(self).wf(),
    {
        self.font_id = font_id;
        self.font_scale = font_scale;
        self.invalidate_caches();
    }

    /// Clears all three cache fields together.
    fn invalidate_caches(&mut self)
        ensures
            final(self).fragments@ == old(self).fragments@,
            final(self).same_defaults(*old(self)),
            final(self).caches_cleared(),
            final(self).wf(),
    {
        self.cached_string = None;
        self.cached_width = None;
        self.cached_height = None;
    }

    /// Builds the layout request for this aggregate placed at
    /// `relative_dest`: one run per fragment with color resolved through the
    /// three-tier fallback (fragment, then `color_override`, then
    /// `default_color`), font and scale through the two-tier one, plus the
    /// bounds, the policy and the alignment shift.
    pub fn generate_section(
        &self,
        default_color: Color,
        relative_dest: Point,
        color_override: Option<Color>,
    ) -> (s: LayoutSection)
        ensures
            section_for(s, *self, default_color, relative_dest, color_override),
    {
        let mut runs: Vec<SectionRun> = Vec::new();
        let mut i: usize = 0;
        while i < self.fragments.len()
            invariant
                i <= self.fragments@.len(),
                runs@.len() == i,
                forall|j: int|
                    0 <= j < i ==> run_resolves(
                        #[trigger] runs@[j],
                        self.fragments@[j],
                        default_color,
                        color_override,
                        self.font_id,
                        self.font_scale,
                    ),
            decreases self.fragments@.len() - i,
        {
            let fragment = &self.fragments[i];
            let color = match fragment.color {
                Some(c) => c,
                None => match color_override {
                    Some(c) => c,
                    None => default_color,
                },
            };
            let font_id = match fragment.font_id {
                Some(f) => f,
                None => self.font_id,
            };
            let scale = match fragment.scale {
                Some(s) => s,
                None => self.font_scale,
            };
            runs.push(SectionRun { text: fragment.text.clone(), color, font_id, scale });
            i = i + 1;
        }
        let h_shift = if self.bounds.x.is_pos_infinity() {
            HorizontalShift::NoShift
        } else {
            match self.layout {
                TextLayout::Wrap { h_align, .. } => match h_align {
                    HorizontalAlign::Center => HorizontalShift::HalfBoundsX,
                    HorizontalAlign::Right => HorizontalShift::FullBoundsX,
                    HorizontalAlign::Left => HorizontalShift::NoShift,
                },
                TextLayout::SingleLine { .. } => HorizontalShift::NoShift,
            }
        };
        LayoutSection {
            screen_position: relative_dest,
            h_shift,
            bounds: self.bounds,
            layout: self.layout,
            runs,
        }
    }

    /// Walks the rasterizer's glyph boxes for this aggregate's current
    /// layout, caches both measured extents from the one pass, and returns
    /// them.
    pub fn calculate_dimensions(&mut self, glyph_bounds: &Vec<Option<PixelRect>>) -> (dims: (
        u32,
        u32,
    ))
        requires
            old(self).wf(),
        ensures
            dims.0 == spec_max_right(glyph_bounds@),
            dims.1 == spec_max_bottom(glyph_bounds@),
            final(self).cached_width == Some(dims.0),
            final(self).cached_height == Some(dims.1),
            final(self).cached_string == old(self).cached_string,
            final(self).fragments@ == old(self).fragments@,
            final(self).same_defaults(*old(self)),
            final(self).wf(),
    {
        let dims: (u32, u32) = glyph_extents(glyph_bounds);
        self.cached_width = Some(dims.0);
        self.cached_height = Some(dims.1);
        dims
    }

    /// The measured pixel width: the cached value when one is present, else
    /// the width measured from `glyph_bounds`, which must be the rasterizer's
    /// boxes for the current state. Either way both extents are cached
    /// afterwards.
    pub fn width(&mut self, glyph_bounds: &Vec<Option<PixelRect>>) -> (w: u32)
        requires
            old(self).wf(),
        ensures
            match old(self).cached_width {
                Some(cw) => w == cw && *final(self) == *old(self),
                None => {
                    &&& w == spec_max_right(glyph_bounds@)
                    &&& final(self).cached_height matches Some(h) && h == spec_max_bottom(
                        glyph_bounds@,
                    )
                },
            },
            final(self).cached_width == Some(w),
            final(self).cached_height is Some,
            final(self).cached_string == old(self).cached_string,
            final(self).fragments@ == old(self).fragments@,
            final(self).same_defaults(*old(self)),
            final(self).wf(),
    {
        match self.cached_width {
            Some(w) => w,
            None => self.calculate_dimensions(glyph_bounds).0,
        }
    }

    /// The measured pixel height: the cached value when one is present, else
    /// the height measured from `glyph_bounds`, which must be the
    /// rasterizer's boxes for the current state. Either way both extents are
    /// cached afterwards.
    pub fn height(&mut self, glyph_bounds: &Vec<Option<PixelRect>>) -> (h: u32)
        requires
            old(self).wf(),
        ensures
            match old(self).cached_height {
                Some(ch) => h == ch && *final(self) == *old(self),
                None => {
                    &&& h == spec_max_bottom(glyph_bounds@)
                    &&& final(self).cached_width matches Some(w) && w == spec_max_right(
                        glyph_bounds@,
                    )
                },
            },
            final(self).cached_height == Some(h),
            final(self).cached_width is Some,
            final(self).cached_string == old(self).cached_string,
            final(self).fragments@ == old(self).fragments@,
            final(self).same_defaults(*old(self)),
            final(self).wf(),
    {
        match self.cached_height {
            Some(h) => h,
            None => self.calculate_dimensions(glyph_bounds).1,
        }
    }

    /// The concatenation of all fragment texts in order, with no separators.
    /// Caches the result; the returned value is the caller's own copy.
    pub fn contents(&mut self) -> (s: String)
        requires
            old(self).wf(),
        ensures
            s@ == concat_texts(old(self).fragments@),
            final(self).fragments@ == old(self).fragments@,
            final(self).same_defaults(*old(self)),
            final(self).cached_width == old(self).cached_width,
            final(self).cached_height == old(self).cached_height,
            final(self).cached_string is Some,
            final(self).wf(),
    {
        match &self.cached_string {
            Some(s) => {
                return s.clone();
            },
            None => {},
        }
        let mut acc = String::new();
        let mut i: usize = 0;
        while i < self.fragments.len()
            invariant
                *self == *old(self),
                i <= self.fragments@.len(),
                acc@ == concat_texts(self.fragments@.take(i as int)),
            decreases self.fragments@.len() - i,
        {
            proof {
                lemma_concat_texts_take_step(self.fragments@, i as int);
            }
            acc.append(self.fragments[i].text.as_str());
            i = i + 1;
        }
        proof {
            assert(self.fragments@.take(self.fragments@.len() as int) =~= self.fragments@);
        }
        self.cached_string = Some(acc.clone());
        acc
    }

    /// Queues this aggregate for the next batched draw: builds its layout
    /// section at `relative_dest` and appends it to the shared queue. Does
    /// not draw, and disturbs nothing already queued.
    pub fn queue(
        &self,
        glyph_queue: &mut GlyphQueue,
        default_color: Color,
        relative_dest: Point,
        color: Option<Color>,
    )
        ensures
            final(glyph_queue).sections@.len() == old(glyph_queue).sections@.len() + 1,
            forall|i: int|
                0 <= i < old(glyph_queue).sections@.len() ==> final(glyph_queue).sections@[i]
                    == old(glyph_queue).sections@[i],
            section_for(
                final(glyph_queue).sections@.last(),
                *self,
                default_color,
                relative_dest,
                color,
            ),
    {
        let section = self.generate_section(default_color, relative_dest, color);
        glyph_queue.sections.push(section);
    }

    /// Drains the whole shared queue — everything every aggregate queued
    /// since the last flush, in queueing order — into one batch to be drawn
    /// with the single transform composed from `param`. `param`'s offset and
    /// color are ignored on this path; they are supplied per queueing call.
    pub fn draw_queued(glyph_queue: &mut GlyphQueue, param: DrawParam) -> (batch: DrawBatch)
        ensures
            final(glyph_queue).sections@.len() == 0,
            batch.sections@ == old(glyph_queue).sections@,
            batch.param == param,
    {
        let mut sections: Vec<LayoutSection> = Vec::new();
        core::mem::swap(&mut sections, &mut glyph_queue.sections);
        DrawBatch { sections, param }
    }

    /// The generic drawable entry point: queues this aggregate using
    /// `param`'s offset and color, then immediately drains the whole shared
    /// queue — including any other aggregate's unflushed sections — into one
    /// batch.
    pub fn draw_ex(&self, glyph_queue: &mut GlyphQueue, default_color: Color, param: DrawParam) -> (batch:
        DrawBatch)
        ensures
            final(glyph_queue).sections@.len() == 0,
            batch.param == param,
            batch.sections@.len() == old(glyph_queue).sections@.len() + 1,
            forall|i: int|
                0 <= i < old(glyph_queue).sections@.len() ==> batch.sections@[i] == old(
                    glyph_queue,
                ).sections@[i],
            section_for(batch.sections@.last(), *self, default_color, param.offset, param.color),
    {
        self.queue(glyph_queue, default_color, param.offset, param.color);
        TextCached::draw_queued(glyph_queue, param)
    }

    /// Stores the blend mode; nothing on the batched text path reads it, and
    /// it does not touch the caches.
    pub fn set_blend_mode(&mut self, mode: Option<BlendMode>)
        ensures
            final(self).blend_mode == mode,
            final(self).fragments@ == old(self).fragments@,
            final(self).bounds == old(self).bounds,
            final(self).layout == old(self).layout,
            final(self).font_id == old(self).font_id,
            final(self).font_scale == old(self).font_scale,
            final(self).cached_string == old(self).cached_string,
            final(self).cached_width == old(self).cached_width,
            final(self).cached_height == old(self).cached_height,
    {
        self.blend_mode = mode;
    }

    /// The stored blend mode.
    pub fn get_blend_mode(&self) -> (mode: Option<BlendMode>)
        ensures
            mode == self.blend_mode,
    {
        self.blend_mode
    }
}

impl Default for TextCached {
    /// Same as `new_empty`.
    fn default() -> (t: TextCached)
        ensures
            t.is_default(),
            t.wf(),
    {
        TextCached::new_empty()
    }
}

} // verus!
