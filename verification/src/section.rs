//! Layout sections: the ephemeral, fully-resolved request handed to the
//! glyph rasterizer for one aggregate.
//!
//! A section is built fresh on every queue or measure call and never stored.
//! Each fragment becomes one style-resolved run; the section also carries the
//! wrap bounds, the layout policy, and the screen position together with the
//! horizontal shift that converts the "destination is the left edge"
//! convention into the rasterizer's alignment-native origin.

use vstd::prelude::*;

use crate::fragment::TextFragment;
use crate::scalar::Point;
use crate::style::Color;
use crate::style::FontId;
use crate::style::HorizontalAlign;
use crate::style::Scale;
use crate::style::TextLayout;

verus! {

/// One style-resolved run of text within a section.
#[derive(Clone, Debug)]
pub struct SectionRun {
    pub text: String,
    pub color: Color,
    pub font_id: FontId,
    pub scale: Scale,
}

/// The horizontal shift the renderer adds to the section's x-position before
/// rasterizing: nothing, half the horizontal bound, or the whole bound. With
/// an alignment-aware wrap policy the rasterizer expects the origin at the
/// alignment axis, not at the left edge.
#[derive(Clone, Copy, PartialEq, Eq, Structural, Debug)]
pub enum HorizontalShift {
    NoShift,
    HalfBoundsX,
    FullBoundsX,
}

/// A fully-resolved layout request: where to place the text, within which
/// bounds, under which layout policy, and the ordered style-resolved runs.
#[derive(Clone, Debug)]
pub struct LayoutSection {
    /// The caller-supplied destination, unshifted.
    pub screen_position: Point,
    /// The alignment shift to add to `screen_position.x`.
    pub h_shift: HorizontalShift,
    /// The wrap bounds.
    pub bounds: Point,
    /// The layout policy.
    pub layout: TextLayout,
    /// One run per fragment, in fragment order.
    pub runs: Vec<SectionRun>,
}

/// Three-tier color fallback: the fragment's own color if set, else the
/// caller's override, else the context default. First present wins.
pub open spec fn resolve_color(
    fragment_color: Option<Color>,
    override_color: Option<Color>,
    default_color: Color,
) -> Color {
    match fragment_color {
        Some(c) => c,
        None => match override_color {
            Some(c) => c,
            None => default_color,
        },
    }
}

/// The fragment's own font if set, else the aggregate default.
pub open spec fn resolve_font(fragment_font: Option<FontId>, default_font: FontId) -> FontId {
    match fragment_font {
        Some(f) => f,
        None => default_font,
    }
}

/// The fragment's own scale if set, else the aggregate default.
pub open spec fn resolve_scale(fragment_scale: Option<Scale>, default_scale: Scale) -> Scale {
    match fragment_scale {
        Some(s) => s,
        None => default_scale,
    }
}

/// The horizontal alignment shift: only a wrap policy within finite
/// horizontal bounds shifts the origin, by half the bound for centered text
/// and by the whole bound for right-aligned text.
pub open spec fn spec_h_shift(bounds: Point, layout: TextLayout) -> HorizontalShift {
    if bounds.x.spec_is_pos_infinity() {
        HorizontalShift::NoShift
    } else {
        match layout {
            TextLayout::Wrap { h_align, .. } => match h_align {
                HorizontalAlign::Center => HorizontalShift::HalfBoundsX,
                HorizontalAlign::Right => HorizontalShift::FullBoundsX,
                HorizontalAlign::Left => HorizontalShift::NoShift,
            },
            TextLayout::SingleLine { .. } => HorizontalShift::NoShift,
        }
    }
}

/// The run carries the fragment's text and its fully-resolved style.
pub open spec fn run_resolves(
    run: SectionRun,
    fragment: TextFragment,
    default_color: Color,
    override_color: Option<Color>,
    default_font: FontId,
    default_scale: Scale,
) -> bool {
    &&& run.text@ == fragment.text@
    &&& run.color == resolve_color(fragment.color, override_color, default_color)
    &&& run.font_id == resolve_font(fragment.font_id, default_font)
    &&& run.scale == resolve_scale(fragment.scale, default_scale)
}

} // verus!
