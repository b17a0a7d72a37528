//! Formatted-text layout and render batching.
//!
//! A caller composes multi-fragment styled text, lays it out within optional
//! wrap bounds, measures its pixel dimensions, and submits it into a shared
//! per-frame glyph queue that is drawn in one batched pass.

mod fragment;
mod measure;
mod queue;
mod scalar;
mod section;
mod style;
mod text;

pub use fragment::concat_texts;
pub use fragment::lemma_concat_texts_concat;
pub use fragment::lemma_concat_texts_push;
pub use fragment::TextFragment;
pub use measure::glyph_extents;
pub use measure::spec_max_bottom;
pub use measure::spec_max_right;
pub use measure::PixelRect;
pub use queue::DrawBatch;
pub use queue::GlyphQueue;
pub use scalar::Point;
pub use scalar::Rect;
pub use scalar::Scalar;
pub use scalar::INFINITY_BITS;
pub use section::resolve_color;
pub use section::resolve_font;
pub use section::resolve_scale;
pub use section::run_resolves;
pub use section::spec_h_shift;
pub use section::HorizontalShift;
pub use section::LayoutSection;
pub use section::SectionRun;
pub use style::BlendMode;
pub use style::Color;
pub use style::DrawParam;
pub use style::FontId;
pub use style::HorizontalAlign;
pub use style::Scale;
pub use style::TextLayout;
pub use style::VerticalAlign;
pub use style::DEFAULT_FONT_SCALE_BITS;
pub use style::ONE_BITS;
pub use style::ZERO_BITS;
pub use text::section_for;
pub use text::TextCached;
pub use text::TextError;
