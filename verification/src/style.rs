//! Style values: colors, font handles, font scales, layout policy, blend
//! modes, and per-draw parameters.
//!
//! Color channels, scale factors, rotation angles and shear factors are
//! renderer-side single-precision values; the library stores their exact bit
//! patterns (see `scalar`) and passes them through unchanged.

use vstd::prelude::*;

use crate::scalar::Point;
use crate::scalar::Rect;
use crate::scalar::Scalar;

verus! {

/// The bit pattern of `1.0`.
pub const ONE_BITS: u32 = 0x3F80_0000;

/// The bit pattern of `0.0`.
pub const ZERO_BITS: u32 = 0;

/// The bit pattern of `16.0`, the default font scale used when neither a
/// fragment nor the aggregate supplies one.
pub const DEFAULT_FONT_SCALE_BITS: u32 = 0x4180_0000;

/// An RGBA color, each channel carried as its single-precision bit pattern.
/// The layout logic only selects and forwards colors; it never reads the
/// channels.
#[derive(Clone, Copy, PartialEq, Eq, Structural, Debug)]
pub struct Color {
    pub r: Scalar,
    pub g: Scalar,
    pub b: Scalar,
    pub a: Scalar,
}

impl Color {
    pub fn new(r: Scalar, g: Scalar, b: Scalar, a: Scalar) -> (c: Color)
        ensures
            c == (Color { r, g, b, a }),
    {
        Color { r, g, b, a }
    }
}

/// A handle into the renderer's font registry.
#[derive(Clone, Copy, PartialEq, Eq, Structural, Debug)]
pub struct FontId(pub usize);

impl FontId {
    /// The registry's default font.
    pub fn default_font() -> (f: FontId)
        ensures
            f == FontId(0usize),
    {
        FontId(0)
    }
}

/// A font scale: horizontal and vertical magnification in pixels.
#[derive(Clone, Copy, PartialEq, Eq, Structural, Debug)]
pub struct Scale {
    pub x: Scalar,
    pub y: Scalar,
}

impl Scale {
    /// A uniform scale: the same factor on both axes.
    pub fn uniform(s: Scalar) -> (r: Scale)
        ensures
            r == (Scale { x: s, y: s }),
    {
        Scale { x: s, y: s }
    }

    /// The default scale, `16.0` on both axes.
    pub open spec fn spec_default() -> Scale {
        Scale {
            x: Scalar { bits: DEFAULT_FONT_SCALE_BITS },
            y: Scalar { bits: DEFAULT_FONT_SCALE_BITS },
        }
    }

    pub fn default_scale() -> (r: Scale)
        ensures
            r == Scale::spec_default(),
    {
        Scale::uniform(Scalar { bits: DEFAULT_FONT_SCALE_BITS })
    }
}

/// Horizontal alignment of lines within the wrap bounds.
#[derive(Clone, Copy, PartialEq, Eq, Structural, Debug)]
pub enum HorizontalAlign {
    Left,
    Center,
    Right,
}

/// Vertical alignment of the text block within the wrap bounds.
#[derive(Clone, Copy, PartialEq, Eq, Structural, Debug)]
pub enum VerticalAlign {
    Top,
    Center,
    Bottom,
}

/// The layout policy: whether lines wrap at the bounds, and how lines are
/// aligned within them.
#[derive(Clone, Copy, PartialEq, Eq, Structural, Debug)]
pub enum TextLayout {
    /// A single unwrapped line.
    SingleLine { h_align: HorizontalAlign, v_align: VerticalAlign },
    /// Lines wrapped at the horizontal bound.
    Wrap { h_align: HorizontalAlign, v_align: VerticalAlign },
}

impl TextLayout {
    /// The neutral policy adopted whenever wrapping is meaningless:
    /// wrap at the bound (which is infinite, so never), top-left aligned.
    pub open spec fn spec_default() -> TextLayout {
        TextLayout::Wrap { h_align: HorizontalAlign::Left, v_align: VerticalAlign::Top }
    }

    pub fn default_layout() -> (r: TextLayout)
        ensures
            r == TextLayout::spec_default(),
    {
        TextLayout::Wrap { h_align: HorizontalAlign::Left, v_align: VerticalAlign::Top }
    }
}

/// Blend modes a drawable can carry. Stored and returned unchanged; the
/// batched text path does not act on it.
#[derive(Clone, Copy, PartialEq, Eq, Structural, Debug)]
pub enum BlendMode {
    Add,
    Subtract,
    Alpha,
    Invert,
    Multiply,
    Replace,
    Lighten,
    Darken,
}

/// Parameters of one batched draw call. The whole accumulated glyph queue is
/// drawn with one transform composed from these. `src`, `offset` and `color`
/// are accepted on this path but only read by the generic drawable entry
/// point, which forwards `offset` and `color` to the queueing call.
#[derive(Clone, Copy, PartialEq, Eq, Structural, Debug)]
pub struct DrawParam {
    /// Sub-rectangle of the source image; ignored by the text path.
    pub src: Rect,
    /// Pixel destination of the batch origin.
    pub dest: Point,
    /// Rotation angle in radians.
    pub rotation: Scalar,
    /// Non-uniform scale factors.
    pub scale: Point,
    /// Offset; the generic drawable entry point uses it as the relative
    /// queueing destination.
    pub offset: Point,
    /// Shear factors.
    pub shear: Point,
    /// Color override; the generic drawable entry point forwards it to the
    /// queueing call.
    pub color: Option<Color>,
}

impl DrawParam {
    /// The neutral draw parameters: no offsets, no rotation, unit scale,
    /// no shear, no color override.
    pub open spec fn spec_default() -> DrawParam {
        DrawParam {
            src: Rect {
                x: Scalar { bits: ZERO_BITS },
                y: Scalar { bits: ZERO_BITS },
                w: Scalar { bits: ONE_BITS },
                h: Scalar { bits: ONE_BITS },
            },
            dest: Point { x: Scalar { bits: ZERO_BITS }, y: Scalar { bits: ZERO_BITS } },
            rotation: Scalar { bits: ZERO_BITS },
            scale: Point { x: Scalar { bits: ONE_BITS }, y: Scalar { bits: ONE_BITS } },
            offset: Point { x: Scalar { bits: ZERO_BITS }, y: Scalar { bits: ZERO_BITS } },
            shear: Point { x: Scalar { bits: ZERO_BITS }, y: Scalar { bits: ZERO_BITS } },
            color: None,
        }
    }
}

impl Default for DrawParam {
    fn default() -> (r: DrawParam)
        ensures
            r == DrawParam::spec_default(),
    {
        DrawParam {
            src: Rect {
                x: Scalar { bits: ZERO_BITS },
                y: Scalar { bits: ZERO_BITS },
                w: Scalar { bits: ONE_BITS },
                h: Scalar { bits: ONE_BITS },
            },
            dest: Point { x: Scalar { bits: ZERO_BITS }, y: Scalar { bits: ZERO_BITS } },
            rotation: Scalar { bits: ZERO_BITS },
            scale: Point { x: Scalar { bits: ONE_BITS }, y: Scalar { bits: ONE_BITS } },
            offset: Point { x: Scalar { bits: ZERO_BITS }, y: Scalar { bits: ZERO_BITS } },
            shear: Point { x: Scalar { bits: ZERO_BITS }, y: Scalar { bits: ZERO_BITS } },
            color: None,
        }
    }
}

impl From<(Point, Scalar)> for DrawParam {
    /// Draw parameters with just a destination and a rotation set.
    fn from(tuple: (Point, Scalar)) -> (r: DrawParam) {
        DrawParam { dest: tuple.0, rotation: tuple.1, ..Default::default() }
    }
}

impl vstd::std_specs::convert::FromSpecImpl<(Point, Scalar)> for DrawParam {
    open spec fn obeys_from_spec() -> bool {
        true
    }

    open spec fn from_spec(tuple: (Point, Scalar)) -> DrawParam {
        DrawParam { dest: tuple.0, rotation: tuple.1, ..DrawParam::spec_default() }
    }
}

} // verus!
