//! Pixel-space scalars and points.
//!
//! Coordinates, font scales and color channels are single-precision values
//! on the renderer side. The layout logic never does arithmetic on them: the
//! one numeric decision it makes is "is this bound `+infinity`?". So the
//! library carries each such value as its IEEE-754 bit pattern, an exact
//! plain integer, and the renderer converts to and from its own float type
//! at the boundary. `+infinity` has exactly one bit pattern, so the test is
//! exact equality on bits.

use vstd::prelude::*;

verus! {

/// The IEEE-754 single-precision bit pattern of `+infinity`.
pub const INFINITY_BITS: u32 = 0x7F80_0000;

/// A single-precision pixel-space value, carried as its bit pattern.
#[derive(Clone, Copy, PartialEq, Eq, Structural, Debug)]
pub struct Scalar {
    /// The IEEE-754 single-precision bit pattern of the value.
    pub bits: u32,
}

impl Scalar {
    /// True exactly when the value is `+infinity`.
    pub open spec fn spec_is_pos_infinity(self) -> bool {
        self.bits == INFINITY_BITS
    }

    /// The scalar `+infinity`.
    pub fn pos_infinity() -> (r: Scalar)
        ensures
            r.spec_is_pos_infinity(),
    {
        Scalar { bits: INFINITY_BITS }
    }

    /// Wraps a bit pattern.
    pub fn from_bits(bits: u32) -> (r: Scalar)
        ensures
            r.bits == bits,
    {
        Scalar { bits }
    }

    /// True exactly when the value is `+infinity`.
    pub fn is_pos_infinity(&self) -> (r: bool)
        ensures
            r == self.spec_is_pos_infinity(),
    {
        self.bits == INFINITY_BITS
    }
}

/// An axis-aligned rectangle in pixel space.
#[derive(Clone, Copy, PartialEq, Eq, Structural, Debug)]
pub struct Rect {
    pub x: Scalar,
    pub y: Scalar,
    pub w: Scalar,
    pub h: Scalar,
}

/// A point or extent in pixel space.
#[derive(Clone, Copy, PartialEq, Eq, Structural, Debug)]
pub struct Point {
    pub x: Scalar,
    pub y: Scalar,
}

impl Point {
    pub fn new(x: Scalar, y: Scalar) -> (r: Point)
        ensures
            r.x == x,
            r.y == y,
    {
        Point { x, y }
    }

    /// The point `(+infinity, +infinity)`, the "no wrapping" extent.
    pub fn unbounded() -> (r: Point)
        ensures
            r.x.spec_is_pos_infinity(),
            r.y.spec_is_pos_infinity(),
    {
        Point { x: Scalar::pos_infinity(), y: Scalar::pos_infinity() }
    }
}

} // verus!
