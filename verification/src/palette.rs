//! Colors and the schemes that expand a logical pixel into colored cells.
use vstd::prelude::*;

use crate::layout::Direction;

verus! {

/// A color value, either opaque RGB or RGBA with an explicit alpha channel.
#[derive(Clone, Copy, Debug, PartialEq, Eq, Structural)]
pub enum Color {
    RGB(u8, u8, u8),
    RGBA(u8, u8, u8, u8),
}

/// How a logical pixel expands into one or more colored cells.
#[derive(Clone, Copy, Debug, PartialEq, Eq, Structural)]
pub enum ColorScheme {
    /// A single cell of a single color.
    Standard(Color),
    /// Two colors alternating along an axis, starting with the first.
    CheckPattern(CheckPattern),
    /// One color repeated along an axis.
    Stroke(Stroke),
}

/// A checkered pattern of two alternating colors over a directional range.
#[derive(Clone, Copy, Debug, PartialEq, Eq, Structural)]
pub struct CheckPattern {
    /// The color at even offsets, always first.
    pub a: Color,
    /// The color at odd offsets.
    pub b: Color,
    /// The axis and the number of cells to generate along it.
    pub range: Direction,
}

impl CheckPattern {
    /// Creates a new `CheckPattern` with two alternating colors over the given range.
    pub fn new(a: Color, b: Color, range: Direction) -> (p: CheckPattern)
        ensures
            p.a == a,
            p.b == b,
            p.range == range,
    {
        CheckPattern { a, b, range }
    }
}

/// A solid-colored stroke rendered across a directional range.
#[derive(Clone, Copy, Debug, PartialEq, Eq, Structural)]
pub struct Stroke {
    /// The color used for every cell of the stroke.
    pub color: Color,
    /// The axis and the number of cells to generate along it.
    pub range: Direction,
}

impl Stroke {
    /// Creates a new `Stroke` with the specified color and direction.
    pub fn new(color: Color, range: Direction) -> (s: Stroke)
        ensures
            s.color == color,
            s.range == range,
    {
        Stroke { color, range }
    }
}

} // verus!
