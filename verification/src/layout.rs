//! 2D coordinates, pattern directions and mirroring transforms.
//!
//! A `Coordinate` is a fixed-point 2D position: each grid cell is divided
//! into `SUBCELL` subunits, so whole-cell positions are multiples of
//! `SUBCELL`. This keeps world positions exact under the linear movement
//! law while still allowing fractional placement.
use vstd::prelude::*;

verus! {

/// Number of fixed-point subunits that make up one grid cell.
pub const SUBCELL: i64 = 1_000_000;

/// Half of `SUBCELL`, used when rounding a fixed-point position to the
/// nearest whole cell.
pub const SUBCELL_HALF: i64 = 500_000;

/// A 2D position on the pixel grid, in fixed-point subunits.
///
/// `x` grows to the right and `y` grows downward. A value also serves as a
/// movement vector; a unit axis step is `SUBCELL` subunits long.
#[derive(Clone, Copy, Debug, PartialEq, Eq, Structural)]
pub struct Coordinate {
    /// Horizontal position (columns), in subunits.
    pub x: i64,
    /// Vertical position (rows), in subunits.
    pub y: i64,
}

impl Coordinate {
    /// Builds the coordinate that sits exactly on the given whole cell.
    pub fn from_cells(cx: i32, cy: i32) -> (c: Coordinate)
        ensures
            c.x == cx * SUBCELL,
            c.y == cy * SUBCELL,
    {
        Coordinate { x: (cx as i64) * SUBCELL, y: (cy as i64) * SUBCELL }
    }

    /// Component-wise scaling by an integer factor.
    pub fn times(self, factor: i64) -> (c: Coordinate)
        requires
            i64::MIN <= self.x * factor <= i64::MAX,
            i64::MIN <= self.y * factor <= i64::MAX,
        ensures
            c.x == self.x * factor,
            c.y == self.y * factor,
    {
        Coordinate { x: self.x * factor, y: self.y * factor }
    }

    /// Component-wise addition.
    pub fn plus(self, rhs: Coordinate) -> (c: Coordinate)
        requires
            i64::MIN <= self.x + rhs.x <= i64::MAX,
            i64::MIN <= self.y + rhs.y <= i64::MAX,
        ensures
            c.x == self.x + rhs.x,
            c.y == self.y + rhs.y,
    {
        Coordinate { x: self.x + rhs.x, y: self.y + rhs.y }
    }
}

impl Default for Coordinate {
    /// The origin.
    fn default() -> (c: Coordinate)
        ensures
            c.x == 0,
            c.y == 0,
    {
        Coordinate { x: 0, y: 0 }
    }
}

/// An axis together with a cell count or cell position.
///
/// As part of a color scheme the payload is a repeat count; handed to
/// `Pixel::move_pos` it is an absolute cell coordinate on that axis.
#[derive(Clone, Copy, Debug, PartialEq, Eq, Structural)]
pub enum Direction {
    /// Along the vertical (Y) axis.
    Vertical(u16),
    /// Along the horizontal (X) axis.
    Horizontal(u16),
}

/// A mirroring transform carrying the axis extent to mirror across.
#[derive(Clone, Copy, Debug, PartialEq, Eq, Structural)]
pub enum MirrorDirectionValue {
    /// Flip across the horizontal axis, replacing Y with `extent - y`.
    FlipHorizontal(u16),
    /// Flip across the vertical axis, replacing X with `extent - x`.
    FlipVertical(u16),
    /// Leave coordinates unchanged.
    NoMirror,
}

/// A mirroring transform whose extent is supplied later, from the bounding
/// dimensions of the frame being drawn.
#[derive(Clone, Copy, Debug, PartialEq, Eq, Structural)]
pub enum MirrorDirection {
    /// Flip across the horizontal axis.
    FlipHorizontal,
    /// Flip across the vertical axis.
    FlipVertical,
    /// Leave coordinates unchanged.
    NoMirror,
}

} // verus!
