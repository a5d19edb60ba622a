//! Plain value types shared by the whole harness: positions, extents and colours.
//!
//! Lengths are signed or unsigned integers in thousandths of a world unit.
//! Colour channels are integers in thousandths, from 0 to 1000.

use vstd::prelude::*;

verus! {

/// Thousandths per whole: the resolution of lengths and of colour channels.
pub const MILLI: u64 = 1000;

/// A point of the simulated world. Planar engines leave `z` at zero.
#[derive(Clone, Copy, Debug, PartialEq, Eq, Structural)]
pub struct Vec3 {
    pub x: i64,
    pub y: i64,
    pub z: i64,
}

impl Vec3 {
    /// The point with the given coordinates.
    pub fn new(x: i64, y: i64, z: i64) -> (point: Vec3)
        ensures
            point == (Vec3 { x, y, z }),
    {
        Vec3 { x, y, z }
    }
}

/// Full extents of a box along the three axes. Planar engines ignore `depth`.
#[derive(Clone, Copy, Debug, PartialEq, Eq, Structural)]
pub struct Size3 {
    pub width: u64,
    pub height: u64,
    pub depth: u64,
}

impl Size3 {
    /// The extents with the given width, height and depth.
    pub fn new(width: u64, height: u64, depth: u64) -> (size: Size3)
        ensures
            size == (Size3 { width, height, depth }),
    {
        Size3 { width, height, depth }
    }
}

/// A colour with an opacity, each channel in thousandths.
#[derive(Clone, Copy, Debug, PartialEq, Eq, Structural)]
pub struct Color {
    pub red: u16,
    pub green: u16,
    pub blue: u16,
    pub alpha: u16,
}

/// The channel value that stands for full intensity or full opacity.
pub const CHANNEL_FULL: u16 = 1000;

impl Color {
    /// Whether anything shows through the colour: its opacity is below full.
    pub open spec fn spec_is_translucent(self) -> bool {
        self.alpha < CHANNEL_FULL
    }

    /// An opaque colour.
    pub fn srgb(red: u16, green: u16, blue: u16) -> (color: Color)
        ensures
            color == (Color { red, green, blue, alpha: CHANNEL_FULL }),
            !color.spec_is_translucent(),
    {
        Color { red, green, blue, alpha: CHANNEL_FULL }
    }

    /// A colour with the given opacity.
    pub fn srgba(red: u16, green: u16, blue: u16, alpha: u16) -> (color: Color)
        ensures
            color == (Color { red, green, blue, alpha }),
    {
        Color { red, green, blue, alpha }
    }

    /// True when the opacity is strictly below full.
    pub fn is_translucent(self) -> (translucent: bool)
        ensures
            translucent == self.spec_is_translucent(),
    {
        self.alpha < CHANNEL_FULL
    }
}

} // verus!
