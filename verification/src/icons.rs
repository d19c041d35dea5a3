//! Status icon geometry: a 64×64 RGBA bitmap holding a filled circle with a
//! darker anti-aliased ring, on a transparent background.
//!
//! The shading of the circle (a radial gradient and a specular highlight)
//! is floating-point work done where the bitmap is drawn; which pixels are
//! inside the circle, on its ring or outside is decided here, exactly.

use vstd::prelude::*;

verus! {

/// Colour of a status icon.
#[derive(Clone, Copy, PartialEq, Eq, Debug, Structural)]
pub struct IconColor {
    pub r: u8,
    pub g: u8,
    pub b: u8,
}

impl IconColor {
    pub fn new(r: u8, g: u8, b: u8) -> (c: IconColor)
        ensures
            c == (IconColor { r, g, b }),
    {
        IconColor { r, g, b }
    }

    /// The red component.
    pub fn r(&self) -> (v: u8)
        ensures
            v == self.r,
    {
        self.r
    }

    /// The green component.
    pub fn g(&self) -> (v: u8)
        ensures
            v == self.g,
    {
        self.g
    }

    /// The blue component.
    pub fn b(&self) -> (v: u8)
        ensures
            v == self.b,
    {
        self.b
    }
}

impl IconColor {
    /// Connected.
    pub fn green() -> (c: IconColor)
        ensures
            c == (IconColor { r: 0x4C, g: 0xAF, b: 0x50 }),
    {
        IconColor { r: 0x4C, g: 0xAF, b: 0x50 }
    }

    /// Disabled.
    pub fn yellow() -> (c: IconColor)
        ensures
            c == (IconColor { r: 0xFF, g: 0xC1, b: 0x07 }),
    {
        IconColor { r: 0xFF, g: 0xC1, b: 0x07 }
    }

    /// Dropped.
    pub fn red() -> (c: IconColor)
        ensures
            c == (IconColor { r: 0xF4, g: 0x43, b: 0x36 }),
    {
        IconColor { r: 0xF4, g: 0x43, b: 0x36 }
    }

    /// Enabling.
    pub fn blue() -> (c: IconColor)
        ensures
            c == (IconColor { r: 0x21, g: 0x96, b: 0xF3 }),
    {
        IconColor { r: 0x21, g: 0x96, b: 0xF3 }
    }

    /// Server unreachable.
    pub fn gray() -> (c: IconColor)
        ensures
            c == (IconColor { r: 0x9E, g: 0x9E, b: 0x9E }),
    {
        IconColor { r: 0x9E, g: 0x9E, b: 0x9E }
    }
}

/// Width and height of a status icon, in pixels.
pub const ICON_SIZE: usize = 64;

/// Where a pixel lies relative to the circle.
#[derive(Clone, Copy, PartialEq, Eq, Debug, Structural)]
pub enum PixelRegion {
    /// Within radius 26 of the centre: filled with the shaded colour.
    Interior,
    /// Between radius 26 and 28: the darker, anti-aliased ring.
    Border,
    /// Further out: transparent.
    Outside,
}

/// Squared distance of pixel `(x, y)` from the centre (32, 32).
pub open spec fn dist2(x: int, y: int) -> int {
    (x - 32) * (x - 32) + (y - 32) * (y - 32)
}

/// The circle has radius 28 with a ring of width 2. The distance is
/// compared squared: for whole-pixel offsets the single-precision square
/// root of the squared distance is at most 26.0 (28.0) exactly when the
/// squared distance is at most 676 (784).
pub open spec fn region_spec(x: int, y: int) -> PixelRegion {
    if dist2(x, y) <= 676 {
        PixelRegion::Interior
    } else if dist2(x, y) <= 784 {
        PixelRegion::Border
    } else {
        PixelRegion::Outside
    }
}

pub fn pixel_region(x: usize, y: usize) -> (r: PixelRegion)
    requires
        x < ICON_SIZE,
        y < ICON_SIZE,
    ensures
        r == region_spec(x as int, y as int),
{
    let dx: i64 = x as i64 - 32;
    let dy: i64 = y as i64 - 32;
    assert(0 <= dx * dx <= 1024 && 0 <= dy * dy <= 1024) by (nonlinear_arith)
        requires
            -32 <= dx <= 31,
            -32 <= dy <= 31,
    ;
    let d2 = dx * dx + dy * dy;
    if d2 <= 676 {
        PixelRegion::Interior
    } else if d2 <= 784 {
        PixelRegion::Border
    } else {
        PixelRegion::Outside
    }
}

/// Offset of the red byte of pixel `(x, y)` in the row-major RGBA buffer.
pub fn pixel_offset(x: usize, y: usize) -> (i: usize)
    requires
        x < ICON_SIZE,
        y < ICON_SIZE,
    ensures
        i == (y * 64 + x) * 4,
        i + 3 < ICON_SIZE * ICON_SIZE * 4,
{
    assert(y * 64 + x < 4096) by (nonlinear_arith)
        requires
            x < 64,
            y < 64,
    ;
    (y * 64 + x) * 4
}

/// The four corners of the icon are outside the circle (transparent) and
/// the centre is inside it (opaque); the circle is symmetric about the
/// centre lines.
pub proof fn icon_shape()
    ensures
        region_spec(0, 0) == PixelRegion::Outside,
        region_spec(63, 0) == PixelRegion::Outside,
        region_spec(0, 63) == PixelRegion::Outside,
        region_spec(63, 63) == PixelRegion::Outside,
        region_spec(32, 32) == PixelRegion::Interior,
        forall|x: int, y: int| #[trigger] region_spec(x, y) == region_spec(64 - x, y),
        forall|x: int, y: int| #[trigger] region_spec(x, y) == region_spec(y, x),
{
    assert forall|x: int, y: int| #[trigger] region_spec(x, y) == region_spec(64 - x, y) by {
        assert((64 - x - 32) * (64 - x - 32) == (x - 32) * (x - 32)) by (nonlinear_arith);
    }
}

} // verus!
