//! Integer device-space geometry: sizes and axis-aligned rectangles.
//!
//! The rasterizer in this crate works in whole device pixels; every
//! rectangle is clamped to the surface it is applied to, so no geometric
//! argument is ever rejected.

use vstd::prelude::*;

verus! {

/// Pixel dimensions of a raster surface.
#[derive(Clone, Copy, PartialEq, Eq, Structural, Debug)]
pub struct Size {
    pub width: u32,
    pub height: u32,
}

impl Size {
    /// Number of pixels a surface of this size holds.
    pub open spec fn area(self) -> int {
        self.width * self.height
    }
}

/// An axis-aligned rectangle in device pixels.
#[derive(Clone, Copy, PartialEq, Eq, Structural, Debug)]
pub struct Rect {
    pub x: u32,
    pub y: u32,
    pub w: u32,
    pub h: u32,
}

impl Rect {
    /// Leftmost column of this rectangle on a surface `width` pixels wide.
    pub open spec fn x0(self, width: u32) -> int {
        vstd::math::min(self.x as int, width as int)
    }

    /// One past the rightmost column, clamped to the surface.
    pub open spec fn x1(self, width: u32) -> int {
        vstd::math::min(self.x + self.w, width as int)
    }

    /// Topmost row of this rectangle on a surface `height` pixels tall.
    pub open spec fn y0(self, height: u32) -> int {
        vstd::math::min(self.y as int, height as int)
    }

    /// One past the bottommost row, clamped to the surface.
    pub open spec fn y1(self, height: u32) -> int {
        vstd::math::min(self.y + self.h, height as int)
    }

    /// Does the pixel at column `x`, row `y` of a `width` by `height`
    /// surface lie inside this rectangle once the rectangle is clamped
    /// to that surface?
    pub open spec fn covers(self, width: u32, height: u32, x: int, y: int) -> bool {
        &&& self.x0(width) <= x < self.x1(width)
        &&& self.y0(height) <= y < self.y1(height)
    }
}

/// The smaller of two 64-bit values.
pub fn min_u64(a: u64, b: u64) -> (r: u64)
    ensures
        r == vstd::math::min(a as int, b as int),
{
    if a < b {
        a
    } else {
        b
    }
}

} // verus!
