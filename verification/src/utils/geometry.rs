//! Plain 2D geometry values: sizes, points, rectangles and RGB colors.

use vstd::prelude::*;

verus! {

/// A non-negative 2D extent in pixels.
#[derive(Clone, Copy, Debug, PartialEq, Eq, Structural)]
pub struct Size {
    pub width: u32,
    pub height: u32,
}

impl Size {
    pub fn new(width: u32, height: u32) -> (s: Size)
        ensures
            s == (Size { width, height }),
    {
        Size { width, height }
    }

    pub fn zero() -> (s: Size)
        ensures
            s == (Size { width: 0u32, height: 0u32 }),
    {
        Size { width: 0, height: 0 }
    }

    /// Component-wise addition, saturating at the numeric limit.
    pub open spec fn spec_saturating_add(self, other: Size) -> Size {
        Size {
            width: self.width.saturating_add(other.width),
            height: self.height.saturating_add(other.height),
        }
    }

    pub fn saturating_add(self, other: Size) -> (s: Size)
        ensures
            s == self.spec_saturating_add(other),
    {
        Size {
            width: self.width.saturating_add(other.width),
            height: self.height.saturating_add(other.height),
        }
    }

    /// Component-wise subtraction, saturating at zero.
    pub open spec fn spec_saturating_sub(self, other: Size) -> Size {
        Size {
            width: self.width.saturating_sub(other.width),
            height: self.height.saturating_sub(other.height),
        }
    }

    pub fn saturating_sub(self, other: Size) -> (s: Size)
        ensures
            s == self.spec_saturating_sub(other),
    {
        Size {
            width: self.width.saturating_sub(other.width),
            height: self.height.saturating_sub(other.height),
        }
    }
}

/// A position in pixels, relative to some origin.
#[derive(Clone, Copy, Debug, PartialEq, Eq, Structural)]
pub struct Point {
    pub x: i32,
    pub y: i32,
}

impl Point {
    pub fn new(x: i32, y: i32) -> (p: Point)
        ensures
            p == (Point { x, y }),
    {
        Point { x, y }
    }

    pub fn zero() -> (p: Point)
        ensures
            p == (Point { x: 0i32, y: 0i32 }),
    {
        Point { x: 0, y: 0 }
    }

    /// Component-wise addition with two's-complement wraparound.
    pub open spec fn spec_wrapping_add(self, other: Point) -> Point {
        Point { x: self.x.wrapping_add(other.x), y: self.y.wrapping_add(other.y) }
    }

    pub fn wrapping_add(self, other: Point) -> (p: Point)
        ensures
            p == self.spec_wrapping_add(other),
    {
        Point { x: self.x.wrapping_add(other.x), y: self.y.wrapping_add(other.y) }
    }
}

/// An axis-aligned rectangle: a top-left corner and an extent.
#[derive(Clone, Copy, Debug, PartialEq, Eq, Structural)]
pub struct Rectangle {
    pub top_left: Point,
    pub size: Size,
}

impl Rectangle {
    pub fn new(top_left: Point, size: Size) -> (r: Rectangle)
        ensures
            r == (Rectangle { top_left, size }),
    {
        Rectangle { top_left, size }
    }
}

/// A 24-bit RGB color.
#[derive(Clone, Copy, Debug, PartialEq, Eq, Structural)]
pub struct Rgb {
    pub r: u8,
    pub g: u8,
    pub b: u8,
}

impl Rgb {
    pub fn new(r: u8, g: u8, b: u8) -> (c: Rgb)
        ensures
            c == (Rgb { r, g, b }),
    {
        Rgb { r, g, b }
    }

    pub fn white() -> (c: Rgb)
        ensures
            c == (Rgb { r: 255u8, g: 255u8, b: 255u8 }),
    {
        Rgb { r: 255, g: 255, b: 255 }
    }

    pub fn black() -> (c: Rgb)
        ensures
            c == (Rgb { r: 0u8, g: 0u8, b: 0u8 }),
    {
        Rgb { r: 0, g: 0, b: 0 }
    }
}

} // verus!
