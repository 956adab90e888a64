//! Plain value types shared by the drawing code.
use vstd::prelude::*;

verus! {

/// A color in 16-bit RGB565 encoding (5 bits red, 6 green, 5 blue).
#[derive(Clone, Copy, PartialEq, Eq, Structural, Debug)]
pub struct Color {
    pub raw: u16,
}

impl Color {
    pub fn new(raw: u16) -> (c: Color)
        ensures
            c.raw == raw,
    {
        Color { raw }
    }

    pub fn black() -> (c: Color)
        ensures
            c.raw == 0x0000,
    {
        Color { raw: 0x0000 }
    }

    pub fn white() -> (c: Color)
        ensures
            c.raw == 0xffff,
    {
        Color { raw: 0xffff }
    }

    pub fn blue() -> (c: Color)
        ensures
            c.raw == 0x001f,
    {
        Color { raw: 0x001f }
    }
}

/// A position in pixels; `y` grows downwards.
#[derive(Clone, Copy, PartialEq, Eq, Structural, Debug)]
pub struct Point {
    pub x: i32,
    pub y: i32,
}

impl Point {
    pub fn new(x: i32, y: i32) -> (p: Point)
        ensures
            p.x == x,
            p.y == y,
    {
        Point { x, y }
    }
}

/// A width and a height in pixels.
#[derive(Clone, Copy, PartialEq, Eq, Structural, Debug)]
pub struct Size {
    pub width: u32,
    pub height: u32,
}

impl Size {
    pub fn new(width: u32, height: u32) -> (s: Size)
        ensures
            s.width == width,
            s.height == height,
    {
        Size { width, height }
    }
}

/// An axis-aligned rectangle: `size.width` columns from `top_left.x` and
/// `size.height` rows from `top_left.y`.
#[derive(Clone, Copy, PartialEq, Eq, Structural, Debug)]
pub struct Rect {
    pub top_left: Point,
    pub size: Size,
}

impl Rect {
    pub fn new(top_left: Point, size: Size) -> (r: Rect)
        ensures
            r.top_left == top_left,
            r.size == size,
    {
        Rect { top_left, size }
    }

    /// Whether the point `(x, y)` lies in the rectangle.
    pub open spec fn contains(self, x: int, y: int) -> bool {
        &&& self.top_left.x <= x < self.top_left.x + self.size.width
        &&& self.top_left.y <= y < self.top_left.y + self.size.height
    }

    /// Position of `(x, y)` in the row-major order of the rectangle's pixels.
    pub open spec fn rank(self, x: int, y: int) -> int {
        (y - self.top_left.y) * self.size.width + (x - self.top_left.x)
    }
}

/// One pixel to draw: a position and its color.
#[derive(Clone, Copy, PartialEq, Eq, Structural, Debug)]
pub struct Pixel {
    pub point: Point,
    pub color: Color,
}

impl Pixel {
    pub fn new(point: Point, color: Color) -> (p: Pixel)
        ensures
            p.point == point,
            p.color == color,
    {
        Pixel { point, color }
    }
}

} // verus!
