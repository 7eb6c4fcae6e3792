//! Per-edge inset widths, used for margins, borders and padding.

use vstd::prelude::*;

use crate::utils::geometry::Point;
use crate::utils::geometry::Size;

verus! {

/// Four independent edge widths in pixels.
#[derive(Clone, Copy, Debug, PartialEq, Eq, Hash, Structural)]
pub struct EdgeInsets {
    pub top: u32,
    pub right: u32,
    pub bottom: u32,
    pub left: u32,
}

impl EdgeInsets {
    pub fn new(top: u32, right: u32, bottom: u32, left: u32) -> (e: EdgeInsets)
        ensures
            e == (EdgeInsets { top, right, bottom, left }),
    {
        EdgeInsets { top, bottom, left, right }
    }

    pub fn all(size: u32) -> (e: EdgeInsets)
        ensures
            e == (EdgeInsets { top: size, right: size, bottom: size, left: size }),
    {
        EdgeInsets { top: size, bottom: size, left: size, right: size }
    }

    pub fn symmetric(vertical: u32, horizontal: u32) -> (e: EdgeInsets)
        ensures
            e == (EdgeInsets {
                top: vertical,
                right: horizontal,
                bottom: vertical,
                left: horizontal,
            }),
    {
        EdgeInsets { top: vertical, bottom: vertical, left: horizontal, right: horizontal }
    }

    pub fn from_top(top: u32) -> (e: EdgeInsets)
        ensures
            e == (EdgeInsets { top, right: 0u32, bottom: 0u32, left: 0u32 }),
    {
        EdgeInsets { top, bottom: 0, left: 0, right: 0 }
    }

    pub fn from_bottom(bottom: u32) -> (e: EdgeInsets)
        ensures
            e == (EdgeInsets { top: 0u32, right: 0u32, bottom, left: 0u32 }),
    {
        EdgeInsets { top: 0, bottom, left: 0, right: 0 }
    }

    pub fn from_left(left: u32) -> (e: EdgeInsets)
        ensures
            e == (EdgeInsets { top: 0u32, right: 0u32, bottom: 0u32, left }),
    {
        EdgeInsets { top: 0, bottom: 0, left, right: 0 }
    }

    pub fn from_right(right: u32) -> (e: EdgeInsets)
        ensures
            e == (EdgeInsets { top: 0u32, right, bottom: 0u32, left: 0u32 }),
    {
        EdgeInsets { top: 0, bottom: 0, left: 0, right }
    }

    /// Vertical extent consumed: top plus bottom, saturating.
    pub open spec fn spec_height(self) -> u32 {
        self.top.saturating_add(self.bottom)
    }

    pub fn height(&self) -> (h: u32)
        ensures
            h == self.spec_height(),
    {
        self.top.saturating_add(self.bottom)
    }

    /// Horizontal extent consumed: left plus right, saturating.
    pub open spec fn spec_width(self) -> u32 {
        self.left.saturating_add(self.right)
    }

    pub fn width(&self) -> (w: u32)
        ensures
            w == self.spec_width(),
    {
        self.left.saturating_add(self.right)
    }

    /// The total extent consumed on both axes.
    pub open spec fn spec_size(self) -> Size {
        Size { width: self.spec_width(), height: self.spec_height() }
    }

    pub fn size(&self) -> (s: Size)
        ensures
            s == self.spec_size(),
    {
        Size::new(self.width(), self.height())
    }

    pub fn is_empty(&self) -> (b: bool)
        ensures
            b == (self.top == 0 && self.bottom == 0 && self.left == 0 && self.right == 0),
    {
        self.top == 0 && self.bottom == 0 && self.left == 0 && self.right == 0
    }

    /// Where content shifted by these insets begins, relative to their
    /// outer top-left corner.
    pub open spec fn spec_top_left_offset(self) -> Point {
        Point { x: self.left as i32, y: self.top as i32 }
    }

    pub fn top_left_offset(&self) -> (p: Point)
        ensures
            p == self.spec_top_left_offset(),
    {
        Point::new(self.left as i32, self.top as i32)
    }
}

} // verus!
