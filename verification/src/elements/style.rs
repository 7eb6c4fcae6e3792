//! The margin/border/background/padding decorator element.

use std::rc::Rc;

use vstd::prelude::*;

use crate::defs::Element;
use crate::defs::ElementKind;
use crate::utils::edge_insets::EdgeInsets;
use crate::utils::geometry::Point;
use crate::utils::geometry::Rgb;
use crate::utils::geometry::Size;

verus! {

/// A border's color and per-edge widths.
#[derive(Clone, Copy, Debug, PartialEq, Eq, Structural)]
pub struct BorderDefinition {
    pub color: Rgb,
    pub size: EdgeInsets,
}

impl BorderDefinition {
    pub fn new(color: Rgb, size: EdgeInsets) -> (b: BorderDefinition)
        ensures
            b == (BorderDefinition { color, size }),
    {
        BorderDefinition { color, size }
    }

    /// No border: zero width on every edge.
    pub fn none() -> (b: BorderDefinition)
        ensures
            b == (BorderDefinition {
                color: (Rgb { r: 0u8, g: 0u8, b: 0u8 }),
                size: (EdgeInsets { top: 0u32, right: 0u32, bottom: 0u32, left: 0u32 }),
            }),
    {
        BorderDefinition { color: Rgb::black(), size: EdgeInsets::all(0) }
    }
}

/// A pure value description of a style: background color, margin, border
/// and padding. Never mutated after construction.
#[derive(Clone, Copy, Debug, PartialEq, Eq, Structural)]
pub struct StyleDefinition {
    pub background: Option<Rgb>,
    pub margin: EdgeInsets,
    pub border: BorderDefinition,
    pub padding: EdgeInsets,
}

impl StyleDefinition {
    /// The extent the decorations add around the child on both axes.
    pub open spec fn spec_added_size(self) -> Size {
        self.margin.spec_size().spec_saturating_add(
            self.border.size.spec_size(),
        ).spec_saturating_add(self.padding.spec_size())
    }

    /// Where the child begins, relative to the decorated area's corner.
    pub open spec fn spec_child_offset(self) -> Point {
        self.margin.spec_top_left_offset().spec_wrapping_add(
            self.border.size.spec_top_left_offset(),
        ).spec_wrapping_add(self.padding.spec_top_left_offset())
    }

    /// Where the background rectangle begins: inset by margin and border
    /// only, so padding stays inside the background.
    pub open spec fn spec_background_offset(self) -> Point {
        self.margin.spec_top_left_offset().spec_wrapping_add(
            self.border.size.spec_top_left_offset(),
        )
    }

    /// The background rectangle's extent for a decorated area of `size`.
    pub open spec fn spec_background_size(self, size: Size) -> Size {
        size.spec_saturating_sub(self.margin.spec_size()).spec_saturating_sub(
            self.border.size.spec_size(),
        )
    }

    /// Where the border area begins: inset by the margin.
    pub open spec fn spec_border_offset(self) -> Point {
        self.margin.spec_top_left_offset()
    }

    /// The border area's extent for a decorated area of `size`.
    pub open spec fn spec_border_size(self, size: Size) -> Size {
        size.spec_saturating_sub(self.margin.spec_size())
    }
}


/// A decorator element: reserves space for margin, border and padding
/// around a single child and paints background and border rectangles.
#[derive(PartialEq)]
pub struct Style {
    pub style: StyleDefinition,
    pub child: Element,
}

impl Style {
    pub fn new(
        background: Option<Rgb>,
        margin: EdgeInsets,
        border: BorderDefinition,
        padding: EdgeInsets,
        child: Element,
    ) -> (e: Element)
        ensures
            e == ElementKind::Style(
                Style { style: (StyleDefinition { background, margin, border, padding }), child },
            ),
    {
        Rc::new(
            ElementKind::Style(
                Style { style: StyleDefinition { background, margin, border, padding }, child },
            ),
        )
    }

    pub fn new_with_style(style: StyleDefinition, child: Element) -> (e: Element)
        ensures
            e == ElementKind::Style(Style { style, child }),
    {
        Rc::new(ElementKind::Style(Style { style, child }))
    }

    pub fn new_with_background(background: Rgb, child: Element) -> (e: Element)
        ensures
            e == ElementKind::Style(
                Style {
                    style: (StyleDefinition {
                        background: Some(background),
                        margin: (EdgeInsets { top: 0u32, right: 0u32, bottom: 0u32, left: 0u32 }),
                        border: (BorderDefinition {
                            color: (Rgb { r: 0u8, g: 0u8, b: 0u8 }),
                            size: (EdgeInsets {
                                top: 0u32,
                                right: 0u32,
                                bottom: 0u32,
                                left: 0u32,
                            }),
                        }),
                        padding: (EdgeInsets { top: 0u32, right: 0u32, bottom: 0u32, left: 0u32 }),
                    }),
                    child,
                },
            ),
    {
        Rc::new(
            ElementKind::Style(
                Style {
                    style: StyleDefinition {
                        background: Some(background),
                        margin: EdgeInsets::all(0),
                        border: BorderDefinition::none(),
                        padding: EdgeInsets::all(0),
                    },
                    child,
                },
            ),
        )
    }

    /// The extent the decorations add around the child on both axes.
    pub fn added_size(&self) -> (s: Size)
        ensures
            s == self.style.spec_added_size(),
    {
        self.style.margin.size().saturating_add(self.style.border.size.size()).saturating_add(
            self.style.padding.size(),
        )
    }

    /// Where the child begins, relative to the decorated area's corner.
    pub fn child_offset(&self) -> (p: Point)
        ensures
            p == self.style.spec_child_offset(),
    {
        self.style.margin.top_left_offset().wrapping_add(
            self.style.border.size.top_left_offset(),
        ).wrapping_add(self.style.padding.top_left_offset())
    }

    /// Where the background rectangle begins.
    pub fn background_offset(&self) -> (p: Point)
        ensures
            p == self.style.spec_background_offset(),
    {
        self.style.margin.top_left_offset().wrapping_add(self.style.border.size.top_left_offset())
    }

    /// The background rectangle's extent for a decorated area of `size`.
    pub fn background_size(&self, size: Size) -> (s: Size)
        ensures
            s == self.style.spec_background_size(size),
    {
        size.saturating_sub(self.style.margin.size()).saturating_sub(self.style.border.size.size())
    }

    /// Where the border area begins: inset by the margin.
    pub fn border_offset(&self) -> (p: Point)
        ensures
            p == self.style.spec_border_offset(),
    {
        self.style.margin.top_left_offset()
    }

    /// The border area's extent for a decorated area of `size`.
    pub fn border_size(&self, size: Size) -> (s: Size)
        ensures
            s == self.style.spec_border_size(size),
    {
        size.saturating_sub(self.style.margin.size())
    }
}

} // verus!
