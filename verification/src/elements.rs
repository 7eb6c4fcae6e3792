//! Built-in element constructors and styling helpers.

use vstd::prelude::*;

use crate::defs::Element;
use crate::defs::ElementKind;
use crate::utils::edge_insets::EdgeInsets;
use crate::utils::geometry::Rgb;

pub mod align;
pub mod border;
pub mod component;
pub mod handler;
pub mod padding;
pub mod style;

pub use align::Align;
pub use border::Border;
pub use padding::Padding;
pub use align::Alignment;
pub use align::Alignment2D;
pub use component::Component;
pub use handler::Handler;
pub use style::BorderDefinition;
pub use style::Style;
pub use style::StyleDefinition;

verus! {

/// A style that draws only the given border around its child.
pub fn border(definition: BorderDefinition, child: Element) -> (e: Element)
    ensures
        e == ElementKind::Style(
            Style {
                style: StyleDefinition {
                    background: None,
                    margin: (EdgeInsets { top: 0u32, right: 0u32, bottom: 0u32, left: 0u32 }),
                    border: definition,
                    padding: (EdgeInsets { top: 0u32, right: 0u32, bottom: 0u32, left: 0u32 }),
                },
                child: child,
            },
        ),
{
    Style::new(None, EdgeInsets::all(0), definition, EdgeInsets::all(0), child)
}

/// A style that only reserves the given padding around its child.
pub fn padding(insets: EdgeInsets, child: Element) -> (e: Element)
    ensures
        e == ElementKind::Style(
            Style {
                style: StyleDefinition {
                    background: None,
                    margin: (EdgeInsets { top: 0u32, right: 0u32, bottom: 0u32, left: 0u32 }),
                    border: (BorderDefinition {
                        color: (Rgb { r: 0u8, g: 0u8, b: 0u8 }),
                        size: (EdgeInsets { top: 0u32, right: 0u32, bottom: 0u32, left: 0u32 }),
                    }),
                    padding: insets,
                },
                child: child,
            },
        ),
{
    Style::new(None, EdgeInsets::all(0), BorderDefinition::none(), insets, child)
}

/// A style that only fills its area with the given background color.
pub fn background(color: Rgb, child: Element) -> (e: Element)
    ensures
        e == ElementKind::Style(
            Style {
                style: StyleDefinition {
                    background: Some(color),
                    margin: (EdgeInsets { top: 0u32, right: 0u32, bottom: 0u32, left: 0u32 }),
                    border: (BorderDefinition {
                        color: (Rgb { r: 0u8, g: 0u8, b: 0u8 }),
                        size: (EdgeInsets { top: 0u32, right: 0u32, bottom: 0u32, left: 0u32 }),
                    }),
                    padding: (EdgeInsets { top: 0u32, right: 0u32, bottom: 0u32, left: 0u32 }),
                },
                child: child,
            },
        ),
{
    Style::new(Some(color), EdgeInsets::all(0), BorderDefinition::none(), EdgeInsets::all(0), child)
}

/// An alignment wrapper that centers its child on both axes.
pub fn center(child: Element) -> (e: Element)
    ensures
        e == ElementKind::Align(
            Align {
                alignment: (Alignment2D {
                    horizontal: Alignment::Center,
                    vertical: Alignment::Center,
                }),
                child: child,
            },
        ),
{
    Align::new(
        Alignment2D { horizontal: Alignment::Center, vertical: Alignment::Center },
        child,
    )
}

} // verus!
