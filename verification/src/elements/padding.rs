//! A style wrapper that only reserves padding.

use vstd::prelude::*;

use crate::defs::Element;
use crate::defs::ElementKind;
use crate::elements::style::BorderDefinition;
use crate::elements::style::Style;
use crate::elements::style::StyleDefinition;
use crate::utils::edge_insets::EdgeInsets;
use crate::utils::geometry::Rgb;

verus! {

/// Builds elements that reserve the given padding around a child.
pub struct Padding {}

impl Padding {
    pub fn new(padding: EdgeInsets, child: Element) -> (e: Element)
        ensures
            e == ElementKind::Style(
                Style {
                    style: (StyleDefinition {
                        background: None,
                        margin: (EdgeInsets { top: 0u32, right: 0u32, bottom: 0u32, left: 0u32 }),
                        border: (BorderDefinition {
                            color: (Rgb { r: 0u8, g: 0u8, b: 0u8 }),
                            size: (EdgeInsets {
                                top: 0u32,
                                right: 0u32,
                                bottom: 0u32,
                                left: 0u32,
                            }),
                        }),
                        padding: padding,
                    }),
                    child: child,
                },
            ),
    {
        Style::new(None, EdgeInsets::all(0), BorderDefinition::none(), padding, child)
    }
}

} // verus!
