//! A style wrapper that only draws a border.

use vstd::prelude::*;

use crate::defs::Element;
use crate::defs::ElementKind;
use crate::elements::style::BorderDefinition;
use crate::elements::style::Style;
use crate::elements::style::StyleDefinition;
use crate::utils::edge_insets::EdgeInsets;

verus! {

/// Builds elements that draw the given border around a child.
pub struct Border {}

impl Border {
    pub fn new(border: BorderDefinition, child: Element) -> (e: Element)
        ensures
            e == ElementKind::Style(
                Style {
                    style: (StyleDefinition {
                        background: None,
                        margin: (EdgeInsets { top: 0u32, right: 0u32, bottom: 0u32, left: 0u32 }),
                        border: border,
                        padding: (EdgeInsets { top: 0u32, right: 0u32, bottom: 0u32, left: 0u32 }),
                    }),
                    child: child,
                },
            ),
    {
        Style::new(None, EdgeInsets::all(0), border, EdgeInsets::all(0), child)
    }
}

} // verus!
