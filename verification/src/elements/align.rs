//! The alignment wrapper element.

use std::rc::Rc;

use vstd::prelude::*;

use crate::defs::Element;
use crate::defs::ElementKind;

verus! {

/// Placement of a child along one axis of its parent.
#[derive(Clone, Copy, Debug, PartialEq, Eq, Structural)]
pub enum Alignment {
    Start,
    Center,
    End,
}

/// Placement along both axes.
#[derive(Clone, Copy, Debug, PartialEq, Eq, Structural)]
pub struct Alignment2D {
    pub horizontal: Alignment,
    pub vertical: Alignment,
}

/// An element that greedily fills the incoming maximum size and places its
/// child inside that area per the configured alignment.
#[derive(PartialEq)]
pub struct Align {
    pub alignment: Alignment2D,
    pub child: Element,
}

impl Align {
    pub fn new(alignment: Alignment2D, child: Element) -> (e: Element)
        ensures
            e == ElementKind::Align(Align { alignment, child }),
    {
        Rc::new(ElementKind::Align(Align { alignment, child }))
    }
}

} // verus!
