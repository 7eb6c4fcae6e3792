//! The event-interception element.

use std::rc::Rc;

use vstd::prelude::*;

use crate::defs::Element;
use crate::defs::ElementKind;
use crate::defs::HandlerId;

verus! {

/// Transparent for layout; intercepts event dispatch and runs the
/// application handler named here instead of asking the child.
#[derive(PartialEq)]
pub struct Handler {
    pub handler: HandlerId,
    pub child: Element,
}

impl Handler {
    pub fn new(handler: HandlerId, child: Element) -> (e: Element)
        ensures
            e == ElementKind::Handler(Handler { handler, child }),
    {
        Rc::new(ElementKind::Handler(Handler { handler, child }))
    }
}

} // verus!
