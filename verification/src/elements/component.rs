//! The lazy subtree generator element.

use std::rc::Rc;

use vstd::prelude::*;

use crate::defs::Element;
use crate::defs::ElementKind;
use crate::defs::GeneratorId;

verus! {

/// A zero-size indirection: on every render pass and on every event
/// dispatch, the generator named here is evaluated against the current
/// state to obtain the actual subtree.
#[derive(PartialEq)]
pub struct Component {
    pub generator: GeneratorId,
}

impl Component {
    pub fn new(generator: GeneratorId) -> (e: Element)
        ensures
            e == ElementKind::Component(Component { generator }),
    {
        Rc::new(ElementKind::Component(Component { generator }))
    }
}

} // verus!
