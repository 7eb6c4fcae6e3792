//! A component wrapper pairing a subtree generator with an optional
//! event listener, re-rendered against a mutable store.

use vstd::prelude::*;

use crate::defs::Element;
use crate::defs::GeneratorId;
use crate::defs::HandlerId;
use crate::defs::State;
use crate::event::Event;
use crate::model::ElementModel;

verus! {

/// A generator with an optional event listener attached.
pub struct ComponentDefinition {
    pub generator: GeneratorId,
    pub events_listener: Option<HandlerId>,
}

impl ComponentDefinition {
    pub fn new(generator: GeneratorId) -> (c: ComponentDefinition)
        ensures
            c == (ComponentDefinition { generator, events_listener: None }),
    {
        ComponentDefinition { generator, events_listener: None }
    }

    /// Regenerates the subtree for the store's current value; the store
    /// itself is only read.
    pub fn render<S: State>(&self, store: &mut S) -> (e: Element)
        ensures
            *final(store) == *old(store),
            e@ == (*old(store)).spec_generate(self.generator),
    {
        store.generate(self.generator)
    }

    pub fn with_events_listener(&mut self, events_listener: HandlerId)
        ensures
            final(self).generator == old(self).generator,
            final(self).events_listener == Some(events_listener),
    {
        self.events_listener = Some(events_listener);
    }

    /// Runs the attached listener, if any, against the store; the
    /// listener's own verdict is discarded and the event is always
    /// reported as not consumed.
    pub fn run_event_listener<S: State>(&self, store: &mut S, event: Event) -> (consumed: bool)
        ensures
            !consumed,
            match self.events_listener {
                Some(id) => *final(store) == (*old(store)).spec_handle(id, event).0,
                None => *final(store) == *old(store),
            },
    {
        if let Some(events_listener) = self.events_listener {
            store.run_handler(events_listener, event);
        }
        false
    }
}

} // verus!
