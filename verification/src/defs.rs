//! Core definitions: the element tree, the render tree and the `State`
//! trait that binds an application's data to the framework.

use std::rc::Rc;

use vstd::prelude::*;

use crate::elements::align::Align;
use crate::elements::component::Component;
use crate::elements::handler::Handler;
use crate::elements::style::Style;
use crate::event::Event;
use crate::model::ElementModel;
use crate::utils::geometry::Point;
use crate::utils::geometry::Size;
use crate::BoxElement;
use crate::ItemSelector;
use crate::ItemSelectorState;
use crate::ListSelector;
use crate::Number;
use crate::Stack;
use crate::Text;

verus! {

/// How many nested generator expansions one render or dispatch pass will
/// follow before giving up with an empty subtree.
pub const GENERATION_LIMIT: u64 = 64;

/// Identifies one application-supplied event-handler callback.
pub type HandlerId = u32;

/// Identifies one application-supplied subtree generator.
pub type GeneratorId = u32;

/// Identifies one application-supplied item-selector binding.
pub type SelectorId = u32;

/// One node of the declarative tree. Elements are immutable, shareable
/// descriptions; the same element may be referenced from several render
/// nodes.
pub type Element = Rc<ElementKind>;

/// Relies on `Rc::clone` of the standard library: cloning a reference-
/// counted handle yields a new handle to the same allocation, so the
/// clone carries the same value as the original.
#[verifier::external_body]
pub(crate) fn clone_element(e: &Element) -> (res: Element)
    ensures
        res == *e,
{
    Rc::clone(e)
}

/// The closed set of element variants.
#[derive(PartialEq)]
pub enum ElementKind {
    Text(Text),
    Number(Number),
    BoxElement(BoxElement),
    Stack(Stack),
    Style(Style),
    Align(Align),
    Handler(Handler),
    Component(Component),
    ItemSelector(ItemSelector),
    ListSelector(ListSelector),
}

/// The positioned, sized snapshot produced by one layout pass over an
/// element tree for one state value. Offsets are relative to the parent
/// node; each `SingleChild` keeps a shared reference to the element whose
/// rendering produced its content, so events can be re-dispatched without
/// re-measuring.
#[derive(PartialEq)]
pub enum RenderNode {
    SingleChild { offset: Point, size: Size, renderer: Element, child: Box<RenderNode> },
    MultiChild { offset: Point, size: Size, child: Vec<RenderNode> },
    Leaf,
}

/// The application's data model, owned by the runner and read during
/// rendering. All callbacks an element tree can name — subtree generators,
/// event handlers and item-selector bindings — are dispatched through this
/// trait by identifier, and each is pinned to a spec-level mirror so that
/// rendering and event dispatch are provably deterministic functions of
/// the state value.
pub trait State: Sized {
    /// The value the runner starts from. An implementation may say in
    /// its own ensures what that value is.
    fn initial() -> Self;

    /// What the generator named `id` produces for this state.
    open spec fn spec_generate(self, id: GeneratorId) -> ElementModel {
        ElementModel::Text { val: Seq::empty() }
    }

    fn generate(&self, id: GeneratorId) -> (e: Element)
        ensures
            e@ == self.spec_generate(id),
    ;

    /// What the handler named `id` does: the successor state and whether
    /// the event was consumed.
    open spec fn spec_handle(self, id: HandlerId, event: Event) -> (Self, bool) {
        (self, false)
    }

    /// Runs the handler named `id`. An event the handler does not consume
    /// leaves the state untouched.
    fn run_handler(&mut self, id: HandlerId, event: Event) -> (consumed: bool)
        ensures
            (*final(self), consumed) == (*old(self)).spec_handle(id, event),
            !consumed ==> *final(self) == *old(self),
    ;

    /// How many items the selector named `id` currently has.
    open spec fn spec_selector_len(self, id: SelectorId) -> usize {
        0usize
    }

    fn selector_len(&self, id: SelectorId) -> (n: usize)
        ensures
            n == self.spec_selector_len(id),
    ;

    /// The cursor of the selector named `id`.
    open spec fn spec_selector_state(self, id: SelectorId) -> ItemSelectorState {
        ItemSelectorState { active: 0usize, selected: None }
    }

    fn selector_state(&self, id: SelectorId) -> (st: ItemSelectorState)
        ensures
            st == self.spec_selector_state(id),
    ;

    /// This state with the cursor of selector `id` replaced.
    open spec fn spec_with_selector_state(self, id: SelectorId, st: ItemSelectorState) -> Self {
        self
    }

    fn set_selector_state(&mut self, id: SelectorId, st: ItemSelectorState)
        ensures
            *final(self) == (*old(self)).spec_with_selector_state(id, st),
    ;

    /// The element that displays item `index` of selector `id`, knowing
    /// whether the cursor rests on it.
    open spec fn spec_render_item(self, id: SelectorId, index: usize, active: bool) -> ElementModel {
        ElementModel::Text { val: Seq::empty() }
    }

    fn render_item(&self, id: SelectorId, index: usize, active: bool) -> (e: Element)
        requires
            index < self.spec_selector_len(id),
        ensures
            e@ == self.spec_render_item(id, index, active),
    ;
}

} // verus!
