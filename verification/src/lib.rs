//! A retained-mode UI framework for small displays.
//!
//! A declarative tree of elements is laid out against min/max size
//! constraints, producing a positioned render tree and a queue of primitive
//! draw operations; input events are routed back through the render tree to
//! mutate an application-owned state value.

use std::rc::Rc;

use vstd::prelude::*;

pub mod app;
pub mod data_binding;
pub mod defs;
pub mod demo;
pub mod elements;
pub mod engine;
pub mod event;
pub mod example_components;
pub mod graphics;
pub mod model;
pub mod palette;
pub mod utils;

use crate::defs::Element;
use crate::defs::ElementKind;
use crate::defs::SelectorId;
use crate::utils::geometry::Rgb;
use crate::utils::geometry::Size;

verus! {

/// A run of fixed-width text. Glyph boxes are 6 by 10 pixels.
#[derive(PartialEq)]
pub struct Text {
    pub val: String,
}

impl Text {
    pub fn new(val: String) -> (e: Element)
        ensures
            e == ElementKind::Text(Text { val }),
    {
        Rc::new(ElementKind::Text(Text { val }))
    }
}

/// A number displayed in a fixed 50 by 10 pixel box.
#[derive(PartialEq)]
pub struct Number {
    pub val: i32,
}

impl Number {
    pub fn new(val: i32) -> (e: Element)
        ensures
            e == ElementKind::Number(Number { val }),
    {
        Rc::new(ElementKind::Number(Number { val }))
    }
}

/// A box of a fixed configured size, filled with one color, optionally
/// holding a child laid out to exactly that size.
#[derive(PartialEq)]
pub struct BoxElement {
    pub size: Size,
    pub color: Rgb,
    pub child: Option<Element>,
}

impl BoxElement {
    pub fn exactly(size: Size, color: Rgb, child: Option<Element>) -> (e: Element)
        ensures
            e == ElementKind::BoxElement(BoxElement { size, color, child }),
    {
        Rc::new(ElementKind::BoxElement(BoxElement { size, color, child }))
    }
}

/// A vertical stack: children are laid out top to bottom, each against the
/// stack's own incoming constraints.
#[derive(PartialEq)]
pub struct Stack {
    pub items: Vec<Element>,
}

impl Stack {
    pub fn col(items: Vec<Element>) -> (e: Element)
        ensures
            e == ElementKind::Stack(Stack { items }),
    {
        Rc::new(ElementKind::Stack(Stack { items }))
    }
}

/// The cursor of an item selector: which item the cursor rests on, and
/// which item, if any, has been committed.
#[derive(Clone, Copy, Debug, PartialEq, Eq)]
pub struct ItemSelectorState {
    pub active: usize,
    pub selected: Option<usize>,
}

impl Default for ItemSelectorState {
    /// The cursor on the first item, nothing committed.
    fn default() -> (st: ItemSelectorState)
        ensures
            st == (ItemSelectorState { active: 0usize, selected: None }),
    {
        ItemSelectorState { active: 0, selected: None }
    }
}

/// A stateful list: renders every item of an application-bound collection
/// stacked vertically and moves an active/selected cursor on input.
#[derive(PartialEq)]
pub struct ItemSelector {
    pub selector: SelectorId,
}

impl ItemSelector {
    pub fn new(selector: SelectorId) -> (e: Element)
        ensures
            e == ElementKind::ItemSelector(ItemSelector { selector }),
    {
        Rc::new(ElementKind::ItemSelector(ItemSelector { selector }))
    }
}

/// A list of alternatives of which only the selected one is rendered.
#[derive(PartialEq)]
pub struct ListSelector {
    pub items: Vec<Element>,
    pub selected: usize,
}

impl ListSelector {
    pub fn new(items: Vec<Element>, selected: usize) -> (e: Element)
        ensures
            e == ElementKind::ListSelector(ListSelector { items, selected }),
    {
        Rc::new(ElementKind::ListSelector(ListSelector { items, selected }))
    }
}

} // verus!
