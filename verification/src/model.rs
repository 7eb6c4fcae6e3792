//! The mathematical model of the element and render trees.
//!
//! Every contract in the crate speaks of these ghost values: an
//! `ElementModel` is the abstract value of an element tree, a
//! `RenderModel` the abstract value of a render tree. Layout, painting,
//! text flattening and event dispatch each have a spec-level definition
//! over the models; the executable engine is proved to compute exactly
//! those definitions.

use vstd::prelude::*;

use crate::defs::Element;
use crate::defs::ElementKind;
use crate::defs::GeneratorId;
use crate::defs::HandlerId;
use crate::defs::RenderNode;
use crate::defs::SelectorId;
use crate::defs::State;
use crate::elements::align::Alignment;
use crate::elements::align::Alignment2D;
use crate::elements::style::StyleDefinition;
use crate::event::Button;
use crate::event::Direction;
use crate::event::Event;
use crate::graphics::GraphicOperationModel;
use crate::utils::constraints::Constraints;
use crate::utils::decimal::spec_i32_string;
use crate::utils::geometry::Point;
use crate::utils::geometry::Rectangle;
use crate::utils::geometry::Rgb;
use crate::utils::geometry::Size;
use crate::ItemSelectorState;

verus! {

/// The abstract value of one element tree.
pub enum ElementModel {
    Text { val: Seq<char> },
    Number { val: i32 },
    BoxElement { size: Size, color: Rgb, child: Option<Box<ElementModel>> },
    Stack { items: Seq<ElementModel> },
    Style { style: StyleDefinition, child: Box<ElementModel> },
    Align { alignment: Alignment2D, child: Box<ElementModel> },
    Handler { handler: HandlerId, child: Box<ElementModel> },
    Component { generator: GeneratorId },
    ItemSelector { selector: SelectorId },
    ListSelector { items: Seq<ElementModel>, selected: usize },
}

/// The abstract value of one render tree.
pub enum RenderModel {
    SingleChild { offset: Point, size: Size, renderer: ElementModel, child: Box<RenderModel> },
    MultiChild { offset: Point, size: Size, child: Seq<RenderModel> },
    Leaf,
}

/// The abstract value of an element.
pub open spec fn elem_model(e: ElementKind) -> ElementModel
    decreases e,
{
    match e {
        ElementKind::Text(t) => ElementModel::Text { val: t.val@ },
        ElementKind::Number(n) => ElementModel::Number { val: n.val },
        ElementKind::BoxElement(b) => ElementModel::BoxElement {
            size: b.size,
            color: b.color,
            child: match b.child {
                Some(c) => Some(Box::new(elem_model(*c))),
                None => None,
            },
        },
        ElementKind::Stack(s) => ElementModel::Stack { items: elems_model(s.items@) },
        ElementKind::Style(s) => ElementModel::Style {
            style: s.style,
            child: Box::new(elem_model(*s.child)),
        },
        ElementKind::Align(a) => ElementModel::Align {
            alignment: a.alignment,
            child: Box::new(elem_model(*a.child)),
        },
        ElementKind::Handler(h) => ElementModel::Handler {
            handler: h.handler,
            child: Box::new(elem_model(*h.child)),
        },
        ElementKind::Component(c) => ElementModel::Component { generator: c.generator },
        ElementKind::ItemSelector(s) => ElementModel::ItemSelector { selector: s.selector },
        ElementKind::ListSelector(l) => ElementModel::ListSelector {
            items: elems_model(l.items@),
            selected: l.selected,
        },
    }
}

/// The abstract values of a sequence of elements, in order.
pub open spec fn elems_model(items: Seq<Element>) -> Seq<ElementModel>
    decreases items,
{
    if items.len() == 0 {
        Seq::empty()
    } else {
        seq![elem_model(*items[0])] + elems_model(items.drop_first())
    }
}

impl View for ElementKind {
    type V = ElementModel;

    open spec fn view(&self) -> ElementModel {
        elem_model(*self)
    }
}

/// The abstract value of a render node.
pub open spec fn node_model(n: RenderNode) -> RenderModel
    decreases n,
{
    match n {
        RenderNode::SingleChild { offset, size, renderer, child } => RenderModel::SingleChild {
            offset,
            size,
            renderer: elem_model(*renderer),
            child: Box::new(node_model(*child)),
        },
        RenderNode::MultiChild { offset, size, child } => RenderModel::MultiChild {
            offset,
            size,
            child: nodes_model(child@),
        },
        RenderNode::Leaf => RenderModel::Leaf,
    }
}

/// The abstract values of a sequence of render nodes, in order.
pub open spec fn nodes_model(nodes: Seq<RenderNode>) -> Seq<RenderModel>
    decreases nodes,
{
    if nodes.len() == 0 {
        Seq::empty()
    } else {
        seq![node_model(nodes[0])] + nodes_model(nodes.drop_first())
    }
}

impl View for RenderNode {
    type V = RenderModel;

    open spec fn view(&self) -> RenderModel {
        node_model(*self)
    }
}

/// A model sequence holds one entry per element, in order.
pub proof fn lemma_elems_model_len(items: Seq<Element>)
    ensures
        elems_model(items).len() == items.len(),
        forall|i: int|
            0 <= i < items.len() ==> elems_model(items)[i] == elem_model(*#[trigger] items[i]),
    decreases items,
{
    if items.len() > 0 {
        lemma_elems_model_len(items.drop_first());
        assert forall|i: int| 0 <= i < items.len() implies elems_model(items)[i] == elem_model(
            *#[trigger] items[i],
        ) by {
            if i > 0 {
                assert(items.drop_first()[i - 1] == items[i]);
                assert(elems_model(items)[i] == elems_model(items.drop_first())[i - 1]);
            }
        }
    }
}

/// A model sequence holds one entry per render node, in order.
pub proof fn lemma_nodes_model_len(nodes: Seq<RenderNode>)
    ensures
        nodes_model(nodes).len() == nodes.len(),
        forall|i: int|
            0 <= i < nodes.len() ==> nodes_model(nodes)[i] == node_model(#[trigger] nodes[i]),
    decreases nodes,
{
    if nodes.len() > 0 {
        lemma_nodes_model_len(nodes.drop_first());
        assert forall|i: int| 0 <= i < nodes.len() implies nodes_model(nodes)[i] == node_model(
            #[trigger] nodes[i],
        ) by {
            if i > 0 {
                assert(nodes.drop_first()[i - 1] == nodes[i]);
                assert(nodes_model(nodes)[i] == nodes_model(nodes.drop_first())[i - 1]);
            }
        }
    }
}

/// The width of a run of `n` fixed-width glyphs, capped at the numeric
/// limit.
pub open spec fn spec_text_width(n: nat) -> u32 {
    if n * 6 > u32::MAX {
        u32::MAX
    } else {
        (n * 6) as u32
    }
}

/// The layout pass: what one element resolves to under `c` for state `s`.
/// `fuel` bounds how many generator expansions the pass will follow; a
/// `Component` or `ItemSelector` reached with no fuel resolves to an empty
/// leaf.
pub open spec fn spec_render<S: State>(e: ElementModel, c: Constraints, s: S, fuel: nat) -> (
    Size,
    RenderModel,
)
    decreases fuel, e,
{
    match e {
        ElementModel::Text { val } => (
            c.spec_clamp(Size { width: spec_text_width(val.len()), height: 10u32 }),
            RenderModel::Leaf,
        ),
        ElementModel::Number { val } => (
            Size { width: 50u32, height: 10u32 },
            RenderModel::Leaf,
        ),
        ElementModel::BoxElement { size, color, child } => match child {
            Some(inner) => {
                let r = spec_render(*inner, Constraints { min: size, max: size }, s, fuel);
                (
                    size,
                    RenderModel::SingleChild {
                        offset: (Point { x: 0i32, y: 0i32 }),
                        size: r.0,
                        renderer: *inner,
                        child: Box::new(r.1),
                    },
                )
            },
            None => (size, RenderModel::Leaf),
        },
        ElementModel::Stack { items } => {
            let folded = spec_stack_children(items, c, s, fuel, 0, 0);
            let size = c.spec_clamp(Size { width: folded.2, height: folded.1 });
            (
                size,
                RenderModel::MultiChild {
                    offset: (Point { x: 0i32, y: 0i32 }),
                    size,
                    child: folded.0,
                },
            )
        },
        ElementModel::Style { style, child } => {
            let added = style.spec_added_size();
            let r = spec_render(*child, c.spec_shrink(added), s, fuel);
            (
                r.0.spec_saturating_add(added),
                RenderModel::SingleChild {
                    offset: style.spec_child_offset(),
                    size: r.0,
                    renderer: *child,
                    child: Box::new(r.1),
                },
            )
        },
        ElementModel::Align { alignment, child } => {
            let r = spec_render(*child, c, s, fuel);
            let size = c.max;
            let ox = match alignment.horizontal {
                Alignment::Start => 0u32,
                Alignment::Center => size.width.saturating_sub(r.0.width) / 2,
                Alignment::End => size.width.saturating_sub(r.0.width),
            };
            let oy = match alignment.vertical {
                Alignment::Start => 0u32,
                Alignment::Center => size.height.saturating_sub(r.0.height) / 2,
                Alignment::End => size.height.saturating_sub(r.0.height),
            };
            (
                size,
                RenderModel::SingleChild {
                    offset: (Point { x: ox as i32, y: oy as i32 }),
                    size: r.0,
                    renderer: *child,
                    child: Box::new(r.1),
                },
            )
        },
        ElementModel::Handler { handler, child } => {
            let r = spec_render(*child, c, s, fuel);
            (
                r.0,
                RenderModel::SingleChild {
                    offset: (Point { x: 0i32, y: 0i32 }),
                    size: r.0,
                    renderer: *child,
                    child: Box::new(r.1),
                },
            )
        },
        ElementModel::Component { generator } => {
            if fuel == 0 {
                (Size { width: 0u32, height: 0u32 }, RenderModel::Leaf)
            } else {
                let g = s.spec_generate(generator);
                let r = spec_render(g, c, s, (fuel - 1) as nat);
                (
                    r.0,
                    RenderModel::SingleChild {
                        offset: (Point { x: 0i32, y: 0i32 }),
                        size: r.0,
                        renderer: g,
                        child: Box::new(r.1),
                    },
                )
            }
        },
        ElementModel::ItemSelector { selector } => {
            if fuel == 0 {
                (Size { width: 0u32, height: 0u32 }, RenderModel::Leaf)
            } else {
                let folded = spec_stack_children(
                    spec_selector_items(s, selector),
                    c,
                    s,
                    (fuel - 1) as nat,
                    0,
                    0,
                );
                let size = Size { width: folded.2, height: folded.1 };
                (
                    size,
                    RenderModel::MultiChild {
                        offset: (Point { x: 0i32, y: 0i32 }),
                        size,
                        child: folded.0,
                    },
                )
            }
        },
        ElementModel::ListSelector { items, selected } => {
            if selected < items.len() {
                let r = spec_render(items[selected as int], c, s, fuel);
                (
                    r.0,
                    RenderModel::SingleChild {
                        offset: (Point { x: 0i32, y: 0i32 }),
                        size: r.0,
                        renderer: items[selected as int],
                        child: Box::new(r.1),
                    },
                )
            } else {
                (Size { width: 0u32, height: 0u32 }, RenderModel::Leaf)
            }
        },
    }
}

/// The fold over a stack's children: each child is rendered under the
/// stack's own constraints; `sum` and `max_w` accumulate the running
/// vertical offset and the widest child. Returns the child nodes, the
/// total height and the maximum width.
pub open spec fn spec_stack_children<S: State>(
    items: Seq<ElementModel>,
    c: Constraints,
    s: S,
    fuel: nat,
    sum: u32,
    max_w: u32,
) -> (Seq<RenderModel>, u32, u32)
    decreases fuel, items,
{
    if items.len() == 0 {
        (Seq::empty(), sum, max_w)
    } else {
        let r = spec_render(items[0], c, s, fuel);
        let single = RenderModel::SingleChild {
            offset: (Point { x: 0i32, y: sum as i32 }),
            size: r.0,
            renderer: items[0],
            child: Box::new(r.1),
        };
        let next_sum = sum.saturating_add(r.0.height);
        let next_max = if r.0.width > max_w {
            r.0.width
        } else {
            max_w
        };
        let rest = spec_stack_children(items.drop_first(), c, s, fuel, next_sum, next_max);
        (seq![single] + rest.0, rest.1, rest.2)
    }
}

/// The element displaying item `i` of a selector, active iff the cursor
/// rests on it.
pub open spec fn spec_selector_item<S: State>(s: S, id: SelectorId, i: int) -> ElementModel {
    s.spec_render_item(id, i as usize, i == s.spec_selector_state(id).active as int)
}

/// The elements displaying every item of a selector, in order.
pub open spec fn spec_selector_items<S: State>(s: S, id: SelectorId) -> Seq<ElementModel> {
    Seq::new(s.spec_selector_len(id) as nat, |i: int| spec_selector_item(s, id, i))
}

/// The cursor transition of an item selector, and the successor state:
/// Up and Down move the active cursor by one without wrapping (and are
/// no-ops on an empty collection), the principal button commits the
/// active item; those three are consumed, everything else is ignored.
pub open spec fn spec_selector_event<S: State>(s: S, id: SelectorId, ev: Event) -> (S, bool) {
    let st = s.spec_selector_state(id);
    let len = s.spec_selector_len(id);
    match ev {
        Event::DirectionPressed(Direction::Up) => (
            if st.active > 0 {
                s.spec_with_selector_state(
                    id,
                    ItemSelectorState { active: (st.active - 1) as usize, selected: st.selected },
                )
            } else {
                s
            },
            true,
        ),
        Event::DirectionPressed(Direction::Down) => (
            if len > 0 && st.active < len - 1 {
                s.spec_with_selector_state(
                    id,
                    ItemSelectorState { active: (st.active + 1) as usize, selected: st.selected },
                )
            } else {
                s
            },
            true,
        ),
        Event::ButtonPressed(Button::Principal) => (
            s.spec_with_selector_state(
                id,
                ItemSelectorState { active: st.active, selected: Some(st.active) },
            ),
            true,
        ),
        _ => (s, false),
    }
}

/// What one element does with an event: the successor state and whether
/// the event was consumed. Only handlers, item selectors and components
/// react; everything else ignores the event.
pub open spec fn spec_event<S: State>(e: ElementModel, s: S, ev: Event, fuel: nat) -> (S, bool)
    decreases fuel,
{
    match e {
        ElementModel::Handler { handler, child } => s.spec_handle(handler, ev),
        ElementModel::ItemSelector { selector } => spec_selector_event(s, selector, ev),
        ElementModel::Component { generator } => {
            if fuel == 0 {
                (s, false)
            } else {
                spec_event(s.spec_generate(generator), s, ev, (fuel - 1) as nat)
            }
        },
        _ => (s, false),
    }
}

/// Event dispatch over a render tree: pre-order, parent before child,
/// earlier sibling before later, stopping at the first consumer. The
/// fold threads each step's successor state into the next; since a
/// handler that does not consume an event leaves the state untouched,
/// a walk that consumes nothing returns the state it was given.
pub open spec fn spec_dispatch<S: State>(n: RenderModel, s: S, ev: Event, fuel: nat) -> (S, bool)
    decreases n,
{
    match n {
        RenderModel::SingleChild { offset, size, renderer, child } => {
            let hit = spec_event(renderer, s, ev, fuel);
            if hit.1 {
                (hit.0, true)
            } else {
                spec_dispatch(*child, hit.0, ev, fuel)
            }
        },
        RenderModel::MultiChild { offset, size, child } => spec_dispatch_children(
            child,
            s,
            ev,
            fuel,
        ),
        RenderModel::Leaf => (s, false),
    }
}

/// Dispatch over siblings in order, stopping at the first consumer.
pub open spec fn spec_dispatch_children<S: State>(
    nodes: Seq<RenderModel>,
    s: S,
    ev: Event,
    fuel: nat,
) -> (S, bool)
    decreases nodes,
{
    if nodes.len() == 0 {
        (s, false)
    } else {
        let hit = spec_dispatch(nodes[0], s, ev, fuel);
        if hit.1 {
            (hit.0, true)
        } else {
            spec_dispatch_children(nodes.drop_first(), hit.0, ev, fuel)
        }
    }
}

/// The draw operations one element emits for its own area. Structural
/// elements paint nothing themselves; their children are painted through
/// their own render nodes.
pub open spec fn spec_element_ops(e: ElementModel, size: Size, pos: Point) -> Seq<
    GraphicOperationModel,
> {
    match e {
        ElementModel::BoxElement { size: box_size, color, child } => seq![
            GraphicOperationModel::DrawRectangle {
                rect: (Rectangle { top_left: pos, size: box_size }),
                color,
            },
        ],
        ElementModel::Text { val } => seq![
            GraphicOperationModel::DrawText {
                position: pos,
                text: val,
                color: (Rgb { r: 255u8, g: 255u8, b: 255u8 }),
            },
        ],
        ElementModel::Number { val } => seq![
            GraphicOperationModel::DrawText {
                position: pos,
                text: spec_i32_string(val),
                color: (Rgb { r: 255u8, g: 255u8, b: 255u8 }),
            },
        ],
        ElementModel::Style { style, child } => spec_style_ops(style, size, pos),
        _ => Seq::empty(),
    }
}

/// The draw operations a style decorator emits: its background rectangle,
/// then four independent border rectangles (left, right, top, bottom),
/// each sized by its own edge inset.
pub open spec fn spec_style_ops(d: StyleDefinition, size: Size, pos: Point) -> Seq<
    GraphicOperationModel,
> {
    let background: Seq<GraphicOperationModel> = match d.background {
        Some(color) => seq![
            GraphicOperationModel::DrawRectangle {
                rect: (Rectangle {
                    top_left: d.spec_background_offset().spec_wrapping_add(pos),
                    size: d.spec_background_size(size),
                }),
                color,
            },
        ],
        None => Seq::empty(),
    };
    let edges = d.border.size;
    if edges.top == 0 && edges.bottom == 0 && edges.left == 0 && edges.right == 0 {
        background
    } else {
        let area = d.spec_border_size(size);
        let origin = d.spec_border_offset().spec_wrapping_add(pos);
        background + seq![
            GraphicOperationModel::DrawRectangle {
                rect: (Rectangle {
                    top_left: origin,
                    size: (Size { width: edges.left, height: area.height }),
                }),
                color: d.border.color,
            },
            GraphicOperationModel::DrawRectangle {
                rect: (Rectangle {
                    top_left: origin.spec_wrapping_add(
                        Point {
                            x: (area.width as i32).wrapping_sub(edges.right as i32),
                            y: 0i32,
                        },
                    ),
                    size: (Size { width: edges.right, height: area.height }),
                }),
                color: d.border.color,
            },
            GraphicOperationModel::DrawRectangle {
                rect: (Rectangle {
                    top_left: origin,
                    size: (Size { width: area.width, height: edges.top }),
                }),
                color: d.border.color,
            },
            GraphicOperationModel::DrawRectangle {
                rect: (Rectangle {
                    top_left: origin.spec_wrapping_add(
                        Point {
                            x: 0i32,
                            y: (area.height as i32).wrapping_sub(edges.bottom as i32),
                        },
                    ),
                    size: (Size { width: area.width, height: edges.bottom }),
                }),
                color: d.border.color,
            },
        ]
    }
}

/// The paint pass over a render tree: offsets accumulate absolutely, each
/// node's renderer paints before its child, siblings paint in order.
pub open spec fn spec_paint_node(n: RenderModel, origin: Point) -> Seq<GraphicOperationModel>
    decreases n,
{
    match n {
        RenderModel::SingleChild { offset, size, renderer, child } => {
            let pos = origin.spec_wrapping_add(offset);
            spec_element_ops(renderer, size, pos) + spec_paint_node(*child, pos)
        },
        RenderModel::MultiChild { offset, size, child } => spec_paint_children(
            child,
            origin.spec_wrapping_add(offset),
        ),
        RenderModel::Leaf => Seq::empty(),
    }
}

/// The paint pass over siblings, in order.
pub open spec fn spec_paint_children(nodes: Seq<RenderModel>, origin: Point) -> Seq<
    GraphicOperationModel,
>
    decreases nodes,
{
    if nodes.len() == 0 {
        Seq::empty()
    } else {
        spec_paint_node(nodes[0], origin) + spec_paint_children(nodes.drop_first(), origin)
    }
}

/// The textual flattening of an element tree: text and numbers render
/// themselves, a stack brackets its children joined by commas, a list
/// selector shows its selected alternative, wrappers are transparent and
/// everything else is empty.
pub open spec fn spec_to_string(e: ElementModel) -> Seq<char>
    decreases e,
{
    match e {
        ElementModel::Text { val } => val,
        ElementModel::Number { val } => spec_i32_string(val),
        ElementModel::Stack { items } => seq!['['] + spec_join_items(items) + seq![']'],
        ElementModel::ListSelector { items, selected } => {
            if selected < items.len() {
                spec_to_string(items[selected as int])
            } else {
                Seq::empty()
            }
        },
        ElementModel::Style { style, child } => spec_to_string(*child),
        ElementModel::Align { alignment, child } => spec_to_string(*child),
        ElementModel::Handler { handler, child } => spec_to_string(*child),
        _ => Seq::empty(),
    }
}

/// The flattenings of a sequence of elements joined by a comma and a
/// space.
pub open spec fn spec_join_items(items: Seq<ElementModel>) -> Seq<char>
    decreases items,
{
    if items.len() == 0 {
        Seq::empty()
    } else if items.len() == 1 {
        spec_to_string(items[0])
    } else {
        spec_to_string(items[0]) + seq![',', ' '] + spec_join_items(items.drop_first())
    }
}

/// Appending a node extends the model sequence by that node's model.
pub proof fn lemma_nodes_model_push(nodes: Seq<RenderNode>, n: RenderNode)
    ensures
        nodes_model(nodes.push(n)) == nodes_model(nodes) + seq![node_model(n)],
    decreases nodes,
{
    if nodes.len() == 0 {
        assert(nodes.push(n).len() == 1);
        assert(nodes.push(n)[0] == n);
        assert(nodes_model(nodes.push(n)) == seq![node_model(n)] + nodes_model(
            nodes.push(n).drop_first(),
        ));
        assert(nodes.push(n).drop_first().len() == 0);
        assert(nodes_model(nodes.push(n).drop_first()) == Seq::<RenderModel>::empty());
        assert(nodes_model(nodes) == Seq::<RenderModel>::empty());
        assert(nodes_model(nodes.push(n)) =~= nodes_model(nodes) + seq![node_model(n)]);
    } else {
        lemma_nodes_model_push(nodes.drop_first(), n);
        assert(nodes.push(n).len() == nodes.len() + 1);
        assert(nodes.push(n)[0] == nodes[0]);
        assert(nodes.push(n).drop_first() =~= nodes.drop_first().push(n));
        assert(nodes_model(nodes.push(n)) == seq![node_model(nodes[0])] + nodes_model(
            nodes.drop_first().push(n),
        ));
        assert(nodes_model(nodes.push(n)) == seq![node_model(nodes[0])] + (nodes_model(
            nodes.drop_first(),
        ) + seq![node_model(n)]));
        assert(nodes_model(nodes) == seq![node_model(nodes[0])] + nodes_model(nodes.drop_first()));
        assert(nodes_model(nodes.push(n)) =~= nodes_model(nodes) + seq![node_model(n)]);
    }
}

/// Joining one more flattening appends a separator and the new entry.
pub proof fn lemma_join_push(items: Seq<ElementModel>, x: ElementModel)
    ensures
        spec_join_items(items.push(x)) == if items.len() == 0 {
            spec_to_string(x)
        } else {
            spec_join_items(items) + seq![',', ' '] + spec_to_string(x)
        },
    decreases items,
{
    if items.len() == 0 {
        assert(items.push(x)[0] == x);
        assert(items.push(x).len() == 1);
    } else {
        assert(items.push(x)[0] == items[0]);
        assert(items.push(x).drop_first() =~= items.drop_first().push(x));
        lemma_join_push(items.drop_first(), x);
        if items.len() == 1 {
            assert(spec_join_items(items.push(x)) =~= spec_join_items(items) + seq![',', ' ']
                + spec_to_string(x));
        } else {
            assert(spec_join_items(items.push(x)) =~= spec_join_items(items) + seq![',', ' ']
                + spec_to_string(x));
        }
    }
}

/// The stack fold still to be done, from position `i` with the
/// accumulators reached so far, completes what the full fold produces.
pub open spec fn spec_stack_partial<S: State>(
    models: Seq<ElementModel>,
    c: Constraints,
    s: S,
    fuel: nat,
    done: Seq<RenderModel>,
    i: int,
    sum: u32,
    max_w: u32,
) -> bool {
    let rest = spec_stack_children(models.skip(i), c, s, fuel, sum, max_w);
    spec_stack_children(models, c, s, fuel, 0, 0) == (done + rest.0, rest.1, rest.2)
}

/// Painting one more sibling appends exactly that node's operations.
pub proof fn lemma_paint_children_push(nodes: Seq<RenderModel>, n: RenderModel, origin: Point)
    ensures
        spec_paint_children(nodes.push(n), origin) == spec_paint_children(nodes, origin)
            + spec_paint_node(n, origin),
    decreases nodes,
{
    if nodes.len() == 0 {
        assert(nodes.push(n)[0] == n);
        assert(nodes.push(n).drop_first() =~= Seq::<RenderModel>::empty());
        assert(spec_paint_children(nodes.push(n).drop_first(), origin) == Seq::<
            GraphicOperationModel,
        >::empty());
        assert(spec_paint_children(nodes, origin) == Seq::<GraphicOperationModel>::empty());
        assert(spec_paint_children(nodes.push(n), origin) =~= spec_paint_children(nodes, origin)
            + spec_paint_node(n, origin));
    } else {
        lemma_paint_children_push(nodes.drop_first(), n, origin);
        assert(nodes.push(n)[0] == nodes[0]);
        assert(nodes.push(n).drop_first() =~= nodes.drop_first().push(n));
        assert(spec_paint_children(nodes.push(n), origin) == spec_paint_node(nodes[0], origin)
            + spec_paint_children(nodes.drop_first().push(n), origin));
        assert(spec_paint_children(nodes.push(n), origin) =~= spec_paint_children(nodes, origin)
            + spec_paint_node(n, origin));
    }
}

/// Rendering is a pure function of the element tree, the constraints and
/// the state: two layout passes over the same inputs resolve to the same
/// size and to structurally equal render trees.
pub proof fn lemma_render_deterministic<S: State>(
    e: ElementModel,
    c: Constraints,
    s: S,
    fuel: nat,
    first: (Size, RenderModel),
    second: (Size, RenderModel),
)
    requires
        first == spec_render(e, c, s, fuel),
        second == spec_render(e, c, s, fuel),
    ensures
        first == second,
{
}

/// Wrapping a child in a style adds exactly the margin, border and
/// padding extents to the rendered size, on every input whose sums stay
/// within the numeric range.
pub proof fn lemma_style_additive<S: State>(
    d: StyleDefinition,
    child: ElementModel,
    c: Constraints,
    s: S,
    fuel: nat,
)
    requires
        d.margin.left + d.margin.right + d.border.size.left + d.border.size.right + d.padding.left
            + d.padding.right + spec_render(
            child,
            c.spec_shrink(d.spec_added_size()),
            s,
            fuel,
        ).0.width <= u32::MAX,
        d.margin.top + d.margin.bottom + d.border.size.top + d.border.size.bottom + d.padding.top
            + d.padding.bottom + spec_render(
            child,
            c.spec_shrink(d.spec_added_size()),
            s,
            fuel,
        ).0.height <= u32::MAX,
    ensures
        spec_render(ElementModel::Style { style: d, child: Box::new(child) }, c, s, fuel).0.width
            == spec_render(child, c.spec_shrink(d.spec_added_size()), s, fuel).0.width
            + d.margin.left + d.margin.right + d.border.size.left + d.border.size.right
            + d.padding.left + d.padding.right,
        spec_render(ElementModel::Style { style: d, child: Box::new(child) }, c, s, fuel).0.height
            == spec_render(child, c.spec_shrink(d.spec_added_size()), s, fuel).0.height
            + d.margin.top + d.margin.bottom + d.border.size.top + d.border.size.bottom
            + d.padding.top + d.padding.bottom,
{
}

} // verus!
