//! The executable engine: layout over the element tree, proved to compute
//! exactly the spec-level definitions of the model module.

use vstd::prelude::*;

use crate::defs::clone_element;
use crate::defs::ElementKind;
use crate::defs::RenderNode;
use crate::defs::State;
use crate::defs::GENERATION_LIMIT;
use crate::model::elems_model;
use crate::model::lemma_elems_model_len;
use crate::model::lemma_nodes_model_push;
use crate::model::nodes_model;
use crate::model::lemma_join_push;
use crate::model::spec_element_ops;
use crate::model::spec_event;
use crate::model::spec_join_items;
use crate::model::spec_render;
use crate::model::spec_to_string;
use crate::model::spec_selector_item;
use crate::model::spec_stack_partial;
use crate::model::spec_text_width;
use crate::model::ElementModel;
use crate::utils::constraints::Constraints;
use crate::utils::geometry::Point;
use crate::event::Button;
use crate::event::Direction;
use crate::event::Event;
use crate::graphics::GraphicOperation;
use crate::graphics::GraphicOperationQueue;
use crate::utils::decimal::i32_to_string;
use crate::utils::geometry::Rectangle;
use crate::utils::geometry::Rgb;
use crate::utils::geometry::Size;
use crate::ItemSelectorState;
use vstd::string::StrSliceExecFns;
use vstd::string::StringExecFns;

verus! {

impl ElementKind {
    /// The layout pass: resolves this element against the constraints for
    /// the given state, producing its own size and its render tree.
    /// Rendering is a pure function of `(element, constraints, state)`:
    /// the result equals the spec-level layout definition.
    pub fn render<S: State>(&self, constraints: Constraints, state: &S) -> (r: (Size, RenderNode))
        ensures
            (r.0, r.1@) == spec_render(self@, constraints, *state, GENERATION_LIMIT as nat),
    {
        self.render_depth(constraints, state, GENERATION_LIMIT)
    }

    /// Layout with an explicit generator-expansion budget.
    #[verifier::loop_isolation(false)]
    fn render_depth<S: State>(&self, constraints: Constraints, state: &S, fuel: u64) -> (r: (
        Size,
        RenderNode,
    ))
        ensures
            (r.0, r.1@) == spec_render(self@, constraints, *state, fuel as nat),
        decreases fuel, *self,
    {
        match self {
            ElementKind::Text(t) => {
                let n = t.val.as_str().unicode_len();
                let width = if n >= 715827883usize {
                    u32::MAX
                } else {
                    (n as u32) * 6
                };
                proof {
                    assert(width == spec_text_width(t.val@.len()));
                }
                (constraints.clamp(&Size::new(width, 10)), RenderNode::Leaf)
            },
            ElementKind::Number(_) => (Size::new(50, 10), RenderNode::Leaf),
            ElementKind::BoxElement(b) => {
                match &b.child {
                    Some(child) => {
                        let r = child.render_depth(
                            Constraints { min: b.size, max: b.size },
                            state,
                            fuel,
                        );
                        (
                            b.size,
                            RenderNode::SingleChild {
                                offset: Point::zero(),
                                child: Box::new(r.1),
                                renderer: clone_element(child),
                                size: r.0,
                            },
                        )
                    },
                    None => (b.size, RenderNode::Leaf),
                }
            },
            ElementKind::Stack(st) => {
                let ghost models = elems_model(st.items@);
                let mut sum: u32 = 0;
                let mut max_cross: u32 = 0;
                let mut render_child: Vec<RenderNode> = Vec::new();
                let mut i: usize = 0;
                proof {
                    lemma_elems_model_len(st.items@);
                    assert(models.skip(0) =~= models);
                    assert(nodes_model(render_child@) + crate::model::spec_stack_children(
                        models,
                        constraints,
                        *state,
                        fuel as nat,
                        0u32,
                        0u32,
                    ).0 =~= crate::model::spec_stack_children(
                        models,
                        constraints,
                        *state,
                        fuel as nat,
                        0u32,
                        0u32,
                    ).0);
                }
                while i < st.items.len()
                    invariant
                        i <= st.items.len(),
                        models == elems_model(st.items@),
                        spec_stack_partial(
                            models,
                            constraints,
                            *state,
                            fuel as nat,
                            nodes_model(render_child@),
                            i as int,
                            sum,
                            max_cross,
                        ),
                    decreases st.items.len() - i,
                {
                    proof {
                        lemma_elems_model_len(st.items@);
                        assert(*self == ElementKind::Stack(*st));
                        assert(decreases_to!(ElementKind::Stack(*st) => *st));
                        assert(decreases_to!(*st => st.items));
                        assert(decreases_to!(st.items => st.items@));
                        assert(decreases_to!(st.items@ => st.items@[i as int]));
                    }
                    let item = &st.items[i];
                    let r = item.render_depth(constraints, state, fuel);
                    let node = RenderNode::SingleChild {
                        offset: Point::new(0, sum as i32),
                        child: Box::new(r.1),
                        renderer: clone_element(item),
                        size: r.0,
                    };
                    proof {
                        lemma_nodes_model_push(render_child@, node);
                        assert(models.skip(i as int).len() > 0);
                        assert(models.skip(i as int)[0] == models[i as int]);
                        assert(models.skip(i as int).drop_first() =~= models.skip(i as int + 1));
                        assert(nodes_model(render_child@) + seq![crate::model::node_model(node)]
                            + crate::model::spec_stack_children(
                            models.skip(i as int + 1),
                            constraints,
                            *state,
                            fuel as nat,
                            sum.saturating_add(r.0.height),
                            if r.0.width > max_cross {
                                r.0.width
                            } else {
                                max_cross
                            },
                        ).0 =~= nodes_model(render_child@) + (seq![
                            crate::model::node_model(node),
                        ] + crate::model::spec_stack_children(
                            models.skip(i as int + 1),
                            constraints,
                            *state,
                            fuel as nat,
                            sum.saturating_add(r.0.height),
                            if r.0.width > max_cross {
                                r.0.width
                            } else {
                                max_cross
                            },
                        ).0));
                    }
                    render_child.push(node);
                    sum = sum.saturating_add(r.0.height);
                    max_cross = if r.0.width > max_cross {
                        r.0.width
                    } else {
                        max_cross
                    };
                    i = i + 1;
                }
                proof {
                    assert(models.skip(i as int) =~= Seq::<ElementModel>::empty());
                    assert(nodes_model(render_child@) + crate::model::spec_stack_children(
                        models.skip(i as int),
                        constraints,
                        *state,
                        fuel as nat,
                        sum,
                        max_cross,
                    ).0 =~= nodes_model(render_child@));
                }
                let size = constraints.clamp(&Size::new(max_cross, sum));
                (
                    size,
                    RenderNode::MultiChild { offset: Point::zero(), size, child: render_child },
                )
            },
            ElementKind::Style(sty) => {
                let added_size = sty.added_size();
                let shrunk = constraints.shrink(&added_size);
                let r = sty.child.render_depth(shrunk, state, fuel);
                (
                    r.0.saturating_add(added_size),
                    RenderNode::SingleChild {
                        offset: sty.child_offset(),
                        child: Box::new(r.1),
                        renderer: clone_element(&sty.child),
                        size: r.0,
                    },
                )
            },
            ElementKind::Align(al) => {
                let r = al.child.render_depth(constraints, state, fuel);
                let size = constraints.max;
                let offset_x = match al.alignment.horizontal {
                    crate::elements::align::Alignment::Start => 0u32,
                    crate::elements::align::Alignment::Center => size.width.saturating_sub(
                        r.0.width,
                    ) / 2,
                    crate::elements::align::Alignment::End => size.width.saturating_sub(r.0.width),
                };
                let offset_y = match al.alignment.vertical {
                    crate::elements::align::Alignment::Start => 0u32,
                    crate::elements::align::Alignment::Center => size.height.saturating_sub(
                        r.0.height,
                    ) / 2,
                    crate::elements::align::Alignment::End => size.height.saturating_sub(
                        r.0.height,
                    ),
                };
                (
                    size,
                    RenderNode::SingleChild {
                        offset: Point::new(offset_x as i32, offset_y as i32),
                        size: r.0,
                        renderer: clone_element(&al.child),
                        child: Box::new(r.1),
                    },
                )
            },
            ElementKind::Handler(h) => {
                let r = h.child.render_depth(constraints, state, fuel);
                (
                    r.0,
                    RenderNode::SingleChild {
                        offset: Point::zero(),
                        size: r.0,
                        renderer: clone_element(&h.child),
                        child: Box::new(r.1),
                    },
                )
            },
            ElementKind::Component(comp) => {
                if fuel == 0 {
                    (Size::new(0, 0), RenderNode::Leaf)
                } else {
                    let child = state.generate(comp.generator);
                    let r = child.render_depth(constraints, state, fuel - 1);
                    (
                        r.0,
                        RenderNode::SingleChild {
                            offset: Point::zero(),
                            size: r.0,
                            renderer: clone_element(&child),
                            child: Box::new(r.1),
                        },
                    )
                }
            },
            ElementKind::ItemSelector(sel) => {
                if fuel == 0 {
                    (Size::new(0, 0), RenderNode::Leaf)
                } else {
                    let id = sel.selector;
                    let len = state.selector_len(id);
                    let element_state = state.selector_state(id);
                    let ghost models = crate::model::spec_selector_items(*state, id);
                    let mut sum: u32 = 0;
                    let mut max_cross: u32 = 0;
                    let mut children: Vec<RenderNode> = Vec::new();
                    let mut index: usize = 0;
                    proof {
                        assert(models.skip(0) =~= models);
                        assert(nodes_model(children@) + crate::model::spec_stack_children(
                            models,
                            constraints,
                            *state,
                            (fuel - 1) as nat,
                            0u32,
                            0u32,
                        ).0 =~= crate::model::spec_stack_children(
                            models,
                            constraints,
                            *state,
                            (fuel - 1) as nat,
                            0u32,
                            0u32,
                        ).0);
                    }
                    while index < len
                        invariant
                            index <= len,
                            fuel >= 1,
                            len == (*state).spec_selector_len(id),
                            element_state == (*state).spec_selector_state(id),
                            spec_stack_partial(
                                models,
                                constraints,
                                *state,
                                (fuel - 1) as nat,
                                nodes_model(children@),
                                index as int,
                                sum,
                                max_cross,
                            ),
                        decreases len - index,
                    {
                        let active = index == element_state.active;
                        let item = state.render_item(id, index, active);
                        let r = item.render_depth(constraints, state, fuel - 1);
                        let node = RenderNode::SingleChild {
                            offset: Point::new(0, sum as i32),
                            size: r.0,
                            renderer: clone_element(&item),
                            child: Box::new(r.1),
                        };
                        proof {
                            assert(active == (index as int
                                == (*state).spec_selector_state(id).active as int));
                            assert(models[index as int] == spec_selector_item(
                                *state,
                                id,
                                index as int,
                            ));
                            assert(item@ == models[index as int]);
                            lemma_nodes_model_push(children@, node);
                            assert(models.skip(index as int).len() > 0);
                            assert(models.skip(index as int)[0] == models[index as int]);
                            assert(models.skip(index as int).drop_first() =~= models.skip(
                                index as int + 1,
                            ));
                            assert(nodes_model(children@) + seq![crate::model::node_model(node)]
                                + crate::model::spec_stack_children(
                                models.skip(index as int + 1),
                                constraints,
                                *state,
                                (fuel - 1) as nat,
                                sum.saturating_add(r.0.height),
                                if r.0.width > max_cross {
                                    r.0.width
                                } else {
                                    max_cross
                                },
                            ).0 =~= nodes_model(children@) + (seq![
                                crate::model::node_model(node),
                            ] + crate::model::spec_stack_children(
                                models.skip(index as int + 1),
                                constraints,
                                *state,
                                (fuel - 1) as nat,
                                sum.saturating_add(r.0.height),
                                if r.0.width > max_cross {
                                    r.0.width
                                } else {
                                    max_cross
                                },
                            ).0));
                        }
                        children.push(node);
                        sum = sum.saturating_add(r.0.height);
                        max_cross = if r.0.width > max_cross {
                            r.0.width
                        } else {
                            max_cross
                        };
                        index = index + 1;
                    }
                    proof {
                        assert(models.skip(index as int) =~= Seq::<ElementModel>::empty());
                        assert(nodes_model(children@) + crate::model::spec_stack_children(
                            models.skip(index as int),
                            constraints,
                            *state,
                            (fuel - 1) as nat,
                            sum,
                            max_cross,
                        ).0 =~= nodes_model(children@));
                    }
                    let size = Size::new(max_cross, sum);
                    (
                        size,
                        RenderNode::MultiChild {
                            offset: Point::new(0, 0),
                            size,
                            child: children,
                        },
                    )
                }
            },
            ElementKind::ListSelector(ls) => {
                proof {
                    lemma_elems_model_len(ls.items@);
                }
                if ls.selected < ls.items.len() {
                    proof {
                        assert(*self == ElementKind::ListSelector(*ls));
                        assert(decreases_to!(ElementKind::ListSelector(*ls) => *ls));
                        assert(decreases_to!(*ls => ls.items));
                        assert(decreases_to!(ls.items => ls.items@));
                        assert(decreases_to!(ls.items@ => ls.items@[ls.selected as int]));
                    }
                    let item = &ls.items[ls.selected];
                    let r = item.render_depth(constraints, state, fuel);
                    (
                        r.0,
                        RenderNode::SingleChild {
                            offset: Point::zero(),
                            child: Box::new(r.1),
                            renderer: clone_element(item),
                            size: r.0,
                        },
                    )
                } else {
                    (Size::new(0, 0), RenderNode::Leaf)
                }
            },
        }
    }
}

impl ElementKind {
    /// Event dispatch at one element: hands the event to the handler,
    /// selector cursor or generated subtree this element names, mutating
    /// the state exactly as the spec-level event definition says, and
    /// reports whether the event was consumed.
    pub fn event_handler<S: State>(&self, state: &mut S, event: Event) -> (consumed: bool)
        ensures
            (*final(state), consumed) == spec_event(
                self@,
                *old(state),
                event,
                GENERATION_LIMIT as nat,
            ),
            !consumed ==> *final(state) == *old(state),
    {
        self.event_handler_depth(state, event, GENERATION_LIMIT)
    }

    /// Event dispatch with an explicit generator-expansion budget.
    fn event_handler_depth<S: State>(&self, state: &mut S, event: Event, fuel: u64) -> (consumed:
        bool)
        ensures
            (*final(state), consumed) == spec_event(self@, *old(state), event, fuel as nat),
            !consumed ==> *final(state) == *old(state),
        decreases fuel,
    {
        match self {
            ElementKind::Handler(h) => state.run_handler(h.handler, event),
            ElementKind::ItemSelector(sel) => {
                let id = sel.selector;
                let element_state = state.selector_state(id);
                match event {
                    Event::DirectionPressed(Direction::Up) => {
                        if element_state.active > 0 {
                            state.set_selector_state(
                                id,
                                ItemSelectorState {
                                    active: element_state.active - 1,
                                    selected: element_state.selected,
                                },
                            );
                        }
                        true
                    },
                    Event::DirectionPressed(Direction::Down) => {
                        let len = state.selector_len(id);
                        if len > 0 && element_state.active < len - 1 {
                            state.set_selector_state(
                                id,
                                ItemSelectorState {
                                    active: element_state.active + 1,
                                    selected: element_state.selected,
                                },
                            );
                        }
                        true
                    },
                    Event::ButtonPressed(Button::Principal) => {
                        state.set_selector_state(
                            id,
                            ItemSelectorState {
                                active: element_state.active,
                                selected: Some(element_state.active),
                            },
                        );
                        true
                    },
                    _ => false,
                }
            },
            ElementKind::Component(comp) => {
                if fuel == 0 {
                    false
                } else {
                    let child = state.generate(comp.generator);
                    child.event_handler_depth(state, event, fuel - 1)
                }
            },
            _ => false,
        }
    }

    /// The paint pass for this element alone: pushes the element's own
    /// draw operations for the given resolved size and absolute position.
    /// It never recurses into children; the runner walks the render tree.
    pub fn paint(&self, size: Size, pos: Point, queue: &mut GraphicOperationQueue)
        ensures
            final(queue)@ == old(queue)@ + spec_element_ops(self@, size, pos),
    {
        match self {
            ElementKind::BoxElement(b) => {
                queue.push(
                    GraphicOperation::DrawRectangle {
                        rect: Rectangle::new(pos, b.size),
                        color: b.color,
                    },
                );
                proof {
                    assert(queue@ =~= old(queue)@ + spec_element_ops(self@, size, pos));
                }
            },
            ElementKind::Text(t) => {
                queue.push(
                    GraphicOperation::DrawText {
                        position: pos,
                        text: t.val.clone(),
                        color: Rgb::white(),
                    },
                );
                proof {
                    assert(queue@ =~= old(queue)@ + spec_element_ops(self@, size, pos));
                }
            },
            ElementKind::Number(n) => {
                queue.push(
                    GraphicOperation::DrawText {
                        position: pos,
                        text: i32_to_string(n.val),
                        color: Rgb::white(),
                    },
                );
                proof {
                    assert(queue@ =~= old(queue)@ + spec_element_ops(self@, size, pos));
                }
            },
            ElementKind::Style(sty) => {
                if let Some(color) = sty.style.background {
                    queue.push(
                        GraphicOperation::DrawRectangle {
                            rect: Rectangle::new(
                                sty.background_offset().wrapping_add(pos),
                                sty.background_size(size),
                            ),
                            color,
                        },
                    );
                }
                if !sty.style.border.size.is_empty() {
                    let area = sty.border_size(size);
                    let origin = sty.border_offset().wrapping_add(pos);
                    let edges = sty.style.border.size;
                    queue.push(
                        GraphicOperation::DrawRectangle {
                            rect: Rectangle::new(origin, Size::new(edges.left, area.height)),
                            color: sty.style.border.color,
                        },
                    );
                    queue.push(
                        GraphicOperation::DrawRectangle {
                            rect: Rectangle::new(
                                origin.wrapping_add(
                                    Point::new(
                                        (area.width as i32).wrapping_sub(edges.right as i32),
                                        0,
                                    ),
                                ),
                                Size::new(edges.right, area.height),
                            ),
                            color: sty.style.border.color,
                        },
                    );
                    queue.push(
                        GraphicOperation::DrawRectangle {
                            rect: Rectangle::new(origin, Size::new(area.width, edges.top)),
                            color: sty.style.border.color,
                        },
                    );
                    queue.push(
                        GraphicOperation::DrawRectangle {
                            rect: Rectangle::new(
                                origin.wrapping_add(
                                    Point::new(
                                        0,
                                        (area.height as i32).wrapping_sub(edges.bottom as i32),
                                    ),
                                ),
                                Size::new(area.width, edges.bottom),
                            ),
                            color: sty.style.border.color,
                        },
                    );
                }
                proof {
                    assert(queue@ =~= old(queue)@ + spec_element_ops(self@, size, pos));
                }
            },
            _ => {
                proof {
                    assert(queue@ =~= old(queue)@ + spec_element_ops(self@, size, pos));
                }
            },
        }
    }

    /// The textual flattening of this element, for inspection and tests.
    #[verifier::loop_isolation(false)]
    pub fn to_string(&self) -> (s: String)
        ensures
            s@ == spec_to_string(self@),
        decreases *self,
    {
        match self {
            ElementKind::Text(t) => t.val.clone(),
            ElementKind::Number(n) => i32_to_string(n.val),
            ElementKind::Stack(st) => {
                let ghost models = elems_model(st.items@);
                let mut out = String::from_str("[");
                let mut i: usize = 0;
                proof {
                    lemma_elems_model_len(st.items@);
                    reveal_strlit("[");
                    reveal_strlit("]");
                    reveal_strlit(", ");
                    assert(models.take(0) =~= Seq::<ElementModel>::empty());
                    assert(out@ =~= seq!['['] + spec_join_items(models.take(0)));
                }
                while i < st.items.len()
                    invariant
                        i <= st.items.len(),
                        models == elems_model(st.items@),
                        out@ == seq!['['] + spec_join_items(models.take(i as int)),
                    decreases st.items.len() - i,
                {
                    proof {
                        assert(*self == ElementKind::Stack(*st));
                        assert(decreases_to!(ElementKind::Stack(*st) => *st));
                        assert(decreases_to!(*st => st.items));
                        assert(decreases_to!(st.items => st.items@));
                        assert(decreases_to!(st.items@ => st.items@[i as int]));
                    }
                    if i > 0 {
                        out.append(", ");
                    }
                    let part = st.items[i].to_string();
                    out.append(part.as_str());
                    proof {
                        lemma_join_push(models.take(i as int), models[i as int]);
                        assert(models.take(i as int).push(models[i as int]) =~= models.take(
                            i as int + 1,
                        ));
                        assert(out@ =~= seq!['['] + spec_join_items(models.take(i as int + 1)));
                    }
                    i = i + 1;
                }
                out.append("]");
                proof {
                    assert(models.take(i as int) =~= models);
                    assert(out@ =~= spec_to_string(self@));
                }
                out
            },
            ElementKind::ListSelector(ls) => {
                proof {
                    lemma_elems_model_len(ls.items@);
                }
                if ls.selected < ls.items.len() {
                    proof {
                        assert(*self == ElementKind::ListSelector(*ls));
                        assert(decreases_to!(ElementKind::ListSelector(*ls) => *ls));
                        assert(decreases_to!(*ls => ls.items));
                        assert(decreases_to!(ls.items => ls.items@));
                        assert(decreases_to!(ls.items@ => ls.items@[ls.selected as int]));
                    }
                    ls.items[ls.selected].to_string()
                } else {
                    String::new()
                }
            },
            ElementKind::Style(sty) => sty.child.to_string(),
            ElementKind::Align(al) => al.child.to_string(),
            ElementKind::Handler(h) => h.child.to_string(),
            _ => String::new(),
        }
    }
}

} // verus!
