//! The application driver: owns the state, the root element and the last
//! render tree, and runs the render/paint and event/mutate loops.

use vstd::prelude::*;

use crate::defs::Element;
use crate::defs::GeneratorId;
use crate::defs::RenderNode;
use crate::defs::State;
use crate::defs::GENERATION_LIMIT;
use crate::elements::component::Component;
use crate::event::Event;
use crate::graphics::GraphicOperationQueue;
use crate::graphics::GraphicsEndpoint;
use crate::model::lemma_nodes_model_len;
use crate::model::lemma_paint_children_push;
use crate::model::nodes_model;
use crate::model::spec_dispatch;
use crate::model::spec_dispatch_children;
use crate::model::spec_paint_children;
use crate::model::spec_paint_node;
use crate::model::spec_render;
use crate::model::spec_to_string;
use crate::model::ElementModel;
use crate::model::RenderModel;
use crate::utils::constraints::Constraints;
use crate::utils::geometry::Point;
use crate::utils::geometry::Size;

verus! {

/// The runner: the single owner of the application state. It keeps the
/// render tree of the current state and re-renders it wholesale whenever
/// a dispatched event is consumed.
pub struct App<S: State, U: GraphicsEndpoint> {
    state: S,
    root: Element,
    last_render_tree: RenderNode,
    inital_size: Size,
    pub endpoint: U,
}

impl<S: State, U: GraphicsEndpoint> App<S, U> {
    /// The current state value.
    pub closed spec fn spec_state(&self) -> S {
        self.state
    }

    /// The root element's abstract value.
    pub closed spec fn spec_root(&self) -> ElementModel {
        self.root@
    }

    /// The abstract value of the render tree kept from the last pass.
    pub closed spec fn spec_tree(&self) -> RenderModel {
        self.last_render_tree@
    }

    /// The screen size every render pass is constrained by.
    pub closed spec fn spec_size(&self) -> Size {
        self.inital_size
    }

    /// The endpoint the painted queues are flushed to.
    pub closed spec fn spec_endpoint(&self) -> U {
        self.endpoint
    }

    /// Builds the runner: the initial state, a component root around the
    /// given generator, and the render tree of the initial state. The
    /// state the runner starts from is a possible result of
    /// `S::initial()`, so whatever an implementation's own ensures say of
    /// that value holds of the fresh runner.
    pub fn new(root: GeneratorId, inital_size: Size, endpoint: U) -> (app: App<S, U>)
        ensures
            S::initial.ensures((), app.spec_state()),
            app.spec_root() == (ElementModel::Component { generator: root }),
            app.spec_size() == inital_size,
            app.spec_tree() == spec_render(
                ElementModel::Component { generator: root },
                Constraints { min: (Size { width: 0u32, height: 0u32 }), max: inital_size },
                app.spec_state(),
                GENERATION_LIMIT as nat,
            ).1,
            app.spec_endpoint() == endpoint,
    {
        let state = S::initial();
        let root = Component::new(root);
        let r = root.render(
            Constraints { min: Size::zero(), max: inital_size },
            &state,
        );
        App { root, state, inital_size, last_render_tree: r.1, endpoint }
    }

    /// Pre-order dispatch over a render tree: each node's renderer sees
    /// the event before the node's child, siblings are tried in order,
    /// and the walk stops at the first consumer. An event that nothing
    /// consumed leaves the state untouched.
    #[verifier::loop_isolation(false)]
    fn handle_event_recursive(state: &mut S, event: Event, render_root: &RenderNode) -> (consumed:
        bool)
        ensures
            (*final(state), consumed) == spec_dispatch(
                render_root@,
                *old(state),
                event,
                GENERATION_LIMIT as nat,
            ),
            !consumed ==> *final(state) == *old(state),
        decreases *render_root,
    {
        match render_root {
            RenderNode::SingleChild { offset: _, size: _, renderer, child } => {
                if renderer.event_handler(state, event) {
                    return true;
                }
                Self::handle_event_recursive(state, event, child)
            },
            RenderNode::MultiChild { offset: _, size: _, child } => {
                let ghost whole = *state;
                let ghost models = nodes_model(child@);
                proof {
                    lemma_nodes_model_len(child@);
                    assert(models.skip(0) =~= models);
                }
                let mut consumed = false;
                let mut i: usize = 0;
                while i < child.len() && !consumed
                    invariant
                        i <= child.len(),
                        !consumed ==> *state == whole,
                        consumed ==> spec_dispatch_children(
                            models,
                            whole,
                            event,
                            GENERATION_LIMIT as nat,
                        ) == (*state, true),
                        !consumed ==> spec_dispatch_children(
                            models,
                            whole,
                            event,
                            GENERATION_LIMIT as nat,
                        ) == spec_dispatch_children(
                            models.skip(i as int),
                            *state,
                            event,
                            GENERATION_LIMIT as nat,
                        ),
                    decreases child.len() - i,
                {
                    proof {
                        assert(decreases_to!(*render_root => *child));
                        assert(decreases_to!(*child => child@));
                        assert(decreases_to!(child@ => child@[i as int]));
                        assert(models.skip(i as int)[0] == models[i as int]);
                        assert(models.skip(i as int).drop_first() =~= models.skip(i as int + 1));
                    }
                    consumed = Self::handle_event_recursive(state, event, &child[i]);
                    i = i + 1;
                }
                proof {
                    if !consumed {
                        assert(models.skip(i as int) =~= Seq::<RenderModel>::empty());
                    }
                }
                consumed
            },
            RenderNode::Leaf => false,
        }
    }

    /// The paint walk: accumulates absolute offsets, lets each node's
    /// renderer paint at its absolute position, then paints the node's
    /// children, siblings in order.
    #[verifier::loop_isolation(false)]
    fn paint(node: &RenderNode, target: &mut GraphicOperationQueue, origin_offset: Point)
        ensures
            final(target)@ == old(target)@ + spec_paint_node(node@, origin_offset),
        decreases *node,
    {
        match node {
            RenderNode::SingleChild { offset, size, renderer, child } => {
                let new_offset = origin_offset.wrapping_add(*offset);
                renderer.paint(*size, new_offset, target);
                Self::paint(child, target, new_offset);
                proof {
                    assert(target@ =~= old(target)@ + spec_paint_node(node@, origin_offset));
                }
            },
            RenderNode::MultiChild { offset, size: _, child } => {
                let new_offset = origin_offset.wrapping_add(*offset);
                let ghost models = nodes_model(child@);
                proof {
                    lemma_nodes_model_len(child@);
                    assert(models.take(0) =~= Seq::<RenderModel>::empty());
                    assert(target@ =~= old(target)@ + spec_paint_children(
                        models.take(0),
                        new_offset,
                    ));
                }
                let mut i: usize = 0;
                while i < child.len()
                    invariant
                        i <= child.len(),
                        target@ == old(target)@ + spec_paint_children(
                            models.take(i as int),
                            new_offset,
                        ),
                    decreases child.len() - i,
                {
                    proof {
                        assert(decreases_to!(*node => *child));
                        assert(decreases_to!(*child => child@));
                        assert(decreases_to!(child@ => child@[i as int]));
                    }
                    Self::paint(&child[i], target, new_offset);
                    proof {
                        lemma_paint_children_push(models.take(i as int), models[i as int],
                            new_offset);
                        assert(models.take(i as int).push(models[i as int]) =~= models.take(
                            i as int + 1,
                        ));
                        assert(target@ =~= old(target)@ + spec_paint_children(
                            models.take(i as int + 1),
                            new_offset,
                        ));
                    }
                    i = i + 1;
                }
                proof {
                    assert(models.take(i as int) =~= models);
                }
            },
            RenderNode::Leaf => {},
        }
    }

    /// The textual flattening of the root element.
    pub fn to_string(&self) -> (s: String)
        ensures
            s@ == spec_to_string(self.spec_root()),
    {
        self.root.to_string()
    }

    /// Delivers one event into the render tree of the last pass and
    /// reports whether some node consumed it. On a consumed event the
    /// render tree is rebuilt wholesale against the mutated state; an
    /// event that nothing consumed leaves the whole runner untouched.
    pub fn handle_event(&mut self, event: Event) -> (consumed: bool)
        ensures
            consumed == spec_dispatch(
                old(self).spec_tree(),
                old(self).spec_state(),
                event,
                GENERATION_LIMIT as nat,
            ).1,
            !consumed ==> *final(self) == *old(self),
            final(self).spec_state() == spec_dispatch(
                old(self).spec_tree(),
                old(self).spec_state(),
                event,
                GENERATION_LIMIT as nat,
            ).0,
            spec_dispatch(
                old(self).spec_tree(),
                old(self).spec_state(),
                event,
                GENERATION_LIMIT as nat,
            ).1 ==> final(self).spec_tree() == spec_render(
                old(self).spec_root(),
                Constraints {
                    min: (Size { width: 0u32, height: 0u32 }),
                    max: old(self).spec_size(),
                },
                final(self).spec_state(),
                GENERATION_LIMIT as nat,
            ).1,
            final(self).spec_root() == old(self).spec_root(),
            final(self).spec_size() == old(self).spec_size(),
            final(self).spec_endpoint() == old(self).spec_endpoint(),
    {
        let mut swap_tree = RenderNode::Leaf;
        core::mem::swap(&mut swap_tree, &mut self.last_render_tree);
        if Self::handle_event_recursive(&mut self.state, event, &swap_tree) {
            let r = self.root.render(
                Constraints { min: Size::zero(), max: self.inital_size },
                &self.state,
            );
            self.last_render_tree = r.1;
            true
        } else {
            core::mem::swap(&mut swap_tree, &mut self.last_render_tree);
            false
        }
    }

    /// One frame: paints the render tree of the last pass into a fresh
    /// operation queue and hands exactly that queue to the endpoint. The
    /// runner's own state, root and tree are untouched, so repeated
    /// frames with no intervening consumed event flush equal queues.
    pub fn draw(&mut self)
        ensures
            final(self).spec_state() == old(self).spec_state(),
            final(self).spec_root() == old(self).spec_root(),
            final(self).spec_tree() == old(self).spec_tree(),
            final(self).spec_size() == old(self).spec_size(),
            final(self).spec_endpoint().spec_flushed() == old(
                self,
            ).spec_endpoint().spec_flushed().push(
                spec_paint_node(old(self).spec_tree(), (Point { x: 0i32, y: 0i32 })),
            ),
    {
        let mut queue = GraphicOperationQueue::new();
        Self::paint(&self.last_render_tree, &mut queue, Point::new(0, 0));
        proof {
            assert(queue@ =~= spec_paint_node(self.last_render_tree@, (Point { x: 0i32, y: 0i32 })));
        }
        self.endpoint.draw_queue(queue);
    }
}

/// An event that nothing consumed leaves the runner's observable output
/// untouched: the painted operations and the textual flattening after the
/// dispatch are identical to the ones before, because an unconsumed event
/// keeps the whole runner — state, render tree and root — and both
/// outputs are functions of the tree and the root alone.
pub proof fn lemma_unhandled_event_output<S: State, U: GraphicsEndpoint>(
    pre: App<S, U>,
    post: App<S, U>,
    event: Event,
)
    requires
        !spec_dispatch(pre.spec_tree(), pre.spec_state(), event, GENERATION_LIMIT as nat).1,
        post.spec_tree() == pre.spec_tree(),
        post.spec_root() == pre.spec_root(),
    ensures
        spec_paint_node(post.spec_tree(), (Point { x: 0i32, y: 0i32 })) == spec_paint_node(
            pre.spec_tree(),
            (Point { x: 0i32, y: 0i32 }),
        ),
        spec_to_string(post.spec_root()) == spec_to_string(pre.spec_root()),
{
}

} // verus!
