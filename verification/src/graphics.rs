//! Abstract draw operations and the queue that collects one paint pass.

use vstd::prelude::*;

use crate::utils::geometry::Point;
use crate::utils::geometry::Rectangle;
use crate::utils::geometry::Rgb;

verus! {

/// One primitive draw command, replayed later against a concrete surface.
#[derive(Clone, Debug, PartialEq)]
pub enum GraphicOperation {
    DrawRectangle { rect: Rectangle, color: Rgb },
    DrawText { position: Point, text: String, color: Rgb },
}

/// The abstract value of one draw command.
pub enum GraphicOperationModel {
    DrawRectangle { rect: Rectangle, color: Rgb },
    DrawText { position: Point, text: Seq<char>, color: Rgb },
}

impl View for GraphicOperation {
    type V = GraphicOperationModel;

    open spec fn view(&self) -> GraphicOperationModel {
        match self {
            GraphicOperation::DrawRectangle { rect, color } => GraphicOperationModel::DrawRectangle {
                rect: *rect,
                color: *color,
            },
            GraphicOperation::DrawText { position, text, color } => GraphicOperationModel::DrawText {
                position: *position,
                text: text@,
                color: *color,
            },
        }
    }
}

/// The abstract values of a sequence of draw commands, in order.
pub open spec fn ops_model(ops: Seq<GraphicOperation>) -> Seq<GraphicOperationModel> {
    Seq::new(ops.len(), |i: int| ops[i]@)
}

/// An ordered queue of draw operations, filled during one paint pass in
/// child-before-sibling order and drained exactly once by the endpoint.
pub struct GraphicOperationQueue {
    operations: Vec<GraphicOperation>,
}

impl View for GraphicOperationQueue {
    type V = Seq<GraphicOperationModel>;

    /// The operations pushed so far, oldest first.
    closed spec fn view(&self) -> Seq<GraphicOperationModel> {
        ops_model(self.operations@)
    }
}

impl GraphicOperationQueue {
    pub fn new() -> (q: GraphicOperationQueue)
        ensures
            q@ == Seq::<GraphicOperationModel>::empty(),
    {
        let q = GraphicOperationQueue { operations: Vec::new() };
        proof {
            assert(q@ =~= Seq::<GraphicOperationModel>::empty());
        }
        q
    }

    pub fn push(&mut self, operation: GraphicOperation)
        ensures
            final(self)@ == old(self)@.push(operation@),
    {
        self.operations.push(operation);
        proof {
            assert(self@ =~= old(self)@.push(operation@));
        }
    }

    /// Hands out every queued operation in emission order and leaves the
    /// queue empty.
    pub fn drain(&mut self) -> (ops: Vec<GraphicOperation>)
        ensures
            ops_model(ops@) == old(self)@,
            final(self)@ == Seq::<GraphicOperationModel>::empty(),
    {
        let mut taken: Vec<GraphicOperation> = Vec::new();
        core::mem::swap(&mut taken, &mut self.operations);
        proof {
            assert(self@ =~= Seq::<GraphicOperationModel>::empty());
        }
        taken
    }
}

/// The external consumer of finished operation queues; implementations
/// translate the abstract operations into pixel writes on some surface.
/// `spec_flushed` mirrors the queues the endpoint has been handed, so a
/// caller's contract can say exactly what it flushed; an implementation
/// overrides it together with `draw_queue`.
pub trait GraphicsEndpoint: Sized {
    /// The abstract values of the queues handed to this endpoint so far,
    /// oldest first.
    open spec fn spec_flushed(&self) -> Seq<Seq<GraphicOperationModel>> {
        Seq::empty()
    }

    fn draw_queue(&mut self, queue: GraphicOperationQueue)
        ensures
            final(self).spec_flushed() == old(self).spec_flushed().push(queue@),
    ;
}

/// An endpoint that keeps every queue it is handed, in order: the
/// reference implementation of the endpoint contract, and a test sink.
pub struct RecordingEndpoint {
    pub queues: Vec<Vec<GraphicOperation>>,
}

impl RecordingEndpoint {
    pub fn new() -> (r: RecordingEndpoint)
        ensures
            r.spec_flushed() == Seq::<Seq<GraphicOperationModel>>::empty(),
            r.queues@ == Seq::<Vec<GraphicOperation>>::empty(),
    {
        let r = RecordingEndpoint { queues: Vec::new() };
        proof {
            assert(r.spec_flushed() =~= Seq::<Seq<GraphicOperationModel>>::empty());
        }
        r
    }
}

impl GraphicsEndpoint for RecordingEndpoint {
    open spec fn spec_flushed(&self) -> Seq<Seq<GraphicOperationModel>> {
        Seq::new(self.queues@.len(), |i: int| ops_model(self.queues@[i]@))
    }

    fn draw_queue(&mut self, queue: GraphicOperationQueue) {
        let mut incoming = queue;
        let ops = incoming.drain();
        self.queues.push(ops);
        proof {
            assert(self.spec_flushed() =~= old(self).spec_flushed().push(queue@));
        }
    }
}

} // verus!
