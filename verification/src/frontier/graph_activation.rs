//! How a coordinator brings a graph to its members: it is sent until all have
//! stored it, and then its plan is announced.

use crate::base::ids::{JobId, NodeId};
use crate::base::members::{ascending, filter_other_than, NodeSet};
use crate::base::search::other_than;
use crate::frontier::control::V4IntegratedAck;
use crate::frontier::types::{V4ExecutionGraph, V4ExecutionGraphView};
use vstd::prelude::*;

verus! {

/// Where the activation of a graph stands.
#[derive(Clone, Copy, Debug, PartialEq, Eq, Structural)]
pub enum GraphStep {
    /// The graph is on its way.
    Sending,
    /// The members have to answer.
    Answers,
    /// The members have to take the plan of the graph.
    Announcing,
    Over,
}

/// A running activation of a graph.
#[derive(Debug)]
pub struct GraphActivation {
    pub job_id: JobId,
    pub graph_generation: u64,
    /// Who has not stored the graph yet.
    pub pending: NodeSet,
    pub step: GraphStep,
}

/// The contents of a [`GraphActivation`].
#[verifier::ext_equal]
pub struct GraphActivationView {
    pub job_id: JobId,
    pub graph_generation: u64,
    pub pending: Set<NodeId>,
    pub step: GraphStep,
}

impl View for GraphActivation {
    type V = GraphActivationView;

    open spec fn view(&self) -> GraphActivationView {
        GraphActivationView {
            job_id: self.job_id,
            graph_generation: self.graph_generation,
            pending: self.pending@,
            step: self.step,
        }
    }
}

/// What comes to the activation of a graph.
#[derive(Clone, Copy, Debug, PartialEq, Eq, Structural)]
pub enum GraphEvent {
    /// The graph has been sent.
    Sent,
    /// An answer came from a peer.
    Ack(NodeId, V4IntegratedAck),
    OtherMessage,
    /// It is time to send the graph again.
    RetryDue,
    /// The time for answers is over.
    TimeOver,
    /// No message can come any more.
    Closed,
    /// Whether all members have taken the plan.
    PlanTaken(bool),
}

/// Why a graph does not come into force.
#[derive(Clone, Copy, Debug, PartialEq, Eq, Structural)]
pub enum GraphActivationError {
    /// This many members have not stored the graph.
    Missing(usize),
    Closed,
    /// Not every member has taken the plan.
    PlanNotTaken,
}

/// What the activation of a graph does next.
#[derive(Debug, PartialEq, Eq)]
pub enum GraphAction {
    /// Send the graph to these members.
    Send(Vec<NodeId>),
    /// Wait for a message.
    Wait,
    /// Announce the plan of the graph to its members.
    AnnouncePlan,
    /// The graph and its plan are with every member.
    InForce,
    Fail(GraphActivationError),
    /// The event was not awaited.
    Ignore,
}

/// The contents of a [`GraphAction`].
pub enum GraphActionView {
    Send(Seq<NodeId>),
    Wait,
    AnnouncePlan,
    InForce,
    Fail(GraphActivationError),
    Ignore,
}

impl View for GraphAction {
    type V = GraphActionView;

    open spec fn view(&self) -> GraphActionView {
        match self {
            GraphAction::Send(members) => GraphActionView::Send(members@),
            GraphAction::Wait => GraphActionView::Wait,
            GraphAction::AnnouncePlan => GraphActionView::AnnouncePlan,
            GraphAction::InForce => GraphActionView::InForce,
            GraphAction::Fail(error) => GraphActionView::Fail(*error),
            GraphAction::Ignore => GraphActionView::Ignore,
        }
    }
}

/// The peer answers for itself that it has stored the graph.
pub open spec fn stores_graph(a: GraphActivationView, peer: NodeId, ack: V4IntegratedAck) -> bool {
    &&& ack.accepted
    &&& ack.job_id == a.job_id
    &&& ack.graph_generation == a.graph_generation
    &&& ack.worker == peer
}

/// The graph goes to everyone who has not stored it.
pub open spec fn graph_sent(a: GraphActivationView) -> (GraphActivationView, GraphActionView) {
    (
        GraphActivationView { step: GraphStep::Sending, ..a },
        GraphActionView::Send(ascending(a.pending)),
    )
}

/// Everyone has stored the graph, so its plan follows; or someone is awaited.
pub open spec fn graph_awaited(a: GraphActivationView) -> (GraphActivationView, GraphActionView) {
    if a.pending == Set::<NodeId>::empty() {
        (
            GraphActivationView { step: GraphStep::Announcing, ..a },
            GraphActionView::AnnouncePlan,
        )
    } else {
        (GraphActivationView { step: GraphStep::Answers, ..a }, GraphActionView::Wait)
    }
}

/// The activation ends.
pub open spec fn graph_ended(a: GraphActivationView, action: GraphActionView) -> (
    GraphActivationView,
    GraphActionView,
) {
    (GraphActivationView { step: GraphStep::Over, ..a }, action)
}

/// The activation of a graph starts: every other member has to store it.
pub open spec fn fresh_graph_activation(graph: V4ExecutionGraphView, node: NodeId) -> (
    GraphActivationView,
    GraphActionView,
) {
    let a = GraphActivationView {
        job_id: graph.job_id,
        graph_generation: graph.graph_generation,
        pending: graph.workers.filter(other_than(node)).to_set(),
        step: GraphStep::Over,
    };
    if a.pending == Set::<NodeId>::empty() {
        graph_awaited(a)
    } else {
        graph_sent(a)
    }
}

/// The next step of the activation of a graph.
pub open spec fn graph_stepped(a: GraphActivationView, event: GraphEvent) -> (
    GraphActivationView,
    GraphActionView,
) {
    match (a.step, event) {
        (GraphStep::Sending, GraphEvent::Sent) => (
            GraphActivationView { step: GraphStep::Answers, ..a },
            GraphActionView::Wait,
        ),
        (GraphStep::Answers, GraphEvent::Ack(peer, ack)) => graph_awaited(
            if stores_graph(a, peer, ack) {
                GraphActivationView { pending: a.pending.remove(peer), ..a }
            } else {
                a
            },
        ),
        (GraphStep::Answers, GraphEvent::OtherMessage) => (a, GraphActionView::Wait),
        (GraphStep::Answers, GraphEvent::RetryDue) => graph_sent(a),
        (GraphStep::Answers, GraphEvent::TimeOver) => graph_ended(
            a,
            GraphActionView::Fail(GraphActivationError::Missing(a.pending.len() as usize)),
        ),
        (GraphStep::Answers, GraphEvent::Closed) => graph_ended(
            a,
            GraphActionView::Fail(GraphActivationError::Closed),
        ),
        (GraphStep::Announcing, GraphEvent::PlanTaken(taken)) => graph_ended(
            a,
            if taken {
                GraphActionView::InForce
            } else {
                GraphActionView::Fail(GraphActivationError::PlanNotTaken)
            },
        ),
        _ => (a, GraphActionView::Ignore),
    }
}

fn send_graph(a: &mut GraphActivation) -> (r: GraphAction)
    ensures
        (final(a)@, r@) == graph_sent(old(a)@),
{
    a.step = GraphStep::Sending;
    GraphAction::Send(a.pending.to_sorted())
}

fn await_graph(a: &mut GraphActivation) -> (r: GraphAction)
    ensures
        (final(a)@, r@) == graph_awaited(old(a)@),
{
    if a.pending.is_empty() {
        a.step = GraphStep::Announcing;
        GraphAction::AnnouncePlan
    } else {
        a.step = GraphStep::Answers;
        GraphAction::Wait
    }
}

/// Start to bring a graph to its members.
pub fn begin_graph_activation(graph: &V4ExecutionGraph, node: NodeId) -> (r: (
    GraphActivation,
    GraphAction,
))
    ensures
        (r.0@, r.1@) == fresh_graph_activation(graph@, node),
{
    let others = filter_other_than(&graph.workers, node);
    let mut a = GraphActivation {
        job_id: graph.job_id,
        graph_generation: graph.graph_generation,
        pending: NodeSet::from_ids(&others),
        step: GraphStep::Over,
    };
    let action = if a.pending.is_empty() {
        await_graph(&mut a)
    } else {
        send_graph(&mut a)
    };
    (a, action)
}

/// Take the activation of a graph one step on.
pub fn activate_integrated_graph(a: &mut GraphActivation, event: GraphEvent) -> (r: GraphAction)
    ensures
        (final(a)@, r@) == graph_stepped(old(a)@, event),
{
    match (a.step, event) {
        (GraphStep::Sending, GraphEvent::Sent) => {
            a.step = GraphStep::Answers;
            GraphAction::Wait
        },
        (GraphStep::Answers, GraphEvent::Ack(peer, ack)) => {
            if ack.accepted && ack.job_id == a.job_id && ack.graph_generation == a.graph_generation
                && ack.worker == peer {
                a.pending.remove(peer);
            }
            await_graph(a)
        },
        (GraphStep::Answers, GraphEvent::OtherMessage) => GraphAction::Wait,
        (GraphStep::Answers, GraphEvent::RetryDue) => send_graph(a),
        (GraphStep::Answers, GraphEvent::TimeOver) => {
            a.step = GraphStep::Over;
            GraphAction::Fail(GraphActivationError::Missing(a.pending.len()))
        },
        (GraphStep::Answers, GraphEvent::Closed) => {
            a.step = GraphStep::Over;
            GraphAction::Fail(GraphActivationError::Closed)
        },
        (GraphStep::Announcing, GraphEvent::PlanTaken(taken)) => {
            a.step = GraphStep::Over;
            if taken {
                GraphAction::InForce
            } else {
                GraphAction::Fail(GraphActivationError::PlanNotTaken)
            }
        },
        _ => GraphAction::Ignore,
    }
}

/// The activation of a graph after a run of events.
pub open spec fn graph_run(
    a: GraphActivationView,
    events: Seq<GraphEvent>,
) -> GraphActivationView
    decreases events.len(),
{
    if events.len() == 0 {
        a
    } else {
        graph_stepped(graph_run(a, events.drop_last()), events.last()).0
    }
}

/// The event is the answer of `peer` that it has stored the graph.
pub open spec fn stored_by(a: GraphActivationView, peer: NodeId, event: GraphEvent) -> bool {
    match event {
        GraphEvent::Ack(from, ack) => from == peer && stores_graph(a, from, ack),
        _ => false,
    }
}

/// A peer answered somewhere in a run that it has stored the graph.
pub open spec fn has_stored(a: GraphActivationView, peer: NodeId, events: Seq<GraphEvent>) -> bool {
    exists|i: int| 0 <= i < events.len() && stored_by(a, peer, #[trigger] events[i])
}

/// What a run of an activation has behind it.
pub open spec fn accounted(
    start: GraphActivationView,
    events: Seq<GraphEvent>,
    a: GraphActivationView,
) -> bool {
    &&& a.job_id == start.job_id
    &&& a.graph_generation == start.graph_generation
    &&& a.step == GraphStep::Announcing ==> a.pending == Set::<NodeId>::empty()
    &&& forall|p: NodeId| #[trigger]
        start.pending.contains(p) ==> a.pending.contains(p) || has_stored(start, p, events)
}

proof fn lemma_activation_accounted(start: GraphActivationView, events: Seq<GraphEvent>)
    requires
        start.step == GraphStep::Announcing ==> start.pending == Set::<NodeId>::empty(),
    ensures
        accounted(start, events, graph_run(start, events)),
    decreases events.len(),
{
    if events.len() > 0 {
        let before = events.drop_last();
        lemma_activation_accounted(start, before);
        let a = graph_run(start, before);
        let next = graph_run(start, events);
        assert(events[events.len() - 1] == events.last());
        assert forall|p: NodeId| #[trigger] start.pending.contains(p) implies (
        next.pending.contains(p) || has_stored(start, p, events)) by {
            if has_stored(start, p, before) {
                let i = choose|i: int| 0 <= i < before.len() && stored_by(start, p, #[trigger]
                    before[i]);
                assert(events[i] == before[i]);
            } else if !next.pending.contains(p) {
                assert(stored_by(start, p, events.last()));
            }
        }
    }
}

/// A graph comes into force only when every member but this node has stored it
/// and all have taken its plan.
pub proof fn law_graph_is_with_every_member(
    graph: V4ExecutionGraphView,
    node: NodeId,
    events: Seq<GraphEvent>,
    event: GraphEvent,
    peer: NodeId,
)
    requires
        graph.workers.contains(peer),
        peer != node,
        graph_stepped(graph_run(fresh_graph_activation(graph, node).0, events), event).1 is InForce,
    ensures
        has_stored(fresh_graph_activation(graph, node).0, peer, events),
        event == GraphEvent::PlanTaken(true),
{
    let start = fresh_graph_activation(graph, node).0;
    lemma_activation_accounted(start, events);
    crate::base::search::lemma_filter_contains(graph.workers, other_than(node));
    assert(graph.workers.filter(other_than(node)).contains(peer));
    assert(start.pending.contains(peer));
}

/// A graph goes to every member but this node; an answer counts when the peer itself
/// accepts this graph; its plan follows once nobody is pending, and the graph is in force
/// once that is taken.
pub proof fn law_graph_goes_to_every_member(
    graph: V4ExecutionGraphView,
    node: NodeId,
    a: GraphActivationView,
    peer: NodeId,
    ack: V4IntegratedAck,
)
    requires
        a.pending.finite(),
    ensures
        ({
            let (fresh, action) = fresh_graph_activation(graph, node);
            &&& fresh.job_id == graph.job_id && fresh.graph_generation == graph.graph_generation
            &&& fresh.pending.contains(peer) <==> graph.workers.contains(peer) && peer != node
        }),
        a.step is Answers ==> ({
            let (after, action) = graph_stepped(a, GraphEvent::Ack(peer, ack));
            let good = ack.accepted && ack.worker == peer && ack.job_id == a.job_id
                && ack.graph_generation == a.graph_generation;
            &&& good ==> after.pending == a.pending.remove(peer)
            &&& !good ==> after.pending == a.pending
            &&& action is AnnouncePlan <==> after.pending == Set::<NodeId>::empty()
            &&& !(action is AnnouncePlan) ==> action is Wait
        }),
        a.step is Answers ==> ({
            let (after, action) = graph_stepped(a, GraphEvent::RetryDue);
            action is Send && (action->Send_0.contains(peer) <==> a.pending.contains(peer))
        }),
        a.step is Answers && a.pending.len() <= usize::MAX ==> graph_stepped(
            a,
            GraphEvent::TimeOver,
        ).1 == GraphActionView::Fail(GraphActivationError::Missing(a.pending.len() as usize)),
        a.step is Announcing ==> graph_stepped(a, GraphEvent::PlanTaken(true)).1 is InForce
            && graph_stepped(a, GraphEvent::PlanTaken(false)).1 == GraphActionView::Fail(
            GraphActivationError::PlanNotTaken,
        ),
{
    let others = graph.workers.filter(other_than(node));
    crate::base::search::lemma_filter_contains(graph.workers, other_than(node));
    assert(others.contains(peer) <==> others.to_set().contains(peer));
    crate::base::members::lemma_ascending_exists(a.pending);
    let asked = ascending(a.pending);
    assert(asked.contains(peer) <==> asked.to_set().contains(peer));
}

} // verus!
