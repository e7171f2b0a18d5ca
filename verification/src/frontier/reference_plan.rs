//! How the workers of a reference operation are brought to take its plan.

use crate::base::ids::NodeId;
use crate::base::members::{contains_id, filter_other_than, filter_outside, NodeSet};
use crate::base::search::{other_than, outside};
use crate::frontier::local::V4PlanAck;
use crate::frontier::types::{V4TrainingPlan, V4TrainingPlanView};
use vstd::prelude::*;

verus! {

/// How often the participants of a reference plan are asked.
pub const REFERENCE_ATTEMPTS: usize = 3;

/// Where the wait for a reference plan stands.
#[derive(Clone, Copy, Debug, PartialEq, Eq, Structural)]
pub enum ReferenceStep {
    /// The plan is on its way.
    Notifying,
    /// The participants have to answer.
    Answers,
    Over,
}

/// A wait for the participants of a reference plan.
#[derive(Debug)]
pub struct ReferenceWait {
    /// Everyone who is to accept the plan.
    pub participants: Vec<NodeId>,
    /// Everyone who has accepted it.
    pub acknowledged: NodeSet,
    pub attempt: usize,
    pub step: ReferenceStep,
}

/// The contents of a [`ReferenceWait`].
#[verifier::ext_equal]
pub struct ReferenceWaitView {
    pub participants: Seq<NodeId>,
    pub acknowledged: Set<NodeId>,
    pub attempt: usize,
    pub step: ReferenceStep,
}

impl View for ReferenceWait {
    type V = ReferenceWaitView;

    open spec fn view(&self) -> ReferenceWaitView {
        ReferenceWaitView {
            participants: self.participants@,
            acknowledged: self.acknowledged@,
            attempt: self.attempt,
            step: self.step,
        }
    }
}

/// What comes while the participants of a reference plan are awaited.
#[derive(Clone, Copy, Debug, PartialEq, Eq, Structural)]
pub enum ReferenceEvent {
    /// The plan has been sent.
    Notified,
    /// An answer came from a peer.
    Ack(NodeId, V4PlanAck),
    OtherMessage,
    /// The time of the attempt is over, or no message can come in it.
    AttemptOver,
}

/// What is to be done about a reference plan.
#[derive(Debug, PartialEq, Eq)]
pub enum ReferenceAction {
    /// These are to be told of it, over a new connection where `reconnect` says so.
    Notify { workers: Vec<NodeId>, reconnect: bool },
    /// Wait for a message.
    Wait,
    /// Everyone has accepted it.
    Ready,
    /// A participant refused it.
    Refused(NodeId),
    /// Not everyone has answered in time.
    TimedOut,
    /// The event was not awaited.
    Ignore,
}

/// The contents of a [`ReferenceAction`].
pub enum ReferenceActionView {
    Notify { workers: Seq<NodeId>, reconnect: bool },
    Wait,
    Ready,
    Refused(NodeId),
    TimedOut,
    Ignore,
}

impl View for ReferenceAction {
    type V = ReferenceActionView;

    open spec fn view(&self) -> ReferenceActionView {
        match self {
            ReferenceAction::Notify { workers, reconnect } => ReferenceActionView::Notify {
                workers: workers@,
                reconnect: *reconnect,
            },
            ReferenceAction::Wait => ReferenceActionView::Wait,
            ReferenceAction::Ready => ReferenceActionView::Ready,
            ReferenceAction::Refused(peer) => ReferenceActionView::Refused(*peer),
            ReferenceAction::TimedOut => ReferenceActionView::TimedOut,
            ReferenceAction::Ignore => ReferenceActionView::Ignore,
        }
    }
}

/// Everyone has accepted the plan.
pub open spec fn reference_ready(w: ReferenceWaitView) -> bool {
    w.acknowledged.len() == w.participants.len()
}

/// An attempt begins, if there is one left and someone has not accepted.
pub open spec fn attempt_begun(w: ReferenceWaitView, attempt: int) -> (
    ReferenceWaitView,
    ReferenceActionView,
) {
    if reference_ready(w) {
        (ReferenceWaitView { step: ReferenceStep::Over, ..w }, ReferenceActionView::Ready)
    } else if attempt >= REFERENCE_ATTEMPTS {
        (ReferenceWaitView { step: ReferenceStep::Over, ..w }, ReferenceActionView::TimedOut)
    } else {
        (
            ReferenceWaitView { attempt: attempt as usize, step: ReferenceStep::Notifying, ..w },
            ReferenceActionView::Notify {
                workers: w.participants.filter(outside(w.acknowledged)),
                reconnect: attempt > 0,
            },
        )
    }
}

/// The wait for the participants of a reference plan begins.
pub open spec fn fresh_reference_wait(plan: V4TrainingPlanView, node: NodeId) -> (
    ReferenceWaitView,
    ReferenceActionView,
) {
    attempt_begun(
        ReferenceWaitView {
            participants: plan.workers.filter(other_than(node)),
            acknowledged: Set::empty(),
            attempt: 0,
            step: ReferenceStep::Over,
        },
        0,
    )
}

/// The answer is a participant's and about this plan.
pub open spec fn answers_reference(
    w: ReferenceWaitView,
    plan: V4TrainingPlanView,
    peer: NodeId,
    ack: V4PlanAck,
) -> bool {
    &&& w.participants.contains(peer)
    &&& ack.job_id == plan.job_id
    &&& ack.plan_generation == plan.plan_generation
    &&& ack.plan_hash == plan.plan_hash
}

/// The next step of the wait for a reference plan.
pub open spec fn reference_stepped(
    w: ReferenceWaitView,
    plan: V4TrainingPlanView,
    event: ReferenceEvent,
) -> (ReferenceWaitView, ReferenceActionView) {
    match (w.step, event) {
        (ReferenceStep::Notifying, ReferenceEvent::Notified) => (
            ReferenceWaitView { step: ReferenceStep::Answers, ..w },
            ReferenceActionView::Wait,
        ),
        (ReferenceStep::Answers, ReferenceEvent::Ack(peer, ack)) => if !answers_reference(
            w,
            plan,
            peer,
            ack,
        ) {
            (w, ReferenceActionView::Wait)
        } else if !ack.accepted {
            (
                ReferenceWaitView { step: ReferenceStep::Over, ..w },
                ReferenceActionView::Refused(peer),
            )
        } else {
            let next = ReferenceWaitView { acknowledged: w.acknowledged.insert(peer), ..w };
            if reference_ready(next) {
                (
                    ReferenceWaitView { step: ReferenceStep::Over, ..next },
                    ReferenceActionView::Ready,
                )
            } else {
                (next, ReferenceActionView::Wait)
            }
        },
        (ReferenceStep::Answers, ReferenceEvent::OtherMessage) => (w, ReferenceActionView::Wait),
        (ReferenceStep::Answers, ReferenceEvent::AttemptOver) => attempt_begun(w, w.attempt + 1),
        _ => (w, ReferenceActionView::Ignore),
    }
}

fn begin_attempt(w: &mut ReferenceWait, attempt: usize) -> (r: ReferenceAction)
    ensures
        (final(w)@, r@) == attempt_begun(old(w)@, attempt as int),
{
    if w.acknowledged.len() == w.participants.len() {
        w.step = ReferenceStep::Over;
        ReferenceAction::Ready
    } else if attempt >= REFERENCE_ATTEMPTS {
        w.step = ReferenceStep::Over;
        ReferenceAction::TimedOut
    } else {
        w.attempt = attempt;
        w.step = ReferenceStep::Notifying;
        ReferenceAction::Notify {
            workers: filter_outside(&w.participants, &w.acknowledged),
            reconnect: attempt > 0,
        }
    }
}

/// Begin to bring the workers of a reference plan to take it.
pub fn begin_reference_wait(plan: &V4TrainingPlan, node: NodeId) -> (r: (
    ReferenceWait,
    ReferenceAction,
))
    ensures
        (r.0@, r.1@) == fresh_reference_wait(plan@, node),
{
    let mut w = ReferenceWait {
        participants: filter_other_than(&plan.workers, node),
        acknowledged: NodeSet::new(),
        attempt: 0,
        step: ReferenceStep::Over,
    };
    let action = begin_attempt(&mut w, 0);
    (w, action)
}

/// Take the wait for a reference plan one step on.
pub fn await_reference_plan(
    w: &mut ReferenceWait,
    plan: &V4TrainingPlan,
    event: ReferenceEvent,
) -> (r: ReferenceAction)
    ensures
        (final(w)@, r@) == reference_stepped(old(w)@, plan@, event),
{
    match (w.step, event) {
        (ReferenceStep::Notifying, ReferenceEvent::Notified) => {
            w.step = ReferenceStep::Answers;
            ReferenceAction::Wait
        },
        (ReferenceStep::Answers, ReferenceEvent::Ack(peer, ack)) => {
            if !contains_id(&w.participants, peer) || ack.job_id != plan.job_id
                || ack.plan_generation != plan.plan_generation || ack.plan_hash != plan.plan_hash {
                ReferenceAction::Wait
            } else if !ack.accepted {
                w.step = ReferenceStep::Over;
                ReferenceAction::Refused(peer)
            } else {
                w.acknowledged.insert(peer);
                if w.acknowledged.len() == w.participants.len() {
                    w.step = ReferenceStep::Over;
                    ReferenceAction::Ready
                } else {
                    ReferenceAction::Wait
                }
            }
        },
        (ReferenceStep::Answers, ReferenceEvent::OtherMessage) => ReferenceAction::Wait,
        (ReferenceStep::Answers, ReferenceEvent::AttemptOver) => {
            let attempt: usize = if w.attempt < REFERENCE_ATTEMPTS {
                w.attempt + 1
            } else {
                REFERENCE_ATTEMPTS
            };
            begin_attempt(w, attempt)
        },
        _ => ReferenceAction::Ignore,
    }
}

/// The wait for a reference plan after a run of events.
pub open spec fn reference_run(
    w: ReferenceWaitView,
    plan: V4TrainingPlanView,
    events: Seq<ReferenceEvent>,
) -> ReferenceWaitView
    decreases events.len(),
{
    if events.len() == 0 {
        w
    } else {
        reference_stepped(reference_run(w, plan, events.drop_last()), plan, events.last()).0
    }
}

/// The event is the answer of `peer` that it accepts the plan.
pub open spec fn accepts_reference(
    plan: V4TrainingPlanView,
    peer: NodeId,
    event: ReferenceEvent,
) -> bool {
    match event {
        ReferenceEvent::Ack(from, ack) => from == peer && ack.accepted && ack.job_id
            == plan.job_id && ack.plan_generation == plan.plan_generation && ack.plan_hash
            == plan.plan_hash,
        _ => false,
    }
}

/// A peer accepted the plan somewhere in a run.
pub open spec fn has_accepted(
    plan: V4TrainingPlanView,
    peer: NodeId,
    events: Seq<ReferenceEvent>,
) -> bool {
    exists|i: int| 0 <= i < events.len() && accepts_reference(plan, peer, #[trigger] events[i])
}

/// Everyone who counts as having accepted is a participant that did.
pub open spec fn honestly_counted(
    w: ReferenceWaitView,
    plan: V4TrainingPlanView,
    events: Seq<ReferenceEvent>,
) -> bool {
    &&& w.acknowledged.finite()
    &&& forall|p: NodeId| #[trigger]
        w.acknowledged.contains(p) ==> w.participants.contains(p) && has_accepted(plan, p, events)
}

proof fn lemma_acceptances_are_real(
    w: ReferenceWaitView,
    plan: V4TrainingPlanView,
    events: Seq<ReferenceEvent>,
)
    requires
        w.acknowledged == Set::<NodeId>::empty(),
    ensures
        reference_run(w, plan, events).participants == w.participants,
        honestly_counted(reference_run(w, plan, events), plan, events),
    decreases events.len(),
{
    if events.len() > 0 {
        let before = events.drop_last();
        lemma_acceptances_are_real(w, plan, before);
        let now = reference_run(w, plan, before);
        let next = reference_run(w, plan, events);
        assert(events[events.len() - 1] == events.last());
        assert forall|p: NodeId| #[trigger] next.acknowledged.contains(p) implies (
        next.participants.contains(p) && has_accepted(plan, p, events)) by {
            if now.acknowledged.contains(p) {
                assert(has_accepted(plan, p, before));
                let i = choose|i: int| 0 <= i < before.len() && accepts_reference(
                    plan,
                    p,
                    #[trigger] before[i],
                );
                assert(events[i] == before[i]);
            }
        }
    }
}

/// A reference operation begins only when every worker of its plan but this
/// node has accepted this very plan.
pub proof fn law_reference_plan_is_accepted_by_all(
    plan: V4TrainingPlanView,
    node: NodeId,
    events: Seq<ReferenceEvent>,
    event: ReferenceEvent,
    peer: NodeId,
)
    requires
        plan.workers.no_duplicates(),
        plan.workers.contains(peer),
        peer != node,
        reference_stepped(
            reference_run(fresh_reference_wait(plan, node).0, plan, events),
            plan,
            event,
        ).1 is Ready,
    ensures
        has_accepted(plan, peer, events.push(event)),
{
    let start = fresh_reference_wait(plan, node).0;
    let all = events.push(event);
    assert(all.drop_last() =~= events);
    lemma_acceptances_are_real(start, plan, all);
    let end = reference_run(start, plan, all);
    let participants = start.participants;
    crate::base::search::lemma_filter_distinct(plan.workers, other_than(node));
    crate::base::search::lemma_filter_contains(plan.workers, other_than(node));
    participants.unique_seq_to_set();
    assert(end.acknowledged.subset_of(participants.to_set()));
    vstd::set_lib::lemma_subset_equality(end.acknowledged, participants.to_set());
    assert(participants.contains(peer));
    assert(participants.to_set().contains(peer));
}

/// A reference plan waits for every worker but this node, asks those that have not answered
/// three times, and counts an acceptance of this very plan once; a refusal ends the wait.
pub proof fn law_reference_plan_waits_for_workers(
    plan: V4TrainingPlanView,
    node: NodeId,
    w: ReferenceWaitView,
    peer: NodeId,
    ack: V4PlanAck,
)
    ensures
        ({
            let (fresh, action) = fresh_reference_wait(plan, node);
            &&& fresh.participants.contains(peer) <==> plan.workers.contains(peer) && peer != node
            &&& fresh.acknowledged == Set::<NodeId>::empty()
        }),
        w.step is Answers ==> ({
            let (after, action) = reference_stepped(w, plan, ReferenceEvent::Ack(peer, ack));
            let good = w.participants.contains(peer) && ack.job_id == plan.job_id
                && ack.plan_generation == plan.plan_generation && ack.plan_hash == plan.plan_hash;
            &&& !good ==> after == w && action is Wait
            &&& good && !ack.accepted ==> action == ReferenceActionView::Refused(peer)
            &&& good && ack.accepted ==> after.acknowledged == w.acknowledged.insert(peer)
            &&& good && ack.accepted ==> (action is Ready <==> w.acknowledged.insert(peer).len()
                == w.participants.len())
        }),
        w.step is Answers && w.attempt < 2 && w.acknowledged.len() != w.participants.len() ==> ({
            let (after, action) = reference_stepped(w, plan, ReferenceEvent::AttemptOver);
            &&& action is Notify && action->reconnect && after.attempt == w.attempt + 1
            &&& action->workers.contains(peer) <==> w.participants.contains(peer)
                && !w.acknowledged.contains(peer)
        }),
        w.step is Answers && w.attempt >= 2 && w.acknowledged.len() != w.participants.len()
            ==> reference_stepped(w, plan, ReferenceEvent::AttemptOver).1 is TimedOut,
{
    crate::base::search::lemma_filter_contains(plan.workers, other_than(node));
    crate::base::search::lemma_filter_contains(w.participants, outside(w.acknowledged));
    let others = plan.workers.filter(other_than(node));
}

} // verus!
