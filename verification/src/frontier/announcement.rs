//! How a plan is announced to its workers until all of them have taken it.

use crate::base::ids::NodeId;
use crate::base::members::{ascending, filter_other_than, NodeSet};
use crate::base::search::other_than;
use crate::frontier::local::V4PlanAck;
use crate::frontier::types::{V4TrainingPlan, V4TrainingPlanView};
use vstd::prelude::*;

verus! {

/// How often a plan is announced to those who have not answered.
pub const ANNOUNCEMENT_ROUNDS: usize = 3;

/// Where an announcement stands.
#[derive(Clone, Copy, Debug, PartialEq, Eq, Structural)]
pub enum AnnouncementStep {
    /// The plan is on its way to those who have not answered.
    Announcing,
    /// Their answers have to come.
    Answers,
    Over,
}

/// A running announcement.
#[derive(Debug)]
pub struct Announcement {
    /// Who has not taken the plan yet.
    pub pending: NodeSet,
    /// How many have to take it.
    pub expected: usize,
    pub round: usize,
    pub step: AnnouncementStep,
}

/// The contents of an [`Announcement`].
#[verifier::ext_equal]
pub struct AnnouncementView {
    pub pending: Set<NodeId>,
    pub expected: usize,
    pub round: usize,
    pub step: AnnouncementStep,
}

impl View for Announcement {
    type V = AnnouncementView;

    open spec fn view(&self) -> AnnouncementView {
        AnnouncementView {
            pending: self.pending@,
            expected: self.expected,
            round: self.round,
            step: self.step,
        }
    }
}

/// What comes to an announcement.
#[derive(Clone, Copy, Debug, PartialEq, Eq, Structural)]
pub enum AnnouncementEvent {
    /// The plan has been sent.
    Announced,
    /// An answer came from a peer.
    Ack(NodeId, V4PlanAck),
    OtherMessage,
    /// The time of the round is over, or no message can come in it; whether
    /// there is time for another one.
    RoundOver { time_left: bool },
}

/// What an announcement does next.
#[derive(Debug, PartialEq, Eq)]
pub enum AnnouncementAction {
    /// Send the plan to these peers, over the connections that are there.
    Announce { peers: Vec<NodeId>, again: bool },
    /// Wait for a message.
    Wait,
    /// All of this many peers have taken the plan.
    Taken(usize),
    /// A peer refused the plan.
    Refused(NodeId),
    Missing { missing: usize, expected: usize },
    /// The event was not awaited.
    Ignore,
}

/// The contents of an [`AnnouncementAction`].
pub enum AnnouncementActionView {
    Announce { peers: Seq<NodeId>, again: bool },
    Wait,
    Taken(usize),
    Refused(NodeId),
    Missing { missing: usize, expected: usize },
    Ignore,
}

impl View for AnnouncementAction {
    type V = AnnouncementActionView;

    open spec fn view(&self) -> AnnouncementActionView {
        match self {
            AnnouncementAction::Announce { peers, again } => AnnouncementActionView::Announce {
                peers: peers@,
                again: *again,
            },
            AnnouncementAction::Wait => AnnouncementActionView::Wait,
            AnnouncementAction::Taken(count) => AnnouncementActionView::Taken(*count),
            AnnouncementAction::Refused(peer) => AnnouncementActionView::Refused(*peer),
            AnnouncementAction::Missing { missing, expected } => AnnouncementActionView::Missing {
                missing: *missing,
                expected: *expected,
            },
            AnnouncementAction::Ignore => AnnouncementActionView::Ignore,
        }
    }
}

/// The acknowledgement is about this plan and from a peer that has not answered.
pub open spec fn answers_plan(
    plan: V4TrainingPlanView,
    pending: Set<NodeId>,
    peer: NodeId,
    ack: V4PlanAck,
) -> bool {
    &&& pending.contains(peer)
    &&& ack.job_id == plan.job_id
    &&& ack.plan_generation == plan.plan_generation
    &&& ack.plan_hash == plan.plan_hash
}

/// A round begins.
pub open spec fn round_begun(a: AnnouncementView, round: int) -> (
    AnnouncementView,
    AnnouncementActionView,
) {
    (
        AnnouncementView { round: round as usize, step: AnnouncementStep::Announcing, ..a },
        AnnouncementActionView::Announce { peers: ascending(a.pending), again: round > 0 },
    )
}

/// The announcement ends.
pub open spec fn announcement_ended(a: AnnouncementView, action: AnnouncementActionView) -> (
    AnnouncementView,
    AnnouncementActionView,
) {
    (AnnouncementView { step: AnnouncementStep::Over, ..a }, action)
}

/// An announcement to everyone in `recipients` but this node starts.
pub open spec fn fresh_announcement(recipients: Seq<NodeId>, node: NodeId) -> (
    AnnouncementView,
    AnnouncementActionView,
) {
    let pending = recipients.filter(other_than(node)).to_set();
    let a = AnnouncementView {
        pending,
        expected: pending.len() as usize,
        round: 0,
        step: AnnouncementStep::Over,
    };
    if pending == Set::<NodeId>::empty() {
        (a, AnnouncementActionView::Taken(0))
    } else {
        round_begun(a, 0)
    }
}

/// The next step of an announcement.
pub open spec fn announcement_stepped(
    a: AnnouncementView,
    plan: V4TrainingPlanView,
    event: AnnouncementEvent,
) -> (AnnouncementView, AnnouncementActionView) {
    match (a.step, event) {
        (AnnouncementStep::Announcing, AnnouncementEvent::Announced) => (
            AnnouncementView { step: AnnouncementStep::Answers, ..a },
            AnnouncementActionView::Wait,
        ),
        (AnnouncementStep::Answers, AnnouncementEvent::Ack(peer, ack)) => if !answers_plan(
            plan,
            a.pending,
            peer,
            ack,
        ) {
            (a, AnnouncementActionView::Wait)
        } else if !ack.accepted {
            announcement_ended(a, AnnouncementActionView::Refused(peer))
        } else {
            let rest = AnnouncementView { pending: a.pending.remove(peer), ..a };
            if rest.pending == Set::<NodeId>::empty() {
                announcement_ended(rest, AnnouncementActionView::Taken(a.expected))
            } else {
                (rest, AnnouncementActionView::Wait)
            }
        },
        (AnnouncementStep::Answers, AnnouncementEvent::OtherMessage) => (
            a,
            AnnouncementActionView::Wait,
        ),
        (AnnouncementStep::Answers, AnnouncementEvent::RoundOver { time_left }) => if time_left
            && a.round + 1 < ANNOUNCEMENT_ROUNDS {
            round_begun(a, a.round + 1)
        } else {
            announcement_ended(
                a,
                AnnouncementActionView::Missing {
                    missing: a.pending.len() as usize,
                    expected: a.expected,
                },
            )
        },
        _ => (a, AnnouncementActionView::Ignore),
    }
}

fn begin_round(a: &mut Announcement, round: usize) -> (r: AnnouncementAction)
    ensures
        (final(a)@, r@) == round_begun(old(a)@, round as int),
{
    a.round = round;
    a.step = AnnouncementStep::Announcing;
    AnnouncementAction::Announce { peers: a.pending.to_sorted(), again: round > 0 }
}

/// Start to announce a plan to everyone in `recipients` but this node.
pub fn begin_announcement(recipients: &Vec<NodeId>, node: NodeId) -> (r: (
    Announcement,
    AnnouncementAction,
))
    ensures
        (r.0@, r.1@) == fresh_announcement(recipients@, node),
{
    let others = filter_other_than(recipients, node);
    let pending = NodeSet::from_ids(&others);
    let expected: usize = pending.len();
    let mut a = Announcement { pending, expected, round: 0, step: AnnouncementStep::Over };
    if a.pending.is_empty() {
        (a, AnnouncementAction::Taken(0))
    } else {
        let action = begin_round(&mut a, 0);
        (a, action)
    }
}

/// Take the announcement of a plan one step on.
pub fn acknowledge_plan_update(
    a: &mut Announcement,
    plan: &V4TrainingPlan,
    event: AnnouncementEvent,
) -> (r: AnnouncementAction)
    ensures
        (final(a)@, r@) == announcement_stepped(old(a)@, plan@, event),
{
    match (a.step, event) {
        (AnnouncementStep::Announcing, AnnouncementEvent::Announced) => {
            a.step = AnnouncementStep::Answers;
            AnnouncementAction::Wait
        },
        (AnnouncementStep::Answers, AnnouncementEvent::Ack(peer, ack)) => {
            if !a.pending.contains(peer) || ack.job_id != plan.job_id || ack.plan_generation
                != plan.plan_generation || ack.plan_hash != plan.plan_hash {
                AnnouncementAction::Wait
            } else if !ack.accepted {
                a.step = AnnouncementStep::Over;
                AnnouncementAction::Refused(peer)
            } else {
                a.pending.remove(peer);
                if a.pending.is_empty() {
                    a.step = AnnouncementStep::Over;
                    AnnouncementAction::Taken(a.expected)
                } else {
                    AnnouncementAction::Wait
                }
            }
        },
        (AnnouncementStep::Answers, AnnouncementEvent::OtherMessage) => AnnouncementAction::Wait,
        (AnnouncementStep::Answers, AnnouncementEvent::RoundOver { time_left }) => {
            if time_left && a.round < ANNOUNCEMENT_ROUNDS - 1 {
                let round: usize = a.round + 1;
                begin_round(a, round)
            } else {
                a.step = AnnouncementStep::Over;
                AnnouncementAction::Missing { missing: a.pending.len(), expected: a.expected }
            }
        },
        _ => AnnouncementAction::Ignore,
    }
}

/// An announcement after a run of events.
pub open spec fn announcement_run(
    a: AnnouncementView,
    plan: V4TrainingPlanView,
    events: Seq<AnnouncementEvent>,
) -> AnnouncementView
    decreases events.len(),
{
    if events.len() == 0 {
        a
    } else {
        announcement_stepped(
            announcement_run(a, plan, events.drop_last()),
            plan,
            events.last(),
        ).0
    }
}

/// The event is the answer of `peer` that it takes the plan.
pub open spec fn takes_plan(
    plan: V4TrainingPlanView,
    peer: NodeId,
    event: AnnouncementEvent,
) -> bool {
    match event {
        AnnouncementEvent::Ack(from, ack) => from == peer && ack.accepted && ack.job_id
            == plan.job_id && ack.plan_generation == plan.plan_generation && ack.plan_hash
            == plan.plan_hash,
        _ => false,
    }
}

/// A peer took the plan somewhere in a run.
pub open spec fn has_taken(
    plan: V4TrainingPlanView,
    peer: NodeId,
    events: Seq<AnnouncementEvent>,
) -> bool {
    exists|i: int| 0 <= i < events.len() && takes_plan(plan, peer, #[trigger] events[i])
}

proof fn lemma_pending_or_taken(
    a: AnnouncementView,
    plan: V4TrainingPlanView,
    events: Seq<AnnouncementEvent>,
    peer: NodeId,
)
    requires
        a.pending.contains(peer),
    ensures
        announcement_run(a, plan, events).pending.contains(peer) || has_taken(plan, peer, events),
    decreases events.len(),
{
    if events.len() > 0 {
        let before = events.drop_last();
        lemma_pending_or_taken(a, plan, before, peer);
        assert(events[events.len() - 1] == events.last());
        if has_taken(plan, peer, before) {
            let i = choose|i: int| 0 <= i < before.len() && takes_plan(plan, peer, #[trigger]
                before[i]);
            assert(events[i] == before[i]);
        }
    }
}

/// An announcement succeeds only when every recipient but this node has taken
/// this very plan.
pub proof fn law_plan_is_taken_by_all(
    recipients: Seq<NodeId>,
    node: NodeId,
    plan: V4TrainingPlanView,
    events: Seq<AnnouncementEvent>,
    event: AnnouncementEvent,
    peer: NodeId,
)
    requires
        recipients.contains(peer),
        peer != node,
        announcement_stepped(
            announcement_run(fresh_announcement(recipients, node).0, plan, events),
            plan,
            event,
        ).1 is Taken,
    ensures
        has_taken(plan, peer, events.push(event)),
{
    let start = fresh_announcement(recipients, node).0;
    crate::base::search::lemma_filter_contains(recipients, other_than(node));
    assert(recipients.filter(other_than(node)).contains(peer));
    assert(start.pending.contains(peer));
    let all = events.push(event);
    assert(all.drop_last() =~= events);
    lemma_pending_or_taken(start, plan, all, peer);
    assert(announcement_run(start, plan, all).pending =~= Set::<NodeId>::empty());
}

/// A plan is announced at most three times.
pub proof fn law_announcement_is_bounded(
    a: AnnouncementView,
    plan: V4TrainingPlanView,
    event: AnnouncementEvent,
)
    requires
        a.round < ANNOUNCEMENT_ROUNDS,
    ensures
        ({
            let (next, action) = announcement_stepped(a, plan, event);
            &&& a.round <= next.round < ANNOUNCEMENT_ROUNDS
            &&& action is Announce ==> next.round == a.round + 1
        }),
{
}

/// A plan is announced to every recipient but this node, and again to those that have not
/// answered, three times at most; an answer counts for this very plan, a refusal ends it,
/// and at the end those that did not answer are counted.
pub proof fn law_announcement_reaches_recipients(
    recipients: Seq<NodeId>,
    node: NodeId,
    a: AnnouncementView,
    plan: V4TrainingPlanView,
    peer: NodeId,
    ack: V4PlanAck,
)
    requires
        a.pending.finite(),
    ensures
        ({
            let (fresh, action) = fresh_announcement(recipients, node);
            &&& fresh.pending.contains(peer) <==> recipients.contains(peer) && peer != node
            &&& recipients.contains(peer) && peer != node ==> action is Announce && !action->again
                && action->peers.contains(peer)
        }),
        a.step is Answers ==> ({
            let (after, action) = announcement_stepped(a, plan, AnnouncementEvent::Ack(peer, ack));
            let good = a.pending.contains(peer) && ack.job_id == plan.job_id && ack.plan_generation
                == plan.plan_generation && ack.plan_hash == plan.plan_hash;
            &&& !good ==> action is Wait && after == a
            &&& good && !ack.accepted ==> action == AnnouncementActionView::Refused(peer)
            &&& good && ack.accepted ==> after.pending == a.pending.remove(peer)
            &&& good && ack.accepted && a.pending.remove(peer) == Set::<NodeId>::empty()
                ==> action == AnnouncementActionView::Taken(a.expected)
        }),
        a.step is Answers && a.round < 2 ==> ({
            let (after, action) = announcement_stepped(
                a,
                plan,
                AnnouncementEvent::RoundOver { time_left: true },
            );
            action is Announce && action->again && after.round == a.round + 1 && (
            action->peers.contains(peer) <==> a.pending.contains(peer))
        }),
        a.step is Answers && a.round >= 2 && a.pending.len() <= usize::MAX ==> announcement_stepped(
            a,
            plan,
            AnnouncementEvent::RoundOver { time_left: true },
        ).1 == (AnnouncementActionView::Missing {
            missing: a.pending.len() as usize,
            expected: a.expected,
        }),
        a.step is Answers ==> announcement_stepped(
            a,
            plan,
            AnnouncementEvent::RoundOver { time_left: false },
        ).1 is Missing,
{
    let others = recipients.filter(other_than(node));
    crate::base::search::lemma_filter_contains(recipients, other_than(node));
    assert(others.contains(peer) <==> others.to_set().contains(peer));
    crate::base::members::lemma_ascending_exists(others.to_set());
    let asked = ascending(others.to_set());
    assert(asked.contains(peer) <==> asked.to_set().contains(peer));
    crate::base::members::lemma_ascending_exists(a.pending);
    let again = ascending(a.pending);
    assert(again.contains(peer) <==> again.to_set().contains(peer));
}

} // verus!
