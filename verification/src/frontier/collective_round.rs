//! A collective round of the coordinator: every group gets the contributions
//! of its members, and every aggregator reports the total.

use crate::base::arith::sat_u64;
use crate::base::ids::{JobId, NodeId};
use crate::base::members::{filter_other_than, NodeSet};
use crate::base::search::other_than;
use crate::frontier::collective::MAX_FAN_IN;
use crate::frontier::dataplane::{
    V4CollectiveContribute, V4CollectiveContributeView, V4CollectiveResult, V4CollectiveResultView,
};
use crate::frontier::types::{
    V4AggregationGroup, V4AggregationGroupView, V4ExecutionGraph, V4ExecutionGraphView,
    V4TrainingPlan, V4TrainingPlanView,
};
use vstd::prelude::*;

verus! {

/// Where a round stands.
#[derive(Clone, Copy, Debug, PartialEq, Eq, Structural)]
pub enum CollectiveStep {
    /// A contribution is sent: by its group and its place in the group.
    Sending { group: usize, place: usize },
    /// The aggregators have to report.
    Results,
    Over,
}

/// A running collective round.
#[derive(Debug)]
pub struct CollectiveRound {
    pub request_id: JobId,
    pub job_id: JobId,
    pub plan_generation: u64,
    pub generation: u64,
    pub group_count: u16,
    pub window: u64,
    /// The coordinator, to which the totals go.
    pub node: NodeId,
    /// The aggregators of the groups so far.
    pub roots: NodeSet,
    /// The aggregators that have reported.
    pub reported: NodeSet,
    pub step: CollectiveStep,
}

/// The contents of a [`CollectiveRound`].
#[verifier::ext_equal]
pub struct CollectiveRoundView {
    pub request_id: JobId,
    pub job_id: JobId,
    pub plan_generation: u64,
    pub generation: u64,
    pub group_count: u16,
    pub window: u64,
    pub node: NodeId,
    pub roots: Set<NodeId>,
    pub reported: Set<NodeId>,
    pub step: CollectiveStep,
}

impl View for CollectiveRound {
    type V = CollectiveRoundView;

    open spec fn view(&self) -> CollectiveRoundView {
        CollectiveRoundView {
            request_id: self.request_id,
            job_id: self.job_id,
            plan_generation: self.plan_generation,
            generation: self.generation,
            group_count: self.group_count,
            window: self.window,
            node: self.node,
            roots: self.roots@,
            reported: self.reported@,
            step: self.step,
        }
    }
}

/// What a round learns.
#[derive(Debug)]
pub enum CollectiveEvent {
    Sent,
    NotSent,
    /// An aggregator reports a total.
    Total(NodeId, V4CollectiveResult),
    OtherMessage,
    /// No message came in time, or none can come any more.
    NoMessage,
}

/// The contents of a [`CollectiveEvent`].
pub enum CollectiveEventView {
    Sent,
    NotSent,
    Total(NodeId, V4CollectiveResultView),
    OtherMessage,
    NoMessage,
}

impl View for CollectiveEvent {
    type V = CollectiveEventView;

    open spec fn view(&self) -> CollectiveEventView {
        match self {
            CollectiveEvent::Sent => CollectiveEventView::Sent,
            CollectiveEvent::NotSent => CollectiveEventView::NotSent,
            CollectiveEvent::Total(peer, result) => CollectiveEventView::Total(*peer, result@),
            CollectiveEvent::OtherMessage => CollectiveEventView::OtherMessage,
            CollectiveEvent::NoMessage => CollectiveEventView::NoMessage,
        }
    }
}

/// Why a round failed.
#[derive(Clone, Copy, Debug, PartialEq, Eq, Structural)]
pub enum CollectiveRoundError {
    /// A group has no member but its aggregator.
    NoContributor,
    /// A contributor could not be reached.
    Unavailable,
    /// An aggregator did not report.
    NoResult,
}

/// What a round does next.
#[derive(Debug, PartialEq, Eq)]
pub enum CollectiveAction {
    Send(NodeId, V4CollectiveContribute),
    /// Wait for a message.
    Wait,
    Done,
    Fail(CollectiveRoundError),
    /// The event was not awaited.
    Ignore,
}

/// The contents of a [`CollectiveAction`].
pub enum CollectiveActionView {
    Send(NodeId, V4CollectiveContributeView),
    Wait,
    Done,
    Fail(CollectiveRoundError),
    Ignore,
}

impl View for CollectiveAction {
    type V = CollectiveActionView;

    open spec fn view(&self) -> CollectiveActionView {
        match self {
            CollectiveAction::Send(to, message) => CollectiveActionView::Send(*to, message@),
            CollectiveAction::Wait => CollectiveActionView::Wait,
            CollectiveAction::Done => CollectiveActionView::Done,
            CollectiveAction::Fail(error) => CollectiveActionView::Fail(*error),
            CollectiveAction::Ignore => CollectiveActionView::Ignore,
        }
    }
}

/// The contributors of a group: its members other than its aggregator.
pub open spec fn contributors_in(group: V4AggregationGroupView) -> Seq<NodeId> {
    group.members.filter(other_than(group.aggregator))
}

/// What every member contributes in a window.
pub open spec fn contributed_values(window: u64) -> Seq<i64> {
    seq![
        (if window <= i64::MAX {
            window as int
        } else {
            i64::MAX as int
        }) as i64,
        1i64,
    ]
}

/// The contribution of a member of a group.
pub open spec fn round_contribution(
    r: CollectiveRoundView,
    group: V4AggregationGroupView,
    contributor: NodeId,
) -> V4CollectiveContributeView {
    V4CollectiveContributeView {
        request_id: r.request_id,
        job_id: r.job_id,
        plan_generation: r.plan_generation,
        generation: r.generation,
        group_id: group.group_id,
        contributor,
        aggregator: group.aggregator,
        parent: group.parent,
        expected_contributors: contributors_in(group).len() as u16,
        expected_groups: r.group_count,
        values: contributed_values(r.window),
        reply_to: r.node,
    }
}

/// A contribution sets out: to its contributor, or to the aggregator where the
/// contributor is this node.
pub open spec fn contribution_sent(
    r: CollectiveRoundView,
    graph: V4ExecutionGraphView,
    group: int,
    place: int,
) -> (CollectiveRoundView, CollectiveActionView) {
    let g = graph.aggregation_groups[group];
    let contributor = contributors_in(g)[place];
    (
        CollectiveRoundView {
            step: CollectiveStep::Sending { group: group as usize, place: place as usize },
            ..r
        },
        CollectiveActionView::Send(
            if contributor == r.node {
                g.aggregator
            } else {
                contributor
            },
            round_contribution(r, g, contributor),
        ),
    )
}

/// Every contribution is out: the aggregators have to report, then the round is
/// over.
pub open spec fn all_contributed(r: CollectiveRoundView) -> (
    CollectiveRoundView,
    CollectiveActionView,
) {
    if r.reported.len() < r.roots.len() {
        (CollectiveRoundView { step: CollectiveStep::Results, ..r }, CollectiveActionView::Wait)
    } else {
        (CollectiveRoundView { step: CollectiveStep::Over, ..r }, CollectiveActionView::Done)
    }
}

/// A round that fails.
pub open spec fn failed_collective(r: CollectiveRoundView, error: CollectiveRoundError) -> (
    CollectiveRoundView,
    CollectiveActionView,
) {
    (CollectiveRoundView { step: CollectiveStep::Over, ..r }, CollectiveActionView::Fail(error))
}

/// A group gets its first contribution.
pub open spec fn group_opened(r: CollectiveRoundView, graph: V4ExecutionGraphView, group: int) -> (
    CollectiveRoundView,
    CollectiveActionView,
) {
    if group >= graph.aggregation_groups.len() {
        all_contributed(r)
    } else {
        let g = graph.aggregation_groups[group];
        if contributors_in(g).len() == 0 {
            failed_collective(r, CollectiveRoundError::NoContributor)
        } else {
            contribution_sent(
                CollectiveRoundView { roots: r.roots.insert(g.aggregator), ..r },
                graph,
                group,
                0,
            )
        }
    }
}

/// The total is one of this round, from one of its aggregators.
pub open spec fn result_counts(
    r: CollectiveRoundView,
    peer: NodeId,
    result: V4CollectiveResultView,
) -> bool {
    result.request_id == r.request_id && r.roots.contains(peer) && result.plan_generation
        == r.plan_generation && result.generation == r.generation && result.group_count
        == r.group_count && result.max_fan_in <= MAX_FAN_IN
}

/// The next step of a round.
pub open spec fn collective_stepped(
    r: CollectiveRoundView,
    graph: V4ExecutionGraphView,
    event: CollectiveEventView,
) -> (CollectiveRoundView, CollectiveActionView) {
    match (r.step, event) {
        (CollectiveStep::Sending { group, place }, CollectiveEventView::Sent) => if group
            >= graph.aggregation_groups.len() {
            (r, CollectiveActionView::Ignore)
        } else if place + 1 < contributors_in(graph.aggregation_groups[group as int]).len() {
            contribution_sent(r, graph, group as int, place + 1)
        } else {
            group_opened(r, graph, group + 1)
        },
        (CollectiveStep::Sending { .. }, CollectiveEventView::NotSent) => failed_collective(
            r,
            CollectiveRoundError::Unavailable,
        ),
        (CollectiveStep::Results, CollectiveEventView::Total(peer, result)) => all_contributed(
            if result_counts(r, peer, result) {
                CollectiveRoundView { reported: r.reported.insert(peer), ..r }
            } else {
                r
            },
        ),
        (CollectiveStep::Results, CollectiveEventView::OtherMessage) => (
            r,
            CollectiveActionView::Wait,
        ),
        (CollectiveStep::Results, CollectiveEventView::NoMessage) => failed_collective(
            r,
            CollectiveRoundError::NoResult,
        ),
        _ => (r, CollectiveActionView::Ignore),
    }
}

fn values_of_window(window: u64) -> (r: Vec<i64>)
    ensures
        r@ == contributed_values(window),
{
    let first: i64 = if window <= i64::MAX as u64 {
        window as i64
    } else {
        i64::MAX
    };
    let values: Vec<i64> = vec![first, 1];
    assert(values@ =~= contributed_values(window));
    values
}

fn group_contributors(group: &V4AggregationGroup) -> (r: Vec<NodeId>)
    ensures
        r@ == contributors_in(group@),
{
    filter_other_than(&group.members, group.aggregator)
}

fn send_contribution(
    round: &mut CollectiveRound,
    graph: &V4ExecutionGraph,
    group: usize,
    place: usize,
) -> (r: CollectiveAction)
    requires
        group < graph@.aggregation_groups.len(),
        place < contributors_in(graph@.aggregation_groups[group as int]).len(),
    ensures
        (final(round)@, r@) == contribution_sent(old(round)@, graph@, group as int, place as int),
{
    let g = &graph.aggregation_groups[group];
    assert(graph@.aggregation_groups[group as int] == g@);
    let contributors = group_contributors(g);
    let contributor = contributors[place];
    round.step = CollectiveStep::Sending { group, place };
    let message = V4CollectiveContribute {
        request_id: round.request_id,
        job_id: round.job_id,
        plan_generation: round.plan_generation,
        generation: round.generation,
        group_id: g.group_id,
        contributor,
        aggregator: g.aggregator,
        parent: g.parent,
        expected_contributors: contributors.len() as u16,
        expected_groups: round.group_count,
        values: values_of_window(round.window),
        reply_to: round.node,
    };
    let target = if contributor == round.node {
        g.aggregator
    } else {
        contributor
    };
    CollectiveAction::Send(target, message)
}

fn await_totals(round: &mut CollectiveRound) -> (r: CollectiveAction)
    ensures
        (final(round)@, r@) == all_contributed(old(round)@),
{
    if round.reported.len() < round.roots.len() {
        round.step = CollectiveStep::Results;
        CollectiveAction::Wait
    } else {
        round.step = CollectiveStep::Over;
        CollectiveAction::Done
    }
}

fn open_group(round: &mut CollectiveRound, graph: &V4ExecutionGraph, group: usize) -> (r:
    CollectiveAction)
    ensures
        (final(round)@, r@) == group_opened(old(round)@, graph@, group as int),
{
    if group >= graph.aggregation_groups.len() {
        return await_totals(round);
    }
    let g = &graph.aggregation_groups[group];
    assert(graph@.aggregation_groups[group as int] == g@);
    let contributors = group_contributors(g);
    if contributors.len() == 0 {
        round.step = CollectiveStep::Over;
        return CollectiveAction::Fail(CollectiveRoundError::NoContributor);
    }
    round.roots.insert(g.aggregator);
    send_contribution(round, graph, group, 0)
}

/// The round before its first contribution.
pub open spec fn fresh_collective(
    graph: V4ExecutionGraphView,
    plan: V4TrainingPlanView,
    node: NodeId,
    request_id: JobId,
    window: u64,
) -> CollectiveRoundView {
    CollectiveRoundView {
        request_id,
        job_id: graph.job_id,
        plan_generation: plan.plan_generation,
        generation: sat_u64(graph.collective_generation + window) as u64,
        group_count: graph.aggregation_groups.len() as u16,
        window,
        node,
        roots: Set::empty(),
        reported: Set::empty(),
        step: CollectiveStep::Over,
    }
}

/// Begin the collective round of a window with the first group.
pub fn begin_collective_round(
    graph: &V4ExecutionGraph,
    plan: &V4TrainingPlan,
    node: NodeId,
    request_id: JobId,
    window: u64,
) -> (r: (CollectiveRound, CollectiveAction))
    ensures
        (r.0@, r.1@) == group_opened(
            fresh_collective(graph@, plan@, node, request_id, window),
            graph@,
            0,
        ),
{
    let mut round = CollectiveRound {
        request_id,
        job_id: graph.job_id,
        plan_generation: plan.plan_generation,
        generation: graph.collective_generation.saturating_add(window),
        group_count: graph.aggregation_groups.len() as u16,
        window,
        node,
        roots: NodeSet::new(),
        reported: NodeSet::new(),
        step: CollectiveStep::Over,
    };
    assert(round@ =~= fresh_collective(graph@, plan@, node, request_id, window));
    let action = open_group(&mut round, graph, 0);
    (round, action)
}

/// Take a round one step on.
pub fn collective_training_round(
    round: &mut CollectiveRound,
    graph: &V4ExecutionGraph,
    event: CollectiveEvent,
) -> (r: CollectiveAction)
    ensures
        (final(round)@, r@) == collective_stepped(old(round)@, graph@, event@),
{
    match (round.step, event) {
        (CollectiveStep::Sending { group, place }, CollectiveEvent::Sent) => {
            if group >= graph.aggregation_groups.len() {
                CollectiveAction::Ignore
            } else {
                assert(graph@.aggregation_groups[group as int]
                    == graph.aggregation_groups@[group as int]@);
                let contributors = group_contributors(&graph.aggregation_groups[group]);
                if place < contributors.len() && place + 1 < contributors.len() {
                    send_contribution(round, graph, group, place + 1)
                } else {
                    open_group(round, graph, group + 1)
                }
            }
        },
        (CollectiveStep::Sending { .. }, CollectiveEvent::NotSent) => {
            round.step = CollectiveStep::Over;
            CollectiveAction::Fail(CollectiveRoundError::Unavailable)
        },
        (CollectiveStep::Results, CollectiveEvent::Total(peer, result)) => {
            if result.request_id == round.request_id && round.roots.contains(peer)
                && result.plan_generation == round.plan_generation && result.generation
                == round.generation && result.group_count == round.group_count && result.max_fan_in
                <= MAX_FAN_IN {
                round.reported.insert(peer);
            }
            await_totals(round)
        },
        (CollectiveStep::Results, CollectiveEvent::OtherMessage) => CollectiveAction::Wait,
        (CollectiveStep::Results, CollectiveEvent::NoMessage) => {
            round.step = CollectiveStep::Over;
            CollectiveAction::Fail(CollectiveRoundError::NoResult)
        },
        _ => CollectiveAction::Ignore,
    }
}

/// The aggregators of the first `count` groups are known, and nobody else has
/// reported.
pub open spec fn collective_wf(r: CollectiveRoundView, graph: V4ExecutionGraphView, count: int) ->
    bool {
    &&& 0 <= count <= graph.aggregation_groups.len()
    &&& r.roots.finite()
    &&& r.reported.subset_of(r.roots)
    &&& forall|i: int|
        0 <= i < count ==> r.roots.contains((#[trigger] graph.aggregation_groups[i]).aggregator)
}

/// How many groups a round has opened.
pub open spec fn opened_groups(r: CollectiveRoundView, graph: V4ExecutionGraphView) -> int {
    match r.step {
        CollectiveStep::Sending { group, .. } => group + 1,
        _ => graph.aggregation_groups.len() as int,
    }
}

/// A round ends well only when the aggregator of every group has reported the
/// total.
pub proof fn law_every_aggregator_reports(
    r: CollectiveRoundView,
    graph: V4ExecutionGraphView,
    event: CollectiveEventView,
)
    requires
        collective_wf(r, graph, opened_groups(r, graph)),
        graph.aggregation_groups.len() <= usize::MAX,
    ensures
        ({
            let (after, action) = collective_stepped(r, graph, event);
            &&& !(action is Fail) ==> collective_wf(after, graph, opened_groups(after, graph))
            &&& action == CollectiveActionView::Done ==> forall|i: int|
                0 <= i < graph.aggregation_groups.len() ==> after.reported.contains(
                    (#[trigger] graph.aggregation_groups[i]).aggregator,
                )
        }),
{
    let (after, action) = collective_stepped(r, graph, event);
    if action == CollectiveActionView::Done {
        vstd::set_lib::lemma_len_subset(after.reported, after.roots);
        vstd::set_lib::lemma_subset_equality(after.reported, after.roots);
    }
}

/// Every member but the aggregator contributes the number of the window and a one, to the
/// aggregator of its group, for the collective of this round.
pub proof fn law_what_members_contribute(
    r: CollectiveRoundView,
    group: V4AggregationGroupView,
    contributor: NodeId,
)
    requires
        r.window <= i64::MAX,
        contributors_in(group).len() <= u16::MAX,
    ensures
        contributors_in(group).contains(contributor) <==> group.members.contains(contributor)
            && contributor != group.aggregator,
        ({
            let c = round_contribution(r, group, contributor);
            &&& c.values.len() == 2 && c.values[0] == r.window && c.values[1] == 1
            &&& c.contributor == contributor && c.aggregator == group.aggregator
            &&& c.parent == group.parent && c.group_id == group.group_id
            &&& c.expected_contributors == contributors_in(group).len()
            &&& c.expected_groups == r.group_count
            &&& c.request_id == r.request_id && c.job_id == r.job_id
            &&& c.plan_generation == r.plan_generation && c.generation == r.generation
            &&& c.reply_to == r.node
        }),
{
    crate::base::search::lemma_filter_contains(group.members, other_than(group.aggregator));
}

/// A round has a generation of its own, counted on by the window, and as many groups as
/// its graph.
pub proof fn law_collective_round_is_of_the_graph(
    graph: V4ExecutionGraphView,
    plan: V4TrainingPlanView,
    node: NodeId,
    request_id: JobId,
    window: u64,
)
    requires
        graph.collective_generation + window <= u64::MAX,
        graph.aggregation_groups.len() <= u16::MAX,
    ensures
        ({
            let r = fresh_collective(graph, plan, node, request_id, window);
            &&& r.generation == graph.collective_generation + window
            &&& r.group_count == graph.aggregation_groups.len()
            &&& r.request_id == request_id && r.job_id == graph.job_id
            &&& r.plan_generation == plan.plan_generation && r.node == node && r.window == window
            &&& r.roots == Set::<NodeId>::empty() && r.reported == Set::<NodeId>::empty()
        }),
{
}

/// A total counts only from an aggregator of the round, for its request, plan, generation
/// and number of groups, with a fan-in of at most two.
pub proof fn law_totals_that_count(
    r: CollectiveRoundView,
    peer: NodeId,
    result: V4CollectiveResultView,
)
    ensures
        result_counts(r, peer, result) <==> (r.roots.contains(peer) && result.request_id
            == r.request_id && result.plan_generation == r.plan_generation && result.generation
            == r.generation && result.group_count == r.group_count && result.max_fan_in <= 2),
{
}

/// A contribution goes to its contributor, and that of this node to the aggregator; the
/// round is over only when as many aggregators have reported as there are.
pub proof fn law_collective_round_goes_on(
    r: CollectiveRoundView,
    graph: V4ExecutionGraphView,
    group: int,
    place: int,
    peer: NodeId,
    result: V4CollectiveResultView,
)
    requires
        0 <= group < graph.aggregation_groups.len(),
        0 <= place < contributors_in(graph.aggregation_groups[group]).len(),
    ensures
        ({
            let g = graph.aggregation_groups[group];
            let contributor = contributors_in(g)[place];
            let (after, action) = contribution_sent(r, graph, group, place);
            &&& action is Send
            &&& contributor == r.node ==> action->Send_0 == g.aggregator
            &&& contributor != r.node ==> action->Send_0 == contributor
            &&& action->Send_1.contributor == contributor
        }),
        r.step is Results ==> ({
            let (after, action) = collective_stepped(
                r,
                graph,
                CollectiveEventView::Total(peer, result),
            );
            &&& result_counts(r, peer, result) ==> after.reported == r.reported.insert(peer)
            &&& !result_counts(r, peer, result) ==> after.reported == r.reported
            &&& action is Done <==> after.reported.len() >= r.roots.len()
        }),
        r.step is Results ==> collective_stepped(r, graph, CollectiveEventView::NoMessage).1
            == CollectiveActionView::Fail(CollectiveRoundError::NoResult),
        r.step is Sending ==> collective_stepped(r, graph, CollectiveEventView::NotSent).1
            == CollectiveActionView::Fail(CollectiveRoundError::Unavailable),
{
}

} // verus!
