//! Collectives: contributors hand their values to the aggregator of their
//! group, and the aggregators exchange group sums until each has the total.

use crate::base::arith::{sat_mul_u64, sat_u64};
use crate::base::ids::{JobId, NodeId};
use crate::base::members::contains_id;
use crate::base::ordered::{ordered_values, OrdMap};
use crate::base::record::Duplicate;
use crate::base::search::{find, lemma_find_at, lemma_views_push, views};
use crate::base::values::{plus, plus_values, same_values, zero_values, zeros};
use crate::frontier::authority::{combines_updates, runs_collectives};
use crate::frontier::dataplane::{
    V4CollectiveAggregate, V4CollectiveAggregateView, V4CollectiveContribute,
    V4CollectiveContributeView, V4CollectiveResult, V4CollectiveResultView,
};
use crate::frontier::types::{V4TrainingPlan, V4TrainingPlanView};
use vstd::prelude::*;

verus! {

/// The requests that a node keeps open at most.
pub const MAX_AGGREGATION_REQUESTS: usize = 1_024;

/// The members that an aggregator combines at a time.
pub const MAX_FAN_IN: u16 = 2;

/// The values of a contributor.
#[derive(Debug, PartialEq, Eq)]
pub struct Contribution {
    pub contributor: NodeId,
    pub values: Vec<i64>,
}

/// The contents of a [`Contribution`].
#[verifier::ext_equal]
pub struct ContributionView {
    pub contributor: NodeId,
    pub values: Seq<i64>,
}

impl View for Contribution {
    type V = ContributionView;

    open spec fn view(&self) -> ContributionView {
        ContributionView {
            contributor: self.contributor,
            values: self.values@,
        }
    }
}

impl Duplicate for Contribution {
    fn duplicate(&self) -> (r: Contribution) {
        Contribution {
            contributor: self.contributor,
            values: self.values.clone(),
        }
    }
}

/// The sum of a group, and how many contributed to it.
#[derive(Debug, PartialEq, Eq)]
pub struct GroupSum {
    pub values: Vec<i64>,
    pub contributors: u16,
}

/// The contents of a [`GroupSum`].
#[verifier::ext_equal]
pub struct GroupSumView {
    pub values: Seq<i64>,
    pub contributors: u16,
}

impl View for GroupSum {
    type V = GroupSumView;

    open spec fn view(&self) -> GroupSumView {
        GroupSumView {
            values: self.values@,
            contributors: self.contributors,
        }
    }
}

impl Duplicate for GroupSum {
    fn duplicate(&self) -> (r: GroupSum) {
        GroupSum {
            values: self.values.clone(),
            contributors: self.contributors,
        }
    }
}

/// A collective that is under way.
#[derive(Debug)]
pub struct V4CollectiveState {
    pub job_id: JobId,
    pub plan_generation: u64,
    pub generation: u64,
    /// Zero until a contribution has come in.
    pub expected_contributors: u16,
    pub expected_groups: u16,
    pub group_id: u16,
    pub parent: Option<NodeId>,
    pub reply_to: NodeId,
    pub value_len: usize,
    /// The contributions of this node's group, in the order of arrival.
    pub contributions: Vec<Contribution>,
    /// The sums of the groups.
    pub groups: OrdMap<GroupSum>,
}

/// The contents of a [`V4CollectiveState`].
#[verifier::ext_equal]
pub struct V4CollectiveStateView {
    pub job_id: JobId,
    pub plan_generation: u64,
    pub generation: u64,
    pub expected_contributors: u16,
    pub expected_groups: u16,
    pub group_id: u16,
    pub parent: Option<NodeId>,
    pub reply_to: NodeId,
    pub value_len: usize,
    pub contributions: Seq<ContributionView>,
    pub groups: Map<u16, GroupSumView>,
}

impl View for V4CollectiveState {
    type V = V4CollectiveStateView;

    open spec fn view(&self) -> V4CollectiveStateView {
        V4CollectiveStateView {
            job_id: self.job_id,
            plan_generation: self.plan_generation,
            generation: self.generation,
            expected_contributors: self.expected_contributors,
            expected_groups: self.expected_groups,
            group_id: self.group_id,
            parent: self.parent,
            reply_to: self.reply_to,
            value_len: self.value_len,
            contributions: views(self.contributions@),
            groups: self.groups@,
        }
    }
}

/// The sum of the group of this node, for a group without a parent.
#[derive(Debug, PartialEq, Eq)]
pub struct V4CollectiveCompletion {
    pub request_id: JobId,
    pub job_id: JobId,
    pub plan_generation: u64,
    pub generation: u64,
    pub group_id: u16,
    pub values: Vec<i64>,
    pub contributors: u16,
    pub expected_groups: u16,
    pub reply_to: NodeId,
}

/// The contents of a [`V4CollectiveCompletion`].
#[verifier::ext_equal]
pub struct V4CollectiveCompletionView {
    pub request_id: JobId,
    pub job_id: JobId,
    pub plan_generation: u64,
    pub generation: u64,
    pub group_id: u16,
    pub values: Seq<i64>,
    pub contributors: u16,
    pub expected_groups: u16,
    pub reply_to: NodeId,
}

impl View for V4CollectiveCompletion {
    type V = V4CollectiveCompletionView;

    open spec fn view(&self) -> V4CollectiveCompletionView {
        V4CollectiveCompletionView {
            request_id: self.request_id,
            job_id: self.job_id,
            plan_generation: self.plan_generation,
            generation: self.generation,
            group_id: self.group_id,
            values: self.values@,
            contributors: self.contributors,
            expected_groups: self.expected_groups,
            reply_to: self.reply_to,
        }
    }
}

impl Duplicate for V4CollectiveCompletion {
    fn duplicate(&self) -> (r: V4CollectiveCompletion) {
        V4CollectiveCompletion {
            request_id: self.request_id,
            job_id: self.job_id,
            plan_generation: self.plan_generation,
            generation: self.generation,
            group_id: self.group_id,
            values: self.values.clone(),
            contributors: self.contributors,
            expected_groups: self.expected_groups,
            reply_to: self.reply_to,
        }
    }
}
/// Why a contribution is refused.
#[derive(Clone, Copy, Debug, PartialEq, Eq, Structural)]
pub enum CollectiveError {
    /// The plan does not name the contributor, the aggregator or its parent.
    Unauthorized,
    /// A contribution for another aggregator is handed on by its contributor
    /// alone.
    NotContributor,
    /// The sender is not the contributor.
    WrongSender,
    /// The node has too many requests open.
    Full,
    /// The request is known with other terms.
    Conflict,
    /// The contributor, or the group, has already given other values.
    Duplicate,
}

/// What a node does with a contribution.
#[derive(Clone, Copy, Debug, PartialEq, Eq, Structural)]
pub enum ContributionRoute {
    /// It is its own contribution, and goes on to the aggregator.
    HandOn,
    /// It is collected here.
    Collect,
}

/// The plan names everybody that the contribution names.
pub open spec fn contribution_planned(
    plan: V4TrainingPlanView,
    c: V4CollectiveContributeView,
) -> bool {
    combines_updates(plan.strategy) && plan.workers.contains(c.contributor)
        && plan.workers.contains(c.aggregator) && (c.parent matches Some(parent)
        ==> plan.workers.contains(parent))
}

/// Where a contribution goes, under a plan that authorizes its requester.
pub fn route_contribution(
    node: NodeId,
    peer: NodeId,
    plan: &V4TrainingPlan,
    contribution: &V4CollectiveContribute,
) -> (r: Result<ContributionRoute, CollectiveError>)
    ensures
        ({
            let c = contribution@;
            let planned = contribution_planned(plan@, c);
            let here = c.aggregator == node;
            match r {
                Err(CollectiveError::Unauthorized) => !planned,
                Err(CollectiveError::NotContributor) => planned && !here && c.contributor != node,
                Err(CollectiveError::WrongSender) => planned && here && c.contributor != node
                    && c.contributor != peer,
                Ok(ContributionRoute::HandOn) => planned && !here && c.contributor == node,
                Ok(ContributionRoute::Collect) => planned && here && (c.contributor == node
                    || c.contributor == peer),
                Err(_) => false,
            }
        }),
{
    let parent_known = match contribution.parent {
        Some(parent) => contains_id(&plan.workers, parent),
        None => true,
    };
    if !runs_collectives(plan.strategy) || !contains_id(&plan.workers, contribution.contributor)
        || !contains_id(&plan.workers, contribution.aggregator) || !parent_known {
        return Err(CollectiveError::Unauthorized);
    }
    if contribution.aggregator != node {
        if contribution.contributor != node {
            return Err(CollectiveError::NotContributor);
        }
        return Ok(ContributionRoute::HandOn);
    }
    if contribution.contributor != node && contribution.contributor != peer {
        return Err(CollectiveError::WrongSender);
    }
    Ok(ContributionRoute::Collect)
}

/// Whether a request may be taken up while `open` are open.
pub fn may_open_request(known: bool, open: usize) -> (r: bool)
    ensures
        r == (known || open < MAX_AGGREGATION_REQUESTS),
{
    known || open < MAX_AGGREGATION_REQUESTS
}

/// The collective that a contribution opens.
pub open spec fn opened_by(c: V4CollectiveContributeView) -> V4CollectiveStateView {
    V4CollectiveStateView {
        job_id: c.job_id,
        plan_generation: c.plan_generation,
        generation: c.generation,
        expected_contributors: c.expected_contributors,
        expected_groups: c.expected_groups,
        group_id: c.group_id,
        parent: c.parent,
        reply_to: c.reply_to,
        value_len: c.values.len() as usize,
        contributions: Seq::empty(),
        groups: Map::empty(),
    }
}

pub fn open_by_contribution(contribution: &V4CollectiveContribute) -> (r: V4CollectiveState)
    ensures
        r@ == opened_by(contribution@),
{
    let r = V4CollectiveState {
        job_id: contribution.job_id,
        plan_generation: contribution.plan_generation,
        generation: contribution.generation,
        expected_contributors: contribution.expected_contributors,
        expected_groups: contribution.expected_groups,
        group_id: contribution.group_id,
        parent: contribution.parent,
        reply_to: contribution.reply_to,
        value_len: contribution.values.len(),
        contributions: Vec::new(),
        groups: OrdMap::new(),
    };
    assert(r@ =~= opened_by(contribution@));
    r
}

/// The collective that a group sum opens before any contribution came in.
pub open spec fn opened_by_aggregate(a: V4CollectiveAggregateView) -> V4CollectiveStateView {
    V4CollectiveStateView {
        job_id: a.job_id,
        plan_generation: a.plan_generation,
        generation: a.generation,
        expected_contributors: 0,
        expected_groups: a.expected_groups,
        group_id: 0,
        parent: None,
        reply_to: a.reply_to,
        value_len: a.values.len() as usize,
        contributions: Seq::empty(),
        groups: Map::empty(),
    }
}

pub fn open_by_aggregate(aggregate: &V4CollectiveAggregate) -> (r: V4CollectiveState)
    ensures
        r@ == opened_by_aggregate(aggregate@),
{
    let r = V4CollectiveState {
        job_id: aggregate.job_id,
        plan_generation: aggregate.plan_generation,
        generation: aggregate.generation,
        expected_contributors: 0,
        expected_groups: aggregate.expected_groups,
        group_id: 0,
        parent: None,
        reply_to: aggregate.reply_to,
        value_len: aggregate.values.len(),
        contributions: Vec::new(),
        groups: OrdMap::new(),
    };
    assert(r@ =~= opened_by_aggregate(aggregate@));
    r
}

/// The request is known with these terms.
pub open spec fn same_terms(
    state: V4CollectiveStateView,
    job_id: JobId,
    plan_generation: u64,
    generation: u64,
    expected_groups: u16,
    reply_to: NodeId,
    value_len: int,
) -> bool {
    state.job_id == job_id && state.plan_generation == plan_generation && state.generation
        == generation && state.expected_groups == expected_groups && state.reply_to == reply_to
        && state.value_len == value_len
}

/// The contribution fits the collective: the same terms and, once a
/// contribution has come in, the same group.
pub open spec fn contribution_fits(
    state: V4CollectiveStateView,
    c: V4CollectiveContributeView,
) -> bool {
    same_terms(
        state,
        c.job_id,
        c.plan_generation,
        c.generation,
        c.expected_groups,
        c.reply_to,
        c.values.len() as int,
    ) && (state.expected_contributors == 0 || (state.expected_contributors
        == c.expected_contributors && state.group_id == c.group_id && state.parent == c.parent))
}

/// The collective with the group of the contribution.
pub open spec fn with_group(
    state: V4CollectiveStateView,
    c: V4CollectiveContributeView,
) -> V4CollectiveStateView {
    if state.expected_contributors == 0 {
        V4CollectiveStateView {
            expected_contributors: c.expected_contributors,
            group_id: c.group_id,
            parent: c.parent,
            ..state
        }
    } else {
        state
    }
}

/// The contribution of a node.
pub open spec fn from(node: NodeId) -> spec_fn(ContributionView) -> bool {
    |c: ContributionView| c.contributor == node
}

/// The values of contributions, one row each.
pub open spec fn rows_of(contributions: Seq<ContributionView>) -> Seq<Seq<i64>> {
    contributions.map_values(|c: ContributionView| c.values)
}

/// The values of group sums, one row each.
pub open spec fn rows_of_groups(groups: Seq<GroupSumView>) -> Seq<Seq<i64>> {
    groups.map_values(|g: GroupSumView| g.values)
}

/// The sum of rows of `len` values, row by row.
pub open spec fn total(rows: Seq<Seq<i64>>, len: nat) -> Seq<i64>
    decreases rows.len(),
{
    if rows.len() == 0 {
        zeros(len)
    } else {
        plus(total(rows.drop_last(), len), rows.last())
    }
}

/// How many contributed to the groups.
pub open spec fn contributors_of(groups: Seq<GroupSumView>) -> int
    decreases groups.len(),
{
    if groups.len() == 0 {
        0
    } else {
        let sum = contributors_of(groups.drop_last()) + groups.last().contributors;
        if sum > u16::MAX {
            u16::MAX as int
        } else {
            sum
        }
    }
}

/// The sum of a completed group.
#[derive(Debug, PartialEq, Eq)]
pub struct GroupDone {
    pub values: Vec<i64>,
    pub contributors: u16,
    pub expected_groups: u16,
    pub group_id: u16,
    pub parent: Option<NodeId>,
    pub reply_to: NodeId,
}

/// The contributions once a contributor's values are in.
pub open spec fn with_contribution(
    contributions: Seq<ContributionView>,
    c: V4CollectiveContributeView,
) -> Seq<ContributionView> {
    match find(contributions, from(c.contributor)) {
        Some(e) => contributions,
        None => contributions.push(
            ContributionView { contributor: c.contributor, values: c.values },
        ),
    }
}

/// The collective once its group is complete.
pub open spec fn group_closed(
    state: V4CollectiveStateView,
    contributions: Seq<ContributionView>,
) -> V4CollectiveStateView {
    V4CollectiveStateView {
        contributions: Seq::empty(),
        groups: state.groups.insert(
            state.group_id,
            GroupSumView {
                values: total(rows_of(contributions), state.value_len as nat),
                contributors: state.expected_contributors,
            },
        ),
        ..state
    }
}

/// What a contribution makes of a collective.
pub open spec fn contributed(
    state: V4CollectiveStateView,
    c: V4CollectiveContributeView,
) -> V4CollectiveStateView {
    let grouped = with_group(state, c);
    let rows = with_contribution(grouped.contributions, c);
    if !contribution_fits(state, c) {
        state
    } else if contribution_conflicts(grouped, c) {
        grouped
    } else if rows.len() == grouped.expected_contributors {
        group_closed(grouped, rows)
    } else {
        V4CollectiveStateView { contributions: rows, ..grouped }
    }
}

/// The contributor has given other values before.
pub open spec fn contribution_conflicts(
    state: V4CollectiveStateView,
    c: V4CollectiveContributeView,
) -> bool {
    match find(state.contributions, from(c.contributor)) {
        Some(e) => e.values != c.values,
        None => false,
    }
}

/// The contribution completes the group.
pub open spec fn completes_group(
    state: V4CollectiveStateView,
    c: V4CollectiveContributeView,
) -> bool {
    let grouped = with_group(state, c);
    contribution_fits(state, c) && !contribution_conflicts(grouped, c) && with_contribution(
        grouped.contributions,
        c,
    ).len() == grouped.expected_contributors
}

fn find_contribution(contributions: &Vec<Contribution>, node: NodeId) -> (r: Option<&Contribution>)
    ensures
        match r {
            Some(c) => find(views(contributions@), from(node)) == Some(c@),
            None => find(views(contributions@), from(node)) is None,
        },
{
    let ghost s = views(contributions@);
    let mut i: usize = 0;
    while i < contributions.len()
        invariant
            0 <= i <= contributions@.len(),
            s == views(contributions@),
            forall|j: int| 0 <= j < i ==> !from(node)(#[trigger] s[j]),
        decreases contributions@.len() - i,
    {
        assert(s[i as int] == contributions@[i as int]@);
        if contributions[i].contributor == node {
            proof {
                lemma_find_at(s, from(node), i as int);
            }
            return Some(&contributions[i]);
        }
        i += 1;
    }
    proof {
        lemma_find_at(s, from(node), i as int);
    }
    None
}

fn sum_contributions(contributions: &Vec<Contribution>, len: usize) -> (r: Vec<i64>)
    ensures
        r@ == total(rows_of(views(contributions@)), len as nat),
{
    let ghost rows = rows_of(views(contributions@));
    let mut sum = zero_values(len);
    let mut i: usize = 0;
    while i < contributions.len()
        invariant
            0 <= i <= contributions@.len(),
            rows == rows_of(views(contributions@)),
            sum@ == total(rows.take(i as int), len as nat),
        decreases contributions@.len() - i,
    {
        proof {
            assert(rows.take(i as int + 1).drop_last() =~= rows.take(i as int));
            assert(rows.take(i as int + 1).last() == contributions@[i as int].values@);
        }
        sum = plus_values(&sum, &contributions[i].values);
        i += 1;
    }
    assert(rows.take(i as int) =~= rows);
    sum
}

/// Take in a contribution. Where it completes the group, the result is the
/// group's sum.
pub fn receive_collective_contribution(
    state: &mut V4CollectiveState,
    contribution: &V4CollectiveContribute,
) -> (r: Result<Option<GroupDone>, CollectiveError>)
    ensures
        final(state)@ == contributed(old(state)@, contribution@),
        ({
            let before = old(state)@;
            let c = contribution@;
            let grouped = with_group(before, c);
            match r {
                Err(CollectiveError::Conflict) => !contribution_fits(before, c),
                Err(CollectiveError::Duplicate) => contribution_fits(before, c)
                    && contribution_conflicts(grouped, c),
                Ok(None) => contribution_fits(before, c) && !contribution_conflicts(grouped, c)
                    && !completes_group(before, c),
                Ok(Some(done)) => {
                    &&& completes_group(before, c)
                    &&& done.values@ == total(
                        rows_of(with_contribution(grouped.contributions, c)),
                        before.value_len as nat,
                    )
                    &&& done.contributors == grouped.expected_contributors
                    &&& done.expected_groups == before.expected_groups
                    &&& done.group_id == grouped.group_id
                    &&& done.parent == grouped.parent
                    &&& done.reply_to == before.reply_to
                },
                Err(_) => false,
            }
        }),
{
    let fresh = state.expected_contributors == 0;
    if state.job_id != contribution.job_id || state.plan_generation != contribution.plan_generation
        || state.generation != contribution.generation || state.expected_groups
        != contribution.expected_groups || state.reply_to != contribution.reply_to
        || state.value_len != contribution.values.len() || (!fresh && (state.expected_contributors
        != contribution.expected_contributors || state.group_id != contribution.group_id
        || state.parent != contribution.parent)) {
        return Err(CollectiveError::Conflict);
    }
    if fresh {
        state.expected_contributors = contribution.expected_contributors;
        state.group_id = contribution.group_id;
        state.parent = contribution.parent;
    }
    let ghost grouped = with_group(old(state)@, contribution@);
    assert(state@ =~= grouped);
    let known = match find_contribution(&state.contributions, contribution.contributor) {
        Some(earlier) => {
            if !same_values(&earlier.values, &contribution.values) {
                return Err(CollectiveError::Duplicate);
            }
            true
        },
        None => false,
    };
    if !known {
        let entry = Contribution {
            contributor: contribution.contributor,
            values: contribution.values.clone(),
        };
        proof {
            lemma_views_push(state.contributions@, entry);
            assert(entry@ =~= ContributionView {
                contributor: contribution@.contributor,
                values: contribution@.values,
            });
        }
        state.contributions.push(entry);
    }
    let ghost rows = with_contribution(grouped.contributions, contribution@);
    assert(views(state.contributions@) =~= rows);
    if state.contributions.len() == state.expected_contributors as usize {
        let sum = sum_contributions(&state.contributions, state.value_len);
        let copy = sum.clone();
        state.groups.insert(
            state.group_id,
            GroupSum { values: copy, contributors: state.expected_contributors },
        );
        state.contributions = Vec::new();
        proof {
            assert(views(state.contributions@) =~= Seq::<ContributionView>::empty());
            assert(state@ =~= group_closed(grouped, rows));
        }
        Ok(
            Some(
                GroupDone {
                    values: sum,
                    contributors: state.expected_contributors,
                    expected_groups: state.expected_groups,
                    group_id: state.group_id,
                    parent: state.parent,
                    reply_to: state.reply_to,
                },
            ),
        )
    } else {
        assert(state@ =~= contributed(old(state)@, contribution@));
        Ok(None)
    }
}

/// The group sum for the parent of the aggregator.
pub fn group_message(
    contribution: &V4CollectiveContribute,
    node: NodeId,
    done: &GroupDone,
) -> (r: V4CollectiveAggregate)
    ensures
        r@ == (V4CollectiveAggregateView {
            request_id: contribution@.request_id,
            job_id: contribution@.job_id,
            plan_generation: contribution@.plan_generation,
            generation: contribution@.generation,
            group_id: done.group_id,
            aggregator: node,
            values: done.values@,
            contributors: done.contributors,
            expected_groups: done.expected_groups,
            reply_to: done.reply_to,
        }),
{
    V4CollectiveAggregate {
        request_id: contribution.request_id,
        job_id: contribution.job_id,
        plan_generation: contribution.plan_generation,
        generation: contribution.generation,
        group_id: done.group_id,
        aggregator: node,
        values: done.values.clone(),
        contributors: done.contributors,
        expected_groups: done.expected_groups,
        reply_to: done.reply_to,
    }
}

/// The completion of a group without a parent.
pub fn group_completion(contribution: &V4CollectiveContribute, done: &GroupDone) -> (r:
    V4CollectiveCompletion)
    ensures
        r@ == (V4CollectiveCompletionView {
            request_id: contribution@.request_id,
            job_id: contribution@.job_id,
            plan_generation: contribution@.plan_generation,
            generation: contribution@.generation,
            group_id: done.group_id,
            values: done.values@,
            contributors: done.contributors,
            expected_groups: done.expected_groups,
            reply_to: done.reply_to,
        }),
{
    V4CollectiveCompletion {
        request_id: contribution.request_id,
        job_id: contribution.job_id,
        plan_generation: contribution.plan_generation,
        generation: contribution.generation,
        group_id: done.group_id,
        values: done.values.clone(),
        contributors: done.contributors,
        expected_groups: done.expected_groups,
        reply_to: done.reply_to,
    }
}

/// Whether a group sum comes from the aggregator that the plan names.
pub fn aggregate_authorized(plan: &V4TrainingPlan, peer: NodeId, aggregate: &V4CollectiveAggregate) -> (r:
    bool)
    ensures
        r == (combines_updates(plan@.strategy) && plan@.workers.contains(aggregate@.aggregator)
            && aggregate@.aggregator == peer),
{
    runs_collectives(plan.strategy) && contains_id(&plan.workers, aggregate.aggregator)
        && aggregate.aggregator == peer
}

/// The group has given other values before.
pub open spec fn group_conflicts(
    groups: Map<u16, GroupSumView>,
    group_id: u16,
    sum: GroupSumView,
) -> bool {
    groups.contains_key(group_id) && groups[group_id] != sum
}

/// The total of all groups.
pub open spec fn collective_result(
    state: V4CollectiveStateView,
    request_id: JobId,
) -> V4CollectiveResultView {
    let groups = ordered_values(state.groups);
    let len = state.value_len as int;
    V4CollectiveResultView {
        request_id,
        job_id: state.job_id,
        plan_generation: state.plan_generation,
        generation: state.generation,
        values: total(rows_of_groups(groups), state.value_len as nat),
        group_count: state.expected_groups,
        max_fan_in: MAX_FAN_IN,
        contributor_bytes: sat_u64(sat_u64(contributors_of(groups) * len) * 8) as u64,
        root_received_bytes: sat_u64(sat_u64(state.expected_groups * len) * 8) as u64,
    }
}

/// The collective once a group sum is in.
pub open spec fn with_sum(
    state: V4CollectiveStateView,
    group_id: u16,
    sum: GroupSumView,
) -> V4CollectiveStateView {
    V4CollectiveStateView { groups: state.groups.insert(group_id, sum), ..state }
}

fn finish_groups(state: &V4CollectiveState, request_id: JobId) -> (r: V4CollectiveResult)
    ensures
        r@ == collective_result(state@, request_id),
{
    let groups = state.groups.values();
    let ghost all = ordered_values(state@.groups);
    let ghost rows = rows_of_groups(all);
    let mut sum = zero_values(state.value_len);
    let mut contributors: u16 = 0;
    let mut i: usize = 0;
    while i < groups.len()
        invariant
            0 <= i <= groups@.len(),
            all == views(groups@),
            rows == rows_of_groups(all),
            sum@ == total(rows.take(i as int), state.value_len as nat),
            contributors == contributors_of(all.take(i as int)),
        decreases groups@.len() - i,
    {
        proof {
            assert(rows.take(i as int + 1).drop_last() =~= rows.take(i as int));
            assert(all[i as int] == groups@[i as int]@);
            assert(rows.take(i as int + 1).last() == groups@[i as int].values@);
            assert(all.take(i as int + 1).drop_last() =~= all.take(i as int));
            assert(all.take(i as int + 1).last() == groups@[i as int]@);
        }
        sum = plus_values(&sum, &groups[i].values);
        contributors = contributors.saturating_add(groups[i].contributors);
        i += 1;
    }
    proof {
        assert(rows.take(i as int) =~= rows);
        assert(all.take(i as int) =~= all);
    }
    V4CollectiveResult {
        request_id,
        job_id: state.job_id,
        plan_generation: state.plan_generation,
        generation: state.generation,
        values: sum,
        group_count: state.expected_groups,
        max_fan_in: MAX_FAN_IN,
        contributor_bytes: sat_mul_u64(
            sat_mul_u64(contributors as u64, state.value_len as u64),
            8,
        ),
        root_received_bytes: sat_mul_u64(
            sat_mul_u64(state.expected_groups as u64, state.value_len as u64),
            8,
        ),
    }
}

fn join_group(
    state: &mut V4CollectiveState,
    request_id: JobId,
    group_id: u16,
    values: &Vec<i64>,
    contributors: u16,
) -> (r: Result<Option<V4CollectiveResult>, CollectiveError>)
    ensures
        ({
            let before = old(state)@;
            let sum = GroupSumView { values: values@, contributors };
            let joined = with_sum(before, group_id, sum);
            let complete = ordered_values(joined.groups).len() == before.expected_groups;
            match r {
                Err(e) => e == CollectiveError::Duplicate && group_conflicts(
                    before.groups,
                    group_id,
                    sum,
                ) && final(state)@ == before,
                Ok(result) => {
                    &&& !group_conflicts(before.groups, group_id, sum)
                    &&& final(state)@ == joined
                    &&& match result {
                        Some(v) => complete && v@ == collective_result(joined, request_id),
                        None => !complete,
                    }
                },
            }
        }),
{
    let ghost before = state@;
    let ghost sum = GroupSumView { values: values@, contributors };
    let known = match state.groups.get(group_id) {
        Some(earlier) => {
            if !same_values(&earlier.values, values) || earlier.contributors != contributors {
                return Err(CollectiveError::Duplicate);
            }
            true
        },
        None => false,
    };
    if !known {
        let entry = GroupSum { values: values.clone(), contributors };
        assert(entry@ =~= sum);
        state.groups.insert(group_id, entry);
    }
    proof {
        if known {
            assert(before.groups[group_id] =~= sum);
        }
        assert(state@.groups =~= before.groups.insert(group_id, sum));
        assert(state@ =~= with_sum(before, group_id, sum));
    }
    if state.groups.len() == state.expected_groups as usize {
        Ok(Some(finish_groups(state, request_id)))
    } else {
        Ok(None)
    }
}

/// What a group sum leads to.
pub open spec fn joins_to(
    r: Result<Option<V4CollectiveResult>, CollectiveError>,
    before: V4CollectiveStateView,
    after: V4CollectiveStateView,
    request_id: JobId,
    group_id: u16,
    sum: GroupSumView,
    fits: bool,
) -> bool {
    let joined = with_sum(before, group_id, sum);
    let complete = ordered_values(joined.groups).len() == before.expected_groups;
    let conflicts = group_conflicts(before.groups, group_id, sum);
    match r {
        Err(CollectiveError::Conflict) => !fits && after == before,
        Err(CollectiveError::Duplicate) => fits && conflicts && after == before,
        Ok(Some(v)) => fits && !conflicts && complete && after == joined && v@
            == collective_result(joined, request_id),
        Ok(None) => fits && !conflicts && !complete && after == joined,
        Err(_) => false,
    }
}

/// Take in the sum of a group. Where it is the last, the result is the total,
/// and the request is closed.
pub fn receive_collective_aggregate(
    state: &mut V4CollectiveState,
    aggregate: &V4CollectiveAggregate,
) -> (r: Result<Option<V4CollectiveResult>, CollectiveError>)
    ensures
        joins_to(
            r,
            old(state)@,
            final(state)@,
            aggregate@.request_id,
            aggregate@.group_id,
            (GroupSumView { values: aggregate@.values, contributors: aggregate@.contributors }),
            same_terms(
                old(state)@,
                aggregate@.job_id,
                aggregate@.plan_generation,
                aggregate@.generation,
                aggregate@.expected_groups,
                aggregate@.reply_to,
                aggregate@.values.len() as int,
            ),
        ),
{
    if state.job_id != aggregate.job_id || state.plan_generation != aggregate.plan_generation
        || state.generation != aggregate.generation || state.expected_groups
        != aggregate.expected_groups || state.reply_to != aggregate.reply_to || state.value_len
        != aggregate.values.len() {
        return Err(CollectiveError::Conflict);
    }
    join_group(
        state,
        aggregate.request_id,
        aggregate.group_id,
        &aggregate.values,
        aggregate.contributors,
    )
}

/// Take in the sum of this node's own group, where it has no parent.
pub fn finish_collective_group(
    state: &mut V4CollectiveState,
    completion: &V4CollectiveCompletion,
) -> (r: Result<Option<V4CollectiveResult>, CollectiveError>)
    ensures
        joins_to(
            r,
            old(state)@,
            final(state)@,
            completion@.request_id,
            completion@.group_id,
            (GroupSumView { values: completion@.values, contributors: completion@.contributors }),
            same_terms(
                old(state)@,
                completion@.job_id,
                completion@.plan_generation,
                completion@.generation,
                completion@.expected_groups,
                completion@.reply_to,
                completion@.values.len() as int,
            ),
        ),
{
    if state.job_id != completion.job_id || state.plan_generation != completion.plan_generation
        || state.generation != completion.generation || state.expected_groups
        != completion.expected_groups || state.reply_to != completion.reply_to || state.value_len
        != completion.values.len() {
        return Err(CollectiveError::Conflict);
    }
    join_group(
        state,
        completion.request_id,
        completion.group_id,
        &completion.values,
        completion.contributors,
    )
}

/// What goes out once a group is complete.
#[derive(Debug, PartialEq, Eq)]
pub struct GroupClosing {
    /// The group sum, for the parent of the aggregator.
    pub to_parent: Option<(NodeId, V4CollectiveAggregate)>,
    /// The total, for whoever asked for it, where every group is in.
    pub result: Option<(NodeId, V4CollectiveResult)>,
}

/// The contents of a [`GroupClosing`].
#[verifier::ext_equal]
pub struct GroupClosingView {
    pub to_parent: Option<(NodeId, V4CollectiveAggregateView)>,
    pub result: Option<(NodeId, V4CollectiveResultView)>,
}

impl View for GroupClosing {
    type V = GroupClosingView;

    open spec fn view(&self) -> GroupClosingView {
        GroupClosingView {
            to_parent: match self.to_parent {
                Some((parent, message)) => Some((parent, message@)),
                None => None,
            },
            result: match self.result {
                Some((reply_to, result)) => Some((reply_to, result@)),
                None => None,
            },
        }
    }
}

/// What goes out for a collective whose group `c` has completed: the group sum to the
/// parent, where there is one, and the total, where every group is in.
pub open spec fn closing_of(
    closed: V4CollectiveStateView,
    c: V4CollectiveContributeView,
    node: NodeId,
) -> GroupClosingView {
    GroupClosingView {
        to_parent: match closed.parent {
            Some(parent) => Some(
                (
                    parent,
                    V4CollectiveAggregateView {
                        request_id: c.request_id,
                        job_id: c.job_id,
                        plan_generation: c.plan_generation,
                        generation: c.generation,
                        group_id: closed.group_id,
                        aggregator: node,
                        values: closed.groups[closed.group_id].values,
                        contributors: closed.expected_contributors,
                        expected_groups: closed.expected_groups,
                        reply_to: closed.reply_to,
                    },
                ),
            ),
            None => None,
        },
        result: if ordered_values(closed.groups).len() == closed.expected_groups {
            Some((closed.reply_to, collective_result(closed, c.request_id)))
        } else {
            None
        },
    }
}

/// Take in a contribution. Where it completes the group, the result is what goes
/// out: both the group sum for the parent and, where every group is in, the total.
pub fn take_contribution(
    state: &mut V4CollectiveState,
    contribution: &V4CollectiveContribute,
    node: NodeId,
) -> (r: Result<Option<GroupClosing>, CollectiveError>)
    ensures
        final(state)@ == contributed(old(state)@, contribution@),
        ({
            let before = old(state)@;
            let c = contribution@;
            match r {
                Err(CollectiveError::Conflict) => !contribution_fits(before, c),
                Err(CollectiveError::Duplicate) => contribution_fits(before, c)
                    && contribution_conflicts(with_group(before, c), c),
                Ok(None) => contribution_fits(before, c) && !contribution_conflicts(
                    with_group(before, c),
                    c,
                ) && !completes_group(before, c),
                Ok(Some(closing)) => completes_group(before, c) && closing@ == closing_of(
                    contributed(before, c),
                    c,
                    node,
                ),
                Err(_) => false,
            }
        }),
{
    let done = match receive_collective_contribution(state, contribution) {
        Err(error) => {
            return Err(error);
        },
        Ok(None) => {
            return Ok(None);
        },
        Ok(Some(done)) => done,
    };
    let ghost closed = state@;
    let completion = group_completion(contribution, &done);
    proof {
        let grouped = with_group(old(state)@, contribution@);
        let rows = rows_of(with_contribution(grouped.contributions, contribution@));
        lemma_total_len(rows, grouped.value_len as nat);
        let sum = GroupSumView { values: done.values@, contributors: done.contributors };
        assert(closed.groups[done.group_id] == sum);
        assert(closed.groups.insert(done.group_id, sum) =~= closed.groups);
        assert(with_sum(closed, done.group_id, sum) =~= closed);
    }
    let total = match finish_collective_group(state, &completion) {
        Err(error) => {
            return Err(error);
        },
        Ok(total) => total,
    };
    let to_parent = match done.parent {
        Some(parent) => Some((parent, group_message(contribution, node, &done))),
        None => None,
    };
    let result = match total {
        Some(total) => Some((done.reply_to, total)),
        None => None,
    };
    let closing = GroupClosing { to_parent, result };
    assert(closing@ =~= closing_of(closed, contribution@, node));
    Ok(Some(closing))
}

/// The sum of column `k`.
pub open spec fn column(rows: Seq<Seq<i64>>, k: int) -> int
    decreases rows.len(),
{
    if rows.len() == 0 {
        0
    } else {
        column(rows.drop_last(), k) + rows.last()[k]
    }
}

/// The sum of the magnitudes in column `k`.
pub open spec fn magnitude(rows: Seq<Seq<i64>>, k: int) -> int
    decreases rows.len(),
{
    if rows.len() == 0 {
        0
    } else {
        magnitude(rows.drop_last(), k) + crate::base::arith::abs_int(rows.last()[k] as int)
    }
}

/// Every row has `len` values.
pub open spec fn regular(rows: Seq<Seq<i64>>, len: nat) -> bool {
    forall|i: int| 0 <= i < rows.len() ==> (#[trigger] rows[i]).len() == len
}

/// A total has `len` values.
pub proof fn lemma_total_len(rows: Seq<Seq<i64>>, len: nat)
    ensures
        total(rows, len).len() == len,
    decreases rows.len(),
{
    if rows.len() > 0 {
        lemma_total_len(rows.drop_last(), len);
    }
}

/// Where the magnitudes of a column fit into 64 bits, the total holds its exact
/// sum.
pub proof fn law_total_is_exact(rows: Seq<Seq<i64>>, len: nat, k: int)
    requires
        regular(rows, len),
        0 <= k < len,
        magnitude(rows, k) <= i64::MAX,
    ensures
        total(rows, len)[k] == column(rows, k),
        crate::base::arith::abs_int(column(rows, k)) <= magnitude(rows, k),
    decreases rows.len(),
{
    lemma_total_len(rows, len);
    if rows.len() > 0 {
        let rest = rows.drop_last();
        assert forall|i: int| 0 <= i < rest.len() implies (#[trigger] rest[i]).len() == len by {
            assert(rest[i] == rows[i]);
        }
        assert(rows.last() == rows[rows.len() - 1]);
        lemma_total_len(rest, len);
        law_total_is_exact(rest, len, k);
    }
}

proof fn lemma_column_without(rows: Seq<Seq<i64>>, k: int, i: int)
    requires
        0 <= i < rows.len(),
    ensures
        column(rows, k) == column(rows.remove(i), k) + rows[i][k],
    decreases rows.len(),
{
    if i == rows.len() - 1 {
        assert(rows.remove(i) =~= rows.drop_last());
    } else {
        lemma_column_without(rows.drop_last(), k, i);
        assert(rows.remove(i).drop_last() =~= rows.drop_last().remove(i));
        assert(rows.remove(i).last() == rows.last());
    }
}

/// The order in which rows arrive does not change the sum of a column.
pub proof fn law_sum_ignores_order(a: Seq<Seq<i64>>, b: Seq<Seq<i64>>, k: int)
    requires
        a.to_multiset() == b.to_multiset(),
    ensures
        column(a, k) == column(b, k),
    decreases a.len(),
{
    broadcast use vstd::seq_lib::group_to_multiset_ensures;

    assert(a.to_multiset().len() == a.len());
    assert(b.to_multiset().len() == b.len());
    if a.len() > 0 {
        let x = a.last();
        assert(a[a.len() - 1] == x);
        assert(a.contains(x));
        assert(a.to_multiset().count(x) > 0);
        assert(b.to_multiset().count(x) > 0);
        assert(b.contains(x));
        let i = choose|i: int| 0 <= i < b.len() && b[i] == x;
        assert(a.remove(a.len() - 1) =~= a.drop_last());
        assert(a.drop_last().to_multiset() =~= a.to_multiset().remove(x));
        assert(b.remove(i).to_multiset() =~= b.to_multiset().remove(x));
        law_sum_ignores_order(a.drop_last(), b.remove(i), k);
        lemma_column_without(b, k, i);
    }
}

/// Every row that a collective holds has the agreed length.
pub open spec fn collective_wf(state: V4CollectiveStateView) -> bool {
    &&& forall|i: int|
        0 <= i < state.contributions.len() ==> (#[trigger] state.contributions[i]).values.len()
            == state.value_len
    &&& forall|g: u16| #[trigger]
        state.groups.contains_key(g) ==> state.groups[g].values.len() == state.value_len
}

/// A collective holds rows of the agreed length only, whatever comes in.
pub proof fn law_collective_rows_agree(
    state: V4CollectiveStateView,
    c: V4CollectiveContributeView,
    group_id: u16,
    sum: GroupSumView,
    a: V4CollectiveAggregateView,
)
    requires
        collective_wf(state),
        sum.values.len() == state.value_len,
    ensures
        collective_wf(opened_by(c)),
        collective_wf(opened_by_aggregate(a)),
        collective_wf(contributed(state, c)),
        collective_wf(with_sum(state, group_id, sum)),
{
    let grouped = with_group(state, c);
    let rows = with_contribution(grouped.contributions, c);
    lemma_total_len(rows_of(rows), state.value_len as nat);
    if contribution_fits(state, c) {
        assert forall|i: int| 0 <= i < rows.len() implies (#[trigger] rows[i]).values.len()
            == state.value_len by {
            if i < grouped.contributions.len() {
                assert(grouped.contributions[i] == rows[i]);
            }
        }
    }
}

/// A contribution that comes in again changes nothing.
pub proof fn law_contribution_counts_once(
    state: V4CollectiveStateView,
    c: V4CollectiveContributeView,
)
    requires
        contribution_fits(state, c),
        state.expected_contributors > 0,
        !contribution_conflicts(state, c),
        !completes_group(state, c),
    ensures
        contributed(contributed(state, c), c) == contributed(state, c),
        contributed(state, c).contributions.len() <= state.contributions.len() + 1,
{
    let once = contributed(state, c);
    let rows = with_contribution(state.contributions, c);
    if find(state.contributions, from(c.contributor)) is None {
        crate::base::search::lemma_find_sound(state.contributions, from(c.contributor));
        assert forall|j: int| 0 <= j < state.contributions.len() implies !from(c.contributor)(
            #[trigger] rows[j],
        ) by {
            assert(rows[j] == state.contributions[j]);
        }
        lemma_find_at(rows, from(c.contributor), state.contributions.len() as int);
    }
    assert(contributed(once, c) =~= once);
}

/// Two aggregators that hold the same group sums report the same total.
pub proof fn law_aggregators_agree(
    a: V4CollectiveStateView,
    b: V4CollectiveStateView,
    request_id: JobId,
)
    requires
        a.groups == b.groups,
        a.value_len == b.value_len,
    ensures
        collective_result(a, request_id).values == collective_result(b, request_id).values,
        collective_result(a, request_id).contributor_bytes == collective_result(
            b,
            request_id,
        ).contributor_bytes,
{
}

/// A contribution opens a collective on its own terms, and so does a group sum that comes
/// first; a contribution then gives the group.
pub proof fn law_collective_opens_on_its_terms(
    c: V4CollectiveContributeView,
    a: V4CollectiveAggregateView,
)
    requires
        c.values.len() <= usize::MAX,
        a.values.len() <= usize::MAX,
    ensures
        ({
            let s = opened_by(c);
            &&& s.job_id == c.job_id && s.plan_generation == c.plan_generation
            &&& s.generation == c.generation && s.expected_groups == c.expected_groups
            &&& s.expected_contributors == c.expected_contributors && s.group_id == c.group_id
            &&& s.parent == c.parent && s.reply_to == c.reply_to
            &&& s.value_len == c.values.len()
            &&& s.contributions.len() == 0
            &&& s.groups == Map::<u16, GroupSumView>::empty()
            &&& contribution_fits(s, c)
        }),
        ({
            let s = opened_by_aggregate(a);
            &&& s.job_id == a.job_id && s.plan_generation == a.plan_generation
            &&& s.generation == a.generation && s.expected_groups == a.expected_groups
            &&& s.reply_to == a.reply_to && s.value_len == a.values.len()
            &&& s.expected_contributors == 0 && s.contributions.len() == 0
            &&& s.groups == Map::<u16, GroupSumView>::empty()
        }),
{
}

/// A contribution fits only the same job, plan, generation, number of groups, receiver
/// and number of values, and, where the group is known, the same group.
pub proof fn law_contributions_fit_their_collective(
    state: V4CollectiveStateView,
    c: V4CollectiveContributeView,
)
    ensures
        contribution_fits(state, c) ==> {
            &&& state.job_id == c.job_id && state.plan_generation == c.plan_generation
            &&& state.generation == c.generation && state.expected_groups == c.expected_groups
            &&& state.reply_to == c.reply_to && state.value_len == c.values.len()
            &&& state.expected_contributors != 0 ==> state.expected_contributors
                == c.expected_contributors && state.group_id == c.group_id && state.parent
                == c.parent
        },
        !contribution_fits(state, c) ==> contributed(state, c) == state,
        state.job_id == c.job_id && state.plan_generation == c.plan_generation && state.generation
            == c.generation && state.expected_groups == c.expected_groups && state.reply_to
            == c.reply_to && state.value_len == c.values.len() && state.group_id == c.group_id
            && state.parent == c.parent && state.expected_contributors == c.expected_contributors
            ==> contribution_fits(state, c),
{
}

/// A new contribution that fits is added with its values; the last one expected closes
/// the group, whose sum is then kept under its number with the number of contributors.
pub proof fn law_group_closes_with_its_last_contribution(
    state: V4CollectiveStateView,
    c: V4CollectiveContributeView,
    other: u16,
)
    requires
        contribution_fits(state, c),
        state.expected_contributors > 0,
        forall|i: int|
            0 <= i < state.contributions.len() ==> (#[trigger] state.contributions[i]).contributor
                != c.contributor,
    ensures
        ({
            let after = contributed(state, c);
            let rows = rows_of(state.contributions).push(c.values);
            let last = state.contributions.len() + 1 == state.expected_contributors;
            &&& !last ==> {
                &&& after.contributions.len() == state.contributions.len() + 1
                &&& after.contributions.last().contributor == c.contributor
                &&& after.contributions.last().values == c.values
                &&& after.groups == state.groups
            }
            &&& last ==> {
                &&& after.contributions.len() == 0
                &&& after.groups.contains_key(state.group_id)
                &&& after.groups[state.group_id].values == total(rows, state.value_len as nat)
                &&& after.groups[state.group_id].contributors == state.expected_contributors
                &&& other != state.group_id ==> after.groups.contains_key(other)
                    == state.groups.contains_key(other) && after.groups[other]
                    == state.groups[other]
            }
            &&& completes_group(state, c) <==> last
        }),
{
    lemma_find_at(state.contributions, from(c.contributor), state.contributions.len() as int);
    let all = state.contributions.push(
        ContributionView { contributor: c.contributor, values: c.values },
    );
    assert(rows_of(all) =~= rows_of(state.contributions).push(c.values));
}

/// The total of all groups answers the request, on the terms of the collective; it counts
/// eight bytes for every value of a contributor, and of a group at the root.
pub proof fn law_total_answers_the_request(state: V4CollectiveStateView, request_id: JobId)
    requires
        state.expected_groups * state.value_len * 8 <= u64::MAX,
        65_535 * state.value_len * 8 <= u64::MAX,
    ensures
        ({
            let r = collective_result(state, request_id);
            &&& r.request_id == request_id && r.job_id == state.job_id
            &&& r.plan_generation == state.plan_generation && r.generation == state.generation
            &&& r.group_count == state.expected_groups
            &&& r.max_fan_in == 2
            &&& r.values == total(
                rows_of_groups(ordered_values(state.groups)),
                state.value_len as nat,
            )
            &&& r.root_received_bytes == state.expected_groups * state.value_len * 8
            &&& r.contributor_bytes == contributors_of(ordered_values(state.groups))
                * state.value_len * 8
        }),
{
    let n = contributors_of(ordered_values(state.groups));
    let len = state.value_len as int;
    lemma_contributors_range(ordered_values(state.groups));
    assert(0 <= n * len <= 65_535 * len) by (nonlinear_arith)
        requires
            0 <= n <= 65_535,
            len >= 0,
    ;
    let g = state.expected_groups as int;
    assert(g * len >= 0) by (nonlinear_arith)
        requires
            g >= 0,
            len >= 0,
    ;
}

proof fn lemma_contributors_range(groups: Seq<GroupSumView>)
    ensures
        0 <= contributors_of(groups) <= 65_535,
    decreases groups.len(),
{
    if groups.len() > 0 {
        lemma_contributors_range(groups.drop_last());
    }
}

/// Contributors add up group by group, as far as sixteen bits go.
pub proof fn law_contributors_add_up(groups: Seq<GroupSumView>, group: GroupSumView)
    ensures
        contributors_of(Seq::empty()) == 0,
        contributors_of(groups) + group.contributors <= 65_535 ==> contributors_of(
            groups.push(group),
        ) == contributors_of(groups) + group.contributors,
        contributors_of(groups.push(group)) <= 65_535,
{
    lemma_contributors_range(groups.push(group));
    assert(groups.push(group).drop_last() =~= groups);
}

/// A closed group reports its sum to its parent in its own name, and the total goes to
/// who asked once every group is in.
pub proof fn law_closed_group_reports(
    closed: V4CollectiveStateView,
    c: V4CollectiveContributeView,
    node: NodeId,
)
    ensures
        ({
            let r = closing_of(closed, c, node);
            &&& r.to_parent is Some <==> closed.parent is Some
            &&& r.to_parent matches Some((parent, a)) ==> {
                &&& closed.parent == Some(parent)
                &&& a.values == closed.groups[closed.group_id].values
                &&& a.contributors == closed.expected_contributors
                &&& a.group_id == closed.group_id && a.aggregator == node
                &&& a.expected_groups == closed.expected_groups && a.reply_to == closed.reply_to
                &&& a.request_id == c.request_id && a.job_id == c.job_id
                &&& a.plan_generation == c.plan_generation && a.generation == c.generation
            }
            &&& r.result is Some <==> ordered_values(closed.groups).len()
                == closed.expected_groups
            &&& r.result matches Some((to, total)) ==> to == closed.reply_to && total.request_id
                == c.request_id && total.group_count == closed.expected_groups
        }),
{
}

/// The plan has to name everyone that a contribution names, and to combine updates.
pub proof fn law_contributors_are_planned(
    plan: V4TrainingPlanView,
    c: V4CollectiveContributeView,
)
    ensures
        contribution_planned(plan, c) ==> plan.workers.contains(c.contributor)
            && plan.workers.contains(c.aggregator) && (c.parent is Some ==> plan.workers.contains(
            c.parent->0,
        )),
        plan.strategy is Hybrid && plan.workers.contains(c.contributor) && plan.workers.contains(
            c.aggregator,
        ) && c.parent is None ==> contribution_planned(plan, c),
{
}

/// A group sum is kept under its group; the total comes with the last group, and what does
/// not fit or contradicts an earlier sum changes nothing.
pub proof fn law_group_sums_are_kept(
    r: Result<Option<V4CollectiveResult>, CollectiveError>,
    before: V4CollectiveStateView,
    after: V4CollectiveStateView,
    request_id: JobId,
    group_id: u16,
    sum: GroupSumView,
    fits: bool,
    other: u16,
)
    requires
        joins_to(r, before, after, request_id, group_id, sum, fits),
    ensures
        r is Ok ==> after.groups.contains_key(group_id) && after.groups[group_id] == sum,
        r is Err ==> after == before,
        other != group_id ==> after.groups.contains_key(other) == before.groups.contains_key(other)
            && after.groups[other] == before.groups[other],
        r is Ok <==> fits && (!before.groups.contains_key(group_id) || before.groups[group_id]
            == sum),
        r matches Ok(Some(v)) ==> v@.request_id == request_id && ordered_values(after.groups).len()
            == before.expected_groups,
        r matches Ok(None) ==> ordered_values(after.groups).len() != before.expected_groups,
        after.contributions == before.contributions,
{
}

} // verus!
