//! The coordinator of a job: window dispatch, aggregates, aggregator
//! replacement and the figures of a finished run.

use crate::base::arith::{max_int, max_u64, sat_mul_u64, sat_u64};
use crate::base::ids::NodeId;
use crate::base::members::{contains_id, filter_other_than, filter_outside, first_outside};
use crate::base::ordered::ordered_keys;
use crate::base::record::Duplicate;
use crate::base::search::{find, lemma_views_push, opt_view, other_than, outside, views};
use crate::reference::context::{
    group_for, of_group, state_of, trained_loss, trained_loss_fits, with_summaries, Context,
    ContextView,
};
use crate::reference::sgd::{loss_fits, mean_loss, samples_for_shard, samples_loss, shard_samples};
use crate::reference::types::{
    Role, TrainingAggregate, TrainingAggregateView, TrainingGroup, TrainingGroupView,
    TrainingElection, TrainingShardAssignmentView, TrainingStart, TrainingState, TrainingWindow,
    TrainingWindowView,
};
use crate::reference::worker::{
    aggregate_summary, handle_election, summary_of_aggregate, vote_reply, voted, VoteReply,
    VoteReplyView,
};
use vstd::prelude::*;

verus! {

/// The generation that the coordinator knows of a shard.
pub open spec fn known_generation(c: ContextView, shard_id: u16) -> u64 {
    if c.shard_summaries.contains_key(shard_id) {
        c.shard_summaries[shard_id].generation
    } else {
        0
    }
}

fn generation_of(context: &Context, shard_id: u16) -> (r: u64)
    ensures
        r == known_generation(context@, shard_id),
{
    match context.shard_summaries.get(shard_id) {
        Some(summary) => summary.generation,
        None => 0,
    }
}

/// The command for one window of one group.
pub open spec fn window_command(
    c: ContextView,
    group: TrainingGroupView,
    window: u64,
) -> TrainingWindowView {
    TrainingWindowView {
        job_id: c.start.job_id,
        coordinator: c.coordinator,
        term: c.term,
        membership_epoch: c.start.membership_epoch,
        branch: c.branch,
        window,
        group_id: group.group_id,
        shard_id: group.shard_id,
        aggregator: group.aggregator,
        members: group.members,
        base_generation: known_generation(c, group.shard_id),
        local_steps: c.start.local_steps,
        max_staleness: c.start.max_staleness,
    }
}

/// The command for one window of one group.
pub fn command_window(context: &Context, group: &TrainingGroup, window: u64) -> (r: TrainingWindow)
    ensures
        r@ == window_command(context@, group@, window),
{
    TrainingWindow {
        job_id: context.start.job_id,
        coordinator: context.coordinator,
        term: context.term,
        membership_epoch: context.start.membership_epoch,
        branch: context.branch,
        window,
        group_id: group.group_id,
        shard_id: group.shard_id,
        aggregator: group.aggregator,
        members: group.members.clone(),
        base_generation: generation_of(context, group.shard_id),
        local_steps: context.start.local_steps,
        max_staleness: context.start.max_staleness,
    }
}

/// The window that a group is to train next, unless it has trained the last.
pub open spec fn next_window(c: ContextView, group: TrainingGroupView) -> Option<u64> {
    let next = if c.shard_summaries.contains_key(group.shard_id) {
        sat_u64(c.shard_summaries[group.shard_id].generation + 1) as u64
    } else {
        1u64
    };
    if next <= c.start.max_windows {
        Some(next)
    } else {
        None
    }
}

/// The window that a group is to train next, unless it has trained the last.
pub fn window_due(context: &Context, group: &TrainingGroup) -> (r: Option<u64>)
    ensures
        r == next_window(context@, group@),
{
    let next: u64 = match context.shard_summaries.get(group.shard_id) {
        Some(summary) => summary.generation.saturating_add(1),
        None => 1,
    };
    if next <= context.start.max_windows {
        Some(next)
    } else {
        None
    }
}

/// What the coordinator does for one member of a group when it dispatches a window.
#[derive(Clone, Copy, Debug, PartialEq, Eq, Structural)]
pub enum DispatchAction {
    /// Nothing.
    Skip,
    /// Gather the updates of the group itself.
    Collect,
    /// Compute the own update and send it to the aggregator.
    Update,
    /// Send the command to the member.
    Send,
}

/// The action for one member when groups advance on their own.
pub open spec fn autonomous_action(
    c: ContextView,
    node: NodeId,
    group: TrainingGroupView,
    member: NodeId,
) -> DispatchAction {
    if c.failed.contains(member) {
        DispatchAction::Skip
    } else if member != node {
        DispatchAction::Send
    } else if member == group.aggregator {
        DispatchAction::Collect
    } else if c.assignment.shard_id == group.shard_id {
        DispatchAction::Update
    } else {
        DispatchAction::Skip
    }
}

/// The action for one member when groups advance on their own.
pub fn dispatch_autonomous_window(
    context: &Context,
    node: NodeId,
    group: &TrainingGroup,
    member: NodeId,
) -> (r: DispatchAction)
    ensures
        r == autonomous_action(context@, node, group@, member),
{
    if context.failed.contains(member) {
        DispatchAction::Skip
    } else if member != node {
        DispatchAction::Send
    } else if member == group.aggregator {
        DispatchAction::Collect
    } else if context.assignment.shard_id == group.shard_id {
        DispatchAction::Update
    } else {
        DispatchAction::Skip
    }
}

/// The action for one member when the coordinator paces the groups.
pub open spec fn paced_action(
    c: ContextView,
    node: NodeId,
    group: TrainingGroupView,
    member: NodeId,
) -> DispatchAction {
    if c.failed.contains(member) {
        DispatchAction::Skip
    } else if member != node {
        DispatchAction::Send
    } else if member != group.aggregator {
        DispatchAction::Update
    } else {
        DispatchAction::Skip
    }
}

/// The action for one member when the coordinator paces the groups.
pub fn run_group_window(
    context: &Context,
    node: NodeId,
    group: &TrainingGroup,
    member: NodeId,
) -> (r: DispatchAction)
    ensures
        r == paced_action(context@, node, group@, member),
{
    if context.failed.contains(member) {
        DispatchAction::Skip
    } else if member != node {
        DispatchAction::Send
    } else if member != group.aggregator {
        DispatchAction::Update
    } else {
        DispatchAction::Skip
    }
}

/// `groups` with `id` added at the end unless it is there.
pub open spec fn with_group(groups: Seq<u16>, id: u16) -> Seq<u16> {
    if groups.contains(id) {
        groups
    } else {
        groups.push(id)
    }
}

/// The groups among the first `n` whose shard has reached the last window.
pub open spec fn finished_groups(c: ContextView, n: int) -> Seq<u16>
    decreases n,
{
    if n <= 0 {
        Seq::empty()
    } else {
        let before = finished_groups(c, n - 1);
        let group = c.start.groups[n - 1];
        if known_generation(c, group.shard_id) >= c.start.max_windows {
            with_group(before, group.group_id)
        } else {
            before
        }
    }
}

/// The progress of the first `n` groups, taken from what is known of their shards.
pub open spec fn rebuilt_progress(c: ContextView, n: int) -> Map<u16, u64>
    decreases n,
{
    if n <= 0 {
        c.group_progress
    } else {
        let group = c.start.groups[n - 1];
        rebuilt_progress(c, n - 1).insert(group.group_id, known_generation(c, group.shard_id))
    }
}

fn holds_group(groups: &Vec<u16>, id: u16) -> (r: bool)
    ensures
        r == groups@.contains(id),
{
    let mut i: usize = 0;
    while i < groups.len()
        invariant
            0 <= i <= groups@.len(),
            forall|j: int| 0 <= j < i ==> groups@[j] != id,
        decreases groups@.len() - i,
    {
        if groups[i] == id {
            assert(groups@[i as int] == id);
            return true;
        }
        i += 1;
    }
    false
}

fn add_group(groups: &mut Vec<u16>, id: u16)
    ensures
        final(groups)@ == with_group(old(groups)@, id),
{
    if !holds_group(groups, id) {
        groups.push(id);
    }
}

/// Rebuild the progress of the groups from durable shard state. The result
/// lists the groups that have trained the last window already.
pub fn rebuild_progress(context: &mut Context) -> (r: Vec<u16>)
    ensures
        final(context)@ == (ContextView {
            group_progress: rebuilt_progress(
                old(context)@,
                old(context)@.start.groups.len() as int,
            ),
            ..old(context)@
        }),
        r@ == finished_groups(old(context)@, old(context)@.start.groups.len() as int),
{
    let ghost c = context@;
    let mut completed: Vec<u16> = Vec::new();
    let mut i: usize = 0;
    while i < context.start.groups.len()
        invariant
            0 <= i <= c.start.groups.len(),
            c.start.groups.len() == context.start.groups@.len(),
            context@ == (ContextView { group_progress: rebuilt_progress(c, i as int), ..c }),
            completed@ == finished_groups(c, i as int),
        decreases c.start.groups.len() - i,
    {
        let shard_id = context.start.groups[i].shard_id;
        let group_id = context.start.groups[i].group_id;
        assert(context@.start.groups[i as int] == context.start.groups@[i as int]@);
        let generation = generation_of(context, shard_id);
        context.group_progress.insert(group_id, generation);
        if generation >= context.start.max_windows {
            add_group(&mut completed, group_id);
        }
        i += 1;
    }
    completed
}

/// An aggregate that does not belong to this job, term, branch or group, or
/// brings nothing newer.
pub open spec fn aggregate_rejected(
    c: ContextView,
    group: TrainingGroupView,
    peer: NodeId,
    a: TrainingAggregateView,
) -> bool {
    ||| peer != a.aggregator
    ||| !group.members.contains(peer)
    ||| a.job_id != c.start.job_id
    ||| a.term != c.term
    ||| a.branch != c.branch
    ||| a.shard_id != group.shard_id
    ||| a.window == 0
    ||| a.window > c.start.max_windows
    ||| (c.shard_summaries.contains_key(a.shard_id) && a.generation
        <= c.shard_summaries[a.shard_id].generation)
}

/// The context after taking in an aggregate.
pub open spec fn took_aggregate(c: ContextView, a: TrainingAggregateView) -> ContextView {
    ContextView {
        window: max_int(c.window as int, a.window as int) as u64,
        group_progress: c.group_progress.insert(a.group_id, a.window),
        accepted_updates: sat_u64(c.accepted_updates + a.contributors.len()) as u64,
        shard_values: c.shard_values.insert(a.shard_id, (a.value, a.optimizer)),
        shard_summaries: c.shard_summaries.insert(a.shard_id, aggregate_summary(a)),
        ..c
    }
}

/// Every shard has been trained at least once.
pub open spec fn all_shards_trained(c: ContextView) -> bool {
    forall|k: u16| #[trigger]
        c.shard_summaries.contains_key(k) ==> c.shard_summaries[k].generation > 0
}

/// What becomes of an aggregate.
#[derive(Debug, PartialEq, Eq)]
pub enum AggregateStep {
    /// The group is not part of this job.
    Ignored,
    /// The aggregate is counted as rejected.
    Rejected,
    /// The aggregate is taken in: the state to publish, and whether a
    /// checkpoint is due.
    Accepted(TrainingState, bool),
}

fn every_shard_trained(context: &Context) -> (r: bool)
    ensures
        r == all_shards_trained(context@),
{
    let keys = context.shard_summaries.keys();
    proof {
        crate::base::ordered::lemma_values_at_keys(context@.shard_summaries, 0);
    }
    let mut i: usize = 0;
    while i < keys.len()
        invariant
            0 <= i <= keys@.len(),
            keys@ == ordered_keys(context@.shard_summaries),
            forall|j: int|
                0 <= j < keys@.len() ==> context@.shard_summaries.contains_key(
                    #[trigger] keys@[j],
                ),
            forall|j: int|
                0 <= j < i ==> context@.shard_summaries[#[trigger] keys@[j]].generation > 0,
        decreases keys@.len() - i,
    {
        match context.shard_summaries.get(keys[i]) {
            Some(summary) => {
                if summary.generation == 0 {
                    return false;
                }
            },
            None => {},
        }
        i += 1;
    }
    assert forall|k: u16| #[trigger] context@.shard_summaries.contains_key(
        k,
    ) implies context@.shard_summaries[k].generation > 0 by {
        assert(keys@.contains(k));
        let j = choose|j: int| 0 <= j < keys@.len() && keys@[j] == k;
        assert(context@.shard_summaries[keys@[j]].generation > 0);
    }
    true
}

/// Take in the aggregate of an autonomous group.
pub fn accept_aggregate(context: &mut Context, peer: NodeId, aggregate: &TrainingAggregate) -> (r:
    AggregateStep)
    requires
        old(context).start.checkpoint_every > 0,
    ensures
        ({
            let c = old(context)@;
            let a = aggregate@;
            let group = find(c.start.groups, of_group(a.group_id));
            match r {
                AggregateStep::Ignored => group is None && final(context)@ == c,
                AggregateStep::Rejected => group is Some && aggregate_rejected(
                    c,
                    group->0,
                    peer,
                    a,
                ) && final(context)@ == (ContextView {
                    rejected_updates: sat_u64(c.rejected_updates + 1) as u64,
                    ..c
                }),
                AggregateStep::Accepted(state, checkpoint_due) => {
                    &&& group is Some
                    &&& !aggregate_rejected(c, group->0, peer, a)
                    &&& final(context)@ == took_aggregate(c, a)
                    &&& state@ == state_of(took_aggregate(c, a))
                    &&& checkpoint_due == (all_shards_trained(took_aggregate(c, a)) && a.window
                        % c.start.checkpoint_every == 0)
                },
            }
        }),
{
    let rejected = match group_for(&context.start, aggregate.group_id) {
        None => {
            return AggregateStep::Ignored;
        },
        Some(group) => {
            let stale = match context.shard_summaries.get(aggregate.shard_id) {
                Some(summary) => aggregate.generation <= summary.generation,
                None => false,
            };
            peer != aggregate.aggregator || !contains_id(&group.members, peer) || aggregate.job_id
                != context.start.job_id || aggregate.term != context.term || aggregate.branch
                != context.branch || aggregate.shard_id != group.shard_id || aggregate.window == 0
                || aggregate.window > context.start.max_windows || stale
        },
    };
    if rejected {
        context.rejected_updates = context.rejected_updates.saturating_add(1);
        return AggregateStep::Rejected;
    }
    context.window = max_u64(context.window, aggregate.window);
    context.group_progress.insert(aggregate.group_id, aggregate.window);
    context.accepted_updates = context.accepted_updates.saturating_add(
        aggregate.contributors.len() as u64,
    );
    context.shard_values.insert(aggregate.shard_id, (aggregate.value, aggregate.optimizer));
    context.shard_summaries.insert(aggregate.shard_id, summary_of_aggregate(aggregate));
    let state = context.state();
    let due = every_shard_trained(context) && aggregate.window % context.start.checkpoint_every
        == 0;
    AggregateStep::Accepted(state, due)
}

/// Another group is still behind the last window.
pub open spec fn other_group_behind(c: ContextView, group_id: u16) -> bool {
    exists|k: u16| #[trigger]
        c.group_progress.contains_key(k) && k != group_id && c.group_progress[k]
            < c.start.max_windows
}

fn is_other_group_behind(context: &Context, group_id: u16) -> (r: bool)
    ensures
        r == other_group_behind(context@, group_id),
{
    let keys = context.group_progress.keys();
    proof {
        crate::base::ordered::lemma_values_at_keys(context@.group_progress, 0);
    }
    let mut i: usize = 0;
    while i < keys.len()
        invariant
            0 <= i <= keys@.len(),
            keys@ == ordered_keys(context@.group_progress),
            forall|j: int|
                0 <= j < keys@.len() ==> context@.group_progress.contains_key(#[trigger] keys@[j]),
            forall|j: int|
                0 <= j < i ==> !(#[trigger] keys@[j] != group_id && context@.group_progress[keys@[j]]
                    < context@.start.max_windows),
        decreases keys@.len() - i,
    {
        match context.group_progress.get(keys[i]) {
            Some(progress) => {
                if keys[i] != group_id && *progress < context.start.max_windows {
                    assert(context@.group_progress.contains_key(keys@[i as int]));
                    return true;
                }
            },
            None => {},
        }
        i += 1;
    }
    assert forall|k: u16| #[trigger] context@.group_progress.contains_key(k) implies !(k != group_id
        && context@.group_progress[k] < context@.start.max_windows) by {
        assert(keys@.contains(k));
        let j = choose|j: int| 0 <= j < keys@.len() && keys@[j] == k;
        assert(!(keys@[j] != group_id && context@.group_progress[keys@[j]]
            < context@.start.max_windows));
    }
    false
}

/// Note that an accepted aggregate may have finished its group.
pub fn note_completion(context: &mut Context, completed: &mut Vec<u16>, group_id: u16, window: u64)
    ensures
        ({
            let c = old(context)@;
            let done = old(completed)@;
            if window >= c.start.max_windows {
                &&& final(completed)@ == with_group(done, group_id)
                &&& final(context)@ == (ContextView {
                    non_barrier_progress_observed: c.non_barrier_progress_observed
                        || other_group_behind(c, group_id),
                    group_completion_order: if done.contains(group_id) {
                        c.group_completion_order
                    } else {
                        c.group_completion_order.push(group_id)
                    },
                    ..c
                })
            } else {
                final(completed)@ == done && final(context)@ == c
            }
        }),
{
    if window >= context.start.max_windows {
        if is_other_group_behind(context, group_id) {
            context.non_barrier_progress_observed = true;
        }
        if !holds_group(completed, group_id) {
            context.group_completion_order.push(group_id);
        }
        add_group(completed, group_id);
    }
}

/// The groups that `peer` aggregates.
pub open spec fn led_by(peer: NodeId) -> spec_fn(TrainingGroupView) -> bool {
    |g: TrainingGroupView| g.aggregator == peer
}

/// The groups that `peer` aggregates.
pub fn groups_led_by(context: &Context, peer: NodeId) -> (r: Vec<TrainingGroup>)
    ensures
        views(r@) == context@.start.groups.filter(led_by(peer)),
{
    let mut out: Vec<TrainingGroup> = Vec::new();
    let mut i: usize = 0;
    let ghost s = context@.start.groups;
    proof {
        crate::base::search::lemma_filter_ends(s, led_by(peer));
        assert(views(out@) =~= s.take(0).filter(led_by(peer)));
    }
    while i < context.start.groups.len()
        invariant
            0 <= i <= context.start.groups@.len(),
            s == views(context.start.groups@),
            views(out@) == s.take(i as int).filter(led_by(peer)),
        decreases context.start.groups@.len() - i,
    {
        proof {
            crate::base::search::lemma_filter_step(s, led_by(peer), i as int);
            assert(s[i as int] == context.start.groups@[i as int]@);
        }
        if context.start.groups[i].aggregator == peer {
            let group = context.start.groups[i].duplicate();
            proof {
                lemma_views_push(out@, group);
            }
            out.push(group);
        }
        i += 1;
    }
    proof {
        crate::base::search::lemma_filter_ends(s, led_by(peer));
    }
    out
}

/// The group without its failed members, led by the first live one.
pub open spec fn replacement(c: ContextView, group: TrainingGroupView) -> Option<
    TrainingGroupView,
> {
    match find(group.members, outside(c.failed)) {
        None => None,
        Some(aggregator) => Some(
            TrainingGroupView {
                aggregator,
                members: group.members.filter(outside(c.failed)),
                ..group
            },
        ),
    }
}

/// The group without its failed members, led by the first live one.
pub fn replacement_group(context: &Context, group: &TrainingGroup) -> (r: Option<TrainingGroup>)
    ensures
        match r {
            Some(g) => replacement(context@, group@) == Some(g@),
            None => replacement(context@, group@) is None,
        },
{
    match first_outside(&group.members, &context.failed) {
        None => None,
        Some(aggregator) => Some(
            TrainingGroup {
                group_id: group.group_id,
                shard_id: group.shard_id,
                members: filter_outside(&group.members, &context.failed),
                aggregator,
            },
        ),
    }
}

/// The first position of a group numbered `id`, or the end.
pub open spec fn group_position(groups: Seq<TrainingGroupView>, id: u16) -> int
    decreases groups.len(),
{
    if groups.len() == 0 {
        0
    } else if groups[0].group_id == id {
        0
    } else {
        1 + group_position(groups.drop_first(), id)
    }
}

/// The groups with the first one of the same number replaced.
pub open spec fn with_replaced(groups: Seq<TrainingGroupView>, group: TrainingGroupView) -> Seq<
    TrainingGroupView,
> {
    let at = group_position(groups, group.group_id);
    if at < groups.len() {
        groups.update(at, group)
    } else {
        groups
    }
}

/// The position of a group number is one of a group with that number, or the end.
pub proof fn lemma_group_at(groups: Seq<TrainingGroupView>, id: u16)
    ensures
        0 <= group_position(groups, id) <= groups.len(),
        group_position(groups, id) < groups.len() ==> groups[group_position(groups, id)].group_id
            == id,
    decreases groups.len(),
{
    if groups.len() > 0 && groups[0].group_id != id {
        lemma_group_at(groups.drop_first(), id);
    }
}

proof fn lemma_group_position(groups: Seq<TrainingGroupView>, id: u16, i: int)
    requires
        0 <= i <= groups.len(),
        forall|j: int| 0 <= j < i ==> (#[trigger] groups[j]).group_id != id,
        i < groups.len() ==> groups[i].group_id == id,
    ensures
        group_position(groups, id) == i,
    decreases groups.len(),
{
    if groups.len() > 0 && i > 0 {
        let t = groups.drop_first();
        assert(groups[0].group_id != id);
        assert forall|j: int| 0 <= j < i - 1 implies (#[trigger] t[j]).group_id != id by {
            assert(t[j] == groups[j + 1]);
        }
        lemma_group_position(t, id, i - 1);
    }
}

/// Make `group` the active form of the group with its number.
pub fn install_group(context: &mut Context, group: &TrainingGroup)
    ensures
        final(context)@ == (ContextView {
            start: crate::reference::types::TrainingStartView {
                groups: with_replaced(old(context)@.start.groups, group@),
                ..old(context)@.start
            },
            ..old(context)@
        }),
{
    let ghost s = context@.start.groups;
    let mut i: usize = 0;
    while i < context.start.groups.len() && context.start.groups[i].group_id != group.group_id
        invariant
            0 <= i <= context.start.groups@.len(),
            s == views(context.start.groups@),
            *context == *old(context),
            forall|j: int| 0 <= j < i ==> (#[trigger] s[j]).group_id != group.group_id,
        decreases context.start.groups@.len() - i,
    {
        assert(s[i as int] == context.start.groups@[i as int]@);
        i += 1;
    }
    proof {
        if i < s.len() {
            assert(s[i as int] == context.start.groups@[i as int]@);
        }
        lemma_group_position(s, group.group_id, i as int);
    }
    if i < context.start.groups.len() {
        let copy = group.duplicate();
        context.start.groups.set(i, copy);
        assert(views(context.start.groups@) =~= s.update(i as int, group@));
    }
    assert(context@.start =~= (crate::reference::types::TrainingStartView {
        groups: with_replaced(s, group@),
        ..old(context)@.start
    }));
}

/// A replacement drops exactly the failed members and is led by one of those
/// that are left; there is one whenever a member is live.
pub proof fn law_replacement_is_live(c: ContextView, group: TrainingGroupView)
    ensures
        match replacement(c, group) {
            Some(g) => {
                &&& g.group_id == group.group_id
                &&& g.shard_id == group.shard_id
                &&& g.members.contains(g.aggregator)
                &&& forall|n: NodeId| #[trigger]
                    g.members.contains(n) <==> group.members.contains(n) && !c.failed.contains(n)
            },
            None => forall|n: NodeId| #[trigger] group.members.contains(n) ==> c.failed.contains(n),
        },
{
    crate::base::search::lemma_find_sound(group.members, outside(c.failed));
    crate::base::search::lemma_filter_contains(group.members, outside(c.failed));
    if replacement(c, group) is None {
        assert forall|n: NodeId| #[trigger] group.members.contains(n) implies c.failed.contains(
            n,
        ) by {
            let k = choose|k: int| 0 <= k < group.members.len() && group.members[k] == n;
            assert(!outside(c.failed)(group.members[k]));
        }
    }
}

/// A paced group window that brought no aggregate: the aggregator counts as failed.
pub fn miss_window(context: &mut Context, group: &TrainingGroup)
    ensures
        final(context)@ == (ContextView {
            stragglers: sat_u64(old(context)@.stragglers + 1) as u64,
            failed: old(context)@.failed.insert(group@.aggregator),
            ..old(context)@
        }),
{
    context.stragglers = context.stragglers.saturating_add(1);
    context.failed.insert(group.aggregator);
}

/// The aggregate that a paced window waits for.
pub open spec fn awaited_aggregate(
    c: ContextView,
    peer: NodeId,
    a: TrainingAggregateView,
    group_id: u16,
    window: u64,
) -> bool {
    &&& peer == a.aggregator
    &&& a.group_id == group_id
    &&& a.window == window
    &&& a.term == c.term
    &&& a.job_id == c.start.job_id
    &&& a.contributors.len() > 0
}

fn is_awaited_aggregate(
    context: &Context,
    peer: NodeId,
    aggregate: &TrainingAggregate,
    group_id: u16,
    window: u64,
) -> (r: bool)
    ensures
        r == awaited_aggregate(context@, peer, aggregate@, group_id, window),
{
    peer == aggregate.aggregator && aggregate.group_id == group_id && aggregate.window == window
        && aggregate.term == context.term && aggregate.job_id == context.start.job_id
        && aggregate.contributors.len() > 0
}

/// What comes in while an aggregate is waited for.
#[derive(Debug)]
pub enum AggregateEvent {
    Aggregate { peer: NodeId, aggregate: TrainingAggregate },
    Election { peer: NodeId, election: TrainingElection },
    Disconnected(NodeId),
    Other,
    /// The time is over, or no more events come.
    TimedOut,
}

/// The contents of an [`AggregateEvent`].
pub enum AggregateEventView {
    Aggregate { peer: NodeId, aggregate: TrainingAggregateView },
    Election { peer: NodeId, election: TrainingElection },
    Disconnected(NodeId),
    Other,
    TimedOut,
}

impl View for AggregateEvent {
    type V = AggregateEventView;

    open spec fn view(&self) -> AggregateEventView {
        match self {
            AggregateEvent::Aggregate { peer, aggregate } => AggregateEventView::Aggregate {
                peer: *peer,
                aggregate: aggregate@,
            },
            AggregateEvent::Election { peer, election } => AggregateEventView::Election {
                peer: *peer,
                election: *election,
            },
            AggregateEvent::Disconnected(peer) => AggregateEventView::Disconnected(*peer),
            AggregateEvent::Other => AggregateEventView::Other,
            AggregateEvent::TimedOut => AggregateEventView::TimedOut,
        }
    }
}

/// What the wait for an aggregate comes to.
#[derive(Debug)]
pub enum AwaitStep {
    Wait,
    /// The aggregate is there.
    Arrived(TrainingAggregate),
    /// There is no aggregate in this window.
    Missing,
    /// A later term is being voted on: answer the candidate and give up the
    /// window.
    TermChanged(Option<VoteReply>),
}

/// The contents of an [`AwaitStep`].
pub enum AwaitStepView {
    Wait,
    Arrived(TrainingAggregateView),
    Missing,
    TermChanged(Option<VoteReplyView>),
}

impl View for AwaitStep {
    type V = AwaitStepView;

    open spec fn view(&self) -> AwaitStepView {
        match self {
            AwaitStep::Wait => AwaitStepView::Wait,
            AwaitStep::Arrived(aggregate) => AwaitStepView::Arrived(aggregate@),
            AwaitStep::Missing => AwaitStepView::Missing,
            AwaitStep::TermChanged(reply) => AwaitStepView::TermChanged(opt_view(*reply)),
        }
    }
}

/// What an event means for the wait for an aggregate.
pub open spec fn aggregate_awaited(
    c: ContextView,
    node: NodeId,
    group_id: u16,
    window: u64,
    event: AggregateEventView,
) -> (ContextView, AwaitStepView) {
    match event {
        AggregateEventView::Aggregate { peer, aggregate } => if awaited_aggregate(
            c,
            peer,
            aggregate,
            group_id,
            window,
        ) {
            (c, AwaitStepView::Arrived(aggregate))
        } else {
            (c, AwaitStepView::Wait)
        },
        AggregateEventView::Election { peer, election } => if election.term > c.term {
            (
                voted(c, peer, election),
                AwaitStepView::TermChanged(vote_reply(c, node, peer, election)),
            )
        } else {
            (c, AwaitStepView::Wait)
        },
        AggregateEventView::Disconnected(peer) => (
            ContextView { failed: c.failed.insert(peer), ..c },
            if peer == c.coordinator {
                AwaitStepView::Missing
            } else {
                AwaitStepView::Wait
            },
        ),
        AggregateEventView::Other => (c, AwaitStepView::Wait),
        AggregateEventView::TimedOut => (c, AwaitStepView::Missing),
    }
}

/// Take in an event while the aggregate of a group is waited for.
pub fn wait_for_aggregate(
    context: &mut Context,
    node: NodeId,
    group_id: u16,
    window: u64,
    event: AggregateEvent,
) -> (r: AwaitStep)
    ensures
        (final(context)@, r@) == aggregate_awaited(
            old(context)@,
            node,
            group_id,
            window,
            event@,
        ),
{
    match event {
        AggregateEvent::Aggregate { peer, aggregate } => {
            if is_awaited_aggregate(context, peer, &aggregate, group_id, window) {
                AwaitStep::Arrived(aggregate)
            } else {
                AwaitStep::Wait
            }
        },
        AggregateEvent::Election { peer, election } => {
            if election.term > context.term {
                AwaitStep::TermChanged(handle_election(context, node, peer, &election))
            } else {
                AwaitStep::Wait
            }
        },
        AggregateEvent::Disconnected(peer) => {
            context.failed.insert(peer);
            if peer == context.coordinator {
                AwaitStep::Missing
            } else {
                AwaitStep::Wait
            }
        },
        AggregateEvent::Other => AwaitStep::Wait,
        AggregateEvent::TimedOut => AwaitStep::Missing,
    }
}

/// The members of a group that a message of this node goes to.
pub open spec fn live_others(c: ContextView, members: Seq<NodeId>, node: NodeId) -> Seq<NodeId> {
    members.filter(outside(c.failed)).filter(other_than(node))
}

/// The members of a group that a message of this node goes to: every live one
/// but this node.
pub fn group_recipients(context: &Context, members: &Vec<NodeId>, node: NodeId) -> (r: Vec<NodeId>)
    ensures
        r@ == live_others(context@, members@, node),
{
    let live = filter_outside(members, &context.failed);
    filter_other_than(&live, node)
}

/// The contributions of all aggregates.
pub open spec fn contribution_count(aggregates: Seq<TrainingAggregateView>) -> int
    decreases aggregates.len(),
{
    if aggregates.len() == 0 {
        0
    } else {
        contribution_count(aggregates.drop_last()) + aggregates.last().contributors.len()
    }
}

/// `m` with the value of every aggregate at its shard.
pub open spec fn with_values(
    m: Map<u16, (i64, i64)>,
    aggregates: Seq<TrainingAggregateView>,
) -> Map<u16, (i64, i64)>
    decreases aggregates.len(),
{
    if aggregates.len() == 0 {
        m
    } else {
        let a = aggregates.last();
        with_values(m, aggregates.drop_last()).insert(a.shard_id, (a.value, a.optimizer))
    }
}

/// The context after a paced window of all groups.
pub open spec fn committed_window(
    c: ContextView,
    window: u64,
    aggregates: Seq<TrainingAggregateView>,
) -> ContextView {
    ContextView {
        window,
        accepted_updates: sat_u64(c.accepted_updates + contribution_count(aggregates)) as u64,
        shard_values: with_values(c.shard_values, aggregates),
        shard_summaries: with_summaries(
            c.shard_summaries,
            aggregates.map_values(|a: TrainingAggregateView| aggregate_summary(a)),
        ),
        ..c
    }
}

proof fn lemma_contribution_prefix(aggregates: Seq<TrainingAggregateView>, i: int)
    requires
        0 <= i <= aggregates.len(),
    ensures
        0 <= contribution_count(aggregates.take(i)) <= contribution_count(aggregates),
    decreases aggregates.len(),
{
    if aggregates.len() > 0 {
        if i < aggregates.len() {
            assert(aggregates.take(i) =~= aggregates.drop_last().take(i));
            lemma_contribution_prefix(aggregates.drop_last(), i);
        } else {
            assert(aggregates.take(i) =~= aggregates);
            lemma_contribution_prefix(aggregates.drop_last(), i - 1);
        }
    } else {
        assert(aggregates.take(i) =~= aggregates);
    }
}

/// Commit a paced window of all groups. The result is the state to publish.
pub fn commit_window(context: &mut Context, window: u64, aggregates: &Vec<TrainingAggregate>) -> (r:
    TrainingState)
    requires
        contribution_count(views(aggregates@)) <= u64::MAX,
    ensures
        final(context)@ == committed_window(old(context)@, window, views(aggregates@)),
        r@ == state_of(committed_window(old(context)@, window, views(aggregates@))),
{
    let ghost c = context@;
    let ghost s = views(aggregates@);
    let ghost sums = s.map_values(|a: TrainingAggregateView| aggregate_summary(a));
    let mut count: u64 = 0;
    let mut i: usize = 0;
    while i < aggregates.len()
        invariant
            0 <= i <= aggregates@.len(),
            s == views(aggregates@),
            sums == s.map_values(|a: TrainingAggregateView| aggregate_summary(a)),
            contribution_count(s) <= u64::MAX,
            count == contribution_count(s.take(i as int)),
            context@ == (ContextView {
                shard_values: with_values(c.shard_values, s.take(i as int)),
                shard_summaries: with_summaries(c.shard_summaries, sums.take(i as int)),
                ..c
            }),
        decreases aggregates@.len() - i,
    {
        let aggregate = &aggregates[i];
        proof {
            assert(s.take(i as int + 1).drop_last() =~= s.take(i as int));
            assert(sums.take(i as int + 1).drop_last() =~= sums.take(i as int));
            assert(s.take(i as int + 1).last() == aggregate@);
            assert(sums.take(i as int + 1).last() == aggregate_summary(aggregate@));
            lemma_contribution_prefix(s, i as int + 1);
        }
        count += aggregate.contributors.len() as u64;
        context.shard_values.insert(aggregate.shard_id, (aggregate.value, aggregate.optimizer));
        context.shard_summaries.insert(aggregate.shard_id, summary_of_aggregate(aggregate));
        i += 1;
    }
    assert(s.take(i as int) =~= s);
    assert(sums.take(i as int) =~= sums);
    context.window = window;
    context.accepted_updates = context.accepted_updates.saturating_add(count);
    context.state()
}

/// Whether a paced window ends with a checkpoint.
pub fn paced_checkpoint_due(context: &Context, window: u64) -> (r: bool)
    requires
        context.start.checkpoint_every > 0,
    ensures
        r == (window % context@.start.checkpoint_every == 0 || window
            == context@.start.max_windows),
{
    window % context.start.checkpoint_every == 0 || window == context.start.max_windows
}

/// Hand the role over where a later state names another coordinator. The
/// result tells whether this node stops coordinating.
pub fn step_down(context: &mut Context, previous_coordinator: NodeId) -> (r: bool)
    ensures
        r == (old(context)@.coordinator != previous_coordinator),
        final(context)@ == (ContextView {
            role: if r {
                Role::Worker
            } else {
                old(context)@.role
            },
            ..old(context)@
        }),
{
    if context.coordinator != previous_coordinator {
        context.role = Role::Worker;
        true
    } else {
        false
    }
}

/// Whether a peer has a part in the job at all.
pub open spec fn has_part(c: ContextView, peer: NodeId) -> bool {
    peer == c.start.coordinator || c.start.participants.contains(peer)
}

/// Whether an attempt is made to reach `peer` again.
pub fn may_restore(context: &Context, peer: NodeId) -> (r: bool)
    ensures
        r == has_part(context@, peer),
{
    peer == context.start.coordinator || contains_id(&context.start.participants, peer)
}

/// Whether a connection that still stands proves that `peer` is reachable. It
/// does not for the coordinator, which has to answer a fresh handshake.
pub fn standing_connection_counts(context: &Context, peer: NodeId) -> (r: bool)
    ensures
        r == (peer != context@.coordinator),
{
    peer != context.coordinator
}

/// `peer` counts as reachable again.
pub open spec fn peer_restored(
    c: ContextView,
    peer: NodeId,
    connected: bool,
    reconnected: bool,
) -> bool {
    has_part(c, peer) && ((peer != c.coordinator && connected) || reconnected)
}

/// Decide whether a peer that went away is reachable again. `connected` tells
/// whether a connection stands, `reconnected` whether a handshake succeeded.
pub fn restore_training_peer(
    context: &mut Context,
    peer: NodeId,
    connected: bool,
    reconnected: bool,
) -> (r: bool)
    ensures
        r == peer_restored(old(context)@, peer, connected, reconnected),
        final(context)@ == (ContextView {
            failed: if r {
                old(context)@.failed.remove(peer)
            } else {
                old(context)@.failed
            },
            ..old(context)@
        }),
{
    if !may_restore(context, peer) {
        return false;
    }
    if (standing_connection_counts(context, peer) && connected) || reconnected {
        context.failed.remove(peer);
        return true;
    }
    false
}

/// Count `peer` as failed.
pub fn mark_failed(context: &mut Context, peer: NodeId)
    ensures
        final(context)@ == (ContextView {
            failed: old(context)@.failed.insert(peer),
            ..old(context)@
        }),
{
    context.failed.insert(peer);
}

/// The seconds that a job of `max_windows` windows may take, with `slack` on top.
pub open spec fn job_seconds(max_windows: u64, slack: int) -> int {
    sat_u64(sat_u64(max_windows * 8) + slack)
}

/// The seconds after which a running job gives up.
pub fn context_timeout_secs(start: &TrainingStart) -> (r: u64)
    ensures
        r == job_seconds(start@.max_windows, 30),
{
    sat_mul_u64(start.max_windows, 8).saturating_add(30)
}

/// The seconds that the caller waits for the result of a job.
pub fn result_timeout_secs(start: &TrainingStart) -> (r: u64)
    ensures
        r == job_seconds(start@.max_windows, 15),
{
    sat_mul_u64(start.max_windows, 8).saturating_add(15)
}

/// The largest number of members of a group.
pub open spec fn widest_group(groups: Seq<TrainingGroupView>) -> int
    decreases groups.len(),
{
    if groups.len() == 0 {
        0
    } else {
        max_int(widest_group(groups.drop_last()), groups.last().members.len() as int)
    }
}

/// The largest number of replicas of a shard.
pub open spec fn most_replicas(shards: Seq<TrainingShardAssignmentView>) -> int
    decreases shards.len(),
{
    if shards.len() == 0 {
        0
    } else {
        max_int(most_replicas(shards.drop_last()), shards.last().replicas.len() as int)
    }
}

/// The figures of a finished run.
#[derive(Clone, Copy, Debug, PartialEq, Eq, Structural)]
pub struct RunFigures {
    pub final_loss: i64,
    pub improved: bool,
    pub maximum_group_fan_in: usize,
    pub optimizer_state_replication_factor: usize,
}

proof fn lemma_trained_loss_prefix(values: Map<u16, (i64, i64)>, keys: Seq<u16>, i: int)
    requires
        0 <= i <= keys.len(),
    ensures
        0 <= trained_loss(values, keys.take(i)) <= trained_loss(values, keys),
    decreases keys.len(),
{
    if keys.len() > 0 {
        lemma_mean_loss_nonnegative(
            values[keys.last()].0,
            shard_samples(keys.last()),
        );
        if i < keys.len() {
            assert(keys.take(i) =~= keys.drop_last().take(i));
            lemma_trained_loss_prefix(values, keys.drop_last(), i);
        } else {
            assert(keys.take(i) =~= keys);
            lemma_trained_loss_prefix(values, keys.drop_last(), i - 1);
        }
    } else {
        assert(keys.take(i) =~= keys);
    }
}

proof fn lemma_mean_loss_nonnegative(
    value: i64,
    samples: Seq<crate::reference::types::TrainingSample>,
)
    ensures
        mean_loss(value, samples) >= 0,
{
    crate::reference::sgd::lemma_loss_sum_nonnegative(value, samples);
    if samples.len() > 0 {
        let a = crate::reference::sgd::loss_sum(value, samples);
        let b = samples.len() as int;
        assert(a / b >= 0) by (nonlinear_arith)
            requires
                a >= 0,
                b > 0,
        ;
    }
}

/// Whether the losses of the trained shards can be taken and added up.
pub fn final_loss_in_range(context: &Context) -> (r: bool)
    ensures
        r == trained_loss_fits(context@.shard_values, ordered_keys(context@.shard_values)),
{
    let keys = context.shard_values.keys();
    let ghost values = context@.shard_values;
    proof {
        crate::base::ordered::lemma_values_at_keys(values, 0);
    }
    let mut total: i64 = 0;
    let mut i: usize = 0;
    while i < keys.len()
        invariant
            0 <= i <= keys@.len(),
            values == context@.shard_values,
            keys@ == ordered_keys(values),
            forall|j: int| 0 <= j < keys@.len() ==> values.contains_key(#[trigger] keys@[j]),
            forall|j: int|
                0 <= j < i ==> loss_fits(
                    values[#[trigger] keys@[j]].0,
                    shard_samples(keys@[j]),
                ),
            total == trained_loss(values, keys@.take(i as int)),
            total >= 0,
        decreases keys@.len() - i,
    {
        let key = keys[i];
        let samples = samples_for_shard(key);
        let value: i64 = match context.shard_values.get(key) {
            Some(v) => v.0,
            None => 0,
        };
        assert(value == values[keys@[i as int]].0);
        if !crate::reference::sgd::loss_in_range(value, &samples) {
            return false;
        }
        let loss = samples_loss(value, &samples);
        proof {
            assert(keys@.take(i as int + 1).drop_last() =~= keys@.take(i as int));
            lemma_trained_loss_prefix(values, keys@, i as int + 1);
            lemma_mean_loss_nonnegative(value, samples@);
        }
        if loss > i64::MAX - total {
            return false;
        }
        total += loss;
        i += 1;
    }
    assert(keys@.take(i as int) =~= keys@);
    true
}

/// The figures of a finished run.
pub fn run_figures(context: &Context) -> (r: RunFigures)
    requires
        trained_loss_fits(context@.shard_values, ordered_keys(context@.shard_values)),
    ensures
        r.final_loss == trained_loss(context@.shard_values, ordered_keys(context@.shard_values)),
        r.improved == (r.final_loss < context@.initial_loss),
        r.maximum_group_fan_in == widest_group(context@.start.groups),
        r.optimizer_state_replication_factor == most_replicas(context@.start.shards),
{
    let keys = context.shard_values.keys();
    let ghost values = context@.shard_values;
    proof {
        crate::base::ordered::lemma_values_at_keys(values, 0);
    }
    let mut total: i64 = 0;
    let mut i: usize = 0;
    while i < keys.len()
        invariant
            0 <= i <= keys@.len(),
            values == context@.shard_values,
            keys@ == ordered_keys(values),
            trained_loss_fits(values, keys@),
            forall|j: int| 0 <= j < keys@.len() ==> values.contains_key(#[trigger] keys@[j]),
            total == trained_loss(values, keys@.take(i as int)),
        decreases keys@.len() - i,
    {
        let key = keys[i];
        let samples = samples_for_shard(key);
        let value: i64 = match context.shard_values.get(key) {
            Some(v) => v.0,
            None => 0,
        };
        assert(value == values[keys@[i as int]].0);
        let loss = samples_loss(value, &samples);
        proof {
            assert(keys@.take(i as int + 1).drop_last() =~= keys@.take(i as int));
            lemma_trained_loss_prefix(values, keys@, i as int);
            lemma_trained_loss_prefix(values, keys@, i as int + 1);
            lemma_mean_loss_nonnegative(value, samples@);
        }
        total += loss;
        i += 1;
    }
    assert(keys@.take(i as int) =~= keys@);
    let mut widest: usize = 0;
    let ghost groups = context@.start.groups;
    let mut g: usize = 0;
    while g < context.start.groups.len()
        invariant
            0 <= g <= context.start.groups@.len(),
            groups == views(context.start.groups@),
            widest == widest_group(groups.take(g as int)),
        decreases context.start.groups@.len() - g,
    {
        assert(groups.take(g as int + 1).drop_last() =~= groups.take(g as int));
        assert(groups.take(g as int + 1).last() == context.start.groups@[g as int]@);
        if context.start.groups[g].members.len() > widest {
            widest = context.start.groups[g].members.len();
        }
        g += 1;
    }
    assert(groups.take(g as int) =~= groups);
    let mut most: usize = 0;
    let ghost shards = context@.start.shards;
    let mut k: usize = 0;
    while k < context.start.shards.len()
        invariant
            0 <= k <= context.start.shards@.len(),
            shards == views(context.start.shards@),
            most == most_replicas(shards.take(k as int)),
        decreases context.start.shards@.len() - k,
    {
        assert(shards.take(k as int + 1).drop_last() =~= shards.take(k as int));
        assert(shards.take(k as int + 1).last() == context.start.shards@[k as int]@);
        if context.start.shards[k].replicas.len() > most {
            most = context.start.shards[k].replicas.len();
        }
        k += 1;
    }
    assert(shards.take(k as int) =~= shards);
    RunFigures {
        final_loss: total,
        improved: total < context.initial_loss,
        maximum_group_fan_in: widest,
        optimizer_state_replication_factor: most,
    }
}

/// The command for a window goes to the group as it stands and tells the generation that
/// is known of its shard, zero where none is.
pub proof fn law_command_is_for_the_group(c: ContextView, group: TrainingGroupView, window: u64)
    ensures
        ({
            let w = window_command(c, group, window);
            &&& w.window == window
            &&& w.group_id == group.group_id && w.shard_id == group.shard_id
            &&& w.aggregator == group.aggregator && w.members == group.members
            &&& w.job_id == c.start.job_id && w.membership_epoch == c.start.membership_epoch
            &&& w.coordinator == c.coordinator && w.term == c.term && w.branch == c.branch
            &&& w.local_steps == c.start.local_steps && w.max_staleness == c.start.max_staleness
            &&& c.shard_summaries.contains_key(group.shard_id) ==> w.base_generation
                == c.shard_summaries[group.shard_id].generation
            &&& !c.shard_summaries.contains_key(group.shard_id) ==> w.base_generation == 0
        }),
{
}

/// A group trains the window after the generation of its shard, the first one where
/// nothing is known, and none after the last.
pub proof fn law_next_window_follows_the_generation(c: ContextView, group: TrainingGroupView)
    ensures
        next_window(c, group) matches Some(w) ==> w <= c.start.max_windows,
        c.shard_summaries.contains_key(group.shard_id)
            && c.shard_summaries[group.shard_id].generation < c.start.max_windows ==> next_window(
            c,
            group,
        ) == Some((c.shard_summaries[group.shard_id].generation + 1) as u64),
        c.shard_summaries.contains_key(group.shard_id)
            && c.shard_summaries[group.shard_id].generation >= c.start.max_windows
            && c.start.max_windows < u64::MAX ==> next_window(c, group) is None,
        !c.shard_summaries.contains_key(group.shard_id) && c.start.max_windows >= 1 ==> next_window(
            c,
            group,
        ) == Some(1u64),
{
}

/// A failed member gets nothing, another live one is sent the command, and this node does
/// its own part: it collects as the aggregator, and otherwise makes its update.
pub proof fn law_commands_reach_live_members(
    c: ContextView,
    node: NodeId,
    group: TrainingGroupView,
    member: NodeId,
)
    ensures
        c.failed.contains(member) ==> autonomous_action(c, node, group, member) is Skip
            && paced_action(c, node, group, member) is Skip,
        !c.failed.contains(member) && member != node ==> autonomous_action(
            c,
            node,
            group,
            member,
        ) is Send && paced_action(c, node, group, member) is Send,
        !c.failed.contains(node) && node == group.aggregator ==> autonomous_action(
            c,
            node,
            group,
            node,
        ) is Collect && paced_action(c, node, group, node) is Skip,
        !c.failed.contains(node) && node != group.aggregator ==> paced_action(
            c,
            node,
            group,
            node,
        ) is Update,
        !c.failed.contains(node) && node != group.aggregator ==> (autonomous_action(
            c,
            node,
            group,
            node,
        ) is Update <==> c.assignment.shard_id == group.shard_id),
{
}

/// An aggregate is taken in exactly when the aggregator itself, a member of the group,
/// sends it for this job, term, branch and shard, for a window of the job, and it is
/// newer than what is known.
pub proof fn law_aggregates_taken_in(
    c: ContextView,
    group: TrainingGroupView,
    peer: NodeId,
    a: TrainingAggregateView,
)
    ensures
        !aggregate_rejected(c, group, peer, a) <==> {
            &&& peer == a.aggregator && group.members.contains(peer)
            &&& a.job_id == c.start.job_id && a.term == c.term && a.branch == c.branch
            &&& a.shard_id == group.shard_id
            &&& 1 <= a.window <= c.start.max_windows
            &&& !c.shard_summaries.contains_key(a.shard_id) || a.generation
                > c.shard_summaries[a.shard_id].generation
        },
{
}

/// What an aggregate brings is known afterwards: the value and optimizer state of its
/// shard, its generation, artifact and providers, and the window of its group; its
/// contributors are counted. Other shards and groups stay.
pub proof fn law_aggregate_is_taken_in(
    c: ContextView,
    a: TrainingAggregateView,
    shard: u16,
    group: u16,
)
    requires
        c.accepted_updates + a.contributors.len() <= u64::MAX,
    ensures
        ({
            let t = took_aggregate(c, a);
            let s = t.shard_summaries[a.shard_id];
            &&& t.shard_values.contains_key(a.shard_id)
            &&& t.shard_values[a.shard_id] == (a.value, a.optimizer)
            &&& t.shard_summaries.contains_key(a.shard_id)
            &&& s.shard_id == a.shard_id && s.generation == a.generation && s.state_hash
                == a.state_artifact
            &&& t.group_progress.contains_key(a.group_id) && t.group_progress[a.group_id]
                == a.window
            &&& t.accepted_updates == c.accepted_updates + a.contributors.len()
            &&& t.window >= c.window && t.window >= a.window
            &&& t.window == c.window || t.window == a.window
            &&& shard != a.shard_id ==> t.shard_values.contains_key(shard)
                == c.shard_values.contains_key(shard) && t.shard_values[shard]
                == c.shard_values[shard] && t.shard_summaries.contains_key(shard)
                == c.shard_summaries.contains_key(shard) && t.shard_summaries[shard]
                == c.shard_summaries[shard]
            &&& group != a.group_id ==> t.group_progress.contains_key(group)
                == c.group_progress.contains_key(group) && t.group_progress[group]
                == c.group_progress[group]
            &&& t.start == c.start && t.term == c.term && t.failed == c.failed
        }),
{
}

/// A paced window leaves its number, counts the contributors of every aggregate, and
/// knows the values of the aggregates, the last one of a shard counting.
pub proof fn law_paced_window_takes_all_in(
    c: ContextView,
    window: u64,
    m: Map<u16, (i64, i64)>,
    aggregates: Seq<TrainingAggregateView>,
    a: TrainingAggregateView,
    other: u16,
)
    ensures
        committed_window(c, window, aggregates).window == window,
        c.accepted_updates + contribution_count(aggregates) <= u64::MAX && contribution_count(
            aggregates,
        ) >= 0 ==> committed_window(c, window, aggregates).accepted_updates == c.accepted_updates
            + contribution_count(aggregates),
        contribution_count(Seq::empty()) == 0,
        contribution_count(aggregates.push(a)) == contribution_count(aggregates)
            + a.contributors.len(),
        with_values(m, Seq::empty()) == m,
        with_values(m, aggregates.push(a)).contains_key(a.shard_id),
        with_values(m, aggregates.push(a))[a.shard_id] == (a.value, a.optimizer),
        other != a.shard_id ==> with_values(m, aggregates.push(a))[other] == with_values(
            m,
            aggregates,
        )[other],
        committed_window(c, window, aggregates.push(a)).shard_values[a.shard_id] == (
            a.value,
            a.optimizer,
        ),
        committed_window(c, window, aggregates.push(a)).shard_summaries.contains_key(a.shard_id),
        committed_window(c, window, aggregates.push(a)).shard_summaries[a.shard_id].generation
            == a.generation,
        committed_window(c, window, aggregates.push(a)).shard_summaries[a.shard_id].state_hash
            == a.state_artifact,
{
    let all = aggregates.push(a);
    assert(all.drop_last() =~= aggregates);
    let summaries = all.map_values(|x: TrainingAggregateView| aggregate_summary(x));
    assert(summaries.last() == aggregate_summary(a));
    assert(with_summaries(c.shard_summaries, summaries).contains_key(a.shard_id));
}

/// Of a group that lost members the live ones stay, in order, led by the first of them;
/// its number and shard stay. Only the first group of that number is replaced.
pub proof fn law_replacement_keeps_live_members(
    c: ContextView,
    group: TrainingGroupView,
    member: NodeId,
    groups: Seq<TrainingGroupView>,
    i: int,
)
    ensures
        replacement(c, group) is None <==> forall|k: int|
            0 <= k < group.members.len() ==> c.failed.contains(#[trigger] group.members[k]),
        replacement(c, group) matches Some(g) ==> {
            &&& g.group_id == group.group_id && g.shard_id == group.shard_id
            &&& g.members.contains(member) <==> group.members.contains(member)
                && !c.failed.contains(member)
            &&& g.members.contains(g.aggregator)
        },
        with_replaced(groups, group).len() == groups.len(),
        0 <= i < groups.len() && groups[i].group_id != group.group_id ==> with_replaced(
            groups,
            group,
        )[i] == groups[i],
        0 <= i < groups.len() && groups[i].group_id == group.group_id && (forall|j: int|
            0 <= j < i ==> (#[trigger] groups[j]).group_id != group.group_id) ==> with_replaced(
            groups,
            group,
        )[i] == group,
{
    crate::base::search::lemma_find_sound(group.members, outside(c.failed));
    crate::base::search::lemma_filter_contains(group.members, outside(c.failed));
    if let Some(g) = replacement(c, group) {
        let k = group.members.index_of(g.aggregator);
        assert(!c.failed.contains(group.members[k]));
    } else {
        assert forall|k: int| 0 <= k < group.members.len() implies c.failed.contains(
            #[trigger] group.members[k],
        ) by {
            assert(!outside(c.failed)(group.members[k]));
        }
    }
    lemma_position_is_first(groups, group.group_id);
}

proof fn lemma_position_is_first(groups: Seq<TrainingGroupView>, id: u16)
    ensures
        0 <= group_position(groups, id) <= groups.len(),
        group_position(groups, id) < groups.len() ==> groups[group_position(groups, id)].group_id
            == id,
        forall|j: int|
            0 <= j < group_position(groups, id) ==> (#[trigger] groups[j]).group_id != id,
    decreases groups.len(),
{
    if groups.len() > 0 && groups[0].group_id != id {
        lemma_position_is_first(groups.drop_first(), id);
        assert forall|j: int| 0 <= j < group_position(groups, id) implies (
        #[trigger] groups[j]).group_id != id by {
            if j > 0 {
                assert(groups[j] == groups.drop_first()[j - 1]);
            }
        }
    }
}

/// A paced window waits for the aggregate of its own group and number, from the
/// aggregator itself, for this job and term; a later term, a lost coordinator and the
/// end of the time end the wait.
pub proof fn law_awaited_aggregate_is_of_the_window(
    c: ContextView,
    node: NodeId,
    group_id: u16,
    window: u64,
    event: AggregateEventView,
)
    ensures
        ({
            let (after, step) = aggregate_awaited(c, node, group_id, window, event);
            &&& step matches AwaitStepView::Arrived(a) ==> {
                &&& event == (AggregateEventView::Aggregate { peer: a.aggregator, aggregate: a })
                &&& a.group_id == group_id && a.window == window
                &&& a.job_id == c.start.job_id && a.term == c.term
                &&& a.contributors.len() > 0
                &&& after == c
            }
            &&& event is Aggregate && event->Aggregate_peer == event->aggregate.aggregator
                && event->aggregate.group_id == group_id && event->aggregate.window == window
                && event->aggregate.job_id == c.start.job_id && event->aggregate.term == c.term
                && event->aggregate.contributors.len() > 0 ==> step is Arrived
            &&& event is TimedOut ==> step is Missing
            &&& event is Other ==> step is Wait && after == c
            &&& event matches AggregateEventView::Disconnected(peer) ==> after.failed.contains(peer)
                && (step is Missing <==> peer == c.coordinator)
            &&& step is TermChanged ==> event is Election && event->election.term > c.term
        }),
{
}

/// Whoever has a part in the job is the coordinator that started it or a participant; a
/// peer is back when it has a part and was reached again, or, unless it coordinates, is
/// still connected.
pub proof fn law_only_parties_come_back(
    c: ContextView,
    peer: NodeId,
    connected: bool,
    reconnected: bool,
)
    ensures
        peer_restored(c, peer, connected, reconnected) ==> (peer == c.start.coordinator
            || c.start.participants.contains(peer)) && (connected || reconnected),
        peer_restored(c, c.coordinator, connected, false) == false,
        (peer == c.start.coordinator || c.start.participants.contains(peer)) && (reconnected || (
        connected && peer != c.coordinator)) ==> peer_restored(c, peer, connected, reconnected),
{
}

/// A job has eight seconds for each window, and the slack on top. The widest group and
/// the most replicas are attained, and none is over them.
pub proof fn law_limits_of_a_job(
    max_windows: u64,
    slack: int,
    groups: Seq<TrainingGroupView>,
    group: TrainingGroupView,
    shards: Seq<TrainingShardAssignmentView>,
    shard: TrainingShardAssignmentView,
)
    ensures
        0 <= slack && 8 * max_windows + slack <= u64::MAX ==> job_seconds(max_windows, slack) == 8
            * max_windows + slack,
        widest_group(groups.push(group)) >= widest_group(groups),
        widest_group(groups.push(group)) >= group.members.len(),
        widest_group(groups.push(group)) == widest_group(groups) || widest_group(groups.push(group))
            == group.members.len(),
        widest_group(Seq::empty()) == 0,
        most_replicas(shards.push(shard)) >= most_replicas(shards),
        most_replicas(shards.push(shard)) >= shard.replicas.len(),
        most_replicas(shards.push(shard)) == most_replicas(shards) || most_replicas(
            shards.push(shard),
        ) == shard.replicas.len(),
        most_replicas(Seq::empty()) == 0,
{
    assert(groups.push(group).drop_last() =~= groups);
    assert(shards.push(shard).drop_last() =~= shards);
}

/// Messages of a group go to its live members but this node. All shards are trained when
/// none is at generation zero, and another group is behind when it has windows left.
pub proof fn law_progress_of_groups(
    c: ContextView,
    members: Seq<NodeId>,
    node: NodeId,
    peer: NodeId,
    k: u16,
    group_id: u16,
    id: u16,
    done: Seq<u16>,
)
    ensures
        live_others(c, members, node).contains(peer) <==> members.contains(peer)
            && !c.failed.contains(peer) && peer != node,
        all_shards_trained(c) && c.shard_summaries.contains_key(k)
            ==> c.shard_summaries[k].generation >= 1,
        c.group_progress.contains_key(k) && k != group_id && c.group_progress[k]
            < c.start.max_windows ==> other_group_behind(c, group_id),
        with_group(done, id).contains(id),
        done.contains(id) ==> with_group(done, id) == done,
        !done.contains(id) ==> with_group(done, id) == done.push(id),
        0 < c.start.groups.len() && rebuilt_progress(c, 1)[c.start.groups[0].group_id] == (
        if c.shard_summaries.contains_key(c.start.groups[0].shard_id) {
            c.shard_summaries[c.start.groups[0].shard_id].generation
        } else {
            0u64
        }) || c.start.groups.len() == 0,
{
    let live = members.filter(outside(c.failed));
    crate::base::search::lemma_filter_contains(members, outside(c.failed));
    crate::base::search::lemma_filter_contains(live, other_than(node));
    if !done.contains(id) {
        assert(done.push(id)[done.len() as int] == id);
    }
    reveal_with_fuel(rebuilt_progress, 2);
}

/// Group by group: the progress becomes the generation known of the group's shard, and a
/// group is done exactly when that has reached the last window.
pub proof fn law_progress_is_rebuilt_by_group(c: ContextView, n: int, other: u16)
    requires
        0 < n <= c.start.groups.len(),
    ensures
        ({
            let group = c.start.groups[n - 1];
            let known = if c.shard_summaries.contains_key(group.shard_id) {
                c.shard_summaries[group.shard_id].generation
            } else {
                0u64
            };
            &&& rebuilt_progress(c, 0) == c.group_progress
            &&& rebuilt_progress(c, n).contains_key(group.group_id)
            &&& rebuilt_progress(c, n)[group.group_id] == known
            &&& other != group.group_id ==> rebuilt_progress(c, n)[other] == rebuilt_progress(
                c,
                n - 1,
            )[other]
            &&& finished_groups(c, 0).len() == 0
            &&& known >= c.start.max_windows ==> finished_groups(c, n).contains(group.group_id)
            &&& known < c.start.max_windows ==> finished_groups(c, n) == finished_groups(c, n - 1)
        }),
{
    let before = finished_groups(c, n - 1);
    let id = c.start.groups[n - 1].group_id;
    assert(before.push(id)[before.len() as int] == id);
}

/// An aggregate that is taken in names the aggregator and the replicas as providers of its
/// shard; a committed window merges the summaries of its aggregates shard by shard.
pub proof fn law_taken_in_shards_have_providers(
    c: ContextView,
    a: TrainingAggregateView,
    peer: NodeId,
    window: u64,
    aggregates: Seq<TrainingAggregateView>,
    i: int,
)
    ensures
        took_aggregate(c, a).shard_summaries[a.shard_id].providers.contains(peer) <==> peer
            == a.aggregator || a.replicas.contains(peer),
        ({
            let known = aggregates.map_values(|x: TrainingAggregateView| aggregate_summary(x));
            &&& committed_window(c, window, aggregates).shard_summaries == with_summaries(
                c.shard_summaries,
                known,
            )
            &&& committed_window(c, window, aggregates).shard_values == with_values(
                c.shard_values,
                aggregates,
            )
            &&& 0 <= i < aggregates.len() ==> known[i].shard_id == aggregates[i].shard_id
                && known[i].generation == aggregates[i].generation && known[i].state_hash
                == aggregates[i].state_artifact && (known[i].providers.contains(peer) <==> peer
                == aggregates[i].aggregator || aggregates[i].replicas.contains(peer))
        }),
{
    crate::reference::worker::law_summary_names_the_providers(a, peer);
    if 0 <= i < aggregates.len() {
        crate::reference::worker::law_summary_names_the_providers(aggregates[i], peer);
    }
}

} // verus!
