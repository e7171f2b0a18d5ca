//! The aggregator of a group: its own update, the updates of its members, the
//! combined shard state, and the replicas that hold it.

use crate::base::arith::{abs_int, clamp_int, max_int, max_u64, sat_u64, trunc_div, within};
use crate::base::ids::{unsigned_hash, ArtifactId, NodeId};
use crate::base::members::{contains_id, filter_outside, NodeSet};
use crate::base::search::outside;
use crate::reference::context::{Context, ContextView};
use crate::reference::sgd::{
    is_median, law_local_steps_compose, loss_fits, loss_in_range, mean_loss, median, samples_loss,
    train, trained,
};
use crate::reference::types::{
    TrainingAck, TrainingAckKind, TrainingAggregate, TrainingAggregateView,
    TrainingCheckpointOffer, TrainingContribution, TrainingContributionView, TrainingGroup,
    TrainingGroupView, TrainingShardState, TrainingUpdate, TrainingWindow, TrainingWindowView,
};
use vstd::prelude::*;

verus! {

/// The update of `worker` for a window, from the shard state it holds.
pub open spec fn update_of(
    c: ContextView,
    w: TrainingWindowView,
    worker: NodeId,
    scale: int,
) -> TrainingUpdate {
    let after = trained(c.value, c.optimizer, c.samples, w.local_steps as nat, scale);
    TrainingUpdate {
        job_id: c.start.job_id,
        worker,
        term: c.term,
        membership_epoch: c.start.membership_epoch,
        branch: c.branch,
        window: w.window,
        shard_id: w.shard_id,
        base_generation: w.base_generation,
        update_sequence: sat_u64(w.window + 1) as u64,
        value: after.0,
        optimizer: after.1,
        loss: mean_loss(after.0, c.samples) as i64,
        samples: c.samples.len() as u32,
    }
}

/// The loss of the update can be taken without overflow.
pub open spec fn update_fits(c: ContextView, w: TrainingWindowView, scale: int) -> bool {
    &&& c.samples.len() <= u32::MAX
    &&& loss_fits(
        trained(c.value, c.optimizer, c.samples, w.local_steps as nat, scale).0,
        c.samples,
    )
}

/// Whether the loss of the update can be taken without overflow.
pub fn update_in_range(context: &Context, window: &TrainingWindow, scale: i64) -> (r: bool)
    requires
        scale > 0,
    ensures
        r == update_fits(context@, window@, scale as int),
{
    if context.samples.len() as u64 > u32::MAX as u64 {
        return false;
    }
    let (value, _) = train(
        context.value,
        context.optimizer,
        &context.samples,
        window.local_steps,
        scale,
    );
    loss_in_range(value, &context.samples)
}

pub fn compute_update(
    context: &Context,
    window: &TrainingWindow,
    worker: NodeId,
    scale: i64,
) -> (r: TrainingUpdate)
    requires
        scale > 0,
        update_fits(context@, window@, scale as int),
    ensures
        r == update_of(context@, window@, worker, scale as int),
{
    let (value, optimizer) = train(
        context.value,
        context.optimizer,
        &context.samples,
        window.local_steps,
        scale,
    );
    TrainingUpdate {
        job_id: context.start.job_id,
        worker,
        term: context.term,
        membership_epoch: context.start.membership_epoch,
        branch: context.branch,
        window: window.window,
        shard_id: window.shard_id,
        base_generation: window.base_generation,
        update_sequence: window.window.saturating_add(1),
        value,
        optimizer,
        loss: samples_loss(value, &context.samples),
        samples: context.samples.len() as u32,
    }
}

/// Updates compose: the update of `a + b` local steps is the update of `b` steps from
/// the state that the update of `a` steps leaves, in every field; and an update of no
/// step has the value and the optimizer state that the worker holds.
pub proof fn law_updates_compose(
    c: ContextView,
    w: TrainingWindowView,
    worker: NodeId,
    a: u16,
    b: u16,
    scale: int,
)
    requires
        w.local_steps == a + b,
    ensures
        ({
            let first = update_of(c, TrainingWindowView { local_steps: a, ..w }, worker, scale);
            let then = ContextView { value: first.value, optimizer: first.optimizer, ..c };
            let rest = TrainingWindowView { local_steps: b, ..w };
            &&& update_of(c, w, worker, scale) == update_of(then, rest, worker, scale)
            &&& update_fits(c, w, scale) == update_fits(then, rest, scale)
        }),
        w.local_steps == 0 ==> update_of(c, w, worker, scale).value == c.value && update_of(
            c,
            w,
            worker,
            scale,
        ).optimizer == c.optimizer,
{
    law_local_steps_compose(c.value, c.optimizer, c.samples, a as nat, b as nat, scale);
}

/// The updates that an aggregator gathers for one window.
#[derive(Debug)]
pub struct Collection {
    /// the members whose updates are waited for
    pub expected: NodeSet,
    /// the updates accepted so far, the aggregator's own first
    pub updates: Vec<TrainingUpdate>,
}

/// The contents of a [`Collection`].
#[verifier::ext_equal]
pub struct CollectionView {
    pub expected: Set<NodeId>,
    pub updates: Seq<TrainingUpdate>,
}

impl View for Collection {
    type V = CollectionView;

    open spec fn view(&self) -> CollectionView {
        CollectionView {
            expected: self.expected@,
            updates: self.updates@,
        }
    }
}

/// The workers of the updates, in order.
pub open spec fn workers_of(updates: Seq<TrainingUpdate>) -> Seq<NodeId> {
    updates.map_values(|u: TrainingUpdate| u.worker)
}

/// The collection with which an aggregator opens a window.
pub open spec fn opened_collection(
    c: ContextView,
    group: TrainingGroupView,
    w: TrainingWindowView,
    node: NodeId,
    scale: int,
) -> CollectionView {
    CollectionView {
        expected: group.members.filter(outside(c.failed)).to_set(),
        updates: seq![update_of(c, w, node, scale)],
    }
}

/// Open a window with the aggregator's own update.
pub fn open_collection(
    context: &Context,
    group: &TrainingGroup,
    window: &TrainingWindow,
    node: NodeId,
    scale: i64,
) -> (r: Collection)
    requires
        scale > 0,
        update_fits(context@, window@, scale as int),
    ensures
        r@ == opened_collection(context@, group@, window@, node, scale as int),
{
    let live = filter_outside(&group.members, &context.failed);
    let own = compute_update(context, window, node, scale);
    let mut updates: Vec<TrainingUpdate> = Vec::new();
    updates.push(own);
    Collection { expected: NodeSet::from_ids(&live), updates }
}

/// Whether updates of expected members are still missing.
pub fn is_collecting(collection: &Collection) -> (r: bool)
    ensures
        r == (collection@.updates.len() < collection@.expected.len()),
{
    collection.updates.len() < collection.expected.len()
}

/// An update that belongs to this window and comes from an expected member for
/// the first time.
pub open spec fn acceptable_update(
    c: ContextView,
    w: TrainingWindowView,
    col: CollectionView,
    peer: NodeId,
    u: TrainingUpdate,
) -> bool {
    &&& peer == u.worker
    &&& u.job_id == c.start.job_id
    &&& u.term == c.term
    &&& u.membership_epoch == c.start.membership_epoch
    &&& u.branch == c.branch
    &&& u.window == w.window
    &&& u.shard_id == w.shard_id
    &&& u.base_generation == w.base_generation
    &&& col.expected.contains(u.worker)
    &&& !workers_of(col.updates).contains(u.worker)
}

fn has_update_of(updates: &Vec<TrainingUpdate>, worker: NodeId) -> (r: bool)
    ensures
        r == workers_of(updates@).contains(worker),
{
    let mut i: usize = 0;
    while i < updates.len()
        invariant
            0 <= i <= updates@.len(),
            forall|j: int| 0 <= j < i ==> (#[trigger] updates@[j]).worker != worker,
        decreases updates@.len() - i,
    {
        if updates[i].worker == worker {
            assert(workers_of(updates@)[i as int] == worker);
            return true;
        }
        i += 1;
    }
    assert forall|j: int| 0 <= j < workers_of(updates@).len() implies workers_of(updates@)[j]
        != worker by {
        assert(updates@[j].worker != worker);
    }
    false
}

/// Whether an update belongs to this window.
pub fn update_acceptable(
    context: &Context,
    window: &TrainingWindow,
    collection: &Collection,
    peer: NodeId,
    update: &TrainingUpdate,
) -> (r: bool)
    ensures
        r == acceptable_update(context@, window@, collection@, peer, *update),
{
    peer == update.worker && update.job_id == context.start.job_id && update.term == context.term
        && update.membership_epoch == context.start.membership_epoch && update.branch
        == context.branch && update.window == window.window && update.shard_id == window.shard_id
        && update.base_generation == window.base_generation && collection.expected.contains(
        update.worker,
    ) && !has_update_of(&collection.updates, update.worker)
}

/// What the admission policy is shown of an update.
pub open spec fn contribution(u: TrainingUpdate) -> TrainingContributionView {
    TrainingContributionView {
        job_id: u.job_id,
        worker: u.worker,
        branch: u.branch,
        plan_generation: max_int(u.term as int, 1) as u64,
        generation: max_int(u.base_generation as int, 1) as u64,
        sequence: max_int(u.update_sequence as int, 1) as u64,
        values: seq![u.value, u.optimizer],
    }
}

/// What the admission policy is shown of an update.
pub fn contribution_of(update: &TrainingUpdate) -> (r: TrainingContribution)
    ensures
        r@ == contribution(*update),
{
    let mut values: Vec<i64> = Vec::new();
    values.push(update.value);
    values.push(update.optimizer);
    assert(values@ =~= seq![update.value, update.optimizer]);
    TrainingContribution {
        job_id: update.job_id,
        worker: update.worker,
        branch: update.branch,
        plan_generation: max_u64(update.term, 1),
        generation: max_u64(update.base_generation, 1),
        sequence: max_u64(update.update_sequence, 1),
        values,
    }
}

/// Take in an update, or count it as rejected. `admitted` is the answer of the
/// admission policy, which matters only for an acceptable update.
pub fn receive_update(
    context: &mut Context,
    window: &TrainingWindow,
    collection: &mut Collection,
    peer: NodeId,
    update: TrainingUpdate,
    admitted: bool,
)
    ensures
        ({
            let taken = acceptable_update(
                old(context)@,
                window@,
                old(collection)@,
                peer,
                update,
            ) && admitted;
            &&& final(context)@ == (ContextView {
                rejected_updates: if taken {
                    old(context)@.rejected_updates
                } else {
                    sat_u64(old(context)@.rejected_updates + 1) as u64
                },
                ..old(context)@
            })
            &&& final(collection)@ == (CollectionView {
                updates: if taken {
                    old(collection)@.updates.push(update)
                } else {
                    old(collection)@.updates
                },
                ..old(collection)@
            })
        }),
{
    if update_acceptable(context, window, collection, peer, &update) && admitted {
        collection.updates.push(update);
    } else {
        context.rejected_updates = context.rejected_updates.saturating_add(1);
    }
}

/// No worker contributes twice to a window, however updates arrive.
pub proof fn law_one_update_per_worker(
    c: ContextView,
    w: TrainingWindowView,
    col: CollectionView,
    peer: NodeId,
    u: TrainingUpdate,
)
    requires
        workers_of(col.updates).no_duplicates(),
        acceptable_update(c, w, col, peer, u),
    ensures
        workers_of(col.updates.push(u)).no_duplicates(),
{
    let a = workers_of(col.updates);
    let b = workers_of(col.updates.push(u));
    assert(b =~= a.push(u.worker));
    assert forall|i: int, j: int| 0 <= i < j < b.len() implies b[i] != b[j] by {
        if j == a.len() {
            assert(a.contains(a[i]));
        }
    }
}

/// The waiting time is over.
pub fn collection_timed_out(context: &mut Context)
    ensures
        final(context)@ == (ContextView {
            stragglers: sat_u64(old(context)@.stragglers + 1) as u64,
            ..old(context)@
        }),
{
    context.stragglers = context.stragglers.saturating_add(1);
}

/// A peer went away while updates are gathered. `restored` tells whether an
/// expected member could be reached again.
pub fn collection_disconnected(
    context: &mut Context,
    collection: &Collection,
    peer: NodeId,
    restored: bool,
)
    ensures
        ({
            let expected = collection@.expected.contains(peer);
            let back = expected && restored;
            final(context)@ == (ContextView {
                failed: if back {
                    old(context)@.failed.remove(peer)
                } else {
                    old(context)@.failed.insert(peer)
                },
                stragglers: if expected && !back {
                    sat_u64(old(context)@.stragglers + 1) as u64
                } else {
                    old(context)@.stragglers
                },
                ..old(context)@
            })
        }),
{
    let expected = collection.expected.contains(peer);
    if expected && restored {
        context.failed.remove(peer);
    } else {
        context.failed.insert(peer);
        if expected {
            context.stragglers = context.stragglers.saturating_add(1);
        }
    }
}

/// Why a collection yields no shard state.
#[derive(Clone, Copy, Debug, PartialEq, Eq, Structural)]
pub enum CollectError {
    NoUpdates,
    ExceedsBound,
}

/// The values of the updates.
pub open spec fn values_of(updates: Seq<TrainingUpdate>) -> Seq<i64> {
    updates.map_values(|u: TrainingUpdate| u.value)
}

/// The optimizer states of the updates.
pub open spec fn optimizers_of(updates: Seq<TrainingUpdate>) -> Seq<i64> {
    updates.map_values(|u: TrainingUpdate| u.optimizer)
}

/// The magnitude that a combined value may not exceed.
pub open spec fn value_bound(scale: int) -> int {
    10 * scale
}

/// The shard state that the median of the updates makes, before its hash is set.
pub open spec fn combined_state(
    c: ContextView,
    w: TrainingWindowView,
    node: NodeId,
    value: i64,
    optimizer: i64,
) -> TrainingShardState {
    TrainingShardState {
        job_id: c.start.job_id,
        owner: node,
        term: c.term,
        membership_epoch: c.start.membership_epoch,
        branch: c.branch,
        shard_id: w.shard_id,
        generation: sat_u64(w.base_generation + 1) as u64,
        value,
        optimizer,
        state_hash: unsigned_hash(),
    }
}

/// Combine the gathered updates into the next state of the shard. Its hash is
/// left unset.
pub fn combine_updates(
    context: &Context,
    window: &TrainingWindow,
    collection: &Collection,
    node: NodeId,
    scale: i64,
) -> (r: Result<TrainingShardState, CollectError>)
    requires
        0 < scale,
        value_bound(scale as int) <= i64::MAX,
    ensures
        match r {
            Ok(state) => {
                &&& is_median(values_of(collection@.updates), state.value)
                &&& is_median(optimizers_of(collection@.updates), state.optimizer)
                &&& abs_int(state.value as int) <= value_bound(scale as int)
                &&& state == combined_state(
                    context@,
                    window@,
                    node,
                    state.value,
                    state.optimizer,
                )
            },
            Err(CollectError::NoUpdates) => collection@.updates.len() == 0,
            Err(CollectError::ExceedsBound) => collection@.updates.len() > 0 && exists|m: i64|
                #[trigger]
                is_median(values_of(collection@.updates), m) && abs_int(m as int) > value_bound(
                    scale as int,
                ),
        },
{
    if collection.updates.len() == 0 {
        return Err(CollectError::NoUpdates);
    }
    let mut values: Vec<i64> = Vec::new();
    let mut optimizers: Vec<i64> = Vec::new();
    let mut i: usize = 0;
    let ghost updates = collection@.updates;
    while i < collection.updates.len()
        invariant
            0 <= i <= collection.updates@.len(),
            updates == collection.updates@,
            values@ == values_of(updates).take(i as int),
            optimizers@ == optimizers_of(updates).take(i as int),
        decreases collection.updates@.len() - i,
    {
        values.push(collection.updates[i].value);
        optimizers.push(collection.updates[i].optimizer);
        assert(values@ =~= values_of(updates).take(i as int + 1));
        assert(optimizers@ =~= optimizers_of(updates).take(i as int + 1));
        i += 1;
    }
    assert(values_of(updates).take(i as int) =~= values_of(updates));
    assert(optimizers_of(updates).take(i as int) =~= optimizers_of(updates));
    let value = median(values);
    let optimizer = median(optimizers);
    if !within(value, 10 * scale) {
        assert(is_median(values_of(collection@.updates), value));
        return Err(CollectError::ExceedsBound);
    }
    Ok(
        TrainingShardState {
            job_id: context.start.job_id,
            owner: node,
            term: context.term,
            membership_epoch: context.start.membership_epoch,
            branch: context.branch,
            shard_id: window.shard_id,
            generation: window.base_generation.saturating_add(1),
            value,
            optimizer,
            state_hash: ArtifactId::unsigned(),
        },
    )
}

/// A live group member other than the aggregator.
pub open spec fn is_replica_target(c: ContextView, node: NodeId, member: NodeId) -> bool {
    member != node && !c.failed.contains(member)
}

/// Whether the new state goes to `member`.
pub fn replica_target(context: &Context, node: NodeId, member: NodeId) -> (r: bool)
    ensures
        r == is_replica_target(context@, node, member),
{
    member != node && !context.failed.contains(member)
}

/// The offer of the new shard artifact.
pub open spec fn artifact_offer(
    c: ContextView,
    state: TrainingShardState,
    node: NodeId,
    artifact: ArtifactId,
) -> TrainingCheckpointOffer {
    TrainingCheckpointOffer {
        job_id: c.start.job_id,
        creator: node,
        term: c.term,
        checkpoint_generation: state.generation,
        shard_id: state.shard_id,
        artifact,
    }
}

/// The offer of the new shard artifact.
pub fn offer_artifact(
    context: &Context,
    state: &TrainingShardState,
    node: NodeId,
    artifact: ArtifactId,
) -> (r: TrainingCheckpointOffer)
    ensures
        r == artifact_offer(context@, *state, node, artifact),
{
    TrainingCheckpointOffer {
        job_id: context.start.job_id,
        creator: node,
        term: context.term,
        checkpoint_generation: state.generation,
        shard_id: state.shard_id,
        artifact,
    }
}

/// `member` counted as failed and as a straggler.
pub open spec fn without_member(c: ContextView, member: NodeId) -> ContextView {
    ContextView {
        failed: c.failed.insert(member),
        stragglers: sat_u64(c.stragglers + 1) as u64,
        ..c
    }
}

/// Count `member` as failed and as a straggler.
pub fn drop_member(context: &mut Context, member: NodeId)
    ensures
        final(context)@ == without_member(old(context)@, member),
{
    context.failed.insert(member);
    context.stragglers = context.stragglers.saturating_add(1);
}

/// What arrives while a replica is waited for.
#[derive(Clone, Copy, Debug, PartialEq, Eq, Structural)]
pub enum ReplicationEvent {
    Ack { peer: NodeId, ack: TrainingAck },
    Update,
    Disconnected(NodeId),
    Other,
}

/// The acknowledgement says that `member` holds `artifact`.
pub open spec fn confirms_artifact(
    c: ContextView,
    peer: NodeId,
    ack: TrainingAck,
    member: NodeId,
    artifact: ArtifactId,
) -> bool {
    peer == member && ack.peer == member && ack.job_id == c.start.job_id && ack.kind
        == (TrainingAckKind::Checkpoint { artifact })
}

/// The context, the replicas, and whether the wait for `member` is over.
pub open spec fn replication_step(
    c: ContextView,
    replicas: Seq<NodeId>,
    member: NodeId,
    artifact: ArtifactId,
    event: ReplicationEvent,
) -> (ContextView, Seq<NodeId>, bool) {
    match event {
        ReplicationEvent::Ack { peer, ack } => if confirms_artifact(
            c,
            peer,
            ack,
            member,
            artifact,
        ) {
            (c, replicas.push(member), true)
        } else {
            (c, replicas, false)
        },
        ReplicationEvent::Update => (
            ContextView { rejected_updates: sat_u64(c.rejected_updates + 1) as u64, ..c },
            replicas,
            false,
        ),
        ReplicationEvent::Disconnected(peer) => if peer == member {
            (without_member(c, member), replicas, true)
        } else {
            (c, replicas, false)
        },
        ReplicationEvent::Other => (c, replicas, false),
    }
}

/// Take in an event while `member` is to confirm `artifact`. The result tells
/// whether the wait is over.
pub fn on_replication_event(
    context: &mut Context,
    replicas: &mut Vec<NodeId>,
    member: NodeId,
    artifact: ArtifactId,
    event: ReplicationEvent,
) -> (r: bool)
    ensures
        (final(context)@, final(replicas)@, r) == replication_step(
            old(context)@,
            old(replicas)@,
            member,
            artifact,
            event,
        ),
{
    match event {
        ReplicationEvent::Ack { peer, ack } => {
            let confirmed = match ack.kind {
                TrainingAckKind::Checkpoint { artifact: named } => peer == member && ack.peer
                    == member && ack.job_id == context.start.job_id && named == artifact,
                _ => false,
            };
            if confirmed {
                replicas.push(member);
            }
            confirmed
        },
        ReplicationEvent::Update => {
            context.rejected_updates = context.rejected_updates.saturating_add(1);
            false
        },
        ReplicationEvent::Disconnected(peer) => {
            if peer == member {
                drop_member(context, member);
            }
            peer == member
        },
        ReplicationEvent::Other => false,
    }
}

/// The wait for `member` is over: without a confirmation it counts as failed.
pub fn close_replica(context: &mut Context, replicas: &Vec<NodeId>, member: NodeId)
    ensures
        final(context)@ == (if replicas@.contains(member) {
            old(context)@
        } else {
            without_member(old(context)@, member)
        }),
{
    if !contains_id(replicas, member) {
        drop_member(context, member);
    }
}

/// The sum of the losses of the updates.
pub open spec fn loss_total(updates: Seq<TrainingUpdate>) -> int
    decreases updates.len(),
{
    if updates.len() == 0 {
        0
    } else {
        loss_total(updates.drop_last()) + updates.last().loss
    }
}

/// The losses of the updates add up within the machine integer.
pub open spec fn losses_fit(updates: Seq<TrainingUpdate>) -> bool {
    forall|i: int|
        0 <= i <= updates.len() ==> i64::MIN <= loss_total(#[trigger] updates.take(i)) <= i64::MAX
}

/// Whether the losses of the updates add up without overflow.
pub fn losses_in_range(updates: &Vec<TrainingUpdate>) -> (r: bool)
    ensures
        r == losses_fit(updates@),
{
    let mut total: i64 = 0;
    let mut i: usize = 0;
    while i < updates.len()
        invariant
            0 <= i <= updates@.len(),
            total == loss_total(updates@.take(i as int)),
            forall|j: int|
                0 <= j <= i ==> i64::MIN <= loss_total(#[trigger] updates@.take(j)) <= i64::MAX,
        decreases updates@.len() - i,
    {
        assert(updates@.take(i as int + 1).drop_last() =~= updates@.take(i as int));
        let next: i128 = total as i128 + updates[i].loss as i128;
        assert(next == loss_total(updates@.take(i as int + 1)));
        if next < i64::MIN as i128 || next > i64::MAX as i128 {
            return false;
        }
        total = next as i64;
        i += 1;
    }
    true
}

/// How many providers a shard needs: as many as are live, between one and three.
pub open spec fn required_providers(c: ContextView, group: TrainingGroupView) -> int {
    clamp_int(group.members.filter(outside(c.failed)).len() as int, 1, 3)
}

/// The aggregate of a window.
pub open spec fn window_aggregate(
    c: ContextView,
    group: TrainingGroupView,
    w: TrainingWindowView,
    node: NodeId,
    updates: Seq<TrainingUpdate>,
    state: TrainingShardState,
    artifact: ArtifactId,
    replicas: Seq<NodeId>,
) -> TrainingAggregateView {
    TrainingAggregateView {
        job_id: c.start.job_id,
        aggregator: node,
        term: c.term,
        membership_epoch: c.start.membership_epoch,
        branch: c.branch,
        window: w.window,
        group_id: group.group_id,
        shard_id: w.shard_id,
        generation: state.generation,
        value: state.value,
        optimizer: state.optimizer,
        loss: trunc_div(loss_total(updates), updates.len() as int) as i64,
        contributors: workers_of(updates),
        state_artifact: artifact,
        replicas,
    }
}

/// A shard that reached too few providers.
#[derive(Clone, Copy, Debug, PartialEq, Eq, Structural)]
pub struct TooFewProviders {
    pub shard_id: u16,
    pub reached: usize,
    pub required: usize,
}

/// Close the window: take over the combined state and publish the aggregate,
/// or report that too few providers hold the state.
pub fn finish_window(
    context: &mut Context,
    group: &TrainingGroup,
    window: &TrainingWindow,
    node: NodeId,
    collection: &Collection,
    state: &TrainingShardState,
    artifact: ArtifactId,
    replicas: Vec<NodeId>,
) -> (r: Result<TrainingAggregate, TooFewProviders>)
    requires
        0 < collection@.updates.len() <= i64::MAX,
        losses_fit(collection@.updates),
    ensures
        ({
            let required = required_providers(old(context)@, group@);
            match r {
                Ok(aggregate) => {
                    &&& replicas@.len() >= required
                    &&& aggregate@ == window_aggregate(
                        old(context)@,
                        group@,
                        window@,
                        node,
                        collection@.updates,
                        *state,
                        artifact,
                        replicas@,
                    )
                    &&& final(context)@ == (ContextView {
                        value: state.value,
                        optimizer: state.optimizer,
                        generation: state.generation,
                        ..old(context)@
                    })
                },
                Err(short) => {
                    &&& replicas@.len() < required
                    &&& short == (TooFewProviders {
                        shard_id: window@.shard_id,
                        reached: replicas@.len() as usize,
                        required: required as usize,
                    })
                    &&& final(context)@ == old(context)@
                },
            }
        }),
{
    let live = filter_outside(&group.members, &context.failed).len();
    let required: usize = if live < 1 {
        1
    } else if live > 3 {
        3
    } else {
        live
    };
    if replicas.len() < required {
        return Err(
            TooFewProviders { shard_id: window.shard_id, reached: replicas.len(), required },
        );
    }
    let mut total: i64 = 0;
    let mut contributors: Vec<NodeId> = Vec::new();
    let mut i: usize = 0;
    let ghost updates = collection@.updates;
    while i < collection.updates.len()
        invariant
            0 <= i <= collection.updates@.len(),
            updates == collection.updates@,
            losses_fit(updates),
            total == loss_total(updates.take(i as int)),
            contributors@ == workers_of(updates).take(i as int),
        decreases collection.updates@.len() - i,
    {
        assert(updates.take(i as int + 1).drop_last() =~= updates.take(i as int));
        assert(i64::MIN <= loss_total(updates.take(i as int + 1)) <= i64::MAX);
        total += collection.updates[i].loss;
        contributors.push(collection.updates[i].worker);
        assert(contributors@ =~= workers_of(updates).take(i as int + 1));
        i += 1;
    }
    assert(updates.take(i as int) =~= updates);
    assert(workers_of(updates).take(i as int) =~= workers_of(updates));
    let loss = total / collection.updates.len() as i64;
    context.value = state.value;
    context.optimizer = state.optimizer;
    context.generation = state.generation;
    Ok(
        TrainingAggregate {
            job_id: context.start.job_id,
            aggregator: node,
            term: context.term,
            membership_epoch: context.start.membership_epoch,
            branch: context.branch,
            window: window.window,
            group_id: group.group_id,
            shard_id: window.shard_id,
            generation: state.generation,
            value: state.value,
            optimizer: state.optimizer,
            loss,
            contributors,
            state_artifact: artifact,
            replicas,
        },
    )
}

/// The aggregator first, then every replica once, in order.
pub open spec fn provider_list(aggregator: NodeId, replicas: Seq<NodeId>) -> Seq<NodeId>
    decreases replicas.len(),
{
    if replicas.len() == 0 {
        seq![aggregator]
    } else {
        crate::base::members::push_new(
            provider_list(aggregator, replicas.drop_last()),
            replicas.last(),
        )
    }
}

pub fn providers(aggregate: &TrainingAggregate) -> (r: Vec<NodeId>)
    ensures
        r@ == provider_list(aggregate@.aggregator, aggregate@.replicas),
{
    let mut out: Vec<NodeId> = Vec::new();
    out.push(aggregate.aggregator);
    let ghost s = aggregate.replicas@;
    assert(out@ =~= provider_list(aggregate.aggregator, s.take(0)));
    let mut i: usize = 0;
    while i < aggregate.replicas.len()
        invariant
            0 <= i <= aggregate.replicas@.len(),
            s == aggregate.replicas@,
            out@ == provider_list(aggregate.aggregator, s.take(i as int)),
        decreases aggregate.replicas@.len() - i,
    {
        assert(s.take(i as int + 1).drop_last() =~= s.take(i as int));
        crate::base::members::push_unique(&mut out, aggregate.replicas[i]);
        i += 1;
    }
    assert(s.take(i as int) =~= s);
    out
}

/// The providers are the aggregator and the replicas, each listed once, the
/// aggregator first.
pub proof fn law_providers_complete(aggregator: NodeId, replicas: Seq<NodeId>)
    ensures
        provider_list(aggregator, replicas).no_duplicates(),
        provider_list(aggregator, replicas).len() > 0,
        provider_list(aggregator, replicas)[0] == aggregator,
        forall|n: NodeId| #[trigger]
            provider_list(aggregator, replicas).contains(n) <==> n == aggregator
                || replicas.contains(n),
    decreases replicas.len(),
{
    let all = provider_list(aggregator, replicas);
    if replicas.len() == 0 {
        assert(all[0] == aggregator);
    } else {
        let rest = replicas.drop_last();
        law_providers_complete(aggregator, rest);
        let before = provider_list(aggregator, rest);
        assert forall|n: NodeId| #[trigger] all.contains(n) <==> n == aggregator
            || replicas.contains(n) by {
            if replicas.contains(n) {
                let k = choose|k: int| 0 <= k < replicas.len() && replicas[k] == n;
                if k < rest.len() {
                    assert(rest[k] == n);
                    assert(before.contains(n));
                }
                if before.contains(n) {
                    let m = choose|m: int| 0 <= m < before.len() && before[m] == n;
                    assert(all[m] == n);
                } else {
                    assert(all[all.len() - 1] == n);
                }
            }
            if n == aggregator {
                assert(all[0] == before[0]);
            }
            if all.contains(n) {
                let m = choose|m: int| 0 <= m < all.len() && all[m] == n;
                if m < before.len() {
                    assert(before.contains(before[m]));
                    if rest.contains(n) {
                        let k = choose|k: int| 0 <= k < rest.len() && rest[k] == n;
                        assert(replicas[k] == n);
                    }
                } else {
                    assert(replicas[replicas.len() - 1] == n);
                }
            }
        }
        assert forall|i: int, j: int| 0 <= i < j < all.len() implies all[i] != all[j] by {
            if j == before.len() {
                assert(before.contains(before[i]));
            }
        }
    }
}

/// An update tells who made it, for which job, term, window and shard and from which
/// generation, and with how many samples; its loss is that of its own value.
pub proof fn law_update_tells_its_window(
    c: ContextView,
    w: TrainingWindowView,
    worker: NodeId,
    scale: int,
)
    requires
        c.samples.len() <= u32::MAX,
        0 <= mean_loss(update_of(c, w, worker, scale).value, c.samples) <= i64::MAX,
        w.window < u64::MAX,
    ensures
        ({
            let u = update_of(c, w, worker, scale);
            &&& u.worker == worker
            &&& u.job_id == c.start.job_id
            &&& u.membership_epoch == c.start.membership_epoch
            &&& u.term == c.term
            &&& u.branch == c.branch
            &&& u.window == w.window
            &&& u.shard_id == w.shard_id
            &&& u.base_generation == w.base_generation
            &&& u.update_sequence == w.window + 1
            &&& u.samples == c.samples.len()
            &&& u.loss == mean_loss(u.value, c.samples)
            &&& w.local_steps == 1 ==> u.optimizer == crate::reference::sgd::gradient(
                c.value,
                c.samples,
            ) as i64
        }),
{
    let before = trained(c.value, c.optimizer, c.samples, 0, scale);
    assert(before == (c.value, c.optimizer));
}

/// What the admission policy is shown of an update is the update's own: its worker, job
/// and branch, its value and optimizer state in this order, and its numbers, of which
/// none is below one.
pub proof fn law_policy_sees_the_update(u: TrainingUpdate)
    ensures
        ({
            let s = contribution(u);
            &&& s.worker == u.worker
            &&& s.job_id == u.job_id
            &&& s.branch == u.branch
            &&& s.values.len() == 2
            &&& s.values[0] == u.value
            &&& s.values[1] == u.optimizer
            &&& u.term >= 1 ==> s.plan_generation == u.term
            &&& u.base_generation >= 1 ==> s.generation == u.base_generation
            &&& u.update_sequence >= 1 ==> s.sequence == u.update_sequence
            &&& s.plan_generation >= 1 && s.generation >= 1 && s.sequence >= 1
        }),
{
}

/// An update counts only for its own job, term, branch, window, shard and base, from the
/// expected member that made it.
pub proof fn law_updates_are_of_the_window(
    c: ContextView,
    w: TrainingWindowView,
    col: CollectionView,
    peer: NodeId,
    u: TrainingUpdate,
    scale: int,
)
    ensures
        acceptable_update(c, w, col, peer, u) ==> {
            &&& u.worker == peer
            &&& col.expected.contains(peer)
            &&& u.job_id == c.start.job_id
            &&& u.membership_epoch == c.start.membership_epoch
            &&& u.term == c.term
            &&& u.branch == c.branch
            &&& u.window == w.window
            &&& u.shard_id == w.shard_id
            &&& u.base_generation == w.base_generation
            &&& forall|i: int| 0 <= i < col.updates.len() ==> (#[trigger] col.updates[i]).worker
                != peer
        },
        col.expected.contains(peer) && !workers_of(col.updates).contains(peer)
            ==> acceptable_update(c, w, col, peer, update_of(c, w, peer, scale)),
{
    if acceptable_update(c, w, col, peer, u) {
        assert forall|i: int| 0 <= i < col.updates.len() implies (
        #[trigger] col.updates[i]).worker != peer by {
            assert(workers_of(col.updates)[i] == col.updates[i].worker);
        }
    }
}

/// A window is opened with the aggregator's own update, and waits for the live members
/// of its group.
pub proof fn law_window_waits_for_live_members(
    c: ContextView,
    group: TrainingGroupView,
    w: TrainingWindowView,
    node: NodeId,
    scale: int,
    member: NodeId,
)
    ensures
        ({
            let col = opened_collection(c, group, w, node, scale);
            &&& col.updates.len() == 1
            &&& col.updates[0] == update_of(c, w, node, scale)
            &&& col.expected.contains(member) <==> group.members.contains(member)
                && !c.failed.contains(member)
        }),
{
    crate::base::search::lemma_filter_contains(group.members, outside(c.failed));
}

/// The combined state is the next generation of its shard, owned by the aggregator, with
/// the value and the optimizer state that were combined.
pub proof fn law_combined_state_is_the_next(
    c: ContextView,
    w: TrainingWindowView,
    node: NodeId,
    value: i64,
    optimizer: i64,
)
    requires
        w.base_generation < u64::MAX,
    ensures
        ({
            let s = combined_state(c, w, node, value, optimizer);
            &&& s.value == value
            &&& s.optimizer == optimizer
            &&& s.generation == w.base_generation + 1
            &&& s.shard_id == w.shard_id
            &&& s.owner == node
            &&& s.job_id == c.start.job_id
            &&& s.membership_epoch == c.start.membership_epoch
            &&& s.term == c.term
            &&& s.branch == c.branch
        }),
        value_bound(1_000_000) == 10_000_000,
{
}

/// The aggregate of a window reports the stored state, who contributed and who holds it,
/// and the mean of the contributors' losses.
pub proof fn law_aggregate_reports_the_state(
    c: ContextView,
    group: TrainingGroupView,
    w: TrainingWindowView,
    node: NodeId,
    updates: Seq<TrainingUpdate>,
    state: TrainingShardState,
    artifact: ArtifactId,
    replicas: Seq<NodeId>,
    i: int,
)
    requires
        0 <= i < updates.len(),
        updates.len() < i64::MAX,
        losses_fit(updates),
    ensures
        ({
            let a = window_aggregate(c, group, w, node, updates, state, artifact, replicas);
            &&& a.value == state.value
            &&& a.optimizer == state.optimizer
            &&& a.generation == state.generation
            &&& a.state_artifact == artifact
            &&& a.replicas == replicas
            &&& a.contributors.len() == updates.len()
            &&& a.contributors[i] == updates[i].worker
            &&& a.aggregator == node
            &&& a.group_id == group.group_id
            &&& a.shard_id == w.shard_id
            &&& a.window == w.window
            &&& a.job_id == c.start.job_id
            &&& a.membership_epoch == c.start.membership_epoch
            &&& a.term == c.term
            &&& a.branch == c.branch
            &&& loss_total(updates) >= 0 ==> 0 <= loss_total(updates) - a.loss * updates.len()
                < updates.len()
            &&& loss_total(updates) <= 0 ==> -updates.len() < loss_total(updates) - a.loss
                * updates.len() <= 0
        }),
{
    let t = loss_total(updates);
    let n = updates.len() as int;
    let q = trunc_div(t, n);
    crate::base::arith::law_quotient_rounds_toward_zero(t, n);
    assert(updates.take(n) =~= updates);
    assert(i64::MIN <= q <= i64::MAX) by (nonlinear_arith)
        requires
            n >= 1,
            i64::MIN <= t <= i64::MAX,
            t >= 0 ==> 0 <= t - q * n < n,
            t <= 0 ==> -n < t - q * n <= 0,
    ;
}

/// Losses add up update by update.
pub proof fn law_losses_add_up(updates: Seq<TrainingUpdate>, update: TrainingUpdate)
    ensures
        loss_total(Seq::empty()) == 0,
        loss_total(updates.push(update)) == loss_total(updates) + update.loss,
{
    assert(updates.push(update).drop_last() =~= updates);
}

/// A shard needs as many providers as its group has live members, at least one and at
/// most three; the artifact goes to every live member but the aggregator.
pub proof fn law_providers_needed(
    c: ContextView,
    group: TrainingGroupView,
    node: NodeId,
    member: NodeId,
    live: int,
)
    requires
        live == group.members.filter(outside(c.failed)).len(),
    ensures
        1 <= required_providers(c, group) <= 3,
        1 <= live <= 3 ==> required_providers(c, group) == live,
        live > 3 ==> required_providers(c, group) == 3,
        is_replica_target(c, node, member) <==> member != node && !c.failed.contains(member),
{
}

/// The offer of an artifact names its maker, the term, the shard and its generation.
pub proof fn law_offer_names_the_artifact(
    c: ContextView,
    state: TrainingShardState,
    node: NodeId,
    artifact: ArtifactId,
)
    ensures
        artifact_offer(c, state, node, artifact).artifact == artifact,
        artifact_offer(c, state, node, artifact).creator == node,
        artifact_offer(c, state, node, artifact).term == c.term,
        artifact_offer(c, state, node, artifact).job_id == c.start.job_id,
        artifact_offer(c, state, node, artifact).shard_id == state.shard_id,
        artifact_offer(c, state, node, artifact).checkpoint_generation == state.generation,
{
}

/// A member counts as a holder only by its own confirmation of this very artifact; one
/// that goes away counts as failed and as a straggler.
pub proof fn law_holders_confirm_themselves(
    c: ContextView,
    replicas: Seq<NodeId>,
    member: NodeId,
    artifact: ArtifactId,
    event: ReplicationEvent,
)
    ensures
        ({
            let (after, held, over) = replication_step(c, replicas, member, artifact, event);
            &&& held == replicas || held == replicas.push(member)
            &&& held != replicas ==> {
                &&& over
                &&& event matches ReplicationEvent::Ack { peer, ack } && peer == member && ack.peer
                    == member && ack.job_id == c.start.job_id && ack.kind == (
                TrainingAckKind::Checkpoint { artifact })
            }
            &&& event == ReplicationEvent::Disconnected(member) ==> over
                && after.failed.contains(member) && held == replicas
            &&& event is Update ==> !over && (c.rejected_updates < u64::MAX
                ==> after.rejected_updates == c.rejected_updates + 1)
        }),
        without_member(c, member).failed.contains(member),
        c.stragglers < u64::MAX ==> without_member(c, member).stragglers == c.stragglers + 1,
{
}

/// An update is what as many local steps as the window asks for make of the worker's value
/// and optimizer state; the lists that are combined hold the updates' own, in order.
pub proof fn law_update_is_the_trained_value(
    c: ContextView,
    w: TrainingWindowView,
    worker: NodeId,
    scale: int,
    updates: Seq<TrainingUpdate>,
    i: int,
)
    ensures
        (update_of(c, w, worker, scale).value, update_of(c, w, worker, scale).optimizer) == trained(
            c.value,
            c.optimizer,
            c.samples,
            w.local_steps as nat,
            scale,
        ),
        values_of(updates).len() == updates.len(),
        optimizers_of(updates).len() == updates.len(),
        0 <= i < updates.len() ==> values_of(updates)[i] == updates[i].value && optimizers_of(
            updates,
        )[i] == updates[i].optimizer,
        w.local_steps == 0 ==> update_of(c, w, worker, scale).value == c.value,
        value_bound(scale) == 10 * scale,
{
}

} // verus!
