//! Checkpoints of integrated jobs: the manifest of a window, its confirmation
//! by the providers, and the history that is kept.

use crate::base::arith::sat_u64;
use crate::base::ids::{unsigned_hash, ArtifactId, NodeId};
use crate::base::members::{ascending, concat_ids, filter_other_than, sorted_unique, NodeSet};
use crate::base::ordered::OrdMap;
use crate::base::search::{other_than, views};
use crate::frontier::replication::{
    V4CheckpointRecord, V4CheckpointRecordView, V4StateAck, V4StateAckKind,
};
use crate::frontier::types::{
    V4ExecutionGraph, V4ExecutionGraphView, V4IntegratedStateRecord, V4ShardOwnershipView,
    V4TrainingPlan, V4TrainingPlanView,
};
use vstd::prelude::*;

verus! {

/// The manifests that a node keeps of a job.
pub const CHECKPOINT_HISTORY: usize = 2;

/// The hashes of the shards, in order; none where one is missing.
pub open spec fn hashes_for(
    shards: Seq<V4ShardOwnershipView>,
    hashes: Map<u16, ArtifactId>,
) -> Option<Seq<ArtifactId>> {
    if forall|i: int|
        0 <= i < shards.len() ==> hashes.contains_key((#[trigger] shards[i]).shard_id) {
        Some(shards.map_values(|s: V4ShardOwnershipView| hashes[s.shard_id]))
    } else {
        None
    }
}

fn collect_hashes(graph: &V4ExecutionGraph, hashes: &OrdMap<ArtifactId>) -> (r: Option<Vec<ArtifactId>>)
    ensures
        match r {
            Some(v) => hashes_for(graph@.shards, hashes@) == Some(v@),
            None => hashes_for(graph@.shards, hashes@) is None,
        },
{
    let ghost s = graph@.shards;
    let ghost all = s.map_values(|s: V4ShardOwnershipView| hashes@[s.shard_id]);
    let mut out: Vec<ArtifactId> = Vec::new();
    let mut i: usize = 0;
    while i < graph.shards.len()
        invariant
            0 <= i <= graph.shards@.len(),
            s == views(graph.shards@),
            s == graph@.shards,
            all == s.map_values(|s: V4ShardOwnershipView| hashes@[s.shard_id]),
            forall|j: int|
                0 <= j < i ==> hashes@.contains_key((#[trigger] s[j]).shard_id),
            out@ == all.take(i as int),
        decreases graph.shards@.len() - i,
    {
        assert(s[i as int] == graph.shards@[i as int]@);
        match hashes.get(graph.shards[i].shard_id) {
            None => {
                return None;
            },
            Some(hash) => {
                out.push(*hash);
                assert(out@ =~= all.take(i as int + 1));
            },
        }
        i += 1;
    }
    assert(all.take(i as int) =~= all);
    Some(out)
}

/// The owners and replicas of the shards.
pub open spec fn holders(shards: Seq<V4ShardOwnershipView>) -> Seq<NodeId>
    decreases shards.len(),
{
    if shards.len() == 0 {
        Seq::empty()
    } else {
        holders(shards.drop_last()) + shards.last().owners + shards.last().replicas
    }
}

fn collect_holders(graph: &V4ExecutionGraph) -> (r: Vec<NodeId>)
    ensures
        r@ == holders(graph@.shards),
{
    let ghost s = graph@.shards;
    let mut out: Vec<NodeId> = Vec::new();
    let mut i: usize = 0;
    while i < graph.shards.len()
        invariant
            0 <= i <= graph.shards@.len(),
            s == views(graph.shards@),
            s == graph@.shards,
            out@ == holders(s.take(i as int)),
        decreases graph.shards@.len() - i,
    {
        proof {
            assert(s.take(i as int + 1).drop_last() =~= s.take(i as int));
            assert(s.take(i as int + 1).last() == graph.shards@[i as int]@);
        }
        let owned = concat_ids(&out, &graph.shards[i].owners);
        out = concat_ids(&owned, &graph.shards[i].replicas);
        i += 1;
    }
    assert(s.take(i as int) =~= s);
    out
}

/// Why a checkpoint cannot be made.
#[derive(Clone, Copy, Debug, PartialEq, Eq, Structural)]
pub enum CheckpointError {
    MissingTensorShard,
    MissingOptimizerShard,
}

/// The checkpoint of a window, before its hash is set.
pub open spec fn checkpoint_of(
    graph: V4ExecutionGraphView,
    plan: V4TrainingPlanView,
    tensor_hashes: Seq<ArtifactId>,
    optimizer_hashes: Seq<ArtifactId>,
    checkpoint_generation: u64,
    parent: Option<ArtifactId>,
) -> V4CheckpointRecordView {
    V4CheckpointRecordView {
        job_id: graph.job_id,
        plan_generation: plan.plan_generation,
        model_generation: graph.shards[0].model_generation,
        optimizer_generation: graph.optimizer_generation,
        membership_epoch: graph.membership_epoch,
        checkpoint_generation: sat_u64(checkpoint_generation + 1) as u64,
        branch: graph.branch,
        parent,
        shard_hashes: tensor_hashes + optimizer_hashes,
        providers: ascending(holders(graph.shards).to_set()),
        complete: true,
        manifest_hash: unsigned_hash(),
    }
}

/// The checkpoint of a window: the hashes of every tensor shard and every
/// optimizer shard, held by every owner and replica. `parent` is the hash of
/// the checkpoint before it. The hash of the manifest is left unset.
pub fn commit_integrated_checkpoint(
    graph: &V4ExecutionGraph,
    plan: &V4TrainingPlan,
    tensor_hashes: &OrdMap<ArtifactId>,
    optimizer_hashes: &OrdMap<ArtifactId>,
    state: &V4IntegratedStateRecord,
    parent: Option<ArtifactId>,
) -> (r: Result<V4CheckpointRecord, CheckpointError>)
    requires
        graph@.shards.len() > 0,
    ensures
        ({
            let tensors = hashes_for(graph@.shards, tensor_hashes@);
            let optimizers = hashes_for(graph@.shards, optimizer_hashes@);
            match r {
                Err(CheckpointError::MissingTensorShard) => tensors is None,
                Err(CheckpointError::MissingOptimizerShard) => tensors is Some && optimizers is None,
                Ok(checkpoint) => tensors is Some && optimizers is Some && checkpoint@
                    == checkpoint_of(
                    graph@,
                    plan@,
                    tensors->0,
                    optimizers->0,
                    state.checkpoint_generation,
                    parent,
                ),
            }
        }),
{
    let mut shard_hashes = match collect_hashes(graph, tensor_hashes) {
        Some(hashes) => hashes,
        None => {
            return Err(CheckpointError::MissingTensorShard);
        },
    };
    let mut optimizers = match collect_hashes(graph, optimizer_hashes) {
        Some(hashes) => hashes,
        None => {
            return Err(CheckpointError::MissingOptimizerShard);
        },
    };
    shard_hashes.append(&mut optimizers);
    let all = collect_holders(graph);
    let checkpoint = V4CheckpointRecord {
        job_id: graph.job_id,
        plan_generation: plan.plan_generation,
        model_generation: graph.shards[0].model_generation,
        optimizer_generation: graph.optimizer_generation,
        membership_epoch: graph.membership_epoch,
        checkpoint_generation: state.checkpoint_generation.saturating_add(1),
        branch: graph.branch,
        parent,
        shard_hashes,
        providers: sorted_unique(&all),
        complete: true,
        manifest_hash: ArtifactId::unsigned(),
    };
    Ok(checkpoint)
}

/// Every owner and every replica of a shard is a provider of the checkpoint.
pub proof fn law_holders_are_providers(
    shards: Seq<V4ShardOwnershipView>,
    i: int,
    node: NodeId,
)
    requires
        0 <= i < shards.len(),
        shards[i].owners.contains(node) || shards[i].replicas.contains(node),
    ensures
        ascending(holders(shards).to_set()).contains(node),
{
    lemma_holder_listed(shards, i, node);
    vstd::seq_lib::seq_to_set_is_finite(holders(shards));
    crate::base::members::lemma_ascending_exists(holders(shards).to_set());
    let providers = ascending(holders(shards).to_set());
    assert(providers.to_set().contains(node) == providers.contains(node));
}

proof fn lemma_holder_listed(shards: Seq<V4ShardOwnershipView>, i: int, node: NodeId)
    requires
        0 <= i < shards.len(),
        shards[i].owners.contains(node) || shards[i].replicas.contains(node),
    ensures
        holders(shards).contains(node),
    decreases shards.len(),
{
    let rest = holders(shards.drop_last());
    let owners = shards.last().owners;
    let replicas = shards.last().replicas;
    let all = holders(shards);
    if i < shards.len() - 1 {
        lemma_holder_listed(shards.drop_last(), i, node);
        let k = choose|k: int| 0 <= k < rest.len() && rest[k] == node;
        assert(all[k] == node);
    } else if owners.contains(node) {
        let k = choose|k: int| 0 <= k < owners.len() && owners[k] == node;
        assert(all[rest.len() + k] == node);
    } else {
        let k = choose|k: int| 0 <= k < replicas.len() && replicas[k] == node;
        assert(all[rest.len() + owners.len() + k] == node);
    }
}

/// Where a checkpoint stands on its way to its providers.
#[derive(Clone, Copy, Debug, PartialEq, Eq, Structural)]
pub enum ProviderStep {
    /// The manifest is on its way to the provider at this place.
    Sending { place: usize },
    /// The providers have to confirm it.
    Answers,
    Over,
}

/// A checkpoint on its way to its providers.
#[derive(Debug)]
pub struct ProviderRun {
    pub node: NodeId,
    pub manifest_hash: ArtifactId,
    /// The providers other than this node.
    pub providers: Vec<NodeId>,
    /// Who has not confirmed the checkpoint yet.
    pub pending: NodeSet,
    pub step: ProviderStep,
}

/// The contents of a [`ProviderRun`].
#[verifier::ext_equal]
pub struct ProviderRunView {
    pub node: NodeId,
    pub manifest_hash: ArtifactId,
    pub providers: Seq<NodeId>,
    pub pending: Set<NodeId>,
    pub step: ProviderStep,
}

impl View for ProviderRun {
    type V = ProviderRunView;

    open spec fn view(&self) -> ProviderRunView {
        ProviderRunView {
            node: self.node,
            manifest_hash: self.manifest_hash,
            providers: self.providers@,
            pending: self.pending@,
            step: self.step,
        }
    }
}

/// What comes while a checkpoint is handed to its providers.
#[derive(Clone, Copy, Debug, PartialEq, Eq, Structural)]
pub enum ProviderEvent {
    /// Whether the manifest reached the provider.
    Sent(bool),
    /// An answer came from a peer.
    Ack(NodeId, V4StateAck),
    OtherMessage,
    /// The time for answers is over, or none can come any more.
    NoMessage,
}

/// What is done next about a checkpoint.
#[derive(Clone, Copy, Debug, PartialEq, Eq, Structural)]
pub enum ProviderAction {
    /// Send the manifest to a provider.
    Send(NodeId),
    /// Wait for a message.
    Wait,
    /// Every provider has confirmed the checkpoint.
    Confirmed,
    /// A provider was not reached.
    Unavailable(NodeId),
    /// This many providers did not confirm.
    Unconfirmed(usize),
    /// The event was not awaited.
    Ignore,
}

/// The answer confirms the manifest.
pub open spec fn confirms_manifest(run: ProviderRunView, peer: NodeId, ack: V4StateAck) -> bool {
    peer != run.node && ack.accepted && ack.kind is Checkpoint && ack.state_hash
        == run.manifest_hash
}

/// Every provider has confirmed, or some are awaited.
pub open spec fn providers_awaited(run: ProviderRunView) -> (ProviderRunView, ProviderAction) {
    if run.pending == Set::<NodeId>::empty() {
        (ProviderRunView { step: ProviderStep::Over, ..run }, ProviderAction::Confirmed)
    } else {
        (ProviderRunView { step: ProviderStep::Answers, ..run }, ProviderAction::Wait)
    }
}

/// The manifest goes to the provider at `place`.
pub open spec fn provider_sent(run: ProviderRunView, place: int) -> (
    ProviderRunView,
    ProviderAction,
) {
    if place < run.providers.len() {
        (
            ProviderRunView { step: ProviderStep::Sending { place: place as usize }, ..run },
            ProviderAction::Send(run.providers[place]),
        )
    } else {
        providers_awaited(run)
    }
}

/// A checkpoint starts on its way.
pub open spec fn fresh_provider_run(node: NodeId, checkpoint: V4CheckpointRecordView) -> (
    ProviderRunView,
    ProviderAction,
) {
    provider_sent(
        ProviderRunView {
            node,
            manifest_hash: checkpoint.manifest_hash,
            providers: checkpoint.providers.filter(other_than(node)),
            pending: checkpoint.providers.filter(other_than(node)).to_set(),
            step: ProviderStep::Over,
        },
        0,
    )
}

/// The next step of a checkpoint on its way to its providers.
pub open spec fn provider_stepped(run: ProviderRunView, event: ProviderEvent) -> (
    ProviderRunView,
    ProviderAction,
) {
    match (run.step, event) {
        (ProviderStep::Sending { place }, ProviderEvent::Sent(reached)) => if place
            >= run.providers.len() {
            (run, ProviderAction::Ignore)
        } else if reached {
            provider_sent(run, place + 1)
        } else {
            (
                ProviderRunView { step: ProviderStep::Over, ..run },
                ProviderAction::Unavailable(run.providers[place as int]),
            )
        },
        (ProviderStep::Answers, ProviderEvent::Ack(peer, ack)) => providers_awaited(
            if confirms_manifest(run, peer, ack) {
                ProviderRunView { pending: run.pending.remove(peer), ..run }
            } else {
                run
            },
        ),
        (ProviderStep::Answers, ProviderEvent::OtherMessage) => (run, ProviderAction::Wait),
        (ProviderStep::Answers, ProviderEvent::NoMessage) => (
            ProviderRunView { step: ProviderStep::Over, ..run },
            ProviderAction::Unconfirmed(run.pending.len() as usize),
        ),
        _ => (run, ProviderAction::Ignore),
    }
}

fn await_providers(run: &mut ProviderRun) -> (r: ProviderAction)
    ensures
        (final(run)@, r) == providers_awaited(old(run)@),
{
    if run.pending.is_empty() {
        run.step = ProviderStep::Over;
        ProviderAction::Confirmed
    } else {
        run.step = ProviderStep::Answers;
        ProviderAction::Wait
    }
}

fn send_to_provider(run: &mut ProviderRun, place: usize) -> (r: ProviderAction)
    ensures
        (final(run)@, r) == provider_sent(old(run)@, place as int),
{
    if place < run.providers.len() {
        run.step = ProviderStep::Sending { place };
        ProviderAction::Send(run.providers[place])
    } else {
        await_providers(run)
    }
}

/// Start to hand a checkpoint to its providers.
pub fn begin_provider_run(node: NodeId, checkpoint: &V4CheckpointRecord) -> (r: (
    ProviderRun,
    ProviderAction,
))
    ensures
        (r.0@, r.1) == fresh_provider_run(node, checkpoint@),
{
    let providers = filter_other_than(&checkpoint.providers, node);
    let pending = NodeSet::from_ids(&providers);
    let mut run = ProviderRun {
        node,
        manifest_hash: checkpoint.manifest_hash,
        providers,
        pending,
        step: ProviderStep::Over,
    };
    let action = send_to_provider(&mut run, 0);
    (run, action)
}

/// Take a checkpoint one step on its way to its providers.
pub fn confirm_integrated_checkpoint(run: &mut ProviderRun, event: ProviderEvent) -> (r:
    ProviderAction)
    ensures
        (final(run)@, r) == provider_stepped(old(run)@, event),
{
    match (run.step, event) {
        (ProviderStep::Sending { place }, ProviderEvent::Sent(reached)) => {
            if place >= run.providers.len() {
                ProviderAction::Ignore
            } else if reached {
                send_to_provider(run, place + 1)
            } else {
                run.step = ProviderStep::Over;
                ProviderAction::Unavailable(run.providers[place])
            }
        },
        (ProviderStep::Answers, ProviderEvent::Ack(peer, ack)) => {
            let of_checkpoint = matches!(ack.kind, V4StateAckKind::Checkpoint);
            if peer != run.node && ack.accepted && of_checkpoint && ack.state_hash
                == run.manifest_hash {
                run.pending.remove(peer);
            }
            await_providers(run)
        },
        (ProviderStep::Answers, ProviderEvent::OtherMessage) => ProviderAction::Wait,
        (ProviderStep::Answers, ProviderEvent::NoMessage) => {
            run.step = ProviderStep::Over;
            ProviderAction::Unconfirmed(run.pending.len())
        },
        _ => ProviderAction::Ignore,
    }
}

/// A checkpoint after a run of events.
pub open spec fn provider_run(run: ProviderRunView, events: Seq<ProviderEvent>) -> ProviderRunView
    decreases events.len(),
{
    if events.len() == 0 {
        run
    } else {
        provider_stepped(provider_run(run, events.drop_last()), events.last()).0
    }
}

/// The event is the confirmation of `peer`.
pub open spec fn confirmed_by(run: ProviderRunView, peer: NodeId, event: ProviderEvent) -> bool {
    match event {
        ProviderEvent::Ack(from, ack) => from == peer && confirms_manifest(run, from, ack),
        _ => false,
    }
}

/// A peer confirmed the checkpoint somewhere in a run.
pub open spec fn has_confirmed(
    run: ProviderRunView,
    peer: NodeId,
    events: Seq<ProviderEvent>,
) -> bool {
    exists|i: int| 0 <= i < events.len() && confirmed_by(run, peer, #[trigger] events[i])
}

proof fn lemma_pending_or_confirmed(
    start: ProviderRunView,
    events: Seq<ProviderEvent>,
    peer: NodeId,
)
    requires
        start.pending.contains(peer),
    ensures
        ({
            let run = provider_run(start, events);
            &&& run.node == start.node
            &&& run.manifest_hash == start.manifest_hash
            &&& run.pending.contains(peer) || has_confirmed(start, peer, events)
        }),
    decreases events.len(),
{
    if events.len() > 0 {
        let before = events.drop_last();
        lemma_pending_or_confirmed(start, before, peer);
        assert(events[events.len() - 1] == events.last());
        if has_confirmed(start, peer, before) {
            let i = choose|i: int| 0 <= i < before.len() && confirmed_by(start, peer, #[trigger]
                before[i]);
            assert(events[i] == before[i]);
        } else if !provider_run(start, events).pending.contains(peer) {
            assert(confirmed_by(start, peer, events.last()));
        }
    }
}

/// A checkpoint counts only when every provider but this node has confirmed
/// this very manifest.
pub proof fn law_checkpoint_is_with_every_provider(
    node: NodeId,
    checkpoint: V4CheckpointRecordView,
    events: Seq<ProviderEvent>,
    event: ProviderEvent,
    peer: NodeId,
)
    requires
        checkpoint.providers.contains(peer),
        peer != node,
        provider_stepped(
            provider_run(fresh_provider_run(node, checkpoint).0, events),
            event,
        ).1 is Confirmed,
    ensures
        has_confirmed(fresh_provider_run(node, checkpoint).0, peer, events.push(event)),
{
    let start = fresh_provider_run(node, checkpoint).0;
    crate::base::search::lemma_filter_contains(checkpoint.providers, other_than(node));
    assert(checkpoint.providers.filter(other_than(node)).contains(peer));
    assert(start.pending.contains(peer));
    let all = events.push(event);
    assert(all.drop_last() =~= events);
    lemma_pending_or_confirmed(start, all, peer);
    assert(provider_run(start, all).pending =~= Set::<NodeId>::empty());
}

/// The manifests among the first `n` that come before manifest `i`: those of a
/// later generation, and earlier listed ones of the same.
pub open spec fn ahead(generations: Seq<u64>, i: int, n: int) -> nat
    decreases n,
{
    if n <= 0 {
        0
    } else {
        ahead(generations, i, n - 1) + if generations[n - 1] > generations[i] || (generations[n - 1]
            == generations[i] && n - 1 < i) {
            1nat
        } else {
            0nat
        }
    }
}

/// The place of a manifest, newest first.
pub open spec fn place(generations: Seq<u64>, i: int) -> nat {
    ahead(generations, i, generations.len() as int)
}

/// The manifests beyond the newest `retain`, among the first `n`.
pub open spec fn expired(generations: Seq<u64>, retain: int, n: int) -> Seq<usize>
    decreases n,
{
    if n <= 0 {
        Seq::empty()
    } else if place(generations, n - 1) >= retain {
        expired(generations, retain, n - 1).push((n - 1) as usize)
    } else {
        expired(generations, retain, n - 1)
    }
}

/// The positions of the manifests that are beyond the newest `retain`.
pub fn prune_checkpoint_history(generations: &Vec<u64>, retain: usize) -> (r: Vec<usize>)
    ensures
        r@ == expired(generations@, retain as int, generations@.len() as int),
{
    let mut out: Vec<usize> = Vec::new();
    let mut i: usize = 0;
    while i < generations.len()
        invariant
            0 <= i <= generations@.len(),
            out@ == expired(generations@, retain as int, i as int),
        decreases generations@.len() - i,
    {
        let mut before: usize = 0;
        let mut k: usize = 0;
        while k < generations.len()
            invariant
                0 <= i < generations@.len(),
                0 <= k <= generations@.len(),
                before == ahead(generations@, i as int, k as int),
                before <= k,
            decreases generations@.len() - k,
        {
            if generations[k] > generations[i] || (generations[k] == generations[i] && k < i) {
                before += 1;
            }
            k += 1;
        }
        if before >= retain {
            out.push(i);
        }
        i += 1;
    }
    out
}

/// Manifest `j` comes before manifest `i`.
pub open spec fn precedes(generations: Seq<u64>, j: int, i: int) -> bool {
    generations[j] > generations[i] || (generations[j] == generations[i] && j < i)
}

proof fn lemma_places_ordered(generations: Seq<u64>, i: int, j: int, n: int)
    requires
        0 <= i < generations.len(),
        0 <= j < generations.len(),
        0 <= n <= generations.len(),
        precedes(generations, j, i),
    ensures
        ahead(generations, j, n) <= ahead(generations, i, n),
        n > j ==> ahead(generations, j, n) < ahead(generations, i, n),
    decreases n,
{
    if n > 0 {
        lemma_places_ordered(generations, i, j, n - 1);
    }
}

proof fn lemma_expired_contains(generations: Seq<u64>, retain: int, n: int, i: int)
    requires
        0 <= n <= generations.len(),
        generations.len() <= usize::MAX,
        0 <= i < generations.len(),
    ensures
        expired(generations, retain, n).contains(i as usize) <==> i < n && place(generations, i)
            >= retain,
    decreases n,
{
    if n > 0 {
        lemma_expired_contains(generations, retain, n - 1, i);
        let rest = expired(generations, retain, n - 1);
        let all = expired(generations, retain, n);
        if all.contains(i as usize) {
            let k = choose|k: int| 0 <= k < all.len() && all[k] == i as usize;
            if k < rest.len() {
                assert(rest[k] == i as usize);
            }
        }
        if rest.contains(i as usize) {
            let k = choose|k: int| 0 <= k < rest.len() && rest[k] == i as usize;
            assert(all[k] == i as usize);
        }
        if i == n - 1 && place(generations, i) >= retain {
            assert(all[rest.len() as int] == i as usize);
        }
    }
}

/// Pruning keeps the newest manifests: one that is removed is never newer than
/// one that stays.
pub proof fn law_pruning_keeps_newest(generations: Seq<u64>, retain: int, i: int, j: int)
    requires
        generations.len() <= usize::MAX,
        0 <= i < generations.len(),
        0 <= j < generations.len(),
        expired(generations, retain, generations.len() as int).contains(i as usize),
        !expired(generations, retain, generations.len() as int).contains(j as usize),
    ensures
        generations[j] >= generations[i],
{
    let n = generations.len() as int;
    lemma_expired_contains(generations, retain, n, i);
    lemma_expired_contains(generations, retain, n, j);
    if generations[j] < generations[i] {
        lemma_places_ordered(generations, j, i, n);
    }
}

spec fn kept(generations: Seq<u64>, retain: int, n: int) -> Set<int> {
    vstd::set_lib::set_int_range(0, n).filter(|i: int| place(generations, i) < retain)
}

proof fn lemma_kept_and_expired(generations: Seq<u64>, retain: int, n: int)
    requires
        0 <= n <= generations.len(),
    ensures
        kept(generations, retain, n).finite(),
        kept(generations, retain, n).len() + expired(generations, retain, n).len() == n,
    decreases n,
{
    vstd::set_lib::lemma_int_range(0, n);
    if n > 0 {
        lemma_kept_and_expired(generations, retain, n - 1);
        let before = kept(generations, retain, n - 1);
        if place(generations, n - 1) < retain {
            assert(kept(generations, retain, n) =~= before.insert(n - 1));
        } else {
            assert(kept(generations, retain, n) =~= before);
        }
    } else {
        assert(kept(generations, retain, n) =~= Set::<int>::empty());
    }
}

/// The history is bounded: at most `retain` manifests stay.
pub proof fn law_history_is_bounded(generations: Seq<u64>, retain: int)
    requires
        retain >= 0,
    ensures
        generations.len() - expired(generations, retain, generations.len() as int).len()
            <= retain,
{
    let n = generations.len() as int;
    let stay = kept(generations, retain, n);
    let f = |i: int| place(generations, i) as int;
    lemma_kept_and_expired(generations, retain, n);
    assert(vstd::relations::injective_on(f, stay)) by {
        assert forall|a: int, b: int|
            stay.contains(a) && stay.contains(b) && #[trigger] f(a) == #[trigger] f(b) implies a
            == b by {
            if a != b {
                if precedes(generations, a, b) {
                    lemma_places_ordered(generations, b, a, n);
                } else {
                    lemma_places_ordered(generations, a, b, n);
                }
            }
        }
    }
    vstd::set_lib::lemma_map_size(stay, stay.map(f), f);
    vstd::set_lib::lemma_int_range(0, retain);
    assert(stay.map(f).subset_of(vstd::set_lib::set_int_range(0, retain)));
    vstd::set_lib::lemma_len_subset(stay.map(f), vstd::set_lib::set_int_range(0, retain));
}

/// A checkpoint of a window is of its graph and plan, one generation on from the last,
/// lists the tensor hashes and then the optimizer hashes, and names everyone who holds a
/// shard, each once, in byte order.
pub proof fn law_checkpoint_is_of_the_graph(
    graph: V4ExecutionGraphView,
    plan: V4TrainingPlanView,
    tensors: Seq<ArtifactId>,
    optimizers: Seq<ArtifactId>,
    generation: u64,
    parent: Option<ArtifactId>,
    i: int,
)
    requires
        generation < u64::MAX,
    ensures
        ({
            let c = checkpoint_of(graph, plan, tensors, optimizers, generation, parent);
            &&& c.job_id == graph.job_id && c.branch == graph.branch
            &&& c.plan_generation == plan.plan_generation
            &&& c.model_generation == graph.shards[0].model_generation
            &&& c.optimizer_generation == graph.optimizer_generation
            &&& c.membership_epoch == graph.membership_epoch
            &&& c.checkpoint_generation == generation + 1
            &&& c.parent == parent && c.complete
            &&& c.shard_hashes.len() == tensors.len() + optimizers.len()
            &&& 0 <= i < tensors.len() ==> c.shard_hashes[i] == tensors[i]
            &&& 0 <= i < optimizers.len() ==> c.shard_hashes[tensors.len() + i] == optimizers[i]
        }),
{
}

/// Hashes are listed in the order of the shards, and only when there is one of each.
pub proof fn law_hashes_follow_the_shards(
    shards: Seq<V4ShardOwnershipView>,
    hashes: Map<u16, ArtifactId>,
    i: int,
)
    requires
        0 <= i < shards.len(),
    ensures
        !hashes.contains_key(shards[i].shard_id) ==> hashes_for(shards, hashes) is None,
        hashes_for(shards, hashes) matches Some(list) ==> list.len() == shards.len() && list[i]
            == hashes[shards[i].shard_id],
        (forall|k: int|
            0 <= k < shards.len() ==> hashes.contains_key((#[trigger] shards[k]).shard_id))
            ==> hashes_for(shards, hashes) is Some,
{
}

/// A provider has confirmed when another node accepts this very manifest; the sender
/// waits while any is pending, and fails with the number of those that stay silent.
pub proof fn law_providers_confirm_the_manifest(
    run: ProviderRunView,
    peer: NodeId,
    ack: V4StateAck,
)
    requires
        run.step is Answers,
    ensures
        confirms_manifest(run, peer, ack) <==> peer != run.node && ack.accepted && ack.kind
            is Checkpoint && ack.state_hash == run.manifest_hash,
        ({
            let (after, action) = provider_stepped(run, ProviderEvent::Ack(peer, ack));
            &&& confirms_manifest(run, peer, ack) ==> after.pending == run.pending.remove(peer)
            &&& !confirms_manifest(run, peer, ack) ==> after.pending == run.pending
            &&& action is Confirmed <==> after.pending == Set::<NodeId>::empty()
            &&& action is Confirmed || action is Wait
        }),
        ({
            let (after, action) = provider_stepped(run, ProviderEvent::NoMessage);
            action is Unconfirmed && (run.pending.len() <= usize::MAX
                ==> action->Unconfirmed_0 == run.pending.len())
        }),
{
}

/// A manifest goes to each provider but this node, in order; one that cannot be reached
/// ends it, and names that provider.
pub proof fn law_manifest_goes_to_every_provider(
    node: NodeId,
    checkpoint: V4CheckpointRecordView,
    peer: NodeId,
    run: ProviderRunView,
    place: usize,
)
    requires
        run.step == (ProviderStep::Sending { place }),
        place < run.providers.len() <= usize::MAX,
    ensures
        ({
            let (fresh, action) = fresh_provider_run(node, checkpoint);
            &&& fresh.providers.contains(peer) <==> checkpoint.providers.contains(peer) && peer
                != node
            &&& fresh.pending.contains(peer) <==> checkpoint.providers.contains(peer) && peer
                != node
            &&& fresh.manifest_hash == checkpoint.manifest_hash && fresh.node == node
            &&& fresh.providers.len() > 0 ==> action == ProviderAction::Send(fresh.providers[0])
        }),
        provider_stepped(run, ProviderEvent::Sent(false)).1 == ProviderAction::Unavailable(
            run.providers[place as int],
        ),
        place + 1 < run.providers.len() ==> provider_stepped(run, ProviderEvent::Sent(true)).1
            == ProviderAction::Send(run.providers[place + 1]),
{
    let others = checkpoint.providers.filter(other_than(node));
    crate::base::search::lemma_filter_contains(checkpoint.providers, other_than(node));
    assert(others.contains(peer) <==> others.to_set().contains(peer));
}

} // verus!
