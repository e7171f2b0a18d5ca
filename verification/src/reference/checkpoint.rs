//! Checkpoints of the reference runtime: manifests, commits and the waits for
//! acknowledgements.

use crate::base::arith::{max_int, max_u64, sat_u64};
use crate::base::ids::{unsigned_hash, ArtifactId, NodeId};
use crate::base::members::{filter_other_than, filter_outside, NodeSet};
use crate::base::ordered::ordered_values;
use crate::base::record::Duplicate;
use crate::base::search::{lemma_views_push, opt_view, other_than, outside, views};
use crate::reference::aggregator::{provider_list, providers};
use crate::reference::context::{
    final_checkpoint_generation, final_generation, Context, ContextView,
};
use crate::reference::sgd::{quorum, quorum_of};
use crate::reference::types::{
    DatasetProgress, TrainingAck, TrainingAckKind, TrainingAggregate, TrainingAggregateView,
    TrainingCheckpointCommit, TrainingCheckpointCommitView, TrainingCheckpointManifest,
    TrainingCheckpointManifestView, TrainingCheckpointShard, TrainingCheckpointShardView,
    TrainingElection, TrainingShardSummaryView, TrainingState, TrainingStateView,
};
use crate::reference::worker::{
    all_shards_complete, handle_election, shards_complete, vote_reply, voted, VoteReply,
    VoteReplyView,
};
use vstd::prelude::*;

verus! {

/// A shard as a checkpoint records it from its summary.
pub open spec fn summary_shard(s: TrainingShardSummaryView) -> TrainingCheckpointShardView {
    TrainingCheckpointShardView {
        shard_id: s.shard_id,
        artifact: s.state_hash,
        generation: s.generation,
        providers: s.providers,
    }
}

/// A shard as a checkpoint records it from an aggregate.
pub open spec fn aggregate_shard(a: TrainingAggregateView) -> TrainingCheckpointShardView {
    TrainingCheckpointShardView {
        shard_id: a.shard_id,
        artifact: a.state_artifact,
        generation: a.generation,
        providers: provider_list(a.aggregator, a.replicas),
    }
}

/// The largest generation of the shards.
pub open spec fn newest_generation(shards: Seq<TrainingCheckpointShardView>) -> int
    decreases shards.len(),
{
    if shards.len() == 0 {
        0
    } else {
        max_int(newest_generation(shards.drop_last()), shards.last().generation as int)
    }
}

/// The manifest of the next checkpoint over `shards`, before its hash is set.
pub open spec fn manifest_of(
    c: ContextView,
    shards: Seq<TrainingCheckpointShardView>,
    progress: Seq<DatasetProgress>,
) -> TrainingCheckpointManifestView {
    TrainingCheckpointManifestView {
        job_id: c.start.job_id,
        model_generation: newest_generation(shards) as u64,
        optimizer_generation: newest_generation(shards) as u64,
        membership_epoch: c.start.membership_epoch,
        term: c.term,
        checkpoint_generation: sat_u64(c.checkpoint_generation + 1) as u64,
        parent: c.checkpoint,
        shards,
        dataset_progress: progress,
        hash: unsigned_hash(),
    }
}

/// The shards of the next checkpoint of an autonomous job.
pub open spec fn context_shards(c: ContextView) -> Seq<TrainingCheckpointShardView> {
    ordered_values(c.shard_summaries).map_values(|s: TrainingShardSummaryView| summary_shard(s))
}

/// The data consumed by the shards of an autonomous job.
pub open spec fn shard_progress(shards: Seq<TrainingCheckpointShardView>) -> Seq<DatasetProgress> {
    shards.map_values(
        |s: TrainingCheckpointShardView|
            DatasetProgress { shard_id: s.shard_id, window: s.generation },
    )
}

/// The data consumed by the groups of a paced window.
pub open spec fn aggregate_progress(aggregates: Seq<TrainingAggregateView>) -> Seq<
    DatasetProgress,
> {
    aggregates.map_values(
        |a: TrainingAggregateView| DatasetProgress { shard_id: a.shard_id, window: a.window },
    )
}

fn newest(shards: &Vec<TrainingCheckpointShard>) -> (r: u64)
    ensures
        r == newest_generation(views(shards@)),
{
    let ghost s = views(shards@);
    let mut best: u64 = 0;
    let mut i: usize = 0;
    while i < shards.len()
        invariant
            0 <= i <= shards@.len(),
            s == views(shards@),
            best == newest_generation(s.take(i as int)),
        decreases shards@.len() - i,
    {
        assert(s.take(i as int + 1).drop_last() =~= s.take(i as int));
        assert(s.take(i as int + 1).last() == shards@[i as int]@);
        best = max_u64(best, shards[i].generation);
        i += 1;
    }
    assert(s.take(i as int) =~= s);
    best
}

/// The manifest of the next checkpoint of an autonomous job, without its hash.
/// There is none where no shard is known.
pub fn make_checkpoint_from_context(context: &Context) -> (r: Option<TrainingCheckpointManifest>)
    ensures
        match r {
            Some(manifest) => context_shards(context@).len() > 0 && manifest@ == manifest_of(
                context@,
                context_shards(context@),
                shard_progress(context_shards(context@)),
            ),
            None => context_shards(context@).len() == 0,
        },
{
    let summaries = context.shard_summaries.values();
    let ghost all = context_shards(context@);
    let mut shards: Vec<TrainingCheckpointShard> = Vec::new();
    let mut progress: Vec<DatasetProgress> = Vec::new();
    let mut i: usize = 0;
    while i < summaries.len()
        invariant
            0 <= i <= summaries@.len(),
            views(summaries@) == ordered_values(context@.shard_summaries),
            all == context_shards(context@),
            views(shards@) == all.take(i as int),
            progress@ == shard_progress(all).take(i as int),
        decreases summaries@.len() - i,
    {
        let summary = &summaries[i];
        let shard = TrainingCheckpointShard {
            shard_id: summary.shard_id,
            artifact: summary.state_hash,
            generation: summary.generation,
            providers: summary.providers.clone(),
        };
        proof {
            lemma_views_push(shards@, shard);
            assert(views(summaries@)[i as int] == summary@);
            assert(all[i as int] == shard@);
            assert(all.take(i as int + 1) =~= all.take(i as int).push(shard@));
        }
        progress.push(DatasetProgress { shard_id: shard.shard_id, window: shard.generation });
        assert(progress@ =~= shard_progress(all).take(i as int + 1));
        shards.push(shard);
        i += 1;
    }
    assert(all.take(i as int) =~= all);
    assert(shard_progress(all).take(i as int) =~= shard_progress(all));
    if shards.len() == 0 {
        return None;
    }
    let generation = newest(&shards);
    Some(
        TrainingCheckpointManifest {
            job_id: context.start.job_id,
            model_generation: generation,
            optimizer_generation: generation,
            membership_epoch: context.start.membership_epoch,
            term: context.term,
            checkpoint_generation: context.checkpoint_generation.saturating_add(1),
            parent: context.checkpoint,
            shards,
            dataset_progress: progress,
            hash: ArtifactId::unsigned(),
        },
    )
}

/// The shards of the checkpoint of a paced window.
pub open spec fn aggregate_shards(aggregates: Seq<TrainingAggregateView>) -> Seq<
    TrainingCheckpointShardView,
> {
    aggregates.map_values(|a: TrainingAggregateView| aggregate_shard(a))
}

/// The manifest of the checkpoint of a paced window, without its hash.
pub fn make_checkpoint(context: &Context, aggregates: &Vec<TrainingAggregate>) -> (r:
    TrainingCheckpointManifest)
    ensures
        r@ == manifest_of(
            context@,
            aggregate_shards(views(aggregates@)),
            aggregate_progress(views(aggregates@)),
        ),
{
    let ghost given = views(aggregates@);
    let ghost all = aggregate_shards(given);
    let mut shards: Vec<TrainingCheckpointShard> = Vec::new();
    let mut progress: Vec<DatasetProgress> = Vec::new();
    let mut i: usize = 0;
    while i < aggregates.len()
        invariant
            0 <= i <= aggregates@.len(),
            given == views(aggregates@),
            all == aggregate_shards(given),
            views(shards@) == all.take(i as int),
            progress@ == aggregate_progress(given).take(i as int),
        decreases aggregates@.len() - i,
    {
        let aggregate = &aggregates[i];
        let shard = TrainingCheckpointShard {
            shard_id: aggregate.shard_id,
            artifact: aggregate.state_artifact,
            generation: aggregate.generation,
            providers: providers(aggregate),
        };
        proof {
            lemma_views_push(shards@, shard);
            assert(given[i as int] == aggregate@);
            assert(all[i as int] == shard@);
            assert(all.take(i as int + 1) =~= all.take(i as int).push(shard@));
        }
        progress.push(DatasetProgress { shard_id: aggregate.shard_id, window: aggregate.window });
        assert(progress@ =~= aggregate_progress(given).take(i as int + 1));
        shards.push(shard);
        i += 1;
    }
    assert(all.take(i as int) =~= all);
    assert(aggregate_progress(given).take(i as int) =~= aggregate_progress(given));
    let generation = newest(&shards);
    TrainingCheckpointManifest {
        job_id: context.start.job_id,
        model_generation: generation,
        optimizer_generation: generation,
        membership_epoch: context.start.membership_epoch,
        term: context.term,
        checkpoint_generation: context.checkpoint_generation.saturating_add(1),
        parent: context.checkpoint,
        shards,
        dataset_progress: progress,
        hash: ArtifactId::unsigned(),
    }
}

/// A checkpoint of either kind continues the chain: its parent is the previous
/// checkpoint and its generation the next one.
pub proof fn law_checkpoint_continues_chain(
    c: ContextView,
    shards: Seq<TrainingCheckpointShardView>,
    progress: Seq<DatasetProgress>,
)
    requires
        c.checkpoint_generation < u64::MAX,
    ensures
        manifest_of(c, shards, progress).parent == c.checkpoint,
        manifest_of(c, shards, progress).checkpoint_generation == c.checkpoint_generation + 1,
        forall|i: int|
            0 <= i < shards.len() ==> (#[trigger] shards[i]).generation <= manifest_of(
                c,
                shards,
                progress,
            ).model_generation,
{
    lemma_newest_bounds(shards);
}

proof fn lemma_newest_bounds(shards: Seq<TrainingCheckpointShardView>)
    ensures
        0 <= newest_generation(shards) <= u64::MAX,
        forall|i: int|
            0 <= i < shards.len() ==> (#[trigger] shards[i]).generation <= newest_generation(
                shards,
            ),
    decreases shards.len(),
{
    if shards.len() > 0 {
        lemma_newest_bounds(shards.drop_last());
        assert forall|i: int| 0 <= i < shards.len() implies (#[trigger] shards[i]).generation
            <= newest_generation(shards) by {
            if i < shards.len() - 1 {
                assert(shards.drop_last()[i] == shards[i]);
            }
        }
    }
}

/// The commit of a manifest by the coordinator.
pub open spec fn commit_of(c: ContextView, manifest: TrainingCheckpointManifestView) ->
    TrainingCheckpointCommitView {
    TrainingCheckpointCommitView {
        job_id: c.start.job_id,
        coordinator: c.coordinator,
        term: c.term,
        membership_epoch: c.start.membership_epoch,
        branch: c.branch,
        manifest,
        quorum: c.start.participants,
    }
}

/// The commit of a manifest by the coordinator.
pub fn commit_manifest(context: &Context, manifest: &TrainingCheckpointManifest) -> (r:
    TrainingCheckpointCommit)
    ensures
        r@ == commit_of(context@, manifest@),
{
    TrainingCheckpointCommit {
        job_id: context.start.job_id,
        coordinator: context.coordinator,
        term: context.term,
        membership_epoch: context.start.membership_epoch,
        branch: context.branch,
        manifest: manifest.duplicate(),
        quorum: context.start.participants.clone(),
    }
}

/// `m` with the providers of every shard at its artifact.
pub open spec fn with_providers(
    m: Map<ArtifactId, Seq<NodeId>>,
    shards: Seq<TrainingCheckpointShardView>,
) -> Map<ArtifactId, Seq<NodeId>>
    decreases shards.len(),
{
    if shards.len() == 0 {
        m
    } else {
        with_providers(m, shards.drop_last()).insert(
            shards.last().artifact,
            shards.last().providers,
        )
    }
}

/// The context after its own checkpoint has been written.
pub open spec fn recorded_checkpoint(
    c: ContextView,
    manifest: TrainingCheckpointManifestView,
) -> ContextView {
    ContextView {
        checkpoint_generation: manifest.checkpoint_generation,
        checkpoint: Some(manifest.hash),
        checkpoints: c.checkpoints.push(manifest.hash),
        checkpoint_providers: with_providers(c.checkpoint_providers, manifest.shards),
        ..c
    }
}

/// The manifest covers the whole model at the last window.
pub open spec fn manifest_is_final(
    c: ContextView,
    manifest: TrainingCheckpointManifestView,
) -> bool {
    manifest.checkpoint_generation >= final_generation(c.start) && shards_complete(
        manifest.shards,
        c.start.max_windows,
    )
}

/// Record a checkpoint that has been written. The result tells whether it is
/// the final one, which has to be acknowledged before the job ends.
pub fn record_checkpoint(context: &mut Context, manifest: &TrainingCheckpointManifest) -> (r: bool)
    requires
        old(context).start.checkpoint_every > 0,
    ensures
        final(context)@ == recorded_checkpoint(old(context)@, manifest@),
        r == manifest_is_final(old(context)@, manifest@),
{
    let ghost c = context@;
    let ghost s = manifest@.shards;
    context.checkpoint_generation = manifest.checkpoint_generation;
    context.checkpoint = Some(manifest.hash);
    context.checkpoints.push(manifest.hash);
    let mut i: usize = 0;
    while i < manifest.shards.len()
        invariant
            0 <= i <= manifest.shards@.len(),
            s == views(manifest.shards@),
            context.start.checkpoint_every > 0,
            context@ == (ContextView {
                checkpoint_generation: manifest.checkpoint_generation,
                checkpoint: Some(manifest.hash),
                checkpoints: c.checkpoints.push(manifest.hash),
                checkpoint_providers: with_providers(c.checkpoint_providers, s.take(i as int)),
                ..c
            }),
        decreases manifest.shards@.len() - i,
    {
        proof {
            assert(s.take(i as int + 1).drop_last() =~= s.take(i as int));
            assert(s.take(i as int + 1).last() == manifest.shards@[i as int]@);
        }
        context.checkpoint_providers.insert(
            manifest.shards[i].artifact,
            manifest.shards[i].providers.clone(),
        );
        i += 1;
    }
    assert(s.take(i as int) =~= s);
    manifest.checkpoint_generation >= final_checkpoint_generation(&context.start)
        && all_shards_complete(&manifest.shards, context.start.max_windows)
}

/// The participants that a broadcast goes to.
pub open spec fn broadcast_list(c: ContextView, node: NodeId) -> Seq<NodeId> {
    c.start.participants.filter(outside(c.failed)).filter(other_than(node))
}

/// The participants that a broadcast goes to: every live one but this node.
pub fn broadcast_targets(context: &Context, node: NodeId) -> (r: Vec<NodeId>)
    ensures
        r@ == broadcast_list(context@, node),
{
    let live = filter_outside(&context.start.participants, &context.failed);
    filter_other_than(&live, node)
}

/// A wait for acknowledgements.
#[derive(Debug)]
pub struct AckWait {
    /// The peers that count: the live participants and, for a checkpoint, this
    /// node, which holds a copy of its own.
    pub expected: NodeSet,
    /// Who has acknowledged.
    pub acks: NodeSet,
}

/// The live participants.
pub open spec fn live_participants(c: ContextView) -> Set<NodeId> {
    c.start.participants.filter(outside(c.failed)).to_set()
}

/// Begin to wait for the acknowledgement of a state; this node counts as one.
pub fn begin_state_wait(context: &Context, node: NodeId) -> (r: AckWait)
    ensures
        r.expected@ == live_participants(context@),
        r.acks@ == Set::<NodeId>::empty().insert(node),
{
    let live = filter_outside(&context.start.participants, &context.failed);
    let mut acks = NodeSet::new();
    acks.insert(node);
    AckWait { expected: NodeSet::from_ids(&live), acks }
}

/// Whether a state is acknowledged by as many peers as are live.
pub fn state_wait_done(wait: &AckWait) -> (r: bool)
    ensures
        r == (wait.acks@.len() >= wait.expected@.len()),
{
    wait.acks.len() >= wait.expected.len()
}

/// An acknowledgement of exactly this state.
pub open spec fn acks_state(s: TrainingStateView, ack: TrainingAck) -> bool {
    &&& ack.job_id == s.job_id
    &&& ack.term == s.term
    &&& ack.kind matches TrainingAckKind::State { window, .. } && window == s.window
}

/// Take in an acknowledgement while a state is waited for.
fn note_state_ack(wait: &mut AckWait, state: &TrainingState, peer: NodeId, ack: &TrainingAck)
    ensures
        final(wait).expected@ == old(wait).expected@,
        final(wait).acks@ == (if acks_state(state@, *ack) {
            old(wait).acks@.insert(peer)
        } else {
            old(wait).acks@
        }),
{
    let matching = match ack.kind {
        TrainingAckKind::State { window, .. } => ack.job_id == state.job_id && ack.term
            == state.term && window == state.window,
        _ => false,
    };
    if matching {
        wait.acks.insert(peer);
    }
}

/// The wait for a checkpoint before the first acknowledgement. The copy of this
/// node is one of those that count.
pub open spec fn opened_wait(c: ContextView, node: NodeId) -> AckWaitView {
    AckWaitView {
        expected: live_participants(c).insert(node),
        acks: Set::<NodeId>::empty().insert(node),
    }
}

/// Begin to wait for the acknowledgement of a checkpoint.
pub fn begin_checkpoint_wait(context: &Context, node: NodeId) -> (r: AckWait)
    ensures
        r@ == opened_wait(context@, node),
{
    let live = filter_outside(&context.start.participants, &context.failed);
    let mut expected = NodeSet::from_ids(&live);
    expected.insert(node);
    let mut acks = NodeSet::new();
    acks.insert(node);
    AckWait { expected, acks }
}

/// Whether a majority of the peers that count holds the checkpoint.
pub fn checkpoint_wait_done(wait: &AckWait) -> (r: bool)
    ensures
        r == (wait.acks@.len() >= quorum_of(wait.expected@.len() as int)),
{
    wait.acks.len() >= quorum(wait.expected.len())
}

/// An acknowledgement of exactly this checkpoint by a live participant.
pub open spec fn acks_checkpoint(
    expected: Set<NodeId>,
    commit: TrainingCheckpointCommitView,
    peer: NodeId,
    ack: TrainingAck,
) -> bool {
    &&& peer == ack.peer
    &&& expected.contains(peer)
    &&& ack.job_id == commit.job_id
    &&& ack.term == commit.term
    &&& ack.kind == (TrainingAckKind::Checkpoint { artifact: commit.manifest.hash })
}

/// Take in an acknowledgement while a checkpoint is waited for.
fn note_checkpoint_ack(
    wait: &mut AckWait,
    commit: &TrainingCheckpointCommit,
    peer: NodeId,
    ack: &TrainingAck,
)
    ensures
        final(wait).expected@ == old(wait).expected@,
        final(wait).acks@ == (if acks_checkpoint(old(wait).expected@, commit@, peer, *ack) {
            old(wait).acks@.insert(peer)
        } else {
            old(wait).acks@
        }),
{
    let matching = match ack.kind {
        TrainingAckKind::Checkpoint { artifact } => peer == ack.peer && wait.expected.contains(
            peer,
        ) && ack.job_id == commit.job_id && ack.term == commit.term && artifact
            == commit.manifest.hash,
        _ => false,
    };
    if matching {
        wait.acks.insert(peer);
    }
}

/// A peer went away while a checkpoint is waited for: neither it nor its
/// acknowledgement counts any longer.
fn checkpoint_wait_disconnected(context: &mut Context, wait: &mut AckWait, peer: NodeId)
    ensures
        final(wait).expected@ == old(wait).expected@.remove(peer),
        final(wait).acks@ == old(wait).acks@.remove(peer),
        final(context)@ == (ContextView {
            failed: old(context)@.failed.insert(peer),
            ..old(context)@
        }),
{
    wait.expected.remove(peer);
    wait.acks.remove(peer);
    context.failed.insert(peer);
}

/// The contents of an [`AckWait`].
#[verifier::ext_equal]
pub struct AckWaitView {
    pub expected: Set<NodeId>,
    pub acks: Set<NodeId>,
}

impl View for AckWait {
    type V = AckWaitView;

    open spec fn view(&self) -> AckWaitView {
        AckWaitView { expected: self.expected@, acks: self.acks@ }
    }
}

/// What comes in while acknowledgements are waited for.
#[derive(Clone, Copy, Debug, PartialEq, Eq, Structural)]
pub enum WaitEvent {
    Ack { peer: NodeId, ack: TrainingAck },
    Election { peer: NodeId, election: TrainingElection },
    Disconnected(NodeId),
    Other,
    /// The time is over, or no more events come.
    TimedOut,
}

/// What a wait for acknowledgements comes to.
#[derive(Debug)]
pub enum WaitStep {
    Wait,
    /// There are enough acknowledgements.
    Confirmed,
    /// There will not be enough.
    Unconfirmed,
    /// A later term is being voted on: answer the candidate and give up.
    TermChanged(Option<VoteReply>),
}

/// The contents of a [`WaitStep`].
pub enum WaitStepView {
    Wait,
    Confirmed,
    Unconfirmed,
    TermChanged(Option<VoteReplyView>),
}

impl View for WaitStep {
    type V = WaitStepView;

    open spec fn view(&self) -> WaitStepView {
        match self {
            WaitStep::Wait => WaitStepView::Wait,
            WaitStep::Confirmed => WaitStepView::Confirmed,
            WaitStep::Unconfirmed => WaitStepView::Unconfirmed,
            WaitStep::TermChanged(reply) => WaitStepView::TermChanged(opt_view(*reply)),
        }
    }
}

/// The context, the wait and what it comes to after an event.
#[verifier::ext_equal]
pub struct WaitOutcome {
    pub context: ContextView,
    pub wait: AckWaitView,
    pub step: WaitStepView,
}

/// Whether the wait for a state goes on.
pub open spec fn state_waiting(wait: AckWaitView) -> WaitStepView {
    if wait.acks.len() >= wait.expected.len() {
        WaitStepView::Confirmed
    } else {
        WaitStepView::Wait
    }
}

/// What an event means while a state is to be acknowledged by every live
/// participant.
pub open spec fn state_awaited(
    c: ContextView,
    wait: AckWaitView,
    node: NodeId,
    s: TrainingStateView,
    event: WaitEvent,
) -> WaitOutcome {
    match event {
        WaitEvent::Ack { peer, ack } => {
            let after = AckWaitView {
                acks: if acks_state(s, ack) {
                    wait.acks.insert(peer)
                } else {
                    wait.acks
                },
                ..wait
            };
            WaitOutcome { context: c, wait: after, step: state_waiting(after) }
        },
        WaitEvent::Election { peer, election } => if election.term > c.term {
            WaitOutcome {
                context: voted(c, peer, election),
                wait,
                step: WaitStepView::TermChanged(vote_reply(c, node, peer, election)),
            }
        } else {
            WaitOutcome { context: c, wait, step: state_waiting(wait) }
        },
        WaitEvent::Disconnected(peer) => WaitOutcome {
            context: ContextView { failed: c.failed.insert(peer), ..c },
            wait,
            step: state_waiting(wait),
        },
        WaitEvent::Other => WaitOutcome { context: c, wait, step: state_waiting(wait) },
        WaitEvent::TimedOut => WaitOutcome { context: c, wait, step: WaitStepView::Unconfirmed },
    }
}

fn state_wait_step(wait: &AckWait) -> (r: WaitStep)
    ensures
        r@ == state_waiting(wait@),
{
    if state_wait_done(wait) {
        WaitStep::Confirmed
    } else {
        WaitStep::Wait
    }
}

/// Take in an event while a state that was sent out is to be acknowledged.
pub fn broadcast_state_and_wait(
    context: &mut Context,
    wait: &mut AckWait,
    node: NodeId,
    state: &TrainingState,
    event: WaitEvent,
) -> (r: WaitStep)
    ensures
        (WaitOutcome { context: final(context)@, wait: final(wait)@, step: r@ }) == state_awaited(
            old(context)@,
            old(wait)@,
            node,
            state@,
            event,
        ),
{
    match event {
        WaitEvent::Ack { peer, ack } => {
            note_state_ack(wait, state, peer, &ack);
            state_wait_step(wait)
        },
        WaitEvent::Election { peer, election } => {
            if election.term > context.term {
                WaitStep::TermChanged(handle_election(context, node, peer, &election))
            } else {
                state_wait_step(wait)
            }
        },
        WaitEvent::Disconnected(peer) => {
            context.failed.insert(peer);
            state_wait_step(wait)
        },
        WaitEvent::Other => state_wait_step(wait),
        WaitEvent::TimedOut => WaitStep::Unconfirmed,
    }
}

/// Whether the wait for a checkpoint goes on.
pub open spec fn checkpoint_waiting(wait: AckWaitView) -> WaitStepView {
    if wait.acks.len() >= quorum_of(wait.expected.len() as int) {
        WaitStepView::Confirmed
    } else {
        WaitStepView::Wait
    }
}

/// What an event means while a checkpoint is to be held by a majority of the peers
/// that are still live.
pub open spec fn checkpoint_awaited(
    c: ContextView,
    wait: AckWaitView,
    commit: TrainingCheckpointCommitView,
    event: WaitEvent,
) -> WaitOutcome {
    match event {
        WaitEvent::Ack { peer, ack } => {
            let after = AckWaitView {
                acks: if acks_checkpoint(wait.expected, commit, peer, ack) {
                    wait.acks.insert(peer)
                } else {
                    wait.acks
                },
                ..wait
            };
            WaitOutcome { context: c, wait: after, step: checkpoint_waiting(after) }
        },
        WaitEvent::Disconnected(peer) => {
            let after = AckWaitView {
                expected: wait.expected.remove(peer),
                acks: wait.acks.remove(peer),
            };
            WaitOutcome {
                context: ContextView { failed: c.failed.insert(peer), ..c },
                wait: after,
                step: checkpoint_waiting(after),
            }
        },
        WaitEvent::Election { .. } | WaitEvent::Other => WaitOutcome {
            context: c,
            wait,
            step: checkpoint_waiting(wait),
        },
        WaitEvent::TimedOut => WaitOutcome { context: c, wait, step: WaitStepView::Unconfirmed },
    }
}

fn checkpoint_wait_step(wait: &AckWait) -> (r: WaitStep)
    ensures
        r@ == checkpoint_waiting(wait@),
{
    if checkpoint_wait_done(wait) {
        WaitStep::Confirmed
    } else {
        WaitStep::Wait
    }
}

/// Take in an event while a checkpoint that was sent out is to be acknowledged.
pub fn broadcast_checkpoint_and_wait(
    context: &mut Context,
    wait: &mut AckWait,
    commit: &TrainingCheckpointCommit,
    event: WaitEvent,
) -> (r: WaitStep)
    ensures
        (WaitOutcome { context: final(context)@, wait: final(wait)@, step: r@ })
            == checkpoint_awaited(old(context)@, old(wait)@, commit@, event),
{
    match event {
        WaitEvent::Ack { peer, ack } => {
            note_checkpoint_ack(wait, commit, peer, &ack);
            checkpoint_wait_step(wait)
        },
        WaitEvent::Disconnected(peer) => {
            checkpoint_wait_disconnected(context, wait, peer);
            checkpoint_wait_step(wait)
        },
        WaitEvent::Election { .. } | WaitEvent::Other => checkpoint_wait_step(wait),
        WaitEvent::TimedOut => WaitStep::Unconfirmed,
    }
}

/// Only peers that count have acknowledged.
pub open spec fn acks_count(wait: AckWaitView) -> bool {
    wait.acks.subset_of(wait.expected)
}

/// A checkpoint counts as confirmed only when a majority of the live participants
/// holds it, this node among them. Where this node is no participant, its copy
/// counts as one more.
pub proof fn law_confirmed_checkpoint_has_a_majority(
    c: ContextView,
    node: NodeId,
    wait: AckWaitView,
    commit: TrainingCheckpointCommitView,
    event: WaitEvent,
)
    requires
        acks_count(wait),
    ensures
        acks_count(opened_wait(c, node)),
        live_participants(c).contains(node) ==> opened_wait(c, node).expected
            == live_participants(c),
        ({
            let o = checkpoint_awaited(c, wait, commit, event);
            &&& acks_count(o.wait)
            &&& o.step == WaitStepView::Confirmed ==> 2 * o.wait.acks.len() > o.wait.expected.len()
        }),
{
    if live_participants(c).contains(node) {
        assert(opened_wait(c, node).expected =~= live_participants(c));
    }
}

/// Acknowledgements confirm a checkpoint exactly when they are a majority of the
/// peers that count.
pub proof fn law_needed_acks_are_majority(wait: AckWaitView)
    ensures
        checkpoint_waiting(wait) == WaitStepView::Confirmed <==> 2 * wait.acks.len()
            > wait.expected.len(),
{
}

/// A checkpoint of the context names every shard that the context knows, with the
/// artifact, the generation and the providers that are known of it, and nothing else:
/// one entry for each.
pub proof fn law_manifest_names_every_shard(c: ContextView, progress: Seq<DatasetProgress>, k: u16)
    ensures
        ({
            let shards = manifest_of(c, context_shards(c), progress).shards;
            &&& c.shard_summaries.contains_key(k) ==> exists|i: int|
                0 <= i < shards.len() && (#[trigger] shards[i]).shard_id
                    == c.shard_summaries[k].shard_id && shards[i].artifact
                    == c.shard_summaries[k].state_hash && shards[i].generation
                    == c.shard_summaries[k].generation && shards[i].providers
                    == c.shard_summaries[k].providers
            &&& forall|i: int|
                0 <= i < shards.len() ==> exists|key: u16| #[trigger]
                    c.shard_summaries.contains_key(key) && (
                    #[trigger] shards[i]).shard_id == c.shard_summaries[key].shard_id
                        && shards[i].artifact == c.shard_summaries[key].state_hash
                        && shards[i].generation == c.shard_summaries[key].generation
                        && shards[i].providers == c.shard_summaries[key].providers
            &&& (forall|key: u16| #[trigger]
                c.shard_summaries.contains_key(key) ==> c.shard_summaries[key].shard_id == key)
                ==> forall|i: int, j: int|
                0 <= i < j < shards.len() ==> (#[trigger] shards[i]).shard_id != (
                #[trigger] shards[j]).shard_id
        }),
{
    let m = c.shard_summaries;
    crate::base::ordered::lemma_values_at_keys(m, 0);
    let keys = crate::base::ordered::ordered_keys(m);
    let shards = manifest_of(c, context_shards(c), progress).shards;
    assert forall|i: int| 0 <= i < shards.len() implies exists|key: u16| #[trigger]
        m.contains_key(key) && (#[trigger] shards[i]).shard_id == m[key].shard_id
            && shards[i].artifact == m[key].state_hash && shards[i].generation == m[key].generation
            && shards[i].providers == m[key].providers by {
        assert(m.contains_key(keys[i]) && ordered_values(m)[i] == m[keys[i]]);
    }
    if m.contains_key(k) {
        assert(keys.contains(k));
        let i = keys.index_of(k);
        assert(ordered_values(m)[i] == m[k]);
        assert(shards[i].shard_id == m[k].shard_id);
    }
    if forall|key: u16| #[trigger] m.contains_key(key) ==> m[key].shard_id == key {
        assert forall|i: int, j: int| 0 <= i < j < shards.len() implies (
        #[trigger] shards[i]).shard_id != (#[trigger] shards[j]).shard_id by {
            assert(m.contains_key(keys[i]) && m.contains_key(keys[j]));
            assert(ordered_values(m)[i] == m[keys[i]] && ordered_values(m)[j] == m[keys[j]]);
            assert(keys[i] < keys[j]);
        }
    }
}

/// The checkpoint of a paced window names the shard of every aggregate, with the
/// artifact and the generation that it reports and with the aggregator and the replicas
/// as providers; the data consumed is counted by the window.
pub proof fn law_window_checkpoint_names_every_aggregate(
    c: ContextView,
    aggregates: Seq<TrainingAggregateView>,
    i: int,
    provider: NodeId,
)
    requires
        0 <= i < aggregates.len(),
    ensures
        ({
            let m = manifest_of(c, aggregate_shards(aggregates), aggregate_progress(aggregates));
            let a = aggregates[i];
            &&& m.shards.len() == aggregates.len()
            &&& m.dataset_progress.len() == aggregates.len()
            &&& m.shards[i].shard_id == a.shard_id
            &&& m.shards[i].artifact == a.state_artifact
            &&& m.shards[i].generation == a.generation
            &&& m.shards[i].providers.contains(provider) <==> provider == a.aggregator
                || a.replicas.contains(provider)
            &&& m.dataset_progress[i].shard_id == a.shard_id
            &&& m.dataset_progress[i].window == a.window
        }),
{
    lemma_provider_listed(aggregates[i].aggregator, aggregates[i].replicas, provider);
}

/// Providers are the aggregator and the replicas.
pub proof fn lemma_provider_listed(aggregator: NodeId, replicas: Seq<NodeId>, provider: NodeId)
    ensures
        provider_list(aggregator, replicas).contains(provider) <==> provider == aggregator
            || replicas.contains(provider),
    decreases replicas.len(),
{
    if replicas.len() == 0 {
        assert(seq![aggregator][0] == aggregator);
    } else {
        let rest = replicas.drop_last();
        let before = provider_list(aggregator, rest);
        lemma_provider_listed(aggregator, rest, provider);
        lemma_provider_listed(aggregator, rest, replicas.last());
        let after = crate::base::members::push_new(before, replicas.last());
        assert(replicas =~= rest.push(replicas.last()));
        if after != before {
            assert(after =~= before.push(replicas.last()));
            if before.contains(provider) {
                let k = before.index_of(provider);
                assert(after[k] == provider);
            }
            assert(after[before.len() as int] == replicas.last());
        }
        if rest.contains(provider) {
            let k = rest.index_of(provider);
            assert(replicas[k] == provider);
        }
        if replicas.contains(provider) && provider != replicas.last() {
            let k = replicas.index_of(provider);
            assert(rest[k] == provider);
        }
        assert(replicas[replicas.len() - 1] == replicas.last());
    }
}

/// A manifest belongs to the job and the term of the context, and its model is as new as
/// the newest of its shards.
pub proof fn law_manifest_belongs_to_the_job(
    c: ContextView,
    shards: Seq<TrainingCheckpointShardView>,
    progress: Seq<DatasetProgress>,
)
    ensures
        ({
            let m = manifest_of(c, shards, progress);
            &&& m.job_id == c.start.job_id
            &&& m.membership_epoch == c.start.membership_epoch
            &&& m.term == c.term
            &&& m.shards == shards
            &&& m.dataset_progress == progress
            &&& m.optimizer_generation == m.model_generation
            &&& shards.len() > 0 ==> exists|i: int|
                0 <= i < shards.len() && (#[trigger] shards[i]).generation == m.model_generation
        }),
{
    lemma_newest_bounds(shards);
    if shards.len() > 0 {
        lemma_newest_is_one(shards);
    }
}

proof fn lemma_newest_is_one(shards: Seq<TrainingCheckpointShardView>)
    requires
        shards.len() > 0,
    ensures
        exists|i: int|
            0 <= i < shards.len() && (#[trigger] shards[i]).generation == newest_generation(shards),
    decreases shards.len(),
{
    let rest = shards.drop_last();
    assert(shards[shards.len() - 1] == shards.last());
    if rest.len() > 0 {
        lemma_newest_is_one(rest);
        let i = choose|i: int|
            0 <= i < rest.len() && (#[trigger] rest[i]).generation == newest_generation(rest);
        assert(shards[i] == rest[i]);
        assert(shards[i].generation == newest_generation(rest));
    } else {
        assert(newest_generation(rest) == 0);
    }
}

/// The data consumed by an autonomous job is counted by the generation of each shard.
pub proof fn law_progress_counts_generations(shards: Seq<TrainingCheckpointShardView>, i: int)
    requires
        0 <= i < shards.len(),
    ensures
        shard_progress(shards).len() == shards.len(),
        shard_progress(shards)[i].shard_id == shards[i].shard_id,
        shard_progress(shards)[i].window == shards[i].generation,
{
}

/// The commit of a manifest names the coordinator and its term, the branch and all
/// participants of the job.
pub proof fn law_commit_names_the_coordinator(
    c: ContextView,
    manifest: TrainingCheckpointManifestView,
)
    ensures
        ({
            let commit = commit_of(c, manifest);
            &&& commit.manifest == manifest
            &&& commit.coordinator == c.coordinator
            &&& commit.term == c.term
            &&& commit.branch == c.branch
            &&& commit.job_id == c.start.job_id
            &&& commit.membership_epoch == c.start.membership_epoch
            &&& commit.quorum == c.start.participants
        }),
{
}

/// A recorded checkpoint is the one that was written: its hash is the newest of the
/// list, its generation the one of the context, and every artifact has the providers
/// that the manifest names. What has been trained stays.
pub proof fn law_recorded_checkpoint_is_the_one_written(
    c: ContextView,
    manifest: TrainingCheckpointManifestView,
    m: Map<ArtifactId, Seq<NodeId>>,
    shards: Seq<TrainingCheckpointShardView>,
    shard: TrainingCheckpointShardView,
    other: ArtifactId,
)
    ensures
        ({
            let after = recorded_checkpoint(c, manifest);
            &&& after.checkpoint == Some(manifest.hash)
            &&& after.checkpoint_generation == manifest.checkpoint_generation
            &&& after.checkpoints.len() == c.checkpoints.len() + 1
            &&& after.checkpoints.last() == manifest.hash
            &&& after.checkpoints.drop_last() == c.checkpoints
            &&& after.shard_summaries == c.shard_summaries
            &&& after.window == c.window
            &&& after.term == c.term
            &&& after.value == c.value
            &&& after.checkpoint_providers == with_providers(
                c.checkpoint_providers,
                manifest.shards,
            )
        }),
        with_providers(m, Seq::empty()) == m,
        ({
            let before = with_providers(m, shards);
            let after = with_providers(m, shards.push(shard));
            &&& after.contains_key(shard.artifact)
            &&& after[shard.artifact] == shard.providers
            &&& other != shard.artifact ==> after.contains_key(other) == before.contains_key(other)
                && after[other] == before[other]
        }),
{
    assert(recorded_checkpoint(c, manifest).checkpoints.drop_last() =~= c.checkpoints);
    assert(shards.push(shard).drop_last() =~= shards);
}

/// A manifest is the final one exactly when it is of the last generation and every shard
/// that it names has reached the last window.
pub proof fn law_final_manifest_is_complete(
    c: ContextView,
    manifest: TrainingCheckpointManifestView,
)
    ensures
        manifest_is_final(c, manifest) <==> manifest.checkpoint_generation >= final_generation(
            c.start,
        ) && forall|i: int|
            0 <= i < manifest.shards.len() ==> (#[trigger] manifest.shards[i]).generation
                >= c.start.max_windows,
{
}

/// A broadcast goes to every live participant but this node; the live participants are
/// those that have not failed.
pub proof fn law_broadcasts_reach_live_participants(c: ContextView, node: NodeId, peer: NodeId)
    ensures
        broadcast_list(c, node).contains(peer) <==> c.start.participants.contains(peer)
            && !c.failed.contains(peer) && peer != node,
        live_participants(c).contains(peer) <==> c.start.participants.contains(peer)
            && !c.failed.contains(peer),
        opened_wait(c, node).expected.contains(peer) <==> peer == node || (
        c.start.participants.contains(peer) && !c.failed.contains(peer)),
        opened_wait(c, node).acks.contains(peer) <==> peer == node,
{
    let live = c.start.participants.filter(outside(c.failed));
    crate::base::search::lemma_filter_contains(c.start.participants, outside(c.failed));
    crate::base::search::lemma_filter_contains(live, other_than(node));
}

/// An acknowledgement counts for the very state or checkpoint that it names, of this job
/// and term, and for a checkpoint only from an expected peer itself.
pub proof fn law_acknowledgements_are_exact(
    s: TrainingStateView,
    expected: Set<NodeId>,
    commit: TrainingCheckpointCommitView,
    peer: NodeId,
    ack: TrainingAck,
)
    ensures
        acks_state(s, ack) ==> ack.job_id == s.job_id && ack.term == s.term && ack.kind is State
            && ack.kind->State_window == s.window,
        ack.job_id == s.job_id && ack.term == s.term && ack.kind is State
            && ack.kind->State_window == s.window ==> acks_state(s, ack),
        acks_checkpoint(expected, commit, peer, ack) <==> (expected.contains(peer) && ack.peer
            == peer && ack.job_id == commit.job_id && ack.term == commit.term && ack.kind == (
        TrainingAckKind::Checkpoint { artifact: commit.manifest.hash })),
{
}

/// A state counts as acknowledged only when as many have acknowledged it as participants
/// are live; a peer is added only by its own acknowledgement of this state.
pub proof fn law_state_needs_every_live_participant(
    c: ContextView,
    wait: AckWaitView,
    node: NodeId,
    s: TrainingStateView,
    event: WaitEvent,
    peer: NodeId,
)
    ensures
        ({
            let o = state_awaited(c, wait, node, s, event);
            &&& o.step is Confirmed ==> o.wait.acks.len() >= wait.expected.len()
            &&& o.wait.expected == wait.expected
            &&& o.wait.acks.contains(peer) && !wait.acks.contains(peer) ==> event is Ack
                && event->Ack_peer == peer && acks_state(s, event->ack)
            &&& wait.acks.contains(peer) ==> o.wait.acks.contains(peer)
            &&& event is Election && event->election.term > c.term ==> o.step is TermChanged
            &&& event is TimedOut ==> o.step is Unconfirmed
        }),
        ({
            let o = checkpoint_awaited(c, wait, commit_of(c, arbitrary()), event);
            o.wait.acks.contains(peer) && !wait.acks.contains(peer) ==> event is Ack
                && event->Ack_peer == peer
        }),
{
}

/// A checkpoint counts as held exactly when more than half of the expected peers have
/// acknowledged it, each for itself; a lost peer is no longer expected, a later term ends
/// the wait, and so does the end of the time.
pub proof fn law_checkpoint_is_held_by_a_majority(wait: AckWaitView, n: int)
    requires
        n == wait.expected.len(),
    ensures
        checkpoint_waiting(wait) is Confirmed <==> 2 * wait.acks.len() > n,
        checkpoint_waiting(wait) is Confirmed || checkpoint_waiting(wait) is Wait,
        state_waiting(wait) is Confirmed <==> wait.acks.len() >= n,
{
}

/// While acknowledgements are awaited, a peer that goes away counts as failed; nothing else
/// changes the context but a vote in a later term. Of a checkpoint it is then no longer
/// expected; of a state it still is.
pub proof fn law_waits_note_lost_peers(
    c: ContextView,
    wait: AckWaitView,
    node: NodeId,
    s: TrainingStateView,
    commit: TrainingCheckpointCommitView,
    peer: NodeId,
    ack: TrainingAck,
)
    ensures
        ({
            let o = state_awaited(c, wait, node, s, WaitEvent::Disconnected(peer));
            &&& o.context.failed == c.failed.insert(peer)
            &&& o.context.value == c.value && o.context.term == c.term
            &&& o.wait == wait
        }),
        ({
            let o = checkpoint_awaited(c, wait, commit, WaitEvent::Disconnected(peer));
            &&& o.context.failed == c.failed.insert(peer)
            &&& o.context.value == c.value && o.context.term == c.term
            &&& o.wait.expected == wait.expected.remove(peer)
            &&& o.wait.acks == wait.acks.remove(peer)
        }),
        ({
            let o = state_awaited(c, wait, node, s, WaitEvent::Ack { peer, ack });
            &&& o.context == c
            &&& acks_state(s, ack) ==> o.wait.acks == wait.acks.insert(peer)
            &&& !acks_state(s, ack) ==> o.wait == wait
        }),
        ({
            let o = checkpoint_awaited(c, wait, commit, WaitEvent::Ack { peer, ack });
            let good = wait.expected.contains(peer) && ack.peer == peer && ack.job_id
                == commit.job_id && ack.term == commit.term && ack.kind == (
            TrainingAckKind::Checkpoint { artifact: commit.manifest.hash });
            &&& o.context == c
            &&& good ==> o.wait.acks == wait.acks.insert(peer)
            &&& !good ==> o.wait == wait
            &&& o.step is Confirmed <==> 2 * o.wait.acks.len() > o.wait.expected.len()
        }),
        checkpoint_awaited(c, wait, commit, WaitEvent::TimedOut).step is Unconfirmed,
{
}

} // verus!
