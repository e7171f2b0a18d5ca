//! Replicated records of a job: training state, optimizer shards and
//! checkpoint manifests, and the rules by which a holder takes them over.

use crate::base::arith::min_int;
use crate::base::ids::{unsigned_hash, ArtifactId, JobId, NodeId};
use crate::base::members::contains_id;
use crate::base::record::{duplicate_all, Duplicate};
use crate::base::search::{lemma_views_push, opt_view, views};
use crate::frontier::plan::MAX_PLAN_WORKERS;
use crate::frontier::types::{V4ShardLifecycle, V4ShardOwnership, V4ShardOwnershipView};
use vstd::prelude::*;

verus! {

/// The name of the phase in which a replicated state begins.
pub open spec fn running_phase() -> Seq<char> {
    "Running"@
}

/// Which record an acknowledgement answers.
#[derive(Clone, Copy, Debug, PartialEq, Eq, Structural)]
pub enum V4StateAckKind {
    TrainingState,
    OptimizerShard,
    Checkpoint,
}

impl View for V4StateAckKind {
    type V = V4StateAckKind;

    open spec fn view(&self) -> V4StateAckKind {
        *self
    }
}

impl Duplicate for V4StateAckKind {
    fn duplicate(&self) -> (r: V4StateAckKind) {
        *self
    }
}

/// A replicated training state.
#[derive(Debug, PartialEq, Eq)]
pub struct V4TrainingStateRecord {
    pub job_id: JobId,
    pub coordinator: NodeId,
    pub plan_hash: ArtifactId,
    pub plan_generation: u64,
    pub training_epoch: u64,
    pub membership_epoch: u64,
    pub coordination_term: u64,
    pub optimizer_generation: u64,
    pub checkpoint_generation: u64,
    pub branch: ArtifactId,
    /// The phase, by its name; it is carried along and not looked into.
    pub phase: String,
    pub workers: Vec<NodeId>,
    pub shards: Vec<V4ShardOwnership>,
    pub data_progress: Vec<u64>,
    pub checkpoint: Option<ArtifactId>,
    pub state_hash: ArtifactId,
}

/// The contents of a [`V4TrainingStateRecord`].
#[verifier::ext_equal]
pub struct V4TrainingStateRecordView {
    pub job_id: JobId,
    pub coordinator: NodeId,
    pub plan_hash: ArtifactId,
    pub plan_generation: u64,
    pub training_epoch: u64,
    pub membership_epoch: u64,
    pub coordination_term: u64,
    pub optimizer_generation: u64,
    pub checkpoint_generation: u64,
    pub branch: ArtifactId,
    pub phase: Seq<char>,
    pub workers: Seq<NodeId>,
    pub shards: Seq<V4ShardOwnershipView>,
    pub data_progress: Seq<u64>,
    pub checkpoint: Option<ArtifactId>,
    pub state_hash: ArtifactId,
}

impl View for V4TrainingStateRecord {
    type V = V4TrainingStateRecordView;

    open spec fn view(&self) -> V4TrainingStateRecordView {
        V4TrainingStateRecordView {
            job_id: self.job_id,
            coordinator: self.coordinator,
            plan_hash: self.plan_hash,
            plan_generation: self.plan_generation,
            training_epoch: self.training_epoch,
            membership_epoch: self.membership_epoch,
            coordination_term: self.coordination_term,
            optimizer_generation: self.optimizer_generation,
            checkpoint_generation: self.checkpoint_generation,
            branch: self.branch,
            phase: self.phase@,
            workers: self.workers@,
            shards: views(self.shards@),
            data_progress: self.data_progress@,
            checkpoint: self.checkpoint,
            state_hash: self.state_hash,
        }
    }
}

impl Duplicate for V4TrainingStateRecord {
    fn duplicate(&self) -> (r: V4TrainingStateRecord) {
        V4TrainingStateRecord {
            job_id: self.job_id,
            coordinator: self.coordinator,
            plan_hash: self.plan_hash,
            plan_generation: self.plan_generation,
            training_epoch: self.training_epoch,
            membership_epoch: self.membership_epoch,
            coordination_term: self.coordination_term,
            optimizer_generation: self.optimizer_generation,
            checkpoint_generation: self.checkpoint_generation,
            branch: self.branch,
            phase: self.phase.clone(),
            workers: self.workers.clone(),
            shards: duplicate_all(&self.shards),
            data_progress: self.data_progress.clone(),
            checkpoint: self.checkpoint,
            state_hash: self.state_hash,
        }
    }
}

/// A replicated record of the optimizer state of one shard.
#[derive(Debug, PartialEq, Eq)]
pub struct V4OptimizerShardRecord {
    pub job_id: JobId,
    pub plan_generation: u64,
    pub model_generation: u64,
    pub optimizer_generation: u64,
    pub shard_id: u16,
    pub owner: NodeId,
    pub replicas: Vec<NodeId>,
    pub content_hash: ArtifactId,
    pub state_bytes: u64,
    pub state_hash: ArtifactId,
}

/// The contents of a [`V4OptimizerShardRecord`].
#[verifier::ext_equal]
pub struct V4OptimizerShardRecordView {
    pub job_id: JobId,
    pub plan_generation: u64,
    pub model_generation: u64,
    pub optimizer_generation: u64,
    pub shard_id: u16,
    pub owner: NodeId,
    pub replicas: Seq<NodeId>,
    pub content_hash: ArtifactId,
    pub state_bytes: u64,
    pub state_hash: ArtifactId,
}

impl View for V4OptimizerShardRecord {
    type V = V4OptimizerShardRecordView;

    open spec fn view(&self) -> V4OptimizerShardRecordView {
        V4OptimizerShardRecordView {
            job_id: self.job_id,
            plan_generation: self.plan_generation,
            model_generation: self.model_generation,
            optimizer_generation: self.optimizer_generation,
            shard_id: self.shard_id,
            owner: self.owner,
            replicas: self.replicas@,
            content_hash: self.content_hash,
            state_bytes: self.state_bytes,
            state_hash: self.state_hash,
        }
    }
}

impl Duplicate for V4OptimizerShardRecord {
    fn duplicate(&self) -> (r: V4OptimizerShardRecord) {
        V4OptimizerShardRecord {
            job_id: self.job_id,
            plan_generation: self.plan_generation,
            model_generation: self.model_generation,
            optimizer_generation: self.optimizer_generation,
            shard_id: self.shard_id,
            owner: self.owner,
            replicas: self.replicas.clone(),
            content_hash: self.content_hash,
            state_bytes: self.state_bytes,
            state_hash: self.state_hash,
        }
    }
}

/// The manifest of a checkpoint.
#[derive(Debug, PartialEq, Eq)]
pub struct V4CheckpointRecord {
    pub job_id: JobId,
    pub plan_generation: u64,
    pub model_generation: u64,
    pub optimizer_generation: u64,
    pub membership_epoch: u64,
    pub checkpoint_generation: u64,
    pub branch: ArtifactId,
    pub parent: Option<ArtifactId>,
    pub shard_hashes: Vec<ArtifactId>,
    pub providers: Vec<NodeId>,
    pub complete: bool,
    pub manifest_hash: ArtifactId,
}

/// The contents of a [`V4CheckpointRecord`].
#[verifier::ext_equal]
pub struct V4CheckpointRecordView {
    pub job_id: JobId,
    pub plan_generation: u64,
    pub model_generation: u64,
    pub optimizer_generation: u64,
    pub membership_epoch: u64,
    pub checkpoint_generation: u64,
    pub branch: ArtifactId,
    pub parent: Option<ArtifactId>,
    pub shard_hashes: Seq<ArtifactId>,
    pub providers: Seq<NodeId>,
    pub complete: bool,
    pub manifest_hash: ArtifactId,
}

impl View for V4CheckpointRecord {
    type V = V4CheckpointRecordView;

    open spec fn view(&self) -> V4CheckpointRecordView {
        V4CheckpointRecordView {
            job_id: self.job_id,
            plan_generation: self.plan_generation,
            model_generation: self.model_generation,
            optimizer_generation: self.optimizer_generation,
            membership_epoch: self.membership_epoch,
            checkpoint_generation: self.checkpoint_generation,
            branch: self.branch,
            parent: self.parent,
            shard_hashes: self.shard_hashes@,
            providers: self.providers@,
            complete: self.complete,
            manifest_hash: self.manifest_hash,
        }
    }
}

impl Duplicate for V4CheckpointRecord {
    fn duplicate(&self) -> (r: V4CheckpointRecord) {
        V4CheckpointRecord {
            job_id: self.job_id,
            plan_generation: self.plan_generation,
            model_generation: self.model_generation,
            optimizer_generation: self.optimizer_generation,
            membership_epoch: self.membership_epoch,
            checkpoint_generation: self.checkpoint_generation,
            branch: self.branch,
            parent: self.parent,
            shard_hashes: self.shard_hashes.clone(),
            providers: self.providers.clone(),
            complete: self.complete,
            manifest_hash: self.manifest_hash,
        }
    }
}

/// The answer to a replicated record.
#[derive(Clone, Copy, Debug, PartialEq, Eq, Structural)]
pub struct V4StateAck {
    pub job_id: JobId,
    pub plan_generation: u64,
    pub generation: u64,
    pub kind: V4StateAckKind,
    pub state_hash: ArtifactId,
    pub accepted: bool,
}

impl View for V4StateAck {
    type V = V4StateAck;

    open spec fn view(&self) -> V4StateAck {
        *self
    }
}

impl Duplicate for V4StateAck {
    fn duplicate(&self) -> (r: V4StateAck) {
        *self
    }
}

/// The most shards that a replicated job is split into.
pub const MAX_REPLICATED_SHARDS: usize = 4;

/// The peers that a job may be replicated to.
pub open spec fn replication_peers_ok(workers: Seq<NodeId>, node: NodeId) -> bool {
    2 <= workers.len() <= MAX_PLAN_WORKERS && !workers.contains(node)
}

/// Whether a job may be replicated to these peers.
pub fn valid_replication_peers(workers: &Vec<NodeId>, node: NodeId) -> (r: bool)
    ensures
        r == replication_peers_ok(workers@, node),
{
    2 <= workers.len() && workers.len() <= MAX_PLAN_WORKERS && !contains_id(workers, node)
}

/// The owner of the shard at position `i`.
pub open spec fn replica_of(workers: Seq<NodeId>, i: int) -> NodeId {
    workers[(i + 1) % (workers.len() as int)]
}

/// The shard at position `i`, owned by one peer and copied to the next.
pub open spec fn replicated_shard(
    workers: Seq<NodeId>,
    hashes: Seq<ArtifactId>,
    i: int,
) -> V4ShardOwnershipView {
    V4ShardOwnershipView {
        shard_id: i as u16,
        model_generation: 1,
        owners: seq![workers[i]],
        replicas: seq![replica_of(workers, i)],
        ownership_generation: 1,
        content_hash: hashes[i],
        state_bytes: 1024,
        memory_bytes: 2048,
        runtime_requirement: "reference.cpu.i64"@,
        lifecycle: V4ShardLifecycle::Active,
    }
}

/// The optimizer record at position `i`, before its hash is set.
pub open spec fn replicated_optimizer(
    job_id: JobId,
    workers: Seq<NodeId>,
    hashes: Seq<ArtifactId>,
    i: int,
) -> V4OptimizerShardRecordView {
    V4OptimizerShardRecordView {
        job_id,
        plan_generation: 1,
        model_generation: 1,
        optimizer_generation: 1,
        shard_id: i as u16,
        owner: workers[i],
        replicas: seq![replica_of(workers, i)],
        content_hash: hashes[i],
        state_bytes: 2048,
        state_hash: unsigned_hash(),
    }
}

/// How many shards a job over these peers has.
pub open spec fn replicated_shard_count(workers: int) -> int {
    min_int(workers, MAX_REPLICATED_SHARDS as int)
}

/// How many shards a job over these peers has.
pub fn shard_count(workers: &Vec<NodeId>) -> (r: usize)
    ensures
        r == replicated_shard_count(workers@.len() as int),
{
    if workers.len() < MAX_REPLICATED_SHARDS {
        workers.len()
    } else {
        MAX_REPLICATED_SHARDS
    }
}

/// The optimizer records of a job, before their hashes are set. `hashes` are
/// the hashes of the optimizer states.
pub fn optimizer_records(job_id: JobId, workers: &Vec<NodeId>, hashes: &Vec<ArtifactId>) -> (r: Vec<
    V4OptimizerShardRecord,
>)
    requires
        workers@.len() > 0,
        hashes@.len() == replicated_shard_count(workers@.len() as int),
    ensures
        r@.len() == hashes@.len(),
        forall|i: int|
            0 <= i < r@.len() ==> (#[trigger] r@[i])@ == replicated_optimizer(
                job_id,
                workers@,
                hashes@,
                i,
            ),
{
    let mut out: Vec<V4OptimizerShardRecord> = Vec::new();
    let mut i: usize = 0;
    while i < hashes.len()
        invariant
            0 <= i <= hashes@.len(),
            workers@.len() > 0,
            hashes@.len() == replicated_shard_count(workers@.len() as int),
            out@.len() == i,
            forall|j: int|
                0 <= j < i ==> (#[trigger] out@[j])@ == replicated_optimizer(
                    job_id,
                    workers@,
                    hashes@,
                    j,
                ),
        decreases hashes@.len() - i,
    {
        let mut replicas: Vec<NodeId> = Vec::new();
        replicas.push(workers[(i + 1) % workers.len()]);
        let record = V4OptimizerShardRecord {
            job_id,
            plan_generation: 1,
            model_generation: 1,
            optimizer_generation: 1,
            shard_id: i as u16,
            owner: workers[i],
            replicas,
            content_hash: hashes[i],
            state_bytes: 2048,
            state_hash: ArtifactId::unsigned(),
        };
        assert(record@ =~= replicated_optimizer(job_id, workers@, hashes@, i as int));
        out.push(record);
        i += 1;
    }
    out
}

/// The state record of a replicated job, before its hash is set.
pub open spec fn replicated_state(
    job_id: JobId,
    node: NodeId,
    plan_hash: ArtifactId,
    branch: ArtifactId,
    workers: Seq<NodeId>,
    hashes: Seq<ArtifactId>,
) -> V4TrainingStateRecordView {
    V4TrainingStateRecordView {
        job_id,
        coordinator: node,
        plan_hash,
        plan_generation: 1,
        training_epoch: 1,
        membership_epoch: 1,
        coordination_term: 1,
        optimizer_generation: 1,
        checkpoint_generation: 1,
        branch,
        phase: running_phase(),
        workers,
        shards: Seq::new(hashes.len(), |i: int| replicated_shard(workers, hashes, i)),
        data_progress: Seq::new(workers.len(), |i: int| 0u64),
        checkpoint: None,
        state_hash: unsigned_hash(),
    }
}

/// The state record of a replicated job, before its hash is set. `hashes` are
/// the hashes of the shard states.
pub fn replicate_state(
    job_id: JobId,
    node: NodeId,
    plan_hash: ArtifactId,
    branch: ArtifactId,
    workers: &Vec<NodeId>,
    hashes: &Vec<ArtifactId>,
) -> (r: V4TrainingStateRecord)
    requires
        workers@.len() > 0,
        hashes@.len() == replicated_shard_count(workers@.len() as int),
    ensures
        r@ == replicated_state(job_id, node, plan_hash, branch, workers@, hashes@),
{
    let ghost all = Seq::new(hashes@.len(), |i: int| replicated_shard(workers@, hashes@, i));
    let mut shards: Vec<V4ShardOwnership> = Vec::new();
    let mut i: usize = 0;
    assert(views(shards@) =~= all.take(0));
    while i < hashes.len()
        invariant
            0 <= i <= hashes@.len(),
            workers@.len() > 0,
            hashes@.len() == replicated_shard_count(workers@.len() as int),
            all == Seq::new(hashes@.len(), |i: int| replicated_shard(workers@, hashes@, i)),
            views(shards@) == all.take(i as int),
        decreases hashes@.len() - i,
    {
        let mut owners: Vec<NodeId> = Vec::new();
        owners.push(workers[i]);
        let mut replicas: Vec<NodeId> = Vec::new();
        replicas.push(workers[(i + 1) % workers.len()]);
        let shard = V4ShardOwnership {
            shard_id: i as u16,
            model_generation: 1,
            owners,
            replicas,
            ownership_generation: 1,
            content_hash: hashes[i],
            state_bytes: 1024,
            memory_bytes: 2048,
            runtime_requirement: "reference.cpu.i64".to_owned(),
            lifecycle: V4ShardLifecycle::Active,
        };
        proof {
            assert(shard@ =~= replicated_shard(workers@, hashes@, i as int));
            lemma_views_push(shards@, shard);
            assert(all.take(i as int + 1) =~= all.take(i as int).push(shard@));
        }
        shards.push(shard);
        i += 1;
    }
    assert(all.take(i as int) =~= all);
    let mut progress: Vec<u64> = Vec::new();
    let mut k: usize = 0;
    while k < workers.len()
        invariant
            0 <= k <= workers@.len(),
            progress@ == Seq::new(k as nat, |i: int| 0u64),
        decreases workers@.len() - k,
    {
        progress.push(0);
        assert(progress@ =~= Seq::new((k + 1) as nat, |i: int| 0u64));
        k += 1;
    }
    let state = V4TrainingStateRecord {
        job_id,
        coordinator: node,
        plan_hash,
        plan_generation: 1,
        training_epoch: 1,
        membership_epoch: 1,
        coordination_term: 1,
        optimizer_generation: 1,
        checkpoint_generation: 1,
        branch,
        phase: "Running".to_owned(),
        workers: workers.clone(),
        shards,
        data_progress: progress,
        checkpoint: None,
        state_hash: ArtifactId::unsigned(),
    };
    assert(state@ =~= replicated_state(job_id, node, plan_hash, branch, workers@, hashes@));
    state
}

/// The first manifest of a replicated job, before its hash is set.
pub open spec fn replicated_checkpoint(state: V4TrainingStateRecordView) -> V4CheckpointRecordView {
    V4CheckpointRecordView {
        job_id: state.job_id,
        plan_generation: 1,
        model_generation: 1,
        optimizer_generation: 1,
        membership_epoch: 1,
        checkpoint_generation: 1,
        branch: state.branch,
        parent: None,
        shard_hashes: state.shards.map_values(|s: V4ShardOwnershipView| s.content_hash),
        providers: state.workers,
        complete: true,
        manifest_hash: unsigned_hash(),
    }
}

/// The first manifest of a replicated job, before its hash is set.
pub fn first_checkpoint(state: &V4TrainingStateRecord) -> (r: V4CheckpointRecord)
    ensures
        r@ == replicated_checkpoint(state@),
{
    let mut hashes: Vec<ArtifactId> = Vec::new();
    let ghost all = state@.shards.map_values(|s: V4ShardOwnershipView| s.content_hash);
    let mut i: usize = 0;
    while i < state.shards.len()
        invariant
            0 <= i <= state.shards@.len(),
            all == views(state.shards@).map_values(|s: V4ShardOwnershipView| s.content_hash),
            hashes@ == all.take(i as int),
        decreases state.shards@.len() - i,
    {
        hashes.push(state.shards[i].content_hash);
        assert(hashes@ =~= all.take(i as int + 1));
        i += 1;
    }
    assert(all.take(i as int) =~= all);
    V4CheckpointRecord {
        job_id: state.job_id,
        plan_generation: 1,
        model_generation: 1,
        optimizer_generation: 1,
        membership_epoch: 1,
        checkpoint_generation: 1,
        branch: state.branch,
        parent: None,
        shard_hashes: hashes,
        providers: state.workers.clone(),
        complete: true,
        manifest_hash: ArtifactId::unsigned(),
    }
}

/// A copy that has to be acknowledged.
#[derive(Clone, Copy, Debug, PartialEq, Eq, Structural)]
pub struct ExpectedCopy {
    pub peer: NodeId,
    pub kind: V4StateAckKind,
    pub state_hash: ArtifactId,
}

/// The copies of one record at each peer.
pub open spec fn copies_at(peers: Seq<NodeId>, kind: V4StateAckKind, hash: ArtifactId) -> Seq<
    ExpectedCopy,
> {
    peers.map_values(|p: NodeId| ExpectedCopy { peer: p, kind, state_hash: hash })
}

/// The copies of the optimizer records: at the owner, then at the replicas.
pub open spec fn optimizer_copies(records: Seq<V4OptimizerShardRecordView>) -> Seq<ExpectedCopy>
    decreases records.len(),
{
    if records.len() == 0 {
        Seq::empty()
    } else {
        let r = records.last();
        optimizer_copies(records.drop_last()) + copies_at(
            seq![r.owner] + r.replicas,
            V4StateAckKind::OptimizerShard,
            r.state_hash,
        )
    }
}

/// Every copy that a replicated job waits for.
pub open spec fn all_copies(
    workers: Seq<NodeId>,
    state_hash: ArtifactId,
    records: Seq<V4OptimizerShardRecordView>,
    manifest_hash: ArtifactId,
) -> Seq<ExpectedCopy> {
    copies_at(workers, V4StateAckKind::TrainingState, state_hash) + optimizer_copies(records)
        + copies_at(workers, V4StateAckKind::Checkpoint, manifest_hash)
}

fn add_copies(
    out: &mut Vec<ExpectedCopy>,
    peers: &Vec<NodeId>,
    kind: V4StateAckKind,
    state_hash: ArtifactId,
)
    ensures
        final(out)@ == old(out)@ + copies_at(peers@, kind, state_hash),
{
    let ghost before = out@;
    let ghost all = copies_at(peers@, kind, state_hash);
    let mut i: usize = 0;
    assert(out@ =~= before + all.take(0));
    while i < peers.len()
        invariant
            0 <= i <= peers@.len(),
            all == copies_at(peers@, kind, state_hash),
            out@ == before + all.take(i as int),
        decreases peers@.len() - i,
    {
        out.push(ExpectedCopy { peer: peers[i], kind, state_hash });
        assert(out@ =~= before + all.take(i as int + 1));
        i += 1;
    }
    assert(all.take(i as int) =~= all);
}

/// Every copy that a replicated job waits for.
pub fn expected_copies(
    workers: &Vec<NodeId>,
    state_hash: ArtifactId,
    records: &Vec<V4OptimizerShardRecord>,
    manifest_hash: ArtifactId,
) -> (r: Vec<ExpectedCopy>)
    ensures
        r@ == all_copies(workers@, state_hash, views(records@), manifest_hash),
{
    let mut out: Vec<ExpectedCopy> = Vec::new();
    add_copies(&mut out, workers, V4StateAckKind::TrainingState, state_hash);
    let ghost first = copies_at(workers@, V4StateAckKind::TrainingState, state_hash);
    let ghost s = views(records@);
    assert(out@ =~= first + optimizer_copies(s.take(0)));
    let mut i: usize = 0;
    while i < records.len()
        invariant
            0 <= i <= records@.len(),
            s == views(records@),
            out@ == first + optimizer_copies(s.take(i as int)),
        decreases records@.len() - i,
    {
        proof {
            assert(s.take(i as int + 1).drop_last() =~= s.take(i as int));
            assert(s.take(i as int + 1).last() == records@[i as int]@);
        }
        let mut owner: Vec<NodeId> = Vec::new();
        owner.push(records[i].owner);
        assert(owner@ =~= seq![records@[i as int].owner]);
        let targets = crate::base::members::concat_ids(&owner, &records[i].replicas);
        add_copies(
            &mut out,
            &targets,
            V4StateAckKind::OptimizerShard,
            records[i].state_hash,
        );
        assert(out@ =~= first + optimizer_copies(s.take(i as int + 1)));
        i += 1;
    }
    assert(s.take(i as int) =~= s);
    add_copies(&mut out, workers, V4StateAckKind::Checkpoint, manifest_hash);
    assert(out@ =~= all_copies(workers@, state_hash, views(records@), manifest_hash));
    out
}

/// The copy that an acknowledgement confirms.
pub open spec fn confirmed_copy(peer: NodeId, ack: V4StateAck) -> ExpectedCopy {
    ExpectedCopy { peer, kind: ack.kind, state_hash: ack.state_hash }
}

fn holds_copy(copies: &Vec<ExpectedCopy>, copy: &ExpectedCopy) -> (r: bool)
    ensures
        r == copies@.contains(*copy),
{
    let mut i: usize = 0;
    while i < copies.len()
        invariant
            0 <= i <= copies@.len(),
            forall|j: int| 0 <= j < i ==> copies@[j] != *copy,
        decreases copies@.len() - i,
    {
        if copies[i] == *copy {
            assert(copies@[i as int] == *copy);
            return true;
        }
        i += 1;
    }
    false
}

/// Take in an acknowledgement of a copy.
pub fn note_copy(
    expected: &Vec<ExpectedCopy>,
    acknowledged: &mut Vec<ExpectedCopy>,
    peer: NodeId,
    ack: &V4StateAck,
)
    ensures
        ({
            let copy = confirmed_copy(peer, *ack);
            final(acknowledged)@ == (if ack.accepted && expected@.contains(copy) && !old(
                acknowledged,
            )@.contains(copy) {
                old(acknowledged)@.push(copy)
            } else {
                old(acknowledged)@
            })
        }),
{
    let copy = ExpectedCopy { peer, kind: ack.kind, state_hash: ack.state_hash };
    if ack.accepted && holds_copy(expected, &copy) && !holds_copy(acknowledged, &copy) {
        acknowledged.push(copy);
    }
}

/// As many acknowledgements as expected copies means that every copy is
/// acknowledged.
pub proof fn law_all_copies_acknowledged(
    expected: Seq<ExpectedCopy>,
    acknowledged: Seq<ExpectedCopy>,
)
    requires
        acknowledged.no_duplicates(),
        forall|i: int|
            0 <= i < acknowledged.len() ==> expected.contains(#[trigger] acknowledged[i]),
        acknowledged.len() == expected.len(),
    ensures
        forall|i: int|
            0 <= i < expected.len() ==> acknowledged.contains(#[trigger] expected[i]),
{
    acknowledged.unique_seq_to_set();
    expected.lemma_cardinality_of_set();
    vstd::seq_lib::seq_to_set_is_finite(expected);
    vstd::seq_lib::seq_to_set_is_finite(acknowledged);
    let a = acknowledged.to_set();
    let e = expected.to_set();
    assert(a.subset_of(e)) by {
        assert forall|x: ExpectedCopy| a.contains(x) implies e.contains(x) by {
            let i = choose|i: int| 0 <= i < acknowledged.len() && acknowledged[i] == x;
            assert(expected.contains(acknowledged[i]));
        }
    }
    vstd::set_lib::lemma_len_subset(a, e);
    vstd::set_lib::lemma_subset_equality(a, e);
    assert forall|i: int| 0 <= i < expected.len() implies acknowledged.contains(
        #[trigger] expected[i],
    ) by {
        assert(e.contains(expected[i]));
        assert(a.contains(expected[i]));
    }
}

/// `a` comes after `b`, comparing from the first number on.
pub open spec fn later(a: Seq<u64>, b: Seq<u64>) -> bool
    decreases a.len(),
{
    if a.len() == 0 || b.len() == 0 {
        a.len() > b.len()
    } else if a[0] != b[0] {
        a[0] > b[0]
    } else {
        later(a.drop_first(), b.drop_first())
    }
}

/// The generations that order training states.
pub open spec fn state_order(s: V4TrainingStateRecordView) -> Seq<u64> {
    seq![
        s.plan_generation,
        s.membership_epoch,
        s.coordination_term,
        s.optimizer_generation,
        s.checkpoint_generation,
    ]
}

fn is_later(a: &Vec<u64>, b: &Vec<u64>) -> (r: bool)
    ensures
        r == later(a@, b@),
{
    let mut i: usize = 0;
    assert(a@.skip(0) =~= a@);
    assert(b@.skip(0) =~= b@);
    while i < a.len() && i < b.len()
        invariant
            0 <= i <= a@.len(),
            i <= b@.len(),
            later(a@, b@) == later(a@.skip(i as int), b@.skip(i as int)),
        decreases a@.len() - i,
    {
        assert(a@.skip(i as int).drop_first() =~= a@.skip(i as int + 1));
        assert(b@.skip(i as int).drop_first() =~= b@.skip(i as int + 1));
        if a[i] != b[i] {
            return a[i] > b[i];
        }
        i += 1;
    }
    a.len() > b.len()
}

/// The numbers of `a` and `b` are the same.
fn is_same(a: &Vec<u64>, b: &Vec<u64>) -> (r: bool)
    ensures
        r == (a@ == b@),
{
    if a.len() != b.len() {
        return false;
    }
    let mut i: usize = 0;
    while i < a.len()
        invariant
            a@.len() == b@.len(),
            0 <= i <= a@.len(),
            forall|j: int| 0 <= j < i ==> a@[j] == b@[j],
        decreases a@.len() - i,
    {
        if a[i] != b[i] {
            assert(a@[i as int] != b@[i as int]);
            return false;
        }
        i += 1;
    }
    assert(a@ =~= b@);
    true
}

fn order_of(state: &V4TrainingStateRecord) -> (r: Vec<u64>)
    ensures
        r@ == state_order(state@),
{
    let mut out: Vec<u64> = Vec::new();
    out.push(state.plan_generation);
    out.push(state.membership_epoch);
    out.push(state.coordination_term);
    out.push(state.optimizer_generation);
    out.push(state.checkpoint_generation);
    assert(out@ =~= state_order(state@));
    out
}

/// The record is later than the one held, or the same.
pub open spec fn state_taken(
    record: V4TrainingStateRecordView,
    held: Option<V4TrainingStateRecordView>,
) -> bool {
    match held {
        None => true,
        Some(c) => later(state_order(record), state_order(c)) || (state_order(record)
            == state_order(c) && c.state_hash == record.state_hash),
    }
}

/// Take over a replicated training state. `valid` tells whether its hash and
/// rules hold. There is no answer where it fails authorization or integrity.
pub fn receive_state_record(
    peer: NodeId,
    record: &V4TrainingStateRecord,
    held: &Option<V4TrainingStateRecord>,
    valid: bool,
) -> (r: Option<V4StateAck>)
    ensures
        r == (if (peer != record@.coordinator && !record@.workers.contains(peer)) || !valid {
            None
        } else {
            Some(
                V4StateAck {
                    job_id: record@.job_id,
                    plan_generation: record@.plan_generation,
                    generation: record@.checkpoint_generation,
                    kind: V4StateAckKind::TrainingState,
                    state_hash: record@.state_hash,
                    accepted: state_taken(record@, opt_view(*held)),
                },
            )
        }),
{
    if (peer != record.coordinator && !contains_id(&record.workers, peer)) || !valid {
        return None;
    }
    let accepted = match held {
        None => true,
        Some(current) => {
            let incoming = order_of(record);
            let known = order_of(current);
            is_later(&incoming, &known) || (is_same(&incoming, &known) && current.state_hash
                == record.state_hash)
        },
    };
    Some(
        V4StateAck {
            job_id: record.job_id,
            plan_generation: record.plan_generation,
            generation: record.checkpoint_generation,
            kind: V4StateAckKind::TrainingState,
            state_hash: record.state_hash,
            accepted,
        },
    )
}

/// The optimizer record is later than the one held, or the same.
pub open spec fn optimizer_taken(
    record: V4OptimizerShardRecordView,
    held: Option<V4OptimizerShardRecordView>,
) -> bool {
    match held {
        None => true,
        Some(c) => record.optimizer_generation > c.optimizer_generation || (
        record.optimizer_generation == c.optimizer_generation && record.state_hash
            == c.state_hash),
    }
}

/// Take over a replicated optimizer record. There is no answer where it fails
/// authorization or integrity.
pub fn receive_optimizer_shard(
    node: NodeId,
    record: &V4OptimizerShardRecord,
    held: &Option<V4OptimizerShardRecord>,
    valid: bool,
) -> (r: Option<V4StateAck>)
    ensures
        r == (if (record@.owner != node && !record@.replicas.contains(node)) || !valid {
            None
        } else {
            Some(
                V4StateAck {
                    job_id: record@.job_id,
                    plan_generation: record@.plan_generation,
                    generation: record@.optimizer_generation,
                    kind: V4StateAckKind::OptimizerShard,
                    state_hash: record@.state_hash,
                    accepted: optimizer_taken(record@, opt_view(*held)),
                },
            )
        }),
{
    if (record.owner != node && !contains_id(&record.replicas, node)) || !valid {
        return None;
    }
    let accepted = match held {
        None => true,
        Some(current) => record.optimizer_generation > current.optimizer_generation || (
        record.optimizer_generation == current.optimizer_generation && record.state_hash
            == current.state_hash),
    };
    Some(
        V4StateAck {
            job_id: record.job_id,
            plan_generation: record.plan_generation,
            generation: record.optimizer_generation,
            kind: V4StateAckKind::OptimizerShard,
            state_hash: record.state_hash,
            accepted,
        },
    )
}

/// The manifest is the one held for its generation, or none is.
pub open spec fn checkpoint_taken(
    record: V4CheckpointRecordView,
    held: Option<V4CheckpointRecordView>,
) -> bool {
    match held {
        None => true,
        Some(c) => record.manifest_hash == c.manifest_hash || record.checkpoint_generation
            > c.checkpoint_generation,
    }
}

/// Take over a checkpoint manifest. `held` is the manifest that is held for the
/// same generation. There is no answer where it fails authorization or integrity.
pub fn receive_checkpoint_record(
    node: NodeId,
    record: &V4CheckpointRecord,
    held: &Option<V4CheckpointRecord>,
    valid: bool,
) -> (r: Option<V4StateAck>)
    ensures
        r == (if !record@.providers.contains(node) || !valid {
            None
        } else {
            Some(
                V4StateAck {
                    job_id: record@.job_id,
                    plan_generation: record@.plan_generation,
                    generation: record@.checkpoint_generation,
                    kind: V4StateAckKind::Checkpoint,
                    state_hash: record@.manifest_hash,
                    accepted: checkpoint_taken(record@, opt_view(*held)),
                },
            )
        }),
{
    if !contains_id(&record.providers, node) || !valid {
        return None;
    }
    let accepted = match held {
        None => true,
        Some(current) => record.manifest_hash == current.manifest_hash
            || record.checkpoint_generation > current.checkpoint_generation,
    };
    Some(
        V4StateAck {
            job_id: record.job_id,
            plan_generation: record.plan_generation,
            generation: record.checkpoint_generation,
            kind: V4StateAckKind::Checkpoint,
            state_hash: record.manifest_hash,
            accepted,
        },
    )
}

/// A held record gives way to a later one or to itself, never to an earlier one
/// or to another of the same generation.
pub proof fn law_replicas_move_forward(
    state: V4TrainingStateRecordView,
    held_state: V4TrainingStateRecordView,
    optimizer: V4OptimizerShardRecordView,
    held_optimizer: V4OptimizerShardRecordView,
)
    ensures
        state_taken(state, Some(held_state)) ==> state.plan_generation
            >= held_state.plan_generation,
        state_taken(state, Some(held_state)) && state_order(state) == state_order(held_state)
            ==> state.state_hash == held_state.state_hash,
        optimizer_taken(optimizer, Some(held_optimizer)) ==> optimizer.optimizer_generation
            >= held_optimizer.optimizer_generation,
        optimizer_taken(optimizer, Some(held_optimizer)) && optimizer.optimizer_generation
            == held_optimizer.optimizer_generation ==> optimizer.state_hash
            == held_optimizer.state_hash,
{
    lemma_later_irreflexive(state_order(state));
    assert(state_order(state)[0] == state.plan_generation);
    assert(state_order(held_state)[0] == held_state.plan_generation);
}

proof fn lemma_later_irreflexive(a: Seq<u64>)
    ensures
        !later(a, a),
    decreases a.len(),
{
    if a.len() > 0 {
        lemma_later_irreflexive(a.drop_first());
    }
}

/// Each shard of a replicated job has the worker at its position as its one owner and
/// the next worker, the first after the last, as its one replica; its optimizer record
/// is held by the same two.
pub proof fn law_shards_are_copied_to_the_next_worker(
    job_id: JobId,
    workers: Seq<NodeId>,
    hashes: Seq<ArtifactId>,
    i: int,
)
    requires
        2 <= workers.len() <= 16,
        hashes.len() <= workers.len(),
        0 <= i < hashes.len(),
    ensures
        ({
            let s = replicated_shard(workers, hashes, i);
            let o = replicated_optimizer(job_id, workers, hashes, i);
            let next = if i + 1 < workers.len() {
                workers[i + 1]
            } else {
                workers[0]
            };
            &&& s.shard_id == i
            &&& s.owners.len() == 1 && s.owners[0] == workers[i]
            &&& s.replicas.len() == 1 && s.replicas[0] == next
            &&& s.content_hash == hashes[i]
            &&& s.lifecycle is Active
            &&& s.model_generation == 1 && s.ownership_generation == 1
            &&& s.state_bytes == 1_024 && s.memory_bytes == 2_048
            &&& s.runtime_requirement == "reference.cpu.i64"@
            &&& o.job_id == job_id
            &&& o.shard_id == i
            &&& o.owner == workers[i]
            &&& o.replicas.len() == 1 && o.replicas[0] == next
            &&& o.content_hash == hashes[i]
            &&& o.state_bytes == 2_048
            &&& o.plan_generation == 1 && o.model_generation == 1 && o.optimizer_generation == 1
        }),
{
    if i + 1 < workers.len() {
        vstd::arithmetic::div_mod::lemma_small_mod((i + 1) as nat, workers.len());
    } else {
        vstd::arithmetic::div_mod::lemma_mod_self_0(workers.len() as int);
    }
}

/// The first state of a replicated job names its plan, branch, coordinator and workers,
/// lists one shard for each hash, counts no data, and is running; its first checkpoint
/// lists the shards' hashes in order, held by every worker.
pub proof fn law_replicated_job_begins(
    job_id: JobId,
    node: NodeId,
    plan_hash: ArtifactId,
    branch: ArtifactId,
    workers: Seq<NodeId>,
    hashes: Seq<ArtifactId>,
    i: int,
)
    ensures
        ({
            let s = replicated_state(job_id, node, plan_hash, branch, workers, hashes);
            let m = replicated_checkpoint(s);
            &&& s.job_id == job_id
            &&& s.coordinator == node
            &&& s.plan_hash == plan_hash
            &&& s.branch == branch
            &&& s.workers == workers
            &&& s.phase == "Running"@
            &&& s.checkpoint is None
            &&& s.plan_generation == 1 && s.training_epoch == 1 && s.membership_epoch == 1
            &&& s.coordination_term == 1 && s.optimizer_generation == 1
            &&& s.checkpoint_generation == 1
            &&& s.shards.len() == hashes.len()
            &&& s.data_progress.len() == workers.len()
            &&& 0 <= i < workers.len() ==> s.data_progress[i] == 0
            &&& m.job_id == job_id
            &&& m.branch == branch
            &&& m.parent is None
            &&& m.complete
            &&& m.providers == workers
            &&& m.shard_hashes.len() == hashes.len()
            &&& 0 <= i < hashes.len() ==> s.shards[i].content_hash == hashes[i]
                && m.shard_hashes[i] == hashes[i]
            &&& m.checkpoint_generation == 1 && m.model_generation == 1
        }),
        replicated_shard_count(workers.len() as int) <= 4,
        workers.len() <= 4 ==> replicated_shard_count(workers.len() as int) == workers.len(),
        workers.len() > 4 ==> replicated_shard_count(workers.len() as int) == 4,
{
}

/// A job may be replicated to two to sixteen peers, this one not among them.
pub proof fn law_replication_peers(workers: Seq<NodeId>, node: NodeId)
    ensures
        replication_peers_ok(workers, node) <==> workers.len() >= 2 && workers.len() <= 16
            && !workers.contains(node),
{
}

/// The copies awaited: the state and the checkpoint at every worker, and each optimizer
/// record at its owner and at each of its replicas.
pub proof fn law_copies_are_awaited(
    workers: Seq<NodeId>,
    state_hash: ArtifactId,
    records: Seq<V4OptimizerShardRecordView>,
    manifest_hash: ArtifactId,
    worker: NodeId,
    r: int,
)
    ensures
        ({
            let all = all_copies(workers, state_hash, records, manifest_hash);
            &&& workers.contains(worker) ==> all.contains(
                ExpectedCopy {
                    peer: worker,
                    kind: V4StateAckKind::TrainingState,
                    state_hash,
                },
            )
            &&& workers.contains(worker) ==> all.contains(
                ExpectedCopy {
                    peer: worker,
                    kind: V4StateAckKind::Checkpoint,
                    state_hash: manifest_hash,
                },
            )
            &&& 0 <= r < records.len() && (worker == records[r].owner
                || records[r].replicas.contains(worker)) ==> all.contains(
                ExpectedCopy {
                    peer: worker,
                    kind: V4StateAckKind::OptimizerShard,
                    state_hash: records[r].state_hash,
                },
            )
        }),
{
    let states = copies_at(workers, V4StateAckKind::TrainingState, state_hash);
    let optimizers = optimizer_copies(records);
    let manifests = copies_at(workers, V4StateAckKind::Checkpoint, manifest_hash);
    let all = all_copies(workers, state_hash, records, manifest_hash);
    if workers.contains(worker) {
        let k = workers.index_of(worker);
        assert(all[k] == states[k]);
        assert(all[states.len() + optimizers.len() + k] == manifests[k]);
    }
    if 0 <= r < records.len() && (worker == records[r].owner || records[r].replicas.contains(
        worker,
    )) {
        lemma_optimizer_copy_awaited(records, r, worker);
        let k = optimizers.index_of(
            ExpectedCopy {
                peer: worker,
                kind: V4StateAckKind::OptimizerShard,
                state_hash: records[r].state_hash,
            },
        );
        assert(all[states.len() + k] == optimizers[k]);
    }
}

proof fn lemma_optimizer_copy_awaited(
    records: Seq<V4OptimizerShardRecordView>,
    r: int,
    worker: NodeId,
)
    requires
        0 <= r < records.len(),
        worker == records[r].owner || records[r].replicas.contains(worker),
    ensures
        optimizer_copies(records).contains(
            ExpectedCopy {
                peer: worker,
                kind: V4StateAckKind::OptimizerShard,
                state_hash: records[r].state_hash,
            },
        ),
    decreases records.len(),
{
    let copy = ExpectedCopy {
        peer: worker,
        kind: V4StateAckKind::OptimizerShard,
        state_hash: records[r].state_hash,
    };
    let before = optimizer_copies(records.drop_last());
    let all = optimizer_copies(records);
    if r < records.len() - 1 {
        lemma_optimizer_copy_awaited(records.drop_last(), r, worker);
        let k = before.index_of(copy);
        assert(all[k] == copy);
    } else {
        let holders = seq![records[r].owner] + records[r].replicas;
        let k = if worker == records[r].owner {
            0
        } else {
            1 + records[r].replicas.index_of(worker)
        };
        assert(holders[k] == worker);
        assert(all[before.len() + k] == copy);
    }
}

/// A state replaces the one held by its generations, the plan's first, then the
/// membership's, the term, the optimizer's and the checkpoint's: a later one is taken,
/// an earlier one is not, and with all of them equal only the same state is.
pub proof fn law_later_states_are_taken(
    record: V4TrainingStateRecordView,
    held: V4TrainingStateRecordView,
)
    ensures
        state_taken(record, None),
        ({
            let same_plan = record.plan_generation == held.plan_generation;
            let same_members = same_plan && record.membership_epoch == held.membership_epoch;
            let same_term = same_members && record.coordination_term == held.coordination_term;
            let same_optimizer = same_term && record.optimizer_generation
                == held.optimizer_generation;
            let same_all = same_optimizer && record.checkpoint_generation
                == held.checkpoint_generation;
            state_taken(record, Some(held)) <==> {
                ||| record.plan_generation > held.plan_generation
                ||| same_plan && record.membership_epoch > held.membership_epoch
                ||| same_members && record.coordination_term > held.coordination_term
                ||| same_term && record.optimizer_generation > held.optimizer_generation
                ||| same_optimizer && record.checkpoint_generation > held.checkpoint_generation
                ||| same_all && record.state_hash == held.state_hash
            }
        }),
{
    let a = state_order(record);
    let b = state_order(held);
    reveal_with_fuel(later, 6);
    assert(a[0] == record.plan_generation && b[0] == held.plan_generation);
    assert(a[1] == record.membership_epoch && b[1] == held.membership_epoch);
    assert(a[2] == record.coordination_term && b[2] == held.coordination_term);
    assert(a[3] == record.optimizer_generation && b[3] == held.optimizer_generation);
    assert(a[4] == record.checkpoint_generation && b[4] == held.checkpoint_generation);
    let a1 = a.drop_first();
    let b1 = b.drop_first();
    let a2 = a1.drop_first();
    let b2 = b1.drop_first();
    let a3 = a2.drop_first();
    let b3 = b2.drop_first();
    let a4 = a3.drop_first();
    let b4 = b3.drop_first();
    let a5 = a4.drop_first();
    let b5 = b4.drop_first();
    assert(a1[0] == a[1] && b1[0] == b[1]);
    assert(a2[0] == a[2] && b2[0] == b[2]);
    assert(a3[0] == a[3] && b3[0] == b[3]);
    assert(a4[0] == a[4] && b4[0] == b[4]);
    assert(a5.len() == 0 && b5.len() == 0);
    assert(!later(a5, b5));
    assert(a == b <==> a =~= b);
}

/// An optimizer record is taken when it is newer than the one held, or the same; a
/// checkpoint when it is of a later generation, or the same. With none held, either is.
pub proof fn law_later_records_are_taken(
    record: V4OptimizerShardRecordView,
    held: V4OptimizerShardRecordView,
    manifest: V4CheckpointRecordView,
    kept: V4CheckpointRecordView,
)
    ensures
        optimizer_taken(record, None),
        optimizer_taken(record, Some(held)) <==> (record.optimizer_generation
            > held.optimizer_generation || (record.optimizer_generation == held.optimizer_generation
            && record.state_hash == held.state_hash)),
        checkpoint_taken(manifest, None),
        checkpoint_taken(manifest, Some(kept)) <==> (manifest.checkpoint_generation
            > kept.checkpoint_generation || manifest.manifest_hash == kept.manifest_hash),
{
}

/// An acknowledgement confirms the copy at the peer that sent it, of the kind and with
/// the hash that it names.
pub proof fn law_acknowledgement_confirms_one_copy(peer: NodeId, ack: V4StateAck)
    ensures
        confirmed_copy(peer, ack).peer == peer,
        confirmed_copy(peer, ack).kind == ack.kind,
        confirmed_copy(peer, ack).state_hash == ack.state_hash,
{
}

} // verus!
