//! Integrated jobs: the first graph and plan, aggregation groups, the layout of
//! the reference tensor and the job state record.

use crate::base::arith::{max_int, min_int, sat_mul_u16, sat_u16, sat_u64};
use crate::base::ids::{unsigned_hash, ArtifactId, NodeId};
use crate::base::members::{filter_other_than, first_other_than};
use crate::base::record::duplicate_all;
use crate::base::search::{find, lemma_views_push, other_than, views};
use crate::frontier::types::{
    V4AggregationGroup, V4AggregationGroupView, V4ExecutionGraph, V4ExecutionGraphView,
    V4IntegratedPhase, V4IntegratedStateRecord, V4OptimizerPlacement, V4OptimizerPlacementView,
    V4ParallelismStrategy, V4PipelineStageAssignment, V4PipelineStageAssignmentView,
    V4ShardLifecycle, V4ShardOwnership, V4ShardOwnershipView, V4TensorGroup, V4TensorGroupView,
    V4TrainingPlan, V4TrainingPlanView,
};
use vstd::prelude::*;

verus! {

/// The fewest workers that an integrated job starts with.
pub const INTEGRATED_MIN_WORKERS: usize = 4;

/// The most workers that an integrated job runs on.
pub const INTEGRATED_MAX_WORKERS: usize = 16;

/// The most windows that an integrated job trains.
pub const INTEGRATED_MAX_WINDOWS: u64 = 4096;

/// The bytes of the reference model of an integrated job.
pub const INTEGRATED_MODEL_BYTES: u64 = 4096;

/// The job state on a graph, before its hash is set.
pub open spec fn state_on(
    graph: V4ExecutionGraphView,
    phase: V4IntegratedPhase,
    window: u64,
    target_windows: u64,
    initial_loss_micros: i64,
    current_loss_micros: i64,
    recovery_count: u32,
) -> V4IntegratedStateRecord {
    V4IntegratedStateRecord {
        job_id: graph.job_id,
        graph_generation: graph.graph_generation,
        plan_hash: graph.plan_hash,
        branch: graph.branch,
        coordinator: graph.coordinator,
        phase,
        window,
        target_windows,
        initial_loss_micros,
        current_loss_micros,
        checkpoint_generation: graph.checkpoint_generation,
        model_generation: graph.shards[0].model_generation,
        optimizer_generation: graph.optimizer_generation,
        membership_epoch: graph.membership_epoch,
        collective_generation: graph.collective_generation,
        recovery_count,
        state_hash: unsigned_hash(),
    }
}

/// The job state on a graph, before its hash is set.
pub fn integrated_state(
    graph: &V4ExecutionGraph,
    phase: V4IntegratedPhase,
    window: u64,
    target_windows: u64,
    initial_loss_micros: i64,
    current_loss_micros: i64,
    recovery_count: u32,
) -> (r: V4IntegratedStateRecord)
    requires
        graph@.shards.len() > 0,
    ensures
        r == state_on(
            graph@,
            phase,
            window,
            target_windows,
            initial_loss_micros,
            current_loss_micros,
            recovery_count,
        ),
{
    assert(graph@.shards[0] == graph.shards@[0]@);
    V4IntegratedStateRecord {
        job_id: graph.job_id,
        graph_generation: graph.graph_generation,
        plan_hash: graph.plan_hash,
        branch: graph.branch,
        coordinator: graph.coordinator,
        phase,
        window,
        target_windows,
        initial_loss_micros,
        current_loss_micros,
        checkpoint_generation: graph.checkpoint_generation,
        model_generation: graph.shards[0].model_generation,
        optimizer_generation: graph.optimizer_generation,
        membership_epoch: graph.membership_epoch,
        collective_generation: graph.collective_generation,
        recovery_count,
        state_hash: ArtifactId::unsigned(),
    }
}

/// The first member other than `avoid`, or the first one.
pub open spec fn root_of(members: Seq<NodeId>, avoid: NodeId) -> NodeId {
    match find(members, other_than(avoid)) {
        Some(n) => n,
        None => members[0],
    }
}

/// Where the workers are split into two groups.
pub open spec fn group_split(workers: int) -> int {
    min_int(max_int(workers / 2, 2), workers - 2)
}

/// The aggregation groups: one below four workers, else two halves that are
/// each other's parent.
pub open spec fn groups_of(workers: Seq<NodeId>, avoid: NodeId) -> Seq<V4AggregationGroupView> {
    if workers.len() < 4 {
        seq![
            V4AggregationGroupView {
                group_id: 0,
                members: workers,
                aggregator: root_of(workers, avoid),
                parent: None,
            },
        ]
    } else {
        let split = group_split(workers.len() as int);
        let left = workers.take(split);
        let right = workers.skip(split);
        seq![
            V4AggregationGroupView {
                group_id: 0,
                members: left,
                aggregator: root_of(left, avoid),
                parent: Some(root_of(right, avoid)),
            },
            V4AggregationGroupView {
                group_id: 1,
                members: right,
                aggregator: root_of(right, avoid),
                parent: Some(root_of(left, avoid)),
            },
        ]
    }
}

fn choose_root(members: &Vec<NodeId>, avoid: NodeId) -> (r: NodeId)
    requires
        members@.len() > 0,
    ensures
        r == root_of(members@, avoid),
{
    match first_other_than(members, avoid) {
        Some(n) => n,
        None => members[0],
    }
}

fn part(ids: &Vec<NodeId>, from: usize, to: usize) -> (r: Vec<NodeId>)
    requires
        from <= to <= ids@.len(),
    ensures
        r@ == ids@.subrange(from as int, to as int),
{
    let mut out: Vec<NodeId> = Vec::new();
    let mut i: usize = from;
    while i < to
        invariant
            from <= i <= to <= ids@.len(),
            out@ == ids@.subrange(from as int, i as int),
        decreases to - i,
    {
        out.push(ids[i]);
        assert(out@ =~= ids@.subrange(from as int, i as int + 1));
        i += 1;
    }
    out
}

pub fn integrated_groups(workers: &Vec<NodeId>, avoid_aggregator: NodeId) -> (r: Vec<
    V4AggregationGroup,
>)
    requires
        workers@.len() > 0,
    ensures
        views(r@) == groups_of(workers@, avoid_aggregator),
{
    let mut out: Vec<V4AggregationGroup> = Vec::new();
    if workers.len() < 4 {
        out.push(
            V4AggregationGroup {
                group_id: 0,
                members: workers.clone(),
                aggregator: choose_root(workers, avoid_aggregator),
                parent: None,
            },
        );
        assert(views(out@) =~= groups_of(workers@, avoid_aggregator));
        return out;
    }
    let half: usize = if workers.len() / 2 < 2 {
        2
    } else {
        workers.len() / 2
    };
    let split: usize = if half < workers.len() - 2 {
        half
    } else {
        workers.len() - 2
    };
    let left = part(workers, 0, split);
    let right = part(workers, split, workers.len());
    proof {
        assert(left@ =~= workers@.take(split as int));
        assert(right@ =~= workers@.skip(split as int));
    }
    let left_root = choose_root(&left, avoid_aggregator);
    let right_root = choose_root(&right, avoid_aggregator);
    out.push(
        V4AggregationGroup {
            group_id: 0,
            members: left,
            aggregator: left_root,
            parent: Some(right_root),
        },
    );
    out.push(
        V4AggregationGroup {
            group_id: 1,
            members: right,
            aggregator: right_root,
            parent: Some(left_root),
        },
    );
    assert(views(out@) =~= groups_of(workers@, avoid_aggregator));
    out
}

/// Every worker is in exactly one group, every group has a member as its
/// aggregator, and no group has fewer than two members unless there are fewer
/// than four workers.
pub proof fn law_integrated_groups_partition(workers: Seq<NodeId>, avoid: NodeId)
    requires
        workers.len() > 0,
    ensures
        ({
            let g = groups_of(workers, avoid);
            &&& workers.len() < 4 ==> g.len() == 1 && g[0].members == workers
            &&& workers.len() >= 4 ==> g.len() == 2 && g[0].members + g[1].members == workers
                && g[0].members.len() >= 2 && g[1].members.len() >= 2 && g[0].parent == Some(
                g[1].aggregator,
            ) && g[1].parent == Some(g[0].aggregator)
            &&& forall|i: int|
                0 <= i < g.len() ==> (#[trigger] g[i]).members.contains(g[i].aggregator)
        }),
{
    let g = groups_of(workers, avoid);
    let split = group_split(workers.len() as int);
    if workers.len() >= 4 {
        assert(workers.take(split) + workers.skip(split) =~= workers);
        lemma_root_is_member(workers.take(split), avoid);
        lemma_root_is_member(workers.skip(split), avoid);
    } else {
        lemma_root_is_member(workers, avoid);
    }
}

proof fn lemma_root_is_member(members: Seq<NodeId>, avoid: NodeId)
    requires
        members.len() > 0,
    ensures
        members.contains(root_of(members, avoid)),
{
    crate::base::search::lemma_find_sound(members, other_than(avoid));
    assert(members.contains(members[0]));
}

/// A coordinator aggregates a group only where it is alone in it.
pub proof fn law_coordinator_avoids_aggregation(members: Seq<NodeId>, avoid: NodeId, other: NodeId)
    requires
        members.contains(other),
        other != avoid,
    ensures
        root_of(members, avoid) != avoid,
{
    crate::base::search::lemma_find_sound(members, other_than(avoid));
    let k = choose|k: int| 0 <= k < members.len() && members[k] == other;
    if find(members, other_than(avoid)) is None {
        assert(!other_than(avoid)(members[k]));
    }
}

/// The first weights of a row shard of the reference tensor.
pub open spec fn first_weights(shard_id: u16) -> Seq<i64> {
    if shard_id == 0 {
        seq![1i64, 0, 0, 1, 1, 1, 2, 0]
    } else {
        seq![0i64, 2, 1, 1, 1, 0, 1, 2]
    }
}

pub fn initial_tensor_weights(shard_id: u16) -> (r: Vec<i64>)
    ensures
        r@ == first_weights(shard_id),
{
    let r: Vec<i64> = if shard_id == 0 {
        vec![1, 0, 0, 1, 1, 1, 2, 0]
    } else {
        vec![0, 2, 1, 1, 1, 0, 1, 2]
    };
    assert(r@ =~= first_weights(shard_id));
    r
}

/// The weights, rows, columns and row offset of a tensor shard.
pub open spec fn tensor_layout(shard_id: u16, shard_count: int) -> (Seq<i64>, u16, u16, u16) {
    if shard_count == 4 && 2 <= shard_id <= 5 {
        let split = shard_id - 2;
        (
            first_weights((split / 2) as u16).subrange((split % 2) * 4, (split % 2) * 4 + 4),
            1,
            4,
            ((split / 2) * 2 + split % 2) as u16,
        )
    } else {
        (first_weights(shard_id), 2, 4, sat_u16(shard_id * 2) as u16)
    }
}

pub fn integrated_tensor_layout(shard_id: u16, shard_count: usize) -> (r: (Vec<i64>, u16, u16, u16))
    ensures
        (r.0@, r.1, r.2, r.3) == tensor_layout(shard_id, shard_count as int),
{
    if shard_count == 4 && 2 <= shard_id && shard_id <= 5 {
        let split_id: u16 = shard_id - 2;
        let source_shard: u16 = split_id / 2;
        let source_row: usize = (split_id % 2) as usize;
        let source = initial_tensor_weights(source_shard);
        let start: usize = source_row * 4;
        let mut weights: Vec<i64> = Vec::new();
        let mut i: usize = 0;
        while i < 4
            invariant
                0 <= i <= 4,
                start == 0 || start == 4,
                source@.len() == 8,
                weights@ == source@.subrange(start as int, start + i),
            decreases 4 - i,
        {
            weights.push(source[start + i]);
            assert(weights@ =~= source@.subrange(start as int, start + i + 1));
            i += 1;
        }
        return (weights, 1, 4, source_shard * 2 + split_id % 2);
    }
    (initial_tensor_weights(shard_id), 2, 4, sat_mul_u16(shard_id, 2))
}

/// Splitting the two row shards gives four one-row shards that tile the same
/// tensor: the rows of shard zero first, then those of shard one.
pub proof fn law_split_layout_tiles_tensor()
    ensures
        tensor_layout(2, 4).0 + tensor_layout(3, 4).0 == tensor_layout(0, 2).0,
        tensor_layout(4, 4).0 + tensor_layout(5, 4).0 == tensor_layout(1, 2).0,
        tensor_layout(2, 4).3 == 0,
        tensor_layout(3, 4).3 == 1,
        tensor_layout(4, 4).3 == 2,
        tensor_layout(5, 4).3 == 3,
        tensor_layout(0, 2).3 == 0,
        tensor_layout(1, 2).3 == 2,
        forall|id: u16|
            2 <= id <= 5 ==> (#[trigger] tensor_layout(id, 4)).1 == 1 && tensor_layout(id, 4).2 == 4
                && tensor_layout(id, 4).0.len() == 4,
{
    assert(tensor_layout(2, 4).0 + tensor_layout(3, 4).0 =~= tensor_layout(0, 2).0);
    assert(tensor_layout(4, 4).0 + tensor_layout(5, 4).0 =~= tensor_layout(1, 2).0);
}

/// Why the reference shards cannot be split.
#[derive(Clone, Copy, Debug, PartialEq, Eq, Structural)]
pub enum SplitError {
    /// There are not two source shards and four workers.
    Shape,
    /// A source shard is not one of the two reference shards.
    SourceIdentity,
}

/// The first two of the workers other than `owner`, going round where there
/// are fewer.
pub open spec fn split_replicas(workers: Seq<NodeId>, owner: NodeId) -> Seq<NodeId> {
    let others = workers.filter(other_than(owner));
    if others.len() == 0 {
        Seq::empty()
    } else {
        Seq::new(2, |i: int| others[i % (others.len() as int)])
    }
}

/// The half numbered `part` of a split source shard. `hashes` are the hashes of
/// the four one-row shards, in ascending order of number.
pub open spec fn split_part(
    source: V4ShardOwnershipView,
    workers: Seq<NodeId>,
    hashes: Seq<ArtifactId>,
    part: int,
) -> V4ShardOwnershipView {
    let index = source.shard_id * 2 + part;
    let owner = workers[index % (workers.len() as int)];
    V4ShardOwnershipView {
        shard_id: (2 + index) as u16,
        model_generation: source.model_generation,
        owners: seq![owner],
        replicas: split_replicas(workers, owner),
        ownership_generation: sat_u64(source.ownership_generation + 1) as u64,
        content_hash: hashes[index],
        state_bytes: 32,
        memory_bytes: 64,
        runtime_requirement: "reference.cpu.i64.tensor-row.split"@,
        lifecycle: V4ShardLifecycle::Active,
    }
}

/// The parts of the first `n` source shards.
pub open spec fn split_parts(
    sources: Seq<V4ShardOwnershipView>,
    workers: Seq<NodeId>,
    hashes: Seq<ArtifactId>,
    n: int,
) -> Seq<V4ShardOwnershipView>
    decreases n,
{
    if n <= 0 {
        Seq::empty()
    } else {
        split_parts(sources, workers, hashes, n - 1).push(
            split_part(sources[n - 1], workers, hashes, 0),
        ).push(split_part(sources[n - 1], workers, hashes, 1))
    }
}

fn pick_split_replicas(workers: &Vec<NodeId>, owner: NodeId) -> (r: Vec<NodeId>)
    ensures
        r@ == split_replicas(workers@, owner),
{
    let others = filter_other_than(workers, owner);
    let mut out: Vec<NodeId> = Vec::new();
    if others.len() > 0 {
        out.push(others[0]);
        out.push(others[1 % others.len()]);
    }
    proof {
        if others@.len() > 0 {
            vstd::arithmetic::div_mod::lemma_small_mod(0, others@.len());
        }
        assert(out@ =~= split_replicas(workers@, owner));
    }
    out
}

fn make_split_part(
    source: &V4ShardOwnership,
    workers: &Vec<NodeId>,
    hashes: &Vec<ArtifactId>,
    part: u16,
) -> (r: V4ShardOwnership)
    requires
        source.shard_id <= 1,
        part <= 1,
        workers@.len() > 0,
        hashes@.len() == 4,
    ensures
        r@ == split_part(source@, workers@, hashes@, part as int),
{
    let index: u16 = source.shard_id * 2 + part;
    let owner = workers[index as usize % workers.len()];
    let mut owners: Vec<NodeId> = Vec::new();
    owners.push(owner);
    let shard = V4ShardOwnership {
        shard_id: 2 + index,
        model_generation: source.model_generation,
        owners,
        replicas: pick_split_replicas(workers, owner),
        ownership_generation: source.ownership_generation.saturating_add(1),
        content_hash: hashes[index as usize],
        state_bytes: 32,
        memory_bytes: 64,
        runtime_requirement: "reference.cpu.i64.tensor-row.split".to_owned(),
        lifecycle: V4ShardLifecycle::Active,
    };
    assert(shard@ =~= split_part(source@, workers@, hashes@, part as int));
    shard
}

/// Split the two reference shards into four. `hashes` are the hashes of the
/// one-row shards numbered two to five.
pub fn split_integrated_reference_shards(
    sources: &Vec<V4ShardOwnership>,
    workers: &Vec<NodeId>,
    hashes: &Vec<ArtifactId>,
) -> (r: Result<Vec<V4ShardOwnership>, SplitError>)
    requires
        hashes@.len() == 4,
    ensures
        ({
            let s = views(sources@);
            match r {
                Ok(parts) => s.len() == 2 && workers@.len() >= 4 && s[0].shard_id <= 1
                    && s[1].shard_id <= 1 && views(parts@) == split_parts(
                    s,
                    workers@,
                    hashes@,
                    2,
                ),
                Err(SplitError::Shape) => s.len() != 2 || workers@.len() < 4,
                Err(SplitError::SourceIdentity) => s.len() == 2 && workers@.len() >= 4 && (
                s[0].shard_id > 1 || s[1].shard_id > 1),
            }
        }),
{
    if sources.len() != 2 || workers.len() < 4 {
        return Err(SplitError::Shape);
    }
    let ghost s = views(sources@);
    assert(s[0] == sources@[0]@ && s[1] == sources@[1]@);
    let mut out: Vec<V4ShardOwnership> = Vec::new();
    let mut i: usize = 0;
    assert(views(out@) =~= split_parts(s, workers@, hashes@, 0));
    while i < 2
        invariant
            0 <= i <= 2,
            s == views(sources@),
            s.len() == 2,
            workers@.len() >= 4,
            hashes@.len() == 4,
            forall|j: int| 0 <= j < i ==> (#[trigger] s[j]).shard_id <= 1,
            views(out@) == split_parts(s, workers@, hashes@, i as int),
        decreases 2 - i,
    {
        assert(s[i as int] == sources@[i as int]@);
        if sources[i].shard_id > 1 {
            return Err(SplitError::SourceIdentity);
        }
        let first = make_split_part(&sources[i], workers, hashes, 0);
        let second = make_split_part(&sources[i], workers, hashes, 1);
        proof {
            lemma_views_push(out@, first);
            lemma_views_push(out@.push(first), second);
        }
        out.push(first);
        out.push(second);
        i += 1;
    }
    Ok(out)
}

/// Why no integrated job is built.
#[derive(Clone, Copy, Debug, PartialEq, Eq, Structural)]
pub enum BuildError {
    /// The number of workers is out of bounds.
    WorkerCount,
    /// The windows or the checkpoint interval are out of bounds.
    Windows,
    /// Too few peers are reachable.
    TooFewPeers(usize),
    /// The planner selected too few workers.
    TooFewSelected(usize),
}

/// Check a request for an integrated job.
pub fn check_integrated_request(
    requested_workers: usize,
    windows: u64,
    checkpoint_every: u64,
) -> (r: Result<(), BuildError>)
    ensures
        r == (if !(INTEGRATED_MIN_WORKERS <= requested_workers <= INTEGRATED_MAX_WORKERS) {
            Err(BuildError::WorkerCount)
        } else if windows == 0 || windows > INTEGRATED_MAX_WINDOWS || checkpoint_every == 0 {
            Err(BuildError::Windows)
        } else {
            Ok(())
        }),
{
    if requested_workers < INTEGRATED_MIN_WORKERS || requested_workers > INTEGRATED_MAX_WORKERS {
        return Err(BuildError::WorkerCount);
    }
    if windows == 0 || windows > INTEGRATED_MAX_WINDOWS || checkpoint_every == 0 {
        return Err(BuildError::Windows);
    }
    Ok(())
}

/// The memory that a worker needs for its shard: twice its share of the model,
/// rounded up.
pub open spec fn shard_memory(requested_workers: int) -> int {
    let n = max_int(requested_workers, 2);
    ((INTEGRATED_MODEL_BYTES + n - 1) / n) * 2
}

/// The memory that a worker needs for its shard.
pub fn required_shard_memory(requested_workers: usize) -> (r: u64)
    requires
        requested_workers <= INTEGRATED_MAX_WORKERS,
    ensures
        r == shard_memory(requested_workers as int),
{
    let n: u64 = if requested_workers < 2 {
        2
    } else {
        requested_workers as u64
    };
    assert(((4096 + n - 1) / (n as int)) * 2 <= 8194) by (nonlinear_arith)
        requires
            2 <= n <= 16,
    ;
    ((INTEGRATED_MODEL_BYTES + n - 1) / n) * 2
}

/// The shard at position `i` of a new integrated job.
pub open spec fn first_shard(workers: Seq<NodeId>, hashes: Seq<ArtifactId>, i: int) ->
    V4ShardOwnershipView {
    V4ShardOwnershipView {
        shard_id: i as u16,
        model_generation: 1,
        owners: seq![workers[i]],
        replicas: seq![workers[i + 2]],
        ownership_generation: 1,
        content_hash: hashes[i],
        state_bytes: 64,
        memory_bytes: 128,
        runtime_requirement: "reference.cpu.i64.tensor-row"@,
        lifecycle: V4ShardLifecycle::Active,
    }
}

/// The stage at position `i` of a new integrated job.
pub open spec fn first_stage(workers: Seq<NodeId>, i: int) -> V4PipelineStageAssignmentView {
    V4PipelineStageAssignmentView {
        stage_id: i as u16,
        worker: workers[i + 2],
        replicas: seq![workers[i]],
        generation: 1,
    }
}

/// The plan of a new integrated job, before its backends are bound.
pub open spec fn integrated_plan(
    decision: V4TrainingPlanView,
    hashes: Seq<ArtifactId>,
) -> V4TrainingPlanView {
    let workers = decision.workers;
    V4TrainingPlanView {
        proposer: workers[0],
        groups: groups_of(workers, workers[0]),
        shards: seq![first_shard(workers, hashes, 0), first_shard(workers, hashes, 1)],
        ..decision
    }
}

/// The stages of a new integrated job.
pub open spec fn integrated_stages(workers: Seq<NodeId>) -> Seq<V4PipelineStageAssignmentView> {
    seq![first_stage(workers, 0), first_stage(workers, 1)]
}

fn make_first_shard(workers: &Vec<NodeId>, hashes: &Vec<ArtifactId>, i: usize) -> (r:
    V4ShardOwnership)
    requires
        i < 2,
        workers@.len() >= 4,
        hashes@.len() == 2,
    ensures
        r@ == first_shard(workers@, hashes@, i as int),
{
    let mut owners: Vec<NodeId> = Vec::new();
    owners.push(workers[i]);
    let mut replicas: Vec<NodeId> = Vec::new();
    replicas.push(workers[i + 2]);
    let shard = V4ShardOwnership {
        shard_id: i as u16,
        model_generation: 1,
        owners,
        replicas,
        ownership_generation: 1,
        content_hash: hashes[i],
        state_bytes: 64,
        memory_bytes: 128,
        runtime_requirement: "reference.cpu.i64.tensor-row".to_owned(),
        lifecycle: V4ShardLifecycle::Active,
    };
    assert(shard@ =~= first_shard(workers@, hashes@, i as int));
    shard
}

/// The plan and the stages of a new integrated job from the planner's decision.
/// `hashes` are the hashes of the two reference shards.
pub fn plan_integrated_job(
    decision: V4TrainingPlan,
    requested_workers: usize,
    hashes: &Vec<ArtifactId>,
) -> (r: Result<(V4TrainingPlan, Vec<V4PipelineStageAssignment>), BuildError>)
    requires
        hashes@.len() == 2,
    ensures
        ({
            let n = decision@.workers.len();
            match r {
                Ok((plan, stages)) => n >= INTEGRATED_MIN_WORKERS && n >= requested_workers
                    && plan@ == integrated_plan(decision@, hashes@) && views(stages@)
                    == integrated_stages(decision@.workers),
                Err(e) => (n < INTEGRATED_MIN_WORKERS || n < requested_workers) && e
                    == BuildError::TooFewSelected(n as usize),
            }
        }),
{
    let n = decision.workers.len();
    if n < INTEGRATED_MIN_WORKERS || n < requested_workers {
        return Err(BuildError::TooFewSelected(n));
    }
    let mut plan = decision;
    let coordinator = plan.workers[0];
    let groups = integrated_groups(&plan.workers, coordinator);
    let mut shards: Vec<V4ShardOwnership> = Vec::new();
    shards.push(make_first_shard(&plan.workers, hashes, 0));
    shards.push(make_first_shard(&plan.workers, hashes, 1));
    assert(views(shards@) =~= seq![
        first_shard(decision@.workers, hashes@, 0),
        first_shard(decision@.workers, hashes@, 1),
    ]);
    let mut stages: Vec<V4PipelineStageAssignment> = Vec::new();
    let mut i: usize = 0;
    while i < 2
        invariant
            0 <= i <= 2,
            plan@.workers.len() >= 4,
            views(stages@) == integrated_stages(plan@.workers).take(i as int),
        decreases 2 - i,
    {
        let mut replicas: Vec<NodeId> = Vec::new();
        replicas.push(plan.workers[i]);
        let stage = V4PipelineStageAssignment {
            stage_id: i as u16,
            worker: plan.workers[i + 2],
            replicas,
            generation: 1,
        };
        proof {
            assert(stage@ =~= first_stage(plan@.workers, i as int));
            lemma_views_push(stages@, stage);
            assert(integrated_stages(plan@.workers).take(i as int + 1) =~= integrated_stages(
                plan@.workers,
            ).take(i as int).push(stage@));
        }
        stages.push(stage);
        i += 1;
    }
    assert(integrated_stages(plan@.workers).take(2) =~= integrated_stages(plan@.workers));
    plan.proposer = coordinator;
    plan.groups = groups;
    plan.shards = shards;
    Ok((plan, stages))
}

/// Where the optimizer state of each shard lives: with the shard.
pub open spec fn placements(shards: Seq<V4ShardOwnershipView>, generation: u64) -> Seq<
    V4OptimizerPlacementView,
> {
    shards.map_values(
        |s: V4ShardOwnershipView|
            V4OptimizerPlacementView {
                shard_id: s.shard_id,
                owner: s.owners[0],
                replicas: s.replicas,
                generation,
            },
    )
}

/// Where the optimizer state of each shard lives: with the shard.
pub fn optimizer_placements(shards: &Vec<V4ShardOwnership>, generation: u64) -> (r: Vec<
    V4OptimizerPlacement,
>)
    requires
        forall|i: int| 0 <= i < shards@.len() ==> (#[trigger] views(shards@)[i]).owners.len() > 0,
    ensures
        views(r@) == placements(views(shards@), generation),
{
    let ghost s = views(shards@);
    let ghost all = placements(s, generation);
    let mut out: Vec<V4OptimizerPlacement> = Vec::new();
    let mut i: usize = 0;
    assert(views(out@) =~= all.take(0));
    while i < shards.len()
        invariant
            0 <= i <= shards@.len(),
            s == views(shards@),
            all == placements(s, generation),
            forall|i: int| 0 <= i < shards@.len() ==> (#[trigger] s[i]).owners.len() > 0,
            views(out@) == all.take(i as int),
        decreases shards@.len() - i,
    {
        assert(s[i as int] == shards@[i as int]@);
        let placement = V4OptimizerPlacement {
            shard_id: shards[i].shard_id,
            owner: shards[i].owners[0],
            replicas: shards[i].replicas.clone(),
            generation,
        };
        proof {
            lemma_views_push(out@, placement);
            assert(all.take(i as int + 1) =~= all.take(i as int).push(placement@));
        }
        out.push(placement);
        i += 1;
    }
    assert(all.take(i as int) =~= all);
    out
}

/// The first graph of an integrated job, before its hash is set.
pub open spec fn first_graph(
    plan: V4TrainingPlanView,
    stages: Seq<V4PipelineStageAssignmentView>,
    reply_to: NodeId,
) -> V4ExecutionGraphView {
    V4ExecutionGraphView {
        job_id: plan.job_id,
        graph_generation: 1,
        parent_graph_generation: None,
        proposer: plan.proposer,
        coordinator: plan.proposer,
        reply_to,
        plan_hash: plan.plan_hash,
        branch: plan.branch,
        training_epoch: plan.training_epoch,
        membership_epoch: plan.membership_epoch,
        coordination_term: plan.coordination_term,
        optimizer_generation: 1,
        checkpoint_generation: 1,
        workers: plan.workers,
        tensor_groups: seq![
            V4TensorGroupView {
                group_id: 0,
                members: plan.workers.take(2),
                shard_ids: seq![0u16, 1],
                generation: 1,
            },
        ],
        pipeline_stages: stages,
        aggregation_groups: plan.groups,
        shards: plan.shards,
        optimizer_shards: placements(plan.shards, 1),
        collective_generation: 1,
        local_steps: 1,
        max_staleness: 2,
        checkpoint_replication: 2,
        strategy: V4ParallelismStrategy::Hybrid,
        retired_workers: Seq::empty(),
        election_certificate: Seq::empty(),
        backend_assignments: plan.backend_assignments,
        graph_hash: unsigned_hash(),
    }
}

/// The first graph of an integrated job, before its hash is set. The plan is
/// the bound one with its hash.
pub fn build_integrated_start(
    plan: &V4TrainingPlan,
    stages: &Vec<V4PipelineStageAssignment>,
    reply_to: NodeId,
) -> (r: V4ExecutionGraph)
    requires
        plan@.workers.len() >= 2,
        forall|i: int|
            0 <= i < plan@.shards.len() ==> (#[trigger] plan@.shards[i]).owners.len() > 0,
    ensures
        r@ == first_graph(plan@, views(stages@), reply_to),
{
    let members = part(&plan.workers, 0, 2);
    assert(members@ =~= plan@.workers.take(2));
    let mut shard_ids: Vec<u16> = Vec::new();
    shard_ids.push(0);
    shard_ids.push(1);
    assert(shard_ids@ =~= seq![0u16, 1]);
    let mut tensor_groups: Vec<V4TensorGroup> = Vec::new();
    tensor_groups.push(V4TensorGroup { group_id: 0, members, shard_ids, generation: 1 });
    assert(views(tensor_groups@) =~= first_graph(plan@, views(stages@), reply_to).tensor_groups);
    V4ExecutionGraph {
        job_id: plan.job_id,
        graph_generation: 1,
        parent_graph_generation: None,
        proposer: plan.proposer,
        coordinator: plan.proposer,
        reply_to,
        plan_hash: plan.plan_hash,
        branch: plan.branch,
        training_epoch: plan.training_epoch,
        membership_epoch: plan.membership_epoch,
        coordination_term: plan.coordination_term,
        optimizer_generation: 1,
        checkpoint_generation: 1,
        workers: plan.workers.clone(),
        tensor_groups,
        pipeline_stages: duplicate_all(stages),
        aggregation_groups: duplicate_all(&plan.groups),
        shards: duplicate_all(&plan.shards),
        optimizer_shards: optimizer_placements(&plan.shards, 1),
        collective_generation: 1,
        local_steps: 1,
        max_staleness: 2,
        checkpoint_replication: 2,
        strategy: V4ParallelismStrategy::Hybrid,
        retired_workers: Vec::new(),
        election_certificate: Vec::new(),
        backend_assignments: duplicate_all(&plan.backend_assignments),
        graph_hash: ArtifactId::unsigned(),
    }
}

/// In a new integrated job the tensor owners and the pipeline stages are four
/// different workers, and every shard has its replica on another worker.
pub proof fn law_first_roles_are_distinct(decision: V4TrainingPlanView, hashes: Seq<ArtifactId>)
    requires
        decision.workers.len() >= 4,
        decision.workers.no_duplicates(),
    ensures
        ({
            let p = integrated_plan(decision, hashes);
            let s = integrated_stages(decision.workers);
            &&& p.shards[0].owners[0] != p.shards[1].owners[0]
            &&& s[0].worker != s[1].worker
            &&& forall|i: int, j: int|
                0 <= i < 2 && 0 <= j < 2 ==> (#[trigger] p.shards[i]).owners[0] != (
                #[trigger] s[j]).worker
            &&& forall|i: int|
                0 <= i < 2 ==> (#[trigger] p.shards[i]).replicas[0] != p.shards[i].owners[0]
        }),
{
}

/// The state on a graph is of the graph's job, branch, generations and coordinator, at
/// the window, phase and losses that it is given.
pub proof fn law_state_is_of_the_graph(
    graph: V4ExecutionGraphView,
    phase: V4IntegratedPhase,
    window: u64,
    target: u64,
    initial: i64,
    current: i64,
    recoveries: u32,
)
    ensures
        ({
            let s = state_on(graph, phase, window, target, initial, current, recoveries);
            &&& s.job_id == graph.job_id && s.branch == graph.branch
            &&& s.graph_generation == graph.graph_generation && s.plan_hash == graph.plan_hash
            &&& s.coordinator == graph.coordinator
            &&& s.phase == phase && s.window == window && s.target_windows == target
            &&& s.initial_loss_micros == initial && s.current_loss_micros == current
            &&& s.recovery_count == recoveries
            &&& s.checkpoint_generation == graph.checkpoint_generation
            &&& s.optimizer_generation == graph.optimizer_generation
            &&& s.membership_epoch == graph.membership_epoch
            &&& s.collective_generation == graph.collective_generation
            &&& s.model_generation == graph.shards[0].model_generation
        }),
{
}

/// Four or more workers make two groups of at least two, each the parent of the other,
/// split in the middle; fewer make one group without a parent.
pub proof fn law_groups_are_halves(workers: Seq<NodeId>, avoid: NodeId, i: int)
    requires
        0 <= i < workers.len(),
    ensures
        ({
            let g = groups_of(workers, avoid);
            &&& workers.len() < 4 ==> g.len() == 1 && g[0].group_id == 0 && g[0].members == workers
                && g[0].parent is None
            &&& workers.len() >= 4 ==> {
                &&& g.len() == 2 && g[0].group_id == 0 && g[1].group_id == 1
                &&& g[0].members.len() >= 2 && g[1].members.len() >= 2
                &&& g[0].members.len() == workers.len() / 2
                &&& g[0].members.len() + g[1].members.len() == workers.len()
                &&& i < g[0].members.len() ==> g[0].members[i] == workers[i]
                &&& i >= g[0].members.len() ==> g[1].members[i - g[0].members.len()] == workers[i]
                &&& g[0].parent == Some(g[1].aggregator)
                &&& g[1].parent == Some(g[0].aggregator)
                &&& g[0].members.contains(g[0].aggregator)
                &&& g[1].members.contains(g[1].aggregator)
                &&& g[0].aggregator != avoid && g[1].aggregator != avoid
                    || !workers.no_duplicates()
            }
        }),
{
    if workers.len() >= 4 {
        let split = group_split(workers.len() as int);
        let left = workers.take(split);
        let right = workers.skip(split);
        lemma_root(left, avoid);
        lemma_root(right, avoid);
    }
}

proof fn lemma_root(members: Seq<NodeId>, avoid: NodeId)
    requires
        members.len() >= 2,
    ensures
        members.contains(root_of(members, avoid)),
        members.no_duplicates() ==> root_of(members, avoid) != avoid,
{
    crate::base::search::lemma_find_sound(members, other_than(avoid));
    if find(members, other_than(avoid)) is None {
        assert(!other_than(avoid)(members[0]));
        assert(!other_than(avoid)(members[1]));
    }
    assert(members.contains(members[0]));
}

/// The two row shards of the reference tensor hold two rows of four weights each; split
/// into four they hold one of these rows each, the rows in order.
pub proof fn law_rows_of_the_reference_tensor(shard_id: u16, part: int, k: int)
    requires
        shard_id <= 1,
        0 <= part <= 1,
        0 <= k < 4,
    ensures
        ({
            let whole = tensor_layout(shard_id, 2);
            let half = tensor_layout((2 + 2 * shard_id + part) as u16, 4);
            &&& whole.0.len() == 8 && whole.1 == 2 && whole.2 == 4 && whole.3 == 2 * shard_id
            &&& half.0.len() == 4 && half.1 == 1 && half.2 == 4
            &&& half.3 == whole.3 + part
            &&& half.0[k] == whole.0[4 * part + k]
            &&& whole.0[4 * part + k] == (if shard_id == 0 {
                seq![1i64, 0, 0, 1, 1, 1, 2, 0]
            } else {
                seq![0i64, 2, 1, 1, 1, 0, 1, 2]
            })[4 * part + k]
        }),
{
}

/// A half of a split shard has the next free number and its own hash, one owner in turn,
/// and replicas among the other workers; it keeps the model generation.
pub proof fn law_halves_of_a_shard(
    source: V4ShardOwnershipView,
    workers: Seq<NodeId>,
    hashes: Seq<ArtifactId>,
    part: int,
    i: int,
)
    requires
        source.shard_id <= 1,
        0 <= part <= 1,
        workers.len() >= 4,
        source.ownership_generation < u64::MAX,
        workers.no_duplicates(),
    ensures
        ({
            let index = 2 * source.shard_id + part;
            let h = split_part(source, workers, hashes, part);
            &&& h.shard_id == 2 + index
            &&& h.owners.len() == 1 && h.owners[0] == workers[index]
            &&& h.content_hash == hashes[index]
            &&& h.model_generation == source.model_generation
            &&& h.ownership_generation == source.ownership_generation + 1
            &&& h.lifecycle is Active
            &&& h.state_bytes == 32 && h.memory_bytes == 64
            &&& h.runtime_requirement == "reference.cpu.i64.tensor-row.split"@
            &&& h.replicas.len() == 2
            &&& 0 <= i < 2 ==> workers.contains(h.replicas[i]) && h.replicas[i] != workers[index]
        }),
{
    let index = 2 * source.shard_id + part;
    vstd::arithmetic::div_mod::lemma_small_mod(index as nat, workers.len());
    let owner = workers[index];
    let others = workers.filter(other_than(owner));
    crate::base::search::lemma_filter_contains(workers, other_than(owner));
    let other = if index == 0 {
        workers[1]
    } else {
        workers[0]
    };
    assert(others.contains(other));
    let k = others.index_of(other);
    if 0 <= i < 2 {
        let n = others.len() as int;
        assert(0 <= i % n < n) by (nonlinear_arith)
            requires
                n > 0,
        ;
        assert(others.contains(others[i % n]));
    }
}

/// A worker needs room for twice its share of the 4 KiB model, the share rounded up; a
/// job counts as of at least two workers.
pub proof fn law_shard_memory_is_two_shares(requested_workers: int)
    requires
        requested_workers >= 0,
    ensures
        ({
            let n = if requested_workers < 2 {
                2
            } else {
                requested_workers
            };
            let m = shard_memory(requested_workers);
            &&& m % 2 == 0
            &&& (m / 2) * n >= 4_096
            &&& (m / 2 - 1) * n < 4_096
        }),
{
    let n = if requested_workers < 2 {
        2
    } else {
        requested_workers
    };
    let q = (4_096 + n - 1) / n;
    assert(q * n >= 4_096 && (q - 1) * n < 4_096) by (nonlinear_arith)
        requires
            n >= 2,
            q == (4_096 + n - 1) / n,
    ;
    assert(shard_memory(requested_workers) == q * 2);
}

/// A new integrated job has two shards, on the first two workers with the next two as
/// replicas, and two stages the other way round, all at the first generation.
pub proof fn law_first_layout(decision: V4TrainingPlanView, hashes: Seq<ArtifactId>, i: int)
    requires
        decision.workers.len() >= 4,
        hashes.len() >= 2,
        0 <= i < 2,
    ensures
        ({
            let workers = decision.workers;
            let p = integrated_plan(decision, hashes);
            let stages = integrated_stages(workers);
            &&& p.proposer == workers[0]
            &&& p.workers == workers && p.job_id == decision.job_id
            &&& p.plan_generation == decision.plan_generation
            &&& p.strategy == decision.strategy
            &&& p.shards.len() == 2 && stages.len() == 2
            &&& p.shards[i].shard_id == i
            &&& p.shards[i].owners.len() == 1 && p.shards[i].owners[0] == workers[i]
            &&& p.shards[i].replicas.len() == 1 && p.shards[i].replicas[0] == workers[i + 2]
            &&& p.shards[i].content_hash == hashes[i]
            &&& p.shards[i].model_generation == 1 && p.shards[i].ownership_generation == 1
            &&& p.shards[i].state_bytes == 64 && p.shards[i].memory_bytes == 128
            &&& p.shards[i].lifecycle is Active
            &&& p.shards[i].runtime_requirement == "reference.cpu.i64.tensor-row"@
            &&& stages[i].stage_id == i
            &&& stages[i].worker == workers[i + 2]
            &&& stages[i].replicas.len() == 1 && stages[i].replicas[0] == workers[i]
            &&& stages[i].generation == 1
        }),
{
}

/// The first graph is the plan's: its job, workers, shards, groups and generations, led
/// by the plan's proposer, without a parent and with nobody retired. The optimizer state
/// of each shard lives where the shard does.
pub proof fn law_first_graph_is_of_the_plan(
    plan: V4TrainingPlanView,
    stages: Seq<V4PipelineStageAssignmentView>,
    reply_to: NodeId,
    i: int,
)
    ensures
        ({
            let g = first_graph(plan, stages, reply_to);
            &&& g.job_id == plan.job_id && g.branch == plan.branch && g.plan_hash == plan.plan_hash
            &&& g.graph_generation == 1 && g.parent_graph_generation is None
            &&& g.proposer == plan.proposer && g.coordinator == plan.proposer
            &&& g.reply_to == reply_to
            &&& g.training_epoch == plan.training_epoch
            &&& g.membership_epoch == plan.membership_epoch
            &&& g.coordination_term == plan.coordination_term
            &&& g.optimizer_generation == 1 && g.checkpoint_generation == 1
            &&& g.collective_generation == 1
            &&& g.workers == plan.workers && g.shards == plan.shards
            &&& g.pipeline_stages == stages && g.aggregation_groups == plan.groups
            &&& g.backend_assignments == plan.backend_assignments
            &&& g.strategy is Hybrid
            &&& g.local_steps == 1 && g.max_staleness == 2 && g.checkpoint_replication == 2
            &&& g.retired_workers.len() == 0 && g.election_certificate.len() == 0
            &&& g.tensor_groups.len() == 1
            &&& g.tensor_groups[0].shard_ids.len() == 2 && g.tensor_groups[0].shard_ids[0] == 0
                && g.tensor_groups[0].shard_ids[1] == 1
            &&& plan.workers.len() >= 2 ==> g.tensor_groups[0].members.len() == 2
                && g.tensor_groups[0].members[0] == plan.workers[0]
                && g.tensor_groups[0].members[1] == plan.workers[1]
            &&& g.optimizer_shards.len() == plan.shards.len()
            &&& 0 <= i < plan.shards.len() ==> g.optimizer_shards[i].shard_id
                == plan.shards[i].shard_id && g.optimizer_shards[i].owner
                == plan.shards[i].owners[0] && g.optimizer_shards[i].replicas
                == plan.shards[i].replicas && g.optimizer_shards[i].generation == 1
        }),
{
}

/// The groups of a new integrated job are those of its workers, and its first worker, which
/// leads the job, aggregates in neither.
pub proof fn law_first_groups_are_of_the_workers(
    decision: V4TrainingPlanView,
    hashes: Seq<ArtifactId>,
)
    requires
        decision.workers.len() >= 4,
        decision.workers.no_duplicates(),
    ensures
        ({
            let g = integrated_plan(decision, hashes).groups;
            &&& g.len() == 2
            &&& g[0].members.len() + g[1].members.len() == decision.workers.len()
            &&& g[0].aggregator != decision.workers[0] && g[1].aggregator != decision.workers[0]
            &&& g[0].members.contains(g[0].aggregator) && g[1].members.contains(g[1].aggregator)
        }),
{
    law_groups_are_halves(decision.workers, decision.workers[0], 0);
}

} // verus!
