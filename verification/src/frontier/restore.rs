//! What a node takes up again when it starts.

use crate::base::arith::abs_int;
use crate::base::ids::{ArtifactId, JobId, NodeId};
use crate::base::members::contains_id;
use crate::frontier::authority::Inspection;
use crate::frontier::control::{V4IntegratedElectionRecord, V4IntegratedElectionRequest};
use crate::frontier::local::{
    V4LocalDataShard, V4LocalOptimizerState, V4LocalPipelineStage, V4LocalTensorShard,
};
use crate::frontier::migration::MAX_STATE_BYTES;
use crate::frontier::optimizer::{optimizer_ok, valid_local_optimizer_state};
use crate::frontier::pipeline::MAX_PIPELINE_STAGES;
use crate::frontier::plan::MAX_PLAN_PROPOSALS;
use crate::frontier::replication::{
    V4CheckpointRecord, V4OptimizerShardRecord, V4TrainingStateRecord,
};
use crate::frontier::tensor::{tensor_ok, valid_local_tensor_shard, MAX_TENSOR_SHARDS};
use crate::frontier::types::{
    V4ExecutionGraph, V4ExecutionGraphView, V4IntegratedPhase, V4IntegratedStateRecord,
    V4TrainingPlan,
};
use crate::frontier::voting::decision_on;
use vstd::prelude::*;

verus! {

/// The largest coefficient of a stored pipeline stage.
pub const MAX_COEFFICIENT: i64 = 1_000_000_000;

/// A record that was read from storage, with what was computed from it anew.
#[derive(Debug, PartialEq, Eq)]
pub enum StoredRecord {
    DataShard { data: V4LocalDataShard, computed: ArtifactId },
    TrainingState { training: V4TrainingStateRecord, seen: Inspection },
    IntegratedGraph { graph: V4ExecutionGraph, seen: Inspection },
    IntegratedState { progress: V4IntegratedStateRecord, seen: Inspection },
    IntegratedElection { vote: V4IntegratedElectionRecord, computed: ArtifactId },
    Plan { plan: V4TrainingPlan, seen: Inspection },
    PlanProposal { plan: V4TrainingPlan, seen: Inspection },
    OptimizerState { optimizer: V4LocalOptimizerState, computed: ArtifactId },
    OptimizerShard { replica: V4OptimizerShardRecord, seen: Inspection },
    Checkpoint { checkpoint: V4CheckpointRecord, seen: Inspection },
    TensorShard { tensor: V4LocalTensorShard, computed: ArtifactId },
    PipelineStage { stage: V4LocalPipelineStage, computed: ArtifactId },
}

/// The hash that a record states is the computed one, and its fields are in
/// order.
pub open spec fn intact(stated: ArtifactId, seen: Inspection) -> bool {
    stated == seen.hash && seen.valid
}

/// The stored vote is one that could have been given.
pub open spec fn vote_intact(vote: V4IntegratedElectionRecord, computed: ArtifactId) -> bool {
    vote.vote_hash == computed && vote.graph_generation > 0 && vote.term > 0
}

/// The stored stage is one of a pipeline, with a bounded coefficient.
pub open spec fn stage_intact(stage: V4LocalPipelineStage, computed: ArtifactId) -> bool {
    2 <= stage.stage_count <= 16 && stage.stage_id < stage.stage_count && abs_int(
        stage.coefficient as int,
    ) <= MAX_COEFFICIENT && computed == stage.state_hash
}

/// The record is taken up. `held` is the number of records of its kind that
/// have been taken up before it.
pub open spec fn taken_up(record: StoredRecord, held: int, max_vector: u32) -> bool {
    match record {
        StoredRecord::DataShard { data, computed } => data@.bytes.len() <= MAX_STATE_BYTES
            && computed == data@.hash,
        StoredRecord::TrainingState { training, seen } => intact(training@.state_hash, seen),
        StoredRecord::IntegratedGraph { graph, seen } => intact(graph@.graph_hash, seen),
        StoredRecord::IntegratedState { progress, seen } => intact(progress@.state_hash, seen),
        StoredRecord::IntegratedElection { vote, computed } => vote_intact(vote, computed),
        StoredRecord::Plan { plan, seen } => intact(plan@.plan_hash, seen),
        StoredRecord::PlanProposal { plan, seen } => plan@.parent_plan_hash is Some && intact(
            plan@.plan_hash,
            seen,
        ) && held < MAX_PLAN_PROPOSALS,
        StoredRecord::OptimizerState { optimizer, computed } => optimizer_ok(
            optimizer@,
            max_vector,
            computed,
        ),
        StoredRecord::OptimizerShard { replica, seen } => intact(replica@.state_hash, seen),
        StoredRecord::Checkpoint { checkpoint, seen } => intact(checkpoint@.manifest_hash, seen),
        StoredRecord::TensorShard { tensor, computed } => tensor_ok(tensor@, max_vector, computed)
            && held < MAX_TENSOR_SHARDS,
        StoredRecord::PipelineStage { stage, computed } => stage_intact(stage, computed) && held
            < MAX_PIPELINE_STAGES,
    }
}

fn is_intact(stated: ArtifactId, seen: &Inspection) -> (r: bool)
    ensures
        r == intact(stated, *seen),
{
    stated == seen.hash && seen.valid
}

/// Whether a stored record is taken up. `held` is the number of records of its
/// kind that have been taken up before it.
pub fn restore(record: &StoredRecord, held: usize, max_vector: u32) -> (r: bool)
    ensures
        r == taken_up(*record, held as int, max_vector),
{
    match record {
        StoredRecord::DataShard { data, computed } => data.bytes.len() <= MAX_STATE_BYTES
            && *computed == data.hash,
        StoredRecord::TrainingState { training, seen } => is_intact(training.state_hash, seen),
        StoredRecord::IntegratedGraph { graph, seen } => is_intact(graph.graph_hash, seen),
        StoredRecord::IntegratedState { progress, seen } => is_intact(progress.state_hash, seen),
        StoredRecord::IntegratedElection { vote, computed } => vote.vote_hash == *computed
            && vote.graph_generation > 0 && vote.term > 0,
        StoredRecord::Plan { plan, seen } => is_intact(plan.plan_hash, seen),
        StoredRecord::PlanProposal { plan, seen } => plan.parent_plan_hash.is_some() && is_intact(
            plan.plan_hash,
            seen,
        ) && held < MAX_PLAN_PROPOSALS,
        StoredRecord::OptimizerState { optimizer, computed } => valid_local_optimizer_state(
            optimizer,
            max_vector,
            *computed,
        ),
        StoredRecord::OptimizerShard { replica, seen } => is_intact(replica.state_hash, seen),
        StoredRecord::Checkpoint { checkpoint, seen } => is_intact(checkpoint.manifest_hash, seen),
        StoredRecord::TensorShard { tensor, computed } => valid_local_tensor_shard(
            tensor,
            max_vector,
            *computed,
        ) && held < MAX_TENSOR_SHARDS,
        StoredRecord::PipelineStage { stage, computed } => stage.stage_count >= 2
            && stage.stage_count <= 16 && stage.stage_id < stage.stage_count && stage.coefficient
            <= MAX_COEFFICIENT && stage.coefficient >= -MAX_COEFFICIENT && *computed
            == stage.state_hash && held < MAX_PIPELINE_STAGES,
    }
}

/// Where a record is kept: its job, and its number within the job.
pub open spec fn slot_of(record: StoredRecord) -> (JobId, Option<u64>) {
    match record {
        StoredRecord::DataShard { data, .. } => (data@.job_id, Some(data@.shard_id as u64)),
        StoredRecord::TrainingState { training, .. } => (training@.job_id, None),
        StoredRecord::IntegratedGraph { graph, .. } => (graph@.job_id, None),
        StoredRecord::IntegratedState { progress, .. } => (progress@.job_id, None),
        StoredRecord::IntegratedElection { vote, .. } => (vote.job_id, None),
        StoredRecord::Plan { plan, .. } => (plan@.job_id, None),
        StoredRecord::PlanProposal { plan, .. } => (plan@.job_id, None),
        StoredRecord::OptimizerState { optimizer, .. } => (optimizer@.job_id, Some(optimizer@.shard_id as u64)),
        StoredRecord::OptimizerShard { replica, .. } => (replica@.job_id, Some(replica@.shard_id as u64)),
        StoredRecord::Checkpoint { checkpoint, .. } => (
            checkpoint@.job_id,
            Some(checkpoint@.checkpoint_generation),
        ),
        StoredRecord::TensorShard { tensor, .. } => (tensor@.job_id, Some(tensor@.shard_id as u64)),
        StoredRecord::PipelineStage { stage, .. } => (stage.job_id, Some(stage.stage_id as u64)),
    }
}

/// Where a record is kept: its job, and its number within the job.
pub fn record_slot(record: &StoredRecord) -> (r: (JobId, Option<u64>))
    ensures
        r == slot_of(*record),
{
    match record {
        StoredRecord::DataShard { data, .. } => (data.job_id, Some(data.shard_id as u64)),
        StoredRecord::TrainingState { training, .. } => (training.job_id, None),
        StoredRecord::IntegratedGraph { graph, .. } => (graph.job_id, None),
        StoredRecord::IntegratedState { progress, .. } => (progress.job_id, None),
        StoredRecord::IntegratedElection { vote, .. } => (vote.job_id, None),
        StoredRecord::Plan { plan, .. } => (plan.job_id, None),
        StoredRecord::PlanProposal { plan, .. } => (plan.job_id, None),
        StoredRecord::OptimizerState { optimizer, .. } => (optimizer.job_id, Some(optimizer.shard_id as u64)),
        StoredRecord::OptimizerShard { replica, .. } => (replica.job_id, Some(replica.shard_id as u64)),
        StoredRecord::Checkpoint { checkpoint, .. } => (
            checkpoint.job_id,
            Some(checkpoint.checkpoint_generation),
        ),
        StoredRecord::TensorShard { tensor, .. } => (tensor.job_id, Some(tensor.shard_id as u64)),
        StoredRecord::PipelineStage { stage, .. } => (stage.job_id, Some(stage.stage_id as u64)),
    }
}

/// A vote that was given and stored with its hash is taken up again, so that a
/// restart does not free the node to vote twice in a term.
pub proof fn law_given_vote_is_taken_up(
    node: NodeId,
    peer: NodeId,
    request: V4IntegratedElectionRequest,
    graph: V4ExecutionGraphView,
    phase: V4IntegratedPhase,
    existing: Option<V4IntegratedElectionRecord>,
    hash: ArtifactId,
    max_vector: u32,
)
    requires
        graph.graph_generation > 0,
        decision_on(node, peer, request, graph, phase, existing) is Granted,
    ensures
        ({
            let given = decision_on(node, peer, request, graph, phase, existing)->Granted_0;
            let stored = V4IntegratedElectionRecord { vote_hash: hash, ..given };
            taken_up(
                StoredRecord::IntegratedElection { vote: stored, computed: hash },
                0,
                max_vector,
            )
        }),
{
}

/// A phase in which an integrated job still has work to do.
pub open spec fn unfinished(phase: V4IntegratedPhase) -> bool {
    phase is Preparing || phase is Running || phase is Reconfiguring || phase is Partitioned
}

/// The stored state belongs to the stored graph.
pub open spec fn state_of_graph(
    graph: V4ExecutionGraphView,
    state: V4IntegratedStateRecord,
) -> bool {
    state@.graph_generation == graph.graph_generation && state@.plan_hash == graph.plan_hash
        && state@.branch == graph.branch
}

/// This node is a current member of an unfinished job.
pub open spec fn resumable(
    graph: V4ExecutionGraphView,
    state: V4IntegratedStateRecord,
    node: NodeId,
) -> bool {
    &&& graph.workers.contains(node)
    &&& !graph.retired_workers.contains(node)
    &&& unfinished(state@.phase)
    &&& state_of_graph(graph, state)
}

/// What a node does about a job after a restart.
#[derive(Clone, Copy, Debug, PartialEq, Eq, Structural)]
pub enum Resume {
    /// Nothing: the job is over, is not this node's, or lacks a record.
    Nothing,
    /// Lead it on to its target.
    Lead { windows: u64, checkpoint_every: u64 },
    /// Take part in it.
    Participate { windows: u64, checkpoint_every: u64 },
}

/// What a node does about a stored job after a restart. `running` tells whether
/// the job has been taken up already. A job that is resumed stores a checkpoint
/// at every window.
pub fn resume_integrated_jobs(
    graph: &V4ExecutionGraph,
    state: Option<&V4IntegratedStateRecord>,
    has_plan: bool,
    running: bool,
    node: NodeId,
) -> (r: Resume)
    ensures
        r == (match state {
            Some(s) if has_plan && !running && resumable(graph@, *s, node) => if graph@.coordinator
                == node {
                Resume::Lead { windows: s@.target_windows, checkpoint_every: 1 }
            } else {
                Resume::Participate { windows: s@.target_windows, checkpoint_every: 1 }
            },
            _ => Resume::Nothing,
        }),
{
    let state = match state {
        Some(state) => state,
        None => {
            return Resume::Nothing;
        },
    };
    let open = match state.phase {
        V4IntegratedPhase::Preparing
        | V4IntegratedPhase::Running
        | V4IntegratedPhase::Reconfiguring
        | V4IntegratedPhase::Partitioned => true,
        _ => false,
    };
    if !has_plan || running || !open || !contains_id(&graph.workers, node) || contains_id(
        &graph.retired_workers,
        node,
    ) || state.graph_generation != graph.graph_generation || state.plan_hash != graph.plan_hash
        || state.branch != graph.branch {
        return Resume::Nothing;
    }
    if graph.coordinator == node {
        Resume::Lead { windows: state.target_windows, checkpoint_every: 1 }
    } else {
        Resume::Participate { windows: state.target_windows, checkpoint_every: 1 }
    }
}

/// A stored record is taken up only with the hash of its content and its fields in order:
/// votes are for a real graph and term, stages lie within a pipeline of two to sixteen,
/// with a coefficient of at most a thousand million either way.
pub proof fn law_records_are_intact(
    stated: ArtifactId,
    seen: Inspection,
    vote: V4IntegratedElectionRecord,
    stage: V4LocalPipelineStage,
    computed: ArtifactId,
)
    ensures
        intact(stated, seen) <==> seen.valid && seen.hash == stated,
        vote_intact(vote, computed) <==> computed == vote.vote_hash && vote.graph_generation >= 1
            && vote.term >= 1,
        stage_intact(stage, computed) <==> 2 <= stage.stage_count && stage.stage_count <= 16
            && stage.stage_id < stage.stage_count && -1_000_000_000 <= stage.coefficient
            && stage.coefficient <= 1_000_000_000 && computed == stage.state_hash,
{
}

/// A job is taken up again by a member that is not retired, in a phase with work left, and
/// only with the state of the stored graph.
pub proof fn law_unfinished_jobs_are_resumed(
    graph: V4ExecutionGraphView,
    state: V4IntegratedStateRecord,
    node: NodeId,
)
    ensures
        resumable(graph, state, node) <==> {
            &&& graph.workers.contains(node) && !graph.retired_workers.contains(node)
            &&& state@.phase is Preparing || state@.phase is Running || state@.phase
                is Reconfiguring || state@.phase is Partitioned
            &&& state@.graph_generation == graph.graph_generation
            &&& state@.plan_hash == graph.plan_hash && state@.branch == graph.branch
        },
{
}

/// At most 128 proposals, 256 tensor shards and 256 stages are taken up.
pub proof fn law_restored_records_are_bounded(record: StoredRecord, held: int, max_vector: u32)
    requires
        taken_up(record, held, max_vector),
    ensures
        record is PlanProposal ==> held < 128,
        record is TensorShard ==> held < 256,
        record is PipelineStage ==> held < 256,
        record matches StoredRecord::DataShard { data, computed } ==> data@.bytes.len() <= 65_536
            && computed == data@.hash,
        record matches StoredRecord::Plan { plan, seen } ==> seen.valid && seen.hash
            == plan@.plan_hash,
        record matches StoredRecord::PlanProposal { plan, seen } ==> seen.valid && seen.hash
            == plan@.plan_hash && plan@.parent_plan_hash is Some,
        record matches StoredRecord::Checkpoint { checkpoint, seen } ==> seen.valid && seen.hash
            == checkpoint@.manifest_hash,
        record matches StoredRecord::IntegratedGraph { graph, seen } ==> seen.valid && seen.hash
            == graph@.graph_hash,
        record matches StoredRecord::TrainingState { training, seen } ==> seen.valid && seen.hash
            == training@.state_hash,
{
}

/// Records of one job that are kept once have its number alone; parts of a job are kept
/// under their own number.
pub proof fn law_records_are_kept_by_number(record: StoredRecord)
    ensures
        record matches StoredRecord::DataShard { data, .. } ==> slot_of(record) == (
            data@.job_id,
            Some(data@.shard_id as u64),
        ),
        record matches StoredRecord::TensorShard { tensor, .. } ==> slot_of(record) == (
            tensor@.job_id,
            Some(tensor@.shard_id as u64),
        ),
        record matches StoredRecord::PipelineStage { stage, .. } ==> slot_of(record) == (
            stage.job_id,
            Some(stage.stage_id as u64),
        ),
        record matches StoredRecord::OptimizerState { optimizer, .. } ==> slot_of(record) == (
            optimizer@.job_id,
            Some(optimizer@.shard_id as u64),
        ),
        record matches StoredRecord::OptimizerShard { replica, .. } ==> slot_of(record) == (
            replica@.job_id,
            Some(replica@.shard_id as u64),
        ),
        record matches StoredRecord::Checkpoint { checkpoint, .. } ==> slot_of(record) == (
            checkpoint@.job_id,
            Some(checkpoint@.checkpoint_generation),
        ),
        record matches StoredRecord::Plan { plan, .. } ==> slot_of(record) == (
            plan@.job_id,
            None::<u64>,
        ),
        record matches StoredRecord::IntegratedGraph { graph, .. } ==> slot_of(record) == (
            graph@.job_id,
            None::<u64>,
        ),
        record matches StoredRecord::IntegratedState { progress, .. } ==> slot_of(record) == (
            progress@.job_id,
            None::<u64>,
        ),
{
}

} // verus!
