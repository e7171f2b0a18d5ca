//! What a peer claims by sending a record. The guard against peers that claim
//! two things at once is shown exactly this.

use crate::base::arith::{max_int, max_u64};
use crate::base::ids::{ArtifactId, JobId};
use crate::frontier::replication::{
    V4CheckpointRecord, V4CheckpointRecordView, V4OptimizerShardRecord, V4OptimizerShardRecordView,
    V4TrainingStateRecord, V4TrainingStateRecordView,
};
use crate::frontier::types::{
    V4ExecutionGraph, V4ExecutionGraphView, V4TrainingPlan, V4TrainingPlanView,
};
use vstd::prelude::*;

verus! {

/// What a claim is about.
#[derive(Clone, Copy, Debug, PartialEq, Eq, Structural)]
pub enum ClaimKind {
    Plan,
    PlanProposal,
    ExecutionGraph,
    TrainingState,
    /// The optimizer state of a shard.
    OptimizerState(u16),
    Checkpoint,
}

/// A claim: at this generation and epoch, the record has this hash.
#[derive(Clone, Copy, Debug, PartialEq, Eq, Structural)]
pub struct Claim {
    pub kind: ClaimKind,
    pub job_id: JobId,
    pub branch: Option<ArtifactId>,
    pub generation: u64,
    pub epoch: u64,
    pub hash: ArtifactId,
}

/// A generation as a claim counts it, from one on.
pub open spec fn counted(generation: u64) -> u64 {
    max_int(generation as int, 1) as u64
}

/// The claim that a plan in force makes.
pub open spec fn claimed_plan(plan: V4TrainingPlanView, kind: ClaimKind) -> Claim {
    Claim {
        kind,
        job_id: plan.job_id,
        branch: Some(plan.branch),
        generation: plan.plan_generation,
        epoch: plan.plan_generation,
        hash: plan.plan_hash,
    }
}

/// The claim that a plan in force makes.
pub fn plan_claim(plan: &V4TrainingPlan) -> (r: Claim)
    ensures
        r == claimed_plan(plan@, ClaimKind::Plan),
{
    Claim {
        kind: ClaimKind::Plan,
        job_id: plan.job_id,
        branch: Some(plan.branch),
        generation: plan.plan_generation,
        epoch: plan.plan_generation,
        hash: plan.plan_hash,
    }
}

/// The claim that a proposed plan makes.
pub fn proposal_claim(plan: &V4TrainingPlan) -> (r: Claim)
    ensures
        r == claimed_plan(plan@, ClaimKind::PlanProposal),
{
    let mut claim = plan_claim(plan);
    claim.kind = ClaimKind::PlanProposal;
    claim
}

/// The claim that a graph makes.
pub open spec fn claimed_graph(graph: V4ExecutionGraphView) -> Claim {
    Claim {
        kind: ClaimKind::ExecutionGraph,
        job_id: graph.job_id,
        branch: Some(graph.branch),
        generation: graph.graph_generation,
        epoch: counted(graph.coordination_term),
        hash: graph.graph_hash,
    }
}

/// The claim that a graph makes.
pub fn graph_claim(graph: &V4ExecutionGraph) -> (r: Claim)
    ensures
        r == claimed_graph(graph@),
{
    Claim {
        kind: ClaimKind::ExecutionGraph,
        job_id: graph.job_id,
        branch: Some(graph.branch),
        generation: graph.graph_generation,
        epoch: max_u64(graph.coordination_term, 1),
        hash: graph.graph_hash,
    }
}

/// The claim that a replicated training state makes.
pub open spec fn claimed_state(record: V4TrainingStateRecordView) -> Claim {
    Claim {
        kind: ClaimKind::TrainingState,
        job_id: record.job_id,
        branch: Some(record.branch),
        generation: counted(record.checkpoint_generation),
        epoch: counted(record.optimizer_generation),
        hash: record.state_hash,
    }
}

/// The claim that a replicated training state makes.
pub fn state_claim(record: &V4TrainingStateRecord) -> (r: Claim)
    ensures
        r == claimed_state(record@),
{
    Claim {
        kind: ClaimKind::TrainingState,
        job_id: record.job_id,
        branch: Some(record.branch),
        generation: max_u64(record.checkpoint_generation, 1),
        epoch: max_u64(record.optimizer_generation, 1),
        hash: record.state_hash,
    }
}

/// The claim that a replicated optimizer shard makes.
pub open spec fn claimed_optimizer(record: V4OptimizerShardRecordView) -> Claim {
    Claim {
        kind: ClaimKind::OptimizerState(record.shard_id),
        job_id: record.job_id,
        branch: None,
        generation: record.optimizer_generation,
        epoch: counted(record.plan_generation),
        hash: record.state_hash,
    }
}

/// The claim that a replicated optimizer shard makes.
pub fn optimizer_claim(record: &V4OptimizerShardRecord) -> (r: Claim)
    ensures
        r == claimed_optimizer(record@),
{
    Claim {
        kind: ClaimKind::OptimizerState(record.shard_id),
        job_id: record.job_id,
        branch: None,
        generation: record.optimizer_generation,
        epoch: max_u64(record.plan_generation, 1),
        hash: record.state_hash,
    }
}

/// The claim that the manifest of a checkpoint makes.
pub open spec fn claimed_checkpoint(record: V4CheckpointRecordView) -> Claim {
    Claim {
        kind: ClaimKind::Checkpoint,
        job_id: record.job_id,
        branch: Some(record.branch),
        generation: record.checkpoint_generation,
        epoch: counted(record.plan_generation),
        hash: record.manifest_hash,
    }
}

/// The claim that the manifest of a checkpoint makes.
pub fn checkpoint_claim(record: &V4CheckpointRecord) -> (r: Claim)
    ensures
        r == claimed_checkpoint(record@),
{
    Claim {
        kind: ClaimKind::Checkpoint,
        job_id: record.job_id,
        branch: Some(record.branch),
        generation: record.checkpoint_generation,
        epoch: max_u64(record.plan_generation, 1),
        hash: record.manifest_hash,
    }
}

/// A claim is about the record that makes it: its job, its hash and its generation, which
/// counts from one on.
pub proof fn law_claims_are_about_their_record(
    plan: V4TrainingPlanView,
    kind: ClaimKind,
    graph: V4ExecutionGraphView,
    state: V4TrainingStateRecordView,
    optimizer: V4OptimizerShardRecordView,
    checkpoint: V4CheckpointRecordView,
)
    ensures
        ({
            let c = claimed_plan(plan, kind);
            c.kind == kind && c.job_id == plan.job_id && c.branch == Some(plan.branch) && c.hash
                == plan.plan_hash && c.generation == plan.plan_generation && c.epoch
                == plan.plan_generation
        }),
        ({
            let c = claimed_graph(graph);
            c.kind is ExecutionGraph && c.job_id == graph.job_id && c.branch == Some(graph.branch)
                && c.hash == graph.graph_hash && c.generation == graph.graph_generation && (
            graph.coordination_term >= 1 ==> c.epoch == graph.coordination_term) && c.epoch >= 1
        }),
        ({
            let c = claimed_state(state);
            &&& c.kind is TrainingState && c.job_id == state.job_id
            &&& c.branch == Some(state.branch) && c.hash == state.state_hash
            &&& c.generation >= 1 && c.epoch >= 1
            &&& state.checkpoint_generation >= 1 ==> c.generation == state.checkpoint_generation
            &&& state.optimizer_generation >= 1 ==> c.epoch == state.optimizer_generation
        }),
        ({
            let c = claimed_optimizer(optimizer);
            &&& c.kind == ClaimKind::OptimizerState(optimizer.shard_id)
            &&& c.job_id == optimizer.job_id && c.branch is None && c.hash == optimizer.state_hash
            &&& c.generation == optimizer.optimizer_generation
            &&& optimizer.plan_generation >= 1 ==> c.epoch == optimizer.plan_generation
        }),
        ({
            let c = claimed_checkpoint(checkpoint);
            &&& c.kind is Checkpoint && c.job_id == checkpoint.job_id
            &&& c.branch == Some(checkpoint.branch) && c.hash == checkpoint.manifest_hash
            &&& c.generation == checkpoint.checkpoint_generation
            &&& checkpoint.plan_generation >= 1 ==> c.epoch == checkpoint.plan_generation
        }),
{
}

} // verus!
