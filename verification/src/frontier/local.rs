//! State held on this node, and the messages that move it.

use crate::base::ids::{ArtifactId, JobId, NodeId};
use crate::base::record::Duplicate;
use vstd::prelude::*;

verus! {

/// A data shard held on this node.
#[derive(Debug, PartialEq, Eq)]
pub struct V4LocalDataShard {
    pub job_id: JobId,
    pub shard_id: u16,
    pub plan_generation: u64,
    pub ownership_generation: u64,
    pub hash: ArtifactId,
    pub bytes: Vec<u8>,
}

/// The contents of a [`V4LocalDataShard`].
#[verifier::ext_equal]
pub struct V4LocalDataShardView {
    pub job_id: JobId,
    pub shard_id: u16,
    pub plan_generation: u64,
    pub ownership_generation: u64,
    pub hash: ArtifactId,
    pub bytes: Seq<u8>,
}

impl View for V4LocalDataShard {
    type V = V4LocalDataShardView;

    open spec fn view(&self) -> V4LocalDataShardView {
        V4LocalDataShardView {
            job_id: self.job_id,
            shard_id: self.shard_id,
            plan_generation: self.plan_generation,
            ownership_generation: self.ownership_generation,
            hash: self.hash,
            bytes: self.bytes@,
        }
    }
}

impl Duplicate for V4LocalDataShard {
    fn duplicate(&self) -> (r: V4LocalDataShard) {
        V4LocalDataShard {
            job_id: self.job_id,
            shard_id: self.shard_id,
            plan_generation: self.plan_generation,
            ownership_generation: self.ownership_generation,
            hash: self.hash,
            bytes: self.bytes.clone(),
        }
    }
}

/// A tensor shard held on this node.
#[derive(Debug, PartialEq, Eq)]
pub struct V4LocalTensorShard {
    pub job_id: JobId,
    pub plan_generation: u64,
    pub model_generation: u64,
    pub shard_id: u16,
    pub rows: u16,
    pub cols: u16,
    pub row_offset: u16,
    pub weights: Vec<i64>,
    pub state_hash: ArtifactId,
    pub state_generation: u64,
    pub last_sequence: u64,
}

/// The contents of a [`V4LocalTensorShard`].
#[verifier::ext_equal]
pub struct V4LocalTensorShardView {
    pub job_id: JobId,
    pub plan_generation: u64,
    pub model_generation: u64,
    pub shard_id: u16,
    pub rows: u16,
    pub cols: u16,
    pub row_offset: u16,
    pub weights: Seq<i64>,
    pub state_hash: ArtifactId,
    pub state_generation: u64,
    pub last_sequence: u64,
}

impl View for V4LocalTensorShard {
    type V = V4LocalTensorShardView;

    open spec fn view(&self) -> V4LocalTensorShardView {
        V4LocalTensorShardView {
            job_id: self.job_id,
            plan_generation: self.plan_generation,
            model_generation: self.model_generation,
            shard_id: self.shard_id,
            rows: self.rows,
            cols: self.cols,
            row_offset: self.row_offset,
            weights: self.weights@,
            state_hash: self.state_hash,
            state_generation: self.state_generation,
            last_sequence: self.last_sequence,
        }
    }
}

impl Duplicate for V4LocalTensorShard {
    fn duplicate(&self) -> (r: V4LocalTensorShard) {
        V4LocalTensorShard {
            job_id: self.job_id,
            plan_generation: self.plan_generation,
            model_generation: self.model_generation,
            shard_id: self.shard_id,
            rows: self.rows,
            cols: self.cols,
            row_offset: self.row_offset,
            weights: self.weights.clone(),
            state_hash: self.state_hash,
            state_generation: self.state_generation,
            last_sequence: self.last_sequence,
        }
    }
}

/// The optimizer state of a shard held on this node.
#[derive(Debug, PartialEq, Eq)]
pub struct V4LocalOptimizerState {
    pub job_id: JobId,
    pub plan_generation: u64,
    pub model_generation: u64,
    pub optimizer_generation: u64,
    pub shard_id: u16,
    pub values: Vec<i64>,
    pub state_hash: ArtifactId,
    pub state_generation: u64,
    pub last_sequence: u64,
}

/// The contents of a [`V4LocalOptimizerState`].
#[verifier::ext_equal]
pub struct V4LocalOptimizerStateView {
    pub job_id: JobId,
    pub plan_generation: u64,
    pub model_generation: u64,
    pub optimizer_generation: u64,
    pub shard_id: u16,
    pub values: Seq<i64>,
    pub state_hash: ArtifactId,
    pub state_generation: u64,
    pub last_sequence: u64,
}

impl View for V4LocalOptimizerState {
    type V = V4LocalOptimizerStateView;

    open spec fn view(&self) -> V4LocalOptimizerStateView {
        V4LocalOptimizerStateView {
            job_id: self.job_id,
            plan_generation: self.plan_generation,
            model_generation: self.model_generation,
            optimizer_generation: self.optimizer_generation,
            shard_id: self.shard_id,
            values: self.values@,
            state_hash: self.state_hash,
            state_generation: self.state_generation,
            last_sequence: self.last_sequence,
        }
    }
}

impl Duplicate for V4LocalOptimizerState {
    fn duplicate(&self) -> (r: V4LocalOptimizerState) {
        V4LocalOptimizerState {
            job_id: self.job_id,
            plan_generation: self.plan_generation,
            model_generation: self.model_generation,
            optimizer_generation: self.optimizer_generation,
            shard_id: self.shard_id,
            values: self.values.clone(),
            state_hash: self.state_hash,
            state_generation: self.state_generation,
            last_sequence: self.last_sequence,
        }
    }
}

/// A pipeline stage held on this node.
#[derive(Clone, Copy, Debug, PartialEq, Eq, Structural)]
pub struct V4LocalPipelineStage {
    pub job_id: JobId,
    pub plan_generation: u64,
    pub stage_id: u16,
    pub stage_count: u16,
    pub coefficient: i64,
    pub bias: i64,
    pub state_hash: ArtifactId,
}

impl View for V4LocalPipelineStage {
    type V = V4LocalPipelineStage;

    open spec fn view(&self) -> V4LocalPipelineStage {
        *self
    }
}

impl Duplicate for V4LocalPipelineStage {
    fn duplicate(&self) -> (r: V4LocalPipelineStage) {
        *self
    }
}

/// The step of a shard transfer.
#[derive(Clone, Copy, Debug, PartialEq, Eq, Structural)]
pub enum V4ShardMigrationPhase {
    Prepare,
    Commit,
    Abort,
}

impl View for V4ShardMigrationPhase {
    type V = V4ShardMigrationPhase;

    open spec fn view(&self) -> V4ShardMigrationPhase {
        *self
    }
}

impl Duplicate for V4ShardMigrationPhase {
    fn duplicate(&self) -> (r: V4ShardMigrationPhase) {
        *self
    }
}

/// The answer to an active plan.
#[derive(Clone, Copy, Debug, PartialEq, Eq, Structural)]
pub struct V4PlanAck {
    pub job_id: JobId,
    pub plan_generation: u64,
    pub plan_hash: ArtifactId,
    pub accepted: bool,
}

impl View for V4PlanAck {
    type V = V4PlanAck;

    open spec fn view(&self) -> V4PlanAck {
        *self
    }
}

impl Duplicate for V4PlanAck {
    fn duplicate(&self) -> (r: V4PlanAck) {
        *self
    }
}

/// The answer to a proposed plan.
#[derive(Clone, Copy, Debug, PartialEq, Eq, Structural)]
pub struct V4PlanProposalAck {
    pub job_id: JobId,
    pub plan_generation: u64,
    pub proposal_hash: ArtifactId,
    pub accepted: bool,
}

impl View for V4PlanProposalAck {
    type V = V4PlanProposalAck;

    open spec fn view(&self) -> V4PlanProposalAck {
        *self
    }
}

impl Duplicate for V4PlanProposalAck {
    fn duplicate(&self) -> (r: V4PlanProposalAck) {
        *self
    }
}

/// One step of a shard transfer.
#[derive(Debug, PartialEq, Eq)]
pub struct V4ShardMigration {
    pub job_id: JobId,
    pub plan_generation: u64,
    pub shard_id: u16,
    pub from: NodeId,
    pub to: NodeId,
    pub ownership_generation: u64,
    pub content_hash: ArtifactId,
    pub state: Vec<u8>,
    pub phase: V4ShardMigrationPhase,
}

/// The contents of a [`V4ShardMigration`].
#[verifier::ext_equal]
pub struct V4ShardMigrationView {
    pub job_id: JobId,
    pub plan_generation: u64,
    pub shard_id: u16,
    pub from: NodeId,
    pub to: NodeId,
    pub ownership_generation: u64,
    pub content_hash: ArtifactId,
    pub state: Seq<u8>,
    pub phase: V4ShardMigrationPhase,
}

impl View for V4ShardMigration {
    type V = V4ShardMigrationView;

    open spec fn view(&self) -> V4ShardMigrationView {
        V4ShardMigrationView {
            job_id: self.job_id,
            plan_generation: self.plan_generation,
            shard_id: self.shard_id,
            from: self.from,
            to: self.to,
            ownership_generation: self.ownership_generation,
            content_hash: self.content_hash,
            state: self.state@,
            phase: self.phase,
        }
    }
}

impl Duplicate for V4ShardMigration {
    fn duplicate(&self) -> (r: V4ShardMigration) {
        V4ShardMigration {
            job_id: self.job_id,
            plan_generation: self.plan_generation,
            shard_id: self.shard_id,
            from: self.from,
            to: self.to,
            ownership_generation: self.ownership_generation,
            content_hash: self.content_hash,
            state: self.state.clone(),
            phase: self.phase,
        }
    }
}

/// The answer to a step of a shard transfer.
#[derive(Clone, Copy, Debug, PartialEq, Eq, Structural)]
pub struct V4ShardMigrationAck {
    pub job_id: JobId,
    pub plan_generation: u64,
    pub shard_id: u16,
    pub owner: NodeId,
    pub ownership_generation: u64,
    pub content_hash: ArtifactId,
    pub phase: V4ShardMigrationPhase,
    pub verified: bool,
}

impl View for V4ShardMigrationAck {
    type V = V4ShardMigrationAck;

    open spec fn view(&self) -> V4ShardMigrationAck {
        *self
    }
}

impl Duplicate for V4ShardMigrationAck {
    fn duplicate(&self) -> (r: V4ShardMigrationAck) {
        *self
    }
}

/// A request that an owner hand its shard over.
#[derive(Clone, Copy, Debug, PartialEq, Eq, Structural)]
pub struct V4ShardMigrationRequest {
    pub request_id: JobId,
    pub job_id: JobId,
    pub proposer: NodeId,
    pub proposal_hash: ArtifactId,
    pub plan_generation: u64,
    pub shard_id: u16,
    pub from: NodeId,
    pub to: NodeId,
    pub ownership_generation: u64,
    pub content_hash: ArtifactId,
    pub reply_to: NodeId,
}

impl View for V4ShardMigrationRequest {
    type V = V4ShardMigrationRequest;

    open spec fn view(&self) -> V4ShardMigrationRequest {
        *self
    }
}

impl Duplicate for V4ShardMigrationRequest {
    fn duplicate(&self) -> (r: V4ShardMigrationRequest) {
        *self
    }
}

} // verus!
