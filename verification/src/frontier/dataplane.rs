//! Messages that carry the tensors, stages and updates of a job.

use crate::base::ids::{ArtifactId, JobId, NodeId};
use crate::base::record::Duplicate;
use crate::frontier::policy::V4ByzantinePolicy;
use vstd::prelude::*;

verus! {

/// The first weights of a tensor shard, for its owner.
#[derive(Debug, PartialEq, Eq)]
pub struct V4TensorInstall {
    pub job_id: JobId,
    pub plan_generation: u64,
    pub model_generation: u64,
    pub shard_id: u16,
    pub rows: u16,
    pub cols: u16,
    pub row_offset: u16,
    pub weights: Vec<i64>,
    pub state_hash: ArtifactId,
}

/// The contents of a [`V4TensorInstall`].
#[verifier::ext_equal]
pub struct V4TensorInstallView {
    pub job_id: JobId,
    pub plan_generation: u64,
    pub model_generation: u64,
    pub shard_id: u16,
    pub rows: u16,
    pub cols: u16,
    pub row_offset: u16,
    pub weights: Seq<i64>,
    pub state_hash: ArtifactId,
}

impl View for V4TensorInstall {
    type V = V4TensorInstallView;

    open spec fn view(&self) -> V4TensorInstallView {
        V4TensorInstallView {
            job_id: self.job_id,
            plan_generation: self.plan_generation,
            model_generation: self.model_generation,
            shard_id: self.shard_id,
            rows: self.rows,
            cols: self.cols,
            row_offset: self.row_offset,
            weights: self.weights@,
            state_hash: self.state_hash,
        }
    }
}

impl Duplicate for V4TensorInstall {
    fn duplicate(&self) -> (r: V4TensorInstall) {
        V4TensorInstall {
            job_id: self.job_id,
            plan_generation: self.plan_generation,
            model_generation: self.model_generation,
            shard_id: self.shard_id,
            rows: self.rows,
            cols: self.cols,
            row_offset: self.row_offset,
            weights: self.weights.clone(),
            state_hash: self.state_hash,
        }
    }
}

/// The answer to a [`V4TensorInstall`].
#[derive(Clone, Copy, Debug, PartialEq, Eq, Structural)]
pub struct V4TensorInstallAck {
    pub job_id: JobId,
    pub plan_generation: u64,
    pub shard_id: u16,
    pub state_hash: ArtifactId,
    pub accepted: bool,
}

impl View for V4TensorInstallAck {
    type V = V4TensorInstallAck;

    open spec fn view(&self) -> V4TensorInstallAck {
        *self
    }
}

impl Duplicate for V4TensorInstallAck {
    fn duplicate(&self) -> (r: V4TensorInstallAck) {
        *self
    }
}

/// A copy of a tensor shard, for a replica.
#[derive(Debug, PartialEq, Eq)]
pub struct V4TensorReplica {
    pub job_id: JobId,
    pub plan_generation: u64,
    pub model_generation: u64,
    pub shard_id: u16,
    pub rows: u16,
    pub cols: u16,
    pub row_offset: u16,
    pub weights: Vec<i64>,
    pub state_hash: ArtifactId,
    pub state_generation: u64,
    pub last_sequence: u64,
    pub ownership_generation: u64,
    pub source: NodeId,
}

/// The contents of a [`V4TensorReplica`].
#[verifier::ext_equal]
pub struct V4TensorReplicaView {
    pub job_id: JobId,
    pub plan_generation: u64,
    pub model_generation: u64,
    pub shard_id: u16,
    pub rows: u16,
    pub cols: u16,
    pub row_offset: u16,
    pub weights: Seq<i64>,
    pub state_hash: ArtifactId,
    pub state_generation: u64,
    pub last_sequence: u64,
    pub ownership_generation: u64,
    pub source: NodeId,
}

impl View for V4TensorReplica {
    type V = V4TensorReplicaView;

    open spec fn view(&self) -> V4TensorReplicaView {
        V4TensorReplicaView {
            job_id: self.job_id,
            plan_generation: self.plan_generation,
            model_generation: self.model_generation,
            shard_id: self.shard_id,
            rows: self.rows,
            cols: self.cols,
            row_offset: self.row_offset,
            weights: self.weights@,
            state_hash: self.state_hash,
            state_generation: self.state_generation,
            last_sequence: self.last_sequence,
            ownership_generation: self.ownership_generation,
            source: self.source,
        }
    }
}

impl Duplicate for V4TensorReplica {
    fn duplicate(&self) -> (r: V4TensorReplica) {
        V4TensorReplica {
            job_id: self.job_id,
            plan_generation: self.plan_generation,
            model_generation: self.model_generation,
            shard_id: self.shard_id,
            rows: self.rows,
            cols: self.cols,
            row_offset: self.row_offset,
            weights: self.weights.clone(),
            state_hash: self.state_hash,
            state_generation: self.state_generation,
            last_sequence: self.last_sequence,
            ownership_generation: self.ownership_generation,
            source: self.source,
        }
    }
}

/// The answer to a [`V4TensorReplica`].
#[derive(Clone, Copy, Debug, PartialEq, Eq, Structural)]
pub struct V4TensorReplicaAck {
    pub job_id: JobId,
    pub plan_generation: u64,
    pub shard_id: u16,
    pub state_hash: ArtifactId,
    pub state_generation: u64,
    pub accepted: bool,
}

impl View for V4TensorReplicaAck {
    type V = V4TensorReplicaAck;

    open spec fn view(&self) -> V4TensorReplicaAck {
        *self
    }
}

impl Duplicate for V4TensorReplicaAck {
    fn duplicate(&self) -> (r: V4TensorReplicaAck) {
        *self
    }
}

/// The input of a tensor shard.
#[derive(Debug, PartialEq, Eq)]
pub struct V4TensorForward {
    pub request_id: JobId,
    pub job_id: JobId,
    pub plan_generation: u64,
    pub model_generation: u64,
    pub shard_id: u16,
    pub sequence: u64,
    pub input: Vec<i64>,
}

/// The contents of a [`V4TensorForward`].
#[verifier::ext_equal]
pub struct V4TensorForwardView {
    pub request_id: JobId,
    pub job_id: JobId,
    pub plan_generation: u64,
    pub model_generation: u64,
    pub shard_id: u16,
    pub sequence: u64,
    pub input: Seq<i64>,
}

impl View for V4TensorForward {
    type V = V4TensorForwardView;

    open spec fn view(&self) -> V4TensorForwardView {
        V4TensorForwardView {
            request_id: self.request_id,
            job_id: self.job_id,
            plan_generation: self.plan_generation,
            model_generation: self.model_generation,
            shard_id: self.shard_id,
            sequence: self.sequence,
            input: self.input@,
        }
    }
}

impl Duplicate for V4TensorForward {
    fn duplicate(&self) -> (r: V4TensorForward) {
        V4TensorForward {
            request_id: self.request_id,
            job_id: self.job_id,
            plan_generation: self.plan_generation,
            model_generation: self.model_generation,
            shard_id: self.shard_id,
            sequence: self.sequence,
            input: self.input.clone(),
        }
    }
}

/// The output of a tensor shard.
#[derive(Debug, PartialEq, Eq)]
pub struct V4TensorForwardResult {
    pub request_id: JobId,
    pub job_id: JobId,
    pub plan_generation: u64,
    pub shard_id: u16,
    pub sequence: u64,
    pub output: Vec<i64>,
    pub state_hash: ArtifactId,
}

/// The contents of a [`V4TensorForwardResult`].
#[verifier::ext_equal]
pub struct V4TensorForwardResultView {
    pub request_id: JobId,
    pub job_id: JobId,
    pub plan_generation: u64,
    pub shard_id: u16,
    pub sequence: u64,
    pub output: Seq<i64>,
    pub state_hash: ArtifactId,
}

impl View for V4TensorForwardResult {
    type V = V4TensorForwardResultView;

    open spec fn view(&self) -> V4TensorForwardResultView {
        V4TensorForwardResultView {
            request_id: self.request_id,
            job_id: self.job_id,
            plan_generation: self.plan_generation,
            shard_id: self.shard_id,
            sequence: self.sequence,
            output: self.output@,
            state_hash: self.state_hash,
        }
    }
}

impl Duplicate for V4TensorForwardResult {
    fn duplicate(&self) -> (r: V4TensorForwardResult) {
        V4TensorForwardResult {
            request_id: self.request_id,
            job_id: self.job_id,
            plan_generation: self.plan_generation,
            shard_id: self.shard_id,
            sequence: self.sequence,
            output: self.output.clone(),
            state_hash: self.state_hash,
        }
    }
}

/// The errors of the outputs of a tensor shard.
#[derive(Debug, PartialEq, Eq)]
pub struct V4TensorBackward {
    pub request_id: JobId,
    pub job_id: JobId,
    pub plan_generation: u64,
    pub model_generation: u64,
    pub shard_id: u16,
    pub sequence: u64,
    pub input: Vec<i64>,
    pub upstream: Vec<i64>,
    pub learning_rate_micros: u32,
}

/// The contents of a [`V4TensorBackward`].
#[verifier::ext_equal]
pub struct V4TensorBackwardView {
    pub request_id: JobId,
    pub job_id: JobId,
    pub plan_generation: u64,
    pub model_generation: u64,
    pub shard_id: u16,
    pub sequence: u64,
    pub input: Seq<i64>,
    pub upstream: Seq<i64>,
    pub learning_rate_micros: u32,
}

impl View for V4TensorBackward {
    type V = V4TensorBackwardView;

    open spec fn view(&self) -> V4TensorBackwardView {
        V4TensorBackwardView {
            request_id: self.request_id,
            job_id: self.job_id,
            plan_generation: self.plan_generation,
            model_generation: self.model_generation,
            shard_id: self.shard_id,
            sequence: self.sequence,
            input: self.input@,
            upstream: self.upstream@,
            learning_rate_micros: self.learning_rate_micros,
        }
    }
}

impl Duplicate for V4TensorBackward {
    fn duplicate(&self) -> (r: V4TensorBackward) {
        V4TensorBackward {
            request_id: self.request_id,
            job_id: self.job_id,
            plan_generation: self.plan_generation,
            model_generation: self.model_generation,
            shard_id: self.shard_id,
            sequence: self.sequence,
            input: self.input.clone(),
            upstream: self.upstream.clone(),
            learning_rate_micros: self.learning_rate_micros,
        }
    }
}

/// What a backward pass changed.
#[derive(Debug, PartialEq, Eq)]
pub struct V4TensorBackwardResult {
    pub request_id: JobId,
    pub job_id: JobId,
    pub plan_generation: u64,
    pub shard_id: u16,
    pub sequence: u64,
    pub weight_gradient: Vec<i64>,
    pub input_gradient: Vec<i64>,
    pub state_hash: ArtifactId,
    pub state_generation: u64,
    pub optimizer_state_hash: Option<ArtifactId>,
    pub optimizer_state_generation: u64,
}

/// The contents of a [`V4TensorBackwardResult`].
#[verifier::ext_equal]
pub struct V4TensorBackwardResultView {
    pub request_id: JobId,
    pub job_id: JobId,
    pub plan_generation: u64,
    pub shard_id: u16,
    pub sequence: u64,
    pub weight_gradient: Seq<i64>,
    pub input_gradient: Seq<i64>,
    pub state_hash: ArtifactId,
    pub state_generation: u64,
    pub optimizer_state_hash: Option<ArtifactId>,
    pub optimizer_state_generation: u64,
}

impl View for V4TensorBackwardResult {
    type V = V4TensorBackwardResultView;

    open spec fn view(&self) -> V4TensorBackwardResultView {
        V4TensorBackwardResultView {
            request_id: self.request_id,
            job_id: self.job_id,
            plan_generation: self.plan_generation,
            shard_id: self.shard_id,
            sequence: self.sequence,
            weight_gradient: self.weight_gradient@,
            input_gradient: self.input_gradient@,
            state_hash: self.state_hash,
            state_generation: self.state_generation,
            optimizer_state_hash: self.optimizer_state_hash,
            optimizer_state_generation: self.optimizer_state_generation,
        }
    }
}

impl Duplicate for V4TensorBackwardResult {
    fn duplicate(&self) -> (r: V4TensorBackwardResult) {
        V4TensorBackwardResult {
            request_id: self.request_id,
            job_id: self.job_id,
            plan_generation: self.plan_generation,
            shard_id: self.shard_id,
            sequence: self.sequence,
            weight_gradient: self.weight_gradient.clone(),
            input_gradient: self.input_gradient.clone(),
            state_hash: self.state_hash,
            state_generation: self.state_generation,
            optimizer_state_hash: self.optimizer_state_hash,
            optimizer_state_generation: self.optimizer_state_generation,
        }
    }
}

/// The optimizer state of a shard.
#[derive(Debug, PartialEq, Eq)]
pub struct V4OptimizerStateInstall {
    pub job_id: JobId,
    pub plan_generation: u64,
    pub model_generation: u64,
    pub optimizer_generation: u64,
    pub shard_id: u16,
    pub values: Vec<i64>,
    pub state_hash: ArtifactId,
    pub state_generation: u64,
    pub sequence: u64,
    pub last_sequence: u64,
    pub source: NodeId,
}

/// The contents of a [`V4OptimizerStateInstall`].
#[verifier::ext_equal]
pub struct V4OptimizerStateInstallView {
    pub job_id: JobId,
    pub plan_generation: u64,
    pub model_generation: u64,
    pub optimizer_generation: u64,
    pub shard_id: u16,
    pub values: Seq<i64>,
    pub state_hash: ArtifactId,
    pub state_generation: u64,
    pub sequence: u64,
    pub last_sequence: u64,
    pub source: NodeId,
}

impl View for V4OptimizerStateInstall {
    type V = V4OptimizerStateInstallView;

    open spec fn view(&self) -> V4OptimizerStateInstallView {
        V4OptimizerStateInstallView {
            job_id: self.job_id,
            plan_generation: self.plan_generation,
            model_generation: self.model_generation,
            optimizer_generation: self.optimizer_generation,
            shard_id: self.shard_id,
            values: self.values@,
            state_hash: self.state_hash,
            state_generation: self.state_generation,
            sequence: self.sequence,
            last_sequence: self.last_sequence,
            source: self.source,
        }
    }
}

impl Duplicate for V4OptimizerStateInstall {
    fn duplicate(&self) -> (r: V4OptimizerStateInstall) {
        V4OptimizerStateInstall {
            job_id: self.job_id,
            plan_generation: self.plan_generation,
            model_generation: self.model_generation,
            optimizer_generation: self.optimizer_generation,
            shard_id: self.shard_id,
            values: self.values.clone(),
            state_hash: self.state_hash,
            state_generation: self.state_generation,
            sequence: self.sequence,
            last_sequence: self.last_sequence,
            source: self.source,
        }
    }
}

/// The answer to a [`V4OptimizerStateInstall`].
#[derive(Clone, Copy, Debug, PartialEq, Eq, Structural)]
pub struct V4OptimizerStateAck {
    pub job_id: JobId,
    pub plan_generation: u64,
    pub optimizer_generation: u64,
    pub shard_id: u16,
    pub state_hash: ArtifactId,
    pub state_generation: u64,
    pub accepted: bool,
}

impl View for V4OptimizerStateAck {
    type V = V4OptimizerStateAck;

    open spec fn view(&self) -> V4OptimizerStateAck {
        *self
    }
}

impl Duplicate for V4OptimizerStateAck {
    fn duplicate(&self) -> (r: V4OptimizerStateAck) {
        *self
    }
}

/// The function of a pipeline stage.
#[derive(Clone, Copy, Debug, PartialEq, Eq, Structural)]
pub struct V4PipelineInstall {
    pub job_id: JobId,
    pub plan_generation: u64,
    pub stage_id: u16,
    pub stage_count: u16,
    pub coefficient: i64,
    pub bias: i64,
    pub state_hash: ArtifactId,
}

impl View for V4PipelineInstall {
    type V = V4PipelineInstall;

    open spec fn view(&self) -> V4PipelineInstall {
        *self
    }
}

impl Duplicate for V4PipelineInstall {
    fn duplicate(&self) -> (r: V4PipelineInstall) {
        *self
    }
}

/// The answer to a [`V4PipelineInstall`].
#[derive(Clone, Copy, Debug, PartialEq, Eq, Structural)]
pub struct V4PipelineInstallAck {
    pub job_id: JobId,
    pub plan_generation: u64,
    pub stage_id: u16,
    pub state_hash: ArtifactId,
    pub accepted: bool,
}

impl View for V4PipelineInstallAck {
    type V = V4PipelineInstallAck;

    open spec fn view(&self) -> V4PipelineInstallAck {
        *self
    }
}

impl Duplicate for V4PipelineInstallAck {
    fn duplicate(&self) -> (r: V4PipelineInstallAck) {
        *self
    }
}

/// An activation on its way through the stages.
#[derive(Debug, PartialEq, Eq)]
pub struct V4PipelineForward {
    pub request_id: JobId,
    pub job_id: JobId,
    pub plan_generation: u64,
    pub stage_id: u16,
    pub stage_count: u16,
    pub microbatch: u32,
    pub activation: Vec<i64>,
    pub next_stage: Option<NodeId>,
    pub reply_to: NodeId,
    pub deadline_ms: u64,
}

/// The contents of a [`V4PipelineForward`].
#[verifier::ext_equal]
pub struct V4PipelineForwardView {
    pub request_id: JobId,
    pub job_id: JobId,
    pub plan_generation: u64,
    pub stage_id: u16,
    pub stage_count: u16,
    pub microbatch: u32,
    pub activation: Seq<i64>,
    pub next_stage: Option<NodeId>,
    pub reply_to: NodeId,
    pub deadline_ms: u64,
}

impl View for V4PipelineForward {
    type V = V4PipelineForwardView;

    open spec fn view(&self) -> V4PipelineForwardView {
        V4PipelineForwardView {
            request_id: self.request_id,
            job_id: self.job_id,
            plan_generation: self.plan_generation,
            stage_id: self.stage_id,
            stage_count: self.stage_count,
            microbatch: self.microbatch,
            activation: self.activation@,
            next_stage: self.next_stage,
            reply_to: self.reply_to,
            deadline_ms: self.deadline_ms,
        }
    }
}

impl Duplicate for V4PipelineForward {
    fn duplicate(&self) -> (r: V4PipelineForward) {
        V4PipelineForward {
            request_id: self.request_id,
            job_id: self.job_id,
            plan_generation: self.plan_generation,
            stage_id: self.stage_id,
            stage_count: self.stage_count,
            microbatch: self.microbatch,
            activation: self.activation.clone(),
            next_stage: self.next_stage,
            reply_to: self.reply_to,
            deadline_ms: self.deadline_ms,
        }
    }
}

/// The activation behind the last stage.
#[derive(Debug, PartialEq, Eq)]
pub struct V4PipelineForwardResult {
    pub request_id: JobId,
    pub job_id: JobId,
    pub plan_generation: u64,
    pub microbatch: u32,
    pub stage_id: u16,
    pub activation: Vec<i64>,
    pub state_hash: ArtifactId,
}

/// The contents of a [`V4PipelineForwardResult`].
#[verifier::ext_equal]
pub struct V4PipelineForwardResultView {
    pub request_id: JobId,
    pub job_id: JobId,
    pub plan_generation: u64,
    pub microbatch: u32,
    pub stage_id: u16,
    pub activation: Seq<i64>,
    pub state_hash: ArtifactId,
}

impl View for V4PipelineForwardResult {
    type V = V4PipelineForwardResultView;

    open spec fn view(&self) -> V4PipelineForwardResultView {
        V4PipelineForwardResultView {
            request_id: self.request_id,
            job_id: self.job_id,
            plan_generation: self.plan_generation,
            microbatch: self.microbatch,
            stage_id: self.stage_id,
            activation: self.activation@,
            state_hash: self.state_hash,
        }
    }
}

impl Duplicate for V4PipelineForwardResult {
    fn duplicate(&self) -> (r: V4PipelineForwardResult) {
        V4PipelineForwardResult {
            request_id: self.request_id,
            job_id: self.job_id,
            plan_generation: self.plan_generation,
            microbatch: self.microbatch,
            stage_id: self.stage_id,
            activation: self.activation.clone(),
            state_hash: self.state_hash,
        }
    }
}

/// A gradient on its way back through the stages.
#[derive(Debug, PartialEq, Eq)]
pub struct V4PipelineBackward {
    pub request_id: JobId,
    pub job_id: JobId,
    pub plan_generation: u64,
    pub stage_id: u16,
    pub stage_count: u16,
    pub microbatch: u32,
    pub gradient: Vec<i64>,
    pub previous_stage: Option<NodeId>,
    pub reply_to: NodeId,
    pub deadline_ms: u64,
}

/// The contents of a [`V4PipelineBackward`].
#[verifier::ext_equal]
pub struct V4PipelineBackwardView {
    pub request_id: JobId,
    pub job_id: JobId,
    pub plan_generation: u64,
    pub stage_id: u16,
    pub stage_count: u16,
    pub microbatch: u32,
    pub gradient: Seq<i64>,
    pub previous_stage: Option<NodeId>,
    pub reply_to: NodeId,
    pub deadline_ms: u64,
}

impl View for V4PipelineBackward {
    type V = V4PipelineBackwardView;

    open spec fn view(&self) -> V4PipelineBackwardView {
        V4PipelineBackwardView {
            request_id: self.request_id,
            job_id: self.job_id,
            plan_generation: self.plan_generation,
            stage_id: self.stage_id,
            stage_count: self.stage_count,
            microbatch: self.microbatch,
            gradient: self.gradient@,
            previous_stage: self.previous_stage,
            reply_to: self.reply_to,
            deadline_ms: self.deadline_ms,
        }
    }
}

impl Duplicate for V4PipelineBackward {
    fn duplicate(&self) -> (r: V4PipelineBackward) {
        V4PipelineBackward {
            request_id: self.request_id,
            job_id: self.job_id,
            plan_generation: self.plan_generation,
            stage_id: self.stage_id,
            stage_count: self.stage_count,
            microbatch: self.microbatch,
            gradient: self.gradient.clone(),
            previous_stage: self.previous_stage,
            reply_to: self.reply_to,
            deadline_ms: self.deadline_ms,
        }
    }
}

/// The gradient in front of the first stage.
#[derive(Debug, PartialEq, Eq)]
pub struct V4PipelineBackwardResult {
    pub request_id: JobId,
    pub job_id: JobId,
    pub plan_generation: u64,
    pub microbatch: u32,
    pub stage_id: u16,
    pub gradient: Vec<i64>,
    pub state_hash: ArtifactId,
}

/// The contents of a [`V4PipelineBackwardResult`].
#[verifier::ext_equal]
pub struct V4PipelineBackwardResultView {
    pub request_id: JobId,
    pub job_id: JobId,
    pub plan_generation: u64,
    pub microbatch: u32,
    pub stage_id: u16,
    pub gradient: Seq<i64>,
    pub state_hash: ArtifactId,
}

impl View for V4PipelineBackwardResult {
    type V = V4PipelineBackwardResultView;

    open spec fn view(&self) -> V4PipelineBackwardResultView {
        V4PipelineBackwardResultView {
            request_id: self.request_id,
            job_id: self.job_id,
            plan_generation: self.plan_generation,
            microbatch: self.microbatch,
            stage_id: self.stage_id,
            gradient: self.gradient@,
            state_hash: self.state_hash,
        }
    }
}

impl Duplicate for V4PipelineBackwardResult {
    fn duplicate(&self) -> (r: V4PipelineBackwardResult) {
        V4PipelineBackwardResult {
            request_id: self.request_id,
            job_id: self.job_id,
            plan_generation: self.plan_generation,
            microbatch: self.microbatch,
            stage_id: self.stage_id,
            gradient: self.gradient.clone(),
            state_hash: self.state_hash,
        }
    }
}

/// The values of one contributor.
#[derive(Debug, PartialEq, Eq)]
pub struct V4CollectiveContribute {
    pub request_id: JobId,
    pub job_id: JobId,
    pub plan_generation: u64,
    pub generation: u64,
    pub group_id: u16,
    pub contributor: NodeId,
    pub aggregator: NodeId,
    pub parent: Option<NodeId>,
    pub expected_contributors: u16,
    pub expected_groups: u16,
    pub values: Vec<i64>,
    pub reply_to: NodeId,
}

/// The contents of a [`V4CollectiveContribute`].
#[verifier::ext_equal]
pub struct V4CollectiveContributeView {
    pub request_id: JobId,
    pub job_id: JobId,
    pub plan_generation: u64,
    pub generation: u64,
    pub group_id: u16,
    pub contributor: NodeId,
    pub aggregator: NodeId,
    pub parent: Option<NodeId>,
    pub expected_contributors: u16,
    pub expected_groups: u16,
    pub values: Seq<i64>,
    pub reply_to: NodeId,
}

impl View for V4CollectiveContribute {
    type V = V4CollectiveContributeView;

    open spec fn view(&self) -> V4CollectiveContributeView {
        V4CollectiveContributeView {
            request_id: self.request_id,
            job_id: self.job_id,
            plan_generation: self.plan_generation,
            generation: self.generation,
            group_id: self.group_id,
            contributor: self.contributor,
            aggregator: self.aggregator,
            parent: self.parent,
            expected_contributors: self.expected_contributors,
            expected_groups: self.expected_groups,
            values: self.values@,
            reply_to: self.reply_to,
        }
    }
}

impl Duplicate for V4CollectiveContribute {
    fn duplicate(&self) -> (r: V4CollectiveContribute) {
        V4CollectiveContribute {
            request_id: self.request_id,
            job_id: self.job_id,
            plan_generation: self.plan_generation,
            generation: self.generation,
            group_id: self.group_id,
            contributor: self.contributor,
            aggregator: self.aggregator,
            parent: self.parent,
            expected_contributors: self.expected_contributors,
            expected_groups: self.expected_groups,
            values: self.values.clone(),
            reply_to: self.reply_to,
        }
    }
}

/// The sum of one group.
#[derive(Debug, PartialEq, Eq)]
pub struct V4CollectiveAggregate {
    pub request_id: JobId,
    pub job_id: JobId,
    pub plan_generation: u64,
    pub generation: u64,
    pub group_id: u16,
    pub aggregator: NodeId,
    pub values: Vec<i64>,
    pub contributors: u16,
    pub expected_groups: u16,
    pub reply_to: NodeId,
}

/// The contents of a [`V4CollectiveAggregate`].
#[verifier::ext_equal]
pub struct V4CollectiveAggregateView {
    pub request_id: JobId,
    pub job_id: JobId,
    pub plan_generation: u64,
    pub generation: u64,
    pub group_id: u16,
    pub aggregator: NodeId,
    pub values: Seq<i64>,
    pub contributors: u16,
    pub expected_groups: u16,
    pub reply_to: NodeId,
}

impl View for V4CollectiveAggregate {
    type V = V4CollectiveAggregateView;

    open spec fn view(&self) -> V4CollectiveAggregateView {
        V4CollectiveAggregateView {
            request_id: self.request_id,
            job_id: self.job_id,
            plan_generation: self.plan_generation,
            generation: self.generation,
            group_id: self.group_id,
            aggregator: self.aggregator,
            values: self.values@,
            contributors: self.contributors,
            expected_groups: self.expected_groups,
            reply_to: self.reply_to,
        }
    }
}

impl Duplicate for V4CollectiveAggregate {
    fn duplicate(&self) -> (r: V4CollectiveAggregate) {
        V4CollectiveAggregate {
            request_id: self.request_id,
            job_id: self.job_id,
            plan_generation: self.plan_generation,
            generation: self.generation,
            group_id: self.group_id,
            aggregator: self.aggregator,
            values: self.values.clone(),
            contributors: self.contributors,
            expected_groups: self.expected_groups,
            reply_to: self.reply_to,
        }
    }
}

/// The sum of all groups.
#[derive(Debug, PartialEq, Eq)]
pub struct V4CollectiveResult {
    pub request_id: JobId,
    pub job_id: JobId,
    pub plan_generation: u64,
    pub generation: u64,
    pub values: Vec<i64>,
    pub group_count: u16,
    pub max_fan_in: u16,
    pub contributor_bytes: u64,
    pub root_received_bytes: u64,
}

/// The contents of a [`V4CollectiveResult`].
#[verifier::ext_equal]
pub struct V4CollectiveResultView {
    pub request_id: JobId,
    pub job_id: JobId,
    pub plan_generation: u64,
    pub generation: u64,
    pub values: Seq<i64>,
    pub group_count: u16,
    pub max_fan_in: u16,
    pub contributor_bytes: u64,
    pub root_received_bytes: u64,
}

impl View for V4CollectiveResult {
    type V = V4CollectiveResultView;

    open spec fn view(&self) -> V4CollectiveResultView {
        V4CollectiveResultView {
            request_id: self.request_id,
            job_id: self.job_id,
            plan_generation: self.plan_generation,
            generation: self.generation,
            values: self.values@,
            group_count: self.group_count,
            max_fan_in: self.max_fan_in,
            contributor_bytes: self.contributor_bytes,
            root_received_bytes: self.root_received_bytes,
        }
    }
}

impl Duplicate for V4CollectiveResult {
    fn duplicate(&self) -> (r: V4CollectiveResult) {
        V4CollectiveResult {
            request_id: self.request_id,
            job_id: self.job_id,
            plan_generation: self.plan_generation,
            generation: self.generation,
            values: self.values.clone(),
            group_count: self.group_count,
            max_fan_in: self.max_fan_in,
            contributor_bytes: self.contributor_bytes,
            root_received_bytes: self.root_received_bytes,
        }
    }
}

/// The update of an untrusted worker.
#[derive(Debug, PartialEq, Eq)]
pub struct V4ByzantineUpdate {
    pub request_id: JobId,
    pub job_id: JobId,
    pub plan_generation: u64,
    pub generation: u64,
    pub worker: NodeId,
    pub aggregator: NodeId,
    pub sequence: u64,
    pub values: Vec<i64>,
    pub policy: V4ByzantinePolicy,
    pub expected_updates: u16,
    pub reply_to: NodeId,
}

/// The contents of a [`V4ByzantineUpdate`].
#[verifier::ext_equal]
pub struct V4ByzantineUpdateView {
    pub request_id: JobId,
    pub job_id: JobId,
    pub plan_generation: u64,
    pub generation: u64,
    pub worker: NodeId,
    pub aggregator: NodeId,
    pub sequence: u64,
    pub values: Seq<i64>,
    pub policy: V4ByzantinePolicy,
    pub expected_updates: u16,
    pub reply_to: NodeId,
}

impl View for V4ByzantineUpdate {
    type V = V4ByzantineUpdateView;

    open spec fn view(&self) -> V4ByzantineUpdateView {
        V4ByzantineUpdateView {
            request_id: self.request_id,
            job_id: self.job_id,
            plan_generation: self.plan_generation,
            generation: self.generation,
            worker: self.worker,
            aggregator: self.aggregator,
            sequence: self.sequence,
            values: self.values@,
            policy: self.policy,
            expected_updates: self.expected_updates,
            reply_to: self.reply_to,
        }
    }
}

impl Duplicate for V4ByzantineUpdate {
    fn duplicate(&self) -> (r: V4ByzantineUpdate) {
        V4ByzantineUpdate {
            request_id: self.request_id,
            job_id: self.job_id,
            plan_generation: self.plan_generation,
            generation: self.generation,
            worker: self.worker,
            aggregator: self.aggregator,
            sequence: self.sequence,
            values: self.values.clone(),
            policy: self.policy,
            expected_updates: self.expected_updates,
            reply_to: self.reply_to,
        }
    }
}

/// The combined updates.
#[derive(Debug, PartialEq, Eq)]
pub struct V4ByzantineResult {
    pub request_id: JobId,
    pub job_id: JobId,
    pub plan_generation: u64,
    pub generation: u64,
    pub policy: V4ByzantinePolicy,
    pub aggregate: Vec<i64>,
    pub accepted_workers: Vec<NodeId>,
    pub rejected_workers: Vec<NodeId>,
    pub robust: bool,
}

/// The contents of a [`V4ByzantineResult`].
#[verifier::ext_equal]
pub struct V4ByzantineResultView {
    pub request_id: JobId,
    pub job_id: JobId,
    pub plan_generation: u64,
    pub generation: u64,
    pub policy: V4ByzantinePolicy,
    pub aggregate: Seq<i64>,
    pub accepted_workers: Seq<NodeId>,
    pub rejected_workers: Seq<NodeId>,
    pub robust: bool,
}

impl View for V4ByzantineResult {
    type V = V4ByzantineResultView;

    open spec fn view(&self) -> V4ByzantineResultView {
        V4ByzantineResultView {
            request_id: self.request_id,
            job_id: self.job_id,
            plan_generation: self.plan_generation,
            generation: self.generation,
            policy: self.policy,
            aggregate: self.aggregate@,
            accepted_workers: self.accepted_workers@,
            rejected_workers: self.rejected_workers@,
            robust: self.robust,
        }
    }
}

impl Duplicate for V4ByzantineResult {
    fn duplicate(&self) -> (r: V4ByzantineResult) {
        V4ByzantineResult {
            request_id: self.request_id,
            job_id: self.job_id,
            plan_generation: self.plan_generation,
            generation: self.generation,
            policy: self.policy,
            aggregate: self.aggregate.clone(),
            accepted_workers: self.accepted_workers.clone(),
            rejected_workers: self.rejected_workers.clone(),
            robust: self.robust,
        }
    }
}

} // verus!
