//! Records of the frontier training protocol: plans, graphs and job state.

use crate::base::ids::{ArtifactId, JobId, NodeId};
use crate::base::record::{duplicate_all, Duplicate};
use crate::base::search::views;
use vstd::prelude::*;

verus! {

/// A kind of compute backend.
#[derive(Clone, Copy, Debug, PartialEq, Eq, Structural)]
pub enum BackendKind {
    Cpu,
    Cuda,
    Rocm,
    Metal,
}

impl View for BackendKind {
    type V = BackendKind;

    open spec fn view(&self) -> BackendKind {
        *self
    }
}

impl Duplicate for BackendKind {
    fn duplicate(&self) -> (r: BackendKind) {
        *self
    }
}

/// How well a backend works.
#[derive(Clone, Copy, Debug, PartialEq, Eq, Structural)]
pub enum BackendHealth {
    Healthy,
    Degraded,
    Unavailable,
}

impl View for BackendHealth {
    type V = BackendHealth;

    open spec fn view(&self) -> BackendHealth {
        *self
    }
}

impl Duplicate for BackendHealth {
    fn duplicate(&self) -> (r: BackendHealth) {
        *self
    }
}

/// A role that a backend is bound to.
#[derive(Clone, Copy, Debug, PartialEq, Eq, Structural)]
pub enum ComputeTaskKind {
    TensorForward,
    TensorBackward,
    PipelineForward,
    PipelineBackward,
    Reference,
}

impl View for ComputeTaskKind {
    type V = ComputeTaskKind;

    open spec fn view(&self) -> ComputeTaskKind {
        *self
    }
}

impl Duplicate for ComputeTaskKind {
    fn duplicate(&self) -> (r: ComputeTaskKind) {
        *self
    }
}

/// How a plan spreads the model.
#[derive(Clone, Copy, Debug, PartialEq, Eq, Structural)]
pub enum V4ParallelismStrategy {
    LocalSgd,
    TensorParallel,
    PipelineParallel,
    Hybrid,
}

impl View for V4ParallelismStrategy {
    type V = V4ParallelismStrategy;

    open spec fn view(&self) -> V4ParallelismStrategy {
        *self
    }
}

impl Duplicate for V4ParallelismStrategy {
    fn duplicate(&self) -> (r: V4ParallelismStrategy) {
        *self
    }
}

/// Whether a shard is in use or on its way.
#[derive(Clone, Copy, Debug, PartialEq, Eq, Structural)]
pub enum V4ShardLifecycle {
    Active,
    Transferring,
}

impl View for V4ShardLifecycle {
    type V = V4ShardLifecycle;

    open spec fn view(&self) -> V4ShardLifecycle {
        *self
    }
}

impl Duplicate for V4ShardLifecycle {
    fn duplicate(&self) -> (r: V4ShardLifecycle) {
        *self
    }
}

/// The hardware of a worker.
#[derive(Clone, Copy, Debug, PartialEq, Eq, Structural)]
pub enum HardwareKind {
    Cpu,
    AppleSilicon,
    AmdGpu,
    NvidiaConsumer,
    A100,
    H100,
    B200,
    Unknown,
}

impl View for HardwareKind {
    type V = HardwareKind;

    open spec fn view(&self) -> HardwareKind {
        *self
    }
}

impl Duplicate for HardwareKind {
    fn duplicate(&self) -> (r: HardwareKind) {
        *self
    }
}

/// A family of accelerators.
#[derive(Clone, Copy, Debug, PartialEq, Eq, Structural)]
pub enum V4AcceleratorFamily {
    Cpu,
    Cuda,
    Rocm,
    Metal,
}

impl View for V4AcceleratorFamily {
    type V = V4AcceleratorFamily;

    open spec fn view(&self) -> V4AcceleratorFamily {
        *self
    }
}

impl Duplicate for V4AcceleratorFamily {
    fn duplicate(&self) -> (r: V4AcceleratorFamily) {
        *self
    }
}

/// The phase of an integrated job.
#[derive(Clone, Copy, Debug, PartialEq, Eq, Structural)]
pub enum V4IntegratedPhase {
    Preparing,
    Running,
    Reconfiguring,
    Partitioned,
    Committed,
    Failed,
}

impl View for V4IntegratedPhase {
    type V = V4IntegratedPhase;

    open spec fn view(&self) -> V4IntegratedPhase {
        *self
    }
}

impl Duplicate for V4IntegratedPhase {
    fn duplicate(&self) -> (r: V4IntegratedPhase) {
        *self
    }
}

/// A backend that a worker advertises.
#[derive(Clone, Copy, Debug, PartialEq, Eq, Structural)]
pub struct BackendCapability {
    pub kind: BackendKind,
    pub runtime_available: bool,
    pub health: BackendHealth,
}

impl View for BackendCapability {
    type V = BackendCapability;

    open spec fn view(&self) -> BackendCapability {
        *self
    }
}

impl Duplicate for BackendCapability {
    fn duplicate(&self) -> (r: BackendCapability) {
        *self
    }
}

/// What a task asks of a backend.
#[derive(Debug, PartialEq, Eq)]
pub struct ComputeRequirements {
    pub required_backend: Option<BackendKind>,
    pub allowed_backends: Vec<BackendKind>,
    pub fallback_backends: Vec<BackendKind>,
    pub fallback_allowed: bool,
}

/// The contents of a [`ComputeRequirements`].
#[verifier::ext_equal]
pub struct ComputeRequirementsView {
    pub required_backend: Option<BackendKind>,
    pub allowed_backends: Seq<BackendKind>,
    pub fallback_backends: Seq<BackendKind>,
    pub fallback_allowed: bool,
}

impl View for ComputeRequirements {
    type V = ComputeRequirementsView;

    open spec fn view(&self) -> ComputeRequirementsView {
        ComputeRequirementsView {
            required_backend: self.required_backend,
            allowed_backends: self.allowed_backends@,
            fallback_backends: self.fallback_backends@,
            fallback_allowed: self.fallback_allowed,
        }
    }
}

impl Duplicate for ComputeRequirements {
    fn duplicate(&self) -> (r: ComputeRequirements) {
        ComputeRequirements {
            required_backend: self.required_backend,
            allowed_backends: self.allowed_backends.clone(),
            fallback_backends: self.fallback_backends.clone(),
            fallback_allowed: self.fallback_allowed,
        }
    }
}

/// A role of a worker bound to a backend.
#[derive(Debug, PartialEq, Eq)]
pub struct BackendAssignment {
    pub task_kind: ComputeTaskKind,
    pub worker: NodeId,
    pub backend: BackendKind,
    pub device_index: u16,
    pub requirements: ComputeRequirements,
}

/// The contents of a [`BackendAssignment`].
#[verifier::ext_equal]
pub struct BackendAssignmentView {
    pub task_kind: ComputeTaskKind,
    pub worker: NodeId,
    pub backend: BackendKind,
    pub device_index: u16,
    pub requirements: ComputeRequirementsView,
}

impl View for BackendAssignment {
    type V = BackendAssignmentView;

    open spec fn view(&self) -> BackendAssignmentView {
        BackendAssignmentView {
            task_kind: self.task_kind,
            worker: self.worker,
            backend: self.backend,
            device_index: self.device_index,
            requirements: self.requirements@,
        }
    }
}

impl Duplicate for BackendAssignment {
    fn duplicate(&self) -> (r: BackendAssignment) {
        BackendAssignment {
            task_kind: self.task_kind,
            worker: self.worker,
            backend: self.backend,
            device_index: self.device_index,
            requirements: self.requirements.duplicate(),
        }
    }
}

/// What an admitted worker can do.
#[derive(Debug, PartialEq, Eq)]
pub struct V4WorkerCapability {
    pub node: NodeId,
    pub family: V4AcceleratorFamily,
    pub device_model: String,
    pub physical_verified: bool,
    pub memory_bytes: u64,
    pub compute_units: u32,
    pub rtt_ms: u32,
    pub bandwidth_mbps: u32,
    pub reliability_permille: u16,
    pub backends: Vec<BackendCapability>,
}

/// The contents of a [`V4WorkerCapability`].
#[verifier::ext_equal]
pub struct V4WorkerCapabilityView {
    pub node: NodeId,
    pub family: V4AcceleratorFamily,
    pub device_model: Seq<char>,
    pub physical_verified: bool,
    pub memory_bytes: u64,
    pub compute_units: u32,
    pub rtt_ms: u32,
    pub bandwidth_mbps: u32,
    pub reliability_permille: u16,
    pub backends: Seq<BackendCapability>,
}

impl View for V4WorkerCapability {
    type V = V4WorkerCapabilityView;

    open spec fn view(&self) -> V4WorkerCapabilityView {
        V4WorkerCapabilityView {
            node: self.node,
            family: self.family,
            device_model: self.device_model@,
            physical_verified: self.physical_verified,
            memory_bytes: self.memory_bytes,
            compute_units: self.compute_units,
            rtt_ms: self.rtt_ms,
            bandwidth_mbps: self.bandwidth_mbps,
            reliability_permille: self.reliability_permille,
            backends: self.backends@,
        }
    }
}

impl Duplicate for V4WorkerCapability {
    fn duplicate(&self) -> (r: V4WorkerCapability) {
        V4WorkerCapability {
            node: self.node,
            family: self.family,
            device_model: self.device_model.clone(),
            physical_verified: self.physical_verified,
            memory_bytes: self.memory_bytes,
            compute_units: self.compute_units,
            rtt_ms: self.rtt_ms,
            bandwidth_mbps: self.bandwidth_mbps,
            reliability_permille: self.reliability_permille,
            backends: self.backends.clone(),
        }
    }
}

/// Who owns one shard, and what it holds.
#[derive(Debug, PartialEq, Eq)]
pub struct V4ShardOwnership {
    pub shard_id: u16,
    pub model_generation: u64,
    pub owners: Vec<NodeId>,
    pub replicas: Vec<NodeId>,
    pub ownership_generation: u64,
    pub content_hash: ArtifactId,
    pub state_bytes: u64,
    pub memory_bytes: u64,
    pub runtime_requirement: String,
    pub lifecycle: V4ShardLifecycle,
}

/// The contents of a [`V4ShardOwnership`].
#[verifier::ext_equal]
pub struct V4ShardOwnershipView {
    pub shard_id: u16,
    pub model_generation: u64,
    pub owners: Seq<NodeId>,
    pub replicas: Seq<NodeId>,
    pub ownership_generation: u64,
    pub content_hash: ArtifactId,
    pub state_bytes: u64,
    pub memory_bytes: u64,
    pub runtime_requirement: Seq<char>,
    pub lifecycle: V4ShardLifecycle,
}

impl View for V4ShardOwnership {
    type V = V4ShardOwnershipView;

    open spec fn view(&self) -> V4ShardOwnershipView {
        V4ShardOwnershipView {
            shard_id: self.shard_id,
            model_generation: self.model_generation,
            owners: self.owners@,
            replicas: self.replicas@,
            ownership_generation: self.ownership_generation,
            content_hash: self.content_hash,
            state_bytes: self.state_bytes,
            memory_bytes: self.memory_bytes,
            runtime_requirement: self.runtime_requirement@,
            lifecycle: self.lifecycle,
        }
    }
}

impl Duplicate for V4ShardOwnership {
    fn duplicate(&self) -> (r: V4ShardOwnership) {
        V4ShardOwnership {
            shard_id: self.shard_id,
            model_generation: self.model_generation,
            owners: self.owners.clone(),
            replicas: self.replicas.clone(),
            ownership_generation: self.ownership_generation,
            content_hash: self.content_hash,
            state_bytes: self.state_bytes,
            memory_bytes: self.memory_bytes,
            runtime_requirement: self.runtime_requirement.clone(),
            lifecycle: self.lifecycle,
        }
    }
}

/// Workers whose updates are combined first.
#[derive(Debug, PartialEq, Eq)]
pub struct V4AggregationGroup {
    pub group_id: u16,
    pub members: Vec<NodeId>,
    pub aggregator: NodeId,
    pub parent: Option<NodeId>,
}

/// The contents of a [`V4AggregationGroup`].
#[verifier::ext_equal]
pub struct V4AggregationGroupView {
    pub group_id: u16,
    pub members: Seq<NodeId>,
    pub aggregator: NodeId,
    pub parent: Option<NodeId>,
}

impl View for V4AggregationGroup {
    type V = V4AggregationGroupView;

    open spec fn view(&self) -> V4AggregationGroupView {
        V4AggregationGroupView {
            group_id: self.group_id,
            members: self.members@,
            aggregator: self.aggregator,
            parent: self.parent,
        }
    }
}

impl Duplicate for V4AggregationGroup {
    fn duplicate(&self) -> (r: V4AggregationGroup) {
        V4AggregationGroup {
            group_id: self.group_id,
            members: self.members.clone(),
            aggregator: self.aggregator,
            parent: self.parent,
        }
    }
}

/// An execution plan.
#[derive(Debug, PartialEq, Eq)]
pub struct V4TrainingPlan {
    pub job_id: JobId,
    pub proposer: NodeId,
    pub plan_generation: u64,
    pub parent_plan_hash: Option<ArtifactId>,
    pub training_epoch: u64,
    pub membership_epoch: u64,
    pub coordination_term: u64,
    pub model_generation: u64,
    pub branch: ArtifactId,
    pub strategy: V4ParallelismStrategy,
    pub tensor_degree: u16,
    pub pipeline_stages: u16,
    pub local_steps: u16,
    pub max_staleness: u16,
    pub checkpoint_replication: u16,
    pub workers: Vec<NodeId>,
    pub worker_capabilities: Vec<V4WorkerCapability>,
    pub groups: Vec<V4AggregationGroup>,
    pub shards: Vec<V4ShardOwnership>,
    pub compute_requirements: Vec<ComputeRequirements>,
    pub backend_assignments: Vec<BackendAssignment>,
    pub plan_hash: ArtifactId,
}

/// The contents of a [`V4TrainingPlan`].
#[verifier::ext_equal]
pub struct V4TrainingPlanView {
    pub job_id: JobId,
    pub proposer: NodeId,
    pub plan_generation: u64,
    pub parent_plan_hash: Option<ArtifactId>,
    pub training_epoch: u64,
    pub membership_epoch: u64,
    pub coordination_term: u64,
    pub model_generation: u64,
    pub branch: ArtifactId,
    pub strategy: V4ParallelismStrategy,
    pub tensor_degree: u16,
    pub pipeline_stages: u16,
    pub local_steps: u16,
    pub max_staleness: u16,
    pub checkpoint_replication: u16,
    pub workers: Seq<NodeId>,
    pub worker_capabilities: Seq<V4WorkerCapabilityView>,
    pub groups: Seq<V4AggregationGroupView>,
    pub shards: Seq<V4ShardOwnershipView>,
    pub compute_requirements: Seq<ComputeRequirementsView>,
    pub backend_assignments: Seq<BackendAssignmentView>,
    pub plan_hash: ArtifactId,
}

impl View for V4TrainingPlan {
    type V = V4TrainingPlanView;

    open spec fn view(&self) -> V4TrainingPlanView {
        V4TrainingPlanView {
            job_id: self.job_id,
            proposer: self.proposer,
            plan_generation: self.plan_generation,
            parent_plan_hash: self.parent_plan_hash,
            training_epoch: self.training_epoch,
            membership_epoch: self.membership_epoch,
            coordination_term: self.coordination_term,
            model_generation: self.model_generation,
            branch: self.branch,
            strategy: self.strategy,
            tensor_degree: self.tensor_degree,
            pipeline_stages: self.pipeline_stages,
            local_steps: self.local_steps,
            max_staleness: self.max_staleness,
            checkpoint_replication: self.checkpoint_replication,
            workers: self.workers@,
            worker_capabilities: views(self.worker_capabilities@),
            groups: views(self.groups@),
            shards: views(self.shards@),
            compute_requirements: views(self.compute_requirements@),
            backend_assignments: views(self.backend_assignments@),
            plan_hash: self.plan_hash,
        }
    }
}

impl Duplicate for V4TrainingPlan {
    fn duplicate(&self) -> (r: V4TrainingPlan) {
        V4TrainingPlan {
            job_id: self.job_id,
            proposer: self.proposer,
            plan_generation: self.plan_generation,
            parent_plan_hash: self.parent_plan_hash,
            training_epoch: self.training_epoch,
            membership_epoch: self.membership_epoch,
            coordination_term: self.coordination_term,
            model_generation: self.model_generation,
            branch: self.branch,
            strategy: self.strategy,
            tensor_degree: self.tensor_degree,
            pipeline_stages: self.pipeline_stages,
            local_steps: self.local_steps,
            max_staleness: self.max_staleness,
            checkpoint_replication: self.checkpoint_replication,
            workers: self.workers.clone(),
            worker_capabilities: duplicate_all(&self.worker_capabilities),
            groups: duplicate_all(&self.groups),
            shards: duplicate_all(&self.shards),
            compute_requirements: duplicate_all(&self.compute_requirements),
            backend_assignments: duplicate_all(&self.backend_assignments),
            plan_hash: self.plan_hash,
        }
    }
}

/// Workers that hold the rows of one tensor.
#[derive(Debug, PartialEq, Eq)]
pub struct V4TensorGroup {
    pub group_id: u16,
    pub members: Vec<NodeId>,
    pub shard_ids: Vec<u16>,
    pub generation: u64,
}

/// The contents of a [`V4TensorGroup`].
#[verifier::ext_equal]
pub struct V4TensorGroupView {
    pub group_id: u16,
    pub members: Seq<NodeId>,
    pub shard_ids: Seq<u16>,
    pub generation: u64,
}

impl View for V4TensorGroup {
    type V = V4TensorGroupView;

    open spec fn view(&self) -> V4TensorGroupView {
        V4TensorGroupView {
            group_id: self.group_id,
            members: self.members@,
            shard_ids: self.shard_ids@,
            generation: self.generation,
        }
    }
}

impl Duplicate for V4TensorGroup {
    fn duplicate(&self) -> (r: V4TensorGroup) {
        V4TensorGroup {
            group_id: self.group_id,
            members: self.members.clone(),
            shard_ids: self.shard_ids.clone(),
            generation: self.generation,
        }
    }
}

/// The worker of one pipeline stage.
#[derive(Debug, PartialEq, Eq)]
pub struct V4PipelineStageAssignment {
    pub stage_id: u16,
    pub worker: NodeId,
    pub replicas: Vec<NodeId>,
    pub generation: u64,
}

/// The contents of a [`V4PipelineStageAssignment`].
#[verifier::ext_equal]
pub struct V4PipelineStageAssignmentView {
    pub stage_id: u16,
    pub worker: NodeId,
    pub replicas: Seq<NodeId>,
    pub generation: u64,
}

impl View for V4PipelineStageAssignment {
    type V = V4PipelineStageAssignmentView;

    open spec fn view(&self) -> V4PipelineStageAssignmentView {
        V4PipelineStageAssignmentView {
            stage_id: self.stage_id,
            worker: self.worker,
            replicas: self.replicas@,
            generation: self.generation,
        }
    }
}

impl Duplicate for V4PipelineStageAssignment {
    fn duplicate(&self) -> (r: V4PipelineStageAssignment) {
        V4PipelineStageAssignment {
            stage_id: self.stage_id,
            worker: self.worker,
            replicas: self.replicas.clone(),
            generation: self.generation,
        }
    }
}

/// Where the optimizer state of one shard lives.
#[derive(Debug, PartialEq, Eq)]
pub struct V4OptimizerPlacement {
    pub shard_id: u16,
    pub owner: NodeId,
    pub replicas: Vec<NodeId>,
    pub generation: u64,
}

/// The contents of a [`V4OptimizerPlacement`].
#[verifier::ext_equal]
pub struct V4OptimizerPlacementView {
    pub shard_id: u16,
    pub owner: NodeId,
    pub replicas: Seq<NodeId>,
    pub generation: u64,
}

impl View for V4OptimizerPlacement {
    type V = V4OptimizerPlacementView;

    open spec fn view(&self) -> V4OptimizerPlacementView {
        V4OptimizerPlacementView {
            shard_id: self.shard_id,
            owner: self.owner,
            replicas: self.replicas@,
            generation: self.generation,
        }
    }
}

impl Duplicate for V4OptimizerPlacement {
    fn duplicate(&self) -> (r: V4OptimizerPlacement) {
        V4OptimizerPlacement {
            shard_id: self.shard_id,
            owner: self.owner,
            replicas: self.replicas.clone(),
            generation: self.generation,
        }
    }
}

/// The graph that an integrated job runs on.
#[derive(Debug, PartialEq, Eq)]
pub struct V4ExecutionGraph {
    pub job_id: JobId,
    pub graph_generation: u64,
    pub parent_graph_generation: Option<u64>,
    pub proposer: NodeId,
    pub coordinator: NodeId,
    pub reply_to: NodeId,
    pub plan_hash: ArtifactId,
    pub branch: ArtifactId,
    pub training_epoch: u64,
    pub membership_epoch: u64,
    pub coordination_term: u64,
    pub optimizer_generation: u64,
    pub checkpoint_generation: u64,
    pub workers: Vec<NodeId>,
    pub tensor_groups: Vec<V4TensorGroup>,
    pub pipeline_stages: Vec<V4PipelineStageAssignment>,
    pub aggregation_groups: Vec<V4AggregationGroup>,
    pub shards: Vec<V4ShardOwnership>,
    pub optimizer_shards: Vec<V4OptimizerPlacement>,
    pub collective_generation: u64,
    pub local_steps: u16,
    pub max_staleness: u16,
    pub checkpoint_replication: u16,
    pub strategy: V4ParallelismStrategy,
    pub retired_workers: Vec<NodeId>,
    pub election_certificate: Vec<NodeId>,
    pub backend_assignments: Vec<BackendAssignment>,
    pub graph_hash: ArtifactId,
}

/// The contents of a [`V4ExecutionGraph`].
#[verifier::ext_equal]
pub struct V4ExecutionGraphView {
    pub job_id: JobId,
    pub graph_generation: u64,
    pub parent_graph_generation: Option<u64>,
    pub proposer: NodeId,
    pub coordinator: NodeId,
    pub reply_to: NodeId,
    pub plan_hash: ArtifactId,
    pub branch: ArtifactId,
    pub training_epoch: u64,
    pub membership_epoch: u64,
    pub coordination_term: u64,
    pub optimizer_generation: u64,
    pub checkpoint_generation: u64,
    pub workers: Seq<NodeId>,
    pub tensor_groups: Seq<V4TensorGroupView>,
    pub pipeline_stages: Seq<V4PipelineStageAssignmentView>,
    pub aggregation_groups: Seq<V4AggregationGroupView>,
    pub shards: Seq<V4ShardOwnershipView>,
    pub optimizer_shards: Seq<V4OptimizerPlacementView>,
    pub collective_generation: u64,
    pub local_steps: u16,
    pub max_staleness: u16,
    pub checkpoint_replication: u16,
    pub strategy: V4ParallelismStrategy,
    pub retired_workers: Seq<NodeId>,
    pub election_certificate: Seq<NodeId>,
    pub backend_assignments: Seq<BackendAssignmentView>,
    pub graph_hash: ArtifactId,
}

impl View for V4ExecutionGraph {
    type V = V4ExecutionGraphView;

    open spec fn view(&self) -> V4ExecutionGraphView {
        V4ExecutionGraphView {
            job_id: self.job_id,
            graph_generation: self.graph_generation,
            parent_graph_generation: self.parent_graph_generation,
            proposer: self.proposer,
            coordinator: self.coordinator,
            reply_to: self.reply_to,
            plan_hash: self.plan_hash,
            branch: self.branch,
            training_epoch: self.training_epoch,
            membership_epoch: self.membership_epoch,
            coordination_term: self.coordination_term,
            optimizer_generation: self.optimizer_generation,
            checkpoint_generation: self.checkpoint_generation,
            workers: self.workers@,
            tensor_groups: views(self.tensor_groups@),
            pipeline_stages: views(self.pipeline_stages@),
            aggregation_groups: views(self.aggregation_groups@),
            shards: views(self.shards@),
            optimizer_shards: views(self.optimizer_shards@),
            collective_generation: self.collective_generation,
            local_steps: self.local_steps,
            max_staleness: self.max_staleness,
            checkpoint_replication: self.checkpoint_replication,
            strategy: self.strategy,
            retired_workers: self.retired_workers@,
            election_certificate: self.election_certificate@,
            backend_assignments: views(self.backend_assignments@),
            graph_hash: self.graph_hash,
        }
    }
}

impl Duplicate for V4ExecutionGraph {
    fn duplicate(&self) -> (r: V4ExecutionGraph) {
        V4ExecutionGraph {
            job_id: self.job_id,
            graph_generation: self.graph_generation,
            parent_graph_generation: self.parent_graph_generation,
            proposer: self.proposer,
            coordinator: self.coordinator,
            reply_to: self.reply_to,
            plan_hash: self.plan_hash,
            branch: self.branch,
            training_epoch: self.training_epoch,
            membership_epoch: self.membership_epoch,
            coordination_term: self.coordination_term,
            optimizer_generation: self.optimizer_generation,
            checkpoint_generation: self.checkpoint_generation,
            workers: self.workers.clone(),
            tensor_groups: duplicate_all(&self.tensor_groups),
            pipeline_stages: duplicate_all(&self.pipeline_stages),
            aggregation_groups: duplicate_all(&self.aggregation_groups),
            shards: duplicate_all(&self.shards),
            optimizer_shards: duplicate_all(&self.optimizer_shards),
            collective_generation: self.collective_generation,
            local_steps: self.local_steps,
            max_staleness: self.max_staleness,
            checkpoint_replication: self.checkpoint_replication,
            strategy: self.strategy,
            retired_workers: self.retired_workers.clone(),
            election_certificate: self.election_certificate.clone(),
            backend_assignments: duplicate_all(&self.backend_assignments),
            graph_hash: self.graph_hash,
        }
    }
}

/// The progress of an integrated job.
#[derive(Clone, Copy, Debug, PartialEq, Eq, Structural)]
pub struct V4IntegratedStateRecord {
    pub job_id: JobId,
    pub graph_generation: u64,
    pub plan_hash: ArtifactId,
    pub branch: ArtifactId,
    pub coordinator: NodeId,
    pub phase: V4IntegratedPhase,
    pub window: u64,
    pub target_windows: u64,
    pub initial_loss_micros: i64,
    pub current_loss_micros: i64,
    pub checkpoint_generation: u64,
    pub model_generation: u64,
    pub optimizer_generation: u64,
    pub membership_epoch: u64,
    pub collective_generation: u64,
    pub recovery_count: u32,
    pub state_hash: ArtifactId,
}

impl View for V4IntegratedStateRecord {
    type V = V4IntegratedStateRecord;

    open spec fn view(&self) -> V4IntegratedStateRecord {
        *self
    }
}

impl Duplicate for V4IntegratedStateRecord {
    fn duplicate(&self) -> (r: V4IntegratedStateRecord) {
        *self
    }
}

/// The description of an integrated job.
#[derive(Debug, PartialEq, Eq)]
pub struct V4IntegratedStart {
    pub request_id: JobId,
    pub graph: V4ExecutionGraph,
    pub plan: V4TrainingPlan,
    pub windows: u64,
    pub checkpoint_every: u64,
    pub reply_to: NodeId,
}

/// The contents of a [`V4IntegratedStart`].
#[verifier::ext_equal]
pub struct V4IntegratedStartView {
    pub request_id: JobId,
    pub graph: V4ExecutionGraphView,
    pub plan: V4TrainingPlanView,
    pub windows: u64,
    pub checkpoint_every: u64,
    pub reply_to: NodeId,
}

impl View for V4IntegratedStart {
    type V = V4IntegratedStartView;

    open spec fn view(&self) -> V4IntegratedStartView {
        V4IntegratedStartView {
            request_id: self.request_id,
            graph: self.graph@,
            plan: self.plan@,
            windows: self.windows,
            checkpoint_every: self.checkpoint_every,
            reply_to: self.reply_to,
        }
    }
}

impl Duplicate for V4IntegratedStart {
    fn duplicate(&self) -> (r: V4IntegratedStart) {
        V4IntegratedStart {
            request_id: self.request_id,
            graph: self.graph.duplicate(),
            plan: self.plan.duplicate(),
            windows: self.windows,
            checkpoint_every: self.checkpoint_every,
            reply_to: self.reply_to,
        }
    }
}

} // verus!
