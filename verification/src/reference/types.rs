//! Records of the reference training protocol.

use crate::base::ids::{ArtifactId, JobId, NodeId};
use crate::base::record::{duplicate_all, Duplicate};
use crate::base::search::views;
use vstd::prelude::*;

verus! {

/// The part a node plays in a job.
#[derive(Clone, Copy, Debug, PartialEq, Eq, Structural)]
pub enum Role {
    Worker,
    Coordinator,
}

impl View for Role {
    type V = Role;

    open spec fn view(&self) -> Role {
        *self
    }
}

impl Duplicate for Role {
    fn duplicate(&self) -> (r: Role) {
        *self
    }
}

/// How a job advances from window to window.
#[derive(Clone, Copy, Debug, PartialEq, Eq, Structural)]
pub enum TrainingExecution {
    /// The coordinator dispatches every group window.
    PeriodicLocalSgd,
    /// Groups advance on their own and publish aggregates.
    AutonomousLocalSgd,
}

impl View for TrainingExecution {
    type V = TrainingExecution;

    open spec fn view(&self) -> TrainingExecution {
        *self
    }
}

impl Duplicate for TrainingExecution {
    fn duplicate(&self) -> (r: TrainingExecution) {
        *self
    }
}

/// One training example of the scalar reference model.
#[derive(Clone, Copy, Debug, PartialEq, Eq, Structural)]
pub struct TrainingSample {
    pub feature: i64,
    pub target: i64,
}

impl View for TrainingSample {
    type V = TrainingSample;

    open spec fn view(&self) -> TrainingSample {
        *self
    }
}

impl Duplicate for TrainingSample {
    fn duplicate(&self) -> (r: TrainingSample) {
        *self
    }
}

/// The workers that train one shard together.
#[derive(Debug, PartialEq, Eq)]
pub struct TrainingGroup {
    pub group_id: u16,
    pub shard_id: u16,
    pub members: Vec<NodeId>,
    pub aggregator: NodeId,
}

/// The contents of a [`TrainingGroup`].
#[verifier::ext_equal]
pub struct TrainingGroupView {
    pub group_id: u16,
    pub shard_id: u16,
    pub members: Seq<NodeId>,
    pub aggregator: NodeId,
}

impl View for TrainingGroup {
    type V = TrainingGroupView;

    open spec fn view(&self) -> TrainingGroupView {
        TrainingGroupView {
            group_id: self.group_id,
            shard_id: self.shard_id,
            members: self.members@,
            aggregator: self.aggregator,
        }
    }
}

impl Duplicate for TrainingGroup {
    fn duplicate(&self) -> (r: TrainingGroup) {
        TrainingGroup {
            group_id: self.group_id,
            shard_id: self.shard_id,
            members: self.members.clone(),
            aggregator: self.aggregator,
        }
    }
}

/// Who owns and who holds copies of one shard.
#[derive(Debug, PartialEq, Eq)]
pub struct TrainingShardAssignment {
    pub shard_id: u16,
    pub group_id: u16,
    pub owners: Vec<NodeId>,
    pub replicas: Vec<NodeId>,
    pub generation: u64,
    pub state_hash: ArtifactId,
}

/// The contents of a [`TrainingShardAssignment`].
#[verifier::ext_equal]
pub struct TrainingShardAssignmentView {
    pub shard_id: u16,
    pub group_id: u16,
    pub owners: Seq<NodeId>,
    pub replicas: Seq<NodeId>,
    pub generation: u64,
    pub state_hash: ArtifactId,
}

impl View for TrainingShardAssignment {
    type V = TrainingShardAssignmentView;

    open spec fn view(&self) -> TrainingShardAssignmentView {
        TrainingShardAssignmentView {
            shard_id: self.shard_id,
            group_id: self.group_id,
            owners: self.owners@,
            replicas: self.replicas@,
            generation: self.generation,
            state_hash: self.state_hash,
        }
    }
}

impl Duplicate for TrainingShardAssignment {
    fn duplicate(&self) -> (r: TrainingShardAssignment) {
        TrainingShardAssignment {
            shard_id: self.shard_id,
            group_id: self.group_id,
            owners: self.owners.clone(),
            replicas: self.replicas.clone(),
            generation: self.generation,
            state_hash: self.state_hash,
        }
    }
}

/// The job description that a worker admits.
#[derive(Debug, PartialEq, Eq)]
pub struct TrainingStart {
    pub job_id: JobId,
    pub coordinator: NodeId,
    pub term: u64,
    pub membership_epoch: u64,
    pub branch: ArtifactId,
    pub plan_hash: ArtifactId,
    pub max_windows: u64,
    pub local_steps: u16,
    pub max_staleness: u16,
    pub checkpoint_every: u64,
    pub execution: TrainingExecution,
    pub model_state_bytes: u64,
    pub shard_state_bytes: u64,
    pub participants: Vec<NodeId>,
    pub groups: Vec<TrainingGroup>,
    pub shards: Vec<TrainingShardAssignment>,
    pub assignment: TrainingShardAssignment,
    pub initial_value: i64,
    pub initial_optimizer: i64,
    pub samples: Vec<TrainingSample>,
}

/// The contents of a [`TrainingStart`].
#[verifier::ext_equal]
pub struct TrainingStartView {
    pub job_id: JobId,
    pub coordinator: NodeId,
    pub term: u64,
    pub membership_epoch: u64,
    pub branch: ArtifactId,
    pub plan_hash: ArtifactId,
    pub max_windows: u64,
    pub local_steps: u16,
    pub max_staleness: u16,
    pub checkpoint_every: u64,
    pub execution: TrainingExecution,
    pub model_state_bytes: u64,
    pub shard_state_bytes: u64,
    pub participants: Seq<NodeId>,
    pub groups: Seq<TrainingGroupView>,
    pub shards: Seq<TrainingShardAssignmentView>,
    pub assignment: TrainingShardAssignmentView,
    pub initial_value: i64,
    pub initial_optimizer: i64,
    pub samples: Seq<TrainingSample>,
}

impl View for TrainingStart {
    type V = TrainingStartView;

    open spec fn view(&self) -> TrainingStartView {
        TrainingStartView {
            job_id: self.job_id,
            coordinator: self.coordinator,
            term: self.term,
            membership_epoch: self.membership_epoch,
            branch: self.branch,
            plan_hash: self.plan_hash,
            max_windows: self.max_windows,
            local_steps: self.local_steps,
            max_staleness: self.max_staleness,
            checkpoint_every: self.checkpoint_every,
            execution: self.execution,
            model_state_bytes: self.model_state_bytes,
            shard_state_bytes: self.shard_state_bytes,
            participants: self.participants@,
            groups: views(self.groups@),
            shards: views(self.shards@),
            assignment: self.assignment@,
            initial_value: self.initial_value,
            initial_optimizer: self.initial_optimizer,
            samples: self.samples@,
        }
    }
}

impl Duplicate for TrainingStart {
    fn duplicate(&self) -> (r: TrainingStart) {
        TrainingStart {
            job_id: self.job_id,
            coordinator: self.coordinator,
            term: self.term,
            membership_epoch: self.membership_epoch,
            branch: self.branch,
            plan_hash: self.plan_hash,
            max_windows: self.max_windows,
            local_steps: self.local_steps,
            max_staleness: self.max_staleness,
            checkpoint_every: self.checkpoint_every,
            execution: self.execution,
            model_state_bytes: self.model_state_bytes,
            shard_state_bytes: self.shard_state_bytes,
            participants: self.participants.clone(),
            groups: duplicate_all(&self.groups),
            shards: duplicate_all(&self.shards),
            assignment: self.assignment.duplicate(),
            initial_value: self.initial_value,
            initial_optimizer: self.initial_optimizer,
            samples: self.samples.clone(),
        }
    }
}

/// What the coordinator knows of one shard.
#[derive(Debug, PartialEq, Eq)]
pub struct TrainingShardSummary {
    pub shard_id: u16,
    pub generation: u64,
    pub state_hash: ArtifactId,
    pub providers: Vec<NodeId>,
}

/// The contents of a [`TrainingShardSummary`].
#[verifier::ext_equal]
pub struct TrainingShardSummaryView {
    pub shard_id: u16,
    pub generation: u64,
    pub state_hash: ArtifactId,
    pub providers: Seq<NodeId>,
}

impl View for TrainingShardSummary {
    type V = TrainingShardSummaryView;

    open spec fn view(&self) -> TrainingShardSummaryView {
        TrainingShardSummaryView {
            shard_id: self.shard_id,
            generation: self.generation,
            state_hash: self.state_hash,
            providers: self.providers@,
        }
    }
}

impl Duplicate for TrainingShardSummary {
    fn duplicate(&self) -> (r: TrainingShardSummary) {
        TrainingShardSummary {
            shard_id: self.shard_id,
            generation: self.generation,
            state_hash: self.state_hash,
            providers: self.providers.clone(),
        }
    }
}

/// The committed coordination state of a job.
#[derive(Debug, PartialEq, Eq)]
pub struct TrainingState {
    pub job_id: JobId,
    pub coordinator: NodeId,
    pub term: u64,
    pub membership_epoch: u64,
    pub branch: ArtifactId,
    pub window: u64,
    pub checkpoint_generation: u64,
    pub checkpoint: Option<ArtifactId>,
    pub shards: Vec<TrainingShardSummary>,
}

/// The contents of a [`TrainingState`].
#[verifier::ext_equal]
pub struct TrainingStateView {
    pub job_id: JobId,
    pub coordinator: NodeId,
    pub term: u64,
    pub membership_epoch: u64,
    pub branch: ArtifactId,
    pub window: u64,
    pub checkpoint_generation: u64,
    pub checkpoint: Option<ArtifactId>,
    pub shards: Seq<TrainingShardSummaryView>,
}

impl View for TrainingState {
    type V = TrainingStateView;

    open spec fn view(&self) -> TrainingStateView {
        TrainingStateView {
            job_id: self.job_id,
            coordinator: self.coordinator,
            term: self.term,
            membership_epoch: self.membership_epoch,
            branch: self.branch,
            window: self.window,
            checkpoint_generation: self.checkpoint_generation,
            checkpoint: self.checkpoint,
            shards: views(self.shards@),
        }
    }
}

impl Duplicate for TrainingState {
    fn duplicate(&self) -> (r: TrainingState) {
        TrainingState {
            job_id: self.job_id,
            coordinator: self.coordinator,
            term: self.term,
            membership_epoch: self.membership_epoch,
            branch: self.branch,
            window: self.window,
            checkpoint_generation: self.checkpoint_generation,
            checkpoint: self.checkpoint,
            shards: duplicate_all(&self.shards),
        }
    }
}

/// A command to train one window of one group.
#[derive(Debug, PartialEq, Eq)]
pub struct TrainingWindow {
    pub job_id: JobId,
    pub coordinator: NodeId,
    pub term: u64,
    pub membership_epoch: u64,
    pub branch: ArtifactId,
    pub window: u64,
    pub group_id: u16,
    pub shard_id: u16,
    pub aggregator: NodeId,
    pub members: Vec<NodeId>,
    pub base_generation: u64,
    pub local_steps: u16,
    pub max_staleness: u16,
}

/// The contents of a [`TrainingWindow`].
#[verifier::ext_equal]
pub struct TrainingWindowView {
    pub job_id: JobId,
    pub coordinator: NodeId,
    pub term: u64,
    pub membership_epoch: u64,
    pub branch: ArtifactId,
    pub window: u64,
    pub group_id: u16,
    pub shard_id: u16,
    pub aggregator: NodeId,
    pub members: Seq<NodeId>,
    pub base_generation: u64,
    pub local_steps: u16,
    pub max_staleness: u16,
}

impl View for TrainingWindow {
    type V = TrainingWindowView;

    open spec fn view(&self) -> TrainingWindowView {
        TrainingWindowView {
            job_id: self.job_id,
            coordinator: self.coordinator,
            term: self.term,
            membership_epoch: self.membership_epoch,
            branch: self.branch,
            window: self.window,
            group_id: self.group_id,
            shard_id: self.shard_id,
            aggregator: self.aggregator,
            members: self.members@,
            base_generation: self.base_generation,
            local_steps: self.local_steps,
            max_staleness: self.max_staleness,
        }
    }
}

impl Duplicate for TrainingWindow {
    fn duplicate(&self) -> (r: TrainingWindow) {
        TrainingWindow {
            job_id: self.job_id,
            coordinator: self.coordinator,
            term: self.term,
            membership_epoch: self.membership_epoch,
            branch: self.branch,
            window: self.window,
            group_id: self.group_id,
            shard_id: self.shard_id,
            aggregator: self.aggregator,
            members: self.members.clone(),
            base_generation: self.base_generation,
            local_steps: self.local_steps,
            max_staleness: self.max_staleness,
        }
    }
}

/// The result of one worker for one window.
#[derive(Clone, Copy, Debug, PartialEq, Eq, Structural)]
pub struct TrainingUpdate {
    pub job_id: JobId,
    pub worker: NodeId,
    pub term: u64,
    pub membership_epoch: u64,
    pub branch: ArtifactId,
    pub window: u64,
    pub shard_id: u16,
    pub base_generation: u64,
    pub update_sequence: u64,
    pub value: i64,
    pub optimizer: i64,
    pub loss: i64,
    pub samples: u32,
}

impl View for TrainingUpdate {
    type V = TrainingUpdate;

    open spec fn view(&self) -> TrainingUpdate {
        *self
    }
}

impl Duplicate for TrainingUpdate {
    fn duplicate(&self) -> (r: TrainingUpdate) {
        *self
    }
}

/// The combined result of one group for one window.
#[derive(Debug, PartialEq, Eq)]
pub struct TrainingAggregate {
    pub job_id: JobId,
    pub aggregator: NodeId,
    pub term: u64,
    pub membership_epoch: u64,
    pub branch: ArtifactId,
    pub window: u64,
    pub group_id: u16,
    pub shard_id: u16,
    pub generation: u64,
    pub value: i64,
    pub optimizer: i64,
    pub loss: i64,
    pub contributors: Vec<NodeId>,
    pub state_artifact: ArtifactId,
    pub replicas: Vec<NodeId>,
}

/// The contents of a [`TrainingAggregate`].
#[verifier::ext_equal]
pub struct TrainingAggregateView {
    pub job_id: JobId,
    pub aggregator: NodeId,
    pub term: u64,
    pub membership_epoch: u64,
    pub branch: ArtifactId,
    pub window: u64,
    pub group_id: u16,
    pub shard_id: u16,
    pub generation: u64,
    pub value: i64,
    pub optimizer: i64,
    pub loss: i64,
    pub contributors: Seq<NodeId>,
    pub state_artifact: ArtifactId,
    pub replicas: Seq<NodeId>,
}

impl View for TrainingAggregate {
    type V = TrainingAggregateView;

    open spec fn view(&self) -> TrainingAggregateView {
        TrainingAggregateView {
            job_id: self.job_id,
            aggregator: self.aggregator,
            term: self.term,
            membership_epoch: self.membership_epoch,
            branch: self.branch,
            window: self.window,
            group_id: self.group_id,
            shard_id: self.shard_id,
            generation: self.generation,
            value: self.value,
            optimizer: self.optimizer,
            loss: self.loss,
            contributors: self.contributors@,
            state_artifact: self.state_artifact,
            replicas: self.replicas@,
        }
    }
}

impl Duplicate for TrainingAggregate {
    fn duplicate(&self) -> (r: TrainingAggregate) {
        TrainingAggregate {
            job_id: self.job_id,
            aggregator: self.aggregator,
            term: self.term,
            membership_epoch: self.membership_epoch,
            branch: self.branch,
            window: self.window,
            group_id: self.group_id,
            shard_id: self.shard_id,
            generation: self.generation,
            value: self.value,
            optimizer: self.optimizer,
            loss: self.loss,
            contributors: self.contributors.clone(),
            state_artifact: self.state_artifact,
            replicas: self.replicas.clone(),
        }
    }
}

/// The complete state of one shard.
#[derive(Clone, Copy, Debug, PartialEq, Eq, Structural)]
pub struct TrainingShardState {
    pub job_id: JobId,
    pub owner: NodeId,
    pub term: u64,
    pub membership_epoch: u64,
    pub branch: ArtifactId,
    pub shard_id: u16,
    pub generation: u64,
    pub value: i64,
    pub optimizer: i64,
    pub state_hash: ArtifactId,
}

impl View for TrainingShardState {
    type V = TrainingShardState;

    open spec fn view(&self) -> TrainingShardState {
        *self
    }
}

impl Duplicate for TrainingShardState {
    fn duplicate(&self) -> (r: TrainingShardState) {
        *self
    }
}

/// A request for votes.
#[derive(Clone, Copy, Debug, PartialEq, Eq, Structural)]
pub struct TrainingElection {
    pub job_id: JobId,
    pub candidate: NodeId,
    pub term: u64,
    pub membership_epoch: u64,
    pub branch: ArtifactId,
    pub last_window: u64,
    pub last_state_hash: ArtifactId,
}

impl View for TrainingElection {
    type V = TrainingElection;

    open spec fn view(&self) -> TrainingElection {
        *self
    }
}

impl Duplicate for TrainingElection {
    fn duplicate(&self) -> (r: TrainingElection) {
        *self
    }
}

/// What an acknowledgement answers.
#[derive(Clone, Copy, Debug, PartialEq, Eq, Structural)]
pub enum TrainingAckKind {
    Start,
    State { window: u64, state_hash: ArtifactId },
    Checkpoint { artifact: ArtifactId },
    Vote { candidate: NodeId, term: u64, last_window: u64, granted: bool },
}

impl View for TrainingAckKind {
    type V = TrainingAckKind;

    open spec fn view(&self) -> TrainingAckKind {
        *self
    }
}

impl Duplicate for TrainingAckKind {
    fn duplicate(&self) -> (r: TrainingAckKind) {
        *self
    }
}

/// An acknowledgement.
#[derive(Clone, Copy, Debug, PartialEq, Eq, Structural)]
pub struct TrainingAck {
    pub job_id: JobId,
    pub peer: NodeId,
    pub term: u64,
    pub kind: TrainingAckKind,
}

impl View for TrainingAck {
    type V = TrainingAck;

    open spec fn view(&self) -> TrainingAck {
        *self
    }
}

impl Duplicate for TrainingAck {
    fn duplicate(&self) -> (r: TrainingAck) {
        *self
    }
}

/// An offer of a shard artifact to a replica.
#[derive(Clone, Copy, Debug, PartialEq, Eq, Structural)]
pub struct TrainingCheckpointOffer {
    pub job_id: JobId,
    pub creator: NodeId,
    pub term: u64,
    pub checkpoint_generation: u64,
    pub shard_id: u16,
    pub artifact: ArtifactId,
}

impl View for TrainingCheckpointOffer {
    type V = TrainingCheckpointOffer;

    open spec fn view(&self) -> TrainingCheckpointOffer {
        *self
    }
}

impl Duplicate for TrainingCheckpointOffer {
    fn duplicate(&self) -> (r: TrainingCheckpointOffer) {
        *self
    }
}

/// One shard of a checkpoint.
#[derive(Debug, PartialEq, Eq)]
pub struct TrainingCheckpointShard {
    pub shard_id: u16,
    pub artifact: ArtifactId,
    pub generation: u64,
    pub providers: Vec<NodeId>,
}

/// The contents of a [`TrainingCheckpointShard`].
#[verifier::ext_equal]
pub struct TrainingCheckpointShardView {
    pub shard_id: u16,
    pub artifact: ArtifactId,
    pub generation: u64,
    pub providers: Seq<NodeId>,
}

impl View for TrainingCheckpointShard {
    type V = TrainingCheckpointShardView;

    open spec fn view(&self) -> TrainingCheckpointShardView {
        TrainingCheckpointShardView {
            shard_id: self.shard_id,
            artifact: self.artifact,
            generation: self.generation,
            providers: self.providers@,
        }
    }
}

impl Duplicate for TrainingCheckpointShard {
    fn duplicate(&self) -> (r: TrainingCheckpointShard) {
        TrainingCheckpointShard {
            shard_id: self.shard_id,
            artifact: self.artifact,
            generation: self.generation,
            providers: self.providers.clone(),
        }
    }
}

/// How far the data of one shard has been consumed.
#[derive(Clone, Copy, Debug, PartialEq, Eq, Structural)]
pub struct DatasetProgress {
    pub shard_id: u16,
    pub window: u64,
}

impl View for DatasetProgress {
    type V = DatasetProgress;

    open spec fn view(&self) -> DatasetProgress {
        *self
    }
}

impl Duplicate for DatasetProgress {
    fn duplicate(&self) -> (r: DatasetProgress) {
        *self
    }
}

/// The manifest of a checkpoint.
#[derive(Debug, PartialEq, Eq)]
pub struct TrainingCheckpointManifest {
    pub job_id: JobId,
    pub model_generation: u64,
    pub optimizer_generation: u64,
    pub membership_epoch: u64,
    pub term: u64,
    pub checkpoint_generation: u64,
    pub parent: Option<ArtifactId>,
    pub shards: Vec<TrainingCheckpointShard>,
    pub dataset_progress: Vec<DatasetProgress>,
    pub hash: ArtifactId,
}

/// The contents of a [`TrainingCheckpointManifest`].
#[verifier::ext_equal]
pub struct TrainingCheckpointManifestView {
    pub job_id: JobId,
    pub model_generation: u64,
    pub optimizer_generation: u64,
    pub membership_epoch: u64,
    pub term: u64,
    pub checkpoint_generation: u64,
    pub parent: Option<ArtifactId>,
    pub shards: Seq<TrainingCheckpointShardView>,
    pub dataset_progress: Seq<DatasetProgress>,
    pub hash: ArtifactId,
}

impl View for TrainingCheckpointManifest {
    type V = TrainingCheckpointManifestView;

    open spec fn view(&self) -> TrainingCheckpointManifestView {
        TrainingCheckpointManifestView {
            job_id: self.job_id,
            model_generation: self.model_generation,
            optimizer_generation: self.optimizer_generation,
            membership_epoch: self.membership_epoch,
            term: self.term,
            checkpoint_generation: self.checkpoint_generation,
            parent: self.parent,
            shards: views(self.shards@),
            dataset_progress: self.dataset_progress@,
            hash: self.hash,
        }
    }
}

impl Duplicate for TrainingCheckpointManifest {
    fn duplicate(&self) -> (r: TrainingCheckpointManifest) {
        TrainingCheckpointManifest {
            job_id: self.job_id,
            model_generation: self.model_generation,
            optimizer_generation: self.optimizer_generation,
            membership_epoch: self.membership_epoch,
            term: self.term,
            checkpoint_generation: self.checkpoint_generation,
            parent: self.parent,
            shards: duplicate_all(&self.shards),
            dataset_progress: self.dataset_progress.clone(),
            hash: self.hash,
        }
    }
}

/// The commit of a checkpoint.
#[derive(Debug, PartialEq, Eq)]
pub struct TrainingCheckpointCommit {
    pub job_id: JobId,
    pub coordinator: NodeId,
    pub term: u64,
    pub membership_epoch: u64,
    pub branch: ArtifactId,
    pub manifest: TrainingCheckpointManifest,
    pub quorum: Vec<NodeId>,
}

/// The contents of a [`TrainingCheckpointCommit`].
#[verifier::ext_equal]
pub struct TrainingCheckpointCommitView {
    pub job_id: JobId,
    pub coordinator: NodeId,
    pub term: u64,
    pub membership_epoch: u64,
    pub branch: ArtifactId,
    pub manifest: TrainingCheckpointManifestView,
    pub quorum: Seq<NodeId>,
}

impl View for TrainingCheckpointCommit {
    type V = TrainingCheckpointCommitView;

    open spec fn view(&self) -> TrainingCheckpointCommitView {
        TrainingCheckpointCommitView {
            job_id: self.job_id,
            coordinator: self.coordinator,
            term: self.term,
            membership_epoch: self.membership_epoch,
            branch: self.branch,
            manifest: self.manifest@,
            quorum: self.quorum@,
        }
    }
}

impl Duplicate for TrainingCheckpointCommit {
    fn duplicate(&self) -> (r: TrainingCheckpointCommit) {
        TrainingCheckpointCommit {
            job_id: self.job_id,
            coordinator: self.coordinator,
            term: self.term,
            membership_epoch: self.membership_epoch,
            branch: self.branch,
            manifest: self.manifest.duplicate(),
            quorum: self.quorum.clone(),
        }
    }
}

/// What the admission policy is shown of an update.
#[derive(Debug, PartialEq, Eq)]
pub struct TrainingContribution {
    pub job_id: JobId,
    pub worker: NodeId,
    pub branch: ArtifactId,
    pub plan_generation: u64,
    pub generation: u64,
    pub sequence: u64,
    pub values: Vec<i64>,
}

/// The contents of a [`TrainingContribution`].
#[verifier::ext_equal]
pub struct TrainingContributionView {
    pub job_id: JobId,
    pub worker: NodeId,
    pub branch: ArtifactId,
    pub plan_generation: u64,
    pub generation: u64,
    pub sequence: u64,
    pub values: Seq<i64>,
}

impl View for TrainingContribution {
    type V = TrainingContributionView;

    open spec fn view(&self) -> TrainingContributionView {
        TrainingContributionView {
            job_id: self.job_id,
            worker: self.worker,
            branch: self.branch,
            plan_generation: self.plan_generation,
            generation: self.generation,
            sequence: self.sequence,
            values: self.values@,
        }
    }
}

impl Duplicate for TrainingContribution {
    fn duplicate(&self) -> (r: TrainingContribution) {
        TrainingContribution {
            job_id: self.job_id,
            worker: self.worker,
            branch: self.branch,
            plan_generation: self.plan_generation,
            generation: self.generation,
            sequence: self.sequence,
            values: self.values.clone(),
        }
    }
}

} // verus!
