//! The messages between the nodes of a job, and where they go.

use crate::base::ids::{ArtifactId, JobId, NodeId};
use crate::base::record::Duplicate;
use crate::frontier::control::{
    V4IntegratedAck, V4IntegratedElectionRequest, V4IntegratedElectionVote, V4IntegratedProbe,
    V4IntegratedProbeAck, V4IntegratedStateAck,
};
use crate::frontier::dataplane::{
    V4ByzantineResult, V4ByzantineUpdate, V4CollectiveAggregate, V4CollectiveContribute,
    V4CollectiveResult, V4OptimizerStateAck, V4OptimizerStateInstall, V4PipelineBackward,
    V4PipelineBackwardResult, V4PipelineForward, V4PipelineForwardResult, V4PipelineInstall,
    V4PipelineInstallAck, V4TensorBackward, V4TensorBackwardResult, V4TensorForward,
    V4TensorForwardResult, V4TensorInstall, V4TensorInstallAck, V4TensorReplica, V4TensorReplicaAck,
};
use crate::frontier::driver::V4IntegratedResult;
use crate::frontier::local::{
    V4PlanAck, V4PlanProposalAck, V4ShardMigration, V4ShardMigrationAck, V4ShardMigrationRequest,
};
use crate::frontier::reconcile::{V4ReconcileRequest, V4ReconcileResult, V4TrainingBranch};
use crate::frontier::replication::{
    V4CheckpointRecord, V4OptimizerShardRecord, V4StateAck, V4TrainingStateRecord,
};
use crate::frontier::types::{V4IntegratedStart, V4IntegratedStateRecord, V4TrainingPlan};
use crate::frontier::plan::AckVerdict;
use vstd::prelude::*;

verus! {

/// The answer to a request for a handover.
#[derive(Clone, Copy, Debug, PartialEq, Eq, Structural)]
pub struct V4ShardMigrationResult {
    pub request_id: JobId,
    pub job_id: JobId,
    pub plan_generation: u64,
    pub shard_id: u16,
    pub from: NodeId,
    pub to: NodeId,
    pub ownership_generation: u64,
    pub content_hash: ArtifactId,
    pub accepted: bool,
}

impl View for V4ShardMigrationResult {
    type V = V4ShardMigrationResult;

    open spec fn view(&self) -> V4ShardMigrationResult {
        *self
    }
}

impl Duplicate for V4ShardMigrationResult {
    fn duplicate(&self) -> (r: V4ShardMigrationResult) {
        *self
    }
}

/// What the nodes of a job send each other.
#[derive(Debug, PartialEq, Eq)]
pub enum TrainingV4Message {
    Plan(V4TrainingPlan),
    PlanAck(V4PlanAck),
    PlanProposal(V4TrainingPlan),
    PlanProposalAck(V4PlanProposalAck),
    StateRecord(V4TrainingStateRecord),
    OptimizerShard(V4OptimizerShardRecord),
    CheckpointRecord(V4CheckpointRecord),
    StateAck(V4StateAck),
    ShardMigration(V4ShardMigration),
    ShardMigrationAck(V4ShardMigrationAck),
    ShardMigrationRequest(V4ShardMigrationRequest),
    ShardMigrationResult(V4ShardMigrationResult),
    TensorInstall(V4TensorInstall),
    TensorInstallAck(V4TensorInstallAck),
    TensorForward(V4TensorForward),
    TensorForwardResult(V4TensorForwardResult),
    TensorBackward(V4TensorBackward),
    TensorBackwardResult(V4TensorBackwardResult),
    PipelineInstall(V4PipelineInstall),
    PipelineInstallAck(V4PipelineInstallAck),
    PipelineForward(V4PipelineForward),
    PipelineForwardResult(V4PipelineForwardResult),
    PipelineBackward(V4PipelineBackward),
    PipelineBackwardResult(V4PipelineBackwardResult),
    CollectiveContribute(V4CollectiveContribute),
    CollectiveAggregate(V4CollectiveAggregate),
    CollectiveResult(V4CollectiveResult),
    Branch(V4TrainingBranch),
    Reconcile(V4ReconcileRequest),
    ReconcileResult(V4ReconcileResult),
    ByzantineUpdate(V4ByzantineUpdate),
    ByzantineResult(V4ByzantineResult),
    IntegratedStart(V4IntegratedStart),
    IntegratedAck(V4IntegratedAck),
    IntegratedState(V4IntegratedStateRecord),
    IntegratedStateAck(V4IntegratedStateAck),
    IntegratedProbe(V4IntegratedProbe),
    IntegratedProbeAck(V4IntegratedProbeAck),
    IntegratedElectionRequest(V4IntegratedElectionRequest),
    IntegratedElectionVote(V4IntegratedElectionVote),
    IntegratedResult(V4IntegratedResult),
    TensorReplica(V4TensorReplica),
    TensorReplicaAck(V4TensorReplicaAck),
    OptimizerStateInstall(V4OptimizerStateInstall),
    OptimizerStateAck(V4OptimizerStateAck),
}

/// The job that a message is about.
pub open spec fn job_of(message: TrainingV4Message) -> JobId {
    match message {
        TrainingV4Message::Plan(value) => value.job_id,
        TrainingV4Message::PlanAck(value) => value.job_id,
        TrainingV4Message::PlanProposal(value) => value.job_id,
        TrainingV4Message::PlanProposalAck(value) => value.job_id,
        TrainingV4Message::StateRecord(value) => value.job_id,
        TrainingV4Message::OptimizerShard(value) => value.job_id,
        TrainingV4Message::CheckpointRecord(value) => value.job_id,
        TrainingV4Message::StateAck(value) => value.job_id,
        TrainingV4Message::ShardMigration(value) => value.job_id,
        TrainingV4Message::ShardMigrationAck(value) => value.job_id,
        TrainingV4Message::ShardMigrationRequest(value) => value.job_id,
        TrainingV4Message::ShardMigrationResult(value) => value.job_id,
        TrainingV4Message::TensorInstall(value) => value.job_id,
        TrainingV4Message::TensorInstallAck(value) => value.job_id,
        TrainingV4Message::TensorForward(value) => value.job_id,
        TrainingV4Message::TensorForwardResult(value) => value.job_id,
        TrainingV4Message::TensorBackward(value) => value.job_id,
        TrainingV4Message::TensorBackwardResult(value) => value.job_id,
        TrainingV4Message::PipelineInstall(value) => value.job_id,
        TrainingV4Message::PipelineInstallAck(value) => value.job_id,
        TrainingV4Message::PipelineForward(value) => value.job_id,
        TrainingV4Message::PipelineForwardResult(value) => value.job_id,
        TrainingV4Message::PipelineBackward(value) => value.job_id,
        TrainingV4Message::PipelineBackwardResult(value) => value.job_id,
        TrainingV4Message::CollectiveContribute(value) => value.job_id,
        TrainingV4Message::CollectiveAggregate(value) => value.job_id,
        TrainingV4Message::CollectiveResult(value) => value.job_id,
        TrainingV4Message::Branch(value) => value.job_id,
        TrainingV4Message::Reconcile(value) => value.job_id,
        TrainingV4Message::ReconcileResult(value) => value.job_id,
        TrainingV4Message::ByzantineUpdate(value) => value.job_id,
        TrainingV4Message::ByzantineResult(value) => value.job_id,
        TrainingV4Message::IntegratedStart(value) => value.graph.job_id,
        TrainingV4Message::IntegratedAck(value) => value.job_id,
        TrainingV4Message::IntegratedState(value) => value.job_id,
        TrainingV4Message::IntegratedStateAck(value) => value.job_id,
        TrainingV4Message::IntegratedProbe(value) => value.job_id,
        TrainingV4Message::IntegratedProbeAck(value) => value.job_id,
        TrainingV4Message::IntegratedElectionRequest(value) => value.job_id,
        TrainingV4Message::IntegratedElectionVote(value) => value.job_id,
        TrainingV4Message::IntegratedResult(value) => value.job_id,
        TrainingV4Message::TensorReplica(value) => value.job_id,
        TrainingV4Message::TensorReplicaAck(value) => value.job_id,
        TrainingV4Message::OptimizerStateInstall(value) => value.job_id,
        TrainingV4Message::OptimizerStateAck(value) => value.job_id,
    }
}

/// The job that a message is about.
pub fn message_job_id(message: &TrainingV4Message) -> (r: JobId)
    ensures
        r == job_of(*message),
{
    match message {
        TrainingV4Message::Plan(value) => value.job_id,
        TrainingV4Message::PlanAck(value) => value.job_id,
        TrainingV4Message::PlanProposal(value) => value.job_id,
        TrainingV4Message::PlanProposalAck(value) => value.job_id,
        TrainingV4Message::StateRecord(value) => value.job_id,
        TrainingV4Message::OptimizerShard(value) => value.job_id,
        TrainingV4Message::CheckpointRecord(value) => value.job_id,
        TrainingV4Message::StateAck(value) => value.job_id,
        TrainingV4Message::ShardMigration(value) => value.job_id,
        TrainingV4Message::ShardMigrationAck(value) => value.job_id,
        TrainingV4Message::ShardMigrationRequest(value) => value.job_id,
        TrainingV4Message::ShardMigrationResult(value) => value.job_id,
        TrainingV4Message::TensorInstall(value) => value.job_id,
        TrainingV4Message::TensorInstallAck(value) => value.job_id,
        TrainingV4Message::TensorForward(value) => value.job_id,
        TrainingV4Message::TensorForwardResult(value) => value.job_id,
        TrainingV4Message::TensorBackward(value) => value.job_id,
        TrainingV4Message::TensorBackwardResult(value) => value.job_id,
        TrainingV4Message::PipelineInstall(value) => value.job_id,
        TrainingV4Message::PipelineInstallAck(value) => value.job_id,
        TrainingV4Message::PipelineForward(value) => value.job_id,
        TrainingV4Message::PipelineForwardResult(value) => value.job_id,
        TrainingV4Message::PipelineBackward(value) => value.job_id,
        TrainingV4Message::PipelineBackwardResult(value) => value.job_id,
        TrainingV4Message::CollectiveContribute(value) => value.job_id,
        TrainingV4Message::CollectiveAggregate(value) => value.job_id,
        TrainingV4Message::CollectiveResult(value) => value.job_id,
        TrainingV4Message::Branch(value) => value.job_id,
        TrainingV4Message::Reconcile(value) => value.job_id,
        TrainingV4Message::ReconcileResult(value) => value.job_id,
        TrainingV4Message::ByzantineUpdate(value) => value.job_id,
        TrainingV4Message::ByzantineResult(value) => value.job_id,
        TrainingV4Message::IntegratedStart(value) => value.graph.job_id,
        TrainingV4Message::IntegratedAck(value) => value.job_id,
        TrainingV4Message::IntegratedState(value) => value.job_id,
        TrainingV4Message::IntegratedStateAck(value) => value.job_id,
        TrainingV4Message::IntegratedProbe(value) => value.job_id,
        TrainingV4Message::IntegratedProbeAck(value) => value.job_id,
        TrainingV4Message::IntegratedElectionRequest(value) => value.job_id,
        TrainingV4Message::IntegratedElectionVote(value) => value.job_id,
        TrainingV4Message::IntegratedResult(value) => value.job_id,
        TrainingV4Message::TensorReplica(value) => value.job_id,
        TrainingV4Message::TensorReplicaAck(value) => value.job_id,
        TrainingV4Message::OptimizerStateInstall(value) => value.job_id,
        TrainingV4Message::OptimizerStateAck(value) => value.job_id,
    }
}

/// A message that answers another: it belongs to whoever waits for it.
pub open spec fn is_answer(message: TrainingV4Message) -> bool {
    ||| message is ShardMigrationAck
    ||| message is PlanAck
    ||| message is PlanProposalAck
    ||| message is ShardMigrationResult
    ||| message is StateAck
    ||| message is TensorInstallAck
    ||| message is TensorForwardResult
    ||| message is TensorBackwardResult
    ||| message is PipelineForwardResult
    ||| message is PipelineInstallAck
    ||| message is PipelineBackwardResult
    ||| message is CollectiveResult
    ||| message is Branch
    ||| message is ReconcileResult
    ||| message is ByzantineResult
    ||| message is IntegratedAck
    ||| message is IntegratedStateAck
    ||| message is IntegratedElectionVote
    ||| message is IntegratedResult
    ||| message is TensorReplicaAck
    ||| message is OptimizerStateAck
}

/// Where a message goes.
#[derive(Clone, Copy, Debug, PartialEq, Eq, Structural)]
pub enum Route {
    /// To the handler of its kind.
    Handler,
    /// To whoever runs the job, if anyone does.
    Mailbox(JobId),
}

/// Where an incoming message goes.
pub fn handle_message(message: &TrainingV4Message) -> (r: Route)
    ensures
        r == (if is_answer(*message) {
            Route::Mailbox(job_of(*message))
        } else {
            Route::Handler
        }),
{
    let answer = match message {
        TrainingV4Message::ShardMigrationAck(_)
        | TrainingV4Message::PlanAck(_)
        | TrainingV4Message::PlanProposalAck(_)
        | TrainingV4Message::ShardMigrationResult(_)
        | TrainingV4Message::StateAck(_)
        | TrainingV4Message::TensorInstallAck(_)
        | TrainingV4Message::TensorForwardResult(_)
        | TrainingV4Message::TensorBackwardResult(_)
        | TrainingV4Message::PipelineForwardResult(_)
        | TrainingV4Message::PipelineInstallAck(_)
        | TrainingV4Message::PipelineBackwardResult(_)
        | TrainingV4Message::CollectiveResult(_)
        | TrainingV4Message::Branch(_)
        | TrainingV4Message::ReconcileResult(_)
        | TrainingV4Message::ByzantineResult(_)
        | TrainingV4Message::IntegratedAck(_)
        | TrainingV4Message::IntegratedStateAck(_)
        | TrainingV4Message::IntegratedElectionVote(_)
        | TrainingV4Message::IntegratedResult(_)
        | TrainingV4Message::TensorReplicaAck(_)
        | TrainingV4Message::OptimizerStateAck(_) => true,
        _ => false,
    };
    if answer {
        Route::Mailbox(message_job_id(message))
    } else {
        Route::Handler
    }
}

/// The answer to a request for a handover.
pub fn migration_result(request: &V4ShardMigrationRequest, accepted: bool) -> (r:
    V4ShardMigrationResult)
    ensures
        r == (V4ShardMigrationResult {
            request_id: request.request_id,
            job_id: request.job_id,
            plan_generation: request.plan_generation,
            shard_id: request.shard_id,
            from: request.from,
            to: request.to,
            ownership_generation: request.ownership_generation,
            content_hash: request.content_hash,
            accepted,
        }),
{
    V4ShardMigrationResult {
        request_id: request.request_id,
        job_id: request.job_id,
        plan_generation: request.plan_generation,
        shard_id: request.shard_id,
        from: request.from,
        to: request.to,
        ownership_generation: request.ownership_generation,
        content_hash: request.content_hash,
        accepted,
    }
}

/// Take in the answer to a request for a handover: it counts from the old owner
/// alone, and says whether the handover was carried out.
pub fn on_migration_result(
    request: &V4ShardMigrationRequest,
    peer: NodeId,
    result: &V4ShardMigrationResult,
) -> (r: AckVerdict)
    ensures
        r == (if peer != request.from || result.request_id != request.request_id {
            AckVerdict::Ignored
        } else if result.accepted {
            AckVerdict::Accepted
        } else {
            AckVerdict::Refused
        }),
{
    if peer != request.from || result.request_id != request.request_id {
        AckVerdict::Ignored
    } else if result.accepted {
        AckVerdict::Accepted
    } else {
        AckVerdict::Refused
    }
}

/// A request is for whoever handles it, and every acknowledgement, result and vote is for
/// whoever waits for it.
pub proof fn law_answers_and_requests(message: TrainingV4Message)
    ensures
        message is Plan || message is PlanProposal || message is StateRecord || message
            is OptimizerShard || message is CheckpointRecord || message is ShardMigration || message
            is ShardMigrationRequest || message is TensorInstall || message is TensorForward
            || message is TensorBackward || message is PipelineInstall || message is PipelineForward
            || message is PipelineBackward || message is CollectiveContribute || message
            is CollectiveAggregate || message is Reconcile || message is ByzantineUpdate || message
            is IntegratedStart || message is IntegratedState || message is IntegratedProbe
            || message is IntegratedElectionRequest || message is TensorReplica || message
            is OptimizerStateInstall ==> !is_answer(message),
        message is PlanAck || message is PlanProposalAck || message is StateAck || message
            is ShardMigrationAck || message is ShardMigrationResult || message is TensorInstallAck
            || message is TensorForwardResult || message is TensorBackwardResult || message
            is PipelineInstallAck || message is PipelineForwardResult || message
            is PipelineBackwardResult || message is CollectiveResult || message is ReconcileResult
            || message is ByzantineResult || message is IntegratedAck || message
            is IntegratedStateAck || message is IntegratedElectionVote || message is IntegratedResult
            || message is TensorReplicaAck || message is OptimizerStateAck ==> is_answer(message),
{
}

/// A message is about the job that it names.
pub proof fn law_messages_name_their_job(message: TrainingV4Message)
    ensures
        message matches TrainingV4Message::Plan(m) ==> job_of(message) == m.job_id,
        message matches TrainingV4Message::PlanAck(m) ==> job_of(message) == m.job_id,
        message matches TrainingV4Message::PlanProposal(m) ==> job_of(message) == m.job_id,
        message matches TrainingV4Message::StateRecord(m) ==> job_of(message) == m.job_id,
        message matches TrainingV4Message::OptimizerShard(m) ==> job_of(message) == m.job_id,
        message matches TrainingV4Message::CheckpointRecord(m) ==> job_of(message) == m.job_id,
        message matches TrainingV4Message::ShardMigration(m) ==> job_of(message) == m.job_id,
        message matches TrainingV4Message::ShardMigrationRequest(m) ==> job_of(message)
            == m.job_id,
        message matches TrainingV4Message::TensorInstall(m) ==> job_of(message) == m.job_id,
        message matches TrainingV4Message::TensorForward(m) ==> job_of(message) == m.job_id,
        message matches TrainingV4Message::TensorBackward(m) ==> job_of(message) == m.job_id,
        message matches TrainingV4Message::PipelineForward(m) ==> job_of(message) == m.job_id,
        message matches TrainingV4Message::PipelineBackward(m) ==> job_of(message) == m.job_id,
        message matches TrainingV4Message::CollectiveContribute(m) ==> job_of(message) == m.job_id,
        message matches TrainingV4Message::CollectiveAggregate(m) ==> job_of(message) == m.job_id,
        message matches TrainingV4Message::Reconcile(m) ==> job_of(message) == m.job_id,
        message matches TrainingV4Message::ByzantineUpdate(m) ==> job_of(message) == m.job_id,
        message matches TrainingV4Message::IntegratedStart(m) ==> job_of(message)
            == m.graph.job_id,
        message matches TrainingV4Message::IntegratedState(m) ==> job_of(message) == m.job_id,
        message matches TrainingV4Message::IntegratedProbe(m) ==> job_of(message) == m.job_id,
        message matches TrainingV4Message::IntegratedElectionRequest(m) ==> job_of(message)
            == m.job_id,
        message matches TrainingV4Message::TensorReplica(m) ==> job_of(message) == m.job_id,
        message matches TrainingV4Message::OptimizerStateInstall(m) ==> job_of(message)
            == m.job_id,
{
}

} // verus!
