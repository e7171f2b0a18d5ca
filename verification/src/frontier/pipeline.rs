//! Pipeline stages: their installation, and the routes that activations and
//! gradients take through them.

use crate::base::ids::{unsigned_hash, ArtifactId, NodeId};
use crate::base::members::contains_id;
use crate::base::search::find;
use crate::frontier::authority::{find_stage, has_stages, runs_stages, staged};
use crate::frontier::dataplane::{
    V4PipelineBackward, V4PipelineBackwardResult, V4PipelineBackwardResultView,
    V4PipelineBackwardView, V4PipelineForward, V4PipelineForwardResult,
    V4PipelineForwardResultView, V4PipelineForwardView, V4PipelineInstall, V4PipelineInstallAck,
};
use crate::frontier::local::V4LocalPipelineStage;
use crate::frontier::types::{
    V4ExecutionGraph, V4ExecutionGraphView, V4PipelineStageAssignment, V4TrainingPlan,
    V4TrainingPlanView,
};
use vstd::prelude::*;

verus! {

/// The stages that a node holds at most.
pub const MAX_PIPELINE_STAGES: usize = 256;

/// The stage that an installation brings.
pub open spec fn installed_stage(install: V4PipelineInstall) -> V4LocalPipelineStage {
    V4LocalPipelineStage {
        job_id: install.job_id,
        plan_generation: install.plan_generation,
        stage_id: install.stage_id,
        stage_count: install.stage_count,
        coefficient: install.coefficient,
        bias: install.bias,
        state_hash: install.state_hash,
    }
}

fn stage_of_install(install: &V4PipelineInstall) -> (r: V4LocalPipelineStage)
    ensures
        r == installed_stage(*install),
{
    V4LocalPipelineStage {
        job_id: install.job_id,
        plan_generation: install.plan_generation,
        stage_id: install.stage_id,
        stage_count: install.stage_count,
        coefficient: install.coefficient,
        bias: install.bias,
        state_hash: install.state_hash,
    }
}

/// The stage to store when a coordinator installs one on itself: one of two,
/// whose hash is the computed one.
pub fn install_local_pipeline_stage(install: &V4PipelineInstall, computed: ArtifactId) -> (r: Option<
    V4LocalPipelineStage,
>)
    ensures
        r == (if computed == install.state_hash && install.stage_count == 2 && install.stage_id
            < install.stage_count {
            Some(installed_stage(*install))
        } else {
            None
        }),
{
    if computed != install.state_hash || install.stage_count != 2 || install.stage_id
        >= install.stage_count {
        return None;
    }
    Some(stage_of_install(install))
}

/// Why an installation is refused.
#[derive(Clone, Copy, Debug, PartialEq, Eq, Structural)]
pub enum PipelineInstallError {
    Invalid,
    HashMismatch,
    /// The graph does not give this node the stage, or the sender does not
    /// lead it.
    WrongTarget,
    /// The plan has no such stage for this node.
    Unauthorized,
    /// Another function of the stage is stored.
    Conflict,
    /// The node holds all the stages it may.
    Full,
}

/// The graph gives `node` the stage, and the sender leads the graph.
pub open spec fn stage_target(
    graph: V4ExecutionGraphView,
    stage_id: u16,
    node: NodeId,
    peer: NodeId,
) -> bool {
    match find(graph.pipeline_stages, staged(stage_id)) {
        Some(s) => (s.worker == node || s.replicas.contains(node)) && peer == graph.coordinator,
        None => false,
    }
}

/// The plan runs the two stages on its workers.
pub open spec fn stage_planned(
    plan: V4TrainingPlanView,
    stage_id: u16,
    stage_count: u16,
    node: NodeId,
) -> bool {
    has_stages(plan.strategy) && plan.pipeline_stages == stage_count && stage_count == 2 && stage_id
        < stage_count && plan.workers.contains(node)
}

fn is_planned(plan: &V4TrainingPlan, stage_id: u16, stage_count: u16, node: NodeId) -> (r: bool)
    ensures
        r == stage_planned(plan@, stage_id, stage_count, node),
{
    runs_stages(plan.strategy) && plan.pipeline_stages == stage_count && stage_count == 2
        && stage_id < stage_count && contains_id(&plan.workers, node)
}

/// The stored stage and the installed one compute the same function.
pub open spec fn same_function(stage: V4LocalPipelineStage, install: V4PipelineInstall) -> bool {
    stage.stage_count == install.stage_count && stage.coefficient == install.coefficient
        && stage.bias == install.bias && stage.state_hash == install.state_hash
}

/// What stands against an installation by an authorized sender.
pub open spec fn stage_refused(
    node: NodeId,
    peer: NodeId,
    graph: Option<V4ExecutionGraphView>,
    plan: V4TrainingPlanView,
    install: V4PipelineInstall,
    existing: Option<V4LocalPipelineStage>,
    held: int,
) -> Option<PipelineInstallError> {
    if graph is Some && !stage_target(graph->0, install.stage_id, node, peer) {
        Some(PipelineInstallError::WrongTarget)
    } else if !stage_planned(plan, install.stage_id, install.stage_count, node) {
        Some(PipelineInstallError::Unauthorized)
    } else {
        match existing {
            Some(e) => if same_function(e, install) && e.plan_generation
                <= install.plan_generation {
                None
            } else {
                Some(PipelineInstallError::Conflict)
            },
            None => if held >= MAX_PIPELINE_STAGES {
                Some(PipelineInstallError::Full)
            } else {
                None
            },
        }
    }
}

/// Take in an installation under a plan, or a graph and its plan, that
/// authorize the sender. The result is the stage to hold and the answer.
pub fn receive_pipeline_install(
    node: NodeId,
    peer: NodeId,
    install: &V4PipelineInstall,
    valid: bool,
    computed: ArtifactId,
    graph: Option<&V4ExecutionGraph>,
    plan: &V4TrainingPlan,
    existing: Option<V4LocalPipelineStage>,
    held: usize,
) -> (r: Result<(V4LocalPipelineStage, V4PipelineInstallAck), PipelineInstallError>)
    ensures
        ({
            let refused = if !valid {
                Some(PipelineInstallError::Invalid)
            } else if computed != install.state_hash {
                Some(PipelineInstallError::HashMismatch)
            } else {
                stage_refused(
                    node,
                    peer,
                    match graph {
                        Some(g) => Some(g@),
                        None => None,
                    },
                    plan@,
                    *install,
                    existing,
                    held as int,
                )
            };
            match r {
                Err(e) => refused == Some(e),
                Ok((stage, ack)) => {
                    &&& refused is None
                    &&& stage == (match existing {
                        Some(e) => V4LocalPipelineStage {
                            plan_generation: install.plan_generation,
                            ..e
                        },
                        None => installed_stage(*install),
                    })
                    &&& ack == (V4PipelineInstallAck {
                        job_id: install.job_id,
                        plan_generation: install.plan_generation,
                        stage_id: install.stage_id,
                        state_hash: install.state_hash,
                        accepted: true,
                    })
                },
            }
        }),
{
    if !valid {
        return Err(PipelineInstallError::Invalid);
    }
    if computed != install.state_hash {
        return Err(PipelineInstallError::HashMismatch);
    }
    match graph {
        Some(graph) => {
            let target = match find_stage(&graph.pipeline_stages, install.stage_id) {
                Some(stage) => (stage.worker == node || contains_id(&stage.replicas, node)) && peer
                    == graph.coordinator,
                None => false,
            };
            if !target {
                return Err(PipelineInstallError::WrongTarget);
            }
        },
        None => {},
    }
    if !is_planned(plan, install.stage_id, install.stage_count, node) {
        return Err(PipelineInstallError::Unauthorized);
    }
    let stage = match existing {
        Some(existing) => {
            if existing.stage_count != install.stage_count || existing.coefficient
                != install.coefficient || existing.bias != install.bias || existing.state_hash
                != install.state_hash || existing.plan_generation > install.plan_generation {
                return Err(PipelineInstallError::Conflict);
            }
            let mut promoted = existing;
            promoted.plan_generation = install.plan_generation;
            promoted
        },
        None => {
            if held >= MAX_PIPELINE_STAGES {
                return Err(PipelineInstallError::Full);
            }
            stage_of_install(install)
        },
    };
    let ack = V4PipelineInstallAck {
        job_id: install.job_id,
        plan_generation: install.plan_generation,
        stage_id: install.stage_id,
        state_hash: install.state_hash,
        accepted: true,
    };
    Ok((stage, ack))
}

/// An installation never changes the function of a stored stage, and never
/// moves it to an earlier plan.
pub proof fn law_stage_function_is_fixed(
    node: NodeId,
    peer: NodeId,
    graph: Option<V4ExecutionGraphView>,
    plan: V4TrainingPlanView,
    install: V4PipelineInstall,
    existing: V4LocalPipelineStage,
    held: int,
)
    requires
        stage_refused(node, peer, graph, plan, install, Some(existing), held) is None,
    ensures
        same_function(existing, install),
        install.plan_generation >= existing.plan_generation,
{
}

/// Why a step is refused.
#[derive(Clone, Copy, Debug, PartialEq, Eq, Structural)]
pub enum PipelineError {
    /// The plan or the route does not authorize the step.
    Unauthorized,
    /// The stage is not here.
    Unavailable,
    /// The stored stage belongs to another plan or count.
    Mismatch,
    /// The last stage has no successor.
    InvalidSuccessor,
    /// Every other stage has one.
    MissingSuccessor,
    /// The first stage has no predecessor.
    InvalidPredecessor,
    /// Every other stage has one.
    MissingPredecessor,
}

/// The worker of a stage.
pub open spec fn stage_worker(graph: V4ExecutionGraphView, stage_id: u16) -> Option<NodeId> {
    match find(graph.pipeline_stages, staged(stage_id)) {
        Some(s) => Some(s.worker),
        None => None,
    }
}

fn worker_of_stage(graph: &V4ExecutionGraph, stage_id: u16) -> (r: Option<NodeId>)
    ensures
        r == stage_worker(graph@, stage_id),
{
    match find_stage(&graph.pipeline_stages, stage_id) {
        Some(stage) => Some(stage.worker),
        None => None,
    }
}

/// The route of an activation: the coordinator starts it at the first stage,
/// which hands it to the second. Outside an integrated job the proposer of the
/// plan starts it, and another worker hands it on.
pub open spec fn forward_route(
    graph: Option<V4ExecutionGraphView>,
    plan: V4TrainingPlanView,
    node: NodeId,
    peer: NodeId,
    f: V4PipelineForwardView,
) -> bool {
    match graph {
        Some(g) => {
            &&& stage_worker(g, 0) is Some
            &&& stage_worker(g, 1) is Some
            &&& f.reply_to == g.coordinator
            &&& stage_worker(g, f.stage_id) == Some(node)
            &&& if f.stage_id == 0 {
                peer == g.coordinator && f.next_stage == stage_worker(g, 1)
            } else {
                f.stage_id == 1 && stage_worker(g, 0) == Some(peer) && f.next_stage is None
            }
        },
        None => if f.stage_id == 0 {
            peer == plan.proposer
        } else {
            peer != plan.proposer
        },
    }
}

/// The plan and the route authorize the step of an activation.
pub open spec fn forward_authorized(
    graph: Option<V4ExecutionGraphView>,
    plan: V4TrainingPlanView,
    node: NodeId,
    peer: NodeId,
    f: V4PipelineForwardView,
) -> bool {
    &&& stage_planned(plan, f.stage_id, f.stage_count, node)
    &&& (f.next_stage matches Some(next) ==> plan.workers.contains(next))
    &&& forward_route(graph, plan, node, peer, f)
}

/// The stored stage serves the step.
pub open spec fn stage_serves(
    stage: V4LocalPipelineStage,
    plan_generation: u64,
    stage_count: u16,
) -> bool {
    stage.plan_generation == plan_generation && stage.stage_count == stage_count
        && stage.stage_count == 2
}

/// Whether an activation may pass through the stored stage.
pub fn receive_pipeline_forward(
    node: NodeId,
    peer: NodeId,
    forward: &V4PipelineForward,
    graph: Option<&V4ExecutionGraph>,
    plan: &V4TrainingPlan,
    stage: Option<V4LocalPipelineStage>,
) -> (r: Result<(), PipelineError>)
    ensures
        ({
            let authorized = forward_authorized(
                match graph {
                    Some(g) => Some(g@),
                    None => None,
                },
                plan@,
                node,
                peer,
                forward@,
            );
            match r {
                Err(PipelineError::Unauthorized) => !authorized,
                Err(PipelineError::Unavailable) => authorized && stage is None,
                Err(PipelineError::Mismatch) => authorized && (stage matches Some(s)
                    && !stage_serves(s, forward@.plan_generation, forward@.stage_count)),
                Ok(()) => authorized && (stage matches Some(s) && stage_serves(
                    s,
                    forward@.plan_generation,
                    forward@.stage_count,
                )),
                Err(_) => false,
            }
        }),
{
    let route = match graph {
        Some(graph) => {
            let first = worker_of_stage(graph, 0);
            let second = worker_of_stage(graph, 1);
            let here = worker_of_stage(graph, forward.stage_id);
            first.is_some() && second.is_some() && forward.reply_to == graph.coordinator && here
                == Some(node) && if forward.stage_id == 0 {
                peer == graph.coordinator && forward.next_stage == second
            } else {
                forward.stage_id == 1 && first == Some(peer) && forward.next_stage.is_none()
            }
        },
        None => if forward.stage_id == 0 {
            peer == plan.proposer
        } else {
            peer != plan.proposer
        },
    };
    let next_known = match forward.next_stage {
        Some(next) => contains_id(&plan.workers, next),
        None => true,
    };
    if !is_planned(plan, forward.stage_id, forward.stage_count, node) || !next_known || !route {
        return Err(PipelineError::Unauthorized);
    }
    match stage {
        None => Err(PipelineError::Unavailable),
        Some(stage) => if stage.plan_generation != forward.plan_generation || stage.stage_count
            != forward.stage_count || stage.stage_count != 2 {
            Err(PipelineError::Mismatch)
        } else {
            Ok(())
        },
    }
}

/// The activation on its way to the next stage.
pub open spec fn handed_on(f: V4PipelineForwardView, activation: Seq<i64>) -> V4PipelineForwardView {
    V4PipelineForwardView {
        stage_id: (f.stage_id + 1) as u16,
        activation,
        next_stage: None,
        ..f
    }
}

/// The activation behind the last stage.
pub open spec fn forward_end(
    f: V4PipelineForwardView,
    activation: Seq<i64>,
    state_hash: ArtifactId,
) -> V4PipelineForwardResultView {
    V4PipelineForwardResultView {
        request_id: f.request_id,
        job_id: f.job_id,
        plan_generation: f.plan_generation,
        microbatch: f.microbatch,
        stage_id: f.stage_id,
        activation,
        state_hash,
    }
}

/// Where an activation goes from a stage.
#[derive(Debug, PartialEq, Eq)]
pub enum ForwardStep {
    Next(NodeId, V4PipelineForward),
    Done(NodeId, V4PipelineForwardResult),
}

/// Hand on the activation that a stage computed.
pub fn forward_step(
    forward: &V4PipelineForward,
    state_hash: ArtifactId,
    activation: Vec<i64>,
) -> (r: Result<ForwardStep, PipelineError>)
    requires
        forward@.stage_id < forward@.stage_count,
    ensures
        ({
            let last = forward@.stage_id + 1 == forward@.stage_count;
            match r {
                Ok(ForwardStep::Next(target, message)) => !last && forward@.next_stage == Some(
                    target,
                ) && message@ == handed_on(forward@, activation@),
                Ok(ForwardStep::Done(target, result)) => last && forward@.next_stage is None
                    && target == forward@.reply_to && result@ == forward_end(
                    forward@,
                    activation@,
                    state_hash,
                ),
                Err(PipelineError::InvalidSuccessor) => last && forward@.next_stage is Some,
                Err(PipelineError::MissingSuccessor) => !last && forward@.next_stage is None,
                Err(_) => false,
            }
        }),
{
    match forward.next_stage {
        Some(next) => {
            if forward.stage_id + 1 >= forward.stage_count {
                return Err(PipelineError::InvalidSuccessor);
            }
            Ok(
                ForwardStep::Next(
                    next,
                    V4PipelineForward {
                        request_id: forward.request_id,
                        job_id: forward.job_id,
                        plan_generation: forward.plan_generation,
                        stage_id: forward.stage_id + 1,
                        stage_count: forward.stage_count,
                        microbatch: forward.microbatch,
                        activation,
                        next_stage: None,
                        reply_to: forward.reply_to,
                        deadline_ms: forward.deadline_ms,
                    },
                ),
            )
        },
        None => {
            if forward.stage_id + 1 != forward.stage_count {
                return Err(PipelineError::MissingSuccessor);
            }
            Ok(
                ForwardStep::Done(
                    forward.reply_to,
                    V4PipelineForwardResult {
                        request_id: forward.request_id,
                        job_id: forward.job_id,
                        plan_generation: forward.plan_generation,
                        microbatch: forward.microbatch,
                        stage_id: forward.stage_id,
                        activation,
                        state_hash,
                    },
                ),
            )
        },
    }
}

/// The deadline of a step, in the range of the compute task.
pub fn step_deadline(deadline_ms: u64) -> (r: u32)
    ensures
        r == crate::base::arith::min_int(deadline_ms as int, u32::MAX as int),
{
    if deadline_ms > u32::MAX as u64 {
        u32::MAX
    } else {
        deadline_ms as u32
    }
}

/// In an integrated job, an activation that the first stage accepts and hands
/// on is accepted by the second.
pub proof fn law_activation_reaches_second_stage(
    graph: V4ExecutionGraphView,
    plan: V4TrainingPlanView,
    first: NodeId,
    peer: NodeId,
    f: V4PipelineForwardView,
    activation: Seq<i64>,
)
    requires
        forward_authorized(Some(graph), plan, first, peer, f),
        f.stage_id == 0,
    ensures
        f.next_stage matches Some(second) && forward_authorized(
            Some(graph),
            plan,
            second,
            first,
            handed_on(f, activation),
        ),
{
}

/// The route of a gradient: the coordinator starts it at the second stage,
/// which hands it to the first. Outside an integrated job the proposer of the
/// plan starts it, and another worker hands it on.
pub open spec fn backward_route(
    graph: Option<V4ExecutionGraphView>,
    plan: V4TrainingPlanView,
    node: NodeId,
    peer: NodeId,
    b: V4PipelineBackwardView,
) -> bool {
    match graph {
        Some(g) => {
            &&& stage_worker(g, 0) is Some
            &&& stage_worker(g, 1) is Some
            &&& b.reply_to == g.coordinator
            &&& stage_worker(g, b.stage_id) == Some(node)
            &&& if b.stage_id == 0 {
                stage_worker(g, 1) == Some(peer) && b.previous_stage is None
            } else {
                b.stage_id == 1 && peer == g.coordinator && b.previous_stage == stage_worker(g, 0)
            }
        },
        None => (b.stage_id == 1 && peer == plan.proposer) || (b.stage_id == 0 && peer
            != plan.proposer),
    }
}

/// The plan and the route authorize the step of a gradient.
pub open spec fn backward_authorized(
    graph: Option<V4ExecutionGraphView>,
    plan: V4TrainingPlanView,
    node: NodeId,
    peer: NodeId,
    b: V4PipelineBackwardView,
) -> bool {
    &&& stage_planned(plan, b.stage_id, b.stage_count, node)
    &&& (b.previous_stage matches Some(previous) ==> plan.workers.contains(previous))
    &&& backward_route(graph, plan, node, peer, b)
}

/// Whether a gradient may pass through the stored stage.
pub fn receive_pipeline_backward(
    node: NodeId,
    peer: NodeId,
    backward: &V4PipelineBackward,
    graph: Option<&V4ExecutionGraph>,
    plan: &V4TrainingPlan,
    stage: Option<V4LocalPipelineStage>,
) -> (r: Result<(), PipelineError>)
    ensures
        ({
            let authorized = backward_authorized(
                match graph {
                    Some(g) => Some(g@),
                    None => None,
                },
                plan@,
                node,
                peer,
                backward@,
            );
            let served = authorized && (stage matches Some(s) && stage_serves(
                s,
                backward@.plan_generation,
                backward@.stage_count,
            ));
            let first = backward@.stage_id == 0;
            match r {
                Err(PipelineError::Unauthorized) => !authorized,
                Err(PipelineError::Unavailable) => authorized && stage is None,
                Err(PipelineError::Mismatch) => authorized && stage is Some && !served,
                Err(PipelineError::InvalidPredecessor) => served && first
                    && backward@.previous_stage is Some,
                Err(PipelineError::MissingPredecessor) => served && !first
                    && backward@.previous_stage is None,
                Ok(()) => served && first == backward@.previous_stage is None,
                Err(_) => false,
            }
        }),
{
    let route = match graph {
        Some(graph) => {
            let first = worker_of_stage(graph, 0);
            let second = worker_of_stage(graph, 1);
            let here = worker_of_stage(graph, backward.stage_id);
            first.is_some() && second.is_some() && backward.reply_to == graph.coordinator && here
                == Some(node) && if backward.stage_id == 0 {
                second == Some(peer) && backward.previous_stage.is_none()
            } else {
                backward.stage_id == 1 && peer == graph.coordinator && backward.previous_stage
                    == first
            }
        },
        None => (backward.stage_id == 1 && peer == plan.proposer) || (backward.stage_id == 0 && peer
            != plan.proposer),
    };
    let previous_known = match backward.previous_stage {
        Some(previous) => contains_id(&plan.workers, previous),
        None => true,
    };
    if !is_planned(plan, backward.stage_id, backward.stage_count, node) || !previous_known
        || !route {
        return Err(PipelineError::Unauthorized);
    }
    match stage {
        None => {
            return Err(PipelineError::Unavailable);
        },
        Some(stage) => {
            if stage.plan_generation != backward.plan_generation || stage.stage_count
                != backward.stage_count || stage.stage_count != 2 {
                return Err(PipelineError::Mismatch);
            }
        },
    }
    if backward.previous_stage.is_some() && backward.stage_id == 0 {
        return Err(PipelineError::InvalidPredecessor);
    }
    if backward.previous_stage.is_none() && backward.stage_id != 0 {
        return Err(PipelineError::MissingPredecessor);
    }
    Ok(())
}

/// The gradient on its way to the previous stage.
pub open spec fn handed_back(b: V4PipelineBackwardView, gradient: Seq<i64>) ->
    V4PipelineBackwardView {
    V4PipelineBackwardView {
        stage_id: (if b.stage_id > 0 {
            b.stage_id - 1
        } else {
            0
        }) as u16,
        gradient,
        previous_stage: None,
        ..b
    }
}

/// The gradient in front of the first stage.
pub open spec fn backward_end(
    b: V4PipelineBackwardView,
    gradient: Seq<i64>,
    state_hash: ArtifactId,
) -> V4PipelineBackwardResultView {
    V4PipelineBackwardResultView {
        request_id: b.request_id,
        job_id: b.job_id,
        plan_generation: b.plan_generation,
        microbatch: b.microbatch,
        stage_id: b.stage_id,
        gradient,
        state_hash,
    }
}

/// Where a gradient goes from a stage.
#[derive(Debug, PartialEq, Eq)]
pub enum BackwardStep {
    Previous(NodeId, V4PipelineBackward),
    Done(NodeId, V4PipelineBackwardResult),
}

/// Hand on the gradient that a stage computed.
pub fn backward_step(
    backward: &V4PipelineBackward,
    state_hash: ArtifactId,
    gradient: Vec<i64>,
) -> (r: BackwardStep)
    ensures
        match r {
            BackwardStep::Previous(target, message) => backward@.previous_stage == Some(target)
                && message@ == handed_back(backward@, gradient@),
            BackwardStep::Done(target, result) => backward@.previous_stage is None && target
                == backward@.reply_to && result@ == backward_end(
                backward@,
                gradient@,
                state_hash,
            ),
        },
{
    match backward.previous_stage {
        Some(previous) => BackwardStep::Previous(
            previous,
            V4PipelineBackward {
                request_id: backward.request_id,
                job_id: backward.job_id,
                plan_generation: backward.plan_generation,
                stage_id: if backward.stage_id > 0 {
                    backward.stage_id - 1
                } else {
                    0
                },
                stage_count: backward.stage_count,
                microbatch: backward.microbatch,
                gradient,
                previous_stage: None,
                reply_to: backward.reply_to,
                deadline_ms: backward.deadline_ms,
            },
        ),
        None => BackwardStep::Done(
            backward.reply_to,
            V4PipelineBackwardResult {
                request_id: backward.request_id,
                job_id: backward.job_id,
                plan_generation: backward.plan_generation,
                microbatch: backward.microbatch,
                stage_id: backward.stage_id,
                gradient,
                state_hash,
            },
        ),
    }
}

/// In an integrated job, a gradient that the second stage accepts and hands
/// back is accepted by the first, whoever leads the job.
pub proof fn law_gradient_reaches_first_stage(
    graph: V4ExecutionGraphView,
    plan: V4TrainingPlanView,
    second: NodeId,
    peer: NodeId,
    b: V4PipelineBackwardView,
    gradient: Seq<i64>,
)
    requires
        backward_authorized(Some(graph), plan, second, peer, b),
        b.stage_id == 1,
    ensures
        b.previous_stage matches Some(first) && backward_authorized(
            Some(graph),
            plan,
            first,
            second,
            handed_back(b, gradient),
        ),
{
}

/// The coefficient and the bias of a stage.
pub open spec fn function_of(stage_id: u16) -> (i64, i64) {
    if stage_id == 0 {
        (2, 1)
    } else {
        (3, 2)
    }
}

pub fn stage_function(stage_id: u16) -> (r: (i64, i64))
    ensures
        r == function_of(stage_id),
{
    if stage_id == 0 {
        (2, 1)
    } else {
        (3, 2)
    }
}

/// The installation of a stage of a graph, before its hash is set.
pub fn integrated_stage_install(
    graph: &V4ExecutionGraph,
    plan: &V4TrainingPlan,
    stage: &V4PipelineStageAssignment,
) -> (r: V4PipelineInstall)
    ensures
        r == (V4PipelineInstall {
            job_id: graph@.job_id,
            plan_generation: plan@.plan_generation,
            stage_id: stage@.stage_id,
            stage_count: graph@.pipeline_stages.len() as u16,
            coefficient: function_of(stage@.stage_id).0,
            bias: function_of(stage@.stage_id).1,
            state_hash: unsigned_hash(),
        }),
{
    let (coefficient, bias) = stage_function(stage.stage_id);
    V4PipelineInstall {
        job_id: graph.job_id,
        plan_generation: plan.plan_generation,
        stage_id: stage.stage_id,
        stage_count: graph.pipeline_stages.len() as u16,
        coefficient,
        bias,
        state_hash: ArtifactId::unsigned(),
    }
}

/// Whether a coordinator may run a step on a stage of its own.
pub fn local_pipeline_stage(stage: Option<V4LocalPipelineStage>, plan_generation: u64) -> (r: Result<
    (),
    PipelineError,
>)
    ensures
        match r {
            Err(PipelineError::Unavailable) => stage is None,
            Err(PipelineError::Mismatch) => stage matches Some(s) && s.plan_generation
                != plan_generation,
            Ok(()) => stage matches Some(s) && s.plan_generation == plan_generation,
            Err(_) => false,
        },
{
    match stage {
        None => Err(PipelineError::Unavailable),
        Some(stage) => if stage.plan_generation != plan_generation {
            Err(PipelineError::Mismatch)
        } else {
            Ok(())
        },
    }
}

/// The first stage doubles and adds one, the second triples and adds two; an installed
/// stage has the function that was sent.
pub proof fn law_stages_compute_their_function(install: V4PipelineInstall, stage_id: u16)
    ensures
        function_of(0) == (2i64, 1i64),
        stage_id > 0 ==> function_of(stage_id) == (3i64, 2i64),
        ({
            let stage = installed_stage(install);
            &&& stage.coefficient == install.coefficient
            &&& stage.bias == install.bias
            &&& stage.stage_id == install.stage_id
            &&& stage.stage_count == install.stage_count
            &&& stage.job_id == install.job_id
            &&& stage.plan_generation == install.plan_generation
            &&& stage.state_hash == install.state_hash
        }),
{
}

/// A microbatch keeps its identity through the stages and carries what the stage made
/// of it: on to the second stage, out behind it, back to the first, and out in front of
/// that.
pub proof fn law_microbatch_keeps_its_identity(
    f: V4PipelineForwardView,
    b: V4PipelineBackwardView,
    values: Seq<i64>,
    state_hash: ArtifactId,
)
    ensures
        ({
            let on = handed_on(f, values);
            &&& f.stage_id < u16::MAX ==> on.stage_id == f.stage_id + 1
            &&& on.activation == values
            &&& on.next_stage is None
            &&& on.request_id == f.request_id
            &&& on.job_id == f.job_id
            &&& on.microbatch == f.microbatch
            &&& on.plan_generation == f.plan_generation
            &&& on.reply_to == f.reply_to
            &&& on.stage_count == f.stage_count
            &&& on.deadline_ms == f.deadline_ms
        }),
        ({
            let end = forward_end(f, values, state_hash);
            &&& end.activation == values
            &&& end.state_hash == state_hash
            &&& end.request_id == f.request_id
            &&& end.job_id == f.job_id
            &&& end.microbatch == f.microbatch
            &&& end.plan_generation == f.plan_generation
            &&& end.stage_id == f.stage_id
        }),
        ({
            let back = handed_back(b, values);
            &&& b.stage_id > 0 ==> back.stage_id == b.stage_id - 1
            &&& back.gradient == values
            &&& back.previous_stage is None
            &&& back.request_id == b.request_id
            &&& back.job_id == b.job_id
            &&& back.microbatch == b.microbatch
            &&& back.plan_generation == b.plan_generation
            &&& back.reply_to == b.reply_to
            &&& back.stage_count == b.stage_count
            &&& back.deadline_ms == b.deadline_ms
        }),
        ({
            let end = backward_end(b, values, state_hash);
            &&& end.gradient == values
            &&& end.state_hash == state_hash
            &&& end.request_id == b.request_id
            &&& end.job_id == b.job_id
            &&& end.microbatch == b.microbatch
            &&& end.plan_generation == b.plan_generation
            &&& end.stage_id == b.stage_id
        }),
{
}

/// A stage is installed only where the graph places it and from the graph's
/// coordinator, in a plan of two stages that has the node as a worker; and it is
/// installed there.
pub proof fn law_stages_are_installed_where_placed(
    node: NodeId,
    peer: NodeId,
    graph: V4ExecutionGraphView,
    plan: V4TrainingPlanView,
    install: V4PipelineInstall,
    held: int,
    k: int,
)
    ensures
        stage_refused(node, peer, Some(graph), plan, install, None, held) is None ==> {
            &&& peer == graph.coordinator
            &&& plan.workers.contains(node)
            &&& plan.pipeline_stages == 2 && install.stage_count == 2 && install.stage_id < 2
            &&& held < 256
            &&& exists|j: int|
                0 <= j < graph.pipeline_stages.len() && (
                #[trigger] graph.pipeline_stages[j]).stage_id == install.stage_id && (
                graph.pipeline_stages[j].worker == node
                    || graph.pipeline_stages[j].replicas.contains(node))
        },
        0 <= k < graph.pipeline_stages.len() && graph.pipeline_stages[k].stage_id
            == install.stage_id && graph.pipeline_stages[k].worker == node && (forall|j: int|
            0 <= j < k ==> (#[trigger] graph.pipeline_stages[j]).stage_id != install.stage_id)
            && peer == graph.coordinator && plan.strategy is Hybrid && plan.pipeline_stages == 2
            && install.stage_count == 2 && install.stage_id < 2 && plan.workers.contains(node)
            && held < 256 ==> stage_refused(
            node,
            peer,
            Some(graph),
            plan,
            install,
            None,
            held,
        ) is None,
{
    let p = staged(install.stage_id);
    crate::base::search::lemma_find_sound(graph.pipeline_stages, p);
    if let Some(s) = find(graph.pipeline_stages, p) {
        let j = graph.pipeline_stages.index_of(s);
        assert(graph.pipeline_stages[j].stage_id == install.stage_id);
    }
    if 0 <= k < graph.pipeline_stages.len() && graph.pipeline_stages[k].stage_id == install.stage_id
        && forall|j: int|
        0 <= j < k ==> (#[trigger] graph.pipeline_stages[j]).stage_id != install.stage_id {
        crate::base::search::lemma_find_at(graph.pipeline_stages, p, k);
    }
}

/// In an integrated job an activation enters at the first stage from the coordinator
/// and at the second from the worker of the first; a gradient goes the other way.
pub proof fn law_routes_go_through_the_stages(
    graph: V4ExecutionGraphView,
    plan: V4TrainingPlanView,
    node: NodeId,
    peer: NodeId,
    f: V4PipelineForwardView,
    b: V4PipelineBackwardView,
)
    ensures
        forward_authorized(Some(graph), plan, node, peer, f) ==> {
            &&& f.reply_to == graph.coordinator
            &&& f.stage_id == 0 ==> peer == graph.coordinator && f.next_stage == stage_worker(
                graph,
                1,
            )
            &&& f.stage_id != 0 ==> f.stage_id == 1 && stage_worker(graph, 0) == Some(peer)
                && f.next_stage is None
            &&& stage_worker(graph, f.stage_id) == Some(node)
            &&& plan.workers.contains(node)
        },
        backward_authorized(Some(graph), plan, node, peer, b) ==> {
            &&& b.reply_to == graph.coordinator
            &&& b.stage_id == 1 ==> peer == graph.coordinator && b.previous_stage == stage_worker(
                graph,
                0,
            )
            &&& b.stage_id != 1 ==> b.stage_id == 0 && stage_worker(graph, 1) == Some(peer)
                && b.previous_stage is None
            &&& stage_worker(graph, b.stage_id) == Some(node)
            &&& plan.workers.contains(node)
        },
        forward_authorized(None, plan, node, peer, f) ==> (f.stage_id == 0 <==> peer
            == plan.proposer),
        backward_authorized(None, plan, node, peer, b) ==> (b.stage_id == 1 <==> peer
            == plan.proposer),
{
}

/// The worker of a stage is the one that the graph names first for its number.
pub proof fn law_stage_worker_is_named(graph: V4ExecutionGraphView, stage_id: u16, k: int)
    requires
        0 <= k < graph.pipeline_stages.len(),
        graph.pipeline_stages[k].stage_id == stage_id,
        forall|j: int| 0 <= j < k ==> (#[trigger] graph.pipeline_stages[j]).stage_id != stage_id,
    ensures
        stage_worker(graph, stage_id) == Some(graph.pipeline_stages[k].worker),
{
    crate::base::search::lemma_find_at(graph.pipeline_stages, staged(stage_id), k);
}

} // verus!
