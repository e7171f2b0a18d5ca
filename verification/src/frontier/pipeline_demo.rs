//! The reference pipeline operation: two workers install one stage each, some
//! microbatches pass through both, and one gradient comes back.

use crate::base::arith::clamp_int;
use crate::base::ids::{ArtifactId, NodeId};
use crate::base::ordered::OrdMap;
use crate::base::search::{lemma_views_push, views};
use crate::frontier::dataplane::{
    V4PipelineBackward, V4PipelineBackwardResult, V4PipelineBackwardResultView,
    V4PipelineBackwardView, V4PipelineForward, V4PipelineForwardResult,
    V4PipelineForwardResultView, V4PipelineForwardView, V4PipelineInstall, V4PipelineInstallAck,
};
use crate::frontier::demos::{
    demo_entering, demo_pipeline_backward, demo_pipeline_forward, demo_returning, demo_stage,
    demo_stage_install, demo_stages, in_order, microbatch_count, note_demo_stage, sort_results,
};
use crate::frontier::tensor_demo::both_in;
use crate::frontier::types::{V4TrainingPlan, V4TrainingPlanView};
use vstd::prelude::*;

verus! {

/// Where a pipeline operation stands.
#[derive(Clone, Copy, Debug, PartialEq, Eq, Structural)]
pub enum PipelineDemoStep {
    /// A stage is on its way to the first worker, or to the second one.
    Installing { second: bool },
    /// Both stages have to be installed.
    Installed,
    /// A microbatch is on its way to the first stage.
    Entering { microbatch: u16 },
    /// All microbatches have to come through.
    Forwards,
    /// The gradient is on its way to the second stage.
    Returning,
    /// The gradient has to come back.
    Backward,
    Over,
}

/// A running pipeline operation.
#[derive(Debug)]
pub struct PipelineDemo {
    pub node: NodeId,
    pub stages: (NodeId, NodeId),
    pub microbatches: u16,
    pub installed: OrdMap<ArtifactId>,
    pub results: Vec<V4PipelineForwardResult>,
    pub step: PipelineDemoStep,
}

/// The contents of a [`PipelineDemo`].
#[verifier::ext_equal]
pub struct PipelineDemoView {
    pub node: NodeId,
    pub stages: (NodeId, NodeId),
    pub microbatches: u16,
    pub installed: Map<u16, ArtifactId>,
    pub results: Seq<V4PipelineForwardResultView>,
    pub step: PipelineDemoStep,
}

impl View for PipelineDemo {
    type V = PipelineDemoView;

    open spec fn view(&self) -> PipelineDemoView {
        PipelineDemoView {
            node: self.node,
            stages: self.stages,
            microbatches: self.microbatches,
            installed: self.installed@,
            results: views(self.results@),
            step: self.step,
        }
    }
}

/// A message of a pipeline operation.
#[derive(Debug, PartialEq, Eq)]
pub enum PipelineDemoMessage {
    /// The hash of the state is not set yet.
    Install(V4PipelineInstall),
    Forward(V4PipelineForward),
    Backward(V4PipelineBackward),
}

/// The contents of a [`PipelineDemoMessage`].
pub enum PipelineDemoMessageView {
    Install(V4PipelineInstall),
    Forward(V4PipelineForwardView),
    Backward(V4PipelineBackwardView),
}

impl View for PipelineDemoMessage {
    type V = PipelineDemoMessageView;

    open spec fn view(&self) -> PipelineDemoMessageView {
        match self {
            PipelineDemoMessage::Install(install) => PipelineDemoMessageView::Install(*install),
            PipelineDemoMessage::Forward(forward) => PipelineDemoMessageView::Forward(forward@),
            PipelineDemoMessage::Backward(backward) => PipelineDemoMessageView::Backward(
                backward@,
            ),
        }
    }
}

/// What comes to a pipeline operation.
#[derive(Debug, PartialEq, Eq)]
pub enum PipelineDemoEvent {
    /// Whether the message reached the worker.
    Sent(bool),
    InstallAck(V4PipelineInstallAck),
    Forward(V4PipelineForwardResult),
    Backward(V4PipelineBackwardResult),
    OtherMessage,
    /// No message came in time, or a peer left.
    NoMessage,
}

/// The contents of a [`PipelineDemoEvent`].
pub enum PipelineDemoEventView {
    Sent(bool),
    InstallAck(V4PipelineInstallAck),
    Forward(V4PipelineForwardResultView),
    Backward(V4PipelineBackwardResultView),
    OtherMessage,
    NoMessage,
}

impl View for PipelineDemoEvent {
    type V = PipelineDemoEventView;

    open spec fn view(&self) -> PipelineDemoEventView {
        match self {
            PipelineDemoEvent::Sent(sent) => PipelineDemoEventView::Sent(*sent),
            PipelineDemoEvent::InstallAck(ack) => PipelineDemoEventView::InstallAck(*ack),
            PipelineDemoEvent::Forward(result) => PipelineDemoEventView::Forward(result@),
            PipelineDemoEvent::Backward(result) => PipelineDemoEventView::Backward(result@),
            PipelineDemoEvent::OtherMessage => PipelineDemoEventView::OtherMessage,
            PipelineDemoEvent::NoMessage => PipelineDemoEventView::NoMessage,
        }
    }
}

/// Why a pipeline operation fails.
#[derive(Clone, Copy, Debug, PartialEq, Eq, Structural)]
pub enum PipelineDemoFailure {
    /// A worker was not reached.
    Unreachable,
    /// Not both stages were installed.
    NotInstalled,
    /// Not every microbatch came through.
    NoForward,
    /// The gradient did not come back.
    NoBackward,
}

/// What a pipeline operation does next.
#[derive(Debug, PartialEq, Eq)]
pub enum PipelineDemoAction {
    Send { to: NodeId, message: PipelineDemoMessage },
    /// Wait for a message.
    Wait,
    /// The results in the order of the microbatches, and the gradient.
    Done { results: Vec<V4PipelineForwardResult>, backward: V4PipelineBackwardResult },
    Fail(PipelineDemoFailure),
    /// The event was not awaited.
    Ignore,
}

/// The contents of a [`PipelineDemoAction`].
pub enum PipelineDemoActionView {
    Send { to: NodeId, message: PipelineDemoMessageView },
    Wait,
    Done { results: Seq<V4PipelineForwardResultView>, backward: V4PipelineBackwardResultView },
    Fail(PipelineDemoFailure),
    Ignore,
}

impl View for PipelineDemoAction {
    type V = PipelineDemoActionView;

    open spec fn view(&self) -> PipelineDemoActionView {
        match self {
            PipelineDemoAction::Send { to, message } => PipelineDemoActionView::Send {
                to: *to,
                message: message@,
            },
            PipelineDemoAction::Wait => PipelineDemoActionView::Wait,
            PipelineDemoAction::Done { results, backward } => PipelineDemoActionView::Done {
                results: views(results@),
                backward: backward@,
            },
            PipelineDemoAction::Fail(failure) => PipelineDemoActionView::Fail(*failure),
            PipelineDemoAction::Ignore => PipelineDemoActionView::Ignore,
        }
    }
}

/// A stage goes to its worker.
pub open spec fn stage_sent(d: PipelineDemoView, plan: V4TrainingPlanView, second: bool) -> (
    PipelineDemoView,
    PipelineDemoActionView,
) {
    (
        PipelineDemoView { step: PipelineDemoStep::Installing { second }, ..d },
        PipelineDemoActionView::Send {
            to: if second {
                d.stages.1
            } else {
                d.stages.0
            },
            message: PipelineDemoMessageView::Install(
                demo_stage(
                    plan,
                    if second {
                        1
                    } else {
                        0
                    },
                ),
            ),
        },
    )
}

/// A microbatch goes to the first stage; behind the last one they are awaited.
pub open spec fn microbatch_sent(
    d: PipelineDemoView,
    plan: V4TrainingPlanView,
    microbatch: int,
) -> (PipelineDemoView, PipelineDemoActionView) {
    if microbatch < d.microbatches {
        (
            PipelineDemoView {
                step: PipelineDemoStep::Entering { microbatch: microbatch as u16 },
                ..d
            },
            PipelineDemoActionView::Send {
                to: d.stages.0,
                message: PipelineDemoMessageView::Forward(
                    demo_entering(plan, d.stages.1, d.node, microbatch as u16),
                ),
            },
        )
    } else {
        (
            PipelineDemoView { step: PipelineDemoStep::Forwards, ..d },
            PipelineDemoActionView::Wait,
        )
    }
}

/// The gradient goes to the second stage.
pub open spec fn gradient_sent(d: PipelineDemoView, plan: V4TrainingPlanView) -> (
    PipelineDemoView,
    PipelineDemoActionView,
) {
    (
        PipelineDemoView { step: PipelineDemoStep::Returning, ..d },
        PipelineDemoActionView::Send {
            to: d.stages.1,
            message: PipelineDemoMessageView::Backward(demo_returning(plan, d.stages.0, d.node)),
        },
    )
}

/// The operation ends.
pub open spec fn pipeline_demo_ended(d: PipelineDemoView, action: PipelineDemoActionView) -> (
    PipelineDemoView,
    PipelineDemoActionView,
) {
    (PipelineDemoView { step: PipelineDemoStep::Over, ..d }, action)
}

/// The operation fails.
pub open spec fn pipeline_demo_failed(d: PipelineDemoView, failure: PipelineDemoFailure) -> (
    PipelineDemoView,
    PipelineDemoActionView,
) {
    pipeline_demo_ended(d, PipelineDemoActionView::Fail(failure))
}

/// A message has been sent, or not.
pub open spec fn pipeline_demo_went(d: PipelineDemoView, plan: V4TrainingPlanView, sent: bool) -> (
    PipelineDemoView,
    PipelineDemoActionView,
) {
    match d.step {
        PipelineDemoStep::Installed | PipelineDemoStep::Forwards | PipelineDemoStep::Backward
        | PipelineDemoStep::Over => (d, PipelineDemoActionView::Ignore),
        _ => if !sent {
            pipeline_demo_failed(d, PipelineDemoFailure::Unreachable)
        } else {
            match d.step {
                PipelineDemoStep::Installing { second } => if second {
                    (
                        PipelineDemoView { step: PipelineDemoStep::Installed, ..d },
                        PipelineDemoActionView::Wait,
                    )
                } else {
                    stage_sent(d, plan, true)
                },
                PipelineDemoStep::Entering { microbatch } => microbatch_sent(
                    d,
                    plan,
                    microbatch + 1,
                ),
                _ => (
                    PipelineDemoView { step: PipelineDemoStep::Backward, ..d },
                    PipelineDemoActionView::Wait,
                ),
            }
        },
    }
}

/// The next step of a pipeline operation.
pub open spec fn pipeline_demo_stepped(
    d: PipelineDemoView,
    plan: V4TrainingPlanView,
    event: PipelineDemoEventView,
) -> (PipelineDemoView, PipelineDemoActionView) {
    match event {
        PipelineDemoEventView::Sent(sent) => pipeline_demo_went(d, plan, sent),
        _ => match d.step {
            PipelineDemoStep::Installed => match event {
                PipelineDemoEventView::InstallAck(ack) => {
                    let next = PipelineDemoView {
                        installed: demo_stages(d.installed, plan, ack),
                        ..d
                    };
                    if both_in(next.installed) {
                        microbatch_sent(next, plan, 0)
                    } else {
                        (next, PipelineDemoActionView::Wait)
                    }
                },
                PipelineDemoEventView::NoMessage => pipeline_demo_failed(
                    d,
                    PipelineDemoFailure::NotInstalled,
                ),
                _ => (d, PipelineDemoActionView::Wait),
            },
            PipelineDemoStep::Forwards => match event {
                PipelineDemoEventView::Forward(result) => {
                    let next = PipelineDemoView { results: d.results.push(result), ..d };
                    if next.results.len() >= d.microbatches {
                        gradient_sent(next, plan)
                    } else {
                        (next, PipelineDemoActionView::Wait)
                    }
                },
                PipelineDemoEventView::NoMessage => pipeline_demo_failed(
                    d,
                    PipelineDemoFailure::NoForward,
                ),
                _ => (d, PipelineDemoActionView::Wait),
            },
            PipelineDemoStep::Backward => match event {
                PipelineDemoEventView::Backward(backward) => pipeline_demo_ended(
                    PipelineDemoView { results: Seq::empty(), ..d },
                    PipelineDemoActionView::Done { results: in_order(d.results), backward },
                ),
                PipelineDemoEventView::NoMessage => pipeline_demo_failed(
                    d,
                    PipelineDemoFailure::NoBackward,
                ),
                _ => (d, PipelineDemoActionView::Wait),
            },
            _ => (d, PipelineDemoActionView::Ignore),
        },
    }
}

fn send_stage(d: &mut PipelineDemo, plan: &V4TrainingPlan, second: bool) -> (r: PipelineDemoAction)
    ensures
        (final(d)@, r@) == stage_sent(old(d)@, plan@, second),
{
    d.step = PipelineDemoStep::Installing { second };
    let to = if second {
        d.stages.1
    } else {
        d.stages.0
    };
    let index: u16 = if second {
        1
    } else {
        0
    };
    PipelineDemoAction::Send {
        to,
        message: PipelineDemoMessage::Install(demo_stage_install(plan, index)),
    }
}

fn send_microbatch(d: &mut PipelineDemo, plan: &V4TrainingPlan, microbatch: u16) -> (r:
    PipelineDemoAction)
    ensures
        (final(d)@, r@) == microbatch_sent(old(d)@, plan@, microbatch as int),
{
    if microbatch < d.microbatches {
        d.step = PipelineDemoStep::Entering { microbatch };
        PipelineDemoAction::Send {
            to: d.stages.0,
            message: PipelineDemoMessage::Forward(
                demo_pipeline_forward(plan, d.stages.1, d.node, microbatch),
            ),
        }
    } else {
        d.step = PipelineDemoStep::Forwards;
        PipelineDemoAction::Wait
    }
}

fn send_gradient(d: &mut PipelineDemo, plan: &V4TrainingPlan) -> (r: PipelineDemoAction)
    ensures
        (final(d)@, r@) == gradient_sent(old(d)@, plan@),
{
    d.step = PipelineDemoStep::Returning;
    PipelineDemoAction::Send {
        to: d.stages.1,
        message: PipelineDemoMessage::Backward(demo_pipeline_backward(plan, d.stages.0, d.node)),
    }
}

fn fail(d: &mut PipelineDemo, failure: PipelineDemoFailure) -> (r: PipelineDemoAction)
    ensures
        (final(d)@, r@) == pipeline_demo_failed(old(d)@, failure),
{
    d.step = PipelineDemoStep::Over;
    PipelineDemoAction::Fail(failure)
}

fn went(d: &mut PipelineDemo, plan: &V4TrainingPlan, sent: bool) -> (r: PipelineDemoAction)
    ensures
        (final(d)@, r@) == pipeline_demo_went(old(d)@, plan@, sent),
{
    match d.step {
        PipelineDemoStep::Installed
        | PipelineDemoStep::Forwards
        | PipelineDemoStep::Backward
        | PipelineDemoStep::Over => PipelineDemoAction::Ignore,
        PipelineDemoStep::Installing { second } => {
            if !sent {
                fail(d, PipelineDemoFailure::Unreachable)
            } else if second {
                d.step = PipelineDemoStep::Installed;
                PipelineDemoAction::Wait
            } else {
                send_stage(d, plan, true)
            }
        },
        PipelineDemoStep::Entering { microbatch } => {
            if !sent {
                fail(d, PipelineDemoFailure::Unreachable)
            } else if microbatch >= d.microbatches {
                d.step = PipelineDemoStep::Forwards;
                PipelineDemoAction::Wait
            } else {
                send_microbatch(d, plan, microbatch + 1)
            }
        },
        PipelineDemoStep::Returning => {
            if !sent {
                fail(d, PipelineDemoFailure::Unreachable)
            } else {
                d.step = PipelineDemoStep::Backward;
                PipelineDemoAction::Wait
            }
        },
    }
}

/// A pipeline operation under a plan starts, with one to eight microbatches.
pub open spec fn fresh_pipeline_demo(
    node: NodeId,
    stages: (NodeId, NodeId),
    microbatches: u16,
    plan: V4TrainingPlanView,
) -> (PipelineDemoView, PipelineDemoActionView) {
    stage_sent(
        PipelineDemoView {
            node,
            stages,
            microbatches: clamp_int(microbatches as int, 1, 8) as u16,
            installed: Map::empty(),
            results: Seq::empty(),
            step: PipelineDemoStep::Over,
        },
        plan,
        false,
    )
}

/// Start a pipeline operation over two stages under its plan.
pub fn begin_pipeline_demo(
    node: NodeId,
    stages: (NodeId, NodeId),
    microbatches: u16,
    plan: &V4TrainingPlan,
) -> (r: (PipelineDemo, PipelineDemoAction))
    ensures
        (r.0@, r.1@) == fresh_pipeline_demo(node, stages, microbatches, plan@),
{
    let mut d = PipelineDemo {
        node,
        stages,
        microbatches: microbatch_count(microbatches),
        installed: OrdMap::new(),
        results: Vec::new(),
        step: PipelineDemoStep::Over,
    };
    assert(d@.results =~= Seq::<V4PipelineForwardResultView>::empty());
    let action = send_stage(&mut d, plan, false);
    (d, action)
}

/// Take a pipeline operation one step on.
pub fn pipeline_demo(d: &mut PipelineDemo, plan: &V4TrainingPlan, event: PipelineDemoEvent) -> (r:
    PipelineDemoAction)
    ensures
        (final(d)@, r@) == pipeline_demo_stepped(old(d)@, plan@, event@),
{
    match event {
        PipelineDemoEvent::Sent(sent) => went(d, plan, sent),
        event => match d.step {
            PipelineDemoStep::Installed => match event {
                PipelineDemoEvent::InstallAck(ack) => {
                    note_demo_stage(&mut d.installed, plan, &ack);
                    if d.installed.len() >= 2 {
                        send_microbatch(d, plan, 0)
                    } else {
                        PipelineDemoAction::Wait
                    }
                },
                PipelineDemoEvent::NoMessage => fail(d, PipelineDemoFailure::NotInstalled),
                _ => PipelineDemoAction::Wait,
            },
            PipelineDemoStep::Forwards => match event {
                PipelineDemoEvent::Forward(result) => {
                    proof {
                        lemma_views_push(d.results@, result);
                    }
                    d.results.push(result);
                    if d.results.len() >= d.microbatches as usize {
                        send_gradient(d, plan)
                    } else {
                        PipelineDemoAction::Wait
                    }
                },
                PipelineDemoEvent::NoMessage => fail(d, PipelineDemoFailure::NoForward),
                _ => PipelineDemoAction::Wait,
            },
            PipelineDemoStep::Backward => match event {
                PipelineDemoEvent::Backward(backward) => {
                    let mut arrived: Vec<V4PipelineForwardResult> = Vec::new();
                    std::mem::swap(&mut arrived, &mut d.results);
                    d.step = PipelineDemoStep::Over;
                    assert(views(d.results@) =~= Seq::<V4PipelineForwardResultView>::empty());
                    PipelineDemoAction::Done { results: sort_results(arrived), backward }
                },
                PipelineDemoEvent::NoMessage => fail(d, PipelineDemoFailure::NoBackward),
                _ => PipelineDemoAction::Wait,
            },
            _ => PipelineDemoAction::Ignore,
        },
    }
}

/// Where a pipeline operation stands, what comes before it is there.
pub open spec fn pipeline_demo_ordered(d: PipelineDemoView) -> bool {
    match d.step {
        PipelineDemoStep::Installing { .. } | PipelineDemoStep::Installed => d.results.len() == 0,
        PipelineDemoStep::Entering { .. } => both_in(d.installed) && d.results.len() == 0,
        PipelineDemoStep::Forwards => both_in(d.installed) && d.results.len() < d.microbatches,
        PipelineDemoStep::Returning | PipelineDemoStep::Backward => both_in(d.installed)
            && d.results.len() == d.microbatches,
        PipelineDemoStep::Over => true,
    }
}

/// No microbatch enters before both stages are installed, the gradient comes
/// back only when every microbatch is through, and the operation succeeds only
/// with one result for each of them.
pub proof fn law_pipeline_demo_runs_in_order(
    d: PipelineDemoView,
    plan: V4TrainingPlanView,
    event: PipelineDemoEventView,
)
    requires
        1 <= d.microbatches <= 8,
        pipeline_demo_ordered(d),
    ensures
        ({
            let (next, action) = pipeline_demo_stepped(d, plan, event);
            &&& pipeline_demo_ordered(next)
            &&& next.microbatches == d.microbatches
            &&& action is Done ==> d.results.len() == d.microbatches && action->results == in_order(
                d.results,
            )
        }),
{
}

/// A pipeline operation runs one to eight microbatches over its two workers: each stage
/// goes to its own, microbatches enter at the first, the gradient at the second; results
/// are kept as they come, and the last one brings the gradient on its way.
pub proof fn law_pipeline_demo_uses_both_stages(
    node: NodeId,
    stages: (NodeId, NodeId),
    microbatches: u16,
    plan: V4TrainingPlanView,
    d: PipelineDemoView,
    result: V4PipelineForwardResultView,
)
    ensures
        ({
            let (fresh, action) = fresh_pipeline_demo(node, stages, microbatches, plan);
            &&& fresh.node == node && fresh.stages == stages
            &&& 1 <= fresh.microbatches <= 8
            &&& 1 <= microbatches <= 8 ==> fresh.microbatches == microbatches
            &&& microbatches > 8 ==> fresh.microbatches == 8
            &&& action is Send && action->to == stages.0
            &&& action->message is Install && action->message->Install_0.stage_id == 0
        }),
        d.step == (PipelineDemoStep::Installing { second: false }) ==> ({
            let (after, action) = pipeline_demo_stepped(d, plan, PipelineDemoEventView::Sent(true));
            action is Send && action->to == d.stages.1 && action->message is Install
                && action->message->Install_0.stage_id == 1
        }),
        d.step is Forwards ==> ({
            let (after, action) = pipeline_demo_stepped(
                d,
                plan,
                PipelineDemoEventView::Forward(result),
            );
            &&& after.results == d.results.push(result)
            &&& d.results.len() + 1 < d.microbatches ==> action is Wait
            &&& d.results.len() + 1 >= d.microbatches ==> action is Send && action->to == d.stages.1
                && action->message is Backward
        }),
        d.step is Installed ==> pipeline_demo_stepped(d, plan, PipelineDemoEventView::NoMessage).1
            == PipelineDemoActionView::Fail(PipelineDemoFailure::NotInstalled),
        d.step is Forwards ==> pipeline_demo_stepped(d, plan, PipelineDemoEventView::NoMessage).1
            == PipelineDemoActionView::Fail(PipelineDemoFailure::NoForward),
        d.step is Backward ==> pipeline_demo_stepped(d, plan, PipelineDemoEventView::NoMessage).1
            == PipelineDemoActionView::Fail(PipelineDemoFailure::NoBackward),
{
}

} // verus!
