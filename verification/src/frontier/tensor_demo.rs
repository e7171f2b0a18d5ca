//! The reference tensor operation: two workers install one half each of a
//! matrix, pass forward, and pass backward.

use crate::base::ids::{ArtifactId, JobId, NodeId};
use crate::base::ordered::{ordered_values, OrdMap};
use crate::frontier::dataplane::{
    V4TensorBackward, V4TensorBackwardResult, V4TensorBackwardResultView, V4TensorBackwardView,
    V4TensorForward, V4TensorForwardResult, V4TensorForwardResultView, V4TensorForwardView,
    V4TensorInstall, V4TensorInstallAck, V4TensorInstallView,
};
use crate::frontier::demos::{
    demo_forwarded, demo_installed, demo_reversed, demo_shards, demo_tensor_backward,
    demo_tensor_forward, demo_tensor_install, note_demo_tensor, output_of, planned_owners,
    tensor_demo_output, tensor_owners, TensorDemoError,
};
use crate::frontier::types::{V4TrainingPlan, V4TrainingPlanView};
use vstd::prelude::*;

verus! {

/// What a tensor operation asks of its workers, in this order.
#[derive(Clone, Copy, Debug, PartialEq, Eq, Structural)]
pub enum TensorDemoPhase {
    Install,
    Forward,
    Backward,
}

/// Where a tensor operation stands.
#[derive(Clone, Copy, Debug, PartialEq, Eq, Structural)]
pub enum TensorDemoStep {
    /// A message is on its way to the first worker, or to the second one.
    Sending { phase: TensorDemoPhase, second: bool },
    /// Both workers have to answer.
    Awaiting { phase: TensorDemoPhase },
    Over,
}

/// A running tensor operation.
#[derive(Debug)]
pub struct TensorDemo {
    pub owners: (NodeId, NodeId),
    pub request_id: JobId,
    pub installed: OrdMap<ArtifactId>,
    pub forwards: OrdMap<V4TensorForwardResult>,
    /// The hashes of the shards after their backward passes.
    pub backwards: OrdMap<ArtifactId>,
    pub step: TensorDemoStep,
}

/// The contents of a [`TensorDemo`].
#[verifier::ext_equal]
pub struct TensorDemoView {
    pub owners: (NodeId, NodeId),
    pub request_id: JobId,
    pub installed: Map<u16, ArtifactId>,
    pub forwards: Map<u16, V4TensorForwardResultView>,
    pub backwards: Map<u16, ArtifactId>,
    pub step: TensorDemoStep,
}

impl View for TensorDemo {
    type V = TensorDemoView;

    open spec fn view(&self) -> TensorDemoView {
        TensorDemoView {
            owners: self.owners,
            request_id: self.request_id,
            installed: self.installed@,
            forwards: self.forwards@,
            backwards: self.backwards@,
            step: self.step,
        }
    }
}

/// A message of a tensor operation.
#[derive(Debug, PartialEq, Eq)]
pub enum TensorDemoMessage {
    /// The hash of the state is not set yet.
    Install(V4TensorInstall),
    Forward(V4TensorForward),
    Backward(V4TensorBackward),
}

/// The contents of a [`TensorDemoMessage`].
pub enum TensorDemoMessageView {
    Install(V4TensorInstallView),
    Forward(V4TensorForwardView),
    Backward(V4TensorBackwardView),
}

impl View for TensorDemoMessage {
    type V = TensorDemoMessageView;

    open spec fn view(&self) -> TensorDemoMessageView {
        match self {
            TensorDemoMessage::Install(install) => TensorDemoMessageView::Install(install@),
            TensorDemoMessage::Forward(forward) => TensorDemoMessageView::Forward(forward@),
            TensorDemoMessage::Backward(backward) => TensorDemoMessageView::Backward(backward@),
        }
    }
}

/// What comes to a tensor operation.
#[derive(Debug, PartialEq, Eq)]
pub enum TensorDemoEvent {
    /// Whether the message reached the worker.
    Sent(bool),
    InstallAck(V4TensorInstallAck),
    Forward(V4TensorForwardResult),
    Backward(V4TensorBackwardResult),
    OtherMessage,
    /// No message came in time, or a peer left.
    NoMessage,
}

/// The contents of a [`TensorDemoEvent`].
pub enum TensorDemoEventView {
    Sent(bool),
    InstallAck(V4TensorInstallAck),
    Forward(V4TensorForwardResultView),
    Backward(V4TensorBackwardResultView),
    OtherMessage,
    NoMessage,
}

impl View for TensorDemoEvent {
    type V = TensorDemoEventView;

    open spec fn view(&self) -> TensorDemoEventView {
        match self {
            TensorDemoEvent::Sent(sent) => TensorDemoEventView::Sent(*sent),
            TensorDemoEvent::InstallAck(ack) => TensorDemoEventView::InstallAck(*ack),
            TensorDemoEvent::Forward(result) => TensorDemoEventView::Forward(result@),
            TensorDemoEvent::Backward(result) => TensorDemoEventView::Backward(result@),
            TensorDemoEvent::OtherMessage => TensorDemoEventView::OtherMessage,
            TensorDemoEvent::NoMessage => TensorDemoEventView::NoMessage,
        }
    }
}

/// Why a tensor operation fails.
#[derive(Clone, Copy, Debug, PartialEq, Eq, Structural)]
pub enum TensorDemoFailure {
    /// A worker was not reached.
    Unreachable,
    /// Not both workers answered.
    Unanswered(TensorDemoPhase),
}

/// What a tensor operation does next.
#[derive(Debug, PartialEq, Eq)]
pub enum TensorDemoAction {
    Send { to: NodeId, message: TensorDemoMessage },
    /// Wait for a message.
    Wait,
    /// The output of both halves, and their states after the backward passes.
    Done { output: Vec<i64>, state_hashes: (ArtifactId, ArtifactId) },
    Fail(TensorDemoFailure),
    /// The event was not awaited.
    Ignore,
}

/// The contents of a [`TensorDemoAction`].
pub enum TensorDemoActionView {
    Send { to: NodeId, message: TensorDemoMessageView },
    Wait,
    Done { output: Seq<i64>, state_hashes: (ArtifactId, ArtifactId) },
    Fail(TensorDemoFailure),
    Ignore,
}

impl View for TensorDemoAction {
    type V = TensorDemoActionView;

    open spec fn view(&self) -> TensorDemoActionView {
        match self {
            TensorDemoAction::Send { to, message } => TensorDemoActionView::Send {
                to: *to,
                message: message@,
            },
            TensorDemoAction::Wait => TensorDemoActionView::Wait,
            TensorDemoAction::Done { output, state_hashes } => TensorDemoActionView::Done {
                output: output@,
                state_hashes: *state_hashes,
            },
            TensorDemoAction::Fail(failure) => TensorDemoActionView::Fail(*failure),
            TensorDemoAction::Ignore => TensorDemoActionView::Ignore,
        }
    }
}

/// Answers for two shards are there.
pub open spec fn both_in<A>(m: Map<u16, A>) -> bool {
    ordered_values(m).len() >= 2
}

/// A message of a phase goes to a worker.
pub open spec fn tensor_demo_sent(
    d: TensorDemoView,
    plan: V4TrainingPlanView,
    phase: TensorDemoPhase,
    second: bool,
) -> (TensorDemoView, TensorDemoActionView) {
    let index: u16 = if second {
        1
    } else {
        0
    };
    (
        TensorDemoView { step: TensorDemoStep::Sending { phase, second }, ..d },
        TensorDemoActionView::Send {
            to: if second {
                d.owners.1
            } else {
                d.owners.0
            },
            message: match phase {
                TensorDemoPhase::Install => TensorDemoMessageView::Install(
                    demo_installed(plan, index),
                ),
                TensorDemoPhase::Forward => TensorDemoMessageView::Forward(
                    demo_forwarded(plan, d.request_id, index),
                ),
                TensorDemoPhase::Backward => TensorDemoMessageView::Backward(
                    demo_reversed(plan, d.request_id, index),
                ),
            },
        },
    )
}

/// The operation ends.
pub open spec fn tensor_demo_ended(d: TensorDemoView, action: TensorDemoActionView) -> (
    TensorDemoView,
    TensorDemoActionView,
) {
    (TensorDemoView { step: TensorDemoStep::Over, ..d }, action)
}

/// The operation is done when both shards have answered the backward pass.
pub open spec fn tensor_demo_finished(d: TensorDemoView) -> (TensorDemoView, TensorDemoActionView) {
    if d.backwards.contains_key(0) && d.backwards.contains_key(1) {
        tensor_demo_ended(
            d,
            TensorDemoActionView::Done {
                output: output_of(d.forwards, 0) + output_of(d.forwards, 1),
                state_hashes: (d.backwards[0], d.backwards[1]),
            },
        )
    } else {
        tensor_demo_ended(
            d,
            TensorDemoActionView::Fail(TensorDemoFailure::Unanswered(TensorDemoPhase::Backward)),
        )
    }
}

/// The next step of a tensor operation.
pub open spec fn tensor_demo_stepped(
    d: TensorDemoView,
    plan: V4TrainingPlanView,
    event: TensorDemoEventView,
) -> (TensorDemoView, TensorDemoActionView) {
    match (d.step, event) {
        (TensorDemoStep::Sending { phase, second }, TensorDemoEventView::Sent(sent)) => if !sent {
            tensor_demo_ended(d, TensorDemoActionView::Fail(TensorDemoFailure::Unreachable))
        } else if second {
            (
                TensorDemoView { step: TensorDemoStep::Awaiting { phase }, ..d },
                TensorDemoActionView::Wait,
            )
        } else {
            tensor_demo_sent(d, plan, phase, true)
        },
        (
            TensorDemoStep::Awaiting { phase: TensorDemoPhase::Install },
            TensorDemoEventView::InstallAck(ack),
        ) => {
            let next = TensorDemoView { installed: demo_shards(d.installed, plan, ack), ..d };
            if both_in(next.installed) {
                tensor_demo_sent(next, plan, TensorDemoPhase::Forward, false)
            } else {
                (next, TensorDemoActionView::Wait)
            }
        },
        (
            TensorDemoStep::Awaiting { phase: TensorDemoPhase::Forward },
            TensorDemoEventView::Forward(result),
        ) => {
            let next = TensorDemoView { forwards: d.forwards.insert(result.shard_id, result), ..d };
            if both_in(next.forwards) {
                tensor_demo_sent(next, plan, TensorDemoPhase::Backward, false)
            } else {
                (next, TensorDemoActionView::Wait)
            }
        },
        (
            TensorDemoStep::Awaiting { phase: TensorDemoPhase::Backward },
            TensorDemoEventView::Backward(result),
        ) => {
            let next = TensorDemoView {
                backwards: d.backwards.insert(result.shard_id, result.state_hash),
                ..d
            };
            if both_in(next.backwards) {
                tensor_demo_finished(next)
            } else {
                (next, TensorDemoActionView::Wait)
            }
        },
        (TensorDemoStep::Awaiting { phase }, TensorDemoEventView::NoMessage) => tensor_demo_ended(
            d,
            TensorDemoActionView::Fail(TensorDemoFailure::Unanswered(phase)),
        ),
        (TensorDemoStep::Awaiting { .. }, TensorDemoEventView::Sent(_)) => (
            d,
            TensorDemoActionView::Ignore,
        ),
        (TensorDemoStep::Awaiting { .. }, _) => (d, TensorDemoActionView::Wait),
        _ => (d, TensorDemoActionView::Ignore),
    }
}

fn send(d: &mut TensorDemo, plan: &V4TrainingPlan, phase: TensorDemoPhase, second: bool) -> (r:
    TensorDemoAction)
    ensures
        (final(d)@, r@) == tensor_demo_sent(old(d)@, plan@, phase, second),
{
    d.step = TensorDemoStep::Sending { phase, second };
    let index: u16 = if second {
        1
    } else {
        0
    };
    let to = if second {
        d.owners.1
    } else {
        d.owners.0
    };
    let message = match phase {
        TensorDemoPhase::Install => TensorDemoMessage::Install(demo_tensor_install(plan, index)),
        TensorDemoPhase::Forward => TensorDemoMessage::Forward(
            demo_tensor_forward(plan, d.request_id, index),
        ),
        TensorDemoPhase::Backward => TensorDemoMessage::Backward(
            demo_tensor_backward(plan, d.request_id, index),
        ),
    };
    TensorDemoAction::Send { to, message }
}

fn finish(d: &mut TensorDemo) -> (r: TensorDemoAction)
    ensures
        (final(d)@, r@) == tensor_demo_finished(old(d)@),
{
    d.step = TensorDemoStep::Over;
    match (d.backwards.get(0), d.backwards.get(1)) {
        (Some(first), Some(second)) => TensorDemoAction::Done {
            output: tensor_demo_output(&d.forwards),
            state_hashes: (*first, *second),
        },
        _ => TensorDemoAction::Fail(TensorDemoFailure::Unanswered(TensorDemoPhase::Backward)),
    }
}

/// A tensor operation under a plan starts.
pub open spec fn fresh_tensor_demo(
    owners: (NodeId, NodeId),
    plan: V4TrainingPlanView,
    request_id: JobId,
) -> (TensorDemoView, TensorDemoActionView) {
    tensor_demo_sent(
        TensorDemoView {
            owners,
            request_id,
            installed: Map::empty(),
            forwards: Map::empty(),
            backwards: Map::empty(),
            step: TensorDemoStep::Over,
        },
        plan,
        TensorDemoPhase::Install,
        false,
    )
}

/// Start a tensor operation under its plan.
pub fn begin_tensor_demo(plan: &V4TrainingPlan, request_id: JobId) -> (r: Result<
    (TensorDemo, TensorDemoAction),
    TensorDemoError,
>)
    ensures
        match planned_owners(plan@) {
            Err(error) => r == Err::<(TensorDemo, TensorDemoAction), TensorDemoError>(error),
            Ok(owners) => r is Ok && (r->Ok_0.0@, r->Ok_0.1@) == fresh_tensor_demo(
                owners,
                plan@,
                request_id,
            ),
        },
{
    match tensor_owners(plan) {
        Err(error) => Err(error),
        Ok(owners) => {
            let mut d = TensorDemo {
                owners,
                request_id,
                installed: OrdMap::new(),
                forwards: OrdMap::new(),
                backwards: OrdMap::new(),
                step: TensorDemoStep::Over,
            };
            let action = send(&mut d, plan, TensorDemoPhase::Install, false);
            Ok((d, action))
        },
    }
}

/// Take a tensor operation one step on.
pub fn tensor_demo(d: &mut TensorDemo, plan: &V4TrainingPlan, event: TensorDemoEvent) -> (r:
    TensorDemoAction)
    ensures
        (final(d)@, r@) == tensor_demo_stepped(old(d)@, plan@, event@),
{
    match d.step {
        TensorDemoStep::Over => TensorDemoAction::Ignore,
        TensorDemoStep::Sending { phase, second } => match event {
            TensorDemoEvent::Sent(sent) => {
                if !sent {
                    d.step = TensorDemoStep::Over;
                    TensorDemoAction::Fail(TensorDemoFailure::Unreachable)
                } else if second {
                    d.step = TensorDemoStep::Awaiting { phase };
                    TensorDemoAction::Wait
                } else {
                    send(d, plan, phase, true)
                }
            },
            _ => TensorDemoAction::Ignore,
        },
        TensorDemoStep::Awaiting { phase } => match (phase, event) {
            (TensorDemoPhase::Install, TensorDemoEvent::InstallAck(ack)) => {
                note_demo_tensor(&mut d.installed, plan, &ack);
                if d.installed.len() >= 2 {
                    send(d, plan, TensorDemoPhase::Forward, false)
                } else {
                    TensorDemoAction::Wait
                }
            },
            (TensorDemoPhase::Forward, TensorDemoEvent::Forward(result)) => {
                d.forwards.insert(result.shard_id, result);
                if d.forwards.len() >= 2 {
                    send(d, plan, TensorDemoPhase::Backward, false)
                } else {
                    TensorDemoAction::Wait
                }
            },
            (TensorDemoPhase::Backward, TensorDemoEvent::Backward(result)) => {
                d.backwards.insert(result.shard_id, result.state_hash);
                if d.backwards.len() >= 2 {
                    finish(d)
                } else {
                    TensorDemoAction::Wait
                }
            },
            (_, TensorDemoEvent::NoMessage) => {
                d.step = TensorDemoStep::Over;
                TensorDemoAction::Fail(TensorDemoFailure::Unanswered(phase))
            },
            (_, TensorDemoEvent::Sent(_)) => TensorDemoAction::Ignore,
            _ => TensorDemoAction::Wait,
        },
    }
}

/// Where a tensor operation stands, the phases before it are answered.
pub open spec fn tensor_demo_ordered(d: TensorDemoView) -> bool {
    match d.step {
        TensorDemoStep::Sending { phase, .. } | TensorDemoStep::Awaiting { phase } => match phase {
            TensorDemoPhase::Install => true,
            TensorDemoPhase::Forward => both_in(d.installed),
            TensorDemoPhase::Backward => both_in(d.installed) && both_in(d.forwards),
        },
        TensorDemoStep::Over => true,
    }
}

/// No worker passes forward before both halves are installed, none passes
/// backward before both halves have passed forward, and the operation succeeds
/// only when both have passed backward.
pub proof fn law_tensor_demo_runs_in_order(
    d: TensorDemoView,
    plan: V4TrainingPlanView,
    event: TensorDemoEventView,
)
    requires
        tensor_demo_ordered(d),
    ensures
        ({
            let (next, action) = tensor_demo_stepped(d, plan, event);
            &&& tensor_demo_ordered(next)
            &&& action is Done ==> both_in(next.installed) && both_in(next.forwards)
                && next.backwards.contains_key(0) && next.backwards.contains_key(1)
        }),
{
}

/// A tensor operation sends each phase to the owners of the two shards, the first shard's
/// first; answers are kept by shard, and the result is the two outputs in a row with the
/// two hashes.
pub proof fn law_tensor_demo_uses_both_owners(
    owners: (NodeId, NodeId),
    plan: V4TrainingPlanView,
    request_id: JobId,
    d: TensorDemoView,
    phase: TensorDemoPhase,
    result: V4TensorForwardResultView,
)
    ensures
        ({
            let (fresh, action) = fresh_tensor_demo(owners, plan, request_id);
            &&& fresh.owners == owners && fresh.request_id == request_id
            &&& action is Send && action->to == owners.0
            &&& action->message is Install && action->message->Install_0.shard_id == 0
        }),
        d.step == (TensorDemoStep::Sending { phase, second: false }) ==> ({
            let (after, action) = tensor_demo_stepped(d, plan, TensorDemoEventView::Sent(true));
            &&& action is Send && action->to == d.owners.1
            &&& phase is Install ==> action->message is Install
                && action->message->Install_0.shard_id == 1
            &&& phase is Forward ==> action->message is Forward
                && action->message->Forward_0.shard_id == 1
            &&& phase is Backward ==> action->message is Backward
                && action->message->Backward_0.shard_id == 1
        }),
        d.step == (TensorDemoStep::Awaiting { phase: TensorDemoPhase::Forward }) ==> ({
            let (after, action) = tensor_demo_stepped(d, plan, TensorDemoEventView::Forward(result));
            after.forwards.contains_key(result.shard_id) && after.forwards[result.shard_id]
                == result
        }),
        d.forwards.contains_key(0) && d.forwards.contains_key(1) && d.backwards.contains_key(0)
            && d.backwards.contains_key(1) ==> tensor_demo_finished(d).1 == (
        TensorDemoActionView::Done {
            output: d.forwards[0].output + d.forwards[1].output,
            state_hashes: (d.backwards[0], d.backwards[1]),
        }),
        d.step == (TensorDemoStep::Awaiting { phase }) ==> tensor_demo_stepped(
            d,
            plan,
            TensorDemoEventView::NoMessage,
        ).1 == TensorDemoActionView::Fail(TensorDemoFailure::Unanswered(phase)),
{
}

} // verus!
