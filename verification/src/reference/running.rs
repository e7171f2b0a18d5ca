//! The life of a job on one peer: it coordinates or works, looks for peers that
//! went away, and stands for election when the coordinator is lost.

use crate::base::ids::NodeId;
use crate::reference::context::{context_covers_final_model, context_final, Context, ContextView};
use crate::reference::coordinator::{mark_failed, peer_restored, restore_training_peer};
use crate::reference::types::{Role, TrainingExecution};
use vstd::prelude::*;

verus! {

/// What the peer is doing.
#[derive(Clone, Copy, Debug, PartialEq, Eq, Structural)]
pub enum RunStage {
    /// It coordinates.
    Driving,
    /// It works.
    Receiving,
    /// It looks for a peer that went away.
    Restoring(NodeId),
    /// It stands for election, or leaves that to another.
    Electing,
    /// The job is over here.
    Over,
}

/// What happened.
#[derive(Clone, Copy, Debug, PartialEq, Eq, Structural)]
pub enum RunEvent {
    /// The coordination came to its end.
    Finished,
    /// The coordination was handed over.
    HandedOver,
    /// The coordination failed.
    DriveFailed,
    /// A message was handled.
    Handled,
    Disconnected(NodeId),
    /// A peer was looked for.
    Reached { connected: bool, reconnected: bool },
    /// The campaign is over.
    Elected,
    TimedOut,
    Closed,
}

/// How a job ends on one peer.
#[derive(Clone, Copy, Debug, PartialEq, Eq, Structural)]
pub enum RunEnd {
    /// The coordinator has the result.
    Result,
    /// A worker has seen the last checkpoint.
    Retired,
    DriveFailed,
    TimedOut,
    Closed,
}

/// What the peer does next.
#[derive(Clone, Copy, Debug, PartialEq, Eq, Structural)]
pub enum RunAction {
    /// Coordinate.
    Drive,
    /// Wait for a message.
    Receive,
    /// Look for a peer.
    Restore(NodeId),
    /// Stand for election in the place of the lost coordinator.
    Elect(NodeId),
    /// Report the end and forget the job.
    End(RunEnd),
    /// Nothing.
    Idle,
}

/// The stage and the action by the role.
pub open spec fn by_role(c: ContextView) -> (RunStage, RunAction) {
    if c.role == Role::Coordinator {
        (RunStage::Driving, RunAction::Drive)
    } else {
        (RunStage::Receiving, RunAction::Receive)
    }
}

/// A worker of an autonomous job retires with the last checkpoint.
pub open spec fn retires(c: ContextView) -> bool {
    c.start.execution == TrainingExecution::AutonomousLocalSgd && context_final(c)
}

/// The context, the stage and the action after an event.
pub open spec fn run_step(c: ContextView, stage: RunStage, event: RunEvent) -> (
    ContextView,
    RunStage,
    RunAction,
) {
    let next = by_role(c);
    let ended = |end: RunEnd| (c, RunStage::Over, RunAction::End(end));
    match (stage, event) {
        (RunStage::Driving, RunEvent::Finished) => ended(RunEnd::Result),
        (RunStage::Driving, RunEvent::HandedOver) => (c, next.0, next.1),
        (RunStage::Driving, RunEvent::DriveFailed) => ended(RunEnd::DriveFailed),
        (RunStage::Receiving, RunEvent::Handled) => if retires(c) {
            ended(RunEnd::Retired)
        } else {
            (c, next.0, next.1)
        },
        (RunStage::Receiving, RunEvent::Disconnected(peer)) => (
            c,
            RunStage::Restoring(peer),
            RunAction::Restore(peer),
        ),
        (RunStage::Receiving, RunEvent::TimedOut) => ended(RunEnd::TimedOut),
        (RunStage::Receiving, RunEvent::Closed) => ended(RunEnd::Closed),
        (RunStage::Restoring(peer), RunEvent::Reached { connected, reconnected }) => if
        peer_restored(c, peer, connected, reconnected) {
            (ContextView { failed: c.failed.remove(peer), ..c }, next.0, next.1)
        } else if peer == c.coordinator {
            (c, RunStage::Electing, RunAction::Elect(peer))
        } else {
            (ContextView { failed: c.failed.insert(peer), ..c }, next.0, next.1)
        },
        (RunStage::Electing, RunEvent::Elected) => (c, next.0, next.1),
        _ => (c, stage, RunAction::Idle),
    }
}

/// The stage and the action by the role.
pub fn next_turn(context: &Context) -> (r: (RunStage, RunAction))
    ensures
        r == by_role(context@),
{
    match context.role {
        Role::Coordinator => (RunStage::Driving, RunAction::Drive),
        Role::Worker => (RunStage::Receiving, RunAction::Receive),
    }
}

/// Take in an event. The result is the next stage and what is to be done.
pub fn run_context(context: &mut Context, stage: RunStage, event: RunEvent) -> (r: (
    RunStage,
    RunAction,
))
    requires
        old(context).start.checkpoint_every > 0,
    ensures
        (final(context)@, r.0, r.1) == run_step(old(context)@, stage, event),
{
    match (stage, event) {
        (RunStage::Driving, RunEvent::Finished) => (
            RunStage::Over,
            RunAction::End(RunEnd::Result),
        ),
        (RunStage::Driving, RunEvent::HandedOver) => next_turn(context),
        (RunStage::Driving, RunEvent::DriveFailed) => (
            RunStage::Over,
            RunAction::End(RunEnd::DriveFailed),
        ),
        (RunStage::Receiving, RunEvent::Handled) => {
            let autonomous = match context.start.execution {
                TrainingExecution::AutonomousLocalSgd => true,
                _ => false,
            };
            if autonomous && context_covers_final_model(context) {
                (RunStage::Over, RunAction::End(RunEnd::Retired))
            } else {
                next_turn(context)
            }
        },
        (RunStage::Receiving, RunEvent::Disconnected(peer)) => (
            RunStage::Restoring(peer),
            RunAction::Restore(peer),
        ),
        (RunStage::Receiving, RunEvent::TimedOut) => (
            RunStage::Over,
            RunAction::End(RunEnd::TimedOut),
        ),
        (RunStage::Receiving, RunEvent::Closed) => (
            RunStage::Over,
            RunAction::End(RunEnd::Closed),
        ),
        (RunStage::Restoring(peer), RunEvent::Reached { connected, reconnected }) => {
            if restore_training_peer(context, peer, connected, reconnected) {
                next_turn(context)
            } else if peer == context.coordinator {
                (RunStage::Electing, RunAction::Elect(peer))
            } else {
                mark_failed(context, peer);
                next_turn(context)
            }
        },
        (RunStage::Electing, RunEvent::Elected) => next_turn(context),
        _ => (stage, RunAction::Idle),
    }
}

/// A worker retires only when it has seen the checkpoint of the whole model.
pub proof fn law_worker_retires_with_final_model(c: ContextView, stage: RunStage, event: RunEvent)
    requires
        run_step(c, stage, event).2 == RunAction::End(RunEnd::Retired),
    ensures
        context_final(c),
        c.final_checkpoint_committed,
        event == RunEvent::Handled,
{
}

/// An election begins only for the coordinator, and only when it could not be
/// reached.
pub proof fn law_only_a_lost_coordinator_is_replaced(
    c: ContextView,
    stage: RunStage,
    event: RunEvent,
    peer: NodeId,
)
    requires
        run_step(c, stage, event).2 == RunAction::Elect(peer),
    ensures
        peer == c.coordinator,
        stage == RunStage::Restoring(peer),
        event matches RunEvent::Reached { connected, reconnected } && !peer_restored(
            c,
            peer,
            connected,
            reconnected,
        ),
{
}

/// A coordinator drives and a worker receives; a worker that lost a peer looks for it,
/// and stands for election only where that was the coordinator; a peer that came back
/// no longer counts as failed, one that did not does.
pub proof fn law_run_goes_by_the_role(
    c: ContextView,
    stage: RunStage,
    peer: NodeId,
    connected: bool,
    reconnected: bool,
)
    ensures
        c.role is Coordinator ==> by_role(c) == (RunStage::Driving, RunAction::Drive),
        c.role is Worker ==> by_role(c) == (RunStage::Receiving, RunAction::Receive),
        run_step(c, RunStage::Receiving, RunEvent::Disconnected(peer)).2 == RunAction::Restore(
            peer,
        ),
        ({
            let (after, next, action) = run_step(
                c,
                RunStage::Restoring(peer),
                RunEvent::Reached { connected, reconnected },
            );
            let back = peer_restored(c, peer, connected, reconnected);
            &&& back ==> after.failed == c.failed.remove(peer) && (next, action) == by_role(c)
            &&& !back && peer == c.coordinator ==> action == RunAction::Elect(peer) && after == c
            &&& !back && peer != c.coordinator ==> after.failed == c.failed.insert(peer) && (
                next,
                action,
            ) == by_role(c)
            &&& after.value == c.value && after.term == c.term && after.role == c.role
        }),
        run_step(c, RunStage::Receiving, RunEvent::TimedOut).2 == RunAction::End(RunEnd::TimedOut),
        run_step(c, RunStage::Receiving, RunEvent::Closed).2 == RunAction::End(RunEnd::Closed),
        run_step(c, RunStage::Driving, RunEvent::Finished).2 == RunAction::End(RunEnd::Result),
        run_step(c, RunStage::Driving, RunEvent::DriveFailed).2 == RunAction::End(
            RunEnd::DriveFailed,
        ),
        run_step(c, RunStage::Driving, RunEvent::HandedOver).2 == by_role(c).1,
        run_step(c, RunStage::Electing, RunEvent::Elected).2 == by_role(c).1,
        stage is Over ==> run_step(c, stage, RunEvent::Elected).2 is Idle,
{
}

} // verus!
