//! How a message travels: into the mailbox of a job on this node, or over the
//! network with one retry.

use crate::base::ids::{JobId, NodeId};
use vstd::prelude::*;

verus! {

/// What is being waited for.
#[derive(Clone, Copy, Debug, PartialEq, Eq, Structural)]
pub enum DeliveryStep {
    /// The mailbox on this node.
    Putting,
    /// The first try over the network.
    First,
    /// The moment between the two tries.
    Pausing,
    /// The second try over the network.
    Second,
    Over,
}

/// A message on its way.
#[derive(Clone, Copy, Debug, PartialEq, Eq, Structural)]
pub struct DeliveryRun {
    pub peer: NodeId,
    pub job_id: JobId,
    pub step: DeliveryStep,
}

/// What became of a step.
#[derive(Clone, Copy, Debug, PartialEq, Eq, Structural)]
pub enum DeliveryEvent {
    /// Whether the mailbox took the message.
    Put(bool),
    /// Whether the message was sent in time.
    Sent(bool),
    Paused,
}

/// Why a message is not delivered.
#[derive(Clone, Copy, Debug, PartialEq, Eq, Structural)]
pub enum DeliveryError {
    /// Nobody runs the job on this node.
    NoMailbox,
    MailboxClosed,
    /// Neither try succeeded.
    Unreached,
}

/// What is done next.
#[derive(Clone, Copy, Debug, PartialEq, Eq, Structural)]
pub enum DeliveryAction {
    /// Put the message into the mailbox of the job, as one that came from `from`.
    Put { job_id: JobId, from: NodeId },
    /// Send the message to a peer.
    Send(NodeId),
    /// Wait a moment, with the connection left as it is.
    Pause,
    Delivered,
    Failed(DeliveryError),
    /// The event was not awaited.
    Ignore,
}

/// A message to `peer` sets out. `running` tells whether the job has a mailbox on
/// this node.
pub open spec fn set_out(node: NodeId, peer: NodeId, job_id: JobId, running: bool) -> (
    DeliveryRun,
    DeliveryAction,
) {
    let on = |step: DeliveryStep| DeliveryRun { peer, job_id, step };
    if peer != node {
        (on(DeliveryStep::First), DeliveryAction::Send(peer))
    } else if running {
        (on(DeliveryStep::Putting), DeliveryAction::Put { job_id, from: peer })
    } else {
        (on(DeliveryStep::Over), DeliveryAction::Failed(DeliveryError::NoMailbox))
    }
}

/// The next step of a message on its way.
pub open spec fn delivery_stepped(run: DeliveryRun, event: DeliveryEvent) -> (
    DeliveryRun,
    DeliveryAction,
) {
    let on = |step: DeliveryStep| DeliveryRun { step, ..run };
    match (run.step, event) {
        (DeliveryStep::Putting, DeliveryEvent::Put(taken)) => (
            on(DeliveryStep::Over),
            if taken {
                DeliveryAction::Delivered
            } else {
                DeliveryAction::Failed(DeliveryError::MailboxClosed)
            },
        ),
        (DeliveryStep::First, DeliveryEvent::Sent(sent)) => if sent {
            (on(DeliveryStep::Over), DeliveryAction::Delivered)
        } else {
            (on(DeliveryStep::Pausing), DeliveryAction::Pause)
        },
        (DeliveryStep::Pausing, DeliveryEvent::Paused) => (
            on(DeliveryStep::Second),
            DeliveryAction::Send(run.peer),
        ),
        (DeliveryStep::Second, DeliveryEvent::Sent(sent)) => (
            on(DeliveryStep::Over),
            if sent {
                DeliveryAction::Delivered
            } else {
                DeliveryAction::Failed(DeliveryError::Unreached)
            },
        ),
        _ => (run, DeliveryAction::Ignore),
    }
}

/// Send a message to `peer`, or put it into the mailbox of its job on this node.
pub fn begin_delivery(node: NodeId, peer: NodeId, job_id: JobId, running: bool) -> (r: (
    DeliveryRun,
    DeliveryAction,
))
    ensures
        r == set_out(node, peer, job_id, running),
{
    if peer != node {
        send_control_message(peer, job_id)
    } else if running {
        (
            DeliveryRun { peer, job_id, step: DeliveryStep::Putting },
            DeliveryAction::Put { job_id, from: peer },
        )
    } else {
        (
            DeliveryRun { peer, job_id, step: DeliveryStep::Over },
            DeliveryAction::Failed(DeliveryError::NoMailbox),
        )
    }
}

/// Send a message over the network, to whatever peer it is for.
pub fn send_control_message(peer: NodeId, job_id: JobId) -> (r: (DeliveryRun, DeliveryAction))
    ensures
        r.0 == (DeliveryRun { peer, job_id, step: DeliveryStep::First }),
        r.1 == DeliveryAction::Send(peer),
{
    (DeliveryRun { peer, job_id, step: DeliveryStep::First }, DeliveryAction::Send(peer))
}

/// Take a message one step on.
pub fn deliver_v4_message(run: &mut DeliveryRun, event: DeliveryEvent) -> (r: DeliveryAction)
    ensures
        (*final(run), r) == delivery_stepped(*old(run), event),
{
    match (run.step, event) {
        (DeliveryStep::Putting, DeliveryEvent::Put(taken)) => {
            run.step = DeliveryStep::Over;
            if taken {
                DeliveryAction::Delivered
            } else {
                DeliveryAction::Failed(DeliveryError::MailboxClosed)
            }
        },
        (DeliveryStep::First, DeliveryEvent::Sent(sent)) => {
            if sent {
                run.step = DeliveryStep::Over;
                DeliveryAction::Delivered
            } else {
                run.step = DeliveryStep::Pausing;
                DeliveryAction::Pause
            }
        },
        (DeliveryStep::Pausing, DeliveryEvent::Paused) => {
            run.step = DeliveryStep::Second;
            DeliveryAction::Send(run.peer)
        },
        (DeliveryStep::Second, DeliveryEvent::Sent(sent)) => {
            run.step = DeliveryStep::Over;
            if sent {
                DeliveryAction::Delivered
            } else {
                DeliveryAction::Failed(DeliveryError::Unreached)
            }
        },
        _ => DeliveryAction::Ignore,
    }
}

/// The sends that a message still has before it.
pub open spec fn sends_left(run: DeliveryRun) -> int {
    match run.step {
        DeliveryStep::First | DeliveryStep::Pausing => 1,
        _ => 0,
    }
}

/// A message is sent at most twice: beginning takes at most one send and leaves at
/// most one, and every further send uses up one that was left.
pub proof fn law_message_is_sent_at_most_twice(
    node: NodeId,
    peer: NodeId,
    job_id: JobId,
    running: bool,
    run: DeliveryRun,
    event: DeliveryEvent,
)
    ensures
        sends_left(set_out(node, peer, job_id, running).0) <= 1,
        ({
            let (after, action) = delivery_stepped(run, event);
            &&& 0 <= sends_left(after) <= sends_left(run)
            &&& action is Send ==> sends_left(after) == sends_left(run) - 1
        }),
{
}

/// A message to this node goes into the mailbox of its job and not to the network,
/// and fails exactly where that mailbox is missing or closed. A message to another
/// peer touches no mailbox, is sent a second time exactly where the first try fails,
/// and is delivered exactly when one of the two tries succeeds.
pub proof fn law_delivery_succeeds_with_one_try(
    node: NodeId,
    peer: NodeId,
    job_id: JobId,
    running: bool,
    taken: bool,
    first: bool,
    second: bool,
)
    ensures
        ({
            let (run, action) = set_out(node, peer, job_id, running);
            let put = delivery_stepped(run, DeliveryEvent::Put(taken));
            let tried = delivery_stepped(run, DeliveryEvent::Sent(first));
            let again = delivery_stepped(tried.0, DeliveryEvent::Paused);
            let last = delivery_stepped(again.0, DeliveryEvent::Sent(second));
            if peer == node {
                &&& !running ==> action == DeliveryAction::Failed(DeliveryError::NoMailbox)
                &&& running ==> action == (DeliveryAction::Put { job_id, from: peer })
                &&& running && taken ==> put.1 == DeliveryAction::Delivered
                &&& running && !taken ==> put.1 == DeliveryAction::Failed(
                    DeliveryError::MailboxClosed,
                )
            } else {
                &&& action == DeliveryAction::Send(peer)
                &&& first ==> tried.1 == DeliveryAction::Delivered
                &&& !first ==> tried.1 == DeliveryAction::Pause && again.1 == DeliveryAction::Send(
                    peer,
                )
                &&& !first && second ==> last.1 == DeliveryAction::Delivered
                &&& !first && !second ==> last.1 == DeliveryAction::Failed(
                    DeliveryError::Unreached,
                )
            }
        }),
{
}

/// A message to another node is sent to it; one to this node goes into the mailbox of its
/// job, where there is one. A send that fails is tried once more, after a pause.
pub proof fn law_message_goes_to_its_peer(
    node: NodeId,
    peer: NodeId,
    job_id: JobId,
    running: bool,
    run: DeliveryRun,
)
    ensures
        peer != node ==> set_out(node, peer, job_id, running).1 == DeliveryAction::Send(peer),
        peer == node && running ==> set_out(node, peer, job_id, running).1 == (
        DeliveryAction::Put { job_id, from: peer }),
        peer == node && !running ==> set_out(node, peer, job_id, running).1
            == DeliveryAction::Failed(DeliveryError::NoMailbox),
        set_out(node, peer, job_id, running).0.peer == peer,
        set_out(node, peer, job_id, running).0.job_id == job_id,
        run.step is First ==> delivery_stepped(run, DeliveryEvent::Sent(true)).1 is Delivered
            && delivery_stepped(run, DeliveryEvent::Sent(false)).1 is Pause,
        run.step is Pausing ==> delivery_stepped(run, DeliveryEvent::Paused).1
            == DeliveryAction::Send(run.peer),
        run.step is Second ==> delivery_stepped(run, DeliveryEvent::Sent(true)).1 is Delivered
            && delivery_stepped(run, DeliveryEvent::Sent(false)).1 == DeliveryAction::Failed(
            DeliveryError::Unreached,
        ),
        run.step is Putting ==> delivery_stepped(run, DeliveryEvent::Put(true)).1 is Delivered
            && delivery_stepped(run, DeliveryEvent::Put(false)).1 == DeliveryAction::Failed(
            DeliveryError::MailboxClosed,
        ),
{
}

} // verus!
