//! How a member takes up a graph and the job states published on it, and how a
//! coordinator brings a graph into force.

use crate::base::arith::{max_int, max_u64};
use crate::base::ids::{unsigned_hash, ArtifactId, NodeId};
use crate::base::members::contains_id;
use crate::frontier::control::{V4IntegratedAck, V4IntegratedStateAck};
use crate::frontier::integrated::{
    integrated_state, state_on, INTEGRATED_MAX_WINDOWS,
};
use crate::frontier::types::{
    V4ExecutionGraph, V4ExecutionGraphView, V4IntegratedPhase, V4IntegratedStart,
    V4IntegratedStartView, V4IntegratedStateRecord,
};
use crate::frontier::voting::{valid_certificate, valid_integrated_election_certificate};
use vstd::prelude::*;

verus! {

/// Why a graph is not taken up.
#[derive(Clone, Copy, Debug, PartialEq, Eq, Structural)]
pub enum IntegratedStartError {
    Invalid,
    /// The sender has claimed another graph of this generation before.
    ConflictingClaim,
    /// The sender is not an authorized member of the job.
    Unauthorized,
    /// A later graph is in force.
    Stale,
    /// Another graph of the same generation is in force.
    Conflict,
    /// A new coordinator without the votes of the parent's majority.
    NoCertificate,
}

/// The sender asks the coordinator to begin the job.
pub open spec fn from_initiator(
    node: NodeId,
    peer: NodeId,
    start: V4IntegratedStartView,
) -> bool {
    node == start.graph.coordinator && peer == start.reply_to
}

/// The sender is the coordinator, and this node a member.
pub open spec fn from_coordinator(
    node: NodeId,
    peer: NodeId,
    start: V4IntegratedStartView,
) -> bool {
    start.graph.workers.contains(node) && peer == start.graph.coordinator
}

/// The two graphs are one and the same for the members.
pub open spec fn same_graph(a: V4ExecutionGraphView, b: V4ExecutionGraphView) -> bool {
    a.graph_hash == b.graph_hash && a.plan_hash == b.plan_hash && a.branch == b.branch
        && a.coordinator == b.coordinator
}

/// What stands against a graph, given the one in force.
pub open spec fn start_refused(
    node: NodeId,
    peer: NodeId,
    start: V4IntegratedStartView,
    valid: bool,
    claim_conflict: bool,
    current: Option<V4ExecutionGraphView>,
) -> Option<IntegratedStartError> {
    if !valid {
        Some(IntegratedStartError::Invalid)
    } else if claim_conflict {
        Some(IntegratedStartError::ConflictingClaim)
    } else if (!from_initiator(node, peer, start) && !from_coordinator(node, peer, start))
        || start.graph.proposer != start.graph.coordinator {
        Some(IntegratedStartError::Unauthorized)
    } else {
        match current {
            None => None,
            Some(c) => if c.graph_generation > start.graph.graph_generation {
                Some(IntegratedStartError::Stale)
            } else if c.graph_generation == start.graph.graph_generation && !same_graph(
                c,
                start.graph,
            ) {
                Some(IntegratedStartError::Conflict)
            } else if c.graph_generation < start.graph.graph_generation && c.coordinator
                != start.graph.coordinator && !valid_certificate(c, start.graph) {
                Some(IntegratedStartError::NoCertificate)
            } else {
                None
            },
        }
    }
}

/// The job state with which a graph is taken up: the stored one, carried over
/// to the graph where it is older, or a fresh one.
pub open spec fn state_at_start(
    graph: V4ExecutionGraphView,
    windows: u64,
    stored: Option<V4IntegratedStateRecord>,
) -> V4IntegratedStateRecord {
    match stored {
        None => state_on(graph, V4IntegratedPhase::Preparing, 0, windows, 0, 0, 0),
        Some(s) => if s.graph_generation < graph.graph_generation {
            V4IntegratedStateRecord {
                graph_generation: graph.graph_generation,
                plan_hash: graph.plan_hash,
                membership_epoch: graph.membership_epoch,
                coordinator: graph.coordinator,
                optimizer_generation: graph.optimizer_generation,
                checkpoint_generation: graph.checkpoint_generation,
                branch: graph.branch,
                phase: V4IntegratedPhase::Reconfiguring,
                state_hash: unsigned_hash(),
                ..s
            }
        } else {
            s
        },
    }
}

/// What a node does with a graph that it takes up.
#[derive(Clone, Copy, Debug, PartialEq, Eq, Structural)]
pub struct StartInstall {
    /// The job state to store.
    pub state: V4IntegratedStateRecord,
    /// Whether the hash of the state has to be set anew.
    pub state_changed: bool,
    /// The node that gets the answer.
    pub reply_to: NodeId,
    pub ack: V4IntegratedAck,
    /// This node leads the job; otherwise it takes part in it.
    pub leads: bool,
}

/// Take up a graph.
pub fn receive_integrated_start(
    node: NodeId,
    peer: NodeId,
    start: &V4IntegratedStart,
    valid: bool,
    claim_conflict: bool,
    current: Option<&V4ExecutionGraph>,
    stored: Option<V4IntegratedStateRecord>,
) -> (r: Result<StartInstall, IntegratedStartError>)
    requires
        valid ==> start@.graph.shards.len() > 0,
    ensures
        ({
            let in_force = match current {
                Some(c) => Some(c@),
                None => None,
            };
            match r {
                Err(e) => start_refused(node, peer, start@, valid, claim_conflict, in_force)
                    == Some(e),
                Ok(install) => {
                    &&& start_refused(node, peer, start@, valid, claim_conflict, in_force) is None
                    &&& install.state == state_at_start(start@.graph, start@.windows, stored)
                    &&& install.state_changed == (match stored {
                        None => true,
                        Some(s) => s.graph_generation < start@.graph.graph_generation,
                    })
                    &&& install.leads == from_initiator(node, peer, start@)
                    &&& install.reply_to == (if install.leads {
                        peer
                    } else {
                        start@.graph.coordinator
                    })
                    &&& install.ack == (V4IntegratedAck {
                        job_id: start@.graph.job_id,
                        graph_generation: start@.graph.graph_generation,
                        worker: node,
                        accepted: true,
                    })
                },
            }
        }),
{
    if !valid {
        return Err(IntegratedStartError::Invalid);
    }
    if claim_conflict {
        return Err(IntegratedStartError::ConflictingClaim);
    }
    let graph = &start.graph;
    let leads = node == graph.coordinator && peer == start.reply_to;
    let propagated = contains_id(&graph.workers, node) && peer == graph.coordinator;
    if (!leads && !propagated) || graph.proposer != graph.coordinator {
        return Err(IntegratedStartError::Unauthorized);
    }
    match current {
        None => {},
        Some(c) => {
            if c.graph_generation > graph.graph_generation {
                return Err(IntegratedStartError::Stale);
            }
            if c.graph_generation == graph.graph_generation && (c.graph_hash != graph.graph_hash
                || c.plan_hash != graph.plan_hash || c.branch != graph.branch || c.coordinator
                != graph.coordinator) {
                return Err(IntegratedStartError::Conflict);
            }
            if c.graph_generation < graph.graph_generation && c.coordinator != graph.coordinator
                && !valid_integrated_election_certificate(c, graph) {
                return Err(IntegratedStartError::NoCertificate);
            }
        },
    }
    let (state, state_changed) = match stored {
        None => (
            integrated_state(graph, V4IntegratedPhase::Preparing, 0, start.windows, 0, 0, 0),
            true,
        ),
        Some(s) => if s.graph_generation < graph.graph_generation {
            let mut advanced = s;
            advanced.graph_generation = graph.graph_generation;
            advanced.plan_hash = graph.plan_hash;
            advanced.membership_epoch = graph.membership_epoch;
            advanced.coordinator = graph.coordinator;
            advanced.optimizer_generation = graph.optimizer_generation;
            advanced.checkpoint_generation = graph.checkpoint_generation;
            advanced.branch = graph.branch;
            advanced.phase = V4IntegratedPhase::Reconfiguring;
            advanced.state_hash = ArtifactId::unsigned();
            (advanced, true)
        } else {
            (s, false)
        },
    };
    let reply_to = if leads {
        peer
    } else {
        graph.coordinator
    };
    Ok(
        StartInstall {
            state,
            state_changed,
            reply_to,
            ack: V4IntegratedAck {
                job_id: graph.job_id,
                graph_generation: graph.graph_generation,
                worker: node,
                accepted: true,
            },
            leads,
        },
    )
}

/// Where the taking up of a graph stands.
#[derive(Clone, Copy, Debug, PartialEq, Eq, Structural)]
pub enum TakeUpStep {
    /// The plan, the graph and the state have to be stored.
    Storing,
    /// The mailbox of the job has to be opened.
    Opening,
    /// The answer is on its way.
    Answering,
    /// The mailbox has to be closed again.
    Closing,
    Over,
}

/// The taking up of a graph.
#[derive(Clone, Copy, Debug, PartialEq, Eq, Structural)]
pub struct TakeUp {
    /// This node leads the job.
    pub leads: bool,
    /// The job runs here already.
    pub running: bool,
    /// The job has a mailbox here.
    pub mailbox: bool,
    pub step: TakeUpStep,
}

/// What comes while a graph is taken up.
#[derive(Clone, Copy, Debug, PartialEq, Eq, Structural)]
pub enum TakeUpEvent {
    /// Whether everything is stored.
    Stored(bool),
    Opened,
    /// Whether the answer reached the sender.
    Answered(bool),
    Closed,
}

/// What is done next about a graph that is taken up.
#[derive(Clone, Copy, Debug, PartialEq, Eq, Structural)]
pub enum TakeUpAction {
    /// Store the plan, the graph and the state.
    Store,
    /// Open the mailbox of the job.
    OpenMailbox,
    /// Answer that the graph is stored.
    Answer,
    /// Lead the job.
    Lead,
    /// Take part in the job.
    Participate,
    /// The job runs on.
    Stay,
    /// Close the mailbox of the job.
    CloseMailbox,
    /// The graph could not be stored.
    NotStored,
    /// The answer did not reach the sender.
    Unanswered,
    /// The event was not awaited.
    Ignore,
}

/// The next step of the taking up of a graph. The sender goes on as soon as it
/// has the answer, so the mailbox is open before.
pub open spec fn take_up_stepped(t: TakeUp, event: TakeUpEvent) -> (TakeUp, TakeUpAction) {
    match (t.step, event) {
        (TakeUpStep::Storing, TakeUpEvent::Stored(stored)) => if !stored {
            (TakeUp { step: TakeUpStep::Over, ..t }, TakeUpAction::NotStored)
        } else if t.running {
            (TakeUp { step: TakeUpStep::Answering, ..t }, TakeUpAction::Answer)
        } else {
            (TakeUp { step: TakeUpStep::Opening, ..t }, TakeUpAction::OpenMailbox)
        },
        (TakeUpStep::Opening, TakeUpEvent::Opened) => (
            TakeUp { mailbox: true, step: TakeUpStep::Answering, ..t },
            TakeUpAction::Answer,
        ),
        (TakeUpStep::Answering, TakeUpEvent::Answered(reached)) => if !reached {
            if t.running {
                (TakeUp { step: TakeUpStep::Over, ..t }, TakeUpAction::Unanswered)
            } else {
                (TakeUp { step: TakeUpStep::Closing, ..t }, TakeUpAction::CloseMailbox)
            }
        } else {
            (
                TakeUp { step: TakeUpStep::Over, ..t },
                if t.running {
                    TakeUpAction::Stay
                } else if t.leads {
                    TakeUpAction::Lead
                } else {
                    TakeUpAction::Participate
                },
            )
        },
        (TakeUpStep::Closing, TakeUpEvent::Closed) => (
            TakeUp { mailbox: false, step: TakeUpStep::Over, ..t },
            TakeUpAction::Unanswered,
        ),
        _ => (t, TakeUpAction::Ignore),
    }
}

/// Begin to take up an accepted graph. `running` tells whether the job runs here
/// already.
pub fn begin_take_up(install: &StartInstall, running: bool) -> (r: (TakeUp, TakeUpAction))
    ensures
        r.0 == (TakeUp {
            leads: install.leads,
            running,
            mailbox: running,
            step: TakeUpStep::Storing,
        }),
        r.1 == TakeUpAction::Store,
{
    (
        TakeUp { leads: install.leads, running, mailbox: running, step: TakeUpStep::Storing },
        TakeUpAction::Store,
    )
}

/// Take up an accepted graph one step further.
pub fn take_up_graph(t: &mut TakeUp, event: TakeUpEvent) -> (r: TakeUpAction)
    ensures
        (*final(t), r) == take_up_stepped(*old(t), event),
{
    match (t.step, event) {
        (TakeUpStep::Storing, TakeUpEvent::Stored(stored)) => {
            if !stored {
                t.step = TakeUpStep::Over;
                TakeUpAction::NotStored
            } else if t.running {
                t.step = TakeUpStep::Answering;
                TakeUpAction::Answer
            } else {
                t.step = TakeUpStep::Opening;
                TakeUpAction::OpenMailbox
            }
        },
        (TakeUpStep::Opening, TakeUpEvent::Opened) => {
            t.mailbox = true;
            t.step = TakeUpStep::Answering;
            TakeUpAction::Answer
        },
        (TakeUpStep::Answering, TakeUpEvent::Answered(reached)) => {
            if !reached {
                if t.running {
                    t.step = TakeUpStep::Over;
                    TakeUpAction::Unanswered
                } else {
                    t.step = TakeUpStep::Closing;
                    TakeUpAction::CloseMailbox
                }
            } else {
                t.step = TakeUpStep::Over;
                if t.running {
                    TakeUpAction::Stay
                } else if t.leads {
                    TakeUpAction::Lead
                } else {
                    TakeUpAction::Participate
                }
            }
        },
        (TakeUpStep::Closing, TakeUpEvent::Closed) => {
            t.mailbox = false;
            t.step = TakeUpStep::Over;
            TakeUpAction::Unanswered
        },
        _ => TakeUpAction::Ignore,
    }
}

/// A running job has a mailbox, and one that is about to be answered too.
pub open spec fn take_up_wf(t: TakeUp) -> bool {
    &&& t.running || t.step is Answering || t.step is Closing ==> t.mailbox
    &&& t.step is Closing ==> !t.running
}

/// The mailbox of a job is open before its graph is answered, so that nothing
/// that the answer brings about is missed, and a node leads a job or takes part
/// in it only once its answer has arrived.
pub proof fn law_mailbox_is_open_before_the_answer(t: TakeUp, event: TakeUpEvent)
    requires
        take_up_wf(t),
    ensures
        ({
            let (next, action) = take_up_stepped(t, event);
            &&& take_up_wf(next)
            &&& action is Answer ==> next.mailbox
            &&& action is Lead || action is Participate ==> next.mailbox && event
                == TakeUpEvent::Answered(true)
        }),
{
}

/// A graph generation is a fence: the graph in force never goes back, one
/// generation never has two graphs, and the coordinator changes only with the
/// votes of a majority of the workers of the graph in force.
pub proof fn law_graph_generation_is_a_fence(
    node: NodeId,
    peer: NodeId,
    start: V4IntegratedStartView,
    claim_conflict: bool,
    current: V4ExecutionGraphView,
)
    requires
        start_refused(node, peer, start, true, claim_conflict, Some(current)) is None,
    ensures
        start.graph.graph_generation >= current.graph_generation,
        start.graph.graph_generation == current.graph_generation ==> same_graph(
            current,
            start.graph,
        ),
        start.graph.coordinator != current.coordinator ==> {
            &&& start.graph.graph_generation == current.graph_generation + 1
            &&& start.graph.coordination_term > current.coordination_term
            &&& 2 * start.graph.election_certificate.len() > current.workers.len()
            &&& start.graph.election_certificate.contains(start.graph.coordinator)
        },
        peer == start.graph.coordinator || peer == start.reply_to,
{
}

/// Why a published state is not answered.
#[derive(Clone, Copy, Debug, PartialEq, Eq, Structural)]
pub enum IntegratedStateError {
    Invalid,
    HashMismatch,
    UnknownGraph,
    /// The sender or the graph that the state names is not authorized.
    Unauthorized,
}

/// The state is not behind another: by graph, then checkpoint, then window.
pub open spec fn state_not_behind(a: V4IntegratedStateRecord, b: V4IntegratedStateRecord) -> bool {
    a.graph_generation > b.graph_generation || (a.graph_generation == b.graph_generation && (
    a.checkpoint_generation > b.checkpoint_generation || (a.checkpoint_generation
        == b.checkpoint_generation && a.window >= b.window)))
}

/// The state comes from its coordinator and is not behind the stored one.
pub open spec fn state_accepted(
    peer: NodeId,
    state: V4IntegratedStateRecord,
    stored: Option<V4IntegratedStateRecord>,
) -> bool {
    peer == state.coordinator && match stored {
        None => true,
        Some(s) => state_not_behind(state, s),
    }
}

/// The state is one of the graph in force, from one of its members.
pub open spec fn state_authorized(
    peer: NodeId,
    state: V4IntegratedStateRecord,
    graph: V4ExecutionGraphView,
) -> bool {
    graph.workers.contains(peer) && graph.graph_generation == state.graph_generation
        && graph.plan_hash == state.plan_hash && graph.branch == state.branch
}

/// Take in a published job state; the answer says whether it is stored.
pub fn receive_integrated_state(
    node: NodeId,
    peer: NodeId,
    state: &V4IntegratedStateRecord,
    valid: bool,
    computed_hash: ArtifactId,
    graph: Option<&V4ExecutionGraph>,
    stored: Option<V4IntegratedStateRecord>,
) -> (r: Result<V4IntegratedStateAck, IntegratedStateError>)
    ensures
        match r {
            Err(IntegratedStateError::Invalid) => !valid,
            Err(IntegratedStateError::HashMismatch) => valid && state.state_hash != computed_hash,
            Err(IntegratedStateError::UnknownGraph) => valid && state.state_hash == computed_hash
                && graph is None,
            Err(IntegratedStateError::Unauthorized) => valid && state.state_hash == computed_hash
                && (graph matches Some(g) && !state_authorized(peer, *state, g@)),
            Ok(ack) => {
                &&& valid
                &&& state.state_hash == computed_hash
                &&& graph matches Some(g) && state_authorized(peer, *state, g@)
                &&& ack == (V4IntegratedStateAck {
                    job_id: state.job_id,
                    graph_generation: state.graph_generation,
                    state_hash: state.state_hash,
                    worker: node,
                    accepted: state_accepted(peer, *state, stored),
                })
            },
        },
{
    if !valid {
        return Err(IntegratedStateError::Invalid);
    }
    if state.state_hash != computed_hash {
        return Err(IntegratedStateError::HashMismatch);
    }
    let graph = match graph {
        Some(graph) => graph,
        None => {
            return Err(IntegratedStateError::UnknownGraph);
        },
    };
    if !contains_id(&graph.workers, peer) || graph.graph_generation != state.graph_generation
        || graph.plan_hash != state.plan_hash || graph.branch != state.branch {
        return Err(IntegratedStateError::Unauthorized);
    }
    let accepted = peer == state.coordinator && match stored {
        None => true,
        Some(s) => state.graph_generation > s.graph_generation || (state.graph_generation
            == s.graph_generation && (state.checkpoint_generation > s.checkpoint_generation || (
        state.checkpoint_generation == s.checkpoint_generation && state.window >= s.window))),
    };
    Ok(
        V4IntegratedStateAck {
            job_id: state.job_id,
            graph_generation: state.graph_generation,
            state_hash: state.state_hash,
            worker: node,
            accepted,
        },
    )
}

/// Stored job states only move forward, and only their coordinator moves them.
pub proof fn law_states_move_forward(
    peer: NodeId,
    state: V4IntegratedStateRecord,
    stored: V4IntegratedStateRecord,
)
    requires
        state_accepted(peer, state, Some(stored)),
    ensures
        peer == state.coordinator,
        state.graph_generation >= stored.graph_generation,
        state.graph_generation == stored.graph_generation ==> state.checkpoint_generation
            >= stored.checkpoint_generation,
        state.graph_generation == stored.graph_generation && state.checkpoint_generation
            == stored.checkpoint_generation ==> state.window >= stored.window,
{
}

/// The running state of a graph that came into force.
pub open spec fn activated(
    graph: V4ExecutionGraphView,
    state: V4IntegratedStateRecord,
    windows: u64,
) -> V4IntegratedStateRecord {
    V4IntegratedStateRecord {
        graph_generation: graph.graph_generation,
        plan_hash: graph.plan_hash,
        membership_epoch: graph.membership_epoch,
        coordinator: graph.coordinator,
        optimizer_generation: graph.optimizer_generation,
        checkpoint_generation: max_int(
            state.checkpoint_generation as int,
            graph.checkpoint_generation as int,
        ) as u64,
        branch: graph.branch,
        phase: V4IntegratedPhase::Running,
        target_windows: windows,
        state_hash: unsigned_hash(),
        ..state
    }
}

/// The graph is in force: the job runs on it. The hash of the state is left
/// unset.
pub fn commit_integrated_graph_activation(
    graph: &V4ExecutionGraph,
    state: &mut V4IntegratedStateRecord,
    windows: u64,
)
    ensures
        *final(state) == activated(graph@, *old(state), windows),
{
    state.graph_generation = graph.graph_generation;
    state.plan_hash = graph.plan_hash;
    state.membership_epoch = graph.membership_epoch;
    state.coordinator = graph.coordinator;
    state.optimizer_generation = graph.optimizer_generation;
    state.checkpoint_generation = max_u64(
        state.checkpoint_generation,
        graph.checkpoint_generation,
    );
    state.branch = graph.branch;
    state.phase = V4IntegratedPhase::Running;
    state.target_windows = windows;
    state.state_hash = ArtifactId::unsigned();
}

/// How many seconds the starter of a job waits for its result.
pub fn start_integrated(windows: u64) -> (r: u64)
    requires
        windows <= INTEGRATED_MAX_WINDOWS,
    ensures
        r == 30 + 10 * windows,
{
    30 + 10 * windows
}

/// A graph is taken up only when it is valid, conflicts with no claim, comes from its
/// coordinator to a member or from who asked for it to its coordinator, and is no older
/// than the one in force; a newer one under another coordinator needs a certificate.
pub proof fn law_graphs_taken_up(
    node: NodeId,
    peer: NodeId,
    start: V4IntegratedStartView,
    valid: bool,
    conflict: bool,
    current: Option<V4ExecutionGraphView>,
)
    ensures
        ({
            let r = start_refused(node, peer, start, valid, conflict, current);
            let g = start.graph;
            let sender = (node == g.coordinator && peer == start.reply_to) || (peer == g.coordinator
                && g.workers.contains(node));
            &&& r is None ==> valid && !conflict && sender && g.proposer == g.coordinator
            &&& r is None && current is Some ==> g.graph_generation
                >= current->0.graph_generation
            &&& r is None && current is Some && g.graph_generation == current->0.graph_generation
                ==> g.graph_hash == current->0.graph_hash && g.plan_hash == current->0.plan_hash
                && g.branch == current->0.branch && g.coordinator == current->0.coordinator
            &&& r is None && current is Some && g.coordinator != current->0.coordinator
                ==> valid_certificate(current->0, g)
            &&& valid && !conflict && sender && g.proposer == g.coordinator && current is None
                ==> r is None
            &&& valid && !conflict && sender && g.proposer == g.coordinator && current is Some
                && g.graph_generation > current->0.graph_generation && g.coordinator
                == current->0.coordinator ==> r is None
            &&& !valid ==> r == Some(IntegratedStartError::Invalid)
            &&& valid && conflict ==> r == Some(IntegratedStartError::ConflictingClaim)
            &&& valid && !conflict && !sender ==> r == Some(IntegratedStartError::Unauthorized)
        }),
{
}

/// A job without a stored state starts at window zero; a stored state keeps its window and
/// losses and, where the graph is newer, follows the graph; one as new stays as it is.
pub proof fn law_stored_progress_is_kept(
    graph: V4ExecutionGraphView,
    windows: u64,
    stored: V4IntegratedStateRecord,
)
    ensures
        ({
            let s = state_at_start(graph, windows, None);
            &&& s.window == 0 && s.target_windows == windows && s.phase is Preparing
            &&& s.initial_loss_micros == 0 && s.current_loss_micros == 0 && s.recovery_count == 0
            &&& s.graph_generation == graph.graph_generation && s.coordinator == graph.coordinator
            &&& s.job_id == graph.job_id
        }),
        ({
            let s = state_at_start(graph, windows, Some(stored));
            &&& s.window == stored.window
            &&& s.initial_loss_micros == stored.initial_loss_micros
            &&& s.current_loss_micros == stored.current_loss_micros
            &&& s.recovery_count == stored.recovery_count
            &&& stored.graph_generation >= graph.graph_generation ==> s == stored
            &&& stored.graph_generation < graph.graph_generation ==> s.graph_generation
                == graph.graph_generation && s.plan_hash == graph.plan_hash && s.coordinator
                == graph.coordinator && s.branch == graph.branch && s.phase is Reconfiguring
                && s.membership_epoch == graph.membership_epoch && s.checkpoint_generation
                == graph.checkpoint_generation && s.optimizer_generation
                == graph.optimizer_generation
        }),
        ({
            let s = activated(graph, stored, windows);
            &&& s.phase is Running && s.target_windows == windows
            &&& s.window == stored.window
            &&& s.current_loss_micros == stored.current_loss_micros
            &&& s.initial_loss_micros == stored.initial_loss_micros
            &&& s.graph_generation == graph.graph_generation && s.plan_hash == graph.plan_hash
            &&& s.coordinator == graph.coordinator && s.branch == graph.branch
            &&& s.membership_epoch == graph.membership_epoch
            &&& s.optimizer_generation == graph.optimizer_generation
            &&& s.checkpoint_generation >= stored.checkpoint_generation
            &&& s.checkpoint_generation >= graph.checkpoint_generation
            &&& s.checkpoint_generation == stored.checkpoint_generation || s.checkpoint_generation
                == graph.checkpoint_generation
        }),
{
}

/// A state is accepted from its coordinator when it is not behind the stored one: by
/// graph, then by checkpoint, then by window. It counts for a graph only from a member,
/// with the same generation, plan and branch.
pub proof fn law_accepted_states_are_not_behind(
    peer: NodeId,
    state: V4IntegratedStateRecord,
    stored: V4IntegratedStateRecord,
    graph: V4ExecutionGraphView,
)
    ensures
        state_accepted(peer, state, None) <==> peer == state.coordinator,
        state_accepted(peer, state, Some(stored)) ==> peer == state.coordinator
            && state.graph_generation >= stored.graph_generation,
        state_accepted(peer, state, Some(stored)) && state.graph_generation
            == stored.graph_generation ==> state.checkpoint_generation
            >= stored.checkpoint_generation,
        state_accepted(peer, state, Some(stored)) && state.graph_generation
            == stored.graph_generation && state.checkpoint_generation
            == stored.checkpoint_generation ==> state.window >= stored.window,
        peer == state.coordinator && (state.graph_generation > stored.graph_generation || (
        state.graph_generation == stored.graph_generation && state.checkpoint_generation
            > stored.checkpoint_generation) || (state.graph_generation == stored.graph_generation
            && state.checkpoint_generation == stored.checkpoint_generation && state.window
            >= stored.window)) ==> state_accepted(peer, state, Some(stored)),
        state_authorized(peer, state, graph) <==> graph.workers.contains(peer)
            && state.graph_generation == graph.graph_generation && state.plan_hash
            == graph.plan_hash && state.branch == graph.branch,
{
}

} // verus!
