//! What a member does when the coordinator of its job may be lost: it listens,
//! looks for the coordinator, and takes its place where it is chosen.

use crate::base::ids::NodeId;
use crate::base::members::NodeSet;
use crate::frontier::probing::{
    ended, participant_step, stable, takeover_choice, takeover_gate, takeover_of,
    IntegratedTakeoverOutcome, ParticipantStep,
};
use crate::frontier::types::{
    V4ExecutionGraph, V4ExecutionGraphView, V4IntegratedPhase,
};
use vstd::prelude::*;

verus! {

/// Where a look for the coordinator stands.
#[derive(Clone, Copy, Debug, PartialEq, Eq, Structural)]
pub enum TakeoverStep {
    /// The members have to be asked.
    Probing,
    /// The members have to vote for this node.
    Voting,
    /// The graph has to be changed.
    Changing,
    /// The job has to run on, under this node.
    Driving,
    Over,
}

/// What comes to a look for the coordinator.
#[derive(Debug)]
pub enum TakeoverEvent {
    /// The members that answered.
    Probed(NodeSet),
    /// Whether a majority voted for this node.
    Elected(bool),
    /// Whether the graph could be changed.
    Changed(bool),
    /// Whether the job came to its end.
    Driven(bool),
}

/// The contents of a [`TakeoverEvent`].
pub enum TakeoverEventView {
    Probed(Set<NodeId>),
    Elected(bool),
    Changed(bool),
    Driven(bool),
}

impl View for TakeoverEvent {
    type V = TakeoverEventView;

    open spec fn view(&self) -> TakeoverEventView {
        match self {
            TakeoverEvent::Probed(confirmed) => TakeoverEventView::Probed(confirmed@),
            TakeoverEvent::Elected(elected) => TakeoverEventView::Elected(*elected),
            TakeoverEvent::Changed(changed) => TakeoverEventView::Changed(*changed),
            TakeoverEvent::Driven(driven) => TakeoverEventView::Driven(*driven),
        }
    }
}

/// Why a look for the coordinator has no outcome.
#[derive(Clone, Copy, Debug, PartialEq, Eq, Structural)]
pub enum TakeoverError {
    /// The graph, the plan or the state of the job is not known here.
    Unknown,
    /// No majority voted for this node.
    NotElected,
    /// The graph could not be changed.
    NotChanged,
    /// The job failed under this node.
    NotDriven,
}

/// What a look for the coordinator does next.
#[derive(Clone, Copy, Debug, PartialEq, Eq, Structural)]
pub enum TakeoverAction {
    /// Ask the members whether they are alive.
    Probe,
    /// Ask the members for their votes.
    RequestVotes,
    /// Change the graph: the lost coordinator leaves it, the votes go with it.
    ChangeGraph,
    /// Run the job on.
    Drive,
    Outcome(IntegratedTakeoverOutcome),
    Fail(TakeoverError),
    /// The event was not awaited.
    Ignore,
}

/// A look for the coordinator begins. `phase` is the phase of the job, if its
/// graph, plan and state are known.
pub open spec fn takeover_begun(phase: Option<V4IntegratedPhase>) -> (TakeoverStep, TakeoverAction) {
    match phase {
        None => (TakeoverStep::Over, TakeoverAction::Fail(TakeoverError::Unknown)),
        Some(phase) => if ended(phase) {
            (
                TakeoverStep::Over,
                TakeoverAction::Outcome(IntegratedTakeoverOutcome::Terminal),
            )
        } else if stable(phase) {
            (TakeoverStep::Probing, TakeoverAction::Probe)
        } else {
            (
                TakeoverStep::Over,
                TakeoverAction::Outcome(IntegratedTakeoverOutcome::TransitionInProgress),
            )
        },
    }
}

/// The next step of a look for the coordinator of `graph`, which was missed
/// `misses` times in a row before.
pub open spec fn takeover_stepped(
    step: TakeoverStep,
    graph: V4ExecutionGraphView,
    node: NodeId,
    misses: u8,
    event: TakeoverEventView,
) -> (TakeoverStep, TakeoverAction) {
    match (step, event) {
        (TakeoverStep::Probing, TakeoverEventView::Probed(confirmed)) => match takeover_of(
            graph,
            node,
            confirmed,
            misses,
        ) {
            Some(outcome) => (TakeoverStep::Over, TakeoverAction::Outcome(outcome)),
            None => (TakeoverStep::Voting, TakeoverAction::RequestVotes),
        },
        (TakeoverStep::Voting, TakeoverEventView::Elected(elected)) => if elected {
            (TakeoverStep::Changing, TakeoverAction::ChangeGraph)
        } else {
            (TakeoverStep::Over, TakeoverAction::Fail(TakeoverError::NotElected))
        },
        (TakeoverStep::Changing, TakeoverEventView::Changed(changed)) => if changed {
            (TakeoverStep::Driving, TakeoverAction::Drive)
        } else {
            (TakeoverStep::Over, TakeoverAction::Fail(TakeoverError::NotChanged))
        },
        (TakeoverStep::Driving, TakeoverEventView::Driven(driven)) => (
            TakeoverStep::Over,
            if driven {
                TakeoverAction::Outcome(IntegratedTakeoverOutcome::ReplacementCompleted)
            } else {
                TakeoverAction::Fail(TakeoverError::NotDriven)
            },
        ),
        _ => (step, TakeoverAction::Ignore),
    }
}

/// Begin to look for the coordinator.
pub fn begin_takeover(phase: Option<V4IntegratedPhase>) -> (r: (TakeoverStep, TakeoverAction))
    ensures
        r == takeover_begun(phase),
{
    match phase {
        None => (TakeoverStep::Over, TakeoverAction::Fail(TakeoverError::Unknown)),
        Some(phase) => match takeover_gate(phase) {
            Some(outcome) => (TakeoverStep::Over, TakeoverAction::Outcome(outcome)),
            None => (TakeoverStep::Probing, TakeoverAction::Probe),
        },
    }
}

/// Take a look for the coordinator one step on.
pub fn maybe_take_over_integrated_job(
    step: TakeoverStep,
    graph: &V4ExecutionGraph,
    node: NodeId,
    misses: u8,
    event: TakeoverEvent,
) -> (r: (TakeoverStep, TakeoverAction))
    ensures
        r == takeover_stepped(step, graph@, node, misses, event@),
{
    match (step, event) {
        (TakeoverStep::Probing, TakeoverEvent::Probed(confirmed)) => match takeover_choice(
            node,
            graph,
            &confirmed,
            misses,
        ) {
            Some(outcome) => (TakeoverStep::Over, TakeoverAction::Outcome(outcome)),
            None => (TakeoverStep::Voting, TakeoverAction::RequestVotes),
        },
        (TakeoverStep::Voting, TakeoverEvent::Elected(elected)) => {
            if elected {
                (TakeoverStep::Changing, TakeoverAction::ChangeGraph)
            } else {
                (TakeoverStep::Over, TakeoverAction::Fail(TakeoverError::NotElected))
            }
        },
        (TakeoverStep::Changing, TakeoverEvent::Changed(changed)) => {
            if changed {
                (TakeoverStep::Driving, TakeoverAction::Drive)
            } else {
                (TakeoverStep::Over, TakeoverAction::Fail(TakeoverError::NotChanged))
            }
        },
        (TakeoverStep::Driving, TakeoverEvent::Driven(driven)) => {
            if driven {
                (
                    TakeoverStep::Over,
                    TakeoverAction::Outcome(IntegratedTakeoverOutcome::ReplacementCompleted),
                )
            } else {
                (TakeoverStep::Over, TakeoverAction::Fail(TakeoverError::NotDriven))
            }
        },
        _ => (step, TakeoverAction::Ignore),
    }
}

/// A node changes the graph of a lost coordinator only when it was chosen: the
/// job was in a stable phase, the coordinator did not answer and had been missed
/// before, and a majority voted.
pub proof fn law_takeover_is_chosen_and_elected(
    phase: Option<V4IntegratedPhase>,
    graph: V4ExecutionGraphView,
    node: NodeId,
    misses: u8,
    probed: TakeoverEventView,
    elected: TakeoverEventView,
)
    requires
        ({
            let first = takeover_begun(phase).0;
            let second = takeover_stepped(first, graph, node, misses, probed).0;
            takeover_stepped(second, graph, node, misses, elected).1 is ChangeGraph
        }),
    ensures
        phase is Some && stable(phase->0),
        probed is Probed && takeover_of(graph, node, probed->Probed_0, misses) is None,
        elected == TakeoverEventView::Elected(true),
{
}

/// Where the loop of a member stands.
#[derive(Clone, Copy, Debug, PartialEq, Eq, Structural)]
pub enum ParticipantStage {
    /// It waits for something to happen.
    Listening,
    /// It looks for the coordinator; `quiet` if nothing had happened before.
    Looking { quiet: bool },
    /// It asks whether the job has ended.
    Checking,
    Over,
}

/// The loop of a member.
#[derive(Clone, Copy, Debug, PartialEq, Eq, Structural)]
pub struct Participant {
    pub stage: ParticipantStage,
    /// How often in a row the coordinator was missed.
    pub misses: u8,
}

/// What comes to the loop of a member.
#[derive(Clone, Copy, Debug, PartialEq, Eq, Structural)]
pub enum ParticipantEvent {
    /// A peer has left.
    PeerLeft,
    Message,
    /// Nothing happened for a while; whether it is time for another look.
    Quiet { look_due: bool },
    /// No message can come any more.
    Closed,
    /// The outcome of a look, if it had one.
    Looked(Option<IntegratedTakeoverOutcome>),
    /// Whether the job has ended.
    Checked(bool),
}

/// What the loop of a member does next.
#[derive(Clone, Copy, Debug, PartialEq, Eq, Structural)]
pub enum ParticipantAction {
    Listen,
    /// Look for the coordinator, after a pause if a peer has left.
    Look { pause: bool },
    /// Find out whether the job has ended.
    Check,
    Leave,
    /// The event was not awaited.
    Ignore,
}

/// The next step of the loop of a member.
pub open spec fn participant_stepped(p: Participant, event: ParticipantEvent) -> (
    Participant,
    ParticipantAction,
) {
    match (p.stage, event) {
        (ParticipantStage::Listening, ParticipantEvent::PeerLeft) => (
            Participant { stage: ParticipantStage::Looking { quiet: false }, ..p },
            ParticipantAction::Look { pause: true },
        ),
        (ParticipantStage::Listening, ParticipantEvent::Message) => (p, ParticipantAction::Listen),
        (ParticipantStage::Listening, ParticipantEvent::Closed) => (
            Participant { stage: ParticipantStage::Over, ..p },
            ParticipantAction::Leave,
        ),
        (ParticipantStage::Listening, ParticipantEvent::Quiet { look_due }) => if look_due {
            (
                Participant { stage: ParticipantStage::Looking { quiet: true }, ..p },
                ParticipantAction::Look { pause: false },
            )
        } else {
            (
                Participant { stage: ParticipantStage::Checking, ..p },
                ParticipantAction::Check,
            )
        },
        (ParticipantStage::Looking { quiet }, ParticipantEvent::Looked(outcome)) => {
            let missed = match outcome {
                Some(IntegratedTakeoverOutcome::CoordinatorMissingWithoutQuorum) => (if p.misses
                    < u8::MAX {
                    p.misses + 1
                } else {
                    p.misses as int
                }) as u8,
                Some(_) => 0,
                None => p.misses,
            };
            if outcome == Some(IntegratedTakeoverOutcome::ReplacementCompleted) || outcome == Some(
                IntegratedTakeoverOutcome::Terminal,
            ) {
                (Participant { stage: ParticipantStage::Over, ..p }, ParticipantAction::Leave)
            } else if quiet {
                (
                    Participant { stage: ParticipantStage::Checking, misses: missed },
                    ParticipantAction::Check,
                )
            } else {
                (
                    Participant { stage: ParticipantStage::Listening, misses: missed },
                    ParticipantAction::Listen,
                )
            }
        },
        (ParticipantStage::Checking, ParticipantEvent::Checked(ended)) => if ended {
            (Participant { stage: ParticipantStage::Over, ..p }, ParticipantAction::Leave)
        } else {
            (
                Participant { stage: ParticipantStage::Listening, ..p },
                ParticipantAction::Listen,
            )
        },
        _ => (p, ParticipantAction::Ignore),
    }
}

/// The loop of a member that begins.
pub fn begin_participant() -> (r: Participant)
    ensures
        r == (Participant { stage: ParticipantStage::Listening, misses: 0 }),
{
    Participant { stage: ParticipantStage::Listening, misses: 0 }
}

/// Take the loop of a member one step on.
pub fn integrated_participant_loop(p: &mut Participant, event: ParticipantEvent) -> (r:
    ParticipantAction)
    ensures
        (*final(p), r) == participant_stepped(*old(p), event),
{
    match (p.stage, event) {
        (ParticipantStage::Listening, ParticipantEvent::PeerLeft) => {
            p.stage = ParticipantStage::Looking { quiet: false };
            ParticipantAction::Look { pause: true }
        },
        (ParticipantStage::Listening, ParticipantEvent::Message) => ParticipantAction::Listen,
        (ParticipantStage::Listening, ParticipantEvent::Closed) => {
            p.stage = ParticipantStage::Over;
            ParticipantAction::Leave
        },
        (ParticipantStage::Listening, ParticipantEvent::Quiet { look_due }) => {
            if look_due {
                p.stage = ParticipantStage::Looking { quiet: true };
                ParticipantAction::Look { pause: false }
            } else {
                p.stage = ParticipantStage::Checking;
                ParticipantAction::Check
            }
        },
        (ParticipantStage::Looking { quiet }, ParticipantEvent::Looked(outcome)) => {
            match participant_step(p.misses, outcome) {
                ParticipantStep::Leave => {
                    p.stage = ParticipantStage::Over;
                    ParticipantAction::Leave
                },
                ParticipantStep::Continue(misses) => {
                    p.misses = misses;
                    if quiet {
                        p.stage = ParticipantStage::Checking;
                        ParticipantAction::Check
                    } else {
                        p.stage = ParticipantStage::Listening;
                        ParticipantAction::Listen
                    }
                },
            }
        },
        (ParticipantStage::Checking, ParticipantEvent::Checked(ended)) => {
            if ended {
                p.stage = ParticipantStage::Over;
                ParticipantAction::Leave
            } else {
                p.stage = ParticipantStage::Listening;
                ParticipantAction::Listen
            }
        },
        _ => ParticipantAction::Ignore,
    }
}

/// The misses of a member grow only by looks in which the coordinator was not
/// found, one at a time, and a coordinator that is found sets them back.
pub proof fn law_misses_are_consecutive(p: Participant, event: ParticipantEvent)
    ensures
        ({
            let next = participant_stepped(p, event).0;
            &&& next.misses > p.misses ==> next.misses == p.misses + 1 && event
                == ParticipantEvent::Looked(
                Some(IntegratedTakeoverOutcome::CoordinatorMissingWithoutQuorum),
            )
            &&& p.stage is Looking && event == ParticipantEvent::Looked(
                Some(IntegratedTakeoverOutcome::CoordinatorAlive),
            ) ==> next.misses == 0
        }),
{
}

/// A look for the coordinator ends at once for an unknown or ended job and during a
/// transition, and otherwise probes; votes, a changed graph and the drive follow each
/// other, and a failure of any of them is told.
pub proof fn law_takeover_goes_step_by_step(
    phase: V4IntegratedPhase,
    graph: V4ExecutionGraphView,
    node: NodeId,
    misses: u8,
)
    ensures
        takeover_begun(None).1 == TakeoverAction::Fail(TakeoverError::Unknown),
        phase is Committed || phase is Failed ==> takeover_begun(Some(phase)).1
            == TakeoverAction::Outcome(IntegratedTakeoverOutcome::Terminal),
        phase is Running || phase is Partitioned ==> takeover_begun(Some(phase)).1 is Probe,
        phase is Preparing || phase is Reconfiguring ==> takeover_begun(Some(phase)).1
            == TakeoverAction::Outcome(IntegratedTakeoverOutcome::TransitionInProgress),
        takeover_stepped(
            TakeoverStep::Voting,
            graph,
            node,
            misses,
            TakeoverEventView::Elected(true),
        ).1 is ChangeGraph,
        takeover_stepped(
            TakeoverStep::Voting,
            graph,
            node,
            misses,
            TakeoverEventView::Elected(false),
        ).1 == TakeoverAction::Fail(TakeoverError::NotElected),
        takeover_stepped(
            TakeoverStep::Changing,
            graph,
            node,
            misses,
            TakeoverEventView::Changed(true),
        ).1 is Drive,
        takeover_stepped(
            TakeoverStep::Changing,
            graph,
            node,
            misses,
            TakeoverEventView::Changed(false),
        ).1 == TakeoverAction::Fail(TakeoverError::NotChanged),
        takeover_stepped(
            TakeoverStep::Driving,
            graph,
            node,
            misses,
            TakeoverEventView::Driven(true),
        ).1 == TakeoverAction::Outcome(IntegratedTakeoverOutcome::ReplacementCompleted),
{
}

/// A member counts the looks in a row that missed the coordinator, forgets them when a
/// look found something else, and leaves when the job is over.
pub proof fn law_misses_are_counted_in_a_row(
    p: Participant,
    quiet: bool,
    outcome: IntegratedTakeoverOutcome,
)
    requires
        p.stage == (ParticipantStage::Looking { quiet }),
        p.misses < u8::MAX,
    ensures
        ({
            let (after, action) = participant_stepped(p, ParticipantEvent::Looked(Some(outcome)));
            let over = outcome is ReplacementCompleted || outcome is Terminal;
            &&& outcome is CoordinatorMissingWithoutQuorum ==> after.misses == p.misses + 1
            &&& outcome is CoordinatorAlive || outcome is AnotherCandidate || outcome
                is TransitionInProgress ==> after.misses == 0
            &&& over <==> action is Leave
            &&& !over && quiet ==> action is Check
            &&& !over && !quiet ==> action is Listen
        }),
        participant_stepped(p, ParticipantEvent::Looked(None)).0.misses == p.misses,
{
}

} // verus!
