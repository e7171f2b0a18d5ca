//! How a changed graph comes into force: its members take it, its shards, optimizer
//! states and stages are installed, and a member that is lost on the way is left out
//! of the next attempt.

use crate::base::ids::{ArtifactId, NodeId};
use crate::frontier::graph_activation::{GraphAction, GraphActionView};
use crate::frontier::installation::{InstallAction, Placed};
use crate::frontier::integrated::INTEGRATED_MAX_WORKERS;
use crate::frontier::start::{activated, commit_integrated_graph_activation};
use crate::frontier::types::{V4ExecutionGraph, V4ExecutionGraphView, V4IntegratedStateRecord};
use vstd::prelude::*;

verus! {

/// Where the setup of a graph stands.
#[derive(Clone, Copy, Debug, PartialEq, Eq, Structural)]
pub enum SetupStep {
    /// The members have to take the graph.
    Announcing,
    /// What the graph places is being installed.
    Installing(Placed),
    Over,
}

/// How a part of the setup ended.
#[derive(Debug)]
pub enum SetupEvent {
    /// The last action of the graph's activation.
    Announced(GraphAction),
    /// The last action of an installation.
    Installed(Placed, InstallAction),
}

/// The contents of a [`SetupEvent`].
#[verifier::ext_equal]
pub enum SetupEventView {
    Announced(GraphActionView),
    Installed(Placed, InstallAction),
}

impl View for SetupEvent {
    type V = SetupEventView;

    open spec fn view(&self) -> SetupEventView {
        match self {
            SetupEvent::Announced(action) => SetupEventView::Announced(action@),
            SetupEvent::Installed(placed, action) => SetupEventView::Installed(*placed, *action),
        }
    }
}

/// What the setup of a graph does next.
#[derive(Clone, Copy, Debug, PartialEq, Eq, Structural)]
pub enum SetupAction {
    /// Bring the graph to its members.
    Announce,
    /// Install what the graph places.
    Install(Placed),
    /// The graph is installed everywhere.
    Ready,
    /// A part of the setup failed.
    Fail,
    /// The event was not awaited.
    Ignore,
}

/// The next step of a setup: the graph has to be in force, and then the tensor
/// shards, the optimizer states and the stages have to be installed.
pub open spec fn setup_stepped(step: SetupStep, event: SetupEventView) -> (SetupStep, SetupAction) {
    match (step, event) {
        (SetupStep::Announcing, SetupEventView::Announced(action)) => if action is InForce {
            (SetupStep::Installing(Placed::Tensors), SetupAction::Install(Placed::Tensors))
        } else {
            (SetupStep::Over, SetupAction::Fail)
        },
        (SetupStep::Installing(placed), SetupEventView::Installed(which, action)) => if which
            != placed {
            (step, SetupAction::Ignore)
        } else if action != InstallAction::Done {
            (SetupStep::Over, SetupAction::Fail)
        } else {
            match placed {
                Placed::Tensors => (
                    SetupStep::Installing(Placed::Optimizers),
                    SetupAction::Install(Placed::Optimizers),
                ),
                Placed::Optimizers => (
                    SetupStep::Installing(Placed::Stages),
                    SetupAction::Install(Placed::Stages),
                ),
                Placed::Stages => (SetupStep::Over, SetupAction::Ready),
            }
        },
        _ => (step, SetupAction::Ignore),
    }
}

/// Begin the setup of a graph.
pub fn begin_setup() -> (r: (SetupStep, SetupAction))
    ensures
        r == (SetupStep::Announcing, SetupAction::Announce),
{
    (SetupStep::Announcing, SetupAction::Announce)
}

/// Take the setup of a graph one step on.
pub fn activate_and_install_integrated_graph(step: &mut SetupStep, event: &SetupEvent) -> (r:
    SetupAction)
    ensures
        (*final(step), r) == setup_stepped(*old(step), event@),
{
    match (*step, event) {
        (SetupStep::Announcing, SetupEvent::Announced(action)) => {
            if matches!(action, GraphAction::InForce) {
                *step = SetupStep::Installing(Placed::Tensors);
                SetupAction::Install(Placed::Tensors)
            } else {
                *step = SetupStep::Over;
                SetupAction::Fail
            }
        },
        (SetupStep::Installing(placed), SetupEvent::Installed(which, action)) => {
            if *which != placed {
                SetupAction::Ignore
            } else if *action != InstallAction::Done {
                *step = SetupStep::Over;
                SetupAction::Fail
            } else {
                match placed {
                    Placed::Tensors => {
                        *step = SetupStep::Installing(Placed::Optimizers);
                        SetupAction::Install(Placed::Optimizers)
                    },
                    Placed::Optimizers => {
                        *step = SetupStep::Installing(Placed::Stages);
                        SetupAction::Install(Placed::Stages)
                    },
                    Placed::Stages => {
                        *step = SetupStep::Over;
                        SetupAction::Ready
                    },
                }
            }
        },
        _ => SetupAction::Ignore,
    }
}

/// A setup after a series of events.
pub open spec fn setup_after(events: Seq<SetupEventView>) -> SetupStep
    decreases events.len(),
{
    if events.len() == 0 {
        SetupStep::Announcing
    } else {
        setup_stepped(setup_after(events.drop_last()), events.last()).0
    }
}

/// The graph came into force on its members.
pub open spec fn in_force(events: Seq<SetupEventView>) -> bool {
    events.contains(SetupEventView::Announced(GraphActionView::InForce))
}

/// What the graph places was installed.
pub open spec fn installed(events: Seq<SetupEventView>, placed: Placed) -> bool {
    events.contains(SetupEventView::Installed(placed, InstallAction::Done))
}

proof fn lemma_setup_so_far(events: Seq<SetupEventView>)
    ensures
        setup_after(events) matches SetupStep::Installing(placed) ==> {
            &&& in_force(events)
            &&& placed != Placed::Tensors ==> installed(events, Placed::Tensors)
            &&& placed == Placed::Stages ==> installed(events, Placed::Optimizers)
        },
    decreases events.len(),
{
    if events.len() > 0 {
        let before = events.drop_last();
        lemma_setup_so_far(before);
        assert(events[events.len() - 1] == events.last());
        assert forall|e: SetupEventView| #[trigger] before.contains(e) implies events.contains(
            e,
        ) by {
            let k = before.index_of(e);
            assert(events[k] == e);
        }
        if setup_after(before) is Announcing && setup_after(events) is Installing {
            assert(events.last() == SetupEventView::Announced(GraphActionView::InForce));
        }
    }
}

/// A graph counts as installed only after it came into force on its members and its
/// shards, its optimizer states and its stages have each been installed.
pub proof fn law_ready_graph_is_installed(events: Seq<SetupEventView>, event: SetupEventView)
    requires
        setup_stepped(setup_after(events), event).1 == SetupAction::Ready,
    ensures
        in_force(events),
        installed(events, Placed::Tensors),
        installed(events, Placed::Optimizers),
        event == SetupEventView::Installed(Placed::Stages, InstallAction::Done),
{
    lemma_setup_so_far(events);
}

/// Where the recovery of a graph transition stands.
#[derive(Clone, Copy, Debug, PartialEq, Eq, Structural)]
pub enum RecoveryStage {
    /// The graph is being set up.
    SettingUp(SetupStep),
    /// A member that is gone is looked for.
    Searching,
    /// A majority without the lost member is looked for.
    Polling(NodeId),
    /// The graph is being replaced by one without the lost member.
    Reconfiguring,
    /// The running state is being published.
    Publishing,
    Over,
}

/// A graph transition.
#[derive(Clone, Copy, Debug, PartialEq, Eq, Structural)]
pub struct RecoveryRun {
    /// The attempt at hand, counted from one.
    pub attempt: usize,
    pub windows: u64,
    pub state: V4IntegratedStateRecord,
    pub stage: RecoveryStage,
}

/// What a graph transition learns.
#[derive(Debug)]
pub enum RecoveryEvent {
    /// A part of the setup ended.
    Setup(SetupEvent),
    /// The member that is gone, if there is one.
    Unavailable(Option<NodeId>),
    /// Whether a majority is alive without the lost member.
    Quorum(bool),
    /// The state of the graph without the lost member, where there is such a graph.
    Reconfigured(Option<V4IntegratedStateRecord>),
    /// The hash of the published state, where it could be stored.
    Published(Option<ArtifactId>),
}

/// The contents of a [`RecoveryEvent`].
#[verifier::ext_equal]
pub enum RecoveryEventView {
    Setup(SetupEventView),
    Unavailable(Option<NodeId>),
    Quorum(bool),
    Reconfigured(Option<V4IntegratedStateRecord>),
    Published(Option<ArtifactId>),
}

impl View for RecoveryEvent {
    type V = RecoveryEventView;

    open spec fn view(&self) -> RecoveryEventView {
        match self {
            RecoveryEvent::Setup(event) => RecoveryEventView::Setup(event@),
            RecoveryEvent::Unavailable(gone) => RecoveryEventView::Unavailable(*gone),
            RecoveryEvent::Quorum(alive) => RecoveryEventView::Quorum(*alive),
            RecoveryEvent::Reconfigured(state) => RecoveryEventView::Reconfigured(*state),
            RecoveryEvent::Published(hash) => RecoveryEventView::Published(*hash),
        }
    }
}

/// Why a graph does not come into force.
#[derive(Clone, Copy, Debug, PartialEq, Eq, Structural)]
pub enum RecoveryError {
    /// A member is gone, and without it no majority is alive.
    NoQuorum(NodeId),
    /// There is no graph without the lost member.
    NotReconfigured,
    /// The running state could not be stored.
    NotPublished,
    /// Every attempt failed.
    Exhausted,
}

/// What a graph transition does next.
#[derive(Clone, Copy, Debug, PartialEq, Eq, Structural)]
pub enum RecoveryAction {
    /// Bring the graph to its members.
    Announce,
    /// Install what the graph places.
    Install(Placed),
    /// Look for a member that is gone.
    FindUnavailable,
    /// Ask whether a majority is alive without this member.
    CheckQuorum(NodeId),
    /// Replace the graph by one without this member.
    Reconfigure(NodeId),
    /// The graph is in force: store its running state and send it out.
    Publish(V4IntegratedStateRecord),
    /// The job runs on the graph.
    Done(V4IntegratedStateRecord),
    Fail(RecoveryError),
    /// The event was not awaited.
    Ignore,
}

/// The transition goes on to `stage` with `action`.
pub open spec fn recovery_on(run: RecoveryRun, stage: RecoveryStage, action: RecoveryAction) -> (
    RecoveryRun,
    RecoveryAction,
) {
    (RecoveryRun { stage, ..run }, action)
}

/// The next attempt, as long as there is one.
pub open spec fn next_attempt(run: RecoveryRun) -> (RecoveryRun, RecoveryAction) {
    if run.attempt >= INTEGRATED_MAX_WORKERS {
        recovery_on(run, RecoveryStage::Over, RecoveryAction::Fail(RecoveryError::Exhausted))
    } else {
        recovery_on(
            RecoveryRun { attempt: (run.attempt + 1) as usize, ..run },
            RecoveryStage::SettingUp(SetupStep::Announcing),
            RecoveryAction::Announce,
        )
    }
}

/// What follows from a step of the setup.
pub open spec fn setup_taken(
    run: RecoveryRun,
    graph: V4ExecutionGraphView,
    after: (SetupStep, SetupAction),
) -> (RecoveryRun, RecoveryAction) {
    match after.1 {
        SetupAction::Announce => recovery_on(
            run,
            RecoveryStage::SettingUp(after.0),
            RecoveryAction::Announce,
        ),
        SetupAction::Install(placed) => recovery_on(
            run,
            RecoveryStage::SettingUp(after.0),
            RecoveryAction::Install(placed),
        ),
        SetupAction::Ready => {
            let state = activated(graph, run.state, run.windows);
            recovery_on(
                RecoveryRun { state, ..run },
                RecoveryStage::Publishing,
                RecoveryAction::Publish(state),
            )
        },
        SetupAction::Fail => recovery_on(
            run,
            RecoveryStage::Searching,
            RecoveryAction::FindUnavailable,
        ),
        SetupAction::Ignore => (run, RecoveryAction::Ignore),
    }
}

/// The next step of a graph transition. `graph` is the one at hand. Where no member
/// is gone, the same graph is tried again; where one is, and a majority is alive
/// without it, a graph without it.
pub open spec fn recovery_stepped(
    run: RecoveryRun,
    graph: V4ExecutionGraphView,
    event: RecoveryEventView,
) -> (RecoveryRun, RecoveryAction) {
    match (run.stage, event) {
        (RecoveryStage::SettingUp(step), RecoveryEventView::Setup(came)) => setup_taken(
            run,
            graph,
            setup_stepped(step, came),
        ),
        (RecoveryStage::Searching, RecoveryEventView::Unavailable(gone)) => match gone {
            None => next_attempt(run),
            Some(failed) => recovery_on(
                run,
                RecoveryStage::Polling(failed),
                RecoveryAction::CheckQuorum(failed),
            ),
        },
        (RecoveryStage::Polling(failed), RecoveryEventView::Quorum(alive)) => if alive {
            recovery_on(run, RecoveryStage::Reconfiguring, RecoveryAction::Reconfigure(failed))
        } else {
            recovery_on(
                run,
                RecoveryStage::Over,
                RecoveryAction::Fail(RecoveryError::NoQuorum(failed)),
            )
        },
        (RecoveryStage::Reconfiguring, RecoveryEventView::Reconfigured(next)) => match next {
            None => recovery_on(
                run,
                RecoveryStage::Over,
                RecoveryAction::Fail(RecoveryError::NotReconfigured),
            ),
            Some(state) => next_attempt(RecoveryRun { state, ..run }),
        },
        (RecoveryStage::Publishing, RecoveryEventView::Published(hash)) => match hash {
            None => recovery_on(
                run,
                RecoveryStage::Over,
                RecoveryAction::Fail(RecoveryError::NotPublished),
            ),
            Some(state_hash) => {
                let state = V4IntegratedStateRecord { state_hash, ..run.state };
                recovery_on(
                    RecoveryRun { state, ..run },
                    RecoveryStage::Over,
                    RecoveryAction::Done(state),
                )
            },
        },
        _ => (run, RecoveryAction::Ignore),
    }
}

/// Begin a graph transition.
pub fn begin_recovery(state: V4IntegratedStateRecord, windows: u64) -> (r: (
    RecoveryRun,
    RecoveryAction,
))
    ensures
        r.0 == (RecoveryRun {
            attempt: 1,
            windows,
            state,
            stage: RecoveryStage::SettingUp(SetupStep::Announcing),
        }),
        r.1 == RecoveryAction::Announce,
{
    let stage = RecoveryStage::SettingUp(SetupStep::Announcing);
    (RecoveryRun { attempt: 1, windows, state, stage }, RecoveryAction::Announce)
}

fn try_again(run: &mut RecoveryRun) -> (r: RecoveryAction)
    ensures
        (*final(run), r) == next_attempt(*old(run)),
{
    if run.attempt >= INTEGRATED_MAX_WORKERS {
        run.stage = RecoveryStage::Over;
        RecoveryAction::Fail(RecoveryError::Exhausted)
    } else {
        run.attempt = run.attempt + 1;
        run.stage = RecoveryStage::SettingUp(SetupStep::Announcing);
        RecoveryAction::Announce
    }
}

fn take_setup(
    run: &mut RecoveryRun,
    graph: &V4ExecutionGraph,
    step: SetupStep,
    action: SetupAction,
) -> (r: RecoveryAction)
    ensures
        (*final(run), r) == setup_taken(*old(run), graph@, (step, action)),
{
    match action {
        SetupAction::Announce => {
            run.stage = RecoveryStage::SettingUp(step);
            RecoveryAction::Announce
        },
        SetupAction::Install(placed) => {
            run.stage = RecoveryStage::SettingUp(step);
            RecoveryAction::Install(placed)
        },
        SetupAction::Ready => {
            let mut state = run.state;
            commit_integrated_graph_activation(graph, &mut state, run.windows);
            run.state = state;
            run.stage = RecoveryStage::Publishing;
            RecoveryAction::Publish(state)
        },
        SetupAction::Fail => {
            run.stage = RecoveryStage::Searching;
            RecoveryAction::FindUnavailable
        },
        SetupAction::Ignore => RecoveryAction::Ignore,
    }
}

/// Take a graph transition one step on.
pub fn activate_integrated_graph_with_recovery(
    run: &mut RecoveryRun,
    graph: &V4ExecutionGraph,
    event: &RecoveryEvent,
) -> (r: RecoveryAction)
    ensures
        (*final(run), r) == recovery_stepped(*old(run), graph@, event@),
{
    match (run.stage, event) {
        (RecoveryStage::SettingUp(at), RecoveryEvent::Setup(came)) => {
            let mut step = at;
            let action = activate_and_install_integrated_graph(&mut step, came);
            take_setup(run, graph, step, action)
        },
        (RecoveryStage::Searching, RecoveryEvent::Unavailable(gone)) => match *gone {
            None => try_again(run),
            Some(failed) => {
                run.stage = RecoveryStage::Polling(failed);
                RecoveryAction::CheckQuorum(failed)
            },
        },
        (RecoveryStage::Polling(failed), RecoveryEvent::Quorum(alive)) => {
            if *alive {
                run.stage = RecoveryStage::Reconfiguring;
                RecoveryAction::Reconfigure(failed)
            } else {
                run.stage = RecoveryStage::Over;
                RecoveryAction::Fail(RecoveryError::NoQuorum(failed))
            }
        },
        (RecoveryStage::Reconfiguring, RecoveryEvent::Reconfigured(next)) => match *next {
            None => {
                run.stage = RecoveryStage::Over;
                RecoveryAction::Fail(RecoveryError::NotReconfigured)
            },
            Some(state) => {
                run.state = state;
                try_again(run)
            },
        },
        (RecoveryStage::Publishing, RecoveryEvent::Published(hash)) => match *hash {
            None => {
                run.stage = RecoveryStage::Over;
                RecoveryAction::Fail(RecoveryError::NotPublished)
            },
            Some(state_hash) => {
                run.state.state_hash = state_hash;
                run.stage = RecoveryStage::Over;
                RecoveryAction::Done(run.state)
            },
        },
        _ => RecoveryAction::Ignore,
    }
}

/// The setup at hand is what its events have made of it.
pub open spec fn set_up_by(run: RecoveryRun, events: Seq<SetupEventView>) -> bool {
    run.stage matches RecoveryStage::SettingUp(step) ==> step == setup_after(events)
}

/// The events of the setup at hand: a new attempt begins without any.
pub open spec fn setup_events(
    run: RecoveryRun,
    graph: V4ExecutionGraphView,
    event: RecoveryEventView,
    events: Seq<SetupEventView>,
) -> Seq<SetupEventView> {
    match event {
        RecoveryEventView::Setup(came) => if run.stage is SettingUp {
            events.push(came)
        } else {
            events
        },
        _ => if recovery_stepped(run, graph, event).0.stage is SettingUp
            && !(run.stage is SettingUp) {
            Seq::empty()
        } else {
            events
        },
    }
}

/// The running state of a graph is published only once, in the attempt at hand, the
/// graph came into force on its members and its shards, optimizer states and stages
/// have been installed; the job runs on it only after that.
pub proof fn law_running_graph_is_installed(
    run: RecoveryRun,
    graph: V4ExecutionGraphView,
    event: RecoveryEventView,
    events: Seq<SetupEventView>,
)
    requires
        set_up_by(run, events),
    ensures
        ({
            let (after, action) = recovery_stepped(run, graph, event);
            let now = setup_events(run, graph, event, events);
            &&& set_up_by(after, now)
            &&& action matches RecoveryAction::Publish(state) ==> {
                &&& in_force(now)
                &&& installed(now, Placed::Tensors)
                &&& installed(now, Placed::Optimizers)
                &&& installed(now, Placed::Stages)
                &&& state == activated(graph, run.state, run.windows)
                &&& after.stage is Publishing
            }
            &&& after.stage is Publishing && !(run.stage is Publishing) ==> action is Publish
            &&& action is Done ==> run.stage is Publishing
        }),
{
    match (run.stage, event) {
        (RecoveryStage::SettingUp(step), RecoveryEventView::Setup(came)) => {
            let now = events.push(came);
            assert(now.drop_last() =~= events);
            assert(now.last() == came);
            assert(setup_after(now) == setup_stepped(step, came).0);
            if setup_stepped(step, came).1 == SetupAction::Ready {
                law_ready_graph_is_installed(events, came);
                assert(now[events.len() as int] == came);
                assert forall|e: SetupEventView| #[trigger] events.contains(e) implies now.contains(
                    e,
                ) by {
                    let k = events.index_of(e);
                    assert(now[k] == e);
                }
            }
        },
        _ => {},
    }
}

/// A graph transition keeps the window of its state, as long as the states of the
/// graphs without a lost member do: what is published and what the job runs on stand
/// at the window at which the transition began.
pub proof fn law_transition_keeps_the_window(
    run: RecoveryRun,
    graph: V4ExecutionGraphView,
    event: RecoveryEventView,
)
    requires
        event matches RecoveryEventView::Reconfigured(Some(state)) ==> state.window
            == run.state.window,
    ensures
        ({
            let (after, action) = recovery_stepped(run, graph, event);
            &&& after.state.window == run.state.window
            &&& action matches RecoveryAction::Publish(state) ==> state.window == run.state.window
            &&& action matches RecoveryAction::Done(state) ==> state.window == run.state.window
        }),
{
}

/// A graph transition has a bounded number of attempts: each begins with the graph
/// brought to its members, and none begins beyond the last. A member is left out of
/// the graph only with a majority alive without it.
pub proof fn law_attempts_are_bounded(
    run: RecoveryRun,
    graph: V4ExecutionGraphView,
    event: RecoveryEventView,
)
    requires
        1 <= run.attempt <= INTEGRATED_MAX_WORKERS,
    ensures
        ({
            let (after, action) = recovery_stepped(run, graph, event);
            &&& run.attempt <= after.attempt <= INTEGRATED_MAX_WORKERS
            &&& action is Announce ==> after.attempt == run.attempt + 1
            &&& action matches RecoveryAction::Reconfigure(failed) ==> run.stage
                == RecoveryStage::Polling(failed) && event == RecoveryEventView::Quorum(true)
        }),
{
}

/// A setup installs the tensors, then the optimizer states, then the stages, each once the
/// one before is in place, and fails with the first that is not.
pub proof fn law_setup_installs_in_order(action: InstallAction)
    ensures
        setup_stepped(
            SetupStep::Announcing,
            SetupEventView::Announced(GraphActionView::InForce),
        ).1 == SetupAction::Install(Placed::Tensors),
        setup_stepped(
            SetupStep::Installing(Placed::Tensors),
            SetupEventView::Installed(Placed::Tensors, InstallAction::Done),
        ).1 == SetupAction::Install(Placed::Optimizers),
        setup_stepped(
            SetupStep::Installing(Placed::Optimizers),
            SetupEventView::Installed(Placed::Optimizers, InstallAction::Done),
        ).1 == SetupAction::Install(Placed::Stages),
        setup_stepped(
            SetupStep::Installing(Placed::Stages),
            SetupEventView::Installed(Placed::Stages, InstallAction::Done),
        ).1 is Ready,
        action != InstallAction::Done ==> setup_stepped(
            SetupStep::Installing(Placed::Stages),
            SetupEventView::Installed(Placed::Stages, action),
        ).1 is Fail,
{
}

/// A transition that fails looks for who is gone: with nobody gone it tries the same graph
/// again, at most sixteen times, and removes a member only with a quorum alive; its state
/// is then the one that was published.
pub proof fn law_transition_removes_with_a_quorum(
    run: RecoveryRun,
    graph: V4ExecutionGraphView,
    failed: NodeId,
    state: V4IntegratedStateRecord,
    hash: ArtifactId,
)
    ensures
        run.stage is Searching && run.attempt < 16 ==> ({
            let (after, action) = recovery_stepped(
                run,
                graph,
                RecoveryEventView::Unavailable(None),
            );
            action is Announce && after.attempt == run.attempt + 1 && after.state == run.state
        }),
        run.stage is Searching && run.attempt >= 16 ==> recovery_stepped(
            run,
            graph,
            RecoveryEventView::Unavailable(None),
        ).1 == RecoveryAction::Fail(RecoveryError::Exhausted),
        run.stage is Searching ==> recovery_stepped(
            run,
            graph,
            RecoveryEventView::Unavailable(Some(failed)),
        ).1 == RecoveryAction::CheckQuorum(failed),
        run.stage == RecoveryStage::Polling(failed) ==> {
            &&& recovery_stepped(run, graph, RecoveryEventView::Quorum(true)).1
                == RecoveryAction::Reconfigure(failed)
            &&& recovery_stepped(run, graph, RecoveryEventView::Quorum(false)).1
                == RecoveryAction::Fail(RecoveryError::NoQuorum(failed))
        },
        run.stage is Reconfiguring && run.attempt < 16 ==> ({
            let (after, action) = recovery_stepped(
                run,
                graph,
                RecoveryEventView::Reconfigured(Some(state)),
            );
            action is Announce && after.state == state && after.attempt == run.attempt + 1
        }),
        run.stage is Publishing ==> ({
            let (after, action) = recovery_stepped(
                run,
                graph,
                RecoveryEventView::Published(Some(hash)),
            );
            &&& action is Done && action->Done_0.state_hash == hash
            &&& action->Done_0.window == run.state.window
            &&& action->Done_0.current_loss_micros == run.state.current_loss_micros
        }),
        run.stage is Publishing ==> recovery_stepped(
            run,
            graph,
            RecoveryEventView::Published(None),
        ).1 == RecoveryAction::Fail(RecoveryError::NotPublished),
{
}

} // verus!
