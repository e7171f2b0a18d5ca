//! The driver of an integrated job: what the coordinator does next, window by
//! window, through joins, losses and slow members.

use crate::base::arith::sat_u64;
use crate::base::ids::{ArtifactId, JobId, NodeId};
use crate::base::members::contains_id;
use crate::base::record::Duplicate;
use crate::base::search::views;
use crate::frontier::start::{activated, commit_integrated_graph_activation};
use crate::frontier::types::{
    V4ExecutionGraph, V4ExecutionGraphView, V4IntegratedPhase, V4IntegratedStateRecord,
};
use vstd::prelude::*;

verus! {

/// The failed rounds in a row after which a slow member is looked for.
pub const STRAGGLER_FAILURES_REQUIRED: u8 = 2;

/// The windows that pass between two admissions.
pub const JOIN_COOLDOWN_WINDOWS: u64 = 1;

/// The fan-in of the updates of a round.
pub const UPDATE_FAN_IN: u16 = 2;

/// What became of an integrated job.
#[derive(Clone, Copy, Debug, PartialEq, Eq, Structural)]
pub struct V4IntegratedResult {
    pub request_id: JobId,
    pub job_id: JobId,
    pub graph_generation: u64,
    pub windows_completed: u64,
    pub initial_loss_micros: i64,
    pub final_loss_micros: i64,
    pub tensor_steps: u64,
    pub pipeline_steps: u64,
    pub collective_rounds: u64,
    pub checkpoint_generations: u64,
    pub graph_reconfigurations: u64,
    pub coordinator_replacements: u64,
    pub shard_recoveries: u64,
    pub tensor_recoveries: u64,
    pub pipeline_recoveries: u64,
    pub optimizer_recoveries: u64,
    pub checkpoint_recoveries: u64,
    pub max_update_fanin: u16,
    pub all_updates_to_one_coordinator: bool,
    pub single_optimizer_authority: bool,
    pub single_checkpoint_authority: bool,
    pub global_step_barrier: bool,
    pub model_must_fit_one_worker: bool,
    pub target_reached: bool,
    pub branch_reconciled: bool,
    pub phase: V4IntegratedPhase,
    pub backend_tasks: u64,
    pub backend_replans: u64,
    pub backend_fallbacks: u64,
    pub backend_portable_checkpoint: bool,
}

impl View for V4IntegratedResult {
    type V = V4IntegratedResult;

    open spec fn view(&self) -> V4IntegratedResult {
        *self
    }
}

impl Duplicate for V4IntegratedResult {
    fn duplicate(&self) -> (r: V4IntegratedResult) {
        *self
    }
}

/// Where a driver stands, and what it has counted.
#[derive(Clone, Copy, Debug, PartialEq, Eq, Structural)]
pub struct DriverProgress {
    pub windows: u64,
    pub checkpoint_every: u64,
    pub window: u64,
    pub join_allowed_after_window: u64,
    pub initial_loss: i64,
    pub current_loss: i64,
    pub tensor_steps: u64,
    pub pipeline_steps: u64,
    pub collective_rounds: u64,
    pub checkpoint_generations: u64,
    pub graph_reconfigurations: u64,
    pub coordinator_replacements: u64,
    pub shard_recoveries: u64,
    pub tensor_recoveries: u64,
    pub pipeline_recoveries: u64,
    pub optimizer_recoveries: u64,
    pub checkpoint_recoveries: u64,
    pub max_update_fanin: u16,
    pub branch_reconciled: bool,
    /// The failed rounds in a row.
    pub round_timeout_streak: u8,
}

/// The part of a window in which a loss is looked for.
#[derive(Clone, Copy, Debug, PartialEq, Eq, Structural)]
pub enum RoundPart {
    BeforeRound,
    Tensor,
    Pipeline,
    Collective,
    Checkpoint,
}

/// Why a graph is reconfigured.
#[derive(Clone, Copy, Debug, PartialEq, Eq, Structural)]
pub enum Cause {
    Join,
    Lost { part: RoundPart, was_coordinator: bool },
    Straggler { part: RoundPart },
}

/// What a driver waits for.
#[derive(Clone, Copy, Debug, PartialEq, Eq, Structural)]
pub enum Awaiting {
    Installation,
    Publication,
    GraphCheck,
    Newcomer,
    Loss { part: RoundPart },
    Quorum { part: RoundPart, failed: NodeId },
    Straggler { part: RoundPart },
    StragglerQuorum { part: RoundPart, worker: NodeId },
    Reconfiguration { cause: Cause },
    Activation { cause: Cause },
    Pause,
    TensorRound,
    PipelineRound,
    CollectiveRound,
    Checkpoint,
    FinalPublication,
    Nothing,
}

/// What a tensor round came to.
#[derive(Clone, Copy, Debug, PartialEq, Eq, Structural)]
pub struct TensorOutcome {
    pub loss: i64,
    pub steps: u64,
}

/// What the driver learns.
#[derive(Clone, Copy, Debug, PartialEq, Eq, Structural)]
pub enum DriverEvent {
    /// The graph and its state are installed on every member.
    Installed,
    /// The state is stored and sent out; this is its hash.
    Published(ArtifactId),
    /// Whether the driver's graph is still in force.
    GraphInForce(bool),
    /// The worker that may join, if there is one.
    Newcomer(Option<NodeId>),
    /// The member that is gone, if there is one.
    Unavailable(Option<NodeId>),
    /// Whether a majority is alive without the lost member.
    Quorum(bool),
    /// The member that is too slow, if there is one.
    Straggler(Option<NodeId>),
    /// The graph was reconfigured; this is its state.
    Reconfigured(V4IntegratedStateRecord),
    /// The graph came into force; this is its state.
    Activated(V4IntegratedStateRecord),
    Paused,
    /// What the tensor round came to, where it succeeded.
    TensorRound(Option<TensorOutcome>),
    PipelineRound(bool),
    CollectiveRound(bool),
    /// The generation of the checkpoint, where it was confirmed.
    Checkpoint(Option<u64>),
    /// A step failed that the driver does not outlive.
    Failed,
}

/// What the driver does next.
#[derive(Clone, Copy, Debug, PartialEq, Eq, Structural)]
pub enum DriverAction {
    /// Install the graph and its state on every member.
    Install,
    /// Store the state and send it out.
    Publish,
    /// Look whether the graph is still in force.
    CheckGraph,
    /// Look for a worker that may join.
    FindNewcomer,
    /// Look for a member that is gone.
    FindUnavailable,
    /// Ask whether a majority is alive without this member.
    CheckQuorum(NodeId),
    /// Look for a member that is too slow.
    FindStraggler,
    /// Reconfigure the graph with this newcomer.
    Admit(NodeId),
    /// Reconfigure the graph without this member.
    Remove(NodeId),
    /// Bring the reconfigured graph into force.
    Activate,
    /// Wait a moment.
    Pause,
    /// Probe the members, and wait a moment.
    ProbeAndPause,
    RunTensorRound,
    RunPipelineRound,
    RunCollectiveRound,
    CommitCheckpoint,
    /// The job is done: report the result.
    Finish,
    /// The driver gives way to a newer graph.
    Fenced,
    /// The driver ends with the error of the failed step.
    Stop,
    /// The event was not awaited.
    Ignore,
}

/// A driver.
#[derive(Clone, Copy, Debug, PartialEq, Eq, Structural)]
pub struct Driver {
    pub progress: DriverProgress,
    pub state: V4IntegratedStateRecord,
    pub awaiting: Awaiting,
}

/// Whether the graph in force is no longer the driver's.
pub fn driver_fenced(current: Option<&V4ExecutionGraph>, graph: &V4ExecutionGraph, node: NodeId) -> (r:
    bool)
    ensures
        r == (match current {
            None => true,
            Some(c) => c@.graph_generation != graph@.graph_generation || c@.graph_hash
                != graph@.graph_hash || c@.plan_hash != graph@.plan_hash || c@.coordinator != node,
        }),
{
    match current {
        None => true,
        Some(current) => current.graph_generation != graph.graph_generation || current.graph_hash
            != graph.graph_hash || current.plan_hash != graph.plan_hash || current.coordinator
            != node,
    }
}

/// The progress of a driver that starts on a state.
pub open spec fn first_progress(
    state: V4IntegratedStateRecord,
    windows: u64,
    checkpoint_every: u64,
) -> DriverProgress {
    DriverProgress {
        windows,
        checkpoint_every,
        window: state.window,
        join_allowed_after_window: state.window,
        initial_loss: state.initial_loss_micros,
        current_loss: state.current_loss_micros,
        tensor_steps: 0,
        pipeline_steps: 0,
        collective_rounds: 0,
        checkpoint_generations: 0,
        graph_reconfigurations: 0,
        coordinator_replacements: 0,
        shard_recoveries: 0,
        tensor_recoveries: 0,
        pipeline_recoveries: 0,
        optimizer_recoveries: 0,
        checkpoint_recoveries: 0,
        max_update_fanin: 0,
        branch_reconciled: false,
        round_timeout_streak: 0,
    }
}

/// Start a driver. A resumed job goes on from its stored state; a new one has
/// its graph installed first.
pub fn run_integrated_driver(
    graph: &V4ExecutionGraph,
    state: V4IntegratedStateRecord,
    windows: u64,
    checkpoint_every: u64,
    resumed: bool,
) -> (r: (Driver, DriverAction))
    requires
        checkpoint_every > 0,
    ensures
        r.0.progress == first_progress(state, windows, checkpoint_every),
        resumed ==> r.0.state == activated(graph@, state, windows) && r.0.awaiting
            == Awaiting::Publication && r.1 == DriverAction::Publish,
        !resumed ==> r.0.state == state && r.0.awaiting == Awaiting::Installation && r.1
            == DriverAction::Install,
        state.window <= windows ==> driver_wf(r.0),
        windows_agree(r.0),
        counts_match(r.0, state.window),
{
    let progress = DriverProgress {
        windows,
        checkpoint_every,
        window: state.window,
        join_allowed_after_window: state.window,
        initial_loss: state.initial_loss_micros,
        current_loss: state.current_loss_micros,
        tensor_steps: 0,
        pipeline_steps: 0,
        collective_rounds: 0,
        checkpoint_generations: 0,
        graph_reconfigurations: 0,
        coordinator_replacements: 0,
        shard_recoveries: 0,
        tensor_recoveries: 0,
        pipeline_recoveries: 0,
        optimizer_recoveries: 0,
        checkpoint_recoveries: 0,
        max_update_fanin: 0,
        branch_reconciled: false,
        round_timeout_streak: 0,
    };
    if resumed {
        let mut running = state;
        commit_integrated_graph_activation(graph, &mut running, windows);
        (
            Driver { progress, state: running, awaiting: Awaiting::Publication },
            DriverAction::Publish,
        )
    } else {
        (Driver { progress, state, awaiting: Awaiting::Installation }, DriverAction::Install)
    }
}

/// One more.
pub open spec fn next(count: u64) -> u64 {
    sat_u64(count + 1) as u64
}

/// `node` owns a shard of the graph.
pub open spec fn owns_a_shard(graph: V4ExecutionGraphView, node: NodeId) -> bool {
    exists|i: int| 0 <= i < graph.shards.len() && (#[trigger] graph.shards[i]).owners.contains(node)
}

/// `node` runs a stage of the graph.
pub open spec fn runs_a_stage(graph: V4ExecutionGraphView, node: NodeId) -> bool {
    exists|i: int|
        0 <= i < graph.pipeline_stages.len() && (#[trigger] graph.pipeline_stages[i]).worker == node
}

fn is_shard_owner(graph: &V4ExecutionGraph, node: NodeId) -> (r: bool)
    ensures
        r == owns_a_shard(graph@, node),
{
    let ghost s = graph@.shards;
    let mut i: usize = 0;
    while i < graph.shards.len()
        invariant
            0 <= i <= graph.shards@.len(),
            s == views(graph.shards@),
            s == graph@.shards,
            forall|j: int| 0 <= j < i ==> !(#[trigger] s[j]).owners.contains(node),
        decreases graph.shards@.len() - i,
    {
        assert(s[i as int] == graph.shards@[i as int]@);
        if contains_id(&graph.shards[i].owners, node) {
            return true;
        }
        i += 1;
    }
    false
}

fn is_stage_worker(graph: &V4ExecutionGraph, node: NodeId) -> (r: bool)
    ensures
        r == runs_a_stage(graph@, node),
{
    let ghost s = graph@.pipeline_stages;
    let mut i: usize = 0;
    while i < graph.pipeline_stages.len()
        invariant
            0 <= i <= graph.pipeline_stages@.len(),
            s == views(graph.pipeline_stages@),
            s == graph@.pipeline_stages,
            forall|j: int| 0 <= j < i ==> (#[trigger] s[j]).worker != node,
        decreases graph.pipeline_stages@.len() - i,
    {
        assert(s[i as int] == graph.pipeline_stages@[i as int]@);
        if graph.pipeline_stages[i].worker == node {
            return true;
        }
        i += 1;
    }
    false
}

/// The driver at the top of the next window, or at the end of the job.
pub open spec fn at_top(d: Driver) -> (Driver, DriverAction) {
    if d.progress.window < d.progress.windows {
        (Driver { awaiting: Awaiting::GraphCheck, ..d }, DriverAction::CheckGraph)
    } else {
        (
            Driver {
                state: V4IntegratedStateRecord { phase: V4IntegratedPhase::Committed, ..d.state },
                awaiting: Awaiting::FinalPublication,
                ..d
            },
            DriverAction::Publish,
        )
    }
}

fn go_to_top(d: Driver) -> (r: (Driver, DriverAction))
    ensures
        r == at_top(d),
{
    let mut out = d;
    if d.progress.window < d.progress.windows {
        out.awaiting = Awaiting::GraphCheck;
        (out, DriverAction::CheckGraph)
    } else {
        out.state.phase = V4IntegratedPhase::Committed;
        out.awaiting = Awaiting::FinalPublication;
        (out, DriverAction::Publish)
    }
}

/// A worker may join now: the last admission is a window back, and a split of
/// the reference shards has had its first window.
pub open spec fn admits(p: DriverProgress, graph: V4ExecutionGraphView) -> bool {
    !(p.window == 0 && graph.shards.len() == 4 && graph.checkpoint_generation <= 1) && p.window
        >= p.join_allowed_after_window
}

/// The counters after a reconfiguration.
pub open spec fn counted(
    p: DriverProgress,
    graph: V4ExecutionGraphView,
    node: NodeId,
    cause: Cause,
) -> DriverProgress {
    let base = DriverProgress { graph_reconfigurations: next(p.graph_reconfigurations), ..p };
    match cause {
        Cause::Join => DriverProgress {
            join_allowed_after_window: sat_u64(p.window + JOIN_COOLDOWN_WINDOWS) as u64,
            ..base
        },
        Cause::Lost { part: RoundPart::BeforeRound, was_coordinator } => DriverProgress {
            shard_recoveries: next(p.shard_recoveries),
            coordinator_replacements: if was_coordinator {
                next(p.coordinator_replacements)
            } else {
                p.coordinator_replacements
            },
            tensor_recoveries: if owns_a_shard(graph, node) {
                next(p.tensor_recoveries)
            } else {
                p.tensor_recoveries
            },
            optimizer_recoveries: if owns_a_shard(graph, node) {
                next(p.optimizer_recoveries)
            } else {
                p.optimizer_recoveries
            },
            pipeline_recoveries: if runs_a_stage(graph, node) {
                next(p.pipeline_recoveries)
            } else {
                p.pipeline_recoveries
            },
            ..base
        },
        Cause::Lost { part, .. } | Cause::Straggler { part } => match part {
            RoundPart::Tensor => DriverProgress {
                shard_recoveries: next(p.shard_recoveries),
                tensor_recoveries: next(p.tensor_recoveries),
                optimizer_recoveries: next(p.optimizer_recoveries),
                ..base
            },
            RoundPart::Pipeline => DriverProgress {
                shard_recoveries: next(p.shard_recoveries),
                pipeline_recoveries: next(p.pipeline_recoveries),
                ..base
            },
            RoundPart::Checkpoint => DriverProgress {
                checkpoint_recoveries: next(p.checkpoint_recoveries),
                ..base
            },
            _ => base,
        },
    }
}

fn count_reconfiguration(p: DriverProgress, graph: &V4ExecutionGraph, node: NodeId, cause: Cause) -> (r:
    DriverProgress)
    ensures
        r == counted(p, graph@, node, cause),
{
    let mut out = p;
    out.graph_reconfigurations = p.graph_reconfigurations.saturating_add(1);
    match cause {
        Cause::Join => {
            out.join_allowed_after_window = p.window.saturating_add(JOIN_COOLDOWN_WINDOWS);
        },
        Cause::Lost { part: RoundPart::BeforeRound, was_coordinator } => {
            out.shard_recoveries = p.shard_recoveries.saturating_add(1);
            if was_coordinator {
                out.coordinator_replacements = p.coordinator_replacements.saturating_add(1);
            }
            if is_shard_owner(graph, node) {
                out.tensor_recoveries = p.tensor_recoveries.saturating_add(1);
                out.optimizer_recoveries = p.optimizer_recoveries.saturating_add(1);
            }
            if is_stage_worker(graph, node) {
                out.pipeline_recoveries = p.pipeline_recoveries.saturating_add(1);
            }
        },
        Cause::Lost { part, .. } | Cause::Straggler { part } => match part {
            RoundPart::Tensor => {
                out.shard_recoveries = p.shard_recoveries.saturating_add(1);
                out.tensor_recoveries = p.tensor_recoveries.saturating_add(1);
                out.optimizer_recoveries = p.optimizer_recoveries.saturating_add(1);
            },
            RoundPart::Pipeline => {
                out.shard_recoveries = p.shard_recoveries.saturating_add(1);
                out.pipeline_recoveries = p.pipeline_recoveries.saturating_add(1);
            },
            RoundPart::Checkpoint => {
                out.checkpoint_recoveries = p.checkpoint_recoveries.saturating_add(1);
            },
            _ => {},
        },
    }
    out
}

/// The progress once the reconfigured graph is in force: a removal that was not
/// the answer to a failed step counts as a reconciled branch, and a failed
/// round is forgotten.
pub open spec fn settled(p: DriverProgress, cause: Cause) -> DriverProgress {
    match cause {
        Cause::Join => p,
        Cause::Lost { part: RoundPart::BeforeRound, .. } => DriverProgress {
            branch_reconciled: true,
            ..p
        },
        Cause::Lost { part: RoundPart::Checkpoint, .. } => p,
        Cause::Lost { .. } => DriverProgress { round_timeout_streak: 0, ..p },
        Cause::Straggler { .. } => DriverProgress {
            branch_reconciled: true,
            round_timeout_streak: 0,
            ..p
        },
    }
}

fn settle(p: DriverProgress, cause: Cause) -> (r: DriverProgress)
    ensures
        r == settled(p, cause),
{
    let mut out = p;
    match cause {
        Cause::Join => {},
        Cause::Lost { part: RoundPart::BeforeRound, .. } => {
            out.branch_reconciled = true;
        },
        Cause::Lost { part: RoundPart::Checkpoint, .. } => {},
        Cause::Lost { .. } => {
            out.round_timeout_streak = 0;
        },
        Cause::Straggler { .. } => {
            out.branch_reconciled = true;
            out.round_timeout_streak = 0;
        },
    }
    out
}

/// The failed rounds in a row, with one more.
pub open spec fn longer_streak(streak: u8) -> u8 {
    if streak < u8::MAX {
        (streak + 1) as u8
    } else {
        streak
    }
}

/// No member is gone: the window begins, or a failed round is counted and,
/// where it is not the first in a row, a slow member is looked for.
pub open spec fn nobody_gone(d: Driver, part: RoundPart) -> (Driver, DriverAction) {
    match part {
        RoundPart::BeforeRound => (
            Driver { awaiting: Awaiting::TensorRound, ..d },
            DriverAction::RunTensorRound,
        ),
        RoundPart::Checkpoint => (
            Driver { awaiting: Awaiting::Pause, ..d },
            DriverAction::ProbeAndPause,
        ),
        _ => {
            let streak = longer_streak(d.progress.round_timeout_streak);
            let progress = DriverProgress { round_timeout_streak: streak, ..d.progress };
            if streak >= STRAGGLER_FAILURES_REQUIRED {
                (
                    Driver { progress, awaiting: Awaiting::Straggler { part }, ..d },
                    DriverAction::FindStraggler,
                )
            } else {
                (
                    Driver { progress, awaiting: Awaiting::Pause, ..d },
                    DriverAction::ProbeAndPause,
                )
            }
        },
    }
}

/// The state at the end of a window.
pub open spec fn window_state(
    d: Driver,
    graph: V4ExecutionGraphView,
    window: u64,
) -> V4IntegratedStateRecord {
    V4IntegratedStateRecord {
        window,
        graph_generation: graph.graph_generation,
        plan_hash: graph.plan_hash,
        branch: graph.branch,
        coordinator: graph.coordinator,
        current_loss_micros: d.progress.current_loss,
        initial_loss_micros: if d.progress.initial_loss != 0 {
            d.progress.initial_loss
        } else {
            d.state.initial_loss_micros
        },
        ..d.state
    }
}

/// The window is complete.
pub open spec fn window_done(d: Driver, graph: V4ExecutionGraphView) -> (Driver, DriverAction) {
    let window = next(d.progress.window);
    let progress = DriverProgress {
        collective_rounds: next(d.progress.collective_rounds),
        round_timeout_streak: 0,
        window,
        ..d.progress
    };
    let state = window_state(d, graph, window);
    if window % d.progress.checkpoint_every == 0 || window == d.progress.windows {
        (
            Driver { progress, state, awaiting: Awaiting::Checkpoint },
            DriverAction::CommitCheckpoint,
        )
    } else {
        (Driver { progress, state, awaiting: Awaiting::Publication }, DriverAction::Publish)
    }
}

/// The driver waits to find out who is gone.
pub open spec fn look_for_loss(d: Driver, part: RoundPart) -> (Driver, DriverAction) {
    (Driver { awaiting: Awaiting::Loss { part }, ..d }, DriverAction::FindUnavailable)
}

/// The reconfigured graph is brought into force.
pub open spec fn reconfigured(
    d: Driver,
    node: NodeId,
    graph: V4ExecutionGraphView,
    cause: Cause,
    state: V4IntegratedStateRecord,
) -> (Driver, DriverAction) {
    (
        Driver {
            progress: counted(d.progress, graph, node, cause),
            state,
            awaiting: Awaiting::Activation { cause },
        },
        DriverAction::Activate,
    )
}

/// The next step of a driver. `graph` is the one that it drives; after a
/// reconfiguration, the reconfigured one.
pub open spec fn driven(d: Driver, node: NodeId, graph: V4ExecutionGraphView, event: DriverEvent) -> (
    Driver,
    DriverAction,
) {
    match (d.awaiting, event) {
        (_, DriverEvent::Failed) => (
            Driver { awaiting: Awaiting::Nothing, ..d },
            DriverAction::Stop,
        ),
        (Awaiting::Installation, DriverEvent::Installed) => (
            Driver {
                state: activated(graph, d.state, d.progress.windows),
                awaiting: Awaiting::Publication,
                ..d
            },
            DriverAction::Publish,
        ),
        (Awaiting::Publication, DriverEvent::Published(hash)) => at_top(
            Driver { state: V4IntegratedStateRecord { state_hash: hash, ..d.state }, ..d },
        ),
        (Awaiting::GraphCheck, DriverEvent::GraphInForce(in_force)) => if !in_force {
            (Driver { awaiting: Awaiting::Nothing, ..d }, DriverAction::Fenced)
        } else if admits(d.progress, graph) {
            (Driver { awaiting: Awaiting::Newcomer, ..d }, DriverAction::FindNewcomer)
        } else {
            look_for_loss(d, RoundPart::BeforeRound)
        },
        (Awaiting::Newcomer, DriverEvent::Newcomer(newcomer)) => match newcomer {
            Some(worker) => (
                Driver { awaiting: Awaiting::Reconfiguration { cause: Cause::Join }, ..d },
                DriverAction::Admit(worker),
            ),
            None => look_for_loss(d, RoundPart::BeforeRound),
        },
        (Awaiting::Loss { part }, DriverEvent::Unavailable(gone)) => match gone {
            Some(failed) => (
                Driver { awaiting: Awaiting::Quorum { part, failed }, ..d },
                DriverAction::CheckQuorum(failed),
            ),
            None => nobody_gone(d, part),
        },
        (Awaiting::Quorum { part, failed }, DriverEvent::Quorum(quorum)) => if quorum {
            (
                Driver {
                    awaiting: Awaiting::Reconfiguration {
                        cause: Cause::Lost { part, was_coordinator: failed == graph.coordinator },
                    },
                    ..d
                },
                DriverAction::Remove(failed),
            )
        } else {
            (Driver { awaiting: Awaiting::Pause, ..d }, DriverAction::Pause)
        },
        (Awaiting::Straggler { part }, DriverEvent::Straggler(found)) => match found {
            Some(worker) => (
                Driver { awaiting: Awaiting::StragglerQuorum { part, worker }, ..d },
                DriverAction::CheckQuorum(worker),
            ),
            None => (Driver { awaiting: Awaiting::Pause, ..d }, DriverAction::ProbeAndPause),
        },
        (Awaiting::StragglerQuorum { part, worker }, DriverEvent::Quorum(quorum)) => if quorum {
            (
                Driver {
                    awaiting: Awaiting::Reconfiguration { cause: Cause::Straggler { part } },
                    ..d
                },
                DriverAction::Remove(worker),
            )
        } else {
            (Driver { awaiting: Awaiting::Pause, ..d }, DriverAction::ProbeAndPause)
        },
        (Awaiting::Reconfiguration { cause }, DriverEvent::Reconfigured(state)) => reconfigured(
            d,
            node,
            graph,
            cause,
            state,
        ),
        (Awaiting::Activation { cause }, DriverEvent::Activated(state)) => at_top(
            Driver { progress: settled(d.progress, cause), state, ..d },
        ),
        (Awaiting::Pause, DriverEvent::Paused) => at_top(d),
        (Awaiting::TensorRound, DriverEvent::TensorRound(outcome)) => match outcome {
            None => look_for_loss(d, RoundPart::Tensor),
            Some(TensorOutcome { loss, steps }) => (
                Driver {
                    progress: DriverProgress {
                        tensor_steps: sat_u64(d.progress.tensor_steps + steps) as u64,
                        current_loss: loss,
                        initial_loss: if d.progress.initial_loss == 0 {
                            loss
                        } else {
                            d.progress.initial_loss
                        },
                        max_update_fanin: if d.progress.max_update_fanin < UPDATE_FAN_IN {
                            UPDATE_FAN_IN
                        } else {
                            d.progress.max_update_fanin
                        },
                        ..d.progress
                    },
                    awaiting: Awaiting::PipelineRound,
                    ..d
                },
                DriverAction::RunPipelineRound,
            ),
        },
        (Awaiting::PipelineRound, DriverEvent::PipelineRound(succeeded)) => if succeeded {
            (
                Driver {
                    progress: DriverProgress {
                        pipeline_steps: next(d.progress.pipeline_steps),
                        ..d.progress
                    },
                    awaiting: Awaiting::CollectiveRound,
                    ..d
                },
                DriverAction::RunCollectiveRound,
            )
        } else {
            look_for_loss(d, RoundPart::Pipeline)
        },
        (Awaiting::CollectiveRound, DriverEvent::CollectiveRound(succeeded)) => if succeeded {
            window_done(d, graph)
        } else {
            look_for_loss(d, RoundPart::Collective)
        },
        (Awaiting::Checkpoint, DriverEvent::Checkpoint(confirmed)) => match confirmed {
            None => look_for_loss(d, RoundPart::Checkpoint),
            Some(generation) => (
                Driver {
                    progress: DriverProgress {
                        checkpoint_generations: next(d.progress.checkpoint_generations),
                        ..d.progress
                    },
                    state: V4IntegratedStateRecord {
                        checkpoint_generation: generation,
                        ..d.state
                    },
                    awaiting: Awaiting::Publication,
                },
                DriverAction::Publish,
            ),
        },
        (Awaiting::FinalPublication, DriverEvent::Published(hash)) => (
            Driver {
                state: V4IntegratedStateRecord { state_hash: hash, ..d.state },
                awaiting: Awaiting::Nothing,
                ..d
            },
            DriverAction::Finish,
        ),
        _ => (d, DriverAction::Ignore),
    }
}

fn start_loss_search(d: Driver, part: RoundPart) -> (r: (Driver, DriverAction))
    ensures
        r == look_for_loss(d, part),
{
    let mut out = d;
    out.awaiting = Awaiting::Loss { part };
    (out, DriverAction::FindUnavailable)
}

fn after_nobody_gone(d: Driver, part: RoundPart) -> (r: (Driver, DriverAction))
    ensures
        r == nobody_gone(d, part),
{
    let mut out = d;
    match part {
        RoundPart::BeforeRound => {
            out.awaiting = Awaiting::TensorRound;
            (out, DriverAction::RunTensorRound)
        },
        RoundPart::Checkpoint => {
            out.awaiting = Awaiting::Pause;
            (out, DriverAction::ProbeAndPause)
        },
        _ => {
            out.progress.round_timeout_streak = d.progress.round_timeout_streak.saturating_add(1);
            if out.progress.round_timeout_streak >= STRAGGLER_FAILURES_REQUIRED {
                out.awaiting = Awaiting::Straggler { part };
                (out, DriverAction::FindStraggler)
            } else {
                out.awaiting = Awaiting::Pause;
                (out, DriverAction::ProbeAndPause)
            }
        },
    }
}

fn after_window(d: Driver, graph: &V4ExecutionGraph) -> (r: (Driver, DriverAction))
    requires
        d.progress.checkpoint_every > 0,
    ensures
        r == window_done(d, graph@),
{
    let mut out = d;
    let window: u64 = d.progress.window.saturating_add(1);
    out.progress.collective_rounds = d.progress.collective_rounds.saturating_add(1);
    out.progress.round_timeout_streak = 0;
    out.progress.window = window;
    out.state.window = window;
    out.state.graph_generation = graph.graph_generation;
    out.state.plan_hash = graph.plan_hash;
    out.state.branch = graph.branch;
    out.state.coordinator = graph.coordinator;
    out.state.current_loss_micros = d.progress.current_loss;
    if d.progress.initial_loss != 0 {
        out.state.initial_loss_micros = d.progress.initial_loss;
    }
    if window % d.progress.checkpoint_every == 0 || window == d.progress.windows {
        out.awaiting = Awaiting::Checkpoint;
        (out, DriverAction::CommitCheckpoint)
    } else {
        out.awaiting = Awaiting::Publication;
        (out, DriverAction::Publish)
    }
}

fn after_reconfiguration(
    d: Driver,
    node: NodeId,
    graph: &V4ExecutionGraph,
    cause: Cause,
    state: V4IntegratedStateRecord,
) -> (r: (Driver, DriverAction))
    ensures
        r == reconfigured(d, node, graph@, cause, state),
{
    (
        Driver {
            progress: count_reconfiguration(d.progress, graph, node, cause),
            state,
            awaiting: Awaiting::Activation { cause },
        },
        DriverAction::Activate,
    )
}

/// The next step of a driver.
pub fn drive(d: Driver, node: NodeId, graph: &V4ExecutionGraph, event: DriverEvent) -> (r: (
    Driver,
    DriverAction,
))
    requires
        d.progress.checkpoint_every > 0,
    ensures
        r == driven(d, node, graph@, event),
{
    let mut out = d;
    match (d.awaiting, event) {
        (_, DriverEvent::Failed) => {
            out.awaiting = Awaiting::Nothing;
            (out, DriverAction::Stop)
        },
        (Awaiting::Installation, DriverEvent::Installed) => {
            let mut running = d.state;
            commit_integrated_graph_activation(graph, &mut running, d.progress.windows);
            out.state = running;
            out.awaiting = Awaiting::Publication;
            (out, DriverAction::Publish)
        },
        (Awaiting::Publication, DriverEvent::Published(hash)) => {
            out.state.state_hash = hash;
            go_to_top(out)
        },
        (Awaiting::GraphCheck, DriverEvent::GraphInForce(in_force)) => {
            if !in_force {
                out.awaiting = Awaiting::Nothing;
                (out, DriverAction::Fenced)
            } else if !(d.progress.window == 0 && graph.shards.len() == 4
                && graph.checkpoint_generation <= 1) && d.progress.window
                >= d.progress.join_allowed_after_window {
                out.awaiting = Awaiting::Newcomer;
                (out, DriverAction::FindNewcomer)
            } else {
                start_loss_search(d, RoundPart::BeforeRound)
            }
        },
        (Awaiting::Newcomer, DriverEvent::Newcomer(newcomer)) => match newcomer {
            Some(worker) => {
                out.awaiting = Awaiting::Reconfiguration { cause: Cause::Join };
                (out, DriverAction::Admit(worker))
            },
            None => start_loss_search(d, RoundPart::BeforeRound),
        },
        (Awaiting::Loss { part }, DriverEvent::Unavailable(gone)) => match gone {
            Some(failed) => {
                out.awaiting = Awaiting::Quorum { part, failed };
                (out, DriverAction::CheckQuorum(failed))
            },
            None => after_nobody_gone(d, part),
        },
        (Awaiting::Quorum { part, failed }, DriverEvent::Quorum(quorum)) => {
            if quorum {
                let was_coordinator = failed == graph.coordinator;
                out.awaiting =
                Awaiting::Reconfiguration { cause: Cause::Lost { part, was_coordinator } };
                (out, DriverAction::Remove(failed))
            } else {
                out.awaiting = Awaiting::Pause;
                (out, DriverAction::Pause)
            }
        },
        (Awaiting::Straggler { part }, DriverEvent::Straggler(found)) => match found {
            Some(worker) => {
                out.awaiting = Awaiting::StragglerQuorum { part, worker };
                (out, DriverAction::CheckQuorum(worker))
            },
            None => {
                out.awaiting = Awaiting::Pause;
                (out, DriverAction::ProbeAndPause)
            },
        },
        (Awaiting::StragglerQuorum { part, worker }, DriverEvent::Quorum(quorum)) => {
            if quorum {
                out.awaiting =
                Awaiting::Reconfiguration { cause: Cause::Straggler { part } };
                (out, DriverAction::Remove(worker))
            } else {
                out.awaiting = Awaiting::Pause;
                (out, DriverAction::ProbeAndPause)
            }
        },
        (Awaiting::Reconfiguration { cause }, DriverEvent::Reconfigured(state)) =>
            after_reconfiguration(d, node, graph, cause, state),
        (Awaiting::Activation { cause }, DriverEvent::Activated(state)) => {
            out.progress = settle(d.progress, cause);
            out.state = state;
            go_to_top(out)
        },
        (Awaiting::Pause, DriverEvent::Paused) => go_to_top(d),
        (Awaiting::TensorRound, DriverEvent::TensorRound(outcome)) => match outcome {
            None => start_loss_search(d, RoundPart::Tensor),
            Some(TensorOutcome { loss, steps }) => {
                out.progress.tensor_steps = d.progress.tensor_steps.saturating_add(steps);
                out.progress.current_loss = loss;
                if d.progress.initial_loss == 0 {
                    out.progress.initial_loss = loss;
                }
                if d.progress.max_update_fanin < UPDATE_FAN_IN {
                    out.progress.max_update_fanin = UPDATE_FAN_IN;
                }
                out.awaiting = Awaiting::PipelineRound;
                (out, DriverAction::RunPipelineRound)
            },
        },
        (Awaiting::PipelineRound, DriverEvent::PipelineRound(succeeded)) => {
            if succeeded {
                out.progress.pipeline_steps = d.progress.pipeline_steps.saturating_add(1);
                out.awaiting = Awaiting::CollectiveRound;
                (out, DriverAction::RunCollectiveRound)
            } else {
                start_loss_search(d, RoundPart::Pipeline)
            }
        },
        (Awaiting::CollectiveRound, DriverEvent::CollectiveRound(succeeded)) => {
            if succeeded {
                after_window(d, graph)
            } else {
                start_loss_search(d, RoundPart::Collective)
            }
        },
        (Awaiting::Checkpoint, DriverEvent::Checkpoint(confirmed)) => match confirmed {
            None => start_loss_search(d, RoundPart::Checkpoint),
            Some(generation) => {
                out.progress.checkpoint_generations =
                d.progress.checkpoint_generations.saturating_add(1);
                out.state.checkpoint_generation = generation;
                out.awaiting = Awaiting::Publication;
                (out, DriverAction::Publish)
            },
        },
        (Awaiting::FinalPublication, DriverEvent::Published(hash)) => {
            out.state.state_hash = hash;
            out.awaiting = Awaiting::Nothing;
            (out, DriverAction::Finish)
        },
        _ => (d, DriverAction::Ignore),
    }
}

/// The result of a finished driver.
pub open spec fn result_of(p: DriverProgress, graph: V4ExecutionGraphView) -> V4IntegratedResult {
    V4IntegratedResult {
        request_id: graph.job_id,
        job_id: graph.job_id,
        graph_generation: graph.graph_generation,
        windows_completed: p.window,
        initial_loss_micros: p.initial_loss,
        final_loss_micros: p.current_loss,
        tensor_steps: p.tensor_steps,
        pipeline_steps: p.pipeline_steps,
        collective_rounds: p.collective_rounds,
        checkpoint_generations: p.checkpoint_generations,
        graph_reconfigurations: p.graph_reconfigurations,
        coordinator_replacements: p.coordinator_replacements,
        shard_recoveries: p.shard_recoveries,
        tensor_recoveries: p.tensor_recoveries,
        pipeline_recoveries: p.pipeline_recoveries,
        optimizer_recoveries: p.optimizer_recoveries,
        checkpoint_recoveries: p.checkpoint_recoveries,
        max_update_fanin: p.max_update_fanin,
        all_updates_to_one_coordinator: false,
        single_optimizer_authority: false,
        single_checkpoint_authority: false,
        global_step_barrier: false,
        model_must_fit_one_worker: false,
        target_reached: p.initial_loss > 0 && p.current_loss < p.initial_loss,
        branch_reconciled: p.branch_reconciled,
        phase: V4IntegratedPhase::Committed,
        backend_tasks: sat_u64(
            sat_u64(p.tensor_steps + p.pipeline_steps) + p.collective_rounds,
        ) as u64,
        backend_replans: p.graph_reconfigurations,
        backend_fallbacks: 0,
        backend_portable_checkpoint: p.checkpoint_generations > 0,
    }
}

pub fn integrated_result(p: &DriverProgress, graph: &V4ExecutionGraph) -> (r: V4IntegratedResult)
    ensures
        r == result_of(*p, graph@),
{
    V4IntegratedResult {
        request_id: graph.job_id,
        job_id: graph.job_id,
        graph_generation: graph.graph_generation,
        windows_completed: p.window,
        initial_loss_micros: p.initial_loss,
        final_loss_micros: p.current_loss,
        tensor_steps: p.tensor_steps,
        pipeline_steps: p.pipeline_steps,
        collective_rounds: p.collective_rounds,
        checkpoint_generations: p.checkpoint_generations,
        graph_reconfigurations: p.graph_reconfigurations,
        coordinator_replacements: p.coordinator_replacements,
        shard_recoveries: p.shard_recoveries,
        tensor_recoveries: p.tensor_recoveries,
        pipeline_recoveries: p.pipeline_recoveries,
        optimizer_recoveries: p.optimizer_recoveries,
        checkpoint_recoveries: p.checkpoint_recoveries,
        max_update_fanin: p.max_update_fanin,
        all_updates_to_one_coordinator: false,
        single_optimizer_authority: false,
        single_checkpoint_authority: false,
        global_step_barrier: false,
        model_must_fit_one_worker: false,
        target_reached: p.initial_loss > 0 && p.current_loss < p.initial_loss,
        branch_reconciled: p.branch_reconciled,
        phase: V4IntegratedPhase::Committed,
        backend_tasks: p.tensor_steps.saturating_add(p.pipeline_steps).saturating_add(
            p.collective_rounds,
        ),
        backend_replans: p.graph_reconfigurations,
        backend_fallbacks: 0,
        backend_portable_checkpoint: p.checkpoint_generations > 0,
    }
}

/// A window counts only once its tensor, pipeline and collective rounds have
/// succeeded, one after the other on one graph.
pub proof fn law_window_needs_all_rounds(
    d: Driver,
    node: NodeId,
    graph: V4ExecutionGraphView,
    event: DriverEvent,
)
    ensures
        ({
            let after = driven(d, node, graph, event).0;
            &&& after.progress.window != d.progress.window ==> d.awaiting
                == Awaiting::CollectiveRound && event == DriverEvent::CollectiveRound(true)
                && after.progress.window == d.progress.window + 1
            &&& after.awaiting == Awaiting::CollectiveRound && after != d ==> d.awaiting
                == Awaiting::PipelineRound && event == DriverEvent::PipelineRound(true)
            &&& after.awaiting == Awaiting::PipelineRound && after != d ==> d.awaiting
                == Awaiting::TensorRound && event is TensorRound && event->TensorRound_0 is Some
            &&& after.awaiting == Awaiting::TensorRound && after != d ==> d.awaiting
                == (Awaiting::Loss { part: RoundPart::BeforeRound }) && event
                == DriverEvent::Unavailable(None)
        }),
{
}

/// A window is under way only while windows are left; only a failed checkpoint
/// is still dealt with after the last one. The last state is a committed one.
pub open spec fn driver_wf(d: Driver) -> bool {
    &&& d.progress.window <= d.progress.windows
    &&& match d.awaiting {
        Awaiting::GraphCheck
        | Awaiting::TensorRound
        | Awaiting::PipelineRound
        | Awaiting::CollectiveRound => d.progress.window < d.progress.windows,
        Awaiting::Newcomer => d.progress.window < d.progress.windows && d.progress.window
            >= d.progress.join_allowed_after_window,
        Awaiting::Loss { part } => part == RoundPart::Checkpoint || d.progress.window
            < d.progress.windows,
        Awaiting::FinalPublication => d.progress.window == d.progress.windows && d.state.phase
            == V4IntegratedPhase::Committed,
        _ => true,
    }
}

/// A driver never goes beyond its windows, and it finishes only when all of them are
/// complete and its state is committed.
pub proof fn law_driver_stays_within_windows(
    d: Driver,
    node: NodeId,
    graph: V4ExecutionGraphView,
    event: DriverEvent,
)
    requires
        driver_wf(d),
    ensures
        driver_wf(driven(d, node, graph, event).0),
        driven(d, node, graph, event).1 == DriverAction::Finish ==> d.progress.window
            == d.progress.windows && driven(d, node, graph, event).0.state.phase
            == V4IntegratedPhase::Committed,
        driven(d, node, graph, event).1 == DriverAction::Publish && driven(
            d,
            node,
            graph,
            event,
        ).0.awaiting == Awaiting::FinalPublication ==> driven(
            d,
            node,
            graph,
            event,
        ).0.state.phase == V4IntegratedPhase::Committed,
{
}

/// The state of a driver stands at the driver's window.
pub open spec fn windows_agree(d: Driver) -> bool {
    d.state.window == d.progress.window
}

/// A state that comes in with an event, after a reconfiguration or an activation,
/// stands at the driver's window.
pub open spec fn keeps_window(d: Driver, event: DriverEvent) -> bool {
    &&& event matches DriverEvent::Reconfigured(state) ==> state.window == d.progress.window
    &&& event matches DriverEvent::Activated(state) ==> state.window == d.progress.window
}

/// The state that a driver publishes stands at the window that the driver has
/// completed, over the whole run; at the end that is the last window.
pub proof fn law_state_follows_the_window(
    d: Driver,
    node: NodeId,
    graph: V4ExecutionGraphView,
    event: DriverEvent,
)
    requires
        driver_wf(d),
        windows_agree(d),
        keeps_window(d, event),
    ensures
        ({
            let (after, action) = driven(d, node, graph, event);
            &&& windows_agree(after)
            &&& after.progress.windows == d.progress.windows
            &&& action == DriverAction::Finish ==> after.state.window == d.progress.windows
        }),
{
}

/// Admissions are paced by windows: a worker is admitted only where the window has
/// reached the one that the last admission set, which is the window after its own.
pub proof fn law_admissions_are_paced(
    d: Driver,
    node: NodeId,
    graph: V4ExecutionGraphView,
    event: DriverEvent,
)
    requires
        driver_wf(d),
    ensures
        ({
            let (after, action) = driven(d, node, graph, event);
            let before = d.progress.join_allowed_after_window;
            let now = after.progress.join_allowed_after_window;
            let joined = d.awaiting == (Awaiting::Reconfiguration { cause: Cause::Join })
                && event is Reconfigured;
            &&& action is Admit ==> d.progress.window >= before
            &&& joined ==> now == sat_u64(d.progress.window + JOIN_COOLDOWN_WINDOWS)
                && after.progress.window == d.progress.window
            &&& !joined ==> now == before
        }),
{
}

/// A driver whose graph is no longer in force does nothing more.
pub proof fn law_fenced_driver_stops(
    d: Driver,
    node: NodeId,
    graph: V4ExecutionGraphView,
    event: DriverEvent,
)
    requires
        d.awaiting == Awaiting::GraphCheck,
    ensures
        driven(d, node, graph, DriverEvent::GraphInForce(false)).1 == DriverAction::Fenced,
        ({
            let stopped = driven(d, node, graph, DriverEvent::GraphInForce(false)).0;
            driven(stopped, node, graph, event).1 == DriverAction::Ignore || driven(
                stopped,
                node,
                graph,
                event,
            ).1 == DriverAction::Stop
        }),
{
}

/// A member is removed, whether it is gone or too slow, only when a majority is
/// alive without it, and a slow member is looked for only after two failed
/// rounds in a row.
pub proof fn law_removal_needs_quorum(
    d: Driver,
    node: NodeId,
    graph: V4ExecutionGraphView,
    event: DriverEvent,
)
    ensures
        driven(d, node, graph, event).1 matches DriverAction::Remove(worker) ==> {
            &&& event == DriverEvent::Quorum(true)
            &&& d.awaiting matches Awaiting::Quorum { failed, .. } ==> failed == worker
            &&& d.awaiting matches Awaiting::StragglerQuorum { worker: slow, .. } ==> slow == worker
            &&& d.awaiting is Quorum || d.awaiting is StragglerQuorum
        },
        driven(d, node, graph, event).1 is FindStraggler ==> event == DriverEvent::Unavailable(
            None,
        ) && d.progress.round_timeout_streak >= 1,
{
}

/// What a driver has counted is never taken back.
pub proof fn law_counts_never_fall(
    d: Driver,
    node: NodeId,
    graph: V4ExecutionGraphView,
    event: DriverEvent,
)
    ensures
        ({
            let a = driven(d, node, graph, event).0.progress;
            let b = d.progress;
            &&& a.tensor_steps >= b.tensor_steps
            &&& a.pipeline_steps >= b.pipeline_steps
            &&& a.collective_rounds >= b.collective_rounds
            &&& a.checkpoint_generations >= b.checkpoint_generations
            &&& a.graph_reconfigurations >= b.graph_reconfigurations
            &&& a.coordinator_replacements >= b.coordinator_replacements
            &&& a.shard_recoveries >= b.shard_recoveries
            &&& a.tensor_recoveries >= b.tensor_recoveries
            &&& a.pipeline_recoveries >= b.pipeline_recoveries
            &&& a.optimizer_recoveries >= b.optimizer_recoveries
            &&& a.checkpoint_recoveries >= b.checkpoint_recoveries
            &&& a.window >= b.window
            &&& b.branch_reconciled ==> a.branch_reconciled
        }),
{
}

/// What a driver that began at window `start` has counted: one collective round for
/// every window, and no fewer pipeline rounds.
pub open spec fn counts_match(d: Driver, start: u64) -> bool {
    &&& d.progress.window == start + d.progress.collective_rounds
    &&& d.progress.pipeline_steps >= d.progress.collective_rounds
    &&& d.awaiting == Awaiting::CollectiveRound ==> d.progress.pipeline_steps
        > d.progress.collective_rounds
}

/// The windows that a driver completes are its collective rounds, over the whole run,
/// and each of them had a pipeline round. The loss of the first round stays.
pub proof fn law_rounds_match_windows(
    d: Driver,
    node: NodeId,
    graph: V4ExecutionGraphView,
    event: DriverEvent,
    start: u64,
)
    requires
        driver_wf(d),
        counts_match(d, start),
    ensures
        ({
            let (after, action) = driven(d, node, graph, event);
            &&& counts_match(after, start)
            &&& action == DriverAction::Finish ==> after.progress.collective_rounds
                == d.progress.windows - start
            &&& d.progress.initial_loss != 0 ==> after.progress.initial_loss
                == d.progress.initial_loss
        }),
{
}

/// A driver begins where its state stands, with nothing counted yet.
pub proof fn law_driver_begins_at_the_state(
    state: V4IntegratedStateRecord,
    windows: u64,
    checkpoint_every: u64,
)
    ensures
        ({
            let p = first_progress(state, windows, checkpoint_every);
            &&& p.windows == windows && p.checkpoint_every == checkpoint_every
            &&& p.window == state.window && p.join_allowed_after_window == state.window
            &&& p.initial_loss == state.initial_loss_micros
            &&& p.current_loss == state.current_loss_micros
            &&& p.tensor_steps == 0 && p.pipeline_steps == 0 && p.collective_rounds == 0
            &&& p.checkpoint_generations == 0 && p.graph_reconfigurations == 0
            &&& p.coordinator_replacements == 0 && p.shard_recoveries == 0
            &&& p.tensor_recoveries == 0 && p.pipeline_recoveries == 0
            &&& p.optimizer_recoveries == 0 && p.checkpoint_recoveries == 0
            &&& p.max_update_fanin == 0 && !p.branch_reconciled && p.round_timeout_streak == 0
        }),
{
}

/// The result reports what the driver counted; the target is reached when the loss fell.
pub proof fn law_result_reports_the_counts(p: DriverProgress, graph: V4ExecutionGraphView)
    requires
        p.tensor_steps + p.pipeline_steps + p.collective_rounds <= u64::MAX,
    ensures
        ({
            let r = result_of(p, graph);
            &&& r.request_id == graph.job_id && r.job_id == graph.job_id
            &&& r.graph_generation == graph.graph_generation
            &&& r.windows_completed == p.window
            &&& r.initial_loss_micros == p.initial_loss && r.final_loss_micros == p.current_loss
            &&& r.tensor_steps == p.tensor_steps && r.pipeline_steps == p.pipeline_steps
            &&& r.collective_rounds == p.collective_rounds
            &&& r.checkpoint_generations == p.checkpoint_generations
            &&& r.graph_reconfigurations == p.graph_reconfigurations
            &&& r.coordinator_replacements == p.coordinator_replacements
            &&& r.shard_recoveries == p.shard_recoveries
            &&& r.tensor_recoveries == p.tensor_recoveries
            &&& r.pipeline_recoveries == p.pipeline_recoveries
            &&& r.optimizer_recoveries == p.optimizer_recoveries
            &&& r.checkpoint_recoveries == p.checkpoint_recoveries
            &&& r.max_update_fanin == p.max_update_fanin
            &&& r.target_reached <==> 0 < p.initial_loss && p.current_loss < p.initial_loss
            &&& r.branch_reconciled == p.branch_reconciled
            &&& r.phase is Committed
            &&& r.backend_tasks == p.tensor_steps + p.pipeline_steps + p.collective_rounds
            &&& r.backend_replans == p.graph_reconfigurations && r.backend_fallbacks == 0
            &&& r.backend_portable_checkpoint <==> p.checkpoint_generations > 0
            &&& !r.all_updates_to_one_coordinator && !r.single_optimizer_authority
            &&& !r.single_checkpoint_authority && !r.global_step_barrier
            &&& !r.model_must_fit_one_worker
        }),
{
}

/// Every reconfiguration is counted, and with it what it recovered: a lost member counts
/// for the shards and stages that it held, a failed round for its own part.
pub proof fn law_recoveries_are_counted(
    p: DriverProgress,
    graph: V4ExecutionGraphView,
    node: NodeId,
    cause: Cause,
)
    requires
        p.graph_reconfigurations < u64::MAX,
        p.shard_recoveries < u64::MAX,
        p.tensor_recoveries < u64::MAX,
        p.pipeline_recoveries < u64::MAX,
        p.optimizer_recoveries < u64::MAX,
        p.checkpoint_recoveries < u64::MAX,
        p.coordinator_replacements < u64::MAX,
        p.window < u64::MAX,
    ensures
        ({
            let c = counted(p, graph, node, cause);
            &&& c.graph_reconfigurations == p.graph_reconfigurations + 1
            &&& c.window == p.window && c.windows == p.windows
            &&& c.current_loss == p.current_loss && c.initial_loss == p.initial_loss
            &&& c.tensor_steps == p.tensor_steps && c.collective_rounds == p.collective_rounds
            &&& cause is Join ==> c.join_allowed_after_window == p.window + 1 && c.shard_recoveries
                == p.shard_recoveries && c.coordinator_replacements == p.coordinator_replacements
            &&& cause == (Cause::Lost { part: RoundPart::BeforeRound, was_coordinator: true })
                ==> c.coordinator_replacements == p.coordinator_replacements + 1
                && c.shard_recoveries == p.shard_recoveries + 1
            &&& cause == (Cause::Lost { part: RoundPart::BeforeRound, was_coordinator: false })
                ==> c.coordinator_replacements == p.coordinator_replacements && c.shard_recoveries
                == p.shard_recoveries + 1
            &&& cause is Lost && cause->Lost_part is BeforeRound && owns_a_shard(graph, node)
                ==> c.tensor_recoveries == p.tensor_recoveries + 1 && c.optimizer_recoveries
                == p.optimizer_recoveries + 1
            &&& cause is Lost && cause->Lost_part is BeforeRound && runs_a_stage(graph, node)
                ==> c.pipeline_recoveries == p.pipeline_recoveries + 1
            &&& cause == (Cause::Straggler { part: RoundPart::Tensor }) ==> c.tensor_recoveries
                == p.tensor_recoveries + 1 && c.optimizer_recoveries == p.optimizer_recoveries + 1
                && c.shard_recoveries == p.shard_recoveries + 1
            &&& cause == (Cause::Straggler { part: RoundPart::Pipeline }) ==> c.pipeline_recoveries
                == p.pipeline_recoveries + 1 && c.shard_recoveries == p.shard_recoveries + 1
                && c.tensor_recoveries == p.tensor_recoveries
            &&& cause is Lost && cause->Lost_part is Checkpoint ==> c.checkpoint_recoveries
                == p.checkpoint_recoveries + 1 && c.shard_recoveries == p.shard_recoveries
            &&& cause is Lost && cause->Lost_part is Tensor ==> c.tensor_recoveries
                == p.tensor_recoveries + 1
            &&& cause is Lost && cause->Lost_part is Pipeline ==> c.pipeline_recoveries
                == p.pipeline_recoveries + 1
        }),
        ({
            let s = settled(p, cause);
            &&& cause is Straggler ==> s.branch_reconciled && s.round_timeout_streak == 0
            &&& cause is Lost && cause->Lost_part is BeforeRound ==> s.branch_reconciled
            &&& cause is Join ==> s == p
            &&& s.window == p.window && s.graph_reconfigurations == p.graph_reconfigurations
        }),
{
}

/// A window is done after its collective round: the window and the rounds count one more,
/// the state is at that window with the loss of the driver on the graph in force, and a
/// checkpoint follows at every interval and at the end.
pub proof fn law_window_is_done(d: Driver, node: NodeId, graph: V4ExecutionGraphView)
    requires
        d.awaiting is CollectiveRound,
        d.progress.window < u64::MAX,
        d.progress.collective_rounds < u64::MAX,
        d.progress.checkpoint_every > 0,
    ensures
        ({
            let (after, action) = driven(d, node, graph, DriverEvent::CollectiveRound(true));
            let window = d.progress.window + 1;
            &&& after.progress.window == window
            &&& after.progress.collective_rounds == d.progress.collective_rounds + 1
            &&& after.progress.round_timeout_streak == 0
            &&& after.state.window == window
            &&& after.state.current_loss_micros == d.progress.current_loss
            &&& d.progress.initial_loss != 0 ==> after.state.initial_loss_micros
                == d.progress.initial_loss
            &&& after.state.graph_generation == graph.graph_generation
            &&& after.state.plan_hash == graph.plan_hash && after.state.branch == graph.branch
            &&& after.state.coordinator == graph.coordinator
            &&& action is CommitCheckpoint <==> window % (d.progress.checkpoint_every as int) == 0
                || window == d.progress.windows
            &&& !(action is CommitCheckpoint) ==> action is Publish
        }),
        driven(d, node, graph, DriverEvent::CollectiveRound(false)).1 is FindUnavailable,
        driven(d, node, graph, DriverEvent::Failed).1 is Stop,
{
}

/// A tensor round brings its loss, the first one as the initial loss, and its steps; a
/// pipeline round counts one; a checkpoint brings its generation.
pub proof fn law_rounds_are_counted(
    d: Driver,
    node: NodeId,
    graph: V4ExecutionGraphView,
    outcome: TensorOutcome,
    generation: u64,
)
    requires
        d.progress.tensor_steps + outcome.steps <= u64::MAX,
        d.progress.pipeline_steps < u64::MAX,
        d.progress.checkpoint_generations < u64::MAX,
    ensures
        d.awaiting is TensorRound ==> ({
            let (after, action) = driven(d, node, graph, DriverEvent::TensorRound(Some(outcome)));
            &&& action is RunPipelineRound
            &&& after.progress.current_loss == outcome.loss
            &&& d.progress.initial_loss == 0 ==> after.progress.initial_loss == outcome.loss
            &&& d.progress.initial_loss != 0 ==> after.progress.initial_loss
                == d.progress.initial_loss
            &&& after.progress.tensor_steps == d.progress.tensor_steps + outcome.steps
            &&& after.progress.max_update_fanin >= 2
            &&& d.progress.max_update_fanin <= 2 ==> after.progress.max_update_fanin == 2
            &&& after.progress.window == d.progress.window
        }),
        d.awaiting is TensorRound ==> driven(d, node, graph, DriverEvent::TensorRound(None)).1
            is FindUnavailable,
        d.awaiting is PipelineRound ==> ({
            let (after, action) = driven(d, node, graph, DriverEvent::PipelineRound(true));
            action is RunCollectiveRound && after.progress.pipeline_steps
                == d.progress.pipeline_steps + 1 && after.progress.current_loss
                == d.progress.current_loss
        }),
        d.awaiting is PipelineRound ==> driven(d, node, graph, DriverEvent::PipelineRound(false)).1
            is FindUnavailable,
        d.awaiting is Checkpoint ==> ({
            let (after, action) = driven(
                d,
                node,
                graph,
                DriverEvent::Checkpoint(Some(generation)),
            );
            action is Publish && after.state.checkpoint_generation == generation
                && after.progress.checkpoint_generations == d.progress.checkpoint_generations + 1
        }),
{
}

/// A member that is gone, or slow twice in a row, is removed only after a quorum check; a
/// newcomer is looked for only when the driver admits one; after the last window the
/// state is published as committed and the driver is done.
pub proof fn law_driver_decides(
    d: Driver,
    node: NodeId,
    graph: V4ExecutionGraphView,
    member: NodeId,
    part: RoundPart,
    hash: ArtifactId,
)
    ensures
        d.awaiting is GraphCheck ==> {
            &&& driven(d, node, graph, DriverEvent::GraphInForce(false)).1 is Fenced
            &&& driven(d, node, graph, DriverEvent::GraphInForce(true)).1 is FindNewcomer <==> (
            d.progress.window >= d.progress.join_allowed_after_window && !(d.progress.window == 0
                && graph.shards.len() == 4 && graph.checkpoint_generation <= 1))
        },
        d.awaiting is Newcomer ==> driven(
            d,
            node,
            graph,
            DriverEvent::Newcomer(Some(member)),
        ).1 == DriverAction::Admit(member),
        d.awaiting == (Awaiting::Loss { part }) ==> driven(
            d,
            node,
            graph,
            DriverEvent::Unavailable(Some(member)),
        ).1 == DriverAction::CheckQuorum(member),
        d.awaiting == (Awaiting::Quorum { part, failed: member }) ==> {
            &&& driven(d, node, graph, DriverEvent::Quorum(true)).1 == DriverAction::Remove(member)
            &&& driven(d, node, graph, DriverEvent::Quorum(false)).1 is Pause
            &&& driven(d, node, graph, DriverEvent::Quorum(true)).0.awaiting == (
            Awaiting::Reconfiguration {
                cause: Cause::Lost { part, was_coordinator: member == graph.coordinator },
            })
        },
        d.awaiting == (Awaiting::Loss { part }) && (part is Tensor || part is Pipeline || part
            is Collective) ==> {
            &&& d.progress.round_timeout_streak >= 1 ==> driven(
                d,
                node,
                graph,
                DriverEvent::Unavailable(None),
            ).1 is FindStraggler
            &&& d.progress.round_timeout_streak == 0 ==> driven(
                d,
                node,
                graph,
                DriverEvent::Unavailable(None),
            ).1 is ProbeAndPause
        },
        d.awaiting is FinalPublication ==> driven(d, node, graph, DriverEvent::Published(hash)).1
            is Finish,
        d.awaiting is Publication && d.progress.window >= d.progress.windows ==> driven(
            d,
            node,
            graph,
            DriverEvent::Published(hash),
        ).0.state.phase is Committed,
        d.awaiting is Publication && d.progress.window < d.progress.windows ==> driven(
            d,
            node,
            graph,
            DriverEvent::Published(hash),
        ).1 is CheckGraph,
{
}

} // verus!
