//! A pipeline round of the coordinator: its microbatches go forward through
//! both stages, and once all have come back, their gradients go the other way.

use crate::base::arith::sat_i64;
use crate::base::ids::{JobId, NodeId};
use crate::frontier::authority::{has_stages, staged};
use crate::frontier::dataplane::{
    V4PipelineBackward, V4PipelineBackwardView, V4PipelineForward, V4PipelineForwardView,
};
use crate::frontier::pipeline::{backward_authorized, forward_authorized};
use crate::frontier::types::{
    V4ExecutionGraph, V4ExecutionGraphView, V4TrainingPlan, V4TrainingPlanView,
};
use crate::frontier::waiting::NumberSet;
use vstd::prelude::*;

verus! {

/// The microbatches of a round.
pub const ROUND_MICROBATCHES: u32 = 2;

/// The time that a round gives each step.
pub const ROUND_DEADLINE_MS: u64 = 8_000;

/// The activation with which a window begins.
pub open spec fn window_activation(window: u64) -> Seq<i64> {
    seq![
        sat_i64(
            1 + if window <= i64::MAX {
                window as int
            } else {
                i64::MAX as int
            },
        ) as i64,
        2i64,
    ]
}

/// The gradient with which every way back begins.
pub open spec fn round_gradient() -> Seq<i64> {
    seq![1i64, 1i64]
}

/// What a microbatch carries into the entry stage.
pub open spec fn first_values(window: u64, forward: bool) -> Seq<i64> {
    if forward {
        window_activation(window)
    } else {
        round_gradient()
    }
}

fn values_at_entry(window: u64, forward: bool) -> (r: Vec<i64>)
    ensures
        r@ == first_values(window, forward),
{
    let first: i64 = if !forward {
        1
    } else if window < i64::MAX as u64 {
        window as i64 + 1
    } else {
        i64::MAX
    };
    let second: i64 = if forward {
        2
    } else {
        1
    };
    let r: Vec<i64> = vec![first, second];
    assert(r@ =~= first_values(window, forward));
    r
}

/// Where a round stands. `forward` tells the way of its microbatches.
#[derive(Clone, Copy, Debug, PartialEq, Eq, Structural)]
pub enum PipelineStep {
    /// The entry stage runs on this node.
    Entry { forward: bool, microbatch: u32 },
    /// The other stage runs on this node, too.
    Exit { forward: bool, microbatch: u32 },
    /// A microbatch is on its way to another node.
    Sending { forward: bool, microbatch: u32 },
    /// The microbatches have to come back.
    Results { forward: bool },
    Over,
}

/// A running pipeline round.
#[derive(Debug)]
pub struct PipelineRound {
    pub request_id: JobId,
    pub job_id: JobId,
    pub plan_generation: u64,
    /// The coordinator, to which the results go.
    pub node: NodeId,
    /// The worker of the first stage, and of the second.
    pub first: NodeId,
    pub second: NodeId,
    pub window: u64,
    /// The microbatches that have not come back.
    pub pending: NumberSet,
    pub step: PipelineStep,
}

/// The contents of a [`PipelineRound`].
#[verifier::ext_equal]
pub struct PipelineRoundView {
    pub request_id: JobId,
    pub job_id: JobId,
    pub plan_generation: u64,
    pub node: NodeId,
    pub first: NodeId,
    pub second: NodeId,
    pub window: u64,
    pub pending: Set<u32>,
    pub step: PipelineStep,
}

impl View for PipelineRound {
    type V = PipelineRoundView;

    open spec fn view(&self) -> PipelineRoundView {
        PipelineRoundView {
            request_id: self.request_id,
            job_id: self.job_id,
            plan_generation: self.plan_generation,
            node: self.node,
            first: self.first,
            second: self.second,
            window: self.window,
            pending: self.pending@,
            step: self.step,
        }
    }
}

/// What a round learns.
#[derive(Debug)]
pub enum PipelineEvent {
    /// The stage on this node came to these values.
    StageDone(Vec<i64>),
    StageFailed,
    Sent,
    NotSent,
    /// A microbatch came back.
    Result { forward: bool, request_id: JobId, plan_generation: u64, microbatch: u32 },
    OtherMessage,
    /// No message came in time, or none can come any more.
    NoMessage,
}

/// The contents of a [`PipelineEvent`].
pub enum PipelineEventView {
    StageDone(Seq<i64>),
    StageFailed,
    Sent,
    NotSent,
    Result { forward: bool, request_id: JobId, plan_generation: u64, microbatch: u32 },
    OtherMessage,
    NoMessage,
}

impl View for PipelineEvent {
    type V = PipelineEventView;

    open spec fn view(&self) -> PipelineEventView {
        match self {
            PipelineEvent::StageDone(values) => PipelineEventView::StageDone(values@),
            PipelineEvent::StageFailed => PipelineEventView::StageFailed,
            PipelineEvent::Sent => PipelineEventView::Sent,
            PipelineEvent::NotSent => PipelineEventView::NotSent,
            PipelineEvent::Result { forward, request_id, plan_generation, microbatch } =>
                PipelineEventView::Result {
                forward: *forward,
                request_id: *request_id,
                plan_generation: *plan_generation,
                microbatch: *microbatch,
            },
            PipelineEvent::OtherMessage => PipelineEventView::OtherMessage,
            PipelineEvent::NoMessage => PipelineEventView::NoMessage,
        }
    }
}

/// Why a round failed.
#[derive(Clone, Copy, Debug, PartialEq, Eq, Structural)]
pub enum PipelineRoundError {
    /// A stage on this node failed.
    Stage,
    /// The worker of a stage could not be reached.
    Unavailable,
    /// A microbatch did not come back.
    NoResult,
}

/// What a round does next.
#[derive(Debug, PartialEq, Eq)]
pub enum PipelineAction {
    /// Run a stage on this node.
    RunStage { stage_id: u16, values: Vec<i64>, forward: bool },
    SendForward(NodeId, V4PipelineForward),
    SendBackward(NodeId, V4PipelineBackward),
    /// Wait for a message.
    Wait,
    Done,
    Fail(PipelineRoundError),
    /// The event was not awaited.
    Ignore,
}

/// The contents of a [`PipelineAction`].
pub enum PipelineActionView {
    RunStage { stage_id: u16, values: Seq<i64>, forward: bool },
    SendForward(NodeId, V4PipelineForwardView),
    SendBackward(NodeId, V4PipelineBackwardView),
    Wait,
    Done,
    Fail(PipelineRoundError),
    Ignore,
}

impl View for PipelineAction {
    type V = PipelineActionView;

    open spec fn view(&self) -> PipelineActionView {
        match self {
            PipelineAction::RunStage { stage_id, values, forward } => PipelineActionView::RunStage {
                stage_id: *stage_id,
                values: values@,
                forward: *forward,
            },
            PipelineAction::SendForward(to, f) => PipelineActionView::SendForward(*to, f@),
            PipelineAction::SendBackward(to, b) => PipelineActionView::SendBackward(*to, b@),
            PipelineAction::Wait => PipelineActionView::Wait,
            PipelineAction::Done => PipelineActionView::Done,
            PipelineAction::Fail(error) => PipelineActionView::Fail(*error),
            PipelineAction::Ignore => PipelineActionView::Ignore,
        }
    }
}

/// The worker and the number of the stage that a microbatch enters.
pub open spec fn entry_of(r: PipelineRoundView, forward: bool) -> (NodeId, u16) {
    if forward {
        (r.first, 0)
    } else {
        (r.second, 1)
    }
}

/// The worker and the number of the stage that a microbatch leaves.
pub open spec fn exit_of(r: PipelineRoundView, forward: bool) -> (NodeId, u16) {
    entry_of(r, !forward)
}

/// A microbatch on its way to a stage.
pub open spec fn sent_to(
    r: PipelineRoundView,
    stage: (NodeId, u16),
    microbatch: u32,
    values: Seq<i64>,
    onward: Option<NodeId>,
    forward: bool,
) -> PipelineActionView {
    if forward {
        PipelineActionView::SendForward(
            stage.0,
            V4PipelineForwardView {
                request_id: r.request_id,
                job_id: r.job_id,
                plan_generation: r.plan_generation,
                stage_id: stage.1,
                stage_count: 2,
                microbatch,
                activation: values,
                next_stage: onward,
                reply_to: r.node,
                deadline_ms: ROUND_DEADLINE_MS,
            },
        )
    } else {
        PipelineActionView::SendBackward(
            stage.0,
            V4PipelineBackwardView {
                request_id: r.request_id,
                job_id: r.job_id,
                plan_generation: r.plan_generation,
                stage_id: stage.1,
                stage_count: 2,
                microbatch,
                gradient: values,
                previous_stage: onward,
                reply_to: r.node,
                deadline_ms: ROUND_DEADLINE_MS,
            },
        )
    }
}

/// A microbatch enters the pipeline: here, or at the worker of its entry stage,
/// which hands it on to the other.
pub open spec fn entered(r: PipelineRoundView, forward: bool, microbatch: u32) -> (
    PipelineRoundView,
    PipelineActionView,
) {
    let values = first_values(r.window, forward);
    let entry = entry_of(r, forward);
    if entry.0 == r.node {
        (
            PipelineRoundView { step: PipelineStep::Entry { forward, microbatch }, ..r },
            PipelineActionView::RunStage { stage_id: entry.1, values, forward },
        )
    } else {
        (
            PipelineRoundView { step: PipelineStep::Sending { forward, microbatch }, ..r },
            sent_to(r, entry, microbatch, values, Some(exit_of(r, forward).0), forward),
        )
    }
}

/// Nothing is left to send on this way: what is out has to come back; then the
/// gradients follow, or the round is over.
pub open spec fn all_out(r: PipelineRoundView, forward: bool) -> (
    PipelineRoundView,
    PipelineActionView,
) {
    if r.pending != Set::<u32>::empty() {
        (
            PipelineRoundView { step: PipelineStep::Results { forward }, ..r },
            PipelineActionView::Wait,
        )
    } else if forward {
        entered(r, false, 0)
    } else {
        (PipelineRoundView { step: PipelineStep::Over, ..r }, PipelineActionView::Done)
    }
}

/// The next microbatch, if there is one.
pub open spec fn after_microbatch(r: PipelineRoundView, forward: bool, microbatch: u32) -> (
    PipelineRoundView,
    PipelineActionView,
) {
    if microbatch + 1 < ROUND_MICROBATCHES {
        entered(r, forward, (microbatch + 1) as u32)
    } else {
        all_out(r, forward)
    }
}

/// A round that fails.
pub open spec fn failed_round(r: PipelineRoundView, error: PipelineRoundError) -> (
    PipelineRoundView,
    PipelineActionView,
) {
    (PipelineRoundView { step: PipelineStep::Over, ..r }, PipelineActionView::Fail(error))
}

/// The next step of a round.
pub open spec fn pipeline_stepped(r: PipelineRoundView, event: PipelineEventView) -> (
    PipelineRoundView,
    PipelineActionView,
) {
    match (r.step, event) {
        (PipelineStep::Entry { forward, microbatch }, PipelineEventView::StageDone(values)) => {
            let exit = exit_of(r, forward);
            if exit.0 == r.node {
                (
                    PipelineRoundView { step: PipelineStep::Exit { forward, microbatch }, ..r },
                    PipelineActionView::RunStage { stage_id: exit.1, values, forward },
                )
            } else {
                (
                    PipelineRoundView { step: PipelineStep::Sending { forward, microbatch }, ..r },
                    sent_to(r, exit, microbatch, values, None, forward),
                )
            }
        },
        (PipelineStep::Exit { forward, microbatch }, PipelineEventView::StageDone(_)) =>
            after_microbatch(r, forward, microbatch),
        (PipelineStep::Entry { .. }, PipelineEventView::StageFailed)
        | (PipelineStep::Exit { .. }, PipelineEventView::StageFailed) => failed_round(
            r,
            PipelineRoundError::Stage,
        ),
        (PipelineStep::Sending { forward, microbatch }, PipelineEventView::Sent) =>
            after_microbatch(
            PipelineRoundView { pending: r.pending.insert(microbatch), ..r },
            forward,
            microbatch,
        ),
        (PipelineStep::Sending { .. }, PipelineEventView::NotSent) => failed_round(
            r,
            PipelineRoundError::Unavailable,
        ),
        (
            PipelineStep::Results { forward },
            PipelineEventView::Result { forward: way, request_id, plan_generation, microbatch },
        ) => if way == forward && request_id == r.request_id && plan_generation
            == r.plan_generation {
            all_out(PipelineRoundView { pending: r.pending.remove(microbatch), ..r }, forward)
        } else {
            (r, PipelineActionView::Wait)
        },
        (PipelineStep::Results { .. }, PipelineEventView::OtherMessage) => (
            r,
            PipelineActionView::Wait,
        ),
        (PipelineStep::Results { .. }, PipelineEventView::NoMessage) => failed_round(
            r,
            PipelineRoundError::NoResult,
        ),
        _ => (r, PipelineActionView::Ignore),
    }
}

fn send_to(
    round: &PipelineRound,
    stage: (NodeId, u16),
    microbatch: u32,
    values: Vec<i64>,
    onward: Option<NodeId>,
    forward: bool,
) -> (r: PipelineAction)
    ensures
        r@ == sent_to(round@, stage, microbatch, values@, onward, forward),
{
    if forward {
        PipelineAction::SendForward(
            stage.0,
            V4PipelineForward {
                request_id: round.request_id,
                job_id: round.job_id,
                plan_generation: round.plan_generation,
                stage_id: stage.1,
                stage_count: 2,
                microbatch,
                activation: values,
                next_stage: onward,
                reply_to: round.node,
                deadline_ms: ROUND_DEADLINE_MS,
            },
        )
    } else {
        PipelineAction::SendBackward(
            stage.0,
            V4PipelineBackward {
                request_id: round.request_id,
                job_id: round.job_id,
                plan_generation: round.plan_generation,
                stage_id: stage.1,
                stage_count: 2,
                microbatch,
                gradient: values,
                previous_stage: onward,
                reply_to: round.node,
                deadline_ms: ROUND_DEADLINE_MS,
            },
        )
    }
}

fn entry_stage(round: &PipelineRound, forward: bool) -> (r: (NodeId, u16))
    ensures
        r == entry_of(round@, forward),
{
    if forward {
        (round.first, 0)
    } else {
        (round.second, 1)
    }
}

fn enter(round: &mut PipelineRound, forward: bool, microbatch: u32) -> (r: PipelineAction)
    ensures
        (final(round)@, r@) == entered(old(round)@, forward, microbatch),
{
    let values = values_at_entry(round.window, forward);
    let entry = entry_stage(round, forward);
    if entry.0 == round.node {
        round.step = PipelineStep::Entry { forward, microbatch };
        PipelineAction::RunStage { stage_id: entry.1, values, forward }
    } else {
        let exit = entry_stage(round, !forward);
        round.step = PipelineStep::Sending { forward, microbatch };
        send_to(round, entry, microbatch, values, Some(exit.0), forward)
    }
}

fn finish_way(round: &mut PipelineRound, forward: bool) -> (r: PipelineAction)
    ensures
        (final(round)@, r@) == all_out(old(round)@, forward),
{
    if !round.pending.is_empty() {
        round.step = PipelineStep::Results { forward };
        PipelineAction::Wait
    } else if forward {
        enter(round, false, 0)
    } else {
        round.step = PipelineStep::Over;
        PipelineAction::Done
    }
}

fn next_microbatch(round: &mut PipelineRound, forward: bool, microbatch: u32) -> (r: PipelineAction)
    ensures
        (final(round)@, r@) == after_microbatch(old(round)@, forward, microbatch),
{
    if microbatch < ROUND_MICROBATCHES - 1 {
        enter(round, forward, microbatch + 1)
    } else {
        finish_way(round, forward)
    }
}

fn fail_round(round: &mut PipelineRound, error: PipelineRoundError) -> (r: PipelineAction)
    ensures
        (final(round)@, r@) == failed_round(old(round)@, error),
{
    round.step = PipelineStep::Over;
    PipelineAction::Fail(error)
}

/// The round before its first microbatch.
pub open spec fn fresh_round(
    graph: V4ExecutionGraphView,
    plan: V4TrainingPlanView,
    node: NodeId,
    request_id: JobId,
    window: u64,
) -> PipelineRoundView {
    PipelineRoundView {
        request_id,
        job_id: graph.job_id,
        plan_generation: plan.plan_generation,
        node,
        first: graph.pipeline_stages[0].worker,
        second: graph.pipeline_stages[1].worker,
        window,
        pending: Set::empty(),
        step: PipelineStep::Over,
    }
}

/// Begin a round with its first microbatch, where the graph has two stages.
pub fn begin_pipeline_round(
    graph: &V4ExecutionGraph,
    plan: &V4TrainingPlan,
    node: NodeId,
    request_id: JobId,
    window: u64,
) -> (r: Option<(PipelineRound, PipelineAction)>)
    ensures
        match r {
            None => graph@.pipeline_stages.len() != 2,
            Some((round, action)) => graph@.pipeline_stages.len() == 2 && (round@, action@)
                == entered(fresh_round(graph@, plan@, node, request_id, window), true, 0),
        },
{
    if graph.pipeline_stages.len() != 2 {
        return None;
    }
    proof {
        assert(graph@.pipeline_stages[0] == graph.pipeline_stages@[0]@);
        assert(graph@.pipeline_stages[1] == graph.pipeline_stages@[1]@);
    }
    let mut round = PipelineRound {
        request_id,
        job_id: graph.job_id,
        plan_generation: plan.plan_generation,
        node,
        first: graph.pipeline_stages[0].worker,
        second: graph.pipeline_stages[1].worker,
        window,
        pending: NumberSet::new(),
        step: PipelineStep::Over,
    };
    assert(round@ =~= fresh_round(graph@, plan@, node, request_id, window));
    let action = enter(&mut round, true, 0);
    Some((round, action))
}

/// Take a round one step on.
pub fn pipeline_training_round(round: &mut PipelineRound, event: PipelineEvent) -> (r: PipelineAction)
    ensures
        (final(round)@, r@) == pipeline_stepped(old(round)@, event@),
{
    match (round.step, event) {
        (PipelineStep::Entry { forward, microbatch }, PipelineEvent::StageDone(values)) => {
            let exit = entry_stage(round, !forward);
            if exit.0 == round.node {
                round.step = PipelineStep::Exit { forward, microbatch };
                PipelineAction::RunStage { stage_id: exit.1, values, forward }
            } else {
                round.step = PipelineStep::Sending { forward, microbatch };
                send_to(round, exit, microbatch, values, None, forward)
            }
        },
        (PipelineStep::Exit { forward, microbatch }, PipelineEvent::StageDone(_)) => {
            next_microbatch(round, forward, microbatch)
        },
        (PipelineStep::Entry { .. }, PipelineEvent::StageFailed)
        | (PipelineStep::Exit { .. }, PipelineEvent::StageFailed) => {
            fail_round(round, PipelineRoundError::Stage)
        },
        (PipelineStep::Sending { forward, microbatch }, PipelineEvent::Sent) => {
            round.pending.insert(microbatch);
            next_microbatch(round, forward, microbatch)
        },
        (PipelineStep::Sending { .. }, PipelineEvent::NotSent) => {
            fail_round(round, PipelineRoundError::Unavailable)
        },
        (
            PipelineStep::Results { forward },
            PipelineEvent::Result { forward: way, request_id, plan_generation, microbatch },
        ) => {
            if way == forward && request_id == round.request_id && plan_generation
                == round.plan_generation {
                round.pending.remove(microbatch);
                finish_way(round, forward)
            } else {
                PipelineAction::Wait
            }
        },
        (PipelineStep::Results { .. }, PipelineEvent::OtherMessage) => PipelineAction::Wait,
        (PipelineStep::Results { .. }, PipelineEvent::NoMessage) => {
            fail_round(round, PipelineRoundError::NoResult)
        },
        _ => PipelineAction::Ignore,
    }
}

/// The round still sends activations, or waits for them.
pub open spec fn goes_forward(step: PipelineStep) -> bool {
    match step {
        PipelineStep::Entry { forward, .. } => forward,
        PipelineStep::Exit { forward, .. } => forward,
        PipelineStep::Sending { forward, .. } => forward,
        PipelineStep::Results { forward } => forward,
        PipelineStep::Over => false,
    }
}

/// The round sends gradients, or waits for them.
pub open spec fn goes_back(step: PipelineStep) -> bool {
    step != PipelineStep::Over && !goes_forward(step)
}

/// No gradient sets out before every activation that was sent has come back,
/// and the round ends only once every gradient has.
pub proof fn law_gradients_follow_activations(r: PipelineRoundView, event: PipelineEventView)
    ensures
        goes_forward(r.step) && goes_back(pipeline_stepped(r, event).0.step) ==> pipeline_stepped(
            r,
            event,
        ).0.pending == Set::<u32>::empty(),
        pipeline_stepped(r, event).1 == PipelineActionView::Done ==> goes_back(r.step)
            && pipeline_stepped(r, event).0.pending == Set::<u32>::empty(),
{
}

/// Every step that a round of the coordinator sends out is accepted by the
/// worker that it goes to, wherever the graph and the plan are in force.
pub proof fn law_round_steps_are_accepted(
    graph: V4ExecutionGraphView,
    plan: V4TrainingPlanView,
    r: PipelineRoundView,
    event: PipelineEventView,
)
    requires
        graph.pipeline_stages.len() == 2,
        graph.pipeline_stages[0].stage_id == 0,
        graph.pipeline_stages[1].stage_id == 1,
        plan.workers.contains(graph.pipeline_stages[0].worker),
        plan.workers.contains(graph.pipeline_stages[1].worker),
        has_stages(plan.strategy),
        plan.pipeline_stages == 2,
        r.node == graph.coordinator,
        r.first == graph.pipeline_stages[0].worker,
        r.second == graph.pipeline_stages[1].worker,
        r.step matches PipelineStep::Entry { forward, .. } ==> entry_of(r, forward).0 == r.node,
    ensures
        pipeline_stepped(r, event).1 matches PipelineActionView::SendForward(to, f)
            ==> forward_authorized(Some(graph), plan, to, r.node, f),
        pipeline_stepped(r, event).1 matches PipelineActionView::SendBackward(to, b)
            ==> backward_authorized(Some(graph), plan, to, r.node, b),
        pipeline_stepped(r, event).0.step matches PipelineStep::Entry { forward, .. } ==> entry_of(
            r,
            forward,
        ).0 == r.node,
{
    let s = graph.pipeline_stages;
    crate::base::search::lemma_find_at(s, staged(0), 0);
    crate::base::search::lemma_find_at(s, staged(1), 1);
}

/// The microbatches before `count` are out on their way, or through it.
pub open spec fn on_the_way(r: PipelineRoundView, through: Set<u32>, count: int) -> bool {
    forall|k: u32| k < count ==> r.pending.contains(k) || #[trigger] through.contains(k)
}

/// Every microbatch of a round is in the set.
pub open spec fn every_microbatch(set: Set<u32>) -> bool {
    forall|k: u32| k < ROUND_MICROBATCHES ==> #[trigger] set.contains(k)
}

/// The microbatches that are through one of the two ways, after an event: a stage on
/// this node let it out, or its result came back.
pub open spec fn through_after(
    r: PipelineRoundView,
    event: PipelineEventView,
    forward: bool,
    through: Set<u32>,
) -> Set<u32> {
    match (r.step, event) {
        (PipelineStep::Exit { forward: way, microbatch }, PipelineEventView::StageDone(_)) => if way
            == forward {
            through.insert(microbatch)
        } else {
            through
        },
        (
            PipelineStep::Results { forward: way },
            PipelineEventView::Result { forward: came, request_id, plan_generation, microbatch },
        ) => if way == forward && came == way && request_id == r.request_id && plan_generation
            == r.plan_generation {
            through.insert(microbatch)
        } else {
            through
        },
        _ => through,
    }
}

/// What holds of a round: on the way that it goes, every microbatch before the one at
/// hand is out or through, and on the way back all are through the way there.
pub open spec fn pipeline_inv(r: PipelineRoundView, there: Set<u32>, back: Set<u32>) -> bool {
    match r.step {
        PipelineStep::Entry { forward, microbatch }
        | PipelineStep::Exit { forward, microbatch }
        | PipelineStep::Sending { forward, microbatch } => {
            &&& microbatch < ROUND_MICROBATCHES
            &&& forward ==> on_the_way(r, there, microbatch as int)
            &&& !forward ==> every_microbatch(there) && on_the_way(r, back, microbatch as int)
        },
        PipelineStep::Results { forward } => {
            &&& forward ==> on_the_way(r, there, ROUND_MICROBATCHES as int)
            &&& !forward ==> every_microbatch(there) && on_the_way(
                r,
                back,
                ROUND_MICROBATCHES as int,
            )
        },
        PipelineStep::Over => true,
    }
}

proof fn lemma_all_out_inv(r: PipelineRoundView, forward: bool, there: Set<u32>, back: Set<u32>)
    requires
        forward ==> on_the_way(r, there, ROUND_MICROBATCHES as int),
        !forward ==> every_microbatch(there) && on_the_way(r, back, ROUND_MICROBATCHES as int),
    ensures
        pipeline_inv(all_out(r, forward).0, there, back),
        all_out(r, forward).1 == PipelineActionView::Done ==> every_microbatch(there)
            && every_microbatch(back),
{
    if r.pending == Set::<u32>::empty() {
        if forward {
            assert(every_microbatch(there));
            assert(on_the_way(r, back, 0));
        } else {
            assert(every_microbatch(back));
        }
    }
}

proof fn lemma_after_microbatch_inv(
    r: PipelineRoundView,
    forward: bool,
    microbatch: u32,
    there: Set<u32>,
    back: Set<u32>,
)
    requires
        microbatch < ROUND_MICROBATCHES,
        forward ==> on_the_way(r, there, microbatch + 1),
        !forward ==> every_microbatch(there) && on_the_way(r, back, microbatch + 1),
    ensures
        pipeline_inv(after_microbatch(r, forward, microbatch).0, there, back),
        after_microbatch(r, forward, microbatch).1 == PipelineActionView::Done
            ==> every_microbatch(there) && every_microbatch(back),
{
    if microbatch + 1 >= ROUND_MICROBATCHES {
        lemma_all_out_inv(r, forward, there, back);
    }
}

/// A round ends well only when every microbatch has gone through both stages forward
/// and then back. This holds over the whole round, from its first microbatch on.
pub proof fn law_every_microbatch_goes_both_ways(
    graph: V4ExecutionGraphView,
    plan: V4TrainingPlanView,
    node: NodeId,
    request_id: JobId,
    window: u64,
    r: PipelineRoundView,
    event: PipelineEventView,
    there: Set<u32>,
    back: Set<u32>,
)
    requires
        pipeline_inv(r, there, back),
    ensures
        pipeline_inv(
            entered(fresh_round(graph, plan, node, request_id, window), true, 0).0,
            Set::empty(),
            Set::empty(),
        ),
        ({
            let (after, action) = pipeline_stepped(r, event);
            let there_now = through_after(r, event, true, there);
            let back_now = through_after(r, event, false, back);
            &&& pipeline_inv(after, there_now, back_now)
            &&& action == PipelineActionView::Done ==> every_microbatch(there_now)
                && every_microbatch(back_now)
        }),
{
    let there_now = through_after(r, event, true, there);
    let back_now = through_after(r, event, false, back);
    match (r.step, event) {
        (PipelineStep::Exit { forward, microbatch }, PipelineEventView::StageDone(_)) => {
            assert(forward ==> on_the_way(r, there_now, microbatch + 1));
            assert(!forward ==> on_the_way(r, back_now, microbatch + 1));
            lemma_after_microbatch_inv(r, forward, microbatch, there_now, back_now);
        },
        (PipelineStep::Sending { forward, microbatch }, PipelineEventView::Sent) => {
            let next = PipelineRoundView { pending: r.pending.insert(microbatch), ..r };
            assert(forward ==> on_the_way(next, there, microbatch + 1));
            assert(!forward ==> on_the_way(next, back, microbatch + 1));
            lemma_after_microbatch_inv(next, forward, microbatch, there, back);
        },
        (
            PipelineStep::Results { forward },
            PipelineEventView::Result { forward: way, request_id, plan_generation, microbatch },
        ) => {
            if way == forward && request_id == r.request_id && plan_generation
                == r.plan_generation {
                let next = PipelineRoundView { pending: r.pending.remove(microbatch), ..r };
                assert(forward ==> on_the_way(next, there_now, ROUND_MICROBATCHES as int));
                assert(!forward ==> on_the_way(next, back_now, ROUND_MICROBATCHES as int));
                lemma_all_out_inv(next, forward, there_now, back_now);
            }
        },
        (PipelineStep::Entry { forward, microbatch }, PipelineEventView::StageDone(_)) => {
            let next = pipeline_stepped(r, event).0;
            assert(forward ==> on_the_way(next, there, microbatch as int));
            assert(!forward ==> on_the_way(next, back, microbatch as int));
        },
        _ => {},
    }
}

/// A window begins with one more than its number and with two, and the way back with
/// ones; the way there enters at the first stage and leaves at the second, the way back
/// the other way round.
pub proof fn law_what_enters_a_round(r: PipelineRoundView, window: u64)
    requires
        window < i64::MAX,
    ensures
        window_activation(window).len() == 2,
        window_activation(window)[0] == window + 1,
        window_activation(window)[1] == 2,
        round_gradient().len() == 2,
        round_gradient()[0] == 1 && round_gradient()[1] == 1,
        first_values(window, true) == window_activation(window),
        first_values(window, false) == round_gradient(),
        entry_of(r, true) == (r.first, 0u16),
        exit_of(r, true) == (r.second, 1u16),
        entry_of(r, false) == (r.second, 1u16),
        exit_of(r, false) == (r.first, 0u16),
{
}

/// What is sent to a stage names the request, the plan, the stage of two, the microbatch
/// and who hears of the result.
pub proof fn law_microbatch_is_sent_to_its_stage(
    r: PipelineRoundView,
    stage: (NodeId, u16),
    microbatch: u32,
    values: Seq<i64>,
    onward: Option<NodeId>,
)
    ensures
        ({
            let a = sent_to(r, stage, microbatch, values, onward, true);
            &&& a is SendForward && a->SendForward_0 == stage.0
            &&& ({
                let m = a->SendForward_1;
                &&& m.request_id == r.request_id && m.job_id == r.job_id
                &&& m.plan_generation == r.plan_generation && m.reply_to == r.node
                &&& m.stage_id == stage.1 && m.stage_count == 2 && m.microbatch == microbatch
                &&& m.activation == values && m.next_stage == onward && m.deadline_ms == 8_000
            })
        }),
        ({
            let a = sent_to(r, stage, microbatch, values, onward, false);
            &&& a is SendBackward && a->SendBackward_0 == stage.0
            &&& ({
                let m = a->SendBackward_1;
                &&& m.request_id == r.request_id && m.job_id == r.job_id
                &&& m.plan_generation == r.plan_generation && m.reply_to == r.node
                &&& m.stage_id == stage.1 && m.stage_count == 2 && m.microbatch == microbatch
                &&& m.gradient == values && m.previous_stage == onward && m.deadline_ms == 8_000
            })
        }),
{
}

/// A round runs on the first two stages of its graph.
pub proof fn law_round_is_of_the_graph(
    graph: V4ExecutionGraphView,
    plan: V4TrainingPlanView,
    node: NodeId,
    request_id: JobId,
    window: u64,
)
    ensures
        ({
            let r = fresh_round(graph, plan, node, request_id, window);
            &&& r.request_id == request_id && r.job_id == graph.job_id
            &&& r.plan_generation == plan.plan_generation && r.node == node && r.window == window
            &&& r.first == graph.pipeline_stages[0].worker
            &&& r.second == graph.pipeline_stages[1].worker
            &&& r.pending == Set::<u32>::empty()
        }),
{
}

/// What the entry stage gave goes on to the exit stage with its values; a result settles
/// its own microbatch, and only one of this request, plan and direction; a stage that
/// fails, a stage out of reach and silence end the round.
pub proof fn law_round_hands_values_on(
    r: PipelineRoundView,
    forward: bool,
    microbatch: u32,
    values: Seq<i64>,
    way: bool,
    request_id: JobId,
    plan_generation: u64,
)
    ensures
        r.step == (PipelineStep::Entry { forward, microbatch }) ==> ({
            let (after, action) = pipeline_stepped(r, PipelineEventView::StageDone(values));
            let exit = if forward {
                (r.second, 1u16)
            } else {
                (r.first, 0u16)
            };
            &&& exit.0 == r.node ==> action == (PipelineActionView::RunStage {
                stage_id: exit.1,
                values,
                forward,
            })
            &&& exit.0 != r.node && forward ==> action is SendForward && action->SendForward_0
                == exit.0 && action->SendForward_1.activation == values
                && action->SendForward_1.next_stage is None
            &&& exit.0 != r.node && !forward ==> action is SendBackward && action->SendBackward_0
                == exit.0 && action->SendBackward_1.gradient == values
                && action->SendBackward_1.previous_stage is None
        }),
        r.step == (PipelineStep::Results { forward }) && !(way == forward && request_id
            == r.request_id && plan_generation == r.plan_generation) ==> pipeline_stepped(
            r,
            PipelineEventView::Result { forward: way, request_id, plan_generation, microbatch },
        ) == (r, PipelineActionView::Wait),
        r.step == (PipelineStep::Results { forward }) && way == forward && request_id
            == r.request_id && plan_generation == r.plan_generation && !(r.pending.remove(
            microbatch,
        ) =~= Set::<u32>::empty()) ==> ({
            let (after, action) = pipeline_stepped(
                r,
                PipelineEventView::Result { forward: way, request_id, plan_generation, microbatch },
            );
            after.pending == r.pending.remove(microbatch) && action is Wait
        }),
        r.step is Entry || r.step is Exit ==> pipeline_stepped(r, PipelineEventView::StageFailed).1
            == PipelineActionView::Fail(PipelineRoundError::Stage),
        r.step is Sending ==> pipeline_stepped(r, PipelineEventView::NotSent).1
            == PipelineActionView::Fail(PipelineRoundError::Unavailable),
        r.step is Results ==> pipeline_stepped(r, PipelineEventView::NoMessage).1
            == PipelineActionView::Fail(PipelineRoundError::NoResult),
        r.step is Results && !r.step->Results_forward ==> pipeline_stepped(
            PipelineRoundView { pending: Set::empty().insert(microbatch), ..r },
            PipelineEventView::Result {
                forward: false,
                request_id: r.request_id,
                plan_generation: r.plan_generation,
                microbatch,
            },
        ).1 is Done,
{
    assert(Set::<u32>::empty().insert(microbatch).remove(microbatch) =~= Set::<u32>::empty());
}

} // verus!
