//! A tensor round of the coordinator: every shard is asked for its output, and
//! once all have answered, every shard learns from its errors.

use crate::base::arith::min_int;
use crate::base::ids::{ArtifactId, JobId, NodeId};
use crate::base::ordered::OrdMap;
use crate::frontier::dataplane::{
    V4TensorBackward, V4TensorBackwardResult, V4TensorBackwardResultView, V4TensorBackwardView,
    V4TensorForward, V4TensorForwardResult, V4TensorForwardResultView, V4TensorForwardView,
};
use crate::frontier::membership::all_owned;
use crate::frontier::tensor::sequence_of;
use crate::frontier::tensor_round::{
    all_present, awaited_by, backward_question, backward_request, begin_tensor_round, error_table,
    errors_fit, forward_question, forward_request, lemma_total_grows, local_backward_done, local_output,
    note_backward_result, note_forward_result, owner_asked, owners_answered, tensor_errors,
    total_squares, with_hashes, TensorRound, TensorRoundView, SQUARES_LIMIT,
};
use crate::frontier::types::{
    V4ExecutionGraph, V4ExecutionGraphView, V4TrainingPlan, V4TrainingPlanView,
};
use vstd::prelude::*;

verus! {

/// Where a round stands; `index` is the place of a shard in the graph.
#[derive(Clone, Copy, Debug, PartialEq, Eq, Structural)]
pub enum TensorStep {
    /// A shard on this node computes its output.
    Forward { index: usize },
    /// An owner is asked for the output of its shard.
    AskingForward { index: usize },
    /// The outputs have to arrive.
    Outputs,
    /// A shard on this node learns.
    Backward { index: usize },
    /// An owner is sent the errors of its shard.
    AskingBackward { index: usize },
    /// The hashes of the shards have to arrive.
    Hashes,
    Over,
}

/// A tensor round under way.
#[derive(Debug)]
pub struct TensorPasses {
    pub round: TensorRound,
    pub step: TensorStep,
    /// The errors to learn from, once all outputs are there.
    pub errors: OrdMap<Vec<i64>>,
    pub loss: i64,
}

/// The contents of a [`TensorPasses`].
#[verifier::ext_equal]
pub struct TensorPassesView {
    pub round: TensorRoundView,
    pub step: TensorStep,
    pub errors: Map<u16, Seq<i64>>,
    pub loss: i64,
}

impl View for TensorPasses {
    type V = TensorPassesView;

    open spec fn view(&self) -> TensorPassesView {
        TensorPassesView {
            round: self.round@,
            step: self.step,
            errors: self.errors@,
            loss: self.loss,
        }
    }
}

/// What a round learns.
#[derive(Debug)]
pub enum TensorEvent {
    /// The output of the shard on this node.
    Output(Vec<i64>),
    /// The shard on this node has learnt: its hash, and that of its optimizer
    /// state.
    Learnt(ArtifactId, Option<ArtifactId>),
    /// The pass of the shard on this node failed.
    PassFailed,
    Sent,
    NotSent,
    ForwardResult(V4TensorForwardResult),
    BackwardResult(V4TensorBackwardResult),
    OtherMessage,
    /// No message came in time, or none can come any more.
    NoMessage,
}

/// The contents of a [`TensorEvent`].
pub enum TensorEventView {
    Output(Seq<i64>),
    Learnt(ArtifactId, Option<ArtifactId>),
    PassFailed,
    Sent,
    NotSent,
    ForwardResult(V4TensorForwardResultView),
    BackwardResult(V4TensorBackwardResultView),
    OtherMessage,
    NoMessage,
}

impl View for TensorEvent {
    type V = TensorEventView;

    open spec fn view(&self) -> TensorEventView {
        match self {
            TensorEvent::Output(output) => TensorEventView::Output(output@),
            TensorEvent::Learnt(state_hash, optimizer_hash) => TensorEventView::Learnt(
                *state_hash,
                *optimizer_hash,
            ),
            TensorEvent::PassFailed => TensorEventView::PassFailed,
            TensorEvent::Sent => TensorEventView::Sent,
            TensorEvent::NotSent => TensorEventView::NotSent,
            TensorEvent::ForwardResult(result) => TensorEventView::ForwardResult(result@),
            TensorEvent::BackwardResult(result) => TensorEventView::BackwardResult(result@),
            TensorEvent::OtherMessage => TensorEventView::OtherMessage,
            TensorEvent::NoMessage => TensorEventView::NoMessage,
        }
    }
}

/// Why a round failed.
#[derive(Clone, Copy, Debug, PartialEq, Eq, Structural)]
pub enum TensorRoundError {
    /// The pass of a shard on this node failed.
    Pass,
    /// An owner could not be reached.
    Unreachable,
    /// An owner did not answer.
    NoResult,
    /// A shard has no output.
    MissingOutput,
    /// The errors are too large to be squared and summed up.
    OutOfRange,
}

/// What a round does next.
#[derive(Debug, PartialEq, Eq)]
pub enum TensorAction {
    /// Compute the output of a shard on this node.
    RunForward { shard_id: u16 },
    SendForward(NodeId, V4TensorForward),
    /// Let a shard on this node learn from its errors.
    RunBackward { shard_id: u16, upstream: Vec<i64> },
    SendBackward(NodeId, V4TensorBackward),
    /// Wait for a message.
    Wait,
    /// The round is over, with this loss and this many steps.
    Done { loss: i64, steps: u64 },
    Fail(TensorRoundError),
    /// The event was not awaited.
    Ignore,
}

/// The contents of a [`TensorAction`].
pub enum TensorActionView {
    RunForward { shard_id: u16 },
    SendForward(NodeId, V4TensorForwardView),
    RunBackward { shard_id: u16, upstream: Seq<i64> },
    SendBackward(NodeId, V4TensorBackwardView),
    Wait,
    Done { loss: i64, steps: u64 },
    Fail(TensorRoundError),
    Ignore,
}

impl View for TensorAction {
    type V = TensorActionView;

    open spec fn view(&self) -> TensorActionView {
        match self {
            TensorAction::RunForward { shard_id } => TensorActionView::RunForward {
                shard_id: *shard_id,
            },
            TensorAction::SendForward(to, request) => TensorActionView::SendForward(*to, request@),
            TensorAction::RunBackward { shard_id, upstream } => TensorActionView::RunBackward {
                shard_id: *shard_id,
                upstream: upstream@,
            },
            TensorAction::SendBackward(to, request) => TensorActionView::SendBackward(
                *to,
                request@,
            ),
            TensorAction::Wait => TensorActionView::Wait,
            TensorAction::Done { loss, steps } => TensorActionView::Done {
                loss: *loss,
                steps: *steps,
            },
            TensorAction::Fail(error) => TensorActionView::Fail(*error),
            TensorAction::Ignore => TensorActionView::Ignore,
        }
    }
}

/// A round that fails.
pub open spec fn failed_passes(p: TensorPassesView, error: TensorRoundError) -> (
    TensorPassesView,
    TensorActionView,
) {
    (TensorPassesView { step: TensorStep::Over, ..p }, TensorActionView::Fail(error))
}

/// Every shard was sent its errors: their owners have to answer, then the round
/// is over.
pub open spec fn errors_sent(p: TensorPassesView, graph: V4ExecutionGraphView) -> (
    TensorPassesView,
    TensorActionView,
) {
    if p.round.pending != Set::<u32>::empty() {
        (TensorPassesView { step: TensorStep::Hashes, ..p }, TensorActionView::Wait)
    } else {
        (
            TensorPassesView { step: TensorStep::Over, ..p },
            TensorActionView::Done { loss: p.loss, steps: graph.shards.len() as u64 },
        )
    }
}

/// The shard at `index` learns from its errors: here, or at its owner.
pub open spec fn taught(
    p: TensorPassesView,
    graph: V4ExecutionGraphView,
    node: NodeId,
    index: int,
) -> (TensorPassesView, TensorActionView) {
    if index >= graph.shards.len() {
        errors_sent(p, graph)
    } else {
        let shard = graph.shards[index];
        if !p.errors.contains_key(shard.shard_id) {
            failed_passes(p, TensorRoundError::MissingOutput)
        } else if shard.owners[0] == node {
            (
                TensorPassesView { step: TensorStep::Backward { index: index as usize }, ..p },
                TensorActionView::RunBackward {
                    shard_id: shard.shard_id,
                    upstream: p.errors[shard.shard_id],
                },
            )
        } else {
            (
                TensorPassesView {
                    step: TensorStep::AskingBackward { index: index as usize },
                    ..p
                },
                TensorActionView::SendBackward(
                    shard.owners[0],
                    backward_question(p.round, graph.job_id, shard, p.errors[shard.shard_id]),
                ),
            )
        }
    }
}

/// Every shard was asked for its output: the outputs have to arrive, then the
/// shards learn from their errors.
pub open spec fn all_asked(p: TensorPassesView, graph: V4ExecutionGraphView, node: NodeId) -> (
    TensorPassesView,
    TensorActionView,
) {
    let total = total_squares(graph.shards, p.round.outputs);
    if p.round.pending != Set::<u32>::empty() {
        (TensorPassesView { step: TensorStep::Outputs, ..p }, TensorActionView::Wait)
    } else if total > SQUARES_LIMIT {
        failed_passes(p, TensorRoundError::OutOfRange)
    } else if !all_present(graph.shards, p.round.outputs) {
        failed_passes(p, TensorRoundError::MissingOutput)
    } else {
        taught(
            TensorPassesView {
                errors: error_table(graph.shards, p.round.outputs),
                loss: min_int(total, i64::MAX as int) as i64,
                ..p
            },
            graph,
            node,
            0,
        )
    }
}

/// The shard at `index` is asked for its output: here, or at its owner.
pub open spec fn asked(
    p: TensorPassesView,
    graph: V4ExecutionGraphView,
    node: NodeId,
    index: int,
) -> (TensorPassesView, TensorActionView) {
    if index >= graph.shards.len() {
        all_asked(p, graph, node)
    } else {
        let shard = graph.shards[index];
        if shard.owners[0] == node {
            (
                TensorPassesView { step: TensorStep::Forward { index: index as usize }, ..p },
                TensorActionView::RunForward { shard_id: shard.shard_id },
            )
        } else {
            (
                TensorPassesView {
                    step: TensorStep::AskingForward { index: index as usize },
                    ..p
                },
                TensorActionView::SendForward(
                    shard.owners[0],
                    forward_question(p.round, graph.job_id, shard),
                ),
            )
        }
    }
}

/// The next step of a round over a graph whose shards all have owners.
pub open spec fn tensor_stepped(
    p: TensorPassesView,
    graph: V4ExecutionGraphView,
    node: NodeId,
    event: TensorEventView,
) -> (TensorPassesView, TensorActionView) {
    match (p.step, event) {
        (TensorStep::Forward { index }, TensorEventView::Output(output)) => if index
            < graph.shards.len() {
            let round = TensorRoundView {
                outputs: p.round.outputs.insert(graph.shards[index as int].shard_id, output),
                ..p.round
            };
            asked(TensorPassesView { round, ..p }, graph, node, index + 1)
        } else {
            (p, TensorActionView::Ignore)
        },
        (TensorStep::AskingForward { index }, TensorEventView::Sent) => if index
            < graph.shards.len() {
            let round = TensorRoundView {
                pending: p.round.pending.insert(graph.shards[index as int].shard_id as u32),
                ..p.round
            };
            asked(TensorPassesView { round, ..p }, graph, node, index + 1)
        } else {
            (p, TensorActionView::Ignore)
        },
        (TensorStep::Outputs, TensorEventView::ForwardResult(result)) => if awaited_by(
            p.round,
            result.request_id,
            result.plan_generation,
            result.shard_id,
        ) {
            let round = TensorRoundView {
                pending: p.round.pending.remove(result.shard_id as u32),
                outputs: p.round.outputs.insert(result.shard_id, result.output),
                ..p.round
            };
            all_asked(TensorPassesView { round, ..p }, graph, node)
        } else {
            all_asked(p, graph, node)
        },
        (TensorStep::Backward { index }, TensorEventView::Learnt(state_hash, optimizer_hash)) =>
            if index < graph.shards.len() {
            let round = with_hashes(
                p.round,
                graph.shards[index as int].shard_id,
                state_hash,
                optimizer_hash,
            );
            taught(TensorPassesView { round, ..p }, graph, node, index + 1)
        } else {
            (p, TensorActionView::Ignore)
        },
        (TensorStep::AskingBackward { index }, TensorEventView::Sent) => if index
            < graph.shards.len() {
            let round = TensorRoundView {
                pending: p.round.pending.insert(graph.shards[index as int].shard_id as u32),
                ..p.round
            };
            taught(TensorPassesView { round, ..p }, graph, node, index + 1)
        } else {
            (p, TensorActionView::Ignore)
        },
        (TensorStep::Hashes, TensorEventView::BackwardResult(result)) => if awaited_by(
            p.round,
            result.request_id,
            result.plan_generation,
            result.shard_id,
        ) {
            let round = with_hashes(
                TensorRoundView {
                    pending: p.round.pending.remove(result.shard_id as u32),
                    ..p.round
                },
                result.shard_id,
                result.state_hash,
                result.optimizer_state_hash,
            );
            errors_sent(TensorPassesView { round, ..p }, graph)
        } else {
            errors_sent(p, graph)
        },
        (TensorStep::Forward { .. }, TensorEventView::PassFailed)
        | (TensorStep::Backward { .. }, TensorEventView::PassFailed) => failed_passes(
            p,
            TensorRoundError::Pass,
        ),
        (TensorStep::AskingForward { .. }, TensorEventView::NotSent)
        | (TensorStep::AskingBackward { .. }, TensorEventView::NotSent) => failed_passes(
            p,
            TensorRoundError::Unreachable,
        ),
        (TensorStep::Outputs, TensorEventView::NoMessage)
        | (TensorStep::Hashes, TensorEventView::NoMessage) => failed_passes(
            p,
            TensorRoundError::NoResult,
        ),
        (TensorStep::Outputs, TensorEventView::BackwardResult(_))
        | (TensorStep::Outputs, TensorEventView::OtherMessage)
        | (TensorStep::Hashes, TensorEventView::ForwardResult(_))
        | (TensorStep::Hashes, TensorEventView::OtherMessage) => (p, TensorActionView::Wait),
        _ => (p, TensorActionView::Ignore),
    }
}

fn fail_passes(passes: &mut TensorPasses, error: TensorRoundError) -> (r: TensorAction)
    ensures
        (final(passes)@, r@) == failed_passes(old(passes)@, error),
{
    passes.step = TensorStep::Over;
    TensorAction::Fail(error)
}

fn await_hashes(passes: &mut TensorPasses, graph: &V4ExecutionGraph) -> (r: TensorAction)
    ensures
        (final(passes)@, r@) == errors_sent(old(passes)@, graph@),
{
    if !owners_answered(&passes.round) {
        passes.step = TensorStep::Hashes;
        TensorAction::Wait
    } else {
        passes.step = TensorStep::Over;
        TensorAction::Done { loss: passes.loss, steps: graph.shards.len() as u64 }
    }
}

fn teach(passes: &mut TensorPasses, graph: &V4ExecutionGraph, node: NodeId, index: usize) -> (r:
    TensorAction)
    requires
        all_owned(graph@.shards),
    ensures
        (final(passes)@, r@) == taught(old(passes)@, graph@, node, index as int),
{
    if index >= graph.shards.len() {
        return await_hashes(passes, graph);
    }
    let shard = &graph.shards[index];
    assert(graph@.shards[index as int] == shard@);
    let owner = shard.owners[0];
    let upstream: Vec<i64> = match passes.errors.get(shard.shard_id) {
        Some(errors) => errors.clone(),
        None => {
            return fail_passes(passes, TensorRoundError::MissingOutput);
        },
    };
    assert(upstream@ =~= passes.errors@[shard.shard_id]);
    if owner == node {
        passes.step = TensorStep::Backward { index };
        TensorAction::RunBackward { shard_id: shard.shard_id, upstream }
    } else {
        let request = backward_request(&passes.round, graph.job_id, shard, upstream);
        passes.step = TensorStep::AskingBackward { index };
        TensorAction::SendBackward(owner, request)
    }
}

fn await_outputs(passes: &mut TensorPasses, graph: &V4ExecutionGraph, node: NodeId) -> (r:
    TensorAction)
    requires
        all_owned(graph@.shards),
    ensures
        (final(passes)@, r@) == all_asked(old(passes)@, graph@, node),
{
    if !owners_answered(&passes.round) {
        passes.step = TensorStep::Outputs;
        return TensorAction::Wait;
    }
    if !errors_fit(graph, &passes.round.outputs) {
        return fail_passes(passes, TensorRoundError::OutOfRange);
    }
    match tensor_errors(graph, &passes.round.outputs) {
        Err(_) => fail_passes(passes, TensorRoundError::MissingOutput),
        Ok((loss, errors)) => {
            passes.loss = loss;
            passes.errors = errors;
            teach(passes, graph, node, 0)
        },
    }
}

fn ask(passes: &mut TensorPasses, graph: &V4ExecutionGraph, node: NodeId, index: usize) -> (r:
    TensorAction)
    requires
        all_owned(graph@.shards),
    ensures
        (final(passes)@, r@) == asked(old(passes)@, graph@, node, index as int),
{
    if index >= graph.shards.len() {
        return await_outputs(passes, graph, node);
    }
    let shard = &graph.shards[index];
    assert(graph@.shards[index as int] == shard@);
    let owner = shard.owners[0];
    if owner == node {
        passes.step = TensorStep::Forward { index };
        TensorAction::RunForward { shard_id: shard.shard_id }
    } else {
        let request = forward_request(&passes.round, graph.job_id, shard);
        passes.step = TensorStep::AskingForward { index };
        TensorAction::SendForward(owner, request)
    }
}

/// The round before its first shard is asked.
pub open spec fn fresh_passes(
    graph: V4ExecutionGraphView,
    plan: V4TrainingPlanView,
    request_id: JobId,
    window: u64,
) -> TensorPassesView {
    TensorPassesView {
        round: TensorRoundView {
            request_id,
            plan_generation: plan.plan_generation,
            sequence: sequence_of(graph.graph_generation, window),
            pending: Set::empty(),
            outputs: Map::empty(),
            state_hashes: Map::empty(),
            optimizer_hashes: Map::empty(),
        },
        step: TensorStep::Over,
        errors: Map::empty(),
        loss: 0,
    }
}

/// Begin the tensor round of a window with the first shard.
pub fn begin_tensor_passes(
    graph: &V4ExecutionGraph,
    plan: &V4TrainingPlan,
    node: NodeId,
    request_id: JobId,
    window: u64,
) -> (r: (TensorPasses, TensorAction))
    requires
        all_owned(graph@.shards),
    ensures
        (r.0@, r.1@) == asked(fresh_passes(graph@, plan@, request_id, window), graph@, node, 0),
{
    let mut passes = TensorPasses {
        round: begin_tensor_round(graph, plan, request_id, window),
        step: TensorStep::Over,
        errors: OrdMap::new(),
        loss: 0,
    };
    assert(passes@ =~= fresh_passes(graph@, plan@, request_id, window));
    let action = ask(&mut passes, graph, node, 0);
    (passes, action)
}

/// Take a round one step on.
pub fn tensor_training_round(
    passes: &mut TensorPasses,
    graph: &V4ExecutionGraph,
    node: NodeId,
    event: TensorEvent,
) -> (r: TensorAction)
    requires
        all_owned(graph@.shards),
    ensures
        (final(passes)@, r@) == tensor_stepped(old(passes)@, graph@, node, event@),
{
    match (passes.step, event) {
        (TensorStep::Forward { index }, TensorEvent::Output(output)) => {
            if index < graph.shards.len() {
                assert(graph@.shards[index as int] == graph.shards@[index as int]@);
                local_output(&mut passes.round, graph.shards[index].shard_id, output);
                ask(passes, graph, node, index + 1)
            } else {
                TensorAction::Ignore
            }
        },
        (TensorStep::AskingForward { index }, TensorEvent::Sent) => {
            if index < graph.shards.len() {
                assert(graph@.shards[index as int] == graph.shards@[index as int]@);
                owner_asked(&mut passes.round, graph.shards[index].shard_id);
                ask(passes, graph, node, index + 1)
            } else {
                TensorAction::Ignore
            }
        },
        (TensorStep::Outputs, TensorEvent::ForwardResult(result)) => {
            note_forward_result(&mut passes.round, result);
            await_outputs(passes, graph, node)
        },
        (TensorStep::Backward { index }, TensorEvent::Learnt(state_hash, optimizer_hash)) => {
            if index < graph.shards.len() {
                assert(graph@.shards[index as int] == graph.shards@[index as int]@);
                local_backward_done(
                    &mut passes.round,
                    graph.shards[index].shard_id,
                    state_hash,
                    optimizer_hash,
                );
                teach(passes, graph, node, index + 1)
            } else {
                TensorAction::Ignore
            }
        },
        (TensorStep::AskingBackward { index }, TensorEvent::Sent) => {
            if index < graph.shards.len() {
                assert(graph@.shards[index as int] == graph.shards@[index as int]@);
                owner_asked(&mut passes.round, graph.shards[index].shard_id);
                teach(passes, graph, node, index + 1)
            } else {
                TensorAction::Ignore
            }
        },
        (TensorStep::Hashes, TensorEvent::BackwardResult(result)) => {
            note_backward_result(&mut passes.round, &result);
            await_hashes(passes, graph)
        },
        (TensorStep::Forward { .. }, TensorEvent::PassFailed)
        | (TensorStep::Backward { .. }, TensorEvent::PassFailed) => {
            fail_passes(passes, TensorRoundError::Pass)
        },
        (TensorStep::AskingForward { .. }, TensorEvent::NotSent)
        | (TensorStep::AskingBackward { .. }, TensorEvent::NotSent) => {
            fail_passes(passes, TensorRoundError::Unreachable)
        },
        (TensorStep::Outputs, TensorEvent::NoMessage)
        | (TensorStep::Hashes, TensorEvent::NoMessage) => {
            fail_passes(passes, TensorRoundError::NoResult)
        },
        (TensorStep::Outputs, TensorEvent::BackwardResult(_))
        | (TensorStep::Outputs, TensorEvent::OtherMessage)
        | (TensorStep::Hashes, TensorEvent::ForwardResult(_))
        | (TensorStep::Hashes, TensorEvent::OtherMessage) => TensorAction::Wait,
        _ => TensorAction::Ignore,
    }
}

/// The round still asks for outputs, or waits for them.
pub open spec fn still_asks(step: TensorStep) -> bool {
    step is Forward || step is AskingForward || step is Outputs
}

/// The round sends errors, or waits for the hashes of the shards.
pub open spec fn already_teaches(step: TensorStep) -> bool {
    step is Backward || step is AskingBackward || step is Hashes
}

/// No shard learns before the outputs of all shards are there, the errors that
/// it learns from are those of its own output, and the loss of the round is
/// the sum of all squared errors.
pub proof fn law_learning_follows_all_outputs(
    p: TensorPassesView,
    graph: V4ExecutionGraphView,
    node: NodeId,
    event: TensorEventView,
)
    requires
        all_owned(graph.shards),
        still_asks(p.step),
        already_teaches(tensor_stepped(p, graph, node, event).0.step),
    ensures
        ({
            let after = tensor_stepped(p, graph, node, event).0;
            &&& after.round.pending == Set::<u32>::empty()
            &&& all_present(graph.shards, after.round.outputs)
            &&& after.errors == error_table(graph.shards, after.round.outputs)
            &&& after.loss == min_int(
                total_squares(graph.shards, after.round.outputs),
                i64::MAX as int,
            )
        }),
{
    let after = tensor_stepped(p, graph, node, event).0;
    lemma_total_grows(graph.shards, after.round.outputs, 0);
}

/// A round ends well only when it has sent all errors and every owner has
/// answered.
pub proof fn law_tensor_round_ends_answered(
    p: TensorPassesView,
    graph: V4ExecutionGraphView,
    node: NodeId,
    event: TensorEventView,
)
    requires
        all_owned(graph.shards),
        tensor_stepped(p, graph, node, event).1 is Done,
        graph.shards.len() > 0,
    ensures
        already_teaches(p.step),
        tensor_stepped(p, graph, node, event).0.round.pending == Set::<u32>::empty(),
        tensor_stepped(p, graph, node, event).1->loss == p.loss,
        tensor_stepped(p, graph, node, event).1->steps == graph.shards.len() as u64,
{
}

/// The shards before `count` have their hashes, or are awaited.
pub open spec fn hashes_due(p: TensorPassesView, graph: V4ExecutionGraphView, count: int) -> bool {
    forall|k: int|
        0 <= k < count && k < graph.shards.len() ==> p.round.state_hashes.contains_key(
            (#[trigger] graph.shards[k]).shard_id,
        ) || p.round.pending.contains(graph.shards[k].shard_id as u32)
}

/// The errors and the loss are those of the outputs of all shards.
pub open spec fn errors_of_outputs(p: TensorPassesView, graph: V4ExecutionGraphView) -> bool {
    &&& all_present(graph.shards, p.round.outputs)
    &&& p.errors == error_table(graph.shards, p.round.outputs)
    &&& p.loss == min_int(total_squares(graph.shards, p.round.outputs), i64::MAX as int)
}

/// What holds of a round once the shards learn: the errors are those of all outputs,
/// and every shard before the one at hand has its hashes or is awaited.
pub open spec fn tensor_inv(p: TensorPassesView, graph: V4ExecutionGraphView) -> bool {
    match p.step {
        TensorStep::Backward { index } | TensorStep::AskingBackward { index } => errors_of_outputs(p, graph)
            && hashes_due(p, graph, index as int),
        TensorStep::Hashes => errors_of_outputs(p, graph) && hashes_due(
            p,
            graph,
            graph.shards.len() as int,
        ),
        _ => true,
    }
}

/// What a round that ends well comes to.
pub open spec fn tensor_ends_well(
    after: (TensorPassesView, TensorActionView),
    graph: V4ExecutionGraphView,
) -> bool {
    after.1 matches TensorActionView::Done { loss, .. } ==> {
        &&& all_present(graph.shards, after.0.round.outputs)
        &&& loss == min_int(
            total_squares(graph.shards, after.0.round.outputs),
            i64::MAX as int,
        )
        &&& forall|k: int|
            0 <= k < graph.shards.len() ==> after.0.round.state_hashes.contains_key(
                (#[trigger] graph.shards[k]).shard_id,
            )
    }
}

proof fn lemma_taught_inv(
    p: TensorPassesView,
    graph: V4ExecutionGraphView,
    node: NodeId,
    index: int,
)
    requires
        0 <= index,
        graph.shards.len() <= usize::MAX,
        errors_of_outputs(p, graph),
        hashes_due(p, graph, index),
    ensures
        tensor_inv(taught(p, graph, node, index).0, graph),
        tensor_ends_well(taught(p, graph, node, index), graph),
{
}

proof fn lemma_all_asked_inv(p: TensorPassesView, graph: V4ExecutionGraphView, node: NodeId)
    requires
        graph.shards.len() <= usize::MAX,
    ensures
        tensor_inv(all_asked(p, graph, node).0, graph),
        tensor_ends_well(all_asked(p, graph, node), graph),
{
    let total = total_squares(graph.shards, p.round.outputs);
    let next = TensorPassesView {
        errors: error_table(graph.shards, p.round.outputs),
        loss: min_int(total, i64::MAX as int) as i64,
        ..p
    };
    lemma_total_grows(graph.shards, p.round.outputs, 0);
    if all_present(graph.shards, p.round.outputs) {
        lemma_taught_inv(next, graph, node, 0);
    }
}

/// A round that ends well has the output and the new hash of every shard, and its
/// loss is the sum of all squared errors. This holds over the whole round, from its
/// first question on.
pub proof fn law_tensor_round_covers_every_shard(
    plan: V4TrainingPlanView,
    request_id: JobId,
    window: u64,
    p: TensorPassesView,
    graph: V4ExecutionGraphView,
    node: NodeId,
    event: TensorEventView,
)
    requires
        all_owned(graph.shards),
        graph.shards.len() <= usize::MAX,
        tensor_inv(p, graph),
    ensures
        tensor_inv(asked(fresh_passes(graph, plan, request_id, window), graph, node, 0).0, graph),
        tensor_ends_well(
            asked(fresh_passes(graph, plan, request_id, window), graph, node, 0),
            graph,
        ),
        tensor_inv(tensor_stepped(p, graph, node, event).0, graph),
        tensor_ends_well(tensor_stepped(p, graph, node, event), graph),
{
    lemma_all_asked_inv(fresh_passes(graph, plan, request_id, window), graph, node);
    match (p.step, event) {
        (TensorStep::Forward { index }, TensorEventView::Output(output)) => {
            if index < graph.shards.len() {
                let round = TensorRoundView {
                    outputs: p.round.outputs.insert(graph.shards[index as int].shard_id, output),
                    ..p.round
                };
                lemma_all_asked_inv(TensorPassesView { round, ..p }, graph, node);
            }
        },
        (TensorStep::AskingForward { index }, TensorEventView::Sent) => {
            if index < graph.shards.len() {
                let round = TensorRoundView {
                    pending: p.round.pending.insert(graph.shards[index as int].shard_id as u32),
                    ..p.round
                };
                lemma_all_asked_inv(TensorPassesView { round, ..p }, graph, node);
            }
        },
        (TensorStep::Outputs, TensorEventView::ForwardResult(result)) => {
            let round = TensorRoundView {
                pending: p.round.pending.remove(result.shard_id as u32),
                outputs: p.round.outputs.insert(result.shard_id, result.output),
                ..p.round
            };
            lemma_all_asked_inv(TensorPassesView { round, ..p }, graph, node);
            lemma_all_asked_inv(p, graph, node);
        },
        (TensorStep::Backward { index }, TensorEventView::Learnt(state_hash, optimizer_hash)) => {
            if index < graph.shards.len() {
                let round = with_hashes(
                    p.round,
                    graph.shards[index as int].shard_id,
                    state_hash,
                    optimizer_hash,
                );
                lemma_taught_inv(TensorPassesView { round, ..p }, graph, node, index + 1);
            }
        },
        (TensorStep::AskingBackward { index }, TensorEventView::Sent) => {
            if index < graph.shards.len() {
                let round = TensorRoundView {
                    pending: p.round.pending.insert(graph.shards[index as int].shard_id as u32),
                    ..p.round
                };
                lemma_taught_inv(TensorPassesView { round, ..p }, graph, node, index + 1);
            }
        },
        (TensorStep::Hashes, TensorEventView::BackwardResult(result)) => {
            let round = with_hashes(
                TensorRoundView {
                    pending: p.round.pending.remove(result.shard_id as u32),
                    ..p.round
                },
                result.shard_id,
                result.state_hash,
                result.optimizer_state_hash,
            );
            let next = TensorPassesView { round, ..p };
            assert(hashes_due(next, graph, graph.shards.len() as int)) by {
                assert forall|k: int|
                    0 <= k < graph.shards.len() implies round.state_hashes.contains_key(
                    (#[trigger] graph.shards[k]).shard_id,
                ) || round.pending.contains(graph.shards[k].shard_id as u32) by {
                    if graph.shards[k].shard_id != result.shard_id {
                        assert(graph.shards[k].shard_id as u32 != result.shard_id as u32);
                    }
                }
            }
        },
        _ => {},
    }
}

/// A shard is asked for its output and taught from its errors where its owner is: on this
/// node directly, elsewhere by a message to the owner; an output counts for its own shard.
pub proof fn law_shards_train_at_their_owner(
    p: TensorPassesView,
    graph: V4ExecutionGraphView,
    node: NodeId,
    index: usize,
    output: Seq<i64>,
)
    requires
        index < graph.shards.len(),
        graph.shards[index as int].owners.len() > 0,
    ensures
        ({
            let shard = graph.shards[index as int];
            let (after, action) = asked(p, graph, node, index as int);
            &&& shard.owners[0] == node ==> action == (TensorActionView::RunForward {
                shard_id: shard.shard_id,
            })
            &&& shard.owners[0] != node ==> action is SendForward && action->SendForward_0
                == shard.owners[0]
        }),
        ({
            let shard = graph.shards[index as int];
            let (after, action) = taught(p, graph, node, index as int);
            &&& p.errors.contains_key(shard.shard_id) && shard.owners[0] == node ==> action == (
            TensorActionView::RunBackward {
                shard_id: shard.shard_id,
                upstream: p.errors[shard.shard_id],
            })
            &&& p.errors.contains_key(shard.shard_id) && shard.owners[0] != node ==> action
                is SendBackward && action->SendBackward_0 == shard.owners[0]
                && action->SendBackward_1.upstream == p.errors[shard.shard_id]
            &&& !p.errors.contains_key(shard.shard_id) ==> action == TensorActionView::Fail(
                TensorRoundError::MissingOutput,
            )
        }),
        p.step == (TensorStep::Forward { index }) && index + 1 < graph.shards.len() ==> ({
            let (after, action) = tensor_stepped(p, graph, node, TensorEventView::Output(output));
            after.round.outputs == p.round.outputs.insert(
                graph.shards[index as int].shard_id,
                output,
            )
        }),
        p.step is Forward || p.step is Backward ==> tensor_stepped(
            p,
            graph,
            node,
            TensorEventView::PassFailed,
        ).1 == TensorActionView::Fail(TensorRoundError::Pass),
        p.step is AskingForward || p.step is AskingBackward ==> tensor_stepped(
            p,
            graph,
            node,
            TensorEventView::NotSent,
        ).1 == TensorActionView::Fail(TensorRoundError::Unreachable),
        p.step is Outputs || p.step is Hashes ==> tensor_stepped(
            p,
            graph,
            node,
            TensorEventView::NoMessage,
        ).1 == TensorActionView::Fail(TensorRoundError::NoResult),
{
}

/// A round that has every answer is done, with its loss and one step for each shard.
pub proof fn law_round_counts_a_step_for_each_shard(
    p: TensorPassesView,
    graph: V4ExecutionGraphView,
    plan: V4TrainingPlanView,
    request_id: JobId,
    window: u64,
)
    requires
        graph.shards.len() <= u64::MAX,
    ensures
        p.round.pending == Set::<u32>::empty() ==> errors_sent(p, graph).1 == (
        TensorActionView::Done { loss: p.loss, steps: graph.shards.len() as u64 }),
        p.round.pending != Set::<u32>::empty() ==> errors_sent(p, graph).1 is Wait,
        ({
            let f = fresh_passes(graph, plan, request_id, window);
            &&& f.round.request_id == request_id && f.round.plan_generation == plan.plan_generation
            &&& f.round.pending == Set::<u32>::empty()
            &&& f.round.outputs == Map::<u16, Seq<i64>>::empty()
            &&& f.loss == 0
        }),
{
}

/// A fresh round has a sequence of its own: later in a later window of the graph, and of a
/// later graph than in any window of the one before.
pub proof fn law_rounds_are_in_sequence(
    graph: V4ExecutionGraphView,
    plan: V4TrainingPlanView,
    request_id: JobId,
    window: u64,
)
    requires
        graph.graph_generation * 4_097 + window + 1 <= u64::MAX,
    ensures
        ({
            let f = fresh_passes(graph, plan, request_id, window);
            &&& f.round.sequence == graph.graph_generation * 4_097 + window + 1
            &&& f.round.state_hashes == Map::<u16, ArtifactId>::empty()
            &&& f.round.optimizer_hashes == Map::<u16, ArtifactId>::empty()
            &&& f.errors == Map::<u16, Seq<i64>>::empty()
        }),
{
}

} // verus!
