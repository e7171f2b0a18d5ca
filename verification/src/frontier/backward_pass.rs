//! A backward pass on a tensor shard of this node: its gradients are computed,
//! the shard and its optimizer state learn from them once, and the pass is
//! answered, however often it is asked for.

use crate::base::ids::{ArtifactId, JobId};
use crate::base::record::Duplicate;
use crate::frontier::dataplane::{V4TensorBackwardResult, V4TensorBackwardResultView};
use crate::frontier::local::{V4LocalTensorShard, V4LocalTensorShardView};
use crate::frontier::tensor::{
    apply_backward, backward_answer, backward_result, learned, repeated_upstream, spread,
};
use vstd::prelude::*;

verus! {

/// Where a pass stands.
#[derive(Clone, Copy, Debug, PartialEq, Eq, Structural)]
pub enum PassStep {
    /// The gradient of the weights is computed.
    WeightGradient,
    /// The gradient of the input is computed.
    InputGradient,
    /// The shard that has learnt is stored.
    Storing,
    /// The optimizer state is updated, or looked up.
    Optimizer,
    Over,
}

/// A running backward pass.
#[derive(Debug)]
pub struct BackwardPass {
    pub shard: V4LocalTensorShard,
    pub request_id: JobId,
    pub plan_generation: u64,
    pub sequence: u64,
    pub rate_micros: i64,
    /// Whether the shard has learnt from this pass before.
    pub applied: bool,
    pub weight_gradient: Vec<i64>,
    pub input_gradient: Vec<i64>,
    pub step: PassStep,
}

/// The contents of a [`BackwardPass`].
#[verifier::ext_equal]
pub struct BackwardPassView {
    pub shard: V4LocalTensorShardView,
    pub request_id: JobId,
    pub plan_generation: u64,
    pub sequence: u64,
    pub rate_micros: i64,
    pub applied: bool,
    pub weight_gradient: Seq<i64>,
    pub input_gradient: Seq<i64>,
    pub step: PassStep,
}

impl View for BackwardPass {
    type V = BackwardPassView;

    open spec fn view(&self) -> BackwardPassView {
        BackwardPassView {
            shard: self.shard@,
            request_id: self.request_id,
            plan_generation: self.plan_generation,
            sequence: self.sequence,
            rate_micros: self.rate_micros,
            applied: self.applied,
            weight_gradient: self.weight_gradient@,
            input_gradient: self.input_gradient@,
            step: self.step,
        }
    }
}

/// What a pass learns.
#[derive(Debug)]
pub enum PassEvent {
    /// What was computed.
    Computed(Vec<i64>),
    /// The shard is stored under this hash.
    Stored(ArtifactId),
    /// The hash and the generation of the optimizer state, where there is one.
    Optimizer(Option<(ArtifactId, u64)>),
    Failed,
}

/// The contents of a [`PassEvent`].
pub enum PassEventView {
    Computed(Seq<i64>),
    Stored(ArtifactId),
    Optimizer(Option<(ArtifactId, u64)>),
    Failed,
}

impl View for PassEvent {
    type V = PassEventView;

    open spec fn view(&self) -> PassEventView {
        match self {
            PassEvent::Computed(values) => PassEventView::Computed(values@),
            PassEvent::Stored(hash) => PassEventView::Stored(*hash),
            PassEvent::Optimizer(state) => PassEventView::Optimizer(*state),
            PassEvent::Failed => PassEventView::Failed,
        }
    }
}

/// What a pass does next.
#[derive(Debug, PartialEq, Eq)]
pub enum PassAction {
    /// Multiply the weights of the shard with these values, one by one.
    MultiplyWeights(Vec<i64>),
    /// Multiply the transposed weights of the shard with the upstream errors.
    TransposeUpstream,
    /// Hash and store the shard.
    Store(V4LocalTensorShard),
    /// Add the gradient to the optimizer state of the shard, and replicate it.
    UpdateOptimizer(Vec<i64>),
    /// Look up the optimizer state of the shard.
    ReadOptimizer,
    Answer(V4TensorBackwardResult),
    Fail,
    /// The event was not awaited.
    Ignore,
}

/// The contents of a [`PassAction`].
pub enum PassActionView {
    MultiplyWeights(Seq<i64>),
    TransposeUpstream,
    Store(V4LocalTensorShardView),
    UpdateOptimizer(Seq<i64>),
    ReadOptimizer,
    Answer(V4TensorBackwardResultView),
    Fail,
    Ignore,
}

impl View for PassAction {
    type V = PassActionView;

    open spec fn view(&self) -> PassActionView {
        match self {
            PassAction::MultiplyWeights(values) => PassActionView::MultiplyWeights(values@),
            PassAction::TransposeUpstream => PassActionView::TransposeUpstream,
            PassAction::Store(shard) => PassActionView::Store(shard@),
            PassAction::UpdateOptimizer(gradient) => PassActionView::UpdateOptimizer(gradient@),
            PassAction::ReadOptimizer => PassActionView::ReadOptimizer,
            PassAction::Answer(result) => PassActionView::Answer(result@),
            PassAction::Fail => PassActionView::Fail,
            PassAction::Ignore => PassActionView::Ignore,
        }
    }
}

/// The pass before anything is computed.
pub open spec fn fresh_pass(
    shard: V4LocalTensorShardView,
    request_id: JobId,
    plan_generation: u64,
    sequence: u64,
    rate_micros: i64,
    applied: bool,
) -> BackwardPassView {
    BackwardPassView {
        shard,
        request_id,
        plan_generation,
        sequence,
        rate_micros,
        applied,
        weight_gradient: Seq::empty(),
        input_gradient: Seq::empty(),
        step: PassStep::WeightGradient,
    }
}

/// The next step of a pass.
pub open spec fn pass_stepped(p: BackwardPassView, event: PassEventView) -> (
    BackwardPassView,
    PassActionView,
) {
    match (p.step, event) {
        (PassStep::Over, _) => (p, PassActionView::Ignore),
        (_, PassEventView::Failed) => (
            BackwardPassView { step: PassStep::Over, ..p },
            PassActionView::Fail,
        ),
        (PassStep::WeightGradient, PassEventView::Computed(values)) => (
            BackwardPassView { weight_gradient: values, step: PassStep::InputGradient, ..p },
            PassActionView::TransposeUpstream,
        ),
        (PassStep::InputGradient, PassEventView::Computed(values)) => {
            let computed = BackwardPassView { input_gradient: values, ..p };
            if p.applied {
                (
                    BackwardPassView { step: PassStep::Optimizer, ..computed },
                    PassActionView::ReadOptimizer,
                )
            } else {
                let shard = learned(p.shard, p.weight_gradient, p.rate_micros, p.sequence);
                (
                    BackwardPassView { shard, step: PassStep::Storing, ..computed },
                    PassActionView::Store(shard),
                )
            }
        },
        (PassStep::Storing, PassEventView::Stored(hash)) => (
            BackwardPassView {
                shard: V4LocalTensorShardView { state_hash: hash, ..p.shard },
                step: PassStep::Optimizer,
                ..p
            },
            PassActionView::UpdateOptimizer(p.weight_gradient),
        ),
        (PassStep::Optimizer, PassEventView::Optimizer(optimizer)) => (
            BackwardPassView { step: PassStep::Over, ..p },
            PassActionView::Answer(
                backward_answer(
                    p.request_id,
                    p.shard,
                    p.plan_generation,
                    p.sequence,
                    p.weight_gradient,
                    p.input_gradient,
                    optimizer,
                ),
            ),
        ),
        _ => (p, PassActionView::Ignore),
    }
}

/// Begin a pass that was found to fit the shard.
pub fn begin_backward_pass(
    shard: V4LocalTensorShard,
    upstream: &Vec<i64>,
    request_id: JobId,
    plan_generation: u64,
    sequence: u64,
    rate_micros: i64,
    applied: bool,
) -> (r: (BackwardPass, PassAction))
    requires
        upstream@.len() == shard@.rows,
    ensures
        r.0@ == fresh_pass(shard@, request_id, plan_generation, sequence, rate_micros, applied),
        r.1@ == PassActionView::MultiplyWeights(
            spread(upstream@, shard@.rows as nat, shard@.cols as nat),
        ),
{
    let values = repeated_upstream(upstream, shard.rows, shard.cols);
    let pass = BackwardPass {
        shard,
        request_id,
        plan_generation,
        sequence,
        rate_micros,
        applied,
        weight_gradient: Vec::new(),
        input_gradient: Vec::new(),
        step: PassStep::WeightGradient,
    };
    (pass, PassAction::MultiplyWeights(values))
}

/// Take a pass one step on.
pub fn local_tensor_backward(pass: &mut BackwardPass, event: PassEvent) -> (r: PassAction)
    ensures
        (final(pass)@, r@) == pass_stepped(old(pass)@, event@),
{
    match (pass.step, event) {
        (PassStep::Over, _) => PassAction::Ignore,
        (_, PassEvent::Failed) => {
            pass.step = PassStep::Over;
            PassAction::Fail
        },
        (PassStep::WeightGradient, PassEvent::Computed(values)) => {
            pass.weight_gradient = values;
            pass.step = PassStep::InputGradient;
            PassAction::TransposeUpstream
        },
        (PassStep::InputGradient, PassEvent::Computed(values)) => {
            pass.input_gradient = values;
            if pass.applied {
                pass.step = PassStep::Optimizer;
                PassAction::ReadOptimizer
            } else {
                let gradient = pass.weight_gradient.clone();
                assert(gradient@ =~= pass.weight_gradient@);
                apply_backward(&mut pass.shard, &gradient, pass.rate_micros, pass.sequence);
                pass.step = PassStep::Storing;
                PassAction::Store(pass.shard.duplicate())
            }
        },
        (PassStep::Storing, PassEvent::Stored(hash)) => {
            pass.shard.state_hash = hash;
            pass.step = PassStep::Optimizer;
            let gradient = pass.weight_gradient.clone();
            assert(gradient@ =~= pass.weight_gradient@);
            PassAction::UpdateOptimizer(gradient)
        },
        (PassStep::Optimizer, PassEvent::Optimizer(optimizer)) => {
            pass.step = PassStep::Over;
            let weight_gradient = pass.weight_gradient.clone();
            let input_gradient = pass.input_gradient.clone();
            assert(weight_gradient@ =~= pass.weight_gradient@);
            assert(input_gradient@ =~= pass.input_gradient@);
            PassAction::Answer(
                backward_result(
                    pass.request_id,
                    &pass.shard,
                    pass.plan_generation,
                    pass.sequence,
                    weight_gradient,
                    input_gradient,
                    optimizer,
                ),
            )
        },
        _ => PassAction::Ignore,
    }
}

/// A pass that was applied before is answered and changes nothing: the shard
/// stays as it is, nothing is stored, and the optimizer state is only read.
pub proof fn law_repeated_pass_is_idempotent(p: BackwardPassView, event: PassEventView)
    requires
        p.applied,
        !(p.step is Storing),
    ensures
        pass_stepped(p, event).0.shard == p.shard,
        pass_stepped(p, event).0.applied,
        !(pass_stepped(p, event).0.step is Storing),
        !(pass_stepped(p, event).1 is Store),
        !(pass_stepped(p, event).1 is UpdateOptimizer),
{
}

/// A pass is answered only once the shard has learnt from it, and the stored
/// shard carries its sequence, so that a repetition is recognised.
pub proof fn law_answered_pass_has_been_applied(p: BackwardPassView, event: PassEventView)
    requires
        p.applied || p.step is Storing || p.step is Optimizer ==> p.shard.last_sequence
            == p.sequence,
    ensures
        ({
            let (after, action) = pass_stepped(p, event);
            &&& action is Answer ==> after.shard.last_sequence == p.sequence
            &&& action matches PassActionView::Store(shard) ==> shard.last_sequence == p.sequence
            &&& after.applied || after.step is Storing || after.step is Optimizer
                ==> after.shard.last_sequence == after.sequence
        }),
{
}

/// A pass keeps what it computes: the first values are the gradient of the weights, the
/// second that of the input. The shard then learns from the first, unless it has already,
/// and the answer carries both.
pub proof fn law_pass_keeps_what_it_computes(
    p: BackwardPassView,
    values: Seq<i64>,
    hash: ArtifactId,
)
    ensures
        p.step is WeightGradient ==> ({
            let (after, action) = pass_stepped(p, PassEventView::Computed(values));
            &&& after.weight_gradient == values && after.shard == p.shard
            &&& action is TransposeUpstream
        }),
        p.step is InputGradient ==> ({
            let (after, action) = pass_stepped(p, PassEventView::Computed(values));
            &&& after.input_gradient == values && after.weight_gradient == p.weight_gradient
            &&& p.applied ==> action is ReadOptimizer && after.shard == p.shard
            &&& !p.applied ==> action is Store && action->Store_0 == after.shard
                && after.shard.shard_id == p.shard.shard_id
        }),
        p.step is Storing ==> ({
            let (after, action) = pass_stepped(p, PassEventView::Stored(hash));
            &&& action == PassActionView::UpdateOptimizer(p.weight_gradient)
            &&& after.shard.state_hash == hash && after.shard.weights == p.shard.weights
        }),
        !(p.step is Over) ==> pass_stepped(p, PassEventView::Failed).1 is Fail,
{
}

/// A fresh pass starts with the gradient of the weights, on the shard and under the numbers
/// that it was given.
pub proof fn law_pass_starts_as_asked(
    shard: V4LocalTensorShardView,
    request_id: JobId,
    plan_generation: u64,
    sequence: u64,
    rate_micros: i64,
    applied: bool,
)
    ensures
        ({
            let p = fresh_pass(shard, request_id, plan_generation, sequence, rate_micros, applied);
            &&& p.shard == shard && p.request_id == request_id
            &&& p.plan_generation == plan_generation && p.sequence == sequence
            &&& p.rate_micros == rate_micros && p.applied == applied
            &&& p.step is WeightGradient
        }),
{
}

} // verus!
