//! The short reference operations: one tensor, one pipeline, one collective and
//! one defended aggregation, each under a plan of its own.

use crate::base::arith::{clamp_int, sat_add_i64, sat_i64};
use crate::base::ids::{unsigned_hash, ArtifactId, JobId, NodeId};
use crate::base::members::contains_id;
use crate::base::ordered::OrdMap;
use crate::base::record::Duplicate;
use crate::base::search::{find, lemma_views_push, views};
use crate::base::values::same_values;
use crate::frontier::dataplane::{
    V4ByzantineUpdate, V4ByzantineUpdateView, V4CollectiveContribute, V4CollectiveContributeView,
    V4CollectiveResult, V4CollectiveResultView, V4PipelineBackward, V4PipelineBackwardView,
    V4PipelineForward, V4PipelineForwardResult, V4PipelineForwardResultView, V4PipelineForwardView,
    V4PipelineInstall, V4TensorBackward, V4TensorBackwardView, V4TensorForward,
    V4TensorForwardResult, V4TensorForwardResultView, V4TensorForwardView, V4TensorInstall,
    V4TensorInstallAck, V4TensorInstallView, V4PipelineInstallAck,
};
use crate::frontier::integrated::{first_weights, initial_tensor_weights};
use crate::frontier::pipeline::{function_of, stage_function};
use crate::frontier::plan::{find_shard, first_owner, numbered, owner_of, MAX_PLAN_WORKERS};
use crate::frontier::policy::V4ByzantinePolicy;
use crate::frontier::types::{V4TrainingPlan, V4TrainingPlanView};
use vstd::prelude::*;

verus! {

/// How long a step of a reference pipeline may take.
pub const DEMO_DEADLINE_MS: u64 = 4_000;

/// Whether an operation has exactly the workers it needs, none of them this
/// node.
pub fn remote_group(node: NodeId, workers: &Vec<NodeId>, count: usize) -> (r: bool)
    ensures
        r == (workers@.len() == count && !workers@.contains(node)),
{
    workers.len() == count && !contains_id(workers, node)
}

/// Why a tensor operation cannot use its plan.
#[derive(Clone, Copy, Debug, PartialEq, Eq, Structural)]
pub enum TensorDemoError {
    /// A shard has no owner.
    Ownerless,
    /// The plan has another number of shards.
    ShardCount,
}

/// The owner of a shard of the plan.
pub open spec fn planned_owner(plan: V4TrainingPlanView, shard_id: u16) -> Option<NodeId> {
    match find(plan.shards, numbered(shard_id)) {
        Some(s) => first_owner(s),
        None => None,
    }
}

fn owner_in(plan: &V4TrainingPlan, shard_id: u16) -> (r: Option<NodeId>)
    ensures
        r == planned_owner(plan@, shard_id),
{
    match find_shard(&plan.shards, shard_id) {
        Some(shard) => owner_of(shard),
        None => None,
    }
}

/// The owners of the two shards of a tensor operation.
pub open spec fn planned_owners(plan: V4TrainingPlanView) -> Result<
    (NodeId, NodeId),
    TensorDemoError,
> {
    match (planned_owner(plan, 0), planned_owner(plan, 1)) {
        (Some(first), Some(second)) => if plan.shards.len() != 2 {
            Err(TensorDemoError::ShardCount)
        } else {
            Ok((first, second))
        },
        _ => Err(TensorDemoError::Ownerless),
    }
}

/// The owners of the two shards of a tensor operation.
pub fn tensor_owners(plan: &V4TrainingPlan) -> (r: Result<(NodeId, NodeId), TensorDemoError>)
    ensures
        r == planned_owners(plan@),
{
    match (owner_in(plan, 0), owner_in(plan, 1)) {
        (Some(first), Some(second)) => if plan.shards.len() != 2 {
            Err(TensorDemoError::ShardCount)
        } else {
            Ok((first, second))
        },
        _ => Err(TensorDemoError::Ownerless),
    }
}

/// The installation of a shard of a tensor operation, before its hash is set:
/// two rows of four.
pub open spec fn demo_installed(plan: V4TrainingPlanView, index: u16) -> V4TensorInstallView {
    V4TensorInstallView {
        job_id: plan.job_id,
        plan_generation: plan.plan_generation,
        model_generation: plan.model_generation,
        shard_id: index,
        rows: 2,
        cols: 4,
        row_offset: (index * 2) as u16,
        weights: first_weights(index),
        state_hash: unsigned_hash(),
    }
}

/// The installation of a shard of a tensor operation, before its hash is set.
pub fn demo_tensor_install(plan: &V4TrainingPlan, index: u16) -> (r: V4TensorInstall)
    requires
        index < 2,
    ensures
        r@ == demo_installed(plan@, index),
{
    V4TensorInstall {
        job_id: plan.job_id,
        plan_generation: plan.plan_generation,
        model_generation: plan.model_generation,
        shard_id: index,
        rows: 2,
        cols: 4,
        row_offset: index * 2,
        weights: initial_tensor_weights(index),
        state_hash: ArtifactId::unsigned(),
    }
}

/// The installed shards of a tensor operation after an answer.
pub open spec fn demo_shards(
    installed: Map<u16, ArtifactId>,
    plan: V4TrainingPlanView,
    ack: V4TensorInstallAck,
) -> Map<u16, ArtifactId> {
    if ack.accepted && ack.plan_generation == plan.plan_generation {
        installed.insert(ack.shard_id, ack.state_hash)
    } else {
        installed
    }
}

/// Take in the answer to an installation of a tensor operation.
pub fn note_demo_tensor(
    installed: &mut OrdMap<ArtifactId>,
    plan: &V4TrainingPlan,
    ack: &V4TensorInstallAck,
)
    ensures
        final(installed)@ == demo_shards(old(installed)@, plan@, *ack),
{
    if ack.accepted && ack.plan_generation == plan.plan_generation {
        installed.insert(ack.shard_id, ack.state_hash);
    }
}

/// The input of a tensor operation.
pub open spec fn demo_input() -> Seq<i64> {
    seq![1i64, 2, 3, 4]
}

fn make_demo_input() -> (r: Vec<i64>)
    ensures
        r@ == demo_input(),
{
    let r: Vec<i64> = vec![1, 2, 3, 4];
    assert(r@ =~= demo_input());
    r
}

/// The forward pass of a shard of a tensor operation.
pub open spec fn demo_forwarded(
    plan: V4TrainingPlanView,
    request_id: JobId,
    index: u16,
) -> V4TensorForwardView {
    V4TensorForwardView {
        request_id,
        job_id: plan.job_id,
        plan_generation: plan.plan_generation,
        model_generation: plan.model_generation,
        shard_id: index,
        sequence: 1,
        input: demo_input(),
    }
}

/// The forward pass of a shard of a tensor operation.
pub fn demo_tensor_forward(plan: &V4TrainingPlan, request_id: JobId, index: u16) -> (r:
    V4TensorForward)
    ensures
        r@ == demo_forwarded(plan@, request_id, index),
{
    V4TensorForward {
        request_id,
        job_id: plan.job_id,
        plan_generation: plan.plan_generation,
        model_generation: plan.model_generation,
        shard_id: index,
        sequence: 1,
        input: make_demo_input(),
    }
}

/// The backward pass of a shard of a tensor operation.
pub open spec fn demo_reversed(
    plan: V4TrainingPlanView,
    request_id: JobId,
    index: u16,
) -> V4TensorBackwardView {
    V4TensorBackwardView {
        request_id,
        job_id: plan.job_id,
        plan_generation: plan.plan_generation,
        model_generation: plan.model_generation,
        shard_id: index,
        sequence: 1,
        input: demo_input(),
        upstream: seq![1i64, 1],
        learning_rate_micros: 10,
    }
}

/// The backward pass of a shard of a tensor operation.
pub fn demo_tensor_backward(plan: &V4TrainingPlan, request_id: JobId, index: u16) -> (r:
    V4TensorBackward)
    ensures
        r@ == demo_reversed(plan@, request_id, index),
{
    let upstream: Vec<i64> = vec![1, 1];
    assert(upstream@ =~= seq![1i64, 1]);
    V4TensorBackward {
        request_id,
        job_id: plan.job_id,
        plan_generation: plan.plan_generation,
        model_generation: plan.model_generation,
        shard_id: index,
        sequence: 1,
        input: make_demo_input(),
        upstream,
        learning_rate_micros: 10,
    }
}

/// The output of a shard, nothing where it is missing.
pub open spec fn output_of(forwards: Map<u16, V4TensorForwardResultView>, index: u16) -> Seq<i64> {
    if forwards.contains_key(index) {
        forwards[index].output
    } else {
        Seq::empty()
    }
}

fn append_output(out: &mut Vec<i64>, forwards: &OrdMap<V4TensorForwardResult>, index: u16)
    ensures
        final(out)@ == old(out)@ + output_of(forwards@, index),
{
    let ghost before = out@;
    match forwards.get(index) {
        Some(result) => {
            let mut i: usize = 0;
            assert(out@ =~= before + result@.output.take(0));
            while i < result.output.len()
                invariant
                    0 <= i <= result.output@.len(),
                    result@.output == result.output@,
                    out@ == before + result.output@.take(i as int),
                decreases result.output@.len() - i,
            {
                out.push(result.output[i]);
                assert(out@ =~= before + result.output@.take(i as int + 1));
                i += 1;
            }
            assert(result.output@.take(i as int) =~= result.output@);
        },
        None => {
            assert(out@ =~= before + Seq::<i64>::empty());
        },
    }
}

/// The output of a tensor operation: the outputs of its shards in order.
pub fn tensor_demo_output(forwards: &OrdMap<V4TensorForwardResult>) -> (r: Vec<i64>)
    ensures
        r@ == output_of(forwards@, 0) + output_of(forwards@, 1),
{
    let mut out: Vec<i64> = Vec::new();
    append_output(&mut out, forwards, 0);
    assert(out@ =~= output_of(forwards@, 0));
    append_output(&mut out, forwards, 1);
    out
}

/// The number of microbatches of a pipeline operation.
pub fn microbatch_count(microbatches: u16) -> (r: u16)
    ensures
        r == clamp_int(microbatches as int, 1, 8),
{
    if microbatches < 1 {
        1
    } else if microbatches > 8 {
        8
    } else {
        microbatches
    }
}

/// The installation of a stage of a pipeline operation, before its hash is set.
pub open spec fn demo_stage(plan: V4TrainingPlanView, stage_id: u16) -> V4PipelineInstall {
    V4PipelineInstall {
        job_id: plan.job_id,
        plan_generation: plan.plan_generation,
        stage_id,
        stage_count: 2,
        coefficient: function_of(stage_id).0,
        bias: function_of(stage_id).1,
        state_hash: unsigned_hash(),
    }
}

/// The installation of a stage of a pipeline operation, before its hash is set.
pub fn demo_stage_install(plan: &V4TrainingPlan, stage_id: u16) -> (r: V4PipelineInstall)
    requires
        stage_id < 2,
    ensures
        r == demo_stage(plan@, stage_id),
{
    let (coefficient, bias) = stage_function(stage_id);
    V4PipelineInstall {
        job_id: plan.job_id,
        plan_generation: plan.plan_generation,
        stage_id,
        stage_count: 2,
        coefficient,
        bias,
        state_hash: ArtifactId::unsigned(),
    }
}

/// The installed stages of a pipeline operation after an answer.
pub open spec fn demo_stages(
    installed: Map<u16, ArtifactId>,
    plan: V4TrainingPlanView,
    ack: V4PipelineInstallAck,
) -> Map<u16, ArtifactId> {
    if ack.accepted && ack.plan_generation == plan.plan_generation {
        installed.insert(ack.stage_id, ack.state_hash)
    } else {
        installed
    }
}

/// Take in the answer to an installation of a pipeline operation.
pub fn note_demo_stage(
    installed: &mut OrdMap<ArtifactId>,
    plan: &V4TrainingPlan,
    ack: &V4PipelineInstallAck,
)
    ensures
        final(installed)@ == demo_stages(old(installed)@, plan@, *ack),
{
    if ack.accepted && ack.plan_generation == plan.plan_generation {
        installed.insert(ack.stage_id, ack.state_hash);
    }
}

/// The microbatch that enters a pipeline operation at its first stage.
pub open spec fn demo_entering(
    plan: V4TrainingPlanView,
    second_stage: NodeId,
    node: NodeId,
    microbatch: u16,
) -> V4PipelineForwardView {
    V4PipelineForwardView {
        request_id: plan.job_id,
        job_id: plan.job_id,
        plan_generation: plan.plan_generation,
        stage_id: 0,
        stage_count: 2,
        microbatch: microbatch as u32,
        activation: seq![(microbatch + 1) as i64],
        next_stage: Some(second_stage),
        reply_to: node,
        deadline_ms: DEMO_DEADLINE_MS,
    }
}

/// The microbatch that enters a pipeline operation at its first stage.
pub fn demo_pipeline_forward(
    plan: &V4TrainingPlan,
    second_stage: NodeId,
    node: NodeId,
    microbatch: u16,
) -> (r: V4PipelineForward)
    ensures
        r@ == demo_entering(plan@, second_stage, node, microbatch),
{
    let mut activation: Vec<i64> = Vec::new();
    activation.push(microbatch as i64 + 1);
    assert(activation@ =~= seq![(microbatch + 1) as i64]);
    V4PipelineForward {
        request_id: plan.job_id,
        job_id: plan.job_id,
        plan_generation: plan.plan_generation,
        stage_id: 0,
        stage_count: 2,
        microbatch: microbatch as u32,
        activation,
        next_stage: Some(second_stage),
        reply_to: node,
        deadline_ms: DEMO_DEADLINE_MS,
    }
}

/// The gradient that enters a pipeline operation at its second stage.
pub open spec fn demo_returning(
    plan: V4TrainingPlanView,
    first_stage: NodeId,
    node: NodeId,
) -> V4PipelineBackwardView {
    V4PipelineBackwardView {
        request_id: plan.job_id,
        job_id: plan.job_id,
        plan_generation: plan.plan_generation,
        stage_id: 1,
        stage_count: 2,
        microbatch: 0,
        gradient: seq![1i64],
        previous_stage: Some(first_stage),
        reply_to: node,
        deadline_ms: DEMO_DEADLINE_MS,
    }
}

/// The gradient that enters a pipeline operation at its second stage.
pub fn demo_pipeline_backward(plan: &V4TrainingPlan, first_stage: NodeId, node: NodeId) -> (r:
    V4PipelineBackward)
    ensures
        r@ == demo_returning(plan@, first_stage, node),
{
    let mut gradient: Vec<i64> = Vec::new();
    gradient.push(1);
    assert(gradient@ =~= seq![1i64]);
    V4PipelineBackward {
        request_id: plan.job_id,
        job_id: plan.job_id,
        plan_generation: plan.plan_generation,
        stage_id: 1,
        stage_count: 2,
        microbatch: 0,
        gradient,
        previous_stage: Some(first_stage),
        reply_to: node,
        deadline_ms: DEMO_DEADLINE_MS,
    }
}

/// How many results of an ordered list come before the microbatch or with it.
pub open spec fn rank(s: Seq<V4PipelineForwardResultView>, microbatch: u32) -> nat
    decreases s.len(),
{
    if s.len() == 0 || s.last().microbatch <= microbatch {
        s.len()
    } else {
        rank(s.drop_last(), microbatch)
    }
}

/// The results in the order of their microbatches, and those of one microbatch
/// in the order of their arrival.
pub open spec fn in_order(s: Seq<V4PipelineForwardResultView>) -> Seq<V4PipelineForwardResultView>
    decreases s.len(),
{
    if s.len() == 0 {
        s
    } else {
        let before = in_order(s.drop_last());
        before.insert(rank(before, s.last().microbatch) as int, s.last())
    }
}

proof fn lemma_rank(s: Seq<V4PipelineForwardResultView>, microbatch: u32)
    ensures
        rank(s, microbatch) <= s.len(),
        forall|i: int| rank(s, microbatch) <= i < s.len() ==> (#[trigger] s[i]).microbatch > microbatch,
        rank(s, microbatch) > 0 ==> s[rank(s, microbatch) - 1].microbatch <= microbatch,
    decreases s.len(),
{
    if s.len() > 0 && s.last().microbatch > microbatch {
        lemma_rank(s.drop_last(), microbatch);
        assert forall|i: int| rank(s, microbatch) <= i < s.len() implies (
        #[trigger] s[i]).microbatch > microbatch by {
            if i < s.len() - 1 {
                assert(s.drop_last()[i] == s[i]);
            }
        }
    }
}

/// Where a new result goes in an ordered list.
fn place(results: &Vec<V4PipelineForwardResult>, microbatch: u32) -> (r: usize)
    ensures
        r == rank(views(results@), microbatch),
        r <= results@.len(),
{
    let ghost s = views(results@);
    let mut at: usize = results.len();
    assert(s.take(at as int) =~= s);
    while at > 0 && results[at - 1].microbatch > microbatch
        invariant
            0 <= at <= results@.len(),
            s == views(results@),
            rank(s, microbatch) == rank(s.take(at as int), microbatch),
        decreases at,
    {
        proof {
            assert(s.take(at as int).drop_last() =~= s.take(at - 1));
            assert(s.take(at as int).last() == results@[at - 1]@);
        }
        at -= 1;
    }
    proof {
        if at > 0 {
            assert(s.take(at as int).last() == results@[at - 1]@);
        }
    }
    at
}

/// The results of a pipeline operation, ordered by microbatch.
pub fn sort_results(results: Vec<V4PipelineForwardResult>) -> (r: Vec<V4PipelineForwardResult>)
    ensures
        views(r@) == in_order(views(results@)),
{
    let ghost s = views(results@);
    let mut sorted: Vec<V4PipelineForwardResult> = Vec::new();
    let mut i: usize = 0;
    assert(views(sorted@) =~= in_order(s.take(0)));
    while i < results.len()
        invariant
            0 <= i <= results@.len(),
            s == views(results@),
            views(sorted@) == in_order(s.take(i as int)),
        decreases results@.len() - i,
    {
        let result = results[i].duplicate();
        let at: usize = place(&sorted, result.microbatch);
        let ghost before = sorted@;
        sorted.insert(at, result);
        proof {
            assert(s.take(i as int + 1).drop_last() =~= s.take(i as int));
            assert(s.take(i as int + 1).last() == results@[i as int]@);
            assert(views(sorted@) =~= views(before).insert(at as int, result@));
        }
        i += 1;
    }
    assert(s.take(i as int) =~= s);
    sorted
}

/// The results are ordered by microbatch.
pub open spec fn ordered(s: Seq<V4PipelineForwardResultView>) -> bool {
    forall|i: int, j: int|
        0 <= i <= j < s.len() ==> (#[trigger] s[i]).microbatch <= (#[trigger] s[j]).microbatch
}

proof fn lemma_insert_keeps_order(
    before: Seq<V4PipelineForwardResultView>,
    result: V4PipelineForwardResultView,
)
    requires
        ordered(before),
    ensures
        ordered(before.insert(rank(before, result.microbatch) as int, result)),
{
    let at = rank(before, result.microbatch) as int;
    lemma_rank(before, result.microbatch);
    let out = before.insert(at, result);
    assert forall|i: int, j: int| 0 <= i <= j < out.len() implies (#[trigger] out[i]).microbatch
        <= (#[trigger] out[j]).microbatch by {
        if i < at {
            assert(out[i] == before[i]);
            if j == at {
                assert(before[i].microbatch <= before[at - 1].microbatch);
            } else if j > at {
                assert(out[j] == before[j - 1]);
            }
        } else if i == at {
            if j > at {
                assert(out[j] == before[j - 1]);
            }
        } else {
            assert(out[i] == before[i - 1] && out[j] == before[j - 1]);
        }
    }
}

proof fn lemma_insert_multiset(
    before: Seq<V4PipelineForwardResultView>,
    at: int,
    result: V4PipelineForwardResultView,
)
    requires
        0 <= at <= before.len(),
    ensures
        before.insert(at, result).to_multiset() == before.to_multiset().insert(result),
{
    let p = before.subrange(0, at);
    let q = before.subrange(at, before.len() as int);
    assert(before =~= p + q);
    assert(before.insert(at, result) =~= p.push(result) + q);
    vstd::seq_lib::lemma_multiset_commutative(p, q);
    vstd::seq_lib::lemma_multiset_commutative(p.push(result), q);
    p.to_multiset_ensures();
    assert(p.push(result).to_multiset() == p.to_multiset().insert(result));
    assert(before.insert(at, result).to_multiset() =~= before.to_multiset().insert(result));
}

/// The ordered results are the same results, and no later one has an earlier
/// microbatch.
pub proof fn law_results_are_ordered(s: Seq<V4PipelineForwardResultView>)
    ensures
        in_order(s).to_multiset() == s.to_multiset(),
        ordered(in_order(s)),
    decreases s.len(),
{
    if s.len() > 0 {
        let rest = s.drop_last();
        law_results_are_ordered(rest);
        let before = in_order(rest);
        lemma_rank(before, s.last().microbatch);
        lemma_insert_keeps_order(before, s.last());
        lemma_insert_multiset(before, rank(before, s.last().microbatch) as int, s.last());
        rest.to_multiset_ensures();
        assert(s =~= rest.push(s.last()));
    }
}

/// The contribution of a worker to a collective operation: two groups of two,
/// whose aggregators are each other's parents.
pub open spec fn demo_contribution(
    plan: V4TrainingPlanView,
    node: NodeId,
    index: int,
) -> V4CollectiveContributeView {
    let first = index < 2;
    V4CollectiveContributeView {
        request_id: plan.job_id,
        job_id: plan.job_id,
        plan_generation: plan.plan_generation,
        generation: 1,
        group_id: if first {
            0
        } else {
            1
        },
        contributor: plan.workers[index],
        aggregator: if first {
            plan.workers[0]
        } else {
            plan.workers[2]
        },
        parent: Some(
            if first {
                plan.workers[2]
            } else {
                plan.workers[0]
            },
        ),
        expected_contributors: 2,
        expected_groups: 2,
        values: seq![(index + 1) as i64, 1],
        reply_to: node,
    }
}

/// The contribution of a worker to a collective operation.
pub fn collective_demo(plan: &V4TrainingPlan, node: NodeId, index: usize) -> (r:
    V4CollectiveContribute)
    requires
        index < 4,
        plan@.workers.len() >= 4,
    ensures
        r@ == demo_contribution(plan@, node, index as int),
{
    let first = index < 2;
    let mut values: Vec<i64> = Vec::new();
    values.push(index as i64 + 1);
    values.push(1);
    assert(values@ =~= seq![(index + 1) as i64, 1]);
    V4CollectiveContribute {
        request_id: plan.job_id,
        job_id: plan.job_id,
        plan_generation: plan.plan_generation,
        generation: 1,
        group_id: if first {
            0
        } else {
            1
        },
        contributor: plan.workers[index],
        aggregator: if first {
            plan.workers[0]
        } else {
            plan.workers[2]
        },
        parent: Some(
            if first {
                plan.workers[2]
            } else {
                plan.workers[0]
            },
        ),
        expected_contributors: 2,
        expected_groups: 2,
        values,
        reply_to: node,
    }
}

/// The result that a root of a collective operation reported.
#[derive(Debug, PartialEq, Eq)]
pub struct RootResult {
    pub root: NodeId,
    pub result: V4CollectiveResult,
}

/// A root has reported.
pub open spec fn root_reported(results: Seq<RootResult>, root: NodeId) -> bool {
    exists|i: int| 0 <= i < results.len() && (#[trigger] results[i]).root == root
}

/// Take in a result of a collective operation: the first of each of the two
/// roots counts.
pub fn note_root_result(
    results: &mut Vec<RootResult>,
    plan: &V4TrainingPlan,
    peer: NodeId,
    result: V4CollectiveResult,
)
    requires
        plan@.workers.len() >= 4,
    ensures
        final(results)@ == (if result@.request_id == plan@.job_id && (peer == plan@.workers[0]
            || peer == plan@.workers[2]) && !root_reported(old(results)@, peer) {
            old(results)@.push(RootResult { root: peer, result })
        } else {
            old(results)@
        }),
{
    if result.request_id != plan.job_id || (peer != plan.workers[0] && peer != plan.workers[2]) {
        return;
    }
    let mut i: usize = 0;
    while i < results.len()
        invariant
            0 <= i <= results@.len(),
            results@ == old(results)@,
            forall|j: int| 0 <= j < i ==> (#[trigger] results@[j]).root != peer,
        decreases results@.len() - i,
    {
        if results[i].root == peer {
            assert(root_reported(results@, peer));
            return;
        }
        i += 1;
    }
    results.push(RootResult { root: peer, result });
}

/// The two roots reached the same result.
pub open spec fn roots_agree(a: V4CollectiveResultView, b: V4CollectiveResultView) -> bool {
    a.values == b.values && a.generation == b.generation && a.plan_generation == b.plan_generation
}

/// The result of a collective operation: that of the first root in the order of
/// identities, if the other one agrees with it.
pub fn agreed_result(results: &Vec<RootResult>) -> (r: Option<V4CollectiveResult>)
    requires
        results@.len() == 2,
        results@[0].root != results@[1].root,
    ensures
        ({
            let a = results@[0];
            let b = results@[1];
            match r {
                Some(result) => roots_agree(a.result@, b.result@) && result@ == (
                if crate::base::ids::id_lt(a.root, b.root) {
                    a.result@
                } else {
                    b.result@
                }),
                None => !roots_agree(a.result@, b.result@),
            }
        }),
{
    let a = &results[0];
    let b = &results[1];
    if a.result.generation != b.result.generation || a.result.plan_generation
        != b.result.plan_generation || !same_values(&a.result.values, &b.result.values) {
        return None;
    }
    if a.root.precedes(&b.root) {
        Some(a.result.duplicate())
    } else {
        Some(b.result.duplicate())
    }
}

/// Whether an aggregation operation has three to sixteen workers, not all of
/// them malicious.
pub fn valid_byzantine_group(workers: &Vec<NodeId>, malicious: usize) -> (r: bool)
    ensures
        r == (3 <= workers@.len() <= MAX_PLAN_WORKERS && malicious < workers@.len()),
{
    workers.len() >= 3 && workers.len() <= MAX_PLAN_WORKERS && malicious < workers.len()
}

/// The values that a worker of an aggregation operation sends.
pub open spec fn demo_values(index: int, malicious: int) -> Seq<i64> {
    if index < malicious {
        seq![-1000i64, -1000i64]
    } else {
        seq![(10 + index) as i64, 10]
    }
}

/// The update of a worker of an aggregation operation.
pub open spec fn demo_updated(
    plan: V4TrainingPlanView,
    node: NodeId,
    workers: Seq<NodeId>,
    index: int,
    malicious: int,
    policy: V4ByzantinePolicy,
) -> V4ByzantineUpdateView {
    V4ByzantineUpdateView {
        request_id: plan.job_id,
        job_id: plan.job_id,
        plan_generation: plan.plan_generation,
        generation: 1,
        worker: workers[index],
        aggregator: workers[0],
        sequence: 1,
        values: demo_values(index, malicious),
        policy,
        expected_updates: workers.len() as u16,
        reply_to: node,
    }
}

fn demo_update(
    plan: &V4TrainingPlan,
    node: NodeId,
    workers: &Vec<NodeId>,
    index: usize,
    malicious: usize,
    policy: V4ByzantinePolicy,
) -> (r: V4ByzantineUpdate)
    requires
        index < workers@.len() <= MAX_PLAN_WORKERS,
    ensures
        r@ == demo_updated(plan@, node, workers@, index as int, malicious as int, policy),
{
    let mut values: Vec<i64> = Vec::new();
    if index < malicious {
        values.push(-1000);
        values.push(-1000);
    } else {
        values.push(10 + index as i64);
        values.push(10);
    }
    assert(values@ =~= demo_values(index as int, malicious as int));
    V4ByzantineUpdate {
        request_id: plan.job_id,
        job_id: plan.job_id,
        plan_generation: plan.plan_generation,
        generation: 1,
        worker: workers[index],
        aggregator: workers[0],
        sequence: 1,
        values,
        policy,
        expected_updates: workers.len() as u16,
        reply_to: node,
    }
}

/// Every value moved up by one.
pub open spec fn shifted(values: Seq<i64>) -> Seq<i64> {
    values.map_values(|v: i64| sat_i64(v + 1) as i64)
}

/// A second update of a malicious worker that contradicts its first one.
pub open spec fn contradicted(update: V4ByzantineUpdateView) -> V4ByzantineUpdateView {
    V4ByzantineUpdateView { values: shifted(update.values), ..update }
}

fn conflicting_update(update: &V4ByzantineUpdate) -> (r: V4ByzantineUpdate)
    ensures
        r@ == contradicted(update@),
{
    let mut values: Vec<i64> = Vec::new();
    let mut i: usize = 0;
    while i < update.values.len()
        invariant
            0 <= i <= update.values@.len(),
            values@ == shifted(update.values@).take(i as int),
        decreases update.values@.len() - i,
    {
        values.push(sat_add_i64(update.values[i], 1));
        assert(values@ =~= shifted(update.values@).take(i as int + 1));
        i += 1;
    }
    assert(shifted(update.values@).take(i as int) =~= shifted(update.values@));
    let mut conflicting = update.duplicate();
    conflicting.values = values;
    conflicting
}

/// What one worker of an aggregation operation is sent to pass on: its update,
/// and to a malicious one the same update again and a contradicting one.
pub open spec fn worker_updates(
    plan: V4TrainingPlanView,
    node: NodeId,
    workers: Seq<NodeId>,
    index: int,
    malicious: int,
    policy: V4ByzantinePolicy,
) -> Seq<V4ByzantineUpdateView> {
    let update = demo_updated(plan, node, workers, index, malicious, policy);
    if index < malicious {
        seq![update, update, contradicted(update)]
    } else {
        seq![update]
    }
}

/// What the first `count` workers of an aggregation operation are sent.
pub open spec fn all_updates(
    plan: V4TrainingPlanView,
    node: NodeId,
    workers: Seq<NodeId>,
    count: int,
    malicious: int,
    policy: V4ByzantinePolicy,
) -> Seq<V4ByzantineUpdateView>
    decreases count,
{
    if count <= 0 {
        Seq::empty()
    } else {
        all_updates(plan, node, workers, count - 1, malicious, policy) + worker_updates(
            plan,
            node,
            workers,
            count - 1,
            malicious,
            policy,
        )
    }
}

/// The updates of an aggregation operation, each for its worker to pass on.
pub fn byzantine_demo(
    plan: &V4TrainingPlan,
    node: NodeId,
    workers: &Vec<NodeId>,
    malicious: usize,
    policy: V4ByzantinePolicy,
) -> (r: Vec<V4ByzantineUpdate>)
    requires
        workers@.len() <= MAX_PLAN_WORKERS,
    ensures
        views(r@) == all_updates(
            plan@,
            node,
            workers@,
            workers@.len() as int,
            malicious as int,
            policy,
        ),
{
    let mut out: Vec<V4ByzantineUpdate> = Vec::new();
    let mut i: usize = 0;
    assert(views(out@) =~= Seq::<V4ByzantineUpdateView>::empty());
    while i < workers.len()
        invariant
            0 <= i <= workers@.len() <= MAX_PLAN_WORKERS,
            views(out@) == all_updates(
                plan@,
                node,
                workers@,
                i as int,
                malicious as int,
                policy,
            ),
        decreases workers@.len() - i,
    {
        let ghost before = views(out@);
        let update = demo_update(plan, node, workers, i, malicious, policy);
        let ghost u = update@;
        if i < malicious {
            let again = update.duplicate();
            let conflicting = conflicting_update(&update);
            proof {
                lemma_views_push(out@, update);
                lemma_views_push(out@.push(update), again);
                lemma_views_push(out@.push(update).push(again), conflicting);
            }
            out.push(update);
            out.push(again);
            out.push(conflicting);
            assert(before.push(u).push(u).push(contradicted(u)) =~= before + seq![
                u,
                u,
                contradicted(u),
            ]);
        } else {
            proof {
                lemma_views_push(out@, update);
            }
            out.push(update);
            assert(before.push(u) =~= before + seq![u]);
        }
        i += 1;
    }
    out
}

/// A contradicting update differs from the first one in its values and in
/// nothing else.
pub proof fn law_conflicting_update_contradicts(update: V4ByzantineUpdateView)
    requires
        exists|i: int| 0 <= i < update.values.len() && (#[trigger] update.values[i]) < i64::MAX,
    ensures
        shifted(update.values) != update.values,
{
    let i = choose|i: int| 0 <= i < update.values.len() && (#[trigger] update.values[i]) < i64::MAX;
    assert(shifted(update.values)[i] == update.values[i] + 1);
}

/// The owners of a tensor operation are the first owners of the plan's two shards.
pub proof fn law_demo_owners_are_planned(plan: V4TrainingPlanView)
    ensures
        planned_owners(plan) matches Ok((first, second)) ==> {
            &&& plan.shards.len() == 2
            &&& exists|i: int|
                0 <= i < 2 && (#[trigger] plan.shards[i]).shard_id == 0
                    && plan.shards[i].owners.len() > 0 && plan.shards[i].owners[0] == first
            &&& exists|i: int|
                0 <= i < 2 && (#[trigger] plan.shards[i]).shard_id == 1
                    && plan.shards[i].owners.len() > 0 && plan.shards[i].owners[0] == second
        },
        plan.shards.len() == 2 && plan.shards[0].shard_id == 0 && plan.shards[1].shard_id == 1
            && plan.shards[0].owners.len() > 0 && plan.shards[1].owners.len() > 0
            ==> planned_owners(plan) == Ok::<_, TensorDemoError>(
            (plan.shards[0].owners[0], plan.shards[1].owners[0]),
        ),
{
    crate::base::search::lemma_find_sound(plan.shards, numbered(0));
    crate::base::search::lemma_find_sound(plan.shards, numbered(1));
    if planned_owners(plan) is Ok {
        let a = find(plan.shards, numbered(0))->0;
        let b = find(plan.shards, numbered(1))->0;
        let i = plan.shards.index_of(a);
        let j = plan.shards.index_of(b);
        assert(plan.shards[i].shard_id == 0);
        assert(plan.shards[j].shard_id == 1);
    }
    if plan.shards.len() == 2 && plan.shards[0].shard_id == 0 && plan.shards[1].shard_id == 1 {
        crate::base::search::lemma_find_at(plan.shards, numbered(0), 0);
        crate::base::search::lemma_find_at(plan.shards, numbered(1), 1);
    }
}

/// The messages of a tensor operation are of its plan: a shard of two rows of four weights,
/// the input from one to four, errors of one, and a rate of ten millionths.
pub proof fn law_tensor_demo_messages(plan: V4TrainingPlanView, request_id: JobId, index: u16, k: int)
    requires
        index <= 1,
        0 <= k < 4,
    ensures
        ({
            let m = demo_installed(plan, index);
            &&& m.job_id == plan.job_id && m.plan_generation == plan.plan_generation
            &&& m.model_generation == plan.model_generation && m.shard_id == index
            &&& m.rows == 2 && m.cols == 4 && m.row_offset == 2 * index
            &&& m.weights.len() == 8
        }),
        ({
            let m = demo_forwarded(plan, request_id, index);
            &&& m.request_id == request_id && m.job_id == plan.job_id
            &&& m.plan_generation == plan.plan_generation && m.shard_id == index
            &&& m.model_generation == plan.model_generation && m.sequence == 1
            &&& m.input.len() == 4 && m.input[k] == k + 1
        }),
        ({
            let m = demo_reversed(plan, request_id, index);
            &&& m.request_id == request_id && m.job_id == plan.job_id
            &&& m.plan_generation == plan.plan_generation && m.shard_id == index
            &&& m.model_generation == plan.model_generation && m.sequence == 1
            &&& m.input.len() == 4 && m.input[k] == k + 1
            &&& m.upstream.len() == 2 && m.upstream[0] == 1 && m.upstream[1] == 1
            &&& m.learning_rate_micros == 10
        }),
{
}

/// An installation counts when it was accepted under this plan, with the hash that was
/// reported.
pub proof fn law_demo_installations_count(
    installed: Map<u16, ArtifactId>,
    plan: V4TrainingPlanView,
    ack: V4TensorInstallAck,
    stage: V4PipelineInstallAck,
)
    ensures
        ack.accepted && ack.plan_generation == plan.plan_generation ==> demo_shards(
            installed,
            plan,
            ack,
        ) == installed.insert(ack.shard_id, ack.state_hash),
        !ack.accepted || ack.plan_generation != plan.plan_generation ==> demo_shards(
            installed,
            plan,
            ack,
        ) == installed,
        stage.accepted && stage.plan_generation == plan.plan_generation ==> demo_stages(
            installed,
            plan,
            stage,
        ) == installed.insert(stage.stage_id, stage.state_hash),
        !stage.accepted || stage.plan_generation != plan.plan_generation ==> demo_stages(
            installed,
            plan,
            stage,
        ) == installed,
{
}

/// The messages of a pipeline operation are of its plan: microbatches enter the first of
/// two stages with one more than their number, the gradient of one the second.
pub proof fn law_pipeline_demo_messages(
    plan: V4TrainingPlanView,
    first: NodeId,
    second: NodeId,
    node: NodeId,
    microbatch: u16,
)
    ensures
        ({
            let m = demo_entering(plan, second, node, microbatch);
            &&& m.request_id == plan.job_id && m.job_id == plan.job_id
            &&& m.plan_generation == plan.plan_generation
            &&& m.stage_id == 0 && m.stage_count == 2 && m.microbatch == microbatch
            &&& m.activation.len() == 1 && m.activation[0] == microbatch + 1
            &&& m.next_stage == Some(second) && m.reply_to == node && m.deadline_ms == 4_000
        }),
        ({
            let m = demo_returning(plan, first, node);
            &&& m.request_id == plan.job_id && m.job_id == plan.job_id
            &&& m.plan_generation == plan.plan_generation
            &&& m.stage_id == 1 && m.stage_count == 2 && m.microbatch == 0
            &&& m.gradient.len() == 1 && m.gradient[0] == 1
            &&& m.previous_stage == Some(first) && m.reply_to == node && m.deadline_ms == 4_000
        }),
        ({
            let a = demo_stage(plan, 0);
            let b = demo_stage(plan, 1);
            &&& a.job_id == plan.job_id && a.plan_generation == plan.plan_generation
            &&& a.stage_id == 0 && b.stage_id == 1 && a.stage_count == 2 && b.stage_count == 2
        }),
{
}

/// Of four workers the first two contribute to the first group and the last two to the
/// second, led by the first of each, each group the parent of the other; a worker
/// contributes its place and a one.
pub proof fn law_collective_demo_contributions(plan: V4TrainingPlanView, node: NodeId, index: int)
    requires
        plan.workers.len() >= 4,
        0 <= index < 4,
    ensures
        ({
            let c = demo_contribution(plan, node, index);
            &&& c.request_id == plan.job_id && c.job_id == plan.job_id
            &&& c.plan_generation == plan.plan_generation && c.generation == 1
            &&& c.contributor == plan.workers[index]
            &&& index <= 1 ==> c.group_id == 0 && c.aggregator == plan.workers[0] && c.parent
                == Some(plan.workers[2])
            &&& index >= 2 ==> c.group_id == 1 && c.aggregator == plan.workers[2] && c.parent
                == Some(plan.workers[0])
            &&& c.expected_contributors == 2 && c.expected_groups == 2
            &&& c.values.len() == 2 && c.values[0] == index + 1 && c.values[1] == 1
            &&& c.reply_to == node
        }),
{
}

/// The two roots agree exactly when they report the same values of the same generations.
pub proof fn law_roots_that_agree(a: V4CollectiveResultView, b: V4CollectiveResultView)
    ensures
        roots_agree(a, b) <==> a.values == b.values && a.generation == b.generation
            && a.plan_generation == b.plan_generation,
        roots_agree(a, b) == roots_agree(b, a),
{
}

/// In an aggregation operation the first workers are the malicious ones, with values far
/// out, and send their update twice and then one that contradicts it; an honest worker
/// sends one update with its place added to ten.
pub proof fn law_aggregation_demo_updates(
    plan: V4TrainingPlanView,
    node: NodeId,
    workers: Seq<NodeId>,
    index: int,
    malicious: int,
    policy: V4ByzantinePolicy,
)
    requires
        0 <= index < workers.len() <= 16,
    ensures
        ({
            let u = demo_updated(plan, node, workers, index, malicious, policy);
            let sent = worker_updates(plan, node, workers, index, malicious, policy);
            &&& u.request_id == plan.job_id && u.job_id == plan.job_id
            &&& u.plan_generation == plan.plan_generation && u.generation == 1 && u.sequence == 1
            &&& u.worker == workers[index] && u.aggregator == workers[0]
            &&& u.policy == policy && u.expected_updates == workers.len() && u.reply_to == node
            &&& u.values.len() == 2
            &&& index < malicious ==> u.values[0] == -1_000 && u.values[1] == -1_000
            &&& index >= malicious ==> u.values[0] == 10 + index && u.values[1] == 10
            &&& index < malicious ==> sent.len() == 3 && sent[0] == u && sent[1] == u
                && sent[2].worker == u.worker && sent[2].sequence == u.sequence
                && sent[2].values.len() == 2 && sent[2].values[0] == -999
            &&& index >= malicious ==> sent.len() == 1 && sent[0] == u
        }),
{
}

/// The updates of the workers follow each other, worker by worker.
pub proof fn law_all_workers_send_updates(
    plan: V4TrainingPlanView,
    node: NodeId,
    workers: Seq<NodeId>,
    count: int,
    malicious: int,
    policy: V4ByzantinePolicy,
)
    requires
        0 <= malicious,
        0 <= count,
    ensures
        all_updates(plan, node, workers, count, malicious, policy).len() == (if count <= malicious {
            3 * count
        } else {
            3 * malicious + (count - malicious)
        }),
        count > 0 ==> all_updates(plan, node, workers, count, malicious, policy) == all_updates(
            plan,
            node,
            workers,
            count - 1,
            malicious,
            policy,
        ) + worker_updates(plan, node, workers, count - 1, malicious, policy),
    decreases count,
{
    if count > 0 {
        law_all_workers_send_updates(plan, node, workers, count - 1, malicious, policy);
    }
}

/// The stages of a pipeline operation double and add one, and triple and add two.
pub proof fn law_demo_stages_compute(plan: V4TrainingPlanView)
    ensures
        demo_stage(plan, 0).coefficient == 2 && demo_stage(plan, 0).bias == 1,
        demo_stage(plan, 1).coefficient == 3 && demo_stage(plan, 1).bias == 2,
        demo_stage(plan, 1).job_id == plan.job_id,
        demo_stage(plan, 1).plan_generation == plan.plan_generation,
{
}

} // verus!
