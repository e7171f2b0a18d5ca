//! The tensor part of a window: the installation of a graph's shards, and the
//! forward and backward passes that the coordinator asks for.

use crate::base::arith::{sat_i64, sat_sub_i64};
use crate::base::ids::{unsigned_hash, ArtifactId, JobId, NodeId};
use crate::base::ordered::OrdMap;
use crate::base::search::views;
use crate::frontier::dataplane::{
    V4TensorBackward, V4TensorBackwardResult, V4TensorBackwardView, V4TensorForward,
    V4TensorForwardResult, V4TensorForwardView, V4TensorInstall, V4TensorInstallView,
    V4TensorReplica, V4TensorReplicaView,
};
use crate::frontier::integrated::{integrated_tensor_layout, tensor_layout};
use crate::frontier::tensor::{round_sequence, sequence_of};
use crate::frontier::types::{
    V4ExecutionGraph, V4ExecutionGraphView, V4ShardOwnership, V4ShardOwnershipView, V4TrainingPlan,
    V4TrainingPlanView,
};
use crate::frontier::waiting::NumberSet;
use vstd::prelude::*;

verus! {

/// The output that every row is trained toward.
pub const TARGET_OUTPUT: i64 = 32;

/// The rate at which an owner updates its shard, in micro-units.
pub const ROUND_RATE_MICROS: u32 = 10_000;

/// The installation of a shard of a graph, before its hash is set.
pub open spec fn first_install(
    graph: V4ExecutionGraphView,
    plan: V4TrainingPlanView,
    shard: V4ShardOwnershipView,
) -> V4TensorInstallView {
    let layout = tensor_layout(shard.shard_id, graph.shards.len() as int);
    V4TensorInstallView {
        job_id: graph.job_id,
        plan_generation: plan.plan_generation,
        model_generation: shard.model_generation,
        shard_id: shard.shard_id,
        rows: layout.1,
        cols: layout.2,
        row_offset: layout.3,
        weights: layout.0,
        state_hash: unsigned_hash(),
    }
}

pub fn integrated_install(
    graph: &V4ExecutionGraph,
    plan: &V4TrainingPlan,
    shard: &V4ShardOwnership,
) -> (r: V4TensorInstall)
    ensures
        r@ == first_install(graph@, plan@, shard@),
{
    let (weights, rows, cols, row_offset) = integrated_tensor_layout(
        shard.shard_id,
        graph.shards.len(),
    );
    V4TensorInstall {
        job_id: graph.job_id,
        plan_generation: plan.plan_generation,
        model_generation: shard.model_generation,
        shard_id: shard.shard_id,
        rows,
        cols,
        row_offset,
        weights,
        state_hash: ArtifactId::unsigned(),
    }
}

/// The copy of an installation for a replica.
pub open spec fn install_copy_of(
    install: V4TensorInstallView,
    shard: V4ShardOwnershipView,
    owner: NodeId,
) -> V4TensorReplicaView {
    V4TensorReplicaView {
        job_id: install.job_id,
        plan_generation: install.plan_generation,
        model_generation: install.model_generation,
        shard_id: install.shard_id,
        rows: install.rows,
        cols: install.cols,
        row_offset: install.row_offset,
        weights: install.weights,
        state_hash: install.state_hash,
        state_generation: 1,
        last_sequence: 0,
        ownership_generation: shard.ownership_generation,
        source: owner,
    }
}

pub fn install_copy(install: &V4TensorInstall, shard: &V4ShardOwnership, owner: NodeId) -> (r:
    V4TensorReplica)
    ensures
        r@ == install_copy_of(install@, shard@, owner),
{
    V4TensorReplica {
        job_id: install.job_id,
        plan_generation: install.plan_generation,
        model_generation: install.model_generation,
        shard_id: install.shard_id,
        rows: install.rows,
        cols: install.cols,
        row_offset: install.row_offset,
        weights: install.weights.clone(),
        state_hash: install.state_hash,
        state_generation: 1,
        last_sequence: 0,
        ownership_generation: shard.ownership_generation,
        source: owner,
    }
}

/// The input of every forward pass.
pub open spec fn round_input() -> Seq<i64> {
    seq![2i64, 4i64, 6i64, 8i64]
}

pub fn tensor_input() -> (r: Vec<i64>)
    ensures
        r@ == round_input(),
{
    let r: Vec<i64> = vec![2, 4, 6, 8];
    assert(r@ =~= round_input());
    r
}

/// A running tensor round.
#[derive(Debug)]
pub struct TensorRound {
    pub request_id: JobId,
    pub plan_generation: u64,
    pub sequence: u64,
    /// The shards whose owners have not answered.
    pub pending: NumberSet,
    /// The outputs of the forward pass.
    pub outputs: OrdMap<Vec<i64>>,
    /// The hashes of the shards after the backward pass.
    pub state_hashes: OrdMap<ArtifactId>,
    /// The hashes of the optimizer states after the backward pass.
    pub optimizer_hashes: OrdMap<ArtifactId>,
}

/// The contents of a [`TensorRound`].
#[verifier::ext_equal]
pub struct TensorRoundView {
    pub request_id: JobId,
    pub plan_generation: u64,
    pub sequence: u64,
    pub pending: Set<u32>,
    pub outputs: Map<u16, Seq<i64>>,
    pub state_hashes: Map<u16, ArtifactId>,
    pub optimizer_hashes: Map<u16, ArtifactId>,
}

impl View for TensorRound {
    type V = TensorRoundView;

    open spec fn view(&self) -> TensorRoundView {
        TensorRoundView {
            request_id: self.request_id,
            plan_generation: self.plan_generation,
            sequence: self.sequence,
            pending: self.pending@,
            outputs: self.outputs@,
            state_hashes: self.state_hashes@,
            optimizer_hashes: self.optimizer_hashes@,
        }
    }
}

/// Begin the tensor round of a window.
pub fn begin_tensor_round(
    graph: &V4ExecutionGraph,
    plan: &V4TrainingPlan,
    request_id: JobId,
    window: u64,
) -> (r: TensorRound)
    ensures
        r@ == (TensorRoundView {
            request_id,
            plan_generation: plan@.plan_generation,
            sequence: sequence_of(graph@.graph_generation, window),
            pending: Set::empty(),
            outputs: Map::empty(),
            state_hashes: Map::empty(),
            optimizer_hashes: Map::empty(),
        }),
{
    TensorRound {
        request_id,
        plan_generation: plan.plan_generation,
        sequence: round_sequence(graph.graph_generation, window),
        pending: NumberSet::new(),
        outputs: OrdMap::new(),
        state_hashes: OrdMap::new(),
        optimizer_hashes: OrdMap::new(),
    }
}

/// The question to the owner of a shard.
pub open spec fn forward_question(
    round: TensorRoundView,
    job_id: JobId,
    shard: V4ShardOwnershipView,
) -> V4TensorForwardView {
    V4TensorForwardView {
        request_id: round.request_id,
        job_id,
        plan_generation: round.plan_generation,
        model_generation: shard.model_generation,
        shard_id: shard.shard_id,
        sequence: round.sequence,
        input: round_input(),
    }
}

pub fn forward_request(round: &TensorRound, job_id: JobId, shard: &V4ShardOwnership) -> (r:
    V4TensorForward)
    ensures
        r@ == forward_question(round@, job_id, shard@),
{
    V4TensorForward {
        request_id: round.request_id,
        job_id,
        plan_generation: round.plan_generation,
        model_generation: shard.model_generation,
        shard_id: shard.shard_id,
        sequence: round.sequence,
        input: tensor_input(),
    }
}

/// The owner of a shard was asked.
pub fn owner_asked(round: &mut TensorRound, shard_id: u16)
    ensures
        final(round)@ == (TensorRoundView {
            pending: old(round)@.pending.insert(shard_id as u32),
            ..old(round)@
        }),
{
    round.pending.insert(shard_id as u32);
}

/// The output of a shard on this node.
pub fn local_output(round: &mut TensorRound, shard_id: u16, output: Vec<i64>)
    ensures
        final(round)@ == (TensorRoundView {
            outputs: old(round)@.outputs.insert(shard_id, output@),
            ..old(round)@
        }),
{
    round.outputs.insert(shard_id, output);
}

/// An answer to this round, for a shard that is awaited.
pub open spec fn awaited_by(
    round: TensorRoundView,
    request_id: JobId,
    plan_generation: u64,
    shard_id: u16,
) -> bool {
    request_id == round.request_id && plan_generation == round.plan_generation
        && round.pending.contains(shard_id as u32)
}

/// Take in the output of a shard.
pub fn note_forward_result(round: &mut TensorRound, result: V4TensorForwardResult)
    ensures
        final(round)@ == (if awaited_by(
            old(round)@,
            result@.request_id,
            result@.plan_generation,
            result@.shard_id,
        ) {
            TensorRoundView {
                pending: old(round)@.pending.remove(result@.shard_id as u32),
                outputs: old(round)@.outputs.insert(result@.shard_id, result@.output),
                ..old(round)@
            }
        } else {
            old(round)@
        }),
{
    if result.request_id == round.request_id && result.plan_generation == round.plan_generation {
        let ghost before = round.pending@;
        if round.pending.remove(result.shard_id as u32) {
            round.outputs.insert(result.shard_id, result.output);
        } else {
            assert(round.pending@ =~= before);
        }
    }
}

/// Whether every owner has answered.
pub fn owners_answered(round: &TensorRound) -> (r: bool)
    ensures
        r == (round@.pending == Set::<u32>::empty()),
{
    round.pending.is_empty()
}

/// How far an output is from its target.
pub open spec fn error_of(value: i64) -> i64 {
    sat_i64(value - TARGET_OUTPUT) as i64
}

/// The errors of the outputs of a shard.
pub open spec fn errors_of(values: Seq<i64>) -> Seq<i64> {
    values.map_values(|v: i64| error_of(v))
}

/// The sum of the squared errors of the outputs of a shard.
pub open spec fn squares(values: Seq<i64>) -> int
    decreases values.len(),
{
    if values.len() == 0 {
        0
    } else {
        squares(values.drop_last()) + error_of(values.last()) * error_of(values.last())
    }
}

/// The sum of the squared errors of all shards that have outputs.
pub open spec fn total_squares(
    shards: Seq<V4ShardOwnershipView>,
    outputs: Map<u16, Seq<i64>>,
) -> int
    decreases shards.len(),
{
    if shards.len() == 0 {
        0
    } else {
        let id = shards.last().shard_id;
        total_squares(shards.drop_last(), outputs) + if outputs.contains_key(id) {
            squares(outputs[id])
        } else {
            0
        }
    }
}

/// The errors of every shard.
pub open spec fn error_table(
    shards: Seq<V4ShardOwnershipView>,
    outputs: Map<u16, Seq<i64>>,
) -> Map<u16, Seq<i64>>
    decreases shards.len(),
{
    if shards.len() == 0 {
        Map::empty()
    } else {
        let id = shards.last().shard_id;
        error_table(shards.drop_last(), outputs).insert(id, errors_of(outputs[id]))
    }
}

/// Every shard has outputs.
pub open spec fn all_present(
    shards: Seq<V4ShardOwnershipView>,
    outputs: Map<u16, Seq<i64>>,
) -> bool {
    forall|i: int| 0 <= i < shards.len() ==> outputs.contains_key((#[trigger] shards[i]).shard_id)
}

proof fn lemma_square(e: i64)
    ensures
        0 <= e * e <= 0x4000_0000_0000_0000_0000_0000_0000_0000,
{
    assert(0 <= e * e <= 0x4000_0000_0000_0000_0000_0000_0000_0000) by (nonlinear_arith)
        requires
            -0x8000_0000_0000_0000 <= e < 0x8000_0000_0000_0000,
    ;
}

proof fn lemma_squares_grow(values: Seq<i64>, n: int)
    requires
        0 <= n <= values.len(),
    ensures
        0 <= squares(values.take(n)) <= squares(values),
    decreases values.len(),
{
    if n == values.len() {
        assert(values.take(n) =~= values);
        if values.len() > 0 {
            lemma_squares_grow(values.drop_last(), values.len() - 1);
            assert(values.drop_last().take(values.len() - 1) =~= values.drop_last());
            lemma_square(error_of(values.last()));
        }
    } else {
        lemma_squares_grow(values.drop_last(), n);
        assert(values.drop_last().take(n) =~= values.take(n));
        lemma_square(error_of(values.last()));
    }
}

/// The squared errors of more shards never sum up to less.
pub proof fn lemma_total_grows(
    shards: Seq<V4ShardOwnershipView>,
    outputs: Map<u16, Seq<i64>>,
    n: int,
)
    requires
        0 <= n <= shards.len(),
    ensures
        0 <= total_squares(shards.take(n), outputs) <= total_squares(shards, outputs),
    decreases shards.len(),
{
    if shards.len() > 0 {
        let id = shards.last().shard_id;
        if outputs.contains_key(id) {
            lemma_squares_grow(outputs[id], 0);
        }
        if n == shards.len() {
            assert(shards.take(n) =~= shards);
            lemma_total_grows(shards.drop_last(), outputs, n - 1);
        } else {
            assert(shards.drop_last().take(n) =~= shards.take(n));
            lemma_total_grows(shards.drop_last(), outputs, n);
        }
    } else {
        assert(shards.take(n) =~= shards);
    }
}

/// The largest sum of squares that can be held.
pub const SQUARES_LIMIT: u128 = 0x7fff_ffff_ffff_ffff_ffff_ffff_ffff_ffff;

/// The sum of squares so far plus those of `values`, unless it exceeds the
/// limit.
fn add_squares(sum: u128, values: &Vec<i64>) -> (r: Option<u128>)
    requires
        sum <= SQUARES_LIMIT,
    ensures
        match r {
            Some(total) => total == sum + squares(values@) && total <= SQUARES_LIMIT,
            None => sum + squares(values@) > SQUARES_LIMIT,
        },
{
    let mut total: u128 = sum;
    let mut i: usize = 0;
    while i < values.len()
        invariant
            0 <= i <= values@.len(),
            sum <= SQUARES_LIMIT,
            total <= SQUARES_LIMIT,
            total == sum + squares(values@.take(i as int)),
        decreases values@.len() - i,
    {
        let error: i64 = sat_sub_i64(values[i], TARGET_OUTPUT);
        proof {
            lemma_square(error);
            assert(values@.take(i as int + 1).drop_last() =~= values@.take(i as int));
            assert(values@.take(i as int + 1).last() == values@[i as int]);
            lemma_squares_grow(values@, i as int + 1);
        }
        let square: i128 = error as i128 * error as i128;
        let next: u128 = total + square as u128;
        if next > SQUARES_LIMIT {
            return None;
        }
        total = next;
        i += 1;
    }
    assert(values@.take(i as int) =~= values@);
    Some(total)
}

/// Whether the sum of the squared errors can be held.
pub fn errors_fit(graph: &V4ExecutionGraph, outputs: &OrdMap<Vec<i64>>) -> (r: bool)
    ensures
        r == (total_squares(graph@.shards, outputs@) <= SQUARES_LIMIT),
{
    let ghost s = graph@.shards;
    let mut total: u128 = 0;
    let mut i: usize = 0;
    while i < graph.shards.len()
        invariant
            0 <= i <= graph.shards@.len(),
            s == views(graph.shards@),
            s == graph@.shards,
            total <= SQUARES_LIMIT,
            total == total_squares(s.take(i as int), outputs@),
        decreases graph.shards@.len() - i,
    {
        proof {
            assert(s.take(i as int + 1).drop_last() =~= s.take(i as int));
            assert(s.take(i as int + 1).last() == graph.shards@[i as int]@);
            lemma_total_grows(s, outputs@, i as int + 1);
        }
        match outputs.get(graph.shards[i].shard_id) {
            Some(values) => {
                match add_squares(total, values) {
                    Some(sum) => {
                        total = sum;
                    },
                    None => {
                        return false;
                    },
                }
            },
            None => {},
        }
        i += 1;
    }
    assert(s.take(i as int) =~= s);
    true
}

fn errors_of_values(values: &Vec<i64>) -> (r: Vec<i64>)
    ensures
        r@ == errors_of(values@),
{
    let mut out: Vec<i64> = Vec::new();
    let mut i: usize = 0;
    while i < values.len()
        invariant
            0 <= i <= values@.len(),
            out@ == errors_of(values@).take(i as int),
        decreases values@.len() - i,
    {
        out.push(sat_sub_i64(values[i], TARGET_OUTPUT));
        assert(out@ =~= errors_of(values@).take(i as int + 1));
        i += 1;
    }
    assert(out@ =~= errors_of(values@));
    out
}

/// A shard has no outputs.
#[derive(Clone, Copy, Debug, PartialEq, Eq, Structural)]
pub struct MissingOutput {
    pub shard_id: u16,
}

/// The loss of a forward pass, and the errors to send back for each shard. The
/// loss is cut off where it exceeds 64 bits.
pub fn tensor_errors(graph: &V4ExecutionGraph, outputs: &OrdMap<Vec<i64>>) -> (r: Result<
    (i64, OrdMap<Vec<i64>>),
    MissingOutput,
>)
    requires
        total_squares(graph@.shards, outputs@) <= SQUARES_LIMIT,
    ensures
        match r {
            Ok((loss, errors)) => {
                &&& all_present(graph@.shards, outputs@)
                &&& loss == crate::base::arith::min_int(
                    total_squares(graph@.shards, outputs@),
                    i64::MAX as int,
                )
                &&& errors@ == error_table(graph@.shards, outputs@)
            },
            Err(missing) => !all_present(graph@.shards, outputs@) && !outputs@.contains_key(
                missing.shard_id,
            ),
        },
{
    let ghost s = graph@.shards;
    let mut total: u128 = 0;
    let mut errors: OrdMap<Vec<i64>> = OrdMap::new();
    let mut i: usize = 0;
    while i < graph.shards.len()
        invariant
            0 <= i <= graph.shards@.len(),
            s == views(graph.shards@),
            s == graph@.shards,
            total_squares(s, outputs@) <= SQUARES_LIMIT,
            total <= SQUARES_LIMIT,
            total == total_squares(s.take(i as int), outputs@),
            errors@ == error_table(s.take(i as int), outputs@),
            forall|j: int|
                0 <= j < i ==> outputs@.contains_key((#[trigger] s[j]).shard_id),
        decreases graph.shards@.len() - i,
    {
        proof {
            assert(s.take(i as int + 1).drop_last() =~= s.take(i as int));
            assert(s.take(i as int + 1).last() == graph.shards@[i as int]@);
            assert(s[i as int] == graph.shards@[i as int]@);
            lemma_total_grows(s, outputs@, i as int + 1);
        }
        let id: u16 = graph.shards[i].shard_id;
        match outputs.get(id) {
            None => {
                return Err(MissingOutput { shard_id: id });
            },
            Some(values) => {
                match add_squares(total, values) {
                    Some(sum) => {
                        total = sum;
                    },
                    None => {
                        assert(false);
                    },
                }
                errors.insert(id, errors_of_values(values));
            },
        }
        i += 1;
    }
    assert(s.take(i as int) =~= s);
    let loss: i64 = if total > i64::MAX as u128 {
        i64::MAX
    } else {
        total as i64
    };
    Ok((loss, errors))
}

/// The loss is never negative, and it is zero exactly when every output is the
/// target.
pub proof fn law_loss_measures_distance(values: Seq<i64>)
    ensures
        squares(values) >= 0,
        squares(values) == 0 <==> forall|i: int|
            0 <= i < values.len() ==> #[trigger] values[i] == TARGET_OUTPUT,
    decreases values.len(),
{
    if values.len() > 0 {
        let rest = values.drop_last();
        law_loss_measures_distance(rest);
        let e = error_of(values.last());
        lemma_square(e);
        assert(e * e == 0 <==> e == 0) by (nonlinear_arith);
        if squares(values) == 0 {
            assert forall|i: int| 0 <= i < values.len() implies #[trigger] values[i]
                == TARGET_OUTPUT by {
                if i < rest.len() {
                    assert(rest[i] == values[i]);
                }
            }
        }
        if forall|i: int| 0 <= i < values.len() ==> #[trigger] values[i] == TARGET_OUTPUT {
            assert(values[values.len() - 1] == TARGET_OUTPUT);
            assert forall|i: int| 0 <= i < rest.len() implies #[trigger] rest[i]
                == TARGET_OUTPUT by {
                assert(values[i] == TARGET_OUTPUT);
            }
        }
    }
}

/// The errors for the owner of a shard.
pub open spec fn backward_question(
    round: TensorRoundView,
    job_id: JobId,
    shard: V4ShardOwnershipView,
    upstream: Seq<i64>,
) -> V4TensorBackwardView {
    V4TensorBackwardView {
        request_id: round.request_id,
        job_id,
        plan_generation: round.plan_generation,
        model_generation: shard.model_generation,
        shard_id: shard.shard_id,
        sequence: round.sequence,
        input: round_input(),
        upstream,
        learning_rate_micros: ROUND_RATE_MICROS,
    }
}

pub fn backward_request(
    round: &TensorRound,
    job_id: JobId,
    shard: &V4ShardOwnership,
    upstream: Vec<i64>,
) -> (r: V4TensorBackward)
    ensures
        r@ == backward_question(round@, job_id, shard@, upstream@),
{
    V4TensorBackward {
        request_id: round.request_id,
        job_id,
        plan_generation: round.plan_generation,
        model_generation: shard.model_generation,
        shard_id: shard.shard_id,
        sequence: round.sequence,
        input: tensor_input(),
        upstream,
        learning_rate_micros: ROUND_RATE_MICROS,
    }
}

/// The round with the hashes of a shard after its backward pass.
pub open spec fn with_hashes(
    round: TensorRoundView,
    shard_id: u16,
    state_hash: ArtifactId,
    optimizer_hash: Option<ArtifactId>,
) -> TensorRoundView {
    TensorRoundView {
        state_hashes: round.state_hashes.insert(shard_id, state_hash),
        optimizer_hashes: match optimizer_hash {
            Some(hash) => round.optimizer_hashes.insert(shard_id, hash),
            None => round.optimizer_hashes,
        },
        ..round
    }
}

/// The hashes of a shard on this node after its backward pass.
pub fn local_backward_done(
    round: &mut TensorRound,
    shard_id: u16,
    state_hash: ArtifactId,
    optimizer_hash: Option<ArtifactId>,
)
    ensures
        final(round)@ == with_hashes(old(round)@, shard_id, state_hash, optimizer_hash),
{
    round.state_hashes.insert(shard_id, state_hash);
    match optimizer_hash {
        Some(hash) => {
            round.optimizer_hashes.insert(shard_id, hash);
        },
        None => {},
    }
}

/// Take in the answer to a backward pass.
pub fn note_backward_result(round: &mut TensorRound, result: &V4TensorBackwardResult)
    ensures
        final(round)@ == (if awaited_by(
            old(round)@,
            result@.request_id,
            result@.plan_generation,
            result@.shard_id,
        ) {
            with_hashes(
                TensorRoundView {
                    pending: old(round)@.pending.remove(result@.shard_id as u32),
                    ..old(round)@
                },
                result@.shard_id,
                result@.state_hash,
                result@.optimizer_state_hash,
            )
        } else {
            old(round)@
        }),
{
    if result.request_id == round.request_id && result.plan_generation == round.plan_generation {
        let ghost before = round.pending@;
        if round.pending.remove(result.shard_id as u32) {
            local_backward_done(
                round,
                result.shard_id,
                result.state_hash,
                result.optimizer_state_hash,
            );
        } else {
            assert(round.pending@ =~= before);
        }
    }
}

/// Every error that goes back is how far the output is from 32: negative below it,
/// positive above it, zero on it, and exact wherever the range holds it. Every shard of
/// the graph gets one for each of its outputs.
pub proof fn law_errors_point_to_the_target(
    shards: Seq<V4ShardOwnershipView>,
    outputs: Map<u16, Seq<i64>>,
    i: int,
    k: int,
)
    requires
        0 <= i < shards.len(),
        0 <= k < outputs[shards[i].shard_id].len(),
    ensures
        ({
            let id = shards[i].shard_id;
            let table = error_table(shards, outputs);
            let value = outputs[id][k];
            &&& table.contains_key(id)
            &&& table[id].len() == outputs[id].len()
            &&& value - 32 >= i64::MIN ==> table[id][k] == value - 32
            &&& value - 32 < i64::MIN ==> table[id][k] == i64::MIN
            &&& value < 32 <==> table[id][k] < 0
            &&& value > 32 <==> table[id][k] > 0
        }),
    decreases shards.len(),
{
    if i < shards.len() - 1 {
        law_errors_point_to_the_target(shards.drop_last(), outputs, i, k);
        assert(shards.drop_last()[i] == shards[i]);
    }
}

/// Only shards of the graph get errors.
pub proof fn law_errors_are_for_shards_of_the_graph(
    shards: Seq<V4ShardOwnershipView>,
    outputs: Map<u16, Seq<i64>>,
    id: u16,
)
    requires
        error_table(shards, outputs).contains_key(id),
    ensures
        exists|i: int| 0 <= i < shards.len() && (#[trigger] shards[i]).shard_id == id,
    decreases shards.len(),
{
    if shards.last().shard_id == id {
        assert(shards[shards.len() - 1].shard_id == id);
    } else {
        law_errors_are_for_shards_of_the_graph(shards.drop_last(), outputs, id);
        let i = choose|i: int|
            0 <= i < shards.drop_last().len() && (#[trigger] shards.drop_last()[i]).shard_id == id;
        assert(shards[i].shard_id == id);
    }
}

/// The loss is the sum of the squares of the very errors that go back: one more output
/// adds the square of its own error, and one more shard adds the squares of its own.
pub proof fn law_loss_sums_the_errors_sent(
    values: Seq<i64>,
    value: i64,
    shards: Seq<V4ShardOwnershipView>,
    shard: V4ShardOwnershipView,
    outputs: Map<u16, Seq<i64>>,
)
    ensures
        squares(Seq::empty()) == 0,
        ({
            let error = errors_of(values.push(value))[values.len() as int];
            &&& squares(values.push(value)) == squares(values) + error * error
            &&& errors_of(values.push(value)) == errors_of(values).push(error)
            &&& value - 32 >= i64::MIN ==> error == value - 32
        }),
        total_squares(Seq::empty(), outputs) == 0,
        outputs.contains_key(shard.shard_id) ==> total_squares(shards.push(shard), outputs)
            == total_squares(shards, outputs) + squares(outputs[shard.shard_id])
            && error_table(shards.push(shard), outputs)[shard.shard_id] == errors_of(
            outputs[shard.shard_id],
        ),
        !outputs.contains_key(shard.shard_id) ==> total_squares(shards.push(shard), outputs)
            == total_squares(shards, outputs),
{
    assert(values.push(value).drop_last() =~= values);
    assert(errors_of(values.push(value)) =~= errors_of(values).push(
        errors_of(values.push(value))[values.len() as int],
    ));
    assert(shards.push(shard).drop_last() =~= shards);
}

/// The owner of a shard is asked about its own shard with the input 2, 4, 6, 8, and
/// taught with that input, the errors of the shard and a hundredth as the rate; the
/// questions of one round share its number, its plan and its sequence.
pub proof fn law_questions_are_about_the_shard(
    round: TensorRoundView,
    job_id: JobId,
    shard: V4ShardOwnershipView,
    upstream: Seq<i64>,
)
    ensures
        ({
            let f = forward_question(round, job_id, shard);
            let b = backward_question(round, job_id, shard, upstream);
            &&& f.input.len() == 4
            &&& forall|k: int| 0 <= k < 4 ==> #[trigger] f.input[k] == 2 * (k + 1)
            &&& b.input == f.input
            &&& b.upstream == upstream
            &&& b.learning_rate_micros == 10_000
            &&& f.shard_id == shard.shard_id && b.shard_id == shard.shard_id
            &&& f.model_generation == shard.model_generation && b.model_generation
                == shard.model_generation
            &&& f.job_id == job_id && b.job_id == job_id
            &&& f.request_id == round.request_id && b.request_id == round.request_id
            &&& f.plan_generation == round.plan_generation && b.plan_generation
                == round.plan_generation
            &&& f.sequence == round.sequence && b.sequence == round.sequence
        }),
{
}

/// An answer counts only for its round, its plan and a shard that is awaited; the
/// hashes of a shard are noted under its number and change nobody else's.
pub proof fn law_answers_count_for_their_shard(
    round: TensorRoundView,
    request_id: JobId,
    plan_generation: u64,
    shard_id: u16,
    state_hash: ArtifactId,
    optimizer_hash: Option<ArtifactId>,
    other: u16,
)
    ensures
        awaited_by(round, request_id, plan_generation, shard_id) <==> (request_id
            == round.request_id && plan_generation == round.plan_generation
            && round.pending.contains(shard_id as u32)),
        ({
            let after = with_hashes(round, shard_id, state_hash, optimizer_hash);
            &&& after.state_hashes.contains_key(shard_id)
            &&& after.state_hashes[shard_id] == state_hash
            &&& optimizer_hash matches Some(hash) ==> after.optimizer_hashes.contains_key(shard_id)
                && after.optimizer_hashes[shard_id] == hash
            &&& optimizer_hash is None ==> after.optimizer_hashes == round.optimizer_hashes
            &&& other != shard_id ==> after.state_hashes.contains_key(other)
                == round.state_hashes.contains_key(other) && after.state_hashes[other]
                == round.state_hashes[other]
            &&& after.outputs == round.outputs
            &&& after.pending == round.pending
        }),
{
}

/// A shard is first installed with the weights, the shape and the place that its
/// number has in the model, in the job and the plan of the graph; a replica gets the
/// same from the owner.
pub proof fn law_first_install_follows_the_layout(
    graph: V4ExecutionGraphView,
    plan: V4TrainingPlanView,
    shard: V4ShardOwnershipView,
    owner: NodeId,
)
    ensures
        ({
            let layout = tensor_layout(shard.shard_id, graph.shards.len() as int);
            let i = first_install(graph, plan, shard);
            let copy = install_copy_of(i, shard, owner);
            &&& i.weights == layout.0
            &&& i.rows == layout.1
            &&& i.cols == layout.2
            &&& i.row_offset == layout.3
            &&& i.job_id == graph.job_id
            &&& i.plan_generation == plan.plan_generation
            &&& i.model_generation == shard.model_generation
            &&& i.shard_id == shard.shard_id
            &&& copy.weights == i.weights
            &&& copy.rows == i.rows
            &&& copy.cols == i.cols
            &&& copy.row_offset == i.row_offset
            &&& copy.job_id == i.job_id
            &&& copy.plan_generation == i.plan_generation
            &&& copy.model_generation == i.model_generation
            &&& copy.shard_id == i.shard_id
            &&& copy.state_hash == i.state_hash
            &&& copy.state_generation == 1
            &&& copy.last_sequence == 0
            &&& copy.ownership_generation == shard.ownership_generation
            &&& copy.source == owner
        }),
{
}

} // verus!
