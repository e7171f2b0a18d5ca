//! Tensor shards: their installation on owners and replicas, and the forward
//! and backward passes through them.

use crate::base::arith::{clamp_int, lemma_product_fits_i128, sat_u64, trunc_div};
use crate::base::ids::{unsigned_hash, ArtifactId, JobId, NodeId};
use crate::base::members::{contains_id, filter_other_than};
use crate::base::record::Duplicate;
use crate::base::search::{find, other_than, views};
use crate::base::values::{all_within, bounded, same_values, VALUE_BOUND};
use crate::frontier::authority::{
    may_work_on_tensor, runs_tensors, splits_tensors, tensor_work_authorized,
};
use crate::frontier::dataplane::{
    V4TensorBackward, V4TensorBackwardResult, V4TensorBackwardResultView, V4TensorForward,
    V4TensorForwardResult, V4TensorForwardResultView, V4TensorForwardView, V4TensorInstall,
    V4TensorInstallAck, V4TensorInstallView, V4TensorReplica, V4TensorReplicaAck,
    V4TensorReplicaView,
};
use crate::frontier::integrated::INTEGRATED_MAX_WINDOWS;
use crate::frontier::local::{V4LocalTensorShard, V4LocalTensorShardView};
use crate::frontier::plan::{find_shard, numbered};
use crate::frontier::types::{V4ShardOwnershipView, V4TrainingPlan, V4TrainingPlanView};
use vstd::prelude::*;

verus! {

/// The tensor shards that a node holds at most.
pub const MAX_TENSOR_SHARDS: usize = 256;

/// The rate at which a coordinator updates its own shards, in micro-units.
pub const LOCAL_RATE_MICROS: i64 = 100_000;

/// The shard has the shape and the bounds of a stored one, and its hash is the
/// one computed of its content.
pub open spec fn tensor_ok(
    shard: V4LocalTensorShardView,
    max_vector: u32,
    computed: ArtifactId,
) -> bool {
    &&& shard.plan_generation > 0
    &&& shard.model_generation > 0
    &&& shard.rows > 0
    &&& shard.cols > 0
    &&& shard.rows * shard.cols == shard.weights.len()
    &&& shard.weights.len() <= max_vector * max_vector
    &&& shard.row_offset + shard.rows <= max_vector
    &&& bounded(shard.weights, VALUE_BOUND as int)
    &&& computed == shard.state_hash
}

/// Whether a stored shard is in order. `computed` is the hash of its content.
pub fn valid_local_tensor_shard(
    shard: &V4LocalTensorShard,
    max_vector: u32,
    computed: ArtifactId,
) -> (r: bool)
    ensures
        r == tensor_ok(shard@, max_vector, computed),
{
    proof {
        let a = shard.rows;
        let b = shard.cols;
        assert(0 <= a * b <= 0xffff_ffff) by (nonlinear_arith)
            requires
                0 <= a <= 0xffff,
                0 <= b <= 0xffff,
        ;
        let m = max_vector;
        assert(0 <= m * m <= 0xffff_ffff_ffff_ffff) by (nonlinear_arith)
            requires
                0 <= m <= 0xffff_ffff,
        ;
    }
    let size: u64 = shard.rows as u64 * shard.cols as u64;
    let limit: u64 = max_vector as u64 * max_vector as u64;
    shard.plan_generation > 0 && shard.model_generation > 0 && shard.rows > 0 && shard.cols > 0
        && size == shard.weights.len() as u64 && shard.weights.len() as u64 <= limit
        && shard.row_offset as u64 + shard.rows as u64 <= max_vector as u64 && all_within(
        &shard.weights,
        VALUE_BOUND,
    ) && computed == shard.state_hash
}

/// The shard that an installation brings, with nothing learned yet.
pub open spec fn installed_shard(install: V4TensorInstallView) -> V4LocalTensorShardView {
    V4LocalTensorShardView {
        job_id: install.job_id,
        plan_generation: install.plan_generation,
        model_generation: install.model_generation,
        shard_id: install.shard_id,
        rows: install.rows,
        cols: install.cols,
        row_offset: install.row_offset,
        weights: install.weights,
        state_hash: install.state_hash,
        state_generation: 1,
        last_sequence: 0,
    }
}

fn shard_of_install(install: &V4TensorInstall) -> (r: V4LocalTensorShard)
    ensures
        r@ == installed_shard(install@),
{
    V4LocalTensorShard {
        job_id: install.job_id,
        plan_generation: install.plan_generation,
        model_generation: install.model_generation,
        shard_id: install.shard_id,
        rows: install.rows,
        cols: install.cols,
        row_offset: install.row_offset,
        weights: install.weights.clone(),
        state_hash: install.state_hash,
        state_generation: 1,
        last_sequence: 0,
    }
}

/// The stored shard and the installed one cover the same part of one model.
pub open spec fn same_part(shard: V4LocalTensorShardView, install: V4TensorInstallView) -> bool {
    shard.model_generation == install.model_generation && shard.rows == install.rows && shard.cols
        == install.cols && shard.row_offset == install.row_offset
}

/// The shard, carried over to the plan of the installation.
pub open spec fn promoted_shard(shard: V4LocalTensorShardView, plan_generation: u64) ->
    V4LocalTensorShardView {
    V4LocalTensorShardView { plan_generation, ..shard }
}

/// Why a coordinator cannot install a shard on itself.
#[derive(Clone, Copy, Debug, PartialEq, Eq, Structural)]
pub enum LocalTensorError {
    /// The stored shard belongs to a later plan.
    Stale,
    /// The installed shard is not in order.
    Invalid,
}

/// A stored shard that an installation keeps: the same part, already changed by
/// training, and in order.
pub open spec fn keeps_learning(
    shard: V4LocalTensorShardView,
    install: V4TensorInstallView,
    max_vector: u32,
    computed_existing: ArtifactId,
) -> bool {
    same_part(shard, install) && shard.plan_generation <= install.plan_generation && (
    shard.state_generation > 1 || shard.state_hash != install.state_hash) && tensor_ok(
        shard,
        max_vector,
        computed_existing,
    )
}

/// The shard to store when a coordinator installs one on itself.
pub fn install_local_tensor_shard(
    existing: Option<&V4LocalTensorShard>,
    install: &V4TensorInstall,
    max_vector: u32,
    computed_existing: ArtifactId,
    computed_install: ArtifactId,
) -> (r: Result<V4LocalTensorShard, LocalTensorError>)
    ensures
        ({
            let stale = existing matches Some(e) && e@.plan_generation > install@.plan_generation;
            let kept = existing matches Some(e) && keeps_learning(
                e@,
                install@,
                max_vector,
                computed_existing,
            );
            match r {
                Err(LocalTensorError::Stale) => stale,
                Err(LocalTensorError::Invalid) => !stale && !kept && !tensor_ok(
                    installed_shard(install@),
                    max_vector,
                    computed_install,
                ),
                Ok(shard) => !stale && if kept {
                    shard@ == promoted_shard(existing->0@, install@.plan_generation)
                } else {
                    shard@ == installed_shard(install@) && tensor_ok(
                        shard@,
                        max_vector,
                        computed_install,
                    )
                },
            }
        }),
{
    match existing {
        Some(existing) => {
            if existing.plan_generation > install.plan_generation {
                return Err(LocalTensorError::Stale);
            }
            if existing.model_generation == install.model_generation && existing.rows
                == install.rows && existing.cols == install.cols && existing.row_offset
                == install.row_offset && (existing.state_generation > 1 || existing.state_hash
                != install.state_hash) && valid_local_tensor_shard(
                existing,
                max_vector,
                computed_existing,
            ) {
                let mut promoted = existing.duplicate();
                promoted.plan_generation = install.plan_generation;
                return Ok(promoted);
            }
        },
        None => {},
    }
    let shard = shard_of_install(install);
    if !valid_local_tensor_shard(&shard, max_vector, computed_install) {
        return Err(LocalTensorError::Invalid);
    }
    Ok(shard)
}

/// Why an installation is refused.
#[derive(Clone, Copy, Debug, PartialEq, Eq, Structural)]
pub enum TensorInstallError {
    Invalid,
    HashMismatch,
    /// The plan does not give this node the shard.
    Unauthorized,
    /// Another state of the shard is stored.
    Conflict,
    /// The node holds all the shards it may.
    Full,
}

/// The installation repeats what is stored.
pub open spec fn repeats_install(
    shard: V4LocalTensorShardView,
    install: V4TensorInstallView,
) -> bool {
    shard.plan_generation == install.plan_generation && same_part(shard, install) && shard.weights
        == install.weights && shard.state_hash == install.state_hash
}

/// The installation carries a stored, well-formed shard into a later plan.
pub open spec fn promotes_install(
    shard: V4LocalTensorShardView,
    install: V4TensorInstallView,
    max_vector: u32,
    computed_existing: ArtifactId,
) -> bool {
    shard.plan_generation < install.plan_generation && same_part(shard, install) && tensor_ok(
        shard,
        max_vector,
        computed_existing,
    )
}

/// The state of the shard after an accepted installation.
pub open spec fn after_install(
    existing: Option<V4LocalTensorShardView>,
    install: V4TensorInstallView,
) -> V4LocalTensorShardView {
    match existing {
        None => installed_shard(install),
        Some(e) => if repeats_install(e, install) {
            e
        } else {
            promoted_shard(e, install.plan_generation)
        },
    }
}

/// What stands against an installation by an authorized sender.
pub open spec fn install_refused(
    plan: V4TrainingPlanView,
    install: V4TensorInstallView,
    node: NodeId,
    existing: Option<V4LocalTensorShardView>,
    max_vector: u32,
    computed_existing: ArtifactId,
    held: int,
) -> Option<TensorInstallError> {
    if !tensor_work_authorized(plan, install.shard_id, install.model_generation, node) {
        Some(TensorInstallError::Unauthorized)
    } else {
        match existing {
            Some(e) => if repeats_install(e, install) || promotes_install(
                e,
                install,
                max_vector,
                computed_existing,
            ) {
                None
            } else {
                Some(TensorInstallError::Conflict)
            },
            None => if held >= MAX_TENSOR_SHARDS {
                Some(TensorInstallError::Full)
            } else {
                None
            },
        }
    }
}

/// Take in an installation under a plan that authorizes the sender. The result
/// is the shard to hold and the answer to the sender.
pub fn receive_tensor_install(
    node: NodeId,
    plan: &V4TrainingPlan,
    install: &V4TensorInstall,
    valid: bool,
    computed_install: ArtifactId,
    existing: Option<&V4LocalTensorShard>,
    computed_existing: ArtifactId,
    max_vector: u32,
    held: usize,
) -> (r: Result<(V4LocalTensorShard, V4TensorInstallAck), TensorInstallError>)
    ensures
        ({
            let before = match existing {
                Some(e) => Some(e@),
                None => None,
            };
            let refused = if !valid {
                Some(TensorInstallError::Invalid)
            } else if computed_install != install@.state_hash {
                Some(TensorInstallError::HashMismatch)
            } else {
                install_refused(
                    plan@,
                    install@,
                    node,
                    before,
                    max_vector,
                    computed_existing,
                    held as int,
                )
            };
            match r {
                Err(e) => refused == Some(e),
                Ok((shard, ack)) => {
                    &&& refused is None
                    &&& shard@ == after_install(before, install@)
                    &&& ack == (V4TensorInstallAck {
                        job_id: install@.job_id,
                        plan_generation: install@.plan_generation,
                        shard_id: install@.shard_id,
                        state_hash: shard@.state_hash,
                        accepted: true,
                    })
                },
            }
        }),
{
    if !valid {
        return Err(TensorInstallError::Invalid);
    }
    if computed_install != install.state_hash {
        return Err(TensorInstallError::HashMismatch);
    }
    if !may_work_on_tensor(plan, install.shard_id, install.model_generation, node) {
        return Err(TensorInstallError::Unauthorized);
    }
    let shard = match existing {
        Some(existing) => {
            let same = existing.model_generation == install.model_generation && existing.rows
                == install.rows && existing.cols == install.cols && existing.row_offset
                == install.row_offset;
            if same && existing.plan_generation == install.plan_generation && same_values(
                &existing.weights,
                &install.weights,
            ) && existing.state_hash == install.state_hash {
                existing.duplicate()
            } else if same && existing.plan_generation < install.plan_generation
                && valid_local_tensor_shard(existing, max_vector, computed_existing) {
                let mut promoted = existing.duplicate();
                promoted.plan_generation = install.plan_generation;
                promoted
            } else {
                return Err(TensorInstallError::Conflict);
            }
        },
        None => {
            if held >= MAX_TENSOR_SHARDS {
                return Err(TensorInstallError::Full);
            }
            shard_of_install(install)
        },
    };
    let ack = V4TensorInstallAck {
        job_id: install.job_id,
        plan_generation: install.plan_generation,
        shard_id: install.shard_id,
        state_hash: shard.state_hash,
        accepted: true,
    };
    Ok((shard, ack))
}

/// An installation never takes back what a shard has learned: an accepted one
/// leaves the weights, the state generation and the last sequence of a stored
/// shard alone, on an owner as on the coordinator itself.
pub proof fn law_install_keeps_learning(
    plan: V4TrainingPlanView,
    install: V4TensorInstallView,
    node: NodeId,
    existing: V4LocalTensorShardView,
    max_vector: u32,
    computed_existing: ArtifactId,
    held: int,
)
    requires
        install_refused(
            plan,
            install,
            node,
            Some(existing),
            max_vector,
            computed_existing,
            held,
        ) is None,
    ensures
        ({
            let after = after_install(Some(existing), install);
            &&& after.weights == existing.weights
            &&& after.state_hash == existing.state_hash
            &&& after.state_generation == existing.state_generation
            &&& after.last_sequence == existing.last_sequence
            &&& after.plan_generation >= existing.plan_generation
            &&& after.plan_generation == install.plan_generation
        }),
{
}

/// Why a replica is refused.
#[derive(Clone, Copy, Debug, PartialEq, Eq, Structural)]
pub enum TensorReplicaError {
    Invalid,
    HashMismatch,
    NoPlan,
    /// The plan does not make this node a replica for the source.
    Unauthorized,
    /// The copy is not in order.
    Shape,
}

/// The shard that a replica message carries.
pub open spec fn replica_shard(replica: V4TensorReplicaView) -> V4LocalTensorShardView {
    V4LocalTensorShardView {
        job_id: replica.job_id,
        plan_generation: replica.plan_generation,
        model_generation: replica.model_generation,
        shard_id: replica.shard_id,
        rows: replica.rows,
        cols: replica.cols,
        row_offset: replica.row_offset,
        weights: replica.weights,
        state_hash: replica.state_hash,
        state_generation: replica.state_generation,
        last_sequence: replica.last_sequence,
    }
}

/// The plan makes `node` a replica of the shard, and the source a holder of it.
pub open spec fn replica_placed(
    s: V4ShardOwnershipView,
    replica: V4TensorReplicaView,
    node: NodeId,
) -> bool {
    s.shard_id == replica.shard_id && s.model_generation == replica.model_generation
        && s.ownership_generation <= replica.ownership_generation && s.replicas.contains(node) && (
    s.owners.contains(replica.source) || s.replicas.contains(replica.source))
}

/// The plan authorizes the copy.
pub open spec fn replica_authorized(
    plan: V4TrainingPlanView,
    replica: V4TensorReplicaView,
    node: NodeId,
    peer: NodeId,
) -> bool {
    &&& splits_tensors(plan.strategy)
    &&& plan.plan_generation == replica.plan_generation
    &&& plan.tensor_degree == 2
    &&& plan.workers.contains(node)
    &&& plan.workers.contains(peer)
    &&& plan.workers.contains(replica.source)
    &&& exists|i: int|
        0 <= i < plan.shards.len() && replica_placed(#[trigger] plan.shards[i], replica, node)
}

fn may_replicate_tensor(
    plan: &V4TrainingPlan,
    replica: &V4TensorReplica,
    node: NodeId,
    peer: NodeId,
) -> (r: bool)
    ensures
        r == replica_authorized(plan@, replica@, node, peer),
{
    if !runs_tensors(plan.strategy) || plan.plan_generation != replica.plan_generation
        || plan.tensor_degree != 2 || !contains_id(&plan.workers, node) || !contains_id(
        &plan.workers,
        peer,
    ) || !contains_id(&plan.workers, replica.source) {
        return false;
    }
    let ghost s = plan@.shards;
    let mut i: usize = 0;
    while i < plan.shards.len()
        invariant
            0 <= i <= plan.shards@.len(),
            s == views(plan.shards@),
            s == plan@.shards,
            splits_tensors(plan@.strategy),
            plan@.plan_generation == replica@.plan_generation,
            plan@.tensor_degree == 2,
            plan@.workers.contains(node),
            plan@.workers.contains(peer),
            plan@.workers.contains(replica@.source),
            forall|j: int| 0 <= j < i ==> !replica_placed(#[trigger] s[j], replica@, node),
        decreases plan.shards@.len() - i,
    {
        assert(s[i as int] == plan.shards@[i as int]@);
        let shard = &plan.shards[i];
        if shard.shard_id == replica.shard_id && shard.model_generation == replica.model_generation
            && shard.ownership_generation <= replica.ownership_generation && contains_id(
            &shard.replicas,
            node,
        ) && (contains_id(&shard.owners, replica.source) || contains_id(
            &shard.replicas,
            replica.source,
        )) {
            return true;
        }
        i += 1;
    }
    false
}

/// A stored copy that has learned more of the same part, and is in order.
pub open spec fn is_ahead(
    existing: V4LocalTensorShardView,
    incoming: V4LocalTensorShardView,
    max_vector: u32,
    computed_existing: ArtifactId,
) -> bool {
    existing.state_generation > incoming.state_generation && existing.model_generation
        == incoming.model_generation && existing.rows == incoming.rows && existing.cols
        == incoming.cols && existing.row_offset == incoming.row_offset && tensor_ok(
        existing,
        max_vector,
        computed_existing,
    )
}

/// Two copies of one state that differ.
pub open spec fn copies_conflict(
    existing: V4LocalTensorShardView,
    incoming: V4LocalTensorShardView,
) -> bool {
    existing.state_generation == incoming.state_generation && existing.state_hash
        != incoming.state_hash
}

/// What becomes of a copy.
#[derive(Debug, PartialEq, Eq)]
pub enum ReplicaStep {
    /// The stored copy is ahead and stays.
    Ahead,
    /// The stored copy is another one of the same state, and stays.
    Conflict,
    /// The copy is stored.
    Stored(V4LocalTensorShard),
}

/// Take in a copy. The result tells what to store, and what to answer.
pub fn receive_tensor_replica(
    node: NodeId,
    peer: NodeId,
    replica: &V4TensorReplica,
    valid: bool,
    computed_replica: ArtifactId,
    plan: Option<&V4TrainingPlan>,
    existing: Option<&V4LocalTensorShard>,
    computed_existing: ArtifactId,
    max_vector: u32,
) -> (r: Result<(ReplicaStep, V4TensorReplicaAck), TensorReplicaError>)
    ensures
        ({
            let incoming = replica_shard(replica@);
            let authorized = plan matches Some(p) && replica_authorized(p@, replica@, node, peer);
            let whole = valid && computed_replica == replica@.state_hash;
            match r {
                Err(TensorReplicaError::Invalid) => !valid,
                Err(TensorReplicaError::HashMismatch) => valid && computed_replica
                    != replica@.state_hash,
                Err(TensorReplicaError::NoPlan) => whole && plan is None,
                Err(TensorReplicaError::Unauthorized) => whole && plan is Some && !authorized,
                Err(TensorReplicaError::Shape) => whole && authorized && !tensor_ok(
                    incoming,
                    max_vector,
                    computed_replica,
                ),
                Ok((step, ack)) => {
                    &&& whole
                    &&& authorized
                    &&& tensor_ok(incoming, max_vector, computed_replica)
                    &&& ack == (V4TensorReplicaAck {
                        job_id: replica@.job_id,
                        plan_generation: replica@.plan_generation,
                        shard_id: replica@.shard_id,
                        state_hash: replica@.state_hash,
                        state_generation: replica@.state_generation,
                        accepted: !(step is Conflict),
                    })
                    &&& match step {
                        ReplicaStep::Ahead => existing matches Some(e) && is_ahead(
                            e@,
                            incoming,
                            max_vector,
                            computed_existing,
                        ),
                        ReplicaStep::Conflict => existing matches Some(e) && !is_ahead(
                            e@,
                            incoming,
                            max_vector,
                            computed_existing,
                        ) && copies_conflict(e@, incoming),
                        ReplicaStep::Stored(shard) => shard@ == incoming && (
                        existing matches Some(e) ==> !is_ahead(
                            e@,
                            incoming,
                            max_vector,
                            computed_existing,
                        ) && !copies_conflict(e@, incoming)),
                    }
                },
            }
        }),
{
    if !valid {
        return Err(TensorReplicaError::Invalid);
    }
    if computed_replica != replica.state_hash {
        return Err(TensorReplicaError::HashMismatch);
    }
    let plan = match plan {
        Some(plan) => plan,
        None => {
            return Err(TensorReplicaError::NoPlan);
        },
    };
    if !may_replicate_tensor(plan, replica, node, peer) {
        return Err(TensorReplicaError::Unauthorized);
    }
    let incoming = V4LocalTensorShard {
        job_id: replica.job_id,
        plan_generation: replica.plan_generation,
        model_generation: replica.model_generation,
        shard_id: replica.shard_id,
        rows: replica.rows,
        cols: replica.cols,
        row_offset: replica.row_offset,
        weights: replica.weights.clone(),
        state_hash: replica.state_hash,
        state_generation: replica.state_generation,
        last_sequence: replica.last_sequence,
    };
    assert(incoming@ =~= replica_shard(replica@));
    if !valid_local_tensor_shard(&incoming, max_vector, computed_replica) {
        return Err(TensorReplicaError::Shape);
    }
    let step = match existing {
        None => ReplicaStep::Stored(incoming),
        Some(existing) => {
            if existing.state_generation > incoming.state_generation && existing.model_generation
                == incoming.model_generation && existing.rows == incoming.rows && existing.cols
                == incoming.cols && existing.row_offset == incoming.row_offset
                && valid_local_tensor_shard(existing, max_vector, computed_existing) {
                ReplicaStep::Ahead
            } else if existing.state_generation == incoming.state_generation
                && existing.state_hash != incoming.state_hash {
                ReplicaStep::Conflict
            } else {
                ReplicaStep::Stored(incoming)
            }
        },
    };
    let accepted = !matches!(step, ReplicaStep::Conflict);
    let ack = V4TensorReplicaAck {
        job_id: replica.job_id,
        plan_generation: replica.plan_generation,
        shard_id: replica.shard_id,
        state_hash: replica.state_hash,
        state_generation: replica.state_generation,
        accepted,
    };
    Ok((step, ack))
}

/// Why a pass through a shard is refused.
#[derive(Clone, Copy, Debug, PartialEq, Eq, Structural)]
pub enum TensorPassError {
    /// The plan does not give this node the shard.
    Unauthorized,
    /// The shard is not here.
    Unavailable,
    /// The generation or the shape does not match.
    Mismatch,
    /// The sequence was passed already.
    Stale,
}

/// The stored shard takes the input.
pub open spec fn forward_fits(shard: V4LocalTensorShardView, forward: V4TensorForwardView) -> bool {
    shard.plan_generation == forward.plan_generation && shard.model_generation
        == forward.model_generation && shard.cols == forward.input.len()
}

/// Whether a forward pass may run on the stored shard.
pub fn receive_tensor_forward(
    node: NodeId,
    plan: &V4TrainingPlan,
    forward: &V4TensorForward,
    shard: Option<&V4LocalTensorShard>,
) -> (r: Result<(), TensorPassError>)
    ensures
        ({
            let authorized = tensor_work_authorized(
                plan@,
                forward@.shard_id,
                forward@.model_generation,
                node,
            );
            match r {
                Err(TensorPassError::Unauthorized) => !authorized,
                Err(TensorPassError::Unavailable) => authorized && shard is None,
                Err(TensorPassError::Mismatch) => authorized && (shard matches Some(s)
                    && !forward_fits(s@, forward@)),
                Err(TensorPassError::Stale) => false,
                Ok(()) => authorized && (shard matches Some(s) && forward_fits(s@, forward@)),
            }
        }),
{
    if !may_work_on_tensor(plan, forward.shard_id, forward.model_generation, node) {
        return Err(TensorPassError::Unauthorized);
    }
    match shard {
        None => Err(TensorPassError::Unavailable),
        Some(shard) => if shard.plan_generation != forward.plan_generation || shard.model_generation
            != forward.model_generation || shard.cols as usize != forward.input.len() {
            Err(TensorPassError::Mismatch)
        } else {
            Ok(())
        },
    }
}

/// The answer to a forward pass whose output is `output`.
pub fn forward_result(forward: &V4TensorForward, shard: &V4LocalTensorShard, output: Vec<i64>) -> (r:
    V4TensorForwardResult)
    ensures
        r@ == (V4TensorForwardResultView {
            request_id: forward@.request_id,
            job_id: forward@.job_id,
            plan_generation: forward@.plan_generation,
            shard_id: forward@.shard_id,
            sequence: forward@.sequence,
            output: output@,
            state_hash: shard@.state_hash,
        }),
{
    V4TensorForwardResult {
        request_id: forward.request_id,
        job_id: forward.job_id,
        plan_generation: forward.plan_generation,
        shard_id: forward.shard_id,
        sequence: forward.sequence,
        output,
        state_hash: shard.state_hash,
    }
}

/// Whether a coordinator may run a forward pass on a shard of its own.
pub fn local_tensor_forward(
    shard: Option<&V4LocalTensorShard>,
    input_len: usize,
    max_vector: u32,
    computed: ArtifactId,
) -> (r: Result<(), TensorPassError>)
    ensures
        match r {
            Err(TensorPassError::Unavailable) => shard is None,
            Err(TensorPassError::Mismatch) => shard matches Some(s) && !(tensor_ok(
                s@,
                max_vector,
                computed,
            ) && s@.cols == input_len),
            Ok(()) => shard matches Some(s) && tensor_ok(s@, max_vector, computed) && s@.cols
                == input_len,
            Err(_) => false,
        },
{
    match shard {
        None => Err(TensorPassError::Unavailable),
        Some(shard) => if !valid_local_tensor_shard(shard, max_vector, computed)
            || shard.cols as usize != input_len {
            Err(TensorPassError::Mismatch)
        } else {
            Ok(())
        },
    }
}

/// The stored shard takes the errors.
pub open spec fn backward_fits(
    shard: V4LocalTensorShardView,
    plan_generation: u64,
    model_generation: u64,
    inputs: int,
    outputs: int,
) -> bool {
    shard.plan_generation == plan_generation && shard.model_generation == model_generation
        && shard.cols == inputs && shard.rows == outputs
}

/// Whether a backward pass runs on a shard, and whether it was applied already.
pub fn check_backward(
    shard: &V4LocalTensorShard,
    plan_generation: u64,
    model_generation: u64,
    inputs: usize,
    outputs: usize,
    sequence: u64,
) -> (r: Result<bool, TensorPassError>)
    ensures
        ({
            let fits = backward_fits(
                shard@,
                plan_generation,
                model_generation,
                inputs as int,
                outputs as int,
            );
            match r {
                Err(TensorPassError::Mismatch) => !fits,
                Err(TensorPassError::Stale) => fits && sequence < shard@.last_sequence,
                Ok(applied) => fits && sequence >= shard@.last_sequence && applied == (sequence
                    == shard@.last_sequence),
                Err(_) => false,
            }
        }),
{
    if shard.plan_generation != plan_generation || shard.model_generation != model_generation
        || shard.cols as usize != inputs || shard.rows as usize != outputs {
        return Err(TensorPassError::Mismatch);
    }
    if sequence < shard.last_sequence {
        return Err(TensorPassError::Stale);
    }
    Ok(sequence == shard.last_sequence)
}

/// Whether a backward pass may run on the stored shard, and whether it was
/// applied already.
pub fn receive_tensor_backward(
    node: NodeId,
    plan: &V4TrainingPlan,
    backward: &V4TensorBackward,
    shard: Option<&V4LocalTensorShard>,
) -> (r: Result<bool, TensorPassError>)
    ensures
        ({
            let authorized = tensor_work_authorized(
                plan@,
                backward@.shard_id,
                backward@.model_generation,
                node,
            );
            let fits = shard matches Some(s) && backward_fits(
                s@,
                backward@.plan_generation,
                backward@.model_generation,
                backward@.input.len() as int,
                backward@.upstream.len() as int,
            );
            match r {
                Err(TensorPassError::Unauthorized) => !authorized,
                Err(TensorPassError::Unavailable) => authorized && shard is None,
                Err(TensorPassError::Mismatch) => authorized && shard is Some && !fits,
                Err(TensorPassError::Stale) => authorized && fits && backward@.sequence
                    < shard->0@.last_sequence,
                Ok(applied) => authorized && fits && backward@.sequence >= shard->0@.last_sequence
                    && applied == (backward@.sequence == shard->0@.last_sequence),
            }
        }),
{
    if !may_work_on_tensor(plan, backward.shard_id, backward.model_generation, node) {
        return Err(TensorPassError::Unauthorized);
    }
    match shard {
        None => Err(TensorPassError::Unavailable),
        Some(shard) => check_backward(
            shard,
            backward.plan_generation,
            backward.model_generation,
            backward.input.len(),
            backward.upstream.len(),
            backward.sequence,
        ),
    }
}

/// The error of a row, once for each of its weights.
pub open spec fn spread(upstream: Seq<i64>, rows: nat, cols: nat) -> Seq<i64>
    decreases rows,
{
    if rows == 0 {
        Seq::empty()
    } else {
        spread(upstream, (rows - 1) as nat, cols) + Seq::new(
            cols,
            |i: int| upstream[rows - 1],
        )
    }
}

/// The error of each row, spread over the weights of the row.
pub fn repeated_upstream(upstream: &Vec<i64>, rows: u16, cols: u16) -> (r: Vec<i64>)
    requires
        upstream@.len() >= rows,
    ensures
        r@ == spread(upstream@, rows as nat, cols as nat),
{
    let mut out: Vec<i64> = Vec::new();
    let mut row: u16 = 0;
    while row < rows
        invariant
            0 <= row <= rows,
            upstream@.len() >= rows,
            out@ == spread(upstream@, row as nat, cols as nat),
        decreases rows - row,
    {
        let value = upstream[row as usize];
        let ghost before = out@;
        let mut col: u16 = 0;
        while col < cols
            invariant
                0 <= col <= cols,
                out@ == before + Seq::new(col as nat, |i: int| value),
            decreases cols - col,
        {
            out.push(value);
            assert(out@ =~= before + Seq::new((col + 1) as nat, |i: int| value));
            col += 1;
        }
        proof {
            assert(Seq::new(cols as nat, |i: int| value) =~= Seq::new(
                cols as nat,
                |i: int| upstream@[row + 1 - 1],
            ));
        }
        row += 1;
    }
    out
}

/// A weight after one step against its gradient.
pub open spec fn stepped(weight: i64, gradient: i64, rate_micros: i64) -> i64 {
    clamp_int(
        weight - trunc_div(gradient * rate_micros, 1_000_000),
        -(VALUE_BOUND as int),
        VALUE_BOUND as int,
    ) as i64
}

/// The weights after one step, as far as the gradients go.
pub open spec fn stepped_all(weights: Seq<i64>, gradients: Seq<i64>, rate_micros: i64) -> Seq<i64> {
    Seq::new(
        weights.len(),
        |i: int|
            if i < gradients.len() {
                stepped(weights[i], gradients[i], rate_micros)
            } else {
                weights[i]
            },
    )
}

fn step_weight(weight: i64, gradient: i64, rate_micros: i64) -> (r: i64)
    ensures
        r == stepped(weight, gradient, rate_micros),
{
    proof {
        lemma_product_fits_i128(gradient, rate_micros);
    }
    let product: i128 = gradient as i128 * rate_micros as i128;
    let update: i128 = product / 1_000_000;
    assert(update == trunc_div(gradient * rate_micros, 1_000_000));
    let moved: i128 = weight as i128 - update;
    if moved < -1_000_000_000 {
        -1_000_000_000
    } else if moved > 1_000_000_000 {
        1_000_000_000
    } else {
        moved as i64
    }
}

/// The shard after the backward pass `sequence`, before its hash is set.
pub open spec fn learned(
    shard: V4LocalTensorShardView,
    gradients: Seq<i64>,
    rate_micros: i64,
    sequence: u64,
) -> V4LocalTensorShardView {
    V4LocalTensorShardView {
        weights: stepped_all(shard.weights, gradients, rate_micros),
        state_generation: sat_u64(shard.state_generation + 1) as u64,
        last_sequence: sequence,
        state_hash: unsigned_hash(),
        ..shard
    }
}

/// Apply a backward pass that was not applied before. The hash of the shard is
/// left unset.
pub fn apply_backward(
    shard: &mut V4LocalTensorShard,
    gradients: &Vec<i64>,
    rate_micros: i64,
    sequence: u64,
)
    ensures
        final(shard)@ == learned(old(shard)@, gradients@, rate_micros, sequence),
{
    let ghost before = shard@.weights;
    let ghost after = stepped_all(before, gradients@, rate_micros);
    let mut weights: Vec<i64> = Vec::new();
    let mut i: usize = 0;
    while i < shard.weights.len()
        invariant
            0 <= i <= shard.weights@.len(),
            shard.weights@ == before,
            after == stepped_all(before, gradients@, rate_micros),
            weights@ == after.take(i as int),
        decreases shard.weights@.len() - i,
    {
        let weight: i64 = if i < gradients.len() {
            step_weight(shard.weights[i], gradients[i], rate_micros)
        } else {
            shard.weights[i]
        };
        weights.push(weight);
        assert(weights@ =~= after.take(i as int + 1));
        i += 1;
    }
    assert(weights@ =~= after);
    shard.weights = weights;
    shard.state_generation = shard.state_generation.saturating_add(1);
    shard.last_sequence = sequence;
    shard.state_hash = ArtifactId::unsigned();
}

/// A backward pass leaves every weight it touches within bounds, moves the
/// state generation on by one and raises the last sequence.
pub proof fn law_backward_keeps_bounds(
    shard: V4LocalTensorShardView,
    gradients: Seq<i64>,
    rate_micros: i64,
    sequence: u64,
)
    requires
        bounded(shard.weights, VALUE_BOUND as int),
        sequence > shard.last_sequence,
        shard.state_generation < u64::MAX,
    ensures
        ({
            let after = learned(shard, gradients, rate_micros, sequence);
            &&& bounded(after.weights, VALUE_BOUND as int)
            &&& after.weights.len() == shard.weights.len()
            &&& after.state_generation == shard.state_generation + 1
            &&& after.last_sequence > shard.last_sequence
        }),
{
}

/// The answer to a backward pass.
pub open spec fn backward_answer(
    request_id: JobId,
    shard: V4LocalTensorShardView,
    plan_generation: u64,
    sequence: u64,
    weight_gradient: Seq<i64>,
    input_gradient: Seq<i64>,
    optimizer: Option<(ArtifactId, u64)>,
) -> V4TensorBackwardResultView {
    V4TensorBackwardResultView {
        request_id,
        job_id: shard.job_id,
        plan_generation,
        shard_id: shard.shard_id,
        sequence,
        weight_gradient,
        input_gradient,
        state_hash: shard.state_hash,
        state_generation: shard.state_generation,
        optimizer_state_hash: match optimizer {
            Some((hash, generation)) => Some(hash),
            None => None,
        },
        optimizer_state_generation: match optimizer {
            Some((hash, generation)) => generation,
            None => 0,
        },
    }
}

pub fn backward_result(
    request_id: JobId,
    shard: &V4LocalTensorShard,
    plan_generation: u64,
    sequence: u64,
    weight_gradient: Vec<i64>,
    input_gradient: Vec<i64>,
    optimizer: Option<(ArtifactId, u64)>,
) -> (r: V4TensorBackwardResult)
    ensures
        r@ == backward_answer(
            request_id,
            shard@,
            plan_generation,
            sequence,
            weight_gradient@,
            input_gradient@,
            optimizer,
        ),
{
    let (optimizer_state_hash, optimizer_state_generation) = match optimizer {
        Some((hash, generation)) => (Some(hash), generation),
        None => (None, 0u64),
    };
    V4TensorBackwardResult {
        request_id,
        job_id: shard.job_id,
        plan_generation,
        shard_id: shard.shard_id,
        sequence,
        weight_gradient,
        input_gradient,
        state_hash: shard.state_hash,
        state_generation: shard.state_generation,
        optimizer_state_hash,
        optimizer_state_generation,
    }
}

/// The copy of a shard for a replica.
pub open spec fn copy_of(
    shard: V4LocalTensorShardView,
    ownership_generation: u64,
    source: NodeId,
) -> V4TensorReplicaView {
    V4TensorReplicaView {
        job_id: shard.job_id,
        plan_generation: shard.plan_generation,
        model_generation: shard.model_generation,
        shard_id: shard.shard_id,
        rows: shard.rows,
        cols: shard.cols,
        row_offset: shard.row_offset,
        weights: shard.weights,
        state_hash: shard.state_hash,
        state_generation: shard.state_generation,
        last_sequence: shard.last_sequence,
        ownership_generation,
        source,
    }
}

/// The copy of a shard for its replicas, and who they are: those that the plan
/// records, other than this node.
pub fn replica_copies(node: NodeId, plan: &V4TrainingPlan, shard: &V4LocalTensorShard) -> (r: Option<
    (V4TensorReplica, Vec<NodeId>),
>)
    ensures
        match find(plan@.shards, numbered(shard@.shard_id)) {
            None => r is None,
            Some(s) => r matches Some((copy, replicas)) && copy@ == copy_of(
                shard@,
                s.ownership_generation,
                node,
            ) && replicas@ == s.replicas.filter(other_than(node)),
        },
{
    match find_shard(&plan.shards, shard.shard_id) {
        None => None,
        Some(s) => {
            let copy = V4TensorReplica {
                job_id: shard.job_id,
                plan_generation: shard.plan_generation,
                model_generation: shard.model_generation,
                shard_id: shard.shard_id,
                rows: shard.rows,
                cols: shard.cols,
                row_offset: shard.row_offset,
                weights: shard.weights.clone(),
                state_hash: shard.state_hash,
                state_generation: shard.state_generation,
                last_sequence: shard.last_sequence,
                ownership_generation: s.ownership_generation,
                source: node,
            };
            assert(copy@ =~= copy_of(shard@, s@.ownership_generation, node));
            Some((copy, filter_other_than(&s.replicas, node)))
        },
    }
}

/// What a replica stores of a copy is the shard that was copied.
pub proof fn law_replica_holds_the_shard(
    shard: V4LocalTensorShardView,
    ownership_generation: u64,
    source: NodeId,
)
    ensures
        replica_shard(copy_of(shard, ownership_generation, source)) == shard,
{
}

/// The place of a window in the order of all passes: by graph, then by window.
pub open spec fn sequence_of(graph_generation: u64, window: u64) -> u64 {
    sat_u64(
        sat_u64(sat_u64(graph_generation * (INTEGRATED_MAX_WINDOWS + 1)) + window) + 1,
    ) as u64
}

pub fn round_sequence(graph_generation: u64, window: u64) -> (r: u64)
    ensures
        r == sequence_of(graph_generation, window),
{
    let base: u64 = crate::base::arith::sat_mul_u64(graph_generation, INTEGRATED_MAX_WINDOWS + 1);
    base.saturating_add(window).saturating_add(1)
}

/// Each graph has a range of sequences of its own, in order: a later graph's
/// passes come after all of an earlier one's, and within a graph a later window
/// comes after an earlier one. (The last sequences of all, where the counter
/// ends, are left out.)
pub proof fn law_sequences_follow_graph_and_window(g1: u64, w1: u64, g2: u64, w2: u64)
    requires
        w1 < INTEGRATED_MAX_WINDOWS,
        w2 < INTEGRATED_MAX_WINDOWS,
        g1 < g2 || (g1 == g2 && w1 < w2),
        g2 * (INTEGRATED_MAX_WINDOWS + 1) + w2 + 1 <= u64::MAX,
    ensures
        sequence_of(g1, w1) < sequence_of(g2, w2),
        sequence_of(g1, w1) > 0,
{
    let a = g1 as int;
    let b = g2 as int;
    assert(a * 4097 >= 0 && b * 4097 >= 0);
    if a < b {
        assert(a * 4097 + 4097 <= b * 4097);
    }
}

/// A backward pass moves every weight against its gradient: by the gradient times the
/// rate in millionths, rounded toward zero, and no further than a thousand million
/// either way. Weights without a gradient stay, and so does what the shard is.
pub proof fn law_weights_move_against_gradients(
    shard: V4LocalTensorShardView,
    gradients: Seq<i64>,
    rate_micros: i64,
    sequence: u64,
    i: int,
)
    requires
        0 <= i < shard.weights.len(),
    ensures
        ({
            let after = learned(shard, gradients, rate_micros, sequence);
            let exact = gradients[i] * rate_micros;
            let weight = after.weights[i];
            let moved = shard.weights[i] - weight;
            &&& after.weights.len() == shard.weights.len()
            &&& i >= gradients.len() ==> weight == shard.weights[i]
            &&& i < gradients.len() ==> -1_000_000_000 <= weight <= 1_000_000_000
            &&& i < gradients.len() && -1_000_000_000 < weight < 1_000_000_000 && exact >= 0 ==> 0
                <= exact - moved * 1_000_000 < 1_000_000
            &&& i < gradients.len() && -1_000_000_000 < weight < 1_000_000_000 && exact <= 0 ==> 0
                <= moved * 1_000_000 - exact < 1_000_000
            &&& i < gradients.len() && weight == 1_000_000_000 ==> (shard.weights[i]
                - 1_000_000_000) * 1_000_000 >= exact - 1_000_000
            &&& i < gradients.len() && weight == -1_000_000_000 ==> (shard.weights[i]
                + 1_000_000_000) * 1_000_000 <= exact + 1_000_000
            &&& after.last_sequence == sequence
            &&& after.job_id == shard.job_id
            &&& after.shard_id == shard.shard_id
            &&& after.plan_generation == shard.plan_generation
            &&& after.model_generation == shard.model_generation
            &&& after.rows == shard.rows
            &&& after.cols == shard.cols
            &&& after.row_offset == shard.row_offset
        }),
{
    let exact = gradients[i] * rate_micros;
    let q = trunc_div(exact, 1_000_000);
    crate::base::arith::law_quotient_rounds_toward_zero(exact, 1_000_000);
    assert(q * 1_000_000 == 1_000_000 * q);
}

proof fn lemma_spread_len(upstream: Seq<i64>, rows: nat, cols: nat)
    ensures
        spread(upstream, rows, cols).len() == rows * cols,
    decreases rows,
{
    if rows > 0 {
        lemma_spread_len(upstream, (rows - 1) as nat, cols);
        let before = (rows - 1) as nat;
        assert(before * cols + cols == rows * cols) by (nonlinear_arith)
            requires
                before == rows - 1,
        ;
        assert(spread(upstream, rows, cols).len() == spread(upstream, before, cols).len() + cols);
    } else {
        assert(rows * cols == 0) by (nonlinear_arith)
            requires
                rows == 0,
        ;
    }
}

/// The error of a row reaches each of its weights: the weights stand row by row, and
/// every one of a row gets that row's error.
pub proof fn law_every_weight_gets_the_error_of_its_row(
    upstream: Seq<i64>,
    rows: nat,
    cols: nat,
    row: int,
    col: int,
)
    requires
        0 <= row < rows,
        0 <= col < cols,
    ensures
        spread(upstream, rows, cols).len() == rows * cols,
        0 <= row * cols + col < rows * cols,
        spread(upstream, rows, cols)[row * cols + col] == upstream[row],
    decreases rows,
{
    let before = (rows - 1) as nat;
    lemma_spread_len(upstream, rows, cols);
    lemma_spread_len(upstream, before, cols);
    assert(before * cols + cols == rows * cols) by (nonlinear_arith)
        requires
            before == rows - 1,
    ;
    assert(0 <= row * cols && row * cols + cols <= rows * cols) by (nonlinear_arith)
        requires
            0 <= row < rows,
            cols >= 0,
    ;
    if row < before {
        law_every_weight_gets_the_error_of_its_row(upstream, before, cols, row, col);
    } else {
        assert(row * cols == before * cols);
    }
}

/// An installed shard is the one that was sent, with nothing learned yet.
pub proof fn law_installed_shard_is_the_one_sent(install: V4TensorInstallView)
    ensures
        ({
            let shard = after_install(None, install);
            &&& shard.weights == install.weights
            &&& shard.rows == install.rows
            &&& shard.cols == install.cols
            &&& shard.row_offset == install.row_offset
            &&& shard.job_id == install.job_id
            &&& shard.shard_id == install.shard_id
            &&& shard.plan_generation == install.plan_generation
            &&& shard.model_generation == install.model_generation
            &&& shard.state_hash == install.state_hash
            &&& shard.state_generation == 1
            &&& shard.last_sequence == 0
        }),
{
}

/// The copy for a replica carries the weights and the progress of the shard, where it
/// stands in the model, who sends it and for which ownership.
pub proof fn law_copy_carries_the_shard(
    shard: V4LocalTensorShardView,
    ownership_generation: u64,
    source: NodeId,
)
    ensures
        ({
            let copy = copy_of(shard, ownership_generation, source);
            &&& copy.weights == shard.weights
            &&& copy.rows == shard.rows
            &&& copy.cols == shard.cols
            &&& copy.row_offset == shard.row_offset
            &&& copy.job_id == shard.job_id
            &&& copy.shard_id == shard.shard_id
            &&& copy.plan_generation == shard.plan_generation
            &&& copy.model_generation == shard.model_generation
            &&& copy.state_hash == shard.state_hash
            &&& copy.state_generation == shard.state_generation
            &&& copy.last_sequence == shard.last_sequence
            &&& copy.ownership_generation == ownership_generation
            &&& copy.source == source
        }),
{
}

/// A copy that the owner of a shard sends to a replica of it is taken by the plan that
/// places both, and nobody else's copy is: the sender and the source are workers, and
/// the source holds the shard.
pub proof fn law_copies_come_from_holders(
    plan: V4TrainingPlanView,
    replica: V4TensorReplicaView,
    node: NodeId,
    peer: NodeId,
    i: int,
)
    ensures
        replica_authorized(plan, replica, node, peer) ==> {
            &&& plan.plan_generation == replica.plan_generation
            &&& plan.workers.contains(node)
            &&& plan.workers.contains(peer)
            &&& plan.workers.contains(replica.source)
            &&& exists|k: int|
                0 <= k < plan.shards.len() && (#[trigger] plan.shards[k]).shard_id
                    == replica.shard_id && plan.shards[k].replicas.contains(node) && (
                plan.shards[k].owners.contains(replica.source)
                    || plan.shards[k].replicas.contains(replica.source))
        },
        0 <= i < plan.shards.len() && plan.strategy is Hybrid && plan.tensor_degree == 2
            && plan.plan_generation == replica.plan_generation && plan.workers.contains(node)
            && plan.workers.contains(peer) && plan.workers.contains(replica.source)
            && plan.shards[i].shard_id == replica.shard_id && plan.shards[i].model_generation
            == replica.model_generation && plan.shards[i].ownership_generation
            == replica.ownership_generation && plan.shards[i].replicas.contains(node)
            && plan.shards[i].owners.contains(replica.source) ==> replica_authorized(
            plan,
            replica,
            node,
            peer,
        ),
{
    if replica_authorized(plan, replica, node, peer) {
        let k = choose|k: int|
            0 <= k < plan.shards.len() && replica_placed(#[trigger] plan.shards[k], replica, node);
        assert(plan.shards[k].shard_id == replica.shard_id);
    }
    if 0 <= i < plan.shards.len() && plan.shards[i].shard_id == replica.shard_id
        && plan.shards[i].model_generation == replica.model_generation
        && plan.shards[i].ownership_generation == replica.ownership_generation
        && plan.shards[i].replicas.contains(node) && plan.shards[i].owners.contains(replica.source) {
        assert(replica_placed(plan.shards[i], replica, node));
    }
}

/// A shard is in order exactly when its weights fill its rows and columns, stay within
/// a thousand million, lie inside the model, and have the hash that is stored.
pub proof fn law_shard_in_order(
    shard: V4LocalTensorShardView,
    max_vector: u32,
    computed: ArtifactId,
)
    ensures
        tensor_ok(shard, max_vector, computed) ==> {
            &&& shard.weights.len() == shard.rows * shard.cols
            &&& shard.weights.len() > 0
            &&& shard.row_offset + shard.rows <= max_vector
            &&& shard.state_hash == computed
            &&& shard.plan_generation > 0
            &&& shard.model_generation > 0
            &&& forall|i: int|
                0 <= i < shard.weights.len() ==> -1_000_000_000 <= #[trigger] shard.weights[i]
                    <= 1_000_000_000
        },
        !tensor_ok(shard, max_vector, computed) ==> {
            ||| shard.plan_generation == 0
            ||| shard.model_generation == 0
            ||| shard.rows == 0
            ||| shard.cols == 0
            ||| shard.weights.len() != shard.rows * shard.cols
            ||| shard.weights.len() > max_vector * max_vector
            ||| shard.row_offset + shard.rows > max_vector
            ||| shard.state_hash != computed
            ||| exists|i: int|
                0 <= i < shard.weights.len() && !(-1_000_000_000 <= #[trigger] shard.weights[i]
                    <= 1_000_000_000)
        },
{
    if tensor_ok(shard, max_vector, computed) {
        assert(shard.rows * shard.cols > 0) by (nonlinear_arith)
            requires
                shard.rows > 0,
                shard.cols > 0,
        ;
        assert forall|i: int| 0 <= i < shard.weights.len() implies -1_000_000_000
            <= #[trigger] shard.weights[i] <= 1_000_000_000 by {
            crate::base::values::law_bounded_values_lie_between(shard.weights, 1_000_000_000, i);
        }
    } else if forall|i: int|
        0 <= i < shard.weights.len() ==> -1_000_000_000 <= #[trigger] shard.weights[i]
            <= 1_000_000_000 {
        assert(bounded(shard.weights, 1_000_000_000));
    }
}

/// A stored shard is installed over only by its own part of the model: whatever is
/// stored, an accepted installation has the same model generation, rows, columns and
/// place, and a later plan or the very same content.
pub proof fn law_install_keeps_the_part(
    plan: V4TrainingPlanView,
    install: V4TensorInstallView,
    node: NodeId,
    existing: V4LocalTensorShardView,
    max_vector: u32,
    computed_existing: ArtifactId,
    held: int,
)
    ensures
        install_refused(
            plan,
            install,
            node,
            Some(existing),
            max_vector,
            computed_existing,
            held,
        ) is None ==> {
            &&& existing.model_generation == install.model_generation
            &&& existing.rows == install.rows
            &&& existing.cols == install.cols
            &&& existing.row_offset == install.row_offset
            &&& existing.plan_generation < install.plan_generation || (existing.plan_generation
                == install.plan_generation && existing.weights == install.weights
                && existing.state_hash == install.state_hash)
        },
        held < 256 && install_refused(
            plan,
            install,
            node,
            None,
            max_vector,
            computed_existing,
            held,
        ) is Some ==> install_refused(
            plan,
            install,
            node,
            None,
            max_vector,
            computed_existing,
            held,
        ) == Some(TensorInstallError::Unauthorized),
        held >= 256 ==> install_refused(
            plan,
            install,
            node,
            None,
            max_vector,
            computed_existing,
            held,
        ) is Some,
{
}

/// A stored copy is ahead exactly of a copy of the same part that has learned less.
pub proof fn law_ahead_has_learned_more(
    existing: V4LocalTensorShardView,
    incoming: V4LocalTensorShardView,
    max_vector: u32,
    computed: ArtifactId,
)
    ensures
        is_ahead(existing, incoming, max_vector, computed) ==> existing.state_generation
            > incoming.state_generation && existing.rows == incoming.rows && existing.cols
            == incoming.cols && existing.row_offset == incoming.row_offset && existing.state_hash
            == computed,
        tensor_ok(existing, max_vector, computed) && existing.model_generation
            == incoming.model_generation && existing.rows == incoming.rows && existing.cols
            == incoming.cols && existing.row_offset == incoming.row_offset ==> (is_ahead(
            existing,
            incoming,
            max_vector,
            computed,
        ) <==> existing.state_generation > incoming.state_generation),
        copies_conflict(existing, incoming) ==> !is_ahead(existing, incoming, max_vector, computed),
        copies_conflict(existing, incoming) <==> existing.state_generation
            == incoming.state_generation && existing.state_hash != incoming.state_hash,
{
}

/// The answer to a backward pass carries the gradients that were computed and the
/// hashes and generations of what has been stored.
pub proof fn law_backward_answer_tells_what_was_stored(
    request_id: JobId,
    shard: V4LocalTensorShardView,
    plan_generation: u64,
    sequence: u64,
    weight_gradient: Seq<i64>,
    input_gradient: Seq<i64>,
    optimizer: Option<(ArtifactId, u64)>,
)
    ensures
        ({
            let a = backward_answer(
                request_id,
                shard,
                plan_generation,
                sequence,
                weight_gradient,
                input_gradient,
                optimizer,
            );
            &&& a.request_id == request_id
            &&& a.job_id == shard.job_id
            &&& a.shard_id == shard.shard_id
            &&& a.plan_generation == plan_generation
            &&& a.sequence == sequence
            &&& a.weight_gradient == weight_gradient
            &&& a.input_gradient == input_gradient
            &&& a.state_hash == shard.state_hash
            &&& a.state_generation == shard.state_generation
            &&& optimizer is None ==> a.optimizer_state_hash is None
                && a.optimizer_state_generation == 0
            &&& optimizer is Some ==> a.optimizer_state_hash == Some((optimizer->0).0)
                && a.optimizer_state_generation == (optimizer->0).1
        }),
{
}

/// The sequence of a window counts the windows of all graphs before it, 4097 for each.
pub proof fn law_sequence_counts_windows(graph_generation: u64, window: u64)
    requires
        graph_generation * 4097 + window + 1 <= u64::MAX,
    ensures
        sequence_of(graph_generation, window) == graph_generation * 4097 + window + 1,
{
    assert(graph_generation * 4097 >= 0);
}

/// A shard takes the passes of its own plan and model, with an input for each column
/// and an error for each row.
pub proof fn law_passes_fit_the_shape(
    shard: V4LocalTensorShardView,
    forward: V4TensorForwardView,
    inputs: int,
    outputs: int,
)
    ensures
        forward_fits(shard, forward) ==> forward.input.len() == shard.cols
            && forward.plan_generation == shard.plan_generation && forward.model_generation
            == shard.model_generation,
        backward_fits(shard, shard.plan_generation, shard.model_generation, inputs, outputs) <==> (
        inputs == shard.cols && outputs == shard.rows),
        forward.plan_generation == shard.plan_generation && forward.model_generation
            == shard.model_generation && forward.input.len() == shard.cols ==> forward_fits(
            shard,
            forward,
        ),
{
}

} // verus!
