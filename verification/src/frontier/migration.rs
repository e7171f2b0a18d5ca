//! Shard transfers: the checks of the source, the messages it sends, and what
//! the target does with them.

use crate::base::arith::sat_u64;
use crate::base::ids::{ArtifactId, JobId, NodeId};
use crate::base::members::{contains_id, is_just};
use crate::base::search::{find, opt_view};
use crate::frontier::local::{
    V4LocalDataShard, V4LocalDataShardView, V4LocalPipelineStage, V4LocalTensorShard,
    V4LocalTensorShardView, V4ShardMigration, V4ShardMigrationAck, V4ShardMigrationPhase,
    V4ShardMigrationRequest, V4ShardMigrationView,
};
use crate::frontier::plan::{
    find_shard, local_shard_current, numbered, plan_seeded, seed_plan_shard, seeded_shard,
    shard_position, ShardMove, ShardPlanError,
};
use crate::frontier::types::{
    V4ShardOwnershipView, V4TrainingPlan, V4TrainingPlanView,
};
use vstd::prelude::*;

verus! {

/// The largest shard state that is held or moved.
pub const MAX_STATE_BYTES: usize = 65_536;

/// How long a shard stays where it is after a move, in milliseconds.
pub const SHARD_COOLDOWN_MS: u64 = 5_000;

/// A shard state that is neither empty nor too large.
pub open spec fn state_size_ok(bytes: int) -> bool {
    0 < bytes <= MAX_STATE_BYTES
}

/// Whether a shard state is neither empty nor too large.
pub fn valid_state_size(bytes: usize) -> (r: bool)
    ensures
        r == state_size_ok(bytes as int),
{
    0 < bytes && bytes <= MAX_STATE_BYTES
}

/// Why data is not put into a shard.
#[derive(Clone, Copy, Debug, PartialEq, Eq, Structural)]
pub enum SeedError {
    /// The data is empty or too large.
    Size,
    /// The plan of the job forbids it.
    Plan(ShardPlanError),
}

/// The plan of a job after data has been put into one of its shards, and the
/// shard. A job without a plan starts at generation one.
pub open spec fn seeded(
    plan: Option<V4TrainingPlanView>,
    node: NodeId,
    job_id: JobId,
    shard_id: u16,
    hash: ArtifactId,
    bytes: Seq<u8>,
) -> Result<(Option<V4TrainingPlanView>, V4LocalDataShardView), SeedError> {
    let shard = V4LocalDataShardView {
        job_id,
        shard_id,
        plan_generation: 1,
        ownership_generation: 1,
        hash,
        bytes,
    };
    if !state_size_ok(bytes.len() as int) {
        Err(SeedError::Size)
    } else {
        match plan {
            None => Ok((None, shard)),
            Some(p) => match plan_seeded(p, node, shard_id, hash, bytes.len() as int) {
                Err(e) => Err(SeedError::Plan(e)),
                Ok((next, ownership_generation)) => Ok(
                    (
                        Some(next),
                        V4LocalDataShardView {
                            plan_generation: next.plan_generation,
                            ownership_generation,
                            ..shard
                        },
                    ),
                ),
            },
        }
    }
}

/// Put data into a shard that this node owns. `hash` is the hash of the data,
/// `plan` the plan of the job, if it has one; the hash of the plan is left
/// unset.
pub fn seed_shard(
    plan: &mut Option<V4TrainingPlan>,
    node: NodeId,
    job_id: JobId,
    shard_id: u16,
    hash: ArtifactId,
    bytes: Vec<u8>,
) -> (r: Result<V4LocalDataShard, SeedError>)
    ensures
        match seeded(opt_view(*old(plan)), node, job_id, shard_id, hash, bytes@) {
            Err(e) => r == Err::<V4LocalDataShard, SeedError>(e) && opt_view(*final(plan))
                == opt_view(*old(plan)),
            Ok((next, shard)) => r is Ok && r->Ok_0@ == shard && opt_view(*final(plan)) == next,
        },
{
    if !valid_state_size(bytes.len()) {
        return Err(SeedError::Size);
    }
    let mut shard = V4LocalDataShard {
        job_id,
        shard_id,
        plan_generation: 1,
        ownership_generation: 1,
        hash,
        bytes,
    };
    match plan {
        None => {},
        Some(plan) => {
            match seed_plan_shard(plan, node, shard_id, hash, shard.bytes.len()) {
                Err(e) => {
                    return Err(SeedError::Plan(e));
                },
                Ok(generation) => {
                    shard.plan_generation = plan.plan_generation;
                    shard.ownership_generation = generation;
                },
            }
        },
    }
    Ok(shard)
}

proof fn lemma_found_is_numbered(shards: Seq<V4ShardOwnershipView>, shard_id: u16)
    ensures
        find(shards, numbered(shard_id)) is Some ==> find(
            shards,
            numbered(shard_id),
        )->0.shard_id == shard_id,
    decreases shards.len(),
{
    if shards.len() > 0 && shards[0].shard_id != shard_id {
        lemma_found_is_numbered(shards.drop_first(), shard_id);
    }
}

proof fn lemma_find_replaced(
    shards: Seq<V4ShardOwnershipView>,
    shard_id: u16,
    shard: V4ShardOwnershipView,
)
    requires
        find(shards, numbered(shard_id)) is Some,
        shard.shard_id == shard_id,
    ensures
        ({
            let at = shard_position(shards, shard_id);
            &&& 0 <= at < shards.len()
            &&& find(shards.update(at, shard), numbered(shard_id)) == Some(shard)
        }),
    decreases shards.len(),
{
    let at = shard_position(shards, shard_id);
    if shards[0].shard_id != shard_id {
        let rest = shards.drop_first();
        lemma_find_replaced(rest, shard_id, shard);
        assert(shards.update(at, shard).drop_first() =~= rest.update(at - 1, shard));
        assert(shards.update(at, shard)[0] == shards[0]);
    }
}

/// The shard that data was put into is the one that the plan then records for
/// this node, so that it can be moved at once.
pub proof fn law_seeded_shard_is_current(
    plan: V4TrainingPlanView,
    node: NodeId,
    target: NodeId,
    job_id: JobId,
    shard_id: u16,
    hash: ArtifactId,
    bytes: Seq<u8>,
)
    requires
        target != node,
        seeded(Some(plan), node, job_id, shard_id, hash, bytes) is Ok,
    ensures
        ({
            let (next, shard) = seeded(Some(plan), node, job_id, shard_id, hash, bytes)->Ok_0;
            move_refused(node, target, shard, next) is None
        }),
{
    let held = find(plan.shards, numbered(shard_id))->0;
    lemma_found_is_numbered(plan.shards, shard_id);
    lemma_find_replaced(plan.shards, shard_id, seeded_shard(held, hash, bytes.len() as int));
}

/// Why a shard is not moved.
#[derive(Clone, Copy, Debug, PartialEq, Eq, Structural)]
pub enum MigrateError {
    /// The target is this node.
    SameNode,
    /// The plan has no such shard.
    UnknownShard,
    /// The local shard is not what the active plan says.
    Stale,
}

/// The local shard is the one that the plan records for this node.
pub open spec fn shard_matches_plan(
    node: NodeId,
    shard: V4LocalDataShardView,
    plan: V4TrainingPlanView,
    s: V4ShardOwnershipView,
) -> bool {
    &&& s.owners.contains(node)
    &&& shard.plan_generation == plan.plan_generation
    &&& shard.ownership_generation == s.ownership_generation
    &&& shard.hash == s.content_hash
}

/// Why a local shard is not moved to `target`, if it is not.
pub open spec fn move_refused(
    node: NodeId,
    target: NodeId,
    shard: V4LocalDataShardView,
    plan: Option<V4TrainingPlanView>,
) -> Option<MigrateError> {
    if target == node {
        Some(MigrateError::SameNode)
    } else {
        match plan {
            None => None,
            Some(p) => match find(p.shards, numbered(shard.shard_id)) {
                None => Some(MigrateError::UnknownShard),
                Some(s) => if shard_matches_plan(node, shard, p, s) {
                    None
                } else {
                    Some(MigrateError::Stale)
                },
            },
        }
    }
}

/// Check a local shard before it is moved to `target`.
pub fn check_move(
    node: NodeId,
    target: NodeId,
    shard: &V4LocalDataShard,
    plan: &Option<V4TrainingPlan>,
) -> (r: Option<MigrateError>)
    ensures
        r == move_refused(node, target, shard@, opt_view(*plan)),
{
    if target == node {
        return Some(MigrateError::SameNode);
    }
    match plan {
        None => None,
        Some(plan) => match find_shard(&plan.shards, shard.shard_id) {
            None => Some(MigrateError::UnknownShard),
            Some(s) => {
                if contains_id(&s.owners, node) && shard.plan_generation == plan.plan_generation
                    && shard.ownership_generation == s.ownership_generation && shard.hash
                    == s.content_hash {
                    None
                } else {
                    Some(MigrateError::Stale)
                }
            },
        },
    }
}

/// One step of the transfer of a shard; only the first carries the state.
pub open spec fn transfer_step(
    shard: V4LocalDataShardView,
    node: NodeId,
    target: NodeId,
    plan_generation: u64,
    ownership_generation: u64,
    phase: V4ShardMigrationPhase,
) -> V4ShardMigrationView {
    V4ShardMigrationView {
        job_id: shard.job_id,
        plan_generation,
        shard_id: shard.shard_id,
        from: node,
        to: target,
        ownership_generation,
        content_hash: shard.hash,
        state: if phase == V4ShardMigrationPhase::Prepare {
            shard.bytes
        } else {
            Seq::empty()
        },
        phase,
    }
}

/// One step of the transfer of a shard.
pub fn transfer_message(
    shard: &V4LocalDataShard,
    node: NodeId,
    target: NodeId,
    plan_generation: u64,
    ownership_generation: u64,
    phase: V4ShardMigrationPhase,
) -> (r: V4ShardMigration)
    ensures
        r@ == transfer_step(
            shard@,
            node,
            target,
            plan_generation,
            ownership_generation,
            phase,
        ),
{
    let state: Vec<u8> = if phase == V4ShardMigrationPhase::Prepare {
        shard.bytes.clone()
    } else {
        Vec::new()
    };
    V4ShardMigration {
        job_id: shard.job_id,
        plan_generation,
        shard_id: shard.shard_id,
        from: node,
        to: target,
        ownership_generation,
        content_hash: shard.hash,
        state,
        phase,
    }
}

/// The ownership generation of a shard once it has moved.
pub fn next_ownership(shard: &V4LocalDataShard) -> (r: u64)
    ensures
        r == sat_u64(shard@.ownership_generation + 1),
{
    shard.ownership_generation.saturating_add(1)
}

/// The target confirms that it holds the content.
pub open spec fn confirms_content(
    shard: V4LocalDataShardView,
    target: NodeId,
    phase: V4ShardMigrationPhase,
    peer: NodeId,
    ack: V4ShardMigrationAck,
) -> bool {
    peer == target && ack.verified && ack.phase == phase && ack.content_hash == shard.hash
}

/// Whether the target of a standalone move has verified the state.
pub fn migration_verified(
    shard: &V4LocalDataShard,
    target: NodeId,
    peer: NodeId,
    ack: &V4ShardMigrationAck,
) -> (r: bool)
    ensures
        r == confirms_content(shard@, target, V4ShardMigrationPhase::Prepare, peer, *ack),
{
    peer == target && ack.verified && ack.phase == V4ShardMigrationPhase::Prepare
        && ack.content_hash == shard.hash
}

/// Whether the target confirms a step for exactly this ownership generation.
pub fn transfer_confirmed(
    shard: &V4LocalDataShard,
    target: NodeId,
    ownership_generation: u64,
    phase: V4ShardMigrationPhase,
    peer: NodeId,
    ack: &V4ShardMigrationAck,
) -> (r: bool)
    ensures
        r == (confirms_content(shard@, target, phase, peer, *ack) && ack.ownership_generation
            == ownership_generation),
{
    peer == target && ack.verified && ack.phase == phase && ack.content_hash == shard.hash
        && ack.ownership_generation == ownership_generation
}

/// Why a step of a transfer is refused.
#[derive(Clone, Copy, Debug, PartialEq, Eq, Structural)]
pub enum TransferError {
    /// The step is not from its source or not for this node.
    PeerBinding,
    /// The state is empty or too large.
    PayloadSize,
    /// The state does not have the hash it claims.
    HashMismatch,
    /// Another copy of the shard is held.
    Overwrite,
    /// There is no such prepared state to commit.
    NotPrepared,
}

/// What a step of a transfer makes of the shard held here.
#[derive(Debug, PartialEq, Eq)]
pub enum TransferStep {
    /// Store the shard, then acknowledge.
    Store(V4LocalDataShard),
    /// The step changes nothing; acknowledge it.
    Acknowledge,
    /// Drop the shard; this is not acknowledged.
    Remove,
    /// The step changes nothing and is not acknowledged.
    Nothing,
}

/// The shard that a prepared transfer leaves here.
pub open spec fn prepared_shard(m: V4ShardMigrationView) -> V4LocalDataShardView {
    V4LocalDataShardView {
        job_id: m.job_id,
        shard_id: m.shard_id,
        plan_generation: m.plan_generation,
        ownership_generation: m.ownership_generation,
        hash: m.content_hash,
        bytes: m.state,
    }
}

/// The shard held here is the one that the step speaks of.
pub open spec fn same_transfer(held: V4LocalDataShardView, m: V4ShardMigrationView) -> bool {
    held.ownership_generation == m.ownership_generation && held.hash == m.content_hash
}

/// The shard held after a step, or the reason that it is refused.
pub open spec fn after_step(
    node: NodeId,
    peer: NodeId,
    m: V4ShardMigrationView,
    computed: ArtifactId,
    held: Option<V4LocalDataShardView>,
) -> Result<Option<V4LocalDataShardView>, TransferError> {
    if m.to != node || m.from != peer {
        Err(TransferError::PeerBinding)
    } else {
        match m.phase {
            V4ShardMigrationPhase::Prepare => if !state_size_ok(m.state.len() as int) {
                Err(TransferError::PayloadSize)
            } else if computed != m.content_hash {
                Err(TransferError::HashMismatch)
            } else {
                match held {
                    None => Ok(Some(prepared_shard(m))),
                    Some(h) => if same_transfer(h, m) && h.bytes == m.state {
                        Ok(held)
                    } else {
                        Err(TransferError::Overwrite)
                    },
                }
            },
            V4ShardMigrationPhase::Commit => if held is Some && same_transfer(held->0, m) {
                Ok(held)
            } else {
                Err(TransferError::NotPrepared)
            },
            V4ShardMigrationPhase::Abort => if held is Some && same_transfer(held->0, m) {
                Ok(None)
            } else {
                Ok(held)
            },
        }
    }
}

fn same_bytes(a: &Vec<u8>, b: &Vec<u8>) -> (r: bool)
    ensures
        r == (a@ == b@),
{
    if a.len() != b.len() {
        return false;
    }
    let mut i: usize = 0;
    while i < a.len()
        invariant
            a@.len() == b@.len(),
            0 <= i <= a@.len(),
            forall|j: int| 0 <= j < i ==> a@[j] == b@[j],
        decreases a@.len() - i,
    {
        if a[i] != b[i] {
            assert(a@[i as int] != b@[i as int]);
            return false;
        }
        i += 1;
    }
    assert(a@ =~= b@);
    true
}

/// Follow a step of a transfer. `computed` is the hash of the state it carries,
/// `held` the shard that is held here under the same job and number.
pub fn receive_shard_migration(
    node: NodeId,
    peer: NodeId,
    migration: &V4ShardMigration,
    computed: ArtifactId,
    held: &Option<V4LocalDataShard>,
) -> (r: Result<TransferStep, TransferError>)
    ensures
        ({
            let m = migration@;
            let h = opt_view(*held);
            match after_step(node, peer, m, computed, h) {
                Err(e) => r == Err::<TransferStep, TransferError>(e),
                Ok(after) => match r {
                    Err(_) => false,
                    Ok(TransferStep::Store(shard)) => m.phase == V4ShardMigrationPhase::Prepare
                        && h is None && after == Some(shard@),
                    Ok(TransferStep::Acknowledge) => m.phase != V4ShardMigrationPhase::Abort
                        && h is Some && after == h,
                    Ok(TransferStep::Remove) => m.phase == V4ShardMigrationPhase::Abort && h is Some
                        && after is None,
                    Ok(TransferStep::Nothing) => m.phase == V4ShardMigrationPhase::Abort && after
                        == h,
                },
            }
        }),
{
    if migration.to != node || migration.from != peer {
        return Err(TransferError::PeerBinding);
    }
    match migration.phase {
        V4ShardMigrationPhase::Prepare => {
            if !valid_state_size(migration.state.len()) {
                return Err(TransferError::PayloadSize);
            }
            if computed != migration.content_hash {
                return Err(TransferError::HashMismatch);
            }
            match held {
                Some(shard) => {
                    if shard.ownership_generation == migration.ownership_generation && shard.hash
                        == migration.content_hash && same_bytes(&shard.bytes, &migration.state) {
                        Ok(TransferStep::Acknowledge)
                    } else {
                        Err(TransferError::Overwrite)
                    }
                },
                None => Ok(
                    TransferStep::Store(
                        V4LocalDataShard {
                            job_id: migration.job_id,
                            shard_id: migration.shard_id,
                            plan_generation: migration.plan_generation,
                            ownership_generation: migration.ownership_generation,
                            hash: migration.content_hash,
                            bytes: migration.state.clone(),
                        },
                    ),
                ),
            }
        },
        V4ShardMigrationPhase::Commit => match held {
            Some(shard) => {
                if shard.hash == migration.content_hash && shard.ownership_generation
                    == migration.ownership_generation {
                    Ok(TransferStep::Acknowledge)
                } else {
                    Err(TransferError::NotPrepared)
                }
            },
            None => Err(TransferError::NotPrepared),
        },
        V4ShardMigrationPhase::Abort => match held {
            Some(shard) => {
                if shard.ownership_generation == migration.ownership_generation && shard.hash
                    == migration.content_hash {
                    Ok(TransferStep::Remove)
                } else {
                    Ok(TransferStep::Nothing)
                }
            },
            None => Ok(TransferStep::Nothing),
        },
    }
}

/// The acknowledgement of a step.
pub fn migration_ack(migration: &V4ShardMigration, node: NodeId, verified: bool) -> (r:
    V4ShardMigrationAck)
    ensures
        r == (V4ShardMigrationAck {
            job_id: migration@.job_id,
            plan_generation: migration@.plan_generation,
            shard_id: migration@.shard_id,
            owner: node,
            ownership_generation: migration@.ownership_generation,
            content_hash: migration@.content_hash,
            phase: migration@.phase,
            verified,
        }),
{
    V4ShardMigrationAck {
        job_id: migration.job_id,
        plan_generation: migration.plan_generation,
        shard_id: migration.shard_id,
        owner: node,
        ownership_generation: migration.ownership_generation,
        content_hash: migration.content_hash,
        phase: migration.phase,
        verified,
    }
}

/// A transfer that a target has prepared can be prepared again without change,
/// committed, and undone by an abort.
pub proof fn law_prepared_transfer(
    node: NodeId,
    target: NodeId,
    shard: V4LocalDataShardView,
    plan_generation: u64,
    ownership_generation: u64,
    any: ArtifactId,
)
    requires
        state_size_ok(shard.bytes.len() as int),
    ensures
        ({
            let prepare = transfer_step(
                shard,
                node,
                target,
                plan_generation,
                ownership_generation,
                V4ShardMigrationPhase::Prepare,
            );
            let commit = transfer_step(
                shard,
                node,
                target,
                plan_generation,
                ownership_generation,
                V4ShardMigrationPhase::Commit,
            );
            let abort = transfer_step(
                shard,
                node,
                target,
                plan_generation,
                ownership_generation,
                V4ShardMigrationPhase::Abort,
            );
            let first = after_step(target, node, prepare, shard.hash, None);
            &&& first is Ok
            &&& first->Ok_0 is Some
            &&& first->Ok_0->0.bytes == shard.bytes
            &&& first->Ok_0->0.hash == shard.hash
            &&& after_step(target, node, prepare, shard.hash, first->Ok_0) == first
            &&& after_step(target, node, commit, any, first->Ok_0) == first
            &&& after_step(target, node, abort, any, first->Ok_0) == Ok::<
                Option<V4LocalDataShardView>,
                TransferError,
            >(None)
            &&& after_step(target, node, commit, any, None) is Err
        }),
{
}

/// No step replaces a held shard by another one: it stays as it is, or an abort
/// of the same transfer drops it.
pub proof fn law_transfer_never_overwrites(
    node: NodeId,
    peer: NodeId,
    m: V4ShardMigrationView,
    computed: ArtifactId,
    held: V4LocalDataShardView,
)
    ensures
        match after_step(node, peer, m, computed, Some(held)) {
            Ok(Some(after)) => after == held,
            Ok(None) => m.phase == V4ShardMigrationPhase::Abort && same_transfer(held, m),
            Err(_) => true,
        },
{
}

/// The request for a handover that a proposer sends to an old owner.
pub fn migration_request(
    request_id: JobId,
    proposal: &V4TrainingPlan,
    node: NodeId,
    wanted: &ShardMove,
) -> (r: V4ShardMigrationRequest)
    ensures
        r == (V4ShardMigrationRequest {
            request_id,
            job_id: proposal@.job_id,
            proposer: node,
            proposal_hash: proposal@.plan_hash,
            plan_generation: proposal@.plan_generation,
            shard_id: wanted.shard_id,
            from: wanted.from,
            to: wanted.to,
            ownership_generation: wanted.ownership_generation,
            content_hash: wanted.content_hash,
            reply_to: node,
        }),
{
    V4ShardMigrationRequest {
        request_id,
        job_id: proposal.job_id,
        proposer: node,
        proposal_hash: proposal.plan_hash,
        plan_generation: proposal.plan_generation,
        shard_id: wanted.shard_id,
        from: wanted.from,
        to: wanted.to,
        ownership_generation: wanted.ownership_generation,
        content_hash: wanted.content_hash,
        reply_to: node,
    }
}

/// What becomes of a request for a handover.
#[derive(Clone, Copy, Debug, PartialEq, Eq, Structural)]
pub enum RequestVerdict {
    /// The request is not from the proposer or not to this node.
    Binding,
    /// There is no active plan or no proposal for the job.
    NoProposal,
    /// The plans, the shard or the local state do not bear it out.
    Unauthorized,
    /// The transfer is carried out.
    Transfer,
}

/// The active plan, the proposal and the local shard all bear out the request.
pub open spec fn handover_authorized(
    node: NodeId,
    q: V4ShardMigrationRequest,
    current: V4TrainingPlanView,
    proposal: V4TrainingPlanView,
    proposal_valid: bool,
    local: Option<V4LocalDataShardView>,
    local_hash: ArtifactId,
) -> bool {
    &&& proposal.proposer == q.proposer
    &&& proposal.plan_hash == q.proposal_hash
    &&& proposal.parent_plan_hash == Some(current.plan_hash)
    &&& proposal.plan_generation == q.plan_generation
    &&& proposal_valid
    &&& current.plan_generation < proposal.plan_generation
    &&& match find(current.shards, numbered(q.shard_id)) {
        Some(s) => s.owners == seq![node] && s.content_hash == q.content_hash && sat_u64(
            s.ownership_generation + 1,
        ) == q.ownership_generation,
        None => false,
    }
    &&& match find(proposal.shards, numbered(q.shard_id)) {
        Some(s) => s.owners == seq![q.to] && s.content_hash == q.content_hash
            && s.ownership_generation == q.ownership_generation && proposal.workers.contains(q.to),
        None => false,
    }
    &&& match local {
        Some(h) => local_shard_current(
            h,
            current.plan_generation,
            q.ownership_generation,
            q.content_hash,
        ) && local_hash == h.hash,
        None => false,
    }
}

/// Judge a request for a handover. `proposal_valid` tells whether the hash and
/// the rules of the proposal hold, `local_hash` is the hash of the local bytes.
pub fn receive_shard_migration_request(
    node: NodeId,
    peer: NodeId,
    request: &V4ShardMigrationRequest,
    current: &Option<V4TrainingPlan>,
    proposal: &Option<V4TrainingPlan>,
    proposal_valid: bool,
    local: &Option<V4LocalDataShard>,
    local_hash: ArtifactId,
) -> (r: RequestVerdict)
    ensures
        r == (if peer != request.proposer || request.from != node {
            RequestVerdict::Binding
        } else {
            match (opt_view(*current), opt_view(*proposal)) {
                (Some(c), Some(p)) => if handover_authorized(
                    node,
                    *request,
                    c,
                    p,
                    proposal_valid,
                    opt_view(*local),
                    local_hash,
                ) {
                    RequestVerdict::Transfer
                } else {
                    RequestVerdict::Unauthorized
                },
                _ => RequestVerdict::NoProposal,
            }
        }),
{
    if peer != request.proposer || request.from != node {
        return RequestVerdict::Binding;
    }
    let current = match current {
        Some(current) => current,
        None => {
            return RequestVerdict::NoProposal;
        },
    };
    let proposal = match proposal {
        Some(proposal) => proposal,
        None => {
            return RequestVerdict::NoProposal;
        },
    };
    let lineage = proposal.proposer == request.proposer && proposal.plan_hash
        == request.proposal_hash && proposal.parent_plan_hash == Some(current.plan_hash)
        && proposal.plan_generation == request.plan_generation && proposal_valid
        && current.plan_generation < proposal.plan_generation;
    let held = match find_shard(&current.shards, request.shard_id) {
        Some(s) => is_just(&s.owners, node) && s.content_hash == request.content_hash
            && s.ownership_generation.saturating_add(1) == request.ownership_generation,
        None => false,
    };
    let wanted = match find_shard(&proposal.shards, request.shard_id) {
        Some(s) => is_just(&s.owners, request.to) && s.content_hash == request.content_hash
            && s.ownership_generation == request.ownership_generation && contains_id(
            &proposal.workers,
            request.to,
        ),
        None => false,
    };
    let ready = match local {
        Some(shard) => shard.plan_generation == current.plan_generation
            && shard.ownership_generation == request.ownership_generation.saturating_sub(1)
            && shard.hash == request.content_hash && local_hash == shard.hash,
        None => false,
    };
    if lineage && held && wanted && ready {
        RequestVerdict::Transfer
    } else {
        RequestVerdict::Unauthorized
    }
}

/// This node owns the shard or holds a replica of it.
pub open spec fn has_copy(s: V4ShardOwnershipView, node: NodeId) -> bool {
    s.owners.contains(node) || s.replicas.contains(node)
}

/// The data shard brought forward to a plan, where the plan records it.
pub open spec fn synced_data_shard(
    shard: V4LocalDataShardView,
    plan: V4TrainingPlanView,
    node: NodeId,
) -> Option<V4LocalDataShardView> {
    match find(plan.shards, numbered(shard.shard_id)) {
        Some(s) if shard.job_id == plan.job_id && has_copy(s, node) && s.content_hash == shard.hash
            && s.ownership_generation >= shard.ownership_generation => Some(
            V4LocalDataShardView {
                plan_generation: plan.plan_generation,
                ownership_generation: s.ownership_generation,
                ..shard
            },
        ),
        _ => None,
    }
}

/// Bring a data shard forward to a plan. The result tells whether it changed.
pub fn sync_data_shard(shard: &mut V4LocalDataShard, plan: &V4TrainingPlan, node: NodeId) -> (r:
    bool)
    ensures
        match synced_data_shard(old(shard)@, plan@, node) {
            Some(after) => r && final(shard)@ == after,
            None => !r && final(shard)@ == old(shard)@,
        },
{
    if shard.job_id != plan.job_id {
        return false;
    }
    match find_shard(&plan.shards, shard.shard_id) {
        Some(s) => {
            if (contains_id(&s.owners, node) || contains_id(&s.replicas, node)) && s.content_hash
                == shard.hash && s.ownership_generation >= shard.ownership_generation {
                shard.plan_generation = plan.plan_generation;
                shard.ownership_generation = s.ownership_generation;
                true
            } else {
                false
            }
        },
        None => false,
    }
}

/// The tensor shard is the one that the plan records for this node.
pub open spec fn tensor_shard_follows(
    shard: V4LocalTensorShardView,
    plan: V4TrainingPlanView,
    node: NodeId,
) -> bool {
    &&& shard.job_id == plan.job_id
    &&& match find(plan.shards, numbered(shard.shard_id)) {
        Some(s) => s.model_generation == shard.model_generation && s.content_hash
            == shard.state_hash && has_copy(s, node),
        None => false,
    }
}

/// Bring a tensor shard forward to a plan. The result tells whether it changed.
pub fn sync_tensor_shard(
    shard: &mut V4LocalTensorShard,
    plan: &V4TrainingPlan,
    node: NodeId,
) -> (r: bool)
    ensures
        r == tensor_shard_follows(old(shard)@, plan@, node),
        final(shard)@ == (if r {
            V4LocalTensorShardView { plan_generation: plan@.plan_generation, ..old(shard)@ }
        } else {
            old(shard)@
        }),
{
    if shard.job_id != plan.job_id {
        return false;
    }
    match find_shard(&plan.shards, shard.shard_id) {
        Some(s) => {
            if s.model_generation == shard.model_generation && s.content_hash == shard.state_hash
                && (contains_id(&s.owners, node) || contains_id(&s.replicas, node)) {
                shard.plan_generation = plan.plan_generation;
                true
            } else {
                false
            }
        },
        None => false,
    }
}

/// Bring a pipeline stage forward to a plan. The result tells whether it changed.
pub fn sync_pipeline_stage(
    stage: &mut V4LocalPipelineStage,
    plan: &V4TrainingPlan,
    node: NodeId,
) -> (r: bool)
    ensures
        r == (old(stage)@.job_id == plan@.job_id && plan@.pipeline_stages == old(stage)@.stage_count
            && plan@.workers.contains(node)),
        final(stage)@ == (if r {
            V4LocalPipelineStage { plan_generation: plan@.plan_generation, ..old(stage)@ }
        } else {
            old(stage)@
        }),
{
    if stage.job_id != plan.job_id || plan.pipeline_stages != stage.stage_count || !contains_id(
        &plan.workers,
        node,
    ) {
        return false;
    }
    stage.plan_generation = plan.plan_generation;
    true
}

/// Bringing local state forward never takes over content that the plan does not
/// record, nor an older ownership.
pub proof fn law_sync_keeps_content(
    shard: V4LocalDataShardView,
    plan: V4TrainingPlanView,
    node: NodeId,
)
    requires
        synced_data_shard(shard, plan, node) is Some,
    ensures
        synced_data_shard(shard, plan, node)->0.bytes == shard.bytes,
        synced_data_shard(shard, plan, node)->0.hash == shard.hash,
        synced_data_shard(shard, plan, node)->0.ownership_generation
            >= shard.ownership_generation,
{
}

/// A state may have one byte to 64 KiB.
pub proof fn law_state_sizes(bytes: int)
    ensures
        state_size_ok(bytes) <==> 1 <= bytes <= 65_536,
{
}

/// A seeded shard holds the bytes that were put in, under their hash; without a plan it is
/// at the first generation, with one at that of the changed plan.
pub proof fn law_seeded_shard_holds_the_bytes(
    plan: Option<V4TrainingPlanView>,
    node: NodeId,
    job_id: JobId,
    shard_id: u16,
    hash: ArtifactId,
    bytes: Seq<u8>,
)
    ensures
        ({
            let r = seeded(plan, node, job_id, shard_id, hash, bytes);
            &&& r matches Ok((next, shard)) ==> {
                &&& shard.bytes == bytes && shard.hash == hash
                &&& shard.job_id == job_id && shard.shard_id == shard_id
                &&& 1 <= bytes.len() <= 65_536
                &&& next is Some <==> plan is Some
                &&& plan is None ==> shard.plan_generation == 1 && shard.ownership_generation == 1
                &&& plan is Some ==> shard.plan_generation == next->0.plan_generation
                    && next->0.parent_plan_hash == Some(plan->0.plan_hash)
            }
            &&& bytes.len() == 0 || bytes.len() > 65_536 ==> r == Err::<
                (Option<V4TrainingPlanView>, V4LocalDataShardView),
                _,
            >(SeedError::Size)
            &&& plan is None && 1 <= bytes.len() <= 65_536 ==> r is Ok
        }),
{
}

/// A step of a transfer names the shard, both ends and both generations, and only the
/// first carries the state.
pub proof fn law_transfer_carries_the_shard(
    shard: V4LocalDataShardView,
    node: NodeId,
    target: NodeId,
    plan_generation: u64,
    ownership_generation: u64,
    phase: V4ShardMigrationPhase,
)
    ensures
        ({
            let t = transfer_step(
                shard,
                node,
                target,
                plan_generation,
                ownership_generation,
                phase,
            );
            &&& t.from == node && t.to == target && t.phase == phase
            &&& t.job_id == shard.job_id && t.shard_id == shard.shard_id
            &&& t.content_hash == shard.hash
            &&& t.plan_generation == plan_generation
            &&& t.ownership_generation == ownership_generation
            &&& phase is Prepare ==> t.state == shard.bytes
            &&& !(phase is Prepare) ==> t.state.len() == 0
        }),
        ({
            let t = transfer_step(
                shard,
                node,
                target,
                plan_generation,
                ownership_generation,
                V4ShardMigrationPhase::Prepare,
            );
            prepared_shard(t) == (V4LocalDataShardView {
                plan_generation,
                ownership_generation,
                ..shard
            })
        }),
{
}

/// A prepared state is kept as sent, under its own hash and only where nothing else is
/// held; a commit needs it to be there, and an abort drops it.
pub proof fn law_transfers_are_prepared_first(
    node: NodeId,
    peer: NodeId,
    m: V4ShardMigrationView,
    computed: ArtifactId,
    held: Option<V4LocalDataShardView>,
)
    ensures
        ({
            let r = after_step(node, peer, m, computed, held);
            let same = held is Some && held->0.ownership_generation == m.ownership_generation
                && held->0.hash == m.content_hash;
            &&& m.to != node || m.from != peer <==> r == Err::<Option<V4LocalDataShardView>, _>(
                TransferError::PeerBinding,
            )
            &&& m.phase is Prepare && r is Ok ==> computed == m.content_hash && r->Ok_0 is Some
                && r->Ok_0->0.bytes == m.state && r->Ok_0->0.hash == m.content_hash
                && r->Ok_0->0.ownership_generation == m.ownership_generation && 1 <= m.state.len()
                <= 65_536
            &&& m.phase is Prepare && m.to == node && m.from == peer && 1 <= m.state.len() <= 65_536
                && computed == m.content_hash && held is None ==> r is Ok && r->Ok_0->0.job_id
                == m.job_id && r->Ok_0->0.shard_id == m.shard_id && r->Ok_0->0.plan_generation
                == m.plan_generation
            &&& m.phase is Commit && m.to == node && m.from == peer ==> (r is Ok <==> same)
            &&& m.phase is Commit && r is Ok ==> r->Ok_0 == held
            &&& m.phase is Abort && m.to == node && m.from == peer && same ==> r == Ok::<
                Option<V4LocalDataShardView>,
                TransferError,
            >(None)
            &&& m.phase is Abort && m.to == node && m.from == peer && !same ==> r == Ok::<
                Option<V4LocalDataShardView>,
                TransferError,
            >(held)
        }),
{
}

/// A shard is moved to another node only as the plan records it here: by an owner, at the
/// plan's generation, with the ownership and the content of the plan.
pub proof fn law_moved_shard_is_the_recorded_one(
    node: NodeId,
    target: NodeId,
    shard: V4LocalDataShardView,
    p: V4TrainingPlanView,
    i: int,
)
    requires
        0 <= i < p.shards.len(),
        p.shards[i].shard_id == shard.shard_id,
        forall|j: int| 0 <= j < i ==> (#[trigger] p.shards[j]).shard_id != shard.shard_id,
    ensures
        move_refused(node, target, shard, Some(p)) is None <==> target != node
            && p.shards[i].owners.contains(node) && shard.plan_generation == p.plan_generation
            && shard.ownership_generation == p.shards[i].ownership_generation && shard.hash
            == p.shards[i].content_hash,
        move_refused(node, node, shard, Some(p)) == Some(MigrateError::SameNode),
{
    crate::base::search::lemma_find_at(p.shards, numbered(shard.shard_id), i);
}

/// The target confirms by a verified answer of its own, for this phase and this content.
pub proof fn law_target_confirms_the_content(
    shard: V4LocalDataShardView,
    target: NodeId,
    phase: V4ShardMigrationPhase,
    peer: NodeId,
    ack: V4ShardMigrationAck,
)
    ensures
        confirms_content(shard, target, phase, peer, ack) <==> peer == target && ack.verified
            && ack.phase == phase && ack.content_hash == shard.hash,
{
}

/// A handover is authorized only by a valid child of the active plan that moves this very
/// shard, with the next ownership, from this node to the target; and only with the
/// content at hand.
pub proof fn law_handovers_are_authorized(
    node: NodeId,
    q: V4ShardMigrationRequest,
    current: V4TrainingPlanView,
    proposal: V4TrainingPlanView,
    valid: bool,
    local: Option<V4LocalDataShardView>,
    local_hash: ArtifactId,
)
    requires
        handover_authorized(node, q, current, proposal, valid, local, local_hash),
    ensures
        valid,
        proposal.proposer == q.proposer,
        proposal.plan_hash == q.proposal_hash,
        proposal.parent_plan_hash == Some(current.plan_hash),
        proposal.plan_generation == q.plan_generation,
        proposal.plan_generation > current.plan_generation,
        proposal.workers.contains(q.to),
        local is Some,
        local->0.hash == q.content_hash,
        local_hash == q.content_hash,
        local->0.plan_generation == current.plan_generation,
        exists|i: int|
            0 <= i < current.shards.len() && (#[trigger] current.shards[i]).shard_id == q.shard_id
                && current.shards[i].owners.contains(node) && current.shards[i].content_hash
                == q.content_hash,
        exists|i: int|
            0 <= i < proposal.shards.len() && (#[trigger] proposal.shards[i]).shard_id == q.shard_id
                && proposal.shards[i].owners.contains(q.to)
                && proposal.shards[i].ownership_generation == q.ownership_generation,
{
    crate::base::search::lemma_find_sound(current.shards, numbered(q.shard_id));
    crate::base::search::lemma_find_sound(proposal.shards, numbered(q.shard_id));
    let a = find(current.shards, numbered(q.shard_id))->0;
    let b = find(proposal.shards, numbered(q.shard_id))->0;
    let i = current.shards.index_of(a);
    let j = proposal.shards.index_of(b);
    assert(seq![node][0] == node);
    assert(seq![q.to][0] == q.to);
    assert(current.shards[i].owners.contains(node));
    assert(proposal.shards[j].owners.contains(q.to));
}

/// A data shard follows a plan that records its content here, and then has the plan's
/// generation and ownership; its bytes stay. A tensor shard follows when the plan records
/// its model generation and hash here.
pub proof fn law_shards_follow_the_plan(
    shard: V4LocalDataShardView,
    tensor: V4LocalTensorShardView,
    plan: V4TrainingPlanView,
    node: NodeId,
)
    ensures
        synced_data_shard(shard, plan, node) matches Some(s) ==> {
            &&& s.bytes == shard.bytes && s.hash == shard.hash
            &&& s.job_id == shard.job_id && s.shard_id == shard.shard_id
            &&& s.plan_generation == plan.plan_generation
            &&& s.ownership_generation >= shard.ownership_generation
            &&& shard.job_id == plan.job_id
        },
        tensor_shard_follows(tensor, plan, node) ==> tensor.job_id == plan.job_id && exists|i: int|
            0 <= i < plan.shards.len() && (#[trigger] plan.shards[i]).shard_id == tensor.shard_id
                && plan.shards[i].content_hash == tensor.state_hash
                && plan.shards[i].model_generation == tensor.model_generation && (
            plan.shards[i].owners.contains(node) || plan.shards[i].replicas.contains(node)),
{
    if tensor_shard_follows(tensor, plan, node) {
        crate::base::search::lemma_find_sound(plan.shards, numbered(tensor.shard_id));
        let found = find(plan.shards, numbered(tensor.shard_id))->0;
        let i = plan.shards.index_of(found);
        assert(plan.shards[i].shard_id == tensor.shard_id);
    }
}

} // verus!
