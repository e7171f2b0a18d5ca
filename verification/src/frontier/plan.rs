//! Execution plans: which plans and proposals are taken over, how a replan is
//! rebased on the active plan, and what its activation checks and moves.

use crate::base::arith::{max_int, max_u64, min_int, sat_u64};
use crate::base::ids::{unsigned_hash, ArtifactId, NodeId};
use crate::base::members::{
    ascending, concat_ids, contains_id, drop_repeats, filter_other_than, first_ids, same_ids,
    sorted_unique, without_repeats,
};
use crate::base::record::Duplicate;
use crate::base::search::{find, lemma_find_at, lemma_views_push, opt_view, other_than, views};
use crate::frontier::local::{V4LocalDataShard, V4PlanAck, V4PlanProposalAck};
use crate::frontier::types::{
    V4ShardLifecycle, V4ShardOwnership, V4ShardOwnershipView, V4TrainingPlan, V4TrainingPlanView,
};
use vstd::prelude::*;

verus! {

/// The most workers that a plan spans.
pub const MAX_PLAN_WORKERS: usize = 16;

/// The most plan proposals that are kept.
pub const MAX_PLAN_PROPOSALS: usize = 128;

/// The most replicas that a shard keeps.
pub const MAX_REPLICAS: usize = 16;

/// The shards numbered `shard_id`.
pub open spec fn numbered(shard_id: u16) -> spec_fn(V4ShardOwnershipView) -> bool {
    |s: V4ShardOwnershipView| s.shard_id == shard_id
}

/// The first shard numbered `shard_id`.
pub fn find_shard(shards: &Vec<V4ShardOwnership>, shard_id: u16) -> (r: Option<&V4ShardOwnership>)
    ensures
        match r {
            Some(s) => find(views(shards@), numbered(shard_id)) == Some(s@),
            None => find(views(shards@), numbered(shard_id)) is None,
        },
{
    match shard_index(shards, shard_id) {
        Some(i) => Some(&shards[i]),
        None => None,
    }
}

/// The position of the first shard numbered `shard_id`.
pub open spec fn shard_position(shards: Seq<V4ShardOwnershipView>, shard_id: u16) -> int
    decreases shards.len(),
{
    if shards.len() == 0 || shards[0].shard_id == shard_id {
        0
    } else {
        1 + shard_position(shards.drop_first(), shard_id)
    }
}

/// A search that stops at `i` has found the position of the shard.
pub proof fn lemma_shard_position(shards: Seq<V4ShardOwnershipView>, shard_id: u16, i: int)
    requires
        0 <= i <= shards.len(),
        forall|j: int| 0 <= j < i ==> (#[trigger] shards[j]).shard_id != shard_id,
        i < shards.len() ==> shards[i].shard_id == shard_id,
    ensures
        shard_position(shards, shard_id) == i,
    decreases shards.len(),
{
    if shards.len() > 0 && i > 0 {
        let t = shards.drop_first();
        assert(shards[0].shard_id != shard_id);
        assert forall|j: int| 0 <= j < i - 1 implies (#[trigger] t[j]).shard_id != shard_id by {
            assert(t[j] == shards[j + 1]);
        }
        lemma_shard_position(t, shard_id, i - 1);
    }
}

fn shard_index(shards: &Vec<V4ShardOwnership>, shard_id: u16) -> (r: Option<usize>)
    ensures
        match r {
            Some(i) => i < shards@.len() && shard_position(views(shards@), shard_id) == i && find(
                views(shards@),
                numbered(shard_id),
            ) == Some(shards@[i as int]@),
            None => find(views(shards@), numbered(shard_id)) is None && shard_position(
                views(shards@),
                shard_id,
            ) == shards@.len(),
        },
{
    let ghost s = views(shards@);
    let mut i: usize = 0;
    while i < shards.len()
        invariant
            0 <= i <= shards@.len(),
            s == views(shards@),
            forall|j: int| 0 <= j < i ==> (#[trigger] s[j]).shard_id != shard_id,
        decreases shards@.len() - i,
    {
        assert(s[i as int] == shards@[i as int]@);
        if shards[i].shard_id == shard_id {
            proof {
                lemma_find_at(s, numbered(shard_id), i as int);
                lemma_shard_position(s, shard_id, i as int);
            }
            return Some(i);
        }
        i += 1;
    }
    proof {
        lemma_find_at(s, numbered(shard_id), i as int);
        lemma_shard_position(s, shard_id, i as int);
    }
    None
}

/// The first owner of a shard.
pub open spec fn first_owner(s: V4ShardOwnershipView) -> Option<NodeId> {
    if s.owners.len() > 0 {
        Some(s.owners[0])
    } else {
        None
    }
}

/// The first owner of a shard.
pub fn owner_of(shard: &V4ShardOwnership) -> (r: Option<NodeId>)
    ensures
        r == first_owner(shard@),
{
    if shard.owners.len() > 0 {
        Some(shard.owners[0])
    } else {
        None
    }
}

/// What becomes of a plan that a peer delivers as active.
#[derive(Clone, Copy, Debug, PartialEq, Eq, Structural)]
pub enum PlanVerdict {
    Accepted,
    /// The hash or a rule of the plan fails.
    Invalid,
    /// The same generation is known under another hash.
    ConflictingHash { local_hash: ArtifactId },
    /// The plan does not continue the local one.
    Mismatch { local_generation: u64, local_hash: ArtifactId },
    /// No local plan is known and the sender may not install one.
    Unauthorized,
}

/// `node` has a part in the plan.
pub open spec fn plan_names(plan: V4TrainingPlanView, node: NodeId) -> bool {
    plan.workers.contains(node) || plan.proposer == node
}

/// The sender may deliver the plan: as its proposer, as a worker of the current
/// plan that hands over an update of it with the same workers, or again with the
/// plan known already.
pub open spec fn delivery_authorized(
    node: NodeId,
    peer: NodeId,
    plan: V4TrainingPlanView,
    current: Option<V4TrainingPlanView>,
) -> bool {
    ||| (peer == plan.proposer && plan_names(plan, node))
    ||| (current matches Some(c) && c.workers.contains(peer) && plan.parent_plan_hash == Some(
        c.plan_hash,
    ) && plan.plan_generation > c.plan_generation && plan.workers == c.workers && (
    plan.workers.contains(node) || c.proposer == node))
    ||| (current matches Some(c) && c.plan_generation == plan.plan_generation && c.plan_hash
        == plan.plan_hash && (peer == plan.proposer || c.workers.contains(peer)) && plan_names(
        plan,
        node,
    ))
}

/// The plan is newer than the current one, or the same.
pub open spec fn not_older(plan: V4TrainingPlanView, current: Option<V4TrainingPlanView>) -> bool {
    match current {
        None => true,
        Some(c) => plan.plan_generation > c.plan_generation || (plan.plan_generation
            == c.plan_generation && plan.plan_hash == c.plan_hash),
    }
}

/// The verdict on a delivered plan.
pub open spec fn plan_verdict(
    node: NodeId,
    peer: NodeId,
    plan: V4TrainingPlanView,
    current: Option<V4TrainingPlanView>,
    claim_conflict: bool,
    valid: bool,
) -> PlanVerdict {
    if !claim_conflict && valid && delivery_authorized(node, peer, plan, current) && not_older(
        plan,
        current,
    ) {
        PlanVerdict::Accepted
    } else if !valid {
        PlanVerdict::Invalid
    } else {
        match current {
            Some(c) => if plan.plan_generation == c.plan_generation && plan.plan_hash
                != c.plan_hash {
                PlanVerdict::ConflictingHash { local_hash: c.plan_hash }
            } else {
                PlanVerdict::Mismatch {
                    local_generation: c.plan_generation,
                    local_hash: c.plan_hash,
                }
            },
            None => PlanVerdict::Unauthorized,
        }
    }
}

/// Judge a plan that a peer delivers as active. `claim_conflict` tells whether
/// the sender has claimed something else before, `valid` whether the hash and
/// the rules of the plan hold.
pub fn receive_plan(
    node: NodeId,
    peer: NodeId,
    plan: &V4TrainingPlan,
    current: &Option<V4TrainingPlan>,
    claim_conflict: bool,
    valid: bool,
) -> (r: PlanVerdict)
    ensures
        r == plan_verdict(node, peer, plan@, opt_view(*current), claim_conflict, valid),
{
    let named = contains_id(&plan.workers, node) || plan.proposer == node;
    let proposer_delivery = peer == plan.proposer && named;
    let worker_update = match current {
        Some(c) => contains_id(&c.workers, peer) && plan.parent_plan_hash == Some(c.plan_hash)
            && plan.plan_generation > c.plan_generation && same_ids(&plan.workers, &c.workers) && (
        contains_id(&plan.workers, node) || c.proposer == node),
        None => false,
    };
    let repeated = match current {
        Some(c) => c.plan_generation == plan.plan_generation && c.plan_hash == plan.plan_hash && (
        peer == plan.proposer || contains_id(&c.workers, peer)) && named,
        None => false,
    };
    let in_order = match current {
        Some(c) => plan.plan_generation > c.plan_generation || (plan.plan_generation
            == c.plan_generation && plan.plan_hash == c.plan_hash),
        None => true,
    };
    if !claim_conflict && valid && (proposer_delivery || worker_update || repeated) && in_order {
        return PlanVerdict::Accepted;
    }
    if !valid {
        return PlanVerdict::Invalid;
    }
    match current {
        Some(c) => if plan.plan_generation == c.plan_generation && plan.plan_hash != c.plan_hash {
            PlanVerdict::ConflictingHash { local_hash: c.plan_hash }
        } else {
            PlanVerdict::Mismatch { local_generation: c.plan_generation, local_hash: c.plan_hash }
        },
        None => PlanVerdict::Unauthorized,
    }
}

/// An accepted plan never takes the node back to an older generation, nor to
/// another plan of the same generation.
pub proof fn law_plans_move_forward(
    node: NodeId,
    peer: NodeId,
    plan: V4TrainingPlanView,
    current: V4TrainingPlanView,
    claim_conflict: bool,
    valid: bool,
)
    requires
        plan_verdict(node, peer, plan, Some(current), claim_conflict, valid)
            == PlanVerdict::Accepted,
    ensures
        plan.plan_generation >= current.plan_generation,
        plan.plan_generation == current.plan_generation ==> plan.plan_hash == current.plan_hash,
        valid,
        !claim_conflict,
{
}

/// A worker may hand a changed plan on, but not invent a worker set: a plan that is
/// accepted from anyone but its proposer has the workers of the plan it follows, or
/// is the plan that is held already.
pub proof fn law_workers_do_not_change_the_worker_set(
    node: NodeId,
    peer: NodeId,
    plan: V4TrainingPlanView,
    current: V4TrainingPlanView,
    claim_conflict: bool,
    valid: bool,
)
    requires
        plan_verdict(node, peer, plan, Some(current), claim_conflict, valid)
            == PlanVerdict::Accepted,
        peer != plan.proposer,
    ensures
        current.workers.contains(peer),
        plan.plan_generation > current.plan_generation ==> plan.workers == current.workers
            && plan.parent_plan_hash == Some(current.plan_hash),
        plan.plan_generation == current.plan_generation ==> plan.plan_hash == current.plan_hash,
{
}

/// The acknowledgement of a delivered plan.
pub fn plan_ack(plan: &V4TrainingPlan, accepted: bool) -> (r: V4PlanAck)
    ensures
        r == (V4PlanAck {
            job_id: plan@.job_id,
            plan_generation: plan@.plan_generation,
            plan_hash: plan@.plan_hash,
            accepted,
        }),
{
    V4PlanAck {
        job_id: plan.job_id,
        plan_generation: plan.plan_generation,
        plan_hash: plan.plan_hash,
        accepted,
    }
}

/// What becomes of a proposed plan.
#[derive(Clone, Copy, Debug, PartialEq, Eq, Structural)]
pub enum ProposalVerdict {
    /// The proposal is kept for activation.
    Stored,
    /// The proposal is in order, but a later one is kept already.
    Superseded,
    /// The proposal is in order, but no more proposals are kept.
    CacheFull,
    /// The sender is not the proposer.
    NotProposer,
    /// The proposal names no parent plan.
    NoParent,
    /// The hash or a rule of the proposal fails.
    Invalid,
    /// The parent is not the local active plan, or this node has no part.
    NotInLineage,
}

/// The proposal continues the local plan and concerns this node.
pub open spec fn proposal_accepted(
    node: NodeId,
    peer: NodeId,
    plan: V4TrainingPlanView,
    current: Option<V4TrainingPlanView>,
    valid: bool,
) -> bool {
    &&& peer == plan.proposer
    &&& (plan.workers.contains(node) || (current is Some && current->0.workers.contains(node)))
    &&& plan.parent_plan_hash is Some
    &&& valid
    &&& match current {
        None => true,
        Some(c) => plan.parent_plan_hash == Some(c.plan_hash) && plan.plan_generation
            > c.plan_generation,
    }
}

/// The verdict on a proposed plan.
pub open spec fn proposal_verdict(
    node: NodeId,
    peer: NodeId,
    plan: V4TrainingPlanView,
    current: Option<V4TrainingPlanView>,
    valid: bool,
    kept_generation: Option<u64>,
    kept: int,
) -> ProposalVerdict {
    if proposal_accepted(node, peer, plan, current, valid) {
        if kept_generation is Some && plan.plan_generation < kept_generation->0 {
            ProposalVerdict::Superseded
        } else if kept >= MAX_PLAN_PROPOSALS && kept_generation is None {
            ProposalVerdict::CacheFull
        } else {
            ProposalVerdict::Stored
        }
    } else if peer != plan.proposer {
        ProposalVerdict::NotProposer
    } else if plan.parent_plan_hash is None {
        ProposalVerdict::NoParent
    } else if !valid {
        ProposalVerdict::Invalid
    } else {
        ProposalVerdict::NotInLineage
    }
}

/// Judge a proposed plan. `valid` tells whether its hash and rules hold,
/// `kept_generation` which proposal of the job is kept, `kept` how many are.
pub fn receive_plan_proposal(
    node: NodeId,
    peer: NodeId,
    plan: &V4TrainingPlan,
    current: &Option<V4TrainingPlan>,
    valid: bool,
    kept_generation: Option<u64>,
    kept: usize,
) -> (r: ProposalVerdict)
    ensures
        r == proposal_verdict(
            node,
            peer,
            plan@,
            opt_view(*current),
            valid,
            kept_generation,
            kept as int,
        ),
{
    let concerned = contains_id(&plan.workers, node) || match current {
        Some(c) => contains_id(&c.workers, node),
        None => false,
    };
    let continues = match current {
        Some(c) => plan.parent_plan_hash == Some(c.plan_hash) && plan.plan_generation
            > c.plan_generation,
        None => true,
    };
    if peer == plan.proposer && concerned && plan.parent_plan_hash.is_some() && valid
        && continues {
        match kept_generation {
            Some(generation) => if plan.plan_generation < generation {
                ProposalVerdict::Superseded
            } else {
                ProposalVerdict::Stored
            },
            None => if kept >= MAX_PLAN_PROPOSALS {
                ProposalVerdict::CacheFull
            } else {
                ProposalVerdict::Stored
            },
        }
    } else if peer != plan.proposer {
        ProposalVerdict::NotProposer
    } else if plan.parent_plan_hash.is_none() {
        ProposalVerdict::NoParent
    } else if !valid {
        ProposalVerdict::Invalid
    } else {
        ProposalVerdict::NotInLineage
    }
}

/// A proposal is answered as accepted where it is kept or superseded.
pub fn proposal_ack(plan: &V4TrainingPlan, accepted: bool) -> (r: V4PlanProposalAck)
    ensures
        r == (V4PlanProposalAck {
            job_id: plan@.job_id,
            plan_generation: plan@.plan_generation,
            proposal_hash: plan@.plan_hash,
            accepted,
        }),
{
    V4PlanProposalAck {
        job_id: plan.job_id,
        plan_generation: plan.plan_generation,
        proposal_hash: plan.plan_hash,
        accepted,
    }
}

/// Why a replan cannot be rebased.
#[derive(Clone, Copy, Debug, PartialEq, Eq, Structural)]
pub enum ReplanError {
    /// The number of shards changed.
    ShardCount,
    /// A shard of the new plan is not in the active one.
    ShardIdentity,
}

/// The replicas of a shard that moves to `owner`: everyone who held it, without
/// repeats in a row, at most sixteen.
pub open spec fn carried_replicas(
    old: V4ShardOwnershipView,
    keep: spec_fn(NodeId) -> bool,
) -> Seq<NodeId> {
    let all = without_repeats((old.owners + old.replicas).filter(keep));
    all.take(min_int(all.len() as int, MAX_REPLICAS as int))
}

/// The identities other than an optional one.
pub open spec fn other_than_opt(node: Option<NodeId>) -> spec_fn(NodeId) -> bool {
    |n: NodeId| Some(n) != node
}

/// A planned shard that carries over what its predecessor held.
pub open spec fn rebased_shard(
    planned: V4ShardOwnershipView,
    old: V4ShardOwnershipView,
) -> V4ShardOwnershipView {
    V4ShardOwnershipView {
        model_generation: old.model_generation,
        content_hash: old.content_hash,
        state_bytes: old.state_bytes,
        memory_bytes: old.memory_bytes,
        ownership_generation: sat_u64(old.ownership_generation + 1) as u64,
        replicas: carried_replicas(old, other_than_opt(first_owner(planned))),
        lifecycle: if first_owner(old) == first_owner(planned) {
            V4ShardLifecycle::Active
        } else {
            V4ShardLifecycle::Transferring
        },
        ..planned
    }
}

/// The rebased shards, or nothing where one has no predecessor.
pub open spec fn rebased_shards(
    planned: Seq<V4ShardOwnershipView>,
    old: Seq<V4ShardOwnershipView>,
) -> Option<Seq<V4ShardOwnershipView>>
    decreases planned.len(),
{
    if planned.len() == 0 {
        Some(Seq::empty())
    } else {
        match (
            rebased_shards(planned.drop_last(), old),
            find(old, numbered(planned.last().shard_id)),
        ) {
            (Some(before), Some(o)) => Some(before.push(rebased_shard(planned.last(), o))),
            _ => None,
        }
    }
}

/// The proposal that a planner's decision makes of the active plan, before its
/// hash is set.
pub open spec fn rebased_plan(
    decision: V4TrainingPlanView,
    previous: V4TrainingPlanView,
    shards: Seq<V4ShardOwnershipView>,
) -> V4TrainingPlanView {
    V4TrainingPlanView {
        plan_generation: sat_u64(previous.plan_generation + 1) as u64,
        training_epoch: sat_u64(previous.training_epoch + 1) as u64,
        membership_epoch: sat_u64(previous.membership_epoch + 1) as u64,
        coordination_term: sat_u64(previous.coordination_term + 1) as u64,
        branch: previous.branch,
        parent_plan_hash: Some(previous.plan_hash),
        shards,
        plan_hash: unsigned_hash(),
        ..decision
    }
}

fn filter_other_than_opt(ids: &Vec<NodeId>, node: Option<NodeId>) -> (r: Vec<NodeId>)
    ensures
        r@ == ids@.filter(other_than_opt(node)),
{
    let mut kept: Vec<NodeId> = Vec::new();
    let mut i: usize = 0;
    let ghost p = other_than_opt(node);
    proof {
        crate::base::search::lemma_filter_ends(ids@, p);
    }
    while i < ids.len()
        invariant
            0 <= i <= ids@.len(),
            p == other_than_opt(node),
            kept@ == ids@.take(i as int).filter(p),
        decreases ids@.len() - i,
    {
        proof {
            crate::base::search::lemma_filter_step(ids@, p, i as int);
        }
        if Some(ids[i]) != node {
            kept.push(ids[i]);
        }
        i += 1;
    }
    proof {
        crate::base::search::lemma_filter_ends(ids@, p);
    }
    kept
}

fn rebase_shard(planned: &V4ShardOwnership, old: &V4ShardOwnership) -> (r: V4ShardOwnership)
    ensures
        r@ == rebased_shard(planned@, old@),
{
    let old_owner = owner_of(old);
    let new_owner = owner_of(planned);
    let holders = concat_ids(&old.owners, &old.replicas);
    let others = filter_other_than_opt(&holders, new_owner);
    let replicas = first_ids(drop_repeats(&others), MAX_REPLICAS);
    let lifecycle = if old_owner == new_owner {
        V4ShardLifecycle::Active
    } else {
        V4ShardLifecycle::Transferring
    };
    V4ShardOwnership {
        shard_id: planned.shard_id,
        model_generation: old.model_generation,
        owners: planned.owners.clone(),
        replicas,
        ownership_generation: old.ownership_generation.saturating_add(1),
        content_hash: old.content_hash,
        state_bytes: old.state_bytes,
        memory_bytes: old.memory_bytes,
        runtime_requirement: planned.runtime_requirement.clone(),
        lifecycle,
    }
}

/// Rebase a planner's decision on the active plan: the next generation of the
/// same branch, with every shard keeping its content. The hash is left unset.
pub fn replan(decision: V4TrainingPlan, previous: &V4TrainingPlan) -> (r: Result<
    V4TrainingPlan,
    ReplanError,
>)
    ensures
        ({
            let shards = rebased_shards(decision@.shards, previous@.shards);
            match r {
                Ok(plan) => decision@.shards.len() == previous@.shards.len() && shards is Some
                    && plan@ == rebased_plan(decision@, previous@, shards->0),
                Err(ReplanError::ShardCount) => decision@.shards.len() != previous@.shards.len(),
                Err(ReplanError::ShardIdentity) => decision@.shards.len()
                    == previous@.shards.len() && shards is None,
            }
        }),
{
    if decision.shards.len() != previous.shards.len() {
        return Err(ReplanError::ShardCount);
    }
    let ghost planned = decision@.shards;
    let ghost old = previous@.shards;
    let mut shards: Vec<V4ShardOwnership> = Vec::new();
    let mut i: usize = 0;
    assert(views(shards@) =~= Seq::<V4ShardOwnershipView>::empty());
    while i < decision.shards.len()
        invariant
            0 <= i <= decision.shards@.len(),
            planned == views(decision.shards@),
            old == views(previous.shards@),
            decision.shards@.len() == previous.shards@.len(),
            rebased_shards(planned.take(i as int), old) == Some(views(shards@)),
        decreases decision.shards@.len() - i,
    {
        proof {
            assert(planned.take(i as int + 1).drop_last() =~= planned.take(i as int));
            assert(planned.take(i as int + 1).last() == decision.shards@[i as int]@);
        }
        match find_shard(&previous.shards, decision.shards[i].shard_id) {
            None => {
                proof {
                    lemma_rebase_failure(planned, old, i as int + 1);
                }
                return Err(ReplanError::ShardIdentity);
            },
            Some(before) => {
                let shard = rebase_shard(&decision.shards[i], before);
                proof {
                    lemma_views_push(shards@, shard);
                }
                shards.push(shard);
            },
        }
        i += 1;
    }
    assert(planned.take(i as int) =~= planned);
    let mut plan = decision;
    plan.plan_generation = previous.plan_generation.saturating_add(1);
    plan.training_epoch = previous.training_epoch.saturating_add(1);
    plan.membership_epoch = previous.membership_epoch.saturating_add(1);
    plan.coordination_term = previous.coordination_term.saturating_add(1);
    plan.branch = previous.branch;
    plan.parent_plan_hash = Some(previous.plan_hash);
    plan.shards = shards;
    plan.plan_hash = ArtifactId::unsigned();
    Ok(plan)
}

proof fn lemma_rebase_failure(
    planned: Seq<V4ShardOwnershipView>,
    old: Seq<V4ShardOwnershipView>,
    n: int,
)
    requires
        0 <= n <= planned.len(),
        rebased_shards(planned.take(n), old) is None,
    ensures
        rebased_shards(planned, old) is None,
    decreases planned.len() - n,
{
    if n < planned.len() {
        assert(planned.take(n + 1).drop_last() =~= planned.take(n));
        lemma_rebase_failure(planned, old, n + 1);
    } else {
        assert(planned.take(n) =~= planned);
    }
}

/// A replan keeps the content and the identity of every shard, moves it to the
/// next ownership generation, and keeps its new owner out of its replicas.
pub proof fn law_replan_keeps_shards(
    planned: Seq<V4ShardOwnershipView>,
    old: Seq<V4ShardOwnershipView>,
    i: int,
)
    requires
        rebased_shards(planned, old) is Some,
        0 <= i < planned.len(),
    ensures
        ({
            let s = rebased_shards(planned, old)->0;
            let o = find(old, numbered(planned[i].shard_id));
            &&& s.len() == planned.len()
            &&& o is Some
            &&& s[i].shard_id == planned[i].shard_id
            &&& s[i].owners == planned[i].owners
            &&& s[i].content_hash == o->0.content_hash
            &&& s[i].state_bytes == o->0.state_bytes
            &&& s[i].model_generation == o->0.model_generation
            &&& s[i].ownership_generation == sat_u64(o->0.ownership_generation + 1)
            &&& (s[i].lifecycle == V4ShardLifecycle::Active <==> first_owner(o->0)
                == first_owner(planned[i]))
            &&& first_owner(planned[i]) matches Some(owner) ==> !s[i].replicas.contains(owner)
        }),
    decreases planned.len(),
{
    let o = find(old, numbered(planned.last().shard_id))->0;
    let before = rebased_shards(planned.drop_last(), old)->0;
    if i < planned.len() - 1 {
        law_replan_keeps_shards(planned.drop_last(), old, i);
        lemma_rebased_len(planned, old);
    } else {
        lemma_rebased_len(planned.drop_last(), old);
        let keep = other_than_opt(first_owner(planned.last()));
        let held = (o.owners + o.replicas).filter(keep);
        crate::base::search::lemma_filter_contains(o.owners + o.replicas, keep);
        crate::base::members::lemma_without_repeats(held);
        let all = without_repeats(held);
        if let Some(owner) = first_owner(planned[i]) {
            let r = rebased_shard(planned.last(), o).replicas;
            if r.contains(owner) {
                let k = choose|k: int| 0 <= k < r.len() && r[k] == owner;
                assert(all[k] == owner);
                assert(all.to_set().contains(owner));
                assert(held.contains(owner));
            }
        }
    }
}

proof fn lemma_rebased_len(planned: Seq<V4ShardOwnershipView>, old: Seq<V4ShardOwnershipView>)
    requires
        rebased_shards(planned, old) is Some,
    ensures
        rebased_shards(planned, old)->0.len() == planned.len(),
    decreases planned.len(),
{
    if planned.len() > 0 {
        lemma_rebased_len(planned.drop_last(), old);
    }
}

/// Why a proposal cannot be activated.
#[derive(Clone, Copy, Debug, PartialEq, Eq, Structural)]
pub enum ActivationError {
    /// The proposal is stale, invalid, or another proposer's.
    Stale,
    /// The proposal changes the set of shards.
    ShardSet,
    /// More peers are affected than the limit.
    TooManyParticipants,
}

/// The numbers of the shards.
pub open spec fn shard_ids(shards: Seq<V4ShardOwnershipView>) -> Set<u16> {
    shards.map_values(|s: V4ShardOwnershipView| s.shard_id).to_set()
}

/// The first owners of the shards.
pub open spec fn first_owners(shards: Seq<V4ShardOwnershipView>) -> Set<NodeId> {
    Set::new(
        |n: NodeId|
            exists|i: int|
                0 <= i < shards.len() && first_owner(#[trigger] shards[i]) == Some(n),
    )
}

/// Everyone whom an activation affects, but this node, in byte order.
pub open spec fn activation_participants(
    node: NodeId,
    current: V4TrainingPlanView,
    proposal: V4TrainingPlanView,
) -> Seq<NodeId> {
    ascending(proposal.workers.to_set().union(first_owners(current.shards)).remove(node))
}

/// The proposal is this node's own, follows the active plan and keeps its rules.
pub open spec fn activation_in_order(
    node: NodeId,
    current: V4TrainingPlanView,
    proposal: V4TrainingPlanView,
    valid: bool,
) -> bool {
    &&& proposal.proposer == node
    &&& proposal.parent_plan_hash == Some(current.plan_hash)
    &&& proposal.plan_generation > current.plan_generation
    &&& valid
}

fn holds_id(shards: &Vec<V4ShardOwnership>, id: u16) -> (r: bool)
    ensures
        r == shard_ids(views(shards@)).contains(id),
{
    let ghost ids = views(shards@).map_values(|s: V4ShardOwnershipView| s.shard_id);
    let mut i: usize = 0;
    while i < shards.len()
        invariant
            0 <= i <= shards@.len(),
            ids == views(shards@).map_values(|s: V4ShardOwnershipView| s.shard_id),
            forall|j: int| 0 <= j < i ==> ids[j] != id,
        decreases shards@.len() - i,
    {
        assert(ids[i as int] == shards@[i as int]@.shard_id);
        if shards[i].shard_id == id {
            assert(ids.contains(id));
            return true;
        }
        i += 1;
    }
    false
}

fn ids_within(a: &Vec<V4ShardOwnership>, b: &Vec<V4ShardOwnership>) -> (r: bool)
    ensures
        r == shard_ids(views(a@)).subset_of(shard_ids(views(b@))),
{
    let ghost ids = views(a@).map_values(|s: V4ShardOwnershipView| s.shard_id);
    let mut i: usize = 0;
    while i < a.len()
        invariant
            0 <= i <= a@.len(),
            ids == views(a@).map_values(|s: V4ShardOwnershipView| s.shard_id),
            forall|j: int| 0 <= j < i ==> shard_ids(views(b@)).contains(#[trigger] ids[j]),
        decreases a@.len() - i,
    {
        assert(ids[i as int] == a@[i as int]@.shard_id);
        if !holds_id(b, a[i].shard_id) {
            assert(ids.contains(ids[i as int]));
            assert(shard_ids(views(a@)).contains(a@[i as int].shard_id));
            return false;
        }
        i += 1;
    }
    assert forall|id: u16| shard_ids(views(a@)).contains(id) implies shard_ids(
        views(b@),
    ).contains(id) by {
        let j = choose|j: int| 0 <= j < ids.len() && ids[j] == id;
        assert(shard_ids(views(b@)).contains(ids[j]));
    }
    true
}

fn owners_and_workers(shards: &Vec<V4ShardOwnership>, workers: &Vec<NodeId>) -> (r: Vec<NodeId>)
    ensures
        r@.to_set() == workers@.to_set().union(first_owners(views(shards@))),
{
    let mut out = workers.clone();
    let ghost s = views(shards@);
    let mut i: usize = 0;
    assert(out@.to_set() =~= workers@.to_set().union(first_owners(s.take(0))));
    while i < shards.len()
        invariant
            0 <= i <= shards@.len(),
            s == views(shards@),
            out@.to_set() == workers@.to_set().union(first_owners(s.take(i as int))),
        decreases shards@.len() - i,
    {
        let ghost before = out@;
        let owner = owner_of(&shards[i]);
        match owner {
            Some(node) => {
                out.push(node);
            },
            None => {},
        }
        proof {
            let p = s.take(i as int);
            let q = s.take(i as int + 1);
            assert(q[i as int] == shards@[i as int]@);
            if let Some(node) = owner {
                before.lemma_push_to_set_commute(node);
            }
            assert(out@.to_set() =~= workers@.to_set().union(first_owners(q))) by {
                assert forall|n: NodeId| out@.to_set().contains(n) == workers@.to_set().union(
                    first_owners(q),
                ).contains(n) by {
                    if first_owners(p).contains(n) {
                        let k = choose|k: int|
                            0 <= k < p.len() && first_owner(#[trigger] p[k]) == Some(n);
                        assert(first_owner(q[k]) == Some(n));
                    }
                    if first_owners(q).contains(n) {
                        let k = choose|k: int|
                            0 <= k < q.len() && first_owner(#[trigger] q[k]) == Some(n);
                        if k < i {
                            assert(first_owner(p[k]) == Some(n));
                        }
                    }
                    if owner == Some(n) {
                        assert(first_owner(q[i as int]) == Some(n));
                    }
                }
            }
        }
        i += 1;
    }
    assert(s.take(i as int) =~= s);
    out
}

/// Check a proposal before its activation and list the peers that have to
/// acknowledge it.
pub fn check_activation(
    node: NodeId,
    current: &V4TrainingPlan,
    proposal: &V4TrainingPlan,
    valid: bool,
) -> (r: Result<Vec<NodeId>, ActivationError>)
    ensures
        ({
            let c = current@;
            let p = proposal@;
            let in_order = activation_in_order(node, c, p, valid);
            let same = shard_ids(c.shards) == shard_ids(p.shards);
            let affected = activation_participants(node, c, p);
            match r {
                Ok(participants) => in_order && same && affected.len() <= MAX_PLAN_WORKERS
                    && participants@ == affected,
                Err(ActivationError::Stale) => !in_order,
                Err(ActivationError::ShardSet) => in_order && !same,
                Err(ActivationError::TooManyParticipants) => in_order && same && affected.len()
                    > MAX_PLAN_WORKERS,
            }
        }),
{
    if proposal.proposer != node || proposal.parent_plan_hash != Some(current.plan_hash)
        || proposal.plan_generation <= current.plan_generation || !valid {
        return Err(ActivationError::Stale);
    }
    let forth = ids_within(&current.shards, &proposal.shards);
    let back = ids_within(&proposal.shards, &current.shards);
    if !forth || !back {
        return Err(ActivationError::ShardSet);
    }
    assert(shard_ids(current@.shards) =~= shard_ids(proposal@.shards));
    let all = owners_and_workers(&current.shards, &proposal.workers);
    let others = filter_other_than(&all, node);
    proof {
        crate::base::search::lemma_filter_contains(all@, other_than(node));
        let wanted = proposal@.workers.to_set().union(first_owners(current@.shards)).remove(node);
        assert(others@.to_set() =~= wanted) by {
            assert forall|n: NodeId| others@.to_set().contains(n) == wanted.contains(n) by {
                assert(others@.contains(n) <==> all@.contains(n) && other_than(node)(n));
                assert(all@.to_set().contains(n) == all@.contains(n));
            }
        }
    }
    let participants = sorted_unique(&others);
    if participants.len() > MAX_PLAN_WORKERS {
        return Err(ActivationError::TooManyParticipants);
    }
    Ok(participants)
}

/// What an acknowledgement means for the peer that is waited for.
#[derive(Clone, Copy, Debug, PartialEq, Eq, Structural)]
pub enum AckVerdict {
    /// It is not about this plan or not from that peer.
    Ignored,
    Accepted,
    Refused,
}

/// Judge the answer to a proposal while `participant` is waited for.
pub fn on_proposal_ack(
    proposal: &V4TrainingPlan,
    participant: NodeId,
    peer: NodeId,
    ack: &V4PlanProposalAck,
) -> (r: AckVerdict)
    ensures
        r == (if peer == participant && ack.proposal_hash == proposal@.plan_hash
            && ack.plan_generation == proposal@.plan_generation {
            if ack.accepted {
                AckVerdict::Accepted
            } else {
                AckVerdict::Refused
            }
        } else {
            AckVerdict::Ignored
        }),
{
    if peer == participant && ack.proposal_hash == proposal.plan_hash && ack.plan_generation
        == proposal.plan_generation {
        if ack.accepted {
            AckVerdict::Accepted
        } else {
            AckVerdict::Refused
        }
    } else {
        AckVerdict::Ignored
    }
}

/// Judge the answer to a committed plan while `worker` is waited for.
pub fn on_commit_ack(plan: &V4TrainingPlan, worker: NodeId, peer: NodeId, ack: &V4PlanAck) -> (r:
    AckVerdict)
    ensures
        r == (if peer == worker && ack.plan_hash == plan@.plan_hash && ack.plan_generation
            == plan@.plan_generation {
            if ack.accepted {
                AckVerdict::Accepted
            } else {
                AckVerdict::Refused
            }
        } else {
            AckVerdict::Ignored
        }),
{
    if peer == worker && ack.plan_hash == plan.plan_hash && ack.plan_generation
        == plan.plan_generation {
        if ack.accepted {
            AckVerdict::Accepted
        } else {
            AckVerdict::Refused
        }
    } else {
        AckVerdict::Ignored
    }
}

/// The move of a shard that a proposal asks for.
#[derive(Clone, Copy, Debug, PartialEq, Eq, Structural)]
pub struct ShardMove {
    pub shard_id: u16,
    pub from: NodeId,
    pub to: NodeId,
    pub ownership_generation: u64,
    pub content_hash: ArtifactId,
}

/// Why the move of a shard cannot be told.
#[derive(Clone, Copy, Debug, PartialEq, Eq, Structural)]
pub enum MoveError {
    NoCurrentOwner,
    NoProposedOwner,
}

/// The move of a proposed shard; there is none where the owner stays.
pub open spec fn move_of(
    current: Seq<V4ShardOwnershipView>,
    proposed: V4ShardOwnershipView,
) -> Result<Option<ShardMove>, MoveError> {
    let old_owner = match find(current, numbered(proposed.shard_id)) {
        Some(s) => first_owner(s),
        None => None,
    };
    match (old_owner, first_owner(proposed)) {
        (None, _) => Err(MoveError::NoCurrentOwner),
        (Some(_), None) => Err(MoveError::NoProposedOwner),
        (Some(from), Some(to)) => if from == to {
            Ok(None)
        } else {
            Ok(
                Some(
                    ShardMove {
                        shard_id: proposed.shard_id,
                        from,
                        to,
                        ownership_generation: proposed.ownership_generation,
                        content_hash: proposed.content_hash,
                    },
                ),
            )
        },
    }
}

/// The move of a proposed shard; there is none where the owner stays.
pub fn shard_move(current: &V4TrainingPlan, proposed: &V4ShardOwnership) -> (r: Result<
    Option<ShardMove>,
    MoveError,
>)
    ensures
        r == move_of(current@.shards, proposed@),
{
    let old_owner = match find_shard(&current.shards, proposed.shard_id) {
        Some(shard) => owner_of(shard),
        None => None,
    };
    let from = match old_owner {
        Some(from) => from,
        None => {
            return Err(MoveError::NoCurrentOwner);
        },
    };
    let to = match owner_of(proposed) {
        Some(to) => to,
        None => {
            return Err(MoveError::NoProposedOwner);
        },
    };
    if from == to {
        return Ok(None);
    }
    Ok(
        Some(
            ShardMove {
                shard_id: proposed.shard_id,
                from,
                to,
                ownership_generation: proposed.ownership_generation,
                content_hash: proposed.content_hash,
            },
        ),
    )
}

/// The local shard is what the active plan says and the proposal moves.
pub open spec fn local_shard_current(
    shard: crate::frontier::local::V4LocalDataShardView,
    current_generation: u64,
    ownership_generation: u64,
    content_hash: ArtifactId,
) -> bool {
    &&& shard.plan_generation == current_generation
    &&& shard.ownership_generation == (if ownership_generation > 0 {
        ownership_generation - 1
    } else {
        0
    })
    &&& shard.hash == content_hash
}

/// Whether the local shard can be handed over as the proposal asks.
pub fn local_move_ready(shard: &V4LocalDataShard, current: &V4TrainingPlan, wanted: &ShardMove) -> (r:
    bool)
    ensures
        r == local_shard_current(
            shard@,
            current@.plan_generation,
            wanted.ownership_generation,
            wanted.content_hash,
        ),
{
    shard.plan_generation == current.plan_generation && shard.ownership_generation
        == wanted.ownership_generation.saturating_sub(1) && shard.hash == wanted.content_hash
}

/// The plan after one of its shards changed, before its hash is set.
pub open spec fn advanced_plan(
    plan: V4TrainingPlanView,
    shards: Seq<V4ShardOwnershipView>,
) -> V4TrainingPlanView {
    V4TrainingPlanView {
        shards,
        plan_generation: sat_u64(plan.plan_generation + 1) as u64,
        membership_epoch: sat_u64(plan.membership_epoch + 1) as u64,
        coordination_term: sat_u64(plan.coordination_term + 1) as u64,
        parent_plan_hash: Some(plan.plan_hash),
        plan_hash: unsigned_hash(),
        ..plan
    }
}

/// Why a shard cannot be seeded or moved under a plan.
#[derive(Clone, Copy, Debug, PartialEq, Eq, Structural)]
pub enum ShardPlanError {
    /// The plan has no such shard.
    UnknownShard,
    /// The plan does not make this node an owner.
    NotOwner,
    /// The ownership generation is stale or skips one.
    Generation,
    /// The target is not a worker of the plan.
    ForeignTarget,
    /// The content is not what the plan records.
    Content,
}

/// A shard whose content has been written by its owner.
pub open spec fn seeded_shard(
    s: V4ShardOwnershipView,
    hash: ArtifactId,
    bytes: int,
) -> V4ShardOwnershipView {
    V4ShardOwnershipView {
        content_hash: hash,
        state_bytes: bytes as u64,
        memory_bytes: max_int(s.memory_bytes as int, bytes) as u64,
        lifecycle: V4ShardLifecycle::Active,
        ..s
    }
}

/// A plan after its owner has written new content into a shard, with the
/// ownership generation of the shard.
pub open spec fn plan_seeded(
    p: V4TrainingPlanView,
    node: NodeId,
    shard_id: u16,
    hash: ArtifactId,
    bytes: int,
) -> Result<(V4TrainingPlanView, u64), ShardPlanError> {
    match find(p.shards, numbered(shard_id)) {
        None => Err(ShardPlanError::UnknownShard),
        Some(s) => if !s.owners.contains(node) {
            Err(ShardPlanError::NotOwner)
        } else {
            Ok(
                (
                    advanced_plan(
                        p,
                        p.shards.update(
                            shard_position(p.shards, shard_id),
                            seeded_shard(s, hash, bytes),
                        ),
                    ),
                    s.ownership_generation,
                ),
            )
        },
    }
}

/// Write new content into a shard of the plan. The hash of the plan is left
/// unset; the result is the ownership generation of the shard.
pub fn seed_plan_shard(
    plan: &mut V4TrainingPlan,
    node: NodeId,
    shard_id: u16,
    hash: ArtifactId,
    bytes: usize,
) -> (r: Result<u64, ShardPlanError>)
    ensures
        match plan_seeded(old(plan)@, node, shard_id, hash, bytes as int) {
            Err(e) => r == Err::<u64, ShardPlanError>(e) && final(plan)@ == old(plan)@,
            Ok((seeded, generation)) => r == Ok::<u64, ShardPlanError>(generation) && final(plan)@
                == seeded,
        },
{
    let at: usize = match shard_index(&plan.shards, shard_id) {
        None => {
            return Err(ShardPlanError::UnknownShard);
        },
        Some(at) => at,
    };
    if !contains_id(&plan.shards[at].owners, node) {
        return Err(ShardPlanError::NotOwner);
    }
    let ghost s = plan@.shards;
    let mut shard = plan.shards[at].duplicate();
    let generation = shard.ownership_generation;
    shard.content_hash = hash;
    shard.state_bytes = bytes as u64;
    shard.memory_bytes = max_u64(shard.memory_bytes, bytes as u64);
    shard.lifecycle = V4ShardLifecycle::Active;
    let ghost written = shard@;
    plan.shards.set(at, shard);
    assert(plan@.shards =~= s.update(at as int, written));
    advance_plan(plan);
    Ok(generation)
}

fn advance_plan(plan: &mut V4TrainingPlan)
    ensures
        final(plan)@ == advanced_plan(old(plan)@, old(plan)@.shards),
{
    plan.parent_plan_hash = Some(plan.plan_hash);
    plan.plan_generation = plan.plan_generation.saturating_add(1);
    plan.membership_epoch = plan.membership_epoch.saturating_add(1);
    plan.coordination_term = plan.coordination_term.saturating_add(1);
    plan.plan_hash = ArtifactId::unsigned();
}

/// A shard that has moved to `target`.
pub open spec fn migrated_shard(
    s: V4ShardOwnershipView,
    target: NodeId,
    ownership_generation: u64,
    content_hash: ArtifactId,
    bytes: int,
) -> V4ShardOwnershipView {
    V4ShardOwnershipView {
        owners: seq![target],
        replicas: carried_replicas(s, other_than(target)),
        ownership_generation,
        content_hash,
        state_bytes: bytes as u64,
        memory_bytes: max_int(s.memory_bytes as int, bytes) as u64,
        lifecycle: V4ShardLifecycle::Active,
        ..s
    }
}

/// What stands against recording the move of a shard.
pub open spec fn migration_refused(
    plan: V4TrainingPlanView,
    s: V4ShardOwnershipView,
    node: NodeId,
    target: NodeId,
    ownership_generation: u64,
    content_hash: ArtifactId,
    bytes: int,
) -> Option<ShardPlanError> {
    if !s.owners.contains(node) {
        Some(ShardPlanError::NotOwner)
    } else if ownership_generation != sat_u64(s.ownership_generation + 1) {
        Some(ShardPlanError::Generation)
    } else if !plan.workers.contains(target) {
        Some(ShardPlanError::ForeignTarget)
    } else if s.content_hash != content_hash || s.state_bytes != bytes {
        Some(ShardPlanError::Content)
    } else {
        None
    }
}

/// Record in the plan that a shard has moved to `target`. The hash of the plan
/// is left unset.
pub fn commit_plan_shard_migration(
    plan: &mut V4TrainingPlan,
    node: NodeId,
    shard_id: u16,
    target: NodeId,
    ownership_generation: u64,
    content_hash: ArtifactId,
    state_bytes: usize,
) -> (r: Result<(), ShardPlanError>)
    ensures
        ({
            let p = old(plan)@;
            let at = shard_position(p.shards, shard_id);
            match find(p.shards, numbered(shard_id)) {
                None => r == Err::<(), ShardPlanError>(ShardPlanError::UnknownShard)
                    && final(plan)@ == p,
                Some(s) => match migration_refused(
                    p,
                    s,
                    node,
                    target,
                    ownership_generation,
                    content_hash,
                    state_bytes as int,
                ) {
                    Some(e) => r == Err::<(), ShardPlanError>(e) && final(plan)@ == p,
                    None => r is Ok && final(plan)@ == advanced_plan(
                        p,
                        p.shards.update(
                            at,
                            migrated_shard(
                                s,
                                target,
                                ownership_generation,
                                content_hash,
                                state_bytes as int,
                            ),
                        ),
                    ),
                },
            }
        }),
{
    let at: usize = match shard_index(&plan.shards, shard_id) {
        None => {
            return Err(ShardPlanError::UnknownShard);
        },
        Some(at) => at,
    };
    if !contains_id(&plan.shards[at].owners, node) {
        return Err(ShardPlanError::NotOwner);
    }
    if ownership_generation != plan.shards[at].ownership_generation.saturating_add(1) {
        return Err(ShardPlanError::Generation);
    }
    if !contains_id(&plan.workers, target) {
        return Err(ShardPlanError::ForeignTarget);
    }
    if plan.shards[at].content_hash != content_hash || plan.shards[at].state_bytes
        != state_bytes as u64 {
        return Err(ShardPlanError::Content);
    }
    let ghost s = plan@.shards;
    let mut shard = plan.shards[at].duplicate();
    let holders = concat_ids(&shard.owners, &shard.replicas);
    let others = filter_other_than(&holders, target);
    shard.replicas = first_ids(drop_repeats(&others), MAX_REPLICAS);
    let mut owners: Vec<NodeId> = Vec::new();
    owners.push(target);
    assert(owners@ =~= seq![target]);
    shard.owners = owners;
    shard.ownership_generation = ownership_generation;
    shard.content_hash = content_hash;
    shard.state_bytes = state_bytes as u64;
    shard.memory_bytes = max_u64(shard.memory_bytes, state_bytes as u64);
    shard.lifecycle = V4ShardLifecycle::Active;
    let ghost written = shard@;
    plan.shards.set(at, shard);
    assert(plan@.shards =~= s.update(at as int, written));
    advance_plan(plan);
    Ok(())
}

/// Who hears of a change of the plan: its workers and its proposer, in byte order.
pub open spec fn plan_recipients(plan: V4TrainingPlanView, node: NodeId) -> Seq<NodeId> {
    ascending(
        if plan.proposer != node {
            plan.workers.to_set().insert(plan.proposer)
        } else {
            plan.workers.to_set()
        },
    )
}

/// Who hears of a change of the plan.
pub fn update_recipients(plan: &V4TrainingPlan, node: NodeId) -> (r: Vec<NodeId>)
    ensures
        r@ == plan_recipients(plan@, node),
{
    let mut all = plan.workers.clone();
    if plan.proposer != node {
        proof {
            plan.workers@.lemma_push_to_set_commute(plan.proposer);
        }
        all.push(plan.proposer);
    }
    sorted_unique(&all)
}

/// Every change of a plan is bound to the plan it changes: it names it as its
/// parent and is its next generation.
pub proof fn law_changes_extend_lineage(
    plan: V4TrainingPlanView,
    shards: Seq<V4ShardOwnershipView>,
)
    requires
        plan.plan_generation < u64::MAX,
    ensures
        advanced_plan(plan, shards).parent_plan_hash == Some(plan.plan_hash),
        advanced_plan(plan, shards).plan_generation == plan.plan_generation + 1,
        advanced_plan(plan, shards).branch == plan.branch,
        advanced_plan(plan, shards).workers == plan.workers,
        advanced_plan(plan, shards).job_id == plan.job_id,
{
}

/// The old owner of a moved shard keeps a copy, and the new owner is not among
/// the replicas.
pub proof fn law_migration_retains_copy(
    s: V4ShardOwnershipView,
    node: NodeId,
    target: NodeId,
    ownership_generation: u64,
    content_hash: ArtifactId,
    bytes: int,
)
    requires
        s.owners.len() > 0,
        s.owners[0] == node,
        node != target,
    ensures
        ({
            let m = migrated_shard(s, target, ownership_generation, content_hash, bytes);
            m.replicas.contains(node) && !m.replicas.contains(target) && m.shard_id == s.shard_id
        }),
{
    let keep = other_than(target);
    let all = s.owners + s.replicas;
    let held = all.filter(keep);
    crate::base::search::lemma_filter_contains(all, keep);
    crate::base::members::lemma_without_repeats(held);
    lemma_filter_head(all, keep);
    lemma_repeats_head(held);
    let kept = without_repeats(held);
    let r = carried_replicas(s, keep);
    assert(r[0] == node);
    if r.contains(target) {
        let k = choose|k: int| 0 <= k < r.len() && r[k] == target;
        assert(kept[k] == target);
        assert(kept.to_set().contains(target));
        assert(held.contains(target));
    }
}

proof fn lemma_filter_head(s: Seq<NodeId>, p: spec_fn(NodeId) -> bool)
    requires
        s.len() > 0,
        p(s[0]),
    ensures
        s.filter(p).len() > 0,
        s.filter(p)[0] == s[0],
    decreases s.len(),
{
    reveal(Seq::filter);
    if s.len() > 1 {
        lemma_filter_head(s.drop_last(), p);
    } else {
        assert(s.drop_last() =~= Seq::<NodeId>::empty());
        assert(s.drop_last().filter(p) =~= Seq::<NodeId>::empty());
    }
}

proof fn lemma_repeats_head(s: Seq<NodeId>)
    requires
        s.len() > 0,
    ensures
        without_repeats(s).len() > 0,
        without_repeats(s)[0] == s[0],
    decreases s.len(),
{
    if s.len() > 1 {
        lemma_repeats_head(s.drop_last());
    } else {
        assert(without_repeats(s.drop_last()) =~= Seq::<NodeId>::empty());
    }
}

/// A delivered plan is accepted only when it is valid, conflicts with no claim, comes from
/// its proposer or from a worker of the plan in force, and is no older than that plan. A
/// first plan that its proposer delivers to one of its workers is accepted.
pub proof fn law_delivered_plans_are_judged(
    node: NodeId,
    peer: NodeId,
    plan: V4TrainingPlanView,
    current: Option<V4TrainingPlanView>,
    conflict: bool,
    valid: bool,
)
    ensures
        ({
            let v = plan_verdict(node, peer, plan, current, conflict, valid);
            &&& v is Accepted ==> valid && !conflict && (peer == plan.proposer || (current is Some
                && current->0.workers.contains(peer)))
            &&& v is Accepted && current is Some ==> plan.plan_generation
                > current->0.plan_generation || (plan.plan_generation == current->0.plan_generation
                && plan.plan_hash == current->0.plan_hash)
            &&& v is Accepted && current is Some && peer != plan.proposer ==> plan.workers
                == current->0.workers || plan.plan_hash == current->0.plan_hash
            &&& !valid ==> v is Invalid
            &&& valid && !conflict && peer == plan.proposer && plan.workers.contains(node) && (
            current is None || plan.plan_generation > current->0.plan_generation) ==> v is Accepted
            &&& valid && conflict && current is None ==> v is Unauthorized
            &&& valid && current is Some && plan.plan_generation == current->0.plan_generation
                && plan.plan_hash != current->0.plan_hash ==> v == (
            PlanVerdict::ConflictingHash { local_hash: current->0.plan_hash })
            &&& v matches PlanVerdict::Mismatch { local_generation, local_hash } ==> current is Some
                && local_generation == current->0.plan_generation && local_hash
                == current->0.plan_hash
        }),
{
}

/// A proposal is kept only from its proposer, valid, with a parent, which is the plan in
/// force where there is one, and for a worker of either plan; not when a later one is
/// kept, nor beyond 128.
pub proof fn law_proposals_are_judged(
    node: NodeId,
    peer: NodeId,
    plan: V4TrainingPlanView,
    current: Option<V4TrainingPlanView>,
    valid: bool,
    kept_generation: Option<u64>,
    kept: int,
)
    ensures
        ({
            let v = proposal_verdict(node, peer, plan, current, valid, kept_generation, kept);
            &&& v is Stored ==> peer == plan.proposer && valid && plan.parent_plan_hash is Some
            &&& v is Stored && current is Some ==> plan.parent_plan_hash == Some(
                current->0.plan_hash,
            ) && plan.plan_generation > current->0.plan_generation
            &&& v is Stored && kept_generation is Some ==> plan.plan_generation
                >= kept_generation->0
            &&& v is Stored && kept_generation is None ==> kept < 128
            &&& v is Stored && !plan.workers.contains(node) ==> current is Some
                && current->0.workers.contains(node)
            &&& peer != plan.proposer ==> v is NotProposer
            &&& peer == plan.proposer && plan.parent_plan_hash is None ==> v is NoParent
            &&& peer == plan.proposer && plan.parent_plan_hash is Some && !valid ==> v is Invalid
            &&& peer == plan.proposer && valid && plan.workers.contains(node)
                && plan.parent_plan_hash is Some && (current is None || (plan.parent_plan_hash
                == Some(current->0.plan_hash) && plan.plan_generation > current->0.plan_generation))
                && kept < 128 && (kept_generation is None || plan.plan_generation
                >= kept_generation->0) ==> v is Stored
            &&& v is CacheFull ==> kept >= 128
            &&& v is Superseded ==> plan.plan_generation < kept_generation->0
        }),
{
}

/// A shard of a new plan keeps the content of the old one, gets the next ownership
/// generation, and is on the move exactly when its owner changes; who held it before,
/// the new owner apart, are its replicas, as far as there is room for sixteen.
pub proof fn law_rebased_shard_keeps_its_content(
    planned: V4ShardOwnershipView,
    old: V4ShardOwnershipView,
    holder: NodeId,
)
    requires
        planned.owners.len() > 0,
        old.ownership_generation < u64::MAX,
    ensures
        ({
            let r = rebased_shard(planned, old);
            &&& r.shard_id == planned.shard_id
            &&& r.owners == planned.owners
            &&& r.content_hash == old.content_hash
            &&& r.model_generation == old.model_generation
            &&& r.state_bytes == old.state_bytes && r.memory_bytes == old.memory_bytes
            &&& r.ownership_generation == old.ownership_generation + 1
            &&& old.owners.len() > 0 ==> (r.lifecycle is Active <==> old.owners[0]
                == planned.owners[0])
            &&& !(r.lifecycle is Active) ==> r.lifecycle is Transferring
            &&& r.replicas.len() <= 16
            &&& r.replicas.contains(holder) ==> holder != planned.owners[0] && (old.owners.contains(
                holder,
            ) || old.replicas.contains(holder))
            &&& old.owners.len() + old.replicas.len() <= 16 && holder != planned.owners[0] && (
            old.owners.contains(holder) || old.replicas.contains(holder)) ==> r.replicas.contains(
                holder,
            )
        }),
{
    lemma_carried(old, other_than_opt(first_owner(planned)), holder);
}

proof fn lemma_carried(old: V4ShardOwnershipView, keep: spec_fn(NodeId) -> bool, holder: NodeId)
    ensures
        carried_replicas(old, keep).len() <= 16,
        carried_replicas(old, keep).contains(holder) ==> keep(holder) && (old.owners.contains(
            holder,
        ) || old.replicas.contains(holder)),
        old.owners.len() + old.replicas.len() <= 16 && keep(holder) && (old.owners.contains(holder)
            || old.replicas.contains(holder)) ==> carried_replicas(old, keep).contains(holder),
{
    let held = old.owners + old.replicas;
    let kept = held.filter(keep);
    let all = without_repeats(kept);
    let carried = carried_replicas(old, keep);
    crate::base::members::lemma_without_repeats(kept);
    crate::base::search::lemma_filter_contains(held, keep);
    held.lemma_filter_len(keep);
    if old.owners.contains(holder) {
        let k = old.owners.index_of(holder);
        assert(held[k] == holder);
    }
    if old.replicas.contains(holder) {
        let k = old.replicas.index_of(holder);
        assert(held[old.owners.len() + k] == holder);
    }
    if carried.contains(holder) {
        let k = carried.index_of(holder);
        assert(all[k] == holder);
        assert(all.to_set().contains(holder));
        assert(kept.to_set().contains(holder));
        let j = held.index_of(holder);
    }
    if held.len() <= 16 {
        assert(carried =~= all);
        if kept.contains(holder) {
            assert(kept.to_set().contains(holder));
            assert(all.to_set().contains(holder));
        }
    }
}

/// A plan made of a decision follows the plan before it: one more of each of its
/// generations, the old plan as its parent, the same branch, and the decided workers.
pub proof fn law_rebased_plan_follows(
    decision: V4TrainingPlanView,
    previous: V4TrainingPlanView,
    shards: Seq<V4ShardOwnershipView>,
)
    requires
        previous.plan_generation < u64::MAX,
        previous.training_epoch < u64::MAX,
        previous.membership_epoch < u64::MAX,
        previous.coordination_term < u64::MAX,
    ensures
        ({
            let p = rebased_plan(decision, previous, shards);
            &&& p.plan_generation == previous.plan_generation + 1
            &&& p.training_epoch == previous.training_epoch + 1
            &&& p.membership_epoch == previous.membership_epoch + 1
            &&& p.coordination_term == previous.coordination_term + 1
            &&& p.branch == previous.branch
            &&& p.parent_plan_hash == Some(previous.plan_hash)
            &&& p.shards == shards
            &&& p.workers == decision.workers
            &&& p.proposer == decision.proposer
            &&& p.strategy == decision.strategy
            &&& p.job_id == decision.job_id
            &&& p.worker_capabilities == decision.worker_capabilities
        }),
        ({
            let p = advanced_plan(previous, shards);
            &&& p.plan_generation == previous.plan_generation + 1
            &&& p.membership_epoch == previous.membership_epoch + 1
            &&& p.coordination_term == previous.coordination_term + 1
            &&& p.training_epoch == previous.training_epoch
            &&& p.parent_plan_hash == Some(previous.plan_hash)
            &&& p.shards == shards
            &&& p.workers == previous.workers
            &&& p.proposer == previous.proposer
            &&& p.branch == previous.branch && p.job_id == previous.job_id
        }),
{
}

/// A shard moves exactly when its first owner changes: from the owner in the active plan
/// to the proposed one, with the proposed generation and content.
pub proof fn law_moves_follow_owners(
    current: Seq<V4ShardOwnershipView>,
    proposed: V4ShardOwnershipView,
    i: int,
)
    requires
        0 <= i < current.len(),
        current[i].shard_id == proposed.shard_id,
        forall|j: int| 0 <= j < i ==> (#[trigger] current[j]).shard_id != proposed.shard_id,
    ensures
        ({
            let m = move_of(current, proposed);
            &&& current[i].owners.len() == 0 <==> m == Err::<Option<ShardMove>, _>(
                MoveError::NoCurrentOwner,
            )
            &&& current[i].owners.len() > 0 && proposed.owners.len() == 0 <==> m == Err::<
                Option<ShardMove>,
                _,
            >(MoveError::NoProposedOwner)
            &&& current[i].owners.len() > 0 && proposed.owners.len() > 0 ==> {
                &&& m is Ok
                &&& m->Ok_0 is None <==> current[i].owners[0] == proposed.owners[0]
                &&& m->Ok_0 matches Some(mv) ==> mv.from == current[i].owners[0] && mv.to
                    == proposed.owners[0] && mv.shard_id == proposed.shard_id
                    && mv.ownership_generation == proposed.ownership_generation && mv.content_hash
                    == proposed.content_hash
            }
        }),
{
    lemma_find_at(current, numbered(proposed.shard_id), i);
}

/// A seeded shard has the content and the size that were written, and room for it; a
/// migrated one has the target as its one owner, and who held it before keeps a copy.
/// All else about the shard stays.
pub proof fn law_written_shard_has_the_content(
    s: V4ShardOwnershipView,
    target: NodeId,
    generation: u64,
    hash: ArtifactId,
    bytes: int,
    holder: NodeId,
)
    requires
        0 <= bytes <= u64::MAX,
    ensures
        ({
            let w = seeded_shard(s, hash, bytes);
            &&& w.content_hash == hash && w.state_bytes == bytes
            &&& w.memory_bytes >= bytes && w.memory_bytes >= s.memory_bytes
            &&& w.memory_bytes == bytes || w.memory_bytes == s.memory_bytes
            &&& w.lifecycle is Active
            &&& w.owners == s.owners && w.replicas == s.replicas && w.shard_id == s.shard_id
            &&& w.ownership_generation == s.ownership_generation && w.model_generation
                == s.model_generation
        }),
        ({
            let m = migrated_shard(s, target, generation, hash, bytes);
            &&& m.owners.len() == 1 && m.owners[0] == target
            &&& m.ownership_generation == generation
            &&& m.content_hash == hash && m.state_bytes == bytes
            &&& m.memory_bytes >= bytes && m.memory_bytes >= s.memory_bytes
            &&& m.lifecycle is Active
            &&& m.shard_id == s.shard_id && m.model_generation == s.model_generation
            &&& !m.replicas.contains(target)
            &&& m.replicas.contains(holder) ==> s.owners.contains(holder) || s.replicas.contains(
                holder,
            )
            &&& s.owners.len() + s.replicas.len() <= 16 && holder != target && (s.owners.contains(
                holder,
            ) || s.replicas.contains(holder)) ==> m.replicas.contains(holder)
        }),
{
    lemma_carried(s, other_than(target), holder);
    lemma_carried(s, other_than(target), target);
}

/// A move is recorded exactly when an owner reports it, with the next ownership
/// generation, to a worker of the plan, of the very content that the plan names.
pub proof fn law_recorded_moves_are_in_order(
    plan: V4TrainingPlanView,
    s: V4ShardOwnershipView,
    node: NodeId,
    target: NodeId,
    generation: u64,
    hash: ArtifactId,
    bytes: int,
)
    requires
        s.ownership_generation < u64::MAX,
    ensures
        migration_refused(plan, s, node, target, generation, hash, bytes) is None <==> {
            &&& s.owners.contains(node)
            &&& generation == s.ownership_generation + 1
            &&& plan.workers.contains(target)
            &&& hash == s.content_hash && bytes == s.state_bytes
        },
        !s.owners.contains(node) ==> migration_refused(
            plan,
            s,
            node,
            target,
            generation,
            hash,
            bytes,
        ) == Some(ShardPlanError::NotOwner),
        s.owners.contains(node) && generation == s.ownership_generation + 1
            && !plan.workers.contains(target) ==> migration_refused(
            plan,
            s,
            node,
            target,
            generation,
            hash,
            bytes,
        ) == Some(ShardPlanError::ForeignTarget),
{
}

/// A change of the plan goes to all its workers, and to its proposer where another node
/// makes it; an activation concerns the proposed workers and the first owners of the
/// active shards, but not this node.
pub proof fn law_who_hears_of_a_plan(
    plan: V4TrainingPlanView,
    proposal: V4TrainingPlanView,
    node: NodeId,
    peer: NodeId,
)
    requires
        first_owners(plan.shards).finite(),
    ensures
        plan_recipients(plan, node).contains(peer) <==> plan.workers.contains(peer) || (
        plan.proposer == peer && peer != node),
        activation_participants(node, plan, proposal).contains(peer) <==> peer != node && (
        proposal.workers.contains(peer) || exists|i: int|
            0 <= i < plan.shards.len() && (#[trigger] plan.shards[i]).owners.len() > 0
                && plan.shards[i].owners[0] == peer),
{
    let named = if plan.proposer != node {
        plan.workers.to_set().insert(plan.proposer)
    } else {
        plan.workers.to_set()
    };
    crate::base::members::lemma_ascending_exists(named);
    let listed = plan_recipients(plan, node);
    assert(listed.contains(peer) <==> listed.to_set().contains(peer));
    assert(plan.workers.contains(peer) <==> plan.workers.to_set().contains(peer));
    let concerned = proposal.workers.to_set().union(first_owners(plan.shards)).remove(node);
    crate::base::members::lemma_ascending_exists(concerned);
    let told = activation_participants(node, plan, proposal);
    assert(told.contains(peer) <==> told.to_set().contains(peer));
    assert(proposal.workers.contains(peer) <==> proposal.workers.to_set().contains(peer));
    if first_owners(plan.shards).contains(peer) {
        let i = choose|i: int|
            0 <= i < plan.shards.len() && first_owner(#[trigger] plan.shards[i]) == Some(peer);
        assert(plan.shards[i].owners[0] == peer);
    }
    if exists|i: int|
        0 <= i < plan.shards.len() && (#[trigger] plan.shards[i]).owners.len() > 0
            && plan.shards[i].owners[0] == peer {
        let i = choose|i: int|
            0 <= i < plan.shards.len() && (#[trigger] plan.shards[i]).owners.len() > 0
                && plan.shards[i].owners[0] == peer;
        assert(first_owner(plan.shards[i]) == Some(peer));
    }
}

/// A proposal is activated only by its own proposer, valid, as the child of the active
/// plan and newer than it.
pub proof fn law_activation_is_in_order(
    node: NodeId,
    current: V4TrainingPlanView,
    proposal: V4TrainingPlanView,
    valid: bool,
)
    ensures
        activation_in_order(node, current, proposal, valid) <==> valid && node == proposal.proposer
            && proposal.parent_plan_hash == Some(current.plan_hash) && current.plan_generation
            < proposal.plan_generation,
{
}

/// A seeded plan changes the one shard alone that was written, by one of its owners, and
/// reports its ownership; an unknown shard and a foreign node are refused.
pub proof fn law_seeding_changes_one_shard(
    p: V4TrainingPlanView,
    node: NodeId,
    shard_id: u16,
    hash: ArtifactId,
    bytes: int,
    i: int,
)
    requires
        0 <= bytes <= u64::MAX,
        0 <= i < p.shards.len(),
    ensures
        ({
            let r = plan_seeded(p, node, shard_id, hash, bytes);
            &&& r matches Ok((next, ownership)) ==> {
                &&& next.shards.len() == p.shards.len()
                &&& p.shards[i].shard_id != shard_id ==> next.shards[i] == p.shards[i]
                &&& p.shards[i].shard_id == shard_id && (forall|j: int|
                    0 <= j < i ==> (#[trigger] p.shards[j]).shard_id != shard_id)
                    ==> next.shards[i].content_hash == hash && next.shards[i].state_bytes == bytes
                    && next.shards[i].owners == p.shards[i].owners && ownership
                    == p.shards[i].ownership_generation
                &&& next.parent_plan_hash == Some(p.plan_hash)
            }
            &&& p.shards[i].shard_id == shard_id && (forall|j: int|
                0 <= j < i ==> (#[trigger] p.shards[j]).shard_id != shard_id) ==> (r is Ok
                <==> p.shards[i].owners.contains(node))
            &&& (forall|j: int|
                0 <= j < p.shards.len() ==> (#[trigger] p.shards[j]).shard_id != shard_id) ==> r
                == Err::<(V4TrainingPlanView, u64), _>(ShardPlanError::UnknownShard)
        }),
{
    let at = shard_position(p.shards, shard_id);
    lemma_shard_position_first(p.shards, shard_id);
    crate::base::search::lemma_find_sound(p.shards, numbered(shard_id));
    if at < p.shards.len() {
        lemma_find_at(p.shards, numbered(shard_id), at);
    }
}

proof fn lemma_shard_position_first(shards: Seq<V4ShardOwnershipView>, shard_id: u16)
    ensures
        0 <= shard_position(shards, shard_id) <= shards.len(),
        shard_position(shards, shard_id) < shards.len() ==> shards[shard_position(
            shards,
            shard_id,
        )].shard_id == shard_id,
        forall|j: int|
            0 <= j < shard_position(shards, shard_id) ==> (#[trigger] shards[j]).shard_id
                != shard_id,
    decreases shards.len(),
{
    if shards.len() > 0 && shards[0].shard_id != shard_id {
        let rest = shards.drop_first();
        lemma_shard_position_first(rest, shard_id);
        assert forall|j: int| 0 <= j < shard_position(shards, shard_id) implies (
        #[trigger] shards[j]).shard_id != shard_id by {
            if j > 0 {
                assert(shards[j] == rest[j - 1]);
            }
        }
    }
}

/// A local shard is ready to move when it is of the active plan, at the ownership before
/// the proposed one, with the proposed content.
pub proof fn law_local_shard_is_ready(
    shard: crate::frontier::local::V4LocalDataShardView,
    current_generation: u64,
    ownership_generation: u64,
    content_hash: ArtifactId,
)
    requires
        ownership_generation > 0,
    ensures
        local_shard_current(shard, current_generation, ownership_generation, content_hash)
            <==> shard.plan_generation == current_generation && shard.ownership_generation + 1
            == ownership_generation && shard.hash == content_hash,
{
}

} // verus!
