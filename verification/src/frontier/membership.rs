//! Changes of membership: the next generation of a graph after a worker failed
//! or joined.

use crate::base::arith::{max_int, max_u64, min_int, sat_u64};
use crate::base::ids::{unsigned_hash, ArtifactId, JobId, NodeId};
use crate::base::members::{
    ascending, concat_ids, contains_id, drop_repeats, filter_other_than, first_ids,
    lemma_without_repeats, push_new, push_unique, sorted_unique, without_repeats, NodeSet,
};
use crate::base::record::{duplicate_all, Duplicate};
use crate::base::search::{find, lemma_find_at, lemma_views_push, other_than, views};
use crate::frontier::backend::{
    bind_backend_assignments, bind_roles, requirements_of, roles_of, BackendOption,
    BackendOptionView, BindError,
};
use crate::frontier::integrated::{
    groups_of, integrated_groups, integrated_state, optimizer_placements, placements,
    split_integrated_reference_shards, split_parts, state_on, SplitError,
};
use crate::frontier::policy::V4ReconciliationPolicy;
use crate::frontier::types::{
    BackendAssignmentView, V4ExecutionGraph, V4ExecutionGraphView, V4IntegratedPhase,
    V4IntegratedStateRecord, V4PipelineStageAssignment, V4PipelineStageAssignmentView,
    V4ShardLifecycle, V4ShardOwnership, V4ShardOwnershipView, V4TensorGroup, V4TensorGroupView,
    V4TrainingPlan, V4TrainingPlanView, V4WorkerCapability, V4WorkerCapabilityView,
};
use vstd::prelude::*;

verus! {

/// The members other than the failed one, with the joined one, in byte order.
pub open spec fn next_members(
    workers: Seq<NodeId>,
    failed: Option<NodeId>,
    joined: Option<NodeId>,
) -> Seq<NodeId> {
    let left = match failed {
        Some(f) => workers.to_set().remove(f),
        None => workers.to_set(),
    };
    ascending(
        match joined {
            Some(j) => left.insert(j),
            None => left,
        },
    )
}

fn members_after(
    workers: &Vec<NodeId>,
    failed: Option<NodeId>,
    joined: Option<NodeId>,
) -> (r: Vec<NodeId>)
    ensures
        r@ == next_members(workers@, failed, joined),
        crate::base::members::strictly_sorted(r@),
{
    let mut all = match failed {
        Some(f) => {
            let left = filter_other_than(workers, f);
            proof {
                crate::base::search::lemma_filter_contains(workers@, other_than(f));
                assert(left@.to_set() =~= workers@.to_set().remove(f)) by {
                    assert forall|n: NodeId| left@.to_set().contains(n)
                        == workers@.to_set().remove(f).contains(n) by {
                        assert(left@.contains(n) <==> workers@.contains(n) && other_than(f)(n));
                    }
                }
            }
            left
        },
        None => workers.clone(),
    };
    match joined {
        Some(j) => {
            proof {
                all@.lemma_push_to_set_commute(j);
                if all@.contains(j) {
                    assert(all@.to_set().insert(j) =~= all@.to_set());
                }
            }
            push_unique(&mut all, j);
        },
        None => {},
    }
    sorted_unique(&all)
}

/// The capabilities of the members.
pub open spec fn kept_capability(members: Seq<NodeId>) -> spec_fn(V4WorkerCapabilityView) -> bool {
    |c: V4WorkerCapabilityView| members.contains(c.node)
}

/// Whether a capability of `node` is among `caps`.
pub open spec fn knows_capability(caps: Seq<V4WorkerCapabilityView>, node: NodeId) -> bool {
    exists|i: int| 0 <= i < caps.len() && (#[trigger] caps[i]).node == node
}

/// The capabilities after a change of membership; none where the joined worker
/// has not shown one.
pub open spec fn next_capabilities(
    caps: Seq<V4WorkerCapabilityView>,
    members: Seq<NodeId>,
    joined: Option<NodeId>,
    shown: Option<V4WorkerCapabilityView>,
) -> Option<Seq<V4WorkerCapabilityView>> {
    let kept = caps.filter(kept_capability(members));
    match joined {
        Some(j) if !knows_capability(kept, j) => match shown {
            Some(c) => Some(kept.push(c)),
            None => None,
        },
        _ => Some(kept),
    }
}

fn capabilities_after(
    caps: &Vec<V4WorkerCapability>,
    members: &Vec<NodeId>,
    joined: Option<NodeId>,
    shown: &Option<V4WorkerCapability>,
) -> (r: Option<Vec<V4WorkerCapability>>)
    ensures
        match r {
            Some(v) => next_capabilities(
                views(caps@),
                members@,
                joined,
                crate::base::search::opt_view(*shown),
            ) == Some(views(v@)),
            None => next_capabilities(
                views(caps@),
                members@,
                joined,
                crate::base::search::opt_view(*shown),
            ) is None,
        },
{
    let ghost s = views(caps@);
    let ghost p = kept_capability(members@);
    let mut out: Vec<V4WorkerCapability> = Vec::new();
    let mut i: usize = 0;
    proof {
        crate::base::search::lemma_filter_ends(s, p);
        assert(views(out@) =~= s.take(0).filter(p));
    }
    while i < caps.len()
        invariant
            0 <= i <= caps@.len(),
            s == views(caps@),
            p == kept_capability(members@),
            views(out@) == s.take(i as int).filter(p),
        decreases caps@.len() - i,
    {
        proof {
            crate::base::search::lemma_filter_step(s, p, i as int);
            assert(s[i as int] == caps@[i as int]@);
        }
        if contains_id(members, caps[i].node) {
            let copy = caps[i].duplicate();
            proof {
                lemma_views_push(out@, copy);
            }
            out.push(copy);
        }
        i += 1;
    }
    proof {
        crate::base::search::lemma_filter_ends(s, p);
    }
    match joined {
        None => Some(out),
        Some(j) => {
            let mut k: usize = 0;
            let mut known = false;
            while k < out.len()
                invariant
                    0 <= k <= out@.len(),
                    known == exists|i: int|
                        0 <= i < k && (#[trigger] views(out@)[i]).node == j,
                decreases out@.len() - k,
            {
                assert(views(out@)[k as int] == out@[k as int]@);
                if out[k].node == j {
                    known = true;
                }
                k += 1;
            }
            if known {
                return Some(out);
            }
            match shown {
                None => None,
                Some(c) => {
                    let copy = c.duplicate();
                    proof {
                        lemma_views_push(out@, copy);
                    }
                    out.push(copy);
                    Some(out)
                },
            }
        },
    }
}

/// The identities that are members and did not fail.
pub open spec fn stays(members: Seq<NodeId>, failed: Option<NodeId>) -> spec_fn(NodeId) -> bool {
    |n: NodeId| members.contains(n) && failed != Some(n)
}

/// The identities that are members.
pub open spec fn is_member(members: Seq<NodeId>) -> spec_fn(NodeId) -> bool {
    |n: NodeId| members.contains(n)
}

/// The identities that did not fail.
pub open spec fn did_not_fail(failed: Option<NodeId>) -> spec_fn(NodeId) -> bool {
    |n: NodeId| failed != Some(n)
}

/// The owner of a shard after a change of membership: the old one where it
/// stays, else a replica that is a member, else any member that did not fail.
pub open spec fn next_owner(
    s: V4ShardOwnershipView,
    members: Seq<NodeId>,
    failed: Option<NodeId>,
) -> Option<NodeId> {
    if stays(members, failed)(s.owners[0]) {
        Some(s.owners[0])
    } else if find(s.replicas, is_member(members)) is Some {
        find(s.replicas, is_member(members))
    } else {
        find(members, did_not_fail(failed))
    }
}

/// The members that may replicate a shard of `owner`.
pub open spec fn may_replicate(
    members: Seq<NodeId>,
    failed: Option<NodeId>,
    owner: NodeId,
) -> spec_fn(NodeId) -> bool {
    |n: NodeId| n != owner && failed != Some(n) && members.contains(n)
}

/// The first two of the old replicas, the old owner and the members that may
/// replicate the shard, without repeats in a row.
pub open spec fn next_replicas(
    s: V4ShardOwnershipView,
    members: Seq<NodeId>,
    failed: Option<NodeId>,
    owner: NodeId,
) -> Seq<NodeId> {
    let all = without_repeats(
        (s.replicas.push(s.owners[0]) + members).filter(may_replicate(members, failed, owner)),
    );
    all.take(min_int(all.len() as int, 2))
}

/// The shard after a change of membership.
pub open spec fn next_shard(
    s: V4ShardOwnershipView,
    members: Seq<NodeId>,
    failed: Option<NodeId>,
    owner: NodeId,
) -> V4ShardOwnershipView {
    V4ShardOwnershipView {
        owners: seq![owner],
        replicas: next_replicas(s, members, failed, owner),
        ownership_generation: sat_u64(s.ownership_generation + 1) as u64,
        lifecycle: V4ShardLifecycle::Active,
        ..s
    }
}

/// The shards after a change of membership; none where one finds no owner.
pub open spec fn next_shards(
    shards: Seq<V4ShardOwnershipView>,
    members: Seq<NodeId>,
    failed: Option<NodeId>,
) -> Option<Seq<V4ShardOwnershipView>>
    decreases shards.len(),
{
    if shards.len() == 0 {
        Some(Seq::empty())
    } else {
        match (
            next_shards(shards.drop_last(), members, failed),
            next_owner(shards.last(), members, failed),
        ) {
            (Some(before), Some(owner)) => Some(
                before.push(next_shard(shards.last(), members, failed, owner)),
            ),
            _ => None,
        }
    }
}

fn find_matching(
    ids: &Vec<NodeId>,
    members: Option<&Vec<NodeId>>,
    failed: Option<NodeId>,
) -> (r: Option<NodeId>)
    ensures
        match members {
            Some(m) => failed is None ==> r == find(ids@, is_member(m@)),
            None => r == find(ids@, did_not_fail(failed)),
        },
{
    let ghost p = match members {
        Some(m) => is_member(m@),
        None => did_not_fail(failed),
    };
    let mut i: usize = 0;
    while i < ids.len()
        invariant
            0 <= i <= ids@.len(),
            p == (match members {
                Some(m) => is_member(m@),
                None => did_not_fail(failed),
            }),
            forall|j: int| 0 <= j < i ==> !p(#[trigger] ids@[j]),
        decreases ids@.len() - i,
    {
        let fits = match members {
            Some(m) => contains_id(m, ids[i]),
            None => failed != Some(ids[i]),
        };
        if fits {
            proof {
                lemma_find_at(ids@, p, i as int);
            }
            return Some(ids[i]);
        }
        i += 1;
    }
    proof {
        lemma_find_at(ids@, p, i as int);
    }
    None
}

fn owner_after(shard: &V4ShardOwnership, members: &Vec<NodeId>, failed: Option<NodeId>) -> (r:
    Option<NodeId>)
    requires
        shard@.owners.len() > 0,
    ensures
        r == next_owner(shard@, members@, failed),
{
    let previous = shard.owners[0];
    if failed != Some(previous) && contains_id(members, previous) {
        return Some(previous);
    }
    match find_matching(&shard.replicas, Some(members), None) {
        Some(replica) => Some(replica),
        None => find_matching(members, None, failed),
    }
}

fn replicas_after(
    shard: &V4ShardOwnership,
    members: &Vec<NodeId>,
    failed: Option<NodeId>,
    owner: NodeId,
) -> (r: Vec<NodeId>)
    requires
        shard@.owners.len() > 0,
    ensures
        r@ == next_replicas(shard@, members@, failed, owner),
{
    let mut holders = shard.replicas.clone();
    holders.push(shard.owners[0]);
    let all = concat_ids(&holders, members);
    let ghost p = may_replicate(members@, failed, owner);
    let mut kept: Vec<NodeId> = Vec::new();
    let mut i: usize = 0;
    proof {
        crate::base::search::lemma_filter_ends(all@, p);
    }
    while i < all.len()
        invariant
            0 <= i <= all@.len(),
            p == may_replicate(members@, failed, owner),
            kept@ == all@.take(i as int).filter(p),
        decreases all@.len() - i,
    {
        proof {
            crate::base::search::lemma_filter_step(all@, p, i as int);
        }
        if all[i] != owner && failed != Some(all[i]) && contains_id(members, all[i]) {
            kept.push(all[i]);
        }
        i += 1;
    }
    proof {
        crate::base::search::lemma_filter_ends(all@, p);
    }
    first_ids(drop_repeats(&kept), 2)
}

/// Every shard has an owner.
pub open spec fn all_owned(shards: Seq<V4ShardOwnershipView>) -> bool {
    forall|i: int| 0 <= i < shards.len() ==> (#[trigger] shards[i]).owners.len() > 0
}

fn shards_after(shards: &Vec<V4ShardOwnership>, members: &Vec<NodeId>, failed: Option<NodeId>) -> (r:
    Option<Vec<V4ShardOwnership>>)
    requires
        all_owned(views(shards@)),
    ensures
        match r {
            Some(v) => next_shards(views(shards@), members@, failed) == Some(views(v@)),
            None => next_shards(views(shards@), members@, failed) is None,
        },
{
    let ghost s = views(shards@);
    let mut out: Vec<V4ShardOwnership> = Vec::new();
    let mut i: usize = 0;
    assert(views(out@) =~= Seq::<V4ShardOwnershipView>::empty());
    while i < shards.len()
        invariant
            0 <= i <= shards@.len(),
            s == views(shards@),
            all_owned(s),
            next_shards(s.take(i as int), members@, failed) == Some(views(out@)),
        decreases shards@.len() - i,
    {
        proof {
            assert(s.take(i as int + 1).drop_last() =~= s.take(i as int));
            assert(s.take(i as int + 1).last() == shards@[i as int]@);
            assert(s[i as int].owners.len() > 0);
        }
        match owner_after(&shards[i], members, failed) {
            None => {
                proof {
                    lemma_shards_failure(s, members@, failed, i as int + 1);
                }
                return None;
            },
            Some(owner) => {
                let mut shard = shards[i].duplicate();
                shard.replicas = replicas_after(&shards[i], members, failed, owner);
                let mut owners: Vec<NodeId> = Vec::new();
                owners.push(owner);
                assert(owners@ =~= seq![owner]);
                shard.owners = owners;
                shard.ownership_generation = shard.ownership_generation.saturating_add(1);
                shard.lifecycle = V4ShardLifecycle::Active;
                proof {
                    assert(shard@ =~= next_shard(s[i as int], members@, failed, owner));
                    lemma_views_push(out@, shard);
                }
                out.push(shard);
            },
        }
        i += 1;
    }
    assert(s.take(i as int) =~= s);
    Some(out)
}

proof fn lemma_shards_failure(
    s: Seq<V4ShardOwnershipView>,
    members: Seq<NodeId>,
    failed: Option<NodeId>,
    n: int,
)
    requires
        0 <= n <= s.len(),
        next_shards(s.take(n), members, failed) is None,
    ensures
        next_shards(s, members, failed) is None,
    decreases s.len() - n,
{
    if n < s.len() {
        assert(s.take(n + 1).drop_last() =~= s.take(n));
        lemma_shards_failure(s, members, failed, n + 1);
    } else {
        assert(s.take(n) =~= s);
    }
}

/// The workers of the stages.
pub open spec fn stage_workers(stages: Seq<V4PipelineStageAssignmentView>) -> Set<NodeId> {
    stages.map_values(|s: V4PipelineStageAssignmentView| s.worker).to_set()
}

/// The workers of the stages that stay members: they keep a stage of their own.
pub open spec fn staying_workers(
    stages: Seq<V4PipelineStageAssignmentView>,
    members: Seq<NodeId>,
    failed: Option<NodeId>,
) -> Set<NodeId> {
    stage_workers(stages).filter(stays(members, failed))
}

/// The members that may run the stage of `worker` while `taken` already run others:
/// `worker` itself, or one that no stage keeps.
pub open spec fn may_run_stage(
    members: Seq<NodeId>,
    failed: Option<NodeId>,
    taken: Set<NodeId>,
    kept: Set<NodeId>,
    worker: NodeId,
) -> spec_fn(NodeId) -> bool {
    |n: NodeId|
        members.contains(n) && failed != Some(n) && !taken.contains(n) && (n == worker
            || !kept.contains(n))
}

/// The members that may replicate a stage of `worker`.
pub open spec fn may_back_stage(worker: NodeId, failed: Option<NodeId>) -> spec_fn(NodeId) -> bool {
    |n: NodeId| n != worker && failed != Some(n)
}

/// The stage after a change of membership.
pub open spec fn next_stage(
    stage: V4PipelineStageAssignmentView,
    members: Seq<NodeId>,
    failed: Option<NodeId>,
    worker: NodeId,
    generation: u64,
) -> V4PipelineStageAssignmentView {
    let others = members.filter(may_back_stage(worker, failed));
    V4PipelineStageAssignmentView {
        worker,
        replicas: others.take(min_int(others.len() as int, 2)),
        generation,
        ..stage
    }
}

/// The stages after a change of membership, each on a worker of its own, while the
/// workers in `kept` stay with the stages they have; none where a stage finds no
/// worker.
pub open spec fn matched_stages(
    stages: Seq<V4PipelineStageAssignmentView>,
    members: Seq<NodeId>,
    failed: Option<NodeId>,
    kept: Set<NodeId>,
    generation: u64,
) -> Option<Seq<V4PipelineStageAssignmentView>>
    decreases stages.len(),
{
    if stages.len() == 0 {
        Some(Seq::empty())
    } else {
        match matched_stages(stages.drop_last(), members, failed, kept, generation) {
            None => None,
            Some(before) => {
                let stage = stages.last();
                match find(
                    seq![stage.worker] + stage.replicas + members,
                    may_run_stage(members, failed, stage_workers(before), kept, stage.worker),
                ) {
                    None => None,
                    Some(worker) => Some(
                        before.push(next_stage(stage, members, failed, worker, generation)),
                    ),
                }
            },
        }
    }
}

/// The stages after a change of membership: the workers that stay keep their stages,
/// and the other stages get distinct replacements.
pub open spec fn next_stages(
    stages: Seq<V4PipelineStageAssignmentView>,
    members: Seq<NodeId>,
    failed: Option<NodeId>,
    generation: u64,
) -> Option<Seq<V4PipelineStageAssignmentView>> {
    matched_stages(stages, members, failed, staying_workers(stages, members, failed), generation)
}

fn workers_staying(
    stages: &Vec<V4PipelineStageAssignment>,
    members: &Vec<NodeId>,
    failed: Option<NodeId>,
) -> (r: NodeSet)
    ensures
        r@ == staying_workers(views(stages@), members@, failed),
{
    let ghost s = views(stages@);
    let ghost p = stays(members@, failed);
    let mut kept = NodeSet::new();
    let mut i: usize = 0;
    assert(stage_workers(s.take(0)) =~= Set::<NodeId>::empty());
    assert(kept@ =~= stage_workers(s.take(0)).filter(p));
    while i < stages.len()
        invariant
            0 <= i <= stages@.len(),
            s == views(stages@),
            p == stays(members@, failed),
            kept@ == stage_workers(s.take(i as int)).filter(p),
        decreases stages@.len() - i,
    {
        let worker = stages[i].worker;
        proof {
            assert(s.take(i as int + 1) =~= s.take(i as int).push(s[i as int]));
            lemma_stage_workers_push(s.take(i as int), s[i as int]);
            assert(s[i as int].worker == worker);
        }
        if contains_id(members, worker) && failed != Some(worker) {
            kept.insert(worker);
        }
        assert(kept@ =~= stage_workers(s.take(i as int + 1)).filter(p));
        i += 1;
    }
    assert(s.take(i as int) =~= s);
    kept
}

fn stages_after(
    stages: &Vec<V4PipelineStageAssignment>,
    members: &Vec<NodeId>,
    failed: Option<NodeId>,
    generation: u64,
) -> (r: Option<Vec<V4PipelineStageAssignment>>)
    ensures
        match r {
            Some(v) => next_stages(views(stages@), members@, failed, generation) == Some(
                views(v@),
            ),
            None => next_stages(views(stages@), members@, failed, generation) is None,
        },
{
    let ghost s = views(stages@);
    let mut out: Vec<V4PipelineStageAssignment> = Vec::new();
    let mut taken = NodeSet::new();
    let kept = workers_staying(stages, members, failed);
    let mut i: usize = 0;
    proof {
        assert(views(out@) =~= Seq::<V4PipelineStageAssignmentView>::empty());
        assert(stage_workers(views(out@)) =~= Set::<NodeId>::empty());
    }
    while i < stages.len()
        invariant
            0 <= i <= stages@.len(),
            s == views(stages@),
            kept@ == staying_workers(s, members@, failed),
            matched_stages(s.take(i as int), members@, failed, kept@, generation) == Some(
                views(out@),
            ),
            taken@ == stage_workers(views(out@)),
        decreases stages@.len() - i,
    {
        proof {
            assert(s.take(i as int + 1).drop_last() =~= s.take(i as int));
            assert(s.take(i as int + 1).last() == stages@[i as int]@);
        }
        let current = stages[i].worker;
        let mut own: Vec<NodeId> = Vec::new();
        own.push(current);
        assert(own@ =~= seq![stages@[i as int].worker]);
        let held = concat_ids(&own, &stages[i].replicas);
        let all = concat_ids(&held, members);
        let ghost p = may_run_stage(members@, failed, taken@, kept@, current);
        let mut k: usize = 0;
        let mut chosen: Option<NodeId> = None;
        while k < all.len() && chosen.is_none()
            invariant
                0 <= k <= all@.len(),
                p == may_run_stage(members@, failed, taken@, kept@, current),
                chosen is None ==> forall|j: int| 0 <= j < k ==> !p(#[trigger] all@[j]),
                chosen is Some ==> find(all@, p) == chosen,
            decreases all@.len() - k,
        {
            let candidate = all[k];
            if contains_id(members, candidate) && failed != Some(candidate) && !taken.contains(
                candidate,
            ) && (candidate == current || !kept.contains(candidate)) {
                proof {
                    lemma_find_at(all@, p, k as int);
                }
                chosen = Some(candidate);
            }
            k += 1;
        }
        let worker = match chosen {
            Some(worker) => worker,
            None => {
                proof {
                    lemma_find_at(all@, p, k as int);
                    lemma_stages_failure(s, members@, failed, kept@, generation, i as int + 1);
                }
                return None;
            },
        };
        let ghost q = may_back_stage(worker, failed);
        let mut others: Vec<NodeId> = Vec::new();
        let mut m: usize = 0;
        proof {
            crate::base::search::lemma_filter_ends(members@, q);
        }
        while m < members.len()
            invariant
                0 <= m <= members@.len(),
                q == may_back_stage(worker, failed),
                others@ == members@.take(m as int).filter(q),
            decreases members@.len() - m,
        {
            proof {
                crate::base::search::lemma_filter_step(members@, q, m as int);
            }
            if members[m] != worker && failed != Some(members[m]) {
                others.push(members[m]);
            }
            m += 1;
        }
        proof {
            crate::base::search::lemma_filter_ends(members@, q);
        }
        let stage = V4PipelineStageAssignment {
            stage_id: stages[i].stage_id,
            worker,
            replicas: first_ids(others, 2),
            generation,
        };
        proof {
            assert(stage@ =~= next_stage(s[i as int], members@, failed, worker, generation));
            lemma_views_push(out@, stage);
            lemma_stage_workers_push(views(out@), stage@);
        }
        taken.insert(worker);
        out.push(stage);
        i += 1;
    }
    assert(s.take(i as int) =~= s);
    Some(out)
}

proof fn lemma_stage_workers_push(
    s: Seq<V4PipelineStageAssignmentView>,
    stage: V4PipelineStageAssignmentView,
)
    ensures
        stage_workers(s.push(stage)) == stage_workers(s).insert(stage.worker),
{
    let f = |s: V4PipelineStageAssignmentView| s.worker;
    assert(s.push(stage).map_values(f) =~= s.map_values(f).push(stage.worker));
    s.map_values(f).lemma_push_to_set_commute(stage.worker);
}

proof fn lemma_stages_failure(
    s: Seq<V4PipelineStageAssignmentView>,
    members: Seq<NodeId>,
    failed: Option<NodeId>,
    kept: Set<NodeId>,
    generation: u64,
    n: int,
)
    requires
        0 <= n <= s.len(),
        matched_stages(s.take(n), members, failed, kept, generation) is None,
    ensures
        matched_stages(s, members, failed, kept, generation) is None,
    decreases s.len() - n,
{
    if n < s.len() {
        assert(s.take(n + 1).drop_last() =~= s.take(n));
        lemma_stages_failure(s, members, failed, kept, generation, n + 1);
    } else {
        assert(s.take(n) =~= s);
    }
}

/// Why a graph cannot be reconfigured.
#[derive(Clone, Copy, Debug, PartialEq, Eq, Structural)]
pub enum ReconfigureError {
    /// Fewer than two workers would be left.
    TooFewWorkers,
    /// After a failure, the workers left are not a majority.
    NoQuorum { live: usize, total: usize },
    /// The joined worker has not shown what it can do.
    NoCapability,
    /// The reference shards cannot be split.
    Split(SplitError),
    /// A shard finds no owner.
    NoShardOwner,
    /// The stages find no workers of their own.
    NoStageWorkers,
    /// A role finds no backend.
    Backend(BindError),
}

/// The reference shards are split: a worker joined before the first window of a
/// job that still has its two first shards.
pub open spec fn splits_shards(
    graph: V4ExecutionGraphView,
    window: u64,
    failed: Option<NodeId>,
    joined: Option<NodeId>,
    members: int,
) -> bool {
    joined is Some && failed is None && window == 0 && graph.checkpoint_generation <= 1
        && graph.shards.len() == 2 && members >= 4
}

/// The shards of the next plan, or what stands against them.
pub open spec fn reconfigured_shards(
    graph: V4ExecutionGraphView,
    plan: V4TrainingPlanView,
    window: u64,
    failed: Option<NodeId>,
    joined: Option<NodeId>,
    members: Seq<NodeId>,
    split_hashes: Seq<ArtifactId>,
) -> Result<Seq<V4ShardOwnershipView>, ReconfigureError> {
    if splits_shards(graph, window, failed, joined, members.len() as int) {
        if plan.shards.len() != 2 || members.len() < 4 {
            Err(ReconfigureError::Split(SplitError::Shape))
        } else if plan.shards[0].shard_id > 1 || plan.shards[1].shard_id > 1 {
            Err(ReconfigureError::Split(SplitError::SourceIdentity))
        } else {
            Ok(split_parts(plan.shards, members, split_hashes, 2))
        }
    } else {
        match next_shards(plan.shards, members, failed) {
            Some(s) => Ok(s),
            None => Err(ReconfigureError::NoShardOwner),
        }
    }
}

/// The shards of a plan can be carried into a changed graph: each has an owner, or
/// they are about to be split.
pub open spec fn shards_carry_over(
    graph: V4ExecutionGraphView,
    plan: V4TrainingPlanView,
    window: u64,
    failed: Option<NodeId>,
    joined: Option<NodeId>,
) -> bool {
    all_owned(plan.shards) || splits_shards(
        graph,
        window,
        failed,
        joined,
        next_members(graph.workers, failed, joined).len() as int,
    )
}

/// Whether the shards of a plan can be carried into a changed graph.
pub fn may_reconfigure(
    graph: &V4ExecutionGraph,
    plan: &V4TrainingPlan,
    window: u64,
    failed: Option<NodeId>,
    joined: Option<NodeId>,
) -> (r: bool)
    ensures
        r == shards_carry_over(graph@, plan@, window, failed, joined),
{
    let ghost s = plan@.shards;
    let mut i: usize = 0;
    while i < plan.shards.len() && plan.shards[i].owners.len() > 0
        invariant
            0 <= i <= plan.shards@.len(),
            s == views(plan.shards@),
            forall|j: int| 0 <= j < i ==> (#[trigger] s[j]).owners.len() > 0,
        decreases plan.shards@.len() - i,
    {
        assert(s[i as int] == plan.shards@[i as int]@);
        i += 1;
    }
    if i == plan.shards.len() {
        return true;
    }
    assert(s[i as int] == plan.shards@[i as int]@);
    let members = members_after(&graph.workers, failed, joined);
    joined.is_some() && failed.is_none() && window == 0 && graph.checkpoint_generation <= 1
        && graph.shards.len() == 2 && members.len() >= 4
}

/// The next plan before its backends are bound and its hash is set.
pub open spec fn reconfigured_plan(
    node: NodeId,
    plan: V4TrainingPlanView,
    branch: ArtifactId,
    members: Seq<NodeId>,
    capabilities: Seq<V4WorkerCapabilityView>,
    shards: Seq<V4ShardOwnershipView>,
) -> V4TrainingPlanView {
    V4TrainingPlanView {
        proposer: node,
        plan_generation: sat_u64(plan.plan_generation + 1) as u64,
        training_epoch: sat_u64(plan.training_epoch + 1) as u64,
        membership_epoch: sat_u64(plan.membership_epoch + 1) as u64,
        coordination_term: sat_u64(plan.coordination_term + 1) as u64,
        parent_plan_hash: Some(plan.plan_hash),
        workers: members,
        worker_capabilities: capabilities,
        groups: groups_of(members, node),
        branch,
        shards,
        plan_hash: unsigned_hash(),
        ..plan
    }
}

/// The plan with its roles bound.
pub open spec fn bound_plan(
    plan: V4TrainingPlanView,
    assignments: Seq<BackendAssignmentView>,
) -> V4TrainingPlanView {
    V4TrainingPlanView {
        compute_requirements: requirements_of(assignments),
        backend_assignments: assignments,
        ..plan
    }
}

/// The workers that have left the job for good.
pub open spec fn next_retired(
    retired: Seq<NodeId>,
    failed: Option<NodeId>,
    joined: Option<NodeId>,
) -> Seq<NodeId> {
    let with_failed = match failed {
        Some(f) => push_new(retired, f),
        None => retired,
    };
    match joined {
        Some(j) => with_failed.filter(other_than(j)),
        None => with_failed,
    }
}

/// The numbers of the shards, in order.
pub open spec fn ids_of(shards: Seq<V4ShardOwnershipView>) -> Seq<u16> {
    shards.map_values(|s: V4ShardOwnershipView| s.shard_id)
}

/// The next graph before the hashes are set.
pub open spec fn reconfigured_graph(
    node: NodeId,
    graph: V4ExecutionGraphView,
    plan: V4TrainingPlanView,
    state_checkpoint: u64,
    failed: Option<NodeId>,
    joined: Option<NodeId>,
    stages: Seq<V4PipelineStageAssignmentView>,
    certificate: Seq<NodeId>,
) -> V4ExecutionGraphView {
    let generation = sat_u64(graph.graph_generation + 1) as u64;
    let optimizer_generation = sat_u64(graph.optimizer_generation + 1) as u64;
    V4ExecutionGraphView {
        graph_generation: generation,
        parent_graph_generation: Some(graph.graph_generation),
        proposer: node,
        coordinator: node,
        plan_hash: unsigned_hash(),
        branch: plan.branch,
        training_epoch: plan.training_epoch,
        membership_epoch: plan.membership_epoch,
        coordination_term: plan.coordination_term,
        optimizer_generation,
        checkpoint_generation: max_int(
            graph.checkpoint_generation as int,
            state_checkpoint as int,
        ) as u64,
        workers: plan.workers,
        tensor_groups: seq![
            V4TensorGroupView {
                group_id: 0,
                members: plan.workers.take(2),
                shard_ids: ids_of(plan.shards),
                generation,
            },
        ],
        pipeline_stages: stages,
        aggregation_groups: plan.groups,
        shards: plan.shards,
        optimizer_shards: placements(plan.shards, optimizer_generation),
        collective_generation: sat_u64(graph.collective_generation + 1) as u64,
        retired_workers: next_retired(graph.retired_workers, failed, joined),
        election_certificate: certificate,
        backend_assignments: plan.backend_assignments,
        graph_hash: unsigned_hash(),
        ..graph
    }
}

/// What a reconfiguration needs besides the graph, the plan and the state.
#[derive(Debug)]
pub struct MembershipChange {
    pub failed: Option<NodeId>,
    pub joined: Option<NodeId>,
    /// What the joined worker has shown it can do.
    pub shown: Option<V4WorkerCapability>,
    /// The branch that a failure opens; without a failure the branch stays.
    pub branch: ArtifactId,
    /// The votes that made this node the coordinator.
    pub certificate: Vec<NodeId>,
    /// The hashes of the one-row reference shards, numbered two to five.
    pub split_hashes: Vec<ArtifactId>,
}

/// The next plan and graph, or what stands against them.
pub open spec fn reconfigured(
    node: NodeId,
    graph: V4ExecutionGraphView,
    plan: V4TrainingPlanView,
    state: V4IntegratedStateRecord,
    failed: Option<NodeId>,
    joined: Option<NodeId>,
    shown: Option<V4WorkerCapabilityView>,
    branch: ArtifactId,
    certificate: Seq<NodeId>,
    split_hashes: Seq<ArtifactId>,
    options: Seq<BackendOptionView>,
) -> Result<(V4ExecutionGraphView, V4TrainingPlanView), ReconfigureError> {
    let members = next_members(graph.workers, failed, joined);
    if members.len() < 2 {
        Err(ReconfigureError::TooFewWorkers)
    } else if failed is Some && members.len() * 2 <= graph.workers.len() {
        Err(
            ReconfigureError::NoQuorum {
                live: members.len() as usize,
                total: graph.workers.len() as usize,
            },
        )
    } else {
        match next_capabilities(plan.worker_capabilities, members, joined, shown) {
            None => Err(ReconfigureError::NoCapability),
            Some(capabilities) => match reconfigured_shards(
                graph,
                plan,
                state.window,
                failed,
                joined,
                members,
                split_hashes,
            ) {
                Err(e) => Err(e),
                Ok(shards) => {
                    let unbound = reconfigured_plan(
                        node,
                        plan,
                        if failed is Some {
                            branch
                        } else {
                            plan.branch
                        },
                        members,
                        capabilities,
                        shards,
                    );
                    match next_stages(
                        graph.pipeline_stages,
                        members,
                        failed,
                        sat_u64(graph.graph_generation + 1) as u64,
                    ) {
                        None => Err(ReconfigureError::NoStageWorkers),
                        Some(stages) => match bind_roles(
                            roles_of(unbound, stages),
                            capabilities,
                            options,
                        ) {
                            Err(e) => Err(ReconfigureError::Backend(e)),
                            Ok(assignments) => {
                                let next = bound_plan(unbound, assignments);
                                Ok(
                                    (
                                        reconfigured_graph(
                                            node,
                                            graph,
                                            next,
                                            state.checkpoint_generation,
                                            failed,
                                            joined,
                                            stages,
                                            certificate,
                                        ),
                                        next,
                                    ),
                                )
                            },
                        },
                    }
                },
            },
        }
    }
}

proof fn lemma_next_shards_owned(
    s: Seq<V4ShardOwnershipView>,
    members: Seq<NodeId>,
    failed: Option<NodeId>,
)
    requires
        next_shards(s, members, failed) is Some,
    ensures
        next_shards(s, members, failed)->0.len() == s.len(),
        all_owned(next_shards(s, members, failed)->0),
    decreases s.len(),
{
    if s.len() > 0 {
        lemma_next_shards_owned(s.drop_last(), members, failed);
        let before = next_shards(s.drop_last(), members, failed)->0;
        let after = next_shards(s, members, failed)->0;
        assert forall|i: int| 0 <= i < after.len() implies (#[trigger] after[i]).owners.len()
            > 0 by {
            if i < before.len() {
                assert(before[i] == after[i]);
            }
        }
    }
}

proof fn lemma_split_owned(
    sources: Seq<V4ShardOwnershipView>,
    members: Seq<NodeId>,
    hashes: Seq<ArtifactId>,
)
    ensures
        split_parts(sources, members, hashes, 2).len() == 4,
        all_owned(split_parts(sources, members, hashes, 2)),
{
    reveal_with_fuel(split_parts, 3);
}

fn collect_ids(shards: &Vec<V4ShardOwnership>) -> (r: Vec<u16>)
    ensures
        r@ == ids_of(views(shards@)),
{
    let ghost all = ids_of(views(shards@));
    let mut out: Vec<u16> = Vec::new();
    let mut i: usize = 0;
    while i < shards.len()
        invariant
            0 <= i <= shards@.len(),
            all == ids_of(views(shards@)),
            out@ == all.take(i as int),
        decreases shards@.len() - i,
    {
        out.push(shards[i].shard_id);
        assert(out@ =~= all.take(i as int + 1));
        i += 1;
    }
    assert(all.take(i as int) =~= all);
    out
}

fn retired_after(retired: &Vec<NodeId>, failed: Option<NodeId>, joined: Option<NodeId>) -> (r: Vec<
    NodeId,
>)
    ensures
        r@ == next_retired(retired@, failed, joined),
{
    let mut out = retired.clone();
    match failed {
        Some(f) => {
            push_unique(&mut out, f);
        },
        None => {},
    }
    match joined {
        Some(j) => filter_other_than(&out, j),
        None => out,
    }
}

/// The next generation of a graph and its plan after a change of membership.
/// The hashes of both are left unset.
pub fn reconfigure_integrated_graph_membership(
    node: NodeId,
    old_graph: &V4ExecutionGraph,
    old_plan: &V4TrainingPlan,
    old_state: &V4IntegratedStateRecord,
    change: &MembershipChange,
    options: &Vec<BackendOption>,
) -> (r: Result<(V4ExecutionGraph, V4TrainingPlan), ReconfigureError>)
    requires
        shards_carry_over(
            old_graph@,
            old_plan@,
            old_state.window,
            change.failed,
            change.joined,
        ),
        change.split_hashes@.len() == 4,
    ensures
        ({
            let expected = reconfigured(
                node,
                old_graph@,
                old_plan@,
                *old_state,
                change.failed,
                change.joined,
                crate::base::search::opt_view(change.shown),
                change.branch,
                change.certificate@,
                change.split_hashes@,
                views(options@),
            );
            match r {
                Ok((graph, plan)) => expected == Ok::<
                    (V4ExecutionGraphView, V4TrainingPlanView),
                    ReconfigureError,
                >((graph@, plan@)),
                Err(e) => expected == Err::<
                    (V4ExecutionGraphView, V4TrainingPlanView),
                    ReconfigureError,
                >(e),
            }
        }),
{
    let members = members_after(&old_graph.workers, change.failed, change.joined);
    if members.len() < 2 {
        return Err(ReconfigureError::TooFewWorkers);
    }
    if change.failed.is_some() && members.len() <= old_graph.workers.len() / 2 {
        return Err(
            ReconfigureError::NoQuorum { live: members.len(), total: old_graph.workers.len() },
        );
    }
    let capabilities = match capabilities_after(
        &old_plan.worker_capabilities,
        &members,
        change.joined,
        &change.shown,
    ) {
        Some(capabilities) => capabilities,
        None => {
            return Err(ReconfigureError::NoCapability);
        },
    };
    let split = change.joined.is_some() && change.failed.is_none() && old_state.window == 0
        && old_graph.checkpoint_generation <= 1 && old_graph.shards.len() == 2 && members.len()
        >= 4;
    let shards = if split {
        match split_integrated_reference_shards(&old_plan.shards, &members, &change.split_hashes) {
            Ok(shards) => {
                proof {
                    lemma_split_owned(old_plan@.shards, members@, change.split_hashes@);
                }
                shards
            },
            Err(e) => {
                return Err(ReconfigureError::Split(e));
            },
        }
    } else {
        match shards_after(&old_plan.shards, &members, change.failed) {
            Some(shards) => {
                proof {
                    lemma_next_shards_owned(old_plan@.shards, members@, change.failed);
                }
                shards
            },
            None => {
                return Err(ReconfigureError::NoShardOwner);
            },
        }
    };
    let mut plan = old_plan.duplicate();
    plan.proposer = node;
    plan.plan_generation = old_plan.plan_generation.saturating_add(1);
    plan.training_epoch = old_plan.training_epoch.saturating_add(1);
    plan.membership_epoch = old_plan.membership_epoch.saturating_add(1);
    plan.coordination_term = old_plan.coordination_term.saturating_add(1);
    plan.parent_plan_hash = Some(old_plan.plan_hash);
    plan.groups = integrated_groups(&members, node);
    plan.workers = members.clone();
    plan.worker_capabilities = capabilities;
    if change.failed.is_some() {
        plan.branch = change.branch;
    }
    plan.shards = shards;
    plan.plan_hash = ArtifactId::unsigned();
    let ghost unbound = plan@;
    assert(unbound =~= reconfigured_plan(
        node,
        old_plan@,
        unbound.branch,
        members@,
        unbound.worker_capabilities,
        unbound.shards,
    ));
    let generation = old_graph.graph_generation.saturating_add(1);
    let stages = match stages_after(
        &old_graph.pipeline_stages,
        &members,
        change.failed,
        generation,
    ) {
        Some(stages) => stages,
        None => {
            return Err(ReconfigureError::NoStageWorkers);
        },
    };
    match bind_backend_assignments(&mut plan, &stages, options) {
        Ok(()) => {},
        Err(e) => {
            return Err(ReconfigureError::Backend(e));
        },
    }
    let optimizer_generation = old_graph.optimizer_generation.saturating_add(1);
    let first_two = first_ids(members, 2);
    assert(first_two@ =~= plan@.workers.take(2));
    let mut tensor_groups: Vec<V4TensorGroup> = Vec::new();
    tensor_groups.push(
        V4TensorGroup {
            group_id: 0,
            members: first_two,
            shard_ids: collect_ids(&plan.shards),
            generation,
        },
    );
    let ghost wanted = reconfigured_graph(
        node,
        old_graph@,
        plan@,
        old_state.checkpoint_generation,
        change.failed,
        change.joined,
        views(stages@),
        change.certificate@,
    );
    assert(views(tensor_groups@) =~= wanted.tensor_groups);
    let graph = V4ExecutionGraph {
        job_id: old_graph.job_id,
        graph_generation: generation,
        parent_graph_generation: Some(old_graph.graph_generation),
        proposer: node,
        coordinator: node,
        reply_to: old_graph.reply_to,
        plan_hash: ArtifactId::unsigned(),
        branch: plan.branch,
        training_epoch: plan.training_epoch,
        membership_epoch: plan.membership_epoch,
        coordination_term: plan.coordination_term,
        optimizer_generation,
        checkpoint_generation: max_u64(
            old_graph.checkpoint_generation,
            old_state.checkpoint_generation,
        ),
        workers: plan.workers.clone(),
        tensor_groups,
        pipeline_stages: stages,
        aggregation_groups: duplicate_all(&plan.groups),
        shards: duplicate_all(&plan.shards),
        optimizer_shards: optimizer_placements(&plan.shards, optimizer_generation),
        collective_generation: old_graph.collective_generation.saturating_add(1),
        local_steps: old_graph.local_steps,
        max_staleness: old_graph.max_staleness,
        checkpoint_replication: old_graph.checkpoint_replication,
        strategy: old_graph.strategy,
        retired_workers: retired_after(&old_graph.retired_workers, change.failed, change.joined),
        election_certificate: change.certificate.clone(),
        backend_assignments: duplicate_all(&plan.backend_assignments),
        graph_hash: ArtifactId::unsigned(),
    };
    assert(graph@ =~= wanted);
    Ok((graph, plan))
}

/// The record of a branch that a failure opened.
#[derive(Clone, Copy, Debug, PartialEq, Eq, Structural)]
pub struct V4IntegratedBranchCommit {
    pub job_id: JobId,
    pub parent_branch: ArtifactId,
    pub branch: ArtifactId,
    pub parent_graph_generation: u64,
    pub graph_generation: u64,
    pub failed_member: NodeId,
    pub policy: V4ReconciliationPolicy,
    pub plan_hash: ArtifactId,
    pub commit_hash: ArtifactId,
}

/// The record of the branch that the failure of `failed` opened, before its
/// hash is set.
pub fn branch_commit(
    old_graph: &V4ExecutionGraph,
    graph: &V4ExecutionGraph,
    failed: NodeId,
    policy: V4ReconciliationPolicy,
) -> (r: V4IntegratedBranchCommit)
    ensures
        r == (V4IntegratedBranchCommit {
            job_id: graph@.job_id,
            parent_branch: old_graph@.branch,
            branch: graph@.branch,
            parent_graph_generation: old_graph@.graph_generation,
            graph_generation: graph@.graph_generation,
            failed_member: failed,
            policy,
            plan_hash: graph@.plan_hash,
            commit_hash: unsigned_hash(),
        }),
{
    V4IntegratedBranchCommit {
        job_id: graph.job_id,
        parent_branch: old_graph.branch,
        branch: graph.branch,
        parent_graph_generation: old_graph.graph_generation,
        graph_generation: graph.graph_generation,
        failed_member: failed,
        policy,
        plan_hash: graph.plan_hash,
        commit_hash: ArtifactId::unsigned(),
    }
}

/// The job state of a graph in transition, before its hash is set.
pub fn transition_state(graph: &V4ExecutionGraph, old_state: &V4IntegratedStateRecord) -> (r:
    V4IntegratedStateRecord)
    requires
        graph@.shards.len() > 0,
    ensures
        r == state_on(
            graph@,
            V4IntegratedPhase::Reconfiguring,
            old_state.window,
            old_state.target_windows,
            old_state.initial_loss_micros,
            old_state.current_loss_micros,
            (if old_state.recovery_count < u32::MAX {
                old_state.recovery_count + 1
            } else {
                old_state.recovery_count as int
            }) as u32,
        ),
{
    integrated_state(
        graph,
        V4IntegratedPhase::Reconfiguring,
        old_state.window,
        old_state.target_windows,
        old_state.initial_loss_micros,
        old_state.current_loss_micros,
        old_state.recovery_count.saturating_add(1),
    )
}

/// The next graph leaves out the failed worker, keeps every other one and takes in
/// the joined one.
pub proof fn law_reconfigured_members(
    workers: Seq<NodeId>,
    failed: Option<NodeId>,
    joined: Option<NodeId>,
)
    ensures
        forall|n: NodeId| #[trigger]
            next_members(workers, failed, joined).contains(n) <==> joined == Some(n) || (
            workers.contains(n) && failed != Some(n)),
        next_members(workers, failed, joined).no_duplicates(),
{
    let left = match failed {
        Some(f) => workers.to_set().remove(f),
        None => workers.to_set(),
    };
    let all = match joined {
        Some(j) => left.insert(j),
        None => left,
    };
    vstd::seq_lib::seq_to_set_is_finite(workers);
    crate::base::members::lemma_ascending_exists(all);
    let s = next_members(workers, failed, joined);
    assert(s.to_set() == all);
    assert forall|n: NodeId| #[trigger] s.contains(n) <==> joined == Some(n) || (workers.contains(n)
        && failed != Some(n)) by {
        assert(s.to_set().contains(n) == s.contains(n));
        assert(workers.to_set().contains(n) == workers.contains(n));
    }
    crate::base::members::lemma_strictly_sorted_distinct(s);
}

/// The new owner of every shard is a member that did not fail, and so are its
/// replicas, which never hold the owner twice over.
pub proof fn law_reconfigured_shards_live(
    shards: Seq<V4ShardOwnershipView>,
    members: Seq<NodeId>,
    failed: Option<NodeId>,
    i: int,
)
    requires
        next_shards(shards, members, failed) is Some,
        failed matches Some(f) ==> !members.contains(f),
        0 <= i < shards.len(),
    ensures
        ({
            let after = next_shards(shards, members, failed)->0;
            &&& after.len() == shards.len()
            &&& after[i].shard_id == shards[i].shard_id
            &&& after[i].content_hash == shards[i].content_hash
            &&& after[i].owners.len() == 1
            &&& members.contains(after[i].owners[0])
            &&& failed != Some(after[i].owners[0])
            &&& after[i].ownership_generation == sat_u64(shards[i].ownership_generation + 1)
            &&& (stays(members, failed)(shards[i].owners[0]) ==> after[i].owners[0]
                == shards[i].owners[0])
            &&& after[i].replicas.len() <= 2
            &&& forall|k: int|
                0 <= k < after[i].replicas.len() ==> members.contains(
                    #[trigger] after[i].replicas[k],
                ) && after[i].replicas[k] != after[i].owners[0] && failed != Some(
                    after[i].replicas[k],
                )
        }),
    decreases shards.len(),
{
    lemma_next_shards_owned(shards, members, failed);
    lemma_next_shards_owned(shards.drop_last(), members, failed);
    if i < shards.len() - 1 {
        law_reconfigured_shards_live(shards.drop_last(), members, failed, i);
    } else {
        let s = shards.last();
        let owner = next_owner(s, members, failed)->0;
        crate::base::search::lemma_find_sound(s.replicas, is_member(members));
        crate::base::search::lemma_find_sound(members, did_not_fail(failed));
        let p = may_replicate(members, failed, owner);
        let held = (s.replicas.push(s.owners[0]) + members).filter(p);
        crate::base::search::lemma_filter_contains(s.replicas.push(s.owners[0]) + members, p);
        lemma_without_repeats(held);
        let all = without_repeats(held);
        let r = next_replicas(s, members, failed, owner);
        assert forall|k: int| 0 <= k < r.len() implies members.contains(#[trigger] r[k]) && r[k]
            != owner && failed != Some(r[k]) by {
            assert(all[k] == r[k]);
            assert(all.to_set().contains(r[k]));
            assert(held.to_set().contains(r[k]));
            assert(held.contains(r[k]));
            assert(p(r[k]));
        }
    }
}

/// The stages run on distinct workers.
pub open spec fn distinct_stages(stages: Seq<V4PipelineStageAssignmentView>) -> bool {
    forall|i: int, j: int|
        0 <= i < j < stages.len() ==> (#[trigger] stages[i]).worker != (#[trigger] stages[j]).worker
}

proof fn lemma_matched_stages(
    stages: Seq<V4PipelineStageAssignmentView>,
    members: Seq<NodeId>,
    failed: Option<NodeId>,
    kept: Set<NodeId>,
    generation: u64,
)
    requires
        matched_stages(stages, members, failed, kept, generation) is Some,
    ensures
        ({
            let after = matched_stages(stages, members, failed, kept, generation)->0;
            &&& after.len() == stages.len()
            &&& distinct_stages(after)
            &&& forall|i: int|
                0 <= i < after.len() ==> stays(members, failed)((#[trigger] after[i]).worker)
                    && after[i].stage_id == stages[i].stage_id && after[i].generation == generation
                    && (after[i].worker == stages[i].worker || !kept.contains(after[i].worker))
        }),
    decreases stages.len(),
{
    if stages.len() > 0 {
        lemma_matched_stages(stages.drop_last(), members, failed, kept, generation);
        let before = matched_stages(stages.drop_last(), members, failed, kept, generation)->0;
        let after = matched_stages(stages, members, failed, kept, generation)->0;
        let stage = stages.last();
        let p = may_run_stage(members, failed, stage_workers(before), kept, stage.worker);
        crate::base::search::lemma_find_sound(seq![stage.worker] + stage.replicas + members, p);
        assert forall|i: int, j: int| 0 <= i < j < after.len() implies (#[trigger] after[i]).worker
            != (#[trigger] after[j]).worker by {
            if j == before.len() {
                assert(before[i] == after[i]);
                lemma_stage_worker_taken(before, i);
            } else {
                assert(before[i] == after[i] && before[j] == after[j]);
            }
        }
        assert forall|i: int| 0 <= i < after.len() implies stays(members, failed)(
            (#[trigger] after[i]).worker,
        ) && after[i].stage_id == stages[i].stage_id && after[i].generation == generation && (
        after[i].worker == stages[i].worker || !kept.contains(after[i].worker)) by {
            if i < before.len() {
                assert(before[i] == after[i]);
                assert(stages.drop_last()[i] == stages[i]);
            }
        }
    }
}

proof fn lemma_stage_worker_taken(stages: Seq<V4PipelineStageAssignmentView>, i: int)
    requires
        0 <= i < stages.len(),
    ensures
        stage_workers(stages).contains(stages[i].worker),
{
    let f = |s: V4PipelineStageAssignmentView| s.worker;
    assert(stages.map_values(f)[i] == stages[i].worker);
    assert(stages.map_values(f).contains(stages[i].worker));
}

proof fn lemma_matched_stages_keep(
    stages: Seq<V4PipelineStageAssignmentView>,
    members: Seq<NodeId>,
    failed: Option<NodeId>,
    kept: Set<NodeId>,
    generation: u64,
)
    requires
        matched_stages(stages, members, failed, kept, generation) is Some,
        distinct_stages(stages),
        forall|i: int|
            0 <= i < stages.len() && stays(members, failed)((#[trigger] stages[i]).worker)
                ==> kept.contains(stages[i].worker),
    ensures
        ({
            let after = matched_stages(stages, members, failed, kept, generation)->0;
            forall|i: int|
                0 <= i < stages.len() && stays(members, failed)((#[trigger] stages[i]).worker)
                    ==> after[i].worker == stages[i].worker
        }),
    decreases stages.len(),
{
    if stages.len() > 0 {
        let earlier = stages.drop_last();
        assert forall|i: int|
            0 <= i < earlier.len() && stays(members, failed)(
                (#[trigger] earlier[i]).worker,
            ) implies kept.contains(earlier[i].worker) by {
            assert(earlier[i] == stages[i]);
        }
        assert forall|i: int, j: int| 0 <= i < j < earlier.len() implies (
        #[trigger] earlier[i]).worker != (#[trigger] earlier[j]).worker by {
            assert(earlier[i] == stages[i] && earlier[j] == stages[j]);
        }
        lemma_matched_stages_keep(earlier, members, failed, kept, generation);
        lemma_matched_stages(earlier, members, failed, kept, generation);
        let before = matched_stages(earlier, members, failed, kept, generation)->0;
        let after = matched_stages(stages, members, failed, kept, generation)->0;
        let stage = stages.last();
        let last = stages.len() - 1;
        let all = seq![stage.worker] + stage.replicas + members;
        let p = may_run_stage(members, failed, stage_workers(before), kept, stage.worker);
        assert forall|i: int|
            0 <= i < stages.len() && stays(members, failed)(
                (#[trigger] stages[i]).worker,
            ) implies after[i].worker == stages[i].worker by {
            if i < last {
                assert(earlier[i] == stages[i]);
                assert(after[i] == before[i]);
            } else {
                let taken = stage_workers(before);
                if taken.contains(stage.worker) {
                    let f = |s: V4PipelineStageAssignmentView| s.worker;
                    let k = choose|k: int|
                        0 <= k < before.map_values(f).len() && before.map_values(f)[k]
                            == stage.worker;
                    assert(before[k].worker == stage.worker);
                    assert(earlier[k] == stages[k]);
                    assert(stages[k].worker != stages[last].worker);
                }
                assert(p(all[0]));
                lemma_find_at(all, p, 0);
            }
        }
    }
}

/// The stages run on distinct members that did not fail. Where the stages had
/// distinct workers, every stage whose worker stays keeps it.
pub proof fn law_reconfigured_stages_distinct(
    stages: Seq<V4PipelineStageAssignmentView>,
    members: Seq<NodeId>,
    failed: Option<NodeId>,
    generation: u64,
)
    requires
        next_stages(stages, members, failed, generation) is Some,
    ensures
        ({
            let after = next_stages(stages, members, failed, generation)->0;
            &&& after.len() == stages.len()
            &&& distinct_stages(after)
            &&& forall|i: int|
                0 <= i < after.len() ==> members.contains((#[trigger] after[i]).worker) && failed
                    != Some(after[i].worker) && after[i].stage_id == stages[i].stage_id
                    && after[i].generation == generation
            &&& distinct_stages(stages) ==> forall|i: int|
                0 <= i < stages.len() && members.contains((#[trigger] stages[i]).worker) && failed
                    != Some(stages[i].worker) ==> after[i].worker == stages[i].worker
        }),
{
    let kept = staying_workers(stages, members, failed);
    lemma_matched_stages(stages, members, failed, kept, generation);
    let after = next_stages(stages, members, failed, generation)->0;
    assert forall|i: int| 0 <= i < after.len() implies members.contains((#[trigger] after[i]).worker)
        && failed != Some(after[i].worker) && after[i].stage_id == stages[i].stage_id
        && after[i].generation == generation by {
        assert(stays(members, failed)(after[i].worker));
    }
    if distinct_stages(stages) {
        assert forall|i: int|
            0 <= i < stages.len() && stays(members, failed)(
                (#[trigger] stages[i]).worker,
            ) implies kept.contains(stages[i].worker) by {
            lemma_stage_worker_taken(stages, i);
        }
        lemma_matched_stages_keep(stages, members, failed, kept, generation);
        assert forall|i: int|
            0 <= i < stages.len() && members.contains((#[trigger] stages[i]).worker) && failed
                != Some(stages[i].worker) implies after[i].worker == stages[i].worker by {
            assert(stays(members, failed)(stages[i].worker));
        }
    }
}

/// In a reconfigured graph the stages run on distinct members, the failed one is
/// none of them, and, where the old stages had distinct workers, every stage whose
/// worker is still a member keeps it.
pub proof fn law_live_stage_workers_are_kept(
    node: NodeId,
    graph: V4ExecutionGraphView,
    plan: V4TrainingPlanView,
    state: V4IntegratedStateRecord,
    failed: Option<NodeId>,
    joined: Option<NodeId>,
    shown: Option<V4WorkerCapabilityView>,
    branch: ArtifactId,
    certificate: Seq<NodeId>,
    split_hashes: Seq<ArtifactId>,
    options: Seq<BackendOptionView>,
)
    requires
        reconfigured(
            node,
            graph,
            plan,
            state,
            failed,
            joined,
            shown,
            branch,
            certificate,
            split_hashes,
            options,
        ) is Ok,
    ensures
        ({
            let g = reconfigured(
                node,
                graph,
                plan,
                state,
                failed,
                joined,
                shown,
                branch,
                certificate,
                split_hashes,
                options,
            )->Ok_0.0;
            &&& g.pipeline_stages.len() == graph.pipeline_stages.len()
            &&& distinct_stages(g.pipeline_stages)
            &&& forall|i: int|
                0 <= i < g.pipeline_stages.len() ==> g.workers.contains(
                    (#[trigger] g.pipeline_stages[i]).worker,
                ) && failed != Some(g.pipeline_stages[i].worker)
            &&& distinct_stages(graph.pipeline_stages) ==> forall|i: int|
                0 <= i < graph.pipeline_stages.len() && g.workers.contains(
                    (#[trigger] graph.pipeline_stages[i]).worker,
                ) && failed != Some(graph.pipeline_stages[i].worker)
                    ==> g.pipeline_stages[i].worker == graph.pipeline_stages[i].worker
        }),
{
    law_reconfigured_stages_distinct(
        graph.pipeline_stages,
        next_members(graph.workers, failed, joined),
        failed,
        sat_u64(graph.graph_generation + 1) as u64,
    );
}

/// A reconfigured graph is the next generation of the old one, in a later term,
/// never behind the newest checkpoint, led by the node that made it; after a
/// failure more than half of the old workers are left.
pub proof fn law_reconfigured_graph_advances(
    node: NodeId,
    graph: V4ExecutionGraphView,
    plan: V4TrainingPlanView,
    state: V4IntegratedStateRecord,
    failed: Option<NodeId>,
    joined: Option<NodeId>,
    shown: Option<V4WorkerCapabilityView>,
    branch: ArtifactId,
    certificate: Seq<NodeId>,
    split_hashes: Seq<ArtifactId>,
    options: Seq<BackendOptionView>,
)
    requires
        reconfigured(
            node,
            graph,
            plan,
            state,
            failed,
            joined,
            shown,
            branch,
            certificate,
            split_hashes,
            options,
        ) is Ok,
        graph.graph_generation < u64::MAX,
        plan.coordination_term < u64::MAX,
        graph.coordination_term == plan.coordination_term,
    ensures
        ({
            let (g, p) = reconfigured(
                node,
                graph,
                plan,
                state,
                failed,
                joined,
                shown,
                branch,
                certificate,
                split_hashes,
                options,
            )->Ok_0;
            &&& g.graph_generation == graph.graph_generation + 1
            &&& g.parent_graph_generation == Some(graph.graph_generation)
            &&& g.coordination_term == graph.coordination_term + 1
            &&& g.coordination_term == p.coordination_term
            &&& g.checkpoint_generation >= graph.checkpoint_generation
            &&& g.checkpoint_generation >= state.checkpoint_generation
            &&& g.coordinator == node
            &&& g.proposer == node
            &&& p.proposer == node
            &&& p.parent_plan_hash == Some(plan.plan_hash)
            &&& g.job_id == graph.job_id
            &&& g.workers == p.workers
            &&& g.workers.len() >= 2
            &&& (failed is Some ==> g.workers.len() * 2 > graph.workers.len())
        }),
{
}

/// The members after a change are the old ones without the failed one and with the
/// joined one, in byte order, each once.
pub proof fn law_members_change_by_one(
    workers: Seq<NodeId>,
    failed: Option<NodeId>,
    joined: Option<NodeId>,
    node: NodeId,
)
    ensures
        ({
            let m = next_members(workers, failed, joined);
            &&& crate::base::members::strictly_sorted(m)
            &&& m.contains(node) <==> joined == Some(node) || (workers.contains(node) && failed
                != Some(node))
        }),
{
    let left = match failed {
        Some(f) => workers.to_set().remove(f),
        None => workers.to_set(),
    };
    let all = match joined {
        Some(j) => left.insert(j),
        None => left,
    };
    crate::base::members::lemma_ascending_exists(all);
    let m = next_members(workers, failed, joined);
    assert(m.contains(node) <==> m.to_set().contains(node));
    assert(workers.contains(node) <==> workers.to_set().contains(node));
}

/// An owner that stays keeps its shard; otherwise a replica that is a member gets it, and
/// only without one another member.
pub proof fn law_owners_change_only_when_lost(
    s: V4ShardOwnershipView,
    members: Seq<NodeId>,
    failed: Option<NodeId>,
    i: int,
)
    requires
        s.owners.len() > 0,
    ensures
        members.contains(s.owners[0]) && failed != Some(s.owners[0]) ==> next_owner(
            s,
            members,
            failed,
        ) == Some(s.owners[0]),
        !(members.contains(s.owners[0]) && failed != Some(s.owners[0])) && 0 <= i < s.replicas.len()
            && members.contains(s.replicas[i]) && (forall|j: int|
            0 <= j < i ==> !members.contains(#[trigger] s.replicas[j])) ==> next_owner(
            s,
            members,
            failed,
        ) == Some(s.replicas[i]),
        next_owner(s, members, failed) matches Some(o) ==> members.contains(o),
{
    if 0 <= i < s.replicas.len() && forall|j: int|
        0 <= j < i ==> !members.contains(#[trigger] s.replicas[j]) {
        lemma_find_at(s.replicas, is_member(members), i);
    }
    crate::base::search::lemma_find_sound(s.replicas, is_member(members));
    crate::base::search::lemma_find_sound(members, did_not_fail(failed));
}

/// A shard after a change has its owner alone, at most two replicas, live members other
/// than the owner, and the next ownership generation; its content stays.
pub proof fn law_shard_after_a_change(
    s: V4ShardOwnershipView,
    members: Seq<NodeId>,
    failed: Option<NodeId>,
    owner: NodeId,
    replica: NodeId,
)
    requires
        s.owners.len() > 0,
        s.ownership_generation < u64::MAX,
    ensures
        ({
            let n = next_shard(s, members, failed, owner);
            &&& n.owners.len() == 1 && n.owners[0] == owner
            &&& n.shard_id == s.shard_id && n.content_hash == s.content_hash
            &&& n.model_generation == s.model_generation && n.state_bytes == s.state_bytes
            &&& n.memory_bytes == s.memory_bytes && n.runtime_requirement == s.runtime_requirement
            &&& n.ownership_generation == s.ownership_generation + 1
            &&& n.lifecycle is Active
            &&& n.replicas.len() <= 2
            &&& n.replicas.contains(replica) ==> replica != owner && members.contains(replica)
                && failed != Some(replica)
            &&& members.contains(replica) && replica != owner && failed != Some(replica)
                ==> n.replicas.len() >= 1
        }),
{
    let pool = s.replicas.push(s.owners[0]) + members;
    let p = may_replicate(members, failed, owner);
    let able = pool.filter(p);
    let all = without_repeats(able);
    crate::base::search::lemma_filter_contains(pool, p);
    crate::base::members::lemma_without_repeats(able);
    let n = next_replicas(s, members, failed, owner);
    if n.contains(replica) {
        let k = n.index_of(replica);
        assert(all[k] == replica);
        assert(all.to_set().contains(replica));
        assert(able.to_set().contains(replica));
    }
    if members.contains(replica) && p(replica) {
        let k = members.index_of(replica);
        assert(pool[s.replicas.len() + 1 + k] == replica);
        assert(able.contains(replica));
        assert(able.len() > 0);
    }
}

/// A stage after a change keeps its number, runs on the worker chosen, has at most two
/// replicas among the other live members, and the generation of the change.
pub proof fn law_stage_after_a_change(
    stage: V4PipelineStageAssignmentView,
    members: Seq<NodeId>,
    failed: Option<NodeId>,
    worker: NodeId,
    generation: u64,
    replica: NodeId,
)
    ensures
        ({
            let n = next_stage(stage, members, failed, worker, generation);
            &&& n.stage_id == stage.stage_id && n.worker == worker && n.generation == generation
            &&& n.replicas.len() <= 2
            &&& n.replicas.contains(replica) ==> replica != worker && failed != Some(replica)
                && members.contains(replica)
            &&& members.contains(replica) && replica != worker && failed != Some(replica)
                ==> n.replicas.len() >= 1
        }),
{
    let others = members.filter(may_back_stage(worker, failed));
    crate::base::search::lemma_filter_contains(members, may_back_stage(worker, failed));
    let n = next_stage(stage, members, failed, worker, generation);
    if n.replicas.contains(replica) {
        let k = n.replicas.index_of(replica);
        assert(others[k] == replica);
        assert(others.contains(replica));
    }
    if members.contains(replica) && may_back_stage(worker, failed)(replica) {
        assert(others.contains(replica));
        assert(others.len() > 0);
    }
}

/// The capabilities after a change are those of the members, and the shown one of a
/// newcomer that was not known; without it there are none.
pub proof fn law_newcomers_show_a_capability(
    caps: Seq<V4WorkerCapabilityView>,
    members: Seq<NodeId>,
    joined: Option<NodeId>,
    shown: Option<V4WorkerCapabilityView>,
    cap: V4WorkerCapabilityView,
)
    ensures
        ({
            let n = next_capabilities(caps, members, joined, shown);
            &&& n matches Some(list) ==> (list.contains(cap) ==> (caps.contains(cap)
                && members.contains(cap.node)) || shown == Some(cap))
            &&& n matches Some(list) ==> (caps.contains(cap) && members.contains(cap.node)
                ==> list.contains(cap))
            &&& joined is None ==> n is Some
            &&& n is None ==> shown is None && joined is Some
        }),
{
    let kept = caps.filter(kept_capability(members));
    crate::base::search::lemma_filter_contains(caps, kept_capability(members));
    if let Some(list) = next_capabilities(caps, members, joined, shown) {
        if list != kept {
            let c = shown->0;
            assert(list == kept.push(c));
            if list.contains(cap) && cap != c {
                let k = list.index_of(cap);
                assert(kept[k] == cap);
            }
            if kept.contains(cap) {
                let k = kept.index_of(cap);
                assert(list[k] == cap);
            }
        }
    }
}

/// Shards are split only for a newcomer to a job that has trained nothing yet, holds its
/// two first shards, and then has at least four members.
pub proof fn law_shards_split_at_the_start(
    graph: V4ExecutionGraphView,
    window: u64,
    failed: Option<NodeId>,
    joined: Option<NodeId>,
    members: int,
)
    ensures
        splits_shards(graph, window, failed, joined, members) <==> joined is Some && failed is None
            && window == 0 && graph.checkpoint_generation <= 1 && graph.shards.len() == 2
            && members >= 4,
{
}

/// The plan after a change follows the one before: the next of each generation, the old
/// plan as its parent, proposed by this node for the new members; its assignments name
/// their own requirements.
pub proof fn law_plan_after_a_change(
    node: NodeId,
    plan: V4TrainingPlanView,
    branch: ArtifactId,
    members: Seq<NodeId>,
    capabilities: Seq<V4WorkerCapabilityView>,
    shards: Seq<V4ShardOwnershipView>,
    assignments: Seq<BackendAssignmentView>,
    i: int,
)
    requires
        plan.plan_generation < u64::MAX,
        plan.training_epoch < u64::MAX,
        plan.membership_epoch < u64::MAX,
        plan.coordination_term < u64::MAX,
    ensures
        ({
            let unbound = reconfigured_plan(node, plan, branch, members, capabilities, shards);
            let p = bound_plan(unbound, assignments);
            &&& p.proposer == node
            &&& p.plan_generation == plan.plan_generation + 1
            &&& p.training_epoch == plan.training_epoch + 1
            &&& p.membership_epoch == plan.membership_epoch + 1
            &&& p.coordination_term == plan.coordination_term + 1
            &&& p.parent_plan_hash == Some(plan.plan_hash)
            &&& p.workers == members && p.worker_capabilities == capabilities
            &&& p.shards == shards && p.branch == branch
            &&& p.job_id == plan.job_id && p.strategy == plan.strategy
            &&& p.groups == groups_of(members, node)
            &&& p.backend_assignments == assignments
            &&& p.compute_requirements.len() == assignments.len()
            &&& 0 <= i < assignments.len() ==> p.compute_requirements[i]
                == assignments[i].requirements
        }),
{
}

/// Who failed is retired, once, and who joined is not.
pub proof fn law_failed_members_retire(
    retired: Seq<NodeId>,
    failed: Option<NodeId>,
    joined: Option<NodeId>,
    node: NodeId,
)
    ensures
        next_retired(retired, failed, joined).contains(node) <==> joined != Some(node) && (
        retired.contains(node) || failed == Some(node)),
{
    let with_failed = match failed {
        Some(f) => push_new(retired, f),
        None => retired,
    };
    if let Some(f) = failed {
        if !retired.contains(f) {
            assert(with_failed == retired.push(f));
            assert(with_failed[retired.len() as int] == f);
            if retired.contains(node) {
                let k = retired.index_of(node);
                assert(with_failed[k] == node);
            }
            if with_failed.contains(node) && node != f {
                let k = with_failed.index_of(node);
                assert(retired[k] == node);
            }
        }
    }
    if let Some(j) = joined {
        crate::base::search::lemma_filter_contains(with_failed, other_than(j));
    }
}

/// The graph after a change is the child of the one before, led by this node, with the
/// shards, workers and groups of the new plan and the next of each generation; a
/// checkpoint that was taken is not forgotten.
pub proof fn law_graph_after_a_change(
    node: NodeId,
    graph: V4ExecutionGraphView,
    plan: V4TrainingPlanView,
    checkpoint: u64,
    failed: Option<NodeId>,
    joined: Option<NodeId>,
    stages: Seq<V4PipelineStageAssignmentView>,
    certificate: Seq<NodeId>,
    i: int,
)
    requires
        graph.graph_generation < u64::MAX,
        graph.optimizer_generation < u64::MAX,
        graph.collective_generation < u64::MAX,
    ensures
        ({
            let g = reconfigured_graph(
                node,
                graph,
                plan,
                checkpoint,
                failed,
                joined,
                stages,
                certificate,
            );
            &&& g.job_id == graph.job_id && g.reply_to == graph.reply_to
            &&& g.graph_generation == graph.graph_generation + 1
            &&& g.parent_graph_generation == Some(graph.graph_generation)
            &&& g.proposer == node && g.coordinator == node
            &&& g.branch == plan.branch
            &&& g.training_epoch == plan.training_epoch
            &&& g.membership_epoch == plan.membership_epoch
            &&& g.coordination_term == plan.coordination_term
            &&& g.optimizer_generation == graph.optimizer_generation + 1
            &&& g.collective_generation == graph.collective_generation + 1
            &&& g.checkpoint_generation >= graph.checkpoint_generation
            &&& g.checkpoint_generation >= checkpoint
            &&& g.checkpoint_generation == graph.checkpoint_generation || g.checkpoint_generation
                == checkpoint
            &&& g.workers == plan.workers && g.shards == plan.shards
            &&& g.pipeline_stages == stages && g.aggregation_groups == plan.groups
            &&& g.backend_assignments == plan.backend_assignments
            &&& g.election_certificate == certificate
            &&& g.strategy == graph.strategy && g.local_steps == graph.local_steps
            &&& g.max_staleness == graph.max_staleness
            &&& g.checkpoint_replication == graph.checkpoint_replication
            &&& g.tensor_groups.len() == 1 && g.tensor_groups[0].generation == g.graph_generation
            &&& g.tensor_groups[0].shard_ids.len() == plan.shards.len()
            &&& g.optimizer_shards.len() == plan.shards.len()
            &&& 0 <= i < plan.shards.len() ==> g.tensor_groups[0].shard_ids[i]
                == plan.shards[i].shard_id && g.optimizer_shards[i].shard_id
                == plan.shards[i].shard_id && g.optimizer_shards[i].owner
                == plan.shards[i].owners[0] && g.optimizer_shards[i].replicas
                == plan.shards[i].replicas && g.optimizer_shards[i].generation
                == g.optimizer_generation
        }),
{
}

/// Every shard of the next plan comes from one of the plan before, in order, with an owner
/// that is a member; where shards are split, each gives two.
pub proof fn law_next_shards_follow_the_old(
    shards: Seq<V4ShardOwnershipView>,
    members: Seq<NodeId>,
    failed: Option<NodeId>,
    i: int,
)
    requires
        next_shards(shards, members, failed) is Some,
        0 <= i < shards.len(),
    ensures
        ({
            let n = next_shards(shards, members, failed)->0;
            &&& n.len() == shards.len()
            &&& n[i].shard_id == shards[i].shard_id
            &&& n[i].content_hash == shards[i].content_hash
            &&& n[i].model_generation == shards[i].model_generation
            &&& n[i].owners.len() == 1
            &&& next_owner(shards[i], members, failed) == Some(n[i].owners[0])
        }),
    decreases shards.len(),
{
    let rest = shards.drop_last();
    lemma_next_shards_len(rest, members, failed);
    if i < shards.len() - 1 {
        law_next_shards_follow_the_old(rest, members, failed, i);
    }
}

proof fn lemma_next_shards_len(
    shards: Seq<V4ShardOwnershipView>,
    members: Seq<NodeId>,
    failed: Option<NodeId>,
)
    ensures
        next_shards(shards, members, failed) matches Some(n) ==> n.len() == shards.len(),
    decreases shards.len(),
{
    if shards.len() > 0 {
        lemma_next_shards_len(shards.drop_last(), members, failed);
    }
}

/// Split shards give their two halves in order.
pub proof fn law_split_shards_give_halves(
    sources: Seq<V4ShardOwnershipView>,
    workers: Seq<NodeId>,
    hashes: Seq<ArtifactId>,
)
    ensures
        ({
            let parts = split_parts(sources, workers, hashes, 2);
            &&& parts.len() == 4
            &&& parts[0] == crate::frontier::integrated::split_part(sources[0], workers, hashes, 0)
            &&& parts[1] == crate::frontier::integrated::split_part(sources[0], workers, hashes, 1)
            &&& parts[2] == crate::frontier::integrated::split_part(sources[1], workers, hashes, 0)
            &&& parts[3] == crate::frontier::integrated::split_part(sources[1], workers, hashes, 1)
        }),
{
    reveal_with_fuel(split_parts, 3);
}

/// A reconfiguration keeps a majority: two members at least, and more than half of the old
/// ones where one failed. What comes of it is a plan and a graph for the new members, on a
/// new branch exactly where one failed, with the retired ones noted.
pub proof fn law_reconfiguration_keeps_a_majority(
    node: NodeId,
    graph: V4ExecutionGraphView,
    plan: V4TrainingPlanView,
    state: V4IntegratedStateRecord,
    failed: Option<NodeId>,
    joined: Option<NodeId>,
    shown: Option<V4WorkerCapabilityView>,
    branch: ArtifactId,
    certificate: Seq<NodeId>,
    split_hashes: Seq<ArtifactId>,
    options: Seq<BackendOptionView>,
)
    ensures
        ({
            let members = next_members(graph.workers, failed, joined);
            let r = reconfigured(
                node,
                graph,
                plan,
                state,
                failed,
                joined,
                shown,
                branch,
                certificate,
                split_hashes,
                options,
            );
            &&& members.len() < 2 ==> r is Err
            &&& failed is Some && 2 * members.len() <= graph.workers.len() ==> r is Err
            &&& r matches Ok((g, p)) ==> {
                &&& p.workers == members && g.workers == members
                &&& p.proposer == node && g.coordinator == node
                &&& failed is Some ==> p.branch == branch && g.branch == branch
                &&& failed is None ==> p.branch == plan.branch && g.branch == plan.branch
                &&& g.election_certificate == certificate
                &&& g.retired_workers == next_retired(graph.retired_workers, failed, joined)
                &&& g.checkpoint_generation >= state.checkpoint_generation
                &&& g.shards == p.shards
                &&& g.tensor_groups.len() == 1
                &&& g.tensor_groups[0].members.len() == 2
                &&& g.tensor_groups[0].members[0] == members[0]
                &&& g.tensor_groups[0].members[1] == members[1]
            }
        }),
{
}

} // verus!
