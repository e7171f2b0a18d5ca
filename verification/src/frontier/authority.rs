//! Who may ask for an operation on a job: the proposer of its plan, or a member
//! of its graph.

use crate::base::ids::{ArtifactId, NodeId};
use crate::base::members::{contains_id, same_ids};
use crate::base::search::{find, lemma_find_at, views};
use crate::frontier::types::{
    V4ExecutionGraph, V4ExecutionGraphView, V4ParallelismStrategy, V4PipelineStageAssignment,
    V4PipelineStageAssignmentView, V4ShardOwnershipView, V4TrainingPlan, V4TrainingPlanView,
};
use vstd::prelude::*;

verus! {

/// What a look at a stored record found: its hash computed anew, and whether
/// its fields are in order.
#[derive(Clone, Copy, Debug, PartialEq, Eq, Structural)]
pub struct Inspection {
    pub hash: ArtifactId,
    pub valid: bool,
}

/// Why a plan does not authorize an operation.
#[derive(Clone, Copy, Debug, PartialEq, Eq, Structural)]
pub enum PlanAccessError {
    NoPlan,
    Unauthorized,
}

/// The plan authorizes its proposer to use this worker.
pub open spec fn plan_authorizes(
    plan: V4TrainingPlanView,
    inspection: Inspection,
    node: NodeId,
    peer: NodeId,
    plan_generation: u64,
) -> bool {
    plan.proposer == peer && plan.plan_generation == plan_generation && plan.workers.contains(node)
        && plan.plan_hash == inspection.hash && inspection.valid
}

/// Whether the plan in force authorizes an operation that `peer` asks for.
pub fn authorized_reference_plan(
    node: NodeId,
    peer: NodeId,
    plan_generation: u64,
    plan: Option<&V4TrainingPlan>,
    inspection: Inspection,
) -> (r: Result<(), PlanAccessError>)
    ensures
        match r {
            Ok(()) => plan matches Some(p) && plan_authorizes(
                p@,
                inspection,
                node,
                peer,
                plan_generation,
            ),
            Err(PlanAccessError::NoPlan) => plan is None,
            Err(PlanAccessError::Unauthorized) => plan matches Some(p) && !plan_authorizes(
                p@,
                inspection,
                node,
                peer,
                plan_generation,
            ),
        },
{
    match plan {
        None => Err(PlanAccessError::NoPlan),
        Some(plan) => {
            if plan.proposer != peer || plan.plan_generation != plan_generation || !contains_id(
                &plan.workers,
                node,
            ) || plan.plan_hash != inspection.hash || !inspection.valid {
                Err(PlanAccessError::Unauthorized)
            } else {
                Ok(())
            }
        },
    }
}

/// The graph in force and its plan fit together, and both nodes belong to it.
pub open spec fn graph_authorizes(
    graph: V4ExecutionGraphView,
    graph_inspection: Inspection,
    plan: V4TrainingPlanView,
    plan_inspection: Inspection,
    node: NodeId,
    peer: NodeId,
    plan_generation: u64,
) -> bool {
    &&& graph.graph_generation > 0
    &&& graph.graph_hash == graph_inspection.hash
    &&& graph.plan_hash == plan.plan_hash
    &&& plan.plan_generation == plan_generation
    &&& plan.plan_hash == plan_inspection.hash
    &&& plan_inspection.valid
    &&& graph_inspection.valid
    &&& graph.proposer == graph.coordinator
    &&& plan.proposer == graph.coordinator
    &&& graph.workers.contains(node)
    &&& graph.workers.contains(peer)
    &&& plan.workers == graph.workers
}

/// Whether the operation belongs to an integrated job, and is authorized by the
/// job's graph; without a graph it does not.
pub fn authorized_integrated_pipeline_context(
    node: NodeId,
    peer: NodeId,
    plan_generation: u64,
    graph: Option<&V4ExecutionGraph>,
    graph_inspection: Inspection,
    plan: Option<&V4TrainingPlan>,
    plan_inspection: Inspection,
) -> (r: Result<bool, PlanAccessError>)
    ensures
        match r {
            Ok(integrated) => integrated == graph is Some && (graph matches Some(g) ==> (
            plan matches Some(p) && graph_authorizes(
                g@,
                graph_inspection,
                p@,
                plan_inspection,
                node,
                peer,
                plan_generation,
            ))),
            Err(PlanAccessError::NoPlan) => graph is Some && plan is None,
            Err(PlanAccessError::Unauthorized) => graph matches Some(g) && plan matches Some(p)
                && !graph_authorizes(
                g@,
                graph_inspection,
                p@,
                plan_inspection,
                node,
                peer,
                plan_generation,
            ),
        },
{
    let graph = match graph {
        None => {
            return Ok(false);
        },
        Some(graph) => graph,
    };
    let plan = match plan {
        None => {
            return Err(PlanAccessError::NoPlan);
        },
        Some(plan) => plan,
    };
    if graph.graph_generation > 0 && graph.graph_hash == graph_inspection.hash && graph.plan_hash
        == plan.plan_hash && plan.plan_generation == plan_generation && plan.plan_hash
        == plan_inspection.hash && plan_inspection.valid && graph_inspection.valid
        && graph.proposer == graph.coordinator && plan.proposer == graph.coordinator && contains_id(
        &graph.workers,
        node,
    ) && contains_id(&graph.workers, peer) && same_ids(&plan.workers, &graph.workers) {
        Ok(true)
    } else {
        Err(PlanAccessError::Unauthorized)
    }
}

/// Strategies that split tensors.
pub open spec fn splits_tensors(strategy: V4ParallelismStrategy) -> bool {
    strategy is TensorParallel || strategy is Hybrid
}

pub fn runs_tensors(strategy: V4ParallelismStrategy) -> (r: bool)
    ensures
        r == splits_tensors(strategy),
{
    matches!(strategy, V4ParallelismStrategy::TensorParallel | V4ParallelismStrategy::Hybrid)
}

/// Strategies that run stages.
pub open spec fn has_stages(strategy: V4ParallelismStrategy) -> bool {
    strategy is PipelineParallel || strategy is Hybrid
}

pub fn runs_stages(strategy: V4ParallelismStrategy) -> (r: bool)
    ensures
        r == has_stages(strategy),
{
    matches!(strategy, V4ParallelismStrategy::PipelineParallel | V4ParallelismStrategy::Hybrid)
}

/// Strategies that combine updates.
pub open spec fn combines_updates(strategy: V4ParallelismStrategy) -> bool {
    strategy is LocalSgd || strategy is Hybrid
}

pub fn runs_collectives(strategy: V4ParallelismStrategy) -> (r: bool)
    ensures
        r == combines_updates(strategy),
{
    matches!(strategy, V4ParallelismStrategy::LocalSgd | V4ParallelismStrategy::Hybrid)
}

/// The shard is the one asked for, and `node` owns it.
pub open spec fn owns_shard(
    s: V4ShardOwnershipView,
    shard_id: u16,
    model_generation: u64,
    node: NodeId,
) -> bool {
    s.shard_id == shard_id && s.model_generation == model_generation && s.owners.contains(node)
}

/// The plan lets `node` work on the tensor shard.
pub open spec fn tensor_work_authorized(
    plan: V4TrainingPlanView,
    shard_id: u16,
    model_generation: u64,
    node: NodeId,
) -> bool {
    &&& splits_tensors(plan.strategy)
    &&& plan.tensor_degree == 2
    &&& plan.model_generation == model_generation
    &&& exists|i: int|
        0 <= i < plan.shards.len() && owns_shard(
            #[trigger] plan.shards[i],
            shard_id,
            model_generation,
            node,
        )
}

pub fn may_work_on_tensor(
    plan: &V4TrainingPlan,
    shard_id: u16,
    model_generation: u64,
    node: NodeId,
) -> (r: bool)
    ensures
        r == tensor_work_authorized(plan@, shard_id, model_generation, node),
{
    if !runs_tensors(plan.strategy) || plan.tensor_degree != 2 || plan.model_generation
        != model_generation {
        return false;
    }
    let ghost s = plan@.shards;
    let mut i: usize = 0;
    while i < plan.shards.len()
        invariant
            0 <= i <= plan.shards@.len(),
            s == views(plan.shards@),
            s == plan@.shards,
            splits_tensors(plan@.strategy),
            plan@.tensor_degree == 2,
            plan@.model_generation == model_generation,
            forall|j: int|
                0 <= j < i ==> !owns_shard(#[trigger] s[j], shard_id, model_generation, node),
        decreases plan.shards@.len() - i,
    {
        assert(s[i as int] == plan.shards@[i as int]@);
        if plan.shards[i].shard_id == shard_id && plan.shards[i].model_generation
            == model_generation && contains_id(&plan.shards[i].owners, node) {
            return true;
        }
        i += 1;
    }
    false
}

/// The stage numbered `stage_id`.
pub open spec fn staged(stage_id: u16) -> spec_fn(V4PipelineStageAssignmentView) -> bool {
    |s: V4PipelineStageAssignmentView| s.stage_id == stage_id
}

/// The first stage numbered `stage_id`.
pub fn find_stage(stages: &Vec<V4PipelineStageAssignment>, stage_id: u16) -> (r: Option<
    &V4PipelineStageAssignment,
>)
    ensures
        match r {
            Some(s) => find(views(stages@), staged(stage_id)) == Some(s@),
            None => find(views(stages@), staged(stage_id)) is None,
        },
{
    let ghost s = views(stages@);
    let mut i: usize = 0;
    while i < stages.len()
        invariant
            0 <= i <= stages@.len(),
            s == views(stages@),
            forall|j: int| 0 <= j < i ==> !staged(stage_id)(#[trigger] s[j]),
        decreases stages@.len() - i,
    {
        assert(s[i as int] == stages@[i as int]@);
        if stages[i].stage_id == stage_id {
            proof {
                lemma_find_at(s, staged(stage_id), i as int);
            }
            return Some(&stages[i]);
        }
        i += 1;
    }
    proof {
        lemma_find_at(s, staged(stage_id), i as int);
    }
    None
}

/// Only the proposer of a plan, or a member of a graph led by the proposer of
/// its plan, is ever authorized, and only on a node that belongs to it.
pub proof fn law_authority_is_bound(
    plan: V4TrainingPlanView,
    plan_inspection: Inspection,
    graph: V4ExecutionGraphView,
    graph_inspection: Inspection,
    node: NodeId,
    peer: NodeId,
    plan_generation: u64,
)
    ensures
        plan_authorizes(plan, plan_inspection, node, peer, plan_generation) ==> peer
            == plan.proposer && plan.workers.contains(node) && plan.plan_generation
            == plan_generation,
        graph_authorizes(
            graph,
            graph_inspection,
            plan,
            plan_inspection,
            node,
            peer,
            plan_generation,
        ) ==> plan.workers.contains(peer) && plan.workers.contains(node) && plan.proposer
            == graph.coordinator && plan.plan_generation == plan_generation,
{
}

/// A plan lets its proposer use a worker of it, at its generation, when it is valid and
/// has the hash of its content. A graph does so among its members.
pub proof fn law_who_may_use_a_worker(
    plan: V4TrainingPlanView,
    seen: Inspection,
    graph: V4ExecutionGraphView,
    graph_seen: Inspection,
    node: NodeId,
    peer: NodeId,
    generation: u64,
)
    ensures
        plan_authorizes(plan, seen, node, peer, generation) <==> peer == plan.proposer
            && plan.workers.contains(node) && generation == plan.plan_generation && seen.valid
            && seen.hash == plan.plan_hash,
        graph_authorizes(graph, graph_seen, plan, seen, node, peer, generation) <==> {
            &&& graph.workers.contains(node) && graph.workers.contains(peer)
            &&& graph.graph_generation >= 1 && generation == plan.plan_generation
            &&& graph_seen.valid && graph_seen.hash == graph.graph_hash
            &&& seen.valid && seen.hash == plan.plan_hash
            &&& plan.plan_hash == graph.plan_hash && plan.workers == graph.workers
            &&& graph.proposer == graph.coordinator && plan.proposer == graph.coordinator
        },
{
}

/// Hybrid plans split tensors, run stages and combine updates; the other strategies do one
/// of the three.
pub proof fn law_what_a_strategy_does(strategy: V4ParallelismStrategy)
    ensures
        splits_tensors(strategy) <==> strategy is TensorParallel || strategy is Hybrid,
        has_stages(strategy) <==> strategy is PipelineParallel || strategy is Hybrid,
        combines_updates(strategy) <==> strategy is LocalSgd || strategy is Hybrid,
{
}

/// A node works on a tensor shard that it owns at this model generation, under a plan of
/// degree two that splits tensors.
pub proof fn law_owners_work_on_their_shard(
    plan: V4TrainingPlanView,
    shard_id: u16,
    model_generation: u64,
    node: NodeId,
    i: int,
)
    ensures
        tensor_work_authorized(plan, shard_id, model_generation, node) ==> plan.tensor_degree == 2
            && plan.model_generation == model_generation && exists|k: int|
            0 <= k < plan.shards.len() && (#[trigger] plan.shards[k]).shard_id == shard_id
                && plan.shards[k].model_generation == model_generation
                && plan.shards[k].owners.contains(node),
        plan.strategy is TensorParallel && plan.tensor_degree == 2 && plan.model_generation
            == model_generation && 0 <= i < plan.shards.len() && plan.shards[i].shard_id == shard_id
            && plan.shards[i].model_generation == model_generation && plan.shards[i].owners.contains(
            node,
        ) ==> tensor_work_authorized(plan, shard_id, model_generation, node),
{
    if tensor_work_authorized(plan, shard_id, model_generation, node) {
        let k = choose|k: int|
            0 <= k < plan.shards.len() && owns_shard(
                #[trigger] plan.shards[k],
                shard_id,
                model_generation,
                node,
            );
        assert(plan.shards[k].shard_id == shard_id);
    }
    if 0 <= i < plan.shards.len() {
        assert(owns_shard(plan.shards[i], shard_id, model_generation, node) <==> (
        plan.shards[i].shard_id == shard_id && plan.shards[i].model_generation == model_generation
            && plan.shards[i].owners.contains(node)));
    }
}

} // verus!
