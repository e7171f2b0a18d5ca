//! What is asked of the planner, and the plans of the short reference operations.

use crate::base::arith::min_int;
use crate::base::ids::{JobId, NodeId};
use crate::base::members::{contains_id, distinct_ids, first_other_than};
use crate::base::record::{duplicate_all, Duplicate};
use crate::base::search::{
    find, lemma_filter_ends, lemma_filter_step, lemma_find_sound, lemma_views_push, other_than,
    views,
};
use crate::frontier::integrated::{BuildError, INTEGRATED_MODEL_BYTES};
use crate::frontier::plan::MAX_PLAN_WORKERS;
use crate::frontier::profiles::{
    links_up_to, topology_links, V4TopologyLink, WorkerProfile, WorkerProfileView,
};
use crate::frontier::types::{
    ComputeRequirements, ComputeRequirementsView, V4ParallelismStrategy, V4PipelineStageAssignment,
    V4PipelineStageAssignmentView, V4TrainingPlan, V4TrainingPlanView,
};
use vstd::prelude::*;

verus! {

/// How the data of a job moves.
#[derive(Clone, Copy, Debug, PartialEq, Eq, Structural)]
pub enum Locality {
    /// The data moves selectively.
    Selective,
    /// The data moves as in the plan in force.
    Kept,
}

impl View for Locality {
    type V = Locality;

    open spec fn view(&self) -> Locality {
        *self
    }
}

impl Duplicate for Locality {
    fn duplicate(&self) -> (r: Locality) {
        *self
    }
}

/// What the planner weighs.
#[derive(Clone, Copy, Debug, PartialEq, Eq, Structural)]
pub struct V4PlannerObjective {
    pub throughput_weight: u32,
    pub bandwidth_weight: u32,
    pub fault_tolerance_weight: u32,
    pub locality_weight: u32,
}

impl View for V4PlannerObjective {
    type V = V4PlannerObjective;

    open spec fn view(&self) -> V4PlannerObjective {
        *self
    }
}

impl Duplicate for V4PlannerObjective {
    fn duplicate(&self) -> (r: V4PlannerObjective) {
        *self
    }
}

/// What is asked of the planner.
#[derive(Debug, PartialEq, Eq)]
pub struct V4PlanRequest {
    pub job_id: JobId,
    pub proposer: NodeId,
    pub model_bytes: u64,
    pub requested_workers: usize,
    pub strategy: V4ParallelismStrategy,
    pub tensor_degree: u16,
    pub pipeline_stages: u16,
    pub local_steps: u16,
    pub max_staleness: u16,
    pub checkpoint_replication: u16,
    pub locality: Locality,
    pub workers: Vec<WorkerProfile>,
    pub links: Vec<V4TopologyLink>,
    pub objective: V4PlannerObjective,
    pub backend_requirements: Vec<ComputeRequirements>,
}

/// The contents of a [`V4PlanRequest`].
#[verifier::ext_equal]
pub struct V4PlanRequestView {
    pub job_id: JobId,
    pub proposer: NodeId,
    pub model_bytes: u64,
    pub requested_workers: usize,
    pub strategy: V4ParallelismStrategy,
    pub tensor_degree: u16,
    pub pipeline_stages: u16,
    pub local_steps: u16,
    pub max_staleness: u16,
    pub checkpoint_replication: u16,
    pub locality: Locality,
    pub workers: Seq<WorkerProfileView>,
    pub links: Seq<V4TopologyLink>,
    pub objective: V4PlannerObjective,
    pub backend_requirements: Seq<ComputeRequirementsView>,
}

impl View for V4PlanRequest {
    type V = V4PlanRequestView;

    open spec fn view(&self) -> V4PlanRequestView {
        V4PlanRequestView {
            job_id: self.job_id,
            proposer: self.proposer,
            model_bytes: self.model_bytes,
            requested_workers: self.requested_workers,
            strategy: self.strategy,
            tensor_degree: self.tensor_degree,
            pipeline_stages: self.pipeline_stages,
            local_steps: self.local_steps,
            max_staleness: self.max_staleness,
            checkpoint_replication: self.checkpoint_replication,
            locality: self.locality,
            workers: views(self.workers@),
            links: self.links@,
            objective: self.objective,
            backend_requirements: views(self.backend_requirements@),
        }
    }
}

impl Duplicate for V4PlanRequest {
    fn duplicate(&self) -> (r: V4PlanRequest) {
        V4PlanRequest {
            job_id: self.job_id,
            proposer: self.proposer,
            model_bytes: self.model_bytes,
            requested_workers: self.requested_workers,
            strategy: self.strategy,
            tensor_degree: self.tensor_degree,
            pipeline_stages: self.pipeline_stages,
            local_steps: self.local_steps,
            max_staleness: self.max_staleness,
            checkpoint_replication: self.checkpoint_replication,
            locality: self.locality,
            workers: duplicate_all(&self.workers),
            links: self.links.clone(),
            objective: self.objective,
            backend_requirements: duplicate_all(&self.backend_requirements),
        }
    }
}

/// The links between all pairs of workers.
pub open spec fn all_links(workers: Seq<WorkerProfileView>) -> Seq<V4TopologyLink> {
    links_up_to(workers, workers.len() as int)
}

/// The weights of a request that an operator makes.
pub open spec fn operator_objective() -> V4PlannerObjective {
    V4PlannerObjective {
        throughput_weight: 2,
        bandwidth_weight: 2,
        fault_tolerance_weight: 3,
        locality_weight: 1,
    }
}

fn make_operator_objective() -> (r: V4PlannerObjective)
    ensures
        r == operator_objective(),
{
    V4PlannerObjective {
        throughput_weight: 2,
        bandwidth_weight: 2,
        fault_tolerance_weight: 3,
        locality_weight: 1,
    }
}

/// The request of an operator for a new plan over all known workers.
pub fn plan(
    job_id: JobId,
    node: NodeId,
    model_bytes: u64,
    requested_workers: u16,
    strategy: V4ParallelismStrategy,
    tensor_degree: u16,
    pipeline_stages: u16,
    workers: Vec<WorkerProfile>,
) -> (r: V4PlanRequest)
    ensures
        r@ == (V4PlanRequestView {
            job_id,
            proposer: node,
            model_bytes,
            requested_workers: requested_workers as usize,
            strategy,
            tensor_degree,
            pipeline_stages,
            local_steps: 2,
            max_staleness: 2,
            checkpoint_replication: 2,
            locality: Locality::Selective,
            workers: views(workers@),
            links: all_links(views(workers@)),
            objective: operator_objective(),
            backend_requirements: Seq::empty(),
        }),
{
    let links = topology_links(&workers);
    let request = V4PlanRequest {
        job_id,
        proposer: node,
        model_bytes,
        requested_workers: requested_workers as usize,
        strategy,
        tensor_degree,
        pipeline_stages,
        local_steps: 2,
        max_staleness: 2,
        checkpoint_replication: 2,
        locality: Locality::Selective,
        workers,
        links,
        objective: make_operator_objective(),
        backend_requirements: Vec::new(),
    };
    assert(request@.backend_requirements =~= Seq::empty());
    request
}

/// The request for a successor of the plan in force: its pace, its replication
/// and its compute requirements stay.
pub fn replan_request(
    previous: &V4TrainingPlan,
    node: NodeId,
    model_bytes: u64,
    requested_workers: u16,
    strategy: V4ParallelismStrategy,
    tensor_degree: u16,
    pipeline_stages: u16,
    workers: Vec<WorkerProfile>,
) -> (r: V4PlanRequest)
    ensures
        r@ == (V4PlanRequestView {
            job_id: previous@.job_id,
            proposer: node,
            model_bytes,
            requested_workers: requested_workers as usize,
            strategy,
            tensor_degree,
            pipeline_stages,
            local_steps: previous@.local_steps,
            max_staleness: previous@.max_staleness,
            checkpoint_replication: previous@.checkpoint_replication,
            locality: Locality::Kept,
            workers: views(workers@),
            links: all_links(views(workers@)),
            objective: operator_objective(),
            backend_requirements: previous@.compute_requirements,
        }),
{
    let links = topology_links(&workers);
    V4PlanRequest {
        job_id: previous.job_id,
        proposer: node,
        model_bytes,
        requested_workers: requested_workers as usize,
        strategy,
        tensor_degree,
        pipeline_stages,
        local_steps: previous.local_steps,
        max_staleness: previous.max_staleness,
        checkpoint_replication: previous.checkpoint_replication,
        locality: Locality::Kept,
        workers,
        links,
        objective: make_operator_objective(),
        backend_requirements: duplicate_all(&previous.compute_requirements),
    }
}

/// The request for an integrated job among the reachable workers. The first of
/// them is to coordinate.
pub fn integrated_request(
    job_id: JobId,
    requested_workers: usize,
    workers: Vec<WorkerProfile>,
) -> (r: Result<V4PlanRequest, BuildError>)
    requires
        requested_workers > 0,
    ensures
        match r {
            Err(e) => workers@.len() < requested_workers && e == BuildError::TooFewPeers(
                workers@.len() as usize,
            ),
            Ok(request) => workers@.len() >= requested_workers && request@ == (V4PlanRequestView {
                job_id,
                proposer: workers@[0].node,
                model_bytes: INTEGRATED_MODEL_BYTES,
                requested_workers,
                strategy: V4ParallelismStrategy::Hybrid,
                tensor_degree: 2,
                pipeline_stages: 2,
                local_steps: 1,
                max_staleness: 2,
                checkpoint_replication: 2,
                locality: Locality::Selective,
                workers: views(workers@),
                links: all_links(views(workers@)),
                objective: (V4PlannerObjective {
                    throughput_weight: 2,
                    bandwidth_weight: 2,
                    fault_tolerance_weight: 4,
                    locality_weight: 1,
                }),
                backend_requirements: Seq::empty(),
            }),
        },
{
    let count: usize = workers.len();
    if count < requested_workers {
        return Err(BuildError::TooFewPeers(count));
    }
    let links = topology_links(&workers);
    let proposer = workers[0].node;
    let request = V4PlanRequest {
        job_id,
        proposer,
        model_bytes: INTEGRATED_MODEL_BYTES,
        requested_workers,
        strategy: V4ParallelismStrategy::Hybrid,
        tensor_degree: 2,
        pipeline_stages: 2,
        local_steps: 1,
        max_staleness: 2,
        checkpoint_replication: 2,
        locality: Locality::Selective,
        workers,
        links,
        objective: V4PlannerObjective {
            throughput_weight: 2,
            bandwidth_weight: 2,
            fault_tolerance_weight: 4,
            locality_weight: 1,
        },
        backend_requirements: Vec::new(),
    };
    assert(request@.backend_requirements =~= Seq::empty());
    Ok(request)
}

/// A stage of a planned pipeline: the stages go to the workers in order, and
/// each is replicated on the first other worker.
pub open spec fn planned_stage(
    plan: V4TrainingPlanView,
    i: int,
) -> V4PipelineStageAssignmentView {
    let worker = plan.workers[i];
    V4PipelineStageAssignmentView {
        stage_id: i as u16,
        worker,
        replicas: match find(plan.workers, other_than(worker)) {
            Some(other) => seq![other],
            None => Seq::empty(),
        },
        generation: plan.plan_generation,
    }
}

/// The stages of a planned pipeline, as many as the plan asks for and its
/// workers allow.
pub open spec fn planned_stages(plan: V4TrainingPlanView) -> Seq<V4PipelineStageAssignmentView> {
    Seq::new(
        min_int(plan.workers.len() as int, plan.pipeline_stages as int) as nat,
        |i: int| planned_stage(plan, i),
    )
}

/// The stages of a planned pipeline, for the binding of their backends.
pub fn pipeline_assignments(plan: &V4TrainingPlan) -> (r: Vec<V4PipelineStageAssignment>)
    ensures
        views(r@) == planned_stages(plan@),
{
    let mut stages: Vec<V4PipelineStageAssignment> = Vec::new();
    let mut i: u16 = 0;
    while i < plan.pipeline_stages && (i as usize) < plan.workers.len()
        invariant
            0 <= i <= plan@.pipeline_stages,
            i <= plan@.workers.len(),
            views(stages@) =~= planned_stages(plan@).take(i as int),
        decreases plan.pipeline_stages - i,
    {
        let worker = plan.workers[i as usize];
        let mut replicas: Vec<NodeId> = Vec::new();
        match first_other_than(&plan.workers, worker) {
            Some(other) => {
                replicas.push(other);
            },
            None => {},
        }
        let stage = V4PipelineStageAssignment {
            stage_id: i,
            worker,
            replicas,
            generation: plan.plan_generation,
        };
        proof {
            assert(stage@ =~= planned_stage(plan@, i as int));
            lemma_views_push(stages@, stage);
            assert(planned_stages(plan@).take(i as int + 1) =~= planned_stages(plan@).take(
                i as int,
            ).push(stage@));
        }
        stages.push(stage);
        i += 1;
    }
    assert(planned_stages(plan@).take(i as int) =~= planned_stages(plan@));
    stages
}

/// No stage of a planned pipeline is replicated on its own worker, and where
/// there is a second worker every stage has a replica.
pub proof fn law_planned_stages_are_replicated(plan: V4TrainingPlanView, i: int)
    requires
        0 <= i < planned_stages(plan).len(),
    ensures
        ({
            let stage = planned_stages(plan)[i];
            &&& plan.workers.contains(stage.worker)
            &&& !stage.replicas.contains(stage.worker)
            &&& (stage.replicas.len() == 1 <==> exists|j: int|
                0 <= j < plan.workers.len() && plan.workers[j] != stage.worker)
        }),
{
    let worker = plan.workers[i];
    lemma_find_sound(plan.workers, other_than(worker));
    let stage = planned_stages(plan)[i];
    match find(plan.workers, other_than(worker)) {
        Some(other) => {
            assert(plan.workers.contains(other));
            assert(other_than(worker)(other));
        },
        None => {
            assert forall|j: int| 0 <= j < plan.workers.len() implies plan.workers[j] == worker by {
                assert(!other_than(worker)(plan.workers[j]));
            }
        },
    }
}

/// Why no reference plan is asked for.
#[derive(Clone, Copy, Debug, PartialEq, Eq, Structural)]
pub enum ReferencePlanError {
    /// There are fewer than two or more than sixteen workers, or this node is
    /// one of them.
    WorkerCount,
    /// A worker is named twice.
    Duplicate,
    /// Not every worker is a known training peer.
    NotAdvertised,
}

/// The workers that take part in a reference operation.
pub open spec fn profile_of(workers: Seq<NodeId>) -> spec_fn(WorkerProfileView) -> bool {
    |p: WorkerProfileView| workers.contains(p.node)
}

fn profiles_of(profiles: &Vec<WorkerProfile>, workers: &Vec<NodeId>) -> (r: Vec<WorkerProfile>)
    ensures
        views(r@) == views(profiles@).filter(profile_of(workers@)),
{
    let mut kept: Vec<WorkerProfile> = Vec::new();
    let mut i: usize = 0;
    let ghost s = views(profiles@);
    let ghost p = profile_of(workers@);
    proof {
        lemma_filter_ends(s, p);
        assert(views(kept@) =~= s.take(0).filter(p));
    }
    while i < profiles.len()
        invariant
            0 <= i <= profiles@.len(),
            s == views(profiles@),
            p == profile_of(workers@),
            views(kept@) == s.take(i as int).filter(p),
        decreases profiles@.len() - i,
    {
        proof {
            lemma_filter_step(s, p, i as int);
        }
        if contains_id(workers, profiles[i].node) {
            let profile = profiles[i].duplicate();
            proof {
                lemma_views_push(kept@, profile);
            }
            kept.push(profile);
        }
        i += 1;
    }
    proof {
        lemma_filter_ends(s, p);
    }
    kept
}

/// The request for the plan of a reference operation.
pub fn prepare_reference_plan(
    job_id: JobId,
    node: NodeId,
    workers: &Vec<NodeId>,
    profiles: &Vec<WorkerProfile>,
    strategy: V4ParallelismStrategy,
    tensor_degree: u16,
    pipeline_stages: u16,
) -> (r: Result<V4PlanRequest, ReferencePlanError>)
    ensures
        ({
            let known = views(profiles@).filter(profile_of(workers@));
            match r {
                Err(ReferencePlanError::WorkerCount) => !(2 <= workers@.len() <= MAX_PLAN_WORKERS)
                    || workers@.contains(node),
                Err(ReferencePlanError::Duplicate) => 2 <= workers@.len() <= MAX_PLAN_WORKERS
                    && !workers@.contains(node) && !workers@.no_duplicates(),
                Err(ReferencePlanError::NotAdvertised) => 2 <= workers@.len() <= MAX_PLAN_WORKERS
                    && !workers@.contains(node) && workers@.no_duplicates() && known.len()
                    != workers@.len(),
                Ok(request) => {
                    &&& 2 <= workers@.len() <= MAX_PLAN_WORKERS
                    &&& !workers@.contains(node)
                    &&& workers@.no_duplicates()
                    &&& known.len() == workers@.len()
                    &&& request@ == (V4PlanRequestView {
                        job_id,
                        proposer: node,
                        model_bytes: 2048,
                        requested_workers: workers@.len() as usize,
                        strategy,
                        tensor_degree,
                        pipeline_stages,
                        local_steps: 1,
                        max_staleness: 1,
                        checkpoint_replication: 2,
                        locality: Locality::Selective,
                        workers: known,
                        links: all_links(known),
                        objective: (V4PlannerObjective {
                            throughput_weight: 1,
                            bandwidth_weight: 1,
                            fault_tolerance_weight: 2,
                            locality_weight: 1,
                        }),
                        backend_requirements: Seq::empty(),
                    })
                },
            }
        }),
{
    let count: usize = workers.len();
    if count < 2 || count > MAX_PLAN_WORKERS || contains_id(workers, node) {
        return Err(ReferencePlanError::WorkerCount);
    }
    if !distinct_ids(workers) {
        return Err(ReferencePlanError::Duplicate);
    }
    let known = profiles_of(profiles, workers);
    assert(views(known@).len() == known@.len());
    if known.len() != count {
        return Err(ReferencePlanError::NotAdvertised);
    }
    let links = topology_links(&known);
    let request = V4PlanRequest {
        job_id,
        proposer: node,
        model_bytes: 2048,
        requested_workers: count,
        strategy,
        tensor_degree,
        pipeline_stages,
        local_steps: 1,
        max_staleness: 1,
        checkpoint_replication: 2,
        locality: Locality::Selective,
        workers: known,
        links,
        objective: V4PlannerObjective {
            throughput_weight: 1,
            bandwidth_weight: 1,
            fault_tolerance_weight: 2,
            locality_weight: 1,
        },
        backend_requirements: Vec::new(),
    };
    assert(request@.backend_requirements =~= Seq::empty());
    Ok(request)
}

/// A stage of a planned pipeline runs on the worker at its own position, is as new as
/// the plan, and there are as many stages as the plan asks for, or as it has workers.
pub proof fn law_stages_go_to_workers_in_order(plan: V4TrainingPlanView, i: int)
    ensures
        planned_stages(plan).len() <= plan.pipeline_stages,
        planned_stages(plan).len() <= plan.workers.len(),
        planned_stages(plan).len() == plan.pipeline_stages || planned_stages(plan).len()
            == plan.workers.len(),
        0 <= i < planned_stages(plan).len() ==> {
            &&& planned_stages(plan)[i].stage_id == i
            &&& planned_stages(plan)[i].worker == plan.workers[i]
            &&& planned_stages(plan)[i].generation == plan.plan_generation
        },
{
}

/// An operator's request weighs fault tolerance most, locality least, and throughput as
/// much as bandwidth.
pub proof fn law_operator_weights()
    ensures
        operator_objective().fault_tolerance_weight == 3,
        operator_objective().throughput_weight == 2,
        operator_objective().bandwidth_weight == 2,
        operator_objective().locality_weight == 1,
{
}

/// A request links every pair of its workers once, and nobody else.
pub proof fn law_requests_link_all_workers(workers: Seq<WorkerProfileView>, i: int, j: int)
    ensures
        0 <= i < j < workers.len() ==> all_links(workers).contains(
            crate::frontier::profiles::link_between(workers[i], workers[j]),
        ),
        2 * all_links(workers).len() == workers.len() * (workers.len() - 1),
{
    let n = workers.len() as int;
    crate::frontier::profiles::law_every_pair_is_linked(workers, n, i, j);
    crate::frontier::profiles::law_links_count_pairs(workers, n);
    assert(n * (2 * n - n - 1) == n * (n - 1)) by (nonlinear_arith);
}

} // verus!
