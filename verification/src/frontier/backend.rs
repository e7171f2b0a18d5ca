//! Which backend each role of a plan runs on, and in what order backends are
//! tried.

use crate::base::arith::{clamp_int, max_int, max_u64, sat_u64};
use crate::base::ids::NodeId;
use crate::base::record::Duplicate;
use crate::base::search::{find, lemma_find_at, lemma_views_push, views};
use crate::frontier::types::{
    BackendAssignment, BackendAssignmentView, BackendKind, ComputeRequirements,
    ComputeRequirementsView, ComputeTaskKind, V4ParallelismStrategy, V4PipelineStageAssignment,
    V4PipelineStageAssignmentView, V4ShardOwnershipView, V4TrainingPlan, V4TrainingPlanView,
    V4WorkerCapability, V4WorkerCapabilityView,
};
use vstd::prelude::*;

verus! {

/// What is known of running a task on one backend of a worker.
#[derive(Debug, PartialEq, Eq)]
pub struct BackendOption {
    pub worker: NodeId,
    pub task_kind: ComputeTaskKind,
    pub backend: BackendKind,
    /// the plain requirements of the task on this backend
    pub requirements: ComputeRequirements,
    /// whether the advertised backend meets them, with the fallback added
    pub satisfied: bool,
}

/// The contents of a [`BackendOption`].
#[verifier::ext_equal]
pub struct BackendOptionView {
    pub worker: NodeId,
    pub task_kind: ComputeTaskKind,
    pub backend: BackendKind,
    pub requirements: ComputeRequirementsView,
    pub satisfied: bool,
}

impl View for BackendOption {
    type V = BackendOptionView;

    open spec fn view(&self) -> BackendOptionView {
        BackendOptionView {
            worker: self.worker,
            task_kind: self.task_kind,
            backend: self.backend,
            requirements: self.requirements@,
            satisfied: self.satisfied,
        }
    }
}

impl Duplicate for BackendOption {
    fn duplicate(&self) -> (r: BackendOption) {
        BackendOption {
            worker: self.worker,
            task_kind: self.task_kind,
            backend: self.backend,
            requirements: self.requirements.duplicate(),
            satisfied: self.satisfied,
        }
    }
}

/// One try at running a task.
#[derive(Debug, PartialEq, Eq)]
pub struct TaskAttempt {
    pub backend: BackendKind,
    pub requirements: ComputeRequirements,
}

/// The contents of a [`TaskAttempt`].
#[verifier::ext_equal]
pub struct TaskAttemptView {
    pub backend: BackendKind,
    pub requirements: ComputeRequirementsView,
}

impl View for TaskAttempt {
    type V = TaskAttemptView;

    open spec fn view(&self) -> TaskAttemptView {
        TaskAttemptView {
            backend: self.backend,
            requirements: self.requirements@,
        }
    }
}

impl Duplicate for TaskAttempt {
    fn duplicate(&self) -> (r: TaskAttempt) {
        TaskAttempt {
            backend: self.backend,
            requirements: self.requirements.duplicate(),
        }
    }
}

/// A role that needs a backend; a shard without an owner leaves it unfilled.
#[derive(Clone, Copy, Debug, PartialEq, Eq, Structural)]
pub struct RoleRequest {
    pub worker: Option<NodeId>,
    pub task_kind: ComputeTaskKind,
}

/// Why the roles of a plan cannot be bound.
#[derive(Clone, Copy, Debug, PartialEq, Eq, Structural)]
pub enum BindError {
    /// A shard has no owner.
    NoOwner,
    /// The worker has not shown what it can do.
    NoCapability(NodeId),
    /// No backend of the worker meets the requirements.
    Unsatisfied(NodeId, ComputeTaskKind),
}

/// The number of elements that a role is sized for.
pub fn role_elements(task_kind: ComputeTaskKind) -> (r: u64)
    ensures
        r == (match task_kind {
            ComputeTaskKind::TensorForward | ComputeTaskKind::TensorBackward => 16u64,
            _ => 8u64,
        }),
{
    match task_kind {
        ComputeTaskKind::TensorForward | ComputeTaskKind::TensorBackward => 16,
        _ => 8,
    }
}

/// The kernel that runs a task.
pub open spec fn kernel_name(task_kind: ComputeTaskKind) -> Seq<char> {
    match task_kind {
        ComputeTaskKind::TensorForward => "v5.tensor.forward.v1"@,
        ComputeTaskKind::TensorBackward => "v5.tensor.backward.v1"@,
        ComputeTaskKind::PipelineForward => "v5.pipeline.forward.v1"@,
        ComputeTaskKind::PipelineBackward => "v5.pipeline.backward.v1"@,
        ComputeTaskKind::Reference => "v5.training.reference.v1"@,
    }
}

/// The kernel that runs a task.
pub fn kernel_id(task_kind: ComputeTaskKind) -> (r: &'static str)
    ensures
        r@ == kernel_name(task_kind),
{
    match task_kind {
        ComputeTaskKind::TensorForward => "v5.tensor.forward.v1",
        ComputeTaskKind::TensorBackward => "v5.tensor.backward.v1",
        ComputeTaskKind::PipelineForward => "v5.pipeline.forward.v1",
        ComputeTaskKind::PipelineBackward => "v5.pipeline.backward.v1",
        ComputeTaskKind::Reference => "v5.training.reference.v1",
    }
}

/// The worker advertises this kind of backend.
pub open spec fn advertises(c: V4WorkerCapabilityView, kind: BackendKind) -> bool {
    exists|i: int| 0 <= i < c.backends.len() && (#[trigger] c.backends[i]).kind == kind
}

fn has_backend(capability: &V4WorkerCapability, kind: BackendKind) -> (r: bool)
    ensures
        r == advertises(capability@, kind),
{
    let mut i: usize = 0;
    while i < capability.backends.len()
        invariant
            0 <= i <= capability.backends@.len(),
            forall|j: int| 0 <= j < i ==> (#[trigger] capability.backends@[j]).kind != kind,
        decreases capability.backends@.len() - i,
    {
        if capability.backends[i].kind == kind {
            assert(capability@.backends[i as int].kind == kind);
            return true;
        }
        i += 1;
    }
    false
}

/// The requirements of a task on `backend`, falling back to the CPU where the
/// worker has one besides its accelerator.
pub open spec fn with_fallback(
    requirements: ComputeRequirementsView,
    backend: BackendKind,
    c: V4WorkerCapabilityView,
) -> ComputeRequirementsView {
    if backend != BackendKind::Cpu && advertises(c, BackendKind::Cpu) {
        ComputeRequirementsView {
            fallback_backends: requirements.fallback_backends.push(BackendKind::Cpu),
            fallback_allowed: true,
            ..requirements
        }
    } else {
        requirements
    }
}

/// The requirements of a task on `backend`, falling back to the CPU where the
/// worker has one besides its accelerator.
pub fn requirements_with_fallback(
    requirements: &ComputeRequirements,
    backend: BackendKind,
    capability: &V4WorkerCapability,
) -> (r: ComputeRequirements)
    ensures
        r@ == with_fallback(requirements@, backend, capability@),
{
    let mut r = requirements.duplicate();
    if backend != BackendKind::Cpu && has_backend(capability, BackendKind::Cpu) {
        r.fallback_backends.push(BackendKind::Cpu);
        r.fallback_allowed = true;
    }
    r
}

/// The capability record of a worker, the last one counting.
pub open spec fn capability_of(caps: Seq<V4WorkerCapabilityView>, worker: NodeId) -> Option<
    V4WorkerCapabilityView,
>
    decreases caps.len(),
{
    if caps.len() == 0 {
        None
    } else if caps.last().node == worker {
        Some(caps.last())
    } else {
        capability_of(caps.drop_last(), worker)
    }
}

fn find_capability(caps: &Vec<V4WorkerCapability>, worker: NodeId) -> (r: Option<
    &V4WorkerCapability,
>)
    ensures
        match r {
            Some(c) => capability_of(views(caps@), worker) == Some(c@),
            None => capability_of(views(caps@), worker) is None,
        },
{
    let ghost s = views(caps@);
    let mut i: usize = caps.len();
    assert(s.take(i as int) =~= s);
    while i > 0
        invariant
            0 <= i <= caps@.len(),
            s == views(caps@),
            capability_of(s, worker) == capability_of(s.take(i as int), worker),
        decreases i,
    {
        proof {
            assert(s.take(i as int).drop_last() =~= s.take(i as int - 1));
            assert(s.take(i as int).last() == caps@[i as int - 1]@);
        }
        if caps[i - 1].node == worker {
            return Some(&caps[i - 1]);
        }
        i -= 1;
    }
    None
}

/// The options that let a worker run a task on one backend.
pub open spec fn usable(worker: NodeId, task_kind: ComputeTaskKind, backend: BackendKind) -> spec_fn(
    BackendOptionView,
) -> bool {
    |o: BackendOptionView|
        o.worker == worker && o.task_kind == task_kind && o.backend == backend && o.satisfied
}

/// The assignment of a task to `backend`, where the worker advertises it and it
/// meets the requirements.
pub open spec fn try_backend(
    c: V4WorkerCapabilityView,
    options: Seq<BackendOptionView>,
    worker: NodeId,
    task_kind: ComputeTaskKind,
    backend: BackendKind,
) -> Option<BackendAssignmentView> {
    match find(options, usable(worker, task_kind, backend)) {
        Some(o) if advertises(c, backend) => Some(
            BackendAssignmentView {
                task_kind,
                worker,
                backend,
                device_index: 0,
                requirements: with_fallback(o.requirements, backend, c),
            },
        ),
        _ => None,
    }
}

/// The assignment of a task: accelerators come before the CPU.
pub open spec fn select_backend(
    c: V4WorkerCapabilityView,
    options: Seq<BackendOptionView>,
    worker: NodeId,
    task_kind: ComputeTaskKind,
) -> Option<BackendAssignmentView> {
    if try_backend(c, options, worker, task_kind, BackendKind::Cuda) is Some {
        try_backend(c, options, worker, task_kind, BackendKind::Cuda)
    } else if try_backend(c, options, worker, task_kind, BackendKind::Rocm) is Some {
        try_backend(c, options, worker, task_kind, BackendKind::Rocm)
    } else if try_backend(c, options, worker, task_kind, BackendKind::Metal) is Some {
        try_backend(c, options, worker, task_kind, BackendKind::Metal)
    } else {
        try_backend(c, options, worker, task_kind, BackendKind::Cpu)
    }
}

fn attempt_backend(
    capability: &V4WorkerCapability,
    options: &Vec<BackendOption>,
    worker: NodeId,
    task_kind: ComputeTaskKind,
    backend: BackendKind,
) -> (r: Option<BackendAssignment>)
    ensures
        match r {
            Some(a) => try_backend(
                capability@,
                views(options@),
                worker,
                task_kind,
                backend,
            ) == Some(a@),
            None => try_backend(
                capability@,
                views(options@),
                worker,
                task_kind,
                backend,
            ) is None,
        },
{
    if !has_backend(capability, backend) {
        return None;
    }
    let ghost s = views(options@);
    let ghost p = usable(worker, task_kind, backend);
    let mut i: usize = 0;
    while i < options.len()
        invariant
            0 <= i <= options@.len(),
            s == views(options@),
            p == usable(worker, task_kind, backend),
            advertises(capability@, backend),
            forall|j: int| 0 <= j < i ==> !p(#[trigger] s[j]),
        decreases options@.len() - i,
    {
        assert(s[i as int] == options@[i as int]@);
        if options[i].worker == worker && options[i].task_kind == task_kind && options[i].backend
            == backend && options[i].satisfied {
            proof {
                lemma_find_at(s, p, i as int);
            }
            return Some(
                BackendAssignment {
                    task_kind,
                    worker,
                    backend,
                    device_index: 0,
                    requirements: requirements_with_fallback(
                        &options[i].requirements,
                        backend,
                        capability,
                    ),
                },
            );
        }
        i += 1;
    }
    proof {
        lemma_find_at(s, p, i as int);
    }
    None
}

fn choose_backend(
    capability: &V4WorkerCapability,
    options: &Vec<BackendOption>,
    worker: NodeId,
    task_kind: ComputeTaskKind,
) -> (r: Option<BackendAssignment>)
    ensures
        match r {
            Some(a) => select_backend(capability@, views(options@), worker, task_kind) == Some(a@),
            None => select_backend(capability@, views(options@), worker, task_kind) is None,
        },
{
    let cuda = attempt_backend(capability, options, worker, task_kind, BackendKind::Cuda);
    if cuda.is_some() {
        return cuda;
    }
    let rocm = attempt_backend(capability, options, worker, task_kind, BackendKind::Rocm);
    if rocm.is_some() {
        return rocm;
    }
    let metal = attempt_backend(capability, options, worker, task_kind, BackendKind::Metal);
    if metal.is_some() {
        return metal;
    }
    attempt_backend(capability, options, worker, task_kind, BackendKind::Cpu)
}

/// The assignments of one role of one worker.
pub open spec fn of_role(worker: NodeId, task_kind: ComputeTaskKind) -> spec_fn(
    BackendAssignmentView,
) -> bool {
    |a: BackendAssignmentView| a.worker == worker && a.task_kind == task_kind
}

/// The assignments with one more role bound, unless it is bound already.
pub open spec fn bind_role(
    bound: Seq<BackendAssignmentView>,
    role: RoleRequest,
    caps: Seq<V4WorkerCapabilityView>,
    options: Seq<BackendOptionView>,
) -> Result<Seq<BackendAssignmentView>, BindError> {
    match role.worker {
        None => Err(BindError::NoOwner),
        Some(worker) => if find(bound, of_role(worker, role.task_kind)) is Some {
            Ok(bound)
        } else {
            match capability_of(caps, worker) {
                None => Err(BindError::NoCapability(worker)),
                Some(c) => match select_backend(c, options, worker, role.task_kind) {
                    None => Err(BindError::Unsatisfied(worker, role.task_kind)),
                    Some(a) => Ok(bound.push(a)),
                },
            }
        },
    }
}

/// The assignments of all roles, or the first failure.
pub open spec fn bind_roles(
    roles: Seq<RoleRequest>,
    caps: Seq<V4WorkerCapabilityView>,
    options: Seq<BackendOptionView>,
) -> Result<Seq<BackendAssignmentView>, BindError>
    decreases roles.len(),
{
    if roles.len() == 0 {
        Ok(Seq::empty())
    } else {
        match bind_roles(roles.drop_last(), caps, options) {
            Err(e) => Err(e),
            Ok(bound) => bind_role(bound, roles.last(), caps, options),
        }
    }
}

/// The tensor roles of the shards: forward and backward on each first owner.
pub open spec fn tensor_roles(shards: Seq<V4ShardOwnershipView>) -> Seq<RoleRequest>
    decreases shards.len(),
{
    if shards.len() == 0 {
        Seq::empty()
    } else {
        let worker = if shards.last().owners.len() > 0 {
            Some(shards.last().owners[0])
        } else {
            None
        };
        tensor_roles(shards.drop_last()).push(
            RoleRequest { worker, task_kind: ComputeTaskKind::TensorForward },
        ).push(RoleRequest { worker, task_kind: ComputeTaskKind::TensorBackward })
    }
}

/// The pipeline roles of the stages: forward and backward on each worker.
pub open spec fn stage_roles(stages: Seq<V4PipelineStageAssignmentView>) -> Seq<RoleRequest>
    decreases stages.len(),
{
    if stages.len() == 0 {
        Seq::empty()
    } else {
        let worker = Some(stages.last().worker);
        stage_roles(stages.drop_last()).push(
            RoleRequest { worker, task_kind: ComputeTaskKind::PipelineForward },
        ).push(RoleRequest { worker, task_kind: ComputeTaskKind::PipelineBackward })
    }
}

/// All roles of a plan.
pub open spec fn roles_of(
    plan: V4TrainingPlanView,
    stages: Seq<V4PipelineStageAssignmentView>,
) -> Seq<RoleRequest> {
    let tensor = if plan.strategy == V4ParallelismStrategy::TensorParallel || plan.strategy
        == V4ParallelismStrategy::Hybrid {
        tensor_roles(plan.shards)
    } else {
        Seq::empty()
    };
    let pipeline = if plan.strategy == V4ParallelismStrategy::PipelineParallel || plan.strategy
        == V4ParallelismStrategy::Hybrid {
        stage_roles(stages)
    } else {
        Seq::empty()
    };
    tensor + pipeline
}

/// All roles of a plan.
pub fn plan_roles(plan: &V4TrainingPlan, stages: &Vec<V4PipelineStageAssignment>) -> (r: Vec<
    RoleRequest,
>)
    ensures
        r@ == roles_of(plan@, views(stages@)),
{
    let mut roles: Vec<RoleRequest> = Vec::new();
    let tensor = match plan.strategy {
        V4ParallelismStrategy::TensorParallel | V4ParallelismStrategy::Hybrid => true,
        _ => false,
    };
    if tensor {
        let ghost s = plan@.shards;
        let mut i: usize = 0;
        while i < plan.shards.len()
            invariant
                0 <= i <= plan.shards@.len(),
                s == views(plan.shards@),
                roles@ == tensor_roles(s.take(i as int)),
            decreases plan.shards@.len() - i,
        {
            proof {
                assert(s.take(i as int + 1).drop_last() =~= s.take(i as int));
                assert(s.take(i as int + 1).last() == plan.shards@[i as int]@);
            }
            let worker = if plan.shards[i].owners.len() > 0 {
                Some(plan.shards[i].owners[0])
            } else {
                None
            };
            roles.push(RoleRequest { worker, task_kind: ComputeTaskKind::TensorForward });
            roles.push(RoleRequest { worker, task_kind: ComputeTaskKind::TensorBackward });
            i += 1;
        }
        assert(s.take(i as int) =~= s);
    }
    let ghost first = roles@;
    let pipeline = match plan.strategy {
        V4ParallelismStrategy::PipelineParallel | V4ParallelismStrategy::Hybrid => true,
        _ => false,
    };
    if pipeline {
        let ghost s = views(stages@);
        let mut i: usize = 0;
        assert(first + stage_roles(s.take(0)) =~= first);
        while i < stages.len()
            invariant
                0 <= i <= stages@.len(),
                s == views(stages@),
                roles@ == first + stage_roles(s.take(i as int)),
            decreases stages@.len() - i,
        {
            proof {
                assert(s.take(i as int + 1).drop_last() =~= s.take(i as int));
                assert(s.take(i as int + 1).last() == stages@[i as int]@);
            }
            let ghost before = roles@;
            let worker = Some(stages[i].worker);
            roles.push(RoleRequest { worker, task_kind: ComputeTaskKind::PipelineForward });
            roles.push(RoleRequest { worker, task_kind: ComputeTaskKind::PipelineBackward });
            assert(roles@ =~= first + stage_roles(s.take(i as int + 1)));
            i += 1;
        }
        assert(s.take(i as int) =~= s);
    }
    assert(roles@ =~= roles_of(plan@, views(stages@)));
    roles
}

/// The requirements of the assignments, in order.
pub open spec fn requirements_of(assignments: Seq<BackendAssignmentView>) -> Seq<
    ComputeRequirementsView,
> {
    assignments.map_values(|a: BackendAssignmentView| a.requirements)
}

fn find_assignment(
    assignments: &Vec<BackendAssignment>,
    worker: NodeId,
    task_kind: ComputeTaskKind,
) -> (r: Option<&BackendAssignment>)
    ensures
        match r {
            Some(a) => find(views(assignments@), of_role(worker, task_kind)) == Some(a@),
            None => find(views(assignments@), of_role(worker, task_kind)) is None,
        },
{
    let ghost s = views(assignments@);
    let mut i: usize = 0;
    while i < assignments.len()
        invariant
            0 <= i <= assignments@.len(),
            s == views(assignments@),
            forall|j: int| 0 <= j < i ==> !of_role(worker, task_kind)(#[trigger] s[j]),
        decreases assignments@.len() - i,
    {
        assert(s[i as int] == assignments@[i as int]@);
        if assignments[i].worker == worker && assignments[i].task_kind == task_kind {
            proof {
                lemma_find_at(s, of_role(worker, task_kind), i as int);
            }
            return Some(&assignments[i]);
        }
        i += 1;
    }
    proof {
        lemma_find_at(s, of_role(worker, task_kind), i as int);
    }
    None
}

/// Bind every role of a plan to a backend. `options` says which backends of
/// which workers meet the requirements of which tasks.
pub fn bind_backend_assignments(
    plan: &mut V4TrainingPlan,
    pipeline_stages: &Vec<V4PipelineStageAssignment>,
    options: &Vec<BackendOption>,
) -> (r: Result<(), BindError>)
    ensures
        ({
            let p = old(plan)@;
            let bound = bind_roles(
                roles_of(p, views(pipeline_stages@)),
                p.worker_capabilities,
                views(options@),
            );
            match bound {
                Ok(assignments) => r is Ok && final(plan)@ == (V4TrainingPlanView {
                    compute_requirements: requirements_of(assignments),
                    backend_assignments: assignments,
                    ..p
                }),
                Err(e) => r == Err::<(), BindError>(e) && final(plan)@ == p,
            }
        }),
{
    let roles = plan_roles(plan, pipeline_stages);
    let ghost all = roles@;
    let ghost caps = plan@.worker_capabilities;
    let mut assignments: Vec<BackendAssignment> = Vec::new();
    let mut i: usize = 0;
    proof {
        assert(views(assignments@) =~= Seq::<BackendAssignmentView>::empty());
        assert(all.take(roles@.len() as int) =~= all);
    }
    while i < roles.len()
        invariant
            0 <= i <= roles@.len(),
            all == roles@,
            *plan == *old(plan),
            caps == plan@.worker_capabilities,
            all == roles_of(plan@, views(pipeline_stages@)),
            bind_roles(all.take(i as int), caps, views(options@)) == Ok::<
                Seq<BackendAssignmentView>,
                BindError,
            >(views(assignments@)),
        decreases roles@.len() - i,
    {
        let role = roles[i];
        proof {
            assert(all.take(i as int + 1).drop_last() =~= all.take(i as int));
            assert(all.take(i as int + 1).last() == role);
        }
        let failure: Option<BindError> = match role.worker {
            None => Some(BindError::NoOwner),
            Some(worker) => match find_assignment(&assignments, worker, role.task_kind) {
                Some(_) => None,
                None => match find_capability(&plan.worker_capabilities, worker) {
                    None => Some(BindError::NoCapability(worker)),
                    Some(capability) => match choose_backend(
                        capability,
                        options,
                        worker,
                        role.task_kind,
                    ) {
                        None => Some(BindError::Unsatisfied(worker, role.task_kind)),
                        Some(assignment) => {
                            proof {
                                lemma_views_push(assignments@, assignment);
                            }
                            assignments.push(assignment);
                            None
                        },
                    },
                },
            },
        };
        match failure {
            Some(e) => {
                proof {
                    lemma_bind_failure(all, caps, views(options@), i as int + 1, e);
                }
                return Err(e);
            },
            None => {},
        }
        i += 1;
    }
    assert(all.take(i as int) =~= all);
    let mut requirements: Vec<ComputeRequirements> = Vec::new();
    let ghost bound = views(assignments@);
    let mut k: usize = 0;
    assert(views(requirements@) =~= requirements_of(bound).take(0));
    while k < assignments.len()
        invariant
            0 <= k <= assignments@.len(),
            bound == views(assignments@),
            views(requirements@) == requirements_of(bound).take(k as int),
        decreases assignments@.len() - k,
    {
        let copy = assignments[k].requirements.duplicate();
        proof {
            lemma_views_push(requirements@, copy);
            assert(bound[k as int] == assignments@[k as int]@);
            assert(requirements_of(bound).take(k as int + 1) =~= requirements_of(bound).take(
                k as int,
            ).push(copy@));
        }
        requirements.push(copy);
        k += 1;
    }
    assert(requirements_of(bound).take(k as int) =~= requirements_of(bound));
    plan.compute_requirements = requirements;
    plan.backend_assignments = assignments;
    Ok(())
}

proof fn lemma_bind_failure(
    roles: Seq<RoleRequest>,
    caps: Seq<V4WorkerCapabilityView>,
    options: Seq<BackendOptionView>,
    n: int,
    e: BindError,
)
    requires
        0 <= n <= roles.len(),
        bind_roles(roles.take(n), caps, options) == Err::<Seq<BackendAssignmentView>, BindError>(
            e,
        ),
    ensures
        bind_roles(roles, caps, options) == Err::<Seq<BackendAssignmentView>, BindError>(e),
    decreases roles.len() - n,
{
    if n < roles.len() {
        assert(roles.take(n + 1).drop_last() =~= roles.take(n));
        lemma_bind_failure(roles, caps, options, n + 1, e);
    } else {
        assert(roles.take(n) =~= roles);
    }
}

/// A bound plan has exactly one assignment for every role, each on a backend
/// that its worker advertises.
pub proof fn law_every_role_bound(
    roles: Seq<RoleRequest>,
    caps: Seq<V4WorkerCapabilityView>,
    options: Seq<BackendOptionView>,
    bound: Seq<BackendAssignmentView>,
)
    requires
        bind_roles(roles, caps, options) == Ok::<Seq<BackendAssignmentView>, BindError>(bound),
    ensures
        forall|i: int|
            0 <= i < roles.len() ==> (#[trigger] roles[i]).worker is Some && find(
                bound,
                of_role(roles[i].worker->0, roles[i].task_kind),
            ) is Some,
        forall|i: int, j: int|
            0 <= i < j < bound.len() ==> !((#[trigger] bound[i]).worker == (
            #[trigger] bound[j]).worker && bound[i].task_kind == bound[j].task_kind),
        forall|i: int|
            0 <= i < bound.len() ==> {
                let c = capability_of(caps, (#[trigger] bound[i]).worker);
                c is Some && advertises(c->0, bound[i].backend)
            },
    decreases roles.len(),
{
    if roles.len() > 0 {
        let before = bind_roles(roles.drop_last(), caps, options)->Ok_0;
        law_every_role_bound(roles.drop_last(), caps, options, before);
        let role = roles.last();
        let worker = role.worker->0;
        let p = of_role(worker, role.task_kind);
        if find(before, p) is Some {
            assert(bound == before);
        } else {
            let a = bound.last();
            assert(bound == before.push(a));
            assert(bound.drop_last() =~= before);
            assert(p(a));
            crate::base::search::lemma_find_sound(before, p);
            assert forall|i: int, j: int| 0 <= i < j < bound.len() implies !((
            #[trigger] bound[i]).worker == (#[trigger] bound[j]).worker && bound[i].task_kind
                == bound[j].task_kind) by {
                if j == before.len() {
                    assert(!p(before[i]));
                } else {
                    assert(before[i] == bound[i] && before[j] == bound[j]);
                }
            }
            assert forall|i: int| 0 <= i < bound.len() implies {
                let c = capability_of(caps, (#[trigger] bound[i]).worker);
                c is Some && advertises(c->0, bound[i].backend)
            } by {
                if i < before.len() {
                    assert(before[i] == bound[i]);
                }
            }
        }
        assert forall|i: int| 0 <= i < roles.len() implies (#[trigger] roles[i]).worker is Some
            && find(bound, of_role(roles[i].worker->0, roles[i].task_kind)) is Some by {
            let q = of_role(roles[i].worker->0, roles[i].task_kind);
            if i < roles.len() - 1 {
                assert(roles.drop_last()[i] == roles[i]);
                lemma_find_persists(before, bound, q);
            } else if find(before, p) is None {
                crate::base::search::lemma_find_sound(bound, q);
                if find(bound, q) is None {
                    assert(!q(bound[bound.len() - 1]));
                }
            }
        }
    }
}

/// How early a backend is tried for a task.
pub open spec fn preference(kind: BackendKind) -> int {
    match kind {
        BackendKind::Cuda => 0,
        BackendKind::Rocm => 1,
        BackendKind::Metal => 2,
        BackendKind::Cpu => 3,
    }
}

/// A bound plan has no assignment but for its roles: each belongs to a role of the
/// plan and names the first backend that its worker advertises and that meets the
/// requirements of the task.
pub proof fn law_every_assignment_is_a_role(
    roles: Seq<RoleRequest>,
    caps: Seq<V4WorkerCapabilityView>,
    options: Seq<BackendOptionView>,
    bound: Seq<BackendAssignmentView>,
    i: int,
)
    requires
        bind_roles(roles, caps, options) == Ok::<Seq<BackendAssignmentView>, BindError>(bound),
        0 <= i < bound.len(),
    ensures
        ({
            let a = bound[i];
            let c = capability_of(caps, a.worker);
            &&& roles.contains(RoleRequest { worker: Some(a.worker), task_kind: a.task_kind })
            &&& c is Some
            &&& try_backend(c->0, options, a.worker, a.task_kind, a.backend) == Some(a)
            &&& forall|kind: BackendKind|
                preference(kind) < preference(a.backend) ==> #[trigger] try_backend(
                    c->0,
                    options,
                    a.worker,
                    a.task_kind,
                    kind,
                ) is None
        }),
    decreases roles.len(),
{
    if roles.len() > 0 {
        let rest = roles.drop_last();
        let before = bind_roles(rest, caps, options)->Ok_0;
        let role = roles.last();
        assert(roles[roles.len() - 1] == role);
        if i < before.len() {
            assert(before[i] == bound[i]);
            law_every_assignment_is_a_role(rest, caps, options, before, i);
            let named = RoleRequest {
                worker: Some(bound[i].worker),
                task_kind: bound[i].task_kind,
            };
            let k = rest.index_of(named);
            assert(roles[k] == named);
        } else {
            assert(role.worker == Some(bound[i].worker));
        }
    }
}

proof fn lemma_find_persists(
    before: Seq<BackendAssignmentView>,
    after: Seq<BackendAssignmentView>,
    q: spec_fn(BackendAssignmentView) -> bool,
)
    requires
        find(before, q) is Some,
        after == before || (after.len() == before.len() + 1 && after.drop_last() == before),
    ensures
        find(after, q) is Some,
{
    crate::base::search::lemma_find_sound(before, q);
    crate::base::search::lemma_find_sound(after, q);
    let x = find(before, q)->0;
    let k = choose|k: int| 0 <= k < before.len() && before[k] == x;
    assert(after[k] == x);
    if find(after, q) is None {
        assert(!q(after[k]));
    }
}

pub fn backend_assignment(plan: &V4TrainingPlan, worker: NodeId, task_kind: ComputeTaskKind) -> (r:
    Option<BackendAssignment>)
    ensures
        match r {
            Some(a) => find(plan@.backend_assignments, of_role(worker, task_kind)) == Some(a@),
            None => find(plan@.backend_assignments, of_role(worker, task_kind)) is None,
        },
{
    match find_assignment(&plan.backend_assignments, worker, task_kind) {
        Some(assignment) => Some(assignment.duplicate()),
        None => None,
    }
}

/// The backend and requirements of a task: as assigned, else the CPU with the
/// requirements in `fallback`.
pub fn compute_task_requirements(
    plan: &V4TrainingPlan,
    worker: NodeId,
    task_kind: ComputeTaskKind,
    fallback: ComputeRequirements,
) -> (r: (BackendKind, ComputeRequirements))
    ensures
        match find(plan@.backend_assignments, of_role(worker, task_kind)) {
            Some(a) => r.0 == a.backend && r.1@ == a.requirements,
            None => r.0 == BackendKind::Cpu && r.1@ == fallback@,
        },
{
    match backend_assignment(plan, worker, task_kind) {
        Some(assignment) => (assignment.backend, assignment.requirements),
        None => (BackendKind::Cpu, fallback),
    }
}

/// The bounds of a compute task.
#[derive(Clone, Copy, Debug, PartialEq, Eq, Structural)]
pub struct TaskBounds {
    /// The elements that the requirements are sized for.
    pub elements: u64,
    pub graph_generation: u64,
    pub model_generation: u64,
    pub deadline_ms: u32,
}

/// The bounds of a compute task: no count or generation below one, and a
/// deadline between one millisecond and two minutes.
pub fn task_bounds(
    input_elements: u64,
    output_elements: u64,
    graph_generation: u64,
    model_generation: u64,
    deadline_ms: u32,
) -> (r: TaskBounds)
    ensures
        r.elements == max_int(sat_u64(input_elements + output_elements), 1),
        r.graph_generation == max_int(graph_generation as int, 1),
        r.model_generation == max_int(model_generation as int, 1),
        r.deadline_ms == clamp_int(deadline_ms as int, 1, 120_000),
{
    let deadline: u32 = if deadline_ms < 1 {
        1
    } else if deadline_ms > 120_000 {
        120_000
    } else {
        deadline_ms
    };
    TaskBounds {
        elements: max_u64(input_elements.saturating_add(output_elements), 1),
        graph_generation: max_u64(graph_generation, 1),
        model_generation: max_u64(model_generation, 1),
        deadline_ms: deadline,
    }
}

/// The try on a fallback backend: the same task, bound to that backend alone.
pub open spec fn fallback_attempt(
    requirements: ComputeRequirementsView,
    backend: BackendKind,
) -> TaskAttemptView {
    TaskAttemptView {
        backend,
        requirements: ComputeRequirementsView {
            required_backend: Some(backend),
            allowed_backends: seq![backend],
            ..requirements
        },
    }
}

/// The tries at a task: the assigned backend, then every fallback if allowed.
pub open spec fn attempts(backend: BackendKind, requirements: ComputeRequirementsView) -> Seq<
    TaskAttemptView,
> {
    let first = seq![TaskAttemptView { backend, requirements }];
    if requirements.fallback_allowed {
        first + requirements.fallback_backends.map_values(
            |b: BackendKind| fallback_attempt(requirements, b),
        )
    } else {
        first
    }
}

/// The tries at a task, in order. The first that succeeds gives the result.
pub fn execute_backend_task(backend: BackendKind, requirements: &ComputeRequirements) -> (r: Vec<
    TaskAttempt,
>)
    ensures
        views(r@) == attempts(backend, requirements@),
{
    let mut out: Vec<TaskAttempt> = Vec::new();
    let ghost all = attempts(backend, requirements@);
    let first = TaskAttempt { backend, requirements: requirements.duplicate() };
    proof {
        lemma_views_push(out@, first);
    }
    out.push(first);
    assert(views(out@) =~= all.take(1));
    if requirements.fallback_allowed {
        let mut i: usize = 0;
        while i < requirements.fallback_backends.len()
            invariant
                0 <= i <= requirements.fallback_backends@.len(),
                requirements.fallback_allowed,
                all == attempts(backend, requirements@),
                views(out@) == all.take(1 + i as int),
            decreases requirements.fallback_backends@.len() - i,
        {
            let fallback = requirements.fallback_backends[i];
            let mut narrowed = requirements.duplicate();
            narrowed.required_backend = Some(fallback);
            let mut allowed: Vec<BackendKind> = Vec::new();
            allowed.push(fallback);
            narrowed.allowed_backends = allowed;
            let attempt = TaskAttempt { backend: fallback, requirements: narrowed };
            proof {
                lemma_views_push(out@, attempt);
                assert(attempt@ =~= fallback_attempt(requirements@, fallback));
                assert(all.take(2 + i as int) =~= all.take(1 + i as int).push(attempt@));
            }
            out.push(attempt);
            i += 1;
        }
        assert(all.take(1 + i as int) =~= all);
    } else {
        assert(all.take(1) =~= all);
    }
    out
}

/// A task runs under the kernel of its own kind.
pub proof fn law_kernels_are_by_task()
    ensures
        kernel_name(ComputeTaskKind::TensorForward) == "v5.tensor.forward.v1"@,
        kernel_name(ComputeTaskKind::TensorBackward) == "v5.tensor.backward.v1"@,
        kernel_name(ComputeTaskKind::PipelineForward) == "v5.pipeline.forward.v1"@,
        kernel_name(ComputeTaskKind::PipelineBackward) == "v5.pipeline.backward.v1"@,
        kernel_name(ComputeTaskKind::Reference) == "v5.training.reference.v1"@,
{
}

/// A task is assigned to a backend that its worker advertises and that satisfies the
/// task, with the requirements of that option; the CPU is added as a fallback exactly
/// where the worker has one besides the backend assigned.
pub proof fn law_assigned_backend_is_advertised(
    c: V4WorkerCapabilityView,
    options: Seq<BackendOptionView>,
    worker: NodeId,
    task_kind: ComputeTaskKind,
)
    ensures
        select_backend(c, options, worker, task_kind) matches Some(a) ==> {
            &&& a.worker == worker
            &&& a.task_kind == task_kind
            &&& a.device_index == 0
            &&& exists|i: int|
                0 <= i < c.backends.len() && (#[trigger] c.backends[i]).kind == a.backend
            &&& exists|i: int|
                0 <= i < options.len() && (#[trigger] options[i]).worker == worker
                    && options[i].task_kind == task_kind && options[i].backend == a.backend
                    && options[i].satisfied && a.requirements == with_fallback(
                    options[i].requirements,
                    a.backend,
                    c,
                )
        },
{
    if let Some(a) = select_backend(c, options, worker, task_kind) {
        crate::base::search::lemma_find_sound(options, usable(worker, task_kind, a.backend));
        let found = find(options, usable(worker, task_kind, a.backend))->0;
        let i = options.index_of(found);
        assert(options[i].worker == worker);
    }
}

/// The CPU becomes a fallback for an accelerator of a worker that also offers the CPU;
/// otherwise the requirements stay as they are.
pub proof fn law_fallback_is_the_cpu(
    requirements: ComputeRequirementsView,
    backend: BackendKind,
    c: V4WorkerCapabilityView,
)
    ensures
        ({
            let after = with_fallback(requirements, backend, c);
            &&& backend is Cpu ==> after == requirements
            &&& !(backend is Cpu) && (exists|i: int|
                0 <= i < c.backends.len() && (#[trigger] c.backends[i]).kind is Cpu) ==> {
                &&& after.fallback_allowed
                &&& after.fallback_backends.len() == requirements.fallback_backends.len() + 1
                &&& after.fallback_backends.last() is Cpu
                &&& after.fallback_backends.drop_last() == requirements.fallback_backends
                &&& after.required_backend == requirements.required_backend
                &&& after.allowed_backends == requirements.allowed_backends
            }
            &&& (forall|i: int|
                0 <= i < c.backends.len() ==> !((#[trigger] c.backends[i]).kind is Cpu)) ==> after
                == requirements
        }),
{
    assert(requirements.fallback_backends.push(BackendKind::Cpu).drop_last()
        =~= requirements.fallback_backends);
}

/// An accelerator that would do is taken before the CPU: first CUDA, then ROCm, then
/// Metal.
pub proof fn law_accelerators_come_first(
    c: V4WorkerCapabilityView,
    options: Seq<BackendOptionView>,
    worker: NodeId,
    task_kind: ComputeTaskKind,
    i: int,
    j: int,
)
    requires
        0 <= i < c.backends.len(),
        0 <= j < options.len(),
        options[j].worker == worker,
        options[j].task_kind == task_kind,
        options[j].backend == c.backends[i].kind,
        options[j].satisfied,
    ensures
        select_backend(c, options, worker, task_kind) is Some,
        ({
            let chosen = select_backend(c, options, worker, task_kind)->0.backend;
            &&& c.backends[i].kind is Cuda ==> chosen is Cuda
            &&& c.backends[i].kind is Rocm ==> chosen is Cuda || chosen is Rocm
            &&& c.backends[i].kind is Metal ==> !(chosen is Cpu)
        }),
{
    let kind = c.backends[i].kind;
    crate::base::search::lemma_find_sound(options, usable(worker, task_kind, kind));
    assert(usable(worker, task_kind, kind)(options[j]));
    assert(advertises(c, kind));
    assert(try_backend(c, options, worker, task_kind, kind) is Some);
}

/// The last record of a worker is the one that counts.
pub proof fn law_last_capability_counts(
    caps: Seq<V4WorkerCapabilityView>,
    last: V4WorkerCapabilityView,
    worker: NodeId,
)
    ensures
        capability_of(Seq::empty(), worker) is None,
        last.node == worker ==> capability_of(caps.push(last), worker) == Some(last),
        last.node != worker ==> capability_of(caps.push(last), worker) == capability_of(
            caps,
            worker,
        ),
{
    assert(caps.push(last).drop_last() =~= caps);
}

/// A role that is bound already stays as it is; a new one is added behind the others; it
/// fails for want of an owner, of a record or of a backend.
pub proof fn law_roles_are_bound_once(
    bound: Seq<BackendAssignmentView>,
    role: RoleRequest,
    caps: Seq<V4WorkerCapabilityView>,
    options: Seq<BackendOptionView>,
)
    ensures
        ({
            let r = bind_role(bound, role, caps, options);
            &&& role.worker is None <==> r == Err::<Seq<BackendAssignmentView>, _>(
                BindError::NoOwner,
            )
            &&& r matches Ok(after) ==> after == bound || (after.len() == bound.len() + 1
                && after.drop_last() == bound && after.last().worker == role.worker->0
                && after.last().task_kind == role.task_kind)
            &&& r matches Ok(after) ==> exists|i: int|
                0 <= i < after.len() && (#[trigger] after[i]).worker == role.worker->0
                    && after[i].task_kind == role.task_kind
            &&& role.worker is Some && (exists|i: int|
                0 <= i < bound.len() && (#[trigger] bound[i]).worker == role.worker->0
                    && bound[i].task_kind == role.task_kind) ==> r == Ok::<_, BindError>(bound)
        }),
{
    let r = bind_role(bound, role, caps, options);
    if let Some(worker) = role.worker {
        let p = of_role(worker, role.task_kind);
        if find(bound, p) is Some {
            crate::base::search::lemma_find_sound(bound, p);
            let i = bound.index_of(find(bound, p)->0);
            assert(bound[i].worker == worker);
        } else {
            crate::base::search::lemma_find_sound(bound, p);
            if let Ok(after) = r {
                let a = select_backend(
                    capability_of(caps, worker)->0,
                    options,
                    worker,
                    role.task_kind,
                )->0;
                assert(after.drop_last() =~= bound);
                assert(after[bound.len() as int] == a);
            }
            assert forall|i: int| 0 <= i < bound.len() implies !((#[trigger] bound[i]).worker
                == worker && bound[i].task_kind == role.task_kind) by {
                assert(!p(bound[i]));
            }
        }
    }
}

/// A shard asks for a forward and a backward role of its first owner, a stage for a
/// forward and a backward role of its worker; a tensor plan has the roles of its shards,
/// a pipeline plan those of its stages, a hybrid plan both, and local training none.
pub proof fn law_roles_follow_the_strategy(
    plan: V4TrainingPlanView,
    stages: Seq<V4PipelineStageAssignmentView>,
    i: int,
)
    ensures
        roles_of(plan, stages).len() == (if plan.strategy is TensorParallel || plan.strategy is Hybrid {
            2 * plan.shards.len()
        } else {
            0
        }) + (if plan.strategy is PipelineParallel || plan.strategy is Hybrid {
            2 * stages.len()
        } else {
            0
        }),
        0 <= i < plan.shards.len() ==> {
            let owner = if plan.shards[i].owners.len() > 0 {
                Some(plan.shards[i].owners[0])
            } else {
                None
            };
            &&& tensor_roles(plan.shards)[2 * i].worker == owner
            &&& tensor_roles(plan.shards)[2 * i].task_kind is TensorForward
            &&& tensor_roles(plan.shards)[2 * i + 1].worker == owner
            &&& tensor_roles(plan.shards)[2 * i + 1].task_kind is TensorBackward
        },
        0 <= i < stages.len() ==> {
            &&& stage_roles(stages)[2 * i].worker == Some(stages[i].worker)
            &&& stage_roles(stages)[2 * i].task_kind is PipelineForward
            &&& stage_roles(stages)[2 * i + 1].worker == Some(stages[i].worker)
            &&& stage_roles(stages)[2 * i + 1].task_kind is PipelineBackward
        },
        plan.strategy is TensorParallel ==> roles_of(plan, stages) == tensor_roles(plan.shards),
        plan.strategy is PipelineParallel ==> roles_of(plan, stages) == stage_roles(stages),
        plan.strategy is Hybrid ==> roles_of(plan, stages) == tensor_roles(plan.shards)
            + stage_roles(stages),
        plan.strategy is LocalSgd ==> roles_of(plan, stages).len() == 0,
{
    lemma_tensor_roles_at(plan.shards, i);
    lemma_stage_roles_at(stages, i);
    if plan.strategy is TensorParallel {
        assert(roles_of(plan, stages) =~= tensor_roles(plan.shards));
    }
    if plan.strategy is PipelineParallel {
        assert(roles_of(plan, stages) =~= stage_roles(stages));
    }
}

proof fn lemma_tensor_roles_at(shards: Seq<V4ShardOwnershipView>, i: int)
    ensures
        tensor_roles(shards).len() == 2 * shards.len(),
        0 <= i < shards.len() ==> {
            let owner = if shards[i].owners.len() > 0 {
                Some(shards[i].owners[0])
            } else {
                None
            };
            &&& tensor_roles(shards)[2 * i].worker == owner
            &&& tensor_roles(shards)[2 * i].task_kind is TensorForward
            &&& tensor_roles(shards)[2 * i + 1].worker == owner
            &&& tensor_roles(shards)[2 * i + 1].task_kind is TensorBackward
        },
    decreases shards.len(),
{
    if shards.len() > 0 {
        lemma_tensor_roles_at(shards.drop_last(), i);
    }
}

proof fn lemma_stage_roles_at(stages: Seq<V4PipelineStageAssignmentView>, i: int)
    ensures
        stage_roles(stages).len() == 2 * stages.len(),
        0 <= i < stages.len() ==> {
            &&& stage_roles(stages)[2 * i].worker == Some(stages[i].worker)
            &&& stage_roles(stages)[2 * i].task_kind is PipelineForward
            &&& stage_roles(stages)[2 * i + 1].worker == Some(stages[i].worker)
            &&& stage_roles(stages)[2 * i + 1].task_kind is PipelineBackward
        },
    decreases stages.len(),
{
    if stages.len() > 0 {
        lemma_stage_roles_at(stages.drop_last(), i);
    }
}

/// A task is tried on its assigned backend first, as required; then, where fallbacks are
/// allowed, on each of them in order, bound to that backend alone; otherwise only once.
pub proof fn law_tries_follow_the_fallbacks(
    backend: BackendKind,
    requirements: ComputeRequirementsView,
    i: int,
)
    ensures
        ({
            let tries = attempts(backend, requirements);
            &&& tries.len() >= 1
            &&& tries[0].backend == backend
            &&& tries[0].requirements == requirements
            &&& !requirements.fallback_allowed ==> tries.len() == 1
            &&& requirements.fallback_allowed ==> tries.len() == 1
                + requirements.fallback_backends.len()
            &&& requirements.fallback_allowed && 0 <= i < requirements.fallback_backends.len() ==> {
                let fallback = requirements.fallback_backends[i];
                &&& tries[i + 1].backend == fallback
                &&& tries[i + 1].requirements.required_backend == Some(fallback)
                &&& tries[i + 1].requirements.allowed_backends.len() == 1
                &&& tries[i + 1].requirements.allowed_backends[0] == fallback
                &&& tries[i + 1].requirements == (ComputeRequirementsView {
                    required_backend: Some(fallback),
                    allowed_backends: tries[i + 1].requirements.allowed_backends,
                    ..requirements
                })
            }
        }),
{
}

/// Of the roles one after the other, each is bound after those before it, and the first
/// that cannot be bound fails them all.
pub proof fn law_roles_are_bound_in_order(
    roles: Seq<RoleRequest>,
    role: RoleRequest,
    caps: Seq<V4WorkerCapabilityView>,
    options: Seq<BackendOptionView>,
)
    ensures
        bind_roles(Seq::empty(), caps, options) == Ok::<_, BindError>(
            Seq::<BackendAssignmentView>::empty(),
        ),
        bind_roles(roles, caps, options) matches Ok(bound) ==> bind_roles(
            roles.push(role),
            caps,
            options,
        ) == bind_role(bound, role, caps, options),
        bind_roles(roles, caps, options) is Err ==> bind_roles(roles.push(role), caps, options)
            == bind_roles(roles, caps, options),
{
    assert(roles.push(role).drop_last() =~= roles);
}

} // verus!
