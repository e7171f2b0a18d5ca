//! The reconciliation of two branches of a job.

use crate::base::ids::{ArtifactId, JobId, NodeId};
use crate::base::record::Duplicate;
use crate::frontier::policy::V4ReconciliationPolicy;
use vstd::prelude::*;

verus! {

/// A branch of a job.
#[derive(Clone, Copy, Debug, PartialEq, Eq, Structural)]
pub struct V4TrainingBranch {
    pub job_id: JobId,
    pub branch: ArtifactId,
    pub parent_generation: u64,
    pub model_generation: u64,
    pub optimizer_generation: u64,
    pub dataset_progress: u64,
    pub plan_generation: u64,
    pub created_by: NodeId,
}

impl View for V4TrainingBranch {
    type V = V4TrainingBranch;

    open spec fn view(&self) -> V4TrainingBranch {
        *self
    }
}

impl Duplicate for V4TrainingBranch {
    fn duplicate(&self) -> (r: V4TrainingBranch) {
        *self
    }
}

/// A request to bring two branches together.
#[derive(Clone, Copy, Debug, PartialEq, Eq, Structural)]
pub struct V4ReconcileRequest {
    pub request_id: JobId,
    pub job_id: JobId,
    pub plan_generation: u64,
    pub left: V4TrainingBranch,
    pub right: V4TrainingBranch,
    pub policy: V4ReconciliationPolicy,
    pub left_value: i64,
    pub right_value: i64,
}

impl View for V4ReconcileRequest {
    type V = V4ReconcileRequest;

    open spec fn view(&self) -> V4ReconcileRequest {
        *self
    }
}

impl Duplicate for V4ReconcileRequest {
    fn duplicate(&self) -> (r: V4ReconcileRequest) {
        *self
    }
}

/// What the reconciliation of two branches comes to.
#[derive(Debug, PartialEq, Eq)]
pub struct BranchDecision {
    pub accepted: bool,
    pub branch: Option<ArtifactId>,
    pub value: Option<i64>,
    pub reason: String,
}

/// The contents of a [`BranchDecision`].
#[verifier::ext_equal]
pub struct BranchDecisionView {
    pub accepted: bool,
    pub branch: Option<ArtifactId>,
    pub value: Option<i64>,
    pub reason: Seq<char>,
}

impl View for BranchDecision {
    type V = BranchDecisionView;

    open spec fn view(&self) -> BranchDecisionView {
        BranchDecisionView {
            accepted: self.accepted,
            branch: self.branch,
            value: self.value,
            reason: self.reason@,
        }
    }
}

impl Duplicate for BranchDecision {
    fn duplicate(&self) -> (r: BranchDecision) {
        BranchDecision {
            accepted: self.accepted,
            branch: self.branch,
            value: self.value,
            reason: self.reason.clone(),
        }
    }
}

/// The answer to a request to bring two branches together.
#[derive(Debug, PartialEq, Eq)]
pub struct V4ReconcileResult {
    pub request_id: JobId,
    pub job_id: JobId,
    pub plan_generation: u64,
    pub accepted: bool,
    pub branch: Option<ArtifactId>,
    pub merged_value: Option<i64>,
    pub reason: String,
}

/// The contents of a [`V4ReconcileResult`].
#[verifier::ext_equal]
pub struct V4ReconcileResultView {
    pub request_id: JobId,
    pub job_id: JobId,
    pub plan_generation: u64,
    pub accepted: bool,
    pub branch: Option<ArtifactId>,
    pub merged_value: Option<i64>,
    pub reason: Seq<char>,
}

impl View for V4ReconcileResult {
    type V = V4ReconcileResultView;

    open spec fn view(&self) -> V4ReconcileResultView {
        V4ReconcileResultView {
            request_id: self.request_id,
            job_id: self.job_id,
            plan_generation: self.plan_generation,
            accepted: self.accepted,
            branch: self.branch,
            merged_value: self.merged_value,
            reason: self.reason@,
        }
    }
}

impl Duplicate for V4ReconcileResult {
    fn duplicate(&self) -> (r: V4ReconcileResult) {
        V4ReconcileResult {
            request_id: self.request_id,
            job_id: self.job_id,
            plan_generation: self.plan_generation,
            accepted: self.accepted,
            branch: self.branch,
            merged_value: self.merged_value,
            reason: self.reason.clone(),
        }
    }
}

/// A branch at the first generation of everything.
pub open spec fn first_branch(
    job_id: JobId,
    branch: ArtifactId,
    created_by: NodeId,
) -> V4TrainingBranch {
    V4TrainingBranch {
        job_id,
        branch,
        parent_generation: 1,
        model_generation: 1,
        optimizer_generation: 1,
        dataset_progress: 1,
        plan_generation: 1,
        created_by,
    }
}

/// A branch at the first generation of everything.
pub fn branch(job_id: JobId, identity: ArtifactId, created_by: NodeId) -> (r: V4TrainingBranch)
    ensures
        r == first_branch(job_id, identity, created_by),
{
    V4TrainingBranch {
        job_id,
        branch: identity,
        parent_generation: 1,
        model_generation: 1,
        optimizer_generation: 1,
        dataset_progress: 1,
        plan_generation: 1,
        created_by,
    }
}

/// The two branches of a trial reconciliation.
pub open spec fn trial_request(
    job_id: JobId,
    policy: V4ReconciliationPolicy,
    left_value: i64,
    right_value: i64,
) -> V4ReconcileRequest {
    V4ReconcileRequest {
        request_id: job_id,
        job_id,
        plan_generation: 1,
        left: first_branch(
            job_id,
            ArtifactId { hi: repeated(1), lo: repeated(1) },
            NodeId { hi: repeated(2), lo: repeated(2) },
        ),
        right: first_branch(
            job_id,
            ArtifactId { hi: repeated(3), lo: repeated(3) },
            NodeId { hi: repeated(4), lo: repeated(4) },
        ),
        policy,
        left_value,
        right_value,
    }
}

/// Sixteen bytes that are all `byte`.
pub open spec fn repeated(byte: u8) -> u128 {
    (byte * 0x0101_0101_0101_0101_0101_0101_0101_0101) as u128
}

fn repeat(byte: u8) -> (r: u128)
    requires
        byte <= 4,
    ensures
        r == repeated(byte),
{
    byte as u128 * 0x0101_0101_0101_0101_0101_0101_0101_0101
}

/// The request of a trial reconciliation.
pub fn reconcile_demo(
    job_id: JobId,
    policy: V4ReconciliationPolicy,
    left_value: i64,
    right_value: i64,
) -> (r: V4ReconcileRequest)
    ensures
        r == trial_request(job_id, policy, left_value, right_value),
{
    let left = branch(
        job_id,
        ArtifactId { hi: repeat(1), lo: repeat(1) },
        NodeId { hi: repeat(2), lo: repeat(2) },
    );
    let right = branch(
        job_id,
        ArtifactId { hi: repeat(3), lo: repeat(3) },
        NodeId { hi: repeat(4), lo: repeat(4) },
    );
    V4ReconcileRequest {
        request_id: job_id,
        job_id,
        plan_generation: 1,
        left,
        right,
        policy,
        left_value,
        right_value,
    }
}

/// Answer a request to bring two branches together. There is none for a request
/// that comes from this node itself.
pub fn receive_reconcile(
    node: NodeId,
    peer: NodeId,
    request: &V4ReconcileRequest,
    decision: BranchDecision,
) -> (r: Option<V4ReconcileResult>)
    ensures
        match r {
            None => peer == node,
            Some(result) => peer != node && result@ == (V4ReconcileResultView {
                request_id: request.request_id,
                job_id: request.job_id,
                plan_generation: request.plan_generation,
                accepted: decision@.accepted,
                branch: decision@.branch,
                merged_value: decision@.value,
                reason: decision@.reason,
            }),
        },
{
    if peer == node {
        return None;
    }
    Some(
        V4ReconcileResult {
            request_id: request.request_id,
            job_id: request.job_id,
            plan_generation: request.plan_generation,
            accepted: decision.accepted,
            branch: decision.branch,
            merged_value: decision.value,
            reason: decision.reason,
        },
    )
}

/// A trial reconciliation carries the values and the policy of its caller, each in its
/// own field, for the job that it is about.
pub proof fn law_trial_carries_the_values_given(
    job_id: JobId,
    policy: V4ReconciliationPolicy,
    left_value: i64,
    right_value: i64,
)
    ensures
        ({
            let r = trial_request(job_id, policy, left_value, right_value);
            let exchanged = trial_request(job_id, policy, right_value, left_value);
            &&& r.left_value == left_value
            &&& r.right_value == right_value
            &&& r.policy == policy
            &&& r.job_id == job_id
            &&& r.request_id == job_id
            &&& r.plan_generation == 1
            &&& exchanged.left_value == r.right_value
            &&& exchanged.right_value == r.left_value
            &&& exchanged.left == r.left && exchanged.right == r.right
        }),
{
}

/// The two branches of a trial are of its job and at the first generation of everything,
/// and differ in their names and their makers.
pub proof fn law_trial_branches_differ(
    job_id: JobId,
    policy: V4ReconciliationPolicy,
    left_value: i64,
    right_value: i64,
)
    ensures
        ({
            let r = trial_request(job_id, policy, left_value, right_value);
            &&& r.left.job_id == job_id && r.right.job_id == job_id
            &&& r.left.branch != r.right.branch
            &&& r.left.created_by != r.right.created_by
            &&& r.left.parent_generation == 1 && r.right.parent_generation == 1
            &&& r.left.model_generation == 1 && r.right.model_generation == 1
            &&& r.left.optimizer_generation == 1 && r.right.optimizer_generation == 1
            &&& r.left.dataset_progress == 1 && r.right.dataset_progress == 1
            &&& r.left.plan_generation == 1 && r.right.plan_generation == 1
        }),
{
}

} // verus!
