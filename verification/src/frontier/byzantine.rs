//! Aggregation of updates from untrusted workers.

use crate::base::ids::{JobId, NodeId};
use crate::base::members::contains_id;
use crate::base::record::{duplicate_all, duplicate_opt, Duplicate};
use crate::base::search::{find, lemma_find_at, lemma_views_push, opt_view, views};
use crate::base::values::{all_within, bounded, same_values};
use crate::frontier::collective::MAX_AGGREGATION_REQUESTS;
use crate::frontier::dataplane::{
    V4ByzantineResult, V4ByzantineResultView, V4ByzantineUpdate, V4ByzantineUpdateView,
};
use crate::frontier::policy::V4ByzantinePolicy;
use crate::frontier::types::{V4ParallelismStrategy, V4TrainingPlan, V4TrainingPlanView};
use crate::reference::types::{TrainingContribution, TrainingContributionView};
use vstd::prelude::*;

verus! {

/// The largest magnitude of an honest value.
pub const UPDATE_BOUND: i64 = 100;

/// The update of a worker.
#[derive(Debug, PartialEq, Eq)]
pub struct WorkerUpdate {
    pub worker: NodeId,
    pub sequence: u64,
    pub values: Vec<i64>,
}

/// The contents of a [`WorkerUpdate`].
#[verifier::ext_equal]
pub struct WorkerUpdateView {
    pub worker: NodeId,
    pub sequence: u64,
    pub values: Seq<i64>,
}

impl View for WorkerUpdate {
    type V = WorkerUpdateView;

    open spec fn view(&self) -> WorkerUpdateView {
        WorkerUpdateView {
            worker: self.worker,
            sequence: self.sequence,
            values: self.values@,
        }
    }
}

impl Duplicate for WorkerUpdate {
    fn duplicate(&self) -> (r: WorkerUpdate) {
        WorkerUpdate {
            worker: self.worker,
            sequence: self.sequence,
            values: self.values.clone(),
        }
    }
}

/// An aggregation that is under way, or its result.
#[derive(Debug, PartialEq, Eq)]
pub struct V4ByzantineState {
    pub job_id: JobId,
    pub plan_generation: u64,
    pub generation: u64,
    pub aggregator: NodeId,
    pub expected_updates: u16,
    pub policy: V4ByzantinePolicy,
    pub reply_to: NodeId,
    pub value_len: usize,
    /// The updates, in the order of arrival.
    pub updates: Vec<WorkerUpdate>,
    pub completed: Option<V4ByzantineResult>,
}

/// The contents of a [`V4ByzantineState`].
#[verifier::ext_equal]
pub struct V4ByzantineStateView {
    pub job_id: JobId,
    pub plan_generation: u64,
    pub generation: u64,
    pub aggregator: NodeId,
    pub expected_updates: u16,
    pub policy: V4ByzantinePolicy,
    pub reply_to: NodeId,
    pub value_len: usize,
    pub updates: Seq<WorkerUpdateView>,
    pub completed: Option<V4ByzantineResultView>,
}

impl View for V4ByzantineState {
    type V = V4ByzantineStateView;

    open spec fn view(&self) -> V4ByzantineStateView {
        V4ByzantineStateView {
            job_id: self.job_id,
            plan_generation: self.plan_generation,
            generation: self.generation,
            aggregator: self.aggregator,
            expected_updates: self.expected_updates,
            policy: self.policy,
            reply_to: self.reply_to,
            value_len: self.value_len,
            updates: views(self.updates@),
            completed: opt_view(self.completed),
        }
    }
}

impl Duplicate for V4ByzantineState {
    fn duplicate(&self) -> (r: V4ByzantineState) {
        V4ByzantineState {
            job_id: self.job_id,
            plan_generation: self.plan_generation,
            generation: self.generation,
            aggregator: self.aggregator,
            expected_updates: self.expected_updates,
            policy: self.policy,
            reply_to: self.reply_to,
            value_len: self.value_len,
            updates: duplicate_all(&self.updates),
            completed: duplicate_opt(&self.completed),
        }
    }
}
/// Why an update is refused.
#[derive(Clone, Copy, Debug, PartialEq, Eq, Structural)]
pub enum ByzantineError {
    /// The plan does not name the worker or the aggregator.
    Unauthorized,
    /// An update for another aggregator is handed on by its worker alone.
    NotWorker,
    /// The sender is not the worker.
    WrongSender,
    /// A finished request is known with other terms.
    ReplayConflict,
    /// The node has too many requests open.
    Full,
    /// The request is known with other terms.
    Conflict,
    /// The worker has already given another update.
    Duplicate,
}

/// What a node does with an update.
#[derive(Clone, Copy, Debug, PartialEq, Eq, Structural)]
pub enum UpdateRoute {
    /// It is its own update, and goes on to the aggregator.
    HandOn,
    /// It is taken in here, once it is admitted.
    Collect,
}

/// The plan names everybody that the update names.
pub open spec fn update_planned(plan: V4TrainingPlanView, u: V4ByzantineUpdateView) -> bool {
    plan.strategy is LocalSgd && plan.workers.contains(u.worker) && plan.workers.contains(
        u.aggregator,
    )
}

/// Where an update goes, under a plan that authorizes its requester.
pub fn route_update(node: NodeId, peer: NodeId, plan: &V4TrainingPlan, update: &V4ByzantineUpdate) -> (r:
    Result<UpdateRoute, ByzantineError>)
    ensures
        ({
            let u = update@;
            let planned = update_planned(plan@, u);
            let here = u.aggregator == node;
            match r {
                Err(ByzantineError::Unauthorized) => !planned,
                Err(ByzantineError::NotWorker) => planned && !here && u.worker != node,
                Err(ByzantineError::WrongSender) => planned && here && u.worker != node && u.worker
                    != peer,
                Ok(UpdateRoute::HandOn) => planned && !here && u.worker == node,
                Ok(UpdateRoute::Collect) => planned && here && (u.worker == node || u.worker
                    == peer),
                Err(_) => false,
            }
        }),
{
    let local_sgd = matches!(plan.strategy, V4ParallelismStrategy::LocalSgd);
    if !local_sgd || !contains_id(&plan.workers, update.worker) || !contains_id(
        &plan.workers,
        update.aggregator,
    ) {
        return Err(ByzantineError::Unauthorized);
    }
    if update.aggregator != node {
        if update.worker != node {
            return Err(ByzantineError::NotWorker);
        }
        return Ok(UpdateRoute::HandOn);
    }
    if update.worker != node && update.worker != peer {
        return Err(ByzantineError::WrongSender);
    }
    Ok(UpdateRoute::Collect)
}

/// The aggregation that an update opens.
pub open spec fn aggregation_of(u: V4ByzantineUpdateView) -> V4ByzantineStateView {
    V4ByzantineStateView {
        job_id: u.job_id,
        plan_generation: u.plan_generation,
        generation: u.generation,
        aggregator: u.aggregator,
        expected_updates: u.expected_updates,
        policy: u.policy,
        reply_to: u.reply_to,
        value_len: u.values.len() as usize,
        updates: Seq::empty(),
        completed: None,
    }
}

fn open_aggregation(update: &V4ByzantineUpdate) -> (r: V4ByzantineState)
    ensures
        r@ == aggregation_of(update@),
{
    let r = V4ByzantineState {
        job_id: update.job_id,
        plan_generation: update.plan_generation,
        generation: update.generation,
        aggregator: update.aggregator,
        expected_updates: update.expected_updates,
        policy: update.policy,
        reply_to: update.reply_to,
        value_len: update.values.len(),
        updates: Vec::new(),
        completed: None,
    };
    assert(r@ =~= aggregation_of(update@));
    r
}

/// What the admission policy is shown of an update under its plan.
pub open spec fn shown_update(plan: V4TrainingPlanView, u: V4ByzantineUpdateView) ->
    TrainingContributionView {
    TrainingContributionView {
        job_id: u.job_id,
        worker: u.worker,
        branch: plan.branch,
        plan_generation: u.plan_generation,
        generation: u.generation,
        sequence: u.sequence,
        values: u.values,
    }
}

/// What the admission policy is shown of an update under its plan.
pub fn update_contribution(plan: &V4TrainingPlan, update: &V4ByzantineUpdate) -> (r:
    TrainingContribution)
    ensures
        r@ == shown_update(plan@, update@),
{
    TrainingContribution {
        job_id: update.job_id,
        worker: update.worker,
        branch: plan.branch,
        plan_generation: update.plan_generation,
        generation: update.generation,
        sequence: update.sequence,
        values: update.values.clone(),
    }
}

/// The lineage of a finished aggregation.
pub open spec fn same_lineage(state: V4ByzantineStateView, u: V4ByzantineUpdateView) -> bool {
    state.job_id == u.job_id && state.plan_generation == u.plan_generation && state.generation
        == u.generation && state.policy == u.policy && state.reply_to == u.reply_to
}

/// The terms of a running aggregation.
pub open spec fn same_terms(state: V4ByzantineStateView, u: V4ByzantineUpdateView) -> bool {
    same_lineage(state, u) && state.aggregator == u.aggregator && state.expected_updates
        == u.expected_updates && state.value_len == u.values.len()
}

/// The update of a worker.
pub open spec fn update_by(worker: NodeId) -> spec_fn(WorkerUpdateView) -> bool {
    |u: WorkerUpdateView| u.worker == worker
}

/// The entry of an update.
pub open spec fn entry_of(u: V4ByzantineUpdateView) -> WorkerUpdateView {
    WorkerUpdateView { worker: u.worker, sequence: u.sequence, values: u.values }
}

/// The aggregation with an update taken in.
pub open spec fn with_update(state: V4ByzantineStateView, u: V4ByzantineUpdateView) ->
    V4ByzantineStateView {
    match find(state.updates, update_by(u.worker)) {
        Some(e) => state,
        None => V4ByzantineStateView { updates: state.updates.push(entry_of(u)), ..state },
    }
}

/// The worker has given another update before.
pub open spec fn update_conflicts(state: V4ByzantineStateView, u: V4ByzantineUpdateView) -> bool {
    match find(state.updates, update_by(u.worker)) {
        Some(e) => e != entry_of(u),
        None => false,
    }
}

/// What an admitted update leads to.
#[derive(Debug, PartialEq, Eq)]
pub enum ByzantineStep {
    /// The request is finished; its result is sent again.
    Replay(V4ByzantineResult),
    /// Other updates are awaited.
    Waiting,
    /// Every update is in; they are to be combined.
    Ready,
}

fn find_update(updates: &Vec<WorkerUpdate>, worker: NodeId) -> (r: Option<&WorkerUpdate>)
    ensures
        match r {
            Some(u) => find(views(updates@), update_by(worker)) == Some(u@),
            None => find(views(updates@), update_by(worker)) is None,
        },
{
    let ghost s = views(updates@);
    let mut i: usize = 0;
    while i < updates.len()
        invariant
            0 <= i <= updates@.len(),
            s == views(updates@),
            forall|j: int| 0 <= j < i ==> !update_by(worker)(#[trigger] s[j]),
        decreases updates@.len() - i,
    {
        assert(s[i as int] == updates@[i as int]@);
        if updates[i].worker == worker {
            proof {
                lemma_find_at(s, update_by(worker), i as int);
            }
            return Some(&updates[i]);
        }
        i += 1;
    }
    proof {
        lemma_find_at(s, update_by(worker), i as int);
    }
    None
}

/// Take in an admitted update. `state` is what is known of the request, if
/// anything is; `open` is the number of requests that are known.
pub fn receive_byzantine_update(
    state: &mut Option<V4ByzantineState>,
    update: &V4ByzantineUpdate,
    open: usize,
) -> (r: Result<ByzantineStep, ByzantineError>)
    ensures
        ({
            let u = update@;
            let before = opt_view(*old(state));
            let after = opt_view(*final(state));
            let finished = before is Some && before->0.completed is Some;
            let running = match before {
                Some(s) => s,
                None => aggregation_of(u),
            };
            let full = before is None && open >= MAX_AGGREGATION_REQUESTS;
            let taken = !finished && !full && same_terms(running, u) && !update_conflicts(
                running,
                u,
            );
            let complete = with_update(running, u).updates.len() == running.expected_updates;
            match r {
                Err(ByzantineError::ReplayConflict) => finished && !same_lineage(before->0, u)
                    && after == before,
                Ok(ByzantineStep::Replay(result)) => finished && same_lineage(before->0, u)
                    && before->0.completed == Some(result@) && after == before,
                Err(ByzantineError::Full) => full && after == before,
                Err(ByzantineError::Conflict) => !finished && !full && !same_terms(running, u)
                    && after == before,
                Err(ByzantineError::Duplicate) => !finished && !full && same_terms(running, u)
                    && update_conflicts(running, u) && after == before,
                Ok(ByzantineStep::Waiting) => taken && !complete && after == Some(
                    with_update(running, u),
                ),
                Ok(ByzantineStep::Ready) => taken && complete && after == Some(
                    with_update(running, u),
                ),
                Err(_) => false,
            }
        }),
{
    let ghost before = opt_view(*state);
    match state.take() {
        Some(known) => {
            if known.completed.is_some() {
                let same = known.job_id == update.job_id && known.plan_generation
                    == update.plan_generation && known.generation == update.generation
                    && known.policy == update.policy && known.reply_to == update.reply_to;
                let result = duplicate_opt(&known.completed);
                *state = Some(known);
                if !same {
                    return Err(ByzantineError::ReplayConflict);
                }
                match result {
                    Some(result) => {
                        return Ok(ByzantineStep::Replay(result));
                    },
                    None => {
                        assert(false);
                    },
                }
            } else {
                *state = Some(known);
            }
        },
        None => {
            if open >= MAX_AGGREGATION_REQUESTS {
                return Err(ByzantineError::Full);
            }
        },
    }
    let mut running = match state.take() {
        Some(known) => known,
        None => open_aggregation(update),
    };
    let ghost start = running@;
    if running.job_id != update.job_id || running.plan_generation != update.plan_generation
        || running.generation != update.generation || running.aggregator != update.aggregator
        || running.expected_updates != update.expected_updates || running.policy != update.policy
        || running.reply_to != update.reply_to || running.value_len != update.values.len() {
        *state = Some(running);
        return Err(ByzantineError::Conflict);
    }
    let mut fresh = true;
    match find_update(&running.updates, update.worker) {
        Some(earlier) => {
            assert(earlier@.worker == update.worker) by {
                crate::base::search::lemma_find_sound(start.updates, update_by(update.worker));
            }
            if earlier.sequence != update.sequence || !same_values(
                &earlier.values,
                &update.values,
            ) {
                assert(earlier@ != entry_of(update@));
                *state = Some(running);
                return Err(ByzantineError::Duplicate);
            }
            assert(earlier@ =~= entry_of(update@));
            fresh = false;
        },
        None => {},
    }
    if fresh {
        let entry = WorkerUpdate {
            worker: update.worker,
            sequence: update.sequence,
            values: update.values.clone(),
        };
        proof {
            lemma_views_push(running.updates@, entry);
            assert(entry@ =~= entry_of(update@));
        }
        running.updates.push(entry);
    }
    assert(running@ =~= with_update(start, update@));
    let complete = running.updates.len() == running.expected_updates as usize;
    *state = Some(running);
    if complete {
        Ok(ByzantineStep::Ready)
    } else {
        Ok(ByzantineStep::Waiting)
    }
}

/// An update stays within the bound of honest ones.
pub open spec fn honest() -> spec_fn(WorkerUpdateView) -> bool {
    |u: WorkerUpdateView| bounded(u.values, UPDATE_BOUND as int)
}

/// The workers whose updates satisfy `p`, in the order of arrival.
pub open spec fn workers_where(
    updates: Seq<WorkerUpdateView>,
    p: spec_fn(WorkerUpdateView) -> bool,
) -> Seq<NodeId> {
    updates.filter(p).map_values(|u: WorkerUpdateView| u.worker)
}

/// The updates beyond the bound.
pub open spec fn outlying() -> spec_fn(WorkerUpdateView) -> bool {
    |u: WorkerUpdateView| !honest()(u)
}

/// The result of an aggregation whose combined values are `aggregate`.
pub open spec fn aggregation_result(
    state: V4ByzantineStateView,
    request_id: JobId,
    aggregate: Seq<i64>,
) -> V4ByzantineResultView {
    V4ByzantineResultView {
        request_id,
        job_id: state.job_id,
        plan_generation: state.plan_generation,
        generation: state.generation,
        policy: state.policy,
        aggregate,
        accepted_workers: workers_where(state.updates, honest()),
        rejected_workers: workers_where(state.updates, outlying()),
        robust: !(state.policy is Mean),
    }
}

/// The updates to combine, one list of values for each worker.
pub fn collected_values(state: &V4ByzantineState) -> (r: Vec<Vec<i64>>)
    ensures
        r@.len() == state@.updates.len(),
        forall|i: int| 0 <= i < r@.len() ==> (#[trigger] r@[i])@ == state@.updates[i].values,
{
    let mut out: Vec<Vec<i64>> = Vec::new();
    let mut i: usize = 0;
    while i < state.updates.len()
        invariant
            0 <= i <= state.updates@.len(),
            out@.len() == i,
            forall|j: int| 0 <= j < i ==> (#[trigger] out@[j])@ == state@.updates[j].values,
        decreases state.updates@.len() - i,
    {
        out.push(state.updates[i].values.clone());
        i += 1;
    }
    out
}

/// Close an aggregation with the combined values: the workers are told apart by
/// the bound of honest updates, and the result is kept for replays.
pub fn finish_aggregation(state: &mut V4ByzantineState, request_id: JobId, aggregate: Vec<i64>) -> (r:
    V4ByzantineResult)
    ensures
        r@ == aggregation_result(old(state)@, request_id, aggregate@),
        final(state)@ == (V4ByzantineStateView {
            updates: Seq::empty(),
            completed: Some(r@),
            ..old(state)@
        }),
{
    let ghost all = state@.updates;
    let ghost f = |u: WorkerUpdateView| u.worker;
    let mut accepted: Vec<NodeId> = Vec::new();
    let mut rejected: Vec<NodeId> = Vec::new();
    let mut i: usize = 0;
    proof {
        crate::base::search::lemma_filter_ends(all, honest());
        crate::base::search::lemma_filter_ends(all, outlying());
        assert(accepted@ =~= workers_where(all.take(0), honest()));
        assert(rejected@ =~= workers_where(all.take(0), outlying()));
    }
    while i < state.updates.len()
        invariant
            0 <= i <= state.updates@.len(),
            all == views(state.updates@),
            accepted@ == workers_where(all.take(i as int), honest()),
            rejected@ == workers_where(all.take(i as int), outlying()),
        decreases state.updates@.len() - i,
    {
        let ghost u = all[i as int];
        let ghost h = all.take(i as int).filter(honest());
        let ghost o = all.take(i as int).filter(outlying());
        proof {
            assert(u == state.updates@[i as int]@);
            crate::base::search::lemma_filter_step(all, honest(), i as int);
            crate::base::search::lemma_filter_step(all, outlying(), i as int);
            let f = |u: WorkerUpdateView| u.worker;
            assert(h.push(u).map_values(f) =~= h.map_values(f).push(u.worker));
            assert(o.push(u).map_values(f) =~= o.map_values(f).push(u.worker));
        }
        if all_within(&state.updates[i].values, UPDATE_BOUND) {
            accepted.push(state.updates[i].worker);
        } else {
            rejected.push(state.updates[i].worker);
        }
        i += 1;
    }
    proof {
        crate::base::search::lemma_filter_ends(all, honest());
    }
    let robust = !matches!(state.policy, V4ByzantinePolicy::Mean);
    let result = V4ByzantineResult {
        request_id,
        job_id: state.job_id,
        plan_generation: state.plan_generation,
        generation: state.generation,
        policy: state.policy,
        aggregate,
        accepted_workers: accepted,
        rejected_workers: rejected,
        robust,
    };
    state.updates = Vec::new();
    state.completed = Some(result.duplicate());
    assert(views(state.updates@) =~= Seq::<WorkerUpdateView>::empty());
    result
}

/// An aggregation holds one update for each worker, and never replaces it.
pub open spec fn updates_distinct(state: V4ByzantineStateView) -> bool {
    forall|i: int, j: int|
        0 <= i < j < state.updates.len() ==> (#[trigger] state.updates[i]).worker != (
        #[trigger] state.updates[j]).worker
}

/// One update counts for each worker: an update that is taken in leaves the
/// earlier ones alone, and no worker has two.
pub proof fn law_one_update_for_each_worker(
    state: V4ByzantineStateView,
    u: V4ByzantineUpdateView,
)
    requires
        updates_distinct(state),
    ensures
        updates_distinct(with_update(state, u)),
        state.updates.is_prefix_of(with_update(state, u).updates),
        with_update(state, u).updates.len() <= state.updates.len() + 1,
{
    let after = with_update(state, u).updates;
    crate::base::search::lemma_find_sound(state.updates, update_by(u.worker));
    assert forall|i: int, j: int| 0 <= i < j < after.len() implies (#[trigger] after[i]).worker
        != (#[trigger] after[j]).worker by {
        assert(after[i] == state.updates[i]);
        if j < state.updates.len() {
            assert(after[j] == state.updates[j]);
        } else {
            assert(!update_by(u.worker)(state.updates[i]));
        }
    }
}

/// Every worker that took part is either accepted or rejected, and none is
/// both.
pub proof fn law_workers_are_told_apart(
    state: V4ByzantineStateView,
    request_id: JobId,
    aggregate: Seq<i64>,
    i: int,
)
    requires
        updates_distinct(state),
        0 <= i < state.updates.len(),
    ensures
        ({
            let result = aggregation_result(state, request_id, aggregate);
            let worker = state.updates[i].worker;
            &&& result.accepted_workers.contains(worker) <==> honest()(state.updates[i])
            &&& result.rejected_workers.contains(worker) <==> !honest()(state.updates[i])
        }),
{
    let s = state.updates;
    let worker = s[i].worker;
    crate::base::search::lemma_filter_contains(s, honest());
    crate::base::search::lemma_filter_contains(s, outlying());
    lemma_named_iff_matching(s, honest(), i);
    lemma_named_iff_matching(s, outlying(), i);
}

proof fn lemma_named_iff_matching(
    s: Seq<WorkerUpdateView>,
    p: spec_fn(WorkerUpdateView) -> bool,
    i: int,
)
    requires
        forall|a: int, b: int|
            0 <= a < b < s.len() ==> (#[trigger] s[a]).worker != (#[trigger] s[b]).worker,
        0 <= i < s.len(),
    ensures
        workers_where(s, p).contains(s[i].worker) <==> p(s[i]),
{
    let kept = s.filter(p);
    let named = workers_where(s, p);
    crate::base::search::lemma_filter_contains(s, p);
    if p(s[i]) {
        assert(s.contains(s[i]));
        assert(kept.contains(s[i]));
        let k = choose|k: int| 0 <= k < kept.len() && kept[k] == s[i];
        assert(named[k] == s[i].worker);
    }
    if named.contains(s[i].worker) {
        let k = choose|k: int| 0 <= k < named.len() && named[k] == s[i].worker;
        assert(kept.contains(kept[k]));
        assert(s.contains(kept[k]) && p(kept[k]));
        let m = choose|m: int| 0 <= m < s.len() && s[m] == kept[k];
        assert(s[m].worker == s[i].worker);
        if m < i {
            assert(s[m].worker != s[i].worker);
        } else if i < m {
            assert(s[i].worker != s[m].worker);
        }
    }
}

/// An update opens an aggregation on its own terms.
pub proof fn law_aggregation_opens_on_its_terms(u: V4ByzantineUpdateView)
    requires
        u.values.len() <= usize::MAX,
    ensures
        ({
            let s = aggregation_of(u);
            &&& s.job_id == u.job_id && s.plan_generation == u.plan_generation
            &&& s.generation == u.generation && s.aggregator == u.aggregator
            &&& s.expected_updates == u.expected_updates && s.policy == u.policy
            &&& s.reply_to == u.reply_to && s.value_len == u.values.len()
            &&& s.updates.len() == 0 && s.completed is None
            &&& same_terms(s, u)
        }),
{
}

/// An update belongs to an aggregation only on the same terms: job, plan, generation,
/// policy, receiver, aggregator, number of updates and of values.
pub proof fn law_updates_share_the_terms(s: V4ByzantineStateView, u: V4ByzantineUpdateView)
    ensures
        same_terms(s, u) <==> (s.job_id == u.job_id && s.plan_generation == u.plan_generation
            && s.generation == u.generation && s.policy == u.policy && s.reply_to == u.reply_to
            && s.aggregator == u.aggregator && s.expected_updates == u.expected_updates
            && s.value_len == u.values.len()),
{
}

/// The policy is shown the update itself, under the branch of its plan.
pub proof fn law_policy_is_shown_the_update(plan: V4TrainingPlanView, u: V4ByzantineUpdateView)
    ensures
        ({
            let s = shown_update(plan, u);
            &&& s.worker == u.worker && s.job_id == u.job_id && s.values == u.values
            &&& s.sequence == u.sequence && s.generation == u.generation
            &&& s.plan_generation == u.plan_generation
            &&& s.branch == plan.branch
        }),
        update_planned(plan, u) <==> plan.strategy is LocalSgd && plan.workers.contains(u.worker)
            && plan.workers.contains(u.aggregator),
{
}

/// The first update of a worker is added as it was sent, and another one conflicts; the
/// same one again changes nothing.
pub proof fn law_update_is_added_as_sent(s: V4ByzantineStateView, u: V4ByzantineUpdateView, i: int)
    ensures
        (forall|k: int| 0 <= k < s.updates.len() ==> (#[trigger] s.updates[k]).worker != u.worker)
            ==> {
            let after = with_update(s, u);
            &&& after.updates.len() == s.updates.len() + 1
            &&& after.updates.last().worker == u.worker
            &&& after.updates.last().values == u.values
            &&& after.updates.last().sequence == u.sequence
            &&& after.updates.drop_last() == s.updates
            &&& !update_conflicts(s, u)
        },
        updates_distinct(s) && 0 <= i < s.updates.len() && s.updates[i].worker == u.worker
            ==> with_update(s, u) == s && (update_conflicts(s, u) <==> s.updates[i].values
            != u.values || s.updates[i].sequence != u.sequence),
{
    let p = update_by(u.worker);
    if forall|k: int| 0 <= k < s.updates.len() ==> (#[trigger] s.updates[k]).worker != u.worker {
        lemma_find_at(s.updates, p, s.updates.len() as int);
        assert(with_update(s, u).updates.drop_last() =~= s.updates);
    }
    if updates_distinct(s) && 0 <= i < s.updates.len() && s.updates[i].worker == u.worker {
        assert forall|j: int| 0 <= j < i implies !p(#[trigger] s.updates[j]) by {
            assert(s.updates[j].worker != s.updates[i].worker);
        }
        lemma_find_at(s.updates, p, i);
    }
}

/// The result tells apart the workers whose every value is within a hundred of zero and
/// the others; it is robust under every policy but the plain mean.
pub proof fn law_result_tells_workers_apart(
    s: V4ByzantineStateView,
    request_id: JobId,
    aggregate: Seq<i64>,
    i: int,
)
    requires
        0 <= i < s.updates.len(),
    ensures
        ({
            let r = aggregation_result(s, request_id, aggregate);
            let worker = s.updates[i].worker;
            let values = s.updates[i].values;
            &&& r.aggregate == aggregate && r.request_id == request_id
            &&& r.job_id == s.job_id && r.plan_generation == s.plan_generation
            &&& r.generation == s.generation && r.policy == s.policy
            &&& r.robust <==> !(s.policy is Mean)
            &&& (forall|k: int| 0 <= k < values.len() ==> -100 <= #[trigger] values[k] <= 100)
                ==> r.accepted_workers.contains(worker)
            &&& (exists|k: int|
                0 <= k < values.len() && (#[trigger] values[k] > 100 || values[k] < -100))
                ==> r.rejected_workers.contains(worker)
        }),
{
    let u = s.updates[i];
    crate::base::search::lemma_filter_contains(s.updates, honest());
    crate::base::search::lemma_filter_contains(s.updates, outlying());
    assert(s.updates.contains(u));
    if forall|k: int| 0 <= k < u.values.len() ==> -100 <= #[trigger] u.values[k] <= 100 {
        assert(honest()(u));
        let accepted = s.updates.filter(honest());
        assert(accepted.contains(u));
        let k = accepted.index_of(u);
        assert(workers_where(s.updates, honest())[k] == u.worker);
    }
    if exists|k: int|
        0 <= k < u.values.len() && (#[trigger] u.values[k] > 100 || u.values[k] < -100) {
        assert(outlying()(u));
        let rejected = s.updates.filter(outlying());
        assert(rejected.contains(u));
        let k = rejected.index_of(u);
        assert(workers_where(s.updates, outlying())[k] == u.worker);
    }
}

} // verus!
