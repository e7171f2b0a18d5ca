//! Optimizer state: its installation, its promotion into later plans, and its
//! updates by the owner of a shard.

use crate::base::arith::{clamp_i64, clamp_int, max_int, max_u64, sat_add_i64, sat_i64, sat_u64};
use crate::base::ids::{unsigned_hash, ArtifactId, JobId, NodeId};
use crate::base::members::{contains_id, filter_other_than};
use crate::base::search::{find, lemma_find_at, other_than, views};
use crate::base::values::{all_within, bounded, zero_values, zeros, VALUE_BOUND};
use crate::frontier::dataplane::{
    V4OptimizerStateAck, V4OptimizerStateInstall, V4OptimizerStateInstallView,
};
use crate::frontier::local::{V4LocalOptimizerState, V4LocalOptimizerStateView};
use crate::frontier::plan::{find_shard, numbered};
use crate::frontier::types::{
    V4ExecutionGraph, V4ExecutionGraphView, V4OptimizerPlacement, V4OptimizerPlacementView,
    V4ParallelismStrategy, V4TrainingPlan, V4TrainingPlanView,
};
use vstd::prelude::*;

verus! {

/// The values of an optimizer state whose shard is not stored here.
pub const ASSUMED_VALUES: usize = 8;

/// The state is complete and bounded, and its hash is the computed one.
pub open spec fn optimizer_ok(
    state: V4LocalOptimizerStateView,
    max_vector: u32,
    computed: ArtifactId,
) -> bool {
    &&& state.plan_generation > 0
    &&& state.model_generation > 0
    &&& state.optimizer_generation > 0
    &&& state.state_generation > 0
    &&& 0 < state.values.len() <= max_vector
    &&& bounded(state.values, VALUE_BOUND as int)
    &&& computed == state.state_hash
}

/// Whether a stored state is in order. `computed` is the hash of its content
/// and lineage.
pub fn valid_local_optimizer_state(
    state: &V4LocalOptimizerState,
    max_vector: u32,
    computed: ArtifactId,
) -> (r: bool)
    ensures
        r == optimizer_ok(state@, max_vector, computed),
{
    state.plan_generation > 0 && state.model_generation > 0 && state.optimizer_generation > 0
        && state.state_generation > 0 && state.values.len() > 0 && state.values.len() as u64
        <= max_vector as u64 && all_within(&state.values, VALUE_BOUND) && computed
        == state.state_hash
}

/// The state that an installation brings.
pub open spec fn installed_state(install: V4OptimizerStateInstallView) -> V4LocalOptimizerStateView {
    V4LocalOptimizerStateView {
        job_id: install.job_id,
        plan_generation: install.plan_generation,
        model_generation: install.model_generation,
        optimizer_generation: install.optimizer_generation,
        shard_id: install.shard_id,
        values: install.values,
        state_hash: install.state_hash,
        state_generation: install.state_generation,
        last_sequence: install.last_sequence,
    }
}

pub fn state_of_install(install: &V4OptimizerStateInstall) -> (r: V4LocalOptimizerState)
    ensures
        r@ == installed_state(install@),
{
    V4LocalOptimizerState {
        job_id: install.job_id,
        plan_generation: install.plan_generation,
        model_generation: install.model_generation,
        optimizer_generation: install.optimizer_generation,
        shard_id: install.shard_id,
        values: install.values.clone(),
        state_hash: install.state_hash,
        state_generation: install.state_generation,
        last_sequence: install.last_sequence,
    }
}

/// What the hash of an optimizer state is taken of: its values and its lineage, but
/// neither who sent it nor the number of the message.
#[derive(Debug, PartialEq, Eq)]
pub struct OptimizerContent {
    pub job_id: JobId,
    pub plan_generation: u64,
    pub model_generation: u64,
    pub optimizer_generation: u64,
    pub shard_id: u16,
    pub values: Vec<i64>,
    pub state_generation: u64,
    pub last_sequence: u64,
}

/// The contents of an [`OptimizerContent`].
#[verifier::ext_equal]
pub struct OptimizerContentView {
    pub job_id: JobId,
    pub plan_generation: u64,
    pub model_generation: u64,
    pub optimizer_generation: u64,
    pub shard_id: u16,
    pub values: Seq<i64>,
    pub state_generation: u64,
    pub last_sequence: u64,
}

impl View for OptimizerContent {
    type V = OptimizerContentView;

    open spec fn view(&self) -> OptimizerContentView {
        OptimizerContentView {
            job_id: self.job_id,
            plan_generation: self.plan_generation,
            model_generation: self.model_generation,
            optimizer_generation: self.optimizer_generation,
            shard_id: self.shard_id,
            values: self.values@,
            state_generation: self.state_generation,
            last_sequence: self.last_sequence,
        }
    }
}

/// What the hash of a state is taken of.
pub open spec fn hashed_content(state: V4LocalOptimizerStateView) -> OptimizerContentView {
    OptimizerContentView {
        job_id: state.job_id,
        plan_generation: state.plan_generation,
        model_generation: state.model_generation,
        optimizer_generation: state.optimizer_generation,
        shard_id: state.shard_id,
        values: state.values,
        state_generation: state.state_generation,
        last_sequence: state.last_sequence,
    }
}

/// What the hash of a stored state is taken of.
pub fn state_content(state: &V4LocalOptimizerState) -> (r: OptimizerContent)
    ensures
        r@ == hashed_content(state@),
{
    OptimizerContent {
        job_id: state.job_id,
        plan_generation: state.plan_generation,
        model_generation: state.model_generation,
        optimizer_generation: state.optimizer_generation,
        shard_id: state.shard_id,
        values: state.values.clone(),
        state_generation: state.state_generation,
        last_sequence: state.last_sequence,
    }
}

/// What the hash of an installation is taken of.
pub fn optimizer_content(install: &V4OptimizerStateInstall) -> (r: OptimizerContent)
    ensures
        r@ == hashed_content(installed_state(install@)),
{
    state_content(&state_of_install(install))
}

/// The hash of an optimizer state binds everything but its sender, the number of its
/// message and the hash itself: two installations have one content exactly when they
/// differ in nothing else.
pub proof fn law_content_leaves_out_the_transport(
    a: V4OptimizerStateInstallView,
    b: V4OptimizerStateInstallView,
)
    ensures
        hashed_content(installed_state(a)) == hashed_content(installed_state(b)) <==> a == (
        V4OptimizerStateInstallView {
            source: a.source,
            sequence: a.sequence,
            state_hash: a.state_hash,
            ..b
        }),
{
}

/// The stored values, carried into the lineage of an installation, before the
/// hash is set.
pub open spec fn promoted_state(
    existing: V4LocalOptimizerStateView,
    install: V4OptimizerStateInstallView,
) -> V4LocalOptimizerStateView {
    V4LocalOptimizerStateView {
        plan_generation: max_int(
            existing.plan_generation as int,
            install.plan_generation as int,
        ) as u64,
        optimizer_generation: max_int(
            existing.optimizer_generation as int,
            install.optimizer_generation as int,
        ) as u64,
        state_hash: unsigned_hash(),
        state_generation: max_int(
            existing.state_generation as int,
            install.state_generation as int,
        ) as u64,
        last_sequence: max_int(
            existing.last_sequence as int,
            install.last_sequence as int,
        ) as u64,
        ..existing
    }
}

/// Carry stored values into the lineage of an installation. The hash is left
/// unset.
pub fn promote_optimizer_state(
    existing: &V4LocalOptimizerState,
    install: &V4OptimizerStateInstall,
) -> (r: V4LocalOptimizerState)
    ensures
        r@ == promoted_state(existing@, install@),
{
    V4LocalOptimizerState {
        job_id: existing.job_id,
        plan_generation: max_u64(existing.plan_generation, install.plan_generation),
        model_generation: existing.model_generation,
        optimizer_generation: max_u64(existing.optimizer_generation, install.optimizer_generation),
        shard_id: existing.shard_id,
        values: existing.values.clone(),
        state_hash: ArtifactId::unsigned(),
        state_generation: max_u64(existing.state_generation, install.state_generation),
        last_sequence: max_u64(existing.last_sequence, install.last_sequence),
    }
}

/// A promotion keeps the values, and takes no generation and no sequence back.
pub proof fn law_promotion_keeps_values(
    existing: V4LocalOptimizerStateView,
    install: V4OptimizerStateInstallView,
)
    ensures
        ({
            let after = promoted_state(existing, install);
            &&& after.values == existing.values
            &&& after.model_generation == existing.model_generation
            &&& after.plan_generation >= existing.plan_generation
            &&& after.plan_generation >= install.plan_generation
            &&& after.optimizer_generation >= existing.optimizer_generation
            &&& after.state_generation >= existing.state_generation
            &&& after.last_sequence >= existing.last_sequence
        }),
{
}

/// The states belong to one model shard.
pub open spec fn same_lineage(
    existing: V4LocalOptimizerStateView,
    install: V4OptimizerStateInstallView,
) -> bool {
    existing.model_generation == install.model_generation && existing.values.len()
        == install.values.len()
}

/// Why a coordinator cannot install a state on itself.
#[derive(Clone, Copy, Debug, PartialEq, Eq, Structural)]
pub enum LocalOptimizerError {
    /// The stored state belongs to another model shard.
    Conflict,
    /// The installed state is not in order.
    Invalid,
}

/// The state to store when a coordinator installs one on itself, and whether
/// its hash has to be set.
pub fn install_local_optimizer_state(
    existing: Option<&V4LocalOptimizerState>,
    install: &V4OptimizerStateInstall,
    max_vector: u32,
    computed_install: ArtifactId,
) -> (r: Result<(V4LocalOptimizerState, bool), LocalOptimizerError>)
    ensures
        ({
            let conflict = existing matches Some(e) && !same_lineage(e@, install@);
            let promoted = existing matches Some(e) && e@.state_generation
                >= install@.state_generation;
            match r {
                Err(LocalOptimizerError::Conflict) => conflict,
                Err(LocalOptimizerError::Invalid) => !conflict && !promoted && !optimizer_ok(
                    installed_state(install@),
                    max_vector,
                    computed_install,
                ),
                Ok((state, unsigned)) => {
                    &&& !conflict
                    &&& unsigned == promoted
                    &&& if promoted {
                        state@ == promoted_state(existing->0@, install@)
                    } else {
                        state@ == installed_state(install@) && optimizer_ok(
                            state@,
                            max_vector,
                            computed_install,
                        )
                    }
                },
            }
        }),
{
    match existing {
        Some(existing) => {
            if existing.model_generation != install.model_generation || existing.values.len()
                != install.values.len() {
                return Err(LocalOptimizerError::Conflict);
            }
            if existing.state_generation >= install.state_generation {
                return Ok((promote_optimizer_state(existing, install), true));
            }
        },
        None => {},
    }
    let state = state_of_install(install);
    if !valid_local_optimizer_state(&state, max_vector, computed_install) {
        return Err(LocalOptimizerError::Invalid);
    }
    Ok((state, false))
}

/// The placement of the shard numbered `shard_id`.
pub open spec fn placed(shard_id: u16) -> spec_fn(V4OptimizerPlacementView) -> bool {
    |p: V4OptimizerPlacementView| p.shard_id == shard_id
}

pub fn find_placement(placements: &Vec<V4OptimizerPlacement>, shard_id: u16) -> (r: Option<
    &V4OptimizerPlacement,
>)
    ensures
        match r {
            Some(p) => find(views(placements@), placed(shard_id)) == Some(p@),
            None => find(views(placements@), placed(shard_id)) is None,
        },
{
    let ghost s = views(placements@);
    let mut i: usize = 0;
    while i < placements.len()
        invariant
            0 <= i <= placements@.len(),
            s == views(placements@),
            forall|j: int| 0 <= j < i ==> !placed(shard_id)(#[trigger] s[j]),
        decreases placements@.len() - i,
    {
        assert(s[i as int] == placements@[i as int]@);
        if placements[i].shard_id == shard_id {
            proof {
                lemma_find_at(s, placed(shard_id), i as int);
            }
            return Some(&placements[i]);
        }
        i += 1;
    }
    proof {
        lemma_find_at(s, placed(shard_id), i as int);
    }
    None
}

/// Why an installation is refused.
#[derive(Clone, Copy, Debug, PartialEq, Eq, Structural)]
pub enum OptimizerInstallError {
    Invalid,
    HashMismatch,
    NoPlan,
    NoGraph,
    NoPlacement,
    /// The graph does not authorize the state.
    Unauthorized,
    /// The state does not fit the stored model shard.
    ModelMismatch,
    /// The stored state belongs to another model shard.
    Conflict,
}

/// `node` holds the placed state.
pub open spec fn holds_placement(p: V4OptimizerPlacementView, node: NodeId) -> bool {
    p.owner == node || p.replicas.contains(node)
}

/// The graph and its plan authorize the installation.
pub open spec fn optimizer_authorized(
    plan: V4TrainingPlanView,
    plan_valid: bool,
    graph: V4ExecutionGraphView,
    p: V4OptimizerPlacementView,
    install: V4OptimizerStateInstallView,
    node: NodeId,
    peer: NodeId,
) -> bool {
    &&& plan.strategy is Hybrid
    &&& graph.graph_generation != 0
    &&& plan.plan_generation == install.plan_generation
    &&& plan.plan_hash == graph.plan_hash
    &&& plan_valid
    &&& p.generation == install.optimizer_generation
    &&& holds_placement(p, install.source)
    &&& holds_placement(p, node)
    &&& (peer == plan.proposer || peer == install.source || holds_placement(p, peer))
    &&& plan.workers.contains(node)
    &&& plan.workers.contains(peer)
    &&& plan.workers.contains(install.source)
}

/// What becomes of an authorized installation.
#[derive(Debug, PartialEq, Eq)]
pub enum OptimizerStep {
    /// The stored state stays, and counts as installed.
    Keep,
    /// The stored state stays; the installation is another one of it.
    Refuse,
    /// The stored values move into the new lineage; the hash is left unset.
    Promote(V4LocalOptimizerState),
    /// The installed state is stored.
    Store(V4LocalOptimizerState),
}

/// The installation has a newer lineage than the stored state.
pub open spec fn newer_lineage(
    existing: V4LocalOptimizerStateView,
    install: V4OptimizerStateInstallView,
) -> bool {
    install.plan_generation > existing.plan_generation || install.optimizer_generation
        > existing.optimizer_generation
}

/// The step that an authorized installation leads to.
pub open spec fn step_is(
    step: OptimizerStep,
    existing: Option<V4LocalOptimizerStateView>,
    install: V4OptimizerStateInstallView,
    max_vector: u32,
    computed_existing: ArtifactId,
) -> bool {
    match existing {
        None => step matches OptimizerStep::Store(s) && s@ == installed_state(install),
        Some(e) => if e.state_generation > install.state_generation {
            step is Keep
        } else if e.state_generation < install.state_generation {
            step matches OptimizerStep::Store(s) && s@ == installed_state(install)
        } else if e.state_hash == install.state_hash {
            step is Keep
        } else if newer_lineage(e, install) && optimizer_ok(e, max_vector, computed_existing) {
            step matches OptimizerStep::Promote(s) && s@ == promoted_state(e, install)
        } else {
            step is Refuse
        },
    }
}

/// Take in an installation.
pub fn receive_optimizer_state_install(
    node: NodeId,
    peer: NodeId,
    install: &V4OptimizerStateInstall,
    valid: bool,
    computed_install: ArtifactId,
    plan: Option<&V4TrainingPlan>,
    plan_valid: bool,
    graph: Option<&V4ExecutionGraph>,
    model_weights: Option<usize>,
    existing: Option<&V4LocalOptimizerState>,
    computed_existing: ArtifactId,
    max_vector: u32,
) -> (r: Result<OptimizerStep, OptimizerInstallError>)
    ensures
        ({
            let whole = valid && computed_install == install@.state_hash;
            let known = whole && plan is Some && graph is Some;
            let p = find(graph->0@.optimizer_shards, placed(install@.shard_id));
            let authorized = known && p is Some && optimizer_authorized(
                plan->0@,
                plan_valid,
                graph->0@,
                p->0,
                install@,
                node,
                peer,
            );
            let fits = model_weights matches Some(n) ==> n == install@.values.len();
            let conflict = existing matches Some(e) && !same_lineage(e@, install@);
            match r {
                Err(OptimizerInstallError::Invalid) => !valid,
                Err(OptimizerInstallError::HashMismatch) => valid && !whole,
                Err(OptimizerInstallError::NoPlan) => whole && plan is None,
                Err(OptimizerInstallError::NoGraph) => whole && plan is Some && graph is None,
                Err(OptimizerInstallError::NoPlacement) => known && p is None,
                Err(OptimizerInstallError::Unauthorized) => known && p is Some && !authorized,
                Err(OptimizerInstallError::ModelMismatch) => authorized && !fits,
                Err(OptimizerInstallError::Conflict) => authorized && fits && conflict,
                Ok(step) => authorized && fits && !conflict && step_is(
                    step,
                    match existing {
                        Some(e) => Some(e@),
                        None => None,
                    },
                    install@,
                    max_vector,
                    computed_existing,
                ),
            }
        }),
{
    if !valid {
        return Err(OptimizerInstallError::Invalid);
    }
    if computed_install != install.state_hash {
        return Err(OptimizerInstallError::HashMismatch);
    }
    let plan = match plan {
        Some(plan) => plan,
        None => {
            return Err(OptimizerInstallError::NoPlan);
        },
    };
    let graph = match graph {
        Some(graph) => graph,
        None => {
            return Err(OptimizerInstallError::NoGraph);
        },
    };
    let placement = match find_placement(&graph.optimizer_shards, install.shard_id) {
        Some(placement) => placement,
        None => {
            return Err(OptimizerInstallError::NoPlacement);
        },
    };
    let source_holds = placement.owner == install.source || contains_id(
        &placement.replicas,
        install.source,
    );
    let node_holds = placement.owner == node || contains_id(&placement.replicas, node);
    let sender_known = peer == plan.proposer || peer == install.source || placement.owner == peer
        || contains_id(&placement.replicas, peer);
    let hybrid = matches!(plan.strategy, V4ParallelismStrategy::Hybrid);
    if !hybrid || graph.graph_generation == 0 || plan.plan_generation != install.plan_generation
        || plan.plan_hash != graph.plan_hash || !plan_valid || placement.generation
        != install.optimizer_generation || !source_holds || !node_holds || !sender_known
        || !contains_id(&plan.workers, node) || !contains_id(&plan.workers, peer) || !contains_id(
        &plan.workers,
        install.source,
    ) {
        return Err(OptimizerInstallError::Unauthorized);
    }
    match model_weights {
        Some(n) => {
            if n != install.values.len() {
                return Err(OptimizerInstallError::ModelMismatch);
            }
        },
        None => {},
    }
    match existing {
        None => Ok(OptimizerStep::Store(state_of_install(install))),
        Some(current) => {
            if current.model_generation != install.model_generation || current.values.len()
                != install.values.len() {
                Err(OptimizerInstallError::Conflict)
            } else if current.state_generation > install.state_generation {
                Ok(OptimizerStep::Keep)
            } else if current.state_generation < install.state_generation {
                Ok(OptimizerStep::Store(state_of_install(install)))
            } else if current.state_hash == install.state_hash {
                Ok(OptimizerStep::Keep)
            } else if (install.plan_generation > current.plan_generation
                || install.optimizer_generation > current.optimizer_generation)
                && valid_local_optimizer_state(current, max_vector, computed_existing) {
                Ok(OptimizerStep::Promote(promote_optimizer_state(current, install)))
            } else {
                Ok(OptimizerStep::Refuse)
            }
        },
    }
}

/// The answer to an installation; `stored_hash` is the hash of the state that
/// is held now.
pub fn optimizer_ack(install: &V4OptimizerStateInstall, step: &OptimizerStep, stored_hash: ArtifactId) -> (r:
    V4OptimizerStateAck)
    ensures
        r == (V4OptimizerStateAck {
            job_id: install@.job_id,
            plan_generation: install@.plan_generation,
            optimizer_generation: install@.optimizer_generation,
            shard_id: install@.shard_id,
            state_hash: stored_hash,
            state_generation: install@.state_generation,
            accepted: !(step is Refuse),
        }),
{
    let refused = matches!(step, OptimizerStep::Refuse);
    V4OptimizerStateAck {
        job_id: install.job_id,
        plan_generation: install.plan_generation,
        optimizer_generation: install.optimizer_generation,
        shard_id: install.shard_id,
        state_hash: stored_hash,
        state_generation: install.state_generation,
        accepted: !refused,
    }
}

/// The state generation that a node holds never goes back, and values of the
/// same generation are never replaced.
pub proof fn law_optimizer_state_moves_forward(
    step: OptimizerStep,
    existing: V4LocalOptimizerStateView,
    install: V4OptimizerStateInstallView,
    max_vector: u32,
    computed_existing: ArtifactId,
)
    requires
        step_is(step, Some(existing), install, max_vector, computed_existing),
    ensures
        step matches OptimizerStep::Store(s) ==> s@.state_generation > existing.state_generation,
        step matches OptimizerStep::Promote(s) ==> s@.state_generation
            == existing.state_generation && s@.values == existing.values,
{
}

/// Why an update is refused.
#[derive(Clone, Copy, Debug, PartialEq, Eq, Structural)]
pub enum OptimizerUpdateError {
    /// The graph is not the one of the plan in force.
    Unbound,
    NoPlacement,
    /// Only the owner of a shard updates its optimizer state.
    NotOwner,
    NoModelShard,
    LengthMismatch,
    /// The sequence was passed already.
    Stale,
}

/// The values after a gradient was added to each.
pub open spec fn accumulated(values: Seq<i64>, gradients: Seq<i64>) -> Seq<i64> {
    Seq::new(
        values.len(),
        |i: int|
            clamp_int(
                sat_i64(values[i] + gradients[i]),
                -(VALUE_BOUND as int),
                VALUE_BOUND as int,
            ) as i64,
    )
}

/// What stands against an update.
pub open spec fn update_refused(
    node: NodeId,
    graph: V4ExecutionGraphView,
    active_plan: ArtifactId,
    shard_id: u16,
    gradients: int,
    sequence: u64,
    existing: Option<V4LocalOptimizerStateView>,
) -> Option<OptimizerUpdateError> {
    let p = find(graph.optimizer_shards, placed(shard_id));
    if graph.plan_hash != active_plan {
        Some(OptimizerUpdateError::Unbound)
    } else if p is None {
        Some(OptimizerUpdateError::NoPlacement)
    } else if p->0.owner != node {
        Some(OptimizerUpdateError::NotOwner)
    } else if find(graph.shards, numbered(shard_id)) is None {
        Some(OptimizerUpdateError::NoModelShard)
    } else if existing is Some && existing->0.values.len() != gradients {
        Some(OptimizerUpdateError::LengthMismatch)
    } else if existing is Some && sequence <= existing->0.last_sequence {
        Some(OptimizerUpdateError::Stale)
    } else {
        None
    }
}

/// The state after an update, as it goes to the replicas, before its hash is
/// set.
pub open spec fn updated_state(
    node: NodeId,
    graph: V4ExecutionGraphView,
    plan_generation: u64,
    shard_id: u16,
    gradients: Seq<i64>,
    sequence: u64,
    existing: Option<V4LocalOptimizerStateView>,
) -> V4OptimizerStateInstallView {
    let before = match existing {
        Some(e) => e.values,
        None => zeros(gradients.len()),
    };
    V4OptimizerStateInstallView {
        job_id: graph.job_id,
        plan_generation,
        model_generation: find(graph.shards, numbered(shard_id))->0.model_generation,
        optimizer_generation: find(graph.optimizer_shards, placed(shard_id))->0.generation,
        shard_id,
        values: accumulated(before, gradients),
        state_hash: unsigned_hash(),
        state_generation: sat_u64(
            1 + match existing {
                Some(e) => e.state_generation,
                None => 1,
            },
        ) as u64,
        sequence,
        last_sequence: sequence,
        source: node,
    }
}

/// The update of an optimizer state by the owner of its shard, and the replicas
/// that get it. The hash is left unset.
pub fn update_optimizer_state(
    node: NodeId,
    graph: &V4ExecutionGraph,
    active_plan: ArtifactId,
    plan_generation: u64,
    shard_id: u16,
    gradients: &Vec<i64>,
    sequence: u64,
    existing: Option<&V4LocalOptimizerState>,
) -> (r: Result<(V4OptimizerStateInstall, Vec<NodeId>), OptimizerUpdateError>)
    ensures
        ({
            let before = match existing {
                Some(e) => Some(e@),
                None => None,
            };
            let refused = update_refused(
                node,
                graph@,
                active_plan,
                shard_id,
                gradients@.len() as int,
                sequence,
                before,
            );
            match r {
                Err(e) => refused == Some(e),
                Ok((install, replicas)) => {
                    &&& refused is None
                    &&& install@ == updated_state(
                        node,
                        graph@,
                        plan_generation,
                        shard_id,
                        gradients@,
                        sequence,
                        before,
                    )
                    &&& replicas@ == find(
                        graph@.optimizer_shards,
                        placed(shard_id),
                    )->0.replicas.filter(other_than(node))
                },
            }
        }),
{
    if graph.plan_hash != active_plan {
        return Err(OptimizerUpdateError::Unbound);
    }
    let placement = match find_placement(&graph.optimizer_shards, shard_id) {
        Some(placement) => placement,
        None => {
            return Err(OptimizerUpdateError::NoPlacement);
        },
    };
    if placement.owner != node {
        return Err(OptimizerUpdateError::NotOwner);
    }
    let model_generation: u64 = match find_shard(&graph.shards, shard_id) {
        Some(shard) => shard.model_generation,
        None => {
            return Err(OptimizerUpdateError::NoModelShard);
        },
    };
    let (before, generation) = match existing {
        Some(state) => {
            if state.values.len() != gradients.len() {
                return Err(OptimizerUpdateError::LengthMismatch);
            }
            if sequence <= state.last_sequence {
                return Err(OptimizerUpdateError::Stale);
            }
            (state.values.clone(), state.state_generation)
        },
        None => (zero_values(gradients.len()), 1u64),
    };
    let ghost after = accumulated(before@, gradients@);
    let mut values: Vec<i64> = Vec::new();
    let mut i: usize = 0;
    while i < before.len()
        invariant
            0 <= i <= before@.len(),
            before@.len() == gradients@.len(),
            after == accumulated(before@, gradients@),
            values@ == after.take(i as int),
        decreases before@.len() - i,
    {
        values.push(clamp_i64(sat_add_i64(before[i], gradients[i]), -VALUE_BOUND, VALUE_BOUND));
        assert(values@ =~= after.take(i as int + 1));
        i += 1;
    }
    assert(values@ =~= after);
    let install = V4OptimizerStateInstall {
        job_id: graph.job_id,
        plan_generation,
        model_generation,
        optimizer_generation: placement.generation,
        shard_id,
        values,
        state_hash: ArtifactId::unsigned(),
        state_generation: generation.saturating_add(1),
        sequence,
        last_sequence: sequence,
        source: node,
    };
    Ok((install, filter_other_than(&placement.replicas, node)))
}

/// An update comes from the owner alone, keeps every value in bounds, and moves
/// the generation and the sequence on.
pub proof fn law_optimizer_update_advances(
    node: NodeId,
    graph: V4ExecutionGraphView,
    active_plan: ArtifactId,
    plan_generation: u64,
    shard_id: u16,
    gradients: Seq<i64>,
    sequence: u64,
    existing: V4LocalOptimizerStateView,
)
    requires
        update_refused(
            node,
            graph,
            active_plan,
            shard_id,
            gradients.len() as int,
            sequence,
            Some(existing),
        ) is None,
        existing.state_generation < u64::MAX,
    ensures
        ({
            let after = updated_state(
                node,
                graph,
                plan_generation,
                shard_id,
                gradients,
                sequence,
                Some(existing),
            );
            &&& find(graph.optimizer_shards, placed(shard_id))->0.owner == node
            &&& bounded(after.values, VALUE_BOUND as int)
            &&& after.values.len() == existing.values.len()
            &&& after.state_generation == existing.state_generation + 1
            &&& after.last_sequence > existing.last_sequence
        }),
{
}

/// Whether an update reached a replica, where the placement has any.
pub fn update_is_replicated(placement: &V4OptimizerPlacement, reached: usize) -> (r: bool)
    ensures
        r == (placement@.replicas.len() == 0 || reached > 0),
{
    placement.replicas.len() == 0 || reached > 0
}

/// The first optimizer state of a placement, before its hash is set.
pub open spec fn first_state(
    graph: V4ExecutionGraphView,
    plan: V4TrainingPlanView,
    p: V4OptimizerPlacementView,
    weights: int,
) -> V4OptimizerStateInstallView {
    V4OptimizerStateInstallView {
        job_id: graph.job_id,
        plan_generation: plan.plan_generation,
        model_generation: match find(graph.shards, numbered(p.shard_id)) {
            Some(s) => s.model_generation,
            None => 1,
        },
        optimizer_generation: p.generation,
        shard_id: p.shard_id,
        values: zeros(weights as nat),
        state_hash: unsigned_hash(),
        state_generation: 1,
        sequence: 1,
        last_sequence: 0,
        source: p.owner,
    }
}

/// The first optimizer state of a placement: a zero for every weight of the
/// shard that is stored here. The hash is left unset.
pub fn integrated_optimizer_install(
    graph: &V4ExecutionGraph,
    plan: &V4TrainingPlan,
    placement: &V4OptimizerPlacement,
    model_weights: Option<usize>,
) -> (r: V4OptimizerStateInstall)
    ensures
        r@ == first_state(
            graph@,
            plan@,
            placement@,
            match model_weights {
                Some(n) => n as int,
                None => ASSUMED_VALUES as int,
            },
        ),
{
    let weights: usize = match model_weights {
        Some(n) => n,
        None => ASSUMED_VALUES,
    };
    let model_generation: u64 = match find_shard(&graph.shards, placement.shard_id) {
        Some(shard) => shard.model_generation,
        None => 1,
    };
    V4OptimizerStateInstall {
        job_id: graph.job_id,
        plan_generation: plan.plan_generation,
        model_generation,
        optimizer_generation: placement.generation,
        shard_id: placement.shard_id,
        values: zero_values(weights),
        state_hash: ArtifactId::unsigned(),
        state_generation: 1,
        sequence: 1,
        last_sequence: 0,
        source: placement.owner,
    }
}

/// An update adds its gradient to every value: exactly where the sum stays within a
/// thousand million, and held at that bound, with the sum's sign, beyond it. Two
/// updates in a row add both gradients as long as nothing is held.
pub proof fn law_gradients_accumulate(values: Seq<i64>, a: Seq<i64>, b: Seq<i64>, i: int)
    requires
        0 <= i < values.len(),
    ensures
        ({
            let sum = values[i] + a[i];
            let after = accumulated(values, a);
            &&& after.len() == values.len()
            &&& -1_000_000_000 <= sum <= 1_000_000_000 ==> after[i] == sum
            &&& sum > 1_000_000_000 ==> after[i] == 1_000_000_000
            &&& sum < -1_000_000_000 ==> after[i] == -1_000_000_000
            &&& -1_000_000_000 <= sum <= 1_000_000_000 && -1_000_000_000 <= sum + b[i]
                <= 1_000_000_000 ==> accumulated(after, b)[i] == values[i] + a[i] + b[i]
        }),
{
}

/// An update is made of the stored values, or of zeros where nothing is stored: each of
/// them moves by its gradient. The new state is one generation on, belongs to the job,
/// shard and placement, and carries the sequence and the node that made it.
pub proof fn law_update_moves_every_value(
    node: NodeId,
    graph: V4ExecutionGraphView,
    plan_generation: u64,
    shard_id: u16,
    gradients: Seq<i64>,
    sequence: u64,
    existing: Option<V4LocalOptimizerStateView>,
    i: int,
)
    requires
        0 <= i < gradients.len(),
        existing matches Some(e) ==> e.values.len() == gradients.len(),
    ensures
        ({
            let after = updated_state(
                node,
                graph,
                plan_generation,
                shard_id,
                gradients,
                sequence,
                existing,
            );
            let before = match existing {
                Some(e) => e.values[i] as int,
                None => 0,
            };
            let sum = before + gradients[i];
            &&& after.values.len() == gradients.len()
            &&& -1_000_000_000 <= sum <= 1_000_000_000 ==> after.values[i] == sum
            &&& sum > 1_000_000_000 ==> after.values[i] == 1_000_000_000
            &&& sum < -1_000_000_000 ==> after.values[i] == -1_000_000_000
            &&& existing is Some && existing->0.state_generation < u64::MAX
                ==> after.state_generation == existing->0.state_generation + 1
            &&& existing is None ==> after.state_generation == 2
            &&& after.job_id == graph.job_id
            &&& after.plan_generation == plan_generation
            &&& after.shard_id == shard_id
            &&& after.sequence == sequence
            &&& after.last_sequence == sequence
            &&& after.source == node
        }),
{
}

/// An update is made in the lineage of the model shard and of its placement.
pub proof fn law_update_keeps_the_lineage(
    node: NodeId,
    graph: V4ExecutionGraphView,
    active_plan: ArtifactId,
    plan_generation: u64,
    shard_id: u16,
    gradients: Seq<i64>,
    sequence: u64,
    existing: Option<V4LocalOptimizerStateView>,
)
    requires
        update_refused(
            node,
            graph,
            active_plan,
            shard_id,
            gradients.len() as int,
            sequence,
            existing,
        ) is None,
    ensures
        graph.plan_hash == active_plan,
        existing matches Some(e) ==> e.values.len() == gradients.len() && sequence
            > e.last_sequence,
        exists|k: int|
            0 <= k < graph.optimizer_shards.len() && (#[trigger] graph.optimizer_shards[k]).shard_id
                == shard_id && graph.optimizer_shards[k].owner == node
                && graph.optimizer_shards[k].generation == updated_state(
                node,
                graph,
                plan_generation,
                shard_id,
                gradients,
                sequence,
                existing,
            ).optimizer_generation,
        exists|k: int|
            0 <= k < graph.shards.len() && (#[trigger] graph.shards[k]).shard_id == shard_id
                && graph.shards[k].model_generation == updated_state(
                node,
                graph,
                plan_generation,
                shard_id,
                gradients,
                sequence,
                existing,
            ).model_generation,
{
    crate::base::search::lemma_find_sound(graph.optimizer_shards, placed(shard_id));
    crate::base::search::lemma_find_sound(graph.shards, numbered(shard_id));
    let p = find(graph.optimizer_shards, placed(shard_id))->0;
    let k = graph.optimizer_shards.index_of(p);
    assert(graph.optimizer_shards[k].shard_id == shard_id);
    let s = find(graph.shards, numbered(shard_id))->0;
    let m = graph.shards.index_of(s);
    assert(graph.shards[m].shard_id == shard_id);
}

/// The owner of a placed shard may update it with gradients of the right number and a
/// later sequence.
pub proof fn law_owner_may_update(
    node: NodeId,
    graph: V4ExecutionGraphView,
    shard_id: u16,
    gradients: int,
    sequence: u64,
    existing: Option<V4LocalOptimizerStateView>,
    k: int,
    m: int,
)
    requires
        0 <= k < graph.optimizer_shards.len(),
        graph.optimizer_shards[k].shard_id == shard_id,
        graph.optimizer_shards[k].owner == node,
        forall|j: int|
            0 <= j < k ==> (#[trigger] graph.optimizer_shards[j]).shard_id != shard_id,
        0 <= m < graph.shards.len(),
        graph.shards[m].shard_id == shard_id,
        existing matches Some(e) ==> e.values.len() == gradients && sequence > e.last_sequence,
    ensures
        update_refused(
            node,
            graph,
            graph.plan_hash,
            shard_id,
            gradients,
            sequence,
            existing,
        ) is None,
{
    lemma_find_at(graph.optimizer_shards, placed(shard_id), k);
    crate::base::search::lemma_find_sound(graph.shards, numbered(shard_id));
    if find(graph.shards, numbered(shard_id)) is None {
        assert(!numbered(shard_id)(graph.shards[m]));
    }
}

/// The first state of a placement is all zeros, one for each weight, in the lineage of
/// its placement and from its owner.
pub proof fn law_first_state_is_zero(
    graph: V4ExecutionGraphView,
    plan: V4TrainingPlanView,
    p: V4OptimizerPlacementView,
    weights: int,
)
    requires
        weights >= 0,
    ensures
        ({
            let s = first_state(graph, plan, p, weights);
            &&& s.values.len() == weights
            &&& forall|i: int| 0 <= i < weights ==> #[trigger] s.values[i] == 0
            &&& s.job_id == graph.job_id
            &&& s.plan_generation == plan.plan_generation
            &&& s.optimizer_generation == p.generation
            &&& s.shard_id == p.shard_id
            &&& s.source == p.owner
            &&& s.state_generation == 1
            &&& s.sequence == 1
            &&& s.last_sequence == 0
        }),
{
}

/// An installed state is the one that was sent; a promoted one has the stored values
/// and the later of each generation and sequence.
pub proof fn law_states_are_those_sent_or_stored(
    existing: V4LocalOptimizerStateView,
    install: V4OptimizerStateInstallView,
)
    ensures
        ({
            let s = installed_state(install);
            &&& s.values == install.values
            &&& s.job_id == install.job_id
            &&& s.shard_id == install.shard_id
            &&& s.plan_generation == install.plan_generation
            &&& s.model_generation == install.model_generation
            &&& s.optimizer_generation == install.optimizer_generation
            &&& s.state_hash == install.state_hash
            &&& s.state_generation == install.state_generation
            &&& s.last_sequence == install.last_sequence
        }),
        ({
            let s = promoted_state(existing, install);
            &&& s.job_id == existing.job_id
            &&& s.shard_id == existing.shard_id
            &&& s.plan_generation == existing.plan_generation || s.plan_generation
                == install.plan_generation
            &&& s.optimizer_generation == existing.optimizer_generation || s.optimizer_generation
                == install.optimizer_generation
            &&& s.optimizer_generation >= install.optimizer_generation
            &&& s.state_generation == existing.state_generation || s.state_generation
                == install.state_generation
            &&& s.state_generation >= install.state_generation
            &&& s.last_sequence == existing.last_sequence || s.last_sequence
                == install.last_sequence
            &&& s.last_sequence >= install.last_sequence
        }),
{
}

/// What becomes of an authorized installation: a later state is stored, an earlier or
/// equal one is not, and another state of the same generation only promotes what is
/// stored into a newer lineage.
pub proof fn law_installations_follow_generations(
    step: OptimizerStep,
    existing: V4LocalOptimizerStateView,
    install: V4OptimizerStateInstallView,
    max_vector: u32,
    computed: ArtifactId,
)
    requires
        step_is(step, Some(existing), install, max_vector, computed),
    ensures
        install.state_generation > existing.state_generation <==> step is Store,
        install.state_generation < existing.state_generation ==> step is Keep,
        install.state_generation == existing.state_generation && install.state_hash
            == existing.state_hash ==> step is Keep,
        step is Promote ==> install.plan_generation > existing.plan_generation
            || install.optimizer_generation > existing.optimizer_generation,
        step matches OptimizerStep::Store(s) ==> s@.values == install.values,
{
}

/// A state is in order exactly when its generations are set, its values are some, not
/// too many and within a thousand million, and its hash is the computed one.
pub proof fn law_state_in_order(
    state: V4LocalOptimizerStateView,
    max_vector: u32,
    computed: ArtifactId,
)
    ensures
        optimizer_ok(state, max_vector, computed) ==> {
            &&& 0 < state.values.len() <= max_vector
            &&& state.state_hash == computed
            &&& state.state_generation > 0
            &&& forall|i: int|
                0 <= i < state.values.len() ==> -1_000_000_000 <= #[trigger] state.values[i]
                    <= 1_000_000_000
        },
        state.plan_generation > 0 && state.model_generation > 0 && state.optimizer_generation > 0
            && state.state_generation > 0 && 0 < state.values.len() <= max_vector
            && state.state_hash == computed && (forall|i: int|
            0 <= i < state.values.len() ==> -1_000_000_000 <= #[trigger] state.values[i]
                <= 1_000_000_000) ==> optimizer_ok(state, max_vector, computed),
{
    if optimizer_ok(state, max_vector, computed) {
        assert forall|i: int| 0 <= i < state.values.len() implies -1_000_000_000
            <= #[trigger] state.values[i] <= 1_000_000_000 by {
            crate::base::values::law_bounded_values_lie_between(state.values, 1_000_000_000, i);
        }
    }
}

/// An installation is authorized only among the holders of its placement, in the
/// active plan of the graph; the owner's installation at a replica is.
pub proof fn law_optimizer_states_move_among_holders(
    plan: V4TrainingPlanView,
    plan_valid: bool,
    graph: V4ExecutionGraphView,
    p: V4OptimizerPlacementView,
    install: V4OptimizerStateInstallView,
    node: NodeId,
    peer: NodeId,
)
    ensures
        optimizer_authorized(plan, plan_valid, graph, p, install, node, peer) ==> {
            &&& plan_valid
            &&& plan.plan_generation == install.plan_generation
            &&& plan.plan_hash == graph.plan_hash
            &&& p.generation == install.optimizer_generation
            &&& p.owner == install.source || p.replicas.contains(install.source)
            &&& p.owner == node || p.replicas.contains(node)
            &&& plan.workers.contains(node) && plan.workers.contains(peer)
        },
        plan_valid && plan.strategy is Hybrid && graph.graph_generation != 0
            && plan.plan_generation == install.plan_generation && plan.plan_hash
            == graph.plan_hash && p.generation == install.optimizer_generation && p.owner == peer
            && install.source == peer && p.replicas.contains(node) && plan.workers.contains(node)
            && plan.workers.contains(peer) ==> optimizer_authorized(
            plan,
            plan_valid,
            graph,
            p,
            install,
            node,
            peer,
        ),
{
}

/// The hash of a state is taken of all that it holds: two states with the same content have
/// the same values, generations and sequence, of the same shard of the same job.
pub proof fn law_hashed_content_is_complete(
    a: V4LocalOptimizerStateView,
    b: V4LocalOptimizerStateView,
)
    ensures
        hashed_content(a).values == a.values,
        hashed_content(a) == hashed_content(b) <==> a.values == b.values && a.job_id == b.job_id
            && a.shard_id == b.shard_id && a.plan_generation == b.plan_generation
            && a.model_generation == b.model_generation && a.optimizer_generation
            == b.optimizer_generation && a.state_generation == b.state_generation
            && a.last_sequence == b.last_sequence,
{
}

/// The first state of a placement is of the model generation of its shard.
pub proof fn law_first_state_follows_the_model(
    graph: V4ExecutionGraphView,
    plan: V4TrainingPlanView,
    p: V4OptimizerPlacementView,
    weights: int,
    i: int,
)
    requires
        0 <= i < graph.shards.len(),
        graph.shards[i].shard_id == p.shard_id,
        forall|j: int| 0 <= j < i ==> (#[trigger] graph.shards[j]).shard_id != p.shard_id,
    ensures
        first_state(graph, plan, p, weights).model_generation == graph.shards[i].model_generation,
{
    crate::base::search::lemma_find_at(graph.shards, numbered(p.shard_id), i);
}

} // verus!
