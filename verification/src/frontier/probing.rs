//! Liveness of the members of an integrated job: probe rounds, and what the
//! answers decide about takeover, failure and admission.

use crate::base::ids::{ArtifactId, JobId, NodeId};
use crate::base::members::{
    ascending, contains_id, filter_inside, filter_other_than, filter_outside, least, least_id,
    lemma_least, NodeSet,
};
use crate::base::search::{inside, lemma_filter_contains, opt_view, other_than, outside, views};
use crate::frontier::control::{V4IntegratedProbe, V4IntegratedProbeAck};
use crate::frontier::types::{V4ExecutionGraph, V4ExecutionGraphView, V4IntegratedPhase};
use crate::reference::sgd::{quorum, quorum_of};
use vstd::prelude::*;

verus! {

/// The consecutive rounds without the coordinator after which a member may
/// replace it.
pub const TAKEOVER_MISSES_REQUIRED: u8 = 3;

/// The rounds that a member has to miss to count as unavailable.
pub const UNAVAILABLE_PROBE_ROUNDS: u8 = 2;

/// The time between two looks for a lost coordinator.
pub const TAKEOVER_PROBE_INTERVAL_MS: u64 = 2_000;

/// A running probe round.
#[derive(Debug)]
pub struct ProbeRound {
    pub request_id: JobId,
    pub job_id: JobId,
    pub graph_generation: u64,
    /// The members that were asked and have not answered.
    pub pending: NodeSet,
    /// The members that answered.
    pub confirmed: NodeSet,
}

/// The contents of a [`ProbeRound`].
#[verifier::ext_equal]
pub struct ProbeRoundView {
    pub request_id: JobId,
    pub job_id: JobId,
    pub graph_generation: u64,
    pub pending: Set<NodeId>,
    pub confirmed: Set<NodeId>,
}

impl View for ProbeRound {
    type V = ProbeRoundView;

    open spec fn view(&self) -> ProbeRoundView {
        ProbeRoundView {
            request_id: self.request_id,
            job_id: self.job_id,
            graph_generation: self.graph_generation,
            pending: self.pending@,
            confirmed: self.confirmed@,
        }
    }
}

/// A round in which every other member is asked.
pub open spec fn fresh_round(
    graph: V4ExecutionGraphView,
    node: NodeId,
    request_id: JobId,
) -> ProbeRoundView {
    ProbeRoundView {
        request_id,
        job_id: graph.job_id,
        graph_generation: graph.graph_generation,
        pending: graph.workers.filter(other_than(node)).to_set(),
        confirmed: Set::empty(),
    }
}

/// The question of a probe round.
pub open spec fn probe_question(
    graph: V4ExecutionGraphView,
    node: NodeId,
    state_hash: ArtifactId,
    request_id: JobId,
) -> V4IntegratedProbe {
    V4IntegratedProbe {
        request_id,
        job_id: graph.job_id,
        graph_generation: graph.graph_generation,
        graph_hash: graph.graph_hash,
        state_hash,
        requester: node,
    }
}

/// Where a probe round stands.
#[derive(Clone, Copy, Debug, PartialEq, Eq, Structural)]
pub enum ProbeStep {
    /// The question is on its way to the member at this place.
    Asking { place: usize },
    /// The members have to answer.
    Answers,
    Over,
}

/// A probe round as it is run.
#[derive(Debug)]
pub struct ProbeRun {
    pub round: ProbeRound,
    /// The members in the order in which they are asked.
    pub members: Vec<NodeId>,
    pub step: ProbeStep,
}

/// The contents of a [`ProbeRun`].
#[verifier::ext_equal]
pub struct ProbeRunView {
    pub round: ProbeRoundView,
    pub members: Seq<NodeId>,
    pub step: ProbeStep,
}

impl View for ProbeRun {
    type V = ProbeRunView;

    open spec fn view(&self) -> ProbeRunView {
        ProbeRunView { round: self.round@, members: self.members@, step: self.step }
    }
}

/// What comes to a probe round.
#[derive(Clone, Copy, Debug, PartialEq, Eq, Structural)]
pub enum ProbeEvent {
    /// Whether the question reached the member.
    Asked(bool),
    /// An answer came from a peer.
    Ack(NodeId, V4IntegratedProbeAck),
    OtherMessage,
    /// The time for answers is over, or none can come any more.
    NoMessage,
}

/// What a probe round does next.
#[derive(Clone, Copy, Debug, PartialEq, Eq, Structural)]
pub enum ProbeAction {
    /// Send the question to a member.
    Ask(NodeId),
    /// Wait for a message.
    Wait,
    /// The members that answered are known.
    Done,
    /// The event was not awaited.
    Ignore,
}

/// The round ends, or members are awaited.
pub open spec fn probe_awaited(run: ProbeRunView) -> (ProbeRunView, ProbeAction) {
    if run.round.pending == Set::<NodeId>::empty() {
        (ProbeRunView { step: ProbeStep::Over, ..run }, ProbeAction::Done)
    } else {
        (ProbeRunView { step: ProbeStep::Answers, ..run }, ProbeAction::Wait)
    }
}

/// The member at `place` is asked.
pub open spec fn probe_asked(run: ProbeRunView, place: int) -> (ProbeRunView, ProbeAction) {
    if place < run.members.len() {
        (
            ProbeRunView { step: ProbeStep::Asking { place: place as usize }, ..run },
            ProbeAction::Ask(run.members[place]),
        )
    } else {
        probe_awaited(run)
    }
}

/// A probe round starts.
pub open spec fn fresh_probe(
    graph: V4ExecutionGraphView,
    node: NodeId,
    request_id: JobId,
) -> (ProbeRunView, ProbeAction) {
    let round = fresh_round(graph, node, request_id);
    probe_asked(
        ProbeRunView { round, members: ascending(round.pending), step: ProbeStep::Over },
        0,
    )
}

/// The next step of a probe round. A member that cannot be asked is not awaited.
pub open spec fn probe_stepped(run: ProbeRunView, event: ProbeEvent) -> (ProbeRunView, ProbeAction) {
    match (run.step, event) {
        (ProbeStep::Asking { place }, ProbeEvent::Asked(reached)) => if place
            >= run.members.len() {
            (run, ProbeAction::Ignore)
        } else if reached {
            probe_asked(run, place + 1)
        } else {
            probe_asked(
                ProbeRunView {
                    round: ProbeRoundView {
                        pending: run.round.pending.remove(run.members[place as int]),
                        ..run.round
                    },
                    ..run
                },
                place + 1,
            )
        },
        (ProbeStep::Answers, ProbeEvent::Ack(peer, ack)) => probe_awaited(
            ProbeRunView { round: after_answer(run.round, peer, ack), ..run },
        ),
        (ProbeStep::Answers, ProbeEvent::OtherMessage) => (run, ProbeAction::Wait),
        (ProbeStep::Answers, ProbeEvent::NoMessage) => (
            ProbeRunView { step: ProbeStep::Over, ..run },
            ProbeAction::Done,
        ),
        _ => (run, ProbeAction::Ignore),
    }
}

fn await_probe(run: &mut ProbeRun) -> (r: ProbeAction)
    ensures
        (final(run)@, r) == probe_awaited(old(run)@),
{
    if run.round.pending.is_empty() {
        run.step = ProbeStep::Over;
        ProbeAction::Done
    } else {
        run.step = ProbeStep::Answers;
        ProbeAction::Wait
    }
}

fn ask_member(run: &mut ProbeRun, place: usize) -> (r: ProbeAction)
    ensures
        (final(run)@, r) == probe_asked(old(run)@, place as int),
{
    if place < run.members.len() {
        run.step = ProbeStep::Asking { place };
        ProbeAction::Ask(run.members[place])
    } else {
        await_probe(run)
    }
}

/// Begin a probe round: its question, the round, and the first step.
pub fn begin_probe(
    node: NodeId,
    graph: &V4ExecutionGraph,
    state_hash: ArtifactId,
    request_id: JobId,
) -> (r: (V4IntegratedProbe, ProbeRun, ProbeAction))
    ensures
        r.0 == probe_question(graph@, node, state_hash, request_id),
        (r.1@, r.2) == fresh_probe(graph@, node, request_id),
{
    let probe = V4IntegratedProbe {
        request_id,
        job_id: graph.job_id,
        graph_generation: graph.graph_generation,
        graph_hash: graph.graph_hash,
        state_hash,
        requester: node,
    };
    let others = filter_other_than(&graph.workers, node);
    let pending = NodeSet::from_ids(&others);
    let members = pending.to_sorted();
    let round = ProbeRound {
        request_id,
        job_id: graph.job_id,
        graph_generation: graph.graph_generation,
        pending,
        confirmed: NodeSet::new(),
    };
    let mut run = ProbeRun { round, members, step: ProbeStep::Over };
    let action = ask_member(&mut run, 0);
    (probe, run, action)
}

/// Take a probe round one step on.
pub fn probe_integrated_members(run: &mut ProbeRun, event: ProbeEvent) -> (r: ProbeAction)
    ensures
        (final(run)@, r) == probe_stepped(old(run)@, event),
{
    match (run.step, event) {
        (ProbeStep::Asking { place }, ProbeEvent::Asked(reached)) => {
            if place >= run.members.len() {
                ProbeAction::Ignore
            } else {
                if !reached {
                    let member = run.members[place];
                    run.round.pending.remove(member);
                }
                ask_member(run, place + 1)
            }
        },
        (ProbeStep::Answers, ProbeEvent::Ack(peer, ack)) => {
            note_probe_ack(&mut run.round, peer, &ack);
            await_probe(run)
        },
        (ProbeStep::Answers, ProbeEvent::OtherMessage) => ProbeAction::Wait,
        (ProbeStep::Answers, ProbeEvent::NoMessage) => {
            run.step = ProbeStep::Over;
            ProbeAction::Done
        },
        _ => ProbeAction::Ignore,
    }
}

/// The answer belongs to the round, and the sender was asked.
pub open spec fn answers_round(
    round: ProbeRoundView,
    peer: NodeId,
    ack: V4IntegratedProbeAck,
) -> bool {
    ack.request_id == round.request_id && ack.job_id == round.job_id && ack.graph_generation
        == round.graph_generation && ack.responder == peer && ack.accepted
        && round.pending.contains(peer)
}

/// The round after an answer.
pub open spec fn after_answer(
    round: ProbeRoundView,
    peer: NodeId,
    ack: V4IntegratedProbeAck,
) -> ProbeRoundView {
    if answers_round(round, peer, ack) {
        ProbeRoundView {
            pending: round.pending.remove(peer),
            confirmed: round.confirmed.insert(peer),
            ..round
        }
    } else {
        round
    }
}

fn note_probe_ack(round: &mut ProbeRound, peer: NodeId, ack: &V4IntegratedProbeAck)
    ensures
        final(round)@ == after_answer(old(round)@, peer, *ack),
{
    if ack.request_id == round.request_id && ack.job_id == round.job_id && ack.graph_generation
        == round.graph_generation && ack.responder == peer && ack.accepted
        && round.pending.contains(peer) {
        round.pending.remove(peer);
        round.confirmed.insert(peer);
    }
}

/// The round speaks of other members only, and nobody both answered and is
/// still waited for.
pub open spec fn round_within(round: ProbeRoundView, workers: Seq<NodeId>, node: NodeId) -> bool {
    &&& round.pending.disjoint(round.confirmed)
    &&& forall|n: NodeId|
        #![trigger round.pending.contains(n)]
        #![trigger round.confirmed.contains(n)]
        round.pending.contains(n) || round.confirmed.contains(n) ==> workers.contains(n) && n
            != node
}

/// Only other members of the graph are ever confirmed, each through an answer
/// to this very round.
pub proof fn law_confirmed_are_members(
    graph: V4ExecutionGraphView,
    node: NodeId,
    request_id: JobId,
    run: ProbeRunView,
    event: ProbeEvent,
)
    requires
        round_within(run.round, graph.workers, node),
    ensures
        round_within(fresh_probe(graph, node, request_id).0.round, graph.workers, node),
        ({
            let next = probe_stepped(run, event).0;
            &&& round_within(next.round, graph.workers, node)
            &&& forall|n: NodeId| #[trigger]
                next.round.confirmed.contains(n) && !run.round.confirmed.contains(n) ==> match event {
                    ProbeEvent::Ack(peer, ack) => n == peer && ack.accepted && ack.request_id
                        == run.round.request_id && ack.job_id == run.round.job_id,
                    _ => false,
                }
        }),
{
    lemma_filter_contains(graph.workers, other_than(node));
    let fresh = fresh_round(graph, node, request_id);
    assert forall|n: NodeId|
        fresh.pending.contains(n) || fresh.confirmed.contains(n) implies graph.workers.contains(n)
        && n != node by {
        assert(graph.workers.filter(other_than(node)).contains(n));
    }
}

/// Why a probe is not answered.
#[derive(Clone, Copy, Debug, PartialEq, Eq, Structural)]
pub enum ProbeError {
    Invalid,
    /// The sender is not the requester.
    Sender,
    /// The job has no graph here.
    UnknownGraph,
}

/// The answer to a probe: yes exactly when it names the current graph and comes
/// from one of its members.
pub fn receive_integrated_probe(
    node: NodeId,
    peer: NodeId,
    probe: &V4IntegratedProbe,
    valid: bool,
    graph: Option<&V4ExecutionGraph>,
) -> (r: Result<V4IntegratedProbeAck, ProbeError>)
    ensures
        match r {
            Err(ProbeError::Invalid) => !valid,
            Err(ProbeError::Sender) => valid && peer != probe.requester,
            Err(ProbeError::UnknownGraph) => valid && peer == probe.requester && graph is None,
            Ok(ack) => {
                &&& valid
                &&& peer == probe.requester
                &&& graph matches Some(g) && ack == (V4IntegratedProbeAck {
                    request_id: probe.request_id,
                    job_id: probe.job_id,
                    graph_generation: probe.graph_generation,
                    responder: node,
                    accepted: g@.graph_generation == probe.graph_generation && g@.graph_hash
                        == probe.graph_hash && g@.workers.contains(peer),
                })
            },
        },
{
    if !valid {
        return Err(ProbeError::Invalid);
    }
    if peer != probe.requester {
        return Err(ProbeError::Sender);
    }
    match graph {
        None => Err(ProbeError::UnknownGraph),
        Some(graph) => Ok(
            V4IntegratedProbeAck {
                request_id: probe.request_id,
                job_id: probe.job_id,
                graph_generation: probe.graph_generation,
                responder: node,
                accepted: graph.graph_generation == probe.graph_generation && graph.graph_hash
                    == probe.graph_hash && contains_id(&graph.workers, peer),
            },
        ),
    }
}

/// Why an answer to a probe does not reach the job.
#[derive(Clone, Copy, Debug, PartialEq, Eq, Structural)]
pub enum ProbeAckError {
    Invalid,
    /// The sender is not the responder.
    Sender,
    /// The job does not run here.
    UnknownJob,
}

/// Whether an answer is handed to the job.
pub fn receive_integrated_probe_ack(
    peer: NodeId,
    ack: &V4IntegratedProbeAck,
    valid: bool,
    job_runs: bool,
) -> (r: Result<(), ProbeAckError>)
    ensures
        match r {
            Err(ProbeAckError::Invalid) => !valid,
            Err(ProbeAckError::Sender) => valid && peer != ack.responder,
            Err(ProbeAckError::UnknownJob) => valid && peer == ack.responder && !job_runs,
            Ok(()) => valid && peer == ack.responder && job_runs,
        },
{
    if !valid {
        Err(ProbeAckError::Invalid)
    } else if peer != ack.responder {
        Err(ProbeAckError::Sender)
    } else if !job_runs {
        Err(ProbeAckError::UnknownJob)
    } else {
        Ok(())
    }
}

/// The members that are known to be alive.
pub open spec fn live(workers: Seq<NodeId>, node: NodeId, confirmed: Set<NodeId>) -> Seq<NodeId> {
    workers.filter(inside(confirmed.insert(node)))
}

/// The members that did not answer.
pub open spec fn missing(workers: Seq<NodeId>, node: NodeId, confirmed: Set<NodeId>) -> Seq<
    NodeId,
> {
    workers.filter(other_than(node)).filter(outside(confirmed))
}

pub fn live_members(workers: &Vec<NodeId>, node: NodeId, confirmed: &NodeSet) -> (r: Vec<NodeId>)
    ensures
        r@ == live(workers@, node, confirmed@),
{
    let mut set = NodeSet::from_ids(&confirmed.members());
    set.insert(node);
    filter_inside(workers, &set)
}

fn missing_members(workers: &Vec<NodeId>, node: NodeId, confirmed: &NodeSet) -> (r: Vec<NodeId>)
    ensures
        r@ == missing(workers@, node, confirmed@),
{
    let others = filter_other_than(workers, node);
    filter_outside(&others, confirmed)
}

/// Whether the live members other than `failed` are a majority of the graph.
pub fn has_integrated_reconfiguration_quorum(
    node: NodeId,
    graph: &V4ExecutionGraph,
    confirmed: &NodeSet,
    failed: NodeId,
) -> (r: bool)
    ensures
        r == (live(graph@.workers, node, confirmed@).filter(other_than(failed)).len() >= quorum_of(
            graph@.workers.len() as int,
        )),
{
    let alive = live_members(&graph.workers, node, confirmed);
    let others = filter_other_than(&alive, failed);
    others.len() >= quorum(graph.workers.len())
}

/// What a look for a lost coordinator found.
#[derive(Clone, Copy, Debug, PartialEq, Eq, Structural)]
pub enum IntegratedTakeoverOutcome {
    /// The coordinator answered.
    CoordinatorAlive,
    /// A graph is still being installed.
    TransitionInProgress,
    /// The coordinator did not answer, but nothing may be decided yet.
    CoordinatorMissingWithoutQuorum,
    /// Another live member is the one to take over.
    AnotherCandidate,
    /// This member took over.
    ReplacementCompleted,
    /// The job has ended.
    Terminal,
}

/// Whether the job has ended.
pub open spec fn ended(phase: V4IntegratedPhase) -> bool {
    phase is Committed || phase is Failed
}

pub fn is_terminal(phase: V4IntegratedPhase) -> (r: bool)
    ensures
        r == ended(phase),
{
    matches!(phase, V4IntegratedPhase::Committed | V4IntegratedPhase::Failed)
}

/// Whether votes may be asked for and given.
pub open spec fn stable(phase: V4IntegratedPhase) -> bool {
    phase is Running || phase is Partitioned
}

pub fn is_stable(phase: V4IntegratedPhase) -> (r: bool)
    ensures
        r == stable(phase),
{
    matches!(phase, V4IntegratedPhase::Running | V4IntegratedPhase::Partitioned)
}

/// What a job's phase decides before anybody is asked.
pub fn takeover_gate(phase: V4IntegratedPhase) -> (r: Option<IntegratedTakeoverOutcome>)
    ensures
        r == (if ended(phase) {
            Some(IntegratedTakeoverOutcome::Terminal)
        } else if stable(phase) {
            None
        } else {
            Some(IntegratedTakeoverOutcome::TransitionInProgress)
        }),
{
    match phase {
        V4IntegratedPhase::Committed | V4IntegratedPhase::Failed => Some(
            IntegratedTakeoverOutcome::Terminal,
        ),
        V4IntegratedPhase::Preparing | V4IntegratedPhase::Reconfiguring => Some(
            IntegratedTakeoverOutcome::TransitionInProgress,
        ),
        V4IntegratedPhase::Running | V4IntegratedPhase::Partitioned => None,
    }
}

/// `node` holds a copy of some shard or stage.
pub open spec fn provides(graph: V4ExecutionGraphView, node: NodeId) -> bool {
    ||| exists|i: int|
        0 <= i < graph.shards.len() && ((#[trigger] graph.shards[i]).replicas.contains(node)
            || graph.shards[i].owners.contains(node))
    ||| exists|i: int|
        0 <= i < graph.pipeline_stages.len() && ((
        #[trigger] graph.pipeline_stages[i]).replicas.contains(node)
            || graph.pipeline_stages[i].worker == node)
}

pub open spec fn provider_in(graph: V4ExecutionGraphView) -> spec_fn(NodeId) -> bool {
    |n: NodeId| provides(graph, n)
}

fn is_provider(graph: &V4ExecutionGraph, node: NodeId) -> (r: bool)
    ensures
        r == provides(graph@, node),
{
    let ghost shards = graph@.shards;
    let ghost stages = graph@.pipeline_stages;
    let mut i: usize = 0;
    while i < graph.shards.len()
        invariant
            0 <= i <= graph.shards@.len(),
            shards == views(graph.shards@),
            shards == graph@.shards,
            forall|j: int|
                0 <= j < i ==> !(#[trigger] shards[j]).replicas.contains(node)
                    && !shards[j].owners.contains(node),
        decreases graph.shards@.len() - i,
    {
        assert(shards[i as int] == graph.shards@[i as int]@);
        if contains_id(&graph.shards[i].replicas, node) || contains_id(
            &graph.shards[i].owners,
            node,
        ) {
            return true;
        }
        i += 1;
    }
    let mut k: usize = 0;
    while k < graph.pipeline_stages.len()
        invariant
            0 <= k <= graph.pipeline_stages@.len(),
            stages == views(graph.pipeline_stages@),
            stages == graph@.pipeline_stages,
            forall|j: int|
                0 <= j < k ==> !(#[trigger] stages[j]).replicas.contains(node) && stages[j].worker
                    != node,
        decreases graph.pipeline_stages@.len() - k,
    {
        assert(stages[k as int] == graph.pipeline_stages@[k as int]@);
        if contains_id(&graph.pipeline_stages[k].replicas, node) || graph.pipeline_stages[k].worker
            == node {
            return true;
        }
        k += 1;
    }
    false
}

/// The live members other than the coordinator.
pub open spec fn eligible(graph: V4ExecutionGraphView, node: NodeId, confirmed: Set<NodeId>) -> Seq<
    NodeId,
> {
    live(graph.workers, node, confirmed).filter(other_than(graph.coordinator))
}

pub fn eligible_members(graph: &V4ExecutionGraph, node: NodeId, confirmed: &NodeSet) -> (r: Vec<
    NodeId,
>)
    ensures
        r@ == eligible(graph@, node, confirmed@),
{
    let alive = live_members(&graph.workers, node, confirmed);
    filter_other_than(&alive, graph.coordinator)
}

/// The member that is to take over: the first in byte order of the eligible
/// members that hold a copy, or of all eligible ones where none does.
pub open spec fn takeover_candidate(
    graph: V4ExecutionGraphView,
    node: NodeId,
    confirmed: Set<NodeId>,
) -> Option<NodeId> {
    let all = eligible(graph, node, confirmed);
    let holders = all.filter(provider_in(graph));
    if holders.len() > 0 {
        least(holders)
    } else {
        least(all)
    }
}

/// What follows from a probe round in a stable phase: nothing yet, or that this
/// member stands for election.
pub open spec fn takeover_of(
    graph: V4ExecutionGraphView,
    node: NodeId,
    confirmed: Set<NodeId>,
    misses: u8,
) -> Option<IntegratedTakeoverOutcome> {
    if graph.coordinator != node && confirmed.contains(graph.coordinator) {
        Some(IntegratedTakeoverOutcome::CoordinatorAlive)
    } else if live(graph.workers, node, confirmed).len() < quorum_of(graph.workers.len() as int)
        || misses + 1 < TAKEOVER_MISSES_REQUIRED {
        Some(IntegratedTakeoverOutcome::CoordinatorMissingWithoutQuorum)
    } else if takeover_candidate(graph, node, confirmed) != Some(node) {
        Some(IntegratedTakeoverOutcome::AnotherCandidate)
    } else {
        None
    }
}

/// Decide after a probe round; no outcome means that this member stands.
pub fn takeover_choice(
    node: NodeId,
    graph: &V4ExecutionGraph,
    confirmed: &NodeSet,
    coordinator_misses: u8,
) -> (r: Option<IntegratedTakeoverOutcome>)
    ensures
        r == takeover_of(graph@, node, confirmed@, coordinator_misses),
{
    if graph.coordinator != node && confirmed.contains(graph.coordinator) {
        return Some(IntegratedTakeoverOutcome::CoordinatorAlive);
    }
    let alive = live_members(&graph.workers, node, confirmed);
    if alive.len() < quorum(graph.workers.len()) {
        return Some(IntegratedTakeoverOutcome::CoordinatorMissingWithoutQuorum);
    }
    if coordinator_misses.saturating_add(1) < TAKEOVER_MISSES_REQUIRED {
        return Some(IntegratedTakeoverOutcome::CoordinatorMissingWithoutQuorum);
    }
    let all = eligible_members(graph, node, confirmed);
    let ghost p = provider_in(graph@);
    let mut holders: Vec<NodeId> = Vec::new();
    let mut i: usize = 0;
    proof {
        crate::base::search::lemma_filter_ends(all@, p);
    }
    while i < all.len()
        invariant
            0 <= i <= all@.len(),
            p == provider_in(graph@),
            holders@ == all@.take(i as int).filter(p),
        decreases all@.len() - i,
    {
        proof {
            crate::base::search::lemma_filter_step(all@, p, i as int);
        }
        if is_provider(graph, all[i]) {
            holders.push(all[i]);
        }
        i += 1;
    }
    proof {
        crate::base::search::lemma_filter_ends(all@, p);
    }
    let candidate = if holders.len() > 0 {
        least_id(&holders)
    } else {
        least_id(&all)
    };
    if candidate != Some(node) {
        Some(IntegratedTakeoverOutcome::AnotherCandidate)
    } else {
        None
    }
}

/// What a member does after a look for a lost coordinator.
#[derive(Clone, Copy, Debug, PartialEq, Eq, Structural)]
pub enum ParticipantStep {
    /// It leaves the job's loop.
    Leave,
    /// It goes on, with this many rounds missed in a row.
    Continue(u8),
}

/// The step after a look; without an outcome the look itself failed.
pub fn participant_step(misses: u8, outcome: Option<IntegratedTakeoverOutcome>) -> (r:
    ParticipantStep)
    ensures
        r == (match outcome {
            Some(IntegratedTakeoverOutcome::ReplacementCompleted)
            | Some(IntegratedTakeoverOutcome::Terminal) => ParticipantStep::Leave,
            Some(IntegratedTakeoverOutcome::CoordinatorMissingWithoutQuorum) =>
                ParticipantStep::Continue(
                (if misses < u8::MAX {
                    misses + 1
                } else {
                    misses as int
                }) as u8,
            ),
            Some(_) => ParticipantStep::Continue(0),
            None => ParticipantStep::Continue(misses),
        }),
{
    match outcome {
        Some(IntegratedTakeoverOutcome::ReplacementCompleted)
        | Some(IntegratedTakeoverOutcome::Terminal) => ParticipantStep::Leave,
        Some(IntegratedTakeoverOutcome::CoordinatorMissingWithoutQuorum) =>
            ParticipantStep::Continue(misses.saturating_add(1)),
        Some(_) => ParticipantStep::Continue(0),
        None => ParticipantStep::Continue(misses),
    }
}

/// Whether it is time for the next look.
pub fn takeover_probe_due(elapsed_ms: u64) -> (r: bool)
    ensures
        r == (elapsed_ms >= TAKEOVER_PROBE_INTERVAL_MS),
{
    elapsed_ms >= TAKEOVER_PROBE_INTERVAL_MS
}

/// A member stands only after three rounds in a row without the coordinator,
/// with a majority alive, and it is then a live member other than the
/// coordinator.
pub proof fn law_takeover_is_fenced(
    graph: V4ExecutionGraphView,
    node: NodeId,
    confirmed: Set<NodeId>,
    misses: u8,
)
    requires
        takeover_of(graph, node, confirmed, misses) is None,
    ensures
        misses >= 2,
        graph.coordinator != node,
        !confirmed.contains(graph.coordinator),
        2 * live(graph.workers, node, confirmed).len() > graph.workers.len(),
        graph.workers.contains(node),
{
    let all = eligible(graph, node, confirmed);
    let holders = all.filter(provider_in(graph));
    lemma_least(all);
    lemma_least(holders);
    lemma_filter_contains(all, provider_in(graph));
    lemma_filter_contains(
        live(graph.workers, node, confirmed),
        other_than(graph.coordinator),
    );
    lemma_filter_contains(graph.workers, inside(confirmed.insert(node)));
    assert(all.contains(node));
    assert(other_than(graph.coordinator)(node));
}

/// Two members that see the same members alive never both stand.
pub proof fn law_one_takeover_candidate(
    graph: V4ExecutionGraphView,
    a: NodeId,
    confirmed_a: Set<NodeId>,
    misses_a: u8,
    b: NodeId,
    confirmed_b: Set<NodeId>,
    misses_b: u8,
)
    requires
        confirmed_a.insert(a) == confirmed_b.insert(b),
        takeover_of(graph, a, confirmed_a, misses_a) is None,
        takeover_of(graph, b, confirmed_b, misses_b) is None,
    ensures
        a == b,
{
}

/// A search for a member that is gone.
#[derive(Debug)]
pub struct MissingSearch {
    /// The members that missed the round before.
    pub previous: Option<NodeSet>,
    /// The rounds that are left.
    pub rounds: u8,
}

/// What a round tells the search.
#[derive(Clone, Copy, Debug, PartialEq, Eq, Structural)]
pub enum SearchStep {
    /// This member missed two rounds in a row.
    Unavailable(NodeId),
    /// No member is found to be gone.
    NoneFound,
    /// Another round is needed.
    ProbeAgain,
}

pub fn begin_missing_search() -> (r: MissingSearch)
    ensures
        r.previous is None,
        r.rounds == UNAVAILABLE_PROBE_ROUNDS,
{
    MissingSearch { previous: None, rounds: UNAVAILABLE_PROBE_ROUNDS }
}

/// The member that missed this round and the one before, first in byte order.
pub open spec fn persistent(previous: Option<Set<NodeId>>, gone: Seq<NodeId>) -> Option<NodeId> {
    match previous {
        None => None,
        Some(before) => least(gone.filter(inside(before))),
    }
}

/// Take in a round of the search.
pub fn first_unavailable_worker(
    search: &mut MissingSearch,
    node: NodeId,
    graph: &V4ExecutionGraph,
    confirmed: &NodeSet,
) -> (r: SearchStep)
    requires
        old(search).rounds > 0,
    ensures
        ({
            let gone = missing(graph@.workers, node, confirmed@);
            let found = persistent(opt_view(old(search).previous), gone);
            &&& final(search).rounds == old(search).rounds - 1
            &&& opt_view(final(search).previous) == Some(gone.to_set())
            &&& r == (match found {
                Some(worker) => SearchStep::Unavailable(worker),
                None => if gone.len() == 0 || final(search).rounds == 0 {
                    SearchStep::NoneFound
                } else {
                    SearchStep::ProbeAgain
                },
            })
        }),
{
    let gone = missing_members(&graph.workers, node, confirmed);
    let found = match &search.previous {
        None => None,
        Some(before) => {
            let both = filter_inside(&gone, before);
            least_id(&both)
        },
    };
    search.rounds = search.rounds - 1;
    search.previous = Some(NodeSet::from_ids(&gone));
    match found {
        Some(worker) => SearchStep::Unavailable(worker),
        None => if gone.len() == 0 || search.rounds == 0 {
            SearchStep::NoneFound
        } else {
            SearchStep::ProbeAgain
        },
    }
}

/// A member that is declared gone missed two rounds in a row, belongs to the
/// graph, and is never the node that looks.
pub proof fn law_unavailable_missed_twice(
    workers: Seq<NodeId>,
    node: NodeId,
    first: Set<NodeId>,
    second: Set<NodeId>,
    worker: NodeId,
)
    requires
        persistent(
            Some(missing(workers, node, first).to_set()),
            missing(workers, node, second),
        ) == Some(worker),
    ensures
        workers.contains(worker),
        worker != node,
        !first.contains(worker),
        !second.contains(worker),
{
    let gone = missing(workers, node, second);
    let before = missing(workers, node, first);
    let both = gone.filter(inside(before.to_set()));
    lemma_least(both);
    lemma_filter_contains(gone, inside(before.to_set()));
    lemma_filter_contains(workers, other_than(node));
    lemma_filter_contains(workers.filter(other_than(node)), outside(first));
    lemma_filter_contains(workers.filter(other_than(node)), outside(second));
    assert(both.contains(worker));
    assert(gone.contains(worker));
    assert(before.contains(worker));
    assert(outside(first)(worker) && outside(second)(worker) && other_than(node)(worker));
}

/// The member, first in byte order, that did not answer a probe round.
pub fn slowest_responsive_worker(node: NodeId, graph: &V4ExecutionGraph, confirmed: &NodeSet) -> (r:
    Option<NodeId>)
    ensures
        r == least(missing(graph@.workers, node, confirmed@)),
{
    let gone = missing_members(&graph.workers, node, confirmed);
    least_id(&gone)
}

/// A newcomer: outside the graph, and not retired from it.
pub open spec fn newcomers(graph: V4ExecutionGraphView, profiled: Seq<NodeId>) -> Seq<NodeId> {
    profiled.filter(outside(graph.workers.to_set())).filter(
        outside(graph.retired_workers.to_set()),
    )
}

/// The worker that may join, first in byte order, while the graph has room.
/// `profiled` are the workers with a current capability record.
pub fn find_joined_worker(graph: &V4ExecutionGraph, profiled: &Vec<NodeId>) -> (r: Option<NodeId>)
    ensures
        r == (if graph@.workers.len() >= crate::frontier::integrated::INTEGRATED_MAX_WORKERS {
            None
        } else {
            least(newcomers(graph@, profiled@))
        }),
{
    if graph.workers.len() >= crate::frontier::integrated::INTEGRATED_MAX_WORKERS {
        return None;
    }
    let current = NodeSet::from_ids(&graph.workers);
    let retired = NodeSet::from_ids(&graph.retired_workers);
    let new = filter_outside(profiled, &current);
    let candidates = filter_outside(&new, &retired);
    least_id(&candidates)
}

/// A worker that joins was neither a member nor retired, and has a current
/// capability record.
pub proof fn law_joined_worker_is_new(graph: V4ExecutionGraphView, profiled: Seq<NodeId>)
    ensures
        least(newcomers(graph, profiled)) matches Some(worker) ==> {
            &&& profiled.contains(worker)
            &&& !graph.workers.contains(worker)
            &&& !graph.retired_workers.contains(worker)
        },
{
    let all = newcomers(graph, profiled);
    lemma_least(all);
    lemma_filter_contains(profiled, outside(graph.workers.to_set()));
    lemma_filter_contains(
        profiled.filter(outside(graph.workers.to_set())),
        outside(graph.retired_workers.to_set()),
    );
    if let Some(worker) = least(all) {
        assert(all.contains(worker));
        assert(outside(graph.workers.to_set())(worker));
        assert(outside(graph.retired_workers.to_set())(worker));
        assert(graph.workers.to_set().contains(worker) == graph.workers.contains(worker));
    }
}

/// A probe round asks every member but this node, about the graph in force.
pub proof fn law_probe_asks_every_other_member(
    graph: V4ExecutionGraphView,
    node: NodeId,
    state_hash: ArtifactId,
    request_id: JobId,
    peer: NodeId,
)
    ensures
        ({
            let r = fresh_round(graph, node, request_id);
            &&& r.request_id == request_id && r.job_id == graph.job_id
            &&& r.graph_generation == graph.graph_generation
            &&& r.pending.contains(peer) <==> graph.workers.contains(peer) && peer != node
            &&& r.confirmed == Set::<NodeId>::empty()
        }),
        ({
            let q = probe_question(graph, node, state_hash, request_id);
            &&& q.request_id == request_id && q.job_id == graph.job_id && q.requester == node
            &&& q.graph_generation == graph.graph_generation && q.graph_hash == graph.graph_hash
            &&& q.state_hash == state_hash
        }),
{
    let others = graph.workers.filter(other_than(node));
    crate::base::search::lemma_filter_contains(graph.workers, other_than(node));
    assert(others.contains(peer) <==> others.to_set().contains(peer));
}

/// A member is confirmed only by its own accepting answer to this round, once.
pub proof fn law_members_confirm_themselves(
    round: ProbeRoundView,
    peer: NodeId,
    ack: V4IntegratedProbeAck,
)
    ensures
        ({
            let a = after_answer(round, peer, ack);
            let good = ack.responder == peer && ack.accepted && ack.request_id == round.request_id
                && ack.job_id == round.job_id && ack.graph_generation == round.graph_generation
                && round.pending.contains(peer);
            &&& good ==> a.confirmed == round.confirmed.insert(peer) && a.pending
                == round.pending.remove(peer)
            &&& !good ==> a == round
        }),
{
}

/// Live are this node and the members that confirmed; missing are the others.
pub proof fn law_live_and_missing_members(
    workers: Seq<NodeId>,
    node: NodeId,
    confirmed: Set<NodeId>,
    peer: NodeId,
)
    ensures
        live(workers, node, confirmed).contains(peer) <==> workers.contains(peer) && (peer == node
            || confirmed.contains(peer)),
        missing(workers, node, confirmed).contains(peer) <==> workers.contains(peer) && peer != node
            && !confirmed.contains(peer),
{
    crate::base::search::lemma_filter_contains(workers, inside(confirmed.insert(node)));
    let others = workers.filter(other_than(node));
    crate::base::search::lemma_filter_contains(workers, other_than(node));
    crate::base::search::lemma_filter_contains(others, outside(confirmed));
}

/// A member stands for election only when the coordinator did not answer, more than half
/// of the members are alive, it was missed three times in a row, and this member is the
/// candidate.
pub proof fn law_takeover_needs_three_misses(
    graph: V4ExecutionGraphView,
    node: NodeId,
    confirmed: Set<NodeId>,
    misses: u8,
)
    ensures
        takeover_of(graph, node, confirmed, misses) is None ==> {
            &&& node == graph.coordinator || !confirmed.contains(graph.coordinator)
            &&& 2 * live(graph.workers, node, confirmed).len() > graph.workers.len()
            &&& misses >= 2
            &&& takeover_candidate(graph, node, confirmed) == Some(node)
        },
        graph.coordinator != node && confirmed.contains(graph.coordinator) ==> takeover_of(
            graph,
            node,
            confirmed,
            misses,
        ) == Some(IntegratedTakeoverOutcome::CoordinatorAlive),
        !confirmed.contains(graph.coordinator) && 2 * live(graph.workers, node, confirmed).len()
            > graph.workers.len() && misses >= 2 && takeover_candidate(graph, node, confirmed)
            == Some(node) ==> takeover_of(graph, node, confirmed, misses) is None,
        !confirmed.contains(graph.coordinator) && misses < 2 ==> takeover_of(
            graph,
            node,
            confirmed,
            misses,
        ) == Some(IntegratedTakeoverOutcome::CoordinatorMissingWithoutQuorum),
{
}

/// The candidate is a live member other than the coordinator; one that holds a copy of a
/// shard or a stage goes before one that holds none, and among equals the first in byte
/// order.
pub proof fn law_candidate_holds_a_copy(
    graph: V4ExecutionGraphView,
    node: NodeId,
    confirmed: Set<NodeId>,
    other: NodeId,
)
    ensures
        takeover_candidate(graph, node, confirmed) matches Some(c) ==> {
            &&& graph.workers.contains(c) && c != graph.coordinator
            &&& c == node || confirmed.contains(c)
            &&& eligible(graph, node, confirmed).contains(other) && provides(graph, other)
                ==> provides(graph, c) && crate::base::ids::id_le(c, other)
        },
{
    let all = eligible(graph, node, confirmed);
    let holders = all.filter(provider_in(graph));
    law_live_and_missing_members(
        graph.workers,
        node,
        confirmed,
        takeover_candidate(graph, node, confirmed).unwrap_or(node),
    );
    crate::base::search::lemma_filter_contains(
        live(graph.workers, node, confirmed),
        other_than(graph.coordinator),
    );
    crate::base::search::lemma_filter_contains(all, provider_in(graph));
    crate::base::members::lemma_least(all);
    crate::base::members::lemma_least(holders);
    if all.contains(other) && provides(graph, other) {
        assert(holders.contains(other));
        assert(holders.len() > 0);
    }
}

/// Gone for good is the first member that missed this round and the one before; nobody
/// after one round. A newcomer is a profiled peer that is no member and not retired.
pub proof fn law_two_rounds_tell_who_is_gone(
    before: Set<NodeId>,
    gone: Seq<NodeId>,
    graph: V4ExecutionGraphView,
    profiled: Seq<NodeId>,
    peer: NodeId,
)
    ensures
        persistent(None, gone) is None,
        persistent(Some(before), gone) matches Some(p) ==> gone.contains(p) && before.contains(p),
        gone.contains(peer) && before.contains(peer) ==> persistent(Some(before), gone) is Some,
        newcomers(graph, profiled).contains(peer) <==> profiled.contains(peer)
            && !graph.workers.contains(peer) && !graph.retired_workers.contains(peer),
{
    let both = gone.filter(inside(before));
    crate::base::search::lemma_filter_contains(gone, inside(before));
    crate::base::members::lemma_least(both);
    if gone.contains(peer) && before.contains(peer) {
        assert(both.contains(peer));
        assert(both.len() > 0);
    }
    let outer = profiled.filter(outside(graph.workers.to_set()));
    crate::base::search::lemma_filter_contains(profiled, outside(graph.workers.to_set()));
    crate::base::search::lemma_filter_contains(outer, outside(graph.retired_workers.to_set()));
    assert(graph.workers.contains(peer) <==> graph.workers.to_set().contains(peer));
    assert(graph.retired_workers.contains(peer) <==> graph.retired_workers.to_set().contains(peer));
}

/// A member that cannot be asked is not awaited; the round is done when nobody is, or when
/// nothing more comes in.
pub proof fn law_probe_goes_member_by_member(run: ProbeRunView, place: usize, reached: bool)
    requires
        run.step == (ProbeStep::Asking { place }),
        place + 1 < run.members.len() <= usize::MAX,
    ensures
        ({
            let (after, action) = probe_stepped(run, ProbeEvent::Asked(reached));
            &&& action == ProbeAction::Ask(run.members[place + 1])
            &&& reached ==> after.round == run.round
            &&& !reached ==> after.round.pending == run.round.pending.remove(
                run.members[place as int],
            ) && after.round.confirmed == run.round.confirmed
        }),
        ({
            let answering = ProbeRunView { step: ProbeStep::Answers, ..run };
            &&& probe_stepped(answering, ProbeEvent::NoMessage).1 is Done
            &&& probe_stepped(answering, ProbeEvent::OtherMessage).1 is Wait
        }),
{
}

} // verus!
