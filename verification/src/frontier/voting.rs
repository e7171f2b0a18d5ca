//! The election of a replacement coordinator: votes, ballots and certificates.

use crate::base::arith::{max_int, max_u64, sat_u64};
use crate::base::ids::{id_lt, unsigned_hash, ArtifactId, NodeId};
use crate::base::members::{
    all_members, ascending, contains_id, distinct_ids, least, least_id,
    lemma_ascending_exists, lemma_majorities_intersect, lemma_strictly_sorted_distinct, NodeSet,
};
use crate::frontier::backend::BackendOptionView;
use crate::frontier::control::{
    V4IntegratedElectionRecord, V4IntegratedElectionRequest, V4IntegratedElectionVote,
};
use crate::frontier::membership::{law_reconfigured_graph_advances, reconfigured};
use crate::frontier::probing::{eligible, eligible_members, is_stable, stable};
use crate::frontier::types::{
    V4ExecutionGraph, V4ExecutionGraphView, V4IntegratedPhase, V4IntegratedStateRecord,
    V4TrainingPlanView, V4WorkerCapabilityView,
};
use crate::reference::sgd::{quorum, quorum_of};
use vstd::prelude::*;

verus! {

/// The time by which each later member in the order waits before it stands.
pub const ELECTION_STAGGER_MS: u64 = 150;

/// A vote may be given: there is none for the job, or one of an earlier term, or
/// one of the same term for the same candidate.
pub open spec fn may_vote(
    existing: Option<V4IntegratedElectionRecord>,
    term: u64,
    candidate: NodeId,
) -> bool {
    match existing {
        None => true,
        Some(e) => term > e.term || (term == e.term && e.candidate == candidate),
    }
}

fn is_free(existing: &Option<V4IntegratedElectionRecord>, term: u64, candidate: NodeId) -> (r: bool)
    ensures
        r == may_vote(*existing, term, candidate),
{
    match existing {
        None => true,
        Some(e) => term > e.term || (term == e.term && e.candidate == candidate),
    }
}

/// What becomes of a request for a vote.
#[derive(Clone, Copy, Debug, PartialEq, Eq, Structural)]
pub enum VoteDecision {
    /// The sender is not the candidate.
    NotCandidate,
    /// The candidate is not a member of the graph.
    NotMember,
    /// The request names another graph.
    StaleGraph,
    /// The coordinator does not vote for its replacement.
    IsCoordinator,
    /// The graph is in transition.
    Unstable,
    /// The term is not newer than the graph's.
    StaleTerm,
    /// Another candidate has the vote of this term.
    Taken,
    /// The vote is given and has to be stored.
    Granted(V4IntegratedElectionRecord),
}

/// The stored vote for a request, before its hash is set.
pub open spec fn record_of(request: V4IntegratedElectionRequest) -> V4IntegratedElectionRecord {
    V4IntegratedElectionRecord {
        job_id: request.job_id,
        graph_generation: request.graph_generation,
        graph_hash: request.graph_hash,
        term: request.term,
        candidate: request.candidate,
        vote_hash: unsigned_hash(),
    }
}

/// The decision on a request.
pub open spec fn decision_on(
    node: NodeId,
    peer: NodeId,
    request: V4IntegratedElectionRequest,
    graph: V4ExecutionGraphView,
    phase: V4IntegratedPhase,
    existing: Option<V4IntegratedElectionRecord>,
) -> VoteDecision {
    if peer != request.candidate {
        VoteDecision::NotCandidate
    } else if !graph.workers.contains(peer) {
        VoteDecision::NotMember
    } else if graph.graph_generation != request.graph_generation || graph.graph_hash
        != request.graph_hash || graph.branch != request.branch {
        VoteDecision::StaleGraph
    } else if graph.coordinator == node {
        VoteDecision::IsCoordinator
    } else if !stable(phase) {
        VoteDecision::Unstable
    } else if request.term <= graph.coordination_term {
        VoteDecision::StaleTerm
    } else if may_vote(existing, request.term, request.candidate) {
        VoteDecision::Granted(record_of(request))
    } else {
        VoteDecision::Taken
    }
}

/// Why a request gets no answer.
#[derive(Clone, Copy, Debug, PartialEq, Eq, Structural)]
pub enum ElectionError {
    Invalid,
    UnknownGraph,
    UnknownState,
}

/// Decide on a request for a vote. `existing` is the vote that the node has stored
/// for the job.
pub fn receive_integrated_election_request(
    node: NodeId,
    peer: NodeId,
    request: &V4IntegratedElectionRequest,
    valid: bool,
    graph: Option<&V4ExecutionGraph>,
    state: Option<&V4IntegratedStateRecord>,
    existing: Option<V4IntegratedElectionRecord>,
) -> (r: Result<VoteDecision, ElectionError>)
    ensures
        match r {
            Err(ElectionError::Invalid) => !valid,
            Err(ElectionError::UnknownGraph) => valid && graph is None,
            Err(ElectionError::UnknownState) => valid && graph is Some && state is None,
            Ok(decision) => {
                &&& valid
                &&& graph is Some
                &&& state is Some
                &&& decision == decision_on(
                    node,
                    peer,
                    *request,
                    graph->0@,
                    state->0.phase,
                    existing,
                )
            },
        },
{
    if !valid {
        return Err(ElectionError::Invalid);
    }
    let graph = match graph {
        Some(graph) => graph,
        None => {
            return Err(ElectionError::UnknownGraph);
        },
    };
    let state = match state {
        Some(state) => state,
        None => {
            return Err(ElectionError::UnknownState);
        },
    };
    let decision = if peer != request.candidate {
        VoteDecision::NotCandidate
    } else if !contains_id(&graph.workers, peer) {
        VoteDecision::NotMember
    } else if graph.graph_generation != request.graph_generation || graph.graph_hash
        != request.graph_hash || graph.branch != request.branch {
        VoteDecision::StaleGraph
    } else if graph.coordinator == node {
        VoteDecision::IsCoordinator
    } else if !is_stable(state.phase) {
        VoteDecision::Unstable
    } else if request.term <= graph.coordination_term {
        VoteDecision::StaleTerm
    } else if is_free(&existing, request.term, request.candidate) {
        VoteDecision::Granted(
            V4IntegratedElectionRecord {
                job_id: request.job_id,
                graph_generation: request.graph_generation,
                graph_hash: request.graph_hash,
                term: request.term,
                candidate: request.candidate,
                vote_hash: ArtifactId::unsigned(),
            },
        )
    } else {
        VoteDecision::Taken
    };
    Ok(decision)
}

/// The answer to a request. A vote that was to be granted and could not be stored
/// is not answered.
pub open spec fn answer_to(
    node: NodeId,
    request: V4IntegratedElectionRequest,
    decision: VoteDecision,
    stored: bool,
) -> Option<V4IntegratedElectionVote> {
    if decision is Granted && !stored {
        None
    } else {
        Some(
            V4IntegratedElectionVote {
                job_id: request.job_id,
                graph_generation: request.graph_generation,
                graph_hash: request.graph_hash,
                term: request.term,
                candidate: request.candidate,
                voter: node,
                granted: decision is Granted,
            },
        )
    }
}

/// The answer that goes to the sender of a request; `stored` tells whether the
/// vote of the decision has been stored.
pub fn answer_election_request(
    node: NodeId,
    request: &V4IntegratedElectionRequest,
    decision: &VoteDecision,
    stored: bool,
) -> (r: Option<V4IntegratedElectionVote>)
    ensures
        r == answer_to(node, *request, *decision, stored),
{
    let granted = matches!(decision, VoteDecision::Granted(_));
    if granted && !stored {
        return None;
    }
    Some(
        V4IntegratedElectionVote {
            job_id: request.job_id,
            graph_generation: request.graph_generation,
            graph_hash: request.graph_hash,
            term: request.term,
            candidate: request.candidate,
            voter: node,
            granted,
        },
    )
}

/// The identities that come before `node`.
pub open spec fn before(node: NodeId) -> spec_fn(NodeId) -> bool {
    |n: NodeId| id_lt(n, node)
}

/// The place of `node` in the byte order of `members`.
pub open spec fn rank_in(members: Seq<NodeId>, node: NodeId) -> nat {
    if members.contains(node) {
        members.filter(before(node)).len()
    } else {
        members.len()
    }
}

/// How long a member waits before it looks whether it still has to stand.
pub fn election_delay_ms(node: NodeId, graph: &V4ExecutionGraph, confirmed: &NodeSet) -> (r: u64)
    ensures
        r == sat_u64(
            rank_in(eligible(graph@, node, confirmed@), node) * ELECTION_STAGGER_MS as int,
        ),
{
    let all = eligible_members(graph, node, confirmed);
    let rank: usize = if contains_id(&all, node) {
        let ghost p = before(node);
        let mut earlier: usize = 0;
        let mut i: usize = 0;
        proof {
            crate::base::search::lemma_filter_ends(all@, p);
        }
        while i < all.len()
            invariant
                0 <= i <= all@.len(),
                p == before(node),
                earlier == all@.take(i as int).filter(p).len(),
                earlier <= i,
            decreases all@.len() - i,
        {
            proof {
                crate::base::search::lemma_filter_step(all@, p, i as int);
            }
            if all[i].precedes(&node) {
                earlier += 1;
            }
            i += 1;
        }
        proof {
            crate::base::search::lemma_filter_ends(all@, p);
        }
        earlier
    } else {
        all.len()
    };
    crate::base::arith::sat_mul_u64(rank as u64, ELECTION_STAGGER_MS)
}

/// Why a member does not stand.
#[derive(Clone, Copy, Debug, PartialEq, Eq, Structural)]
pub enum StandError {
    GraphGone,
    StateGone,
    /// The graph changed, or is in transition.
    GraphChanged,
    /// The graph has another coordinator already.
    Replaced,
    /// Another eligible member comes first.
    AnotherMember,
    /// The vote of the last term there is has gone to another candidate.
    Voted,
}

/// The term for which a member stands: above that of the graph, and above that
/// of any vote it has given in the job.
pub open spec fn next_term(
    graph: V4ExecutionGraphView,
    existing: Option<V4IntegratedElectionRecord>,
) -> u64 {
    let given = match existing {
        Some(e) => e.term,
        None => graph.coordination_term,
    };
    max_int(sat_u64(given + 1), sat_u64(graph.coordination_term + 1)) as u64
}

/// The request that the voters get.
pub open spec fn ballot_request(
    graph: V4ExecutionGraphView,
    state_hash: ArtifactId,
    node: NodeId,
    term: u64,
) -> V4IntegratedElectionRequest {
    V4IntegratedElectionRequest {
        request_id: graph.job_id,
        job_id: graph.job_id,
        graph_generation: graph.graph_generation,
        graph_hash: graph.graph_hash,
        branch: graph.branch,
        state_hash,
        term,
        candidate: node,
    }
}

/// Whether a member stands, after it has waited: its own vote, which has to be
/// stored, and the request for the others.
pub fn stand_for_election(
    node: NodeId,
    graph: &V4ExecutionGraph,
    state: &V4IntegratedStateRecord,
    confirmed: &NodeSet,
    current_graph: Option<&V4ExecutionGraph>,
    current_state: Option<&V4IntegratedStateRecord>,
    existing: Option<V4IntegratedElectionRecord>,
) -> (r: Result<(V4IntegratedElectionRecord, V4IntegratedElectionRequest), StandError>)
    ensures
        ({
            let known = current_graph is Some && current_state is Some;
            let same = known && current_graph->0@.graph_hash == graph@.graph_hash
                && current_graph->0@.graph_generation == graph@.graph_generation && stable(
                current_state->0.phase,
            );
            let first = least(eligible(graph@, node, confirmed@)) == Some(node);
            let free = may_vote(existing, next_term(graph@, existing), node);
            match r {
                Err(StandError::GraphGone) => current_graph is None,
                Err(StandError::StateGone) => current_graph is Some && current_state is None,
                Err(StandError::GraphChanged) => known && !same,
                Err(StandError::Replaced) => same && current_graph->0@.coordinator
                    != graph@.coordinator,
                Err(StandError::AnotherMember) => same && current_graph->0@.coordinator
                    == graph@.coordinator && !first,
                Err(StandError::Voted) => same && current_graph->0@.coordinator
                    == graph@.coordinator && first && !free,
                Ok((record, request)) => {
                    &&& same
                    &&& current_graph->0@.coordinator == graph@.coordinator
                    &&& first
                    &&& free
                    &&& request == ballot_request(
                        graph@,
                        state.state_hash,
                        node,
                        next_term(graph@, existing),
                    )
                    &&& record == record_of(request)
                },
            }
        }),
{
    let current_graph = match current_graph {
        Some(current) => current,
        None => {
            return Err(StandError::GraphGone);
        },
    };
    let current_state = match current_state {
        Some(current) => current,
        None => {
            return Err(StandError::StateGone);
        },
    };
    if current_graph.graph_hash != graph.graph_hash || current_graph.graph_generation
        != graph.graph_generation || !is_stable(current_state.phase) {
        return Err(StandError::GraphChanged);
    }
    if current_graph.coordinator != graph.coordinator {
        return Err(StandError::Replaced);
    }
    let all = eligible_members(graph, node, confirmed);
    if least_id(&all) != Some(node) {
        return Err(StandError::AnotherMember);
    }
    let given: u64 = match existing {
        Some(e) => e.term,
        None => graph.coordination_term,
    };
    let term = max_u64(given.saturating_add(1), graph.coordination_term.saturating_add(1));
    if !is_free(&existing, term, node) {
        return Err(StandError::Voted);
    }
    let record = V4IntegratedElectionRecord {
        job_id: graph.job_id,
        graph_generation: graph.graph_generation,
        graph_hash: graph.graph_hash,
        term,
        candidate: node,
        vote_hash: ArtifactId::unsigned(),
    };
    let request = V4IntegratedElectionRequest {
        request_id: graph.job_id,
        job_id: graph.job_id,
        graph_generation: graph.graph_generation,
        graph_hash: graph.graph_hash,
        branch: graph.branch,
        state_hash: state.state_hash,
        term,
        candidate: node,
    };
    Ok((record, request))
}

/// A running ballot.
#[derive(Debug)]
pub struct Ballot {
    pub request: V4IntegratedElectionRequest,
    /// The voters that were reached and have not answered.
    pub pending: NodeSet,
    pub votes: NodeSet,
    /// The votes that win.
    pub quorum: usize,
}

/// The contents of a [`Ballot`].
#[verifier::ext_equal]
pub struct BallotView {
    pub request: V4IntegratedElectionRequest,
    pub pending: Set<NodeId>,
    pub votes: Set<NodeId>,
    pub quorum: usize,
}

impl View for Ballot {
    type V = BallotView;

    open spec fn view(&self) -> BallotView {
        BallotView {
            request: self.request,
            pending: self.pending@,
            votes: self.votes@,
            quorum: self.quorum,
        }
    }
}

/// The ballot in which only the candidate has voted.
pub open spec fn fresh_ballot(
    graph: V4ExecutionGraphView,
    request: V4IntegratedElectionRequest,
) -> BallotView {
    BallotView {
        request,
        pending: Set::empty(),
        votes: Set::empty().insert(request.candidate),
        quorum: quorum_of(graph.workers.len() as int) as usize,
    }
}

/// Open the ballot of a candidate.
pub fn open_ballot(graph: &V4ExecutionGraph, request: &V4IntegratedElectionRequest) -> (r: Ballot)
    ensures
        r@ == fresh_ballot(graph@, *request),
{
    let mut votes = NodeSet::new();
    votes.insert(request.candidate);
    Ballot {
        request: *request,
        pending: NodeSet::new(),
        votes,
        quorum: quorum(graph.workers.len()),
    }
}

/// The request reached a voter.
pub fn voter_reached(ballot: &mut Ballot, voter: NodeId)
    ensures
        final(ballot)@ == (BallotView {
            pending: old(ballot)@.pending.insert(voter),
            ..old(ballot)@
        }),
{
    ballot.pending.insert(voter);
}

/// The answer belongs to the ballot, and the sender has not answered before.
pub open spec fn answers_ballot(
    ballot: BallotView,
    peer: NodeId,
    vote: V4IntegratedElectionVote,
) -> bool {
    vote.job_id == ballot.request.job_id && vote.graph_generation
        == ballot.request.graph_generation && vote.graph_hash == ballot.request.graph_hash
        && vote.term == ballot.request.term && vote.candidate == ballot.request.candidate
        && vote.voter == peer && ballot.pending.contains(peer)
}

/// The ballot after an answer.
pub open spec fn after_vote(
    ballot: BallotView,
    peer: NodeId,
    vote: V4IntegratedElectionVote,
) -> BallotView {
    if answers_ballot(ballot, peer, vote) {
        BallotView {
            pending: ballot.pending.remove(peer),
            votes: if vote.granted {
                ballot.votes.insert(peer)
            } else {
                ballot.votes
            },
            ..ballot
        }
    } else {
        ballot
    }
}

/// Take in an answer.
pub fn note_vote(ballot: &mut Ballot, peer: NodeId, vote: &V4IntegratedElectionVote)
    ensures
        final(ballot)@ == after_vote(old(ballot)@, peer, *vote),
{
    if vote.job_id == ballot.request.job_id && vote.graph_generation
        == ballot.request.graph_generation && vote.graph_hash == ballot.request.graph_hash
        && vote.term == ballot.request.term && vote.candidate == ballot.request.candidate
        && vote.voter == peer && ballot.pending.contains(peer) {
        ballot.pending.remove(peer);
        if vote.granted {
            ballot.votes.insert(peer);
        }
    }
}

/// Whether the ballot still waits for answers.
pub fn ballot_open(ballot: &Ballot) -> (r: bool)
    ensures
        r == (ballot@.votes.len() < ballot@.quorum && ballot@.pending
            != Set::<NodeId>::empty()),
{
    let n: usize = ballot.pending.len();
    proof {
        if n == 0 {
            assert(ballot@.pending =~= Set::<NodeId>::empty());
        }
    }
    ballot.votes.len() < ballot.quorum && n > 0
}

/// Too few votes.
#[derive(Clone, Copy, Debug, PartialEq, Eq, Structural)]
pub struct BallotLost {
    pub votes: usize,
    pub quorum: usize,
}

/// The certificate of a won ballot: its voters in byte order.
pub fn close_ballot(ballot: &Ballot) -> (r: Result<Vec<NodeId>, BallotLost>)
    ensures
        match r {
            Ok(certificate) => ballot@.votes.len() >= ballot@.quorum && certificate@ == ascending(
                ballot@.votes,
            ),
            Err(lost) => ballot@.votes.len() < ballot@.quorum && lost.votes == ballot@.votes.len()
                && lost.quorum == ballot@.quorum,
        },
{
    let n: usize = ballot.votes.len();
    if n < ballot.quorum {
        return Err(BallotLost { votes: n, quorum: ballot.quorum });
    }
    Ok(ballot.votes.to_sorted())
}

/// A graph carries the votes of a majority of its parent for its coordinator.
pub open spec fn valid_certificate(
    parent: V4ExecutionGraphView,
    candidate: V4ExecutionGraphView,
) -> bool {
    &&& candidate.parent_graph_generation == Some(parent.graph_generation)
    &&& candidate.graph_generation == sat_u64(parent.graph_generation + 1)
    &&& candidate.coordination_term > parent.coordination_term
    &&& candidate.election_certificate.no_duplicates()
    &&& candidate.election_certificate.len() > parent.workers.len() / 2
    &&& candidate.election_certificate.contains(candidate.coordinator)
    &&& forall|i: int|
        0 <= i < candidate.election_certificate.len() ==> parent.workers.contains(
            #[trigger] candidate.election_certificate[i],
        )
}

/// Whether a graph carries a valid certificate.
pub fn valid_integrated_election_certificate(
    parent: &V4ExecutionGraph,
    candidate: &V4ExecutionGraph,
) -> (r: bool)
    ensures
        r == valid_certificate(parent@, candidate@),
{
    let parent_named = match candidate.parent_graph_generation {
        Some(generation) => generation == parent.graph_generation,
        None => false,
    };
    parent_named && candidate.graph_generation == parent.graph_generation.saturating_add(1)
        && candidate.coordination_term > parent.coordination_term && distinct_ids(
        &candidate.election_certificate,
    ) && candidate.election_certificate.len() > parent.workers.len() / 2 && contains_id(
        &candidate.election_certificate,
        candidate.coordinator,
    ) && all_members(&candidate.election_certificate, &parent.workers)
}

/// One vote of a job may follow another in the store of a node.
pub open spec fn vote_follows(a: V4IntegratedElectionRecord, b: V4IntegratedElectionRecord) -> bool {
    a.job_id == b.job_id && may_vote(Some(a), b.term, b.candidate)
}

/// The votes that a node has stored for a job, in the order in which it gave them:
/// each may follow the one before it.
pub open spec fn vote_history(h: Seq<V4IntegratedElectionRecord>) -> bool {
    forall|i: int| 0 <= i < h.len() - 1 ==> #[trigger] vote_follows(h[i], h[i + 1])
}

/// A node gives one vote for each job and term: two votes that it has stored for a
/// job in one term name the same candidate, whatever graphs they were asked on.
pub proof fn law_one_vote_per_term(h: Seq<V4IntegratedElectionRecord>, i: int, j: int)
    requires
        vote_history(h),
        0 <= i <= j < h.len(),
    ensures
        h[i].term <= h[j].term,
        h[i].term == h[j].term ==> h[i].candidate == h[j].candidate,
    decreases j - i,
{
    if i < j {
        assert(vote_follows(h[j - 1], h[j - 1 + 1]));
        law_one_vote_per_term(h, i, j - 1);
    }
}

/// Of two requests of one job and one term that name different candidates, handled
/// one after the other, the second gets no vote where the first one did.
pub proof fn law_second_candidate_is_refused(
    node: NodeId,
    peer: NodeId,
    given: V4IntegratedElectionRecord,
    request: V4IntegratedElectionRequest,
    graph: V4ExecutionGraphView,
    phase: V4IntegratedPhase,
    stored: bool,
)
    requires
        given.job_id == request.job_id,
        given.term == request.term,
        given.candidate != request.candidate,
    ensures
        ({
            let decision = decision_on(node, peer, request, graph, phase, Some(given));
            let answer = answer_to(node, request, decision, stored);
            &&& !(decision is Granted)
            &&& answer is Some && !answer->0.granted
        }),
{
}

/// A vote is granted in an answer only after it has been stored.
pub proof fn law_granted_vote_is_stored(
    node: NodeId,
    request: V4IntegratedElectionRequest,
    decision: VoteDecision,
    stored: bool,
)
    ensures
        answer_to(node, request, decision, stored) matches Some(vote) && vote.granted ==> stored
            && decision is Granted,
{
}

/// A vote that is granted, and the vote of a candidate for itself, may follow
/// whatever vote the node has stored for the job. A member that may not stand has
/// given the vote of the last term there is.
pub proof fn law_votes_follow_the_stored_vote(
    node: NodeId,
    peer: NodeId,
    request: V4IntegratedElectionRequest,
    graph: V4ExecutionGraphView,
    phase: V4IntegratedPhase,
    stored: V4IntegratedElectionRecord,
    state_hash: ArtifactId,
)
    requires
        stored.job_id == request.job_id,
        stored.job_id == graph.job_id,
    ensures
        decision_on(node, peer, request, graph, phase, Some(stored)) matches VoteDecision::Granted(
            record,
        ) ==> vote_follows(stored, record),
        ({
            let term = next_term(graph, Some(stored));
            let own = record_of(ballot_request(graph, state_hash, node, term));
            &&& may_vote(Some(stored), term, node) ==> vote_follows(stored, own)
            &&& !may_vote(Some(stored), term, node) ==> stored.term == u64::MAX
            &&& graph.coordination_term < u64::MAX ==> term > graph.coordination_term
        }),
{
}

/// Two candidates cannot both win a term: where every voter of a graph chose
/// one candidate for the term, two winning sets of votes name the same one.
pub proof fn law_one_winner_per_term(
    workers: Seq<NodeId>,
    choice: spec_fn(NodeId) -> NodeId,
    votes_a: Set<NodeId>,
    a: NodeId,
    votes_b: Set<NodeId>,
    b: NodeId,
)
    requires
        votes_a.subset_of(workers.to_set()),
        votes_b.subset_of(workers.to_set()),
        votes_a.len() >= quorum_of(workers.len() as int),
        votes_b.len() >= quorum_of(workers.len() as int),
        forall|n: NodeId| #[trigger] votes_a.contains(n) ==> choice(n) == a,
        forall|n: NodeId| #[trigger] votes_b.contains(n) ==> choice(n) == b,
    ensures
        a == b,
{
    vstd::seq_lib::seq_to_set_is_finite(workers);
    workers.lemma_cardinality_of_set();
    lemma_majorities_intersect(votes_a, votes_b, workers.to_set());
    let x = choose|x: NodeId| votes_a.contains(x) && votes_b.contains(x);
    assert(choice(x) == a && choice(x) == b);
}

/// The ballot counts votes of members only, one for each voter.
pub open spec fn ballot_within(ballot: BallotView, graph: V4ExecutionGraphView) -> bool {
    &&& ballot.quorum == quorum_of(graph.workers.len() as int)
    &&& ballot.votes.finite()
    &&& ballot.votes.contains(ballot.request.candidate)
    &&& ballot.votes.subset_of(graph.workers.to_set())
    &&& ballot.pending.subset_of(graph.workers.to_set())
}

/// A ballot counts the votes of members only, whatever answers come in.
pub proof fn law_ballot_counts_members(
    graph: V4ExecutionGraphView,
    request: V4IntegratedElectionRequest,
    ballot: BallotView,
    peer: NodeId,
    vote: V4IntegratedElectionVote,
)
    requires
        graph.workers.contains(request.candidate),
        graph.workers.len() < usize::MAX,
        ballot_within(ballot, graph),
    ensures
        ballot_within(fresh_ballot(graph, request), graph),
        ballot_within(after_vote(ballot, peer, vote), graph),
        graph.workers.contains(peer) ==> ballot_within(
            (BallotView { pending: ballot.pending.insert(peer), ..ballot }),
            graph,
        ),
{
}

/// The graph of an elected replacement is accepted by the other members: the
/// certificate of a won ballot is valid for the reconfigured graph.
pub proof fn law_elected_graph_is_certified(
    ballot: BallotView,
    graph: V4ExecutionGraphView,
    plan: V4TrainingPlanView,
    state: V4IntegratedStateRecord,
    failed: Option<NodeId>,
    joined: Option<NodeId>,
    shown: Option<V4WorkerCapabilityView>,
    branch: ArtifactId,
    split_hashes: Seq<ArtifactId>,
    options: Seq<BackendOptionView>,
)
    requires
        ballot_within(ballot, graph),
        ballot.votes.len() >= ballot.quorum,
        reconfigured(
            ballot.request.candidate,
            graph,
            plan,
            state,
            failed,
            joined,
            shown,
            branch,
            ascending(ballot.votes),
            split_hashes,
            options,
        ) is Ok,
        graph.graph_generation < u64::MAX,
        plan.coordination_term < u64::MAX,
        graph.coordination_term == plan.coordination_term,
    ensures
        valid_certificate(
            graph,
            reconfigured(
                ballot.request.candidate,
                graph,
                plan,
                state,
                failed,
                joined,
                shown,
                branch,
                ascending(ballot.votes),
                split_hashes,
                options,
            )->Ok_0.0,
        ),
{
    let certificate = ascending(ballot.votes);
    lemma_ascending_exists(ballot.votes);
    lemma_strictly_sorted_distinct(certificate);
    certificate.unique_seq_to_set();
    law_reconfigured_graph_advances(
        ballot.request.candidate,
        graph,
        plan,
        state,
        failed,
        joined,
        shown,
        branch,
        certificate,
        split_hashes,
        options,
    );
    assert(certificate.to_set().contains(ballot.request.candidate));
    assert forall|i: int| 0 <= i < certificate.len() implies graph.workers.contains(
        #[trigger] certificate[i],
    ) by {
        assert(certificate.to_set().contains(certificate[i]));
        assert(graph.workers.to_set().contains(certificate[i]));
    }
}

/// A vote is decided by the first thing against it: the candidate asks for itself, is a
/// member, has the graph in force, whose coordinator this node is not, in a stable phase,
/// for a later term; and no other vote of that term stands.
pub proof fn law_votes_are_decided(
    node: NodeId,
    peer: NodeId,
    request: V4IntegratedElectionRequest,
    graph: V4ExecutionGraphView,
    phase: V4IntegratedPhase,
    existing: Option<V4IntegratedElectionRecord>,
)
    ensures
        ({
            let d = decision_on(node, peer, request, graph, phase, existing);
            let good = peer == request.candidate && graph.workers.contains(peer)
                && graph.graph_generation == request.graph_generation && graph.graph_hash
                == request.graph_hash && graph.branch == request.branch && graph.coordinator
                != node && (phase is Running || phase is Partitioned) && request.term
                > graph.coordination_term;
            let free = existing is None || request.term > existing->0.term || (request.term
                == existing->0.term && existing->0.candidate == request.candidate);
            &&& d is Granted <==> good && free
            &&& d is Taken <==> good && !free
            &&& d is NotCandidate <==> peer != request.candidate
            &&& d is NotMember <==> peer == request.candidate && !graph.workers.contains(peer)
            &&& d matches VoteDecision::Granted(record) ==> record.job_id == request.job_id
                && record.graph_generation == request.graph_generation && record.graph_hash
                == request.graph_hash && record.term == request.term && record.candidate
                == request.candidate
        }),
{
}

/// The answer names the voter and the request, grants exactly what was decided, and is
/// withheld when a granted vote could not be stored.
pub proof fn law_answers_name_the_voter(
    node: NodeId,
    request: V4IntegratedElectionRequest,
    decision: VoteDecision,
    stored: bool,
)
    ensures
        answer_to(node, request, decision, stored) is None <==> decision is Granted && !stored,
        answer_to(node, request, decision, stored) matches Some(v) ==> {
            &&& v.voter == node && v.candidate == request.candidate && v.term == request.term
            &&& v.job_id == request.job_id && v.graph_generation == request.graph_generation
            &&& v.graph_hash == request.graph_hash
            &&& v.granted <==> decision is Granted
        },
{
}

/// A candidate stands for a term above that of the graph and of any vote that it gave,
/// the least such one, and asks in its own name about the graph in force.
pub proof fn law_candidates_stand_above_every_term(
    graph: V4ExecutionGraphView,
    existing: Option<V4IntegratedElectionRecord>,
    state_hash: ArtifactId,
    node: NodeId,
)
    requires
        graph.coordination_term < u64::MAX,
        existing matches Some(e) ==> e.term < u64::MAX,
    ensures
        ({
            let t = next_term(graph, existing);
            let b = ballot_request(graph, state_hash, node, t);
            &&& t > graph.coordination_term
            &&& existing matches Some(e) ==> t > e.term
            &&& t == graph.coordination_term + 1 || (existing is Some && t == existing->0.term + 1)
            &&& b.candidate == node && b.term == t && b.state_hash == state_hash
            &&& b.job_id == graph.job_id && b.request_id == graph.job_id
            &&& b.graph_generation == graph.graph_generation && b.graph_hash == graph.graph_hash
            &&& b.branch == graph.branch
        }),
{
}

/// A ballot opens with the candidate's own vote and needs more than half of the members;
/// it counts an answer once, from the member that was asked, to this very request, and as
/// a vote only where it was granted.
pub proof fn law_ballots_count_answers(
    graph: V4ExecutionGraphView,
    request: V4IntegratedElectionRequest,
    ballot: BallotView,
    peer: NodeId,
    vote: V4IntegratedElectionVote,
)
    requires
        graph.workers.len() <= 16,
    ensures
        ({
            let b = fresh_ballot(graph, request);
            &&& b.request == request
            &&& b.votes.contains(peer) <==> peer == request.candidate
            &&& b.pending == Set::<NodeId>::empty()
            &&& 2 * b.quorum > graph.workers.len() && 2 * (b.quorum - 1) <= graph.workers.len()
        }),
        answers_ballot(ballot, peer, vote) <==> (vote.voter == peer && ballot.pending.contains(peer)
            && vote.job_id == ballot.request.job_id && vote.graph_generation
            == ballot.request.graph_generation && vote.graph_hash == ballot.request.graph_hash
            && vote.term == ballot.request.term && vote.candidate == ballot.request.candidate),
        ({
            let a = after_vote(ballot, peer, vote);
            &&& !answers_ballot(ballot, peer, vote) ==> a == ballot
            &&& answers_ballot(ballot, peer, vote) ==> a.pending == ballot.pending.remove(peer)
            &&& answers_ballot(ballot, peer, vote) && vote.granted ==> a.votes
                == ballot.votes.insert(peer)
            &&& !vote.granted ==> a.votes == ballot.votes
            &&& a.quorum == ballot.quorum && a.request == ballot.request
        }),
{
}

/// The rank of a member is the number of members before it in byte order; whoever is no
/// member comes after all.
pub proof fn law_rank_counts_members_before(members: Seq<NodeId>, node: NodeId, other: NodeId)
    ensures
        !members.contains(node) ==> rank_in(members, node) == members.len(),
        members.contains(node) ==> rank_in(members, node) < members.len(),
        members.contains(node) ==> rank_in(members, node) == members.filter(
            |n: NodeId| id_lt(n, node),
        ).len(),
        members.contains(node) && members.contains(other) && id_lt(other, node) ==> rank_in(
            members,
            node,
        ) > 0,
{
    if members.contains(node) {
        let p = before(node);
        assert(p =~= |n: NodeId| id_lt(n, node));
        crate::base::search::lemma_filter_contains(members, p);
        lemma_filter_skips(members, p, members.index_of(node));
        if members.contains(other) && id_lt(other, node) {
            assert(members.filter(p).contains(other));
            assert(members.filter(p).len() > 0);
        }
    }
}

proof fn lemma_filter_skips(s: Seq<NodeId>, p: spec_fn(NodeId) -> bool, i: int)
    requires
        0 <= i < s.len(),
        !p(s[i]),
    ensures
        s.filter(p).len() < s.len(),
    decreases s.len(),
{
    reveal(Seq::filter);
    let rest = s.drop_last();
    rest.lemma_filter_len(p);
    if i < s.len() - 1 {
        lemma_filter_skips(rest, p, i);
    }
}

/// A certificate holds only for the next graph of a later term, with distinct members of
/// its parent, more than half of them, the new coordinator among them.
pub proof fn law_certificates_are_of_a_majority(
    parent: V4ExecutionGraphView,
    candidate: V4ExecutionGraphView,
    i: int,
)
    requires
        valid_certificate(parent, candidate),
        parent.graph_generation < u64::MAX,
    ensures
        candidate.parent_graph_generation == Some(parent.graph_generation),
        candidate.graph_generation == parent.graph_generation + 1,
        candidate.coordination_term > parent.coordination_term,
        candidate.election_certificate.no_duplicates(),
        2 * candidate.election_certificate.len() > parent.workers.len(),
        candidate.election_certificate.contains(candidate.coordinator),
        0 <= i < candidate.election_certificate.len() ==> parent.workers.contains(
            candidate.election_certificate[i],
        ),
{
}

} // verus!
