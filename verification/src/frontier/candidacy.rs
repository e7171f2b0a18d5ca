//! How a candidate asks the members of a graph for their votes.

use crate::base::ids::NodeId;
use crate::base::members::{ascending, filter_other_than};
use crate::base::search::other_than;
use crate::frontier::control::{V4IntegratedElectionRequest, V4IntegratedElectionVote};
use crate::frontier::types::{V4ExecutionGraph, V4ExecutionGraphView};
use crate::frontier::voting::{
    after_vote, ballot_open, ballot_within, close_ballot, fresh_ballot, law_ballot_counts_members,
    note_vote, open_ballot, voter_reached, Ballot, BallotLost, BallotView,
};
use vstd::prelude::*;

verus! {

/// Where a candidacy stands.
#[derive(Clone, Copy, Debug, PartialEq, Eq, Structural)]
pub enum CandidacyStep {
    /// A voter is asked.
    Asking { place: usize },
    /// The voters have to answer.
    Votes,
    Over,
}

/// A running candidacy.
#[derive(Debug)]
pub struct Candidacy {
    pub ballot: Ballot,
    pub step: CandidacyStep,
}

/// The contents of a [`Candidacy`].
#[verifier::ext_equal]
pub struct CandidacyView {
    pub ballot: BallotView,
    pub step: CandidacyStep,
}

impl View for Candidacy {
    type V = CandidacyView;

    open spec fn view(&self) -> CandidacyView {
        CandidacyView { ballot: self.ballot@, step: self.step }
    }
}

/// What a candidate learns.
#[derive(Clone, Copy, Debug, PartialEq, Eq, Structural)]
pub enum CandidacyEvent {
    /// Whether the request reached the voter.
    Asked(bool),
    /// An answer came from a peer.
    Vote(NodeId, V4IntegratedElectionVote),
    OtherMessage,
    /// The time for answers is over, or none can come any more.
    NoMessage,
}

/// What a candidate does next.
#[derive(Debug, PartialEq, Eq)]
pub enum CandidacyAction {
    /// Send the request of the ballot to a voter.
    Ask(NodeId),
    /// Wait for a message.
    Wait,
    /// The ballot is won: its voters in byte order.
    Won(Vec<NodeId>),
    Lost(BallotLost),
    /// The event was not awaited.
    Ignore,
}

/// The contents of a [`CandidacyAction`].
pub enum CandidacyActionView {
    Ask(NodeId),
    Wait,
    Won(Seq<NodeId>),
    Lost(BallotLost),
    Ignore,
}

impl View for CandidacyAction {
    type V = CandidacyActionView;

    open spec fn view(&self) -> CandidacyActionView {
        match self {
            CandidacyAction::Ask(voter) => CandidacyActionView::Ask(*voter),
            CandidacyAction::Wait => CandidacyActionView::Wait,
            CandidacyAction::Won(certificate) => CandidacyActionView::Won(certificate@),
            CandidacyAction::Lost(lost) => CandidacyActionView::Lost(*lost),
            CandidacyAction::Ignore => CandidacyActionView::Ignore,
        }
    }
}

/// The members that a candidate asks: all but itself.
pub open spec fn voters_of(graph: V4ExecutionGraphView, candidate: NodeId) -> Seq<NodeId> {
    graph.workers.filter(other_than(candidate))
}

/// The ballot is closed.
pub open spec fn votes_counted(c: CandidacyView) -> (CandidacyView, CandidacyActionView) {
    (
        CandidacyView { step: CandidacyStep::Over, ..c },
        if c.ballot.votes.len() >= c.ballot.quorum {
            CandidacyActionView::Won(ascending(c.ballot.votes))
        } else {
            CandidacyActionView::Lost(
                BallotLost { votes: c.ballot.votes.len() as usize, quorum: c.ballot.quorum },
            )
        },
    )
}

/// The ballot stays open while it is not won and answers can come.
pub open spec fn votes_awaited(c: CandidacyView) -> (CandidacyView, CandidacyActionView) {
    if c.ballot.votes.len() < c.ballot.quorum && c.ballot.pending != Set::<NodeId>::empty() {
        (CandidacyView { step: CandidacyStep::Votes, ..c }, CandidacyActionView::Wait)
    } else {
        votes_counted(c)
    }
}

/// The voter at `place` is asked.
pub open spec fn voter_asked(c: CandidacyView, graph: V4ExecutionGraphView, place: int) -> (
    CandidacyView,
    CandidacyActionView,
) {
    let voters = voters_of(graph, c.ballot.request.candidate);
    if place < voters.len() {
        (
            CandidacyView { step: CandidacyStep::Asking { place: place as usize }, ..c },
            CandidacyActionView::Ask(voters[place]),
        )
    } else {
        votes_awaited(c)
    }
}

/// The next step of a candidacy.
pub open spec fn candidacy_stepped(
    c: CandidacyView,
    graph: V4ExecutionGraphView,
    event: CandidacyEvent,
) -> (CandidacyView, CandidacyActionView) {
    let voters = voters_of(graph, c.ballot.request.candidate);
    match (c.step, event) {
        (CandidacyStep::Asking { place }, CandidacyEvent::Asked(reached)) => if place
            >= voters.len() {
            (c, CandidacyActionView::Ignore)
        } else if reached {
            let ballot = BallotView {
                pending: c.ballot.pending.insert(voters[place as int]),
                ..c.ballot
            };
            voter_asked(CandidacyView { ballot, ..c }, graph, place + 1)
        } else {
            voter_asked(c, graph, place + 1)
        },
        (CandidacyStep::Votes, CandidacyEvent::Vote(peer, vote)) => votes_awaited(
            CandidacyView { ballot: after_vote(c.ballot, peer, vote), ..c },
        ),
        (CandidacyStep::Votes, CandidacyEvent::OtherMessage) => (c, CandidacyActionView::Wait),
        (CandidacyStep::Votes, CandidacyEvent::NoMessage) => votes_counted(c),
        _ => (c, CandidacyActionView::Ignore),
    }
}

fn count_votes(c: &mut Candidacy) -> (r: CandidacyAction)
    ensures
        (final(c)@, r@) == votes_counted(old(c)@),
{
    c.step = CandidacyStep::Over;
    match close_ballot(&c.ballot) {
        Ok(certificate) => CandidacyAction::Won(certificate),
        Err(lost) => CandidacyAction::Lost(lost),
    }
}

fn await_votes(c: &mut Candidacy) -> (r: CandidacyAction)
    ensures
        (final(c)@, r@) == votes_awaited(old(c)@),
{
    if ballot_open(&c.ballot) {
        c.step = CandidacyStep::Votes;
        CandidacyAction::Wait
    } else {
        count_votes(c)
    }
}

fn ask_voter(c: &mut Candidacy, graph: &V4ExecutionGraph, place: usize) -> (r: CandidacyAction)
    ensures
        (final(c)@, r@) == voter_asked(old(c)@, graph@, place as int),
{
    let voters = filter_other_than(&graph.workers, c.ballot.request.candidate);
    if place < voters.len() {
        c.step = CandidacyStep::Asking { place };
        CandidacyAction::Ask(voters[place])
    } else {
        await_votes(c)
    }
}

/// Open the ballot of a candidate, and ask the first voter.
pub fn begin_candidacy(graph: &V4ExecutionGraph, request: &V4IntegratedElectionRequest) -> (r: (
    Candidacy,
    CandidacyAction,
))
    ensures
        (r.0@, r.1@) == voter_asked(
            (CandidacyView { ballot: fresh_ballot(graph@, *request), step: CandidacyStep::Over }),
            graph@,
            0,
        ),
{
    let ballot = open_ballot(graph, request);
    let mut c = Candidacy { ballot, step: CandidacyStep::Over };
    let action = ask_voter(&mut c, graph, 0);
    (c, action)
}

/// Take a candidacy one step on.
pub fn request_integrated_election(
    c: &mut Candidacy,
    graph: &V4ExecutionGraph,
    event: CandidacyEvent,
) -> (r: CandidacyAction)
    ensures
        (final(c)@, r@) == candidacy_stepped(old(c)@, graph@, event),
{
    match (c.step, event) {
        (CandidacyStep::Asking { place }, CandidacyEvent::Asked(reached)) => {
            let voters = filter_other_than(&graph.workers, c.ballot.request.candidate);
            if place >= voters.len() {
                CandidacyAction::Ignore
            } else {
                if reached {
                    voter_reached(&mut c.ballot, voters[place]);
                }
                ask_voter(c, graph, place + 1)
            }
        },
        (CandidacyStep::Votes, CandidacyEvent::Vote(peer, vote)) => {
            note_vote(&mut c.ballot, peer, &vote);
            await_votes(c)
        },
        (CandidacyStep::Votes, CandidacyEvent::OtherMessage) => CandidacyAction::Wait,
        (CandidacyStep::Votes, CandidacyEvent::NoMessage) => count_votes(c),
        _ => CandidacyAction::Ignore,
    }
}

/// A candidacy counts the votes of members only, and it is won exactly by the
/// votes of a majority of them.
pub proof fn law_office_needs_a_majority(
    c: CandidacyView,
    graph: V4ExecutionGraphView,
    event: CandidacyEvent,
)
    requires
        ballot_within(c.ballot, graph),
        graph.workers.contains(c.ballot.request.candidate),
        graph.workers.len() < usize::MAX,
    ensures
        ballot_within(candidacy_stepped(c, graph, event).0.ballot, graph),
        candidacy_stepped(c, graph, event).1 matches CandidacyActionView::Won(certificate) ==> {
            let after = candidacy_stepped(c, graph, event).0.ballot;
            &&& after.votes.len() >= graph.workers.len() / 2 + 1
            &&& certificate == ascending(after.votes)
        },
{
    let voters = voters_of(graph, c.ballot.request.candidate);
    match (c.step, event) {
        (CandidacyStep::Asking { place }, CandidacyEvent::Asked(_)) => {
            if place < voters.len() {
                let voter = voters[place as int];
                crate::base::search::lemma_filter_contains(
                    graph.workers,
                    other_than(c.ballot.request.candidate),
                );
                assert(voters.contains(voter));
                assert(graph.workers.contains(voter));
                assert(graph.workers.to_set().contains(voter));
            }
        },
        (_, CandidacyEvent::Vote(peer, vote)) => {
            law_ballot_counts_members(graph, c.ballot.request, c.ballot, peer, vote);
        },
        _ => {},
    }
}

/// A candidate asks every member but itself, and wins exactly with a quorum of votes: the
/// certificate then names the voters, each once. Short of it, the result tells how many
/// votes there were.
pub proof fn law_ballot_is_won_by_a_quorum(
    c: CandidacyView,
    graph: V4ExecutionGraphView,
    candidate: NodeId,
    peer: NodeId,
)
    requires
        c.ballot.votes.finite(),
        c.ballot.votes.len() <= usize::MAX,
    ensures
        voters_of(graph, candidate).contains(peer) <==> graph.workers.contains(peer) && peer
            != candidate,
        ({
            let (after, action) = votes_counted(c);
            &&& c.ballot.votes.len() >= c.ballot.quorum <==> action is Won
            &&& action is Won ==> (action->Won_0.contains(peer) <==> c.ballot.votes.contains(peer))
            &&& action is Won ==> action->Won_0.len() == c.ballot.votes.len()
            &&& !(action is Won) ==> action is Lost && action->Lost_0.votes == c.ballot.votes.len()
                && action->Lost_0.quorum == c.ballot.quorum
        }),
        ({
            let (after, action) = votes_awaited(c);
            &&& c.ballot.votes.len() >= c.ballot.quorum ==> action is Won
            &&& c.ballot.votes.len() < c.ballot.quorum && c.ballot.pending.contains(peer)
                ==> action is Wait
        }),
        c.step is Votes ==> (candidacy_stepped(c, graph, CandidacyEvent::NoMessage).1 is Won
            <==> c.ballot.votes.len() >= c.ballot.quorum),
{
    crate::base::search::lemma_filter_contains(graph.workers, other_than(candidate));
    crate::base::members::lemma_ascending_exists(c.ballot.votes);
    let listed = ascending(c.ballot.votes);
    assert(listed.contains(peer) <==> listed.to_set().contains(peer));
    crate::base::members::lemma_strictly_sorted_distinct(listed);
    listed.unique_seq_to_set();
}

/// A voter that was reached is waited for, one that was not is passed over, and the next
/// one is asked.
pub proof fn law_voters_are_asked_in_turn(
    c: CandidacyView,
    graph: V4ExecutionGraphView,
    place: usize,
    reached: bool,
)
    requires
        c.step == (CandidacyStep::Asking { place }),
        place + 1 < voters_of(graph, c.ballot.request.candidate).len() <= usize::MAX,
    ensures
        ({
            let voters = voters_of(graph, c.ballot.request.candidate);
            let (after, action) = candidacy_stepped(c, graph, CandidacyEvent::Asked(reached));
            &&& action == CandidacyActionView::Ask(voters[place + 1])
            &&& reached ==> after.ballot.pending == c.ballot.pending.insert(voters[place as int])
            &&& !reached ==> after.ballot.pending == c.ballot.pending
            &&& after.ballot.votes == c.ballot.votes
        }),
{
}

} // verus!
