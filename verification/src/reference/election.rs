//! The election of a new coordinator: who stands, how votes and recovery
//! metadata are taken in, and what a won campaign changes.

use crate::base::arith::{max_int, max_u64, sat_u64};
use crate::base::ids::{ArtifactId, NodeId};
use crate::base::members::{
    contains_id, filter_outside, least, least_id, lemma_least, lemma_majorities_intersect, NodeSet,
};
use crate::base::ordered::ordered_values;
use crate::base::search::{lemma_filter_contains, outside, views};
use crate::reference::context::{
    any_newer, is_newer, law_newer_summaries_advance, merge_newer, state_of, with_newer, Context,
    ContextView,
};
use crate::reference::sgd::{quorum, quorum_of};
use crate::reference::types::{
    Role, TrainingAck, TrainingAckKind, TrainingElection, TrainingGroupView, TrainingState,
    TrainingStateView,
};
use crate::reference::worker::first_hash;
use vstd::prelude::*;

verus! {

/// How often a candidate asks for votes.
pub const ELECTION_ATTEMPTS: usize = 3;

/// The aggregators of the groups.
pub open spec fn aggregators(groups: Seq<TrainingGroupView>) -> Set<NodeId> {
    groups.map_values(|g: TrainingGroupView| g.aggregator).to_set()
}

/// The live participants, without the aggregators where that leaves any.
pub open spec fn candidates(c: ContextView) -> Seq<NodeId> {
    let free = c.start.participants.filter(outside(c.failed)).filter(
        outside(aggregators(c.start.groups)),
    );
    if free.len() > 0 {
        free
    } else {
        c.start.participants.filter(outside(c.failed))
    }
}

fn candidate_of(context: &Context) -> (r: Option<NodeId>)
    ensures
        r == least(candidates(context@)),
{
    let mut leaders: Vec<NodeId> = Vec::new();
    let mut i: usize = 0;
    let ghost g = views(context.start.groups@).map_values(|g: TrainingGroupView| g.aggregator);
    while i < context.start.groups.len()
        invariant
            0 <= i <= context.start.groups@.len(),
            g == views(context.start.groups@).map_values(|g: TrainingGroupView| g.aggregator),
            leaders@ == g.take(i as int),
        decreases context.start.groups@.len() - i,
    {
        leaders.push(context.start.groups[i].aggregator);
        assert(leaders@ =~= g.take(i as int + 1));
        i += 1;
    }
    assert(g.take(i as int) =~= g);
    let leaders = NodeSet::from_ids(&leaders);
    let live = filter_outside(&context.start.participants, &context.failed);
    let free = filter_outside(&live, &leaders);
    if free.len() > 0 {
        least_id(&free)
    } else {
        least_id(&live)
    }
}

/// A running campaign.
#[derive(Debug)]
pub struct Campaign {
    /// The request that voters are sent.
    pub election: TrainingElection,
    /// The term that the failed coordinator held.
    pub previous_term: u64,
    pub previous_coordinator: NodeId,
    pub failed_coordinator: NodeId,
    pub votes: NodeSet,
    /// The votes that win.
    pub quorum: usize,
}

/// What becomes of the loss of a coordinator.
#[derive(Debug)]
pub enum ElectionStart {
    /// No live participant remains.
    NoCandidate,
    /// Another participant stands.
    Defer(NodeId),
    /// This node stands.
    Stand(Campaign),
}

/// The request of a candidate for the next term.
pub open spec fn election_request(c: ContextView, candidate: NodeId) -> TrainingElection {
    TrainingElection {
        job_id: c.start.job_id,
        candidate,
        term: sat_u64(c.term + 1) as u64,
        membership_epoch: c.start.membership_epoch,
        branch: c.branch,
        last_window: c.window,
        last_state_hash: first_hash(ordered_values(c.shard_summaries)),
    }
}

/// The coordinator is lost: find out who stands for the next term.
pub fn begin_election(context: &mut Context, node: NodeId, failed_coordinator: NodeId) -> (r:
    ElectionStart)
    ensures
        ({
            let c = ContextView {
                failed: old(context)@.failed.insert(failed_coordinator),
                ..old(context)@
            };
            let chosen = least(candidates(c));
            &&& final(context)@ == c
            &&& match r {
                ElectionStart::NoCandidate => chosen is None,
                ElectionStart::Defer(other) => chosen == Some(other) && other != node,
                ElectionStart::Stand(campaign) => {
                    &&& chosen == Some(node)
                    &&& campaign.election == election_request(c, node)
                    &&& campaign.previous_term == c.term
                    &&& campaign.previous_coordinator == c.coordinator
                    &&& campaign.failed_coordinator == failed_coordinator
                    &&& campaign.votes@ == Set::<NodeId>::empty().insert(node)
                    &&& campaign.quorum == quorum_of(c.start.participants.len() as int)
                },
            }
        }),
{
    context.failed.insert(failed_coordinator);
    let candidate = match candidate_of(context) {
        None => {
            return ElectionStart::NoCandidate;
        },
        Some(candidate) => candidate,
    };
    if candidate != node {
        return ElectionStart::Defer(candidate);
    }
    let last_state_hash = match context.shard_summaries.first() {
        Some(summary) => summary.state_hash,
        None => ArtifactId::unsigned(),
    };
    let election = TrainingElection {
        job_id: context.start.job_id,
        candidate,
        term: context.term.saturating_add(1),
        membership_epoch: context.start.membership_epoch,
        branch: context.branch,
        last_window: context.window,
        last_state_hash,
    };
    let mut votes = NodeSet::new();
    votes.insert(node);
    ElectionStart::Stand(
        Campaign {
            election,
            previous_term: context.term,
            previous_coordinator: context.coordinator,
            failed_coordinator,
            votes,
            quorum: quorum(context.start.participants.len()),
        },
    )
}

/// Whether votes are still missing.
pub fn is_open(campaign: &Campaign) -> (r: bool)
    ensures
        r == (campaign.votes@.len() < campaign.quorum),
{
    campaign.votes.len() < campaign.quorum
}

/// An acknowledgement that is a vote for this campaign.
pub open spec fn is_vote(
    c: ContextView,
    election: TrainingElection,
    node: NodeId,
    peer: NodeId,
    ack: TrainingAck,
) -> bool {
    &&& peer != node
    &&& peer == ack.peer
    &&& c.start.participants.contains(peer)
    &&& ack.job_id == c.start.job_id
    &&& ack.term == election.term
    &&& ack.kind matches TrainingAckKind::Vote { candidate, term, granted, .. } && term
        == election.term && candidate == election.candidate && granted
}

/// Take in an acknowledgement while votes are gathered. The result tells
/// whether it was a vote for this campaign.
pub fn count_vote(
    context: &Context,
    campaign: &mut Campaign,
    node: NodeId,
    peer: NodeId,
    ack: &TrainingAck,
) -> (r: bool)
    ensures
        r == is_vote(context@, old(campaign).election, node, peer, *ack),
        final(campaign).votes@ == (if r {
            old(campaign).votes@.insert(peer)
        } else {
            old(campaign).votes@
        }),
        final(campaign).election == old(campaign).election,
        final(campaign).previous_term == old(campaign).previous_term,
        final(campaign).previous_coordinator == old(campaign).previous_coordinator,
        final(campaign).failed_coordinator == old(campaign).failed_coordinator,
        final(campaign).quorum == old(campaign).quorum,
{
    let vote = match ack.kind {
        TrainingAckKind::Vote { candidate, term, granted, .. } => peer != node && peer == ack.peer
            && contains_id(&context.start.participants, peer) && ack.job_id
            == context.start.job_id && ack.term == campaign.election.term && term
            == campaign.election.term && candidate == campaign.election.candidate && granted,
        _ => false,
    };
    if vote {
        campaign.votes.insert(peer);
    }
    vote
}

/// Recovery metadata of the term that just ended that tells something new.
pub open spec fn is_recovery(
    c: ContextView,
    previous_term: u64,
    previous_coordinator: NodeId,
    node: NodeId,
    peer: NodeId,
    s: TrainingStateView,
) -> bool {
    &&& peer != node
    &&& c.start.participants.contains(peer)
    &&& s.job_id == c.start.job_id
    &&& s.branch == c.branch
    &&& s.term == previous_term
    &&& s.coordinator == previous_coordinator
    &&& (s.window > c.window || s.checkpoint_generation > c.checkpoint_generation
        || exists|i: int|
        0 <= i < s.shards.len() && is_newer(c.shard_summaries, #[trigger] s.shards[i]))
}

/// The state knows a checkpoint of a later generation, or that of a generation of
/// which the context holds none.
pub open spec fn newer_checkpoint(c: ContextView, s: TrainingStateView) -> bool {
    s.checkpoint_generation > c.checkpoint_generation || (s.checkpoint_generation
        == c.checkpoint_generation && c.checkpoint is None)
}

/// The context after taking in recovery metadata.
pub open spec fn recovered(c: ContextView, s: TrainingStateView) -> ContextView {
    ContextView {
        window: max_int(c.window as int, s.window as int) as u64,
        checkpoint_generation: max_int(
            c.checkpoint_generation as int,
            s.checkpoint_generation as int,
        ) as u64,
        checkpoint: if newer_checkpoint(c, s) {
            s.checkpoint
        } else {
            c.checkpoint
        },
        shard_summaries: with_newer(c.shard_summaries, s.shards),
        ..c
    }
}

/// Take in a state that a voter sends along. The result tells whether it was
/// recovery metadata.
pub fn take_recovery(
    context: &mut Context,
    campaign: &Campaign,
    node: NodeId,
    peer: NodeId,
    state: &TrainingState,
) -> (r: bool)
    ensures
        r == is_recovery(
            old(context)@,
            campaign.previous_term,
            campaign.previous_coordinator,
            node,
            peer,
            state@,
        ),
        final(context)@ == (if r {
            recovered(old(context)@, state@)
        } else {
            old(context)@
        }),
{
    if peer == node || !contains_id(&context.start.participants, peer) || state.job_id
        != context.start.job_id || state.branch != context.branch || state.term
        != campaign.previous_term || state.coordinator != campaign.previous_coordinator {
        return false;
    }
    let news = state.window > context.window || state.checkpoint_generation
        > context.checkpoint_generation || any_newer(&context.shard_summaries, &state.shards);
    if !news {
        return false;
    }
    context.window = max_u64(context.window, state.window);
    if state.checkpoint_generation > context.checkpoint_generation || (state.checkpoint_generation
        == context.checkpoint_generation && context.checkpoint.is_none()) {
        context.checkpoint_generation = state.checkpoint_generation;
        context.checkpoint = state.checkpoint;
    }
    merge_newer(&mut context.shard_summaries, &state.shards);
    true
}

/// A campaign that ended without a quorum.
#[derive(Clone, Copy, Debug, PartialEq, Eq, Structural)]
pub struct NoQuorum {
    pub received: usize,
    pub required: usize,
}

/// The context of the coordinator of a new term.
pub open spec fn won(
    c: ContextView,
    node: NodeId,
    term: u64,
    failed_coordinator: NodeId,
) -> ContextView {
    ContextView {
        role: Role::Coordinator,
        term,
        coordinator: node,
        voted_term: term,
        voted_candidate: Some(node),
        failed: Set::empty().insert(failed_coordinator),
        ..c
    }
}

/// Close the campaign: with a quorum this node becomes the coordinator and has
/// the state in the result to persist and publish.
pub fn finish_election(context: &mut Context, campaign: &Campaign, node: NodeId) -> (r: Result<
    TrainingState,
    NoQuorum,
>)
    ensures
        ({
            let c = old(context)@;
            let after = won(c, node, campaign.election.term, campaign.failed_coordinator);
            match r {
                Ok(state) => campaign.votes@.len() >= campaign.quorum && final(context)@ == after
                    && state@ == state_of(after),
                Err(e) => campaign.votes@.len() < campaign.quorum && final(context)@ == c
                    && e.received == campaign.votes@.len() && e.required == campaign.quorum,
            }
        }),
{
    let received = campaign.votes.len();
    if received < campaign.quorum {
        return Err(NoQuorum { received, required: campaign.quorum });
    }
    context.role = Role::Coordinator;
    context.term = campaign.election.term;
    context.coordinator = node;
    context.voted_term = campaign.election.term;
    context.voted_candidate = Some(node);
    context.failed.clear();
    context.failed.insert(campaign.failed_coordinator);
    Ok(context.state())
}

/// The candidate is a live participant.
pub proof fn law_candidate_is_live_participant(c: ContextView, candidate: NodeId)
    requires
        least(candidates(c)) == Some(candidate),
    ensures
        c.start.participants.contains(candidate),
        !c.failed.contains(candidate),
{
    lemma_least(candidates(c));
    let live = c.start.participants.filter(outside(c.failed));
    lemma_filter_contains(c.start.participants, outside(c.failed));
    lemma_filter_contains(live, outside(aggregators(c.start.groups)));
}

/// An aggregator stands only where every live participant is one.
pub proof fn law_aggregator_stands_last(c: ContextView, candidate: NodeId, other: NodeId)
    requires
        least(candidates(c)) == Some(candidate),
        aggregators(c.start.groups).contains(candidate),
        c.start.participants.contains(other),
        !c.failed.contains(other),
    ensures
        aggregators(c.start.groups).contains(other),
{
    let live = c.start.participants.filter(outside(c.failed));
    let free = live.filter(outside(aggregators(c.start.groups)));
    lemma_least(candidates(c));
    lemma_filter_contains(c.start.participants, outside(c.failed));
    lemma_filter_contains(live, outside(aggregators(c.start.groups)));
    if !aggregators(c.start.groups).contains(other) {
        assert(live.contains(other));
        assert(free.contains(other));
        assert(free.len() > 0);
        assert(free.contains(candidate));
    }
}

/// Two vote sets that each reach the quorum of one membership share a voter.
pub proof fn law_quorums_intersect(
    participants: Seq<NodeId>,
    a: Set<NodeId>,
    b: Set<NodeId>,
)
    requires
        a.subset_of(participants.to_set()),
        b.subset_of(participants.to_set()),
        a.len() >= quorum_of(participants.len() as int),
        b.len() >= quorum_of(participants.len() as int),
    ensures
        exists|x: NodeId| a.contains(x) && b.contains(x),
{
    vstd::seq_lib::seq_to_set_is_finite(participants);
    participants.lemma_cardinality_of_set();
    lemma_majorities_intersect(a, b, participants.to_set());
}

/// Votes come from participants only: counting one keeps the votes inside the
/// membership.
pub proof fn law_votes_are_participants(
    c: ContextView,
    votes: Set<NodeId>,
    election: TrainingElection,
    node: NodeId,
    peer: NodeId,
    ack: TrainingAck,
)
    requires
        votes.subset_of(c.start.participants.to_set()),
        is_vote(c, election, node, peer, ack),
    ensures
        votes.insert(peer).subset_of(c.start.participants.to_set()),
{
}

/// Recovery metadata never moves the window, the checkpoint or a shard backwards,
/// and leaves the term and the branch alone. A checkpoint that is held gives way
/// only to one of a later generation.
pub proof fn law_recovery_moves_forward(c: ContextView, s: TrainingStateView, shard: u16)
    ensures
        recovered(c, s).window >= c.window,
        recovered(c, s).checkpoint_generation >= c.checkpoint_generation,
        c.checkpoint is Some && recovered(c, s).checkpoint != c.checkpoint ==> recovered(
            c,
            s,
        ).checkpoint_generation > c.checkpoint_generation && recovered(c, s).checkpoint
            == s.checkpoint,
        recovered(c, s).term == c.term,
        recovered(c, s).coordinator == c.coordinator,
        recovered(c, s).branch == c.branch,
        c.shard_summaries.contains_key(shard) ==> recovered(c, s).shard_summaries.contains_key(
            shard,
        ) && recovered(c, s).shard_summaries[shard].generation
            >= c.shard_summaries[shard].generation,
{
    law_newer_summaries_advance(c.shard_summaries, s.shards);
}

/// A won election raises the term and keeps the committed training state.
pub proof fn law_election_keeps_progress(c: ContextView, node: NodeId, failed_coordinator: NodeId)
    requires
        c.term < u64::MAX,
    ensures
        ({
            let after = won(c, node, election_request(c, node).term, failed_coordinator);
            &&& after.term == c.term + 1
            &&& after.window == c.window
            &&& after.checkpoint_generation == c.checkpoint_generation
            &&& after.checkpoint == c.checkpoint
            &&& after.shard_summaries == c.shard_summaries
            &&& after.branch == c.branch
            &&& after.value == c.value
            &&& after.optimizer == c.optimizer
        }),
{
}

/// A candidate stands for the term after the one in force, in its own name, and tells the
/// window that it has reached and the job that it is about.
pub proof fn law_candidate_stands_for_the_next_term(c: ContextView, candidate: NodeId)
    requires
        c.term < u64::MAX,
    ensures
        ({
            let e = election_request(c, candidate);
            &&& e.term == c.term + 1
            &&& e.candidate == candidate
            &&& e.job_id == c.start.job_id
            &&& e.membership_epoch == c.start.membership_epoch
            &&& e.branch == c.branch
            &&& e.last_window == c.window
        }),
{
}

/// Any live participant that aggregates nothing may stand, and where there is none every
/// live participant may.
pub proof fn law_who_may_stand(c: ContextView, peer: NodeId)
    ensures
        candidates(c).contains(peer) ==> c.start.participants.contains(peer)
            && !c.failed.contains(peer),
        c.start.participants.contains(peer) && !c.failed.contains(peer) && (forall|i: int|
            0 <= i < c.start.groups.len() ==> (#[trigger] c.start.groups[i]).aggregator != peer)
            ==> candidates(c).contains(peer),
{
    let live = c.start.participants.filter(outside(c.failed));
    let leaders = aggregators(c.start.groups);
    crate::base::search::lemma_filter_contains(c.start.participants, outside(c.failed));
    crate::base::search::lemma_filter_contains(live, outside(leaders));
    let names = c.start.groups.map_values(|g: TrainingGroupView| g.aggregator);
    if forall|i: int|
        0 <= i < c.start.groups.len() ==> (#[trigger] c.start.groups[i]).aggregator != peer {
        if leaders.contains(peer) {
            let i = names.index_of(peer);
            assert(c.start.groups[i].aggregator == peer);
        }
        if c.start.participants.contains(peer) && !c.failed.contains(peer) {
            assert(live.contains(peer));
            assert(live.filter(outside(leaders)).contains(peer));
            assert(live.filter(outside(leaders)).len() > 0);
        }
    }
}

/// A vote counts exactly when another participant grants it itself, to this candidate, in
/// this term, for this job: the very answer that a voter who grants it gives.
pub proof fn law_votes_counted(
    c: ContextView,
    e: TrainingElection,
    node: NodeId,
    peer: NodeId,
    ack: TrainingAck,
    voter: ContextView,
)
    ensures
        is_vote(c, e, node, peer, ack) ==> {
            &&& peer != node && peer == ack.peer && c.start.participants.contains(peer)
            &&& ack.job_id == c.start.job_id && ack.term == e.term
            &&& ack.kind is Vote && ack.kind->granted && ack.kind->candidate == e.candidate
            &&& ack.kind->Vote_term == e.term
        },
        e.job_id == c.start.job_id && peer != node && c.start.participants.contains(peer)
            && crate::reference::worker::vote_reply(voter, peer, e.candidate, e) is Some && e.term
            > voter.term ==> is_vote(
            c,
            e,
            node,
            peer,
            crate::reference::worker::vote_reply(voter, peer, e.candidate, e)->0.ack,
        ),
{
}

/// Recovery metadata is taken only from another participant, for this job and branch, of
/// the term and coordinator that just ended. It brings the later window and the later
/// checkpoint.
pub proof fn law_recovery_takes_the_later(
    c: ContextView,
    previous_term: u64,
    previous_coordinator: NodeId,
    node: NodeId,
    peer: NodeId,
    s: TrainingStateView,
)
    ensures
        is_recovery(c, previous_term, previous_coordinator, node, peer, s) ==> peer != node
            && c.start.participants.contains(peer) && s.job_id == c.start.job_id && s.branch
            == c.branch && s.term == previous_term && s.coordinator == previous_coordinator,
        peer != node && c.start.participants.contains(peer) && s.job_id == c.start.job_id
            && s.branch == c.branch && s.term == previous_term && s.coordinator
            == previous_coordinator && (s.window > c.window || s.checkpoint_generation
            > c.checkpoint_generation) ==> is_recovery(
            c,
            previous_term,
            previous_coordinator,
            node,
            peer,
            s,
        ),
        ({
            let r = recovered(c, s);
            &&& s.window >= c.window ==> r.window == s.window
            &&& s.window <= c.window ==> r.window == c.window
            &&& s.checkpoint_generation > c.checkpoint_generation ==> r.checkpoint_generation
                == s.checkpoint_generation && r.checkpoint == s.checkpoint
            &&& s.checkpoint_generation < c.checkpoint_generation ==> r.checkpoint_generation
                == c.checkpoint_generation && r.checkpoint == c.checkpoint
            &&& s.checkpoint_generation == c.checkpoint_generation && c.checkpoint is Some
                ==> r.checkpoint == c.checkpoint
            &&& s.checkpoint_generation == c.checkpoint_generation && c.checkpoint is None
                ==> r.checkpoint == s.checkpoint
            &&& r.term == c.term && r.start == c.start && r.value == c.value
        }),
{
}

/// Who wins coordinates the new term, has voted for itself in it, and counts only the
/// lost coordinator as failed.
pub proof fn law_winner_coordinates(c: ContextView, node: NodeId, term: u64, lost: NodeId, x: NodeId)
    ensures
        ({
            let w = won(c, node, term, lost);
            &&& w.role is Coordinator
            &&& w.coordinator == node
            &&& w.term == term
            &&& w.voted_term == term && w.voted_candidate == Some(node)
            &&& w.failed.contains(x) <==> x == lost
            &&& w.window == c.window && w.shard_summaries == c.shard_summaries
            &&& w.checkpoint == c.checkpoint && w.value == c.value
        }),
{
}

/// Recovery metadata brings its shards where they are newer; a request names the hash of
/// the first shard that is known.
pub proof fn law_recovered_shards_are_merged(c: ContextView, s: TrainingStateView, candidate: NodeId)
    ensures
        recovered(c, s).shard_summaries == with_newer(c.shard_summaries, s.shards),
        recovered(c, s).failed == c.failed,
        recovered(c, s).role == c.role,
        ordered_values(c.shard_summaries).len() > 0 ==> election_request(
            c,
            candidate,
        ).last_state_hash == ordered_values(c.shard_summaries)[0].state_hash,
{
}

} // verus!
