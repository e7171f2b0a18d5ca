//! The campaign of a participant after the coordinator was lost: it asks for
//! votes, counts them, learns what the voters know, and takes office with a
//! quorum.

use crate::base::ids::NodeId;
use crate::base::members::filter_other_than;
use crate::base::search::other_than;
use crate::reference::context::{state_of, Context, ContextView};
use crate::reference::election::{
    begin_election, candidates, count_vote, election_request, finish_election, is_open,
    is_recovery, is_vote, law_candidate_is_live_participant, recovered, take_recovery, won, Campaign, ElectionStart, NoQuorum,
    ELECTION_ATTEMPTS,
};
use crate::reference::sgd::quorum_of;
use crate::reference::types::{
    TrainingAck, TrainingElection, TrainingState, TrainingStateView,
};
use crate::reference::worker::{handle_election, vote_reply, voted, VoteReply, VoteReplyView};
use vstd::prelude::*;

verus! {

/// Where the candidate stands.
#[derive(Clone, Copy, Debug, PartialEq, Eq, Structural)]
pub enum CampaignStage {
    /// The participants are being asked.
    Asking,
    /// Votes come in.
    Voting,
    /// There is nothing left to do.
    Over,
}

/// The run of a candidate.
#[derive(Debug)]
pub struct CampaignRun {
    pub node: NodeId,
    pub campaign: Campaign,
    pub stage: CampaignStage,
    /// How often the participants have been asked before.
    pub attempt: usize,
}

/// The contents of a [`CampaignRun`].
#[verifier::ext_equal]
pub struct CampaignRunView {
    pub node: NodeId,
    pub election: TrainingElection,
    pub previous_term: u64,
    pub previous_coordinator: NodeId,
    pub failed_coordinator: NodeId,
    pub votes: Set<NodeId>,
    pub quorum: usize,
    pub stage: CampaignStage,
    pub attempt: usize,
}

impl View for CampaignRun {
    type V = CampaignRunView;

    open spec fn view(&self) -> CampaignRunView {
        CampaignRunView {
            node: self.node,
            election: self.campaign.election,
            previous_term: self.campaign.previous_term,
            previous_coordinator: self.campaign.previous_coordinator,
            failed_coordinator: self.campaign.failed_coordinator,
            votes: self.campaign.votes@,
            quorum: self.campaign.quorum,
            stage: self.stage,
            attempt: self.attempt,
        }
    }
}

/// What happened.
#[derive(Debug)]
pub enum CampaignEvent {
    /// Everyone has been asked.
    Asked,
    Ack { peer: NodeId, ack: TrainingAck },
    Election { peer: NodeId, election: TrainingElection },
    State { peer: NodeId, state: TrainingState },
    /// Anything else, a lost connection included.
    Other,
    /// The time for votes is over.
    TimedOut,
}

/// The contents of a [`CampaignEvent`].
#[verifier::ext_equal]
pub enum CampaignEventView {
    Asked,
    Ack { peer: NodeId, ack: TrainingAck },
    Election { peer: NodeId, election: TrainingElection },
    State { peer: NodeId, state: TrainingStateView },
    Other,
    TimedOut,
}

impl View for CampaignEvent {
    type V = CampaignEventView;

    open spec fn view(&self) -> CampaignEventView {
        match self {
            CampaignEvent::Asked => CampaignEventView::Asked,
            CampaignEvent::Ack { peer, ack } => CampaignEventView::Ack { peer: *peer, ack: *ack },
            CampaignEvent::Election { peer, election } => CampaignEventView::Election {
                peer: *peer,
                election: *election,
            },
            CampaignEvent::State { peer, state } => CampaignEventView::State {
                peer: *peer,
                state: state@,
            },
            CampaignEvent::Other => CampaignEventView::Other,
            CampaignEvent::TimedOut => CampaignEventView::TimedOut,
        }
    }
}

/// What the candidate does next.
#[derive(Debug)]
pub enum CampaignAction {
    /// Wait for the next event.
    Wait,
    /// Ask the peers for their votes, after a pause and over new connections
    /// where this is not the first time.
    Ask { election: TrainingElection, peers: Vec<NodeId>, again: bool },
    /// Give way to another candidate, with the vote on it where there is one.
    GiveWay(Option<VoteReply>),
    /// Leave the campaign to another participant.
    Defer(NodeId),
    /// Take office: store the state and send it to everyone.
    TakeOffice(TrainingState),
    /// Give up: no candidate is left.
    NoCandidate,
    /// Give up: the votes do not make a quorum.
    NoQuorum(NoQuorum),
}

/// The contents of a [`CampaignAction`].
#[verifier::ext_equal]
pub enum CampaignActionView {
    Wait,
    Ask { election: TrainingElection, peers: Seq<NodeId>, again: bool },
    GiveWay(Option<VoteReplyView>),
    Defer(NodeId),
    TakeOffice(TrainingStateView),
    NoCandidate,
    NoQuorum(NoQuorum),
}

impl View for CampaignAction {
    type V = CampaignActionView;

    open spec fn view(&self) -> CampaignActionView {
        match self {
            CampaignAction::Wait => CampaignActionView::Wait,
            CampaignAction::Ask { election, peers, again } => CampaignActionView::Ask {
                election: *election,
                peers: peers@,
                again: *again,
            },
            CampaignAction::GiveWay(reply) => CampaignActionView::GiveWay(
                match reply {
                    Some(reply) => Some(reply@),
                    None => None,
                },
            ),
            CampaignAction::Defer(other) => CampaignActionView::Defer(*other),
            CampaignAction::TakeOffice(state) => CampaignActionView::TakeOffice(state@),
            CampaignAction::NoCandidate => CampaignActionView::NoCandidate,
            CampaignAction::NoQuorum(lost) => CampaignActionView::NoQuorum(*lost),
        }
    }
}

/// The context, the run and the action after an event.
#[verifier::ext_equal]
pub struct CampaignOutcome {
    pub context: ContextView,
    pub run: CampaignRunView,
    pub action: CampaignActionView,
}

/// Everyone but the candidate and the lost coordinator.
pub open spec fn electorate(c: ContextView, node: NodeId, lost: NodeId) -> Seq<NodeId> {
    c.start.participants.filter(other_than(node)).filter(other_than(lost))
}

/// The participants are asked for their votes.
pub open spec fn asking(c: ContextView, run: CampaignRunView) -> CampaignOutcome {
    CampaignOutcome {
        context: c,
        run: CampaignRunView { stage: CampaignStage::Asking, ..run },
        action: CampaignActionView::Ask {
            election: run.election,
            peers: electorate(c, run.node, run.failed_coordinator),
            again: run.attempt > 0,
        },
    }
}

/// The campaign is over: with a quorum the candidate takes office.
pub open spec fn deciding(c: ContextView, run: CampaignRunView) -> CampaignOutcome {
    let over = CampaignRunView { stage: CampaignStage::Over, ..run };
    if run.votes.len() >= run.quorum {
        let after = won(c, run.node, run.election.term, run.failed_coordinator);
        CampaignOutcome {
            context: after,
            run: over,
            action: CampaignActionView::TakeOffice(state_of(after)),
        }
    } else {
        CampaignOutcome {
            context: c,
            run: over,
            action: CampaignActionView::NoQuorum(
                NoQuorum { received: run.votes.len() as usize, required: run.quorum },
            ),
        }
    }
}

/// Votes are awaited until they make a quorum.
pub open spec fn counting(c: ContextView, run: CampaignRunView) -> CampaignOutcome {
    if run.votes.len() < run.quorum {
        CampaignOutcome {
            context: c,
            run: CampaignRunView { stage: CampaignStage::Voting, ..run },
            action: CampaignActionView::Wait,
        }
    } else {
        deciding(c, run)
    }
}

/// What the candidate does about an event.
pub open spec fn campaign_step(c: ContextView, run: CampaignRunView, event: CampaignEventView) ->
    CampaignOutcome {
    let idle = CampaignOutcome { context: c, run, action: CampaignActionView::Wait };
    match run.stage {
        CampaignStage::Asking => if event == CampaignEventView::Asked {
            counting(c, run)
        } else {
            idle
        },
        CampaignStage::Voting => match event {
            CampaignEventView::Ack { peer, ack } => counting(
                c,
                CampaignRunView {
                    votes: if is_vote(c, run.election, run.node, peer, ack) {
                        run.votes.insert(peer)
                    } else {
                        run.votes
                    },
                    ..run
                },
            ),
            CampaignEventView::Election { peer, election } => if election.term
                > run.election.term {
                CampaignOutcome {
                    context: voted(c, peer, election),
                    run: CampaignRunView { stage: CampaignStage::Over, ..run },
                    action: CampaignActionView::GiveWay(
                        vote_reply(c, run.node, peer, election),
                    ),
                }
            } else {
                idle
            },
            CampaignEventView::State { peer, state } => if is_recovery(
                c,
                run.previous_term,
                run.previous_coordinator,
                run.node,
                peer,
                state,
            ) {
                CampaignOutcome { context: recovered(c, state), ..idle }
            } else {
                idle
            },
            CampaignEventView::TimedOut => if run.attempt + 1 < ELECTION_ATTEMPTS {
                asking(c, CampaignRunView { attempt: (run.attempt + 1) as usize, ..run })
            } else {
                deciding(c, run)
            },
            _ => idle,
        },
        CampaignStage::Over => idle,
    }
}

/// The campaign of the candidate of a context.
pub open spec fn first_campaign(c: ContextView, node: NodeId, lost: NodeId) -> CampaignRunView {
    CampaignRunView {
        node,
        election: election_request(c, node),
        previous_term: c.term,
        previous_coordinator: c.coordinator,
        failed_coordinator: lost,
        votes: Set::empty().insert(node),
        quorum: quorum_of(c.start.participants.len() as int) as usize,
        stage: CampaignStage::Asking,
        attempt: 0,
    }
}

fn ask(context: &Context, run: &mut CampaignRun) -> (r: CampaignAction)
    ensures
        (CampaignOutcome { context: context@, run: final(run)@, action: r@ }) == asking(
            context@,
            old(run)@,
        ),
{
    run.stage = CampaignStage::Asking;
    let others = filter_other_than(&context.start.participants, run.node);
    CampaignAction::Ask {
        election: run.campaign.election,
        peers: filter_other_than(&others, run.campaign.failed_coordinator),
        again: run.attempt > 0,
    }
}

/// The coordinator is lost: stand for the next term, or leave it to another
/// participant. The run is there for a candidate.
pub fn begin_campaign(context: &mut Context, node: NodeId, lost: NodeId) -> (r: (
    Option<CampaignRun>,
    CampaignAction,
))
    ensures
        ({
            let c = ContextView { failed: old(context)@.failed.insert(lost), ..old(context)@ };
            let chosen = crate::base::members::least(candidates(c));
            &&& final(context)@ == c
            &&& match chosen {
                None => r.0 is None && r.1@ == CampaignActionView::NoCandidate,
                Some(other) => if other != node {
                    r.0 is None && r.1@ == CampaignActionView::Defer(other)
                } else {
                    r.0 is Some && (CampaignOutcome {
                        context: c,
                        run: r.0->0@,
                        action: r.1@,
                    }) == asking(c, first_campaign(c, node, lost))
                },
            }
        }),
{
    match begin_election(context, node, lost) {
        ElectionStart::NoCandidate => (None, CampaignAction::NoCandidate),
        ElectionStart::Defer(other) => (None, CampaignAction::Defer(other)),
        ElectionStart::Stand(campaign) => {
            let mut run = CampaignRun { node, campaign, stage: CampaignStage::Asking, attempt: 0 };
            assert(run@ =~= first_campaign(context@, node, lost));
            let action = ask(context, &mut run);
            (Some(run), action)
        },
    }
}

fn decide(context: &mut Context, run: &mut CampaignRun) -> (r: CampaignAction)
    ensures
        (CampaignOutcome {
            context: final(context)@,
            run: final(run)@,
            action: r@,
        }) == deciding(old(context)@, old(run)@),
{
    run.stage = CampaignStage::Over;
    match finish_election(context, &run.campaign, run.node) {
        Ok(state) => CampaignAction::TakeOffice(state),
        Err(lost) => CampaignAction::NoQuorum(lost),
    }
}

fn count(context: &mut Context, run: &mut CampaignRun) -> (r: CampaignAction)
    ensures
        (CampaignOutcome {
            context: final(context)@,
            run: final(run)@,
            action: r@,
        }) == counting(old(context)@, old(run)@),
{
    if is_open(&run.campaign) {
        run.stage = CampaignStage::Voting;
        CampaignAction::Wait
    } else {
        decide(context, run)
    }
}

/// Take in an event. The result is what is to be done next.
pub fn maybe_elect(context: &mut Context, run: &mut CampaignRun, event: CampaignEvent) -> (r:
    CampaignAction)
    ensures
        (CampaignOutcome {
            context: final(context)@,
            run: final(run)@,
            action: r@,
        }) == campaign_step(old(context)@, old(run)@, event@),
{
    match run.stage {
        CampaignStage::Asking => match event {
            CampaignEvent::Asked => count(context, run),
            _ => CampaignAction::Wait,
        },
        CampaignStage::Voting => match event {
            CampaignEvent::Ack { peer, ack } => {
                count_vote(context, &mut run.campaign, run.node, peer, &ack);
                count(context, run)
            },
            CampaignEvent::Election { peer, election } => {
                if election.term > run.campaign.election.term {
                    run.stage = CampaignStage::Over;
                    CampaignAction::GiveWay(handle_election(context, run.node, peer, &election))
                } else {
                    CampaignAction::Wait
                }
            },
            CampaignEvent::State { peer, state } => {
                take_recovery(context, &run.campaign, run.node, peer, &state);
                CampaignAction::Wait
            },
            CampaignEvent::TimedOut => {
                if run.attempt < ELECTION_ATTEMPTS - 1 {
                    run.attempt += 1;
                    ask(context, run)
                } else {
                    decide(context, run)
                }
            },
            _ => CampaignAction::Wait,
        },
        CampaignStage::Over => CampaignAction::Wait,
    }
}

/// Office is taken only with the votes of a quorum, and only for the term that
/// the votes were asked for.
pub proof fn law_office_needs_a_quorum(
    c: ContextView,
    run: CampaignRunView,
    event: CampaignEventView,
)
    requires
        campaign_step(c, run, event).action is TakeOffice,
    ensures
        ({
            let o = campaign_step(c, run, event);
            &&& o.run.votes.len() >= run.quorum
            &&& o.context.term == run.election.term
            &&& o.context.coordinator == run.node
            &&& o.context.branch == c.branch
            &&& o.context.shard_summaries == c.shard_summaries
        }),
{
}

/// Every vote that is counted is one that a participant gave to this candidate in
/// this term.
pub proof fn law_only_votes_are_counted(
    c: ContextView,
    run: CampaignRunView,
    event: CampaignEventView,
    voter: NodeId,
)
    requires
        campaign_step(c, run, event).run.votes.contains(voter),
        !run.votes.contains(voter),
    ensures
        c.start.participants.contains(voter),
        event matches CampaignEventView::Ack { peer, ack } && peer == voter && is_vote(
            c,
            run.election,
            run.node,
            voter,
            ack,
        ),
{
}

/// The participants are asked a bounded number of times.
pub proof fn law_campaign_is_bounded(
    c: ContextView,
    run: CampaignRunView,
    event: CampaignEventView,
)
    requires
        run.attempt < ELECTION_ATTEMPTS,
    ensures
        campaign_step(c, run, event).run.attempt < ELECTION_ATTEMPTS,
        campaign_step(c, run, event).action is Ask ==> campaign_step(c, run, event).run.attempt
            == run.attempt + 1,
{
}

/// A candidate stands for a later term than the one that ended, so that every
/// change of office raises the term.
pub proof fn law_terms_increase(
    c: ContextView,
    node: NodeId,
    lost: NodeId,
    after: ContextView,
    event: CampaignEventView,
    votes: Set<NodeId>,
)
    requires
        c.term < u64::MAX,
        ({
            let run = CampaignRunView {
                votes,
                stage: CampaignStage::Voting,
                ..first_campaign(c, node, lost)
            };
            campaign_step(after, run, event).action is TakeOffice
        }),
    ensures
        ({
            let run = CampaignRunView {
                votes,
                stage: CampaignStage::Voting,
                ..first_campaign(c, node, lost)
            };
            campaign_step(after, run, event).context.term == c.term + 1
        }),
{
}

/// What holds of a campaign: the votes come from participants, the candidate's own
/// among them, and the quorum is that of all participants.
pub open spec fn campaign_inv(c: ContextView, run: CampaignRunView) -> bool {
    &&& run.votes.subset_of(c.start.participants.to_set())
    &&& run.votes.contains(run.node)
    &&& run.quorum == quorum_of(c.start.participants.len() as int)
}

/// Whoever takes office has the votes of a majority of the participants, the own vote
/// among them. A candidate begins with its own vote, and every step keeps what holds
/// of the campaign and the participants of the job.
pub proof fn law_office_has_a_majority(
    c: ContextView,
    node: NodeId,
    lost: NodeId,
    run: CampaignRunView,
    event: CampaignEventView,
)
    requires
        c.start.participants.len() <= usize::MAX,
        campaign_inv(c, run),
    ensures
        crate::base::members::least(candidates(c)) == Some(node) ==> campaign_inv(
            c,
            first_campaign(c, node, lost),
        ),
        ({
            let o = campaign_step(c, run, event);
            &&& campaign_inv(o.context, o.run)
            &&& o.context.start == c.start
            &&& o.action is TakeOffice ==> 2 * o.run.votes.len() > c.start.participants.len()
                && o.run.votes.contains(o.context.coordinator)
        }),
{
    if crate::base::members::least(candidates(c)) == Some(node) {
        law_candidate_is_live_participant(c, node);
    }
}

/// A campaign begins with the candidate's own vote and asks every participant but the
/// candidate and the lost coordinator; its quorum is more than half of all participants.
pub proof fn law_campaign_begins(c: ContextView, node: NodeId, lost: NodeId, peer: NodeId)
    requires
        c.start.participants.len() <= 16,
        c.term < u64::MAX,
    ensures
        ({
            let run = first_campaign(c, node, lost);
            &&& run.node == node
            &&& run.votes.contains(peer) <==> peer == node
            &&& 2 * run.quorum > c.start.participants.len()
            &&& 2 * (run.quorum - 1) <= c.start.participants.len()
            &&& run.election.candidate == node && run.election.term == c.term + 1
            &&& run.previous_term == c.term && run.previous_coordinator == c.coordinator
            &&& run.failed_coordinator == lost
            &&& run.attempt == 0 && run.stage is Asking
            &&& electorate(c, node, lost).contains(peer) <==> c.start.participants.contains(peer)
                && peer != node && peer != lost
        }),
{
    let others = c.start.participants.filter(other_than(node));
    crate::base::search::lemma_filter_contains(c.start.participants, other_than(node));
    crate::base::search::lemma_filter_contains(others, other_than(lost));
}

/// What ends a campaign: with a quorum the candidate takes office with the term that it
/// stood for; after three tries without one it gives up, telling how many votes it had;
/// a request for a later term is answered, and the candidate gives way.
pub proof fn law_how_campaigns_end(
    c: ContextView,
    run: CampaignRunView,
    event: CampaignEventView,
    peer: NodeId,
    ack: TrainingAck,
)
    requires
        run.stage is Voting,
        run.votes.len() < run.quorum,
    ensures
        run.attempt < 2 && event is TimedOut ==> ({
            let o = campaign_step(c, run, event);
            &&& o.action is Ask && o.action->again && o.action->Ask_election == run.election
            &&& o.run.attempt == run.attempt + 1
            &&& o.run.votes == run.votes
            &&& o.context == c
        }),
        run.attempt >= 2 && event is TimedOut ==> ({
            let o = campaign_step(c, run, event);
            &&& o.action is NoQuorum && o.action->NoQuorum_0.required == run.quorum
            &&& run.votes.len() <= usize::MAX ==> o.action->NoQuorum_0.received == run.votes.len()
            &&& o.run.stage is Over
            &&& o.context == c
        }),
        event is Election && event->election.term > run.election.term ==> ({
            let o = campaign_step(c, run, event);
            o.action is GiveWay && o.run.stage is Over && o.context.term == c.term
        }),
        event is Election && event->election.term <= run.election.term ==> campaign_step(
            c,
            run,
            event,
        ).action is Wait,
        is_vote(c, run.election, run.node, peer, ack) && run.votes.insert(peer).len() >= run.quorum
            ==> ({
            let o = campaign_step(c, run, CampaignEventView::Ack { peer, ack });
            &&& o.action is TakeOffice
            &&& o.context.term == run.election.term && o.context.coordinator == run.node
            &&& o.context.role is Coordinator
            &&& o.action->TakeOffice_0.term == run.election.term
        }),
        is_vote(c, run.election, run.node, peer, ack) && run.votes.insert(peer).len() < run.quorum
            ==> ({
            let o = campaign_step(c, run, CampaignEventView::Ack { peer, ack });
            o.action is Wait && o.run.votes == run.votes.insert(peer) && o.context == c
        }),
{
}

} // verus!
