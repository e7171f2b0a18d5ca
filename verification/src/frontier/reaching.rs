//! Which qualified workers have a live path: the advertised ones are gone through
//! round by round until enough of them are reached.

use crate::base::ids::{id_le, NodeId};
use crate::base::members::NodeSet;
use crate::base::record::Duplicate;
use crate::base::search::{lemma_views_push, views};
use crate::frontier::profiles::{
    candidates_by_peer, law_candidates_are_qualified, profiles_of, qualified_profiles,
    sorted_by_peer, worker_profiles, ProfileRecord, ProfileRecordView, WorkerProfile,
    WorkerProfileView,
};
use vstd::prelude::*;

verus! {

/// The rounds in which enough workers may be reached.
pub const REACH_ROUNDS: u8 = 16;

/// What is being waited for.
#[derive(Clone, Copy, Debug, PartialEq, Eq, Structural)]
pub enum ReachStep {
    /// The advertised records and the peers that are connected.
    Surveying,
    /// A new connection to the candidate.
    Dialing,
    /// The candidate's answer to a ping.
    Pinging,
    Pausing,
    Over,
}

/// A search for workers.
#[derive(Debug)]
pub struct ReachRun {
    pub minimum_workers: usize,
    pub minimum_memory_bytes: u64,
    /// The rounds before this one.
    pub round: u8,
    pub step: ReachStep,
    /// The qualified workers of the round, sorted by peer.
    pub candidates: Vec<WorkerProfile>,
    /// The candidate at hand.
    pub at: usize,
    /// The peers that were connected when the round began.
    pub connected: NodeSet,
    /// The candidates that were reached in the round.
    pub reached: Vec<WorkerProfile>,
}

/// The contents of a [`ReachRun`].
#[verifier::ext_equal]
pub struct ReachRunView {
    pub minimum_workers: usize,
    pub minimum_memory_bytes: u64,
    pub round: u8,
    pub step: ReachStep,
    pub candidates: Seq<WorkerProfileView>,
    pub at: int,
    pub connected: Set<NodeId>,
    pub reached: Seq<WorkerProfileView>,
}

impl View for ReachRun {
    type V = ReachRunView;

    open spec fn view(&self) -> ReachRunView {
        ReachRunView {
            minimum_workers: self.minimum_workers,
            minimum_memory_bytes: self.minimum_memory_bytes,
            round: self.round,
            step: self.step,
            candidates: views(self.candidates@),
            at: self.at as int,
            connected: self.connected@,
            reached: views(self.reached@),
        }
    }
}

/// What the search learns.
#[derive(Debug)]
pub enum ReachEvent {
    /// The records that are known at `now`, and the peers that are connected.
    Surveyed { records: Vec<ProfileRecord>, now: u64, connected: NodeSet },
    /// Whether the candidate could be connected anew.
    Dialed(bool),
    /// Whether the candidate answered an authenticated ping.
    Pinged(bool),
    Paused,
}

/// The contents of a [`ReachEvent`].
#[verifier::ext_equal]
pub enum ReachEventView {
    Surveyed { records: Seq<ProfileRecordView>, now: u64, connected: Set<NodeId> },
    Dialed(bool),
    Pinged(bool),
    Paused,
}

impl View for ReachEvent {
    type V = ReachEventView;

    open spec fn view(&self) -> ReachEventView {
        match self {
            ReachEvent::Surveyed { records, now, connected } => ReachEventView::Surveyed {
                records: views(records@),
                now: *now,
                connected: connected@,
            },
            ReachEvent::Dialed(done) => ReachEventView::Dialed(*done),
            ReachEvent::Pinged(answered) => ReachEventView::Pinged(*answered),
            ReachEvent::Paused => ReachEventView::Paused,
        }
    }
}

/// What the search does next.
#[derive(Debug)]
pub enum ReachAction {
    /// Look up the advertised records and the connected peers.
    Survey,
    /// Connect to a peer.
    Dial(NodeId),
    /// Ping a peer.
    Ping(NodeId),
    /// Wait a moment before the next round.
    Pause,
    /// These workers have a live path.
    Done(Vec<WorkerProfile>),
    /// The event was not awaited.
    Ignore,
}

/// The contents of a [`ReachAction`].
#[verifier::ext_equal]
pub enum ReachActionView {
    Survey,
    Dial(NodeId),
    Ping(NodeId),
    Pause,
    Done(Seq<WorkerProfileView>),
    Ignore,
}

impl View for ReachAction {
    type V = ReachActionView;

    open spec fn view(&self) -> ReachActionView {
        match self {
            ReachAction::Survey => ReachActionView::Survey,
            ReachAction::Dial(peer) => ReachActionView::Dial(*peer),
            ReachAction::Ping(peer) => ReachActionView::Ping(*peer),
            ReachAction::Pause => ReachActionView::Pause,
            ReachAction::Done(workers) => ReachActionView::Done(views(workers@)),
            ReachAction::Ignore => ReachActionView::Ignore,
        }
    }
}

/// A search that has reached nobody yet.
pub open spec fn fresh_reach(minimum_workers: usize, minimum_memory_bytes: u64) -> ReachRunView {
    ReachRunView {
        minimum_workers,
        minimum_memory_bytes,
        round: 0,
        step: ReachStep::Surveying,
        candidates: Seq::empty(),
        at: 0,
        connected: Set::empty(),
        reached: Seq::empty(),
    }
}

/// The round is over: with enough workers, or as the last one, it ends the search.
pub open spec fn round_over(run: ReachRunView) -> (ReachRunView, ReachActionView) {
    if run.reached.len() >= run.minimum_workers || run.round + 1 >= REACH_ROUNDS {
        (ReachRunView { step: ReachStep::Over, ..run }, ReachActionView::Done(run.reached))
    } else {
        (ReachRunView { step: ReachStep::Pausing, ..run }, ReachActionView::Pause)
    }
}

/// The candidates from the one at hand on are gone through: those that are connected
/// are reached, the first other one is dialed.
pub open spec fn reach_on(run: ReachRunView) -> (ReachRunView, ReachActionView)
    decreases run.candidates.len() - run.at,
{
    if run.at < 0 || run.at >= run.candidates.len() {
        round_over(run)
    } else if run.connected.contains(run.candidates[run.at].node) {
        reach_on(passed(run, true))
    } else {
        (
            ReachRunView { step: ReachStep::Dialing, ..run },
            ReachActionView::Dial(run.candidates[run.at].node),
        )
    }
}

/// The candidate at hand is done with; `reached` tells whether it has a live path.
pub open spec fn passed(run: ReachRunView, reached: bool) -> ReachRunView {
    ReachRunView {
        at: run.at + 1,
        reached: if reached {
            run.reached.push(run.candidates[run.at])
        } else {
            run.reached
        },
        ..run
    }
}

/// The next step of the search.
pub open spec fn reach_stepped(run: ReachRunView, event: ReachEventView) -> (
    ReachRunView,
    ReachActionView,
) {
    let waiting = 0 <= run.at < run.candidates.len();
    match (run.step, event) {
        (ReachStep::Surveying, ReachEventView::Surveyed { records, now, connected }) => reach_on(
            ReachRunView {
                candidates: candidates_by_peer(
                    profiles_of(records, now),
                    run.minimum_memory_bytes,
                ),
                at: 0,
                connected,
                reached: Seq::empty(),
                ..run
            },
        ),
        (ReachStep::Dialing, ReachEventView::Dialed(done)) => if !waiting {
            (run, ReachActionView::Ignore)
        } else if done {
            reach_on(passed(run, true))
        } else {
            (
                ReachRunView { step: ReachStep::Pinging, ..run },
                ReachActionView::Ping(run.candidates[run.at].node),
            )
        },
        (ReachStep::Pinging, ReachEventView::Pinged(answered)) => if !waiting {
            (run, ReachActionView::Ignore)
        } else {
            reach_on(passed(run, answered))
        },
        (ReachStep::Pausing, ReachEventView::Paused) => if run.round + 1 >= REACH_ROUNDS {
            (run, ReachActionView::Ignore)
        } else {
            (
                ReachRunView { step: ReachStep::Surveying, round: (run.round + 1) as u8, ..run },
                ReachActionView::Survey,
            )
        },
        _ => (run, ReachActionView::Ignore),
    }
}

/// Begin a search for at least `minimum_workers` workers with enough memory.
pub fn begin_reach(minimum_workers: usize, minimum_memory_bytes: u64) -> (r: (
    ReachRun,
    ReachAction,
))
    ensures
        r.0@ == fresh_reach(minimum_workers, minimum_memory_bytes),
        r.1@ == ReachActionView::Survey,
{
    let run = ReachRun {
        minimum_workers,
        minimum_memory_bytes,
        round: 0,
        step: ReachStep::Surveying,
        candidates: Vec::new(),
        at: 0,
        connected: NodeSet::new(),
        reached: Vec::new(),
    };
    assert(run@ =~= fresh_reach(minimum_workers, minimum_memory_bytes));
    (run, ReachAction::Survey)
}

fn pass(run: &mut ReachRun, reached: bool)
    requires
        old(run).at < old(run).candidates@.len(),
    ensures
        final(run)@ == passed(old(run)@, reached),
{
    let at: usize = run.at;
    assert(run.candidates.len() <= usize::MAX);
    if reached {
        let worker = run.candidates[at].duplicate();
        proof {
            lemma_views_push(run.reached@, worker);
            assert(run@.candidates[at as int] == worker@);
        }
        run.reached.push(worker);
    }
    run.at = at + 1;
}

fn go_on(run: &mut ReachRun) -> (r: ReachAction)
    ensures
        (final(run)@, r@) == reach_on(old(run)@),
{
    while run.at < run.candidates.len()
        invariant
            reach_on(run@) == reach_on(old(run)@),
        decreases run.candidates@.len() - run.at,
    {
        let at: usize = run.at;
        let peer = run.candidates[at].node;
        assert(run@.candidates[at as int].node == peer);
        if !run.connected.contains(peer) {
            run.step = ReachStep::Dialing;
            return ReachAction::Dial(peer);
        }
        pass(run, true);
    }
    if run.reached.len() >= run.minimum_workers || run.round >= REACH_ROUNDS - 1 {
        run.step = ReachStep::Over;
        let mut workers: Vec<WorkerProfile> = Vec::new();
        let mut i: usize = 0;
        assert(views(workers@) =~= run@.reached.take(0));
        while i < run.reached.len()
            invariant
                0 <= i <= run.reached@.len(),
                views(workers@) == run@.reached.take(i as int),
            decreases run.reached@.len() - i,
        {
            let worker = run.reached[i].duplicate();
            proof {
                lemma_views_push(workers@, worker);
                assert(run@.reached[i as int] == worker@);
                assert(run@.reached.take(i as int + 1) =~= run@.reached.take(i as int).push(
                    worker@,
                ));
            }
            workers.push(worker);
            i += 1;
        }
        assert(run@.reached.take(i as int) =~= run@.reached);
        ReachAction::Done(workers)
    } else {
        run.step = ReachStep::Pausing;
        ReachAction::Pause
    }
}

/// Take the search one step on.
pub fn reachable_worker_profiles(run: &mut ReachRun, event: ReachEvent) -> (r: ReachAction)
    ensures
        (final(run)@, r@) == reach_stepped(old(run)@, event@),
{
    match (run.step, event) {
        (ReachStep::Surveying, ReachEvent::Surveyed { records, now, connected }) => {
            let profiles = worker_profiles(&records, now);
            run.candidates = qualified_profiles(&profiles, run.minimum_memory_bytes);
            run.at = 0;
            run.connected = connected;
            run.reached = Vec::new();
            assert(run@.reached =~= Seq::<WorkerProfileView>::empty());
            go_on(run)
        },
        (ReachStep::Dialing, ReachEvent::Dialed(done)) => {
            if run.at >= run.candidates.len() {
                ReachAction::Ignore
            } else if done {
                pass(run, true);
                go_on(run)
            } else {
                let at: usize = run.at;
                let peer = run.candidates[at].node;
                assert(run@.candidates[at as int].node == peer);
                run.step = ReachStep::Pinging;
                ReachAction::Ping(peer)
            }
        },
        (ReachStep::Pinging, ReachEvent::Pinged(answered)) => {
            if run.at >= run.candidates.len() {
                ReachAction::Ignore
            } else {
                pass(run, answered);
                go_on(run)
            }
        },
        (ReachStep::Pausing, ReachEvent::Paused) => {
            if run.round >= REACH_ROUNDS - 1 {
                ReachAction::Ignore
            } else {
                run.round = run.round + 1;
                run.step = ReachStep::Surveying;
                ReachAction::Survey
            }
        },
        _ => ReachAction::Ignore,
    }
}

/// The peers with a live path in the round at hand, after an event: those that were
/// connected when it began, and those that were connected anew or answered a ping.
pub open spec fn live_after(run: ReachRunView, event: ReachEventView, live: Set<NodeId>) -> Set<
    NodeId,
> {
    let waiting = 0 <= run.at < run.candidates.len();
    match (run.step, event) {
        (ReachStep::Surveying, ReachEventView::Surveyed { connected, .. }) => connected,
        (ReachStep::Dialing, ReachEventView::Dialed(true)) => if waiting {
            live.insert(run.candidates[run.at].node)
        } else {
            live
        },
        (ReachStep::Pinging, ReachEventView::Pinged(true)) => if waiting {
            live.insert(run.candidates[run.at].node)
        } else {
            live
        },
        _ => live,
    }
}

/// What holds of a search: whoever counts as reached is a candidate of the round
/// with a live path, in the order of the candidates.
pub open spec fn reach_wf(run: ReachRunView, live: Set<NodeId>) -> bool {
    &&& run.round < REACH_ROUNDS
    &&& 0 <= run.at <= run.candidates.len()
    &&& run.connected.subset_of(live)
    &&& sorted_by_peer(run.candidates)
    &&& forall|i: int|
        0 <= i < run.candidates.len() ==> (#[trigger] run.candidates[i]).memory_bytes
            >= run.minimum_memory_bytes
    &&& sorted_by_peer(run.reached)
    &&& forall|i: int|
        0 <= i < run.reached.len() ==> live.contains((#[trigger] run.reached[i]).node)
            && run.candidates.contains(run.reached[i])
    &&& forall|i: int, j: int|
        0 <= i < run.reached.len() && run.at <= j < run.candidates.len() ==> id_le(
            (#[trigger] run.reached[i]).node,
            (#[trigger] run.candidates[j]).node,
        )
}

proof fn lemma_passed_wf(run: ReachRunView, live: Set<NodeId>, reached: bool)
    requires
        reach_wf(run, live),
        run.at < run.candidates.len(),
        reached ==> live.contains(run.candidates[run.at].node),
    ensures
        reach_wf(passed(run, reached), live),
{
    let after = passed(run, reached);
    assert(run.candidates.contains(run.candidates[run.at]));
    assert forall|i: int, j: int| 0 <= i < j < after.reached.len() implies id_le(
        (#[trigger] after.reached[i]).node,
        (#[trigger] after.reached[j]).node,
    ) by {
        assert(after.reached[i] == run.reached[i]);
        if j < run.reached.len() {
            assert(after.reached[j] == run.reached[j]);
        }
    }
    assert forall|i: int, j: int|
        0 <= i < after.reached.len() && after.at <= j < after.candidates.len() implies id_le(
        (#[trigger] after.reached[i]).node,
        (#[trigger] after.candidates[j]).node,
    ) by {
        if i < run.reached.len() {
            assert(after.reached[i] == run.reached[i]);
        } else {
            assert(after.reached[i] == run.candidates[run.at]);
        }
    }
    assert forall|i: int| 0 <= i < after.reached.len() implies live.contains(
        (#[trigger] after.reached[i]).node,
    ) && after.candidates.contains(after.reached[i]) by {
        if i < run.reached.len() {
            assert(after.reached[i] == run.reached[i]);
        }
    }
}

/// What holds when a search ends.
pub open spec fn reach_ends_well(
    after: (ReachRunView, ReachActionView),
    round: u8,
    live: Set<NodeId>,
) -> bool {
    after.1 matches ReachActionView::Done(workers) ==> {
        &&& sorted_by_peer(workers)
        &&& forall|i: int|
            0 <= i < workers.len() ==> {
                &&& live.contains((#[trigger] workers[i]).node)
                &&& workers[i].memory_bytes >= after.0.minimum_memory_bytes
                &&& after.0.candidates.contains(workers[i])
            }
        &&& workers.len() < after.0.minimum_workers ==> round == REACH_ROUNDS - 1
    }
}

proof fn lemma_reach_on_wf(run: ReachRunView, live: Set<NodeId>)
    requires
        reach_wf(run, live),
    ensures
        reach_wf(reach_on(run).0, live),
        reach_ends_well(reach_on(run), run.round, live),
        reach_on(run).0.candidates == run.candidates,
        reach_on(run).0.round == run.round,
    decreases run.candidates.len() - run.at,
{
    if run.at < run.candidates.len() {
        if run.connected.contains(run.candidates[run.at].node) {
            lemma_passed_wf(run, live, true);
            lemma_reach_on_wf(passed(run, true), live);
        }
    } else {
        assert forall|i: int| 0 <= i < run.reached.len() implies (
        #[trigger] run.reached[i]).memory_bytes >= run.minimum_memory_bytes by {
            let k = run.candidates.index_of(run.reached[i]);
            assert(run.candidates[k] == run.reached[i]);
        }
    }
}

/// Every worker that a search gives back was connected, was connected anew or
/// answered a ping in the round that ended it; it has the memory, the list is sorted
/// by peer, and fewer workers than asked for come back only after the last round.
pub proof fn law_reached_workers_are_live(
    run: ReachRunView,
    event: ReachEventView,
    live: Set<NodeId>,
    minimum_workers: usize,
    minimum_memory_bytes: u64,
)
    requires
        reach_wf(run, live),
    ensures
        reach_wf(fresh_reach(minimum_workers, minimum_memory_bytes), Set::empty()),
        reach_wf(reach_stepped(run, event).0, live_after(run, event, live)),
        reach_ends_well(reach_stepped(run, event), run.round, live_after(run, event, live)),
        run.step == ReachStep::Surveying ==> (event matches ReachEventView::Surveyed {
            records,
            now,
            ..
        } ==> reach_stepped(run, event).0.candidates == candidates_by_peer(
            profiles_of(records, now),
            run.minimum_memory_bytes,
        )),
{
    let now_live = live_after(run, event, live);
    match (run.step, event) {
        (ReachStep::Surveying, ReachEventView::Surveyed { records, now, connected }) => {
            let candidates = candidates_by_peer(
                profiles_of(records, now),
                run.minimum_memory_bytes,
            );
            let begun = ReachRunView {
                candidates,
                at: 0,
                connected,
                reached: Seq::empty(),
                ..run
            };
            assert forall|i: int| 0 <= i < candidates.len() implies (
            #[trigger] candidates[i]).memory_bytes >= run.minimum_memory_bytes by {
                law_candidates_are_qualified(records, now, run.minimum_memory_bytes, i);
            }
            if candidates.len() > 0 {
                law_candidates_are_qualified(records, now, run.minimum_memory_bytes, 0);
            }
            lemma_reach_on_wf(begun, now_live);
        },
        (ReachStep::Dialing, ReachEventView::Dialed(true)) => {
            if run.at < run.candidates.len() {
                assert(reach_wf(run, now_live));
                lemma_passed_wf(run, now_live, true);
                lemma_reach_on_wf(passed(run, true), now_live);
            }
        },
        (ReachStep::Pinging, ReachEventView::Pinged(answered)) => {
            if run.at < run.candidates.len() {
                assert(reach_wf(run, now_live));
                lemma_passed_wf(run, now_live, answered);
                lemma_reach_on_wf(passed(run, answered), now_live);
            }
        },
        _ => {},
    }
}

/// A candidate that is connected, that a dial reaches or that answers a ping is reached, in
/// order; one that does none of these is passed over. The search ends with enough workers
/// or after sixteen rounds, and begins each round anew.
pub proof fn law_search_goes_candidate_by_candidate(
    run: ReachRunView,
    minimum_workers: usize,
    minimum_memory_bytes: u64,
)
    ensures
        ({
            let f = fresh_reach(minimum_workers, minimum_memory_bytes);
            &&& f.minimum_workers == minimum_workers
            &&& f.minimum_memory_bytes == minimum_memory_bytes
            &&& f.round == 0 && f.step is Surveying && f.reached.len() == 0
        }),
        0 <= run.at < run.candidates.len() ==> {
            &&& passed(run, true).reached == run.reached.push(run.candidates[run.at])
            &&& passed(run, false).reached == run.reached
            &&& passed(run, true).at == run.at + 1 && passed(run, false).at == run.at + 1
            &&& run.connected.contains(run.candidates[run.at].node) ==> reach_on(run) == reach_on(
                passed(run, true),
            )
            &&& !run.connected.contains(run.candidates[run.at].node) ==> reach_on(run).1
                == ReachActionView::Dial(run.candidates[run.at].node)
            &&& run.step is Dialing ==> reach_stepped(run, ReachEventView::Dialed(true))
                == reach_on(passed(run, true))
            &&& run.step is Dialing ==> reach_stepped(run, ReachEventView::Dialed(false)).1
                == ReachActionView::Ping(run.candidates[run.at].node)
            &&& run.step is Pinging ==> reach_stepped(run, ReachEventView::Pinged(true))
                == reach_on(passed(run, true))
            &&& run.step is Pinging ==> reach_stepped(run, ReachEventView::Pinged(false))
                == reach_on(passed(run, false))
        },
        run.at == run.candidates.len() && run.reached.len() >= run.minimum_workers ==> reach_on(
            run,
        ).1 == ReachActionView::Done(run.reached),
        run.at == run.candidates.len() && run.reached.len() < run.minimum_workers && run.round < 15
            ==> reach_on(run).1 is Pause,
        run.at == run.candidates.len() && run.round >= 15 ==> reach_on(run).1
            == ReachActionView::Done(run.reached),
        run.step is Pausing && run.round < 15 ==> reach_stepped(run, ReachEventView::Paused).1
            is Survey && reach_stepped(run, ReachEventView::Paused).0.round == run.round + 1,
{
    reveal_with_fuel(reach_on, 2);
}

} // verus!
