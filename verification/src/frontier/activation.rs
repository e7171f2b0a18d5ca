//! The activation of a proposed plan: every participant accepts the proposal,
//! every shard moves to its new owner, the plan is stored, and every worker
//! confirms it.

use crate::base::ids::NodeId;
use crate::base::search::views;
use crate::frontier::plan::{move_of, shard_move, MoveError, ShardMove};
use crate::frontier::types::{V4ShardOwnershipView, V4TrainingPlan};
use vstd::prelude::*;

verus! {

/// What an activation waits for.
#[derive(Clone, Copy, Debug, PartialEq, Eq, Structural)]
pub enum ActivationStage {
    /// A participant's answer to the proposal. Each one is asked twice;
    /// `accepted` tells whether it accepted the first time.
    Proposing { participant: usize, second: bool, accepted: bool },
    /// The move of the shard at this position of the proposal.
    Moving { shard: usize },
    Storing,
    /// A worker's confirmation of the stored plan, at the first or second try.
    Notifying { worker: usize, second: bool },
    Ended,
}

/// An activation under way.
#[derive(Clone, Copy, Debug, PartialEq, Eq, Structural)]
pub struct PlanActivation {
    pub stage: ActivationStage,
    /// The participants that accepted the proposal.
    pub acknowledged: usize,
    /// The shards that moved.
    pub migrated: usize,
    /// The workers that did not confirm the stored plan.
    pub notifications_failed: usize,
}

/// What an activation learns.
#[derive(Clone, Copy, Debug, PartialEq, Eq, Structural)]
pub enum ActivationEvent {
    Accepted,
    Rejected,
    /// No answer came in time.
    NoAnswer,
    Moved,
    MoveFailed,
    Stored,
}

/// What an activation does next.
#[derive(Clone, Copy, Debug, PartialEq, Eq, Structural)]
pub enum ActivationAction {
    /// Send the proposal; before the second time, connect anew.
    Propose { to: NodeId, reconnect: bool },
    Move(ShardMove),
    StorePlan,
    /// Send the stored plan; before the second time, connect anew.
    Notify { to: NodeId, reconnect: bool },
    /// The plan is in force.
    Finish,
    /// A participant or worker refused.
    Refused(NodeId),
    /// A participant did not answer.
    Unanswered(NodeId),
    /// A shard has no owner to move from or to.
    NoOwner(MoveError),
    MoveFailed,
    /// This many workers did not confirm the stored plan.
    Unconfirmed(usize),
    /// The event was not awaited.
    Ignore,
}

/// The first move from position `at` on.
pub open spec fn next_move(
    a: PlanActivation,
    current: Seq<V4ShardOwnershipView>,
    proposed: Seq<V4ShardOwnershipView>,
    at: int,
) -> (PlanActivation, ActivationAction)
    decreases proposed.len() - at,
{
    if at >= proposed.len() {
        (
            PlanActivation { stage: ActivationStage::Storing, ..a },
            ActivationAction::StorePlan,
        )
    } else {
        match move_of(current, proposed[at]) {
            Err(e) => (
                PlanActivation { stage: ActivationStage::Ended, ..a },
                ActivationAction::NoOwner(e),
            ),
            Ok(None) => next_move(a, current, proposed, at + 1),
            Ok(Some(m)) => (
                PlanActivation { stage: ActivationStage::Moving { shard: at as usize }, ..a },
                ActivationAction::Move(m),
            ),
        }
    }
}

/// The proposal goes to participant `i`; behind the last one the moves begin.
pub open spec fn propose_to(
    a: PlanActivation,
    participants: Seq<NodeId>,
    current: Seq<V4ShardOwnershipView>,
    proposed: Seq<V4ShardOwnershipView>,
    i: int,
) -> (PlanActivation, ActivationAction) {
    if i < participants.len() {
        (
            PlanActivation {
                stage: ActivationStage::Proposing {
                    participant: i as usize,
                    second: false,
                    accepted: false,
                },
                ..a
            },
            ActivationAction::Propose { to: participants[i], reconnect: false },
        )
    } else {
        next_move(a, current, proposed, 0)
    }
}

/// The stored plan goes to worker `i`; behind the last one the activation ends.
pub open spec fn notify(a: PlanActivation, workers: Seq<NodeId>, i: int) -> (
    PlanActivation,
    ActivationAction,
) {
    if i < workers.len() {
        (
            PlanActivation {
                stage: ActivationStage::Notifying { worker: i as usize, second: false },
                ..a
            },
            ActivationAction::Notify { to: workers[i], reconnect: false },
        )
    } else {
        (
            PlanActivation { stage: ActivationStage::Ended, ..a },
            if a.notifications_failed > 0 {
                ActivationAction::Unconfirmed(a.notifications_failed)
            } else {
                ActivationAction::Finish
            },
        )
    }
}

/// The activation ends with an error.
pub open spec fn end_with(a: PlanActivation, action: ActivationAction) -> (
    PlanActivation,
    ActivationAction,
) {
    (PlanActivation { stage: ActivationStage::Ended, ..a }, action)
}

/// The next step of an activation.
pub open spec fn activation_step(
    a: PlanActivation,
    participants: Seq<NodeId>,
    workers: Seq<NodeId>,
    current: Seq<V4ShardOwnershipView>,
    proposed: Seq<V4ShardOwnershipView>,
    event: ActivationEvent,
) -> (PlanActivation, ActivationAction) {
    match a.stage {
        ActivationStage::Proposing { participant, second, accepted } => {
            let to = participants[participant as int];
            match event {
                ActivationEvent::Rejected => end_with(a, ActivationAction::Refused(to)),
                ActivationEvent::Accepted | ActivationEvent::NoAnswer => {
                    let won = accepted || event == ActivationEvent::Accepted;
                    if !second {
                        (
                            PlanActivation {
                                stage: ActivationStage::Proposing {
                                    participant,
                                    second: true,
                                    accepted: won,
                                },
                                ..a
                            },
                            ActivationAction::Propose { to, reconnect: true },
                        )
                    } else if won {
                        propose_to(
                            PlanActivation { acknowledged: (a.acknowledged + 1) as usize, ..a },
                            participants,
                            current,
                            proposed,
                            participant + 1,
                        )
                    } else {
                        end_with(a, ActivationAction::Unanswered(to))
                    }
                },
                _ => (a, ActivationAction::Ignore),
            }
        },
        ActivationStage::Moving { shard } => match event {
            ActivationEvent::Moved => next_move(
                PlanActivation { migrated: (a.migrated + 1) as usize, ..a },
                current,
                proposed,
                shard + 1,
            ),
            ActivationEvent::MoveFailed => end_with(a, ActivationAction::MoveFailed),
            _ => (a, ActivationAction::Ignore),
        },
        ActivationStage::Storing => match event {
            ActivationEvent::Stored => notify(a, workers, 0),
            _ => (a, ActivationAction::Ignore),
        },
        ActivationStage::Notifying { worker, second } => {
            let to = workers[worker as int];
            match event {
                ActivationEvent::Rejected => end_with(a, ActivationAction::Refused(to)),
                ActivationEvent::Accepted => notify(a, workers, worker + 1),
                ActivationEvent::NoAnswer => if !second {
                    (
                        PlanActivation {
                            stage: ActivationStage::Notifying { worker, second: true },
                            ..a
                        },
                        ActivationAction::Notify { to, reconnect: true },
                    )
                } else {
                    notify(
                        PlanActivation {
                            notifications_failed: (a.notifications_failed + 1) as usize,
                            ..a
                        },
                        workers,
                        worker + 1,
                    )
                },
                _ => (a, ActivationAction::Ignore),
            }
        },
        ActivationStage::Ended => (a, ActivationAction::Ignore),
    }
}

/// The counts of an activation fit its stage.
pub open spec fn activation_wf(
    a: PlanActivation,
    participants: Seq<NodeId>,
    workers: Seq<NodeId>,
    proposed: Seq<V4ShardOwnershipView>,
) -> bool {
    &&& a.migrated <= proposed.len()
    &&& a.notifications_failed <= workers.len()
    &&& match a.stage {
        ActivationStage::Proposing { participant, .. } => participant < participants.len()
            && a.acknowledged == participant && a.migrated == 0 && a.notifications_failed == 0,
        ActivationStage::Moving { shard } => shard < proposed.len() && a.acknowledged
            == participants.len() && a.migrated <= shard && a.notifications_failed == 0,
        ActivationStage::Storing => a.acknowledged == participants.len()
            && a.notifications_failed == 0,
        ActivationStage::Notifying { worker, .. } => worker < workers.len() && a.acknowledged
            == participants.len() && a.notifications_failed <= worker,
        ActivationStage::Ended => true,
    }
}

fn find_move(
    a: PlanActivation,
    current: &V4TrainingPlan,
    proposal: &V4TrainingPlan,
    at: usize,
) -> (r: (PlanActivation, ActivationAction))
    requires
        at <= proposal@.shards.len(),
    ensures
        r == next_move(a, current@.shards, proposal@.shards, at as int),
{
    let ghost proposed = proposal@.shards;
    let ghost whole = next_move(a, current@.shards, proposed, at as int);
    let mut out = a;
    let mut i: usize = at;
    while i < proposal.shards.len()
        invariant
            at <= i <= proposal.shards@.len(),
            proposed == views(proposal.shards@),
            proposed == proposal@.shards,
            whole == next_move(a, current@.shards, proposed, at as int),
            whole == next_move(a, current@.shards, proposed, i as int),
            out == a,
        decreases proposal.shards@.len() - i,
    {
        assert(proposed[i as int] == proposal.shards@[i as int]@);
        match shard_move(current, &proposal.shards[i]) {
            Err(e) => {
                out.stage = ActivationStage::Ended;
                return (out, ActivationAction::NoOwner(e));
            },
            Ok(Some(m)) => {
                out.stage = ActivationStage::Moving { shard: i };
                return (out, ActivationAction::Move(m));
            },
            Ok(None) => {},
        }
        i += 1;
    }
    out.stage = ActivationStage::Storing;
    (out, ActivationAction::StorePlan)
}

fn ask_participant(
    a: PlanActivation,
    participants: &Vec<NodeId>,
    current: &V4TrainingPlan,
    proposal: &V4TrainingPlan,
    i: usize,
) -> (r: (PlanActivation, ActivationAction))
    ensures
        r == propose_to(a, participants@, current@.shards, proposal@.shards, i as int),
{
    if i < participants.len() {
        let mut out = a;
        out.stage =
        ActivationStage::Proposing { participant: i, second: false, accepted: false };
        (out, ActivationAction::Propose { to: participants[i], reconnect: false })
    } else {
        find_move(a, current, proposal, 0)
    }
}

fn tell_worker(a: PlanActivation, workers: &Vec<NodeId>, i: usize) -> (r: (
    PlanActivation,
    ActivationAction,
))
    ensures
        r == notify(a, workers@, i as int),
{
    let mut out = a;
    if i < workers.len() {
        out.stage = ActivationStage::Notifying { worker: i, second: false };
        (out, ActivationAction::Notify { to: workers[i], reconnect: false })
    } else {
        out.stage = ActivationStage::Ended;
        if a.notifications_failed > 0 {
            (out, ActivationAction::Unconfirmed(a.notifications_failed))
        } else {
            (out, ActivationAction::Finish)
        }
    }
}

/// An activation that has done nothing yet.
pub open spec fn fresh_activation() -> PlanActivation {
    PlanActivation {
        stage: ActivationStage::Ended,
        acknowledged: 0,
        migrated: 0,
        notifications_failed: 0,
    }
}

/// Begin the activation of a checked proposal.
pub fn begin_plan_activation(
    participants: &Vec<NodeId>,
    current: &V4TrainingPlan,
    proposal: &V4TrainingPlan,
) -> (r: (PlanActivation, ActivationAction))
    ensures
        r == propose_to(
            fresh_activation(),
            participants@,
            current@.shards,
            proposal@.shards,
            0,
        ),
{
    let fresh = PlanActivation {
        stage: ActivationStage::Ended,
        acknowledged: 0,
        migrated: 0,
        notifications_failed: 0,
    };
    ask_participant(fresh, participants, current, proposal, 0)
}

/// The next step of an activation. `participants` have to accept the proposal,
/// `workers` to confirm the stored plan.
pub fn activate_plan(
    a: PlanActivation,
    participants: &Vec<NodeId>,
    workers: &Vec<NodeId>,
    current: &V4TrainingPlan,
    proposal: &V4TrainingPlan,
    event: ActivationEvent,
) -> (r: (PlanActivation, ActivationAction))
    requires
        activation_wf(a, participants@, workers@, proposal@.shards),
    ensures
        r == activation_step(
            a,
            participants@,
            workers@,
            current@.shards,
            proposal@.shards,
            event,
        ),
{
    proof {
        assert(participants.len() <= usize::MAX);
        assert(workers.len() <= usize::MAX);
        assert(proposal.shards.len() <= usize::MAX);
    }
    let mut out = a;
    match a.stage {
        ActivationStage::Proposing { participant, second, accepted } => {
            let to = participants[participant];
            match event {
                ActivationEvent::Rejected => {
                    out.stage = ActivationStage::Ended;
                    (out, ActivationAction::Refused(to))
                },
                ActivationEvent::Accepted | ActivationEvent::NoAnswer => {
                    let won = accepted || event == ActivationEvent::Accepted;
                    if !second {
                        out.stage =
                        ActivationStage::Proposing { participant, second: true, accepted: won };
                        (out, ActivationAction::Propose { to, reconnect: true })
                    } else if won {
                        out.acknowledged = a.acknowledged + 1;
                        ask_participant(out, participants, current, proposal, participant + 1)
                    } else {
                        out.stage = ActivationStage::Ended;
                        (out, ActivationAction::Unanswered(to))
                    }
                },
                _ => (a, ActivationAction::Ignore),
            }
        },
        ActivationStage::Moving { shard } => match event {
            ActivationEvent::Moved => {
                out.migrated = a.migrated + 1;
                find_move(out, current, proposal, shard + 1)
            },
            ActivationEvent::MoveFailed => {
                out.stage = ActivationStage::Ended;
                (out, ActivationAction::MoveFailed)
            },
            _ => (a, ActivationAction::Ignore),
        },
        ActivationStage::Storing => match event {
            ActivationEvent::Stored => tell_worker(a, workers, 0),
            _ => (a, ActivationAction::Ignore),
        },
        ActivationStage::Notifying { worker, second } => {
            let to = workers[worker];
            match event {
                ActivationEvent::Rejected => {
                    out.stage = ActivationStage::Ended;
                    (out, ActivationAction::Refused(to))
                },
                ActivationEvent::Accepted => tell_worker(a, workers, worker + 1),
                ActivationEvent::NoAnswer => {
                    if !second {
                        out.stage = ActivationStage::Notifying { worker, second: true };
                        (out, ActivationAction::Notify { to, reconnect: true })
                    } else {
                        out.notifications_failed = a.notifications_failed + 1;
                        tell_worker(out, workers, worker + 1)
                    }
                },
                _ => (a, ActivationAction::Ignore),
            }
        },
        ActivationStage::Ended => (a, ActivationAction::Ignore),
    }
}

proof fn lemma_next_move_wf(
    a: PlanActivation,
    participants: Seq<NodeId>,
    workers: Seq<NodeId>,
    current: Seq<V4ShardOwnershipView>,
    proposed: Seq<V4ShardOwnershipView>,
    at: int,
)
    requires
        0 <= at <= proposed.len(),
        proposed.len() <= usize::MAX,
        a.acknowledged == participants.len(),
        a.migrated <= at,
        a.notifications_failed == 0,
    ensures
        activation_wf(
            next_move(a, current, proposed, at).0,
            participants,
            workers,
            proposed,
        ),
        !(next_move(a, current, proposed, at).1 is Finish),
        !(next_move(a, current, proposed, at).1 is Notify),
        next_move(a, current, proposed, at).0.acknowledged == a.acknowledged,
        next_move(a, current, proposed, at).1 is StorePlan ==> forall|i: int|
            at <= i < proposed.len() ==> move_of(current, #[trigger] proposed[i]) == Ok::<
                Option<ShardMove>,
                MoveError,
            >(None),
    decreases proposed.len() - at,
{
    if at < proposed.len() && move_of(current, proposed[at]) == Ok::<Option<ShardMove>, MoveError>(
        None,
    ) {
        lemma_next_move_wf(a, participants, workers, current, proposed, at + 1);
    }
}

/// The counts of an activation fit its stage from beginning to end, so a plan
/// is stored only once every participant has accepted it.
pub proof fn law_plan_is_stored_after_all_accept(
    a: PlanActivation,
    participants: Seq<NodeId>,
    workers: Seq<NodeId>,
    current: Seq<V4ShardOwnershipView>,
    proposed: Seq<V4ShardOwnershipView>,
    event: ActivationEvent,
)
    requires
        participants.len() <= usize::MAX,
        workers.len() <= usize::MAX,
        proposed.len() <= usize::MAX,
        activation_wf(a, participants, workers, proposed),
    ensures
        activation_wf(
            propose_to(fresh_activation(), participants, current, proposed, 0).0,
            participants,
            workers,
            proposed,
        ),
        ({
            let (after, action) = activation_step(
                a,
                participants,
                workers,
                current,
                proposed,
                event,
            );
            &&& activation_wf(after, participants, workers, proposed)
            &&& action is StorePlan ==> after.acknowledged == participants.len()
            &&& action is Finish ==> a.acknowledged == participants.len()
                && after.notifications_failed == 0
            &&& event is Rejected && (a.stage is Proposing || a.stage is Notifying)
                ==> action is Refused
        }),
{
    if participants.len() == 0 {
        lemma_next_move_wf(fresh_activation(), participants, workers, current, proposed, 0);
    }
    match a.stage {
        ActivationStage::Proposing { participant, .. } => {
            if participant + 1 == participants.len() {
                lemma_next_move_wf(
                    PlanActivation { acknowledged: (a.acknowledged + 1) as usize, ..a },
                    participants,
                    workers,
                    current,
                    proposed,
                    0,
                );
            }
        },
        ActivationStage::Moving { shard } => {
            lemma_next_move_wf(
                PlanActivation { migrated: (a.migrated + 1) as usize, ..a },
                participants,
                workers,
                current,
                proposed,
                shard + 1,
            );
        },
        _ => {},
    }
}

/// The first owner of the shard changes with the proposal.
pub open spec fn owner_changes(
    current: Seq<V4ShardOwnershipView>,
    proposed: V4ShardOwnershipView,
) -> bool {
    move_of(current, proposed) matches Ok(Some(_))
}

/// The positions of the shards that have moved, after an event.
pub open spec fn moved_after(a: PlanActivation, event: ActivationEvent, moved: Set<int>) -> Set<
    int,
> {
    match a.stage {
        ActivationStage::Moving { shard } => if event == ActivationEvent::Moved {
            moved.insert(shard as int)
        } else {
            moved
        },
        _ => moved,
    }
}

/// Every shard before position `n` has an owner that stays or has moved.
pub open spec fn moved_before(
    current: Seq<V4ShardOwnershipView>,
    proposed: Seq<V4ShardOwnershipView>,
    moved: Set<int>,
    n: int,
) -> bool {
    forall|i: int|
        0 <= i < n && i < proposed.len() ==> move_of(current, #[trigger] proposed[i]) is Ok && (
        owner_changes(current, proposed[i]) ==> moved.contains(i))
}

/// What has moved so far: everything before the shard that is on its way, and
/// everything once the plan is stored.
pub open spec fn moves_made(
    a: PlanActivation,
    current: Seq<V4ShardOwnershipView>,
    proposed: Seq<V4ShardOwnershipView>,
    moved: Set<int>,
) -> bool {
    match a.stage {
        ActivationStage::Moving { shard } => shard < proposed.len() && owner_changes(
            current,
            proposed[shard as int],
        ) && moved_before(current, proposed, moved, shard as int),
        ActivationStage::Storing | ActivationStage::Notifying { .. } => moved_before(
            current,
            proposed,
            moved,
            proposed.len() as int,
        ),
        _ => true,
    }
}

proof fn lemma_next_move_made(
    a: PlanActivation,
    current: Seq<V4ShardOwnershipView>,
    proposed: Seq<V4ShardOwnershipView>,
    moved: Set<int>,
    at: int,
)
    requires
        0 <= at <= proposed.len() <= usize::MAX,
        moved_before(current, proposed, moved, at),
    ensures
        moves_made(next_move(a, current, proposed, at).0, current, proposed, moved),
        next_move(a, current, proposed, at).1 is StorePlan ==> moved_before(
            current,
            proposed,
            moved,
            proposed.len() as int,
        ),
        !(next_move(a, current, proposed, at).1 is Notify),
        !(next_move(a, current, proposed, at).1 is Finish),
    decreases proposed.len() - at,
{
    if at < proposed.len() && move_of(current, proposed[at]) == Ok::<Option<ShardMove>, MoveError>(
        None,
    ) {
        lemma_next_move_made(a, current, proposed, moved, at + 1);
    }
}

/// A plan changes only after every transfer: it is stored once every shard whose
/// first owner changes has moved, and no shard is without an owner on either side.
/// `moved` holds the positions of the shards whose move has been reported.
pub proof fn law_plan_is_stored_after_all_moves(
    a: PlanActivation,
    participants: Seq<NodeId>,
    workers: Seq<NodeId>,
    current: Seq<V4ShardOwnershipView>,
    proposed: Seq<V4ShardOwnershipView>,
    event: ActivationEvent,
    moved: Set<int>,
)
    requires
        proposed.len() <= usize::MAX,
        moves_made(a, current, proposed, moved),
    ensures
        ({
            let (begun, first) = propose_to(
                fresh_activation(),
                participants,
                current,
                proposed,
                0,
            );
            &&& moves_made(begun, current, proposed, Set::empty())
            &&& first is StorePlan ==> moved_before(
                current,
                proposed,
                Set::empty(),
                proposed.len() as int,
            )
        }),
        ({
            let (after, action) = activation_step(
                a,
                participants,
                workers,
                current,
                proposed,
                event,
            );
            let now = moved_after(a, event, moved);
            &&& moves_made(after, current, proposed, now)
            &&& action is StorePlan ==> moved_before(current, proposed, now, proposed.len() as int)
            &&& action is Notify ==> moved_before(current, proposed, now, proposed.len() as int)
            &&& event is MoveFailed && a.stage is Moving ==> action is MoveFailed
        }),
{
    lemma_next_move_made(fresh_activation(), current, proposed, Set::empty(), 0);
    match a.stage {
        ActivationStage::Proposing { participant, .. } => {
            lemma_next_move_made(
                PlanActivation { acknowledged: (a.acknowledged + 1) as usize, ..a },
                current,
                proposed,
                moved,
                0,
            );
        },
        ActivationStage::Moving { shard } => {
            if event is Moved {
                let now = moved_after(a, event, moved);
                let next = PlanActivation { migrated: (a.migrated + 1) as usize, ..a };
                assert(moved_before(current, proposed, now, shard + 1));
                lemma_next_move_made(next, current, proposed, now, shard + 1);
            }
        },
        _ => {},
    }
}

/// A participant that refuses ends the activation; each is asked twice, the second time
/// after a reconnect, and has to accept one of the two; the next one follows.
pub proof fn law_participants_are_asked_twice(
    a: PlanActivation,
    participants: Seq<NodeId>,
    workers: Seq<NodeId>,
    current: Seq<V4ShardOwnershipView>,
    proposed: Seq<V4ShardOwnershipView>,
    participant: usize,
    accepted: bool,
)
    requires
        participant + 1 < participants.len() <= usize::MAX,
        a.acknowledged < usize::MAX,
    ensures
        a.stage is Proposing && a.stage->participant == participant ==> activation_step(
            a,
            participants,
            workers,
            current,
            proposed,
            ActivationEvent::Rejected,
        ).1 == ActivationAction::Refused(participants[participant as int]),
        a.stage == (ActivationStage::Proposing { participant, second: false, accepted })
            ==> activation_step(
            a,
            participants,
            workers,
            current,
            proposed,
            ActivationEvent::Accepted,
        ).1 == (ActivationAction::Propose {
            to: participants[participant as int],
            reconnect: true,
        }),
        a.stage == (ActivationStage::Proposing { participant, second: true, accepted }) ==> ({
            let (after, action) = activation_step(
                a,
                participants,
                workers,
                current,
                proposed,
                ActivationEvent::Accepted,
            );
            &&& action == (ActivationAction::Propose {
                to: participants[participant + 1],
                reconnect: false,
            })
            &&& after.acknowledged == a.acknowledged + 1
        }),
        a.stage == (ActivationStage::Proposing { participant, second: true, accepted: false })
            ==> activation_step(
            a,
            participants,
            workers,
            current,
            proposed,
            ActivationEvent::NoAnswer,
        ).1 == ActivationAction::Unanswered(participants[participant as int]),
{
}

/// Behind the moves the plan is stored; then each worker is told, twice where it does not
/// answer; who stays silent is counted, and a refusal or a failed move ends it.
pub proof fn law_workers_are_told_of_the_plan(
    a: PlanActivation,
    participants: Seq<NodeId>,
    workers: Seq<NodeId>,
    current: Seq<V4ShardOwnershipView>,
    proposed: Seq<V4ShardOwnershipView>,
    worker: usize,
    shard: usize,
)
    requires
        worker < workers.len() <= usize::MAX,
        a.notifications_failed < usize::MAX,
    ensures
        a.stage is Storing ==> activation_step(
            a,
            participants,
            workers,
            current,
            proposed,
            ActivationEvent::Stored,
        ).1 == (ActivationAction::Notify { to: workers[0], reconnect: false }),
        a.stage == (ActivationStage::Moving { shard }) ==> activation_step(
            a,
            participants,
            workers,
            current,
            proposed,
            ActivationEvent::MoveFailed,
        ).1 is MoveFailed,
        a.stage == (ActivationStage::Moving { shard }) && shard + 1 == proposed.len()
            ==> activation_step(
            a,
            participants,
            workers,
            current,
            proposed,
            ActivationEvent::Moved,
        ).1 is StorePlan,
        a.stage == (ActivationStage::Notifying { worker, second: false }) ==> activation_step(
            a,
            participants,
            workers,
            current,
            proposed,
            ActivationEvent::NoAnswer,
        ).1 == (ActivationAction::Notify { to: workers[worker as int], reconnect: true }),
        a.stage == (ActivationStage::Notifying { worker, second: true }) && worker + 1
            == workers.len() ==> activation_step(
            a,
            participants,
            workers,
            current,
            proposed,
            ActivationEvent::NoAnswer,
        ).1 == ActivationAction::Unconfirmed((a.notifications_failed + 1) as usize),
        a.stage is Notifying && a.stage->worker == worker && worker + 1 == workers.len()
            && a.notifications_failed == 0 ==> activation_step(
            a,
            participants,
            workers,
            current,
            proposed,
            ActivationEvent::Accepted,
        ).1 is Finish,
        a.stage is Notifying && a.stage->worker == worker ==> activation_step(
            a,
            participants,
            workers,
            current,
            proposed,
            ActivationEvent::Rejected,
        ).1 == ActivationAction::Refused(workers[worker as int]),
{
}

} // verus!
