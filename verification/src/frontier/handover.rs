//! How the owner of a shard hands it to another node: the target prepares the
//! state, then commits it, and only then does anything change at the source.

use crate::base::arith::sat_u64;
use crate::base::ids::NodeId;
use crate::base::record::Duplicate;
use crate::base::search::opt_view;
use crate::frontier::local::{
    V4LocalDataShard, V4LocalDataShardView, V4ShardMigration, V4ShardMigrationAck,
    V4ShardMigrationPhase, V4ShardMigrationView,
};
use crate::frontier::migration::{
    check_move, confirms_content, migration_verified, move_refused, next_ownership,
    transfer_confirmed, transfer_message, transfer_step, MigrateError,
};
use crate::frontier::types::V4TrainingPlan;
use vstd::prelude::*;

verus! {

/// What a handover is for.
#[derive(Clone, Copy, Debug, PartialEq, Eq, Structural)]
pub enum HandoverMode {
    /// The shard moves at once: the plan records it, and the source is retired.
    Migration,
    /// A proposed plan wants the shard elsewhere: the source stays as a replica,
    /// and the active plan stays as it is.
    Proposed,
}

/// Where a handover stands.
#[derive(Clone, Copy, Debug, PartialEq, Eq, Structural)]
pub enum HandoverStep {
    /// A step is on its way to the target.
    Sending(V4ShardMigrationPhase),
    /// The target has to confirm that it holds the state.
    Preparing,
    /// The target has to confirm that it keeps the state.
    Committing,
    /// The plan has to record the new owner.
    Recording,
    Over,
}

/// A running handover.
#[derive(Debug)]
pub struct Handover {
    pub mode: HandoverMode,
    pub shard: V4LocalDataShard,
    pub source: NodeId,
    pub target: NodeId,
    pub plan_generation: u64,
    pub ownership_generation: u64,
    pub step: HandoverStep,
}

/// The contents of a [`Handover`].
#[verifier::ext_equal]
pub struct HandoverView {
    pub mode: HandoverMode,
    pub shard: V4LocalDataShardView,
    pub source: NodeId,
    pub target: NodeId,
    pub plan_generation: u64,
    pub ownership_generation: u64,
    pub step: HandoverStep,
}

impl View for Handover {
    type V = HandoverView;

    open spec fn view(&self) -> HandoverView {
        HandoverView {
            mode: self.mode,
            shard: self.shard@,
            source: self.source,
            target: self.target,
            plan_generation: self.plan_generation,
            ownership_generation: self.ownership_generation,
            step: self.step,
        }
    }
}

/// What the source of a handover learns.
#[derive(Clone, Copy, Debug, PartialEq, Eq, Structural)]
pub enum HandoverEvent {
    /// Whether the step reached the target.
    Sent(bool),
    /// An answer came from a peer.
    Ack(NodeId, V4ShardMigrationAck),
    OtherMessage,
    /// No message came in time.
    TimedOut,
    /// No message can come any more.
    Closed,
    /// Whether the plan records the new owner.
    Recorded(bool),
}

/// Why a handover fails. The source keeps the shard in every case.
#[derive(Clone, Copy, Debug, PartialEq, Eq, Structural)]
pub enum HandoverError {
    /// A step did not reach the target.
    Unreachable,
    /// The target did not confirm the state.
    NotVerified,
    /// The target did not confirm the commit.
    NotCommitted,
    /// The plan does not record the new owner.
    NotRecorded,
}

/// What the source of a handover does next.
#[derive(Debug, PartialEq, Eq)]
pub enum HandoverAction {
    /// Send a step to the target.
    Send(V4ShardMigration),
    /// Wait for a message.
    Wait,
    /// Record the new owner in the plan.
    Record,
    /// Drop the shard at the source: the handover is done.
    Retire,
    /// The handover is done, and the source keeps its copy.
    Keep,
    Fail(HandoverError),
    /// The event was not awaited.
    Ignore,
}

/// The contents of a [`HandoverAction`].
pub enum HandoverActionView {
    Send(V4ShardMigrationView),
    Wait,
    Record,
    Retire,
    Keep,
    Fail(HandoverError),
    Ignore,
}

impl View for HandoverAction {
    type V = HandoverActionView;

    open spec fn view(&self) -> HandoverActionView {
        match self {
            HandoverAction::Send(migration) => HandoverActionView::Send(migration@),
            HandoverAction::Wait => HandoverActionView::Wait,
            HandoverAction::Record => HandoverActionView::Record,
            HandoverAction::Retire => HandoverActionView::Retire,
            HandoverAction::Keep => HandoverActionView::Keep,
            HandoverAction::Fail(error) => HandoverActionView::Fail(*error),
            HandoverAction::Ignore => HandoverActionView::Ignore,
        }
    }
}

/// A step goes to the target.
pub open spec fn phase_sent(h: HandoverView, phase: V4ShardMigrationPhase) -> (
    HandoverView,
    HandoverActionView,
) {
    (
        HandoverView { step: HandoverStep::Sending(phase), ..h },
        HandoverActionView::Send(
            transfer_step(
                h.shard,
                h.source,
                h.target,
                h.plan_generation,
                h.ownership_generation,
                phase,
            ),
        ),
    )
}

/// The handover ends.
pub open spec fn handover_ended(h: HandoverView, action: HandoverActionView) -> (
    HandoverView,
    HandoverActionView,
) {
    (HandoverView { step: HandoverStep::Over, ..h }, action)
}

/// The handover goes on at a step.
pub open spec fn at_step(h: HandoverView, step: HandoverStep, action: HandoverActionView) -> (
    HandoverView,
    HandoverActionView,
) {
    (HandoverView { step, ..h }, action)
}

/// The target has verified the state that it was sent. Within a proposal it
/// also names the ownership that it was sent.
pub open spec fn prepare_confirmed(h: HandoverView, event: HandoverEvent) -> bool {
    match event {
        HandoverEvent::Ack(peer, ack) => {
            &&& confirms_content(h.shard, h.target, V4ShardMigrationPhase::Prepare, peer, ack)
            &&& h.mode == HandoverMode::Proposed ==> ack.ownership_generation
                == h.ownership_generation
        },
        _ => false,
    }
}

/// The target keeps the state under the ownership that it was sent.
pub open spec fn commit_confirmed(h: HandoverView, event: HandoverEvent) -> bool {
    match event {
        HandoverEvent::Ack(peer, ack) => {
            &&& confirms_content(h.shard, h.target, V4ShardMigrationPhase::Commit, peer, ack)
            &&& ack.ownership_generation == h.ownership_generation
        },
        _ => false,
    }
}

/// The next step of a handover. Where the commit stays unconfirmed it is
/// undone; within a proposal that is left to the target while it is only late.
pub open spec fn handover_stepped(h: HandoverView, event: HandoverEvent) -> (
    HandoverView,
    HandoverActionView,
) {
    match (h.step, event) {
        (HandoverStep::Sending(V4ShardMigrationPhase::Prepare), HandoverEvent::Sent(true)) =>
            at_step(h, HandoverStep::Preparing, HandoverActionView::Wait),
        (HandoverStep::Sending(V4ShardMigrationPhase::Commit), HandoverEvent::Sent(true)) =>
            at_step(h, HandoverStep::Committing, HandoverActionView::Wait),
        (HandoverStep::Sending(V4ShardMigrationPhase::Abort), HandoverEvent::Sent(_)) =>
            handover_ended(h, HandoverActionView::Fail(HandoverError::NotCommitted)),
        (HandoverStep::Sending(_), HandoverEvent::Sent(false)) => handover_ended(
            h,
            HandoverActionView::Fail(HandoverError::Unreachable),
        ),
        (HandoverStep::Preparing, HandoverEvent::Ack(_, _)) => if prepare_confirmed(h, event) {
            phase_sent(h, V4ShardMigrationPhase::Commit)
        } else {
            (h, HandoverActionView::Wait)
        },
        (HandoverStep::Preparing, HandoverEvent::OtherMessage) => (h, HandoverActionView::Wait),
        (HandoverStep::Preparing, HandoverEvent::TimedOut | HandoverEvent::Closed) =>
            handover_ended(h, HandoverActionView::Fail(HandoverError::NotVerified)),
        (HandoverStep::Committing, HandoverEvent::Ack(_, _)) => if !commit_confirmed(h, event) {
            (h, HandoverActionView::Wait)
        } else if h.mode == HandoverMode::Migration {
            at_step(h, HandoverStep::Recording, HandoverActionView::Record)
        } else {
            handover_ended(h, HandoverActionView::Keep)
        },
        (HandoverStep::Committing, HandoverEvent::OtherMessage) => (h, HandoverActionView::Wait),
        (HandoverStep::Committing, HandoverEvent::Closed) => phase_sent(
            h,
            V4ShardMigrationPhase::Abort,
        ),
        (HandoverStep::Committing, HandoverEvent::TimedOut) => if h.mode
            == HandoverMode::Migration {
            phase_sent(h, V4ShardMigrationPhase::Abort)
        } else {
            handover_ended(h, HandoverActionView::Fail(HandoverError::NotCommitted))
        },
        (HandoverStep::Recording, HandoverEvent::Recorded(true)) => handover_ended(
            h,
            HandoverActionView::Retire,
        ),
        (HandoverStep::Recording, HandoverEvent::Recorded(false)) => handover_ended(
            h,
            HandoverActionView::Fail(HandoverError::NotRecorded),
        ),
        _ => (h, HandoverActionView::Ignore),
    }
}

/// A handover that starts.
pub open spec fn fresh_handover(
    mode: HandoverMode,
    shard: V4LocalDataShardView,
    source: NodeId,
    target: NodeId,
    plan_generation: u64,
    ownership_generation: u64,
) -> (HandoverView, HandoverActionView) {
    phase_sent(
        HandoverView {
            mode,
            shard,
            source,
            target,
            plan_generation,
            ownership_generation,
            step: HandoverStep::Over,
        },
        V4ShardMigrationPhase::Prepare,
    )
}

fn send_phase(h: &mut Handover, phase: V4ShardMigrationPhase) -> (r: HandoverAction)
    ensures
        (final(h)@, r@) == phase_sent(old(h)@, phase),
{
    h.step = HandoverStep::Sending(phase);
    HandoverAction::Send(
        transfer_message(
            &h.shard,
            h.source,
            h.target,
            h.plan_generation,
            h.ownership_generation,
            phase,
        ),
    )
}

fn end(h: &mut Handover, action: HandoverAction) -> (r: HandoverAction)
    ensures
        (final(h)@, r@) == handover_ended(old(h)@, action@),
{
    h.step = HandoverStep::Over;
    action
}

fn go_on(h: &mut Handover, step: HandoverStep, action: HandoverAction) -> (r: HandoverAction)
    ensures
        (final(h)@, r@) == at_step(old(h)@, step, action@),
{
    h.step = step;
    action
}

/// Start to hand a shard over for a proposed plan.
pub fn transfer_shard_without_plan_commit(
    shard: &V4LocalDataShard,
    node: NodeId,
    target: NodeId,
    plan_generation: u64,
    ownership_generation: u64,
) -> (r: (Handover, HandoverAction))
    ensures
        (r.0@, r.1@) == fresh_handover(
            HandoverMode::Proposed,
            shard@,
            node,
            target,
            plan_generation,
            ownership_generation,
        ),
{
    let mut h = Handover {
        mode: HandoverMode::Proposed,
        shard: shard.duplicate(),
        source: node,
        target,
        plan_generation,
        ownership_generation,
        step: HandoverStep::Over,
    };
    let action = send_phase(&mut h, V4ShardMigrationPhase::Prepare);
    (h, action)
}

/// Start to move a shard that this node holds to `target`. `plan` is the active
/// plan of the job, if it has one.
pub fn migrate_shard(
    node: NodeId,
    target: NodeId,
    shard: &V4LocalDataShard,
    plan: &Option<V4TrainingPlan>,
) -> (r: Result<(Handover, HandoverAction), MigrateError>)
    ensures
        match move_refused(node, target, shard@, opt_view(*plan)) {
            Some(error) => r == Err::<(Handover, HandoverAction), MigrateError>(error),
            None => r is Ok && (r->Ok_0.0@, r->Ok_0.1@) == fresh_handover(
                HandoverMode::Migration,
                shard@,
                node,
                target,
                shard@.plan_generation,
                sat_u64(shard@.ownership_generation + 1) as u64,
            ),
        },
{
    match check_move(node, target, shard, plan) {
        Some(error) => Err(error),
        None => {
            let mut h = Handover {
                mode: HandoverMode::Migration,
                shard: shard.duplicate(),
                source: node,
                target,
                plan_generation: shard.plan_generation,
                ownership_generation: next_ownership(shard),
                step: HandoverStep::Over,
            };
            let action = send_phase(&mut h, V4ShardMigrationPhase::Prepare);
            Ok((h, action))
        },
    }
}

fn is_prepared(h: &Handover, peer: NodeId, ack: &V4ShardMigrationAck) -> (r: bool)
    ensures
        r == prepare_confirmed(h@, HandoverEvent::Ack(peer, *ack)),
{
    if h.mode == HandoverMode::Migration {
        migration_verified(&h.shard, h.target, peer, ack)
    } else {
        transfer_confirmed(
            &h.shard,
            h.target,
            h.ownership_generation,
            V4ShardMigrationPhase::Prepare,
            peer,
            ack,
        )
    }
}

fn is_committed(h: &Handover, peer: NodeId, ack: &V4ShardMigrationAck) -> (r: bool)
    ensures
        r == commit_confirmed(h@, HandoverEvent::Ack(peer, *ack)),
{
    transfer_confirmed(
        &h.shard,
        h.target,
        h.ownership_generation,
        V4ShardMigrationPhase::Commit,
        peer,
        ack,
    )
}

/// Take a handover one step on.
pub fn hand_over(h: &mut Handover, event: HandoverEvent) -> (r: HandoverAction)
    ensures
        (final(h)@, r@) == handover_stepped(old(h)@, event),
{
    match (h.step, event) {
        (HandoverStep::Sending(phase), HandoverEvent::Sent(reached)) => match (phase, reached) {
            (V4ShardMigrationPhase::Abort, _) => end(
                h,
                HandoverAction::Fail(HandoverError::NotCommitted),
            ),
            (_, false) => end(h, HandoverAction::Fail(HandoverError::Unreachable)),
            (V4ShardMigrationPhase::Prepare, true) => go_on(
                h,
                HandoverStep::Preparing,
                HandoverAction::Wait,
            ),
            (V4ShardMigrationPhase::Commit, true) => go_on(
                h,
                HandoverStep::Committing,
                HandoverAction::Wait,
            ),
        },
        (HandoverStep::Preparing, HandoverEvent::Ack(peer, ack)) => {
            if is_prepared(h, peer, &ack) {
                send_phase(h, V4ShardMigrationPhase::Commit)
            } else {
                HandoverAction::Wait
            }
        },
        (HandoverStep::Preparing, HandoverEvent::OtherMessage) => HandoverAction::Wait,
        (HandoverStep::Preparing, HandoverEvent::TimedOut)
        | (HandoverStep::Preparing, HandoverEvent::Closed) => end(
            h,
            HandoverAction::Fail(HandoverError::NotVerified),
        ),
        (HandoverStep::Committing, HandoverEvent::Ack(peer, ack)) => {
            if !is_committed(h, peer, &ack) {
                HandoverAction::Wait
            } else if h.mode == HandoverMode::Migration {
                go_on(h, HandoverStep::Recording, HandoverAction::Record)
            } else {
                end(h, HandoverAction::Keep)
            }
        },
        (HandoverStep::Committing, HandoverEvent::OtherMessage) => HandoverAction::Wait,
        (HandoverStep::Committing, HandoverEvent::Closed) => send_phase(
            h,
            V4ShardMigrationPhase::Abort,
        ),
        (HandoverStep::Committing, HandoverEvent::TimedOut) => {
            if h.mode == HandoverMode::Migration {
                send_phase(h, V4ShardMigrationPhase::Abort)
            } else {
                end(h, HandoverAction::Fail(HandoverError::NotCommitted))
            }
        },
        (HandoverStep::Recording, HandoverEvent::Recorded(recorded)) => {
            if recorded {
                end(h, HandoverAction::Retire)
            } else {
                end(h, HandoverAction::Fail(HandoverError::NotRecorded))
            }
        },
        _ => HandoverAction::Ignore,
    }
}

/// A handover after a run of events.
pub open spec fn handover_run(h: HandoverView, events: Seq<HandoverEvent>) -> HandoverView
    decreases events.len(),
{
    if events.len() == 0 {
        h
    } else {
        handover_stepped(handover_run(h, events.drop_last()), events.last()).0
    }
}

/// The target confirmed somewhere in a run that it holds the state.
pub open spec fn once_prepared(h: HandoverView, events: Seq<HandoverEvent>) -> bool {
    exists|i: int| 0 <= i < events.len() && prepare_confirmed(h, #[trigger] events[i])
}

/// The target confirmed somewhere in a run that it keeps the state.
pub open spec fn once_committed(h: HandoverView, events: Seq<HandoverEvent>) -> bool {
    exists|i: int| 0 <= i < events.len() && commit_confirmed(h, #[trigger] events[i])
}

/// What a run of a handover has behind it at each of its steps.
pub open spec fn earned(start: HandoverView, events: Seq<HandoverEvent>, h: HandoverView) -> bool {
    &&& h == (HandoverView { step: h.step, ..start })
    &&& (h.step == HandoverStep::Sending(V4ShardMigrationPhase::Commit) || h.step
        == HandoverStep::Sending(V4ShardMigrationPhase::Abort) || h.step
        == HandoverStep::Committing || h.step == HandoverStep::Recording) ==> once_prepared(
        start,
        events,
    )
    &&& h.step == HandoverStep::Recording ==> h.mode == HandoverMode::Migration && once_committed(
        start,
        events,
    )
}

proof fn lemma_run_is_earned(start: HandoverView, events: Seq<HandoverEvent>)
    requires
        start.step == HandoverStep::Sending(V4ShardMigrationPhase::Prepare),
    ensures
        earned(start, events, handover_run(start, events)),
    decreases events.len(),
{
    if events.len() > 0 {
        let before = events.drop_last();
        lemma_run_is_earned(start, before);
        let h = handover_run(start, before);
        let event = events.last();
        assert(events[events.len() - 1] == event);
        assert(prepare_confirmed(h, event) == prepare_confirmed(start, event));
        assert(commit_confirmed(h, event) == commit_confirmed(start, event));
        if once_prepared(start, before) {
            let i = choose|i: int| 0 <= i < before.len() && prepare_confirmed(start, #[trigger]
                before[i]);
            assert(events[i] == before[i]);
        }
        if once_committed(start, before) {
            let i = choose|i: int| 0 <= i < before.len() && commit_confirmed(start, #[trigger]
                before[i]);
            assert(events[i] == before[i]);
        }
    }
}

/// No shard is lost on its way: whatever happens, the source drops its copy only
/// in a move that the target has verified and committed and that the plan has
/// recorded. In every other run a duplicate is left at most.
pub proof fn law_no_shard_is_lost(
    start: HandoverView,
    events: Seq<HandoverEvent>,
    event: HandoverEvent,
)
    requires
        start.step == HandoverStep::Sending(V4ShardMigrationPhase::Prepare),
        handover_stepped(handover_run(start, events), event).1 is Retire,
    ensures
        start.mode == HandoverMode::Migration,
        once_prepared(start, events),
        once_committed(start, events),
        event == HandoverEvent::Recorded(true),
{
    lemma_run_is_earned(start, events);
}

/// The plan is asked to record a move, and a proposed transfer succeeds, only
/// where the target has verified the state and then committed it.
pub proof fn law_handover_is_confirmed(
    start: HandoverView,
    events: Seq<HandoverEvent>,
    event: HandoverEvent,
)
    requires
        start.step == HandoverStep::Sending(V4ShardMigrationPhase::Prepare),
    ensures
        ({
            let action = handover_stepped(handover_run(start, events), event).1;
            action is Record || action is Keep ==> once_prepared(start, events)
                && commit_confirmed(start, event)
        }),
{
    lemma_run_is_earned(start, events);
}

/// A proposed transfer leaves the active plan and the source alone: whatever happens,
/// neither is the plan asked to record the move nor the source retired.
pub proof fn law_proposed_transfer_keeps_the_plan(
    start: HandoverView,
    events: Seq<HandoverEvent>,
    event: HandoverEvent,
)
    requires
        start.step == HandoverStep::Sending(V4ShardMigrationPhase::Prepare),
        start.mode == HandoverMode::Proposed,
    ensures
        ({
            let action = handover_stepped(handover_run(start, events), event).1;
            !(action is Record) && !(action is Retire)
        }),
{
    lemma_run_is_earned(start, events);
}

/// A handover first sends the state itself, from the source to the target, under the
/// generations that it was given.
pub proof fn law_handover_sends_the_state(
    mode: HandoverMode,
    shard: V4LocalDataShardView,
    source: NodeId,
    target: NodeId,
    plan_generation: u64,
    ownership_generation: u64,
)
    ensures
        ({
            let (h, action) = fresh_handover(
                mode,
                shard,
                source,
                target,
                plan_generation,
                ownership_generation,
            );
            &&& h.mode == mode && h.shard == shard && h.source == source && h.target == target
            &&& h.plan_generation == plan_generation
            &&& h.ownership_generation == ownership_generation
            &&& action is Send
            &&& action->Send_0.phase is Prepare && action->Send_0.state == shard.bytes
            &&& action->Send_0.from == source && action->Send_0.to == target
            &&& action->Send_0.ownership_generation == ownership_generation
            &&& action->Send_0.plan_generation == plan_generation
        }),
{
}

/// The commit is sent once the target has verified the state, and only then; a migration
/// is recorded, and a move within a proposal kept, once the target has committed; what
/// goes wrong before is told, and a broken commit of a migration is undone.
pub proof fn law_handover_goes_step_by_step(
    h: HandoverView,
    peer: NodeId,
    ack: V4ShardMigrationAck,
)
    ensures
        h.step is Preparing ==> ({
            let (after, action) = handover_stepped(h, HandoverEvent::Ack(peer, ack));
            let good = peer == h.target && ack.verified && ack.phase is Prepare && ack.content_hash
                == h.shard.hash && (h.mode is Proposed ==> ack.ownership_generation
                == h.ownership_generation);
            &&& good ==> action is Send && action->Send_0.phase is Commit && action->Send_0.to
                == h.target
            &&& !good ==> action is Wait && after == h
        }),
        h.step is Committing ==> ({
            let (after, action) = handover_stepped(h, HandoverEvent::Ack(peer, ack));
            let good = peer == h.target && ack.verified && ack.phase is Commit && ack.content_hash
                == h.shard.hash && ack.ownership_generation == h.ownership_generation;
            &&& good && h.mode is Migration ==> action is Record
            &&& good && h.mode is Proposed ==> action is Keep
            &&& !good ==> action is Wait && after == h
        }),
        h.step is Committing ==> {
            &&& handover_stepped(h, HandoverEvent::Closed).1 is Send
            &&& handover_stepped(h, HandoverEvent::Closed).1->Send_0.phase is Abort
            &&& h.mode is Migration ==> handover_stepped(h, HandoverEvent::TimedOut).1 is Send
            &&& h.mode is Proposed ==> handover_stepped(h, HandoverEvent::TimedOut).1
                == HandoverActionView::Fail(HandoverError::NotCommitted)
        },
        h.step is Preparing ==> handover_stepped(h, HandoverEvent::TimedOut).1
            == HandoverActionView::Fail(HandoverError::NotVerified),
        h.step is Recording ==> handover_stepped(h, HandoverEvent::Recorded(true)).1 is Retire
            && handover_stepped(h, HandoverEvent::Recorded(false)).1 == HandoverActionView::Fail(
            HandoverError::NotRecorded,
        ),
        h.step == HandoverStep::Sending(V4ShardMigrationPhase::Prepare) ==> handover_stepped(
            h,
            HandoverEvent::Sent(false),
        ).1 == HandoverActionView::Fail(HandoverError::Unreachable),
{
}

} // verus!
