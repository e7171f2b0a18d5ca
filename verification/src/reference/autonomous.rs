//! The coordinator of groups that advance on their own: what it does about
//! every report, every lost peer and the end of the job.

use crate::base::arith::sat_u64;
use crate::base::ids::NodeId;
use crate::base::record::{duplicate_all, Duplicate};
use crate::base::search::{find, views};
use crate::reference::context::{
    all_shards_final, all_shards_reached_final_generation, final_checkpoint_generation,
    final_generation, of_group, state_of, Context, ContextView,
};
use crate::reference::coordinator::{
    accept_aggregate, aggregate_rejected, all_shards_trained, finished_groups, groups_led_by,
    install_group, led_by, lemma_group_at, mark_failed, next_window, note_completion,
    other_group_behind, peer_restored, rebuild_progress, rebuilt_progress, replacement,
    replacement_group, restore_training_peer, step_down, took_aggregate, window_due, with_group,
    with_replaced, AggregateStep,
};
use crate::reference::types::{
    Role, TrainingAck, TrainingAggregate, TrainingAggregateView, TrainingElection, TrainingGroup,
    TrainingGroupView, TrainingStartView, TrainingState, TrainingStateView,
};
use crate::reference::worker::{
    followed_state, handle_election, handle_state, state_ack, state_ignored, vote_reply, voted,
    VoteReply, VoteReplyView,
};
use vstd::prelude::*;

verus! {

/// Where the coordinator stands.
#[derive(Clone, Copy, Debug, PartialEq, Eq, Structural)]
pub enum AutonomousStage {
    /// The first state is being published.
    Opening,
    /// Windows are being dispatched, for the first time or to the groups of a
    /// peer that came back.
    Dispatching { opening: bool },
    /// The groups are at work.
    Waiting,
    /// The state after an aggregate is being published.
    Publishing { group_id: u16, window: u64, checkpoint_due: bool },
    /// A checkpoint is being committed after an aggregate.
    Checkpointing { group_id: u16, window: u64 },
    /// A lost peer is being looked for.
    Restoring { peer: NodeId },
    /// The groups of a lost peer are being replaced; a member that counts as
    /// failed is being looked for.
    Replacing { peer: NodeId, member: usize },
    /// The window of a replaced group is being dispatched.
    Replaced { peer: NodeId },
    /// The last checkpoint is being committed.
    Finishing,
    /// There is nothing left to do.
    Over,
}

/// The run of a coordinator.
#[derive(Debug)]
pub struct AutonomousRun {
    /// The groups that have trained the last window.
    pub completed: Vec<u16>,
    pub stage: AutonomousStage,
    /// The groups that are being dispatched or replaced.
    pub groups: Vec<TrainingGroup>,
    /// How many of them are done.
    pub at: usize,
}

/// The contents of an [`AutonomousRun`].
#[verifier::ext_equal]
pub struct AutonomousRunView {
    pub completed: Seq<u16>,
    pub stage: AutonomousStage,
    pub groups: Seq<TrainingGroupView>,
    pub at: int,
}

impl View for AutonomousRun {
    type V = AutonomousRunView;

    open spec fn view(&self) -> AutonomousRunView {
        AutonomousRunView {
            completed: self.completed@,
            stage: self.stage,
            groups: views(self.groups@),
            at: self.at as int,
        }
    }
}

/// Why a coordinator gives up.
#[derive(Clone, Copy, Debug, PartialEq, Eq, Structural)]
pub enum AutonomousError {
    /// What was to be done could not be done.
    ActionFailed,
    /// The groups took too long.
    TimedOut,
    /// No more events come.
    Closed,
    /// A group has no live member left.
    NoAggregator(u16),
    /// Every group is done, but a shard has not reached the last window.
    Incomplete,
    /// The last checkpoint does not cover the whole model.
    NoFinalManifest,
}

/// What happened.
#[derive(Debug)]
pub enum AutonomousEvent {
    /// What was to be done is done.
    Done,
    /// It could not be done.
    Failed,
    /// A peer was looked for.
    Reached { connected: bool, reconnected: bool },
    Aggregate { peer: NodeId, aggregate: TrainingAggregate },
    Disconnected(NodeId),
    Election { peer: NodeId, election: TrainingElection },
    State { peer: NodeId, state: TrainingState },
    Other,
    TimedOut,
    Closed,
}

/// The contents of an [`AutonomousEvent`].
#[verifier::ext_equal]
pub enum AutonomousEventView {
    Done,
    Failed,
    Reached { connected: bool, reconnected: bool },
    Aggregate { peer: NodeId, aggregate: TrainingAggregateView },
    Disconnected(NodeId),
    Election { peer: NodeId, election: TrainingElection },
    State { peer: NodeId, state: TrainingStateView },
    Other,
    TimedOut,
    Closed,
}

impl View for AutonomousEvent {
    type V = AutonomousEventView;

    open spec fn view(&self) -> AutonomousEventView {
        match self {
            AutonomousEvent::Done => AutonomousEventView::Done,
            AutonomousEvent::Failed => AutonomousEventView::Failed,
            AutonomousEvent::Reached { connected, reconnected } => AutonomousEventView::Reached {
                connected: *connected,
                reconnected: *reconnected,
            },
            AutonomousEvent::Aggregate { peer, aggregate } => AutonomousEventView::Aggregate {
                peer: *peer,
                aggregate: aggregate@,
            },
            AutonomousEvent::Disconnected(peer) => AutonomousEventView::Disconnected(*peer),
            AutonomousEvent::Election { peer, election } => AutonomousEventView::Election {
                peer: *peer,
                election: *election,
            },
            AutonomousEvent::State { peer, state } => AutonomousEventView::State {
                peer: *peer,
                state: state@,
            },
            AutonomousEvent::Other => AutonomousEventView::Other,
            AutonomousEvent::TimedOut => AutonomousEventView::TimedOut,
            AutonomousEvent::Closed => AutonomousEventView::Closed,
        }
    }
}

/// What the coordinator does next.
#[derive(Debug)]
pub enum AutonomousAction {
    /// Wait for the next event.
    Wait,
    /// Store the state and send it to everyone.
    Publish(TrainingState),
    /// Commit a checkpoint of the context.
    Checkpoint,
    /// Look for a peer.
    Restore(NodeId),
    /// Dispatch a window of a group.
    Dispatch { group: TrainingGroup, window: u64 },
    /// Answer a request for a vote and wait on.
    Vote(VoteReply),
    /// Store the state of a later term, acknowledge it and wait on.
    Follow { state: TrainingState, ack: TrainingAck },
    /// Store the state of a later term, acknowledge it and go on as a worker.
    StepDown { state: TrainingState, ack: TrainingAck },
    /// Report the finished run.
    Finish,
    /// Give up.
    Fail(AutonomousError),
}

/// The contents of an [`AutonomousAction`].
#[verifier::ext_equal]
pub enum AutonomousActionView {
    Wait,
    Publish(TrainingStateView),
    Checkpoint,
    Restore(NodeId),
    Dispatch { group: TrainingGroupView, window: u64 },
    Vote(VoteReplyView),
    Follow { state: TrainingStateView, ack: TrainingAck },
    StepDown { state: TrainingStateView, ack: TrainingAck },
    Finish,
    Fail(AutonomousError),
}

impl View for AutonomousAction {
    type V = AutonomousActionView;

    open spec fn view(&self) -> AutonomousActionView {
        match self {
            AutonomousAction::Wait => AutonomousActionView::Wait,
            AutonomousAction::Publish(state) => AutonomousActionView::Publish(state@),
            AutonomousAction::Checkpoint => AutonomousActionView::Checkpoint,
            AutonomousAction::Restore(peer) => AutonomousActionView::Restore(*peer),
            AutonomousAction::Dispatch { group, window } => AutonomousActionView::Dispatch {
                group: group@,
                window: *window,
            },
            AutonomousAction::Vote(reply) => AutonomousActionView::Vote(reply@),
            AutonomousAction::Follow { state, ack } => AutonomousActionView::Follow {
                state: state@,
                ack: *ack,
            },
            AutonomousAction::StepDown { state, ack } => AutonomousActionView::StepDown {
                state: state@,
                ack: *ack,
            },
            AutonomousAction::Finish => AutonomousActionView::Finish,
            AutonomousAction::Fail(error) => AutonomousActionView::Fail(*error),
        }
    }
}

/// The context, the run and the action after an event.
#[verifier::ext_equal]
pub struct AutonomousOutcome {
    pub context: ContextView,
    pub run: AutonomousRunView,
    pub action: AutonomousActionView,
}

/// The run goes on to `stage` with `action`.
pub open spec fn on_to(
    c: ContextView,
    run: AutonomousRunView,
    stage: AutonomousStage,
    action: AutonomousActionView,
) -> AutonomousOutcome {
    AutonomousOutcome { context: c, run: AutonomousRunView { stage, ..run }, action }
}

/// The coordinator waits until every group has trained the last window. The run is
/// reported only with the model complete and its last checkpoint committed: until
/// then a checkpoint is committed, and a model that stays incomplete is a failure.
pub open spec fn settled(c: ContextView, run: AutonomousRunView) -> AutonomousOutcome {
    if run.completed.len() < c.start.groups.len() {
        on_to(c, run, AutonomousStage::Waiting, AutonomousActionView::Wait)
    } else if !all_shards_final(c) {
        on_to(
            c,
            run,
            AutonomousStage::Over,
            AutonomousActionView::Fail(AutonomousError::Incomplete),
        )
    } else if !c.final_checkpoint_committed {
        on_to(c, run, AutonomousStage::Finishing, AutonomousActionView::Checkpoint)
    } else {
        on_to(c, run, AutonomousStage::Over, AutonomousActionView::Finish)
    }
}

/// A checkpoint was committed at the end of the run. Where it was of the last
/// generation and still not the final one, no further one can be.
pub open spec fn last_committed(c: ContextView, run: AutonomousRunView) -> AutonomousOutcome {
    if !c.final_checkpoint_committed && c.checkpoint_generation >= final_generation(c.start) {
        on_to(
            c,
            run,
            AutonomousStage::Over,
            AutonomousActionView::Fail(AutonomousError::NoFinalManifest),
        )
    } else {
        settled(c, run)
    }
}

/// The first group from `at` on that has a window to train.
pub open spec fn due_from(c: ContextView, groups: Seq<TrainingGroupView>, at: int) -> int
    decreases groups.len() - at,
{
    if at < 0 || at >= groups.len() || next_window(c, groups[at]) is Some {
        at
    } else {
        due_from(c, groups, at + 1)
    }
}

/// Every group is dispatched.
pub open spec fn all_dispatched(c: ContextView, run: AutonomousRunView, opening: bool) ->
    AutonomousOutcome {
    if opening {
        let n = c.start.groups.len() as int;
        settled(
            ContextView { group_progress: rebuilt_progress(c, n), ..c },
            AutonomousRunView { completed: finished_groups(c, n), ..run },
        )
    } else {
        settled(c, run)
    }
}

/// The next group that has a window to train is dispatched.
pub open spec fn dispatching(c: ContextView, run: AutonomousRunView, opening: bool) ->
    AutonomousOutcome {
    let i = due_from(c, run.groups, run.at);
    if 0 <= i < run.groups.len() {
        on_to(
            c,
            AutonomousRunView { at: i + 1, ..run },
            AutonomousStage::Dispatching { opening },
            AutonomousActionView::Dispatch {
                group: run.groups[i],
                window: next_window(c, run.groups[i])->0,
            },
        )
    } else {
        all_dispatched(c, AutonomousRunView { at: i, ..run }, opening)
    }
}

/// The first member from `at` on, other than `peer`, that counts as failed.
pub open spec fn failed_from(
    c: ContextView,
    members: Seq<NodeId>,
    peer: NodeId,
    at: int,
) -> int
    decreases members.len() - at,
{
    if at < 0 || at >= members.len() || (members[at] != peer && c.failed.contains(members[at])) {
        at
    } else {
        failed_from(c, members, peer, at + 1)
    }
}

/// The context with a group in its new form.
pub open spec fn with_installed(c: ContextView, group: TrainingGroupView) -> ContextView {
    ContextView {
        start: TrainingStartView { groups: with_replaced(c.start.groups, group), ..c.start },
        ..c
    }
}

/// The groups of a lost peer are replaced one after the other: first every other
/// member that counts as failed is looked for, then the first live member leads
/// the group, and its next window is dispatched.
pub open spec fn replacing(
    c: ContextView,
    run: AutonomousRunView,
    peer: NodeId,
    member: int,
) -> AutonomousOutcome
    decreases run.groups.len() - run.at,
{
    if run.at < 0 || run.at >= run.groups.len() {
        settled(c, run)
    } else {
        let group = run.groups[run.at];
        let m = failed_from(c, group.members, peer, member);
        if 0 <= m < group.members.len() {
            on_to(
                c,
                run,
                AutonomousStage::Replacing { peer, member: m as usize },
                AutonomousActionView::Restore(group.members[m]),
            )
        } else {
            match replacement(c, group) {
                None => on_to(
                    c,
                    run,
                    AutonomousStage::Over,
                    AutonomousActionView::Fail(AutonomousError::NoAggregator(group.group_id)),
                ),
                Some(retry) => {
                    let installed = with_installed(c, retry);
                    let next = AutonomousRunView { at: run.at + 1, ..run };
                    match next_window(installed, group) {
                        Some(window) => on_to(
                            installed,
                            next,
                            AutonomousStage::Replaced { peer },
                            AutonomousActionView::Dispatch { group: retry, window },
                        ),
                        None => replacing(installed, next, peer, 0),
                    }
                },
            }
        }
    }
}

/// An accepted aggregate has been published, and its checkpoint committed where
/// one was due.
pub open spec fn completing(
    c: ContextView,
    run: AutonomousRunView,
    group_id: u16,
    window: u64,
) -> AutonomousOutcome {
    if window >= c.start.max_windows {
        settled(
            ContextView {
                non_barrier_progress_observed: c.non_barrier_progress_observed
                    || other_group_behind(c, group_id),
                group_completion_order: if run.completed.contains(group_id) {
                    c.group_completion_order
                } else {
                    c.group_completion_order.push(group_id)
                },
                ..c
            },
            AutonomousRunView { completed: with_group(run.completed, group_id), ..run },
        )
    } else {
        settled(c, run)
    }
}

/// A report of a group came in.
pub open spec fn on_aggregate(
    c: ContextView,
    run: AutonomousRunView,
    peer: NodeId,
    a: TrainingAggregateView,
) -> AutonomousOutcome {
    match find(c.start.groups, of_group(a.group_id)) {
        None => on_to(c, run, AutonomousStage::Waiting, AutonomousActionView::Wait),
        Some(group) => if aggregate_rejected(c, group, peer, a) {
            on_to(
                ContextView {
                    rejected_updates: sat_u64(c.rejected_updates + 1) as u64,
                    ..c
                },
                run,
                AutonomousStage::Waiting,
                AutonomousActionView::Wait,
            )
        } else {
            let after = took_aggregate(c, a);
            on_to(
                after,
                run,
                AutonomousStage::Publishing {
                    group_id: a.group_id,
                    window: a.window,
                    checkpoint_due: all_shards_trained(after) && a.window
                        % c.start.checkpoint_every == 0,
                },
                AutonomousActionView::Publish(state_of(after)),
            )
        },
    }
}

/// The search for a lost peer is over.
pub open spec fn on_search(
    c: ContextView,
    run: AutonomousRunView,
    peer: NodeId,
    connected: bool,
    reconnected: bool,
) -> AutonomousOutcome {
    let back = peer_restored(c, peer, connected, reconnected);
    let after = ContextView {
        failed: if back {
            c.failed.remove(peer)
        } else {
            c.failed.insert(peer)
        },
        ..c
    };
    let next = AutonomousRunView { groups: c.start.groups.filter(led_by(peer)), at: 0, ..run };
    if back {
        dispatching(after, next, false)
    } else {
        replacing(after, next, peer, 0)
    }
}

/// The search for another member of a group that is being replaced is over.
pub open spec fn on_member_search(
    c: ContextView,
    run: AutonomousRunView,
    peer: NodeId,
    member: int,
    connected: bool,
    reconnected: bool,
) -> AutonomousOutcome {
    if 0 <= run.at < run.groups.len() && 0 <= member < run.groups[run.at].members.len() {
        let found = run.groups[run.at].members[member];
        let after = ContextView {
            failed: if peer_restored(c, found, connected, reconnected) {
                c.failed.remove(found)
            } else {
                c.failed
            },
            ..c
        };
        replacing(after, run, peer, member + 1)
    } else {
        replacing(c, run, peer, 0)
    }
}

/// A state of a later term came in: it is followed, and where it names another
/// coordinator this one steps down.
pub open spec fn on_state(
    c: ContextView,
    run: AutonomousRunView,
    node: NodeId,
    peer: NodeId,
    s: TrainingStateView,
) -> AutonomousOutcome {
    if s.term <= c.term || state_ignored(c, peer, s) {
        on_to(c, run, AutonomousStage::Waiting, AutonomousActionView::Wait)
    } else {
        let after = followed_state(c, s);
        let merged = state_of(after);
        let ack = state_ack(node, merged);
        if after.coordinator != c.coordinator {
            on_to(
                ContextView { role: Role::Worker, ..after },
                run,
                AutonomousStage::Over,
                AutonomousActionView::StepDown { state: merged, ack },
            )
        } else {
            on_to(
                after,
                run,
                AutonomousStage::Waiting,
                AutonomousActionView::Follow { state: merged, ack },
            )
        }
    }
}

/// A request for a vote came in: it is answered where it is for a later term.
pub open spec fn on_election(
    c: ContextView,
    run: AutonomousRunView,
    node: NodeId,
    peer: NodeId,
    e: TrainingElection,
) -> AutonomousOutcome {
    match vote_reply(c, node, peer, e) {
        Some(reply) if e.term > c.term => on_to(
            voted(c, peer, e),
            run,
            AutonomousStage::Waiting,
            AutonomousActionView::Vote(reply),
        ),
        _ => on_to(c, run, AutonomousStage::Waiting, AutonomousActionView::Wait),
    }
}

/// What the coordinator does about an event.
pub open spec fn autonomous_step(
    c: ContextView,
    run: AutonomousRunView,
    node: NodeId,
    event: AutonomousEventView,
) -> AutonomousOutcome {
    let idle = on_to(c, run, run.stage, AutonomousActionView::Wait);
    let failed = |error: AutonomousError|
        on_to(c, run, AutonomousStage::Over, AutonomousActionView::Fail(error));
    match run.stage {
        AutonomousStage::Over => idle,
        AutonomousStage::Waiting => match event {
            AutonomousEventView::Aggregate { peer, aggregate } => on_aggregate(
                c,
                run,
                peer,
                aggregate,
            ),
            AutonomousEventView::Disconnected(peer) => on_to(
                c,
                run,
                AutonomousStage::Restoring { peer },
                AutonomousActionView::Restore(peer),
            ),
            AutonomousEventView::Election { peer, election } => on_election(
                c,
                run,
                node,
                peer,
                election,
            ),
            AutonomousEventView::State { peer, state } => on_state(c, run, node, peer, state),
            AutonomousEventView::TimedOut => failed(AutonomousError::TimedOut),
            AutonomousEventView::Closed => failed(AutonomousError::Closed),
            _ => idle,
        },
        AutonomousStage::Restoring { peer } => match event {
            AutonomousEventView::Reached { connected, reconnected } => on_search(
                c,
                run,
                peer,
                connected,
                reconnected,
            ),
            _ => idle,
        },
        AutonomousStage::Replacing { peer, member } => match event {
            AutonomousEventView::Reached { connected, reconnected } => on_member_search(
                c,
                run,
                peer,
                member as int,
                connected,
                reconnected,
            ),
            _ => idle,
        },
        _ => match event {
            AutonomousEventView::Failed => failed(AutonomousError::ActionFailed),
            AutonomousEventView::Done => match run.stage {
                AutonomousStage::Opening => dispatching(c, run, true),
                AutonomousStage::Dispatching { opening } => dispatching(c, run, opening),
                AutonomousStage::Publishing { group_id, window, checkpoint_due } => if
                checkpoint_due {
                    on_to(
                        c,
                        run,
                        AutonomousStage::Checkpointing { group_id, window },
                        AutonomousActionView::Checkpoint,
                    )
                } else {
                    completing(c, run, group_id, window)
                },
                AutonomousStage::Checkpointing { group_id, window } => completing(
                    c,
                    run,
                    group_id,
                    window,
                ),
                AutonomousStage::Replaced { peer } => replacing(c, run, peer, 0),
                AutonomousStage::Finishing => last_committed(c, run),
                _ => idle,
            },
            _ => idle,
        },
    }
}

/// Begin a run: the state of the context is published first.
pub fn begin_autonomous(context: &Context) -> (r: (AutonomousRun, AutonomousAction))
    ensures
        r.0@ == (AutonomousRunView {
            completed: Seq::empty(),
            stage: AutonomousStage::Opening,
            groups: context@.start.groups,
            at: 0,
        }),
        r.1@ == AutonomousActionView::Publish(state_of(context@)),
{
    (
        AutonomousRun {
            completed: Vec::new(),
            stage: AutonomousStage::Opening,
            groups: duplicate_all(&context.start.groups),
            at: 0,
        },
        AutonomousAction::Publish(context.state()),
    )
}

fn settle(context: &Context, run: &mut AutonomousRun) -> (r: AutonomousAction)
    ensures
        (AutonomousOutcome { context: context@, run: final(run)@, action: r@ }) == settled(
            context@,
            old(run)@,
        ),
{
    assert(context@.start.groups.len() == context.start.groups@.len());
    if run.completed.len() < context.start.groups.len() {
        run.stage = AutonomousStage::Waiting;
        AutonomousAction::Wait
    } else if !all_shards_reached_final_generation(context) {
        run.stage = AutonomousStage::Over;
        AutonomousAction::Fail(AutonomousError::Incomplete)
    } else if !context.final_checkpoint_committed {
        run.stage = AutonomousStage::Finishing;
        AutonomousAction::Checkpoint
    } else {
        run.stage = AutonomousStage::Over;
        AutonomousAction::Finish
    }
}

fn dispatch_next(context: &mut Context, run: &mut AutonomousRun, opening: bool) -> (r:
    AutonomousAction)
    ensures
        (AutonomousOutcome {
            context: final(context)@,
            run: final(run)@,
            action: r@,
        }) == dispatching(old(context)@, old(run)@, opening),
{
    let ghost c = context@;
    let ghost before = run@;
    let mut i: usize = run.at;
    while i < run.groups.len()
        invariant
            before == run@,
            c == context@,
            before == old(run)@,
            c == old(context)@,
            due_from(c, before.groups, before.at) == due_from(c, before.groups, i as int),
        decreases run.groups@.len() - i,
    {
        assert(before.groups[i as int] == run.groups@[i as int]@);
        match window_due(context, &run.groups[i]) {
            Some(window) => {
                let group = run.groups[i].duplicate();
                run.at = i + 1;
                run.stage = AutonomousStage::Dispatching { opening };
                return AutonomousAction::Dispatch { group, window };
            },
            None => {
                i += 1;
            },
        }
    }
    run.at = i;
    if opening {
        let completed = rebuild_progress(context);
        run.completed = completed;
    }
    settle(context, run)
}

fn failed_member(context: &Context, members: &Vec<NodeId>, peer: NodeId, start: usize) -> (r: usize)
    ensures
        r == failed_from(context@, members@, peer, start as int),
{
    let mut i: usize = start;
    while i < members.len() && (members[i] == peer || !context.failed.contains(members[i]))
        invariant
            failed_from(context@, members@, peer, start as int) == failed_from(
                context@,
                members@,
                peer,
                i as int,
            ),
        decreases members@.len() - i,
    {
        i += 1;
    }
    i
}

fn replace_next(context: &mut Context, run: &mut AutonomousRun, peer: NodeId, start: usize) -> (r:
    AutonomousAction)
    ensures
        (AutonomousOutcome {
            context: final(context)@,
            run: final(run)@,
            action: r@,
        }) == replacing(old(context)@, old(run)@, peer, start as int),
{
    let mut member: usize = start;
    while run.at < run.groups.len()
        invariant
            replacing(context@, run@, peer, member as int) == replacing(
                old(context)@,
                old(run)@,
                peer,
                start as int,
            ),
        decreases run.groups@.len() - run.at,
    {
        let at: usize = run.at;
        let ghost group = run@.groups[at as int];
        assert(group == run.groups@[at as int]@);
        let m: usize = failed_member(context, &run.groups[at].members, peer, member);
        if m < run.groups[at].members.len() {
            let lost = run.groups[at].members[m];
            run.stage = AutonomousStage::Replacing { peer, member: m };
            return AutonomousAction::Restore(lost);
        }
        let retry = match replacement_group(context, &run.groups[at]) {
            None => {
                run.stage = AutonomousStage::Over;
                return AutonomousAction::Fail(
                    AutonomousError::NoAggregator(run.groups[at].group_id),
                );
            },
            Some(retry) => retry,
        };
        install_group(context, &retry);
        let due = window_due(context, &run.groups[at]);
        run.at = at + 1;
        match due {
            Some(window) => {
                run.stage = AutonomousStage::Replaced { peer };
                return AutonomousAction::Dispatch { group: retry, window };
            },
            None => {
                member = 0;
            },
        }
    }
    settle(context, run)
}

fn complete(context: &mut Context, run: &mut AutonomousRun, group_id: u16, window: u64) -> (r:
    AutonomousAction)
    ensures
        (AutonomousOutcome {
            context: final(context)@,
            run: final(run)@,
            action: r@,
        }) == completing(old(context)@, old(run)@, group_id, window),
{
    note_completion(context, &mut run.completed, group_id, window);
    settle(context, run)
}

fn take_aggregate(
    context: &mut Context,
    run: &mut AutonomousRun,
    peer: NodeId,
    aggregate: &TrainingAggregate,
) -> (r: AutonomousAction)
    requires
        old(context).start.checkpoint_every > 0,
        old(run).stage == AutonomousStage::Waiting,
    ensures
        (AutonomousOutcome {
            context: final(context)@,
            run: final(run)@,
            action: r@,
        }) == on_aggregate(old(context)@, old(run)@, peer, aggregate@),
{
    match accept_aggregate(context, peer, aggregate) {
        AggregateStep::Accepted(state, checkpoint_due) => {
            run.stage = AutonomousStage::Publishing {
                group_id: aggregate.group_id,
                window: aggregate.window,
                checkpoint_due,
            };
            AutonomousAction::Publish(state)
        },
        _ => AutonomousAction::Wait,
    }
}

fn take_search(
    context: &mut Context,
    run: &mut AutonomousRun,
    peer: NodeId,
    connected: bool,
    reconnected: bool,
) -> (r: AutonomousAction)
    ensures
        (AutonomousOutcome {
            context: final(context)@,
            run: final(run)@,
            action: r@,
        }) == on_search(old(context)@, old(run)@, peer, connected, reconnected),
{
    let back = restore_training_peer(context, peer, connected, reconnected);
    if !back {
        mark_failed(context, peer);
    }
    run.groups = groups_led_by(context, peer);
    run.at = 0;
    if back {
        dispatch_next(context, run, false)
    } else {
        replace_next(context, run, peer, 0)
    }
}

fn take_member_search(
    context: &mut Context,
    run: &mut AutonomousRun,
    peer: NodeId,
    member: usize,
    connected: bool,
    reconnected: bool,
) -> (r: AutonomousAction)
    ensures
        (AutonomousOutcome {
            context: final(context)@,
            run: final(run)@,
            action: r@,
        }) == on_member_search(
            old(context)@,
            old(run)@,
            peer,
            member as int,
            connected,
            reconnected,
        ),
{
    let at: usize = run.at;
    if at < run.groups.len() && member < run.groups[at].members.len() {
        assert(run@.groups[at as int] == run.groups@[at as int]@);
        let found = run.groups[at].members[member];
        restore_training_peer(context, found, connected, reconnected);
        replace_next(context, run, peer, member + 1)
    } else {
        proof {
            if at < run.groups@.len() {
                assert(run@.groups[at as int] == run.groups@[at as int]@);
            }
        }
        replace_next(context, run, peer, 0)
    }
}

fn take_state(
    context: &mut Context,
    run: &mut AutonomousRun,
    node: NodeId,
    peer: NodeId,
    state: &TrainingState,
) -> (r: AutonomousAction)
    requires
        old(run).stage == AutonomousStage::Waiting,
    ensures
        (AutonomousOutcome {
            context: final(context)@,
            run: final(run)@,
            action: r@,
        }) == on_state(old(context)@, old(run)@, node, peer, state@),
{
    if state.term <= context.term {
        return AutonomousAction::Wait;
    }
    let previous = context.coordinator;
    match handle_state(context, node, peer, state) {
        None => AutonomousAction::Wait,
        Some((merged, ack)) => {
            if step_down(context, previous) {
                run.stage = AutonomousStage::Over;
                AutonomousAction::StepDown { state: merged, ack }
            } else {
                AutonomousAction::Follow { state: merged, ack }
            }
        },
    }
}

fn take_election(
    context: &mut Context,
    run: &AutonomousRun,
    node: NodeId,
    peer: NodeId,
    election: &TrainingElection,
) -> (r: AutonomousAction)
    requires
        run.stage == AutonomousStage::Waiting,
    ensures
        (AutonomousOutcome { context: final(context)@, run: run@, action: r@ }) == on_election(
            old(context)@,
            run@,
            node,
            peer,
            *election,
        ),
{
    if election.term <= context.term {
        return AutonomousAction::Wait;
    }
    match handle_election(context, node, peer, election) {
        Some(reply) => AutonomousAction::Vote(reply),
        None => AutonomousAction::Wait,
    }
}

/// Take in an event. The result is what is to be done next.
pub fn drive_autonomous_coordinator(
    context: &mut Context,
    run: &mut AutonomousRun,
    node: NodeId,
    event: AutonomousEvent,
) -> (r: AutonomousAction)
    requires
        old(context).start.checkpoint_every > 0,
    ensures
        (AutonomousOutcome {
            context: final(context)@,
            run: final(run)@,
            action: r@,
        }) == autonomous_step(old(context)@, old(run)@, node, event@),
{
    match run.stage {
        AutonomousStage::Over => AutonomousAction::Wait,
        AutonomousStage::Waiting => match event {
            AutonomousEvent::Aggregate { peer, aggregate } => take_aggregate(
                context,
                run,
                peer,
                &aggregate,
            ),
            AutonomousEvent::Disconnected(peer) => {
                run.stage = AutonomousStage::Restoring { peer };
                AutonomousAction::Restore(peer)
            },
            AutonomousEvent::Election { peer, election } => take_election(
                context,
                run,
                node,
                peer,
                &election,
            ),
            AutonomousEvent::State { peer, state } => take_state(context, run, node, peer, &state),
            AutonomousEvent::TimedOut => {
                run.stage = AutonomousStage::Over;
                AutonomousAction::Fail(AutonomousError::TimedOut)
            },
            AutonomousEvent::Closed => {
                run.stage = AutonomousStage::Over;
                AutonomousAction::Fail(AutonomousError::Closed)
            },
            _ => AutonomousAction::Wait,
        },
        AutonomousStage::Restoring { peer } => match event {
            AutonomousEvent::Reached { connected, reconnected } => take_search(
                context,
                run,
                peer,
                connected,
                reconnected,
            ),
            _ => AutonomousAction::Wait,
        },
        AutonomousStage::Replacing { peer, member } => match event {
            AutonomousEvent::Reached { connected, reconnected } => take_member_search(
                context,
                run,
                peer,
                member,
                connected,
                reconnected,
            ),
            _ => AutonomousAction::Wait,
        },
        stage => match event {
            AutonomousEvent::Failed => {
                run.stage = AutonomousStage::Over;
                AutonomousAction::Fail(AutonomousError::ActionFailed)
            },
            AutonomousEvent::Done => match stage {
                AutonomousStage::Opening => dispatch_next(context, run, true),
                AutonomousStage::Dispatching { opening } => dispatch_next(context, run, opening),
                AutonomousStage::Publishing { group_id, window, checkpoint_due } => {
                    if checkpoint_due {
                        run.stage = AutonomousStage::Checkpointing { group_id, window };
                        AutonomousAction::Checkpoint
                    } else {
                        complete(context, run, group_id, window)
                    }
                },
                AutonomousStage::Checkpointing { group_id, window } => complete(
                    context,
                    run,
                    group_id,
                    window,
                ),
                AutonomousStage::Replaced { peer } => replace_next(context, run, peer, 0),
                AutonomousStage::Finishing => {
                    if !context.final_checkpoint_committed && context.checkpoint_generation
                        >= final_checkpoint_generation(&context.start) {
                        run.stage = AutonomousStage::Over;
                        AutonomousAction::Fail(AutonomousError::NoFinalManifest)
                    } else {
                        settle(context, run)
                    }
                },
                _ => AutonomousAction::Wait,
            },
            _ => AutonomousAction::Wait,
        },
    }
}

/// A run is reported as finished only when every group has trained the last window,
/// every shard has reached it, and the last checkpoint is committed.
pub proof fn law_no_report_without_last_checkpoint(
    c: ContextView,
    run: AutonomousRunView,
    node: NodeId,
    event: AutonomousEventView,
)
    requires
        autonomous_step(c, run, node, event).action == AutonomousActionView::Finish,
    ensures
        ({
            let o = autonomous_step(c, run, node, event);
            &&& o.run.completed.len() >= o.context.start.groups.len()
            &&& all_shards_final(o.context)
            &&& o.context.final_checkpoint_committed
        }),
{
    match (run.stage, event) {
        (AutonomousStage::Restoring { peer }, AutonomousEventView::Reached { .. }) => {
            lemma_replacing_finish(
                ContextView { failed: c.failed.insert(peer), ..c },
                AutonomousRunView { groups: c.start.groups.filter(led_by(peer)), at: 0, ..run },
                peer,
                0,
            );
        },
        (
            AutonomousStage::Replacing { peer, member },
            AutonomousEventView::Reached { connected, reconnected },
        ) => {
            if 0 <= run.at < run.groups.len() && member < run.groups[run.at].members.len() {
                let found = run.groups[run.at].members[member as int];
                lemma_replacing_finish(
                    ContextView {
                        failed: if peer_restored(c, found, connected, reconnected) {
                            c.failed.remove(found)
                        } else {
                            c.failed
                        },
                        ..c
                    },
                    run,
                    peer,
                    member + 1,
                );
            } else {
                lemma_replacing_finish(c, run, peer, 0);
            }
        },
        (AutonomousStage::Replaced { peer }, AutonomousEventView::Done) => {
            lemma_replacing_finish(c, run, peer, 0);
        },
        _ => {},
    }
}

proof fn lemma_replacing_finish(c: ContextView, run: AutonomousRunView, peer: NodeId, member: int)
    ensures
        replacing(c, run, peer, member).action == AutonomousActionView::Finish ==> ({
            let o = replacing(c, run, peer, member);
            &&& o.run.completed.len() >= o.context.start.groups.len()
            &&& all_shards_final(o.context)
            &&& o.context.final_checkpoint_committed
        }),
    decreases run.groups.len() - run.at,
{
    if 0 <= run.at < run.groups.len() {
        let group = run.groups[run.at];
        match replacement(c, group) {
            Some(retry) => {
                lemma_replacing_finish(
                    with_installed(c, retry),
                    AutonomousRunView { at: run.at + 1, ..run },
                    peer,
                    0,
                );
            },
            None => {},
        }
    }
}

/// The checkpoints at the end of a run are bounded: a further one is committed only
/// while the last generation of checkpoints is not reached.
pub proof fn law_last_commits_are_bounded(
    c: ContextView,
    run: AutonomousRunView,
    node: NodeId,
    event: AutonomousEventView,
)
    requires
        run.stage == AutonomousStage::Finishing,
    ensures
        ({
            let o = autonomous_step(c, run, node, event);
            &&& o.context == c
            &&& o.action is Checkpoint ==> event == AutonomousEventView::Done
                && c.checkpoint_generation < final_generation(c.start)
        }),
{
}

/// A coordinator steps down only for a state of a later term that names another
/// one.
pub proof fn law_only_a_later_term_unseats(
    c: ContextView,
    run: AutonomousRunView,
    node: NodeId,
    event: AutonomousEventView,
)
    requires
        autonomous_step(c, run, node, event).action is StepDown,
    ensures
        event is State,
        event->State_state.term > c.term,
        event->State_state.coordinator != c.coordinator,
        event->State_peer == event->State_state.coordinator,
{
    match (run.stage, event) {
        (AutonomousStage::Restoring { peer }, AutonomousEventView::Reached { .. }) => {
            lemma_replacing_keeps_office(
                ContextView { failed: c.failed.insert(peer), ..c },
                AutonomousRunView { groups: c.start.groups.filter(led_by(peer)), at: 0, ..run },
                peer,
                0,
            );
        },
        (
            AutonomousStage::Replacing { peer, member },
            AutonomousEventView::Reached { connected, reconnected },
        ) => {
            if 0 <= run.at < run.groups.len() && member < run.groups[run.at].members.len() {
                let found = run.groups[run.at].members[member as int];
                lemma_replacing_keeps_office(
                    ContextView {
                        failed: if peer_restored(c, found, connected, reconnected) {
                            c.failed.remove(found)
                        } else {
                            c.failed
                        },
                        ..c
                    },
                    run,
                    peer,
                    member + 1,
                );
            } else {
                lemma_replacing_keeps_office(c, run, peer, 0);
            }
        },
        (AutonomousStage::Replaced { peer }, AutonomousEventView::Done) => {
            lemma_replacing_keeps_office(c, run, peer, 0);
        },
        _ => {},
    }
}

proof fn lemma_replacing_keeps_office(
    c: ContextView,
    run: AutonomousRunView,
    peer: NodeId,
    member: int,
)
    ensures
        !(replacing(c, run, peer, member).action is StepDown),
    decreases run.groups.len() - run.at,
{
    if 0 <= run.at < run.groups.len() {
        match replacement(c, run.groups[run.at]) {
            Some(retry) => {
                lemma_replacing_keeps_office(
                    with_installed(c, retry),
                    AutonomousRunView { at: run.at + 1, ..run },
                    peer,
                    0,
                );
            },
            None => {},
        }
    }
}

/// Groups advance on their own: whether the aggregate of a group is taken in does
/// not depend on how far any other group is.
pub proof fn law_groups_advance_independently(
    a: ContextView,
    b: ContextView,
    group: TrainingGroupView,
    peer: NodeId,
    aggregate: TrainingAggregateView,
)
    requires
        a.start == b.start,
        a.term == b.term,
        a.branch == b.branch,
        a.shard_summaries.contains_key(group.shard_id) == b.shard_summaries.contains_key(
            group.shard_id,
        ),
        a.shard_summaries[group.shard_id] == b.shard_summaries[group.shard_id],
    ensures
        aggregate_rejected(a, group, peer, aggregate) == aggregate_rejected(
            b,
            group,
            peer,
            aggregate,
        ),
        next_window(a, group) == next_window(b, group),
{
}

/// The numbers of the groups, in order.
pub open spec fn group_ids(groups: Seq<TrainingGroupView>) -> Seq<u16> {
    groups.map_values(|g: TrainingGroupView| g.group_id)
}

/// Each number stands once, and is that of a group of the job.
pub open spec fn distinct_groups(completed: Seq<u16>, c: ContextView) -> bool {
    &&& completed.no_duplicates()
    &&& forall|k: int|
        0 <= k < completed.len() ==> group_ids(c.start.groups).contains(#[trigger] completed[k])
}

/// What holds of a run: the groups that are done are distinct groups of the job, and
/// the aggregate that is being published or saved is one of such a group.
pub open spec fn autonomous_inv(c: ContextView, run: AutonomousRunView) -> bool {
    &&& distinct_groups(run.completed, c)
    &&& match run.stage {
        AutonomousStage::Publishing { group_id, .. } => group_ids(c.start.groups).contains(
            group_id,
        ),
        AutonomousStage::Checkpointing { group_id, .. } => group_ids(c.start.groups).contains(
            group_id,
        ),
        _ => true,
    }
}

proof fn lemma_with_group_distinct(completed: Seq<u16>, c: ContextView, id: u16)
    requires
        distinct_groups(completed, c),
        group_ids(c.start.groups).contains(id),
    ensures
        distinct_groups(with_group(completed, id), c),
{
    let out = with_group(completed, id);
    if !completed.contains(id) {
        assert forall|i: int, j: int| 0 <= i < out.len() && 0 <= j < out.len() && i
            != j implies out[i] != out[j] by {
            if i < completed.len() {
                assert(completed.contains(completed[i]));
            }
            if j < completed.len() {
                assert(completed.contains(completed[j]));
            }
        }
        assert forall|k: int| 0 <= k < out.len() implies group_ids(c.start.groups).contains(
            #[trigger] out[k],
        ) by {
            if k < completed.len() {
                assert(out[k] == completed[k]);
            }
        }
    }
}

proof fn lemma_finished_distinct(c: ContextView, n: int)
    requires
        n <= c.start.groups.len(),
    ensures
        distinct_groups(finished_groups(c, n), c),
    decreases n,
{
    if n > 0 {
        lemma_finished_distinct(c, n - 1);
        let id = c.start.groups[n - 1].group_id;
        assert(group_ids(c.start.groups)[n - 1] == id);
        lemma_with_group_distinct(finished_groups(c, n - 1), c, id);
    }
}

proof fn lemma_installed_ids(c: ContextView, group: TrainingGroupView)
    ensures
        group_ids(with_installed(c, group).start.groups) == group_ids(c.start.groups),
{
    lemma_group_at(c.start.groups, group.group_id);
    assert(group_ids(with_installed(c, group).start.groups) =~= group_ids(c.start.groups));
}

/// A run that only settles keeps what holds of it.
proof fn lemma_settled_inv(c: ContextView, run: AutonomousRunView)
    requires
        distinct_groups(run.completed, c),
    ensures
        autonomous_inv(settled(c, run).context, settled(c, run).run),
        settled(c, run).context == c,
        settled(c, run).run.completed == run.completed,
{
}

proof fn lemma_replacing_inv(c: ContextView, run: AutonomousRunView, peer: NodeId, member: int)
    requires
        distinct_groups(run.completed, c),
    ensures
        autonomous_inv(
            replacing(c, run, peer, member).context,
            replacing(c, run, peer, member).run,
        ),
    decreases run.groups.len() - run.at,
{
    if run.at < 0 || run.at >= run.groups.len() {
        lemma_settled_inv(c, run);
    } else {
        let group = run.groups[run.at];
        match replacement(c, group) {
            Some(retry) => {
                lemma_installed_ids(c, retry);
                lemma_replacing_inv(
                    with_installed(c, retry),
                    AutonomousRunView { at: run.at + 1, ..run },
                    peer,
                    0,
                );
            },
            None => {},
        }
    }
}

proof fn lemma_dispatching_inv(c: ContextView, run: AutonomousRunView, opening: bool)
    requires
        distinct_groups(run.completed, c),
    ensures
        autonomous_inv(
            dispatching(c, run, opening).context,
            dispatching(c, run, opening).run,
        ),
{
    lemma_finished_distinct(c, c.start.groups.len() as int);
}

proof fn lemma_every_group_completed(c: ContextView, completed: Seq<u16>, i: int)
    requires
        distinct_groups(completed, c),
        completed.len() >= c.start.groups.len(),
        0 <= i < c.start.groups.len(),
    ensures
        completed.contains(c.start.groups[i].group_id),
{
    let ids = group_ids(c.start.groups);
    let done = completed.to_set();
    assert(done.subset_of(ids.to_set())) by {
        assert forall|id: u16| done.contains(id) implies ids.to_set().contains(id) by {
            let k = completed.index_of(id);
            assert(completed[k] == id);
        }
    }
    completed.unique_seq_to_set();
    ids.lemma_cardinality_of_set();
    vstd::seq_lib::seq_to_set_is_finite(ids);
    vstd::set_lib::lemma_len_subset(done, ids.to_set());
    vstd::set_lib::lemma_subset_equality(done, ids.to_set());
    assert(ids[i] == c.start.groups[i].group_id);
    assert(ids.to_set().contains(ids[i]));
}

/// A run is reported as finished only when each of its groups has trained the last
/// window: the groups that are done are distinct groups of the job over the whole run,
/// so that as many as there are groups are all of them.
pub proof fn law_every_group_is_done_at_the_end(
    c: ContextView,
    run: AutonomousRunView,
    node: NodeId,
    event: AutonomousEventView,
)
    requires
        autonomous_inv(c, run),
    ensures
        autonomous_inv(
            c,
            AutonomousRunView {
                completed: Seq::empty(),
                stage: AutonomousStage::Opening,
                groups: c.start.groups,
                at: 0,
            },
        ),
        ({
            let o = autonomous_step(c, run, node, event);
            &&& autonomous_inv(o.context, o.run)
            &&& o.action == AutonomousActionView::Finish ==> forall|i: int|
                0 <= i < o.context.start.groups.len() ==> o.run.completed.contains(
                    (#[trigger] o.context.start.groups[i]).group_id,
                )
        }),
{
    match (run.stage, event) {
        (AutonomousStage::Waiting, AutonomousEventView::Aggregate { peer, aggregate }) => {
            let p = of_group(aggregate.group_id);
            crate::base::search::lemma_find_sound(c.start.groups, p);
            if let Some(group) = find(c.start.groups, p) {
                let k = c.start.groups.index_of(group);
                assert(group_ids(c.start.groups)[k] == aggregate.group_id);
            }
        },
        (
            AutonomousStage::Restoring { peer },
            AutonomousEventView::Reached { connected, reconnected },
        ) => {
            let next = AutonomousRunView {
                groups: c.start.groups.filter(led_by(peer)),
                at: 0,
                ..run
            };
            let back = peer_restored(c, peer, connected, reconnected);
            let after = ContextView {
                failed: if back {
                    c.failed.remove(peer)
                } else {
                    c.failed.insert(peer)
                },
                ..c
            };
            lemma_dispatching_inv(after, next, false);
            lemma_replacing_inv(after, next, peer, 0);
        },
        (
            AutonomousStage::Replacing { peer, member },
            AutonomousEventView::Reached { connected, reconnected },
        ) => {
            if 0 <= run.at < run.groups.len() && member < run.groups[run.at].members.len() {
                let found = run.groups[run.at].members[member as int];
                let after = ContextView {
                    failed: if peer_restored(c, found, connected, reconnected) {
                        c.failed.remove(found)
                    } else {
                        c.failed
                    },
                    ..c
                };
                lemma_replacing_inv(after, run, peer, member + 1);
            } else {
                lemma_replacing_inv(c, run, peer, 0);
            }
        },
        (AutonomousStage::Opening, AutonomousEventView::Done) => {
            lemma_dispatching_inv(c, run, true);
        },
        (AutonomousStage::Dispatching { opening }, AutonomousEventView::Done) => {
            lemma_dispatching_inv(c, run, opening);
        },
        (AutonomousStage::Publishing { group_id, .. }, AutonomousEventView::Done) => {
            lemma_with_group_distinct(run.completed, c, group_id);
        },
        (AutonomousStage::Checkpointing { group_id, .. }, AutonomousEventView::Done) => {
            lemma_with_group_distinct(run.completed, c, group_id);
        },
        (AutonomousStage::Replaced { peer }, AutonomousEventView::Done) => {
            lemma_replacing_inv(c, run, peer, 0);
        },
        _ => {},
    }
    let o = autonomous_step(c, run, node, event);
    if o.action == AutonomousActionView::Finish {
        law_no_report_without_last_checkpoint(c, run, node, event);
        assert forall|i: int| 0 <= i < o.context.start.groups.len() implies o.run.completed.contains(
            (#[trigger] o.context.start.groups[i]).group_id,
        ) by {
            lemma_every_group_completed(o.context, o.run.completed, i);
        }
    }
}

/// A report of a group is taken in and published; one that is refused is counted and
/// changes nothing else.
pub proof fn law_reports_are_published(
    c: ContextView,
    run: AutonomousRunView,
    node: NodeId,
    peer: NodeId,
    a: TrainingAggregateView,
    group: TrainingGroupView,
)
    requires
        run.stage is Waiting,
        find(c.start.groups, of_group(a.group_id)) == Some(group),
        c.start.checkpoint_every > 0,
        c.rejected_updates < u64::MAX,
    ensures
        ({
            let o = autonomous_step(
                c,
                run,
                node,
                AutonomousEventView::Aggregate { peer, aggregate: a },
            );
            let refused = aggregate_rejected(c, group, peer, a);
            &&& refused ==> o.action is Wait && o.context.rejected_updates == c.rejected_updates + 1
                && o.context.shard_values == c.shard_values && o.context.shard_summaries
                == c.shard_summaries && o.context.accepted_updates == c.accepted_updates
            &&& !refused ==> o.action is Publish && o.context.shard_values.contains_key(a.shard_id)
                && o.context.shard_values[a.shard_id] == (a.value, a.optimizer)
                && o.context.shard_summaries[a.shard_id].generation == a.generation
                && o.context.rejected_updates == c.rejected_updates
                && o.action->Publish_0.window == o.context.window
                && o.run.stage->Publishing_group_id == a.group_id
                && o.run.stage->Publishing_window == a.window
                && (o.run.stage->checkpoint_due ==> a.window % c.start.checkpoint_every == 0)
        }),
{
}

/// A run ends in success only with every group done and the last checkpoint committed; a
/// lost peer is looked for first; time running out and a closed channel are failures.
pub proof fn law_how_a_run_goes_on(
    c: ContextView,
    run: AutonomousRunView,
    node: NodeId,
    peer: NodeId,
    connected: bool,
    reconnected: bool,
)
    ensures
        settled(c, run).action is Finish ==> run.completed.len() >= c.start.groups.len()
            && c.final_checkpoint_committed,
        run.completed.len() < c.start.groups.len() ==> settled(c, run).action is Wait,
        run.stage is Waiting ==> {
            &&& autonomous_step(c, run, node, AutonomousEventView::Disconnected(peer)).action
                == AutonomousActionView::Restore(peer)
            &&& autonomous_step(c, run, node, AutonomousEventView::TimedOut).action
                == AutonomousActionView::Fail(AutonomousError::TimedOut)
            &&& autonomous_step(c, run, node, AutonomousEventView::Closed).action
                == AutonomousActionView::Fail(AutonomousError::Closed)
        },
{
}

/// A group that trained its last window is done, once, in the order in which the groups
/// finish; another group that is still behind shows that groups do not wait for each
/// other.
pub proof fn law_finished_group_is_noted(
    c: ContextView,
    run: AutonomousRunView,
    group_id: u16,
    window: u64,
)
    ensures
        ({
            let o = completing(c, run, group_id, window);
            &&& window < c.start.max_windows ==> o.run.completed == run.completed && o.context
                == c
            &&& window >= c.start.max_windows ==> o.run.completed.contains(group_id)
            &&& window >= c.start.max_windows && !run.completed.contains(group_id)
                ==> o.context.group_completion_order == c.group_completion_order.push(group_id)
                && o.run.completed == run.completed.push(group_id)
            &&& run.completed.contains(group_id) ==> o.context.group_completion_order
                == c.group_completion_order && o.run.completed == run.completed
            &&& window >= c.start.max_windows && other_group_behind(c, group_id)
                ==> o.context.non_barrier_progress_observed
            &&& c.non_barrier_progress_observed ==> o.context.non_barrier_progress_observed
        }),
{
    if !run.completed.contains(group_id) {
        assert(run.completed.push(group_id)[run.completed.len() as int] == group_id);
    }
}

/// A coordinator answers a request for a later term with its vote; it follows a state of
/// a later term, steps down to a worker where that names another coordinator, and
/// acknowledges the state that it then has.
pub proof fn law_coordinator_yields(
    c: ContextView,
    run: AutonomousRunView,
    node: NodeId,
    peer: NodeId,
    s: TrainingStateView,
    e: TrainingElection,
)
    ensures
        ({
            let o = on_state(c, run, node, peer, s);
            &&& s.term <= c.term ==> o.context == c && o.action is Wait
            &&& s.term > c.term && peer == s.coordinator && s.job_id == c.start.job_id && s.branch
                == c.branch ==> {
                &&& o.context.term == s.term && o.context.coordinator == s.coordinator
                &&& s.coordinator != c.coordinator ==> o.action is StepDown && o.context.role
                    is Worker && o.action->StepDown_ack.peer == node
                    && o.action->StepDown_ack.term == s.term
                &&& s.coordinator == c.coordinator ==> o.action is Follow && o.context.role
                    == c.role
            }
        }),
        e.term <= c.term ==> on_election(c, run, node, peer, e).action is Wait,
        on_election(c, run, node, peer, e).context.term == c.term,
        e.term > c.term && vote_reply(c, node, peer, e) is Some ==> on_election(
            c,
            run,
            node,
            peer,
            e,
        ).action == AutonomousActionView::Vote(vote_reply(c, node, peer, e)->0),
{
}

/// What is dispatched is a group of the run with the next window of its shard, the first
/// such group from the one at hand on.
pub proof fn law_due_groups_are_dispatched(c: ContextView, run: AutonomousRunView, opening: bool, k: int)
    requires
        0 <= run.at <= k < run.groups.len(),
        next_window(c, run.groups[k]) is Some,
        forall|j: int| run.at <= j < k ==> next_window(c, #[trigger] run.groups[j]) is None,
    ensures
        ({
            let o = dispatching(c, run, opening);
            &&& o.action == (AutonomousActionView::Dispatch {
                group: run.groups[k],
                window: next_window(c, run.groups[k])->0,
            })
            &&& o.context == c
            &&& o.run.at == k + 1
        }),
    decreases k - run.at,
{
    lemma_due_at(c, run.groups, run.at, k);
}

proof fn lemma_due_at(c: ContextView, groups: Seq<TrainingGroupView>, at: int, k: int)
    requires
        0 <= at <= k < groups.len(),
        next_window(c, groups[k]) is Some,
        forall|j: int| at <= j < k ==> next_window(c, #[trigger] groups[j]) is None,
    ensures
        due_from(c, groups, at) == k,
    decreases k - at,
{
    if at < k {
        lemma_due_at(c, groups, at + 1, k);
    }
}

/// A lost peer that came back no longer counts as failed; one that did not does, and the
/// groups that it led are replaced.
pub proof fn law_lost_peers_are_replaced(
    c: ContextView,
    run: AutonomousRunView,
    node: NodeId,
    peer: NodeId,
    connected: bool,
    reconnected: bool,
    group: TrainingGroupView,
)
    requires
        run.stage == (AutonomousStage::Restoring { peer }),
        c.start.groups.filter(led_by(peer)).len() == 0,
        run.completed.len() < c.start.groups.len(),
    ensures
        ({
            let o = autonomous_step(
                c,
                run,
                node,
                AutonomousEventView::Reached { connected, reconnected },
            );
            let back = peer_restored(c, peer, connected, reconnected);
            &&& back ==> o.context.failed == c.failed.remove(peer)
            &&& !back ==> o.context.failed == c.failed.insert(peer)
            &&& o.context.shard_values == c.shard_values
            &&& o.action is Wait
        }),
        c.start.groups.filter(led_by(peer)).contains(group) <==> c.start.groups.contains(group)
            && group.aggregator == peer,
{
    crate::base::search::lemma_filter_contains(c.start.groups, led_by(peer));
}

/// Where no other member of a lost peer's group counts as failed, the live members take the
/// group over at once, led by the first of them, with the next window of its shard.
pub proof fn law_live_members_take_over(
    c: ContextView,
    run: AutonomousRunView,
    peer: NodeId,
    retry: TrainingGroupView,
    window: u64,
)
    requires
        0 <= run.at < run.groups.len(),
        forall|k: int|
            0 <= k < run.groups[run.at].members.len() ==> (#[trigger] run.groups[run.at].members[k])
                == peer || !c.failed.contains(run.groups[run.at].members[k]),
        replacement(c, run.groups[run.at]) == Some(retry),
        next_window(c, run.groups[run.at]) == Some(window),
    ensures
        ({
            let o = replacing(c, run, peer, 0);
            &&& o.action == (AutonomousActionView::Dispatch { group: retry, window })
            &&& o.context.start.groups == with_replaced(c.start.groups, retry)
            &&& o.context.failed == c.failed
            &&& o.run.at == run.at + 1
        }),
{
    lemma_nobody_failed(c, run.groups[run.at].members, peer, 0);
    assert(next_window(with_installed(c, retry), run.groups[run.at]) == next_window(
        c,
        run.groups[run.at],
    ));
}

proof fn lemma_nobody_failed(c: ContextView, members: Seq<NodeId>, peer: NodeId, at: int)
    requires
        0 <= at <= members.len(),
        forall|k: int|
            0 <= k < members.len() ==> (#[trigger] members[k]) == peer || !c.failed.contains(
                members[k],
            ),
    ensures
        failed_from(c, members, peer, at) == members.len(),
    decreases members.len() - at,
{
    if at < members.len() {
        lemma_nobody_failed(c, members, peer, at + 1);
    }
}

} // verus!
