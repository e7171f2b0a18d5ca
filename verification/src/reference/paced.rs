//! The coordinator that paces the groups: window after window, it gathers one
//! aggregate from every group, commits the window and stores checkpoints.

use crate::base::arith::sat_u64;
use crate::base::record::{duplicate_all, duplicate_opt, Duplicate};
use crate::base::search::{opt_view, views};
use crate::reference::autonomous::with_installed;
use crate::reference::checkpoint::{
    aggregate_progress, aggregate_shards, make_checkpoint, manifest_of,
};
use crate::reference::context::{state_of, Context, ContextView};
use crate::reference::coordinator::{
    commit_window, committed_window, contribution_count, install_group, miss_window,
    paced_checkpoint_due, replacement, replacement_group,
};
use crate::reference::types::{
    TrainingAggregate, TrainingAggregateView, TrainingCheckpointManifest,
    TrainingCheckpointManifestView, TrainingGroup, TrainingGroupView, TrainingState,
    TrainingStateView,
};
use vstd::prelude::*;

verus! {

/// Where the coordinator stands.
#[derive(Clone, Copy, Debug, PartialEq, Eq, Structural)]
pub enum PacedStage {
    /// The first state is being published.
    Opening,
    /// A group is at work.
    Collecting,
    /// A group whose aggregator was replaced is at work.
    Retrying,
    /// The state of the window is to reach a quorum.
    Committing,
    /// The checkpoint of the window is to reach a quorum.
    Checkpointing,
    /// There is nothing left to do.
    Over,
}

/// The run of a coordinator.
#[derive(Debug)]
pub struct PacedRun {
    pub stage: PacedStage,
    pub window: u64,
    /// The groups of the window, as they were when it began.
    pub groups: Vec<TrainingGroup>,
    /// How many of them are done.
    pub at: usize,
    /// The form in which the current group tries again.
    pub retry: Option<TrainingGroup>,
    /// The aggregates of the groups that are done.
    pub aggregates: Vec<TrainingAggregate>,
}

/// The contents of a [`PacedRun`].
#[verifier::ext_equal]
pub struct PacedRunView {
    pub stage: PacedStage,
    pub window: u64,
    pub groups: Seq<TrainingGroupView>,
    pub at: int,
    pub retry: Option<TrainingGroupView>,
    pub aggregates: Seq<TrainingAggregateView>,
}

impl View for PacedRun {
    type V = PacedRunView;

    open spec fn view(&self) -> PacedRunView {
        PacedRunView {
            stage: self.stage,
            window: self.window,
            groups: views(self.groups@),
            at: self.at as int,
            retry: opt_view(self.retry),
            aggregates: views(self.aggregates@),
        }
    }
}

/// Why a coordinator gives up.
#[derive(Clone, Copy, Debug, PartialEq, Eq, Structural)]
pub enum PacedError {
    /// What was to be done could not be done.
    ActionFailed,
    /// A group has no live member left.
    NoAggregator(u16),
    /// A group brought no aggregate, even with another aggregator.
    NoAggregate(u16),
    /// The state of the window did not reach a quorum.
    NoQuorum,
    /// The checkpoint of the window did not reach a quorum.
    NoCheckpointQuorum,
}

/// What happened.
#[derive(Debug)]
pub enum PacedEvent {
    /// What was to be done is done.
    Done,
    /// It could not be done.
    Failed,
    /// The group brought its aggregate.
    Collected(TrainingAggregate),
    /// The group brought none.
    Missed,
}

/// The contents of a [`PacedEvent`].
#[verifier::ext_equal]
pub enum PacedEventView {
    Done,
    Failed,
    Collected(TrainingAggregateView),
    Missed,
}

impl View for PacedEvent {
    type V = PacedEventView;

    open spec fn view(&self) -> PacedEventView {
        match self {
            PacedEvent::Done => PacedEventView::Done,
            PacedEvent::Failed => PacedEventView::Failed,
            PacedEvent::Collected(aggregate) => PacedEventView::Collected(aggregate@),
            PacedEvent::Missed => PacedEventView::Missed,
        }
    }
}

/// What the coordinator does next.
#[derive(Debug)]
pub enum PacedAction {
    /// Nothing.
    Idle,
    /// Store the state and send it to everyone.
    Publish(TrainingState),
    /// Have a group train a window.
    RunGroup { group: TrainingGroup, window: u64 },
    /// Store the state of the window and bring it to a quorum.
    Commit(TrainingState),
    /// Store the checkpoint, which has its hash set first, and bring it to a
    /// quorum; then store the state.
    Checkpoint(TrainingCheckpointManifest),
    /// Report the finished run.
    Finish,
    /// Give up.
    Fail(PacedError),
}

/// The contents of a [`PacedAction`].
#[verifier::ext_equal]
pub enum PacedActionView {
    Idle,
    Publish(TrainingStateView),
    RunGroup { group: TrainingGroupView, window: u64 },
    Commit(TrainingStateView),
    Checkpoint(TrainingCheckpointManifestView),
    Finish,
    Fail(PacedError),
}

impl View for PacedAction {
    type V = PacedActionView;

    open spec fn view(&self) -> PacedActionView {
        match self {
            PacedAction::Idle => PacedActionView::Idle,
            PacedAction::Publish(state) => PacedActionView::Publish(state@),
            PacedAction::RunGroup { group, window } => PacedActionView::RunGroup {
                group: group@,
                window: *window,
            },
            PacedAction::Commit(state) => PacedActionView::Commit(state@),
            PacedAction::Checkpoint(manifest) => PacedActionView::Checkpoint(manifest@),
            PacedAction::Finish => PacedActionView::Finish,
            PacedAction::Fail(error) => PacedActionView::Fail(*error),
        }
    }
}

/// The context, the run and the action after an event.
#[verifier::ext_equal]
pub struct PacedOutcome {
    pub context: ContextView,
    pub run: PacedRunView,
    pub action: PacedActionView,
}

/// The run goes on to `stage` with `action`.
pub open spec fn paced_on_to(
    c: ContextView,
    run: PacedRunView,
    stage: PacedStage,
    action: PacedActionView,
) -> PacedOutcome {
    PacedOutcome { context: c, run: PacedRunView { stage, ..run }, action }
}

/// The next group trains, or the window of all groups is committed.
pub open spec fn collecting(c: ContextView, run: PacedRunView) -> PacedOutcome {
    if 0 <= run.at < run.groups.len() {
        paced_on_to(
            c,
            run,
            PacedStage::Collecting,
            PacedActionView::RunGroup { group: run.groups[run.at], window: run.window },
        )
    } else {
        let after = committed_window(c, run.window, run.aggregates);
        paced_on_to(
            after,
            run,
            PacedStage::Committing,
            PacedActionView::Commit(state_of(after)),
        )
    }
}

/// The window after `window` begins, or the run is over.
pub open spec fn after_window(c: ContextView, run: PacedRunView, window: u64) -> PacedOutcome {
    if window >= c.start.max_windows {
        paced_on_to(c, run, PacedStage::Over, PacedActionView::Finish)
    } else {
        collecting(
            c,
            PacedRunView {
                window: (window + 1) as u64,
                groups: c.start.groups,
                at: 0,
                retry: None,
                aggregates: Seq::empty(),
                ..run
            },
        )
    }
}

/// The current group is done.
pub open spec fn collected(
    c: ContextView,
    run: PacedRunView,
    aggregate: TrainingAggregateView,
) -> PacedOutcome {
    collecting(
        c,
        PacedRunView {
            at: run.at + 1,
            retry: None,
            aggregates: run.aggregates.push(aggregate),
            ..run
        },
    )
}

/// The current group brought nothing: its aggregator counts as failed, and the
/// first live member takes its place.
pub open spec fn missed(c: ContextView, run: PacedRunView) -> PacedOutcome {
    let group = run.groups[run.at];
    let after = ContextView {
        stragglers: sat_u64(c.stragglers + 1) as u64,
        failed: c.failed.insert(group.aggregator),
        ..c
    };
    match replacement(after, group) {
        None => paced_on_to(
            after,
            run,
            PacedStage::Over,
            PacedActionView::Fail(PacedError::NoAggregator(group.group_id)),
        ),
        Some(retry) => paced_on_to(
            after,
            PacedRunView { retry: Some(retry), ..run },
            PacedStage::Retrying,
            PacedActionView::RunGroup { group: retry, window: run.window },
        ),
    }
}

/// The checkpoint of a window, before its hash is set.
pub open spec fn window_checkpoint(c: ContextView, aggregates: Seq<TrainingAggregateView>) ->
    TrainingCheckpointManifestView {
    manifest_of(c, aggregate_shards(aggregates), aggregate_progress(aggregates))
}

/// What the coordinator does about an event.
pub open spec fn paced_step(c: ContextView, run: PacedRunView, event: PacedEventView) ->
    PacedOutcome {
    let idle = paced_on_to(c, run, run.stage, PacedActionView::Idle);
    let failed = |error: PacedError|
        paced_on_to(c, run, PacedStage::Over, PacedActionView::Fail(error));
    match (run.stage, event) {
        (PacedStage::Opening, PacedEventView::Done) => after_window(c, run, c.window),
        (PacedStage::Opening, PacedEventView::Failed) => failed(PacedError::ActionFailed),
        (PacedStage::Collecting, PacedEventView::Collected(a)) => if 0 <= run.at
            < run.groups.len() {
            collected(c, run, a)
        } else {
            idle
        },
        (PacedStage::Collecting, PacedEventView::Missed) => if 0 <= run.at < run.groups.len() {
            missed(c, run)
        } else {
            idle
        },
        (PacedStage::Collecting, PacedEventView::Failed) => failed(PacedError::ActionFailed),
        (PacedStage::Retrying, PacedEventView::Collected(a)) => match run.retry {
            Some(retry) if 0 <= run.at < run.groups.len() => collected(
                with_installed(c, retry),
                run,
                a,
            ),
            _ => idle,
        },
        (PacedStage::Retrying, PacedEventView::Missed) => match run.retry {
            Some(retry) => failed(PacedError::NoAggregate(retry.group_id)),
            None => idle,
        },
        (PacedStage::Retrying, PacedEventView::Failed) => failed(PacedError::ActionFailed),
        (PacedStage::Committing, PacedEventView::Done) => if run.window % c.start.checkpoint_every
            == 0 || run.window == c.start.max_windows {
            paced_on_to(
                c,
                run,
                PacedStage::Checkpointing,
                PacedActionView::Checkpoint(window_checkpoint(c, run.aggregates)),
            )
        } else {
            after_window(c, run, run.window)
        },
        (PacedStage::Committing, PacedEventView::Failed) => failed(PacedError::NoQuorum),
        (PacedStage::Checkpointing, PacedEventView::Done) => after_window(c, run, run.window),
        (PacedStage::Checkpointing, PacedEventView::Failed) => failed(
            PacedError::NoCheckpointQuorum,
        ),
        _ => idle,
    }
}

/// Begin a run: the state of the context is published first.
pub fn begin_paced(context: &Context) -> (r: (PacedRun, PacedAction))
    ensures
        r.0@ == (PacedRunView {
            stage: PacedStage::Opening,
            window: context@.window,
            groups: Seq::empty(),
            at: 0,
            retry: None,
            aggregates: Seq::empty(),
        }),
        r.1@ == PacedActionView::Publish(state_of(context@)),
{
    let run = PacedRun {
        stage: PacedStage::Opening,
        window: context.window,
        groups: Vec::new(),
        at: 0,
        retry: None,
        aggregates: Vec::new(),
    };
    assert(run@.groups =~= Seq::empty());
    assert(run@.aggregates =~= Seq::empty());
    (run, PacedAction::Publish(context.state()))
}

fn collect_next(context: &mut Context, run: &mut PacedRun) -> (r: PacedAction)
    requires
        contribution_count(old(run)@.aggregates) <= u64::MAX,
    ensures
        (PacedOutcome { context: final(context)@, run: final(run)@, action: r@ }) == collecting(
            old(context)@,
            old(run)@,
        ),
{
    if run.at < run.groups.len() {
        assert(run@.groups[run.at as int] == run.groups@[run.at as int]@);
        run.stage = PacedStage::Collecting;
        PacedAction::RunGroup { group: run.groups[run.at].duplicate(), window: run.window }
    } else {
        let state = commit_window(context, run.window, &run.aggregates);
        run.stage = PacedStage::Committing;
        PacedAction::Commit(state)
    }
}

fn leave_window(context: &mut Context, run: &mut PacedRun, window: u64) -> (r: PacedAction)
    ensures
        (PacedOutcome { context: final(context)@, run: final(run)@, action: r@ }) == after_window(
            old(context)@,
            old(run)@,
            window,
        ),
{
    if window >= context.start.max_windows {
        run.stage = PacedStage::Over;
        return PacedAction::Finish;
    }
    run.window = window + 1;
    run.groups = duplicate_all(&context.start.groups);
    run.at = 0;
    run.retry = None;
    run.aggregates = Vec::new();
    assert(run@.aggregates =~= Seq::empty());
    collect_next(context, run)
}

fn take_aggregate(context: &mut Context, run: &mut PacedRun, aggregate: TrainingAggregate) -> (r:
    PacedAction)
    requires
        contribution_count(old(run)@.aggregates.push(aggregate@)) <= u64::MAX,
        old(run).at < usize::MAX,
    ensures
        (PacedOutcome { context: final(context)@, run: final(run)@, action: r@ }) == collected(
            old(context)@,
            old(run)@,
            aggregate@,
        ),
{
    proof {
        crate::base::search::lemma_views_push(run.aggregates@, aggregate);
    }
    run.aggregates.push(aggregate);
    run.at += 1;
    run.retry = None;
    collect_next(context, run)
}

/// Take in an event. The result is what is to be done next.
pub fn drive_coordinator(context: &mut Context, run: &mut PacedRun, event: PacedEvent) -> (r:
    PacedAction)
    requires
        old(context).start.checkpoint_every > 0,
        event@ matches PacedEventView::Collected(a) ==> contribution_count(
            old(run)@.aggregates.push(a),
        ) <= u64::MAX,
    ensures
        (PacedOutcome { context: final(context)@, run: final(run)@, action: r@ }) == paced_step(
            old(context)@,
            old(run)@,
            event@,
        ),
{
    match (run.stage, event) {
        (PacedStage::Opening, PacedEvent::Done) => {
            let window: u64 = context.window;
            leave_window(context, run, window)
        },
        (PacedStage::Opening, PacedEvent::Failed)
        | (PacedStage::Collecting, PacedEvent::Failed)
        | (PacedStage::Retrying, PacedEvent::Failed) => {
            run.stage = PacedStage::Over;
            PacedAction::Fail(PacedError::ActionFailed)
        },
        (PacedStage::Collecting, PacedEvent::Collected(aggregate)) => {
            if run.at >= run.groups.len() {
                return PacedAction::Idle;
            }
            take_aggregate(context, run, aggregate)
        },
        (PacedStage::Collecting, PacedEvent::Missed) => {
            if run.at >= run.groups.len() {
                return PacedAction::Idle;
            }
            assert(run@.groups[run.at as int] == run.groups@[run.at as int]@);
            miss_window(context, &run.groups[run.at]);
            match replacement_group(context, &run.groups[run.at]) {
                None => {
                    run.stage = PacedStage::Over;
                    PacedAction::Fail(PacedError::NoAggregator(run.groups[run.at].group_id))
                },
                Some(retry) => {
                    run.retry = Some(retry.duplicate());
                    run.stage = PacedStage::Retrying;
                    PacedAction::RunGroup { group: retry, window: run.window }
                },
            }
        },
        (PacedStage::Retrying, PacedEvent::Collected(aggregate)) => {
            if run.at >= run.groups.len() {
                return PacedAction::Idle;
            }
            match duplicate_opt(&run.retry) {
                Some(retry) => {
                    install_group(context, &retry);
                    take_aggregate(context, run, aggregate)
                },
                None => PacedAction::Idle,
            }
        },
        (PacedStage::Retrying, PacedEvent::Missed) => match &run.retry {
            Some(retry) => {
                let group_id = retry.group_id;
                run.stage = PacedStage::Over;
                PacedAction::Fail(PacedError::NoAggregate(group_id))
            },
            None => PacedAction::Idle,
        },
        (PacedStage::Committing, PacedEvent::Done) => {
            if paced_checkpoint_due(context, run.window) {
                run.stage = PacedStage::Checkpointing;
                PacedAction::Checkpoint(make_checkpoint(context, &run.aggregates))
            } else {
                let window: u64 = run.window;
                leave_window(context, run, window)
            }
        },
        (PacedStage::Committing, PacedEvent::Failed) => {
            run.stage = PacedStage::Over;
            PacedAction::Fail(PacedError::NoQuorum)
        },
        (PacedStage::Checkpointing, PacedEvent::Done) => {
            let window: u64 = run.window;
            leave_window(context, run, window)
        },
        (PacedStage::Checkpointing, PacedEvent::Failed) => {
            run.stage = PacedStage::Over;
            PacedAction::Fail(PacedError::NoCheckpointQuorum)
        },
        _ => PacedAction::Idle,
    }
}

/// One aggregate is held for every group that is done, and a window is committed
/// with one of every group.
pub open spec fn paced_wf(run: PacedRunView) -> bool {
    &&& 0 <= run.at <= run.groups.len()
    &&& run.aggregates.len() == run.at
    &&& run.stage == PacedStage::Collecting || run.stage == PacedStage::Retrying ==> run.at
        < run.groups.len()
    &&& run.stage == PacedStage::Retrying ==> run.retry is Some
    &&& run.stage == PacedStage::Committing || run.stage == PacedStage::Checkpointing ==> run.at
        == run.groups.len()
}

/// A run begins well-formed and stays so.
pub proof fn law_paced_run_stays_well_formed(
    c: ContextView,
    run: PacedRunView,
    event: PacedEventView,
)
    requires
        paced_wf(run),
    ensures
        paced_wf(paced_step(c, run, event).run),
{
}

/// A window is committed only with one aggregate of each of its groups.
pub proof fn law_commit_needs_every_group(
    c: ContextView,
    run: PacedRunView,
    event: PacedEventView,
)
    requires
        paced_wf(run),
        paced_step(c, run, event).action is Commit,
    ensures
        ({
            let after = paced_step(c, run, event).run;
            after.aggregates.len() == after.groups.len()
        }),
{
}

/// After a window without a quorum for its state or for its checkpoint no other
/// window begins.
pub proof fn law_no_window_without_quorum(c: ContextView, run: PacedRunView)
    requires
        run.stage == PacedStage::Committing || run.stage == PacedStage::Checkpointing,
    ensures
        paced_step(c, run, PacedEventView::Failed).action is Fail,
        paced_step(c, run, PacedEventView::Failed).run.stage == PacedStage::Over,
        forall|event: PacedEventView|
            (#[trigger] paced_step(c, run, event)).run.window != run.window ==> event
                == PacedEventView::Done,
{
}

/// A run reports its end only after the last window, and with a checkpoint of it
/// where it trained the window itself.
pub proof fn law_paced_finish_is_last(c: ContextView, run: PacedRunView, event: PacedEventView)
    requires
        paced_step(c, run, event).action == PacedActionView::Finish,
        run.stage == PacedStage::Committing || run.stage == PacedStage::Checkpointing,
        run.window <= c.start.max_windows,
    ensures
        run.window == c.start.max_windows,
        run.stage == PacedStage::Checkpointing,
{
}

/// A paced run trains the groups one after the other, each for the window of the run; a
/// report moves on to the next group, and after the last one the window is committed.
pub proof fn law_paced_groups_train_in_order(
    c: ContextView,
    run: PacedRunView,
    aggregate: TrainingAggregateView,
)
    requires
        run.stage is Collecting,
        0 <= run.at < run.groups.len(),
    ensures
        ({
            let o = paced_step(c, run, PacedEventView::Collected(aggregate));
            &&& o.run.aggregates.len() == run.aggregates.len() + 1
            &&& o.run.aggregates.last() == aggregate
            &&& o.run.window == run.window
            &&& run.at + 1 < run.groups.len() ==> o.action == (PacedActionView::RunGroup {
                group: run.groups[run.at + 1],
                window: run.window,
            }) && o.run.at == run.at + 1 && o.context == c
            &&& run.at + 1 == run.groups.len() ==> o.action is Commit
                && o.action->Commit_0.window == run.window && o.context.window == run.window
        }),
{
}

/// A group that brings nothing loses its aggregator, which counts as failed and as a
/// straggler: the live members try once more, and a group without any ends the run.
pub proof fn law_paced_group_is_tried_again(c: ContextView, run: PacedRunView)
    requires
        run.stage is Collecting,
        0 <= run.at < run.groups.len(),
        c.stragglers < u64::MAX,
    ensures
        ({
            let group = run.groups[run.at];
            let o = paced_step(c, run, PacedEventView::Missed);
            &&& o.context.failed == c.failed.insert(group.aggregator)
            &&& o.context.stragglers == c.stragglers + 1
            &&& o.action is RunGroup ==> o.run.stage is Retrying && o.action->window == run.window
                && o.action->group.group_id == group.group_id
                && !o.action->group.members.contains(group.aggregator)
            &&& !(o.action is RunGroup) ==> o.action == PacedActionView::Fail(
                PacedError::NoAggregator(group.group_id),
            )
        }),
{
    let group = run.groups[run.at];
    crate::base::search::lemma_filter_contains(
        group.members,
        crate::base::search::outside(c.failed.insert(group.aggregator)),
    );
}

/// After a committed window comes a checkpoint where one is due, at every interval and at
/// the last window; otherwise, and after it, the next window of all groups, or the end
/// after the last.
pub proof fn law_paced_windows_follow_each_other(c: ContextView, run: PacedRunView)
    requires
        run.stage is Committing || run.stage is Checkpointing,
        c.start.checkpoint_every > 0,
        c.start.groups.len() > 0,
    ensures
        ({
            let o = paced_step(c, run, PacedEventView::Done);
            let due = run.stage is Committing && (run.window % c.start.checkpoint_every == 0
                || run.window == c.start.max_windows);
            &&& due ==> o.action is Checkpoint && o.action->Checkpoint_0.shards.len()
                == run.aggregates.len() && o.run.window == run.window
            &&& !due && run.window >= c.start.max_windows ==> o.action is Finish
            &&& !due && run.window < c.start.max_windows ==> o.action == (
            PacedActionView::RunGroup {
                group: c.start.groups[0],
                window: (run.window + 1) as u64,
            }) && o.run.at == 0 && o.run.aggregates.len() == 0
            &&& o.context == c
        }),
        paced_step(c, run, PacedEventView::Failed).action is Fail,
{
}

/// A retry that succeeds installs the smaller group and takes its report; one that fails
/// ends the run, and names the group.
pub proof fn law_retry_decides_the_group(
    c: ContextView,
    run: PacedRunView,
    retry: TrainingGroupView,
    aggregate: TrainingAggregateView,
)
    requires
        run.stage is Retrying,
        run.retry == Some(retry),
        0 <= run.at < run.groups.len(),
    ensures
        paced_step(c, run, PacedEventView::Missed).action == PacedActionView::Fail(
            PacedError::NoAggregate(retry.group_id),
        ),
        ({
            let o = paced_step(c, run, PacedEventView::Collected(aggregate));
            &&& o.run.aggregates == run.aggregates.push(aggregate)
            &&& o.context.start.groups == crate::reference::coordinator::with_replaced(
                c.start.groups,
                retry,
            )
            &&& o.run.at == run.at + 1
        }),
        ({
            let opening = PacedRunView { stage: PacedStage::Opening, ..run };
            c.window >= c.start.max_windows ==> paced_step(
                c,
                opening,
                PacedEventView::Done,
            ).action is Finish
        }),
{
}

} // verus!
