//! Coordinators, aggregators, workers and elections of reference jobs.

use distributed_training::base::ids::{ArtifactId, JobId, NodeId};
use distributed_training::reference::admission::{
    accept_start, admission_done, begin_admission, restore_context, start_ack, start_coordinator,
    takes_up, AdmissionEvent, AdmissionStep, StartError,
};
use distributed_training::reference::aggregator::{
    compute_update, contribution_of, losses_in_range, providers, update_in_range,
};
use distributed_training::reference::autonomous::{
    begin_autonomous, drive_autonomous_coordinator, AutonomousAction, AutonomousError,
    AutonomousEvent, AutonomousRun,
};
use distributed_training::reference::campaigning::{
    begin_campaign, maybe_elect, CampaignAction, CampaignEvent,
};
use distributed_training::reference::checkpoint::{
    begin_checkpoint_wait, begin_state_wait, broadcast_checkpoint_and_wait,
    broadcast_state_and_wait, broadcast_targets, checkpoint_wait_done, commit_manifest,
    make_checkpoint, make_checkpoint_from_context, state_wait_done, AckWait,
    WaitEvent, WaitStep,
};
use distributed_training::reference::collecting::{
    begin_collection, collect_group_updates, keeps_losses_addable, CollectAction, CollectEvent,
    CollectFailure,
};
use distributed_training::reference::committing::{
    begin_commit, begin_context_commit, commit_context_checkpoint, CommitAction, CommitError,
    CommitEvent,
};
use distributed_training::reference::context::{
    context_covers_final_model, final_checkpoint_generation, group_for, Context,
};
use distributed_training::reference::coordinator::{
    command_window, context_timeout_secs, dispatch_autonomous_window, final_loss_in_range,
    group_recipients, replacement_group, restore_training_peer, result_timeout_secs, run_figures,
    run_group_window, wait_for_aggregate, window_due, AggregateEvent, AwaitStep, DispatchAction,
};
use distributed_training::reference::election::{begin_election, take_recovery, ElectionStart};
use distributed_training::reference::files::{checkpoint_file, shard_file, start_file, state_file};
use distributed_training::reference::paced::{
    begin_paced, drive_coordinator, PacedAction, PacedError, PacedEvent,
};
use distributed_training::reference::planning::{
    build_worker_starts, make_groups, make_shards, JobTerms,
};
use distributed_training::reference::running::{
    next_turn, run_context, RunAction, RunEnd, RunEvent, RunStage,
};
use distributed_training::reference::types::{
    Role, TrainingAck, TrainingAckKind, TrainingAggregate, TrainingCheckpointOffer,
    TrainingElection, TrainingShardState, TrainingStart, TrainingState, TrainingUpdate,
};
use distributed_training::reference::worker::{
    accept_window, close_window, considers_offer, handle_checkpoint_commit,
    handle_checkpoint_offer, handle_election, handle_state, note_ack, receive_shard_state,
    OfferedShard, WindowAction,
};

const SCALE: i64 = 1_000_000;

fn node(n: u128) -> NodeId {
    NodeId { hi: 0, lo: n }
}

fn job() -> JobId {
    JobId { hi: 0, lo: 7 }
}

fn art(n: u128) -> ArtifactId {
    ArtifactId { hi: 0, lo: n }
}

/// Four workers, two groups (1, 3) and (2, 4), coordinated by 9.
fn starts() -> Vec<TrainingStart> {
    let workers = vec![node(1), node(2), node(3), node(4)];
    let groups = make_groups(&workers);
    let shards = make_shards(&groups, &vec![art(10), art(11)]);
    build_worker_starts(
        JobTerms {
            job_id: job(),
            coordinator: node(9),
            branch: art(100),
            plan_hash: art(101),
            max_windows: 2,
            local_steps: 1,
            checkpoint_every: 2,
        },
        &workers,
        &groups,
        &shards,
    )
}

fn worker(n: usize) -> Context {
    Context::new(starts().remove(n - 1), Role::Worker)
}

fn coordinator() -> Context {
    Context::new(starts().remove(0), Role::Coordinator)
}

fn aggregate(group: u16, window: u64) -> TrainingAggregate {
    let aggregator = node(1 + group as u128);
    TrainingAggregate {
        job_id: job(),
        aggregator,
        term: 1,
        membership_epoch: 1,
        branch: art(100),
        window,
        group_id: group,
        shard_id: group,
        generation: window,
        value: 2 + group as i64,
        optimizer: 0,
        loss: 0,
        contributors: vec![aggregator, node(3 + group as u128)],
        state_artifact: art(200 + 10 * group as u128 + window as u128),
        replicas: vec![aggregator, node(3 + group as u128)],
    }
}

fn update(context: &Context, from: u128, window: u64) -> TrainingUpdate {
    let group = group_for(&context.start, context.assignment.group_id).unwrap();
    let command = command_window(context, group, window);
    compute_update(context, &command, node(from), SCALE)
}

fn ack(from: u128, term: u64, kind: TrainingAckKind) -> TrainingAck {
    TrainingAck { job_id: job(), peer: node(from), term, kind }
}

#[test]
fn a_new_context_starts_from_the_assigned_shards() {
    let context = worker(3);
    let state = context.state();
    assert_eq!(context.initial_loss, 102 + 229);
    assert_eq!(state.shards.len(), 2);
    assert_eq!(state.shards[0].state_hash, art(10));
    assert_eq!(state.shards[1].providers, vec![node(2), node(4)]);
    assert_eq!(state.window, 0);
    assert_eq!(final_checkpoint_generation(&context.start), 1);
    assert!(!context_covers_final_model(&context));
}

#[test]
fn an_update_carries_the_trained_values() {
    let context = worker(3);
    let made = update(&context, 3, 1);
    assert_eq!((made.value, made.optimizer, made.loss), (2, -51, 0));
    assert_eq!(made.update_sequence, 2);
    assert_eq!(made.samples, 8);
    let shown = contribution_of(&made);
    assert_eq!(shown.values, vec![2, -51]);
    assert_eq!(shown.generation, 1);
    let group = group_for(&context.start, 0).unwrap();
    assert!(update_in_range(&context, &command_window(&context, group, 1), SCALE));
    assert!(losses_in_range(&vec![made, made]));
    let huge = TrainingUpdate { loss: i64::MAX, ..made };
    assert!(!losses_in_range(&vec![huge, TrainingUpdate { loss: 1, ..made }]));
}

#[test]
fn local_steps_compose() {
    let mut context = worker(3);
    context.value = 100;
    let group = make_groups(&context.start.participants).remove(0);
    let steps = |context: &Context, n: u16| {
        let mut command = command_window(context, &group, 1);
        command.local_steps = n;
        compute_update(context, &command, node(3), SCALE)
    };
    let none = steps(&context, 0);
    assert_eq!((none.value, none.optimizer), (100, context.optimizer));
    let whole = steps(&context, 3);
    let first = steps(&context, 1);
    assert_ne!(first.value, whole.value);
    context.value = first.value;
    context.optimizer = first.optimizer;
    assert_eq!(steps(&context, 2), whole);
}

#[test]
fn a_published_aggregate_is_the_median_of_its_contributors() {
    let mut context = worker(1);
    let mut group = make_groups(&context.start.participants).remove(0);
    group.members = vec![node(1), node(3), node(4)];
    let command = command_window(&context, &group, 1);
    let (mut run, _) = begin_collection(&context, &group, &command, node(1), SCALE);
    let own = run.collection.updates[0];
    for (from, value, optimizer) in [(3, 900, 7), (4, 30, 500)] {
        let update = TrainingUpdate { worker: node(from), value, optimizer, ..own };
        let event = CollectEvent::Update { peer: node(from), update, admitted: true };
        collect_group_updates(&mut context, &mut run, event);
    }
    // Of 2, 30 and 900 the median is 30, of -51, 7 and 500 it is 7.
    let event = CollectEvent::Stored { state_hash: art(300), artifact: art(301) };
    collect_group_updates(&mut context, &mut run, event);
    let kind = TrainingAckKind::Checkpoint { artifact: art(301) };
    let mut last = CollectAction::Wait;
    for from in [3, 4] {
        collect_group_updates(&mut context, &mut run, CollectEvent::Offered(true));
        let event = CollectEvent::Ack { peer: node(from), ack: ack(from, 1, kind) };
        last = collect_group_updates(&mut context, &mut run, event);
    }
    match last {
        CollectAction::Publish(published) => {
            assert_eq!(published.contributors, vec![node(1), node(3), node(4)]);
            assert_eq!((published.value, published.optimizer), (30, 7));
        }
        _ => panic!("the aggregate is published"),
    }
}

#[test]
fn an_aggregator_collects_stores_replicates_and_publishes() {
    let mut context = worker(1);
    let group = make_groups(&context.start.participants).remove(0);
    let command = command_window(&context, &group, 1);
    let (mut run, action) = begin_collection(&context, &group, &command, node(1), SCALE);
    assert!(matches!(action, CollectAction::Wait));
    let other = update(&worker(3), 3, 1);
    assert!(keeps_losses_addable(&run, &other));
    let wrong = TrainingUpdate { window: 9, ..other };
    let event = CollectEvent::Update { peer: node(3), update: wrong, admitted: true };
    assert!(matches!(collect_group_updates(&mut context, &mut run, event), CollectAction::Wait));
    assert_eq!(context.rejected_updates, 1);
    let refused = CollectEvent::Update { peer: node(3), update: other, admitted: false };
    collect_group_updates(&mut context, &mut run, refused);
    assert_eq!(context.rejected_updates, 2);
    let event = CollectEvent::Update { peer: node(3), update: other, admitted: true };
    let action = collect_group_updates(&mut context, &mut run, event);
    let state = match action {
        CollectAction::Store(state) => state,
        _ => panic!("the combined state is stored"),
    };
    assert_eq!((state.value, state.optimizer, state.generation), (2, -51, 1));
    let event = CollectEvent::Stored { state_hash: art(300), artifact: art(301) };
    let action = collect_group_updates(&mut context, &mut run, event);
    match action {
        CollectAction::Offer { member, offer } => {
            assert_eq!(member, node(3));
            assert_eq!(
                offer,
                TrainingCheckpointOffer {
                    job_id: job(),
                    creator: node(1),
                    term: 1,
                    checkpoint_generation: 1,
                    shard_id: 0,
                    artifact: art(301),
                }
            );
        }
        _ => panic!("the artifact is offered"),
    }
    collect_group_updates(&mut context, &mut run, CollectEvent::Offered(true));
    let confirm = ack(3, 1, TrainingAckKind::Checkpoint { artifact: art(301) });
    let event = CollectEvent::Ack { peer: node(3), ack: confirm };
    match collect_group_updates(&mut context, &mut run, event) {
        CollectAction::Publish(published) => {
            assert_eq!(published.replicas, vec![node(1), node(3)]);
            assert_eq!(published.contributors, vec![node(1), node(3)]);
            assert_eq!(published.state_artifact, art(301));
            assert_eq!(providers(&published), vec![node(1), node(3)]);
        }
        _ => panic!("the aggregate is published"),
    }
    assert_eq!((context.value, context.generation), (2, 1));
}

#[test]
fn an_aggregator_goes_on_without_a_lost_member() {
    let mut context = worker(1);
    let group = make_groups(&context.start.participants).remove(0);
    let command = command_window(&context, &group, 1);
    let (mut run, _) = begin_collection(&context, &group, &command, node(1), SCALE);
    let lost = collect_group_updates(&mut context, &mut run, CollectEvent::Disconnected(node(3)));
    assert!(matches!(lost, CollectAction::Restore(peer) if peer == node(3)));
    let event = CollectEvent::Reached { connected: false, reconnected: false };
    assert!(matches!(collect_group_updates(&mut context, &mut run, event), CollectAction::Wait));
    assert!(context.failed.contains(node(3)));
    assert_eq!(context.stragglers, 1);
    let event = CollectEvent::TimedOut;
    assert!(matches!(
        collect_group_updates(&mut context, &mut run, event),
        CollectAction::Store(_)
    ));
    assert_eq!(context.stragglers, 2);
    let event = CollectEvent::Stored { state_hash: art(300), artifact: art(301) };
    match collect_group_updates(&mut context, &mut run, event) {
        CollectAction::Publish(published) => assert_eq!(published.replicas, vec![node(1)]),
        _ => panic!("one live member is enough"),
    }
}

#[test]
fn an_unconfirmed_replica_counts_as_failed() {
    let mut context = worker(1);
    let group = make_groups(&context.start.participants).remove(0);
    let command = command_window(&context, &group, 1);
    let (mut run, _) = begin_collection(&context, &group, &command, node(1), SCALE);
    collect_group_updates(&mut context, &mut run, CollectEvent::TimedOut);
    let event = CollectEvent::Stored { state_hash: art(300), artifact: art(301) };
    collect_group_updates(&mut context, &mut run, event);
    collect_group_updates(&mut context, &mut run, CollectEvent::Offered(true));
    let late = CollectEvent::Update { peer: node(3), update: update(&worker(3), 3, 1), admitted: true };
    collect_group_updates(&mut context, &mut run, late);
    assert_eq!(context.rejected_updates, 1);
    let done = collect_group_updates(&mut context, &mut run, CollectEvent::TimedOut);
    assert!(matches!(done, CollectAction::Publish(_)));
    assert!(context.failed.contains(node(3)));
}

#[test]
fn a_failed_store_ends_the_window() {
    let mut context = worker(1);
    let group = make_groups(&context.start.participants).remove(0);
    let command = command_window(&context, &group, 1);
    let (mut run, _) = begin_collection(&context, &group, &command, node(1), SCALE);
    collect_group_updates(&mut context, &mut run, CollectEvent::TimedOut);
    let done = collect_group_updates(&mut context, &mut run, CollectEvent::Failed);
    assert!(matches!(done, CollectAction::Fail(CollectFailure::ActionFailed)));
}

#[test]
fn a_value_out_of_bounds_is_not_stored() {
    let mut context = worker(1);
    context.value = 1_000_000_000;
    context.samples.clear();
    let group = make_groups(&context.start.participants).remove(0);
    let command = command_window(&context, &group, 1);
    let (mut run, _) = begin_collection(&context, &group, &command, node(1), SCALE);
    let done = collect_group_updates(&mut context, &mut run, CollectEvent::TimedOut);
    assert!(matches!(done, CollectAction::Fail(CollectFailure::ExceedsBound)));
}

/// Commit the last checkpoint of the context: three of the four participants and
/// the coordinator are a majority, two and the coordinator too.
fn commit_last(context: &mut Context) {
    let (mut run, action) = begin_context_commit(context, node(9)).unwrap();
    match action {
        CommitAction::Sign(manifest) => {
            assert_eq!(manifest.checkpoint_generation, 1);
            assert_eq!(manifest.shards.len(), 2);
        }
        _ => panic!("the manifest is signed first"),
    }
    let store = commit_context_checkpoint(context, &mut run, CommitEvent::Signed(art(400)));
    assert!(matches!(store, CommitAction::Store(commit) if commit.manifest.hash == art(400)));
    let send = commit_context_checkpoint(context, &mut run, CommitEvent::Done);
    assert!(matches!(send, CommitAction::Send(_)));
    assert_eq!(context.checkpoint, Some(art(400)));
    let wait = commit_context_checkpoint(context, &mut run, CommitEvent::Done);
    assert!(matches!(wait, CommitAction::Wait));
    let kind = TrainingAckKind::Checkpoint { artifact: art(400) };
    let answer = |n: u128| {
        CommitEvent::Waited(WaitEvent::Ack { peer: node(n), ack: ack(n, 1, kind) })
    };
    let wait = commit_context_checkpoint(context, &mut run, answer(1));
    assert!(matches!(wait, CommitAction::Wait));
    assert!(!context.final_checkpoint_committed);
    let state = commit_context_checkpoint(context, &mut run, answer(2));
    assert!(matches!(state, CommitAction::StoreState(_)));
    assert!(context.final_checkpoint_committed);
    let done = commit_context_checkpoint(context, &mut run, CommitEvent::Done);
    assert!(matches!(done, CommitAction::Finish));
}

#[test]
fn autonomous_groups_run_to_the_final_checkpoint() {
    let mut context = coordinator();
    let (mut run, action) = begin_autonomous(&context);
    assert!(matches!(action, AutonomousAction::Publish(_)));
    let me = node(9);
    let first = drive_autonomous_coordinator(&mut context, &mut run, me, AutonomousEvent::Done);
    match first {
        AutonomousAction::Dispatch { group, window } => {
            assert_eq!((group.group_id, window), (0, 1));
            assert_eq!(
                dispatch_autonomous_window(&context, me, &group, node(1)),
                DispatchAction::Send
            );
            assert_eq!(
                dispatch_autonomous_window(&context, node(1), &group, node(1)),
                DispatchAction::Collect
            );
        }
        _ => panic!("the first group is dispatched"),
    }
    let second = drive_autonomous_coordinator(&mut context, &mut run, me, AutonomousEvent::Done);
    assert!(matches!(second, AutonomousAction::Dispatch { window: 1, .. }));
    let wait = drive_autonomous_coordinator(&mut context, &mut run, me, AutonomousEvent::Done);
    assert!(matches!(wait, AutonomousAction::Wait));
    // One group runs ahead of the other.
    for window in 1..3 {
        let event = AutonomousEvent::Aggregate { peer: node(1), aggregate: aggregate(0, window) };
        let publish = drive_autonomous_coordinator(&mut context, &mut run, me, event);
        assert!(matches!(publish, AutonomousAction::Publish(_)));
        let next = drive_autonomous_coordinator(&mut context, &mut run, me, AutonomousEvent::Done);
        assert!(matches!(next, AutonomousAction::Wait));
    }
    assert!(context.non_barrier_progress_observed);
    // A repeated aggregate is rejected.
    let event = AutonomousEvent::Aggregate { peer: node(1), aggregate: aggregate(0, 2) };
    let repeated = drive_autonomous_coordinator(&mut context, &mut run, me, event);
    assert!(matches!(repeated, AutonomousAction::Wait));
    assert_eq!(context.rejected_updates, 1);
    let event = AutonomousEvent::Aggregate { peer: node(2), aggregate: aggregate(1, 1) };
    drive_autonomous_coordinator(&mut context, &mut run, me, event);
    drive_autonomous_coordinator(&mut context, &mut run, me, AutonomousEvent::Done);
    let event = AutonomousEvent::Aggregate { peer: node(2), aggregate: aggregate(1, 2) };
    drive_autonomous_coordinator(&mut context, &mut run, me, event);
    let due = drive_autonomous_coordinator(&mut context, &mut run, me, AutonomousEvent::Done);
    assert!(matches!(due, AutonomousAction::Checkpoint));
    commit_last(&mut context);
    let done = drive_autonomous_coordinator(&mut context, &mut run, me, AutonomousEvent::Done);
    assert!(matches!(done, AutonomousAction::Finish));
    assert!(context_covers_final_model(&context));
    assert_eq!(context.group_completion_order, vec![0, 1]);
    assert!(final_loss_in_range(&context));
    let figures = run_figures(&context);
    assert_eq!(figures.final_loss, 0);
    assert!(figures.improved);
    assert_eq!(figures.maximum_group_fan_in, 2);
    assert_eq!(figures.optimizer_state_replication_factor, 2);
}

#[test]
fn a_lost_aggregator_is_replaced() {
    let mut context = coordinator();
    let me = node(9);
    let (mut run, _) = begin_autonomous(&context);
    for _ in 0..3 {
        drive_autonomous_coordinator(&mut context, &mut run, me, AutonomousEvent::Done);
    }
    let event = AutonomousEvent::Disconnected(node(1));
    let look = drive_autonomous_coordinator(&mut context, &mut run, me, event);
    assert!(matches!(look, AutonomousAction::Restore(peer) if peer == node(1)));
    let event = AutonomousEvent::Reached { connected: false, reconnected: false };
    match drive_autonomous_coordinator(&mut context, &mut run, me, event) {
        AutonomousAction::Dispatch { group, window } => {
            assert_eq!(group.aggregator, node(3));
            assert_eq!(group.members, vec![node(3)]);
            assert_eq!(window, 1);
        }
        _ => panic!("the group goes on with the other member"),
    }
    assert_eq!(context.start.groups[0].aggregator, node(3));
    drive_autonomous_coordinator(&mut context, &mut run, me, AutonomousEvent::Done);
    let event = AutonomousEvent::Disconnected(node(3));
    drive_autonomous_coordinator(&mut context, &mut run, me, event);
    let event = AutonomousEvent::Reached { connected: false, reconnected: false };
    let gone = drive_autonomous_coordinator(&mut context, &mut run, me, event);
    assert!(matches!(gone, AutonomousAction::Fail(AutonomousError::NoAggregator(0))));
}

#[test]
fn a_peer_that_came_back_is_dispatched_again() {
    let mut context = coordinator();
    let me = node(9);
    let (mut run, _) = begin_autonomous(&context);
    for _ in 0..3 {
        drive_autonomous_coordinator(&mut context, &mut run, me, AutonomousEvent::Done);
    }
    drive_autonomous_coordinator(&mut context, &mut run, me, AutonomousEvent::Disconnected(node(1)));
    let event = AutonomousEvent::Reached { connected: true, reconnected: false };
    let again = drive_autonomous_coordinator(&mut context, &mut run, me, event);
    assert!(matches!(again, AutonomousAction::Dispatch { window: 1, .. }));
    assert!(!context.failed.contains(node(1)));
}

#[test]
fn an_autonomous_coordinator_gives_up_or_steps_down() {
    let me = node(9);
    for (event, error) in [
        (AutonomousEvent::TimedOut, AutonomousError::TimedOut),
        (AutonomousEvent::Closed, AutonomousError::Closed),
    ] {
        let mut context = coordinator();
        let (mut run, _) = begin_autonomous(&context);
        for _ in 0..3 {
            drive_autonomous_coordinator(&mut context, &mut run, me, AutonomousEvent::Done);
        }
        let end = drive_autonomous_coordinator(&mut context, &mut run, me, event);
        assert!(matches!(end, AutonomousAction::Fail(e) if e == error));
    }
    let mut context = coordinator();
    let (mut run, _) = begin_autonomous(&context);
    let end = drive_autonomous_coordinator(&mut context, &mut run, me, AutonomousEvent::Failed);
    assert!(matches!(end, AutonomousAction::Fail(AutonomousError::ActionFailed)));
    let mut context = coordinator();
    let (mut run, _) = begin_autonomous(&context);
    for _ in 0..3 {
        drive_autonomous_coordinator(&mut context, &mut run, me, AutonomousEvent::Done);
    }
    let mut state = context.state();
    state.term = 2;
    state.coordinator = node(4);
    let event = AutonomousEvent::State { peer: node(4), state };
    let down = drive_autonomous_coordinator(&mut context, &mut run, me, event);
    assert!(matches!(down, AutonomousAction::StepDown { .. }));
    assert_eq!(context.role, Role::Worker);
    assert_eq!(context.coordinator, node(4));
}

#[test]
fn paced_windows_commit_with_every_group() {
    let mut context = coordinator();
    let (mut run, action) = begin_paced(&context);
    assert!(matches!(action, PacedAction::Publish(_)));
    for window in 1..3 {
        for group in 0..2 {
            let event = if window == 1 && group == 0 {
                PacedEvent::Done
            } else if group == 0 {
                PacedEvent::Done
            } else {
                PacedEvent::Collected(aggregate(0, window))
            };
            match drive_coordinator(&mut context, &mut run, event) {
                PacedAction::RunGroup { group: asked, window: wanted } => {
                    assert_eq!(asked.group_id, group);
                    assert_eq!(wanted, window);
                }
                _ => panic!("a group runs"),
            }
        }
        let event = PacedEvent::Collected(aggregate(1, window));
        match drive_coordinator(&mut context, &mut run, event) {
            PacedAction::Commit(state) => assert_eq!(state.window, window),
            _ => panic!("the window is committed"),
        }
    }
    match drive_coordinator(&mut context, &mut run, PacedEvent::Done) {
        PacedAction::Checkpoint(manifest) => {
            assert_eq!(manifest.shards.len(), 2);
            assert_eq!(manifest.model_generation, 2);
        }
        _ => panic!("the last window has a checkpoint"),
    }
    let end = drive_coordinator(&mut context, &mut run, PacedEvent::Done);
    assert!(matches!(end, PacedAction::Finish));
    assert_eq!(context.accepted_updates, 8);
}

#[test]
fn a_paced_group_tries_again_with_another_aggregator() {
    let mut context = coordinator();
    let (mut run, _) = begin_paced(&context);
    drive_coordinator(&mut context, &mut run, PacedEvent::Done);
    match drive_coordinator(&mut context, &mut run, PacedEvent::Missed) {
        PacedAction::RunGroup { group, .. } => assert_eq!(group.aggregator, node(3)),
        _ => panic!("the group tries again"),
    }
    let failed = drive_coordinator(&mut context, &mut run, PacedEvent::Missed);
    assert!(matches!(failed, PacedAction::Fail(PacedError::NoAggregate(0))));
    let mut context = coordinator();
    context.failed.insert(node(3));
    let (mut run, _) = begin_paced(&context);
    drive_coordinator(&mut context, &mut run, PacedEvent::Done);
    let failed = drive_coordinator(&mut context, &mut run, PacedEvent::Missed);
    assert!(matches!(failed, PacedAction::Fail(PacedError::NoAggregator(0))));
}

#[test]
fn a_paced_window_without_a_quorum_ends_the_run() {
    let mut context = coordinator();
    let (mut run, _) = begin_paced(&context);
    let end = drive_coordinator(&mut context, &mut run, PacedEvent::Failed);
    assert!(matches!(end, PacedAction::Fail(PacedError::ActionFailed)));
    let mut context = coordinator();
    let (mut run, _) = begin_paced(&context);
    drive_coordinator(&mut context, &mut run, PacedEvent::Done);
    drive_coordinator(&mut context, &mut run, PacedEvent::Collected(aggregate(0, 1)));
    drive_coordinator(&mut context, &mut run, PacedEvent::Collected(aggregate(1, 1)));
    let end = drive_coordinator(&mut context, &mut run, PacedEvent::Failed);
    assert!(matches!(end, PacedAction::Fail(PacedError::NoQuorum)));
    let mut context = coordinator();
    context.start.max_windows = 1;
    let (mut run, _) = begin_paced(&context);
    drive_coordinator(&mut context, &mut run, PacedEvent::Done);
    drive_coordinator(&mut context, &mut run, PacedEvent::Collected(aggregate(0, 1)));
    drive_coordinator(&mut context, &mut run, PacedEvent::Collected(aggregate(1, 1)));
    drive_coordinator(&mut context, &mut run, PacedEvent::Done);
    let end = drive_coordinator(&mut context, &mut run, PacedEvent::Failed);
    assert!(matches!(end, PacedAction::Fail(PacedError::NoCheckpointQuorum)));
}

#[test]
fn paced_dispatch_and_awaited_aggregates() {
    let context = coordinator();
    let group = make_groups(&context.start.participants).remove(0);
    assert_eq!(run_group_window(&context, node(3), &group, node(3)), DispatchAction::Update);
    assert_eq!(run_group_window(&context, node(1), &group, node(1)), DispatchAction::Skip);
    assert_eq!(run_group_window(&context, node(9), &group, node(3)), DispatchAction::Send);
    let mut context = context;
    let mut wait = |window: u64, event| wait_for_aggregate(&mut context, node(9), 0, window, event);
    let offered = || AggregateEvent::Aggregate { peer: node(1), aggregate: aggregate(0, 1) };
    assert!(matches!(wait(1, offered()), AwaitStep::Arrived(_)));
    assert!(matches!(wait(2, offered()), AwaitStep::Wait));
    assert!(matches!(wait(1, AggregateEvent::Disconnected(node(4))), AwaitStep::Wait));
    assert!(matches!(wait(1, AggregateEvent::TimedOut), AwaitStep::Missing));
    let lost = AggregateEvent::Disconnected(context.coordinator);
    let step = wait_for_aggregate(&mut context, node(9), 0, 1, lost);
    assert!(matches!(step, AwaitStep::Missing));
    let election = TrainingElection {
        job_id: context.start.job_id,
        candidate: node(2),
        term: context.term + 1,
        membership_epoch: context.start.membership_epoch,
        branch: context.branch,
        last_window: 0,
        last_state_hash: context.branch,
    };
    let event = AggregateEvent::Election { peer: node(2), election };
    let step = wait_for_aggregate(&mut context, node(9), 0, 1, event);
    assert!(matches!(step, AwaitStep::TermChanged(Some(_))));
    assert!(context.failed.contains(node(4)));
    assert_eq!(
        group_recipients(&context, &vec![node(1), node(3), node(4)], node(1)),
        vec![node(3)]
    );
    assert_eq!(window_due(&context, &group), Some(1));
    assert_eq!(context_timeout_secs(&context.start), 46);
    assert_eq!(result_timeout_secs(&context.start), 31);
}

#[test]
fn replacement_keeps_the_live_members() {
    let mut context = coordinator();
    let group = make_groups(&context.start.participants).remove(1);
    context.failed.insert(node(2));
    let replaced = replacement_group(&context, &group).unwrap();
    assert_eq!(replaced.aggregator, node(4));
    assert_eq!(replaced.members, vec![node(4)]);
    context.failed.insert(node(4));
    assert!(replacement_group(&context, &group).is_none());
}

#[test]
fn the_coordinator_has_to_answer_a_fresh_handshake() {
    let mut context = worker(3);
    assert!(restore_training_peer(&mut context, node(1), true, false));
    assert!(!restore_training_peer(&mut context, node(9), true, false));
    assert!(restore_training_peer(&mut context, node(9), false, true));
    assert!(!restore_training_peer(&mut context, node(77), true, true));
}

#[test]
fn a_worker_follows_windows_of_its_shard() {
    let mut context = worker(3);
    let group = make_groups(&context.start.participants).remove(0);
    let command = command_window(&context, &group, 1);
    let (adopted, action) = accept_window(&mut context, node(3), node(9), &command);
    assert!(adopted.is_none());
    assert_eq!(action, WindowAction::Update);
    assert_eq!(context.window, 1);
    let (_, action) = accept_window(&mut context, node(3), node(4), &command);
    assert_eq!(action, WindowAction::Reject);
    assert_eq!(context.rejected_updates, 1);
    let mut later = command_window(&context, &group, 2);
    later.term = 5;
    later.coordinator = node(4);
    let (adopted, _) = accept_window(&mut context, node(3), node(4), &later);
    assert_eq!(adopted.unwrap().term, 5);
    assert_eq!(context.coordinator, node(4));
    let mut unknown = command_window(&context, &group, 2);
    unknown.group_id = 9;
    unknown.aggregator = node(3);
    let (_, action) = accept_window(&mut context, node(3), node(4), &unknown);
    assert_eq!(action, WindowAction::Ignore);
}

#[test]
fn an_autonomous_aggregator_goes_on_to_the_next_window() {
    let mut context = worker(1);
    let group = make_groups(&context.start.participants).remove(0);
    let command = command_window(&context, &group, 1);
    let (_, action) = accept_window(&mut context, node(1), node(9), &command);
    assert!(matches!(action, WindowAction::Aggregate(_)));
    let next = close_window(&mut context, node(1), &group, &command, &aggregate(0, 1)).unwrap();
    assert_eq!((next.window, next.base_generation), (2, 1));
    assert!(close_window(&mut context, node(1), &group, &next, &aggregate(0, 2)).is_none());
}

#[test]
fn shard_states_have_to_match_their_hash() {
    let mut context = worker(3);
    let state = TrainingShardState {
        job_id: job(),
        owner: node(1),
        term: 1,
        membership_epoch: 1,
        branch: art(100),
        shard_id: 0,
        generation: 1,
        value: 2,
        optimizer: -51,
        state_hash: art(300),
    };
    assert!(!receive_shard_state(&mut context, node(1), &state, art(1)));
    assert!(!receive_shard_state(&mut context, node(3), &state, art(300)));
    assert!(receive_shard_state(&mut context, node(1), &state, art(300)));
    assert_eq!((context.value, context.generation), (2, 1));
    let older = TrainingShardState { generation: 0, ..state };
    assert!(!receive_shard_state(&mut context, node(1), &older, art(300)));
}

#[test]
fn states_move_a_worker_forward_only() {
    let mut context = worker(3);
    let mut state = context.state();
    state.window = 2;
    state.term = 2;
    state.coordinator = node(4);
    state.shards[0].generation = 2;
    let (merged, ack) = handle_state(&mut context, node(3), node(4), &state).unwrap();
    assert_eq!(merged.window, 2);
    assert_eq!(ack.kind, TrainingAckKind::State { window: 2, state_hash: art(10) });
    state.window = 1;
    assert!(handle_state(&mut context, node(3), node(4), &state).is_none());
    state.window = 2;
    state.shards[0].generation = 1;
    handle_state(&mut context, node(3), node(4), &state).unwrap();
    assert_eq!(context.state().shards[0].generation, 2);
    assert!(handle_state(&mut context, node(3), node(1), &state).is_none());
}

#[test]
fn votes_go_to_later_terms() {
    let mut context = worker(3);
    let election = TrainingElection {
        job_id: job(),
        candidate: node(4),
        term: 2,
        membership_epoch: 1,
        branch: art(100),
        last_window: 0,
        last_state_hash: art(10),
    };
    let reply = handle_election(&mut context, node(3), node(4), &election).unwrap();
    assert!(reply.recovery.is_some());
    assert_eq!(context.voted_candidate, Some(node(4)));
    assert_eq!(context.term, 1);
    let stale = TrainingElection { term: 1, ..election };
    let reply = handle_election(&mut context, node(3), node(4), &stale).unwrap();
    assert!(reply.recovery.is_none());
    assert!(handle_election(&mut context, node(3), node(1), &election).is_none());
    note_ack(
        &mut context,
        &ack(1, 6, TrainingAckKind::Vote {
            candidate: node(4),
            term: 6,
            last_window: 0,
            granted: true,
        }),
    );
    assert_eq!(context.voted_term, 6);
}

#[test]
fn checkpoint_offers_are_verified() {
    let context = worker(3);
    let offer = TrainingCheckpointOffer {
        job_id: job(),
        creator: node(1),
        term: 1,
        checkpoint_generation: 1,
        shard_id: 0,
        artifact: art(301),
    };
    assert!(considers_offer(&context, node(1), &offer));
    assert!(!considers_offer(&context, node(4), &offer));
    let shard = TrainingShardState {
        job_id: job(),
        owner: node(1),
        term: 1,
        membership_epoch: 1,
        branch: art(100),
        shard_id: 0,
        generation: 1,
        value: 2,
        optimizer: -51,
        state_hash: art(300),
    };
    let offered = OfferedShard { size: 100, state: shard, computed: art(300) };
    let (_, sent) = handle_checkpoint_offer(&context, node(3), node(1), &offer, true, Some(offered));
    assert_eq!(sent.unwrap().kind, TrainingAckKind::Checkpoint { artifact: art(301) });
    let (_, sent) = handle_checkpoint_offer(&context, node(3), node(1), &offer, false, None);
    assert!(sent.is_none());
}

#[test]
fn a_committed_final_checkpoint_retires_a_worker() {
    let mut leader = coordinator();
    leader.window = 2;
    for group in 0..2u16 {
        let mut state = leader.state();
        state.shards[group as usize].generation = 2;
        handle_state(&mut leader, node(9), node(9), &state);
    }
    let mut manifest = make_checkpoint_from_context(&leader).unwrap();
    manifest.hash = art(400);
    let commit = commit_manifest(&leader, &manifest);
    let mut context = worker(3);
    assert!(handle_checkpoint_commit(&mut context, node(3), node(9), &commit, art(1)).is_none());
    let mut state = leader.state();
    state.window = 2;
    handle_state(&mut context, node(3), node(9), &state).unwrap();
    let (stored, sent) =
        handle_checkpoint_commit(&mut context, node(3), node(9), &commit, art(400)).unwrap();
    assert_eq!(stored.checkpoint, Some(art(400)));
    assert_eq!(sent.kind, TrainingAckKind::Checkpoint { artifact: art(400) });
    let (stage, action) = run_context(&mut context, RunStage::Receiving, RunEvent::Handled);
    assert_eq!((stage, action), (RunStage::Over, RunAction::End(RunEnd::Retired)));
}

#[test]
fn acknowledgements_make_a_quorum() {
    let mut context = coordinator();
    assert_eq!(broadcast_targets(&context, node(2)), vec![node(1), node(3), node(4)]);
    let state = context.state();
    // The coordinator counts as one.
    let mut wait = begin_state_wait(&context, node(9));
    assert!(!state_wait_done(&wait));
    for n in 1..4 {
        let kind = TrainingAckKind::State { window: 0, state_hash: art(10) };
        let event = WaitEvent::Ack { peer: node(n), ack: ack(n, 1, kind) };
        let step = broadcast_state_and_wait(&mut context, &mut wait, node(9), &state, event);
        assert_eq!(matches!(step, WaitStep::Confirmed), n == 3);
    }
    let mut wait = begin_state_wait(&context, node(9));
    let late = WaitEvent::TimedOut;
    let step = broadcast_state_and_wait(&mut context, &mut wait, node(9), &state, late);
    assert!(matches!(step, WaitStep::Unconfirmed));
    let election = TrainingElection {
        job_id: context.start.job_id,
        candidate: node(2),
        term: context.term + 1,
        membership_epoch: context.start.membership_epoch,
        branch: context.branch,
        last_window: 0,
        last_state_hash: context.branch,
    };
    let event = WaitEvent::Election { peer: node(2), election };
    let step = broadcast_state_and_wait(&mut context, &mut wait, node(9), &state, event);
    assert!(matches!(step, WaitStep::TermChanged(Some(_))));
    let mut manifest = make_checkpoint_from_context(&context).unwrap();
    manifest.hash = art(400);
    let commit = commit_manifest(&context, &manifest);
    let mut wait = begin_checkpoint_wait(&context, node(9));
    assert!(!checkpoint_wait_done(&wait));
    let kind = TrainingAckKind::Checkpoint { artifact: art(400) };
    let answer = |n: u128| WaitEvent::Ack { peer: node(n), ack: ack(n, 1, kind) };
    let mut take = |wait: &mut AckWait, event| {
        broadcast_checkpoint_and_wait(&mut context, wait, &commit, event)
    };
    assert!(matches!(take(&mut wait, answer(1)), WaitStep::Wait));
    assert!(matches!(take(&mut wait, answer(1)), WaitStep::Wait));
    assert!(matches!(take(&mut wait, answer(2)), WaitStep::Confirmed));
    // Of two live participants one has to answer.
    assert!(matches!(take(&mut wait, WaitEvent::TimedOut), WaitStep::Unconfirmed));
    let mut fewer = begin_checkpoint_wait(&coordinator(), node(9));
    take(&mut fewer, WaitEvent::Disconnected(node(3)));
    take(&mut fewer, WaitEvent::Disconnected(node(4)));
    assert!(matches!(take(&mut fewer, answer(4)), WaitStep::Wait));
    assert!(matches!(take(&mut fewer, answer(2)), WaitStep::Confirmed));
}

#[test]
fn a_participant_counts_its_own_copy_once() {
    let mut context = coordinator();
    let manifest = make_checkpoint(&context, &vec![aggregate(0, 1), aggregate(1, 1)]);
    let commit = commit_manifest(&context, &manifest);
    let mut wait = begin_checkpoint_wait(&context, node(1));
    let kind = TrainingAckKind::Checkpoint { artifact: manifest.hash };
    let answer = |n: u128| WaitEvent::Ack { peer: node(n), ack: ack(n, 1, kind) };
    // Two of four are no majority, three are.
    let step = broadcast_checkpoint_and_wait(&mut context, &mut wait, &commit, answer(2));
    assert!(matches!(step, WaitStep::Wait));
    let step = broadcast_checkpoint_and_wait(&mut context, &mut wait, &commit, answer(9));
    assert!(matches!(step, WaitStep::Wait));
    // A peer that goes away takes its acknowledgement with it.
    let gone = WaitEvent::Disconnected(node(2));
    let step = broadcast_checkpoint_and_wait(&mut context, &mut wait, &commit, gone);
    assert!(matches!(step, WaitStep::Wait));
    assert_eq!((wait.expected.len(), wait.acks.len()), (3, 1));
    let step = broadcast_checkpoint_and_wait(&mut context, &mut wait, &commit, answer(3));
    assert!(matches!(step, WaitStep::Confirmed));
}

#[test]
fn a_checkpoint_that_reaches_nobody_is_not_committed() {
    let mut context = coordinator();
    assert!(begin_context_commit(&context, node(9)).is_some());
    let manifest = make_checkpoint(&context, &vec![aggregate(0, 2), aggregate(1, 2)]);
    let (mut run, _) = begin_commit(&context, &manifest, node(9));
    commit_context_checkpoint(&mut context, &mut run, CommitEvent::Signed(art(400)));
    commit_context_checkpoint(&mut context, &mut run, CommitEvent::Done);
    let wait = commit_context_checkpoint(&mut context, &mut run, CommitEvent::Done);
    assert!(matches!(wait, CommitAction::Wait));
    let over = CommitEvent::Waited(WaitEvent::TimedOut);
    let end = commit_context_checkpoint(&mut context, &mut run, over);
    assert!(matches!(end, CommitAction::Fail(CommitError::Unconfirmed)));
    assert!(!context.final_checkpoint_committed);
    let (mut run, _) = begin_commit(&context, &manifest, node(9));
    let end = commit_context_checkpoint(&mut context, &mut run, CommitEvent::Failed);
    assert!(matches!(end, CommitAction::Fail(CommitError::ActionFailed)));
    // An earlier checkpoint of groups on their own is sent out and not waited for.
    let mut context = coordinator();
    let (mut run, _) = begin_context_commit(&context, node(9)).unwrap();
    commit_context_checkpoint(&mut context, &mut run, CommitEvent::Signed(art(401)));
    commit_context_checkpoint(&mut context, &mut run, CommitEvent::Done);
    let state = commit_context_checkpoint(&mut context, &mut run, CommitEvent::Done);
    assert!(matches!(state, CommitAction::StoreState(_)));
    assert!(!context.final_checkpoint_committed);
}

#[test]
fn a_run_is_reported_with_the_complete_model_only() {
    let me = node(9);
    let drive = |context: &mut Context, run: &mut AutonomousRun| {
        drive_autonomous_coordinator(context, run, me, AutonomousEvent::Done)
    };
    // Without groups nothing is trained: the shards stay where they are.
    let mut context = coordinator();
    context.start.groups.clear();
    let (mut run, _) = begin_autonomous(&context);
    let end = drive(&mut context, &mut run);
    assert!(matches!(end, AutonomousAction::Fail(AutonomousError::Incomplete)));
    // With every shard at the last window, checkpoints go on until the last one is
    // committed.
    let mut context = coordinator();
    context.start.groups.clear();
    context.start.shards.clear();
    let (mut run, _) = begin_autonomous(&context);
    assert!(matches!(drive(&mut context, &mut run), AutonomousAction::Checkpoint));
    assert!(matches!(drive(&mut context, &mut run), AutonomousAction::Checkpoint));
    context.final_checkpoint_committed = true;
    assert!(matches!(drive(&mut context, &mut run), AutonomousAction::Finish));
    // A checkpoint of the last generation that is not the final one ends the run.
    let mut context = coordinator();
    context.start.groups.clear();
    context.start.shards.clear();
    let (mut run, _) = begin_autonomous(&context);
    assert!(matches!(drive(&mut context, &mut run), AutonomousAction::Checkpoint));
    context.checkpoint_generation = 1;
    let end = drive(&mut context, &mut run);
    assert!(matches!(end, AutonomousAction::Fail(AutonomousError::NoFinalManifest)));
}

#[test]
fn recovery_keeps_the_checkpoint_that_is_held() {
    let mut context = worker(3);
    context.checkpoint_generation = 5;
    context.checkpoint = Some(art(50));
    let campaign = match begin_election(&mut context, node(3), node(9)) {
        ElectionStart::Stand(campaign) => campaign,
        _ => panic!("the third participant stands"),
    };
    let mut state = context.state();
    state.term = campaign.previous_term;
    state.coordinator = campaign.previous_coordinator;
    state.window = context.window + 1;
    state.checkpoint_generation = 4;
    state.checkpoint = None;
    assert!(take_recovery(&mut context, &campaign, node(3), node(1), &state));
    assert_eq!((context.checkpoint_generation, context.checkpoint), (5, Some(art(50))));
    state.checkpoint_generation = 6;
    state.checkpoint = Some(art(60));
    assert!(take_recovery(&mut context, &campaign, node(3), node(1), &state));
    assert_eq!((context.checkpoint_generation, context.checkpoint), (6, Some(art(60))));
}

#[test]
fn a_participant_wins_office_with_a_quorum() {
    let mut context = worker(3);
    let (run, action) = begin_campaign(&mut context, node(3), node(9));
    let mut run = run.unwrap();
    match action {
        CampaignAction::Ask { election, peers, again } => {
            assert_eq!(election.term, 2);
            assert_eq!(peers, vec![node(1), node(2), node(4)]);
            assert!(!again);
        }
        _ => panic!("the participants are asked"),
    }
    assert!(matches!(
        maybe_elect(&mut context, &mut run, CampaignEvent::Asked),
        CampaignAction::Wait
    ));
    let vote = TrainingAckKind::Vote { candidate: node(3), term: 2, last_window: 0, granted: true };
    let event = CampaignEvent::Ack { peer: node(1), ack: ack(1, 2, vote) };
    assert!(matches!(maybe_elect(&mut context, &mut run, event), CampaignAction::Wait));
    let event = CampaignEvent::Ack { peer: node(1), ack: ack(1, 2, vote) };
    assert!(matches!(maybe_elect(&mut context, &mut run, event), CampaignAction::Wait));
    let mut state: TrainingState = worker(1).state();
    state.window = 1;
    state.shards[0].generation = 1;
    let event = CampaignEvent::State { peer: node(1), state };
    assert!(matches!(maybe_elect(&mut context, &mut run, event), CampaignAction::Wait));
    assert_eq!(context.window, 1);
    let event = CampaignEvent::Ack { peer: node(2), ack: ack(2, 2, vote) };
    match maybe_elect(&mut context, &mut run, event) {
        CampaignAction::TakeOffice(state) => {
            assert_eq!((state.term, state.coordinator, state.window), (2, node(3), 1));
        }
        _ => panic!("three of four votes win"),
    }
    assert_eq!(context.role, Role::Coordinator);
    assert_eq!(next_turn(&context), (RunStage::Driving, RunAction::Drive));
}

#[test]
fn a_campaign_ends_without_a_quorum() {
    let mut context = worker(3);
    let (run, _) = begin_campaign(&mut context, node(3), node(9));
    let mut run = run.unwrap();
    for attempt in 0..3 {
        maybe_elect(&mut context, &mut run, CampaignEvent::Asked);
        let action = maybe_elect(&mut context, &mut run, CampaignEvent::TimedOut);
        if attempt < 2 {
            assert!(matches!(action, CampaignAction::Ask { again: true, .. }));
        } else {
            assert!(matches!(
                action,
                CampaignAction::NoQuorum(lost) if lost.received == 1 && lost.required == 3
            ));
        }
    }
    assert_eq!(context.term, 1);
}

#[test]
fn another_participant_stands_or_nobody() {
    // Aggregators stand only where nobody else is left.
    let mut context = worker(1);
    let (run, action) = begin_campaign(&mut context, node(1), node(9));
    assert!(run.is_none());
    assert!(matches!(action, CampaignAction::Defer(other) if other == node(3)));
    for n in 1..5 {
        context.failed.insert(node(n));
    }
    let (_, action) = begin_campaign(&mut context, node(1), node(9));
    assert!(matches!(action, CampaignAction::NoCandidate));
}

#[test]
fn a_campaign_gives_way_to_a_later_term() {
    let mut context = worker(3);
    let (run, _) = begin_campaign(&mut context, node(3), node(9));
    let mut run = run.unwrap();
    maybe_elect(&mut context, &mut run, CampaignEvent::Asked);
    let election = TrainingElection {
        job_id: job(),
        candidate: node(4),
        term: 3,
        membership_epoch: 1,
        branch: art(100),
        last_window: 0,
        last_state_hash: art(10),
    };
    let event = CampaignEvent::Election { peer: node(4), election };
    let way = maybe_elect(&mut context, &mut run, event);
    assert!(matches!(way, CampaignAction::GiveWay(Some(_))));
    assert_eq!(context.voted_term, 3);
}

#[test]
fn a_worker_looks_for_lost_peers() {
    let mut context = worker(3);
    let (stage, action) =
        run_context(&mut context, RunStage::Receiving, RunEvent::Disconnected(node(9)));
    assert_eq!(action, RunAction::Restore(node(9)));
    let gone = RunEvent::Reached { connected: true, reconnected: false };
    let (stage, action) = run_context(&mut context, stage, gone);
    assert_eq!((stage, action), (RunStage::Electing, RunAction::Elect(node(9))));
    let (stage, action) = run_context(&mut context, stage, RunEvent::Elected);
    assert_eq!((stage, action), (RunStage::Receiving, RunAction::Receive));
    let (stage, _) = run_context(&mut context, stage, RunEvent::Disconnected(node(1)));
    let gone = RunEvent::Reached { connected: false, reconnected: false };
    let (_, action) = run_context(&mut context, stage, gone);
    assert_eq!(action, RunAction::Receive);
    assert!(context.failed.contains(node(1)));
    for (stage, event, end) in [
        (RunStage::Receiving, RunEvent::TimedOut, RunEnd::TimedOut),
        (RunStage::Receiving, RunEvent::Closed, RunEnd::Closed),
        (RunStage::Driving, RunEvent::Finished, RunEnd::Result),
        (RunStage::Driving, RunEvent::DriveFailed, RunEnd::DriveFailed),
    ] {
        assert_eq!(run_context(&mut context, stage, event).1, RunAction::End(end));
    }
}

#[test]
fn workers_admit_jobs_that_are_theirs() {
    let start = starts().remove(2);
    assert_eq!(accept_start(&start, node(9), node(3), 1024, true), Ok(()));
    assert_eq!(accept_start(&start, node(1), node(3), 1024, true), Err(StartError::NotAuthorized));
    assert_eq!(accept_start(&start, node(9), node(3), 1024, false), Err(StartError::Invalid));
    assert_eq!(
        accept_start(&start, node(9), node(3), 1023, true),
        Err(StartError::TooLarge { required: 1024, budget: 1023 })
    );
    let mut admission = begin_admission(&vec![node(3), node(4)]);
    assert!(!admission_done(&admission));
    let admitted = |from: u128, n: u128| {
        AdmissionEvent::Ack { peer: node(from), ack: start_ack(&start, node(n)) }
    };
    let mut take = |event| start_coordinator(&mut admission, &start, event);
    assert_eq!(take(admitted(3, 3)), AdmissionStep::Wait);
    assert_eq!(take(AdmissionEvent::Disconnected(node(4))), AdmissionStep::Resend(node(4)));
    assert_eq!(take(AdmissionEvent::Disconnected(node(5))), AdmissionStep::Wait);
    assert_eq!(take(AdmissionEvent::TimedOut), AdmissionStep::Missing(vec![node(4)]));
    assert_eq!(take(admitted(4, 3)), AdmissionStep::Wait);
    assert_eq!(take(AdmissionEvent::Other), AdmissionStep::Wait);
    assert_eq!(take(admitted(4, 4)), AdmissionStep::Admitted);
}

#[test]
fn a_restart_takes_up_what_was_stored() {
    let start = starts().remove(2);
    assert!(takes_up(&start, node(3), true, false, &None, false));
    assert!(!takes_up(&start, node(3), true, true, &None, false));
    assert!(!takes_up(&start, node(9), true, false, &None, false));
    let mut state = worker(3).state();
    state.term = 4;
    state.window = 1;
    let shard = TrainingShardState {
        job_id: job(),
        owner: node(1),
        term: 1,
        membership_epoch: 1,
        branch: art(100),
        shard_id: 0,
        generation: 1,
        value: 2,
        optimizer: -51,
        state_hash: art(300),
    };
    let context = restore_context(start, &Some(state), Some((shard, art(300))));
    assert_eq!((context.term, context.window, context.value), (4, 1, 2));
    let other = restore_context(starts().remove(2), &None, Some((shard, art(1))));
    assert_eq!((other.term, other.value), (1, 0));
}

#[test]
fn names_of_reference_records() {
    assert_eq!(state_file("ab"), "training-v3-ab.json");
    assert_eq!(start_file("ab"), "training-v3-start-ab.json");
    assert_eq!(shard_file("ab", 12), "training-v3-shard-ab-12.json");
    assert_eq!(checkpoint_file("ff"), "training-v3-checkpoint-ff.json");
}
