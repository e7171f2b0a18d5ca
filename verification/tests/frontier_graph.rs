//! Graphs of integrated jobs: membership, probes, elections, the driver, checkpoints.

use distributed_training::base::ids::{ArtifactId, JobId, NodeId};
use distributed_training::base::members::NodeSet;
use distributed_training::base::ordered::OrdMap;
use distributed_training::base::record::{Duplicate, duplicate_all};
use distributed_training::frontier::authority::Inspection;
use distributed_training::frontier::backend::{BackendOption, plan_roles};
use distributed_training::frontier::candidacy::{
    Candidacy, CandidacyAction, CandidacyEvent, begin_candidacy, request_integrated_election,
};
use distributed_training::frontier::checkpoints::{
    CheckpointError, ProviderAction, ProviderEvent, begin_provider_run,
    commit_integrated_checkpoint, confirm_integrated_checkpoint, prune_checkpoint_history,
};
use distributed_training::frontier::control::{
    V4IntegratedAck, V4IntegratedElectionRecord, V4IntegratedElectionRequest,
    V4IntegratedElectionVote,
};
use distributed_training::frontier::delivery::{
    DeliveryAction, DeliveryError, DeliveryEvent, begin_delivery, deliver_v4_message,
    send_control_message,
};
use distributed_training::frontier::driver::{
    Driver, DriverAction, DriverEvent, TensorOutcome, drive, driver_fenced, integrated_result,
    run_integrated_driver,
};
use distributed_training::frontier::files::{
    StateFile, checkpoint_generation, classify_state_file, state_file_name,
};
use distributed_training::frontier::claims::{ClaimKind, graph_claim};
use distributed_training::frontier::graph_activation::{
    GraphAction, GraphActivationError, GraphEvent, activate_integrated_graph,
    begin_graph_activation,
};
use distributed_training::frontier::installation::{InstallAction, InstallError, Placed};
use distributed_training::frontier::integrated::{
    BuildError, SplitError, build_integrated_start, check_integrated_request,
    initial_tensor_weights, integrated_groups, integrated_state, integrated_tensor_layout,
    plan_integrated_job, required_shard_memory, split_integrated_reference_shards,
};
use distributed_training::frontier::local::{V4LocalDataShard, V4LocalPipelineStage};
use distributed_training::frontier::membership::{
    MembershipChange, ReconfigureError, branch_commit, may_reconfigure,
    reconfigure_integrated_graph_membership, transition_state,
};
use distributed_training::frontier::messages::{
    Route, TrainingV4Message, handle_message, message_job_id,
};
use distributed_training::frontier::policy::V4ReconciliationPolicy;
use distributed_training::frontier::probing::{
    IntegratedTakeoverOutcome, ParticipantStep, ProbeAckError, ProbeAction, ProbeError, ProbeEvent,
    SearchStep, begin_missing_search, begin_probe, find_joined_worker, first_unavailable_worker,
    has_integrated_reconfiguration_quorum, is_stable, is_terminal, live_members, participant_step,
    probe_integrated_members, receive_integrated_probe, receive_integrated_probe_ack,
    slowest_responsive_worker, takeover_choice, takeover_gate, takeover_probe_due,
};
use distributed_training::frontier::recovery::{
    RecoveryAction, RecoveryError, RecoveryEvent, RecoveryRun, SetupAction, SetupEvent,
    activate_and_install_integrated_graph, activate_integrated_graph_with_recovery, begin_recovery,
    begin_setup,
};
use distributed_training::frontier::replication::{V4StateAck, V4StateAckKind};
use distributed_training::frontier::restore::{
    Resume, StoredRecord, record_slot, restore, resume_integrated_jobs,
};
use distributed_training::frontier::start::{
    IntegratedStartError, IntegratedStateError, TakeUpAction, TakeUpEvent, begin_take_up,
    receive_integrated_start, receive_integrated_state, start_integrated, take_up_graph,
};
use distributed_training::frontier::takeover::{
    ParticipantAction, ParticipantEvent, TakeoverAction, TakeoverError, TakeoverEvent,
    TakeoverStep, begin_participant, begin_takeover, integrated_participant_loop,
    maybe_take_over_integrated_job,
};
use distributed_training::frontier::types::{
    BackendCapability, BackendHealth, BackendKind, ComputeRequirements, V4AcceleratorFamily,
    V4ExecutionGraph, V4IntegratedPhase, V4IntegratedStart, V4IntegratedStateRecord,
    V4ParallelismStrategy, V4PipelineStageAssignment, V4ShardLifecycle, V4ShardOwnership,
    V4TrainingPlan, V4WorkerCapability,
};
use distributed_training::frontier::voting::{
    BallotLost, ElectionError, StandError, VoteDecision, answer_election_request, election_delay_ms,
    receive_integrated_election_request, stand_for_election, valid_integrated_election_certificate,
};

fn node(n: u128) -> NodeId {
    NodeId { hi: 0, lo: n }
}

fn job() -> JobId {
    JobId { hi: 0, lo: 7 }
}

fn art(n: u128) -> ArtifactId {
    ArtifactId { hi: 0, lo: n }
}

fn nodes(ids: &[u128]) -> Vec<NodeId> {
    ids.iter().map(|n| node(*n)).collect()
}

fn capability(n: u128) -> V4WorkerCapability {
    V4WorkerCapability {
        node: node(n),
        family: V4AcceleratorFamily::Cpu,
        device_model: "Cpu".to_string(),
        physical_verified: true,
        memory_bytes: 8192,
        compute_units: 1,
        rtt_ms: 5,
        bandwidth_mbps: 10,
        reliability_permille: 900,
        backends: vec![BackendCapability {
            kind: BackendKind::Cpu,
            runtime_available: true,
            health: BackendHealth::Healthy,
        }],
    }
}

fn shard(id: u16, owner: u128, replica: u128) -> V4ShardOwnership {
    V4ShardOwnership {
        shard_id: id,
        model_generation: 1,
        owners: nodes(&[owner]),
        replicas: nodes(&[replica]),
        ownership_generation: 1,
        content_hash: art(500 + id as u128),
        state_bytes: 64,
        memory_bytes: 128,
        runtime_requirement: "reference.cpu.i64.tensor-row".to_string(),
        lifecycle: V4ShardLifecycle::Active,
    }
}

/// A plan of node 1 over the given workers, with two shards.
fn plan(workers: &[u128]) -> V4TrainingPlan {
    V4TrainingPlan {
        job_id: job(),
        proposer: node(1),
        plan_generation: 1,
        parent_plan_hash: None,
        training_epoch: 1,
        membership_epoch: 1,
        coordination_term: 1,
        model_generation: 1,
        branch: art(100),
        strategy: V4ParallelismStrategy::Hybrid,
        tensor_degree: 2,
        pipeline_stages: 2,
        local_steps: 1,
        max_staleness: 2,
        checkpoint_replication: 2,
        workers: nodes(workers),
        worker_capabilities: workers.iter().map(|n| capability(*n)).collect(),
        groups: Vec::new(),
        shards: vec![shard(0, 1, 3), shard(1, 2, 4)],
        compute_requirements: Vec::new(),
        backend_assignments: Vec::new(),
        plan_hash: art(600),
    }
}

const JOB: &str = "0a1b";

fn set(ids: &[u128]) -> NodeSet {
    NodeSet::from_ids(&nodes(ids))
}

fn stages_of(workers: &[u128]) -> (V4TrainingPlan, Vec<V4PipelineStageAssignment>) {
    plan_integrated_job(plan(workers), 4, &vec![art(10), art(11)]).unwrap()
}

/// A graph of a job that node 90 started; its members are the given workers.
fn graph(workers: &[u128]) -> V4ExecutionGraph {
    let (job_plan, stages) = stages_of(workers);
    let mut out = build_integrated_start(&job_plan, &stages, node(90));
    out.graph_hash = art(300);
    out
}

fn running(g: &V4ExecutionGraph) -> V4IntegratedStateRecord {
    let mut state = integrated_state(g, V4IntegratedPhase::Running, 0, 2, 0, 0, 0);
    state.state_hash = art(301);
    state
}

/// An option for every role of a plan, whoever takes it.
fn options(workers: &[u128]) -> Vec<BackendOption> {
    let (job_plan, stages) = stages_of(&workers[..4]);
    let mut out = Vec::new();
    for worker in workers {
        for role in plan_roles(&job_plan, &stages) {
            out.push(BackendOption {
                worker: node(*worker),
                task_kind: role.task_kind,
                backend: BackendKind::Cpu,
                requirements: ComputeRequirements {
                    required_backend: None,
                    allowed_backends: Vec::new(),
                    fallback_backends: Vec::new(),
                    fallback_allowed: false,
                },
                satisfied: true,
            });
        }
    }
    out
}

fn change(failed: Option<u128>, joined: Option<u128>) -> MembershipChange {
    MembershipChange {
        failed: failed.map(node),
        joined: joined.map(node),
        shown: joined.map(capability),
        branch: art(101),
        certificate: nodes(&[2, 3, 4]),
        split_hashes: vec![art(20), art(21), art(22), art(23)],
    }
}

#[test]
fn requests_for_integrated_jobs_are_bounded() {
    assert_eq!(check_integrated_request(4, 1, 1), Ok(()));
    assert_eq!(check_integrated_request(3, 1, 1), Err(BuildError::WorkerCount));
    assert_eq!(check_integrated_request(17, 1, 1), Err(BuildError::WorkerCount));
    assert_eq!(check_integrated_request(4, 0, 1), Err(BuildError::Windows));
    assert_eq!(check_integrated_request(4, 4097, 1), Err(BuildError::Windows));
    assert_eq!(check_integrated_request(4, 4096, 0), Err(BuildError::Windows));
    assert_eq!(required_shard_memory(4), 2048);
    assert_eq!(required_shard_memory(0), 4096);
    assert_eq!(required_shard_memory(3), 2732);
    assert_eq!(start_integrated(0), 30);
    assert_eq!(start_integrated(4), 70);
}

#[test]
fn first_graphs_spread_their_roles() {
    let few = plan_integrated_job(plan(&[1, 2, 3]), 2, &vec![art(10), art(11)]);
    assert_eq!(few, Err(BuildError::TooFewSelected(3)));
    let (job_plan, stages) = stages_of(&[1, 2, 3, 4, 5]);
    assert_eq!(job_plan.proposer, node(1));
    assert_eq!(stages[0].worker, node(3));
    assert_eq!(stages[1].worker, node(4));
    let g = graph(&[1, 2, 3, 4, 5]);
    assert_eq!(g.coordinator, node(1));
    assert_eq!(g.shards[0].owners, nodes(&[1]));
    assert_eq!(g.shards[1].replicas, nodes(&[4]));
    assert_eq!(g.tensor_groups[0].shard_ids, vec![0, 1]);
    assert_eq!(g.optimizer_shards[1].owner, node(2));
    assert_eq!(g.reply_to, node(90));
    // Two groups of two and three, each led by somebody but the coordinator.
    assert_eq!(g.aggregation_groups[0].members, nodes(&[1, 2]));
    assert_eq!(g.aggregation_groups[0].aggregator, node(2));
    assert_eq!(g.aggregation_groups[1].members, nodes(&[3, 4, 5]));
    assert_eq!(g.aggregation_groups[1].parent, Some(node(2)));
    let one = integrated_groups(&nodes(&[7, 8]), node(7));
    assert_eq!(one.len(), 1);
    assert_eq!((one[0].aggregator, one[0].parent), (node(8), None));
}

#[test]
fn reference_weights_and_their_layout() {
    assert_eq!(initial_tensor_weights(0), vec![1, 0, 0, 1, 1, 1, 2, 0]);
    assert_eq!(initial_tensor_weights(1), vec![0, 2, 1, 1, 1, 0, 1, 2]);
    let two = integrated_tensor_layout(1, 2);
    assert_eq!(two, (vec![0, 2, 1, 1, 1, 0, 1, 2], 2, 4, 2));
    // The four one-row shards hold the rows of the two two-row shards in order.
    let mut rows = Vec::new();
    for id in 2..6 {
        let (weights, count, cols, offset) = integrated_tensor_layout(id, 4);
        assert_eq!((count, cols, offset), (1, 4, id - 2));
        rows.extend(weights);
    }
    let mut whole = initial_tensor_weights(0);
    whole.extend(initial_tensor_weights(1));
    assert_eq!(rows, whole);
}

#[test]
fn reference_shards_are_split_in_rows() {
    let sources = plan(&[1, 2, 3, 4]).shards;
    let hashes = vec![art(20), art(21), art(22), art(23)];
    let parts = split_integrated_reference_shards(&sources, &nodes(&[1, 2, 3, 4]), &hashes).unwrap();
    assert_eq!(parts.iter().map(|p| p.shard_id).collect::<Vec<_>>(), vec![2, 3, 4, 5]);
    assert_eq!(parts[3].owners, nodes(&[4]));
    assert_eq!(parts[3].replicas, nodes(&[1, 2]));
    assert_eq!((parts[3].state_bytes, parts[3].memory_bytes), (32, 64));
    assert_eq!(parts[3].ownership_generation, 2);
    assert_eq!(parts[3].content_hash, art(23));
    let few = split_integrated_reference_shards(&sources, &nodes(&[1, 2]), &hashes);
    assert_eq!(few, Err(SplitError::Shape));
    let mut other = duplicate_all(&sources);
    other[1].shard_id = 2;
    let wrong = split_integrated_reference_shards(&other, &nodes(&[1, 2, 3, 4]), &hashes);
    assert_eq!(wrong, Err(SplitError::SourceIdentity));
}

#[test]
fn a_lost_member_is_replaced() {
    let g = graph(&[1, 2, 3, 4]);
    let (job_plan, _) = stages_of(&[1, 2, 3, 4]);
    let (next, next_plan) = reconfigure_integrated_graph_membership(
        node(2), &g, &job_plan, &running(&g), &change(Some(1), None), &options(&[1, 2, 3, 4]),
    )
    .unwrap();
    assert_eq!(next.workers, nodes(&[2, 3, 4]));
    assert_eq!((next.graph_generation, next.parent_graph_generation), (2, Some(1)));
    assert_eq!((next.coordinator, next.coordination_term), (node(2), 2));
    assert_eq!(next.branch, art(101));
    assert_eq!(next.retired_workers, nodes(&[1]));
    assert_eq!(next.election_certificate, nodes(&[2, 3, 4]));
    // The replica takes the lost member's shard over.
    assert_eq!(next.shards[0].owners, nodes(&[3]));
    assert_eq!(next.shards[0].replicas, nodes(&[2, 4]));
    assert_eq!(next.shards[0].ownership_generation, 2);
    let all = next.pipeline_stages.iter().map(|s| s.worker).collect::<Vec<_>>();
    assert_eq!(all.len(), 2);
    assert_ne!(all[0], all[1]);
    assert_eq!(next_plan.parent_plan_hash, Some(art(600)));
    assert_eq!(next_plan.membership_epoch, 2);
    assert!(next.shards.iter().all(|s| !s.owners.contains(&node(1))));
    let commit = branch_commit(&g, &next, node(1), V4ReconciliationPolicy::SelectBranch);
    assert_eq!((commit.parent_branch, commit.branch), (art(100), art(101)));
    let state = transition_state(&next, &running(&g));
    assert_eq!((state.phase, state.recovery_count), (V4IntegratedPhase::Reconfiguring, 1));
}

#[test]
fn a_live_stage_worker_keeps_its_stage() {
    let mut g = graph(&[1, 2, 3, 4]);
    let (job_plan, _) = stages_of(&[1, 2, 3, 4]);
    // The first replica of the lost stage runs the other stage.
    g.pipeline_stages[0].replicas = nodes(&[4, 2]);
    let (next, _) = reconfigure_integrated_graph_membership(
        node(1), &g, &job_plan, &running(&g), &change(Some(3), None), &options(&[1, 2, 3, 4]),
    )
    .unwrap();
    let workers: Vec<NodeId> = next.pipeline_stages.iter().map(|s| s.worker).collect();
    assert_eq!(workers, nodes(&[2, 4]));
}

#[test]
fn an_early_newcomer_splits_the_shards() {
    let g = graph(&[1, 2, 3, 4]);
    let (job_plan, _) = stages_of(&[1, 2, 3, 4]);
    let (next, _) = reconfigure_integrated_graph_membership(
        node(1), &g, &job_plan, &running(&g), &change(None, Some(5)), &options(&[1, 2, 3, 4, 5]),
    )
    .unwrap();
    assert_eq!(next.workers, nodes(&[1, 2, 3, 4, 5]));
    assert_eq!(next.branch, art(100));
    assert_eq!(next.tensor_groups[0].shard_ids, vec![2, 3, 4, 5]);
    let mut late = running(&g);
    late.window = 1;
    let (next, _) = reconfigure_integrated_graph_membership(
        node(1), &g, &job_plan, &late, &change(None, Some(5)), &options(&[1, 2, 3, 4, 5]),
    )
    .unwrap();
    assert_eq!(next.tensor_groups[0].shard_ids, vec![0, 1]);
}

#[test]
fn reconfigurations_that_fail() {
    let g = graph(&[1, 2, 3, 4]);
    let (job_plan, _) = stages_of(&[1, 2, 3, 4]);
    let all = options(&[1, 2, 3, 4, 5]);
    let mut single = g.duplicate();
    single.workers = nodes(&[1, 2]);
    let try_with = |g: &V4ExecutionGraph, c: MembershipChange, o: &Vec<BackendOption>| {
        reconfigure_integrated_graph_membership(node(1), g, &job_plan, &running(g), &c, o)
    };
    assert_eq!(
        try_with(&single, change(Some(2), None), &all),
        Err(ReconfigureError::TooFewWorkers)
    );
    let mut wide = g.duplicate();
    wide.workers = nodes(&[1, 2, 3, 3, 3, 3]);
    assert_eq!(
        try_with(&wide, change(Some(1), None), &all),
        Err(ReconfigureError::NoQuorum { live: 2, total: 6 })
    );
    let mut unseen = change(None, Some(5));
    unseen.shown = None;
    assert_eq!(try_with(&g, unseen, &all), Err(ReconfigureError::NoCapability));
    let unbound = try_with(&g, change(Some(4), None), &Vec::new());
    assert!(matches!(unbound, Err(ReconfigureError::Backend(_))));
    let mut renamed = job_plan.duplicate();
    renamed.shards[0].shard_id = 8;
    let split = reconfigure_integrated_graph_membership(
        node(1), &g, &renamed, &running(&g), &change(None, Some(5)), &all,
    );
    assert_eq!(split, Err(ReconfigureError::Split(SplitError::SourceIdentity)));
    // A shard without an owner can only be split.
    let mut ownerless = job_plan.duplicate();
    ownerless.shards[0].owners.clear();
    assert!(may_reconfigure(&g, &job_plan, 1, Some(node(4)), None));
    assert!(!may_reconfigure(&g, &ownerless, 0, Some(node(4)), None));
    assert!(may_reconfigure(&g, &ownerless, 0, None, Some(node(5))));
    assert!(!may_reconfigure(&g, &ownerless, 1, None, Some(node(5))));
}

#[test]
fn probes_confirm_members() {
    let g = graph(&[1, 2, 3, 4]);
    let request = JobId { hi: 1, lo: 1 };
    let (probe, mut run, action) = begin_probe(node(2), &g, art(301), request);
    assert_eq!(probe.graph_hash, art(300));
    let ack = receive_integrated_probe(node(3), node(2), &probe, true, Some(&g)).unwrap();
    assert!(ack.accepted);
    assert_eq!(action, ProbeAction::Ask(node(1)));
    let early = probe_integrated_members(&mut run, ProbeEvent::Ack(node(3), ack));
    assert_eq!(early, ProbeAction::Ignore);
    let mut asked = |reached| probe_integrated_members(&mut run, ProbeEvent::Asked(reached));
    assert_eq!(asked(false), ProbeAction::Ask(node(3)));
    assert_eq!(asked(true), ProbeAction::Ask(node(4)));
    assert_eq!(asked(true), ProbeAction::Wait);
    let stray = probe_integrated_members(&mut run, ProbeEvent::Ack(node(4), ack));
    assert_eq!(stray, ProbeAction::Wait);
    assert!(!run.round.confirmed.contains(node(4)));
    let first = probe_integrated_members(&mut run, ProbeEvent::Ack(node(3), ack));
    assert_eq!(first, ProbeAction::Wait);
    assert!(run.round.confirmed.contains(node(3)));
    let other = probe_integrated_members(&mut run, ProbeEvent::OtherMessage);
    assert_eq!(other, ProbeAction::Wait);
    let mut last = ack;
    last.responder = node(4);
    let done = probe_integrated_members(&mut run, ProbeEvent::Ack(node(4), last));
    assert_eq!(done, ProbeAction::Done);
    let (_, mut silent, _) = begin_probe(node(2), &g, art(301), request);
    for _ in 0..3 {
        probe_integrated_members(&mut silent, ProbeEvent::Asked(true));
    }
    let over = probe_integrated_members(&mut silent, ProbeEvent::NoMessage);
    assert_eq!(over, ProbeAction::Done);
    assert!(silent.round.confirmed.is_empty());
    let refuse = |peer: u128, valid: bool, g: Option<&V4ExecutionGraph>| {
        receive_integrated_probe(node(3), node(peer), &probe, valid, g)
    };
    assert_eq!(refuse(2, false, Some(&g)), Err(ProbeError::Invalid));
    assert_eq!(refuse(4, true, Some(&g)), Err(ProbeError::Sender));
    assert_eq!(refuse(2, true, None), Err(ProbeError::UnknownGraph));
    assert_eq!(receive_integrated_probe_ack(node(3), &ack, true, true), Ok(()));
    let late = receive_integrated_probe_ack(node(3), &ack, true, false);
    assert_eq!(late, Err(ProbeAckError::UnknownJob));
    let foreign = receive_integrated_probe_ack(node(4), &ack, true, true);
    assert_eq!(foreign, Err(ProbeAckError::Sender));
    let broken = receive_integrated_probe_ack(node(3), &ack, false, true);
    assert_eq!(broken, Err(ProbeAckError::Invalid));
}

#[test]
fn lost_coordinators_are_replaced_step_by_step() {
    let g = graph(&[1, 2, 3, 4]);
    let begin = |phase| begin_takeover(Some(phase));
    let outcome = |outcome| (TakeoverStep::Over, TakeoverAction::Outcome(outcome));
    assert_eq!(
        begin_takeover(None),
        (TakeoverStep::Over, TakeoverAction::Fail(TakeoverError::Unknown))
    );
    assert_eq!(begin(V4IntegratedPhase::Failed), outcome(IntegratedTakeoverOutcome::Terminal));
    assert_eq!(
        begin(V4IntegratedPhase::Preparing),
        outcome(IntegratedTakeoverOutcome::TransitionInProgress)
    );
    let (probing, action) = begin(V4IntegratedPhase::Running);
    assert_eq!(action, TakeoverAction::Probe);
    let step = |step, event| maybe_take_over_integrated_job(step, &g, node(2), 2, event);
    assert_eq!(
        step(probing, TakeoverEvent::Probed(set(&[1, 3]))),
        outcome(IntegratedTakeoverOutcome::CoordinatorAlive)
    );
    let (voting, action) = step(probing, TakeoverEvent::Probed(set(&[3, 4])));
    assert_eq!(action, TakeoverAction::RequestVotes);
    assert_eq!(
        step(voting, TakeoverEvent::Elected(false)).1,
        TakeoverAction::Fail(TakeoverError::NotElected)
    );
    assert_eq!(step(voting, TakeoverEvent::Driven(true)), (voting, TakeoverAction::Ignore));
    let (changing, action) = step(voting, TakeoverEvent::Elected(true));
    assert_eq!(action, TakeoverAction::ChangeGraph);
    assert_eq!(
        step(changing, TakeoverEvent::Changed(false)).1,
        TakeoverAction::Fail(TakeoverError::NotChanged)
    );
    let (driving, action) = step(changing, TakeoverEvent::Changed(true));
    assert_eq!(action, TakeoverAction::Drive);
    assert_eq!(
        step(driving, TakeoverEvent::Driven(false)).1,
        TakeoverAction::Fail(TakeoverError::NotDriven)
    );
    assert_eq!(
        step(driving, TakeoverEvent::Driven(true)),
        outcome(IntegratedTakeoverOutcome::ReplacementCompleted)
    );
}

#[test]
fn participants_count_the_looks_that_miss() {
    let mut run = begin_participant();
    let missing = Some(IntegratedTakeoverOutcome::CoordinatorMissingWithoutQuorum);
    let mut next = |event| integrated_participant_loop(&mut run, event);
    assert_eq!(next(ParticipantEvent::Message), ParticipantAction::Listen);
    assert_eq!(next(ParticipantEvent::Checked(true)), ParticipantAction::Ignore);
    assert_eq!(next(ParticipantEvent::PeerLeft), ParticipantAction::Look { pause: true });
    assert_eq!(next(ParticipantEvent::Looked(missing)), ParticipantAction::Listen);
    assert_eq!(
        next(ParticipantEvent::Quiet { look_due: true }),
        ParticipantAction::Look { pause: false }
    );
    assert_eq!(next(ParticipantEvent::Looked(missing)), ParticipantAction::Check);
    assert_eq!(next(ParticipantEvent::Checked(false)), ParticipantAction::Listen);
    assert_eq!(run.misses, 2);
    let mut next = |event| integrated_participant_loop(&mut run, event);
    next(ParticipantEvent::PeerLeft);
    assert_eq!(next(ParticipantEvent::Looked(None)), ParticipantAction::Listen);
    assert_eq!(run.misses, 2);
    let mut next = |event| integrated_participant_loop(&mut run, event);
    next(ParticipantEvent::PeerLeft);
    let alive = Some(IntegratedTakeoverOutcome::CoordinatorAlive);
    assert_eq!(next(ParticipantEvent::Looked(alive)), ParticipantAction::Listen);
    assert_eq!(run.misses, 0);
    let mut next = |event| integrated_participant_loop(&mut run, event);
    assert_eq!(next(ParticipantEvent::Quiet { look_due: false }), ParticipantAction::Check);
    assert_eq!(next(ParticipantEvent::Checked(true)), ParticipantAction::Leave);
    let mut other = begin_participant();
    integrated_participant_loop(&mut other, ParticipantEvent::PeerLeft);
    let ended = Some(IntegratedTakeoverOutcome::Terminal);
    assert_eq!(
        integrated_participant_loop(&mut other, ParticipantEvent::Looked(ended)),
        ParticipantAction::Leave
    );
    let mut closed = begin_participant();
    assert_eq!(
        integrated_participant_loop(&mut closed, ParticipantEvent::Closed),
        ParticipantAction::Leave
    );
}

#[test]
fn takeover_needs_a_majority_and_three_misses() {
    let g = graph(&[1, 2, 3, 4]);
    let choose_at = |n: u128, seen: &[u128], misses: u8| {
        takeover_choice(node(n), &g, &set(seen), misses)
    };
    assert_eq!(choose_at(2, &[1, 3], 5), Some(IntegratedTakeoverOutcome::CoordinatorAlive));
    let early = choose_at(2, &[3, 4], 1);
    assert_eq!(early, Some(IntegratedTakeoverOutcome::CoordinatorMissingWithoutQuorum));
    let alone = choose_at(2, &[3], 5);
    assert_eq!(alone, Some(IntegratedTakeoverOutcome::CoordinatorMissingWithoutQuorum));
    assert_eq!(choose_at(2, &[3, 4], 2), None);
    assert_eq!(choose_at(3, &[2, 4], 2), Some(IntegratedTakeoverOutcome::AnotherCandidate));
    assert_eq!(
        takeover_gate(V4IntegratedPhase::Failed),
        Some(IntegratedTakeoverOutcome::Terminal)
    );
    assert_eq!(
        takeover_gate(V4IntegratedPhase::Preparing),
        Some(IntegratedTakeoverOutcome::TransitionInProgress)
    );
    assert_eq!(takeover_gate(V4IntegratedPhase::Partitioned), None);
    assert!(is_terminal(V4IntegratedPhase::Committed) && is_stable(V4IntegratedPhase::Running));
    let missed = IntegratedTakeoverOutcome::CoordinatorMissingWithoutQuorum;
    assert_eq!(participant_step(1, Some(missed)), ParticipantStep::Continue(2));
    assert_eq!(participant_step(255, Some(missed)), ParticipantStep::Continue(255));
    let alive = IntegratedTakeoverOutcome::CoordinatorAlive;
    assert_eq!(participant_step(2, Some(alive)), ParticipantStep::Continue(0));
    assert_eq!(participant_step(2, None), ParticipantStep::Continue(2));
    let done = IntegratedTakeoverOutcome::ReplacementCompleted;
    assert_eq!(participant_step(2, Some(done)), ParticipantStep::Leave);
    assert!(takeover_probe_due(2_000) && !takeover_probe_due(1_999));
}

#[test]
fn members_are_gone_after_two_missed_rounds() {
    let g = graph(&[1, 2, 3, 4]);
    let mut search = begin_missing_search();
    let first = first_unavailable_worker(&mut search, node(1), &g, &set(&[2]));
    assert_eq!(first, SearchStep::ProbeAgain);
    let second = first_unavailable_worker(&mut search, node(1), &g, &set(&[2, 3]));
    assert_eq!(second, SearchStep::Unavailable(node(4)));
    let mut search = begin_missing_search();
    let quiet = first_unavailable_worker(&mut search, node(1), &g, &set(&[2, 3, 4]));
    assert_eq!(quiet, SearchStep::NoneFound);
    let mut search = begin_missing_search();
    first_unavailable_worker(&mut search, node(1), &g, &set(&[2, 3]));
    let other = first_unavailable_worker(&mut search, node(1), &g, &set(&[2, 4]));
    assert_eq!(other, SearchStep::NoneFound);
    assert_eq!(slowest_responsive_worker(node(1), &g, &set(&[3])), Some(node(2)));
    assert_eq!(slowest_responsive_worker(node(1), &g, &set(&[2, 3, 4])), None);
    assert!(has_integrated_reconfiguration_quorum(node(1), &g, &set(&[2, 3]), node(4)));
    assert!(!has_integrated_reconfiguration_quorum(node(1), &g, &set(&[2, 4]), node(4)));
    assert_eq!(find_joined_worker(&g, &nodes(&[1, 7, 5])), Some(node(5)));
    let mut left = g.duplicate();
    left.retired_workers = nodes(&[5]);
    assert_eq!(find_joined_worker(&left, &nodes(&[5, 7])), Some(node(7)));
    assert_eq!(live_members(&g.workers, node(1), &set(&[3])), nodes(&[1, 3]));
}

#[test]
fn votes_are_given_once_for_each_term() {
    let g = graph(&[1, 2, 3, 4]);
    let state = running(&g);
    let (own, request) =
        stand_for_election(node(2), &g, &state, &set(&[3, 4]), Some(&g), Some(&state), None).unwrap();
    assert_eq!((own.term, own.candidate), (2, node(2)));
    let judge = |n: u128, from: u128, r: &V4IntegratedElectionRequest, existing| {
        let decision = receive_integrated_election_request(
            node(n), node(from), r, true, Some(&g), Some(&state), existing,
        )
        .unwrap();
        let vote = answer_election_request(node(n), r, &decision, true).unwrap();
        assert_eq!(vote.granted, matches!(decision, VoteDecision::Granted(_)));
        assert_eq!(vote.voter, node(n));
        decision
    };
    let given = match judge(3, 2, &request, None) {
        VoteDecision::Granted(record) => record,
        _ => panic!("the first candidate gets the vote"),
    };
    assert_eq!(given.candidate, node(2));
    let mut rival = request;
    rival.candidate = node(4);
    assert_eq!(judge(3, 4, &rival, Some(given)), VoteDecision::Taken);
    // A vote that was given on another graph counts for its term all the same.
    let mut elsewhere = given;
    elsewhere.graph_generation = 9;
    elsewhere.graph_hash = art(9);
    assert_eq!(judge(3, 4, &rival, Some(elsewhere)), VoteDecision::Taken);
    // A vote that could not be stored is not answered.
    let granted = VoteDecision::Granted(given);
    assert!(answer_election_request(node(3), &request, &granted, false).is_none());
    rival.term = 3;
    assert!(matches!(judge(3, 4, &rival, Some(given)), VoteDecision::Granted(_)));
    assert!(matches!(judge(3, 2, &request, Some(given)), VoteDecision::Granted(_)));
    assert_eq!(judge(3, 4, &request, None), VoteDecision::NotCandidate);
    let mut stranger = request;
    stranger.candidate = node(9);
    assert_eq!(judge(3, 9, &stranger, None), VoteDecision::NotMember);
    let mut stale = request;
    stale.graph_hash = art(1);
    assert_eq!(judge(3, 2, &stale, None), VoteDecision::StaleGraph);
    assert_eq!(judge(1, 2, &request, None), VoteDecision::IsCoordinator);
    let mut old = request;
    old.term = 1;
    assert_eq!(judge(3, 2, &old, None), VoteDecision::StaleTerm);
    let ask = |valid, graph, state| {
        receive_integrated_election_request(node(3), node(2), &request, valid, graph, state, None)
    };
    assert_eq!(ask(false, Some(&g), Some(&state)), Err(ElectionError::Invalid));
    assert_eq!(ask(true, None, Some(&state)), Err(ElectionError::UnknownGraph));
    assert_eq!(ask(true, Some(&g), None), Err(ElectionError::UnknownState));
    let mut moving = state;
    moving.phase = V4IntegratedPhase::Reconfiguring;
    assert_eq!(ask(true, Some(&g), Some(&moving)).unwrap(), VoteDecision::Unstable);
}

#[test]
fn candidates_stand_in_order() {
    let g = graph(&[1, 2, 3, 4]);
    let state = running(&g);
    assert_eq!(election_delay_ms(node(2), &g, &set(&[3, 4])), 0);
    assert_eq!(election_delay_ms(node(4), &g, &set(&[2, 3])), 300);
    let stand = |n: u128, current: Option<&V4ExecutionGraph>, now, existing| {
        stand_for_election(node(n), &g, &state, &set(&[2, 3, 4]), current, now, existing)
    };
    assert_eq!(stand(2, None, Some(&state), None), Err(StandError::GraphGone));
    assert_eq!(stand(2, Some(&g), None, None), Err(StandError::StateGone));
    assert_eq!(stand(3, Some(&g), Some(&state), None), Err(StandError::AnotherMember));
    let mut newer = g.duplicate();
    newer.graph_generation = 2;
    assert_eq!(stand(2, Some(&newer), Some(&state), None), Err(StandError::GraphChanged));
    let mut replaced = g.duplicate();
    replaced.coordinator = node(4);
    assert_eq!(stand(2, Some(&replaced), Some(&state), None), Err(StandError::Replaced));
    // A vote for somebody else in the next term keeps the member from voting
    // twice: it stands one term later.
    let given = V4IntegratedElectionRecord {
        job_id: job(),
        graph_generation: 1,
        graph_hash: art(300),
        term: 2,
        candidate: node(3),
        vote_hash: art(5),
    };
    let (own, _) = stand(2, Some(&g), Some(&state), Some(given)).unwrap();
    assert_eq!(own.term, 3);
    let mut elsewhere = given;
    elsewhere.graph_hash = art(9);
    let (own, _) = stand(2, Some(&g), Some(&state), Some(elsewhere)).unwrap();
    assert_eq!(own.term, 3);
    let mut last = given;
    last.term = u64::MAX;
    assert_eq!(stand(2, Some(&g), Some(&state), Some(last)), Err(StandError::Voted));
}

#[test]
fn ballots_are_won_by_a_majority() {
    let g = graph(&[1, 2, 3, 4]);
    let state = running(&g);
    let (_, request) =
        stand_for_election(node(2), &g, &state, &set(&[3, 4]), Some(&g), Some(&state), None).unwrap();
    let (mut run, action) = begin_candidacy(&g, &request);
    assert_eq!(action, CandidacyAction::Ask(node(1)));
    let step = |run: &mut Candidacy, event| request_integrated_election(run, &g, event);
    assert_eq!(step(&mut run, CandidacyEvent::Asked(false)), CandidacyAction::Ask(node(3)));
    assert_eq!(step(&mut run, CandidacyEvent::Asked(true)), CandidacyAction::Ask(node(4)));
    assert_eq!(step(&mut run, CandidacyEvent::Asked(true)), CandidacyAction::Wait);
    let vote = |from: u128, n: u128| {
        let vote = V4IntegratedElectionVote {
            job_id: job(),
            graph_generation: 1,
            graph_hash: art(300),
            term: 2,
            candidate: node(2),
            voter: node(n),
            granted: true,
        };
        CandidacyEvent::Vote(node(from), vote)
    };
    assert_eq!(step(&mut run, vote(3, 3)), CandidacyAction::Wait);
    assert_eq!(step(&mut run, vote(3, 3)), CandidacyAction::Wait);
    assert_eq!(step(&mut run, vote(1, 1)), CandidacyAction::Wait);
    assert_eq!(step(&mut run, vote(4, 3)), CandidacyAction::Wait);
    assert_eq!(step(&mut run, CandidacyEvent::OtherMessage), CandidacyAction::Wait);
    assert_eq!(step(&mut run, vote(4, 4)), CandidacyAction::Won(nodes(&[2, 3, 4])));
    assert_eq!(step(&mut run, vote(4, 4)), CandidacyAction::Ignore);
    let (mut alone, _) = begin_candidacy(&g, &request);
    step(&mut alone, CandidacyEvent::Asked(false));
    step(&mut alone, CandidacyEvent::Asked(false));
    let lost = CandidacyAction::Lost(BallotLost { votes: 1, quorum: 3 });
    assert_eq!(step(&mut alone, CandidacyEvent::Asked(false)), lost);
    let (mut late, _) = begin_candidacy(&g, &request);
    for _ in 0..3 {
        step(&mut late, CandidacyEvent::Asked(true));
    }
    assert_eq!(step(&mut late, CandidacyEvent::NoMessage), lost);
    // The graph that follows carries these votes.
    let (job_plan, _) = stages_of(&[1, 2, 3, 4]);
    let (next, _) = reconfigure_integrated_graph_membership(
        node(2), &g, &job_plan, &state, &change(Some(1), None), &options(&[1, 2, 3, 4]),
    )
    .unwrap();
    assert!(valid_integrated_election_certificate(&g, &next));
    let mut bare = next.duplicate();
    bare.election_certificate = nodes(&[2, 3]);
    assert!(!valid_integrated_election_certificate(&g, &bare));
    bare.election_certificate = nodes(&[2, 2, 3]);
    assert!(!valid_integrated_election_certificate(&g, &bare));
}

#[test]
fn graphs_are_taken_up_from_their_coordinator() {
    let g = graph(&[1, 2, 3, 4]);
    let (job_plan, _) = stages_of(&[1, 2, 3, 4]);
    let start = |graph: &V4ExecutionGraph| V4IntegratedStart {
        request_id: job(),
        graph: graph.duplicate(),
        plan: job_plan.duplicate(),
        windows: 2,
        checkpoint_every: 1,
        reply_to: node(90),
    };
    let take = |n: u128, from: u128, s: &V4IntegratedStart, current: Option<&V4ExecutionGraph>| {
        receive_integrated_start(node(n), node(from), s, true, false, current, None)
    };
    let lead = take(1, 90, &start(&g), None).unwrap();
    assert!(lead.leads && lead.reply_to == node(90));
    assert_eq!(lead.state.phase, V4IntegratedPhase::Preparing);
    let follow = take(2, 1, &start(&g), None).unwrap();
    assert!(!follow.leads && follow.reply_to == node(1) && follow.ack.worker == node(2));
    assert_eq!(take(2, 90, &start(&g), None), Err(IntegratedStartError::Unauthorized));
    assert_eq!(take(9, 1, &start(&g), None), Err(IntegratedStartError::Unauthorized));
    let mut later = g.duplicate();
    later.graph_generation = 5;
    assert_eq!(take(2, 1, &start(&g), Some(&later)), Err(IntegratedStartError::Stale));
    let mut twin = g.duplicate();
    twin.graph_hash = art(1);
    assert_eq!(take(2, 1, &start(&g), Some(&twin)), Err(IntegratedStartError::Conflict));
    let mut usurper = g.duplicate();
    usurper.graph_generation = 2;
    usurper.coordinator = node(3);
    usurper.proposer = node(3);
    assert_eq!(
        take(2, 3, &start(&usurper), Some(&g)),
        Err(IntegratedStartError::NoCertificate)
    );
    assert_eq!(
        receive_integrated_start(node(2), node(1), &start(&g), false, false, None, None),
        Err(IntegratedStartError::Invalid)
    );
    assert_eq!(
        receive_integrated_start(node(2), node(1), &start(&g), true, true, None, None),
        Err(IntegratedStartError::ConflictingClaim)
    );
    // A stored state is carried over to a later graph.
    let mut state = running(&g);
    state.window = 1;
    let mut next = g.duplicate();
    next.graph_generation = 2;
    let moved =
        receive_integrated_start(node(2), node(1), &start(&next), true, false, Some(&g), Some(state))
            .unwrap();
    assert_eq!((moved.state.window, moved.state.graph_generation), (1, 2));
    assert_eq!(moved.state.phase, V4IntegratedPhase::Reconfiguring);
}

#[test]
fn states_never_go_back() {
    let g = graph(&[1, 2, 3, 4]);
    let mut state = running(&g);
    state.window = 3;
    let mut older = state;
    older.window = 2;
    let take = |s: &V4IntegratedStateRecord, from: u128, stored| {
        receive_integrated_state(node(2), node(from), s, true, art(301), Some(&g), stored)
    };
    assert!(take(&state, 1, Some(older)).unwrap().accepted);
    assert!(!take(&older, 1, Some(state)).unwrap().accepted);
    assert!(!take(&state, 3, None).unwrap().accepted);
    assert_eq!(take(&state, 9, None), Err(IntegratedStateError::Unauthorized));
    let wrong = receive_integrated_state(node(2), node(1), &state, true, art(0), Some(&g), None);
    assert_eq!(wrong, Err(IntegratedStateError::HashMismatch));
    let invalid = receive_integrated_state(node(2), node(1), &state, false, art(301), Some(&g), None);
    assert_eq!(invalid, Err(IntegratedStateError::Invalid));
    let unknown = receive_integrated_state(node(2), node(1), &state, true, art(301), None, None);
    assert_eq!(unknown, Err(IntegratedStateError::UnknownGraph));
}

#[test]
fn mailboxes_open_before_the_answer() {
    let (g, job_plan) = (graph(&[1, 2, 3, 4]), stages_of(&[1, 2, 3, 4]).0);
    let start = V4IntegratedStart {
        request_id: job(),
        graph: g,
        plan: job_plan,
        windows: 2,
        checkpoint_every: 1,
        reply_to: node(90),
    };
    let take = |n: u128, peer: u128| {
        receive_integrated_start(node(n), node(peer), &start, true, false, None, None).unwrap()
    };
    let run = |n: u128, peer: u128, running: bool, reached: bool| {
        let (mut run, mut action) = begin_take_up(&take(n, peer), running);
        let mut seen = Vec::new();
        loop {
            seen.push(action);
            let event = match action {
                TakeUpAction::Store => TakeUpEvent::Stored(true),
                TakeUpAction::OpenMailbox => TakeUpEvent::Opened,
                TakeUpAction::Answer => TakeUpEvent::Answered(reached),
                TakeUpAction::CloseMailbox => TakeUpEvent::Closed,
                _ => return seen,
            };
            action = take_up_graph(&mut run, event);
        }
    };
    took_up(run(2, 1, false, true), TakeUpAction::Participate);
    took_up(run(1, 90, false, true), TakeUpAction::Lead);
    assert_eq!(
        run(2, 1, true, true),
        vec![TakeUpAction::Store, TakeUpAction::Answer, TakeUpAction::Stay]
    );
    assert_eq!(
        run(2, 1, false, false)[3..],
        [TakeUpAction::CloseMailbox, TakeUpAction::Unanswered]
    );
    assert_eq!(run(2, 1, true, false)[2], TakeUpAction::Unanswered);
    let (mut unstored, _) = begin_take_up(&take(2, 1), false);
    assert_eq!(
        take_up_graph(&mut unstored, TakeUpEvent::Stored(false)),
        TakeUpAction::NotStored
    );
    assert_eq!(take_up_graph(&mut unstored, TakeUpEvent::Opened), TakeUpAction::Ignore);
}

fn took_up(seen: Vec<TakeUpAction>, last: TakeUpAction) {
    let wanted =
        vec![TakeUpAction::Store, TakeUpAction::OpenMailbox, TakeUpAction::Answer, last];
    assert_eq!(seen, wanted);
}

#[test]
fn graphs_come_into_force_after_every_answer() {
    let g = graph(&[1, 2, 3, 4]);
    let claim = graph_claim(&g);
    assert_eq!((claim.kind, claim.generation), (ClaimKind::ExecutionGraph, 1));
    assert_eq!((claim.epoch, claim.hash), (g.coordination_term.max(1), art(300)));
    let (mut run, action) = begin_graph_activation(&g, node(1));
    assert_eq!(action, GraphAction::Send(nodes(&[2, 3, 4])));
    assert_eq!(activate_integrated_graph(&mut run, GraphEvent::TimeOver), GraphAction::Ignore);
    assert_eq!(activate_integrated_graph(&mut run, GraphEvent::Sent), GraphAction::Wait);
    for n in [2, 3, 4] {
        let ack = V4IntegratedAck {
            job_id: job(),
            graph_generation: 1,
            worker: node(n),
            accepted: true,
        };
        let stray = activate_integrated_graph(&mut run, GraphEvent::Ack(node(9), ack));
        assert_eq!(stray, GraphAction::Wait);
        let action = activate_integrated_graph(&mut run, GraphEvent::Ack(node(n), ack));
        if n == 2 {
            assert_eq!(action, GraphAction::Wait);
            let again = activate_integrated_graph(&mut run, GraphEvent::RetryDue);
            assert_eq!(again, GraphAction::Send(nodes(&[3, 4])));
            activate_integrated_graph(&mut run, GraphEvent::Sent);
        } else if n == 4 {
            assert_eq!(action, GraphAction::AnnouncePlan);
        }
    }
    let taken = activate_integrated_graph(&mut run, GraphEvent::PlanTaken(true));
    assert_eq!(taken, GraphAction::InForce);
    let failed = |event| {
        let (mut run, _) = begin_graph_activation(&g, node(1));
        activate_integrated_graph(&mut run, GraphEvent::Sent);
        activate_integrated_graph(&mut run, event)
    };
    let missing = GraphActivationError::Missing(3);
    assert_eq!(failed(GraphEvent::TimeOver), GraphAction::Fail(missing));
    assert_eq!(failed(GraphEvent::Closed), GraphAction::Fail(GraphActivationError::Closed));
    let mut single = graph(&[1, 2, 3, 4]);
    single.workers = nodes(&[1]);
    let (mut alone, action) = begin_graph_activation(&single, node(1));
    assert_eq!(action, GraphAction::AnnouncePlan);
    assert_eq!(
        activate_integrated_graph(&mut alone, GraphEvent::PlanTaken(false)),
        GraphAction::Fail(GraphActivationError::PlanNotTaken)
    );
}

#[test]
fn a_graph_runs_once_everything_is_installed() {
    let (mut step, action) = begin_setup();
    assert_eq!(action, SetupAction::Announce);
    let mut take = |event| activate_and_install_integrated_graph(&mut step, &event);
    let early = SetupEvent::Installed(Placed::Tensors, InstallAction::Done);
    assert_eq!(take(early), SetupAction::Ignore);
    let announced = take(SetupEvent::Announced(GraphAction::InForce));
    assert_eq!(announced, SetupAction::Install(Placed::Tensors));
    let tensors = take(SetupEvent::Installed(Placed::Tensors, InstallAction::Done));
    assert_eq!(tensors, SetupAction::Install(Placed::Optimizers));
    let optimizers = take(SetupEvent::Installed(Placed::Optimizers, InstallAction::Done));
    assert_eq!(optimizers, SetupAction::Install(Placed::Stages));
    let stages = take(SetupEvent::Installed(Placed::Stages, InstallAction::Done));
    assert_eq!(stages, SetupAction::Ready);
    let (mut step, _) = begin_setup();
    let failed = SetupEvent::Announced(GraphAction::Fail(GraphActivationError::Closed));
    assert_eq!(activate_and_install_integrated_graph(&mut step, &failed), SetupAction::Fail);
}

#[test]
fn a_graph_transition_outlives_lost_members() {
    let g = graph(&[1, 2, 3, 4]);
    let mut old = running(&g);
    old.phase = V4IntegratedPhase::Reconfiguring;
    let step = |run: &mut RecoveryRun, event| {
        activate_integrated_graph_with_recovery(run, &g, &event)
    };
    let setup = |event| RecoveryEvent::Setup(event);
    let (mut run, action) = begin_recovery(old, 2);
    assert_eq!(action, RecoveryAction::Announce);
    step(&mut run, setup(SetupEvent::Announced(GraphAction::InForce)));
    let no_answer = InstallAction::Fail(InstallError::NoAnswer);
    let failed = step(&mut run, setup(SetupEvent::Installed(Placed::Tensors, no_answer)));
    assert_eq!(failed, RecoveryAction::FindUnavailable);
    // Everyone is there: the same graph is tried again.
    assert_eq!(step(&mut run, RecoveryEvent::Unavailable(None)), RecoveryAction::Announce);
    assert_eq!(run.attempt, 2);
    step(&mut run, setup(SetupEvent::Announced(GraphAction::Wait)));
    let gone = step(&mut run, RecoveryEvent::Unavailable(Some(node(4))));
    assert_eq!(gone, RecoveryAction::CheckQuorum(node(4)));
    let mut split = run;
    assert_eq!(
        step(&mut split, RecoveryEvent::Quorum(false)),
        RecoveryAction::Fail(RecoveryError::NoQuorum(node(4)))
    );
    assert_eq!(
        step(&mut run, RecoveryEvent::Quorum(true)),
        RecoveryAction::Reconfigure(node(4))
    );
    let mut stuck = run;
    assert_eq!(
        step(&mut stuck, RecoveryEvent::Reconfigured(None)),
        RecoveryAction::Fail(RecoveryError::NotReconfigured)
    );
    // The last attempt has no successor.
    let mut last = run;
    last.attempt = 16;
    assert_eq!(
        step(&mut last, RecoveryEvent::Reconfigured(Some(old))),
        RecoveryAction::Fail(RecoveryError::Exhausted)
    );
    assert_eq!(
        step(&mut run, RecoveryEvent::Reconfigured(Some(old))),
        RecoveryAction::Announce
    );
    step(&mut run, setup(SetupEvent::Announced(GraphAction::InForce)));
    step(&mut run, setup(SetupEvent::Installed(Placed::Tensors, InstallAction::Done)));
    step(&mut run, setup(SetupEvent::Installed(Placed::Optimizers, InstallAction::Done)));
    let ready = step(&mut run, setup(SetupEvent::Installed(Placed::Stages, InstallAction::Done)));
    assert!(matches!(
        ready,
        RecoveryAction::Publish(state) if state.phase == V4IntegratedPhase::Running
    ));
    let mut unstored = run;
    assert_eq!(
        step(&mut unstored, RecoveryEvent::Published(None)),
        RecoveryAction::Fail(RecoveryError::NotPublished)
    );
    let done = step(&mut run, RecoveryEvent::Published(Some(art(302))));
    assert!(matches!(
        done,
        RecoveryAction::Done(state) if state.state_hash == art(302) && state.target_windows == 2
    ));
}

/// Drive through one window in which every round succeeds.
fn one_window(mut d: Driver, g: &V4ExecutionGraph, loss: i64) -> (Driver, DriverAction) {
    let mut action = DriverAction::Ignore;
    let events = [
        DriverEvent::GraphInForce(true),
        DriverEvent::Newcomer(None),
        DriverEvent::Unavailable(None),
        DriverEvent::TensorRound(Some(TensorOutcome { loss, steps: 2 })),
        DriverEvent::PipelineRound(true),
        DriverEvent::CollectiveRound(true),
    ];
    for event in events {
        (d, action) = drive(d, node(1), g, event);
    }
    (d, action)
}

#[test]
fn a_job_runs_to_its_last_window() {
    let g = graph(&[1, 2, 3, 4]);
    let (d, action) = run_integrated_driver(&g, running(&g), 2, 2, false);
    assert_eq!(action, DriverAction::Install);
    let (d, action) = drive(d, node(1), &g, DriverEvent::Installed);
    assert_eq!(action, DriverAction::Publish);
    let (d, action) = drive(d, node(1), &g, DriverEvent::Published(art(1)));
    assert_eq!(action, DriverAction::CheckGraph);
    let (d, action) = one_window(d, &g, 500);
    assert_eq!(action, DriverAction::Publish);
    assert_eq!((d.state.window, d.state.initial_loss_micros), (1, 500));
    let (d, _) = drive(d, node(1), &g, DriverEvent::Published(art(2)));
    let (d, action) = one_window(d, &g, 400);
    assert_eq!(action, DriverAction::CommitCheckpoint);
    let (d, action) = drive(d, node(1), &g, DriverEvent::Checkpoint(Some(2)));
    assert_eq!((action, d.state.checkpoint_generation), (DriverAction::Publish, 2));
    let (d, action) = drive(d, node(1), &g, DriverEvent::Published(art(3)));
    assert_eq!(action, DriverAction::Publish);
    assert_eq!(d.state.phase, V4IntegratedPhase::Committed);
    let (d, action) = drive(d, node(1), &g, DriverEvent::Published(art(4)));
    assert_eq!(action, DriverAction::Finish);
    assert_eq!((d.state.window, d.progress.window), (2, 2));
    let result = integrated_result(&d.progress, &g);
    assert_eq!((result.windows_completed, result.tensor_steps, result.pipeline_steps), (2, 4, 2));
    assert_eq!((result.initial_loss_micros, result.final_loss_micros), (500, 400));
    assert!(result.target_reached && result.backend_portable_checkpoint);
    assert_eq!((result.backend_tasks, result.max_update_fanin), (8, 2));
    assert!(!result.global_step_barrier && !result.all_updates_to_one_coordinator);
    let (_, action) = drive(d, node(1), &g, DriverEvent::Installed);
    assert_eq!(action, DriverAction::Ignore);
}

#[test]
fn losses_and_slow_members_are_driven_out() {
    let g = graph(&[1, 2, 3, 4]);
    let (d, action) = run_integrated_driver(&g, running(&g), 2, 1, true);
    assert_eq!(action, DriverAction::Publish);
    let (top, _) = drive(d, node(1), &g, DriverEvent::Published(art(1)));
    let (_, action) = drive(top, node(1), &g, DriverEvent::GraphInForce(false));
    assert_eq!(action, DriverAction::Fenced);
    let (d, action) = drive(top, node(1), &g, DriverEvent::GraphInForce(true));
    assert_eq!(action, DriverAction::FindNewcomer);
    let (join, action) = drive(d, node(1), &g, DriverEvent::Newcomer(Some(node(5))));
    assert_eq!(action, DriverAction::Admit(node(5)));
    let (join, action) = drive(join, node(1), &g, DriverEvent::Reconfigured(running(&g)));
    assert_eq!(action, DriverAction::Activate);
    assert_eq!(join.progress.join_allowed_after_window, 1);
    // Nobody else is admitted in the same window.
    let (join, _) = drive(join, node(1), &g, DriverEvent::Activated(running(&g)));
    let (_, action) = drive(join, node(1), &g, DriverEvent::GraphInForce(true));
    assert_eq!(action, DriverAction::FindUnavailable);
    let (d, _) = drive(d, node(1), &g, DriverEvent::Newcomer(None));
    let (lost, action) = drive(d, node(1), &g, DriverEvent::Unavailable(Some(node(4))));
    assert_eq!(action, DriverAction::CheckQuorum(node(4)));
    let (_, action) = drive(lost, node(1), &g, DriverEvent::Quorum(false));
    assert_eq!(action, DriverAction::Pause);
    let (lost, action) = drive(lost, node(1), &g, DriverEvent::Quorum(true));
    assert_eq!(action, DriverAction::Remove(node(4)));
    let (lost, _) = drive(lost, node(1), &g, DriverEvent::Reconfigured(running(&g)));
    assert_eq!((lost.progress.shard_recoveries, lost.progress.graph_reconfigurations), (1, 1));
    assert_eq!(lost.progress.coordinator_replacements, 0);
    // Two failed rounds in a row: a slow member is looked for.
    let (d, action) = drive(d, node(1), &g, DriverEvent::Unavailable(None));
    assert_eq!(action, DriverAction::RunTensorRound);
    let (d, action) = drive(d, node(1), &g, DriverEvent::TensorRound(None));
    assert_eq!(action, DriverAction::FindUnavailable);
    let (d, action) = drive(d, node(1), &g, DriverEvent::Unavailable(None));
    assert_eq!(action, DriverAction::ProbeAndPause);
    let (mut d, _) = drive(d, node(1), &g, DriverEvent::Paused);
    for event in [
        DriverEvent::GraphInForce(true),
        DriverEvent::Newcomer(None),
        DriverEvent::Unavailable(None),
        DriverEvent::TensorRound(None),
    ] {
        (d, _) = drive(d, node(1), &g, event);
    }
    let (d, action) = drive(d, node(1), &g, DriverEvent::Unavailable(None));
    assert_eq!(action, DriverAction::FindStraggler);
    let (_, action) = drive(d, node(1), &g, DriverEvent::Straggler(None));
    assert_eq!(action, DriverAction::ProbeAndPause);
    let (d, action) = drive(d, node(1), &g, DriverEvent::Straggler(Some(node(3))));
    assert_eq!(action, DriverAction::CheckQuorum(node(3)));
    let (_, action) = drive(d, node(1), &g, DriverEvent::Quorum(false));
    assert_eq!(action, DriverAction::ProbeAndPause);
    let (d, action) = drive(d, node(1), &g, DriverEvent::Quorum(true));
    assert_eq!(action, DriverAction::Remove(node(3)));
    let (slow, action) = drive(d, node(1), &g, DriverEvent::Reconfigured(running(&g)));
    assert_eq!((action, slow.progress.tensor_recoveries), (DriverAction::Activate, 1));
    let (settled, _) = drive(slow, node(1), &g, DriverEvent::Activated(running(&g)));
    assert_eq!((settled.progress.branch_reconciled, settled.progress.round_timeout_streak), (true, 0));
    let (_, action) = drive(slow, node(1), &g, DriverEvent::Failed);
    assert_eq!(action, DriverAction::Stop);
    assert!(!driver_fenced(Some(&g), &g, node(1)));
    assert!(driver_fenced(None, &g, node(1)));
    assert!(driver_fenced(Some(&g), &g, node(2)));
}

#[test]
fn checkpoints_name_all_holders() {
    let g = graph(&[1, 2, 3, 4]);
    let (job_plan, _) = stages_of(&[1, 2, 3, 4]);
    let mut tensors = OrdMap::new();
    let mut optimizers = OrdMap::new();
    let state = running(&g);
    let none = commit_integrated_checkpoint(&g, &job_plan, &tensors, &optimizers, &state, None);
    assert_eq!(none, Err(CheckpointError::MissingTensorShard));
    tensors.insert(0, art(40));
    tensors.insert(1, art(41));
    let half = commit_integrated_checkpoint(&g, &job_plan, &tensors, &optimizers, &state, None);
    assert_eq!(half, Err(CheckpointError::MissingOptimizerShard));
    optimizers.insert(1, art(43));
    optimizers.insert(0, art(42));
    let made = commit_integrated_checkpoint(
        &g, &job_plan, &tensors, &optimizers, &state, Some(art(39)),
    )
    .unwrap();
    assert_eq!(made.shard_hashes, vec![art(40), art(41), art(42), art(43)]);
    assert_eq!(made.providers, nodes(&[1, 2, 3, 4]));
    assert_eq!((made.checkpoint_generation, made.parent), (2, Some(art(39))));
    let mut signed = made.duplicate();
    signed.manifest_hash = art(50);
    let (mut run, mut action) = begin_provider_run(node(1), &signed);
    for n in [2, 3, 4] {
        assert_eq!(action, ProviderAction::Send(node(n)));
        action = confirm_integrated_checkpoint(&mut run, ProviderEvent::Sent(true));
    }
    assert_eq!(action, ProviderAction::Wait);
    for n in [2, 3, 4] {
        let mut ack = V4StateAck {
            job_id: job(),
            plan_generation: 1,
            generation: 2,
            kind: V4StateAckKind::TrainingState,
            state_hash: art(50),
            accepted: true,
        };
        let other = confirm_integrated_checkpoint(&mut run, ProviderEvent::Ack(node(n), ack));
        assert_eq!(other, ProviderAction::Wait);
        ack.kind = V4StateAckKind::Checkpoint;
        action = confirm_integrated_checkpoint(&mut run, ProviderEvent::Ack(node(n), ack));
    }
    assert_eq!(action, ProviderAction::Confirmed);
    let (mut lost, _) = begin_provider_run(node(1), &signed);
    assert_eq!(
        confirm_integrated_checkpoint(&mut lost, ProviderEvent::Sent(false)),
        ProviderAction::Unavailable(node(2))
    );
    let (mut silent, _) = begin_provider_run(node(1), &signed);
    for _ in 0..3 {
        confirm_integrated_checkpoint(&mut silent, ProviderEvent::Sent(true));
    }
    assert_eq!(
        confirm_integrated_checkpoint(&mut silent, ProviderEvent::NoMessage),
        ProviderAction::Unconfirmed(3)
    );
    assert_eq!(prune_checkpoint_history(&vec![3, 5, 4, 1], 2), vec![0, 3]);
    assert_eq!(prune_checkpoint_history(&vec![3, 3, 3], 2), vec![2]);
    assert!(prune_checkpoint_history(&vec![1], 2).is_empty());
}

#[test]
fn stored_records_are_checked_before_use() {
    let g = graph(&[1, 2, 3, 4]);
    let seen = |n: u128, valid: bool| Inspection { hash: art(n), valid };
    let stored = |n: u128, valid: bool| StoredRecord::IntegratedGraph {
        graph: g.duplicate(),
        seen: seen(n, valid),
    };
    assert!(restore(&stored(300, true), 0, 64));
    assert!(!restore(&stored(301, true), 0, 64));
    assert!(!restore(&stored(300, false), 0, 64));
    assert_eq!(record_slot(&stored(300, true)), (job(), None));
    let shard = StoredRecord::DataShard {
        data: V4LocalDataShard {
            job_id: job(),
            shard_id: 3,
            plan_generation: 1,
            ownership_generation: 1,
            hash: art(8),
            bytes: vec![1],
        },
        computed: art(8),
    };
    assert!(restore(&shard, 0, 64));
    assert_eq!(record_slot(&shard), (job(), Some(3)));
    let mut proposal = plan(&[1, 2, 3, 4]);
    proposal.parent_plan_hash = Some(art(1));
    let proposed = StoredRecord::PlanProposal { plan: proposal, seen: seen(600, true) };
    assert!(restore(&proposed, 127, 64));
    assert!(!restore(&proposed, 128, 64));
    let stage = |coefficient: i64| StoredRecord::PipelineStage {
        stage: V4LocalPipelineStage {
            job_id: job(),
            plan_generation: 1,
            stage_id: 1,
            stage_count: 2,
            coefficient,
            bias: 0,
            state_hash: art(9),
        },
        computed: art(9),
    };
    assert!(restore(&stage(1_000_000_000), 0, 64));
    assert!(!restore(&stage(1_000_000_001), 0, 64));
    let vote = |term: u64| StoredRecord::IntegratedElection {
        vote: V4IntegratedElectionRecord {
            job_id: job(),
            graph_generation: 1,
            graph_hash: art(300),
            term,
            candidate: node(2),
            vote_hash: art(5),
        },
        computed: art(5),
    };
    assert!(restore(&vote(2), 0, 64));
    assert!(!restore(&vote(0), 0, 64));
}

#[test]
fn unfinished_jobs_are_resumed() {
    let g = graph(&[1, 2, 3, 4]);
    let state = running(&g);
    let lead = resume_integrated_jobs(&g, Some(&state), true, false, node(1));
    assert_eq!(lead, Resume::Lead { windows: 2, checkpoint_every: 1 });
    let follow = resume_integrated_jobs(&g, Some(&state), true, false, node(3));
    assert_eq!(follow, Resume::Participate { windows: 2, checkpoint_every: 1 });
    let nothing = |s: Option<&V4IntegratedStateRecord>, planned: bool, running: bool, n: u128| {
        assert_eq!(resume_integrated_jobs(&g, s, planned, running, node(n)), Resume::Nothing);
    };
    nothing(None, true, false, 1);
    nothing(Some(&state), false, false, 1);
    nothing(Some(&state), true, true, 1);
    nothing(Some(&state), true, false, 9);
    let mut over = state;
    over.phase = V4IntegratedPhase::Committed;
    nothing(Some(&over), true, false, 1);
    let mut other = state;
    other.graph_generation = 2;
    nothing(Some(&other), true, false, 1);
}

#[test]
fn state_files_are_named_and_told_apart() {
    let all = [
        (StateFile::DataShard, Some(3)),
        (StateFile::TrainingState, None),
        (StateFile::IntegratedGraph, None),
        (StateFile::IntegratedState, None),
        (StateFile::IntegratedElection, None),
        (StateFile::PlanProposal, None),
        (StateFile::Plan, None),
        (StateFile::OptimizerState, Some(1)),
        (StateFile::OptimizerShard, Some(1)),
        (StateFile::Checkpoint, Some(12)),
        (StateFile::TensorShard, Some(2)),
        (StateFile::PipelineStage, Some(0)),
    ];
    for (file, part) in all {
        let name = state_file_name(file, JOB, part);
        assert_eq!(classify_state_file(&name), Some(file), "{name}");
    }
    let name = state_file_name(StateFile::Checkpoint, JOB, Some(12));
    assert_eq!(checkpoint_generation(JOB, &name), Some(12));
    assert_eq!(checkpoint_generation("ffff", &name), None);
    assert_eq!(classify_state_file("notes.txt"), None);
}

#[test]
fn messages_go_to_handlers_or_mailboxes() {
    let g = graph(&[1, 2, 3, 4]);
    let ack = V4IntegratedAck {
        job_id: job(),
        graph_generation: 1,
        worker: node(2),
        accepted: true,
    };
    let answer = TrainingV4Message::IntegratedAck(ack);
    assert_eq!(message_job_id(&answer), job());
    assert_eq!(handle_message(&answer), Route::Mailbox(job()));
    let state = TrainingV4Message::IntegratedState(running(&g));
    assert_eq!(handle_message(&state), Route::Handler);
}

#[test]
fn messages_are_sent_at_most_twice() {
    let (mut run, action) = begin_delivery(node(1), node(2), job(), true);
    assert_eq!(action, DeliveryAction::Send(node(2)));
    let action = deliver_v4_message(&mut run, DeliveryEvent::Sent(false));
    assert_eq!(action, DeliveryAction::Pause);
    assert_eq!(deliver_v4_message(&mut run, DeliveryEvent::Paused), DeliveryAction::Send(node(2)));
    let mut lost = run;
    let action = deliver_v4_message(&mut run, DeliveryEvent::Sent(true));
    assert_eq!(action, DeliveryAction::Delivered);
    let action = deliver_v4_message(&mut lost, DeliveryEvent::Sent(false));
    assert_eq!(action, DeliveryAction::Failed(DeliveryError::Unreached));
    assert_eq!(deliver_v4_message(&mut lost, DeliveryEvent::Paused), DeliveryAction::Ignore);
    let (mut direct, _) = send_control_message(node(1), job());
    let action = deliver_v4_message(&mut direct, DeliveryEvent::Sent(true));
    assert_eq!(action, DeliveryAction::Delivered);
    // A message to the node itself goes into the mailbox of its job.
    let (mut own, action) = begin_delivery(node(1), node(1), job(), true);
    assert_eq!(action, DeliveryAction::Put { job_id: job(), from: node(1) });
    let mut closed = own;
    let action = deliver_v4_message(&mut own, DeliveryEvent::Put(true));
    assert_eq!(action, DeliveryAction::Delivered);
    let action = deliver_v4_message(&mut closed, DeliveryEvent::Put(false));
    assert_eq!(action, DeliveryAction::Failed(DeliveryError::MailboxClosed));
    let (_, action) = begin_delivery(node(1), node(1), job(), false);
    assert_eq!(action, DeliveryAction::Failed(DeliveryError::NoMailbox));
}
