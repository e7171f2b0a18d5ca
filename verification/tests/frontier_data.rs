//! Tensors, optimizer states, stages, collective sums, robust updates, demonstrations.

use distributed_training::base::ids::{ArtifactId, JobId, NodeId};
use distributed_training::base::ordered::OrdMap;
use distributed_training::base::record::Duplicate;
use distributed_training::frontier::backward_pass::{
    PassAction, PassEvent, begin_backward_pass, local_tensor_backward,
};
use distributed_training::frontier::byzantine::{
    ByzantineError, ByzantineStep, UpdateRoute, collected_values, finish_aggregation,
    receive_byzantine_update, route_update, update_contribution,
};
use distributed_training::frontier::collective::{
    CollectiveError, ContributionRoute, aggregate_authorized, finish_collective_group,
    group_completion, group_message, may_open_request, open_by_aggregate, open_by_contribution,
    receive_collective_aggregate, receive_collective_contribution, route_contribution,
    take_contribution,
};
use distributed_training::frontier::collective_round::{
    CollectiveAction, CollectiveEvent, CollectiveRound, CollectiveRoundError,
    begin_collective_round, collective_training_round,
};
use distributed_training::frontier::dataplane::{
    V4CollectiveContribute, V4CollectiveResult, V4OptimizerStateInstall,
    V4PipelineBackward, V4PipelineBackwardResult, V4PipelineForward, V4PipelineForwardResult,
    V4PipelineInstallAck, V4TensorBackwardResult, V4TensorForwardResult, V4TensorInstall, V4TensorInstallAck, V4TensorReplica,
};
use distributed_training::frontier::demos::{
    TensorDemoError, agreed_result, byzantine_demo, collective_demo, demo_pipeline_backward,
    demo_pipeline_forward, demo_stage_install, demo_tensor_backward, demo_tensor_forward,
    demo_tensor_install, microbatch_count, note_demo_stage, note_demo_tensor, note_root_result,
    remote_group, sort_results, tensor_demo_output, tensor_owners, valid_byzantine_group,
};
use distributed_training::frontier::installation::{
    InstallAction, InstallError, InstallEvent, Installation, Placed, begin_installation,
    install_integrated_state,
};
use distributed_training::frontier::integrated::{build_integrated_start, plan_integrated_job};
use distributed_training::frontier::local::{
    V4LocalOptimizerState, V4LocalPipelineStage, V4LocalTensorShard,
};
use distributed_training::frontier::optimizer::{
    LocalOptimizerError, OptimizerInstallError, OptimizerStep, OptimizerUpdateError, find_placement,
    install_local_optimizer_state, integrated_optimizer_install, optimizer_ack, optimizer_content,
    promote_optimizer_state, receive_optimizer_state_install, state_content, state_of_install,
    update_is_replicated, update_optimizer_state, valid_local_optimizer_state,
};
use distributed_training::frontier::pipeline::{
    BackwardStep, ForwardStep, PipelineError, PipelineInstallError, backward_step, forward_step,
    install_local_pipeline_stage, integrated_stage_install, local_pipeline_stage,
    receive_pipeline_backward, receive_pipeline_forward, receive_pipeline_install, stage_function,
    step_deadline,
};
use distributed_training::frontier::pipeline_demo::{
    PipelineDemoAction, PipelineDemoEvent, PipelineDemoFailure, PipelineDemoMessage,
    begin_pipeline_demo, pipeline_demo,
};
use distributed_training::frontier::pipeline_round::{
    PipelineAction, PipelineEvent, PipelineRoundError, begin_pipeline_round,
    pipeline_training_round,
};
use distributed_training::frontier::policy::V4ByzantinePolicy;
use distributed_training::frontier::tensor::{
    LocalTensorError, ReplicaStep, TensorInstallError, TensorPassError, TensorReplicaError,
    apply_backward, backward_result, check_backward, forward_result, install_local_tensor_shard,
    local_tensor_forward, receive_tensor_backward, receive_tensor_forward, receive_tensor_install,
    receive_tensor_replica, repeated_upstream, replica_copies, round_sequence,
    valid_local_tensor_shard,
};
use distributed_training::frontier::tensor_demo::{
    TensorDemoAction, TensorDemoEvent, TensorDemoFailure, TensorDemoMessage, TensorDemoPhase,
    begin_tensor_demo, tensor_demo,
};
use distributed_training::frontier::tensor_round::{
    MissingOutput, backward_request, begin_tensor_round, errors_fit, forward_request, install_copy,
    integrated_install, local_backward_done, local_output, note_backward_result,
    note_forward_result, owner_asked, owners_answered, tensor_errors, tensor_input,
};
use distributed_training::frontier::tensor_training::{
    TensorAction, TensorEvent, TensorPasses, TensorRoundError, TensorStep, begin_tensor_passes,
    tensor_training_round,
};
use distributed_training::frontier::types::{
    BackendCapability, BackendHealth, BackendKind, V4AcceleratorFamily, V4ExecutionGraph,
    V4ParallelismStrategy, V4ShardLifecycle, V4ShardOwnership, V4TrainingPlan, V4WorkerCapability,
};
use distributed_training::frontier::waiting::{AckKey, AckSet, NumberSet};
use distributed_training::frontier::wire::{pipeline_content, tensor_content};

fn node(n: u128) -> NodeId {
    NodeId { hi: 0, lo: n }
}

fn job() -> JobId {
    JobId { hi: 0, lo: 7 }
}

fn art(n: u128) -> ArtifactId {
    ArtifactId { hi: 0, lo: n }
}

fn nodes(ids: &[u128]) -> Vec<NodeId> {
    ids.iter().map(|n| node(*n)).collect()
}

fn capability(n: u128) -> V4WorkerCapability {
    V4WorkerCapability {
        node: node(n),
        family: V4AcceleratorFamily::Cpu,
        device_model: "Cpu".to_string(),
        physical_verified: true,
        memory_bytes: 8192,
        compute_units: 1,
        rtt_ms: 5,
        bandwidth_mbps: 10,
        reliability_permille: 900,
        backends: vec![BackendCapability {
            kind: BackendKind::Cpu,
            runtime_available: true,
            health: BackendHealth::Healthy,
        }],
    }
}

fn shard(id: u16, owner: u128, replica: u128) -> V4ShardOwnership {
    V4ShardOwnership {
        shard_id: id,
        model_generation: 1,
        owners: nodes(&[owner]),
        replicas: nodes(&[replica]),
        ownership_generation: 1,
        content_hash: art(500 + id as u128),
        state_bytes: 64,
        memory_bytes: 128,
        runtime_requirement: "reference.cpu.i64.tensor-row".to_string(),
        lifecycle: V4ShardLifecycle::Active,
    }
}

/// A plan of node 1 over the given workers, with two shards.
fn plan(workers: &[u128]) -> V4TrainingPlan {
    V4TrainingPlan {
        job_id: job(),
        proposer: node(1),
        plan_generation: 1,
        parent_plan_hash: None,
        training_epoch: 1,
        membership_epoch: 1,
        coordination_term: 1,
        model_generation: 1,
        branch: art(100),
        strategy: V4ParallelismStrategy::Hybrid,
        tensor_degree: 2,
        pipeline_stages: 2,
        local_steps: 1,
        max_staleness: 2,
        checkpoint_replication: 2,
        workers: nodes(workers),
        worker_capabilities: workers.iter().map(|n| capability(*n)).collect(),
        groups: Vec::new(),
        shards: vec![shard(0, 1, 3), shard(1, 2, 4)],
        compute_requirements: Vec::new(),
        backend_assignments: Vec::new(),
        plan_hash: art(600),
    }
}

const MAX_VECTOR: u32 = 64;

fn graph(workers: &[u128]) -> (V4ExecutionGraph, V4TrainingPlan) {
    let (job_plan, stages) =
        plan_integrated_job(plan(workers), 4, &vec![art(10), art(11)]).unwrap();
    let mut out = build_integrated_start(&job_plan, &stages, node(90));
    out.graph_hash = art(300);
    (out, job_plan)
}

/// The installation of the first shard, with its hash.
fn install() -> V4TensorInstall {
    let (g, job_plan) = graph(&[1, 2, 3, 4]);
    let mut out = integrated_install(&g, &job_plan, &g.shards[0]);
    out.state_hash = art(70);
    out
}

fn tensor() -> V4LocalTensorShard {
    install_local_tensor_shard(None, &install(), MAX_VECTOR, art(0), art(70)).unwrap()
}

#[test]
fn contents_are_written_as_json() {
    let weights = vec![i64::MIN, -1, 0, 10, 987, i64::MAX];
    for n in 0..weights.len() + 1 {
        let part = weights[..n].to_vec();
        let expected = serde_json::to_vec(&(2u16, 4u16, 65_535u16, &part)).unwrap();
        assert_eq!(tensor_content(2, 4, 65_535, &part), expected);
    }
    for (coefficient, bias) in [(2, 1), (-3, 0), (i64::MIN, i64::MAX)] {
        let expected = serde_json::to_vec(&(coefficient, bias)).unwrap();
        assert_eq!(pipeline_content(coefficient, bias), expected);
    }
    assert_eq!(pipeline_content(2, -1), b"[2,-1]".to_vec());
    assert_eq!(tensor_content(1, 2, 3, &vec![4, -5]), b"[1,2,3,[4,-5]]".to_vec());
    assert_ne!(tensor_content(1, 2, 3, &vec![45]), tensor_content(1, 2, 3, &vec![4, 5]));
    assert_ne!(tensor_content(1, 23, 4, &vec![]), tensor_content(12, 3, 4, &vec![]));
}

#[test]
fn tensors_are_installed_and_keep_what_they_learned() {
    let first = tensor();
    assert_eq!((first.state_generation, first.last_sequence), (1, 0));
    assert_eq!(first.weights, vec![1, 0, 0, 1, 1, 1, 2, 0]);
    assert!(valid_local_tensor_shard(&first, MAX_VECTOR, art(70)));
    assert!(!valid_local_tensor_shard(&first, MAX_VECTOR, art(71)));
    assert!(!valid_local_tensor_shard(&first, 1, art(70)));
    let mut learned = first.duplicate();
    learned.weights[0] = 9;
    learned.state_generation = 2;
    learned.state_hash = art(72);
    let mut later = install();
    later.plan_generation = 3;
    let kept = install_local_tensor_shard(Some(&learned), &later, MAX_VECTOR, art(72), art(70));
    let kept = kept.unwrap();
    assert_eq!((kept.weights[0], kept.plan_generation), (9, 3));
    learned.plan_generation = 4;
    let stale = install_local_tensor_shard(Some(&learned), &later, MAX_VECTOR, art(72), art(70));
    assert_eq!(stale, Err(LocalTensorError::Stale));
    let mut short = install();
    short.weights.pop();
    let invalid = install_local_tensor_shard(None, &short, MAX_VECTOR, art(0), art(70));
    assert_eq!(invalid, Err(LocalTensorError::Invalid));
}

#[test]
fn tensor_installations_are_checked() {
    let (_, job_plan) = graph(&[1, 2, 3, 4]);
    let take = |n: u128, valid: bool, hash: u128, existing: Option<&V4LocalTensorShard>, held| {
        receive_tensor_install(
            node(n), &job_plan, &install(), valid, art(hash), existing, art(70), MAX_VECTOR, held,
        )
    };
    let (stored, ack) = take(1, true, 70, None, 0).unwrap();
    assert_eq!(stored, tensor());
    assert!(ack.accepted);
    assert_eq!(take(1, false, 70, None, 0), Err(TensorInstallError::Invalid));
    assert_eq!(take(1, true, 71, None, 0), Err(TensorInstallError::HashMismatch));
    assert_eq!(take(9, true, 70, None, 0), Err(TensorInstallError::Unauthorized));
    assert_eq!(take(1, true, 70, None, 256), Err(TensorInstallError::Full));
    assert!(take(1, true, 70, Some(&tensor()), 256).is_ok());
    let mut other = tensor();
    other.weights[0] = 5;
    assert_eq!(take(1, true, 70, Some(&other), 0), Err(TensorInstallError::Conflict));
}

#[test]
fn replicas_follow_their_owner() {
    let (g, job_plan) = graph(&[1, 2, 3, 4]);
    let copy = install_copy(&install(), &g.shards[0], node(1));
    let take = |n: u128, from: u128, copy: &V4TensorReplica, existing: Option<&V4LocalTensorShard>| {
        receive_tensor_replica(
            node(n), node(from), copy, true, copy.state_hash, Some(&job_plan), existing, art(72),
            MAX_VECTOR,
        )
    };
    let (step, ack) = take(3, 1, &copy, None).unwrap();
    assert_eq!(step, ReplicaStep::Stored(tensor()));
    assert!(ack.accepted);
    let mut ahead = tensor();
    ahead.state_generation = 5;
    ahead.state_hash = art(72);
    let (step, ack) = take(3, 1, &copy, Some(&ahead)).unwrap();
    assert_eq!(step, ReplicaStep::Ahead);
    assert!(ack.accepted);
    let mut twin = tensor();
    twin.state_hash = art(72);
    let (step, ack) = take(3, 1, &copy, Some(&twin)).unwrap();
    assert_eq!(step, ReplicaStep::Conflict);
    assert!(!ack.accepted);
    assert_eq!(take(2, 1, &copy, None), Err(TensorReplicaError::Unauthorized));
    let mut misshapen = copy.duplicate();
    misshapen.rows = 9;
    assert_eq!(take(3, 1, &misshapen, None), Err(TensorReplicaError::Shape));
    let plain = |valid, hash: u128, plan| {
        receive_tensor_replica(
            node(3), node(1), &copy, valid, art(hash), plan, None, art(0), MAX_VECTOR,
        )
    };
    assert_eq!(plain(false, 70, Some(&job_plan)), Err(TensorReplicaError::Invalid));
    assert_eq!(plain(true, 71, Some(&job_plan)), Err(TensorReplicaError::HashMismatch));
    assert_eq!(plain(true, 70, None), Err(TensorReplicaError::NoPlan));
    let (sent, replicas) = replica_copies(node(1), &job_plan, &tensor()).unwrap();
    assert_eq!(replicas, nodes(&[3]));
    assert_eq!(sent.source, node(1));
    let mut unknown = tensor();
    unknown.shard_id = 9;
    assert!(replica_copies(node(1), &job_plan, &unknown).is_none());
}

#[test]
fn a_tensor_round_measures_and_learns() {
    let (g, job_plan) = graph(&[1, 2, 3, 4]);
    let request = JobId { hi: 3, lo: 3 };
    let mut round = begin_tensor_round(&g, &job_plan, request, 0);
    assert_eq!(round.sequence, 4098);
    assert_eq!(round_sequence(2, 3), 8198);
    assert_eq!(round_sequence(u64::MAX, 3), u64::MAX);
    let forward = forward_request(&round, job(), &g.shards[0]);
    assert_eq!(forward.input, vec![2, 4, 6, 8]);
    assert_eq!(tensor_input(), vec![2, 4, 6, 8]);
    assert_eq!(receive_tensor_forward(node(1), &job_plan, &forward, Some(&tensor())), Ok(()));
    assert_eq!(
        receive_tensor_forward(node(9), &job_plan, &forward, Some(&tensor())),
        Err(TensorPassError::Unauthorized)
    );
    assert_eq!(
        receive_tensor_forward(node(1), &job_plan, &forward, None),
        Err(TensorPassError::Unavailable)
    );
    let mut narrow = forward.duplicate();
    narrow.input.pop();
    assert_eq!(
        receive_tensor_forward(node(1), &job_plan, &narrow, Some(&tensor())),
        Err(TensorPassError::Mismatch)
    );
    assert_eq!(local_tensor_forward(Some(&tensor()), 4, MAX_VECTOR, art(70)), Ok(()));
    assert_eq!(
        local_tensor_forward(Some(&tensor()), 3, MAX_VECTOR, art(70)),
        Err(TensorPassError::Mismatch)
    );
    assert_eq!(
        local_tensor_forward(None, 4, MAX_VECTOR, art(70)),
        Err(TensorPassError::Unavailable)
    );
    local_output(&mut round, 0, vec![30, 33]);
    owner_asked(&mut round, 1);
    assert!(!owners_answered(&round));
    let missing = tensor_errors(&g, &round.outputs);
    assert_eq!(missing.err(), Some(MissingOutput { shard_id: 1 }));
    let mut second = tensor();
    second.shard_id = 1;
    let mut asked = forward.duplicate();
    asked.shard_id = 1;
    note_forward_result(&mut round, forward_result(&asked, &second, vec![32, 40]));
    assert!(owners_answered(&round));
    assert!(errors_fit(&g, &round.outputs));
    let (loss, errors) = tensor_errors(&g, &round.outputs).unwrap();
    assert_eq!(loss, 69);
    assert_eq!(errors.get(0), Some(&vec![-2, 1]));
    assert_eq!(errors.get(1), Some(&vec![0, 8]));
    let backward = backward_request(&round, job(), &g.shards[0], vec![-2, 1]);
    assert_eq!((backward.learning_rate_micros, backward.sequence), (10_000, 4098));
    assert_eq!(
        receive_tensor_backward(node(1), &job_plan, &backward, Some(&tensor())),
        Ok(false)
    );
    let mut done = tensor();
    done.last_sequence = 4098;
    assert_eq!(receive_tensor_backward(node(1), &job_plan, &backward, Some(&done)), Ok(true));
    done.last_sequence = 4099;
    assert_eq!(
        receive_tensor_backward(node(1), &job_plan, &backward, Some(&done)),
        Err(TensorPassError::Stale)
    );
    assert_eq!(check_backward(&done, 1, 1, 4, 3, 5000), Err(TensorPassError::Mismatch));
    local_backward_done(&mut round, 0, art(80), Some(art(81)));
    owner_asked(&mut round, 1);
    let answer = backward_result(
        request, &second, 1, 4098, vec![0; 8], vec![0; 4], Some((art(83), 2)),
    );
    note_backward_result(&mut round, &answer);
    assert!(owners_answered(&round));
    assert_eq!(round.state_hashes.get(1), Some(&art(70)));
    assert_eq!(round.optimizer_hashes.get(1), Some(&art(83)));
    assert_eq!(round.state_hashes.get(0), Some(&art(80)));
}

#[test]
fn weights_step_against_their_gradient() {
    assert_eq!(repeated_upstream(&vec![7, -3], 2, 3), vec![7, 7, 7, -3, -3, -3]);
    let mut shard = tensor();
    shard.weights = vec![5, 5, 1_000_000_000, -1_000_000_000, 5];
    apply_backward(&mut shard, &vec![30, -15, i64::MIN, i64::MAX], 100_000, 6);
    assert_eq!(shard.weights, vec![2, 6, 1_000_000_000, -1_000_000_000, 5]);
    assert_eq!((shard.state_generation, shard.last_sequence), (2, 6));
    assert_eq!(shard.state_hash, ArtifactId::unsigned());
}

#[test]
fn holders_of_a_shard_all_answer() {
    let (mut g, _) = graph(&[1, 2, 3, 4]);
    g.shards.truncate(1);
    g.shards[0].owners = nodes(&[1]);
    g.shards[0].replicas = nodes(&[2, 3, 4]);
    let (mut run, action) = begin_installation(&g, Placed::Tensors, node(2));
    assert_eq!(action, InstallAction::Send { item: 0, to: node(1), replica: false });
    let step = |run: &mut Installation, event| install_integrated_state(run, &g, event);
    assert_eq!(step(&mut run, InstallEvent::Installed), InstallAction::Ignore);
    assert_eq!(step(&mut run, InstallEvent::Sent), InstallAction::InstallHere { item: 0 });
    let copy = |n: u128| InstallAction::Send { item: 0, to: node(n), replica: true };
    assert_eq!(step(&mut run, InstallEvent::Installed), copy(3));
    assert_eq!(step(&mut run, InstallEvent::Sent), copy(4));
    assert_eq!(step(&mut run, InstallEvent::Sent), InstallAction::Wait);
    let answer = |n: u128, replica: bool, accepted: bool| InstallEvent::Answer {
        placed: Placed::Tensors,
        peer: node(n),
        id: 0,
        replica,
        accepted,
    };
    assert_eq!(step(&mut run, answer(3, false, true)), InstallAction::Wait);
    assert_eq!(step(&mut run, answer(1, false, true)), InstallAction::Wait);
    assert_eq!(step(&mut run, answer(3, true, false)), InstallAction::Wait);
    assert_eq!(step(&mut run, answer(4, true, true)), InstallAction::Wait);
    assert_eq!(step(&mut run, InstallEvent::OtherMessage), InstallAction::Wait);
    assert_eq!(step(&mut run, answer(3, true, true)), InstallAction::Done);
    assert_eq!(step(&mut run, answer(3, true, true)), InstallAction::Ignore);
}

#[test]
fn installations_fail_with_their_holders() {
    let (g, _) = graph(&[1, 2, 3, 4]);
    let (mut run, action) = begin_installation(&g, Placed::Stages, node(1));
    assert_eq!(action, InstallAction::Send { item: 0, to: node(3), replica: false });
    assert_eq!(
        install_integrated_state(&mut run, &g, InstallEvent::NotSent),
        InstallAction::Fail(InstallError::Unreachable)
    );
    let (mut run, action) = begin_installation(&g, Placed::Optimizers, node(1));
    assert_eq!(action, InstallAction::InstallHere { item: 0 });
    assert_eq!(
        install_integrated_state(&mut run, &g, InstallEvent::NotInstalled),
        InstallAction::Fail(InstallError::Local)
    );
    let (mut run, mut action) = begin_installation(&g, Placed::Optimizers, node(1));
    while action != InstallAction::Wait {
        action = match action {
            InstallAction::InstallHere { .. } => {
                install_integrated_state(&mut run, &g, InstallEvent::Installed)
            }
            _ => install_integrated_state(&mut run, &g, InstallEvent::Sent),
        };
    }
    assert_eq!(
        install_integrated_state(&mut run, &g, InstallEvent::NoMessage),
        InstallAction::Fail(InstallError::NoAnswer)
    );
    let mut ownerless = g.duplicate();
    ownerless.shards[0].owners.clear();
    let (_, action) = begin_installation(&ownerless, Placed::Tensors, node(1));
    assert_eq!(action, InstallAction::Fail(InstallError::Ownerless));
    let mut empty = g.duplicate();
    empty.shards.clear();
    let (_, action) = begin_installation(&empty, Placed::Tensors, node(1));
    assert_eq!(action, InstallAction::Done);
}

#[test]
fn a_tensor_round_asks_then_teaches_every_shard() {
    let (g, job_plan) = graph(&[1, 2, 3, 4]);
    let request = JobId { hi: 3, lo: 3 };
    let (mut passes, action) = begin_tensor_passes(&g, &job_plan, node(1), request, 0);
    assert_eq!(action, TensorAction::RunForward { shard_id: 0 });
    let step = |passes: &mut TensorPasses, event| {
        tensor_training_round(passes, &g, node(1), event)
    };
    assert_eq!(step(&mut passes, TensorEvent::Sent), TensorAction::Ignore);
    let asked = match step(&mut passes, TensorEvent::Output(vec![30, 33])) {
        TensorAction::SendForward(to, asked) => {
            assert_eq!(to, node(2));
            asked
        }
        other => panic!("the second shard is asked: {other:?}"),
    };
    assert_eq!(step(&mut passes, TensorEvent::Sent), TensorAction::Wait);
    let mut second = tensor();
    second.shard_id = 1;
    let mut stranger = forward_result(&asked, &second, vec![0, 0]);
    stranger.request_id = job();
    assert_eq!(step(&mut passes, TensorEvent::ForwardResult(stranger)), TensorAction::Wait);
    let output = forward_result(&asked, &second, vec![32, 40]);
    assert_eq!(
        step(&mut passes, TensorEvent::ForwardResult(output)),
        TensorAction::RunBackward { shard_id: 0, upstream: vec![-2, 1] }
    );
    match step(&mut passes, TensorEvent::Learnt(art(80), Some(art(81)))) {
        TensorAction::SendBackward(to, backward) => {
            assert_eq!((to, backward.upstream), (node(2), vec![0, 8]));
        }
        other => panic!("the second shard learns: {other:?}"),
    }
    assert_eq!(step(&mut passes, TensorEvent::Sent), TensorAction::Wait);
    assert_eq!(step(&mut passes, TensorEvent::OtherMessage), TensorAction::Wait);
    let answer = backward_result(
        request, &second, 1, 4098, vec![0; 8], vec![0; 4], Some((art(83), 2)),
    );
    assert_eq!(
        step(&mut passes, TensorEvent::BackwardResult(answer)),
        TensorAction::Done { loss: 69, steps: 2 }
    );
    assert_eq!(passes.round.state_hashes.get(0), Some(&art(80)));
    assert_eq!(passes.round.state_hashes.get(1), Some(&art(70)));
    assert_eq!(passes.round.optimizer_hashes.get(1), Some(&art(83)));
}

#[test]
fn a_tensor_round_fails_with_its_shards() {
    let (g, job_plan) = graph(&[1, 2, 3, 4]);
    let request = JobId { hi: 3, lo: 3 };
    let begin = || begin_tensor_passes(&g, &job_plan, node(1), request, 0).0;
    let step = |passes: &mut TensorPasses, event| {
        tensor_training_round(passes, &g, node(1), event)
    };
    let mut passes = begin();
    assert_eq!(
        step(&mut passes, TensorEvent::PassFailed),
        TensorAction::Fail(TensorRoundError::Pass)
    );
    let mut passes = begin();
    step(&mut passes, TensorEvent::Output(vec![30, 33]));
    assert_eq!(
        step(&mut passes, TensorEvent::NotSent),
        TensorAction::Fail(TensorRoundError::Unreachable)
    );
    let mut passes = begin();
    step(&mut passes, TensorEvent::Output(vec![30, 33]));
    step(&mut passes, TensorEvent::Sent);
    assert_eq!(
        step(&mut passes, TensorEvent::NoMessage),
        TensorAction::Fail(TensorRoundError::NoResult)
    );
    // Both shards are on this node: two errors whose squares do not fit.
    let mut near = g.duplicate();
    near.shards[1].owners = nodes(&[1]);
    let (mut passes, _) = begin_tensor_passes(&near, &job_plan, node(1), request, 0);
    let far = vec![i64::MIN, i64::MIN];
    tensor_training_round(&mut passes, &near, node(1), TensorEvent::Output(far));
    assert_eq!(
        tensor_training_round(&mut passes, &near, node(1), TensorEvent::Output(vec![0])),
        TensorAction::Fail(TensorRoundError::OutOfRange)
    );
    // A stray answer reaches a round that lacks an output.
    let (mut passes, _) = begin_tensor_passes(&near, &job_plan, node(1), request, 0);
    tensor_training_round(&mut passes, &near, node(1), TensorEvent::Output(vec![1]));
    passes.step = TensorStep::Outputs;
    let stray = V4TensorForwardResult {
        request_id: job(),
        job_id: job(),
        plan_generation: 1,
        shard_id: 1,
        sequence: 0,
        output: vec![1],
        state_hash: art(1),
    };
    assert_eq!(
        tensor_training_round(&mut passes, &near, node(1), TensorEvent::ForwardResult(stray)),
        TensorAction::Fail(TensorRoundError::MissingOutput)
    );
}

#[test]
fn a_backward_pass_learns_once() {
    let run = |applied: bool| {
        let mut shard = tensor();
        shard.last_sequence = if applied { 9 } else { 8 };
        let request = JobId { hi: 3, lo: 3 };
        begin_backward_pass(shard, &vec![7, -3], request, 1, 9, 100_000, applied)
    };
    let (mut pass, action) = run(false);
    assert_eq!(
        action,
        PassAction::MultiplyWeights(vec![7, 7, 7, 7, -3, -3, -3, -3])
    );
    let gradient = vec![10, 20, 30, 40, 50, 60, 70, 80];
    assert_eq!(
        local_tensor_backward(&mut pass, PassEvent::Computed(gradient.clone())),
        PassAction::TransposeUpstream
    );
    let stored = match local_tensor_backward(&mut pass, PassEvent::Computed(vec![1, 2, 3, 4])) {
        PassAction::Store(shard) => shard,
        other => panic!("the shard is stored: {other:?}"),
    };
    let expected: Vec<i64> =
        tensor().weights.iter().zip([1, 2, 3, 4, 5, 6, 7, 8]).map(|(w, d)| w - d).collect();
    assert_eq!((stored.weights, stored.last_sequence), (expected, 9));
    assert_eq!(
        local_tensor_backward(&mut pass, PassEvent::Stored(art(90))),
        PassAction::UpdateOptimizer(gradient.clone())
    );
    match local_tensor_backward(&mut pass, PassEvent::Optimizer(Some((art(91), 4)))) {
        PassAction::Answer(result) => {
            assert_eq!((result.state_hash, result.state_generation), (art(90), 2));
            assert_eq!(result.optimizer_state_hash, Some(art(91)));
            assert_eq!(result.input_gradient, vec![1, 2, 3, 4]);
        }
        other => panic!("the pass is answered: {other:?}"),
    }
    let (mut again, _) = run(true);
    local_tensor_backward(&mut again, PassEvent::Computed(gradient));
    assert_eq!(
        local_tensor_backward(&mut again, PassEvent::Computed(vec![1, 2, 3, 4])),
        PassAction::ReadOptimizer
    );
    match local_tensor_backward(&mut again, PassEvent::Optimizer(None)) {
        PassAction::Answer(result) => {
            assert_eq!((result.state_hash, result.state_generation), (art(70), 1));
            assert_eq!((result.optimizer_state_hash, result.optimizer_state_generation), (None, 0));
        }
        other => panic!("the pass is answered: {other:?}"),
    }
    let (mut lost, _) = run(false);
    assert_eq!(local_tensor_backward(&mut lost, PassEvent::Failed), PassAction::Fail);
    assert_eq!(local_tensor_backward(&mut lost, PassEvent::Failed), PassAction::Ignore);
}

fn optimizer_install() -> V4OptimizerStateInstall {
    let (g, job_plan) = graph(&[1, 2, 3, 4]);
    let mut out = integrated_optimizer_install(&g, &job_plan, &g.optimizer_shards[0], Some(3));
    out.state_hash = art(75);
    out
}

#[test]
fn the_hash_of_an_optimizer_state_leaves_out_its_transport() {
    let install = optimizer_install();
    let mut sent = install.duplicate();
    sent.source = node(8);
    sent.sequence = 40;
    sent.state_hash = art(1);
    assert_eq!(optimizer_content(&install), optimizer_content(&sent));
    assert_eq!(state_content(&state_of_install(&install)), optimizer_content(&sent));
    sent.last_sequence += 1;
    assert_ne!(optimizer_content(&install), optimizer_content(&sent));
    let mut moved = install.duplicate();
    moved.values[0] = 1;
    assert_ne!(optimizer_content(&install), optimizer_content(&moved));
}

#[test]
fn a_complete_group_tells_its_parent_and_the_total() {
    let workers = plan(&[1, 2, 3, 4]);
    let offers: Vec<V4CollectiveContribute> =
        (0..4).map(|i| collective_demo(&workers, node(9), i)).collect();
    let mut first = open_by_contribution(&offers[0]);
    assert_eq!(take_contribution(&mut first, &offers[0], node(1)), Ok(None));
    let closing = take_contribution(&mut first, &offers[1], node(1)).unwrap().unwrap();
    assert!(closing.result.is_none());
    let (parent, sum) = closing.to_parent.unwrap();
    assert_eq!((parent, sum.values.clone(), sum.aggregator), (node(3), vec![3, 2], node(1)));
    // Where the other group is in already, the total goes out with the group sum.
    let mut second = open_by_aggregate(&sum);
    assert_eq!(receive_collective_aggregate(&mut second, &sum), Ok(None));
    assert_eq!(take_contribution(&mut second, &offers[2], node(3)), Ok(None));
    let closing = take_contribution(&mut second, &offers[3], node(3)).unwrap().unwrap();
    assert!(closing.to_parent.is_some());
    let (reply_to, total) = closing.result.unwrap();
    assert_eq!((reply_to, total.values), (node(9), vec![10, 4]));
    assert_eq!(
        take_contribution(&mut second, &offers[0], node(3)),
        Err(CollectiveError::Conflict)
    );
}

#[test]
fn optimizer_states_are_installed_and_promoted() {
    let install = optimizer_install();
    assert_eq!(install.values, vec![0, 0, 0]);
    assert_eq!(install.source, node(1));
    let (g, job_plan) = graph(&[1, 2, 3, 4]);
    let assumed = integrated_optimizer_install(&g, &job_plan, &g.optimizer_shards[0], None);
    assert_eq!(assumed.values.len(), 8);
    let first = state_of_install(&install);
    assert!(valid_local_optimizer_state(&first, MAX_VECTOR, art(75)));
    assert!(!valid_local_optimizer_state(&first, 2, art(75)));
    let mut newer = install.duplicate();
    newer.plan_generation = 2;
    newer.optimizer_generation = 3;
    let mut ahead = first.duplicate();
    ahead.state_generation = 6;
    ahead.values = vec![1, 2, 3];
    let moved = promote_optimizer_state(&ahead, &newer);
    assert_eq!((moved.plan_generation, moved.optimizer_generation), (2, 3));
    assert_eq!((moved.state_generation, moved.values.clone()), (6, vec![1, 2, 3]));
    let kept = install_local_optimizer_state(Some(&ahead), &newer, MAX_VECTOR, art(75)).unwrap();
    assert_eq!(kept, (moved, true));
    let fresh = install_local_optimizer_state(None, &install, MAX_VECTOR, art(75)).unwrap();
    assert_eq!(fresh, (state_of_install(&install), false));
    let invalid = install_local_optimizer_state(None, &install, MAX_VECTOR, art(1));
    assert_eq!(invalid, Err(LocalOptimizerError::Invalid));
    ahead.values.pop();
    let conflict = install_local_optimizer_state(Some(&ahead), &newer, MAX_VECTOR, art(75));
    assert_eq!(conflict, Err(LocalOptimizerError::Conflict));
}

#[test]
fn optimizer_installations_are_checked() {
    let (g, job_plan) = graph(&[1, 2, 3, 4]);
    let install = optimizer_install();
    let take = |n: u128, install: &V4OptimizerStateInstall, existing: Option<&V4LocalOptimizerState>| {
        receive_optimizer_state_install(
            node(n), node(1), install, true, install.state_hash, Some(&job_plan), true, Some(&g),
            Some(3), existing, art(75), MAX_VECTOR,
        )
    };
    let stored = state_of_install(&install);
    let step = take(3, &install, None).unwrap();
    assert!(optimizer_ack(&install, &step, art(75)).accepted);
    assert_eq!(step, OptimizerStep::Store(stored.duplicate()));
    assert_eq!(take(3, &install, Some(&stored)), Ok(OptimizerStep::Keep));
    let mut other = install.duplicate();
    other.state_hash = art(76);
    let refused = take(3, &other, Some(&stored)).unwrap();
    assert_eq!(refused, OptimizerStep::Refuse);
    assert!(!optimizer_ack(&other, &refused, art(75)).accepted);
    let mut before = stored.duplicate();
    before.plan_generation = 0;
    assert_eq!(take(3, &other, Some(&before)), Ok(OptimizerStep::Refuse));
    let mut older = stored.duplicate();
    older.state_generation = 0;
    assert!(matches!(take(3, &install, Some(&older)), Ok(OptimizerStep::Store(_))));
    assert_eq!(take(2, &install, None), Err(OptimizerInstallError::Unauthorized));
    let mut unknown = install.duplicate();
    unknown.shard_id = 9;
    assert_eq!(take(3, &unknown, None), Err(OptimizerInstallError::NoPlacement));
    let mut grown = stored.duplicate();
    grown.values.push(1);
    assert_eq!(take(3, &install, Some(&grown)), Err(OptimizerInstallError::Conflict));
    let with = |valid, hash: u128, plan, graph, weights| {
        receive_optimizer_state_install(
            node(3), node(1), &install, valid, art(hash), plan, true, graph, weights, None, art(0),
            MAX_VECTOR,
        )
    };
    let (p, gr) = (Some(&job_plan), Some(&g));
    assert_eq!(with(false, 75, p, gr, None), Err(OptimizerInstallError::Invalid));
    assert_eq!(with(true, 1, p, gr, None), Err(OptimizerInstallError::HashMismatch));
    assert_eq!(with(true, 75, None, gr, None), Err(OptimizerInstallError::NoPlan));
    assert_eq!(with(true, 75, p, None, None), Err(OptimizerInstallError::NoGraph));
    assert_eq!(with(true, 75, p, gr, Some(4)), Err(OptimizerInstallError::ModelMismatch));
}

#[test]
fn optimizer_updates_accumulate_gradients() {
    let (g, _) = graph(&[1, 2, 3, 4]);
    let mut held = state_of_install(&optimizer_install());
    held.values = vec![1, 999_999_999, -5];
    held.last_sequence = 4;
    let update = |n: u128, plan: u128, shard: u16, gradients: &Vec<i64>, sequence: u64, held| {
        update_optimizer_state(node(n), &g, art(plan), 1, shard, gradients, sequence, held)
    };
    let (made, replicas) = update(1, 600, 0, &vec![2, 50, i64::MIN], 5, Some(&held)).unwrap();
    assert_eq!(made.values, vec![3, 1_000_000_000, -1_000_000_000]);
    assert_eq!((made.state_generation, made.last_sequence), (2, 5));
    assert_eq!(replicas, nodes(&[3]));
    let (fresh, _) = update(1, 600, 0, &vec![7], 5, None).unwrap();
    assert_eq!((fresh.values, fresh.state_generation), (vec![7], 2));
    let three = vec![0; 3];
    assert_eq!(update(1, 1, 0, &three, 5, None).err(), Some(OptimizerUpdateError::Unbound));
    assert_eq!(update(1, 600, 7, &three, 5, None).err(), Some(OptimizerUpdateError::NoPlacement));
    assert_eq!(update(2, 600, 0, &three, 5, None).err(), Some(OptimizerUpdateError::NotOwner));
    assert_eq!(
        update(1, 600, 0, &vec![0], 5, Some(&held)).err(),
        Some(OptimizerUpdateError::LengthMismatch)
    );
    assert_eq!(
        update(1, 600, 0, &three, 4, Some(&held)).err(),
        Some(OptimizerUpdateError::Stale)
    );
    let mut shardless = g.duplicate();
    shardless.shards.remove(0);
    let lost = update_optimizer_state(node(1), &shardless, art(600), 1, 0, &three, 5, None);
    assert_eq!(lost.err(), Some(OptimizerUpdateError::NoModelShard));
    let placement = find_placement(&g.optimizer_shards, 0).unwrap();
    assert!(update_is_replicated(placement, 1) && !update_is_replicated(placement, 0));
    let ack = optimizer_ack(&optimizer_install(), &OptimizerStep::Keep, art(75));
    assert!(ack.accepted);
}

#[test]
fn stages_are_installed_with_a_fixed_function() {
    assert_eq!(stage_function(0), (2, 1));
    assert_eq!(stage_function(1), (3, 2));
    let (g, job_plan) = graph(&[1, 2, 3, 4]);
    let mut install = integrated_stage_install(&g, &job_plan, &g.pipeline_stages[0]);
    install.state_hash = art(60);
    let take = |n: u128, from: u128, valid, hash: u128, existing, held| {
        receive_pipeline_install(
            node(n), node(from), &install, valid, art(hash), Some(&g), &job_plan, existing, held,
        )
    };
    let (stage, ack) = take(3, 1, true, 60, None, 0).unwrap();
    assert_eq!((stage.coefficient, stage.bias), (2, 1));
    assert!(ack.accepted);
    assert_eq!(install_local_pipeline_stage(&install, art(60)), Some(stage));
    assert_eq!(install_local_pipeline_stage(&install, art(61)), None);
    assert!(take(1, 1, true, 60, Some(stage), 256).is_ok());
    assert_eq!(take(3, 1, false, 60, None, 0), Err(PipelineInstallError::Invalid));
    assert_eq!(take(3, 1, true, 61, None, 0), Err(PipelineInstallError::HashMismatch));
    assert_eq!(take(3, 2, true, 60, None, 0), Err(PipelineInstallError::WrongTarget));
    assert_eq!(take(3, 1, true, 60, None, 256), Err(PipelineInstallError::Full));
    let mut other = stage;
    other.bias = 7;
    assert_eq!(take(3, 1, true, 60, Some(other), 0), Err(PipelineInstallError::Conflict));
    let mut wide = install;
    wide.stage_count = 3;
    let wrong = receive_pipeline_install(
        node(3), node(1), &wide, true, art(60), Some(&g), &job_plan, None, 0,
    );
    assert_eq!(wrong, Err(PipelineInstallError::Unauthorized));
    assert_eq!(local_pipeline_stage(Some(stage), 1), Ok(()));
    assert_eq!(local_pipeline_stage(Some(stage), 2), Err(PipelineError::Mismatch));
    assert_eq!(local_pipeline_stage(None, 1), Err(PipelineError::Unavailable));
}

#[test]
fn activations_and_gradients_pass_both_stages() {
    let (g, job_plan) = graph(&[1, 2, 3, 4]);
    let stage = |id: u16| V4LocalPipelineStage {
        job_id: job(),
        plan_generation: 1,
        stage_id: id,
        stage_count: 2,
        coefficient: 2,
        bias: 1,
        state_hash: art(60),
    };
    let request = JobId { hi: 4, lo: 4 };
    let (mut round, action) = begin_pipeline_round(&g, &job_plan, node(1), request, 0).unwrap();
    let forward = match action {
        PipelineAction::SendForward(to, message) => {
            assert_eq!((to, message.next_stage), (node(3), Some(node(4))));
            assert_eq!((message.activation.clone(), message.deadline_ms), (vec![1, 2], 8_000));
            message
        }
        other => panic!("the first stage is elsewhere: {other:?}"),
    };
    let judge = |n: u128, from: u128, f: &V4PipelineForward, stage| {
        receive_pipeline_forward(node(n), node(from), f, Some(&g), &job_plan, stage)
    };
    assert_eq!(judge(3, 1, &forward, Some(stage(0))), Ok(()));
    assert_eq!(judge(3, 2, &forward, Some(stage(0))), Err(PipelineError::Unauthorized));
    assert_eq!(judge(3, 1, &forward, None), Err(PipelineError::Unavailable));
    let mut stale = stage(0);
    stale.plan_generation = 2;
    assert_eq!(judge(3, 1, &forward, Some(stale)), Err(PipelineError::Mismatch));
    let passed = match forward_step(&forward, art(60), vec![3, 5]).unwrap() {
        ForwardStep::Next(target, message) => {
            assert_eq!(target, node(4));
            message
        }
        _ => panic!("the second stage is next"),
    };
    assert_eq!(judge(4, 3, &passed, Some(stage(1))), Ok(()));
    match forward_step(&passed, art(60), vec![11, 17]).unwrap() {
        ForwardStep::Done(target, result) => {
            assert_eq!((target, result.activation), (node(1), vec![11, 17]));
        }
        _ => panic!("the second stage is the last"),
    }
    let mut open = forward.duplicate();
    open.next_stage = None;
    assert_eq!(forward_step(&open, art(60), Vec::new()), Err(PipelineError::MissingSuccessor));
    open.stage_id = 1;
    open.next_stage = Some(node(4));
    assert_eq!(forward_step(&open, art(60), Vec::new()), Err(PipelineError::InvalidSuccessor));
    let result = |forward: bool, microbatch: u32| PipelineEvent::Result {
        forward,
        request_id: request,
        plan_generation: 1,
        microbatch,
    };
    let second = pipeline_training_round(&mut round, PipelineEvent::Sent);
    assert!(matches!(second, PipelineAction::SendForward(_, f) if f.microbatch == 1));
    assert_eq!(pipeline_training_round(&mut round, PipelineEvent::Sent), PipelineAction::Wait);
    assert_eq!(pipeline_training_round(&mut round, result(true, 1)), PipelineAction::Wait);
    assert_eq!(pipeline_training_round(&mut round, result(false, 0)), PipelineAction::Wait);
    let backward = match pipeline_training_round(&mut round, result(true, 0)) {
        PipelineAction::SendBackward(to, message) => {
            assert_eq!((to, message.previous_stage), (node(4), Some(node(3))));
            message
        }
        other => panic!("the gradients follow: {other:?}"),
    };
    assert_eq!(backward.gradient, vec![1, 1]);
    let judge_back = |n: u128, from: u128, b: &V4PipelineBackward, g: Option<&V4ExecutionGraph>| {
        receive_pipeline_backward(node(n), node(from), b, g, &job_plan, Some(stage(1)))
    };
    assert_eq!(judge_back(4, 1, &backward, Some(&g)), Ok(()));
    assert_eq!(judge_back(4, 3, &backward, Some(&g)), Err(PipelineError::Unauthorized));
    let returned = match backward_step(&backward, art(60), vec![3, 3]) {
        BackwardStep::Previous(target, message) => {
            assert_eq!(target, node(3));
            message
        }
        _ => panic!("the first stage comes before"),
    };
    assert_eq!(judge_back(3, 4, &returned, Some(&g)), Ok(()));
    match backward_step(&returned, art(60), vec![6, 6]) {
        BackwardStep::Done(target, result) => {
            assert_eq!((target, result.gradient), (node(1), vec![6, 6]));
        }
        _ => panic!("the first stage is the end"),
    }
    let mut loose = backward.duplicate();
    loose.previous_stage = None;
    assert_eq!(judge_back(4, 1, &loose, None), Err(PipelineError::MissingPredecessor));
    loose.stage_id = 0;
    loose.previous_stage = Some(node(3));
    assert_eq!(judge_back(4, 2, &loose, None), Err(PipelineError::InvalidPredecessor));
    pipeline_training_round(&mut round, PipelineEvent::Sent);
    assert_eq!(pipeline_training_round(&mut round, PipelineEvent::Sent), PipelineAction::Wait);
    assert_eq!(pipeline_training_round(&mut round, result(false, 1)), PipelineAction::Wait);
    assert_eq!(pipeline_training_round(&mut round, result(false, 0)), PipelineAction::Done);
    assert_eq!(step_deadline(u64::MAX), u32::MAX);
}

#[test]
fn a_pipeline_round_runs_the_stages_of_its_own_node() {
    let (g, job_plan) = graph(&[1, 2, 3, 4]);
    let request = JobId { hi: 4, lo: 4 };
    // The first stage is here.
    let (mut round, action) =
        begin_pipeline_round(&g, &job_plan, node(3), request, u64::MAX).unwrap();
    assert_eq!(
        action,
        PipelineAction::RunStage { stage_id: 0, values: vec![i64::MAX, 2], forward: true }
    );
    match pipeline_training_round(&mut round, PipelineEvent::StageDone(vec![5, 6])) {
        PipelineAction::SendForward(to, message) => {
            assert_eq!((to, message.stage_id, message.next_stage), (node(4), 1, None));
            assert_eq!(message.activation, vec![5, 6]);
        }
        other => panic!("the second stage is elsewhere: {other:?}"),
    }
    assert_eq!(
        pipeline_training_round(&mut round, PipelineEvent::NotSent),
        PipelineAction::Fail(PipelineRoundError::Unavailable)
    );
    // Both are here: nothing is sent.
    let mut near = g.duplicate();
    near.pipeline_stages[1].worker = node(3);
    let (mut round, mut action) =
        begin_pipeline_round(&near, &job_plan, node(3), request, 0).unwrap();
    let mut stages = Vec::new();
    while let PipelineAction::RunStage { stage_id, forward, .. } = action {
        stages.push((stage_id, forward));
        action = pipeline_training_round(&mut round, PipelineEvent::StageDone(vec![1]));
    }
    assert_eq!(action, PipelineAction::Done);
    let ways = [(0, true), (1, true), (0, true), (1, true)];
    let back = [(1, false), (0, false), (1, false), (0, false)];
    assert_eq!(stages, [ways, back].concat());
    let (mut round, _) = begin_pipeline_round(&near, &job_plan, node(3), request, 0).unwrap();
    assert_eq!(
        pipeline_training_round(&mut round, PipelineEvent::StageFailed),
        PipelineAction::Fail(PipelineRoundError::Stage)
    );
    let (mut round, _) = begin_pipeline_round(&g, &job_plan, node(1), request, 0).unwrap();
    pipeline_training_round(&mut round, PipelineEvent::Sent);
    pipeline_training_round(&mut round, PipelineEvent::Sent);
    assert_eq!(
        pipeline_training_round(&mut round, PipelineEvent::OtherMessage),
        PipelineAction::Wait
    );
    assert_eq!(
        pipeline_training_round(&mut round, PipelineEvent::NoMessage),
        PipelineAction::Fail(PipelineRoundError::NoResult)
    );
    near.pipeline_stages.truncate(1);
    assert!(begin_pipeline_round(&near, &job_plan, node(3), request, 0).is_none());
}

#[test]
fn contributions_are_summed_up_by_groups() {
    let workers = plan(&[1, 2, 3, 4]);
    let offers: Vec<V4CollectiveContribute> =
        (0..4).map(|i| collective_demo(&workers, node(9), i)).collect();
    assert_eq!(
        route_contribution(node(1), node(2), &workers, &offers[1]),
        Ok(ContributionRoute::Collect)
    );
    assert_eq!(
        route_contribution(node(2), node(9), &workers, &offers[1]),
        Ok(ContributionRoute::HandOn)
    );
    assert_eq!(
        route_contribution(node(3), node(9), &workers, &offers[1]),
        Err(CollectiveError::NotContributor)
    );
    assert_eq!(
        route_contribution(node(1), node(4), &workers, &offers[1]),
        Err(CollectiveError::WrongSender)
    );
    let mut stranger = offers[1].duplicate();
    stranger.contributor = node(8);
    assert_eq!(
        route_contribution(node(1), node(8), &workers, &stranger),
        Err(CollectiveError::Unauthorized)
    );
    // Node 1 leads the first group, node 3 the second.
    let mut first = open_by_contribution(&offers[0]);
    assert_eq!(receive_collective_contribution(&mut first, &offers[0]), Ok(None));
    assert_eq!(receive_collective_contribution(&mut first, &offers[0]), Ok(None));
    let mut changed = offers[0].duplicate();
    changed.values[0] = 50;
    assert_eq!(
        receive_collective_contribution(&mut first, &changed),
        Err(CollectiveError::Duplicate)
    );
    assert_eq!(
        receive_collective_contribution(&mut first, &offers[2]),
        Err(CollectiveError::Conflict)
    );
    let done = receive_collective_contribution(&mut first, &offers[1]).unwrap().unwrap();
    assert_eq!((done.values.clone(), done.contributors, done.parent), (vec![3, 2], 2, Some(node(3))));
    let mut second = open_by_contribution(&offers[2]);
    receive_collective_contribution(&mut second, &offers[2]).unwrap();
    let theirs = receive_collective_contribution(&mut second, &offers[3]).unwrap().unwrap();
    let message = group_message(&offers[3], node(3), &theirs);
    assert!(aggregate_authorized(&workers, node(3), &message));
    assert!(!aggregate_authorized(&workers, node(1), &message));
    let own = group_completion(&offers[1], &done);
    assert_eq!(finish_collective_group(&mut first, &own), Ok(None));
    let result = receive_collective_aggregate(&mut first, &message).unwrap().unwrap();
    assert_eq!(result.values, vec![10, 4]);
    assert_eq!((result.contributor_bytes, result.root_received_bytes), (64, 32));
    assert_eq!((result.group_count, result.max_fan_in), (2, 2));
    // The other root comes to the same sum, in whatever order the groups arrive.
    let ours = group_message(&offers[1], node(1), &done);
    let mut other = open_by_aggregate(&ours);
    assert_eq!(receive_collective_aggregate(&mut other, &ours), Ok(None));
    let agreed = finish_collective_group(&mut other, &group_completion(&offers[3], &theirs));
    assert_eq!(agreed.unwrap().unwrap().values, vec![10, 4]);
    let mut forged = ours.duplicate();
    forged.values[0] = 99;
    assert_eq!(
        receive_collective_aggregate(&mut other, &forged),
        Err(CollectiveError::Duplicate)
    );
    forged.generation = 2;
    assert_eq!(
        receive_collective_aggregate(&mut other, &forged),
        Err(CollectiveError::Conflict)
    );
    assert!(may_open_request(true, 5_000) && may_open_request(false, 1_023));
    assert!(!may_open_request(false, 1_024));
}

#[test]
fn collective_rounds_hear_every_root() {
    let (g, job_plan) = graph(&[1, 2, 3, 4]);
    let request = JobId { hi: 5, lo: 5 };
    let (mut round, action) = begin_collective_round(&g, &job_plan, node(1), request, 2);
    assert_eq!((round.generation, round.group_count), (3, 2));
    match action {
        CollectiveAction::Send(to, offer) => {
            assert_eq!((to, offer.contributor), (node(2), node(1)));
            assert_eq!((offer.values, offer.expected_contributors), (vec![2, 1], 1));
        }
        other => panic!("the first group gets its contribution: {other:?}"),
    }
    let step = |round: &mut CollectiveRound, event| collective_training_round(round, &g, event);
    match step(&mut round, CollectiveEvent::Sent) {
        CollectiveAction::Send(to, offer) => assert_eq!((to, offer.aggregator), (node(4), node(3))),
        other => panic!("the second group follows: {other:?}"),
    }
    assert_eq!(step(&mut round, CollectiveEvent::Sent), CollectiveAction::Wait);
    let result = V4CollectiveResult {
        request_id: request,
        job_id: job(),
        plan_generation: 1,
        generation: 3,
        values: vec![4, 2],
        group_count: 2,
        max_fan_in: 2,
        contributor_bytes: 32,
        root_received_bytes: 32,
    };
    for peer in [2, 2, 1] {
        let total = CollectiveEvent::Total(node(peer), result.duplicate());
        assert_eq!(step(&mut round, total), CollectiveAction::Wait);
    }
    let total = CollectiveEvent::Total(node(3), result.duplicate());
    assert_eq!(step(&mut round, total), CollectiveAction::Done);
    let (mut lost, _) = begin_collective_round(&g, &job_plan, node(1), request, 2);
    assert_eq!(
        step(&mut lost, CollectiveEvent::NotSent),
        CollectiveAction::Fail(CollectiveRoundError::Unavailable)
    );
    let (mut lost, _) = begin_collective_round(&g, &job_plan, node(1), request, 2);
    step(&mut lost, CollectiveEvent::Sent);
    step(&mut lost, CollectiveEvent::Sent);
    assert_eq!(step(&mut lost, CollectiveEvent::OtherMessage), CollectiveAction::Wait);
    assert_eq!(
        step(&mut lost, CollectiveEvent::NoMessage),
        CollectiveAction::Fail(CollectiveRoundError::NoResult)
    );
    let mut unmanned = g.duplicate();
    unmanned.aggregation_groups[0].members = nodes(&[2]);
    let (_, action) = begin_collective_round(&unmanned, &job_plan, node(1), request, 2);
    assert_eq!(action, CollectiveAction::Fail(CollectiveRoundError::NoContributor));
    let mut answers = Vec::new();
    let mut shown = result.duplicate();
    shown.request_id = job();
    note_root_result(&mut answers, &job_plan, node(3), shown.duplicate());
    note_root_result(&mut answers, &job_plan, node(3), shown.duplicate());
    note_root_result(&mut answers, &job_plan, node(2), shown.duplicate());
    assert_eq!(answers.len(), 1);
    shown.root_received_bytes = 1;
    note_root_result(&mut answers, &job_plan, node(1), shown.duplicate());
    assert_eq!(agreed_result(&answers).unwrap().root_received_bytes, 1);
    answers[0].result.values[0] = 5;
    assert!(agreed_result(&answers).is_none());
}

#[test]
fn outlying_updates_are_told_apart() {
    let mut sgd = plan(&[1, 2, 3]);
    sgd.strategy = V4ParallelismStrategy::LocalSgd;
    let workers = nodes(&[1, 2, 3]);
    assert!(valid_byzantine_group(&workers, 1));
    assert!(!valid_byzantine_group(&workers, 3) && !valid_byzantine_group(&nodes(&[1, 2]), 0));
    let policy = V4ByzantinePolicy::CoordinateMedian;
    let mut updates = byzantine_demo(&sgd, node(9), &workers, 1, policy);
    assert_eq!(updates.len(), 5);
    let again = updates.remove(1);
    assert_eq!(again, updates[0]);
    let twisted = updates.remove(1);
    assert_eq!(updates[0].values, vec![-1000, -1000]);
    let shown = update_contribution(&sgd, &updates[2]);
    assert_eq!((shown.worker, shown.branch), (node(3), sgd.branch));
    assert_eq!((shown.sequence, shown.values), (1, vec![12, 10]));
    assert_eq!(updates[2].values, vec![12, 10]);
    let route = |n: u128, from: u128, p: &V4TrainingPlan| {
        route_update(node(n), node(from), p, &updates[1])
    };
    assert_eq!(route(1, 2, &sgd), Ok(UpdateRoute::Collect));
    assert_eq!(route(2, 9, &sgd), Ok(UpdateRoute::HandOn));
    assert_eq!(route(3, 9, &sgd), Err(ByzantineError::NotWorker));
    assert_eq!(route(1, 3, &sgd), Err(ByzantineError::WrongSender));
    assert_eq!(route(1, 2, &plan(&[1, 2, 3])), Err(ByzantineError::Unauthorized));
    let mut state = None;
    let full = receive_byzantine_update(&mut state, &updates[0], 1_024);
    assert_eq!(full, Err(ByzantineError::Full));
    assert_eq!(receive_byzantine_update(&mut state, &updates[0], 0), Ok(ByzantineStep::Waiting));
    assert_eq!(receive_byzantine_update(&mut state, &updates[0], 0), Ok(ByzantineStep::Waiting));
    assert_eq!(twisted.values, vec![-999, -999]);
    let duplicate = receive_byzantine_update(&mut state, &twisted, 0);
    assert_eq!(duplicate, Err(ByzantineError::Duplicate));
    let mut other = updates[1].duplicate();
    other.expected_updates = 7;
    let conflict = receive_byzantine_update(&mut state, &other, 0);
    assert_eq!(conflict, Err(ByzantineError::Conflict));
    receive_byzantine_update(&mut state, &updates[1], 0).unwrap();
    let ready = receive_byzantine_update(&mut state, &updates[2], 0);
    assert_eq!(ready, Ok(ByzantineStep::Ready));
    let running = state.as_mut().unwrap();
    let rows = collected_values(running);
    assert_eq!(rows, vec![vec![-1000, -1000], vec![11, 10], vec![12, 10]]);
    let result = finish_aggregation(running, job(), vec![11, 10]);
    assert_eq!(result.accepted_workers, nodes(&[2, 3]));
    assert_eq!(result.rejected_workers, nodes(&[1]));
    assert!(result.robust);
    let replay = receive_byzantine_update(&mut state, &updates[0], 0);
    assert_eq!(replay, Ok(ByzantineStep::Replay(result)));
    other.generation = 2;
    let stale = receive_byzantine_update(&mut state, &other, 0);
    assert_eq!(stale, Err(ByzantineError::ReplayConflict));
}

#[test]
fn demonstrations_send_fixed_values() {
    let shown = plan(&[1, 2, 3, 4]);
    assert!(remote_group(node(9), &nodes(&[1, 2]), 2));
    assert!(!remote_group(node(1), &nodes(&[1, 2]), 2));
    assert!(!remote_group(node(9), &nodes(&[1, 2]), 3));
    assert_eq!(tensor_owners(&shown), Ok((node(1), node(2))));
    let mut extra = shown.duplicate();
    extra.shards.push(shard(2, 3, 4));
    assert_eq!(tensor_owners(&extra), Err(TensorDemoError::ShardCount));
    extra.shards[1].owners.clear();
    assert_eq!(tensor_owners(&extra), Err(TensorDemoError::Ownerless));
    let install = demo_tensor_install(&shown, 1);
    assert_eq!((install.row_offset, install.weights), (2, vec![0, 2, 1, 1, 1, 0, 1, 2]));
    assert_eq!(demo_tensor_forward(&shown, job(), 0).input, vec![1, 2, 3, 4]);
    assert_eq!(demo_tensor_backward(&shown, job(), 0).upstream, vec![1, 1]);
    let mut installed = OrdMap::new();
    let mut ack = V4TensorInstallAck {
        job_id: job(),
        plan_generation: 2,
        shard_id: 1,
        state_hash: art(5),
        accepted: true,
    };
    note_demo_tensor(&mut installed, &shown, &ack);
    assert_eq!(installed.len(), 0);
    ack.plan_generation = 1;
    note_demo_tensor(&mut installed, &shown, &ack);
    assert_eq!(installed.get(1), Some(&art(5)));
    let mut forwards = OrdMap::new();
    let output = |id: u16, output: Vec<i64>| {
        let mut asked = demo_tensor_forward(&shown, job(), id);
        asked.sequence = 1;
        forward_result(&asked, &tensor(), output)
    };
    forwards.insert(1, output(1, vec![3, 4]));
    forwards.insert(0, output(0, vec![1, 2]));
    assert_eq!(tensor_demo_output(&forwards), vec![1, 2, 3, 4]);
    assert_eq!((microbatch_count(0), microbatch_count(5), microbatch_count(99)), (1, 5, 8));
    let stage = demo_stage_install(&shown, 1);
    assert_eq!((stage.coefficient, stage.bias, stage.stage_count), (3, 2, 2));
    let mut stages = OrdMap::new();
    let stage_ack = V4PipelineInstallAck {
        job_id: job(),
        plan_generation: 1,
        stage_id: 1,
        state_hash: art(6),
        accepted: true,
    };
    note_demo_stage(&mut stages, &shown, &stage_ack);
    assert_eq!(stages.get(1), Some(&art(6)));
    assert_eq!(demo_pipeline_forward(&shown, node(2), node(9), 3).activation, vec![4]);
    assert_eq!(demo_pipeline_backward(&shown, node(1), node(9)).gradient, vec![1]);
    let result = |microbatch: u32, mark: i64| V4PipelineForwardResult {
        request_id: job(),
        job_id: job(),
        plan_generation: 1,
        microbatch,
        stage_id: 1,
        activation: vec![mark],
        state_hash: art(1),
    };
    let sorted = sort_results(vec![result(2, 1), result(0, 2), result(2, 3), result(1, 4)]);
    let marks: Vec<i64> = sorted.iter().map(|r| r.activation[0]).collect();
    assert_eq!(marks, vec![2, 4, 1, 3]);
}

#[test]
fn tensor_demonstrations_run_in_order() {
    let shown = plan(&[1, 2]);
    let request = JobId { hi: 7, lo: 7 };
    let (mut run, first) = begin_tensor_demo(&shown, request).unwrap();
    let mut sent = Vec::new();
    let mut action = first;
    let mut answers: Vec<TensorDemoEvent> = Vec::new();
    for id in [1, 0] {
        let result = V4TensorBackwardResult {
            request_id: request,
            job_id: job(),
            plan_generation: 1,
            shard_id: id,
            sequence: 1,
            weight_gradient: vec![],
            input_gradient: vec![],
            state_hash: art(70 + u128::from(id)),
            state_generation: 1,
            optimizer_state_hash: None,
            optimizer_state_generation: 0,
        };
        answers.push(TensorDemoEvent::Backward(result));
    }
    for id in [0, 1] {
        let asked = demo_tensor_forward(&shown, request, id);
        let output = vec![i64::from(id), 5];
        let mut result = forward_result(&asked, &tensor(), output);
        result.shard_id = id;
        answers.push(TensorDemoEvent::Forward(result));
    }
    answers.push(TensorDemoEvent::OtherMessage);
    for id in [0, 1] {
        answers.push(TensorDemoEvent::InstallAck(V4TensorInstallAck {
            job_id: job(),
            plan_generation: 1,
            shard_id: id,
            state_hash: art(1),
            accepted: true,
        }));
    }
    let done = loop {
        let event = match action {
            TensorDemoAction::Send { to, message } => {
                sent.push((to, matches!(message, TensorDemoMessage::Install(_))));
                TensorDemoEvent::Sent(true)
            }
            TensorDemoAction::Wait => answers.pop().unwrap(),
            done => break done,
        };
        action = tensor_demo(&mut run, &shown, event);
    };
    let wanted = vec![
        (node(1), true),
        (node(2), true),
        (node(1), false),
        (node(2), false),
        (node(1), false),
        (node(2), false),
    ];
    assert_eq!(sent, wanted);
    assert_eq!(
        done,
        TensorDemoAction::Done { output: vec![0, 5, 1, 5], state_hashes: (art(70), art(71)) }
    );
    let (mut lost, _) = begin_tensor_demo(&shown, request).unwrap();
    assert_eq!(
        tensor_demo(&mut lost, &shown, TensorDemoEvent::Sent(false)),
        TensorDemoAction::Fail(TensorDemoFailure::Unreachable)
    );
    let (mut silent, _) = begin_tensor_demo(&shown, request).unwrap();
    tensor_demo(&mut silent, &shown, TensorDemoEvent::Sent(true));
    tensor_demo(&mut silent, &shown, TensorDemoEvent::Sent(true));
    assert_eq!(
        tensor_demo(&mut silent, &shown, TensorDemoEvent::NoMessage),
        TensorDemoAction::Fail(TensorDemoFailure::Unanswered(TensorDemoPhase::Install))
    );
}

#[test]
fn pipeline_demonstrations_run_in_order() {
    let shown = plan(&[1, 2]);
    let begin = |count| begin_pipeline_demo(node(9), (node(1), node(2)), count, &shown);
    let (mut run, first) = begin(2);
    assert_eq!(run.microbatches, 2);
    let mut sent = Vec::new();
    let mut action = first;
    let mut answers = vec![PipelineDemoEvent::Backward(V4PipelineBackwardResult {
        request_id: job(),
        job_id: job(),
        plan_generation: 1,
        microbatch: 0,
        stage_id: 0,
        gradient: vec![6],
        state_hash: art(2),
    })];
    for microbatch in [0, 1] {
        answers.push(PipelineDemoEvent::Forward(V4PipelineForwardResult {
            request_id: job(),
            job_id: job(),
            plan_generation: 1,
            microbatch,
            stage_id: 1,
            activation: vec![i64::from(microbatch)],
            state_hash: art(1),
        }));
    }
    for stage_id in [0, 1] {
        answers.push(PipelineDemoEvent::InstallAck(V4PipelineInstallAck {
            job_id: job(),
            plan_generation: 1,
            stage_id,
            state_hash: art(1),
            accepted: true,
        }));
    }
    let done = loop {
        let event = match action {
            PipelineDemoAction::Send { to, message } => {
                sent.push((to, matches!(message, PipelineDemoMessage::Forward(_))));
                PipelineDemoEvent::Sent(true)
            }
            PipelineDemoAction::Wait => answers.pop().unwrap(),
            done => break done,
        };
        action = pipeline_demo(&mut run, &shown, event);
    };
    let wanted = vec![
        (node(1), false),
        (node(2), false),
        (node(1), true),
        (node(1), true),
        (node(2), false),
    ];
    assert_eq!(sent, wanted);
    match done {
        PipelineDemoAction::Done { results, backward } => {
            let order: Vec<u32> = results.iter().map(|r| r.microbatch).collect();
            assert_eq!((order, backward.gradient), (vec![0, 1], vec![6]));
        }
        other => panic!("both microbatches come through: {other:?}"),
    }
    let (mut lost, _) = begin(0);
    assert_eq!(lost.microbatches, 1);
    assert_eq!(
        pipeline_demo(&mut lost, &shown, PipelineDemoEvent::Sent(false)),
        PipelineDemoAction::Fail(PipelineDemoFailure::Unreachable)
    );
    let (mut silent, _) = begin(3);
    pipeline_demo(&mut silent, &shown, PipelineDemoEvent::Sent(true));
    pipeline_demo(&mut silent, &shown, PipelineDemoEvent::Sent(true));
    assert_eq!(
        pipeline_demo(&mut silent, &shown, PipelineDemoEvent::NoMessage),
        PipelineDemoAction::Fail(PipelineDemoFailure::NotInstalled)
    );
}

#[test]
fn awaited_numbers_are_removed_once() {
    let mut numbers = NumberSet::new();
    numbers.insert(4);
    numbers.insert(4);
    assert!(numbers.remove(4));
    assert!(!numbers.remove(4));
    assert!(numbers.is_empty());
    let mut keys = AckSet::new();
    let key = AckKey { peer: node(1), item: 2, replica: false };
    keys.insert(key);
    assert!(keys.remove(key) && !keys.remove(key));
}
