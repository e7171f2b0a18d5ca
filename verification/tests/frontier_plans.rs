//! Plans, shards, replicas, profiles and the backends of roles.

use distributed_training::base::ids::{ArtifactId, JobId, NodeId};
use distributed_training::base::members::NodeSet;
use distributed_training::base::record::{Duplicate, duplicate_all};
use distributed_training::frontier::activation::{
    ActivationAction, ActivationEvent, activate_plan, begin_plan_activation,
};
use distributed_training::frontier::announcement::{
    AnnouncementAction, AnnouncementEvent, acknowledge_plan_update, begin_announcement,
};
use distributed_training::frontier::authority::{
    Inspection, PlanAccessError, authorized_integrated_pipeline_context, authorized_reference_plan,
    find_stage, may_work_on_tensor, runs_collectives, runs_stages, runs_tensors,
};
use distributed_training::frontier::backend::{
    BackendOption, BindError, backend_assignment, bind_backend_assignments,
    compute_task_requirements, execute_backend_task, kernel_id, plan_roles,
    requirements_with_fallback, role_elements, task_bounds,
};
use distributed_training::frontier::claims::{
    Claim, ClaimKind, checkpoint_claim, optimizer_claim, plan_claim, proposal_claim, state_claim,
};
use distributed_training::frontier::handover::{
    Handover, HandoverAction, HandoverError, HandoverEvent, hand_over, migrate_shard,
    transfer_shard_without_plan_commit,
};
use distributed_training::frontier::integrated::{
    BuildError, build_integrated_start, optimizer_placements, plan_integrated_job,
};
use distributed_training::frontier::local::{
    V4LocalDataShard, V4LocalPipelineStage, V4LocalTensorShard, V4PlanAck, V4ShardMigrationPhase,
};
use distributed_training::frontier::messages::{migration_result, on_migration_result};
use distributed_training::frontier::migration::{
    MigrateError, RequestVerdict, SeedError, TransferError, TransferStep, migration_ack,
    migration_request, migration_verified, next_ownership, receive_shard_migration,
    receive_shard_migration_request, seed_shard, sync_data_shard, sync_pipeline_stage,
    sync_tensor_shard, transfer_confirmed, transfer_message, valid_state_size,
};
use distributed_training::frontier::plan::{
    AckVerdict, ActivationError, MoveError, PlanVerdict, ProposalVerdict, ReplanError,
    ShardPlanError, check_activation,
    commit_plan_shard_migration, find_shard, local_move_ready, on_commit_ack, on_proposal_ack,
    owner_of, plan_ack, proposal_ack, receive_plan, receive_plan_proposal, replan,
    shard_move, update_recipients,
};
use distributed_training::frontier::policy::{
    V4ByzantinePolicy, V4ReconciliationPolicy, parse_byzantine_policy, parse_policy, parse_strategy,
};
use distributed_training::frontier::profiles::{
    BackendClaim, ProfileCapability, ProfileRecord, WorkerProfile, qualified_profiles,
    topology_links, v4_worker_capability, worker_profile, worker_profiles,
};
use distributed_training::frontier::reaching::{
    ReachAction, ReachEvent, ReachRun, begin_reach, reachable_worker_profiles,
};
use distributed_training::frontier::reconcile::{
    BranchDecision, branch, receive_reconcile, reconcile_demo,
};
use distributed_training::frontier::reference_plan::{
    ReferenceAction, ReferenceEvent, await_reference_plan, begin_reference_wait,
};
use distributed_training::frontier::replication::{
    V4StateAck, V4StateAckKind, expected_copies, first_checkpoint, note_copy, optimizer_records,
    receive_checkpoint_record, receive_optimizer_shard, receive_state_record, replicate_state,
    shard_count, valid_replication_peers,
};
use distributed_training::frontier::requests::plan as plan_request;
use distributed_training::frontier::requests::{
    Locality, ReferencePlanError, integrated_request, pipeline_assignments, prepare_reference_plan,
    replan_request,
};
use distributed_training::frontier::types::{
    BackendCapability, BackendHealth, BackendKind, ComputeRequirements, ComputeTaskKind,
    HardwareKind, V4AcceleratorFamily, V4ParallelismStrategy, V4ShardLifecycle, V4ShardOwnership,
    V4TrainingPlan, V4WorkerCapability,
};

fn node(n: u128) -> NodeId {
    NodeId { hi: 0, lo: n }
}

fn job() -> JobId {
    JobId { hi: 0, lo: 7 }
}

fn art(n: u128) -> ArtifactId {
    ArtifactId { hi: 0, lo: n }
}

fn nodes(ids: &[u128]) -> Vec<NodeId> {
    ids.iter().map(|n| node(*n)).collect()
}

fn capability(n: u128) -> V4WorkerCapability {
    V4WorkerCapability {
        node: node(n),
        family: V4AcceleratorFamily::Cpu,
        device_model: "Cpu".to_string(),
        physical_verified: true,
        memory_bytes: 8192,
        compute_units: 1,
        rtt_ms: 5,
        bandwidth_mbps: 10,
        reliability_permille: 900,
        backends: vec![BackendCapability {
            kind: BackendKind::Cpu,
            runtime_available: true,
            health: BackendHealth::Healthy,
        }],
    }
}

fn shard(id: u16, owner: u128, replica: u128) -> V4ShardOwnership {
    V4ShardOwnership {
        shard_id: id,
        model_generation: 1,
        owners: nodes(&[owner]),
        replicas: nodes(&[replica]),
        ownership_generation: 1,
        content_hash: art(500 + id as u128),
        state_bytes: 64,
        memory_bytes: 128,
        runtime_requirement: "reference.cpu.i64.tensor-row".to_string(),
        lifecycle: V4ShardLifecycle::Active,
    }
}

/// A plan of node 1 over the given workers, with two shards.
fn plan(workers: &[u128]) -> V4TrainingPlan {
    V4TrainingPlan {
        job_id: job(),
        proposer: node(1),
        plan_generation: 1,
        parent_plan_hash: None,
        training_epoch: 1,
        membership_epoch: 1,
        coordination_term: 1,
        model_generation: 1,
        branch: art(100),
        strategy: V4ParallelismStrategy::Hybrid,
        tensor_degree: 2,
        pipeline_stages: 2,
        local_steps: 1,
        max_staleness: 2,
        checkpoint_replication: 2,
        workers: nodes(workers),
        worker_capabilities: workers.iter().map(|n| capability(*n)).collect(),
        groups: Vec::new(),
        shards: vec![shard(0, 1, 3), shard(1, 2, 4)],
        compute_requirements: Vec::new(),
        backend_assignments: Vec::new(),
        plan_hash: art(600),
    }
}

fn requirements() -> ComputeRequirements {
    ComputeRequirements {
        required_backend: None,
        allowed_backends: vec![BackendKind::Cpu],
        fallback_backends: Vec::new(),
        fallback_allowed: false,
    }
}

fn local_shard() -> V4LocalDataShard {
    V4LocalDataShard {
        job_id: job(),
        shard_id: 0,
        plan_generation: 1,
        ownership_generation: 1,
        hash: art(500),
        bytes: vec![1, 2, 3],
    }
}

#[test]
fn plans_are_taken_from_their_proposer() {
    let offered = plan(&[1, 2, 3, 4]);
    assert_eq!(receive_plan(node(2), node(1), &offered, &None, false, true), PlanVerdict::Accepted);
    assert_eq!(receive_plan(node(2), node(1), &offered, &None, false, false), PlanVerdict::Invalid);
    let foreign = receive_plan(node(2), node(3), &offered, &None, false, true);
    assert_eq!(foreign, PlanVerdict::Unauthorized);
    let conflict = receive_plan(node(2), node(1), &offered, &None, true, true);
    assert_eq!(conflict, PlanVerdict::Unauthorized);
    let mut other = plan(&[1, 2, 3, 4]);
    other.plan_hash = art(601);
    let verdict = receive_plan(node(2), node(1), &other, &Some(offered.duplicate()), false, true);
    assert_eq!(verdict, PlanVerdict::ConflictingHash { local_hash: art(600) });
    let mut old = plan(&[1, 2, 3, 4]);
    old.plan_generation = 0;
    let verdict = receive_plan(node(2), node(1), &old, &Some(offered.duplicate()), false, true);
    assert_eq!(verdict, PlanVerdict::Mismatch { local_generation: 1, local_hash: art(600) });
    // A worker hands on the next generation.
    let mut next = plan(&[1, 2, 3, 4]);
    next.plan_generation = 2;
    next.parent_plan_hash = Some(art(600));
    next.plan_hash = art(602);
    let verdict = receive_plan(node(2), node(3), &next, &Some(offered.duplicate()), false, true);
    assert_eq!(verdict, PlanVerdict::Accepted);
    assert!(plan_ack(&next, true).accepted);
    // It cannot change the workers on the way; the proposer can.
    next.workers = nodes(&[1, 2, 3]);
    let verdict = receive_plan(node(2), node(3), &next, &Some(offered.duplicate()), false, true);
    assert_eq!(verdict, PlanVerdict::Mismatch { local_generation: 1, local_hash: art(600) });
    let verdict = receive_plan(node(2), node(1), &next, &Some(offered.duplicate()), false, true);
    assert_eq!(verdict, PlanVerdict::Accepted);
}

#[test]
fn proposals_continue_the_active_plan() {
    let current = plan(&[1, 2, 3, 4]);
    let mut proposal = plan(&[1, 2, 3, 4]);
    let judge = |p: &V4TrainingPlan, from: u128, valid: bool, kept: Option<u64>, count: usize| {
        receive_plan_proposal(node(2), node(from), p, &Some(plan(&[1, 2, 3, 4])), valid, kept, count)
    };
    assert_eq!(judge(&proposal, 1, true, None, 0), ProposalVerdict::NoParent);
    proposal.parent_plan_hash = Some(current.plan_hash);
    assert_eq!(judge(&proposal, 1, true, None, 0), ProposalVerdict::NotInLineage);
    proposal.plan_generation = 2;
    assert_eq!(judge(&proposal, 1, true, None, 0), ProposalVerdict::Stored);
    assert_eq!(judge(&proposal, 1, true, Some(3), 1), ProposalVerdict::Superseded);
    assert_eq!(judge(&proposal, 1, true, None, 128), ProposalVerdict::CacheFull);
    assert_eq!(judge(&proposal, 3, true, None, 0), ProposalVerdict::NotProposer);
    assert_eq!(judge(&proposal, 1, false, None, 0), ProposalVerdict::Invalid);
    assert_eq!(proposal_ack(&proposal, true).proposal_hash, art(600));
}

#[test]
fn a_replan_keeps_what_the_shards_hold() {
    let previous = plan(&[1, 2, 3, 4]);
    let mut decision = plan(&[1, 2, 3, 5]);
    decision.shards[0].owners = nodes(&[5]);
    decision.shards[0].content_hash = art(999);
    let next = replan(decision, &previous).unwrap();
    assert_eq!(next.plan_generation, 2);
    assert_eq!(next.parent_plan_hash, Some(art(600)));
    assert_eq!(next.shards[0].content_hash, art(500));
    assert_eq!(next.shards[0].ownership_generation, 2);
    assert_eq!(next.shards[0].replicas, nodes(&[1, 3]));
    assert_eq!(next.shards[0].lifecycle, V4ShardLifecycle::Transferring);
    assert_eq!(next.shards[1].lifecycle, V4ShardLifecycle::Active);
    assert_eq!(next.plan_hash, ArtifactId::unsigned());
    let mut fewer = plan(&[1, 2]);
    fewer.shards.pop();
    assert_eq!(replan(fewer, &previous), Err(ReplanError::ShardCount));
    let mut renamed = plan(&[1, 2]);
    renamed.shards[1].shard_id = 9;
    assert_eq!(replan(renamed, &previous), Err(ReplanError::ShardIdentity));
}

#[test]
fn an_activation_asks_everyone_affected() {
    let current = plan(&[1, 2, 3, 4]);
    let mut proposal = plan(&[1, 3, 5]);
    proposal.plan_generation = 2;
    proposal.parent_plan_hash = Some(art(600));
    assert_eq!(
        check_activation(node(1), &current, &proposal, true),
        Ok(nodes(&[2, 3, 5]))
    );
    assert_eq!(
        check_activation(node(1), &current, &proposal, false),
        Err(ActivationError::Stale)
    );
    let mut other = proposal.duplicate();
    other.shards[0].shard_id = 9;
    assert_eq!(check_activation(node(1), &current, &other, true), Err(ActivationError::ShardSet));
    let mut wide = proposal.duplicate();
    wide.workers = (1..19).map(node).collect();
    assert_eq!(
        check_activation(node(1), &current, &wide, true),
        Err(ActivationError::TooManyParticipants)
    );
}

#[test]
fn an_activation_runs_through_all_stages() {
    let current = plan(&[1, 2]);
    let mut proposal = plan(&[1, 2]);
    proposal.plan_generation = 2;
    proposal.shards[0].owners = nodes(&[2]);
    let participants = nodes(&[2]);
    let workers = nodes(&[2]);
    let step = |a, event| activate_plan(a, &participants, &workers, &current, &proposal, event);
    let (a, action) = begin_plan_activation(&participants, &current, &proposal);
    assert_eq!(action, ActivationAction::Propose { to: node(2), reconnect: false });
    let (a, action) = step(a, ActivationEvent::Accepted);
    assert_eq!(action, ActivationAction::Propose { to: node(2), reconnect: true });
    let (a, action) = step(a, ActivationEvent::NoAnswer);
    match action {
        ActivationAction::Move(wanted) => {
            assert_eq!((wanted.from, wanted.to, wanted.shard_id), (node(1), node(2), 0));
        }
        _ => panic!("the first shard moves"),
    }
    let (a, action) = step(a, ActivationEvent::Moved);
    assert_eq!(action, ActivationAction::StorePlan);
    let (a, action) = step(a, ActivationEvent::Stored);
    assert_eq!(action, ActivationAction::Notify { to: node(2), reconnect: false });
    let (a, action) = step(a, ActivationEvent::Accepted);
    assert_eq!(action, ActivationAction::Finish);
    assert_eq!((a.acknowledged, a.migrated, a.notifications_failed), (1, 1, 0));
}

#[test]
fn an_activation_stops_before_it_stores_the_plan() {
    let current = plan(&[1, 2]);
    let mut proposal = plan(&[1, 2]);
    proposal.shards[0].owners = nodes(&[2]);
    let participants = nodes(&[2]);
    let workers = nodes(&[2]);
    let step = |a, event| activate_plan(a, &participants, &workers, &current, &proposal, event);
    let (a, _) = begin_plan_activation(&participants, &current, &proposal);
    let (_, refused) = step(a, ActivationEvent::Rejected);
    assert_eq!(refused, ActivationAction::Refused(node(2)));
    let (a, _) = begin_plan_activation(&participants, &current, &proposal);
    let (a, _) = step(a, ActivationEvent::NoAnswer);
    let (_, unanswered) = step(a, ActivationEvent::NoAnswer);
    assert_eq!(unanswered, ActivationAction::Unanswered(node(2)));
    let (a, _) = begin_plan_activation(&participants, &current, &proposal);
    let (a, _) = step(a, ActivationEvent::NoAnswer);
    let (a, _) = step(a, ActivationEvent::Accepted);
    let (_, failed) = step(a, ActivationEvent::MoveFailed);
    assert_eq!(failed, ActivationAction::MoveFailed);
}

#[test]
fn moves_name_both_owners() {
    let current = plan(&[1, 2]);
    assert_eq!(shard_move(&current, &shard(0, 1, 3)), Ok(None));
    let wanted = shard_move(&current, &shard(0, 2, 3)).unwrap().unwrap();
    assert_eq!((wanted.from, wanted.to), (node(1), node(2)));
    assert_eq!(shard_move(&current, &shard(9, 2, 3)), Err(MoveError::NoCurrentOwner));
    let mut ownerless = shard(0, 2, 3);
    ownerless.owners.clear();
    assert_eq!(shard_move(&current, &ownerless), Err(MoveError::NoProposedOwner));
    let mut ready = wanted;
    ready.ownership_generation = 2;
    assert!(local_move_ready(&local_shard(), &current, &ready));
    ready.ownership_generation = 3;
    assert!(!local_move_ready(&local_shard(), &current, &ready));
    assert_eq!(find_shard(&current.shards, 1).and_then(owner_of), Some(node(2)));
}

#[test]
fn plan_acknowledgements_are_counted_once() {
    let active = plan(&[1, 2, 3]);
    let (mut run, action) = begin_announcement(&nodes(&[1, 2, 3, 2]), node(1));
    assert_eq!(
        action,
        AnnouncementAction::Announce { peers: nodes(&[2, 3]), again: false }
    );
    assert_eq!(run.expected, 2);
    let mut ack = plan_ack(&active, true);
    let from = |peer: u128, ack: &V4PlanAck| AnnouncementEvent::Ack(node(peer), ack.duplicate());
    let mut tell = |event| acknowledge_plan_update(&mut run, &active, event);
    assert_eq!(tell(from(2, &ack)), AnnouncementAction::Ignore);
    assert_eq!(tell(AnnouncementEvent::Announced), AnnouncementAction::Wait);
    assert_eq!(tell(from(2, &ack)), AnnouncementAction::Wait);
    assert_eq!(tell(from(2, &ack)), AnnouncementAction::Wait);
    assert_eq!(tell(AnnouncementEvent::OtherMessage), AnnouncementAction::Wait);
    assert_eq!(
        tell(AnnouncementEvent::RoundOver { time_left: true }),
        AnnouncementAction::Announce { peers: nodes(&[3]), again: true }
    );
    assert_eq!(tell(AnnouncementEvent::Announced), AnnouncementAction::Wait);
    assert_eq!(tell(from(3, &ack)), AnnouncementAction::Taken(2));
    let (_, alone) = begin_announcement(&nodes(&[1]), node(1));
    assert_eq!(alone, AnnouncementAction::Taken(0));
    ack.accepted = false;
    let (mut run, _) = begin_announcement(&nodes(&[3]), node(1));
    acknowledge_plan_update(&mut run, &active, AnnouncementEvent::Announced);
    assert_eq!(
        acknowledge_plan_update(&mut run, &active, from(3, &ack)),
        AnnouncementAction::Refused(node(3))
    );
    assert_eq!(on_commit_ack(&active, node(3), node(3), &ack), AckVerdict::Refused);
    assert_eq!(on_commit_ack(&active, node(3), node(2), &ack), AckVerdict::Ignored);
    let proposal = proposal_ack(&active, true);
    assert_eq!(on_proposal_ack(&active, node(2), node(2), &proposal), AckVerdict::Accepted);
    assert_eq!(update_recipients(&active, node(2)), nodes(&[1, 2, 3]));
}

#[test]
fn plans_are_announced_three_times_at_most() {
    let active = plan(&[1, 2]);
    let (mut run, _) = begin_announcement(&nodes(&[2, 3]), node(1));
    for round in 0..3 {
        acknowledge_plan_update(&mut run, &active, AnnouncementEvent::Announced);
        let over = AnnouncementEvent::RoundOver { time_left: true };
        let action = acknowledge_plan_update(&mut run, &active, over);
        if round < 2 {
            assert_eq!(action, AnnouncementAction::Announce { peers: nodes(&[2, 3]), again: true });
        } else {
            assert_eq!(action, AnnouncementAction::Missing { missing: 2, expected: 2 });
        }
    }
    let (mut late, _) = begin_announcement(&nodes(&[2, 3]), node(1));
    acknowledge_plan_update(&mut late, &active, AnnouncementEvent::Announced);
    let over = AnnouncementEvent::RoundOver { time_left: false };
    assert_eq!(
        acknowledge_plan_update(&mut late, &active, over),
        AnnouncementAction::Missing { missing: 2, expected: 2 }
    );
}

#[test]
fn records_claim_their_generation_and_hash() {
    let active = plan(&[1, 2]);
    let claim = plan_claim(&active);
    assert_eq!(
        claim,
        Claim {
            kind: ClaimKind::Plan,
            job_id: job(),
            branch: Some(active.branch),
            generation: 1,
            epoch: 1,
            hash: active.plan_hash,
        }
    );
    let proposed = proposal_claim(&active);
    assert_eq!((proposed.kind, proposed.hash), (ClaimKind::PlanProposal, claim.hash));
    let workers = nodes(&[2, 3]);
    let hashes = vec![art(1), art(2)];
    let mut state = replicate_state(job(), node(1), art(3), art(4), &workers, &hashes);
    state.checkpoint_generation = 0;
    state.optimizer_generation = 6;
    let claim = state_claim(&state);
    assert_eq!((claim.kind, claim.generation, claim.epoch), (ClaimKind::TrainingState, 1, 6));
    assert_eq!(claim.branch, Some(art(4)));
    let mut manifest = first_checkpoint(&state);
    manifest.plan_generation = 0;
    manifest.checkpoint_generation = 3;
    let claim = checkpoint_claim(&manifest);
    assert_eq!((claim.kind, claim.generation, claim.epoch), (ClaimKind::Checkpoint, 3, 1));
    let record = &optimizer_records(job(), &workers, &hashes)[1];
    let claim = optimizer_claim(record);
    assert_eq!((claim.kind, claim.branch), (ClaimKind::OptimizerState(1), None));
}

#[test]
fn shards_are_seeded_and_moved_by_their_owner() {
    let seed = |plan: &mut Option<V4TrainingPlan>, by: u128, shard_id: u16, bytes: usize| {
        seed_shard(plan, node(by), job(), shard_id, art(9), vec![4; bytes])
    };
    let mut active = Some(plan(&[1, 2, 3]));
    let refused = |error| Err(SeedError::Plan(error));
    assert_eq!(seed(&mut active, 2, 0, 200), refused(ShardPlanError::NotOwner));
    assert_eq!(seed(&mut active, 1, 7, 200), refused(ShardPlanError::UnknownShard));
    assert_eq!(seed(&mut active, 1, 0, 0), Err(SeedError::Size));
    assert_eq!(seed(&mut active, 1, 0, 65_537), Err(SeedError::Size));
    let seeded = seed(&mut active, 1, 0, 200).unwrap();
    assert_eq!((seeded.plan_generation, seeded.ownership_generation), (2, 1));
    assert_eq!((seeded.hash, seeded.bytes.len()), (art(9), 200));
    assert!(migrate_shard(node(1), node(2), &seeded, &active).is_ok());
    let alone = seed(&mut None, 1, 5, 3).unwrap();
    assert_eq!((alone.plan_generation, alone.ownership_generation), (1, 1));
    assert_eq!((alone.shard_id, alone.bytes), (5, vec![4, 4, 4]));
    let mut active = active.unwrap();
    assert_eq!(active.shards[0].memory_bytes, 200);
    assert_eq!(active.plan_generation, 2);
    let mv = |p: &mut V4TrainingPlan, by: u128, to: u128, generation: u64, hash: u128| {
        commit_plan_shard_migration(p, node(by), 0, node(to), generation, art(hash), 200)
    };
    assert_eq!(mv(&mut active, 2, 3, 2, 9), Err(ShardPlanError::NotOwner));
    assert_eq!(mv(&mut active, 1, 3, 3, 9), Err(ShardPlanError::Generation));
    assert_eq!(mv(&mut active, 1, 8, 2, 9), Err(ShardPlanError::ForeignTarget));
    assert_eq!(mv(&mut active, 1, 2, 2, 8), Err(ShardPlanError::Content));
    assert_eq!(mv(&mut active, 1, 2, 2, 9), Ok(()));
    assert_eq!(active.shards[0].owners, nodes(&[2]));
    assert_eq!(active.shards[0].replicas, nodes(&[1, 3]));
}

#[test]
fn transfers_are_prepared_committed_and_aborted() {
    let held = local_shard();
    assert_eq!(next_ownership(&held), 2);
    assert!(valid_state_size(65_536) && !valid_state_size(65_537) && !valid_state_size(0));
    let prepare = transfer_message(
        &held, node(1), node(2), 1, 2, V4ShardMigrationPhase::Prepare,
    );
    let step = receive_shard_migration(node(2), node(1), &prepare, art(500), &None).unwrap();
    let stored = match step {
        TransferStep::Store(stored) => stored,
        _ => panic!("the shard is stored"),
    };
    assert_eq!(stored.bytes, vec![1, 2, 3]);
    assert_eq!(stored.ownership_generation, 2);
    let ack = migration_ack(&prepare, node(2), true);
    assert!(migration_verified(&held, node(2), node(2), &ack));
    assert!(!migration_verified(&held, node(2), node(3), &ack));
    assert!(transfer_confirmed(&held, node(2), 2, V4ShardMigrationPhase::Prepare, node(2), &ack));
    assert!(!transfer_confirmed(&held, node(2), 3, V4ShardMigrationPhase::Prepare, node(2), &ack));
    assert_eq!(
        receive_shard_migration(node(3), node(1), &prepare, art(500), &None),
        Err(TransferError::PeerBinding)
    );
    assert_eq!(
        receive_shard_migration(node(2), node(1), &prepare, art(1), &None),
        Err(TransferError::HashMismatch)
    );
    let kept = Some(stored);
    let again = receive_shard_migration(node(2), node(1), &prepare, art(500), &kept);
    assert_eq!(again, Ok(TransferStep::Acknowledge));
    let mut changed = prepare.duplicate();
    changed.ownership_generation = 3;
    assert_eq!(
        receive_shard_migration(node(2), node(1), &changed, art(500), &kept),
        Err(TransferError::Overwrite)
    );
    let mut empty = prepare.duplicate();
    empty.state.clear();
    assert_eq!(
        receive_shard_migration(node(2), node(1), &empty, art(500), &None),
        Err(TransferError::PayloadSize)
    );
    let commit = transfer_message(
        &held, node(1), node(2), 1, 2, V4ShardMigrationPhase::Commit,
    );
    assert!(commit.state.is_empty());
    assert_eq!(
        receive_shard_migration(node(2), node(1), &commit, art(500), &None),
        Err(TransferError::NotPrepared)
    );
    let abort = transfer_message(
        &held, node(1), node(2), 1, 2, V4ShardMigrationPhase::Abort,
    );
    let undone = receive_shard_migration(node(2), node(1), &abort, art(500), &kept);
    assert_eq!(undone, Ok(TransferStep::Remove));
    let nothing = receive_shard_migration(node(2), node(1), &abort, art(500), &None);
    assert_eq!(nothing, Ok(TransferStep::Nothing));
}

#[test]
fn shards_move_only_as_the_plan_says() {
    let held = local_shard();
    let active = Some(plan(&[1, 2]));
    let refused = |by: u128, to: u128, shard: &V4LocalDataShard| {
        migrate_shard(node(by), node(to), shard, &active).err()
    };
    assert_eq!(refused(1, 2, &held), None);
    assert_eq!(refused(1, 1, &held), Some(MigrateError::SameNode));
    assert_eq!(refused(2, 1, &held), Some(MigrateError::Stale));
    let mut unknown = local_shard();
    unknown.shard_id = 9;
    assert_eq!(refused(1, 2, &unknown), Some(MigrateError::UnknownShard));
    assert!(migrate_shard(node(1), node(2), &unknown, &None).is_ok());
}

fn confirm(run: &Handover, phase: V4ShardMigrationPhase) -> HandoverEvent {
    let message = transfer_message(&run.shard, node(1), node(2), 1, 2, phase);
    HandoverEvent::Ack(node(2), migration_ack(&message, node(2), true))
}

fn sent_phase(action: HandoverAction) -> Option<V4ShardMigrationPhase> {
    match action {
        HandoverAction::Send(message) => Some(message.phase),
        _ => None,
    }
}

#[test]
fn moved_shards_are_retired_last() {
    let active = Some(plan(&[1, 2]));
    let (mut run, first) = migrate_shard(node(1), node(2), &local_shard(), &active).unwrap();
    match first {
        HandoverAction::Send(message) => {
            assert_eq!(message.phase, V4ShardMigrationPhase::Prepare);
            assert_eq!((message.from, message.to), (node(1), node(2)));
            assert_eq!(message.ownership_generation, 2);
            assert_eq!(message.state, vec![1, 2, 3]);
        }
        _ => panic!("the state is sent"),
    }
    assert_eq!(hand_over(&mut run, HandoverEvent::Recorded(true)), HandoverAction::Ignore);
    assert_eq!(hand_over(&mut run, HandoverEvent::Sent(true)), HandoverAction::Wait);
    assert_eq!(hand_over(&mut run, HandoverEvent::OtherMessage), HandoverAction::Wait);
    let early = confirm(&run, V4ShardMigrationPhase::Commit);
    assert_eq!(hand_over(&mut run, early), HandoverAction::Wait);
    let prepared = confirm(&run, V4ShardMigrationPhase::Prepare);
    let commit = hand_over(&mut run, prepared);
    assert_eq!(sent_phase(commit), Some(V4ShardMigrationPhase::Commit));
    assert_eq!(hand_over(&mut run, HandoverEvent::Sent(true)), HandoverAction::Wait);
    let committed = confirm(&run, V4ShardMigrationPhase::Commit);
    assert_eq!(hand_over(&mut run, committed), HandoverAction::Record);
    assert_eq!(hand_over(&mut run, HandoverEvent::Recorded(true)), HandoverAction::Retire);
    assert_eq!(hand_over(&mut run, committed), HandoverAction::Ignore);
}

#[test]
fn failed_moves_keep_the_source() {
    let begin = || migrate_shard(node(1), node(2), &local_shard(), &None).unwrap().0;
    let mut lost = begin();
    assert_eq!(
        hand_over(&mut lost, HandoverEvent::Sent(false)),
        HandoverAction::Fail(HandoverError::Unreachable)
    );
    let mut silent = begin();
    hand_over(&mut silent, HandoverEvent::Sent(true));
    assert_eq!(
        hand_over(&mut silent, HandoverEvent::TimedOut),
        HandoverAction::Fail(HandoverError::NotVerified)
    );
    let mut undone = begin();
    hand_over(&mut undone, HandoverEvent::Sent(true));
    let prepared = confirm(&undone, V4ShardMigrationPhase::Prepare);
    hand_over(&mut undone, prepared);
    hand_over(&mut undone, HandoverEvent::Sent(true));
    let abort = hand_over(&mut undone, HandoverEvent::TimedOut);
    assert_eq!(sent_phase(abort), Some(V4ShardMigrationPhase::Abort));
    assert_eq!(
        hand_over(&mut undone, HandoverEvent::Sent(false)),
        HandoverAction::Fail(HandoverError::NotCommitted)
    );
    let mut unrecorded = begin();
    hand_over(&mut unrecorded, HandoverEvent::Sent(true));
    hand_over(&mut unrecorded, prepared);
    hand_over(&mut unrecorded, HandoverEvent::Sent(true));
    let committed = confirm(&unrecorded, V4ShardMigrationPhase::Commit);
    assert_eq!(hand_over(&mut unrecorded, committed), HandoverAction::Record);
    assert_eq!(
        hand_over(&mut unrecorded, HandoverEvent::Recorded(false)),
        HandoverAction::Fail(HandoverError::NotRecorded)
    );
}

#[test]
fn proposed_transfers_keep_a_replica() {
    let begin = |generation| {
        transfer_shard_without_plan_commit(&local_shard(), node(1), node(2), 1, generation).0
    };
    let mut run = begin(2);
    hand_over(&mut run, HandoverEvent::Sent(true));
    let prepared = confirm(&run, V4ShardMigrationPhase::Prepare);
    hand_over(&mut run, prepared);
    hand_over(&mut run, HandoverEvent::Sent(true));
    let committed = confirm(&run, V4ShardMigrationPhase::Commit);
    assert_eq!(hand_over(&mut run, committed), HandoverAction::Keep);
    let mut other = begin(3);
    hand_over(&mut other, HandoverEvent::Sent(true));
    assert_eq!(hand_over(&mut other, prepared), HandoverAction::Wait);
    let mut late = begin(2);
    hand_over(&mut late, HandoverEvent::Sent(true));
    hand_over(&mut late, prepared);
    hand_over(&mut late, HandoverEvent::Sent(true));
    assert_eq!(
        hand_over(&mut late, HandoverEvent::TimedOut),
        HandoverAction::Fail(HandoverError::NotCommitted)
    );
}

#[test]
fn handovers_are_asked_for_and_answered() {
    let current = plan(&[1, 2, 3]);
    let mut proposal = plan(&[1, 2, 3]);
    proposal.proposer = node(3);
    proposal.plan_generation = 2;
    proposal.plan_hash = art(700);
    proposal.parent_plan_hash = Some(art(600));
    proposal.shards[0].owners = nodes(&[2]);
    proposal.shards[0].ownership_generation = 2;
    let wanted = shard_move(&current, &proposal.shards[0]).unwrap().unwrap();
    let request = migration_request(JobId { hi: 0, lo: 70 }, &proposal, node(3), &wanted);
    let judge = |by: u128, valid: bool| {
        receive_shard_migration_request(
            node(1), node(by), &request, &Some(plan(&[1, 2, 3])), &Some(proposal.duplicate()), valid,
            &Some(local_shard()), art(500),
        )
    };
    assert_eq!(judge(3, true), RequestVerdict::Transfer);
    assert_eq!(judge(2, true), RequestVerdict::Binding);
    assert_eq!(judge(3, false), RequestVerdict::Unauthorized);
    let bare = receive_shard_migration_request(
        node(1), node(3), &request, &Some(current), &None, true, &Some(local_shard()), art(500),
    );
    assert_eq!(bare, RequestVerdict::NoProposal);
    let result = migration_result(&request, true);
    assert_eq!(on_migration_result(&request, node(1), &result), AckVerdict::Accepted);
    assert_eq!(on_migration_result(&request, node(2), &result), AckVerdict::Ignored);
    let refused = migration_result(&request, false);
    assert_eq!(on_migration_result(&request, node(1), &refused), AckVerdict::Refused);
}

#[test]
fn local_state_follows_the_plan() {
    let mut next = plan(&[1, 2]);
    next.plan_generation = 4;
    next.shards[0].ownership_generation = 3;
    let mut data = local_shard();
    assert!(sync_data_shard(&mut data, &next, node(1)));
    assert_eq!((data.plan_generation, data.ownership_generation), (4, 3));
    let mut foreign = local_shard();
    assert!(!sync_data_shard(&mut foreign, &next, node(2)));
    let mut tensor = V4LocalTensorShard {
        job_id: job(),
        plan_generation: 1,
        model_generation: 1,
        shard_id: 0,
        rows: 2,
        cols: 4,
        row_offset: 0,
        weights: vec![0; 8],
        state_hash: art(500),
        state_generation: 1,
        last_sequence: 0,
    };
    assert!(sync_tensor_shard(&mut tensor, &next, node(1)));
    assert_eq!(tensor.plan_generation, 4);
    let mut stage = V4LocalPipelineStage {
        job_id: job(),
        plan_generation: 1,
        stage_id: 0,
        stage_count: 2,
        coefficient: 2,
        bias: 1,
        state_hash: art(2),
    };
    assert!(sync_pipeline_stage(&mut stage, &next, node(1)));
    assert_eq!(stage.plan_generation, 4);
}

#[test]
fn records_are_replicated_to_owner_and_replicas() {
    let workers = nodes(&[2, 3]);
    assert!(valid_replication_peers(&workers, node(1)));
    assert!(!valid_replication_peers(&nodes(&[1, 2]), node(1)));
    let count = shard_count(&workers);
    let hashes: Vec<ArtifactId> = (0..count).map(|i| art(800 + i as u128)).collect();
    let mut records = optimizer_records(job(), &workers, &hashes);
    assert_eq!(records.len(), count);
    for (i, record) in records.iter_mut().enumerate() {
        record.state_hash = art(900 + i as u128);
    }
    let mut state = replicate_state(job(), node(1), art(600), art(100), &workers, &hashes);
    assert_eq!(state.phase, "Running");
    state.state_hash = art(901);
    let mut manifest = first_checkpoint(&state);
    manifest.manifest_hash = art(902);
    assert_eq!(manifest.shard_hashes.len(), state.shards.len());
    let copies = expected_copies(&workers, art(901), &records, art(902));
    let mut seen = Vec::new();
    for copy in &copies {
        let ack = V4StateAck {
            job_id: job(),
            plan_generation: 1,
            generation: 1,
            kind: copy.kind,
            state_hash: copy.state_hash,
            accepted: true,
        };
        note_copy(&copies, &mut seen, copy.peer, &ack);
        note_copy(&copies, &mut seen, node(99), &ack);
    }
    assert_eq!(seen.len(), copies.len());
    let ack = receive_state_record(node(1), &state, &None, true).unwrap();
    assert!(ack.accepted);
    assert_eq!(ack.kind, V4StateAckKind::TrainingState);
    assert!(receive_state_record(node(50), &state, &None, true).is_none());
    let mut later = state.duplicate();
    later.optimizer_generation += 1;
    assert!(!receive_state_record(node(1), &state, &Some(later), true).unwrap().accepted);
    let owner = records[0].owner;
    assert!(receive_optimizer_shard(owner, &records[0], &None, true).unwrap().accepted);
    assert!(receive_optimizer_shard(node(50), &records[0], &None, true).is_none());
    let ack = receive_checkpoint_record(node(2), &manifest, &None, true).unwrap();
    assert_eq!(ack.state_hash, art(902));
    let mut other = manifest.duplicate();
    other.manifest_hash = art(903);
    let refused = receive_checkpoint_record(node(2), &manifest, &Some(other), true).unwrap();
    assert!(!refused.accepted);
}

#[test]
fn workers_are_reached_round_by_round() {
    let record = |n: u128, memory: u64| ProfileRecord {
        node_id: node(n),
        expires_at: 10,
        observed_latency_ms: None,
        capabilities: vec![ProfileCapability {
            name: "training.reference".to_string(),
            expires_at: 10,
            memory_bytes: memory,
            cpu_millis: 1000,
            hardware: None,
            throughput_mbps: None,
            backends: Vec::new(),
        }],
    };
    let survey = |connected: &[u128]| ReachEvent::Surveyed {
        records: vec![record(4, 64), record(2, 64), record(3, 63), record(1, 64)],
        now: 10,
        connected: NodeSet::from_ids(&nodes(connected)),
    };
    let step = |run: &mut ReachRun, event| reachable_worker_profiles(run, event);
    let (mut run, action) = begin_reach(3, 64);
    assert!(matches!(action, ReachAction::Survey));
    // The connected one needs nothing more; the others are dialed, then pinged.
    assert!(matches!(step(&mut run, survey(&[1])), ReachAction::Dial(peer) if peer == node(2)));
    let ping = step(&mut run, ReachEvent::Dialed(false));
    assert!(matches!(ping, ReachAction::Ping(peer) if peer == node(2)));
    let dial = step(&mut run, ReachEvent::Pinged(true));
    assert!(matches!(dial, ReachAction::Dial(peer) if peer == node(4)));
    match step(&mut run, ReachEvent::Dialed(true)) {
        ReachAction::Done(workers) => {
            assert_eq!(workers.iter().map(|w| w.node).collect::<Vec<_>>(), nodes(&[1, 2, 4]));
        }
        _ => panic!("three workers are reached"),
    }
    // Too few workers come back only after the sixteenth round.
    let (mut run, _) = begin_reach(3, 64);
    for round in 0..16 {
        step(&mut run, survey(&[1, 4]));
        step(&mut run, ReachEvent::Dialed(false));
        match step(&mut run, ReachEvent::Pinged(false)) {
            ReachAction::Pause => {
                assert!(round < 15);
                assert!(matches!(step(&mut run, ReachEvent::Paused), ReachAction::Survey));
            }
            ReachAction::Done(workers) => {
                assert_eq!(round, 15);
                assert_eq!(workers.iter().map(|w| w.node).collect::<Vec<_>>(), nodes(&[1, 4]));
            }
            _ => panic!("a round ends with a pause or the result"),
        }
    }
}

#[test]
fn profiles_show_what_was_tested() {
    let claim = |kind, confidence| BackendClaim {
        capability: BackendCapability {
            kind,
            runtime_available: true,
            health: BackendHealth::Healthy,
        },
        confidence_permille: confidence,
    };
    let record = |n: u128, name: &str, expires: u64, backends: Vec<BackendClaim>| ProfileRecord {
        node_id: node(n),
        expires_at: expires,
        observed_latency_ms: None,
        capabilities: vec![ProfileCapability {
            name: name.to_string(),
            expires_at: expires,
            memory_bytes: 4096,
            cpu_millis: 2500,
            hardware: Some(HardwareKind::A100),
            throughput_mbps: None,
            backends,
        }],
    };
    let tested = record(3, "training.reference", 10, vec![claim(BackendKind::Cuda, Some(500))]);
    let untested = record(2, "training.reference", 10, vec![claim(BackendKind::Cuda, Some(499))]);
    let stale = record(4, "training.reference", 9, Vec::new());
    let other = record(5, "inference.text", 10, Vec::new());
    let profile = worker_profile(&tested, 10).unwrap();
    assert_eq!(profile.hardware, HardwareKind::A100);
    assert_eq!(profile.compute_units, 2);
    assert_eq!((profile.rtt_ms, profile.throughput_mbps), (5_000, 1));
    let plain = worker_profile(&untested, 10).unwrap();
    assert_eq!(plain.hardware, HardwareKind::Cpu);
    assert_eq!(plain.backends[0].kind, BackendKind::Cpu);
    let all = worker_profiles(&vec![tested, untested, stale, other], 10);
    assert_eq!(all.iter().map(|p| p.node).collect::<Vec<_>>(), nodes(&[3, 2]));
    let sorted = qualified_profiles(&all, 4096);
    assert_eq!(sorted.iter().map(|p| p.node).collect::<Vec<_>>(), nodes(&[2, 3]));
    assert!(qualified_profiles(&all, 4097).is_empty());
    let shown = v4_worker_capability(&all[0]);
    assert_eq!(shown.family, V4AcceleratorFamily::Cuda);
    assert_eq!(shown.device_model, "A100");
    assert!(!shown.physical_verified);
    let links = topology_links(&all);
    assert_eq!(links.len(), 1);
    assert_eq!((links[0].from, links[0].to), (node(3), node(2)));
}

#[test]
fn requests_for_plans() {
    let profiles: Vec<WorkerProfile> = [2, 3, 4, 5]
        .iter()
        .map(|n| WorkerProfile {
            node: node(*n),
            hardware: HardwareKind::Cpu,
            memory_bytes: 8192,
            compute_units: 1,
            rtt_ms: 5,
            throughput_mbps: 10,
            reliability_permille: 900,
            backends: Vec::new(),
        })
        .collect();
    let copy = || duplicate_all(&profiles);
    let asked = plan_request(job(), node(1), 4096, 4, V4ParallelismStrategy::Hybrid, 2, 2, copy());
    assert_eq!((asked.local_steps, asked.max_staleness), (2, 2));
    assert_eq!(asked.objective.fault_tolerance_weight, 3);
    assert_eq!(asked.links.len(), 6);
    let mut previous = plan(&[2, 3]);
    previous.compute_requirements = vec![requirements()];
    let again = replan_request(
        &previous, node(1), 4096, 4, V4ParallelismStrategy::Hybrid, 2, 2, copy(),
    );
    assert_eq!((again.local_steps, again.max_staleness), (1, 2));
    assert_eq!(again.locality, Locality::Kept);
    assert_eq!(again.backend_requirements.len(), 1);
    let few = integrated_request(job(), 5, copy());
    assert_eq!(few, Err(BuildError::TooFewPeers(4)));
    let integrated = integrated_request(job(), 4, copy()).unwrap();
    assert_eq!(integrated.proposer, node(2));
    assert_eq!(integrated.objective.fault_tolerance_weight, 4);
    let reference = |workers: &[u128]| {
        prepare_reference_plan(
            job(), node(1), &nodes(workers), &profiles, V4ParallelismStrategy::LocalSgd, 0, 0,
        )
    };
    assert_eq!(reference(&[2]), Err(ReferencePlanError::WorkerCount));
    assert_eq!(reference(&[1, 2]), Err(ReferencePlanError::WorkerCount));
    assert_eq!(reference(&[2, 2]), Err(ReferencePlanError::Duplicate));
    assert_eq!(reference(&[2, 9]), Err(ReferencePlanError::NotAdvertised));
    let made = reference(&[5, 3]).unwrap();
    assert_eq!(made.workers.len(), 2);
    assert_eq!(made.model_bytes, 2048);
    let stages = pipeline_assignments(&plan(&[4, 5, 6]));
    assert_eq!(stages.len(), 2);
    assert_eq!((stages[0].worker, stages[0].replicas.clone()), (node(4), nodes(&[5])));
    assert_eq!((stages[1].worker, stages[1].replicas.clone()), (node(5), nodes(&[4])));
}

#[test]
fn a_reference_plan_waits_for_everyone() {
    let active = plan(&[2, 3]);
    let (mut wait, action) = begin_reference_wait(&active, node(1));
    let told = |ids: &[u128], reconnect| ReferenceAction::Notify { workers: nodes(ids), reconnect };
    assert_eq!(action, told(&[2, 3], false));
    let ack = plan_ack(&active, true);
    let from = |peer: u128, ack: &V4PlanAck| ReferenceEvent::Ack(node(peer), *ack);
    let mut next = |event| await_reference_plan(&mut wait, &active, event);
    assert_eq!(next(from(2, &ack)), ReferenceAction::Ignore);
    assert_eq!(next(ReferenceEvent::Notified), ReferenceAction::Wait);
    assert_eq!(next(from(9, &ack)), ReferenceAction::Wait);
    assert_eq!(next(from(2, &ack)), ReferenceAction::Wait);
    assert_eq!(next(ReferenceEvent::OtherMessage), ReferenceAction::Wait);
    assert_eq!(next(ReferenceEvent::AttemptOver), told(&[3], true));
    assert_eq!(next(ReferenceEvent::Notified), ReferenceAction::Wait);
    assert_eq!(next(from(3, &ack)), ReferenceAction::Ready);
    let refused = plan_ack(&active, false);
    let (mut wait, _) = begin_reference_wait(&active, node(1));
    await_reference_plan(&mut wait, &active, ReferenceEvent::Notified);
    assert_eq!(
        await_reference_plan(&mut wait, &active, from(3, &refused)),
        ReferenceAction::Refused(node(3))
    );
    let (mut late, _) = begin_reference_wait(&active, node(1));
    for attempt in 1..=3 {
        await_reference_plan(&mut late, &active, ReferenceEvent::Notified);
        let action = await_reference_plan(&mut late, &active, ReferenceEvent::AttemptOver);
        if attempt < 3 {
            assert_eq!(action, told(&[2, 3], true));
        } else {
            assert_eq!(action, ReferenceAction::TimedOut);
        }
    }
    let (_, alone) = begin_reference_wait(&plan(&[1]), node(1));
    assert_eq!(alone, ReferenceAction::Ready);
}

#[test]
fn roles_are_bound_to_backends() {
    let mut active = plan(&[1, 2, 3, 4]);
    let stages = pipeline_assignments(&active);
    let roles = plan_roles(&active, &stages);
    assert!(!roles.is_empty());
    let options: Vec<BackendOption> = roles
        .iter()
        .map(|role| BackendOption {
            worker: role.worker.unwrap(),
            task_kind: role.task_kind,
            backend: BackendKind::Cpu,
            requirements: requirements(),
            satisfied: true,
        })
        .collect();
    assert_eq!(bind_backend_assignments(&mut active, &stages, &options), Ok(()));
    assert_eq!(active.backend_assignments.len(), roles.len());
    assert!(active.backend_assignments.iter().all(|assignment| roles
        .iter()
        .any(|role| role.worker == Some(assignment.worker)
            && role.task_kind == assignment.task_kind)));
    let bound = backend_assignment(&active, node(1), roles[0].task_kind);
    assert_eq!(bound.unwrap().backend, BackendKind::Cpu);
    let (backend, _) =
        compute_task_requirements(&active, node(77), ComputeTaskKind::TensorForward, requirements());
    assert_eq!(backend, BackendKind::Cpu);
    let mut bare = plan(&[1, 2, 3, 4]);
    bare.worker_capabilities.clear();
    let missing = bind_backend_assignments(&mut bare, &stages, &options);
    assert!(matches!(missing, Err(BindError::NoCapability(_))));
    let mut ownerless = plan(&[1, 2, 3, 4]);
    ownerless.shards[0].owners.clear();
    let missing = bind_backend_assignments(&mut ownerless, &stages, &options);
    assert_eq!(missing, Err(BindError::NoOwner));
    let mut unmet = plan(&[1, 2, 3, 4]);
    let missing = bind_backend_assignments(&mut unmet, &stages, &Vec::new());
    assert!(matches!(missing, Err(BindError::Unsatisfied(_, _))));
}

#[test]
fn tasks_fall_back_where_they_may() {
    let alone = execute_backend_task(BackendKind::Cuda, &requirements());
    assert_eq!(alone.len(), 1);
    let mut wide = requirements();
    wide.fallback_allowed = true;
    wide.fallback_backends = vec![BackendKind::Cpu];
    let attempts = execute_backend_task(BackendKind::Cuda, &wide);
    assert_eq!(attempts[0].backend, BackendKind::Cuda);
    assert_eq!(attempts[attempts.len() - 1].backend, BackendKind::Cpu);
    let bounds = task_bounds(3, 9, 0, 0, 0);
    assert_eq!(bounds.elements, 12);
    assert_eq!((bounds.graph_generation, bounds.model_generation, bounds.deadline_ms), (1, 1, 1));
    assert_eq!(task_bounds(0, 0, 5, 6, 200_000).deadline_ms, 120_000);
}

#[test]
fn words_for_strategies_and_policies() {
    let word = |s: &str| s.to_string();
    assert_eq!(parse_strategy(&word("tensor")), Some(V4ParallelismStrategy::TensorParallel));
    assert_eq!(parse_strategy(&word("pipeline")), Some(V4ParallelismStrategy::PipelineParallel));
    assert_eq!(parse_strategy(&word("local_sgd")), Some(V4ParallelismStrategy::LocalSgd));
    assert_eq!(parse_strategy(&word("hybrid")), Some(V4ParallelismStrategy::Hybrid));
    assert_eq!(parse_strategy(&word("Hybrid")), None);
    assert_eq!(parse_policy(&word("abort")), Some(V4ReconciliationPolicy::AbortBranch));
    assert_eq!(parse_policy(&word("manual")), Some(V4ReconciliationPolicy::ManualOperatorRequired));
    assert_eq!(parse_policy(&word("")), None);
    assert_eq!(parse_byzantine_policy(&word("median")), Some(V4ByzantinePolicy::CoordinateMedian));
    assert_eq!(parse_byzantine_policy(&word("mean")), Some(V4ByzantinePolicy::Mean));
    assert_eq!(parse_byzantine_policy(&word("max")), None);
}

#[test]
fn branches_are_reconciled_for_others() {
    let request = reconcile_demo(job(), V4ReconciliationPolicy::SelectBranch, 4, 6);
    assert_eq!(request.left.branch.hi, 0x0101_0101_0101_0101_0101_0101_0101_0101);
    assert_eq!(request.right.created_by.lo, 0x0404_0404_0404_0404_0404_0404_0404_0404);
    let decision = || BranchDecision {
        accepted: true,
        branch: Some(request.left.branch),
        value: Some(4),
        reason: "left".to_string(),
    };
    assert!(receive_reconcile(node(1), node(1), &request, decision()).is_none());
    let result = receive_reconcile(node(1), node(2), &request, decision()).unwrap();
    assert_eq!(result.merged_value, Some(4));
    assert_eq!(result.reason, "left");
}

#[test]
fn operations_need_an_authorizing_plan() {
    let active = plan(&[1, 2]);
    let seen = Inspection { hash: art(600), valid: true };
    assert_eq!(authorized_reference_plan(node(2), node(1), 1, Some(&active), seen), Ok(()));
    assert_eq!(
        authorized_reference_plan(node(2), node(1), 1, None, seen),
        Err(PlanAccessError::NoPlan)
    );
    assert_eq!(
        authorized_reference_plan(node(2), node(2), 1, Some(&active), seen),
        Err(PlanAccessError::Unauthorized)
    );
    let tampered = Inspection { hash: art(1), valid: true };
    assert_eq!(
        authorized_reference_plan(node(2), node(1), 1, Some(&active), tampered),
        Err(PlanAccessError::Unauthorized)
    );
    assert!(runs_tensors(V4ParallelismStrategy::Hybrid));
    assert!(!runs_tensors(V4ParallelismStrategy::LocalSgd));
    assert!(runs_stages(V4ParallelismStrategy::PipelineParallel));
    assert!(runs_collectives(V4ParallelismStrategy::LocalSgd));
    assert!(may_work_on_tensor(&active, 0, 1, node(1)));
    assert!(!may_work_on_tensor(&active, 0, 2, node(1)));
}

#[test]
fn integrated_work_needs_graph_and_plan() {
    let (mut job_plan, stages) =
        plan_integrated_job(plan(&[1, 2, 3, 4]), 4, &vec![art(10), art(11)]).unwrap();
    job_plan.plan_hash = art(600);
    let mut g = build_integrated_start(&job_plan, &stages, node(90));
    g.graph_hash = art(300);
    let seen = |n: u128| Inspection { hash: art(n), valid: true };
    let ask = |n: u128, graph, job_plan| {
        authorized_integrated_pipeline_context(
            node(n), node(1), 1, graph, seen(300), job_plan, seen(600),
        )
    };
    assert_eq!(ask(3, Some(&g), Some(&job_plan)), Ok(true));
    assert_eq!(ask(3, None, Some(&job_plan)), Ok(false));
    assert_eq!(ask(3, Some(&g), None), Err(PlanAccessError::NoPlan));
    assert_eq!(ask(9, Some(&g), Some(&job_plan)), Err(PlanAccessError::Unauthorized));
    assert_eq!(find_stage(&g.pipeline_stages, 1).map(|s| s.worker), Some(node(4)));
    assert!(find_stage(&g.pipeline_stages, 2).is_none());
    assert_eq!(optimizer_placements(&g.shards, 7)[1].generation, 7);
}

#[test]
fn kernels_and_sizes_of_roles() {
    assert_eq!(kernel_id(ComputeTaskKind::TensorForward), "v5.tensor.forward.v1");
    assert_eq!(kernel_id(ComputeTaskKind::PipelineBackward), "v5.pipeline.backward.v1");
    assert_eq!(kernel_id(ComputeTaskKind::Reference), "v5.training.reference.v1");
    assert_eq!(role_elements(ComputeTaskKind::TensorBackward), 16);
    assert_eq!(role_elements(ComputeTaskKind::PipelineForward), 8);
    let on_cuda = requirements_with_fallback(&requirements(), BackendKind::Cuda, &capability(1));
    assert!(on_cuda.fallback_allowed);
    assert_eq!(on_cuda.fallback_backends, vec![BackendKind::Cpu]);
    let on_cpu = requirements_with_fallback(&requirements(), BackendKind::Cpu, &capability(1));
    assert_eq!(on_cpu, requirements());
}
