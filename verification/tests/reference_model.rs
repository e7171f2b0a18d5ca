//! The scalar reference model and the plan of a job.

use distributed_training::base::ids::{ArtifactId, JobId, NodeId};
use distributed_training::reference::planning::{
    build_worker_starts, make_groups, make_shards, select_workers, valid_training_request,
    Capability, JobTerms, PeerRecord, PlanError,
};
use distributed_training::reference::sgd::{
    loss_in_range, median, quorum, samples_for_shard, samples_loss, train,
};
use distributed_training::reference::types::{TrainingExecution, TrainingSample};

const SCALE: i64 = 1_000_000;

fn node(n: u128) -> NodeId {
    NodeId { hi: 0, lo: n }
}

fn art(n: u128) -> ArtifactId {
    ArtifactId { hi: 0, lo: n }
}

fn peer(n: u128, name: &str, memory_bytes: u64, expires_at: u64) -> PeerRecord {
    PeerRecord {
        node_id: node(n),
        expires_at,
        capabilities: vec![Capability { name: name.to_string(), memory_bytes }],
    }
}

const ENOUGH: u64 = 64 * 1024 * 1024;

#[test]
fn quorum_is_a_strict_majority() {
    assert_eq!(quorum(1), 1);
    assert_eq!(quorum(4), 3);
    assert_eq!(quorum(5), 3);
    assert_eq!(quorum(0), 1);
}

#[test]
fn samples_of_the_two_shards() {
    let first = samples_for_shard(0);
    let second = samples_for_shard(1);
    assert_eq!(first.len(), 8);
    assert_eq!(first[0], TrainingSample { feature: 1, target: 2 });
    assert_eq!(first[7], TrainingSample { feature: 8, target: 16 });
    assert_eq!(second[7], TrainingSample { feature: 8, target: 24 });
    assert_eq!(samples_for_shard(9), second);
}

#[test]
fn loss_is_the_truncated_mean_of_squares() {
    assert_eq!(samples_loss(0, &samples_for_shard(0)), 102);
    assert_eq!(samples_loss(0, &samples_for_shard(1)), 229);
    assert_eq!(samples_loss(2, &samples_for_shard(0)), 0);
    assert_eq!(samples_loss(5, &Vec::new()), 0);
}

#[test]
fn loss_out_of_range_is_told() {
    assert!(loss_in_range(1_000, &samples_for_shard(0)));
    assert!(!loss_in_range(i64::MAX, &samples_for_shard(0)));
}

#[test]
fn training_steps_move_toward_the_target() {
    assert_eq!(train(0, 5, &samples_for_shard(0), 0, SCALE), (0, 5));
    assert_eq!(train(0, 0, &samples_for_shard(0), 1, SCALE), (2, -51));
    assert_eq!(train(0, 0, &samples_for_shard(0), 2, SCALE), (2, 0));
    assert_eq!(train(0, 0, &samples_for_shard(1), 1, SCALE), (3, -76));
}

#[test]
fn median_takes_the_upper_middle() {
    assert_eq!(median(vec![3, 1, 2]), 2);
    assert_eq!(median(vec![4, 1, 3, 2]), 3);
    assert_eq!(median(vec![7]), 7);
    assert_eq!(median(vec![-1000, 10, 11]), 10);
}

#[test]
fn requests_outside_the_bounds_are_refused() {
    assert!(valid_training_request(4, 1, 1, 1));
    assert!(valid_training_request(16, 256, 64, 1));
    assert!(!valid_training_request(3, 1, 1, 1));
    assert!(!valid_training_request(17, 1, 1, 1));
    assert!(!valid_training_request(4, 0, 1, 1));
    assert!(!valid_training_request(4, 257, 1, 1));
    assert!(!valid_training_request(4, 1, 65, 1));
    assert!(!valid_training_request(4, 1, 1, 0));
}

#[test]
fn workers_are_selected_in_order() {
    let records = vec![
        peer(5, "training.reference", ENOUGH, 10),
        peer(2, "training.v3", ENOUGH, 10),
        peer(3, "training.reference", ENOUGH, 10),
        peer(3, "training.reference", ENOUGH, 10),
        peer(4, "training.reference", ENOUGH, 10),
        peer(6, "training.reference", ENOUGH - 1, 10),
        peer(7, "inference.text", ENOUGH, 10),
        peer(8, "training.reference", ENOUGH, 9),
        peer(9, "training.reference", ENOUGH, 10),
        peer(1, "training.reference", ENOUGH, 10),
    ];
    let chosen = select_workers(&records, node(9), 10, 4, 4, 2, 2);
    assert_eq!(chosen, Ok(vec![node(1), node(2), node(3), node(4)]));
    let bounds = select_workers(&records, node(9), 10, 3, 4, 2, 2);
    assert_eq!(bounds, Err(PlanError::OutOfBounds));
    let few = select_workers(&records, node(9), 11, 4, 4, 2, 2);
    assert_eq!(few, Err(PlanError::TooFewWorkers(0)));
}

#[test]
fn groups_alternate_over_the_workers() {
    let workers = vec![node(1), node(2), node(3), node(4), node(5)];
    let groups = make_groups(&workers);
    assert_eq!(groups.len(), 2);
    assert_eq!(groups[0].members, vec![node(1), node(3), node(5)]);
    assert_eq!(groups[0].aggregator, node(1));
    assert_eq!(groups[1].members, vec![node(2), node(4)]);
    assert_eq!(groups[1].aggregator, node(2));
    assert!(make_groups(&Vec::new()).is_empty());
}

#[test]
fn every_worker_gets_one_shard() {
    let workers = vec![node(1), node(2), node(3), node(4)];
    let groups = make_groups(&workers);
    let shards = make_shards(&groups, &vec![art(10), art(11)]);
    let starts = build_worker_starts(
        JobTerms {
            job_id: JobId { hi: 0, lo: 7 },
            coordinator: node(9),
            branch: art(100),
            plan_hash: art(101),
            max_windows: 4,
            local_steps: 2,
            checkpoint_every: 2,
        },
        &workers,
        &groups,
        &shards,
    );
    assert_eq!(starts.len(), 4);
    assert_eq!(starts[2].assignment.shard_id, 0);
    assert_eq!(starts[3].assignment.shard_id, 1);
    assert_eq!(starts[3].samples, samples_for_shard(1));
    assert_eq!(starts[0].term, 1);
    assert_eq!(starts[0].max_staleness, 2);
    assert_eq!(starts[0].execution, TrainingExecution::AutonomousLocalSgd);
    assert_eq!(starts[0].shards[1].owners, vec![node(2), node(4)]);
    assert_eq!(starts[0].shards[1].state_hash, art(11));
    assert!(starts[0].groups[0].members.len() < workers.len());
}
