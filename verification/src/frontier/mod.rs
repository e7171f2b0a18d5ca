//! The frontier runtime: plans, execution graphs, tensor and pipeline
//! parallelism, collectives and recovery.

pub mod activation;
pub mod announcement;
pub mod authority;
pub mod backend;
pub mod backward_pass;
pub mod byzantine;
pub mod candidacy;
pub mod checkpoints;
pub mod claims;
pub mod collective;
pub mod collective_round;
pub mod control;
pub mod dataplane;
pub mod delivery;
pub mod demos;
pub mod driver;
pub mod files;
pub mod graph_activation;
pub mod handover;
pub mod installation;
pub mod integrated;
pub mod local;
pub mod membership;
pub mod messages;
pub mod migration;
pub mod optimizer;
pub mod pipeline;
pub mod pipeline_demo;
pub mod pipeline_round;
pub mod plan;
pub mod policy;
pub mod probing;
pub mod profiles;
pub mod reaching;
pub mod reconcile;
pub mod recovery;
pub mod reference_plan;
pub mod replication;
pub mod requests;
pub mod restore;
pub mod start;
pub mod takeover;
pub mod tensor;
pub mod tensor_demo;
pub mod tensor_round;
pub mod tensor_training;
pub mod types;
pub mod voting;
pub mod waiting;
pub mod wire;
