//! The reference runtime: periodic and autonomous local SGD over two shards.

pub mod admission;
pub mod aggregator;
pub mod autonomous;
pub mod campaigning;
pub mod checkpoint;
pub mod collecting;
pub mod committing;
pub mod context;
pub mod coordinator;
pub mod election;
pub mod files;
pub mod invariants;
pub mod paced;
pub mod planning;
pub mod running;
pub mod sgd;
pub mod types;
pub mod worker;
