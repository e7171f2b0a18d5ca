//! Control messages of integrated jobs.

use crate::base::ids::{ArtifactId, JobId, NodeId};
use crate::base::record::Duplicate;
use vstd::prelude::*;

verus! {

/// The answer to an installed graph.
#[derive(Clone, Copy, Debug, PartialEq, Eq, Structural)]
pub struct V4IntegratedAck {
    pub job_id: JobId,
    pub graph_generation: u64,
    pub worker: NodeId,
    pub accepted: bool,
}

impl View for V4IntegratedAck {
    type V = V4IntegratedAck;

    open spec fn view(&self) -> V4IntegratedAck {
        *self
    }
}

impl Duplicate for V4IntegratedAck {
    fn duplicate(&self) -> (r: V4IntegratedAck) {
        *self
    }
}

/// The answer to a published job state.
#[derive(Clone, Copy, Debug, PartialEq, Eq, Structural)]
pub struct V4IntegratedStateAck {
    pub job_id: JobId,
    pub graph_generation: u64,
    pub state_hash: ArtifactId,
    pub worker: NodeId,
    pub accepted: bool,
}

impl View for V4IntegratedStateAck {
    type V = V4IntegratedStateAck;

    open spec fn view(&self) -> V4IntegratedStateAck {
        *self
    }
}

impl Duplicate for V4IntegratedStateAck {
    fn duplicate(&self) -> (r: V4IntegratedStateAck) {
        *self
    }
}

/// A question whether a member is alive.
#[derive(Clone, Copy, Debug, PartialEq, Eq, Structural)]
pub struct V4IntegratedProbe {
    pub request_id: JobId,
    pub job_id: JobId,
    pub graph_generation: u64,
    pub graph_hash: ArtifactId,
    pub state_hash: ArtifactId,
    pub requester: NodeId,
}

impl View for V4IntegratedProbe {
    type V = V4IntegratedProbe;

    open spec fn view(&self) -> V4IntegratedProbe {
        *self
    }
}

impl Duplicate for V4IntegratedProbe {
    fn duplicate(&self) -> (r: V4IntegratedProbe) {
        *self
    }
}

/// The answer to a probe.
#[derive(Clone, Copy, Debug, PartialEq, Eq, Structural)]
pub struct V4IntegratedProbeAck {
    pub request_id: JobId,
    pub job_id: JobId,
    pub graph_generation: u64,
    pub responder: NodeId,
    pub accepted: bool,
}

impl View for V4IntegratedProbeAck {
    type V = V4IntegratedProbeAck;

    open spec fn view(&self) -> V4IntegratedProbeAck {
        *self
    }
}

impl Duplicate for V4IntegratedProbeAck {
    fn duplicate(&self) -> (r: V4IntegratedProbeAck) {
        *self
    }
}

/// A request for a vote.
#[derive(Clone, Copy, Debug, PartialEq, Eq, Structural)]
pub struct V4IntegratedElectionRequest {
    pub request_id: JobId,
    pub job_id: JobId,
    pub graph_generation: u64,
    pub graph_hash: ArtifactId,
    pub branch: ArtifactId,
    pub state_hash: ArtifactId,
    pub term: u64,
    pub candidate: NodeId,
}

impl View for V4IntegratedElectionRequest {
    type V = V4IntegratedElectionRequest;

    open spec fn view(&self) -> V4IntegratedElectionRequest {
        *self
    }
}

impl Duplicate for V4IntegratedElectionRequest {
    fn duplicate(&self) -> (r: V4IntegratedElectionRequest) {
        *self
    }
}

/// A vote.
#[derive(Clone, Copy, Debug, PartialEq, Eq, Structural)]
pub struct V4IntegratedElectionVote {
    pub job_id: JobId,
    pub graph_generation: u64,
    pub graph_hash: ArtifactId,
    pub term: u64,
    pub candidate: NodeId,
    pub voter: NodeId,
    pub granted: bool,
}

impl View for V4IntegratedElectionVote {
    type V = V4IntegratedElectionVote;

    open spec fn view(&self) -> V4IntegratedElectionVote {
        *self
    }
}

impl Duplicate for V4IntegratedElectionVote {
    fn duplicate(&self) -> (r: V4IntegratedElectionVote) {
        *self
    }
}

/// The vote of this node, one for each job and term.
#[derive(Clone, Copy, Debug, PartialEq, Eq, Structural)]
pub struct V4IntegratedElectionRecord {
    pub job_id: JobId,
    pub graph_generation: u64,
    pub graph_hash: ArtifactId,
    pub term: u64,
    pub candidate: NodeId,
    pub vote_hash: ArtifactId,
}

impl View for V4IntegratedElectionRecord {
    type V = V4IntegratedElectionRecord;

    open spec fn view(&self) -> V4IntegratedElectionRecord {
        *self
    }
}

impl Duplicate for V4IntegratedElectionRecord {
    fn duplicate(&self) -> (r: V4IntegratedElectionRecord) {
        *self
    }
}

} // verus!
