//! Identities of peers, jobs and content-addressed artifacts.
//!
//! Every identity is a 256-bit value, held as its two big-endian halves so
//! that the numeric order of the pair is the byte order of the identity.

use vstd::prelude::*;

verus! {

/// The identity of a peer.
#[derive(Clone, Copy, Debug, PartialEq, Eq, Structural, Hash)]
pub struct NodeId {
    pub hi: u128,
    pub lo: u128,
}

/// The identity of a training job or of one request inside it.
#[derive(Clone, Copy, Debug, PartialEq, Eq, Structural, Hash)]
pub struct JobId {
    pub hi: u128,
    pub lo: u128,
}

/// The content hash of an artifact, a record or a branch.
#[derive(Clone, Copy, Debug, PartialEq, Eq, Structural, Hash)]
pub struct ArtifactId {
    pub hi: u128,
    pub lo: u128,
}

impl View for NodeId {
    type V = NodeId;

    open spec fn view(&self) -> NodeId {
        *self
    }
}

/// `a` comes before `b` in byte order.
pub open spec fn id_lt(a: NodeId, b: NodeId) -> bool {
    a.hi < b.hi || (a.hi == b.hi && a.lo < b.lo)
}

/// `a` comes before `b` in byte order, or is `b`.
pub open spec fn id_le(a: NodeId, b: NodeId) -> bool {
    a == b || id_lt(a, b)
}

impl NodeId {
    /// The all-zero identity.
    pub fn zero() -> (r: NodeId)
        ensures
            r == (NodeId { hi: 0, lo: 0 }),
    {
        NodeId { hi: 0, lo: 0 }
    }

    /// Whether `self` comes before `other` in byte order.
    pub fn precedes(&self, other: &NodeId) -> (r: bool)
        ensures
            r == id_lt(*self, *other),
    {
        self.hi < other.hi || (self.hi == other.hi && self.lo < other.lo)
    }
}

/// The artifact identity of a record whose hash has not been taken yet.
pub open spec fn unsigned_hash() -> ArtifactId {
    ArtifactId { hi: 0, lo: 0 }
}

impl ArtifactId {
    /// The all-zero hash that stands in a record while its content is hashed.
    pub fn unsigned() -> (r: ArtifactId)
        ensures
            r == unsigned_hash(),
    {
        ArtifactId { hi: 0, lo: 0 }
    }
}

impl JobId {
    /// The all-zero job identity.
    pub fn zero() -> (r: JobId)
        ensures
            r == (JobId { hi: 0, lo: 0 }),
    {
        JobId { hi: 0, lo: 0 }
    }
}

} // verus!
