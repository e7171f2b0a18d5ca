//! Which peers can be planned for, and what a plan knows of them and of the
//! links between them.

use crate::base::arith::{max_int, min_int};
use crate::base::ids::{id_le, NodeId};
use crate::base::record::{duplicate_all, Duplicate};
use crate::base::search::{find, lemma_find_at, lemma_views_push, opt_view, views};
use crate::base::text::text_is;
use crate::frontier::types::{
    BackendCapability, BackendHealth, BackendKind, HardwareKind, V4AcceleratorFamily,
    V4WorkerCapability, V4WorkerCapabilityView,
};
use vstd::prelude::*;

verus! {

/// The round trip that is assumed of a peer that was never measured.
pub const UNKNOWN_RTT_MS: u32 = 5_000;

/// The confidence from which an accelerator claim is believed, in thousandths.
pub const MIN_CONFIDENCE_PERMILLE: u16 = 500;

/// The reliability that is assumed of a peer, in thousandths.
pub const ASSUMED_RELIABILITY_PERMILLE: u16 = 900;

/// A backend that a peer claims to have.
#[derive(Clone, Copy, Debug, PartialEq, Eq, Structural)]
pub struct BackendClaim {
    pub capability: BackendCapability,
    /// how far this node trusts the claim, where it has tested it
    pub confidence_permille: Option<u16>,
}

impl View for BackendClaim {
    type V = BackendClaim;

    open spec fn view(&self) -> BackendClaim {
        *self
    }
}

impl Duplicate for BackendClaim {
    fn duplicate(&self) -> (r: BackendClaim) {
        *self
    }
}

/// A capability that a peer advertises for training.
#[derive(Debug, PartialEq, Eq)]
pub struct ProfileCapability {
    pub name: String,
    pub expires_at: u64,
    pub memory_bytes: u64,
    pub cpu_millis: u64,
    pub hardware: Option<HardwareKind>,
    pub throughput_mbps: Option<u32>,
    pub backends: Vec<BackendClaim>,
}

/// The contents of a [`ProfileCapability`].
#[verifier::ext_equal]
pub struct ProfileCapabilityView {
    pub name: Seq<char>,
    pub expires_at: u64,
    pub memory_bytes: u64,
    pub cpu_millis: u64,
    pub hardware: Option<HardwareKind>,
    pub throughput_mbps: Option<u32>,
    pub backends: Seq<BackendClaim>,
}

impl View for ProfileCapability {
    type V = ProfileCapabilityView;

    open spec fn view(&self) -> ProfileCapabilityView {
        ProfileCapabilityView {
            name: self.name@,
            expires_at: self.expires_at,
            memory_bytes: self.memory_bytes,
            cpu_millis: self.cpu_millis,
            hardware: self.hardware,
            throughput_mbps: self.throughput_mbps,
            backends: self.backends@,
        }
    }
}

impl Duplicate for ProfileCapability {
    fn duplicate(&self) -> (r: ProfileCapability) {
        ProfileCapability {
            name: self.name.clone(),
            expires_at: self.expires_at,
            memory_bytes: self.memory_bytes,
            cpu_millis: self.cpu_millis,
            hardware: self.hardware,
            throughput_mbps: self.throughput_mbps,
            backends: self.backends.clone(),
        }
    }
}

/// What is known of a peer.
#[derive(Debug, PartialEq, Eq)]
pub struct ProfileRecord {
    pub node_id: NodeId,
    pub expires_at: u64,
    pub observed_latency_ms: Option<u32>,
    pub capabilities: Vec<ProfileCapability>,
}

/// The contents of a [`ProfileRecord`].
#[verifier::ext_equal]
pub struct ProfileRecordView {
    pub node_id: NodeId,
    pub expires_at: u64,
    pub observed_latency_ms: Option<u32>,
    pub capabilities: Seq<ProfileCapabilityView>,
}

impl View for ProfileRecord {
    type V = ProfileRecordView;

    open spec fn view(&self) -> ProfileRecordView {
        ProfileRecordView {
            node_id: self.node_id,
            expires_at: self.expires_at,
            observed_latency_ms: self.observed_latency_ms,
            capabilities: views(self.capabilities@),
        }
    }
}

impl Duplicate for ProfileRecord {
    fn duplicate(&self) -> (r: ProfileRecord) {
        ProfileRecord {
            node_id: self.node_id,
            expires_at: self.expires_at,
            observed_latency_ms: self.observed_latency_ms,
            capabilities: duplicate_all(&self.capabilities),
        }
    }
}

/// A peer that can be planned for.
#[derive(Debug, PartialEq, Eq)]
pub struct WorkerProfile {
    pub node: NodeId,
    pub hardware: HardwareKind,
    pub memory_bytes: u64,
    pub compute_units: u32,
    pub rtt_ms: u32,
    pub throughput_mbps: u32,
    pub reliability_permille: u16,
    pub backends: Vec<BackendCapability>,
}

/// The contents of a [`WorkerProfile`].
#[verifier::ext_equal]
pub struct WorkerProfileView {
    pub node: NodeId,
    pub hardware: HardwareKind,
    pub memory_bytes: u64,
    pub compute_units: u32,
    pub rtt_ms: u32,
    pub throughput_mbps: u32,
    pub reliability_permille: u16,
    pub backends: Seq<BackendCapability>,
}

impl View for WorkerProfile {
    type V = WorkerProfileView;

    open spec fn view(&self) -> WorkerProfileView {
        WorkerProfileView {
            node: self.node,
            hardware: self.hardware,
            memory_bytes: self.memory_bytes,
            compute_units: self.compute_units,
            rtt_ms: self.rtt_ms,
            throughput_mbps: self.throughput_mbps,
            reliability_permille: self.reliability_permille,
            backends: self.backends@,
        }
    }
}

impl Duplicate for WorkerProfile {
    fn duplicate(&self) -> (r: WorkerProfile) {
        WorkerProfile {
            node: self.node,
            hardware: self.hardware,
            memory_bytes: self.memory_bytes,
            compute_units: self.compute_units,
            rtt_ms: self.rtt_ms,
            throughput_mbps: self.throughput_mbps,
            reliability_permille: self.reliability_permille,
            backends: self.backends.clone(),
        }
    }
}

/// The link between two workers.
#[derive(Clone, Copy, Debug, PartialEq, Eq, Structural)]
pub struct V4TopologyLink {
    pub from: NodeId,
    pub to: NodeId,
    pub rtt_ms: u32,
    pub bandwidth_mbps: u32,
    pub reliability_permille: u16,
}

impl View for V4TopologyLink {
    type V = V4TopologyLink;

    open spec fn view(&self) -> V4TopologyLink {
        *self
    }
}

impl Duplicate for V4TopologyLink {
    fn duplicate(&self) -> (r: V4TopologyLink) {
        *self
    }
}

/// The backend works, and is the CPU or has been tested well enough.
pub open spec fn backend_usable(b: BackendClaim) -> bool {
    b.capability.runtime_available && b.capability.health != BackendHealth::Unavailable && (
    b.capability.kind == BackendKind::Cpu || (b.confidence_permille is Some
        && b.confidence_permille->0 >= MIN_CONFIDENCE_PERMILLE))
}

/// The usable backends of a capability.
pub open spec fn usable_backends(claims: Seq<BackendClaim>) -> Seq<BackendCapability> {
    claims.filter(|b: BackendClaim| backend_usable(b)).map_values(
        |b: BackendClaim| b.capability,
    )
}

/// The CPU reference backend.
pub open spec fn reference_cpu() -> BackendCapability {
    BackendCapability {
        kind: BackendKind::Cpu,
        runtime_available: true,
        health: BackendHealth::Healthy,
    }
}

/// The live capabilities for reference training.
pub open spec fn live_training(now: u64) -> spec_fn(ProfileCapabilityView) -> bool {
    |c: ProfileCapabilityView| c.name == "training.reference"@ && c.expires_at >= now
}

/// The profile of a peer, where it is live and advertises reference training.
pub open spec fn profile_of(record: ProfileRecordView, now: u64) -> Option<WorkerProfileView> {
    if record.expires_at < now {
        None
    } else {
        match find(record.capabilities, live_training(now)) {
            None => None,
            Some(c) => {
                let backends = usable_backends(c.backends);
                Some(
                    WorkerProfileView {
                        node: record.node_id,
                        hardware: if backends.len() > 0 && c.hardware is Some {
                            c.hardware->0
                        } else {
                            HardwareKind::Cpu
                        },
                        memory_bytes: c.memory_bytes,
                        compute_units: max_int((c.cpu_millis / 1000) as int, 1) as u32,
                        rtt_ms: if record.observed_latency_ms is Some {
                            record.observed_latency_ms->0
                        } else {
                            UNKNOWN_RTT_MS
                        },
                        throughput_mbps: if c.throughput_mbps is Some {
                            c.throughput_mbps->0
                        } else {
                            1u32
                        },
                        reliability_permille: ASSUMED_RELIABILITY_PERMILLE,
                        backends: if backends.len() > 0 {
                            backends
                        } else {
                            seq![reference_cpu()]
                        },
                    },
                )
            },
        }
    }
}

fn collect_backends(claims: &Vec<BackendClaim>) -> (r: Vec<BackendCapability>)
    ensures
        r@ == usable_backends(claims@),
{
    let ghost p = |b: BackendClaim| backend_usable(b);
    let ghost f = |b: BackendClaim| b.capability;
    let mut out: Vec<BackendCapability> = Vec::new();
    let mut i: usize = 0;
    proof {
        crate::base::search::lemma_filter_ends(claims@, p);
        assert(out@ =~= claims@.take(0).filter(p).map_values(f));
    }
    while i < claims.len()
        invariant
            0 <= i <= claims@.len(),
            p == (|b: BackendClaim| backend_usable(b)),
            f == (|b: BackendClaim| b.capability),
            out@ == claims@.take(i as int).filter(p).map_values(f),
        decreases claims@.len() - i,
    {
        let claim = claims[i];
        proof {
            crate::base::search::lemma_filter_step(claims@, p, i as int);
        }
        let trusted = match claim.confidence_permille {
            Some(confidence) => confidence >= MIN_CONFIDENCE_PERMILLE,
            None => false,
        };
        if claim.capability.runtime_available && claim.capability.health
            != BackendHealth::Unavailable && (claim.capability.kind == BackendKind::Cpu
            || trusted) {
            out.push(claim.capability);
        }
        assert(out@ =~= claims@.take(i as int + 1).filter(p).map_values(f));
        i += 1;
    }
    proof {
        crate::base::search::lemma_filter_ends(claims@, p);
    }
    out
}

/// The profile of a peer, where it is live and advertises reference training.
pub fn worker_profile(record: &ProfileRecord, now: u64) -> (r: Option<WorkerProfile>)
    ensures
        opt_view(r) == profile_of(record@, now),
{
    if record.expires_at < now {
        return None;
    }
    let ghost s = record@.capabilities;
    let mut i: usize = 0;
    while i < record.capabilities.len()
        invariant
            0 <= i <= record.capabilities@.len(),
            s == views(record.capabilities@),
            record.expires_at >= now,
            forall|j: int| 0 <= j < i ==> !live_training(now)(#[trigger] s[j]),
        decreases record.capabilities@.len() - i,
    {
        let c = &record.capabilities[i];
        assert(s[i as int] == c@);
        if text_is(&c.name, "training.reference") && c.expires_at >= now {
            proof {
                lemma_find_at(s, live_training(now), i as int);
            }
            let mut backends = collect_backends(&c.backends);
            let hardware = match c.hardware {
                Some(kind) => if backends.len() > 0 {
                    kind
                } else {
                    HardwareKind::Cpu
                },
                None => HardwareKind::Cpu,
            };
            if backends.len() == 0 {
                backends.push(
                    BackendCapability {
                        kind: BackendKind::Cpu,
                        runtime_available: true,
                        health: BackendHealth::Healthy,
                    },
                );
                assert(backends@ =~= seq![reference_cpu()]);
            }
            let units: u64 = c.cpu_millis / 1000;
            let units: u64 = if units < 1 {
                1
            } else {
                units
            };
            let rtt_ms: u32 = match record.observed_latency_ms {
                Some(latency) => latency,
                None => UNKNOWN_RTT_MS,
            };
            let throughput_mbps: u32 = match c.throughput_mbps {
                Some(rate) => rate,
                None => 1,
            };
            return Some(
                WorkerProfile {
                    node: record.node_id,
                    hardware,
                    memory_bytes: c.memory_bytes,
                    compute_units: units as u32,
                    rtt_ms,
                    throughput_mbps,
                    reliability_permille: ASSUMED_RELIABILITY_PERMILLE,
                    backends,
                },
            );
        }
        i += 1;
    }
    proof {
        lemma_find_at(s, live_training(now), i as int);
    }
    None
}

/// The profiles of the peers that have one, in order.
pub open spec fn profiles_of(records: Seq<ProfileRecordView>, now: u64) -> Seq<WorkerProfileView>
    decreases records.len(),
{
    if records.len() == 0 {
        Seq::empty()
    } else {
        match profile_of(records.last(), now) {
            Some(p) => profiles_of(records.drop_last(), now).push(p),
            None => profiles_of(records.drop_last(), now),
        }
    }
}

pub fn worker_profiles(records: &Vec<ProfileRecord>, now: u64) -> (r: Vec<WorkerProfile>)
    ensures
        views(r@) == profiles_of(views(records@), now),
{
    let ghost s = views(records@);
    let mut out: Vec<WorkerProfile> = Vec::new();
    let mut i: usize = 0;
    assert(views(out@) =~= profiles_of(s.take(0), now));
    while i < records.len()
        invariant
            0 <= i <= records@.len(),
            s == views(records@),
            views(out@) == profiles_of(s.take(i as int), now),
        decreases records@.len() - i,
    {
        proof {
            assert(s.take(i as int + 1).drop_last() =~= s.take(i as int));
            assert(s.take(i as int + 1).last() == records@[i as int]@);
        }
        match worker_profile(&records[i], now) {
            Some(profile) => {
                proof {
                    lemma_views_push(out@, profile);
                }
                out.push(profile);
            },
            None => {},
        }
        i += 1;
    }
    assert(s.take(i as int) =~= s);
    out
}

/// An accelerator appears in a profile only where this node has tested it.
pub proof fn law_untested_accelerators_stay_out(record: ProfileRecordView, now: u64, kind: BackendKind)
    requires
        kind != BackendKind::Cpu,
        profile_of(record, now) is Some,
        exists|i: int|
            0 <= i < profile_of(record, now)->0.backends.len()
                && #[trigger] profile_of(record, now)->0.backends[i].kind == kind,
    ensures
        ({
            let c = find(record.capabilities, live_training(now))->0;
            exists|i: int|
                0 <= i < c.backends.len() && (#[trigger] c.backends[i]).capability.kind == kind
                    && c.backends[i].confidence_permille is Some
                    && c.backends[i].confidence_permille->0 >= MIN_CONFIDENCE_PERMILLE
        }),
{
    let c = find(record.capabilities, live_training(now))->0;
    let p = |b: BackendClaim| backend_usable(b);
    let kept = c.backends.filter(p);
    crate::base::search::lemma_filter_contains(c.backends, p);
    let all = profile_of(record, now)->0.backends;
    let i = choose|i: int| 0 <= i < all.len() && #[trigger] all[i].kind == kind;
    assert(usable_backends(c.backends).len() > 0);
    assert(kept.contains(kept[i]));
    assert(c.backends.contains(kept[i]) && p(kept[i]));
    let k = choose|k: int| 0 <= k < c.backends.len() && c.backends[k] == kept[i];
    assert(c.backends[k].capability.kind == kind);
}

/// `profile` put into a list sorted by peer, after those that come first or are equal.
pub open spec fn placed(sorted: Seq<WorkerProfileView>, profile: WorkerProfileView) -> Seq<
    WorkerProfileView,
>
    decreases sorted.len(),
{
    if sorted.len() == 0 || id_le(sorted.last().node, profile.node) {
        sorted.push(profile)
    } else {
        placed(sorted.drop_last(), profile).push(sorted.last())
    }
}

/// The profiles with enough memory, sorted by peer, equal peers in their order.
pub open spec fn candidates_by_peer(profiles: Seq<WorkerProfileView>, minimum: u64) -> Seq<
    WorkerProfileView,
>
    decreases profiles.len(),
{
    if profiles.len() == 0 {
        Seq::empty()
    } else {
        let before = candidates_by_peer(profiles.drop_last(), minimum);
        if profiles.last().memory_bytes >= minimum {
            placed(before, profiles.last())
        } else {
            before
        }
    }
}

fn place(sorted: &mut Vec<WorkerProfile>, profile: WorkerProfile)
    ensures
        views(final(sorted)@) == placed(views(old(sorted)@), profile@),
{
    let ghost s = views(sorted@);
    let ghost given = profile@;
    let mut at: usize = sorted.len();
    assert(s.take(at as int) =~= s);
    assert(s.skip(at as int) =~= Seq::<WorkerProfileView>::empty());
    assert(placed(s, given) =~= placed(s.take(at as int), given) + s.skip(at as int));
    while at > 0 && profile.node.precedes(&sorted[at - 1].node)
        invariant
            0 <= at <= sorted@.len(),
            s == views(sorted@),
            given == profile@,
            placed(s, given) == placed(s.take(at as int), given) + s.skip(at as int),
        decreases at,
    {
        proof {
            let t = s.take(at as int);
            assert(t.last() == sorted@[at as int - 1]@);
            assert(t.drop_last() =~= s.take(at as int - 1));
            assert(placed(t, given) == placed(t.drop_last(), given).push(t.last()));
            assert(placed(s.take(at as int - 1), given).push(t.last()) + s.skip(at as int)
                =~= placed(s.take(at as int - 1), given) + s.skip(at as int - 1));
        }
        at -= 1;
    }
    proof {
        let t = s.take(at as int);
        if at > 0 {
            assert(t.last() == sorted@[at as int - 1]@);
        }
        assert(placed(t, given) == t.push(given));
        assert(s.insert(at as int, given) =~= t.push(given) + s.skip(at as int));
    }
    sorted.insert(at, profile);
    assert(views(sorted@) =~= s.insert(at as int, given));
}

/// The profiles with enough memory, sorted by peer.
pub fn qualified_profiles(profiles: &Vec<WorkerProfile>, minimum_memory_bytes: u64) -> (r: Vec<
    WorkerProfile,
>)
    ensures
        views(r@) == candidates_by_peer(views(profiles@), minimum_memory_bytes),
{
    let ghost s = views(profiles@);
    let mut out: Vec<WorkerProfile> = Vec::new();
    let mut i: usize = 0;
    assert(views(out@) =~= candidates_by_peer(s.take(0), minimum_memory_bytes));
    while i < profiles.len()
        invariant
            0 <= i <= profiles@.len(),
            s == views(profiles@),
            views(out@) == candidates_by_peer(s.take(i as int), minimum_memory_bytes),
        decreases profiles@.len() - i,
    {
        proof {
            assert(s.take(i as int + 1).drop_last() =~= s.take(i as int));
            assert(s.take(i as int + 1).last() == profiles@[i as int]@);
        }
        if profiles[i].memory_bytes >= minimum_memory_bytes {
            let copy = profiles[i].duplicate();
            place(&mut out, copy);
        }
        i += 1;
    }
    assert(s.take(i as int) =~= s);
    out
}

/// The profiles are sorted by peer.
pub open spec fn sorted_by_peer(profiles: Seq<WorkerProfileView>) -> bool {
    forall|i: int, j: int|
        0 <= i < j < profiles.len() ==> id_le(
            (#[trigger] profiles[i]).node,
            (#[trigger] profiles[j]).node,
        )
}

proof fn lemma_placed(sorted: Seq<WorkerProfileView>, profile: WorkerProfileView)
    requires
        sorted_by_peer(sorted),
    ensures
        sorted_by_peer(placed(sorted, profile)),
        forall|p: WorkerProfileView| #[trigger]
            placed(sorted, profile).contains(p) ==> p == profile || sorted.contains(p),
    decreases sorted.len(),
{
    let out = placed(sorted, profile);
    if sorted.len() == 0 || id_le(sorted.last().node, profile.node) {
        assert forall|i: int, j: int| 0 <= i < j < out.len() implies id_le(
            (#[trigger] out[i]).node,
            (#[trigger] out[j]).node,
        ) by {
            if j == sorted.len() && i < sorted.len() - 1 {
                assert(id_le(sorted[i].node, sorted[sorted.len() - 1].node));
            }
        }
        assert forall|p: WorkerProfileView| #[trigger] out.contains(p) implies p == profile
            || sorted.contains(p) by {
            let k = out.index_of(p);
            if k < sorted.len() {
                assert(sorted[k] == p);
            }
        }
    } else {
        let before = sorted.drop_last();
        lemma_placed(before, profile);
        let inner = placed(before, profile);
        let last = sorted.last();
        assert forall|i: int, j: int| 0 <= i < j < out.len() implies id_le(
            (#[trigger] out[i]).node,
            (#[trigger] out[j]).node,
        ) by {
            if j == inner.len() {
                assert(inner.contains(inner[i]));
                if inner[i] != profile {
                    let k = before.index_of(inner[i]);
                    assert(sorted[k] == inner[i]);
                    assert(id_le(sorted[k].node, sorted[sorted.len() - 1].node));
                }
            } else {
                assert(out[i] == inner[i] && out[j] == inner[j]);
            }
        }
        assert forall|p: WorkerProfileView| #[trigger] out.contains(p) implies p == profile
            || sorted.contains(p) by {
            let k = out.index_of(p);
            if k < inner.len() {
                assert(inner[k] == p);
                assert(inner.contains(p));
                if p != profile {
                    let m = before.index_of(p);
                    assert(sorted[m] == p);
                }
            } else {
                assert(sorted[sorted.len() - 1] == p);
            }
        }
    }
}

proof fn lemma_candidates(profiles: Seq<WorkerProfileView>, minimum: u64)
    ensures
        sorted_by_peer(candidates_by_peer(profiles, minimum)),
        forall|p: WorkerProfileView| #[trigger]
            candidates_by_peer(profiles, minimum).contains(p) ==> profiles.contains(p)
                && p.memory_bytes >= minimum,
    decreases profiles.len(),
{
    if profiles.len() > 0 {
        let before = profiles.drop_last();
        lemma_candidates(before, minimum);
        lemma_placed(candidates_by_peer(before, minimum), profiles.last());
        assert forall|p: WorkerProfileView| #[trigger]
            candidates_by_peer(profiles, minimum).contains(p) implies profiles.contains(p)
            && p.memory_bytes >= minimum by {
            if p == profiles.last() && candidates_by_peer(before, minimum).contains(p) {
                assert(profiles[profiles.len() - 1] == p);
            } else if p == profiles.last() {
                assert(profiles[profiles.len() - 1] == p);
            } else {
                assert(candidates_by_peer(before, minimum).contains(p));
                let k = before.index_of(p);
                assert(profiles[k] == p);
            }
        }
    }
}

proof fn lemma_profiles_of(records: Seq<ProfileRecordView>, now: u64)
    ensures
        forall|p: WorkerProfileView| #[trigger]
            profiles_of(records, now).contains(p) ==> exists|k: int|
                0 <= k < records.len() && profile_of(#[trigger] records[k], now) == Some(p),
    decreases records.len(),
{
    if records.len() > 0 {
        let before = records.drop_last();
        lemma_profiles_of(before, now);
        assert forall|p: WorkerProfileView| #[trigger]
            profiles_of(records, now).contains(p) implies exists|k: int|
            0 <= k < records.len() && profile_of(#[trigger] records[k], now) == Some(p) by {
            if profiles_of(before, now).contains(p) {
                let k = choose|k: int|
                    0 <= k < before.len() && profile_of(#[trigger] before[k], now) == Some(p);
                assert(records[k] == before[k]);
            } else {
                let all = profiles_of(records, now);
                let k = all.index_of(p);
                if k < profiles_of(before, now).len() {
                    assert(profiles_of(before, now)[k] == p);
                }
                assert(profile_of(records[records.len() - 1], now) == Some(p));
            }
        }
    }
}

/// The candidates of a round are sorted by peer, have the memory, and come from
/// records of peers that are not expired and advertise live reference training.
pub proof fn law_candidates_are_qualified(
    records: Seq<ProfileRecordView>,
    now: u64,
    minimum: u64,
    i: int,
)
    requires
        0 <= i < candidates_by_peer(profiles_of(records, now), minimum).len(),
    ensures
        sorted_by_peer(candidates_by_peer(profiles_of(records, now), minimum)),
        ({
            let p = candidates_by_peer(profiles_of(records, now), minimum)[i];
            &&& p.memory_bytes >= minimum
            &&& exists|k: int|
                0 <= k < records.len() && (#[trigger] records[k]).node_id == p.node
                    && records[k].expires_at >= now && find(
                    records[k].capabilities,
                    live_training(now),
                ) is Some && profile_of(records[k], now) == Some(p)
        }),
{
    let all = profiles_of(records, now);
    let p = candidates_by_peer(all, minimum)[i];
    lemma_candidates(all, minimum);
    lemma_profiles_of(records, now);
    assert(candidates_by_peer(all, minimum).contains(p));
    assert(all.contains(p));
    let k = choose|k: int| 0 <= k < records.len() && profile_of(#[trigger] records[k], now) == Some(
        p,
    );
    assert(records[k].node_id == p.node);
}

/// The accelerator family of a kind of hardware.
pub open spec fn family_of(hardware: HardwareKind) -> V4AcceleratorFamily {
    match hardware {
        HardwareKind::Cpu | HardwareKind::Unknown => V4AcceleratorFamily::Cpu,
        HardwareKind::AppleSilicon => V4AcceleratorFamily::Metal,
        HardwareKind::AmdGpu => V4AcceleratorFamily::Rocm,
        HardwareKind::NvidiaConsumer
        | HardwareKind::A100
        | HardwareKind::H100
        | HardwareKind::B200 => V4AcceleratorFamily::Cuda,
    }
}

/// The name of a kind of hardware.
pub open spec fn hardware_name(hardware: HardwareKind) -> Seq<char> {
    match hardware {
        HardwareKind::Cpu => "Cpu"@,
        HardwareKind::AppleSilicon => "AppleSilicon"@,
        HardwareKind::AmdGpu => "AmdGpu"@,
        HardwareKind::NvidiaConsumer => "NvidiaConsumer"@,
        HardwareKind::A100 => "A100"@,
        HardwareKind::H100 => "H100"@,
        HardwareKind::B200 => "B200"@,
        HardwareKind::Unknown => "Unknown"@,
    }
}

fn name_hardware(hardware: HardwareKind) -> (r: String)
    ensures
        r@ == hardware_name(hardware),
{
    match hardware {
        HardwareKind::Cpu => "Cpu".to_owned(),
        HardwareKind::AppleSilicon => "AppleSilicon".to_owned(),
        HardwareKind::AmdGpu => "AmdGpu".to_owned(),
        HardwareKind::NvidiaConsumer => "NvidiaConsumer".to_owned(),
        HardwareKind::A100 => "A100".to_owned(),
        HardwareKind::H100 => "H100".to_owned(),
        HardwareKind::B200 => "B200".to_owned(),
        HardwareKind::Unknown => "Unknown".to_owned(),
    }
}

/// What a plan records of a worker.
pub open spec fn capability_of_profile(w: WorkerProfileView) -> V4WorkerCapabilityView {
    V4WorkerCapabilityView {
        node: w.node,
        family: family_of(w.hardware),
        device_model: hardware_name(w.hardware),
        physical_verified: w.hardware == HardwareKind::Cpu,
        memory_bytes: max_int(w.memory_bytes as int, 1) as u64,
        compute_units: max_int(w.compute_units as int, 1) as u32,
        rtt_ms: w.rtt_ms,
        bandwidth_mbps: max_int(w.throughput_mbps as int, 1) as u32,
        reliability_permille: min_int(w.reliability_permille as int, 1000) as u16,
        backends: if w.backends.len() > 0 {
            w.backends
        } else {
            seq![reference_cpu()]
        },
    }
}

pub fn v4_worker_capability(worker: &WorkerProfile) -> (r: V4WorkerCapability)
    ensures
        r@ == capability_of_profile(worker@),
{
    let family = match worker.hardware {
        HardwareKind::Cpu | HardwareKind::Unknown => V4AcceleratorFamily::Cpu,
        HardwareKind::AppleSilicon => V4AcceleratorFamily::Metal,
        HardwareKind::AmdGpu => V4AcceleratorFamily::Rocm,
        HardwareKind::NvidiaConsumer
        | HardwareKind::A100
        | HardwareKind::H100
        | HardwareKind::B200 => V4AcceleratorFamily::Cuda,
    };
    let mut backends = worker.backends.clone();
    if backends.len() == 0 {
        backends.push(
            BackendCapability {
                kind: BackendKind::Cpu,
                runtime_available: true,
                health: BackendHealth::Healthy,
            },
        );
        assert(backends@ =~= seq![reference_cpu()]);
    }
    V4WorkerCapability {
        node: worker.node,
        family,
        device_model: name_hardware(worker.hardware),
        physical_verified: worker.hardware == HardwareKind::Cpu,
        memory_bytes: if worker.memory_bytes < 1 {
            1
        } else {
            worker.memory_bytes
        },
        compute_units: if worker.compute_units < 1 {
            1
        } else {
            worker.compute_units
        },
        rtt_ms: worker.rtt_ms,
        bandwidth_mbps: if worker.throughput_mbps < 1 {
            1
        } else {
            worker.throughput_mbps
        },
        reliability_permille: if worker.reliability_permille > 1000 {
            1000
        } else {
            worker.reliability_permille
        },
        backends,
    }
}

/// The link between two workers: the slower round trip, the smaller bandwidth
/// and the lower reliability.
pub open spec fn link_between(a: WorkerProfileView, b: WorkerProfileView) -> V4TopologyLink {
    V4TopologyLink {
        from: a.node,
        to: b.node,
        rtt_ms: max_int(max_int(a.rtt_ms as int, b.rtt_ms as int), 1) as u32,
        bandwidth_mbps: max_int(
            min_int(a.throughput_mbps as int, b.throughput_mbps as int),
            1,
        ) as u32,
        reliability_permille: min_int(
            min_int(a.reliability_permille as int, b.reliability_permille as int),
            1000,
        ) as u16,
    }
}

/// The links of the worker at position `i` to those after it.
pub open spec fn links_of(workers: Seq<WorkerProfileView>, i: int) -> Seq<V4TopologyLink> {
    Seq::new(
        (workers.len() - i - 1) as nat,
        |k: int| link_between(workers[i], workers[i + 1 + k]),
    )
}

/// The links of the first `n` workers to those after them.
pub open spec fn links_up_to(workers: Seq<WorkerProfileView>, n: int) -> Seq<V4TopologyLink>
    decreases n,
{
    if n <= 0 {
        Seq::empty()
    } else {
        links_up_to(workers, n - 1) + links_of(workers, n - 1)
    }
}

fn link(a: &WorkerProfile, b: &WorkerProfile) -> (r: V4TopologyLink)
    ensures
        r == link_between(a@, b@),
{
    let rtt: u32 = if a.rtt_ms >= b.rtt_ms {
        a.rtt_ms
    } else {
        b.rtt_ms
    };
    let rate: u32 = if a.throughput_mbps <= b.throughput_mbps {
        a.throughput_mbps
    } else {
        b.throughput_mbps
    };
    let reliability: u16 = if a.reliability_permille <= b.reliability_permille {
        a.reliability_permille
    } else {
        b.reliability_permille
    };
    V4TopologyLink {
        from: a.node,
        to: b.node,
        rtt_ms: if rtt < 1 {
            1
        } else {
            rtt
        },
        bandwidth_mbps: if rate < 1 {
            1
        } else {
            rate
        },
        reliability_permille: if reliability > 1000 {
            1000
        } else {
            reliability
        },
    }
}

/// The links between all pairs of workers.
pub fn topology_links(workers: &Vec<WorkerProfile>) -> (r: Vec<V4TopologyLink>)
    ensures
        r@ == links_up_to(views(workers@), workers@.len() as int),
{
    let ghost s = views(workers@);
    let mut out: Vec<V4TopologyLink> = Vec::new();
    let mut i: usize = 0;
    while i < workers.len()
        invariant
            0 <= i <= workers@.len(),
            s == views(workers@),
            out@ == links_up_to(s, i as int),
        decreases workers@.len() - i,
    {
        let ghost before = out@;
        let mut j: usize = i + 1;
        assert(out@ =~= before + links_of(s, i as int).take(0));
        while j < workers.len()
            invariant
                0 <= i < j <= workers@.len(),
                s == views(workers@),
                out@ == before + links_of(s, i as int).take(j - i - 1),
            decreases workers@.len() - j,
        {
            let made = link(&workers[i], &workers[j]);
            assert(s[i as int] == workers@[i as int]@ && s[j as int] == workers@[j as int]@);
            assert(links_of(s, i as int)[j - i - 1] == made);
            out.push(made);
            assert(out@ =~= before + links_of(s, i as int).take(j - i));
            j += 1;
        }
        assert(links_of(s, i as int).take(j - i - 1) =~= links_of(s, i as int));
        i += 1;
    }
    out
}

/// The profile of a live peer is read off its record and off the first live capability
/// for reference training: the latency that was observed, the throughput and the memory
/// that were advertised, a compute unit for every thousand of CPU. Five seconds stand
/// for a latency that nobody observed, one for a throughput that nobody advertised.
pub proof fn law_profile_tells_what_was_measured(record: ProfileRecordView, now: u64, i: int)
    requires
        record.expires_at >= now,
        0 <= i < record.capabilities.len(),
        record.capabilities[i].name == "training.reference"@,
        record.capabilities[i].expires_at >= now,
        forall|j: int|
            0 <= j < i ==> (#[trigger] record.capabilities[j]).name != "training.reference"@
                || record.capabilities[j].expires_at < now,
    ensures
        profile_of(record, now) is Some,
        ({
            let c = record.capabilities[i];
            let p = profile_of(record, now)->0;
            let usable = usable_backends(c.backends);
            &&& p.node == record.node_id
            &&& p.memory_bytes == c.memory_bytes
            &&& record.observed_latency_ms matches Some(l) ==> p.rtt_ms == l
            &&& record.observed_latency_ms is None ==> p.rtt_ms == 5_000
            &&& c.throughput_mbps matches Some(t) ==> p.throughput_mbps == t
            &&& c.throughput_mbps is None ==> p.throughput_mbps == 1
            &&& 1_000 <= c.cpu_millis <= 1_000 * u32::MAX ==> p.compute_units * 1_000 <= c.cpu_millis < (p.compute_units
                + 1) * 1_000
            &&& c.cpu_millis < 1_000 ==> p.compute_units == 1
            &&& p.reliability_permille == 900
            &&& usable.len() > 0 ==> p.backends == usable
            &&& usable.len() == 0 ==> p.backends.len() == 1 && p.backends[0].kind
                == BackendKind::Cpu && p.hardware == HardwareKind::Cpu
            &&& usable.len() > 0 && c.hardware is Some ==> p.hardware == c.hardware->0
            &&& c.hardware is None ==> p.hardware == HardwareKind::Cpu
        }),
{
    lemma_find_at(record.capabilities, live_training(now), i);
}

/// A peer without a live record, or without a live capability for reference training,
/// has no profile.
pub proof fn law_profile_needs_a_live_offer(record: ProfileRecordView, now: u64)
    requires
        profile_of(record, now) is Some,
    ensures
        record.expires_at >= now,
        exists|i: int|
            0 <= i < record.capabilities.len() && (#[trigger] record.capabilities[i]).name
                == "training.reference"@ && record.capabilities[i].expires_at >= now,
{
    crate::base::search::lemma_find_sound(record.capabilities, live_training(now));
    let found = find(record.capabilities, live_training(now))->0;
    let i = record.capabilities.index_of(found);
    assert(record.capabilities[i].name == "training.reference"@);
}

/// Two records that differ only in the observed latency have profiles that differ in the
/// round trip and in nothing else.
pub proof fn law_latency_shows_in_the_profile(record: ProfileRecordView, now: u64, a: u32, b: u32)
    requires
        profile_of(record, now) is Some,
    ensures
        ({
            let first = profile_of(
                ProfileRecordView { observed_latency_ms: Some(a), ..record },
                now,
            );
            let second = profile_of(
                ProfileRecordView { observed_latency_ms: Some(b), ..record },
                now,
            );
            &&& first is Some && second is Some
            &&& first->0.rtt_ms == a
            &&& second->0.rtt_ms == b
            &&& first->0 == (WorkerProfileView { rtt_ms: a, ..second->0 })
        }),
{
}

/// A backend is listed exactly when its runtime is there, it is not unavailable, and it
/// is the CPU or has been tested with a confidence of at least half; claims keep their
/// order.
pub proof fn law_usable_backends_are_listed(claims: Seq<BackendClaim>, claim: BackendClaim)
    ensures
        usable_backends(Seq::empty()) == Seq::<BackendCapability>::empty(),
        claim.capability.runtime_available && claim.capability.health != BackendHealth::Unavailable
            && (claim.capability.kind == BackendKind::Cpu || (claim.confidence_permille is Some
            && claim.confidence_permille->0 >= 500)) ==> usable_backends(claims.push(claim))
            == usable_backends(claims).push(claim.capability),
        !claim.capability.runtime_available || claim.capability.health == BackendHealth::Unavailable
            || (claim.capability.kind != BackendKind::Cpu && (claim.confidence_permille is None
            || claim.confidence_permille->0 < 500)) ==> usable_backends(claims.push(claim))
            == usable_backends(claims),
{
    reveal(Seq::filter);
    let p = |b: BackendClaim| backend_usable(b);
    let all = claims.push(claim);
    assert(all.drop_last() =~= claims);
    assert(all.last() == claim);
    assert(Seq::<BackendClaim>::empty().filter(p) =~= Seq::empty());
    assert(usable_backends(Seq::empty()) =~= Seq::empty());
    if backend_usable(claim) {
        assert(all.filter(p) == claims.filter(p).push(claim));
        assert(usable_backends(all) =~= usable_backends(claims).push(claim.capability));
    } else {
        assert(all.filter(p) == claims.filter(p));
    }
}

/// Each record with a profile adds it to the list, in the order of the records; the
/// others add nothing.
pub proof fn law_profiles_follow_records(
    records: Seq<ProfileRecordView>,
    record: ProfileRecordView,
    now: u64,
)
    ensures
        profiles_of(Seq::empty(), now).len() == 0,
        profile_of(record, now) matches Some(p) ==> profiles_of(records.push(record), now)
            == profiles_of(records, now).push(p),
        profile_of(record, now) is None ==> profiles_of(records.push(record), now) == profiles_of(
            records,
            now,
        ),
{
    assert(records.push(record).drop_last() =~= records);
}

/// A plan records a worker as its profile tells, with no number below one and no
/// reliability over a thousand; the accelerator family follows the hardware, and only
/// the CPU counts as verified.
pub proof fn law_plan_records_the_profile(w: WorkerProfileView)
    ensures
        ({
            let c = capability_of_profile(w);
            &&& c.node == w.node
            &&& c.rtt_ms == w.rtt_ms
            &&& w.memory_bytes >= 1 ==> c.memory_bytes == w.memory_bytes
            &&& w.compute_units >= 1 ==> c.compute_units == w.compute_units
            &&& w.throughput_mbps >= 1 ==> c.bandwidth_mbps == w.throughput_mbps
            &&& c.memory_bytes >= 1 && c.compute_units >= 1 && c.bandwidth_mbps >= 1
            &&& w.memory_bytes == 0 ==> c.memory_bytes == 1
            &&& w.compute_units == 0 ==> c.compute_units == 1
            &&& w.throughput_mbps == 0 ==> c.bandwidth_mbps == 1
            &&& w.reliability_permille <= 1_000 ==> c.reliability_permille == w.reliability_permille
            &&& w.reliability_permille > 1_000 ==> c.reliability_permille == 1_000
            &&& w.backends.len() > 0 ==> c.backends == w.backends
            &&& w.backends.len() == 0 ==> c.backends.len() == 1 && c.backends[0].kind
                == BackendKind::Cpu && c.backends[0].runtime_available
            &&& c.physical_verified <==> w.hardware is Cpu
            &&& c.family is Cpu <==> w.hardware is Cpu || w.hardware is Unknown
            &&& c.family is Metal <==> w.hardware is AppleSilicon
            &&& c.family is Rocm <==> w.hardware is AmdGpu
            &&& c.family is Cuda <==> w.hardware is NvidiaConsumer || w.hardware is A100
                || w.hardware is H100 || w.hardware is B200
            &&& w.hardware is Cpu ==> c.device_model == "Cpu"@
            &&& w.hardware is AppleSilicon ==> c.device_model == "AppleSilicon"@
            &&& w.hardware is AmdGpu ==> c.device_model == "AmdGpu"@
            &&& w.hardware is NvidiaConsumer ==> c.device_model == "NvidiaConsumer"@
            &&& w.hardware is A100 ==> c.device_model == "A100"@
            &&& w.hardware is H100 ==> c.device_model == "H100"@
            &&& w.hardware is B200 ==> c.device_model == "B200"@
            &&& w.hardware is Unknown ==> c.device_model == "Unknown"@
        }),
{
}

/// A link is as slow, as narrow and as unreliable as the worse of its two ends, whichever
/// end is named first.
pub proof fn law_link_is_as_good_as_its_worse_end(a: WorkerProfileView, b: WorkerProfileView)
    ensures
        ({
            let l = link_between(a, b);
            let back = link_between(b, a);
            &&& l.from == a.node && l.to == b.node
            &&& l.rtt_ms >= a.rtt_ms && l.rtt_ms >= b.rtt_ms && l.rtt_ms >= 1
            &&& l.rtt_ms == a.rtt_ms || l.rtt_ms == b.rtt_ms || (l.rtt_ms == 1 && a.rtt_ms == 0
                && b.rtt_ms == 0)
            &&& a.throughput_mbps >= 1 && b.throughput_mbps >= 1 ==> l.bandwidth_mbps
                <= a.throughput_mbps && l.bandwidth_mbps <= b.throughput_mbps && (l.bandwidth_mbps
                == a.throughput_mbps || l.bandwidth_mbps == b.throughput_mbps)
            &&& a.throughput_mbps == 0 || b.throughput_mbps == 0 ==> l.bandwidth_mbps == 1
            &&& l.reliability_permille <= a.reliability_permille && l.reliability_permille
                <= b.reliability_permille && l.reliability_permille <= 1_000
            &&& l.reliability_permille == a.reliability_permille || l.reliability_permille
                == b.reliability_permille || l.reliability_permille == 1_000
            &&& back == (V4TopologyLink { from: b.node, to: a.node, ..l })
        }),
{
}

/// Every pair of workers is linked, the earlier one first, and every link joins a pair.
pub proof fn law_every_pair_is_linked(workers: Seq<WorkerProfileView>, n: int, i: int, j: int)
    requires
        0 <= n <= workers.len(),
    ensures
        0 <= i < j < workers.len() && i < n ==> links_up_to(workers, n).contains(
            link_between(workers[i], workers[j]),
        ),
        forall|k: int|
            0 <= k < links_up_to(workers, n).len() ==> exists|a: int, b: int|
                0 <= a < b < workers.len() && #[trigger] link_between(workers[a], workers[b])
                    == #[trigger] links_up_to(workers, n)[k],
    decreases n,
{
    if n > 0 {
        law_every_pair_is_linked(workers, n - 1, i, j);
        let before = links_up_to(workers, n - 1);
        let added = links_of(workers, n - 1);
        let all = links_up_to(workers, n);
        assert(all == before + added);
        if 0 <= i < j < workers.len() && i < n {
            let link = link_between(workers[i], workers[j]);
            if i < n - 1 {
                let k = before.index_of(link);
                assert(all[k] == link);
            } else {
                let k = j - i - 1;
                assert(added[k] == link);
                assert(all[before.len() + k] == link);
            }
        }
        assert forall|k: int| 0 <= k < all.len() implies exists|a: int, b: int|
            0 <= a < b < workers.len() && #[trigger] link_between(workers[a], workers[b])
                == #[trigger] all[k] by {
            if k < before.len() {
                assert(all[k] == before[k]);
            } else {
                let b = n + (k - before.len());
                assert(all[k] == added[k - before.len()]);
                assert(link_between(workers[n - 1], workers[b]) == all[k]);
            }
        }
    }
}

/// As many links as pairs: no pair is linked twice.
pub proof fn law_links_count_pairs(workers: Seq<WorkerProfileView>, n: int)
    requires
        0 <= n <= workers.len(),
    ensures
        2 * links_up_to(workers, n).len() == n * (2 * workers.len() - n - 1),
    decreases n,
{
    if n > 0 {
        law_links_count_pairs(workers, n - 1);
        let w = workers.len() as int;
        assert(links_up_to(workers, n).len() == links_up_to(workers, n - 1).len() + (w - n));
        assert((n - 1) * (2 * w - (n - 1) - 1) + 2 * (w - n) == n * (2 * w - n - 1))
            by (nonlinear_arith);
    } else {
        assert(n * (2 * workers.len() - n - 1) == 0) by (nonlinear_arith)
            requires
                n == 0,
        ;
    }
}

} // verus!
