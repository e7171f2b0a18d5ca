//! Job requests: admission of the request, choice of workers, groups, shards
//! and the job description sent to each worker.

use crate::base::arith::min_int;
use crate::base::ids::{ArtifactId, JobId, NodeId};
use crate::base::members::{ascending, sorted_unique};
use crate::base::record::{duplicate_all, Duplicate};
use crate::base::search::{lemma_views_push, views};
use crate::base::text::text_is;
use crate::reference::sgd::{samples_for_shard, shard_samples};
use crate::reference::types::{
    TrainingExecution, TrainingGroup, TrainingGroupView, TrainingShardAssignment,
    TrainingShardAssignmentView, TrainingStart, TrainingStartView,
};
use vstd::prelude::*;

verus! {

/// The fewest workers that a job runs on.
pub const MIN_WORKERS: usize = 4;

/// The most workers that a job runs on.
pub const MAX_WORKERS: usize = 16;

/// The memory that a worker has to advertise with its training capability.
pub const MIN_WORKER_MEMORY: u64 = 67_108_864;

/// The bytes of state of the whole reference model.
pub const MODEL_STATE_BYTES: u64 = 2048;

/// The bytes of state of one shard of the reference model.
pub const SHARD_STATE_BYTES: u64 = 1024;

/// A capability that a peer advertises.
#[derive(Debug, PartialEq, Eq)]
pub struct Capability {
    pub name: String,
    pub memory_bytes: u64,
}

/// The contents of a [`Capability`].
#[verifier::ext_equal]
pub struct CapabilityView {
    pub name: Seq<char>,
    pub memory_bytes: u64,
}

impl View for Capability {
    type V = CapabilityView;

    open spec fn view(&self) -> CapabilityView {
        CapabilityView {
            name: self.name@,
            memory_bytes: self.memory_bytes,
        }
    }
}

impl Duplicate for Capability {
    fn duplicate(&self) -> (r: Capability) {
        Capability {
            name: self.name.clone(),
            memory_bytes: self.memory_bytes,
        }
    }
}

/// What is known of a peer that may take part in training.
#[derive(Debug, PartialEq, Eq)]
pub struct PeerRecord {
    pub node_id: NodeId,
    pub expires_at: u64,
    pub capabilities: Vec<Capability>,
}

/// The contents of a [`PeerRecord`].
#[verifier::ext_equal]
pub struct PeerRecordView {
    pub node_id: NodeId,
    pub expires_at: u64,
    pub capabilities: Seq<CapabilityView>,
}

impl View for PeerRecord {
    type V = PeerRecordView;

    open spec fn view(&self) -> PeerRecordView {
        PeerRecordView {
            node_id: self.node_id,
            expires_at: self.expires_at,
            capabilities: views(self.capabilities@),
        }
    }
}

impl Duplicate for PeerRecord {
    fn duplicate(&self) -> (r: PeerRecord) {
        PeerRecord {
            node_id: self.node_id,
            expires_at: self.expires_at,
            capabilities: duplicate_all(&self.capabilities),
        }
    }
}

/// The bounds that a job request has to keep.
pub open spec fn request_in_bounds(
    requested_workers: u16,
    max_windows: u64,
    local_steps: u16,
    checkpoint_every: u64,
) -> bool {
    &&& MIN_WORKERS <= requested_workers <= MAX_WORKERS
    &&& 1 <= max_windows <= 256
    &&& 1 <= local_steps <= 64
    &&& checkpoint_every > 0
}

/// Whether a job request keeps its bounds.
pub fn valid_training_request(
    requested_workers: u16,
    max_windows: u64,
    local_steps: u16,
    checkpoint_every: u64,
) -> (r: bool)
    ensures
        r == request_in_bounds(requested_workers, max_windows, local_steps, checkpoint_every),
{
    let workers = requested_workers as usize;
    MIN_WORKERS <= workers && workers <= MAX_WORKERS && 1 <= max_windows && max_windows <= 256 && 1
        <= local_steps && local_steps <= 64 && checkpoint_every > 0
}

/// A capability that lets a peer host a shard.
pub open spec fn hosts_training(c: CapabilityView) -> bool {
    (c.name == "training.reference"@ || c.name == "training.v3"@) && c.memory_bytes
        >= MIN_WORKER_MEMORY
}

/// A peer that `own` may choose as a worker at time `now`.
pub open spec fn eligible_worker(record: PeerRecordView, own: NodeId, now: u64) -> bool {
    &&& record.node_id != own
    &&& record.expires_at >= now
    &&& exists|i: int|
        0 <= i < record.capabilities.len() && hosts_training(#[trigger] record.capabilities[i])
}

/// The identities of the peers that may be chosen.
pub open spec fn eligible_workers(
    records: Seq<PeerRecordView>,
    own: NodeId,
    now: u64,
) -> Set<NodeId> {
    Set::new(
        |n: NodeId|
            exists|i: int|
                0 <= i < records.len() && (#[trigger] records[i]).node_id == n && eligible_worker(
                    records[i],
                    own,
                    now,
                ),
    )
}

/// The first `requested` eligible peers in byte order.
pub open spec fn chosen_workers(
    records: Seq<PeerRecordView>,
    own: NodeId,
    now: u64,
    requested: int,
) -> Seq<NodeId> {
    let all = ascending(eligible_workers(records, own, now));
    all.take(min_int(requested, all.len() as int))
}

fn is_eligible_worker(record: &PeerRecord, own: NodeId, now: u64) -> (r: bool)
    ensures
        r == eligible_worker(record@, own, now),
{
    if record.node_id == own || record.expires_at < now {
        return false;
    }
    let mut i: usize = 0;
    while i < record.capabilities.len()
        invariant
            0 <= i <= record.capabilities@.len(),
            record.node_id != own,
            record.expires_at >= now,
            forall|j: int| 0 <= j < i ==> !hosts_training(#[trigger] record@.capabilities[j]),
        decreases record.capabilities@.len() - i,
    {
        let capability = &record.capabilities[i];
        assert(record@.capabilities[i as int] == capability@);
        if (text_is(&capability.name, "training.reference") || text_is(
            &capability.name,
            "training.v3",
        )) && capability.memory_bytes >= MIN_WORKER_MEMORY {
            assert(hosts_training(record@.capabilities[i as int]));
            return true;
        }
        i += 1;
    }
    false
}

/// Why no workers could be chosen.
#[derive(Clone, Copy, Debug, PartialEq, Eq, Structural)]
pub enum PlanError {
    /// The request is outside its bounds.
    OutOfBounds,
    /// Only this many live training workers are known.
    TooFewWorkers(usize),
}

/// Choose the workers of a job.
pub fn select_workers(
    records: &Vec<PeerRecord>,
    own: NodeId,
    now: u64,
    requested_workers: u16,
    max_windows: u64,
    local_steps: u16,
    checkpoint_every: u64,
) -> (r: Result<Vec<NodeId>, PlanError>)
    ensures
        ({
            let bounded = request_in_bounds(
                requested_workers,
                max_windows,
                local_steps,
                checkpoint_every,
            );
            let chosen = chosen_workers(views(records@), own, now, requested_workers as int);
            match r {
                Ok(workers) => bounded && chosen.len() >= MIN_WORKERS && workers@ == chosen,
                Err(PlanError::OutOfBounds) => !bounded,
                Err(PlanError::TooFewWorkers(found)) => bounded && chosen.len() < MIN_WORKERS
                    && found == chosen.len(),
            }
        }),
{
    if !valid_training_request(requested_workers, max_windows, local_steps, checkpoint_every) {
        return Err(PlanError::OutOfBounds);
    }
    let mut ids: Vec<NodeId> = Vec::new();
    let mut i: usize = 0;
    assert(ids@.to_set() =~= eligible_workers(views(records@).take(0), own, now));
    while i < records.len()
        invariant
            0 <= i <= records@.len(),
            ids@.to_set() == eligible_workers(views(records@).take(i as int), own, now),
        decreases records@.len() - i,
    {
        let record = &records[i];
        let ghost before = ids@;
        let eligible = is_eligible_worker(record, own, now);
        if eligible {
            ids.push(record.node_id);
        }
        proof {
            let p = views(records@).take(i as int);
            let q = views(records@).take(i as int + 1);
            assert(views(records@)[i as int] == record@);
            before.lemma_push_to_set_commute(record.node_id);
            assert(ids@.to_set() =~= eligible_workers(q, own, now)) by {
                assert forall|n: NodeId| ids@.to_set().contains(n) == eligible_workers(
                    q,
                    own,
                    now,
                ).contains(n) by {
                    if eligible_workers(p, own, now).contains(n) {
                        let k = choose|k: int|
                            0 <= k < p.len() && (#[trigger] p[k]).node_id == n && eligible_worker(
                                p[k],
                                own,
                                now,
                            );
                        assert(q[k] == p[k]);
                    }
                    if eligible_workers(q, own, now).contains(n) {
                        let k = choose|k: int|
                            0 <= k < q.len() && (#[trigger] q[k]).node_id == n && eligible_worker(
                                q[k],
                                own,
                                now,
                            );
                        if k < i {
                            assert(p[k] == q[k]);
                        }
                    }
                    if eligible && n == record.node_id {
                        assert(q[i as int].node_id == n);
                    }
                }
            }
        }
        i += 1;
    }
    assert(views(records@).take(i as int) =~= views(records@));
    let mut workers = sorted_unique(&ids);
    let requested = requested_workers as usize;
    if requested < workers.len() {
        workers.truncate(requested);
    }
    proof {
        let all = ascending(eligible_workers(views(records@), own, now));
        assert(workers@ =~= all.take(min_int(requested as int, all.len() as int)));
    }
    if workers.len() < MIN_WORKERS {
        return Err(PlanError::TooFewWorkers(workers.len()));
    }
    Ok(workers)
}

/// Every second worker, starting with the worker at position `shard`.
pub open spec fn group_members(workers: Seq<NodeId>, shard: int) -> Seq<NodeId> {
    Seq::new(((workers.len() + 1 - shard) / 2) as nat, |i: int| workers[2 * i + shard])
}

/// The group that trains `shard`.
pub open spec fn shard_group(workers: Seq<NodeId>, shard: int) -> TrainingGroupView {
    TrainingGroupView {
        group_id: shard as u16,
        shard_id: shard as u16,
        members: group_members(workers, shard),
        aggregator: workers[shard],
    }
}

/// The groups of a job: one for each of the two shards that has a worker.
pub open spec fn planned_groups(workers: Seq<NodeId>) -> Seq<TrainingGroupView> {
    Seq::new(min_int(workers.len() as int, 2) as nat, |i: int| shard_group(workers, i))
}

fn take_alternate(workers: &Vec<NodeId>, shard: usize) -> (r: Vec<NodeId>)
    requires
        shard <= 1,
        workers@.len() > shard,
    ensures
        r@ == group_members(workers@, shard as int),
{
    let mut out: Vec<NodeId> = Vec::new();
    let mut i: usize = 0;
    while i < workers.len()
        invariant
            0 <= i <= workers@.len(),
            shard <= 1,
            out@ == group_members(workers@.take(i as int), shard as int),
        decreases workers@.len() - i,
    {
        if i % 2 == shard {
            out.push(workers[i]);
        }
        assert(out@ =~= group_members(workers@.take(i as int + 1), shard as int));
        i += 1;
    }
    assert(workers@.take(i as int) =~= workers@);
    out
}

pub fn make_groups(workers: &Vec<NodeId>) -> (r: Vec<TrainingGroup>)
    ensures
        views(r@) == planned_groups(workers@),
{
    let mut out: Vec<TrainingGroup> = Vec::new();
    let mut shard: usize = 0;
    assert(views(out@) =~= planned_groups(workers@).take(0));
    while shard < 2 && shard < workers.len()
        invariant
            0 <= shard <= 2,
            shard <= workers@.len(),
            views(out@) == planned_groups(workers@).take(shard as int),
        decreases 2 - shard,
    {
        let group = TrainingGroup {
            group_id: shard as u16,
            shard_id: shard as u16,
            members: take_alternate(workers, shard),
            aggregator: workers[shard],
        };
        proof {
            lemma_views_push(out@, group);
            assert(group@ == shard_group(workers@, shard as int));
            assert(planned_groups(workers@).take(shard as int + 1) =~= planned_groups(
                workers@,
            ).take(shard as int).push(group@));
        }
        out.push(group);
        shard += 1;
    }
    assert(planned_groups(workers@).take(shard as int) =~= planned_groups(workers@));
    out
}

/// Every worker belongs to exactly one group, and every aggregator to its own.
pub proof fn law_groups_partition_workers(workers: Seq<NodeId>)
    requires
        workers.no_duplicates(),
        workers.len() >= 2,
    ensures
        planned_groups(workers).len() == 2,
        forall|n: NodeId| #[trigger]
            workers.contains(n) <==> (planned_groups(workers)[0].members.contains(n)
                || planned_groups(workers)[1].members.contains(n)),
        forall|n: NodeId|
            !(#[trigger] planned_groups(workers)[0].members.contains(n)
                && planned_groups(workers)[1].members.contains(n)),
        forall|g: int|
            0 <= g < 2 ==> (#[trigger] planned_groups(workers)[g]).members.contains(
                planned_groups(workers)[g].aggregator,
            ) && planned_groups(workers)[g].members.no_duplicates(),
{
    let a = group_members(workers, 0);
    let b = group_members(workers, 1);
    assert forall|n: NodeId| #[trigger] workers.contains(n) implies a.contains(n) || b.contains(
        n,
    ) by {
        let k = choose|k: int| 0 <= k < workers.len() && workers[k] == n;
        if k % 2 == 0 {
            assert(a[k / 2] == n);
        } else {
            assert(b[k / 2] == n);
        }
    }
    assert forall|n: NodeId| a.contains(n) implies #[trigger] workers.contains(n) by {
        let k = choose|k: int| 0 <= k < a.len() && a[k] == n;
        assert(workers[2 * k] == n);
    }
    assert forall|n: NodeId| b.contains(n) implies #[trigger] workers.contains(n) by {
        let k = choose|k: int| 0 <= k < b.len() && b[k] == n;
        assert(workers[2 * k + 1] == n);
    }
    assert forall|n: NodeId| !(#[trigger] a.contains(n) && b.contains(n)) by {
        if a.contains(n) && b.contains(n) {
            let i = choose|i: int| 0 <= i < a.len() && a[i] == n;
            let j = choose|j: int| 0 <= j < b.len() && b[j] == n;
            assert(workers[2 * i] == workers[2 * j + 1]);
        }
    }
    assert(a[0] == workers[0]);
    assert(b[0] == workers[1]);
}

/// The shards of a job: one for each group, with the initial state hashes.
pub open spec fn planned_shards(
    groups: Seq<TrainingGroupView>,
    hashes: Seq<ArtifactId>,
) -> Seq<TrainingShardAssignmentView> {
    Seq::new(
        groups.len(),
        |i: int|
            TrainingShardAssignmentView {
                shard_id: groups[i].shard_id,
                group_id: groups[i].group_id,
                owners: groups[i].members,
                replicas: groups[i].members,
                generation: 0,
                state_hash: hashes[i],
            },
    )
}

/// The shards of a job. `hashes` are the hashes of the untrained shard states,
/// in the order of the groups.
pub fn make_shards(groups: &Vec<TrainingGroup>, hashes: &Vec<ArtifactId>) -> (r: Vec<
    TrainingShardAssignment,
>)
    requires
        groups@.len() == hashes@.len(),
    ensures
        views(r@) == planned_shards(views(groups@), hashes@),
{
    let mut out: Vec<TrainingShardAssignment> = Vec::new();
    let mut i: usize = 0;
    let ghost planned = planned_shards(views(groups@), hashes@);
    while i < groups.len()
        invariant
            0 <= i <= groups@.len(),
            groups@.len() == hashes@.len(),
            planned == planned_shards(views(groups@), hashes@),
            views(out@) == planned.take(i as int),
        decreases groups@.len() - i,
    {
        let group = &groups[i];
        let shard = TrainingShardAssignment {
            shard_id: group.shard_id,
            group_id: group.group_id,
            owners: group.members.clone(),
            replicas: group.members.clone(),
            generation: 0,
            state_hash: hashes[i],
        };
        proof {
            lemma_views_push(out@, shard);
            assert(views(groups@)[i as int] == group@);
            assert(planned.take(i as int + 1) =~= planned.take(i as int).push(shard@));
        }
        out.push(shard);
        i += 1;
    }
    assert(planned.take(i as int) =~= planned);
    out
}

/// What a job request fixes for every worker.
#[derive(Clone, Copy, Debug, PartialEq, Eq, Structural)]
pub struct JobTerms {
    pub job_id: JobId,
    pub coordinator: NodeId,
    pub branch: ArtifactId,
    pub plan_hash: ArtifactId,
    pub max_windows: u64,
    pub local_steps: u16,
    pub checkpoint_every: u64,
}

/// The job description of the worker at position `index`.
pub open spec fn worker_start(
    terms: JobTerms,
    workers: Seq<NodeId>,
    groups: Seq<TrainingGroupView>,
    shards: Seq<TrainingShardAssignmentView>,
    index: int,
) -> TrainingStartView {
    let assignment = shards[index % (shards.len() as int)];
    TrainingStartView {
        job_id: terms.job_id,
        coordinator: terms.coordinator,
        term: 1,
        membership_epoch: 1,
        branch: terms.branch,
        plan_hash: terms.plan_hash,
        max_windows: terms.max_windows,
        local_steps: terms.local_steps,
        max_staleness: terms.local_steps,
        checkpoint_every: terms.checkpoint_every,
        execution: TrainingExecution::AutonomousLocalSgd,
        model_state_bytes: MODEL_STATE_BYTES,
        shard_state_bytes: SHARD_STATE_BYTES,
        participants: workers,
        groups,
        shards,
        assignment,
        initial_value: 0,
        initial_optimizer: 0,
        samples: shard_samples(assignment.shard_id),
    }
}

/// The job description of every worker, in the order of the workers.
pub fn build_worker_starts(
    terms: JobTerms,
    workers: &Vec<NodeId>,
    groups: &Vec<TrainingGroup>,
    shards: &Vec<TrainingShardAssignment>,
) -> (r: Vec<TrainingStart>)
    requires
        shards@.len() > 0,
    ensures
        r@.len() == workers@.len(),
        forall|i: int|
            0 <= i < r@.len() ==> (#[trigger] r@[i])@ == worker_start(
                terms,
                workers@,
                views(groups@),
                views(shards@),
                i,
            ),
{
    let mut out: Vec<TrainingStart> = Vec::new();
    let mut i: usize = 0;
    while i < workers.len()
        invariant
            0 <= i <= workers@.len(),
            shards@.len() > 0,
            out@.len() == i,
            forall|j: int|
                0 <= j < i ==> (#[trigger] out@[j])@ == worker_start(
                    terms,
                    workers@,
                    views(groups@),
                    views(shards@),
                    j,
                ),
        decreases workers@.len() - i,
    {
        let assignment = shards[i % shards.len()].duplicate();
        let samples = samples_for_shard(assignment.shard_id);
        assert(views(shards@)[(i % shards.len()) as int] == assignment@);
        let start = TrainingStart {
            job_id: terms.job_id,
            coordinator: terms.coordinator,
            term: 1,
            membership_epoch: 1,
            branch: terms.branch,
            plan_hash: terms.plan_hash,
            max_windows: terms.max_windows,
            local_steps: terms.local_steps,
            max_staleness: terms.local_steps,
            checkpoint_every: terms.checkpoint_every,
            execution: TrainingExecution::AutonomousLocalSgd,
            model_state_bytes: MODEL_STATE_BYTES,
            shard_state_bytes: SHARD_STATE_BYTES,
            participants: workers.clone(),
            groups: duplicate_all(groups),
            shards: duplicate_all(shards),
            assignment,
            initial_value: 0,
            initial_optimizer: 0,
            samples,
        };
        assert(start@ =~= worker_start(
            terms,
            workers@,
            views(groups@),
            views(shards@),
            i as int,
        ));
        out.push(start);
        i += 1;
    }
    out
}

/// No aggregator gathers the updates of every worker, and no worker is given more
/// than one shard: each group leaves out workers, and each start names the one
/// shard of its worker.
pub proof fn law_no_peer_sees_everything(
    terms: JobTerms,
    workers: Seq<NodeId>,
    shards: Seq<TrainingShardAssignmentView>,
    g: int,
    i: int,
)
    requires
        workers.len() >= 2,
        shards.len() > 0,
        0 <= g < planned_groups(workers).len(),
        0 <= i < workers.len(),
    ensures
        planned_groups(workers)[g].members.len() < workers.len(),
        shards.contains(
            worker_start(terms, workers, planned_groups(workers), shards, i).assignment,
        ),
{
    let at = i % (shards.len() as int);
    assert(worker_start(terms, workers, planned_groups(workers), shards, i).assignment
        == shards[at]);
}

/// A job asks for four to sixteen workers, one to 256 windows, one to 64 local steps and
/// some interval between checkpoints; nothing else is accepted.
pub proof fn law_job_bounds(
    requested_workers: u16,
    max_windows: u64,
    local_steps: u16,
    checkpoint_every: u64,
)
    ensures
        request_in_bounds(requested_workers, max_windows, local_steps, checkpoint_every)
            <==> requested_workers >= 4 && requested_workers <= 16 && max_windows >= 1
            && max_windows <= 256 && local_steps >= 1 && local_steps <= 64 && checkpoint_every >= 1,
{
}

/// A worker is another peer with a live record that offers training with at least 64 MiB.
pub proof fn law_workers_are_able(record: PeerRecordView, own: NodeId, now: u64, i: int)
    ensures
        eligible_worker(record, own, now) ==> record.node_id != own && record.expires_at >= now
            && exists|k: int|
            0 <= k < record.capabilities.len() && (#[trigger] record.capabilities[k]).memory_bytes
                >= 67_108_864 && (record.capabilities[k].name == "training.reference"@
                || record.capabilities[k].name == "training.v3"@),
        record.node_id != own && record.expires_at >= now && 0 <= i < record.capabilities.len()
            && record.capabilities[i].memory_bytes >= 67_108_864 && (record.capabilities[i].name
            == "training.reference"@ || record.capabilities[i].name == "training.v3"@)
            ==> eligible_worker(record, own, now),
{
    if eligible_worker(record, own, now) {
        let k = choose|k: int|
            0 <= k < record.capabilities.len() && hosts_training(
                #[trigger] record.capabilities[k],
            );
        assert(record.capabilities[k].memory_bytes >= 67_108_864);
    }
    if 0 <= i < record.capabilities.len() && record.capabilities[i].memory_bytes >= 67_108_864 && (
    record.capabilities[i].name == "training.reference"@ || record.capabilities[i].name
        == "training.v3"@) {
        assert(hosts_training(record.capabilities[i]));
    }
}

/// The chosen workers are eligible and distinct, in byte order; as many are chosen as
/// were asked for or as there are, and none that is passed over comes before a chosen one.
pub proof fn law_first_workers_are_chosen(
    records: Seq<PeerRecordView>,
    own: NodeId,
    now: u64,
    requested: int,
    i: int,
    other: NodeId,
)
    requires
        requested >= 0,
        eligible_workers(records, own, now).finite(),
    ensures
        ({
            let eligible = eligible_workers(records, own, now);
            let chosen = chosen_workers(records, own, now, requested);
            &&& crate::base::members::strictly_sorted(chosen)
            &&& chosen.len() <= requested
            &&& eligible.len() <= requested ==> chosen.len() == eligible.len()
            &&& eligible.len() >= requested ==> chosen.len() == requested
            &&& 0 <= i < chosen.len() ==> eligible.contains(chosen[i])
            &&& eligible.contains(other) && !chosen.contains(other) && 0 <= i < chosen.len()
                ==> crate::base::ids::id_le(chosen[i], other)
        }),
{
    let eligible = eligible_workers(records, own, now);
    let all = crate::base::members::ascending(eligible);
    let chosen = chosen_workers(records, own, now, requested);
    crate::base::members::lemma_ascending_exists(eligible);
    crate::base::members::lemma_strictly_sorted_distinct(all);
    all.unique_seq_to_set();
    if 0 <= i < chosen.len() {
        assert(all.to_set().contains(all[i]));
        if eligible.contains(other) && !chosen.contains(other) {
            assert(all.to_set().contains(other));
            let k = all.index_of(other);
            if k < chosen.len() {
                assert(chosen[k] == other);
            }
            assert(i < k);
        }
    }
}

/// Workers go to the two groups in turn, each group is led by its first worker, and has
/// the number of its shard.
pub proof fn law_workers_take_turns(workers: Seq<NodeId>, i: int)
    requires
        workers.len() >= 2,
        0 <= i < workers.len(),
    ensures
        ({
            let groups = planned_groups(workers);
            let g = groups[i % 2];
            &&& groups.len() == 2
            &&& groups[0].group_id == 0 && groups[0].shard_id == 0
            &&& groups[1].group_id == 1 && groups[1].shard_id == 1
            &&& g.members[i / 2] == workers[i]
            &&& groups[0].aggregator == workers[0] && groups[0].members[0] == workers[0]
            &&& groups[1].aggregator == workers[1] && groups[1].members[0] == workers[1]
            &&& groups[0].members.len() + groups[1].members.len() == workers.len()
        }),
{
}

/// A shard begins untrained, held in full by every member of its group.
pub proof fn law_shards_begin_with_their_group(
    groups: Seq<TrainingGroupView>,
    hashes: Seq<ArtifactId>,
    i: int,
)
    requires
        0 <= i < groups.len(),
    ensures
        ({
            let shards = planned_shards(groups, hashes);
            &&& shards.len() == groups.len()
            &&& shards[i].shard_id == groups[i].shard_id
            &&& shards[i].group_id == groups[i].group_id
            &&& shards[i].owners == groups[i].members
            &&& shards[i].replicas == groups[i].members
            &&& shards[i].generation == 0
            &&& shards[i].state_hash == hashes[i]
        }),
{
}

/// Every worker is told the same job: all but the assignment and its samples. The worker
/// at an even position gets the first of two shards, the one at an odd position the
/// second.
pub proof fn law_workers_get_the_same_job(
    terms: JobTerms,
    workers: Seq<NodeId>,
    groups: Seq<TrainingGroupView>,
    shards: Seq<TrainingShardAssignmentView>,
    i: int,
    j: int,
)
    requires
        shards.len() == 2,
        0 <= i < workers.len(),
        0 <= j < workers.len(),
    ensures
        ({
            let a = worker_start(terms, workers, groups, shards, i);
            let b = worker_start(terms, workers, groups, shards, j);
            &&& a.job_id == terms.job_id
            &&& a.coordinator == terms.coordinator
            &&& a.branch == terms.branch
            &&& a.plan_hash == terms.plan_hash
            &&& a.max_windows == terms.max_windows
            &&& a.local_steps == terms.local_steps
            &&& a.max_staleness == terms.local_steps
            &&& a.checkpoint_every == terms.checkpoint_every
            &&& a.term == 1 && a.membership_epoch == 1
            &&& a.execution is AutonomousLocalSgd
            &&& a.initial_value == 0 && a.initial_optimizer == 0
            &&& a.model_state_bytes == 2_048 && a.shard_state_bytes == 1_024
            &&& a.participants == workers
            &&& a.groups == groups
            &&& a.shards == shards
            &&& i % 2 == 0 ==> a.assignment == shards[0]
            &&& i % 2 == 1 ==> a.assignment == shards[1]
            &&& a.samples.len() == 8
            &&& a.samples[7].target == (if a.assignment.shard_id == 0 {
                16int
            } else {
                24
            })
            &&& b == (TrainingStartView { assignment: b.assignment, samples: b.samples, ..a })
        }),
{
    crate::reference::sgd::law_samples_of_a_shard(
        worker_start(terms, workers, groups, shards, i).assignment.shard_id,
        7,
    );
}

/// A peer may be chosen exactly when one of its records makes it eligible.
pub proof fn law_eligible_peers_have_a_record(
    records: Seq<PeerRecordView>,
    own: NodeId,
    now: u64,
    i: int,
    peer: NodeId,
)
    ensures
        0 <= i < records.len() && eligible_worker(records[i], own, now) ==> eligible_workers(
            records,
            own,
            now,
        ).contains(records[i].node_id),
        eligible_workers(records, own, now).contains(peer) ==> peer != own && exists|k: int|
            0 <= k < records.len() && (#[trigger] records[k]).node_id == peer
                && records[k].expires_at >= now,
{
    if eligible_workers(records, own, now).contains(peer) {
        let k = choose|k: int|
            0 <= k < records.len() && (#[trigger] records[k]).node_id == peer && eligible_worker(
                records[k],
                own,
                now,
            );
        assert(records[k].expires_at >= now);
    }
}

} // verus!
