//! The state of one job on one node.

use crate::base::arith::sat_u64;
use crate::base::ids::{ArtifactId, NodeId};
use crate::base::members::NodeSet;
use crate::base::ordered::{ordered_values, OrdMap};
use crate::base::record::Duplicate;
use crate::base::search::{find, lemma_find_at, views};
use crate::reference::sgd::{
    lemma_initial_shard_loss, loss_fits, mean_loss, samples_for_shard, samples_loss, shard_samples,
};
use crate::reference::types::{
    Role, TrainingGroup, TrainingGroupView, TrainingSample, TrainingShardAssignment,
    TrainingShardAssignmentView, TrainingShardSummary, TrainingShardSummaryView, TrainingStart,
    TrainingStartView, TrainingState, TrainingStateView,
};
use vstd::prelude::*;

verus! {

/// The providers of each artifact that a checkpoint names.
#[derive(Debug)]
pub struct ProviderTable {
    entries: Vec<(ArtifactId, Vec<NodeId>)>,
}

spec fn artifact_listed(s: Seq<(ArtifactId, Vec<NodeId>)>, a: ArtifactId) -> bool {
    exists|i: int| 0 <= i < s.len() && (#[trigger] s[i]).0 == a
}

spec fn artifact_at(s: Seq<(ArtifactId, Vec<NodeId>)>, a: ArtifactId) -> int {
    choose|i: int| 0 <= i < s.len() && (#[trigger] s[i]).0 == a
}

impl View for ProviderTable {
    type V = Map<ArtifactId, Seq<NodeId>>;

    closed spec fn view(&self) -> Map<ArtifactId, Seq<NodeId>> {
        Map::new(
            |a: ArtifactId| artifact_listed(self.entries@, a),
            |a: ArtifactId| self.entries@[artifact_at(self.entries@, a)].1@,
        )
    }
}

impl ProviderTable {
    #[verifier::type_invariant]
    spec fn inv(self) -> bool {
        forall|i: int, j: int|
            0 <= i < j < self.entries@.len() ==> (#[trigger] self.entries@[i]).0 != (
            #[trigger] self.entries@[j]).0
    }

    pub fn new() -> (r: ProviderTable)
        ensures
            r@ == Map::<ArtifactId, Seq<NodeId>>::empty(),
    {
        let r = ProviderTable { entries: Vec::new() };
        assert(r@ =~= Map::<ArtifactId, Seq<NodeId>>::empty());
        r
    }

    proof fn lemma_at(&self, i: int)
        requires
            self.inv(),
            0 <= i < self.entries@.len(),
        ensures
            self@.contains_key(self.entries@[i].0),
            self@[self.entries@[i].0] == self.entries@[i].1@,
    {
        let a = self.entries@[i].0;
        assert(artifact_listed(self.entries@, a));
        assert(artifact_at(self.entries@, a) == i);
    }

    /// The providers of `artifact`.
    pub fn get(&self, artifact: ArtifactId) -> (r: Option<&Vec<NodeId>>)
        ensures
            match r {
                Some(v) => self@.contains_key(artifact) && v@ == self@[artifact],
                None => !self@.contains_key(artifact),
            },
    {
        proof {
            use_type_invariant(self);
        }
        let mut i: usize = 0;
        while i < self.entries.len()
            invariant
                self.inv(),
                0 <= i <= self.entries@.len(),
                forall|j: int| 0 <= j < i ==> (#[trigger] self.entries@[j]).0 != artifact,
            decreases self.entries@.len() - i,
        {
            if self.entries[i].0 == artifact {
                proof {
                    self.lemma_at(i as int);
                }
                return Some(&self.entries[i].1);
            }
            i += 1;
        }
        None
    }

    /// The artifacts that have providers, each once.
    pub fn artifacts(&self) -> (r: Vec<ArtifactId>)
        ensures
            r@.no_duplicates(),
            forall|a: ArtifactId| self@.contains_key(a) <==> #[trigger] r@.contains(a),
    {
        proof {
            use_type_invariant(self);
        }
        let mut r: Vec<ArtifactId> = Vec::new();
        let mut i: usize = 0;
        while i < self.entries.len()
            invariant
                0 <= i <= self.entries@.len(),
                r@.len() == i,
                forall|j: int| 0 <= j < i ==> r@[j] == (#[trigger] self.entries@[j]).0,
            decreases self.entries@.len() - i,
        {
            r.push(self.entries[i].0);
            i += 1;
        }
        proof {
            assert forall|a: ArtifactId| self@.contains_key(a) <==> #[trigger] r@.contains(a) by {
                if self@.contains_key(a) {
                    let j = artifact_at(self.entries@, a);
                    assert(self.entries@[j].0 == a);
                    assert(r@[j] == a);
                }
                if r@.contains(a) {
                    let j = choose|j: int| 0 <= j < r@.len() && r@[j] == a;
                    assert(self.entries@[j].0 == a);
                }
            }
            assert forall|j: int, k: int| 0 <= j < k < r@.len() implies r@[j] != r@[k] by {
                assert(self.entries@[j].0 != self.entries@[k].0);
            }
        }
        r
    }

    /// Set the providers of `artifact`.
    pub fn insert(&mut self, artifact: ArtifactId, providers: Vec<NodeId>)
        ensures
            final(self)@ == old(self)@.insert(artifact, providers@),
    {
        proof {
            use_type_invariant(&*self);
        }
        let ghost before = *self;
        let mut entries: Vec<(ArtifactId, Vec<NodeId>)> = Vec::new();
        std::mem::swap(&mut entries, &mut self.entries);
        let mut at: usize = 0;
        while at < entries.len() && entries[at].0 != artifact
            invariant
                entries@ == before.entries@,
                0 <= at <= entries@.len(),
                forall|j: int| 0 <= j < at ==> (#[trigger] entries@[j]).0 != artifact,
            decreases entries@.len() - at,
        {
            at += 1;
        }
        let ghost wanted = providers@;
        if at < entries.len() {
            entries.set(at, (artifact, providers));
        } else {
            entries.push((artifact, providers));
        }
        self.entries = entries;
        proof {
            let o = before.entries@;
            let n = self.entries@;
            assert(n[at as int].0 == artifact);
            self.lemma_at(at as int);
            assert forall|a: ArtifactId| #[trigger] self@.contains_key(a) == before@.insert(
                artifact,
                wanted,
            ).contains_key(a) by {
                if artifact_listed(n, a) && a != artifact {
                    let i = artifact_at(n, a);
                    assert(o[i].0 == a);
                }
                if artifact_listed(o, a) {
                    let i = artifact_at(o, a);
                    assert(n[i].0 == a);
                }
            }
            assert forall|a: ArtifactId| #[trigger] self@.contains_key(a) implies self@[a]
                == before@.insert(artifact, wanted)[a] by {
                if a != artifact {
                    let i = artifact_at(n, a);
                    self.lemma_at(i);
                    assert(o[i] == n[i]);
                    before.lemma_at(i);
                }
            }
            assert(self@ =~= before@.insert(artifact, wanted));
        }
    }
}

/// The in-memory state of one job on one node.
#[derive(Debug)]
pub struct Context {
    pub start: TrainingStart,
    pub role: Role,
    pub coordinator: NodeId,
    pub term: u64,
    pub window: u64,
    pub checkpoint_generation: u64,
    pub checkpoint: Option<ArtifactId>,
    pub final_checkpoint_committed: bool,
    pub assignment: TrainingShardAssignment,
    pub value: i64,
    pub optimizer: i64,
    pub generation: u64,
    pub samples: Vec<TrainingSample>,
    pub branch: ArtifactId,
    pub failed: NodeSet,
    pub voted_term: u64,
    pub voted_candidate: Option<NodeId>,
    pub shard_summaries: OrdMap<TrainingShardSummary>,
    pub checkpoints: Vec<ArtifactId>,
    pub checkpoint_providers: ProviderTable,
    pub accepted_updates: u64,
    pub rejected_updates: u64,
    pub stragglers: u64,
    pub group_progress: OrdMap<u64>,
    pub group_completion_order: Vec<u16>,
    pub non_barrier_progress_observed: bool,
    pub shard_values: OrdMap<(i64, i64)>,
    pub initial_loss: i64,
}

/// The contents of a [`Context`].
#[verifier::ext_equal]
pub struct ContextView {
    pub start: TrainingStartView,
    pub role: Role,
    pub coordinator: NodeId,
    pub term: u64,
    pub window: u64,
    pub checkpoint_generation: u64,
    pub checkpoint: Option<ArtifactId>,
    pub final_checkpoint_committed: bool,
    pub assignment: TrainingShardAssignmentView,
    pub value: i64,
    pub optimizer: i64,
    pub generation: u64,
    pub samples: Seq<TrainingSample>,
    pub branch: ArtifactId,
    pub failed: Set<NodeId>,
    pub voted_term: u64,
    pub voted_candidate: Option<NodeId>,
    pub shard_summaries: Map<u16, TrainingShardSummaryView>,
    pub checkpoints: Seq<ArtifactId>,
    pub checkpoint_providers: Map<ArtifactId, Seq<NodeId>>,
    pub accepted_updates: u64,
    pub rejected_updates: u64,
    pub stragglers: u64,
    pub group_progress: Map<u16, u64>,
    pub group_completion_order: Seq<u16>,
    pub non_barrier_progress_observed: bool,
    pub shard_values: Map<u16, (i64, i64)>,
    pub initial_loss: i64,
}

impl View for Context {
    type V = ContextView;

    open spec fn view(&self) -> ContextView {
        ContextView {
            start: self.start@,
            role: self.role,
            coordinator: self.coordinator,
            term: self.term,
            window: self.window,
            checkpoint_generation: self.checkpoint_generation,
            checkpoint: self.checkpoint,
            final_checkpoint_committed: self.final_checkpoint_committed,
            assignment: self.assignment@,
            value: self.value,
            optimizer: self.optimizer,
            generation: self.generation,
            samples: self.samples@,
            branch: self.branch,
            failed: self.failed@,
            voted_term: self.voted_term,
            voted_candidate: self.voted_candidate,
            shard_summaries: self.shard_summaries@,
            checkpoints: self.checkpoints@,
            checkpoint_providers: self.checkpoint_providers@,
            accepted_updates: self.accepted_updates,
            rejected_updates: self.rejected_updates,
            stragglers: self.stragglers,
            group_progress: self.group_progress@,
            group_completion_order: self.group_completion_order@,
            non_barrier_progress_observed: self.non_barrier_progress_observed,
            shard_values: self.shard_values@,
            initial_loss: self.initial_loss,
        }
    }
}

/// The generation of the checkpoint that covers the last window.
pub open spec fn final_generation(start: TrainingStartView) -> int {
    sat_u64(start.max_windows + (start.checkpoint_every - 1)) / start.checkpoint_every as int
}

pub fn final_checkpoint_generation(start: &TrainingStart) -> (r: u64)
    requires
        start.checkpoint_every > 0,
    ensures
        r == final_generation(start@),
{
    start.max_windows.saturating_add(start.checkpoint_every - 1) / start.checkpoint_every
}

/// The summaries of the shards numbered `shard_id`.
pub open spec fn of_shard(shard_id: u16) -> spec_fn(TrainingShardSummaryView) -> bool {
    |s: TrainingShardSummaryView| s.shard_id == shard_id
}

/// The state reaches the last window, its checkpoint and every shard with it.
pub open spec fn covers_final_model(start: TrainingStartView, state: TrainingStateView) -> bool {
    &&& state.window >= start.max_windows
    &&& state.checkpoint_generation >= final_generation(start)
    &&& forall|i: int|
        0 <= i < start.shards.len() ==> {
            let found = find(state.shards, of_shard((#[trigger] start.shards[i]).shard_id));
            found is Some && found->0.generation >= start.max_windows
        }
}

fn find_summary(shards: &Vec<TrainingShardSummary>, shard_id: u16) -> (r: Option<
    &TrainingShardSummary,
>)
    ensures
        match r {
            Some(s) => find(views(shards@), of_shard(shard_id)) == Some(s@),
            None => find(views(shards@), of_shard(shard_id)) is None,
        },
{
    let mut i: usize = 0;
    while i < shards.len()
        invariant
            0 <= i <= shards@.len(),
            forall|j: int| 0 <= j < i ==> !of_shard(shard_id)(#[trigger] views(shards@)[j]),
        decreases shards@.len() - i,
    {
        assert(views(shards@)[i as int] == shards@[i as int]@);
        if shards[i].shard_id == shard_id {
            proof {
                lemma_find_at(views(shards@), of_shard(shard_id), i as int);
            }
            return Some(&shards[i]);
        }
        i += 1;
    }
    proof {
        lemma_find_at(views(shards@), of_shard(shard_id), i as int);
    }
    None
}

pub fn state_covers_final_model(start: &TrainingStart, state: &TrainingState) -> (r: bool)
    requires
        start.checkpoint_every > 0,
    ensures
        r == covers_final_model(start@, state@),
{
    if state.window < start.max_windows || state.checkpoint_generation
        < final_checkpoint_generation(start) {
        return false;
    }
    let mut i: usize = 0;
    while i < start.shards.len()
        invariant
            0 <= i <= start.shards@.len(),
            forall|j: int|
                0 <= j < i ==> {
                    let found = find(state@.shards, of_shard((#[trigger] start@.shards[j]).shard_id));
                    found is Some && found->0.generation >= start.max_windows
                },
        decreases start.shards@.len() - i,
    {
        assert(start@.shards[i as int] == start.shards@[i as int]@);
        match find_summary(&state.shards, start.shards[i].shard_id) {
            Some(summary) => {
                if summary.generation < start.max_windows {
                    return false;
                }
            },
            None => {
                return false;
            },
        }
        i += 1;
    }
    true
}

/// Every shard of the job has reached the last window.
pub open spec fn all_shards_final(c: ContextView) -> bool {
    forall|i: int|
        0 <= i < c.start.shards.len() ==> {
            let id = (#[trigger] c.start.shards[i]).shard_id;
            c.shard_summaries.contains_key(id) && c.shard_summaries[id].generation
                >= c.start.max_windows
        }
}

/// The job has committed the checkpoint of its last window.
pub open spec fn context_final(c: ContextView) -> bool {
    &&& c.final_checkpoint_committed
    &&& c.window >= c.start.max_windows
    &&& c.checkpoint_generation >= final_generation(c.start)
    &&& all_shards_final(c)
}

/// Whether every shard of the job has reached the last window.
pub fn all_shards_reached_final_generation(context: &Context) -> (r: bool)
    ensures
        r == all_shards_final(context@),
{
    let mut i: usize = 0;
    while i < context.start.shards.len()
        invariant
            0 <= i <= context.start.shards@.len(),
            forall|j: int|
                0 <= j < i ==> {
                    let id = (#[trigger] context@.start.shards[j]).shard_id;
                    context@.shard_summaries.contains_key(id)
                        && context@.shard_summaries[id].generation >= context@.start.max_windows
                },
        decreases context.start.shards@.len() - i,
    {
        assert(context@.start.shards[i as int] == context.start.shards@[i as int]@);
        match context.shard_summaries.get(context.start.shards[i].shard_id) {
            Some(summary) => {
                if summary.generation < context.start.max_windows {
                    return false;
                }
            },
            None => {
                return false;
            },
        }
        i += 1;
    }
    true
}

pub fn context_covers_final_model(context: &Context) -> (r: bool)
    requires
        context.start.checkpoint_every > 0,
    ensures
        r == context_final(context@),
{
    context.final_checkpoint_committed && context.window >= context.start.max_windows
        && context.checkpoint_generation >= final_checkpoint_generation(&context.start)
        && all_shards_reached_final_generation(context)
}

/// The groups numbered `group_id`.
pub open spec fn of_group(group_id: u16) -> spec_fn(TrainingGroupView) -> bool {
    |g: TrainingGroupView| g.group_id == group_id
}

pub fn group_for(start: &TrainingStart, group_id: u16) -> (r: Option<&TrainingGroup>)
    ensures
        match r {
            Some(g) => find(start@.groups, of_group(group_id)) == Some(g@),
            None => find(start@.groups, of_group(group_id)) is None,
        },
{
    let mut i: usize = 0;
    while i < start.groups.len()
        invariant
            0 <= i <= start.groups@.len(),
            forall|j: int| 0 <= j < i ==> !of_group(group_id)(#[trigger] start@.groups[j]),
        decreases start.groups@.len() - i,
    {
        assert(start@.groups[i as int] == start.groups@[i as int]@);
        if start.groups[i].group_id == group_id {
            proof {
                lemma_find_at(start@.groups, of_group(group_id), i as int);
            }
            return Some(&start.groups[i]);
        }
        i += 1;
    }
    proof {
        lemma_find_at(start@.groups, of_group(group_id), i as int);
    }
    None
}

/// The summary of a shard as the plan assigns it.
pub open spec fn assigned_summary(shard: TrainingShardAssignmentView) -> TrainingShardSummaryView {
    TrainingShardSummaryView {
        shard_id: shard.shard_id,
        generation: shard.generation,
        state_hash: shard.state_hash,
        providers: shard.replicas,
    }
}

/// `m` with every summary of `s` put in at its shard, the last one winning.
pub open spec fn with_summaries(
    m: Map<u16, TrainingShardSummaryView>,
    s: Seq<TrainingShardSummaryView>,
) -> Map<u16, TrainingShardSummaryView>
    decreases s.len(),
{
    if s.len() == 0 {
        m
    } else {
        with_summaries(m, s.drop_last()).insert(s.last().shard_id, s.last())
    }
}

/// `m` with every summary of `s` put in that is newer than the one before it.
pub open spec fn with_newer(
    m: Map<u16, TrainingShardSummaryView>,
    s: Seq<TrainingShardSummaryView>,
) -> Map<u16, TrainingShardSummaryView>
    decreases s.len(),
{
    if s.len() == 0 {
        m
    } else {
        let before = with_newer(m, s.drop_last());
        if is_newer(before, s.last()) {
            before.insert(s.last().shard_id, s.last())
        } else {
            before
        }
    }
}

/// `s` is a shard that `m` lacks or holds at an older generation.
pub open spec fn is_newer(
    m: Map<u16, TrainingShardSummaryView>,
    s: TrainingShardSummaryView,
) -> bool {
    !m.contains_key(s.shard_id) || s.generation > m[s.shard_id].generation
}

/// Taking newer summaries loses no shard and moves none backwards.
pub proof fn law_newer_summaries_advance(
    m: Map<u16, TrainingShardSummaryView>,
    s: Seq<TrainingShardSummaryView>,
)
    ensures
        forall|k: u16| #[trigger]
            m.contains_key(k) ==> with_newer(m, s).contains_key(k) && with_newer(m, s)[k].generation
                >= m[k].generation,
        forall|i: int|
            0 <= i < s.len() ==> with_newer(m, s).contains_key((#[trigger] s[i]).shard_id)
                && with_newer(m, s)[s[i].shard_id].generation >= s[i].generation,
    decreases s.len(),
{
    if s.len() > 0 {
        law_newer_summaries_advance(m, s.drop_last());
        assert forall|i: int| 0 <= i < s.len() implies with_newer(m, s).contains_key(
            (#[trigger] s[i]).shard_id,
        ) && with_newer(m, s)[s[i].shard_id].generation >= s[i].generation by {
            if i < s.len() - 1 {
                assert(s.drop_last()[i] == s[i]);
            }
        }
    }
}

/// Put every summary into the table, the last one of a shard winning.
pub fn insert_summaries(
    table: &mut OrdMap<TrainingShardSummary>,
    summaries: &Vec<TrainingShardSummary>,
)
    ensures
        final(table)@ == with_summaries(old(table)@, views(summaries@)),
{
    let ghost before = table@;
    let ghost s = views(summaries@);
    let mut i: usize = 0;
    while i < summaries.len()
        invariant
            0 <= i <= summaries@.len(),
            s == views(summaries@),
            table@ == with_summaries(before, s.take(i as int)),
        decreases summaries@.len() - i,
    {
        proof {
            assert(s.take(i as int + 1).drop_last() =~= s.take(i as int));
            assert(s.take(i as int + 1).last() == summaries@[i as int]@);
        }
        table.insert(summaries[i].shard_id, summaries[i].duplicate());
        i += 1;
    }
    assert(s.take(i as int) =~= s);
}

/// Put every summary into the table that is newer than the one there.
pub fn merge_newer(
    table: &mut OrdMap<TrainingShardSummary>,
    summaries: &Vec<TrainingShardSummary>,
)
    ensures
        final(table)@ == with_newer(old(table)@, views(summaries@)),
{
    let ghost before = table@;
    let ghost s = views(summaries@);
    let mut i: usize = 0;
    while i < summaries.len()
        invariant
            0 <= i <= summaries@.len(),
            s == views(summaries@),
            table@ == with_newer(before, s.take(i as int)),
        decreases summaries@.len() - i,
    {
        proof {
            assert(s.take(i as int + 1).drop_last() =~= s.take(i as int));
            assert(s.take(i as int + 1).last() == summaries@[i as int]@);
        }
        let newer = match table.get(summaries[i].shard_id) {
            Some(current) => summaries[i].generation > current.generation,
            None => true,
        };
        if newer {
            table.insert(summaries[i].shard_id, summaries[i].duplicate());
        }
        i += 1;
    }
    assert(s.take(i as int) =~= s);
}

/// Whether a summary is newer than what the table holds.
pub fn any_newer(
    table: &OrdMap<TrainingShardSummary>,
    summaries: &Vec<TrainingShardSummary>,
) -> (r: bool)
    ensures
        r == (exists|i: int|
            0 <= i < summaries@.len() && is_newer(table@, #[trigger] views(summaries@)[i])),
{
    let mut i: usize = 0;
    while i < summaries.len()
        invariant
            0 <= i <= summaries@.len(),
            forall|j: int| 0 <= j < i ==> !is_newer(table@, #[trigger] views(summaries@)[j]),
        decreases summaries@.len() - i,
    {
        assert(views(summaries@)[i as int] == summaries@[i as int]@);
        let newer = match table.get(summaries[i].shard_id) {
            Some(current) => summaries[i].generation > current.generation,
            None => true,
        };
        if newer {
            assert(is_newer(table@, views(summaries@)[i as int]));
            return true;
        }
        i += 1;
    }
    false
}

/// The same value at every shard of `shards`.
pub open spec fn uniform_values(
    shards: Seq<TrainingShardAssignmentView>,
    value: (i64, i64),
) -> Map<u16, (i64, i64)> {
    Map::new(
        |k: u16| exists|i: int| 0 <= i < shards.len() && (#[trigger] shards[i]).shard_id == k,
        |k: u16| value,
    )
}

/// Zero progress for every group.
pub open spec fn zero_progress(groups: Seq<TrainingGroupView>) -> Map<u16, u64> {
    Map::new(
        |k: u16| exists|i: int| 0 <= i < groups.len() && (#[trigger] groups[i]).group_id == k,
        |k: u16| 0u64,
    )
}

/// The loss of the untrained model over `shards`.
pub open spec fn untrained_loss(shards: Seq<TrainingShardAssignmentView>) -> int
    decreases shards.len(),
{
    if shards.len() == 0 {
        0
    } else {
        untrained_loss(shards.drop_last()) + mean_loss(0, shard_samples(shards.last().shard_id))
    }
}

/// The context with which a job begins.
pub open spec fn initial_context(start: TrainingStartView, role: Role) -> ContextView {
    ContextView {
        start,
        role,
        coordinator: start.coordinator,
        term: start.term,
        window: 0,
        checkpoint_generation: 0,
        checkpoint: None,
        final_checkpoint_committed: false,
        assignment: start.assignment,
        value: start.initial_value,
        optimizer: start.initial_optimizer,
        generation: start.assignment.generation,
        samples: start.samples,
        branch: start.branch,
        failed: Set::empty(),
        voted_term: start.term,
        voted_candidate: None,
        shard_summaries: with_summaries(
            Map::empty(),
            start.shards.map_values(|s: TrainingShardAssignmentView| assigned_summary(s)),
        ),
        checkpoints: Seq::empty(),
        checkpoint_providers: Map::empty(),
        accepted_updates: 0,
        rejected_updates: 0,
        stragglers: 0,
        group_progress: zero_progress(start.groups),
        group_completion_order: Seq::empty(),
        non_barrier_progress_observed: false,
        shard_values: match role {
            Role::Coordinator => uniform_values(
                start.shards,
                (start.initial_value, start.initial_optimizer),
            ),
            Role::Worker => Map::empty().insert(
                start.assignment.shard_id,
                (start.initial_value, start.initial_optimizer),
            ),
        },
        initial_loss: untrained_loss(start.shards) as i64,
    }
}

/// The committed state that a context stands for.
pub open spec fn state_of(c: ContextView) -> TrainingStateView {
    TrainingStateView {
        job_id: c.start.job_id,
        coordinator: c.coordinator,
        term: c.term,
        membership_epoch: c.start.membership_epoch,
        branch: c.branch,
        window: c.window,
        checkpoint_generation: c.checkpoint_generation,
        checkpoint: c.checkpoint,
        shards: ordered_values(c.shard_summaries),
    }
}

proof fn lemma_untrained_loss_prefix(shards: Seq<TrainingShardAssignmentView>, i: int)
    requires
        0 <= i <= shards.len(),
    ensures
        0 <= untrained_loss(shards.take(i)) <= untrained_loss(shards),
        untrained_loss(shards) <= 229 * shards.len(),
    decreases shards.len(),
{
    if shards.len() > 0 {
        lemma_initial_shard_loss(shards.last().shard_id);
        if i < shards.len() {
            assert(shards.take(i) =~= shards.drop_last().take(i));
            lemma_untrained_loss_prefix(shards.drop_last(), i);
        } else {
            assert(shards.take(i) =~= shards);
            lemma_untrained_loss_prefix(shards.drop_last(), i - 1);
        }
    } else {
        assert(shards.take(i) =~= shards);
    }
}

fn summaries_of(shards: &Vec<TrainingShardAssignment>) -> (r: OrdMap<TrainingShardSummary>)
    ensures
        r@ == with_summaries(
            Map::empty(),
            views(shards@).map_values(|s: TrainingShardAssignmentView| assigned_summary(s)),
        ),
{
    let ghost s = views(shards@).map_values(
        |s: TrainingShardAssignmentView| assigned_summary(s),
    );
    let mut table: OrdMap<TrainingShardSummary> = OrdMap::new();
    let mut i: usize = 0;
    while i < shards.len()
        invariant
            0 <= i <= shards@.len(),
            s == views(shards@).map_values(|s: TrainingShardAssignmentView| assigned_summary(s)),
            table@ == with_summaries(Map::empty(), s.take(i as int)),
        decreases shards@.len() - i,
    {
        let shard = &shards[i];
        let summary = TrainingShardSummary {
            shard_id: shard.shard_id,
            generation: shard.generation,
            state_hash: shard.state_hash,
            providers: shard.replicas.clone(),
        };
        proof {
            assert(s.take(i as int + 1).drop_last() =~= s.take(i as int));
            assert(summary@ == assigned_summary(shards@[i as int]@));
            assert(s.take(i as int + 1).last() == summary@);
        }
        table.insert(shard.shard_id, summary);
        i += 1;
    }
    assert(s.take(i as int) =~= s);
    table
}

fn uniform_table(shards: &Vec<TrainingShardAssignment>, value: (i64, i64)) -> (r: OrdMap<
    (i64, i64),
>)
    ensures
        r@ == uniform_values(views(shards@), value),
{
    let ghost s = views(shards@);
    let mut table: OrdMap<(i64, i64)> = OrdMap::new();
    let mut i: usize = 0;
    assert(table@ =~= uniform_values(s.take(0), value));
    while i < shards.len()
        invariant
            0 <= i <= shards@.len(),
            s == views(shards@),
            table@ == uniform_values(s.take(i as int), value),
        decreases shards@.len() - i,
    {
        let ghost before = table@;
        table.insert(shards[i].shard_id, value);
        proof {
            let p = s.take(i as int);
            let q = s.take(i as int + 1);
            assert(q[i as int] == shards@[i as int]@);
            assert(table@ =~= uniform_values(q, value)) by {
                assert forall|k: u16| #[trigger] table@.contains_key(k) == uniform_values(
                    q,
                    value,
                ).contains_key(k) by {
                    if before.contains_key(k) {
                        let j = choose|j: int| 0 <= j < p.len() && (#[trigger] p[j]).shard_id == k;
                        assert(q[j] == p[j]);
                    }
                    if uniform_values(q, value).contains_key(k) {
                        let j = choose|j: int| 0 <= j < q.len() && (#[trigger] q[j]).shard_id == k;
                        if j < i {
                            assert(p[j] == q[j]);
                        }
                    }
                    if k == shards@[i as int]@.shard_id {
                        assert(q[i as int].shard_id == k);
                    }
                }
            }
        }
        i += 1;
    }
    assert(s.take(i as int) =~= s);
    table
}

fn progress_table(groups: &Vec<TrainingGroup>) -> (r: OrdMap<u64>)
    ensures
        r@ == zero_progress(views(groups@)),
{
    let ghost s = views(groups@);
    let mut table: OrdMap<u64> = OrdMap::new();
    let mut i: usize = 0;
    assert(table@ =~= zero_progress(s.take(0)));
    while i < groups.len()
        invariant
            0 <= i <= groups@.len(),
            s == views(groups@),
            table@ == zero_progress(s.take(i as int)),
        decreases groups@.len() - i,
    {
        let ghost before = table@;
        table.insert(groups[i].group_id, 0);
        proof {
            let p = s.take(i as int);
            let q = s.take(i as int + 1);
            assert(q[i as int] == groups@[i as int]@);
            assert(table@ =~= zero_progress(q)) by {
                assert forall|k: u16| #[trigger] table@.contains_key(k) == zero_progress(
                    q,
                ).contains_key(k) by {
                    if before.contains_key(k) {
                        let j = choose|j: int| 0 <= j < p.len() && (#[trigger] p[j]).group_id == k;
                        assert(q[j] == p[j]);
                    }
                    if zero_progress(q).contains_key(k) {
                        let j = choose|j: int| 0 <= j < q.len() && (#[trigger] q[j]).group_id == k;
                        if j < i {
                            assert(p[j] == q[j]);
                        }
                    }
                    if k == groups@[i as int]@.group_id {
                        assert(q[i as int].group_id == k);
                    }
                }
            }
        }
        i += 1;
    }
    assert(s.take(i as int) =~= s);
    table
}

fn untrained_total(shards: &Vec<TrainingShardAssignment>) -> (r: i64)
    requires
        untrained_loss(views(shards@)) <= i64::MAX,
    ensures
        r == untrained_loss(views(shards@)),
{
    let ghost s = views(shards@);
    let mut total: i64 = 0;
    let mut i: usize = 0;
    while i < shards.len()
        invariant
            0 <= i <= shards@.len(),
            s == views(shards@),
            untrained_loss(s) <= i64::MAX,
            total == untrained_loss(s.take(i as int)),
        decreases shards@.len() - i,
    {
        proof {
            lemma_initial_shard_loss(shards@[i as int].shard_id);
            lemma_untrained_loss_prefix(s, i as int);
            lemma_untrained_loss_prefix(s, i as int + 1);
            assert(s.take(i as int + 1).drop_last() =~= s.take(i as int));
        }
        let samples = samples_for_shard(shards[i].shard_id);
        total += samples_loss(0, &samples);
        i += 1;
    }
    assert(s.take(i as int) =~= s);
    total
}

impl Context {
    pub fn new(start: TrainingStart, role: Role) -> (r: Context)
        requires
            untrained_loss(start@.shards) <= i64::MAX,
        ensures
            r@ == initial_context(start@, role),
    {
        let initial = (start.initial_value, start.initial_optimizer);
        let shard_values = match role {
            Role::Coordinator => uniform_table(&start.shards, initial),
            Role::Worker => {
                let mut table: OrdMap<(i64, i64)> = OrdMap::new();
                table.insert(start.assignment.shard_id, initial);
                table
            },
        };
        let context = Context {
            role,
            coordinator: start.coordinator,
            term: start.term,
            window: 0,
            checkpoint_generation: 0,
            checkpoint: None,
            final_checkpoint_committed: false,
            assignment: start.assignment.duplicate(),
            value: start.initial_value,
            optimizer: start.initial_optimizer,
            generation: start.assignment.generation,
            samples: start.samples.clone(),
            branch: start.branch,
            failed: NodeSet::new(),
            voted_term: start.term,
            voted_candidate: None,
            shard_summaries: summaries_of(&start.shards),
            checkpoints: Vec::new(),
            checkpoint_providers: ProviderTable::new(),
            accepted_updates: 0,
            rejected_updates: 0,
            stragglers: 0,
            group_progress: progress_table(&start.groups),
            group_completion_order: Vec::new(),
            non_barrier_progress_observed: false,
            shard_values,
            initial_loss: untrained_total(&start.shards),
            start,
        };
        assert(context@ =~= initial_context(start@, role));
        context
    }

    pub fn state(&self) -> (r: TrainingState)
        ensures
            r@ == state_of(self@),
    {
        TrainingState {
            job_id: self.start.job_id,
            coordinator: self.coordinator,
            term: self.term,
            membership_epoch: self.start.membership_epoch,
            branch: self.branch,
            window: self.window,
            checkpoint_generation: self.checkpoint_generation,
            checkpoint: self.checkpoint,
            shards: self.shard_summaries.values(),
        }
    }
}

/// The loss of the trained shards listed in `keys`.
pub open spec fn trained_loss(values: Map<u16, (i64, i64)>, keys: Seq<u16>) -> int
    decreases keys.len(),
{
    if keys.len() == 0 {
        0
    } else {
        trained_loss(values, keys.drop_last()) + mean_loss(
            values[keys.last()].0,
            shard_samples(keys.last()),
        )
    }
}

/// The losses of the shards in `keys` can be taken and added up.
pub open spec fn trained_loss_fits(values: Map<u16, (i64, i64)>, keys: Seq<u16>) -> bool {
    &&& forall|i: int|
        0 <= i < keys.len() ==> loss_fits(
            values[#[trigger] keys[i]].0,
            shard_samples(keys[i]),
        )
    &&& trained_loss(values, keys) <= i64::MAX
}

/// The last checkpoint is the first one that covers the last window: with a checkpoint
/// every so many windows it is the least number of intervals that reaches it.
pub proof fn law_final_generation_covers_the_last_window(start: TrainingStartView)
    requires
        start.checkpoint_every > 0,
        start.max_windows + start.checkpoint_every - 1 <= u64::MAX,
    ensures
        final_generation(start) * start.checkpoint_every >= start.max_windows,
        (final_generation(start) - 1) * start.checkpoint_every < start.max_windows,
{
    let w = start.max_windows as int;
    let e = start.checkpoint_every as int;
    let q = (w + (e - 1)) / e;
    assert(q * e >= w && (q - 1) * e < w) by (nonlinear_arith)
        requires
            e > 0,
            q == (w + (e - 1)) / e,
    ;
}

/// The state of a context carries its job, term, coordinator, window and checkpoint, and
/// the summary of every shard that the context knows, each as it is known.
pub proof fn law_state_carries_the_context(c: ContextView, shard: u16)
    ensures
        ({
            let s = state_of(c);
            &&& s.job_id == c.start.job_id
            &&& s.membership_epoch == c.start.membership_epoch
            &&& s.coordinator == c.coordinator
            &&& s.term == c.term
            &&& s.branch == c.branch
            &&& s.window == c.window
            &&& s.checkpoint_generation == c.checkpoint_generation
            &&& s.checkpoint == c.checkpoint
            &&& c.shard_summaries.contains_key(shard) ==> s.shards.contains(
                c.shard_summaries[shard],
            )
            &&& forall|summary: TrainingShardSummaryView| #[trigger]
                s.shards.contains(summary) ==> exists|k: u16| #[trigger]
                    c.shard_summaries.contains_key(k) && c.shard_summaries[k] == summary
        }),
{
    let m = c.shard_summaries;
    crate::base::ordered::lemma_values_at_keys(m, 0);
    let keys = crate::base::ordered::ordered_keys(m);
    let s = state_of(c);
    if m.contains_key(shard) {
        assert(keys.contains(shard));
        let i = keys.index_of(shard);
        assert(s.shards[i] == m[shard]);
    }
    assert forall|summary: TrainingShardSummaryView| #[trigger]
        s.shards.contains(summary) implies exists|k: u16| #[trigger]
        m.contains_key(k) && m[k] == summary by {
        let i = s.shards.index_of(summary);
        assert(m.contains_key(keys[i]) && m[keys[i]] == s.shards[i]);
    }
}

/// A job begins at window zero without a checkpoint, with nobody failed and no vote
/// given, with the value and the samples that it was started with.
pub proof fn law_job_begins_untrained(start: TrainingStartView, role: Role, i: int)
    requires
        0 <= i < start.shards.len(),
    ensures
        ({
            let c = initial_context(start, role);
            &&& c.start == start
            &&& c.role == role
            &&& c.coordinator == start.coordinator
            &&& c.term == start.term
            &&& c.voted_term == start.term
            &&& c.voted_candidate is None
            &&& c.window == 0
            &&& c.checkpoint_generation == 0
            &&& c.checkpoint is None
            &&& !c.final_checkpoint_committed
            &&& c.value == start.initial_value
            &&& c.optimizer == start.initial_optimizer
            &&& c.assignment == start.assignment
            &&& c.generation == start.assignment.generation
            &&& c.samples == start.samples
            &&& c.branch == start.branch
            &&& c.failed == Set::<NodeId>::empty()
            &&& c.checkpoints.len() == 0
            &&& c.accepted_updates == 0 && c.rejected_updates == 0 && c.stragglers == 0
            &&& c.group_completion_order.len() == 0
            &&& role is Coordinator ==> c.shard_values.contains_key(start.shards[i].shard_id)
                && c.shard_values[start.shards[i].shard_id] == (
                start.initial_value,
                start.initial_optimizer,
            )
            &&& role is Worker ==> c.shard_values.dom() == Set::<u16>::empty().insert(
                start.assignment.shard_id,
            )
        }),
{
    let c = initial_context(start, role);
    if role is Worker {
        assert(c.shard_values.dom() =~= Set::<u16>::empty().insert(start.assignment.shard_id));
    }
}

/// Summaries go in one after the other, each under the number of its shard: the last one
/// for a shard stays. Of a merge, a summary goes in exactly where the shard is unknown
/// or known at an older generation.
pub proof fn law_summaries_go_in_by_shard(
    m: Map<u16, TrainingShardSummaryView>,
    s: Seq<TrainingShardSummaryView>,
    one: TrainingShardSummaryView,
    other: u16,
)
    ensures
        with_summaries(m, Seq::empty()) == m,
        with_newer(m, Seq::empty()) == m,
        ({
            let before = with_summaries(m, s);
            let after = with_summaries(m, s.push(one));
            &&& after.contains_key(one.shard_id)
            &&& after[one.shard_id] == one
            &&& other != one.shard_id ==> after.contains_key(other) == before.contains_key(other)
                && after[other] == before[other]
        }),
        ({
            let before = with_newer(m, s);
            let after = with_newer(m, s.push(one));
            &&& after.contains_key(one.shard_id)
            &&& !before.contains_key(one.shard_id) || before[one.shard_id].generation
                < one.generation ==> after[one.shard_id] == one
            &&& before.contains_key(one.shard_id) && before[one.shard_id].generation
                >= one.generation ==> after == before
            &&& other != one.shard_id ==> after.contains_key(other) == before.contains_key(other)
                && after[other] == before[other]
        }),
{
    assert(s.push(one).drop_last() =~= s);
}

/// A shard is first known as the plan assigns it, held by its replicas.
pub proof fn law_assigned_shard_is_known(shard: TrainingShardAssignmentView)
    ensures
        assigned_summary(shard).shard_id == shard.shard_id,
        assigned_summary(shard).generation == shard.generation,
        assigned_summary(shard).state_hash == shard.state_hash,
        assigned_summary(shard).providers == shard.replicas,
{
}

/// The loss of a model is the sum of the losses of its shards, each over its own samples
/// with its own value; untrained, every value is zero.
pub proof fn law_losses_sum_over_shards(
    values: Map<u16, (i64, i64)>,
    keys: Seq<u16>,
    key: u16,
    shards: Seq<TrainingShardAssignmentView>,
    shard: TrainingShardAssignmentView,
)
    ensures
        trained_loss(values, Seq::empty()) == 0,
        trained_loss(values, keys.push(key)) == trained_loss(values, keys) + mean_loss(
            values[key].0,
            shard_samples(key),
        ),
        untrained_loss(Seq::empty()) == 0,
        untrained_loss(shards.push(shard)) == untrained_loss(shards) + mean_loss(
            0,
            shard_samples(shard.shard_id),
        ),
{
    assert(keys.push(key).drop_last() =~= keys);
    assert(shards.push(shard).drop_last() =~= shards);
}

/// A state covers the final model only at the last window, with the last checkpoint, and
/// with every shard of the job at the last window.
pub proof fn law_final_state_has_every_shard(
    start: TrainingStartView,
    state: TrainingStateView,
    i: int,
)
    requires
        covers_final_model(start, state),
        0 <= i < start.shards.len(),
    ensures
        state.window >= start.max_windows,
        state.checkpoint_generation >= final_generation(start),
        exists|k: int|
            0 <= k < state.shards.len() && (#[trigger] state.shards[k]).shard_id
                == start.shards[i].shard_id && state.shards[k].generation >= start.max_windows,
{
    let p = of_shard(start.shards[i].shard_id);
    crate::base::search::lemma_find_sound(state.shards, p);
    let found = find(state.shards, p)->0;
    let k = state.shards.index_of(found);
    assert(state.shards[k].shard_id == start.shards[i].shard_id);
}

/// A job is final only with its last checkpoint committed at the last window and every
/// shard there.
pub proof fn law_final_context_is_complete(c: ContextView, i: int)
    requires
        context_final(c),
        0 <= i < c.start.shards.len(),
    ensures
        c.final_checkpoint_committed,
        c.window >= c.start.max_windows,
        c.checkpoint_generation >= final_generation(c.start),
        c.shard_summaries.contains_key(c.start.shards[i].shard_id),
        c.shard_summaries[c.start.shards[i].shard_id].generation >= c.start.max_windows,
{
}

/// A job begins with every shard known as it was assigned, every group at window zero, no
/// checkpoint with anybody, and the loss of the untrained model.
pub proof fn law_job_begins_with_its_shards(start: TrainingStartView, role: Role, i: int, k: u16)
    ensures
        ({
            let c = initial_context(start, role);
            let known = start.shards.map_values(|s: TrainingShardAssignmentView| assigned_summary(s));
            &&& c.shard_summaries == with_summaries(
                Map::<u16, TrainingShardSummaryView>::empty(),
                known,
            )
            &&& known.len() == start.shards.len()
            &&& 0 <= i < start.shards.len() ==> known[i].shard_id == start.shards[i].shard_id
                && known[i].generation == start.shards[i].generation && known[i].state_hash
                == start.shards[i].state_hash && known[i].providers == start.shards[i].replicas
            &&& 0 <= i < start.groups.len() ==> c.group_progress.contains_key(
                start.groups[i].group_id,
            ) && c.group_progress[start.groups[i].group_id] == 0
            &&& c.group_progress.contains_key(k) ==> exists|g: int|
                0 <= g < start.groups.len() && (#[trigger] start.groups[g]).group_id == k
            &&& c.checkpoint_providers == Map::<ArtifactId, Seq<NodeId>>::empty()
            &&& 0 <= untrained_loss(start.shards) <= i64::MAX ==> c.initial_loss == untrained_loss(
                start.shards,
            )
            &&& role is Worker ==> c.shard_values[start.assignment.shard_id] == (
                start.initial_value,
                start.initial_optimizer,
            )
            &&& role is Coordinator && c.shard_values.contains_key(k) ==> exists|s: int|
                0 <= s < start.shards.len() && (#[trigger] start.shards[s]).shard_id == k
            &&& !c.non_barrier_progress_observed
        }),
{
}

} // verus!
