//! What every transition of a job keeps, and what a restart gives back.

use crate::base::ids::NodeId;
use crate::base::ordered::{keys_from, lemma_values_at_keys, ordered_values};
use crate::reference::admission::with_state;
use crate::reference::committing::{commit_stepped, CommitEvent, CommitRunView};
use crate::reference::context::{
    assigned_summary, initial_context, state_of, with_newer, with_summaries, ContextView,
};
use crate::reference::coordinator::{committed_window, took_aggregate};
use crate::reference::election::{recovered, won};
use crate::reference::types::{
    Role, TrainingAggregateView, TrainingCheckpointCommitView, TrainingShardAssignmentView,
    TrainingShardSummaryView, TrainingStartView, TrainingStateView, TrainingWindowView,
};
use crate::reference::worker::{
    aggregate_summary, checkpoint_summaries, closed_window, entered_window, followed_commit,
    followed_state,
};
use vstd::prelude::*;

verus! {

/// Every summary stands at the number of its shard.
pub open spec fn keyed(m: Map<u16, TrainingShardSummaryView>) -> bool {
    forall|k: u16| #[trigger] m.contains_key(k) ==> m[k].shard_id == k
}

/// A context knows every shard of its job, each under its own number.
pub open spec fn context_wf(c: ContextView) -> bool {
    &&& keyed(c.shard_summaries)
    &&& forall|i: int|
        0 <= i < c.start.shards.len() ==> c.shard_summaries.contains_key(
            (#[trigger] c.start.shards[i]).shard_id,
        )
}

proof fn lemma_with_summaries_keyed(
    m: Map<u16, TrainingShardSummaryView>,
    s: Seq<TrainingShardSummaryView>,
)
    requires
        keyed(m),
    ensures
        keyed(with_summaries(m, s)),
        forall|k: u16| #[trigger] m.contains_key(k) ==> with_summaries(m, s).contains_key(k),
        forall|i: int|
            0 <= i < s.len() ==> with_summaries(m, s).contains_key((#[trigger] s[i]).shard_id),
    decreases s.len(),
{
    if s.len() > 0 {
        lemma_with_summaries_keyed(m, s.drop_last());
        assert forall|i: int| 0 <= i < s.len() implies with_summaries(m, s).contains_key(
            (#[trigger] s[i]).shard_id,
        ) by {
            if i < s.len() - 1 {
                assert(s.drop_last()[i] == s[i]);
            }
        }
    }
}

proof fn lemma_with_newer_keyed(
    m: Map<u16, TrainingShardSummaryView>,
    s: Seq<TrainingShardSummaryView>,
)
    requires
        keyed(m),
    ensures
        keyed(with_newer(m, s)),
        forall|k: u16| #[trigger] m.contains_key(k) ==> with_newer(m, s).contains_key(k),
    decreases s.len(),
{
    if s.len() > 0 {
        lemma_with_newer_keyed(m, s.drop_last());
    }
}

/// A job begins with a context that knows every shard.
pub proof fn law_initial_context_wf(start: TrainingStartView, role: Role)
    ensures
        context_wf(initial_context(start, role)),
{
    let s = start.shards.map_values(|s: TrainingShardAssignmentView| assigned_summary(s));
    lemma_with_summaries_keyed(Map::empty(), s);
    assert forall|i: int| 0 <= i < start.shards.len() implies initial_context(
        start,
        role,
    ).shard_summaries.contains_key((#[trigger] start.shards[i]).shard_id) by {
        assert(s[i].shard_id == start.shards[i].shard_id);
    }
}

/// Every transition of a job keeps that its context knows every shard.
pub proof fn law_transitions_keep_context_wf(
    c: ContextView,
    w: TrainingWindowView,
    a: TrainingAggregateView,
    s: TrainingStateView,
    commit: TrainingCheckpointCommitView,
    aggregates: Seq<TrainingAggregateView>,
    node: NodeId,
    peer: NodeId,
    window: u64,
    run: CommitRunView,
    event: CommitEvent,
)
    requires
        context_wf(c),
    ensures
        context_wf(entered_window(c, w)),
        context_wf(closed_window(c, w, a)),
        context_wf(followed_state(c, s)),
        context_wf(followed_commit(c, commit)),
        context_wf(took_aggregate(c, a)),
        context_wf(committed_window(c, window, aggregates)),
        context_wf(recovered(c, s)),
        context_wf(won(c, node, window, peer)),
        context_wf(with_state(c, Some(s))),
        context_wf(commit_stepped(c, run, event).context),
{
    lemma_with_newer_keyed(c.shard_summaries, s.shards);
    lemma_with_summaries_keyed(c.shard_summaries, s.shards);
    lemma_with_summaries_keyed(c.shard_summaries, checkpoint_summaries(commit.manifest.shards));
    lemma_with_summaries_keyed(
        c.shard_summaries,
        aggregates.map_values(|a: TrainingAggregateView| aggregate_summary(a)),
    );
}

proof fn lemma_with_distinct_summaries(
    m: Map<u16, TrainingShardSummaryView>,
    s: Seq<TrainingShardSummaryView>,
)
    requires
        forall|i: int, j: int|
            0 <= i < j < s.len() ==> (#[trigger] s[i]).shard_id != (#[trigger] s[j]).shard_id,
    ensures
        forall|i: int|
            0 <= i < s.len() ==> with_summaries(m, s).contains_key((#[trigger] s[i]).shard_id)
                && with_summaries(m, s)[s[i].shard_id] == s[i],
        forall|k: u16|
            (forall|i: int| 0 <= i < s.len() ==> (#[trigger] s[i]).shard_id != k) ==> (
            #[trigger] with_summaries(m, s).contains_key(k) <==> m.contains_key(k)),
    decreases s.len(),
{
    if s.len() > 0 {
        let t = s.drop_last();
        lemma_with_distinct_summaries(m, t);
        assert forall|i: int| 0 <= i < s.len() implies with_summaries(m, s).contains_key(
            (#[trigger] s[i]).shard_id,
        ) && with_summaries(m, s)[s[i].shard_id] == s[i] by {
            if i < s.len() - 1 {
                assert(t[i] == s[i]);
                assert(s[i].shard_id != s[s.len() - 1].shard_id);
            }
        }
        assert forall|k: u16|
            (forall|i: int| 0 <= i < s.len() ==> (#[trigger] s[i]).shard_id != k) implies (
        #[trigger] with_summaries(m, s).contains_key(k) <==> m.contains_key(k)) by {
            assert(s[s.len() - 1].shard_id != k);
            assert forall|i: int| 0 <= i < t.len() implies (#[trigger] t[i]).shard_id != k by {
                assert(t[i] == s[i]);
            }
            assert(with_summaries(m, t).contains_key(k) == with_summaries(m, s).contains_key(k));
        }
    }
}

/// A restart gives back what was persisted: a worker that writes down its
/// state and later restores it from the job description stands for the same
/// state again.
pub proof fn law_restart_returns_persisted_state(start: TrainingStartView, c: ContextView)
    requires
        context_wf(c),
        c.start == start,
        c.branch == start.branch,
    ensures
        state_of(with_state(initial_context(start, Role::Worker), Some(state_of(c)))) == state_of(
            c,
        ),
{
    let first = initial_context(start, Role::Worker).shard_summaries;
    let n = c.shard_summaries;
    let s = ordered_values(n);
    lemma_values_at_keys(n, 0);
    let keys = keys_from(n, 0);
    assert forall|i: int, j: int| 0 <= i < j < s.len() implies (#[trigger] s[i]).shard_id != (
    #[trigger] s[j]).shard_id by {
        assert(s[i].shard_id == keys[i] && s[j].shard_id == keys[j]);
    }
    lemma_with_distinct_summaries(first, s);
    let after = with_summaries(first, s);
    lemma_first_keys(start);
    assert(after =~= n) by {
        assert forall|k: u16| #[trigger] after.contains_key(k) == n.contains_key(k) by {
            if n.contains_key(k) {
                assert(keys.contains(k));
                let i = choose|i: int| 0 <= i < keys.len() && keys[i] == k;
                assert(s[i].shard_id == k);
            } else {
                assert forall|i: int| 0 <= i < s.len() implies (#[trigger] s[i]).shard_id != k by {
                    assert(n.contains_key(keys[i]));
                }
                if first.contains_key(k) {
                    let i = choose|i: int|
                        0 <= i < start.shards.len() && (#[trigger] start.shards[i]).shard_id == k;
                    assert(n.contains_key(start.shards[i].shard_id));
                }
            }
        }
        assert forall|k: u16| #[trigger] after.contains_key(k) implies after[k] == n[k] by {
            assert(n.contains_key(k));
            assert(keys.contains(k));
            let i = choose|i: int| 0 <= i < keys.len() && keys[i] == k;
            assert(s[i].shard_id == k);
        }
    }
}

proof fn lemma_first_keys(start: TrainingStartView)
    ensures
        forall|k: u16| #[trigger]
            initial_context(start, Role::Worker).shard_summaries.contains_key(k) ==> exists|i: int|
                0 <= i < start.shards.len() && (#[trigger] start.shards[i]).shard_id == k,
{
    let s = start.shards.map_values(|s: TrainingShardAssignmentView| assigned_summary(s));
    lemma_with_keys(Map::empty(), s);
    assert forall|k: u16| #[trigger]
        initial_context(start, Role::Worker).shard_summaries.contains_key(k) implies exists|i: int|
        0 <= i < start.shards.len() && (#[trigger] start.shards[i]).shard_id == k by {
        let i = choose|i: int| 0 <= i < s.len() && (#[trigger] s[i]).shard_id == k;
        assert(start.shards[i].shard_id == k);
    }
}

proof fn lemma_with_keys(
    m: Map<u16, TrainingShardSummaryView>,
    s: Seq<TrainingShardSummaryView>,
)
    ensures
        forall|k: u16| #[trigger]
            with_summaries(m, s).contains_key(k) ==> m.contains_key(k) || exists|i: int|
                0 <= i < s.len() && (#[trigger] s[i]).shard_id == k,
    decreases s.len(),
{
    if s.len() > 0 {
        let t = s.drop_last();
        lemma_with_keys(m, t);
        assert forall|k: u16| #[trigger] with_summaries(m, s).contains_key(k) implies m.contains_key(
            k,
        ) || exists|i: int| 0 <= i < s.len() && (#[trigger] s[i]).shard_id == k by {
            if k == s.last().shard_id {
                assert(s[s.len() - 1].shard_id == k);
            } else if !m.contains_key(k) {
                assert(with_summaries(m, t).contains_key(k));
                let i = choose|i: int| 0 <= i < t.len() && (#[trigger] t[i]).shard_id == k;
                assert(s[i].shard_id == k);
            }
        }
    }
}

} // verus!
