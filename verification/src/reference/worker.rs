//! What a worker does with the messages of its job.

use crate::base::arith::{max_int, max_u64, sat_u64};
use crate::base::ids::{unsigned_hash, ArtifactId, NodeId};
use crate::base::members::{all_members, contains_id};
use crate::base::search::{find, opt_view, views};
use crate::reference::aggregator::{provider_list, providers};
use crate::reference::context::{
    final_checkpoint_generation, final_generation, group_for, insert_summaries, merge_newer,
    of_group, state_of, with_newer, with_summaries, Context, ContextView,
};
use crate::reference::types::{
    Role, TrainingAck, TrainingAckKind, TrainingAggregate, TrainingAggregateView,
    TrainingCheckpointCommit, TrainingCheckpointCommitView, TrainingCheckpointOffer,
    TrainingCheckpointShard, TrainingCheckpointShardView, TrainingElection, TrainingExecution,
    TrainingGroup, TrainingGroupView, TrainingShardState, TrainingShardSummary,
    TrainingShardSummaryView, TrainingState, TrainingStateView, TrainingWindow,
    TrainingWindowView,
};
use vstd::prelude::*;

verus! {

/// A window command that this worker does not follow.
pub open spec fn window_rejected(
    c: ContextView,
    node: NodeId,
    peer: NodeId,
    w: TrainingWindowView,
) -> bool {
    ||| c.role != Role::Worker
    ||| !(peer == w.coordinator || (peer == w.aggregator && w.members.contains(peer)))
    ||| (w.coordinator != c.start.coordinator && !c.start.participants.contains(w.coordinator))
    ||| !(forall|i: int|
        0 <= i < w.members.len() ==> c.start.participants.contains(#[trigger] w.members[i]))
    ||| w.term < c.term
    ||| w.membership_epoch != c.start.membership_epoch
    ||| w.branch != c.branch
    ||| w.members.len() == 0
    ||| !w.members.contains(node)
    ||| c.assignment.shard_id != w.shard_id
}

/// The context after taking over the newer term of a window command.
pub open spec fn adopted_term(c: ContextView, w: TrainingWindowView) -> ContextView {
    if w.term > c.term {
        ContextView { term: w.term, coordinator: w.coordinator, failed: Set::empty(), ..c }
    } else {
        c
    }
}

/// The context after following a window command.
pub open spec fn entered_window(c: ContextView, w: TrainingWindowView) -> ContextView {
    let a = adopted_term(c, w);
    ContextView {
        window: max_int(a.window as int, w.window as int) as u64,
        group_progress: a.group_progress.insert(w.group_id, w.window),
        ..a
    }
}

/// What a worker does next with a window command.
#[derive(Debug, PartialEq, Eq)]
pub enum WindowAction {
    /// The command is not followed.
    Reject,
    /// This node is to aggregate a group it does not know.
    Ignore,
    /// This node gathers the updates of the group.
    Aggregate(TrainingGroup),
    /// This node sends its update to the aggregator.
    Update,
}

/// Follow a window command, or count it as rejected. The first result is the
/// state to persist where the command brought a newer term.
pub fn accept_window(
    context: &mut Context,
    node: NodeId,
    peer: NodeId,
    window: &TrainingWindow,
) -> (r: (Option<TrainingState>, WindowAction))
    ensures
        ({
            let c = old(context)@;
            let w = window@;
            let known = find(c.start.groups, of_group(w.group_id));
            if window_rejected(c, node, peer, w) {
                &&& final(context)@ == (ContextView {
                    rejected_updates: sat_u64(c.rejected_updates + 1) as u64,
                    ..c
                })
                &&& r.0 is None
                &&& r.1 is Reject
            } else {
                &&& final(context)@ == entered_window(c, w)
                &&& match r.0 {
                    Some(state) => w.term > c.term && state@ == state_of(adopted_term(c, w)),
                    None => w.term <= c.term,
                }
                &&& match r.1 {
                    WindowAction::Reject => false,
                    WindowAction::Ignore => node == w.aggregator && known is None,
                    WindowAction::Aggregate(group) => node == w.aggregator && known is Some
                        && group@ == (TrainingGroupView {
                        group_id: known->0.group_id,
                        shard_id: known->0.shard_id,
                        members: w.members,
                        aggregator: w.aggregator,
                    }),
                    WindowAction::Update => node != w.aggregator,
                }
            }
        }),
{
    let sender_is_coordinator = peer == window.coordinator;
    let sender_is_group_aggregator = peer == window.aggregator && contains_id(
        &window.members,
        peer,
    );
    let rejected = context.role != Role::Worker || (!sender_is_coordinator
        && !sender_is_group_aggregator) || (window.coordinator != context.start.coordinator
        && !contains_id(&context.start.participants, window.coordinator)) || !all_members(
        &window.members,
        &context.start.participants,
    ) || window.term < context.term || window.membership_epoch != context.start.membership_epoch
        || window.branch != context.branch || window.members.len() == 0 || !contains_id(
        &window.members,
        node,
    ) || context.assignment.shard_id != window.shard_id;
    if rejected {
        context.rejected_updates = context.rejected_updates.saturating_add(1);
        return (None, WindowAction::Reject);
    }
    let mut adopted: Option<TrainingState> = None;
    if window.term > context.term {
        context.term = window.term;
        context.coordinator = window.coordinator;
        context.failed.clear();
        adopted = Some(context.state());
    }
    context.window = max_u64(context.window, window.window);
    context.group_progress.insert(window.group_id, window.window);
    let action = if node == window.aggregator {
        match group_for(&context.start, window.group_id) {
            None => WindowAction::Ignore,
            Some(base) => WindowAction::Aggregate(
                TrainingGroup {
                    group_id: base.group_id,
                    shard_id: base.shard_id,
                    members: window.members.clone(),
                    aggregator: window.aggregator,
                },
            ),
        }
    } else {
        WindowAction::Update
    };
    (adopted, action)
}

/// The summary that an aggregate gives of its shard.
pub open spec fn aggregate_summary(a: TrainingAggregateView) -> TrainingShardSummaryView {
    TrainingShardSummaryView {
        shard_id: a.shard_id,
        generation: a.generation,
        state_hash: a.state_artifact,
        providers: provider_list(a.aggregator, a.replicas),
    }
}

/// The summary that an aggregate gives of its shard.
pub fn summary_of_aggregate(aggregate: &TrainingAggregate) -> (r: TrainingShardSummary)
    ensures
        r@ == aggregate_summary(aggregate@),
{
    TrainingShardSummary {
        shard_id: aggregate.shard_id,
        generation: aggregate.generation,
        state_hash: aggregate.state_artifact,
        providers: providers(aggregate),
    }
}

/// The context of an aggregator after it finished a window.
pub open spec fn closed_window(
    c: ContextView,
    current: TrainingWindowView,
    a: TrainingAggregateView,
) -> ContextView {
    ContextView {
        window: max_int(c.window as int, current.window as int) as u64,
        generation: a.generation,
        value: a.value,
        optimizer: a.optimizer,
        shard_summaries: c.shard_summaries.insert(a.shard_id, aggregate_summary(a)),
        ..c
    }
}

/// The window that follows `current` in an autonomous group.
pub open spec fn following_window(
    c: ContextView,
    node: NodeId,
    group: TrainingGroupView,
    current: TrainingWindowView,
    a: TrainingAggregateView,
) -> TrainingWindowView {
    TrainingWindowView {
        job_id: c.start.job_id,
        coordinator: c.coordinator,
        term: c.term,
        membership_epoch: c.start.membership_epoch,
        branch: c.branch,
        window: sat_u64(current.window + 1) as u64,
        group_id: group.group_id,
        shard_id: group.shard_id,
        aggregator: node,
        members: group.members,
        base_generation: a.generation,
        local_steps: c.start.local_steps,
        max_staleness: c.start.max_staleness,
    }
}

/// Close a window that this node aggregated. An autonomous group goes on with
/// the window in the result until the last one is done.
pub fn close_window(
    context: &mut Context,
    node: NodeId,
    group: &TrainingGroup,
    current: &TrainingWindow,
    aggregate: &TrainingAggregate,
) -> (r: Option<TrainingWindow>)
    ensures
        final(context)@ == closed_window(old(context)@, current@, aggregate@),
        match r {
            Some(next) => old(context)@.start.execution == TrainingExecution::AutonomousLocalSgd
                && current@.window < old(context)@.start.max_windows && next@ == following_window(
                old(context)@,
                node,
                group@,
                current@,
                aggregate@,
            ),
            None => old(context)@.start.execution != TrainingExecution::AutonomousLocalSgd
                || current@.window >= old(context)@.start.max_windows,
        },
{
    context.window = max_u64(context.window, current.window);
    context.generation = aggregate.generation;
    context.value = aggregate.value;
    context.optimizer = aggregate.optimizer;
    context.shard_summaries.insert(aggregate.shard_id, summary_of_aggregate(aggregate));
    if context.start.execution != TrainingExecution::AutonomousLocalSgd || current.window
        >= context.start.max_windows {
        return None;
    }
    Some(
        TrainingWindow {
            job_id: context.start.job_id,
            coordinator: context.coordinator,
            term: context.term,
            membership_epoch: context.start.membership_epoch,
            branch: context.branch,
            window: current.window.saturating_add(1),
            group_id: group.group_id,
            shard_id: group.shard_id,
            aggregator: node,
            members: group.members.clone(),
            base_generation: aggregate.generation,
            local_steps: context.start.local_steps,
            max_staleness: context.start.max_staleness,
        },
    )
}

/// A shard state that this worker takes over. `computed` is the hash of its content.
pub open spec fn shard_state_accepted(
    c: ContextView,
    peer: NodeId,
    s: TrainingShardState,
    computed: ArtifactId,
) -> bool {
    &&& peer == s.owner
    &&& s.job_id == c.start.job_id
    &&& s.term >= c.term
    &&& s.branch == c.branch
    &&& s.shard_id == c.assignment.shard_id
    &&& s.generation >= c.generation
    &&& computed == s.state_hash
}

/// Take over a shard state. The result tells whether it is to be persisted.
pub fn receive_shard_state(
    context: &mut Context,
    peer: NodeId,
    state: &TrainingShardState,
    computed: ArtifactId,
) -> (r: bool)
    ensures
        r == shard_state_accepted(old(context)@, peer, *state, computed),
        final(context)@ == (if r {
            ContextView {
                value: state.value,
                optimizer: state.optimizer,
                generation: state.generation,
                ..old(context)@
            }
        } else {
            old(context)@
        }),
{
    if peer != state.owner || state.job_id != context.start.job_id || state.term < context.term
        || state.branch != context.branch || state.shard_id != context.assignment.shard_id
        || state.generation < context.generation || computed != state.state_hash {
        return false;
    }
    context.value = state.value;
    context.optimizer = state.optimizer;
    context.generation = state.generation;
    true
}

/// A coordination state that is stale, foreign or in conflict with the checkpoint.
pub open spec fn state_ignored(c: ContextView, peer: NodeId, s: TrainingStateView) -> bool {
    ||| peer != s.coordinator
    ||| s.job_id != c.start.job_id
    ||| s.branch != c.branch
    ||| s.term < c.term
    ||| (s.term == c.term && s.window < c.window)
    ||| (s.term == c.term && s.checkpoint_generation == c.checkpoint_generation && s.checkpoint
        is Some && c.checkpoint is Some && s.checkpoint != c.checkpoint)
}

/// The context after following a coordination state.
pub open spec fn followed_state(c: ContextView, s: TrainingStateView) -> ContextView {
    ContextView {
        coordinator: s.coordinator,
        term: s.term,
        window: s.window,
        checkpoint_generation: max_int(
            c.checkpoint_generation as int,
            s.checkpoint_generation as int,
        ) as u64,
        checkpoint: if s.checkpoint_generation > c.checkpoint_generation {
            s.checkpoint
        } else if c.checkpoint is None && s.checkpoint_generation == c.checkpoint_generation {
            s.checkpoint
        } else {
            c.checkpoint
        },
        shard_summaries: with_newer(c.shard_summaries, s.shards),
        ..c
    }
}

/// The hash of the first shard of a state, or the unset hash.
pub open spec fn first_hash(shards: Seq<TrainingShardSummaryView>) -> ArtifactId {
    if shards.len() > 0 {
        shards[0].state_hash
    } else {
        unsigned_hash()
    }
}

/// The acknowledgement of a merged state.
pub open spec fn state_ack(node: NodeId, s: TrainingStateView) -> TrainingAck {
    TrainingAck {
        job_id: s.job_id,
        peer: node,
        term: s.term,
        kind: TrainingAckKind::State { window: s.window, state_hash: first_hash(s.shards) },
    }
}

/// Follow a coordination state. The result is the merged state to persist and
/// the acknowledgement to send; there is none where the state is ignored.
pub fn handle_state(
    context: &mut Context,
    node: NodeId,
    peer: NodeId,
    state: &TrainingState,
) -> (r: Option<(TrainingState, TrainingAck)>)
    ensures
        ({
            let c = old(context)@;
            match r {
                Some((merged, ack)) => {
                    &&& !state_ignored(c, peer, state@)
                    &&& final(context)@ == followed_state(c, state@)
                    &&& merged@ == state_of(followed_state(c, state@))
                    &&& ack == state_ack(node, merged@)
                },
                None => state_ignored(c, peer, state@) && final(context)@ == c,
            }
        }),
{
    if peer != state.coordinator || state.job_id != context.start.job_id || state.branch
        != context.branch || state.term < context.term || (state.term == context.term
        && state.window < context.window) || (state.term == context.term
        && state.checkpoint_generation == context.checkpoint_generation
        && state.checkpoint.is_some() && context.checkpoint.is_some() && state.checkpoint
        != context.checkpoint) {
        return None;
    }
    context.coordinator = state.coordinator;
    context.term = state.term;
    context.window = state.window;
    if state.checkpoint_generation > context.checkpoint_generation {
        context.checkpoint_generation = state.checkpoint_generation;
        context.checkpoint = state.checkpoint;
    } else if context.checkpoint.is_none() && state.checkpoint_generation
        == context.checkpoint_generation {
        context.checkpoint = state.checkpoint;
    }
    merge_newer(&mut context.shard_summaries, &state.shards);
    let merged = context.state();
    assert(merged@.shards.len() == merged.shards@.len());
    let state_hash = if merged.shards.len() > 0 {
        assert(merged@.shards[0] == merged.shards@[0]@);
        merged.shards[0].state_hash
    } else {
        ArtifactId::unsigned()
    };
    let ack = TrainingAck {
        job_id: merged.job_id,
        peer: node,
        term: merged.term,
        kind: TrainingAckKind::State { window: merged.window, state_hash },
    };
    Some((merged, ack))
}

/// An election request that this node answers.
pub open spec fn election_relevant(c: ContextView, peer: NodeId, e: TrainingElection) -> bool {
    &&& peer == e.candidate
    &&& e.job_id == c.start.job_id
    &&& e.membership_epoch == c.start.membership_epoch
    &&& e.branch == c.branch
    &&& c.start.participants.contains(e.candidate)
}

/// The vote on an election request: a newer term is always granted, an older
/// one only to the candidate that this node has already voted for in it.
pub open spec fn vote_granted(c: ContextView, e: TrainingElection) -> bool {
    e.term > c.term || (e.term == c.voted_term && c.voted_candidate == Some(e.candidate))
}

/// The answer to an election request.
#[derive(Debug, PartialEq, Eq)]
pub struct VoteReply {
    pub ack: TrainingAck,
    /// The state that a candidate is sent with a granted vote.
    pub recovery: Option<TrainingState>,
}

/// The contents of a [`VoteReply`].
#[verifier::ext_equal]
pub struct VoteReplyView {
    pub ack: TrainingAck,
    pub recovery: Option<TrainingStateView>,
}

impl View for VoteReply {
    type V = VoteReplyView;

    open spec fn view(&self) -> VoteReplyView {
        VoteReplyView { ack: self.ack, recovery: opt_view(self.recovery) }
    }
}

/// The context after an election request: a vote in a later term is remembered,
/// and the active term stays as it is.
pub open spec fn voted(c: ContextView, peer: NodeId, e: TrainingElection) -> ContextView {
    if election_relevant(c, peer, e) && e.term > c.term {
        ContextView { voted_term: e.term, voted_candidate: Some(e.candidate), ..c }
    } else {
        c
    }
}

/// The answer to an election request. A candidate that gets the vote is told the
/// state of the voter as well.
pub open spec fn vote_reply(
    c: ContextView,
    node: NodeId,
    peer: NodeId,
    e: TrainingElection,
) -> Option<VoteReplyView> {
    let granted = vote_granted(c, e);
    if election_relevant(c, peer, e) {
        Some(
            VoteReplyView {
                ack: TrainingAck {
                    job_id: e.job_id,
                    peer: node,
                    term: e.term,
                    kind: TrainingAckKind::Vote {
                        candidate: e.candidate,
                        term: e.term,
                        last_window: c.window,
                        granted,
                    },
                },
                recovery: if granted {
                    Some(state_of(c))
                } else {
                    None
                },
            },
        )
    } else {
        None
    }
}

/// Vote on an election request.
pub fn handle_election(
    context: &mut Context,
    node: NodeId,
    peer: NodeId,
    election: &TrainingElection,
) -> (r: Option<VoteReply>)
    ensures
        opt_view(r) == vote_reply(old(context)@, node, peer, *election),
        final(context)@ == voted(old(context)@, peer, *election),
{
    if peer != election.candidate || election.job_id != context.start.job_id
        || election.membership_epoch != context.start.membership_epoch || election.branch
        != context.branch || !contains_id(&context.start.participants, election.candidate) {
        return None;
    }
    let recovery = context.state();
    let granted = if election.term > context.term {
        context.voted_term = election.term;
        context.voted_candidate = Some(election.candidate);
        true
    } else {
        election.term == context.voted_term && context.voted_candidate == Some(election.candidate)
    };
    let ack = TrainingAck {
        job_id: election.job_id,
        peer: node,
        term: election.term,
        kind: TrainingAckKind::Vote {
            candidate: election.candidate,
            term: election.term,
            last_window: context.window,
            granted,
        },
    };
    Some(
        VoteReply {
            ack,
            recovery: if granted {
                Some(recovery)
            } else {
                None
            },
        },
    )
}

/// A vote that arrives outside a campaign still raises the term voted in.
pub fn note_ack(context: &mut Context, ack: &TrainingAck)
    ensures
        final(context)@ == (ContextView {
            voted_term: if ack.kind is Vote {
                max_int(old(context)@.voted_term as int, ack.term as int) as u64
            } else {
                old(context)@.voted_term
            },
            ..old(context)@
        }),
{
    match ack.kind {
        TrainingAckKind::Vote { .. } => {
            context.voted_term = max_u64(context.voted_term, ack.term);
        },
        _ => {},
    }
}

/// The largest shard artifact that a replica reads back.
pub const MAX_SHARD_ARTIFACT: u64 = 8_388_608;

/// An offer that this node answers.
pub open spec fn offer_relevant(c: ContextView, peer: NodeId, o: TrainingCheckpointOffer) -> bool {
    peer == o.creator && o.job_id == c.start.job_id && o.term >= c.term
}

/// Whether this node looks at an offer at all.
pub fn considers_offer(context: &Context, peer: NodeId, offer: &TrainingCheckpointOffer) -> (r:
    bool)
    ensures
        r == offer_relevant(context@, peer, *offer),
{
    peer == offer.creator && offer.job_id == context.start.job_id && offer.term >= context.term
}

/// A shard state read out of an offered artifact.
#[derive(Clone, Copy, Debug, PartialEq, Eq, Structural)]
pub struct OfferedShard {
    /// The size of the artifact.
    pub size: u64,
    pub state: TrainingShardState,
    /// The hash of the content of the state.
    pub computed: ArtifactId,
}

/// An offered shard state that this node keeps for itself.
pub open spec fn offered_state_kept(c: ContextView, o: OfferedShard) -> bool {
    &&& o.size <= MAX_SHARD_ARTIFACT
    &&& o.state.job_id == c.start.job_id
    &&& o.state.branch == c.branch
    &&& o.state.shard_id == c.assignment.shard_id
    &&& o.state.generation >= c.generation
    &&& o.computed == o.state.state_hash
}

/// The acknowledgement that this node holds `artifact`.
pub open spec fn checkpoint_ack(
    job_id: crate::base::ids::JobId,
    node: NodeId,
    term: u64,
    artifact: ArtifactId,
) -> TrainingAck {
    TrainingAck { job_id, peer: node, term, kind: TrainingAckKind::Checkpoint { artifact } }
}

/// Answer an offer whose artifact has been fetched. `verified` tells whether
/// the artifact is held and intact, `shard` what could be read out of it. The
/// results are whether to persist the state and the acknowledgement to send.
pub fn handle_checkpoint_offer(
    context: &Context,
    node: NodeId,
    peer: NodeId,
    offer: &TrainingCheckpointOffer,
    verified: bool,
    shard: Option<OfferedShard>,
) -> (r: (bool, Option<TrainingAck>))
    ensures
        ({
            let answered = offer_relevant(context@, peer, *offer) && verified;
            &&& r.0 == (answered && shard is Some && offered_state_kept(context@, shard->0))
            &&& r.1 == (if answered {
                Some(checkpoint_ack(offer.job_id, node, offer.term, offer.artifact))
            } else {
                None
            })
        }),
{
    if !considers_offer(context, peer, offer) || !verified {
        return (false, None);
    }
    let kept = match shard {
        Some(found) => found.size <= MAX_SHARD_ARTIFACT && found.state.job_id
            == context.start.job_id && found.state.branch == context.branch
            && found.state.shard_id == context.assignment.shard_id && found.state.generation
            >= context.generation && found.computed == found.state.state_hash,
        None => false,
    };
    let ack = TrainingAck {
        job_id: offer.job_id,
        peer: node,
        term: offer.term,
        kind: TrainingAckKind::Checkpoint { artifact: offer.artifact },
    };
    (kept, Some(ack))
}

/// The summary of a shard as a checkpoint records it.
pub open spec fn checkpoint_summary(s: TrainingCheckpointShardView) -> TrainingShardSummaryView {
    TrainingShardSummaryView {
        shard_id: s.shard_id,
        generation: s.generation,
        state_hash: s.artifact,
        providers: s.providers,
    }
}

/// The summaries of the shards of a checkpoint.
pub open spec fn checkpoint_summaries(shards: Seq<TrainingCheckpointShardView>) -> Seq<
    TrainingShardSummaryView,
> {
    shards.map_values(|s: TrainingCheckpointShardView| checkpoint_summary(s))
}

/// Every shard of a checkpoint has reached the last window.
pub open spec fn shards_complete(
    shards: Seq<TrainingCheckpointShardView>,
    max_windows: u64,
) -> bool {
    forall|i: int| 0 <= i < shards.len() ==> (#[trigger] shards[i]).generation >= max_windows
}

/// Whether every shard of a checkpoint has reached the last window.
pub fn all_shards_complete(shards: &Vec<TrainingCheckpointShard>, max_windows: u64) -> (r: bool)
    ensures
        r == shards_complete(views(shards@), max_windows),
{
    let mut i: usize = 0;
    while i < shards.len()
        invariant
            0 <= i <= shards@.len(),
            forall|j: int|
                0 <= j < i ==> (#[trigger] views(shards@)[j]).generation >= max_windows,
        decreases shards@.len() - i,
    {
        assert(views(shards@)[i as int] == shards@[i as int]@);
        if shards[i].generation < max_windows {
            return false;
        }
        i += 1;
    }
    true
}

/// A checkpoint commit that this node follows. `computed` is the hash of the
/// content of the manifest.
pub open spec fn commit_accepted(
    c: ContextView,
    peer: NodeId,
    commit: TrainingCheckpointCommitView,
    computed: ArtifactId,
) -> bool {
    &&& peer == commit.coordinator
    &&& commit.job_id == c.start.job_id
    &&& commit.branch == c.branch
    &&& commit.term >= c.term
    &&& commit.manifest.checkpoint_generation >= c.checkpoint_generation
    &&& computed == commit.manifest.hash
}

/// The context after following a checkpoint commit.
pub open spec fn followed_commit(
    c: ContextView,
    commit: TrainingCheckpointCommitView,
) -> ContextView {
    ContextView {
        term: commit.term,
        coordinator: commit.coordinator,
        window: max_int(c.window as int, commit.manifest.model_generation as int) as u64,
        checkpoint_generation: commit.manifest.checkpoint_generation,
        checkpoint: Some(commit.manifest.hash),
        shard_summaries: with_summaries(
            c.shard_summaries,
            checkpoint_summaries(commit.manifest.shards),
        ),
        final_checkpoint_committed: commit.manifest.checkpoint_generation >= final_generation(
            c.start,
        ) && shards_complete(commit.manifest.shards, c.start.max_windows),
        ..c
    }
}

fn summaries_of_checkpoint(shards: &Vec<TrainingCheckpointShard>) -> (r: Vec<TrainingShardSummary>)
    ensures
        views(r@) == checkpoint_summaries(views(shards@)),
{
    let mut out: Vec<TrainingShardSummary> = Vec::new();
    let mut i: usize = 0;
    let ghost s = checkpoint_summaries(views(shards@));
    while i < shards.len()
        invariant
            0 <= i <= shards@.len(),
            s == checkpoint_summaries(views(shards@)),
            views(out@) == s.take(i as int),
        decreases shards@.len() - i,
    {
        let shard = &shards[i];
        let summary = TrainingShardSummary {
            shard_id: shard.shard_id,
            generation: shard.generation,
            state_hash: shard.artifact,
            providers: shard.providers.clone(),
        };
        proof {
            crate::base::search::lemma_views_push(out@, summary);
            assert(summary@ == checkpoint_summary(shards@[i as int]@));
            assert(s.take(i as int + 1) =~= s.take(i as int).push(summary@));
        }
        out.push(summary);
        i += 1;
    }
    assert(s.take(i as int) =~= s);
    out
}

/// Follow a checkpoint commit. The result is the state to persist and the
/// acknowledgement to send; there is none where the commit is not followed.
pub fn handle_checkpoint_commit(
    context: &mut Context,
    node: NodeId,
    peer: NodeId,
    commit: &TrainingCheckpointCommit,
    computed: ArtifactId,
) -> (r: Option<(TrainingState, TrainingAck)>)
    requires
        old(context).start.checkpoint_every > 0,
    ensures
        ({
            let c = old(context)@;
            match r {
                Some((state, ack)) => {
                    &&& commit_accepted(c, peer, commit@, computed)
                    &&& final(context)@ == followed_commit(c, commit@)
                    &&& state@ == state_of(followed_commit(c, commit@))
                    &&& ack == checkpoint_ack(
                        commit@.job_id,
                        node,
                        commit@.term,
                        commit@.manifest.hash,
                    )
                },
                None => !commit_accepted(c, peer, commit@, computed) && final(context)@ == c,
            }
        }),
{
    if peer != commit.coordinator || commit.job_id != context.start.job_id || commit.branch
        != context.branch || commit.term < context.term || commit.manifest.checkpoint_generation
        < context.checkpoint_generation || computed != commit.manifest.hash {
        return None;
    }
    context.term = commit.term;
    context.coordinator = commit.coordinator;
    context.window = max_u64(context.window, commit.manifest.model_generation);
    context.checkpoint_generation = commit.manifest.checkpoint_generation;
    context.checkpoint = Some(commit.manifest.hash);
    let summaries = summaries_of_checkpoint(&commit.manifest.shards);
    insert_summaries(&mut context.shard_summaries, &summaries);
    context.final_checkpoint_committed = commit.manifest.checkpoint_generation
        >= final_checkpoint_generation(&context.start) && all_shards_complete(
        &commit.manifest.shards,
        context.start.max_windows,
    );
    let state = context.state();
    let ack = TrainingAck {
        job_id: commit.job_id,
        peer: node,
        term: commit.term,
        kind: TrainingAckKind::Checkpoint { artifact: commit.manifest.hash },
    };
    Some((state, ack))
}

/// The coordination position of a context: its term, then its window.
pub open spec fn not_behind(a: ContextView, b: ContextView) -> bool {
    a.term > b.term || (a.term == b.term && a.window >= b.window)
}

/// Following a window, a state or a checkpoint commit never moves the term
/// back, nor the window within a term, nor the checkpoint generation, nor to
/// another job, branch or membership.
pub proof fn law_messages_move_forward(
    c: ContextView,
    node: NodeId,
    peer: NodeId,
    w: TrainingWindowView,
    s: TrainingStateView,
    commit: TrainingCheckpointCommitView,
    computed: ArtifactId,
)
    ensures
        !window_rejected(c, node, peer, w) ==> {
            let n = entered_window(c, w);
            not_behind(n, c) && n.checkpoint_generation == c.checkpoint_generation && n.branch
                == c.branch && n.start == c.start
        },
        !state_ignored(c, peer, s) ==> {
            let n = followed_state(c, s);
            not_behind(n, c) && n.checkpoint_generation >= c.checkpoint_generation && n.branch
                == c.branch && n.start == c.start
        },
        commit_accepted(c, peer, commit, computed) ==> {
            let n = followed_commit(c, commit);
            not_behind(n, c) && n.checkpoint_generation >= c.checkpoint_generation && n.branch
                == c.branch && n.start == c.start
        },
{
}

/// Following a coordination state never moves a shard to an older generation.
pub proof fn law_state_keeps_shard_generations(c: ContextView, s: TrainingStateView, shard: u16)
    requires
        c.shard_summaries.contains_key(shard),
    ensures
        followed_state(c, s).shard_summaries.contains_key(shard),
        followed_state(c, s).shard_summaries[shard].generation
            >= c.shard_summaries[shard].generation,
{
    crate::reference::context::law_newer_summaries_advance(c.shard_summaries, s.shards);
}

/// A worker follows the window that its coordinator commands for its group, and no
/// window of an older term, of another branch or shard, or that leaves it out.
pub proof fn law_windows_are_followed(
    c: ContextView,
    node: NodeId,
    peer: NodeId,
    w: TrainingWindowView,
)
    ensures
        !window_rejected(c, node, peer, w) ==> {
            &&& c.role is Worker
            &&& peer == w.coordinator || peer == w.aggregator
            &&& w.term >= c.term
            &&& w.branch == c.branch
            &&& w.membership_epoch == c.start.membership_epoch
            &&& w.shard_id == c.assignment.shard_id
            &&& w.members.contains(node)
            &&& w.coordinator == c.start.coordinator || c.start.participants.contains(w.coordinator)
        },
        c.role is Worker && (peer == w.coordinator || (peer == w.aggregator && w.members.contains(
            peer,
        ))) && (w.coordinator == c.start.coordinator || c.start.participants.contains(
            w.coordinator,
        )) && (forall|i: int|
            0 <= i < w.members.len() ==> c.start.participants.contains(#[trigger] w.members[i]))
            && w.term >= c.term && w.membership_epoch == c.start.membership_epoch && w.branch
            == c.branch && w.members.contains(node) && w.shard_id == c.assignment.shard_id
            ==> !window_rejected(c, node, peer, w),
{
}

/// With a window a worker takes over a newer term and its coordinator, forgetting who had
/// failed; it notes the window of the group and trains nothing yet.
pub proof fn law_entering_a_window(c: ContextView, w: TrainingWindowView, other: u16)
    ensures
        ({
            let e = entered_window(c, w);
            &&& e.window >= c.window && e.window >= w.window
            &&& e.window == c.window || e.window == w.window
            &&& e.group_progress.contains_key(w.group_id)
            &&& e.group_progress[w.group_id] == w.window
            &&& other != w.group_id ==> e.group_progress.contains_key(other)
                == c.group_progress.contains_key(other) && e.group_progress[other]
                == c.group_progress[other]
            &&& w.term > c.term ==> e.term == w.term && e.coordinator == w.coordinator && e.failed
                == Set::<NodeId>::empty()
            &&& w.term <= c.term ==> e.term == c.term && e.coordinator == c.coordinator && e.failed
                == c.failed
            &&& e.value == c.value && e.optimizer == c.optimizer && e.generation == c.generation
            &&& e.start == c.start
        }),
{
}

/// A closed window leaves the aggregator with the values of the aggregate and with its
/// summary, and the next window of the group starts from there.
pub proof fn law_closing_a_window(
    c: ContextView,
    node: NodeId,
    group: TrainingGroupView,
    current: TrainingWindowView,
    a: TrainingAggregateView,
)
    requires
        current.window < u64::MAX,
    ensures
        ({
            let after = closed_window(c, current, a);
            let summary = after.shard_summaries[a.shard_id];
            let next = following_window(after, node, group, current, a);
            &&& after.value == a.value
            &&& after.optimizer == a.optimizer
            &&& after.generation == a.generation
            &&& after.window >= c.window && after.window >= current.window
            &&& after.window == c.window || after.window == current.window
            &&& after.shard_summaries.contains_key(a.shard_id)
            &&& summary.shard_id == a.shard_id
            &&& summary.generation == a.generation
            &&& summary.state_hash == a.state_artifact
            &&& summary.providers.contains(a.aggregator)
            &&& next.window == current.window + 1
            &&& next.base_generation == a.generation
            &&& next.aggregator == node
            &&& next.members == group.members
            &&& next.group_id == group.group_id && next.shard_id == group.shard_id
            &&& next.job_id == c.start.job_id && next.membership_epoch == c.start.membership_epoch
            &&& next.term == c.term && next.coordinator == c.coordinator && next.branch == c.branch
            &&& next.local_steps == c.start.local_steps
            &&& next.max_staleness == c.start.max_staleness
        }),
{
    lemma_aggregator_listed(a.aggregator, a.replicas);
}

proof fn lemma_aggregator_listed(aggregator: NodeId, replicas: Seq<NodeId>)
    ensures
        provider_list(aggregator, replicas).len() > 0,
        provider_list(aggregator, replicas)[0] == aggregator,
    decreases replicas.len(),
{
    if replicas.len() > 0 {
        lemma_aggregator_listed(aggregator, replicas.drop_last());
    }
}

/// A worker takes over a shard state exactly from its owner, for its own shard, job and
/// branch, of no older term or generation, with the hash of its content; offered ones
/// likewise, up to 8 MiB.
pub proof fn law_shard_states_taken_over(
    c: ContextView,
    peer: NodeId,
    s: TrainingShardState,
    computed: ArtifactId,
    o: OfferedShard,
)
    ensures
        shard_state_accepted(c, peer, s, computed) <==> (peer == s.owner && s.job_id
            == c.start.job_id && s.branch == c.branch && s.shard_id == c.assignment.shard_id
            && s.term >= c.term && s.generation >= c.generation && computed == s.state_hash),
        offered_state_kept(c, o) <==> (o.size <= 8_388_608 && o.state.job_id == c.start.job_id
            && o.state.branch == c.branch && o.state.shard_id == c.assignment.shard_id
            && o.state.generation >= c.generation && o.computed == o.state.state_hash),
{
}

/// A coordination state is followed only from its coordinator, for this job and branch,
/// and when it is of a later term, or of this one and no earlier window.
pub proof fn law_states_are_followed(c: ContextView, peer: NodeId, s: TrainingStateView)
    ensures
        !state_ignored(c, peer, s) ==> peer == s.coordinator && s.job_id == c.start.job_id
            && s.branch == c.branch && (s.term > c.term || (s.term == c.term && s.window
            >= c.window)),
        peer == s.coordinator && s.job_id == c.start.job_id && s.branch == c.branch && s.term
            > c.term ==> !state_ignored(c, peer, s),
        peer == s.coordinator && s.job_id == c.start.job_id && s.branch == c.branch && s.term
            == c.term && s.window >= c.window && (s.checkpoint_generation
            != c.checkpoint_generation || s.checkpoint == c.checkpoint || c.checkpoint is None
            || s.checkpoint is None) ==> !state_ignored(c, peer, s),
        ({
            let f = followed_state(c, s);
            &&& f.coordinator == s.coordinator
            &&& f.term == s.term
            &&& f.window == s.window
            &&& s.checkpoint_generation > c.checkpoint_generation ==> f.checkpoint_generation
                == s.checkpoint_generation && f.checkpoint == s.checkpoint
            &&& s.checkpoint_generation <= c.checkpoint_generation ==> f.checkpoint_generation
                == c.checkpoint_generation
            &&& s.checkpoint_generation < c.checkpoint_generation ==> f.checkpoint == c.checkpoint
            &&& c.checkpoint is Some && s.checkpoint_generation <= c.checkpoint_generation
                ==> f.checkpoint == c.checkpoint
            &&& c.checkpoint is None && s.checkpoint_generation == c.checkpoint_generation
                ==> f.checkpoint == s.checkpoint
            &&& f.value == c.value && f.start == c.start && f.role == c.role
        }),
{
}

/// The acknowledgement of a state names the state's window and the hash of its first
/// shard; it is one that the sender of the state counts.
pub proof fn law_state_is_acknowledged(node: NodeId, s: TrainingStateView)
    ensures
        ({
            let ack = state_ack(node, s);
            &&& ack.job_id == s.job_id
            &&& ack.peer == node
            &&& ack.term == s.term
            &&& ack.kind is State
            &&& ack.kind->State_window == s.window
            &&& s.shards.len() > 0 ==> ack.kind->State_state_hash == s.shards[0].state_hash
        }),
{
}

/// A vote goes to a participant that asks for itself, for this job and branch: in a later
/// term always, otherwise only again to the one voted for in that term. A vote in a
/// later term is remembered, and the term in force stays.
pub proof fn law_votes_are_given_once(
    c: ContextView,
    node: NodeId,
    peer: NodeId,
    e: TrainingElection,
)
    ensures
        vote_reply(c, node, peer, e) is Some <==> (peer == e.candidate && e.job_id == c.start.job_id
            && e.membership_epoch == c.start.membership_epoch && e.branch == c.branch
            && c.start.participants.contains(e.candidate)),
        vote_reply(c, node, peer, e) matches Some(reply) ==> {
            &&& reply.ack.job_id == e.job_id
            &&& reply.ack.peer == node
            &&& reply.ack.term == e.term
            &&& reply.ack.kind is Vote
            &&& reply.ack.kind->candidate == e.candidate
            &&& reply.ack.kind->Vote_term == e.term
            &&& reply.ack.kind->last_window == c.window
            &&& reply.ack.kind->granted <==> (e.term > c.term || (e.term == c.voted_term
                && c.voted_candidate == Some(e.candidate)))
            &&& reply.recovery is Some <==> reply.ack.kind->granted
            &&& reply.recovery matches Some(s) ==> s.window == c.window && s.term == c.term
            &&& e.term > c.term ==> voted(c, peer, e).voted_term == e.term && voted(
                c,
                peer,
                e,
            ).voted_candidate == Some(e.candidate)
        },
        e.term <= c.term ==> voted(c, peer, e) == c,
        vote_reply(c, node, peer, e) is None ==> voted(c, peer, e) == c,
        voted(c, peer, e).term == c.term,
        voted(c, peer, e).coordinator == c.coordinator,
{
}

/// An offer of a peer is answered when it makes the offer itself, for this job, in no
/// older term; the answer names the artifact that is held.
pub proof fn law_offers_are_answered(
    c: ContextView,
    peer: NodeId,
    o: TrainingCheckpointOffer,
    node: NodeId,
)
    ensures
        offer_relevant(c, peer, o) <==> peer == o.creator && o.job_id == c.start.job_id && o.term
            >= c.term,
        ({
            let ack = checkpoint_ack(o.job_id, node, o.term, o.artifact);
            &&& ack.job_id == o.job_id
            &&& ack.peer == node
            &&& ack.term == o.term
            &&& ack.kind == (TrainingAckKind::Checkpoint { artifact: o.artifact })
        }),
{
}

/// A commit is followed only from its coordinator, for this job and branch, of no older
/// term or generation, with the hash of its manifest. The follower then has the
/// manifest's checkpoint, and every shard of it with its artifact and providers.
pub proof fn law_commits_are_followed(
    c: ContextView,
    peer: NodeId,
    commit: TrainingCheckpointCommitView,
    computed: ArtifactId,
    i: int,
)
    ensures
        commit_accepted(c, peer, commit, computed) <==> (peer == commit.coordinator && commit.job_id
            == c.start.job_id && commit.branch == c.branch && commit.term >= c.term
            && commit.manifest.checkpoint_generation >= c.checkpoint_generation && computed
            == commit.manifest.hash),
        ({
            let f = followed_commit(c, commit);
            let shards = commit.manifest.shards;
            &&& f.checkpoint == Some(commit.manifest.hash)
            &&& f.checkpoint_generation == commit.manifest.checkpoint_generation
            &&& f.term == commit.term
            &&& f.coordinator == commit.coordinator
            &&& f.window >= c.window && f.window >= commit.manifest.model_generation
            &&& f.window == c.window || f.window == commit.manifest.model_generation
            &&& f.final_checkpoint_committed ==> 0 <= i < shards.len() ==> shards[i].generation
                >= c.start.max_windows
            &&& f.final_checkpoint_committed ==> commit.manifest.checkpoint_generation
                >= final_generation(c.start)
            &&& (forall|k: int|
                0 <= k < shards.len() ==> (#[trigger] shards[k]).generation >= c.start.max_windows)
                && commit.manifest.checkpoint_generation >= final_generation(c.start)
                ==> f.final_checkpoint_committed
            &&& 0 <= i < shards.len() ==> checkpoint_summaries(shards)[i].shard_id
                == shards[i].shard_id && checkpoint_summaries(shards)[i].generation
                == shards[i].generation && checkpoint_summaries(shards)[i].state_hash
                == shards[i].artifact && checkpoint_summaries(shards)[i].providers
                == shards[i].providers
            &&& shards.len() > 0 ==> f.shard_summaries.contains_key(shards.last().shard_id)
                && f.shard_summaries[shards.last().shard_id].state_hash == shards.last().artifact
                && f.shard_summaries[shards.last().shard_id].providers == shards.last().providers
        }),
{
    let shards = commit.manifest.shards;
    if shards.len() > 0 {
        assert(checkpoint_summaries(shards).last() == checkpoint_summary(shards.last()));
    }
}

/// The summary of an aggregate names as providers the aggregator and every replica, and
/// nobody else.
pub proof fn law_summary_names_the_providers(a: TrainingAggregateView, peer: NodeId)
    ensures
        aggregate_summary(a).shard_id == a.shard_id,
        aggregate_summary(a).generation == a.generation,
        aggregate_summary(a).state_hash == a.state_artifact,
        aggregate_summary(a).providers.contains(peer) <==> peer == a.aggregator
            || a.replicas.contains(peer),
{
    crate::reference::checkpoint::lemma_provider_listed(a.aggregator, a.replicas, peer);
}

/// What is followed is merged shard by shard: a state or recovery metadata where it is
/// newer, a checkpoint in any case; a closed window changes its own shard alone.
pub proof fn law_followed_shards_are_merged(
    c: ContextView,
    s: TrainingStateView,
    commit: TrainingCheckpointCommitView,
    current: TrainingWindowView,
    a: TrainingAggregateView,
    other: u16,
)
    ensures
        followed_state(c, s).shard_summaries == with_newer(c.shard_summaries, s.shards),
        followed_commit(c, commit).shard_summaries == with_summaries(
            c.shard_summaries,
            checkpoint_summaries(commit.manifest.shards),
        ),
        other != a.shard_id ==> closed_window(c, current, a).shard_summaries.contains_key(other)
            == c.shard_summaries.contains_key(other) && closed_window(
            c,
            current,
            a,
        ).shard_summaries[other] == c.shard_summaries[other],
        followed_commit(c, commit).value == c.value,
        followed_commit(c, commit).start == c.start,
        followed_state(c, s).failed == c.failed,
        followed_state(c, s).optimizer == c.optimizer,
        followed_state(c, s).generation == c.generation,
{
}

} // verus!
