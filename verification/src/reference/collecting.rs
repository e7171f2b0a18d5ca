//! The window of an aggregator: it gathers the updates of its group, combines
//! them, has the new state stored and replicated, and publishes the aggregate.

use crate::base::arith::{abs_int, sat_u64};
use crate::base::ids::{unsigned_hash, ArtifactId, NodeId};
use crate::base::record::Duplicate;
use crate::reference::aggregator::{
    artifact_offer, close_replica, collection_disconnected, collection_timed_out, combine_updates,
    combined_state, drop_member, finish_window, is_collecting, is_replica_target, losses_fit,
    law_one_update_per_worker, losses_in_range, loss_total, offer_artifact, on_replication_event,
    open_collection, opened_collection, optimizers_of, receive_update, replica_target,
    replication_step, required_providers, update_fits, value_bound, values_of, window_aggregate,
    without_member, workers_of, acceptable_update, Collection, CollectError, CollectionView, ReplicationEvent, TooFewProviders,
};
use crate::reference::context::{Context, ContextView};
use crate::reference::coordinator::{peer_restored, restore_training_peer};
use crate::reference::sgd::{is_median, lemma_median_exists, lemma_median_unique};
use crate::reference::types::{
    TrainingAck, TrainingAggregate, TrainingAggregateView, TrainingCheckpointOffer,
    TrainingElection, TrainingGroup, TrainingGroupView, TrainingShardState, TrainingUpdate,
    TrainingWindow, TrainingWindowView,
};
use crate::reference::worker::{handle_election, vote_reply, voted, VoteReply, VoteReplyView};
use vstd::prelude::*;

verus! {

/// Where the aggregator stands.
#[derive(Clone, Copy, Debug, PartialEq, Eq, Structural)]
pub enum CollectStage {
    /// Updates come in.
    Gathering,
    /// An expected member went away and is being looked for.
    Restoring(NodeId),
    /// The combined state is being stored and sent to the group.
    Storing,
    /// The artifact of the state is being offered to a member.
    Offering,
    /// The member is to confirm that it holds the artifact.
    Confirming,
    /// There is nothing left to do.
    Over,
}

/// A window of an aggregator.
#[derive(Debug)]
pub struct CollectRun {
    pub node: NodeId,
    pub scale: i64,
    pub group: TrainingGroup,
    pub window: TrainingWindow,
    pub collection: Collection,
    pub stage: CollectStage,
    /// The combined state.
    pub state: Option<TrainingShardState>,
    /// Its artifact, once it is stored.
    pub artifact: ArtifactId,
    /// Everyone who holds the artifact.
    pub replicas: Vec<NodeId>,
    /// How many members of the group have been offered it.
    pub at: usize,
}

/// The contents of a [`CollectRun`].
#[verifier::ext_equal]
pub struct CollectRunView {
    pub node: NodeId,
    pub scale: i64,
    pub group: TrainingGroupView,
    pub window: TrainingWindowView,
    pub collection: CollectionView,
    pub stage: CollectStage,
    pub state: Option<TrainingShardState>,
    pub artifact: ArtifactId,
    pub replicas: Seq<NodeId>,
    pub at: int,
}

impl View for CollectRun {
    type V = CollectRunView;

    open spec fn view(&self) -> CollectRunView {
        CollectRunView {
            node: self.node,
            scale: self.scale,
            group: self.group@,
            window: self.window@,
            collection: self.collection@,
            stage: self.stage,
            state: self.state,
            artifact: self.artifact,
            replicas: self.replicas@,
            at: self.at as int,
        }
    }
}

/// Why a window yields no aggregate.
#[derive(Clone, Copy, Debug, PartialEq, Eq, Structural)]
pub enum CollectFailure {
    /// What was to be done could not be done.
    ActionFailed,
    /// The combined value is out of bounds.
    ExceedsBound,
    /// There is no update at all.
    NoUpdates,
    /// Too few members hold the new state.
    TooFewProviders(TooFewProviders),
}

/// What happened.
#[derive(Clone, Copy, Debug, PartialEq, Eq, Structural)]
pub enum CollectEvent {
    /// An update came in. `admitted` is the answer of the admission policy.
    Update { peer: NodeId, update: TrainingUpdate, admitted: bool },
    Disconnected(NodeId),
    /// A peer was looked for.
    Reached { connected: bool, reconnected: bool },
    Election { peer: NodeId, election: TrainingElection },
    /// The combined state is stored, with this hash and as this artifact.
    Stored { state_hash: ArtifactId, artifact: ArtifactId },
    /// What was to be done could not be done.
    Failed,
    /// The offer was sent, or could not be sent.
    Offered(bool),
    Ack { peer: NodeId, ack: TrainingAck },
    Other,
    /// The time is over, or no more events come.
    TimedOut,
}

/// What the aggregator does next.
#[derive(Debug)]
pub enum CollectAction {
    /// Wait for the next event.
    Wait,
    /// Look for a peer.
    Restore(NodeId),
    /// Answer a request for a vote and wait on.
    Vote(VoteReply),
    /// Set the hash of the state, store it and send it to the live members.
    Store(TrainingShardState),
    /// Offer the artifact to a member.
    Offer { member: NodeId, offer: TrainingCheckpointOffer },
    /// Send the aggregate to the coordinator.
    Publish(TrainingAggregate),
    /// Give up.
    Fail(CollectFailure),
}

/// The contents of a [`CollectAction`].
#[verifier::ext_equal]
pub enum CollectActionView {
    Wait,
    Restore(NodeId),
    Vote(VoteReplyView),
    Store(TrainingShardState),
    Offer { member: NodeId, offer: TrainingCheckpointOffer },
    Publish(TrainingAggregateView),
    Fail(CollectFailure),
}

impl View for CollectAction {
    type V = CollectActionView;

    open spec fn view(&self) -> CollectActionView {
        match self {
            CollectAction::Wait => CollectActionView::Wait,
            CollectAction::Restore(peer) => CollectActionView::Restore(*peer),
            CollectAction::Vote(reply) => CollectActionView::Vote(reply@),
            CollectAction::Store(state) => CollectActionView::Store(*state),
            CollectAction::Offer { member, offer } => CollectActionView::Offer {
                member: *member,
                offer: *offer,
            },
            CollectAction::Publish(aggregate) => CollectActionView::Publish(aggregate@),
            CollectAction::Fail(failure) => CollectActionView::Fail(*failure),
        }
    }
}

/// The context, the run and the action after an event.
#[verifier::ext_equal]
pub struct CollectOutcome {
    pub context: ContextView,
    pub run: CollectRunView,
    pub action: CollectActionView,
}

/// The run goes on to `stage` with `action`.
pub open spec fn collect_on_to(
    c: ContextView,
    run: CollectRunView,
    stage: CollectStage,
    action: CollectActionView,
) -> CollectOutcome {
    CollectOutcome { context: c, run: CollectRunView { stage, ..run }, action }
}

/// The median of a list.
pub open spec fn median_of(values: Seq<i64>) -> i64 {
    choose|m: i64| is_median(values, m)
}

/// The updates are combined: the medians of the values and of the optimizer
/// states make the next state of the shard.
pub open spec fn combining(c: ContextView, run: CollectRunView) -> CollectOutcome {
    let updates = run.collection.updates;
    if updates.len() == 0 {
        collect_on_to(
            c,
            run,
            CollectStage::Over,
            CollectActionView::Fail(CollectFailure::NoUpdates),
        )
    } else {
        let value = median_of(values_of(updates));
        let optimizer = median_of(optimizers_of(updates));
        if abs_int(value as int) > value_bound(run.scale as int) {
            collect_on_to(
                c,
                run,
                CollectStage::Over,
                CollectActionView::Fail(CollectFailure::ExceedsBound),
            )
        } else {
            let state = combined_state(c, run.window, run.node, value, optimizer);
            collect_on_to(
                c,
                CollectRunView { state: Some(state), ..run },
                CollectStage::Storing,
                CollectActionView::Store(state),
            )
        }
    }
}

/// Updates are gathered until there are as many as members are expected.
pub open spec fn gathering(c: ContextView, run: CollectRunView) -> CollectOutcome {
    if run.collection.updates.len() < run.collection.expected.len() {
        collect_on_to(c, run, CollectStage::Gathering, CollectActionView::Wait)
    } else {
        combining(c, run)
    }
}

/// The first member from `at` on that is to hold the artifact.
pub open spec fn target_from(
    c: ContextView,
    node: NodeId,
    members: Seq<NodeId>,
    at: int,
) -> int
    decreases members.len() - at,
{
    if at < 0 || at >= members.len() || is_replica_target(c, node, members[at]) {
        at
    } else {
        target_from(c, node, members, at + 1)
    }
}

/// Every member has been offered the artifact: with enough providers the window
/// is closed.
pub open spec fn closing(
    c: ContextView,
    run: CollectRunView,
    state: TrainingShardState,
) -> CollectOutcome {
    let required = required_providers(c, run.group);
    if run.replicas.len() >= required {
        collect_on_to(
            ContextView {
                value: state.value,
                optimizer: state.optimizer,
                generation: state.generation,
                ..c
            },
            run,
            CollectStage::Over,
            CollectActionView::Publish(
                window_aggregate(
                    c,
                    run.group,
                    run.window,
                    run.node,
                    run.collection.updates,
                    state,
                    run.artifact,
                    run.replicas,
                ),
            ),
        )
    } else {
        collect_on_to(
            c,
            run,
            CollectStage::Over,
            CollectActionView::Fail(
                CollectFailure::TooFewProviders(
                    TooFewProviders {
                        shard_id: run.window.shard_id,
                        reached: run.replicas.len() as usize,
                        required: required as usize,
                    },
                ),
            ),
        )
    }
}

/// The next live member is offered the artifact.
pub open spec fn offering(
    c: ContextView,
    run: CollectRunView,
    state: TrainingShardState,
) -> CollectOutcome {
    let i = target_from(c, run.node, run.group.members, run.at);
    let next = CollectRunView { at: i, ..run };
    if 0 <= i < run.group.members.len() {
        collect_on_to(
            c,
            next,
            CollectStage::Offering,
            CollectActionView::Offer {
                member: run.group.members[i],
                offer: artifact_offer(c, state, run.node, run.artifact),
            },
        )
    } else {
        closing(c, next, state)
    }
}

/// The wait for a member is over: without its confirmation it counts as failed.
pub open spec fn passing_on(
    c: ContextView,
    run: CollectRunView,
    state: TrainingShardState,
    member: NodeId,
) -> CollectOutcome {
    offering(
        if run.replicas.contains(member) {
            c
        } else {
            without_member(c, member)
        },
        CollectRunView { at: run.at + 1, ..run },
        state,
    )
}

/// What comes in while a member is to confirm the artifact.
pub open spec fn replication_event(event: CollectEvent) -> ReplicationEvent {
    match event {
        CollectEvent::Ack { peer, ack } => ReplicationEvent::Ack { peer, ack },
        CollectEvent::Update { .. } => ReplicationEvent::Update,
        CollectEvent::Disconnected(peer) => ReplicationEvent::Disconnected(peer),
        _ => ReplicationEvent::Other,
    }
}

/// An update came in while updates are gathered.
pub open spec fn on_update(
    c: ContextView,
    run: CollectRunView,
    peer: NodeId,
    update: TrainingUpdate,
    admitted: bool,
) -> CollectOutcome {
    if acceptable_update(c, run.window, run.collection, peer, update) && admitted {
        gathering(
            c,
            CollectRunView {
                collection: CollectionView {
                    updates: run.collection.updates.push(update),
                    ..run.collection
                },
                ..run
            },
        )
    } else {
        gathering(
            ContextView { rejected_updates: sat_u64(c.rejected_updates + 1) as u64, ..c },
            run,
        )
    }
}

/// A peer went away while updates are gathered, for good or for a moment.
pub open spec fn on_loss(
    c: ContextView,
    run: CollectRunView,
    peer: NodeId,
    restored: bool,
) -> CollectOutcome {
    let expected = run.collection.expected.contains(peer);
    let back = expected && restored;
    gathering(
        ContextView {
            failed: if back {
                c.failed.remove(peer)
            } else {
                c.failed.insert(peer)
            },
            stragglers: if expected && !back {
                sat_u64(c.stragglers + 1) as u64
            } else {
                c.stragglers
            },
            ..c
        },
        run,
    )
}

/// A request for a vote is answered, and the wait goes on.
pub open spec fn on_request(
    c: ContextView,
    run: CollectRunView,
    peer: NodeId,
    e: TrainingElection,
) -> CollectOutcome {
    collect_on_to(
        voted(c, peer, e),
        run,
        run.stage,
        match vote_reply(c, run.node, peer, e) {
            Some(reply) => CollectActionView::Vote(reply),
            None => CollectActionView::Wait,
        },
    )
}

/// What comes in while a member is to confirm the artifact, or while the artifact
/// is being offered.
pub open spec fn replicating(
    c: ContextView,
    run: CollectRunView,
    state: TrainingShardState,
    member: NodeId,
    event: CollectEvent,
) -> CollectOutcome {
    let idle = collect_on_to(c, run, run.stage, CollectActionView::Wait);
    if run.stage == CollectStage::Offering {
        match event {
            CollectEvent::Offered(true) => collect_on_to(
                c,
                run,
                CollectStage::Confirming,
                CollectActionView::Wait,
            ),
            CollectEvent::Offered(false) => offering(
                without_member(c, member),
                CollectRunView { at: run.at + 1, ..run },
                state,
            ),
            _ => idle,
        }
    } else {
        match event {
            CollectEvent::TimedOut => passing_on(c, run, state, member),
            CollectEvent::Election { peer, election } => on_request(c, run, peer, election),
            _ => {
                let (after, replicas, over) = replication_step(
                    c,
                    run.replicas,
                    member,
                    run.artifact,
                    replication_event(event),
                );
                let next = CollectRunView { replicas, ..run };
                if over {
                    passing_on(after, next, state, member)
                } else {
                    collect_on_to(after, next, run.stage, CollectActionView::Wait)
                }
            },
        }
    }
}

/// What the aggregator does about an event.
pub open spec fn collect_step(c: ContextView, run: CollectRunView, event: CollectEvent) ->
    CollectOutcome {
    let idle = collect_on_to(c, run, run.stage, CollectActionView::Wait);
    match run.stage {
        CollectStage::Gathering => match event {
            CollectEvent::Update { peer, update, admitted } => on_update(
                c,
                run,
                peer,
                update,
                admitted,
            ),
            CollectEvent::Disconnected(peer) => if run.collection.expected.contains(peer) {
                collect_on_to(
                    c,
                    run,
                    CollectStage::Restoring(peer),
                    CollectActionView::Restore(peer),
                )
            } else {
                on_loss(c, run, peer, false)
            },
            CollectEvent::Election { peer, election } => on_request(c, run, peer, election),
            CollectEvent::TimedOut => combining(
                ContextView { stragglers: sat_u64(c.stragglers + 1) as u64, ..c },
                run,
            ),
            _ => idle,
        },
        CollectStage::Restoring(peer) => match event {
            CollectEvent::Reached { connected, reconnected } => on_loss(
                c,
                run,
                peer,
                peer_restored(c, peer, connected, reconnected),
            ),
            _ => idle,
        },
        CollectStage::Storing => match (event, run.state) {
            (CollectEvent::Stored { state_hash, artifact }, Some(state)) => {
                let stored = TrainingShardState { state_hash, ..state };
                offering(
                    c,
                    CollectRunView {
                        state: Some(stored),
                        artifact,
                        replicas: seq![run.node],
                        at: 0,
                        ..run
                    },
                    stored,
                )
            },
            (CollectEvent::Failed, _) => collect_on_to(
                c,
                run,
                CollectStage::Over,
                CollectActionView::Fail(CollectFailure::ActionFailed),
            ),
            _ => idle,
        },
        CollectStage::Offering | CollectStage::Confirming => match run.state {
            Some(state) if 0 <= run.at < run.group.members.len() => replicating(
                c,
                run,
                state,
                run.group.members[run.at],
                event,
            ),
            _ => idle,
        },
        CollectStage::Over => idle,
    }
}

/// The losses of the updates that are held can be added up.
pub open spec fn collect_wf(run: CollectRunView) -> bool {
    &&& 0 < run.scale
    &&& value_bound(run.scale as int) <= i64::MAX
    &&& 0 < run.collection.updates.len() < i64::MAX
    &&& losses_fit(run.collection.updates)
}

/// An update keeps the losses addable.
pub open spec fn update_adds_up(run: CollectRunView, event: CollectEvent) -> bool {
    event matches CollectEvent::Update { update, .. } ==> {
        &&& run.collection.updates.len() + 1 < i64::MAX
        &&& losses_fit(run.collection.updates.push(update))
    }
}

/// Whether an update keeps the losses addable.
pub fn keeps_losses_addable(run: &CollectRun, update: &TrainingUpdate) -> (r: bool)
    ensures
        forall|peer: NodeId, admitted: bool|
            r == #[trigger] update_adds_up(
                run@,
                CollectEvent::Update { peer, update: *update, admitted },
            ),
{
    let mut updates = run.collection.updates.clone();
    updates.push(*update);
    assert(updates@ == run@.collection.updates.push(*update));
    (updates.len() as u64) < i64::MAX as u64 && losses_in_range(&updates)
}

fn combine(context: &Context, run: &mut CollectRun) -> (r: CollectAction)
    requires
        0 < old(run).scale,
        value_bound(old(run).scale as int) <= i64::MAX,
    ensures
        (CollectOutcome { context: context@, run: final(run)@, action: r@ }) == combining(
            context@,
            old(run)@,
        ),
{
    let ghost updates = run.collection@.updates;
    match combine_updates(context, &run.window, &run.collection, run.node, run.scale) {
        Ok(state) => {
            proof {
                lemma_median_unique(
                    values_of(updates),
                    state.value,
                    median_of(values_of(updates)),
                );
                lemma_median_unique(
                    optimizers_of(updates),
                    state.optimizer,
                    median_of(optimizers_of(updates)),
                );
                if updates.len() == 0 {
                    assert(values_of(updates).contains(state.value));
                }
            }
            run.state = Some(state);
            run.stage = CollectStage::Storing;
            CollectAction::Store(state)
        },
        Err(CollectError::NoUpdates) => {
            run.stage = CollectStage::Over;
            CollectAction::Fail(CollectFailure::NoUpdates)
        },
        Err(CollectError::ExceedsBound) => {
            proof {
                let m = choose|m: i64|
                    #[trigger]
                    is_median(values_of(updates), m) && abs_int(m as int) > value_bound(
                        run.scale as int,
                    );
                lemma_median_unique(values_of(updates), m, median_of(values_of(updates)));
            }
            run.stage = CollectStage::Over;
            CollectAction::Fail(CollectFailure::ExceedsBound)
        },
    }
}

fn gather(context: &Context, run: &mut CollectRun) -> (r: CollectAction)
    requires
        0 < old(run).scale,
        value_bound(old(run).scale as int) <= i64::MAX,
    ensures
        (CollectOutcome { context: context@, run: final(run)@, action: r@ }) == gathering(
            context@,
            old(run)@,
        ),
{
    if is_collecting(&run.collection) {
        run.stage = CollectStage::Gathering;
        CollectAction::Wait
    } else {
        combine(context, run)
    }
}

fn next_target(context: &Context, node: NodeId, members: &Vec<NodeId>, start: usize) -> (r: usize)
    ensures
        r == target_from(context@, node, members@, start as int),
{
    let mut i: usize = start;
    while i < members.len() && !replica_target(context, node, members[i])
        invariant
            target_from(context@, node, members@, start as int) == target_from(
                context@,
                node,
                members@,
                i as int,
            ),
        decreases members@.len() - i,
    {
        i += 1;
    }
    i
}

fn offer_next(context: &mut Context, run: &mut CollectRun, state: &TrainingShardState) -> (r:
    CollectAction)
    requires
        collect_wf(old(run)@),
    ensures
        (CollectOutcome {
            context: final(context)@,
            run: final(run)@,
            action: r@,
        }) == offering(old(context)@, old(run)@, *state),
{
    run.at = next_target(context, run.node, &run.group.members, run.at);
    if run.at < run.group.members.len() {
        run.stage = CollectStage::Offering;
        return CollectAction::Offer {
            member: run.group.members[run.at],
            offer: offer_artifact(context, state, run.node, run.artifact),
        };
    }
    run.stage = CollectStage::Over;
    let replicas = run.replicas.clone();
    match finish_window(
        context,
        &run.group,
        &run.window,
        run.node,
        &run.collection,
        state,
        run.artifact,
        replicas,
    ) {
        Ok(aggregate) => CollectAction::Publish(aggregate),
        Err(short) => CollectAction::Fail(CollectFailure::TooFewProviders(short)),
    }
}

fn pass_on(
    context: &mut Context,
    run: &mut CollectRun,
    state: &TrainingShardState,
    member: NodeId,
) -> (r: CollectAction)
    requires
        collect_wf(old(run)@),
        old(run).at < usize::MAX,
    ensures
        (CollectOutcome {
            context: final(context)@,
            run: final(run)@,
            action: r@,
        }) == passing_on(old(context)@, old(run)@, *state, member),
{
    close_replica(context, &run.replicas, member);
    run.at += 1;
    offer_next(context, run, state)
}

fn answer_request(
    context: &mut Context,
    run: &CollectRun,
    peer: NodeId,
    election: &TrainingElection,
) -> (r: CollectAction)
    ensures
        (CollectOutcome { context: final(context)@, run: run@, action: r@ }) == on_request(
            old(context)@,
            run@,
            peer,
            *election,
        ),
{
    match handle_election(context, run.node, peer, election) {
        Some(reply) => CollectAction::Vote(reply),
        None => CollectAction::Wait,
    }
}

fn replicate(
    context: &mut Context,
    run: &mut CollectRun,
    state: &TrainingShardState,
    event: CollectEvent,
) -> (r: CollectAction)
    requires
        collect_wf(old(run)@),
        old(run).at < old(run).group.members@.len(),
        old(run).stage == CollectStage::Offering || old(run).stage == CollectStage::Confirming,
    ensures
        (CollectOutcome {
            context: final(context)@,
            run: final(run)@,
            action: r@,
        }) == replicating(
            old(context)@,
            old(run)@,
            *state,
            old(run)@.group.members[old(run)@.at],
            event,
        ),
{
    let count: usize = run.group.members.len();
    assert(run.at < count);
    let member = run.group.members[run.at];
    if matches!(run.stage, CollectStage::Offering) {
        return match event {
            CollectEvent::Offered(true) => {
                run.stage = CollectStage::Confirming;
                CollectAction::Wait
            },
            CollectEvent::Offered(false) => {
                drop_member(context, member);
                run.at += 1;
                offer_next(context, run, state)
            },
            _ => CollectAction::Wait,
        };
    }
    let arrived = match event {
        CollectEvent::TimedOut => {
            return pass_on(context, run, state, member);
        },
        CollectEvent::Election { peer, election } => {
            return answer_request(context, run, peer, &election);
        },
        CollectEvent::Ack { peer, ack } => ReplicationEvent::Ack { peer, ack },
        CollectEvent::Update { .. } => ReplicationEvent::Update,
        CollectEvent::Disconnected(peer) => ReplicationEvent::Disconnected(peer),
        _ => ReplicationEvent::Other,
    };
    if on_replication_event(context, &mut run.replicas, member, run.artifact, arrived) {
        pass_on(context, run, state, member)
    } else {
        CollectAction::Wait
    }
}

/// Begin a window with the aggregator's own update.
pub fn begin_collection(
    context: &Context,
    group: &TrainingGroup,
    window: &TrainingWindow,
    node: NodeId,
    scale: i64,
) -> (r: (CollectRun, CollectAction))
    requires
        scale > 0,
        value_bound(scale as int) <= i64::MAX,
        update_fits(context@, window@, scale as int),
    ensures
        (CollectOutcome { context: context@, run: r.0@, action: r.1@ }) == gathering(
            context@,
            (CollectRunView {
                node,
                scale,
                group: group@,
                window: window@,
                collection: opened_collection(context@, group@, window@, node, scale as int),
                stage: CollectStage::Gathering,
                state: None,
                artifact: unsigned_hash(),
                replicas: Seq::empty(),
                at: 0,
            }),
        ),
        collect_wf(r.0@),
        collect_inv(r.0@),
{
    let collection = open_collection(context, group, window, node, scale);
    proof {
        let updates = collection@.updates;
        assert(updates.len() == 1);
        assert forall|i: int| 0 <= i <= updates.len() implies i64::MIN <= loss_total(
            #[trigger] updates.take(i),
        ) <= i64::MAX by {
            reveal_with_fuel(loss_total, 3);
            if i == 1 {
                assert(updates.take(1).drop_last() =~= Seq::empty());
            }
        }
    }
    let mut run = CollectRun {
        node,
        scale,
        group: group.duplicate(),
        window: window.duplicate(),
        collection,
        stage: CollectStage::Gathering,
        state: None,
        artifact: ArtifactId::unsigned(),
        replicas: Vec::new(),
        at: 0,
    };
    proof {
        assert(workers_of(run@.collection.updates) =~= seq![node]);
        lemma_gathering_inv(context@, run@);
    }
    let action = gather(context, &mut run);
    (run, action)
}

fn on_gathering(context: &mut Context, run: &mut CollectRun, event: CollectEvent) -> (r:
    CollectAction)
    requires
        collect_wf(old(run)@),
        update_adds_up(old(run)@, event),
        old(run).stage == CollectStage::Gathering,
    ensures
        (CollectOutcome {
            context: final(context)@,
            run: final(run)@,
            action: r@,
        }) == collect_step(old(context)@, old(run)@, event),
        collect_wf(final(run)@),
{
    match event {
        CollectEvent::Update { peer, update, admitted } => {
            receive_update(context, &run.window, &mut run.collection, peer, update, admitted);
            gather(context, run)
        },
        CollectEvent::Disconnected(peer) => {
            if run.collection.expected.contains(peer) {
                run.stage = CollectStage::Restoring(peer);
                CollectAction::Restore(peer)
            } else {
                collection_disconnected(context, &run.collection, peer, false);
                gather(context, run)
            }
        },
        CollectEvent::Election { peer, election } => answer_request(context, run, peer, &election),
        CollectEvent::TimedOut => {
            collection_timed_out(context);
            combine(context, run)
        },
        _ => CollectAction::Wait,
    }
}

fn on_restoring(context: &mut Context, run: &mut CollectRun, peer: NodeId, event: CollectEvent) -> (r:
    CollectAction)
    requires
        collect_wf(old(run)@),
        old(run).stage == CollectStage::Restoring(peer),
    ensures
        (CollectOutcome {
            context: final(context)@,
            run: final(run)@,
            action: r@,
        }) == collect_step(old(context)@, old(run)@, event),
        collect_wf(final(run)@),
{
    match event {
        CollectEvent::Reached { connected, reconnected } => {
            let ghost before = context@;
            let restored = restore_training_peer(context, peer, connected, reconnected);
            collection_disconnected(context, &run.collection, peer, restored);
            proof {
                assert(before.failed.remove(peer).insert(peer) =~= before.failed.insert(peer));
                assert(before.failed.remove(peer).remove(peer) =~= before.failed.remove(peer));
            }
            gather(context, run)
        },
        _ => CollectAction::Wait,
    }
}

fn on_storing(context: &mut Context, run: &mut CollectRun, event: CollectEvent) -> (r: CollectAction)
    requires
        collect_wf(old(run)@),
        old(run).stage == CollectStage::Storing,
    ensures
        (CollectOutcome {
            context: final(context)@,
            run: final(run)@,
            action: r@,
        }) == collect_step(old(context)@, old(run)@, event),
        collect_wf(final(run)@),
{
    match (event, run.state) {
        (CollectEvent::Stored { state_hash, artifact }, Some(state)) => {
            let mut stored = state;
            stored.state_hash = state_hash;
            let mut replicas: Vec<NodeId> = Vec::new();
            replicas.push(run.node);
            assert(replicas@ =~= seq![run.node]);
            run.state = Some(stored);
            run.artifact = artifact;
            run.replicas = replicas;
            run.at = 0;
            offer_next(context, run, &stored)
        },
        (CollectEvent::Failed, _) => {
            run.stage = CollectStage::Over;
            CollectAction::Fail(CollectFailure::ActionFailed)
        },
        _ => CollectAction::Wait,
    }
}

/// Take in an event. The result is what is to be done next.
pub fn collect_group_updates(context: &mut Context, run: &mut CollectRun, event: CollectEvent) -> (r:
    CollectAction)
    requires
        collect_wf(old(run)@),
        update_adds_up(old(run)@, event),
    ensures
        (CollectOutcome {
            context: final(context)@,
            run: final(run)@,
            action: r@,
        }) == collect_step(old(context)@, old(run)@, event),
        collect_wf(final(run)@),
{
    match run.stage {
        CollectStage::Gathering => on_gathering(context, run, event),
        CollectStage::Restoring(peer) => on_restoring(context, run, peer, event),
        CollectStage::Storing => on_storing(context, run, event),
        CollectStage::Offering | CollectStage::Confirming => match run.state {
            Some(state) => {
                if run.at < run.group.members.len() {
                    replicate(context, run, &state, event)
                } else {
                    CollectAction::Wait
                }
            },
            None => CollectAction::Wait,
        },
        CollectStage::Over => CollectAction::Wait,
    }
}

/// What the combined state of a window is made of.
pub open spec fn state_combines(run: CollectRunView, state: TrainingShardState) -> bool {
    let updates = run.collection.updates;
    &&& is_median(values_of(updates), state.value)
    &&& is_median(optimizers_of(updates), state.optimizer)
    &&& abs_int(state.value as int) <= value_bound(run.scale as int)
    &&& state.generation == sat_u64(run.window.base_generation + 1)
    &&& state.shard_id == run.window.shard_id
    &&& state.owner == run.node
}

/// What holds of a window from its beginning to its end: the updates come from
/// distinct workers, the aggregator first and then expected members, all for this
/// window; and once they are combined, the state holds the medians of their values
/// and optimizer states.
pub open spec fn collect_inv(run: CollectRunView) -> bool {
    let updates = run.collection.updates;
    &&& updates.len() > 0
    &&& updates[0].worker == run.node
    &&& workers_of(updates).no_duplicates()
    &&& forall|i: int|
        0 < i < updates.len() ==> run.collection.expected.contains((#[trigger] updates[i]).worker)
    &&& forall|i: int|
        0 <= i < updates.len() ==> (#[trigger] updates[i]).window == run.window.window
            && updates[i].shard_id == run.window.shard_id && updates[i].base_generation
            == run.window.base_generation
    &&& match run.stage {
        CollectStage::Storing | CollectStage::Offering | CollectStage::Confirming => run.state
            is Some && state_combines(run, run.state->0),
        _ => true,
    }
}

proof fn lemma_gathering_inv(c: ContextView, run: CollectRunView)
    requires
        collect_inv(run),
    ensures
        collect_inv(gathering(c, run).run),
        collect_inv(combining(c, run).run),
        gathering(c, run).run.collection == run.collection,
        combining(c, run).run.collection == run.collection,
        !(gathering(c, run).action is Publish),
        !(combining(c, run).action is Publish),
{
    let updates = run.collection.updates;
    lemma_median_exists(values_of(updates));
    lemma_median_exists(optimizers_of(updates));
}

proof fn lemma_offering_inv(c: ContextView, run: CollectRunView, state: TrainingShardState)
    requires
        collect_inv(run),
        run.state == Some(state),
        state_combines(run, state),
    ensures
        collect_inv(offering(c, run, state).run),
        offering(c, run, state).run.collection == run.collection,
        offering(c, run, state).run.state == run.state,
        offering(c, run, state).action matches CollectActionView::Publish(a) ==> a.value
            == state.value && a.optimizer == state.optimizer && a.contributors == workers_of(
            run.collection.updates,
        ) && a.window == run.window.window && a.shard_id == run.window.shard_id && a.aggregator
            == run.node && a.generation == state.generation,
{
}

/// The published aggregate is the median of its contributors' updates: the
/// contributors are distinct and begin with the aggregator, each gave one update for
/// the window, and the value and the optimizer state are the medians of what they
/// gave. This holds because every step keeps what holds of the window.
pub proof fn law_published_aggregate_is_a_median(
    c: ContextView,
    run: CollectRunView,
    event: CollectEvent,
)
    requires
        collect_inv(run),
    ensures
        collect_inv(collect_step(c, run, event).run),
        collect_step(c, run, event).action matches CollectActionView::Publish(a) ==> {
            let updates = collect_step(c, run, event).run.collection.updates;
            &&& a.contributors == workers_of(updates)
            &&& a.contributors.no_duplicates()
            &&& a.contributors.len() > 0
            &&& a.contributors[0] == run.node
            &&& a.aggregator == run.node
            &&& is_median(values_of(updates), a.value)
            &&& is_median(optimizers_of(updates), a.optimizer)
            &&& abs_int(a.value as int) <= value_bound(run.scale as int)
            &&& a.window == run.window.window
            &&& a.shard_id == run.window.shard_id
            &&& a.generation == sat_u64(run.window.base_generation + 1)
        },
{
    match run.stage {
        CollectStage::Gathering => match event {
            CollectEvent::Update { peer, update, admitted } => {
                let next = CollectRunView {
                    collection: CollectionView {
                        updates: run.collection.updates.push(update),
                        ..run.collection
                    },
                    ..run
                };
                if acceptable_update(c, run.window, run.collection, peer, update) && admitted {
                    law_one_update_per_worker(c, run.window, run.collection, peer, update);
                    lemma_gathering_inv(c, next);
                } else {
                    lemma_gathering_inv(
                        ContextView {
                            rejected_updates: sat_u64(c.rejected_updates + 1) as u64,
                            ..c
                        },
                        run,
                    );
                }
            },
            CollectEvent::Disconnected(peer) => {
                lemma_gathering_inv(on_loss(c, run, peer, false).context, run);
            },
            CollectEvent::TimedOut => {
                lemma_gathering_inv(
                    ContextView { stragglers: sat_u64(c.stragglers + 1) as u64, ..c },
                    run,
                );
            },
            _ => {},
        },
        CollectStage::Restoring(peer) => match event {
            CollectEvent::Reached { connected, reconnected } => {
                let back = peer_restored(c, peer, connected, reconnected);
                lemma_gathering_inv(on_loss(c, run, peer, back).context, run);
            },
            _ => {},
        },
        CollectStage::Storing => match (event, run.state) {
            (CollectEvent::Stored { state_hash, artifact }, Some(state)) => {
                let stored = TrainingShardState { state_hash, ..state };
                lemma_offering_inv(
                    c,
                    CollectRunView {
                        state: Some(stored),
                        artifact,
                        replicas: seq![run.node],
                        at: 0,
                        ..run
                    },
                    stored,
                );
            },
            _ => {},
        },
        CollectStage::Offering | CollectStage::Confirming => match run.state {
            Some(state) if 0 <= run.at < run.group.members.len() => {
                lemma_replicating_inv(c, run, state, run.group.members[run.at], event);
            },
            _ => {},
        },
        CollectStage::Over => {},
    }
    if collect_step(c, run, event).action is Publish {
        let updates = collect_step(c, run, event).run.collection.updates;
        assert(workers_of(updates)[0] == updates[0].worker);
    }
}

proof fn lemma_replicating_inv(
    c: ContextView,
    run: CollectRunView,
    state: TrainingShardState,
    member: NodeId,
    event: CollectEvent,
)
    requires
        collect_inv(run),
        run.stage == CollectStage::Offering || run.stage == CollectStage::Confirming,
        run.state == Some(state),
    ensures
        collect_inv(replicating(c, run, state, member, event).run),
        replicating(c, run, state, member, event).run.collection == run.collection,
        replicating(c, run, state, member, event).action matches CollectActionView::Publish(a) ==> {
            &&& a.value == state.value
            &&& a.optimizer == state.optimizer
            &&& a.contributors == workers_of(run.collection.updates)
            &&& a.window == run.window.window
            &&& a.shard_id == run.window.shard_id
            &&& a.aggregator == run.node
            &&& a.generation == state.generation
        },
{
    let next = CollectRunView { at: run.at + 1, ..run };
    lemma_offering_inv(without_member(c, member), next, state);
    lemma_offering_inv(c, next, state);
    let (after, replicas, _) = replication_step(
        c,
        run.replicas,
        member,
        run.artifact,
        replication_event(event),
    );
    let passed = CollectRunView { replicas, at: run.at + 1, ..run };
    lemma_offering_inv(after, passed, state);
    lemma_offering_inv(without_member(after, member), passed, state);
}

/// An aggregate is published only when enough members of the group hold the new
/// state, and what it says is what they hold.
pub proof fn law_published_state_has_providers(
    c: ContextView,
    run: CollectRunView,
    event: CollectEvent,
)
    requires
        collect_step(c, run, event).action is Publish,
    ensures
        ({
            let o = collect_step(c, run, event);
            let a = o.action->Publish_0;
            &&& o.run.replicas.len() >= required_providers(o.context, o.run.group)
            &&& a.replicas == o.run.replicas
            &&& a.state_artifact == o.run.artifact
            &&& o.run.state is Some
            &&& a.value == o.run.state->0.value == o.context.value
            &&& a.optimizer == o.run.state->0.optimizer == o.context.optimizer
            &&& a.generation == o.run.state->0.generation == o.context.generation
        }),
{
}

/// The combined value of a window is the median of its updates, and bounded.
pub proof fn law_stored_value_is_a_bounded_median(
    c: ContextView,
    run: CollectRunView,
    event: CollectEvent,
)
    requires
        collect_step(c, run, event).action is Store,
    ensures
        ({
            let o = collect_step(c, run, event);
            let s = o.action->Store_0;
            &&& s.value == median_of(values_of(o.run.collection.updates))
            &&& s.optimizer == median_of(optimizers_of(o.run.collection.updates))
            &&& abs_int(s.value as int) <= value_bound(run.scale as int)
            &&& s.generation == sat_u64(run.window.base_generation + 1)
        }),
{
}

/// An admissible update that the policy admits is added behind the others; any other is
/// counted as rejected and leaves the updates as they are.
pub proof fn law_updates_are_gathered(
    c: ContextView,
    run: CollectRunView,
    peer: NodeId,
    update: TrainingUpdate,
    admitted: bool,
)
    requires
        run.stage is Gathering,
        c.rejected_updates < u64::MAX,
    ensures
        ({
            let o = collect_step(c, run, CollectEvent::Update { peer, update, admitted });
            let good = acceptable_update(c, run.window, run.collection, peer, update) && admitted;
            &&& good ==> o.run.collection.updates == run.collection.updates.push(update)
                && o.context.rejected_updates == c.rejected_updates
            &&& !good ==> o.run.collection.updates == run.collection.updates
                && o.context.rejected_updates == c.rejected_updates + 1
            &&& o.run.collection.expected == run.collection.expected
            &&& o.run.collection.updates.len() < run.collection.expected.len() ==> o.action is Wait
            &&& o.action is Store ==> o.run.collection.updates.len()
                >= run.collection.expected.len()
        }),
{
}

/// A member that is lost for good while updates are gathered counts as failed and as a
/// straggler; one that comes back does not. Time running out combines what there is and
/// counts one straggler.
pub proof fn law_lost_members_are_stragglers(
    c: ContextView,
    run: CollectRunView,
    peer: NodeId,
    connected: bool,
    reconnected: bool,
)
    requires
        run.collection.expected.contains(peer),
        c.stragglers < u64::MAX,
    ensures
        run.stage is Gathering ==> collect_step(c, run, CollectEvent::Disconnected(peer)).action
            == CollectActionView::Restore(peer),
        run.stage == CollectStage::Restoring(peer) ==> ({
            let o = collect_step(c, run, CollectEvent::Reached { connected, reconnected });
            let back = peer_restored(c, peer, connected, reconnected);
            &&& back ==> o.context.failed == c.failed.remove(peer) && o.context.stragglers
                == c.stragglers
            &&& !back ==> o.context.failed == c.failed.insert(peer) && o.context.stragglers
                == c.stragglers + 1
            &&& o.run.collection == run.collection
        }),
        run.stage is Gathering ==> ({
            let o = collect_step(c, run, CollectEvent::TimedOut);
            &&& o.context.stragglers == c.stragglers + 1
            &&& o.run.collection == run.collection
            &&& !(o.action is Wait)
        }),
{
}

/// A stored state is offered to the first live member other than the aggregator, under
/// the artifact that it was stored as; the aggregator itself is its first holder.
pub proof fn law_stored_state_is_offered(
    c: ContextView,
    run: CollectRunView,
    state_hash: ArtifactId,
    artifact: ArtifactId,
)
    requires
        run.stage is Storing,
        run.state is Some,
    ensures
        ({
            let o = collect_step(c, run, CollectEvent::Stored { state_hash, artifact });
            &&& o.run.replicas.len() == 1 && o.run.replicas[0] == run.node
            &&& o.run.artifact == artifact
            &&& o.run.state is Some && o.run.state->0.state_hash == state_hash
            &&& o.run.state->0.value == run.state->0.value
            &&& o.run.state->0.optimizer == run.state->0.optimizer
            &&& o.action matches CollectActionView::Offer { member, offer } ==> {
                &&& offer.artifact == artifact && offer.creator == run.node
                &&& member != run.node && !c.failed.contains(member)
                &&& run.group.members.contains(member)
            }
            &&& o.action is Offer || o.action is Publish || o.action is Fail
            &&& o.action matches CollectActionView::Publish(a) ==> a.value == run.state->0.value
                && a.optimizer == run.state->0.optimizer && a.state_artifact == artifact
                && a.replicas.len() == 1 && a.replicas[0] == run.node
        }),
{
    lemma_target_is_live(c, run.node, run.group.members, 0);
}

proof fn lemma_target_is_live(c: ContextView, node: NodeId, members: Seq<NodeId>, at: int)
    requires
        at >= 0,
    ensures
        at <= target_from(c, node, members, at),
        target_from(c, node, members, at) < members.len() ==> ({
            let found = members[target_from(c, node, members, at)];
            found != node && !c.failed.contains(found)
        }),
    decreases members.len() - at,
{
    if at < members.len() && !is_replica_target(c, node, members[at]) {
        lemma_target_is_live(c, node, members, at + 1);
    }
}

/// A member that confirmed keeps the artifact and stays; one whose time ran out counts as
/// failed and as a straggler; the next live member is offered the artifact.
pub proof fn law_unconfirmed_members_fail(
    c: ContextView,
    run: CollectRunView,
    state: TrainingShardState,
    member: NodeId,
)
    requires
        c.stragglers < u64::MAX,
        run.at >= 0,
    ensures
        ({
            let o = passing_on(c, run, state, member);
            &&& run.replicas.contains(member) ==> o.context.failed == c.failed
                && o.context.stragglers == c.stragglers
            &&& !run.replicas.contains(member) ==> o.context.failed == c.failed.insert(member)
                && o.context.stragglers == c.stragglers + 1
            &&& o.run.replicas == run.replicas
            &&& o.action matches CollectActionView::Offer { member: next, offer } ==> next
                != run.node && !o.context.failed.contains(next) && offer.artifact == run.artifact
        }),
{
    let after = if run.replicas.contains(member) {
        c
    } else {
        without_member(c, member)
    };
    lemma_target_is_live(after, run.node, run.group.members, run.at + 1);
}

/// A window is published with enough holders, and the aggregator then has its state; with
/// too few it fails, and tells how many there were and how many were needed.
pub proof fn law_windows_need_holders(
    c: ContextView,
    run: CollectRunView,
    state: TrainingShardState,
)
    requires
        run.replicas.len() <= usize::MAX,
    ensures
        ({
            let o = closing(c, run, state);
            let needed = required_providers(c, run.group);
            &&& run.replicas.len() >= needed ==> o.action is Publish && o.context.value
                == state.value && o.context.optimizer == state.optimizer && o.context.generation
                == state.generation && o.action->Publish_0.replicas == run.replicas
                && o.action->Publish_0.value == state.value
            &&& run.replicas.len() < needed ==> o.action is Fail && o.context == c && (o.action
                == CollectActionView::Fail(
                CollectFailure::TooFewProviders(
                    TooFewProviders {
                        shard_id: run.window.shard_id,
                        reached: run.replicas.len() as usize,
                        required: needed as usize,
                    },
                ),
            ))
        }),
{
}

} // verus!
