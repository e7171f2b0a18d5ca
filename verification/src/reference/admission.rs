//! Admission of a job: the start handshake of the coordinator, the checks of a
//! worker, and the jobs that a restarted worker takes up again.

use crate::base::ids::{ArtifactId, NodeId};
use crate::base::members::{contains_id, NodeSet};
use crate::reference::context::{
    covers_final_model, initial_context, insert_summaries, state_covers_final_model,
    untrained_loss, with_summaries, Context, ContextView,
};
use crate::reference::types::{
    Role, TrainingAck, TrainingAckKind, TrainingExecution, TrainingShardState, TrainingStart,
    TrainingStartView, TrainingState, TrainingStateView,
};
use vstd::prelude::*;

verus! {

/// How often a start message is sent before the job is given up.
pub const START_ATTEMPTS: usize = 3;

/// An acknowledgement that a worker has admitted the job.
pub open spec fn acks_start(
    start: TrainingStartView,
    expected: Set<NodeId>,
    peer: NodeId,
    ack: TrainingAck,
) -> bool {
    &&& ack.job_id == start.job_id
    &&& ack.term == start.term
    &&& ack.peer == peer
    &&& expected.contains(peer)
    &&& ack.kind == TrainingAckKind::Start
}

/// The start handshake of a job.
#[derive(Debug)]
pub struct Admission {
    /// The workers that have to admit the job.
    pub expected: NodeSet,
    /// The workers that have admitted it.
    pub acknowledged: NodeSet,
}

/// Begin the start handshake with `workers`.
pub fn begin_admission(workers: &Vec<NodeId>) -> (r: Admission)
    ensures
        r.expected@ == workers@.to_set(),
        r.acknowledged@ == Set::<NodeId>::empty(),
{
    Admission { expected: NodeSet::from_ids(workers), acknowledged: NodeSet::new() }
}

/// Whether every worker has admitted the job.
pub fn admission_done(admission: &Admission) -> (r: bool)
    ensures
        r == (admission.acknowledged@.len() >= admission.expected@.len()),
{
    admission.acknowledged.len() >= admission.expected.len()
}

/// Take in an acknowledgement during the handshake.
fn note_start_ack(
    admission: &mut Admission,
    start: &TrainingStart,
    peer: NodeId,
    ack: &TrainingAck,
)
    ensures
        final(admission).expected@ == old(admission).expected@,
        final(admission).acknowledged@ == (if acks_start(
            start@,
            old(admission).expected@,
            peer,
            *ack,
        ) {
            old(admission).acknowledged@.insert(peer)
        } else {
            old(admission).acknowledged@
        }),
{
    let started = match ack.kind {
        TrainingAckKind::Start => true,
        _ => false,
    };
    if ack.job_id == start.job_id && ack.term == start.term && ack.peer == peer
        && admission.expected.contains(peer) && started {
        admission.acknowledged.insert(peer);
    }
}

/// The workers that have not admitted the job, in byte order.
fn missing_workers(admission: &Admission) -> (r: Vec<NodeId>)
    ensures
        r@ == crate::base::members::ascending(
            admission.expected@.difference(admission.acknowledged@),
        ),
{
    let all = admission.expected.to_sorted();
    let r = crate::base::members::filter_outside(&all, &admission.acknowledged);
    proof {
        let p = crate::base::search::outside(admission.acknowledged@);
        crate::base::search::lemma_filter_contains(all@, p);
        crate::base::members::lemma_filter_sorted(all@, p);
        assert(r@.to_set() =~= admission.expected@.difference(admission.acknowledged@)) by {
            assert forall|n: NodeId| r@.to_set().contains(n) == admission.expected@.difference(
                admission.acknowledged@,
            ).contains(n) by {
                assert(all@.to_set().contains(n) == admission.expected@.contains(n));
                assert(r@.contains(n) <==> all@.contains(n) && p(n));
            }
        }
        crate::base::members::lemma_ascending(r@);
    }
    r
}

/// The contents of an [`Admission`].
#[verifier::ext_equal]
pub struct AdmissionView {
    pub expected: Set<NodeId>,
    pub acknowledged: Set<NodeId>,
}

impl View for Admission {
    type V = AdmissionView;

    open spec fn view(&self) -> AdmissionView {
        AdmissionView { expected: self.expected@, acknowledged: self.acknowledged@ }
    }
}

/// What comes in during the start handshake.
#[derive(Clone, Copy, Debug, PartialEq, Eq, Structural)]
pub enum AdmissionEvent {
    Ack { peer: NodeId, ack: TrainingAck },
    Disconnected(NodeId),
    Other,
    /// The time is over.
    TimedOut,
}

/// What the start handshake does next.
#[derive(Debug, PartialEq, Eq)]
pub enum AdmissionStep {
    Wait,
    /// Reconnect a worker and send it its start once more: one that has
    /// admitted the job acknowledges it again.
    Resend(NodeId),
    /// Every worker has admitted the job.
    Admitted,
    /// These workers have not admitted the job, in byte order.
    Missing(Vec<NodeId>),
}

/// The contents of an [`AdmissionStep`].
pub enum AdmissionStepView {
    Wait,
    Resend(NodeId),
    Admitted,
    Missing(Seq<NodeId>),
}

impl View for AdmissionStep {
    type V = AdmissionStepView;

    open spec fn view(&self) -> AdmissionStepView {
        match self {
            AdmissionStep::Wait => AdmissionStepView::Wait,
            AdmissionStep::Resend(peer) => AdmissionStepView::Resend(*peer),
            AdmissionStep::Admitted => AdmissionStepView::Admitted,
            AdmissionStep::Missing(workers) => AdmissionStepView::Missing(workers@),
        }
    }
}

/// What an event means for the start handshake.
pub open spec fn admission_stepped(
    a: AdmissionView,
    start: TrainingStartView,
    event: AdmissionEvent,
) -> (AdmissionView, AdmissionStepView) {
    match event {
        AdmissionEvent::Ack { peer, ack } => {
            let after = AdmissionView {
                acknowledged: if acks_start(start, a.expected, peer, ack) {
                    a.acknowledged.insert(peer)
                } else {
                    a.acknowledged
                },
                ..a
            };
            (
                after,
                if after.acknowledged.len() >= after.expected.len() {
                    AdmissionStepView::Admitted
                } else {
                    AdmissionStepView::Wait
                },
            )
        },
        AdmissionEvent::Disconnected(peer) => (
            a,
            if a.expected.contains(peer) {
                AdmissionStepView::Resend(peer)
            } else {
                AdmissionStepView::Wait
            },
        ),
        AdmissionEvent::Other => (a, AdmissionStepView::Wait),
        AdmissionEvent::TimedOut => (
            a,
            AdmissionStepView::Missing(
                crate::base::members::ascending(a.expected.difference(a.acknowledged)),
            ),
        ),
    }
}

/// Take in an event during the start handshake of a job.
pub fn start_coordinator(
    admission: &mut Admission,
    start: &TrainingStart,
    event: AdmissionEvent,
) -> (r: AdmissionStep)
    ensures
        (final(admission)@, r@) == admission_stepped(old(admission)@, start@, event),
{
    match event {
        AdmissionEvent::Ack { peer, ack } => {
            note_start_ack(admission, start, peer, &ack);
            if admission_done(admission) {
                AdmissionStep::Admitted
            } else {
                AdmissionStep::Wait
            }
        },
        AdmissionEvent::Disconnected(peer) => {
            if admission.expected.contains(peer) {
                AdmissionStep::Resend(peer)
            } else {
                AdmissionStep::Wait
            }
        },
        AdmissionEvent::Other => AdmissionStep::Wait,
        AdmissionEvent::TimedOut => AdmissionStep::Missing(missing_workers(admission)),
    }
}

/// A complete handshake has heard from every worker: acknowledgements count
/// from expected workers only, and the job begins only when each of them has
/// admitted it.
pub proof fn law_complete_admission(
    a: AdmissionView,
    start: TrainingStartView,
    event: AdmissionEvent,
)
    requires
        a.expected.finite(),
        a.acknowledged.subset_of(a.expected),
    ensures
        ({
            let (after, step) = admission_stepped(a, start, event);
            &&& after.expected == a.expected
            &&& after.acknowledged.subset_of(after.expected)
            &&& step == AdmissionStepView::Admitted ==> after.acknowledged == after.expected
        }),
{
    let (after, step) = admission_stepped(a, start, event);
    if step == AdmissionStepView::Admitted {
        vstd::set_lib::lemma_len_subset(after.acknowledged, after.expected);
        vstd::set_lib::lemma_subset_equality(after.acknowledged, after.expected);
    }
}

/// Why a worker does not admit a job.
#[derive(Clone, Copy, Debug, PartialEq, Eq, Structural)]
pub enum StartError {
    /// The start does not come from its coordinator, or not for this worker.
    NotAuthorized,
    /// The shard needs more memory than the worker offers.
    TooLarge { required: u64, budget: u64 },
    /// The message breaks a rule of the protocol.
    Invalid,
}

/// The start comes from its coordinator and gives this worker a shard.
pub open spec fn start_authorized(start: TrainingStartView, peer: NodeId, node: NodeId) -> bool {
    start.coordinator == peer && start.assignment.owners.contains(node)
        && start.participants.contains(node)
}

/// Check a start message. `valid` tells whether the message keeps the rules of
/// the protocol; it matters once the sender and the size are in order.
pub fn accept_start(
    start: &TrainingStart,
    peer: NodeId,
    node: NodeId,
    memory_budget: u64,
    valid: bool,
) -> (r: Result<(), StartError>)
    ensures
        r == (if !start_authorized(start@, peer, node) {
            Err(StartError::NotAuthorized)
        } else if start@.shard_state_bytes > memory_budget {
            Err(StartError::TooLarge { required: start@.shard_state_bytes, budget: memory_budget })
        } else if !valid {
            Err(StartError::Invalid)
        } else {
            Ok(())
        }),
{
    if start.coordinator != peer || !contains_id(&start.assignment.owners, node) || !contains_id(
        &start.participants,
        node,
    ) {
        return Err(StartError::NotAuthorized);
    }
    if start.shard_state_bytes > memory_budget {
        return Err(
            StartError::TooLarge { required: start.shard_state_bytes, budget: memory_budget },
        );
    }
    if !valid {
        return Err(StartError::Invalid);
    }
    Ok(())
}

/// The acknowledgement that a worker has admitted a job.
pub fn start_ack(start: &TrainingStart, node: NodeId) -> (r: TrainingAck)
    ensures
        r == (TrainingAck {
            job_id: start@.job_id,
            peer: node,
            term: start@.term,
            kind: TrainingAckKind::Start,
        }),
{
    TrainingAck {
        job_id: start.job_id,
        peer: node,
        term: start.term,
        kind: TrainingAckKind::Start,
    }
}

/// A job that this node worked on and may take up again.
pub open spec fn resumable(start: TrainingStartView, node: NodeId) -> bool {
    start.coordinator != node && start.participants.contains(node)
        && start.assignment.owners.contains(node)
}

/// The persisted records say that the job has ended.
pub open spec fn already_finished(
    start: TrainingStartView,
    state: Option<TrainingStateView>,
    final_manifest_held: bool,
) -> bool {
    start.execution == TrainingExecution::AutonomousLocalSgd && state is Some
        && covers_final_model(start, state->0) && final_manifest_held
}

/// Whether a restarted worker takes a job up again. `valid` tells whether the
/// persisted start keeps the rules of the protocol, `running` whether the job
/// is live already, `final_manifest_held` whether the checkpoint that the
/// state names is held intact.
pub fn takes_up(
    start: &TrainingStart,
    node: NodeId,
    valid: bool,
    running: bool,
    state: &Option<TrainingState>,
    final_manifest_held: bool,
) -> (r: bool)
    requires
        start.checkpoint_every > 0,
    ensures
        r == (resumable(start@, node) && valid && !running && !already_finished(
            start@,
            crate::base::search::opt_view(*state),
            final_manifest_held,
        )),
{
    if start.coordinator == node || !contains_id(&start.participants, node) || !contains_id(
        &start.assignment.owners,
        node,
    ) || !valid || running {
        return false;
    }
    let finished = match state {
        Some(state) => start.execution == TrainingExecution::AutonomousLocalSgd
            && state_covers_final_model(start, state) && final_manifest_held,
        None => false,
    };
    !finished
}

/// The context with the persisted coordination state put back.
pub open spec fn with_state(c: ContextView, state: Option<TrainingStateView>) -> ContextView {
    match state {
        None => c,
        Some(s) => ContextView {
            coordinator: s.coordinator,
            term: s.term,
            window: s.window,
            checkpoint_generation: s.checkpoint_generation,
            checkpoint: s.checkpoint,
            shard_summaries: with_summaries(c.shard_summaries, s.shards),
            ..c
        },
    }
}

/// A persisted shard state that belongs to the job. `computed` is the hash of
/// its content.
pub open spec fn shard_restorable(
    start: TrainingStartView,
    shard: TrainingShardState,
    computed: ArtifactId,
) -> bool {
    &&& shard.job_id == start.job_id
    &&& shard.shard_id == start.assignment.shard_id
    &&& shard.branch == start.branch
    &&& computed == shard.state_hash
}

/// The context with a persisted shard state put back.
pub open spec fn with_shard(
    c: ContextView,
    shard: Option<(TrainingShardState, ArtifactId)>,
) -> ContextView {
    match shard {
        Some((state, computed)) if shard_restorable(c.start, state, computed) => ContextView {
            value: state.value,
            optimizer: state.optimizer,
            generation: state.generation,
            ..c
        },
        _ => c,
    }
}

/// The context of a job that a restarted worker takes up again, from its
/// persisted state and its persisted shard with the hash of that shard's content.
pub fn restore_context(
    start: TrainingStart,
    state: &Option<TrainingState>,
    shard: Option<(TrainingShardState, ArtifactId)>,
) -> (r: Context)
    requires
        untrained_loss(start@.shards) <= i64::MAX,
    ensures
        r@ == with_shard(
            with_state(
                initial_context(start@, Role::Worker),
                crate::base::search::opt_view(*state),
            ),
            shard,
        ),
{
    let mut context = Context::new(start, Role::Worker);
    match state {
        Some(state) => {
            context.coordinator = state.coordinator;
            context.term = state.term;
            context.window = state.window;
            context.checkpoint_generation = state.checkpoint_generation;
            context.checkpoint = state.checkpoint;
            insert_summaries(&mut context.shard_summaries, &state.shards);
        },
        None => {},
    }
    match shard {
        Some((state, computed)) => {
            if state.job_id == context.start.job_id && state.shard_id
                == context.start.assignment.shard_id && state.branch == context.start.branch
                && computed == state.state_hash {
                context.value = state.value;
                context.optimizer = state.optimizer;
                context.generation = state.generation;
            }
        },
        None => {},
    }
    context
}

/// An acknowledgement of the start counts exactly when an expected worker sends its own,
/// for this job and term.
pub proof fn law_start_is_acknowledged_by_the_worker(
    start: TrainingStartView,
    expected: Set<NodeId>,
    peer: NodeId,
    ack: TrainingAck,
)
    ensures
        acks_start(start, expected, peer, ack) ==> expected.contains(peer) && ack.peer == peer
            && ack.job_id == start.job_id && ack.term == start.term && ack.kind is Start,
        expected.contains(peer) ==> acks_start(
            start,
            expected,
            peer,
            TrainingAck {
                job_id: start.job_id,
                peer,
                term: start.term,
                kind: TrainingAckKind::Start,
            },
        ),
{
}

/// Admission goes by who has acknowledged: an event adds the sender of a good
/// acknowledgement and nobody else, a worker that went away is sent the start again,
/// and at the end of the time those without an acknowledgement are the missing ones.
pub proof fn law_admission_counts_workers(
    a: AdmissionView,
    start: TrainingStartView,
    event: AdmissionEvent,
    peer: NodeId,
)
    requires
        a.expected.finite(),
    ensures
        ({
            let (after, step) = admission_stepped(a, start, event);
            &&& after.expected == a.expected
            &&& a.acknowledged.contains(peer) ==> after.acknowledged.contains(peer)
            &&& after.acknowledged.contains(peer) && !a.acknowledged.contains(peer) ==> event is Ack
                && event->Ack_peer == peer && event->ack.peer == peer && a.expected.contains(peer)
            &&& step is Admitted ==> after.acknowledged.len() >= a.expected.len()
            &&& step == AdmissionStepView::Resend(peer) <==> event == AdmissionEvent::Disconnected(
                peer,
            ) && a.expected.contains(peer)
            &&& event is TimedOut <==> step is Missing
            &&& event is TimedOut ==> (step->Missing_0.contains(peer) <==> a.expected.contains(peer)
                && !a.acknowledged.contains(peer))
        }),
        a.expected.contains(peer) && a.acknowledged.insert(peer).len() >= a.expected.len() ==> ({
            let ack = TrainingAck {
                job_id: start.job_id,
                peer,
                term: start.term,
                kind: TrainingAckKind::Start,
            };
            admission_stepped(a, start, AdmissionEvent::Ack { peer, ack }).1 is Admitted
        }),
{
    let missing = a.expected.difference(a.acknowledged);
    crate::base::members::lemma_ascending_exists(missing);
    let listed = crate::base::members::ascending(missing);
    assert(listed.contains(peer) <==> listed.to_set().contains(peer));
}

/// A worker follows a start of its coordinator that makes it an owner and a participant;
/// it takes up again only such a job that another node coordinates.
pub proof fn law_start_is_for_this_worker(start: TrainingStartView, peer: NodeId, node: NodeId)
    ensures
        start_authorized(start, peer, node) <==> peer == start.coordinator
            && start.assignment.owners.contains(node) && start.participants.contains(node),
        resumable(start, node) <==> start_authorized(start, start.coordinator, node)
            && start.coordinator != node,
{
}

/// A restored context is where the persisted state was, and has the value, the optimizer
/// state and the generation of a persisted shard exactly when that shard is this
/// worker's own, of this job and branch, with the hash of its content.
pub proof fn law_restored_context_is_the_persisted_one(
    c: ContextView,
    s: TrainingStateView,
    shard: TrainingShardState,
    computed: ArtifactId,
)
    ensures
        with_state(c, None) == c,
        with_shard(c, None) == c,
        ({
            let r = with_state(c, Some(s));
            &&& r.coordinator == s.coordinator
            &&& r.term == s.term
            &&& r.window == s.window
            &&& r.checkpoint_generation == s.checkpoint_generation
            &&& r.checkpoint == s.checkpoint
            &&& r.start == c.start
            &&& r.value == c.value
            &&& r.failed == c.failed
        }),
        ({
            let r = with_shard(c, Some((shard, computed)));
            let own = shard.job_id == c.start.job_id && shard.shard_id
                == c.start.assignment.shard_id && shard.branch == c.start.branch && computed
                == shard.state_hash;
            &&& own ==> r.value == shard.value && r.optimizer == shard.optimizer && r.generation
                == shard.generation
            &&& !own ==> r == c
            &&& r.term == c.term && r.window == c.window
        }),
{
}

/// A job has already ended only with a state that covers its final model and with the
/// final manifest at hand.
pub proof fn law_ended_job_is_complete(
    start: TrainingStartView,
    state: Option<TrainingStateView>,
    held: bool,
)
    ensures
        already_finished(start, state, held) ==> held && state is Some && state->0.window
            >= start.max_windows && start.execution is AutonomousLocalSgd,
        held && start.execution is AutonomousLocalSgd && state is Some && covers_final_model(
            start,
            state->0,
        ) ==> already_finished(start, state, held),
{
}

/// A persisted state brings its shards, merged one by one.
pub proof fn law_restored_shards_are_merged(c: ContextView, s: TrainingStateView)
    ensures
        with_state(c, Some(s)).shard_summaries == with_summaries(c.shard_summaries, s.shards),
        with_state(c, Some(s)).checkpoint_providers == c.checkpoint_providers,
        with_state(c, Some(s)).optimizer == c.optimizer,
        with_state(c, Some(s)).samples == c.samples,
        with_state(c, Some(s)).role == c.role,
{
}

} // verus!
