//! The commit of a checkpoint: it is signed, stored, sent out and, where it has to
//! be, confirmed by a majority before the state that goes with it is stored.

use crate::base::ids::{ArtifactId, NodeId};
use crate::base::members::NodeSet;
use crate::base::record::Duplicate;
use crate::reference::checkpoint::{
    acks_count, begin_checkpoint_wait, broadcast_checkpoint_and_wait, checkpoint_awaited,
    checkpoint_wait_done, checkpoint_waiting, commit_manifest, commit_of, context_shards,
    law_confirmed_checkpoint_has_a_majority, make_checkpoint_from_context, manifest_is_final,
    manifest_of, opened_wait, record_checkpoint, recorded_checkpoint, shard_progress, AckWait,
    AckWaitView, WaitEvent, WaitStep, WaitStepView,
};
use crate::reference::context::{state_of, Context, ContextView};
use crate::reference::types::{
    TrainingCheckpointCommit, TrainingCheckpointCommitView, TrainingCheckpointManifest,
    TrainingCheckpointManifestView, TrainingState, TrainingStateView,
};
use vstd::prelude::*;

verus! {

/// Where a commit stands.
#[derive(Clone, Copy, Debug, PartialEq, Eq, Structural)]
pub enum CommitStage {
    /// The hash of the manifest is being computed.
    Signing,
    /// The manifest is being stored.
    Storing,
    /// The commit is being sent out.
    Sending,
    /// A majority is waited for.
    Confirming,
    /// The state that goes with the checkpoint is being stored.
    Settling,
    /// There is nothing left to do.
    Over,
}

/// The commit of one checkpoint.
#[derive(Debug)]
pub struct CommitRun {
    pub stage: CommitStage,
    pub node: NodeId,
    /// The windows of the job are paced, so every checkpoint is waited for.
    pub paced: bool,
    /// The checkpoint covers the whole model at the last window.
    pub last: bool,
    pub commit: TrainingCheckpointCommit,
    pub wait: AckWait,
}

/// The contents of a [`CommitRun`].
#[verifier::ext_equal]
pub struct CommitRunView {
    pub stage: CommitStage,
    pub node: NodeId,
    pub paced: bool,
    pub last: bool,
    pub commit: TrainingCheckpointCommitView,
    pub wait: AckWaitView,
}

impl View for CommitRun {
    type V = CommitRunView;

    open spec fn view(&self) -> CommitRunView {
        CommitRunView {
            stage: self.stage,
            node: self.node,
            paced: self.paced,
            last: self.last,
            commit: self.commit@,
            wait: self.wait@,
        }
    }
}

/// What happened.
#[derive(Clone, Copy, Debug, PartialEq, Eq, Structural)]
pub enum CommitEvent {
    /// The hash of the manifest.
    Signed(ArtifactId),
    /// What was to be done is done.
    Done,
    /// It could not be done.
    Failed,
    /// Something came in while a majority is waited for.
    Waited(WaitEvent),
}

/// Why a checkpoint is not committed.
#[derive(Clone, Copy, Debug, PartialEq, Eq, Structural)]
pub enum CommitError {
    /// What was to be done could not be done.
    ActionFailed,
    /// The checkpoint did not reach a majority.
    Unconfirmed,
}

/// What is done next.
#[derive(Debug)]
pub enum CommitAction {
    /// Compute the hash of the manifest.
    Sign(TrainingCheckpointManifest),
    /// Store the manifest of the commit.
    Store(TrainingCheckpointCommit),
    /// Send the commit to every other live participant.
    Send(TrainingCheckpointCommit),
    /// Wait for what comes in.
    Wait,
    /// Store the state.
    StoreState(TrainingState),
    /// The checkpoint is committed.
    Finish,
    Fail(CommitError),
}

/// The contents of a [`CommitAction`].
#[verifier::ext_equal]
pub enum CommitActionView {
    Sign(TrainingCheckpointManifestView),
    Store(TrainingCheckpointCommitView),
    Send(TrainingCheckpointCommitView),
    Wait,
    StoreState(TrainingStateView),
    Finish,
    Fail(CommitError),
}

impl View for CommitAction {
    type V = CommitActionView;

    open spec fn view(&self) -> CommitActionView {
        match self {
            CommitAction::Sign(manifest) => CommitActionView::Sign(manifest@),
            CommitAction::Store(commit) => CommitActionView::Store(commit@),
            CommitAction::Send(commit) => CommitActionView::Send(commit@),
            CommitAction::Wait => CommitActionView::Wait,
            CommitAction::StoreState(state) => CommitActionView::StoreState(state@),
            CommitAction::Finish => CommitActionView::Finish,
            CommitAction::Fail(error) => CommitActionView::Fail(*error),
        }
    }
}

/// A commit before its manifest is signed.
pub open spec fn fresh_commit(
    c: ContextView,
    manifest: TrainingCheckpointManifestView,
    node: NodeId,
    paced: bool,
) -> CommitRunView {
    CommitRunView {
        stage: CommitStage::Signing,
        node,
        paced,
        last: false,
        commit: commit_of(c, manifest),
        wait: AckWaitView { expected: Set::empty(), acks: Set::empty() },
    }
}

/// The context, the commit and the action after an event.
#[verifier::ext_equal]
pub struct CommitOutcome {
    pub context: ContextView,
    pub run: CommitRunView,
    pub action: CommitActionView,
}

/// The commit goes on to `stage` with `action`.
pub open spec fn commit_on(
    c: ContextView,
    run: CommitRunView,
    stage: CommitStage,
    action: CommitActionView,
) -> CommitOutcome {
    CommitOutcome { context: c, run: CommitRunView { stage, ..run }, action }
}

/// The commit whose manifest has `hash`.
pub open spec fn signed(commit: TrainingCheckpointCommitView, hash: ArtifactId) ->
    TrainingCheckpointCommitView {
    TrainingCheckpointCommitView {
        manifest: TrainingCheckpointManifestView { hash, ..commit.manifest },
        ..commit
    }
}

/// What the wait for a majority has come to. The last checkpoint of groups that
/// advance on their own counts as committed only once it is confirmed.
pub open spec fn commit_waited(c: ContextView, run: CommitRunView, step: WaitStepView) ->
    CommitOutcome {
    match step {
        WaitStepView::Wait => commit_on(c, run, CommitStage::Confirming, CommitActionView::Wait),
        WaitStepView::Confirmed => {
            let after = ContextView {
                final_checkpoint_committed: c.final_checkpoint_committed || (run.last
                    && !run.paced),
                ..c
            };
            commit_on(
                after,
                run,
                CommitStage::Settling,
                CommitActionView::StoreState(state_of(after)),
            )
        },
        _ => commit_on(
            c,
            run,
            CommitStage::Over,
            CommitActionView::Fail(CommitError::Unconfirmed),
        ),
    }
}

/// What is done about an event.
pub open spec fn commit_stepped(c: ContextView, run: CommitRunView, event: CommitEvent) ->
    CommitOutcome {
    match (run.stage, event) {
        (CommitStage::Over, _) => commit_on(c, run, CommitStage::Over, CommitActionView::Wait),
        (_, CommitEvent::Failed) => commit_on(
            c,
            run,
            CommitStage::Over,
            CommitActionView::Fail(CommitError::ActionFailed),
        ),
        (CommitStage::Signing, CommitEvent::Signed(hash)) => commit_on(
            c,
            CommitRunView { commit: signed(run.commit, hash), ..run },
            CommitStage::Storing,
            CommitActionView::Store(signed(run.commit, hash)),
        ),
        (CommitStage::Storing, CommitEvent::Done) => commit_on(
            recorded_checkpoint(c, run.commit.manifest),
            CommitRunView { last: manifest_is_final(c, run.commit.manifest), ..run },
            CommitStage::Sending,
            CommitActionView::Send(run.commit),
        ),
        (CommitStage::Sending, CommitEvent::Done) => if run.paced || run.last {
            let wait = opened_wait(c, run.node);
            commit_waited(c, CommitRunView { wait, ..run }, checkpoint_waiting(wait))
        } else {
            commit_on(c, run, CommitStage::Settling, CommitActionView::StoreState(state_of(c)))
        },
        (CommitStage::Confirming, CommitEvent::Waited(came)) => {
            let o = checkpoint_awaited(c, run.wait, run.commit, came);
            commit_waited(o.context, CommitRunView { wait: o.wait, ..run }, o.step)
        },
        (CommitStage::Settling, CommitEvent::Done) => commit_on(
            c,
            run,
            CommitStage::Over,
            CommitActionView::Finish,
        ),
        _ => commit_on(c, run, run.stage, CommitActionView::Wait),
    }
}

/// Begin the commit of a manifest. The windows of the job are paced.
pub fn begin_commit(context: &Context, manifest: &TrainingCheckpointManifest, node: NodeId) -> (r: (
    CommitRun,
    CommitAction,
))
    ensures
        r.0@ == fresh_commit(context@, manifest@, node, true),
        r.1@ == CommitActionView::Sign(manifest@),
{
    (
        CommitRun {
            stage: CommitStage::Signing,
            node,
            paced: true,
            last: false,
            commit: commit_manifest(context, manifest),
            wait: AckWait { expected: NodeSet::new(), acks: NodeSet::new() },
        },
        CommitAction::Sign(manifest.duplicate()),
    )
}

/// Begin the commit of a checkpoint of the context, whose groups advance on their
/// own. There is none where no shard is known.
pub fn begin_context_commit(context: &Context, node: NodeId) -> (r: Option<
    (CommitRun, CommitAction),
>)
    ensures
        ({
            let shards = context_shards(context@);
            let manifest = manifest_of(context@, shards, shard_progress(shards));
            match r {
                Some((run, action)) => {
                    &&& shards.len() > 0
                    &&& run@ == fresh_commit(context@, manifest, node, false)
                    &&& action@ == CommitActionView::Sign(manifest)
                },
                None => shards.len() == 0,
            }
        }),
{
    match make_checkpoint_from_context(context) {
        None => None,
        Some(manifest) => {
            let (run, action) = begin_commit(context, &manifest, node);
            Some((CommitRun { paced: false, ..run }, action))
        },
    }
}

fn take_wait_step(context: &mut Context, run: &mut CommitRun, step: WaitStep) -> (r: CommitAction)
    ensures
        (CommitOutcome { context: final(context)@, run: final(run)@, action: r@ }) == commit_waited(
            old(context)@,
            old(run)@,
            step@,
        ),
{
    match step {
        WaitStep::Wait => {
            run.stage = CommitStage::Confirming;
            CommitAction::Wait
        },
        WaitStep::Confirmed => {
            if run.last && !run.paced {
                context.final_checkpoint_committed = true;
            }
            run.stage = CommitStage::Settling;
            CommitAction::StoreState(context.state())
        },
        _ => {
            run.stage = CommitStage::Over;
            CommitAction::Fail(CommitError::Unconfirmed)
        },
    }
}

/// Take in an event. The result is what is to be done next.
pub fn commit_context_checkpoint(
    context: &mut Context,
    run: &mut CommitRun,
    event: CommitEvent,
) -> (r: CommitAction)
    requires
        old(context).start.checkpoint_every > 0,
    ensures
        (CommitOutcome { context: final(context)@, run: final(run)@, action: r@ })
            == commit_stepped(old(context)@, old(run)@, event),
{
    match (run.stage, event) {
        (CommitStage::Over, _) => CommitAction::Wait,
        (_, CommitEvent::Failed) => {
            run.stage = CommitStage::Over;
            CommitAction::Fail(CommitError::ActionFailed)
        },
        (CommitStage::Signing, CommitEvent::Signed(hash)) => {
            run.commit.manifest.hash = hash;
            run.stage = CommitStage::Storing;
            CommitAction::Store(run.commit.duplicate())
        },
        (CommitStage::Storing, CommitEvent::Done) => {
            run.last = record_checkpoint(context, &run.commit.manifest);
            run.stage = CommitStage::Sending;
            CommitAction::Send(run.commit.duplicate())
        },
        (CommitStage::Sending, CommitEvent::Done) => {
            if run.paced || run.last {
                run.wait = begin_checkpoint_wait(context, run.node);
                let step = if checkpoint_wait_done(&run.wait) {
                    WaitStep::Confirmed
                } else {
                    WaitStep::Wait
                };
                take_wait_step(context, run, step)
            } else {
                run.stage = CommitStage::Settling;
                CommitAction::StoreState(context.state())
            }
        },
        (CommitStage::Confirming, CommitEvent::Waited(came)) => {
            let step = broadcast_checkpoint_and_wait(context, &mut run.wait, &run.commit, came);
            take_wait_step(context, run, step)
        },
        (CommitStage::Settling, CommitEvent::Done) => {
            run.stage = CommitStage::Over;
            CommitAction::Finish
        },
        _ => CommitAction::Wait,
    }
}

/// What holds of a commit: the last checkpoint is one of the whole model at the
/// last window, and only peers that count have acknowledged.
pub open spec fn commit_wf(c: ContextView, run: CommitRunView) -> bool {
    &&& run.last ==> manifest_is_final(c, run.commit.manifest)
    &&& run.stage == CommitStage::Signing ==> !run.last
    &&& acks_count(run.wait)
}

/// The last checkpoint counts as committed only after it has been recorded, covers
/// the whole model at the last window, and a majority of the peers that count has
/// acknowledged it.
pub proof fn law_last_checkpoint_is_confirmed(
    c: ContextView,
    manifest: TrainingCheckpointManifestView,
    node: NodeId,
    paced: bool,
    run: CommitRunView,
    event: CommitEvent,
)
    requires
        commit_wf(c, run),
    ensures
        commit_wf(c, fresh_commit(c, manifest, node, paced)),
        ({
            let o = commit_stepped(c, run, event);
            &&& commit_wf(o.context, o.run)
            &&& !c.final_checkpoint_committed && o.context.final_checkpoint_committed ==> {
                &&& run.stage == CommitStage::Sending || run.stage == CommitStage::Confirming
                &&& manifest_is_final(o.context, o.run.commit.manifest)
                &&& 2 * o.run.wait.acks.len() > o.run.wait.expected.len()
            }
        }),
{
    match event {
        CommitEvent::Waited(came) => {
            law_confirmed_checkpoint_has_a_majority(c, node, run.wait, run.commit, came);
        },
        _ => {
            law_confirmed_checkpoint_has_a_majority(
                c,
                run.node,
                run.wait,
                run.commit,
                WaitEvent::Other,
            );
        },
    }
}

/// A commit finishes only after its checkpoint was stored and sent out and, where it
/// is the last one or the windows are paced, held by a majority.
pub proof fn law_commit_runs_in_order(c: ContextView, run: CommitRunView, event: CommitEvent)
    ensures
        ({
            let o = commit_stepped(c, run, event);
            &&& o.action is Finish ==> run.stage == CommitStage::Settling
            &&& o.run.stage == CommitStage::Settling && run.stage != CommitStage::Settling ==> {
                ||| run.stage == CommitStage::Sending && !run.paced && !run.last
                ||| 2 * o.run.wait.acks.len() > o.run.wait.expected.len()
            }
            &&& o.run.stage == CommitStage::Sending && run.stage != CommitStage::Sending ==> {
                &&& run.stage == CommitStage::Storing
                &&& o.context.checkpoint == Some(run.commit.manifest.hash)
            }
        }),
{
}

/// A commit carries the manifest that it began with, under the hash that it was signed
/// with; storing it makes it the checkpoint of the context, and a confirmed last one of an
/// autonomous job the final one.
pub proof fn law_commit_carries_the_manifest(
    c: ContextView,
    manifest: TrainingCheckpointManifestView,
    node: NodeId,
    paced: bool,
    run: CommitRunView,
    hash: ArtifactId,
)
    ensures
        ({
            let f = fresh_commit(c, manifest, node, paced);
            &&& f.commit.manifest == manifest && f.node == node && f.paced == paced && !f.last
            &&& f.commit.term == c.term && f.commit.coordinator == c.coordinator
        }),
        run.stage is Signing ==> ({
            let o = commit_stepped(c, run, CommitEvent::Signed(hash));
            &&& o.action is Store
            &&& o.run.commit.manifest.hash == hash
            &&& o.run.commit.manifest.shards == run.commit.manifest.shards
            &&& o.run.commit.manifest.dataset_progress == run.commit.manifest.dataset_progress
            &&& o.run.commit.manifest.checkpoint_generation
                == run.commit.manifest.checkpoint_generation
            &&& o.run.commit.quorum == run.commit.quorum
            &&& o.action->Store_0 == o.run.commit
        }),
        run.stage is Storing ==> ({
            let o = commit_stepped(c, run, CommitEvent::Done);
            &&& o.action == CommitActionView::Send(run.commit)
            &&& o.context.checkpoint == Some(run.commit.manifest.hash)
            &&& o.context.checkpoint_generation == run.commit.manifest.checkpoint_generation
            &&& o.context.final_checkpoint_committed == c.final_checkpoint_committed
        }),
        run.stage is Sending && !run.paced && !run.last ==> commit_stepped(
            c,
            run,
            CommitEvent::Done,
        ).action is StoreState,
        run.stage is Settling ==> commit_stepped(c, run, CommitEvent::Done).action is Finish,
        !(run.stage is Over) ==> commit_stepped(c, run, CommitEvent::Failed).action
            == CommitActionView::Fail(CommitError::ActionFailed),
{
}

} // verus!
