//! How the coordinator brings what a graph places to all of its holders, and
//! waits for their answers.

use crate::base::ids::NodeId;
use crate::frontier::types::{V4ExecutionGraph, V4ExecutionGraphView};
use crate::frontier::waiting::{AckKey, AckSet};
use vstd::prelude::*;

verus! {

/// What is installed.
#[derive(Clone, Copy, Debug, PartialEq, Eq, Structural)]
pub enum Placed {
    Tensors,
    Optimizers,
    Stages,
}

/// How many of them a graph places.
pub open spec fn placed_count(graph: V4ExecutionGraphView, placed: Placed) -> int {
    match placed {
        Placed::Tensors => graph.shards.len() as int,
        Placed::Optimizers => graph.optimizer_shards.len() as int,
        Placed::Stages => graph.pipeline_stages.len() as int,
    }
}

/// The number of a shard or stage.
pub open spec fn placed_id(graph: V4ExecutionGraphView, placed: Placed, item: int) -> u16 {
    match placed {
        Placed::Tensors => graph.shards[item].shard_id,
        Placed::Optimizers => graph.optimizer_shards[item].shard_id,
        Placed::Stages => graph.pipeline_stages[item].stage_id,
    }
}

/// Who holds a shard or stage: its owner first, then its replicas.
pub open spec fn holders_of(graph: V4ExecutionGraphView, placed: Placed, item: int) -> Seq<NodeId> {
    match placed {
        Placed::Tensors => if graph.shards[item].owners.len() == 0 {
            Seq::empty()
        } else {
            seq![graph.shards[item].owners[0]] + graph.shards[item].replicas
        },
        Placed::Optimizers => seq![graph.optimizer_shards[item].owner]
            + graph.optimizer_shards[item].replicas,
        Placed::Stages => seq![graph.pipeline_stages[item].worker]
            + graph.pipeline_stages[item].replicas,
    }
}

/// The answer that a holder owes. Only the copies of tensors are answered in another
/// way than what the first holder gets.
pub open spec fn answer_of(
    graph: V4ExecutionGraphView,
    placed: Placed,
    item: int,
    place: int,
) -> AckKey {
    AckKey {
        peer: holders_of(graph, placed, item)[place],
        item: placed_id(graph, placed, item),
        replica: place > 0 && placed == Placed::Tensors,
    }
}

/// Where an installation stands: at a holder of an item, or at the end.
#[derive(Clone, Copy, Debug, PartialEq, Eq, Structural)]
pub enum InstallStep {
    /// This node is the holder.
    Here { item: usize, place: usize },
    /// The holder is sent its copy.
    Sending { item: usize, place: usize },
    /// The holders have to answer.
    Answers,
    Over,
}

/// A running installation.
#[derive(Debug)]
pub struct Installation {
    pub placed: Placed,
    pub node: NodeId,
    pub awaited: AckSet,
    pub step: InstallStep,
}

/// The contents of an [`Installation`].
#[verifier::ext_equal]
pub struct InstallationView {
    pub placed: Placed,
    pub node: NodeId,
    pub awaited: Set<AckKey>,
    pub step: InstallStep,
}

impl View for Installation {
    type V = InstallationView;

    open spec fn view(&self) -> InstallationView {
        InstallationView {
            placed: self.placed,
            node: self.node,
            awaited: self.awaited@,
            step: self.step,
        }
    }
}

/// What an installation learns.
#[derive(Clone, Copy, Debug, PartialEq, Eq, Structural)]
pub enum InstallEvent {
    Installed,
    NotInstalled,
    Sent,
    NotSent,
    /// A holder answered.
    Answer { placed: Placed, peer: NodeId, id: u16, replica: bool, accepted: bool },
    OtherMessage,
    /// No message came in time, or none can come any more.
    NoMessage,
}

/// Why an installation failed.
#[derive(Clone, Copy, Debug, PartialEq, Eq, Structural)]
pub enum InstallError {
    /// A tensor shard has no owner.
    Ownerless,
    /// The installation on this node failed.
    Local,
    /// A holder could not be reached.
    Unreachable,
    /// A holder did not answer.
    NoAnswer,
}

/// What an installation does next.
#[derive(Clone, Copy, Debug, PartialEq, Eq, Structural)]
pub enum InstallAction {
    /// Install an item on this node.
    InstallHere { item: usize },
    /// Send an item to a holder; `replica` tells whether it is not the first.
    Send { item: usize, to: NodeId, replica: bool },
    /// Wait for a message.
    Wait,
    Done,
    Fail(InstallError),
    /// The event was not awaited.
    Ignore,
}

/// The holder at `place` gets its copy.
pub open spec fn holder_reached(
    s: InstallationView,
    graph: V4ExecutionGraphView,
    item: int,
    place: int,
) -> (InstallationView, InstallAction) {
    let holder = holders_of(graph, s.placed, item)[place];
    if holder == s.node {
        (
            InstallationView {
                step: InstallStep::Here { item: item as usize, place: place as usize },
                ..s
            },
            InstallAction::InstallHere { item: item as usize },
        )
    } else {
        (
            InstallationView {
                step: InstallStep::Sending { item: item as usize, place: place as usize },
                ..s
            },
            InstallAction::Send { item: item as usize, to: holder, replica: place > 0 },
        )
    }
}

/// Every holder has its copy: the other holders have to answer, then the
/// installation is over.
pub open spec fn all_reached(s: InstallationView) -> (InstallationView, InstallAction) {
    if s.awaited != Set::<AckKey>::empty() {
        (InstallationView { step: InstallStep::Answers, ..s }, InstallAction::Wait)
    } else {
        (InstallationView { step: InstallStep::Over, ..s }, InstallAction::Done)
    }
}

/// An installation that fails.
pub open spec fn failed_installation(s: InstallationView, error: InstallError) -> (
    InstallationView,
    InstallAction,
) {
    (InstallationView { step: InstallStep::Over, ..s }, InstallAction::Fail(error))
}

/// An item goes to its first holder.
pub open spec fn item_opened(s: InstallationView, graph: V4ExecutionGraphView, item: int) -> (
    InstallationView,
    InstallAction,
) {
    if item >= placed_count(graph, s.placed) {
        all_reached(s)
    } else if holders_of(graph, s.placed, item).len() == 0 {
        failed_installation(s, InstallError::Ownerless)
    } else {
        holder_reached(s, graph, item, 0)
    }
}

/// The next holder, or the next item.
pub open spec fn after_holder(
    s: InstallationView,
    graph: V4ExecutionGraphView,
    item: int,
    place: int,
) -> (InstallationView, InstallAction) {
    if place + 1 < holders_of(graph, s.placed, item).len() {
        holder_reached(s, graph, item, place + 1)
    } else {
        item_opened(s, graph, item + 1)
    }
}

/// The place is one of the graph.
pub open spec fn on_graph(
    graph: V4ExecutionGraphView,
    placed: Placed,
    item: int,
    place: int,
) -> bool {
    0 <= item < placed_count(graph, placed) && 0 <= place < holders_of(graph, placed, item).len()
}

/// The next step of an installation.
pub open spec fn install_stepped(
    s: InstallationView,
    graph: V4ExecutionGraphView,
    event: InstallEvent,
) -> (InstallationView, InstallAction) {
    match (s.step, event) {
        (InstallStep::Here { item, place }, InstallEvent::Installed) => if on_graph(
            graph,
            s.placed,
            item as int,
            place as int,
        ) {
            after_holder(s, graph, item as int, place as int)
        } else {
            (s, InstallAction::Ignore)
        },
        (InstallStep::Here { .. }, InstallEvent::NotInstalled) => failed_installation(
            s,
            InstallError::Local,
        ),
        (InstallStep::Sending { item, place }, InstallEvent::Sent) => if on_graph(
            graph,
            s.placed,
            item as int,
            place as int,
        ) {
            after_holder(
                InstallationView {
                    awaited: s.awaited.insert(
                        answer_of(graph, s.placed, item as int, place as int),
                    ),
                    ..s
                },
                graph,
                item as int,
                place as int,
            )
        } else {
            (s, InstallAction::Ignore)
        },
        (InstallStep::Sending { .. }, InstallEvent::NotSent) => failed_installation(
            s,
            InstallError::Unreachable,
        ),
        (InstallStep::Answers, InstallEvent::Answer { placed, peer, id, replica, accepted }) =>
            if placed == s.placed && accepted {
            all_reached(
                InstallationView {
                    awaited: s.awaited.remove(AckKey { peer, item: id, replica }),
                    ..s
                },
            )
        } else {
            (s, InstallAction::Wait)
        },
        (InstallStep::Answers, InstallEvent::OtherMessage) => (s, InstallAction::Wait),
        (InstallStep::Answers, InstallEvent::NoMessage) => failed_installation(
            s,
            InstallError::NoAnswer,
        ),
        _ => (s, InstallAction::Ignore),
    }
}

fn count_placed(graph: &V4ExecutionGraph, placed: Placed) -> (r: usize)
    ensures
        r == placed_count(graph@, placed),
{
    match placed {
        Placed::Tensors => graph.shards.len(),
        Placed::Optimizers => graph.optimizer_shards.len(),
        Placed::Stages => graph.pipeline_stages.len(),
    }
}

fn id_placed(graph: &V4ExecutionGraph, placed: Placed, item: usize) -> (r: u16)
    requires
        item < placed_count(graph@, placed),
    ensures
        r == placed_id(graph@, placed, item as int),
{
    match placed {
        Placed::Tensors => {
            assert(graph@.shards[item as int] == graph.shards@[item as int]@);
            graph.shards[item].shard_id
        },
        Placed::Optimizers => {
            assert(graph@.optimizer_shards[item as int] == graph.optimizer_shards@[item as int]@);
            graph.optimizer_shards[item].shard_id
        },
        Placed::Stages => {
            assert(graph@.pipeline_stages[item as int] == graph.pipeline_stages@[item as int]@);
            graph.pipeline_stages[item].stage_id
        },
    }
}

fn holder_list(first: NodeId, replicas: &Vec<NodeId>) -> (r: Vec<NodeId>)
    ensures
        r@ == seq![first] + replicas@,
{
    let mut out: Vec<NodeId> = Vec::new();
    out.push(first);
    let mut i: usize = 0;
    while i < replicas.len()
        invariant
            0 <= i <= replicas@.len(),
            out@ == seq![first] + replicas@.take(i as int),
        decreases replicas@.len() - i,
    {
        out.push(replicas[i]);
        assert(out@ =~= seq![first] + replicas@.take(i as int + 1));
        i += 1;
    }
    assert(replicas@.take(i as int) =~= replicas@);
    out
}

fn holders_placed(graph: &V4ExecutionGraph, placed: Placed, item: usize) -> (r: Vec<NodeId>)
    requires
        item < placed_count(graph@, placed),
    ensures
        r@ == holders_of(graph@, placed, item as int),
{
    match placed {
        Placed::Tensors => {
            let shard = &graph.shards[item];
            assert(graph@.shards[item as int] == shard@);
            if shard.owners.len() == 0 {
                Vec::new()
            } else {
                holder_list(shard.owners[0], &shard.replicas)
            }
        },
        Placed::Optimizers => {
            let shard = &graph.optimizer_shards[item];
            assert(graph@.optimizer_shards[item as int] == shard@);
            holder_list(shard.owner, &shard.replicas)
        },
        Placed::Stages => {
            let stage = &graph.pipeline_stages[item];
            assert(graph@.pipeline_stages[item as int] == stage@);
            holder_list(stage.worker, &stage.replicas)
        },
    }
}

fn reach_holder(s: &mut Installation, holders: &Vec<NodeId>, item: usize, place: usize) -> (r:
    InstallAction)
    requires
        place < holders@.len(),
    ensures
        forall|graph: V4ExecutionGraphView|
            holders@ == #[trigger] holders_of(graph, old(s).placed, item as int) ==> (final(s)@, r)
                == holder_reached(old(s)@, graph, item as int, place as int),
{
    let holder = holders[place];
    if holder == s.node {
        s.step = InstallStep::Here { item, place };
        InstallAction::InstallHere { item }
    } else {
        s.step = InstallStep::Sending { item, place };
        InstallAction::Send { item, to: holder, replica: place > 0 }
    }
}

fn await_answers(s: &mut Installation) -> (r: InstallAction)
    ensures
        (final(s)@, r) == all_reached(old(s)@),
{
    if !s.awaited.is_empty() {
        s.step = InstallStep::Answers;
        InstallAction::Wait
    } else {
        s.step = InstallStep::Over;
        InstallAction::Done
    }
}

fn open_item(s: &mut Installation, graph: &V4ExecutionGraph, item: usize) -> (r: InstallAction)
    ensures
        (final(s)@, r) == item_opened(old(s)@, graph@, item as int),
{
    if item >= count_placed(graph, s.placed) {
        return await_answers(s);
    }
    let holders = holders_placed(graph, s.placed, item);
    if holders.len() == 0 {
        s.step = InstallStep::Over;
        return InstallAction::Fail(InstallError::Ownerless);
    }
    reach_holder(s, &holders, item, 0)
}

fn next_holder(
    s: &mut Installation,
    graph: &V4ExecutionGraph,
    holders: &Vec<NodeId>,
    item: usize,
    place: usize,
) -> (r: InstallAction)
    requires
        item < placed_count(graph@, old(s).placed),
        holders@ == holders_of(graph@, old(s).placed, item as int),
        place < holders@.len(),
    ensures
        (final(s)@, r) == after_holder(old(s)@, graph@, item as int, place as int),
{
    let count: usize = count_placed(graph, s.placed);
    assert(item < count);
    if place < holders.len() - 1 {
        reach_holder(s, holders, item, place + 1)
    } else {
        open_item(s, graph, item + 1)
    }
}

/// Begin to install the tensor shards, the optimizer states or the stages of a
/// graph.
pub fn begin_installation(graph: &V4ExecutionGraph, placed: Placed, node: NodeId) -> (r: (
    Installation,
    InstallAction,
))
    ensures
        (r.0@, r.1) == item_opened(
            (InstallationView { placed, node, awaited: Set::empty(), step: InstallStep::Over }),
            graph@,
            0,
        ),
{
    let mut s = Installation { placed, node, awaited: AckSet::new(), step: InstallStep::Over };
    let action = open_item(&mut s, graph, 0);
    (s, action)
}

/// Take an installation one step on.
pub fn install_integrated_state(s: &mut Installation, graph: &V4ExecutionGraph, event: InstallEvent) ->
    (r: InstallAction)
    ensures
        (final(s)@, r) == install_stepped(old(s)@, graph@, event),
{
    match (s.step, event) {
        (InstallStep::Here { item, place }, InstallEvent::Installed) => {
            if item < count_placed(graph, s.placed) {
                let holders = holders_placed(graph, s.placed, item);
                if place < holders.len() {
                    return next_holder(s, graph, &holders, item, place);
                }
            }
            InstallAction::Ignore
        },
        (InstallStep::Here { .. }, InstallEvent::NotInstalled) => {
            s.step = InstallStep::Over;
            InstallAction::Fail(InstallError::Local)
        },
        (InstallStep::Sending { item, place }, InstallEvent::Sent) => {
            if item < count_placed(graph, s.placed) {
                let holders = holders_placed(graph, s.placed, item);
                if place < holders.len() {
                    let replica = place > 0 && s.placed == Placed::Tensors;
                    let id: u16 = id_placed(graph, s.placed, item);
                    s.awaited.insert(AckKey { peer: holders[place], item: id, replica });
                    return next_holder(s, graph, &holders, item, place);
                }
            }
            InstallAction::Ignore
        },
        (InstallStep::Sending { .. }, InstallEvent::NotSent) => {
            s.step = InstallStep::Over;
            InstallAction::Fail(InstallError::Unreachable)
        },
        (InstallStep::Answers, InstallEvent::Answer { placed, peer, id, replica, accepted }) => {
            if placed == s.placed && accepted {
                s.awaited.remove(AckKey { peer, item: id, replica });
                await_answers(s)
            } else {
                InstallAction::Wait
            }
        },
        (InstallStep::Answers, InstallEvent::OtherMessage) => InstallAction::Wait,
        (InstallStep::Answers, InstallEvent::NoMessage) => {
            s.step = InstallStep::Over;
            InstallAction::Fail(InstallError::NoAnswer)
        },
        _ => InstallAction::Ignore,
    }
}

/// `key` is the answer of the holder at a place, which is another node.
pub open spec fn owed_at(
    graph: V4ExecutionGraphView,
    placed: Placed,
    node: NodeId,
    item: int,
    place: int,
    key: AckKey,
) -> bool {
    on_graph(graph, placed, item, place) && holders_of(graph, placed, item)[place] != node && key
        == answer_of(graph, placed, item, place)
}

/// The answers of the other holders that come before a place.
pub open spec fn owed_before(
    graph: V4ExecutionGraphView,
    placed: Placed,
    node: NodeId,
    item: int,
    place: int,
) -> Set<AckKey> {
    Set::new(
        |key: AckKey|
            exists|i: int, p: int|
                #[trigger] owed_at(graph, placed, node, i, p, key) && (i < item || i == item && p
                    < place),
    )
}

/// The installation stands at a place of the graph, and it awaits exactly the
/// answers of the other holders before it.
pub open spec fn at_place(
    s: InstallationView,
    graph: V4ExecutionGraphView,
    item: int,
    place: int,
) -> bool {
    &&& on_graph(graph, s.placed, item, place)
    &&& s.step is Here <==> holders_of(graph, s.placed, item)[place] == s.node
    &&& s.awaited == owed_before(graph, s.placed, s.node, item, place)
}

/// The installation stands where it should.
pub open spec fn installation_wf(s: InstallationView, graph: V4ExecutionGraphView) -> bool {
    match s.step {
        InstallStep::Here { item, place } => at_place(s, graph, item as int, place as int),
        InstallStep::Sending { item, place } => at_place(s, graph, item as int, place as int),
        _ => true,
    }
}

proof fn lemma_owed_step(
    graph: V4ExecutionGraphView,
    placed: Placed,
    node: NodeId,
    item: int,
    place: int,
)
    requires
        on_graph(graph, placed, item, place),
    ensures
        owed_before(graph, placed, node, item, place + 1) == (if holders_of(graph, placed, item)[place]
            != node {
            owed_before(graph, placed, node, item, place).insert(
                answer_of(graph, placed, item, place),
            )
        } else {
            owed_before(graph, placed, node, item, place)
        }),
        place + 1 == holders_of(graph, placed, item).len() ==> owed_before(
            graph,
            placed,
            node,
            item,
            place + 1,
        ) == owed_before(graph, placed, node, item + 1, 0),
{
    let before = owed_before(graph, placed, node, item, place);
    let after = owed_before(graph, placed, node, item, place + 1);
    let key = answer_of(graph, placed, item, place);
    let remote = holders_of(graph, placed, item)[place] != node;
    assert(remote ==> owed_at(graph, placed, node, item, place, key));
    assert forall|k: AckKey| after.contains(k) <==> (before.contains(k) || remote && k == key) by {
        if after.contains(k) {
            let (i, p) = choose|i: int, p: int|
                #[trigger] owed_at(graph, placed, node, i, p, k) && (i < item || i == item && p
                    < place + 1);
            assert(owed_at(graph, placed, node, i, p, k));
        }
    }
    assert(after =~= if remote {
        before.insert(key)
    } else {
        before
    });
    if place + 1 == holders_of(graph, placed, item).len() {
        let next = owed_before(graph, placed, node, item + 1, 0);
        assert forall|k: AckKey| after.contains(k) <==> next.contains(k) by {
            if next.contains(k) {
                let (i, p) = choose|i: int, p: int|
                    #[trigger] owed_at(graph, placed, node, i, p, k) && (i < item + 1 || i == item
                        + 1 && p < 0);
                assert(owed_at(graph, placed, node, i, p, k));
            }
        }
        assert(after =~= next);
    }
}

/// Every holder other than this node owes an answer, and nobody else does: when
/// an installation begins to wait, it awaits exactly the answers of all other
/// holders, and it succeeds only once each of them has come.
pub proof fn law_every_holder_answers(
    s: InstallationView,
    graph: V4ExecutionGraphView,
    event: InstallEvent,
)
    requires
        installation_wf(s, graph),
        placed_count(graph, s.placed) <= usize::MAX,
        forall|i: int| #[trigger] holders_of(graph, s.placed, i).len() <= usize::MAX,
    ensures
        ({
            let (after, action) = install_stepped(s, graph, event);
            &&& installation_wf(after, graph)
            &&& (s.step is Here || s.step is Sending) && (after.step is Answers || action
                == InstallAction::Done) ==> after.awaited == owed_before(
                graph,
                s.placed,
                s.node,
                placed_count(graph, s.placed),
                0,
            )
            &&& action == InstallAction::Done ==> after.awaited == Set::<AckKey>::empty()
        }),
{
    match s.step {
        InstallStep::Here { item, place } => {
            lemma_owed_step(graph, s.placed, s.node, item as int, place as int);
        },
        InstallStep::Sending { item, place } => {
            lemma_owed_step(graph, s.placed, s.node, item as int, place as int);
        },
        _ => {},
    }
}

/// Who holds a shard or stage: the owner first, then every replica; each owes an answer
/// with its number, and only copies of tensors are answered as replicas.
pub proof fn law_holders_owe_answers(graph: V4ExecutionGraphView, placed: Placed, item: int, place: int)
    requires
        on_graph(graph, placed, item, place),
    ensures
        ({
            let h = holders_of(graph, placed, item);
            let key = answer_of(graph, placed, item, place);
            &&& key.peer == h[place]
            &&& key.replica <==> place > 0 && placed is Tensors
            &&& placed is Tensors ==> key.item == graph.shards[item].shard_id && h.len() == 1
                + graph.shards[item].replicas.len() && h[0] == graph.shards[item].owners[0] && (
            place > 0 ==> h[place] == graph.shards[item].replicas[place - 1])
            &&& placed is Optimizers ==> key.item == graph.optimizer_shards[item].shard_id
                && h.len() == 1 + graph.optimizer_shards[item].replicas.len() && h[0]
                == graph.optimizer_shards[item].owner && (place > 0 ==> h[place]
                == graph.optimizer_shards[item].replicas[place - 1])
            &&& placed is Stages ==> key.item == graph.pipeline_stages[item].stage_id && h.len()
                == 1 + graph.pipeline_stages[item].replicas.len() && h[0]
                == graph.pipeline_stages[item].worker && (place > 0 ==> h[place]
                == graph.pipeline_stages[item].replicas[place - 1])
        }),
        placed is Tensors ==> placed_count(graph, placed) == graph.shards.len(),
        placed is Optimizers ==> placed_count(graph, placed) == graph.optimizer_shards.len(),
        placed is Stages ==> placed_count(graph, placed) == graph.pipeline_stages.len(),
{
}

/// This node installs its own copy, another holder is sent one; an accepted answer settles
/// what it answers, and the installation is done when nothing is awaited.
pub proof fn law_installation_goes_holder_by_holder(
    s: InstallationView,
    graph: V4ExecutionGraphView,
    item: usize,
    place: usize,
    placed: Placed,
    peer: NodeId,
    id: u16,
    replica: bool,
    accepted: bool,
)
    requires
        on_graph(graph, s.placed, item as int, place as int),
    ensures
        ({
            let holder = holders_of(graph, s.placed, item as int)[place as int];
            let (after, action) = holder_reached(s, graph, item as int, place as int);
            &&& holder == s.node ==> action == (InstallAction::InstallHere { item })
            &&& holder != s.node ==> action == (InstallAction::Send {
                item,
                to: holder,
                replica: place > 0,
            })
        }),
        s.step is Answers ==> ({
            let (after, action) = install_stepped(
                s,
                graph,
                InstallEvent::Answer { placed, peer, id, replica, accepted },
            );
            &&& placed == s.placed && accepted ==> after.awaited == s.awaited.remove(
                AckKey { peer, item: id, replica },
            ) && (action is Done <==> after.awaited == Set::<AckKey>::empty())
            &&& placed != s.placed || !accepted ==> after == s && action is Wait
        }),
        s.step is Answers ==> install_stepped(s, graph, InstallEvent::NoMessage).1
            == InstallAction::Fail(InstallError::NoAnswer),
        s.step is Sending ==> install_stepped(s, graph, InstallEvent::NotSent).1
            == InstallAction::Fail(InstallError::Unreachable),
        s.step is Here ==> install_stepped(s, graph, InstallEvent::NotInstalled).1
            == InstallAction::Fail(InstallError::Local),
{
}

/// An item goes to its first holder; one without a holder fails the installation, and
/// behind the last one the answers are awaited, or nothing is left to do.
pub proof fn law_items_go_to_their_first_holder(
    s: InstallationView,
    graph: V4ExecutionGraphView,
    item: int,
)
    requires
        item >= 0,
    ensures
        item < placed_count(graph, s.placed) && holders_of(graph, s.placed, item).len() == 0
            ==> item_opened(s, graph, item).1 == InstallAction::Fail(InstallError::Ownerless),
        item >= placed_count(graph, s.placed) && s.awaited == Set::<AckKey>::empty()
            ==> item_opened(s, graph, item).1 is Done,
        item >= placed_count(graph, s.placed) && s.awaited != Set::<AckKey>::empty()
            ==> item_opened(s, graph, item).1 is Wait,
        item <= usize::MAX && item < placed_count(graph, s.placed) && holders_of(
            graph,
            s.placed,
            item,
        ).len() > 0 && holders_of(graph, s.placed, item)[0] != s.node ==> item_opened(
            s,
            graph,
            item,
        ).1 == (InstallAction::Send {
            item: item as usize,
            to: holders_of(graph, s.placed, item)[0],
            replica: false,
        }),
{
}

} // verus!
