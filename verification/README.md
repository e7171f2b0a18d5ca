# distributed_training

Decisions of distributed model training, verified with Verus.

Nodes train a model together without a fixed leader and without a node that sees
every update. The library holds what such a node decides and computes: who
belongs to a job, who leads it, which message is accepted, what state follows,
and what is sent next. Each decision is a function on plain values with an exact
contract; the sending, the storing and the waiting are done by the code around
it.

## Layout

- `src/base`: identities, ordered maps, node sets, searches, saturating
  arithmetic and the text of stored names.
- `src/reference`: the reference job. Groups of workers train shards with local
  steps, an aggregator of each group combines the updates by a bounded median, a
  replaceable coordinator paces the windows and commits checkpoints.
- `src/frontier`: planned jobs. Tensor shards, pipeline stages, optimizer states
  and collectives are placed by a plan and run by an execution graph whose
  members, and whose coordinator, can change while the job runs.
- `tests`: runs of the public functions on concrete values.
- `app`: the node around the library, with its mailboxes, clock, disk and
  network.

## How decisions are stated

A record has a view: the same fields over sequences and maps. The contract of a
function equates its result with a specification function of the views of its
arguments. A process that waits in between is a state machine: a specification
function from state and event to the next state and action, and a function of
the same name that computes it.

What holds over several calls stands beside the functions as proof functions
named `law_..`: terms and generations only move forward, one vote for each
planned job and term, no coordinator without a quorum, no report before the whole
model has its last checkpoint and a majority holds it, no peer that sees all
updates, no shard that is lost on its way to another owner, no plan or graph that
counts before everyone concerned has confirmed it.

Hashes of records, the planner and the compute backends belong to the
surrounding node. The functions take their results as arguments, so the
contracts hold for every value of them.
