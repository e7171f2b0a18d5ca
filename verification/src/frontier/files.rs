//! The names under which a node stores its records, and what is found again
//! under a name.

use crate::base::text::{
    begins, between, framed, is_framed, lemma_numeral_value, number_in, number_text, numeral,
    read_number,
};
use vstd::prelude::*;
use vstd::string::*;

verus! {

/// What a file holds.
#[derive(Clone, Copy, Debug, PartialEq, Eq, Structural)]
pub enum StateFile {
    /// The data of a shard.
    DataShard,
    /// A replicated training state.
    TrainingState,
    /// The graph of an integrated job.
    IntegratedGraph,
    /// The state of an integrated job.
    IntegratedState,
    /// The vote of this node.
    IntegratedElection,
    /// A proposed plan.
    PlanProposal,
    /// A plan in force.
    Plan,
    /// An optimizer state.
    OptimizerState,
    /// A replicated optimizer shard.
    OptimizerShard,
    /// The manifest of a checkpoint.
    Checkpoint,
    /// A tensor shard.
    TensorShard,
    /// A pipeline stage.
    PipelineStage,
    /// The result of an integrated job.
    IntegratedResult,
    /// The record of a branch.
    IntegratedBranch,
}

/// How the names of the files begin.
pub open spec fn prefix_of(file: StateFile) -> Seq<char> {
    match file {
        StateFile::DataShard => "v4-data-shard-"@,
        StateFile::TrainingState => "v4-training-state-"@,
        StateFile::IntegratedGraph => "v4-integrated-graph-"@,
        StateFile::IntegratedState => "v4-integrated-state-"@,
        StateFile::IntegratedElection => "v4-integrated-election-"@,
        StateFile::PlanProposal => "v4-plan-proposal-"@,
        StateFile::Plan => "v4-plan-"@,
        StateFile::OptimizerState => "v4-optimizer-state-"@,
        StateFile::OptimizerShard => "v4-optimizer-shard-"@,
        StateFile::Checkpoint => "v4-checkpoint-"@,
        StateFile::TensorShard => "v4-tensor-shard-"@,
        StateFile::PipelineStage => "v4-pipeline-stage-"@,
        StateFile::IntegratedResult => "v4-integrated-result-"@,
        StateFile::IntegratedBranch => "v4-integrated-branch-"@,
    }
}

fn prefix_text(file: StateFile) -> (r: &'static str)
    ensures
        r@ == prefix_of(file),
{
    match file {
        StateFile::DataShard => "v4-data-shard-",
        StateFile::TrainingState => "v4-training-state-",
        StateFile::IntegratedGraph => "v4-integrated-graph-",
        StateFile::IntegratedState => "v4-integrated-state-",
        StateFile::IntegratedElection => "v4-integrated-election-",
        StateFile::PlanProposal => "v4-plan-proposal-",
        StateFile::Plan => "v4-plan-",
        StateFile::OptimizerState => "v4-optimizer-state-",
        StateFile::OptimizerShard => "v4-optimizer-shard-",
        StateFile::Checkpoint => "v4-checkpoint-",
        StateFile::TensorShard => "v4-tensor-shard-",
        StateFile::PipelineStage => "v4-pipeline-stage-",
        StateFile::IntegratedResult => "v4-integrated-result-",
        StateFile::IntegratedBranch => "v4-integrated-branch-",
    }
}

/// The text of a job, or of one of its numbered parts.
pub open spec fn label_of(job: Seq<char>, part: Option<u64>) -> Seq<char> {
    match part {
        Some(n) => job + "-"@ + numeral(n as nat),
        None => job,
    }
}

/// The name of the file of a job, or of one of its numbered parts.
pub open spec fn name_of(file: StateFile, job: Seq<char>, part: Option<u64>) -> Seq<char> {
    prefix_of(file) + label_of(job, part) + ".json"@
}

/// The name of the file of a job, or of one of its numbered parts. `job` is the
/// job's identity in text.
pub fn state_file_name(file: StateFile, job: &str, part: Option<u64>) -> (r: String)
    ensures
        r@ == name_of(file, job@, part),
{
    let mut name = prefix_text(file).to_owned();
    name.append(job);
    match part {
        Some(n) => {
            name.append("-");
            let digits = number_text(n);
            name.append(digits.as_str());
        },
        None => {},
    }
    name.append(".json");
    assert(name@ =~= name_of(file, job@, part));
    name
}

/// What a name stands for, of what a node takes up again when it starts.
pub open spec fn file_named(name: Seq<char>) -> Option<StateFile> {
    let suffix = ".json"@;
    if framed(name, prefix_of(StateFile::DataShard), suffix) {
        Some(StateFile::DataShard)
    } else if framed(name, prefix_of(StateFile::TrainingState), suffix) {
        Some(StateFile::TrainingState)
    } else if framed(name, prefix_of(StateFile::IntegratedGraph), suffix) {
        Some(StateFile::IntegratedGraph)
    } else if framed(name, prefix_of(StateFile::IntegratedState), suffix) {
        Some(StateFile::IntegratedState)
    } else if framed(name, prefix_of(StateFile::IntegratedElection), suffix) {
        Some(StateFile::IntegratedElection)
    } else if framed(name, prefix_of(StateFile::PlanProposal), suffix) {
        Some(StateFile::PlanProposal)
    } else if framed(name, prefix_of(StateFile::Plan), suffix) {
        Some(StateFile::Plan)
    } else if framed(name, prefix_of(StateFile::OptimizerState), suffix) {
        Some(StateFile::OptimizerState)
    } else if framed(name, prefix_of(StateFile::OptimizerShard), suffix) {
        Some(StateFile::OptimizerShard)
    } else if framed(name, prefix_of(StateFile::Checkpoint), suffix) {
        Some(StateFile::Checkpoint)
    } else if framed(name, prefix_of(StateFile::TensorShard), suffix) {
        Some(StateFile::TensorShard)
    } else if framed(name, prefix_of(StateFile::PipelineStage), suffix) {
        Some(StateFile::PipelineStage)
    } else {
        None
    }
}

/// What a name stands for, of what a node takes up again when it starts.
pub fn classify_state_file(name: &str) -> (r: Option<StateFile>)
    ensures
        r == file_named(name@),
{
    let suffix = ".json";
    if is_framed(name, prefix_text(StateFile::DataShard), suffix) {
        Some(StateFile::DataShard)
    } else if is_framed(name, prefix_text(StateFile::TrainingState), suffix) {
        Some(StateFile::TrainingState)
    } else if is_framed(name, prefix_text(StateFile::IntegratedGraph), suffix) {
        Some(StateFile::IntegratedGraph)
    } else if is_framed(name, prefix_text(StateFile::IntegratedState), suffix) {
        Some(StateFile::IntegratedState)
    } else if is_framed(name, prefix_text(StateFile::IntegratedElection), suffix) {
        Some(StateFile::IntegratedElection)
    } else if is_framed(name, prefix_text(StateFile::PlanProposal), suffix) {
        Some(StateFile::PlanProposal)
    } else if is_framed(name, prefix_text(StateFile::Plan), suffix) {
        Some(StateFile::Plan)
    } else if is_framed(name, prefix_text(StateFile::OptimizerState), suffix) {
        Some(StateFile::OptimizerState)
    } else if is_framed(name, prefix_text(StateFile::OptimizerShard), suffix) {
        Some(StateFile::OptimizerShard)
    } else if is_framed(name, prefix_text(StateFile::Checkpoint), suffix) {
        Some(StateFile::Checkpoint)
    } else if is_framed(name, prefix_text(StateFile::TensorShard), suffix) {
        Some(StateFile::TensorShard)
    } else if is_framed(name, prefix_text(StateFile::PipelineStage), suffix) {
        Some(StateFile::PipelineStage)
    } else {
        None
    }
}

/// A file that is taken up again when a node starts.
pub open spec fn restored(file: StateFile) -> bool {
    !(file is IntegratedResult) && !(file is IntegratedBranch)
}

proof fn lemma_prefixes_differ(a: StateFile, b: StateFile)
    requires
        a != b,
        restored(b),
        !(a is Plan && b is PlanProposal),
        !(a is PlanProposal && b is Plan),
    ensures
        ({
            let p = prefix_of(a);
            let q = prefix_of(b);
            ||| p[3] != q[3] && p.len() > 3 && q.len() > 3
            ||| p[4] != q[4] && p.len() > 4 && q.len() > 4
            ||| p[14] != q[14] && p.len() > 14 && q.len() > 14
        }),
{
    reveal_strlit("v4-data-shard-");
    reveal_strlit("v4-training-state-");
    reveal_strlit("v4-integrated-graph-");
    reveal_strlit("v4-integrated-state-");
    reveal_strlit("v4-integrated-election-");
    reveal_strlit("v4-plan-proposal-");
    reveal_strlit("v4-plan-");
    reveal_strlit("v4-optimizer-state-");
    reveal_strlit("v4-optimizer-shard-");
    reveal_strlit("v4-checkpoint-");
    reveal_strlit("v4-tensor-shard-");
    reveal_strlit("v4-pipeline-stage-");
    reveal_strlit("v4-integrated-result-");
    reveal_strlit("v4-integrated-branch-");
}

proof fn lemma_name_frame(file: StateFile, job: Seq<char>, part: Option<u64>)
    ensures
        framed(name_of(file, job, part), prefix_of(file), ".json"@),
{
    let name = name_of(file, job, part);
    let p = prefix_of(file);
    assert(name.subrange(0, p.len() as int) =~= p);
    assert(name.subrange(name.len() - ".json"@.len(), name.len() as int) =~= ".json"@);
}

proof fn lemma_other_prefix(file: StateFile, other: StateFile, job: Seq<char>, part: Option<u64>)
    requires
        file != other,
        restored(other),
        !(file is Plan && other is PlanProposal),
        !(file is PlanProposal && other is Plan),
    ensures
        !framed(name_of(file, job, part), prefix_of(other), ".json"@),
{
    let name = name_of(file, job, part);
    let p = prefix_of(file);
    let q = prefix_of(other);
    lemma_prefixes_differ(file, other);
    if begins(name, q) {
        let s = name.subrange(0, q.len() as int);
        if p[3] != q[3] && p.len() > 3 && q.len() > 3 {
            assert(s[3] == name[3] && name[3] == p[3]);
        } else if p[4] != q[4] && p.len() > 4 && q.len() > 4 {
            assert(s[4] == name[4] && name[4] == p[4]);
        } else {
            assert(s[14] == name[14] && name[14] == p[14]);
        }
    }
}

/// What is stored under the name of a kind of file is taken up as that kind
/// again. (A plan whose label begins with the word of a proposal would be taken
/// for one.)
pub proof fn law_names_are_told_apart(file: StateFile, job: Seq<char>, part: Option<u64>)
    requires
        restored(file),
        file is Plan ==> !begins(label_of(job, part), "proposal-"@),
    ensures
        file_named(name_of(file, job, part)) == Some(file),
{
    lemma_name_frame(file, job, part);
    if file != StateFile::DataShard {
        lemma_other_prefix(file, StateFile::DataShard, job, part);
    }
    if file != StateFile::TrainingState {
        lemma_other_prefix(file, StateFile::TrainingState, job, part);
    }
    if file != StateFile::IntegratedGraph {
        lemma_other_prefix(file, StateFile::IntegratedGraph, job, part);
    }
    if file != StateFile::IntegratedState {
        lemma_other_prefix(file, StateFile::IntegratedState, job, part);
    }
    if file != StateFile::IntegratedElection {
        lemma_other_prefix(file, StateFile::IntegratedElection, job, part);
    }
    if file != StateFile::OptimizerState {
        lemma_other_prefix(file, StateFile::OptimizerState, job, part);
    }
    if file != StateFile::OptimizerShard {
        lemma_other_prefix(file, StateFile::OptimizerShard, job, part);
    }
    if file != StateFile::Checkpoint {
        lemma_other_prefix(file, StateFile::Checkpoint, job, part);
    }
    if file != StateFile::TensorShard {
        lemma_other_prefix(file, StateFile::TensorShard, job, part);
    }
    if file != StateFile::PipelineStage {
        lemma_other_prefix(file, StateFile::PipelineStage, job, part);
    }
    if !(file is Plan) && !(file is PlanProposal) {
        lemma_other_prefix(file, StateFile::Plan, job, part);
        lemma_other_prefix(file, StateFile::PlanProposal, job, part);
    }
    if file is Plan {
        lemma_plan_is_no_proposal(job, part);
    }
}

proof fn lemma_plan_is_no_proposal(job: Seq<char>, part: Option<u64>)
    requires
        !begins(label_of(job, part), "proposal-"@),
    ensures
        !begins(name_of(StateFile::Plan, job, part), prefix_of(StateFile::PlanProposal)),
{
    let name = name_of(StateFile::Plan, job, part);
    let label = label_of(job, part);
    let word = "proposal-"@;
    let q = prefix_of(StateFile::PlanProposal);
    reveal_strlit("v4-plan-");
    reveal_strlit("v4-plan-proposal-");
    reveal_strlit("proposal-");
    reveal_strlit(".json");
    if begins(name, q) {
        assert forall|i: int| 0 <= i < 9 implies #[trigger] name[8 + i] == word[i] by {
            assert(name.subrange(0, 17)[8 + i] == q[8 + i]);
        }
        if label.len() >= 9 {
            assert forall|i: int| 0 <= i < 9 implies #[trigger] label[i] == word[i] by {
                assert(name[8 + i] == label[i]);
            }
            assert(label.subrange(0, 9) =~= word);
        } else {
            let k = label.len() as int;
            assert(name[8 + k] == '.');
            assert(word[k] != '.');
        }
    }
}

/// The generation of the checkpoint of a job that a name stands for.
pub open spec fn generation_named(job: Seq<char>, name: Seq<char>) -> Option<u64> {
    let prefix = prefix_of(StateFile::Checkpoint) + job + "-"@;
    if framed(name, prefix, ".json"@) {
        number_in(between(name, prefix, ".json"@))
    } else {
        None
    }
}

/// The generation of the checkpoint of a job that a name stands for.
pub fn checkpoint_generation(job: &str, name: &str) -> (r: Option<u64>)
    ensures
        r == generation_named(job@, name@),
{
    let mut prefix = prefix_text(StateFile::Checkpoint).to_owned();
    prefix.append(job);
    prefix.append("-");
    if !is_framed(name, prefix.as_str(), ".json") {
        return None;
    }
    let front: usize = prefix.as_str().unicode_len();
    let length: usize = name.unicode_len();
    let back: usize = ".json".unicode_len();
    read_number(name.substring_char(front, length - back))
}

/// The generation of a checkpoint is read back from the name that it is stored
/// under.
pub proof fn law_checkpoint_names_are_read_back(job: Seq<char>, generation: u64)
    ensures
        generation_named(job, name_of(StateFile::Checkpoint, job, Some(generation))) == Some(
            generation,
        ),
{
    let name = name_of(StateFile::Checkpoint, job, Some(generation));
    let prefix = prefix_of(StateFile::Checkpoint) + job + "-"@;
    let digits = numeral(generation as nat);
    assert(name =~= prefix + digits + ".json"@);
    assert(name.subrange(0, prefix.len() as int) =~= prefix);
    assert(name.subrange(name.len() - ".json"@.len(), name.len() as int) =~= ".json"@);
    assert(between(name, prefix, ".json"@) =~= digits);
    lemma_numeral_value(generation as nat);
}

/// Every file is named by what it is, then by the job and, where it is a part, by the
/// part's number, and ends in `.json`.
pub proof fn law_files_are_named_by_content(job: Seq<char>, part: u64)
    ensures
        name_of(StateFile::Plan, job, None) == "v4-plan-"@ + job + ".json"@,
        name_of(StateFile::PlanProposal, job, None) == "v4-plan-proposal-"@ + job + ".json"@,
        name_of(StateFile::TrainingState, job, None) == "v4-training-state-"@ + job + ".json"@,
        name_of(StateFile::IntegratedGraph, job, None) == "v4-integrated-graph-"@ + job + ".json"@,
        name_of(StateFile::IntegratedState, job, None) == "v4-integrated-state-"@ + job + ".json"@,
        name_of(StateFile::IntegratedElection, job, None) == "v4-integrated-election-"@ + job
            + ".json"@,
        name_of(StateFile::IntegratedResult, job, None) == "v4-integrated-result-"@ + job
            + ".json"@,
        name_of(StateFile::IntegratedBranch, job, None) == "v4-integrated-branch-"@ + job
            + ".json"@,
        name_of(StateFile::DataShard, job, Some(part)) == "v4-data-shard-"@ + (job + "-"@
            + numeral(part as nat)) + ".json"@,
        name_of(StateFile::OptimizerState, job, Some(part)) == "v4-optimizer-state-"@ + (job + "-"@
            + numeral(part as nat)) + ".json"@,
        name_of(StateFile::OptimizerShard, job, Some(part)) == "v4-optimizer-shard-"@ + (job + "-"@
            + numeral(part as nat)) + ".json"@,
        name_of(StateFile::Checkpoint, job, Some(part)) == "v4-checkpoint-"@ + (job + "-"@
            + numeral(part as nat)) + ".json"@,
        name_of(StateFile::TensorShard, job, Some(part)) == "v4-tensor-shard-"@ + (job + "-"@
            + numeral(part as nat)) + ".json"@,
        name_of(StateFile::PipelineStage, job, Some(part)) == "v4-pipeline-stage-"@ + (job + "-"@
            + numeral(part as nat)) + ".json"@,
{
}

} // verus!
