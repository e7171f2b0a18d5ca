//! The names under which strategies and policies are asked for.

use crate::base::text::text_is;
use crate::frontier::types::V4ParallelismStrategy;
use vstd::prelude::*;

verus! {

/// How two branches of a job are brought together.
#[derive(Clone, Copy, Debug, PartialEq, Eq, Structural)]
pub enum V4ReconciliationPolicy {
    AbortBranch,
    SelectBranch,
    AverageCompatibleState,
    MergeLocalSgdState,
    ManualOperatorRequired,
}

/// How the updates of untrusted workers are combined.
#[derive(Clone, Copy, Debug, PartialEq, Eq, Structural)]
pub enum V4ByzantinePolicy {
    Mean,
    ClippedMean,
    TrimmedMean,
    CoordinateMedian,
}

/// The strategy that a word names.
pub open spec fn strategy_named(word: Seq<char>) -> Option<V4ParallelismStrategy> {
    if word == "local_sgd"@ {
        Some(V4ParallelismStrategy::LocalSgd)
    } else if word == "tensor"@ || word == "tensor_parallel"@ {
        Some(V4ParallelismStrategy::TensorParallel)
    } else if word == "pipeline"@ || word == "pipeline_parallel"@ {
        Some(V4ParallelismStrategy::PipelineParallel)
    } else if word == "hybrid"@ {
        Some(V4ParallelismStrategy::Hybrid)
    } else {
        None
    }
}

pub fn parse_strategy(value: &String) -> (r: Option<V4ParallelismStrategy>)
    ensures
        r == strategy_named(value@),
{
    if text_is(value, "local_sgd") {
        Some(V4ParallelismStrategy::LocalSgd)
    } else if text_is(value, "tensor") || text_is(value, "tensor_parallel") {
        Some(V4ParallelismStrategy::TensorParallel)
    } else if text_is(value, "pipeline") || text_is(value, "pipeline_parallel") {
        Some(V4ParallelismStrategy::PipelineParallel)
    } else if text_is(value, "hybrid") {
        Some(V4ParallelismStrategy::Hybrid)
    } else {
        None
    }
}

/// The reconciliation policy that a word names.
pub open spec fn policy_named(word: Seq<char>) -> Option<V4ReconciliationPolicy> {
    if word == "abort"@ {
        Some(V4ReconciliationPolicy::AbortBranch)
    } else if word == "select"@ {
        Some(V4ReconciliationPolicy::SelectBranch)
    } else if word == "average"@ {
        Some(V4ReconciliationPolicy::AverageCompatibleState)
    } else if word == "local_sgd"@ {
        Some(V4ReconciliationPolicy::MergeLocalSgdState)
    } else if word == "manual"@ {
        Some(V4ReconciliationPolicy::ManualOperatorRequired)
    } else {
        None
    }
}

pub fn parse_policy(value: &String) -> (r: Option<V4ReconciliationPolicy>)
    ensures
        r == policy_named(value@),
{
    if text_is(value, "abort") {
        Some(V4ReconciliationPolicy::AbortBranch)
    } else if text_is(value, "select") {
        Some(V4ReconciliationPolicy::SelectBranch)
    } else if text_is(value, "average") {
        Some(V4ReconciliationPolicy::AverageCompatibleState)
    } else if text_is(value, "local_sgd") {
        Some(V4ReconciliationPolicy::MergeLocalSgdState)
    } else if text_is(value, "manual") {
        Some(V4ReconciliationPolicy::ManualOperatorRequired)
    } else {
        None
    }
}

/// The aggregation policy that a word names.
pub open spec fn byzantine_policy_named(word: Seq<char>) -> Option<V4ByzantinePolicy> {
    if word == "mean"@ {
        Some(V4ByzantinePolicy::Mean)
    } else if word == "clipped_mean"@ {
        Some(V4ByzantinePolicy::ClippedMean)
    } else if word == "trimmed_mean"@ {
        Some(V4ByzantinePolicy::TrimmedMean)
    } else if word == "median"@ || word == "coordinate_median"@ {
        Some(V4ByzantinePolicy::CoordinateMedian)
    } else {
        None
    }
}

pub fn parse_byzantine_policy(value: &String) -> (r: Option<V4ByzantinePolicy>)
    ensures
        r == byzantine_policy_named(value@),
{
    if text_is(value, "mean") {
        Some(V4ByzantinePolicy::Mean)
    } else if text_is(value, "clipped_mean") {
        Some(V4ByzantinePolicy::ClippedMean)
    } else if text_is(value, "trimmed_mean") {
        Some(V4ByzantinePolicy::TrimmedMean)
    } else if text_is(value, "median") || text_is(value, "coordinate_median") {
        Some(V4ByzantinePolicy::CoordinateMedian)
    } else {
        None
    }
}

/// A strategy is named by its own words and by no others.
pub proof fn law_words_of_strategies(word: Seq<char>)
    ensures
        strategy_named(word) == Some(V4ParallelismStrategy::LocalSgd) <==> word == "local_sgd"@,
        strategy_named(word) == Some(V4ParallelismStrategy::TensorParallel) <==> word == "tensor"@
            || word == "tensor_parallel"@,
        strategy_named(word) == Some(V4ParallelismStrategy::PipelineParallel) <==> word
            == "pipeline"@ || word == "pipeline_parallel"@,
        strategy_named(word) == Some(V4ParallelismStrategy::Hybrid) <==> word == "hybrid"@,
{
    reveal_strlit("local_sgd");
    reveal_strlit("tensor");
    reveal_strlit("tensor_parallel");
    reveal_strlit("pipeline");
    reveal_strlit("pipeline_parallel");
    reveal_strlit("hybrid");
    assert("tensor"@[0] != "pipeline"@[0]);
    assert("tensor_parallel"@[0] != "pipeline_parallel"@[0]);
    assert("hybrid"@[0] != "tensor"@[0]);
}

/// A reconciliation policy is named by its own word and by no other.
pub proof fn law_words_of_reconciliation(word: Seq<char>)
    ensures
        policy_named(word) == Some(V4ReconciliationPolicy::AbortBranch) <==> word == "abort"@,
        policy_named(word) == Some(V4ReconciliationPolicy::SelectBranch) <==> word == "select"@,
        policy_named(word) == Some(V4ReconciliationPolicy::AverageCompatibleState) <==> word
            == "average"@,
        policy_named(word) == Some(V4ReconciliationPolicy::MergeLocalSgdState) <==> word
            == "local_sgd"@,
        policy_named(word) == Some(V4ReconciliationPolicy::ManualOperatorRequired) <==> word
            == "manual"@,
{
    reveal_strlit("abort");
    reveal_strlit("select");
    reveal_strlit("average");
    reveal_strlit("local_sgd");
    reveal_strlit("manual");
    assert("select"@[0] != "manual"@[0]);
    assert("abort"@.len() == 5 && "select"@.len() == 6 && "average"@.len() == 7);
    assert("local_sgd"@.len() == 9 && "manual"@.len() == 6);
}

/// An aggregation policy is named by its own words and by no others.
pub proof fn law_words_of_aggregation(word: Seq<char>)
    ensures
        byzantine_policy_named(word) == Some(V4ByzantinePolicy::Mean) <==> word == "mean"@,
        byzantine_policy_named(word) == Some(V4ByzantinePolicy::ClippedMean) <==> word
            == "clipped_mean"@,
        byzantine_policy_named(word) == Some(V4ByzantinePolicy::TrimmedMean) <==> word
            == "trimmed_mean"@,
        byzantine_policy_named(word) == Some(V4ByzantinePolicy::CoordinateMedian) <==> word
            == "median"@ || word == "coordinate_median"@,
{
    reveal_strlit("mean");
    reveal_strlit("clipped_mean");
    reveal_strlit("trimmed_mean");
    reveal_strlit("median");
    reveal_strlit("coordinate_median");
    assert("clipped_mean"@[0] != "trimmed_mean"@[0]);
    assert("mean"@.len() == 4 && "clipped_mean"@.len() == 12 && "trimmed_mean"@.len() == 12);
    assert("median"@.len() == 6 && "coordinate_median"@.len() == 17);
}

} // verus!
