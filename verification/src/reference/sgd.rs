//! The scalar reference model: samples, losses, local steps and medians.

use crate::base::arith::{
    max_int, sat_add_i64, sat_i64, sat_mul_i64, sat_sub_i64, trunc_div,
};
use crate::reference::types::TrainingSample;
use vstd::prelude::*;

verus! {

/// The learning rate of the reference model, in units of the fixed-point scale.
pub const LEARNING_RATE: i64 = 50_000;

/// The smallest number of members that is more than half of `size`.
pub open spec fn quorum_of(size: int) -> int {
    size / 2 + 1
}

pub fn quorum(size: usize) -> (r: usize)
    ensures
        r == quorum_of(size as int),
{
    size / 2 + 1
}

/// The samples of one shard: features one to eight, with the target twice the
/// feature on the first shard and three times the feature on every other.
pub open spec fn shard_samples(shard_id: u16) -> Seq<TrainingSample> {
    Seq::new(
        8,
        |i: int|
            TrainingSample {
                feature: (i + 1) as i64,
                target: ((if shard_id == 0 {
                    2int
                } else {
                    3int
                }) * (i + 1)) as i64,
            },
    )
}

pub fn samples_for_shard(shard_id: u16) -> (r: Vec<TrainingSample>)
    ensures
        r@ == shard_samples(shard_id),
{
    let factor: i64 = if shard_id == 0 {
        2
    } else {
        3
    };
    let mut out: Vec<TrainingSample> = Vec::new();
    let mut feature: i64 = 1;
    while feature <= 8
        invariant
            1 <= feature <= 9,
            factor == (if shard_id == 0 {
                2int
            } else {
                3int
            }),
            out@ == shard_samples(shard_id).take(feature - 1),
        decreases 9 - feature,
    {
        out.push(TrainingSample { feature, target: factor * feature });
        assert(out@ =~= shard_samples(shard_id).take(feature as int));
        feature += 1;
    }
    assert(shard_samples(shard_id).take(8) =~= shard_samples(shard_id));
    out
}

/// The prediction error of `value` on one sample.
pub open spec fn sample_error(value: i64, sample: TrainingSample) -> int {
    sat_i64(sat_i64(value * sample.feature) - sample.target)
}

/// The squared error of `value` on one sample.
pub open spec fn sample_loss(value: i64, sample: TrainingSample) -> int {
    sat_i64(sample_error(value, sample) * sample_error(value, sample))
}

/// The sum of the squared errors of `value`.
pub open spec fn loss_sum(value: i64, samples: Seq<TrainingSample>) -> int
    decreases samples.len(),
{
    if samples.len() == 0 {
        0
    } else {
        loss_sum(value, samples.drop_last()) + sample_loss(value, samples.last())
    }
}

/// The mean squared error of `value`, zero where there is no sample.
pub open spec fn mean_loss(value: i64, samples: Seq<TrainingSample>) -> int {
    if samples.len() == 0 {
        0
    } else {
        loss_sum(value, samples) / samples.len() as int
    }
}

/// The squared errors of `value` add up within the range of the machine integer.
pub open spec fn loss_fits(value: i64, samples: Seq<TrainingSample>) -> bool {
    loss_sum(value, samples) <= i64::MAX
}

proof fn lemma_sample_loss_range(value: i64, sample: TrainingSample)
    ensures
        0 <= sample_loss(value, sample) <= i64::MAX,
{
    let e = sample_error(value, sample);
    assert(e * e >= 0) by (nonlinear_arith);
}

proof fn lemma_loss_sum_prefix(value: i64, samples: Seq<TrainingSample>, i: int)
    requires
        0 <= i <= samples.len(),
    ensures
        0 <= loss_sum(value, samples.take(i)) <= loss_sum(value, samples),
    decreases samples.len(),
{
    if samples.len() > 0 {
        lemma_sample_loss_range(value, samples.last());
        if i < samples.len() {
            assert(samples.take(i) =~= samples.drop_last().take(i));
            lemma_loss_sum_prefix(value, samples.drop_last(), i);
        } else {
            assert(samples.take(i) =~= samples);
            lemma_loss_sum_prefix(value, samples.drop_last(), i - 1);
        }
    } else {
        assert(samples.take(i) =~= samples);
    }
}

/// Squared errors add up to no less than zero.
pub proof fn lemma_loss_sum_nonnegative(value: i64, samples: Seq<TrainingSample>)
    ensures
        loss_sum(value, samples) >= 0,
{
    lemma_loss_sum_prefix(value, samples, samples.len() as int);
}

fn squared_error(value: i64, sample: &TrainingSample) -> (r: i64)
    ensures
        r == sample_loss(value, *sample),
{
    let error = sat_sub_i64(sat_mul_i64(value, sample.feature), sample.target);
    sat_mul_i64(error, error)
}

/// Whether the squared errors of `value` add up without overflow.
pub fn loss_in_range(value: i64, samples: &Vec<TrainingSample>) -> (r: bool)
    ensures
        r == loss_fits(value, samples@),
{
    let mut sum: i64 = 0;
    let mut i: usize = 0;
    while i < samples.len()
        invariant
            0 <= i <= samples@.len(),
            sum == loss_sum(value, samples@.take(i as int)),
            sum >= 0,
        decreases samples@.len() - i,
    {
        let loss = squared_error(value, &samples[i]);
        proof {
            lemma_sample_loss_range(value, samples@[i as int]);
            assert(samples@.take(i as int + 1).drop_last() =~= samples@.take(i as int));
            lemma_loss_sum_prefix(value, samples@, i as int + 1);
        }
        if loss > i64::MAX - sum {
            return false;
        }
        sum += loss;
        i += 1;
    }
    assert(samples@.take(i as int) =~= samples@);
    true
}

pub fn samples_loss(value: i64, samples: &Vec<TrainingSample>) -> (r: i64)
    requires
        loss_fits(value, samples@),
        samples@.len() <= i64::MAX,
    ensures
        r == mean_loss(value, samples@),
{
    if samples.len() == 0 {
        return 0;
    }
    let mut sum: i64 = 0;
    let mut i: usize = 0;
    while i < samples.len()
        invariant
            0 <= i <= samples@.len(),
            loss_fits(value, samples@),
            sum == loss_sum(value, samples@.take(i as int)),
        decreases samples@.len() - i,
    {
        let loss = squared_error(value, &samples[i]);
        proof {
            assert(samples@.take(i as int + 1).drop_last() =~= samples@.take(i as int));
            lemma_loss_sum_prefix(value, samples@, i as int);
            lemma_loss_sum_prefix(value, samples@, i as int + 1);
            lemma_sample_loss_range(value, samples@[i as int]);
        }
        sum += loss;
        i += 1;
    }
    assert(samples@.take(i as int) =~= samples@);
    proof {
        lemma_loss_sum_prefix(value, samples@, 0);
    }
    sum / samples.len() as i64
}

/// The loss of the untrained model on the samples of one shard.
pub proof fn lemma_initial_shard_loss(shard_id: u16)
    ensures
        loss_fits(0, shard_samples(shard_id)),
        mean_loss(0, shard_samples(shard_id)) == (if shard_id == 0 {
            102int
        } else {
            229int
        }),
{
    let s = shard_samples(shard_id);
    reveal_with_fuel(loss_sum, 9);
    let p8 = s;
    let p7 = p8.drop_last();
    let p6 = p7.drop_last();
    let p5 = p6.drop_last();
    let p4 = p5.drop_last();
    let p3 = p4.drop_last();
    let p2 = p3.drop_last();
    let p1 = p2.drop_last();
    let k: int = if shard_id == 0 {
        2
    } else {
        3
    };
    assert forall|i: int| 0 <= i < 8 implies sample_loss(0, #[trigger] s[i]) == k * k * (i + 1) * (
    i + 1) by {
        let e = sample_error(0, s[i]);
        assert(e == -(k * (i + 1)));
        assert(e * e == k * k * (i + 1) * (i + 1)) by (nonlinear_arith)
            requires
                e == -(k * (i + 1)),
        ;
        assert(k * k * (i + 1) * (i + 1) <= 9 * 64) by (nonlinear_arith)
            requires
                0 <= k <= 3,
                0 <= i < 8,
        ;
    }
    assert(p8.last() == s[7] && p7.last() == s[6] && p6.last() == s[5] && p5.last() == s[4]);
    assert(p4.last() == s[3] && p3.last() == s[2] && p2.last() == s[1] && p1.last() == s[0]);
    if shard_id == 0 {
        assert(loss_sum(0, s) == 816);
    } else {
        assert(loss_sum(0, s) == 1836);
    }
}

/// The sum of the gradients of `value` over the samples, saturating as it grows.
pub open spec fn gradient_sum(value: i64, samples: Seq<TrainingSample>) -> int
    decreases samples.len(),
{
    if samples.len() == 0 {
        0
    } else {
        sat_i64(
            gradient_sum(value, samples.drop_last()) + sat_i64(
                sample_error(value, samples.last()) * samples.last().feature,
            ),
        )
    }
}

/// The mean gradient of `value`, rounded toward zero.
pub open spec fn gradient(value: i64, samples: Seq<TrainingSample>) -> int {
    trunc_div(gradient_sum(value, samples), max_int(samples.len() as int, 1))
}

/// The step that a gradient asks for at the fixed-point scale `scale`.
pub open spec fn step_delta(gradient: int, scale: int) -> int {
    trunc_div(gradient * LEARNING_RATE, scale) as i64 as int
}

/// The value and optimizer state after `steps` local steps.
pub open spec fn trained(
    value: i64,
    optimizer: i64,
    samples: Seq<TrainingSample>,
    steps: nat,
    scale: int,
) -> (i64, i64)
    decreases steps,
{
    if steps == 0 {
        (value, optimizer)
    } else {
        let before = trained(value, optimizer, samples, (steps - 1) as nat, scale);
        let g = gradient(before.0, samples);
        (sat_i64(before.0 - step_delta(g, scale)) as i64, g as i64)
    }
}

/// Local steps compose: `a + b` steps are `a` steps followed by `b` steps, and no
/// step at all leaves the value and the optimizer state as they are.
pub proof fn law_local_steps_compose(
    value: i64,
    optimizer: i64,
    samples: Seq<TrainingSample>,
    a: nat,
    b: nat,
    scale: int,
)
    ensures
        ({
            let (v, o) = trained(value, optimizer, samples, a, scale);
            trained(value, optimizer, samples, a + b, scale) == trained(v, o, samples, b, scale)
        }),
        trained(value, optimizer, samples, 0, scale) == (value, optimizer),
    decreases b,
{
    if b > 0 {
        law_local_steps_compose(value, optimizer, samples, a, (b - 1) as nat, scale);
        assert((a + b - 1) as nat == a + (b - 1) as nat);
    }
}

proof fn lemma_gradient_range(value: i64, samples: Seq<TrainingSample>)
    ensures
        i64::MIN <= gradient_sum(value, samples) <= i64::MAX,
        i64::MIN <= gradient(value, samples) <= i64::MAX,
{
    let a = gradient_sum(value, samples);
    let b = max_int(samples.len() as int, 1);
    assert(i64::MIN <= trunc_div(a, b) <= i64::MAX) by (nonlinear_arith)
        requires
            i64::MIN <= a <= i64::MAX,
            b >= 1,
            a >= 0 ==> trunc_div(a, b) == a / b,
            a < 0 ==> trunc_div(a, b) == -((-a) / b),
    ;
}

fn mean_gradient(value: i64, samples: &Vec<TrainingSample>) -> (r: i64)
    requires
        samples@.len() <= i64::MAX,
    ensures
        r == gradient(value, samples@),
{
    let mut sum: i64 = 0;
    let mut i: usize = 0;
    while i < samples.len()
        invariant
            0 <= i <= samples@.len(),
            sum == gradient_sum(value, samples@.take(i as int)),
        decreases samples@.len() - i,
    {
        let sample = samples[i];
        let error = sat_sub_i64(sat_mul_i64(value, sample.feature), sample.target);
        assert(samples@.take(i as int + 1).drop_last() =~= samples@.take(i as int));
        sum = sat_add_i64(sum, sat_mul_i64(error, sample.feature));
        i += 1;
    }
    assert(samples@.take(i as int) =~= samples@);
    let count: i64 = if samples.len() == 0 {
        1
    } else {
        samples.len() as i64
    };
    sum / count
}

/// The value and optimizer state after `steps` local steps at the fixed-point
/// scale `scale`.
pub fn train(
    value: i64,
    optimizer: i64,
    samples: &Vec<TrainingSample>,
    steps: u16,
    scale: i64,
) -> (r: (i64, i64))
    requires
        scale > 0,
        samples@.len() <= i64::MAX,
    ensures
        r == trained(value, optimizer, samples@, steps as nat, scale as int),
{
    let mut current: i64 = value;
    let mut state: i64 = optimizer;
    let mut step: u16 = 0;
    while step < steps
        invariant
            0 <= step <= steps,
            scale > 0,
            samples@.len() <= i64::MAX,
            (current, state) == trained(value, optimizer, samples@, step as nat, scale as int),
        decreases steps - step,
    {
        let g = mean_gradient(current, samples);
        proof {
            lemma_gradient_range(current, samples@);
            assert(i128::MIN <= g * 50_000 <= i128::MAX);
        }
        let delta = (g as i128 * LEARNING_RATE as i128 / scale as i128) as i64;
        assert(delta == step_delta(g as int, scale as int));
        state = g;
        current = sat_sub_i64(current, delta);
        step += 1;
    }
    (current, state)
}

/// The positions of the values below `pivot`.
pub open spec fn positions_below(values: Seq<i64>, pivot: i64) -> Set<int> {
    Set::new(|i: int| 0 <= i < values.len() && values[i] < pivot)
}

/// The positions of the values not above `pivot`.
pub open spec fn positions_up_to(values: Seq<i64>, pivot: i64) -> Set<int> {
    Set::new(|i: int| 0 <= i < values.len() && values[i] <= pivot)
}

/// `m` is the value at position `len / 2` once `values` are in ascending order:
/// at most that many values lie below it, and more than that many not above it.
pub open spec fn is_median(values: Seq<i64>, m: i64) -> bool {
    &&& values.contains(m)
    &&& positions_below(values, m).len() <= values.len() / 2
    &&& positions_up_to(values, m).len() > values.len() / 2
}

proof fn lemma_positions_finite(values: Seq<i64>, pivot: i64)
    ensures
        positions_below(values, pivot).finite(),
        positions_up_to(values, pivot).finite(),
        positions_below(values, pivot).subset_of(
            vstd::set_lib::set_int_range(0, values.len() as int),
        ),
        positions_up_to(values, pivot).subset_of(
            vstd::set_lib::set_int_range(0, values.len() as int),
        ),
{
    let range = vstd::set_lib::set_int_range(0, values.len() as int);
    vstd::set_lib::lemma_int_range(0, values.len() as int);
    vstd::set_lib::lemma_set_subset_finite(range, positions_below(values, pivot));
    vstd::set_lib::lemma_set_subset_finite(range, positions_up_to(values, pivot));
}

/// A list has at most one median.
pub proof fn lemma_median_unique(values: Seq<i64>, a: i64, b: i64)
    requires
        is_median(values, a),
        is_median(values, b),
    ensures
        a == b,
{
    lemma_positions_finite(values, a);
    lemma_positions_finite(values, b);
    if a < b {
        assert(positions_up_to(values, a).subset_of(positions_below(values, b)));
        vstd::set_lib::lemma_len_subset(positions_up_to(values, a), positions_below(values, b));
    } else if b < a {
        assert(positions_up_to(values, b).subset_of(positions_below(values, a)));
        vstd::set_lib::lemma_len_subset(positions_up_to(values, b), positions_below(values, a));
    }
}

/// Where more than half of the values come from `honest` positions, the median
/// lies between two honest values.
pub proof fn law_median_between_honest(values: Seq<i64>, m: i64, honest: Set<int>)
    requires
        is_median(values, m),
        honest.subset_of(vstd::set_lib::set_int_range(0, values.len() as int)),
        2 * honest.len() > values.len(),
    ensures
        exists|i: int| honest.contains(i) && values[i] <= m,
        exists|i: int| honest.contains(i) && m <= values[i],
{
    let n = values.len() as int;
    let range = vstd::set_lib::set_int_range(0, n);
    vstd::set_lib::lemma_int_range(0, n);
    lemma_positions_finite(values, m);
    vstd::set_lib::lemma_set_subset_finite(range, honest);
    let low = positions_up_to(values, m);
    let high = range.difference(positions_below(values, m));
    if !(exists|i: int| honest.contains(i) && values[i] <= m) {
        assert(honest.disjoint(low));
        vstd::set_lib::lemma_set_disjoint_lens(honest, low);
        assert((honest + low).subset_of(range));
        vstd::set_lib::lemma_len_subset(honest + low, range);
    }
    assert(high.len() == n - positions_below(values, m).len()) by {
        assert(high.disjoint(positions_below(values, m)));
        vstd::set_lib::lemma_set_disjoint_lens(high, positions_below(values, m));
        assert(high + positions_below(values, m) =~= range);
    }
    if !(exists|i: int| honest.contains(i) && m <= values[i]) {
        assert(honest.disjoint(high));
        vstd::set_lib::lemma_set_disjoint_lens(honest, high);
        assert((honest + high).subset_of(range));
        vstd::set_lib::lemma_len_subset(honest + high, range);
    }
}

/// How many values lie below `pivot`, and how many do not lie above it.
fn rank(values: &Vec<i64>, pivot: i64) -> (r: (usize, usize))
    ensures
        r.0 == positions_below(values@, pivot).len(),
        r.1 == positions_up_to(values@, pivot).len(),
{
    let mut below: usize = 0;
    let mut up_to: usize = 0;
    let mut i: usize = 0;
    assert(positions_below(values@.take(0), pivot) =~= Set::<int>::empty());
    assert(positions_up_to(values@.take(0), pivot) =~= Set::<int>::empty());
    while i < values.len()
        invariant
            0 <= i <= values@.len(),
            below <= i,
            up_to <= i,
            below == positions_below(values@.take(i as int), pivot).len(),
            up_to == positions_up_to(values@.take(i as int), pivot).len(),
        decreases values@.len() - i,
    {
        proof {
            let p = values@.take(i as int);
            let q = values@.take(i as int + 1);
            lemma_positions_finite(p, pivot);
            if values@[i as int] < pivot {
                assert(positions_below(q, pivot) =~= positions_below(p, pivot).insert(i as int));
            } else {
                assert(positions_below(q, pivot) =~= positions_below(p, pivot));
            }
            if values@[i as int] <= pivot {
                assert(positions_up_to(q, pivot) =~= positions_up_to(p, pivot).insert(i as int));
            } else {
                assert(positions_up_to(q, pivot) =~= positions_up_to(p, pivot));
            }
        }
        if values[i] < pivot {
            below += 1;
        }
        if values[i] <= pivot {
            up_to += 1;
        }
        i += 1;
    }
    assert(values@.take(i as int) =~= values@);
    (below, up_to)
}

/// A list that is not empty has a median.
pub proof fn lemma_median_exists(values: Seq<i64>)
    requires
        values.len() > 0,
    ensures
        exists|i: int| 0 <= i < values.len() && is_median(values, #[trigger] values[i]),
{
    let n = values.len() as int;
    let top = lemma_largest(values, n);
    vstd::set_lib::lemma_int_range(0, n);
    assert(positions_up_to(values, values[top]) =~= vstd::set_lib::set_int_range(0, n));
    lemma_descend(values, top);
}

proof fn lemma_largest(values: Seq<i64>, k: int) -> (r: int)
    requires
        0 < k <= values.len(),
    ensures
        0 <= r < k,
        forall|j: int| 0 <= j < k ==> #[trigger] values[j] <= values[r],
    decreases k,
{
    if k == 1 {
        0
    } else {
        let t = lemma_largest(values, k - 1);
        if values[k - 1] <= values[t] {
            t
        } else {
            k - 1
        }
    }
}

proof fn lemma_descend(values: Seq<i64>, at: int)
    requires
        0 <= at < values.len(),
        positions_up_to(values, values[at]).len() > values.len() / 2,
    ensures
        exists|i: int| 0 <= i < values.len() && is_median(values, #[trigger] values[i]),
    decreases positions_below(values, values[at]).len(),
{
    lemma_positions_finite(values, values[at]);
    if positions_below(values, values[at]).len() <= values.len() / 2 {
        assert(values.contains(values[at]));
        assert(is_median(values, values[at]));
    } else {
        // The largest value below values[at] is a better candidate.
        let below = positions_below(values, values[at]);
        assert(values.take(values.len() as int) =~= values);
        let next = lemma_largest_below(values, values[at], values.len() as int);
        assert(positions_up_to(values, values[next]) =~= below) by {
            assert forall|i: int| below.contains(i) implies positions_up_to(
                values,
                values[next],
            ).contains(i) by {
                assert(values[i] <= values[next]);
            }
        }
        lemma_positions_finite(values, values[next]);
        assert(positions_below(values, values[next]).subset_of(below));
        assert(below.contains(next) && !positions_below(values, values[next]).contains(next));
        vstd::set_lib::lemma_len_subset(positions_below(values, values[next]), below.remove(next));
        lemma_descend(values, next);
    }
}

proof fn lemma_largest_below(values: Seq<i64>, pivot: i64, k: int) -> (r: int)
    requires
        0 <= k <= values.len(),
        positions_below(values.take(k), pivot).len() > 0,
    ensures
        0 <= r < k,
        values[r] < pivot,
        forall|j: int| 0 <= j < k && #[trigger] values[j] < pivot ==> values[j] <= values[r],
    decreases k,
{
    let here = positions_below(values.take(k), pivot);
    lemma_positions_finite(values.take(k), pivot);
    if k == 0 {
        assert(here =~= Set::<int>::empty());
        0
    } else {
        let before = positions_below(values.take(k - 1), pivot);
        lemma_positions_finite(values.take(k - 1), pivot);
        if before.len() == 0 {
            assert(before =~= Set::<int>::empty());
            if values[k - 1] >= pivot {
                assert(here =~= before);
            }
            assert forall|j: int| 0 <= j < k && #[trigger] values[j] < pivot implies values[j]
                <= values[k - 1] by {
                if j < k - 1 {
                    assert(before.contains(j));
                }
            }
            k - 1
        } else {
            let r = lemma_largest_below(values, pivot, k - 1);
            if values[k - 1] < pivot && values[k - 1] > values[r] {
                k - 1
            } else {
                r
            }
        }
    }
}

pub fn median(values: Vec<i64>) -> (r: i64)
    requires
        values@.len() > 0,
    ensures
        is_median(values@, r),
{
    let half = values.len() / 2;
    let mut i: usize = 0;
    while i < values.len()
        invariant
            0 <= i <= values@.len(),
            values@.len() > 0,
            half == values@.len() / 2,
            forall|j: int| 0 <= j < i ==> !is_median(values@, #[trigger] values@[j]),
        decreases values@.len() - i,
    {
        let (below, up_to) = rank(&values, values[i]);
        if below <= half && up_to > half {
            assert(values@.contains(values@[i as int]));
            return values[i];
        }
        i += 1;
    }
    proof {
        lemma_median_exists(values@);
    }
    values[0]
}

/// A quorum is more than half, and one member fewer would not be.
pub proof fn law_quorum_is_the_least_majority(size: int)
    requires
        size >= 0,
    ensures
        2 * quorum_of(size) > size,
        2 * (quorum_of(size) - 1) <= size,
{
}

/// A shard has eight samples, the features one to eight; the target is twice the
/// feature on the first shard and three times the feature on every other.
pub proof fn law_samples_of_a_shard(shard_id: u16, i: int)
    requires
        0 <= i < 8,
    ensures
        shard_samples(shard_id).len() == 8,
        shard_samples(shard_id)[i].feature == i + 1,
        shard_id == 0 ==> shard_samples(shard_id)[i].target == 2 * (i + 1),
        shard_id != 0 ==> shard_samples(shard_id)[i].target == 3 * (i + 1),
{
}

/// The loss adds up, sample by sample, the square of how far the value times the
/// feature is from the target, and is divided by the number of samples.
pub proof fn law_loss_adds_up_squared_errors(
    value: i64,
    samples: Seq<TrainingSample>,
    sample: TrainingSample,
)
    requires
        i64::MIN <= value * sample.feature <= i64::MAX,
        i64::MIN <= value * sample.feature - sample.target <= i64::MAX,
        (value * sample.feature - sample.target) * (value * sample.feature - sample.target)
            <= i64::MAX,
    ensures
        loss_sum(value, Seq::empty()) == 0,
        loss_sum(value, samples.push(sample)) == loss_sum(value, samples) + (value * sample.feature
            - sample.target) * (value * sample.feature - sample.target),
        mean_loss(value, Seq::empty()) == 0,
        mean_loss(value, samples.push(sample)) * (samples.len() + 1) <= loss_sum(
            value,
            samples.push(sample),
        ) < (mean_loss(value, samples.push(sample)) + 1) * (samples.len() + 1),
{
    let all = samples.push(sample);
    assert(all.drop_last() =~= samples);
    let e = value * sample.feature - sample.target;
    assert(e * e >= 0) by (nonlinear_arith);
    let n = all.len() as int;
    let s = loss_sum(value, all);
    let q = s / n;
    assert(q * n <= s < (q + 1) * n) by (nonlinear_arith)
        requires
            n > 0,
            q == s / n,
    ;
}

/// The gradient adds up, sample by sample, how far the value times the feature is from
/// the target, times the feature; it is divided by the number of samples.
pub proof fn law_gradient_adds_up_errors(
    value: i64,
    samples: Seq<TrainingSample>,
    sample: TrainingSample,
)
    requires
        i64::MIN <= value * sample.feature <= i64::MAX,
        i64::MIN <= value * sample.feature - sample.target <= i64::MAX,
        i64::MIN <= (value * sample.feature - sample.target) * sample.feature <= i64::MAX,
        i64::MIN <= gradient_sum(value, samples) + (value * sample.feature - sample.target)
            * sample.feature <= i64::MAX,
    ensures
        gradient_sum(value, Seq::empty()) == 0,
        gradient_sum(value, samples.push(sample)) == gradient_sum(value, samples) + (value
            * sample.feature - sample.target) * sample.feature,
        gradient_sum(value, samples.push(sample)) >= 0 ==> 0 <= gradient_sum(
            value,
            samples.push(sample),
        ) - gradient(value, samples.push(sample)) * (samples.len() + 1) < samples.len() + 1,
        gradient_sum(value, samples.push(sample)) <= 0 ==> -(samples.len() + 1) < gradient_sum(
            value,
            samples.push(sample),
        ) - gradient(value, samples.push(sample)) * (samples.len() + 1) <= 0,
{
    let all = samples.push(sample);
    assert(all.drop_last() =~= samples);
    crate::base::arith::law_quotient_rounds_toward_zero(
        gradient_sum(value, all),
        all.len() as int,
    );
}

/// One local step moves the value against its gradient by a twentieth of it in units of
/// a million, at the given scale, and leaves the gradient as the optimizer state.
pub proof fn law_step_goes_against_the_gradient(
    value: i64,
    optimizer: i64,
    samples: Seq<TrainingSample>,
    scale: int,
)
    requires
        scale >= 50_000,
    ensures
        ({
            let g = gradient(value, samples);
            let (after, state) = trained(value, optimizer, samples, 1, scale);
            let moved = value - after;
            &&& state == g
            &&& g == 0 ==> after == value
            &&& g > 0 ==> after <= value
            &&& g < 0 ==> after >= value
            &&& i64::MIN < after < i64::MAX && g >= 0 ==> 0 <= g * 50_000 - moved * scale < scale
            &&& i64::MIN < after < i64::MAX && g <= 0 ==> -scale < g * 50_000 - moved * scale <= 0
        }),
{
    let g = gradient(value, samples);
    lemma_gradient_range(value, samples);
    assert(trained(value, optimizer, samples, 0, scale) == (value, optimizer));
    let q = trunc_div(g * 50_000, scale);
    crate::base::arith::law_quotient_rounds_toward_zero(g * 50_000, scale);
    assert(g >= 0 ==> 0 <= q <= g) by (nonlinear_arith)
        requires
            g >= 0 ==> 0 <= g * 50_000 - q * scale < scale,
            scale >= 50_000,
    ;
    assert(g <= 0 ==> g <= q <= 0) by (nonlinear_arith)
        requires
            g <= 0 ==> -scale < g * 50_000 - q * scale <= 0,
            scale >= 50_000,
    ;
    assert(step_delta(g, scale) == q);
}

/// Of a list in ascending order the median is the value in the middle, the upper one of
/// two.
pub proof fn law_median_is_in_the_middle(values: Seq<i64>)
    requires
        values.len() > 0,
        forall|i: int, j: int| 0 <= i <= j < values.len() ==> values[i] <= values[j],
    ensures
        is_median(values, values[values.len() as int / 2]),
{
    let n = values.len() as int;
    let mid = n / 2;
    let m = values[mid];
    lemma_positions_finite(values, m);
    let low = vstd::set_lib::set_int_range(0, mid);
    let up = vstd::set_lib::set_int_range(0, mid + 1);
    vstd::set_lib::lemma_int_range(0, mid);
    vstd::set_lib::lemma_int_range(0, mid + 1);
    assert(positions_below(values, m).subset_of(low)) by {
        assert forall|i: int| positions_below(values, m).contains(i) implies low.contains(i) by {
            if i >= mid {
                assert(values[mid] <= values[i]);
            }
        }
    }
    vstd::set_lib::lemma_len_subset(positions_below(values, m), low);
    assert(up.subset_of(positions_up_to(values, m))) by {
        assert forall|i: int| up.contains(i) implies positions_up_to(values, m).contains(i) by {
            assert(values[i] <= values[mid]);
        }
    }
    vstd::set_lib::lemma_len_subset(up, positions_up_to(values, m));
}

/// A median is one of the values; a list of one value has that value as its median, and
/// equal values have it whatever their number.
pub proof fn law_median_is_a_value(values: Seq<i64>, m: i64, same: i64)
    requires
        is_median(values, m),
    ensures
        values.contains(m),
        (forall|i: int| 0 <= i < values.len() ==> values[i] == same) ==> m == same,
{
}

/// Further steps start where the steps before them ended, each with the gradient there.
pub proof fn law_each_step_starts_from_the_last(
    value: i64,
    optimizer: i64,
    samples: Seq<TrainingSample>,
    steps: nat,
    scale: int,
)
    ensures
        trained(value, optimizer, samples, 0, scale) == (value, optimizer),
        ({
            let before = trained(value, optimizer, samples, steps, scale);
            let after = trained(value, optimizer, samples, steps + 1, scale);
            &&& after == trained(before.0, before.1, samples, 1, scale)
            &&& after.1 == gradient(before.0, samples)
        }),
{
    let before = trained(value, optimizer, samples, steps, scale);
    assert(trained(before.0, before.1, samples, 0, scale) == before);
    lemma_gradient_range(before.0, samples);
}

} // verus!
