//! Lists of fixed-point values.

use super::arith::{abs_int, sat_add_i64, sat_i64, within};
use vstd::prelude::*;

verus! {

/// The largest magnitude of a stored value.
pub const VALUE_BOUND: i64 = 1_000_000_000;

/// No value exceeds `bound` in magnitude.
pub open spec fn bounded(values: Seq<i64>, bound: int) -> bool {
    forall|i: int| 0 <= i < values.len() ==> abs_int(#[trigger] values[i] as int) <= bound
}

pub fn all_within(values: &Vec<i64>, bound: i64) -> (r: bool)
    requires
        0 <= bound,
    ensures
        r == bounded(values@, bound as int),
{
    let mut i: usize = 0;
    while i < values.len()
        invariant
            0 <= i <= values@.len(),
            0 <= bound,
            forall|j: int| 0 <= j < i ==> abs_int(#[trigger] values@[j] as int) <= bound,
        decreases values@.len() - i,
    {
        if !within(values[i], bound) {
            return false;
        }
        i += 1;
    }
    true
}

pub fn same_values(a: &Vec<i64>, b: &Vec<i64>) -> (r: bool)
    ensures
        r == (a@ == b@),
{
    if a.len() != b.len() {
        return false;
    }
    let mut i: usize = 0;
    while i < a.len()
        invariant
            0 <= i <= a@.len(),
            a@.len() == b@.len(),
            a@.take(i as int) == b@.take(i as int),
        decreases a@.len() - i,
    {
        if a[i] != b[i] {
            return false;
        }
        assert(a@.take(i as int + 1) =~= a@.take(i as int).push(a@[i as int]));
        assert(b@.take(i as int + 1) =~= b@.take(i as int).push(b@[i as int]));
        i += 1;
    }
    proof {
        assert(a@.take(i as int) =~= a@);
        assert(b@.take(i as int) =~= b@);
    }
    true
}

/// `len` zeros.
pub open spec fn zeros(len: nat) -> Seq<i64> {
    Seq::new(len, |i: int| 0i64)
}

pub fn zero_values(len: usize) -> (r: Vec<i64>)
    ensures
        r@ == zeros(len as nat),
{
    let mut out: Vec<i64> = Vec::new();
    let mut i: usize = 0;
    while i < len
        invariant
            0 <= i <= len,
            out@ == zeros(i as nat),
        decreases len - i,
    {
        out.push(0);
        assert(out@ =~= zeros((i + 1) as nat));
        i += 1;
    }
    out
}

/// The saturating sum of two lists, as far as the second one goes.
pub open spec fn plus(a: Seq<i64>, b: Seq<i64>) -> Seq<i64> {
    Seq::new(
        a.len(),
        |i: int|
            if i < b.len() {
                sat_i64(a[i] + b[i]) as i64
            } else {
                a[i]
            },
    )
}

pub fn plus_values(a: &Vec<i64>, b: &Vec<i64>) -> (r: Vec<i64>)
    ensures
        r@ == plus(a@, b@),
{
    let mut out: Vec<i64> = Vec::new();
    let mut i: usize = 0;
    while i < a.len()
        invariant
            0 <= i <= a@.len(),
            out@ == plus(a@, b@).take(i as int),
        decreases a@.len() - i,
    {
        let value: i64 = if i < b.len() {
            sat_add_i64(a[i], b[i])
        } else {
            a[i]
        };
        out.push(value);
        assert(out@ =~= plus(a@, b@).take(i as int + 1));
        i += 1;
    }
    assert(out@ =~= plus(a@, b@));
    out
}

/// Values are added position by position: where the sum fits it is exact, beyond the
/// range it is the nearest end, and past the second list the first one stays.
pub proof fn law_values_add_up(a: Seq<i64>, b: Seq<i64>, i: int)
    requires
        0 <= i < a.len(),
    ensures
        plus(a, b).len() == a.len(),
        i < b.len() && i64::MIN <= a[i] + b[i] <= i64::MAX ==> plus(a, b)[i] == a[i] + b[i],
        i < b.len() && a[i] + b[i] > i64::MAX ==> plus(a, b)[i] == i64::MAX,
        i < b.len() && a[i] + b[i] < i64::MIN ==> plus(a, b)[i] == i64::MIN,
        i >= b.len() ==> plus(a, b)[i] == a[i],
{
}

/// Values within a bound lie between the bound and its opposite.
pub proof fn law_bounded_values_lie_between(values: Seq<i64>, bound: int, i: int)
    requires
        0 <= i < values.len(),
        bounded(values, bound),
    ensures
        -bound <= values[i] <= bound,
{
}

/// A list of zeros adds nothing.
pub proof fn law_zeros_add_nothing(values: Seq<i64>)
    ensures
        zeros(values.len()).len() == values.len(),
        plus(zeros(values.len()), values) == values,
        plus(values, zeros(values.len())) == values,
        bounded(zeros(values.len()), 0),
{
    assert(plus(zeros(values.len()), values) =~= values);
    assert(plus(values, zeros(values.len())) =~= values);
}

} // verus!
