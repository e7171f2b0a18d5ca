//! The bytes that stand for tensor and pipeline state when it is hashed.

use vstd::prelude::*;

verus! {

/// The decimal digits of `n`.
pub open spec fn digits(n: nat) -> Seq<u8>
    decreases n,
{
    if n < 10 {
        seq![(48 + n) as u8]
    } else {
        digits(n / 10).push((48 + n % 10) as u8)
    }
}

/// The decimal form of `i`.
pub open spec fn decimal(i: int) -> Seq<u8> {
    if i < 0 {
        seq![45u8] + digits((-i) as nat)
    } else {
        digits(i as nat)
    }
}

/// The decimal forms of the numbers, separated by commas.
pub open spec fn joined(items: Seq<i64>) -> Seq<u8>
    decreases items.len(),
{
    if items.len() == 0 {
        Seq::empty()
    } else if items.len() == 1 {
        decimal(items[0] as int)
    } else {
        joined(items.drop_last()) + seq![44u8] + decimal(items.last() as int)
    }
}

/// The numbers as a JSON array without spaces.
pub open spec fn json_array(items: Seq<i64>) -> Seq<u8> {
    seq![91u8] + joined(items) + seq![93u8]
}

/// `serde_json::to_vec` on a list of integers: the compact JSON array of their
/// decimal forms. Serializing integers cannot fail.
#[verifier::external_body]
fn json_list(items: &Vec<i64>) -> (r: Vec<u8>)
    ensures
        r@ == json_array(items@),
{
    serde_json::to_vec(items).unwrap_or_default()
}

/// The bytes that stand for a pipeline stage: `[coefficient,bias]`.
pub fn pipeline_content(coefficient: i64, bias: i64) -> (r: Vec<u8>)
    ensures
        r@ == json_array(seq![coefficient, bias]),
{
    let mut items: Vec<i64> = Vec::new();
    items.push(coefficient);
    items.push(bias);
    assert(items@ =~= seq![coefficient, bias]);
    json_list(&items)
}

/// The bytes that stand for a tensor shard: its shape and offset, then the
/// list of its weights.
pub open spec fn tensor_bytes(rows: u16, cols: u16, row_offset: u16, weights: Seq<i64>) -> Seq<u8> {
    seq![91u8] + joined(seq![rows as i64, cols as i64, row_offset as i64]) + seq![44u8]
        + json_array(weights) + seq![93u8]
}

/// The bytes that stand for a tensor shard: `[rows,cols,row_offset,[weights]]`.
pub fn tensor_content(rows: u16, cols: u16, row_offset: u16, weights: &Vec<i64>) -> (r: Vec<u8>)
    ensures
        r@ == tensor_bytes(rows, cols, row_offset, weights@),
{
    let mut shape: Vec<i64> = Vec::new();
    shape.push(rows as i64);
    shape.push(cols as i64);
    shape.push(row_offset as i64);
    let ghost head = seq![rows as i64, cols as i64, row_offset as i64];
    assert(shape@ =~= head);
    let mut out = json_list(&shape);
    out.pop();
    assert(out@ =~= seq![91u8] + joined(head));
    out.push(44);
    let mut list = json_list(weights);
    out.append(&mut list);
    out.push(93);
    assert(out@ =~= tensor_bytes(rows, cols, row_offset, weights@));
    out
}

proof fn lemma_digits_are_digits(n: nat)
    ensures
        digits(n).len() > 0,
        forall|i: int| 0 <= i < digits(n).len() ==> 48 <= #[trigger] digits(n)[i] <= 57,
    decreases n,
{
    if n >= 10 {
        lemma_digits_are_digits(n / 10);
    }
}

proof fn lemma_digits_injective(a: nat, b: nat)
    requires
        digits(a) == digits(b),
    ensures
        a == b,
    decreases a,
{
    lemma_digits_are_digits(a / 10);
    lemma_digits_are_digits(b / 10);
    if a < 10 && b < 10 {
        assert(digits(a)[0] == (48 + a) as u8);
        assert(digits(b)[0] == (48 + b) as u8);
    } else if a < 10 {
        assert(digits(b).len() == digits(b / 10).len() + 1);
        assert(digits(a).len() == 1);
    } else if b < 10 {
        assert(digits(a).len() == digits(a / 10).len() + 1);
        assert(digits(b).len() == 1);
    } else {
        let x = digits(a);
        let y = digits(b);
        assert(x.drop_last() =~= digits(a / 10));
        assert(y.drop_last() =~= digits(b / 10));
        assert(x.last() == (48 + a % 10) as u8);
        assert(y.last() == (48 + b % 10) as u8);
        lemma_digits_injective(a / 10, b / 10);
    }
}

proof fn lemma_decimal_shape(i: int)
    ensures
        decimal(i).len() > 0,
        forall|k: int|
            0 <= k < decimal(i).len() ==> #[trigger] decimal(i)[k] != 44u8 && decimal(i)[k] != 91u8,
{
    if i < 0 {
        lemma_digits_are_digits((-i) as nat);
        let d = digits((-i) as nat);
        assert forall|k: int| 0 <= k < decimal(i).len() implies #[trigger] decimal(i)[k] != 44u8
            && decimal(i)[k] != 91u8 by {
            if k > 0 {
                assert(decimal(i)[k] == d[k - 1]);
            }
        }
    } else {
        lemma_digits_are_digits(i as nat);
    }
}

proof fn lemma_decimal_injective(a: int, b: int)
    requires
        decimal(a) == decimal(b),
    ensures
        a == b,
{
    if a < 0 {
        lemma_digits_are_digits((-a) as nat);
    } else {
        lemma_digits_are_digits(a as nat);
    }
    if b < 0 {
        lemma_digits_are_digits((-b) as nat);
    } else {
        lemma_digits_are_digits(b as nat);
    }
    if a < 0 && b < 0 {
        assert(decimal(a).skip(1) =~= digits((-a) as nat));
        assert(decimal(b).skip(1) =~= digits((-b) as nat));
        lemma_digits_injective((-a) as nat, (-b) as nat);
    } else if a >= 0 && b >= 0 {
        lemma_digits_injective(a as nat, b as nat);
    } else if a < 0 {
        assert(decimal(a)[0] == 45u8);
        assert(decimal(b)[0] == digits(b as nat)[0]);
    } else {
        assert(decimal(b)[0] == 45u8);
        assert(decimal(a)[0] == digits(a as nat)[0]);
    }
}

proof fn lemma_joined_shape(s: Seq<i64>)
    ensures
        joined(s).len() == 0 <==> s.len() == 0,
        forall|k: int| 0 <= k < joined(s).len() ==> #[trigger] joined(s)[k] != 91u8,
    decreases s.len(),
{
    if s.len() == 1 {
        lemma_decimal_shape(s[0] as int);
    } else if s.len() > 1 {
        let front = joined(s.drop_last());
        let last = decimal(s.last() as int);
        lemma_joined_shape(s.drop_last());
        lemma_decimal_shape(s.last() as int);
        assert forall|k: int| 0 <= k < joined(s).len() implies #[trigger] joined(s)[k] != 91u8 by {
            if k < front.len() {
                assert(joined(s)[k] == front[k]);
            } else if k > front.len() {
                assert(joined(s)[k] == last[k - front.len() - 1]);
            }
        }
    }
}

proof fn lemma_joined_injective(a: Seq<i64>, b: Seq<i64>)
    requires
        joined(a) == joined(b),
    ensures
        a == b,
    decreases a.len(),
{
    let x = joined(a);
    let y = joined(b);
    lemma_joined_shape(a);
    lemma_joined_shape(b);
    if a.len() == 0 {
        assert(a =~= b);
    } else {
        lemma_decimal_shape(a.last() as int);
        lemma_decimal_shape(b.last() as int);
        let m = joined(a.drop_last()).len() as int;
        let n = joined(b.drop_last()).len() as int;
        if a.len() == 1 && b.len() == 1 {
            lemma_decimal_injective(a[0] as int, b[0] as int);
        } else if a.len() == 1 {
            assert(y[n] == 44u8);
            assert(x[n] == decimal(a[0] as int)[n]);
        } else if b.len() == 1 {
            assert(x[m] == 44u8);
            assert(y[m] == decimal(b[0] as int)[m]);
        } else {
            assert(x[m] == 44u8);
            assert(y[n] == 44u8);
            if m < n {
                assert(x[n] == decimal(a.last() as int)[n - m - 1]);
            }
            if n < m {
                assert(y[m] == decimal(b.last() as int)[m - n - 1]);
            }
            assert(x.take(m) =~= joined(a.drop_last()));
            assert(y.take(m) =~= joined(b.drop_last()));
            assert(x.skip(m + 1) =~= decimal(a.last() as int));
            assert(y.skip(m + 1) =~= decimal(b.last() as int));
            lemma_joined_injective(a.drop_last(), b.drop_last());
            lemma_decimal_injective(a.last() as int, b.last() as int);
            assert(a =~= a.drop_last().push(a.last()));
            assert(b =~= b.drop_last().push(b.last()));
        }
        assert(a =~= b);
    }
}

/// Two stages stand for the same bytes only if they are the same stage.
pub proof fn law_pipeline_content_is_faithful(a: i64, b: i64, c: i64, d: i64)
    requires
        json_array(seq![a, b]) == json_array(seq![c, d]),
    ensures
        a == c,
        b == d,
{
    let x = seq![a, b];
    let y = seq![c, d];
    assert(json_array(x).skip(1).drop_last() =~= joined(x));
    assert(json_array(y).skip(1).drop_last() =~= joined(y));
    lemma_joined_injective(x, y);
    assert(x[0] == y[0] && x[1] == y[1]);
}

/// Two tensor shards stand for the same bytes only if their shapes, offsets and
/// weights are the same.
pub proof fn law_tensor_content_is_faithful(
    a: (u16, u16, u16),
    v: Seq<i64>,
    b: (u16, u16, u16),
    w: Seq<i64>,
)
    requires
        tensor_bytes(a.0, a.1, a.2, v) == tensor_bytes(b.0, b.1, b.2, w),
    ensures
        a == b,
        v == w,
{
    let x = tensor_bytes(a.0, a.1, a.2, v);
    let y = tensor_bytes(b.0, b.1, b.2, w);
    let f = seq![a.0 as i64, a.1 as i64, a.2 as i64];
    let g = seq![b.0 as i64, b.1 as i64, b.2 as i64];
    lemma_joined_shape(f);
    lemma_joined_shape(g);
    let m = joined(f).len() as int;
    let n = joined(g).len() as int;
    assert(x[m + 2] == 91u8);
    assert(y[n + 2] == 91u8);
    assert(x[m + 1] == 44u8);
    assert(y[n + 1] == 44u8);
    if m < n {
        if m + 2 == n + 1 {
            assert(y[m + 2] == 44u8);
        } else {
            assert(y[m + 2] == joined(g)[m + 1]);
        }
    }
    if n < m {
        if n + 2 == m + 1 {
            assert(x[n + 2] == 44u8);
        } else {
            assert(x[n + 2] == joined(f)[n + 1]);
        }
    }
    assert(x.subrange(1, m + 1) =~= joined(f));
    assert(y.subrange(1, m + 1) =~= joined(g));
    lemma_joined_injective(f, g);
    assert(f[0] == g[0] && f[1] == g[1] && f[2] == g[2]);
    assert(x.skip(m + 3).drop_last().drop_last() =~= joined(v));
    assert(y.skip(m + 3).drop_last().drop_last() =~= joined(w));
    lemma_joined_injective(v, w);
}

/// A number is written in decimal digits, the last one for its remainder by ten, a negative
/// one behind a minus sign; numbers of a list are set apart by commas, between brackets.
pub proof fn law_numbers_are_decimal(n: nat, items: Seq<i64>, item: i64)
    ensures
        digits(n).len() > 0,
        digits(n).last() == 48 + n % 10,
        n < 10 ==> digits(n).len() == 1,
        n >= 10 ==> digits(n).drop_last() == digits(n / 10),
        decimal(n as int) == digits(n),
        n > 0 ==> decimal(-(n as int)) == seq![45u8] + digits(n),
        joined(Seq::empty()).len() == 0,
        joined(seq![item]) == decimal(item as int),
        items.len() > 0 ==> joined(items.push(item)) == joined(items) + seq![44u8] + decimal(
            item as int,
        ),
        json_array(items) == seq![91u8] + joined(items) + seq![93u8],
    decreases n,
{
    if n >= 10 {
        assert(digits(n).drop_last() =~= digits(n / 10));
    }
    assert(items.push(item).drop_last() =~= items);
}

} // verus!
