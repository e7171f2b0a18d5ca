//! Membership lists and sets of peers.

use super::ids::{id_le, id_lt, NodeId};
use super::search::{
    find, inside, lemma_filter_ends, lemma_filter_step, lemma_find_at, other_than, outside,
};
use vstd::prelude::*;

verus! {

/// Every identity comes strictly before the ones after it.
pub open spec fn strictly_sorted(s: Seq<NodeId>) -> bool {
    forall|i: int, j: int| 0 <= i < j < s.len() ==> id_lt(#[trigger] s[i], #[trigger] s[j])
}

/// The identity that comes first in byte order.
pub open spec fn least(s: Seq<NodeId>) -> Option<NodeId>
    decreases s.len(),
{
    if s.len() == 0 {
        None
    } else {
        match least(s.drop_last()) {
            None => Some(s.last()),
            Some(m) => if id_lt(s.last(), m) {
                Some(s.last())
            } else {
                Some(m)
            },
        }
    }
}

/// The least identity is a member and no member comes before it.
pub proof fn lemma_least(s: Seq<NodeId>)
    ensures
        s.len() == 0 <==> least(s) is None,
        least(s) matches Some(m) ==> s.contains(m) && forall|x: NodeId| #[trigger]
            s.contains(x) ==> id_le(m, x),
    decreases s.len(),
{
    if s.len() > 0 {
        let t = s.drop_last();
        lemma_least(t);
        let m = least(s)->0;
        if let Some(k) = least(t) {
            let i = choose|i: int| 0 <= i < t.len() && t[i] == k;
            assert(s[i] == k);
        }
        assert(s[s.len() - 1] == s.last());
        assert forall|x: NodeId| #[trigger] s.contains(x) implies id_le(m, x) by {
            let i = choose|i: int| 0 <= i < s.len() && s[i] == x;
            if i < t.len() {
                assert(t[i] == x);
                assert(t.contains(x));
            }
        }
    }
}

/// Two strictly sorted lists of the same identities are the same list.
pub proof fn lemma_strictly_sorted_unique(a: Seq<NodeId>, b: Seq<NodeId>)
    requires
        strictly_sorted(a),
        strictly_sorted(b),
        a.to_set() == b.to_set(),
    ensures
        a == b,
    decreases a.len(),
{
    lemma_strictly_sorted_distinct(a);
    lemma_strictly_sorted_distinct(b);
    a.unique_seq_to_set();
    b.unique_seq_to_set();
    if a.len() > 0 {
        let la = a.last();
        let lb = b.last();
        assert(b.to_set().contains(la));
        assert(a.to_set().contains(lb));
        let ia = choose|i: int| 0 <= i < b.len() && b[i] == la;
        let ib = choose|i: int| 0 <= i < a.len() && a[i] == lb;
        assert(la == lb) by {
            if ia < b.len() - 1 {
                assert(id_lt(b[ia], b[b.len() - 1]));
                if ib < a.len() - 1 {
                    assert(id_lt(a[ib], a[a.len() - 1]));
                }
            }
        }
        let ta = a.drop_last();
        let tb = b.drop_last();
        assert(ta.to_set() =~= tb.to_set()) by {
            assert forall|x: NodeId| ta.to_set().contains(x) == tb.to_set().contains(x) by {
                if ta.contains(x) {
                    let k = choose|k: int| 0 <= k < ta.len() && ta[k] == x;
                    assert(a[k] == x && id_lt(a[k], a[a.len() - 1]));
                    assert(a.to_set().contains(x));
                    let m = choose|m: int| 0 <= m < b.len() && b[m] == x;
                    assert(tb[m] == x);
                }
                if tb.contains(x) {
                    let k = choose|k: int| 0 <= k < tb.len() && tb[k] == x;
                    assert(b[k] == x && id_lt(b[k], b[b.len() - 1]));
                    assert(b.to_set().contains(x));
                    let m = choose|m: int| 0 <= m < a.len() && a[m] == x;
                    assert(ta[m] == x);
                }
            }
        }
        lemma_strictly_sorted_unique(ta, tb);
        assert(a =~= ta.push(la));
        assert(b =~= tb.push(lb));
    } else {
        assert(a =~= b);
    }
}

/// The members of `set` in byte order.
pub open spec fn ascending(set: Set<NodeId>) -> Seq<NodeId> {
    choose|s: Seq<NodeId>| strictly_sorted(s) && #[trigger] s.to_set() == set
}

/// A strictly sorted list is the ascending listing of its members.
pub proof fn lemma_ascending(s: Seq<NodeId>)
    requires
        strictly_sorted(s),
    ensures
        ascending(s.to_set()) == s,
{
    let t = ascending(s.to_set());
    assert(strictly_sorted(t) && t.to_set() == s.to_set());
    lemma_strictly_sorted_unique(s, t);
}

/// Every finite set has an ascending listing.
pub proof fn lemma_ascending_exists(set: Set<NodeId>)
    requires
        set.finite(),
    ensures
        strictly_sorted(ascending(set)),
        ascending(set).to_set() == set,
{
    let s = lemma_sorted_listing(set);
    assert(strictly_sorted(s) && s.to_set() == set);
}

proof fn lemma_sorted_listing(set: Set<NodeId>) -> (r: Seq<NodeId>)
    requires
        set.finite(),
    ensures
        strictly_sorted(r),
        r.to_set() == set,
    decreases set.len(),
{
    if set.len() == 0 {
        let r = Seq::<NodeId>::empty();
        assert(r.to_set() =~= set);
        r
    } else {
        let x = set.choose();
        let rest = lemma_sorted_listing(set.remove(x));
        lemma_insert_listing(rest, x);
        let r = choose|r: Seq<NodeId>| strictly_sorted(r) && r.to_set() == rest.to_set().insert(x);
        assert(set.remove(x).insert(x) =~= set);
        r
    }
}

proof fn lemma_insert_listing(s: Seq<NodeId>, x: NodeId)
    requires
        strictly_sorted(s),
        !s.contains(x),
    ensures
        exists|r: Seq<NodeId>| strictly_sorted(r) && r.to_set() == s.to_set().insert(x),
    decreases s.len(),
{
    if s.len() == 0 || id_lt(s.last(), x) {
        let r = s.push(x);
        s.lemma_push_to_set_commute(x);
        assert forall|i: int, j: int| 0 <= i < j < r.len() implies id_lt(
            #[trigger] r[i],
            #[trigger] r[j],
        ) by {
            if j == s.len() {
                if i < s.len() - 1 {
                    assert(id_lt(s[i], s[s.len() - 1]));
                }
            } else {
                assert(id_lt(s[i], s[j]));
            }
        }
        assert(strictly_sorted(r) && r.to_set() == s.to_set().insert(x));
    } else {
        let t = s.drop_last();
        let last = s.last();
        assert(!t.contains(x)) by {
            if t.contains(x) {
                let k = choose|k: int| 0 <= k < t.len() && t[k] == x;
                assert(s[k] == x);
            }
        }
        lemma_insert_listing(t, x);
        let u = choose|r: Seq<NodeId>| strictly_sorted(r) && r.to_set() == t.to_set().insert(x);
        let r = u.push(last);
        u.lemma_push_to_set_commute(last);
        t.lemma_push_to_set_commute(last);
        assert(s =~= t.push(last));
        assert(s[s.len() - 1] == last && s.contains(last));
        assert forall|i: int, j: int| 0 <= i < j < r.len() implies id_lt(
            #[trigger] r[i],
            #[trigger] r[j],
        ) by {
            if j == u.len() {
                assert(u.to_set().contains(u[i]));
                if u[i] != x {
                    assert(t.contains(u[i]));
                    let k = choose|k: int| 0 <= k < t.len() && t[k] == u[i];
                    assert(id_lt(s[k], s[s.len() - 1]));
                }
            } else {
                assert(id_lt(u[i], u[j]));
            }
        }
        assert(r.to_set() =~= s.to_set().insert(x));
        assert(strictly_sorted(r) && r.to_set() == s.to_set().insert(x));
    }
}

/// A strictly sorted list has no duplicates.
pub proof fn lemma_strictly_sorted_distinct(s: Seq<NodeId>)
    requires
        strictly_sorted(s),
    ensures
        s.no_duplicates(),
{
}

/// Filtering keeps a list strictly sorted.
pub proof fn lemma_filter_sorted(s: Seq<NodeId>, p: spec_fn(NodeId) -> bool)
    requires
        strictly_sorted(s),
    ensures
        strictly_sorted(s.filter(p)),
    decreases s.len(),
{
    reveal(Seq::filter);
    if s.len() > 0 {
        let t = s.drop_last();
        lemma_filter_sorted(t, p);
        super::search::lemma_filter_contains(t, p);
        let f = t.filter(p);
        if p(s.last()) {
            assert forall|i: int, j: int| 0 <= i < j < s.filter(p).len() implies id_lt(
                #[trigger] s.filter(p)[i],
                #[trigger] s.filter(p)[j],
            ) by {
                if j == f.len() {
                    assert(f.contains(f[i]));
                    let k = choose|k: int| 0 <= k < t.len() && t[k] == f[i];
                    assert(id_lt(s[k], s[s.len() - 1]));
                }
            }
        }
    } else {
        assert(s.filter(p) =~= Seq::<NodeId>::empty());
    }
}

/// Two majorities of one membership have a member in common.
pub proof fn lemma_majorities_intersect(a: Set<NodeId>, b: Set<NodeId>, members: Set<NodeId>)
    requires
        members.finite(),
        a.subset_of(members),
        b.subset_of(members),
        2 * a.len() > members.len(),
        2 * b.len() > members.len(),
    ensures
        exists|x: NodeId| a.contains(x) && b.contains(x),
{
    vstd::set_lib::lemma_set_subset_finite(members, a);
    vstd::set_lib::lemma_set_subset_finite(members, b);
    if forall|x: NodeId| !(a.contains(x) && b.contains(x)) {
        assert(a.disjoint(b));
        vstd::set_lib::lemma_set_disjoint_lens(a, b);
        assert((a + b).subset_of(members));
        vstd::set_lib::lemma_len_subset(a + b, members);
    }
}

pub fn contains_id(ids: &Vec<NodeId>, node: NodeId) -> (r: bool)
    ensures
        r == ids@.contains(node),
{
    let mut i: usize = 0;
    while i < ids.len()
        invariant
            0 <= i <= ids@.len(),
            forall|j: int| 0 <= j < i ==> ids@[j] != node,
        decreases ids@.len() - i,
    {
        if ids[i] == node {
            assert(ids@[i as int] == node);
            return true;
        }
        i += 1;
    }
    false
}

/// Whether every identity in `ids` is in `members`.
pub fn all_members(ids: &Vec<NodeId>, members: &Vec<NodeId>) -> (r: bool)
    ensures
        r == (forall|j: int| 0 <= j < ids@.len() ==> members@.contains(#[trigger] ids@[j])),
{
    let mut i: usize = 0;
    while i < ids.len()
        invariant
            0 <= i <= ids@.len(),
            forall|j: int| 0 <= j < i ==> members@.contains(#[trigger] ids@[j]),
        decreases ids@.len() - i,
    {
        if !contains_id(members, ids[i]) {
            assert(!members@.contains(ids@[i as int]));
            return false;
        }
        i += 1;
    }
    true
}

/// Whether no identity occurs twice in `ids`.
pub fn distinct_ids(ids: &Vec<NodeId>) -> (r: bool)
    ensures
        r == ids@.no_duplicates(),
{
    let mut i: usize = 0;
    while i < ids.len()
        invariant
            0 <= i <= ids@.len(),
            forall|a: int, b: int| 0 <= a < b < i ==> ids@[a] != ids@[b],
        decreases ids@.len() - i,
    {
        let mut j: usize = 0;
        while j < i
            invariant
                0 <= j <= i < ids@.len(),
                forall|a: int| 0 <= a < j ==> ids@[a] != ids@[i as int],
            decreases i - j,
        {
            if ids[j] == ids[i] {
                assert(!ids@.no_duplicates()) by {
                    assert(ids@[j as int] == ids@[i as int]);
                }
                return false;
            }
            j += 1;
        }
        i += 1;
    }
    true
}

pub fn filter_other_than(ids: &Vec<NodeId>, node: NodeId) -> (r: Vec<NodeId>)
    ensures
        r@ == ids@.filter(other_than(node)),
{
    let mut kept: Vec<NodeId> = Vec::new();
    let mut i: usize = 0;
    proof {
        lemma_filter_ends(ids@, other_than(node));
    }
    while i < ids.len()
        invariant
            0 <= i <= ids@.len(),
            kept@ == ids@.take(i as int).filter(other_than(node)),
        decreases ids@.len() - i,
    {
        proof {
            lemma_filter_step(ids@, other_than(node), i as int);
        }
        if ids[i] != node {
            kept.push(ids[i]);
        }
        i += 1;
    }
    proof {
        lemma_filter_ends(ids@, other_than(node));
    }
    kept
}

pub fn filter_outside(ids: &Vec<NodeId>, set: &NodeSet) -> (r: Vec<NodeId>)
    ensures
        r@ == ids@.filter(outside(set@)),
{
    let mut kept: Vec<NodeId> = Vec::new();
    let mut i: usize = 0;
    proof {
        lemma_filter_ends(ids@, outside(set@));
    }
    while i < ids.len()
        invariant
            0 <= i <= ids@.len(),
            kept@ == ids@.take(i as int).filter(outside(set@)),
        decreases ids@.len() - i,
    {
        proof {
            lemma_filter_step(ids@, outside(set@), i as int);
        }
        if !set.contains(ids[i]) {
            kept.push(ids[i]);
        }
        i += 1;
    }
    proof {
        lemma_filter_ends(ids@, outside(set@));
    }
    kept
}

pub fn filter_inside(ids: &Vec<NodeId>, set: &NodeSet) -> (r: Vec<NodeId>)
    ensures
        r@ == ids@.filter(inside(set@)),
{
    let mut kept: Vec<NodeId> = Vec::new();
    let mut i: usize = 0;
    proof {
        lemma_filter_ends(ids@, inside(set@));
    }
    while i < ids.len()
        invariant
            0 <= i <= ids@.len(),
            kept@ == ids@.take(i as int).filter(inside(set@)),
        decreases ids@.len() - i,
    {
        proof {
            lemma_filter_step(ids@, inside(set@), i as int);
        }
        if set.contains(ids[i]) {
            kept.push(ids[i]);
        }
        i += 1;
    }
    proof {
        lemma_filter_ends(ids@, inside(set@));
    }
    kept
}

pub fn first_outside(ids: &Vec<NodeId>, set: &NodeSet) -> (r: Option<NodeId>)
    ensures
        r == find(ids@, outside(set@)),
{
    let mut i: usize = 0;
    while i < ids.len()
        invariant
            0 <= i <= ids@.len(),
            forall|j: int| 0 <= j < i ==> !outside(set@)(#[trigger] ids@[j]),
        decreases ids@.len() - i,
    {
        if !set.contains(ids[i]) {
            proof {
                lemma_find_at(ids@, outside(set@), i as int);
            }
            return Some(ids[i]);
        }
        i += 1;
    }
    proof {
        lemma_find_at(ids@, outside(set@), i as int);
    }
    None
}

pub fn first_other_than(ids: &Vec<NodeId>, node: NodeId) -> (r: Option<NodeId>)
    ensures
        r == find(ids@, other_than(node)),
{
    let mut i: usize = 0;
    while i < ids.len()
        invariant
            0 <= i <= ids@.len(),
            forall|j: int| 0 <= j < i ==> !other_than(node)(#[trigger] ids@[j]),
        decreases ids@.len() - i,
    {
        if ids[i] != node {
            proof {
                lemma_find_at(ids@, other_than(node), i as int);
            }
            return Some(ids[i]);
        }
        i += 1;
    }
    proof {
        lemma_find_at(ids@, other_than(node), i as int);
    }
    None
}

pub fn least_id(ids: &Vec<NodeId>) -> (r: Option<NodeId>)
    ensures
        r == least(ids@),
{
    let mut best: Option<NodeId> = None;
    let mut i: usize = 0;
    while i < ids.len()
        invariant
            0 <= i <= ids@.len(),
            best == least(ids@.take(i as int)),
        decreases ids@.len() - i,
    {
        assert(ids@.take(i as int + 1).drop_last() =~= ids@.take(i as int));
        match best {
            None => {
                best = Some(ids[i]);
            },
            Some(m) => {
                if ids[i].precedes(&m) {
                    best = Some(ids[i]);
                }
            },
        }
        i += 1;
    }
    assert(ids@.take(i as int) =~= ids@);
    best
}

/// The identities of `ids`, each once, in byte order.
pub fn sorted_unique(ids: &Vec<NodeId>) -> (r: Vec<NodeId>)
    ensures
        r@ == ascending(ids@.to_set()),
        strictly_sorted(r@),
        r@.to_set() == ids@.to_set(),
{
    let mut out: Vec<NodeId> = Vec::new();
    let mut i: usize = 0;
    assert(out@.to_set() =~= ids@.take(0).to_set());
    while i < ids.len()
        invariant
            0 <= i <= ids@.len(),
            strictly_sorted(out@),
            out@.to_set() == ids@.take(i as int).to_set(),
        decreases ids@.len() - i,
    {
        let node = ids[i];
        let ghost before = out@;
        insert_sorted(&mut out, node);
        proof {
            assert(ids@.take(i as int + 1) =~= ids@.take(i as int).push(node));
            ids@.take(i as int).lemma_push_to_set_commute(node);
        }
        i += 1;
    }
    assert(ids@.take(i as int) =~= ids@);
    proof {
        lemma_ascending(out@);
    }
    out
}

/// Put `node` into a strictly sorted list, unless it is there already.
pub fn insert_sorted(out: &mut Vec<NodeId>, node: NodeId)
    requires
        strictly_sorted(old(out)@),
    ensures
        strictly_sorted(final(out)@),
        final(out)@.to_set() == old(out)@.to_set().insert(node),
{
    let ghost before = out@;
    let mut at: usize = 0;
    while at < out.len() && out[at].precedes(&node)
        invariant
            0 <= at <= out@.len(),
            out@ == before,
            strictly_sorted(out@),
            forall|j: int| 0 <= j < at ==> id_lt(#[trigger] out@[j], node),
        decreases out@.len() - at,
    {
        at += 1;
    }
    if at < out.len() && out[at] == node {
        assert(before.to_set() =~= before.to_set().insert(node));
        return ;
    }
    out.insert(at, node);
    proof {
        assert(out@ =~= before.insert(at as int, node));
        assert forall|i: int, j: int| 0 <= i < j < out@.len() implies id_lt(
            #[trigger] out@[i],
            #[trigger] out@[j],
        ) by {
            let bi = if i < at { i } else { i - 1 };
            let bj = if j < at { j } else { j - 1 };
            if i != at && j != at {
                assert(id_lt(before[bi], before[bj]));
            }
            if i == at {
                assert(id_lt(node, before[at as int]));
                if bj > at {
                    assert(id_lt(before[at as int], before[bj]));
                }
            }
        }
        assert(out@.to_set() =~= before.to_set().insert(node)) by {
            assert forall|x: NodeId| out@.to_set().contains(x) == before.to_set().insert(
                node,
            ).contains(x) by {
                if before.contains(x) {
                    let k = choose|k: int| 0 <= k < before.len() && before[k] == x;
                    if k < at {
                        assert(out@[k] == x);
                    } else {
                        assert(out@[k + 1] == x);
                    }
                }
                if x == node {
                    assert(out@[at as int] == x);
                }
                if out@.contains(x) && x != node {
                    let k = choose|k: int| 0 <= k < out@.len() && out@[k] == x;
                    if k < at {
                        assert(before[k] == x);
                    } else {
                        assert(before[k - 1] == x);
                    }
                }
            }
        }
    }
}

/// `s` without the elements that repeat the one before them.
pub open spec fn without_repeats(s: Seq<NodeId>) -> Seq<NodeId>
    decreases s.len(),
{
    if s.len() == 0 {
        s
    } else {
        let before = without_repeats(s.drop_last());
        if before.len() > 0 && before.last() == s.last() {
            before
        } else {
            before.push(s.last())
        }
    }
}

/// `ids` without the elements that repeat the one before them.
pub fn drop_repeats(ids: &Vec<NodeId>) -> (r: Vec<NodeId>)
    ensures
        r@ == without_repeats(ids@),
{
    let mut out: Vec<NodeId> = Vec::new();
    let mut i: usize = 0;
    while i < ids.len()
        invariant
            0 <= i <= ids@.len(),
            out@ == without_repeats(ids@.take(i as int)),
        decreases ids@.len() - i,
    {
        assert(ids@.take(i as int + 1).drop_last() =~= ids@.take(i as int));
        let repeated = out.len() > 0 && out[out.len() - 1] == ids[i];
        if !repeated {
            out.push(ids[i]);
        }
        i += 1;
    }
    assert(ids@.take(i as int) =~= ids@);
    out
}

/// Dropping repeats keeps the set of members.
pub proof fn lemma_without_repeats(s: Seq<NodeId>)
    ensures
        without_repeats(s).to_set() == s.to_set(),
        without_repeats(s).len() <= s.len(),
        s.len() > 0 ==> without_repeats(s).len() > 0 && without_repeats(s).last() == s.last(),
    decreases s.len(),
{
    if s.len() > 0 {
        let t = s.drop_last();
        lemma_without_repeats(t);
        t.lemma_push_to_set_commute(s.last());
        without_repeats(t).lemma_push_to_set_commute(s.last());
        assert(s =~= t.push(s.last()));
        if without_repeats(s) == without_repeats(t) {
            assert(without_repeats(t).contains(s.last()));
            assert(t.to_set().contains(s.last()));
            assert(t.to_set().insert(s.last()) =~= t.to_set());
        }
    }
}

/// At most the first `limit` of `ids`.
pub fn first_ids(ids: Vec<NodeId>, limit: usize) -> (r: Vec<NodeId>)
    ensures
        r@ == ids@.take(super::arith::min_int(ids@.len() as int, limit as int)),
{
    let mut ids = ids;
    if ids.len() > limit {
        ids.truncate(limit);
    }
    assert(ids@ =~= ids@.take(ids@.len() as int));
    ids
}

/// The identities of both lists, in order.
pub fn concat_ids(a: &Vec<NodeId>, b: &Vec<NodeId>) -> (r: Vec<NodeId>)
    ensures
        r@ == a@ + b@,
{
    let mut out = a.clone();
    let mut i: usize = 0;
    assert(out@ =~= a@ + b@.take(0));
    while i < b.len()
        invariant
            0 <= i <= b@.len(),
            out@ == a@ + b@.take(i as int),
        decreases b@.len() - i,
    {
        out.push(b[i]);
        assert(out@ =~= a@ + b@.take(i as int + 1));
        i += 1;
    }
    assert(b@.take(i as int) =~= b@);
    out
}

/// Whether the list holds `node` and nothing else.
pub fn is_just(ids: &Vec<NodeId>, node: NodeId) -> (r: bool)
    ensures
        r == (ids@ == seq![node]),
{
    let r = ids.len() == 1 && ids[0] == node;
    proof {
        if r {
            assert(ids@ =~= seq![node]);
        } else if ids@ == seq![node] {
            assert(ids@[0] == node);
        }
    }
    r
}

/// Whether two lists hold the same identities in the same order.
pub fn same_ids(a: &Vec<NodeId>, b: &Vec<NodeId>) -> (r: bool)
    ensures
        r == (a@ == b@),
{
    if a.len() != b.len() {
        return false;
    }
    let mut i: usize = 0;
    while i < a.len()
        invariant
            a@.len() == b@.len(),
            0 <= i <= a@.len(),
            forall|j: int| 0 <= j < i ==> a@[j] == b@[j],
        decreases a@.len() - i,
    {
        if a[i] != b[i] {
            assert(a@[i as int] != b@[i as int]);
            return false;
        }
        i += 1;
    }
    assert(a@ =~= b@);
    true
}

/// Append `node` unless it is there already.
pub open spec fn push_new(s: Seq<NodeId>, node: NodeId) -> Seq<NodeId> {
    if s.contains(node) {
        s
    } else {
        s.push(node)
    }
}

pub fn push_unique(ids: &mut Vec<NodeId>, node: NodeId)
    ensures
        final(ids)@ == push_new(old(ids)@, node),
{
    if !contains_id(ids, node) {
        ids.push(node);
    }
}

/// A set of peers.
#[derive(Debug)]
pub struct NodeSet {
    items: Vec<NodeId>,
}

impl View for NodeSet {
    type V = Set<NodeId>;

    closed spec fn view(&self) -> Set<NodeId> {
        self.items@.to_set()
    }
}

impl NodeSet {
    #[verifier::type_invariant]
    spec fn inv(self) -> bool {
        self.items@.no_duplicates()
    }

    pub fn new() -> (r: NodeSet)
        ensures
            r@ == Set::<NodeId>::empty(),
    {
        let r = NodeSet { items: Vec::new() };
        assert(r@ =~= Set::<NodeId>::empty());
        r
    }

    pub fn from_ids(ids: &Vec<NodeId>) -> (r: NodeSet)
        ensures
            r@ == ids@.to_set(),
    {
        let mut r = NodeSet::new();
        let mut i: usize = 0;
        assert(r@ =~= ids@.take(0).to_set());
        while i < ids.len()
            invariant
                0 <= i <= ids@.len(),
                r@ == ids@.take(i as int).to_set(),
            decreases ids@.len() - i,
        {
            let node = ids[i];
            r.insert(node);
            proof {
                assert(ids@.take(i as int + 1) =~= ids@.take(i as int).push(node));
                ids@.take(i as int).lemma_push_to_set_commute(node);
            }
            i += 1;
        }
        assert(ids@.take(i as int) =~= ids@);
        r
    }

    pub fn contains(&self, node: NodeId) -> (r: bool)
        ensures
            r == self@.contains(node),
    {
        contains_id(&self.items, node)
    }

    pub fn len(&self) -> (r: usize)
        ensures
            r == self@.len(),
            self@.finite(),
    {
        proof {
            use_type_invariant(self);
            self.items@.unique_seq_to_set();
            vstd::seq_lib::seq_to_set_is_finite(self.items@);
        }
        self.items.len()
    }

    /// Add `node`; the result tells whether it was new.
    pub fn insert(&mut self, node: NodeId) -> (r: bool)
        ensures
            final(self)@ == old(self)@.insert(node),
            r == !old(self)@.contains(node),
    {
        proof {
            use_type_invariant(&*self);
        }
        if contains_id(&self.items, node) {
            assert(self@ =~= self@.insert(node));
            return false;
        }
        let mut items: Vec<NodeId> = Vec::new();
        std::mem::swap(&mut items, &mut self.items);
        let ghost before = items@;
        items.push(node);
        proof {
            before.lemma_push_to_set_commute(node);
        }
        self.items = items;
        true
    }

    /// Take `node` out; the result tells whether it was there.
    pub fn remove(&mut self, node: NodeId) -> (r: bool)
        ensures
            final(self)@ == old(self)@.remove(node),
            r == old(self)@.contains(node),
    {
        proof {
            use_type_invariant(&*self);
        }
        let found = contains_id(&self.items, node);
        let kept = filter_other_than(&self.items, node);
        proof {
            super::search::lemma_filter_contains(self.items@, other_than(node));
            super::search::lemma_filter_distinct(self.items@, other_than(node));
            assert(kept@.to_set() =~= self.items@.to_set().remove(node)) by {
                assert forall|x: NodeId| kept@.to_set().contains(x)
                    == self.items@.to_set().remove(node).contains(x) by {
                    assert(kept@.contains(x) <==> self.items@.contains(x) && other_than(node)(x));
                }
            }
        }
        self.items = kept;
        found
    }

    pub fn clear(&mut self)
        ensures
            final(self)@ == Set::<NodeId>::empty(),
    {
        self.items = Vec::new();
        assert(self@ =~= Set::<NodeId>::empty());
    }

    pub fn is_empty(&self) -> (r: bool)
        ensures
            r == (self@ == Set::<NodeId>::empty()),
    {
        proof {
            if self.items@.len() == 0 {
                assert(self@ =~= Set::<NodeId>::empty());
            } else {
                assert(self@.contains(self.items@[0]));
            }
        }
        self.items.len() == 0
    }

    /// The members in byte order.
    pub fn to_sorted(&self) -> (r: Vec<NodeId>)
        ensures
            r@ == ascending(self@),
            strictly_sorted(r@),
            r@.to_set() == self@,
    {
        sorted_unique(&self.items)
    }

    /// The members, each once.
    pub fn members(&self) -> (r: Vec<NodeId>)
        ensures
            r@.no_duplicates(),
            r@.to_set() == self@,
    {
        proof {
            use_type_invariant(self);
        }
        self.items.clone()
    }
}

/// Identities come in the order of their bytes: any two are equal or one of them comes
/// first, and never both.
pub proof fn law_identities_are_ordered(a: NodeId, b: NodeId, c: NodeId)
    ensures
        id_lt(a, b) || id_lt(b, a) || a == b,
        !(id_lt(a, b) && id_lt(b, a)),
        id_lt(a, b) && id_lt(b, c) ==> id_lt(a, c),
        a.hi < b.hi ==> id_lt(a, b),
        a.hi == b.hi && a.lo < b.lo ==> id_lt(a, b),
        id_le(a, b) <==> !id_lt(b, a),
{
}

/// The least of a list is one of it, and none of it comes before.
pub proof fn law_least_comes_first(s: Seq<NodeId>, i: int)
    requires
        0 <= i < s.len(),
    ensures
        least(s) matches Some(m) && s.contains(m) && id_le(m, s[i]),
{
    lemma_least(s);
    assert(s.contains(s[i]));
}

/// The listing of a finite set has exactly its members, in byte order.
pub proof fn law_listing_has_the_members(set: Set<NodeId>, node: NodeId)
    requires
        set.finite(),
    ensures
        strictly_sorted(ascending(set)),
        ascending(set).contains(node) <==> set.contains(node),
        ascending(set).len() == set.len(),
{
    lemma_ascending_exists(set);
    let s = ascending(set);
    assert(s.contains(node) <==> s.to_set().contains(node));
    lemma_strictly_sorted_distinct(s);
    s.unique_seq_to_set();
}

/// A node is appended exactly where it is not there yet, behind the others.
pub proof fn law_nodes_are_appended_once(s: Seq<NodeId>, node: NodeId, other: NodeId)
    ensures
        s.contains(node) ==> push_new(s, node) == s,
        !s.contains(node) ==> push_new(s, node) == s.push(node),
        push_new(s, node).contains(other) <==> s.contains(other) || other == node,
{
    if !s.contains(node) {
        let t = s.push(node);
        assert(t[s.len() as int] == node);
        if s.contains(other) {
            let k = s.index_of(other);
            assert(t[k] == other);
        }
        if t.contains(other) && other != node {
            let k = t.index_of(other);
            assert(s[k] == other);
        }
    }
}

/// Repeats in a row go, and nothing else: the same nodes stay, and no two neighbours are
/// equal.
pub proof fn law_repeats_in_a_row_go(s: Seq<NodeId>, i: int)
    ensures
        without_repeats(s).to_set() == s.to_set(),
        0 <= i < without_repeats(s).len() - 1 ==> without_repeats(s)[i] != without_repeats(s)[i
            + 1],
        (forall|k: int| 0 <= k < s.len() - 1 ==> #[trigger] s[k] != s[k + 1]) ==> without_repeats(s)
            == s,
    decreases s.len(),
{
    lemma_without_repeats(s);
    if s.len() > 0 {
        let t = s.drop_last();
        law_repeats_in_a_row_go(t, i);
        lemma_without_repeats(t);
        if forall|k: int| 0 <= k < s.len() - 1 ==> #[trigger] s[k] != s[k + 1] {
            assert forall|k: int| 0 <= k < t.len() - 1 implies #[trigger] t[k] != t[k + 1] by {
                assert(s[k] != s[k + 1]);
            }
            if t.len() > 0 {
                assert(s[t.len() - 1] != s[t.len() - 1 + 1]);
            }
            assert(without_repeats(s) =~= s);
        }
    }
}

} // verus!
