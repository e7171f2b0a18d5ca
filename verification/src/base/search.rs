//! First-match search, the predicates it is used with, and facts about
//! filtering and searching a growing prefix.

use super::ids::NodeId;
use vstd::prelude::*;

verus! {

/// The first element of `s` that satisfies `p`.
pub open spec fn find<A>(s: Seq<A>, p: spec_fn(A) -> bool) -> Option<A>
    decreases s.len(),
{
    if s.len() == 0 {
        None
    } else if p(s[0]) {
        Some(s[0])
    } else {
        find(s.drop_first(), p)
    }
}

/// The views of the elements of `s`.
pub open spec fn views<T: View>(s: Seq<T>) -> Seq<T::V> {
    s.map_values(|t: T| t@)
}

/// The view of an optional value.
pub open spec fn opt_view<T: View>(o: Option<T>) -> Option<T::V> {
    match o {
        Some(t) => Some(t@),
        None => None,
    }
}

/// The identities outside `set`.
pub open spec fn outside(set: Set<NodeId>) -> spec_fn(NodeId) -> bool {
    |n: NodeId| !set.contains(n)
}

/// The identities inside `set`.
pub open spec fn inside(set: Set<NodeId>) -> spec_fn(NodeId) -> bool {
    |n: NodeId| set.contains(n)
}

/// The identities other than `node`.
pub open spec fn other_than(node: NodeId) -> spec_fn(NodeId) -> bool {
    |n: NodeId| n != node
}

/// `find` skips a prefix without a match and stops at the first match.
pub proof fn lemma_find_at<A>(s: Seq<A>, p: spec_fn(A) -> bool, i: int)
    requires
        0 <= i <= s.len(),
        forall|j: int| 0 <= j < i ==> !p(#[trigger] s[j]),
    ensures
        i < s.len() && p(s[i]) ==> find(s, p) == Some(s[i]),
        i == s.len() ==> find(s, p) is None,
    decreases i,
{
    if i > 0 {
        let t = s.drop_first();
        assert(!p(s[0]));
        assert forall|j: int| 0 <= j < i - 1 implies !p(#[trigger] t[j]) by {
            assert(t[j] == s[j + 1]);
        }
        lemma_find_at(t, p, i - 1);
    }
}

/// What `find` returns is an element that satisfies the predicate, and it
/// returns one whenever there is one.
pub proof fn lemma_find_sound<A>(s: Seq<A>, p: spec_fn(A) -> bool)
    ensures
        find(s, p) matches Some(x) ==> s.contains(x) && p(x),
        find(s, p) is None ==> forall|j: int| 0 <= j < s.len() ==> !p(#[trigger] s[j]),
    decreases s.len(),
{
    if s.len() > 0 && !p(s[0]) {
        let t = s.drop_first();
        lemma_find_sound(t, p);
        if let Some(x) = find(t, p) {
            let k = choose|k: int| 0 <= k < t.len() && t[k] == x;
            assert(s[k + 1] == x);
        } else {
            assert forall|j: int| 0 <= j < s.len() implies !p(#[trigger] s[j]) by {
                if j > 0 {
                    assert(t[j - 1] == s[j]);
                }
            }
        }
    }
}

/// Extending a prefix by one element extends its filtered form by that
/// element or leaves it alone.
pub proof fn lemma_filter_step<A>(s: Seq<A>, p: spec_fn(A) -> bool, i: int)
    requires
        0 <= i < s.len(),
    ensures
        s.take(i + 1).filter(p) == (if p(s[i]) {
            s.take(i).filter(p).push(s[i])
        } else {
            s.take(i).filter(p)
        }),
{
    reveal(Seq::filter);
    assert(s.take(i + 1).drop_last() =~= s.take(i));
    assert(s.take(i + 1).last() == s[i]);
}

/// A full prefix is the sequence, and an empty one filters to nothing.
pub proof fn lemma_filter_ends<A>(s: Seq<A>, p: spec_fn(A) -> bool)
    ensures
        s.take(s.len() as int) == s,
        s.take(0).filter(p) == Seq::<A>::empty(),
{
    reveal(Seq::filter);
    assert(s.take(s.len() as int) =~= s);
    assert(s.take(0) =~= Seq::<A>::empty());
    assert(s.take(0).filter(p) =~= Seq::<A>::empty());
}

/// A filtered sequence holds exactly the elements that satisfy the predicate.
pub proof fn lemma_filter_contains<A>(s: Seq<A>, p: spec_fn(A) -> bool)
    ensures
        forall|x: A| #[trigger] s.filter(p).contains(x) <==> s.contains(x) && p(x),
        s.filter(p).len() <= s.len(),
    decreases s.len(),
{
    reveal(Seq::filter);
    if s.len() > 0 {
        let t = s.drop_last();
        lemma_filter_contains(t, p);
        let last = s.last();
        assert forall|x: A| #[trigger] s.filter(p).contains(x) <==> s.contains(x) && p(x) by {
            if s.contains(x) {
                let k = choose|k: int| 0 <= k < s.len() && s[k] == x;
                if k < t.len() {
                    assert(t[k] == x);
                    assert(t.contains(x));
                }
                if p(x) {
                    if k < t.len() {
                        assert(t.filter(p).contains(x));
                        let m = choose|m: int| 0 <= m < t.filter(p).len() && t.filter(p)[m] == x;
                        assert(s.filter(p)[m] == x);
                    } else {
                        assert(s.filter(p)[s.filter(p).len() - 1] == x);
                    }
                }
            }
            if s.filter(p).contains(x) {
                let m = choose|m: int| 0 <= m < s.filter(p).len() && s.filter(p)[m] == x;
                if m < t.filter(p).len() {
                    assert(t.filter(p)[m] == x);
                    assert(t.filter(p).contains(x));
                    let k = choose|k: int| 0 <= k < t.len() && t[k] == x;
                    assert(s[k] == x);
                } else {
                    assert(x == last);
                    assert(s[s.len() - 1] == x);
                }
            }
        }
    } else {
        assert(s.filter(p) =~= Seq::<A>::empty());
    }
}

/// Filtering keeps the absence of duplicates.
pub proof fn lemma_filter_distinct<A>(s: Seq<A>, p: spec_fn(A) -> bool)
    requires
        s.no_duplicates(),
    ensures
        s.filter(p).no_duplicates(),
    decreases s.len(),
{
    reveal(Seq::filter);
    if s.len() > 0 {
        let t = s.drop_last();
        lemma_filter_distinct(t, p);
        lemma_filter_contains(t, p);
        if p(s.last()) {
            assert(!t.contains(s.last()));
            assert(!t.filter(p).contains(s.last()));
            let f = t.filter(p);
            assert forall|i: int, j: int| 0 <= i < j < s.filter(p).len() implies s.filter(p)[i]
                != s.filter(p)[j] by {
                if j == f.len() {
                    assert(f.contains(f[i]));
                }
            }
        }
    } else {
        assert(s.filter(p) =~= Seq::<A>::empty());
    }
}

/// Equal views of the elements are equal sequences of views.
pub proof fn lemma_views_push<T: View>(s: Seq<T>, t: T)
    ensures
        views(s.push(t)) == views(s).push(t@),
{
    assert(views(s.push(t)) =~= views(s).push(t@));
}

/// What is found is the first that satisfies the condition, and nothing is found only where
/// none does.
pub proof fn law_first_is_found<A>(s: Seq<A>, p: spec_fn(A) -> bool, i: int)
    requires
        0 <= i < s.len(),
    ensures
        p(s[i]) && (forall|j: int| 0 <= j < i ==> !p(#[trigger] s[j])) ==> find(s, p) == Some(s[i]),
        p(s[i]) ==> find(s, p) is Some,
        find(s, p) matches Some(x) ==> s.contains(x) && p(x),
{
    lemma_find_sound(s, p);
    if forall|j: int| 0 <= j < i ==> !p(#[trigger] s[j]) {
        lemma_find_at(s, p, i);
    }
}

/// Nodes are told apart by identity: outside a set are those that it does not hold, inside
/// those that it does, and other than a node all but that one.
pub proof fn law_conditions_on_nodes(set: Set<NodeId>, node: NodeId, n: NodeId)
    ensures
        outside(set)(n) <==> !set.contains(n),
        inside(set)(n) <==> set.contains(n),
        other_than(node)(n) <==> n != node,
{
}

} // verus!
