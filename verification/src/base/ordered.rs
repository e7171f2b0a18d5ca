//! Tables kept in ascending order of a 16-bit key.

use super::record::Duplicate;
use super::search::{lemma_views_push, views};
use std::collections::BTreeMap;
use vstd::prelude::*;
use vstd::std_specs::cmp::OrdSpec;
use vstd::std_specs::iter::IteratorSpec;

verus! {

/// The values of `m` at the keys from `low` on, in ascending order of key.
pub open spec fn values_from<A>(m: Map<u16, A>, low: int) -> Seq<A>
    decreases 0x1_0000 - low,
{
    if low < 0 || low >= 0x1_0000 {
        Seq::empty()
    } else if m.contains_key(low as u16) {
        seq![m[low as u16]] + values_from(m, low + 1)
    } else {
        values_from(m, low + 1)
    }
}

/// The values of `m` in ascending order of key.
pub open spec fn ordered_values<A>(m: Map<u16, A>) -> Seq<A> {
    values_from(m, 0)
}

/// The keys of `m` from `low` on, in ascending order.
pub open spec fn keys_from<A>(m: Map<u16, A>, low: int) -> Seq<u16>
    decreases 0x1_0000 - low,
{
    if low < 0 || low >= 0x1_0000 {
        Seq::empty()
    } else if m.contains_key(low as u16) {
        seq![low as u16] + keys_from(m, low + 1)
    } else {
        keys_from(m, low + 1)
    }
}

/// The keys of `m` in ascending order.
pub open spec fn ordered_keys<A>(m: Map<u16, A>) -> Seq<u16> {
    keys_from(m, 0)
}

/// Ascending values are the values at the ascending keys.
pub proof fn lemma_values_at_keys<A>(m: Map<u16, A>, low: int)
    requires
        0 <= low <= 0x1_0000,
    ensures
        values_from(m, low).len() == keys_from(m, low).len(),
        forall|i: int|
            0 <= i < keys_from(m, low).len() ==> m.contains_key(#[trigger] keys_from(m, low)[i])
                && keys_from(m, low)[i] >= low && values_from(m, low)[i] == m[keys_from(m, low)[i]],
        forall|i: int, j: int|
            0 <= i < j < keys_from(m, low).len() ==> keys_from(m, low)[i] < keys_from(m, low)[j],
        forall|k: u16| #[trigger]
            m.contains_key(k) && k >= low ==> keys_from(m, low).contains(k),
    decreases 0x1_0000 - low,
{
    if low < 0x1_0000 {
        lemma_values_at_keys(m, low + 1);
        let rest = keys_from(m, low + 1);
        let all = keys_from(m, low);
        if m.contains_key(low as u16) {
            assert forall|i: int| 0 <= i < all.len() implies m.contains_key(#[trigger] all[i])
                && all[i] >= low && values_from(m, low)[i] == m[all[i]] by {
                if i > 0 {
                    assert(all[i] == rest[i - 1]);
                }
            }
            assert forall|i: int, j: int| 0 <= i < j < all.len() implies all[i] < all[j] by {
                assert(all[j] == rest[j - 1]);
                if i > 0 {
                    assert(all[i] == rest[i - 1]);
                }
            }
            assert forall|k: u16| #[trigger] m.contains_key(k) && k >= low implies all.contains(
                k,
            ) by {
                if k == low {
                    assert(all[0] == k);
                } else {
                    assert(rest.contains(k));
                    let i = choose|i: int| 0 <= i < rest.len() && rest[i] == k;
                    assert(all[i + 1] == k);
                }
            }
        }
    }
}

/// A list of keys is in ascending order.
spec fn ascends(keys: Seq<u16>) -> bool {
    forall|i: int, j: int| 0 <= i < j < keys.len() ==> (#[trigger] keys[i]) < (#[trigger] keys[j])
}

/// An ascending list of exactly the keys of `m` from `low` on is the only one.
proof fn lemma_one_listing<A>(m: Map<u16, A>, keys: Seq<u16>, low: int)
    requires
        0 <= low <= 0x1_0000,
        ascends(keys),
        forall|k: u16| keys.contains(k) <==> #[trigger] m.contains_key(k) && k >= low,
    ensures
        keys == keys_from(m, low),
    decreases 0x1_0000 - low,
{
    if low == 0x1_0000 {
        if keys.len() > 0 {
            assert(keys.contains(keys[0]));
            assert(m.contains_key(keys[0]));
        }
        assert(keys =~= keys_from(m, low));
    } else {
        let least = low as u16;
        if m.contains_key(least) {
            assert(keys.contains(least));
            let at = keys.index_of(least);
            if at > 0 {
                assert(keys[0] < keys[at]);
                assert(keys.contains(keys[0]));
                assert(m.contains_key(keys[0]));
            }
            let rest = keys.skip(1);
            assert forall|i: int, j: int| 0 <= i < j < rest.len() implies (#[trigger] rest[i]) < (
            #[trigger] rest[j]) by {
                assert(keys[i + 1] < keys[j + 1]);
            }
            assert forall|k: u16| rest.contains(k) <==> #[trigger] m.contains_key(k) && k >= low
                + 1 by {
                if rest.contains(k) {
                    let i = rest.index_of(k);
                    assert(keys[i + 1] == k);
                    assert(keys[0] < keys[i + 1]);
                    assert(keys.contains(k));
                }
                if m.contains_key(k) && k >= low + 1 {
                    assert(keys.contains(k));
                    let i = keys.index_of(k);
                    assert(rest[i - 1] == k);
                }
            }
            lemma_one_listing(m, rest, low + 1);
            assert(keys =~= seq![least] + rest);
        } else {
            assert forall|k: u16| keys.contains(k) <==> #[trigger] m.contains_key(k) && k >= low
                + 1 by {
                assert(least == low);
                if m.contains_key(k) {
                    assert(k != least);
                }
            }
            lemma_one_listing(m, keys, low + 1);
        }
    }
}

/// A table with 16-bit keys, in ascending order of key.
#[derive(Debug)]
pub struct OrdMap<V> {
    entries: BTreeMap<u16, V>,
}

impl<V: View> View for OrdMap<V> {
    type V = Map<u16, V::V>;

    closed spec fn view(&self) -> Map<u16, V::V> {
        self.entries@.map_values(|v: V| v@)
    }
}

impl<V: View> OrdMap<V> {
    pub fn new() -> (r: OrdMap<V>)
        ensures
            r@ == Map::<u16, V::V>::empty(),
    {
        let r = OrdMap { entries: BTreeMap::new() };
        assert(r@ =~= Map::<u16, V::V>::empty());
        r
    }

    pub fn get(&self, key: u16) -> (r: Option<&V>)
        ensures
            match r {
                Some(v) => self@.contains_key(key) && v@ == self@[key],
                None => !self@.contains_key(key),
            },
    {
        broadcast use vstd::laws_cmp::group_laws_cmp;

        self.entries.get(&key)
    }

    pub fn contains(&self, key: u16) -> (r: bool)
        ensures
            r == self@.contains_key(key),
    {
        self.get(key).is_some()
    }

    /// Set the value at `key`.
    pub fn insert(&mut self, key: u16, value: V)
        ensures
            final(self)@ == old(self)@.insert(key, value@),
    {
        broadcast use vstd::laws_cmp::group_laws_cmp;

        self.entries.insert(key, value);
        assert(self@ =~= old(self)@.insert(key, value@));
    }

    pub fn len(&self) -> (r: usize)
        ensures
            r == ordered_values(self@).len(),
    {
        broadcast use vstd::laws_cmp::group_laws_cmp;

        proof {
            lemma_values_at_keys(self@, 0);
            let keys = ordered_keys(self@);
            assert(keys.to_set() =~= self.entries@.dom()) by {
                assert forall|k: u16| keys.to_set().contains(k) == self.entries@.dom().contains(
                    k,
                ) by {
                    assert(self@.contains_key(k) == self.entries@.contains_key(k));
                    if keys.contains(k) {
                        let i = keys.index_of(k);
                        assert(self@.contains_key(keys[i]));
                    }
                }
            }
            keys.unique_seq_to_set();
        }
        self.entries.len()
    }

    /// The value at the smallest key.
    pub fn first(&self) -> (r: Option<&V>)
        ensures
            match r {
                Some(v) => ordered_values(self@).len() > 0 && v@ == ordered_values(self@)[0],
                None => ordered_values(self@).len() == 0,
            },
    {
        let keys = self.keys();
        proof {
            lemma_values_at_keys(self@, 0);
        }
        if keys.len() == 0 {
            None
        } else {
            self.get(keys[0])
        }
    }

    /// The keys in ascending order.
    pub fn keys(&self) -> (r: Vec<u16>)
        ensures
            r@ == ordered_keys(self@),
    {
        broadcast use vstd::laws_cmp::group_laws_cmp;

        let listing = self.entries.iter();
        let ghost all = listing.remaining();
        let ghost keys = all.map_values(|kv: (&u16, &V)| *kv.0);
        let mut out: Vec<u16> = Vec::new();
        for entry in it: listing
            invariant
                it.seq() == all,
                out@ == keys.take(it.index()),
                keys == all.map_values(|kv: (&u16, &V)| *kv.0),
        {
            out.push(*entry.0);
            assert(out@ =~= keys.take(it.index() + 1));
        }
        proof {
            assert(out@ =~= keys);
            assert(vstd::std_specs::btree::increasing_seq(keys));
            assert forall|i: int, j: int| 0 <= i < j < keys.len() implies (#[trigger] keys[i]) < (
            #[trigger] keys[j]) by {
                assert(keys[i].cmp_spec(&keys[j]) is Less);
            }
            assert forall|k: u16| keys.contains(k) <==> #[trigger] self@.contains_key(k) && k
                >= 0 by {
                assert(self@.contains_key(k) == self.entries@.contains_key(k));
                if keys.contains(k) {
                    let i = keys.index_of(k);
                    assert(self.entries@.contains_key(*all[i].0));
                }
                if self.entries@.contains_key(k) {
                    assert(all.contains((&k, &self.entries@[k])));
                    let i = all.index_of((&k, &self.entries@[k]));
                    assert(keys[i] == k);
                }
            }
            lemma_one_listing(self@, keys, 0);
        }
        out
    }
}

impl<V: Duplicate> OrdMap<V> {
    /// Copies of the values in ascending order of key.
    pub fn values(&self) -> (r: Vec<V>)
        ensures
            views(r@) == ordered_values(self@),
    {
        let keys = self.keys();
        let ghost all = ordered_values(self@);
        let mut out: Vec<V> = Vec::new();
        let mut i: usize = 0;
        proof {
            lemma_values_at_keys(self@, 0);
            assert(views(out@) =~= all.take(0));
        }
        while i < keys.len()
            invariant
                0 <= i <= keys@.len(),
                keys@ == ordered_keys(self@),
                all == ordered_values(self@),
                all.len() == keys@.len(),
                forall|j: int|
                    0 <= j < keys@.len() ==> self@.contains_key(#[trigger] keys@[j]) && all[j]
                        == self@[keys@[j]],
                views(out@) == all.take(i as int),
            decreases keys@.len() - i,
        {
            match self.get(keys[i]) {
                Some(value) => {
                    let copy = value.duplicate();
                    proof {
                        lemma_views_push(out@, copy);
                        assert(all.take(i as int + 1) =~= all.take(i as int).push(copy@));
                    }
                    out.push(copy);
                },
                None => {
                    assert(self@.contains_key(keys@[i as int]));
                },
            }
            i += 1;
        }
        assert(all.take(i as int) =~= all);
        out
    }
}

/// Keys are listed in ascending order, every key of the map once and no other, and each
/// value stands where its key does.
pub proof fn law_values_stand_at_their_keys<A>(m: Map<u16, A>, i: int, k: u16)
    ensures
        ordered_values(m).len() == ordered_keys(m).len(),
        0 <= i < ordered_keys(m).len() ==> m.contains_key(ordered_keys(m)[i])
            && ordered_values(m)[i] == m[ordered_keys(m)[i]],
        0 <= i < ordered_keys(m).len() - 1 ==> ordered_keys(m)[i] < ordered_keys(m)[i + 1],
        ordered_keys(m).contains(k) <==> m.contains_key(k),
{
    lemma_values_at_keys(m, 0);
    if ordered_keys(m).contains(k) {
        let at = ordered_keys(m).index_of(k);
        assert(m.contains_key(keys_from(m, 0)[at]));
    }
}

} // verus!
