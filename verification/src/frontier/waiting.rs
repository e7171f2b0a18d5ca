//! Sets of answers that are still awaited.

use crate::base::ids::NodeId;
use vstd::prelude::*;

verus! {

/// An answer that a holder owes: for which shard or stage, and whether the
/// holder is a replica.
#[derive(Clone, Copy, Debug, PartialEq, Eq, Structural)]
pub struct AckKey {
    pub peer: NodeId,
    pub item: u16,
    pub replica: bool,
}

/// The answers that are awaited.
#[derive(Debug)]
pub struct AckSet {
    items: Vec<AckKey>,
}

impl View for AckSet {
    type V = Set<AckKey>;

    closed spec fn view(&self) -> Set<AckKey> {
        self.items@.to_set()
    }
}

impl AckSet {
    pub fn new() -> (r: AckSet)
        ensures
            r@ == Set::<AckKey>::empty(),
    {
        let r = AckSet { items: Vec::new() };
        assert(r@ =~= Set::<AckKey>::empty());
        r
    }

    pub fn is_empty(&self) -> (r: bool)
        ensures
            r == (self@ == Set::<AckKey>::empty()),
    {
        let n: usize = self.items.len();
        proof {
            if n == 0 {
                assert(self@ =~= Set::<AckKey>::empty());
            } else {
                assert(self.items@.contains(self.items@[0]));
                assert(self@.contains(self.items@[0]));
            }
        }
        n == 0
    }

    /// Await one more answer.
    pub fn insert(&mut self, key: AckKey)
        ensures
            final(self)@ == old(self)@.insert(key),
    {
        let ghost before = self.items@;
        self.items.push(key);
        proof {
            before.lemma_push_to_set_commute(key);
        }
    }

    /// An answer came; the result tells whether it was awaited.
    pub fn remove(&mut self, key: AckKey) -> (r: bool)
        ensures
            final(self)@ == old(self)@.remove(key),
            r == old(self)@.contains(key),
    {
        let ghost before = self.items@;
        let mut kept: Vec<AckKey> = Vec::new();
        let mut found = false;
        let mut i: usize = 0;
        assert(kept@.to_set() =~= before.take(0).to_set().remove(key));
        while i < self.items.len()
            invariant
                0 <= i <= self.items@.len(),
                self.items@ == before,
                kept@.to_set() == before.take(i as int).to_set().remove(key),
                found == before.take(i as int).contains(key),
            decreases self.items@.len() - i,
        {
            let item = self.items[i];
            proof {
                assert(before.take(i as int + 1) =~= before.take(i as int).push(item));
                before.take(i as int).lemma_push_to_set_commute(item);
                kept@.lemma_push_to_set_commute(item);
                let t = before.take(i as int);
                assert(t.push(item)[t.len() as int] == item);
                assert forall|k: AckKey| t.contains(k) implies t.push(item).contains(k) by {
                    let j = choose|j: int| 0 <= j < t.len() && t[j] == k;
                    assert(t.push(item)[j] == k);
                }
                assert(t.push(item).to_set().contains(key) == t.push(item).contains(key));
                assert(t.to_set().contains(key) == t.contains(key));
            }
            if item == key {
                found = true;
                assert(kept@.to_set() =~= before.take(i as int + 1).to_set().remove(key));
            } else {
                kept.push(item);
                assert(kept@.to_set() =~= before.take(i as int + 1).to_set().remove(key));
            }
            i += 1;
        }
        proof {
            assert(before.take(i as int) =~= before);
            assert(before.to_set().contains(key) == before.contains(key));
        }
        self.items = kept;
        found
    }
}

/// A set of small numbers.
#[derive(Debug)]
pub struct NumberSet {
    items: Vec<u32>,
}

impl View for NumberSet {
    type V = Set<u32>;

    closed spec fn view(&self) -> Set<u32> {
        self.items@.to_set()
    }
}

impl NumberSet {
    pub fn new() -> (r: NumberSet)
        ensures
            r@ == Set::<u32>::empty(),
    {
        let r = NumberSet { items: Vec::new() };
        assert(r@ =~= Set::<u32>::empty());
        r
    }

    pub fn is_empty(&self) -> (r: bool)
        ensures
            r == (self@ == Set::<u32>::empty()),
    {
        let n: usize = self.items.len();
        proof {
            if n == 0 {
                assert(self@ =~= Set::<u32>::empty());
            } else {
                assert(self.items@.contains(self.items@[0]));
                assert(self@.contains(self.items@[0]));
            }
        }
        n == 0
    }

    pub fn insert(&mut self, number: u32)
        ensures
            final(self)@ == old(self)@.insert(number),
    {
        let ghost before = self.items@;
        self.items.push(number);
        proof {
            before.lemma_push_to_set_commute(number);
        }
    }

    /// Take `number` out; the result tells whether it was there.
    pub fn remove(&mut self, number: u32) -> (r: bool)
        ensures
            final(self)@ == old(self)@.remove(number),
            r == old(self)@.contains(number),
    {
        let ghost before = self.items@;
        let mut kept: Vec<u32> = Vec::new();
        let mut found = false;
        let mut i: usize = 0;
        assert(kept@.to_set() =~= before.take(0).to_set().remove(number));
        while i < self.items.len()
            invariant
                0 <= i <= self.items@.len(),
                self.items@ == before,
                kept@.to_set() == before.take(i as int).to_set().remove(number),
                found == before.take(i as int).contains(number),
            decreases self.items@.len() - i,
        {
            let item: u32 = self.items[i];
            proof {
                assert(before.take(i as int + 1) =~= before.take(i as int).push(item));
                before.take(i as int).lemma_push_to_set_commute(item);
                kept@.lemma_push_to_set_commute(item);
                let t = before.take(i as int);
                assert(t.push(item)[t.len() as int] == item);
                assert forall|k: u32| t.contains(k) implies t.push(item).contains(k) by {
                    let j = choose|j: int| 0 <= j < t.len() && t[j] == k;
                    assert(t.push(item)[j] == k);
                }
                assert(t.push(item).to_set().contains(number) == t.push(item).contains(number));
                assert(t.to_set().contains(number) == t.contains(number));
            }
            if item == number {
                found = true;
                assert(kept@.to_set() =~= before.take(i as int + 1).to_set().remove(number));
            } else {
                kept.push(item);
                assert(kept@.to_set() =~= before.take(i as int + 1).to_set().remove(number));
            }
            i += 1;
        }
        proof {
            assert(before.take(i as int) =~= before);
            assert(before.to_set().contains(number) == before.contains(number));
        }
        self.items = kept;
        found
    }
}

} // verus!
