//! Copies that keep the view of a value.

use super::ids::{ArtifactId, JobId, NodeId};
use super::search::{lemma_views_push, opt_view, views};
use vstd::prelude::*;

verus! {

/// A value that can be copied without changing its view.
pub trait Duplicate: View + Sized {
    fn duplicate(&self) -> (r: Self)
        ensures
            r@ == self@,
    ;
}

impl Duplicate for u64 {
    fn duplicate(&self) -> (r: u64) {
        *self
    }
}

impl Duplicate for (i64, i64) {
    fn duplicate(&self) -> (r: (i64, i64)) {
        (self.0, self.1)
    }
}

impl Duplicate for NodeId {
    fn duplicate(&self) -> (r: NodeId) {
        *self
    }
}

impl View for JobId {
    type V = JobId;

    open spec fn view(&self) -> JobId {
        *self
    }
}

impl View for ArtifactId {
    type V = ArtifactId;

    open spec fn view(&self) -> ArtifactId {
        *self
    }
}

/// A copy of every element of a list.
pub fn duplicate_all<T: Duplicate>(items: &Vec<T>) -> (r: Vec<T>)
    ensures
        views(r@) == views(items@),
{
    let mut out: Vec<T> = Vec::new();
    let mut i: usize = 0;
    while i < items.len()
        invariant
            0 <= i <= items@.len(),
            views(out@) == views(items@.take(i as int)),
        decreases items@.len() - i,
    {
        let item = items[i].duplicate();
        proof {
            lemma_views_push(out@, item);
            assert(items@.take(i as int + 1) =~= items@.take(i as int).push(items@[i as int]));
            lemma_views_push(items@.take(i as int), items@[i as int]);
        }
        out.push(item);
        i += 1;
    }
    assert(items@.take(i as int) =~= items@);
    out
}

/// A copy of an optional value.
pub fn duplicate_opt<T: Duplicate>(item: &Option<T>) -> (r: Option<T>)
    ensures
        opt_view(r) == opt_view(*item),
{
    match item {
        Some(t) => Some(t.duplicate()),
        None => None,
    }
}

} // verus!
