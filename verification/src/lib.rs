//! Decisions, state machines and arithmetic of a peer-to-peer training runtime.

use vstd::prelude::*;

pub mod base;
pub mod frontier;
pub mod reference;

verus! {

} // verus!
