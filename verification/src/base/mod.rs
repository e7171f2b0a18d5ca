//! Identities, arithmetic, membership sets and ordered tables.

pub mod arith;
pub mod ids;
pub mod members;
pub mod ordered;
pub mod record;
pub mod search;
pub mod text;
pub mod values;
