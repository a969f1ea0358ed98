//! A validated, interned identifier naming a trading actor.
//!
//! The library centres on [`identifier::TraderId`]: an immutable value type
//! wrapping a deduplicated string handle. The validating constructor (and
//! the well-known default) only hand out identifiers whose text carries the
//! structural guarantees: non-empty, not all whitespace, and containing at
//! least one `-` separator. Equality, ordering and hashing all derive from
//! the same underlying text.

pub mod errors;
pub mod identifier;
pub mod interning;
pub mod order;
pub mod validate;
