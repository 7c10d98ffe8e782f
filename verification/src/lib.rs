//! Compile-time builder-method generation, modelled and verified.
//!
//! The crate takes a parsed description of an annotated structure (its name,
//! generic parameters, and ordered fields with declared types, documentation
//! lines and directive annotations) and computes the set of chained
//! setter-style methods to emit for it: one consuming-self method per
//! eligible field, honouring `skip`, `rename` and `into` directives.
//! The transformation itself is pure and fully verified; turning the host
//! compiler's syntax tree into the descriptor and the computed methods back
//! into source tokens is left to a thin unverified adapter.

pub mod ast;
pub mod error;
pub mod parse;
pub mod shape;
pub mod generate;
pub mod laws;
