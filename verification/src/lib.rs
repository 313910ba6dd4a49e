//! A single static-analysis rule: detect `match` expressions whose scrutinee
//! is a pointer dereference and recommend a pattern-based rewrite instead.
//!
//! The rule is a stateless pure function of one expression node plus an
//! externally supplied diagnostic level. The syntax-tree shapes it reads are
//! modeled by this crate's own types in [`ast`]; the diagnostics it emits are
//! the values in [`diagnostics`]; the rule itself lives in
//! [`match_dereference`].

pub mod ast;
pub mod diagnostics;
pub mod match_dereference;
