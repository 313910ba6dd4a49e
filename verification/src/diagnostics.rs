//! The diagnostic values the rule emits: the configured level of a rule,
//! a primary diagnostic, and a secondary note attached to it.

use crate::ast::Span;
use vstd::prelude::*;

verus! {

/// The configured severity of a lint rule. `Allow` disables the rule;
/// `Warn`, `Deny` and `Forbid` enable it with increasing strictness.
#[derive(Clone, Copy, PartialEq, Eq, Structural, Debug)]
pub enum Level {
    Allow,
    Warn,
    Deny,
    Forbid,
}

/// A secondary note attached to a primary diagnostic.
#[derive(Clone, Debug)]
pub struct Note {
    pub span: Span,
    pub message: String,
}

/// A primary diagnostic: a severity, the span it is anchored at, a message,
/// and at most one attached note.
#[derive(Clone, Debug)]
pub struct Diagnostic {
    pub severity: Level,
    pub span: Span,
    pub message: String,
    pub note: Option<Note>,
}

/// The message of the primary diagnostic.
pub open spec fn primary_message() -> Seq<char> {
    "Dereferencing in a match expression is discouraged"@
}

/// The message of the attached note.
pub open spec fn note_message() -> Seq<char> {
    "Consider using a pointer/box pattern here and in all other match arms."@
}

} // verus!
