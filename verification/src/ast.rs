//! Read-only views of the syntax-tree shapes the rule inspects: source
//! spans, patterns, match arms, and expression nodes. The rule never
//! allocates, mutates, or persists these values; it only reads them.

use vstd::prelude::*;

verus! {

/// A half-open byte-offset range into source text (start inclusive, end
/// exclusive), used to anchor diagnostics.
#[derive(Clone, Copy, PartialEq, Eq, Structural, Debug)]
pub struct Span {
    pub start: usize,
    pub end: usize,
}

/// The operator of a unary expression. Only `Deref` matters to this rule;
/// every other unary operator is collapsed into `Other`.
#[derive(Clone, Copy, PartialEq, Eq, Structural, Debug)]
pub enum UnaryOp {
    Deref,
    Other,
}

/// A syntactic pattern. Its internal structure is irrelevant to this rule;
/// only its source span is read.
#[derive(Clone, Copy, PartialEq, Eq, Structural, Debug)]
pub struct Pattern {
    pub span: Span,
}

/// One branch of a match construct: one or more alternative patterns.
/// The data model guarantees `patterns` is never empty — a case must match
/// at least one pattern.
#[derive(Clone, Debug)]
pub struct Arm {
    pub patterns: Vec<Pattern>,
}

/// The expression kinds this rule distinguishes. A match construct holds a
/// scrutinee and an ordered sequence of arms; a unary expression holds an
/// operator and an operand; everything else is `Other`.
#[derive(Debug)]
pub enum ExprKind {
    Match { scrutinee: Box<Expr>, arms: Vec<Arm> },
    Unary { op: UnaryOp, operand: Box<Expr> },
    Other,
}

/// An expression node: a kind plus the source span the node covers.
#[derive(Debug)]
pub struct Expr {
    pub kind: ExprKind,
    pub span: Span,
}

/// An arm is well formed when it holds at least one pattern.
pub open spec fn arm_wf(a: Arm) -> bool {
    a.patterns@.len() > 0
}

/// The arms of a match expression; the empty sequence for any other node.
pub open spec fn match_arms(e: Expr) -> Seq<Arm> {
    match e.kind {
        ExprKind::Match { arms, .. } => arms@,
        _ => Seq::empty(),
    }
}

/// The scrutinee of a match expression; the node itself for any other node
/// (guarded by `recommends` at the places that read it).
pub open spec fn scrutinee_of(e: Expr) -> Expr
    recommends
        e.kind is Match,
{
    match e.kind {
        ExprKind::Match { scrutinee, .. } => *scrutinee,
        _ => e,
    }
}

/// The node is a unary expression whose operator is a dereference. Only the
/// top-level operator is inspected, never nested structure.
pub open spec fn is_deref_expr(e: Expr) -> bool {
    e.kind matches ExprKind::Unary { op, .. } && op is Deref
}

/// The node is a match expression whose scrutinee is a dereference.
pub open spec fn scrutinee_is_deref(e: Expr) -> bool {
    e.kind matches ExprKind::Match { scrutinee, .. } && is_deref_expr(*scrutinee)
}

/// Every arm of the node (if it is a match expression) is well formed.
/// This is the data-model invariant an upstream parser guarantees.
pub open spec fn arms_wf(e: Expr) -> bool {
    forall|i: int| 0 <= i < match_arms(e).len() ==> arm_wf(#[trigger] match_arms(e)[i])
}

/// The span unified over an arm's patterns: from the start of the first
/// pattern to the end of the last.
pub open spec fn unified_span(a: Arm) -> Span
    recommends
        arm_wf(a),
{
    Span {
        start: a.patterns@[0].span.start,
        end: a.patterns@[a.patterns@.len() - 1].span.end,
    }
}

} // verus!
