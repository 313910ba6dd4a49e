//! A lint that warns when the scrutinee of a match expression is a
//! dereference. While perfectly legal, this practice is discouraged in
//! favor of pointer/box patterns: instead of `match *five { 5 => .., _ => .. }`,
//! prefer `match five { box 5 => .., _ => .. }`.
//!
//! The rule is a pure function of one expression node plus the externally
//! configured diagnostic level; it participates in a larger external
//! traversal that visits every expression once.

use crate::ast::{
    arm_wf, arms_wf, is_deref_expr, match_arms, scrutinee_is_deref, scrutinee_of, unified_span,
    Arm, Expr, ExprKind, Span, UnaryOp,
};
use crate::diagnostics::{note_message, primary_message, Diagnostic, Level, Note};
use vstd::prelude::*;

verus! {

/// A description of one lint rule: its name, a short description, and the
/// level it runs at unless configured otherwise.
#[derive(Clone, Debug)]
pub struct Lint {
    pub name: String,
    pub desc: String,
    pub default_level: Level,
}

/// The descriptor of the dereference-in-match rule.
pub open spec fn is_match_dereference_lint(l: Lint) -> bool {
    &&& l.name@ == "match_dereference"@
    &&& l.desc@ == "match conditions that do not need to dereference"@
    &&& l.default_level == Level::Warn
}

/// Builds the descriptor of the dereference-in-match rule, which warns by
/// default.
pub fn match_dereference_lint() -> (r: Lint)
    ensures
        is_match_dereference_lint(r),
{
    Lint {
        name: String::from_str("match_dereference"),
        desc: String::from_str("match conditions that do not need to dereference"),
        default_level: Level::Warn,
    }
}

/// The rule emits a diagnostic exactly when the node is a match expression
/// whose scrutinee is a dereference and the rule is not disabled.
pub open spec fn rule_triggers(e: Expr, level: Level) -> bool {
    scrutinee_is_deref(e) && !(level is Allow)
}

/// The one diagnostic the rule emits for a triggering node: the configured
/// level at the scrutinee's span, with a note over the first arm's patterns
/// whenever the match has any arms.
pub open spec fn is_expected_diagnostic(d: Diagnostic, e: Expr, level: Level) -> bool {
    &&& d.severity == level
    &&& d.span == scrutinee_of(e).span
    &&& d.message@ == primary_message()
    &&& (match_arms(e).len() > 0 ==> (d.note matches Some(n) && n.span == unified_span(
        match_arms(e)[0],
    ) && n.message@ == note_message()))
    &&& (match_arms(e).len() == 0 ==> d.note is None)
}

/// The dereference-in-match detector. It is stateless: each call is an
/// independent check of one expression node.
pub struct MatchDerefLint;

impl MatchDerefLint {
    /// The rules this pass provides: exactly the dereference-in-match rule.
    pub fn get_lints(&self) -> (r: Vec<Lint>)
        ensures
            r@.len() == 1,
            is_match_dereference_lint(r@[0]),
    {
        let mut lints: Vec<Lint> = Vec::new();
        lints.push(match_dereference_lint());
        lints
    }

    /// Inspects one expression node. A node that is not a match expression,
    /// a match whose scrutinee is not a dereference, and any node while the
    /// rule is disabled at `Allow` all yield no diagnostics; a match over a
    /// dereference at any other level yields exactly one.
    pub fn check_expr(&self, e: &Expr, level: Level) -> (r: Vec<Diagnostic>)
        requires
            arms_wf(*e),
        ensures
            e.kind !is Match ==> r@.len() == 0,
            e.kind is Match && !scrutinee_is_deref(*e) ==> r@.len() == 0,
            level is Allow ==> r@.len() == 0,
            rule_triggers(*e, level) <==> r@.len() == 1,
            r@.len() == 1 ==> is_expected_diagnostic(r@[0], *e, level),
    {
        match &e.kind {
            ExprKind::Match { scrutinee, arms } => {
                proof {
                    assert(match_arms(*e) == arms@);
                }
                check_match(scrutinee, arms, level)
            },
            _ => Vec::new(),
        }
    }
}

/// Checks the scrutinee of one match expression. If its top-level operator
/// is a dereference and the rule is enabled, the result is one diagnostic at
/// the scrutinee's span, with a note over the first arm's patterns whenever
/// there is a first arm; otherwise the result is empty.
pub fn check_match(scrutinee: &Expr, arms: &Vec<Arm>, level: Level) -> (r: Vec<Diagnostic>)
    requires
        forall|i: int| 0 <= i < arms@.len() ==> arm_wf(#[trigger] arms@[i]),
    ensures
        is_deref_expr(*scrutinee) && !(level is Allow) <==> r@.len() == 1,
        !(is_deref_expr(*scrutinee) && !(level is Allow)) ==> r@.len() == 0,
        r@.len() == 1 ==> {
            &&& r@[0].severity == level
            &&& r@[0].span == scrutinee.span
            &&& r@[0].message@ == primary_message()
            &&& (arms@.len() > 0 ==> (r@[0].note matches Some(n) && n.span == unified_span(
                arms@[0],
            ) && n.message@ == note_message()))
            &&& (arms@.len() == 0 ==> r@[0].note is None)
        },
{
    let mut out: Vec<Diagnostic> = Vec::new();
    match &scrutinee.kind {
        ExprKind::Unary { op: UnaryOp::Deref, .. } => {
            if !matches!(level, Level::Allow) {
                let note = if arms.len() > 0 {
                    Some(
                        Note {
                            span: unify_span(&arms[0]),
                            message: String::from_str(
                                "Consider using a pointer/box pattern here and in all other match arms.",
                            ),
                        },
                    )
                } else {
                    None
                };
                out.push(
                    Diagnostic {
                        severity: level,
                        span: scrutinee.span,
                        message: String::from_str(
                            "Dereferencing in a match expression is discouraged",
                        ),
                        note,
                    },
                );
            }
        },
        _ => {},
    }
    out
}

/// Unifies the spans of a single arm's patterns: the result runs from the
/// start of the first pattern to the end of the last. An arm holds at least
/// one pattern by the data-model invariant, so the unification is total on
/// well-formed arms.
pub fn unify_span(arm: &Arm) -> (r: Span)
    requires
        arm_wf(*arm),
    ensures
        r == unified_span(*arm),
{
    let first = arm.patterns[0];
    let last = arm.patterns[arm.patterns.len() - 1];
    Span { start: first.span.start, end: last.span.end }
}

/// For an arm with a single pattern, the unified span equals that pattern's
/// span.
pub proof fn lemma_unified_span_single(a: Arm)
    requires
        a.patterns@.len() == 1,
    ensures
        unified_span(a) == a.patterns@[0].span,
{
}

/// The unified span depends only on an arm's first and last patterns: two
/// arms of the same length that agree on those unify to the same span,
/// whatever patterns stand between them.
pub proof fn lemma_unified_span_ignores_middle(a: Arm, b: Arm)
    requires
        a.patterns@.len() > 0,
        a.patterns@.len() == b.patterns@.len(),
        a.patterns@[0] == b.patterns@[0],
        a.patterns@[a.patterns@.len() - 1] == b.patterns@[b.patterns@.len() - 1],
    ensures
        unified_span(a) == unified_span(b),
{
}

} // verus!
