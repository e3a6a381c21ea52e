//! The site scanner: for one expression node, which findings does the rule
//! emit?
//!
//! The host walks the whole tree and calls [`scan_node`] once per node it
//! visits. [`scan_tree`] additionally models that walk over a subtree, for a
//! host that wants the rule to drive the descent through callees itself.
//!
//! Policy, stated once: only the explicit generic arguments directly on a
//! call are scanned, one level deep. A banned symbol nested inside another
//! generic construction within a type argument is not flagged, and call
//! value arguments are never descended into here — the host's own traversal
//! visits those as nodes of their own.

use vstd::prelude::*;

use crate::ast::{ExpressionNode, Finding, Message, Span, TypeArgument};
use crate::matcher::banned_identifier;
use crate::matcher::is_banned;

verus! {

/// A type argument references the banned symbol exactly when it is a named
/// type whose identifier matches.
pub open spec fn type_arg_is_banned(arg: TypeArgument) -> bool {
    match arg {
        TypeArgument::TypeReference(id) => banned_identifier(id@),
        TypeArgument::Inert => false,
    }
}

/// Some explicit type argument in the list references the banned symbol.
pub open spec fn some_type_arg_banned(args: Seq<TypeArgument>) -> bool {
    exists|i: int| 0 <= i < args.len() && type_arg_is_banned(args[i])
}

/// The findings the rule emits for one node, by its shape:
/// - a direct reference to the banned symbol: one direct-usage finding at
///   the node's own span;
/// - a call with a banned symbol among its explicit type arguments: one
///   generic-argument finding at the call's span, however many arguments
///   match;
/// - anything else: none. The callee of a call is not inspected here: the
///   host visits the callee as a node of its own, and the direct-usage case
///   reports it there, exactly once.
pub open spec fn node_findings(node: ExpressionNode) -> Seq<Finding> {
    match node {
        ExpressionNode::PathReference { span, id } => {
            if banned_identifier(id@) {
                seq![Finding { location: span, message: Message::DirectUsage }]
            } else {
                Seq::empty()
            }
        },
        ExpressionNode::Invocation { span, callee, type_args } => {
            if some_type_arg_banned(type_args@) {
                seq![Finding { location: span, message: Message::GenericArgument }]
            } else {
                Seq::empty()
            }
        },
        ExpressionNode::Inert { span } => Seq::empty(),
    }
}

/// The findings of a pre-order walk of the subtree rooted at `node`: the
/// node's own findings, then those of its callee chain. This is what a host
/// traversal that visits every node collects from this subtree.
pub open spec fn tree_findings(node: ExpressionNode) -> Seq<Finding>
    decreases node,
{
    match node {
        ExpressionNode::Invocation { span, callee, type_args } => {
            node_findings(node) + tree_findings(*callee)
        },
        _ => node_findings(node),
    }
}

/// Scans one node, without descending into sub-nodes; the host's own
/// traversal is expected to visit those separately. Emits at most one
/// finding per recognized position, and short-circuits on the first banned
/// type argument: the point is to flag the call site, not to enumerate
/// every matching argument.
pub fn scan_node(node: &ExpressionNode) -> (findings: Vec<Finding>)
    ensures
        findings@ == node_findings(*node),
{
    let mut findings: Vec<Finding> = Vec::new();
    match node {
        ExpressionNode::PathReference { span, id } => {
            if is_banned(id) {
                findings.push(Finding { location: *span, message: Message::DirectUsage });
            }
        },
        ExpressionNode::Invocation { span, callee: _, type_args } => {
            let n = type_args.len();
            let mut i: usize = 0;
            let mut found = false;
            while i < n && !found
                invariant
                    n == type_args@.len(),
                    0 <= i <= n,
                    found ==> some_type_arg_banned(type_args@),
                    !found ==> forall|j: int| 0 <= j < i ==> !type_arg_is_banned(type_args@[j]),
                decreases n - i,
            {
                let hit = match &type_args[i] {
                    TypeArgument::TypeReference(id) => is_banned(id),
                    TypeArgument::Inert => false,
                };
                if hit {
                    found = true;
                    assert(type_arg_is_banned(type_args@[i as int]));
                }
                i += 1;
            }
            if found {
                findings.push(Finding { location: *span, message: Message::GenericArgument });
            } else {
                assert(!some_type_arg_banned(type_args@));
            }
        },
        ExpressionNode::Inert { span: _ } => {},
    }
    assert(findings@ =~= node_findings(*node));
    findings
}

/// Scans the whole subtree rooted at `node` in pre-order, descending through
/// callees, as a host traversal that visits every node would. A call of the
/// banned symbol itself is reported exactly once: by the direct-usage case
/// on the callee node, not by the invocation's type-argument case.
pub fn scan_tree(node: &ExpressionNode) -> (findings: Vec<Finding>)
    ensures
        findings@ == tree_findings(*node),
    decreases *node,
{
    let mut findings = scan_node(node);
    match node {
        ExpressionNode::Invocation { span: _, callee, type_args: _ } => {
            let mut rest = scan_tree(callee);
            findings.append(&mut rest);
            assert(findings@ =~= tree_findings(*node));
        },
        _ => {
            assert(findings@ =~= tree_findings(*node));
        },
    }
    findings
}

/// Each node yields at most one finding on its own: one per recognized
/// position, and the two positions are mutually exclusive by shape.
pub proof fn lemma_at_most_one_finding_per_node(node: ExpressionNode)
    ensures
        node_findings(node).len() <= 1,
{
}

/// Calling the banned symbol directly as a function is reported exactly
/// once, not zero times and not twice: a walk of an invocation whose callee
/// is a bare reference to the banned symbol, and whose explicit type
/// arguments are all clean, yields exactly one finding — a direct usage at
/// the callee's own span, contributed by the callee node, not by the
/// invocation's type-argument case.
pub proof fn lemma_banned_callee_reported_once(node: ExpressionNode)
    requires
        node is Invocation,
        *node->Invocation_callee is PathReference,
        banned_identifier((*node->Invocation_callee)->PathReference_id@),
        !some_type_arg_banned(node->Invocation_type_args@),
    ensures
        tree_findings(node) =~= seq![
            (Finding {
                location: (*node->Invocation_callee)->PathReference_span,
                message: Message::DirectUsage,
            }),
        ],
{
    let callee = *node->Invocation_callee;
    assert(node_findings(node) =~= Seq::<Finding>::empty());
    assert(tree_findings(node) == node_findings(node) + tree_findings(callee));
    assert(tree_findings(callee) =~= seq![
        (Finding {
            location: callee->PathReference_span,
            message: Message::DirectUsage,
        }),
    ]);
}

/// Scanning is idempotent: the findings are a function of the node alone, so
/// any two results the scanner's contract permits for the same node — in
/// particular those of two successive calls, which share no state — are
/// identical.
pub proof fn lemma_scan_idempotent(
    node: ExpressionNode,
    first: Seq<Finding>,
    second: Seq<Finding>,
)
    requires
        first == node_findings(node),
        second == node_findings(node),
    ensures
        first == second,
{
}

} // verus!
