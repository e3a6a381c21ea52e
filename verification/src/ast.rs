//! The tree shapes this rule inspects, and the findings it reports.
//!
//! The host owns the real syntax tree; each node below carries exactly the
//! plain data the rule reads from one of the host's nodes.

use vstd::prelude::*;

verus! {

/// A source position owned by the host tree. The rule never interprets it:
/// it only copies the span of an offending node into a finding.
#[derive(Clone, Copy, PartialEq, Eq, Structural, Debug)]
pub struct Span {
    pub lo: u32,
    pub hi: u32,
}

/// A qualified identifier: an ordered sequence of name segments, such as
/// `flecs::With` or `my_module::With`. Each segment is an opaque token;
/// no substring matching is ever done on segment text.
#[derive(Debug)]
pub struct QualifiedIdentifier {
    pub segments: Vec<String>,
}

impl View for QualifiedIdentifier {
    type V = Seq<Seq<char>>;

    open spec fn view(&self) -> Seq<Seq<char>> {
        self.segments@.map_values(|s: String| s@)
    }
}

/// One explicit generic argument supplied on an invocation.
#[derive(Debug)]
pub enum TypeArgument {
    /// A named type used as a generic argument.
    TypeReference(QualifiedIdentifier),
    /// Any other argument (a lifetime, a constant, an inferred type):
    /// inert for this rule.
    Inert,
}

/// An expression node, as handed over by the host's own traversal: one node
/// per call, in whatever order the host visits them.
#[derive(Debug)]
pub enum ExpressionNode {
    /// A bare reference to a named entity.
    PathReference { span: Span, id: QualifiedIdentifier },
    /// A call expression. The callee may itself be a `PathReference`, and the
    /// call may carry explicit generic type arguments.
    Invocation { span: Span, callee: Box<ExpressionNode>, type_args: Vec<TypeArgument> },
    /// Any other shape (a literal, an operator, an unresolved path, ...):
    /// inert for this rule, never an error.
    Inert { span: Span },
}

/// Which syntactic position the banned symbol was found in. Each position
/// has its own diagnostic text; severity is the host's business.
#[derive(Clone, Copy, PartialEq, Eq, Structural, Debug)]
pub enum Message {
    /// The banned symbol was referenced directly.
    DirectUsage,
    /// The banned symbol appeared as an explicit generic argument on a call.
    GenericArgument,
}

/// The diagnostic line for a direct reference to the banned symbol.
pub open spec fn direct_usage_text() -> Seq<char> {
    "direct usage of the banned symbol is discouraged"@
}

/// The diagnostic line for the banned symbol in a generic argument.
pub open spec fn generic_argument_text() -> Seq<char> {
    "usage of the banned symbol in a generic argument is discouraged"@
}

impl Message {
    /// The human-readable diagnostic line for this position.
    pub fn text(&self) -> (r: String)
        ensures
            *self == Message::DirectUsage ==> r@ == direct_usage_text(),
            *self == Message::GenericArgument ==> r@ == generic_argument_text(),
    {
        match self {
            Message::DirectUsage => "direct usage of the banned symbol is discouraged".to_owned(),
            Message::GenericArgument => {
                "usage of the banned symbol in a generic argument is discouraged".to_owned()
            },
        }
    }
}

/// One reported occurrence of the banned symbol: where it stood, and which
/// position it stood in. Findings are produced, never stored by this crate.
#[derive(Clone, Copy, PartialEq, Eq, Structural, Debug)]
pub struct Finding {
    pub location: Span,
    pub message: Message,
}

} // verus!
