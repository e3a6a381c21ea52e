//! The matcher: does a qualified identifier denote the banned symbol?
//!
//! This predicate is the single source of truth for "is this symbol
//! `flecs::With`": every other component routes through it rather than
//! re-implementing the comparison.

use vstd::prelude::*;

use crate::ast::QualifiedIdentifier;

verus! {

/// A sequence of name segments denotes the banned symbol exactly when it has
/// at least two segments and the first two are `flecs` and `With`, compared
/// by exact, case-sensitive string equality. Trailing segments are ignored,
/// so `flecs::With::Extra` also matches. No normalization, no wildcards.
pub open spec fn banned_identifier(segs: Seq<Seq<char>>) -> bool {
    segs.len() >= 2 && segs[0] == "flecs"@ && segs[1] == "With"@
}

/// Decides whether `id` denotes the banned symbol. Pure, total, and without
/// failure modes: an empty or one-segment identifier simply does not match.
pub fn is_banned(id: &QualifiedIdentifier) -> (b: bool)
    ensures
        b == banned_identifier(id@),
{
    if id.segments.len() < 2 {
        return false;
    }
    let namespace: String = "flecs".to_owned();
    let member: String = "With".to_owned();
    let b = id.segments[0] == namespace && id.segments[1] == member;
    proof {
        assert(id@[0] == id.segments@[0]@);
        assert(id@[1] == id.segments@[1]@);
    }
    b
}

/// An identifier with fewer than two segments, or whose first two segments
/// are not exactly `flecs` and `With`, never matches.
pub proof fn lemma_non_banned_never_matches(segs: Seq<Seq<char>>)
    requires
        segs.len() < 2 || segs[0] != "flecs"@ || segs[1] != "With"@,
    ensures
        !banned_identifier(segs),
{
}

} // verus!
