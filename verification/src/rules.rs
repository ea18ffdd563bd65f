//! The rules of the counter: how a pair of accounts is keyed, which way an
//! adjustment moves the shared count, and when the count may move at all.

use vstd::prelude::*;
use vstd::string::StringExecFns;

verus! {

/// The two adjustments a participant can ask for.
#[derive(Clone, Copy, Debug, PartialEq, Eq, Structural)]
pub enum Direction {
    Increase,
    Decrease,
}

/// Why an operation did not succeed.
#[derive(Debug, PartialEq, Eq)]
pub enum MateError {
    /// The counterpart's name belongs to no account.
    NotFound,
    /// The two accounts have no relationship row.
    NoRelationship,
    /// The relationship refers to a status that has no name.
    CorruptState,
    /// The relationship exists but is not in the `FRIENDS` state.
    RelationshipNotActive,
    /// The store or the filesystem failed; the text is the collaborator's own.
    StorageError(String),
}

/// The canonical key of the unordered pair `{a, b}`: smaller identifier first.
pub open spec fn spec_canonical_pair(a: u32, b: u32) -> (u32, u32) {
    if a <= b {
        (a, b)
    } else {
        (b, a)
    }
}

/// The change that `acting` asks for, seen from the canonical ordering of the
/// pair: an increase by the low party adds one, an increase by the high party
/// takes one away, and a decrease is the negation of the increase.
pub open spec fn spec_canonical_delta(acting: u32, other: u32, direction: Direction) -> int {
    let increase: int = if acting < other {
        1
    } else {
        -1
    };
    match direction {
        Direction::Increase => increase,
        Direction::Decrease => -increase,
    }
}

/// Whether a status name is the one under which counters may move.
pub open spec fn spec_is_active(status: Seq<char>) -> bool {
    status == "FRIENDS"@
}

/// Orders two account identifiers into the key under which their
/// relationship is stored.
pub fn canonical_pair(a: u32, b: u32) -> (key: (u32, u32))
    ensures
        key == spec_canonical_pair(a, b),
{
    if a <= b {
        (a, b)
    } else {
        (b, a)
    }
}

/// Computes the signed change to the stored count for an adjustment asked
/// for by `acting` towards `other`.
pub fn canonical_delta(acting: u32, other: u32, direction: Direction) -> (delta: i32)
    ensures
        delta == spec_canonical_delta(acting, other, direction),
{
    let increase: i32 = if acting < other {
        1
    } else {
        -1
    };
    match direction {
        Direction::Increase => increase,
        Direction::Decrease => -increase,
    }
}

/// Tells whether a relationship with this status name is active.
pub fn is_active(status: &String) -> (active: bool)
    ensures
        active == spec_is_active(status@),
{
    let friends = String::from_str("FRIENDS");
    *status == friends
}

/// Both participants key their relationship identically.
pub proof fn lemma_canonical_pair_symmetric(a: u32, b: u32)
    ensures
        spec_canonical_pair(a, b) == spec_canonical_pair(b, a),
        spec_canonical_pair(a, b).0 <= spec_canonical_pair(a, b).1,
        spec_canonical_pair(a, b) == (a, b) || spec_canonical_pair(a, b) == (b, a),
{
}

/// A decrease is the exact mirror of an increase, and the two participants of
/// a pair never move the count the same way with the same request.
pub proof fn lemma_delta_mirrors(acting: u32, other: u32, direction: Direction)
    ensures
        spec_canonical_delta(acting, other, direction) == 1 || spec_canonical_delta(
            acting,
            other,
            direction,
        ) == -1,
        spec_canonical_delta(acting, other, Direction::Decrease) == -spec_canonical_delta(
            acting,
            other,
            Direction::Increase,
        ),
        acting != other ==> spec_canonical_delta(other, acting, direction)
            == -spec_canonical_delta(acting, other, direction),
{
}

} // verus!
