//! What holds of every adjustment, stated over [`Tables`].
//!
//! An adjustment through [`crate::db::MateDatabase::adjust_counter`] returns
//! `Tables::outcome` and leaves `Tables::adjusted` behind, so each statement
//! here is a statement about every store.

use vstd::prelude::*;
use crate::db::Tables;
use crate::protocol::Relationship;
use crate::rules::{spec_canonical_delta, spec_canonical_pair, spec_is_active, Direction, MateError};

verus! {

/// The tables after the same adjustment has been made `times` times in a row.
pub open spec fn adjusted_repeatedly(
    tables: Tables,
    acting: u32,
    other_name: Seq<char>,
    direction: Direction,
    times: nat,
) -> Tables
    decreases times,
{
    if times == 0 {
        tables
    } else {
        adjusted_repeatedly(
            tables,
            acting,
            other_name,
            direction,
            (times - 1) as nat,
        ).adjusted(acting, other_name, direction)
    }
}

/// Between friends an increase asked for by the low party of the pair
/// stores one more, an increase asked for by the high party stores one
/// less, and a decrease does the opposite of an increase. The new count is
/// what the adjustment returns and what the pair's row holds afterwards.
pub proof fn lemma_active_adjustment_moves_by_one(
    tables: Tables,
    acting: u32,
    other: u32,
    other_name: Seq<char>,
    direction: Direction,
    relationship: Relationship,
)
    requires
        tables.account(other_name) == Some(other),
        tables.relationship(spec_canonical_pair(acting, other)) == Some(relationship),
        tables.status_name(relationship.status_id) matches Some(name) && spec_is_active(name),
        tables.in_range(acting, other_name, direction),
    ensures
        tables.outcome(acting, other_name, Direction::Increase) == Ok::<int, MateError>(
            if acting < other {
                relationship.count + 1
            } else {
                relationship.count - 1
            },
        ),
        tables.outcome(acting, other_name, Direction::Decrease) == Ok::<int, MateError>(
            if acting < other {
                relationship.count - 1
            } else {
                relationship.count + 1
            },
        ),
        tables.outcome(acting, other_name, direction) matches Ok(count) && tables.adjusted(
            acting,
            other_name,
            direction,
        ).relationship(spec_canonical_pair(acting, other)) == Some(
            Relationship { count: count as i32, status_id: relationship.status_id },
        ),
{
}

/// Both participants of a pair read and write the same row, whichever of
/// them acts: the key is the same from either side, an adjustment leaves
/// every other row, every account and every status as it was, and setting
/// the count does not depend on the order of the two identifiers.
pub proof fn lemma_both_sides_share_one_row(
    tables: Tables,
    a: u32,
    b: u32,
    name_of_a: Seq<char>,
    name_of_b: Seq<char>,
    direction: Direction,
    count: i32,
)
    requires
        tables.account(name_of_a) == Some(a),
        tables.account(name_of_b) == Some(b),
    ensures
        spec_canonical_pair(a, b) == spec_canonical_pair(b, a),
        tables.with_count(a, b, count) == tables.with_count(b, a, count),
        tables.adjusted(a, name_of_b, direction).accounts == tables.accounts,
        tables.adjusted(a, name_of_b, direction).statuses == tables.statuses,
        tables.adjusted(a, name_of_b, direction).relationships.dom()
            == tables.relationships.dom(),
        forall|key: (u32, u32)|
            key != spec_canonical_pair(a, b) ==> #[trigger] tables.adjusted(
                a,
                name_of_b,
                direction,
            ).relationship(key) == tables.relationship(key),
        forall|key: (u32, u32)|
            key != spec_canonical_pair(a, b) ==> #[trigger] tables.adjusted(
                b,
                name_of_a,
                direction,
            ).relationship(key) == tables.relationship(key),
{
    let after = tables.adjusted(a, name_of_b, direction);
    assert(after.relationships.dom() =~= tables.relationships.dom());
}

/// The two participants of a pair never move the count the same way with
/// the same request: what one of them adds the other takes away, so an
/// increase from one side is a decrease from the other.
pub proof fn lemma_mirrored_requests_cancel(
    tables: Tables,
    a: u32,
    b: u32,
    name_of_a: Seq<char>,
    name_of_b: Seq<char>,
)
    requires
        a != b,
        tables.account(name_of_a) == Some(a),
        tables.account(name_of_b) == Some(b),
    ensures
        tables.outcome(a, name_of_b, Direction::Increase) == tables.outcome(
            b,
            name_of_a,
            Direction::Decrease,
        ),
        tables.outcome(a, name_of_b, Direction::Decrease) == tables.outcome(
            b,
            name_of_a,
            Direction::Increase,
        ),
{
}

/// A relationship whose status is not `FRIENDS` refuses every adjustment
/// with `RelationshipNotActive`, and the tables stay as they were: a read
/// of the pair's row afterwards finds the count unchanged.
pub proof fn lemma_inactive_relationship_is_refused(
    tables: Tables,
    acting: u32,
    other: u32,
    other_name: Seq<char>,
    direction: Direction,
    relationship: Relationship,
)
    requires
        tables.account(other_name) == Some(other),
        tables.relationship(spec_canonical_pair(acting, other)) == Some(relationship),
        tables.status_name(relationship.status_id) matches Some(name) && !spec_is_active(name),
    ensures
        tables.outcome(acting, other_name, direction) == Err::<int, MateError>(
            MateError::RelationshipNotActive,
        ),
        tables.adjusted(acting, other_name, direction) == tables,
        tables.adjusted(acting, other_name, direction).relationship(
            spec_canonical_pair(acting, other),
        ) == Some(relationship),
{
}

/// A counterpart whose name belongs to no account ends the adjustment with
/// `NotFound`, and the tables stay as they were.
pub proof fn lemma_unknown_counterpart_is_not_found(
    tables: Tables,
    acting: u32,
    other_name: Seq<char>,
    direction: Direction,
)
    requires
        !tables.accounts.contains_key(other_name),
    ensures
        tables.outcome(acting, other_name, direction) == Err::<int, MateError>(
            MateError::NotFound,
        ),
        tables.adjusted(acting, other_name, direction) == tables,
{
}

/// An adjustment that is not allowed, for whatever reason, changes nothing.
pub proof fn lemma_refused_adjustment_changes_nothing(
    tables: Tables,
    acting: u32,
    other_name: Seq<char>,
    direction: Direction,
)
    requires
        tables.outcome(acting, other_name, direction) is Err,
    ensures
        tables.adjusted(acting, other_name, direction) == tables,
{
}

/// An adjustment keeps one row per unordered pair.
pub proof fn lemma_adjustment_keeps_one_row_per_pair(
    tables: Tables,
    acting: u32,
    other_name: Seq<char>,
    direction: Direction,
)
    requires
        tables.one_row_per_pair(),
    ensures
        tables.adjusted(acting, other_name, direction).one_row_per_pair(),
{
}

/// Adjustments made one after another all count: between friends, `times`
/// equal adjustments in a row move the stored count by `times` times the
/// change of one, as long as the counts on the way fit the counter's type.
pub proof fn lemma_repeated_adjustments_add_up(
    tables: Tables,
    acting: u32,
    other: u32,
    other_name: Seq<char>,
    direction: Direction,
    relationship: Relationship,
    times: nat,
)
    requires
        tables.account(other_name) == Some(other),
        tables.relationship(spec_canonical_pair(acting, other)) == Some(relationship),
        tables.status_name(relationship.status_id) matches Some(name) && spec_is_active(name),
        i32::MIN <= relationship.count - times,
        relationship.count + times <= i32::MAX,
    ensures
        adjusted_repeatedly(tables, acting, other_name, direction, times).relationship(
            spec_canonical_pair(acting, other),
        ) == Some(
            Relationship {
                count: (relationship.count + times * spec_canonical_delta(
                    acting,
                    other,
                    direction,
                )) as i32,
                status_id: relationship.status_id,
            },
        ),
        adjusted_repeatedly(tables, acting, other_name, direction, times).accounts
            == tables.accounts,
        adjusted_repeatedly(tables, acting, other_name, direction, times).statuses
            == tables.statuses,
    decreases times,
{
    if times > 0 {
        let before = (times - 1) as nat;
        lemma_repeated_adjustments_add_up(
            tables,
            acting,
            other,
            other_name,
            direction,
            relationship,
            before,
        );
        let delta = spec_canonical_delta(acting, other, direction);
        assert(times * delta == before * delta + delta) by (nonlinear_arith)
            requires
                times == before + 1,
        ;
        assert(-before <= before * delta <= before) by (nonlinear_arith)
            requires
                delta == 1 || delta == -1,
        ;
    }
}

} // verus!
