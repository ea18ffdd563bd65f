//! The store behind the counters, and the adjustment run against it.
//!
//! [`Tables`] is the mathematical content of a store. [`MateDatabase`] is a
//! store that answers the four questions of an adjustment; on top of those
//! answers it provides the adjustment itself, whose contract is stated over
//! the tables alone.

use vstd::prelude::*;
use crate::protocol::{begin, Relationship};
use crate::rules::{
    is_active, spec_canonical_delta, spec_canonical_pair, spec_is_active, Direction, MateError,
};

verus! {

/// What a store holds: the accounts by name, the relationships by canonical
/// pair, and the names of the statuses.
pub struct Tables {
    pub accounts: Map<Seq<char>, u32>,
    pub relationships: Map<(u32, u32), Relationship>,
    pub statuses: Map<u32, Seq<char>>,
}

impl Tables {
    /// The identifier of the account called `name`, if there is one.
    pub open spec fn account(self, name: Seq<char>) -> Option<u32> {
        if self.accounts.contains_key(name) {
            Some(self.accounts[name])
        } else {
            None
        }
    }

    /// The row stored under exactly `key`, if there is one.
    pub open spec fn relationship(self, key: (u32, u32)) -> Option<Relationship> {
        if self.relationships.contains_key(key) {
            Some(self.relationships[key])
        } else {
            None
        }
    }

    /// The name of the status `status_id`, if it has one.
    pub open spec fn status_name(self, status_id: u32) -> Option<Seq<char>> {
        if self.statuses.contains_key(status_id) {
            Some(self.statuses[status_id])
        } else {
            None
        }
    }

    /// The tables after the count of the pair `{a, b}` has been set: the row
    /// under the pair's canonical key holds `count` and keeps its status, and
    /// nothing else differs. Without such a row nothing changes. The order
    /// of `a` and `b` is irrelevant.
    pub open spec fn with_count(self, a: u32, b: u32, count: i32) -> Tables {
        let key = spec_canonical_pair(a, b);
        if self.relationships.contains_key(key) {
            Tables {
                relationships: self.relationships.insert(
                    key,
                    Relationship { count, status_id: self.relationships[key].status_id },
                ),
                ..self
            }
        } else {
            self
        }
    }

    /// What an adjustment yields when the store answers every question: the
    /// new count, or the first reason that forbids the adjustment.
    pub open spec fn outcome(self, acting: u32, other_name: Seq<char>, direction: Direction)
        -> Result<int, MateError> {
        match self.account(other_name) {
            None => Err(MateError::NotFound),
            Some(other) => match self.relationship(spec_canonical_pair(acting, other)) {
                None => Err(MateError::NoRelationship),
                Some(relationship) => match self.status_name(relationship.status_id) {
                    None => Err(MateError::CorruptState),
                    Some(name) => if spec_is_active(name) {
                        Ok(relationship.count + spec_canonical_delta(acting, other, direction))
                    } else {
                        Err(MateError::RelationshipNotActive)
                    },
                },
            },
        }
    }

    /// The tables after an adjustment: the pair's row holds the new count if
    /// the adjustment is allowed, and nothing changes if it is not.
    pub open spec fn adjusted(self, acting: u32, other_name: Seq<char>, direction: Direction)
        -> Tables {
        match self.outcome(acting, other_name, direction) {
            Ok(count) => self.with_count(acting, self.accounts[other_name], count as i32),
            Err(_) => self,
        }
    }

    /// Whether every relationship is filed under a canonical key, so that an
    /// unordered pair of accounts has at most one row.
    pub open spec fn one_row_per_pair(self) -> bool {
        forall|key: (u32, u32)| #[trigger] self.relationships.contains_key(key) ==> key.0 <= key.1
    }

    /// Whether `outcome` and the tables `after` are what an adjustment of
    /// these tables may end with. It ends as [`Tables::outcome`] and
    /// [`Tables::adjusted`] say, or, where the store failed on the way, with
    /// `StorageError` and the tables as they were.
    pub open spec fn ends_with(
        self,
        after: Tables,
        acting: u32,
        other_name: Seq<char>,
        direction: Direction,
        outcome: Result<i32, MateError>,
    ) -> bool {
        match outcome {
            Ok(count) => {
                &&& self.outcome(acting, other_name, direction) == Ok::<int, MateError>(
                    count as int,
                )
                &&& after == self.adjusted(acting, other_name, direction)
            },
            Err(MateError::StorageError(_)) => after == self,
            Err(reason) => {
                &&& self.outcome(acting, other_name, direction) == Err::<int, MateError>(reason)
                &&& after == self
            },
        }
    }

    /// Whether the count that the adjustment would store fits the counter's
    /// type. It does whenever the adjustment is not allowed.
    pub open spec fn in_range(self, acting: u32, other_name: Seq<char>, direction: Direction)
        -> bool {
        self.outcome(acting, other_name, direction) matches Ok(count) ==> i32::MIN <= count
            <= i32::MAX
    }
}

/// A store of accounts, relationships and statuses.
///
/// The four required methods answer one question each; `Err` carries the
/// store's own failure text. A failed call changes nothing.
pub trait MateDatabase {
    /// What the store holds.
    spec fn tables(&self) -> Tables;

    /// Whether every call on this store answers, that is, never returns
    /// `Err`. A store in memory does; one behind a connection does not.
    spec fn never_fails(&self) -> bool;

    /// Resolves an account's name to its identifier.
    fn resolve_id(&mut self, name: &str) -> (reply: Result<Option<u32>, String>)
        ensures
            final(self).tables() == old(self).tables(),
            final(self).never_fails() == old(self).never_fails(),
            old(self).never_fails() ==> reply is Ok,
            reply matches Ok(found) ==> found == old(self).tables().account(name@),
    ;

    /// Fetches the row stored under the key `(low, high)`.
    fn get_relationship(&mut self, low: u32, high: u32) -> (reply: Result<
        Option<Relationship>,
        String,
    >)
        ensures
            final(self).tables() == old(self).tables(),
            final(self).never_fails() == old(self).never_fails(),
            old(self).never_fails() ==> reply is Ok,
            reply matches Ok(found) ==> found == old(self).tables().relationship((low, high)),
    ;

    /// Fetches the name of a status.
    fn get_status_name(&mut self, status_id: u32) -> (reply: Result<Option<String>, String>)
        ensures
            final(self).tables() == old(self).tables(),
            final(self).never_fails() == old(self).never_fails(),
            old(self).never_fails() ==> reply is Ok,
            reply matches Ok(found) ==> match found {
                Some(name) => old(self).tables().status_name(status_id) == Some(name@),
                None => old(self).tables().status_name(status_id) is None,
            },
    ;

    /// Sets the count of the pair `{low, high}`, whichever of the two is
    /// passed first.
    fn set_count(&mut self, low: u32, high: u32, count: i32) -> (reply: Result<(), String>)
        ensures
            final(self).never_fails() == old(self).never_fails(),
            old(self).never_fails() ==> reply is Ok,
            reply is Ok ==> final(self).tables() == old(self).tables().with_count(
                low,
                high,
                count,
            ),
            reply is Err ==> final(self).tables() == old(self).tables(),
    ;

    /// Adjusts the counter that `acting` shares with the account named
    /// `other_name`, unless the new count would not fit the counter's type.
    ///
    /// `None` says that it would not, and nothing was written. Otherwise the
    /// adjustment ends as [`Tables::ends_with`] says: with the result that
    /// [`Tables::outcome`] gives for the tables before the call, or, where
    /// the store fails on the way, with `StorageError`. The tables change
    /// only on success, and then only in the count of the pair's row.
    fn try_adjust_counter(&mut self, acting: u32, other_name: String, direction: Direction) -> (outcome:
        Option<Result<i32, MateError>>)
        ensures
            final(self).never_fails() == old(self).never_fails(),
            match outcome {
                Some(result) => old(self).tables().ends_with(
                    final(self).tables(),
                    acting,
                    other_name@,
                    direction,
                    result,
                ),
                None => {
                    &&& !old(self).tables().in_range(acting, other_name@, direction)
                    &&& final(self).tables() == old(self).tables()
                },
            },
            old(self).never_fails() ==> (outcome is None <==> !old(self).tables().in_range(
                acting,
                other_name@,
                direction,
            )),
            old(self).never_fails() ==> !(outcome matches Some(Err(MateError::StorageError(_)))),
    {
        let state = begin(acting, other_name, direction);
        let reply = self.resolve_id(state.other_name.as_str());
        let state = match state.resolved(reply) {
            Ok(next) => next,
            Err(reason) => {
                return Some(Err(reason));
            },
        };
        let (low, high) = state.key();
        let reply = self.get_relationship(low, high);
        let state = match state.found(reply) {
            Ok(next) => next,
            Err(reason) => {
                return Some(Err(reason));
            },
        };
        let reply = self.get_status_name(state.relationship.status_id);
        let active = match &reply {
            Ok(Some(name)) => is_active(name),
            _ => false,
        };
        if active && !state.fits() {
            return None;
        }
        let state = match state.named(reply) {
            Ok(next) => next,
            Err(reason) => {
                return Some(Err(reason));
            },
        };
        let reply = self.set_count(state.low, state.high, state.new_count);
        Some(state.written(reply))
    }

    /// Adjusts the counter that `acting` shares with the account named
    /// `other_name`, and returns the new count, which must fit the counter's
    /// type.
    ///
    /// The result is the one that [`Tables::outcome`] gives for the tables
    /// before the call, unless the store fails on the way, which yields
    /// `StorageError`. The tables change only on success, and then only in
    /// the count of the pair's row.
    fn adjust_counter(&mut self, acting: u32, other_name: String, direction: Direction) -> (outcome:
        Result<i32, MateError>)
        requires
            old(self).tables().in_range(acting, other_name@, direction),
        ensures
            final(self).never_fails() == old(self).never_fails(),
            old(self).never_fails() ==> !(outcome matches Err(MateError::StorageError(_))),
            old(self).tables().ends_with(
                final(self).tables(),
                acting,
                other_name@,
                direction,
                outcome,
            ),
    {
        match self.try_adjust_counter(acting, other_name, direction) {
            Some(outcome) => outcome,
            None => unreached(),
        }
    }

    /// Increases the counter from the side of `to_increase`: one up if that
    /// account is the low party of the pair, one down if it is the high party.
    fn increase_counter(&mut self, to_increase: u32, to_decrease: String) -> (outcome: Result<
        i32,
        MateError,
    >)
        requires
            old(self).tables().in_range(to_increase, to_decrease@, Direction::Increase),
        ensures
            final(self).never_fails() == old(self).never_fails(),
            old(self).never_fails() ==> !(outcome matches Err(MateError::StorageError(_))),
            old(self).tables().ends_with(
                final(self).tables(),
                to_increase,
                to_decrease@,
                Direction::Increase,
                outcome,
            ),
    {
        self.adjust_counter(to_increase, to_decrease, Direction::Increase)
    }

    /// Decreases the counter from the side of `to_decrease`: the exact mirror
    /// of [`MateDatabase::increase_counter`].
    fn decrease_counter(&mut self, to_decrease: u32, to_increase: String) -> (outcome: Result<
        i32,
        MateError,
    >)
        requires
            old(self).tables().in_range(to_decrease, to_increase@, Direction::Decrease),
        ensures
            final(self).never_fails() == old(self).never_fails(),
            old(self).never_fails() ==> !(outcome matches Err(MateError::StorageError(_))),
            old(self).tables().ends_with(
                final(self).tables(),
                to_decrease,
                to_increase@,
                Direction::Decrease,
                outcome,
            ),
    {
        self.adjust_counter(to_decrease, to_increase, Direction::Decrease)
    }
}

} // verus!
