//! One adjustment of a counter, as a sequence of states.
//!
//! An adjustment needs four answers from the store, in this order: the
//! counterpart's identifier, the pair's relationship, the name of the
//! relationship's status, and the acknowledgement of the write. Each state
//! says what to ask next, and its transition consumes the answer and yields
//! either the next state or the failure that ends the adjustment. Nothing
//! here touches a store: whoever runs the adjustment asks the questions.
//!
//! An answer is a `Result`: `Err` carries the store's own failure text,
//! `Ok(None)` says that no such row exists.

use vstd::prelude::*;
use crate::rules::{
    canonical_delta, canonical_pair, is_active, spec_canonical_delta, spec_canonical_pair,
    spec_is_active, Direction, MateError,
};

verus! {

/// What the store holds for one pair of accounts.
#[derive(Clone, Copy, Debug, PartialEq, Eq, Structural)]
pub struct Relationship {
    /// The shared count.
    pub count: i32,
    /// The identifier of the relationship's status.
    pub status_id: u32,
}

/// The counterpart's name is to be resolved to an identifier.
#[derive(Debug)]
pub struct AwaitingId {
    pub acting: u32,
    pub other_name: String,
    pub direction: Direction,
}

/// The relationship of the pair is to be fetched under [`AwaitingRelationship::key`].
#[derive(Clone, Copy, Debug, PartialEq, Eq, Structural)]
pub struct AwaitingRelationship {
    pub acting: u32,
    pub other: u32,
    pub direction: Direction,
}

/// The name of the status `relationship.status_id` is to be fetched.
#[derive(Clone, Copy, Debug, PartialEq, Eq, Structural)]
pub struct AwaitingStatus {
    pub acting: u32,
    pub other: u32,
    pub direction: Direction,
    pub relationship: Relationship,
}

/// The count `new_count` is to be written to the row of the pair `(low, high)`.
#[derive(Clone, Copy, Debug, PartialEq, Eq, Structural)]
pub struct AwaitingWrite {
    pub low: u32,
    pub high: u32,
    pub new_count: i32,
}

/// Whether the count that an adjustment would store fits the counter's type.
pub open spec fn count_in_range(count: i32, acting: u32, other: u32, direction: Direction) -> bool {
    i32::MIN <= count + spec_canonical_delta(acting, other, direction) <= i32::MAX
}

/// Starts an adjustment asked for by `acting` towards the account named
/// `other_name`.
pub fn begin(acting: u32, other_name: String, direction: Direction) -> (state: AwaitingId)
    ensures
        state.acting == acting,
        state.other_name == other_name,
        state.direction == direction,
{
    AwaitingId { acting, other_name, direction }
}

impl AwaitingId {
    /// Takes the answer to "which account is named `other_name`?".
    ///
    /// An unknown name ends the adjustment with `NotFound`, a failure of the
    /// store with `StorageError`.
    pub fn resolved(self, reply: Result<Option<u32>, String>) -> (next: Result<
        AwaitingRelationship,
        MateError,
    >)
        ensures
            match reply {
                Ok(Some(other)) => next == Ok::<AwaitingRelationship, MateError>(
                    AwaitingRelationship {
                        acting: self.acting,
                        other,
                        direction: self.direction,
                    },
                ),
                Ok(None) => next == Err::<AwaitingRelationship, MateError>(MateError::NotFound),
                Err(text) => next == Err::<AwaitingRelationship, MateError>(
                    MateError::StorageError(text),
                ),
            },
    {
        match reply {
            Ok(Some(other)) => Ok(
                AwaitingRelationship { acting: self.acting, other, direction: self.direction },
            ),
            Ok(None) => Err(MateError::NotFound),
            Err(text) => Err(MateError::StorageError(text)),
        }
    }
}

impl AwaitingRelationship {
    /// The key under which the pair's relationship is stored.
    pub open spec fn spec_key(self) -> (u32, u32) {
        spec_canonical_pair(self.acting, self.other)
    }

    /// The key to fetch the relationship by: the same for both participants.
    pub fn key(&self) -> (key: (u32, u32))
        ensures
            key == self.spec_key(),
    {
        canonical_pair(self.acting, self.other)
    }

    /// Takes the answer to "what is stored for the pair `key()`?".
    ///
    /// A missing row ends the adjustment with `NoRelationship`, a failure of
    /// the store with `StorageError`.
    pub fn found(self, reply: Result<Option<Relationship>, String>) -> (next: Result<
        AwaitingStatus,
        MateError,
    >)
        ensures
            match reply {
                Ok(Some(relationship)) => next == Ok::<AwaitingStatus, MateError>(
                    AwaitingStatus {
                        acting: self.acting,
                        other: self.other,
                        direction: self.direction,
                        relationship,
                    },
                ),
                Ok(None) => next == Err::<AwaitingStatus, MateError>(MateError::NoRelationship),
                Err(text) => next == Err::<AwaitingStatus, MateError>(
                    MateError::StorageError(text),
                ),
            },
    {
        match reply {
            Ok(Some(relationship)) => Ok(
                AwaitingStatus {
                    acting: self.acting,
                    other: self.other,
                    direction: self.direction,
                    relationship,
                },
            ),
            Ok(None) => Err(MateError::NoRelationship),
            Err(text) => Err(MateError::StorageError(text)),
        }
    }
}

impl AwaitingStatus {
    /// The write that follows when the status turns out to be active.
    pub open spec fn spec_write(self) -> AwaitingWrite {
        AwaitingWrite {
            low: spec_canonical_pair(self.acting, self.other).0,
            high: spec_canonical_pair(self.acting, self.other).1,
            new_count: (self.relationship.count + spec_canonical_delta(
                self.acting,
                self.other,
                self.direction,
            )) as i32,
        }
    }

    /// Tells whether the count that this adjustment would store fits the
    /// counter's type, which [`AwaitingStatus::named`] asks for.
    pub fn fits(&self) -> (fits: bool)
        ensures
            fits == count_in_range(
                self.relationship.count,
                self.acting,
                self.other,
                self.direction,
            ),
    {
        let delta = canonical_delta(self.acting, self.other, self.direction);
        if delta > 0 {
            self.relationship.count < i32::MAX
        } else {
            self.relationship.count > i32::MIN
        }
    }

    /// Takes the answer to "what is status `relationship.status_id` called?".
    ///
    /// Here the count is allowed to move or not: only the name `FRIENDS` allows it. A
    /// status without a name ends the adjustment with `CorruptState`, any
    /// other name with `RelationshipNotActive`, a failure of the store with
    /// `StorageError`. The new count must fit the counter's type.
    pub fn named(self, reply: Result<Option<String>, String>) -> (next: Result<
        AwaitingWrite,
        MateError,
    >)
        requires
            reply matches Ok(Some(name)) && spec_is_active(name@) ==> count_in_range(
                self.relationship.count,
                self.acting,
                self.other,
                self.direction,
            ),
        ensures
            match reply {
                Ok(Some(name)) => if spec_is_active(name@) {
                    next == Ok::<AwaitingWrite, MateError>(self.spec_write())
                } else {
                    next == Err::<AwaitingWrite, MateError>(MateError::RelationshipNotActive)
                },
                Ok(None) => next == Err::<AwaitingWrite, MateError>(MateError::CorruptState),
                Err(text) => next == Err::<AwaitingWrite, MateError>(
                    MateError::StorageError(text),
                ),
            },
    {
        match reply {
            Ok(Some(name)) => {
                if is_active(&name) {
                    let (low, high) = canonical_pair(self.acting, self.other);
                    let delta = canonical_delta(self.acting, self.other, self.direction);
                    Ok(AwaitingWrite { low, high, new_count: self.relationship.count + delta })
                } else {
                    Err(MateError::RelationshipNotActive)
                }
            },
            Ok(None) => Err(MateError::CorruptState),
            Err(text) => Err(MateError::StorageError(text)),
        }
    }
}

impl AwaitingWrite {
    /// Takes the acknowledgement of the write and ends the adjustment: with
    /// the new count if the store wrote it, with `StorageError` if not.
    pub fn written(self, reply: Result<(), String>) -> (outcome: Result<i32, MateError>)
        ensures
            match reply {
                Ok(_) => outcome == Ok::<i32, MateError>(self.new_count),
                Err(text) => outcome == Err::<i32, MateError>(MateError::StorageError(text)),
            },
    {
        match reply {
            Ok(_) => Ok(self.new_count),
            Err(text) => Err(MateError::StorageError(text)),
        }
    }
}

} // verus!
