//! A store kept in memory.
//!
//! It holds the three tables of [`Tables`] in hash maps and never fails, so
//! an adjustment against it yields exactly what [`Tables::outcome`] says.
//! Relationships are filed under the canonical key of their pair, which
//! keeps one row per unordered pair.

use std::collections::HashMap;
use vstd::hash_map::StringHashMap;
use vstd::prelude::*;
use crate::db::{MateDatabase, Tables};
use crate::protocol::Relationship;
use crate::rules::{canonical_pair, spec_canonical_pair};

verus! {

broadcast use vstd::std_specs::hash::group_hash_axioms;

/// The two identifiers of a key as one number: the first in the upper half.
spec fn packed(key: (u32, u32)) -> u64 {
    (key.0 as u64 * 0x1_0000_0000 + key.1 as u64) as u64
}

fn pack(low: u32, high: u32) -> (number: u64)
    ensures
        number == packed((low, high)),
{
    (low as u64) * 0x1_0000_0000 + (high as u64)
}

proof fn lemma_packed_injective(first: (u32, u32), second: (u32, u32))
    ensures
        packed(first) == packed(second) <==> first == second,
{
}

/// Accounts, relationships and statuses in memory.
pub struct MemoryDatabase {
    accounts: StringHashMap<u32>,
    rows: HashMap<u64, Relationship>,
    statuses: HashMap<u32, String>,
}

impl MemoryDatabase {
    /// The relationships, by the pair's key.
    spec fn relationships(&self) -> Map<(u32, u32), Relationship> {
        Map::new(
            |key: (u32, u32)| self.rows@.contains_key(packed(key)),
            |key: (u32, u32)| self.rows@[packed(key)],
        )
    }

    /// The names of the statuses, by identifier.
    spec fn status_names(&self) -> Map<u32, Seq<char>> {
        Map::new(
            |status_id: u32| self.statuses@.contains_key(status_id),
            |status_id: u32| self.statuses@[status_id]@,
        )
    }

    /// An empty store.
    pub fn new() -> (db: Self)
        ensures
            db.tables().accounts == Map::<Seq<char>, u32>::empty(),
            db.tables().relationships == Map::<(u32, u32), Relationship>::empty(),
            db.tables().statuses == Map::<u32, Seq<char>>::empty(),
            db.tables().one_row_per_pair(),
            db.never_fails(),
    {
        let db = MemoryDatabase {
            accounts: StringHashMap::new(),
            rows: HashMap::new(),
            statuses: HashMap::new(),
        };
        assert(db.relationships() =~= Map::<(u32, u32), Relationship>::empty());
        assert(db.status_names() =~= Map::<u32, Seq<char>>::empty());
        db
    }

    /// Files the account `id` under `name`, in place of any account that had
    /// the name before.
    pub fn add_account(&mut self, name: String, id: u32)
        ensures
            final(self).tables() == (Tables {
                accounts: old(self).tables().accounts.insert(name@, id),
                ..old(self).tables()
            }),
    {
        self.accounts.insert(name, id);
    }

    /// Gives the status `status_id` the name `name`.
    pub fn add_status(&mut self, status_id: u32, name: String)
        ensures
            final(self).tables() == (Tables {
                statuses: old(self).tables().statuses.insert(status_id, name@),
                ..old(self).tables()
            }),
    {
        self.statuses.insert(status_id, name);
        assert(self.status_names() =~= old(self).status_names().insert(status_id, name@));
    }

    /// Stores `relationship` for the pair `{a, b}`, under the pair's
    /// canonical key and in place of what was stored for the pair before.
    pub fn put_relationship(&mut self, a: u32, b: u32, relationship: Relationship)
        ensures
            final(self).tables() == (Tables {
                relationships: old(self).tables().relationships.insert(
                    spec_canonical_pair(a, b),
                    relationship,
                ),
                ..old(self).tables()
            }),
            old(self).tables().one_row_per_pair() ==> final(self).tables().one_row_per_pair(),
    {
        let (low, high) = canonical_pair(a, b);
        self.rows.insert(pack(low, high), relationship);
        proof {
            assert forall|key: (u32, u32)|
                self.rows@.contains_key(#[trigger] packed(key)) <==> (key == (low, high) || old(
                    self,
                ).rows@.contains_key(packed(key))) by {
                lemma_packed_injective(key, (low, high));
            }
            assert forall|key: (u32, u32)|
                key != (low, high) && old(self).rows@.contains_key(
                    #[trigger] packed(key),
                ) implies self.rows@[packed(key)] == old(self).rows@[packed(key)] by {
                lemma_packed_injective(key, (low, high));
            }
            assert(self.relationships() =~= old(self).relationships().insert(
                (low, high),
                relationship,
            ));
        }
    }
}

impl MateDatabase for MemoryDatabase {
    closed spec fn tables(&self) -> Tables {
        Tables {
            accounts: self.accounts@,
            relationships: self.relationships(),
            statuses: self.status_names(),
        }
    }

    open spec fn never_fails(&self) -> bool {
        true
    }

    fn resolve_id(&mut self, name: &str) -> (reply: Result<Option<u32>, String>) {
        match self.accounts.get(name) {
            Some(id) => Ok(Some(*id)),
            None => Ok(None),
        }
    }

    fn get_relationship(&mut self, low: u32, high: u32) -> (reply: Result<
        Option<Relationship>,
        String,
    >) {
        match self.rows.get(&pack(low, high)) {
            Some(relationship) => Ok(Some(*relationship)),
            None => Ok(None),
        }
    }

    fn get_status_name(&mut self, status_id: u32) -> (reply: Result<Option<String>, String>) {
        match self.statuses.get(&status_id) {
            Some(name) => Ok(Some(name.clone())),
            None => Ok(None),
        }
    }

    fn set_count(&mut self, low: u32, high: u32, count: i32) -> (reply: Result<(), String>) {
        let (first, second) = canonical_pair(low, high);
        let number = pack(first, second);
        let status_id = match self.rows.get(&number) {
            Some(relationship) => relationship.status_id,
            None => {
                return Ok(());
            },
        };
        let relationship = Relationship { count, status_id };
        self.rows.insert(number, relationship);
        proof {
            assert forall|key: (u32, u32)|
                self.rows@.contains_key(#[trigger] packed(key)) <==> old(
                    self,
                ).rows@.contains_key(packed(key)) by {
                lemma_packed_injective(key, (first, second));
            }
            assert forall|key: (u32, u32)|
                key != (first, second) && old(self).rows@.contains_key(
                    #[trigger] packed(key),
                ) implies self.rows@[packed(key)] == old(self).rows@[packed(key)] by {
                lemma_packed_injective(key, (first, second));
            }
            assert(self.relationships() =~= old(self).relationships().insert(
                (first, second),
                relationship,
            ));
        }
        Ok(())
    }
}

} // verus!
