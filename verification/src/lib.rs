//! Friendship counters: one shared signed count per pair of accounts,
//! adjustable only while the pair is in the `FRIENDS` state.

pub mod rules;
pub mod protocol;
pub mod db;
pub mod memory;
pub mod laws;
pub mod files;
pub mod auth;
