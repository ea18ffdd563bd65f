//! Passwords: their digest, and whether a login matches what is stored.
//!
//! An account's password is kept as its SHA-512 digest. A login is good
//! when the digest of the password given is, byte for byte, the one stored.

use sha2::{Digest, Sha512};
use vstd::prelude::*;
use vstd::string::StringSliceAdditionalSpecFns;

verus! {

/// The SHA-512 digest of a sequence of bytes.
pub uninterp spec fn sha512(data: Seq<u8>) -> Seq<u8>;

/// Hashes `data` with `sha2::Sha512`: `new`, one `update`, `finalize`.
///
/// Taken on trust, not proved: that the bytes returned depend on `data`
/// alone, which is all that calling them `sha512(data)` claims.
#[verifier::external_body]
fn sha512_of(data: &[u8]) -> (digest: Vec<u8>)
    ensures
        digest@ == sha512(data@),
{
    let mut hasher = Sha512::new();
    hasher.update(data);
    hasher.finalize().to_vec()
}

/// Whether two byte strings are the same.
pub fn same_bytes(first: &[u8], second: &[u8]) -> (same: bool)
    ensures
        same == (first@ == second@),
{
    if first.len() != second.len() {
        return false;
    }
    let mut at: usize = 0;
    while at < first.len()
        invariant
            at <= first.len(),
            first.len() == second.len(),
            forall|i: int| 0 <= i < at ==> first@[i] == second@[i],
        decreases first.len() - at,
    {
        if first[at] != second[at] {
            return false;
        }
        at += 1;
    }
    assert(first@ =~= second@);
    true
}

/// The digest under which a password is stored.
pub fn password_digest(password: &str) -> (digest: Vec<u8>)
    ensures
        digest@ == sha512(password.spec_bytes()),
{
    sha512_of(password.as_bytes())
}

/// The outcome of a login to the account `id`, given the digest stored for
/// the account and the digest of the password that was entered: the
/// account's identifier if the two are the same, and nothing if not.
pub fn login_outcome(id: u32, stored: &[u8], entered: &[u8]) -> (outcome: Option<u32>)
    ensures
        outcome == if stored@ == entered@ {
            Some(id)
        } else {
            None::<u32>
        },
{
    if same_bytes(stored, entered) {
        Some(id)
    } else {
        None
    }
}

/// Checks the password entered for the account `id` against the digest
/// stored for it.
pub fn check_login(id: u32, stored: &[u8], password: &str) -> (outcome: Option<u32>)
    ensures
        outcome == if stored@ == sha512(password.spec_bytes()) {
            Some(id)
        } else {
            None::<u32>
        },
{
    let entered = password_digest(password);
    login_outcome(id, stored, entered.as_slice())
}

} // verus!
