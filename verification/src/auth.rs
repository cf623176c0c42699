//! Token verification: hashing a raw session token and classifying the
//! store's answer for the hash into a three-way outcome.

use vstd::prelude::*;
use sha2::Digest;

verus! {

/// The digest of a raw session token, as the store key it is looked up
/// under. It is a function of the token alone: the same token always hashes
/// to the same key, on every machine and in every process.
pub uninterp spec fn token_digest_of(token: Seq<char>) -> Seq<char>;

/// Relies on sha2::Sha256 (through digest's `Digest::digest`): a
/// deterministic cryptographic digest of the token's bytes. The 32 digest
/// bytes are written as lowercase hex, two characters each, so the key has
/// exactly 64 characters and never contains the raw token.
#[verifier::external_body]
pub(crate) fn hash_token(token: &str) -> (r: String)
    ensures
        r@ == token_digest_of(token@),
        r@.len() == 64,
{
    let digest = sha2::Sha256::digest(token.as_bytes());
    let mut out = String::new();
    for byte in digest.iter() {
        out.push_str(&format!("{:02x}", byte));
    }
    out
}

/// The keyspace that token records live in; the connection is switched to it
/// before the lookup.
pub open spec fn spec_auth_keyspace() -> Seq<char> {
    "auth"@
}

/// The namespace-select argument for the verification lookup.
pub fn auth_keyspace() -> (s: &'static str)
    ensures
        s@ == spec_auth_keyspace(),
{
    "auth"
}

/// The three-way outcome of a session verification.
///
/// `Yes` means the store maps the token's hash to the claimed username.
/// `No` means the claim is rejected: the hash is unknown to the store, or it
/// belongs to a different username. `ServerError` means the store could not
/// answer at all; nothing is known about the session, so nothing about it may
/// be changed.
#[derive(Clone, Copy, Debug, PartialEq, Eq, Structural)]
pub enum VerifyStatus {
    Yes,
    No,
    ServerError,
}

/// What one store round-trip for a token-hash key produced, reduced to the
/// three shapes the verifier distinguishes: a stored username, a definite
/// "no such key", or any other (network, protocol, timeout) failure.
#[derive(Clone, Debug, PartialEq, Eq)]
pub enum LookupReply {
    Found(String),
    Missing,
    Failed,
}

/// The classification rule: a reply authenticates exactly when the stored
/// username equals the claimed one; a missing record or a record owned by
/// someone else rejects; any other store failure is an infrastructure error.
pub open spec fn spec_verify(claimed: Seq<char>, reply: LookupReply) -> VerifyStatus {
    match reply {
        LookupReply::Found(stored) => if stored@ == claimed {
            VerifyStatus::Yes
        } else {
            VerifyStatus::No
        },
        LookupReply::Missing => VerifyStatus::No,
        LookupReply::Failed => VerifyStatus::ServerError,
    }
}

/// Classify one store reply against the claimed username.
pub fn verify_user(uname: &str, reply: &LookupReply) -> (st: VerifyStatus)
    ensures
        st == spec_verify(uname@, *reply),
{
    match reply {
        LookupReply::Found(stored) => {
            let claimed = uname.to_owned();
            if stored.eq(&claimed) {
                VerifyStatus::Yes
            } else {
                VerifyStatus::No
            }
        },
        LookupReply::Missing => VerifyStatus::No,
        LookupReply::Failed => VerifyStatus::ServerError,
    }
}

} // verus!
