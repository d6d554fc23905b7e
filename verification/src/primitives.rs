//! What the broker takes from other crates: slow salted password hashing,
//! random 128-bit identifiers with their textual form, and the wall clock.
//!
//! The contracts in this file are believed, not proved. Each one says in its
//! doc comment what it claims of the function it calls.

use crate::identifiers::hyphenated;
use vstd::prelude::*;

verus! {

/// `bcrypt::BcryptError`: carried from the call to the caller, never looked
/// into.
#[verifier::external_type_specification]
#[verifier::external_body]
pub struct ExBcryptError(bcrypt::BcryptError);

/// `uuid::Error`: carried from the call to the caller, never looked into.
#[verifier::external_type_specification]
#[verifier::external_body]
pub struct ExUuidError(uuid::Error);

/// What `bcrypt::verify` answers for a password and a stored hash: `Some(b)`
/// where it returns `Ok(b)`, `None` where it returns an error (the hash is
/// malformed or names a cost out of range). It reads nothing but its two
/// arguments.
pub uninterp spec fn bcrypt_verdict(password: Seq<char>, hash: Seq<char>) -> Option<bool>;

/// What `uuid::Uuid::parse_str` reads from a text: `Some(id)` with the
/// 128-bit value of the identifier where it returns `Ok`, `None` where it
/// returns an error.
pub uninterp spec fn parsed_uuid(text: Seq<char>) -> Option<u128>;

/// The largest magnitude of a clock reading, 2^94 nanoseconds.
pub const CLOCK_LIMIT: i128 = 0x4000_0000_0000_0000_0000_0000;

/// Calls `bcrypt::hash`. The salt is drawn at random, so the hash differs
/// from call to call, and the call is an error where the system has no
/// randomness to give or the cost is out of range. The one claim is that a
/// hash it returns is one that `bcrypt::verify` accepts for the same
/// password: verifying recomputes the hash from the salt and the cost that
/// the text of the hash carries, and the crate's own tests state this for
/// arbitrary passwords.
#[verifier::external_body]
pub(crate) fn bcrypt_hash(password: &str, cost: u32) -> (r: Result<String, bcrypt::BcryptError>)
    ensures
        r matches Ok(hash) ==> bcrypt_verdict(password@, hash@) == Some(true),
{
    bcrypt::hash(password, cost)
}

/// Calls `bcrypt::verify`. The claim is only that the answer is the one
/// named `bcrypt_verdict` for these two texts.
#[verifier::external_body]
pub(crate) fn bcrypt_verify(password: &str, hash: &str) -> (r: Result<bool, bcrypt::BcryptError>)
    ensures
        match r {
            Ok(b) => bcrypt_verdict(password@, hash@) == Some(b),
            Err(_) => bcrypt_verdict(password@, hash@) is None,
        },
{
    bcrypt::verify(password, hash)
}

/// Calls `uuid::Uuid::new_v4` and hands the identifier out as its 128-bit
/// value. The identifier is random: nothing is claimed of it.
#[verifier::external_body]
pub(crate) fn random_uuid() -> (r: u128) {
    uuid::Uuid::new_v4().as_u128()
}

/// Calls `uuid::Uuid::parse_str` and hands the identifier out as its 128-bit
/// value. The claim is only that the answer is the one named `parsed_uuid`
/// for this text.
#[verifier::external_body]
pub(crate) fn parse_uuid(text: &str) -> (r: Result<u128, uuid::Error>)
    ensures
        match r {
            Ok(id) => parsed_uuid(text@) == Some(id),
            Err(_) => parsed_uuid(text@) is None,
        },
{
    match uuid::Uuid::parse_str(text) {
        Ok(id) => Ok(id.as_u128()),
        Err(e) => Err(e),
    }
}

/// Calls `to_string` on the `uuid::Uuid` with the 128-bit value `id`. Two
/// claims: the text is the hyphenated lower-case form, and
/// `uuid::Uuid::parse_str` reads that text back as `id`.
#[verifier::external_body]
pub(crate) fn uuid_text(id: u128) -> (r: String)
    ensures
        r@ == hyphenated(id),
        parsed_uuid(r@) == Some(id),
{
    uuid::Uuid::from_u128(id).to_string()
}

/// Calls `time::OffsetDateTime::now_utc` and hands the reading out as
/// nanoseconds since the Unix epoch. The one claim is the bound: the crate
/// computes the number as a 64-bit count of seconds times 10^9 plus a 32-bit
/// count of nanoseconds.
#[verifier::external_body]
pub(crate) fn unix_nanos_now() -> (r: i128)
    ensures
        -CLOCK_LIMIT <= r <= CLOCK_LIMIT,
{
    time::OffsetDateTime::now_utc().unix_timestamp_nanos()
}

} // verus!
