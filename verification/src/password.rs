//! Password storage: salted one-way digests and their verification.

use crate::errors::{AppError, ErrorKind};
use vstd::prelude::*;
use vstd::string::*;

verus! {

/// Declares the error type of the `bcrypt` crate so that it can be carried
/// from the calls below to the code that maps it.
#[verifier::external_type_specification]
#[verifier::external_body]
pub struct ExBcryptError(bcrypt::BcryptError);

/// What `bcrypt::verify` answers for a password and a stored digest:
/// `Some(true)` for a match, `Some(false)` for a mismatch, `None` when it
/// reports an error (a digest it cannot parse).
pub uninterp spec fn bcrypt_verdict(password: Seq<char>, digest: Seq<char>) -> Option<bool>;

/// The work factor a digest carries, as `bcrypt::HashParts` reads it from
/// the text (`from_str`, then `get_cost`); `None` for a text it cannot
/// split into version, cost, salt and hash.
pub uninterp spec fn bcrypt_cost(digest: Seq<char>) -> Option<u32>;

/// Whether `digest` is a digest of `password`.
pub open spec fn password_matches(password: Seq<char>, digest: Seq<char>) -> bool {
    bcrypt_verdict(password, digest) == Some(true)
}

/// The work factor used unless another is configured.
pub const DEFAULT_COST: u32 = 12;

/// The smallest and largest work factor the digest function accepts.
pub const MIN_COST: u32 = 4;

pub const MAX_COST: u32 = 31;

/// Detail of the failure raised when hashing fails for `reason`.
pub open spec fn hashing_failure_detail(reason: Seq<char>) -> Seq<char> {
    "Password hashing failed: "@ + reason
}

/// Calls `bcrypt::hash`, which salts the password with fresh random bytes.
/// The digest differs from call to call; what holds of every digest handed
/// out is that `bcrypt::verify` accepts the password against it, since
/// verification re-derives the digest from the cost and salt it carries,
/// and that it carries the cost it was made with, written as two digits
/// after the version. A cost outside 4..=31 is always refused.
#[verifier::external_body]
fn bcrypt_hash(password: &str, cost: u32) -> (r: Result<String, bcrypt::BcryptError>)
    ensures
        r matches Ok(digest) ==> password_matches(password@, digest@),
        r matches Ok(digest) ==> bcrypt_cost(digest@) == Some(cost),
        !(MIN_COST <= cost <= MAX_COST) ==> r is Err,
{
    bcrypt::hash(password, cost)
}

/// Reads the work factor out of a digest with the `FromStr` implementation
/// of `bcrypt::HashParts` and its `get_cost`. The answer is a function of
/// the text, named [`bcrypt_cost`].
#[verifier::external_body]
fn bcrypt_digest_cost(digest: &str) -> (cost: Option<u32>)
    ensures
        cost == bcrypt_cost(digest@),
{
    let parts = digest.parse::<bcrypt::HashParts>().ok()?;
    Some(parts.get_cost())
}

/// Calls `bcrypt::verify`. Its answer depends on the two texts alone and
/// is named [`bcrypt_verdict`].
#[verifier::external_body]
fn bcrypt_verify(password: &str, digest: &str) -> (r: Result<bool, bcrypt::BcryptError>)
    ensures
        bcrypt_verdict(password@, digest@) == match r {
            Ok(matched) => Some(matched),
            Err(_) => None,
        },
{
    bcrypt::verify(password, digest)
}

/// Renders a `bcrypt` error through its `Display` implementation.
#[verifier::external_body]
fn bcrypt_error_text(error: &bcrypt::BcryptError) -> String {
    error.to_string()
}

/// Hashes and verifies passwords with an adjustable work factor.
#[derive(Clone, Copy, Debug, PartialEq, Eq, Structural)]
pub struct PasswordHasher {
    pub cost: u32,
}

impl Default for PasswordHasher {
    fn default() -> (h: PasswordHasher)
        ensures
            h.cost == DEFAULT_COST,
    {
        PasswordHasher { cost: DEFAULT_COST }
    }
}

/// Whether a verification verdict lets the password through: only a
/// reported match does. A mismatch and an unreadable digest are both a
/// plain "no".
pub fn accepts(verdict: Option<bool>) -> (ok: bool)
    ensures
        ok == (verdict == Some(true)),
{
    match verdict {
        Some(matched) => matched,
        None => false,
    }
}

/// The hashing result for a digest function outcome whose error, if any,
/// reads `reason`: the digest, or an `Internal` failure quoting the reason.
pub fn hashing_result(digest: Option<String>, reason: &str) -> (r: Result<String, AppError>)
    ensures
        match digest {
            Some(d) => r is Ok && r->Ok_0@ == d@,
            None => r is Err && r->Err_0@.kind == ErrorKind::Internal && r->Err_0@.detail
                == hashing_failure_detail(reason@),
        },
{
    match digest {
        Some(d) => Ok(d),
        None => {
            let mut detail = String::from_str("Password hashing failed: ");
            detail.append(reason);
            Err(AppError::Internal(detail))
        },
    }
}

impl PasswordHasher {
    /// A hasher with work factor `cost`.
    pub fn new(cost: u32) -> (h: PasswordHasher)
        ensures
            h.cost == cost,
    {
        PasswordHasher { cost }
    }

    /// The work factor `digest` was made with, if it is a digest.
    pub fn cost_of(digest: &str) -> (cost: Option<u32>)
        ensures
            cost == bcrypt_cost(digest@),
    {
        bcrypt_digest_cost(digest)
    }

    /// A fresh salted digest of `plaintext`, made with this hasher's work
    /// factor.
    ///
    /// Every digest handed out verifies against `plaintext` and carries the
    /// work factor. A failure is always `Internal`: it is never
    /// attributable to the password. A work factor the digest function does
    /// not accept always fails.
    pub fn hash(&self, plaintext: &str) -> (r: Result<String, AppError>)
        ensures
            r matches Ok(digest) ==> password_matches(plaintext@, digest@),
            r matches Ok(digest) ==> bcrypt_cost(digest@) == Some(self.cost),
            r matches Err(e) ==> e@.kind == ErrorKind::Internal,
            !(MIN_COST <= self.cost <= MAX_COST) ==> r is Err,
    {
        match bcrypt_hash(plaintext, self.cost) {
            Ok(digest) => hashing_result(Some(digest), ""),
            Err(error) => {
                let reason = bcrypt_error_text(&error);
                hashing_result(None, reason.as_str())
            },
        }
    }

    /// Whether `digest` is a digest of `plaintext`. A digest that cannot be
    /// read is a mismatch, never an error.
    pub fn verify(&self, plaintext: &str, digest: &str) -> (ok: bool)
        ensures
            ok == password_matches(plaintext@, digest@),
    {
        match bcrypt_verify(plaintext, digest) {
            Ok(matched) => accepts(Some(matched)),
            Err(_) => accepts(None),
        }
    }
}

} // verus!
