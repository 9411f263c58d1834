//! What stands in front of every protected operation: a bearer token in,
//! the identity it proves out.

use crate::clock::{current_time, Timestamp};
use crate::errors::AppError;
use crate::token::{
    claims_result, decoded_claims, token_rejection, validate_token, validation_of, Claims,
};
use vstd::prelude::*;

verus! {

/// Validates the bearer token of a request against the time of the call,
/// an instant not before the epoch.
///
/// Answers the claims of a well-formed token signed with `secret` that has
/// not expired; every other token gets the same `Authentication` failure.
/// Only signature and expiry are checked: the role in the claims is the
/// role the account had when the token was issued.
pub fn jwt_middleware(token: &str, secret: &str) -> (r: Result<Claims, AppError>)
    ensures
        exists|now: Timestamp|
            now.secs >= 0 && claims_result(r) == validation_of(
                decoded_claims(token@, secret@),
                now,
            ),
        r matches Ok(claims) ==> decoded_claims(token@, secret@) == Some(claims@),
        r matches Err(e) ==> e@ == token_rejection(),
        decoded_claims(token@, secret@) is None ==> r is Err,
{
    let now = current_time();
    let r = validate_token(token, secret, now);
    assert(now.secs >= 0 && claims_result(r) == validation_of(
        decoded_claims(token@, secret@),
        now,
    ));
    r
}

} // verus!
