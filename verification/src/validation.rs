//! Field-level checks shared by the request types.

use crate::errors::{AppError, AppErrorView, ErrorKind};
use validator::ValidateEmail;
use vstd::prelude::*;
use vstd::string::*;

verus! {

/// Whether `text` is an e-mail address in the sense of the `validator`
/// crate: the verdict of `ValidateEmail::validate_email` on it.
pub uninterp spec fn email_well_formed(text: Seq<char>) -> bool;

/// Whether the number of characters of `text` lies in `min..=max`.
pub open spec fn length_within(text: Seq<char>, min: nat, max: nat) -> bool {
    min <= text.len() <= max
}

/// Whether `value` lies in `min..=max`.
pub open spec fn value_within(value: int, min: int, max: int) -> bool {
    min <= value <= max
}

/// Detail of the failure raised for an invalid `field`.
pub open spec fn validation_detail(field: Seq<char>) -> Seq<char> {
    "Validation failed: "@ + field
}

/// The failure raised for an invalid `field`.
pub open spec fn validation_failure(field: Seq<char>) -> AppErrorView {
    AppErrorView { kind: ErrorKind::Validation, detail: validation_detail(field) }
}

/// What a validation that found `invalid` as its first offending field
/// (if any) answers.
pub open spec fn validation_outcome(invalid: Option<Seq<char>>, r: Result<(), AppError>) -> bool {
    match invalid {
        None => r is Ok,
        Some(field) => r is Err && r->Err_0@ == validation_failure(field),
    }
}

/// Asks `validator` whether `text` is an e-mail address, through
/// `ValidateEmail::validate_email` on the string slice. The verdict is a
/// function of the text alone, so it is given the name
/// [`email_well_formed`].
#[verifier::external_body]
pub(crate) fn email_verdict(text: &str) -> (ok: bool)
    ensures
        ok == email_well_formed(text@),
{
    text.validate_email()
}

/// Decides [`email_well_formed`].
pub fn is_email(text: &str) -> (ok: bool)
    ensures
        ok == email_well_formed(text@),
{
    email_verdict(text)
}

/// Decides [`length_within`], counting characters rather than bytes.
pub fn has_length_within(text: &str, min: usize, max: usize) -> (ok: bool)
    ensures
        ok == length_within(text@, min as nat, max as nat),
{
    let n = text.unicode_len();
    min <= n && n <= max
}

/// Whether `text` has at least `min` characters.
pub fn has_min_length(text: &str, min: usize) -> (ok: bool)
    ensures
        ok == (text@.len() >= min),
{
    text.unicode_len() >= min
}

/// Whether `text` has at most `max` characters.
pub fn has_max_length(text: &str, max: usize) -> (ok: bool)
    ensures
        ok == (text@.len() <= max),
{
    text.unicode_len() <= max
}

/// Decides [`value_within`].
pub fn is_within(value: i32, min: i32, max: i32) -> (ok: bool)
    ensures
        ok == value_within(value as int, min as int, max as int),
{
    min <= value && value <= max
}

/// Builds the failure for an invalid `field`.
pub fn invalid_field(field: &str) -> (e: AppError)
    ensures
        e@ == validation_failure(field@),
{
    let mut detail = String::from_str("Validation failed: ");
    detail.append(field);
    AppError::Validation(detail)
}

/// Turns the first offending field, if any, into the validation result.
pub fn report(invalid: Option<&'static str>) -> (r: Result<(), AppError>)
    ensures
        validation_outcome(
            match invalid {
                Some(f) => Some(f@),
                None => None,
            },
            r,
        ),
{
    match invalid {
        Some(field) => Err(invalid_field(field)),
        None => Ok(()),
    }
}

} // verus!
