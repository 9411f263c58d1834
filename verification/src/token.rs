//! Bearer tokens: signed, self-contained credentials that carry the identity
//! of an account for a fixed time.
//!
//! Signing and signature checking are the `jsonwebtoken` crate's (HS256).
//! Expiry is decided here, against a clock reading the caller supplies, so
//! that the decision is a function of its arguments.

use crate::clock::{format_id, parse_id, uuid_parse, uuid_text, Id, Timestamp};
use crate::errors::{AppError, AppErrorView, ErrorKind};
use crate::models::{role_of_tag, role_tag, UserResponse, UserResponseView, UserRole};
use vstd::prelude::*;
use vstd::string::*;

verus! {

/// Declares the error type of the `jsonwebtoken` crate so that it can be
/// carried from the call that signs to the code that maps it.
#[verifier::external_type_specification]
#[verifier::external_body]
pub struct ExJwtError(jsonwebtoken::errors::Error);

/// The payload of a token: whom it names, in which role, and until when.
#[derive(Clone, Debug)]
pub struct Claims {
    /// The account's identifier.
    pub sub: Id,
    pub email: String,
    /// The account's role at the time of issue, as its lower-case tag.
    pub role: String,
    /// Last valid second, counted from the Unix epoch.
    pub exp: u64,
}

/// Mathematical value of [`Claims`].
pub ghost struct ClaimsView {
    pub sub: Id,
    pub email: Seq<char>,
    pub role: Seq<char>,
    pub exp: u64,
}

impl View for Claims {
    type V = ClaimsView;

    open spec fn view(&self) -> ClaimsView {
        ClaimsView { sub: self.sub, email: self.email@, role: self.role@, exp: self.exp }
    }
}

/// The payload as it stands in a token: the four claims, the subject still
/// in its text form.
#[derive(Clone, Debug)]
pub struct Payload {
    pub sub: String,
    pub email: String,
    pub role: String,
    pub exp: u64,
}

/// Mathematical value of [`Payload`].
pub ghost struct PayloadView {
    pub sub: Seq<char>,
    pub email: Seq<char>,
    pub role: Seq<char>,
    pub exp: u64,
}

impl View for Payload {
    type V = PayloadView;

    open spec fn view(&self) -> PayloadView {
        PayloadView { sub: self.sub@, email: self.email@, role: self.role@, exp: self.exp }
    }
}

/// The token `jsonwebtoken::encode` produces for a payload under a secret,
/// with the default header (HS256).
pub uninterp spec fn jwt_encoding(payload: PayloadView, secret: Seq<char>) -> Seq<char>;

/// The payload `jsonwebtoken::decode` hands out for a token under a secret
/// when it checks structure and HS256 signature but not expiry; `None`
/// when it rejects the token or the payload lacks one of the four claims.
pub uninterp spec fn jwt_decoding(token: Seq<char>, secret: Seq<char>) -> Option<PayloadView>;

/// The payload that carries `claims`: the subject written as text.
pub open spec fn payload_of(claims: ClaimsView) -> PayloadView {
    PayloadView {
        sub: uuid_text(claims.sub),
        email: claims.email,
        role: claims.role,
        exp: claims.exp,
    }
}

/// The claims a payload carries, if its subject is the text of an
/// identifier.
pub open spec fn claims_of(payload: PayloadView) -> Option<ClaimsView> {
    match uuid_parse(payload.sub) {
        Some(sub) => Some(
            ClaimsView { sub, email: payload.email, role: payload.role, exp: payload.exp },
        ),
        None => None,
    }
}

/// The claims a token carries under a secret: those of the payload it
/// decodes to. `None` for a token that does not decode and for a payload
/// whose subject is no identifier.
pub open spec fn decoded_claims(token: Seq<char>, secret: Seq<char>) -> Option<ClaimsView> {
    match jwt_decoding(token, secret) {
        Some(payload) => claims_of(payload),
        None => None,
    }
}

/// How long a token stays valid after it is issued: 24 hours.
pub const TOKEN_LIFETIME_SECS: i64 = 86400;

/// The last valid second of a token issued at `now`, where that second does
/// not lie before the epoch.
pub open spec fn expiry_of(now: Timestamp) -> Option<u64> {
    if now.secs + TOKEN_LIFETIME_SECS >= 0 {
        Some((now.secs + TOKEN_LIFETIME_SECS) as u64)
    } else {
        None
    }
}

/// The payload that names `user` until `exp`.
pub open spec fn claims_for(user: UserResponseView, exp: u64) -> ClaimsView {
    ClaimsView { sub: user.id, email: user.email, role: role_tag(user.role), exp }
}

/// The one failure every rejected token is answered with, whatever the
/// cause.
pub open spec fn token_rejection() -> AppErrorView {
    AppErrorView { kind: ErrorKind::Authentication, detail: "Invalid or expired token"@ }
}

/// Whether a payload is past its expiry at `now`.
pub open spec fn expired(claims: ClaimsView, now: Timestamp) -> bool {
    now.after_second(claims.exp as int)
}

/// What validating a token answers, given what decoding it gave and the
/// time: the payload when there is one and it has not expired, else the
/// uniform rejection.
pub open spec fn validation_of(decoded: Option<ClaimsView>, now: Timestamp) -> Result<
    ClaimsView,
    AppErrorView,
> {
    match decoded {
        Some(claims) => if expired(claims, now) {
            Err(token_rejection())
        } else {
            Ok(claims)
        },
        None => Err(token_rejection()),
    }
}

/// View of a validation result.
pub open spec fn claims_result(r: Result<Claims, AppError>) -> Result<ClaimsView, AppErrorView> {
    match r {
        Ok(c) => Ok(c@),
        Err(e) => Err(e@),
    }
}

/// Detail of the failure raised when no token can be issued for `reason`.
pub open spec fn issuing_failure_detail(reason: Seq<char>) -> Seq<char> {
    "Token generation failed: "@ + reason
}

/// Signs a payload with `jsonwebtoken::encode` under the default header
/// (HS256). The payload is handed over as a JSON object with the members
/// `sub`, `email`, `role` and `exp`, in that order.
///
/// The token is a function of payload and secret, named [`jwt_encoding`].
/// With a key made from a secret and the default header, `encode` has no
/// failing path: key and header are of the same family, header and payload
/// are always writable as JSON, and signing with a secret cannot fail. A
/// token that comes out decodes, under the same secret, to the payload it
/// was made from: decoding re-computes the signature over the same bytes and
/// parses the same JSON object back.
#[verifier::external_body]
fn jwt_encode(payload: &Payload, secret: &str) -> (r: Result<String, jsonwebtoken::errors::Error>)
    ensures
        r is Ok,
        r matches Ok(token) ==> token@ == jwt_encoding(payload@, secret@),
        r matches Ok(token) ==> jwt_decoding(token@, secret@) == Some(payload@),
{
    let mut body = serde_json::Map::new();
    body.insert("sub".to_string(), payload.sub.as_str().into());
    body.insert("email".to_string(), payload.email.as_str().into());
    body.insert("role".to_string(), payload.role.as_str().into());
    body.insert("exp".to_string(), payload.exp.into());
    let key = jsonwebtoken::EncodingKey::from_secret(secret.as_bytes());
    jsonwebtoken::encode(&jsonwebtoken::Header::default(), &body, &key)
}

/// Checks `token` with `jsonwebtoken::decode` for HS256 under `secret`,
/// with the crate's expiry check switched off, and moves the four claims out
/// of the JSON payload: `sub`, `email` and `role` must be strings, `exp` an
/// unsigned integer. Any failure gives `None`. The answer is a function of
/// token and secret, named [`jwt_decoding`].
#[verifier::external_body]
fn jwt_decode(token: &str, secret: &str) -> (r: Option<Payload>)
    ensures
        jwt_decoding(token@, secret@) == match r {
            Some(payload) => Some(payload@),
            None => None,
        },
{
    let mut rules = jsonwebtoken::Validation::new(jsonwebtoken::Algorithm::HS256);
    rules.validate_exp = false;
    let key = jsonwebtoken::DecodingKey::from_secret(secret.as_bytes());
    let body = jsonwebtoken::decode::<serde_json::Value>(token, &key, &rules).ok()?.claims;
    Some(Payload {
        sub: body.get("sub")?.as_str()?.to_string(),
        email: body.get("email")?.as_str()?.to_string(),
        role: body.get("role")?.as_str()?.to_string(),
        exp: body.get("exp")?.as_u64()?,
    })
}

/// Renders a `jsonwebtoken` error through its `Display` implementation.
#[verifier::external_body]
fn jwt_error_text(error: &jsonwebtoken::errors::Error) -> String {
    error.to_string()
}

/// The token issued for `user` under `secret` at `now`: the signer's
/// encoding of the payload that names `user` for 24 hours. There is one
/// whenever the expiry does not lie before the epoch.
pub open spec fn token_for(user: UserResponseView, secret: Seq<char>, now: Timestamp) -> Option<
    Seq<char>,
> {
    match expiry_of(now) {
        Some(exp) => Some(jwt_encoding(payload_of(claims_for(user, exp)), secret)),
        None => None,
    }
}

/// What issuing a token answers: the token of [`token_for`], which decodes
/// back to its claims under the same secret; an `Internal` failure where
/// there is none.
pub open spec fn issue_outcome(
    user: UserResponseView,
    secret: Seq<char>,
    now: Timestamp,
    r: Result<String, AppError>,
) -> bool {
    match token_for(user, secret, now) {
        Some(token) => {
            &&& r is Ok
            &&& r->Ok_0@ == token
            &&& decoded_claims(token, secret) == Some(claims_for(user, expiry_of(now)->0))
        },
        None => r is Err && r->Err_0@.kind == ErrorKind::Internal,
    }
}

/// The uniform rejection.
pub fn reject_token() -> (e: AppError)
    ensures
        e@ == token_rejection(),
{
    AppError::Authentication(String::from_str("Invalid or expired token"))
}

/// Decides [`expiry_of`].
pub fn token_expiry(now: Timestamp) -> (exp: Option<u64>)
    ensures
        exp == expiry_of(now),
{
    if now.secs >= -TOKEN_LIFETIME_SECS {
        let at: i128 = now.secs as i128 + TOKEN_LIFETIME_SECS as i128;
        Some(at as u64)
    } else {
        None
    }
}

/// The failure raised when no token can be issued for `reason`.
pub fn issuing_failure(reason: &str) -> (e: AppError)
    ensures
        e@.kind == ErrorKind::Internal,
        e@.detail == issuing_failure_detail(reason@),
{
    let mut detail = String::from_str("Token generation failed: ");
    detail.append(reason);
    AppError::Internal(detail)
}

impl Payload {
    /// The payload that carries `claims`. Its subject reads back as the
    /// identifier it was written from.
    pub fn of(claims: &Claims) -> (p: Payload)
        ensures
            p@ == payload_of(claims@),
            claims_of(p@) == Some(claims@),
    {
        Payload {
            sub: format_id(claims.sub),
            email: claims.email.clone(),
            role: claims.role.clone(),
            exp: claims.exp,
        }
    }
}

impl Claims {
    /// The claims a payload carries, if its subject is the text of an
    /// identifier.
    pub fn from_payload(payload: Payload) -> (c: Option<Claims>)
        ensures
            match claims_of(payload@) {
                Some(claims) => c is Some && c->0@ == claims,
                None => c is None,
            },
    {
        match parse_id(payload.sub.as_str()) {
            Some(sub) => Some(
                Claims { sub, email: payload.email, role: payload.role, exp: payload.exp },
            ),
            None => None,
        }
    }

    /// The payload that names `user` until `exp`.
    pub fn new(user: &UserResponse, exp: u64) -> (c: Claims)
        ensures
            c@ == claims_for(user@, exp),
    {
        Claims {
            sub: user.id,
            email: user.email.clone(),
            role: String::from_str(user.role.as_tag()),
            exp,
        }
    }

    /// The role the payload carries, if its tag names one.
    pub fn user_role(&self) -> (role: Option<UserRole>)
        ensures
            role == role_of_tag(self@.role),
    {
        UserRole::from_tag(self.role.as_str())
    }

    /// Whether the payload is past its expiry at `now`.
    pub fn is_expired(&self, now: Timestamp) -> (past: bool)
        ensures
            past == expired(self@, now),
    {
        now.is_after(self.exp)
    }
}

/// Decides what a decoded token is worth at `now`: the payload, unless
/// there is none or it has expired. All rejections are the same failure.
pub fn check_claims(decoded: Option<Claims>, now: Timestamp) -> (r: Result<Claims, AppError>)
    ensures
        claims_result(r) == validation_of(
            match decoded {
                Some(c) => Some(c@),
                None => None,
            },
            now,
        ),
{
    match decoded {
        Some(claims) => {
            if claims.is_expired(now) {
                Err(reject_token())
            } else {
                Ok(claims)
            }
        },
        None => Err(reject_token()),
    }
}

/// Validates `token` under `secret` at `now`.
///
/// Succeeds exactly when the token is well formed, carries a signature made
/// with `secret`, and `now` is not past its expiry. A malformed token, a
/// wrong signature and an expired token are answered alike.
pub fn validate_token(token: &str, secret: &str, now: Timestamp) -> (r: Result<Claims, AppError>)
    ensures
        claims_result(r) == validation_of(decoded_claims(token@, secret@), now),
{
    let decoded = match jwt_decode(token, secret) {
        Some(payload) => Claims::from_payload(payload),
        None => None,
    };
    check_claims(decoded, now)
}

/// Issues a token that names `user`, signed with `secret`, valid for 24
/// hours from `now`.
///
/// Fails with `Internal` exactly when the expiry would lie before the
/// epoch, that is for an instant more than 24 hours before it. Otherwise
/// the token is the signer's encoding of the payload, and it decodes back
/// to the claims under `secret`.
pub fn issue_token(user: &UserResponse, secret: &str, now: Timestamp) -> (r: Result<
    String,
    AppError,
>)
    ensures
        issue_outcome(user@, secret@, now, r),
{
    match token_expiry(now) {
        None => Err(issuing_failure("expiry out of range")),
        Some(exp) => {
            let claims = Claims::new(user, exp);
            let payload = Payload::of(&claims);
            match jwt_encode(&payload, secret) {
                Ok(token) => Ok(token),
                // The signer has no failing path for a secret; should it
                // ever report one, the reason is kept for the log.
                Err(error) => {
                    let reason = jwt_error_text(&error);
                    Err(issuing_failure(reason.as_str()))
                },
            }
        },
    }
}

/// An expired token is rejected whatever its signature is worth: whether
/// decoding accepted the token or not, validation past the expiry answers
/// the uniform `Authentication` failure.
pub proof fn lemma_expired_token_rejected(decoded: Option<ClaimsView>, now: Timestamp)
    requires
        decoded matches Some(claims) ==> expired(claims, now),
    ensures
        validation_of(decoded, now) == Err::<ClaimsView, AppErrorView>(token_rejection()),
        token_rejection().kind == ErrorKind::Authentication,
{
}

/// A token validated within its lifetime names the account it was issued
/// for: validating, at any time not past the expiry, what decoding gives
/// for an issued token yields the issued payload.
pub proof fn lemma_fresh_token_accepted(user: UserResponseView, issued: Timestamp, now: Timestamp)
    requires
        expiry_of(issued) is Some,
        !now.after_second(expiry_of(issued)->0 as int),
    ensures
        validation_of(Some(claims_for(user, expiry_of(issued)->0)), now) == Ok::<
            ClaimsView,
            AppErrorView,
        >(claims_for(user, expiry_of(issued)->0)),
{
}

} // verus!
