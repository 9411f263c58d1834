//! Registration, login and role checks.

use crate::clock::{current_time, fresh_id, Id, Timestamp};
use crate::errors::{AppError, AppErrorView, ErrorKind};
use crate::models::{
    user_response_of, CreateUserRequest, CreateUserRequestView, LoginRequest, LoginRequestView,
    LoginResponse, User, UserResponse, UserRole, UserView,
};
use crate::password::{bcrypt_cost, password_matches, PasswordHasher};
use crate::policy::{not_found, role_satisfies, satisfies_role};
use crate::text::{eq_ignoring_case, same_ignoring_case};
use crate::token::{
    claims_for, decoded_claims, expiry_of, issue_outcome, issue_token, token_for,
};
use crate::validation::validation_failure;
use vstd::prelude::*;
use vstd::string::*;

verus! {

/// Namespace of the account operations.
pub struct AuthService;

/// The failure for a registration under an address already in use.
pub open spec fn duplicate_email() -> AppErrorView {
    AppErrorView { kind: ErrorKind::BadRequest, detail: "User with this email already exists"@ }
}

/// The failure for a login with an unknown address or a wrong password.
/// Both causes give the same value.
pub open spec fn bad_credentials() -> AppErrorView {
    AppErrorView { kind: ErrorKind::Authentication, detail: "Invalid email or password"@ }
}

/// The failure for a login to a deactivated account.
pub open spec fn deactivated() -> AppErrorView {
    AppErrorView { kind: ErrorKind::Authentication, detail: "Account is deactivated"@ }
}

/// The failure for an account that does not exist.
pub open spec fn user_missing() -> AppErrorView {
    not_found("User not found"@)
}

/// Views of a list of accounts, in order.
pub open spec fn user_views(accounts: Seq<User>) -> Seq<UserView> {
    accounts.map_values(|u: User| u@)
}

/// Whether one of `accounts` is stored under `email`, whatever the case of
/// its ASCII letters.
pub open spec fn address_taken(accounts: Seq<UserView>, email: Seq<char>) -> bool {
    exists|i: int|
        0 <= i < accounts.len() && same_ignoring_case((#[trigger] accounts[i]).email, email)
}

/// The first of `accounts` stored under `email`, whatever the case of its
/// ASCII letters; `None` if there is none.
pub open spec fn account_under(accounts: Seq<UserView>, email: Seq<char>) -> Option<UserView>
    decreases accounts.len(),
{
    if accounts.len() == 0 {
        None
    } else {
        match account_under(accounts.drop_last(), email) {
            Some(earlier) => Some(earlier),
            None => if same_ignoring_case(accounts.last().email, email) {
                Some(accounts.last())
            } else {
                None
            },
        }
    }
}

/// No account is found under an address none is stored under.
pub proof fn lemma_account_under_none(accounts: Seq<UserView>, email: Seq<char>)
    requires
        !address_taken(accounts, email),
    ensures
        account_under(accounts, email) is None,
    decreases accounts.len(),
{
    if accounts.len() > 0 {
        let rest = accounts.drop_last();
        assert forall|j: int| 0 <= j < rest.len() implies !same_ignoring_case(
            (#[trigger] rest[j]).email,
            email,
        ) by {
            assert(rest[j] == accounts[j]);
        }
        lemma_account_under_none(rest, email);
        assert(accounts.last() == accounts[accounts.len() - 1]);
    }
}

/// The account found under an address is the first one stored under it.
pub proof fn lemma_account_under_first(accounts: Seq<UserView>, email: Seq<char>, i: int)
    requires
        0 <= i < accounts.len(),
        same_ignoring_case(accounts[i].email, email),
        forall|j: int| 0 <= j < i ==> !same_ignoring_case((#[trigger] accounts[j]).email, email),
    ensures
        account_under(accounts, email) == Some(accounts[i]),
    decreases accounts.len(),
{
    let rest = accounts.drop_last();
    if i == accounts.len() - 1 {
        assert forall|j: int| 0 <= j < rest.len() implies !same_ignoring_case(
            (#[trigger] rest[j]).email,
            email,
        ) by {
            assert(rest[j] == accounts[j]);
        }
        lemma_account_under_none(rest, email);
    } else {
        assert(rest[i] == accounts[i]);
        assert forall|j: int| 0 <= j < i implies !same_ignoring_case(
            (#[trigger] rest[j]).email,
            email,
        ) by {
            assert(rest[j] == accounts[j]);
        }
        lemma_account_under_first(rest, email, i);
    }
}

/// Why a registration is refused before anything is hashed, if it is: an
/// invalid field first, then an address already in use.
pub open spec fn registration_refusal(
    request: CreateUserRequestView,
    email_taken: bool,
) -> Option<AppErrorView> {
    match request.first_invalid() {
        Some(field) => Some(validation_failure(field)),
        None => if email_taken {
            Some(duplicate_email())
        } else {
            None
        },
    }
}

/// The account a registration stores: the request's data, the digest of its
/// password, active, created and last modified at the same instant.
pub open spec fn new_account_of(
    request: CreateUserRequestView,
    digest: Seq<char>,
    id: Id,
    now: Timestamp,
) -> UserView {
    UserView {
        id,
        email: request.email,
        password_hash: digest,
        first_name: request.first_name,
        last_name: request.last_name,
        role: request.role,
        is_active: true,
        created_at: now,
        updated_at: now,
    }
}

/// Whether `account` is what a successful registration of `request`
/// stores: the request's data under some identifier and instant, with a
/// digest the request's password verifies against.
pub open spec fn registered(request: CreateUserRequestView, account: UserView) -> bool {
    &&& account == new_account_of(request, account.password_hash, account.id, account.created_at)
    &&& password_matches(request.password, account.password_hash)
}

/// What a registration with work factor `cost` answers: the refusal, if
/// there is one; else the account to store, whose digest carries `cost` and
/// which is stamped with an instant not before the epoch, or an `Internal`
/// failure where hashing fails.
pub open spec fn registration_outcome(
    request: CreateUserRequestView,
    email_taken: bool,
    cost: u32,
    r: Result<User, AppError>,
) -> bool {
    match registration_refusal(request, email_taken) {
        Some(e) => r is Err && r->Err_0@ == e,
        None => match r {
            Ok(account) => {
                &&& registered(request, account@)
                &&& bcrypt_cost(account@.password_hash) == Some(cost)
                &&& account@.created_at.secs >= 0
            },
            Err(e) => e@.kind == ErrorKind::Internal,
        },
    }
}

/// Why a login is refused before a token is issued, if it is: an invalid
/// field; an unknown address; a deactivated account; a wrong password.
pub open spec fn login_refusal(request: LoginRequestView, user: Option<UserView>) -> Option<
    AppErrorView,
> {
    match request.first_invalid() {
        Some(field) => Some(validation_failure(field)),
        None => match user {
            None => Some(bad_credentials()),
            Some(u) => if !u.is_active {
                Some(deactivated())
            } else if !password_matches(request.password, u.password_hash) {
                Some(bad_credentials())
            } else {
                None
            },
        },
    }
}

/// View of an optional account.
pub open spec fn opt_user(user: Option<&User>) -> Option<UserView> {
    match user {
        Some(u) => Some(u@),
        None => None,
    }
}

/// What a login at `now` answers: the refusal, if there is one; else a
/// response that carries the account's public part and the token issued
/// for it at `now`, or an `Internal` failure where no token can be issued.
pub open spec fn login_outcome(
    request: LoginRequestView,
    user: Option<UserView>,
    secret: Seq<char>,
    now: Timestamp,
    r: Result<LoginResponse, AppError>,
) -> bool {
    match login_refusal(request, user) {
        Some(e) => r is Err && r->Err_0@ == e,
        None => {
            let account = user_response_of(user->0);
            match token_for(account, secret, now) {
                Some(token) => {
                    &&& r is Ok
                    &&& r->Ok_0@.user == account
                    &&& r->Ok_0@.token == token
                    &&& decoded_claims(token, secret) == Some(
                        claims_for(account, expiry_of(now)->0),
                    )
                },
                None => r is Err && r->Err_0@.kind == ErrorKind::Internal,
            }
        },
    }
}

/// What a role check answers for the account found, if any.
pub open spec fn role_check_of(found: Option<UserView>, required: UserRole) -> Result<
    bool,
    AppErrorView,
> {
    match found {
        Some(u) => Ok(role_satisfies(u.role, required)),
        None => Err(user_missing()),
    }
}

impl AuthService {
    /// Looks `email` up among `accounts`, ignoring the case of ASCII
    /// letters: the slot of the first account stored under it, `None` if
    /// there is none.
    pub fn find_by_email(accounts: &Vec<User>, email: &str) -> (found: Option<usize>)
        ensures
            found is Some <==> address_taken(user_views(accounts@), email@),
            account_under(user_views(accounts@), email@) == match found {
                Some(i) => Some(accounts@[i as int]@),
                None => None,
            },
            found matches Some(i) ==> {
                &&& i < accounts.len()
                &&& same_ignoring_case(accounts@[i as int]@.email, email@)
                &&& forall|j: int|
                    0 <= j < i ==> !same_ignoring_case((#[trigger] accounts@[j])@.email, email@)
            },
    {
        let ghost views = user_views(accounts@);
        let mut i: usize = 0;
        while i < accounts.len()
            invariant
                i <= accounts.len(),
                views == user_views(accounts@),
                forall|j: int|
                    0 <= j < i ==> !same_ignoring_case((#[trigger] accounts@[j])@.email, email@),
            decreases accounts.len() - i,
        {
            if eq_ignoring_case(accounts[i].email.as_str(), email) {
                proof {
                    assert(same_ignoring_case(views[i as int].email, email@));
                    assert forall|j: int| 0 <= j < i implies !same_ignoring_case(
                        (#[trigger] views[j]).email,
                        email@,
                    ) by {
                        assert(views[j] == accounts@[j]@);
                    }
                    lemma_account_under_first(views, email@, i as int);
                }
                return Some(i);
            }
            i = i + 1;
        }
        assert forall|j: int| 0 <= j < views.len() implies !same_ignoring_case(
            (#[trigger] views[j]).email,
            email@,
        ) by {
            assert(views[j] == accounts@[j]@);
        }
        proof {
            lemma_account_under_none(views, email@);
        }
        None
    }

    /// The account to store for `request`, given the digest of its
    /// password, a fresh identifier and the time.
    pub fn new_account(request: CreateUserRequest, digest: String, id: Id, now: Timestamp) -> (u:
        User)
        ensures
            u@ == new_account_of(request@, digest@, id, now),
    {
        User {
            id,
            email: request.email,
            password_hash: digest,
            first_name: request.first_name,
            last_name: request.last_name,
            role: request.role,
            is_active: true,
            created_at: now,
            updated_at: now,
        }
    }

    /// Registers an account. `email_taken` tells whether the store already
    /// holds an account under the request's address.
    ///
    /// Answers the account to insert. Fails with `Validation` for an
    /// invalid request, with `BadRequest` for an address already in use,
    /// and with `Internal` if hashing fails.
    pub fn register_user(
        hasher: &PasswordHasher,
        request: CreateUserRequest,
        email_taken: bool,
    ) -> (r: Result<User, AppError>)
        ensures
            registration_outcome(request@, email_taken, hasher.cost, r),
    {
        match request.validate() {
            Err(e) => {
                return Err(e);
            },
            Ok(_) => {},
        }
        if email_taken {
            return Err(
                AppError::BadRequest(String::from_str("User with this email already exists")),
            );
        }
        match hasher.hash(request.password.as_str()) {
            Err(e) => Err(e),
            Ok(digest) => {
                let id = fresh_id();
                let now = current_time();
                Ok(Self::new_account(request, digest, id, now))
            },
        }
    }

    /// Logs in at `now`. `user` is the account the store holds under the
    /// request's address, if any.
    pub fn login_at(
        hasher: &PasswordHasher,
        request: &LoginRequest,
        user: Option<&User>,
        secret: &str,
        now: Timestamp,
    ) -> (r: Result<LoginResponse, AppError>)
        ensures
            login_outcome(request@, opt_user(user), secret@, now, r),
    {
        match request.validate() {
            Err(e) => {
                return Err(e);
            },
            Ok(_) => {},
        }
        let account = match user {
            None => {
                return Err(AppError::Authentication(String::from_str("Invalid email or password")));
            },
            Some(u) => u,
        };
        if !account.is_active {
            return Err(AppError::Authentication(String::from_str("Account is deactivated")));
        }
        if !hasher.verify(request.password.as_str(), account.password_hash.as_str()) {
            return Err(AppError::Authentication(String::from_str("Invalid email or password")));
        }
        let public = UserResponse::of(account);
        match issue_token(&public, secret, now) {
            Ok(token) => Ok(LoginResponse { token, user: public }),
            Err(e) => Err(e),
        }
    }

    /// Logs in now. `user` is the account the store holds under the
    /// request's address, if any.
    ///
    /// Fails with `Validation` for an invalid request and with
    /// `Authentication` for an unknown address, a deactivated account or a
    /// wrong password. Every other login succeeds: it answers the account's
    /// public part and a token issued for it at the time of the call, an
    /// instant not before the epoch.
    pub fn login_user(
        hasher: &PasswordHasher,
        request: &LoginRequest,
        user: Option<&User>,
        secret: &str,
    ) -> (r: Result<LoginResponse, AppError>)
        ensures
            exists|now: Timestamp|
                now.secs >= 0 && login_outcome(request@, opt_user(user), secret@, now, r),
            r is Ok <==> login_refusal(request@, opt_user(user)) is None,
            r matches Ok(response) ==> response@.user == user_response_of(opt_user(user)->0),
    {
        let now = current_time();
        let r = Self::login_at(hasher, request, user, secret, now);
        assert(now.secs >= 0 && login_outcome(request@, opt_user(user), secret@, now, r));
        r
    }

    /// The account found under an identifier, or `NotFound`.
    pub fn get_user_by_id(found: Option<User>) -> (r: Result<User, AppError>)
        ensures
            match found {
                Some(u) => r is Ok && r->Ok_0@ == u@,
                None => r is Err && r->Err_0@ == user_missing(),
            },
    {
        match found {
            Some(u) => Ok(u),
            None => Err(AppError::NotFound(String::from_str("User not found"))),
        }
    }

    /// A token for `user`, signed with `secret`, valid for 24 hours from
    /// the time of the call, an instant not before the epoch. Never fails.
    pub fn generate_jwt_token(user: &UserResponse, secret: &str) -> (r: Result<String, AppError>)
        ensures
            exists|now: Timestamp| now.secs >= 0 && issue_outcome(user@, secret@, now, r),
            r is Ok,
    {
        let now = current_time();
        let r = issue_token(user, secret, now);
        assert(now.secs >= 0 && issue_outcome(user@, secret@, now, r));
        r
    }

    /// Whether the account found under an identifier meets a role
    /// requirement; `NotFound` if there is no such account.
    pub fn verify_user_role(found: Option<&User>, required_role: UserRole) -> (r: Result<
        bool,
        AppError,
    >)
        ensures
            match role_check_of(opt_user(found), required_role) {
                Ok(b) => r == Ok::<bool, AppError>(b),
                Err(e) => r is Err && r->Err_0@ == e,
            },
    {
        match found {
            Some(u) => Ok(satisfies_role(u.role, required_role)),
            None => Err(AppError::NotFound(String::from_str("User not found"))),
        }
    }
}

} // verus!
