//! Accounts: the stored record, registration and login requests, and what
//! clients see of an account.

use crate::clock::{Id, Timestamp};
use crate::errors::AppError;
use crate::validation::{email_well_formed, has_min_length, is_email, report, validation_outcome};
use vstd::prelude::*;

verus! {

/// The role an account acts in.
#[derive(Clone, Copy, Debug, PartialEq, Eq, Structural)]
pub enum UserRole {
    Student,
    Tutor,
    Admin,
}

/// The lower-case tag a role is written as in tokens and in the store.
pub open spec fn role_tag(role: UserRole) -> Seq<char> {
    match role {
        UserRole::Student => "student"@,
        UserRole::Tutor => "tutor"@,
        UserRole::Admin => "admin"@,
    }
}

/// The role a tag names, if any.
pub open spec fn role_of_tag(tag: Seq<char>) -> Option<UserRole> {
    if tag == role_tag(UserRole::Student) {
        Some(UserRole::Student)
    } else if tag == role_tag(UserRole::Tutor) {
        Some(UserRole::Tutor)
    } else if tag == role_tag(UserRole::Admin) {
        Some(UserRole::Admin)
    } else {
        None
    }
}

/// Every role is recovered from its own tag.
pub proof fn lemma_role_tag_round_trip(role: UserRole)
    ensures
        role_of_tag(role_tag(role)) == Some(role),
{
    reveal_strlit("student");
    reveal_strlit("tutor");
    reveal_strlit("admin");
    assert("student"@.len() == 7);
    assert("tutor"@.len() == 5);
    assert("admin"@[0] == 'a');
    assert("tutor"@[0] == 't');
}

impl UserRole {
    /// The tag of this role.
    pub fn as_tag(self) -> (tag: &'static str)
        ensures
            tag@ == role_tag(self),
    {
        match self {
            UserRole::Student => "student",
            UserRole::Tutor => "tutor",
            UserRole::Admin => "admin",
        }
    }

    /// The role named by `tag`, if it is one of the three tags.
    pub fn from_tag(tag: &str) -> (role: Option<UserRole>)
        ensures
            role == role_of_tag(tag@),
    {
        let owned = tag.to_owned();
        if owned == "student".to_owned() {
            Some(UserRole::Student)
        } else if owned == "tutor".to_owned() {
            Some(UserRole::Tutor)
        } else if owned == "admin".to_owned() {
            Some(UserRole::Admin)
        } else {
            None
        }
    }
}

/// A stored account.
#[derive(Clone, Debug)]
pub struct User {
    pub id: Id,
    pub email: String,
    pub password_hash: String,
    pub first_name: String,
    pub last_name: String,
    pub role: UserRole,
    pub is_active: bool,
    pub created_at: Timestamp,
    pub updated_at: Timestamp,
}

/// Mathematical value of [`User`].
pub ghost struct UserView {
    pub id: Id,
    pub email: Seq<char>,
    pub password_hash: Seq<char>,
    pub first_name: Seq<char>,
    pub last_name: Seq<char>,
    pub role: UserRole,
    pub is_active: bool,
    pub created_at: Timestamp,
    pub updated_at: Timestamp,
}

impl View for User {
    type V = UserView;

    open spec fn view(&self) -> UserView {
        UserView {
            id: self.id,
            email: self.email@,
            password_hash: self.password_hash@,
            first_name: self.first_name@,
            last_name: self.last_name@,
            role: self.role,
            is_active: self.is_active,
            created_at: self.created_at,
            updated_at: self.updated_at,
        }
    }
}

/// A registration request.
#[derive(Clone, Debug)]
pub struct CreateUserRequest {
    pub email: String,
    pub password: String,
    pub first_name: String,
    pub last_name: String,
    pub role: UserRole,
}

/// Mathematical value of [`CreateUserRequest`].
pub ghost struct CreateUserRequestView {
    pub email: Seq<char>,
    pub password: Seq<char>,
    pub first_name: Seq<char>,
    pub last_name: Seq<char>,
    pub role: UserRole,
}

impl View for CreateUserRequest {
    type V = CreateUserRequestView;

    open spec fn view(&self) -> CreateUserRequestView {
        CreateUserRequestView {
            email: self.email@,
            password: self.password@,
            first_name: self.first_name@,
            last_name: self.last_name@,
            role: self.role,
        }
    }
}

impl CreateUserRequestView {
    /// The first field that breaks a rule, in declaration order: the e-mail
    /// must be well formed, the password at least 8 characters long, and
    /// both names non-empty.
    pub open spec fn first_invalid(self) -> Option<Seq<char>> {
        if !email_well_formed(self.email) {
            Some("email"@)
        } else if self.password.len() < 8 {
            Some("password"@)
        } else if self.first_name.len() < 1 {
            Some("first_name"@)
        } else if self.last_name.len() < 1 {
            Some("last_name"@)
        } else {
            None
        }
    }

    pub open spec fn valid(self) -> bool {
        self.first_invalid() is None
    }
}

impl CreateUserRequest {
    /// Checks every field rule; fails with `Validation` naming the first
    /// offending field.
    pub fn validate(&self) -> (r: Result<(), AppError>)
        ensures
            validation_outcome(self@.first_invalid(), r),
    {
        let invalid = if !is_email(self.email.as_str()) {
            Some("email")
        } else if !has_min_length(self.password.as_str(), 8) {
            Some("password")
        } else if !has_min_length(self.first_name.as_str(), 1) {
            Some("first_name")
        } else if !has_min_length(self.last_name.as_str(), 1) {
            Some("last_name")
        } else {
            None
        };
        report(invalid)
    }
}

/// A login request.
#[derive(Clone, Debug)]
pub struct LoginRequest {
    pub email: String,
    pub password: String,
}

/// Mathematical value of [`LoginRequest`].
pub ghost struct LoginRequestView {
    pub email: Seq<char>,
    pub password: Seq<char>,
}

impl View for LoginRequest {
    type V = LoginRequestView;

    open spec fn view(&self) -> LoginRequestView {
        LoginRequestView { email: self.email@, password: self.password@ }
    }
}

impl LoginRequestView {
    /// The first field that breaks a rule: the e-mail must be well formed.
    pub open spec fn first_invalid(self) -> Option<Seq<char>> {
        if !email_well_formed(self.email) {
            Some("email"@)
        } else {
            None
        }
    }

    pub open spec fn valid(self) -> bool {
        self.first_invalid() is None
    }
}

impl LoginRequest {
    /// Checks every field rule; fails with `Validation` naming the first
    /// offending field.
    pub fn validate(&self) -> (r: Result<(), AppError>)
        ensures
            validation_outcome(self@.first_invalid(), r),
    {
        let invalid = if !is_email(self.email.as_str()) {
            Some("email")
        } else {
            None
        };
        report(invalid)
    }
}

/// An account as shown to clients: everything but the password hash.
#[derive(Clone, Debug)]
pub struct UserResponse {
    pub id: Id,
    pub email: String,
    pub first_name: String,
    pub last_name: String,
    pub role: UserRole,
    pub is_active: bool,
    pub created_at: Timestamp,
}

/// Mathematical value of [`UserResponse`].
pub ghost struct UserResponseView {
    pub id: Id,
    pub email: Seq<char>,
    pub first_name: Seq<char>,
    pub last_name: Seq<char>,
    pub role: UserRole,
    pub is_active: bool,
    pub created_at: Timestamp,
}

impl View for UserResponse {
    type V = UserResponseView;

    open spec fn view(&self) -> UserResponseView {
        UserResponseView {
            id: self.id,
            email: self.email@,
            first_name: self.first_name@,
            last_name: self.last_name@,
            role: self.role,
            is_active: self.is_active,
            created_at: self.created_at,
        }
    }
}

/// The public part of an account.
pub open spec fn user_response_of(user: UserView) -> UserResponseView {
    UserResponseView {
        id: user.id,
        email: user.email,
        first_name: user.first_name,
        last_name: user.last_name,
        role: user.role,
        is_active: user.is_active,
        created_at: user.created_at,
    }
}

impl From<User> for UserResponse {
    fn from(user: User) -> (r: UserResponse) {
        UserResponse {
            id: user.id,
            email: user.email,
            first_name: user.first_name,
            last_name: user.last_name,
            role: user.role,
            is_active: user.is_active,
            created_at: user.created_at,
        }
    }
}

impl vstd::std_specs::convert::FromSpecImpl<User> for UserResponse {
    open spec fn obeys_from_spec() -> bool {
        true
    }

    open spec fn from_spec(user: User) -> UserResponse {
        UserResponse {
            id: user.id,
            email: user.email,
            first_name: user.first_name,
            last_name: user.last_name,
            role: user.role,
            is_active: user.is_active,
            created_at: user.created_at,
        }
    }
}

impl UserResponse {
    /// The public part of `user`, leaving `user` in place.
    pub fn of(user: &User) -> (r: UserResponse)
        ensures
            r@ == user_response_of(user@),
    {
        UserResponse {
            id: user.id,
            email: user.email.clone(),
            first_name: user.first_name.clone(),
            last_name: user.last_name.clone(),
            role: user.role,
            is_active: user.is_active,
            created_at: user.created_at,
        }
    }
}

/// What a successful login answers.
#[derive(Clone, Debug)]
pub struct LoginResponse {
    pub token: String,
    pub user: UserResponse,
}

/// Mathematical value of [`LoginResponse`].
pub ghost struct LoginResponseView {
    pub token: Seq<char>,
    pub user: UserResponseView,
}

impl View for LoginResponse {
    type V = LoginResponseView;

    open spec fn view(&self) -> LoginResponseView {
        LoginResponseView { token: self.token@, user: self.user@ }
    }
}

} // verus!
