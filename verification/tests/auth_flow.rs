use ezytutor::clock::Timestamp;
use ezytutor::errors::{AppError, ErrorKind};
use ezytutor::middleware::jwt_middleware;
use ezytutor::models::{CreateUserRequest, LoginRequest, User, UserResponse, UserRole};
use ezytutor::password::{PasswordHasher, MIN_COST};
use ezytutor::services::AuthService;
use ezytutor::token::validate_token;

const SECRET: &str = "an-overridden-signing-key";

fn hasher() -> PasswordHasher {
    PasswordHasher::new(MIN_COST)
}

fn request(email: &str, role: UserRole) -> CreateUserRequest {
    CreateUserRequest {
        email: email.to_string(),
        password: "s3cret-pass".to_string(),
        first_name: "Grace".to_string(),
        last_name: "Hopper".to_string(),
        role,
    }
}

fn login(email: &str, password: &str) -> LoginRequest {
    LoginRequest { email: email.to_string(), password: password.to_string() }
}

fn find<'a>(accounts: &'a Vec<User>, email: &str) -> Option<&'a User> {
    AuthService::find_by_email(accounts, email).map(|i| &accounts[i])
}

fn register(accounts: &mut Vec<User>, r: CreateUserRequest) -> Result<UserResponse, AppError> {
    let taken = find(accounts, &r.email).is_some();
    let account = AuthService::register_user(&hasher(), r, taken)?;
    let response = UserResponse::of(&account);
    accounts.push(account);
    Ok(response)
}

fn expect_error<T: std::fmt::Debug>(r: Result<T, AppError>, kind: ErrorKind, detail: &str) {
    let e = r.unwrap_err();
    assert_eq!(e.kind(), kind);
    assert_eq!(e.detail(), detail);
}

#[test]
fn registration_stores_the_request_with_a_digest() {
    let account = AuthService::register_user(
        &hasher(),
        request("grace@example.com", UserRole::Tutor),
        false,
    )
    .unwrap();
    assert_eq!(account.email, "grace@example.com");
    assert_eq!(account.first_name, "Grace");
    assert_eq!(account.last_name, "Hopper");
    assert_eq!(account.role, UserRole::Tutor);
    assert!(account.is_active);
    assert_eq!(account.created_at, account.updated_at);
    assert!(account.created_at.secs >= 0);
    assert_eq!(PasswordHasher::cost_of(&account.password_hash), Some(MIN_COST));
    assert_ne!(account.password_hash, "s3cret-pass");
    assert!(hasher().verify("s3cret-pass", &account.password_hash));
}

#[test]
fn registrations_get_distinct_identifiers() {
    let a = AuthService::register_user(&hasher(), request("a@example.com", UserRole::Student), false)
        .unwrap();
    let b = AuthService::register_user(&hasher(), request("b@example.com", UserRole::Student), false)
        .unwrap();
    assert_ne!(a.id, b.id);
}

#[test]
fn new_account_is_built_from_its_parts() {
    let now = Timestamp { secs: 12, nanos: 34 };
    let account = AuthService::new_account(
        request("grace@example.com", UserRole::Admin),
        "digest".to_string(),
        9,
        now,
    );
    assert_eq!(account.id, 9);
    assert_eq!(account.password_hash, "digest");
    assert_eq!(account.role, UserRole::Admin);
    assert_eq!(account.created_at, now);
    assert_eq!(account.updated_at, now);
    assert!(account.is_active);
}

#[test]
fn register_then_login_yields_a_token_for_the_account() {
    for role in [UserRole::Student, UserRole::Tutor, UserRole::Admin] {
        let mut accounts = Vec::new();
        let created = register(&mut accounts, request("grace@example.com", role)).unwrap();
        let attempt = login("grace@example.com", "s3cret-pass");
        let stored = find(&accounts, &attempt.email);
        let response = AuthService::login_user(&hasher(), &attempt, stored, SECRET).unwrap();
        assert_eq!(response.user.id, created.id);
        assert_eq!(response.user.email, "grace@example.com");
        let claims = jwt_middleware(&response.token, SECRET).unwrap();
        assert_eq!(claims.sub, created.id);
        assert_eq!(claims.email, "grace@example.com");
        assert_eq!(claims.user_role(), Some(role));
        assert_eq!(claims.role, role.as_tag());
    }
}

#[test]
fn login_token_lasts_24_hours_from_issue() {
    let mut accounts = Vec::new();
    register(&mut accounts, request("grace@example.com", UserRole::Student)).unwrap();
    let attempt = login("grace@example.com", "s3cret-pass");
    let issued = Timestamp { secs: 1_000, nanos: 0 };
    let response =
        AuthService::login_at(&hasher(), &attempt, find(&accounts, &attempt.email), SECRET, issued)
            .unwrap();
    let at_expiry = Timestamp { secs: 1_000 + 86_400, nanos: 0 };
    let claims = validate_token(&response.token, SECRET, at_expiry).unwrap();
    assert_eq!(claims.exp, 87_400);
    let past = Timestamp { secs: 1_000 + 86_401, nanos: 0 };
    expect_error(
        validate_token(&response.token, SECRET, past),
        ErrorKind::Authentication,
        "Invalid or expired token",
    );
}

#[test]
fn registering_twice_with_the_same_email_fails() {
    let mut accounts = Vec::new();
    register(&mut accounts, request("grace@example.com", UserRole::Student)).unwrap();
    let second = register(&mut accounts, request("grace@example.com", UserRole::Tutor));
    expect_error(second, ErrorKind::BadRequest, "User with this email already exists");
    assert_eq!(accounts.len(), 1);
}

#[test]
fn email_uniqueness_ignores_case() {
    let mut accounts = Vec::new();
    register(&mut accounts, request("grace@example.com", UserRole::Student)).unwrap();
    let second = register(&mut accounts, request("Grace@Example.COM", UserRole::Student));
    expect_error(second, ErrorKind::BadRequest, "User with this email already exists");
    assert!(register(&mut accounts, request("grace2@example.com", UserRole::Student)).is_ok());
    assert_eq!(accounts.len(), 2);
}

#[test]
fn invalid_registration_names_the_first_offending_field() {
    let cases: [(fn(&mut CreateUserRequest), &str); 4] = [
        (|r| r.email = "not-an-address".to_string(), "Validation failed: email"),
        (|r| r.password = "short".to_string(), "Validation failed: password"),
        (|r| r.first_name = String::new(), "Validation failed: first_name"),
        (|r| r.last_name = String::new(), "Validation failed: last_name"),
    ];
    for (spoil, detail) in cases {
        let mut r = request("grace@example.com", UserRole::Student);
        spoil(&mut r);
        expect_error(
            AuthService::register_user(&hasher(), r, false),
            ErrorKind::Validation,
            detail,
        );
    }
    let mut both = request("nope", UserRole::Student);
    both.password = "x".to_string();
    expect_error(
        AuthService::register_user(&hasher(), both, true),
        ErrorKind::Validation,
        "Validation failed: email",
    );
}

#[test]
fn password_of_exactly_eight_characters_is_accepted() {
    let mut r = request("grace@example.com", UserRole::Student);
    r.password = "éééééééé".to_string();
    assert!(r.validate().is_ok());
    r.password = "ééééééé".to_string();
    assert!(r.validate().is_err());
}

#[test]
fn hashing_failure_is_internal() {
    let r = AuthService::register_user(
        &PasswordHasher::new(99),
        request("grace@example.com", UserRole::Student),
        false,
    );
    assert_eq!(r.unwrap_err().kind(), ErrorKind::Internal);
}

#[test]
fn login_with_unknown_address_fails() {
    expect_error(
        AuthService::login_user(&hasher(), &login("who@example.com", "whatever"), None, SECRET),
        ErrorKind::Authentication,
        "Invalid email or password",
    );
}

#[test]
fn login_with_wrong_password_fails_like_unknown_address() {
    let mut accounts = Vec::new();
    register(&mut accounts, request("grace@example.com", UserRole::Student)).unwrap();
    let attempt = login("grace@example.com", "wrong-pass");
    expect_error(
        AuthService::login_user(&hasher(), &attempt, find(&accounts, &attempt.email), SECRET),
        ErrorKind::Authentication,
        "Invalid email or password",
    );
}

#[test]
fn login_to_deactivated_account_fails() {
    let mut accounts = Vec::new();
    register(&mut accounts, request("grace@example.com", UserRole::Student)).unwrap();
    accounts[0].is_active = false;
    let attempt = login("grace@example.com", "s3cret-pass");
    expect_error(
        AuthService::login_user(&hasher(), &attempt, find(&accounts, &attempt.email), SECRET),
        ErrorKind::Authentication,
        "Account is deactivated",
    );
}

#[test]
fn login_with_corrupt_stored_digest_is_a_plain_rejection() {
    let mut accounts = Vec::new();
    register(&mut accounts, request("grace@example.com", UserRole::Student)).unwrap();
    accounts[0].password_hash = "garbage".to_string();
    let attempt = login("grace@example.com", "s3cret-pass");
    expect_error(
        AuthService::login_user(&hasher(), &attempt, find(&accounts, &attempt.email), SECRET),
        ErrorKind::Authentication,
        "Invalid email or password",
    );
}

#[test]
fn login_with_malformed_address_is_a_validation_failure() {
    expect_error(
        AuthService::login_user(&hasher(), &login("nope", "s3cret-pass"), None, SECRET),
        ErrorKind::Validation,
        "Validation failed: email",
    );
}

#[test]
fn role_check_lets_admin_through_everywhere() {
    let mut accounts = Vec::new();
    register(&mut accounts, request("root@example.com", UserRole::Admin)).unwrap();
    register(&mut accounts, request("tutor@example.com", UserRole::Tutor)).unwrap();
    let admin = &accounts[0];
    let tutor = &accounts[1];
    for required in [UserRole::Student, UserRole::Tutor, UserRole::Admin] {
        assert_eq!(AuthService::verify_user_role(Some(admin), required).unwrap(), true);
    }
    assert_eq!(AuthService::verify_user_role(Some(tutor), UserRole::Tutor).unwrap(), true);
    assert_eq!(AuthService::verify_user_role(Some(tutor), UserRole::Student).unwrap(), false);
    assert_eq!(AuthService::verify_user_role(Some(tutor), UserRole::Admin).unwrap(), false);
    expect_error(
        AuthService::verify_user_role(None, UserRole::Student),
        ErrorKind::NotFound,
        "User not found",
    );
}

#[test]
fn account_lookup_maps_absence_to_not_found() {
    let account = AuthService::new_account(
        request("grace@example.com", UserRole::Student),
        "d".to_string(),
        5,
        Timestamp { secs: 0, nanos: 0 },
    );
    assert_eq!(AuthService::get_user_by_id(Some(account)).unwrap().id, 5);
    let missing = AuthService::get_user_by_id(None).unwrap_err();
    assert_eq!(missing.kind(), ErrorKind::NotFound);
    assert_eq!(missing.status_code(), 404);
    assert_eq!(missing.detail(), "User not found");
}

#[test]
fn public_part_of_an_account_omits_the_digest() {
    let now = Timestamp { secs: 3, nanos: 4 };
    let account = AuthService::new_account(
        request("grace@example.com", UserRole::Tutor),
        "digest".to_string(),
        5,
        now,
    );
    let by_ref = UserResponse::of(&account);
    let by_value = UserResponse::from(account);
    for r in [&by_ref, &by_value] {
        assert_eq!(r.id, 5);
        assert_eq!(r.email, "grace@example.com");
        assert_eq!(r.first_name, "Grace");
        assert_eq!(r.last_name, "Hopper");
        assert_eq!(r.role, UserRole::Tutor);
        assert!(r.is_active);
        assert_eq!(r.created_at, now);
    }
}

#[test]
fn lookup_by_address_finds_the_first_match_ignoring_case() {
    let mut accounts = Vec::new();
    for email in ["ada@example.com", "Grace@Example.com", "grace@example.com"] {
        accounts.push(AuthService::new_account(
            request(email, UserRole::Student),
            "d".to_string(),
            accounts.len() as u128,
            Timestamp { secs: 0, nanos: 0 },
        ));
    }
    assert_eq!(AuthService::find_by_email(&accounts, "ada@example.com"), Some(0));
    assert_eq!(AuthService::find_by_email(&accounts, "GRACE@EXAMPLE.COM"), Some(1));
    assert_eq!(AuthService::find_by_email(&accounts, "grace@example.com"), Some(1));
    assert_eq!(AuthService::find_by_email(&accounts, "grace@example.org"), None);
    assert_eq!(AuthService::find_by_email(&accounts, ""), None);
    assert_eq!(AuthService::find_by_email(&Vec::new(), "ada@example.com"), None);
}

#[test]
fn login_on_valid_credentials_always_succeeds() {
    let mut accounts = Vec::new();
    register(&mut accounts, request("grace@example.com", UserRole::Tutor)).unwrap();
    let attempt = login("GRACE@example.com", "s3cret-pass");
    for _ in 0..3 {
        let stored = find(&accounts, &attempt.email);
        let response = AuthService::login_user(&hasher(), &attempt, stored, SECRET).unwrap();
        assert_eq!(response.user.id, accounts[0].id);
        assert_eq!(response.user.role, UserRole::Tutor);
        assert!(response.user.is_active);
    }
    let epoch = Timestamp { secs: 0, nanos: 0 };
    let stored = find(&accounts, &attempt.email);
    assert!(AuthService::login_at(&hasher(), &attempt, stored, SECRET, epoch).is_ok());
}
