use ezytutor::config::{parse_port, Config};
use ezytutor::errors::ErrorKind;
use ezytutor::models::{copy_opt_text, LoginRequest};
use ezytutor::text::{decimal_string, eq_ignoring_case, join_spaced, to_lower};
use ezytutor::validation::{
    has_length_within, has_max_length, has_min_length, invalid_field, is_email, is_within, report,
};

#[test]
fn well_formed_addresses_pass() {
    for address in [
        "email@here.com",
        "weirder-email@here.and.there.com",
        "email@[127.0.0.1]",
        "example@valid-with-hyphens.com",
        "a@b",
    ] {
        assert!(is_email(address), "{}", address);
    }
}

#[test]
fn malformed_addresses_fail() {
    for address in ["", "abc", "abc@", "@example.com", "a @x.cz", "a@b@c@", "email@127.0.0.1:80"] {
        assert!(!is_email(address), "{}", address);
    }
}

#[test]
fn login_request_needs_a_well_formed_address() {
    let ok = LoginRequest { email: "a@example.com".to_string(), password: String::new() };
    assert!(ok.validate().is_ok());
    let bad = LoginRequest { email: "a.example.com".to_string(), password: "x".to_string() };
    let e = bad.validate().unwrap_err();
    assert_eq!(e.kind(), ErrorKind::Validation);
    assert_eq!(e.status_code(), 400);
    assert_eq!(e.detail(), "Validation failed: email");
}

#[test]
fn lengths_count_characters_not_bytes() {
    assert!(has_length_within("ééé", 3, 3));
    assert!(!has_length_within("ééé", 4, 6));
    assert!(has_length_within("", 0, 0));
    assert!(!has_length_within("", 1, 5));
    assert!(!has_length_within("abcdef", 1, 5));
    assert!(has_min_length("ééé", 3));
    assert!(!has_min_length("ééé", 4));
    assert!(has_max_length("ééé", 3));
    assert!(!has_max_length("ééé", 2));
}

#[test]
fn ranges_include_both_ends() {
    assert!(is_within(1, 1, 5));
    assert!(is_within(5, 1, 5));
    assert!(!is_within(0, 1, 5));
    assert!(!is_within(6, 1, 5));
    assert!(!is_within(3, 5, 1));
    assert!(is_within(i32::MIN, i32::MIN, i32::MAX));
}

#[test]
fn report_names_the_offending_field() {
    assert!(report(None).is_ok());
    let e = report(Some("title")).unwrap_err();
    assert_eq!(e.kind(), ErrorKind::Validation);
    assert_eq!(e.detail(), "Validation failed: title");
    assert_eq!(invalid_field("x").detail(), "Validation failed: x");
}

#[test]
fn decimal_notation() {
    assert_eq!(decimal_string(0), "0");
    assert_eq!(decimal_string(7), "7");
    assert_eq!(decimal_string(9), "9");
    assert_eq!(decimal_string(10), "10");
    assert_eq!(decimal_string(109), "109");
    assert_eq!(decimal_string(1234567890), "1234567890");
    assert_eq!(decimal_string(u128::MAX), u128::MAX.to_string());
}

#[test]
fn names_are_joined_with_one_space() {
    assert_eq!(join_spaced("Alan", "Turing"), "Alan Turing");
    assert_eq!(join_spaced("", ""), " ");
    assert_eq!(join_spaced("Ada", ""), "Ada ");
}

#[test]
fn comparison_ignores_the_case_of_ascii_letters() {
    assert!(eq_ignoring_case("Grace@Example.COM", "grace@example.com"));
    assert!(eq_ignoring_case("", ""));
    assert!(!eq_ignoring_case("grace@example.com", "grace@example.co"));
    assert!(!eq_ignoring_case("grace@example.com", "grace@exemple.com"));
    assert!(!eq_ignoring_case("É", "é"));
    assert!(!eq_ignoring_case("[", "{"));
    assert!(!eq_ignoring_case("@", "`"));
    assert_eq!(to_lower('A'), 'a');
    assert_eq!(to_lower('Z'), 'z');
    assert_eq!(to_lower('a'), 'a');
    assert_eq!(to_lower('['), '[');
    assert_eq!(to_lower('@'), '@');
    assert_eq!(to_lower('É'), 'É');
}

#[test]
fn ports_are_decimal_numbers_up_to_65535() {
    assert_eq!(parse_port("8080"), Some(8080));
    assert_eq!(parse_port("0"), Some(0));
    assert_eq!(parse_port("65535"), Some(65535));
    assert_eq!(parse_port("+443"), Some(443));
    assert_eq!(parse_port("0080"), Some(80));
    assert_eq!(parse_port("000000000000000000000000080"), Some(80));
    for text in ["", "+", "65536", "99999999999999999999", "-1", "80 ", " 80", "8o", "++1", "８０"] {
        assert_eq!(parse_port(text), None, "{:?}", text);
        assert_eq!(parse_port(text), text.parse::<u16>().ok(), "{:?}", text);
    }
}

#[test]
fn missing_settings_take_their_defaults() {
    let config = Config::from_env(None, None, None, None, None).unwrap();
    assert_eq!(config.database_url, "postgresql://localhost/ezytutor");
    assert_eq!(config.jwt_secret, "your-secret-key-change-in-production");
    assert_eq!(config.host, "127.0.0.1");
    assert_eq!(config.port, 8080);
    assert_eq!(config.log_level, "info");
}

#[test]
fn supplied_settings_are_used() {
    let config = Config::from_env(
        Some("postgresql://db/prod".to_string()),
        Some("k3y".to_string()),
        Some("0.0.0.0".to_string()),
        Some("443".to_string()),
        Some("debug".to_string()),
    )
    .unwrap();
    assert_eq!(config.database_url, "postgresql://db/prod");
    assert_eq!(config.jwt_secret, "k3y");
    assert_eq!(config.host, "0.0.0.0");
    assert_eq!(config.port, 443);
    assert_eq!(config.log_level, "debug");
}

#[test]
fn port_that_is_no_number_is_refused() {
    let e = Config::from_env(None, None, None, Some("http".to_string()), None).unwrap_err();
    assert_eq!(e.kind(), ErrorKind::Internal);
    assert_eq!(e.detail(), "PORT is not a valid port number");
}

#[test]
fn optional_text_is_copied_as_it_is() {
    assert_eq!(copy_opt_text(&Some("note".to_string())), Some("note".to_string()));
    assert_eq!(copy_opt_text(&Some(String::new())), Some(String::new()));
    assert_eq!(copy_opt_text(&None), None);
}
