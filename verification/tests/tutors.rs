use ezytutor::clock::Timestamp;
use ezytutor::errors::{AppError, ErrorKind};
use ezytutor::models::{
    CreateReviewRequest, CreateTutorProfileRequest, Rating, ReviewResponse, SearchQuery,
    TutorProfile, TutorResponse, TutorReview, UpdateTutorProfileRequest, User, UserRole,
};
use ezytutor::rating::{aggregate, rating_statement, RatingSummary};
use ezytutor::services::tutor::ReviewRow;
use ezytutor::services::TutorService;
use ezytutor::token::Claims;
use ezytutor::update::{SqlValue, UpdateStatement};

fn account(id: u128, role: UserRole) -> User {
    User {
        id,
        email: format!("user{}@example.com", id),
        password_hash: "digest".to_string(),
        first_name: "Alan".to_string(),
        last_name: "Turing".to_string(),
        role,
        is_active: true,
        created_at: Timestamp { secs: 1, nanos: 0 },
        updated_at: Timestamp { secs: 1, nanos: 0 },
    }
}

fn claims(id: u128, role: &str) -> Claims {
    Claims { sub: id, email: format!("user{}@example.com", id), role: role.to_string(), exp: 0 }
}

fn long_bio() -> String {
    "I have taught mathematics at every level for many years.".to_string()
}

fn profile_request() -> CreateTutorProfileRequest {
    CreateTutorProfileRequest {
        bio: long_bio(),
        specializations: vec!["algebra".to_string(), "logic".to_string()],
        hourly_rate: 2500,
        years_experience: 12,
    }
}

fn no_changes() -> UpdateTutorProfileRequest {
    UpdateTutorProfileRequest {
        bio: None,
        specializations: None,
        hourly_rate: None,
        years_experience: None,
        is_available: None,
    }
}

fn review_request(rating: i32) -> CreateReviewRequest {
    CreateReviewRequest { rating, comment: Some("clear and patient".to_string()) }
}

fn expect_error<T: std::fmt::Debug>(r: Result<T, AppError>, kind: ErrorKind, detail: &str) {
    let e = r.unwrap_err();
    assert_eq!(e.kind(), kind);
    assert_eq!(e.detail(), detail);
}

/// Runs a statement on a profile the way the store would: the n-th
/// placeholder takes the n-th bound value.
fn run(statement: &UpdateStatement, profile: &mut TutorProfile) {
    let sql = statement.sql.as_str();
    let body = sql.strip_prefix("UPDATE tutors SET ").unwrap();
    let (assignments, condition) = body.split_once(" WHERE ").unwrap();
    let (key_column, key_slot) = condition.split_once(" = $").unwrap();
    assert_eq!(key_column, "user_id");
    let key_slot: usize = key_slot.parse().unwrap();
    assert_eq!(key_slot, statement.binds.len());
    match &statement.binds[key_slot - 1] {
        SqlValue::Key(k) => assert_eq!(*k, profile.user_id),
        other => panic!("unexpected key: {:?}", other),
    }
    for (n, clause) in assignments.split(", ").enumerate() {
        let (column, slot) = clause.split_once(" = $").unwrap();
        let slot: usize = slot.parse().unwrap();
        assert_eq!(slot, n + 1);
        match (column, &statement.binds[slot - 1]) {
            ("bio", SqlValue::Text(t)) => profile.bio = t.clone(),
            ("specializations", SqlValue::TextList(l)) => profile.specializations = l.clone(),
            ("hourly_rate", SqlValue::Int(i)) => profile.hourly_rate = *i,
            ("years_experience", SqlValue::Int(i)) => profile.years_experience = *i,
            ("is_available", SqlValue::Bool(b)) => profile.is_available = *b,
            ("updated_at", SqlValue::Time(t)) => profile.updated_at = *t,
            other => panic!("unexpected assignment: {:?}", other),
        }
    }
}

fn stored_profile() -> TutorProfile {
    TutorService::new_profile(profile_request(), 7, 70, Timestamp { secs: 100, nanos: 0 })
}

#[test]
fn tutor_creates_a_profile() {
    let tutor = account(7, UserRole::Tutor);
    let profile =
        TutorService::create_tutor_profile(Some(&tutor), false, profile_request()).unwrap();
    assert_eq!(profile.user_id, 7);
    assert_eq!(profile.bio, long_bio());
    assert_eq!(profile.specializations, vec!["algebra".to_string(), "logic".to_string()]);
    assert_eq!(profile.hourly_rate, 2500);
    assert_eq!(profile.years_experience, 12);
    assert_eq!(profile.rating, None);
    assert_eq!(profile.total_reviews, 0);
    assert!(!profile.is_verified);
    assert!(profile.is_available);
    assert_eq!(profile.created_at, profile.updated_at);
    let response = TutorResponse::of(&profile, &tutor);
    assert_eq!(response.id, profile.id);
    assert_eq!(response.first_name, "Alan");
    assert_eq!(response.last_name, "Turing");
    assert_eq!(response.email, "user7@example.com");
    assert_eq!(response.specializations, profile.specializations);
    assert_eq!(response.rating, None);
}

#[test]
fn admin_may_create_a_profile_but_a_student_may_not() {
    let admin = account(1, UserRole::Admin);
    assert!(TutorService::create_tutor_profile(Some(&admin), false, profile_request()).is_ok());
    let student = account(2, UserRole::Student);
    let refused = TutorService::create_tutor_profile(Some(&student), false, profile_request());
    let e = refused.unwrap_err();
    assert_eq!(e.kind(), ErrorKind::Authorization);
    assert_eq!(e.status_code(), 403);
    assert_eq!(e.detail(), "Only tutors can create tutor profiles");
}

#[test]
fn profile_creation_failures_come_in_order() {
    let tutor = account(7, UserRole::Tutor);
    let student = account(8, UserRole::Student);
    let mut invalid = profile_request();
    invalid.bio = "too short".to_string();
    expect_error(
        TutorService::create_tutor_profile(None, true, invalid),
        ErrorKind::Validation,
        "Validation failed: bio",
    );
    expect_error(
        TutorService::create_tutor_profile(None, true, profile_request()),
        ErrorKind::NotFound,
        "User not found",
    );
    expect_error(
        TutorService::create_tutor_profile(Some(&student), true, profile_request()),
        ErrorKind::Authorization,
        "Only tutors can create tutor profiles",
    );
    expect_error(
        TutorService::create_tutor_profile(Some(&tutor), true, profile_request()),
        ErrorKind::BadRequest,
        "Tutor profile already exists",
    );
}

#[test]
fn profile_request_rules() {
    let cases: [(fn(&mut CreateTutorProfileRequest), Option<&str>); 8] = [
        (|r| r.bio = "x".repeat(49), Some("bio")),
        (|r| r.bio = "x".repeat(50), None),
        (|r| r.bio = "x".repeat(1000), None),
        (|r| r.bio = "x".repeat(1001), Some("bio")),
        (|r| r.hourly_rate = 999, Some("hourly_rate")),
        (|r| r.hourly_rate = 50000, None),
        (|r| r.years_experience = -1, Some("years_experience")),
        (|r| r.years_experience = 51, Some("years_experience")),
    ];
    for (change, field) in cases {
        let mut r = profile_request();
        change(&mut r);
        match field {
            None => assert!(r.validate().is_ok()),
            Some(f) => assert_eq!(
                r.validate().unwrap_err().detail(),
                &format!("Validation failed: {}", f)
            ),
        }
    }
}

#[test]
fn partial_update_with_bio_only_changes_bio_and_time() {
    let mut profile = stored_profile();
    let new_bio = "A new biography that is comfortably longer than fifty characters.";
    let mut request = no_changes();
    request.bio = Some(new_bio.to_string());
    let now = Timestamp { secs: 200, nanos: 9 };
    let statement = TutorService::update_tutor_profile_at(7, Some(70), request, now).unwrap();
    assert_eq!(statement.sql, "UPDATE tutors SET bio = $1, updated_at = $2 WHERE user_id = $3");
    run(&statement, &mut profile);
    let before = stored_profile();
    assert_eq!(profile.bio, new_bio);
    assert_eq!(profile.updated_at, now);
    assert_eq!(profile.id, before.id);
    assert_eq!(profile.user_id, before.user_id);
    assert_eq!(profile.specializations, before.specializations);
    assert_eq!(profile.hourly_rate, before.hourly_rate);
    assert_eq!(profile.years_experience, before.years_experience);
    assert_eq!(profile.is_available, before.is_available);
    assert_eq!(profile.is_verified, before.is_verified);
    assert_eq!(profile.rating, before.rating);
    assert_eq!(profile.total_reviews, before.total_reviews);
    assert_eq!(profile.created_at, before.created_at);
}

#[test]
fn partial_update_with_several_fields_binds_them_in_order() {
    let mut profile = stored_profile();
    let request = UpdateTutorProfileRequest {
        bio: None,
        specializations: Some(vec!["topology".to_string()]),
        hourly_rate: Some(4000),
        years_experience: None,
        is_available: Some(false),
    };
    let now = Timestamp { secs: 300, nanos: 0 };
    let statement = TutorService::update_tutor_profile_at(7, Some(70), request, now).unwrap();
    assert_eq!(
        statement.sql,
        "UPDATE tutors SET specializations = $1, hourly_rate = $2, is_available = $3, \
         updated_at = $4 WHERE user_id = $5"
    );
    run(&statement, &mut profile);
    assert_eq!(profile.specializations, vec!["topology".to_string()]);
    assert_eq!(profile.hourly_rate, 4000);
    assert!(!profile.is_available);
    assert_eq!(profile.bio, long_bio());
    assert_eq!(profile.years_experience, 12);
    assert_eq!(profile.updated_at, now);
}

#[test]
fn profile_update_without_fields_yields_no_statement() {
    let now = Timestamp { secs: 300, nanos: 0 };
    expect_error(
        TutorService::update_tutor_profile_at(7, Some(70), no_changes(), now),
        ErrorKind::BadRequest,
        "No fields to update",
    );
    expect_error(
        TutorService::update_tutor_profile(7, Some(70), no_changes()),
        ErrorKind::BadRequest,
        "No fields to update",
    );
}

#[test]
fn profile_update_without_a_profile_is_not_found() {
    let mut request = no_changes();
    request.hourly_rate = Some(3000);
    expect_error(
        TutorService::update_tutor_profile(7, None, request),
        ErrorKind::NotFound,
        "Tutor profile not found",
    );
    expect_error(
        TutorService::update_tutor_profile(7, None, no_changes()),
        ErrorKind::NotFound,
        "Tutor profile not found",
    );
}

#[test]
fn invalid_profile_update_is_a_validation_failure_first() {
    let mut request = no_changes();
    request.hourly_rate = Some(5);
    expect_error(
        TutorService::update_tutor_profile(7, None, request),
        ErrorKind::Validation,
        "Validation failed: hourly_rate",
    );
    let mut request = no_changes();
    request.bio = Some("short".to_string());
    request.years_experience = Some(90);
    expect_error(
        TutorService::update_tutor_profile(7, Some(70), request),
        ErrorKind::Validation,
        "Validation failed: bio",
    );
}

#[test]
fn profile_update_is_stamped_with_a_current_time() {
    let mut request = no_changes();
    request.is_available = Some(false);
    let statement = TutorService::update_tutor_profile(7, Some(70), request).unwrap();
    match &statement.binds[1] {
        SqlValue::Time(t) => assert!(t.secs > 1_600_000_000),
        other => panic!("unexpected: {:?}", other),
    }
}

#[test]
fn student_reviews_a_tutor() {
    let review =
        TutorService::create_review(70, &claims(9, "student"), true, false, review_request(5))
            .unwrap();
    assert_eq!(review.tutor_id, 70);
    assert_eq!(review.student_id, 9);
    assert_eq!(review.rating, 5);
    assert_eq!(review.comment.as_deref(), Some("clear and patient"));
    let response = ReviewResponse::of(&review, "Emmy", "Noether");
    assert_eq!(response.id, review.id);
    assert_eq!(response.tutor_id, 70);
    assert_eq!(response.student_name, "Emmy Noether");
    assert_eq!(response.rating, 5);
    assert_eq!(response.comment.as_deref(), Some("clear and patient"));
    assert_eq!(response.created_at, review.created_at);
}

#[test]
fn only_students_may_review() {
    for role in ["tutor", "admin", "Student", ""] {
        expect_error(
            TutorService::create_review(70, &claims(9, role), true, false, review_request(5)),
            ErrorKind::Authorization,
            "Only students can review tutors",
        );
    }
}

#[test]
fn review_failures_come_in_order() {
    let student = claims(9, "student");
    expect_error(
        TutorService::create_review(70, &claims(9, "tutor"), false, true, review_request(0)),
        ErrorKind::Authorization,
        "Only students can review tutors",
    );
    expect_error(
        TutorService::create_review(70, &student, false, true, review_request(0)),
        ErrorKind::Validation,
        "Validation failed: rating",
    );
    expect_error(
        TutorService::create_review(70, &student, false, true, review_request(3)),
        ErrorKind::NotFound,
        "Tutor not found",
    );
    expect_error(
        TutorService::create_review(70, &student, true, true, review_request(3)),
        ErrorKind::BadRequest,
        "Review already exists for this tutor",
    );
}

#[test]
fn review_request_rules() {
    for rating in [i32::MIN, -1, 0, 6, i32::MAX] {
        assert_eq!(
            review_request(rating).validate().unwrap_err().detail(),
            "Validation failed: rating"
        );
    }
    for rating in 1..=5 {
        assert!(review_request(rating).validate().is_ok());
    }
    let mut long = review_request(4);
    long.comment = Some("x".repeat(500));
    assert!(long.validate().is_ok());
    long.comment = Some("x".repeat(501));
    assert_eq!(long.validate().unwrap_err().detail(), "Validation failed: comment");
    long.comment = None;
    assert!(long.validate().is_ok());
}

/// A store of reviews and one tutor profile, written only through what the
/// service answers.
struct Reviews {
    profile: TutorProfile,
    rows: Vec<TutorReview>,
}

fn submit(store: &mut Reviews, student: &Claims, rating: i32) -> Result<(), AppError> {
    let tutor = store.profile.id;
    let seen = store.rows.iter().any(|r| r.tutor_id == tutor && r.student_id == student.sub);
    let review = TutorService::create_review(tutor, student, true, seen, review_request(rating))?;
    store.rows.push(review);
    let ratings: Vec<i32> =
        store.rows.iter().filter(|r| r.tutor_id == tutor).map(|r| r.rating).collect();
    let summary = TutorService::update_tutor_rating(&ratings);
    store.profile.rating = summary.rating;
    store.profile.total_reviews = summary.total_reviews as i32;
    Ok(())
}

fn mean(rating: Option<Rating>) -> Option<f64> {
    rating.map(|r| r.total as f64 / r.count as f64)
}

#[test]
fn ratings_five_and_four_average_four_and_a_half() {
    let mut store = Reviews { profile: stored_profile(), rows: Vec::new() };
    assert_eq!(store.profile.rating, None);
    submit(&mut store, &claims(1, "student"), 5).unwrap();
    submit(&mut store, &claims(2, "student"), 4).unwrap();
    assert_eq!(store.profile.rating, Some(Rating { total: 9, count: 2 }));
    assert_eq!(mean(store.profile.rating), Some(4.5));
    assert_eq!(store.profile.total_reviews, 2);
    submit(&mut store, &claims(3, "student"), 3).unwrap();
    assert_eq!(store.profile.rating, Some(Rating { total: 12, count: 3 }));
    assert_eq!(mean(store.profile.rating), Some(4.0));
    assert_eq!(store.profile.total_reviews, 3);
}

#[test]
fn second_review_by_one_student_fails_and_keeps_the_aggregate() {
    let mut store = Reviews { profile: stored_profile(), rows: Vec::new() };
    let student = claims(1, "student");
    submit(&mut store, &student, 5).unwrap();
    submit(&mut store, &claims(2, "student"), 2).unwrap();
    let rating = store.profile.rating;
    let count = store.profile.total_reviews;
    expect_error(
        submit(&mut store, &student, 1),
        ErrorKind::BadRequest,
        "Review already exists for this tutor",
    );
    assert_eq!(store.rows.len(), 2);
    assert_eq!(store.profile.rating, rating);
    assert_eq!(store.profile.total_reviews, count);
    assert_eq!(store.profile.rating, Some(Rating { total: 7, count: 2 }));
}

#[test]
fn aggregate_of_no_ratings_has_no_mean() {
    assert_eq!(aggregate(&Vec::new()), RatingSummary { rating: None, total_reviews: 0 });
}

#[test]
fn aggregate_sums_and_counts() {
    assert_eq!(
        aggregate(&vec![3]),
        RatingSummary { rating: Some(Rating { total: 3, count: 1 }), total_reviews: 1 }
    );
    assert_eq!(
        aggregate(&vec![1, 2, 3, 4, 5, 5]),
        RatingSummary { rating: Some(Rating { total: 20, count: 6 }), total_reviews: 6 }
    );
    assert_eq!(
        aggregate(&vec![i32::MAX, i32::MAX, i32::MIN]),
        RatingSummary {
            rating: Some(Rating { total: i32::MAX as i128 - 1, count: 3 }),
            total_reviews: 3
        }
    );
}

#[test]
fn rating_write_replaces_rating_and_count() {
    let summary = aggregate(&vec![5, 4]);
    let now = Timestamp { secs: 50, nanos: 0 };
    let statement = rating_statement(summary, 70, now);
    assert_eq!(
        statement.sql,
        "UPDATE tutors SET rating = $1, total_reviews = $2, updated_at = $3 WHERE id = $4"
    );
    assert_eq!(statement.binds.len(), 4);
    assert!(matches!(
        &statement.binds[0],
        SqlValue::Average(Some(Rating { total: 9, count: 2 }))
    ));
    assert!(matches!(&statement.binds[1], SqlValue::Count(2)));
    assert!(matches!(&statement.binds[2], SqlValue::Time(t) if *t == now));
    assert!(matches!(&statement.binds[3], SqlValue::Key(70)));
    let empty = rating_statement(aggregate(&Vec::new()), 70, now);
    assert!(matches!(&empty.binds[0], SqlValue::Average(None)));
    assert!(matches!(&empty.binds[1], SqlValue::Count(0)));
}

#[test]
fn reviews_are_listed_with_student_names() {
    let review = |id: u128, rating: i32| {
        TutorService::new_review(
            CreateReviewRequest { rating, comment: None },
            70,
            id,
            id + 100,
            Timestamp { secs: id as i64, nanos: 0 },
        )
    };
    let rows = vec![
        ReviewRow {
            review: review(1, 5),
            first_name: "Emmy".to_string(),
            last_name: "Noether".to_string(),
        },
        ReviewRow {
            review: review(2, 3),
            first_name: "Sofia".to_string(),
            last_name: "Kovalevskaya".to_string(),
        },
    ];
    let listed = TutorService::get_tutor_reviews(&rows);
    assert_eq!(listed.len(), 2);
    assert_eq!(listed[0].id, 101);
    assert_eq!(listed[0].student_name, "Emmy Noether");
    assert_eq!(listed[0].rating, 5);
    assert_eq!(listed[1].id, 102);
    assert_eq!(listed[1].student_name, "Sofia Kovalevskaya");
    assert_eq!(listed[1].comment, None);
    assert!(TutorService::get_tutor_reviews(&Vec::new()).is_empty());
}

#[test]
fn tutor_lookup_maps_absence_to_not_found() {
    let tutor = account(7, UserRole::Tutor);
    let response = TutorResponse::of(&stored_profile(), &tutor);
    assert_eq!(TutorService::get_tutor_by_id(Some(response)).unwrap().id, 70);
    expect_error(TutorService::get_tutor_by_id(None), ErrorKind::NotFound, "Tutor not found");
}

fn directory() -> Vec<TutorResponse> {
    let entry = |id: u128, specializations: &[&str], available: bool| {
        let mut profile =
            TutorService::new_profile(profile_request(), id, id * 10, Timestamp::from_secs(0));
        profile.specializations = specializations.iter().map(|s| s.to_string()).collect();
        profile.is_available = available;
        TutorResponse::of(&profile, &account(id, UserRole::Tutor))
    };
    vec![
        entry(1, &["algebra", "logic"], true),
        entry(2, &["logic"], false),
        entry(3, &[], true),
        entry(4, &["topology", "algebra"], true),
        entry(5, &["Algebra"], true),
    ]
}

fn ids(tutors: &[TutorResponse]) -> Vec<u128> {
    tutors.iter().map(|t| t.id).collect()
}

#[test]
fn directory_shows_available_tutors_in_order() {
    assert_eq!(ids(&TutorService::get_all_tutors(&directory())), vec![10, 30, 40, 50]);
    assert!(TutorService::get_all_tutors(&Vec::new()).is_empty());
}

#[test]
fn search_keeps_available_tutors_with_the_specialization() {
    let found = TutorService::search_tutors_by_specialization(&directory(), "algebra");
    assert_eq!(ids(&found), vec![10, 40]);
    assert_eq!(found[1].specializations, vec!["topology".to_string(), "algebra".to_string()]);
    assert_eq!(found[0].first_name, "Alan");
    assert_eq!(found[0].email, "user1@example.com");
    let logic = TutorService::search_tutors_by_specialization(&directory(), "logic");
    assert_eq!(ids(&logic), vec![10]);
    assert!(TutorService::search_tutors_by_specialization(&directory(), "chemistry").is_empty());
    assert!(TutorService::search_tutors_by_specialization(&directory(), "").is_empty());
}

#[test]
fn listing_rule_for_one_tutor() {
    let tutors = directory();
    let all = SearchQuery { specialization: None };
    let logic = SearchQuery { specialization: Some("logic".to_string()) };
    assert!(tutors[0].is_listed(&all));
    assert!(tutors[0].is_listed(&logic));
    assert!(!tutors[1].is_listed(&all));
    assert!(!tutors[1].is_listed(&logic));
    assert!(tutors[2].is_listed(&all));
    assert!(!tutors[2].is_listed(&logic));
    assert!(tutors[1].has_specialization(&"logic".to_string()));
    assert!(!tutors[3].has_specialization(&"logic".to_string()));
    let copy = tutors[3].duplicate();
    assert_eq!(copy.id, 40);
    assert_eq!(copy.specializations, tutors[3].specializations);
    assert_eq!(copy.bio, tutors[3].bio);
}
