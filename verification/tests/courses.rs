use ezytutor::clock::Timestamp;
use ezytutor::errors::{AppError, ErrorKind};
use ezytutor::models::{
    Course, CourseResponse, CreateCourseRequest, DifficultyLevel, UpdateCourseRequest,
};
use ezytutor::services::CourseService;
use ezytutor::update::SqlValue;

fn course_request() -> CreateCourseRequest {
    CreateCourseRequest {
        title: "Linear algebra".to_string(),
        description: "Vectors, matrices and what they do.".to_string(),
        price: 4900,
        duration_minutes: 90,
        category: "mathematics".to_string(),
        difficulty_level: DifficultyLevel::Intermediate,
    }
}

fn no_changes() -> UpdateCourseRequest {
    UpdateCourseRequest {
        title: None,
        description: None,
        price: None,
        duration_minutes: None,
        category: None,
        difficulty_level: None,
        is_active: None,
    }
}

fn stored_course() -> Course {
    CourseService::new_course(course_request(), 70, 500, Timestamp { secs: 10, nanos: 0 })
}

fn expect_error<T: std::fmt::Debug>(r: Result<T, AppError>, kind: ErrorKind, detail: &str) {
    let e = r.unwrap_err();
    assert_eq!(e.kind(), kind);
    assert_eq!(e.detail(), detail);
}

#[test]
fn tutor_creates_a_course() {
    let course = CourseService::create_course(Some(70), course_request()).unwrap();
    assert_eq!(course.tutor_id, 70);
    assert_eq!(course.title, "Linear algebra");
    assert_eq!(course.description, "Vectors, matrices and what they do.");
    assert_eq!(course.price, 4900);
    assert_eq!(course.duration_minutes, 90);
    assert_eq!(course.category, "mathematics");
    assert_eq!(course.difficulty_level, DifficultyLevel::Intermediate);
    assert!(course.is_active);
    assert_eq!(course.created_at, course.updated_at);
}

#[test]
fn course_without_a_tutor_profile_is_not_found() {
    expect_error(
        CourseService::create_course(None, course_request()),
        ErrorKind::NotFound,
        "Tutor profile not found",
    );
}

#[test]
fn course_request_rules() {
    let cases: [(fn(&mut CreateCourseRequest), Option<&str>); 12] = [
        (|r| r.title = String::new(), Some("title")),
        (|r| r.title = "x".repeat(200), None),
        (|r| r.title = "x".repeat(201), Some("title")),
        (|r| r.description = String::new(), Some("description")),
        (|r| r.description = "x".repeat(1001), Some("description")),
        (|r| r.price = -1, Some("price")),
        (|r| r.price = 0, None),
        (|r| r.duration_minutes = 14, Some("duration_minutes")),
        (|r| r.duration_minutes = 15, None),
        (|r| r.duration_minutes = 480, None),
        (|r| r.duration_minutes = 481, Some("duration_minutes")),
        (|r| r.category = String::new(), Some("category")),
    ];
    for (change, field) in cases {
        let mut r = course_request();
        change(&mut r);
        match field {
            None => assert!(r.validate().is_ok()),
            Some(f) => {
                assert_eq!(
                    r.validate().unwrap_err().detail(),
                    &format!("Validation failed: {}", f)
                );
                let mut r = course_request();
                change(&mut r);
                expect_error(
                    CourseService::create_course(None, r),
                    ErrorKind::Validation,
                    &format!("Validation failed: {}", f),
                );
            }
        }
    }
}

#[test]
fn owner_updates_a_course() {
    let mut request = no_changes();
    request.price = Some(5900);
    request.is_active = Some(false);
    let now = Timestamp { secs: 20, nanos: 0 };
    let statement = CourseService::update_course_at(500, 7, Some(7), request, now).unwrap();
    assert_eq!(
        statement.sql,
        "UPDATE courses SET price = $1, is_active = $2, updated_at = $3 WHERE id = $4"
    );
    assert!(matches!(&statement.binds[0], SqlValue::Int(5900)));
    assert!(matches!(&statement.binds[1], SqlValue::Bool(false)));
    assert!(matches!(&statement.binds[2], SqlValue::Time(t) if *t == now));
    assert!(matches!(&statement.binds[3], SqlValue::Key(500)));
    assert_eq!(statement.binds.len(), 4);
}

#[test]
fn course_update_without_fields_yields_no_statement() {
    let r = CourseService::update_course(500, 7, Some(7), no_changes());
    expect_error(r, ErrorKind::BadRequest, "No fields to update");
}

#[test]
fn foreign_course_looks_exactly_like_a_missing_one() {
    let request = || {
        let mut r = no_changes();
        r.title = Some("Mine now".to_string());
        r
    };
    let foreign = CourseService::update_course(500, 7, Some(8), request()).unwrap_err();
    let missing = CourseService::update_course(999, 7, None, request()).unwrap_err();
    assert_eq!(foreign.kind(), ErrorKind::NotFound);
    assert_eq!(missing.kind(), ErrorKind::NotFound);
    assert_eq!(foreign.detail(), missing.detail());
    assert_eq!(foreign.detail(), "Course not found or access denied");
    assert_eq!(foreign.status_code(), 404);
    assert_eq!(foreign.status_code(), missing.status_code());
    assert_eq!(foreign.error_message(), missing.error_message());
    assert_eq!(foreign.describe(), missing.describe());
}

#[test]
fn foreign_empty_update_is_still_not_found() {
    expect_error(
        CourseService::update_course(500, 7, Some(8), no_changes()),
        ErrorKind::NotFound,
        "Course not found or access denied",
    );
}

#[test]
fn invalid_course_update_is_a_validation_failure_first() {
    let cases: [(fn(&mut UpdateCourseRequest), &str); 5] = [
        (|r| r.title = Some(String::new()), "title"),
        (|r| r.description = Some("x".repeat(1001)), "description"),
        (|r| r.price = Some(-5), "price"),
        (|r| r.duration_minutes = Some(1), "duration_minutes"),
        (|r| r.category = Some(String::new()), "category"),
    ];
    for (change, field) in cases {
        let mut r = no_changes();
        change(&mut r);
        expect_error(
            CourseService::update_course(500, 7, None, r),
            ErrorKind::Validation,
            &format!("Validation failed: {}", field),
        );
    }
}

#[test]
fn deletion_that_removed_nothing_is_not_found() {
    assert!(CourseService::delete_course(1).is_ok());
    assert!(CourseService::delete_course(2).is_ok());
    expect_error(
        CourseService::delete_course(0),
        ErrorKind::NotFound,
        "Course not found or access denied",
    );
}

#[test]
fn course_lookup_maps_absence_to_not_found() {
    let found =
        CourseService::get_course_by_id(Some(stored_course()), Some("Alan Turing".to_string()))
            .unwrap();
    assert_eq!(found.id, 500);
    assert_eq!(found.tutor_name.as_deref(), Some("Alan Turing"));
    assert_eq!(found.title, "Linear algebra");
    let unnamed = CourseService::get_course_by_id(Some(stored_course()), None).unwrap();
    assert_eq!(unnamed.tutor_name, None);
    expect_error(
        CourseService::get_course_by_id(None, Some("x".to_string())),
        ErrorKind::NotFound,
        "Course not found",
    );
}

#[test]
fn tutor_name_is_first_and_last_name() {
    let name = CourseService::get_tutor_name(Some(("Alan".to_string(), "Turing".to_string())));
    assert_eq!(name.unwrap(), "Alan Turing");
    expect_error(CourseService::get_tutor_name(None), ErrorKind::NotFound, "Tutor not found");
}

#[test]
fn courses_are_listed_with_their_tutor_names() {
    let second = CourseService::new_course(course_request(), 71, 501, Timestamp::from_secs(11));
    let third = CourseService::new_course(course_request(), 72, 502, Timestamp::from_secs(12));
    let courses = vec![stored_course(), second, third];
    let names = vec![Some("Alan Turing".to_string()), None];
    let listed = CourseService::get_all_courses(&courses, &names);
    assert_eq!(listed.len(), 3);
    assert_eq!(listed[0].id, 500);
    assert_eq!(listed[0].tutor_name.as_deref(), Some("Alan Turing"));
    assert_eq!(listed[1].id, 501);
    assert_eq!(listed[1].tutor_name, None);
    assert_eq!(listed[2].id, 502);
    assert_eq!(listed[2].tutor_name, None);
    let mine = CourseService::get_courses_by_tutor(&courses, &names);
    assert_eq!(mine.len(), 3);
    assert_eq!(mine[2].tutor_id, 72);
    assert!(CourseService::get_all_courses(&Vec::new(), &names).is_empty());
}

#[test]
fn response_from_a_course_has_no_tutor_name() {
    let response = CourseResponse::from(stored_course());
    assert_eq!(response.id, 500);
    assert_eq!(response.tutor_id, 70);
    assert_eq!(response.tutor_name, None);
    assert_eq!(response.price, 4900);
    assert_eq!(response.duration_minutes, 90);
    assert_eq!(response.difficulty_level, DifficultyLevel::Intermediate);
    assert!(response.is_active);
    assert_eq!(response.created_at, Timestamp { secs: 10, nanos: 0 });
    assert_eq!(response.updated_at, Timestamp { secs: 10, nanos: 0 });
}
