//! Creating, reading, updating and deleting courses.

use crate::clock::{current_time, fresh_id, Id, Timestamp};
use crate::errors::{AppError, AppErrorView, ErrorKind};
use crate::models::{
    copy_opt_text, course_response_of, opt_text, Course, CourseResponse, CourseView,
    CreateCourseRequest, CreateCourseRequestView, UpdateCourseRequest, UpdateCourseRequestView,
};
use crate::policy::{is_owner, not_found, require_owner};
use crate::text::{join_spaced, spaced};
use crate::update::{
    course_changes, course_update, lemma_course_changes_empty, no_fields_failure, statement_for,
    statement_result, Table, UpdateStatement, UpdateStatementView,
};
use crate::validation::validation_failure;
use vstd::prelude::*;
use vstd::string::*;

verus! {

/// Namespace of the course operations.
pub struct CourseService;

/// The failure for a caller without a tutor profile.
pub open spec fn tutor_profile_missing() -> AppErrorView {
    not_found("Tutor profile not found"@)
}

/// The failure for a course that does not exist.
pub open spec fn course_missing() -> AppErrorView {
    not_found("Course not found"@)
}

/// The failure for a course that does not exist or is not the caller's.
pub open spec fn course_denied() -> AppErrorView {
    not_found("Course not found or access denied"@)
}

/// The failure for a tutor that does not exist.
pub open spec fn tutor_missing() -> AppErrorView {
    not_found("Tutor not found"@)
}

/// Why creating a course is refused, if it is: an invalid field first, then
/// a caller without a tutor profile.
pub open spec fn course_creation_refusal(
    request: CreateCourseRequestView,
    tutor: Option<Id>,
) -> Option<AppErrorView> {
    match request.first_invalid() {
        Some(field) => Some(validation_failure(field)),
        None => if tutor is None {
            Some(tutor_profile_missing())
        } else {
            None
        },
    }
}

/// The course a creation stores: the request's data under the tutor's
/// profile, active, created and last modified at the same instant.
pub open spec fn new_course_of(
    request: CreateCourseRequestView,
    tutor_id: Id,
    id: Id,
    now: Timestamp,
) -> CourseView {
    CourseView {
        id,
        title: request.title,
        description: request.description,
        tutor_id,
        price: request.price,
        duration_minutes: request.duration_minutes,
        category: request.category,
        difficulty_level: request.difficulty_level,
        is_active: true,
        created_at: now,
        updated_at: now,
    }
}

/// What creating a course answers.
pub open spec fn course_creation_outcome(
    request: CreateCourseRequestView,
    tutor: Option<Id>,
    r: Result<Course, AppError>,
) -> bool {
    match course_creation_refusal(request, tutor) {
        Some(e) => r is Err && r->Err_0@ == e,
        None => {
            &&& r is Ok
            &&& r->Ok_0@ == new_course_of(request, tutor->0, r->Ok_0@.id, r->Ok_0@.created_at)
            &&& r->Ok_0@.created_at.secs >= 0
        },
    }
}

/// What updating course `course_id` on behalf of account `user_id` answers
/// at `now`, where `owner` is the account that owns the course (`None` if
/// the course does not exist): a `Validation` failure for an invalid
/// request; `NotFound` unless the caller is the owner; `BadRequest` for a
/// request without fields; else the statement to run.
pub open spec fn course_update_of(
    request: UpdateCourseRequestView,
    course_id: Id,
    user_id: Id,
    owner: Option<Id>,
    now: Timestamp,
) -> Result<UpdateStatementView, AppErrorView> {
    match request.first_invalid() {
        Some(field) => Err(validation_failure(field)),
        None => if !is_owner(user_id, owner) {
            Err(course_denied())
        } else {
            statement_for(Table::Courses, course_changes(request), course_id, now)
        },
    }
}

/// What deleting answers, given how many records the store removed.
pub open spec fn deletion_of(rows_affected: u64) -> Result<(), AppErrorView> {
    if rows_affected == 0 {
        Err(course_denied())
    } else {
        Ok(())
    }
}

/// The name of the tutor found, or `NotFound`.
pub open spec fn tutor_name_of(found: Option<(Seq<char>, Seq<char>)>) -> Result<
    Seq<char>,
    AppErrorView,
> {
    match found {
        Some((first, last)) => Ok(spaced(first, last)),
        None => Err(tutor_missing()),
    }
}

/// View of an optional pair of names.
pub open spec fn opt_names(found: Option<(String, String)>) -> Option<(Seq<char>, Seq<char>)> {
    match found {
        Some((first, last)) => Some((first@, last@)),
        None => None,
    }
}

/// The name in slot `i` of a list of optional names; none past its end.
pub open spec fn name_at(names: Seq<Option<String>>, i: int) -> Option<Seq<char>> {
    if 0 <= i < names.len() {
        opt_text(names[i])
    } else {
        None
    }
}

/// Whether `responses` answers `courses` one for one, each with the tutor
/// name in the same slot of `names`.
pub open spec fn lists_courses(
    courses: Seq<Course>,
    names: Seq<Option<String>>,
    responses: Seq<CourseResponse>,
) -> bool {
    &&& responses.len() == courses.len()
    &&& forall|i: int|
        0 <= i < courses.len() ==> (#[trigger] responses[i])@ == course_response_of(
            courses[i]@,
            name_at(names, i),
        )
}

impl CourseService {
    /// The course to store for `request` under profile `tutor_id`, given a
    /// fresh identifier and the time.
    pub fn new_course(request: CreateCourseRequest, tutor_id: Id, id: Id, now: Timestamp) -> (c:
        Course)
        ensures
            c@ == new_course_of(request@, tutor_id, id, now),
    {
        Course {
            id,
            title: request.title,
            description: request.description,
            tutor_id,
            price: request.price,
            duration_minutes: request.duration_minutes,
            category: request.category,
            difficulty_level: request.difficulty_level,
            is_active: true,
            created_at: now,
            updated_at: now,
        }
    }

    /// Creates a course. `tutor` is the identifier of the caller's tutor
    /// profile, if the caller has one.
    ///
    /// Answers the course to insert. Fails with `Validation` for an invalid
    /// request and with `NotFound` for a caller without a profile.
    pub fn create_course(tutor: Option<Id>, request: CreateCourseRequest) -> (r: Result<
        Course,
        AppError,
    >)
        ensures
            course_creation_outcome(request@, tutor, r),
    {
        match request.validate() {
            Err(e) => {
                return Err(e);
            },
            Ok(_) => {},
        }
        match tutor {
            None => Err(AppError::NotFound(String::from_str("Tutor profile not found"))),
            Some(tutor_id) => {
                let id = fresh_id();
                let now = current_time();
                Ok(Self::new_course(request, tutor_id, id, now))
            },
        }
    }

    /// The responses for a list of courses, in order, each with the tutor
    /// name in the same slot of `tutor_names` (none where the list is
    /// shorter).
    pub fn get_all_courses(courses: &Vec<Course>, tutor_names: &Vec<Option<String>>) -> (r: Vec<
        CourseResponse,
    >)
        ensures
            lists_courses(courses@, tutor_names@, r@),
    {
        let mut responses: Vec<CourseResponse> = Vec::new();
        let mut i: usize = 0;
        while i < courses.len()
            invariant
                i <= courses.len(),
                responses.len() == i,
                forall|j: int|
                    0 <= j < i ==> (#[trigger] responses@[j])@ == course_response_of(
                        courses@[j]@,
                        name_at(tutor_names@, j),
                    ),
            decreases courses.len() - i,
        {
            let name = if i < tutor_names.len() {
                copy_opt_text(&tutor_names[i])
            } else {
                None
            };
            responses.push(CourseResponse::of(&courses[i], name));
            i = i + 1;
        }
        responses
    }

    /// The response for the course found under an identifier, or
    /// `NotFound`.
    pub fn get_course_by_id(found: Option<Course>, tutor_name: Option<String>) -> (r: Result<
        CourseResponse,
        AppError,
    >)
        ensures
            match found {
                Some(c) => r is Ok && r->Ok_0@ == course_response_of(c@, opt_text(tutor_name)),
                None => r is Err && r->Err_0@ == course_missing(),
            },
    {
        match found {
            Some(course) => Ok(CourseResponse::of(&course, tutor_name)),
            None => Err(AppError::NotFound(String::from_str("Course not found"))),
        }
    }

    /// Decides an update of course `course_id` by account `user_id` at
    /// `now`. `owner` is the account that owns the course, `None` if the
    /// course does not exist.
    pub fn update_course_at(
        course_id: Id,
        user_id: Id,
        owner: Option<Id>,
        request: UpdateCourseRequest,
        now: Timestamp,
    ) -> (r: Result<UpdateStatement, AppError>)
        ensures
            statement_result(r) == course_update_of(request@, course_id, user_id, owner, now),
    {
        match request.validate() {
            Err(e) => {
                return Err(e);
            },
            Ok(_) => {},
        }
        match require_owner(user_id, owner, "Course not found or access denied") {
            Err(e) => {
                return Err(e);
            },
            Ok(_) => {},
        }
        course_update(request, course_id, now)
    }

    /// Decides an update of course `course_id` by account `user_id`,
    /// stamped with the time of the call. `owner` is the account that owns
    /// the course, `None` if the course does not exist.
    ///
    /// Answers the statement to run; the caller then reads the course back
    /// from the store. Fails with `Validation` for an invalid request, with
    /// `NotFound` unless the caller owns the course, and with `BadRequest`
    /// for a request without fields.
    pub fn update_course(
        course_id: Id,
        user_id: Id,
        owner: Option<Id>,
        request: UpdateCourseRequest,
    ) -> (r: Result<UpdateStatement, AppError>)
        ensures
            exists|now: Timestamp|
                now.secs >= 0 && statement_result(r) == course_update_of(
                    request@,
                    course_id,
                    user_id,
                    owner,
                    now,
                ),
    {
        let now = current_time();
        let r = Self::update_course_at(course_id, user_id, owner, request, now);
        assert(now.secs >= 0 && statement_result(r) == course_update_of(
            request@,
            course_id,
            user_id,
            owner,
            now,
        ));
        r
    }

    /// Decides a deletion from the number of records the store removed for
    /// the caller's identifier pair: none means the course is missing or
    /// not the caller's.
    pub fn delete_course(rows_affected: u64) -> (r: Result<(), AppError>)
        ensures
            match deletion_of(rows_affected) {
                Ok(_) => r is Ok,
                Err(e) => r is Err && r->Err_0@ == e,
            },
    {
        if rows_affected == 0 {
            Err(AppError::NotFound(String::from_str("Course not found or access denied")))
        } else {
            Ok(())
        }
    }

    /// The responses for a tutor's courses; see
    /// [`CourseService::get_all_courses`].
    pub fn get_courses_by_tutor(courses: &Vec<Course>, tutor_names: &Vec<Option<String>>) -> (r:
        Vec<CourseResponse>)
        ensures
            lists_courses(courses@, tutor_names@, r@),
    {
        Self::get_all_courses(courses, tutor_names)
    }

    /// The full name of the tutor found under a profile identifier, or
    /// `NotFound`.
    pub fn get_tutor_name(found: Option<(String, String)>) -> (r: Result<String, AppError>)
        ensures
            match tutor_name_of(opt_names(found)) {
                Ok(name) => r is Ok && r->Ok_0@ == name,
                Err(e) => r is Err && r->Err_0@ == e,
            },
    {
        match found {
            Some((first, last)) => Ok(join_spaced(first.as_str(), last.as_str())),
            None => Err(AppError::NotFound(String::from_str("Tutor not found"))),
        }
    }
}

/// An update without a present field is refused with `BadRequest`, and no
/// statement comes out of it, whoever the owner asks.
pub proof fn lemma_empty_course_update_rejected(
    request: UpdateCourseRequestView,
    course_id: Id,
    user_id: Id,
    now: Timestamp,
)
    requires
        request.is_empty(),
    ensures
        course_update_of(request, course_id, user_id, Some(user_id), now) == Err::<
            UpdateStatementView,
            AppErrorView,
        >(no_fields_failure()),
        no_fields_failure().kind == ErrorKind::BadRequest,
{
    lemma_course_changes_empty(request);
}

/// Updating a course of another account answers exactly what updating a
/// course that does not exist answers, and for a valid request that answer
/// is `NotFound`.
pub proof fn lemma_foreign_course_looks_missing(
    request: UpdateCourseRequestView,
    course_id: Id,
    missing_id: Id,
    user_id: Id,
    other: Id,
    now: Timestamp,
)
    requires
        other != user_id,
    ensures
        course_update_of(request, course_id, user_id, Some(other), now) == course_update_of(
            request,
            missing_id,
            user_id,
            None,
            now,
        ),
        request.valid() ==> course_update_of(request, course_id, user_id, Some(other), now)
            == Err::<UpdateStatementView, AppErrorView>(course_denied()),
        course_denied().kind == ErrorKind::NotFound,
{
}

} // verus!
