//! Courses: the stored record, the requests that create and change one, and
//! the response.

use crate::clock::{Id, Timestamp};
use crate::errors::AppError;
use crate::models::opt_text;
use crate::validation::{
    has_length_within, has_min_length, is_within, length_within, report, validation_outcome,
    value_within,
};
use vstd::prelude::*;

verus! {

/// How demanding a course is.
#[derive(Clone, Copy, Debug, PartialEq, Eq, Structural)]
pub enum DifficultyLevel {
    Beginner,
    Intermediate,
    Advanced,
}

/// A stored course.
#[derive(Clone, Debug)]
pub struct Course {
    pub id: Id,
    pub title: String,
    pub description: String,
    pub tutor_id: Id,
    pub price: i32,
    pub duration_minutes: i32,
    pub category: String,
    pub difficulty_level: DifficultyLevel,
    pub is_active: bool,
    pub created_at: Timestamp,
    pub updated_at: Timestamp,
}

/// Mathematical value of [`Course`].
pub ghost struct CourseView {
    pub id: Id,
    pub title: Seq<char>,
    pub description: Seq<char>,
    pub tutor_id: Id,
    pub price: i32,
    pub duration_minutes: i32,
    pub category: Seq<char>,
    pub difficulty_level: DifficultyLevel,
    pub is_active: bool,
    pub created_at: Timestamp,
    pub updated_at: Timestamp,
}

impl View for Course {
    type V = CourseView;

    open spec fn view(&self) -> CourseView {
        CourseView {
            id: self.id,
            title: self.title@,
            description: self.description@,
            tutor_id: self.tutor_id,
            price: self.price,
            duration_minutes: self.duration_minutes,
            category: self.category@,
            difficulty_level: self.difficulty_level,
            is_active: self.is_active,
            created_at: self.created_at,
            updated_at: self.updated_at,
        }
    }
}

/// A request to create a course.
#[derive(Clone, Debug)]
pub struct CreateCourseRequest {
    pub title: String,
    pub description: String,
    pub price: i32,
    pub duration_minutes: i32,
    pub category: String,
    pub difficulty_level: DifficultyLevel,
}

/// Mathematical value of [`CreateCourseRequest`].
pub ghost struct CreateCourseRequestView {
    pub title: Seq<char>,
    pub description: Seq<char>,
    pub price: i32,
    pub duration_minutes: i32,
    pub category: Seq<char>,
    pub difficulty_level: DifficultyLevel,
}

impl View for CreateCourseRequest {
    type V = CreateCourseRequestView;

    open spec fn view(&self) -> CreateCourseRequestView {
        CreateCourseRequestView {
            title: self.title@,
            description: self.description@,
            price: self.price,
            duration_minutes: self.duration_minutes,
            category: self.category@,
            difficulty_level: self.difficulty_level,
        }
    }
}

/// Rule on a course title: 1 to 200 characters.
pub open spec fn title_ok(title: Seq<char>) -> bool {
    length_within(title, 1, 200)
}

/// Rule on a course description: 1 to 1000 characters.
pub open spec fn description_ok(description: Seq<char>) -> bool {
    length_within(description, 1, 1000)
}

/// Rule on a course price: not negative.
pub open spec fn price_ok(price: i32) -> bool {
    price >= 0
}

/// Rule on a course duration: 15 to 480 minutes.
pub open spec fn duration_ok(minutes: i32) -> bool {
    value_within(minutes as int, 15, 480)
}

/// Rule on a course category: not empty.
pub open spec fn category_ok(category: Seq<char>) -> bool {
    category.len() >= 1
}

impl CreateCourseRequestView {
    /// The first field that breaks its rule, in declaration order.
    pub open spec fn first_invalid(self) -> Option<Seq<char>> {
        if !title_ok(self.title) {
            Some("title"@)
        } else if !description_ok(self.description) {
            Some("description"@)
        } else if !price_ok(self.price) {
            Some("price"@)
        } else if !duration_ok(self.duration_minutes) {
            Some("duration_minutes"@)
        } else if !category_ok(self.category) {
            Some("category"@)
        } else {
            None
        }
    }

    pub open spec fn valid(self) -> bool {
        self.first_invalid() is None
    }
}

impl CreateCourseRequest {
    /// Checks every field rule; fails with `Validation` naming the first
    /// offending field.
    pub fn validate(&self) -> (r: Result<(), AppError>)
        ensures
            validation_outcome(self@.first_invalid(), r),
    {
        let invalid = if !has_length_within(self.title.as_str(), 1, 200) {
            Some("title")
        } else if !has_length_within(self.description.as_str(), 1, 1000) {
            Some("description")
        } else if self.price < 0 {
            Some("price")
        } else if !is_within(self.duration_minutes, 15, 480) {
            Some("duration_minutes")
        } else if !has_min_length(self.category.as_str(), 1) {
            Some("category")
        } else {
            None
        };
        report(invalid)
    }
}

/// A sparse change to a course: each field is either absent (left as it is)
/// or present with its new value.
#[derive(Clone, Debug)]
pub struct UpdateCourseRequest {
    pub title: Option<String>,
    pub description: Option<String>,
    pub price: Option<i32>,
    pub duration_minutes: Option<i32>,
    pub category: Option<String>,
    pub difficulty_level: Option<DifficultyLevel>,
    pub is_active: Option<bool>,
}

/// Mathematical value of [`UpdateCourseRequest`].
pub ghost struct UpdateCourseRequestView {
    pub title: Option<Seq<char>>,
    pub description: Option<Seq<char>>,
    pub price: Option<i32>,
    pub duration_minutes: Option<i32>,
    pub category: Option<Seq<char>>,
    pub difficulty_level: Option<DifficultyLevel>,
    pub is_active: Option<bool>,
}

impl View for UpdateCourseRequest {
    type V = UpdateCourseRequestView;

    open spec fn view(&self) -> UpdateCourseRequestView {
        UpdateCourseRequestView {
            title: opt_text(self.title),
            description: opt_text(self.description),
            price: self.price,
            duration_minutes: self.duration_minutes,
            category: opt_text(self.category),
            difficulty_level: self.difficulty_level,
            is_active: self.is_active,
        }
    }
}

impl UpdateCourseRequestView {
    /// The first present field that breaks its rule, in declaration order.
    /// Absent fields break none.
    pub open spec fn first_invalid(self) -> Option<Seq<char>> {
        if self.title is Some && !title_ok(self.title->0) {
            Some("title"@)
        } else if self.description is Some && !description_ok(self.description->0) {
            Some("description"@)
        } else if self.price is Some && !price_ok(self.price->0) {
            Some("price"@)
        } else if self.duration_minutes is Some && !duration_ok(self.duration_minutes->0) {
            Some("duration_minutes"@)
        } else if self.category is Some && !category_ok(self.category->0) {
            Some("category"@)
        } else {
            None
        }
    }

    pub open spec fn valid(self) -> bool {
        self.first_invalid() is None
    }

    /// Whether no field is present.
    pub open spec fn is_empty(self) -> bool {
        &&& self.title is None
        &&& self.description is None
        &&& self.price is None
        &&& self.duration_minutes is None
        &&& self.category is None
        &&& self.difficulty_level is None
        &&& self.is_active is None
    }
}

impl UpdateCourseRequest {
    /// Checks the rule of every present field; fails with `Validation`
    /// naming the first offending field.
    pub fn validate(&self) -> (r: Result<(), AppError>)
        ensures
            validation_outcome(self@.first_invalid(), r),
    {
        let title_bad = match &self.title {
            Some(t) => !has_length_within(t.as_str(), 1, 200),
            None => false,
        };
        let description_bad = match &self.description {
            Some(d) => !has_length_within(d.as_str(), 1, 1000),
            None => false,
        };
        let price_bad = match self.price {
            Some(p) => p < 0,
            None => false,
        };
        let duration_bad = match self.duration_minutes {
            Some(m) => !is_within(m, 15, 480),
            None => false,
        };
        let category_bad = match &self.category {
            Some(c) => !has_min_length(c.as_str(), 1),
            None => false,
        };
        let invalid = if title_bad {
            Some("title")
        } else if description_bad {
            Some("description")
        } else if price_bad {
            Some("price")
        } else if duration_bad {
            Some("duration_minutes")
        } else if category_bad {
            Some("category")
        } else {
            None
        };
        report(invalid)
    }
}

/// A course as shown to clients, with the name of its tutor where known.
#[derive(Clone, Debug)]
pub struct CourseResponse {
    pub id: Id,
    pub title: String,
    pub description: String,
    pub tutor_id: Id,
    pub tutor_name: Option<String>,
    pub price: i32,
    pub duration_minutes: i32,
    pub category: String,
    pub difficulty_level: DifficultyLevel,
    pub is_active: bool,
    pub created_at: Timestamp,
    pub updated_at: Timestamp,
}

/// Mathematical value of [`CourseResponse`].
pub ghost struct CourseResponseView {
    pub id: Id,
    pub title: Seq<char>,
    pub description: Seq<char>,
    pub tutor_id: Id,
    pub tutor_name: Option<Seq<char>>,
    pub price: i32,
    pub duration_minutes: i32,
    pub category: Seq<char>,
    pub difficulty_level: DifficultyLevel,
    pub is_active: bool,
    pub created_at: Timestamp,
    pub updated_at: Timestamp,
}

impl View for CourseResponse {
    type V = CourseResponseView;

    open spec fn view(&self) -> CourseResponseView {
        CourseResponseView {
            id: self.id,
            title: self.title@,
            description: self.description@,
            tutor_id: self.tutor_id,
            tutor_name: opt_text(self.tutor_name),
            price: self.price,
            duration_minutes: self.duration_minutes,
            category: self.category@,
            difficulty_level: self.difficulty_level,
            is_active: self.is_active,
            created_at: self.created_at,
            updated_at: self.updated_at,
        }
    }
}

/// The response for a course whose tutor is called `tutor_name`.
pub open spec fn course_response_of(
    course: CourseView,
    tutor_name: Option<Seq<char>>,
) -> CourseResponseView {
    CourseResponseView {
        id: course.id,
        title: course.title,
        description: course.description,
        tutor_id: course.tutor_id,
        tutor_name,
        price: course.price,
        duration_minutes: course.duration_minutes,
        category: course.category,
        difficulty_level: course.difficulty_level,
        is_active: course.is_active,
        created_at: course.created_at,
        updated_at: course.updated_at,
    }
}

impl From<Course> for CourseResponse {
    fn from(course: Course) -> (r: CourseResponse) {
        CourseResponse {
            id: course.id,
            title: course.title,
            description: course.description,
            tutor_id: course.tutor_id,
            tutor_name: None,
            price: course.price,
            duration_minutes: course.duration_minutes,
            category: course.category,
            difficulty_level: course.difficulty_level,
            is_active: course.is_active,
            created_at: course.created_at,
            updated_at: course.updated_at,
        }
    }
}

impl vstd::std_specs::convert::FromSpecImpl<Course> for CourseResponse {
    open spec fn obeys_from_spec() -> bool {
        true
    }

    open spec fn from_spec(course: Course) -> CourseResponse {
        CourseResponse {
            id: course.id,
            title: course.title,
            description: course.description,
            tutor_id: course.tutor_id,
            tutor_name: None,
            price: course.price,
            duration_minutes: course.duration_minutes,
            category: course.category,
            difficulty_level: course.difficulty_level,
            is_active: course.is_active,
            created_at: course.created_at,
            updated_at: course.updated_at,
        }
    }
}

impl CourseResponse {
    /// The response for `course`, with the name of its tutor where known.
    pub fn of(course: &Course, tutor_name: Option<String>) -> (r: CourseResponse)
        ensures
            r@ == course_response_of(course@, opt_text(tutor_name)),
    {
        CourseResponse {
            id: course.id,
            title: course.title.clone(),
            description: course.description.clone(),
            tutor_id: course.tutor_id,
            tutor_name,
            price: course.price,
            duration_minutes: course.duration_minutes,
            category: course.category.clone(),
            difficulty_level: course.difficulty_level,
            is_active: course.is_active,
            created_at: course.created_at,
            updated_at: course.updated_at,
        }
    }
}

} // verus!
