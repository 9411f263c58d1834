//! Records, requests and responses, each with its mathematical view.

pub mod account;
pub mod course;
pub mod review;
pub mod tutor;

pub use account::{
    CreateUserRequest, CreateUserRequestView, lemma_role_tag_round_trip, LoginRequest,
    LoginRequestView, LoginResponse, LoginResponseView, role_of_tag, role_tag, User,
    user_response_of, UserResponse, UserResponseView, UserRole, UserView,
};
pub use course::{
    category_ok, Course, course_response_of, CourseResponse, CourseResponseView, CourseView,
    CreateCourseRequest, CreateCourseRequestView, description_ok, DifficultyLevel, duration_ok,
    price_ok, title_ok, UpdateCourseRequest, UpdateCourseRequestView,
};
pub use review::{
    comment_ok, CreateReviewRequest, CreateReviewRequestView, rating_ok, review_response_of,
    ReviewResponse, ReviewResponseView, TutorReview, TutorReviewView,
};
pub use tutor::{
    bio_ok, CreateTutorProfileRequest, CreateTutorProfileRequestView, experience_ok,
    hourly_rate_ok, listed, Rating, SearchQuery, tutor_response_of, TutorProfile, TutorProfileView,
    TutorResponse, TutorResponseView, UpdateTutorProfileRequest, UpdateTutorProfileRequestView,
};
use crate::text::texts;
use vstd::prelude::*;

verus! {

/// View of an optional string.
pub open spec fn opt_text(o: Option<String>) -> Option<Seq<char>> {
    match o {
        Some(s) => Some(s@),
        None => None,
    }
}

/// View of an optional list of strings.
pub open spec fn opt_texts(o: Option<Vec<String>>) -> Option<Seq<Seq<char>>> {
    match o {
        Some(v) => Some(texts(v@)),
        None => None,
    }
}

/// An independent copy of an optional string.
pub fn copy_opt_text(text: &Option<String>) -> (copy: Option<String>)
    ensures
        opt_text(copy) == opt_text(*text),
{
    match text {
        Some(t) => Some(t.clone()),
        None => None,
    }
}

} // verus!
