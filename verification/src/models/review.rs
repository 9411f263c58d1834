//! Reviews of tutors by students.

use crate::clock::{Id, Timestamp};
use crate::errors::AppError;
use crate::models::{copy_opt_text, opt_text};
use crate::text::{join_spaced, spaced};
use crate::validation::{has_max_length, is_within, report, validation_outcome, value_within};
use vstd::prelude::*;

verus! {

/// A stored review of a tutor by a student.
#[derive(Clone, Debug)]
pub struct TutorReview {
    pub id: Id,
    pub tutor_id: Id,
    pub student_id: Id,
    pub rating: i32,
    pub comment: Option<String>,
    pub created_at: Timestamp,
}

/// Mathematical value of [`TutorReview`].
pub ghost struct TutorReviewView {
    pub id: Id,
    pub tutor_id: Id,
    pub student_id: Id,
    pub rating: i32,
    pub comment: Option<Seq<char>>,
    pub created_at: Timestamp,
}

impl View for TutorReview {
    type V = TutorReviewView;

    open spec fn view(&self) -> TutorReviewView {
        TutorReviewView {
            id: self.id,
            tutor_id: self.tutor_id,
            student_id: self.student_id,
            rating: self.rating,
            comment: opt_text(self.comment),
            created_at: self.created_at,
        }
    }
}

/// A request to review a tutor.
#[derive(Clone, Debug)]
pub struct CreateReviewRequest {
    pub rating: i32,
    pub comment: Option<String>,
}

/// Mathematical value of [`CreateReviewRequest`].
pub ghost struct CreateReviewRequestView {
    pub rating: i32,
    pub comment: Option<Seq<char>>,
}

impl View for CreateReviewRequest {
    type V = CreateReviewRequestView;

    open spec fn view(&self) -> CreateReviewRequestView {
        CreateReviewRequestView { rating: self.rating, comment: opt_text(self.comment) }
    }
}

/// Rule on a review's rating: a whole number from 1 to 5.
pub open spec fn rating_ok(rating: i32) -> bool {
    value_within(rating as int, 1, 5)
}

/// Rule on a review's comment: at most 500 characters.
pub open spec fn comment_ok(comment: Seq<char>) -> bool {
    comment.len() <= 500
}

impl CreateReviewRequestView {
    /// The first field that breaks its rule, in declaration order. An
    /// absent comment breaks none.
    pub open spec fn first_invalid(self) -> Option<Seq<char>> {
        if !rating_ok(self.rating) {
            Some("rating"@)
        } else if self.comment is Some && !comment_ok(self.comment->0) {
            Some("comment"@)
        } else {
            None
        }
    }

    pub open spec fn valid(self) -> bool {
        self.first_invalid() is None
    }
}

impl CreateReviewRequest {
    /// Checks every field rule; fails with `Validation` naming the first
    /// offending field.
    pub fn validate(&self) -> (r: Result<(), AppError>)
        ensures
            validation_outcome(self@.first_invalid(), r),
    {
        let comment_bad = match &self.comment {
            Some(c) => !has_max_length(c.as_str(), 500),
            None => false,
        };
        let invalid = if !is_within(self.rating, 1, 5) {
            Some("rating")
        } else if comment_bad {
            Some("comment")
        } else {
            None
        };
        report(invalid)
    }
}

/// A review as shown to clients, with the student's full name.
#[derive(Clone, Debug)]
pub struct ReviewResponse {
    pub id: Id,
    pub tutor_id: Id,
    pub student_name: String,
    pub rating: i32,
    pub comment: Option<String>,
    pub created_at: Timestamp,
}

/// Mathematical value of [`ReviewResponse`].
pub ghost struct ReviewResponseView {
    pub id: Id,
    pub tutor_id: Id,
    pub student_name: Seq<char>,
    pub rating: i32,
    pub comment: Option<Seq<char>>,
    pub created_at: Timestamp,
}

impl View for ReviewResponse {
    type V = ReviewResponseView;

    open spec fn view(&self) -> ReviewResponseView {
        ReviewResponseView {
            id: self.id,
            tutor_id: self.tutor_id,
            student_name: self.student_name@,
            rating: self.rating,
            comment: opt_text(self.comment),
            created_at: self.created_at,
        }
    }
}

/// The response for a review by a student of the given name.
pub open spec fn review_response_of(
    review: TutorReviewView,
    first_name: Seq<char>,
    last_name: Seq<char>,
) -> ReviewResponseView {
    ReviewResponseView {
        id: review.id,
        tutor_id: review.tutor_id,
        student_name: spaced(first_name, last_name),
        rating: review.rating,
        comment: review.comment,
        created_at: review.created_at,
    }
}

impl ReviewResponse {
    /// The response for `review`, with the student's full name.
    pub fn of(review: &TutorReview, first_name: &str, last_name: &str) -> (r: ReviewResponse)
        ensures
            r@ == review_response_of(review@, first_name@, last_name@),
    {
        ReviewResponse {
            id: review.id,
            tutor_id: review.tutor_id,
            student_name: join_spaced(first_name, last_name),
            rating: review.rating,
            comment: copy_opt_text(&review.comment),
            created_at: review.created_at,
        }
    }
}

} // verus!
