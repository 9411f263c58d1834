//! Tutor profiles and their reviews.

use crate::clock::{current_time, fresh_id, Id, Timestamp};
use crate::errors::{AppError, AppErrorView, ErrorKind};
use crate::models::{
    listed, review_response_of, role_of_tag, CreateReviewRequest, CreateReviewRequestView,
    CreateTutorProfileRequest, CreateTutorProfileRequestView, ReviewResponse, SearchQuery,
    TutorProfile, TutorProfileView, TutorResponse, TutorResponseView, TutorReview,
    TutorReviewView, UpdateTutorProfileRequest, UpdateTutorProfileRequestView, User, UserRole,
    UserView,
};
use crate::policy::{can_review, forbidden, may_review, may_tutor, require_role};
use crate::rating::{aggregate, summary_of, RatingSummary};
use crate::services::auth::{opt_user, user_missing};
use crate::services::course::{tutor_missing, tutor_profile_missing};
use crate::token::{Claims, ClaimsView};
use crate::update::{
    lemma_profile_changes_empty, no_fields_failure, profile_changes, profile_update,
    statement_for, statement_result, Table, UpdateStatement, UpdateStatementView,
};
use crate::validation::validation_failure;
use vstd::prelude::*;
use vstd::string::*;

verus! {

/// Namespace of the tutor operations.
pub struct TutorService;

/// A review as read from the store, joined with its student's name.
#[derive(Clone, Debug)]
pub struct ReviewRow {
    pub review: TutorReview,
    pub first_name: String,
    pub last_name: String,
}

/// The failure for an account that may not own a tutor profile.
pub open spec fn not_a_tutor() -> AppErrorView {
    forbidden("Only tutors can create tutor profiles"@)
}

/// The failure for an account that may not review.
pub open spec fn not_a_student() -> AppErrorView {
    forbidden("Only students can review tutors"@)
}

/// The failure for a second profile of one account.
pub open spec fn duplicate_profile() -> AppErrorView {
    AppErrorView { kind: ErrorKind::BadRequest, detail: "Tutor profile already exists"@ }
}

/// The failure for a second review of one tutor by one student.
pub open spec fn duplicate_review() -> AppErrorView {
    AppErrorView { kind: ErrorKind::BadRequest, detail: "Review already exists for this tutor"@ }
}

/// Why creating a profile is refused, if it is: an invalid field; an
/// unknown account; an account that is neither tutor nor administrator; an
/// account that already has a profile.
pub open spec fn profile_creation_refusal(
    request: CreateTutorProfileRequestView,
    user: Option<UserView>,
    has_profile: bool,
) -> Option<AppErrorView> {
    match request.first_invalid() {
        Some(field) => Some(validation_failure(field)),
        None => match user {
            None => Some(user_missing()),
            Some(u) => if !may_tutor(u.role) {
                Some(not_a_tutor())
            } else if has_profile {
                Some(duplicate_profile())
            } else {
                None
            },
        },
    }
}

/// The profile a creation stores: the request's data for the account,
/// without rating or reviews, unverified, available, created and last
/// modified at the same instant.
pub open spec fn new_profile_of(
    request: CreateTutorProfileRequestView,
    user_id: Id,
    id: Id,
    now: Timestamp,
) -> TutorProfileView {
    TutorProfileView {
        id,
        user_id,
        bio: request.bio,
        specializations: request.specializations,
        hourly_rate: request.hourly_rate,
        years_experience: request.years_experience,
        rating: None,
        total_reviews: 0,
        is_verified: false,
        is_available: true,
        created_at: now,
        updated_at: now,
    }
}

/// What creating a profile answers.
pub open spec fn profile_creation_outcome(
    request: CreateTutorProfileRequestView,
    user: Option<UserView>,
    has_profile: bool,
    r: Result<TutorProfile, AppError>,
) -> bool {
    match profile_creation_refusal(request, user, has_profile) {
        Some(e) => r is Err && r->Err_0@ == e,
        None => {
            &&& r is Ok
            &&& r->Ok_0@ == new_profile_of(
                request,
                user->0.id,
                r->Ok_0@.id,
                r->Ok_0@.created_at,
            )
            &&& r->Ok_0@.created_at.secs >= 0
        },
    }
}

/// What updating the profile of account `user_id` answers at `now`, where
/// `existing` is the identifier of that profile (`None` if the account has
/// none): a `Validation` failure for an invalid request; `NotFound`
/// without a profile; `BadRequest` for a request without fields; else the
/// statement to run.
pub open spec fn profile_update_of(
    request: UpdateTutorProfileRequestView,
    user_id: Id,
    existing: Option<Id>,
    now: Timestamp,
) -> Result<UpdateStatementView, AppErrorView> {
    match request.first_invalid() {
        Some(field) => Err(validation_failure(field)),
        None => if existing is None {
            Err(tutor_profile_missing())
        } else {
            statement_for(Table::Tutors, profile_changes(request), user_id, now)
        },
    }
}

/// Why a review is refused, if it is: a caller who is not a student; an
/// invalid field; an unknown tutor; a tutor the student has already
/// reviewed.
pub open spec fn review_refusal(
    request: CreateReviewRequestView,
    student: ClaimsView,
    tutor_exists: bool,
    already_reviewed: bool,
) -> Option<AppErrorView> {
    if !may_review(role_of_tag(student.role)) {
        Some(not_a_student())
    } else {
        match request.first_invalid() {
            Some(field) => Some(validation_failure(field)),
            None => if !tutor_exists {
                Some(tutor_missing())
            } else if already_reviewed {
                Some(duplicate_review())
            } else {
                None
            },
        }
    }
}

/// The review a creation stores.
pub open spec fn new_review_of(
    request: CreateReviewRequestView,
    tutor_id: Id,
    student_id: Id,
    id: Id,
    now: Timestamp,
) -> TutorReviewView {
    TutorReviewView {
        id,
        tutor_id,
        student_id,
        rating: request.rating,
        comment: request.comment,
        created_at: now,
    }
}

/// What creating a review answers.
pub open spec fn review_outcome(
    request: CreateReviewRequestView,
    tutor_id: Id,
    student: ClaimsView,
    tutor_exists: bool,
    already_reviewed: bool,
    r: Result<TutorReview, AppError>,
) -> bool {
    match review_refusal(request, student, tutor_exists, already_reviewed) {
        Some(e) => r is Err && r->Err_0@ == e,
        None => {
            &&& r is Ok
            &&& r->Ok_0@ == new_review_of(
                request,
                tutor_id,
                student.sub,
                r->Ok_0@.id,
                r->Ok_0@.created_at,
            )
            &&& r->Ok_0@.created_at.secs >= 0
        },
    }
}

/// Whether `responses` answers `rows` one for one.
pub open spec fn lists_reviews(rows: Seq<ReviewRow>, responses: Seq<ReviewResponse>) -> bool {
    &&& responses.len() == rows.len()
    &&& forall|i: int|
        0 <= i < rows.len() ==> (#[trigger] responses[i])@ == review_response_of(
            rows[i].review@,
            rows[i].first_name@,
            rows[i].last_name@,
        )
}

/// Views of a list of tutors, in order.
pub open spec fn tutor_views(tutors: Seq<TutorResponse>) -> Seq<TutorResponseView> {
    tutors.map_values(|t: TutorResponse| t@)
}

/// The tutors a search answers with: those of `tutors` that are
/// [`listed`] for `query`, in the order they stand in.
pub open spec fn listing(
    tutors: Seq<TutorResponseView>,
    query: Option<Seq<char>>,
) -> Seq<TutorResponseView>
    decreases tutors.len(),
{
    if tutors.len() == 0 {
        Seq::empty()
    } else if listed(tutors.last(), query) {
        listing(tutors.drop_last(), query).push(tutors.last())
    } else {
        listing(tutors.drop_last(), query)
    }
}

fn select(tutors: &Vec<TutorResponse>, query: &SearchQuery) -> (chosen: Vec<TutorResponse>)
    ensures
        tutor_views(chosen@) == listing(tutor_views(tutors@), query@),
{
    let ghost views = tutor_views(tutors@);
    let mut chosen: Vec<TutorResponse> = Vec::new();
    let mut i: usize = 0;
    assert(tutor_views(chosen@) =~= listing(views.take(0), query@));
    while i < tutors.len()
        invariant
            i <= tutors.len(),
            views == tutor_views(tutors@),
            tutor_views(chosen@) == listing(views.take(i as int), query@),
        decreases tutors.len() - i,
    {
        proof {
            assert(views.take(i + 1).drop_last() =~= views.take(i as int));
            assert(views.take(i + 1).last() == tutors@[i as int]@);
        }
        if tutors[i].is_listed(query) {
            let ghost before = tutor_views(chosen@);
            chosen.push(tutors[i].duplicate());
            assert(tutor_views(chosen@) =~= before.push(tutors@[i as int]@));
        }
        i = i + 1;
    }
    assert(views.take(tutors.len() as int) =~= views);
    chosen
}

impl TutorService {
    /// The profile to store for `request` and account `user_id`, given a
    /// fresh identifier and the time.
    pub fn new_profile(
        request: CreateTutorProfileRequest,
        user_id: Id,
        id: Id,
        now: Timestamp,
    ) -> (p: TutorProfile)
        ensures
            p@ == new_profile_of(request@, user_id, id, now),
    {
        TutorProfile {
            id,
            user_id,
            bio: request.bio,
            specializations: request.specializations,
            hourly_rate: request.hourly_rate,
            years_experience: request.years_experience,
            rating: None,
            total_reviews: 0,
            is_verified: false,
            is_available: true,
            created_at: now,
            updated_at: now,
        }
    }

    /// Creates the tutor profile of an account. `user` is the caller's
    /// account, if the store holds it; `has_profile` tells whether that
    /// account already has a profile.
    ///
    /// Answers the profile to insert. Fails with `Validation` for an
    /// invalid request, with `NotFound` for an unknown account, with
    /// `Authorization` unless the account is a tutor or an administrator,
    /// and with `BadRequest` for a second profile.
    pub fn create_tutor_profile(
        user: Option<&User>,
        has_profile: bool,
        request: CreateTutorProfileRequest,
    ) -> (r: Result<TutorProfile, AppError>)
        ensures
            profile_creation_outcome(request@, opt_user(user), has_profile, r),
    {
        match request.validate() {
            Err(e) => {
                return Err(e);
            },
            Ok(_) => {},
        }
        let account = match user {
            None => {
                return Err(AppError::NotFound(String::from_str("User not found")));
            },
            Some(u) => u,
        };
        let refused = "Only tutors can create tutor profiles";
        match require_role(account.role, UserRole::Tutor, refused) {
            Err(e) => {
                return Err(e);
            },
            Ok(_) => {},
        }
        if has_profile {
            return Err(AppError::BadRequest(String::from_str("Tutor profile already exists")));
        }
        let id = fresh_id();
        let now = current_time();
        Ok(Self::new_profile(request, account.id, id, now))
    }

    /// The profile found under an identifier, joined with its account, or
    /// `NotFound`.
    pub fn get_tutor_by_id(found: Option<TutorResponse>) -> (r: Result<TutorResponse, AppError>)
        ensures
            match found {
                Some(t) => r is Ok && r->Ok_0@ == t@,
                None => r is Err && r->Err_0@ == tutor_missing(),
            },
    {
        match found {
            Some(t) => Ok(t),
            None => Err(AppError::NotFound(String::from_str("Tutor not found"))),
        }
    }

    /// The tutors shown in the directory: those of `tutors` that are
    /// available, in the order read.
    pub fn get_all_tutors(tutors: &Vec<TutorResponse>) -> (r: Vec<TutorResponse>)
        ensures
            tutor_views(r@) == listing(tutor_views(tutors@), None),
    {
        select(tutors, &SearchQuery { specialization: None })
    }

    /// The tutors a search for `specialization` answers with: those of
    /// `tutors` that are available and have it, in the order read.
    pub fn search_tutors_by_specialization(tutors: &Vec<TutorResponse>, specialization: &str) -> (r:
        Vec<TutorResponse>)
        ensures
            tutor_views(r@) == listing(tutor_views(tutors@), Some(specialization@)),
    {
        select(tutors, &SearchQuery { specialization: Some(specialization.to_owned()) })
    }

    /// Decides an update of the profile of account `user_id` at `now`.
    /// `existing` is the identifier of that profile, `None` if the account
    /// has none.
    pub fn update_tutor_profile_at(
        user_id: Id,
        existing: Option<Id>,
        request: UpdateTutorProfileRequest,
        now: Timestamp,
    ) -> (r: Result<UpdateStatement, AppError>)
        ensures
            statement_result(r) == profile_update_of(request@, user_id, existing, now),
    {
        match request.validate() {
            Err(e) => {
                return Err(e);
            },
            Ok(_) => {},
        }
        if existing.is_none() {
            return Err(AppError::NotFound(String::from_str("Tutor profile not found")));
        }
        profile_update(request, user_id, now)
    }

    /// Decides an update of the profile of account `user_id`, stamped with
    /// the time of the call. `existing` is the identifier of that profile,
    /// `None` if the account has none.
    ///
    /// Answers the statement to run; the caller then reads the profile back
    /// from the store. Fails with `Validation` for an invalid request, with
    /// `NotFound` without a profile, and with `BadRequest` for a request
    /// without fields.
    pub fn update_tutor_profile(
        user_id: Id,
        existing: Option<Id>,
        request: UpdateTutorProfileRequest,
    ) -> (r: Result<UpdateStatement, AppError>)
        ensures
            exists|now: Timestamp|
                now.secs >= 0 && statement_result(r) == profile_update_of(
                    request@,
                    user_id,
                    existing,
                    now,
                ),
    {
        let now = current_time();
        let r = Self::update_tutor_profile_at(user_id, existing, request, now);
        assert(now.secs >= 0 && statement_result(r) == profile_update_of(
            request@,
            user_id,
            existing,
            now,
        ));
        r
    }

    /// The review to store for `request`, given a fresh identifier and the
    /// time.
    pub fn new_review(
        request: CreateReviewRequest,
        tutor_id: Id,
        student_id: Id,
        id: Id,
        now: Timestamp,
    ) -> (review: TutorReview)
        ensures
            review@ == new_review_of(request@, tutor_id, student_id, id, now),
    {
        TutorReview {
            id,
            tutor_id,
            student_id,
            rating: request.rating,
            comment: request.comment,
            created_at: now,
        }
    }

    /// Creates the review of tutor `tutor_id` by the student the token
    /// payload `student` names. `tutor_exists` tells whether the store
    /// holds the tutor, `already_reviewed` whether it holds a review of
    /// that tutor by that student.
    ///
    /// Answers the review to insert; the caller then recomputes the tutor's
    /// rating with [`TutorService::update_tutor_rating`]. Fails with
    /// `Authorization` unless the caller is a student, with `Validation`
    /// for an invalid request, with `NotFound` for an unknown tutor, and
    /// with `BadRequest` for a second review.
    pub fn create_review(
        tutor_id: Id,
        student: &Claims,
        tutor_exists: bool,
        already_reviewed: bool,
        request: CreateReviewRequest,
    ) -> (r: Result<TutorReview, AppError>)
        ensures
            review_outcome(request@, tutor_id, student@, tutor_exists, already_reviewed, r),
    {
        if !can_review(student.user_role()) {
            return Err(
                AppError::Authorization(String::from_str("Only students can review tutors")),
            );
        }
        match request.validate() {
            Err(e) => {
                return Err(e);
            },
            Ok(_) => {},
        }
        if !tutor_exists {
            return Err(AppError::NotFound(String::from_str("Tutor not found")));
        }
        if already_reviewed {
            return Err(
                AppError::BadRequest(String::from_str("Review already exists for this tutor")),
            );
        }
        let id = fresh_id();
        let now = current_time();
        Ok(Self::new_review(request, tutor_id, student.sub, id, now))
    }

    /// The responses for a tutor's reviews, in the order read.
    pub fn get_tutor_reviews(rows: &Vec<ReviewRow>) -> (r: Vec<ReviewResponse>)
        ensures
            lists_reviews(rows@, r@),
    {
        let mut responses: Vec<ReviewResponse> = Vec::new();
        let mut i: usize = 0;
        while i < rows.len()
            invariant
                i <= rows.len(),
                responses.len() == i,
                forall|j: int|
                    0 <= j < i ==> (#[trigger] responses@[j])@ == review_response_of(
                        rows@[j].review@,
                        rows@[j].first_name@,
                        rows@[j].last_name@,
                    ),
            decreases rows.len() - i,
        {
            let row = &rows[i];
            responses.push(
                ReviewResponse::of(&row.review, row.first_name.as_str(), row.last_name.as_str()),
            );
            i = i + 1;
        }
        responses
    }

    /// Recomputes a tutor's rating and review count from the ratings of all
    /// reviews the store holds for the tutor. What comes out replaces both
    /// fields of the profile.
    pub fn update_tutor_rating(ratings: &Vec<i32>) -> (summary: RatingSummary)
        ensures
            summary == summary_of(ratings@),
    {
        aggregate(ratings)
    }
}

/// A profile update without a present field is refused with `BadRequest`,
/// and no statement comes out of it.
pub proof fn lemma_empty_profile_update_rejected(
    request: UpdateTutorProfileRequestView,
    user_id: Id,
    profile_id: Id,
    now: Timestamp,
)
    requires
        request.is_empty(),
    ensures
        profile_update_of(request, user_id, Some(profile_id), now) == Err::<
            UpdateStatementView,
            AppErrorView,
        >(no_fields_failure()),
        no_fields_failure().kind == ErrorKind::BadRequest,
{
    lemma_profile_changes_empty(request);
}

} // verus!
