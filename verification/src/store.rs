//! A mathematical model of the record store, and what holds of sequences of
//! operations on it.
//!
//! The operations of this crate never touch the store: they are handed what
//! was read from it and answer what is to be written. The model says what
//! those reads see and what those writes do, so that properties spanning
//! several operations can be stated and proved.

use crate::clock::{Id, Timestamp};
use crate::errors::{AppError, AppErrorView, ErrorKind};
use crate::models::{
    lemma_role_tag_round_trip, rating_ok, role_of_tag, role_tag, user_response_of, CourseView,
    CreateReviewRequestView, CreateTutorProfileRequestView, CreateUserRequestView,
    LoginRequestView, LoginResponse, TutorProfileView, TutorReviewView, UpdateCourseRequestView,
    UserView,
};
use crate::policy::may_review;
use crate::rating::{aggregates_agree, summary_of, with_summary};
use crate::services::auth::{
    account_under, address_taken, duplicate_email, lemma_account_under_first, login_outcome,
    login_refusal, registered, registration_refusal,
};
use crate::services::course::{course_denied, course_update_of};
use crate::services::tutor::{
    duplicate_review, new_profile_of, new_review_of, profile_creation_refusal, review_refusal,
};
use crate::text::same_ignoring_case;
use crate::token::{
    claims_for, decoded_claims, expired, expiry_of, validation_of, ClaimsView,
};
use crate::update::UpdateStatementView;
use vstd::prelude::*;

verus! {

/// The records the store holds.
pub ghost struct Store {
    pub users: Seq<UserView>,
    pub tutors: Seq<TutorProfileView>,
    pub courses: Seq<CourseView>,
    pub reviews: Seq<TutorReviewView>,
}

/// The ratings of the reviews of `tutor` among `reviews`, in order.
pub open spec fn ratings_for(reviews: Seq<TutorReviewView>, tutor: Id) -> Seq<i32>
    decreases reviews.len(),
{
    if reviews.len() == 0 {
        Seq::empty()
    } else if reviews.last().tutor_id == tutor {
        ratings_for(reviews.drop_last(), tutor).push(reviews.last().rating)
    } else {
        ratings_for(reviews.drop_last(), tutor)
    }
}

impl Store {
    /// Whether an account is stored under `email`, whatever the case of its
    /// letters.
    pub open spec fn email_taken(self, email: Seq<char>) -> bool {
        address_taken(self.users, email)
    }

    /// The account a login under `email` is handed: the first one stored
    /// under it.
    pub open spec fn account_by_email(self, email: Seq<char>) -> Option<UserView> {
        account_under(self.users, email)
    }

    /// Whether a tutor profile with this identifier is stored.
    pub open spec fn tutor_exists(self, tutor: Id) -> bool {
        exists|i: int| 0 <= i < self.tutors.len() && (#[trigger] self.tutors[i]).id == tutor
    }

    /// Whether a review of `tutor` by `student` is stored.
    pub open spec fn has_review(self, tutor: Id, student: Id) -> bool {
        exists|i: int|
            0 <= i < self.reviews.len() && (#[trigger] self.reviews[i]).tutor_id == tutor
                && self.reviews[i].student_id == student
    }

    /// Whether account `user` has a tutor profile.
    pub open spec fn has_profile(self, user: Id) -> bool {
        exists|i: int| 0 <= i < self.tutors.len() && (#[trigger] self.tutors[i]).user_id == user
    }

    /// The account stored under an identifier, if there is one.
    pub open spec fn account(self, id: Id) -> Option<UserView> {
        if exists|i: int| 0 <= i < self.users.len() && (#[trigger] self.users[i]).id == id {
            Some(
                self.users[choose|i: int|
                    0 <= i < self.users.len() && (#[trigger] self.users[i]).id == id],
            )
        } else {
            None
        }
    }

    /// Whether slot `i` of the courses holds `course` and slot `j` of the
    /// profiles the profile it belongs to.
    pub open spec fn course_at(self, course: Id, i: int, j: int) -> bool {
        &&& 0 <= i < self.courses.len()
        &&& 0 <= j < self.tutors.len()
        &&& self.courses[i].id == course
        &&& self.tutors[j].id == self.courses[i].tutor_id
    }

    /// The account that owns a course through its tutor profile; `None`
    /// for a course that is not stored.
    pub open spec fn course_owner(self, course: Id) -> Option<Id> {
        if exists|i: int, j: int| self.course_at(course, i, j) {
            let (i, j) = choose|i: int, j: int| self.course_at(course, i, j);
            Some(self.tutors[j].user_id)
        } else {
            None
        }
    }

    /// No two accounts share an address, whatever the case of its letters.
    pub open spec fn emails_unique(self) -> bool {
        forall|i: int, j: int|
            0 <= i < j < self.users.len() ==> !same_ignoring_case(
                (#[trigger] self.users[i]).email,
                (#[trigger] self.users[j]).email,
            )
    }

    /// No account has two tutor profiles.
    pub open spec fn profiles_unique(self) -> bool {
        forall|i: int, j: int|
            0 <= i < j < self.tutors.len() ==> {
                let first = #[trigger] self.tutors[i];
                let second = #[trigger] self.tutors[j];
                first.user_id != second.user_id
            }
    }

    /// No student has reviewed one tutor twice.
    pub open spec fn reviews_unique(self) -> bool {
        forall|i: int, j: int|
            0 <= i < j < self.reviews.len() ==> {
                let first = #[trigger] self.reviews[i];
                let second = #[trigger] self.reviews[j];
                first.tutor_id != second.tutor_id || first.student_id != second.student_id
            }
    }

    /// Every stored rating is a whole number from 1 to 5.
    pub open spec fn ratings_in_scale(self) -> bool {
        forall|i: int|
            0 <= i < self.reviews.len() ==> rating_ok((#[trigger] self.reviews[i]).rating)
    }

    /// The ratings of all stored reviews of `tutor`.
    pub open spec fn ratings_of(self, tutor: Id) -> Seq<i32> {
        ratings_for(self.reviews, tutor)
    }

    /// Whether every profile carries the rating and review count of the
    /// reviews currently stored for it.
    pub open spec fn aggregates_current(self) -> bool {
        forall|i: int|
            0 <= i < self.tutors.len() ==> {
                let p = #[trigger] self.tutors[i];
                let summary = summary_of(self.ratings_of(p.id));
                p.rating == summary.rating && p.total_reviews == summary.total_reviews as i32
            }
    }

    /// The store after `account` has been inserted.
    pub open spec fn with_user(self, account: UserView) -> Store {
        Store { users: self.users.push(account), ..self }
    }

    /// The store after `review` has been inserted and the rating of its
    /// tutor recomputed at `now`.
    pub open spec fn with_review(self, review: TutorReviewView, now: Timestamp) -> Store {
        let reviews = self.reviews.push(review);
        let summary = summary_of(ratings_for(reviews, review.tutor_id));
        Store {
            reviews,
            tutors: self.tutors.map_values(
                |p: TutorProfileView|
                    if p.id == review.tutor_id {
                        with_summary(p, summary, now)
                    } else {
                        p
                    },
            ),
            ..self
        }
    }

    /// The store after a registration attempt: with the account `created`
    /// where the attempt is let through, untouched where it is refused.
    pub open spec fn after_registration(
        self,
        request: CreateUserRequestView,
        created: UserView,
    ) -> Store {
        if registration_refusal(request, self.email_taken(request.email)) is None {
            self.with_user(created)
        } else {
            self
        }
    }

    /// The store after an attempt of account `user` to create its tutor
    /// profile at `now`: with the new profile where the attempt is let
    /// through, untouched where it is refused.
    pub open spec fn after_profile_attempt(
        self,
        request: CreateTutorProfileRequestView,
        user: Id,
        id: Id,
        now: Timestamp,
    ) -> Store {
        if profile_creation_refusal(request, self.account(user), self.has_profile(user)) is None {
            Store { tutors: self.tutors.push(new_profile_of(request, user, id, now)), ..self }
        } else {
            self
        }
    }

    /// The store after a review attempt by the student `student` names:
    /// with the new review and the recomputed rating where the attempt is
    /// let through, untouched where it is refused.
    pub open spec fn after_review_attempt(
        self,
        request: CreateReviewRequestView,
        tutor: Id,
        student: ClaimsView,
        id: Id,
        now: Timestamp,
    ) -> Store {
        if review_refusal(
            request,
            student,
            self.tutor_exists(tutor),
            self.has_review(tutor, student.sub),
        ) is None {
            self.with_review(new_review_of(request, tutor, student.sub, id, now), now)
        } else {
            self
        }
    }
}

/// Addresses stay unique: a registration attempt, let through or refused,
/// never leaves two accounts under one address.
pub proof fn lemma_registration_keeps_emails_unique(
    store: Store,
    request: CreateUserRequestView,
    created: UserView,
)
    requires
        store.emails_unique(),
        created.email == request.email,
    ensures
        store.after_registration(request, created).emails_unique(),
{
    let after = store.after_registration(request, created);
    if registration_refusal(request, store.email_taken(request.email)) is None {
        assert forall|i: int, j: int| 0 <= i < j < after.users.len() implies !same_ignoring_case(
            (#[trigger] after.users[i]).email,
            (#[trigger] after.users[j]).email,
        ) by {
            if j == store.users.len() {
                assert(after.users[i] == store.users[i]);
                assert(!same_ignoring_case(store.users[i].email, request.email));
            } else {
                assert(after.users[i] == store.users[i]);
                assert(after.users[j] == store.users[j]);
            }
        }
    }
}

/// An account never has two tutor profiles: a creation attempt, let
/// through or refused, keeps profiles unique, and a profile that is let
/// through starts without rating or reviews.
pub proof fn lemma_profile_attempt_keeps_profiles_unique(
    store: Store,
    request: CreateTutorProfileRequestView,
    user: Id,
    id: Id,
    now: Timestamp,
)
    requires
        store.profiles_unique(),
    ensures
        store.after_profile_attempt(request, user, id, now).profiles_unique(),
        aggregates_agree(new_profile_of(request, user, id, now)),
{
    let after = store.after_profile_attempt(request, user, id, now);
    if profile_creation_refusal(request, store.account(user), store.has_profile(user)) is None {
        assert forall|i: int, j: int| 0 <= i < j < after.tutors.len() implies {
            let first = #[trigger] after.tutors[i];
            let second = #[trigger] after.tutors[j];
            first.user_id != second.user_id
        } by {
            if j == store.tutors.len() {
                assert(after.tutors[i] == store.tutors[i]);
                assert(store.tutors[i].user_id != user);
            } else {
                assert(after.tutors[i] == store.tutors[i]);
                assert(after.tutors[j] == store.tutors[j]);
            }
        }
    }
}

/// A student never has two reviews of one tutor, and every stored rating
/// is from 1 to 5: a review attempt, let through or refused, keeps both.
pub proof fn lemma_review_attempt_keeps_reviews_sound(
    store: Store,
    request: CreateReviewRequestView,
    tutor: Id,
    student: ClaimsView,
    id: Id,
    now: Timestamp,
)
    requires
        store.reviews_unique(),
        store.ratings_in_scale(),
    ensures
        store.after_review_attempt(request, tutor, student, id, now).reviews_unique(),
        store.after_review_attempt(request, tutor, student, id, now).ratings_in_scale(),
{
    let after = store.after_review_attempt(request, tutor, student, id, now);
    if review_refusal(
        request,
        student,
        store.tutor_exists(tutor),
        store.has_review(tutor, student.sub),
    ) is None {
        let added = new_review_of(request, tutor, student.sub, id, now);
        assert forall|i: int, j: int| 0 <= i < j < after.reviews.len() implies {
            let first = #[trigger] after.reviews[i];
            let second = #[trigger] after.reviews[j];
            first.tutor_id != second.tutor_id || first.student_id != second.student_id
        } by {
            if j == store.reviews.len() {
                assert(after.reviews[i] == store.reviews[i]);
                assert(after.reviews[j] == added);
            } else {
                assert(after.reviews[i] == store.reviews[i]);
                assert(after.reviews[j] == store.reviews[j]);
            }
        }
        assert forall|i: int| 0 <= i < after.reviews.len() implies rating_ok(
            (#[trigger] after.reviews[i]).rating,
        ) by {
            if i < store.reviews.len() {
                assert(after.reviews[i] == store.reviews[i]);
            }
        }
    }
}

/// Only its owner updates a course, and no one else can tell a course of
/// another account from one that is not stored: an update that yields a
/// statement comes from the owner, and for any other caller the answer for
/// a stored course is the answer for a missing one.
pub proof fn lemma_course_update_needs_owner(
    store: Store,
    request: UpdateCourseRequestView,
    course: Id,
    missing: Id,
    user: Id,
    now: Timestamp,
)
    requires
        store.course_owner(missing) is None,
    ensures
        course_update_of(request, course, user, store.course_owner(course), now) is Ok
            ==> store.course_owner(course) == Some(user),
        store.course_owner(course) != Some(user) ==> course_update_of(
            request,
            course,
            user,
            store.course_owner(course),
            now,
        ) == course_update_of(request, missing, user, store.course_owner(missing), now),
        store.course_owner(course) != Some(user) && request.valid() ==> course_update_of(
            request,
            course,
            user,
            store.course_owner(course),
            now,
        ) == Err::<UpdateStatementView, AppErrorView>(course_denied()),
{
}

/// Registering twice under one address fails the second time: once an
/// account is stored, a valid request under the same address, in whatever
/// case, is refused with `BadRequest`, and the store stays as it is.
pub proof fn lemma_second_registration_refused(
    store: Store,
    first: CreateUserRequestView,
    account: UserView,
    second: CreateUserRequestView,
    attempted: UserView,
)
    requires
        registered(first, account),
        second.valid(),
        same_ignoring_case(second.email, first.email),
    ensures
        ({
            let after = store.with_user(account);
            &&& registration_refusal(second, after.email_taken(second.email)) == Some(
                duplicate_email(),
            )
            &&& duplicate_email().kind == ErrorKind::BadRequest
            &&& after.after_registration(second, attempted) == after
        }),
{
    let after = store.with_user(account);
    let last = store.users.len() as int;
    assert(after.users[last] == account);
    assert(same_ignoring_case(after.users[last].email, second.email));
}

/// A second review of one tutor by one student fails with `BadRequest`,
/// and leaves the store, and with it the tutor's rating and review count,
/// as the first review left them.
pub proof fn lemma_second_review_refused(
    store: Store,
    review: TutorReviewView,
    stored_at: Timestamp,
    student: ClaimsView,
    request: CreateReviewRequestView,
    id: Id,
    now: Timestamp,
)
    requires
        store.tutor_exists(review.tutor_id),
        review.student_id == student.sub,
        may_review(role_of_tag(student.role)),
        request.valid(),
    ensures
        ({
            let after = store.with_review(review, stored_at);
            let again = after.after_review_attempt(request, review.tutor_id, student, id, now);
            &&& review_refusal(
                request,
                student,
                after.tutor_exists(review.tutor_id),
                after.has_review(review.tutor_id, student.sub),
            ) == Some(duplicate_review())
            &&& duplicate_review().kind == ErrorKind::BadRequest
            &&& again == after
            &&& again.ratings_of(review.tutor_id) == after.ratings_of(review.tutor_id)
        }),
{
    let after = store.with_review(review, stored_at);
    let i = choose|i: int|
        0 <= i < store.tutors.len() && (#[trigger] store.tutors[i]).id == review.tutor_id;
    assert(after.tutors[i].id == review.tutor_id);
    let last = store.reviews.len() as int;
    assert(after.reviews[last] == review);
}

/// The rating always equals the mean of the reviews stored: if every
/// profile carries the summary of its reviews, it still does after a
/// review has been inserted and its tutor's rating recomputed.
pub proof fn lemma_review_keeps_aggregates_current(
    store: Store,
    review: TutorReviewView,
    now: Timestamp,
)
    requires
        store.aggregates_current(),
    ensures
        store.with_review(review, now).aggregates_current(),
{
    let after = store.with_review(review, now);
    assert(after.reviews.drop_last() =~= store.reviews);
    assert forall|i: int| 0 <= i < after.tutors.len() implies {
        let p = #[trigger] after.tutors[i];
        let summary = summary_of(after.ratings_of(p.id));
        p.rating == summary.rating && p.total_reviews == summary.total_reviews as i32
    } by {
        let before = store.tutors[i];
        if before.id != review.tutor_id {
            assert(after.ratings_of(before.id) == store.ratings_of(before.id));
        }
    }
}

/// Register, then log in with the same credentials, then validate the
/// token: the login succeeds, its response names the created account, and
/// the token validates, at any time up to its expiry, to claims whose
/// subject is the account's identifier and whose role is the role the
/// account registered with.
///
/// `issued` is the instant of the login, which is not before the epoch, and
/// `checked` the instant of the validation.
pub proof fn lemma_register_login_validate(
    request: CreateUserRequestView,
    account: UserView,
    secret: Seq<char>,
    issued: Timestamp,
    outcome: Result<LoginResponse, AppError>,
    checked: Timestamp,
)
    requires
        request.valid(),
        registered(request, account),
        issued.secs >= 0,
        login_outcome(
            LoginRequestView { email: request.email, password: request.password },
            Some(account),
            secret,
            issued,
            outcome,
        ),
        !checked.after_second(issued.secs + 86400),
    ensures
        login_refusal(
            LoginRequestView { email: request.email, password: request.password },
            Some(account),
        ) is None,
        outcome is Ok,
        ({
            let response = outcome->Ok_0@;
            let claims = claims_for(user_response_of(account), expiry_of(issued)->0);
            &&& response.user.id == account.id
            &&& response.user.email == request.email
            &&& response.user.role == request.role
            &&& response.user.is_active
            &&& validation_of(decoded_claims(response.token, secret), checked) == Ok::<
                ClaimsView,
                AppErrorView,
            >(claims)
            &&& claims.sub == account.id
            &&& claims.email == request.email
            &&& claims.role == role_tag(request.role)
            &&& role_of_tag(claims.role) == Some(request.role)
        }),
{
    lemma_role_tag_round_trip(request.role);
}

/// Register under an address no account is stored under, then log in with
/// the same credentials: the store hands the login the account just
/// created, the login succeeds and names it, and its token validates, at
/// any time up to its expiry, to claims whose subject is the created
/// account's identifier and whose role is the role it registered with.
pub proof fn lemma_login_after_registration(
    store: Store,
    request: CreateUserRequestView,
    account: UserView,
    secret: Seq<char>,
    issued: Timestamp,
    outcome: Result<LoginResponse, AppError>,
    checked: Timestamp,
)
    requires
        registration_refusal(request, store.email_taken(request.email)) is None,
        registered(request, account),
        issued.secs >= 0,
        login_outcome(
            LoginRequestView { email: request.email, password: request.password },
            store.after_registration(request, account).account_by_email(request.email),
            secret,
            issued,
            outcome,
        ),
        !checked.after_second(issued.secs + 86400),
    ensures
        store.after_registration(request, account).account_by_email(request.email) == Some(
            account,
        ),
        outcome is Ok,
        ({
            let response = outcome->Ok_0@;
            let claims = claims_for(user_response_of(account), expiry_of(issued)->0);
            &&& response.user.id == account.id
            &&& response.user.email == request.email
            &&& response.user.role == request.role
            &&& response.user.is_active
            &&& validation_of(decoded_claims(response.token, secret), checked) == Ok::<
                ClaimsView,
                AppErrorView,
            >(claims)
            &&& claims.sub == account.id
            &&& role_of_tag(claims.role) == Some(request.role)
        }),
{
    let after = store.after_registration(request, account);
    let last = store.users.len() as int;
    assert(after.users[last] == account);
    assert forall|j: int| 0 <= j < last implies !same_ignoring_case(
        (#[trigger] after.users[j]).email,
        request.email,
    ) by {
        assert(after.users[j] == store.users[j]);
    }
    lemma_account_under_first(after.users, request.email, last);
    lemma_register_login_validate(request, account, secret, issued, outcome, checked);
}

/// Whenever the token of a login validates, at whatever time, the claims
/// name the account that logged in.
pub proof fn lemma_login_token_names_account(
    request: LoginRequestView,
    account: UserView,
    secret: Seq<char>,
    issued: Timestamp,
    response: LoginResponse,
    checked: Timestamp,
    claims: ClaimsView,
)
    requires
        login_outcome(request, Some(account), secret, issued, Ok(response)),
        validation_of(decoded_claims(response@.token, secret), checked) == Ok::<
            ClaimsView,
            AppErrorView,
        >(claims),
    ensures
        response@.user == user_response_of(account),
        claims.sub == account.id,
        claims.email == account.email,
        claims.role == role_tag(account.role),
        role_of_tag(claims.role) == Some(account.role),
        !expired(claims, checked),
{
    lemma_role_tag_round_trip(account.role);
}

/// A login that is let through always yields a token that validates, under
/// the same secret, at any time up to its expiry 24 hours after issue.
pub proof fn lemma_issued_token_validates(
    request: LoginRequestView,
    account: UserView,
    secret: Seq<char>,
    issued: Timestamp,
    response: LoginResponse,
    checked: Timestamp,
)
    requires
        login_outcome(request, Some(account), secret, issued, Ok(response)),
        !checked.after_second(issued.secs + 86400),
    ensures
        expiry_of(issued) is Some,
        validation_of(decoded_claims(response@.token, secret), checked) == Ok::<
            ClaimsView,
            AppErrorView,
        >(claims_for(user_response_of(account), expiry_of(issued)->0)),
{
}

} // verus!
