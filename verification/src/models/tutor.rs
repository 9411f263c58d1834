//! Tutor profiles: the stored record with its derived rating, the requests
//! that create and change one, the response and the directory search.

use crate::clock::{Id, Timestamp};
use crate::errors::AppError;
use crate::models::{opt_text, opt_texts, User};
use crate::text::{copy_texts, texts};
use crate::validation::{
    has_length_within, is_within, length_within, report, validation_outcome, value_within,
};
use vstd::prelude::*;

verus! {

/// An average kept exactly: the sum of the ratings and how many there are.
/// The average itself is `total / count`.
#[derive(Clone, Copy, Debug, PartialEq, Eq, Structural)]
pub struct Rating {
    pub total: i128,
    pub count: u64,
}

/// A stored tutor profile. `rating` and `total_reviews` are derived from the
/// profile's reviews and written by the rating aggregator alone.
#[derive(Clone, Debug)]
pub struct TutorProfile {
    pub id: Id,
    pub user_id: Id,
    pub bio: String,
    pub specializations: Vec<String>,
    pub hourly_rate: i32,
    pub years_experience: i32,
    pub rating: Option<Rating>,
    pub total_reviews: i32,
    pub is_verified: bool,
    pub is_available: bool,
    pub created_at: Timestamp,
    pub updated_at: Timestamp,
}

/// Mathematical value of [`TutorProfile`].
pub ghost struct TutorProfileView {
    pub id: Id,
    pub user_id: Id,
    pub bio: Seq<char>,
    pub specializations: Seq<Seq<char>>,
    pub hourly_rate: i32,
    pub years_experience: i32,
    pub rating: Option<Rating>,
    pub total_reviews: i32,
    pub is_verified: bool,
    pub is_available: bool,
    pub created_at: Timestamp,
    pub updated_at: Timestamp,
}

impl View for TutorProfile {
    type V = TutorProfileView;

    open spec fn view(&self) -> TutorProfileView {
        TutorProfileView {
            id: self.id,
            user_id: self.user_id,
            bio: self.bio@,
            specializations: texts(self.specializations@),
            hourly_rate: self.hourly_rate,
            years_experience: self.years_experience,
            rating: self.rating,
            total_reviews: self.total_reviews,
            is_verified: self.is_verified,
            is_available: self.is_available,
            created_at: self.created_at,
            updated_at: self.updated_at,
        }
    }
}

/// A request to create a tutor profile.
#[derive(Clone, Debug)]
pub struct CreateTutorProfileRequest {
    pub bio: String,
    pub specializations: Vec<String>,
    pub hourly_rate: i32,
    pub years_experience: i32,
}

/// Mathematical value of [`CreateTutorProfileRequest`].
pub ghost struct CreateTutorProfileRequestView {
    pub bio: Seq<char>,
    pub specializations: Seq<Seq<char>>,
    pub hourly_rate: i32,
    pub years_experience: i32,
}

impl View for CreateTutorProfileRequest {
    type V = CreateTutorProfileRequestView;

    open spec fn view(&self) -> CreateTutorProfileRequestView {
        CreateTutorProfileRequestView {
            bio: self.bio@,
            specializations: texts(self.specializations@),
            hourly_rate: self.hourly_rate,
            years_experience: self.years_experience,
        }
    }
}

/// Rule on a biography: 50 to 1000 characters.
pub open spec fn bio_ok(bio: Seq<char>) -> bool {
    length_within(bio, 50, 1000)
}

/// Rule on an hourly rate, in minor currency units: 1000 to 50000.
pub open spec fn hourly_rate_ok(rate: i32) -> bool {
    value_within(rate as int, 1000, 50000)
}

/// Rule on years of experience: 0 to 50.
pub open spec fn experience_ok(years: i32) -> bool {
    value_within(years as int, 0, 50)
}

impl CreateTutorProfileRequestView {
    /// The first field that breaks its rule, in declaration order.
    pub open spec fn first_invalid(self) -> Option<Seq<char>> {
        if !bio_ok(self.bio) {
            Some("bio"@)
        } else if !hourly_rate_ok(self.hourly_rate) {
            Some("hourly_rate"@)
        } else if !experience_ok(self.years_experience) {
            Some("years_experience"@)
        } else {
            None
        }
    }

    pub open spec fn valid(self) -> bool {
        self.first_invalid() is None
    }
}

impl CreateTutorProfileRequest {
    /// Checks every field rule; fails with `Validation` naming the first
    /// offending field.
    pub fn validate(&self) -> (r: Result<(), AppError>)
        ensures
            validation_outcome(self@.first_invalid(), r),
    {
        let invalid = if !has_length_within(self.bio.as_str(), 50, 1000) {
            Some("bio")
        } else if !is_within(self.hourly_rate, 1000, 50000) {
            Some("hourly_rate")
        } else if !is_within(self.years_experience, 0, 50) {
            Some("years_experience")
        } else {
            None
        };
        report(invalid)
    }
}

/// A sparse change to a tutor profile: each field is either absent (left as
/// it is) or present with its new value.
#[derive(Clone, Debug)]
pub struct UpdateTutorProfileRequest {
    pub bio: Option<String>,
    pub specializations: Option<Vec<String>>,
    pub hourly_rate: Option<i32>,
    pub years_experience: Option<i32>,
    pub is_available: Option<bool>,
}

/// Mathematical value of [`UpdateTutorProfileRequest`].
pub ghost struct UpdateTutorProfileRequestView {
    pub bio: Option<Seq<char>>,
    pub specializations: Option<Seq<Seq<char>>>,
    pub hourly_rate: Option<i32>,
    pub years_experience: Option<i32>,
    pub is_available: Option<bool>,
}

impl View for UpdateTutorProfileRequest {
    type V = UpdateTutorProfileRequestView;

    open spec fn view(&self) -> UpdateTutorProfileRequestView {
        UpdateTutorProfileRequestView {
            bio: opt_text(self.bio),
            specializations: opt_texts(self.specializations),
            hourly_rate: self.hourly_rate,
            years_experience: self.years_experience,
            is_available: self.is_available,
        }
    }
}

impl UpdateTutorProfileRequestView {
    /// The first present field that breaks its rule, in declaration order.
    /// Absent fields break none.
    pub open spec fn first_invalid(self) -> Option<Seq<char>> {
        if self.bio is Some && !bio_ok(self.bio->0) {
            Some("bio"@)
        } else if self.hourly_rate is Some && !hourly_rate_ok(self.hourly_rate->0) {
            Some("hourly_rate"@)
        } else if self.years_experience is Some && !experience_ok(self.years_experience->0) {
            Some("years_experience"@)
        } else {
            None
        }
    }

    pub open spec fn valid(self) -> bool {
        self.first_invalid() is None
    }

    /// Whether no field is present.
    pub open spec fn is_empty(self) -> bool {
        &&& self.bio is None
        &&& self.specializations is None
        &&& self.hourly_rate is None
        &&& self.years_experience is None
        &&& self.is_available is None
    }
}

impl UpdateTutorProfileRequest {
    /// Checks the rule of every present field; fails with `Validation`
    /// naming the first offending field.
    pub fn validate(&self) -> (r: Result<(), AppError>)
        ensures
            validation_outcome(self@.first_invalid(), r),
    {
        let bio_bad = match &self.bio {
            Some(b) => !has_length_within(b.as_str(), 50, 1000),
            None => false,
        };
        let rate_bad = match self.hourly_rate {
            Some(r) => !is_within(r, 1000, 50000),
            None => false,
        };
        let experience_bad = match self.years_experience {
            Some(y) => !is_within(y, 0, 50),
            None => false,
        };
        let invalid = if bio_bad {
            Some("bio")
        } else if rate_bad {
            Some("hourly_rate")
        } else if experience_bad {
            Some("years_experience")
        } else {
            None
        };
        report(invalid)
    }
}

/// A tutor profile as shown to clients, joined with its account's name and
/// address.
#[derive(Clone, Debug)]
pub struct TutorResponse {
    pub id: Id,
    pub user_id: Id,
    pub first_name: String,
    pub last_name: String,
    pub email: String,
    pub bio: String,
    pub specializations: Vec<String>,
    pub hourly_rate: i32,
    pub years_experience: i32,
    pub rating: Option<Rating>,
    pub total_reviews: i32,
    pub is_verified: bool,
    pub is_available: bool,
    pub created_at: Timestamp,
    pub updated_at: Timestamp,
}

/// Mathematical value of [`TutorResponse`].
pub ghost struct TutorResponseView {
    pub id: Id,
    pub user_id: Id,
    pub first_name: Seq<char>,
    pub last_name: Seq<char>,
    pub email: Seq<char>,
    pub bio: Seq<char>,
    pub specializations: Seq<Seq<char>>,
    pub hourly_rate: i32,
    pub years_experience: i32,
    pub rating: Option<Rating>,
    pub total_reviews: i32,
    pub is_verified: bool,
    pub is_available: bool,
    pub created_at: Timestamp,
    pub updated_at: Timestamp,
}

impl View for TutorResponse {
    type V = TutorResponseView;

    open spec fn view(&self) -> TutorResponseView {
        TutorResponseView {
            id: self.id,
            user_id: self.user_id,
            first_name: self.first_name@,
            last_name: self.last_name@,
            email: self.email@,
            bio: self.bio@,
            specializations: texts(self.specializations@),
            hourly_rate: self.hourly_rate,
            years_experience: self.years_experience,
            rating: self.rating,
            total_reviews: self.total_reviews,
            is_verified: self.is_verified,
            is_available: self.is_available,
            created_at: self.created_at,
            updated_at: self.updated_at,
        }
    }
}

/// The response for a profile whose account carries the given name and
/// address.
pub open spec fn tutor_response_of(
    profile: TutorProfileView,
    first_name: Seq<char>,
    last_name: Seq<char>,
    email: Seq<char>,
) -> TutorResponseView {
    TutorResponseView {
        id: profile.id,
        user_id: profile.user_id,
        first_name,
        last_name,
        email,
        bio: profile.bio,
        specializations: profile.specializations,
        hourly_rate: profile.hourly_rate,
        years_experience: profile.years_experience,
        rating: profile.rating,
        total_reviews: profile.total_reviews,
        is_verified: profile.is_verified,
        is_available: profile.is_available,
        created_at: profile.created_at,
        updated_at: profile.updated_at,
    }
}

/// What a search for tutors asks for: a specialization, or every tutor.
#[derive(Clone, Debug)]
pub struct SearchQuery {
    pub specialization: Option<String>,
}

impl View for SearchQuery {
    type V = Option<Seq<char>>;

    open spec fn view(&self) -> Option<Seq<char>> {
        opt_text(self.specialization)
    }
}

/// Whether a tutor belongs in the answer to a search: the tutor must be
/// available and, where the search names a specialization, have it.
pub open spec fn listed(tutor: TutorResponseView, query: Option<Seq<char>>) -> bool {
    tutor.is_available && match query {
        Some(wanted) => tutor.specializations.contains(wanted),
        None => true,
    }
}

impl TutorResponse {
    /// The response for `profile`, joined with its account.
    pub fn of(profile: &TutorProfile, account: &User) -> (r: TutorResponse)
        ensures
            r@ == tutor_response_of(
                profile@,
                account@.first_name,
                account@.last_name,
                account@.email,
            ),
    {
        TutorResponse {
            id: profile.id,
            user_id: profile.user_id,
            first_name: account.first_name.clone(),
            last_name: account.last_name.clone(),
            email: account.email.clone(),
            bio: profile.bio.clone(),
            specializations: copy_texts(&profile.specializations),
            hourly_rate: profile.hourly_rate,
            years_experience: profile.years_experience,
            rating: profile.rating,
            total_reviews: profile.total_reviews,
            is_verified: profile.is_verified,
            is_available: profile.is_available,
            created_at: profile.created_at,
            updated_at: profile.updated_at,
        }
    }

    /// An independent copy of this response.
    pub fn duplicate(&self) -> (copy: TutorResponse)
        ensures
            copy@ == self@,
    {
        TutorResponse {
            id: self.id,
            user_id: self.user_id,
            first_name: self.first_name.clone(),
            last_name: self.last_name.clone(),
            email: self.email.clone(),
            bio: self.bio.clone(),
            specializations: copy_texts(&self.specializations),
            hourly_rate: self.hourly_rate,
            years_experience: self.years_experience,
            rating: self.rating,
            total_reviews: self.total_reviews,
            is_verified: self.is_verified,
            is_available: self.is_available,
            created_at: self.created_at,
            updated_at: self.updated_at,
        }
    }

    /// Whether this tutor has the specialization `wanted`.
    pub fn has_specialization(&self, wanted: &String) -> (has: bool)
        ensures
            has == self@.specializations.contains(wanted@),
    {
        let mut i: usize = 0;
        while i < self.specializations.len()
            invariant
                i <= self.specializations.len(),
                forall|j: int| 0 <= j < i ==> self.specializations@[j]@ != wanted@,
            decreases self.specializations.len() - i,
        {
            if self.specializations[i] == *wanted {
                assert(texts(self.specializations@)[i as int] == wanted@);
                return true;
            }
            i = i + 1;
        }
        assert forall|j: int| 0 <= j < texts(self.specializations@).len() implies texts(
            self.specializations@,
        )[j] != wanted@ by {}
        false
    }

    /// Decides [`listed`].
    pub fn is_listed(&self, query: &SearchQuery) -> (yes: bool)
        ensures
            yes == listed(self@, query@),
    {
        if !self.is_available {
            return false;
        }
        match &query.specialization {
            Some(wanted) => self.has_specialization(wanted),
            None => true,
        }
    }
}

} // verus!
