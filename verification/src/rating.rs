//! The derived rating of a tutor: recomputed in full from the ratings of
//! all reviews currently stored, never adjusted incrementally.

use crate::clock::{Id, Timestamp};
use crate::models::{Rating, TutorProfileView};
use crate::update::{SqlValue, SqlValueView, UpdateStatement, UpdateStatementView};
use vstd::prelude::*;
use vstd::string::*;

verus! {

/// Sum of a list of ratings.
pub open spec fn sum_of(ratings: Seq<i32>) -> int
    decreases ratings.len(),
{
    if ratings.len() == 0 {
        0
    } else {
        sum_of(ratings.drop_last()) + ratings.last()
    }
}

/// What the aggregator writes to a tutor profile.
#[derive(Clone, Copy, Debug, PartialEq, Eq, Structural)]
pub struct RatingSummary {
    /// The average, kept as sum and count; `None` without reviews.
    pub rating: Option<Rating>,
    pub total_reviews: u64,
}

/// The summary of a tutor whose stored reviews carry `ratings`: the
/// arithmetic mean of all of them and their number; no mean without
/// reviews.
pub open spec fn summary_of(ratings: Seq<i32>) -> RatingSummary {
    RatingSummary {
        rating: if ratings.len() == 0 {
            None
        } else {
            Some(Rating { total: sum_of(ratings) as i128, count: ratings.len() as u64 })
        },
        total_reviews: ratings.len() as u64,
    }
}

/// The profile after the aggregator has written `summary` at `now`: rating
/// and review count are replaced, the modification time is stamped, and
/// nothing else changes.
pub open spec fn with_summary(
    profile: TutorProfileView,
    summary: RatingSummary,
    now: Timestamp,
) -> TutorProfileView {
    TutorProfileView {
        rating: summary.rating,
        total_reviews: summary.total_reviews as i32,
        updated_at: now,
        ..profile
    }
}

/// A sum of `n` ratings lies between `n` times the least and `n` times the
/// greatest 32-bit value, so the 128 bits a summary keeps always hold it.
pub proof fn lemma_sum_bounds(ratings: Seq<i32>)
    ensures
        -0x8000_0000 * ratings.len() <= sum_of(ratings) <= 0x7fff_ffff * ratings.len(),
    decreases ratings.len(),
{
    if ratings.len() > 0 {
        lemma_sum_bounds(ratings.drop_last());
    }
}

/// A full recompute after one more review agrees with an incremental
/// update: the sum grows by the new rating and the count by one.
pub proof fn lemma_summary_push(ratings: Seq<i32>, rating: i32)
    requires
        ratings.len() < u64::MAX,
    ensures
        sum_of(ratings.push(rating)) == sum_of(ratings) + rating,
        summary_of(ratings.push(rating)).total_reviews == summary_of(ratings).total_reviews + 1,
        summary_of(ratings.push(rating)).rating == Some(
            Rating {
                total: (sum_of(ratings) + rating) as i128,
                count: (ratings.len() + 1) as u64,
            },
        ),
{
    assert(ratings.push(rating).drop_last() =~= ratings);
}

/// Whether every rating of a list is a whole number from 1 to 5.
pub open spec fn all_in_scale(ratings: Seq<i32>) -> bool {
    forall|i: int| 0 <= i < ratings.len() ==> 1 <= #[trigger] ratings[i] <= 5
}

/// Whether the derived fields of a profile agree with each other: no
/// rating without reviews, and a rating over exactly as many reviews as the
/// profile counts.
pub open spec fn aggregates_agree(profile: TutorProfileView) -> bool {
    match profile.rating {
        None => profile.total_reviews == 0,
        Some(rating) => rating.count == profile.total_reviews && profile.total_reviews > 0,
    }
}

/// The mean of ratings from 1 to 5 lies between 1 and 5: their sum is at
/// least their number and at most five times their number.
pub proof fn lemma_mean_in_scale(ratings: Seq<i32>)
    requires
        all_in_scale(ratings),
    ensures
        ratings.len() <= sum_of(ratings) <= 5 * ratings.len(),
    decreases ratings.len(),
{
    if ratings.len() > 0 {
        assert(1 <= ratings[ratings.len() - 1] <= 5);
        lemma_mean_in_scale(ratings.drop_last());
    }
}

/// What the aggregator writes leaves the derived fields of a profile in
/// agreement, as long as the reviews can be counted in 32 bits.
pub proof fn lemma_summary_agrees(profile: TutorProfileView, ratings: Seq<i32>, now: Timestamp)
    requires
        ratings.len() <= i32::MAX,
    ensures
        aggregates_agree(with_summary(profile, summary_of(ratings), now)),
{
}

/// Recomputes a tutor's summary from the ratings of all stored reviews.
pub fn aggregate(ratings: &Vec<i32>) -> (summary: RatingSummary)
    ensures
        summary == summary_of(ratings@),
{
    let n = ratings.len();
    let mut total: i128 = 0;
    let mut i: usize = 0;
    while i < n
        invariant
            n == ratings.len(),
            i <= n,
            total == sum_of(ratings@.take(i as int)),
            -0x8000_0000 * i <= total <= 0x7fff_ffff * i,
        decreases n - i,
    {
        proof {
            assert(ratings@.take(i + 1).drop_last() =~= ratings@.take(i as int));
        }
        total = total + ratings[i] as i128;
        i = i + 1;
    }
    proof {
        assert(ratings@.take(n as int) =~= ratings@);
    }
    if n == 0 {
        RatingSummary { rating: None, total_reviews: 0 }
    } else {
        RatingSummary {
            rating: Some(Rating { total, count: n as u64 }),
            total_reviews: n as u64,
        }
    }
}

/// The statement that writes `summary` to profile `tutor` at `now`. It
/// replaces rating and review count in full and touches nothing else but
/// the modification time.
pub open spec fn rating_write(
    summary: RatingSummary,
    tutor: Id,
    now: Timestamp,
) -> UpdateStatementView {
    UpdateStatementView {
        sql: "UPDATE tutors SET rating = $1, total_reviews = $2, updated_at = $3 WHERE id = $4"@,
        binds: seq![
            SqlValueView::Average(summary.rating),
            SqlValueView::Count(summary.total_reviews),
            SqlValueView::Time(now),
            SqlValueView::Key(tutor),
        ],
    }
}

/// Builds [`rating_write`].
pub fn rating_statement(summary: RatingSummary, tutor: Id, now: Timestamp) -> (s: UpdateStatement)
    ensures
        s@ == rating_write(summary, tutor, now),
{
    let mut binds: Vec<SqlValue> = Vec::new();
    binds.push(SqlValue::Average(summary.rating));
    binds.push(SqlValue::Count(summary.total_reviews));
    binds.push(SqlValue::Time(now));
    binds.push(SqlValue::Key(tutor));
    let s = UpdateStatement {
        sql: String::from_str(
            "UPDATE tutors SET rating = $1, total_reviews = $2, updated_at = $3 WHERE id = $4",
        ),
        binds,
    };
    assert(s@.binds =~= rating_write(summary, tutor, now).binds);
    s
}

} // verus!
