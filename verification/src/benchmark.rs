//! Benchmark outcomes as the orchestration layer sees them.
//!
//! The raw execution metrics and judge scores are floating-point data
//! that only the presentation layer consumes; the orchestration logic
//! reads the plain parts held here.

use vstd::prelude::*;

verus! {

/// User-provided rating for a variant.
#[derive(Debug, PartialEq, Eq)]
pub struct UserRating {
    /// Overall score (1-5 stars).
    pub stars: u8,
    /// Free-form notes.
    pub notes: String,
}

/// Mathematical image of a user rating.
#[verifier::ext_equal]
pub struct UserRatingView {
    pub stars: u8,
    pub notes: Seq<char>,
}

impl DeepView for UserRating {
    type V = UserRatingView;

    open spec fn deep_view(&self) -> UserRatingView {
        UserRatingView { stars: self.stars, notes: self.notes.deep_view() }
    }
}

impl Clone for UserRating {
    /// Copies both fields; the mathematical value is unchanged.
    fn clone(&self) -> (r: Self)
        ensures
            r.deep_view() == self.deep_view(),
    {
        let r = UserRating { stars: self.stars, notes: self.notes.clone() };
        proof {
            assert(r.deep_view() =~= self.deep_view());
        }
        r
    }
}

/// The plain parts of a variant's benchmark results: build and test
/// outcomes plus the user's rating. Continuous metrics (runtimes,
/// judge scores) live outside the orchestration core.
#[derive(Debug, PartialEq, Eq)]
pub struct BenchmarkOutcome {
    /// Whether the project built successfully on this variant.
    pub build_success: bool,
    /// Number of tests passed, if tests ran.
    pub tests_passed: Option<u32>,
    /// Number of tests in total, if tests ran.
    pub tests_total: Option<u32>,
    /// The user's rating, once given.
    pub user_rating: Option<UserRating>,
}

/// Mathematical image of a benchmark outcome.
#[verifier::ext_equal]
pub struct BenchmarkOutcomeView {
    pub build_success: bool,
    pub tests_passed: Option<u32>,
    pub tests_total: Option<u32>,
    pub user_rating: Option<UserRatingView>,
}

impl DeepView for BenchmarkOutcome {
    type V = BenchmarkOutcomeView;

    open spec fn deep_view(&self) -> BenchmarkOutcomeView {
        BenchmarkOutcomeView {
            build_success: self.build_success,
            tests_passed: self.tests_passed,
            tests_total: self.tests_total,
            user_rating: self.user_rating.deep_view(),
        }
    }
}

impl Clone for BenchmarkOutcome {
    /// Copies every field; the mathematical value is unchanged.
    fn clone(&self) -> (r: Self)
        ensures
            r.deep_view() == self.deep_view(),
    {
        let r = BenchmarkOutcome {
            build_success: self.build_success,
            tests_passed: self.tests_passed,
            tests_total: self.tests_total,
            user_rating: match &self.user_rating {
                Some(u) => Some(u.clone()),
                None => None,
            },
        };
        proof {
            assert(r.deep_view() =~= self.deep_view());
        }
        r
    }
}

} // verus!
