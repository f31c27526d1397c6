//! Verified state machines for a learning platform: a course-milestone
//! tracker that rewards learners, a soulbound credential NFT, a scholarship
//! treasury and the LRN reward token.
//!
//! Every account is identified by a `u64`; the host environment that owns
//! storage, authentication and event publication lives outside this crate.
use vstd::prelude::*;

pub mod course_milestone;
pub mod learn_token;
pub mod scholar_nft;
pub mod scholarship_treasury;
pub mod table;

verus! {

/// The identity of an account (a learner, a donor, an admin or a contract).
pub type AccountId = u64;

/// How a call relates to the transition that the model prescribes: where the
/// model succeeds the call returns `Ok` and leaves `after` in the model's new
/// state; where the model refuses, the call returns that same error and leaves
/// the state untouched.
pub open spec fn outcome<S, E>(step: Result<S, E>, before: S, after: S, r: Result<(), E>) -> bool {
    match step {
        Ok(next) => r is Ok && after == next,
        Err(e) => r == Err::<(), E>(e) && after == before,
    }
}

/// The texts of a sequence of strings.
pub open spec fn string_views(v: Seq<String>) -> Seq<Seq<char>> {
    v.map_values(|s: String| s@)
}

/// Like `outcome`, for a call that returns a value on success.
pub open spec fn outcome_with<S, T, E>(
    step: Result<(S, T), E>,
    before: S,
    after: S,
    r: Result<T, E>,
) -> bool {
    match step {
        Ok((next, value)) => r == Ok::<T, E>(value) && after == next,
        Err(e) => r == Err::<T, E>(e) && after == before,
    }
}

} // verus!
