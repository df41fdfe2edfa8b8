//! Fuzzy matching through the skim algorithm of the `fuzzy-matcher` crate.

use vstd::prelude::*;
use fuzzy_matcher::skim::SkimMatcherV2;
use fuzzy_matcher::FuzzyMatcher;

verus! {

/// The score and matched character positions that `SkimMatcherV2` (default
/// settings) gives for `pattern` in `choice`, or none when it does not match.
pub uninterp spec fn skim_indices(choice: Seq<char>, pattern: Seq<char>) -> Option<(i64, Seq<usize>)>;

/// The score that `SkimMatcherV2` (default settings) gives for `pattern`
/// in `choice`, or none when it does not match.
pub uninterp spec fn skim_score(choice: Seq<char>, pattern: Seq<char>) -> Option<i64>;

/// Calls `FuzzyMatcher::fuzzy_indices` of a default `SkimMatcherV2`.
/// Claimed: the result is [`skim_indices`] of the arguments; every matched
/// position is a character index of `choice`; an empty pattern matches with
/// score 0 and no positions (the crate returns early for it).
#[verifier::external_body]
pub(crate) fn fuzzy_indices(choice: &str, pattern: &str) -> (r: Option<(i64, Vec<usize>)>)
    ensures
        r is Some == skim_indices(choice@, pattern@) is Some,
        r is Some ==> r.unwrap().0 == skim_indices(choice@, pattern@).unwrap().0,
        r is Some ==> r.unwrap().1@ == skim_indices(choice@, pattern@).unwrap().1,
        r is Some ==> forall|k: int| 0 <= k < r.unwrap().1@.len() ==> #[trigger] r.unwrap().1@[k] < choice@.len(),
        pattern@.len() == 0 ==> r is Some && r.unwrap().0 == 0 && r.unwrap().1@.len() == 0,
{
    SkimMatcherV2::default().fuzzy_indices(choice, pattern)
}

/// Calls `FuzzyMatcher::fuzzy_match` of a default `SkimMatcherV2`.
/// Claimed: the result is [`skim_score`] of the arguments, and an empty
/// pattern matches with score 0 (the crate returns early for it).
#[verifier::external_body]
pub(crate) fn fuzzy_match(choice: &str, pattern: &str) -> (r: Option<i64>)
    ensures
        r == skim_score(choice@, pattern@),
        pattern@.len() == 0 ==> r == Some(0i64),
{
    SkimMatcherV2::default().fuzzy_match(choice, pattern)
}

} // verus!
