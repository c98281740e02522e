//! Threshold policy: how many authorities must cooperate, given how many are
//! enrolled on a poll.

use vstd::prelude::*;

verus! {

/// The signing threshold for `n` enrolled authorities.
///
/// Three and five authorities need a simple majority, seven or more need
/// `n / 2 + 1`, and every other count (one, two, four, six, and anything
/// below one) requires all of them.
pub open spec fn threshold_for(n: int) -> int {
    if n == 3 {
        2
    } else if n == 5 {
        3
    } else if n >= 7 {
        n / 2 + 1
    } else {
        n
    }
}

/// Computes the signing threshold for `num_authorities` enrolled authorities.
pub fn calculate_threshold(num_authorities: i32) -> (threshold: i32)
    ensures
        threshold == threshold_for(num_authorities as int),
{
    if num_authorities == 3 {
        2
    } else if num_authorities == 5 {
        3
    } else if num_authorities >= 7 {
        num_authorities / 2 + 1
    } else {
        num_authorities
    }
}

/// With at least one authority enrolled, the threshold is at least one and
/// never asks for more authorities than there are.
pub proof fn lemma_threshold_within_roster(n: int)
    requires
        n >= 1,
    ensures
        1 <= threshold_for(n) <= n,
{
}

/// From seven authorities on, the threshold is a strict majority, and one
/// authority fewer would no longer be one.
pub proof fn lemma_threshold_is_least_majority(n: int)
    requires
        n >= 7,
    ensures
        2 * threshold_for(n) > n,
        2 * (threshold_for(n) - 1) <= n,
{
}

} // verus!
