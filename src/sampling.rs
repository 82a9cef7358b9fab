//! The terminal stage of the sampling pipeline.
use vstd::prelude::*;

verus! {

/// How many of the latest tokens the repetition penalty looks back on.
pub const REPETITION_WINDOW: i32 = 64;

/// How many candidates the top-k stage keeps.
pub const TOP_K: i32 = 40;

/// The fewest candidates any stage may leave.
pub const MIN_KEEP: usize = 1;

/// Chooses the token of a step: the first of `ranked`, the surviving
/// candidates ordered from most to least probable, which is greedy
/// selection. The choice is recorded once in `history`.
pub fn finalize(ranked: &Vec<i32>, history: &mut Vec<i32>) -> (token: i32)
    requires
        ranked@.len() > 0,
    ensures
        token == ranked@[0],
        final(history)@ == old(history)@.push(token),
{
    let token = ranked[0];
    history.push(token);
    token
}

} // verus!
