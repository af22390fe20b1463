//! The random offset that keeps a punch from landing on a round time.

use rand::Rng;
use vstd::prelude::*;

verus! {

/// The jitter bound, in seconds, where the caller names none.
pub const DEFAULT_JITTER_SECONDS: u32 = 60;

/// The bound that a caller's choice stands for.
pub open spec fn jitter_bound(jitter: Option<u32>) -> int {
    match jitter {
        Some(bound) => bound as int,
        None => 60,
    }
}

/// Calls `rand::Rng::gen_range` on `rand::thread_rng()` with the inclusive
/// range from `low` to `high`. Trusted: the number drawn lies in that range.
/// An empty range, on which rand panics, is left out.
#[verifier::external_body]
fn random_in(low: i64, high: i64) -> (drawn: i64)
    requires
        low <= high,
    ensures
        low <= drawn <= high,
{
    rand::thread_rng().gen_range(low..=high)
}

/// The bound in seconds for a caller's choice: the default where none is
/// named.
pub fn bound_of(jitter: Option<u32>) -> (bound: u32)
    ensures
        bound == jitter_bound(jitter),
{
    match jitter {
        Some(bound) => bound,
        None => DEFAULT_JITTER_SECONDS,
    }
}

/// Draws a jitter of at least one second and at most `bound` seconds.
pub fn draw_jitter(bound: u32) -> (seconds: u32)
    requires
        bound >= 1,
    ensures
        1 <= seconds <= bound,
{
    let drawn = random_in(1, bound as i64);
    drawn as u32
}

} // verus!
