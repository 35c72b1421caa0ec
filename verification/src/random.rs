//! The random numbers that the dice are rolled with.

use vstd::prelude::*;
use rand::rngs::ThreadRng;
use rand::Rng;

verus! {

/// The thread-local generator of the `rand` crate. Nothing is known of the
/// numbers it holds.
#[verifier::external_type_specification]
#[verifier::external_body]
pub struct ExThreadRng(rand::rngs::ThreadRng);

/// `rand::thread_rng`: a handle on the generator of the calling thread.
#[verifier::external_body]
pub(crate) fn thread_rng() -> ThreadRng {
    rand::thread_rng()
}

/// `Rng::gen_range` on integers: some number from `low` up to, but not
/// including, `high`. It panics unless `low` is below `high`, so callers must
/// see to that.
#[verifier::external_body]
pub(crate) fn gen_range(rng: &mut ThreadRng, low: i64, high: i64) -> (r: i64)
    requires
        low < high,
    ensures
        low <= r < high,
{
    rng.gen_range(low, high)
}

/// Something that dice can be rolled with. Whoever implements it sees to it
/// that the number picked is in the range asked for.
pub trait Roller: Sized {
    /// Whether a pick from `low` up to, but not including, `high` may return
    /// `r` and leave this roller as `next`. Of a roller that says no more,
    /// every number in the range may be picked.
    open spec fn picks(&self, next: &Self, low: i64, high: i64, r: i64) -> bool {
        low <= r < high
    }

    /// Some number from `low` up to, but not including, `high`.
    fn pick(&mut self, low: i64, high: i64) -> (r: i64)
        requires
            low < high,
        ensures
            low <= r < high,
            old(self).picks(final(self), low, high, r),
    ;
}

/// Of the generator of a thread no more is known than that it keeps to the
/// range.
impl Roller for ThreadRng {
    fn pick(&mut self, low: i64, high: i64) -> (r: i64) {
        gen_range(self, low, high)
    }
}

} // verus!
