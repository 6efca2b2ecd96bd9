//! Dealing out the numbers of a batch to what answers them.

use rayon::iter::{IntoParallelIterator, ParallelIterator};
use vstd::prelude::*;

use crate::batch::is_answered_sum;

verus! {

/// Whether `x` is dealt out to `ask` when a batch of `count` numbers is: whether it is below
/// `count`.
///
/// Only this module knows, and it does not tell. Whoever holds an `ask` that may be run on what
/// is dealt to it can therefore not run it; all there is to do with it is to give it away to be
/// dealt to, once.
pub closed spec fn is_dealt<F: Fn(u32) -> u32>(ask: F, x: u32, count: u32) -> bool {
    x < count
}

/// Nothing but the numbers below the count is dealt out.
pub proof fn law_only_numbers_below_are_dealt<F: Fn(u32) -> u32>(ask: F, x: u32, count: u32)
    ensures
        is_dealt(ask, x, count) ==> x < count,
{
}

/// Runs `ask` on the numbers below `count` by `rayon`: `into_par_iter` on the range, `map`
/// with `ask`, `map` to 64 bits, where as many answers as there can be do not overflow (see
/// [`crate::batch::law_total_fits`]), and `sum`.
///
/// Claimed of it: what is summed is one answer of `ask` for each of the numbers, and nothing
/// else. On which threads and in which order `ask` is run is left open; so is, as no contract
/// can count calls, that it is run once only for each number.
#[verifier::external_body]
pub(crate) fn par_sum<F: Fn(u32) -> u32 + Sync + Send>(count: u32, ask: F) -> (sum: u64)
    requires
        forall|x: u32| x < count && #[trigger] is_dealt(ask, x, count) ==> call_requires(ask, (x,)),
    ensures
        is_answered_sum(ask, count, sum as nat),
{
    (0..count).into_par_iter().map(ask).map(u64::from).sum()
}

} // verus!
