//! The creature's dice: the one place where chance enters the library.

use crate::states::IdleChoice;
use rand::seq::SliceRandom;
use rand::Rng;
use vstd::prelude::*;

verus! {

/// Picks one of `options` with `rand`'s `SliceRandom::choose`, on the
/// thread's generator. As `rand` documents it, the pick is an element of the
/// slice, and there is none only where the slice is empty. Which element
/// comes is left open: two calls may differ.
#[verifier::external_body]
pub(crate) fn choose_pastime(options: &[IdleChoice]) -> (picked: Option<IdleChoice>)
    ensures
        options@.len() == 0 ==> picked is None,
        options@.len() > 0 ==> picked is Some && options@.contains(picked->0),
{
    options.choose(&mut rand::thread_rng()).copied()
}

/// Draws a number with `rand`'s `Rng::gen_range`, on the thread's generator.
/// As `rand` documents it, the number lies in `low..high`; the call panics on
/// an empty range, which `requires` leaves out. Which number comes is left
/// open: two calls may differ.
#[verifier::external_body]
pub(crate) fn roll(low: i32, high: i32) -> (r: i32)
    requires
        low < high,
    ensures
        low <= r < high,
{
    rand::thread_rng().gen_range(low..high)
}

} // verus!
