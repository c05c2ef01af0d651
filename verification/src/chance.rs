//! Random choices. Nothing is known of a random value but the bounds it
//! was asked to respect.

use vstd::prelude::*;
use rand::seq::SliceRandom;
use rand::Rng;

verus! {

/// A random number from `low` up to but not including `high`.
///
/// Calls `rand::Rng::gen_range` on the generator of the current thread,
/// which `rand::thread_rng` hands out. The contract claims what the
/// documentation of `gen_range` promises, that the value lies in the
/// range; the empty range, on which `gen_range` panics, is left out.
#[verifier::external_body]
pub(crate) fn random_between(low: u64, high: u64) -> (value: u64)
    requires
        low < high,
    ensures
        low <= value < high,
{
    rand::thread_rng().gen_range(low..high)
}

/// One of `items`, picked at random; `None` where there is none to pick.
///
/// Calls `rand::seq::SliceRandom::choose` on the slice, with the
/// generator of the current thread. The contract claims what its
/// documentation promises: a reference to one element of the slice, or
/// `None` if the slice is empty.
#[verifier::external_body]
pub(crate) fn random_choice<'a, T>(items: &'a [T]) -> (picked: Option<&'a T>)
    ensures
        items@.len() == 0 ==> picked is None,
        items@.len() > 0 ==> picked is Some && items@.contains(*picked->0),
{
    items.choose(&mut rand::thread_rng())
}

} // verus!
