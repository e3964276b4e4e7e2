//! The random sources that the puzzles draw from. Nothing is promised of a
//! drawn value beyond the range it falls in.
use rand::seq::SliceRandom;
use rand::Rng;
use vstd::prelude::*;

verus! {

/// Relies on `rand::rng().random_range(0..n)`: a value drawn from `0..n`,
/// which that call asserts is not empty.
#[verifier::external_body]
pub(crate) fn random_below(n: usize) -> (r: usize)
    requires
        n > 0,
    ensures
        r < n,
{
    rand::rng().random_range(0..n)
}

/// Relies on `SliceRandom::shuffle` with `rand::rng()`: the elements are
/// reordered, none added or lost.
#[verifier::external_body]
pub(crate) fn shuffle<T>(v: &mut Vec<T>)
    ensures
        final(v)@.to_multiset() == old(v)@.to_multiset(),
{
    v.shuffle(&mut rand::rng())
}

/// Relies on `uuid::Uuid::new_v4` and its `Display`: a random identifier in
/// the hyphenated form, 36 characters long.
#[verifier::external_body]
pub(crate) fn new_token() -> (r: String)
    ensures
        r@.len() == 36,
{
    uuid::Uuid::new_v4().to_string()
}

}
