//! Random choices: which badge image an effect shows, and which side the
//! demo plays when the side is left to chance.
use rand::rngs::ThreadRng;
use rand::seq::SliceRandom;

use vstd::prelude::*;

verus! {

#[verifier::external_type_specification]
#[verifier::external_body]
pub struct ExThreadRng(ThreadRng);

/// `rand::seq::SliceRandom::choose` on a slice of names: `None` exactly when
/// the slice is empty, and otherwise one of its elements. Which one is left
/// to chance and is not stated.
#[verifier::external_body]
pub(crate) fn choose_name<'a>(pool: &'a [&'static str], rng: &mut ThreadRng) -> (r: Option<&'a &'static str>)
    ensures
        r is None <==> pool@.len() == 0,
        r matches Some(x) ==> pool@.contains(*x),
{
    pool.choose(rng)
}

/// `rand::random::<bool>()`. Either value can come back.
#[verifier::external_body]
pub(crate) fn random_bool() -> bool {
    rand::random::<bool>()
}

} // verus!
