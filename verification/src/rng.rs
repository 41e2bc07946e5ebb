//! Trusted interface to the pseudo-random generator of the `tinyrand` crate.
//!
//! The wall-code generator draws one bounded random number per new chunk.
//! Nothing is assumed about which value comes back, only that it lies below
//! the requested limit.

use vstd::prelude::*;

verus! {

/// `tinyrand::Wyrand` (the crate's `StdRand`), declared so that verified
/// signatures can carry the generator. Its state is opaque to the verifier.
#[verifier::external_type_specification]
#[verifier::external_body]
pub struct ExWyrand(tinyrand::Wyrand);

/// Relies on `tinyrand::Rand::next_lim_usize`: it returns a value in
/// `0 .. lim`. It panics when `lim` is 0, so that input is excluded here.
#[verifier::external_body]
pub(crate) fn next_below(rng: &mut tinyrand::Wyrand, lim: u16) -> (r: u16)
    requires
        lim > 0,
    ensures
        r < lim,
{
    tinyrand::Rand::next_lim_usize(rng, lim as usize) as u16
}

} // verus!
