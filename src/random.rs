use vstd::prelude::*;

verus! {

/// `rand::rngs::StdRng`, a seeded generator carried through untouched.
#[verifier::external_type_specification]
#[verifier::external_body]
pub struct ExStdRng(rand::rngs::StdRng);

/// Relies on rand's `Uniform::from(lo..hi)` sampled once: a value in `[lo, hi)`. It panics on an
/// empty range.
#[verifier::external_body]
pub(crate) fn uniform_u32(rng: &mut rand::rngs::StdRng, lo: u32, hi: u32) -> (r: u32)
    requires
        lo < hi,
    ensures
        lo <= r < hi,
{
    rand::distributions::Distribution::sample(&rand::distributions::Uniform::from(lo..hi), rng)
}

/// Relies on rand's `Uniform::from(lo..=hi)` sampled once: a value in `[lo, hi]`. It panics on
/// an empty range.
#[verifier::external_body]
pub(crate) fn uniform_u8_inclusive(rng: &mut rand::rngs::StdRng, lo: u8, hi: u8) -> (r: u8)
    requires
        lo <= hi,
    ensures
        lo <= r <= hi,
{
    rand::distributions::Distribution::sample(&rand::distributions::Uniform::from(lo..=hi), rng)
}

/// Relies on rand's `Uniform::from(lo..hi)` sampled once: a value in `[lo, hi)`. It panics on an
/// empty range.
#[verifier::external_body]
pub(crate) fn uniform_u64(rng: &mut rand::rngs::StdRng, lo: u64, hi: u64) -> (r: u64)
    requires
        lo < hi,
    ensures
        lo <= r < hi,
{
    rand::distributions::Distribution::sample(&rand::distributions::Uniform::from(lo..hi), rng)
}

} // verus!
