//! The random number generators of the `rand` crate that the host draws from.
//! Nothing is stated of the numbers they give: they are left free, and every
//! function that uses them is proved for whatever comes back.
use rand::rngs::{SmallRng, ThreadRng};
use rand::{Rng, RngCore, SeedableRng};
use vstd::prelude::*;

verus! {

/// `rand::rngs::SmallRng`, a fast generator seeded once per mod.
#[verifier::external_type_specification]
#[verifier::external_body]
pub struct ExSmallRng(rand::rngs::SmallRng);

/// `rand::rngs::ThreadRng`, the generator of the current thread, seeded from the
/// operating system.
#[verifier::external_type_specification]
#[verifier::external_body]
pub struct ExThreadRng(rand::rngs::ThreadRng);

/// Calls `SeedableRng::seed_from_u64` for `SmallRng`. Nothing is claimed of the
/// generator that comes back.
#[verifier::external_body]
pub(crate) fn small_rng_seed_from_u64(state: u64) -> SmallRng {
    SmallRng::seed_from_u64(state)
}

/// Calls `RngCore::next_u64` on a `SmallRng`. Nothing is claimed of the number.
#[verifier::external_body]
pub(crate) fn small_rng_next_u64(rng: &mut SmallRng) -> u64 {
    rng.next_u64()
}

/// Calls `rand::thread_rng`. Nothing is claimed of the generator.
#[verifier::external_body]
pub(crate) fn thread_rng() -> ThreadRng {
    rand::thread_rng()
}

/// Calls `RngCore::next_u64` on a `ThreadRng`. Nothing is claimed of the number.
#[verifier::external_body]
pub(crate) fn thread_rng_next_u64(rng: &mut ThreadRng) -> u64 {
    rng.next_u64()
}

/// Calls `RngCore::next_u32` on a `ThreadRng`. Nothing is claimed of the number.
#[verifier::external_body]
pub(crate) fn thread_rng_next_u32(rng: &mut ThreadRng) -> u32 {
    rng.next_u32()
}

/// Calls `Rng::gen::<bool>` on a `ThreadRng`. Nothing is claimed of the flag.
#[verifier::external_body]
pub(crate) fn thread_rng_gen_bool(rng: &mut ThreadRng) -> bool {
    rng.gen::<bool>()
}

/// Calls `RngCore::fill_bytes` on a `ThreadRng` over the whole of `dest`. It claims
/// only that `dest` keeps its length: the bytes written are left free.
#[verifier::external_body]
pub(crate) fn thread_rng_fill_bytes(rng: &mut ThreadRng, dest: &mut Vec<u8>)
    ensures
        final(dest)@.len() == old(dest)@.len(),
{
    rng.fill_bytes(dest.as_mut_slice())
}

} // verus!
