use vstd::prelude::*;

verus! {

#[verifier::external_type_specification]
#[verifier::external_body]
pub struct ExStdRng(rand::rngs::StdRng);

/// Relies on rand's `SeedableRng::seed_from_u64` for `StdRng`: a generator
/// whose stream is fixed by the seed. Nothing is stated of its contents.
#[verifier::external_body]
pub(crate) fn seeded_rng(seed: u64) -> (r: rand::rngs::StdRng) {
    <rand::rngs::StdRng as rand::SeedableRng>::seed_from_u64(seed)
}

/// Relies on rand's `Rng::gen` for `u8`: the next byte of the generator's
/// stream, which may be any byte.
#[verifier::external_body]
pub(crate) fn next_byte(rng: &mut rand::rngs::StdRng) -> (r: u8) {
    rand::Rng::gen::<u8>(rng)
}

} // verus!
