//! The calls this library makes into the older generator interface,
//! `rand_core` 0.5 as `rand` 0.7 re-exports it.
use vstd::prelude::*;

verus! {

#[verifier::external_type_specification]
#[verifier::external_body]
pub struct ExOlderError(rand::Error);

/// The structured code of an error of this interface, as its `code()`
/// returns it; it depends on the error value alone.
pub uninterp spec fn older_code_of(e: rand::Error) -> Option<u32>;

/// Relies on `rand::RngCore::next_u32`: the generator's next 32-bit output.
/// Nothing is known of the value.
#[verifier::external_body]
pub(crate) fn next_u32<R: rand::RngCore>(rng: &mut R) -> u32 {
    rng.next_u32()
}

/// Relies on `rand::RngCore::next_u64`: the generator's next 64-bit output.
/// Nothing is known of the value.
#[verifier::external_body]
pub(crate) fn next_u64<R: rand::RngCore>(rng: &mut R) -> u64 {
    rng.next_u64()
}

/// Relies on `rand::RngCore::fill_bytes`, which writes into the buffer
/// without changing its length.
#[verifier::external_body]
pub(crate) fn fill_bytes<R: rand::RngCore>(rng: &mut R, dest: &mut [u8])
    ensures
        final(dest)@.len() == old(dest)@.len(),
{
    rng.fill_bytes(dest)
}

/// Relies on `rand::RngCore::try_fill_bytes`, which writes into the buffer
/// without changing its length, and may fail.
#[verifier::external_body]
pub(crate) fn try_fill_bytes<R: rand::RngCore>(rng: &mut R, dest: &mut [u8]) -> (r: Result<
    (),
    rand::Error,
>)
    ensures
        final(dest)@.len() == old(dest)@.len(),
{
    rng.try_fill_bytes(dest)
}

/// Relies on `rand::Error::code`: the structured code of the error, if it has
/// one, which is a `NonZeroU32` and so never zero.
#[verifier::external_body]
pub(crate) fn error_code(e: &rand::Error) -> (r: Option<u32>)
    ensures
        r == older_code_of(*e),
        r matches Some(c) ==> c != 0,
{
    e.code().map(core::num::NonZeroU32::get)
}

/// Relies on `From<NonZeroU32> for rand::Error`: an error whose `code()` is
/// `Some(c)`.
#[verifier::external_body]
pub(crate) fn error_from_code(c: u32) -> (r: rand::Error)
    requires
        c != 0,
    ensures
        older_code_of(r) == Some(c),
{
    rand::Error::from(core::num::NonZeroU32::new(c).unwrap())
}

} // verus!
