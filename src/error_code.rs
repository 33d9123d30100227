//! How a failure code crosses from one interface generation to the other.
use vstd::prelude::*;

use crate::newer::{self, newer_code_of};
use crate::older::{self, older_code_of};

verus! {

/// The first error code that `getrandom` reserves for custom errors,
/// `(1 << 31) + (1 << 30)`. A failure that carries no structured code is
/// reported under this code.
pub open spec fn custom_start() -> u32 {
    0xC000_0000
}

/// Relies on `getrandom::Error::CUSTOM_START`, the first code reserved for
/// custom errors, which getrandom defines as `(1 << 31) + (1 << 30)`.
#[verifier::external_body]
fn getrandom_custom_start() -> (r: u32)
    ensures
        r == custom_start(),
{
    getrandom::Error::CUSTOM_START
}

/// The code under which a failure is reported by the other interface: its
/// own structured code where it carries one, otherwise the custom sentinel.
pub open spec fn remapped(code: Option<u32>) -> u32 {
    match code {
        Some(c) => c,
        None => custom_start(),
    }
}

/// Chooses the code under which a failed fallible fill is reported by the
/// other interface.
///
/// `code` is the structured code of the wrapped generator's error, if it has
/// one. That code is kept as it is; an error without one is reported under
/// the fixed sentinel [`custom_start`]. The result is never zero when the
/// input code is not, so it always makes a valid error of either interface.
pub fn remap_code(code: Option<u32>) -> (r: u32)
    ensures
        r == remapped(code),
        code matches Some(c) ==> r == c,
        code is None ==> r == custom_start(),
        (code matches Some(c) ==> c != 0) ==> r != 0,
{
    match code {
        Some(c) => c,
        None => getrandom_custom_start(),
    }
}

/// Re-expresses a failure of the older interface as an error of the newer
/// one, under the code [`remap_code`] chooses for it.
pub fn remap_older_error(e: &rand::Error) -> (r: rand_core::Error)
    ensures
        newer_code_of(r) == Some(remapped(older_code_of(*e))),
        remapped(older_code_of(*e)) != 0,
{
    let code = remap_code(older::error_code(e));
    newer::error_from_code(code)
}

/// Re-expresses a failure of the newer interface as an error of the older
/// one, under the code [`remap_code`] chooses for it.
pub fn remap_newer_error(e: &rand_core::Error) -> (r: rand::Error)
    ensures
        older_code_of(r) == Some(remapped(newer_code_of(*e))),
        remapped(newer_code_of(*e)) != 0,
{
    let code = remap_code(newer::error_code(e));
    older::error_from_code(code)
}

/// The outcome of an older-interface fallible fill, as the newer interface
/// reports it: success stays success, and a failure stays a failure whose
/// code is remapped.
pub fn remap_older_result(res: Result<(), rand::Error>) -> (r: Result<(), rand_core::Error>)
    ensures
        r is Ok <==> res is Ok,
        res matches Err(e) ==> (r matches Err(e2) && newer_code_of(e2) == Some(
            remapped(older_code_of(e)),
        ) && remapped(older_code_of(e)) != 0),
{
    match res {
        Ok(()) => Ok(()),
        Err(e) => Err(remap_older_error(&e)),
    }
}

/// The outcome of a newer-interface fallible fill, as the older interface
/// reports it: success stays success, and a failure stays a failure whose
/// code is remapped.
pub fn remap_newer_result(res: Result<(), rand_core::Error>) -> (r: Result<(), rand::Error>)
    ensures
        r is Ok <==> res is Ok,
        res matches Err(e) ==> (r matches Err(e2) && older_code_of(e2) == Some(
            remapped(newer_code_of(e)),
        ) && remapped(newer_code_of(e)) != 0),
{
    match res {
        Ok(()) => Ok(()),
        Err(e) => Err(remap_newer_error(&e)),
    }
}

} // verus!
