//! The backward adapter: a newer-interface generator seen through the older
//! interface.
use vstd::prelude::*;

use crate::error_code::remap_newer_result;
use crate::older::older_code_of;
use crate::newer;

verus! {

/// A generator of the newer interface (`rand_core::RngCore`, that is
/// `rand_core` 0.6) that implements the older one (`rand::RngCore`, 0.5).
///
/// It owns the wrapped generator and hands every call to it unchanged.
#[derive(Debug, Clone, PartialEq)]
pub struct Backward<T>(pub T);

/// Conversion of a newer-interface generator into a [`Backward`] adapter.
pub trait BackwardCompat<T> {
    /// Wraps the value in a [`Backward`], taking ownership of it.
    fn backward(self) -> Backward<T> where T: rand_core::RngCore;
}

impl<T> BackwardCompat<T> for T {
    fn backward(self) -> (r: Backward<T>) where T: rand_core::RngCore
        ensures
            r.0 == self,
    {
        Backward(self)
    }
}

impl<T: rand_core::RngCore> rand::RngCore for Backward<T> {
    fn next_u32(&mut self) -> u32 {
        newer::next_u32(&mut self.0)
    }

    fn next_u64(&mut self) -> u64 {
        newer::next_u64(&mut self.0)
    }

    fn fill_bytes(&mut self, dest: &mut [u8])
        ensures
            final(dest)@.len() == old(dest)@.len(),
    {
        newer::fill_bytes(&mut self.0, dest)
    }

    /// Fills `dest` through the wrapped generator. A failure keeps its
    /// structured code; one without a code is reported under the custom
    /// sentinel code (see [`crate::remap_code`]).
    fn try_fill_bytes(&mut self, dest: &mut [u8]) -> (r: Result<(), rand::Error>)
        ensures
            final(dest)@.len() == old(dest)@.len(),
            r matches Err(e) ==> (older_code_of(e) matches Some(c) && c != 0),
    {
        let res = newer::try_fill_bytes(&mut self.0, dest);
        remap_newer_result(res)
    }
}

/// A wrapped generator that is cryptographically secure under the newer
/// interface is so under the older one too.
impl<T: rand_core::RngCore + rand_core::CryptoRng> rand::CryptoRng for Backward<T> {

}

} // verus!
