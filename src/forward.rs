//! The forward adapter: an older-interface generator seen through the newer
//! interface.
use vstd::prelude::*;

use crate::error_code::remap_older_result;
use crate::newer::newer_code_of;
use crate::older;

verus! {

/// A generator of the older interface (`rand::RngCore`, that is `rand_core`
/// 0.5) that implements the newer one (`rand_core::RngCore`, 0.6).
///
/// It owns the wrapped generator and hands every call to it unchanged.
#[derive(Debug, Clone, PartialEq)]
pub struct Forward<T>(pub T);

/// Conversion of an older-interface generator into a [`Forward`] adapter.
pub trait ForwardCompat<T> {
    /// Wraps the value in a [`Forward`], taking ownership of it.
    fn forward(self) -> Forward<T> where T: rand::RngCore;
}

impl<T> ForwardCompat<T> for T {
    fn forward(self) -> (r: Forward<T>) where T: rand::RngCore
        ensures
            r.0 == self,
    {
        Forward(self)
    }
}

impl<T: rand::RngCore> rand_core::RngCore for Forward<T> {
    fn next_u32(&mut self) -> u32 {
        older::next_u32(&mut self.0)
    }

    fn next_u64(&mut self) -> u64 {
        older::next_u64(&mut self.0)
    }

    fn fill_bytes(&mut self, dest: &mut [u8])
        ensures
            final(dest)@.len() == old(dest)@.len(),
    {
        older::fill_bytes(&mut self.0, dest)
    }

    /// Fills `dest` through the wrapped generator. A failure keeps its
    /// structured code; one without a code is reported under the custom
    /// sentinel code (see [`crate::remap_code`]).
    fn try_fill_bytes(&mut self, dest: &mut [u8]) -> (r: Result<(), rand_core::Error>)
        ensures
            final(dest)@.len() == old(dest)@.len(),
            r matches Err(e) ==> (newer_code_of(e) matches Some(c) && c != 0),
    {
        let res = older::try_fill_bytes(&mut self.0, dest);
        remap_older_result(res)
    }
}

/// A wrapped generator that is cryptographically secure under the older
/// interface is so under the newer one too.
impl<T: rand::RngCore + rand::CryptoRng> rand_core::CryptoRng for Forward<T> {

}

} // verus!
