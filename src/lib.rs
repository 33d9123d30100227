//! Adapters between the two incompatible generations of the `rand_core`
//! generator traits.
//!
//! The older interface is `rand_core` 0.5, reached here through `rand` 0.7
//! (`rand::RngCore`, `rand::CryptoRng`, `rand::Error`). The newer interface is
//! `rand_core` 0.6 (`rand_core::RngCore`, `rand_core::CryptoRng`,
//! `rand_core::Error`).
//!
//! - [`Forward`] wraps an older-interface generator and implements the newer
//!   interface; [`ForwardCompat::forward`] builds it.
//! - [`Backward`] wraps a newer-interface generator and implements the older
//!   interface; [`BackwardCompat::backward`] builds it.
//!
//! Every generator operation is handed to the wrapped value unchanged. The one
//! decision the adapters make is how a failure of the fallible fill is
//! re-expressed in the other interface's error type: see [`remap_code`] and
//! [`remap_older_result`].

mod backward;
mod error_code;
mod forward;
mod newer;
mod older;

pub use backward::{Backward, BackwardCompat};
pub use error_code::{
    custom_start, remap_code, remap_newer_error, remap_newer_result, remap_older_error,
    remap_older_result, remapped,
};
pub use newer::newer_code_of;
pub use older::older_code_of;
pub use forward::{Forward, ForwardCompat};

/// The crate that provides the older interface (`rand_core` 0.5).
pub use rand;

/// The newer interface (`rand_core` 0.6).
pub use rand_core;
