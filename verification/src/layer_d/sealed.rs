//! The seal of the device-auth backend trait: a supertrait that no code
//! outside this crate can name, so no outside type can implement the
//! backend trait.

use vstd::prelude::*;

verus! {

/// The private supertrait that seals
/// [`DeviceAuthBackend`](super::device_auth::DeviceAuthBackend).
pub trait Sealed {
}

} // verus!
