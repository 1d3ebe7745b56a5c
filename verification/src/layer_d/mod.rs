//! Layer-D: device authentication, remote-permission calls, multi-device
//! key-wrap and the Layer-D timestamp postures.

pub mod device_auth;
pub mod device_link;
pub mod drop_timestamp;
pub mod grant_acceptance;
pub mod remote_permission;
mod sealed;
pub mod secret_store;
