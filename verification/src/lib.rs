//! Bridge to the operating system's secret store.
//!
//! Three operations — set, get, delete — forward a credential request to the
//! platform keychain through the `keyring` crate and report the outcome in a
//! uniform result record. The record-building logic is verified; the platform
//! calls themselves stand behind trusted wrappers in `store`.

pub mod bridge;
pub mod result;
mod store;

pub use bridge::keychain_delete;
pub use bridge::keychain_get;
pub use bridge::keychain_set;
pub use result::KeychainResult;
