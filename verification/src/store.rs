//! Trusted boundary to the `keyring` crate.
//!
//! Each wrapper makes one call into the platform secret store. What the store
//! answers depends on the machine's state, so the wrappers promise nothing of
//! their results: the callers in `bridge` handle every outcome and the
//! record-building in `result` is verified for each of them.

use vstd::prelude::*;

verus! {

#[verifier::external_type_specification]
#[verifier::external_body]
pub struct ExEntry(keyring::Entry);

#[verifier::external_type_specification]
#[verifier::external_body]
pub struct ExKeyringError(keyring::Error);

/// Relies on keyring::Entry::new: builds an entry addressing `(service, key)`
/// in the process's default credential store, or reports why it cannot.
#[verifier::external_body]
pub(crate) fn entry_new(service: &str, key: &str) -> Result<keyring::Entry, keyring::Error> {
    keyring::Entry::new(service, key)
}

/// Relies on keyring::Entry::set_password: stores the value under the entry's
/// identity, or reports the platform's refusal.
#[verifier::external_body]
pub(crate) fn set_password(entry: &keyring::Entry, value: &str) -> Result<(), keyring::Error> {
    entry.set_password(value)
}

/// Relies on keyring::Entry::get_password: retrieves the stored value, or
/// reports failure (a missing entry included).
#[verifier::external_body]
pub(crate) fn get_password(entry: &keyring::Entry) -> Result<String, keyring::Error> {
    entry.get_password()
}

/// Relies on keyring::Entry::delete_credential: removes the stored credential,
/// or reports failure (a missing entry included).
#[verifier::external_body]
pub(crate) fn delete_credential(entry: &keyring::Entry) -> Result<(), keyring::Error> {
    entry.delete_credential()
}

/// Relies on keyring::Error's Display impl: the platform error as a
/// human-readable line of text.
#[verifier::external_body]
pub(crate) fn error_text(e: &keyring::Error) -> String {
    format!("{}", e)
}

} // verus!
