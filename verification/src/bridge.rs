//! The three keychain operations: set, get, delete.
//!
//! Each opens an entry for `(service, key)`, performs one store call through
//! the trusted wrappers in `store`, and reports the outcome as a
//! `KeychainResult`. Whether the store obliges is the platform's decision;
//! whatever it decides, the record is built exactly as `result` states, and a
//! success never carries an error text.

use vstd::prelude::*;

use crate::result::KeychainResult;
use crate::store;

verus! {

/// Stores `value` under `(service, key)` in the platform secret store.
pub fn keychain_set(service: String, key: String, value: String) -> (r: KeychainResult)
    ensures
        r.value is None,
        r.success ==> r.error is None,
        !r.success ==> r.error is Some,
{
    let outcome: Result<(), String> = match store::entry_new(service.as_str(), key.as_str()) {
        Ok(entry) => match store::set_password(&entry, value.as_str()) {
            Ok(()) => Ok(()),
            Err(e) => Err(store::error_text(&e)),
        },
        Err(e) => Err(store::error_text(&e)),
    };
    KeychainResult::from_unit(outcome)
}

/// Retrieves the value stored under `(service, key)`, if the store holds one.
pub fn keychain_get(service: String, key: String) -> (r: KeychainResult)
    ensures
        r.success ==> r.value is Some && r.error is None,
        !r.success ==> r.value is None && r.error is Some,
{
    let outcome: Result<String, String> = match store::entry_new(service.as_str(), key.as_str()) {
        Ok(entry) => match store::get_password(&entry) {
            Ok(password) => Ok(password),
            Err(e) => Err(store::error_text(&e)),
        },
        Err(e) => Err(store::error_text(&e)),
    };
    KeychainResult::from_get(outcome)
}

/// Removes the credential stored under `(service, key)`.
pub fn keychain_delete(service: String, key: String) -> (r: KeychainResult)
    ensures
        r.value is None,
        r.success ==> r.error is None,
        !r.success ==> r.error is Some,
{
    let outcome: Result<(), String> = match store::entry_new(service.as_str(), key.as_str()) {
        Ok(entry) => match store::delete_credential(&entry) {
            Ok(()) => Ok(()),
            Err(e) => Err(store::error_text(&e)),
        },
        Err(e) => Err(store::error_text(&e)),
    };
    KeychainResult::from_unit(outcome)
}

} // verus!
