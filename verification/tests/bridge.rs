//! Scenarios through the three operations against the process's default
//! credential store.
//!
//! Built without a platform store feature, `keyring` answers from its mock
//! store: a write is accepted, and nothing written earlier in the process is
//! visible to a later entry. That pins the failure paths exactly — a get or
//! delete on an entry never written reports a failure, never a value.

use keychain_bridge::{keychain_delete, keychain_get, keychain_set};

#[test]
fn set_reports_success() {
    let set = keychain_set(
        String::from("keychain_bridge_write"),
        String::from("alice"),
        String::from("first value"),
    );
    assert!(set.success);
    assert!(set.value.is_none());
    assert!(set.error.is_none());
}

#[test]
fn delete_then_get_fails() {
    let svc = String::from("keychain_bridge_delete");
    let _ = keychain_delete(svc.clone(), String::from("carol"));

    let got = keychain_get(svc, String::from("carol"));
    assert!(!got.success);
    assert!(got.value.is_none());
    assert!(got.error.is_some());
}

#[test]
fn get_never_written_fails() {
    let got = keychain_get(
        String::from("keychain_bridge_untouched"),
        String::from("nobody ever wrote this"),
    );
    assert!(!got.success);
    assert!(got.value.is_none());
    assert_eq!(
        got.error.as_deref(),
        Some("No matching entry found in secure storage"),
    );
}

#[test]
fn delete_never_written_fails() {
    let del = keychain_delete(
        String::from("keychain_bridge_untouched"),
        String::from("nothing to remove"),
    );
    assert!(!del.success);
    assert!(del.value.is_none());
    assert!(del.error.is_some());
}

#[test]
fn no_success_carries_an_error() {
    let records = vec![
        keychain_set(
            String::from("keychain_bridge_invariant"),
            String::from("erin"),
            String::from("v"),
        ),
        keychain_get(String::from("keychain_bridge_invariant"), String::from("erin")),
        keychain_delete(String::from("keychain_bridge_invariant"), String::from("erin")),
        keychain_get(String::from("keychain_bridge_invariant"), String::from("erin")),
    ];
    for r in records {
        assert!(!(r.success && r.error.is_some()));
    }
}
