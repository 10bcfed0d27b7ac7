//! The uniform result record that every keychain operation returns.

use vstd::prelude::*;

verus! {

/// Outcome of one keychain operation: a success flag, the retrieved value
/// (get only), and the platform's error text on failure.
pub struct KeychainResult {
    pub success: bool,
    pub value: Option<String>,
    pub error: Option<String>,
}

impl KeychainResult {
    /// A successful result never carries an error text.
    pub open spec fn consistent(self) -> bool {
        self.success ==> self.error is None
    }

    /// Builds the record for an operation that returns no value (set, delete)
    /// from its outcome: success, or the platform's error text.
    pub fn from_unit(outcome: Result<(), String>) -> (r: KeychainResult)
        ensures
            outcome is Ok ==> r == (KeychainResult { success: true, value: None, error: None }),
            outcome matches Err(m) ==> r == (KeychainResult {
                success: false,
                value: None,
                error: Some(m),
            }),
            r.consistent(),
    {
        match outcome {
            Ok(()) => KeychainResult { success: true, value: None, error: None },
            Err(m) => KeychainResult { success: false, value: None, error: Some(m) },
        }
    }

    /// Builds the record for a retrieval from its outcome: the stored value,
    /// or the platform's error text.
    pub fn from_get(outcome: Result<String, String>) -> (r: KeychainResult)
        ensures
            outcome matches Ok(v) ==> r == (KeychainResult {
                success: true,
                value: Some(v),
                error: None,
            }),
            outcome matches Err(m) ==> r == (KeychainResult {
                success: false,
                value: None,
                error: Some(m),
            }),
            r.consistent(),
    {
        match outcome {
            Ok(v) => KeychainResult { success: true, value: Some(v), error: None },
            Err(m) => KeychainResult { success: false, value: None, error: Some(m) },
        }
    }
}

} // verus!
