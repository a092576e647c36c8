use vstd::prelude::*;

use crate::errors::BackendFailure;

verus! {

/// keyring_core's handle to one named credential of the process-wide
/// default store. Opaque here: everything this layer learns about the store
/// comes back as plain values through the wrappers below.
#[verifier::external_type_specification]
#[verifier::external_body]
pub struct ExEntry(keyring_core::Entry);

/// Relies on keyring_core::Entry::new: builds a handle for this service and
/// user in the process-wide default store. Fails when no default store has
/// been set or the store rejects the names; the outcome depends on that
/// ambient state, so nothing is promised of it.
#[verifier::external_body]
pub(crate) fn entry_new(service: &String, user: &String) -> (r: Result<
    keyring_core::Entry,
    BackendFailure,
>) {
    match keyring_core::Entry::new(service.as_str(), user.as_str()) {
        Ok(e) => Ok(e),
        Err(err) => {
            let absent = matches!(err, keyring_core::Error::NoEntry);
            Err(BackendFailure { absent, message: err.to_string() })
        },
    }
}

/// Relies on keyring_core::Entry::set_secret: persists the bytes under the
/// entry's identity, creating or overwriting. The outcome depends on the
/// installed store, so nothing is promised of it.
#[verifier::external_body]
pub(crate) fn entry_set_secret(entry: &keyring_core::Entry, secret: &[u8]) -> (r: Result<
    (),
    BackendFailure,
>) {
    match entry.set_secret(secret) {
        Ok(()) => Ok(()),
        Err(err) => {
            let absent = matches!(err, keyring_core::Error::NoEntry);
            Err(BackendFailure { absent, message: err.to_string() })
        },
    }
}

/// Relies on keyring_core::Entry::get_secret: retrieves the bytes stored
/// under the entry's identity; a NoEntry failure means no stored value. The
/// outcome depends on the installed store, so nothing is promised of it.
#[verifier::external_body]
pub(crate) fn entry_get_secret(entry: &keyring_core::Entry) -> (r: Result<
    Vec<u8>,
    BackendFailure,
>) {
    match entry.get_secret() {
        Ok(v) => Ok(v),
        Err(err) => {
            let absent = matches!(err, keyring_core::Error::NoEntry);
            Err(BackendFailure { absent, message: err.to_string() })
        },
    }
}

/// Relies on keyring_core::Entry::delete_credential: removes the stored
/// value under the entry's identity; a NoEntry failure means nothing was
/// stored. The outcome depends on the installed store, so nothing is
/// promised of it.
#[verifier::external_body]
pub(crate) fn entry_delete(entry: &keyring_core::Entry) -> (r: Result<(), BackendFailure>) {
    match entry.delete_credential() {
        Ok(()) => Ok(()),
        Err(err) => {
            let absent = matches!(err, keyring_core::Error::NoEntry);
            Err(BackendFailure { absent, message: err.to_string() })
        },
    }
}

} // verus!
