use keyring_facade::{BackendKind, CredentialType, CredentialValue, Error, Keyring};

// One test only: it relies on no default store having been installed in
// this process.
#[test]
fn native_path_without_default_store_is_a_platform_error() {
    let mut k = Keyring::new(BackendKind::KernelKeyring);
    k.initialize_service("acme-app".to_string()).unwrap();

    let set_err = k
        .set("alice", CredentialType::Password, CredentialValue::new(b"v".to_vec()))
        .unwrap_err();
    assert!(matches!(set_err, Error::PlatformError(_)));

    let get_err = k.get("alice", CredentialType::Password).unwrap_err();
    assert!(matches!(get_err, Error::PlatformError(_)));

    let del_err = k.delete("alice", CredentialType::Password).unwrap_err();
    assert!(matches!(del_err, Error::PlatformError(_)));

    let probe_err = k.exists_entry("alice", CredentialType::Password).unwrap_err();
    assert!(matches!(probe_err, Error::PlatformError(_)));
}
