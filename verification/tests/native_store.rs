use keyring_facade::{BackendKind, CredentialType, CredentialValue, Error, Keyring};

// One test only: the default store is process-wide state, and a second test
// running in the same process could replace it mid-scenario.
#[test]
fn native_path_round_trip_through_default_store() {
    let store = keyring_core::mock::Store::new().unwrap();
    keyring_core::set_default_store(store);

    let mut k = Keyring::new(BackendKind::KernelKeyring);
    k.initialize_service("acme-app".to_string()).unwrap();

    assert_eq!(k.exists_entry("alice", CredentialType::Password).unwrap(), false);
    assert_eq!(k.get("alice", CredentialType::Password).unwrap_err(), Error::NotFound);

    k.set("alice", CredentialType::Password, CredentialValue::new(b"s3cr3t".to_vec()))
        .unwrap();
    let got = k.get("alice", CredentialType::Password).unwrap();
    assert_eq!(got.into_bytes(), b"s3cr3t".to_vec());
    assert_eq!(k.exists_entry("alice", CredentialType::Password).unwrap(), true);

    k.set("alice", CredentialType::Password, CredentialValue::new(b"newer".to_vec()))
        .unwrap();
    assert_eq!(k.get("alice", CredentialType::Password).unwrap().into_bytes(), b"newer".to_vec());

    k.set("alice", CredentialType::Token, CredentialValue::new(b"tok".to_vec())).unwrap();
    assert_eq!(k.get("alice", CredentialType::Token).unwrap().into_bytes(), b"tok".to_vec());

    k.delete("alice", CredentialType::Password).unwrap();
    assert_eq!(k.get("alice", CredentialType::Password).unwrap_err(), Error::NotFound);
    assert_eq!(k.exists_entry("alice", CredentialType::Password).unwrap(), false);
    assert_eq!(k.delete("alice", CredentialType::Password).unwrap_err(), Error::NotFound);
    assert_eq!(k.exists_entry("alice", CredentialType::Token).unwrap(), true);
}
