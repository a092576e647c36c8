use keyring_facade::{BackendKind, CredentialType, CredentialValue, Error, Keyring};

fn mock_keyring(service: &str) -> Keyring {
    let mut k = Keyring::new(BackendKind::Mock);
    k.initialize_service(service.to_string()).unwrap();
    k
}

#[test]
fn scenario_acme_app() {
    let mut k = Keyring::new(BackendKind::Mock);
    k.initialize_service("acme-app".to_string()).unwrap();
    k.set("alice", CredentialType::Password, CredentialValue::new(b"s3cr3t".to_vec()))
        .unwrap();
    let got = k.get("alice", CredentialType::Password).unwrap();
    assert_eq!(got.into_bytes(), b"s3cr3t".to_vec());
    assert_eq!(k.exists_entry("alice", CredentialType::Password).unwrap(), true);
    k.delete("alice", CredentialType::Password).unwrap();
    assert_eq!(k.get("alice", CredentialType::Password).unwrap_err(), Error::NotFound);
}

#[test]
fn round_trip_is_byte_exact() {
    let mut k = mock_keyring("svc");
    let payload = vec![0u8, 255, 1, 128, 7];
    k.set("bob", CredentialType::Token, CredentialValue::new(payload.clone())).unwrap();
    let got = k.get("bob", CredentialType::Token).unwrap();
    assert_eq!(got.into_bytes(), payload);
}

#[test]
fn round_trip_empty_value() {
    let mut k = mock_keyring("svc");
    k.set("bob", CredentialType::CertificateKey, CredentialValue::new(Vec::new())).unwrap();
    let got = k.get("bob", CredentialType::CertificateKey).unwrap();
    assert_eq!(got.into_bytes(), Vec::<u8>::new());
}

#[test]
fn overwrite_leaves_only_second_value() {
    let mut k = mock_keyring("svc");
    k.set("carol", CredentialType::Password, CredentialValue::new(b"first".to_vec())).unwrap();
    k.set("carol", CredentialType::Password, CredentialValue::new(b"second".to_vec())).unwrap();
    let got = k.get("carol", CredentialType::Password).unwrap();
    assert_eq!(got.into_bytes(), b"second".to_vec());
}

#[test]
fn delete_then_exists_is_false() {
    let mut k = mock_keyring("svc");
    k.set("dave", CredentialType::Password, CredentialValue::new(b"x".to_vec())).unwrap();
    k.delete("dave", CredentialType::Password).unwrap();
    assert_eq!(k.exists_entry("dave", CredentialType::Password).unwrap(), false);
}

#[test]
fn delete_of_absent_identity_is_not_found() {
    let mut k = mock_keyring("svc");
    assert_eq!(k.delete("nobody", CredentialType::Password).unwrap_err(), Error::NotFound);
}

#[test]
fn absent_before_write() {
    let k = mock_keyring("svc");
    assert_eq!(k.get("erin", CredentialType::Token).unwrap_err(), Error::NotFound);
    assert_eq!(k.exists_entry("erin", CredentialType::Token).unwrap(), false);
}

#[test]
fn exists_does_not_mutate() {
    let mut k = mock_keyring("svc");
    k.set("frank", CredentialType::Password, CredentialValue::new(b"keep".to_vec())).unwrap();
    for _ in 0..5 {
        assert_eq!(k.exists_entry("frank", CredentialType::Password).unwrap(), true);
        assert_eq!(k.exists_entry("other", CredentialType::Password).unwrap(), false);
    }
    let got = k.get("frank", CredentialType::Password).unwrap();
    assert_eq!(got.into_bytes(), b"keep".to_vec());
}

#[test]
fn crud_before_initialize_service_fails() {
    let mut k = Keyring::new(BackendKind::Mock);
    assert_eq!(
        k.set("a", CredentialType::Password, CredentialValue::new(b"v".to_vec())).unwrap_err(),
        Error::Uninitialized
    );
    assert_eq!(k.get("a", CredentialType::Password).unwrap_err(), Error::Uninitialized);
    assert_eq!(k.delete("a", CredentialType::Password).unwrap_err(), Error::Uninitialized);
    assert_eq!(k.exists_entry("a", CredentialType::Password).unwrap_err(), Error::Uninitialized);
}

#[test]
fn distinct_types_are_distinct_identities() {
    let mut k = mock_keyring("svc");
    k.set("alice", CredentialType::Password, CredentialValue::new(b"pw".to_vec())).unwrap();
    k.set("alice", CredentialType::Token, CredentialValue::new(b"tok".to_vec())).unwrap();
    assert_eq!(k.get("alice", CredentialType::Password).unwrap().into_bytes(), b"pw".to_vec());
    assert_eq!(k.get("alice", CredentialType::Token).unwrap().into_bytes(), b"tok".to_vec());
    k.delete("alice", CredentialType::Password).unwrap();
    assert_eq!(k.exists_entry("alice", CredentialType::Password).unwrap(), false);
    assert_eq!(k.exists_entry("alice", CredentialType::Token).unwrap(), true);
}

#[test]
fn distinct_usernames_are_distinct_identities() {
    let mut k = mock_keyring("svc");
    k.set("alice", CredentialType::Password, CredentialValue::new(b"a".to_vec())).unwrap();
    k.set("bob", CredentialType::Password, CredentialValue::new(b"b".to_vec())).unwrap();
    k.delete("alice", CredentialType::Password).unwrap();
    assert_eq!(k.get("bob", CredentialType::Password).unwrap().into_bytes(), b"b".to_vec());
}
