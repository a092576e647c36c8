use keyring_facade::{
    probe_outcome, read_error, write_error, BackendFailure, BackendKind, Error, Platform,
    select_backend,
};

#[test]
fn mock_signal_overrides_every_platform() {
    for p in [
        Platform::Windows,
        Platform::MacOs,
        Platform::Linux,
        Platform::Android,
        Platform::Ios,
    ] {
        assert_eq!(select_backend(true, p, false, false).unwrap(), BackendKind::Mock);
        assert_eq!(select_backend(true, p, true, false).unwrap(), BackendKind::Mock);
        assert_eq!(select_backend(true, p, true, true).unwrap(), BackendKind::Mock);
    }
}

#[test]
fn each_platform_gets_its_native_backend() {
    assert_eq!(
        select_backend(false, Platform::Windows, false, false).unwrap(),
        BackendKind::WindowsCredentialManager
    );
    assert_eq!(
        select_backend(false, Platform::MacOs, false, false).unwrap(),
        BackendKind::MacKeychain
    );
    assert_eq!(
        select_backend(false, Platform::Android, false, false).unwrap(),
        BackendKind::AndroidKeystore
    );
    assert_eq!(
        select_backend(false, Platform::Ios, false, false).unwrap(),
        BackendKind::IosProtectedKeychain
    );
}

#[test]
fn linux_picks_exactly_one_configured_backend() {
    assert_eq!(
        select_backend(false, Platform::Linux, true, false).unwrap(),
        BackendKind::SecretServiceDaemon
    );
    assert_eq!(
        select_backend(false, Platform::Linux, false, true).unwrap(),
        BackendKind::KernelKeyring
    );
}

#[test]
fn linux_rejects_neither_or_both_backend_features() {
    let neither = select_backend(false, Platform::Linux, false, false).unwrap_err();
    assert!(matches!(neither, Error::PlatformError(_)));
    let both = select_backend(false, Platform::Linux, true, true).unwrap_err();
    assert!(matches!(both, Error::PlatformError(_)));
}

#[test]
fn read_failures_map_to_the_uniform_taxonomy() {
    let absent = BackendFailure { absent: true, message: "gone".to_string() };
    assert_eq!(read_error(absent), Error::NotFound);
    let broken = BackendFailure { absent: false, message: "daemon unreachable".to_string() };
    assert_eq!(read_error(broken), Error::PlatformError("daemon unreachable".to_string()));
}

#[test]
fn write_failures_keep_the_backend_message() {
    let f = BackendFailure { absent: false, message: "quota exceeded".to_string() };
    assert_eq!(write_error(f), Error::PlatformError("quota exceeded".to_string()));
    let f2 = BackendFailure { absent: true, message: "gone".to_string() };
    assert_eq!(write_error(f2), Error::PlatformError("gone".to_string()));
}

#[test]
fn probe_outcomes_map_to_booleans_or_platform_errors() {
    assert_eq!(probe_outcome(Ok(vec![1u8, 2])), Ok(true));
    let absent = BackendFailure { absent: true, message: "gone".to_string() };
    assert_eq!(probe_outcome(Err(absent)), Ok(false));
    let broken = BackendFailure { absent: false, message: "locked".to_string() };
    assert_eq!(probe_outcome(Err(broken)), Err(Error::PlatformError("locked".to_string())));
}
