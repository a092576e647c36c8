use vstd::prelude::*;

use crate::errors::Error;
use vstd::string::StringExecFns;

verus! {

/// The compile-time target the process was built for.
#[derive(Clone, Copy, PartialEq, Eq, Structural, Debug)]
pub enum Platform {
    Windows,
    MacOs,
    Linux,
    Android,
    Ios,
}

/// The concrete secure-storage backends this layer can activate.
#[derive(Clone, Copy, PartialEq, Eq, Structural, Debug)]
pub enum BackendKind {
    /// Volatile in-memory store for deterministic testing.
    Mock,
    /// Native credential manager on desktop Windows.
    WindowsCredentialManager,
    /// Native keychain on desktop macOS.
    MacKeychain,
    /// Secret-service daemon on desktop Linux.
    SecretServiceDaemon,
    /// Kernel keyring on desktop Linux.
    KernelKeyring,
    /// Keystore-backed store on Android, built from the host's runtime context.
    AndroidKeystore,
    /// Protected keychain on iOS.
    IosProtectedKeychain,
}

/// The backend that the selection procedure picks, if the configuration is
/// well-formed: the mock signal overrides every platform branch; otherwise
/// the compile-time platform decides, with the two Linux build features
/// required to be mutually exclusive and one of them present.
pub open spec fn chosen_backend(
    mock_signal: bool,
    platform: Platform,
    dbus_secret_service: bool,
    kernel_keyutils: bool,
) -> Option<BackendKind> {
    if mock_signal {
        Some(BackendKind::Mock)
    } else {
        match platform {
            Platform::Windows => Some(BackendKind::WindowsCredentialManager),
            Platform::MacOs => Some(BackendKind::MacKeychain),
            Platform::Linux => if dbus_secret_service && !kernel_keyutils {
                Some(BackendKind::SecretServiceDaemon)
            } else if kernel_keyutils && !dbus_secret_service {
                Some(BackendKind::KernelKeyring)
            } else {
                None
            },
            Platform::Android => Some(BackendKind::AndroidKeystore),
            Platform::Ios => Some(BackendKind::IosProtectedKeychain),
        }
    }
}

/// Decide which backend to activate, first match wins: an explicit mock
/// signal short-circuits every platform branch; otherwise the platform
/// decides. A Linux build that enables neither or both of the two mutually
/// exclusive backend features is a configuration error, rejected explicitly
/// rather than defaulted.
pub fn select_backend(
    mock_signal: bool,
    platform: Platform,
    dbus_secret_service: bool,
    kernel_keyutils: bool,
) -> (r: Result<BackendKind, Error>)
    ensures
        r is Ok <==> chosen_backend(mock_signal, platform, dbus_secret_service, kernel_keyutils)
            is Some,
        r matches Ok(k) ==> chosen_backend(
            mock_signal,
            platform,
            dbus_secret_service,
            kernel_keyutils,
        ) == Some(k),
        r is Err ==> chosen_backend(mock_signal, platform, dbus_secret_service, kernel_keyutils)
            is None,
        r matches Err(e) ==> e is PlatformError,
        mock_signal ==> r == Ok::<BackendKind, Error>(BackendKind::Mock),
{
    if mock_signal {
        return Ok(BackendKind::Mock);
    }
    match platform {
        Platform::Windows => Ok(BackendKind::WindowsCredentialManager),
        Platform::MacOs => Ok(BackendKind::MacKeychain),
        Platform::Linux => {
            if dbus_secret_service && !kernel_keyutils {
                Ok(BackendKind::SecretServiceDaemon)
            } else if kernel_keyutils && !dbus_secret_service {
                Ok(BackendKind::KernelKeyring)
            } else {
                Err(Error::PlatformError(String::from_str(
                    "exactly one Linux keyring backend feature must be enabled",
                )))
            }
        },
        Platform::Android => Ok(BackendKind::AndroidKeystore),
        Platform::Ios => Ok(BackendKind::IosProtectedKeychain),
    }
}

} // verus!
