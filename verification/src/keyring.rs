use vstd::prelude::*;

use crate::backend::entry_delete;
use crate::backend::entry_get_secret;
use crate::backend::entry_new;
use crate::backend::entry_set_secret;
use crate::errors::Error;
use crate::errors::probe_outcome;
use crate::errors::read_error;
use crate::errors::write_error;
use crate::keys::build_identity_key;
use crate::keys::build_user_key;
use crate::keys::identity_of;
use crate::models::CredentialType;
use crate::models::CredentialValue;
use crate::selection::BackendKind;
use crate::store::MockStore;

verus! {

/// The one backend a `Keyring` routes its calls through: either the
/// verified in-memory mock store, or a platform-native store reached
/// through keyring_core's process-wide default store.
enum ActiveBackend {
    Mock(MockStore),
    Native(BackendKind),
}

/// Access to the keyring APIs: the uniform credential CRUD facade.
///
/// It holds the one backend selected at initialization and the service
/// namespace, set once through `initialize_service`, that prefixes every
/// key. Calls made before the namespace is set fail explicitly with
/// `Error::Uninitialized`; they never fall back to a default namespace.
pub struct Keyring {
    service: Option<String>,
    backend: ActiveBackend,
}

impl Keyring {
    /// The service namespace, if `initialize_service` has set one.
    pub closed spec fn service_name(self) -> Option<Seq<char>> {
        match self.service {
            Some(s) => Some(s@),
            None => None,
        }
    }

    /// Whether the active backend is the in-memory mock.
    pub closed spec fn is_mock(self) -> bool {
        self.backend is Mock
    }

    /// Which backend kind is active.
    pub closed spec fn backend_kind(self) -> BackendKind {
        match self.backend {
            ActiveBackend::Mock(_) => BackendKind::Mock,
            ActiveBackend::Native(k) => k,
        }
    }

    /// What the mock backend stores, as a mapping from identity keys to
    /// secret bytes. Empty whenever a native backend is active.
    pub closed spec fn mock_map(self) -> Map<Seq<char>, Seq<u8>> {
        match self.backend {
            ActiveBackend::Mock(st) => st@,
            ActiveBackend::Native(_) => Map::<Seq<char>, Seq<u8>>::empty(),
        }
    }

    /// Install the selected backend as this keyring's active backend. When
    /// the mock is selected the keyring works purely in-memory from then
    /// on; otherwise every call goes to the named platform store through
    /// the process-wide default store, which the host must have installed.
    pub fn new(kind: BackendKind) -> (r: Keyring)
        ensures
            r.service_name() is None,
            r.backend_kind() == kind,
            r.is_mock() <==> kind == BackendKind::Mock,
            r.mock_map() == Map::<Seq<char>, Seq<u8>>::empty(),
    {
        let backend = if kind == BackendKind::Mock {
            ActiveBackend::Mock(MockStore::new())
        } else {
            ActiveBackend::Native(kind)
        };
        Keyring { service: None, backend }
    }

    /// Set the process-wide service namespace used by all subsequent calls.
    /// Always succeeds and touches nothing but the namespace.
    pub fn initialize_service(&mut self, service_name: String) -> (r: Result<(), Error>)
        ensures
            r is Ok,
            final(self).service_name() == Some(service_name@),
            final(self).backend_kind() == old(self).backend_kind(),
            final(self).is_mock() == old(self).is_mock(),
            final(self).mock_map() == old(self).mock_map(),
    {
        self.service = Some(service_name);
        Ok(())
    }

    /// Write `value` under the identity `(service, username, credential_type)`,
    /// creating or overwriting. On the mock backend the stored mapping gains
    /// exactly that one pair; on a native backend the write is delegated and
    /// any failure surfaces as a platform error with the backend's message.
    pub fn set(&mut self, username: &str, credential_type: CredentialType, value: CredentialValue)
        -> (r: Result<(), Error>)
        ensures
            final(self).service_name() == old(self).service_name(),
            final(self).backend_kind() == old(self).backend_kind(),
            final(self).is_mock() == old(self).is_mock(),
            old(self).service_name() is None ==> r == Err::<(), Error>(Error::Uninitialized)
                && *final(self) == *old(self),
            old(self).service_name() is Some && old(self).is_mock() ==> r is Ok
                && final(self).mock_map() == old(self).mock_map().insert(
                identity_of(old(self).service_name()->Some_0, username@, credential_type),
                value@,
            ),
            old(self).service_name() is Some && !old(self).is_mock() ==> final(self).mock_map()
                == old(self).mock_map() && (r is Ok || (r matches Err(e) && e is PlatformError)),
    {
        let service = match &self.service {
            Some(s) => s.clone(),
            None => {
                return Err(Error::Uninitialized);
            },
        };
        match &mut self.backend {
            ActiveBackend::Mock(store) => {
                let key = build_identity_key(service.as_str(), username, credential_type);
                store.put(key, value.into_bytes());
                Ok(())
            },
            ActiveBackend::Native(_) => {
                let user = build_user_key(username, credential_type);
                match entry_new(&service, &user) {
                    Ok(entry) => {
                        match entry_set_secret(&entry, value.as_bytes().as_slice()) {
                            Ok(()) => Ok(()),
                            Err(f) => Err(write_error(f)),
                        }
                    },
                    Err(f) => Err(write_error(f)),
                }
            },
        }
    }

    /// Read the value stored under the identity. On the mock backend the
    /// result is exactly what the stored mapping holds, or `NotFound` when
    /// it holds nothing; on a native backend absence surfaces as `NotFound`
    /// and any other failure as a platform error with the backend's message.
    pub fn get(&self, username: &str, credential_type: CredentialType) -> (r: Result<
        CredentialValue,
        Error,
    >)
        ensures
            self.service_name() is None ==> r == Err::<CredentialValue, Error>(
                Error::Uninitialized,
            ),
            self.service_name() is Some && self.is_mock() && self.mock_map().contains_key(
                identity_of(self.service_name()->Some_0, username@, credential_type),
            ) ==> (r matches Ok(v) && v@ == self.mock_map()[
                identity_of(self.service_name()->Some_0, username@, credential_type)
            ]),
            self.service_name() is Some && self.is_mock() && !self.mock_map().contains_key(
                identity_of(self.service_name()->Some_0, username@, credential_type),
            ) ==> r == Err::<CredentialValue, Error>(Error::NotFound),
            self.service_name() is Some && !self.is_mock() ==> (r matches Err(e) ==> (e is NotFound
                || e is PlatformError)),
    {
        let service = match &self.service {
            Some(s) => s.clone(),
            None => {
                return Err(Error::Uninitialized);
            },
        };
        match &self.backend {
            ActiveBackend::Mock(store) => {
                let key = build_identity_key(service.as_str(), username, credential_type);
                match store.get(&key) {
                    Some(bytes) => Ok(CredentialValue::new(bytes)),
                    None => Err(Error::NotFound),
                }
            },
            ActiveBackend::Native(_) => {
                let user = build_user_key(username, credential_type);
                match entry_new(&service, &user) {
                    Ok(entry) => {
                        match entry_get_secret(&entry) {
                            Ok(bytes) => Ok(CredentialValue::new(bytes)),
                            Err(f) => Err(read_error(f)),
                        }
                    },
                    Err(f) => Err(read_error(f)),
                }
            },
        }
    }

    /// Remove the value stored under the identity, all-or-nothing: on the
    /// mock backend either the one entry goes and the call succeeds, or
    /// nothing was stored, `NotFound` comes back and the state is exactly
    /// as before. On a native backend absence surfaces as `NotFound` and
    /// any other failure as a platform error with the backend's message.
    pub fn delete(&mut self, username: &str, credential_type: CredentialType) -> (r: Result<
        (),
        Error,
    >)
        ensures
            final(self).service_name() == old(self).service_name(),
            final(self).backend_kind() == old(self).backend_kind(),
            final(self).is_mock() == old(self).is_mock(),
            old(self).service_name() is None ==> r == Err::<(), Error>(Error::Uninitialized)
                && *final(self) == *old(self),
            old(self).service_name() is Some && old(self).is_mock()
                && old(self).mock_map().contains_key(
                identity_of(old(self).service_name()->Some_0, username@, credential_type),
            ) ==> r is Ok && final(self).mock_map() == old(self).mock_map().remove(
                identity_of(old(self).service_name()->Some_0, username@, credential_type),
            ),
            old(self).service_name() is Some && old(self).is_mock()
                && !old(self).mock_map().contains_key(
                identity_of(old(self).service_name()->Some_0, username@, credential_type),
            ) ==> r == Err::<(), Error>(Error::NotFound) && *final(self) == *old(self),
            old(self).service_name() is Some && !old(self).is_mock() ==> final(self).mock_map()
                == old(self).mock_map() && (r is Ok || (r matches Err(e) && (e is NotFound || e
                is PlatformError))),
    {
        let service = match &self.service {
            Some(s) => s.clone(),
            None => {
                return Err(Error::Uninitialized);
            },
        };
        match &mut self.backend {
            ActiveBackend::Mock(store) => {
                let key = build_identity_key(service.as_str(), username, credential_type);
                if store.remove(&key) {
                    Ok(())
                } else {
                    Err(Error::NotFound)
                }
            },
            ActiveBackend::Native(_) => {
                let user = build_user_key(username, credential_type);
                match entry_new(&service, &user) {
                    Ok(entry) => {
                        match entry_delete(&entry) {
                            Ok(()) => Ok(()),
                            Err(f) => Err(read_error(f)),
                        }
                    },
                    Err(f) => Err(read_error(f)),
                }
            },
        }
    }

    /// Probe whether a value is stored under the identity. A probe only:
    /// it takes the keyring by shared reference, so it can change nothing,
    /// and absence is an ordinary `false`, never an error. On a native
    /// backend only a backend malfunction surfaces, as a platform error.
    pub fn exists_entry(&self, username: &str, credential_type: CredentialType) -> (r: Result<
        bool,
        Error,
    >)
        ensures
            self.service_name() is None ==> r == Err::<bool, Error>(Error::Uninitialized),
            self.service_name() is Some && self.is_mock() ==> r == Ok::<bool, Error>(
                self.mock_map().contains_key(
                    identity_of(self.service_name()->Some_0, username@, credential_type),
                ),
            ),
            self.service_name() is Some && !self.is_mock() ==> (r matches Err(e) ==> e
                is PlatformError),
    {
        let service = match &self.service {
            Some(s) => s.clone(),
            None => {
                return Err(Error::Uninitialized);
            },
        };
        match &self.backend {
            ActiveBackend::Mock(store) => {
                let key = build_identity_key(service.as_str(), username, credential_type);
                Ok(store.contains(&key))
            },
            ActiveBackend::Native(_) => {
                let user = build_user_key(username, credential_type);
                match entry_new(&service, &user) {
                    Ok(entry) => probe_outcome(entry_get_secret(&entry)),
                    Err(f) => probe_outcome(Err(f)),
                }
            },
        }
    }
}

} // verus!
