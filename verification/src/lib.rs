//! A uniform credential store facade: one CRUD contract over whichever
//! secure-storage backend is native to the running platform, selected once
//! at initialization, with an in-memory mock backend for deterministic
//! testing.

mod backend;
mod errors;
mod keyring;
mod keys;
mod laws;
mod models;
mod selection;
mod store;

pub use errors::BackendFailure;
pub use errors::Error;
pub use errors::probe_outcome;
pub use errors::read_error;
pub use errors::write_error;
pub use keyring::Keyring;
pub use keys::build_identity_key;
pub use keys::build_user_key;
pub use keys::identity_of;
pub use keys::tag_of;
pub use keys::user_key_of;
pub use laws::lemma_delete_then_absent;
pub use laws::lemma_fresh_is_absent;
pub use laws::lemma_mock_signal_wins;
pub use laws::lemma_overwrite;
pub use laws::lemma_probes_change_nothing;
pub use laws::lemma_set_then_get;
pub use laws::lemma_write_preserves_others;
pub use laws::probe_state;
pub use laws::probe_state_n;
pub use models::CredentialType;
pub use models::CredentialValue;
pub use selection::BackendKind;
pub use selection::Platform;
pub use selection::chosen_backend;
pub use selection::select_backend;
pub use store::MockStore;
