use vstd::prelude::*;

use crate::selection::BackendKind;
use crate::selection::Platform;
use crate::selection::chosen_backend;

verus! {

/// Mock isolation: whenever the mock signal is present in the environment,
/// selection yields the in-memory mock backend, whatever the platform and
/// whatever the build features say; no platform branch is consulted.
pub proof fn lemma_mock_signal_wins(platform: Platform, dbus_secret_service: bool, kernel_keyutils: bool)
    ensures
        chosen_backend(true, platform, dbus_secret_service, kernel_keyutils) == Some(
            BackendKind::Mock,
        ),
{
}

/// The stored mapping after one existence probe for `k`: a probe reads and
/// changes nothing.
pub open spec fn probe_state(m: Map<Seq<char>, Seq<u8>>, k: Seq<char>) -> Map<Seq<char>, Seq<u8>> {
    m
}

/// The stored mapping after `n` existence probes for `k` in a row.
pub open spec fn probe_state_n(m: Map<Seq<char>, Seq<u8>>, k: Seq<char>, n: nat) -> Map<
    Seq<char>,
    Seq<u8>,
>
    decreases n,
{
    if n == 0 {
        m
    } else {
        probe_state(probe_state_n(m, k, (n - 1) as nat), k)
    }
}

/// Round-trip: writing a value under an identity key and then reading that
/// same key finds a stored value, and it is exactly the bytes written.
pub proof fn lemma_set_then_get(m: Map<Seq<char>, Seq<u8>>, k: Seq<char>, v: Seq<u8>)
    ensures
        m.insert(k, v).contains_key(k),
        m.insert(k, v)[k] == v,
{
}

/// Deletion: after an identity key is removed, a read of it finds nothing
/// and an existence probe of it answers false.
pub proof fn lemma_delete_then_absent(m: Map<Seq<char>, Seq<u8>>, k: Seq<char>)
    ensures
        !m.remove(k).contains_key(k),
{
}

/// Idempotent existence check: any number of probes, for any key, leaves
/// the stored mapping unchanged, so whatever a later read returns is what
/// it would have returned without the probes.
pub proof fn lemma_probes_change_nothing(m: Map<Seq<char>, Seq<u8>>, k: Seq<char>, n: nat)
    ensures
        probe_state_n(m, k, n) == m,
    decreases n,
{
    if n > 0 {
        lemma_probes_change_nothing(m, k, (n - 1) as nat);
    }
}

/// Overwrite: a second write under the same identity key leaves the
/// mapping exactly as if the first write had never happened; only the
/// second value remains.
pub proof fn lemma_overwrite(m: Map<Seq<char>, Seq<u8>>, k: Seq<char>, v1: Seq<u8>, v2: Seq<u8>)
    ensures
        m.insert(k, v1).insert(k, v2) == m.insert(k, v2),
{
    assert(m.insert(k, v1).insert(k, v2) =~= m.insert(k, v2));
}

/// A write under one identity key leaves what is stored under every other
/// key exactly as it was.
pub proof fn lemma_write_preserves_others(
    m: Map<Seq<char>, Seq<u8>>,
    k: Seq<char>,
    v: Seq<u8>,
    other: Seq<char>,
)
    requires
        other != k,
    ensures
        m.insert(k, v).contains_key(other) == m.contains_key(other),
        m.contains_key(other) ==> m.insert(k, v)[other] == m[other],
{
}

/// Absence before write: a fresh mock backend stores nothing, so every
/// identity key is absent until something is written under it.
pub proof fn lemma_fresh_is_absent(k: Seq<char>)
    ensures
        !Map::<Seq<char>, Seq<u8>>::empty().contains_key(k),
{
}

} // verus!
