use vstd::prelude::*;

verus! {

/// One stored credential of the in-memory mock backend: a full identity key
/// and the secret bytes stored under it.
struct MockEntry {
    key: String,
    value: Vec<u8>,
}

/// Whether some entry of `s` carries the key `k`.
spec fn has_key(s: Seq<MockEntry>, k: Seq<char>) -> bool {
    exists|i: int| 0 <= i < s.len() && s[i].key@ == k
}

/// The index of the entry carrying `k`: meaningful when keys are unique and
/// some entry carries `k`.
spec fn index_of(s: Seq<MockEntry>, k: Seq<char>) -> int {
    choose|i: int| 0 <= i < s.len() && s[i].key@ == k
}

/// No two entries carry the same key.
spec fn unique_keys(s: Seq<MockEntry>) -> bool {
    forall|i: int, j: int| 0 <= i < j < s.len() ==> s[i].key@ != s[j].key@
}

/// The mapping from identity keys to secret bytes that a sequence of entries
/// represents.
spec fn map_of(s: Seq<MockEntry>) -> Map<Seq<char>, Seq<u8>> {
    Map::new(|k: Seq<char>| has_key(s, k), |k: Seq<char>| s[index_of(s, k)].value@)
}

proof fn lemma_index_of(s: Seq<MockEntry>, k: Seq<char>)
    requires
        unique_keys(s),
        has_key(s, k),
    ensures
        0 <= index_of(s, k) < s.len(),
        s[index_of(s, k)].key@ == k,
        forall|i: int| 0 <= i < s.len() && s[i].key@ == k ==> i == index_of(s, k),
{
    let i0 = index_of(s, k);
    assert(0 <= i0 < s.len() && s[i0].key@ == k);
    assert forall|i: int| 0 <= i < s.len() && s[i].key@ == k implies i == i0 by {
        if i < i0 {
            assert(s[i].key@ != s[i0].key@);
        } else if i0 < i {
            assert(s[i0].key@ != s[i].key@);
        }
    }
}

/// Appending an entry whose key is fresh inserts its pair into the
/// represented mapping.
proof fn lemma_map_push(s: Seq<MockEntry>, e: MockEntry)
    requires
        unique_keys(s),
        !has_key(s, e.key@),
    ensures
        unique_keys(s.push(e)),
        map_of(s.push(e)) == map_of(s).insert(e.key@, e.value@),
{
    let t = s.push(e);
    assert forall|i: int, j: int| 0 <= i < j < t.len() implies t[i].key@ != t[j].key@ by {
        if j == s.len() {
            if t[i].key@ == e.key@ {
                assert(s[i].key@ == e.key@);
                assert(has_key(s, e.key@));
            }
        }
    }
    assert forall|k: Seq<char>| has_key(t, k) implies (k == e.key@ || has_key(s, k)) by {
        let i = choose|i: int| 0 <= i < t.len() && t[i].key@ == k;
        if i < s.len() {
            assert(s[i].key@ == k);
        }
    }
    assert forall|k: Seq<char>| k != e.key@ && has_key(s, k) implies has_key(t, k) by {
        let i = choose|i: int| 0 <= i < s.len() && s[i].key@ == k;
        assert(t[i].key@ == k);
    }
    assert(has_key(t, e.key@)) by {
        assert(t[s.len() as int].key@ == e.key@);
    }
    assert forall|k: Seq<char>| has_key(t, k) implies map_of(t)[k] == map_of(s).insert(
        e.key@,
        e.value@,
    )[k] by {
        lemma_index_of(t, k);
        let it = index_of(t, k);
        if k == e.key@ {
            assert(t[s.len() as int].key@ == k);
            assert(it == s.len());
            assert(t[it].value@ == e.value@);
        } else {
            assert(it < s.len());
            assert(s[it].key@ == k);
            assert(has_key(s, k));
            lemma_index_of(s, k);
            assert(index_of(s, k) == it);
            assert(map_of(s)[k] == s[it].value@);
            assert(t[it].value@ == s[it].value@);
        }
    }
    assert(map_of(t) =~= map_of(s).insert(e.key@, e.value@));
}

/// Removing the one entry that carries a key removes that key from the
/// represented mapping.
proof fn lemma_map_remove(s: Seq<MockEntry>, i: int)
    requires
        unique_keys(s),
        0 <= i < s.len(),
    ensures
        unique_keys(s.remove(i)),
        map_of(s.remove(i)) == map_of(s).remove(s[i].key@),
{
    let t = s.remove(i);
    let ki = s[i].key@;
    assert forall|p: int, q: int| 0 <= p < q < t.len() implies t[p].key@ != t[q].key@ by {
        let sp: int = if p < i {
            p
        } else {
            p + 1
        };
        let sq: int = if q < i {
            q
        } else {
            q + 1
        };
        assert(t[p] == s[sp]);
        assert(t[q] == s[sq]);
    }
    assert forall|k: Seq<char>| has_key(t, k) implies has_key(s, k) && k != ki by {
        let p = choose|p: int| 0 <= p < t.len() && t[p].key@ == k;
        let sp: int = if p < i {
            p
        } else {
            p + 1
        };
        assert(t[p] == s[sp]);
        assert(s[sp].key@ == k);
        if k == ki {
            if sp < i {
                assert(s[sp].key@ != s[i].key@);
            } else {
                assert(s[i].key@ != s[sp].key@);
            }
        }
    }
    assert forall|k: Seq<char>| has_key(s, k) && k != ki implies has_key(t, k) by {
        let sp = choose|sp: int| 0 <= sp < s.len() && s[sp].key@ == k;
        if sp < i {
            assert(t[sp] == s[sp]);
            assert(t[sp].key@ == k);
        } else {
            assert(sp != i);
            assert(t[sp - 1] == s[sp]);
            assert(t[sp - 1].key@ == k);
        }
    }
    assert forall|k: Seq<char>| has_key(t, k) implies map_of(t)[k] == map_of(s).remove(ki)[k] by {
        lemma_index_of(t, k);
        lemma_index_of(s, k);
        let p = index_of(t, k);
        let sp: int = if p < i {
            p
        } else {
            p + 1
        };
        assert(t[p] == s[sp]);
        assert(s[sp].key@ == k);
        assert(index_of(s, k) == sp);
        assert(map_of(t)[k] == t[p].value@);
        assert(map_of(s)[k] == s[sp].value@);
    }
    assert(map_of(t) =~= map_of(s).remove(ki));
}

/// The volatile in-memory backend used for deterministic testing. It lives
/// for the process lifetime only; nothing it stores survives a restart, and
/// no platform-native store is ever touched on its behalf.
pub struct MockStore {
    entries: Vec<MockEntry>,
}

/// Locate the entry carrying `key`, if any.
fn find(entries: &Vec<MockEntry>, key: &String) -> (r: Option<usize>)
    ensures
        r matches Some(i) ==> i < entries@.len() && entries@[i as int].key@ == key@,
        r is None ==> !has_key(entries@, key@),
{
    let mut i: usize = 0;
    while i < entries.len()
        invariant
            i <= entries@.len(),
            forall|j: int| 0 <= j < i ==> entries@[j].key@ != key@,
        decreases entries@.len() - i,
    {
        if entries[i].key == *key {
            return Some(i);
        }
        i += 1;
    }
    None
}

impl MockStore {
    /// All identity keys are distinct: a credential identity maps to at most
    /// one stored secret.
    #[verifier::type_invariant]
    spec fn wf(self) -> bool {
        unique_keys(self.entries@)
    }

    /// The mapping from identity keys to stored secret bytes.
    pub closed spec fn view(self) -> Map<Seq<char>, Seq<u8>> {
        map_of(self.entries@)
    }

    /// A fresh mock backend holds nothing.
    pub fn new() -> (r: Self)
        ensures
            r@ == Map::<Seq<char>, Seq<u8>>::empty(),
    {
        let entries: Vec<MockEntry> = Vec::new();
        let r = MockStore { entries };
        proof {
            assert(r@ =~= Map::<Seq<char>, Seq<u8>>::empty());
        }
        r
    }

    /// Store `value` under `key`, creating the entry or overwriting the one
    /// already there.
    pub fn put(&mut self, key: String, value: Vec<u8>)
        ensures
            final(self)@ == old(self)@.insert(key@, value@),
    {
        proof {
            use_type_invariant(&*self);
        }
        let ghost m0 = self@;
        let mut entries: Vec<MockEntry> = Vec::new();
        core::mem::swap(&mut entries, &mut self.entries);
        match find(&entries, &key) {
            Some(i) => {
                proof {
                    lemma_map_remove(entries@, i as int);
                }
                entries.remove(i);
            },
            None => {},
        }
        proof {
            if has_key(entries@, key@) {
                assert(map_of(entries@).contains_key(key@));
            }
            assert(!has_key(entries@, key@));
        }
        let ghost before_push = entries@;
        let e = MockEntry { key, value };
        proof {
            lemma_map_push(before_push, e);
        }
        entries.push(e);
        self.entries = entries;
        proof {
            assert(map_of(before_push) =~= m0.remove(e.key@));
            assert(m0.remove(e.key@).insert(e.key@, e.value@) =~= m0.insert(e.key@, e.value@));
        }
    }

    /// Retrieve a copy of the bytes stored under `key`, or nothing when no
    /// entry carries it.
    pub fn get(&self, key: &String) -> (r: Option<Vec<u8>>)
        ensures
            r matches Some(v) ==> self@.contains_key(key@) && v@ == self@[key@],
            r is None ==> !self@.contains_key(key@),
    {
        proof {
            use_type_invariant(self);
        }
        match find(&self.entries, key) {
            Some(i) => {
                proof {
                    lemma_index_of(self.entries@, key@);
                }
                Some(vstd::slice::slice_to_vec(self.entries[i].value.as_slice()))
            },
            None => None,
        }
    }

    /// Whether an entry carries `key`. A probe only: the store is not
    /// changed, and no entry comes into being on its behalf.
    pub fn contains(&self, key: &String) -> (r: bool)
        ensures
            r == self@.contains_key(key@),
    {
        proof {
            use_type_invariant(self);
        }
        match find(&self.entries, key) {
            Some(_) => true,
            None => false,
        }
    }

    /// Remove the entry carrying `key`. All-or-nothing: when no entry
    /// carries it, the store is left exactly as it was.
    pub fn remove(&mut self, key: &String) -> (r: bool)
        ensures
            r == old(self)@.contains_key(key@),
            final(self)@ == old(self)@.remove(key@),
            !r ==> *final(self) == *old(self),
    {
        proof {
            use_type_invariant(&*self);
        }
        let ghost m0 = self@;
        match find(&self.entries, key) {
            Some(i) => {
                let mut entries: Vec<MockEntry> = Vec::new();
                core::mem::swap(&mut entries, &mut self.entries);
                proof {
                    lemma_map_remove(entries@, i as int);
                }
                entries.remove(i);
                self.entries = entries;
                true
            },
            None => {
                proof {
                    assert(m0.remove(key@) =~= m0);
                }
                false
            },
        }
    }
}

} // verus!
