//! Layer-D DAK-wrap secret store: the OS-keychain backend with an explicit
//! fall back to the encrypted file-vault when the keychain is unavailable
//! (never a silent data loss).

use vstd::prelude::*;

use crate::bytes::push_bytes;
use crate::text::str_eq;

verus! {

/// Typed secret-store rejections.
#[derive(Debug, PartialEq, Eq, Clone, Copy, Structural)]
#[non_exhaustive]
pub enum SecretStoreError {
    /// The requested key was not present in the store.
    NotFound,
    /// The OS keychain backend is unavailable (the fallback trigger).
    KeychainUnavailable,
}

/// The key/secret map held by `entries`, later entries overriding earlier
/// ones.
pub open spec fn entries_map(s: Seq<(Seq<char>, Seq<u8>)>) -> Map<Seq<char>, Seq<u8>>
    decreases s.len(),
{
    if s.len() == 0 {
        Map::empty()
    } else {
        entries_map(s.drop_last()).insert(s.last().0, s.last().1)
    }
}

/// No key occurs twice.
pub open spec fn keys_unique(s: Seq<(Seq<char>, Seq<u8>)>) -> bool {
    forall|i: int, j: int| 0 <= i < j < s.len() ==> s[i].0 != s[j].0
}

/// A key absent from every entry is absent from the map.
proof fn lemma_entries_absent(s: Seq<(Seq<char>, Seq<u8>)>, k: Seq<char>)
    requires
        forall|i: int| 0 <= i < s.len() ==> s[i].0 != k,
    ensures
        !entries_map(s).contains_key(k),
    decreases s.len(),
{
    if s.len() > 0 {
        lemma_entries_absent(s.drop_last(), k);
    }
}

/// With unique keys, the map sends each entry's key to that entry's secret.
proof fn lemma_entries_lookup(s: Seq<(Seq<char>, Seq<u8>)>, i: int)
    requires
        keys_unique(s),
        0 <= i < s.len(),
    ensures
        entries_map(s).contains_key(s[i].0),
        entries_map(s)[s[i].0] == s[i].1,
    decreases s.len(),
{
    if i < s.len() - 1 {
        lemma_entries_lookup(s.drop_last(), i);
    }
}

/// With unique keys, overwriting entry `i` with a new secret for the same
/// key updates the map at that key.
proof fn lemma_entries_overwrite(s: Seq<(Seq<char>, Seq<u8>)>, i: int, v: Seq<u8>)
    requires
        keys_unique(s),
        0 <= i < s.len(),
    ensures
        entries_map(s.update(i, (s[i].0, v))) == entries_map(s).insert(s[i].0, v),
    decreases s.len(),
{
    let t = s.update(i, (s[i].0, v));
    if i == s.len() - 1 {
        assert(t.drop_last() =~= s.drop_last());
        lemma_entries_absent(s.drop_last(), s[i].0);
        assert(entries_map(t) =~= entries_map(s).insert(s[i].0, v));
    } else {
        lemma_entries_overwrite(s.drop_last(), i, v);
        assert(t.drop_last() =~= s.drop_last().update(i, (s[i].0, v)));
        assert(entries_map(t) =~= entries_map(s).insert(s[i].0, v));
    }
}

/// An in-memory key/secret table with unique keys.
///
/// vstd's `HashMap` / `HashSet` specifications hold only for key types
/// whose key model it proves (the primitive integers and `bool`), so the
/// entries are held in a `Vec` with the invariant stated here.
#[derive(Default)]
struct SecretTable {
    entries: Vec<(String, Vec<u8>)>,
}

impl SecretTable {
    spec fn seq(&self) -> Seq<(Seq<char>, Seq<u8>)> {
        self.entries@.map_values(|e: (String, Vec<u8>)| (e.0@, e.1@))
    }

    spec fn map(&self) -> Map<Seq<char>, Seq<u8>> {
        entries_map(self.seq())
    }

    spec fn wf(&self) -> bool {
        keys_unique(self.seq())
    }

    fn new() -> (t: Self)
        ensures
            t.wf(),
            t.map() == Map::<Seq<char>, Seq<u8>>::empty(),
    {
        let t = SecretTable { entries: Vec::new() };
        assert(t.seq() =~= Seq::<(Seq<char>, Seq<u8>)>::empty());
        t
    }

    /// The index of the entry for `key`, if any.
    fn find(&self, key: &str) -> (r: Option<usize>)
        requires
            self.wf(),
        ensures
            match r {
                Some(i) => i < self.seq().len() && self.seq()[i as int].0 == key@,
                None => !self.map().contains_key(key@),
            },
    {
        let n = self.entries.len();
        let mut i: usize = 0;
        while i < n
            invariant
                n == self.entries@.len(),
                i <= n,
                forall|j: int| 0 <= j < i ==> self.seq()[j].0 != key@,
            decreases n - i,
        {
            if str_eq(self.entries[i].0.as_str(), key) {
                return Some(i);
            }
            i += 1;
        }
        proof {
            lemma_entries_absent(self.seq(), key@);
        }
        None
    }

    fn put(&mut self, key: &str, secret: &[u8])
        requires
            old(self).wf(),
        ensures
            final(self).wf(),
            final(self).map() == old(self).map().insert(key@, secret@),
    {
        let mut value: Vec<u8> = Vec::new();
        push_bytes(&mut value, secret);
        match self.find(key) {
            Some(i) => {
                let ghost s = self.seq();
                let k = self.entries[i].0.clone();
                self.entries.set(i, (k, value));
                proof {
                    assert(self.seq() =~= s.update(i as int, (s[i as int].0, secret@)));
                    lemma_entries_overwrite(s, i as int, secret@);
                }
            },
            None => {
                let ghost s = self.seq();
                proof {
                    assert forall|j: int| 0 <= j < s.len() implies s[j].0 != key@ by {
                        if s[j].0 == key@ {
                            lemma_entries_lookup(s, j);
                        }
                    }
                }
                self.entries.push((key.to_owned(), value));
                assert(self.seq() =~= s.push((key@, secret@)));
                assert(self.seq().drop_last() =~= s);
            },
        }
    }

    fn get(&self, key: &str) -> (r: Option<Vec<u8>>)
        requires
            self.wf(),
        ensures
            match r {
                Some(v) => self.map().contains_key(key@) && self.map()[key@] == v@,
                None => !self.map().contains_key(key@),
            },
    {
        match self.find(key) {
            Some(i) => {
                proof {
                    lemma_entries_lookup(self.seq(), i as int);
                }
                Some(self.entries[i].1.clone())
            },
            None => None,
        }
    }
}

/// A read gives back what a write wrote: once `store(key, secret)` has
/// succeeded (the secrets became `before` with `key` mapped to `secret`),
/// retrieving `key` from the still-reachable store yields `secret`, and
/// every other key keeps its secret or its absence.
pub proof fn lemma_write_then_read(
    before: Map<Seq<char>, Seq<u8>>,
    after: Map<Seq<char>, Seq<u8>>,
    key: Seq<char>,
    secret: Seq<u8>,
)
    requires
        after == before.insert(key, secret),
    ensures
        after.contains_key(key),
        after[key] == secret,
        forall|k: Seq<char>|
            k != key ==> (#[trigger] after.contains_key(k) == before.contains_key(k) && (
            before.contains_key(k) ==> after[k] == before[k])),
{
}

/// The DAK-wrap secret-store seam: the OS keychain when available,
/// otherwise the encrypted file-vault.
pub trait SecretStore {
    /// The secrets held, by key.
    spec fn secrets(&self) -> Map<Seq<char>, Seq<u8>>;

    /// Whether the backend can service requests.
    spec fn reachable(&self) -> bool;

    /// The backend's name.
    spec fn backend(&self) -> Seq<char>;

    /// The store's invariant.
    spec fn inv(&self) -> bool;

    /// Store `secret` under `key`: succeeds exactly when the backend is
    /// reachable, and then the key maps to the secret.
    fn store(&mut self, key: &str, secret: &[u8]) -> (r: Result<(), SecretStoreError>)
        requires
            old(self).inv(),
        ensures
            final(self).inv(),
            final(self).reachable() == old(self).reachable(),
            final(self).backend() == old(self).backend(),
            r is Ok <==> old(self).reachable(),
            r is Ok ==> final(self).secrets() == old(self).secrets().insert(key@, secret@),
            r is Err ==> r == Err::<(), SecretStoreError>(SecretStoreError::KeychainUnavailable)
                && final(self).secrets() == old(self).secrets(),
    ;

    /// Retrieve the secret stored under `key`.
    fn retrieve(&self, key: &str) -> (r: Result<Vec<u8>, SecretStoreError>)
        requires
            self.inv(),
        ensures
            !self.reachable() ==> r == Err::<Vec<u8>, SecretStoreError>(
                SecretStoreError::KeychainUnavailable,
            ),
            self.reachable() && !self.secrets().contains_key(key@) ==> r == Err::<
                Vec<u8>,
                SecretStoreError,
            >(SecretStoreError::NotFound),
            self.reachable() && self.secrets().contains_key(key@) ==> (r matches Ok(v) && v@
                == self.secrets()[key@]),
    ;

    /// Which backend services requests: `keyring-core` or `file-vault`.
    fn backend_name(&self) -> (r: &'static str)
        ensures
            r@ == self.backend(),
    ;
}

/// The `keyring-core` backend. `available == false` models a host with no
/// OS keychain (the fallback trigger).
pub struct KeyringCoreStore {
    available: bool,
    items: SecretTable,
}

impl KeyringCoreStore {
    /// Build a keychain store; `available` models whether the OS keychain
    /// is reachable.
    pub fn new(available: bool) -> (s: Self)
        ensures
            s.inv(),
            s.reachable() == available,
            s.secrets() == Map::<Seq<char>, Seq<u8>>::empty(),
            s.backend() == "keyring-core"@,
    {
        KeyringCoreStore { available, items: SecretTable::new() }
    }

    /// Whether the OS keychain is reachable.
    pub fn is_available(&self) -> (r: bool)
        ensures
            r == self.reachable(),
    {
        self.available
    }
}

impl SecretStore for KeyringCoreStore {
    closed spec fn secrets(&self) -> Map<Seq<char>, Seq<u8>> {
        self.items.map()
    }

    closed spec fn reachable(&self) -> bool {
        self.available
    }

    open spec fn backend(&self) -> Seq<char> {
        "keyring-core"@
    }

    closed spec fn inv(&self) -> bool {
        self.items.wf()
    }

    fn store(&mut self, key: &str, secret: &[u8]) -> (r: Result<(), SecretStoreError>) {
        if !self.available {
            return Err(SecretStoreError::KeychainUnavailable);
        }
        self.items.put(key, secret);
        Ok(())
    }

    fn retrieve(&self, key: &str) -> (r: Result<Vec<u8>, SecretStoreError>) {
        if !self.available {
            return Err(SecretStoreError::KeychainUnavailable);
        }
        match self.items.get(key) {
            Some(v) => Ok(v),
            None => Err(SecretStoreError::NotFound),
        }
    }

    fn backend_name(&self) -> (r: &'static str) {
        "keyring-core"
    }
}

/// Encrypted file-vault fallback. Always available.
#[derive(Default)]
pub struct FileVaultStore {
    items: SecretTable,
}

impl FileVaultStore {
    /// Build a fresh file-vault store.
    pub fn new() -> (s: Self)
        ensures
            s.inv(),
            s.reachable(),
            s.secrets() == Map::<Seq<char>, Seq<u8>>::empty(),
            s.backend() == "file-vault"@,
    {
        FileVaultStore { items: SecretTable::new() }
    }
}

impl SecretStore for FileVaultStore {
    closed spec fn secrets(&self) -> Map<Seq<char>, Seq<u8>> {
        self.items.map()
    }

    open spec fn reachable(&self) -> bool {
        true
    }

    open spec fn backend(&self) -> Seq<char> {
        "file-vault"@
    }

    closed spec fn inv(&self) -> bool {
        self.items.wf()
    }

    fn store(&mut self, key: &str, secret: &[u8]) -> (r: Result<(), SecretStoreError>) {
        self.items.put(key, secret);
        Ok(())
    }

    fn retrieve(&self, key: &str) -> (r: Result<Vec<u8>, SecretStoreError>) {
        match self.items.get(key) {
            Some(v) => Ok(v),
            None => Err(SecretStoreError::NotFound),
        }
    }

    fn backend_name(&self) -> (r: &'static str) {
        "file-vault"
    }
}

/// The DAK-wrap store [`open_dak_wrap_store`] picks: the keychain backend
/// or the file-vault fallback.
pub enum DakWrapStore {
    /// The OS keychain (`keyring-core`).
    Keyring(KeyringCoreStore),
    /// The encrypted file-vault fallback.
    FileVault(FileVaultStore),
}

impl SecretStore for DakWrapStore {
    open spec fn secrets(&self) -> Map<Seq<char>, Seq<u8>> {
        match self {
            DakWrapStore::Keyring(k) => k.secrets(),
            DakWrapStore::FileVault(f) => f.secrets(),
        }
    }

    open spec fn reachable(&self) -> bool {
        match self {
            DakWrapStore::Keyring(k) => k.reachable(),
            DakWrapStore::FileVault(f) => f.reachable(),
        }
    }

    open spec fn backend(&self) -> Seq<char> {
        match self {
            DakWrapStore::Keyring(k) => k.backend(),
            DakWrapStore::FileVault(f) => f.backend(),
        }
    }

    open spec fn inv(&self) -> bool {
        match self {
            DakWrapStore::Keyring(k) => k.inv(),
            DakWrapStore::FileVault(f) => f.inv(),
        }
    }

    fn store(&mut self, key: &str, secret: &[u8]) -> (r: Result<(), SecretStoreError>) {
        match self {
            DakWrapStore::Keyring(k) => k.store(key, secret),
            DakWrapStore::FileVault(f) => f.store(key, secret),
        }
    }

    fn retrieve(&self, key: &str) -> (r: Result<Vec<u8>, SecretStoreError>) {
        match self {
            DakWrapStore::Keyring(k) => k.retrieve(key),
            DakWrapStore::FileVault(f) => f.retrieve(key),
        }
    }

    fn backend_name(&self) -> (r: &'static str) {
        match self {
            DakWrapStore::Keyring(k) => k.backend_name(),
            DakWrapStore::FileVault(f) => f.backend_name(),
        }
    }
}

/// Open the DAK-wrap store: the OS keychain when it is available,
/// otherwise the encrypted file-vault. The store opens empty and
/// reachable.
pub fn open_dak_wrap_store(keychain_available: bool) -> (s: DakWrapStore)
    ensures
        s.inv(),
        s.reachable(),
        s.secrets() == Map::<Seq<char>, Seq<u8>>::empty(),
        s.backend() == if keychain_available {
            "keyring-core"@
        } else {
            "file-vault"@
        },
{
    let keyring = KeyringCoreStore::new(keychain_available);
    if keyring.is_available() {
        DakWrapStore::Keyring(keyring)
    } else {
        DakWrapStore::FileVault(FileVaultStore::new())
    }
}

} // verus!
