//! Secret stores: the in-memory map store, the platform store handles,
//! and the choice of the configured LLM API key.

use vstd::prelude::*;

verus! {

/// Secret name under which the DeepSeek API key is saved.
pub const DEEPSEEK_API_KEY_NAME: &'static str = "deepseek_api_key";

/// Secret name consulted when no DeepSeek key is stored.
pub const LLM_API_KEY_NAME: &'static str = "llm_api_key";

/// Keychain service name of the platform store.
pub const KEYRING_SERVICE: &'static str = "com.dayrecord.app";

/// The map held by parallel key / value lists, later entries shadowing
/// nothing (keys are unique in a well-formed store).
pub open spec fn pairs_map(keys: Seq<Seq<char>>, values: Seq<Seq<char>>) -> Map<Seq<char>, Seq<char>>
    decreases keys.len(),
{
    if keys.len() == 0 || values.len() == 0 {
        Map::empty()
    } else {
        pairs_map(keys.drop_last(), values.drop_last()).insert(keys.last(), values.last())
    }
}

/// No key occurs twice.
pub open spec fn unique_keys(keys: Seq<Seq<char>>) -> bool {
    forall|i: int, j: int|
        0 <= i < keys.len() && 0 <= j < keys.len() && i != j ==> keys[i] != keys[j]
}

/// Keys and the values stored under them, position by position.
struct Entries {
    keys: Vec<String>,
    values: Vec<String>,
}

impl Entries {
    /// Index of `key`, if stored.
    fn find(&self, key: &str) -> (r: Option<usize>)
        ensures
            match r {
                Some(i) => i < self.keys@.len() && self.keys@[i as int]@ == key@,
                None => forall|i: int| 0 <= i < self.keys@.len() ==> self.keys@[i]@ != key@,
            },
    {
        let k = key.to_owned();
        let mut i: usize = 0;
        while i < self.keys.len()
            invariant
                k@ == key@,
                i <= self.keys@.len(),
                forall|j: int| 0 <= j < i ==> self.keys@[j]@ != key@,
            decreases self.keys@.len() - i,
        {
            if self.keys[i] == k {
                return Some(i);
            }
            i += 1;
        }
        None
    }
}

/// In-memory secret store for tests and development.
pub struct MapSecretStore {
    entries: Entries,
}

impl View for MapSecretStore {
    type V = Map<Seq<char>, Seq<char>>;

    /// The stored secrets.
    closed spec fn view(&self) -> Map<Seq<char>, Seq<char>> {
        pairs_map(self.entries.keys.deep_view(), self.entries.values.deep_view())
    }
}

impl MapSecretStore {
    /// Keys and values line up and no key occurs twice.
    #[verifier::type_invariant]
    spec fn wf(&self) -> bool {
        &&& self.entries.keys@.len() == self.entries.values@.len()
        &&& unique_keys(self.entries.keys.deep_view())
    }

    /// An empty store.
    pub fn new() -> (s: Self)
        ensures
            s.view() == Map::<Seq<char>, Seq<char>>::empty(),
    {
        let s = MapSecretStore { entries: Entries { keys: Vec::new(), values: Vec::new() } };
        assert(s.entries.keys.deep_view() =~= Seq::<Seq<char>>::empty());
        s
    }

    /// Stores `value` under `key`, replacing an earlier value.
    pub fn set(&mut self, key: &str, value: &str) -> (r: Result<(), String>)
        ensures
            r is Ok,
            final(self).view() == old(self).view().insert(key@, value@),
    {
        proof {
            use_type_invariant(&*self);
        }
        let mut e = Entries { keys: Vec::new(), values: Vec::new() };
        assert(e.keys.deep_view() =~= Seq::<Seq<char>>::empty());
        std::mem::swap(&mut e, &mut self.entries);
        let ghost ks = e.keys.deep_view();
        let ghost vs = e.values.deep_view();
        match e.find(key) {
            Some(i) => {
                proof {
                    lemma_pairs_update(ks, vs, i as int, value@);
                }
                e.values.set(i, value.to_owned());
                assert(e.values.deep_view() =~= vs.update(i as int, value@));
                assert(e.keys.deep_view() =~= ks);
            },
            None => {
                e.keys.push(key.to_owned());
                e.values.push(value.to_owned());
                assert(e.keys.deep_view() =~= ks.push(key@));
                assert(e.values.deep_view() =~= vs.push(value@));
                assert(e.keys.deep_view().drop_last() =~= ks);
                assert(e.values.deep_view().drop_last() =~= vs);
            },
        }
        self.entries = e;
        Ok(())
    }

    /// The value stored under `key`, if any.
    pub fn get(&self, key: &str) -> (r: Result<Option<String>, String>)
        ensures
            r matches Ok(o) && match o {
                Some(v) => self.view().contains_key(key@) && self.view()[key@] == v@,
                None => !self.view().contains_key(key@),
            },
    {
        proof {
            use_type_invariant(self);
        }
        match self.entries.find(key) {
            Some(i) => {
                proof {
                    lemma_pairs_lookup(
                        self.entries.keys.deep_view(),
                        self.entries.values.deep_view(),
                        i as int,
                    );
                }
                Ok(Some(self.entries.values[i].clone()))
            },
            None => {
                proof {
                    lemma_pairs_absent(
                        self.entries.keys.deep_view(),
                        self.entries.values.deep_view(),
                        key@,
                    );
                }
                Ok(None)
            },
        }
    }
}

proof fn lemma_pairs_lookup(keys: Seq<Seq<char>>, values: Seq<Seq<char>>, i: int)
    requires
        keys.len() == values.len(),
        unique_keys(keys),
        0 <= i < keys.len(),
    ensures
        pairs_map(keys, values).contains_key(keys[i]),
        pairs_map(keys, values)[keys[i]] == values[i],
    decreases keys.len(),
{
    if i < keys.len() - 1 {
        let k2 = keys.drop_last();
        let v2 = values.drop_last();
        assert forall|a: int, b: int|
            0 <= a < k2.len() && 0 <= b < k2.len() && a != b implies k2[a] != k2[b] by {
            assert(k2[a] == keys[a] && k2[b] == keys[b]);
        }
        lemma_pairs_lookup(k2, v2, i);
        assert(keys[i] != keys.last());
    }
}

proof fn lemma_pairs_absent(keys: Seq<Seq<char>>, values: Seq<Seq<char>>, k: Seq<char>)
    requires
        keys.len() == values.len(),
        forall|i: int| 0 <= i < keys.len() ==> keys[i] != k,
    ensures
        !pairs_map(keys, values).contains_key(k),
    decreases keys.len(),
{
    if keys.len() > 0 {
        let k2 = keys.drop_last();
        assert forall|i: int| 0 <= i < k2.len() implies k2[i] != k by {
            assert(k2[i] == keys[i]);
        }
        lemma_pairs_absent(k2, values.drop_last(), k);
        assert(keys.last() == keys[keys.len() - 1]);
    }
}

proof fn lemma_pairs_update(keys: Seq<Seq<char>>, values: Seq<Seq<char>>, i: int, v: Seq<char>)
    requires
        keys.len() == values.len(),
        unique_keys(keys),
        0 <= i < keys.len(),
    ensures
        pairs_map(keys, values.update(i, v)) == pairs_map(keys, values).insert(keys[i], v),
    decreases keys.len(),
{
    let nv = values.update(i, v);
    let k2 = keys.drop_last();
    let v2 = values.drop_last();
    assert forall|a: int, b: int|
        0 <= a < k2.len() && 0 <= b < k2.len() && a != b implies k2[a] != k2[b] by {
        assert(k2[a] == keys[a] && k2[b] == keys[b]);
    }
    if i == keys.len() - 1 {
        assert(nv.drop_last() =~= v2);
        assert(pairs_map(keys, nv) =~= pairs_map(keys, values).insert(keys[i], v));
    } else {
        assert(nv.drop_last() =~= v2.update(i, v));
        lemma_pairs_update(k2, v2, i, v);
        assert(keys[i] != keys.last());
        assert(pairs_map(keys, nv) =~= pairs_map(keys, values).insert(keys[i], v));
    }
}

/// After `set(key, value)`, `get(key)` answers `value` and every other key
/// answers what it answered before.
pub proof fn lemma_get_after_set(
    before: Map<Seq<char>, Seq<char>>,
    key: Seq<char>,
    value: Seq<char>,
    other: Seq<char>,
)
    ensures
        before.insert(key, value).contains_key(key),
        before.insert(key, value)[key] == value,
        other != key ==> (before.insert(key, value).contains_key(other) == before.contains_key(
            other,
        )),
        other != key && before.contains_key(other) ==> before.insert(key, value)[other]
            == before[other],
{
}

/// The platform keychain store (`keyring` crate); its reads and writes are
/// operating-system I/O performed by the application.
pub struct KeyringSecretStore;

impl KeyringSecretStore {
    /// The keychain store handle.
    pub fn new() -> (s: Self) {
        KeyringSecretStore
    }
}

/// The Windows DPAPI file store: each secret is kept DPAPI-protected and
/// base64-encoded (see `crate::base64`) in a file under the local
/// application data directory. The protection and the file access are
/// Windows system calls outside this library.
pub struct DpapiSecretStore;

impl DpapiSecretStore {
    /// The DPAPI store handle.
    pub fn new() -> (s: Self) {
        DpapiSecretStore
    }
}

/// The secret store used on every platform.
pub fn platform_secret_store() -> (s: KeyringSecretStore) {
    KeyringSecretStore::new()
}

/// The secret store of the desktop application.
pub fn secret_store() -> (s: KeyringSecretStore) {
    platform_secret_store()
}

/// The configured key: the DeepSeek key when one is stored (an empty stored
/// key counts as none configured), otherwise the generic LLM key if it is
/// not empty.
pub open spec fn spec_choose_api_key(primary: Option<Seq<char>>, fallback: Option<Seq<char>>) -> Option<
    Seq<char>,
> {
    match primary {
        Some(k) => if k.len() > 0 {
            Some(k)
        } else {
            None
        },
        None => match fallback {
            Some(k) => if k.len() > 0 {
                Some(k)
            } else {
                None
            },
            None => None,
        },
    }
}

/// Picks the API key from the two stored secrets (a failed read counts as
/// absent).
pub fn choose_api_key(primary: Option<String>, fallback: Option<String>) -> (r: Option<String>)
    ensures
        crate::uia_common::opt_view(r) == spec_choose_api_key(
            crate::uia_common::opt_view(primary),
            crate::uia_common::opt_view(fallback),
        ),
{
    match primary {
        Some(k) => if k.as_str().is_empty() {
            None
        } else {
            Some(k)
        },
        None => match fallback {
            Some(k) => if k.as_str().is_empty() {
                None
            } else {
                Some(k)
            },
            None => None,
        },
    }
}

/// Loads the configured API key from a map store, consulting the generic
/// key only when no DeepSeek key is stored.
pub fn load_api_key(store: &MapSecretStore) -> (r: Option<String>)
    ensures
        crate::uia_common::opt_view(r) == spec_choose_api_key(
            if store.view().contains_key(DEEPSEEK_API_KEY_NAME@) {
                Some(store.view()[DEEPSEEK_API_KEY_NAME@])
            } else {
                None
            },
            if store.view().contains_key(LLM_API_KEY_NAME@) {
                Some(store.view()[LLM_API_KEY_NAME@])
            } else {
                None
            },
        ),
{
    let primary = match store.get(DEEPSEEK_API_KEY_NAME) {
        Ok(o) => o,
        Err(_) => None,
    };
    let fallback = if primary.is_none() {
        match store.get(LLM_API_KEY_NAME) {
            Ok(o) => o,
            Err(_) => None,
        }
    } else {
        None
    };
    choose_api_key(primary, fallback)
}

} // verus!
