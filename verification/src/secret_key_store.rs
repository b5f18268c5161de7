//! The store of secret keys: which key is held under which identifier.

use crate::key_id::KeyId;
use crate::store_format::decode_entries;
use crate::store_format::decode_store;
use crate::store_format::encode_entries;
use crate::store_format::encode_store;
use crate::store_format::lemma_store_round_trip;
use crate::store_format::read_entry;
use crate::store_format::write_entry;
use crate::types::CspSecretKey;
use crate::types::TaggedBytes;
use vstd::prelude::*;

verus! {

/// One entry of a store, as contracts see it.
pub struct KeyEntry {
    pub id: Seq<u8>,
    pub key: TaggedBytes,
}

/// Whether some entry has the given identifier.
pub open spec fn holds_id(entries: Seq<KeyEntry>, id: Seq<u8>) -> bool {
    exists|i: int| 0 <= i < entries.len() && #[trigger] entries[i].id == id
}

/// Whether no two entries share an identifier.
pub open spec fn distinct_ids(entries: Seq<KeyEntry>) -> bool {
    forall|i: int, j: int|
        0 <= i < entries.len() && 0 <= j < entries.len() && i != j ==> #[trigger] entries[i].id
            != #[trigger] entries[j].id
}

/// The key held under each identifier.
pub open spec fn keys_by_id(entries: Seq<KeyEntry>) -> Map<Seq<u8>, TaggedBytes> {
    Map::new(
        |id: Seq<u8>| holds_id(entries, id),
        |id: Seq<u8>|
            entries[choose|i: int| 0 <= i < entries.len() && #[trigger] entries[i].id == id].key,
    )
}

/// With distinct identifiers, the key held under the identifier of an entry
/// is the key of that entry.
pub proof fn lemma_keys_by_id_at(entries: Seq<KeyEntry>, i: int)
    requires
        distinct_ids(entries),
        0 <= i < entries.len(),
    ensures
        keys_by_id(entries).contains_key(entries[i].id),
        keys_by_id(entries)[entries[i].id] == entries[i].key,
{
    let id = entries[i].id;
    let j = choose|j: int| 0 <= j < entries.len() && #[trigger] entries[j].id == id;
    assert(j == i);
}

/// Adding an entry under a new identifier adds its key to the keys held.
pub proof fn lemma_keys_by_id_push(entries: Seq<KeyEntry>, entry: KeyEntry)
    requires
        distinct_ids(entries),
        !holds_id(entries, entry.id),
    ensures
        distinct_ids(entries.push(entry)),
        keys_by_id(entries.push(entry)) == keys_by_id(entries).insert(entry.id, entry.key),
{
    let after = entries.push(entry);
    assert forall|i: int, j: int|
        0 <= i < after.len() && 0 <= j < after.len() && i != j implies #[trigger] after[i].id
        != #[trigger] after[j].id by {
        if i < entries.len() && j < entries.len() {
            assert(entries[i].id != entries[j].id);
        } else if i < entries.len() {
            assert(entries[i].id != entry.id);
        } else {
            assert(entries[j].id != entry.id);
        }
    }
    assert forall|id: Seq<u8>|
        holds_id(after, id) <==> (holds_id(entries, id) || id == entry.id) by {
        if holds_id(after, id) {
            let i = choose|i: int| 0 <= i < after.len() && #[trigger] after[i].id == id;
            if i < entries.len() {
                assert(entries[i].id == id);
            }
        }
        if holds_id(entries, id) {
            let i = choose|i: int| 0 <= i < entries.len() && #[trigger] entries[i].id == id;
            assert(after[i].id == id);
        }
        if id == entry.id {
            assert(after[entries.len() as int].id == id);
        }
    }
    assert forall|id: Seq<u8>| holds_id(after, id) implies #[trigger] keys_by_id(after)[id]
        == keys_by_id(entries).insert(entry.id, entry.key)[id] by {
        let i = choose|i: int| 0 <= i < after.len() && #[trigger] after[i].id == id;
        lemma_keys_by_id_at(after, i);
        if i < entries.len() {
            assert(entries[i].id == id);
            lemma_keys_by_id_at(entries, i);
        }
    }
    assert(keys_by_id(after) =~= keys_by_id(entries).insert(entry.id, entry.key));
}

/// Taking an entry out takes its key out of the keys held.
pub proof fn lemma_keys_by_id_remove(entries: Seq<KeyEntry>, at: int)
    requires
        distinct_ids(entries),
        0 <= at < entries.len(),
    ensures
        distinct_ids(entries.remove(at)),
        keys_by_id(entries.remove(at)) == keys_by_id(entries).remove(entries[at].id),
{
    let after = entries.remove(at);
    let gone = entries[at].id;
    assert forall|i: int| 0 <= i < after.len() implies #[trigger] after[i] == entries[if i < at {
        i
    } else {
        i + 1
    }] by {}
    assert forall|i: int, j: int|
        0 <= i < after.len() && 0 <= j < after.len() && i != j implies #[trigger] after[i].id
        != #[trigger] after[j].id by {
        let i0 = if i < at { i } else { i + 1 };
        let j0 = if j < at { j } else { j + 1 };
        assert(entries[i0].id != entries[j0].id);
    }
    assert forall|id: Seq<u8>| holds_id(after, id) <==> (holds_id(entries, id) && id != gone) by {
        if holds_id(after, id) {
            let i = choose|i: int| 0 <= i < after.len() && #[trigger] after[i].id == id;
            let i0 = if i < at { i } else { i + 1 };
            assert(entries[i0].id == id);
            assert(entries[i0].id != entries[at].id);
        }
        if holds_id(entries, id) && id != gone {
            let i = choose|i: int| 0 <= i < entries.len() && #[trigger] entries[i].id == id;
            let i1 = if i < at { i } else { i - 1 };
            assert(after[i1].id == id);
        }
    }
    assert forall|id: Seq<u8>| holds_id(after, id) implies #[trigger] keys_by_id(after)[id]
        == keys_by_id(entries).remove(gone)[id] by {
        let i = choose|i: int| 0 <= i < after.len() && #[trigger] after[i].id == id;
        let i0 = if i < at { i } else { i + 1 };
        lemma_keys_by_id_at(after, i);
        lemma_keys_by_id_at(entries, i0);
    }
    assert(keys_by_id(after) =~= keys_by_id(entries).remove(gone));
}

/// One entry of a store.
#[derive(Clone, Debug, PartialEq, Eq)]
pub struct StoreEntry {
    pub id: KeyId,
    pub key: CspSecretKey,
}

impl View for StoreEntry {
    type V = KeyEntry;

    open spec fn view(&self) -> KeyEntry {
        KeyEntry { id: self.id@, key: self.key@ }
    }
}

/// Why a store refused a change.
#[derive(Clone, Copy, Debug, PartialEq, Eq)]
pub enum SecretKeyStoreError {
    /// Another key is already held under this identifier.
    DuplicateKeyId(KeyId),
}

/// Bytes that are not the written form of a store.
#[derive(Clone, Copy, Debug, PartialEq, Eq, Structural)]
pub struct CorruptSecretKeyStore;

/// A store of secret keys. It holds at most one key under an identifier and
/// keeps its entries in the order in which they came.
pub struct SecretKeyStore {
    entries: Vec<StoreEntry>,
}

impl View for SecretKeyStore {
    type V = Map<Seq<u8>, TaggedBytes>;

    /// The key held under each identifier.
    closed spec fn view(&self) -> Map<Seq<u8>, TaggedBytes> {
        keys_by_id(self.entries())
    }
}

impl SecretKeyStore {
    /// The entries of the store, oldest first.
    pub closed spec fn entries(&self) -> Seq<KeyEntry> {
        Seq::new(self.entries@.len(), |i: int| self.entries@[i]@)
    }

    /// Whether the store is in order: no two entries share an identifier.
    pub closed spec fn well_formed(&self) -> bool {
        distinct_ids(self.entries())
    }

    /// What a well-formed store is, stated over its entries.
    pub proof fn lemma_well_formed(&self)
        ensures
            self.well_formed() == distinct_ids(self.entries()),
            self@ == keys_by_id(self.entries()),
    {
    }

    /// A store with no key in it.
    pub fn new() -> (store: SecretKeyStore)
        ensures
            store.well_formed(),
            store.entries() == Seq::<KeyEntry>::empty(),
            store@ == Map::<Seq<u8>, TaggedBytes>::empty(),
    {
        let store = SecretKeyStore { entries: Vec::new() };
        assert(store.entries() =~= Seq::<KeyEntry>::empty());
        assert(store@ =~= Map::<Seq<u8>, TaggedBytes>::empty());
        store
    }

    /// How many keys the store holds.
    pub fn len(&self) -> (n: usize)
        ensures
            n == self.entries().len(),
    {
        self.entries.len()
    }

    fn position(&self, id: &KeyId) -> (found: Option<usize>)
        ensures
            match found {
                Some(i) => i < self.entries().len() && self.entries()[i as int].id == id@,
                None => !holds_id(self.entries(), id@),
            },
    {
        let mut i: usize = 0;
        while i < self.entries.len()
            invariant
                i <= self.entries@.len(),
                forall|j: int| 0 <= j < i ==> (#[trigger] self.entries()[j]).id != id@,
            decreases self.entries@.len() - i,
        {
            if self.entries[i].id.same_as(id) {
                return Some(i);
            }
            i = i + 1;
        }
        None
    }

    /// Whether a key is held under `id`.
    pub fn contains(&self, id: &KeyId) -> (held: bool)
        ensures
            held == self@.contains_key(id@),
    {
        self.position(id).is_some()
    }

    /// A copy of the key held under `id`, if there is one.
    pub fn get(&self, id: &KeyId) -> (key: Option<CspSecretKey>)
        requires
            self.well_formed(),
        ensures
            match key {
                Some(key) => self@.contains_key(id@) && self@[id@] == key@,
                None => !self@.contains_key(id@),
            },
    {
        match self.position(id) {
            Some(i) => {
                proof {
                    lemma_keys_by_id_at(self.entries(), i as int);
                }
                Some(self.entries[i].key.duplicate())
            },
            None => None,
        }
    }

    /// Puts `key` under `id`. Where the very same key is already held under
    /// `id` nothing changes; where another key is held under it the store
    /// refuses, and keeps the key it has.
    pub fn insert(&mut self, id: KeyId, key: CspSecretKey) -> (done: Result<
        (),
        SecretKeyStoreError,
    >)
        requires
            old(self).well_formed(),
        ensures
            final(self).well_formed(),
            match done {
                Ok(()) => {
                    &&& old(self)@.contains_key(id@) ==> old(self)@[id@] == key@
                    &&& final(self)@ == old(self)@.insert(id@, key@)
                    &&& final(self).entries() == if old(self)@.contains_key(id@) {
                        old(self).entries()
                    } else {
                        old(self).entries().push(KeyEntry { id: id@, key: key@ })
                    }
                },
                Err(SecretKeyStoreError::DuplicateKeyId(refused)) => {
                    &&& old(self)@.contains_key(id@)
                    &&& old(self)@[id@] != key@
                    &&& refused == id
                    &&& final(self).entries() == old(self).entries()
                    &&& final(self)@ == old(self)@
                },
            },
    {
        match self.position(&id) {
            Some(i) => {
                proof {
                    lemma_keys_by_id_at(self.entries(), i as int);
                }
                if self.entries[i].key.same_as(&key) {
                    assert(self@ =~= self@.insert(id@, key@));
                    Ok(())
                } else {
                    Err(SecretKeyStoreError::DuplicateKeyId(id))
                }
            },
            None => {
                let ghost entry = KeyEntry { id: id@, key: key@ };
                proof {
                    lemma_keys_by_id_push(self.entries(), entry);
                }
                self.entries.push(StoreEntry { id, key });
                assert(self.entries() =~= old(self).entries().push(entry));
                Ok(())
            },
        }
    }

    /// Takes out the key held under `id`, and says whether there was one.
    pub fn remove(&mut self, id: &KeyId) -> (removed: bool)
        requires
            old(self).well_formed(),
        ensures
            final(self).well_formed(),
            removed == old(self)@.contains_key(id@),
            final(self)@ == old(self)@.remove(id@),
    {
        match self.position(id) {
            Some(i) => {
                proof {
                    lemma_keys_by_id_remove(self.entries(), i as int);
                }
                let _ = self.entries.remove(i);
                assert(self.entries() =~= old(self).entries().remove(i as int));
                true
            },
            None => {
                assert(self@ =~= self@.remove(id@));
                false
            },
        }
    }
    /// The written form of the store: what its file holds.
    pub fn to_bytes(&self) -> (bytes: Vec<u8>)
        requires
            self.well_formed(),
        ensures
            bytes@ == encode_store(self.entries()),
            decode_store(bytes@) == Some(self.entries()),
    {
        let count = self.entries.len();
        let mut bytes: Vec<u8> = Vec::new();
        crate::bytes::push_u64(&mut bytes, count as u64);
        let ghost head = bytes@;
        let mut i: usize = 0;
        assert(self.entries().take(0) =~= Seq::<KeyEntry>::empty());
        while i < count
            invariant
                i <= count == self.entries@.len(),
                bytes@ == head + encode_entries(self.entries().take(i as int)),
            decreases count - i,
        {
            write_entry(&mut bytes, &self.entries[i]);
            proof {
                let upto = self.entries().take(i + 1);
                assert(upto.drop_last() =~= self.entries().take(i as int));
                assert(upto.last() == self.entries@[i as int]@);
                assert(bytes@ =~= head + encode_entries(upto));
            }
            i = i + 1;
        }
        proof {
            assert(self.entries().take(count as int) =~= self.entries());
            assert forall|i: int| 0 <= i < self.entries().len() implies crate::store_format::entry_fits(
                #[trigger] self.entries()[i],
            ) by {
                assert(self.entries()[i] == self.entries@[i]@);
                assert(self.entries@[i].id.0@.len() == 32);
                assert(self.entries@[i].key.bytes@.len() == self.entries@[i].key.bytes.len());
            }
            lemma_store_round_trip(self.entries());
        }
        bytes
    }

    /// Reads a store from its written form. Bytes that are not the written
    /// form of a store are refused.
    pub fn from_bytes(bytes: &[u8]) -> (read: Result<SecretKeyStore, CorruptSecretKeyStore>)
        ensures
            match read {
                Ok(store) => store.well_formed() && decode_store(bytes@) == Some(store.entries()),
                Err(_) => decode_store(bytes@).is_none(),
            },
    {
        if bytes.len() < 8 {
            return Err(CorruptSecretKeyStore);
        }
        let count = crate::bytes::read_u64(bytes, 0);
        let ghost body = bytes@.skip(8);
        let mut store = SecretKeyStore { entries: Vec::new() };
        let mut distinct = true;
        let mut at: usize = 8;
        let mut i: u64 = 0;
        assert(store.entries() =~= Seq::<KeyEntry>::empty());
        assert(bytes@.skip(8) =~= body);
        while i < count
            invariant
                i <= count,
                8 <= at <= bytes@.len(),
                body == bytes@.skip(8),
                count == crate::bytes::u64_of_bytes(bytes@.subrange(0, 8)),
                store.entries().len() == i,
                distinct == distinct_ids(store.entries()),
                decode_entries(body, count as nat) == match decode_entries(
                    bytes@.skip(at as int),
                    (count - i) as nat,
                ) {
                    None => None,
                    Some(rest) => Some(store.entries() + rest),
                },
            decreases count - i,
        {
            let ghost before = store.entries();
            match read_entry(bytes, at) {
                None => {
                    return Err(CorruptSecretKeyStore);
                },
                Some((entry, next)) => {
                    let ghost added = entry@;
                    assert(bytes@.skip(at as int).skip(next - at) =~= bytes@.skip(next as int));
                    if distinct && store.position(&entry.id).is_some() {
                        distinct = false;
                    }
                    proof {
                        if distinct {
                            lemma_keys_by_id_push(before, added);
                        } else if distinct_ids(before) {
                            let j = choose|j: int|
                                0 <= j < before.len() && #[trigger] before[j].id == added.id;
                            let last = before.len() as int;
                            assert(before.push(added)[j].id == before.push(added)[last].id);
                        } else {
                            let (a, b) = choose|a: int, b: int|
                                0 <= a < before.len() && 0 <= b < before.len() && a != b && !(
                                #[trigger] before[a].id != #[trigger] before[b].id);
                            assert(before.push(added)[a].id == before.push(added)[b].id);
                        }
                    }
                    store.entries.push(entry);
                    assert(store.entries() =~= before.push(added));
                    assert forall|rest: Seq<KeyEntry>|
                        before + (seq![added] + rest) == before.push(added) + rest by {
                        assert(before + (seq![added] + rest) =~= before.push(added) + rest);
                    }
                    at = next;
                    i = i + 1;
                },
            }
        }
        if at != bytes.len() {
            return Err(CorruptSecretKeyStore);
        }
        assert(bytes@.skip(at as int) =~= Seq::<u8>::empty());
        assert(store.entries() + Seq::<KeyEntry>::empty() =~= store.entries());
        if distinct {
            Ok(store)
        } else {
            Err(CorruptSecretKeyStore)
        }
    }

    /// Opens a store from what its file holds: an empty store where there is
    /// no file, the store written there where there is one, and a refusal
    /// where the file holds anything else.
    pub fn open(file: Option<&[u8]>) -> (opened: Result<SecretKeyStore, CorruptSecretKeyStore>)
        ensures
            match opened {
                Ok(store) => store.well_formed() && match file {
                    None => store.entries() == Seq::<KeyEntry>::empty(),
                    Some(bytes) => decode_store(bytes@) == Some(store.entries()),
                },
                Err(_) => file matches Some(bytes) && decode_store(bytes@).is_none(),
            },
    {
        match file {
            None => Ok(SecretKeyStore::new()),
            Some(bytes) => SecretKeyStore::from_bytes(bytes),
        }
    }
}

} // verus!
