//! How a store of secret keys is written as bytes and read back.
//!
//! A store is written as the number of its entries in eight bytes, followed
//! by the entries in their order. An entry is the 32 bytes of the
//! identifier, one byte for the number of the key's algorithm, the length of
//! the key in eight bytes, and the key.

use crate::algorithm::algorithm_number;
use crate::algorithm::algorithm_of_number;
use crate::algorithm::AlgorithmId;
use crate::algorithm::ALGORITHM_COUNT;
use crate::bytes::copy_range;
use crate::bytes::lemma_u64_bytes_round_trip;
use crate::bytes::push_bytes;
use crate::bytes::push_u64;
use crate::bytes::read_32_bytes;
use crate::bytes::read_u64;
use crate::bytes::u64_bytes;
use crate::bytes::u64_of_bytes;
use crate::key_id::KeyId;
use crate::secret_key_store::distinct_ids;
use crate::secret_key_store::KeyEntry;
use crate::secret_key_store::StoreEntry;
use crate::types::CspSecretKey;
use crate::types::TaggedBytes;
use vstd::prelude::*;

verus! {

/// Number of bytes of an entry before the key itself.
pub const ENTRY_HEAD_LEN: usize = 41;

/// An entry, written as bytes.
pub open spec fn encode_entry(entry: KeyEntry) -> Seq<u8> {
    entry.id + seq![algorithm_number(entry.key.algorithm) as u8] + u64_bytes(
        entry.key.bytes.len() as u64,
    ) + entry.key.bytes
}

/// Entries, written one after the other.
pub open spec fn encode_entries(entries: Seq<KeyEntry>) -> Seq<u8>
    decreases entries.len(),
{
    if entries.len() == 0 {
        Seq::empty()
    } else {
        encode_entries(entries.drop_last()) + encode_entry(entries.last())
    }
}

/// A store, written as bytes.
pub open spec fn encode_store(entries: Seq<KeyEntry>) -> Seq<u8> {
    u64_bytes(entries.len() as u64) + encode_entries(entries)
}

/// Whether an entry can be written: its identifier has 32 bytes and the
/// length of its key fits in eight bytes.
pub open spec fn entry_fits(entry: KeyEntry) -> bool {
    entry.id.len() == 32 && entry.key.bytes.len() <= u64::MAX
}

/// Whether a store can be written.
pub open spec fn entries_fit(entries: Seq<KeyEntry>) -> bool {
    entries.len() <= u64::MAX && forall|i: int|
        0 <= i < entries.len() ==> entry_fits(#[trigger] entries[i])
}

/// The entry at the start of `bytes` and the number of bytes it takes, if an
/// entry stands there.
pub open spec fn decode_entry(bytes: Seq<u8>) -> Option<(KeyEntry, int)> {
    if bytes.len() < ENTRY_HEAD_LEN {
        None
    } else if bytes[32] >= ALGORITHM_COUNT {
        None
    } else {
        let len = u64_of_bytes(bytes.subrange(33, 41)) as int;
        if ENTRY_HEAD_LEN + len > bytes.len() {
            None
        } else {
            Some(
                (
                    KeyEntry {
                        id: bytes.subrange(0, 32),
                        key: TaggedBytes {
                            algorithm: algorithm_of_number(bytes[32] as int),
                            bytes: bytes.subrange(41, 41 + len),
                        },
                    },
                    ENTRY_HEAD_LEN + len,
                ),
            )
        }
    }
}

/// The `count` entries that `bytes` consist of, if they consist of just so
/// many.
pub open spec fn decode_entries(bytes: Seq<u8>, count: nat) -> Option<Seq<KeyEntry>>
    decreases count,
{
    if count == 0 {
        if bytes.len() == 0 {
            Some(Seq::empty())
        } else {
            None
        }
    } else {
        match decode_entry(bytes) {
            None => None,
            Some((entry, used)) => match decode_entries(bytes.skip(used), (count - 1) as nat) {
                None => None,
                Some(rest) => Some(seq![entry] + rest),
            },
        }
    }
}

/// The entries of the store that `bytes` are the written form of, if they
/// are the written form of a store: a count, just so many entries, nothing
/// after them, and no identifier twice.
pub open spec fn decode_store(bytes: Seq<u8>) -> Option<Seq<KeyEntry>> {
    if bytes.len() < 8 {
        None
    } else {
        match decode_entries(bytes.skip(8), u64_of_bytes(bytes.subrange(0, 8)) as nat) {
            None => None,
            Some(entries) => if distinct_ids(entries) {
                Some(entries)
            } else {
                None
            },
        }
    }
}

/// An entry that was written is read back, whatever follows it.
pub proof fn lemma_decode_entry_of_encode(entry: KeyEntry, rest: Seq<u8>)
    requires
        entry_fits(entry),
    ensures
        decode_entry(encode_entry(entry) + rest) == Some((entry, encode_entry(entry).len() as int)),
        (encode_entry(entry) + rest).skip(encode_entry(entry).len() as int) == rest,
{
    let written = encode_entry(entry) + rest;
    let len = entry.key.bytes.len() as u64;
    lemma_u64_bytes_round_trip(len);
    crate::algorithm::lemma_algorithm_number_round_trip(entry.key.algorithm);
    assert(written.subrange(0, 32) =~= entry.id);
    assert(written[32] == algorithm_number(entry.key.algorithm) as u8);
    assert(written.subrange(33, 41) =~= u64_bytes(len));
    assert(written.subrange(41, 41 + len as int) =~= entry.key.bytes);
    assert(written.skip(encode_entry(entry).len() as int) =~= rest);
}

/// Entries are written as the first of them followed by the others.
pub proof fn lemma_encode_entries_front(entries: Seq<KeyEntry>)
    requires
        entries.len() > 0,
    ensures
        encode_entries(entries) == encode_entry(entries[0]) + encode_entries(entries.drop_first()),
    decreases entries.len(),
{
    if entries.len() == 1 {
        assert(entries.drop_last() =~= Seq::<KeyEntry>::empty());
        assert(entries.drop_first() =~= Seq::<KeyEntry>::empty());
        assert(encode_entries(entries.drop_last()) =~= Seq::<u8>::empty());
        assert(encode_entries(entries) =~= encode_entry(entries[0]) + encode_entries(
            entries.drop_first(),
        ));
    } else {
        lemma_encode_entries_front(entries.drop_last());
        assert(entries.drop_last().drop_first() =~= entries.drop_first().drop_last());
        assert(entries.drop_last()[0] == entries[0]);
        assert(entries.drop_first().last() == entries.last());
        assert(encode_entries(entries) =~= encode_entry(entries[0]) + encode_entries(
            entries.drop_first(),
        ));
    }
}

/// Entries that were written are read back.
pub proof fn lemma_decode_entries_of_encode(entries: Seq<KeyEntry>)
    requires
        entries_fit(entries),
    ensures
        decode_entries(encode_entries(entries), entries.len()) == Some(entries),
    decreases entries.len(),
{
    if entries.len() > 0 {
        let first = entries[0];
        let others = entries.drop_first();
        lemma_encode_entries_front(entries);
        assert(entry_fits(first));
        lemma_decode_entry_of_encode(first, encode_entries(others));
        assert forall|i: int| 0 <= i < others.len() implies entry_fits(#[trigger] others[i]) by {
            assert(others[i] == entries[i + 1]);
        }
        lemma_decode_entries_of_encode(others);
        assert(seq![first] + others =~= entries);
    }
}

/// A store that was written is read back: the same entries in the same
/// order.
pub proof fn lemma_store_round_trip(entries: Seq<KeyEntry>)
    requires
        entries_fit(entries),
        distinct_ids(entries),
    ensures
        decode_store(encode_store(entries)) == Some(entries),
{
    let written = encode_store(entries);
    lemma_u64_bytes_round_trip(entries.len() as u64);
    lemma_decode_entries_of_encode(entries);
    assert(written.subrange(0, 8) =~= u64_bytes(entries.len() as u64));
    assert(written.skip(8) =~= encode_entries(entries));
}

/// A key that was put into a store is there when the store is opened again
/// from its file: under the same identifier, with the same algorithm and
/// the same bytes, and so is every key that was there before.
pub proof fn lemma_inserted_key_survives_reopening(entries: Seq<KeyEntry>, added: KeyEntry)
    requires
        entries_fit(entries),
        distinct_ids(entries),
        entry_fits(added),
        entries.len() < u64::MAX,
        !crate::secret_key_store::holds_id(entries, added.id),
    ensures
        decode_store(encode_store(entries.push(added))) == Some(entries.push(added)),
        crate::secret_key_store::keys_by_id(entries.push(added)) == crate::secret_key_store::keys_by_id(
            entries,
        ).insert(added.id, added.key),
{
    crate::secret_key_store::lemma_keys_by_id_push(entries, added);
    lemma_store_round_trip(entries.push(added));
}

/// Appends the written form of an entry to `out`.
pub fn write_entry(out: &mut Vec<u8>, entry: &StoreEntry)
    ensures
        final(out)@ == old(out)@ + encode_entry(entry@),
{
    push_bytes(out, entry.id.0.as_slice());
    out.push(entry.key.algorithm.as_u8());
    push_u64(out, entry.key.bytes.len() as u64);
    push_bytes(out, entry.key.bytes.as_slice());
    assert(out@ =~= old(out)@ + encode_entry(entry@));
}

/// Reads the entry that starts at `at`, and says where the next one starts.
pub fn read_entry(bytes: &[u8], at: usize) -> (read: Option<(StoreEntry, usize)>)
    requires
        at <= bytes@.len(),
    ensures
        match read {
            Some((entry, next)) => at < next <= bytes@.len() && decode_entry(bytes@.skip(at as int))
                == Some((entry@, next - at)),
            None => decode_entry(bytes@.skip(at as int)).is_none(),
        },
{
    let ghost tail = bytes@.skip(at as int);
    let left = bytes.len() - at;
    if left < ENTRY_HEAD_LEN {
        return None;
    }
    assert(tail[32] == bytes@[at + 32]);
    let algorithm = match AlgorithmId::from_u8(bytes[at + 32]) {
        Some(algorithm) => algorithm,
        None => {
            return None;
        },
    };
    let len = read_u64(bytes, at + 33);
    assert(bytes@.subrange(at + 33, at + 41) =~= tail.subrange(33, 41));
    if len > (left - ENTRY_HEAD_LEN) as u64 {
        return None;
    }
    let id = KeyId(read_32_bytes(bytes, at));
    assert(bytes@.subrange(at as int, at + 32) =~= tail.subrange(0, 32));
    let start = at + ENTRY_HEAD_LEN;
    let next = start + len as usize;
    let key_bytes = copy_range(bytes, start, next);
    assert(bytes@.subrange(start as int, next as int) =~= tail.subrange(41, 41 + len as int));
    Some((StoreEntry { id, key: CspSecretKey::new(algorithm, key_bytes) }, next))
}

} // verus!
