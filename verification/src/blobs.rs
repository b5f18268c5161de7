//! Byte strings written one after the other, each behind its length in
//! eight bytes: the form in which the files and frames of the node carry
//! their fields.

use crate::bytes::copy_range;
use crate::bytes::lemma_u64_bytes_round_trip;
use crate::bytes::push_bytes;
use crate::bytes::push_u64;
use crate::bytes::read_u64;
use crate::bytes::u64_bytes;
use crate::bytes::u64_of_bytes;
use vstd::prelude::*;

verus! {

/// A byte string behind its length.
pub open spec fn encode_blob(blob: Seq<u8>) -> Seq<u8> {
    u64_bytes(blob.len() as u64) + blob
}

/// Byte strings, each behind its length, one after the other.
pub open spec fn encode_blobs(blobs: Seq<Seq<u8>>) -> Seq<u8>
    decreases blobs.len(),
{
    if blobs.len() == 0 {
        Seq::empty()
    } else {
        encode_blobs(blobs.drop_last()) + encode_blob(blobs.last())
    }
}

/// The byte strings that `bytes` consist of, if they consist of byte
/// strings behind their lengths and nothing else.
pub open spec fn decode_blobs(bytes: Seq<u8>) -> Option<Seq<Seq<u8>>>
    decreases bytes.len(),
{
    if bytes.len() == 0 {
        Some(Seq::empty())
    } else if bytes.len() < 8 {
        None
    } else {
        let len = u64_of_bytes(bytes.subrange(0, 8)) as int;
        if 8 + len > bytes.len() {
            None
        } else {
            match decode_blobs(bytes.skip(8 + len)) {
                None => None,
                Some(rest) => Some(seq![bytes.subrange(8, 8 + len)] + rest),
            }
        }
    }
}

/// Whether the length of every byte string fits in eight bytes.
pub open spec fn blobs_fit(blobs: Seq<Seq<u8>>) -> bool {
    forall|i: int| 0 <= i < blobs.len() ==> (#[trigger] blobs[i]).len() <= u64::MAX
}

/// Byte strings are written as the first of them followed by the others.
pub proof fn lemma_encode_blobs_front(blobs: Seq<Seq<u8>>)
    requires
        blobs.len() > 0,
    ensures
        encode_blobs(blobs) == encode_blob(blobs[0]) + encode_blobs(blobs.drop_first()),
    decreases blobs.len(),
{
    if blobs.len() == 1 {
        assert(blobs.drop_last() =~= Seq::<Seq<u8>>::empty());
        assert(blobs.drop_first() =~= Seq::<Seq<u8>>::empty());
        assert(encode_blobs(blobs.drop_last()) =~= Seq::<u8>::empty());
        assert(encode_blobs(blobs) =~= encode_blob(blobs[0]) + encode_blobs(
            blobs.drop_first(),
        ));
    } else {
        lemma_encode_blobs_front(blobs.drop_last());
        assert(blobs.drop_last().drop_first() =~= blobs.drop_first().drop_last());
        assert(blobs.drop_last()[0] == blobs[0]);
        assert(blobs.drop_first().last() == blobs.last());
        assert(encode_blobs(blobs) =~= encode_blob(blobs[0]) + encode_blobs(
            blobs.drop_first(),
        ));
    }
}

/// Byte strings that were written are read back.
pub proof fn lemma_blobs_round_trip(blobs: Seq<Seq<u8>>)
    requires
        blobs_fit(blobs),
    ensures
        decode_blobs(encode_blobs(blobs)) == Some(blobs),
    decreases blobs.len(),
{
    if blobs.len() > 0 {
        let first = blobs[0];
        let others = blobs.drop_first();
        let written = encode_blobs(blobs);
        lemma_encode_blobs_front(blobs);
        lemma_u64_bytes_round_trip(first.len() as u64);
        assert(written.subrange(0, 8) =~= u64_bytes(first.len() as u64));
        assert(written.subrange(8, 8 + first.len() as int) =~= first);
        assert(written.skip(8 + first.len() as int) =~= encode_blobs(others));
        assert forall|i: int| 0 <= i < others.len() implies (#[trigger] others[i]).len()
            <= u64::MAX by {
            assert(others[i] == blobs[i + 1]);
        }
        lemma_blobs_round_trip(others);
        assert(seq![first] + others =~= blobs);
    }
}

/// The byte strings that vectors hold.
pub open spec fn blob_views(blobs: Seq<Vec<u8>>) -> Seq<Seq<u8>> {
    Seq::new(blobs.len(), |i: int| blobs[i]@)
}

/// Writes byte strings one after the other, each behind its length.
pub fn write_blobs(blobs: &Vec<Vec<u8>>) -> (bytes: Vec<u8>)
    ensures
        bytes@ == encode_blobs(blob_views(blobs@)),
        decode_blobs(bytes@) == Some(blob_views(blobs@)),
{
    let ghost all = blob_views(blobs@);
    let mut bytes: Vec<u8> = Vec::new();
    let mut i: usize = 0;
    assert(all.take(0) =~= Seq::<Seq<u8>>::empty());
    while i < blobs.len()
        invariant
            i <= blobs@.len(),
            all == blob_views(blobs@),
            bytes@ == encode_blobs(all.take(i as int)),
        decreases blobs@.len() - i,
    {
        let ghost before = bytes@;
        push_u64(&mut bytes, blobs[i].len() as u64);
        push_bytes(&mut bytes, blobs[i].as_slice());
        proof {
            let upto = all.take(i + 1);
            assert(upto.drop_last() =~= all.take(i as int));
            assert(upto.last() == blobs@[i as int]@);
            assert(bytes@ =~= before + encode_blob(upto.last()));
        }
        i = i + 1;
    }
    proof {
        assert(all.take(blobs@.len() as int) =~= all);
        assert forall|i: int| 0 <= i < all.len() implies (#[trigger] all[i]).len()
            <= u64::MAX by {
            assert(all[i] == blobs@[i]@);
            assert(blobs@[i]@.len() == blobs@[i].len());
        }
        lemma_blobs_round_trip(all);
    }
    bytes
}

/// Reads byte strings that stand one after the other, each behind its
/// length.
pub fn read_blobs(bytes: &[u8]) -> (blobs: Option<Vec<Vec<u8>>>)
    ensures
        match blobs {
            Some(blobs) => decode_blobs(bytes@) == Some(blob_views(blobs@)),
            None => decode_blobs(bytes@).is_none(),
        },
{
    let len = bytes.len();
    let mut blobs: Vec<Vec<u8>> = Vec::new();
    let mut at: usize = 0;
    assert(blob_views(blobs@) =~= Seq::<Seq<u8>>::empty());
    assert(bytes@.skip(0) =~= bytes@);
    assert(Seq::<Seq<u8>>::empty() + Seq::<Seq<u8>>::empty() =~= Seq::<Seq<u8>>::empty());
    while at < len
        invariant
            at <= len == bytes@.len(),
            decode_blobs(bytes@) == match decode_blobs(bytes@.skip(at as int)) {
                None => None,
                Some(rest) => Some(blob_views(blobs@) + rest),
            },
        decreases len - at,
    {
        let ghost tail = bytes@.skip(at as int);
        let ghost before = blob_views(blobs@);
        if len - at < 8 {
            return None;
        }
        let blob_len = read_u64(bytes, at);
        assert(bytes@.subrange(at as int, at + 8) =~= tail.subrange(0, 8));
        if blob_len > (len - at - 8) as u64 {
            return None;
        }
        let start = at + 8;
        let end = start + blob_len as usize;
        let blob = copy_range(bytes, start, end);
        proof {
            assert(blob@ =~= tail.subrange(8, 8 + blob_len as int));
            assert(tail.skip(8 + blob_len as int) =~= bytes@.skip(end as int));
            assert forall|rest: Seq<Seq<u8>>| before + (seq![blob@] + rest) == before.push(blob@)
                + rest by {
                assert(before + (seq![blob@] + rest) =~= before.push(blob@) + rest);
            }
        }
        blobs.push(blob);
        assert(blob_views(blobs@) =~= before.push(blob@));
        at = end;
    }
    assert(bytes@.skip(at as int) =~= Seq::<u8>::empty());
    assert(blob_views(blobs@) + Seq::<Seq<u8>>::empty() =~= blob_views(blobs@));
    Some(blobs)
}

} // verus!
