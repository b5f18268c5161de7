//! The identifier under which a secret key is stored and asked for.

use crate::algorithm::algorithm_number;
use crate::algorithm::AlgorithmId;
use crate::bytes::push_bytes;
use crate::bytes::push_u64;
use crate::bytes::u64_bytes;
use crate::sha256::sha256;
use crate::sha256::sha256_digest;
use crate::types::CspPublicKey;
use crate::types::TaggedBytes;
use vstd::prelude::*;
use vstd::string::StringSliceAdditionalSpecFns;

verus! {

/// Number of bytes in a key identifier.
pub const KEY_ID_LEN: usize = 32;

/// The text that every hashed key identifier starts from.
pub const KEY_ID_DOMAIN: &'static str = "ic-key-id";

/// The identifier of a key: 32 bytes.
#[derive(Clone, Copy, Debug, PartialEq, Eq, Hash, PartialOrd, Ord)]
pub struct KeyId(pub [u8; 32]);

impl View for KeyId {
    type V = Seq<u8>;

    open spec fn view(&self) -> Seq<u8> {
        self.0@
    }
}

/// The bytes that are hashed to identify a key: the length of the domain
/// text as one byte, the domain text, the number of the algorithm as one
/// byte, the length of the key as eight bytes, and the key.
pub open spec fn key_id_preimage(algorithm: AlgorithmId, key_bytes: Seq<u8>) -> Seq<u8> {
    seq![KEY_ID_DOMAIN.spec_bytes().len() as u8] + KEY_ID_DOMAIN.spec_bytes() + seq![
        algorithm_number(algorithm) as u8,
    ] + u64_bytes(key_bytes.len() as u64) + key_bytes
}

/// The identifier of a key of the given algorithm with the given bytes.
pub open spec fn key_id_of_bytes(algorithm: AlgorithmId, key_bytes: Seq<u8>) -> Seq<u8> {
    sha256_digest(key_id_preimage(algorithm, key_bytes))
}

/// The identifier of a public key.
pub open spec fn key_id_of(public_key: TaggedBytes) -> Seq<u8> {
    key_id_of_bytes(public_key.algorithm, public_key.bytes)
}

/// The identifier of a key of the given algorithm with the given bytes.
pub fn bytes_hash_as_key_id(algorithm: AlgorithmId, key_bytes: &[u8]) -> (id: KeyId)
    ensures
        id@ == key_id_of_bytes(algorithm, key_bytes@),
{
    let domain = KEY_ID_DOMAIN.as_bytes();
    proof {
        reveal_strlit("ic-key-id");
        vstd::string::is_ascii_spec_bytes(KEY_ID_DOMAIN);
        assert(KEY_ID_DOMAIN@.len() == 9);
        assert(KEY_ID_DOMAIN.spec_bytes().len() == 9);
    }
    let mut preimage: Vec<u8> = Vec::new();
    preimage.push(domain.len() as u8);
    push_bytes(&mut preimage, domain);
    preimage.push(algorithm.as_u8());
    push_u64(&mut preimage, key_bytes.len() as u64);
    push_bytes(&mut preimage, key_bytes);
    assert(preimage@ =~= key_id_preimage(algorithm, key_bytes@));
    KeyId(sha256(preimage.as_slice()))
}

impl KeyId {
    /// The 32 bytes of this identifier.
    pub fn get(&self) -> (bytes: [u8; 32])
        ensures
            bytes@ == self@,
    {
        self.0
    }

    /// Whether two identifiers are the same.
    pub fn same_as(&self, other: &KeyId) -> (same: bool)
        ensures
            same == (self@ == other@),
    {
        crate::bytes::same_bytes(self.0.as_slice(), other.0.as_slice())
    }
}

impl From<[u8; 32]> for KeyId {
    fn from(bytes: [u8; 32]) -> (id: KeyId) {
        KeyId(bytes)
    }
}

impl vstd::std_specs::convert::FromSpecImpl<[u8; 32]> for KeyId {
    open spec fn obeys_from_spec() -> bool {
        true
    }

    open spec fn from_spec(bytes: [u8; 32]) -> KeyId {
        KeyId(bytes)
    }
}

impl<'a> From<&'a CspPublicKey> for KeyId {
    /// The identifier of a public key: the hash of its algorithm and bytes.
    fn from(public_key: &'a CspPublicKey) -> (id: KeyId)
        ensures
            id@ == key_id_of(public_key@),
    {
        bytes_hash_as_key_id(public_key.algorithm_id(), public_key.pk_bytes())
    }
}

impl<'a> vstd::std_specs::convert::FromSpecImpl<&'a CspPublicKey> for KeyId {
    open spec fn obeys_from_spec() -> bool {
        false
    }

    open spec fn from_spec(public_key: &'a CspPublicKey) -> KeyId {
        arbitrary()
    }
}

/// The identifier of a public key.
pub fn public_key_hash_as_key_id(public_key: &CspPublicKey) -> (id: KeyId)
    ensures
        id@ == key_id_of(public_key@),
{
    bytes_hash_as_key_id(public_key.algorithm_id(), public_key.pk_bytes())
}

/// One public key has one identifier: public keys with the same algorithm
/// and the same bytes are identified by the same 32 bytes, whoever computes
/// them and when.
pub proof fn lemma_key_id_stable(a: CspPublicKey, b: CspPublicKey)
    requires
        a@ == b@,
    ensures
        key_id_of(a@) == key_id_of(b@),
{
}

/// What is hashed tells keys apart: two keys are hashed from the same bytes
/// only if they have the same algorithm and the same bytes.
pub proof fn lemma_key_id_preimage_injective(
    a: AlgorithmId,
    a_bytes: Seq<u8>,
    b: AlgorithmId,
    b_bytes: Seq<u8>,
)
    requires
        a_bytes.len() <= u64::MAX,
        b_bytes.len() <= u64::MAX,
        key_id_preimage(a, a_bytes) == key_id_preimage(b, b_bytes),
    ensures
        a == b,
        a_bytes == b_bytes,
{
    let head = seq![KEY_ID_DOMAIN.spec_bytes().len() as u8] + KEY_ID_DOMAIN.spec_bytes();
    let n = head.len() as int;
    let pa = key_id_preimage(a, a_bytes);
    let pb = key_id_preimage(b, b_bytes);
    crate::bytes::lemma_u64_bytes_round_trip(a_bytes.len() as u64);
    crate::bytes::lemma_u64_bytes_round_trip(b_bytes.len() as u64);
    assert(pa[n] == algorithm_number(a) as u8);
    assert(pb[n] == algorithm_number(b) as u8);
    crate::algorithm::lemma_algorithm_number_injective(a, b);
    assert(pa.subrange(n + 1, n + 9) =~= u64_bytes(a_bytes.len() as u64));
    assert(pb.subrange(n + 1, n + 9) =~= u64_bytes(b_bytes.len() as u64));
    assert(a_bytes.len() == b_bytes.len());
    assert(pa.subrange(n + 9, pa.len() as int) =~= a_bytes);
    assert(pb.subrange(n + 9, pb.len() as int) =~= b_bytes);
}

} // verus!
