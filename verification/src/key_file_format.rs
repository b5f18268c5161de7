//! How the file of the node's own public keys is written and read back.
//!
//! The file is fifteen byte strings, each behind its length in eight bytes:
//! the version of the file; then, for each of the roles node signing and
//! committee signing, three byte strings; two for the certificate; and
//! three again for each of the two dealing encryption roles. The three
//! byte strings of a key are its head, its bytes and its proof data. The
//! head is empty where the role has no key; otherwise it has 26 bytes: the
//! version and the algorithm of the key in eight bytes each, one byte that
//! says whether there is proof data, one that says whether there is a
//! timestamp, and the timestamp in eight bytes. The two byte strings of the
//! certificate are a mark, empty where there is no certificate and the byte
//! 1 where there is one, and the certificate.

use crate::blobs::blob_views;
use crate::blobs::decode_blobs;
use crate::blobs::encode_blobs;
use crate::blobs::read_blobs;
use crate::blobs::write_blobs;
use crate::bytes::lemma_u64_bytes_round_trip;
use crate::bytes::push_u64;
use crate::bytes::read_u64;
use crate::bytes::u64_bytes;
use crate::bytes::u64_of_bytes;
use crate::node_public_keys::certificate_view;
use crate::node_public_keys::entry_view;
use crate::node_public_keys::NodePublicKeys;
use crate::node_public_keys::NodePublicKeysView;
use crate::node_public_keys::PublicKey;
use crate::node_public_keys::PublicKeyView;
use crate::node_public_keys::X509PublicKeyCert;
use vstd::prelude::*;

verus! {

/// Number of bytes in the head of a key.
pub const KEY_HEAD_LEN: usize = 26;

/// Number of byte strings in a key file.
pub const KEY_FILE_BLOBS: usize = 15;

/// What a key file holds, as contracts see it.
pub struct KeyFileView {
    pub version: u32,
    pub keys: NodePublicKeysView,
}

/// The number that an algorithm number is written as: never negative.
pub open spec fn algorithm_code(algorithm: i32) -> u64 {
    (algorithm + 0x8000_0000) as u64
}

/// The algorithm number that is written as `code`.
pub open spec fn algorithm_of_code(code: u64) -> i32 {
    (code - 0x8000_0000) as i32
}

/// The byte that says whether something is there.
pub open spec fn mark(there: bool) -> u8 {
    if there {
        1
    } else {
        0
    }
}

/// What is there, or zero.
pub open spec fn timestamp_or_zero(timestamp: Option<u64>) -> u64 {
    match timestamp {
        Some(timestamp) => timestamp,
        None => 0,
    }
}

/// What is there, or nothing.
pub open spec fn bytes_or_none(bytes: Option<Seq<u8>>) -> Seq<u8> {
    match bytes {
        Some(bytes) => bytes,
        None => Seq::empty(),
    }
}

/// The head of a key.
pub open spec fn key_head(entry: PublicKeyView) -> Seq<u8> {
    u64_bytes(entry.version as u64) + u64_bytes(algorithm_code(entry.algorithm)) + seq![
        mark(entry.proof_data.is_some()),
        mark(entry.timestamp.is_some()),
    ] + u64_bytes(timestamp_or_zero(entry.timestamp))
}

/// The three byte strings of a role.
pub open spec fn key_blobs(entry: Option<PublicKeyView>) -> Seq<Seq<u8>> {
    match entry {
        None => seq![Seq::empty(), Seq::empty(), Seq::empty()],
        Some(entry) => seq![key_head(entry), entry.key_value, bytes_or_none(entry.proof_data)],
    }
}

/// The key of a role, or that it has none, from its three byte strings, if
/// they are those of a role.
pub open spec fn blobs_key(head: Seq<u8>, key_value: Seq<u8>, proof_data: Seq<u8>) -> Option<
    Option<PublicKeyView>,
> {
    if head.len() == 0 {
        Some(None)
    } else if head.len() != KEY_HEAD_LEN {
        None
    } else {
        let version = u64_of_bytes(head.subrange(0, 8));
        let code = u64_of_bytes(head.subrange(8, 16));
        let timestamp = u64_of_bytes(head.subrange(18, 26));
        if version > u32::MAX || code > 0xffff_ffff || head[16] > 1 || head[17] > 1 {
            None
        } else {
            Some(
                Some(
                    PublicKeyView {
                        version: version as u32,
                        algorithm: algorithm_of_code(code),
                        key_value,
                        proof_data: if head[16] == 1 {
                            Some(proof_data)
                        } else {
                            None
                        },
                        timestamp: if head[17] == 1 {
                            Some(timestamp)
                        } else {
                            None
                        },
                    },
                ),
            )
        }
    }
}

/// The two byte strings of the certificate.
pub open spec fn certificate_blobs(certificate: Option<Seq<u8>>) -> Seq<Seq<u8>> {
    match certificate {
        None => seq![Seq::empty(), Seq::empty()],
        Some(der) => seq![seq![1u8], der],
    }
}

/// The certificate, or that there is none, from its two byte strings, if
/// they are those of a certificate.
pub open spec fn blobs_certificate(there: Seq<u8>, der: Seq<u8>) -> Option<Option<Seq<u8>>> {
    if there.len() == 0 {
        Some(None)
    } else if there.len() == 1 && there[0] == 1 {
        Some(Some(der))
    } else {
        None
    }
}

/// The fifteen byte strings of a key file.
pub open spec fn key_file_blobs(file: KeyFileView) -> Seq<Seq<u8>> {
    seq![u64_bytes(file.version as u64)] + key_blobs(file.keys.node_signing) + key_blobs(
        file.keys.committee_signing,
    ) + certificate_blobs(file.keys.tls_certificate) + key_blobs(file.keys.dkg_dealing_encryption)
        + key_blobs(file.keys.idkg_dealing_encryption)
}

/// What a key file holds, from its byte strings, if they are those of a key
/// file.
pub open spec fn blobs_key_file(blobs: Seq<Seq<u8>>) -> Option<KeyFileView> {
    if blobs.len() != KEY_FILE_BLOBS || blobs[0].len() != 8 || u64_of_bytes(blobs[0]) > u32::MAX {
        None
    } else {
        match (
            blobs_key(blobs[1], blobs[2], blobs[3]),
            blobs_key(blobs[4], blobs[5], blobs[6]),
            blobs_certificate(blobs[7], blobs[8]),
            blobs_key(blobs[9], blobs[10], blobs[11]),
            blobs_key(blobs[12], blobs[13], blobs[14]),
        ) {
            (
                Some(node_signing),
                Some(committee_signing),
                Some(tls_certificate),
                Some(dkg_dealing_encryption),
                Some(idkg_dealing_encryption),
            ) => Some(
                KeyFileView {
                    version: u64_of_bytes(blobs[0]) as u32,
                    keys: NodePublicKeysView {
                        node_signing,
                        committee_signing,
                        tls_certificate,
                        dkg_dealing_encryption,
                        idkg_dealing_encryption,
                    },
                },
            ),
            _ => None,
        }
    }
}

/// A key file, written as bytes.
pub open spec fn encode_key_file(file: KeyFileView) -> Seq<u8> {
    encode_blobs(key_file_blobs(file))
}

/// What the key file holds that bytes are the written form of, if they are
/// the written form of one.
pub open spec fn decode_key_file(bytes: Seq<u8>) -> Option<KeyFileView> {
    match decode_blobs(bytes) {
        Some(blobs) => blobs_key_file(blobs),
        None => None,
    }
}

/// The three byte strings of a role give back the role's key, or that it
/// has none.
pub proof fn lemma_key_blobs_round_trip(entry: Option<PublicKeyView>)
    ensures
        key_blobs(entry).len() == 3,
        blobs_key(key_blobs(entry)[0], key_blobs(entry)[1], key_blobs(entry)[2]) == Some(entry),
{
    match entry {
        None => {},
        Some(entry) => {
            let head = key_head(entry);
            lemma_u64_bytes_round_trip(entry.version as u64);
            lemma_u64_bytes_round_trip(algorithm_code(entry.algorithm));
            lemma_u64_bytes_round_trip(timestamp_or_zero(entry.timestamp));
            assert(head.len() == 26);
            assert(head.subrange(0, 8) =~= u64_bytes(entry.version as u64));
            assert(head.subrange(8, 16) =~= u64_bytes(algorithm_code(entry.algorithm)));
            assert(head.subrange(18, 26) =~= u64_bytes(timestamp_or_zero(entry.timestamp)));
            assert(head[16] == mark(entry.proof_data.is_some()));
            assert(head[17] == mark(entry.timestamp.is_some()));
        },
    }
}

/// The byte strings of a key file give back what the file holds.
pub proof fn lemma_key_file_blobs_round_trip(file: KeyFileView)
    ensures
        blobs_key_file(key_file_blobs(file)) == Some(file),
{
    let blobs = key_file_blobs(file);
    lemma_u64_bytes_round_trip(file.version as u64);
    lemma_key_blobs_round_trip(file.keys.node_signing);
    lemma_key_blobs_round_trip(file.keys.committee_signing);
    lemma_key_blobs_round_trip(file.keys.dkg_dealing_encryption);
    lemma_key_blobs_round_trip(file.keys.idkg_dealing_encryption);
    assert(blobs.len() == 15);
    assert(blobs[0] == u64_bytes(file.version as u64));
    assert(blobs[1] == key_blobs(file.keys.node_signing)[0]);
    assert(blobs[2] == key_blobs(file.keys.node_signing)[1]);
    assert(blobs[3] == key_blobs(file.keys.node_signing)[2]);
    assert(blobs[4] == key_blobs(file.keys.committee_signing)[0]);
    assert(blobs[5] == key_blobs(file.keys.committee_signing)[1]);
    assert(blobs[6] == key_blobs(file.keys.committee_signing)[2]);
    assert(blobs[7] == certificate_blobs(file.keys.tls_certificate)[0]);
    assert(blobs[8] == certificate_blobs(file.keys.tls_certificate)[1]);
    assert(blobs[9] == key_blobs(file.keys.dkg_dealing_encryption)[0]);
    assert(blobs[10] == key_blobs(file.keys.dkg_dealing_encryption)[1]);
    assert(blobs[11] == key_blobs(file.keys.dkg_dealing_encryption)[2]);
    assert(blobs[12] == key_blobs(file.keys.idkg_dealing_encryption)[0]);
    assert(blobs[13] == key_blobs(file.keys.idkg_dealing_encryption)[1]);
    assert(blobs[14] == key_blobs(file.keys.idkg_dealing_encryption)[2]);
}

/// A key file that was written is read back, where the length of each of
/// its byte strings fits in eight bytes.
pub proof fn lemma_key_file_round_trip(file: KeyFileView)
    requires
        crate::blobs::blobs_fit(key_file_blobs(file)),
    ensures
        decode_key_file(encode_key_file(file)) == Some(file),
{
    crate::blobs::lemma_blobs_round_trip(key_file_blobs(file));
    lemma_key_file_blobs_round_trip(file);
}

fn push_key_blobs(blobs: &mut Vec<Vec<u8>>, entry: &Option<PublicKey>)
    ensures
        blob_views(final(blobs)@) == blob_views(old(blobs)@) + key_blobs(entry_view(*entry)),
{
    match entry {
        None => {
            blobs.push(Vec::new());
            blobs.push(Vec::new());
            blobs.push(Vec::new());
        },
        Some(entry) => {
            let mut head: Vec<u8> = Vec::new();
            push_u64(&mut head, entry.version as u64);
            push_u64(&mut head, (entry.algorithm as i64 + 0x8000_0000) as u64);
            head.push(if entry.proof_data.is_some() { 1 } else { 0 });
            head.push(if entry.timestamp.is_some() { 1 } else { 0 });
            push_u64(
                &mut head,
                match entry.timestamp {
                    Some(timestamp) => timestamp,
                    None => 0,
                },
            );
            assert(head@ =~= key_head(entry@));
            blobs.push(head);
            blobs.push(entry.key_value.clone());
            blobs.push(
                match &entry.proof_data {
                    Some(proof_data) => proof_data.clone(),
                    None => Vec::new(),
                },
            );
        },
    }
    assert(blob_views(blobs@) =~= blob_views(old(blobs)@) + key_blobs(entry_view(*entry)));
}

fn read_key(head: &Vec<u8>, key_value: &Vec<u8>, proof_data: &Vec<u8>) -> (read: Option<
    Option<PublicKey>,
>)
    ensures
        match read {
            Some(entry) => blobs_key(head@, key_value@, proof_data@) == Some(entry_view(entry)),
            None => blobs_key(head@, key_value@, proof_data@).is_none(),
        },
{
    if head.len() == 0 {
        return Some(None);
    }
    if head.len() != KEY_HEAD_LEN {
        return None;
    }
    let version = read_u64(head.as_slice(), 0);
    let code = read_u64(head.as_slice(), 8);
    let timestamp = read_u64(head.as_slice(), 18);
    if version > 0xffff_ffff || code > 0xffff_ffff || head[16] > 1 || head[17] > 1 {
        return None;
    }
    Some(
        Some(
            PublicKey {
                version: version as u32,
                algorithm: (code as i64 - 0x8000_0000) as i32,
                key_value: key_value.clone(),
                proof_data: if head[16] == 1 {
                    Some(proof_data.clone())
                } else {
                    None
                },
                timestamp: if head[17] == 1 {
                    Some(timestamp)
                } else {
                    None
                },
            },
        ),
    )
}

impl NodePublicKeys {
    /// What the key file of these keys holds, as contracts see it.
    pub open spec fn file_view(&self) -> KeyFileView {
        KeyFileView { version: self.version, keys: self@ }
    }

    /// The written form of the keys: what the key file holds.
    pub fn to_bytes(&self) -> (bytes: Vec<u8>)
        ensures
            bytes@ == encode_key_file(self.file_view()),
            decode_key_file(bytes@) == Some(self.file_view()),
    {
        let mut blobs: Vec<Vec<u8>> = Vec::new();
        let mut version: Vec<u8> = Vec::new();
        push_u64(&mut version, self.version as u64);
        blobs.push(version);
        assert(blob_views(blobs@) =~= seq![u64_bytes(self.version as u64)]);
        push_key_blobs(&mut blobs, &self.node_signing_pk);
        push_key_blobs(&mut blobs, &self.committee_signing_pk);
        let ghost before = blob_views(blobs@);
        match &self.tls_certificate {
            None => {
                blobs.push(Vec::new());
                blobs.push(Vec::new());
            },
            Some(certificate) => {
                let mut there: Vec<u8> = Vec::new();
                there.push(1);
                blobs.push(there);
                blobs.push(certificate.certificate_der.clone());
            },
        }
        assert(blob_views(blobs@) =~= before + certificate_blobs(
            certificate_view(self.tls_certificate),
        ));
        push_key_blobs(&mut blobs, &self.dkg_dealing_encryption_pk);
        push_key_blobs(&mut blobs, &self.idkg_dealing_encryption_pk);
        proof {
            lemma_key_file_blobs_round_trip(self.file_view());
        }
        write_blobs(&blobs)
    }

    /// Reads the keys from what the key file holds. Bytes that are not the
    /// written form of a key file are refused.
    pub fn from_bytes(bytes: &[u8]) -> (keys: Option<NodePublicKeys>)
        ensures
            match keys {
                Some(keys) => decode_key_file(bytes@) == Some(keys.file_view()),
                None => decode_key_file(bytes@).is_none(),
            },
    {
        let blobs = match read_blobs(bytes) {
            Some(blobs) => blobs,
            None => {
                return None;
            },
        };
        let ghost views = blob_views(blobs@);
        if blobs.len() != KEY_FILE_BLOBS || blobs[0].len() != 8 {
            return None;
        }
        assert forall|i: int| 0 <= i < 15 implies views[i] == blobs@[i]@ by {}
        let version = read_u64(blobs[0].as_slice(), 0);
        assert(blobs@[0]@.subrange(0, 8) =~= blobs@[0]@);
        if version > 0xffff_ffff {
            return None;
        }
        let node_signing_pk = match read_key(&blobs[1], &blobs[2], &blobs[3]) {
            Some(entry) => entry,
            None => {
                return None;
            },
        };
        let committee_signing_pk = match read_key(&blobs[4], &blobs[5], &blobs[6]) {
            Some(entry) => entry,
            None => {
                return None;
            },
        };
        let tls_certificate = if blobs[7].len() == 0 {
            None
        } else if blobs[7].len() == 1 && blobs[7][0] == 1 {
            Some(X509PublicKeyCert { certificate_der: blobs[8].clone() })
        } else {
            return None;
        };
        let dkg_dealing_encryption_pk = match read_key(&blobs[9], &blobs[10], &blobs[11]) {
            Some(entry) => entry,
            None => {
                return None;
            },
        };
        let idkg_dealing_encryption_pk = match read_key(&blobs[12], &blobs[13], &blobs[14]) {
            Some(entry) => entry,
            None => {
                return None;
            },
        };
        Some(
            NodePublicKeys {
                version: version as u32,
                node_signing_pk,
                committee_signing_pk,
                tls_certificate,
                dkg_dealing_encryption_pk,
                idkg_dealing_encryption_pk,
            },
        )
    }
}

} // verus!
