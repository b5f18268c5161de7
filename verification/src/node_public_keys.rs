//! The public keys of the node itself, as its key file holds them.

use crate::algorithm::algorithm_of_number;
use crate::algorithm::AlgorithmId;
use crate::bytes::read_block;
use crate::key_id::bytes_hash_as_key_id;
use crate::key_id::key_id_of_bytes;
use crate::key_id::KeyId;
use crate::types::CspPublicKey;
use crate::types::TaggedBytes;
use vstd::prelude::*;

verus! {

/// A public key as the key file holds it: the number of its algorithm and
/// its bytes, neither of them checked.
#[derive(Clone, Debug, PartialEq, Eq)]
pub struct PublicKey {
    pub version: u32,
    pub algorithm: i32,
    pub key_value: Vec<u8>,
    pub proof_data: Option<Vec<u8>>,
    pub timestamp: Option<u64>,
}

/// An entry of the key file, as contracts see it.
pub struct PublicKeyView {
    pub version: u32,
    pub algorithm: i32,
    pub key_value: Seq<u8>,
    pub proof_data: Option<Seq<u8>>,
    pub timestamp: Option<u64>,
}

impl View for PublicKey {
    type V = PublicKeyView;

    open spec fn view(&self) -> PublicKeyView {
        PublicKeyView {
            version: self.version,
            algorithm: self.algorithm,
            key_value: self.key_value@,
            proof_data: match self.proof_data {
                Some(data) => Some(data@),
                None => None,
            },
            timestamp: self.timestamp,
        }
    }
}

impl PublicKey {
    /// A copy of this entry.
    pub fn duplicate(&self) -> (copy: PublicKey)
        ensures
            copy@ == self@,
    {
        PublicKey {
            version: self.version,
            algorithm: self.algorithm,
            key_value: self.key_value.clone(),
            proof_data: match &self.proof_data {
                Some(data) => Some(data.clone()),
                None => None,
            },
            timestamp: self.timestamp,
        }
    }
}

/// The view of an entry, where there is one.
pub open spec fn entry_view(entry: Option<PublicKey>) -> Option<PublicKeyView> {
    match entry {
        Some(entry) => Some(entry@),
        None => None,
    }
}

/// The view of a certificate, where there is one.
pub open spec fn certificate_view(certificate: Option<X509PublicKeyCert>) -> Option<Seq<u8>> {
    match certificate {
        Some(certificate) => Some(certificate@),
        None => None,
    }
}

fn duplicate_entry(entry: &Option<PublicKey>) -> (copy: Option<PublicKey>)
    ensures
        entry_view(copy) == entry_view(*entry),
{
    match entry {
        Some(entry) => Some(entry.duplicate()),
        None => None,
    }
}

/// A TLS certificate as the key file holds it.
#[derive(Clone, Debug, PartialEq, Eq)]
pub struct X509PublicKeyCert {
    pub certificate_der: Vec<u8>,
}

impl View for X509PublicKeyCert {
    type V = Seq<u8>;

    open spec fn view(&self) -> Seq<u8> {
        self.certificate_der@
    }
}

/// The public keys of a node by role, as contracts see them.
pub struct NodePublicKeysView {
    pub node_signing: Option<PublicKeyView>,
    pub committee_signing: Option<PublicKeyView>,
    pub tls_certificate: Option<Seq<u8>>,
    pub dkg_dealing_encryption: Option<PublicKeyView>,
    pub idkg_dealing_encryption: Option<PublicKeyView>,
}

/// What the key file of a node holds: one entry, or none, for each of the
/// five roles.
#[derive(Clone, Debug, PartialEq, Eq)]
pub struct NodePublicKeys {
    pub version: u32,
    pub node_signing_pk: Option<PublicKey>,
    pub committee_signing_pk: Option<PublicKey>,
    pub tls_certificate: Option<X509PublicKeyCert>,
    pub dkg_dealing_encryption_pk: Option<PublicKey>,
    pub idkg_dealing_encryption_pk: Option<PublicKey>,
}

impl View for NodePublicKeys {
    type V = NodePublicKeysView;

    open spec fn view(&self) -> NodePublicKeysView {
        NodePublicKeysView {
            node_signing: entry_view(self.node_signing_pk),
            committee_signing: entry_view(self.committee_signing_pk),
            tls_certificate: certificate_view(self.tls_certificate),
            dkg_dealing_encryption: entry_view(self.dkg_dealing_encryption_pk),
            idkg_dealing_encryption: entry_view(self.idkg_dealing_encryption_pk),
        }
    }
}

impl NodePublicKeys {
    /// The keys by role, as the node has them at present.
    pub fn current(&self) -> (current: CurrentNodePublicKeys)
        ensures
            current@ == self@,
    {
        CurrentNodePublicKeys {
            node_signing_public_key: duplicate_entry(&self.node_signing_pk),
            committee_signing_public_key: duplicate_entry(&self.committee_signing_pk),
            tls_certificate: match &self.tls_certificate {
                Some(certificate) => Some(
                    X509PublicKeyCert { certificate_der: certificate.certificate_der.clone() },
                ),
                None => None,
            },
            dkg_dealing_encryption_public_key: duplicate_entry(&self.dkg_dealing_encryption_pk),
            idkg_dealing_encryption_public_key: duplicate_entry(&self.idkg_dealing_encryption_pk),
        }
    }
}

impl Default for NodePublicKeys {
    /// What a node without a key file has: no entry for any role.
    fn default() -> (keys: NodePublicKeys)
        ensures
            keys.version == 0,
            keys.node_signing_pk.is_none(),
            keys.committee_signing_pk.is_none(),
            keys.tls_certificate.is_none(),
            keys.dkg_dealing_encryption_pk.is_none(),
            keys.idkg_dealing_encryption_pk.is_none(),
    {
        NodePublicKeys {
            version: 0,
            node_signing_pk: None,
            committee_signing_pk: None,
            tls_certificate: None,
            dkg_dealing_encryption_pk: None,
            idkg_dealing_encryption_pk: None,
        }
    }
}

/// The public keys that the node has at present, by role.
#[derive(Clone, Debug, PartialEq, Eq)]
pub struct CurrentNodePublicKeys {
    pub node_signing_public_key: Option<PublicKey>,
    pub committee_signing_public_key: Option<PublicKey>,
    pub tls_certificate: Option<X509PublicKeyCert>,
    pub dkg_dealing_encryption_public_key: Option<PublicKey>,
    pub idkg_dealing_encryption_public_key: Option<PublicKey>,
}

impl View for CurrentNodePublicKeys {
    type V = NodePublicKeysView;

    open spec fn view(&self) -> NodePublicKeysView {
        NodePublicKeysView {
            node_signing: entry_view(self.node_signing_public_key),
            committee_signing: entry_view(self.committee_signing_public_key),
            tls_certificate: certificate_view(self.tls_certificate),
            dkg_dealing_encryption: entry_view(self.dkg_dealing_encryption_public_key),
            idkg_dealing_encryption: entry_view(self.idkg_dealing_encryption_public_key),
        }
    }
}

/// One where there is an entry, zero where there is none.
pub open spec fn one_if_some<T>(entry: Option<T>) -> int {
    if entry.is_some() {
        1
    } else {
        0
    }
}

impl CurrentNodePublicKeys {
    /// The number of roles that have an entry.
    pub open spec fn count(&self) -> int {
        one_if_some(self.node_signing_public_key) + one_if_some(self.committee_signing_public_key)
            + one_if_some(self.tls_certificate) + one_if_some(
            self.dkg_dealing_encryption_public_key,
        ) + one_if_some(self.idkg_dealing_encryption_public_key)
    }

    /// The number of public keys and certificates present.
    pub fn get_pub_keys_and_cert_count(&self) -> (count: u8)
        ensures
            count == self.count(),
    {
        let mut count: u8 = 0;
        if self.node_signing_public_key.is_some() {
            count = count + 1;
        }
        if self.committee_signing_public_key.is_some() {
            count = count + 1;
        }
        if self.tls_certificate.is_some() {
            count = count + 1;
        }
        if self.dkg_dealing_encryption_public_key.is_some() {
            count = count + 1;
        }
        if self.idkg_dealing_encryption_public_key.is_some() {
            count = count + 1;
        }
        count
    }
}

/// Why an entry of the key file is no key of the role it stands for.
#[derive(Clone, Copy, Debug, PartialEq, Eq, Structural)]
pub enum PublicKeyDecodeError {
    /// The role has no keys of the entry's algorithm.
    UnsupportedAlgorithm { algorithm: AlgorithmId },
    /// Keys of the entry's algorithm have another length.
    MalformedPublicKey { algorithm: AlgorithmId, key_length: usize },
}

/// Number of bytes in a key for encrypting dealings of the non-interactive
/// key generation.
pub const FS_ENCRYPTION_PUBLIC_KEY_LEN: usize = 48;

/// Number of bytes in a key for encrypting dealings of the interactive key
/// generation.
pub const MEGA_PUBLIC_KEY_LEN: usize = 33;

/// The algorithm that an entry declares.
pub open spec fn declared_algorithm(entry: PublicKeyView) -> AlgorithmId {
    algorithm_of_number(entry.algorithm as int)
}

/// What an entry decodes to under the one algorithm `algorithm`, whose keys
/// have `len` bytes.
pub open spec fn decode_under(entry: PublicKeyView, algorithm: AlgorithmId, len: usize) -> Result<
    TaggedBytes,
    PublicKeyDecodeError,
> {
    if declared_algorithm(entry) != algorithm {
        Err(PublicKeyDecodeError::UnsupportedAlgorithm { algorithm: declared_algorithm(entry) })
    } else if entry.key_value.len() != len {
        Err(
            PublicKeyDecodeError::MalformedPublicKey {
                algorithm,
                key_length: entry.key_value.len() as usize,
            },
        )
    } else {
        Ok(TaggedBytes { algorithm, bytes: entry.key_value })
    }
}

/// What an entry decodes to as a signing key: an Ed25519 key of 32 bytes or
/// a MultiBls12_381 key of 96 bytes.
pub open spec fn decode_signing_key(entry: PublicKeyView) -> Result<
    TaggedBytes,
    PublicKeyDecodeError,
> {
    if declared_algorithm(entry) == AlgorithmId::Ed25519 {
        decode_under(entry, AlgorithmId::Ed25519, 32)
    } else if declared_algorithm(entry) == AlgorithmId::MultiBls12_381 {
        decode_under(entry, AlgorithmId::MultiBls12_381, 96)
    } else {
        Err(PublicKeyDecodeError::UnsupportedAlgorithm { algorithm: declared_algorithm(entry) })
    }
}

/// What an entry decodes to as a key for encrypting dealings of the
/// non-interactive key generation.
pub open spec fn decode_fs_encryption_key(entry: PublicKeyView) -> Result<
    TaggedBytes,
    PublicKeyDecodeError,
> {
    decode_under(entry, AlgorithmId::Groth20_Bls12_381, FS_ENCRYPTION_PUBLIC_KEY_LEN)
}

/// What an entry decodes to as a key for encrypting dealings of the
/// interactive key generation.
pub open spec fn decode_mega_key(entry: PublicKeyView) -> Result<
    TaggedBytes,
    PublicKeyDecodeError,
> {
    decode_under(entry, AlgorithmId::MegaSecp256k1, MEGA_PUBLIC_KEY_LEN)
}

/// The view of a result whose error is a plain value.
pub open spec fn result_view_ok<T: View, E>(result: Result<T, E>) -> Result<T::V, E> {
    match result {
        Ok(value) => Ok(value@),
        Err(error) => Err(error),
    }
}

/// A key for encrypting dealings of the non-interactive key generation.
#[allow(non_camel_case_types)]
#[derive(Clone, Copy, Debug, PartialEq, Eq, Hash)]
pub enum CspFsEncryptionPublicKey {
    Groth20_Bls12_381([u8; 48]),
}

impl View for CspFsEncryptionPublicKey {
    type V = TaggedBytes;

    open spec fn view(&self) -> TaggedBytes {
        match self {
            CspFsEncryptionPublicKey::Groth20_Bls12_381(bytes) => TaggedBytes {
                algorithm: AlgorithmId::Groth20_Bls12_381,
                bytes: bytes@,
            },
        }
    }
}

/// A key for encrypting dealings of the interactive key generation.
#[derive(Clone, Copy, Debug, PartialEq, Eq, Hash)]
pub struct MEGaPublicKeyK256Bytes(pub [u8; 33]);

impl View for MEGaPublicKeyK256Bytes {
    type V = TaggedBytes;

    open spec fn view(&self) -> TaggedBytes {
        TaggedBytes { algorithm: AlgorithmId::MegaSecp256k1, bytes: self.0@ }
    }
}

impl CspPublicKey {
    /// Decodes an entry of the key file as a signing key.
    pub fn try_from(entry: &PublicKey) -> (decoded: Result<CspPublicKey, PublicKeyDecodeError>)
        ensures
            result_view_ok(decoded) == decode_signing_key(entry@),
    {
        let algorithm = AlgorithmId::from(entry.algorithm);
        let key_length = entry.key_value.len();
        match algorithm {
            AlgorithmId::Ed25519 => {
                if key_length != 32 {
                    return Err(PublicKeyDecodeError::MalformedPublicKey { algorithm, key_length });
                }
                let bytes = read_block::<32>(entry.key_value.as_slice(), 0);
                assert(bytes@ =~= entry.key_value@);
                Ok(CspPublicKey::Ed25519(bytes))
            },
            AlgorithmId::MultiBls12_381 => {
                if key_length != 96 {
                    return Err(PublicKeyDecodeError::MalformedPublicKey { algorithm, key_length });
                }
                let bytes = read_block::<96>(entry.key_value.as_slice(), 0);
                assert(bytes@ =~= entry.key_value@);
                Ok(CspPublicKey::MultiBls12_381(bytes))
            },
            _ => Err(PublicKeyDecodeError::UnsupportedAlgorithm { algorithm }),
        }
    }
}

impl CspFsEncryptionPublicKey {
    /// Decodes an entry of the key file as a key for encrypting dealings of
    /// the non-interactive key generation.
    pub fn try_from(entry: &PublicKey) -> (decoded: Result<
        CspFsEncryptionPublicKey,
        PublicKeyDecodeError,
    >)
        ensures
            result_view_ok(decoded) == decode_fs_encryption_key(entry@),
    {
        let algorithm = AlgorithmId::from(entry.algorithm);
        let key_length = entry.key_value.len();
        match algorithm {
            AlgorithmId::Groth20_Bls12_381 => {
                if key_length != FS_ENCRYPTION_PUBLIC_KEY_LEN {
                    return Err(PublicKeyDecodeError::MalformedPublicKey { algorithm, key_length });
                }
                let bytes = read_block::<48>(entry.key_value.as_slice(), 0);
                assert(bytes@ =~= entry.key_value@);
                Ok(CspFsEncryptionPublicKey::Groth20_Bls12_381(bytes))
            },
            _ => Err(PublicKeyDecodeError::UnsupportedAlgorithm { algorithm }),
        }
    }

    /// The identifier under which the secret key of this key is held.
    pub fn key_id(&self) -> (id: KeyId)
        ensures
            id@ == key_id_of_bytes(self@.algorithm, self@.bytes),
    {
        match self {
            CspFsEncryptionPublicKey::Groth20_Bls12_381(bytes) => bytes_hash_as_key_id(
                AlgorithmId::Groth20_Bls12_381,
                bytes.as_slice(),
            ),
        }
    }
}

impl MEGaPublicKeyK256Bytes {
    /// Decodes an entry of the key file as a key for encrypting dealings of
    /// the interactive key generation.
    pub fn try_from(entry: &PublicKey) -> (decoded: Result<
        MEGaPublicKeyK256Bytes,
        PublicKeyDecodeError,
    >)
        ensures
            result_view_ok(decoded) == decode_mega_key(entry@),
    {
        let algorithm = AlgorithmId::from(entry.algorithm);
        let key_length = entry.key_value.len();
        match algorithm {
            AlgorithmId::MegaSecp256k1 => {
                if key_length != MEGA_PUBLIC_KEY_LEN {
                    return Err(PublicKeyDecodeError::MalformedPublicKey { algorithm, key_length });
                }
                let bytes = read_block::<33>(entry.key_value.as_slice(), 0);
                assert(bytes@ =~= entry.key_value@);
                Ok(MEGaPublicKeyK256Bytes(bytes))
            },
            _ => Err(PublicKeyDecodeError::UnsupportedAlgorithm { algorithm }),
        }
    }
}

} // verus!
