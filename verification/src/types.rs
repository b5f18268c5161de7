//! Keys, signatures and proofs of possession, each tagged with its algorithm.

use crate::algorithm::AlgorithmId;
use vstd::prelude::*;

verus! {

/// A byte string together with the algorithm it belongs to: what a key, a
/// signature or a proof of possession is to a contract.
pub struct TaggedBytes {
    pub algorithm: AlgorithmId,
    pub bytes: Seq<u8>,
}

/// A public key.
#[allow(non_camel_case_types)]
#[derive(Clone, Copy, Debug, PartialEq, Eq, Hash)]
pub enum CspPublicKey {
    Ed25519([u8; 32]),
    MultiBls12_381([u8; 96]),
}

impl View for CspPublicKey {
    type V = TaggedBytes;

    open spec fn view(&self) -> TaggedBytes {
        match self {
            CspPublicKey::Ed25519(bytes) => TaggedBytes {
                algorithm: AlgorithmId::Ed25519,
                bytes: bytes@,
            },
            CspPublicKey::MultiBls12_381(bytes) => TaggedBytes {
                algorithm: AlgorithmId::MultiBls12_381,
                bytes: bytes@,
            },
        }
    }
}

impl CspPublicKey {
    /// The algorithm of this key.
    pub fn algorithm_id(&self) -> (algorithm: AlgorithmId)
        ensures
            algorithm == self@.algorithm,
    {
        match self {
            CspPublicKey::Ed25519(_) => AlgorithmId::Ed25519,
            CspPublicKey::MultiBls12_381(_) => AlgorithmId::MultiBls12_381,
        }
    }

    /// The bytes of this key.
    pub fn pk_bytes(&self) -> (bytes: &[u8])
        ensures
            bytes@ == self@.bytes,
    {
        match self {
            CspPublicKey::Ed25519(bytes) => bytes.as_slice(),
            CspPublicKey::MultiBls12_381(bytes) => bytes.as_slice(),
        }
    }
}

/// A signature.
#[allow(non_camel_case_types)]
#[derive(Clone, Copy, Debug, PartialEq, Eq, Hash)]
pub enum CspSignature {
    Ed25519([u8; 64]),
    MultiBls12_381([u8; 48]),
}

impl View for CspSignature {
    type V = TaggedBytes;

    open spec fn view(&self) -> TaggedBytes {
        match self {
            CspSignature::Ed25519(bytes) => TaggedBytes {
                algorithm: AlgorithmId::Ed25519,
                bytes: bytes@,
            },
            CspSignature::MultiBls12_381(bytes) => TaggedBytes {
                algorithm: AlgorithmId::MultiBls12_381,
                bytes: bytes@,
            },
        }
    }
}

impl CspSignature {
    /// The algorithm of this signature.
    pub fn algorithm(&self) -> (algorithm: AlgorithmId)
        ensures
            algorithm == self@.algorithm,
    {
        match self {
            CspSignature::Ed25519(_) => AlgorithmId::Ed25519,
            CspSignature::MultiBls12_381(_) => AlgorithmId::MultiBls12_381,
        }
    }
}

/// A proof that the holder of a public key knows its secret key.
#[allow(non_camel_case_types)]
#[derive(Clone, Copy, Debug, PartialEq, Eq, Hash)]
pub enum CspPop {
    MultiBls12_381([u8; 48]),
}

impl View for CspPop {
    type V = TaggedBytes;

    open spec fn view(&self) -> TaggedBytes {
        match self {
            CspPop::MultiBls12_381(bytes) => TaggedBytes {
                algorithm: AlgorithmId::MultiBls12_381,
                bytes: bytes@,
            },
        }
    }
}

/// A secret key as a store holds it: the algorithm it is for, and its bytes,
/// which only the code of that algorithm reads.
#[derive(Clone, Debug, PartialEq, Eq)]
pub struct CspSecretKey {
    pub algorithm: AlgorithmId,
    pub bytes: Vec<u8>,
}

impl View for CspSecretKey {
    type V = TaggedBytes;

    open spec fn view(&self) -> TaggedBytes {
        TaggedBytes { algorithm: self.algorithm, bytes: self.bytes@ }
    }
}

impl CspSecretKey {
    /// A secret key of the given algorithm with the given bytes.
    pub fn new(algorithm: AlgorithmId, bytes: Vec<u8>) -> (key: CspSecretKey)
        ensures
            key@ == (TaggedBytes { algorithm, bytes: bytes@ }),
    {
        CspSecretKey { algorithm, bytes }
    }

    /// A copy of this key.
    pub fn duplicate(&self) -> (copy: CspSecretKey)
        ensures
            copy@ == self@,
    {
        CspSecretKey { algorithm: self.algorithm, bytes: self.bytes.clone() }
    }

    /// Whether two keys have the same algorithm and the same bytes.
    pub fn same_as(&self, other: &CspSecretKey) -> (same: bool)
        ensures
            same == (self@ == other@),
    {
        self.algorithm == other.algorithm && crate::bytes::same_bytes(
            self.bytes.as_slice(),
            other.bytes.as_slice(),
        )
    }

    /// The name of this key's algorithm, as error values carry it.
    pub fn enum_variant(&self) -> (name: &'static str)
        ensures
            name@ == crate::algorithm::algorithm_name(self@.algorithm),
    {
        self.algorithm.name()
    }
}

} // verus!
