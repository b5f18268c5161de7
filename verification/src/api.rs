//! What the crypto service provider offers to the rest of the node.

use crate::algorithm::AlgorithmId;
use crate::bls12_381;
use crate::ed25519;
use crate::key_id::key_id_of_bytes;
use crate::key_id::KeyId;
use crate::node_public_keys::decode_fs_encryption_key;
use crate::node_public_keys::CurrentNodePublicKeys;
use crate::node_public_keys::NodePublicKeys;
use crate::node_public_keys::NodePublicKeysView;
use crate::types::CspPop;
use crate::types::CspPublicKey;
use crate::types::CspSignature;
use crate::types::TaggedBytes;
use crate::vault::api::basic_keygen_outcome;
use crate::vault::api::basic_sign_result;
use crate::vault::api::key_with_pop_view;
use crate::vault::api::multi_keygen_outcome;
use crate::vault::api::multi_sign_result;
use crate::vault::api::result_view;
use crate::vault::api::tls_sign_result;
use crate::vault::api::CspSecretKeyStoreContainsError;
use crate::vault::api::CspBasicSignatureError;
use crate::vault::api::CspBasicSignatureKeygenError;
use crate::vault::api::CspMultiSignatureError;
use crate::vault::api::CspMultiSignatureKeygenError;
use crate::vault::api::KeyMap;
use crate::vault::api::KeygenErrorView;
use crate::vault::api::SignatureErrorView;
use crate::vault::api::MULTI_SIG_DOMAIN;
use crate::vault::api::MULTI_SIG_POP_DOMAIN;
use vstd::prelude::*;
use vstd::string::StringSliceAdditionalSpecFns;

verus! {

/// Why an operation of the provider failed, as contracts see it.
pub enum CryptoErrorView {
    SecretKeyNotFound { algorithm: AlgorithmId, key_id: Seq<u8> },
    AlgorithmNotSupported { algorithm: AlgorithmId },
    WrongSecretKeyType { algorithm: AlgorithmId, stored_variant: Seq<char> },
    MalformedSecretKey { algorithm: AlgorithmId },
    DuplicateKeyId { key_id: Seq<u8> },
    SignatureVerification { algorithm: AlgorithmId },
    PopVerification { algorithm: AlgorithmId },
    TransientInternalError { internal_error: Seq<char> },
}

/// Why an operation of the provider failed.
#[derive(Clone, Debug, PartialEq, Eq)]
pub enum CryptoError {
    /// No key is held under the identifier.
    SecretKeyNotFound { algorithm: AlgorithmId, key_id: KeyId },
    /// The operation is not offered for the algorithm.
    AlgorithmNotSupported { algorithm: AlgorithmId },
    /// The key held under the identifier is for another algorithm.
    WrongSecretKeyType { algorithm: AlgorithmId, stored_variant: String },
    /// The key held under the identifier is no key of its algorithm.
    MalformedSecretKey { algorithm: AlgorithmId },
    /// Another key is already held under the identifier of a new key.
    DuplicateKeyId { key_id: KeyId },
    /// The signature is not one of the key on the message.
    SignatureVerification { algorithm: AlgorithmId },
    /// The proof of possession is not one of the key.
    PopVerification { algorithm: AlgorithmId },
    /// The vault could not be reached or could not reach its store; the call
    /// may be made again.
    TransientInternalError { internal_error: String },
}

impl View for CryptoError {
    type V = CryptoErrorView;

    open spec fn view(&self) -> CryptoErrorView {
        match self {
            CryptoError::SecretKeyNotFound { algorithm, key_id } => {
                CryptoErrorView::SecretKeyNotFound { algorithm: *algorithm, key_id: key_id@ }
            },
            CryptoError::AlgorithmNotSupported { algorithm } => {
                CryptoErrorView::AlgorithmNotSupported { algorithm: *algorithm }
            },
            CryptoError::WrongSecretKeyType { algorithm, stored_variant } => {
                CryptoErrorView::WrongSecretKeyType {
                    algorithm: *algorithm,
                    stored_variant: stored_variant@,
                }
            },
            CryptoError::MalformedSecretKey { algorithm } => {
                CryptoErrorView::MalformedSecretKey { algorithm: *algorithm }
            },
            CryptoError::DuplicateKeyId { key_id } => {
                CryptoErrorView::DuplicateKeyId { key_id: key_id@ }
            },
            CryptoError::SignatureVerification { algorithm } => {
                CryptoErrorView::SignatureVerification { algorithm: *algorithm }
            },
            CryptoError::PopVerification { algorithm } => {
                CryptoErrorView::PopVerification { algorithm: *algorithm }
            },
            CryptoError::TransientInternalError { internal_error } => {
                CryptoErrorView::TransientInternalError { internal_error: internal_error@ }
            },
        }
    }
}

/// The provider's error for a vault's refusal to sign.
pub open spec fn error_of_signature_error(error: SignatureErrorView) -> CryptoErrorView {
    match error {
        SignatureErrorView::SecretKeyNotFound { algorithm, key_id } => {
            CryptoErrorView::SecretKeyNotFound { algorithm, key_id }
        },
        SignatureErrorView::UnsupportedAlgorithm { algorithm } => {
            CryptoErrorView::AlgorithmNotSupported { algorithm }
        },
        SignatureErrorView::WrongSecretKeyType { algorithm, stored_variant } => {
            CryptoErrorView::WrongSecretKeyType { algorithm, stored_variant }
        },
        SignatureErrorView::MalformedSecretKey { algorithm } => {
            CryptoErrorView::MalformedSecretKey { algorithm }
        },
        SignatureErrorView::TransientInternalError { internal_error } => {
            CryptoErrorView::TransientInternalError { internal_error }
        },
    }
}

/// The provider's error for a vault's refusal to generate a key pair.
pub open spec fn error_of_keygen_error(error: KeygenErrorView) -> CryptoErrorView {
    match error {
        KeygenErrorView::UnsupportedAlgorithm { algorithm } => {
            CryptoErrorView::AlgorithmNotSupported { algorithm }
        },
        KeygenErrorView::DuplicateKeyId { key_id } => CryptoErrorView::DuplicateKeyId { key_id },
        KeygenErrorView::TransientInternalError { internal_error } => {
            CryptoErrorView::TransientInternalError { internal_error }
        },
    }
}

/// A vault's signing result as the provider hands it on.
pub open spec fn provider_sign_result(result: Result<TaggedBytes, SignatureErrorView>) -> Result<
    TaggedBytes,
    CryptoErrorView,
> {
    match result {
        Ok(signature) => Ok(signature),
        Err(error) => Err(error_of_signature_error(error)),
    }
}

/// A vault's key generation result as the provider hands it on.
pub open spec fn provider_keygen_result<T>(result: Result<T, KeygenErrorView>) -> Result<
    T,
    CryptoErrorView,
> {
    match result {
        Ok(generated) => Ok(generated),
        Err(error) => Err(error_of_keygen_error(error)),
    }
}

impl CryptoError {
    /// The provider's error for a vault's refusal to make a single-key
    /// signature.
    pub fn from_basic_signature_error(error: CspBasicSignatureError) -> (converted: CryptoError)
        ensures
            converted@ == error_of_signature_error(error@),
    {
        match error {
            CspBasicSignatureError::SecretKeyNotFound { algorithm, key_id } => {
                CryptoError::SecretKeyNotFound { algorithm, key_id }
            },
            CspBasicSignatureError::UnsupportedAlgorithm { algorithm } => {
                CryptoError::AlgorithmNotSupported { algorithm }
            },
            CspBasicSignatureError::WrongSecretKeyType { algorithm, stored_variant } => {
                CryptoError::WrongSecretKeyType { algorithm, stored_variant }
            },
            CspBasicSignatureError::MalformedSecretKey { algorithm } => {
                CryptoError::MalformedSecretKey { algorithm }
            },
            CspBasicSignatureError::TransientInternalError { internal_error } => {
                CryptoError::TransientInternalError { internal_error }
            },
        }
    }

    /// The provider's error for a vault's refusal to make a multi-signature.
    pub fn from_multi_signature_error(error: CspMultiSignatureError) -> (converted: CryptoError)
        ensures
            converted@ == error_of_signature_error(error@),
    {
        match error {
            CspMultiSignatureError::SecretKeyNotFound { algorithm, key_id } => {
                CryptoError::SecretKeyNotFound { algorithm, key_id }
            },
            CspMultiSignatureError::UnsupportedAlgorithm { algorithm } => {
                CryptoError::AlgorithmNotSupported { algorithm }
            },
            CspMultiSignatureError::WrongSecretKeyType { algorithm, stored_variant } => {
                CryptoError::WrongSecretKeyType { algorithm, stored_variant }
            },
            CspMultiSignatureError::MalformedSecretKey { algorithm } => {
                CryptoError::MalformedSecretKey { algorithm }
            },
            CspMultiSignatureError::TransientInternalError { internal_error } => {
                CryptoError::TransientInternalError { internal_error }
            },
        }
    }

    /// The provider's error for a vault's refusal to generate a key pair for
    /// single-key signatures.
    pub fn from_basic_keygen_error(error: CspBasicSignatureKeygenError) -> (converted: CryptoError)
        ensures
            converted@ == error_of_keygen_error(error@),
    {
        match error {
            CspBasicSignatureKeygenError::UnsupportedAlgorithm { algorithm } => {
                CryptoError::AlgorithmNotSupported { algorithm }
            },
            CspBasicSignatureKeygenError::DuplicateKeyId { key_id } => {
                CryptoError::DuplicateKeyId { key_id }
            },
            CspBasicSignatureKeygenError::TransientInternalError { internal_error } => {
                CryptoError::TransientInternalError { internal_error }
            },
        }
    }

    /// The provider's error for a vault that could not say whether it holds
    /// a key.
    pub fn from_contains_error(error: CspSecretKeyStoreContainsError) -> (converted: CryptoError)
        ensures
            converted@ == (CryptoErrorView::TransientInternalError { internal_error: error@ }),
    {
        match error {
            CspSecretKeyStoreContainsError::TransientInternalError { internal_error } => {
                CryptoError::TransientInternalError { internal_error }
            },
        }
    }

    /// The provider's error for a vault's refusal to generate a key pair for
    /// multi-signatures.
    pub fn from_multi_keygen_error(error: CspMultiSignatureKeygenError) -> (converted: CryptoError)
        ensures
            converted@ == error_of_keygen_error(error@),
    {
        match error {
            CspMultiSignatureKeygenError::UnsupportedAlgorithm { algorithm } => {
                CryptoError::AlgorithmNotSupported { algorithm }
            },
            CspMultiSignatureKeygenError::DuplicateKeyId { key_id } => {
                CryptoError::DuplicateKeyId { key_id }
            },
            CspMultiSignatureKeygenError::TransientInternalError { internal_error } => {
                CryptoError::TransientInternalError { internal_error }
            },
        }
    }
}

/// Whether a result of the provider says that the vault could not be
/// reached.
pub open spec fn is_transient<T>(result: Result<T, CryptoErrorView>) -> bool {
    result matches Err(CryptoErrorView::TransientInternalError { .. })
}

/// What signing returns: with MultiBls12_381, what multi-signature signing
/// returns; with every other algorithm, what single-key signing returns.
pub open spec fn sign_result(
    keys: KeyMap,
    algorithm: AlgorithmId,
    message: Seq<u8>,
    key_id: Seq<u8>,
) -> Result<TaggedBytes, CryptoErrorView> {
    if algorithm == AlgorithmId::MultiBls12_381 {
        provider_sign_result(multi_sign_result(keys, algorithm, message, key_id))
    } else {
        provider_sign_result(basic_sign_result(keys, algorithm, message, key_id))
    }
}

/// What verifying a signature returns. An algorithm without signatures here
/// is refused; a signature or a key that is not of the algorithm, or a
/// signature that the algorithm does not accept under the key, fails.
pub open spec fn verify_result(
    signature: TaggedBytes,
    message: Seq<u8>,
    algorithm: AlgorithmId,
    signer: TaggedBytes,
) -> Result<(), CryptoErrorView> {
    if algorithm != AlgorithmId::Ed25519 && algorithm != AlgorithmId::MultiBls12_381 {
        Err(CryptoErrorView::AlgorithmNotSupported { algorithm })
    } else if signature.algorithm != algorithm || signer.algorithm != algorithm {
        Err(CryptoErrorView::SignatureVerification { algorithm })
    } else if algorithm == AlgorithmId::Ed25519 {
        if ed25519::accepts(signer.bytes, message, signature.bytes) {
            Ok(())
        } else {
            Err(CryptoErrorView::SignatureVerification { algorithm })
        }
    } else {
        if bls12_381::accepts(
            signer.bytes,
            message,
            MULTI_SIG_DOMAIN.spec_bytes(),
            signature.bytes,
        ) {
            Ok(())
        } else {
            Err(CryptoErrorView::SignatureVerification { algorithm })
        }
    }
}

/// What verifying a proof of possession returns. Every algorithm but
/// MultiBls12_381 is refused; a key that is not of that algorithm, or a
/// proof that is no signature of the key on itself, fails.
pub open spec fn verify_pop_result(
    pop: TaggedBytes,
    algorithm: AlgorithmId,
    public_key: TaggedBytes,
) -> Result<(), CryptoErrorView> {
    if algorithm != AlgorithmId::MultiBls12_381 {
        Err(CryptoErrorView::AlgorithmNotSupported { algorithm })
    } else if public_key.algorithm != algorithm || pop.algorithm != algorithm {
        Err(CryptoErrorView::PopVerification { algorithm })
    } else if bls12_381::accepts(
        public_key.bytes,
        public_key.bytes,
        MULTI_SIG_POP_DOMAIN.spec_bytes(),
        pop.bytes,
    ) {
        Ok(())
    } else {
        Err(CryptoErrorView::PopVerification { algorithm })
    }
}

/// The view of a result that carries nothing on success.
pub open spec fn unit_result_view<E: View>(result: Result<(), E>) -> Result<(), E::V> {
    match result {
        Ok(()) => Ok(()),
        Err(error) => Err(error@),
    }
}

/// Verifies a signature on a message under a public key.
pub fn verify_signature(
    signature: &CspSignature,
    message: &[u8],
    algorithm_id: AlgorithmId,
    signer: &CspPublicKey,
) -> (verified: Result<(), CryptoError>)
    ensures
        unit_result_view(verified) == verify_result(signature@, message@, algorithm_id, signer@),
{
    match algorithm_id {
        AlgorithmId::Ed25519 => match (signature, signer) {
            (CspSignature::Ed25519(signature), CspPublicKey::Ed25519(public_key)) => {
                if ed25519::verify(public_key, message, signature) {
                    Ok(())
                } else {
                    Err(CryptoError::SignatureVerification { algorithm: algorithm_id })
                }
            },
            _ => Err(CryptoError::SignatureVerification { algorithm: algorithm_id }),
        },
        AlgorithmId::MultiBls12_381 => match (signature, signer) {
            (CspSignature::MultiBls12_381(signature), CspPublicKey::MultiBls12_381(public_key)) => {
                if bls12_381::verify(public_key, message, MULTI_SIG_DOMAIN.as_bytes(), signature) {
                    Ok(())
                } else {
                    Err(CryptoError::SignatureVerification { algorithm: algorithm_id })
                }
            },
            _ => Err(CryptoError::SignatureVerification { algorithm: algorithm_id }),
        },
        _ => Err(CryptoError::AlgorithmNotSupported { algorithm: algorithm_id }),
    }
}

/// Verifies a proof of possession of a public key.
pub fn verify_proof_of_possession(
    pop: &CspPop,
    algorithm_id: AlgorithmId,
    public_key: &CspPublicKey,
) -> (verified: Result<(), CryptoError>)
    ensures
        unit_result_view(verified) == verify_pop_result(pop@, algorithm_id, public_key@),
{
    match algorithm_id {
        AlgorithmId::MultiBls12_381 => match (pop, public_key) {
            (CspPop::MultiBls12_381(pop), CspPublicKey::MultiBls12_381(key)) => {
                if bls12_381::verify(key, key.as_slice(), MULTI_SIG_POP_DOMAIN.as_bytes(), pop) {
                    Ok(())
                } else {
                    Err(CryptoError::PopVerification { algorithm: algorithm_id })
                }
            },
            _ => Err(CryptoError::PopVerification { algorithm: algorithm_id }),
        },
        _ => Err(CryptoError::AlgorithmNotSupported { algorithm: algorithm_id }),
    }
}

/// Signing with the node's keys, and verifying.
pub trait CspSigner {
    /// The node's secret keys that signing reads, by identifier.
    spec fn signing_keys(&self) -> KeyMap;

    /// Whether the provider is in order.
    spec fn in_order(&self) -> bool;

    /// Whether the provider always reaches its vault: it does where the
    /// vault lives in the calling process. Such a provider never fails with
    /// `TransientInternalError`.
    spec fn reaches_vault(&self) -> bool;

    /// Signs a message with the key held under an identifier.
    fn sign(&self, algorithm_id: AlgorithmId, message: &[u8], key_id: KeyId) -> (signed: Result<
        CspSignature,
        CryptoError,
    >)
        requires
            self.in_order(),
        ensures
            is_transient(result_view(signed)) || result_view(signed) == sign_result(
                self.signing_keys(),
                algorithm_id,
                message@,
                key_id@,
            ),
            is_transient(result_view(signed)) ==> !self.reaches_vault(),
    ;

    /// Verifies a signature on a message under a public key.
    fn verify(
        &self,
        signature: &CspSignature,
        message: &[u8],
        algorithm_id: AlgorithmId,
        signer: CspPublicKey,
    ) -> (verified: Result<(), CryptoError>)
        ensures
            unit_result_view(verified) == verify_result(signature@, message@, algorithm_id, signer@),
    ;

    /// Verifies a proof of possession of a public key.
    fn verify_pop(&self, pop: &CspPop, algorithm_id: AlgorithmId, public_key: CspPublicKey) -> (verified:
        Result<(), CryptoError>)
        ensures
            unit_result_view(verified) == verify_pop_result(pop@, algorithm_id, public_key@),
    ;
}

/// Generating key pairs whose secret keys stay in the vault.
pub trait CspKeyGenerator: CspSigner {
    /// Generates a key pair for single-key signatures.
    fn gen_key_pair(&mut self, algorithm_id: AlgorithmId) -> (generated: Result<
        CspPublicKey,
        CryptoError,
    >)
        requires
            old(self).in_order(),
        ensures
            final(self).in_order(),
            final(self).reaches_vault() == old(self).reaches_vault(),
            is_transient(result_view(generated)) ==> !old(self).reaches_vault(),
            is_transient(result_view(generated)) || exists|
                outcome: Result<TaggedBytes, KeygenErrorView>,
            |
                result_view(generated) == provider_keygen_result(outcome)
                    && #[trigger] basic_keygen_outcome(
                    old(self).signing_keys(),
                    algorithm_id,
                    outcome,
                    final(self).signing_keys(),
                ),
    ;

    /// Generates a key pair for multi-signatures, with a proof that its
    /// secret key is known.
    fn gen_key_pair_with_pop(&mut self, algorithm_id: AlgorithmId) -> (generated: Result<
        (CspPublicKey, CspPop),
        CryptoError,
    >)
        requires
            old(self).in_order(),
        ensures
            final(self).in_order(),
            final(self).reaches_vault() == old(self).reaches_vault(),
            is_transient(key_with_pop_view(generated)) ==> !old(self).reaches_vault(),
            is_transient(key_with_pop_view(generated)) || exists|
                outcome: Result<(TaggedBytes, TaggedBytes), KeygenErrorView>,
            |
                key_with_pop_view(generated) == provider_keygen_result(outcome)
                    && #[trigger] multi_keygen_outcome(
                    old(self).signing_keys(),
                    algorithm_id,
                    outcome,
                    final(self).signing_keys(),
                ),
    ;
}

/// Signing the messages of TLS handshakes with the node's TLS key.
pub trait CspTlsHandshakeSigner: CspSigner {
    /// Signs a message of a TLS handshake with the TLS key held under an
    /// identifier.
    fn tls_sign(&self, message: &[u8], key_id: &KeyId) -> (signed: Result<
        CspSignature,
        CryptoError,
    >)
        requires
            self.in_order(),
        ensures
            is_transient(result_view(signed)) || result_view(signed) == provider_sign_result(
                tls_sign_result(self.signing_keys(), message@, key_id@),
            ),
            is_transient(result_view(signed)) ==> !self.reaches_vault(),
    ;
}

/// Asking whether the vault holds a key.
pub trait CspSecretKeyStoreChecker: CspSigner {
    /// Whether a key is held under an identifier.
    fn sks_contains(&self, key_id: &KeyId) -> (held: Result<bool, CryptoError>)
        requires
            self.in_order(),
        ensures
            match held {
                Ok(held) => held == self.signing_keys().contains_key(key_id@),
                Err(error) => error@ is TransientInternalError && !self.reaches_vault(),
            },
    ;
}

/// The key for encrypting dealings of the non-interactive key generation
/// that a key file names, where it names one that decodes.
pub open spec fn dkg_dealing_encryption_key(keys: NodePublicKeysView) -> Option<TaggedBytes> {
    match keys.dkg_dealing_encryption {
        Some(entry) => match decode_fs_encryption_key(entry) {
            Ok(key) => Some(key),
            Err(_) => None,
        },
        None => None,
    }
}

/// The public keys of the node itself.
pub trait NodePublicKeyData {
    /// What the node's key file held when the provider was made or last
    /// reset.
    spec fn node_public_keys(&self) -> NodePublicKeys;

    /// The node's public keys, by role.
    fn current_node_public_keys(&self) -> (current: CurrentNodePublicKeys)
        ensures
            current@ == self.node_public_keys()@,
    ;

    /// The identifier under which the secret key for decrypting dealings of
    /// the non-interactive key generation is held. The node must have such
    /// a key.
    fn dkg_dealing_encryption_key_id(&self) -> (id: KeyId)
        requires
            dkg_dealing_encryption_key(self.node_public_keys()@).is_some(),
        ensures
            dkg_dealing_encryption_key(self.node_public_keys()@) matches Some(key) && id@
                == key_id_of_bytes(key.algorithm, key.bytes),
    ;
}

} // verus!
