//! What a vault offers, whether it lives in this process or in another one,
//! and what each of its operations returns.

use crate::algorithm::algorithm_name;
use crate::algorithm::AlgorithmId;
use crate::bls12_381;
use crate::ed25519;
use crate::key_id::key_id_of;
use crate::key_id::KeyId;
use crate::types::CspPop;
use crate::types::CspPublicKey;
use crate::types::CspSignature;
use crate::types::TaggedBytes;
use vstd::prelude::*;
use vstd::string::StringSliceAdditionalSpecFns;

verus! {

/// Why a signature was not made, as contracts see it.
pub enum SignatureErrorView {
    SecretKeyNotFound { algorithm: AlgorithmId, key_id: Seq<u8> },
    UnsupportedAlgorithm { algorithm: AlgorithmId },
    WrongSecretKeyType { algorithm: AlgorithmId, stored_variant: Seq<char> },
    MalformedSecretKey { algorithm: AlgorithmId },
    TransientInternalError { internal_error: Seq<char> },
}

/// Why a key pair was not generated, as contracts see it.
pub enum KeygenErrorView {
    UnsupportedAlgorithm { algorithm: AlgorithmId },
    DuplicateKeyId { key_id: Seq<u8> },
    TransientInternalError { internal_error: Seq<char> },
}

/// Why a single-key signature was not made.
#[derive(Clone, Debug, PartialEq, Eq)]
pub enum CspBasicSignatureError {
    /// No key is held under the identifier.
    SecretKeyNotFound { algorithm: AlgorithmId, key_id: KeyId },
    /// The algorithm is none that signs with a single key.
    UnsupportedAlgorithm { algorithm: AlgorithmId },
    /// The key held under the identifier is for another algorithm.
    WrongSecretKeyType { algorithm: AlgorithmId, stored_variant: String },
    /// The key held under the identifier is no key of its algorithm.
    MalformedSecretKey { algorithm: AlgorithmId },
    /// The vault could not be reached or could not reach its store; the call
    /// may be made again.
    TransientInternalError { internal_error: String },
}

impl View for CspBasicSignatureError {
    type V = SignatureErrorView;

    open spec fn view(&self) -> SignatureErrorView {
        match self {
            CspBasicSignatureError::SecretKeyNotFound { algorithm, key_id } => {
                SignatureErrorView::SecretKeyNotFound { algorithm: *algorithm, key_id: key_id@ }
            },
            CspBasicSignatureError::UnsupportedAlgorithm { algorithm } => {
                SignatureErrorView::UnsupportedAlgorithm { algorithm: *algorithm }
            },
            CspBasicSignatureError::WrongSecretKeyType { algorithm, stored_variant } => {
                SignatureErrorView::WrongSecretKeyType {
                    algorithm: *algorithm,
                    stored_variant: stored_variant@,
                }
            },
            CspBasicSignatureError::MalformedSecretKey { algorithm } => {
                SignatureErrorView::MalformedSecretKey { algorithm: *algorithm }
            },
            CspBasicSignatureError::TransientInternalError { internal_error } => {
                SignatureErrorView::TransientInternalError { internal_error: internal_error@ }
            },
        }
    }
}

/// Why a multi-signature was not made.
#[derive(Clone, Debug, PartialEq, Eq)]
pub enum CspMultiSignatureError {
    /// No key is held under the identifier.
    SecretKeyNotFound { algorithm: AlgorithmId, key_id: KeyId },
    /// The algorithm is none that makes multi-signatures.
    UnsupportedAlgorithm { algorithm: AlgorithmId },
    /// The key held under the identifier is for another algorithm.
    WrongSecretKeyType { algorithm: AlgorithmId, stored_variant: String },
    /// The key held under the identifier is no key of its algorithm.
    MalformedSecretKey { algorithm: AlgorithmId },
    /// The vault could not be reached or could not reach its store; the call
    /// may be made again.
    TransientInternalError { internal_error: String },
}

impl View for CspMultiSignatureError {
    type V = SignatureErrorView;

    open spec fn view(&self) -> SignatureErrorView {
        match self {
            CspMultiSignatureError::SecretKeyNotFound { algorithm, key_id } => {
                SignatureErrorView::SecretKeyNotFound { algorithm: *algorithm, key_id: key_id@ }
            },
            CspMultiSignatureError::UnsupportedAlgorithm { algorithm } => {
                SignatureErrorView::UnsupportedAlgorithm { algorithm: *algorithm }
            },
            CspMultiSignatureError::WrongSecretKeyType { algorithm, stored_variant } => {
                SignatureErrorView::WrongSecretKeyType {
                    algorithm: *algorithm,
                    stored_variant: stored_variant@,
                }
            },
            CspMultiSignatureError::MalformedSecretKey { algorithm } => {
                SignatureErrorView::MalformedSecretKey { algorithm: *algorithm }
            },
            CspMultiSignatureError::TransientInternalError { internal_error } => {
                SignatureErrorView::TransientInternalError { internal_error: internal_error@ }
            },
        }
    }
}

/// Why a key pair for single-key signatures was not generated.
#[derive(Clone, Debug, PartialEq, Eq)]
pub enum CspBasicSignatureKeygenError {
    /// The algorithm has no key pairs for single-key signatures.
    UnsupportedAlgorithm { algorithm: AlgorithmId },
    /// Another key is already held under the identifier of the new key.
    DuplicateKeyId { key_id: KeyId },
    /// The vault could not be reached or could not reach its store; the call
    /// may be made again.
    TransientInternalError { internal_error: String },
}

impl View for CspBasicSignatureKeygenError {
    type V = KeygenErrorView;

    open spec fn view(&self) -> KeygenErrorView {
        match self {
            CspBasicSignatureKeygenError::UnsupportedAlgorithm { algorithm } => {
                KeygenErrorView::UnsupportedAlgorithm { algorithm: *algorithm }
            },
            CspBasicSignatureKeygenError::DuplicateKeyId { key_id } => {
                KeygenErrorView::DuplicateKeyId { key_id: key_id@ }
            },
            CspBasicSignatureKeygenError::TransientInternalError { internal_error } => {
                KeygenErrorView::TransientInternalError { internal_error: internal_error@ }
            },
        }
    }
}

/// Why a key pair for multi-signatures was not generated.
#[derive(Clone, Debug, PartialEq, Eq)]
pub enum CspMultiSignatureKeygenError {
    /// The algorithm has no key pairs for multi-signatures.
    UnsupportedAlgorithm { algorithm: AlgorithmId },
    /// Another key is already held under the identifier of the new key.
    DuplicateKeyId { key_id: KeyId },
    /// The vault could not be reached or could not reach its store; the call
    /// may be made again.
    TransientInternalError { internal_error: String },
}

impl View for CspMultiSignatureKeygenError {
    type V = KeygenErrorView;

    open spec fn view(&self) -> KeygenErrorView {
        match self {
            CspMultiSignatureKeygenError::UnsupportedAlgorithm { algorithm } => {
                KeygenErrorView::UnsupportedAlgorithm { algorithm: *algorithm }
            },
            CspMultiSignatureKeygenError::DuplicateKeyId { key_id } => {
                KeygenErrorView::DuplicateKeyId { key_id: key_id@ }
            },
            CspMultiSignatureKeygenError::TransientInternalError { internal_error } => {
                KeygenErrorView::TransientInternalError { internal_error: internal_error@ }
            },
        }
    }
}

/// Why a vault could not say whether it holds a key.
#[derive(Clone, Debug, PartialEq, Eq)]
pub enum CspSecretKeyStoreContainsError {
    /// The vault could not be reached or could not reach its store; the call
    /// may be made again.
    TransientInternalError { internal_error: String },
}

impl View for CspSecretKeyStoreContainsError {
    type V = Seq<char>;

    open spec fn view(&self) -> Seq<char> {
        match self {
            CspSecretKeyStoreContainsError::TransientInternalError { internal_error } => {
                internal_error@
            },
        }
    }
}

/// The domain in which messages are signed with multi-signature keys.
pub const MULTI_SIG_DOMAIN: &'static str = "BLS_SIG_BLS12381G1_XMD:SHA-256_SSWU_RO_NUL_";

/// The domain in which a multi-signature key signs itself, to prove that its
/// secret key is known.
pub const MULTI_SIG_POP_DOMAIN: &'static str = "BLS_POP_BLS12381G1_XMD:SHA-256_SSWU_RO_POP_";

/// The keys a vault holds, by identifier.
pub type KeyMap = Map<Seq<u8>, TaggedBytes>;

/// An Ed25519 secret key, as a store holds it.
pub open spec fn ed25519_secret(seed: Seq<u8>) -> TaggedBytes {
    TaggedBytes { algorithm: AlgorithmId::Ed25519, bytes: seed }
}

/// The Ed25519 public key of a secret key.
pub open spec fn ed25519_public(seed: Seq<u8>) -> TaggedBytes {
    TaggedBytes { algorithm: AlgorithmId::Ed25519, bytes: ed25519::public_key_of(seed) }
}

/// A multi-signature secret key, as a store holds it.
pub open spec fn multi_secret(material: Seq<u8>) -> TaggedBytes {
    TaggedBytes { algorithm: AlgorithmId::MultiBls12_381, bytes: material }
}

/// The multi-signature public key of a secret key.
pub open spec fn multi_public(material: Seq<u8>) -> TaggedBytes {
    TaggedBytes {
        algorithm: AlgorithmId::MultiBls12_381,
        bytes: bls12_381::public_key_of(material),
    }
}

/// The proof of possession of a multi-signature key: the signature of the
/// secret key on the public key.
pub open spec fn multi_pop(material: Seq<u8>) -> TaggedBytes {
    TaggedBytes {
        algorithm: AlgorithmId::MultiBls12_381,
        bytes: bls12_381::signature_of(
            material,
            bls12_381::public_key_of(material),
            MULTI_SIG_POP_DOMAIN.spec_bytes(),
        ),
    }
}

/// What single-key signing returns: a refusal of every algorithm but
/// Ed25519, then of an identifier under which nothing is held, then of a key
/// that is for another algorithm or has not 32 bytes; otherwise the Ed25519
/// signature of the key held on the message.
pub open spec fn basic_sign_result(
    keys: KeyMap,
    algorithm: AlgorithmId,
    message: Seq<u8>,
    key_id: Seq<u8>,
) -> Result<TaggedBytes, SignatureErrorView> {
    if algorithm != AlgorithmId::Ed25519 {
        Err(SignatureErrorView::UnsupportedAlgorithm { algorithm })
    } else if !keys.contains_key(key_id) {
        Err(SignatureErrorView::SecretKeyNotFound { algorithm, key_id })
    } else if keys[key_id].algorithm != AlgorithmId::Ed25519 {
        Err(
            SignatureErrorView::WrongSecretKeyType {
                algorithm,
                stored_variant: algorithm_name(keys[key_id].algorithm),
            },
        )
    } else if keys[key_id].bytes.len() != ed25519::SECRET_KEY_LEN {
        Err(SignatureErrorView::MalformedSecretKey { algorithm })
    } else {
        Ok(
            TaggedBytes {
                algorithm: AlgorithmId::Ed25519,
                bytes: ed25519::signature_of(keys[key_id].bytes, message),
            },
        )
    }
}

/// What signing for a TLS handshake returns: a refusal of an identifier
/// under which nothing is held, then of a key that is no TLS key or has not
/// 32 bytes; otherwise the Ed25519 signature of the key held on the
/// message.
pub open spec fn tls_sign_result(keys: KeyMap, message: Seq<u8>, key_id: Seq<u8>) -> Result<
    TaggedBytes,
    SignatureErrorView,
> {
    if !keys.contains_key(key_id) {
        Err(SignatureErrorView::SecretKeyNotFound { algorithm: AlgorithmId::Tls, key_id })
    } else if keys[key_id].algorithm != AlgorithmId::Tls {
        Err(
            SignatureErrorView::WrongSecretKeyType {
                algorithm: AlgorithmId::Tls,
                stored_variant: algorithm_name(keys[key_id].algorithm),
            },
        )
    } else if keys[key_id].bytes.len() != ed25519::SECRET_KEY_LEN {
        Err(SignatureErrorView::MalformedSecretKey { algorithm: AlgorithmId::Tls })
    } else {
        Ok(
            TaggedBytes {
                algorithm: AlgorithmId::Ed25519,
                bytes: ed25519::signature_of(keys[key_id].bytes, message),
            },
        )
    }
}

/// What multi-signature signing returns: a refusal of every algorithm but
/// MultiBls12_381, then of an identifier under which nothing is held, then
/// of a key that is for another algorithm or has not 32 bytes; otherwise
/// the signature of the key held on the message.
pub open spec fn multi_sign_result(
    keys: KeyMap,
    algorithm: AlgorithmId,
    message: Seq<u8>,
    key_id: Seq<u8>,
) -> Result<TaggedBytes, SignatureErrorView> {
    if algorithm != AlgorithmId::MultiBls12_381 {
        Err(SignatureErrorView::UnsupportedAlgorithm { algorithm })
    } else if !keys.contains_key(key_id) {
        Err(SignatureErrorView::SecretKeyNotFound { algorithm, key_id })
    } else if keys[key_id].algorithm != AlgorithmId::MultiBls12_381 {
        Err(
            SignatureErrorView::WrongSecretKeyType {
                algorithm,
                stored_variant: algorithm_name(keys[key_id].algorithm),
            },
        )
    } else if keys[key_id].bytes.len() != bls12_381::SECRET_KEY_LEN {
        Err(SignatureErrorView::MalformedSecretKey { algorithm })
    } else {
        Ok(
            TaggedBytes {
                algorithm: AlgorithmId::MultiBls12_381,
                bytes: bls12_381::signature_of(
                    keys[key_id].bytes,
                    message,
                    MULTI_SIG_DOMAIN.spec_bytes(),
                ),
            },
        )
    }
}

/// What storing a new key pair returns and leaves behind: the public key,
/// with the secret key held under its identifier; or, where another key is
/// held under that identifier, a refusal that changes nothing.
pub open spec fn store_key_result(keys: KeyMap, public: TaggedBytes, secret: TaggedBytes) -> (
    Result<TaggedBytes, KeygenErrorView>,
    KeyMap,
) {
    let key_id = key_id_of(public);
    if keys.contains_key(key_id) && keys[key_id] != secret {
        (Err(KeygenErrorView::DuplicateKeyId { key_id }), keys)
    } else {
        (Ok(public), keys.insert(key_id, secret))
    }
}

/// The view of a result.
pub open spec fn result_view<T: View, E: View>(result: Result<T, E>) -> Result<T::V, E::V> {
    match result {
        Ok(value) => Ok(value@),
        Err(error) => Err(error@),
    }
}

/// Whether a signing result says that the vault could not be reached.
pub open spec fn is_transient_signature_error<T>(result: Result<T, SignatureErrorView>) -> bool {
    result matches Err(SignatureErrorView::TransientInternalError { .. })
}

/// Whether a key generation result says that the vault could not be reached.
pub open spec fn is_transient_keygen_error<T>(result: Result<T, KeygenErrorView>) -> bool {
    result matches Err(KeygenErrorView::TransientInternalError { .. })
}

/// What generating a key pair for single-key signatures may return and
/// leave behind. Every algorithm but Ed25519 is refused and nothing changes.
/// For Ed25519 there are 32 bytes, the seed that was drawn, such that the
/// result is that of storing the key pair of that seed.
pub open spec fn basic_keygen_outcome(
    before: KeyMap,
    algorithm: AlgorithmId,
    result: Result<TaggedBytes, KeygenErrorView>,
    after: KeyMap,
) -> bool {
    if algorithm != AlgorithmId::Ed25519 {
        result == Err::<TaggedBytes, _>(KeygenErrorView::UnsupportedAlgorithm { algorithm })
            && after == before
    } else {
        exists|seed: Seq<u8>|
            seed.len() == 32 && (result, after) == #[trigger] store_key_result(
                before,
                ed25519_public(seed),
                ed25519_secret(seed),
            )
    }
}

/// What generating a key pair for multi-signatures may return and leave
/// behind. Every algorithm but MultiBls12_381 is refused and nothing
/// changes. For MultiBls12_381 there are 32 bytes, the secret key that was
/// drawn, such that the public key and what is left behind are those of
/// storing the key pair of that secret key, and the proof of possession is
/// that of the same key.
pub open spec fn multi_keygen_outcome(
    before: KeyMap,
    algorithm: AlgorithmId,
    result: Result<(TaggedBytes, TaggedBytes), KeygenErrorView>,
    after: KeyMap,
) -> bool {
    if algorithm != AlgorithmId::MultiBls12_381 {
        result == Err::<(TaggedBytes, TaggedBytes), _>(
            KeygenErrorView::UnsupportedAlgorithm { algorithm },
        ) && after == before
    } else {
        exists|material: Seq<u8>|
            material.len() == 32 && (result, after) == #[trigger] multi_keygen_result(
                before,
                material,
            )
    }
}

/// What storing the multi-signature key pair of a given secret key returns
/// and leaves behind.
pub open spec fn multi_keygen_result(before: KeyMap, material: Seq<u8>) -> (
    Result<(TaggedBytes, TaggedBytes), KeygenErrorView>,
    KeyMap,
) {
    match store_key_result(before, multi_public(material), multi_secret(material)) {
        (Ok(public), after) => (Ok((public, multi_pop(material))), after),
        (Err(error), after) => (Err(error), after),
    }
}

/// Whether a vault that held `before` holds `after` for having generated and
/// stored an Ed25519 key pair: there are 32 bytes, the seed, such that
/// storing the key pair of that seed succeeds on `before` and leaves
/// `after`.
pub open spec fn generated_ed25519_key(before: KeyMap, after: KeyMap) -> bool {
    exists|seed: Seq<u8>|
        seed.len() == 32 && #[trigger] store_key_result(
            before,
            ed25519_public(seed),
            ed25519_secret(seed),
        ) == (Ok::<TaggedBytes, KeygenErrorView>(ed25519_public(seed)), after)
}

/// Whether a vault that held `before` holds `after` for having generated and
/// stored a multi-signature key pair: there are 32 bytes, the secret key,
/// such that storing the key pair of that secret key succeeds on `before`
/// and leaves `after`.
pub open spec fn generated_multi_sig_key(before: KeyMap, after: KeyMap) -> bool {
    exists|material: Seq<u8>|
        material.len() == 32 && #[trigger] multi_keygen_result(before, material) == (
            Ok::<(TaggedBytes, TaggedBytes), KeygenErrorView>(
                (multi_public(material), multi_pop(material)),
            ),
            after,
        )
}

/// Whether a vault that holds `keys` may refuse an Ed25519 key pair that it
/// generated: there are 32 bytes, the seed, such that another key is held
/// under the identifier of the key pair of that seed.
pub open spec fn refuses_some_ed25519_key(keys: KeyMap) -> bool {
    exists|seed: Seq<u8>|
        seed.len() == 32 && (#[trigger] store_key_result(
            keys,
            ed25519_public(seed),
            ed25519_secret(seed),
        )).0 is Err
}

/// Whether a vault that holds `keys` may refuse a multi-signature key pair
/// that it generated: there are 32 bytes, the secret key, such that another
/// key is held under the identifier of the key pair of that secret key.
pub open spec fn refuses_some_multi_sig_key(keys: KeyMap) -> bool {
    exists|material: Seq<u8>|
        material.len() == 32 && (#[trigger] multi_keygen_result(keys, material)).0 is Err
}

/// A vault that holds no key refuses no key pair that it generated.
pub proof fn lemma_empty_vault_refuses_no_key(keys: KeyMap)
    requires
        keys == Map::<Seq<u8>, TaggedBytes>::empty(),
    ensures
        !refuses_some_ed25519_key(keys),
        !refuses_some_multi_sig_key(keys),
{
}

/// What follows from how generating an Ed25519 key pair went: where it
/// succeeded, the public key is an Ed25519 key, its secret key is held
/// under its identifier, and a key pair was stored; where it was refused,
/// the vault holds what it held.
pub proof fn lemma_basic_keygen_outcome(
    before: KeyMap,
    result: Result<TaggedBytes, KeygenErrorView>,
    after: KeyMap,
)
    requires
        basic_keygen_outcome(before, AlgorithmId::Ed25519, result, after),
    ensures
        result matches Ok(public) ==> {
            &&& generated_ed25519_key(before, after)
            &&& public.algorithm == AlgorithmId::Ed25519
            &&& after.contains_key(key_id_of(public))
            &&& after[key_id_of(public)].algorithm == AlgorithmId::Ed25519
            &&& after[key_id_of(public)].bytes.len() == 32
            &&& ed25519::public_key_of(after[key_id_of(public)].bytes) == public.bytes
        },
        result is Err ==> after == before && refuses_some_ed25519_key(before),
{
    let seed = choose|seed: Seq<u8>|
        seed.len() == 32 && (result, after) == #[trigger] store_key_result(
            before,
            ed25519_public(seed),
            ed25519_secret(seed),
        );
    assert(store_key_result(before, ed25519_public(seed), ed25519_secret(seed)) == (result, after));
}

/// What follows from how generating a multi-signature key pair went: where
/// it succeeded, the public key is a MultiBls12_381 key and a key pair was
/// stored; where it was refused, the vault holds what it held.
pub proof fn lemma_multi_keygen_outcome(
    before: KeyMap,
    result: Result<(TaggedBytes, TaggedBytes), KeygenErrorView>,
    after: KeyMap,
)
    requires
        multi_keygen_outcome(before, AlgorithmId::MultiBls12_381, result, after),
    ensures
        result matches Ok(pair) ==> {
            &&& generated_multi_sig_key(before, after)
            &&& pair.0.algorithm == AlgorithmId::MultiBls12_381
            &&& pair.1.algorithm == AlgorithmId::MultiBls12_381
        },
        result is Err ==> after == before && refuses_some_multi_sig_key(before),
{
    let material = choose|material: Seq<u8>|
        material.len() == 32 && (result, after) == #[trigger] multi_keygen_result(before, material);
    assert(multi_keygen_result(before, material) == (result, after));
}

/// The view of a public key with its proof of possession.
pub open spec fn key_with_pop_view<E: View>(result: Result<(CspPublicKey, CspPop), E>) -> Result<
    (TaggedBytes, TaggedBytes),
    E::V,
> {
    match result {
        Ok((public, pop)) => Ok((public@, pop@)),
        Err(error) => Err(error@),
    }
}

/// Whether the secret key of a multi-signature public key is held under
/// the identifier of the public key, ready to sign.
pub open spec fn holds_multi_sig_key(keys: KeyMap, public: TaggedBytes) -> bool {
    let key_id = key_id_of(public);
    &&& keys.contains_key(key_id)
    &&& keys[key_id].algorithm == AlgorithmId::MultiBls12_381
    &&& keys[key_id].bytes.len() == bls12_381::SECRET_KEY_LEN
    &&& bls12_381::public_key_of(keys[key_id].bytes) == public.bytes
}

/// The operations of a vault. Keys are asked for by identifier; no secret
/// key is ever an argument or a result.
///
/// A vault in the calling process never returns `TransientInternalError`;
/// one in another process returns it when that process cannot be reached,
/// and says nothing more of such a call.
pub trait CspVault {
    /// The node's secret keys that the vault holds, by identifier.
    spec fn node_keys(&self) -> KeyMap;

    /// Whether the vault is in order.
    spec fn well_formed(&self) -> bool;

    /// Whether the vault lives in the calling process, where it is always
    /// reached.
    spec fn in_process(&self) -> bool;

    /// Generates a key pair for single-key signatures, stores the secret key
    /// under the identifier of the public key, and returns the public key.
    fn gen_key_pair(&mut self, algorithm_id: AlgorithmId) -> (generated: Result<
        CspPublicKey,
        CspBasicSignatureKeygenError,
    >)
        requires
            old(self).well_formed(),
        ensures
            final(self).well_formed(),
            final(self).in_process() == old(self).in_process(),
            if is_transient_keygen_error(result_view(generated)) {
                !old(self).in_process()
            } else {
                basic_keygen_outcome(
                    old(self).node_keys(),
                    algorithm_id,
                    result_view(generated),
                    final(self).node_keys(),
                )
            },
    ;

    /// Signs a message with the key held under an identifier. A signature
    /// that is returned is accepted under the public key of the key held.
    fn sign(&self, algorithm_id: AlgorithmId, message: &[u8], key_id: KeyId) -> (signed: Result<
        CspSignature,
        CspBasicSignatureError,
    >)
        requires
            self.well_formed(),
        ensures
            if is_transient_signature_error(result_view(signed)) {
                !self.in_process()
            } else {
                result_view(signed) == basic_sign_result(
                    self.node_keys(),
                    algorithm_id,
                    message@,
                    key_id@,
                )
            },
            signed matches Ok(signature) ==> ed25519::accepts(
                ed25519::public_key_of(self.node_keys()[key_id@].bytes),
                message@,
                signature@.bytes,
            ),
    ;

    /// Generates a key pair for multi-signatures, stores the secret key
    /// under the identifier of the public key, and returns the public key
    /// with a proof that its secret key is known: the signature of the
    /// secret key on the public key, which is accepted under the public
    /// key.
    fn gen_key_pair_with_pop(&mut self, algorithm_id: AlgorithmId) -> (generated: Result<
        (CspPublicKey, CspPop),
        CspMultiSignatureKeygenError,
    >)
        requires
            old(self).well_formed(),
        ensures
            final(self).well_formed(),
            final(self).in_process() == old(self).in_process(),
            if is_transient_keygen_error(key_with_pop_view(generated)) {
                !old(self).in_process()
            } else {
                multi_keygen_outcome(
                    old(self).node_keys(),
                    algorithm_id,
                    key_with_pop_view(generated),
                    final(self).node_keys(),
                )
            },
            generated matches Ok((public, pop)) ==> holds_multi_sig_key(
                final(self).node_keys(),
                public@,
            ) && bls12_381::accepts(
                public@.bytes,
                public@.bytes,
                MULTI_SIG_POP_DOMAIN.spec_bytes(),
                pop@.bytes,
            ),
    ;

    /// Signs a message with the multi-signature key held under an
    /// identifier. A signature that is returned is accepted under the
    /// public key of the key held.
    fn multi_sign(&self, algorithm_id: AlgorithmId, message: &[u8], key_id: KeyId) -> (signed:
        Result<CspSignature, CspMultiSignatureError>)
        requires
            self.well_formed(),
        ensures
            if is_transient_signature_error(result_view(signed)) {
                !self.in_process()
            } else {
                result_view(signed) == multi_sign_result(
                    self.node_keys(),
                    algorithm_id,
                    message@,
                    key_id@,
                )
            },
            signed matches Ok(signature) ==> bls12_381::accepts(
                bls12_381::public_key_of(self.node_keys()[key_id@].bytes),
                message@,
                MULTI_SIG_DOMAIN.spec_bytes(),
                signature@.bytes,
            ),
    ;

    /// Signs a message of a TLS handshake with the TLS key held under an
    /// identifier. A signature that is returned is accepted under the
    /// public key of the key held.
    fn tls_sign(&self, message: &[u8], key_id: &KeyId) -> (signed: Result<
        CspSignature,
        CspBasicSignatureError,
    >)
        requires
            self.well_formed(),
        ensures
            if is_transient_signature_error(result_view(signed)) {
                !self.in_process()
            } else {
                result_view(signed) == tls_sign_result(self.node_keys(), message@, key_id@)
            },
            signed matches Ok(signature) ==> ed25519::accepts(
                ed25519::public_key_of(self.node_keys()[key_id@].bytes),
                message@,
                signature@.bytes,
            ),
    ;

    /// Whether a key is held under an identifier.
    fn sks_contains(&self, key_id: &KeyId) -> (held: Result<bool, CspSecretKeyStoreContainsError>)
        requires
            self.well_formed(),
        ensures
            match held {
                Ok(held) => held == self.node_keys().contains_key(key_id@),
                Err(_) => !self.in_process(),
            },
    ;
}

} // verus!
