//! What holds of every vault, whatever it holds and wherever it lives.

use crate::algorithm::algorithm_name;
use crate::algorithm::AlgorithmId;
use crate::key_id::key_id_of;
use crate::types::TaggedBytes;
use crate::vault::api::basic_keygen_outcome;
use crate::vault::api::basic_sign_result;
use crate::vault::api::ed25519_public;
use crate::vault::api::ed25519_secret;
use crate::vault::api::multi_keygen_outcome;
use crate::vault::api::multi_sign_result;
use crate::vault::api::store_key_result;
use crate::vault::api::KeyMap;
use crate::vault::api::KeygenErrorView;
use crate::vault::api::SignatureErrorView;
use vstd::prelude::*;

verus! {

/// Signing is determined by the key and the message: two vaults that hold
/// the same key under an identifier, or both none, return the same for the
/// same algorithm, message and identifier, whatever else they hold and
/// however often they are asked.
pub proof fn lemma_signing_is_determined(
    one: KeyMap,
    other: KeyMap,
    algorithm: AlgorithmId,
    message: Seq<u8>,
    key_id: Seq<u8>,
)
    requires
        one.contains_key(key_id) == other.contains_key(key_id),
        one.contains_key(key_id) ==> one[key_id] == other[key_id],
    ensures
        basic_sign_result(one, algorithm, message, key_id) == basic_sign_result(
            other,
            algorithm,
            message,
            key_id,
        ),
        multi_sign_result(one, algorithm, message, key_id) == multi_sign_result(
            other,
            algorithm,
            message,
            key_id,
        ),
{
}

/// Signing with an algorithm outside the family of the operation is
/// refused, and the refusal names the algorithm, whatever the vault holds
/// and whatever identifier is given.
pub proof fn lemma_signing_refuses_other_algorithms(
    keys: KeyMap,
    algorithm: AlgorithmId,
    message: Seq<u8>,
    key_id: Seq<u8>,
)
    ensures
        algorithm != AlgorithmId::Ed25519 ==> basic_sign_result(keys, algorithm, message, key_id)
            == Err::<TaggedBytes, _>(SignatureErrorView::UnsupportedAlgorithm { algorithm }),
        algorithm != AlgorithmId::MultiBls12_381 ==> multi_sign_result(
            keys,
            algorithm,
            message,
            key_id,
        ) == Err::<TaggedBytes, _>(SignatureErrorView::UnsupportedAlgorithm { algorithm }),
{
}

/// Generating a key pair for single-key signatures with an algorithm other
/// than Ed25519 is refused, the refusal names the algorithm, and the vault
/// holds what it held.
pub proof fn lemma_basic_keygen_refuses_other_algorithms(
    before: KeyMap,
    algorithm: AlgorithmId,
    result: Result<TaggedBytes, KeygenErrorView>,
    after: KeyMap,
)
    requires
        algorithm != AlgorithmId::Ed25519,
        basic_keygen_outcome(before, algorithm, result, after),
    ensures
        result == Err::<TaggedBytes, _>(KeygenErrorView::UnsupportedAlgorithm { algorithm }),
        after == before,
{
}

/// Generating a key pair for multi-signatures with an algorithm other than
/// MultiBls12_381 is refused, the refusal names the algorithm, and the
/// vault holds what it held.
pub proof fn lemma_multi_keygen_refuses_other_algorithms(
    before: KeyMap,
    algorithm: AlgorithmId,
    result: Result<(TaggedBytes, TaggedBytes), KeygenErrorView>,
    after: KeyMap,
)
    requires
        algorithm != AlgorithmId::MultiBls12_381,
        multi_keygen_outcome(before, algorithm, result, after),
    ensures
        result == Err::<(TaggedBytes, TaggedBytes), _>(
            KeygenErrorView::UnsupportedAlgorithm { algorithm },
        ),
        after == before,
{
}

/// A multi-signature is refused where the key held under the identifier is
/// for another algorithm, and the refusal names the algorithm of the key
/// held.
pub proof fn lemma_multi_sign_refuses_key_of_other_algorithm(
    keys: KeyMap,
    message: Seq<u8>,
    key_id: Seq<u8>,
)
    requires
        keys.contains_key(key_id),
        keys[key_id].algorithm != AlgorithmId::MultiBls12_381,
    ensures
        multi_sign_result(keys, AlgorithmId::MultiBls12_381, message, key_id) == Err::<
            TaggedBytes,
            _,
        >(
            SignatureErrorView::WrongSecretKeyType {
                algorithm: AlgorithmId::MultiBls12_381,
                stored_variant: algorithm_name(keys[key_id].algorithm),
            },
        ),
{
}

/// A multi-signature with an Ed25519 key that the vault generated is
/// refused as made with a key of type `Ed25519`.
pub proof fn lemma_multi_sign_refuses_generated_ed25519_key(
    before: KeyMap,
    seed: Seq<u8>,
    message: Seq<u8>,
)
    requires
        store_key_result(before, ed25519_public(seed), ed25519_secret(seed)).0 is Ok,
    ensures
        multi_sign_result(
            store_key_result(before, ed25519_public(seed), ed25519_secret(seed)).1,
            AlgorithmId::MultiBls12_381,
            message,
            key_id_of(ed25519_public(seed)),
        ) == Err::<TaggedBytes, _>(
            SignatureErrorView::WrongSecretKeyType {
                algorithm: AlgorithmId::MultiBls12_381,
                stored_variant: "Ed25519"@,
            },
        ),
{
}

/// Signing with an identifier under which the vault holds nothing is
/// refused as a key that is not found.
pub proof fn lemma_signing_refuses_unknown_key(keys: KeyMap, message: Seq<u8>, key_id: Seq<u8>)
    requires
        !keys.contains_key(key_id),
    ensures
        basic_sign_result(keys, AlgorithmId::Ed25519, message, key_id) == Err::<TaggedBytes, _>(
            SignatureErrorView::SecretKeyNotFound { algorithm: AlgorithmId::Ed25519, key_id },
        ),
        multi_sign_result(keys, AlgorithmId::MultiBls12_381, message, key_id) == Err::<
            TaggedBytes,
            _,
        >(
            SignatureErrorView::SecretKeyNotFound {
                algorithm: AlgorithmId::MultiBls12_381,
                key_id,
            },
        ),
{
}

/// Storing a key pair changes no key that was held: what is held under an
/// identifier before is held under it after, whether the key pair was
/// stored or refused. So no signature changes for a key being generated in
/// between.
pub proof fn lemma_storing_keeps_held_keys(
    before: KeyMap,
    public: TaggedBytes,
    secret: TaggedBytes,
    key_id: Seq<u8>,
)
    requires
        before.contains_key(key_id),
    ensures
        store_key_result(before, public, secret).1.contains_key(key_id),
        store_key_result(before, public, secret).1[key_id] == before[key_id],
{
}

/// Signing through a provider is determined by the key and the message:
/// providers whose vaults hold the same key under an identifier, or both
/// none, return the same for the same algorithm, message and identifier,
/// unless a vault is not reached.
pub proof fn lemma_provider_signing_is_determined(
    one: KeyMap,
    other: KeyMap,
    algorithm: AlgorithmId,
    message: Seq<u8>,
    key_id: Seq<u8>,
)
    requires
        one.contains_key(key_id) == other.contains_key(key_id),
        one.contains_key(key_id) ==> one[key_id] == other[key_id],
    ensures
        crate::api::sign_result(one, algorithm, message, key_id) == crate::api::sign_result(
            other,
            algorithm,
            message,
            key_id,
        ),
{
}

/// A key pair that was stored can be signed with: after storing the key
/// pair of a seed, single-key signing under the identifier of its public
/// key gives the signature of that seed on the message.
pub proof fn lemma_stored_key_signs(before: KeyMap, seed: Seq<u8>, message: Seq<u8>)
    requires
        seed.len() == 32,
        store_key_result(before, ed25519_public(seed), ed25519_secret(seed)).0 is Ok,
    ensures
        basic_sign_result(
            store_key_result(before, ed25519_public(seed), ed25519_secret(seed)).1,
            AlgorithmId::Ed25519,
            message,
            key_id_of(ed25519_public(seed)),
        ) == Ok::<_, SignatureErrorView>(
            TaggedBytes {
                algorithm: AlgorithmId::Ed25519,
                bytes: crate::ed25519::signature_of(seed, message),
            },
        ),
{
}

} // verus!
