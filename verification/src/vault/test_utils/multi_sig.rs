//! Checks of key generation and signing with multi-signature keys.
//!
//! Each check runs a vault through a few calls and says whether it answered
//! as a vault must. A vault in the calling process that holds no key yet
//! passes every one of them; a vault in another process passes unless it
//! cannot be reached. What a vault answered is judged by the functions at
//! the head of this file.

use crate::algorithm::AlgorithmId;
use crate::api::verify_proof_of_possession;
use crate::api::verify_signature;
use crate::bytes::same_text;
use crate::key_id::public_key_hash_as_key_id;
use crate::types::CspPop;
use crate::types::CspPublicKey;
use crate::types::CspSignature;
use crate::types::TaggedBytes;
use crate::vault::api::generated_ed25519_key;
use crate::vault::api::refuses_some_ed25519_key;
use crate::vault::api::generated_multi_sig_key;
use crate::vault::api::refuses_some_multi_sig_key;
use crate::vault::api::key_with_pop_view;
use crate::vault::api::lemma_basic_keygen_outcome;
use crate::vault::api::lemma_multi_keygen_outcome;
use crate::vault::api::result_view;
use crate::vault::api::CspMultiSignatureError;
use crate::vault::api::CspMultiSignatureKeygenError;
use crate::vault::api::CspVault;
use crate::vault::api::KeygenErrorView;
use crate::vault::api::SignatureErrorView;
use vstd::prelude::*;

verus! {

/// Whether generating a key pair gave a MultiBls12_381 public key.
pub fn is_multi_bls12_381_key(
    generated: &Result<(CspPublicKey, CspPop), CspMultiSignatureKeygenError>,
) -> (yes: bool)
    ensures
        yes == (generated matches Ok(pair) && pair.0@.algorithm == AlgorithmId::MultiBls12_381),
{
    match generated {
        Ok((CspPublicKey::MultiBls12_381(_), _)) => true,
        _ => false,
    }
}

/// Whether generating a key pair was refused because the given algorithm is
/// not supported.
pub fn is_unsupported_multi_keygen(
    generated: &Result<(CspPublicKey, CspPop), CspMultiSignatureKeygenError>,
    algorithm_id: AlgorithmId,
) -> (yes: bool)
    ensures
        yes == (generated matches Err(error) && error@
            == (KeygenErrorView::UnsupportedAlgorithm { algorithm: algorithm_id })),
{
    match generated {
        Err(CspMultiSignatureKeygenError::UnsupportedAlgorithm { algorithm }) => *algorithm
            == algorithm_id,
        _ => false,
    }
}

/// Whether signing was refused because the given algorithm is not
/// supported.
pub fn is_unsupported_multi_signing(
    signed: &Result<CspSignature, CspMultiSignatureError>,
    algorithm_id: AlgorithmId,
) -> (yes: bool)
    ensures
        yes == (signed matches Err(error) && error@
            == (SignatureErrorView::UnsupportedAlgorithm { algorithm: algorithm_id })),
{
    match signed {
        Err(CspMultiSignatureError::UnsupportedAlgorithm { algorithm }) => *algorithm
            == algorithm_id,
        _ => false,
    }
}

/// Whether signing was refused because the key held is an `Ed25519` key
/// where a MultiBls12_381 key is asked for.
pub fn is_wrong_key_type_ed25519(signed: &Result<CspSignature, CspMultiSignatureError>) -> (yes:
    bool)
    ensures
        yes == (signed matches Err(error) && error@
            == (SignatureErrorView::WrongSecretKeyType {
            algorithm: AlgorithmId::MultiBls12_381,
            stored_variant: "Ed25519"@,
        })),
{
    match signed {
        Err(CspMultiSignatureError::WrongSecretKeyType { algorithm, stored_variant }) => {
            *algorithm == AlgorithmId::MultiBls12_381 && same_text(
                stored_variant.as_str(),
                "Ed25519",
            )
        },
        _ => false,
    }
}

/// Whether the vault generates a MultiBls12_381 key pair. A check that
/// passes has left a new key pair in the vault; one that fails on a vault in
/// the calling process has left the vault as it was.
pub fn should_generate_multi_bls12_381_key_pair<V: CspVault>(csp_vault: &mut V) -> (ok: bool)
    requires
        old(csp_vault).well_formed(),
    ensures
        final(csp_vault).well_formed(),
        final(csp_vault).in_process() == old(csp_vault).in_process(),
        old(csp_vault).in_process() && old(csp_vault).node_keys() == Map::<
            Seq<u8>,
            TaggedBytes,
        >::empty() ==> ok,
        ok ==> generated_multi_sig_key(old(csp_vault).node_keys(), final(csp_vault).node_keys()),
        !ok && old(csp_vault).in_process() ==> final(csp_vault).node_keys() == old(
            csp_vault,
        ).node_keys(),
        !ok && old(csp_vault).in_process() ==> refuses_some_multi_sig_key(old(csp_vault).node_keys()),
{
    let generated = csp_vault.gen_key_pair_with_pop(AlgorithmId::MultiBls12_381);
    proof {
        if !crate::vault::api::is_transient_keygen_error(key_with_pop_view(generated)) {
            lemma_multi_keygen_outcome(
                old(csp_vault).node_keys(),
                key_with_pop_view(generated),
                csp_vault.node_keys(),
            );
        }
    }
    is_multi_bls12_381_key(&generated)
}

/// Whether the vault refuses to generate a key pair for multi-signatures
/// with every algorithm but MultiBls12_381, and names the algorithm in its
/// refusal. A vault in the calling process passes; a check that passes has
/// left the vault as it was.
pub fn should_fail_to_generate_multi_sig_key_for_wrong_algorithm_id<V: CspVault>(
    csp_vault: &mut V,
) -> (ok: bool)
    requires
        old(csp_vault).well_formed(),
    ensures
        final(csp_vault).well_formed(),
        final(csp_vault).in_process() == old(csp_vault).in_process(),
        old(csp_vault).in_process() ==> ok,
        ok ==> final(csp_vault).node_keys() == old(csp_vault).node_keys(),
{
    let algorithms = AlgorithmId::iter();
    let mut ok = true;
    let mut i: usize = 0;
    while i < algorithms.len()
        invariant
            i <= algorithms@.len(),
            csp_vault.well_formed(),
            csp_vault.in_process() == old(csp_vault).in_process(),
            old(csp_vault).in_process() ==> ok,
            ok ==> csp_vault.node_keys() == old(csp_vault).node_keys(),
        decreases algorithms@.len() - i,
    {
        let algorithm_id = algorithms[i];
        match algorithm_id {
            AlgorithmId::MultiBls12_381 => {},
            _ => {
                let generated = csp_vault.gen_key_pair_with_pop(algorithm_id);
                if !is_unsupported_multi_keygen(&generated, algorithm_id) {
                    ok = false;
                }
            },
        }
        i = i + 1;
    }
    ok
}

/// Whether the vault generates a MultiBls12_381 key pair with a proof of
/// possession that is accepted under the public key. A check that passes
/// has left a new key pair in the vault; one that fails on a vault in the
/// calling process has left the vault as it was.
pub fn should_generate_verifiable_pop<V: CspVault>(csp_vault: &mut V) -> (ok: bool)
    requires
        old(csp_vault).well_formed(),
    ensures
        final(csp_vault).well_formed(),
        final(csp_vault).in_process() == old(csp_vault).in_process(),
        old(csp_vault).in_process() && old(csp_vault).node_keys() == Map::<
            Seq<u8>,
            TaggedBytes,
        >::empty() ==> ok,
        ok ==> generated_multi_sig_key(old(csp_vault).node_keys(), final(csp_vault).node_keys()),
        !ok && old(csp_vault).in_process() ==> final(csp_vault).node_keys() == old(
            csp_vault,
        ).node_keys(),
        !ok && old(csp_vault).in_process() ==> refuses_some_multi_sig_key(old(csp_vault).node_keys()),
{
    let generated = csp_vault.gen_key_pair_with_pop(AlgorithmId::MultiBls12_381);
    proof {
        if !crate::vault::api::is_transient_keygen_error(key_with_pop_view(generated)) {
            lemma_multi_keygen_outcome(
                old(csp_vault).node_keys(),
                key_with_pop_view(generated),
                csp_vault.node_keys(),
            );
        }
    }
    let (public_key, pop) = match generated {
        Ok(generated) => generated,
        Err(_) => {
            return false;
        },
    };
    verify_proof_of_possession(&pop, AlgorithmId::MultiBls12_381, &public_key).is_ok()
}

/// Whether the vault generates a MultiBls12_381 key pair and signs the
/// message with it, and both the signature and the proof of possession are
/// accepted under the public key. A check that passes has left a new key
/// pair in the vault; one that fails on a vault in the calling process has
/// left the vault as it was.
pub fn should_multi_sign_and_verify_with_generated_key<V: CspVault>(
    csp_vault: &mut V,
    message: &[u8],
) -> (ok: bool)
    requires
        old(csp_vault).well_formed(),
    ensures
        final(csp_vault).well_formed(),
        final(csp_vault).in_process() == old(csp_vault).in_process(),
        old(csp_vault).in_process() && old(csp_vault).node_keys() == Map::<
            Seq<u8>,
            TaggedBytes,
        >::empty() ==> ok,
        ok ==> generated_multi_sig_key(old(csp_vault).node_keys(), final(csp_vault).node_keys()),
        !ok && old(csp_vault).in_process() ==> final(csp_vault).node_keys() == old(
            csp_vault,
        ).node_keys(),
        !ok && old(csp_vault).in_process() ==> refuses_some_multi_sig_key(old(csp_vault).node_keys()),
{
    let generated = csp_vault.gen_key_pair_with_pop(AlgorithmId::MultiBls12_381);
    proof {
        if !crate::vault::api::is_transient_keygen_error(key_with_pop_view(generated)) {
            lemma_multi_keygen_outcome(
                old(csp_vault).node_keys(),
                key_with_pop_view(generated),
                csp_vault.node_keys(),
            );
        }
    }
    let (public_key, pop) = match generated {
        Ok(generated) => generated,
        Err(_) => {
            return false;
        },
    };
    let key_id = public_key_hash_as_key_id(&public_key);
    let signature = match csp_vault.multi_sign(AlgorithmId::MultiBls12_381, message, key_id) {
        Ok(signature) => signature,
        Err(_) => {
            return false;
        },
    };
    let signature_ok = verify_signature(
        &signature,
        message,
        AlgorithmId::MultiBls12_381,
        &public_key,
    ).is_ok();
    let pop_ok = verify_proof_of_possession(
        &pop,
        AlgorithmId::MultiBls12_381,
        &public_key,
    ).is_ok();
    signature_ok && pop_ok
}

/// Whether the vault, once it holds a MultiBls12_381 key, refuses to sign
/// with it under every algorithm but MultiBls12_381, and names the
/// algorithm in its refusal. A check that passes has left a new key pair in
/// the vault; one that fails on a vault in the calling process has left the
/// vault as it was.
pub fn should_not_multi_sign_with_unsupported_algorithm_id<V: CspVault>(csp_vault: &mut V) -> (ok:
    bool)
    requires
        old(csp_vault).well_formed(),
    ensures
        final(csp_vault).well_formed(),
        final(csp_vault).in_process() == old(csp_vault).in_process(),
        old(csp_vault).in_process() && old(csp_vault).node_keys() == Map::<
            Seq<u8>,
            TaggedBytes,
        >::empty() ==> ok,
        ok ==> generated_multi_sig_key(old(csp_vault).node_keys(), final(csp_vault).node_keys()),
        !ok && old(csp_vault).in_process() ==> final(csp_vault).node_keys() == old(
            csp_vault,
        ).node_keys(),
        !ok && old(csp_vault).in_process() ==> refuses_some_multi_sig_key(old(csp_vault).node_keys()),
{
    let generated = csp_vault.gen_key_pair_with_pop(AlgorithmId::MultiBls12_381);
    proof {
        if !crate::vault::api::is_transient_keygen_error(key_with_pop_view(generated)) {
            lemma_multi_keygen_outcome(
                old(csp_vault).node_keys(),
                key_with_pop_view(generated),
                csp_vault.node_keys(),
            );
        }
    }
    let public_key = match generated {
        Ok((public_key, _)) => public_key,
        Err(_) => {
            return false;
        },
    };
    let ghost after = csp_vault.node_keys();
    let key_id = public_key_hash_as_key_id(&public_key);
    let message = [31u8; 41];
    let algorithms = AlgorithmId::iter();
    let mut ok = true;
    let mut i: usize = 0;
    while i < algorithms.len()
        invariant
            i <= algorithms@.len(),
            csp_vault.well_formed(),
            csp_vault.node_keys() == after,
            csp_vault.in_process() == old(csp_vault).in_process(),
            csp_vault.in_process() ==> ok,
        decreases algorithms@.len() - i,
    {
        let algorithm_id = algorithms[i];
        match algorithm_id {
            AlgorithmId::MultiBls12_381 => {},
            _ => {
                let signed = csp_vault.multi_sign(algorithm_id, message.as_slice(), key_id);
                if !is_unsupported_multi_signing(&signed, algorithm_id) {
                    ok = false;
                }
            },
        }
        i = i + 1;
    }
    ok
}

/// Whether the vault refuses to make a multi-signature with an Ed25519 key
/// that it generated, and says that the key held is an `Ed25519` key. A
/// check that passes has left a new Ed25519 key pair in the vault; one that
/// fails on a vault in the calling process has left the vault as it was.
pub fn should_not_multi_sign_if_secret_key_in_store_has_wrong_type<V: CspVault>(
    csp_vault: &mut V,
) -> (ok: bool)
    requires
        old(csp_vault).well_formed(),
    ensures
        final(csp_vault).well_formed(),
        final(csp_vault).in_process() == old(csp_vault).in_process(),
        old(csp_vault).in_process() && old(csp_vault).node_keys() == Map::<
            Seq<u8>,
            TaggedBytes,
        >::empty() ==> ok,
        ok ==> generated_ed25519_key(old(csp_vault).node_keys(), final(csp_vault).node_keys()),
        !ok && old(csp_vault).in_process() ==> final(csp_vault).node_keys() == old(
            csp_vault,
        ).node_keys(),
        !ok && old(csp_vault).in_process() ==> refuses_some_ed25519_key(old(csp_vault).node_keys()),
{
    let generated = csp_vault.gen_key_pair(AlgorithmId::Ed25519);
    proof {
        if !crate::vault::api::is_transient_keygen_error(result_view(generated)) {
            lemma_basic_keygen_outcome(
                old(csp_vault).node_keys(),
                result_view(generated),
                csp_vault.node_keys(),
            );
        }
    }
    let wrong_public_key = match generated {
        Ok(public_key) => public_key,
        Err(_) => {
            return false;
        },
    };
    let message = [31u8; 41];
    let signed = csp_vault.multi_sign(
        AlgorithmId::MultiBls12_381,
        message.as_slice(),
        public_key_hash_as_key_id(&wrong_public_key),
    );
    is_wrong_key_type_ed25519(&signed)
}

} // verus!
