//! Checks of key generation and signing with single keys.
//!
//! Each check runs a vault through a few calls and says whether it answered
//! as a vault must. A vault in the calling process that holds no key yet
//! passes every one of them; a vault in another process passes unless it
//! cannot be reached. What a vault answered is judged by the functions at
//! the head of this file.

use crate::algorithm::AlgorithmId;
use crate::api::verify_signature;
use crate::ed25519;
use crate::key_id::key_id_of;
use crate::key_id::public_key_hash_as_key_id;
use crate::types::CspPublicKey;
use crate::types::CspSignature;
use crate::types::TaggedBytes;
use crate::vault::api::basic_sign_result;
use crate::vault::api::ed25519_public;
use crate::vault::api::generated_ed25519_key;
use crate::vault::api::refuses_some_ed25519_key;
use crate::vault::api::lemma_basic_keygen_outcome;
use crate::vault::api::result_view;
use crate::vault::api::CspBasicSignatureError;
use crate::vault::api::CspBasicSignatureKeygenError;
use crate::vault::api::CspVault;
use crate::vault::api::KeygenErrorView;
use vstd::prelude::*;
use vstd::string::StringSliceAdditionalSpecFns;

verus! {

/// The message that is signed where any message will do.
pub const SAMPLE_MESSAGE: &'static str = "sample message";

/// The message that is signed with a key that is not there.
pub const SOME_MESSAGE: &'static str = "some message";

/// Whether generating a key pair gave an Ed25519 public key.
pub fn is_ed25519_key(generated: &Result<CspPublicKey, CspBasicSignatureKeygenError>) -> (yes: bool)
    ensures
        yes == (generated matches Ok(key) && key@.algorithm == AlgorithmId::Ed25519),
{
    match generated {
        Ok(CspPublicKey::Ed25519(_)) => true,
        _ => false,
    }
}

/// Whether generating a key pair was refused because the given algorithm is
/// not supported.
pub fn is_unsupported_keygen(
    generated: &Result<CspPublicKey, CspBasicSignatureKeygenError>,
    algorithm_id: AlgorithmId,
) -> (yes: bool)
    ensures
        yes == (generated matches Err(error) && error@
            == (KeygenErrorView::UnsupportedAlgorithm { algorithm: algorithm_id })),
{
    match generated {
        Err(CspBasicSignatureKeygenError::UnsupportedAlgorithm { algorithm }) => *algorithm
            == algorithm_id,
        _ => false,
    }
}

/// Whether signing was refused because an algorithm is not supported.
pub fn is_unsupported_signing(signed: &Result<CspSignature, CspBasicSignatureError>) -> (yes: bool)
    ensures
        yes == (signed matches Err(error) && error@ is UnsupportedAlgorithm),
{
    match signed {
        Err(CspBasicSignatureError::UnsupportedAlgorithm { .. }) => true,
        _ => false,
    }
}

/// Whether the vault generates an Ed25519 key pair. A check that passes has
/// left a new key pair in the vault; one that fails on a vault in the
/// calling process has left the vault as it was.
pub fn should_generate_ed25519_key_pair<V: CspVault>(csp_vault: &mut V) -> (ok: bool)
    requires
        old(csp_vault).well_formed(),
    ensures
        final(csp_vault).well_formed(),
        final(csp_vault).in_process() == old(csp_vault).in_process(),
        old(csp_vault).in_process() && old(csp_vault).node_keys() == Map::<
            Seq<u8>,
            TaggedBytes,
        >::empty() ==> ok,
        ok ==> generated_ed25519_key(old(csp_vault).node_keys(), final(csp_vault).node_keys()),
        !ok && old(csp_vault).in_process() ==> final(csp_vault).node_keys() == old(
            csp_vault,
        ).node_keys(),
        !ok && old(csp_vault).in_process() ==> refuses_some_ed25519_key(old(csp_vault).node_keys()),
{
    let generated = csp_vault.gen_key_pair(AlgorithmId::Ed25519);
    proof {
        if !crate::vault::api::is_transient_keygen_error(result_view(generated)) {
            lemma_basic_keygen_outcome(
                old(csp_vault).node_keys(),
                result_view(generated),
                csp_vault.node_keys(),
            );
        }
    }
    is_ed25519_key(&generated)
}

/// Whether the vault refuses to generate a key pair for single-key
/// signatures with every algorithm but Ed25519, and names the algorithm in
/// its refusal. A vault in the calling process passes; a check that passes
/// has left the vault as it was.
pub fn should_fail_to_generate_basic_sig_key_for_wrong_algorithm_id<V: CspVault>(
    csp_vault: &mut V,
) -> (ok: bool)
    requires
        old(csp_vault).well_formed(),
    ensures
        final(csp_vault).well_formed(),
        final(csp_vault).in_process() == old(csp_vault).in_process(),
        old(csp_vault).in_process() ==> ok,
        ok ==> final(csp_vault).node_keys() == old(csp_vault).node_keys(),
{
    let algorithms = AlgorithmId::iter();
    let mut ok = true;
    let mut i: usize = 0;
    while i < algorithms.len()
        invariant
            i <= algorithms@.len(),
            csp_vault.well_formed(),
            csp_vault.in_process() == old(csp_vault).in_process(),
            old(csp_vault).in_process() ==> ok,
            ok ==> csp_vault.node_keys() == old(csp_vault).node_keys(),
        decreases algorithms@.len() - i,
    {
        let algorithm_id = algorithms[i];
        match algorithm_id {
            AlgorithmId::Ed25519 => {},
            _ => {
                let generated = csp_vault.gen_key_pair(algorithm_id);
                if !is_unsupported_keygen(&generated, algorithm_id) {
                    ok = false;
                }
            },
        }
        i = i + 1;
    }
    ok
}

/// Whether the vault generates an Ed25519 key pair and signs the message
/// with it, and the signature is accepted under the public key. A check
/// that passes has left a new key pair in the vault; one that fails on a
/// vault in the calling process has left the vault as it was.
pub fn should_sign_and_verify_with_generated_ed25519_key_pair<V: CspVault>(
    csp_vault: &mut V,
    message: &[u8],
) -> (ok: bool)
    requires
        old(csp_vault).well_formed(),
    ensures
        final(csp_vault).well_formed(),
        final(csp_vault).in_process() == old(csp_vault).in_process(),
        old(csp_vault).in_process() && old(csp_vault).node_keys() == Map::<
            Seq<u8>,
            TaggedBytes,
        >::empty() ==> ok,
        ok ==> generated_ed25519_key(old(csp_vault).node_keys(), final(csp_vault).node_keys()),
        !ok && old(csp_vault).in_process() ==> final(csp_vault).node_keys() == old(
            csp_vault,
        ).node_keys(),
        !ok && old(csp_vault).in_process() ==> refuses_some_ed25519_key(old(csp_vault).node_keys()),
{
    let generated = csp_vault.gen_key_pair(AlgorithmId::Ed25519);
    proof {
        if !crate::vault::api::is_transient_keygen_error(result_view(generated)) {
            lemma_basic_keygen_outcome(
                old(csp_vault).node_keys(),
                result_view(generated),
                csp_vault.node_keys(),
            );
        }
    }
    let public_key = match generated {
        Ok(public_key) => public_key,
        Err(_) => {
            return false;
        },
    };
    let key_id = public_key_hash_as_key_id(&public_key);
    let signature = match csp_vault.sign(AlgorithmId::Ed25519, message, key_id) {
        Ok(signature) => signature,
        Err(_) => {
            return false;
        },
    };
    verify_signature(&signature, message, AlgorithmId::Ed25519, &public_key).is_ok()
}

/// Whether the vault, once it holds an Ed25519 key, refuses to sign with it
/// under every algorithm but Ed25519, as an algorithm that it does not
/// support. A check that passes has left a new key pair in the vault; one
/// that fails on a vault in the calling process has left the vault as it
/// was.
pub fn should_not_basic_sign_with_unsupported_algorithm_id<V: CspVault>(csp_vault: &mut V) -> (ok:
    bool)
    requires
        old(csp_vault).well_formed(),
    ensures
        final(csp_vault).well_formed(),
        final(csp_vault).in_process() == old(csp_vault).in_process(),
        old(csp_vault).in_process() && old(csp_vault).node_keys() == Map::<
            Seq<u8>,
            TaggedBytes,
        >::empty() ==> ok,
        ok ==> generated_ed25519_key(old(csp_vault).node_keys(), final(csp_vault).node_keys()),
        !ok && old(csp_vault).in_process() ==> final(csp_vault).node_keys() == old(
            csp_vault,
        ).node_keys(),
        !ok && old(csp_vault).in_process() ==> refuses_some_ed25519_key(old(csp_vault).node_keys()),
{
    let generated = csp_vault.gen_key_pair(AlgorithmId::Ed25519);
    proof {
        if !crate::vault::api::is_transient_keygen_error(result_view(generated)) {
            lemma_basic_keygen_outcome(
                old(csp_vault).node_keys(),
                result_view(generated),
                csp_vault.node_keys(),
            );
        }
    }
    let public_key = match generated {
        Ok(public_key) => public_key,
        Err(_) => {
            return false;
        },
    };
    let ghost after = csp_vault.node_keys();
    let key_id = public_key_hash_as_key_id(&public_key);
    let message = SAMPLE_MESSAGE.as_bytes();
    let algorithms = AlgorithmId::iter();
    let mut ok = true;
    let mut i: usize = 0;
    while i < algorithms.len()
        invariant
            i <= algorithms@.len(),
            csp_vault.well_formed(),
            csp_vault.node_keys() == after,
            csp_vault.in_process() == old(csp_vault).in_process(),
            csp_vault.in_process() ==> ok,
        decreases algorithms@.len() - i,
    {
        let algorithm_id = algorithms[i];
        match algorithm_id {
            AlgorithmId::Ed25519 => {},
            _ => {
                let signed = csp_vault.sign(algorithm_id, message, key_id);
                if !is_unsupported_signing(&signed) {
                    ok = false;
                }
            },
        }
        i = i + 1;
    }
    ok
}

/// Whether the vault refuses to sign with the key of the given seed. A
/// vault in the calling process passes exactly if it holds no Ed25519 key of
/// 32 bytes under the identifier of that key; no vault fails that holds
/// none.
pub fn should_not_basic_sign_with_non_existent_key<V: CspVault>(
    csp_vault: &V,
    seed: [u8; 32],
) -> (ok: bool)
    requires
        csp_vault.well_formed(),
    ensures
        csp_vault.in_process() && !csp_vault.node_keys().contains_key(
            key_id_of(ed25519_public(seed@)),
        ) ==> ok,
        csp_vault.in_process() ==> ok == (basic_sign_result(
            csp_vault.node_keys(),
            AlgorithmId::Ed25519,
            SOME_MESSAGE.spec_bytes(),
            key_id_of(ed25519_public(seed@)),
        ) is Err),
        !ok ==> basic_sign_result(
            csp_vault.node_keys(),
            AlgorithmId::Ed25519,
            SOME_MESSAGE.spec_bytes(),
            key_id_of(ed25519_public(seed@)),
        ) is Ok,
{
    let public_key = CspPublicKey::Ed25519(ed25519::public_key(&seed));
    let key_id = public_key_hash_as_key_id(&public_key);
    let message = SOME_MESSAGE.as_bytes();
    csp_vault.sign(AlgorithmId::Ed25519, message, key_id).is_err()
}

} // verus!
