//! The exchange with a vault that lives in a process of its own.
//!
//! Every operation of a vault is one request and one answer. This module
//! says how the process of the vault answers a request, and what the
//! caller's side makes of what came back, or of nothing coming back. The
//! channel itself, and waiting on it, are the caller's.

use crate::types::CspPop;
use crate::types::CspPublicKey;
use crate::types::CspSignature;
use crate::types::TaggedBytes;
use crate::vault::api::CspBasicSignatureError;
use crate::vault::api::CspBasicSignatureKeygenError;
use crate::vault::api::CspMultiSignatureError;
use crate::vault::api::CspMultiSignatureKeygenError;
use crate::vault::api::CspSecretKeyStoreContainsError;
use crate::vault::api::CspVault;
use crate::vault::api::KeyMap;
use crate::vault::api::KeygenErrorView;
use crate::vault::api::SignatureErrorView;
use crate::vault::api::basic_keygen_outcome;
use crate::vault::api::basic_sign_result;
use crate::vault::api::is_transient_keygen_error;
use crate::vault::api::is_transient_signature_error;
use crate::vault::api::key_with_pop_view;
use crate::vault::api::multi_keygen_outcome;
use crate::vault::api::multi_sign_result;
use crate::vault::api::result_view;
use crate::vault::api::tls_sign_result;
use crate::vault::messages::VAULT_ANSWER_UNREADABLE;
use crate::vault::messages::VAULT_UNAVAILABLE;
use crate::vault::messages::VaultRequest;
use crate::vault::messages::VaultRequestView;
use crate::vault::messages::VaultResponse;
use crate::vault::messages::VaultResponseView;
use crate::vault::messages::decode_request;
use crate::vault::messages::decode_response;
use crate::vault::messages::encode_response;
use crate::vault::messages::lemma_response_round_trip;
use crate::vault::messages::response_fits;
use vstd::prelude::*;

verus! {

/// Whether an answer is what a vault that held `before` may give to a
/// request, leaving `after` behind. The answer is to the operation that the
/// request asks for. Unless it says that the vault could not be reached,
/// which no vault in the calling process says, it is what the operation
/// returns.
pub open spec fn answers(
    before: KeyMap,
    in_process: bool,
    request: VaultRequestView,
    response: VaultResponseView,
    after: KeyMap,
) -> bool {
    match (request, response) {
        (
            VaultRequestView::GenKeyPair { algorithm_id },
            VaultResponseView::GenKeyPair(generated),
        ) => if is_transient_keygen_error(generated) {
            !in_process
        } else {
            basic_keygen_outcome(before, algorithm_id, generated, after)
        },
        (
            VaultRequestView::Sign { algorithm_id, message, key_id },
            VaultResponseView::Sign(signed),
        ) => after == before && if is_transient_signature_error(signed) {
            !in_process
        } else {
            signed == basic_sign_result(before, algorithm_id, message, key_id)
        },
        (
            VaultRequestView::GenKeyPairWithPop { algorithm_id },
            VaultResponseView::GenKeyPairWithPop(generated),
        ) => if is_transient_keygen_error(generated) {
            !in_process
        } else {
            multi_keygen_outcome(before, algorithm_id, generated, after)
        },
        (
            VaultRequestView::MultiSign { algorithm_id, message, key_id },
            VaultResponseView::MultiSign(signed),
        ) => after == before && if is_transient_signature_error(signed) {
            !in_process
        } else {
            signed == multi_sign_result(before, algorithm_id, message, key_id)
        },
        (VaultRequestView::TlsSign { message, key_id }, VaultResponseView::TlsSign(signed)) => after
            == before && if is_transient_signature_error(signed) {
            !in_process
        } else {
            signed == tls_sign_result(before, message, key_id)
        },
        (VaultRequestView::SksContains { key_id }, VaultResponseView::SksContains(held)) => after
            == before && match held {
            Ok(held) => held == before.contains_key(key_id),
            Err(_) => !in_process,
        },
        _ => false,
    }
}

/// Answers a request: hands it to the vault as the operation it asks for,
/// and wraps what the operation returns.
pub fn serve<V: CspVault>(csp_vault: &mut V, request: &VaultRequest) -> (response: VaultResponse)
    requires
        old(csp_vault).well_formed(),
    ensures
        final(csp_vault).well_formed(),
        final(csp_vault).in_process() == old(csp_vault).in_process(),
        answers(
            old(csp_vault).node_keys(),
            old(csp_vault).in_process(),
            request@,
            response@,
            final(csp_vault).node_keys(),
        ),
{
    match request {
        VaultRequest::GenKeyPair { algorithm_id } => VaultResponse::GenKeyPair(
            csp_vault.gen_key_pair(*algorithm_id),
        ),
        VaultRequest::Sign { algorithm_id, message, key_id } => VaultResponse::Sign(
            csp_vault.sign(*algorithm_id, message.as_slice(), *key_id),
        ),
        VaultRequest::GenKeyPairWithPop { algorithm_id } => VaultResponse::GenKeyPairWithPop(
            csp_vault.gen_key_pair_with_pop(*algorithm_id),
        ),
        VaultRequest::MultiSign { algorithm_id, message, key_id } => VaultResponse::MultiSign(
            csp_vault.multi_sign(*algorithm_id, message.as_slice(), *key_id),
        ),
        VaultRequest::TlsSign { message, key_id } => VaultResponse::TlsSign(
            csp_vault.tls_sign(message.as_slice(), key_id),
        ),
        VaultRequest::SksContains { key_id } => VaultResponse::SksContains(
            csp_vault.sks_contains(key_id),
        ),
    }
}

/// Answers what came over the channel: where it is the written form of a
/// request, the written form of the vault's answer to it; where it is not,
/// nothing, and the vault is not touched.
pub fn serve_bytes<V: CspVault>(csp_vault: &mut V, request: &[u8]) -> (answer: Option<Vec<u8>>)
    requires
        old(csp_vault).well_formed(),
    ensures
        final(csp_vault).well_formed(),
        final(csp_vault).in_process() == old(csp_vault).in_process(),
        match answer {
            Some(bytes) => decode_request(request@) matches Some(asked) && decode_response(
                bytes@,
            ) matches Some(response) && answers(
                old(csp_vault).node_keys(),
                old(csp_vault).in_process(),
                asked,
                response,
                final(csp_vault).node_keys(),
            ),
            None => decode_request(request@).is_none() && final(csp_vault).node_keys() == old(
                csp_vault,
            ).node_keys(),
        },
{
    match VaultRequest::from_bytes(request) {
        Some(asked) => {
            let response = serve(csp_vault, &asked);
            Some(response.to_bytes())
        },
        None => None,
    }
}

/// The bytes that came back, where some came back.
pub open spec fn reply_view(reply: Option<&[u8]>) -> Option<Seq<u8>> {
    match reply {
        Some(bytes) => Some(bytes@),
        None => None,
    }
}

/// What the caller of `gen_key_pair` gets for what came back over the channel.
pub open spec fn gen_key_pair_reply_result(reply: Option<Seq<u8>>) -> Result<
    TaggedBytes, KeygenErrorView,
> {
    match reply {
        None => Err(KeygenErrorView::TransientInternalError { internal_error: VAULT_UNAVAILABLE@ }),
        Some(bytes) => match decode_response(bytes) {
            Some(VaultResponseView::GenKeyPair(result)) => result,
            _ => Err(
                KeygenErrorView::TransientInternalError {
                    internal_error: VAULT_ANSWER_UNREADABLE@,
                },
            ),
        },
    }
}

/// The result of `gen_key_pair` for the caller, from what came back over the
/// channel: the vault's own answer where one came back; otherwise, where
/// nothing came back or something that is no answer to this request, the
/// error that says so, which is none of the vault's own.
pub fn gen_key_pair_reply(reply: Option<&[u8]>) -> (result: Result<
    CspPublicKey, CspBasicSignatureKeygenError,
>)
    ensures
        result_view(result) == gen_key_pair_reply_result(reply_view(reply)),
{
    match reply {
        None => Err(
            CspBasicSignatureKeygenError::TransientInternalError { internal_error: VAULT_UNAVAILABLE.to_owned() },
        ),
        Some(bytes) => match VaultResponse::from_bytes(bytes) {
            Some(VaultResponse::GenKeyPair(result)) => result,
            _ => Err(
                CspBasicSignatureKeygenError::TransientInternalError {
                    internal_error: VAULT_ANSWER_UNREADABLE.to_owned(),
                },
            ),
        },
    }
}

/// What the caller of `sign` gets for what came back over the channel.
pub open spec fn sign_reply_result(reply: Option<Seq<u8>>) -> Result<
    TaggedBytes, SignatureErrorView,
> {
    match reply {
        None => Err(
            SignatureErrorView::TransientInternalError { internal_error: VAULT_UNAVAILABLE@ },
        ),
        Some(bytes) => match decode_response(bytes) {
            Some(VaultResponseView::Sign(result)) => result,
            _ => Err(
                SignatureErrorView::TransientInternalError {
                    internal_error: VAULT_ANSWER_UNREADABLE@,
                },
            ),
        },
    }
}

/// The result of `sign` for the caller, from what came back over the
/// channel: the vault's own answer where one came back; otherwise, where
/// nothing came back or something that is no answer to this request, the
/// error that says so, which is none of the vault's own.
pub fn sign_reply(reply: Option<&[u8]>) -> (result: Result<CspSignature, CspBasicSignatureError>)
    ensures
        result_view(result) == sign_reply_result(reply_view(reply)),
{
    match reply {
        None => Err(
            CspBasicSignatureError::TransientInternalError { internal_error: VAULT_UNAVAILABLE.to_owned() },
        ),
        Some(bytes) => match VaultResponse::from_bytes(bytes) {
            Some(VaultResponse::Sign(result)) => result,
            _ => Err(
                CspBasicSignatureError::TransientInternalError {
                    internal_error: VAULT_ANSWER_UNREADABLE.to_owned(),
                },
            ),
        },
    }
}

/// What the caller of `gen_key_pair_with_pop` gets for what came back over the channel.
pub open spec fn gen_key_pair_with_pop_reply_result(reply: Option<Seq<u8>>) -> Result<
    (TaggedBytes, TaggedBytes), KeygenErrorView,
> {
    match reply {
        None => Err(KeygenErrorView::TransientInternalError { internal_error: VAULT_UNAVAILABLE@ }),
        Some(bytes) => match decode_response(bytes) {
            Some(VaultResponseView::GenKeyPairWithPop(result)) => result,
            _ => Err(
                KeygenErrorView::TransientInternalError {
                    internal_error: VAULT_ANSWER_UNREADABLE@,
                },
            ),
        },
    }
}

/// The result of `gen_key_pair_with_pop` for the caller, from what came back over the
/// channel: the vault's own answer where one came back; otherwise, where
/// nothing came back or something that is no answer to this request, the
/// error that says so, which is none of the vault's own.
pub fn gen_key_pair_with_pop_reply(reply: Option<&[u8]>) -> (result: Result<
    (CspPublicKey, CspPop), CspMultiSignatureKeygenError,
>)
    ensures
        key_with_pop_view(result) == gen_key_pair_with_pop_reply_result(reply_view(reply)),
{
    match reply {
        None => Err(
            CspMultiSignatureKeygenError::TransientInternalError { internal_error: VAULT_UNAVAILABLE.to_owned() },
        ),
        Some(bytes) => match VaultResponse::from_bytes(bytes) {
            Some(VaultResponse::GenKeyPairWithPop(result)) => result,
            _ => Err(
                CspMultiSignatureKeygenError::TransientInternalError {
                    internal_error: VAULT_ANSWER_UNREADABLE.to_owned(),
                },
            ),
        },
    }
}

/// What the caller of `multi_sign` gets for what came back over the channel.
pub open spec fn multi_sign_reply_result(reply: Option<Seq<u8>>) -> Result<
    TaggedBytes, SignatureErrorView,
> {
    match reply {
        None => Err(
            SignatureErrorView::TransientInternalError { internal_error: VAULT_UNAVAILABLE@ },
        ),
        Some(bytes) => match decode_response(bytes) {
            Some(VaultResponseView::MultiSign(result)) => result,
            _ => Err(
                SignatureErrorView::TransientInternalError {
                    internal_error: VAULT_ANSWER_UNREADABLE@,
                },
            ),
        },
    }
}

/// The result of `multi_sign` for the caller, from what came back over the
/// channel: the vault's own answer where one came back; otherwise, where
/// nothing came back or something that is no answer to this request, the
/// error that says so, which is none of the vault's own.
pub fn multi_sign_reply(reply: Option<&[u8]>) -> (result: Result<
    CspSignature, CspMultiSignatureError,
>)
    ensures
        result_view(result) == multi_sign_reply_result(reply_view(reply)),
{
    match reply {
        None => Err(
            CspMultiSignatureError::TransientInternalError { internal_error: VAULT_UNAVAILABLE.to_owned() },
        ),
        Some(bytes) => match VaultResponse::from_bytes(bytes) {
            Some(VaultResponse::MultiSign(result)) => result,
            _ => Err(
                CspMultiSignatureError::TransientInternalError {
                    internal_error: VAULT_ANSWER_UNREADABLE.to_owned(),
                },
            ),
        },
    }
}

/// What the caller of `tls_sign` gets for what came back over the channel.
pub open spec fn tls_sign_reply_result(reply: Option<Seq<u8>>) -> Result<
    TaggedBytes,
    SignatureErrorView,
> {
    match reply {
        None => Err(
            SignatureErrorView::TransientInternalError { internal_error: VAULT_UNAVAILABLE@ },
        ),
        Some(bytes) => match decode_response(bytes) {
            Some(VaultResponseView::TlsSign(result)) => result,
            _ => Err(
                SignatureErrorView::TransientInternalError {
                    internal_error: VAULT_ANSWER_UNREADABLE@,
                },
            ),
        },
    }
}

/// The result of `tls_sign` for the caller, from what came back over the
/// channel: the vault's own answer where one came back; otherwise, where
/// nothing came back or something that is no answer to this request, the
/// error that says so, which is none of the vault's own.
pub fn tls_sign_reply(reply: Option<&[u8]>) -> (result: Result<
    CspSignature, CspBasicSignatureError,
>)
    ensures
        result_view(result) == tls_sign_reply_result(reply_view(reply)),
{
    match reply {
        None => Err(
            CspBasicSignatureError::TransientInternalError {
                internal_error: VAULT_UNAVAILABLE.to_owned(),
            },
        ),
        Some(bytes) => match VaultResponse::from_bytes(bytes) {
            Some(VaultResponse::TlsSign(result)) => result,
            _ => Err(
                CspBasicSignatureError::TransientInternalError {
                    internal_error: VAULT_ANSWER_UNREADABLE.to_owned(),
                },
            ),
        },
    }
}

/// What the caller of `sks_contains` gets for what came back over the
/// channel.
pub open spec fn sks_contains_reply_result(reply: Option<Seq<u8>>) -> Result<bool, Seq<char>> {
    match reply {
        None => Err(VAULT_UNAVAILABLE@),
        Some(bytes) => match decode_response(bytes) {
            Some(VaultResponseView::SksContains(result)) => result,
            _ => Err(VAULT_ANSWER_UNREADABLE@),
        },
    }
}

/// The result of `sks_contains` for the caller, from what came back over
/// the channel: the vault's own answer where one came back; otherwise,
/// where nothing came back or something that is no answer to this request,
/// the error that says so.
pub fn sks_contains_reply(reply: Option<&[u8]>) -> (result: Result<
    bool,
    CspSecretKeyStoreContainsError,
>)
    ensures
        match result {
            Ok(held) => sks_contains_reply_result(reply_view(reply)) == Ok::<bool, Seq<char>>(held),
            Err(error) => sks_contains_reply_result(reply_view(reply)) == Err::<bool, Seq<char>>(
                error@,
            ),
        },
{
    match reply {
        None => Err(
            CspSecretKeyStoreContainsError::TransientInternalError {
                internal_error: VAULT_UNAVAILABLE.to_owned(),
            },
        ),
        Some(bytes) => match VaultResponse::from_bytes(bytes) {
            Some(VaultResponse::SksContains(result)) => result,
            _ => Err(
                CspSecretKeyStoreContainsError::TransientInternalError {
                    internal_error: VAULT_ANSWER_UNREADABLE.to_owned(),
                },
            ),
        },
    }
}

/// What the vault answered is what the caller gets: an answer that is
/// written by the vault's process and read on the caller's side gives the
/// caller the very result of the operation, whichever it was.
pub proof fn lemma_reply_carries_answer(response: VaultResponseView)
    requires
        response_fits(response),
    ensures
        response matches VaultResponseView::GenKeyPair(result) ==> gen_key_pair_reply_result(
            Some(encode_response(response)),
        ) == result,
        response matches VaultResponseView::Sign(result) ==> sign_reply_result(
            Some(encode_response(response)),
        ) == result,
        response matches VaultResponseView::GenKeyPairWithPop(result)
            ==> gen_key_pair_with_pop_reply_result(Some(encode_response(response))) == result,
        response matches VaultResponseView::MultiSign(result) ==> multi_sign_reply_result(
            Some(encode_response(response)),
        ) == result,
        response matches VaultResponseView::TlsSign(result) ==> tls_sign_reply_result(
            Some(encode_response(response)),
        ) == result,
        response matches VaultResponseView::SksContains(result) ==> sks_contains_reply_result(
            Some(encode_response(response)),
        ) == result,
{
    lemma_response_round_trip(response);
}

} // verus!
