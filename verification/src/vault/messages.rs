//! The requests to a vault in a process of its own and its answers, and how
//! they are written as frames.
//!
//! A request is a frame of status zero. An answer is a frame of the same
//! operation whose status says how the operation went. What was asked for
//! travels in the byte strings of the frame: a message or a public key or a
//! signature in the first, a proof of possession in the second, the text of
//! an error in the first.

use crate::algorithm::ALGORITHM_COUNT;
use crate::algorithm::AlgorithmId;
use crate::algorithm::algorithm_number;
use crate::algorithm::algorithm_of_number;
use crate::bytes::copy_range;
use crate::bytes::read_block;
use crate::key_id::KeyId;
use crate::types::CspPop;
use crate::types::CspPublicKey;
use crate::types::CspSignature;
use crate::types::TaggedBytes;
use crate::vault::api::CspBasicSignatureError;
use crate::vault::api::CspBasicSignatureKeygenError;
use crate::vault::api::CspMultiSignatureError;
use crate::vault::api::CspMultiSignatureKeygenError;
use crate::vault::api::CspSecretKeyStoreContainsError;
use crate::vault::api::KeygenErrorView;
use crate::vault::api::SignatureErrorView;
use crate::vault::api::key_with_pop_view;
use crate::vault::api::result_view;
use crate::vault::frame::Frame;
use crate::vault::frame::FrameView;
use crate::vault::frame::decode_frame;
use crate::vault::frame::encode_frame;
use crate::vault::frame::frame_fits;
use vstd::prelude::*;
use vstd::utf8::decode_utf8;
use vstd::utf8::encode_utf8;
use vstd::utf8::valid_utf8;

verus! {

/// The operation of a frame about generating a key pair for single-key
/// signatures.
pub const OPERATION_GEN_KEY_PAIR: u8 = 0;

/// The operation of a frame about signing with a single key.
pub const OPERATION_SIGN: u8 = 1;

/// The operation of a frame about generating a key pair for multi-signatures.
pub const OPERATION_GEN_KEY_PAIR_WITH_POP: u8 = 2;

/// The operation of a frame about making a multi-signature.
pub const OPERATION_MULTI_SIGN: u8 = 3;

/// The operation of a frame about signing for a TLS handshake.
pub const OPERATION_TLS_SIGN: u8 = 4;

/// The operation of a frame about whether a key is held.
pub const OPERATION_SKS_CONTAINS: u8 = 5;

/// The status of a request.
pub const STATUS_REQUEST: u8 = 0;

/// The status of an answer that carries what was asked for.
pub const STATUS_OK: u8 = 1;

/// The status of an answer that no key is held under the identifier.
pub const STATUS_SECRET_KEY_NOT_FOUND: u8 = 2;

/// The status of an answer that the algorithm is not supported.
pub const STATUS_UNSUPPORTED_ALGORITHM: u8 = 3;

/// The status of an answer that the key held is for another algorithm.
pub const STATUS_WRONG_SECRET_KEY_TYPE: u8 = 4;

/// The status of an answer that the key held is no key of its algorithm.
pub const STATUS_MALFORMED_SECRET_KEY: u8 = 5;

/// The status of an answer that the vault could not do its work for now.
pub const STATUS_TRANSIENT_INTERNAL_ERROR: u8 = 6;

/// The status of an answer that another key is held under the identifier.
pub const STATUS_DUPLICATE_KEY_ID: u8 = 7;

/// What a caller is told where the vault cannot be reached.
pub const VAULT_UNAVAILABLE: &'static str = "the vault cannot be reached";

/// What a caller is told where what came back is no answer to its request.
pub const VAULT_ANSWER_UNREADABLE: &'static str = "the vault gave no answer to the request";

/// A request to a vault.
#[derive(Clone, Debug, PartialEq, Eq)]
pub enum VaultRequest {
    GenKeyPair { algorithm_id: AlgorithmId },
    Sign { algorithm_id: AlgorithmId, message: Vec<u8>, key_id: KeyId },
    GenKeyPairWithPop { algorithm_id: AlgorithmId },
    MultiSign { algorithm_id: AlgorithmId, message: Vec<u8>, key_id: KeyId },
    TlsSign { message: Vec<u8>, key_id: KeyId },
    SksContains { key_id: KeyId },
}

/// A request to a vault, as contracts see it.
pub enum VaultRequestView {
    GenKeyPair { algorithm_id: AlgorithmId },
    Sign { algorithm_id: AlgorithmId, message: Seq<u8>, key_id: Seq<u8> },
    GenKeyPairWithPop { algorithm_id: AlgorithmId },
    MultiSign { algorithm_id: AlgorithmId, message: Seq<u8>, key_id: Seq<u8> },
    TlsSign { message: Seq<u8>, key_id: Seq<u8> },
    SksContains { key_id: Seq<u8> },
}

impl View for VaultRequest {
    type V = VaultRequestView;

    open spec fn view(&self) -> VaultRequestView {
        match self {
            VaultRequest::GenKeyPair { algorithm_id } => VaultRequestView::GenKeyPair {
                algorithm_id: *algorithm_id,
            },
            VaultRequest::Sign { algorithm_id, message, key_id } => VaultRequestView::Sign {
                algorithm_id: *algorithm_id,
                message: message@,
                key_id: key_id@,
            },
            VaultRequest::GenKeyPairWithPop { algorithm_id } => {
                VaultRequestView::GenKeyPairWithPop { algorithm_id: *algorithm_id }
            },
            VaultRequest::MultiSign { algorithm_id, message, key_id } => {
                VaultRequestView::MultiSign {
                    algorithm_id: *algorithm_id,
                    message: message@,
                    key_id: key_id@,
                }
            },
            VaultRequest::TlsSign { message, key_id } => VaultRequestView::TlsSign {
                message: message@,
                key_id: key_id@,
            },
            VaultRequest::SksContains { key_id } => VaultRequestView::SksContains {
                key_id: key_id@,
            },
        }
    }
}

/// The answer of a vault to a request.
#[derive(Debug, PartialEq, Eq)]
pub enum VaultResponse {
    GenKeyPair(Result<CspPublicKey, CspBasicSignatureKeygenError>),
    Sign(Result<CspSignature, CspBasicSignatureError>),
    GenKeyPairWithPop(Result<(CspPublicKey, CspPop), CspMultiSignatureKeygenError>),
    MultiSign(Result<CspSignature, CspMultiSignatureError>),
    TlsSign(Result<CspSignature, CspBasicSignatureError>),
    SksContains(Result<bool, CspSecretKeyStoreContainsError>),
}

/// The answer of a vault to a request, as contracts see it.
pub enum VaultResponseView {
    GenKeyPair(Result<TaggedBytes, KeygenErrorView>),
    Sign(Result<TaggedBytes, SignatureErrorView>),
    GenKeyPairWithPop(Result<(TaggedBytes, TaggedBytes), KeygenErrorView>),
    MultiSign(Result<TaggedBytes, SignatureErrorView>),
    TlsSign(Result<TaggedBytes, SignatureErrorView>),
    SksContains(Result<bool, Seq<char>>),
}

impl View for VaultResponse {
    type V = VaultResponseView;

    open spec fn view(&self) -> VaultResponseView {
        match self {
            VaultResponse::GenKeyPair(result) => VaultResponseView::GenKeyPair(
                result_view(*result),
            ),
            VaultResponse::Sign(result) => VaultResponseView::Sign(result_view(*result)),
            VaultResponse::GenKeyPairWithPop(result) => VaultResponseView::GenKeyPairWithPop(
                key_with_pop_view(*result),
            ),
            VaultResponse::MultiSign(result) => VaultResponseView::MultiSign(result_view(*result)),
            VaultResponse::TlsSign(result) => VaultResponseView::TlsSign(result_view(*result)),
            VaultResponse::SksContains(result) => VaultResponseView::SksContains(
                match result {
                    Ok(held) => Ok(*held),
                    Err(error) => Err(error@),
                },
            ),
        }
    }
}

/// The key identifier of a frame that has none: 32 zeros.
pub open spec fn no_key_id() -> Seq<u8> {
    Seq::new(32, |i: int| 0u8)
}

/// The number of an algorithm as a byte.
pub open spec fn algorithm_byte(algorithm: AlgorithmId) -> u8 {
    algorithm_number(algorithm) as u8
}

/// A frame with an algorithm and nothing else.
pub open spec fn plain_frame(operation: u8, status: u8, algorithm: AlgorithmId) -> FrameView {
    FrameView {
        operation,
        status,
        algorithm: algorithm_byte(algorithm),
        key_id: no_key_id(),
        first: Seq::empty(),
        second: Seq::empty(),
    }
}

/// The frame of a request.
pub open spec fn request_frame(request: VaultRequestView) -> FrameView {
    match request {
        VaultRequestView::GenKeyPair { algorithm_id } => plain_frame(
            OPERATION_GEN_KEY_PAIR,
            STATUS_REQUEST,
            algorithm_id,
        ),
        VaultRequestView::Sign { algorithm_id, message, key_id } => FrameView {
            operation: OPERATION_SIGN,
            status: STATUS_REQUEST,
            algorithm: algorithm_byte(algorithm_id),
            key_id,
            first: message,
            second: Seq::empty(),
        },
        VaultRequestView::GenKeyPairWithPop { algorithm_id } => plain_frame(
            OPERATION_GEN_KEY_PAIR_WITH_POP,
            STATUS_REQUEST,
            algorithm_id,
        ),
        VaultRequestView::MultiSign { algorithm_id, message, key_id } => FrameView {
            operation: OPERATION_MULTI_SIGN,
            status: STATUS_REQUEST,
            algorithm: algorithm_byte(algorithm_id),
            key_id,
            first: message,
            second: Seq::empty(),
        },
        VaultRequestView::TlsSign { message, key_id } => FrameView {
            operation: OPERATION_TLS_SIGN,
            status: STATUS_REQUEST,
            algorithm: algorithm_byte(AlgorithmId::Tls),
            key_id,
            first: message,
            second: Seq::empty(),
        },
        VaultRequestView::SksContains { key_id } => FrameView {
            operation: OPERATION_SKS_CONTAINS,
            status: STATUS_REQUEST,
            algorithm: 0,
            key_id,
            first: Seq::empty(),
            second: Seq::empty(),
        },
    }
}

/// The request that a frame carries, if it carries one. What a request has
/// no use for is not looked at.
pub open spec fn frame_request(frame: FrameView) -> Option<VaultRequestView> {
    if frame.status != STATUS_REQUEST || frame.algorithm >= ALGORITHM_COUNT {
        None
    } else {
        let algorithm_id = algorithm_of_number(frame.algorithm as int);
        if frame.operation == OPERATION_GEN_KEY_PAIR {
            Some(VaultRequestView::GenKeyPair { algorithm_id })
        } else if frame.operation == OPERATION_SIGN {
            Some(
                VaultRequestView::Sign {
                    algorithm_id,
                    message: frame.first,
                    key_id: frame.key_id,
                },
            )
        } else if frame.operation == OPERATION_GEN_KEY_PAIR_WITH_POP {
            Some(VaultRequestView::GenKeyPairWithPop { algorithm_id })
        } else if frame.operation == OPERATION_MULTI_SIGN {
            Some(
                VaultRequestView::MultiSign {
                    algorithm_id,
                    message: frame.first,
                    key_id: frame.key_id,
                },
            )
        } else if frame.operation == OPERATION_TLS_SIGN {
            Some(VaultRequestView::TlsSign { message: frame.first, key_id: frame.key_id })
        } else if frame.operation == OPERATION_SKS_CONTAINS {
            Some(VaultRequestView::SksContains { key_id: frame.key_id })
        } else {
            None
        }
    }
}

/// The frame of a refusal to sign.
pub open spec fn signature_error_frame(operation: u8, error: SignatureErrorView) -> FrameView {
    match error {
        SignatureErrorView::SecretKeyNotFound { algorithm, key_id } => FrameView {
            operation,
            status: STATUS_SECRET_KEY_NOT_FOUND,
            algorithm: algorithm_byte(algorithm),
            key_id,
            first: Seq::empty(),
            second: Seq::empty(),
        },
        SignatureErrorView::UnsupportedAlgorithm { algorithm } => plain_frame(
            operation,
            STATUS_UNSUPPORTED_ALGORITHM,
            algorithm,
        ),
        SignatureErrorView::WrongSecretKeyType { algorithm, stored_variant } => FrameView {
            operation,
            status: STATUS_WRONG_SECRET_KEY_TYPE,
            algorithm: algorithm_byte(algorithm),
            key_id: no_key_id(),
            first: encode_utf8(stored_variant),
            second: Seq::empty(),
        },
        SignatureErrorView::MalformedSecretKey { algorithm } => plain_frame(
            operation,
            STATUS_MALFORMED_SECRET_KEY,
            algorithm,
        ),
        SignatureErrorView::TransientInternalError { internal_error } => FrameView {
            operation,
            status: STATUS_TRANSIENT_INTERNAL_ERROR,
            algorithm: 0,
            key_id: no_key_id(),
            first: encode_utf8(internal_error),
            second: Seq::empty(),
        },
    }
}

/// The refusal to sign that a frame carries, if it carries one.
pub open spec fn frame_signature_error(frame: FrameView) -> Option<SignatureErrorView> {
    if frame.algorithm >= ALGORITHM_COUNT {
        None
    } else {
        let algorithm = algorithm_of_number(frame.algorithm as int);
        if frame.status == STATUS_SECRET_KEY_NOT_FOUND {
            Some(SignatureErrorView::SecretKeyNotFound { algorithm, key_id: frame.key_id })
        } else if frame.status == STATUS_UNSUPPORTED_ALGORITHM {
            Some(SignatureErrorView::UnsupportedAlgorithm { algorithm })
        } else if frame.status == STATUS_WRONG_SECRET_KEY_TYPE && valid_utf8(frame.first) {
            Some(
                SignatureErrorView::WrongSecretKeyType {
                    algorithm,
                    stored_variant: decode_utf8(frame.first),
                },
            )
        } else if frame.status == STATUS_MALFORMED_SECRET_KEY {
            Some(SignatureErrorView::MalformedSecretKey { algorithm })
        } else if frame.status == STATUS_TRANSIENT_INTERNAL_ERROR && valid_utf8(frame.first) {
            Some(
                SignatureErrorView::TransientInternalError {
                    internal_error: decode_utf8(frame.first),
                },
            )
        } else {
            None
        }
    }
}

/// The frame of a refusal to generate a key pair.
pub open spec fn keygen_error_frame(operation: u8, error: KeygenErrorView) -> FrameView {
    match error {
        KeygenErrorView::UnsupportedAlgorithm { algorithm } => plain_frame(
            operation,
            STATUS_UNSUPPORTED_ALGORITHM,
            algorithm,
        ),
        KeygenErrorView::DuplicateKeyId { key_id } => FrameView {
            operation,
            status: STATUS_DUPLICATE_KEY_ID,
            algorithm: 0,
            key_id,
            first: Seq::empty(),
            second: Seq::empty(),
        },
        KeygenErrorView::TransientInternalError { internal_error } => FrameView {
            operation,
            status: STATUS_TRANSIENT_INTERNAL_ERROR,
            algorithm: 0,
            key_id: no_key_id(),
            first: encode_utf8(internal_error),
            second: Seq::empty(),
        },
    }
}

/// The refusal to generate a key pair that a frame carries, if it carries
/// one.
pub open spec fn frame_keygen_error(frame: FrameView) -> Option<KeygenErrorView> {
    if frame.algorithm >= ALGORITHM_COUNT {
        None
    } else if frame.status == STATUS_UNSUPPORTED_ALGORITHM {
        Some(
            KeygenErrorView::UnsupportedAlgorithm {
                algorithm: algorithm_of_number(frame.algorithm as int),
            },
        )
    } else if frame.status == STATUS_DUPLICATE_KEY_ID {
        Some(KeygenErrorView::DuplicateKeyId { key_id: frame.key_id })
    } else if frame.status == STATUS_TRANSIENT_INTERNAL_ERROR && valid_utf8(frame.first) {
        Some(KeygenErrorView::TransientInternalError { internal_error: decode_utf8(frame.first) })
    } else {
        None
    }
}

/// Whether tagged bytes are a public key: 32 bytes for Ed25519, 96 for
/// MultiBls12_381.
pub open spec fn is_public_key(key: TaggedBytes) -> bool {
    (key.algorithm == AlgorithmId::Ed25519 && key.bytes.len() == 32) || (key.algorithm
        == AlgorithmId::MultiBls12_381 && key.bytes.len() == 96)
}

/// Whether tagged bytes are a signature: 64 bytes for Ed25519, 48 for
/// MultiBls12_381.
pub open spec fn is_signature(signature: TaggedBytes) -> bool {
    (signature.algorithm == AlgorithmId::Ed25519 && signature.bytes.len() == 64) || (
    signature.algorithm == AlgorithmId::MultiBls12_381 && signature.bytes.len() == 48)
}

/// Whether tagged bytes are a proof of possession: 48 bytes for
/// MultiBls12_381.
pub open spec fn is_pop(pop: TaggedBytes) -> bool {
    pop.algorithm == AlgorithmId::MultiBls12_381 && pop.bytes.len() == 48
}

/// The first byte string of a frame, tagged with the frame's algorithm.
pub open spec fn frame_first(frame: FrameView) -> TaggedBytes {
    TaggedBytes { algorithm: algorithm_of_number(frame.algorithm as int), bytes: frame.first }
}

/// The second byte string of a frame, which is for a proof of possession,
/// tagged with the one algorithm that has such proofs.
pub open spec fn frame_second(frame: FrameView) -> TaggedBytes {
    TaggedBytes { algorithm: AlgorithmId::MultiBls12_381, bytes: frame.second }
}

/// A frame that carries what was asked for.
pub open spec fn ok_frame(operation: u8, first: TaggedBytes, second: Seq<u8>) -> FrameView {
    FrameView {
        operation,
        status: STATUS_OK,
        algorithm: algorithm_byte(first.algorithm),
        key_id: no_key_id(),
        first: first.bytes,
        second,
    }
}

/// The frame of an answer.
pub open spec fn response_frame(response: VaultResponseView) -> FrameView {
    match response {
        VaultResponseView::GenKeyPair(Ok(key)) => ok_frame(
            OPERATION_GEN_KEY_PAIR,
            key,
            Seq::empty(),
        ),
        VaultResponseView::GenKeyPair(Err(error)) => keygen_error_frame(
            OPERATION_GEN_KEY_PAIR,
            error,
        ),
        VaultResponseView::Sign(Ok(signature)) => ok_frame(OPERATION_SIGN, signature, Seq::empty()),
        VaultResponseView::Sign(Err(error)) => signature_error_frame(OPERATION_SIGN, error),
        VaultResponseView::GenKeyPairWithPop(Ok((key, pop))) => ok_frame(
            OPERATION_GEN_KEY_PAIR_WITH_POP,
            key,
            pop.bytes,
        ),
        VaultResponseView::GenKeyPairWithPop(Err(error)) => keygen_error_frame(
            OPERATION_GEN_KEY_PAIR_WITH_POP,
            error,
        ),
        VaultResponseView::MultiSign(Ok(signature)) => ok_frame(
            OPERATION_MULTI_SIGN,
            signature,
            Seq::empty(),
        ),
        VaultResponseView::MultiSign(Err(error)) => signature_error_frame(
            OPERATION_MULTI_SIGN,
            error,
        ),
        VaultResponseView::TlsSign(Ok(signature)) => ok_frame(
            OPERATION_TLS_SIGN,
            signature,
            Seq::empty(),
        ),
        VaultResponseView::TlsSign(Err(error)) => signature_error_frame(OPERATION_TLS_SIGN, error),
        VaultResponseView::SksContains(Ok(held)) => FrameView {
            operation: OPERATION_SKS_CONTAINS,
            status: STATUS_OK,
            algorithm: 0,
            key_id: no_key_id(),
            first: seq![if held {
                1u8
            } else {
                0u8
            }],
            second: Seq::empty(),
        },
        VaultResponseView::SksContains(Err(internal_error)) => FrameView {
            operation: OPERATION_SKS_CONTAINS,
            status: STATUS_TRANSIENT_INTERNAL_ERROR,
            algorithm: 0,
            key_id: no_key_id(),
            first: encode_utf8(internal_error),
            second: Seq::empty(),
        },
    }
}

/// The answer that a frame carries, if it carries one. What an answer has
/// no use for is not looked at.
pub open spec fn frame_response(frame: FrameView) -> Option<VaultResponseView> {
    if frame.operation == OPERATION_GEN_KEY_PAIR {
        if frame.status == STATUS_OK {
            if is_public_key(frame_first(frame)) {
                Some(VaultResponseView::GenKeyPair(Ok(frame_first(frame))))
            } else {
                None
            }
        } else {
            match frame_keygen_error(frame) {
                Some(error) => Some(VaultResponseView::GenKeyPair(Err(error))),
                None => None,
            }
        }
    } else if frame.operation == OPERATION_SIGN {
        if frame.status == STATUS_OK {
            if is_signature(frame_first(frame)) {
                Some(VaultResponseView::Sign(Ok(frame_first(frame))))
            } else {
                None
            }
        } else {
            match frame_signature_error(frame) {
                Some(error) => Some(VaultResponseView::Sign(Err(error))),
                None => None,
            }
        }
    } else if frame.operation == OPERATION_GEN_KEY_PAIR_WITH_POP {
        if frame.status == STATUS_OK {
            if is_public_key(frame_first(frame)) && is_pop(frame_second(frame)) {
                Some(
                    VaultResponseView::GenKeyPairWithPop(
                        Ok((frame_first(frame), frame_second(frame))),
                    ),
                )
            } else {
                None
            }
        } else {
            match frame_keygen_error(frame) {
                Some(error) => Some(VaultResponseView::GenKeyPairWithPop(Err(error))),
                None => None,
            }
        }
    } else if frame.operation == OPERATION_MULTI_SIGN {
        if frame.status == STATUS_OK {
            if is_signature(frame_first(frame)) {
                Some(VaultResponseView::MultiSign(Ok(frame_first(frame))))
            } else {
                None
            }
        } else {
            match frame_signature_error(frame) {
                Some(error) => Some(VaultResponseView::MultiSign(Err(error))),
                None => None,
            }
        }
    } else if frame.operation == OPERATION_TLS_SIGN {
        if frame.status == STATUS_OK {
            if is_signature(frame_first(frame)) {
                Some(VaultResponseView::TlsSign(Ok(frame_first(frame))))
            } else {
                None
            }
        } else {
            match frame_signature_error(frame) {
                Some(error) => Some(VaultResponseView::TlsSign(Err(error))),
                None => None,
            }
        }
    } else if frame.operation == OPERATION_SKS_CONTAINS {
        if frame.status == STATUS_OK {
            if frame.first.len() == 1 && frame.first[0] <= 1 {
                Some(VaultResponseView::SksContains(Ok(frame.first[0] == 1)))
            } else {
                None
            }
        } else if frame.status == STATUS_TRANSIENT_INTERNAL_ERROR && valid_utf8(frame.first) {
            Some(VaultResponseView::SksContains(Err(decode_utf8(frame.first))))
        } else {
            None
        }
    } else {
        None
    }
}

/// A request, written as bytes.
pub open spec fn encode_request(request: VaultRequestView) -> Seq<u8> {
    encode_frame(request_frame(request))
}

/// The request that bytes are the written form of, if they are that of one.
pub open spec fn decode_request(bytes: Seq<u8>) -> Option<VaultRequestView> {
    match decode_frame(bytes) {
        Some(frame) => frame_request(frame),
        None => None,
    }
}

/// An answer, written as bytes.
pub open spec fn encode_response(response: VaultResponseView) -> Seq<u8> {
    encode_frame(response_frame(response))
}

/// The answer that bytes are the written form of, if they are that of one.
pub open spec fn decode_response(bytes: Seq<u8>) -> Option<VaultResponseView> {
    match decode_frame(bytes) {
        Some(frame) => frame_response(frame),
        None => None,
    }
}

/// Whether a request can be written: its key identifier has 32 bytes and
/// the length of its message fits in eight bytes.
pub open spec fn request_fits(request: VaultRequestView) -> bool {
    match request {
        VaultRequestView::Sign { message, key_id, .. } => key_id.len() == 32 && message.len()
            <= u64::MAX,
        VaultRequestView::MultiSign { message, key_id, .. } => key_id.len() == 32 && message.len()
            <= u64::MAX,
        VaultRequestView::TlsSign { message, key_id } => key_id.len() == 32 && message.len()
            <= u64::MAX,
        VaultRequestView::SksContains { key_id } => key_id.len() == 32,
        _ => true,
    }
}

/// Whether the keys, signatures and proofs of an answer have the lengths
/// of their algorithms.
pub open spec fn response_well_typed(response: VaultResponseView) -> bool {
    match response {
        VaultResponseView::GenKeyPair(Ok(key)) => is_public_key(key),
        VaultResponseView::Sign(Ok(signature)) => is_signature(signature),
        VaultResponseView::GenKeyPairWithPop(Ok((key, pop))) => is_public_key(key) && is_pop(pop),
        VaultResponseView::MultiSign(Ok(signature)) => is_signature(signature),
        VaultResponseView::TlsSign(Ok(signature)) => is_signature(signature),
        _ => true,
    }
}

/// Whether an answer can be written: it is well typed, its key identifier
/// has 32 bytes, and the lengths of its byte strings fit in eight bytes.
pub open spec fn response_fits(response: VaultResponseView) -> bool {
    response_well_typed(response) && frame_fits(response_frame(response))
}

/// A request that was written is read back.
pub proof fn lemma_request_round_trip(request: VaultRequestView)
    requires
        request_fits(request),
    ensures
        decode_request(encode_request(request)) == Some(request),
{
    let frame = request_frame(request);
    assert(no_key_id().len() == 32);
    crate::vault::frame::lemma_frame_round_trip(frame);
    match request {
        VaultRequestView::GenKeyPair { algorithm_id } => {
            crate::algorithm::lemma_algorithm_number_round_trip(algorithm_id);
        },
        VaultRequestView::Sign { algorithm_id, .. } => {
            crate::algorithm::lemma_algorithm_number_round_trip(algorithm_id);
        },
        VaultRequestView::GenKeyPairWithPop { algorithm_id } => {
            crate::algorithm::lemma_algorithm_number_round_trip(algorithm_id);
        },
        VaultRequestView::MultiSign { algorithm_id, .. } => {
            crate::algorithm::lemma_algorithm_number_round_trip(algorithm_id);
        },
        VaultRequestView::TlsSign { .. } => {},
        VaultRequestView::SksContains { .. } => {},
    }
}

/// The frame of a refusal to sign carries that refusal.
pub proof fn lemma_signature_error_round_trip(operation: u8, error: SignatureErrorView)
    ensures
        frame_signature_error(signature_error_frame(operation, error)) == Some(error),
        signature_error_frame(operation, error).operation == operation,
        signature_error_frame(operation, error).status != STATUS_OK,
{
    broadcast use vstd::utf8::encode_utf8_valid_utf8, vstd::utf8::encode_utf8_decode_utf8;

    match error {
        SignatureErrorView::SecretKeyNotFound { algorithm, .. } => {
            crate::algorithm::lemma_algorithm_number_round_trip(algorithm);
        },
        SignatureErrorView::UnsupportedAlgorithm { algorithm } => {
            crate::algorithm::lemma_algorithm_number_round_trip(algorithm);
        },
        SignatureErrorView::WrongSecretKeyType { algorithm, .. } => {
            crate::algorithm::lemma_algorithm_number_round_trip(algorithm);
        },
        SignatureErrorView::MalformedSecretKey { algorithm } => {
            crate::algorithm::lemma_algorithm_number_round_trip(algorithm);
        },
        SignatureErrorView::TransientInternalError { .. } => {},
    }
}

/// The frame of a refusal to generate a key pair carries that refusal.
pub proof fn lemma_keygen_error_round_trip(operation: u8, error: KeygenErrorView)
    ensures
        frame_keygen_error(keygen_error_frame(operation, error)) == Some(error),
        keygen_error_frame(operation, error).operation == operation,
        keygen_error_frame(operation, error).status != STATUS_OK,
{
    broadcast use vstd::utf8::encode_utf8_valid_utf8, vstd::utf8::encode_utf8_decode_utf8;

    match error {
        KeygenErrorView::UnsupportedAlgorithm { algorithm } => {
            crate::algorithm::lemma_algorithm_number_round_trip(algorithm);
        },
        _ => {},
    }
}

/// The frame of a well-typed answer carries that answer.
pub proof fn lemma_response_frame_round_trip(response: VaultResponseView)
    requires
        response_well_typed(response),
    ensures
        frame_response(response_frame(response)) == Some(response),
{
    match response {
        VaultResponseView::GenKeyPair(Ok(key)) => {
            crate::algorithm::lemma_algorithm_number_round_trip(key.algorithm);
        },
        VaultResponseView::GenKeyPair(Err(error)) => {
            lemma_keygen_error_round_trip(OPERATION_GEN_KEY_PAIR, error);
        },
        VaultResponseView::Sign(Ok(signature)) => {
            crate::algorithm::lemma_algorithm_number_round_trip(signature.algorithm);
        },
        VaultResponseView::Sign(Err(error)) => {
            lemma_signature_error_round_trip(OPERATION_SIGN, error);
        },
        VaultResponseView::GenKeyPairWithPop(Ok((key, pop))) => {
            crate::algorithm::lemma_algorithm_number_round_trip(key.algorithm);
        },
        VaultResponseView::GenKeyPairWithPop(Err(error)) => {
            lemma_keygen_error_round_trip(OPERATION_GEN_KEY_PAIR_WITH_POP, error);
        },
        VaultResponseView::MultiSign(Ok(signature)) => {
            crate::algorithm::lemma_algorithm_number_round_trip(signature.algorithm);
        },
        VaultResponseView::MultiSign(Err(error)) => {
            lemma_signature_error_round_trip(OPERATION_MULTI_SIGN, error);
        },
        VaultResponseView::TlsSign(Ok(signature)) => {
            crate::algorithm::lemma_algorithm_number_round_trip(signature.algorithm);
        },
        VaultResponseView::TlsSign(Err(error)) => {
            lemma_signature_error_round_trip(OPERATION_TLS_SIGN, error);
        },
        VaultResponseView::SksContains(Ok(held)) => {},
        VaultResponseView::SksContains(Err(internal_error)) => {
            broadcast use vstd::utf8::encode_utf8_valid_utf8, vstd::utf8::encode_utf8_decode_utf8;

        },
    }
}

/// An answer that was written is read back.
pub proof fn lemma_response_round_trip(response: VaultResponseView)
    requires
        response_fits(response),
    ensures
        decode_response(encode_response(response)) == Some(response),
{
    lemma_response_frame_round_trip(response);
    crate::vault::frame::lemma_frame_round_trip(response_frame(response));
}

/// Calls `String::from_utf8`. Trusted, as its documentation says: a text
/// comes back exactly for bytes that are valid UTF-8, and it is the text
/// that the bytes encode.
#[verifier::external_body]
fn text_from_utf8(bytes: Vec<u8>) -> (text: Option<String>)
    ensures
        text.is_some() == valid_utf8(bytes@),
        text matches Some(text) ==> text@ == decode_utf8(bytes@),
{
    String::from_utf8(bytes).ok()
}

fn text_bytes(text: &String) -> (bytes: Vec<u8>)
    ensures
        bytes@ == encode_utf8(text@),
{
    let encoded = text.as_str().as_bytes();
    let bytes = copy_range(encoded, 0, encoded.len());
    assert(bytes@ =~= encoded@);
    bytes
}

fn plain(operation: u8, status: u8, algorithm: AlgorithmId) -> (frame: Frame)
    ensures
        frame@ == plain_frame(operation, status, algorithm),
{
    let frame = Frame {
        operation,
        status,
        algorithm: algorithm.as_u8(),
        key_id: [0u8; 32],
        first: Vec::new(),
        second: Vec::new(),
    };
    assert(frame.key_id@ =~= no_key_id());
    frame
}

fn basic_signature_error_frame(operation: u8, error: &CspBasicSignatureError) -> (frame: Frame)
    ensures
        frame@ == signature_error_frame(operation, error@),
{
    match error {
        CspBasicSignatureError::SecretKeyNotFound { algorithm, key_id } => Frame {
            operation,
            status: STATUS_SECRET_KEY_NOT_FOUND,
            algorithm: algorithm.as_u8(),
            key_id: key_id.get(),
            first: Vec::new(),
            second: Vec::new(),
        },
        CspBasicSignatureError::UnsupportedAlgorithm { algorithm } => plain(
            operation,
            STATUS_UNSUPPORTED_ALGORITHM,
            *algorithm,
        ),
        CspBasicSignatureError::WrongSecretKeyType { algorithm, stored_variant } => {
            let mut frame = plain(operation, STATUS_WRONG_SECRET_KEY_TYPE, *algorithm);
            frame.first = text_bytes(stored_variant);
            frame
        },
        CspBasicSignatureError::MalformedSecretKey { algorithm } => plain(
            operation,
            STATUS_MALFORMED_SECRET_KEY,
            *algorithm,
        ),
        CspBasicSignatureError::TransientInternalError { internal_error } => {
            let mut frame = plain(
                operation,
                STATUS_TRANSIENT_INTERNAL_ERROR,
                AlgorithmId::Placeholder,
            );
            frame.first = text_bytes(internal_error);
            frame
        },
    }
}

fn frame_basic_signature_error(frame: &Frame) -> (error: Option<CspBasicSignatureError>)
    ensures
        match error {
            Some(error) => frame_signature_error(frame@) == Some(error@),
            None => frame_signature_error(frame@).is_none(),
        },
{
    let algorithm = match AlgorithmId::from_u8(frame.algorithm) {
        Some(algorithm) => algorithm,
        None => {
            return None;
        },
    };
    if frame.status == STATUS_SECRET_KEY_NOT_FOUND {
        Some(CspBasicSignatureError::SecretKeyNotFound { algorithm, key_id: KeyId(frame.key_id) })
    } else if frame.status == STATUS_UNSUPPORTED_ALGORITHM {
        Some(CspBasicSignatureError::UnsupportedAlgorithm { algorithm })
    } else if frame.status == STATUS_WRONG_SECRET_KEY_TYPE {
        match text_from_utf8(frame.first.clone()) {
            Some(stored_variant) => Some(
                CspBasicSignatureError::WrongSecretKeyType { algorithm, stored_variant },
            ),
            None => None,
        }
    } else if frame.status == STATUS_MALFORMED_SECRET_KEY {
        Some(CspBasicSignatureError::MalformedSecretKey { algorithm })
    } else if frame.status == STATUS_TRANSIENT_INTERNAL_ERROR {
        match text_from_utf8(frame.first.clone()) {
            Some(internal_error) => Some(
                CspBasicSignatureError::TransientInternalError { internal_error },
            ),
            None => None,
        }
    } else {
        None
    }
}

fn multi_signature_error_frame(operation: u8, error: &CspMultiSignatureError) -> (frame: Frame)
    ensures
        frame@ == signature_error_frame(operation, error@),
{
    match error {
        CspMultiSignatureError::SecretKeyNotFound { algorithm, key_id } => Frame {
            operation,
            status: STATUS_SECRET_KEY_NOT_FOUND,
            algorithm: algorithm.as_u8(),
            key_id: key_id.get(),
            first: Vec::new(),
            second: Vec::new(),
        },
        CspMultiSignatureError::UnsupportedAlgorithm { algorithm } => plain(
            operation,
            STATUS_UNSUPPORTED_ALGORITHM,
            *algorithm,
        ),
        CspMultiSignatureError::WrongSecretKeyType { algorithm, stored_variant } => {
            let mut frame = plain(operation, STATUS_WRONG_SECRET_KEY_TYPE, *algorithm);
            frame.first = text_bytes(stored_variant);
            frame
        },
        CspMultiSignatureError::MalformedSecretKey { algorithm } => plain(
            operation,
            STATUS_MALFORMED_SECRET_KEY,
            *algorithm,
        ),
        CspMultiSignatureError::TransientInternalError { internal_error } => {
            let mut frame = plain(
                operation,
                STATUS_TRANSIENT_INTERNAL_ERROR,
                AlgorithmId::Placeholder,
            );
            frame.first = text_bytes(internal_error);
            frame
        },
    }
}

fn frame_multi_signature_error(frame: &Frame) -> (error: Option<CspMultiSignatureError>)
    ensures
        match error {
            Some(error) => frame_signature_error(frame@) == Some(error@),
            None => frame_signature_error(frame@).is_none(),
        },
{
    let algorithm = match AlgorithmId::from_u8(frame.algorithm) {
        Some(algorithm) => algorithm,
        None => {
            return None;
        },
    };
    if frame.status == STATUS_SECRET_KEY_NOT_FOUND {
        Some(CspMultiSignatureError::SecretKeyNotFound { algorithm, key_id: KeyId(frame.key_id) })
    } else if frame.status == STATUS_UNSUPPORTED_ALGORITHM {
        Some(CspMultiSignatureError::UnsupportedAlgorithm { algorithm })
    } else if frame.status == STATUS_WRONG_SECRET_KEY_TYPE {
        match text_from_utf8(frame.first.clone()) {
            Some(stored_variant) => Some(
                CspMultiSignatureError::WrongSecretKeyType { algorithm, stored_variant },
            ),
            None => None,
        }
    } else if frame.status == STATUS_MALFORMED_SECRET_KEY {
        Some(CspMultiSignatureError::MalformedSecretKey { algorithm })
    } else if frame.status == STATUS_TRANSIENT_INTERNAL_ERROR {
        match text_from_utf8(frame.first.clone()) {
            Some(internal_error) => Some(
                CspMultiSignatureError::TransientInternalError { internal_error },
            ),
            None => None,
        }
    } else {
        None
    }
}

fn basic_keygen_error_frame(operation: u8, error: &CspBasicSignatureKeygenError) -> (frame: Frame)
    ensures
        frame@ == keygen_error_frame(operation, error@),
{
    match error {
        CspBasicSignatureKeygenError::UnsupportedAlgorithm { algorithm } => plain(
            operation,
            STATUS_UNSUPPORTED_ALGORITHM,
            *algorithm,
        ),
        CspBasicSignatureKeygenError::DuplicateKeyId { key_id } => Frame {
            operation,
            status: STATUS_DUPLICATE_KEY_ID,
            algorithm: 0,
            key_id: key_id.get(),
            first: Vec::new(),
            second: Vec::new(),
        },
        CspBasicSignatureKeygenError::TransientInternalError { internal_error } => {
            let mut frame = plain(
                operation,
                STATUS_TRANSIENT_INTERNAL_ERROR,
                AlgorithmId::Placeholder,
            );
            frame.first = text_bytes(internal_error);
            frame
        },
    }
}

fn frame_basic_keygen_error(frame: &Frame) -> (error: Option<CspBasicSignatureKeygenError>)
    ensures
        match error {
            Some(error) => frame_keygen_error(frame@) == Some(error@),
            None => frame_keygen_error(frame@).is_none(),
        },
{
    let algorithm = match AlgorithmId::from_u8(frame.algorithm) {
        Some(algorithm) => algorithm,
        None => {
            return None;
        },
    };
    if frame.status == STATUS_UNSUPPORTED_ALGORITHM {
        Some(CspBasicSignatureKeygenError::UnsupportedAlgorithm { algorithm })
    } else if frame.status == STATUS_DUPLICATE_KEY_ID {
        Some(CspBasicSignatureKeygenError::DuplicateKeyId { key_id: KeyId(frame.key_id) })
    } else if frame.status == STATUS_TRANSIENT_INTERNAL_ERROR {
        match text_from_utf8(frame.first.clone()) {
            Some(internal_error) => Some(
                CspBasicSignatureKeygenError::TransientInternalError { internal_error },
            ),
            None => None,
        }
    } else {
        None
    }
}

fn multi_keygen_error_frame(operation: u8, error: &CspMultiSignatureKeygenError) -> (frame: Frame)
    ensures
        frame@ == keygen_error_frame(operation, error@),
{
    match error {
        CspMultiSignatureKeygenError::UnsupportedAlgorithm { algorithm } => plain(
            operation,
            STATUS_UNSUPPORTED_ALGORITHM,
            *algorithm,
        ),
        CspMultiSignatureKeygenError::DuplicateKeyId { key_id } => Frame {
            operation,
            status: STATUS_DUPLICATE_KEY_ID,
            algorithm: 0,
            key_id: key_id.get(),
            first: Vec::new(),
            second: Vec::new(),
        },
        CspMultiSignatureKeygenError::TransientInternalError { internal_error } => {
            let mut frame = plain(
                operation,
                STATUS_TRANSIENT_INTERNAL_ERROR,
                AlgorithmId::Placeholder,
            );
            frame.first = text_bytes(internal_error);
            frame
        },
    }
}

fn frame_multi_keygen_error(frame: &Frame) -> (error: Option<CspMultiSignatureKeygenError>)
    ensures
        match error {
            Some(error) => frame_keygen_error(frame@) == Some(error@),
            None => frame_keygen_error(frame@).is_none(),
        },
{
    let algorithm = match AlgorithmId::from_u8(frame.algorithm) {
        Some(algorithm) => algorithm,
        None => {
            return None;
        },
    };
    if frame.status == STATUS_UNSUPPORTED_ALGORITHM {
        Some(CspMultiSignatureKeygenError::UnsupportedAlgorithm { algorithm })
    } else if frame.status == STATUS_DUPLICATE_KEY_ID {
        Some(CspMultiSignatureKeygenError::DuplicateKeyId { key_id: KeyId(frame.key_id) })
    } else if frame.status == STATUS_TRANSIENT_INTERNAL_ERROR {
        match text_from_utf8(frame.first.clone()) {
            Some(internal_error) => Some(
                CspMultiSignatureKeygenError::TransientInternalError { internal_error },
            ),
            None => None,
        }
    } else {
        None
    }
}

fn frame_public_key(frame: &Frame) -> (key: Option<CspPublicKey>)
    ensures
        match key {
            Some(key) => is_public_key(frame_first(frame@)) && key@ == frame_first(frame@),
            None => !is_public_key(frame_first(frame@)),
        },
{
    if frame.algorithm == 7 && frame.first.len() == 32 {
        let bytes = read_block::<32>(frame.first.as_slice(), 0);
        assert(bytes@ =~= frame.first@);
        Some(CspPublicKey::Ed25519(bytes))
    } else if frame.algorithm == 1 && frame.first.len() == 96 {
        let bytes = read_block::<96>(frame.first.as_slice(), 0);
        assert(bytes@ =~= frame.first@);
        Some(CspPublicKey::MultiBls12_381(bytes))
    } else {
        None
    }
}

fn frame_signature(frame: &Frame) -> (signature: Option<CspSignature>)
    ensures
        match signature {
            Some(signature) => is_signature(frame_first(frame@)) && signature@ == frame_first(
                frame@,
            ),
            None => !is_signature(frame_first(frame@)),
        },
{
    if frame.algorithm == 7 && frame.first.len() == 64 {
        let bytes = read_block::<64>(frame.first.as_slice(), 0);
        assert(bytes@ =~= frame.first@);
        Some(CspSignature::Ed25519(bytes))
    } else if frame.algorithm == 1 && frame.first.len() == 48 {
        let bytes = read_block::<48>(frame.first.as_slice(), 0);
        assert(bytes@ =~= frame.first@);
        Some(CspSignature::MultiBls12_381(bytes))
    } else {
        None
    }
}

fn frame_proof(frame: &Frame) -> (pop: Option<CspPop>)
    ensures
        match pop {
            Some(pop) => is_pop(frame_second(frame@)) && pop@ == frame_second(frame@),
            None => !is_pop(frame_second(frame@)),
        },
{
    if frame.second.len() == 48 {
        let bytes = read_block::<48>(frame.second.as_slice(), 0);
        assert(bytes@ =~= frame.second@);
        Some(CspPop::MultiBls12_381(bytes))
    } else {
        None
    }
}

fn public_key_frame(operation: u8, key: &CspPublicKey, second: Vec<u8>) -> (frame: Frame)
    ensures
        frame@ == ok_frame(operation, key@, second@),
        is_public_key(key@),
{
    let mut frame = plain(operation, STATUS_OK, key.algorithm_id());
    let bytes = key.pk_bytes();
    frame.first = copy_range(bytes, 0, bytes.len());
    assert(frame.first@ =~= key@.bytes);
    frame.second = second;
    frame
}

fn signature_frame(operation: u8, signature: &CspSignature) -> (frame: Frame)
    ensures
        frame@ == ok_frame(operation, signature@, Seq::empty()),
        is_signature(signature@),
{
    let mut frame = plain(operation, STATUS_OK, signature.algorithm());
    match signature {
        CspSignature::Ed25519(bytes) => {
            frame.first = copy_range(bytes.as_slice(), 0, 64);
        },
        CspSignature::MultiBls12_381(bytes) => {
            frame.first = copy_range(bytes.as_slice(), 0, 48);
        },
    }
    assert(frame.first@ =~= signature@.bytes);
    frame
}

impl VaultRequest {
    /// The frame of this request.
    pub fn to_frame(&self) -> (frame: Frame)
        ensures
            frame@ == request_frame(self@),
            frame_request(frame@) == Some(self@),
    {
        let frame = match self {
            VaultRequest::GenKeyPair { algorithm_id } => plain(
                OPERATION_GEN_KEY_PAIR,
                STATUS_REQUEST,
                *algorithm_id,
            ),
            VaultRequest::Sign { algorithm_id, message, key_id } => Frame {
                operation: OPERATION_SIGN,
                status: STATUS_REQUEST,
                algorithm: algorithm_id.as_u8(),
                key_id: key_id.get(),
                first: message.clone(),
                second: Vec::new(),
            },
            VaultRequest::GenKeyPairWithPop { algorithm_id } => plain(
                OPERATION_GEN_KEY_PAIR_WITH_POP,
                STATUS_REQUEST,
                *algorithm_id,
            ),
            VaultRequest::MultiSign { algorithm_id, message, key_id } => Frame {
                operation: OPERATION_MULTI_SIGN,
                status: STATUS_REQUEST,
                algorithm: algorithm_id.as_u8(),
                key_id: key_id.get(),
                first: message.clone(),
                second: Vec::new(),
            },
            VaultRequest::TlsSign { message, key_id } => Frame {
                operation: OPERATION_TLS_SIGN,
                status: STATUS_REQUEST,
                algorithm: AlgorithmId::Tls.as_u8(),
                key_id: key_id.get(),
                first: message.clone(),
                second: Vec::new(),
            },
            VaultRequest::SksContains { key_id } => Frame {
                operation: OPERATION_SKS_CONTAINS,
                status: STATUS_REQUEST,
                algorithm: 0,
                key_id: key_id.get(),
                first: Vec::new(),
                second: Vec::new(),
            },
        };
        proof {
            match self {
                VaultRequest::GenKeyPair { algorithm_id } => {
                    crate::algorithm::lemma_algorithm_number_round_trip(*algorithm_id);
                },
                VaultRequest::Sign { algorithm_id, .. } => {
                    crate::algorithm::lemma_algorithm_number_round_trip(*algorithm_id);
                },
                VaultRequest::GenKeyPairWithPop { algorithm_id } => {
                    crate::algorithm::lemma_algorithm_number_round_trip(*algorithm_id);
                },
                VaultRequest::MultiSign { algorithm_id, .. } => {
                    crate::algorithm::lemma_algorithm_number_round_trip(*algorithm_id);
                },
                _ => {},
            }
        }
        frame
    }

    /// The request that a frame carries, if it carries one.
    pub fn from_frame(frame: Frame) -> (request: Option<VaultRequest>)
        ensures
            match request {
                Some(request) => frame_request(frame@) == Some(request@),
                None => frame_request(frame@).is_none(),
            },
    {
        if frame.status != STATUS_REQUEST {
            return None;
        }
        let algorithm_id = match AlgorithmId::from_u8(frame.algorithm) {
            Some(algorithm_id) => algorithm_id,
            None => {
                return None;
            },
        };
        if frame.operation == OPERATION_GEN_KEY_PAIR {
            Some(VaultRequest::GenKeyPair { algorithm_id })
        } else if frame.operation == OPERATION_SIGN {
            Some(
                VaultRequest::Sign {
                    algorithm_id,
                    message: frame.first,
                    key_id: KeyId(frame.key_id),
                },
            )
        } else if frame.operation == OPERATION_GEN_KEY_PAIR_WITH_POP {
            Some(VaultRequest::GenKeyPairWithPop { algorithm_id })
        } else if frame.operation == OPERATION_MULTI_SIGN {
            Some(
                VaultRequest::MultiSign {
                    algorithm_id,
                    message: frame.first,
                    key_id: KeyId(frame.key_id),
                },
            )
        } else if frame.operation == OPERATION_TLS_SIGN {
            Some(VaultRequest::TlsSign { message: frame.first, key_id: KeyId(frame.key_id) })
        } else if frame.operation == OPERATION_SKS_CONTAINS {
            Some(VaultRequest::SksContains { key_id: KeyId(frame.key_id) })
        } else {
            None
        }
    }

    /// The written form of this request.
    pub fn to_bytes(&self) -> (bytes: Vec<u8>)
        ensures
            bytes@ == encode_request(self@),
            decode_request(bytes@) == Some(self@),
    {
        self.to_frame().to_bytes()
    }

    /// Reads a request from its written form.
    pub fn from_bytes(bytes: &[u8]) -> (request: Option<VaultRequest>)
        ensures
            match request {
                Some(request) => decode_request(bytes@) == Some(request@),
                None => decode_request(bytes@).is_none(),
            },
    {
        match Frame::from_bytes(bytes) {
            Some(frame) => VaultRequest::from_frame(frame),
            None => None,
        }
    }
}

impl VaultResponse {
    /// The frame of this answer.
    pub fn to_frame(&self) -> (frame: Frame)
        ensures
            frame@ == response_frame(self@),
            frame_response(frame@) == Some(self@),
    {
        let frame = match self {
            VaultResponse::GenKeyPair(Ok(key)) => public_key_frame(
                OPERATION_GEN_KEY_PAIR,
                key,
                Vec::new(),
            ),
            VaultResponse::GenKeyPair(Err(error)) => basic_keygen_error_frame(
                OPERATION_GEN_KEY_PAIR,
                error,
            ),
            VaultResponse::Sign(Ok(signature)) => signature_frame(OPERATION_SIGN, signature),
            VaultResponse::Sign(Err(error)) => basic_signature_error_frame(OPERATION_SIGN, error),
            VaultResponse::GenKeyPairWithPop(Ok((key, CspPop::MultiBls12_381(pop)))) => {
                let second = copy_range(pop.as_slice(), 0, 48);
                assert(second@ =~= pop@);
                public_key_frame(OPERATION_GEN_KEY_PAIR_WITH_POP, key, second)
            },
            VaultResponse::GenKeyPairWithPop(Err(error)) => multi_keygen_error_frame(
                OPERATION_GEN_KEY_PAIR_WITH_POP,
                error,
            ),
            VaultResponse::MultiSign(Ok(signature)) => signature_frame(
                OPERATION_MULTI_SIGN,
                signature,
            ),
            VaultResponse::MultiSign(Err(error)) => multi_signature_error_frame(
                OPERATION_MULTI_SIGN,
                error,
            ),
            VaultResponse::TlsSign(Ok(signature)) => signature_frame(OPERATION_TLS_SIGN, signature),
            VaultResponse::TlsSign(Err(error)) => basic_signature_error_frame(
                OPERATION_TLS_SIGN,
                error,
            ),
            VaultResponse::SksContains(Ok(held)) => {
                let mut frame = plain(OPERATION_SKS_CONTAINS, STATUS_OK, AlgorithmId::Placeholder);
                frame.first.push(if *held { 1 } else { 0 });
                assert(frame.first@ =~= seq![if *held {
                    1u8
                } else {
                    0u8
                }]);
                frame
            },
            VaultResponse::SksContains(
                Err(CspSecretKeyStoreContainsError::TransientInternalError { internal_error }),
            ) => {
                let mut frame = plain(
                    OPERATION_SKS_CONTAINS,
                    STATUS_TRANSIENT_INTERNAL_ERROR,
                    AlgorithmId::Placeholder,
                );
                frame.first = text_bytes(internal_error);
                frame
            },
        };
        proof {
            match self {
                VaultResponse::GenKeyPair(Ok(key)) => {
                    assert(is_public_key(key@));
                },
                VaultResponse::Sign(Ok(signature)) => {
                    assert(is_signature(signature@));
                },
                VaultResponse::GenKeyPairWithPop(Ok((key, pop))) => {
                    assert(is_public_key(key@));
                    assert(is_pop(pop@));
                },
                VaultResponse::MultiSign(Ok(signature)) => {
                    assert(is_signature(signature@));
                },
                VaultResponse::TlsSign(Ok(signature)) => {
                    assert(is_signature(signature@));
                },
                _ => {},
            }
            lemma_response_frame_round_trip(self@);
        }
        frame
    }

    /// The answer that a frame carries, if it carries one.
    pub fn from_frame(frame: &Frame) -> (response: Option<VaultResponse>)
        ensures
            match response {
                Some(response) => frame_response(frame@) == Some(response@),
                None => frame_response(frame@).is_none(),
            },
    {
        if frame.operation == OPERATION_GEN_KEY_PAIR {
            if frame.status == STATUS_OK {
                match frame_public_key(frame) {
                    Some(key) => Some(VaultResponse::GenKeyPair(Ok(key))),
                    None => None,
                }
            } else {
                match frame_basic_keygen_error(frame) {
                    Some(error) => Some(VaultResponse::GenKeyPair(Err(error))),
                    None => None,
                }
            }
        } else if frame.operation == OPERATION_SIGN {
            if frame.status == STATUS_OK {
                match frame_signature(frame) {
                    Some(signature) => Some(VaultResponse::Sign(Ok(signature))),
                    None => None,
                }
            } else {
                match frame_basic_signature_error(frame) {
                    Some(error) => Some(VaultResponse::Sign(Err(error))),
                    None => None,
                }
            }
        } else if frame.operation == OPERATION_GEN_KEY_PAIR_WITH_POP {
            if frame.status == STATUS_OK {
                match (frame_public_key(frame), frame_proof(frame)) {
                    (Some(key), Some(pop)) => Some(
                        VaultResponse::GenKeyPairWithPop(Ok((key, pop))),
                    ),
                    _ => None,
                }
            } else {
                match frame_multi_keygen_error(frame) {
                    Some(error) => Some(VaultResponse::GenKeyPairWithPop(Err(error))),
                    None => None,
                }
            }
        } else if frame.operation == OPERATION_MULTI_SIGN {
            if frame.status == STATUS_OK {
                match frame_signature(frame) {
                    Some(signature) => Some(VaultResponse::MultiSign(Ok(signature))),
                    None => None,
                }
            } else {
                match frame_multi_signature_error(frame) {
                    Some(error) => Some(VaultResponse::MultiSign(Err(error))),
                    None => None,
                }
            }
        } else if frame.operation == OPERATION_TLS_SIGN {
            if frame.status == STATUS_OK {
                match frame_signature(frame) {
                    Some(signature) => Some(VaultResponse::TlsSign(Ok(signature))),
                    None => None,
                }
            } else {
                match frame_basic_signature_error(frame) {
                    Some(error) => Some(VaultResponse::TlsSign(Err(error))),
                    None => None,
                }
            }
        } else if frame.operation == OPERATION_SKS_CONTAINS {
            if frame.status == STATUS_OK {
                if frame.first.len() == 1 && frame.first[0] <= 1 {
                    Some(VaultResponse::SksContains(Ok(frame.first[0] == 1)))
                } else {
                    None
                }
            } else if frame.status == STATUS_TRANSIENT_INTERNAL_ERROR {
                match text_from_utf8(frame.first.clone()) {
                    Some(internal_error) => Some(
                        VaultResponse::SksContains(
                            Err(
                                CspSecretKeyStoreContainsError::TransientInternalError {
                                    internal_error,
                                },
                            ),
                        ),
                    ),
                    None => None,
                }
            } else {
                None
            }
        } else {
            None
        }
    }

    /// The written form of this answer.
    pub fn to_bytes(&self) -> (bytes: Vec<u8>)
        ensures
            bytes@ == encode_response(self@),
            decode_response(bytes@) == Some(self@),
    {
        self.to_frame().to_bytes()
    }

    /// Reads an answer from its written form.
    pub fn from_bytes(bytes: &[u8]) -> (response: Option<VaultResponse>)
        ensures
            match response {
                Some(response) => decode_response(bytes@) == Some(response@),
                None => decode_response(bytes@).is_none(),
            },
    {
        match Frame::from_bytes(bytes) {
            Some(frame) => VaultResponse::from_frame(&frame),
            None => None,
        }
    }
}

} // verus!
