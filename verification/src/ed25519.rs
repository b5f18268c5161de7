//! Ed25519 signatures, as the `ed25519-consensus` crate computes them.

use vstd::prelude::*;

verus! {

/// Number of bytes in an Ed25519 secret key.
pub const SECRET_KEY_LEN: usize = 32;

/// Number of bytes in an Ed25519 public key.
pub const PUBLIC_KEY_LEN: usize = 32;

/// Number of bytes in an Ed25519 signature.
pub const SIGNATURE_LEN: usize = 64;

/// The public key that belongs to a secret key.
pub uninterp spec fn public_key_of(secret_key: Seq<u8>) -> Seq<u8>;

/// The signature that a secret key gives on a message.
pub uninterp spec fn signature_of(secret_key: Seq<u8>, message: Seq<u8>) -> Seq<u8>;

/// Whether a signature on a message is accepted under a public key.
pub uninterp spec fn accepts(public_key: Seq<u8>, message: Seq<u8>, signature: Seq<u8>) -> bool;

/// Calls `ed25519_consensus::SigningKey::from` on the 32 bytes and returns
/// the bytes of its verification key. Trusted: the result depends on the
/// secret key alone.
#[verifier::external_body]
pub(crate) fn public_key(secret_key: &[u8; 32]) -> (public_key: [u8; 32])
    ensures
        public_key@ == public_key_of(secret_key@),
{
    ed25519_consensus::SigningKey::from(*secret_key).verification_key().to_bytes()
}

/// Calls `ed25519_consensus::SigningKey::sign`. Trusted: the signature
/// depends on the secret key and the message alone (no randomness enters),
/// and it is accepted under the public key of that secret key, as the
/// crate's own example of signing and verifying shows.
#[verifier::external_body]
pub(crate) fn sign(secret_key: &[u8; 32], message: &[u8]) -> (signature: [u8; 64])
    ensures
        signature@ == signature_of(secret_key@, message@),
        accepts(public_key_of(secret_key@), message@, signature@),
{
    ed25519_consensus::SigningKey::from(*secret_key).sign(message).to_bytes()
}

/// Calls `ed25519_consensus::VerificationKey::verify`. Trusted: the answer
/// depends on the three byte strings alone; a public key that does not
/// decode is an answer of `false`.
#[verifier::external_body]
pub(crate) fn verify(public_key: &[u8; 32], message: &[u8], signature: &[u8; 64]) -> (ok: bool)
    ensures
        ok == accepts(public_key@, message@, signature@),
{
    match ed25519_consensus::VerificationKey::try_from(*public_key) {
        Ok(key) => key.verify(&ed25519_consensus::Signature::from(*signature), message).is_ok(),
        Err(_) => false,
    }
}

} // verus!
