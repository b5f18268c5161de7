//! BLS signatures on BLS12-381 with public keys in G2 and signatures in G1,
//! as the `blst` crate computes them.

use vstd::prelude::*;

verus! {

/// Number of bytes in a secret key: the key material from which the scalar
/// that signs is derived.
pub const SECRET_KEY_LEN: usize = 32;

/// Number of bytes in a public key.
pub const PUBLIC_KEY_LEN: usize = 96;

/// Number of bytes in a signature.
pub const SIGNATURE_LEN: usize = 48;

/// The public key that belongs to a secret key.
pub uninterp spec fn public_key_of(secret_key: Seq<u8>) -> Seq<u8>;

/// The signature that a secret key gives on a message in a domain.
pub uninterp spec fn signature_of(secret_key: Seq<u8>, message: Seq<u8>, domain: Seq<u8>) -> Seq<
    u8,
>;

/// Whether a signature on a message in a domain is accepted under a public
/// key.
pub uninterp spec fn accepts(
    public_key: Seq<u8>,
    message: Seq<u8>,
    domain: Seq<u8>,
    signature: Seq<u8>,
) -> bool;

/// Calls `blst::min_sig::SecretKey::key_gen` on the 32 bytes with empty key
/// info, then `sk_to_pk`, and returns the bytes of the public key. Trusted:
/// `key_gen` fails only on fewer than 32 bytes of key material, so it does
/// not fail here; the public key depends on the secret key alone.
#[verifier::external_body]
pub(crate) fn public_key(secret_key: &[u8; 32]) -> (public_key: [u8; 96])
    ensures
        public_key@ == public_key_of(secret_key@),
{
    blst::min_sig::SecretKey::key_gen(secret_key, &[]).expect("32 bytes").sk_to_pk().to_bytes()
}

/// Calls `blst::min_sig::SecretKey::key_gen` on the 32 bytes with empty key
/// info, then `sign` with no augmentation. Trusted: `key_gen` does not fail
/// on 32 bytes; the signature depends on the three byte strings alone; and
/// it is accepted under the public key of that secret key, as the crate's
/// own example of generating a key, signing and verifying shows.
#[verifier::external_body]
pub(crate) fn sign(secret_key: &[u8; 32], message: &[u8], domain: &[u8]) -> (signature: [u8; 48])
    ensures
        signature@ == signature_of(secret_key@, message@, domain@),
        accepts(public_key_of(secret_key@), message@, domain@, signature@),
{
    let key = blst::min_sig::SecretKey::key_gen(secret_key, &[]).expect("32 bytes");
    key.sign(message, domain, &[]).to_bytes()
}

/// Calls `blst::min_sig::Signature::verify` with group checks on and no
/// augmentation. Trusted: the answer depends on the four byte strings alone;
/// a public key or a signature that does not decode is an answer of `false`.
#[verifier::external_body]
pub(crate) fn verify(
    public_key: &[u8; 96],
    message: &[u8],
    domain: &[u8],
    signature: &[u8; 48],
) -> (ok: bool)
    ensures
        ok == accepts(public_key@, message@, domain@, signature@),
{
    match (
        blst::min_sig::PublicKey::from_bytes(public_key),
        blst::min_sig::Signature::from_bytes(signature),
    ) {
        (Ok(key), Ok(sig)) => sig.verify(true, message, domain, &[], &key, true)
            == blst::BLST_ERROR::BLST_SUCCESS,
        _ => false,
    }
}

} // verus!
