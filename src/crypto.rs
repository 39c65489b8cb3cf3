//! The hash and signature primitives the protocol is built on.
//!
//! Each primitive is named by an uninterpreted spec function: its result is
//! a function of its arguments alone, and the protocol's contracts speak of it
//! by that name.
use sha2::Digest;
use vstd::prelude::*;

verus! {

/// The SHA-256 digest of `data`.
pub uninterp spec fn sha256_of(data: Seq<u8>) -> Seq<u8>;

/// The Ed25519 verification key (compressed point) of the secret key whose
/// seed is `seed`.
pub uninterp spec fn verification_key_of(seed: Seq<u8>) -> Seq<u8>;

/// The Ed25519 signature made on `msg` by the secret key whose seed is `seed`.
pub uninterp spec fn signature_of(seed: Seq<u8>, msg: Seq<u8>) -> Seq<u8>;

/// Whether Ed25519 verification accepts `sig` on `msg` under the key
/// encoded as `vk`, where a malformed encoding of `vk` is not accepted.
pub uninterp spec fn signature_accepted(vk: Seq<u8>, sig: Seq<u8>, msg: Seq<u8>) -> bool;

/// Relies on `sha2::Sha256::digest`: the 32-byte SHA-256 digest of `data`.
#[verifier::external_body]
pub(crate) fn sha256(data: &[u8]) -> (r: [u8; 32])
    ensures
        r@ == sha256_of(data@),
{
    let mut out = [0u8; 32];
    out.copy_from_slice(&sha2::Sha256::digest(data)[..]);
    out
}

/// Relies on `ed25519_zebra::SecretKey::from([u8; 32])` and
/// `PublicKeyBytes::from(&SecretKey)`: the encoded public key that belongs to
/// the secret key with seed `seed`.
#[verifier::external_body]
pub(crate) fn verification_key(seed: &[u8; 32]) -> (r: [u8; 32])
    ensures
        r@ == verification_key_of(seed@),
{
    let sk = ed25519_zebra::SecretKey::from(*seed);
    ed25519_zebra::PublicKeyBytes::from(&sk).into()
}

/// Relies on `ed25519_zebra::SecretKey::sign`: a deterministic Ed25519
/// signature on `msg` by the secret key with seed `seed`.
#[verifier::external_body]
pub(crate) fn sign(seed: &[u8; 32], msg: &[u8]) -> (r: [u8; 64])
    ensures
        r@ == signature_of(seed@, msg@),
{
    let sk = ed25519_zebra::SecretKey::from(*seed);
    sk.sign(msg).into()
}

/// Relies on `ed25519_zebra::PublicKey::try_from(PublicKeyBytes)` followed by
/// `PublicKey::verify`: whether `sig` is a valid signature on `msg` under the
/// key encoded as `vk`.
#[verifier::external_body]
pub(crate) fn verify_signature(vk: &[u8; 32], sig: &[u8; 64], msg: &[u8]) -> (r: bool)
    ensures
        r == signature_accepted(vk@, sig@, msg@),
{
    let sig = ed25519_zebra::Signature::from(*sig);
    ed25519_zebra::PublicKey::try_from(ed25519_zebra::PublicKeyBytes::from(*vk))
        .and_then(|pk| pk.verify(&sig, msg))
        .is_ok()
}

} // verus!
