//! Trusted boundary to the Ed25519 primitives of `ed25519_dalek`.
//!
//! The names below stand for what the primitives compute: Ed25519 key
//! parsing, signing and verification are deterministic functions of their
//! byte arguments, far too large to restate here, so each gets an
//! uninterpreted spec function, and the wrappers' contracts speak of those
//! names.  Key generation draws from the operating system's randomness, so
//! nothing is named for it: its contract states only what holds of every
//! outcome.

use vstd::prelude::*;
use ed25519_dalek::Signer;
use ed25519_dalek::Verifier;

verus! {

/// Whether `ed25519_dalek::VerifyingKey::from_bytes` accepts these 32 bytes,
/// i.e. whether they decompress to a point of the curve.
pub uninterp spec fn public_key_parses(b: Seq<u8>) -> bool;

/// Whether `ed25519_dalek::SigningKey::from_keypair_bytes` accepts these 64
/// bytes: the second half must parse as a public key and equal the one
/// derived from the first half.
pub uninterp spec fn keypair_parses(b: Seq<u8>) -> bool;

/// The 64 signature bytes that signing `msg` with the 64-byte `keypair`
/// produces.  Ed25519 signing (RFC 8032) is deterministic, so this is a
/// function of the two arguments alone.
pub uninterp spec fn signature_of(keypair: Seq<u8>, msg: Seq<u8>) -> Seq<u8>;

/// Whether Ed25519 verification under the 32-byte public key `public`
/// accepts `sig` as a signature over `msg`.
pub uninterp spec fn verify_accepts(public: Seq<u8>, msg: Seq<u8>, sig: Seq<u8>) -> bool;

/// Relies on `ed25519_dalek::VerifyingKey::from_bytes`: it succeeds exactly
/// when the bytes decompress to a curve point, and depends on the bytes
/// alone.
#[verifier::external_body]
pub(crate) fn check_public_bytes(b: &[u8]) -> (r: bool)
    requires
        b@.len() == 32,
    ensures
        r == public_key_parses(b@),
{
    let arr: [u8; 32] = b.try_into().unwrap();
    ed25519_dalek::VerifyingKey::from_bytes(&arr).is_ok()
}

/// Relies on `ed25519_dalek::SigningKey::from_keypair_bytes`: it succeeds
/// exactly when the trailing 32 bytes parse as a public key (its own call to
/// `VerifyingKey::from_bytes`) and equal the key derived from the leading 32.
#[verifier::external_body]
pub(crate) fn check_keypair_bytes(b: &[u8]) -> (r: bool)
    requires
        b@.len() == 64,
    ensures
        r == keypair_parses(b@),
        r ==> public_key_parses(b@.subrange(32, 64)),
{
    let arr: [u8; 64] = b.try_into().unwrap();
    ed25519_dalek::SigningKey::from_keypair_bytes(&arr).is_ok()
}

/// Relies on `ed25519_dalek::SigningKey::from_keypair_bytes` and
/// `Signer::sign`: signing is deterministic in the keypair and message
/// (RFC 8032), never fails for a parsed key, and produces a signature that
/// Ed25519 verification accepts under the keypair's public half — the
/// trailing 32 bytes, which `from_keypair_bytes` has checked against the
/// derived key.
#[verifier::external_body]
pub(crate) fn sign_with_keypair(keypair: &[u8], msg: &[u8]) -> (r: Vec<u8>)
    requires
        keypair@.len() == 64,
        keypair_parses(keypair@),
    ensures
        r@.len() == 64,
        r@ == signature_of(keypair@, msg@),
        verify_accepts(keypair@.subrange(32, 64), msg@, r@),
{
    let arr: [u8; 64] = keypair.try_into().unwrap();
    let key = ed25519_dalek::SigningKey::from_keypair_bytes(&arr).unwrap();
    key.sign(msg).to_bytes().to_vec()
}

/// Relies on `ed25519_dalek::VerifyingKey::from_bytes`,
/// `ed25519_dalek::Signature::from_bytes` (infallible on 64 bytes) and
/// `Verifier::verify`: the outcome is deterministic in the key, message and
/// signature bytes, and a key that does not parse accepts nothing.
#[verifier::external_body]
pub(crate) fn verify_with_public(public: &[u8], msg: &[u8], sig: &[u8]) -> (r: bool)
    requires
        public@.len() == 32,
        sig@.len() == 64,
    ensures
        public_key_parses(public@) ==> r == verify_accepts(public@, msg@, sig@),
        !public_key_parses(public@) ==> !r,
{
    let arr: [u8; 32] = public.try_into().unwrap();
    let sig_arr: [u8; 64] = sig.try_into().unwrap();
    match ed25519_dalek::VerifyingKey::from_bytes(&arr) {
        Ok(key) => {
            let signature = ed25519_dalek::Signature::from_bytes(&sig_arr);
            key.verify(msg, &signature).is_ok()
        }
        Err(_) => false,
    }
}

/// Relies on `ed25519_dalek::SigningKey::generate` and `to_keypair_bytes`:
/// the result is the 32 secret bytes followed by the 32 bytes of the derived
/// public key, which `from_keypair_bytes` is documented to accept.  The
/// bytes come from the operating system's randomness, so no more is stated.
#[verifier::external_body]
pub(crate) fn generate_keypair_bytes() -> (r: Vec<u8>)
    ensures
        r@.len() == 64,
        keypair_parses(r@),
        public_key_parses(r@.subrange(32, 64)),
{
    let mut csprng = rand::rngs::OsRng;
    let key = ed25519_dalek::SigningKey::generate(&mut csprng);
    key.to_keypair_bytes().to_vec()
}

} // verus!
