//! Codec and signing core of a detached-signature tool.
//!
//! Three fixed-width binary records — a public key, a password-protectable
//! private key, and a signature — are encoded and decoded with strict
//! validation, and a signing/verification pair binds a signature to the key
//! that produced it.  The Ed25519 primitives themselves come from the
//! `ed25519_dalek` crate behind a small trusted boundary in [`crypto`];
//! everything else is verified.

use vstd::prelude::*;

pub mod bytes;
pub mod crypto;
pub mod laws;
pub mod structs;

verus! {

/// A decode failure.
///
/// `FormatError` means the buffer is structurally unusable: too short, or its
/// algorithm tag differs from the expected constant.  `CryptoError` means the
/// buffer has the right shape but its key material does not decode to a valid
/// value of the underlying signature scheme.  A failed verification is never
/// an error: `verify` reports it as `false`.
#[derive(Clone, Copy, Debug, PartialEq, Eq, Structural)]
pub enum Error {
    FormatError,
    CryptoError,
}

} // verus!
