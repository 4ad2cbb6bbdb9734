//! The codec laws, proved over the spec-level encodings and decodings of
//! [`crate::structs`].
//!
//! Each law quantifies over the mathematical record values, so together
//! with the contracts of `write` and `from_buf` it carries over to the
//! executable codecs.  Sign/verify correctness is stated directly on
//! [`crate::structs::PrivateKey::sign`] and
//! [`crate::structs::Signature::verify`]: the fact that a fresh signature
//! passes verification is part of `sign`'s postcondition.

use vstd::prelude::*;
use crate::Error;
use crate::bytes::lemma_u32_be_round_trip;
use crate::structs::KDFALG_0;
use crate::structs::KDFALG_1;
use crate::structs::PKGALG_0;
use crate::structs::PKGALG_1;
use crate::structs::PrivateKeyV;
use crate::structs::PublicKeyV;
use crate::structs::SignatureV;
use crate::structs::privkey_decoded;
use crate::structs::pubkey_decoded;
use crate::structs::signature_decoded;

verus! {

/// Round-trip: decoding the encoding of any well-formed public key yields
/// the same record, field for field.
pub proof fn lemma_pubkey_round_trip(v: PublicKeyV)
    requires
        v.wf(),
    ensures
        pubkey_decoded(v.encoding()) == Ok::<PublicKeyV, Error>(v),
{
    let b = v.encoding();
    assert(b.subrange(2, 10) =~= v.keynum);
    assert(b.subrange(10, 42) =~= v.public);
}

/// Round-trip: decoding the encoding of any well-formed private key yields
/// the same record, field for field.
pub proof fn lemma_privkey_round_trip(v: PrivateKeyV)
    requires
        v.wf(),
    ensures
        privkey_decoded(v.encoding()) == Ok::<PrivateKeyV, Error>(v),
{
    let b = v.encoding();
    lemma_u32_be_round_trip(v.kdfrounds);
    assert(b.subrange(4, 8) =~= crate::bytes::u32_be_bytes(v.kdfrounds));
    assert(b.subrange(8, 24) =~= v.salt);
    assert(b.subrange(24, 32) =~= v.checksum);
    assert(b.subrange(32, 40) =~= v.keynum);
    assert(b.subrange(40, 104) =~= v.keypair);
}

/// Round-trip: decoding the encoding of any well-formed signature yields
/// the same record, field for field.
pub proof fn lemma_signature_round_trip(v: SignatureV)
    requires
        v.wf(),
    ensures
        signature_decoded(v.encoding()) == Ok::<SignatureV, Error>(v),
{
    let b = v.encoding();
    assert(b.subrange(2, 10) =~= v.keynum);
    assert(b.subrange(10, 74) =~= v.sig);
}

/// Any buffer shorter than the fixed public-key record length is rejected
/// as a format error.
pub proof fn lemma_pubkey_short_input_rejected(b: Seq<u8>)
    requires
        b.len() < 42,
    ensures
        pubkey_decoded(b) == Err::<PublicKeyV, Error>(Error::FormatError),
{
}

/// Any buffer shorter than the fixed private-key record length is rejected
/// as a format error.
pub proof fn lemma_privkey_short_input_rejected(b: Seq<u8>)
    requires
        b.len() < 104,
    ensures
        privkey_decoded(b) == Err::<PrivateKeyV, Error>(Error::FormatError),
{
}

/// Any buffer shorter than the fixed signature record length is rejected
/// as a format error.
pub proof fn lemma_signature_short_input_rejected(b: Seq<u8>)
    requires
        b.len() < 74,
    ensures
        signature_decoded(b) == Err::<SignatureV, Error>(Error::FormatError),
{
}

/// Bytes trailing the fixed public-key record length do not affect the
/// outcome: decoding looks only at the first 42 bytes.
pub proof fn lemma_pubkey_trailing_bytes_ignored(b: Seq<u8>)
    requires
        b.len() >= 42,
    ensures
        pubkey_decoded(b) == pubkey_decoded(b.take(42)),
{
    assert(b.take(42).subrange(2, 10) =~= b.subrange(2, 10));
    assert(b.take(42).subrange(10, 42) =~= b.subrange(10, 42));
}

/// Bytes trailing the fixed private-key record length do not affect the
/// outcome: decoding looks only at the first 104 bytes.
pub proof fn lemma_privkey_trailing_bytes_ignored(b: Seq<u8>)
    requires
        b.len() >= 104,
    ensures
        privkey_decoded(b) == privkey_decoded(b.take(104)),
{
    assert(b.take(104).subrange(4, 8) =~= b.subrange(4, 8));
    assert(b.take(104).subrange(8, 24) =~= b.subrange(8, 24));
    assert(b.take(104).subrange(24, 32) =~= b.subrange(24, 32));
    assert(b.take(104).subrange(32, 40) =~= b.subrange(32, 40));
    assert(b.take(104).subrange(40, 104) =~= b.subrange(40, 104));
}

/// Bytes trailing the fixed signature record length do not affect the
/// outcome: decoding looks only at the first 74 bytes.
pub proof fn lemma_signature_trailing_bytes_ignored(b: Seq<u8>)
    requires
        b.len() >= 74,
    ensures
        signature_decoded(b) == signature_decoded(b.take(74)),
{
    assert(b.take(74).subrange(2, 10) =~= b.subrange(2, 10));
    assert(b.take(74).subrange(10, 74) =~= b.subrange(10, 74));
}

/// Tag rejection: a public-key buffer whose algorithm tag differs in any
/// byte — as after flipping a tag byte of a valid encoding — is rejected
/// as a format error.
pub proof fn lemma_pubkey_bad_tag_rejected(b: Seq<u8>)
    requires
        b.len() >= 42,
        b[0] != PKGALG_0 || b[1] != PKGALG_1,
    ensures
        pubkey_decoded(b) == Err::<PublicKeyV, Error>(Error::FormatError),
{
}

/// Tag rejection: a private-key buffer whose package tag or KDF tag
/// differs in any byte is rejected as a format error.
pub proof fn lemma_privkey_bad_tag_rejected(b: Seq<u8>)
    requires
        b.len() >= 104,
        b[0] != PKGALG_0 || b[1] != PKGALG_1 || b[2] != KDFALG_0 || b[3] != KDFALG_1,
    ensures
        privkey_decoded(b) == Err::<PrivateKeyV, Error>(Error::FormatError),
{
}

/// Tag rejection: a signature buffer whose algorithm tag differs in any
/// byte is rejected as a format error.
pub proof fn lemma_signature_bad_tag_rejected(b: Seq<u8>)
    requires
        b.len() >= 74,
        b[0] != PKGALG_0 || b[1] != PKGALG_1,
    ensures
        signature_decoded(b) == Err::<SignatureV, Error>(Error::FormatError),
{
}

/// Keynum propagation through the codec: the key identity survives an
/// encode/decode round trip unchanged, for each of the three records.
pub proof fn lemma_keynum_propagation(p: PublicKeyV, k: PrivateKeyV, s: SignatureV)
    requires
        p.wf(),
        k.wf(),
        s.wf(),
    ensures
        (pubkey_decoded(p.encoding()) matches Ok(d) && d.keynum == p.keynum),
        (privkey_decoded(k.encoding()) matches Ok(d) && d.keynum == k.keynum),
        (signature_decoded(s.encoding()) matches Ok(d) && d.keynum == s.keynum),
{
    lemma_pubkey_round_trip(p);
    lemma_privkey_round_trip(k);
    lemma_signature_round_trip(s);
}

} // verus!
