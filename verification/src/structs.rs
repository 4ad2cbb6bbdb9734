//! The three wire-format records — public key, private key, signature —
//! with their codecs, and the signing/verification pair that binds them.
//!
//! Every record is a fixed-width binary layout, big-endian where numeric,
//! with no padding and no length prefixes.  Decoders reject short buffers
//! and wrong algorithm tags with [`Error::FormatError`], and key material
//! the signature scheme refuses with [`Error::CryptoError`]; trailing bytes
//! beyond the fixed length are ignored.  The spec functions `*_decoded`
//! and `encoding` are the mathematical statement of the layouts; the laws
//! relating them are proved in [`crate::laws`].

use vstd::prelude::*;
use crate::Error;
use crate::bytes::append_bytes;
use crate::bytes::copy_range;
use crate::bytes::read_u32_be;
use crate::bytes::u32_be_bytes;
use crate::bytes::u32_from_be;
use crate::bytes::write_u32_be;
use crate::bytes::zeroed;
use crate::crypto::check_keypair_bytes;
use crate::crypto::check_public_bytes;
use crate::crypto::generate_keypair_bytes;
use crate::crypto::keypair_parses;
use crate::crypto::public_key_parses;
use crate::crypto::sign_with_keypair;
use crate::crypto::signature_of;
use crate::crypto::verify_accepts;
use crate::crypto::verify_with_public;

verus! {

pub const KEYNUMLEN: usize = 8;

pub const PUBLICBYTES: usize = 32;

pub const SECRETBYTES: usize = 64;

pub const SIGBYTES: usize = 64;

/// First byte of the package algorithm tag, ASCII `E`.
pub const PKGALG_0: u8 = 0x45;

/// Second byte of the package algorithm tag, ASCII `d`.
pub const PKGALG_1: u8 = 0x64;

/// First byte of the key-derivation algorithm tag, ASCII `B`.
pub const KDFALG_0: u8 = 0x42;

/// Second byte of the key-derivation algorithm tag, ASCII `K`.
pub const KDFALG_1: u8 = 0x4B;

/// Total encoded size of a public-key record: tag, keynum, key bytes.
pub const PUBLICKEY_RECORD_LEN: usize = 42;

/// Total encoded size of a private-key record: tag, KDF tag, rounds,
/// salt, checksum, keynum, keypair bytes.
pub const PRIVATEKEY_RECORD_LEN: usize = 104;

/// Total encoded size of a signature record: tag, keynum, signature bytes.
pub const SIGNATURE_RECORD_LEN: usize = 74;

pub open spec fn pkgalg() -> Seq<u8> {
    seq![PKGALG_0, PKGALG_1]
}

pub open spec fn kdfalg() -> Seq<u8> {
    seq![KDFALG_0, KDFALG_1]
}

/// A public key: an 8-byte opaque key identity and the raw 32 key bytes.
pub struct PublicKey {
    pub keynum: Vec<u8>,
    public: Vec<u8>,
}

/// A password-protectable private key.  The KDF fields (rounds, salt,
/// checksum) describe the protection structurally; this codec carries them
/// opaquely and never derives or validates anything from them.
pub struct PrivateKey {
    pub kdfrounds: u32,
    pub salt: Vec<u8>,
    pub checksum: Vec<u8>,
    pub keynum: Vec<u8>,
    pub keypair: Vec<u8>,
}

/// A detached signature: the key identity it claims and the raw 64
/// signature bytes.
pub struct Signature {
    pub keynum: Vec<u8>,
    sig: Vec<u8>,
}

/// Mathematical value of a [`PublicKey`].
pub struct PublicKeyV {
    pub keynum: Seq<u8>,
    pub public: Seq<u8>,
}

/// Mathematical value of a [`PrivateKey`].
pub struct PrivateKeyV {
    pub kdfrounds: u32,
    pub salt: Seq<u8>,
    pub checksum: Seq<u8>,
    pub keynum: Seq<u8>,
    pub keypair: Seq<u8>,
}

/// Mathematical value of a [`Signature`].
pub struct SignatureV {
    pub keynum: Seq<u8>,
    pub sig: Seq<u8>,
}

impl View for PublicKey {
    type V = PublicKeyV;

    closed spec fn view(&self) -> PublicKeyV {
        PublicKeyV { keynum: self.keynum@, public: self.public@ }
    }
}

impl View for PrivateKey {
    type V = PrivateKeyV;

    closed spec fn view(&self) -> PrivateKeyV {
        PrivateKeyV {
            kdfrounds: self.kdfrounds,
            salt: self.salt@,
            checksum: self.checksum@,
            keynum: self.keynum@,
            keypair: self.keypair@,
        }
    }
}

impl View for Signature {
    type V = SignatureV;

    closed spec fn view(&self) -> SignatureV {
        SignatureV { keynum: self.keynum@, sig: self.sig@ }
    }
}

impl PublicKeyV {
    /// Field sizes are right and the key bytes are a point of the curve.
    pub open spec fn wf(self) -> bool {
        &&& self.keynum.len() == 8
        &&& self.public.len() == 32
        &&& public_key_parses(self.public)
    }

    /// Layout: tag 0:2, keynum 2:8, key 10:32.
    pub open spec fn encoding(self) -> Seq<u8> {
        pkgalg() + self.keynum + self.public
    }
}

impl PrivateKeyV {
    /// Field sizes are right and the keypair bytes parse as a matching
    /// (secret, public) pair.
    pub open spec fn wf(self) -> bool {
        &&& self.salt.len() == 16
        &&& self.checksum.len() == 8
        &&& self.keynum.len() == 8
        &&& self.keypair.len() == 64
        &&& keypair_parses(self.keypair)
    }

    /// Layout: tag 0:2, KDF tag 2:2, rounds 4:4 big-endian, salt 8:16,
    /// checksum 24:8, keynum 32:8, keypair 40:64.
    pub open spec fn encoding(self) -> Seq<u8> {
        pkgalg() + kdfalg() + u32_be_bytes(self.kdfrounds) + self.salt + self.checksum
            + self.keynum + self.keypair
    }
}

impl SignatureV {
    /// Field sizes are right.  Every 64-byte string is a well-formed
    /// signature encoding; cryptographic validity is established only by
    /// verification.
    pub open spec fn wf(self) -> bool {
        &&& self.keynum.len() == 8
        &&& self.sig.len() == 64
    }

    /// Layout: tag 0:2, keynum 2:8, signature 10:64.
    pub open spec fn encoding(self) -> Seq<u8> {
        pkgalg() + self.keynum + self.sig
    }
}

/// What decoding a public-key buffer yields: the record, or the error owed
/// to exactly this buffer.
pub open spec fn pubkey_decoded(b: Seq<u8>) -> Result<PublicKeyV, Error> {
    if b.len() < 42 {
        Err(Error::FormatError)
    } else if b[0] != PKGALG_0 || b[1] != PKGALG_1 {
        Err(Error::FormatError)
    } else if !public_key_parses(b.subrange(10, 42)) {
        Err(Error::CryptoError)
    } else {
        Ok(PublicKeyV { keynum: b.subrange(2, 10), public: b.subrange(10, 42) })
    }
}

/// What decoding a private-key buffer yields.
pub open spec fn privkey_decoded(b: Seq<u8>) -> Result<PrivateKeyV, Error> {
    if b.len() < 104 {
        Err(Error::FormatError)
    } else if b[0] != PKGALG_0 || b[1] != PKGALG_1 {
        Err(Error::FormatError)
    } else if b[2] != KDFALG_0 || b[3] != KDFALG_1 {
        Err(Error::FormatError)
    } else if !keypair_parses(b.subrange(40, 104)) {
        Err(Error::CryptoError)
    } else {
        Ok(
            PrivateKeyV {
                kdfrounds: u32_from_be(b.subrange(4, 8)) as u32,
                salt: b.subrange(8, 24),
                checksum: b.subrange(24, 32),
                keynum: b.subrange(32, 40),
                keypair: b.subrange(40, 104),
            },
        )
    }
}

/// What decoding a signature buffer yields.
pub open spec fn signature_decoded(b: Seq<u8>) -> Result<SignatureV, Error> {
    if b.len() < 74 {
        Err(Error::FormatError)
    } else if b[0] != PKGALG_0 || b[1] != PKGALG_1 {
        Err(Error::FormatError)
    } else {
        Ok(SignatureV { keynum: b.subrange(2, 10), sig: b.subrange(10, 74) })
    }
}

impl PublicKey {
    /// Build a public key from raw key bytes and a key identity.  The
    /// caller vouches that the bytes are a curve point; [`PublicKey::try_with_key_and_keynum`]
    /// checks instead of vouching.
    pub fn with_key_and_keynum(key: Vec<u8>, keynum: Vec<u8>) -> (r: PublicKey)
        requires
            key@.len() == 32,
            keynum@.len() == 8,
            public_key_parses(key@),
        ensures
            r@ == (PublicKeyV { keynum: keynum@, public: key@ }),
            r@.wf(),
    {
        PublicKey { keynum, public: key }
    }

    /// Build a public key from raw key bytes and a key identity, checking
    /// that the bytes are a curve point.
    pub fn try_with_key_and_keynum(key: Vec<u8>, keynum: Vec<u8>) -> (r: Result<PublicKey, Error>)
        requires
            key@.len() == 32,
            keynum@.len() == 8,
        ensures
            public_key_parses(key@) ==> (r matches Ok(k) && k@ == (PublicKeyV {
                keynum: keynum@,
                public: key@,
            }) && k@.wf()),
            !public_key_parses(key@) ==> (r matches Err(e) && e == Error::CryptoError),
    {
        if check_public_bytes(key.as_slice()) {
            Ok(PublicKey::with_key_and_keynum(key, keynum))
        } else {
            Err(Error::CryptoError)
        }
    }

    /// Append the encoded record to `w`: tag, keynum, key bytes.
    pub fn write(&self, w: &mut Vec<u8>)
        ensures
            final(w)@ == old(w)@ + self@.encoding(),
    {
        w.push(PKGALG_0);
        w.push(PKGALG_1);
        append_bytes(w, self.keynum.as_slice());
        append_bytes(w, self.public.as_slice());
        proof {
            assert(w@ =~= old(w)@ + self@.encoding());
        }
    }

    /// Decode a public-key record from the front of `buf`.
    pub fn from_buf(buf: &[u8]) -> (r: Result<PublicKey, Error>)
        ensures
            match r {
                Ok(k) => pubkey_decoded(buf@) == Ok::<PublicKeyV, Error>(k@) && k@.wf(),
                Err(e) => pubkey_decoded(buf@) == Err::<PublicKeyV, Error>(e),
            },
    {
        if buf.len() < PUBLICKEY_RECORD_LEN {
            return Err(Error::FormatError);
        }
        if buf[0] != PKGALG_0 || buf[1] != PKGALG_1 {
            return Err(Error::FormatError);
        }
        let public = copy_range(buf, 10, 42);
        if !check_public_bytes(public.as_slice()) {
            return Err(Error::CryptoError);
        }
        let keynum = copy_range(buf, 2, 10);
        Ok(PublicKey { keynum, public })
    }
}

impl PrivateKey {
    /// Generate a fresh private key with the given key identity.  The key
    /// is not password-protected: zero KDF rounds, zero salt, zero
    /// checksum.
    pub fn generate(keynum: Vec<u8>) -> (r: PrivateKey)
        requires
            keynum@.len() == 8,
        ensures
            r@.wf(),
            r@.keynum == keynum@,
            r@.kdfrounds == 0,
            r@.salt == Seq::new(16, |i: int| 0u8),
            r@.checksum == Seq::new(8, |i: int| 0u8),
    {
        let keypair = generate_keypair_bytes();
        PrivateKey { kdfrounds: 0, salt: zeroed(16), checksum: zeroed(8), keynum, keypair }
    }

    /// The public key this private key derives: same key identity, and the
    /// public half of the keypair bytes.  `None` exactly when the keypair
    /// bytes do not parse.
    pub fn public(&self) -> (r: Option<PublicKey>)
        requires
            self@.keynum.len() == 8,
            self@.keypair.len() == 64,
        ensures
            keypair_parses(self@.keypair) ==> (r matches Some(k) && k@ == (PublicKeyV {
                keynum: self@.keynum,
                public: self@.keypair.subrange(32, 64),
            }) && k@.wf()),
            !keypair_parses(self@.keypair) ==> r is None,
    {
        if check_keypair_bytes(self.keypair.as_slice()) {
            let key = copy_range(self.keypair.as_slice(), 32, 64);
            let keynum = copy_range(self.keynum.as_slice(), 0, self.keynum.len());
            proof {
                assert(keynum@ =~= self.keynum@);
            }
            Some(PublicKey { keynum, public: key })
        } else {
            None
        }
    }

    /// Append the encoded record to `w`: tag, KDF tag, rounds big-endian,
    /// salt, checksum, keynum, keypair bytes.
    pub fn write(&self, w: &mut Vec<u8>)
        ensures
            final(w)@ == old(w)@ + self@.encoding(),
    {
        w.push(PKGALG_0);
        w.push(PKGALG_1);
        w.push(KDFALG_0);
        w.push(KDFALG_1);
        write_u32_be(w, self.kdfrounds);
        append_bytes(w, self.salt.as_slice());
        append_bytes(w, self.checksum.as_slice());
        append_bytes(w, self.keynum.as_slice());
        append_bytes(w, self.keypair.as_slice());
        proof {
            assert(w@ =~= old(w)@ + self@.encoding());
        }
    }

    /// Decode a private-key record from the front of `buf`.  The checksum
    /// field is carried through opaquely, not validated.
    pub fn from_buf(buf: &[u8]) -> (r: Result<PrivateKey, Error>)
        ensures
            match r {
                Ok(k) => privkey_decoded(buf@) == Ok::<PrivateKeyV, Error>(k@) && k@.wf(),
                Err(e) => privkey_decoded(buf@) == Err::<PrivateKeyV, Error>(e),
            },
    {
        if buf.len() < PRIVATEKEY_RECORD_LEN {
            return Err(Error::FormatError);
        }
        if buf[0] != PKGALG_0 || buf[1] != PKGALG_1 {
            return Err(Error::FormatError);
        }
        if buf[2] != KDFALG_0 || buf[3] != KDFALG_1 {
            return Err(Error::FormatError);
        }
        let keypair = copy_range(buf, 40, 104);
        if !check_keypair_bytes(keypair.as_slice()) {
            return Err(Error::CryptoError);
        }
        let kdfrounds = read_u32_be(buf, 4);
        let salt = copy_range(buf, 8, 24);
        let checksum = copy_range(buf, 24, 32);
        let keynum = copy_range(buf, 32, 40);
        Ok(PrivateKey { kdfrounds, salt, checksum, keynum, keypair })
    }

    /// Sign `msg`.  Signing is deterministic — the signature bytes are a
    /// function of the keypair and the message alone — and the produced
    /// record carries this key's identity.  `Err` exactly when the keypair
    /// bytes do not parse.
    pub fn sign(&self, msg: &[u8]) -> (r: Result<Signature, Error>)
        requires
            self@.keypair.len() == 64,
        ensures
            keypair_parses(self@.keypair) ==> (r matches Ok(s) && s@ == (SignatureV {
                keynum: self@.keynum,
                sig: signature_of(self@.keypair, msg@),
            }) && s@.sig.len() == 64 && verify_accepts(
                self@.keypair.subrange(32, 64),
                msg@,
                s@.sig,
            )),
            !keypair_parses(self@.keypair) ==> (r matches Err(e) && e == Error::CryptoError),
    {
        if !check_keypair_bytes(self.keypair.as_slice()) {
            return Err(Error::CryptoError);
        }
        let sig = sign_with_keypair(self.keypair.as_slice(), msg);
        let keynum = copy_range(self.keynum.as_slice(), 0, self.keynum.len());
        proof {
            assert(keynum@ =~= self.keynum@);
        }
        Ok(Signature { keynum, sig })
    }
}

impl Signature {
    /// Append the encoded record to `w`: tag, keynum, signature bytes.
    pub fn write(&self, w: &mut Vec<u8>)
        ensures
            final(w)@ == old(w)@ + self@.encoding(),
    {
        w.push(PKGALG_0);
        w.push(PKGALG_1);
        append_bytes(w, self.keynum.as_slice());
        append_bytes(w, self.sig.as_slice());
        proof {
            assert(w@ =~= old(w)@ + self@.encoding());
        }
    }

    /// Decode a signature record from the front of `buf`.
    pub fn from_buf(buf: &[u8]) -> (r: Result<Signature, Error>)
        ensures
            match r {
                Ok(s) => signature_decoded(buf@) == Ok::<SignatureV, Error>(s@) && s@.wf(),
                Err(e) => signature_decoded(buf@) == Err::<SignatureV, Error>(e),
            },
    {
        if buf.len() < SIGNATURE_RECORD_LEN {
            return Err(Error::FormatError);
        }
        if buf[0] != PKGALG_0 || buf[1] != PKGALG_1 {
            return Err(Error::FormatError);
        }
        let keynum = copy_range(buf, 2, 10);
        let sig = copy_range(buf, 10, 74);
        Ok(Signature { keynum, sig })
    }

    /// Recompute the scheme's verification equation over `msg` with
    /// `pkey`'s raw key bytes and this record's raw signature bytes.  Pure:
    /// a wrong key, a tampered message and a tampered signature are all the
    /// same outcome, `false`, never an error.  This codec does not compare
    /// key identities; a caller's protocol checks
    /// `self.keynum == pkey.keynum` before trusting the answer.
    pub fn verify(&self, msg: &[u8], pkey: &PublicKey) -> (r: bool)
        requires
            pkey@.public.len() == 32,
            self@.sig.len() == 64,
        ensures
            public_key_parses(pkey@.public) ==> r == verify_accepts(
                pkey@.public,
                msg@,
                self@.sig,
            ),
            !public_key_parses(pkey@.public) ==> !r,
    {
        verify_with_public(pkey.public.as_slice(), msg, self.sig.as_slice())
    }
}

} // verus!
