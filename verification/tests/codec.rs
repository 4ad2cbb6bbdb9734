use signify::Error;
use signify::structs::PrivateKey;
use signify::structs::PublicKey;
use signify::structs::Signature;

fn encode_public(k: &PublicKey) -> Vec<u8> {
    let mut w = Vec::new();
    k.write(&mut w);
    w
}

fn encode_private(k: &PrivateKey) -> Vec<u8> {
    let mut w = Vec::new();
    k.write(&mut w);
    w
}

fn encode_signature(s: &Signature) -> Vec<u8> {
    let mut w = Vec::new();
    s.write(&mut w);
    w
}

#[test]
fn write_appends_to_the_buffer() {
    let sk = PrivateKey::generate(vec![1; 8]);
    let pk = sk.public().unwrap();
    let one = encode_public(&pk);
    let mut twice = Vec::new();
    pk.write(&mut twice);
    pk.write(&mut twice);
    assert_eq!(twice.len(), 84);
    assert_eq!(&twice[..42], &one[..]);
    assert_eq!(&twice[42..], &one[..]);
}

#[test]
fn round_trip_public_key() {
    let sk = PrivateKey::generate(vec![1, 2, 3, 4, 5, 6, 7, 8]);
    let pk = sk.public().unwrap();
    let enc = encode_public(&pk);
    assert_eq!(enc.len(), 42);
    assert_eq!(&enc[0..2], b"Ed");
    assert_eq!(&enc[2..10], &[1, 2, 3, 4, 5, 6, 7, 8]);
    let decoded = PublicKey::from_buf(&enc).unwrap();
    assert_eq!(decoded.keynum, pk.keynum);
    assert_eq!(encode_public(&decoded), enc);
}

#[test]
fn round_trip_private_key() {
    let sk = PrivateKey::generate(vec![8, 7, 6, 5, 4, 3, 2, 1]);
    let enc = encode_private(&sk);
    assert_eq!(enc.len(), 104);
    assert_eq!(&enc[0..2], b"Ed");
    assert_eq!(&enc[2..4], b"BK");
    let decoded = PrivateKey::from_buf(&enc).unwrap();
    assert_eq!(decoded.kdfrounds, sk.kdfrounds);
    assert_eq!(decoded.salt, sk.salt);
    assert_eq!(decoded.checksum, sk.checksum);
    assert_eq!(decoded.keynum, sk.keynum);
    assert_eq!(decoded.keypair, sk.keypair);
    assert_eq!(encode_private(&decoded), enc);
}

#[test]
fn round_trip_signature() {
    let sk = PrivateKey::generate(vec![0; 8]);
    let sig = sk.sign(b"some message").unwrap();
    let enc = encode_signature(&sig);
    assert_eq!(enc.len(), 74);
    assert_eq!(&enc[0..2], b"Ed");
    let decoded = Signature::from_buf(&enc).unwrap();
    assert_eq!(decoded.keynum, sig.keynum);
    assert_eq!(encode_signature(&decoded), enc);
}

#[test]
fn private_key_rounds_are_big_endian() {
    let donor = PrivateKey::generate(vec![0; 8]);
    let sk = PrivateKey {
        kdfrounds: 0x01020304,
        salt: vec![0xAA; 16],
        checksum: vec![0xBB; 8],
        keynum: vec![9; 8],
        keypair: donor.keypair.clone(),
    };
    let enc = encode_private(&sk);
    assert_eq!(&enc[4..8], &[1, 2, 3, 4]);
    assert_eq!(&enc[8..24], &[0xAA; 16]);
    assert_eq!(&enc[24..32], &[0xBB; 8]);
    assert_eq!(&enc[32..40], &[9; 8]);
    let decoded = PrivateKey::from_buf(&enc).unwrap();
    assert_eq!(decoded.kdfrounds, 0x01020304);
}

#[test]
fn short_public_key_buffer_rejected() {
    let sk = PrivateKey::generate(vec![1; 8]);
    let enc = encode_public(&sk.public().unwrap());
    for n in 0..42 {
        let r = PublicKey::from_buf(&enc[..n]);
        assert!(matches!(r, Err(Error::FormatError)));
    }
}

#[test]
fn short_private_key_buffer_rejected() {
    let sk = PrivateKey::generate(vec![1; 8]);
    let enc = encode_private(&sk);
    for n in 0..104 {
        let r = PrivateKey::from_buf(&enc[..n]);
        assert!(matches!(r, Err(Error::FormatError)));
    }
}

#[test]
fn short_signature_buffer_rejected() {
    let sk = PrivateKey::generate(vec![1; 8]);
    let enc = encode_signature(&sk.sign(b"m").unwrap());
    for n in 0..74 {
        let r = Signature::from_buf(&enc[..n]);
        assert!(matches!(r, Err(Error::FormatError)));
    }
}

#[test]
fn trailing_bytes_ignored() {
    let sk = PrivateKey::generate(vec![2; 8]);
    let pk = sk.public().unwrap();
    let sig = sk.sign(b"m").unwrap();

    let mut enc = encode_public(&pk);
    enc.extend_from_slice(b"junk after the record");
    let decoded = PublicKey::from_buf(&enc).unwrap();
    assert_eq!(decoded.keynum, pk.keynum);

    let mut enc = encode_private(&sk);
    enc.extend_from_slice(&[0xFF; 13]);
    let decoded = PrivateKey::from_buf(&enc).unwrap();
    assert_eq!(decoded.keynum, sk.keynum);
    assert_eq!(decoded.keypair, sk.keypair);

    let mut enc = encode_signature(&sig);
    enc.extend_from_slice(&[0; 7]);
    let decoded = Signature::from_buf(&enc).unwrap();
    assert_eq!(decoded.keynum, sig.keynum);
}

#[test]
fn flipped_public_key_tag_rejected() {
    let sk = PrivateKey::generate(vec![3; 8]);
    let enc = encode_public(&sk.public().unwrap());
    for i in 0..2 {
        let mut bad = enc.clone();
        bad[i] ^= 0xFF;
        assert!(matches!(PublicKey::from_buf(&bad), Err(Error::FormatError)));
        let mut bad = enc.clone();
        bad[i] = bad[i].wrapping_add(1);
        assert!(matches!(PublicKey::from_buf(&bad), Err(Error::FormatError)));
    }
}

#[test]
fn flipped_private_key_tag_rejected() {
    let sk = PrivateKey::generate(vec![3; 8]);
    let enc = encode_private(&sk);
    for i in 0..4 {
        let mut bad = enc.clone();
        bad[i] ^= 0xFF;
        assert!(matches!(PrivateKey::from_buf(&bad), Err(Error::FormatError)));
        let mut bad = enc.clone();
        bad[i] = bad[i].wrapping_add(1);
        assert!(matches!(PrivateKey::from_buf(&bad), Err(Error::FormatError)));
    }
}

#[test]
fn flipped_signature_tag_rejected() {
    let sk = PrivateKey::generate(vec![3; 8]);
    let enc = encode_signature(&sk.sign(b"m").unwrap());
    for i in 0..2 {
        let mut bad = enc.clone();
        bad[i] ^= 0xFF;
        assert!(matches!(Signature::from_buf(&bad), Err(Error::FormatError)));
        let mut bad = enc.clone();
        bad[i] = bad[i].wrapping_add(1);
        assert!(matches!(Signature::from_buf(&bad), Err(Error::FormatError)));
    }
}

#[test]
fn invalid_curve_point_rejected_as_crypto_error() {
    // Roughly half of all 32-byte strings do not decompress to a curve
    // point; scanning one byte finds both kinds, and a structurally valid
    // buffer never yields a format error.
    let mut saw_crypto = 0;
    let mut saw_ok = 0;
    let mut bad_key: Option<Vec<u8>> = None;
    for c in 0..=255u8 {
        let mut buf = Vec::new();
        buf.extend_from_slice(b"Ed");
        buf.extend_from_slice(&[7; 8]);
        let mut key = vec![0u8; 32];
        key[0] = c;
        buf.extend_from_slice(&key);
        match PublicKey::from_buf(&buf) {
            Ok(_) => saw_ok += 1,
            Err(Error::CryptoError) => {
                saw_crypto += 1;
                if bad_key.is_none() {
                    bad_key = Some(key);
                }
            }
            Err(Error::FormatError) => panic!("format error on a well-formed buffer"),
        }
    }
    assert!(saw_crypto > 0);
    assert!(saw_ok > 0);

    // The same invalid bytes are refused by the checked constructor.
    let r = PublicKey::try_with_key_and_keynum(bad_key.unwrap(), vec![7; 8]);
    assert!(matches!(r, Err(Error::CryptoError)));
}

#[test]
fn mismatched_keypair_rejected_as_crypto_error() {
    let sk = PrivateKey::generate(vec![4; 8]);
    let enc = encode_private(&sk);
    // Corrupt the stored public half: it can no longer match the key
    // derived from the secret half.
    let mut bad = enc.clone();
    bad[103] ^= 0x01;
    assert!(matches!(PrivateKey::from_buf(&bad), Err(Error::CryptoError)));
}

#[test]
fn unparseable_keypair_cannot_sign_or_derive() {
    // An all-zero keypair is mismatched: the public half cannot be the key
    // derived from the zero secret half.
    let sk = PrivateKey {
        kdfrounds: 0,
        salt: vec![0; 16],
        checksum: vec![0; 8],
        keynum: vec![1; 8],
        keypair: vec![0; 64],
    };
    assert!(sk.public().is_none());
    assert!(matches!(sk.sign(b"m"), Err(Error::CryptoError)));
}

#[test]
fn checked_constructor_accepts_valid_key() {
    let sk = PrivateKey::generate(vec![5; 8]);
    let enc = encode_public(&sk.public().unwrap());
    let key = enc[10..42].to_vec();
    let pk = PublicKey::try_with_key_and_keynum(key, vec![6; 8]).unwrap();
    assert_eq!(pk.keynum, vec![6; 8]);
    let enc2 = encode_public(&pk);
    assert_eq!(&enc2[10..42], &enc[10..42]);
}
