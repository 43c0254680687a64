use cbor::{Config, Decoder, Encoder};
use key_codec::binary::{
    dec_identity_key, dec_identity_keypair, dec_keypair, dec_prekey, dec_prekey_bundle,
    dec_prekey_id, dec_public_key, dec_secret_key, dec_version, enc_identity_key,
    enc_identity_keypair, enc_keypair, enc_prekey, enc_prekey_bundle, enc_prekey_id,
    enc_public_key, enc_secret_key, enc_version,
};
use key_codec::errors::{DecodingError, EncodingError};
use key_codec::keys::{
    IdentityKey, IdentityKeyPair, KeyPair, PreKey, PreKeyBundle, PreKeyId, PublicKey, SecretKey,
    Version,
};
use sodiumoxide::crypto::sign;

const SIGNING_PUBLIC: [u8; 32] = [
    0x03, 0xa1, 0x07, 0xbf, 0xf3, 0xce, 0x10, 0xbe, 0x1d, 0x70, 0xdd, 0x18, 0xe7, 0x4b, 0xc0, 0x99,
    0x67, 0xe4, 0xd6, 0x30, 0x9b, 0xa5, 0x0d, 0x5f, 0x1d, 0xdc, 0x86, 0x64, 0x12, 0x55, 0x31, 0xb8,
];

const OTHER_SIGNING_PUBLIC: [u8; 32] = [
    0x21, 0x52, 0xf8, 0xd1, 0x9b, 0x79, 0x1d, 0x24, 0x45, 0x32, 0x42, 0xe1, 0x5f, 0x2e, 0xab, 0x6c,
    0xb7, 0xcf, 0xfa, 0x7b, 0x6a, 0x5e, 0xd3, 0x00, 0x97, 0x96, 0x0e, 0x06, 0x98, 0x81, 0xdb, 0x12,
];

fn signing_secret() -> [u8; 64] {
    let mut sk = [0u8; 64];
    for i in 0..32 {
        sk[i] = i as u8;
        sk[32 + i] = SIGNING_PUBLIC[i];
    }
    sk
}

fn other_signing_secret() -> [u8; 64] {
    let mut sk = [0x42u8; 64];
    for i in 0..32 {
        sk[32 + i] = OTHER_SIGNING_PUBLIC[i];
    }
    sk
}

fn fresh_keypair() -> KeyPair {
    let (pk, sk) = sign::gen_keypair();
    KeyPair { secret_key: SecretKey::new(sk.0), public_key: PublicKey::new(pk.0) }
}

fn fixed_keypair() -> KeyPair {
    KeyPair {
        secret_key: SecretKey::new(signing_secret()),
        public_key: PublicKey::new(SIGNING_PUBLIC),
    }
}

/// Writes with `enc` into a fresh encoder, then reads the bytes back with
/// `dec` from a fresh decoder under the default limits.
fn roundtrip<A, F, G>(enc: F, dec: G) -> A
where
    F: Fn(&mut Encoder<Vec<u8>>) -> Result<(), EncodingError>,
    G: Fn(&mut Decoder<&[u8]>) -> Result<A, DecodingError>,
{
    let mut e = Encoder::new(Vec::new());
    enc(&mut e).expect("encoding into a vector does not fail");
    let bytes = e.into_writer();
    let mut d = Decoder::new(Config::default(), &bytes[..]);
    match dec(&mut d) {
        Ok(a) => {
            assert!(d.into_reader().is_empty(), "bytes left over");
            a
        },
        Err(e) => panic!("decoding failed: {:?}", e),
    }
}

#[test]
fn enc_dec_pubkey() {
    let k = fresh_keypair();
    let r = roundtrip(|e| enc_public_key(&k.public_key, e), |d| dec_public_key(d));
    assert_eq!(k.public_key, r)
}

#[test]
fn enc_dec_seckey() {
    let k = fresh_keypair();
    let r = roundtrip(|e| enc_secret_key(&k.secret_key, e), |d| dec_secret_key(d));
    assert_eq!(&k.secret_key.sec_edward()[..], &r.sec_edward()[..]);
    assert_eq!(&k.secret_key.sec_curve()[..], &r.sec_curve()[..])
}

#[test]
fn enc_dec_version() {
    let r = roundtrip(|e| enc_version(Version::V1, e), |d| dec_version(d));
    assert_eq!(Version::V1, r)
}

#[test]
fn enc_dec_fixed_secret_key() {
    let k = SecretKey::new(signing_secret());
    let r = roundtrip(|e| enc_secret_key(&k, e), |d| dec_secret_key(d));
    assert_eq!(k, r);
    assert_eq!(&signing_secret()[..], &r.sec_edward()[..]);
    assert_eq!(k.sec_curve(), r.sec_curve())
}

#[test]
fn enc_dec_fixed_public_key() {
    let k = PublicKey::new(SIGNING_PUBLIC);
    let r = roundtrip(|e| enc_public_key(&k, e), |d| dec_public_key(d));
    assert_eq!(k, r);
    assert_eq!(&SIGNING_PUBLIC, r.pub_edward());
    assert_eq!(k.pub_curve(), r.pub_curve())
}

#[test]
fn enc_dec_identity_key() {
    let k = IdentityKey { public_key: PublicKey::new(SIGNING_PUBLIC) };
    let r = roundtrip(|e| enc_identity_key(&k, e), |d| dec_identity_key(d));
    assert_eq!(k, r)
}

#[test]
fn enc_dec_keypair() {
    let k = fixed_keypair();
    let r = roundtrip(|e| enc_keypair(&k, e), |d| dec_keypair(d));
    assert_eq!(k, r)
}

#[test]
fn enc_dec_fresh_keypair() {
    let k = fresh_keypair();
    let r = roundtrip(|e| enc_keypair(&k, e), |d| dec_keypair(d));
    assert_eq!(k, r)
}

#[test]
fn enc_dec_mismatched_keypair() {
    // The two halves need not belong together.
    let k = KeyPair {
        secret_key: SecretKey::new(signing_secret()),
        public_key: PublicKey::new(OTHER_SIGNING_PUBLIC),
    };
    let r = roundtrip(|e| enc_keypair(&k, e), |d| dec_keypair(d));
    assert_eq!(k, r)
}

#[test]
fn enc_dec_identity_keypair() {
    let k = IdentityKeyPair {
        version: Version::V1,
        secret_key: SecretKey::new(signing_secret()),
        public_key: IdentityKey { public_key: PublicKey::new(SIGNING_PUBLIC) },
    };
    let r = roundtrip(|e| enc_identity_keypair(&k, e), |d| dec_identity_keypair(d));
    assert_eq!(k, r)
}

#[test]
fn enc_dec_prekey_id() {
    for id in [0u16, 1, 23, 24, 42, 255, 256, 1000, 0xfffe, 0xffff] {
        let r = roundtrip(|e| enc_prekey_id(&PreKeyId(id), e), |d| dec_prekey_id(d));
        assert_eq!(PreKeyId(id), r)
    }
}

#[test]
fn enc_dec_prekey() {
    let k = PreKey { version: Version::V1, key_id: PreKeyId(0x1234), key_pair: fixed_keypair() };
    let r = roundtrip(|e| enc_prekey(&k, e), |d| dec_prekey(d));
    assert_eq!(k, r)
}

#[test]
fn enc_dec_prekey_bundle() {
    let k = PreKeyBundle {
        version: Version::V1,
        prekey_id: PreKeyId(7),
        public_key: PublicKey::new(SIGNING_PUBLIC),
        identity_key: IdentityKey { public_key: PublicKey::new(OTHER_SIGNING_PUBLIC) },
    };
    let r = roundtrip(|e| enc_prekey_bundle(&k, e), |d| dec_prekey_bundle(d));
    assert_eq!(k, r)
}

#[test]
fn serialise_deserialise_identity_keypair() {
    let k = IdentityKeyPair {
        version: Version::V1,
        secret_key: SecretKey::new(other_signing_secret()),
        public_key: IdentityKey { public_key: PublicKey::new(OTHER_SIGNING_PUBLIC) },
    };
    let bytes = k.serialise().unwrap();
    assert_eq!(2 + 66 + 34, bytes.len());
    assert_eq!(k, IdentityKeyPair::deserialise(&bytes).unwrap())
}

#[test]
fn serialise_deserialise_prekey() {
    let k = PreKey { version: Version::V1, key_id: PreKeyId(0xffff), key_pair: fixed_keypair() };
    let bytes = k.serialise().unwrap();
    assert_eq!(2 + 3 + 66 + 34, bytes.len());
    assert_eq!(k, PreKey::deserialise(&bytes).unwrap())
}

#[test]
fn serialise_deserialise_prekey_bundle() {
    let k = PreKeyBundle {
        version: Version::V1,
        prekey_id: PreKeyId(300),
        public_key: PublicKey::new(SIGNING_PUBLIC),
        identity_key: IdentityKey { public_key: PublicKey::new(SIGNING_PUBLIC) },
    };
    let bytes = k.serialise().unwrap();
    assert_eq!(2 + 3 + 34 + 34, bytes.len());
    assert_eq!(k, PreKeyBundle::deserialise(&bytes).unwrap())
}

#[test]
fn deserialise_ignores_what_follows_the_value() {
    let k = PreKey { version: Version::V1, key_id: PreKeyId(9), key_pair: fixed_keypair() };
    let mut bytes = k.serialise().unwrap();
    bytes.extend_from_slice(&[0xff, 0x00, 0x83]);
    assert_eq!(k, PreKey::deserialise(&bytes).unwrap())
}

#[test]
fn values_are_read_one_after_another() {
    let a = PublicKey::new(SIGNING_PUBLIC);
    let b = SecretKey::new(signing_secret());
    let mut e = Encoder::new(Vec::new());
    enc_prekey_id(&PreKeyId(500), &mut e).unwrap();
    enc_public_key(&a, &mut e).unwrap();
    enc_secret_key(&b, &mut e).unwrap();
    enc_version(Version::V1, &mut e).unwrap();
    let bytes = e.into_writer();
    let mut d = Decoder::new(Config::default(), &bytes[..]);
    assert_eq!(PreKeyId(500), dec_prekey_id(&mut d).unwrap());
    assert_eq!(a, dec_public_key(&mut d).unwrap());
    assert_eq!(b, dec_secret_key(&mut d).unwrap());
    assert_eq!(Version::V1, dec_version(&mut d).unwrap());
    assert!(d.into_reader().is_empty())
}
