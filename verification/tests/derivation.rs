use cbor::{Config, Decoder, Encoder};
use key_codec::binary::{dec_public_key, dec_secret_key, enc_public_key, enc_secret_key};
use key_codec::curve::{from_ed25519_pk, from_ed25519_sk};
use key_codec::keys::{PublicKey, SecretKey};
use sodiumoxide::crypto::sign;
use sodiumoxide::crypto::sign::ed25519;

const SEED_PUBLIC: [u8; 32] = [
    0x03, 0xa1, 0x07, 0xbf, 0xf3, 0xce, 0x10, 0xbe, 0x1d, 0x70, 0xdd, 0x18, 0xe7, 0x4b, 0xc0, 0x99,
    0x67, 0xe4, 0xd6, 0x30, 0x9b, 0xa5, 0x0d, 0x5f, 0x1d, 0xdc, 0x86, 0x64, 0x12, 0x55, 0x31, 0xb8,
];

const SEED_SCALAR: [u8; 32] = [
    0x38, 0x94, 0xee, 0xa4, 0x9c, 0x58, 0x0a, 0xef, 0x81, 0x69, 0x35, 0x76, 0x2b, 0xe0, 0x49, 0x55,
    0x9d, 0x6d, 0x14, 0x40, 0xde, 0xde, 0x12, 0xe6, 0xa1, 0x25, 0xf1, 0x84, 0x1f, 0xff, 0x8e, 0x6f,
];

const SEED_GROUP_ELEMENT: [u8; 32] = [
    0x47, 0x01, 0xd0, 0x84, 0x88, 0x45, 0x1f, 0x54, 0x5a, 0x40, 0x9f, 0xb5, 0x8a, 0xe3, 0xe5, 0x85,
    0x81, 0xca, 0x40, 0xac, 0x3f, 0x7f, 0x11, 0x46, 0x98, 0xcd, 0x71, 0xde, 0xac, 0x73, 0xca, 0x01,
];

const FORTY_TWO_PUBLIC: [u8; 32] = [
    0x21, 0x52, 0xf8, 0xd1, 0x9b, 0x79, 0x1d, 0x24, 0x45, 0x32, 0x42, 0xe1, 0x5f, 0x2e, 0xab, 0x6c,
    0xb7, 0xcf, 0xfa, 0x7b, 0x6a, 0x5e, 0xd3, 0x00, 0x97, 0x96, 0x0e, 0x06, 0x98, 0x81, 0xdb, 0x12,
];

const FORTY_TWO_SCALAR: [u8; 32] = [
    0x90, 0xe7, 0x59, 0x5f, 0xc8, 0x9e, 0x52, 0xfd, 0xfd, 0xdc, 0xe9, 0xc6, 0xa4, 0x3d, 0x74, 0xdb,
    0xf6, 0x04, 0x70, 0x25, 0xee, 0x04, 0x62, 0xd2, 0xd1, 0x72, 0xe8, 0xb6, 0xa2, 0x84, 0x1d, 0x6e,
];

const FORTY_TWO_GROUP_ELEMENT: [u8; 32] = [
    0xcc, 0x4f, 0x2c, 0xdb, 0x69, 0x5d, 0xd7, 0x66, 0xf3, 0x41, 0x18, 0xeb, 0x67, 0xb9, 0x86, 0x52,
    0xfe, 0xd1, 0xd8, 0xbc, 0x49, 0xc3, 0x30, 0xb1, 0x19, 0xbb, 0xfa, 0x8a, 0x64, 0x98, 0x93, 0x78,
];

/// The signing secret whose seed is the bytes 0 to 31.
fn seed_secret() -> [u8; 64] {
    let mut sk = [0u8; 64];
    for i in 0..32 {
        sk[i] = i as u8;
        sk[32 + i] = SEED_PUBLIC[i];
    }
    sk
}

/// The signing secret whose seed is 32 bytes of 0x42.
fn forty_two_secret() -> [u8; 64] {
    let mut sk = [0x42u8; 64];
    for i in 0..32 {
        sk[32 + i] = FORTY_TWO_PUBLIC[i];
    }
    sk
}

#[test]
fn scalar_of_a_known_secret() {
    assert_eq!(SEED_SCALAR, from_ed25519_sk(&seed_secret()));
    assert_eq!(FORTY_TWO_SCALAR, from_ed25519_sk(&forty_two_secret()))
}

#[test]
fn group_element_of_a_known_public_key() {
    assert_eq!(SEED_GROUP_ELEMENT, from_ed25519_pk(&SEED_PUBLIC));
    assert_eq!(FORTY_TWO_GROUP_ELEMENT, from_ed25519_pk(&FORTY_TWO_PUBLIC))
}

#[test]
fn scalar_depends_on_the_seed_half_only() {
    let mut sk = seed_secret();
    for i in 32..64 {
        sk[i] = 0xaa;
    }
    assert_eq!(SEED_SCALAR, from_ed25519_sk(&sk))
}

#[test]
fn new_secret_key_holds_the_derived_scalar() {
    let k = SecretKey::new(seed_secret());
    assert_eq!(&seed_secret()[..], &k.sec_edward()[..]);
    assert_eq!(&SEED_SCALAR, k.sec_curve())
}

#[test]
fn new_public_key_holds_the_derived_group_element() {
    let k = PublicKey::new(FORTY_TWO_PUBLIC);
    assert_eq!(&FORTY_TWO_PUBLIC, k.pub_edward());
    assert_eq!(&FORTY_TWO_GROUP_ELEMENT, k.pub_curve())
}

#[test]
fn derivation_agrees_with_the_conversion_of_fresh_keys() {
    let (pk, sk) = sign::gen_keypair();
    let scalar = ed25519::to_curve25519_sk(&sk).unwrap();
    let element = ed25519::to_curve25519_pk(&pk).unwrap();
    assert_eq!(scalar.0, *SecretKey::new(sk.0).sec_curve());
    assert_eq!(element.0, *PublicKey::new(pk.0).pub_curve())
}

#[test]
fn a_key_off_the_main_subgroup_has_the_zero_group_element() {
    // y = 0 and y = 1 are points of small order.
    assert_eq!([0u8; 32], from_ed25519_pk(&[0u8; 32]));
    let mut one = [0u8; 32];
    one[0] = 1;
    assert_eq!([0u8; 32], from_ed25519_pk(&one));
    assert_eq!(&[0u8; 32], PublicKey::new([0u8; 32]).pub_curve())
}

#[test]
fn decoding_derives_the_scalar() {
    let mut bytes = vec![0x58, 0x40];
    bytes.extend_from_slice(&forty_two_secret());
    let mut d = Decoder::new(Config::default(), &bytes[..]);
    let k = dec_secret_key(&mut d).unwrap();
    assert_eq!(&forty_two_secret()[..], &k.sec_edward()[..]);
    assert_eq!(&FORTY_TWO_SCALAR, k.sec_curve())
}

#[test]
fn decoding_derives_the_group_element() {
    let mut bytes = vec![0x58, 0x20];
    bytes.extend_from_slice(&SEED_PUBLIC);
    let mut d = Decoder::new(Config::default(), &bytes[..]);
    let k = dec_public_key(&mut d).unwrap();
    assert_eq!(&SEED_PUBLIC, k.pub_edward());
    assert_eq!(&SEED_GROUP_ELEMENT, k.pub_curve())
}

#[test]
fn decoding_twice_gives_the_same_scalar() {
    let (_, sk) = sign::gen_keypair();
    let mut e = Encoder::new(Vec::new());
    enc_secret_key(&SecretKey::new(sk.0), &mut e).unwrap();
    let bytes = e.into_writer();
    let a = dec_secret_key(&mut Decoder::new(Config::default(), &bytes[..])).unwrap();
    let b = dec_secret_key(&mut Decoder::new(Config::default(), &bytes[..])).unwrap();
    assert_eq!(a.sec_curve(), b.sec_curve());
    assert_eq!(a, b)
}

#[test]
fn decoding_twice_gives_the_same_group_element() {
    let (pk, _) = sign::gen_keypair();
    let mut e = Encoder::new(Vec::new());
    enc_public_key(&PublicKey::new(pk.0), &mut e).unwrap();
    let bytes = e.into_writer();
    let a = dec_public_key(&mut Decoder::new(Config::default(), &bytes[..])).unwrap();
    let b = dec_public_key(&mut Decoder::new(Config::default(), &bytes[..])).unwrap();
    assert_eq!(a.pub_curve(), b.pub_curve());
    assert_eq!(a, b)
}
