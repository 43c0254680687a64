//! The layout of each value on the wire: the bytes a value is written as,
//! and the value, if any, that given bytes hold.
use vstd::prelude::*;
use crate::errors::Failure;
use crate::keys::{
    IdentityKeyPairView, IdentityKeyView, KeyPairView, PreKeyBundleView, PreKeyView,
    PublicKeyView, SecretKeyView, Version,
};
use crate::wire::{
    array_bytes, lemma_read_array_bound, lemma_read_string_bound, lemma_read_uint_bound,
    read_array, read_string, read_uint, string_bytes, uint_bytes, Limits,
};

verus! {

/// What reading a value from the start of some input comes to: the value and
/// the number of bytes it took, or why there is none.
pub type Parsed<V> = Result<(V, nat), Failure>;

/// Length of a signing secret.
pub const SECRET_KEY_LEN: usize = 64;

/// Length of a signing public key.
pub const PUBLIC_KEY_LEN: usize = 32;

/// The tag a version is written as.
pub open spec fn version_tag(v: Version) -> u16 {
    match v {
        Version::V1 => 1,
    }
}

/// The number of fields, the version tag included, that an identity key
/// pair has under a version.
pub open spec fn identity_keypair_fields(v: Version) -> nat {
    match v {
        Version::V1 => 3,
    }
}

/// The number of fields, the version tag included, that a prekey has under
/// a version.
pub open spec fn prekey_fields(v: Version) -> nat {
    match v {
        Version::V1 => 3,
    }
}

/// The number of fields, the version tag included, that a prekey bundle has
/// under a version.
pub open spec fn prekey_bundle_fields(v: Version) -> nat {
    match v {
        Version::V1 => 4,
    }
}

/// A version on the wire: its tag as an unsigned integer.
pub open spec fn wire_version(v: Version) -> Seq<u8> {
    uint_bytes(version_tag(v))
}

/// A secret key on the wire: the signing secret as a byte string. The
/// scalar is not written.
pub open spec fn wire_secret_key(k: SecretKeyView) -> Seq<u8> {
    string_bytes(k.edward)
}

/// A public key on the wire: the signing public key as a byte string. The
/// group element is not written.
pub open spec fn wire_public_key(k: PublicKeyView) -> Seq<u8> {
    string_bytes(k.edward)
}

/// An identity key on the wire: its public key and nothing else.
pub open spec fn wire_identity_key(k: IdentityKeyView) -> Seq<u8> {
    wire_public_key(k.public_key)
}

/// A key pair on the wire: the secret key, then the public key, with
/// nothing around them.
pub open spec fn wire_keypair(k: KeyPairView) -> Seq<u8> {
    wire_secret_key(k.secret_key) + wire_public_key(k.public_key)
}

/// A prekey number on the wire: an unsigned integer.
pub open spec fn wire_prekey_id(id: u16) -> Seq<u8> {
    uint_bytes(id)
}

/// An identity key pair on the wire: an array of the version, the secret
/// key and the identity key.
pub open spec fn wire_identity_keypair(k: IdentityKeyPairView) -> Seq<u8> {
    array_bytes(identity_keypair_fields(k.version) as u16) + wire_version(k.version)
        + wire_secret_key(k.secret_key) + wire_identity_key(k.public_key)
}

/// A prekey on the wire: an array of the version, the number and the key
/// pair, whose two keys count as one field.
pub open spec fn wire_prekey(k: PreKeyView) -> Seq<u8> {
    array_bytes(prekey_fields(k.version) as u16) + wire_version(k.version) + wire_prekey_id(
        k.key_id,
    ) + wire_keypair(k.key_pair)
}

/// A prekey bundle on the wire: an array of the version, the number, the
/// public key and the identity key.
pub open spec fn wire_prekey_bundle(k: PreKeyBundleView) -> Seq<u8> {
    array_bytes(prekey_bundle_fields(k.version) as u16) + wire_version(k.version)
        + wire_prekey_id(k.prekey_id) + wire_public_key(k.public_key) + wire_identity_key(
        k.identity_key,
    )
}

/// Reads a byte string and holds it to a length: a string of another length
/// is a key of the wrong length.
pub open spec fn parse_fixed(s: Seq<u8>, lim: Limits, width: nat) -> Parsed<Seq<u8>> {
    match read_string(s, lim) {
        None => Err(Failure::Malformed),
        Some((content, n)) => if content.len() == width {
            Ok((content, n))
        } else {
            Err(Failure::KeyLen { expected: width, actual: content.len() })
        },
    }
}

/// Reads a version: an unsigned integer that is the tag of a known version.
pub open spec fn parse_version(s: Seq<u8>, lim: Limits) -> Parsed<Version> {
    match read_uint(s, lim) {
        None => Err(Failure::Malformed),
        Some((tag, n)) => if tag == 1 {
            Ok((Version::V1, n))
        } else {
            Err(Failure::UnknownVersion(tag))
        },
    }
}

/// Reads a secret key: a byte string of 64 bytes. The scalar is derived
/// from it.
pub open spec fn parse_secret_key(s: Seq<u8>, lim: Limits) -> Parsed<SecretKeyView> {
    match parse_fixed(s, lim, SECRET_KEY_LEN as nat) {
        Err(f) => Err(f),
        Ok((edward, n)) => Ok((SecretKeyView::of(edward), n)),
    }
}

/// Reads a public key: a byte string of 32 bytes. The group element is
/// derived from it.
pub open spec fn parse_public_key(s: Seq<u8>, lim: Limits) -> Parsed<PublicKeyView> {
    match parse_fixed(s, lim, PUBLIC_KEY_LEN as nat) {
        Err(f) => Err(f),
        Ok((edward, n)) => Ok((PublicKeyView::of(edward), n)),
    }
}

/// Reads an identity key: a public key.
pub open spec fn parse_identity_key(s: Seq<u8>, lim: Limits) -> Parsed<IdentityKeyView> {
    match parse_public_key(s, lim) {
        Err(f) => Err(f),
        Ok((public_key, n)) => Ok((IdentityKeyView { public_key }, n)),
    }
}

/// Reads a key pair: a secret key, then a public key.
pub open spec fn parse_keypair(s: Seq<u8>, lim: Limits) -> Parsed<KeyPairView> {
    match parse_secret_key(s, lim) {
        Err(f) => Err(f),
        Ok((secret_key, n)) => match parse_public_key(s.skip(n as int), lim) {
            Err(f) => Err(f),
            Ok((public_key, m)) => Ok((KeyPairView { secret_key, public_key }, n + m)),
        },
    }
}

/// Reads a prekey number: an unsigned integer.
pub open spec fn parse_prekey_id(s: Seq<u8>, lim: Limits) -> Parsed<u16> {
    match read_uint(s, lim) {
        None => Err(Failure::Malformed),
        Some((id, n)) => Ok((id, n)),
    }
}

/// Reads the start of a composite value: the array header, then the
/// version. The result is the field count that the header states, the
/// version, and the bytes both took. An unknown version is reported before
/// the count is looked at.
pub open spec fn parse_preamble(s: Seq<u8>, lim: Limits) -> Parsed<(nat, Version)> {
    match read_array(s, lim) {
        None => Err(Failure::Malformed),
        Some((count, n)) => match parse_version(s.skip(n as int), lim) {
            Err(f) => Err(f),
            Ok((v, m)) => Ok(((count, v), n + m)),
        },
    }
}

/// Reads an identity key pair: the preamble, whose count must be the one of
/// the version, then the secret key and the identity key.
pub open spec fn parse_identity_keypair(s: Seq<u8>, lim: Limits) -> Parsed<IdentityKeyPairView> {
    match parse_preamble(s, lim) {
        Err(f) => Err(f),
        Ok(((count, version), n)) => if count != identity_keypair_fields(version) {
            Err(Failure::ArrayLen(count))
        } else {
            match parse_secret_key(s.skip(n as int), lim) {
                Err(f) => Err(f),
                Ok((secret_key, m)) => match parse_identity_key(s.skip((n + m) as int), lim) {
                    Err(f) => Err(f),
                    Ok((public_key, p)) => Ok(
                        (IdentityKeyPairView { version, secret_key, public_key }, n + m + p),
                    ),
                },
            }
        },
    }
}

/// Reads a prekey: the preamble, whose count must be the one of the
/// version, then the number and the key pair.
pub open spec fn parse_prekey(s: Seq<u8>, lim: Limits) -> Parsed<PreKeyView> {
    match parse_preamble(s, lim) {
        Err(f) => Err(f),
        Ok(((count, version), n)) => if count != prekey_fields(version) {
            Err(Failure::ArrayLen(count))
        } else {
            match parse_prekey_id(s.skip(n as int), lim) {
                Err(f) => Err(f),
                Ok((key_id, m)) => match parse_keypair(s.skip((n + m) as int), lim) {
                    Err(f) => Err(f),
                    Ok((key_pair, p)) => Ok((PreKeyView { version, key_id, key_pair }, n + m + p)),
                },
            }
        },
    }
}

/// Reads a prekey bundle: the preamble, whose count must be the one of the
/// version, then the number, the public key and the identity key.
pub open spec fn parse_prekey_bundle(s: Seq<u8>, lim: Limits) -> Parsed<PreKeyBundleView> {
    match parse_preamble(s, lim) {
        Err(f) => Err(f),
        Ok(((count, version), n)) => if count != prekey_bundle_fields(version) {
            Err(Failure::ArrayLen(count))
        } else {
            match parse_prekey_id(s.skip(n as int), lim) {
                Err(f) => Err(f),
                Ok((prekey_id, m)) => match parse_public_key(s.skip((n + m) as int), lim) {
                    Err(f) => Err(f),
                    Ok((public_key, p)) => match parse_identity_key(
                        s.skip((n + m + p) as int),
                        lim,
                    ) {
                        Err(f) => Err(f),
                        Ok((identity_key, q)) => Ok(
                            (
                                PreKeyBundleView { version, prekey_id, public_key, identity_key },
                                n + m + p + q,
                            ),
                        ),
                    },
                },
            }
        },
    }
}

/// The number of bytes a value took; none where there is no value.
pub open spec fn taken<V>(p: Parsed<V>) -> nat {
    match p {
        Ok((_, n)) => n,
        Err(_) => 0,
    }
}

/// A value that was read took no more bytes than the input has.
pub open spec fn within<V>(p: Parsed<V>, s: Seq<u8>) -> bool {
    p matches Ok((_, n)) ==> n <= s.len()
}

/// A key of a fixed length that was read lies within the input.
pub proof fn lemma_parse_fixed_within(s: Seq<u8>, lim: Limits, width: nat)
    ensures
        within(parse_fixed(s, lim, width), s),
{
    lemma_read_string_bound(s, lim);
}

/// A version that was read lies within the input.
pub proof fn lemma_parse_version_within(s: Seq<u8>, lim: Limits)
    ensures
        within(parse_version(s, lim), s),
{
    lemma_read_uint_bound(s, lim);
}

/// A secret key that was read lies within the input.
pub proof fn lemma_parse_secret_key_within(s: Seq<u8>, lim: Limits)
    ensures
        within(parse_secret_key(s, lim), s),
{
    lemma_parse_fixed_within(s, lim, SECRET_KEY_LEN as nat);
}

/// A public key or identity key that was read lies within the input.
pub proof fn lemma_parse_public_key_within(s: Seq<u8>, lim: Limits)
    ensures
        within(parse_public_key(s, lim), s),
        within(parse_identity_key(s, lim), s),
{
    lemma_parse_fixed_within(s, lim, PUBLIC_KEY_LEN as nat);
}

/// A key pair that was read lies within the input.
pub proof fn lemma_parse_keypair_within(s: Seq<u8>, lim: Limits)
    ensures
        within(parse_keypair(s, lim), s),
{
    lemma_parse_secret_key_within(s, lim);
    if let Ok((_, n)) = parse_secret_key(s, lim) {
        lemma_parse_public_key_within(s.skip(n as int), lim);
    }
}

/// A prekey number that was read lies within the input.
pub proof fn lemma_parse_prekey_id_within(s: Seq<u8>, lim: Limits)
    ensures
        within(parse_prekey_id(s, lim), s),
{
    lemma_read_uint_bound(s, lim);
}

/// A preamble that was read lies within the input.
pub proof fn lemma_parse_preamble_within(s: Seq<u8>, lim: Limits)
    ensures
        within(parse_preamble(s, lim), s),
{
    lemma_read_array_bound(s, lim);
    if let Some((_, n)) = read_array(s, lim) {
        lemma_parse_version_within(s.skip(n as int), lim);
    }
}

} // verus!
