//! Encoding and decoding of keys. Each value is written in one pass and read
//! in one pass; a value is read whole or not at all.
//!
//! An encoder appends the bytes of the value to what it has written. Its
//! writer is a vector, so it does not fail. The keys it is handed are
//! well-formed, as all keys are, which the contracts pass on: what was
//! written reads back as the value.
//!
//! A decoder reads from the bytes it has pending. What it returns is fixed
//! by those bytes and its limits.
use vstd::prelude::*;
use cbor::{Decoder, Encoder};
use crate::bytes::{decoded, Bytes32, Bytes64};
use crate::errors::{DecodeResult, DecodingError, EncodeResult, EncodingError};
use crate::format::{
    lemma_parse_keypair_within, lemma_parse_preamble_within, lemma_parse_prekey_id_within,
    lemma_parse_public_key_within, lemma_parse_secret_key_within, lemma_parse_version_within,
    parse_identity_key, parse_identity_keypair, parse_keypair, parse_preamble, parse_prekey,
    parse_prekey_bundle, parse_prekey_id, parse_public_key, parse_secret_key, parse_version,
    taken, wire_identity_key, wire_identity_keypair, wire_keypair, wire_prekey,
    wire_prekey_bundle, wire_prekey_id, wire_public_key, wire_secret_key, wire_version, Parsed,
};
use crate::keys::{
    IdentityKey, IdentityKeyPair, KeyPair, PreKey, PreKeyBundle, PreKeyId, PublicKey, SecretKey,
    Version,
};
use crate::stream::{
    default_limits, into_bytes, limits, new_decoder, new_encoder, pending, put_array,
    put_string, put_uint, string_limit, take_array, take_uint, written,
};
use crate::wire::{lemma_read_array_bound, lemma_skip_skip, read_array};

verus! {

// Version

/// Writes a version as its tag.
pub fn enc_version(v: Version, e: &mut Encoder<Vec<u8>>) -> (r: EncodeResult<()>)
    ensures
        r is Ok,
        written(*final(e)) == written(*old(e)) + wire_version(v),
{
    match v {
        Version::V1 => match put_uint(e, 1) {
            Ok(()) => Ok(()),
            Err(x) => Err(EncodingError::Encoder(x)),
        },
    }
}

/// Reads a version. A tag other than that of a known version is an error
/// that carries the tag.
pub fn dec_version(d: &mut Decoder<&[u8]>) -> (r: DecodeResult<Version>)
    ensures
        decoded(*old(d), *final(d), r, parse_version(pending(*old(d)), limits(*old(d)))),
{
    match take_uint(d) {
        Ok(1) => Ok(Version::V1),
        Ok(v) => Err(DecodingError::InvalidVersion(v)),
        Err(x) => Err(DecodingError::Decoder(x)),
    }
}

// Secret key

/// Writes a secret key: its signing secret, and nothing of the scalar.
pub fn enc_secret_key(k: &SecretKey, e: &mut Encoder<Vec<u8>>) -> (r: EncodeResult<()>)
    ensures
        r is Ok,
        written(*final(e)) == written(*old(e)) + wire_secret_key(k@),
        k@.wf(),
{
    match put_string(e, k.sec_edward().as_slice()) {
        Ok(()) => Ok(()),
        Err(x) => Err(EncodingError::Encoder(x)),
    }
}

/// Reads a secret key: a signing secret of 64 bytes, from which the scalar
/// is derived.
pub fn dec_secret_key(d: &mut Decoder<&[u8]>) -> (r: DecodeResult<SecretKey>)
    requires
        string_limit(*old(d)) <= isize::MAX,
    ensures
        decoded(*old(d), *final(d), r, parse_secret_key(pending(*old(d)), limits(*old(d)))),
        r matches Ok(k) ==> k@.wf(),
{
    match Bytes64::decode(d) {
        Ok(v) => Ok(SecretKey::new(v.array)),
        Err(x) => Err(x),
    }
}

// Public key

/// Writes a public key: its signing key, and nothing of the group element.
pub fn enc_public_key(k: &PublicKey, e: &mut Encoder<Vec<u8>>) -> (r: EncodeResult<()>)
    ensures
        r is Ok,
        written(*final(e)) == written(*old(e)) + wire_public_key(k@),
        k@.wf(),
{
    match put_string(e, k.pub_edward().as_slice()) {
        Ok(()) => Ok(()),
        Err(x) => Err(EncodingError::Encoder(x)),
    }
}

/// Reads a public key: a signing key of 32 bytes, from which the group
/// element is derived.
pub fn dec_public_key(d: &mut Decoder<&[u8]>) -> (r: DecodeResult<PublicKey>)
    requires
        string_limit(*old(d)) <= isize::MAX,
    ensures
        decoded(*old(d), *final(d), r, parse_public_key(pending(*old(d)), limits(*old(d)))),
        r matches Ok(k) ==> k@.wf(),
{
    match Bytes32::decode(d) {
        Ok(v) => Ok(PublicKey::new(v.array)),
        Err(x) => Err(x),
    }
}

// Identity key

/// Writes an identity key, byte for byte as its public key.
pub fn enc_identity_key(k: &IdentityKey, e: &mut Encoder<Vec<u8>>) -> (r: EncodeResult<()>)
    ensures
        r is Ok,
        written(*final(e)) == written(*old(e)) + wire_identity_key(k@),
        k@.wf(),
{
    enc_public_key(&k.public_key, e)
}

/// Reads an identity key: a public key.
pub fn dec_identity_key(d: &mut Decoder<&[u8]>) -> (r: DecodeResult<IdentityKey>)
    requires
        string_limit(*old(d)) <= isize::MAX,
    ensures
        decoded(*old(d), *final(d), r, parse_identity_key(pending(*old(d)), limits(*old(d)))),
        r matches Ok(k) ==> k@.wf(),
{
    match dec_public_key(d) {
        Ok(k) => Ok(IdentityKey { public_key: k }),
        Err(x) => Err(x),
    }
}

// Key pair

/// Writes a key pair: the secret key, then the public key.
pub fn enc_keypair(k: &KeyPair, e: &mut Encoder<Vec<u8>>) -> (r: EncodeResult<()>)
    ensures
        r is Ok,
        written(*final(e)) == written(*old(e)) + wire_keypair(k@),
        k@.wf(),
{
    let ghost start = written(*e);
    enc_secret_key(&k.secret_key, e)?;
    let r = enc_public_key(&k.public_key, e);
    assert(written(*e) =~= start + wire_keypair(k@));
    r
}

/// Reads a key pair: a secret key, then a public key.
pub fn dec_keypair(d: &mut Decoder<&[u8]>) -> (r: DecodeResult<KeyPair>)
    requires
        string_limit(*old(d)) <= isize::MAX,
    ensures
        decoded(*old(d), *final(d), r, parse_keypair(pending(*old(d)), limits(*old(d)))),
        r matches Ok(k) ==> k@.wf(),
{
    let ghost input = pending(*d);
    let ghost lim = limits(*d);
    proof {
        lemma_parse_secret_key_within(input, lim);
    }
    let s = dec_secret_key(d)?;
    proof {
        let n = taken(parse_secret_key(input, lim));
        lemma_parse_public_key_within(input.skip(n as int), lim);
        if let Ok((_, m)) = parse_public_key(input.skip(n as int), lim) {
            lemma_skip_skip(input, n, m);
        }
    }
    let p = dec_public_key(d)?;
    Ok(KeyPair { secret_key: s, public_key: p })
}

// Prekey number

/// Writes a prekey number.
pub fn enc_prekey_id(k: &PreKeyId, e: &mut Encoder<Vec<u8>>) -> (r: EncodeResult<()>)
    ensures
        r is Ok,
        written(*final(e)) == written(*old(e)) + wire_prekey_id(k@),
{
    match put_uint(e, k.0) {
        Ok(()) => Ok(()),
        Err(x) => Err(EncodingError::Encoder(x)),
    }
}

/// Reads a prekey number.
pub fn dec_prekey_id(d: &mut Decoder<&[u8]>) -> (r: DecodeResult<PreKeyId>)
    ensures
        decoded(*old(d), *final(d), r, parse_prekey_id(pending(*old(d)), limits(*old(d)))),
{
    match take_uint(d) {
        Ok(v) => Ok(PreKeyId(v)),
        Err(x) => Err(DecodingError::Decoder(x)),
    }
}

// Identity key pair

/// Writes an identity key pair: an array of three fields, which are the
/// version, the secret key and the identity key.
pub fn enc_identity_keypair(k: &IdentityKeyPair, e: &mut Encoder<Vec<u8>>) -> (r: EncodeResult<
    (),
>)
    ensures
        r is Ok,
        written(*final(e)) == written(*old(e)) + wire_identity_keypair(k@),
        k@.wf(),
{
    let ghost start = written(*e);
    match k.version {
        Version::V1 => {
            match put_array(e, 3) {
                Ok(()) => {},
                Err(x) => {
                    return Err(EncodingError::Encoder(x));
                },
            }
            enc_version(k.version, e)?;
            enc_secret_key(&k.secret_key, e)?;
            let r = enc_identity_key(&k.public_key, e);
            assert(written(*e) =~= start + wire_identity_keypair(k@));
            r
        },
    }
}

/// Reads an identity key pair. The field count is read first and judged
/// once the version is known: an unknown version is reported whatever the
/// count, and under a known version any count but its own is an error that
/// carries the count.
pub fn dec_identity_keypair(d: &mut Decoder<&[u8]>) -> (r: DecodeResult<IdentityKeyPair>)
    requires
        string_limit(*old(d)) <= isize::MAX,
    ensures
        decoded(
            *old(d),
            *final(d),
            r,
            parse_identity_keypair(pending(*old(d)), limits(*old(d))),
        ),
        r matches Ok(k) ==> k@.wf(),
{
    let ghost input = pending(*d);
    let ghost lim = limits(*d);
    proof {
        lemma_read_array_bound(input, lim);
        lemma_parse_preamble_within(input, lim);
    }
    let n = match take_array(d) {
        Ok(n) => n,
        Err(x) => {
            return Err(DecodingError::Decoder(x));
        },
    };
    let ghost a = match read_array(input, lim) {
        Some((_, a)) => a,
        None => 0,
    };
    proof {
        lemma_parse_version_within(input.skip(a as int), lim);
        if let Ok((_, m)) = parse_version(input.skip(a as int), lim) {
            lemma_skip_skip(input, a, m);
        }
    }
    let v = dec_version(d)?;
    match v {
        Version::V1 => {
            if n != 3 {
                return Err(DecodingError::InvalidArrayLen(n));
            }
            let ghost b = taken(parse_preamble(input, lim));
            proof {
                lemma_parse_secret_key_within(input.skip(b as int), lim);
                if let Ok((_, m)) = parse_secret_key(input.skip(b as int), lim) {
                    lemma_skip_skip(input, b, m);
                    lemma_parse_public_key_within(input.skip((b + m) as int), lim);
                    if let Ok((_, p)) = parse_identity_key(input.skip((b + m) as int), lim) {
                        lemma_skip_skip(input, b + m, p);
                    }
                }
            }
            let sk = dec_secret_key(d)?;
            let pk = dec_identity_key(d)?;
            Ok(IdentityKeyPair { version: v, secret_key: sk, public_key: pk })
        },
    }
}

// Prekey

/// Writes a prekey: an array of three fields, which are the version, the
/// number and the key pair.
pub fn enc_prekey(k: &PreKey, e: &mut Encoder<Vec<u8>>) -> (r: EncodeResult<()>)
    ensures
        r is Ok,
        written(*final(e)) == written(*old(e)) + wire_prekey(k@),
        k@.wf(),
{
    let ghost start = written(*e);
    match k.version {
        Version::V1 => {
            match put_array(e, 3) {
                Ok(()) => {},
                Err(x) => {
                    return Err(EncodingError::Encoder(x));
                },
            }
            enc_version(k.version, e)?;
            enc_prekey_id(&k.key_id, e)?;
            let r = enc_keypair(&k.key_pair, e);
            assert(written(*e) =~= start + wire_prekey(k@));
            r
        },
    }
}

/// Reads a prekey. The field count is read first and judged once the
/// version is known: an unknown version is reported whatever the count, and
/// under a known version any count but its own is an error that carries the
/// count.
pub fn dec_prekey(d: &mut Decoder<&[u8]>) -> (r: DecodeResult<PreKey>)
    requires
        string_limit(*old(d)) <= isize::MAX,
    ensures
        decoded(*old(d), *final(d), r, parse_prekey(pending(*old(d)), limits(*old(d)))),
        r matches Ok(k) ==> k@.wf(),
{
    let ghost input = pending(*d);
    let ghost lim = limits(*d);
    proof {
        lemma_read_array_bound(input, lim);
        lemma_parse_preamble_within(input, lim);
    }
    let n = match take_array(d) {
        Ok(n) => n,
        Err(x) => {
            return Err(DecodingError::Decoder(x));
        },
    };
    let ghost a = match read_array(input, lim) {
        Some((_, a)) => a,
        None => 0,
    };
    proof {
        lemma_parse_version_within(input.skip(a as int), lim);
        if let Ok((_, m)) = parse_version(input.skip(a as int), lim) {
            lemma_skip_skip(input, a, m);
        }
    }
    let v = dec_version(d)?;
    match v {
        Version::V1 => {
            if n != 3 {
                return Err(DecodingError::InvalidArrayLen(n));
            }
            let ghost b = taken(parse_preamble(input, lim));
            proof {
                lemma_parse_prekey_id_within(input.skip(b as int), lim);
                if let Ok((_, m)) = parse_prekey_id(input.skip(b as int), lim) {
                    lemma_skip_skip(input, b, m);
                    lemma_parse_keypair_within(input.skip((b + m) as int), lim);
                    if let Ok((_, p)) = parse_keypair(input.skip((b + m) as int), lim) {
                        lemma_skip_skip(input, b + m, p);
                    }
                }
            }
            let id = dec_prekey_id(d)?;
            let kp = dec_keypair(d)?;
            Ok(PreKey { version: v, key_id: id, key_pair: kp })
        },
    }
}

// Prekey bundle

/// Writes a prekey bundle: an array of four fields, which are the version,
/// the number, the public key and the identity key.
pub fn enc_prekey_bundle(k: &PreKeyBundle, e: &mut Encoder<Vec<u8>>) -> (r: EncodeResult<()>)
    ensures
        r is Ok,
        written(*final(e)) == written(*old(e)) + wire_prekey_bundle(k@),
        k@.wf(),
{
    let ghost start = written(*e);
    match k.version {
        Version::V1 => {
            match put_array(e, 4) {
                Ok(()) => {},
                Err(x) => {
                    return Err(EncodingError::Encoder(x));
                },
            }
            enc_version(k.version, e)?;
            enc_prekey_id(&k.prekey_id, e)?;
            enc_public_key(&k.public_key, e)?;
            let r = enc_identity_key(&k.identity_key, e);
            assert(written(*e) =~= start + wire_prekey_bundle(k@));
            r
        },
    }
}

/// Reads a prekey bundle. The field count is read first and judged once
/// the version is known: an unknown version is reported whatever the count,
/// and under a known version any count but its own is an error that carries
/// the count.
pub fn dec_prekey_bundle(d: &mut Decoder<&[u8]>) -> (r: DecodeResult<PreKeyBundle>)
    requires
        string_limit(*old(d)) <= isize::MAX,
    ensures
        decoded(*old(d), *final(d), r, parse_prekey_bundle(pending(*old(d)), limits(*old(d)))),
        r matches Ok(k) ==> k@.wf(),
{
    let ghost input = pending(*d);
    let ghost lim = limits(*d);
    proof {
        lemma_read_array_bound(input, lim);
        lemma_parse_preamble_within(input, lim);
    }
    let n = match take_array(d) {
        Ok(n) => n,
        Err(x) => {
            return Err(DecodingError::Decoder(x));
        },
    };
    let ghost a = match read_array(input, lim) {
        Some((_, a)) => a,
        None => 0,
    };
    proof {
        lemma_parse_version_within(input.skip(a as int), lim);
        if let Ok((_, m)) = parse_version(input.skip(a as int), lim) {
            lemma_skip_skip(input, a, m);
        }
    }
    let v = dec_version(d)?;
    match v {
        Version::V1 => {
            if n != 4 {
                return Err(DecodingError::InvalidArrayLen(n));
            }
            let ghost b = taken(parse_preamble(input, lim));
            proof {
                lemma_parse_prekey_id_within(input.skip(b as int), lim);
                if let Ok((_, m)) = parse_prekey_id(input.skip(b as int), lim) {
                    lemma_skip_skip(input, b, m);
                    lemma_parse_public_key_within(input.skip((b + m) as int), lim);
                    if let Ok((_, p)) = parse_public_key(input.skip((b + m) as int), lim) {
                        lemma_skip_skip(input, b + m, p);
                        lemma_parse_public_key_within(input.skip((b + m + p) as int), lim);
                        if let Ok((_, q)) = parse_identity_key(
                            input.skip((b + m + p) as int),
                            lim,
                        ) {
                            lemma_skip_skip(input, b + m + p, q);
                        }
                    }
                }
            }
            let id = dec_prekey_id(d)?;
            let pk = dec_public_key(d)?;
            let ik = dec_identity_key(d)?;
            Ok(PreKeyBundle { version: v, prekey_id: id, public_key: pk, identity_key: ik })
        },
    }
}

// Whole messages

/// What reading a whole message owes: the value that the bytes begin with,
/// under the default limits, or the error that reports why there is none.
/// Bytes behind the value are not looked at.
pub open spec fn deserialised<T: View>(r: DecodeResult<T>, expected: Parsed<T::V>) -> bool {
    match expected {
        Ok((v, _)) => r matches Ok(x) && x@ == v,
        Err(f) => r matches Err(e) && e.failure() == f,
    }
}

impl IdentityKeyPair {
    /// The bytes of this identity key pair.
    pub fn serialise(&self) -> (r: EncodeResult<Vec<u8>>)
        ensures
            r matches Ok(bytes) && bytes@ == wire_identity_keypair(self@),
            self@.wf(),
    {
        let mut e = new_encoder();
        enc_identity_keypair(self, &mut e)?;
        let bytes = into_bytes(e);
        assert(bytes@ =~= wire_identity_keypair(self@));
        Ok(bytes)
    }

    /// The identity key pair that `input` begins with.
    pub fn deserialise(input: &[u8]) -> (r: DecodeResult<IdentityKeyPair>)
        ensures
            deserialised(r, parse_identity_keypair(input@, default_limits())),
            r matches Ok(k) ==> k@.wf(),
    {
        let mut d = new_decoder(input);
        dec_identity_keypair(&mut d)
    }
}

impl PreKey {
    /// The bytes of this prekey.
    pub fn serialise(&self) -> (r: EncodeResult<Vec<u8>>)
        ensures
            r matches Ok(bytes) && bytes@ == wire_prekey(self@),
            self@.wf(),
    {
        let mut e = new_encoder();
        enc_prekey(self, &mut e)?;
        let bytes = into_bytes(e);
        assert(bytes@ =~= wire_prekey(self@));
        Ok(bytes)
    }

    /// The prekey that `input` begins with.
    pub fn deserialise(input: &[u8]) -> (r: DecodeResult<PreKey>)
        ensures
            deserialised(r, parse_prekey(input@, default_limits())),
            r matches Ok(k) ==> k@.wf(),
    {
        let mut d = new_decoder(input);
        dec_prekey(&mut d)
    }
}

impl PreKeyBundle {
    /// The bytes of this prekey bundle.
    pub fn serialise(&self) -> (r: EncodeResult<Vec<u8>>)
        ensures
            r matches Ok(bytes) && bytes@ == wire_prekey_bundle(self@),
            self@.wf(),
    {
        let mut e = new_encoder();
        enc_prekey_bundle(self, &mut e)?;
        let bytes = into_bytes(e);
        assert(bytes@ =~= wire_prekey_bundle(self@));
        Ok(bytes)
    }

    /// The prekey bundle that `input` begins with.
    pub fn deserialise(input: &[u8]) -> (r: DecodeResult<PreKeyBundle>)
        ensures
            deserialised(r, parse_prekey_bundle(input@, default_limits())),
            r matches Ok(k) ==> k@.wf(),
    {
        let mut d = new_decoder(input);
        dec_prekey_bundle(&mut d)
    }
}

} // verus!
