//! What holds of the formats as a whole: values that are written are read
//! back, equal bytes give equal keys, and malformed input is turned down
//! with the error that names the fault.
use vstd::prelude::*;
use cbor::Decoder;
use crate::bytes::decoded;
use crate::errors::{DecodeResult, Failure};
use crate::format::{
    identity_keypair_fields, parse_identity_key, parse_identity_keypair,
    parse_keypair, parse_preamble, parse_prekey, parse_prekey_bundle, parse_prekey_id,
    parse_public_key, parse_secret_key, parse_version, prekey_bundle_fields, prekey_fields,
    version_tag, wire_identity_key, wire_identity_keypair, wire_keypair, wire_prekey,
    wire_prekey_bundle, wire_prekey_id, wire_public_key, wire_secret_key, wire_version,
};
use crate::keys::{
    IdentityKeyPairView, IdentityKeyView, KeyPairView, PreKeyBundleView, PreKeyView, PublicKey,
    PublicKeyView, SecretKey, SecretKeyView, Version,
};
use crate::stream::{default_limits, limits, pending};
use crate::wire::{
    array_bytes, lemma_read_array_of_array_bytes, lemma_read_string_of_string_bytes,
    lemma_read_uint_of_uint_bytes, read_array, read_string, read_uint, Limits,
};

verus! {

/// A reader that can take in every value of this crate: it looks at one
/// head at least, accepts byte strings of 64 bytes and arrays of four
/// elements.
pub open spec fn roomy(lim: Limits) -> bool {
    lim.nesting >= 1 && lim.bytes >= 64 && lim.array >= 4
}

/// After the bytes written for something comes what followed them.
proof fn lemma_skip_prefix(a: Seq<u8>, b: Seq<u8>)
    ensures
        (a + b).skip(a.len() as int) == b,
{
    assert((a + b).skip(a.len() as int) =~= b);
}

/// A version that was written is read back, whatever follows it.
pub proof fn law_version_roundtrip(v: Version, rest: Seq<u8>, lim: Limits)
    requires
        lim.nesting >= 1,
    ensures
        parse_version(wire_version(v) + rest, lim) == Ok::<_, Failure>(
            (v, wire_version(v).len()),
        ),
{
    lemma_read_uint_of_uint_bytes(version_tag(v), rest, lim);
}

/// A prekey number that was written is read back, whatever follows it.
pub proof fn law_prekey_id_roundtrip(id: u16, rest: Seq<u8>, lim: Limits)
    requires
        lim.nesting >= 1,
    ensures
        parse_prekey_id(wire_prekey_id(id) + rest, lim) == Ok::<_, Failure>(
            (id, wire_prekey_id(id).len()),
        ),
{
    lemma_read_uint_of_uint_bytes(id, rest, lim);
}

/// A well-formed secret key that was written is read back equal in both
/// fields, the derived scalar included, whatever follows it.
pub proof fn law_secret_key_roundtrip(k: SecretKeyView, rest: Seq<u8>, lim: Limits)
    requires
        k.wf(),
        roomy(lim),
    ensures
        parse_secret_key(wire_secret_key(k) + rest, lim) == Ok::<_, Failure>(
            (k, wire_secret_key(k).len()),
        ),
{
    lemma_read_string_of_string_bytes(k.edward, rest, lim);
}

/// A well-formed public key that was written is read back equal in both
/// fields, the derived group element included, whatever follows it.
pub proof fn law_public_key_roundtrip(k: PublicKeyView, rest: Seq<u8>, lim: Limits)
    requires
        k.wf(),
        roomy(lim),
    ensures
        parse_public_key(wire_public_key(k) + rest, lim) == Ok::<_, Failure>(
            (k, wire_public_key(k).len()),
        ),
{
    lemma_read_string_of_string_bytes(k.edward, rest, lim);
}

/// A well-formed identity key that was written is read back equal,
/// whatever follows it.
pub proof fn law_identity_key_roundtrip(k: IdentityKeyView, rest: Seq<u8>, lim: Limits)
    requires
        k.wf(),
        roomy(lim),
    ensures
        parse_identity_key(wire_identity_key(k) + rest, lim) == Ok::<_, Failure>(
            (k, wire_identity_key(k).len()),
        ),
{
    law_public_key_roundtrip(k.public_key, rest, lim);
}

/// A well-formed key pair that was written is read back equal, whatever
/// follows it.
pub proof fn law_keypair_roundtrip(k: KeyPairView, rest: Seq<u8>, lim: Limits)
    requires
        k.wf(),
        roomy(lim),
    ensures
        parse_keypair(wire_keypair(k) + rest, lim) == Ok::<_, Failure>(
            (k, wire_keypair(k).len()),
        ),
{
    let s = wire_secret_key(k.secret_key);
    let p = wire_public_key(k.public_key);
    assert(wire_keypair(k) + rest == s + (p + rest));
    law_secret_key_roundtrip(k.secret_key, p + rest, lim);
    lemma_skip_prefix(s, p + rest);
    law_public_key_roundtrip(k.public_key, rest, lim);
}

/// An array header and a version that were written are read back as the
/// preamble of a composite value, whatever follows them.
proof fn lemma_preamble_roundtrip(count: u16, v: Version, rest: Seq<u8>, lim: Limits)
    requires
        roomy(lim),
        count <= 4,
    ensures
        parse_preamble(array_bytes(count) + wire_version(v) + rest, lim) == Ok::<_, Failure>(
            ((count as nat, v), (array_bytes(count) + wire_version(v)).len()),
        ),
{
    let a = array_bytes(count);
    let w = wire_version(v);
    assert(a + w + rest == a + (w + rest));
    lemma_read_array_of_array_bytes(count, w + rest, lim);
    lemma_skip_prefix(a, w + rest);
    law_version_roundtrip(v, rest, lim);
}

/// A well-formed identity key pair that was written is read back equal,
/// whatever follows it.
pub proof fn law_identity_keypair_roundtrip(k: IdentityKeyPairView, rest: Seq<u8>, lim: Limits)
    requires
        k.wf(),
        roomy(lim),
    ensures
        parse_identity_keypair(wire_identity_keypair(k) + rest, lim) == Ok::<_, Failure>(
            (k, wire_identity_keypair(k).len()),
        ),
{
    let pre = array_bytes(identity_keypair_fields(k.version) as u16) + wire_version(k.version);
    let s = wire_secret_key(k.secret_key);
    let i = wire_identity_key(k.public_key);
    let all = wire_identity_keypair(k) + rest;
    assert(all == pre + (s + (i + rest)));
    lemma_preamble_roundtrip(
        identity_keypair_fields(k.version) as u16,
        k.version,
        s + (i + rest),
        lim,
    );
    lemma_skip_prefix(pre, s + (i + rest));
    law_secret_key_roundtrip(k.secret_key, i + rest, lim);
    assert(all == (pre + s) + (i + rest));
    lemma_skip_prefix(pre + s, i + rest);
    law_identity_key_roundtrip(k.public_key, rest, lim);
}

/// A well-formed prekey that was written is read back equal, whatever
/// follows it.
pub proof fn law_prekey_roundtrip(k: PreKeyView, rest: Seq<u8>, lim: Limits)
    requires
        k.wf(),
        roomy(lim),
    ensures
        parse_prekey(wire_prekey(k) + rest, lim) == Ok::<_, Failure>((k, wire_prekey(k).len())),
{
    let pre = array_bytes(prekey_fields(k.version) as u16) + wire_version(k.version);
    let n = wire_prekey_id(k.key_id);
    let p = wire_keypair(k.key_pair);
    let all = wire_prekey(k) + rest;
    assert(all == pre + (n + (p + rest)));
    lemma_preamble_roundtrip(prekey_fields(k.version) as u16, k.version, n + (p + rest), lim);
    lemma_skip_prefix(pre, n + (p + rest));
    law_prekey_id_roundtrip(k.key_id, p + rest, lim);
    assert(all == (pre + n) + (p + rest));
    lemma_skip_prefix(pre + n, p + rest);
    law_keypair_roundtrip(k.key_pair, rest, lim);
}

/// A well-formed prekey bundle that was written is read back equal,
/// whatever follows it.
pub proof fn law_prekey_bundle_roundtrip(k: PreKeyBundleView, rest: Seq<u8>, lim: Limits)
    requires
        k.wf(),
        roomy(lim),
    ensures
        parse_prekey_bundle(wire_prekey_bundle(k) + rest, lim) == Ok::<_, Failure>(
            (k, wire_prekey_bundle(k).len()),
        ),
{
    let pre = array_bytes(prekey_bundle_fields(k.version) as u16) + wire_version(k.version);
    let n = wire_prekey_id(k.prekey_id);
    let p = wire_public_key(k.public_key);
    let i = wire_identity_key(k.identity_key);
    let all = wire_prekey_bundle(k) + rest;
    assert(all == pre + (n + (p + (i + rest))));
    lemma_preamble_roundtrip(
        prekey_bundle_fields(k.version) as u16,
        k.version,
        n + (p + (i + rest)),
        lim,
    );
    lemma_skip_prefix(pre, n + (p + (i + rest)));
    law_prekey_id_roundtrip(k.prekey_id, p + (i + rest), lim);
    assert(all == (pre + n) + (p + (i + rest)));
    lemma_skip_prefix(pre + n, p + (i + rest));
    law_public_key_roundtrip(k.public_key, i + rest, lim);
    assert(all == (pre + n + p) + (i + rest));
    lemma_skip_prefix(pre + n + p, i + rest);
    law_identity_key_roundtrip(k.identity_key, rest, lim);
}

/// Two decodings of a secret key from the same pending bytes under the same
/// limits agree: both fail, or both give the same signing secret and the
/// same key-agreement scalar.
pub proof fn law_secret_key_derivation_deterministic(
    before1: Decoder<&[u8]>,
    after1: Decoder<&[u8]>,
    r1: DecodeResult<SecretKey>,
    before2: Decoder<&[u8]>,
    after2: Decoder<&[u8]>,
    r2: DecodeResult<SecretKey>,
)
    requires
        pending(before1) == pending(before2),
        limits(before1) == limits(before2),
        decoded(before1, after1, r1, parse_secret_key(pending(before1), limits(before1))),
        decoded(before2, after2, r2, parse_secret_key(pending(before2), limits(before2))),
    ensures
        r1 is Ok <==> r2 is Ok,
        r1 matches Ok(k1) ==> r2 matches Ok(k2) && k1@.edward == k2@.edward && k1@.curve
            == k2@.curve,
{
}

/// Two decodings of a public key from the same pending bytes under the same
/// limits agree: both fail, or both give the same signing key and the same
/// key-agreement group element.
pub proof fn law_public_key_derivation_deterministic(
    before1: Decoder<&[u8]>,
    after1: Decoder<&[u8]>,
    r1: DecodeResult<PublicKey>,
    before2: Decoder<&[u8]>,
    after2: Decoder<&[u8]>,
    r2: DecodeResult<PublicKey>,
)
    requires
        pending(before1) == pending(before2),
        limits(before1) == limits(before2),
        decoded(before1, after1, r1, parse_public_key(pending(before1), limits(before1))),
        decoded(before2, after2, r2, parse_public_key(pending(before2), limits(before2))),
    ensures
        r1 is Ok <==> r2 is Ok,
        r1 matches Ok(k1) ==> r2 matches Ok(k2) && k1@.edward == k2@.edward && k1@.curve
            == k2@.curve,
{
}

/// Where a secret key is expected, a byte string of any length but 64 is
/// turned down for its length. The string is one that the reader takes in:
/// a longer one than the reader's limit is malformed to it.
pub proof fn law_secret_key_length_enforced(
    s: Seq<u8>,
    lim: Limits,
    content: Seq<u8>,
    n: nat,
)
    requires
        read_string(s, lim) == Some((content, n)),
        content.len() != 64,
    ensures
        parse_secret_key(s, lim) == Err::<(SecretKeyView, nat), _>(
            Failure::KeyLen { expected: 64, actual: content.len() },
        ),
{
}

/// Where a public key is expected, a byte string of any length but 32 is
/// turned down for its length. The string is one that the reader takes in:
/// a longer one than the reader's limit is malformed to it.
pub proof fn law_public_key_length_enforced(
    s: Seq<u8>,
    lim: Limits,
    content: Seq<u8>,
    n: nat,
)
    requires
        read_string(s, lim) == Some((content, n)),
        content.len() != 32,
    ensures
        parse_public_key(s, lim) == Err::<(PublicKeyView, nat), _>(
            Failure::KeyLen { expected: 32, actual: content.len() },
        ),
        parse_identity_key(s, lim) == Err::<(IdentityKeyView, nat), _>(
            Failure::KeyLen { expected: 32, actual: content.len() },
        ),
{
}

/// A composite value whose version tag is not that of a known version is
/// turned down for its version, whatever field count it states and
/// whatever follows the tag.
pub proof fn law_version_enforced(s: Seq<u8>, lim: Limits, count: nat, n: nat, tag: u16, m: nat)
    requires
        read_array(s, lim) == Some((count, n)),
        read_uint(s.skip(n as int), lim) == Some((tag, m)),
        tag != 1,
    ensures
        parse_identity_keypair(s, lim) == Err::<(IdentityKeyPairView, nat), _>(
            Failure::UnknownVersion(tag),
        ),
        parse_prekey(s, lim) == Err::<(PreKeyView, nat), _>(Failure::UnknownVersion(tag)),
        parse_prekey_bundle(s, lim) == Err::<(PreKeyBundleView, nat), _>(
            Failure::UnknownVersion(tag),
        ),
{
}

/// A composite value under a known version that states another field count
/// than the version has is turned down for its count, whatever follows:
/// three fields for an identity key pair and for a prekey, four for a
/// prekey bundle.
pub proof fn law_array_len_enforced(s: Seq<u8>, lim: Limits, count: nat, v: Version, n: nat)
    requires
        parse_preamble(s, lim) == Ok::<_, Failure>(((count, v), n)),
    ensures
        count != 3 ==> parse_identity_keypair(s, lim) == Err::<(IdentityKeyPairView, nat), _>(
            Failure::ArrayLen(count),
        ),
        count != 3 ==> parse_prekey(s, lim) == Err::<(PreKeyView, nat), _>(
            Failure::ArrayLen(count),
        ),
        count != 4 ==> parse_prekey_bundle(s, lim) == Err::<(PreKeyBundleView, nat), _>(
            Failure::ArrayLen(count),
        ),
{
}

/// An identity key pair that was serialised deserialises to itself.
pub proof fn law_identity_keypair_message_roundtrip(k: IdentityKeyPairView)
    requires
        k.wf(),
    ensures
        parse_identity_keypair(wire_identity_keypair(k), default_limits()) == Ok::<_, Failure>(
            (k, wire_identity_keypair(k).len()),
        ),
{
    law_identity_keypair_roundtrip(k, Seq::empty(), default_limits());
    assert(wire_identity_keypair(k) + Seq::<u8>::empty() == wire_identity_keypair(k));
}

/// A prekey that was serialised deserialises to itself.
pub proof fn law_prekey_message_roundtrip(k: PreKeyView)
    requires
        k.wf(),
    ensures
        parse_prekey(wire_prekey(k), default_limits()) == Ok::<_, Failure>(
            (k, wire_prekey(k).len()),
        ),
{
    law_prekey_roundtrip(k, Seq::empty(), default_limits());
    assert(wire_prekey(k) + Seq::<u8>::empty() == wire_prekey(k));
}

/// A prekey bundle that was serialised deserialises to itself.
pub proof fn law_prekey_bundle_message_roundtrip(k: PreKeyBundleView)
    requires
        k.wf(),
    ensures
        parse_prekey_bundle(wire_prekey_bundle(k), default_limits()) == Ok::<_, Failure>(
            (k, wire_prekey_bundle(k).len()),
        ),
{
    law_prekey_bundle_roundtrip(k, Seq::empty(), default_limits());
    assert(wire_prekey_bundle(k) + Seq::<u8>::empty() == wire_prekey_bundle(k));
}

} // verus!
