//! From signing keys to key-agreement keys. The conversion itself is
//! libsodium's, reached through sodiumoxide; what it computes is named here,
//! not restated.
use vstd::prelude::*;
use sodiumoxide::crypto::sign::ed25519;

verus! {

/// What `sodiumoxide::crypto::sign::ed25519::to_curve25519_sk` makes of a
/// 64-byte signing secret: the 32-byte scalar, or nothing where it reports
/// failure.
pub uninterp spec fn curve25519_sk(signing_secret: Seq<u8>) -> Option<Seq<u8>>;

/// What `sodiumoxide::crypto::sign::ed25519::to_curve25519_pk` makes of a
/// 32-byte signing public key: the 32-byte group element, or nothing where
/// it reports failure.
pub uninterp spec fn curve25519_pk(signing_public: Seq<u8>) -> Option<Seq<u8>>;

/// `to_curve25519_sk`, on and to plain arrays: the result is the one named
/// `curve25519_sk` for these bytes.
#[verifier::external_body]
pub(crate) fn to_curve25519_sk(signing_secret: &[u8; 64]) -> (r: Option<[u8; 32]>)
    ensures
        match r {
            Some(k) => curve25519_sk(signing_secret@) == Some(k@),
            None => curve25519_sk(signing_secret@) is None,
        },
{
    match ed25519::to_curve25519_sk(&ed25519::SecretKey(*signing_secret)) {
        Ok(k) => Some(k.0),
        Err(_) => None,
    }
}

/// `to_curve25519_pk`, on and to plain arrays: the result is the one named
/// `curve25519_pk` for these bytes.
#[verifier::external_body]
pub(crate) fn to_curve25519_pk(signing_public: &[u8; 32]) -> (r: Option<[u8; 32]>)
    ensures
        match r {
            Some(k) => curve25519_pk(signing_public@) == Some(k@),
            None => curve25519_pk(signing_public@) is None,
        },
{
    match ed25519::to_curve25519_pk(&ed25519::PublicKey(*signing_public)) {
        Ok(k) => Some(k.0),
        Err(_) => None,
    }
}

/// A key of `n` zero bytes.
pub open spec fn zeros(n: nat) -> Seq<u8> {
    Seq::new(n, |i: int| 0u8)
}

/// The key-agreement scalar that belongs to a signing secret. A secret
/// that the conversion turns down has the all-zero scalar.
pub open spec fn scalar_of(signing_secret: Seq<u8>) -> Seq<u8> {
    match curve25519_sk(signing_secret) {
        Some(k) => k,
        None => zeros(32),
    }
}

/// The key-agreement group element that belongs to a signing public key. A
/// key that the conversion turns down, such as one that is no point of the
/// curve, has the all-zero element.
pub open spec fn group_element_of(signing_public: Seq<u8>) -> Seq<u8> {
    match curve25519_pk(signing_public) {
        Some(k) => k,
        None => zeros(32),
    }
}

/// Derives the key-agreement scalar of a signing secret.
pub fn from_ed25519_sk(signing_secret: &[u8; 64]) -> (scalar: [u8; 32])
    ensures
        scalar@ == scalar_of(signing_secret@),
{
    match to_curve25519_sk(signing_secret) {
        Some(k) => k,
        None => {
            let z = [0u8; 32];
            assert(z@ =~= zeros(32));
            z
        },
    }
}

/// Derives the key-agreement group element of a signing public key.
pub fn from_ed25519_pk(signing_public: &[u8; 32]) -> (element: [u8; 32])
    ensures
        element@ == group_element_of(signing_public@),
{
    match to_curve25519_pk(signing_public) {
        Some(k) => k,
        None => {
            let z = [0u8; 32];
            assert(z@ =~= zeros(32));
            z
        },
    }
}

} // verus!
