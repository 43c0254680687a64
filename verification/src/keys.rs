//! The key material that is exchanged, and what each value stands for.
use vstd::prelude::*;
use crate::curve::{from_ed25519_pk, from_ed25519_sk, group_element_of, scalar_of};

verus! {

/// The protocol versions a composite value can be written under.
#[derive(Clone, Copy, Debug, PartialEq, Eq, Structural)]
pub enum Version {
    V1,
}

impl View for Version {
    type V = Version;

    open spec fn view(&self) -> Version {
        *self
    }
}

/// What a secret key stands for.
pub ghost struct SecretKeyView {
    /// The signing secret, 64 bytes.
    pub edward: Seq<u8>,
    /// The key-agreement scalar.
    pub curve: Seq<u8>,
}

impl SecretKeyView {
    /// The secret key that belongs to a signing secret.
    pub open spec fn of(edward: Seq<u8>) -> SecretKeyView {
        SecretKeyView { edward, curve: scalar_of(edward) }
    }

    /// The signing secret has its length and the scalar is the one derived
    /// from it.
    pub open spec fn wf(self) -> bool {
        self.edward.len() == 64 && self == Self::of(self.edward)
    }
}

/// What a public key stands for.
pub ghost struct PublicKeyView {
    /// The signing public key, 32 bytes.
    pub edward: Seq<u8>,
    /// The key-agreement group element.
    pub curve: Seq<u8>,
}

impl PublicKeyView {
    /// The public key that belongs to a signing public key.
    pub open spec fn of(edward: Seq<u8>) -> PublicKeyView {
        PublicKeyView { edward, curve: group_element_of(edward) }
    }

    /// The signing key has its length and the group element is the one
    /// derived from it.
    pub open spec fn wf(self) -> bool {
        self.edward.len() == 32 && self == Self::of(self.edward)
    }
}

/// A signing secret together with the key-agreement scalar derived from it.
/// The scalar cannot be set on its own.
#[derive(Debug, PartialEq, Eq)]
pub struct SecretKey {
    sec_edward: [u8; 64],
    sec_curve: [u8; 32],
}

impl View for SecretKey {
    type V = SecretKeyView;

    closed spec fn view(&self) -> SecretKeyView {
        SecretKeyView { edward: self.sec_edward@, curve: self.sec_curve@ }
    }
}

impl Clone for SecretKey {
    fn clone(&self) -> (k: SecretKey)
        ensures
            k@ == self@,
    {
        proof {
            use_type_invariant(self);
        }
        SecretKey { sec_edward: self.sec_edward, sec_curve: self.sec_curve }
    }
}

impl SecretKey {
    /// Every secret key holds the scalar derived from its signing secret.
    #[verifier::type_invariant]
    closed spec fn derived(self) -> bool {
        self@.wf()
    }

    /// The secret key of a signing secret; derives the scalar.
    pub fn new(sec_edward: [u8; 64]) -> (k: SecretKey)
        ensures
            k@ == SecretKeyView::of(sec_edward@),
            k@.wf(),
    {
        let sec_curve = from_ed25519_sk(&sec_edward);
        SecretKey { sec_edward, sec_curve }
    }

    /// The signing secret.
    pub fn sec_edward(&self) -> (bytes: &[u8; 64])
        ensures
            bytes@ == self@.edward,
            self@.wf(),
    {
        proof {
            use_type_invariant(self);
        }
        &self.sec_edward
    }

    /// The key-agreement scalar.
    pub fn sec_curve(&self) -> (bytes: &[u8; 32])
        ensures
            bytes@ == self@.curve,
            self@.wf(),
    {
        proof {
            use_type_invariant(self);
        }
        &self.sec_curve
    }
}

/// A signing public key together with the key-agreement group element
/// derived from it. The group element cannot be set on its own.
#[derive(Debug, PartialEq, Eq)]
pub struct PublicKey {
    pub_edward: [u8; 32],
    pub_curve: [u8; 32],
}

impl View for PublicKey {
    type V = PublicKeyView;

    closed spec fn view(&self) -> PublicKeyView {
        PublicKeyView { edward: self.pub_edward@, curve: self.pub_curve@ }
    }
}

impl Clone for PublicKey {
    fn clone(&self) -> (k: PublicKey)
        ensures
            k@ == self@,
    {
        proof {
            use_type_invariant(self);
        }
        PublicKey { pub_edward: self.pub_edward, pub_curve: self.pub_curve }
    }
}

impl PublicKey {
    /// Every public key holds the group element derived from its signing
    /// key.
    #[verifier::type_invariant]
    closed spec fn derived(self) -> bool {
        self@.wf()
    }

    /// The public key of a signing public key; derives the group element.
    pub fn new(pub_edward: [u8; 32]) -> (k: PublicKey)
        ensures
            k@ == PublicKeyView::of(pub_edward@),
            k@.wf(),
    {
        let pub_curve = from_ed25519_pk(&pub_edward);
        PublicKey { pub_edward, pub_curve }
    }

    /// The signing public key.
    pub fn pub_edward(&self) -> (bytes: &[u8; 32])
        ensures
            bytes@ == self@.edward,
            self@.wf(),
    {
        proof {
            use_type_invariant(self);
        }
        &self.pub_edward
    }

    /// The key-agreement group element.
    pub fn pub_curve(&self) -> (bytes: &[u8; 32])
        ensures
            bytes@ == self@.curve,
            self@.wf(),
    {
        proof {
            use_type_invariant(self);
        }
        &self.pub_curve
    }
}

/// What an identity key stands for.
pub ghost struct IdentityKeyView {
    pub public_key: PublicKeyView,
}

impl IdentityKeyView {
    /// The public key is well-formed.
    pub open spec fn wf(self) -> bool {
        self.public_key.wf()
    }
}

/// The public key by which a party is known.
#[derive(Clone, Debug, PartialEq, Eq)]
pub struct IdentityKey {
    pub public_key: PublicKey,
}

impl View for IdentityKey {
    type V = IdentityKeyView;

    open spec fn view(&self) -> IdentityKeyView {
        IdentityKeyView { public_key: self.public_key@ }
    }
}

/// What a key pair stands for.
pub ghost struct KeyPairView {
    pub secret_key: SecretKeyView,
    pub public_key: PublicKeyView,
}

impl KeyPairView {
    /// Both keys are well-formed. That they belong together is not part of
    /// it.
    pub open spec fn wf(self) -> bool {
        self.secret_key.wf() && self.public_key.wf()
    }
}

/// A secret key and a public key. That the two belong together is left to
/// whoever makes the pair.
#[derive(Clone, Debug, PartialEq, Eq)]
pub struct KeyPair {
    pub secret_key: SecretKey,
    pub public_key: PublicKey,
}

impl View for KeyPair {
    type V = KeyPairView;

    open spec fn view(&self) -> KeyPairView {
        KeyPairView { secret_key: self.secret_key@, public_key: self.public_key@ }
    }
}

/// What an identity key pair stands for.
pub ghost struct IdentityKeyPairView {
    pub version: Version,
    pub secret_key: SecretKeyView,
    pub public_key: IdentityKeyView,
}

impl IdentityKeyPairView {
    /// Both keys are well-formed. That they belong together is not part of
    /// it.
    pub open spec fn wf(self) -> bool {
        self.secret_key.wf() && self.public_key.wf()
    }
}

/// The long-term key pair of a party.
#[derive(Clone, Debug, PartialEq, Eq)]
pub struct IdentityKeyPair {
    pub version: Version,
    pub secret_key: SecretKey,
    pub public_key: IdentityKey,
}

impl View for IdentityKeyPair {
    type V = IdentityKeyPairView;

    open spec fn view(&self) -> IdentityKeyPairView {
        IdentityKeyPairView {
            version: self.version,
            secret_key: self.secret_key@,
            public_key: self.public_key@,
        }
    }
}

/// The number under which a prekey is known.
#[derive(Clone, Copy, Debug, PartialEq, Eq, Structural)]
pub struct PreKeyId(pub u16);

impl View for PreKeyId {
    type V = u16;

    open spec fn view(&self) -> u16 {
        self.0
    }
}

/// What a prekey stands for.
pub ghost struct PreKeyView {
    pub version: Version,
    pub key_id: u16,
    pub key_pair: KeyPairView,
}

impl PreKeyView {
    /// The key pair is well-formed.
    pub open spec fn wf(self) -> bool {
        self.key_pair.wf()
    }
}

/// A key pair published ahead of time, under a number.
#[derive(Clone, Debug, PartialEq, Eq)]
pub struct PreKey {
    pub version: Version,
    pub key_id: PreKeyId,
    pub key_pair: KeyPair,
}

impl View for PreKey {
    type V = PreKeyView;

    open spec fn view(&self) -> PreKeyView {
        PreKeyView { version: self.version, key_id: self.key_id.0, key_pair: self.key_pair@ }
    }
}

/// What a prekey bundle stands for.
pub ghost struct PreKeyBundleView {
    pub version: Version,
    pub prekey_id: u16,
    pub public_key: PublicKeyView,
    pub identity_key: IdentityKeyView,
}

impl PreKeyBundleView {
    /// Both keys are well-formed.
    pub open spec fn wf(self) -> bool {
        self.public_key.wf() && self.identity_key.wf()
    }
}

/// The public half of a prekey with the identity key of its owner.
#[derive(Clone, Debug, PartialEq, Eq)]
pub struct PreKeyBundle {
    pub version: Version,
    pub prekey_id: PreKeyId,
    pub public_key: PublicKey,
    pub identity_key: IdentityKey,
}

impl View for PreKeyBundle {
    type V = PreKeyBundleView;

    open spec fn view(&self) -> PreKeyBundleView {
        PreKeyBundleView {
            version: self.version,
            prekey_id: self.prekey_id.0,
            public_key: self.public_key@,
            identity_key: self.identity_key@,
        }
    }
}

} // verus!
