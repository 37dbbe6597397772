//! The signing identity of a client.

use crate::identifier::public_key_is_valid;
use p2panda_rs::identity::KeyPair;
use vstd::prelude::*;

verus! {

/// An Ed25519 key pair of `p2panda_rs`; nothing of its inside is visible
/// here.
#[verifier::external_type_specification]
#[verifier::external_body]
pub struct ExKeyPair(KeyPair);

/// Calls `p2panda_rs::identity::KeyPair::new`, which draws a key pair from
/// the system's random number generator. Nothing is claimed of the result.
#[verifier::external_body]
fn fresh_key_pair() -> (key_pair: KeyPair) {
    KeyPair::new()
}

/// The text form of the public half of `key_pair`: the hexadecimal digits
/// of its 32 bytes.
pub uninterp spec fn public_key_of(key_pair: KeyPair) -> Seq<char>;

/// The bytes of the Ed25519 signature of `key_pair` under `payload`. Signing
/// draws on nothing but the key pair and the payload, so one key pair signs
/// one payload in one way.
pub uninterp spec fn signature_bytes(key_pair: KeyPair, payload: Seq<u8>) -> Seq<u8>;

/// Calls `p2panda_rs::identity::KeyPair::public_key` and writes the key in
/// its text form, the hexadecimal digits of its 32 bytes, which
/// [`public_key_of`] names. The key pair made that public key by handing
/// those same digits to `PublicKey::new`, so the text is one that
/// [`public_key_is_valid`] accepts.
#[verifier::external_body]
fn public_key_text_of(key_pair: &KeyPair) -> (text: String)
    ensures
        text@ == public_key_of(*key_pair),
        public_key_is_valid(text@),
{
    key_pair.public_key().to_string()
}

/// Calls `p2panda_rs::identity::KeyPair::sign` and hands back the bytes of
/// the signature, which [`signature_bytes`] names. An Ed25519 signature has
/// 64 bytes.
#[verifier::external_body]
fn signature_of(key_pair: &KeyPair, payload: &[u8]) -> (signature: Vec<u8>)
    ensures
        signature@ == signature_bytes(*key_pair, payload@),
        signature@.len() == 64,
{
    key_pair.sign(payload).to_bytes().to_vec()
}

/// A key pair together with the text form of its public half. It is made
/// once and never changed, so all that is written under it is attributed to
/// one public key.
pub struct Identity {
    key_pair: KeyPair,
    public_key: String,
}

impl Identity {
    /// The public key of this identity, in its text form.
    pub closed spec fn public_key_text(&self) -> Seq<char> {
        self.public_key@
    }

    /// The key pair that this identity was made with.
    pub closed spec fn signing_key(&self) -> KeyPair {
        self.key_pair
    }

    #[verifier::type_invariant]
    spec fn well_formed(&self) -> bool {
        &&& self.public_key@ == public_key_of(self.key_pair)
        &&& public_key_is_valid(self.public_key@)
    }

    /// A new identity with a key pair of its own.
    pub fn create() -> (identity: Identity)
        ensures
            identity.public_key_text() == public_key_of(identity.signing_key()),
            public_key_is_valid(identity.public_key_text()),
    {
        let key_pair = fresh_key_pair();
        let public_key = public_key_text_of(&key_pair);
        Identity { key_pair, public_key }
    }

    /// The public key of this identity, in its text form.
    pub fn public_key(&self) -> (text: String)
        ensures
            text@ == self.public_key_text(),
            text@ == public_key_of(self.signing_key()),
            public_key_is_valid(text@),
    {
        proof {
            use_type_invariant(self);
        }
        self.public_key.clone()
    }

    /// The signature of this identity under `payload`: the Ed25519
    /// signature that its key pair gives to these bytes.
    pub fn sign(&self, payload: &[u8]) -> (signature: Vec<u8>)
        ensures
            signature@ == signature_bytes(self.signing_key(), payload@),
            signature@.len() == 64,
    {
        signature_of(&self.key_pair, payload)
    }

    /// The key pair, for the code that signs and sends entries: the one that
    /// this identity was made with, whose public half [`Identity::public_key`]
    /// gives.
    pub fn key_pair(&self) -> (key_pair: &KeyPair)
        ensures
            *key_pair == self.signing_key(),
            public_key_of(*key_pair) == self.public_key_text(),
    {
        proof {
            use_type_invariant(self);
        }
        &self.key_pair
    }
}

} // verus!
