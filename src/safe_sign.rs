//! Public-key signatures with the attached `crypto_sign` API.
//!
//! # Security model
//!
//! From <https://nacl.cr.yp.to/sign.html>:
//!
//! ## Message lengths
//!
//! See <https://nacl.cr.yp.to/valid.html> regarding safe message lengths.

use vstd::prelude::*;

use crate::primitives::{
    sign_attached_into, sign_attached_open_into, sign_keypair_from_seed, sign_keypair_random,
    sign_public_of, signature_of, signature_valid,
};
use crate::types::{SafeSecureSeed, SignedMessage, UnsignedMessage, VerifiedMessage};

verus! {

/// Length of the signature that attached signing puts in front of a message.
pub const SIGN_LEN: usize = 64;

/// A public key of the signature scheme.
#[derive(Clone, Debug, PartialEq, Eq)]
pub struct SafeSignPublicKey([u8; 32]);

impl View for SafeSignPublicKey {
    type V = Seq<u8>;

    closed spec fn view(&self) -> Seq<u8> {
        self.0@
    }
}

impl SafeSignPublicKey {
    /// Reference the wrapped public key.
    pub fn as_ref(&self) -> (r: &[u8; 32])
        ensures
            r@ == self@,
    {
        &self.0
    }
}

impl From<[u8; 32]> for SafeSignPublicKey {
    fn from(array: [u8; 32]) -> (r: Self)
        ensures
            r@ == array@,
    {
        SafeSignPublicKey(array)
    }
}

impl vstd::std_specs::convert::FromSpecImpl<[u8; 32]> for SafeSignPublicKey {
    open spec fn obeys_from_spec() -> bool {
        true
    }

    closed spec fn from_spec(array: [u8; 32]) -> Self {
        SafeSignPublicKey(array)
    }
}

/// A secret key of the signature scheme.
#[derive(Clone, Debug, PartialEq, Eq)]
pub struct SafeSignSecretKey([u8; 64]);

impl View for SafeSignSecretKey {
    type V = Seq<u8>;

    closed spec fn view(&self) -> Seq<u8> {
        self.0@
    }
}

impl SafeSignSecretKey {
    /// Reference the wrapped secret key.
    pub fn as_ref(&self) -> (r: &[u8; 64])
        ensures
            r@ == self@,
    {
        &self.0
    }
}

impl From<[u8; 64]> for SafeSignSecretKey {
    fn from(array: [u8; 64]) -> (r: Self)
        ensures
            r@ == array@,
    {
        SafeSignSecretKey(array)
    }
}

impl vstd::std_specs::convert::FromSpecImpl<[u8; 64]> for SafeSignSecretKey {
    open spec fn obeys_from_spec() -> bool {
        true
    }

    closed spec fn from_spec(array: [u8; 64]) -> Self {
        SafeSignSecretKey(array)
    }
}

/// The signed message for `message` under `secret_key`: the signature, then the message.
pub open spec fn signed_message(message: Seq<u8>, secret_key: Seq<u8>) -> Seq<u8> {
    Seq::new(SIGN_LEN as nat, |i: int| signature_of(message, secret_key)[i]) + message
}

/// The message that `signed_message` carries where its signature verifies under
/// `public_key`, and `None` otherwise.
pub open spec fn verified_message(signed_message: Seq<u8>, public_key: Seq<u8>) -> Option<Seq<u8>> {
    if signature_valid(signed_message, public_key) {
        Some(signed_message.subrange(SIGN_LEN as int, signed_message.len() as int))
    } else {
        None
    }
}

/// Generate a new random secret key and corresponding public key.
///
/// The secret key is the drawn seed followed by the public key derived from it.
pub fn safe_sign_keypair() -> (r: (SafeSignPublicKey, SafeSignSecretKey))
    ensures
        r.0@ == sign_public_of(r.1@.subrange(0, 32)),
        r.1@ == r.1@.subrange(0, 32) + r.0@,
{
    let mut public_key: [u8; 32] = [0u8; 32];
    let mut secret_key: [u8; 64] = [0u8; 64];
    sign_keypair_random(&mut public_key, &mut secret_key);
    (SafeSignPublicKey::from(public_key), SafeSignSecretKey::from(secret_key))
}

/// Derive a secret key and corresponding public key for the given seed.
///
/// The `seed` should be uniformly random and generated with a secure random number generator.
/// The secret key is the seed followed by the public key; the same seed always gives the same
/// pair.
pub fn safe_sign_keypair_seed(seed: &SafeSecureSeed) -> (r: (SafeSignPublicKey, SafeSignSecretKey))
    ensures
        r.0@ == sign_public_of(seed@),
        r.1@ == seed@ + sign_public_of(seed@),
{
    let mut public_key: [u8; 32] = [0u8; 32];
    let mut secret_key: [u8; 64] = [0u8; 64];
    sign_keypair_from_seed(&mut public_key, &mut secret_key, seed.as_ref());
    (SafeSignPublicKey::from(public_key), SafeSignSecretKey::from(secret_key))
}

/// Sign a message using `secret_key`.
///
/// The signed message is the signature followed by the message.
pub fn safe_sign_attached(unsigned_message: &UnsignedMessage, secret_key: &SafeSignSecretKey) -> (r:
    Vec<u8>)
    requires
        unsigned_message@.len() + SIGN_LEN <= usize::MAX,
    ensures
        r@ == signed_message(unsigned_message@, secret_key@),
        r@ == signature_of(unsigned_message@, secret_key@) + unsigned_message@,
        r@.len() == unsigned_message@.len() + SIGN_LEN,
{
    // The output buffer is as long as the message and its signature.
    let mut signed: Vec<u8> = vec![0u8; unsigned_message.len() + SIGN_LEN];

    sign_attached_into(&mut signed, unsigned_message, secret_key.as_ref());
    assert(signed@ =~= signed_message(unsigned_message@, secret_key@));
    signed
}

/// Verify a message signed with the secret key that belongs to `public_key`.
///
/// Returns the message without its signature, or `None` where the signature does not verify.
pub fn safe_sign_attached_open(signed_message: &SignedMessage, public_key: &SafeSignPublicKey) -> (r:
    Option<Vec<u8>>)
    ensures
        r is Some <==> verified_message(signed_message@, public_key@) is Some,
        r matches Some(m) ==> verified_message(signed_message@, public_key@) == Some(m@),
        r matches Some(m) ==> signed_message@.len() >= SIGN_LEN && m@.len() + SIGN_LEN
            == signed_message@.len(),
        signed_message@.len() < SIGN_LEN ==> r is None,
{
    // The output buffer is as long as the signed message.
    let mut verified: Vec<u8> = vec![0u8; signed_message.len()];

    let opened = sign_attached_open_into(&mut verified, signed_message, public_key.as_ref());
    match opened {
        Ok(verified_len) => {
            // Dropping what follows the message leaves exactly the message.
            verified.truncate(verified_len);
            assert(verified@ =~= signed_message@.subrange(
                SIGN_LEN as int,
                signed_message@.len() as int,
            ));
            Some(verified)
        },
        Err(()) => None,
    }
}

/// Verifying a signed message either fails or gives back the very message that was signed.
pub proof fn lemma_verify_signed_gives_message(
    message: Seq<u8>,
    secret_key: Seq<u8>,
    public_key: Seq<u8>,
)
    ensures
        verified_message(signed_message(message, secret_key), public_key) is Some ==> verified_message(
            signed_message(message, secret_key),
            public_key,
        ) == Some(message),
{
    let s = signed_message(message, secret_key);
    assert(s.subrange(SIGN_LEN as int, s.len() as int) =~= message);
}

} // verus!
