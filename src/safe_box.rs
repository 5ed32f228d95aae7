//! Public-key authenticated encryption with the `crypto_box` API.
//!
//! # Security model
//!
//! From <https://nacl.cr.yp.to/box.html>:
//!
//! ## Nonce requirements
//!
//! Distinct messages between the same {sender, receiver} set are required to have distinct
//! nonces. There is no harm in having the same nonce for different messages if the
//! {sender, receiver} sets are different.
//!
//! ## Non-repudiation
//!
//! `crypto_box` guarantees repudiability: a receiver can freely modify a boxed message, and
//! therefore cannot convince third parties that this particular message came from the sender.
//! Users who want public verifiability should use signatures instead.
//!
//! ## Message lengths
//!
//! See <https://nacl.cr.yp.to/valid.html> regarding safe message lengths.

use vstd::prelude::*;

use crate::padding_constants::{BOX_BOXZEROBYTES, BOX_ZEROBYTES};
use crate::padding_helpers::{pad_zeroes, padded, unpad_zeroes, unpadded};
use crate::primitives::{
    box_cipher, box_keypair_from_seed, box_keypair_random, box_open_padded, box_padded, box_plain,
    box_public_of,
};
use crate::types::{Ciphertext, Plaintext, SafeSecureSeed};

verus! {

/// A public key of the box scheme.
#[derive(Clone, Debug, PartialEq, Eq)]
pub struct SafeBoxPublicKey([u8; 32]);

impl View for SafeBoxPublicKey {
    type V = Seq<u8>;

    closed spec fn view(&self) -> Seq<u8> {
        self.0@
    }
}

impl SafeBoxPublicKey {
    /// Reference the wrapped public key.
    pub fn as_ref(&self) -> (r: &[u8; 32])
        ensures
            r@ == self@,
    {
        &self.0
    }
}

impl From<[u8; 32]> for SafeBoxPublicKey {
    fn from(array: [u8; 32]) -> (r: Self)
        ensures
            r@ == array@,
    {
        SafeBoxPublicKey(array)
    }
}

impl vstd::std_specs::convert::FromSpecImpl<[u8; 32]> for SafeBoxPublicKey {
    open spec fn obeys_from_spec() -> bool {
        true
    }

    closed spec fn from_spec(array: [u8; 32]) -> Self {
        SafeBoxPublicKey(array)
    }
}

/// A secret key of the box scheme.
#[derive(Clone, Debug, PartialEq, Eq)]
pub struct SafeBoxSecretKey([u8; 32]);

impl View for SafeBoxSecretKey {
    type V = Seq<u8>;

    closed spec fn view(&self) -> Seq<u8> {
        self.0@
    }
}

impl SafeBoxSecretKey {
    /// Reference the wrapped secret key.
    pub fn as_ref(&self) -> (r: &[u8; 32])
        ensures
            r@ == self@,
    {
        &self.0
    }
}

impl From<[u8; 32]> for SafeBoxSecretKey {
    fn from(array: [u8; 32]) -> (r: Self)
        ensures
            r@ == array@,
    {
        SafeBoxSecretKey(array)
    }
}

impl vstd::std_specs::convert::FromSpecImpl<[u8; 32]> for SafeBoxSecretKey {
    open spec fn obeys_from_spec() -> bool {
        true
    }

    closed spec fn from_spec(array: [u8; 32]) -> Self {
        SafeBoxSecretKey(array)
    }
}

/// A nonce of the box scheme.
#[derive(Clone, Debug, PartialEq, Eq)]
pub struct SafeBoxNonce([u8; 24]);

impl View for SafeBoxNonce {
    type V = Seq<u8>;

    closed spec fn view(&self) -> Seq<u8> {
        self.0@
    }
}

impl SafeBoxNonce {
    /// Reference the wrapped nonce.
    pub fn as_ref(&self) -> (r: &[u8; 24])
        ensures
            r@ == self@,
    {
        &self.0
    }
}

impl From<[u8; 24]> for SafeBoxNonce {
    fn from(array: [u8; 24]) -> (r: Self)
        ensures
            r@ == array@,
    {
        SafeBoxNonce(array)
    }
}

impl vstd::std_specs::convert::FromSpecImpl<[u8; 24]> for SafeBoxNonce {
    open spec fn obeys_from_spec() -> bool {
        true
    }

    closed spec fn from_spec(array: [u8; 24]) -> Self {
        SafeBoxNonce(array)
    }
}

/// The ciphertext of `plaintext` from `secret_key` to `public_key`: the primitive's output
/// for the padded plaintext, without its zero prefix.
pub open spec fn sealed_box(plaintext: Seq<u8>, nonce: Seq<u8>, public_key: Seq<u8>, secret_key: Seq<
    u8,
>) -> Seq<u8> {
    let c = box_cipher(padded(BOX_ZEROBYTES as nat, plaintext), nonce, public_key, secret_key);
    c.subrange(BOX_BOXZEROBYTES as int, c.len() as int)
}

/// The plaintext of `ciphertext` from `public_key` to `secret_key`: the primitive's output for
/// the padded ciphertext, without its zero prefix, or `None` where the primitive rejects it.
pub open spec fn opened_box(ciphertext: Seq<u8>, nonce: Seq<u8>, public_key: Seq<u8>, secret_key: Seq<
    u8,
>) -> Option<Seq<u8>> {
    match box_plain(padded(BOX_BOXZEROBYTES as nat, ciphertext), nonce, public_key, secret_key) {
        Some(p) => Some(p.subrange(BOX_ZEROBYTES as int, p.len() as int)),
        None => None,
    }
}

/// Generate a new random secret key and corresponding public key.
///
/// The public key is the one derived from the drawn secret key.
pub fn safe_box_keypair() -> (r: (SafeBoxPublicKey, SafeBoxSecretKey))
    ensures
        r.0@ == box_public_of(r.1@),
{
    let mut public_key: [u8; 32] = [0u8; 32];
    let mut secret_key: [u8; 32] = [0u8; 32];
    box_keypair_random(&mut public_key, &mut secret_key);
    (SafeBoxPublicKey::from(public_key), SafeBoxSecretKey::from(secret_key))
}

/// Derive a secret key and corresponding public key for the given seed.
///
/// The secret key is the seed itself; the same seed always gives the same pair.
pub fn safe_box_keypair_seed(seed: &SafeSecureSeed) -> (r: (SafeBoxPublicKey, SafeBoxSecretKey))
    ensures
        r.0@ == box_public_of(seed@),
        r.1@ == seed@,
{
    let mut public_key: [u8; 32] = [0u8; 32];
    let mut secret_key: [u8; 32] = [0u8; 32];
    box_keypair_from_seed(&mut public_key, &mut secret_key, seed.as_ref());
    (SafeBoxPublicKey::from(public_key), SafeBoxSecretKey::from(secret_key))
}

/// Encrypt and authenticate a message from `secret_key` to `public_key`.
///
/// The ciphertext is 16 bytes longer than the plaintext.
pub fn safe_box(
    plaintext: &Plaintext,
    nonce: &SafeBoxNonce,
    public_key: &SafeBoxPublicKey,
    secret_key: &SafeBoxSecretKey,
) -> (r: Vec<u8>)
    requires
        plaintext@.len() + BOX_ZEROBYTES <= usize::MAX,
    ensures
        r@ == sealed_box(plaintext@, nonce@, public_key@, secret_key@),
        r@.len() == plaintext@.len() + BOX_BOXZEROBYTES,
        padded(BOX_BOXZEROBYTES as nat, r@) == box_cipher(
            padded(BOX_ZEROBYTES as nat, plaintext@),
            nonce@,
            public_key@,
            secret_key@,
        ),
{
    // The primitive asks for the first BOX_ZEROBYTES bytes of its input to be zero.
    let padded_plaintext = pad_zeroes(BOX_ZEROBYTES, plaintext);

    // The output buffer is as long as the input buffer.
    let mut padded_ciphertext: Vec<u8> = vec![0u8; padded_plaintext.len()];

    let sealed = box_padded(
        &mut padded_ciphertext,
        &padded_plaintext,
        nonce.as_ref(),
        public_key.as_ref(),
        secret_key.as_ref(),
    );
    assert(sealed is Ok);

    // The primitive zeroes the first BOX_BOXZEROBYTES bytes of its output.
    let ciphertext = unpad_zeroes(BOX_BOXZEROBYTES, padded_ciphertext.as_slice()).unwrap();
    assert(padded(BOX_BOXZEROBYTES as nat, ciphertext@) =~= padded_ciphertext@);
    ciphertext
}

/// Decrypt and verify a message from `public_key` to `secret_key`.
///
/// Returns `None` where the ciphertext does not authenticate.
pub fn safe_box_open(
    ciphertext: &Ciphertext,
    nonce: &SafeBoxNonce,
    public_key: &SafeBoxPublicKey,
    secret_key: &SafeBoxSecretKey,
) -> (r: Option<Vec<u8>>)
    requires
        ciphertext@.len() + BOX_BOXZEROBYTES <= usize::MAX,
    ensures
        r is Some <==> opened_box(ciphertext@, nonce@, public_key@, secret_key@) is Some,
        r matches Some(p) ==> opened_box(ciphertext@, nonce@, public_key@, secret_key@) == Some(
            p@,
        ),
        r matches Some(p) ==> ciphertext@.len() >= BOX_BOXZEROBYTES && p@.len()
            + BOX_BOXZEROBYTES == ciphertext@.len(),
        ciphertext@.len() < BOX_BOXZEROBYTES ==> r is None,
{
    // The primitive asks for the first BOX_BOXZEROBYTES bytes of its input to be zero.
    let padded_ciphertext = pad_zeroes(BOX_BOXZEROBYTES, ciphertext);

    // The output buffer is as long as the input buffer.
    let mut padded_plaintext: Vec<u8> = vec![0u8; padded_ciphertext.len()];

    let opened = box_open_padded(
        &mut padded_plaintext,
        &padded_ciphertext,
        nonce.as_ref(),
        public_key.as_ref(),
        secret_key.as_ref(),
    );
    match opened {
        Ok(()) => {
            // On success the primitive zeroes the first BOX_ZEROBYTES bytes of its output.
            let plaintext = unpad_zeroes(BOX_ZEROBYTES, padded_plaintext.as_slice());
            Some(plaintext.unwrap())
        },
        Err(()) => None,
    }
}

/// Opening a ciphertext that `safe_box` returned for `plaintext` gives back `plaintext`,
/// wherever the primitive opens its own ciphertext of the padded plaintext to that padded
/// plaintext. The padding steps of the two sides add nothing beyond the primitive.
pub proof fn lemma_box_round_trip_given_primitive(
    plaintext: Seq<u8>,
    ciphertext: Seq<u8>,
    nonce: Seq<u8>,
    sender_public_key: Seq<u8>,
    sender_secret_key: Seq<u8>,
    receiver_public_key: Seq<u8>,
    receiver_secret_key: Seq<u8>,
)
    requires
        padded(BOX_BOXZEROBYTES as nat, ciphertext) == box_cipher(
            padded(BOX_ZEROBYTES as nat, plaintext),
            nonce,
            receiver_public_key,
            sender_secret_key,
        ),
        box_plain(
            box_cipher(
                padded(BOX_ZEROBYTES as nat, plaintext),
                nonce,
                receiver_public_key,
                sender_secret_key,
            ),
            nonce,
            sender_public_key,
            receiver_secret_key,
        ) == Some(padded(BOX_ZEROBYTES as nat, plaintext)),
    ensures
        opened_box(ciphertext, nonce, sender_public_key, receiver_secret_key) == Some(plaintext),
{
    let p = padded(BOX_ZEROBYTES as nat, plaintext);
    assert(p.subrange(BOX_ZEROBYTES as int, p.len() as int) =~= plaintext);
}

} // verus!
