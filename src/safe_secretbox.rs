//! Secret-key authenticated encryption with the `crypto_secretbox` API.
//!
//! # Security model
//!
//! From <https://nacl.cr.yp.to/secretbox.html>:
//!
//! ## Nonce requirements
//!
//! It is the caller's responsibility to ensure the uniqueness of nonces, for example by using
//! nonce 1 for the first message, nonce 2 for the second message, etc. Nonces are long enough
//! that randomly generated nonces have negligible risk of collision.
//!
//! ## Message lengths
//!
//! See <https://nacl.cr.yp.to/valid.html> regarding safe message lengths.

use vstd::prelude::*;

use crate::padding_constants::{SECRETBOX_BOXZEROBYTES, SECRETBOX_ZEROBYTES};
use crate::padding_helpers::{pad_zeroes, padded, unpad_zeroes, unpadded};
use crate::primitives::{secretbox_cipher, secretbox_open_padded, secretbox_padded, secretbox_plain};
use crate::types::{Ciphertext, Plaintext};

verus! {

/// A key of the secretbox scheme.
#[derive(Clone, Debug, PartialEq, Eq)]
pub struct SafeSecretboxKey([u8; 32]);

impl View for SafeSecretboxKey {
    type V = Seq<u8>;

    closed spec fn view(&self) -> Seq<u8> {
        self.0@
    }
}

impl SafeSecretboxKey {
    /// Reference the wrapped key.
    pub fn as_ref(&self) -> (r: &[u8; 32])
        ensures
            r@ == self@,
    {
        &self.0
    }
}

impl From<[u8; 32]> for SafeSecretboxKey {
    fn from(array: [u8; 32]) -> (r: Self)
        ensures
            r@ == array@,
    {
        SafeSecretboxKey(array)
    }
}

impl vstd::std_specs::convert::FromSpecImpl<[u8; 32]> for SafeSecretboxKey {
    open spec fn obeys_from_spec() -> bool {
        true
    }

    closed spec fn from_spec(array: [u8; 32]) -> Self {
        SafeSecretboxKey(array)
    }
}

/// A nonce of the secretbox scheme.
#[derive(Clone, Debug, PartialEq, Eq)]
pub struct SafeSecretboxNonce([u8; 24]);

impl View for SafeSecretboxNonce {
    type V = Seq<u8>;

    closed spec fn view(&self) -> Seq<u8> {
        self.0@
    }
}

impl SafeSecretboxNonce {
    /// Reference the wrapped nonce.
    pub fn as_ref(&self) -> (r: &[u8; 24])
        ensures
            r@ == self@,
    {
        &self.0
    }
}

impl From<[u8; 24]> for SafeSecretboxNonce {
    fn from(array: [u8; 24]) -> (r: Self)
        ensures
            r@ == array@,
    {
        SafeSecretboxNonce(array)
    }
}

impl vstd::std_specs::convert::FromSpecImpl<[u8; 24]> for SafeSecretboxNonce {
    open spec fn obeys_from_spec() -> bool {
        true
    }

    closed spec fn from_spec(array: [u8; 24]) -> Self {
        SafeSecretboxNonce(array)
    }
}

/// The ciphertext of `plaintext` under `key`: the primitive's output for the padded
/// plaintext, without its zero prefix.
pub open spec fn sealed_secretbox(plaintext: Seq<u8>, nonce: Seq<u8>, key: Seq<u8>) -> Seq<u8> {
    let c = secretbox_cipher(padded(SECRETBOX_ZEROBYTES as nat, plaintext), nonce, key);
    c.subrange(SECRETBOX_BOXZEROBYTES as int, c.len() as int)
}

/// The plaintext of `ciphertext` under `key`: the primitive's output for the padded
/// ciphertext, without its zero prefix, or `None` where the primitive rejects it.
pub open spec fn opened_secretbox(ciphertext: Seq<u8>, nonce: Seq<u8>, key: Seq<u8>) -> Option<
    Seq<u8>,
> {
    match secretbox_plain(padded(SECRETBOX_BOXZEROBYTES as nat, ciphertext), nonce, key) {
        Some(p) => Some(p.subrange(SECRETBOX_ZEROBYTES as int, p.len() as int)),
        None => None,
    }
}

/// Encrypt and authenticate a message using `key`.
///
/// The ciphertext is 16 bytes longer than the plaintext.
pub fn safe_secretbox(plaintext: &Plaintext, nonce: &SafeSecretboxNonce, key: &SafeSecretboxKey) -> (r:
    Vec<u8>)
    requires
        plaintext@.len() + SECRETBOX_ZEROBYTES <= usize::MAX,
    ensures
        r@ == sealed_secretbox(plaintext@, nonce@, key@),
        r@.len() == plaintext@.len() + SECRETBOX_BOXZEROBYTES,
        padded(SECRETBOX_BOXZEROBYTES as nat, r@) == secretbox_cipher(
            padded(SECRETBOX_ZEROBYTES as nat, plaintext@),
            nonce@,
            key@,
        ),
{
    // The primitive asks for the first SECRETBOX_ZEROBYTES bytes of its input to be zero.
    let padded_plaintext = pad_zeroes(SECRETBOX_ZEROBYTES, plaintext);

    // The output buffer is as long as the input buffer.
    let mut padded_ciphertext: Vec<u8> = vec![0u8; padded_plaintext.len()];

    let sealed = secretbox_padded(
        &mut padded_ciphertext,
        &padded_plaintext,
        nonce.as_ref(),
        key.as_ref(),
    );
    assert(sealed is Ok);

    // The primitive zeroes the first SECRETBOX_BOXZEROBYTES bytes of its output.
    let ciphertext = unpad_zeroes(SECRETBOX_BOXZEROBYTES, padded_ciphertext.as_slice()).unwrap();
    assert(padded(SECRETBOX_BOXZEROBYTES as nat, ciphertext@) =~= padded_ciphertext@);
    ciphertext
}

/// Decrypt and verify a message using `key`.
///
/// Returns `None` where the ciphertext does not authenticate.
pub fn safe_secretbox_open(
    ciphertext: &Ciphertext,
    nonce: &SafeSecretboxNonce,
    key: &SafeSecretboxKey,
) -> (r: Option<Vec<u8>>)
    requires
        ciphertext@.len() + SECRETBOX_BOXZEROBYTES <= usize::MAX,
    ensures
        r is Some <==> opened_secretbox(ciphertext@, nonce@, key@) is Some,
        r matches Some(p) ==> opened_secretbox(ciphertext@, nonce@, key@) == Some(p@),
        r matches Some(p) ==> ciphertext@.len() >= SECRETBOX_BOXZEROBYTES && p@.len()
            + SECRETBOX_BOXZEROBYTES == ciphertext@.len(),
        ciphertext@.len() < SECRETBOX_BOXZEROBYTES ==> r is None,
{
    // The primitive reads the authenticator behind a prefix of SECRETBOX_BOXZEROBYTES zeroes.
    let padded_ciphertext = pad_zeroes(SECRETBOX_BOXZEROBYTES, ciphertext);

    // The output buffer is as long as the input buffer.
    let mut padded_plaintext: Vec<u8> = vec![0u8; padded_ciphertext.len()];

    let opened = secretbox_open_padded(
        &mut padded_plaintext,
        &padded_ciphertext,
        nonce.as_ref(),
        key.as_ref(),
    );
    match opened {
        Ok(()) => {
            // On success the primitive zeroes the first SECRETBOX_ZEROBYTES bytes of its output.
            let plaintext = unpad_zeroes(SECRETBOX_ZEROBYTES, padded_plaintext.as_slice());
            Some(plaintext.unwrap())
        },
        Err(()) => None,
    }
}

/// Opening a ciphertext that `safe_secretbox` returned for `plaintext` gives back `plaintext`,
/// wherever the primitive opens its own ciphertext of the padded plaintext to that padded
/// plaintext. The padding steps of the two sides add nothing beyond the primitive.
pub proof fn lemma_secretbox_round_trip_given_primitive(
    plaintext: Seq<u8>,
    ciphertext: Seq<u8>,
    nonce: Seq<u8>,
    key: Seq<u8>,
)
    requires
        padded(SECRETBOX_BOXZEROBYTES as nat, ciphertext) == secretbox_cipher(
            padded(SECRETBOX_ZEROBYTES as nat, plaintext),
            nonce,
            key,
        ),
        secretbox_plain(
            secretbox_cipher(padded(SECRETBOX_ZEROBYTES as nat, plaintext), nonce, key),
            nonce,
            key,
        ) == Some(padded(SECRETBOX_ZEROBYTES as nat, plaintext)),
    ensures
        opened_secretbox(ciphertext, nonce, key) == Some(plaintext),
{
    let p = padded(SECRETBOX_ZEROBYTES as nat, plaintext);
    assert(p.subrange(SECRETBOX_ZEROBYTES as int, p.len() as int) =~= plaintext);
}

} // verus!
