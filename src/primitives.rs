//! The calls into `sodalite`, the TweetNaCl primitives this crate is layered on.
//!
//! Each cryptographic transform is a function of its arguments alone. Its output is named here
//! by a spec function without a body; the contracts state only what `sodalite`'s source shows:
//! the buffer sizes it demands, the zero prefixes it guarantees, and when it fails.

use vstd::prelude::*;

use crate::padding_helpers::zero_prefix;

verus! {

/// The ciphertext that `sodalite::box_` writes for the padded message `m`.
pub uninterp spec fn box_cipher(m: Seq<u8>, n: Seq<u8>, pk: Seq<u8>, sk: Seq<u8>) -> Seq<u8>;

/// The padded plaintext that `sodalite::box_open` writes for the padded ciphertext `c`, or
/// `None` where it reports a failure.
pub uninterp spec fn box_plain(c: Seq<u8>, n: Seq<u8>, pk: Seq<u8>, sk: Seq<u8>) -> Option<
    Seq<u8>,
>;

/// The ciphertext that `sodalite::secretbox` writes for the padded message `m`.
pub uninterp spec fn secretbox_cipher(m: Seq<u8>, n: Seq<u8>, k: Seq<u8>) -> Seq<u8>;

/// The padded plaintext that `sodalite::secretbox_open` writes for the padded ciphertext `c`,
/// or `None` where it reports a failure.
pub uninterp spec fn secretbox_plain(c: Seq<u8>, n: Seq<u8>, k: Seq<u8>) -> Option<Seq<u8>>;

/// The box public key that `sodalite::box_keypair_seed` derives from a seed.
pub uninterp spec fn box_public_of(seed: Seq<u8>) -> Seq<u8>;

/// The signing public key that `sodalite::sign_keypair_seed` derives from a seed.
pub uninterp spec fn sign_public_of(seed: Seq<u8>) -> Seq<u8>;

/// The signature that `sodalite::sign_attached` writes in front of the message `m`.
pub uninterp spec fn signature_of(m: Seq<u8>, sk: Seq<u8>) -> Seq<u8>;

/// Whether `sodalite::sign_attached_open` accepts the signed message `sm` under `pk`.
pub uninterp spec fn signature_valid(sm: Seq<u8>, pk: Seq<u8>) -> bool;

/// Relies on `sodalite::box_`: for a message whose first 32 bytes are zero and an output
/// buffer of the same length, it writes the ciphertext, zeroes its first 16 bytes, and
/// returns `Ok`.
#[verifier::external_body]
pub(crate) fn box_padded(
    c: &mut Vec<u8>,
    m: &Vec<u8>,
    n: &[u8; 24],
    pk: &[u8; 32],
    sk: &[u8; 32],
) -> (r: Result<(), ()>)
    requires
        old(c)@.len() == m@.len(),
        m@.len() >= 32,
        zero_prefix(32, m@),
    ensures
        r is Ok,
        final(c)@ == box_cipher(m@, n@, pk@, sk@),
        final(c)@.len() == m@.len() && zero_prefix(16, final(c)@),
{
    sodalite::box_(c.as_mut_slice(), m.as_slice(), n, pk, sk)
}

/// Relies on `sodalite::box_open`: for a ciphertext whose first 16 bytes are zero and an
/// output buffer of the same length, it fails on a ciphertext shorter than 32 bytes or one
/// that does not authenticate, and otherwise writes the plaintext with its first 32 bytes zero.
#[verifier::external_body]
pub(crate) fn box_open_padded(
    m: &mut Vec<u8>,
    c: &Vec<u8>,
    n: &[u8; 24],
    pk: &[u8; 32],
    sk: &[u8; 32],
) -> (r: Result<(), ()>)
    requires
        old(m)@.len() == c@.len(),
        c@.len() >= 16,
        zero_prefix(16, c@),
    ensures
        final(m)@.len() == c@.len(),
        r is Ok <==> box_plain(c@, n@, pk@, sk@) is Some,
        r is Ok ==> final(m)@ == box_plain(c@, n@, pk@, sk@)->0,
        r is Ok ==> c@.len() >= 32 && zero_prefix(32, final(m)@),
{
    sodalite::box_open(m.as_mut_slice(), c.as_slice(), n, pk, sk)
}

/// Relies on `sodalite::secretbox`: for a message whose first 32 bytes are zero and an output
/// buffer of the same length, it writes the ciphertext, zeroes its first 16 bytes, and
/// returns `Ok`.
#[verifier::external_body]
pub(crate) fn secretbox_padded(c: &mut Vec<u8>, m: &Vec<u8>, n: &[u8; 24], k: &[u8; 32]) -> (r:
    Result<(), ()>)
    requires
        old(c)@.len() == m@.len(),
        m@.len() >= 32,
        zero_prefix(32, m@),
    ensures
        r is Ok,
        final(c)@ == secretbox_cipher(m@, n@, k@),
        final(c)@.len() == m@.len() && zero_prefix(16, final(c)@),
{
    sodalite::secretbox(c.as_mut_slice(), m.as_slice(), n, k)
}

/// Relies on `sodalite::secretbox_open`: for an output buffer as long as the ciphertext, it
/// fails on a ciphertext shorter than 32 bytes or one that does not authenticate, and otherwise
/// writes the plaintext with its first 32 bytes zero.
#[verifier::external_body]
pub(crate) fn secretbox_open_padded(m: &mut Vec<u8>, c: &Vec<u8>, n: &[u8; 24], k: &[u8; 32]) -> (r:
    Result<(), ()>)
    requires
        old(m)@.len() == c@.len(),
    ensures
        final(m)@.len() == c@.len(),
        r is Ok <==> secretbox_plain(c@, n@, k@) is Some,
        r is Ok ==> final(m)@ == secretbox_plain(c@, n@, k@)->0,
        r is Ok ==> c@.len() >= 32 && zero_prefix(32, final(m)@),
{
    sodalite::secretbox_open(m.as_mut_slice(), c.as_slice(), n, k)
}

/// Relies on `sodalite::box_keypair`: it draws a seed from the operating system's random number
/// generator and hands it to `box_keypair_seed`, so the secret key is the drawn seed and the
/// public key is derived from it.
#[verifier::external_body]
pub(crate) fn box_keypair_random(pk: &mut [u8; 32], sk: &mut [u8; 32])
    ensures
        final(pk)@ == box_public_of(final(sk)@),
{
    sodalite::box_keypair(pk, sk)
}

/// Relies on `sodalite::box_keypair_seed`: the secret key is the seed itself, and the public
/// key is derived from it.
#[verifier::external_body]
pub(crate) fn box_keypair_from_seed(pk: &mut [u8; 32], sk: &mut [u8; 32], seed: &[u8; 32])
    ensures
        final(pk)@ == box_public_of(seed@),
        final(sk)@ == seed@,
{
    sodalite::box_keypair_seed(pk, sk, seed)
}

/// Relies on `sodalite::sign_keypair`: it draws a seed from the operating system's random number
/// generator and hands it to `sign_keypair_seed`, so the secret key is the drawn seed followed
/// by the public key, which is derived from the seed.
#[verifier::external_body]
pub(crate) fn sign_keypair_random(pk: &mut [u8; 32], sk: &mut [u8; 64])
    ensures
        final(pk)@ == sign_public_of(final(sk)@.subrange(0, 32)),
        final(sk)@ == final(sk)@.subrange(0, 32) + final(pk)@,
{
    sodalite::sign_keypair(pk, sk)
}

/// Relies on `sodalite::sign_keypair_seed`: the secret key is the seed followed by the public
/// key, which is derived from the seed.
#[verifier::external_body]
pub(crate) fn sign_keypair_from_seed(pk: &mut [u8; 32], sk: &mut [u8; 64], seed: &[u8; 32])
    ensures
        final(pk)@ == sign_public_of(seed@),
        final(sk)@ == seed@ + sign_public_of(seed@),
{
    sodalite::sign_keypair_seed(pk, sk, seed)
}

/// Relies on `sodalite::sign_attached`: for an output buffer 64 bytes longer than the message,
/// it writes the 64-byte signature followed by the message itself.
#[verifier::external_body]
pub(crate) fn sign_attached_into(sm: &mut Vec<u8>, m: &[u8], sk: &[u8; 64])
    requires
        old(sm)@.len() == m@.len() + 64,
    ensures
        final(sm)@.len() == m@.len() + 64,
        final(sm)@ == signature_of(m@, sk@) + m@,
{
    sodalite::sign_attached(sm.as_mut_slice(), m, sk)
}

/// Relies on `sodalite::sign_attached_open`: for an output buffer as long as the signed
/// message, it fails on a signed message shorter than 64 bytes or one whose signature does not
/// verify, and otherwise writes the message that follows the signature at the start of the
/// buffer and returns its length.
#[verifier::external_body]
pub(crate) fn sign_attached_open_into(m: &mut Vec<u8>, sm: &[u8], pk: &[u8; 32]) -> (r: Result<
    usize,
    (),
>)
    requires
        old(m)@.len() == sm@.len(),
    ensures
        final(m)@.len() == sm@.len(),
        r is Ok <==> signature_valid(sm@, pk@),
        r is Ok ==> sm@.len() >= 64 && r->Ok_0 == sm@.len() - 64,
        r is Ok ==> final(m)@.subrange(0, sm@.len() - 64) == sm@.subrange(64, sm@.len() as int),
{
    sodalite::sign_attached_open(m.as_mut_slice(), sm, pk)
}

} // verus!
