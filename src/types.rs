//! A few convenience types.
//!
//! The type aliases for `[u8]` are there to make signatures easier to read.
//!
//! The [`SafeSecureSeed`] wrapper is a type-safe barrier, a reminder that only cryptographically
//! secure random bytes should be wrapped in it.

use vstd::prelude::*;

verus! {

/// An unencrypted message.
pub type Plaintext = [u8];

/// An encrypted message.
pub type Ciphertext = [u8];

/// An unsigned message.
pub type UnsignedMessage = [u8];

/// A signed message, bundled with its signature.
pub type SignedMessage = [u8];

/// A signature-verified message.
pub type VerifiedMessage = [u8];

/// A cryptographically secure seed value.
///
/// The seed should be uniformly random and generated with a secure random number generator.
pub type SecureSeed = [u8; 32];

/// A [`SecureSeed`] that is meant to come from a secure random number generator.
#[derive(Clone, Debug, PartialEq, Eq)]
pub struct SafeSecureSeed(SecureSeed);

impl View for SafeSecureSeed {
    type V = Seq<u8>;

    closed spec fn view(&self) -> Seq<u8> {
        self.0@
    }
}

impl SafeSecureSeed {
    /// Reference the wrapped array.
    pub fn as_ref(&self) -> (r: &SecureSeed)
        ensures
            r@ == self@,
    {
        &self.0
    }
}

impl From<SecureSeed> for SafeSecureSeed {
    fn from(array: SecureSeed) -> (r: Self)
        ensures
            r@ == array@,
    {
        SafeSecureSeed(array)
    }
}

impl vstd::std_specs::convert::FromSpecImpl<SecureSeed> for SafeSecureSeed {
    open spec fn obeys_from_spec() -> bool {
        true
    }

    closed spec fn from_spec(v: SecureSeed) -> Self {
        SafeSecureSeed(v)
    }
}

} // verus!
