//! A safety layer over the TweetNaCl primitives of `sodalite`.
//!
//! The low-level primitives follow the historical C NaCl calling convention, which asks callers
//! to reserve all-zero prefixes in their buffers. This crate hides that convention behind
//! un-padded byte buffers, and wraps keys, nonces and seeds in distinct types per role.
//!
//! - <https://tweetnacl.cr.yp.to/>
//! - <https://nacl.cr.yp.to/>

pub mod padding_constants;
pub mod padding_helpers;
pub mod types;
pub mod primitives;
pub mod safe_box;
pub mod safe_secretbox;
pub mod safe_sign;
