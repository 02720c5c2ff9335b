//! A keyed message-authentication code in the nested-hash style, generic over
//! the hash function, which can additionally be bound to a public nonce and
//! asked for a tag of a chosen length.

pub mod ct;
pub mod hash;
pub mod hmac;
pub mod pad;

pub use crate::hmac::HMAC;
