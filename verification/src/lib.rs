//! Claim sets for signed tokens: the standard claims of a token, builders to
//! construct them, a dual representation for the audience claim, and a
//! validation routine that checks a claim set against a caller-supplied
//! verification policy.
//!
//! Cryptographic signing and the wire encoding of tokens are out of scope:
//! this crate models the claims themselves and the rules that accept or
//! reject them.

pub mod claims;
pub mod duration;
pub mod error;
pub mod options;
mod outside;
