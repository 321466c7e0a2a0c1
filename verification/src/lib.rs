//! Wallet primitives: text codecs for binary values, ed25519 key material,
//! detached signatures, and byte-exact token-program instructions.
//!
//! Wire conventions: addresses and secret keys travel as base58 text;
//! signatures and instruction data travel as standard padded base64 text.

pub mod error;
pub mod encoding;
pub mod address;
pub mod keys;
pub mod signing;
pub mod instruction;
pub mod handlers;
