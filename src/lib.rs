//! Decoding of a signed transaction envelope down to the signer's account
//! address, and interpretation of an allow-list service's answer for it.

pub mod address;
pub mod envelope;
pub mod error;
pub mod gate;
pub mod pubkey;
pub mod text;
pub mod verdict;
