//! A mutual-authentication key-exchange handshake over an ordered byte
//! stream: four fixed-size messages, a triple Diffie-Hellman shared-secret
//! derivation, and the directional session-key and nonce derivation that
//! follows. The byte layout of every message, the order of every
//! verification, and the inputs of every derivation are stated in contracts
//! and verified; the cryptographic primitives themselves are called through
//! trusted wrappers.
pub mod bytes;
pub mod client;
pub mod error;
pub mod keys;
pub mod laws;
pub mod message;
pub mod outcome;
pub mod primitives;
pub mod server;
pub mod shared_secret;
