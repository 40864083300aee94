use vstd::prelude::*;

verus! {

/// The pre-shared secret that scopes a handshake to one logical network.
/// It keys the authenticator tags of the hello messages and is mixed into
/// every derived key and nonce.
#[derive(Clone, Copy)]
pub struct NetworkKey(pub [u8; 32]);

/// A long-term identity key pair: the 32-byte ed25519 seed and the matching
/// 32-byte public key, in the layout the underlying signing library uses.
#[derive(Clone, Copy)]
pub struct Keypair {
    /// The secret half (the ed25519 seed). Keep private.
    pub secret: [u8; 32],
    /// The public half.
    pub public: [u8; 32],
}

/// Client's long-term public key.
#[derive(Clone, Copy)]
pub struct ClientPublicKey(pub [u8; 32]);

/// Server's long-term public key; known to the client prior to the handshake.
#[derive(Clone, Copy)]
pub struct ServerPublicKey(pub [u8; 32]);

/// The client's signature carried inside ClientAuth.
#[derive(Clone, Copy)]
pub struct ClientSignature(pub [u8; 64]);

/// The server's signature carried inside ServerAccept.
#[derive(Clone, Copy)]
pub struct ServerSignature(pub [u8; 64]);

/// Client ephemeral public key (generated anew for each connection).
#[derive(Clone, Copy)]
pub struct ClientEphPublicKey(pub [u8; 32]);

/// Client ephemeral secret key; lives for one handshake attempt only.
#[derive(Clone)]
pub struct ClientEphSecretKey(pub [u8; 32]);

/// Server ephemeral public key (generated anew for each connection).
#[derive(Clone, Copy)]
pub struct ServerEphPublicKey(pub [u8; 32]);

/// Server ephemeral secret key; lives for one handshake attempt only.
#[derive(Clone)]
pub struct ServerEphSecretKey(pub [u8; 32]);

} // verus!
