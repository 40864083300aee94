use vstd::prelude::*;

verus! {

/// A terminal failure of one handshake attempt. Every variant aborts the
/// attempt; the caller may retry only by starting a fresh handshake with new
/// ephemeral keys.
#[derive(Clone, Copy, Debug, PartialEq, Eq, Structural)]
pub enum HandshakeError {
    /// The received ClientHello failed its network-key authenticator check.
    ClientHelloVerifyFailed,
    /// The received ServerHello failed its network-key authenticator check.
    ServerHelloVerifyFailed,
    /// The received ClientAuth failed to decrypt, or its signature or the
    /// client public key inside it failed to check out.
    ClientAuthVerifyFailed,
    /// The received ServerAccept failed to decrypt or its signature failed
    /// to check out.
    ServerAcceptVerifyFailed,
    /// Deriving shared secret A (ephemeral x ephemeral) failed.
    SharedAInvalid,
    /// Deriving shared secret B (ephemeral x long-term) failed.
    SharedBInvalid,
    /// Deriving shared secret C (long-term x ephemeral) failed.
    SharedCInvalid,
}

} // verus!
