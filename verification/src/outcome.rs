//! Derivation of the session key bundle once all four messages are
//! exchanged: one symmetric key and one starting nonce per direction. A pure
//! function of the network key, the three shared secrets, the two long-term
//! public keys and the two ephemeral public keys.
use crate::bytes::{append_bytes, copy24};
use crate::keys::{ClientPublicKey, NetworkKey, ServerPublicKey};
use crate::message::server_accept_key;
use crate::primitives::{auth_tag, auth_tag_of, sha256, sha256_of};
use crate::shared_secret::{SharedA, SharedB, SharedC};
use vstd::prelude::*;

verus! {

/// The common root of both directional keys: the double digest of the
/// network key and the three shared secrets.
pub open spec fn shared_key_root(nk: Seq<u8>, a: Seq<u8>, b: Seq<u8>, c: Seq<u8>) -> Seq<u8> {
    sha256_of(server_accept_key(nk, a, b, c))
}

/// The client-to-server key: the shared root anchored by the server's
/// long-term public key. The client writes with it; the server reads.
pub open spec fn client_to_server_key_of(
    nk: Seq<u8>,
    a: Seq<u8>,
    b: Seq<u8>,
    c: Seq<u8>,
    spk: Seq<u8>,
) -> Seq<u8> {
    sha256_of(shared_key_root(nk, a, b, c) + spk)
}

/// The server-to-client key: the shared root anchored by the client's
/// long-term public key. The server writes with it; the client reads.
pub open spec fn server_to_client_key_of(
    nk: Seq<u8>,
    a: Seq<u8>,
    b: Seq<u8>,
    c: Seq<u8>,
    cpk: Seq<u8>,
) -> Seq<u8> {
    sha256_of(shared_key_root(nk, a, b, c) + cpk)
}

/// The starting nonce of the direction addressed to the holder of `eph_pk`:
/// the first 24 bytes of the authenticator tag over that ephemeral key.
pub open spec fn starting_nonce_of(nk: Seq<u8>, eph_pk: Seq<u8>) -> Seq<u8> {
    auth_tag_of(nk, eph_pk).subrange(0, 24)
}

/// The bundle a successful handshake hands to the caller; the engine
/// retains no copy.
pub struct HandshakeKeys {
    /// Key for the bytes the peer sends to us.
    pub read_key: [u8; 32],
    /// Starting nonce for the bytes the peer sends to us.
    pub read_starting_nonce: [u8; 24],
    /// Key for the bytes we send to the peer.
    pub write_key: [u8; 32],
    /// Starting nonce for the bytes we send to the peer.
    pub write_starting_nonce: [u8; 24],
    /// The peer's long-term public key, as verified during the handshake.
    pub peer_key: [u8; 32],
}

/// Compute the client-to-server directional key.
pub fn client_to_server_key(
    server_pk: &ServerPublicKey,
    net_key: &NetworkKey,
    shared_a: &SharedA,
    shared_b: &SharedB,
    shared_c: &SharedC,
) -> (r: [u8; 32])
    ensures
        r@ == client_to_server_key_of(
            net_key.0@,
            shared_a.0@,
            shared_b.0@,
            shared_c.0@,
            server_pk.0@,
        ),
{
    let mut km: Vec<u8> = Vec::new();
    append_bytes(&mut km, net_key.0.as_slice());
    append_bytes(&mut km, shared_a.0.as_slice());
    append_bytes(&mut km, shared_b.0.as_slice());
    append_bytes(&mut km, shared_c.0.as_slice());
    proof {
        assert(km@ =~= net_key.0@ + shared_a.0@ + shared_b.0@ + shared_c.0@);
    }
    let root = sha256(sha256(km.as_slice()).as_slice());
    let mut anchored: Vec<u8> = Vec::new();
    append_bytes(&mut anchored, root.as_slice());
    append_bytes(&mut anchored, server_pk.0.as_slice());
    proof {
        assert(anchored@ =~= root@ + server_pk.0@);
    }
    sha256(anchored.as_slice())
}

/// Compute the server-to-client directional key.
pub fn server_to_client_key(
    client_pk: &ClientPublicKey,
    net_key: &NetworkKey,
    shared_a: &SharedA,
    shared_b: &SharedB,
    shared_c: &SharedC,
) -> (r: [u8; 32])
    ensures
        r@ == server_to_client_key_of(
            net_key.0@,
            shared_a.0@,
            shared_b.0@,
            shared_c.0@,
            client_pk.0@,
        ),
{
    let mut km: Vec<u8> = Vec::new();
    append_bytes(&mut km, net_key.0.as_slice());
    append_bytes(&mut km, shared_a.0.as_slice());
    append_bytes(&mut km, shared_b.0.as_slice());
    append_bytes(&mut km, shared_c.0.as_slice());
    proof {
        assert(km@ =~= net_key.0@ + shared_a.0@ + shared_b.0@ + shared_c.0@);
    }
    let root = sha256(sha256(km.as_slice()).as_slice());
    let mut anchored: Vec<u8> = Vec::new();
    append_bytes(&mut anchored, root.as_slice());
    append_bytes(&mut anchored, client_pk.0.as_slice());
    proof {
        assert(anchored@ =~= root@ + client_pk.0@);
    }
    sha256(anchored.as_slice())
}

/// Compute the starting nonce of the direction addressed to the holder of
/// `eph_pk`.
pub fn starting_nonce(net_key: &NetworkKey, eph_pk: &[u8; 32]) -> (r: [u8; 24])
    ensures
        r@ == starting_nonce_of(net_key.0@, eph_pk@),
{
    let tag = auth_tag(&net_key.0, eph_pk.as_slice());
    copy24(tag.as_slice(), 0)
}

} // verus!
