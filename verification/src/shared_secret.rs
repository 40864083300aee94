//! The three Diffie-Hellman shared secrets. A is ephemeral x ephemeral and
//! gives forward secrecy; B binds the exchange to the server's long-term
//! identity; C binds it to the client's. Each is computed, never
//! transmitted, and a failure of any one is fatal to the whole attempt.
use crate::keys::{
    ClientEphPublicKey, ClientEphSecretKey, ClientPublicKey, Keypair, ServerEphPublicKey,
    ServerEphSecretKey, ServerPublicKey,
};
use crate::primitives::{
    shared_secret_eph, shared_secret_eph_of, shared_secret_pk, shared_secret_pk_of,
    shared_secret_sk, shared_secret_sk_of,
};
use vstd::prelude::*;

verus! {

/// Shared secret A: ephemeral x ephemeral.
#[derive(Clone, Copy)]
pub struct SharedA(pub [u8; 32]);

/// Shared secret B: mixes an ephemeral key with the server's long-term
/// identity key.
#[derive(Clone, Copy)]
pub struct SharedB(pub [u8; 32]);

/// Shared secret C: mixes the client's long-term identity key with an
/// ephemeral key.
#[derive(Clone, Copy)]
pub struct SharedC(pub [u8; 32]);

impl SharedA {
    /// The client's computation of A, from its own ephemeral secret key and
    /// the server's ephemeral public key.
    pub fn client_side(sk: &ClientEphSecretKey, pk: &ServerEphPublicKey) -> (r: Option<SharedA>)
        ensures
            (r is Some) == (shared_secret_eph_of(sk.0@, pk.0@) is Some),
            r is Some ==> (r->0).0@ == shared_secret_eph_of(sk.0@, pk.0@)->0,
    {
        match shared_secret_eph(&sk.0, &pk.0) {
            Some(s) => Some(SharedA(s)),
            None => None,
        }
    }

    /// The server's computation of A, from its own ephemeral secret key and
    /// the client's ephemeral public key.
    pub fn server_side(sk: &ServerEphSecretKey, pk: &ClientEphPublicKey) -> (r: Option<SharedA>)
        ensures
            (r is Some) == (shared_secret_eph_of(sk.0@, pk.0@) is Some),
            r is Some ==> (r->0).0@ == shared_secret_eph_of(sk.0@, pk.0@)->0,
    {
        match shared_secret_eph(&sk.0, &pk.0) {
            Some(s) => Some(SharedA(s)),
            None => None,
        }
    }
}

impl SharedB {
    /// The client's computation of B, from its own ephemeral secret key and
    /// the server's long-term public key.
    pub fn client_side(sk: &ClientEphSecretKey, pk: &ServerPublicKey) -> (r: Option<SharedB>)
        ensures
            (r is Some) == (shared_secret_pk_of(sk.0@, pk.0@) is Some),
            r is Some ==> (r->0).0@ == shared_secret_pk_of(sk.0@, pk.0@)->0,
    {
        match shared_secret_pk(&sk.0, &pk.0) {
            Some(s) => Some(SharedB(s)),
            None => None,
        }
    }

    /// The server's computation of B, from its long-term secret key and the
    /// client's ephemeral public key.
    pub fn server_side(keypair: &Keypair, pk: &ClientEphPublicKey) -> (r: Option<SharedB>)
        ensures
            (r is Some) == (shared_secret_sk_of(keypair.secret@, pk.0@) is Some),
            r is Some ==> (r->0).0@ == shared_secret_sk_of(keypair.secret@, pk.0@)->0,
    {
        match shared_secret_sk(&keypair.secret, &pk.0) {
            Some(s) => Some(SharedB(s)),
            None => None,
        }
    }
}

impl SharedC {
    /// The client's computation of C, from its long-term secret key and the
    /// server's ephemeral public key.
    pub fn client_side(keypair: &Keypair, pk: &ServerEphPublicKey) -> (r: Option<SharedC>)
        ensures
            (r is Some) == (shared_secret_sk_of(keypair.secret@, pk.0@) is Some),
            r is Some ==> (r->0).0@ == shared_secret_sk_of(keypair.secret@, pk.0@)->0,
    {
        match shared_secret_sk(&keypair.secret, &pk.0) {
            Some(s) => Some(SharedC(s)),
            None => None,
        }
    }

    /// The server's computation of C, from its own ephemeral secret key and
    /// the client's long-term public key, learned from ClientAuth.
    pub fn server_side(sk: &ServerEphSecretKey, pk: &ClientPublicKey) -> (r: Option<SharedC>)
        ensures
            (r is Some) == (shared_secret_pk_of(sk.0@, pk.0@) is Some),
            r is Some ==> (r->0).0@ == shared_secret_pk_of(sk.0@, pk.0@)->0,
    {
        match shared_secret_pk(&sk.0, &pk.0) {
            Some(s) => Some(SharedC(s)),
            None => None,
        }
    }
}

} // verus!
