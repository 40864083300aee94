//! The responder (server) role of the handshake, the structural mirror of
//! the client role. The server learns the client's long-term identity only
//! from inside the verified ClientAuth; any further policy on that identity
//! (an allow-list) is the caller's.
use crate::error::HandshakeError;
use crate::keys::{
    ClientEphPublicKey, Keypair, NetworkKey, ServerEphPublicKey, ServerEphSecretKey,
    ServerPublicKey,
};
use crate::message::{
    client_auth_pk, client_auth_sig, client_auth_verifies, hello_bytes, hello_eph_pk,
    hello_verifies, server_accept_bytes, ClientAuth, ClientHello, ServerAccept, ServerHello,
};
use crate::outcome::{
    client_to_server_key, client_to_server_key_of, server_to_client_key, server_to_client_key_of,
    starting_nonce, starting_nonce_of, HandshakeKeys,
};
use crate::primitives::{
    generate_eph_keypair, pk_decodes, pk_decodes_of, shared_secret_eph_of, shared_secret_pk_of,
    shared_secret_sk_of,
};
use crate::shared_secret::{SharedA, SharedB, SharedC};
use vstd::prelude::*;

verus! {

/// Server state after start: waiting for the ClientHello.
#[derive(Clone)]
pub struct ServerAwaitingHello {
    /// The pre-shared network key of this attempt.
    pub net_key: NetworkKey,
    /// The server's long-term identity key pair.
    pub keypair: Keypair,
    /// The fresh ephemeral public key, to be sent in ServerHello.
    pub eph_pk: ServerEphPublicKey,
    /// The fresh ephemeral secret key.
    pub eph_sk: ServerEphSecretKey,
}

/// Server state after ServerHello has been produced: waiting for the
/// ClientAuth.
#[derive(Clone)]
pub struct ServerSentHello {
    /// The pre-shared network key of this attempt.
    pub net_key: NetworkKey,
    /// The server's long-term identity key pair.
    pub keypair: Keypair,
    /// The server's ephemeral public key.
    pub eph_pk: ServerEphPublicKey,
    /// The server's ephemeral secret key.
    pub eph_sk: ServerEphSecretKey,
    /// The client's ephemeral public key, taken from the verified
    /// ClientHello.
    pub client_eph_pk: ClientEphPublicKey,
    /// Shared secret A.
    pub shared_a: SharedA,
    /// Shared secret B.
    pub shared_b: SharedB,
}

impl ServerAwaitingHello {
    /// The long-term public key this state signs with decodes as a curve
    /// point.
    pub open spec fn wf(&self) -> bool {
        pk_decodes_of(self.keypair.public@)
    }

    /// First server step: generate a fresh ephemeral key pair and wait for
    /// the ClientHello.
    pub fn start(net_key: NetworkKey, keypair: Keypair) -> (r: ServerAwaitingHello)
        requires
            pk_decodes_of(keypair.public@),
        ensures
            r.wf(),
            r.net_key == net_key,
            r.keypair == keypair,
    {
        let (pk, sk) = generate_eph_keypair();
        ServerAwaitingHello {
            net_key,
            keypair,
            eph_pk: ServerEphPublicKey(pk),
            eph_sk: ServerEphSecretKey(sk),
        }
    }

    /// Second server step: verify the ClientHello, derive shared secrets A
    /// and B, and build the ServerHello to send.
    pub fn handle_client_hello(self, msg: &ClientHello) -> (r: Result<
        (ServerSentHello, ServerHello),
        HandshakeError,
    >)
        requires
            self.wf(),
            msg.wf(),
        ensures
            (r is Ok) == (hello_verifies(self.net_key.0@, msg.0@) && shared_secret_eph_of(
                self.eph_sk.0@,
                hello_eph_pk(msg.0@),
            ) is Some && shared_secret_sk_of(self.keypair.secret@, hello_eph_pk(msg.0@)) is Some),
            !hello_verifies(self.net_key.0@, msg.0@) ==> r == Err::<
                (ServerSentHello, ServerHello),
                HandshakeError,
            >(HandshakeError::ClientHelloVerifyFailed),
            hello_verifies(self.net_key.0@, msg.0@) && shared_secret_eph_of(
                self.eph_sk.0@,
                hello_eph_pk(msg.0@),
            ) is None ==> r == Err::<(ServerSentHello, ServerHello), HandshakeError>(
                HandshakeError::SharedAInvalid,
            ),
            hello_verifies(self.net_key.0@, msg.0@) && shared_secret_eph_of(
                self.eph_sk.0@,
                hello_eph_pk(msg.0@),
            ) is Some && shared_secret_sk_of(self.keypair.secret@, hello_eph_pk(msg.0@)) is None
                ==> r == Err::<(ServerSentHello, ServerHello), HandshakeError>(
                HandshakeError::SharedBInvalid,
            ),
            r is Ok ==> {
                &&& (r->Ok_0).0.wf()
                &&& (r->Ok_0).0.net_key == self.net_key
                &&& (r->Ok_0).0.keypair == self.keypair
                &&& (r->Ok_0).0.eph_pk == self.eph_pk
                &&& (r->Ok_0).0.eph_sk == self.eph_sk
                &&& (r->Ok_0).0.client_eph_pk.0@ == hello_eph_pk(msg.0@)
                &&& (r->Ok_0).0.shared_a.0@ == shared_secret_eph_of(
                    self.eph_sk.0@,
                    hello_eph_pk(msg.0@),
                )->0
                &&& (r->Ok_0).0.shared_b.0@ == shared_secret_sk_of(
                    self.keypair.secret@,
                    hello_eph_pk(msg.0@),
                )->0
                &&& (r->Ok_0).1.wf()
                &&& (r->Ok_0).1.0@ == hello_bytes(self.net_key.0@, self.eph_pk.0@)
            },
    {
        let client_eph_pk = match msg.verify(&self.net_key) {
            Some(pk) => pk,
            None => {
                return Err(HandshakeError::ClientHelloVerifyFailed);
            },
        };
        let shared_a = match SharedA::server_side(&self.eph_sk, &client_eph_pk) {
            Some(a) => a,
            None => {
                return Err(HandshakeError::SharedAInvalid);
            },
        };
        let shared_b = match SharedB::server_side(&self.keypair, &client_eph_pk) {
            Some(b) => b,
            None => {
                return Err(HandshakeError::SharedBInvalid);
            },
        };
        let hello = ServerHello::new(&self.eph_pk, &self.net_key);
        let state = ServerSentHello {
            net_key: self.net_key,
            keypair: self.keypair,
            eph_pk: self.eph_pk,
            eph_sk: self.eph_sk,
            client_eph_pk,
            shared_a,
            shared_b,
        };
        Ok((state, hello))
    }
}

impl ServerSentHello {
    /// The long-term public key this state signs with decodes as a curve
    /// point.
    pub open spec fn wf(&self) -> bool {
        pk_decodes_of(self.keypair.public@)
    }

    /// Final server step: verify the ClientAuth (learning the client's
    /// long-term identity), derive shared secret C, build the ServerAccept
    /// to send, and derive the session key bundle.
    pub fn handle_client_auth(self, msg: &ClientAuth) -> (r: Result<
        (ServerAccept, HandshakeKeys),
        HandshakeError,
    >)
        requires
            self.wf(),
            msg.wf(),
        ensures
            (r is Ok) == (client_auth_verifies(
                self.net_key.0@,
                self.keypair.public@,
                self.shared_a.0@,
                self.shared_b.0@,
                msg.0@,
            ) && shared_secret_pk_of(
                self.eph_sk.0@,
                client_auth_pk(self.net_key.0@, self.shared_a.0@, self.shared_b.0@, msg.0@),
            ) is Some),
            !client_auth_verifies(
                self.net_key.0@,
                self.keypair.public@,
                self.shared_a.0@,
                self.shared_b.0@,
                msg.0@,
            ) ==> r == Err::<(ServerAccept, HandshakeKeys), HandshakeError>(
                HandshakeError::ClientAuthVerifyFailed,
            ),
            client_auth_verifies(
                self.net_key.0@,
                self.keypair.public@,
                self.shared_a.0@,
                self.shared_b.0@,
                msg.0@,
            ) && shared_secret_pk_of(
                self.eph_sk.0@,
                client_auth_pk(self.net_key.0@, self.shared_a.0@, self.shared_b.0@, msg.0@),
            ) is None ==> r == Err::<(ServerAccept, HandshakeKeys), HandshakeError>(
                HandshakeError::SharedCInvalid,
            ),
            r is Ok ==> {
                &&& (r->Ok_0).0.wf()
                &&& (r->Ok_0).0.0@ == server_accept_bytes(
                    self.net_key.0@,
                    self.keypair.secret@,
                    self.keypair.public@,
                    client_auth_sig(
                        self.net_key.0@,
                        self.shared_a.0@,
                        self.shared_b.0@,
                        msg.0@,
                    ),
                    client_auth_pk(self.net_key.0@, self.shared_a.0@, self.shared_b.0@, msg.0@),
                    self.shared_a.0@,
                    self.shared_b.0@,
                    shared_secret_pk_of(
                        self.eph_sk.0@,
                        client_auth_pk(
                            self.net_key.0@,
                            self.shared_a.0@,
                            self.shared_b.0@,
                            msg.0@,
                        ),
                    )->0,
                )
                &&& (r->Ok_0).1.read_key@ == client_to_server_key_of(
                    self.net_key.0@,
                    self.shared_a.0@,
                    self.shared_b.0@,
                    shared_secret_pk_of(
                        self.eph_sk.0@,
                        client_auth_pk(
                            self.net_key.0@,
                            self.shared_a.0@,
                            self.shared_b.0@,
                            msg.0@,
                        ),
                    )->0,
                    self.keypair.public@,
                )
                &&& (r->Ok_0).1.read_starting_nonce@ == starting_nonce_of(
                    self.net_key.0@,
                    self.eph_pk.0@,
                )
                &&& (r->Ok_0).1.write_key@ == server_to_client_key_of(
                    self.net_key.0@,
                    self.shared_a.0@,
                    self.shared_b.0@,
                    shared_secret_pk_of(
                        self.eph_sk.0@,
                        client_auth_pk(
                            self.net_key.0@,
                            self.shared_a.0@,
                            self.shared_b.0@,
                            msg.0@,
                        ),
                    )->0,
                    client_auth_pk(self.net_key.0@, self.shared_a.0@, self.shared_b.0@, msg.0@),
                )
                &&& (r->Ok_0).1.write_starting_nonce@ == starting_nonce_of(
                    self.net_key.0@,
                    self.client_eph_pk.0@,
                )
                &&& (r->Ok_0).1.peer_key@ == client_auth_pk(
                    self.net_key.0@,
                    self.shared_a.0@,
                    self.shared_b.0@,
                    msg.0@,
                )
            },
    {
        let own_pk = ServerPublicKey(self.keypair.public);
        let (client_sig, client_pk) = match msg.verify(
            &own_pk,
            &self.net_key,
            &self.shared_a,
            &self.shared_b,
        ) {
            Some(x) => x,
            None => {
                return Err(HandshakeError::ClientAuthVerifyFailed);
            },
        };
        let shared_c = match SharedC::server_side(&self.eph_sk, &client_pk) {
            Some(c) => c,
            None => {
                return Err(HandshakeError::SharedCInvalid);
            },
        };
        let accept = ServerAccept::new(
            &self.keypair,
            &self.net_key,
            &client_sig,
            &client_pk,
            &self.shared_a,
            &self.shared_b,
            &shared_c,
        );
        let keys = HandshakeKeys {
            read_key: client_to_server_key(
                &own_pk,
                &self.net_key,
                &self.shared_a,
                &self.shared_b,
                &shared_c,
            ),
            read_starting_nonce: starting_nonce(&self.net_key, &self.eph_pk.0),
            write_key: server_to_client_key(
                &client_pk,
                &self.net_key,
                &self.shared_a,
                &self.shared_b,
                &shared_c,
            ),
            write_starting_nonce: starting_nonce(&self.net_key, &self.client_eph_pk.0),
            peer_key: client_pk.0,
        };
        Ok((accept, keys))
    }
}

/// Check that the server's own long-term public key decodes as a curve
/// point and begin the server role. `None` when it does not: the signing
/// primitives are not defined for such keys, and the original would abort
/// on them.
pub fn start_server(net_key: NetworkKey, keypair: Keypair) -> (r: Option<ServerAwaitingHello>)
    ensures
        (r is Some) == pk_decodes_of(keypair.public@),
        r is Some ==> {
            &&& (r->0).wf()
            &&& (r->0).net_key == net_key
            &&& (r->0).keypair == keypair
        },
{
    if !pk_decodes(&keypair.public) {
        return None;
    }
    Some(ServerAwaitingHello::start(net_key, keypair))
}

/// Run the whole server role against two already-captured inbound messages,
/// as when replaying a recorded exchange into a fresh attempt. `None` when
/// the server's long-term key does not decode or a message has the wrong
/// length; otherwise the result of the attempt. What does not depend on the
/// fresh ephemeral keys — the hello check against the network key, and
/// which errors the steps can produce at all — is pinned below.
pub fn replay_server(
    net_key: NetworkKey,
    keypair: Keypair,
    client_hello: Vec<u8>,
    client_auth: Vec<u8>,
) -> (r: Option<Result<HandshakeKeys, HandshakeError>>)
    ensures
        (r is Some) == (pk_decodes_of(keypair.public@) && client_hello@.len() == 64
            && client_auth@.len() == 112),
        r is Some ==> (((r->0) == Err::<HandshakeKeys, HandshakeError>(
            HandshakeError::ClientHelloVerifyFailed,
        )) == !hello_verifies(net_key.0@, client_hello@)),
        r is Some && (r->0) is Err ==> {
            ||| (r->0) == Err::<HandshakeKeys, HandshakeError>(
                HandshakeError::ClientHelloVerifyFailed,
            )
            ||| (r->0) == Err::<HandshakeKeys, HandshakeError>(HandshakeError::SharedAInvalid)
            ||| (r->0) == Err::<HandshakeKeys, HandshakeError>(HandshakeError::SharedBInvalid)
            ||| (r->0) == Err::<HandshakeKeys, HandshakeError>(
                HandshakeError::ClientAuthVerifyFailed,
            )
            ||| (r->0) == Err::<HandshakeKeys, HandshakeError>(HandshakeError::SharedCInvalid)
        },
{
    let started = match start_server(net_key, keypair) {
        Some(s) => s,
        None => {
            return None;
        },
    };
    let hello = match ClientHello::from_buffer(client_hello) {
        Some(h) => h,
        None => {
            return None;
        },
    };
    let auth = match ClientAuth::from_buffer(client_auth) {
        Some(a) => a,
        None => {
            return None;
        },
    };
    let (state, _hello_out) = match started.handle_client_hello(&hello) {
        Ok(x) => x,
        Err(e) => {
            return Some(Err(e));
        },
    };
    match state.handle_client_auth(&auth) {
        Ok((_accept, keys)) => Some(Ok(keys)),
        Err(e) => Some(Err(e)),
    }
}

} // verus!
