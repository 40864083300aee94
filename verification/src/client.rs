//! The initiator (client) role of the handshake, as a sans-transport state
//! machine. Each state consumes itself and either yields the next message
//! to put on the wire, or fails closed; the caller owns the transport and
//! must close it on any error.
use crate::error::HandshakeError;
use crate::keys::{
    ClientEphPublicKey, ClientEphSecretKey, ClientPublicKey, Keypair, NetworkKey,
    ServerEphPublicKey, ServerPublicKey,
};
use crate::message::{
    client_auth_bytes, hello_bytes, hello_eph_pk, hello_verifies, server_accept_verifies,
    ClientAuth, ClientHello, ServerAccept, ServerHello,
};
use crate::outcome::{
    client_to_server_key, client_to_server_key_of, server_to_client_key, server_to_client_key_of,
    starting_nonce, starting_nonce_of, HandshakeKeys,
};
use crate::primitives::{
    generate_eph_keypair, pk_decodes, pk_decodes_of, shared_secret_eph_of, shared_secret_pk_of,
    shared_secret_sk_of,
};
use crate::shared_secret::{SharedA, SharedB, SharedC};
use vstd::prelude::*;

verus! {

/// Client state after ClientHello has been produced: waiting for the
/// ServerHello.
#[derive(Clone)]
pub struct ClientSentHello {
    /// The pre-shared network key of this attempt.
    pub net_key: NetworkKey,
    /// The client's long-term identity key pair.
    pub keypair: Keypair,
    /// The server's long-term public key, known in advance.
    pub server_pk: ServerPublicKey,
    /// The fresh ephemeral public key, sent in ClientHello.
    pub eph_pk: ClientEphPublicKey,
    /// The fresh ephemeral secret key.
    pub eph_sk: ClientEphSecretKey,
}

/// Client state after ClientAuth has been produced: shared secret C is
/// still to be derived before the ServerAccept can be checked.
#[derive(Clone)]
pub struct ClientSentAuth {
    /// The pre-shared network key of this attempt.
    pub net_key: NetworkKey,
    /// The client's long-term identity key pair.
    pub keypair: Keypair,
    /// The server's long-term public key.
    pub server_pk: ServerPublicKey,
    /// The client's ephemeral public key.
    pub eph_pk: ClientEphPublicKey,
    /// The server's ephemeral public key, taken from the verified
    /// ServerHello.
    pub server_eph_pk: ServerEphPublicKey,
    /// Shared secret A.
    pub shared_a: SharedA,
    /// Shared secret B.
    pub shared_b: SharedB,
}

/// Client state with all three shared secrets in hand: waiting for the
/// ServerAccept.
#[derive(Clone)]
pub struct ClientAwaitingAccept {
    /// The pre-shared network key of this attempt.
    pub net_key: NetworkKey,
    /// The client's long-term identity key pair.
    pub keypair: Keypair,
    /// The server's long-term public key.
    pub server_pk: ServerPublicKey,
    /// The client's ephemeral public key.
    pub eph_pk: ClientEphPublicKey,
    /// The server's ephemeral public key.
    pub server_eph_pk: ServerEphPublicKey,
    /// Shared secret A.
    pub shared_a: SharedA,
    /// Shared secret B.
    pub shared_b: SharedB,
    /// Shared secret C.
    pub shared_c: SharedC,
}

impl ClientSentHello {
    /// Both long-term public keys this state signs with or checks against
    /// decode as curve points.
    pub open spec fn wf(&self) -> bool {
        pk_decodes_of(self.keypair.public@) && pk_decodes_of(self.server_pk.0@)
    }

    /// First client step: generate a fresh ephemeral key pair and build the
    /// ClientHello to send.
    pub fn start(net_key: NetworkKey, keypair: Keypair, server_pk: ServerPublicKey) -> (r: (
        ClientSentHello,
        ClientHello,
    ))
        requires
            pk_decodes_of(keypair.public@),
            pk_decodes_of(server_pk.0@),
        ensures
            r.0.wf(),
            r.0.net_key == net_key,
            r.0.keypair == keypair,
            r.0.server_pk == server_pk,
            r.1.wf(),
            r.1.0@ == hello_bytes(net_key.0@, r.0.eph_pk.0@),
    {
        let (pk, sk) = generate_eph_keypair();
        let eph_pk = ClientEphPublicKey(pk);
        let hello = ClientHello::new(&eph_pk, &net_key);
        let state = ClientSentHello {
            net_key,
            keypair,
            server_pk,
            eph_pk,
            eph_sk: ClientEphSecretKey(sk),
        };
        (state, hello)
    }

    /// Second client step: verify the ServerHello, derive shared secrets A
    /// and B, and build the ClientAuth to send. Fails closed with the exact
    /// step that went wrong; nothing derived from an unverified message is
    /// exposed.
    pub fn handle_server_hello(self, msg: &ServerHello) -> (r: Result<
        (ClientSentAuth, ClientAuth),
        HandshakeError,
    >)
        requires
            self.wf(),
            msg.wf(),
        ensures
            (r is Ok) == (hello_verifies(self.net_key.0@, msg.0@) && shared_secret_eph_of(
                self.eph_sk.0@,
                hello_eph_pk(msg.0@),
            ) is Some && shared_secret_pk_of(self.eph_sk.0@, self.server_pk.0@) is Some),
            !hello_verifies(self.net_key.0@, msg.0@) ==> r == Err::<
                (ClientSentAuth, ClientAuth),
                HandshakeError,
            >(HandshakeError::ServerHelloVerifyFailed),
            hello_verifies(self.net_key.0@, msg.0@) && shared_secret_eph_of(
                self.eph_sk.0@,
                hello_eph_pk(msg.0@),
            ) is None ==> r == Err::<(ClientSentAuth, ClientAuth), HandshakeError>(
                HandshakeError::SharedAInvalid,
            ),
            hello_verifies(self.net_key.0@, msg.0@) && shared_secret_eph_of(
                self.eph_sk.0@,
                hello_eph_pk(msg.0@),
            ) is Some && shared_secret_pk_of(self.eph_sk.0@, self.server_pk.0@) is None ==> r
                == Err::<(ClientSentAuth, ClientAuth), HandshakeError>(
                HandshakeError::SharedBInvalid,
            ),
            r is Ok ==> {
                &&& (r->Ok_0).0.wf()
                &&& (r->Ok_0).0.net_key == self.net_key
                &&& (r->Ok_0).0.keypair == self.keypair
                &&& (r->Ok_0).0.server_pk == self.server_pk
                &&& (r->Ok_0).0.eph_pk == self.eph_pk
                &&& (r->Ok_0).0.server_eph_pk.0@ == hello_eph_pk(msg.0@)
                &&& (r->Ok_0).0.shared_a.0@ == shared_secret_eph_of(
                    self.eph_sk.0@,
                    hello_eph_pk(msg.0@),
                )->0
                &&& (r->Ok_0).0.shared_b.0@ == shared_secret_pk_of(
                    self.eph_sk.0@,
                    self.server_pk.0@,
                )->0
                &&& (r->Ok_0).1.wf()
                &&& (r->Ok_0).1.0@ == client_auth_bytes(
                    self.net_key.0@,
                    self.keypair.secret@,
                    self.keypair.public@,
                    self.server_pk.0@,
                    (r->Ok_0).0.shared_a.0@,
                    (r->Ok_0).0.shared_b.0@,
                )
            },
    {
        let server_eph_pk = match msg.verify(&self.net_key) {
            Some(pk) => pk,
            None => {
                return Err(HandshakeError::ServerHelloVerifyFailed);
            },
        };
        let shared_a = match SharedA::client_side(&self.eph_sk, &server_eph_pk) {
            Some(a) => a,
            None => {
                return Err(HandshakeError::SharedAInvalid);
            },
        };
        let shared_b = match SharedB::client_side(&self.eph_sk, &self.server_pk) {
            Some(b) => b,
            None => {
                return Err(HandshakeError::SharedBInvalid);
            },
        };
        let auth = ClientAuth::new(
            &self.keypair,
            &self.server_pk,
            &self.net_key,
            &shared_a,
            &shared_b,
        );
        let state = ClientSentAuth {
            net_key: self.net_key,
            keypair: self.keypair,
            server_pk: self.server_pk,
            eph_pk: self.eph_pk,
            server_eph_pk,
            shared_a,
            shared_b,
        };
        Ok((state, auth))
    }
}

impl ClientSentAuth {
    /// Both long-term public keys this state signs with or checks against
    /// decode as curve points.
    pub open spec fn wf(&self) -> bool {
        pk_decodes_of(self.keypair.public@) && pk_decodes_of(self.server_pk.0@)
    }

    /// Third client step, after ClientAuth is on the wire: derive shared
    /// secret C from the client's long-term secret key and the server's
    /// ephemeral public key.
    pub fn derive_shared_c(self) -> (r: Result<ClientAwaitingAccept, HandshakeError>)
        requires
            self.wf(),
        ensures
            (r is Ok) == (shared_secret_sk_of(self.keypair.secret@, self.server_eph_pk.0@)
                is Some),
            r is Err ==> r == Err::<ClientAwaitingAccept, HandshakeError>(
                HandshakeError::SharedCInvalid,
            ),
            r is Ok ==> {
                &&& (r->Ok_0).wf()
                &&& (r->Ok_0).net_key == self.net_key
                &&& (r->Ok_0).keypair == self.keypair
                &&& (r->Ok_0).server_pk == self.server_pk
                &&& (r->Ok_0).eph_pk == self.eph_pk
                &&& (r->Ok_0).server_eph_pk == self.server_eph_pk
                &&& (r->Ok_0).shared_a == self.shared_a
                &&& (r->Ok_0).shared_b == self.shared_b
                &&& (r->Ok_0).shared_c.0@ == shared_secret_sk_of(
                    self.keypair.secret@,
                    self.server_eph_pk.0@,
                )->0
            },
    {
        let shared_c = match SharedC::client_side(&self.keypair, &self.server_eph_pk) {
            Some(c) => c,
            None => {
                return Err(HandshakeError::SharedCInvalid);
            },
        };
        Ok(
            ClientAwaitingAccept {
                net_key: self.net_key,
                keypair: self.keypair,
                server_pk: self.server_pk,
                eph_pk: self.eph_pk,
                server_eph_pk: self.server_eph_pk,
                shared_a: self.shared_a,
                shared_b: self.shared_b,
                shared_c,
            },
        )
    }
}

impl ClientAwaitingAccept {
    /// Both long-term public keys this state signs with or checks against
    /// decode as curve points.
    pub open spec fn wf(&self) -> bool {
        pk_decodes_of(self.keypair.public@) && pk_decodes_of(self.server_pk.0@)
    }

    /// Final client step: verify the ServerAccept and, only then, derive
    /// the session key bundle.
    pub fn handle_server_accept(self, msg: &ServerAccept) -> (r: Result<
        HandshakeKeys,
        HandshakeError,
    >)
        requires
            self.wf(),
            msg.wf(),
        ensures
            (r is Ok) == server_accept_verifies(
                self.net_key.0@,
                self.keypair.secret@,
                self.keypair.public@,
                self.server_pk.0@,
                self.shared_a.0@,
                self.shared_b.0@,
                self.shared_c.0@,
                msg.0@,
            ),
            r is Err ==> r == Err::<HandshakeKeys, HandshakeError>(
                HandshakeError::ServerAcceptVerifyFailed,
            ),
            r is Ok ==> {
                &&& (r->Ok_0).read_key@ == server_to_client_key_of(
                    self.net_key.0@,
                    self.shared_a.0@,
                    self.shared_b.0@,
                    self.shared_c.0@,
                    self.keypair.public@,
                )
                &&& (r->Ok_0).read_starting_nonce@ == starting_nonce_of(
                    self.net_key.0@,
                    self.eph_pk.0@,
                )
                &&& (r->Ok_0).write_key@ == client_to_server_key_of(
                    self.net_key.0@,
                    self.shared_a.0@,
                    self.shared_b.0@,
                    self.shared_c.0@,
                    self.server_pk.0@,
                )
                &&& (r->Ok_0).write_starting_nonce@ == starting_nonce_of(
                    self.net_key.0@,
                    self.server_eph_pk.0@,
                )
                &&& (r->Ok_0).peer_key == self.server_pk.0
            },
    {
        let ok = msg.verify(
            &self.keypair,
            &self.server_pk,
            &self.net_key,
            &self.shared_a,
            &self.shared_b,
            &self.shared_c,
        );
        if !ok {
            return Err(HandshakeError::ServerAcceptVerifyFailed);
        }
        let client_pk = ClientPublicKey(self.keypair.public);
        Ok(
            HandshakeKeys {
                read_key: server_to_client_key(
                    &client_pk,
                    &self.net_key,
                    &self.shared_a,
                    &self.shared_b,
                    &self.shared_c,
                ),
                read_starting_nonce: starting_nonce(&self.net_key, &self.eph_pk.0),
                write_key: client_to_server_key(
                    &self.server_pk,
                    &self.net_key,
                    &self.shared_a,
                    &self.shared_b,
                    &self.shared_c,
                ),
                write_starting_nonce: starting_nonce(&self.net_key, &self.server_eph_pk.0),
                peer_key: self.server_pk.0,
            },
        )
    }
}

/// Check that both long-term public keys decode as curve points and begin
/// the client role. `None` when either does not: the signing primitives are
/// not defined for such keys, and the original would abort on them.
pub fn start_client(net_key: NetworkKey, keypair: Keypair, server_pk: ServerPublicKey) -> (r:
    Option<(ClientSentHello, ClientHello)>)
    ensures
        (r is Some) == (pk_decodes_of(keypair.public@) && pk_decodes_of(server_pk.0@)),
        r is Some ==> {
            &&& (r->0).0.wf()
            &&& (r->0).0.net_key == net_key
            &&& (r->0).0.keypair == keypair
            &&& (r->0).0.server_pk == server_pk
            &&& (r->0).1.wf()
            &&& (r->0).1.0@ == hello_bytes(net_key.0@, (r->0).0.eph_pk.0@)
        },
{
    if !pk_decodes(&keypair.public) {
        return None;
    }
    if !pk_decodes(&server_pk.0) {
        return None;
    }
    Some(ClientSentHello::start(net_key, keypair, server_pk))
}

/// Run the whole client role against two already-captured inbound messages,
/// as when replaying a recorded exchange into a fresh attempt. `None` when a
/// long-term key does not decode or a message has the wrong length;
/// otherwise the result of the attempt. The fresh ephemeral keys make the
/// outbound messages differ from any earlier attempt's; what does not
/// depend on them — the hello check against the network key, and which
/// errors the steps can produce at all — is pinned below.
pub fn replay_client(
    net_key: NetworkKey,
    keypair: Keypair,
    server_pk: ServerPublicKey,
    server_hello: Vec<u8>,
    server_accept: Vec<u8>,
) -> (r: Option<Result<HandshakeKeys, HandshakeError>>)
    ensures
        (r is Some) == (pk_decodes_of(keypair.public@) && pk_decodes_of(server_pk.0@)
            && server_hello@.len() == 64 && server_accept@.len() == 80),
        r is Some ==> (((r->0) == Err::<HandshakeKeys, HandshakeError>(
            HandshakeError::ServerHelloVerifyFailed,
        )) == !hello_verifies(net_key.0@, server_hello@)),
        r is Some && (r->0) is Err ==> {
            ||| (r->0) == Err::<HandshakeKeys, HandshakeError>(
                HandshakeError::ServerHelloVerifyFailed,
            )
            ||| (r->0) == Err::<HandshakeKeys, HandshakeError>(HandshakeError::SharedAInvalid)
            ||| (r->0) == Err::<HandshakeKeys, HandshakeError>(HandshakeError::SharedBInvalid)
            ||| (r->0) == Err::<HandshakeKeys, HandshakeError>(HandshakeError::SharedCInvalid)
            ||| (r->0) == Err::<HandshakeKeys, HandshakeError>(
                HandshakeError::ServerAcceptVerifyFailed,
            )
        },
{
    let started = match start_client(net_key, keypair, server_pk) {
        Some(s) => s,
        None => {
            return None;
        },
    };
    let hello = match ServerHello::from_buffer(server_hello) {
        Some(h) => h,
        None => {
            return None;
        },
    };
    let accept = match ServerAccept::from_buffer(server_accept) {
        Some(a) => a,
        None => {
            return None;
        },
    };
    let (state, _auth) = match started.0.handle_server_hello(&hello) {
        Ok(x) => x,
        Err(e) => {
            return Some(Err(e));
        },
    };
    let awaiting = match state.derive_shared_c() {
        Ok(x) => x,
        Err(e) => {
            return Some(Err(e));
        },
    };
    Some(awaiting.handle_server_accept(&accept))
}

} // verus!
