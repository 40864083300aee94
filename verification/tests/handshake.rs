//! End-to-end scenarios: both roles driven over an in-memory exchange of
//! the four messages.
use ssb_handshake::client::{start_client, ClientAwaitingAccept, ClientSentAuth};
use ssb_handshake::error::HandshakeError;
use ssb_handshake::keys::{Keypair, NetworkKey, ServerPublicKey};
use ssb_handshake::message::{ClientAuth, ClientHello, ServerAccept, ServerHello};
use ssb_handshake::outcome::HandshakeKeys;
use ssb_handshake::server::{start_server, ServerSentHello};

fn lib_keypair(kp: &ssb_crypto::Keypair) -> Keypair {
    Keypair { secret: kp.secret.0, public: kp.public.0 }
}

fn fixed_net_key() -> NetworkKey {
    let mut nk = [0u8; 32];
    for (i, b) in nk.iter_mut().enumerate() {
        *b = (i as u8).wrapping_mul(7).wrapping_add(3);
    }
    NetworkKey(nk)
}

struct Exchange {
    client_hello: ClientHello,
    server_hello: ServerHello,
    client_auth: ClientAuth,
    server_accept: ServerAccept,
    client_result: Result<HandshakeKeys, HandshakeError>,
    server_result: Result<HandshakeKeys, HandshakeError>,
}

/// Drive both roles to completion, with possibly different network keys on
/// the two sides. Panics if any step before the final verifications fails.
fn run_exchange(
    client_nk: NetworkKey,
    server_nk: NetworkKey,
    client_id: &ssb_crypto::Keypair,
    server_id: &ssb_crypto::Keypair,
    expected_server_pk: ServerPublicKey,
) -> Exchange {
    let (c1, client_hello) =
        start_client(client_nk, lib_keypair(client_id), expected_server_pk).unwrap();
    let s1 = start_server(server_nk, lib_keypair(server_id)).unwrap();

    let (s2, server_hello) = s1
        .handle_client_hello(&ClientHello(client_hello.0.clone()))
        .expect("server rejected ClientHello");
    let (c2, client_auth) = c1
        .handle_server_hello(&ServerHello(server_hello.0.clone()))
        .expect("client rejected ServerHello");
    let c3 = c2.derive_shared_c().expect("client shared secret C failed");

    let (server_accept, server_result) =
        match s2.handle_client_auth(&ClientAuth(client_auth.0.clone())) {
            Ok((accept, keys)) => (accept, Ok(keys)),
            Err(e) => panic!("server rejected ClientAuth: {:?}", e),
        };
    let client_result = c3.handle_server_accept(&ServerAccept(server_accept.0.clone()));

    Exchange { client_hello, server_hello, client_auth, server_accept, client_result, server_result }
}

#[test]
fn end_to_end_success_and_key_cross_match() {
    let nk = fixed_net_key();
    let client_id = ssb_crypto::Keypair::generate();
    let server_id = ssb_crypto::Keypair::generate();
    let ex = run_exchange(nk, nk, &client_id, &server_id, ServerPublicKey(server_id.public.0));

    let ck = ex.client_result.expect("client side failed");
    let sk = ex.server_result.expect("server side failed");

    assert_eq!(ck.write_key, sk.read_key);
    assert_eq!(ck.read_key, sk.write_key);
    assert_eq!(ck.write_starting_nonce, sk.read_starting_nonce);
    assert_eq!(ck.read_starting_nonce, sk.write_starting_nonce);
    assert_eq!(ck.peer_key, server_id.public.0);
    assert_eq!(sk.peer_key, client_id.public.0);
    // The two directions never share a key or a nonce.
    assert_ne!(ck.write_key, ck.read_key);
    assert_ne!(ck.write_starting_nonce, ck.read_starting_nonce);
}

#[test]
fn fresh_ephemerals_give_fresh_session_keys() {
    let nk = fixed_net_key();
    let client_id = ssb_crypto::Keypair::generate();
    let server_id = ssb_crypto::Keypair::generate();
    let spk = ServerPublicKey(server_id.public.0);

    let ex1 = run_exchange(nk, nk, &client_id, &server_id, spk);
    let ex2 = run_exchange(nk, nk, &client_id, &server_id, spk);
    let k1 = ex1.client_result.unwrap();
    let k2 = ex2.client_result.unwrap();

    assert_ne!(k1.write_key, k2.write_key);
    assert_ne!(k1.read_key, k2.read_key);
    assert_ne!(k1.write_starting_nonce, k2.write_starting_nonce);
    assert_ne!(k1.read_starting_nonce, k2.read_starting_nonce);
}

#[test]
fn network_key_mismatch_fails_hello_verification() {
    let client_id = ssb_crypto::Keypair::generate();
    let server_id = ssb_crypto::Keypair::generate();
    let spk = ServerPublicKey(server_id.public.0);
    let nk = fixed_net_key();

    for i in 0..32usize {
        let mut other = nk.0;
        other[i] ^= 1;
        let other = NetworkKey(other);

        // Server on a different network rejects the ClientHello.
        let (_c1, client_hello) = start_client(nk, lib_keypair(&client_id), spk).unwrap();
        let s1 = start_server(other, lib_keypair(&server_id)).unwrap();
        assert_eq!(
            s1.handle_client_hello(&client_hello).err().unwrap(),
            HandshakeError::ClientHelloVerifyFailed
        );

        // Client on a different network rejects the ServerHello.
        let (c1, client_hello) = start_client(other, lib_keypair(&client_id), spk).unwrap();
        let s1 = start_server(nk, lib_keypair(&server_id)).unwrap();
        // The server cannot even accept this hello; build one for the client
        // from a server that shares the client's view only partially.
        assert_eq!(
            s1.handle_client_hello(&client_hello).err().unwrap(),
            HandshakeError::ClientHelloVerifyFailed
        );
        let s1 = start_server(nk, lib_keypair(&server_id)).unwrap();
        let (_c1_other, hello_ok) = start_client(nk, lib_keypair(&client_id), spk).unwrap();
        let (_s2, server_hello) = s1.handle_client_hello(&hello_ok).unwrap();
        assert_eq!(
            c1.handle_server_hello(&server_hello).err().unwrap(),
            HandshakeError::ServerHelloVerifyFailed
        );
    }
}

#[test]
fn client_auth_under_other_network_key_gets_verify_error_not_key_error() {
    let nk = fixed_net_key();
    let mut other = nk.0;
    other[17] ^= 0x40;
    let other_nk = NetworkKey(other);

    let client_id = ssb_crypto::Keypair::generate();
    let server_id = ssb_crypto::Keypair::generate();
    let spk = ServerPublicKey(server_id.public.0);

    // Hello exchange on the shared network key.
    let (c1, client_hello) = start_client(nk, lib_keypair(&client_id), spk).unwrap();
    let s1 = start_server(nk, lib_keypair(&server_id)).unwrap();
    let (s2, server_hello) = s1.handle_client_hello(&client_hello).unwrap();
    let (c2, _auth) = c1.handle_server_hello(&server_hello).unwrap();

    // A ClientAuth whose signature and box key were produced under a
    // different network key, but over the same shared secrets.
    let bad_auth = ClientAuth::new(
        &lib_keypair(&client_id),
        &spk,
        &other_nk,
        &c2.shared_a,
        &c2.shared_b,
    );
    assert_eq!(
        s2.handle_client_auth(&bad_auth).err().unwrap(),
        HandshakeError::ClientAuthVerifyFailed
    );
}

#[test]
fn replayed_transcript_is_rejected() {
    let nk = fixed_net_key();
    let client_id = ssb_crypto::Keypair::generate();
    let server_id = ssb_crypto::Keypair::generate();
    let spk = ServerPublicKey(server_id.public.0);

    let ex = run_exchange(nk, nk, &client_id, &server_id, spk);
    assert!(ex.client_result.is_ok());
    assert!(ex.server_result.is_ok());

    // A fresh client attempt fed the captured server messages: the old
    // ServerAccept is bound to the old ephemeral keys and must fail.
    let replayed = ssb_handshake::client::replay_client(
        nk,
        lib_keypair(&client_id),
        spk,
        ex.server_hello.0.clone(),
        ex.server_accept.0.clone(),
    )
    .expect("inputs well-formed");
    assert_eq!(replayed.err().unwrap(), HandshakeError::ServerAcceptVerifyFailed);

    // A fresh server attempt fed the captured client messages: the old
    // ClientAuth is sealed under the old shared secrets and must fail.
    let replayed = ssb_handshake::server::replay_server(
        nk,
        lib_keypair(&server_id),
        ex.client_hello.0.clone(),
        ex.client_auth.0.clone(),
    )
    .expect("inputs well-formed");
    assert_eq!(replayed.err().unwrap(), HandshakeError::ClientAuthVerifyFailed);
}

#[test]
fn wrong_expected_server_key_is_rejected() {
    let nk = fixed_net_key();
    let client_id = ssb_crypto::Keypair::generate();
    let server_id = ssb_crypto::Keypair::generate();
    let other_id = ssb_crypto::Keypair::generate();

    // The client expects some other party's key.
    let wrong_spk = ServerPublicKey(other_id.public.0);
    let (c1, client_hello) = start_client(nk, lib_keypair(&client_id), wrong_spk).unwrap();
    let s1 = start_server(nk, lib_keypair(&server_id)).unwrap();

    // The ServerHello still parses: it is bound to the network key only.
    let (s2, server_hello) = s1.handle_client_hello(&client_hello).unwrap();
    let (c2, client_auth) = c1.handle_server_hello(&server_hello).unwrap();
    let c3 = c2.derive_shared_c().unwrap();

    // The server cannot read an auth addressed to someone else's key.
    assert_eq!(
        s2.handle_client_auth(&client_auth).err().unwrap(),
        HandshakeError::ClientAuthVerifyFailed
    );

    // Even an accept from a real session of the same peers does not
    // convince this client.
    let ex = run_exchange(nk, nk, &client_id, &server_id, ServerPublicKey(server_id.public.0));
    assert_eq!(
        c3.handle_server_accept(&ex.server_accept).err().unwrap(),
        HandshakeError::ServerAcceptVerifyFailed
    );
}

#[test]
fn shared_b_fails_on_small_order_server_key() {
    // The all-zero public key decompresses but names a small-order point,
    // which key agreement rejects.
    let nk = fixed_net_key();
    let client_id = ssb_crypto::Keypair::generate();
    let server_id = ssb_crypto::Keypair::generate();
    let zero_spk = ServerPublicKey([0u8; 32]);

    let started = start_client(nk, lib_keypair(&client_id), zero_spk);
    let (c1, client_hello) = match started {
        Some(x) => x,
        None => return,  // the zero key does not decode under this backend
    };
    let s1 = start_server(nk, lib_keypair(&server_id)).unwrap();
    let (_s2, server_hello) = s1.handle_client_hello(&client_hello).unwrap();
    assert_eq!(
        c1.handle_server_hello(&server_hello).err().unwrap(),
        HandshakeError::SharedBInvalid
    );
}

#[test]
fn undecodable_identity_keys_are_rejected_up_front() {
    let nk = fixed_net_key();
    let good = ssb_crypto::Keypair::generate();

    // Find bytes that are not a valid public key encoding.
    let mut bad_pk = None;
    for v in 0..=255u8 {
        let cand = [v; 32];
        if ed25519_dalek::PublicKey::from_bytes(&cand).is_err() {
            bad_pk = Some(cand);
            break;
        }
    }
    let bad_pk = bad_pk.expect("some repeated byte fails to decompress");

    let bad_kp = Keypair { secret: good.secret.0, public: bad_pk };
    assert!(start_client(nk, bad_kp, ServerPublicKey(good.public.0)).is_none());
    assert!(start_server(nk, bad_kp).is_none());
    assert!(start_client(nk, lib_keypair(&good), ServerPublicKey(bad_pk)).is_none());
}

#[test]
fn state_types_are_usable_across_attempts() {
    // Cloned mid-handshake states can be driven independently.
    let nk = fixed_net_key();
    let client_id = ssb_crypto::Keypair::generate();
    let server_id = ssb_crypto::Keypair::generate();
    let spk = ServerPublicKey(server_id.public.0);

    let (c1, client_hello) = start_client(nk, lib_keypair(&client_id), spk).unwrap();
    let s1 = start_server(nk, lib_keypair(&server_id)).unwrap();
    let (s2, server_hello) = s1.handle_client_hello(&client_hello).unwrap();

    let (c2a, auth_a) = c1.clone().handle_server_hello(&server_hello).unwrap();
    let (c2b, auth_b) = c1.handle_server_hello(&server_hello).unwrap();
    // Same state, same input: the deterministic layers agree byte for byte.
    assert_eq!(auth_a.0, auth_b.0);
    let _: ClientSentAuth = c2a;
    let _: ClientAwaitingAccept = c2b.derive_shared_c().unwrap();
    let _: ServerSentHello = s2;
}
