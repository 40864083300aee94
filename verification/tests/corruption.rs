//! Every transmitted byte is covered by an authenticator: flipping any
//! single bit of any message makes the receiving side's verification fail.
use ssb_handshake::client::start_client;
use ssb_handshake::error::HandshakeError;
use ssb_handshake::keys::{Keypair, NetworkKey, ServerPublicKey};
use ssb_handshake::message::{ClientAuth, ClientHello, ServerAccept, ServerHello};
use ssb_handshake::server::start_server;

fn lib_keypair(kp: &ssb_crypto::Keypair) -> Keypair {
    Keypair { secret: kp.secret.0, public: kp.public.0 }
}

#[test]
fn corrupting_any_byte_of_any_message_fails_verification() {
    let nk = NetworkKey([0x5a; 32]);
    let client_id = ssb_crypto::Keypair::generate();
    let server_id = ssb_crypto::Keypair::generate();
    let spk = ServerPublicKey(server_id.public.0);

    let (c1, client_hello) = start_client(nk, lib_keypair(&client_id), spk).unwrap();
    let s1 = start_server(nk, lib_keypair(&server_id)).unwrap();

    for i in 0..client_hello.0.len() {
        let mut bad = client_hello.0.clone();
        bad[i] ^= 1;
        assert_eq!(
            s1.clone().handle_client_hello(&ClientHello(bad)).err().unwrap(),
            HandshakeError::ClientHelloVerifyFailed,
            "client hello byte {} accepted corrupted",
            i
        );
    }

    let (s2, server_hello) = s1.handle_client_hello(&client_hello).unwrap();
    for i in 0..server_hello.0.len() {
        let mut bad = server_hello.0.clone();
        bad[i] ^= 1;
        assert_eq!(
            c1.clone().handle_server_hello(&ServerHello(bad)).err().unwrap(),
            HandshakeError::ServerHelloVerifyFailed,
            "server hello byte {} accepted corrupted",
            i
        );
    }

    let (c2, client_auth) = c1.handle_server_hello(&server_hello).unwrap();
    for i in 0..client_auth.0.len() {
        let mut bad = client_auth.0.clone();
        bad[i] ^= 1;
        assert_eq!(
            s2.clone().handle_client_auth(&ClientAuth(bad)).err().unwrap(),
            HandshakeError::ClientAuthVerifyFailed,
            "client auth byte {} accepted corrupted",
            i
        );
    }

    let c3 = c2.derive_shared_c().unwrap();
    let (server_accept, _keys) = s2.handle_client_auth(&client_auth).unwrap();
    for i in 0..server_accept.0.len() {
        let mut bad = server_accept.0.clone();
        bad[i] ^= 1;
        assert_eq!(
            c3.clone().handle_server_accept(&ServerAccept(bad)).err().unwrap(),
            HandshakeError::ServerAcceptVerifyFailed,
            "server accept byte {} accepted corrupted",
            i
        );
    }

    // The untouched transcript still completes.
    assert!(c3.handle_server_accept(&server_accept).is_ok());
}
