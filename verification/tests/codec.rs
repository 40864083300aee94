//! Bit-for-bit checks of the wire layout and the derivations against the
//! cryptographic library called directly: these would fail if any wrapper
//! mishandled its arguments or its result, and they pin the exact byte
//! layout of every message.
use ssb_handshake::client::start_client;
use ssb_handshake::keys::{Keypair, NetworkKey, ServerPublicKey};
use ssb_handshake::message::{ClientAuth, ClientHello, ServerAccept, ServerHello};
use ssb_handshake::server::start_server;

use ssb_crypto::ephemeral::{
    derive_shared_secret, derive_shared_secret_pk, derive_shared_secret_sk, EphPublicKey,
    EphSecretKey,
};

fn lib_keypair(kp: &ssb_crypto::Keypair) -> Keypair {
    Keypair { secret: kp.secret.0, public: kp.public.0 }
}

fn seal(key: [u8; 32], msg: &[u8]) -> Vec<u8> {
    let mut out = vec![0u8; msg.len() + 16];
    ssb_crypto::secretbox::Key(key).seal_attached_into(
        msg,
        &ssb_crypto::secretbox::Nonce([0u8; 24]),
        &mut out,
    );
    out
}

fn sha256(b: &[u8]) -> [u8; 32] {
    ssb_crypto::hash(b).0
}

#[test]
fn message_sizes_are_the_protocol_constants() {
    assert_eq!(ClientHello::size(), 64);
    assert_eq!(ServerHello::size(), 64);
    assert_eq!(ClientAuth::size(), 112);
    assert_eq!(ServerAccept::size(), 80);
}

#[test]
fn from_buffer_accepts_exactly_the_wire_size() {
    assert!(ClientHello::from_buffer(vec![0u8; 64]).is_some());
    assert!(ClientHello::from_buffer(vec![0u8; 63]).is_none());
    assert!(ClientHello::from_buffer(vec![0u8; 65]).is_none());
    assert!(ServerHello::from_buffer(vec![0u8; 64]).is_some());
    assert!(ServerHello::from_buffer(vec![]).is_none());
    assert!(ClientAuth::from_buffer(vec![0u8; 112]).is_some());
    assert!(ClientAuth::from_buffer(vec![0u8; 80]).is_none());
    assert!(ServerAccept::from_buffer(vec![0u8; 80]).is_some());
    assert!(ServerAccept::from_buffer(vec![0u8; 112]).is_none());
}

#[test]
fn wire_bytes_match_direct_primitive_calls() {
    let nk = NetworkKey([0x21; 32]);
    let client_id = ssb_crypto::Keypair::generate();
    let server_id = ssb_crypto::Keypair::generate();
    let spk = ServerPublicKey(server_id.public.0);

    let (c1, client_hello) = start_client(nk, lib_keypair(&client_id), spk).unwrap();
    let s1 = start_server(nk, lib_keypair(&server_id)).unwrap();
    let c_eph_sk = c1.eph_sk.0;

    // ClientHello = hmac(netkey, eph_pk) || eph_pk.
    let tag = ssb_crypto::NetworkKey(nk.0).authenticate(&c1.eph_pk.0);
    let mut expected_hello = tag.0.to_vec();
    expected_hello.extend_from_slice(&c1.eph_pk.0);
    assert_eq!(client_hello.0, expected_hello);

    let (s2, server_hello) = s1.handle_client_hello(&client_hello).unwrap();
    let (c2, client_auth) = c1.handle_server_hello(&server_hello).unwrap();
    let server_eph_pk = c2.server_eph_pk.0;
    assert_eq!(&server_hello.0[32..], &server_eph_pk);

    // The three shared secrets, cross-checked against direct derivation.
    let a = c2.shared_a.0;
    let b = c2.shared_b.0;
    assert_eq!(a, s2.shared_a.0);
    assert_eq!(b, s2.shared_b.0);
    let a_direct =
        derive_shared_secret(&EphSecretKey(c_eph_sk), &EphPublicKey(server_eph_pk)).unwrap();
    assert_eq!(a, a_direct.0);
    let b_direct = derive_shared_secret_pk(
        &EphSecretKey(c_eph_sk),
        &ssb_crypto::PublicKey(server_id.public.0),
    )
    .unwrap();
    assert_eq!(b, b_direct.0);

    // ClientAuth = seal(sha256(nk || A || B), zero nonce,
    //                   sign(nk || server_pk || sha256(A)) || client_pk).
    let mut sd = nk.0.to_vec();
    sd.extend_from_slice(&spk.0);
    sd.extend_from_slice(&sha256(&a));
    let csig = client_id.sign(&sd);

    let mut payload = csig.0.to_vec();
    payload.extend_from_slice(&client_id.public.0);

    let mut km = nk.0.to_vec();
    km.extend_from_slice(&a);
    km.extend_from_slice(&b);
    let expected_auth = seal(sha256(&km), &payload);
    assert_eq!(client_auth.0, expected_auth);

    let c3 = c2.derive_shared_c().unwrap();
    let client_eph_pk = c3.eph_pk.0;
    let (server_accept, server_keys) = s2.handle_client_auth(&client_auth).unwrap();
    let c = c3.shared_c.0;
    let c_client = derive_shared_secret_sk(
        &ssb_crypto::SecretKey(client_id.secret.0),
        &EphPublicKey(server_eph_pk),
    )
    .unwrap();
    assert_eq!(c, c_client.0);

    // ServerAccept = seal(sha256(nk || A || B || C), zero nonce,
    //                     sign(nk || client_sig || client_pk || sha256(A))).
    let mut ssd = nk.0.to_vec();
    ssd.extend_from_slice(&csig.0);
    ssd.extend_from_slice(&client_id.public.0);
    ssd.extend_from_slice(&sha256(&a));
    let ssig = server_id.sign(&ssd);

    let mut km = nk.0.to_vec();
    km.extend_from_slice(&a);
    km.extend_from_slice(&b);
    km.extend_from_slice(&c);
    let expected_accept = seal(sha256(&km), &ssig.0);
    assert_eq!(server_accept.0, expected_accept);

    // Session keys: sha256(sha256(sha256(nk||A||B||C)) || anchor pk), and
    // nonces: the first 24 bytes of hmac(netkey, addressee's ephemeral key).
    let client_keys = c3.handle_server_accept(&server_accept).unwrap();
    let root = sha256(&sha256(&km));
    let mut w = root.to_vec();
    w.extend_from_slice(&server_id.public.0);
    assert_eq!(client_keys.write_key, sha256(&w));
    let mut r = root.to_vec();
    r.extend_from_slice(&client_id.public.0);
    assert_eq!(client_keys.read_key, sha256(&r));

    let server_eph_tag = ssb_crypto::NetworkKey(nk.0).authenticate(&server_eph_pk);
    assert_eq!(&client_keys.write_starting_nonce[..], &server_eph_tag.0[..24]);
    let client_eph_tag = ssb_crypto::NetworkKey(nk.0).authenticate(&client_eph_pk);
    assert_eq!(&client_keys.read_starting_nonce[..], &client_eph_tag.0[..24]);

    assert_eq!(server_keys.read_key, client_keys.write_key);
    assert_eq!(server_keys.write_key, client_keys.read_key);
}

#[test]
fn hello_verify_yields_the_embedded_ephemeral_key() {
    let nk = NetworkKey([3u8; 32]);
    let client_id = ssb_crypto::Keypair::generate();
    let server_id = ssb_crypto::Keypair::generate();

    let (c1, client_hello) =
        start_client(nk, lib_keypair(&client_id), ServerPublicKey(server_id.public.0)).unwrap();
    let got = client_hello.verify(&nk).expect("self-built hello verifies");
    assert_eq!(got.0, c1.eph_pk.0);

    // Under another network key the same bytes fail.
    let other = NetworkKey([4u8; 32]);
    assert!(client_hello.verify(&other).is_none());
}
