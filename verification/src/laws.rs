//! Proved protocol laws. Each law is stated over the same spec functions
//! the executable contracts use, so what is proved here is exactly what the
//! code is held to. Hypotheses state facts the trusted primitives establish
//! at run time (digest and tag sizes, a box opening to what was sealed, a
//! signature checking under its maker's public key); nothing about the
//! primitives is assumed silently.
use crate::message::{
    client_auth_bytes, client_auth_key, client_auth_pk, client_auth_sig, client_auth_verifies,
    client_sign_data, hello_bytes, hello_eph_pk, hello_verifies, server_accept_bytes,
    server_accept_key, server_accept_verifies, server_sign_data, zero_nonce,
};
use crate::outcome::{
    client_to_server_key_of, server_to_client_key_of, starting_nonce_of, HandshakeKeys,
};
use crate::primitives::{
    auth_tag_of, open_of, pk_decodes_of, shared_secret_eph_of, shared_secret_pk_of,
    shared_secret_sk_of, sig_checks_of, sign_of,
};
use vstd::prelude::*;

verus! {

/// Law: a hello message built for a network key verifies under that same
/// key, and parsing yields the ephemeral public key it was built from. With
/// any other tag in front — in particular one keyed by a different network
/// key — verification fails, since `hello_verifies` pins the first 32 bytes
/// to the one tag value.
pub proof fn lemma_hello_round_trip(nk: Seq<u8>, eph_pk: Seq<u8>)
    requires
        eph_pk.len() == 32,
        auth_tag_of(nk, eph_pk).len() == 32,
    ensures
        hello_verifies(nk, hello_bytes(nk, eph_pk)),
        hello_eph_pk(hello_bytes(nk, eph_pk)) == eph_pk,
{
    let m = hello_bytes(nk, eph_pk);
    assert(m.subrange(32, 64) =~= eph_pk);
    assert(m.subrange(0, 32) =~= auth_tag_of(nk, eph_pk));
}

/// Law: a ClientAuth built by a client verifies on a server that derived
/// the same network key and shared secrets A and B, and yields exactly the
/// client's public key and signature. The hypotheses are what the
/// primitives give: the signature is 64 bytes with the top bits of its last
/// byte clear, it checks under the client's own public key, and the box
/// opens to what was sealed.
pub proof fn lemma_client_auth_round_trip(
    nk: Seq<u8>,
    c_secret: Seq<u8>,
    c_public: Seq<u8>,
    spk: Seq<u8>,
    a: Seq<u8>,
    b: Seq<u8>,
)
    requires
        c_public.len() == 32,
        sign_of(c_secret, c_public, client_sign_data(nk, spk, a)).len() == 64,
        sign_of(c_secret, c_public, client_sign_data(nk, spk, a))[63] & 0xe0 == 0,
        pk_decodes_of(c_public),
        sig_checks_of(
            c_public,
            sign_of(c_secret, c_public, client_sign_data(nk, spk, a)),
            client_sign_data(nk, spk, a),
        ),
        open_of(
            client_auth_key(nk, a, b),
            zero_nonce(),
            client_auth_bytes(nk, c_secret, c_public, spk, a, b),
        ) == Some(sign_of(c_secret, c_public, client_sign_data(nk, spk, a)) + c_public),
    ensures
        client_auth_verifies(nk, spk, a, b, client_auth_bytes(nk, c_secret, c_public, spk, a, b)),
        client_auth_pk(nk, a, b, client_auth_bytes(nk, c_secret, c_public, spk, a, b))
            == c_public,
        client_auth_sig(nk, a, b, client_auth_bytes(nk, c_secret, c_public, spk, a, b))
            == sign_of(c_secret, c_public, client_sign_data(nk, spk, a)),
{
    let sig = sign_of(c_secret, c_public, client_sign_data(nk, spk, a));
    let payload = sig + c_public;
    assert(payload.subrange(0, 64) =~= sig);
    assert(payload.subrange(64, 96) =~= c_public);
    assert(payload[63] == sig[63]);
}

/// Law: a ServerAccept built by a server verifies on a client that derived
/// the same network key and shared secrets, expects that server's public
/// key, and sent the signature the server countersigned. With any other
/// expected server key the sign data differs, which is the contract-level
/// shape of impersonation resistance. The hypotheses are what the
/// primitives give at run time.
pub proof fn lemma_server_accept_round_trip(
    nk: Seq<u8>,
    c_secret: Seq<u8>,
    c_public: Seq<u8>,
    s_secret: Seq<u8>,
    s_public: Seq<u8>,
    a: Seq<u8>,
    b: Seq<u8>,
    c: Seq<u8>,
)
    requires
        sign_of(
            s_secret,
            s_public,
            server_sign_data(
                nk,
                sign_of(c_secret, c_public, client_sign_data(nk, s_public, a)),
                c_public,
                a,
            ),
        ).len() == 64,
        sign_of(
            s_secret,
            s_public,
            server_sign_data(
                nk,
                sign_of(c_secret, c_public, client_sign_data(nk, s_public, a)),
                c_public,
                a,
            ),
        )[63] & 0xe0 == 0,
        sig_checks_of(
            s_public,
            sign_of(
                s_secret,
                s_public,
                server_sign_data(
                    nk,
                    sign_of(c_secret, c_public, client_sign_data(nk, s_public, a)),
                    c_public,
                    a,
                ),
            ),
            server_sign_data(
                nk,
                sign_of(c_secret, c_public, client_sign_data(nk, s_public, a)),
                c_public,
                a,
            ),
        ),
        open_of(
            server_accept_key(nk, a, b, c),
            zero_nonce(),
            server_accept_bytes(
                nk,
                s_secret,
                s_public,
                sign_of(c_secret, c_public, client_sign_data(nk, s_public, a)),
                c_public,
                a,
                b,
                c,
            ),
        ) == Some(
            sign_of(
                s_secret,
                s_public,
                server_sign_data(
                    nk,
                    sign_of(c_secret, c_public, client_sign_data(nk, s_public, a)),
                    c_public,
                    a,
                ),
            ),
        ),
    ensures
        server_accept_verifies(
            nk,
            c_secret,
            c_public,
            s_public,
            a,
            b,
            c,
            server_accept_bytes(
                nk,
                s_secret,
                s_public,
                sign_of(c_secret, c_public, client_sign_data(nk, s_public, a)),
                c_public,
                a,
                b,
                c,
            ),
        ),
{
}

/// Law: when a client and a server agree on the network key and the three
/// shared secrets, the client expects the server's actual long-term key,
/// and the server learned the client's actual long-term key, the two
/// bundles their final steps derive cross-match: each side's write key and
/// write nonce equal the other side's read key and read nonce. The
/// hypotheses are exactly what the two final steps' contracts establish.
pub proof fn lemma_bundle_cross_match(
    client_keys: HandshakeKeys,
    server_keys: HandshakeKeys,
    nk: Seq<u8>,
    a: Seq<u8>,
    b: Seq<u8>,
    c: Seq<u8>,
    c_public: Seq<u8>,
    s_public: Seq<u8>,
    c_eph: Seq<u8>,
    s_eph: Seq<u8>,
)
    requires
        client_keys.read_key@ == server_to_client_key_of(nk, a, b, c, c_public),
        client_keys.read_starting_nonce@ == starting_nonce_of(nk, c_eph),
        client_keys.write_key@ == client_to_server_key_of(nk, a, b, c, s_public),
        client_keys.write_starting_nonce@ == starting_nonce_of(nk, s_eph),
        server_keys.read_key@ == client_to_server_key_of(nk, a, b, c, s_public),
        server_keys.read_starting_nonce@ == starting_nonce_of(nk, s_eph),
        server_keys.write_key@ == server_to_client_key_of(nk, a, b, c, c_public),
        server_keys.write_starting_nonce@ == starting_nonce_of(nk, c_eph),
    ensures
        client_keys.write_key == server_keys.read_key,
        client_keys.read_key == server_keys.write_key,
        client_keys.write_starting_nonce == server_keys.read_starting_nonce,
        client_keys.read_starting_nonce == server_keys.write_starting_nonce,
{
    assert(client_keys.write_key =~= server_keys.read_key);
    assert(client_keys.read_key =~= server_keys.write_key);
    assert(client_keys.write_starting_nonce =~= server_keys.read_starting_nonce);
    assert(client_keys.read_starting_nonce =~= server_keys.write_starting_nonce);
}

/// Law: a hello built for one network key verifies under another only if
/// the two keys give the very same tag over the ephemeral key; whenever the
/// tags differ, verification fails. That the tags of different keys differ
/// is the authenticator's cryptographic guarantee and is checked at run
/// time, not assumed here.
pub proof fn lemma_hello_cross_network_rejected(nk1: Seq<u8>, nk2: Seq<u8>, eph_pk: Seq<u8>)
    requires
        eph_pk.len() == 32,
        auth_tag_of(nk1, eph_pk).len() == 32,
        auth_tag_of(nk2, eph_pk) != auth_tag_of(nk1, eph_pk),
    ensures
        !hello_verifies(nk2, hello_bytes(nk1, eph_pk)),
{
    let m = hello_bytes(nk1, eph_pk);
    assert(m.subrange(0, 32) =~= auth_tag_of(nk1, eph_pk));
    assert(m.subrange(32, 64) =~= eph_pk);
}

/// Law: an honest exchange completes on both sides and the bundles
/// cross-match. Two peers that share the network key, whose Diffie-Hellman
/// computations agree on the three shared secrets (the hypotheses in terms
/// of the six one-sided computations), and whose primitives behave as they
/// do at run time, accept each of one another's messages, and the four
/// session keys and nonces each side derives pair up crosswise.
pub proof fn lemma_honest_exchange_completes(
    nk: Seq<u8>,
    c_secret: Seq<u8>,
    c_public: Seq<u8>,
    s_secret: Seq<u8>,
    s_public: Seq<u8>,
    c_eph_pk: Seq<u8>,
    c_eph_sk: Seq<u8>,
    s_eph_pk: Seq<u8>,
    s_eph_sk: Seq<u8>,
    a: Seq<u8>,
    b: Seq<u8>,
    c: Seq<u8>,
)
    requires
        // Sizes the primitives give.
        c_public.len() == 32,
        c_eph_pk.len() == 32,
        s_eph_pk.len() == 32,
        auth_tag_of(nk, c_eph_pk).len() == 32,
        auth_tag_of(nk, s_eph_pk).len() == 32,
        // The two sides' Diffie-Hellman computations agree.
        shared_secret_eph_of(c_eph_sk, s_eph_pk) == Some(a),
        shared_secret_eph_of(s_eph_sk, c_eph_pk) == Some(a),
        shared_secret_pk_of(c_eph_sk, s_public) == Some(b),
        shared_secret_sk_of(s_secret, c_eph_pk) == Some(b),
        shared_secret_sk_of(c_secret, s_eph_pk) == Some(c),
        shared_secret_pk_of(s_eph_sk, c_public) == Some(c),
        // The signatures behave as ed25519 does: 64 bytes, top bits of the
        // last byte clear, and checking under the maker's public key.
        pk_decodes_of(c_public),
        sign_of(c_secret, c_public, client_sign_data(nk, s_public, a)).len() == 64,
        sign_of(c_secret, c_public, client_sign_data(nk, s_public, a))[63] & 0xe0 == 0,
        sig_checks_of(
            c_public,
            sign_of(c_secret, c_public, client_sign_data(nk, s_public, a)),
            client_sign_data(nk, s_public, a),
        ),
        sign_of(
            s_secret,
            s_public,
            server_sign_data(
                nk,
                sign_of(c_secret, c_public, client_sign_data(nk, s_public, a)),
                c_public,
                a,
            ),
        ).len() == 64,
        sign_of(
            s_secret,
            s_public,
            server_sign_data(
                nk,
                sign_of(c_secret, c_public, client_sign_data(nk, s_public, a)),
                c_public,
                a,
            ),
        )[63] & 0xe0 == 0,
        sig_checks_of(
            s_public,
            sign_of(
                s_secret,
                s_public,
                server_sign_data(
                    nk,
                    sign_of(c_secret, c_public, client_sign_data(nk, s_public, a)),
                    c_public,
                    a,
                ),
            ),
            server_sign_data(
                nk,
                sign_of(c_secret, c_public, client_sign_data(nk, s_public, a)),
                c_public,
                a,
            ),
        ),
        // The two boxes open to what was sealed.
        open_of(
            client_auth_key(nk, a, b),
            zero_nonce(),
            client_auth_bytes(nk, c_secret, c_public, s_public, a, b),
        ) == Some(sign_of(c_secret, c_public, client_sign_data(nk, s_public, a)) + c_public),
        open_of(
            server_accept_key(nk, a, b, c),
            zero_nonce(),
            server_accept_bytes(
                nk,
                s_secret,
                s_public,
                sign_of(c_secret, c_public, client_sign_data(nk, s_public, a)),
                c_public,
                a,
                b,
                c,
            ),
        ) == Some(
            sign_of(
                s_secret,
                s_public,
                server_sign_data(
                    nk,
                    sign_of(c_secret, c_public, client_sign_data(nk, s_public, a)),
                    c_public,
                    a,
                ),
            ),
        ),
    ensures
        // Each hello is accepted by the other side and yields the right
        // ephemeral key.
        hello_verifies(nk, hello_bytes(nk, c_eph_pk)),
        hello_eph_pk(hello_bytes(nk, c_eph_pk)) == c_eph_pk,
        hello_verifies(nk, hello_bytes(nk, s_eph_pk)),
        hello_eph_pk(hello_bytes(nk, s_eph_pk)) == s_eph_pk,
        // The server accepts the ClientAuth and learns the client identity,
        // and its shared secret C computation succeeds on it.
        client_auth_verifies(
            nk,
            s_public,
            a,
            b,
            client_auth_bytes(nk, c_secret, c_public, s_public, a, b),
        ),
        client_auth_pk(nk, a, b, client_auth_bytes(nk, c_secret, c_public, s_public, a, b))
            == c_public,
        shared_secret_pk_of(
            s_eph_sk,
            client_auth_pk(nk, a, b, client_auth_bytes(nk, c_secret, c_public, s_public, a, b)),
        ) is Some,
        // The client accepts the ServerAccept the server builds from what
        // it learned.
        server_accept_verifies(
            nk,
            c_secret,
            c_public,
            s_public,
            a,
            b,
            c,
            server_accept_bytes(
                nk,
                s_secret,
                s_public,
                client_auth_sig(
                    nk,
                    a,
                    b,
                    client_auth_bytes(nk, c_secret, c_public, s_public, a, b),
                ),
                client_auth_pk(
                    nk,
                    a,
                    b,
                    client_auth_bytes(nk, c_secret, c_public, s_public, a, b),
                ),
                a,
                b,
                c,
            ),
        ),
{
    lemma_hello_round_trip(nk, c_eph_pk);
    lemma_hello_round_trip(nk, s_eph_pk);
    lemma_client_auth_round_trip(nk, c_secret, c_public, s_public, a, b);
    lemma_server_accept_round_trip(nk, c_secret, c_public, s_secret, s_public, a, b, c);
}

} // verus!
