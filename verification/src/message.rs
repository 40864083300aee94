//! The four fixed-size wire messages and their byte layout. Parsing is
//! inseparable from verification: a message only yields its fields if its
//! authenticator or signature checks out, so unauthenticated data is never
//! exposed.
use crate::bytes::{append_bytes, copy32, copy64};
use crate::keys::{
    ClientEphPublicKey, ClientPublicKey, ClientSignature, Keypair, NetworkKey, ServerEphPublicKey,
    ServerPublicKey,
};
use crate::primitives::{
    auth_tag, auth_tag_of, auth_verify, open_attached, open_of, pk_decodes, pk_decodes_of, seal_attached,
    seal_of, sha256, sha256_of, sig_checks_of, sign_detached, sign_of, verify_detached,
};
use crate::shared_secret::{SharedA, SharedB, SharedC};
use vstd::prelude::*;

verus! {

/// The all-zero nonce under which both handshake boxes are sealed; safe
/// because each box key is used for exactly one box.
pub open spec fn zero_nonce() -> Seq<u8> {
    Seq::new(24, |i: int| 0u8)
}

/// The all-zero nonce as a value.
pub fn zero_nonce_bytes() -> (r: [u8; 24])
    ensures
        r@ == zero_nonce(),
{
    let n = [0u8; 24];
    proof {
        assert(n@ =~= zero_nonce());
    }
    n
}

/// The bytes of a hello message: the authenticator tag over the ephemeral
/// public key, keyed by the network key, followed by that key.
pub open spec fn hello_bytes(nk: Seq<u8>, eph_pk: Seq<u8>) -> Seq<u8> {
    auth_tag_of(nk, eph_pk) + eph_pk
}

/// Whether a 64-byte hello message verifies under the network key: its first
/// 32 bytes are the authenticator tag over its last 32.
pub open spec fn hello_verifies(nk: Seq<u8>, m: Seq<u8>) -> bool {
    m.subrange(0, 32) == auth_tag_of(nk, m.subrange(32, 64))
}

/// The ephemeral public key a hello message carries.
pub open spec fn hello_eph_pk(m: Seq<u8>) -> Seq<u8> {
    m.subrange(32, 64)
}

/// The key of the ClientAuth box.
pub open spec fn client_auth_key(nk: Seq<u8>, a: Seq<u8>, b: Seq<u8>) -> Seq<u8> {
    sha256_of(nk + a + b)
}

/// What the client signs: the network key, the server's long-term public
/// key, and the digest of shared secret A.
pub open spec fn client_sign_data(nk: Seq<u8>, spk: Seq<u8>, a: Seq<u8>) -> Seq<u8> {
    nk + spk + sha256_of(a)
}

/// The bytes of a ClientAuth message: the client's signature and long-term
/// public key, sealed under the ClientAuth box key.
pub open spec fn client_auth_bytes(
    nk: Seq<u8>,
    c_secret: Seq<u8>,
    c_public: Seq<u8>,
    spk: Seq<u8>,
    a: Seq<u8>,
    b: Seq<u8>,
) -> Seq<u8> {
    seal_of(
        client_auth_key(nk, a, b),
        zero_nonce(),
        sign_of(c_secret, c_public, client_sign_data(nk, spk, a)) + c_public,
    )
}

/// Whether a ClientAuth message verifies on the server side: its box opens
/// under the ClientAuth key, and the signature inside it checks out, over
/// the client sign data, under the client public key inside it.
pub open spec fn client_auth_verifies(
    nk: Seq<u8>,
    spk: Seq<u8>,
    a: Seq<u8>,
    b: Seq<u8>,
    m: Seq<u8>,
) -> bool {
    let opened = open_of(client_auth_key(nk, a, b), zero_nonce(), m);
    &&& opened is Some
    &&& opened->0.len() == 96
    &&& opened->0[63] & 0xe0 == 0
    &&& pk_decodes_of(opened->0.subrange(64, 96))
    &&& sig_checks_of(
        opened->0.subrange(64, 96),
        opened->0.subrange(0, 64),
        client_sign_data(nk, spk, a),
    )
}

/// The client signature a ClientAuth message carries.
pub open spec fn client_auth_sig(nk: Seq<u8>, a: Seq<u8>, b: Seq<u8>, m: Seq<u8>) -> Seq<u8> {
    open_of(client_auth_key(nk, a, b), zero_nonce(), m)->0.subrange(0, 64)
}

/// The client long-term public key a ClientAuth message carries.
pub open spec fn client_auth_pk(nk: Seq<u8>, a: Seq<u8>, b: Seq<u8>, m: Seq<u8>) -> Seq<u8> {
    open_of(client_auth_key(nk, a, b), zero_nonce(), m)->0.subrange(64, 96)
}

/// The key of the ServerAccept box.
pub open spec fn server_accept_key(nk: Seq<u8>, a: Seq<u8>, b: Seq<u8>, c: Seq<u8>) -> Seq<u8> {
    sha256_of(nk + a + b + c)
}

/// What the server signs: the network key, the client's signature, the
/// client's long-term public key, and the digest of shared secret A.
pub open spec fn server_sign_data(nk: Seq<u8>, csig: Seq<u8>, cpk: Seq<u8>, a: Seq<u8>) -> Seq<
    u8,
> {
    nk + csig + cpk + sha256_of(a)
}

/// The bytes of a ServerAccept message: the server's signature, sealed under
/// the ServerAccept box key.
pub open spec fn server_accept_bytes(
    nk: Seq<u8>,
    s_secret: Seq<u8>,
    s_public: Seq<u8>,
    csig: Seq<u8>,
    cpk: Seq<u8>,
    a: Seq<u8>,
    b: Seq<u8>,
    c: Seq<u8>,
) -> Seq<u8> {
    seal_of(
        server_accept_key(nk, a, b, c),
        zero_nonce(),
        sign_of(s_secret, s_public, server_sign_data(nk, csig, cpk, a)),
    )
}

/// Whether a ServerAccept message verifies on the client side: its box opens
/// under the ServerAccept key, and the signature inside checks out under the
/// server's long-term public key, over the server sign data built from the
/// signature the client itself sent.
pub open spec fn server_accept_verifies(
    nk: Seq<u8>,
    c_secret: Seq<u8>,
    c_public: Seq<u8>,
    spk: Seq<u8>,
    a: Seq<u8>,
    b: Seq<u8>,
    c: Seq<u8>,
    m: Seq<u8>,
) -> bool {
    let opened = open_of(server_accept_key(nk, a, b, c), zero_nonce(), m);
    &&& opened is Some
    &&& opened->0.len() == 64
    &&& opened->0[63] & 0xe0 == 0
    &&& sig_checks_of(
        spk,
        opened->0,
        server_sign_data(
            nk,
            sign_of(c_secret, c_public, client_sign_data(nk, spk, a)),
            c_public,
            a,
        ),
    )
}

/// First message on the wire: the client's ephemeral public key under a
/// network-key authenticator tag.
pub struct ClientHello(pub Vec<u8>);

impl ClientHello {
    /// A well-formed ClientHello is exactly 64 bytes.
    pub open spec fn wf(&self) -> bool {
        self.0@.len() == 64
    }

    /// The wire size of a ClientHello.
    pub fn size() -> (r: usize)
        ensures
            r == 64,
    {
        64
    }

    /// Wrap received bytes; `None` unless the length is exactly 64.
    pub fn from_buffer(buf: Vec<u8>) -> (r: Option<ClientHello>)
        ensures
            (r is Some) == (buf@.len() == 64),
            r is Some ==> (r->0).0@ == buf@ && (r->0).wf(),
    {
        if buf.len() == 64 {
            Some(ClientHello(buf))
        } else {
            None
        }
    }

    /// Build the message for the given ephemeral public key.
    pub fn new(eph_pk: &ClientEphPublicKey, net_key: &NetworkKey) -> (r: ClientHello)
        ensures
            r.wf(),
            r.0@ == hello_bytes(net_key.0@, eph_pk.0@),
    {
        let tag = auth_tag(&net_key.0, eph_pk.0.as_slice());
        let mut v: Vec<u8> = Vec::new();
        append_bytes(&mut v, tag.as_slice());
        append_bytes(&mut v, eph_pk.0.as_slice());
        proof {
            assert(v@ =~= tag@ + eph_pk.0@);
        }
        ClientHello(v)
    }

    /// Check the authenticator tag and, only if it checks out, yield the
    /// client's ephemeral public key.
    pub fn verify(&self, net_key: &NetworkKey) -> (r: Option<ClientEphPublicKey>)
        requires
            self.wf(),
        ensures
            (r is Some) == hello_verifies(net_key.0@, self.0@),
            r is Some ==> (r->0).0@ == hello_eph_pk(self.0@),
    {
        let tag = copy32(self.0.as_slice(), 0);
        let pk = copy32(self.0.as_slice(), 32);
        if auth_verify(&net_key.0, &tag, pk.as_slice()) {
            Some(ClientEphPublicKey(pk))
        } else {
            None
        }
    }
}

/// Second message on the wire: the server's ephemeral public key under a
/// network-key authenticator tag.
pub struct ServerHello(pub Vec<u8>);

impl ServerHello {
    /// A well-formed ServerHello is exactly 64 bytes.
    pub open spec fn wf(&self) -> bool {
        self.0@.len() == 64
    }

    /// The wire size of a ServerHello.
    pub fn size() -> (r: usize)
        ensures
            r == 64,
    {
        64
    }

    /// Wrap received bytes; `None` unless the length is exactly 64.
    pub fn from_buffer(buf: Vec<u8>) -> (r: Option<ServerHello>)
        ensures
            (r is Some) == (buf@.len() == 64),
            r is Some ==> (r->0).0@ == buf@ && (r->0).wf(),
    {
        if buf.len() == 64 {
            Some(ServerHello(buf))
        } else {
            None
        }
    }

    /// Build the message for the given ephemeral public key.
    pub fn new(eph_pk: &ServerEphPublicKey, net_key: &NetworkKey) -> (r: ServerHello)
        ensures
            r.wf(),
            r.0@ == hello_bytes(net_key.0@, eph_pk.0@),
    {
        let tag = auth_tag(&net_key.0, eph_pk.0.as_slice());
        let mut v: Vec<u8> = Vec::new();
        append_bytes(&mut v, tag.as_slice());
        append_bytes(&mut v, eph_pk.0.as_slice());
        proof {
            assert(v@ =~= tag@ + eph_pk.0@);
        }
        ServerHello(v)
    }

    /// Check the authenticator tag and, only if it checks out, yield the
    /// server's ephemeral public key.
    pub fn verify(&self, net_key: &NetworkKey) -> (r: Option<ServerEphPublicKey>)
        requires
            self.wf(),
        ensures
            (r is Some) == hello_verifies(net_key.0@, self.0@),
            r is Some ==> (r->0).0@ == hello_eph_pk(self.0@),
    {
        let tag = copy32(self.0.as_slice(), 0);
        let pk = copy32(self.0.as_slice(), 32);
        if auth_verify(&net_key.0, &tag, pk.as_slice()) {
            Some(ServerEphPublicKey(pk))
        } else {
            None
        }
    }
}

/// Third message on the wire: the client reveals and proves its identity,
/// confidentially under secrets A and B.
pub struct ClientAuth(pub Vec<u8>);

impl ClientAuth {
    /// A well-formed ClientAuth is exactly 112 bytes: a 16-byte box tag over
    /// a 64-byte signature and a 32-byte public key.
    pub open spec fn wf(&self) -> bool {
        self.0@.len() == 112
    }

    /// The wire size of a ClientAuth.
    pub fn size() -> (r: usize)
        ensures
            r == 112,
    {
        112
    }

    /// Wrap received bytes; `None` unless the length is exactly 112.
    pub fn from_buffer(buf: Vec<u8>) -> (r: Option<ClientAuth>)
        ensures
            (r is Some) == (buf@.len() == 112),
            r is Some ==> (r->0).0@ == buf@ && (r->0).wf(),
    {
        if buf.len() == 112 {
            Some(ClientAuth(buf))
        } else {
            None
        }
    }

    /// Sign the client sign data and seal signature and client identity
    /// under the ClientAuth box key.
    pub fn new(
        keypair: &Keypair,
        server_pk: &ServerPublicKey,
        net_key: &NetworkKey,
        shared_a: &SharedA,
        shared_b: &SharedB,
    ) -> (r: ClientAuth)
        requires
            pk_decodes_of(keypair.public@),
        ensures
            r.wf(),
            r.0@ == client_auth_bytes(
                net_key.0@,
                keypair.secret@,
                keypair.public@,
                server_pk.0@,
                shared_a.0@,
                shared_b.0@,
            ),
    {
        let a_digest = sha256(shared_a.0.as_slice());
        let mut sd: Vec<u8> = Vec::new();
        append_bytes(&mut sd, net_key.0.as_slice());
        append_bytes(&mut sd, server_pk.0.as_slice());
        append_bytes(&mut sd, a_digest.as_slice());
        proof {
            assert(sd@ =~= net_key.0@ + server_pk.0@ + sha256_of(shared_a.0@));
        }
        let sig = sign_detached(keypair, sd.as_slice());

        let mut payload: Vec<u8> = Vec::new();
        append_bytes(&mut payload, sig.as_slice());
        append_bytes(&mut payload, keypair.public.as_slice());
        proof {
            assert(payload@ =~= sig@ + keypair.public@);
        }

        let mut km: Vec<u8> = Vec::new();
        append_bytes(&mut km, net_key.0.as_slice());
        append_bytes(&mut km, shared_a.0.as_slice());
        append_bytes(&mut km, shared_b.0.as_slice());
        proof {
            assert(km@ =~= net_key.0@ + shared_a.0@ + shared_b.0@);
        }
        let key = sha256(km.as_slice());

        let nonce = zero_nonce_bytes();
        let sealed = seal_attached(&key, &nonce, payload.as_slice());
        ClientAuth(sealed)
    }

    /// Open the box and check the signature inside; only if everything
    /// checks out, yield the client's signature and long-term public key.
    pub fn verify(
        &self,
        server_pk: &ServerPublicKey,
        net_key: &NetworkKey,
        shared_a: &SharedA,
        shared_b: &SharedB,
    ) -> (r: Option<(ClientSignature, ClientPublicKey)>)
        requires
            self.wf(),
        ensures
            (r is Some) == client_auth_verifies(
                net_key.0@,
                server_pk.0@,
                shared_a.0@,
                shared_b.0@,
                self.0@,
            ),
            r is Some ==> (r->0).0.0@ == client_auth_sig(
                net_key.0@,
                shared_a.0@,
                shared_b.0@,
                self.0@,
            ),
            r is Some ==> (r->0).1.0@ == client_auth_pk(
                net_key.0@,
                shared_a.0@,
                shared_b.0@,
                self.0@,
            ),
    {
        let mut km: Vec<u8> = Vec::new();
        append_bytes(&mut km, net_key.0.as_slice());
        append_bytes(&mut km, shared_a.0.as_slice());
        append_bytes(&mut km, shared_b.0.as_slice());
        proof {
            assert(km@ =~= net_key.0@ + shared_a.0@ + shared_b.0@);
        }
        let key = sha256(km.as_slice());

        let nonce = zero_nonce_bytes();
        let payload = match open_attached(&key, &nonce, self.0.as_slice()) {
            Some(p) => p,
            None => {
                return None;
            },
        };
        let sig = copy64(payload.as_slice(), 0);
        let cpk = copy32(payload.as_slice(), 64);
        if sig[63] & 0xe0 != 0 {
            return None;
        }
        if !pk_decodes(&cpk) {
            return None;
        }
        let a_digest = sha256(shared_a.0.as_slice());
        let mut sd: Vec<u8> = Vec::new();
        append_bytes(&mut sd, net_key.0.as_slice());
        append_bytes(&mut sd, server_pk.0.as_slice());
        append_bytes(&mut sd, a_digest.as_slice());
        proof {
            assert(sd@ =~= net_key.0@ + server_pk.0@ + sha256_of(shared_a.0@));
        }
        if verify_detached(&cpk, &sig, sd.as_slice()) {
            Some((ClientSignature(sig), ClientPublicKey(cpk)))
        } else {
            None
        }
    }
}

/// Fourth message on the wire: the server proves it derived the same
/// secrets and accepts the client's identity.
pub struct ServerAccept(pub Vec<u8>);

impl ServerAccept {
    /// A well-formed ServerAccept is exactly 80 bytes: a 16-byte box tag
    /// over a 64-byte signature.
    pub open spec fn wf(&self) -> bool {
        self.0@.len() == 80
    }

    /// The wire size of a ServerAccept.
    pub fn size() -> (r: usize)
        ensures
            r == 80,
    {
        80
    }

    /// Wrap received bytes; `None` unless the length is exactly 80.
    pub fn from_buffer(buf: Vec<u8>) -> (r: Option<ServerAccept>)
        ensures
            (r is Some) == (buf@.len() == 80),
            r is Some ==> (r->0).0@ == buf@ && (r->0).wf(),
    {
        if buf.len() == 80 {
            Some(ServerAccept(buf))
        } else {
            None
        }
    }

    /// Sign the server sign data and seal the signature under the
    /// ServerAccept box key.
    pub fn new(
        keypair: &Keypair,
        net_key: &NetworkKey,
        client_sig: &ClientSignature,
        client_pk: &ClientPublicKey,
        shared_a: &SharedA,
        shared_b: &SharedB,
        shared_c: &SharedC,
    ) -> (r: ServerAccept)
        requires
            pk_decodes_of(keypair.public@),
        ensures
            r.wf(),
            r.0@ == server_accept_bytes(
                net_key.0@,
                keypair.secret@,
                keypair.public@,
                client_sig.0@,
                client_pk.0@,
                shared_a.0@,
                shared_b.0@,
                shared_c.0@,
            ),
    {
        let a_digest = sha256(shared_a.0.as_slice());
        let mut sd: Vec<u8> = Vec::new();
        append_bytes(&mut sd, net_key.0.as_slice());
        append_bytes(&mut sd, client_sig.0.as_slice());
        append_bytes(&mut sd, client_pk.0.as_slice());
        append_bytes(&mut sd, a_digest.as_slice());
        proof {
            assert(sd@ =~= net_key.0@ + client_sig.0@ + client_pk.0@ + sha256_of(shared_a.0@));
        }
        let sig = sign_detached(keypair, sd.as_slice());

        let mut km: Vec<u8> = Vec::new();
        append_bytes(&mut km, net_key.0.as_slice());
        append_bytes(&mut km, shared_a.0.as_slice());
        append_bytes(&mut km, shared_b.0.as_slice());
        append_bytes(&mut km, shared_c.0.as_slice());
        proof {
            assert(km@ =~= net_key.0@ + shared_a.0@ + shared_b.0@ + shared_c.0@);
        }
        let key = sha256(km.as_slice());

        let nonce = zero_nonce_bytes();
        let sealed = seal_attached(&key, &nonce, sig.as_slice());
        ServerAccept(sealed)
    }

    /// Open the box and check the server's signature against the sign data
    /// the client can rebuild itself (re-signing its own sign data, since
    /// the signature scheme is deterministic).
    pub fn verify(
        &self,
        keypair: &Keypair,
        server_pk: &ServerPublicKey,
        net_key: &NetworkKey,
        shared_a: &SharedA,
        shared_b: &SharedB,
        shared_c: &SharedC,
    ) -> (r: bool)
        requires
            self.wf(),
            pk_decodes_of(keypair.public@),
            pk_decodes_of(server_pk.0@),
        ensures
            r == server_accept_verifies(
                net_key.0@,
                keypair.secret@,
                keypair.public@,
                server_pk.0@,
                shared_a.0@,
                shared_b.0@,
                shared_c.0@,
                self.0@,
            ),
    {
        let mut km: Vec<u8> = Vec::new();
        append_bytes(&mut km, net_key.0.as_slice());
        append_bytes(&mut km, shared_a.0.as_slice());
        append_bytes(&mut km, shared_b.0.as_slice());
        append_bytes(&mut km, shared_c.0.as_slice());
        proof {
            assert(km@ =~= net_key.0@ + shared_a.0@ + shared_b.0@ + shared_c.0@);
        }
        let key = sha256(km.as_slice());

        let nonce = zero_nonce_bytes();
        let payload = match open_attached(&key, &nonce, self.0.as_slice()) {
            Some(p) => p,
            None => {
                return false;
            },
        };
        let sig = copy64(payload.as_slice(), 0);
        proof {
            assert(sig@ =~= payload@);
        }
        if sig[63] & 0xe0 != 0 {
            return false;
        }
        let a_digest = sha256(shared_a.0.as_slice());
        let mut csd: Vec<u8> = Vec::new();
        append_bytes(&mut csd, net_key.0.as_slice());
        append_bytes(&mut csd, server_pk.0.as_slice());
        append_bytes(&mut csd, a_digest.as_slice());
        proof {
            assert(csd@ =~= net_key.0@ + server_pk.0@ + sha256_of(shared_a.0@));
        }
        let my_sig = sign_detached(keypair, csd.as_slice());

        let mut sd: Vec<u8> = Vec::new();
        append_bytes(&mut sd, net_key.0.as_slice());
        append_bytes(&mut sd, my_sig.as_slice());
        append_bytes(&mut sd, keypair.public.as_slice());
        append_bytes(&mut sd, a_digest.as_slice());
        proof {
            assert(sd@ =~= net_key.0@ + my_sig@ + keypair.public@ + sha256_of(shared_a.0@));
        }
        verify_detached(&server_pk.0, &sig, sd.as_slice())
    }
}

} // verus!
