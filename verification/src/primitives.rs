//! Named results and trusted wrappers for the cryptographic primitives the
//! handshake is built on. Every byte-level layout decision of the protocol is
//! verified elsewhere; only the primitive calls themselves are taken on trust,
//! each with the contract its source shows.
use crate::keys::Keypair;
use vstd::prelude::*;

verus! {

/// The HMAC-SHA-512-256 tag over `msg`, keyed by `key`; a pure function of
/// the two.
pub uninterp spec fn auth_tag_of(key: Seq<u8>, msg: Seq<u8>) -> Seq<u8>;

/// The SHA-256 digest of `msg`.
pub uninterp spec fn sha256_of(msg: Seq<u8>) -> Seq<u8>;

/// The ed25519 signature over `msg` by the key pair (`secret`, `public`);
/// deterministic in all three.
pub uninterp spec fn sign_of(secret: Seq<u8>, public: Seq<u8>, msg: Seq<u8>) -> Seq<u8>;

/// Whether `sig` is a valid ed25519 signature over `msg` under `public`.
pub uninterp spec fn sig_checks_of(public: Seq<u8>, sig: Seq<u8>, msg: Seq<u8>) -> bool;

/// Whether 32 bytes decode as an ed25519 public key (decompress to a curve
/// point). Signing and signature checking are only defined for keys that do.
pub uninterp spec fn pk_decodes_of(pk: Seq<u8>) -> bool;

/// The secretbox (XSalsa20-Poly1305) sealing of `msg` under `key` and
/// `nonce`, with the 16-byte authentication tag in front.
pub uninterp spec fn seal_of(key: Seq<u8>, nonce: Seq<u8>, msg: Seq<u8>) -> Seq<u8>;

/// The secretbox opening of `sealed` under `key` and `nonce`: the plaintext
/// if the authentication tag checks out, `None` otherwise.
pub uninterp spec fn open_of(key: Seq<u8>, nonce: Seq<u8>, sealed: Seq<u8>) -> Option<Seq<u8>>;

/// The curve25519 shared secret of an ephemeral secret key and an ephemeral
/// public key.
pub uninterp spec fn shared_secret_eph_of(sk: Seq<u8>, pk: Seq<u8>) -> Option<Seq<u8>>;

/// The curve25519 shared secret of an ephemeral secret key and a long-term
/// (ed25519) public key; `None` when the public key is not usable for key
/// agreement (fails to decompress, or names a small-order point).
pub uninterp spec fn shared_secret_pk_of(sk: Seq<u8>, pk: Seq<u8>) -> Option<Seq<u8>>;

/// The curve25519 shared secret of a long-term (ed25519) secret key and an
/// ephemeral public key.
pub uninterp spec fn shared_secret_sk_of(sk: Seq<u8>, pk: Seq<u8>) -> Option<Seq<u8>>;

/// Relies on ssb_crypto::NetworkKey::authenticate: the HMAC-SHA-512-256 tag
/// of the message under the key, 32 bytes, deterministic.
#[verifier::external_body]
pub(crate) fn auth_tag(key: &[u8; 32], msg: &[u8]) -> (r: [u8; 32])
    ensures
        r@ == auth_tag_of(key@, msg@),
{
    ssb_crypto::NetworkKey(*key).authenticate(msg).0
}

/// Relies on ssb_crypto::NetworkKey::verify: it recomputes the
/// HMAC-SHA-512-256 tag and compares it (in constant time) to the given one.
#[verifier::external_body]
pub(crate) fn auth_verify(key: &[u8; 32], tag: &[u8; 32], msg: &[u8]) -> (r: bool)
    ensures
        r == (tag@ == auth_tag_of(key@, msg@)),
{
    ssb_crypto::NetworkKey(*key).verify(&ssb_crypto::NetworkAuth(*tag), msg)
}

/// Relies on ssb_crypto::hash: the SHA-256 digest, 32 bytes, deterministic.
#[verifier::external_body]
pub(crate) fn sha256(msg: &[u8]) -> (r: [u8; 32])
    ensures
        r@ == sha256_of(msg@),
{
    ssb_crypto::hash(msg).0
}

/// Relies on ssb_crypto::Keypair::sign: the deterministic ed25519 signature
/// over the message. The public half must decode, or the underlying library
/// panics.
#[verifier::external_body]
pub(crate) fn sign_detached(keypair: &Keypair, msg: &[u8]) -> (r: [u8; 64])
    requires
        pk_decodes_of(keypair.public@),
    ensures
        r@ == sign_of(keypair.secret@, keypair.public@, msg@),
{
    let kp = ssb_crypto::Keypair {
        secret: ssb_crypto::SecretKey(keypair.secret),
        public: ssb_crypto::PublicKey(keypair.public),
    };
    kp.sign(msg).0
}

/// Relies on ssb_crypto::PublicKey::verify: whether the signature checks out
/// over the message under this key. The key must decode and the top three
/// bits of the last signature byte must be clear, or the underlying library
/// panics.
#[verifier::external_body]
pub(crate) fn verify_detached(pk: &[u8; 32], sig: &[u8; 64], msg: &[u8]) -> (r: bool)
    requires
        pk_decodes_of(pk@),
        sig@[63] & 0xe0 == 0,
    ensures
        r == sig_checks_of(pk@, sig@, msg@),
{
    ssb_crypto::PublicKey(*pk).verify(&ssb_crypto::Signature(*sig), msg)
}

/// Relies on ed25519_dalek::PublicKey::from_bytes: it succeeds exactly when
/// the 32 bytes decompress to an Edwards curve point, which is the condition
/// under which signing and signature checking are defined.
#[verifier::external_body]
pub(crate) fn pk_decodes(pk: &[u8; 32]) -> (r: bool)
    ensures
        r == pk_decodes_of(pk@),
{
    ed25519_dalek::PublicKey::from_bytes(pk).is_ok()
}

/// Relies on ssb_crypto::secretbox::Key::seal_attached_into: authenticated
/// encryption that prepends a 16-byte tag, and whose opening under the same
/// key and nonce returns the plaintext.
#[verifier::external_body]
pub(crate) fn seal_attached(key: &[u8; 32], nonce: &[u8; 24], msg: &[u8]) -> (r: Vec<u8>)
    requires
        msg@.len() + 16 <= usize::MAX,
    ensures
        r@ == seal_of(key@, nonce@, msg@),
        r@.len() == msg@.len() + 16,
        open_of(key@, nonce@, r@) == Some(msg@),
{
    let mut out = vec![0u8; msg.len() + 16];
    ssb_crypto::secretbox::Key(*key).seal_attached_into(
        msg,
        &ssb_crypto::secretbox::Nonce(*nonce),
        &mut out,
    );
    out
}

/// Relies on ssb_crypto::secretbox::Key::open_attached_into: authenticated
/// decryption of a tag-prefixed box; reports whether the tag checked out.
#[verifier::external_body]
pub(crate) fn open_attached(key: &[u8; 32], nonce: &[u8; 24], sealed: &[u8]) -> (r: Option<
    Vec<u8>,
>)
    requires
        sealed@.len() >= 16,
    ensures
        (r is Some) == (open_of(key@, nonce@, sealed@) is Some),
        r is Some ==> r->0@ == open_of(key@, nonce@, sealed@)->0 && r->0@.len() == sealed@.len()
            - 16,
{
    let mut out = vec![0u8; sealed.len() - 16];
    let ok = ssb_crypto::secretbox::Key(*key).open_attached_into(
        sealed,
        &ssb_crypto::secretbox::Nonce(*nonce),
        &mut out,
    );
    if ok {
        Some(out)
    } else {
        None
    }
}

/// Relies on ssb_crypto::ephemeral::derive_shared_secret: the curve25519
/// scalar multiplication of the two ephemeral keys.
#[verifier::external_body]
pub(crate) fn shared_secret_eph(sk: &[u8; 32], pk: &[u8; 32]) -> (r: Option<[u8; 32]>)
    ensures
        (r is Some) == (shared_secret_eph_of(sk@, pk@) is Some),
        r is Some ==> r->0@ == shared_secret_eph_of(sk@, pk@)->0,
{
    let s = ssb_crypto::ephemeral::EphSecretKey(*sk);
    let p = ssb_crypto::ephemeral::EphPublicKey(*pk);
    ssb_crypto::ephemeral::derive_shared_secret(&s, &p).map(|x| x.0)
}

/// Relies on ssb_crypto::ephemeral::derive_shared_secret_pk: the curve25519
/// shared secret of an ephemeral secret key and a long-term public key;
/// `None` when that key fails to decompress or is a small-order point.
#[verifier::external_body]
pub(crate) fn shared_secret_pk(sk: &[u8; 32], pk: &[u8; 32]) -> (r: Option<[u8; 32]>)
    ensures
        (r is Some) == (shared_secret_pk_of(sk@, pk@) is Some),
        r is Some ==> r->0@ == shared_secret_pk_of(sk@, pk@)->0,
{
    let s = ssb_crypto::ephemeral::EphSecretKey(*sk);
    let p = ssb_crypto::PublicKey(*pk);
    ssb_crypto::ephemeral::derive_shared_secret_pk(&s, &p).map(|x| x.0)
}

/// Relies on ssb_crypto::ephemeral::derive_shared_secret_sk: the curve25519
/// shared secret of a long-term secret key and an ephemeral public key.
#[verifier::external_body]
pub(crate) fn shared_secret_sk(sk: &[u8; 32], pk: &[u8; 32]) -> (r: Option<[u8; 32]>)
    ensures
        (r is Some) == (shared_secret_sk_of(sk@, pk@) is Some),
        r is Some ==> r->0@ == shared_secret_sk_of(sk@, pk@)->0,
{
    let s = ssb_crypto::SecretKey(*sk);
    let p = ssb_crypto::ephemeral::EphPublicKey(*pk);
    ssb_crypto::ephemeral::derive_shared_secret_sk(&s, &p).map(|x| x.0)
}

/// Relies on ssb_crypto::ephemeral::generate_ephemeral_keypair: a fresh
/// random curve25519 key pair, (public, secret). Nothing is assumed of the
/// random outcome.
#[verifier::external_body]
pub(crate) fn generate_eph_keypair() -> ([u8; 32], [u8; 32]) {
    let (p, s) = ssb_crypto::ephemeral::generate_ephemeral_keypair();
    (p.0, s.0)
}

} // verus!
