//! The key exchange that opens an encrypted connection.
//!
//! 1. The client sends a fresh public key.
//! 2. The server answers with its own fresh public key, the nonce it sends
//!    with, the nonce it receives with, and a signature, by its long-lived
//!    signing key, over those three and the client's public key.
//!
//! Both sides then agree on a shared secret and derive from it one key for
//! each direction. What goes over the wire and what is signed is laid out
//! here; the cryptography is `fire_crypto`'s.
use crate::error::TaskError;
use crate::packet::bytes::copy_bytes;

use fire_crypto::cipher::{EphemeralKeypair, Key, Nonce, PublicKey, SharedSecret};
use fire_crypto::signature::{Keypair as SigningKeypair, PublicKey as VerifyingKey, Signature};

use vstd::prelude::*;
use vstd::slice::slice_subrange;

verus! {

#[verifier::external_type_specification]
#[verifier::external_body]
pub struct ExEphemeralKeypair(fire_crypto::cipher::EphemeralKeypair);

#[verifier::external_type_specification]
#[verifier::external_body]
pub struct ExSharedSecret(fire_crypto::cipher::SharedSecret);

#[verifier::external_type_specification]
#[verifier::external_body]
pub struct ExKey(fire_crypto::cipher::Key);

/// The length of a public key, of either kind, and of a signing secret.
pub const KEY_LEN: usize = 32;

pub const NONCE_LEN: usize = 24;

pub const SIGNATURE_LEN: usize = 64;

/// The server's public key and its two nonces.
pub const BASE_LEN: usize = KEY_LEN + NONCE_LEN * 2;

/// What the server signs: the base, then the client's public key.
pub const TO_SIGN_LEN: usize = BASE_LEN + KEY_LEN;

/// What the server sends: the base, then the signature.
pub const TO_SEND_LEN: usize = BASE_LEN + SIGNATURE_LEN;

/// The Ed25519 signature that the signing key with the secret bytes `secret`
/// makes over `msg`.
pub uninterp spec fn ed25519_signature(secret: Seq<u8>, msg: Seq<u8>) -> Seq<u8>;

/// Whether `signature` is a valid Ed25519 signature over `msg` by the public
/// key whose bytes are `public_key`.
pub uninterp spec fn ed25519_verifies(public_key: Seq<u8>, msg: Seq<u8>, signature: Seq<u8>) -> bool;

/// `fire_crypto::signature::Keypair::sign`, on the keypair rebuilt from its
/// secret bytes (`Keypair::from_slice`, which takes any 32 bytes); returns the
/// 64 bytes of the signature. Ed25519 signing is deterministic, so the result
/// is named by the secret and the message.
#[verifier::external_body]
fn sign_message(secret: &[u8], msg: &[u8]) -> (signature: Vec<u8>)
    requires
        secret@.len() == KEY_LEN,
    ensures
        signature@ == ed25519_signature(secret@, msg@),
        signature@.len() == SIGNATURE_LEN,
{
    SigningKeypair::from_slice(secret).sign(msg).to_bytes().to_vec()
}

/// `fire_crypto::signature::PublicKey::verify`, on the key rebuilt from its
/// bytes (`PublicKey::try_from`: bytes that are no valid key verify nothing)
/// and the signature rebuilt from its 64 bytes (`Signature::from_slice`).
#[verifier::external_body]
fn verify_signature(public_key: &[u8], msg: &[u8], signature: &[u8]) -> (valid: bool)
    requires
        signature@.len() == SIGNATURE_LEN,
    ensures
        valid == ed25519_verifies(public_key@, msg@, signature@),
{
    match VerifyingKey::try_from(public_key) {
        Ok(key) => key.verify(msg, &Signature::from_slice(signature)),
        Err(_) => false,
    }
}

/// `fire_crypto::cipher::EphemeralKeypair::public`, as its bytes. The key is
/// drawn at random with the keypair, so nothing but its length is stated.
#[verifier::external_body]
fn ephemeral_public(keypair: &EphemeralKeypair) -> (public: Vec<u8>)
    ensures
        public@.len() == KEY_LEN,
{
    keypair.public().as_ref().to_vec()
}

/// `fire_crypto::cipher::EphemeralKeypair::diffie_hellman`, with the other
/// side's public key rebuilt from its 32 bytes (`PublicKey::from_slice`). The
/// shared secret is opaque here.
#[verifier::external_body]
fn diffie_hellman(keypair: EphemeralKeypair, other_public: &[u8]) -> SharedSecret
    requires
        other_public@.len() == KEY_LEN,
{
    keypair.diffie_hellman(&PublicKey::from_slice(other_public))
}

/// `fire_crypto::cipher::SharedSecret::to_key`, with the nonce rebuilt from
/// its 24 bytes (`Nonce::from_slice`). The key is opaque here.
#[verifier::external_body]
fn to_key(secret: &SharedSecret, nonce: &[u8]) -> Key
    requires
        nonce@.len() == NONCE_LEN,
{
    secret.to_key(Nonce::from_slice(nonce))
}

/// The bytes that the server signs.
pub open spec fn spec_signed_part(
    server_public: Seq<u8>,
    send_nonce: Seq<u8>,
    recv_nonce: Seq<u8>,
    client_public: Seq<u8>,
) -> Seq<u8> {
    server_public + send_nonce + recv_nonce + client_public
}

/// The bytes that the server sends.
pub open spec fn spec_server_hello(
    server_public: Seq<u8>,
    send_nonce: Seq<u8>,
    recv_nonce: Seq<u8>,
    signature: Seq<u8>,
) -> Seq<u8> {
    server_public + send_nonce + recv_nonce + signature
}

/// What a client that sent `client_public` reads from the server's answer
/// `msg`: the bytes the signature is over, the signature, the server's public
/// key, the nonce the client sends with and the nonce it receives with. An
/// answer of another length holds none of that.
pub open spec fn spec_read_server_hello(msg: Seq<u8>, client_public: Seq<u8>) -> Option<
    (Seq<u8>, Seq<u8>, Seq<u8>, Seq<u8>, Seq<u8>),
> {
    if msg.len() == TO_SEND_LEN {
        Some(
            (
                msg.subrange(0, BASE_LEN as int) + client_public,
                msg.subrange(BASE_LEN as int, TO_SEND_LEN as int),
                msg.subrange(0, KEY_LEN as int),
                msg.subrange((KEY_LEN + NONCE_LEN) as int, BASE_LEN as int),
                msg.subrange(KEY_LEN as int, (KEY_LEN + NONCE_LEN) as int),
            ),
        )
    } else {
        None
    }
}

/// A client reads back from the server's answer what the server built it
/// from: it checks the signature over exactly the bytes that the server
/// signed, it learns the server's public key, and it sends with the nonce
/// that the server receives with and receives with the one the server sends
/// with.
pub proof fn law_client_reads_server_hello(
    server_public: Seq<u8>,
    send_nonce: Seq<u8>,
    recv_nonce: Seq<u8>,
    signature: Seq<u8>,
    client_public: Seq<u8>,
)
    requires
        server_public.len() == KEY_LEN,
        send_nonce.len() == NONCE_LEN,
        recv_nonce.len() == NONCE_LEN,
        signature.len() == SIGNATURE_LEN,
    ensures
        spec_read_server_hello(
            spec_server_hello(server_public, send_nonce, recv_nonce, signature),
            client_public,
        ) == Some(
            (
                spec_signed_part(server_public, send_nonce, recv_nonce, client_public),
                signature,
                server_public,
                recv_nonce,
                send_nonce,
            ),
        ),
{
    let msg = spec_server_hello(server_public, send_nonce, recv_nonce, signature);
    assert(msg.subrange(0, BASE_LEN as int) =~= server_public + send_nonce + recv_nonce);
    assert(msg.subrange(BASE_LEN as int, TO_SEND_LEN as int) =~= signature);
    assert(msg.subrange(0, KEY_LEN as int) =~= server_public);
    assert(msg.subrange(KEY_LEN as int, (KEY_LEN + NONCE_LEN) as int) =~= send_nonce);
    assert(msg.subrange((KEY_LEN + NONCE_LEN) as int, BASE_LEN as int) =~= recv_nonce);
}

/// The bytes that the server signs.
pub fn signed_part(
    server_public: &[u8],
    send_nonce: &[u8],
    recv_nonce: &[u8],
    client_public: &[u8],
) -> (r: Vec<u8>)
    ensures
        r@ == spec_signed_part(server_public@, send_nonce@, recv_nonce@, client_public@),
{
    let mut out: Vec<u8> = Vec::new();
    copy_bytes(&mut out, server_public);
    copy_bytes(&mut out, send_nonce);
    copy_bytes(&mut out, recv_nonce);
    copy_bytes(&mut out, client_public);
    assert(out@ =~= spec_signed_part(server_public@, send_nonce@, recv_nonce@, client_public@));
    out
}

/// The bytes that the server sends.
pub fn server_hello(
    server_public: &[u8],
    send_nonce: &[u8],
    recv_nonce: &[u8],
    signature: &[u8],
) -> (r: Vec<u8>)
    ensures
        r@ == spec_server_hello(server_public@, send_nonce@, recv_nonce@, signature@),
{
    let mut out: Vec<u8> = Vec::new();
    copy_bytes(&mut out, server_public);
    copy_bytes(&mut out, send_nonce);
    copy_bytes(&mut out, recv_nonce);
    copy_bytes(&mut out, signature);
    assert(out@ =~= spec_server_hello(server_public@, send_nonce@, recv_nonce@, signature@));
    out
}

/// What a client reads from the server's answer.
pub struct ServerHello {
    /// The bytes the signature is over.
    pub signed: Vec<u8>,
    pub signature: Vec<u8>,
    pub server_public: Vec<u8>,
    /// The nonce the client sends with.
    pub send_nonce: Vec<u8>,
    /// The nonce the client receives with.
    pub recv_nonce: Vec<u8>,
}

impl View for ServerHello {
    type V = (Seq<u8>, Seq<u8>, Seq<u8>, Seq<u8>, Seq<u8>);

    open spec fn view(&self) -> Self::V {
        (self.signed@, self.signature@, self.server_public@, self.send_nonce@, self.recv_nonce@)
    }
}

fn copy_range(msg: &[u8], start: usize, end: usize) -> (r: Vec<u8>)
    requires
        start <= end <= msg@.len(),
    ensures
        r@ == msg@.subrange(start as int, end as int),
{
    let mut out: Vec<u8> = Vec::new();
    copy_bytes(&mut out, slice_subrange(msg, start, end));
    assert(out@ =~= msg@.subrange(start as int, end as int));
    out
}

/// Reads the server's answer `msg`, the client having sent `client_public`;
/// `None` where the answer has not the length of one.
pub fn read_server_hello(msg: &[u8], client_public: &[u8]) -> (r: Option<ServerHello>)
    ensures
        r matches Some(h) ==> spec_read_server_hello(msg@, client_public@) == Some(h@),
        r is None ==> spec_read_server_hello(msg@, client_public@) is None,
{
    if msg.len() != TO_SEND_LEN {
        return None;
    }
    let mut signed = copy_range(msg, 0, BASE_LEN);
    copy_bytes(&mut signed, client_public);
    let signature = copy_range(msg, BASE_LEN, TO_SEND_LEN);
    let server_public = copy_range(msg, 0, KEY_LEN);
    let recv_nonce = copy_range(msg, KEY_LEN, KEY_LEN + NONCE_LEN);
    let send_nonce = copy_range(msg, KEY_LEN + NONCE_LEN, BASE_LEN);
    Some(ServerHello { signed, signature, server_public, send_nonce, recv_nonce })
}

/// A fresh keypair for one key exchange, with the bytes of its public key.
pub struct FreshKeypair {
    keypair: EphemeralKeypair,
    public: Vec<u8>,
}

impl FreshKeypair {
    #[verifier::type_invariant]
    closed spec fn public_has_key_len(self) -> bool {
        self.public@.len() == KEY_LEN
    }

    /// The bytes of the public key.
    pub closed spec fn spec_public(&self) -> Seq<u8> {
        self.public@
    }

    pub fn new(keypair: EphemeralKeypair) -> (r: Self)
        ensures
            r.spec_public().len() == KEY_LEN,
    {
        let public = ephemeral_public(&keypair);
        FreshKeypair { keypair, public }
    }

    /// The bytes of the public key, the ones that are sent.
    pub fn public_key(&self) -> (r: &[u8])
        ensures
            r@ == self.spec_public(),
            r@.len() == KEY_LEN,
    {
        proof {
            use_type_invariant(self);
        }
        self.public.as_slice()
    }

    /// The secret that this keypair agrees on with the holder of the public
    /// key `other_public`; the keypair is used up.
    pub fn agree(self, other_public: &[u8]) -> (r: AgreedSecret)
        requires
            other_public@.len() == KEY_LEN,
        ensures
            r.own_public() == self.spec_public(),
            r.other_public() == other_public@,
    {
        let ghost own = self.spec_public();
        let FreshKeypair { keypair, public } = self;
        AgreedSecret {
            secret: diffie_hellman(keypair, other_public),
            own: Ghost(own),
            other: Ghost(other_public@),
        }
    }
}

/// What a key was derived from: the nonce it starts with, the public key of
/// the side that holds it, and the other side's public key.
pub struct KeyOrigin {
    pub nonce: Seq<u8>,
    pub own_public: Seq<u8>,
    pub other_public: Seq<u8>,
}

/// The origin of the same key as the other side sees it.
pub open spec fn mirrored(o: KeyOrigin) -> KeyOrigin {
    KeyOrigin { nonce: o.nonce, own_public: o.other_public, other_public: o.own_public }
}

/// The shared secret of a fresh keypair and the other side's public key,
/// with a record of the two public keys.
pub struct AgreedSecret {
    secret: SharedSecret,
    own: Ghost<Seq<u8>>,
    other: Ghost<Seq<u8>>,
}

impl AgreedSecret {
    /// The public key of the keypair this side agreed with.
    pub closed spec fn own_public(&self) -> Seq<u8> {
        self.own@
    }

    /// The other side's public key.
    pub closed spec fn other_public(&self) -> Seq<u8> {
        self.other@
    }

    /// The key that starts with `nonce`.
    pub fn key(&self, nonce: &[u8]) -> (r: SessionKey)
        requires
            nonce@.len() == NONCE_LEN,
        ensures
            r.origin() == (KeyOrigin {
                nonce: nonce@,
                own_public: self.own_public(),
                other_public: self.other_public(),
            }),
    {
        SessionKey {
            key: to_key(&self.secret, nonce),
            origin: Ghost(
                KeyOrigin {
                    nonce: nonce@,
                    own_public: self.own_public(),
                    other_public: self.other_public(),
                },
            ),
        }
    }
}

/// A key that encrypts one direction of a connection, with a record of what
/// it was derived from.
pub struct SessionKey {
    pub key: Key,
    origin: Ghost<KeyOrigin>,
}

impl SessionKey {
    pub closed spec fn origin(&self) -> KeyOrigin {
        self.origin@
    }
}

/// What a finished key exchange leaves each side with.
pub struct Handshake {
    pub send_key: SessionKey,
    pub recv_key: SessionKey,
    /// The other side's public key, for this connection only.
    pub public_key: Vec<u8>,
}

/// What the server's keys are derived from: its send key starts with the
/// nonce it sends with, its receive key with the one it receives with.
pub open spec fn spec_server_keys(
    server_public: Seq<u8>,
    send_nonce: Seq<u8>,
    recv_nonce: Seq<u8>,
    client_public: Seq<u8>,
) -> (KeyOrigin, KeyOrigin) {
    (
        KeyOrigin { nonce: send_nonce, own_public: server_public, other_public: client_public },
        KeyOrigin { nonce: recv_nonce, own_public: server_public, other_public: client_public },
    )
}

/// What the client's keys are derived from, having sent `client_public` and
/// received the server's answer `msg`: its send key starts with the nonce
/// that comes second in the answer, its receive key with the first one.
pub open spec fn spec_client_keys(msg: Seq<u8>, client_public: Seq<u8>) -> (KeyOrigin, KeyOrigin) {
    let server_public = msg.subrange(0, KEY_LEN as int);
    (
        KeyOrigin {
            nonce: msg.subrange((KEY_LEN + NONCE_LEN) as int, BASE_LEN as int),
            own_public: client_public,
            other_public: server_public,
        },
        KeyOrigin {
            nonce: msg.subrange(KEY_LEN as int, (KEY_LEN + NONCE_LEN) as int),
            own_public: client_public,
            other_public: server_public,
        },
    )
}

/// Each side receives with the key the other sends with: the client's send
/// key and the server's receive key start with the same nonce and come from
/// the same two public keys, and so do the client's receive key and the
/// server's send key, when the client reads the answer the server built for
/// it.
pub proof fn law_keys_cross(
    server_public: Seq<u8>,
    send_nonce: Seq<u8>,
    recv_nonce: Seq<u8>,
    signature: Seq<u8>,
    client_public: Seq<u8>,
)
    requires
        server_public.len() == KEY_LEN,
        send_nonce.len() == NONCE_LEN,
        recv_nonce.len() == NONCE_LEN,
        signature.len() == SIGNATURE_LEN,
    ensures
        ({
            let server = spec_server_keys(server_public, send_nonce, recv_nonce, client_public);
            let client = spec_client_keys(
                spec_server_hello(server_public, send_nonce, recv_nonce, signature),
                client_public,
            );
            &&& client.0 == mirrored(server.1)
            &&& client.1 == mirrored(server.0)
        }),
{
    law_client_reads_server_hello(server_public, send_nonce, recv_nonce, signature, client_public);
}

/// The server's side of the key exchange, once the client's public key
/// `client_public` has come in: returns the answer to send and the keys.
/// `sign_secret` is the secret of the server's signing key, `server_keypair`
/// a fresh keypair and `send_nonce` and `recv_nonce` fresh nonces.
///
/// The answer is the fresh keypair's public key, the two nonces, and the
/// signature over those and `client_public`.
pub fn server_handshake(
    sign_secret: &[u8],
    client_public: &[u8],
    server_keypair: FreshKeypair,
    send_nonce: &[u8],
    recv_nonce: &[u8],
) -> (r: (Vec<u8>, Handshake))
    requires
        sign_secret@.len() == KEY_LEN,
        client_public@.len() == KEY_LEN,
        send_nonce@.len() == NONCE_LEN,
        recv_nonce@.len() == NONCE_LEN,
    ensures
        r.0@ == spec_server_hello(
            server_keypair.spec_public(),
            send_nonce@,
            recv_nonce@,
            ed25519_signature(
                sign_secret@,
                spec_signed_part(server_keypair.spec_public(), send_nonce@, recv_nonce@, client_public@),
            ),
        ),
        r.0@.len() == TO_SEND_LEN,
        (r.1.send_key.origin(), r.1.recv_key.origin()) == spec_server_keys(
            server_keypair.spec_public(),
            send_nonce@,
            recv_nonce@,
            client_public@,
        ),
        r.1.public_key@ == client_public@,
{
    let server_public = server_keypair.public_key();
    let to_sign = signed_part(server_public, send_nonce, recv_nonce, client_public);
    let signature = sign_message(sign_secret, to_sign.as_slice());
    let hello = server_hello(server_public, send_nonce, recv_nonce, signature.as_slice());

    let shared = server_keypair.agree(client_public);
    let send_key = shared.key(send_nonce);
    let recv_key = shared.key(recv_nonce);
    let mut public_key: Vec<u8> = Vec::new();
    copy_bytes(&mut public_key, client_public);
    assert(public_key@ =~= client_public@);
    (hello, Handshake { send_key, recv_key, public_key })
}

/// The client's side of the key exchange: a fresh keypair, whose public key
/// is sent first.
pub struct ClientHandshake {
    keypair: FreshKeypair,
}

impl ClientHandshake {
    /// The public key that this side sends.
    pub closed spec fn spec_public(&self) -> Seq<u8> {
        self.keypair.spec_public()
    }

    pub fn new(keypair: EphemeralKeypair) -> (r: Self)
        ensures
            r.spec_public().len() == KEY_LEN,
    {
        ClientHandshake { keypair: FreshKeypair::new(keypair) }
    }

    /// The public key to send to the server.
    pub fn public_key(&self) -> (r: &[u8])
        ensures
            r@ == self.spec_public(),
            r@.len() == KEY_LEN,
    {
        self.keypair.public_key()
    }

    /// Finishes the exchange with the server's answer `received`: the exchange
    /// holds if the signature in it, by the server's signing key
    /// `sign_public`, is over the answer's first part followed by this side's
    /// public key; else it is refused as `IncorrectSignature`.
    pub fn finish(self, sign_public: &[u8], received: &[u8]) -> (r: Result<Handshake, TaskError>)
        requires
            received@.len() == TO_SEND_LEN,
        ensures
            r is Ok <==> ed25519_verifies(
                sign_public@,
                received@.subrange(0, BASE_LEN as int) + self.spec_public(),
                received@.subrange(BASE_LEN as int, TO_SEND_LEN as int),
            ),
            r matches Err(e) ==> e is IncorrectSignature,
            r matches Ok(h) ==> {
                &&& h.public_key@ == received@.subrange(0, KEY_LEN as int)
                &&& (h.send_key.origin(), h.recv_key.origin()) == spec_client_keys(
                    received@,
                    self.spec_public(),
                )
            },
    {
        let ClientHandshake { keypair } = self;
        let hello = match read_server_hello(received, keypair.public_key()) {
            Some(h) => h,
            None => {
                return Err(TaskError::IncorrectSignature);
            },
        };
        if !verify_signature(sign_public, hello.signed.as_slice(), hello.signature.as_slice()) {
            return Err(TaskError::IncorrectSignature);
        }
        let shared = keypair.agree(hello.server_public.as_slice());
        let send_key = shared.key(hello.send_nonce.as_slice());
        let recv_key = shared.key(hello.recv_nonce.as_slice());
        Ok(Handshake { send_key, recv_key, public_key: hello.server_public })
    }
}

} // verus!
