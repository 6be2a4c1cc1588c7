use fire_crypto::cipher::{EphemeralKeypair, Nonce};
use fire_crypto::signature::Keypair;
use lafere::error::TaskError;
use lafere::handshake::{
    read_server_hello, server_handshake, server_hello, signed_part, ClientHandshake, FreshKeypair,
    BASE_LEN,
    KEY_LEN, NONCE_LEN, SIGNATURE_LEN, TO_SEND_LEN, TO_SIGN_LEN,
};

#[test]
fn lengths() {
    assert_eq!(KEY_LEN, 32);
    assert_eq!(NONCE_LEN, 24);
    assert_eq!(SIGNATURE_LEN, 64);
    assert_eq!(BASE_LEN, 80);
    assert_eq!(TO_SIGN_LEN, 112);
    assert_eq!(TO_SEND_LEN, 144);
}

#[test]
fn hello_layout_is_read_back() {
    let server_public = [1u8; 32];
    let send_nonce = [2u8; 24];
    let recv_nonce = [3u8; 24];
    let signature = [4u8; 64];
    let client_public = [5u8; 32];

    let msg = server_hello(&server_public, &send_nonce, &recv_nonce, &signature);
    assert_eq!(msg.len(), TO_SEND_LEN);

    let hello = read_server_hello(&msg, &client_public).unwrap();
    assert_eq!(
        hello.signed,
        signed_part(&server_public, &send_nonce, &recv_nonce, &client_public)
    );
    assert_eq!(hello.signed.len(), TO_SIGN_LEN);
    assert_eq!(hello.signature, signature.to_vec());
    assert_eq!(hello.server_public, server_public.to_vec());
    // the nonces cross: the client sends with the server's receiving nonce
    assert_eq!(hello.send_nonce, recv_nonce.to_vec());
    assert_eq!(hello.recv_nonce, send_nonce.to_vec());
}

#[test]
fn hello_of_wrong_length_is_refused() {
    let client_public = [5u8; 32];
    assert!(read_server_hello(&[0u8; 143], &client_public).is_none());
    assert!(read_server_hello(&[0u8; 145], &client_public).is_none());
    assert!(read_server_hello(&[], &client_public).is_none());
}

fn exchange(sign: &Keypair) -> (ClientHandshake, Vec<u8>, lafere::handshake::Handshake) {
    let client = ClientHandshake::new(EphemeralKeypair::new());
    let send_nonce = Nonce::new();
    let recv_nonce = Nonce::new();
    let (msg, server) = server_handshake(
        &sign.to_bytes(),
        client.public_key(),
        FreshKeypair::new(EphemeralKeypair::new()),
        send_nonce.as_ref(),
        recv_nonce.as_ref(),
    );
    assert_eq!(server.public_key, client.public_key().to_vec());
    (client, msg, server)
}

#[test]
fn both_sides_agree_on_the_keys() {
    let sign = Keypair::new();
    let (client, msg, mut server) = exchange(&sign);
    assert_eq!(msg.len(), TO_SEND_LEN);

    let mut client = client.finish(&sign.public().to_bytes(), &msg).unwrap();
    assert_eq!(client.public_key, msg[..KEY_LEN].to_vec());

    // server to client
    let mut data = *b"hello from the server";
    let mac = server.send_key.key.encrypt(&mut data);
    assert_ne!(&data, b"hello from the server");
    client.recv_key.key.decrypt(&mut data, &mac).unwrap();
    assert_eq!(&data, b"hello from the server");

    // client to server
    let mut data = *b"hello from the client";
    let mac = client.send_key.key.encrypt(&mut data);
    server.recv_key.key.decrypt(&mut data, &mac).unwrap();
    assert_eq!(&data, b"hello from the client");
}

#[test]
fn answer_is_signed_by_the_server_key() {
    let sign = Keypair::new();
    let (client, msg, _server) = exchange(&sign);
    let hello = read_server_hello(&msg, client.public_key()).unwrap();
    let signature = sign.sign(&hello.signed);
    assert_eq!(signature.to_bytes().to_vec(), hello.signature);
    assert_eq!(
        hello.signed,
        signed_part(&msg[..32], &msg[32..56], &msg[56..80], client.public_key())
    );
}

#[test]
fn other_signing_key_is_refused() {
    let sign = Keypair::new();
    let other = Keypair::new();
    let (client, msg, _server) = exchange(&sign);
    let r = client.finish(&other.public().to_bytes(), &msg);
    assert!(matches!(r, Err(TaskError::IncorrectSignature)));
}

#[test]
fn tampered_answer_is_refused() {
    let sign = Keypair::new();
    let (client, mut msg, _server) = exchange(&sign);
    msg[40] ^= 1;
    let r = client.finish(&sign.public().to_bytes(), &msg);
    assert!(matches!(r, Err(TaskError::IncorrectSignature)));
}

#[test]
fn answer_for_another_client_is_refused() {
    let sign = Keypair::new();
    let (_client, msg, _server) = exchange(&sign);
    let stranger = ClientHandshake::new(EphemeralKeypair::new());
    let r = stranger.finish(&sign.public().to_bytes(), &msg);
    assert!(matches!(r, Err(TaskError::IncorrectSignature)));
}

#[test]
fn server_answer_starts_with_its_fresh_key() {
    let sign = Keypair::new();
    let client = ClientHandshake::new(EphemeralKeypair::new());
    let server_keypair = FreshKeypair::new(EphemeralKeypair::new());
    let server_public = server_keypair.public_key().to_vec();
    assert_ne!(server_public, client.public_key().to_vec());
    let (msg, _server) = server_handshake(
        &sign.to_bytes(),
        client.public_key(),
        server_keypair,
        &[1u8; 24],
        &[2u8; 24],
    );
    assert_eq!(&msg[..KEY_LEN], &server_public[..]);
    assert_eq!(&msg[32..56], &[1u8; 24][..]);
    assert_eq!(&msg[56..80], &[2u8; 24][..]);
}
