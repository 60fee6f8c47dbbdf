use ecdh_backend::channel::{client_id, read_request, session_from_record, write_response};
use ecdh_backend::config::{Config, ConfigBuilder};
use ecdh_backend::counter::Direction;
use ecdh_backend::error::{ChannelError, ConfigError, HandshakeError};
use ecdh_backend::handshake::{create_session, public_key, PublicKeyExchangeMessage};
use ecdh_backend::crypto::create_ephemeral_key_pair;
use ecdh_backend::secret::{create_shared_secret, SharedSecret};
use ecdh_backend::store::{KeyStoreKey, Sessions};
use ring::rand::SystemRandom;
use ring::signature::{EcdsaKeyPair, KeyPair, ECDSA_P256_SHA256_FIXED, ECDSA_P256_SHA256_FIXED_SIGNING};

const SALT: &[u8] = b"server-wide salt";

fn identity_pkcs8(rng: &SystemRandom) -> Vec<u8> {
    EcdsaKeyPair::generate_pkcs8(&ECDSA_P256_SHA256_FIXED_SIGNING, rng)
        .unwrap()
        .as_ref()
        .to_vec()
}

fn server_config(rng: &SystemRandom) -> Config {
    ConfigBuilder::new()
        .key_pair_pkcs8(identity_pkcs8(rng))
        .hkdf_salt(SALT.to_vec())
        .build()
        .ok()
        .unwrap()
}

struct Client {
    signing: EcdsaKeyPair,
    header: String,
}

fn new_client(rng: &SystemRandom) -> Client {
    let pkcs8 = identity_pkcs8(rng);
    let signing = EcdsaKeyPair::from_pkcs8(&ECDSA_P256_SHA256_FIXED_SIGNING, &pkcs8).unwrap();
    let header = base64::encode(signing.public_key().as_ref());
    Client { signing, header }
}

fn client_request(
    client: &Client,
    rng: &SystemRandom,
) -> (ring::agreement::EphemeralPrivateKey, Vec<u8>, Vec<u8>) {
    let private_key =
        ring::agreement::EphemeralPrivateKey::generate(&ring::agreement::ECDH_P256, rng).unwrap();
    let ephemeral = private_key.compute_public_key().unwrap().as_ref().to_vec();
    let signature = client.signing.sign(rng, &ephemeral).unwrap().as_ref().to_vec();
    (private_key, ephemeral, signature)
}

/// Performs a full handshake for `client` and returns the client's side of the session.
fn handshake(sessions: &mut Sessions, config: &Config, client: &Client, rng: &SystemRandom) -> SharedSecret {
    let (private_key, ephemeral, signature) = client_request(client, rng);
    let credential = public_key(Some(client.header.as_bytes())).ok().unwrap();
    let request = PublicKeyExchangeMessage::from_base64(
        base64::encode(&ephemeral).as_bytes(),
        base64::encode(&signature).as_bytes(),
    )
    .ok()
    .unwrap();
    let response = sessions.establish(config, credential, &request).ok().unwrap();
    create_shared_secret(private_key, &response.ephemeral_public_key, SALT, Direction::ClientToServer)
        .ok()
        .unwrap()
}

fn id_of(client: &Client) -> KeyStoreKey {
    client_id(Some(client.header.as_bytes())).ok().unwrap()
}

fn seal_for_server(secret: &mut SharedSecret, plaintext: &[u8]) -> String {
    base64::encode(secret.encrypt(plaintext.to_vec()).ok().unwrap())
}

#[test]
fn handshake_round_trip() {
    let rng = SystemRandom::new();
    let config = server_config(&rng);
    let mut sessions = Sessions::new();
    let client = new_client(&rng);
    let mut secret = handshake(&mut sessions, &config, &client, &rng);
    let id = id_of(&client);

    let body = seal_for_server(&mut secret, b"{\"name\":\"Ada\"}");
    let opened = sessions.open_request(&id, body.as_bytes()).ok().unwrap();
    assert_eq!(opened, b"{\"name\":\"Ada\"}".to_vec());

    let reply = sessions.seal_response(&id, b"{\"hello\":\"Ada\"}".to_vec()).ok().unwrap();
    let reply = secret.decrypt(base64::decode(reply).unwrap()).ok().unwrap();
    assert_eq!(reply, b"{\"hello\":\"Ada\"}".to_vec());
}

#[test]
fn tampered_signature_is_rejected() {
    let rng = SystemRandom::new();
    let config = server_config(&rng);
    let mut sessions = Sessions::new();
    let client = new_client(&rng);
    let (_, ephemeral, mut signature) = client_request(&client, &rng);
    signature[10] ^= 0x01;
    let credential = public_key(Some(client.header.as_bytes())).ok().unwrap();
    let request = PublicKeyExchangeMessage { ephemeral_public_key: ephemeral, signature };
    let r = sessions.establish(&config, credential, &request);
    assert!(matches!(r, Err(HandshakeError::BadSignature)));
    assert_eq!(HandshakeError::BadSignature.status(), 401);
    assert_eq!(sessions.len(), 0);
}

#[test]
fn tampered_ephemeral_key_is_rejected() {
    let rng = SystemRandom::new();
    let config = server_config(&rng);
    let mut sessions = Sessions::new();
    let client = new_client(&rng);
    let (_, mut ephemeral, signature) = client_request(&client, &rng);
    ephemeral[20] ^= 0x80;
    let credential = public_key(Some(client.header.as_bytes())).ok().unwrap();
    let request = PublicKeyExchangeMessage { ephemeral_public_key: ephemeral, signature };
    let r = sessions.establish(&config, credential, &request);
    assert!(matches!(r, Err(HandshakeError::BadSignature)));
    assert_eq!(sessions.len(), 0);
}

#[test]
fn client_id_ignores_padding() {
    let rng = SystemRandom::new();
    let client = new_client(&rng);
    assert!(client.header.ends_with('='));
    let unpadded = client.header.trim_end_matches('=').to_string();
    let a = client_id(Some(client.header.as_bytes())).ok().unwrap();
    let b = client_id(Some(unpadded.as_bytes())).ok().unwrap();
    assert_eq!(a.as_str(), b.as_str());
    assert_eq!(a.as_str(), client.header.as_str());
}

#[test]
fn sessions_are_isolated() {
    let rng = SystemRandom::new();
    let config = server_config(&rng);
    let mut sessions = Sessions::new();
    let alice = new_client(&rng);
    let bob = new_client(&rng);
    let _alice_secret = handshake(&mut sessions, &config, &alice, &rng);
    let mut bob_secret = handshake(&mut sessions, &config, &bob, &rng);
    assert_eq!(sessions.len(), 2);

    let body = seal_for_server(&mut bob_secret, b"for bob's session");
    let r = sessions.open_request(&id_of(&alice), body.as_bytes());
    assert!(matches!(r, Err(ChannelError::AuthenticationFailure)));
    assert_eq!(ChannelError::AuthenticationFailure.status(), 401);
    let opened = sessions.open_request(&id_of(&bob), body.as_bytes()).ok().unwrap();
    assert_eq!(opened, b"for bob's session".to_vec());
}

#[test]
fn nonces_are_never_reused() {
    let rng = SystemRandom::new();
    let config = server_config(&rng);
    let mut sessions = Sessions::new();
    let client = new_client(&rng);
    let mut secret = handshake(&mut sessions, &config, &client, &rng);
    let id = id_of(&client);

    let first = seal_for_server(&mut secret, b"same text");
    let second = seal_for_server(&mut secret, b"same text");
    assert_ne!(first, second);
    assert_eq!(secret.sent.0 .0, 2);

    // The second message does not open where the first is expected.
    let r = sessions.open_request(&id, second.as_bytes());
    assert!(matches!(r, Err(ChannelError::AuthenticationFailure)));
    assert_eq!(sessions.open_request(&id, first.as_bytes()).ok().unwrap(), b"same text".to_vec());
    assert_eq!(sessions.open_request(&id, second.as_bytes()).ok().unwrap(), b"same text".to_vec());
    // A replay of the first message is refused.
    let r = sessions.open_request(&id, first.as_bytes());
    assert!(matches!(r, Err(ChannelError::AuthenticationFailure)));
}

#[test]
fn unknown_client_is_unauthorized() {
    let rng = SystemRandom::new();
    let mut sessions = Sessions::new();
    let stranger = new_client(&rng);
    let r = sessions.open_request(&id_of(&stranger), b"AAAA");
    assert!(matches!(r, Err(ChannelError::NotFound)));
    assert_eq!(ChannelError::NotFound.status(), 401);
    let r = sessions.seal_response(&id_of(&stranger), b"x".to_vec());
    assert!(matches!(r, Err(ChannelError::NotFound)));
    assert!(matches!(session_from_record(None), Err(ChannelError::NotFound)));
}

#[test]
fn second_handshake_replaces_first() {
    let rng = SystemRandom::new();
    let config = server_config(&rng);
    let mut sessions = Sessions::new();
    let client = new_client(&rng);
    let mut old_secret = handshake(&mut sessions, &config, &client, &rng);
    let mut new_secret = handshake(&mut sessions, &config, &client, &rng);
    assert_eq!(sessions.len(), 1);
    let id = id_of(&client);

    let stale = seal_for_server(&mut old_secret, b"old");
    assert!(matches!(sessions.open_request(&id, stale.as_bytes()), Err(ChannelError::AuthenticationFailure)));
    let fresh = seal_for_server(&mut new_secret, b"new");
    assert_eq!(sessions.open_request(&id, fresh.as_bytes()).ok().unwrap(), b"new".to_vec());
}

#[test]
fn server_reply_is_signed_by_published_key() {
    let rng = SystemRandom::new();
    let config = server_config(&rng);
    let client = new_client(&rng);
    let (_, ephemeral, signature) = client_request(&client, &rng);
    let credential = public_key(Some(client.header.as_bytes())).ok().unwrap();
    let request = PublicKeyExchangeMessage::from_base64(
        base64::encode(&ephemeral).as_bytes(),
        base64::encode(&signature).as_bytes(),
    )
    .ok()
    .unwrap();
    let established = create_session(&config, credential, &request).ok().unwrap();
    let (ephemeral_b64, signature_b64) = established.response.to_base64();
    let server_ephemeral = base64::decode(ephemeral_b64).unwrap();
    let server_signature = base64::decode(signature_b64).unwrap();
    assert_eq!(server_ephemeral.len(), 65);

    let published = base64::decode(config.public_key_base64()).unwrap();
    assert_eq!(published, config.public_key().to_vec());
    ring::signature::UnparsedPublicKey::new(&ECDSA_P256_SHA256_FIXED, &published)
        .verify(&server_ephemeral, &server_signature)
        .unwrap();
    assert_eq!(established.client_id.as_str(), client.header.as_str());
    assert_eq!(established.secret.key.len(), 16);
}

#[test]
fn missing_or_malformed_credential() {
    assert!(matches!(public_key(None), Err(HandshakeError::MissingCredential)));
    assert!(matches!(public_key(Some(b"not base64!")), Err(HandshakeError::MissingCredential)));
    assert!(matches!(client_id(None), Err(ChannelError::MissingCredential)));
    assert_eq!(HandshakeError::MissingCredential.status(), 401);
    let c = public_key(Some(b"QUI")).ok().unwrap();
    assert_eq!(c.public_key, b"AB".to_vec());
    assert_eq!(c.client_id.as_str(), "QUI=");
}

#[test]
fn malformed_request_body() {
    let r = PublicKeyExchangeMessage::from_base64(b"@@@", b"QUI=");
    assert!(matches!(r, Err(HandshakeError::MalformedRequest)));
    let r = PublicKeyExchangeMessage::from_base64(b"QUI=", b"***");
    assert!(matches!(r, Err(HandshakeError::MalformedRequest)));
    assert_eq!(HandshakeError::MalformedRequest.status(), 400);
}

#[test]
fn invalid_peer_key_is_rejected() {
    let rng = SystemRandom::new();
    let config = server_config(&rng);
    let mut sessions = Sessions::new();
    let client = new_client(&rng);
    let not_a_point = vec![4u8; 65];
    let signature = client.signing.sign(&rng, &not_a_point).unwrap().as_ref().to_vec();
    let credential = public_key(Some(client.header.as_bytes())).ok().unwrap();
    let request = PublicKeyExchangeMessage { ephemeral_public_key: not_a_point, signature };
    let r = sessions.establish(&config, credential, &request);
    assert!(matches!(r, Err(HandshakeError::InvalidPeerKey)));
    assert_eq!(HandshakeError::InvalidPeerKey.status(), 400);
    assert_eq!(sessions.len(), 0);
}

#[test]
fn malformed_envelope_is_bad_request() {
    let rng = SystemRandom::new();
    let config = server_config(&rng);
    let mut sessions = Sessions::new();
    let client = new_client(&rng);
    let _secret = handshake(&mut sessions, &config, &client, &rng);
    let r = sessions.open_request(&id_of(&client), b"%%% not base64");
    assert!(matches!(r, Err(ChannelError::MalformedEnvelope)));
    assert_eq!(ChannelError::MalformedEnvelope.status(), 400);
}

#[test]
fn config_errors() {
    assert!(matches!(ConfigBuilder::new().build(), Err(ConfigError::MissingKeyPair)));
    let r = ConfigBuilder::new().key_pair_pkcs8(vec![1, 2, 3]).build();
    assert!(matches!(r, Err(ConfigError::InvalidKeyPair)));
}

#[test]
fn config_keeps_salt_and_key() {
    let rng = SystemRandom::new();
    let pkcs8 = identity_pkcs8(&rng);
    let expected = EcdsaKeyPair::from_pkcs8(&ECDSA_P256_SHA256_FIXED_SIGNING, &pkcs8).unwrap();
    let config = ConfigBuilder::new().hkdf_salt(b"s".to_vec()).key_pair_pkcs8(pkcs8).build().ok().unwrap();
    assert_eq!(config.hkdf_salt(), b"s");
    assert_eq!(config.public_key(), expected.public_key().as_ref());
    assert_eq!(ecdh_backend::error::HandshakeError::SigningError.status(), 500);
}

#[test]
fn ephemeral_key_pairs_are_fresh() {
    let rng = SystemRandom::new();
    let (_, a) = create_ephemeral_key_pair(&rng).unwrap();
    let (_, b) = create_ephemeral_key_pair(&rng).unwrap();
    assert_eq!(a.len(), 65);
    assert_eq!(a[0], 4);
    assert_ne!(a, b);
}

#[test]
fn shared_secret_rejects_invalid_point() {
    let rng = SystemRandom::new();
    let (private_key, _) = create_ephemeral_key_pair(&rng).unwrap();
    let r = create_shared_secret(private_key, &[0u8; 65], SALT, Direction::ServerToClient);
    assert!(matches!(r, Err(HandshakeError::InvalidPeerKey)));
}
