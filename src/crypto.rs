//! The fixed suite of primitives every session uses: ECDH over P-256 for key
//! agreement, HKDF-SHA256 for key derivation, AES-128-GCM for the channel and
//! ECDSA P-256 with SHA-256 (fixed-width signatures) for identities. All of
//! them come from `ring`; this module states what each call is relied on for.
use vstd::prelude::*;

verus! {

/// Length in bytes of an AES-128-GCM key.
pub const KEY_LEN: usize = 16;

/// Length in bytes of the AES-128-GCM authentication tag.
pub const TAG_LEN: usize = 16;

/// Length in bytes of an uncompressed P-256 public point.
pub const PUBLIC_KEY_LEN: usize = 65;

/// Length in bytes of a P-256 ECDH shared secret.
pub const SHARED_SECRET_LEN: usize = 32;

/// Largest plaintext that AES-GCM seals under one nonce: (2^32 - 2) blocks of 16 bytes.
pub const MAX_SEAL_LEN: u64 = 68719476704;

#[verifier::external_type_specification]
#[verifier::external_body]
pub struct ExSystemRandom(ring::rand::SystemRandom);

#[verifier::external_type_specification]
#[verifier::external_body]
pub struct ExEphemeralPrivateKey(ring::agreement::EphemeralPrivateKey);

#[verifier::external_type_specification]
#[verifier::external_body]
pub struct ExEcdsaKeyPair(ring::signature::EcdsaKeyPair);

/// AES-128-GCM sealing of `plaintext` under `key` and `nonce`, with empty
/// associated data: the ciphertext followed by the tag.
pub uninterp spec fn aes_gcm_sealed(key: Seq<u8>, nonce: Seq<u8>, plaintext: Seq<u8>) -> Seq<u8>;

/// AES-128-GCM opening of `sealed` under `key` and `nonce`, with empty
/// associated data: the plaintext, or `None` when the tag does not verify.
pub uninterp spec fn aes_gcm_opened(key: Seq<u8>, nonce: Seq<u8>, sealed: Seq<u8>) -> Option<Seq<u8>>;

/// HKDF-SHA256 extract with `salt` over `ikm`, expanded with empty info to an
/// AES-128-GCM key.
pub uninterp spec fn hkdf_session_key(salt: Seq<u8>, ikm: Seq<u8>) -> Seq<u8>;

/// Whether `signature` is a valid fixed-width ECDSA P-256/SHA-256 signature
/// of `message` under the encoded public key `public_key`.
pub uninterp spec fn ecdsa_p256_accepts(public_key: Seq<u8>, message: Seq<u8>, signature: Seq<u8>) -> bool;

/// The public key of the P-256 signing key pair in the PKCS#8 document
/// `pkcs8`, or `None` when ring rejects the document.
pub uninterp spec fn pkcs8_public_key(pkcs8: Seq<u8>) -> Option<Seq<u8>>;

/// Whether `peer` is the encoding of a valid P-256 point other than the
/// point at infinity, as ring's ECDH_P256 agreement accepts it.
pub uninterp spec fn p256_peer_point_valid(peer: Seq<u8>) -> bool;

/// Relies on ring::rand::SystemRandom::new, the operating system's generator.
#[verifier::external_body]
pub(crate) fn system_random() -> (r: ring::rand::SystemRandom) {
    ring::rand::SystemRandom::new()
}

/// Relies on ring::aead::LessSafeKey::seal_in_place_append_tag with
/// AES_128_GCM: deterministic in key, nonce and plaintext, the output is the
/// ciphertext (as long as the plaintext) followed by a 16-byte tag, opening it
/// under the same key and nonce gives the plaintext back, and it fails only on
/// a plaintext longer than MAX_SEAL_LEN (or a key or nonce of the wrong size).
#[verifier::external_body]
pub(crate) fn aead_seal(key: &[u8], nonce: &[u8], plaintext: Vec<u8>) -> (r: Option<Vec<u8>>)
    requires
        key@.len() == KEY_LEN,
        nonce@.len() == crate::counter::NONCE_LEN,
        plaintext@.len() <= MAX_SEAL_LEN,
    ensures
        r is Some,
        r matches Some(c) ==> c@ == aes_gcm_sealed(key@, nonce@, plaintext@),
        r matches Some(c) ==> c@.len() == plaintext@.len() + TAG_LEN,
        r matches Some(c) ==> aes_gcm_opened(key@, nonce@, c@) == Some(plaintext@),
{
    let key = ring::aead::LessSafeKey::new(ring::aead::UnboundKey::new(&ring::aead::AES_128_GCM, key).ok()?);
    let nonce = ring::aead::Nonce::try_assume_unique_for_key(nonce).ok()?;
    let mut in_out = plaintext;
    key.seal_in_place_append_tag(nonce, ring::aead::Aad::empty(), &mut in_out).ok()?;
    Some(in_out)
}

/// Relies on ring::aead::LessSafeKey::open_in_place with AES_128_GCM: the
/// plaintext when the tag verifies, an error otherwise; deterministic in key,
/// nonce and input.
#[verifier::external_body]
pub(crate) fn aead_open(key: &[u8], nonce: &[u8], sealed: Vec<u8>) -> (r: Option<Vec<u8>>)
    requires
        key@.len() == KEY_LEN,
        nonce@.len() == crate::counter::NONCE_LEN,
    ensures
        r is None <==> aes_gcm_opened(key@, nonce@, sealed@) is None,
        r matches Some(p) ==> aes_gcm_opened(key@, nonce@, sealed@) == Some(p@),
{
    let key = ring::aead::LessSafeKey::new(ring::aead::UnboundKey::new(&ring::aead::AES_128_GCM, key).ok()?);
    let nonce = ring::aead::Nonce::try_assume_unique_for_key(nonce).ok()?;
    let mut in_out = sealed;
    let len = key.open_in_place(nonce, ring::aead::Aad::empty(), &mut in_out).ok()?.len();
    in_out.truncate(len);
    Some(in_out)
}

/// Relies on ring::hkdf::Salt::extract and Prk::expand with HKDF_SHA256,
/// filling an AES_128_GCM key; expand fails only for outputs longer than 255
/// digests, so a 16-byte key is always produced.
#[verifier::external_body]
pub(crate) fn hkdf_derive(salt: &[u8], ikm: &[u8]) -> (r: Option<Vec<u8>>)
    ensures
        r is Some,
        r matches Some(k) ==> k@ == hkdf_session_key(salt@, ikm@),
        r matches Some(k) ==> k@.len() == KEY_LEN,
{
    let mut key = vec![0u8; ring::aead::AES_128_GCM.key_len()];
    let prk = ring::hkdf::Salt::new(ring::hkdf::HKDF_SHA256, salt).extract(ikm);
    prk.expand(&[], &ring::aead::AES_128_GCM).ok()?.fill(&mut key).ok()?;
    Some(key)
}

/// Relies on ring::signature::UnparsedPublicKey::verify with
/// ECDSA_P256_SHA256_FIXED; the answer depends on its three inputs alone.
#[verifier::external_body]
pub(crate) fn ecdsa_verify(public_key: &[u8], message: &[u8], signature: &[u8]) -> (r: bool)
    ensures
        r == ecdsa_p256_accepts(public_key@, message@, signature@),
{
    ring::signature::UnparsedPublicKey::new(&ring::signature::ECDSA_P256_SHA256_FIXED, public_key)
        .verify(message, signature)
        .is_ok()
}

/// Relies on ring::agreement::EphemeralPrivateKey::generate and
/// compute_public_key with ECDH_P256: a fresh random key and its 65-byte
/// uncompressed public point, which starts with the byte 4.
#[verifier::external_body]
pub fn create_ephemeral_key_pair(rng: &ring::rand::SystemRandom) -> (r: Option<(ring::agreement::EphemeralPrivateKey, Vec<u8>)>)
    ensures
        r matches Some(pair) ==> pair.1@.len() == PUBLIC_KEY_LEN,
        r matches Some(pair) ==> pair.1@[0] == 4u8,
{
    let private_key = ring::agreement::EphemeralPrivateKey::generate(&ring::agreement::ECDH_P256, rng).ok()?;
    let public_key = private_key.compute_public_key().ok()?;
    Some((private_key, public_key.as_ref().to_vec()))
}

/// Relies on ring::agreement::agree_ephemeral with ECDH_P256: consumes the
/// private key and gives the 32-byte shared secret, or an error exactly when
/// the peer bytes are not a valid point (ec/suite_b/ecdh.rs checks the peer
/// point; the private scalar is always in range).
#[verifier::external_body]
pub(crate) fn ecdh_agree(private_key: ring::agreement::EphemeralPrivateKey, peer_public_key: &[u8]) -> (r: Option<Vec<u8>>)
    ensures
        r is Some <==> p256_peer_point_valid(peer_public_key@),
        r matches Some(s) ==> s@.len() == SHARED_SECRET_LEN,
{
    let peer = ring::agreement::UnparsedPublicKey::new(&ring::agreement::ECDH_P256, peer_public_key);
    ring::agreement::agree_ephemeral(private_key, &peer, (), |material| Ok(material.to_vec())).ok()
}

/// Relies on ring::signature::EcdsaKeyPair::from_pkcs8 with
/// ECDSA_P256_SHA256_FIXED_SIGNING, and the key pair's public_key: a document
/// ring cannot parse as a P-256 key pair is rejected, and the public key of an
/// accepted one depends on the document alone. (An accepted document can
/// still fail when the system random source fails.)
#[verifier::external_body]
pub(crate) fn load_key_pair(pkcs8: &[u8]) -> (r: Option<(ring::signature::EcdsaKeyPair, Vec<u8>)>)
    ensures
        pkcs8_public_key(pkcs8@) is None ==> r is None,
        r matches Some(pair) ==> pkcs8_public_key(pkcs8@) == Some(pair.1@),
{
    let key_pair = ring::signature::EcdsaKeyPair::from_pkcs8(&ring::signature::ECDSA_P256_SHA256_FIXED_SIGNING, pkcs8).ok()?;
    let public_key = ring::signature::KeyPair::public_key(&key_pair).as_ref().to_vec();
    Some((key_pair, public_key))
}

/// Relies on ring::signature::EcdsaKeyPair::from_pkcs8 with
/// ECDSA_P256_SHA256_FIXED_SIGNING and EcdsaKeyPair::sign: a randomized
/// signature of `message` by the key pair in the PKCS#8 document, which
/// verifies under that key pair's public key, or an error.
#[verifier::external_body]
pub(crate) fn ecdsa_sign(pkcs8: &[u8], rng: &ring::rand::SystemRandom, message: &[u8]) -> (r: Option<Vec<u8>>)
    ensures
        r matches Some(s) ==> (pkcs8_public_key(pkcs8@) matches Some(pk) && ecdsa_p256_accepts(pk, message@, s@)),
{
    let key_pair = ring::signature::EcdsaKeyPair::from_pkcs8(&ring::signature::ECDSA_P256_SHA256_FIXED_SIGNING, pkcs8).ok()?;
    Some(key_pair.sign(rng, message).ok()?.as_ref().to_vec())
}

} // verus!
