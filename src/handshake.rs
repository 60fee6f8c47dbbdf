//! The handshake: the client proves control of its identity key by signing
//! an ephemeral ECDH key; the server answers with its own ephemeral key signed
//! by the server identity, and both derive the session key from the
//! agreement.
use vstd::prelude::*;
use crate::config::Config;
use crate::counter::Direction;
use crate::crypto::{
    ecdsa_p256_accepts, ecdsa_sign, ecdsa_verify, create_ephemeral_key_pair, hkdf_session_key, p256_peer_point_valid,
    PUBLIC_KEY_LEN,
    SHARED_SECRET_LEN,
};
use crate::encoding::{base64_bytes, base64_decode, base64_encode, base64_text};
use crate::error::HandshakeError;
use crate::secret::{record_of, SharedSecret, SharedSecretMaterial};
use crate::store::{KeyStoreKey, Sessions};

verus! {

/// The client identifier that the identity header `header` stands for: the
/// base64 text of the key bytes it decodes to, whatever text the client sent.
pub open spec fn client_id_of_header(header: Seq<u8>) -> Option<Seq<char>> {
    match base64_bytes(header) {
        Some(b) => Some(base64_text(b)),
        None => None,
    }
}

/// The client's claimed identity.
pub struct ClientCredential {
    pub client_id: KeyStoreKey,
    pub public_key: Vec<u8>,
}

/// An ephemeral public key and a signature over it, in either direction.
pub struct PublicKeyExchangeMessage {
    pub ephemeral_public_key: Vec<u8>,
    pub signature: Vec<u8>,
}

/// The outcome of a successful handshake, not yet stored.
pub struct Established {
    pub client_id: KeyStoreKey,
    pub secret: SharedSecret,
    pub response: PublicKeyExchangeMessage,
}

/// Reads the client's identity from the value of its identity header;
/// `MissingCredential` when there is no header or it is not base64. The
/// identifier is the key bytes encoded afresh.
pub fn public_key(header: Option<&[u8]>) -> (r: Result<ClientCredential, HandshakeError>)
    ensures
        header is None ==> r == Err::<ClientCredential, HandshakeError>(HandshakeError::MissingCredential),
        header matches Some(h) ==> (base64_bytes(h@) is None ==> r == Err::<ClientCredential, HandshakeError>(
            HandshakeError::MissingCredential,
        )),
        header matches Some(h) ==> (base64_bytes(h@) matches Some(b) ==> (r matches Ok(c) && c.public_key@ == b
            && client_id_of_header(h@) == Some(c.client_id.0@))),
{
    match header {
        None => Err(HandshakeError::MissingCredential),
        Some(h) => match base64_decode(h) {
            None => Err(HandshakeError::MissingCredential),
            Some(key_bytes) => {
                let client_id = KeyStoreKey::new(base64_encode(key_bytes.as_slice()));
                Ok(ClientCredential { client_id, public_key: key_bytes })
            },
        },
    }
}

impl PublicKeyExchangeMessage {
    /// Decodes the two base64 fields of a request body; `MalformedRequest`
    /// when either is not base64.
    pub fn from_base64(ephemeral_public_key: &[u8], signature: &[u8]) -> (r: Result<
        PublicKeyExchangeMessage,
        HandshakeError,
    >)
        ensures
            base64_bytes(ephemeral_public_key@) is None || base64_bytes(signature@) is None ==> r == Err::<
                PublicKeyExchangeMessage,
                HandshakeError,
            >(HandshakeError::MalformedRequest),
            base64_bytes(ephemeral_public_key@) matches Some(e) ==> (base64_bytes(signature@) matches Some(s) ==> (
            r matches Ok(m) && m.ephemeral_public_key@ == e && m.signature@ == s)),
    {
        match (base64_decode(ephemeral_public_key), base64_decode(signature)) {
            (Some(e), Some(s)) => Ok(PublicKeyExchangeMessage { ephemeral_public_key: e, signature: s }),
            _ => Err(HandshakeError::MalformedRequest),
        }
    }

    /// The two fields as base64 text: ephemeral key, then signature.
    pub fn to_base64(&self) -> (r: (String, String))
        ensures
            r.0@ == base64_text(self.ephemeral_public_key@),
            r.1@ == base64_text(self.signature@),
    {
        (base64_encode(self.ephemeral_public_key.as_slice()), base64_encode(self.signature.as_slice()))
    }
}

/// Completes a handshake from the outcomes of the ECDH agreement and of
/// signing the server's ephemeral key: an agreement error is returned as it
/// is, a failed signature is `SigningError`, and otherwise the session key is
/// derived from the agreement under `hkdf_salt`.
pub fn finish_handshake(
    client_id: KeyStoreKey,
    hkdf_salt: &[u8],
    material: Result<SharedSecretMaterial, HandshakeError>,
    server_ephemeral_public_key: Vec<u8>,
    signature: Option<Vec<u8>>,
) -> (r: Result<Established, HandshakeError>)
    ensures
        material matches Err(e) ==> r == Err::<Established, HandshakeError>(e),
        material is Ok && signature is None ==> r == Err::<Established, HandshakeError>(HandshakeError::SigningError),
        material matches Ok(m) ==> (signature matches Some(s) ==> (r matches Ok(e) && e.client_id.0@
            == client_id.0@ && e.secret.wf() && e.secret.key@ == hkdf_session_key(hkdf_salt@, m.0@)
            && e.secret.outbound == Direction::ServerToClient && e.secret.sent.0.0 == 0
            && e.secret.received.0.0 == 0 && e.response.ephemeral_public_key@ == server_ephemeral_public_key@
            && e.response.signature@ == s@)),
{
    let material = match material {
        Ok(m) => m,
        Err(e) => return Err(e),
    };
    let signature = match signature {
        Some(s) => s,
        None => return Err(HandshakeError::SigningError),
    };
    let secret = SharedSecret::new(&material, hkdf_salt, Direction::ServerToClient);
    Ok(
        Established {
            client_id,
            secret,
            response: PublicKeyExchangeMessage { ephemeral_public_key: server_ephemeral_public_key, signature },
        },
    )
}

/// Runs the server's side of a handshake: checks the client's signature
/// over its ephemeral key, draws a fresh ephemeral key pair, agrees on the
/// shared secret, derives the session key and signs the server's ephemeral
/// public key with the server identity. Nothing is stored.
pub fn create_session(config: &Config, credential: ClientCredential, request: &PublicKeyExchangeMessage) -> (r:
    Result<Established, HandshakeError>)
    ensures
        !ecdsa_p256_accepts(credential.public_key@, request.ephemeral_public_key@, request.signature@) ==> r
            == Err::<Established, HandshakeError>(HandshakeError::BadSignature),
        r matches Err(e) ==> (e == HandshakeError::BadSignature <==> !ecdsa_p256_accepts(
            credential.public_key@,
            request.ephemeral_public_key@,
            request.signature@,
        )),
        r matches Err(e) ==> e == HandshakeError::BadSignature || e == HandshakeError::InvalidPeerKey || e
            == HandshakeError::KeyGenerationError || e == HandshakeError::SigningError,
        r matches Err(e) ==> (e == HandshakeError::InvalidPeerKey ==> !p256_peer_point_valid(
            request.ephemeral_public_key@,
        )),
        ecdsa_p256_accepts(credential.public_key@, request.ephemeral_public_key@, request.signature@)
            && !p256_peer_point_valid(request.ephemeral_public_key@) ==> (r == Err::<Established, HandshakeError>(
            HandshakeError::InvalidPeerKey,
        ) || r == Err::<Established, HandshakeError>(HandshakeError::KeyGenerationError)),
        r matches Ok(e) ==> ecdsa_p256_accepts(
            config.public_key_spec(),
            e.response.ephemeral_public_key@,
            e.response.signature@,
        ) && p256_peer_point_valid(request.ephemeral_public_key@),
        r matches Ok(e) ==> e.client_id.0@ == credential.client_id.0@ && e.secret.wf()
            && e.secret.outbound == Direction::ServerToClient && e.secret.sent.0.0 == 0
            && e.secret.received.0.0 == 0 && e.response.ephemeral_public_key@.len() == PUBLIC_KEY_LEN
            && exists|m: Seq<u8>|
            m.len() == SHARED_SECRET_LEN && e.secret.key@ == hkdf_session_key(config.hkdf_salt_spec(), m),
{
    if !ecdsa_verify(
        credential.public_key.as_slice(),
        request.ephemeral_public_key.as_slice(),
        request.signature.as_slice(),
    ) {
        return Err(HandshakeError::BadSignature);
    }
    let (ephemeral_private_key, ephemeral_public_key) = match create_ephemeral_key_pair(config.rng()) {
        Some(pair) => pair,
        None => return Err(HandshakeError::KeyGenerationError),
    };
    let material = SharedSecretMaterial::create(ephemeral_private_key, request.ephemeral_public_key.as_slice());
    let signature = match material {
        Ok(_) => ecdsa_sign(config.key_pair_pkcs8(), config.rng(), ephemeral_public_key.as_slice()),
        Err(_) => None,
    };
    let ghost m = match material {
        Ok(ref m) => m.0@,
        Err(_) => Seq::empty(),
    };
    let r = finish_handshake(credential.client_id, config.hkdf_salt(), material, ephemeral_public_key, signature);
    proof {
        if r is Ok {
            assert(m.len() == SHARED_SECRET_LEN);
        }
    }
    r
}

impl Sessions {
    /// Runs a handshake and, only when it succeeds, stores the new session
    /// for the client, replacing any earlier one. Returns the message for the
    /// client.
    pub fn establish(&mut self, config: &Config, credential: ClientCredential, request: &PublicKeyExchangeMessage) -> (r:
        Result<PublicKeyExchangeMessage, HandshakeError>)
        requires
            old(self).wf(),
        ensures
            final(self).wf(),
            !ecdsa_p256_accepts(credential.public_key@, request.ephemeral_public_key@, request.signature@) ==> r
                == Err::<PublicKeyExchangeMessage, HandshakeError>(HandshakeError::BadSignature),
            r matches Err(e) ==> (e == HandshakeError::BadSignature <==> !ecdsa_p256_accepts(
                credential.public_key@,
                request.ephemeral_public_key@,
                request.signature@,
            )),
            r matches Err(e) ==> (e == HandshakeError::InvalidPeerKey ==> !p256_peer_point_valid(
                request.ephemeral_public_key@,
            )),
            ecdsa_p256_accepts(credential.public_key@, request.ephemeral_public_key@, request.signature@)
                && !p256_peer_point_valid(request.ephemeral_public_key@) ==> (r == Err::<
                PublicKeyExchangeMessage,
                HandshakeError,
            >(HandshakeError::InvalidPeerKey) || r == Err::<PublicKeyExchangeMessage, HandshakeError>(
                HandshakeError::KeyGenerationError,
            )),
            r is Err ==> final(self)@ == old(self)@,
            r matches Ok(msg) ==> msg.ephemeral_public_key@.len() == PUBLIC_KEY_LEN,
            r matches Ok(msg) ==> ecdsa_p256_accepts(
                config.public_key_spec(),
                msg.ephemeral_public_key@,
                msg.signature@,
            ),
            r is Ok ==> exists|m: Seq<u8>|
                m.len() == SHARED_SECRET_LEN && final(self)@ == old(self)@.insert(
                    credential.client_id.0@,
                    record_of(hkdf_session_key(config.hkdf_salt_spec(), m), 0, 0),
                ),
    {
        match create_session(config, credential, request) {
            Err(e) => Err(e),
            Ok(established) => {
                let record = established.secret.to_record();
                self.set(&established.client_id, record);
                Ok(established.response)
            },
        }
    }
}

/// The identifier does not depend on how the key bytes were written: two
/// header values that decode to the same bytes name the same client.
pub proof fn lemma_client_id_normalized(header_a: Seq<u8>, header_b: Seq<u8>)
    requires
        base64_bytes(header_a) is Some,
        base64_bytes(header_a) == base64_bytes(header_b),
    ensures
        client_id_of_header(header_a) is Some,
        client_id_of_header(header_a) == client_id_of_header(header_b),
{
}

/// After two successful handshakes of one client the store holds one record
/// for it, the second, and nothing else has changed.
pub proof fn lemma_last_handshake_wins(
    before: Map<Seq<char>, Seq<u8>>,
    id: Seq<char>,
    first: Seq<u8>,
    second: Seq<u8>,
)
    ensures
        before.insert(id, first).insert(id, second) == before.insert(id, second),
        before.insert(id, first).insert(id, second)[id] == second,
        before.insert(id, first).insert(id, second).dom() == before.dom().insert(id),
{
    assert(before.insert(id, first).insert(id, second) =~= before.insert(id, second));
    assert(before.insert(id, first).insert(id, second).dom() =~= before.dom().insert(id));
}

} // verus!
