//! Closed error kinds of the handshake, the channel and the configuration,
//! and the HTTP status each one is reported with.
use vstd::prelude::*;

verus! {

/// Why a handshake was rejected.
#[derive(Clone, Copy, Debug, PartialEq, Eq, Structural)]
pub enum HandshakeError {
    /// The identity header is absent or is not base64.
    MissingCredential,
    /// The body's fields are not base64.
    MalformedRequest,
    /// The signature over the client's ephemeral key does not verify.
    BadSignature,
    /// The client's ephemeral key is not a point on the curve.
    InvalidPeerKey,
    /// The server could not draw its own ephemeral key.
    KeyGenerationError,
    /// The server's identity could not sign.
    SigningError,
}

/// Why a request on an established channel was refused.
#[derive(Clone, Copy, Debug, PartialEq, Eq, Structural)]
pub enum ChannelError {
    /// The identity header is absent or is not base64.
    MissingCredential,
    /// No session was ever established for the client.
    NotFound,
    /// The session store could not be reached.
    StoreUnavailable,
    /// The stored session record is not one this library wrote.
    MalformedRecord,
    /// The body is not base64.
    MalformedEnvelope,
    /// The tag does not verify under the session key and expected nonce.
    AuthenticationFailure,
    /// The session's nonce counter is used up; a new handshake is needed.
    NonceExhausted,
    /// The plaintext is longer than one AEAD call can seal.
    MessageTooLong,
}

/// Why the server configuration could not be built.
#[derive(Clone, Copy, Debug, PartialEq, Eq, Structural)]
pub enum ConfigError {
    MissingKeyPair,
    InvalidKeyPair,
}

impl HandshakeError {
    /// 401 for failed credentials, 400 for malformed input, 500 for faults of
    /// the server's own.
    pub open spec fn status_spec(self) -> u16 {
        match self {
            HandshakeError::MissingCredential => 401,
            HandshakeError::BadSignature => 401,
            HandshakeError::MalformedRequest => 400,
            HandshakeError::InvalidPeerKey => 400,
            HandshakeError::KeyGenerationError => 500,
            HandshakeError::SigningError => 500,
        }
    }

    /// The HTTP status that reports this error.
    pub fn status(&self) -> (r: u16)
        ensures
            r == self.status_spec(),
    {
        match self {
            HandshakeError::MissingCredential => 401,
            HandshakeError::BadSignature => 401,
            HandshakeError::MalformedRequest => 400,
            HandshakeError::InvalidPeerKey => 400,
            HandshakeError::KeyGenerationError => 500,
            HandshakeError::SigningError => 500,
        }
    }
}

impl ChannelError {
    /// 400 for an envelope or plaintext that cannot be handled, 401 for every
    /// failure that concerns the client's session, without telling them apart.
    pub open spec fn status_spec(self) -> u16 {
        match self {
            ChannelError::MalformedEnvelope => 400,
            ChannelError::MessageTooLong => 400,
            _ => 401,
        }
    }

    /// The HTTP status that reports this error.
    pub fn status(&self) -> (r: u16)
        ensures
            r == self.status_spec(),
    {
        match self {
            ChannelError::MalformedEnvelope => 400,
            ChannelError::MessageTooLong => 400,
            _ => 401,
        }
    }
}

} // verus!
