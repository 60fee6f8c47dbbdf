//! Authenticated key exchange and AEAD secure channel between clients that
//! identify themselves by an ECDSA P-256 key and this server.

pub mod counter;
pub mod crypto;
pub mod encoding;
pub mod error;
pub mod secret;
pub mod store;
pub mod config;
pub mod handshake;
pub mod channel;
