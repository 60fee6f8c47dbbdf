//! The server's identity and process-wide secrets: its ECDSA signing key
//! pair, the HKDF salt, and the random source.
use vstd::prelude::*;
use crate::crypto::{load_key_pair, pkcs8_public_key, system_random};
use crate::encoding::{base64_encode, base64_text};
use crate::error::ConfigError;

verus! {

/// Collects the secrets a `Config` is built from.
pub struct ConfigBuilder {
    pub key_pair_pkcs8: Option<Vec<u8>>,
    pub hkdf_salt: Vec<u8>,
}

/// The server's loaded identity, read-only after start-up.
pub struct Config {
    key_pair: ring::signature::EcdsaKeyPair,
    key_pair_pkcs8: Vec<u8>,
    public_key: Vec<u8>,
    hkdf_salt: Vec<u8>,
    rng: ring::rand::SystemRandom,
}

impl ConfigBuilder {
    /// A builder with no key pair and an empty salt.
    pub fn new() -> (r: ConfigBuilder)
        ensures
            r.key_pair_pkcs8 is None,
            r.hkdf_salt@.len() == 0,
    {
        ConfigBuilder { key_pair_pkcs8: None, hkdf_salt: Vec::new() }
    }

    /// Sets the PKCS#8 document of the signing key pair.
    pub fn key_pair_pkcs8(self, key_pair_pkcs8: Vec<u8>) -> (r: ConfigBuilder)
        ensures
            r.key_pair_pkcs8 matches Some(k) && k@ == key_pair_pkcs8@,
            r.hkdf_salt@ == self.hkdf_salt@,
    {
        ConfigBuilder { key_pair_pkcs8: Some(key_pair_pkcs8), hkdf_salt: self.hkdf_salt }
    }

    /// Sets the server-wide HKDF salt.
    pub fn hkdf_salt(self, hkdf_salt: Vec<u8>) -> (r: ConfigBuilder)
        ensures
            r.hkdf_salt@ == hkdf_salt@,
            r.key_pair_pkcs8 == self.key_pair_pkcs8,
    {
        ConfigBuilder { key_pair_pkcs8: self.key_pair_pkcs8, hkdf_salt }
    }

    /// Loads the key pair: `MissingKeyPair` when none was given,
    /// `InvalidKeyPair` when ring rejects the document.
    pub fn build(self) -> (r: Result<Config, ConfigError>)
        ensures
            self.key_pair_pkcs8 is None ==> r == Err::<Config, ConfigError>(ConfigError::MissingKeyPair),
            self.key_pair_pkcs8 matches Some(k) ==> (pkcs8_public_key(k@) is None ==> r == Err::<Config, ConfigError>(
                ConfigError::InvalidKeyPair,
            )),
            self.key_pair_pkcs8 is Some ==> r != Err::<Config, ConfigError>(ConfigError::MissingKeyPair),
            r matches Ok(c) ==> (self.key_pair_pkcs8 matches Some(k) && pkcs8_public_key(k@) == Some(
                c.public_key_spec(),
            ) && c.hkdf_salt_spec() == self.hkdf_salt@),
    {
        match self.key_pair_pkcs8 {
            None => Err(ConfigError::MissingKeyPair),
            Some(pkcs8) => match load_key_pair(pkcs8.as_slice()) {
                None => Err(ConfigError::InvalidKeyPair),
                Some((key_pair, public_key)) => Ok(
                    Config {
                        key_pair,
                        key_pair_pkcs8: pkcs8,
                        public_key,
                        hkdf_salt: self.hkdf_salt,
                        rng: system_random(),
                    },
                ),
            },
        }
    }
}

impl Config {
    /// The published public key is the one of the loaded key pair.
    #[verifier::type_invariant]
    spec fn inv(&self) -> bool {
        pkcs8_public_key(self.key_pair_pkcs8@) == Some(self.public_key@)
    }

    /// The PKCS#8 document of the server's signing key pair.
    pub closed spec fn key_pair_pkcs8_spec(&self) -> Seq<u8> {
        self.key_pair_pkcs8@
    }

    /// The document the key pair was loaded from; its public key is the
    /// published one.
    pub(crate) fn key_pair_pkcs8(&self) -> (r: &[u8])
        ensures
            r@ == self.key_pair_pkcs8_spec(),
            pkcs8_public_key(r@) == Some(self.public_key_spec()),
    {
        proof {
            use_type_invariant(self);
        }
        self.key_pair_pkcs8.as_slice()
    }

    /// The encoded public key of the server's signing key pair.
    pub closed spec fn public_key_spec(&self) -> Seq<u8> {
        self.public_key@
    }

    /// The server-wide HKDF salt.
    pub closed spec fn hkdf_salt_spec(&self) -> Seq<u8> {
        self.hkdf_salt@
    }

    pub fn key_pair(&self) -> &ring::signature::EcdsaKeyPair {
        &self.key_pair
    }

    pub fn public_key(&self) -> (r: &[u8])
        ensures
            r@ == self.public_key_spec(),
    {
        self.public_key.as_slice()
    }

    /// The public key as published by the info endpoint.
    pub fn public_key_base64(&self) -> (r: String)
        ensures
            r@ == base64_text(self.public_key_spec()),
    {
        base64_encode(self.public_key.as_slice())
    }

    pub fn hkdf_salt(&self) -> (r: &[u8])
        ensures
            r@ == self.hkdf_salt_spec(),
    {
        self.hkdf_salt.as_slice()
    }

    pub fn rng(&self) -> &ring::rand::SystemRandom {
        &self.rng
    }
}

} // verus!
