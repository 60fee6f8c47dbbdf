//! Session key material: the raw ECDH output, the session key derived from
//! it, and the secure channel that seals and opens messages under that key.
use vstd::prelude::*;
use crate::counter::{lemma_nonce_unique, le_byte, nonce_of, Direction, MonotonicCounter};
use crate::crypto::{
    aead_open, aead_seal, aes_gcm_opened, aes_gcm_sealed, ecdh_agree, hkdf_derive, hkdf_session_key,
    p256_peer_point_valid, KEY_LEN, TAG_LEN, MAX_SEAL_LEN, SHARED_SECRET_LEN,
};
use crate::error::{ChannelError, HandshakeError};

verus! {

/// Length in bytes of a stored session record.
pub const RECORD_LEN: usize = 32;

/// The eight little-endian bytes of `n`.
pub open spec fn le_bytes(n: u64) -> Seq<u8> {
    Seq::new(8, |i: int| le_byte(n, i as u64))
}

/// The number whose little-endian bytes are the first eight of `s`.
pub open spec fn u64_from_le(s: Seq<u8>) -> u64 {
    (s[0] as u64) | ((s[1] as u64) << 8u64) | ((s[2] as u64) << 16u64) | ((s[3] as u64) << 24u64)
        | ((s[4] as u64) << 32u64) | ((s[5] as u64) << 40u64) | ((s[6] as u64) << 48u64)
        | ((s[7] as u64) << 56u64)
}

/// The stored form of a session: the key, then the counters of sent and of
/// received messages, each in little-endian order.
pub open spec fn record_of(key: Seq<u8>, sent: u64, received: u64) -> Seq<u8> {
    key + le_bytes(sent) + le_bytes(received)
}

proof fn lemma_le_bytes_encode(s: Seq<u8>)
    requires
        s.len() == 8,
    ensures
        le_bytes(u64_from_le(s)) == s,
{
    let (b0, b1, b2, b3, b4, b5, b6, b7) = (s[0], s[1], s[2], s[3], s[4], s[5], s[6], s[7]);
    let v = u64_from_le(s);
    assert(v == (b0 as u64) | ((b1 as u64) << 8u64) | ((b2 as u64) << 16u64) | ((b3 as u64) << 24u64)
        | ((b4 as u64) << 32u64) | ((b5 as u64) << 40u64) | ((b6 as u64) << 48u64) | ((b7 as u64) << 56u64));
    assert(v == (b0 as u64) | ((b1 as u64) << 8u64) | ((b2 as u64) << 16u64) | ((b3 as u64) << 24u64)
        | ((b4 as u64) << 32u64) | ((b5 as u64) << 40u64) | ((b6 as u64) << 48u64) | ((b7 as u64) << 56u64)
        ==> ((v >> 0u64) & 0xffu64) as u8 == b0 && ((v >> 8u64) & 0xffu64) as u8 == b1
            && ((v >> 16u64) & 0xffu64) as u8 == b2 && ((v >> 24u64) & 0xffu64) as u8 == b3
            && ((v >> 32u64) & 0xffu64) as u8 == b4 && ((v >> 40u64) & 0xffu64) as u8 == b5
            && ((v >> 48u64) & 0xffu64) as u8 == b6 && ((v >> 56u64) & 0xffu64) as u8 == b7) by (bit_vector);
    assert(le_bytes(v) =~= s);
}

fn push_le_bytes(out: &mut Vec<u8>, n: u64)
    ensures
        final(out)@ == old(out)@ + le_bytes(n),
{
    let ghost start = out@;
    let mut i: u64 = 0;
    while i < 8
        invariant
            i <= 8,
            out@ == start + le_bytes(n).subrange(0, i as int),
        decreases 8 - i,
    {
        out.push(((n >> (8 * i)) & 0xffu64) as u8);
        i = i + 1;
        assert(out@ =~= start + le_bytes(n).subrange(0, i as int));
    }
    assert(out@ =~= start + le_bytes(n));
}

fn read_le_u64(b: &[u8], start: usize) -> (r: u64)
    requires
        start + 8 <= b@.len(),
    ensures
        r == u64_from_le(b@.subrange(start as int, start + 8)),
{
    (b[start] as u64) | ((b[start + 1] as u64) << 8u64) | ((b[start + 2] as u64) << 16u64)
        | ((b[start + 3] as u64) << 24u64) | ((b[start + 4] as u64) << 32u64)
        | ((b[start + 5] as u64) << 40u64) | ((b[start + 6] as u64) << 48u64)
        | ((b[start + 7] as u64) << 56u64)
}

pub(crate) fn copy_bytes(b: &[u8]) -> (r: Vec<u8>)
    ensures
        r@ == b@,
{
    let mut r: Vec<u8> = Vec::new();
    let mut i: usize = 0;
    while i < b.len()
        invariant
            i <= b@.len(),
            r@ == b@.subrange(0, i as int),
        decreases b@.len() - i,
    {
        r.push(b[i]);
        i = i + 1;
    }
    assert(r@ =~= b@);
    r
}

/// Raw output of one ECDH agreement.
pub struct SharedSecretMaterial(pub Vec<u8>);

impl SharedSecretMaterial {
    pub fn new(bytes: Vec<u8>) -> (r: SharedSecretMaterial)
        ensures
            r.0@ == bytes@,
    {
        SharedSecretMaterial(bytes)
    }

    /// Agrees with the peer's public point, consuming the ephemeral private
    /// key; `InvalidPeerKey` exactly when the peer's bytes are not a valid point.
    pub fn create(private_key: ring::agreement::EphemeralPrivateKey, peer_public_key: &[u8]) -> (r: Result<
        SharedSecretMaterial,
        HandshakeError,
    >)
        ensures
            r is Ok <==> p256_peer_point_valid(peer_public_key@),
            r matches Err(e) ==> e == HandshakeError::InvalidPeerKey,
            r matches Ok(m) ==> m.0@.len() == SHARED_SECRET_LEN,
    {
        match ecdh_agree(private_key, peer_public_key) {
            Some(material) => Ok(SharedSecretMaterial(material)),
            None => Err(HandshakeError::InvalidPeerKey),
        }
    }

    pub fn as_bytes(&self) -> (r: &[u8])
        ensures
            r@ == self.0@,
    {
        self.0.as_slice()
    }
}

/// A session key with the state of its two nonce sequences: messages this
/// side seals travel in direction `outbound`, messages it opens in the other.
pub struct SharedSecret {
    pub key: Vec<u8>,
    pub outbound: Direction,
    pub sent: MonotonicCounter,
    pub received: MonotonicCounter,
}

impl SharedSecret {
    pub open spec fn wf(&self) -> bool {
        self.key@.len() == KEY_LEN
    }

    /// The nonce that the next sealed message uses.
    pub open spec fn next_seal_nonce(&self) -> Seq<u8> {
        nonce_of(self.sent.0.0, self.outbound)
    }

    /// The nonce that the next message to open must have been sealed with.
    pub open spec fn next_open_nonce(&self) -> Seq<u8> {
        nonce_of(self.received.0.0, self.outbound.reverse_spec())
    }

    /// This session as it is stored.
    pub open spec fn record(&self) -> Seq<u8> {
        record_of(self.key@, self.sent.0.0, self.received.0.0)
    }

    /// Derives the session key from ECDH output with HKDF-SHA256 under
    /// `hkdf_salt`; both nonce sequences start at zero.
    pub fn new(material: &SharedSecretMaterial, hkdf_salt: &[u8], outbound: Direction) -> (r: SharedSecret)
        ensures
            r.wf(),
            r.key@ == hkdf_session_key(hkdf_salt@, material.0@),
            r.outbound == outbound,
            r.sent.0.0 == 0,
            r.received.0.0 == 0,
    {
        let key = match hkdf_derive(hkdf_salt, material.as_bytes()) {
            Some(k) => k,
            None => Vec::new(),
        };
        SharedSecret { key, outbound, sent: MonotonicCounter::new(), received: MonotonicCounter::new() }
    }

    /// Seals `data` with the next outbound nonce and moves past it.
    pub fn encrypt(&mut self, data: Vec<u8>) -> (r: Result<Vec<u8>, ChannelError>)
        requires
            old(self).wf(),
        ensures
            final(self).wf(),
            final(self).key == old(self).key,
            final(self).outbound == old(self).outbound,
            final(self).received == old(self).received,
            old(self).sent.0.0 == u64::MAX ==> r == Err::<Vec<u8>, ChannelError>(ChannelError::NonceExhausted)
                && *final(self) == *old(self),
            old(self).sent.0.0 < u64::MAX && data@.len() > MAX_SEAL_LEN ==> r == Err::<Vec<u8>, ChannelError>(
                ChannelError::MessageTooLong,
            ) && *final(self) == *old(self),
            old(self).sent.0.0 < u64::MAX && data@.len() <= MAX_SEAL_LEN ==> (r matches Ok(c) && c@
                == aes_gcm_sealed(old(self).key@, old(self).next_seal_nonce(), data@) && c@.len() == data@.len()
                + TAG_LEN && aes_gcm_opened(
                old(self).key@,
                old(self).next_seal_nonce(),
                c@,
            ) == Some(data@)) && final(self).sent.0.0 == old(self).sent.0.0 + 1,
    {
        if self.sent.0.0 == u64::MAX {
            return Err(ChannelError::NonceExhausted);
        }
        if data.len() as u64 > MAX_SEAL_LEN {
            return Err(ChannelError::MessageTooLong);
        }
        let nonce = match self.sent.advance(self.outbound) {
            Some(n) => n,
            None => Vec::new(),
        };
        match aead_seal(self.key.as_slice(), nonce.as_slice(), data) {
            Some(c) => Ok(c),
            None => Err(ChannelError::MessageTooLong),
        }
    }

    /// Opens `data` with the next inbound nonce and moves past it; a message
    /// that does not open leaves the state as it was.
    pub fn decrypt(&mut self, data: Vec<u8>) -> (r: Result<Vec<u8>, ChannelError>)
        requires
            old(self).wf(),
        ensures
            final(self).wf(),
            final(self).key == old(self).key,
            final(self).outbound == old(self).outbound,
            final(self).sent == old(self).sent,
            old(self).received.0.0 == u64::MAX ==> r == Err::<Vec<u8>, ChannelError>(ChannelError::NonceExhausted)
                && *final(self) == *old(self),
            old(self).received.0.0 < u64::MAX && aes_gcm_opened(old(self).key@, old(self).next_open_nonce(), data@)
                is None ==> r == Err::<Vec<u8>, ChannelError>(ChannelError::AuthenticationFailure)
                && *final(self) == *old(self),
            old(self).received.0.0 < u64::MAX ==> (aes_gcm_opened(old(self).key@, old(self).next_open_nonce(), data@)
                matches Some(p) ==> (r matches Ok(v) && v@ == p) && final(self).received.0.0
                == old(self).received.0.0 + 1),
    {
        if self.received.0.0 == u64::MAX {
            return Err(ChannelError::NonceExhausted);
        }
        let nonce = self.received.0.nonce(self.outbound.reverse());
        match aead_open(self.key.as_slice(), nonce.as_slice(), data) {
            Some(p) => {
                let _ = self.received.next();
                Ok(p)
            },
            None => Err(ChannelError::AuthenticationFailure),
        }
    }

    /// The stored form of this session.
    pub fn to_record(&self) -> (r: Vec<u8>)
        ensures
            r@ == self.record(),
    {
        let mut r = copy_bytes(self.key.as_slice());
        push_le_bytes(&mut r, self.sent.0.0);
        push_le_bytes(&mut r, self.received.0.0);
        r
    }

    /// Reads a stored session; `MalformedRecord` exactly when `bytes` is not
    /// the record of a session, that is not RECORD_LEN bytes long.
    pub fn from_record(bytes: &[u8], outbound: Direction) -> (r: Result<SharedSecret, ChannelError>)
        ensures
            bytes@.len() != RECORD_LEN ==> r == Err::<SharedSecret, ChannelError>(ChannelError::MalformedRecord),
            bytes@.len() == RECORD_LEN ==> (r matches Ok(s) && s.wf() && s.record() == bytes@ && s.outbound
                == outbound && s.key@ == bytes@.subrange(0, 16) && s.sent.0.0 == u64_from_le(
                bytes@.subrange(16, 24),
            ) && s.received.0.0 == u64_from_le(bytes@.subrange(24, 32))),
    {
        if bytes.len() != RECORD_LEN {
            return Err(ChannelError::MalformedRecord);
        }
        let key = copy_bytes(&bytes[0..16]);
        let sent = read_le_u64(bytes, 16);
        let received = read_le_u64(bytes, 24);
        proof {
            lemma_le_bytes_encode(bytes@.subrange(16, 24));
            lemma_le_bytes_encode(bytes@.subrange(24, 32));
            assert(bytes@ =~= bytes@.subrange(0, 16) + bytes@.subrange(16, 24) + bytes@.subrange(24, 32));
        }
        let s = SharedSecret {
            key,
            outbound,
            sent: MonotonicCounter::starting_at(sent),
            received: MonotonicCounter::starting_at(received),
        };
        Ok(s)
    }
}

/// Agrees with the peer's public point, consuming the ephemeral private key,
/// and derives the session key from the agreement under `hkdf_salt`;
/// `InvalidPeerKey` exactly when the peer's bytes are not a valid point.
pub fn create_shared_secret(
    private_key: ring::agreement::EphemeralPrivateKey,
    peer_public_key: &[u8],
    hkdf_salt: &[u8],
    outbound: Direction,
) -> (r: Result<SharedSecret, HandshakeError>)
    ensures
        r is Ok <==> p256_peer_point_valid(peer_public_key@),
        r matches Err(e) ==> e == HandshakeError::InvalidPeerKey,
        r matches Ok(s) ==> s.wf() && s.outbound == outbound && s.sent.0.0 == 0 && s.received.0.0 == 0
            && exists|m: Seq<u8>| m.len() == SHARED_SECRET_LEN && s.key@ == hkdf_session_key(hkdf_salt@, m),
{
    match SharedSecretMaterial::create(private_key, peer_public_key) {
        Ok(material) => {
            let s = SharedSecret::new(&material, hkdf_salt, outbound);
            assert(material.0@.len() == SHARED_SECRET_LEN);
            Ok(s)
        },
        Err(e) => Err(e),
    }
}

/// No two messages sealed under one session key share a nonce: the sides
/// seal in different directions, and one side's counter only grows, so two
/// sealing states that differ in direction or counter use different nonces.
pub proof fn lemma_seal_nonces_distinct(a: SharedSecret, b: SharedSecret)
    requires
        a.outbound != b.outbound || a.sent.0.0 != b.sent.0.0,
    ensures
        a.next_seal_nonce() != b.next_seal_nonce(),
{
    lemma_nonce_unique(a.sent.0.0, a.outbound, b.sent.0.0, b.outbound);
}

/// What one side seals as its next message opens on the other side of the
/// same session when that side expects it next: both use the same nonce.
pub proof fn lemma_round_trip(sender: SharedSecret, receiver: SharedSecret, sealed: Seq<u8>, plaintext: Seq<u8>)
    requires
        sender.key@ == receiver.key@,
        sender.outbound == receiver.outbound.reverse_spec(),
        sender.sent.0.0 == receiver.received.0.0,
        aes_gcm_opened(sender.key@, sender.next_seal_nonce(), sealed) == Some(plaintext),
    ensures
        receiver.next_open_nonce() == sender.next_seal_nonce(),
        aes_gcm_opened(receiver.key@, receiver.next_open_nonce(), sealed) == Some(plaintext),
{
}

} // verus!
