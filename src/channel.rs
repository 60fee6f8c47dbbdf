//! The authenticated channel: a request from a client with an established
//! session is opened with the session key, and the reply is sealed with it.
//! Bodies travel as base64 text of the sealed bytes.
use vstd::prelude::*;
use crate::counter::{nonce_of, Direction};
use crate::crypto::{aes_gcm_opened, aes_gcm_sealed, MAX_SEAL_LEN, TAG_LEN};
use crate::encoding::{base64_bytes, base64_decode, base64_encode, base64_text, text_bytes};
use crate::error::ChannelError;
use crate::handshake::{client_id_of_header, public_key};
use crate::secret::{record_of, u64_from_le, SharedSecret, RECORD_LEN};
use crate::store::{KeyStoreKey, Sessions};

verus! {

/// The key held by a stored session record.
pub open spec fn record_key(record: Seq<u8>) -> Seq<u8> {
    record.subrange(0, 16)
}

/// The counter of messages sealed under a stored session record.
pub open spec fn record_sent(record: Seq<u8>) -> u64 {
    u64_from_le(record.subrange(16, 24))
}

/// The counter of messages opened under a stored session record.
pub open spec fn record_received(record: Seq<u8>) -> u64 {
    u64_from_le(record.subrange(24, 32))
}

/// Reads the client identifier from the identity header; `MissingCredential`
/// when there is no header or it is not base64.
pub fn client_id(header: Option<&[u8]>) -> (r: Result<KeyStoreKey, ChannelError>)
    ensures
        header is None ==> r == Err::<KeyStoreKey, ChannelError>(ChannelError::MissingCredential),
        header matches Some(h) ==> (client_id_of_header(h@) is None ==> r == Err::<KeyStoreKey, ChannelError>(
            ChannelError::MissingCredential,
        )),
        header matches Some(h) ==> (client_id_of_header(h@) matches Some(id) ==> (r matches Ok(k) && k.0@ == id)),
{
    match public_key(header) {
        Ok(credential) => Ok(credential.client_id),
        Err(_) => Err(ChannelError::MissingCredential),
    }
}

/// The server's side of a session from the record the store returned;
/// `NotFound` when there was none.
pub fn session_from_record(record: Option<&[u8]>) -> (r: Result<SharedSecret, ChannelError>)
    ensures
        record is None ==> r == Err::<SharedSecret, ChannelError>(ChannelError::NotFound),
        record matches Some(b) ==> (b@.len() != RECORD_LEN ==> r == Err::<SharedSecret, ChannelError>(
            ChannelError::MalformedRecord,
        )),
        record matches Some(b) ==> (b@.len() == RECORD_LEN ==> (r matches Ok(s) && s.wf() && s.record() == b@
            && s.outbound == Direction::ServerToClient && s.key@ == record_key(b@) && s.sent.0.0 == record_sent(b@)
            && s.received.0.0 == record_received(b@))),
{
    match record {
        None => Err(ChannelError::NotFound),
        Some(b) => SharedSecret::from_record(b, Direction::ServerToClient),
    }
}

/// Decodes a request body and opens it with the session's next inbound
/// nonce: `MalformedEnvelope` when the body is not base64, otherwise as
/// `SharedSecret::decrypt`.
pub fn read_request(secret: &mut SharedSecret, body: &[u8]) -> (r: Result<Vec<u8>, ChannelError>)
    requires
        old(secret).wf(),
    ensures
        final(secret).wf(),
        final(secret).key == old(secret).key,
        final(secret).outbound == old(secret).outbound,
        final(secret).sent == old(secret).sent,
        r is Err ==> *final(secret) == *old(secret),
        base64_bytes(body@) is None ==> r == Err::<Vec<u8>, ChannelError>(ChannelError::MalformedEnvelope),
        base64_bytes(body@) matches Some(c) ==> (old(secret).received.0.0 == u64::MAX ==> r == Err::<
            Vec<u8>,
            ChannelError,
        >(ChannelError::NonceExhausted)),
        base64_bytes(body@) matches Some(c) ==> (old(secret).received.0.0 < u64::MAX ==> (aes_gcm_opened(
            old(secret).key@,
            old(secret).next_open_nonce(),
            c,
        ) is None ==> r == Err::<Vec<u8>, ChannelError>(ChannelError::AuthenticationFailure))),
        base64_bytes(body@) matches Some(c) ==> (old(secret).received.0.0 < u64::MAX ==> (aes_gcm_opened(
            old(secret).key@,
            old(secret).next_open_nonce(),
            c,
        ) matches Some(p) ==> (r matches Ok(v) && v@ == p) && final(secret).received.0.0
            == old(secret).received.0.0 + 1)),
{
    match base64_decode(body) {
        None => Err(ChannelError::MalformedEnvelope),
        Some(sealed) => secret.decrypt(sealed),
    }
}

/// Seals a reply with the session's next outbound nonce and encodes it as
/// base64 text.
pub fn write_response(secret: &mut SharedSecret, plaintext: Vec<u8>) -> (r: Result<String, ChannelError>)
    requires
        old(secret).wf(),
    ensures
        final(secret).wf(),
        final(secret).key == old(secret).key,
        final(secret).outbound == old(secret).outbound,
        final(secret).received == old(secret).received,
        r is Err ==> *final(secret) == *old(secret),
        old(secret).sent.0.0 == u64::MAX ==> r == Err::<String, ChannelError>(ChannelError::NonceExhausted),
        old(secret).sent.0.0 < u64::MAX && plaintext@.len() > MAX_SEAL_LEN ==> r == Err::<String, ChannelError>(
            ChannelError::MessageTooLong,
        ),
        old(secret).sent.0.0 < u64::MAX && plaintext@.len() <= MAX_SEAL_LEN ==> (r matches Ok(t) && t@
            == base64_text(aes_gcm_sealed(old(secret).key@, old(secret).next_seal_nonce(), plaintext@)))
            && final(secret).sent.0.0 == old(secret).sent.0.0 + 1,
        r matches Ok(t) ==> (base64_bytes(text_bytes(t@)) matches Some(c) && c.len() == plaintext@.len() + TAG_LEN
            && aes_gcm_opened(old(secret).key@, old(secret).next_seal_nonce(), c) == Some(plaintext@)),
{
    match secret.encrypt(plaintext) {
        Ok(sealed) => Ok(base64_encode(sealed.as_slice())),
        Err(e) => Err(e),
    }
}

impl Sessions {
    /// Opens a request from client `id` with its stored session and, when it
    /// opens, stores the advanced inbound counter. A client without a session
    /// gets `NotFound`; a failed request changes nothing.
    pub fn open_request(&mut self, id: &KeyStoreKey, body: &[u8]) -> (r: Result<Vec<u8>, ChannelError>)
        requires
            old(self).wf(),
        ensures
            final(self).wf(),
            !old(self)@.contains_key(id.0@) ==> r == Err::<Vec<u8>, ChannelError>(ChannelError::NotFound),
            r is Err ==> final(self)@ == old(self)@,
            old(self)@.contains_key(id.0@) && old(self)@[id.0@].len() != RECORD_LEN ==> r == Err::<
                Vec<u8>,
                ChannelError,
            >(ChannelError::MalformedRecord),
            old(self)@.contains_key(id.0@) && old(self)@[id.0@].len() == RECORD_LEN ==> ({
                let rec = old(self)@[id.0@];
                let nonce = nonce_of(record_received(rec), Direction::ClientToServer);
                &&& base64_bytes(body@) is None ==> r == Err::<Vec<u8>, ChannelError>(
                    ChannelError::MalformedEnvelope,
                )
                &&& base64_bytes(body@) is Some && record_received(rec) == u64::MAX ==> r == Err::<
                    Vec<u8>,
                    ChannelError,
                >(ChannelError::NonceExhausted)
                &&& base64_bytes(body@) matches Some(c) ==> (record_received(rec) < u64::MAX ==> (aes_gcm_opened(
                    record_key(rec),
                    nonce,
                    c,
                ) is None ==> r == Err::<Vec<u8>, ChannelError>(ChannelError::AuthenticationFailure)))
                &&& base64_bytes(body@) matches Some(c) ==> (record_received(rec) < u64::MAX ==> (aes_gcm_opened(
                    record_key(rec),
                    nonce,
                    c,
                ) matches Some(p) ==> (r matches Ok(v) && v@ == p) && final(self)@ == old(self)@.insert(
                    id.0@,
                    record_of(record_key(rec), record_sent(rec), (record_received(rec) + 1) as u64),
                )))
            }),
    {
        let record = match self.get(id) {
            Ok(b) => b,
            Err(e) => return Err(e),
        };
        let mut secret = match session_from_record(Some(record.as_slice())) {
            Ok(s) => s,
            Err(e) => return Err(e),
        };
        match read_request(&mut secret, body) {
            Ok(p) => {
                let updated = secret.to_record();
                self.set(id, updated);
                Ok(p)
            },
            Err(e) => Err(e),
        }
    }

    /// Seals a reply to client `id` with its stored session and stores the
    /// advanced outbound counter. A client without a session gets `NotFound`;
    /// a failure changes nothing.
    pub fn seal_response(&mut self, id: &KeyStoreKey, plaintext: Vec<u8>) -> (r: Result<String, ChannelError>)
        requires
            old(self).wf(),
        ensures
            final(self).wf(),
            !old(self)@.contains_key(id.0@) ==> r == Err::<String, ChannelError>(ChannelError::NotFound),
            r is Err ==> final(self)@ == old(self)@,
            old(self)@.contains_key(id.0@) && old(self)@[id.0@].len() != RECORD_LEN ==> r == Err::<
                String,
                ChannelError,
            >(ChannelError::MalformedRecord),
            old(self)@.contains_key(id.0@) && old(self)@[id.0@].len() == RECORD_LEN ==> ({
                let rec = old(self)@[id.0@];
                let nonce = nonce_of(record_sent(rec), Direction::ServerToClient);
                &&& record_sent(rec) == u64::MAX ==> r == Err::<String, ChannelError>(ChannelError::NonceExhausted)
                &&& record_sent(rec) < u64::MAX && plaintext@.len() > MAX_SEAL_LEN ==> r == Err::<String, ChannelError>(
                    ChannelError::MessageTooLong,
                )
                &&& record_sent(rec) < u64::MAX && plaintext@.len() <= MAX_SEAL_LEN ==> (r matches Ok(t) && t@
                    == base64_text(aes_gcm_sealed(record_key(rec), nonce, plaintext@)))
                    && final(self)@ == old(self)@.insert(
                    id.0@,
                    record_of(record_key(rec), (record_sent(rec) + 1) as u64, record_received(rec)),
                )
            }),
    {
        let record = match self.get(id) {
            Ok(b) => b,
            Err(e) => return Err(e),
        };
        let mut secret = match session_from_record(Some(record.as_slice())) {
            Ok(s) => s,
            Err(e) => return Err(e),
        };
        match write_response(&mut secret, plaintext) {
            Ok(t) => {
                let updated = secret.to_record();
                self.set(id, updated);
                Ok(t)
            },
            Err(e) => Err(e),
        }
    }
}

/// The channel round trip on the wire: the base64 text one side of a session
/// writes as its next message is a body that the other side, expecting that
/// message next, decodes and opens to the same plaintext.
pub proof fn lemma_wire_round_trip(sender: SharedSecret, receiver: SharedSecret, text: Seq<char>, plaintext: Seq<u8>)
    requires
        sender.key@ == receiver.key@,
        sender.outbound == receiver.outbound.reverse_spec(),
        sender.sent.0.0 == receiver.received.0.0,
        base64_bytes(text_bytes(text)) matches Some(c) && aes_gcm_opened(sender.key@, sender.next_seal_nonce(), c)
            == Some(plaintext),
    ensures
        base64_bytes(text_bytes(text)) matches Some(c) && aes_gcm_opened(
            receiver.key@,
            receiver.next_open_nonce(),
            c,
        ) == Some(plaintext),
{
}

} // verus!
