use ecdh_backend::channel::session_from_record;
use ecdh_backend::counter::{Count, Direction, MonotonicCounter};
use ecdh_backend::error::ChannelError;
use ecdh_backend::secret::{SharedSecret, SharedSecretMaterial};

fn session(outbound: Direction) -> SharedSecret {
    SharedSecret::new(&SharedSecretMaterial::new(vec![7u8; 32]), b"salt", outbound)
}

#[test]
fn nonce_layout() {
    let n = Count(0x0102030405060708).nonce(Direction::ServerToClient);
    assert_eq!(n, vec![8, 7, 6, 5, 4, 3, 2, 1, 1, 0, 0, 0]);
    let n = Count(0).nonce(Direction::ClientToServer);
    assert_eq!(n, vec![0; 12]);
}

#[test]
fn nonces_differ_by_count_and_direction() {
    let a = Count(1).nonce(Direction::ClientToServer);
    let b = Count(2).nonce(Direction::ClientToServer);
    let c = Count(1).nonce(Direction::ServerToClient);
    assert_ne!(a, b);
    assert_ne!(a, c);
}

#[test]
fn counter_counts_up_and_stops_before_wrapping() {
    let mut c = MonotonicCounter::new();
    assert_eq!(c.next(), Some(Count(0)));
    assert_eq!(c.next(), Some(Count(1)));
    let mut last = MonotonicCounter::starting_at(u64::MAX - 1);
    assert_eq!(last.next(), Some(Count(u64::MAX - 1)));
    assert_eq!(last.next(), None);
    assert_eq!(last.next(), None);
    assert_eq!(last.advance(Direction::ClientToServer), None);
}

#[test]
fn advance_gives_nonce_of_current_position() {
    let mut c = MonotonicCounter::starting_at(5);
    let n = c.advance(Direction::ClientToServer).unwrap();
    assert_eq!(n, Count(5).nonce(Direction::ClientToServer));
    assert_eq!(c.0, Count(6));
}

#[test]
fn exhausted_session_refuses_to_seal() {
    let mut s = session(Direction::ServerToClient);
    s.sent = MonotonicCounter::starting_at(u64::MAX);
    assert!(matches!(s.encrypt(b"x".to_vec()), Err(ChannelError::NonceExhausted)));
    assert_eq!(s.sent.0 .0, u64::MAX);
}

#[test]
fn derived_key_depends_on_salt_and_material() {
    let a = SharedSecret::new(&SharedSecretMaterial::new(vec![7u8; 32]), b"salt", Direction::ClientToServer);
    let b = SharedSecret::new(&SharedSecretMaterial::new(vec![7u8; 32]), b"pepper", Direction::ClientToServer);
    let c = SharedSecret::new(&SharedSecretMaterial::new(vec![8u8; 32]), b"salt", Direction::ClientToServer);
    assert_eq!(a.key.len(), 16);
    assert_ne!(a.key, b.key);
    assert_ne!(a.key, c.key);
    assert_ne!(a.key, vec![7u8; 16]);
}

#[test]
fn sealed_message_has_tag_and_differs_from_plaintext() {
    let mut s = session(Direction::ClientToServer);
    let c = s.encrypt(b"hello".to_vec()).ok().unwrap();
    assert_eq!(c.len(), 5 + 16);
    assert_ne!(&c[..5], b"hello");
}

#[test]
fn seal_then_open_across_directions() {
    let mut client = session(Direction::ClientToServer);
    let mut server = session(Direction::ServerToClient);
    let c = client.encrypt(b"ping".to_vec()).ok().unwrap();
    assert_eq!(server.decrypt(c).ok().unwrap(), b"ping".to_vec());
    assert_eq!(server.received.0 .0, 1);
    // A message sealed by the server does not open as if the client had sent it.
    let mut other = session(Direction::ServerToClient);
    let own = other.encrypt(b"pong".to_vec()).ok().unwrap();
    let mut server2 = session(Direction::ServerToClient);
    assert!(matches!(server2.decrypt(own), Err(ChannelError::AuthenticationFailure)));
    assert_eq!(server2.received.0 .0, 0);
}

#[test]
fn record_round_trip() {
    let mut s = session(Direction::ServerToClient);
    s.sent = MonotonicCounter::starting_at(0x1122334455667788);
    s.received = MonotonicCounter::starting_at(3);
    let record = s.to_record();
    assert_eq!(record.len(), 32);
    assert_eq!(&record[16..24], &[0x88, 0x77, 0x66, 0x55, 0x44, 0x33, 0x22, 0x11]);
    let back = session_from_record(Some(&record)).ok().unwrap();
    assert_eq!(back.key, s.key);
    assert_eq!(back.sent, s.sent);
    assert_eq!(back.received, s.received);
    assert_eq!(back.outbound, Direction::ServerToClient);
}

#[test]
fn malformed_record_is_refused() {
    assert!(matches!(session_from_record(Some(&[0u8; 31])), Err(ChannelError::MalformedRecord)));
    assert!(matches!(SharedSecret::from_record(&[0u8; 33], Direction::ClientToServer), Err(ChannelError::MalformedRecord)));
}

#[test]
fn direction_reverses() {
    assert_eq!(Direction::ClientToServer.reverse(), Direction::ServerToClient);
    assert_eq!(Direction::ServerToClient.reverse(), Direction::ClientToServer);
}
