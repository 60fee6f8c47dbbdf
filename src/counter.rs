//! Monotonic nonce sequence for the secure channel.
//!
//! A nonce is 12 bytes: the 64-bit message counter in little-endian order,
//! then one byte naming the direction of travel, then three zero bytes. Each
//! direction of a session therefore draws from its own nonce space, and within
//! one direction a nonce is never repeated as long as the counter only grows.
use vstd::prelude::*;

verus! {

/// Width in bytes of an AEAD nonce.
pub const NONCE_LEN: usize = 12;

/// Which party sealed a message.
#[derive(Clone, Copy, Debug, PartialEq, Eq, Structural)]
pub enum Direction {
    ClientToServer,
    ServerToClient,
}

impl Direction {
    pub open spec fn tag(self) -> u8 {
        match self {
            Direction::ClientToServer => 0u8,
            Direction::ServerToClient => 1u8,
        }
    }

    /// The direction of the reply to a message that travelled this way.
    pub fn reverse(self) -> (r: Direction)
        ensures
            r != self,
            r.reverse_spec() == self,
    {
        match self {
            Direction::ClientToServer => Direction::ServerToClient,
            Direction::ServerToClient => Direction::ClientToServer,
        }
    }

    pub open spec fn reverse_spec(self) -> Direction {
        match self {
            Direction::ClientToServer => Direction::ServerToClient,
            Direction::ServerToClient => Direction::ClientToServer,
        }
    }
}

/// Byte `i` (0 = least significant) of `n`.
pub open spec fn le_byte(n: u64, i: u64) -> u8 {
    ((n >> (8 * i)) & 0xffu64) as u8
}

/// The nonce that the message with counter `count` travelling in direction `d` uses.
pub open spec fn nonce_of(count: u64, d: Direction) -> Seq<u8> {
    Seq::new(
        NONCE_LEN as nat,
        |i: int|
            if i < 8 {
                le_byte(count, i as u64)
            } else if i == 8 {
                d.tag()
            } else {
                0u8
            },
    )
}

/// One position of a nonce sequence.
#[derive(Clone, Copy, Debug, PartialEq, Eq, Structural)]
pub struct Count(pub u64);

/// A counter that hands out each `Count` once, in increasing order, and stops
/// before it would wrap.
#[derive(Clone, Copy, Debug, PartialEq, Eq, Structural)]
pub struct MonotonicCounter(pub Count);

impl Count {
    /// The nonce of this position for messages travelling in direction `d`.
    pub fn nonce(self, d: Direction) -> (r: Vec<u8>)
        ensures
            r@ == nonce_of(self.0, d),
    {
        let mut r: Vec<u8> = Vec::new();
        let mut i: u64 = 0;
        while i < 8
            invariant
                i <= 8,
                r@.len() == i,
                forall|j: int| 0 <= j < i ==> r@[j] == le_byte(self.0, j as u64),
            decreases 8 - i,
        {
            r.push(((self.0 >> (8 * i)) & 0xffu64) as u8);
            i = i + 1;
        }
        r.push(
            match d {
                Direction::ClientToServer => 0u8,
                Direction::ServerToClient => 1u8,
            },
        );
        r.push(0u8);
        r.push(0u8);
        r.push(0u8);
        assert(r@ =~= nonce_of(self.0, d));
        r
    }
}

impl MonotonicCounter {
    /// A counter whose first position is zero.
    pub fn new() -> (r: MonotonicCounter)
        ensures
            r.0.0 == 0,
    {
        MonotonicCounter(Count(0))
    }

    /// The counter that hands out `start` next.
    pub fn starting_at(start: u64) -> (r: MonotonicCounter)
        ensures
            r.0.0 == start,
    {
        MonotonicCounter(Count(start))
    }

    /// Hands out the current position and moves past it; `None` once the
    /// counter has reached `u64::MAX`, which is never handed out.
    pub fn next(&mut self) -> (r: Option<Count>)
        ensures
            old(self).0.0 == u64::MAX ==> r is None && *final(self) == *old(self),
            old(self).0.0 < u64::MAX ==> r == Some(old(self).0) && final(self).0.0 == old(self).0.0 + 1,
    {
        let item = self.0;
        if item.0 == u64::MAX {
            None
        } else {
            self.0 = Count(item.0 + 1);
            Some(item)
        }
    }

    /// The nonce of the next position, for messages travelling in direction `d`.
    pub fn advance(&mut self, d: Direction) -> (r: Option<Vec<u8>>)
        ensures
            old(self).0.0 == u64::MAX ==> r is None && *final(self) == *old(self),
            old(self).0.0 < u64::MAX ==> (r matches Some(n) && n@ == nonce_of(old(self).0.0, d))
                && final(self).0.0 == old(self).0.0 + 1,
    {
        match self.next() {
            Some(item) => Some(item.nonce(d)),
            None => None,
        }
    }
}

/// Two different counters, or two different directions, never give the same nonce.
pub proof fn lemma_nonce_unique(a: u64, da: Direction, b: u64, db: Direction)
    requires
        a != b || da != db,
    ensures
        nonce_of(a, da) != nonce_of(b, db),
{
    if nonce_of(a, da) == nonce_of(b, db) {
        assert(nonce_of(a, da)[8] == nonce_of(b, db)[8]);
        assert(da.tag() == db.tag());
        assert(da == db);
        let na = nonce_of(a, da);
        let nb = nonce_of(b, db);
        assert(na[0] == nb[0] && na[1] == nb[1] && na[2] == nb[2] && na[3] == nb[3]);
        assert(na[4] == nb[4] && na[5] == nb[5] && na[6] == nb[6] && na[7] == nb[7]);
        assert(
            (((a >> 0u64) & 0xffu64) as u8 == ((b >> 0u64) & 0xffu64) as u8
            && ((a >> 8u64) & 0xffu64) as u8 == ((b >> 8u64) & 0xffu64) as u8
            && ((a >> 16u64) & 0xffu64) as u8 == ((b >> 16u64) & 0xffu64) as u8
            && ((a >> 24u64) & 0xffu64) as u8 == ((b >> 24u64) & 0xffu64) as u8
            && ((a >> 32u64) & 0xffu64) as u8 == ((b >> 32u64) & 0xffu64) as u8
            && ((a >> 40u64) & 0xffu64) as u8 == ((b >> 40u64) & 0xffu64) as u8
            && ((a >> 48u64) & 0xffu64) as u8 == ((b >> 48u64) & 0xffu64) as u8
            && ((a >> 56u64) & 0xffu64) as u8 == ((b >> 56u64) & 0xffu64) as u8) ==> a == b
        ) by (bit_vector);
    }
}

} // verus!
