//! Plain identifiers: stream ids, directions, connection handles and peer
//! addresses, as the driver's own logic reads them.

use vstd::prelude::*;
use vstd::std_specs::convert::FromSpecImpl;

verus! {

/// Whether data flows both ways on a stream or only from its initiator.
#[derive(Debug, Clone, Copy, PartialEq, Eq, Structural)]
pub enum Direction {
    Bi,
    Uni,
}

/// The first value that is not a stream id: ids are 62-bit integers.
pub const STREAM_ID_LIMIT: u64 = 0x4000_0000_0000_0000;

/// A stream's number within its connection. Bit 0 tells which side opened
/// the stream (set: the server), bit 1 its direction (set: unidirectional);
/// the remaining bits count the streams of that kind.
#[derive(Debug, Clone, Copy, PartialEq, Eq, Structural)]
pub struct StreamId {
    raw: u64,
}

impl StreamId {
    #[verifier::type_invariant]
    spec fn in_range(self) -> bool {
        self.raw < STREAM_ID_LIMIT
    }

    /// The id as an integer.
    pub closed spec fn number(self) -> u64 {
        self.raw
    }

    /// Whether the server side opened the stream.
    pub open spec fn by_server(self) -> bool {
        self.number() & 1 == 1
    }

    /// Whether data flows both ways.
    pub open spec fn is_bi(self) -> bool {
        self.number() & 2 == 0
    }

    /// Whether an endpoint on the given side may read from the stream: it
    /// is bidirectional, or the other side opened it.
    pub open spec fn readable_by(self, server: bool) -> bool {
        self.is_bi() || self.by_server() != server
    }

    /// Whether an endpoint on the given side may write to the stream: it is
    /// bidirectional, or that side opened it.
    pub open spec fn writable_by(self, server: bool) -> bool {
        self.is_bi() || self.by_server() == server
    }

    /// The stream id with the given number, if it is one.
    pub fn new(raw: u64) -> (id: Option<StreamId>)
        ensures
            id is Some <==> raw < STREAM_ID_LIMIT,
            id matches Some(s) ==> s.number() == raw,
    {
        if raw < STREAM_ID_LIMIT {
            Some(StreamId { raw })
        } else {
            None
        }
    }

    /// The id as an integer, always below `STREAM_ID_LIMIT`.
    pub fn raw(&self) -> (n: u64)
        ensures
            n == self.number(),
            n < STREAM_ID_LIMIT,
    {
        proof {
            use_type_invariant(self);
        }
        self.raw
    }

    /// The stream's direction.
    pub fn dir(&self) -> (d: Direction)
        ensures
            d == (if self.is_bi() {
                Direction::Bi
            } else {
                Direction::Uni
            }),
    {
        if self.raw & 2 == 0 {
            Direction::Bi
        } else {
            Direction::Uni
        }
    }

    /// Whether the server side opened the stream.
    pub fn opened_by_server(&self) -> (b: bool)
        ensures
            b == self.by_server(),
    {
        self.raw & 1 == 1
    }

    /// Whether an endpoint on the given side may read from the stream.
    pub fn can_read(&self, server: bool) -> (b: bool)
        ensures
            b == self.readable_by(server),
    {
        self.raw & 2 == 0 || (self.raw & 1 == 1) != server
    }

    /// Whether an endpoint on the given side may write to the stream.
    pub fn can_write(&self, server: bool) -> (b: bool)
        ensures
            b == self.writable_by(server),
    {
        self.raw & 2 == 0 || (self.raw & 1 == 1) == server
    }
}

/// A stream across connections: the handle that the core gave the
/// connection, and the stream's id within it.
#[derive(Debug, Clone, Copy, PartialEq, Eq, Structural)]
pub struct QuicStreamHdl {
    pub conn_hdl: usize,
    pub stream_id: StreamId,
}

impl From<(usize, StreamId)> for QuicStreamHdl {
    fn from(pair: (usize, StreamId)) -> (h: QuicStreamHdl) {
        QuicStreamHdl { conn_hdl: pair.0, stream_id: pair.1 }
    }
}

impl FromSpecImpl<(usize, StreamId)> for QuicStreamHdl {
    open spec fn obeys_from_spec() -> bool {
        true
    }

    open spec fn from_spec(pair: (usize, StreamId)) -> QuicStreamHdl {
        QuicStreamHdl { conn_hdl: pair.0, stream_id: pair.1 }
    }
}

impl From<QuicStreamHdl> for (usize, StreamId) {
    fn from(h: QuicStreamHdl) -> (pair: (usize, StreamId)) {
        (h.conn_hdl, h.stream_id)
    }
}

impl FromSpecImpl<QuicStreamHdl> for (usize, StreamId) {
    open spec fn obeys_from_spec() -> bool {
        true
    }

    open spec fn from_spec(h: QuicStreamHdl) -> (usize, StreamId) {
        (h.conn_hdl, h.stream_id)
    }
}

/// The address of a peer: an IPv4 or IPv6 address in host byte order, and a
/// UDP port.
#[derive(Debug, Clone, Copy, PartialEq, Eq, Structural)]
pub enum PeerAddr {
    V4 { v4: u32, port: u16 },
    V6 { v6: u128, port: u16 },
}

} // verus!
