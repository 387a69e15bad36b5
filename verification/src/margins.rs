//! Header and trailer reservations around an outbound datagram.

use vstd::prelude::*;
use vstd::std_specs::convert::FromSpecImpl;

verus! {

/// How many bytes an outer transport wants reserved before and after each
/// outbound datagram, so that it can encapsulate without copying.
#[derive(Debug, Clone, Copy)]
pub struct BufMargins {
    pub header: usize,
    pub trailer: usize,
}

/// The margins of a packet buffer.
pub type QuicBufferMargins = BufMargins;

/// The margins of an outbound packet.
pub type QuicPacketMargins = BufMargins;

impl BufMargins {
    /// The reserved bytes in total, as a mathematical integer.
    pub open spec fn total(self) -> int {
        self.header + self.trailer
    }

    /// The length of a datagram that carries `payload_len` bytes.
    pub open spec fn framed_len(self, payload_len: int) -> int {
        self.header + payload_len + self.trailer
    }

    /// The reserved bytes in total.
    pub fn len(&self) -> (n: usize)
        requires
            self.total() <= usize::MAX,
        ensures
            n == self.total(),
    {
        self.header + self.trailer
    }

    /// The reserved bytes in total, or `None` where the sum does not fit.
    pub fn checked_len(&self) -> (n: Option<usize>)
        ensures
            n is Some <==> self.total() <= usize::MAX,
            n matches Some(v) ==> v == self.total(),
    {
        self.header.checked_add(self.trailer)
    }

    /// The length of a datagram that carries `payload_len` bytes, or `None`
    /// where it does not fit.
    pub fn checked_framed_len(&self, payload_len: usize) -> (n: Option<usize>)
        ensures
            n is Some <==> self.framed_len(payload_len as int) <= usize::MAX,
            n matches Some(v) ==> v == self.framed_len(payload_len as int),
    {
        match self.header.checked_add(payload_len) {
            Some(front) => front.checked_add(self.trailer),
            None => None,
        }
    }
}

impl From<(usize, usize)> for BufMargins {
    fn from(pair: (usize, usize)) -> (m: BufMargins) {
        BufMargins { header: pair.0, trailer: pair.1 }
    }
}

impl FromSpecImpl<(usize, usize)> for BufMargins {
    open spec fn obeys_from_spec() -> bool {
        true
    }

    open spec fn from_spec(pair: (usize, usize)) -> BufMargins {
        BufMargins { header: pair.0, trailer: pair.1 }
    }
}

impl From<BufMargins> for (usize, usize) {
    fn from(m: BufMargins) -> (pair: (usize, usize)) {
        (m.header, m.trailer)
    }
}

impl FromSpecImpl<BufMargins> for (usize, usize) {
    open spec fn obeys_from_spec() -> bool {
        true
    }

    open spec fn from_spec(m: BufMargins) -> (usize, usize) {
        (m.header, m.trailer)
    }
}

/// `n` zero bytes: what a reserved margin holds until the outer transport
/// fills it.
pub open spec fn zeros(n: int) -> Seq<u8> {
    Seq::new(n as nat, |i: int| 0u8)
}

/// A payload between its margins: the layout of every outbound datagram.
pub open spec fn framed(m: BufMargins, payload: Seq<u8>) -> Seq<u8> {
    zeros(m.header as int) + payload + zeros(m.trailer as int)
}

/// Whether `bytes` is some payload between the margins `m`: `header`
/// reserved bytes, the payload, `trailer` reserved bytes.
pub open spec fn is_framed(bytes: Seq<u8>, m: BufMargins) -> bool {
    exists|payload: Seq<u8>| bytes == framed(m, payload)
}

/// A framed datagram has exactly `header` reserved bytes in front and
/// `trailer` behind, and the payload fills the region between them.
pub proof fn lemma_framed_layout(m: BufMargins, payload: Seq<u8>)
    ensures
        framed(m, payload).len() == m.framed_len(payload.len() as int),
        framed(m, payload).subrange(m.header as int, m.header + payload.len()) == payload,
        framed(m, payload).subrange(0, m.header as int) == zeros(m.header as int),
        framed(m, payload).subrange(m.header + payload.len(), framed(m, payload).len() as int)
            == zeros(m.trailer as int),
{
    let f = framed(m, payload);
}

} // verus!
