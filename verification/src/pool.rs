//! A margin-aware byte pool: datagrams are sliced off a reusable arena.

use crate::bytes_model::{contents, overwrite};
use crate::margins::{framed, zeros, BufMargins};
use crate::packet::QuicPacket;
use crate::protocol::TransmitInfo;
use bytes::BytesMut;
use quinn_proto::Transmit;
use vstd::prelude::*;
use vstd::slice::slice_subrange;

verus! {

/// By how much the arena grows when a request exceeds what is left of it:
/// twice the request, and at least the configured minimum.
pub open spec fn growth(need: int, min_capacity: int) -> int {
    if 2 * need >= min_capacity {
        2 * need
    } else {
        min_capacity
    }
}

/// What is left of the arena after a request of `need` bytes.
pub open spec fn spare_after(spare: int, need: int, min_capacity: int) -> int {
    if need <= spare {
        spare - need
    } else {
        spare + growth(need, min_capacity) - need
    }
}

/// Takes the margins off a datagram: what is left is the payload that was
/// framed. A datagram too short to hold both margins is not one of ours.
pub fn unframe(datagram: BytesMut, margins: BufMargins) -> (payload: Option<BytesMut>)
    ensures
        payload is Some <==> margins.total() <= contents(datagram).len(),
        payload matches Some(body) ==> contents(body) == contents(datagram).subrange(
            margins.header as int,
            contents(datagram).len() - margins.trailer,
        ),
{
    let mut rest = datagram;
    let len: usize = rest.len();
    if margins.header > len || margins.trailer > len - margins.header {
        return None;
    }
    let _ = rest.split_to(margins.header);
    let body = rest.split_to(len - margins.header - margins.trailer);
    Some(body)
}

/// Framing a payload and taking the margins off again gives the payload
/// back.
pub proof fn lemma_unframe_framed(margins: BufMargins, payload: Seq<u8>)
    ensures
        margins.total() <= framed(margins, payload).len(),
        framed(margins, payload).subrange(
            margins.header as int,
            framed(margins, payload).len() - margins.trailer,
        ) == payload,
{
}

/// A growing arena of zeroed bytes from which datagram buffers are split.
pub struct BufPool {
    pool: BytesMut,
    min_capacity: usize,
}

impl BufPool {
    #[verifier::type_invariant]
    spec fn arena_is_blank(self) -> bool {
        contents(self.pool) == zeros(contents(self.pool).len() as int)
    }

    /// The least number of bytes by which the arena grows.
    pub closed spec fn min_capacity(self) -> usize {
        self.min_capacity
    }

    /// How many bytes the arena can hand out before it has to grow.
    pub closed spec fn spare(self) -> nat {
        contents(self.pool).len()
    }

    /// The least number of bytes by which the arena grows.
    pub fn least_growth(&self) -> (n: usize)
        ensures
            n == self.min_capacity(),
    {
        self.min_capacity
    }

    /// An empty pool that grows by at least `min_capacity` bytes at a time.
    pub fn new(min_capacity: usize) -> (p: BufPool)
        ensures
            p.min_capacity() == min_capacity,
            p.spare() == 0,
    {
        let pool = BytesMut::new();
        assert(contents(pool) =~= zeros(0));
        BufPool { pool, min_capacity }
    }

    /// A buffer of `header + data.len() + trailer` bytes whose middle is a
    /// copy of `data`; the margins are zeroed.
    pub fn buf(&mut self, data: &[u8], margins: BufMargins) -> (out: BytesMut)
        requires
            3 * margins.framed_len(data@.len() as int) <= usize::MAX,
            margins.framed_len(data@.len() as int) + old(self).min_capacity() <= usize::MAX,
        ensures
            contents(out) == framed(margins, data@),
            final(self).min_capacity() == old(self).min_capacity(),
            final(self).spare() == spare_after(
                old(self).spare() as int,
                margins.framed_len(data@.len() as int),
                old(self).min_capacity() as int,
            ),
    {
        proof {
            use_type_invariant(&*self);
        }
        let len: usize = margins.header + data.len() + margins.trailer;
        let mut arena = BytesMut::new();
        assert(contents(arena) =~= zeros(0));
        core::mem::swap(&mut self.pool, &mut arena);
        let have: usize = arena.len();
        if len > have {
            let twofold: usize = len * 2;
            let additional: usize = if twofold >= self.min_capacity {
                twofold
            } else {
                self.min_capacity
            };
            arena.resize(have + additional, 0);
        }
        let ghost whole = contents(arena);
        let mut out = arena.split_to(len);
        assert(contents(arena) =~= zeros(whole.len() - len));
        self.pool = arena;
        overwrite(&mut out, margins.header, margins.header + data.len(), data);
        out
    }
}

/// The least growth of a packet pool's arena.
pub const PACKET_POOL_MIN_CAPACITY: usize = 65536;

/// A pool that packs the core's datagrams for the packet sink.
pub struct PacketPool(BufPool);

impl PacketPool {
    /// How many bytes the pool can hand out before it has to grow.
    pub closed spec fn spare(self) -> nat {
        self.0.spare()
    }

    /// The least number of bytes by which the arena grows.
    pub closed spec fn min_capacity(self) -> usize {
        self.0.min_capacity()
    }

    /// Whether a payload of `len` bytes can be packed between `margins`
    /// without the arena's size leaving the range of `usize`.
    pub open spec fn can_pack(self, len: int, margins: BufMargins) -> bool {
        &&& 3 * margins.framed_len(len) <= usize::MAX
        &&& margins.framed_len(len) + self.min_capacity() <= usize::MAX
    }

    /// An empty pool.
    pub fn new() -> (p: PacketPool)
        ensures
            p.spare() == 0,
            p.min_capacity() == PACKET_POOL_MIN_CAPACITY,
    {
        PacketPool(BufPool::new(PACKET_POOL_MIN_CAPACITY))
    }

    /// The datagram for `transmit` that carries `data` between `margins`.
    pub fn pack(&mut self, transmit: Transmit, data: &[u8], margins: BufMargins) -> (p: QuicPacket)
        requires
            old(self).can_pack(data@.len() as int, margins),
        ensures
            p.transmit == transmit,
            contents(p.payload) == framed(margins, data@),
            final(self).spare() == spare_after(
                old(self).spare() as int,
                margins.framed_len(data@.len() as int),
                old(self).min_capacity() as int,
            ),
            final(self).min_capacity() == old(self).min_capacity(),
    {
        let payload = self.0.buf(data, margins);
        QuicPacket { transmit, payload }
    }

    /// The datagram for a transmit that the core wrote to the front of
    /// `buf`: its first `info.size` bytes between `margins`.
    pub fn pack_transmit(&mut self, info: TransmitInfo, buf: &[u8], margins: BufMargins) -> (p:
        QuicPacket)
        requires
            info.size <= buf@.len(),
            old(self).can_pack(info.size as int, margins),
        ensures
            p.transmit == info.raw,
            contents(p.payload) == framed(margins, buf@.subrange(0, info.size as int)),
            final(self).spare() == spare_after(
                old(self).spare() as int,
                margins.framed_len(info.size as int),
                old(self).min_capacity() as int,
            ),
            final(self).min_capacity() == old(self).min_capacity(),
    {
        let data = slice_subrange(buf, 0, info.size);
        self.pack(info.raw, data, margins)
    }

    /// Whether a payload of `len` bytes can be packed between `margins`.
    pub fn packable(&self, len: usize, margins: BufMargins) -> (ok: bool)
        ensures
            ok == self.can_pack(len as int, margins),
    {
        let min: usize = self.0.least_growth();
        match margins.checked_framed_len(len) {
            None => false,
            Some(frame) => match frame.checked_mul(3) {
                None => false,
                Some(_) => frame.checked_add(min).is_some(),
            },
        }
    }

    /// The datagram for a transmit that the core wrote to the front of
    /// `buf`, or `None` where it cannot be packed.
    pub fn try_pack_transmit(&mut self, info: TransmitInfo, buf: &[u8], margins: BufMargins) -> (p:
        Option<QuicPacket>)
        requires
            info.size <= buf@.len(),
        ensures
            p is Some <==> old(self).can_pack(info.size as int, margins),
            p matches Some(packet) ==> {
                &&& packet.transmit == info.raw
                &&& contents(packet.payload) == framed(margins, buf@.subrange(0, info.size as int))
            },
            final(self).min_capacity() == old(self).min_capacity(),
    {
        if self.packable(info.size, margins) {
            Some(self.pack_transmit(info, buf, margins))
        } else {
            None
        }
    }
}

} // verus!
