//! The queue of outbound datagrams between the core and the packet sink.
//!
//! Datagrams are staged into an accumulator in the order the core produced
//! them. A full accumulator is sealed and queued whole; the sink side
//! splits each sealed chunk back into its datagrams, in the same order.

use crate::accumulator::BufAcc;
use crate::bytes_model::contents;
use crate::margins::{framed, is_framed, BufMargins};
use crate::packet::QuicPacket;
use crate::protocol::TransmitInfo;
use bytes::BytesMut;
use quinn_proto::Transmit;
use std::collections::VecDeque;
use vstd::prelude::*;

verus! {

/// A datagram as the queue's contracts speak of it: where the core wants it
/// sent, and its bytes, margins included.
pub struct Datagram {
    pub route: Transmit,
    pub bytes: Seq<u8>,
}

/// The bytes that the datagrams of `ts` take up together.
pub open spec fn total_len(ts: Seq<TransmitInfo>, m: BufMargins) -> int
    decreases ts.len(),
{
    if ts.len() == 0 {
        0
    } else {
        m.framed_len(ts[0].size as int) + total_len(ts.skip(1), m)
    }
}

/// The datagrams that `data` splits into, one for each transmit of `ts`.
pub open spec fn frames(data: Seq<u8>, ts: Seq<TransmitInfo>, m: BufMargins) -> Seq<Datagram>
    decreases ts.len(),
{
    if ts.len() == 0 {
        Seq::empty()
    } else {
        let n = m.framed_len(ts[0].size as int);
        seq![Datagram { route: ts[0].raw, bytes: data.subrange(0, n) }] + frames(
            data.skip(n),
            ts.skip(1),
            m,
        )
    }
}

proof fn lemma_total_len_nonneg(ts: Seq<TransmitInfo>, m: BufMargins)
    ensures
        total_len(ts, m) >= 0,
    decreases ts.len(),
{
    if ts.len() > 0 {
        lemma_total_len_nonneg(ts.skip(1), m);
    }
}

/// Appending one framed datagram to a chunk appends one datagram to what
/// the chunk splits into.
proof fn lemma_frames_push(
    data: Seq<u8>,
    ts: Seq<TransmitInfo>,
    m: BufMargins,
    f: Seq<u8>,
    t: TransmitInfo,
)
    requires
        total_len(ts, m) == data.len(),
        f.len() == m.framed_len(t.size as int),
    ensures
        frames(data + f, ts.push(t), m) == frames(data, ts, m).push(
            Datagram { route: t.raw, bytes: f },
        ),
        total_len(ts.push(t), m) == data.len() + f.len(),
    decreases ts.len(),
{
    let d = Datagram { route: t.raw, bytes: f };
    if ts.len() == 0 {
        assert((data + f).subrange(0, f.len() as int) =~= f);
        assert(frames((data + f).skip(f.len() as int), ts.push(t).skip(1), m) =~= Seq::<
            Datagram,
        >::empty());
        assert(total_len(ts.push(t).skip(1), m) == 0);
    } else {
        let n = m.framed_len(ts[0].size as int);
        lemma_total_len_nonneg(ts.skip(1), m);
        assert(ts.push(t).skip(1) =~= ts.skip(1).push(t));
        assert((data + f).skip(n) =~= data.skip(n) + f);
        assert((data + f).subrange(0, n) =~= data.subrange(0, n));
        lemma_frames_push(data.skip(n), ts.skip(1), m, f, t);
        let head = seq![Datagram { route: ts[0].raw, bytes: data.subrange(0, n) }];
    }
}

/// An accumulator's worth of datagrams, handed off whole, and the transmits
/// that tell where one datagram ends and the next begins.
pub struct SealedChunk {
    data: BytesMut,
    transmits: VecDeque<TransmitInfo>,
}

impl SealedChunk {
    /// The chunk holds its datagrams and nothing else, and at least one.
    pub closed spec fn wf(self, m: BufMargins) -> bool {
        &&& self.transmits@.len() > 0
        &&& total_len(self.transmits@, m) == contents(self.data).len()
    }

    /// The datagrams in the chunk, first to last.
    pub closed spec fn datagrams(self, m: BufMargins) -> Seq<Datagram> {
        frames(contents(self.data), self.transmits@, m)
    }
}

/// The datagrams of a run of sealed chunks, first to last.
pub open spec fn all_datagrams(chunks: Seq<SealedChunk>, m: BufMargins) -> Seq<Datagram>
    decreases chunks.len(),
{
    if chunks.len() == 0 {
        Seq::empty()
    } else {
        chunks[0].datagrams(m) + all_datagrams(chunks.skip(1), m)
    }
}

proof fn lemma_all_datagrams_push(chunks: Seq<SealedChunk>, c: SealedChunk, m: BufMargins)
    ensures
        all_datagrams(chunks.push(c), m) == all_datagrams(chunks, m) + c.datagrams(m),
    decreases chunks.len(),
{
    if chunks.len() == 0 {
        assert(all_datagrams(chunks.push(c).skip(1), m) =~= Seq::<Datagram>::empty());
    } else {
        assert(chunks.push(c).skip(1) =~= chunks.skip(1).push(c));
        lemma_all_datagrams_push(chunks.skip(1), c, m);
    }
}

/// The outbound queue of one connection.
pub struct Egress {
    margins: BufMargins,
    acc: BufAcc,
    staged: VecDeque<TransmitInfo>,
    sealed: VecDeque<SealedChunk>,
}

impl Egress {
    /// The margins put around every datagram.
    pub closed spec fn margins(self) -> BufMargins {
        self.margins
    }

    /// The capacity of each accumulator.
    pub closed spec fn capacity(self) -> usize {
        self.acc.capacity()
    }

    /// The queue's parts agree: every chunk, sealed or open, holds exactly
    /// the datagrams of its transmits, and every datagram is a payload
    /// between the queue's margins.
    pub closed spec fn wf(self) -> bool {
        &&& total_len(self.staged@, self.margins) == self.acc@.len()
        &&& forall|i: int|
            0 <= i < self.sealed@.len() ==> (#[trigger] self.sealed@[i]).wf(self.margins)
        &&& forall|i: int|
            0 <= i < self.datagrams().len() ==> is_framed(
                (#[trigger] self.datagrams()[i]).bytes,
                self.margins,
            )
    }

    /// The datagrams waiting in sealed chunks, first to last.
    pub closed spec fn sealed_datagrams(self) -> Seq<Datagram> {
        all_datagrams(self.sealed@, self.margins)
    }

    /// The datagrams staged in the open accumulator, first to last.
    pub closed spec fn staged_datagrams(self) -> Seq<Datagram> {
        frames(self.acc@, self.staged@, self.margins)
    }

    /// Every datagram waiting, in the order the core produced them.
    pub open spec fn datagrams(self) -> Seq<Datagram> {
        self.sealed_datagrams() + self.staged_datagrams()
    }

    /// An empty queue.
    pub fn new(margins: BufMargins, capacity: usize) -> (q: Egress)
        ensures
            q.wf(),
            q.margins() == margins,
            q.capacity() == capacity,
            q.datagrams() == Seq::<Datagram>::empty(),
    {
        Egress {
            margins,
            acc: BufAcc::new(capacity),
            staged: VecDeque::new(),
            sealed: VecDeque::new(),
        }
    }

    /// Whether no datagram waits.
    pub fn is_empty(&self) -> (e: bool)
        requires
            self.wf(),
        ensures
            e == (self.datagrams().len() == 0),
    {
        proof {
            if self.sealed@.len() > 0 {
                let c = self.sealed@[0];
            }
        }
        self.sealed.len() == 0 && self.staged.len() == 0
    }

    /// Hands the open accumulator, if anything is staged in it, to the
    /// sealed chunks and installs a fresh one.
    pub fn seal(&mut self)
        requires
            old(self).wf(),
        ensures
            final(self).wf(),
            final(self).margins() == old(self).margins(),
            final(self).capacity() == old(self).capacity(),
            final(self).datagrams() == old(self).datagrams(),
            final(self).staged_datagrams() == Seq::<Datagram>::empty(),
    {
        if self.staged.len() > 0 {
            let mut transmits: VecDeque<TransmitInfo> = VecDeque::new();
            core::mem::swap(&mut self.staged, &mut transmits);
            let data = self.acc.renew();
            let chunk = SealedChunk { data, transmits };
            proof {
                lemma_all_datagrams_push(self.sealed@, chunk, self.margins);
            }
            self.sealed.push_back(chunk);
            assert(self.datagrams() =~= old(self).datagrams());
        }
    }

    /// Stages one datagram of the core's behind those already waiting. When
    /// it does not fit into the open accumulator, the accumulator rotates
    /// first.
    pub fn stage(&mut self, payload: &[u8], info: TransmitInfo)
        requires
            old(self).wf(),
            info.size == payload@.len(),
            old(self).margins().framed_len(payload@.len() as int) <= usize::MAX,
        ensures
            final(self).wf(),
            final(self).margins() == old(self).margins(),
            final(self).capacity() == old(self).capacity(),
            final(self).datagrams() == old(self).datagrams().push(
                Datagram { route: info.raw, bytes: framed(old(self).margins(), payload@) },
            ),
    {
        if !self.acc.fits(payload.len(), self.margins) {
            self.seal();
        }
        let ghost before = *self;
        let ghost d = Datagram { route: info.raw, bytes: framed(self.margins, payload@) };
        proof {
            lemma_frames_push(
                self.acc@,
                self.staged@,
                self.margins,
                framed(self.margins, payload@),
                info,
            );
        }
        self.acc.push(payload, self.margins);
        self.staged.push_back(info);
        assert(self.datagrams() =~= before.datagrams().push(d));
    }

    /// Stages one datagram of the core's if its framed length fits the
    /// machine's integers, and tells whether it did.
    pub fn offer(&mut self, payload: &[u8], info: TransmitInfo) -> (staged: bool)
        requires
            old(self).wf(),
            info.size == payload@.len(),
        ensures
            final(self).wf(),
            final(self).margins() == old(self).margins(),
            final(self).capacity() == old(self).capacity(),
            staged == (old(self).margins().framed_len(payload@.len() as int) <= usize::MAX),
            staged ==> final(self).datagrams() == old(self).datagrams().push(
                Datagram { route: info.raw, bytes: framed(old(self).margins(), payload@) },
            ),
            !staged ==> final(self).datagrams() == old(self).datagrams(),
    {
        match self.margins.checked_framed_len(payload.len()) {
            Some(_) => {
                self.stage(payload, info);
                true
            },
            None => false,
        }
    }

    /// Takes the datagram that has waited longest, split off its chunk.
    pub fn pop(&mut self) -> (p: Option<QuicPacket>)
        requires
            old(self).wf(),
        ensures
            final(self).wf(),
            final(self).margins() == old(self).margins(),
            final(self).capacity() == old(self).capacity(),
            p is Some <==> old(self).datagrams().len() > 0,
            p is None ==> final(self).datagrams() == old(self).datagrams(),
            p matches Some(packet) ==> {
                &&& packet.transmit == old(self).datagrams()[0].route
                &&& contents(packet.payload) == old(self).datagrams()[0].bytes
                &&& is_framed(contents(packet.payload), old(self).margins())
                &&& final(self).datagrams() == old(self).datagrams().skip(1)
            },
    {
        if self.sealed.len() == 0 {
            self.seal();
        }
        let ghost before = *self;
        let ghost m = self.margins;
        match self.sealed.pop_front() {
            None => None,
            Some(chunk) => {
                let ghost rest = before.sealed@.skip(1);
                let SealedChunk { data, transmits } = chunk;
                let mut data = data;
                let mut transmits = transmits;
                let ghost whole = contents(data);
                let ghost ts = transmits@;
                // The frame lies within the chunk, whose length is a `usize`.
                let _ = data.len();
                match transmits.pop_front() {
                    None => None,
                    Some(info) => {
                        proof {
                            lemma_total_len_nonneg(ts.skip(1), m);
                        }
                        let n: usize = self.margins.header + info.size + self.margins.trailer;
                        let payload = data.split_to(n);
                        let ghost first = Datagram { route: info.raw, bytes: whole.subrange(0, n as int) };
                        let left = SealedChunk { data, transmits };
                        if left.transmits.len() > 0 {
                            self.sealed.push_front(left);
                            assert(self.sealed@.skip(1) =~= rest);
                            assert forall|i: int| 0 <= i < self.sealed@.len() implies (
                            #[trigger] self.sealed@[i]).wf(m) by {}
                        } else {
                            assert(left.datagrams(m) =~= Seq::<Datagram>::empty());
                        }
                        assert(before.datagrams()[0] == first);
                        assert forall|i: int| 0 <= i < self.datagrams().len() implies is_framed(
                            (#[trigger] self.datagrams()[i]).bytes,
                            m,
                        ) by {
                            assert(self.datagrams()[i] == before.datagrams()[i + 1]);
                        }
                        Some(QuicPacket { transmit: info.raw, payload })
                    },
                }
            },
        }
    }
}

} // verus!
