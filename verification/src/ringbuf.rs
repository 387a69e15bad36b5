//! A ring of byte chunks with a budget of slots and of bytes: a bounded
//! queue for stream data that can be read out as one byte stream.

use crate::bytes_model::{append_to, payload};
use bytes::Bytes;
use vstd::prelude::*;
use vstd::seq_lib::lemma_flatten_concat;
use vstd::slice::slice_subrange;

verus! {

/// The slot that lies `i` places behind `from` in a ring of `length` slots.
pub open spec fn slot(from: int, i: int, length: int) -> int {
    if from + i < length {
        from + i
    } else {
        from + i - length
    }
}

/// A ring of `LENGTH` slots, one of which always stays free, that holds
/// chunks of bytes in their order. It counts as full when the slots are
/// used up or when it holds `SIZE` bytes or more.
pub struct QuicBytesRingBuf<const LENGTH: usize, const SIZE: usize> {
    inner: Vec<Bytes>,
    head: usize,
    tail: usize,
    bytes: usize,
}

impl<const LENGTH: usize, const SIZE: usize> View for QuicBytesRingBuf<LENGTH, SIZE> {
    type V = Seq<Seq<u8>>;

    /// The chunks held, front to back.
    closed spec fn view(&self) -> Seq<Seq<u8>> {
        Seq::new(
            self.count(),
            |i: int| payload(self.inner@[slot(self.head as int, i, LENGTH as int)]),
        )
    }
}

impl<const LENGTH: usize, const SIZE: usize> QuicBytesRingBuf<LENGTH, SIZE> {
    /// The number of chunks held.
    spec fn count(&self) -> nat {
        if self.tail >= self.head {
            (self.tail - self.head) as nat
        } else {
            (self.tail + LENGTH - self.head) as nat
        }
    }

    /// The ring's indices are in range and its byte count is the length of
    /// its stream.
    pub closed spec fn wf(&self) -> bool {
        &&& LENGTH > 0
        &&& self.inner@.len() == LENGTH
        &&& self.head < LENGTH
        &&& self.tail < LENGTH
        &&& self.bytes == self@.flatten().len()
    }

    /// The bytes held, as one stream.
    pub open spec fn stream(&self) -> Seq<u8> {
        self@.flatten()
    }

    /// Whether the ring takes no further chunk.
    pub open spec fn full(&self) -> bool {
        self@.len() + 1 == LENGTH || self.stream().len() >= SIZE
    }

    /// An empty ring. The ring needs a slot, and a byte budget of at least
    /// one byte for each slot.
    pub fn new() -> (r: Self)
        requires
            0 < LENGTH <= SIZE,
        ensures
            r.wf(),
            r@ == Seq::<Seq<u8>>::empty(),
    {
        let mut inner: Vec<Bytes> = Vec::new();
        while inner.len() < LENGTH
            invariant
                inner@.len() <= LENGTH,
            decreases LENGTH - inner@.len(),
        {
            inner.push(Bytes::new());
        }
        QuicBytesRingBuf { inner, head: 0, tail: 0, bytes: 0 }
    }

    /// An empty ring on the heap.
    pub fn new_boxed() -> (r: Box<Self>)
        requires
            0 < LENGTH <= SIZE,
        ensures
            r.wf(),
            r@ == Seq::<Seq<u8>>::empty(),
    {
        Box::new(Self::new())
    }

    /// The number of bytes held.
    pub fn bytes(&self) -> (n: usize)
        requires
            self.wf(),
        ensures
            n == self.stream().len(),
    {
        self.bytes
    }

    /// Whether the ring holds no chunk.
    pub fn is_empty(&self) -> (e: bool)
        requires
            self.wf(),
        ensures
            e == (self@.len() == 0),
    {
        self.head == self.tail
    }

    /// Whether the ring takes no further chunk.
    pub fn is_full(&self) -> (f: bool)
        requires
            self.wf(),
        ensures
            f == self.full(),
    {
        let next: usize = if self.tail + 1 == LENGTH {
            0
        } else {
            self.tail + 1
        };
        next == self.head || self.bytes >= SIZE
    }

    fn after(at: usize) -> (next: usize)
        requires
            at < LENGTH,
        ensures
            next == slot(at as int, 1, LENGTH as int),
            next < LENGTH,
    {
        if at + 1 == LENGTH {
            0
        } else {
            at + 1
        }
    }

    fn before(at: usize) -> (prev: usize)
        requires
            at < LENGTH,
        ensures
            prev == slot(at as int, LENGTH - 1, LENGTH as int),
            prev < LENGTH,
    {
        if at == 0 {
            LENGTH - 1
        } else {
            at - 1
        }
    }

    /// Takes the chunk out of slot `at` and leaves an empty one there.
    fn take(&mut self, at: usize) -> (chunk: Bytes)
        requires
            at < old(self).inner@.len(),
        ensures
            chunk == old(self).inner@[at as int],
            final(self).inner@.len() == old(self).inner@.len(),
            payload(final(self).inner@[at as int]) == Seq::<u8>::empty(),
            forall|j: int|
                0 <= j < old(self).inner@.len() && j != at ==> final(self).inner@[j] == old(self).inner@[j],
            final(self).head == old(self).head,
            final(self).tail == old(self).tail,
            final(self).bytes == old(self).bytes,
    {
        self.inner.push(Bytes::new());
        self.inner.swap_remove(at)
    }

    /// Puts `chunk` into slot `at`.
    fn put(&mut self, at: usize, chunk: Bytes)
        requires
            at < old(self).inner@.len(),
        ensures
            final(self).inner@ == old(self).inner@.update(at as int, chunk),
            final(self).head == old(self).head,
            final(self).tail == old(self).tail,
            final(self).bytes == old(self).bytes,
    {
        self.inner.push(chunk);
        let _ = self.inner.swap_remove(at);
    }

    /// Takes the chunk at the front.
    pub fn pop_front(&mut self) -> (chunk: Bytes)
        requires
            old(self).wf(),
            old(self)@.len() > 0,
        ensures
            final(self).wf(),
            payload(chunk) == old(self)@[0],
            final(self)@ == old(self)@.drop_first(),
    {
        let chunk = self.take(self.head);
        self.bytes = self.bytes - chunk.len();
        self.head = Self::after(self.head);
        assert(self@ =~= old(self)@.drop_first());
        chunk
    }

    /// Takes the chunk at the back.
    pub fn pop_back(&mut self) -> (chunk: Bytes)
        requires
            old(self).wf(),
            old(self)@.len() > 0,
        ensures
            final(self).wf(),
            payload(chunk) == old(self)@.last(),
            final(self)@ == old(self)@.drop_last(),
    {
        self.tail = Self::before(self.tail);
        let chunk = self.take(self.tail);
        assert(self@ =~= old(self)@.drop_last());
        proof {
            let rest = old(self)@.drop_last();
            let last = seq![old(self)@.last()];
            assert(old(self)@ =~= rest + last);
            lemma_flatten_concat(rest, last);
            last.lemma_flatten_one_element();
        }
        self.bytes = self.bytes - chunk.len();
        chunk
    }

    /// Puts a chunk in front of those held.
    pub fn push_front(&mut self, data: Bytes)
        requires
            old(self).wf(),
            !old(self).full(),
            old(self).stream().len() + payload(data).len() <= usize::MAX,
        ensures
            final(self).wf(),
            final(self)@ == seq![payload(data)] + old(self)@,
    {
        self.bytes = self.bytes + data.len();
        self.head = Self::before(self.head);
        self.put(self.head, data);
        assert(self@.drop_first() =~= old(self)@);
    }

    /// Puts a chunk behind those held.
    pub fn push_back(&mut self, data: Bytes)
        requires
            old(self).wf(),
            !old(self).full(),
            old(self).stream().len() + payload(data).len() <= usize::MAX,
        ensures
            final(self).wf(),
            final(self)@ == old(self)@.push(payload(data)),
    {
        self.bytes = self.bytes + data.len();
        self.put(self.tail, data);
        self.tail = Self::after(self.tail);
        proof {
            let last = seq![payload(data)];
            assert(self@ =~= old(self)@ + last);
            lemma_flatten_concat(old(self)@, last);
            last.lemma_flatten_one_element();
        }
    }

    /// Moves bytes from the front of the stream to the end of `out`: as
    /// many as the ring holds, at most `capacity`. Chunks that were read to
    /// their end leave the ring.
    pub fn read(&mut self, out: &mut Vec<u8>, capacity: usize) -> (n: usize)
        requires
            old(self).wf(),
        ensures
            final(self).wf(),
            n == if capacity <= old(self).stream().len() {
                capacity as int
            } else {
                old(self).stream().len() as int
            },
            final(out)@ == old(out)@ + old(self).stream().subrange(0, n as int),
            final(self).stream() == old(self).stream().skip(n as int),
            final(self)@.len() <= old(self)@.len(),
            n < capacity ==> final(self)@.len() == 0,
    {
        let held: usize = self.bytes;
        let mut left: usize = capacity;
        let ghost whole = self.stream();
        while self.head != self.tail && left > 0
            invariant
                self.wf(),
                left <= capacity,
                self.bytes <= held,
                capacity - left == held - self.bytes,
                held == whole.len(),
                out@ == old(out)@ + whole.subrange(0, held - self.bytes),
                self.stream() == whole.skip(held - self.bytes),
                self@.len() <= old(self)@.len(),
            ensures
                self.wf(),
                self.bytes <= held,
                capacity - left == held - self.bytes,
                left == 0 || self@.len() == 0,
                out@ == old(out)@ + whole.subrange(0, held - self.bytes),
                self.stream() == whole.skip(held - self.bytes),
                self@.len() <= old(self)@.len(),
            decreases self.count(),
        {
            let ghost ring = *self;
            let ghost done = held - self.bytes;
            let ghost ahead = whole.skip(done);
            let mut chunk = self.take(self.head);
            let len: usize = if chunk.len() <= left {
                chunk.len()
            } else {
                left
            };
            let piece = chunk.split_to(len);
            append_to(out, &piece);
            self.bytes = self.bytes - len;
            left = left - len;
            proof {
                assert(whole.subrange(0, done + len) =~= whole.subrange(0, done) + ahead.subrange(
                    0,
                    len as int,
                ));
                assert(whole.skip(done + len) =~= ahead.skip(len as int));
            }
            if chunk.is_empty() {
                self.head = Self::after(self.head);
                assert(self@ =~= ring@.drop_first());
            } else {
                self.put(self.head, chunk);
                assert(self@.drop_first() =~= ring@.drop_first());
                break ;
            }
        }
        held - self.bytes
    }

    /// Queues a copy of the front of `buf` as one chunk: as much as the
    /// byte budget still allows. A full ring takes nothing.
    pub fn write(&mut self, buf: &[u8]) -> (n: usize)
        requires
            old(self).wf(),
        ensures
            final(self).wf(),
            old(self).full() ==> n == 0 && final(self)@ == old(self)@,
            !old(self).full() ==> {
                &&& n == if buf@.len() <= SIZE - old(self).stream().len() {
                    buf@.len() as int
                } else {
                    SIZE - old(self).stream().len()
                }
                &&& final(self)@ == old(self)@.push(buf@.subrange(0, n as int))
            },
    {
        if self.is_full() {
            return 0;
        }
        let room: usize = SIZE - self.bytes;
        let len: usize = if buf.len() <= room {
            buf.len()
        } else {
            room
        };
        self.push_back(Bytes::copy_from_slice(slice_subrange(buf, 0, len)));
        len
    }
}

} // verus!
