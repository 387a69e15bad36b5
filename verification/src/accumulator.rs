//! A staging area in which many outbound datagrams are packed into one
//! allocation.

use crate::bytes_model::contents;
use crate::margins::{framed, BufMargins};
use bytes::BytesMut;
use vstd::prelude::*;

verus! {

/// An outbound staging area of a configured capacity. Datagrams are
/// appended one behind the other, each between its margins.
pub struct BufAcc {
    acc: BytesMut,
    capacity: usize,
}

impl View for BufAcc {
    type V = Seq<u8>;

    /// The bytes staged so far.
    closed spec fn view(&self) -> Seq<u8> {
        contents(self.acc)
    }
}

impl BufAcc {
    /// The capacity that the accumulator was made with.
    pub closed spec fn capacity(self) -> usize {
        self.capacity
    }

    /// Whether a datagram of `payload_len` bytes fits behind what is
    /// staged: the accumulator stays within its capacity.
    pub open spec fn has_room(self, payload_len: int, margins: BufMargins) -> bool {
        self@.len() + margins.framed_len(payload_len) <= self.capacity()
    }

    /// An empty accumulator.
    pub fn new(capacity: usize) -> (a: BufAcc)
        ensures
            a@ == Seq::<u8>::empty(),
            a.capacity() == capacity,
    {
        BufAcc { acc: BytesMut::with_capacity(capacity), capacity }
    }

    /// The number of bytes staged.
    pub fn len(&self) -> (n: usize)
        ensures
            n == self@.len(),
    {
        self.acc.len()
    }

    /// Whether nothing is staged.
    pub fn is_empty(&self) -> (e: bool)
        ensures
            e == (self@.len() == 0),
    {
        self.acc.is_empty()
    }

    /// Whether a datagram of `payload_len` bytes fits behind what is staged.
    pub fn fits(&self, payload_len: usize, margins: BufMargins) -> (ok: bool)
        ensures
            ok == self.has_room(payload_len as int, margins),
    {
        match margins.checked_framed_len(payload_len) {
            None => false,
            Some(frame) => match self.acc.len().checked_add(frame) {
                None => false,
                Some(end) => end <= self.capacity,
            },
        }
    }

    /// Appends `payload` between zeroed margins.
    pub fn push(&mut self, payload: &[u8], margins: BufMargins)
        requires
            old(self)@.len() + margins.framed_len(payload@.len() as int) <= usize::MAX,
        ensures
            final(self)@ == old(self)@ + framed(margins, payload@),
            final(self).capacity() == old(self).capacity(),
    {
        let start: usize = self.acc.len();
        self.acc.resize(start + margins.header, 0);
        self.acc.extend_from_slice(payload);
        let body_end: usize = start + margins.header + payload.len();
        self.acc.resize(body_end + margins.trailer, 0);
    }

    /// Hands off what is staged and starts over with a fresh allocation.
    pub fn renew(&mut self) -> (sealed: BytesMut)
        ensures
            contents(sealed) == old(self)@,
            final(self)@ == Seq::<u8>::empty(),
            final(self).capacity() == old(self).capacity(),
    {
        let mut fresh = BytesMut::with_capacity(self.capacity);
        core::mem::swap(&mut self.acc, &mut fresh);
        fresh
    }

    /// Hands off what is staged.
    pub fn take(self) -> (sealed: BytesMut)
        ensures
            contents(sealed) == self@,
    {
        self.acc
    }
}

} // verus!
