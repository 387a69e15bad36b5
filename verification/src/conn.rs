//! The protected state of one connection: the protocol core and the tables
//! of parked readers and writers.

use crate::keys::drain_values;
use crate::ids::{Direction, StreamId, STREAM_ID_LIMIT};
use crate::protocol::{CoreConn, WriteResult};
use std::collections::HashMap;
use std::task::Waker;
use std::time::Instant;
use vstd::prelude::*;
use vstd::slice::{slice_subrange, slice_to_vec};

verus! {

broadcast use vstd::std_specs::hash::group_hash_axioms;

/// Why the core did not open a stream.
#[derive(Debug, Clone, Copy, PartialEq, Eq, Structural)]
pub enum OpenRefused {
    /// No stream id is left in that direction for now.
    Exhausted,
}

/// The error code with which a dropped stream is stopped and reset.
pub const CLOSE_CODE: u32 = 0;

/// The error code with which a destroyed connection is closed.
pub const DESTROY_CODE: u32 = 1;

/// What the core's answer to an open request means for the requester: the
/// new stream, or `Exhausted` when the core gave none.
pub fn admit_opened(got: Option<u64>) -> (r: Result<StreamId, OpenRefused>)
    ensures
        r is Ok <==> (got matches Some(raw) && raw < STREAM_ID_LIMIT),
        r matches Ok(id) ==> got == Some(id.number()),
        r matches Err(e) ==> e == OpenRefused::Exhausted,
{
    match got {
        Some(raw) => match StreamId::new(raw) {
            Some(id) => Ok(id),
            None => Err(OpenRefused::Exhausted),
        },
        None => Err(OpenRefused::Exhausted),
    }
}

/// What the core's answer to an accept means: the stream that the peer
/// opened, if the core offered one.
pub fn admit_accepted(got: Option<u64>) -> (r: Option<StreamId>)
    ensures
        r is Some <==> (got matches Some(raw) && raw < STREAM_ID_LIMIT),
        r matches Some(id) ==> got == Some(id.number()),
{
    match got {
        Some(raw) => StreamId::new(raw),
        None => None,
    }
}

/// A table of parked wakers after a stream was closed: the stream's entry
/// is gone and every other entry is as before.
pub open spec fn closed_table(table: Map<u64, Waker>, id: StreamId) -> Map<u64, Waker> {
    table.remove(id.number())
}

/// A table of parked wakers after a task parked on a stream: the stream has
/// this waker and no other.
pub open spec fn parked_table(table: Map<u64, Waker>, id: StreamId, waker: Waker) -> Map<
    u64,
    Waker,
> {
    table.insert(id.number(), waker)
}

/// Parking twice on one stream leaves one waker, the later one: the first
/// is replaced, not kept beside it.
pub proof fn lemma_repark_replaces(table: Map<u64, Waker>, id: StreamId, first: Waker, second: Waker)
    ensures
        parked_table(parked_table(table, id, first), id, second) == parked_table(table, id, second),
        parked_table(parked_table(table, id, first), id, second).dom() == parked_table(
            table,
            id,
            first,
        ).dom(),
{
}

/// Closing a stream a second time changes nothing in a table of wakers.
pub proof fn lemma_close_again(table: Map<u64, Waker>, id: StreamId)
    ensures
        closed_table(closed_table(table, id), id) == closed_table(table, id),
        !closed_table(table, id).contains_key(id.number()),
{
}

/// Bytes that a stream handle took from its writer and that the core has
/// not taken yet. While a stream has a tail, its handle takes nothing
/// more, so the core gets every byte in the order it was written.
pub struct Tail {
    pub bytes: Vec<u8>,
    /// Whether the stream is to be finished once the tail is through.
    pub fin: bool,
}

/// How one hand-over to the core went.
#[derive(Debug, Clone, Copy, PartialEq, Eq, Structural)]
pub enum PushStep {
    /// The core took this many bytes, at least one.
    Taken { bytes: usize },
    /// The core took nothing for now.
    Blocked,
    /// The stream can no longer be written to.
    Broken,
}

/// How a run of hand-overs went: how many bytes the core took in all, and
/// whether it ended because the stream can no longer be written to.
#[derive(Debug, Clone, Copy, PartialEq, Eq, Structural)]
pub struct Pushed {
    pub taken: usize,
    pub broken: bool,
}

/// What became of a stream's tail when the core was offered it again.
#[derive(Debug, Clone, Copy, PartialEq, Eq, Structural)]
pub enum Flushed {
    /// No tail is left: there was none, or the core took all of it.
    Through,
    /// The core is still blocked; what it did not take waits on.
    Waiting,
    /// The stream can no longer be written to; the tail is dropped.
    Broken,
}

/// What the core's answer to a write of `len` bytes means. Taking nothing
/// is being blocked.
pub open spec fn push_step(len: int, result: WriteResult) -> PushStep {
    match result {
        WriteResult::Written { bytes } => if 0 < bytes <= len {
            PushStep::Taken { bytes }
        } else {
            PushStep::Blocked
        },
        WriteResult::Blocked => PushStep::Blocked,
        WriteResult::Stopped { code } => PushStep::Broken,
        WriteResult::Closed => PushStep::Broken,
    }
}

/// What the core's answer to a write of `len` bytes means.
pub fn stepped(len: usize, result: WriteResult) -> (step: PushStep)
    ensures
        step == push_step(len as int, result),
{
    match result {
        WriteResult::Written { bytes } => if 0 < bytes && bytes <= len {
            PushStep::Taken { bytes }
        } else {
            PushStep::Blocked
        },
        WriteResult::Blocked => PushStep::Blocked,
        WriteResult::Stopped { code } => PushStep::Broken,
        WriteResult::Closed => PushStep::Broken,
    }
}

/// What is left of a tail of `len` bytes after a run of hand-overs: nothing
/// where the core took all of it, a wait where it took less, and a broken
/// stream where the run ended so.
pub open spec fn flush_outcome(len: int, pushed: Pushed) -> Flushed {
    if pushed.broken {
        Flushed::Broken
    } else if pushed.taken >= len {
        Flushed::Through
    } else {
        Flushed::Waiting
    }
}

/// The state that the runner and the stream handles share under one lock.
pub struct ConnState {
    pub core: CoreConn,
    pub readers: HashMap<u64, Waker>,
    pub writers: HashMap<u64, Waker>,
    /// What the handles have taken from their writers and the core has not
    /// taken yet, by stream.
    pub tails: HashMap<u64, Tail>,
    /// Whether the connection was destroyed: no runner drives it any more.
    pub closed: bool,
    /// Whether the core has reported the handshake complete.
    pub established: bool,
}

impl ConnState {
    /// Whether this end is the server of the connection.
    pub open spec fn is_server(&self) -> bool {
        self.core.is_server()
    }

    /// Whether this is the state of a connection that the core just
    /// created: nobody is parked, nothing waits to be written, and the
    /// connection is neither established nor closed.
    pub open spec fn fresh(&self) -> bool {
        &&& self.readers@ == Map::<u64, Waker>::empty()
        &&& self.writers@ == Map::<u64, Waker>::empty()
        &&& self.tails@ == Map::<u64, Tail>::empty()
        &&& !self.closed
        &&& !self.established
    }

    /// The state around a connection that the core just created: nobody is
    /// parked.
    pub fn new(core: CoreConn) -> (s: ConnState)
        ensures
            s.core == core,
            s.fresh(),
            s.readers@ == Map::<u64, Waker>::empty(),
            s.writers@ == Map::<u64, Waker>::empty(),
            s.tails@ == Map::<u64, Tail>::empty(),
            !s.closed,
            !s.established,
    {
        ConnState {
            core,
            readers: HashMap::new(),
            writers: HashMap::new(),
            tails: HashMap::new(),
            closed: false,
            established: false,
        }
    }

    /// Asks the core for a new stream. Whatever the core answers, nobody is
    /// parked or woken. A stream that the core grants runs in the direction
    /// asked for and counts as opened by this end, so this end can write
    /// to it.
    pub fn open(&mut self, dir: Direction) -> (r: Result<StreamId, OpenRefused>)
        ensures
            final(self).readers == old(self).readers,
            final(self).writers == old(self).writers,
            final(self).closed == old(self).closed,
            final(self).tails == old(self).tails,
            final(self).established == old(self).established,
            final(self).is_server() == old(self).is_server(),
            r matches Err(e) ==> e == OpenRefused::Exhausted,
            r matches Ok(id) ==> {
                &&& id.is_bi() == (dir == Direction::Bi)
                &&& id.by_server() == old(self).is_server()
                &&& id.writable_by(old(self).is_server())
            },
    {
        admit_opened(self.core.open(dir))
    }

    /// Asks the core for the next stream that the peer opened. Whatever the
    /// core answers, nobody is parked or woken. A stream that the core
    /// hands out runs in the direction asked for and counts as opened by
    /// the peer, so this end can read from it.
    pub fn accept(&mut self, dir: Direction) -> (r: Option<StreamId>)
        ensures
            final(self).readers == old(self).readers,
            final(self).writers == old(self).writers,
            final(self).closed == old(self).closed,
            final(self).tails == old(self).tails,
            final(self).established == old(self).established,
            final(self).is_server() == old(self).is_server(),
            r matches Some(id) ==> {
                &&& id.is_bi() == (dir == Direction::Bi)
                &&& id.by_server() != old(self).is_server()
                &&& id.readable_by(old(self).is_server())
            },
    {
        admit_accepted(self.core.accept(dir))
    }

    /// Parks a reader on a stream, in place of one parked there before.
    pub fn park_reader(&mut self, id: StreamId, waker: Waker)
        ensures
            final(self).readers@ == parked_table(old(self).readers@, id, waker),
            final(self).writers == old(self).writers,
            final(self).core == old(self).core,
            final(self).closed == old(self).closed,
            final(self).tails == old(self).tails,
            final(self).established == old(self).established,
    {
        let _ = self.readers.insert(id.raw(), waker);
    }

    /// Parks a writer on a stream, in place of one parked there before.
    pub fn park_writer(&mut self, id: StreamId, waker: Waker)
        ensures
            final(self).writers@ == parked_table(old(self).writers@, id, waker),
            final(self).readers == old(self).readers,
            final(self).core == old(self).core,
            final(self).closed == old(self).closed,
            final(self).tails == old(self).tails,
            final(self).established == old(self).established,
    {
        let _ = self.writers.insert(id.raw(), waker);
    }

    /// Hands `data` to the core, piece by piece, until the core has taken
    /// all of it, takes nothing more, or reports the stream broken. A
    /// hand-over that the core answers with "blocked" also makes the core
    /// report the stream writable once it has room again.
    pub fn push(&mut self, id: StreamId, data: &[u8]) -> (pushed: Pushed)
        requires
            id.writable_by(old(self).is_server()),
        ensures
            pushed.taken <= data@.len(),
            data@.len() == 0 ==> pushed.taken == 0 && !pushed.broken && final(self).core == old(self).core,
            final(self).readers == old(self).readers,
            final(self).writers == old(self).writers,
            final(self).tails == old(self).tails,
            final(self).closed == old(self).closed,
            final(self).established == old(self).established,
            final(self).is_server() == old(self).is_server(),
    {
        let mut taken: usize = 0;
        let mut broken = false;
        while taken < data.len()
            invariant_except_break
                !broken,
            invariant
                taken <= data@.len(),
                data@.len() == 0 ==> self.core == old(self).core,
                id.writable_by(self.is_server()),
                self.readers == old(self).readers,
                self.writers == old(self).writers,
                self.tails == old(self).tails,
                self.closed == old(self).closed,
                self.established == old(self).established,
                self.is_server() == old(self).is_server(),
            ensures
                taken <= data@.len(),
                data@.len() == 0 ==> !broken && self.core == old(self).core,
                self.readers == old(self).readers,
                self.writers == old(self).writers,
                self.tails == old(self).tails,
                self.closed == old(self).closed,
                self.established == old(self).established,
                self.is_server() == old(self).is_server(),
            decreases data@.len() - taken,
        {
            let rest = slice_subrange(data, taken, data.len());
            match stepped(rest.len(), self.core.write(id, rest)) {
                PushStep::Taken { bytes } => {
                    taken = taken + bytes;
                },
                PushStep::Blocked => break ,
                PushStep::Broken => {
                    broken = true;
                    break ;
                },
            }
        }
        Pushed { taken, broken }
    }

    /// What is left of a tail of `len` bytes after a run of hand-overs.
    pub fn flushed(len: usize, pushed: Pushed) -> (f: Flushed)
        ensures
            f == flush_outcome(len as int, pushed),
    {
        if pushed.broken {
            Flushed::Broken
        } else if pushed.taken >= len {
            Flushed::Through
        } else {
            Flushed::Waiting
        }
    }

    /// Offers the core the tail of stream `raw` again, when the core has
    /// reported the stream writable.
    ///
    /// Without a tail nothing is done. A tail that the core takes whole is
    /// gone, and the stream is finished if that was asked. Where the core
    /// takes less, what it did not take waits on under the same stream. A
    /// tail of a stream that can no longer be written to is dropped.
    pub fn flush_tail(&mut self, raw: u64) -> (f: Flushed)
        ensures
            final(self).readers == old(self).readers,
            final(self).writers == old(self).writers,
            final(self).closed == old(self).closed,
            final(self).established == old(self).established,
            final(self).is_server() == old(self).is_server(),
            !old(self).tails@.contains_key(raw) ==> {
                &&& f is Through
                &&& final(self).core == old(self).core
                &&& final(self).tails@ == old(self).tails@
            },
            f is Waiting ==> {
                &&& old(self).tails@.contains_key(raw)
                &&& final(self).tails@.contains_key(raw)
                &&& final(self).tails@[raw].fin == old(self).tails@[raw].fin
                &&& final(self).tails@[raw].bytes@.len() > 0
                &&& final(self).tails@[raw].bytes@.is_suffix_of(old(self).tails@[raw].bytes@)
                &&& final(self).tails@.remove(raw) == old(self).tails@.remove(raw)
            },
            !(f is Waiting) ==> final(self).tails@ == old(self).tails@.remove(raw),
    {
        let server = self.core.server();
        match self.tails.remove(&raw) {
            None => {
                assert(self.tails@ =~= old(self).tails@);
                Flushed::Through
            },
            Some(tail) => {
                let Tail { bytes, fin } = tail;
                let mut bytes = bytes;
                match StreamId::new(raw) {
                    None => Flushed::Broken,
                    Some(id) => {
                        if !id.can_write(server) {
                            return Flushed::Broken;
                        }
                        let pushed = self.push(id, bytes.as_slice());
                        let outcome = Self::flushed(bytes.len(), pushed);
                        match outcome {
                            Flushed::Through => {
                                if fin {
                                    let _ = self.core.finish(id);
                                }
                            },
                            Flushed::Waiting => {
                                let rest = bytes.split_off(pushed.taken);
                                let _ = self.tails.insert(raw, Tail { bytes: rest, fin });
                                assert(self.tails@.remove(raw) =~= old(self).tails@.remove(raw));
                            },
                            Flushed::Broken => {},
                        }
                        outcome
                    },
                }
            },
        }
    }

    /// Closes a stream whose handle was dropped: stops its receive side and
    /// resets its send side, as far as this end has them, drops what the
    /// core has not taken of its writes, and wakes whoever is parked on it.
    pub fn close(&mut self, id: StreamId)
        ensures
            final(self).readers@ == closed_table(old(self).readers@, id),
            final(self).writers@ == closed_table(old(self).writers@, id),
            final(self).tails@ == old(self).tails@.remove(id.number()),
            final(self).closed == old(self).closed,
            final(self).established == old(self).established,
            final(self).is_server() == old(self).is_server(),
    {
        let server = self.core.server();
        if id.can_read(server) {
            let _ = self.core.stop(id, CLOSE_CODE);
        }
        if let Some(waker) = self.readers.remove(&id.raw()) {
            waker.wake();
        }
        let _ = self.tails.remove(&id.raw());
        if id.can_write(server) {
            let _ = self.core.reset(id, CLOSE_CODE);
        }
        if let Some(waker) = self.writers.remove(&id.raw()) {
            waker.wake();
        }
    }

    /// Wakes everybody who is parked, empties both tables and drops every
    /// tail.
    pub fn clear(&mut self)
        ensures
            final(self).readers@ == Map::<u64, Waker>::empty(),
            final(self).writers@ == Map::<u64, Waker>::empty(),
            final(self).tails@ == Map::<u64, Tail>::empty(),
            final(self).core == old(self).core,
            final(self).closed == old(self).closed,
            final(self).established == old(self).established,
    {
        let mut parked = drain_values(&mut self.readers);
        let mut blocked = drain_values(&mut self.writers);
        parked.append(&mut blocked);
        self.tails.clear();
        while parked.len() > 0
            invariant
                self.readers@ == Map::<u64, Waker>::empty(),
                self.writers@ == Map::<u64, Waker>::empty(),
                self.tails@ == Map::<u64, Tail>::empty(),
                self.core == old(self).core,
                self.closed == old(self).closed,
                self.established == old(self).established,
            decreases parked@.len(),
        {
            if let Some(waker) = parked.pop() {
                waker.wake();
            }
        }
    }

    /// Closes the connection at once, marks it closed and wakes everybody
    /// who is parked, so that each sees the connection gone on its next
    /// poll.
    pub fn destroy(&mut self, now: Instant)
        ensures
            final(self).closed,
            final(self).established == old(self).established,
            final(self).readers@ == Map::<u64, Waker>::empty(),
            final(self).writers@ == Map::<u64, Waker>::empty(),
            final(self).tails@ == Map::<u64, Tail>::empty(),
            final(self).is_server() == old(self).is_server(),
    {
        self.core.close(now, DESTROY_CODE, "QUIC connection destroyed".as_bytes());
        self.closed = true;
        self.clear();
    }
}

} // verus!
