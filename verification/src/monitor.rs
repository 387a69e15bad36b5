//! Byte and stall counters for a monitored stream, the rates between two
//! samples, and the list of the streams that are watched.

use crate::keys::keys_of;
use std::collections::HashMap;
use vstd::prelude::*;

verus! {

broadcast use vstd::std_specs::hash::group_hash_axioms;

/// `a + b` modulo 2^64: what a wrapping counter shows after `b` more.
pub open spec fn wrap64(a: u64, b: int) -> u64 {
    ((a + b) % 0x1_0000_0000_0000_0000) as u64
}

/// `a - b`, or zero where `b` exceeds `a`.
pub open spec fn sub_or_zero(a: int, b: int) -> int {
    if a >= b {
        a - b
    } else {
        0
    }
}

/// `a + b`, or the largest `u64` where the sum exceeds it.
pub open spec fn add_or_max(a: u64, b: u64) -> u64 {
    if a + b > u64::MAX {
        u64::MAX
    } else {
        (a + b) as u64
    }
}

/// The counters of one stream. The totals count since the stream was made
/// and wrap around; the `last_` fields hold the totals at the latest sample.
#[derive(Debug)]
pub struct StreamStats {
    pub id: usize,
    pub name: String,
    pub total_rx: u64,
    pub total_tx: u64,
    pub last_rx: u64,
    pub last_tx: u64,
    pub total_write_pending: usize,
    pub last_write_pending: usize,
}

/// What a stream did between two samples: bytes received, bytes sent, both
/// together, and how often a poll found it blocked.
#[derive(Debug, Clone, Copy, PartialEq, Eq, Structural)]
pub struct Rates {
    pub rx: u64,
    pub tx: u64,
    pub total: u64,
    pub pending: usize,
}

impl StreamStats {
    /// Counters at zero for the stream `id`, which is shown as `name`.
    pub fn new(id: usize, name: &str) -> (s: StreamStats)
        ensures
            s.id == id,
            s.name@ == name@,
            s.total_rx == 0 && s.total_tx == 0 && s.last_rx == 0 && s.last_tx == 0,
            s.total_write_pending == 0 && s.last_write_pending == 0,
    {
        StreamStats {
            id,
            name: name.to_owned(),
            total_rx: 0,
            total_tx: 0,
            last_rx: 0,
            last_tx: 0,
            total_write_pending: 0,
            last_write_pending: 0,
        }
    }

    /// The rates since the latest sample. A total that is below its value
    /// at the latest sample, as after a wrap, counts as no progress. The
    /// totals of now become the latest sample.
    pub fn sample(&mut self) -> (r: Rates)
        ensures
            r.rx == sub_or_zero(old(self).total_rx as int, old(self).last_rx as int),
            r.tx == sub_or_zero(old(self).total_tx as int, old(self).last_tx as int),
            r.total == add_or_max(r.rx, r.tx),
            r.pending == sub_or_zero(
                old(self).total_write_pending as int,
                old(self).last_write_pending as int,
            ),
            final(self).last_rx == old(self).total_rx,
            final(self).last_tx == old(self).total_tx,
            final(self).last_write_pending == old(self).total_write_pending,
            final(self).total_rx == old(self).total_rx,
            final(self).total_tx == old(self).total_tx,
            final(self).total_write_pending == old(self).total_write_pending,
            final(self).id == old(self).id,
            final(self).name == old(self).name,
    {
        let rx: u64 = if self.total_rx >= self.last_rx {
            self.total_rx - self.last_rx
        } else {
            0
        };
        let tx: u64 = if self.total_tx >= self.last_tx {
            self.total_tx - self.last_tx
        } else {
            0
        };
        let pending: usize = if self.total_write_pending >= self.last_write_pending {
            self.total_write_pending - self.last_write_pending
        } else {
            0
        };
        let total: u64 = if rx > u64::MAX - tx {
            u64::MAX
        } else {
            rx + tx
        };
        self.last_rx = self.total_rx;
        self.last_tx = self.total_tx;
        self.last_write_pending = self.total_write_pending;
        Rates { rx, tx, total, pending }
    }
}

impl StreamStats {
    /// Whether these are the counters of a stream that was just made, under
    /// the given id and name.
    pub open spec fn fresh(&self, id: usize, name: Seq<char>) -> bool {
        &&& self.id == id
        &&& self.name@ == name
        &&& self.total_rx == 0 && self.total_tx == 0
        &&& self.last_rx == 0 && self.last_tx == 0
        &&& self.total_write_pending == 0 && self.last_write_pending == 0
    }
}

/// The id after `id`: one more, and zero after the largest.
pub open spec fn next_id_after(id: usize) -> usize {
    if id == usize::MAX {
        0
    } else {
        (id + 1) as usize
    }
}

/// The streams that are watched, by id, and the id that the next one gets.
pub struct StreamMonitor {
    pub next_id: usize,
    pub streams: HashMap<usize, StreamStats>,
}

impl StreamMonitor {
    /// A monitor that watches nothing; the first stream gets the id zero.
    pub fn new() -> (m: StreamMonitor)
        ensures
            m.next_id == 0,
            m.streams@ == Map::<usize, StreamStats>::empty(),
    {
        StreamMonitor { next_id: 0, streams: HashMap::new() }
    }

    /// Wraps `inner` so that its traffic is counted: it gets the next id,
    /// and counters at zero are listed under that id; the id after it is
    /// the next. Every other listed stream stays as it is.
    pub fn watch<T>(&mut self, inner: T, name: &str) -> (m: MonitoredStream<T>)
        ensures
            m.inner == inner,
            m.stats.fresh(old(self).next_id, name@),
            final(self).next_id == next_id_after(old(self).next_id),
            final(self).streams@.dom() == old(self).streams@.dom().insert(old(self).next_id),
            final(self).streams@[old(self).next_id].fresh(old(self).next_id, name@),
            forall|k: usize|
                k != old(self).next_id && old(self).streams@.contains_key(k) ==> #[trigger] final(self).streams@[k] == old(self).streams@[k],
    {
        let id = self.next_id;
        self.next_id = if id == usize::MAX {
            0
        } else {
            id + 1
        };
        self.streams.insert(id, StreamStats::new(id, name));
        MonitoredStream::new(inner, name, id)
    }

    /// Takes the stream `id` off the list.
    pub fn forget(&mut self, id: usize)
        ensures
            final(self).next_id == old(self).next_id,
            final(self).streams@ == old(self).streams@.remove(id),
    {
        self.streams.remove(&id);
    }

    /// Puts the totals of a watched stream on the list, under the stream's
    /// id. What was last sampled stays. A stream that is not listed changes
    /// nothing.
    pub fn publish(&mut self, stats: &StreamStats)
        ensures
            final(self).next_id == old(self).next_id,
            final(self).streams@.dom() == old(self).streams@.dom(),
            forall|k: usize|
                k != stats.id && old(self).streams@.contains_key(k) ==> #[trigger] final(self).streams@[k] == old(self).streams@[k],
            old(self).streams@.contains_key(stats.id) ==> {
                let now = final(self).streams@[stats.id];
                let was = old(self).streams@[stats.id];
                &&& now.total_rx == stats.total_rx
                &&& now.total_tx == stats.total_tx
                &&& now.total_write_pending == stats.total_write_pending
                &&& now.last_rx == was.last_rx
                &&& now.last_tx == was.last_tx
                &&& now.last_write_pending == was.last_write_pending
                &&& now.id == was.id
                &&& now.name == was.name
            },
    {
        match self.streams.remove(&stats.id) {
            Some(listed) => {
                let mut listed = listed;
                listed.total_rx = stats.total_rx;
                listed.total_tx = stats.total_tx;
                listed.total_write_pending = stats.total_write_pending;
                self.streams.insert(stats.id, listed);
                assert(final(self).streams@.dom() =~= old(self).streams@.dom());
            },
            None => {
                assert(final(self).streams@ =~= old(self).streams@);
            },
        }
    }

    /// The rates of the stream `id` since its latest sample, as
    /// `StreamStats::sample` gives them, and its name; `None` for a stream
    /// that is not listed, which changes nothing.
    pub fn sample(&mut self, id: usize) -> (r: Option<(String, Rates)>)
        ensures
            final(self).next_id == old(self).next_id,
            final(self).streams@.dom() == old(self).streams@.dom(),
            forall|k: usize|
                k != id && old(self).streams@.contains_key(k) ==> #[trigger] final(self).streams@[k] == old(self).streams@[k],
            r is Some <==> old(self).streams@.contains_key(id),
            r matches Some(named) ==> {
                let now = final(self).streams@[id];
                let was = old(self).streams@[id];
                &&& named.0@ == was.name@
                &&& named.1.rx == sub_or_zero(was.total_rx as int, was.last_rx as int)
                &&& named.1.tx == sub_or_zero(was.total_tx as int, was.last_tx as int)
                &&& named.1.total == add_or_max(named.1.rx, named.1.tx)
                &&& named.1.pending == sub_or_zero(
                    was.total_write_pending as int,
                    was.last_write_pending as int,
                )
                &&& now.last_rx == was.total_rx
                &&& now.last_tx == was.total_tx
                &&& now.last_write_pending == was.total_write_pending
                &&& now.total_rx == was.total_rx
                &&& now.total_tx == was.total_tx
                &&& now.total_write_pending == was.total_write_pending
                &&& now.id == was.id
                &&& now.name == was.name
            },
    {
        match self.streams.remove(&id) {
            Some(listed) => {
                let mut listed = listed;
                let rates = listed.sample();
                let name = listed.name.clone();
                self.streams.insert(id, listed);
                assert(final(self).streams@.dom() =~= old(self).streams@.dom());
                Some((name, rates))
            },
            None => {
                assert(final(self).streams@ =~= old(self).streams@);
                None
            },
        }
    }

    /// The ids of the listed streams, each once.
    pub fn ids(&self) -> (ids: Vec<usize>)
        ensures
            ids@.to_set() == self.streams@.dom(),
            ids@.no_duplicates(),
    {
        keys_of(&self.streams)
    }
}

/// A stream together with its counters.
pub struct MonitoredStream<T> {
    pub inner: T,
    pub stats: StreamStats,
}

impl<T> MonitoredStream<T> {
    /// Wraps `inner` with counters at zero, under the given id and name.
    pub fn new(inner: T, name: &str, id: usize) -> (m: MonitoredStream<T>)
        ensures
            m.inner == inner,
            m.stats.id == id,
            m.stats.name@ == name@,
            m.stats.total_rx == 0 && m.stats.total_tx == 0,
            m.stats.last_rx == 0 && m.stats.last_tx == 0,
            m.stats.total_write_pending == 0 && m.stats.last_write_pending == 0,
    {
        MonitoredStream { inner, stats: StreamStats::new(id, name) }
    }

    /// Counts `n` bytes that a read delivered.
    pub fn record_read(&mut self, n: usize)
        ensures
            final(self).stats.total_rx == wrap64(old(self).stats.total_rx, n as int),
            final(self).stats.total_tx == old(self).stats.total_tx,
            final(self).stats.total_write_pending == old(self).stats.total_write_pending,
            final(self).stats.last_rx == old(self).stats.last_rx,
            final(self).stats.last_tx == old(self).stats.last_tx,
            final(self).stats.last_write_pending == old(self).stats.last_write_pending,
            final(self).inner == old(self).inner,
    {
        self.stats.total_rx = self.stats.total_rx.wrapping_add(n as u64);
    }

    /// Counts `n` bytes that a write accepted.
    pub fn record_write(&mut self, n: usize)
        ensures
            final(self).stats.total_tx == wrap64(old(self).stats.total_tx, n as int),
            final(self).stats.total_rx == old(self).stats.total_rx,
            final(self).stats.total_write_pending == old(self).stats.total_write_pending,
            final(self).stats.last_rx == old(self).stats.last_rx,
            final(self).stats.last_tx == old(self).stats.last_tx,
            final(self).stats.last_write_pending == old(self).stats.last_write_pending,
            final(self).inner == old(self).inner,
    {
        self.stats.total_tx = self.stats.total_tx.wrapping_add(n as u64);
    }

    /// Counts one poll that found the stream blocked.
    pub fn record_pending(&mut self)
        ensures
            final(self).stats.total_write_pending == (if old(self).stats.total_write_pending
                == usize::MAX {
                0usize
            } else {
                (old(self).stats.total_write_pending + 1) as usize
            }),
            final(self).stats.total_rx == old(self).stats.total_rx,
            final(self).stats.total_tx == old(self).stats.total_tx,
            final(self).stats.last_rx == old(self).stats.last_rx,
            final(self).stats.last_tx == old(self).stats.last_tx,
            final(self).stats.last_write_pending == old(self).stats.last_write_pending,
            final(self).inner == old(self).inner,
    {
        self.stats.total_write_pending = if self.stats.total_write_pending == usize::MAX {
            0
        } else {
            self.stats.total_write_pending + 1
        };
    }
}

} // verus!
