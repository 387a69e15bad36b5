//! The application's end of a stream: what a poll for reading, writing or
//! shutting down does with the core's answers.
//!
//! A poll never blocks. It reports `Pending` only after it has parked the
//! caller's waker in the connection's table, under the same lock, so that a
//! later event of the core finds the waker there.

use crate::conn::{parked_table, ConnState, Pushed, Tail};
use crate::ids::{QuicStreamHdl, StreamId};
use crate::protocol::{ChunkRead, FinishResult, ReadStep};
use std::task::Waker;
use vstd::prelude::*;
use vstd::slice::{slice_subrange, slice_to_vec};

verus! {

broadcast use vstd::std_specs::hash::group_hash_axioms;

/// What a stream handle has learned about its receive side.
#[derive(Debug, Clone, Copy, PartialEq, Eq, Structural)]
pub enum RecvState {
    /// More may come.
    Open,
    /// The end of the stream was reached; every further read reports it.
    Finished,
    /// The peer abandoned the stream; every further read reports it.
    Reset { code: u64 },
}

/// The state of a stream as its handle sees it.
#[derive(Debug, Clone, Copy, PartialEq, Eq, Structural)]
pub enum StreamPhase {
    /// The connection's handshake is still under way.
    Opening,
    /// Both directions are open.
    Established,
    /// The handle has finished its send side; the peer may still send.
    HalfClosedSend,
    /// The peer has finished its send side; the handle may still send.
    HalfClosedRecv,
    /// Both directions are finished.
    Closed,
    /// The peer reset the stream.
    Reset,
}

/// The phase of a stream, given what its handle knows of the receive side,
/// whether it has finished the send side, and whether the connection's
/// handshake is complete.
pub open spec fn phase_of(recv: RecvState, fin_sent: bool, established: bool) -> StreamPhase {
    match recv {
        RecvState::Open => if fin_sent {
            StreamPhase::HalfClosedSend
        } else if established {
            StreamPhase::Established
        } else {
            StreamPhase::Opening
        },
        RecvState::Finished => if fin_sent {
            StreamPhase::Closed
        } else {
            StreamPhase::HalfClosedRecv
        },
        RecvState::Reset { code } => StreamPhase::Reset,
    }
}

/// Whether a stream in phase `from` can come to be in phase `to`: a stream
/// only ever closes further, and a reset is final.
pub open spec fn phase_leads_to(from: StreamPhase, to: StreamPhase) -> bool {
    match from {
        StreamPhase::Opening => true,
        StreamPhase::Established => !(to is Opening),
        StreamPhase::HalfClosedSend => to is HalfClosedSend || to is Closed || to is Reset,
        StreamPhase::HalfClosedRecv => to is HalfClosedRecv || to is Closed,
        StreamPhase::Closed => to is Closed,
        StreamPhase::Reset => to is Reset,
    }
}

/// A read that ends moves an open stream forward or leaves it where it
/// was, whatever the core answered; finishing the send side and the end of
/// the handshake do likewise.
pub proof fn lemma_phases_only_advance(
    recv: RecvState,
    fin_sent: bool,
    established: bool,
    end: ReadEnd,
)
    ensures
        recv is Open ==> phase_leads_to(
            phase_of(recv, fin_sent, established),
            phase_of(recv_after(end), fin_sent, established),
        ),
        phase_leads_to(phase_of(recv, fin_sent, established), phase_of(recv, true, established)),
        phase_leads_to(phase_of(recv, fin_sent, established), phase_of(recv, fin_sent, true)),
        phase_leads_to(
            phase_of(recv, fin_sent, established),
            phase_of(recv, fin_sent, established),
        ),
{
}

/// How one read of the core ended.
#[derive(Debug, Clone, Copy, PartialEq, Eq, Structural)]
pub enum ReadEnd {
    /// The caller's buffer is full.
    Full,
    /// The core has nothing to read for now.
    Blocked,
    /// The end of the stream.
    Finished,
    /// The peer abandoned the stream.
    Reset { code: u64 },
}

/// What a poll for reading reports.
#[derive(Debug, Clone, Copy, PartialEq, Eq, Structural)]
pub enum ReadOutcome {
    /// This many bytes were appended to the caller's buffer. Zero means the
    /// end of the stream, or a buffer without room.
    Ready { bytes: usize },
    /// Nothing yet; the caller's waker is parked.
    Pending,
    /// The peer reset the stream with this code.
    ConnectionReset { code: u64 },
    /// The connection is gone.
    ConnectionLost,
}

/// How a read stands after one answer of the core: how it goes on (`None`
/// to ask again), and whether the core has asked for a transmit so far.
#[derive(Debug, Clone, Copy, PartialEq, Eq, Structural)]
pub struct ReadProgress {
    pub end: Option<ReadEnd>,
    pub notify: bool,
}

/// A poll for reading: what it reports, whether the runner is to be
/// notified once the lock is released, and the answers that the core gave
/// to the poll, in their order.
#[derive(Clone, Copy)]
pub struct ReadPoll {
    pub outcome: ReadOutcome,
    pub notify: bool,
    pub answers: Ghost<Seq<ReadStep>>,
}

/// What a poll for writing reports.
#[derive(Debug, Clone, Copy, PartialEq, Eq, Structural)]
pub enum WriteOutcome {
    /// The core took this many bytes from the front of the caller's data.
    Ready { bytes: usize },
    /// The core took nothing; the caller's waker is parked.
    Pending,
    /// The stream can no longer be written to.
    BrokenPipe,
    /// The connection is gone.
    ConnectionLost,
}

/// A poll for writing: what it reports, and whether the runner is to be
/// notified once the lock is released.
#[derive(Debug, Clone, Copy, PartialEq, Eq, Structural)]
pub struct WritePoll {
    pub outcome: WriteOutcome,
    pub notify: bool,
}

/// What a poll for shutting down reports.
#[derive(Debug, Clone, Copy, PartialEq, Eq, Structural)]
pub enum ShutdownOutcome {
    /// The send side is finished.
    Ready,
    /// The peer had stopped the stream before it could be finished.
    BrokenPipe,
    /// The connection is gone.
    ConnectionLost,
}

/// A poll for shutting down: what it reports, and whether the runner is to
/// be notified once the lock is released.
#[derive(Debug, Clone, Copy, PartialEq, Eq, Structural)]
pub struct ShutdownPoll {
    pub outcome: ShutdownOutcome,
    pub notify: bool,
}

/// What a handle whose receive side is in `state` reports without asking
/// the core, if it need not ask: a buffer without room gets nothing, a
/// settled state is reported again, and on a connection that is gone an
/// open stream reports the loss.
pub open spec fn settled_read(state: RecvState, capacity: usize, closed: bool) -> Option<
    ReadOutcome,
> {
    if capacity == 0 {
        Some(ReadOutcome::Ready { bytes: 0 })
    } else {
        match state {
            RecvState::Open => if closed {
                Some(ReadOutcome::ConnectionLost)
            } else {
                None
            },
            RecvState::Finished => Some(ReadOutcome::Ready { bytes: 0 }),
            RecvState::Reset { code } => Some(ReadOutcome::ConnectionReset { code }),
        }
    }
}

/// What a read that appended `filled` bytes and ended in `end` reports.
/// Bytes that were read are delivered first; an end of stream or a reset
/// that came behind them is kept for the next poll.
pub open spec fn read_outcome(filled: usize, end: ReadEnd) -> ReadOutcome {
    if filled > 0 {
        ReadOutcome::Ready { bytes: filled }
    } else {
        match end {
            ReadEnd::Full => ReadOutcome::Ready { bytes: 0 },
            ReadEnd::Blocked => ReadOutcome::Pending,
            ReadEnd::Finished => ReadOutcome::Ready { bytes: 0 },
            ReadEnd::Reset { code } => ReadOutcome::ConnectionReset { code },
        }
    }
}

/// What the handle knows of its receive side after a read ended in `end`.
pub open spec fn recv_after(end: ReadEnd) -> RecvState {
    match end {
        ReadEnd::Full => RecvState::Open,
        ReadEnd::Blocked => RecvState::Open,
        ReadEnd::Finished => RecvState::Finished,
        ReadEnd::Reset { code } => RecvState::Reset { code },
    }
}

/// How a read goes on after one attempt on the core: `None` to try again,
/// or the way the read ended. A chunk of bytes continues the read while the
/// buffer has room; an empty chunk ends it like a blocked stream, and a
/// closed stream reads as finished.
pub open spec fn read_end(got: ChunkRead, filled: int, capacity: int) -> Option<ReadEnd> {
    match got {
        ChunkRead::Data { bytes } => if bytes@.len() == 0 {
            Some(ReadEnd::Blocked)
        } else if filled + bytes@.len() >= capacity {
            Some(ReadEnd::Full)
        } else {
            None
        },
        ChunkRead::Finished => Some(ReadEnd::Finished),
        ChunkRead::Blocked => Some(ReadEnd::Blocked),
        ChunkRead::Reset { code } => Some(ReadEnd::Reset { code }),
        ChunkRead::Closed => Some(ReadEnd::Finished),
    }
}

/// The bytes that one attempt on the core adds to the caller's buffer.
pub open spec fn read_bytes(got: ChunkRead) -> Seq<u8> {
    match got {
        ChunkRead::Data { bytes } => bytes@,
        _ => Seq::empty(),
    }
}

/// The bytes that a run of the core's answers carries, in their order.
pub open spec fn bytes_of(answers: Seq<ReadStep>) -> Seq<u8>
    decreases answers.len(),
{
    if answers.len() == 0 {
        Seq::empty()
    } else {
        bytes_of(answers.drop_last()) + read_bytes(answers.last().got)
    }
}

/// Whether one of the answers carries the core's wish to transmit.
pub open spec fn wants_transmit(answers: Seq<ReadStep>) -> bool {
    exists|i: int| 0 <= i < answers.len() && (#[trigger] answers[i]).transmit
}

/// Whether `answers` are the core's answers to one read into `capacity`
/// bytes of room that ended in `end`: each answer but the last lets the
/// read go on behind the bytes of those before it, and the last ends it.
pub open spec fn read_ran(answers: Seq<ReadStep>, capacity: int, end: ReadEnd) -> bool {
    &&& answers.len() > 0
    &&& forall|i: int|
        0 <= i < answers.len() - 1 ==> read_end(
            (#[trigger] answers[i]).got,
            bytes_of(answers.take(i)).len() as int,
            capacity,
        ) is None
    &&& read_end(
        answers.last().got,
        bytes_of(answers.drop_last()).len() as int,
        capacity,
    ) == Some(end)
}

/// One more answer adds its bytes behind those of the answers before it,
/// and its wish to transmit to theirs.
pub proof fn lemma_one_more_answer(answers: Seq<ReadStep>, step: ReadStep)
    ensures
        bytes_of(answers.push(step)) == bytes_of(answers) + read_bytes(step.got),
        wants_transmit(answers.push(step)) == (wants_transmit(answers) || step.transmit),
{
    let more = answers.push(step);
    assert(more.drop_last() =~= answers);
    if wants_transmit(answers) {
        let i = choose|i: int| 0 <= i < answers.len() && (#[trigger] answers[i]).transmit;
        assert(more[i].transmit);
    }
    if step.transmit {
        assert(more[answers.len() as int].transmit);
    }
    if wants_transmit(more) {
        let i = choose|i: int| 0 <= i < more.len() && (#[trigger] more[i]).transmit;
        if i < answers.len() {
            assert(answers[i].transmit);
        }
    }
}

/// What a write of `len` bytes reports once the core was offered all of
/// them: all or none. A write of which the core took at least one byte is
/// accepted whole, and what the core did not take is kept as the stream's
/// tail; a write of which the core took nothing is pending; a stream that
/// can no longer be written to is a broken pipe.
pub open spec fn write_outcome(len: usize, pushed: Pushed) -> WriteOutcome {
    if pushed.broken {
        WriteOutcome::BrokenPipe
    } else if pushed.taken == 0 {
        WriteOutcome::Pending
    } else {
        WriteOutcome::Ready { bytes: len }
    }
}

/// What is kept as the stream's tail after a write of `data`: the bytes
/// behind those that the core took, where the write was accepted and the
/// core did not take all of it.
pub open spec fn tail_kept(data: Seq<u8>, pushed: Pushed) -> Option<Seq<u8>> {
    if !pushed.broken && 0 < pushed.taken < data.len() {
        Some(data.skip(pushed.taken as int))
    } else {
        None
    }
}

/// What a shutdown reports for the core's answer. A stream that is already
/// finished or reset needs no further finish.
pub open spec fn shutdown_outcome(result: FinishResult) -> ShutdownOutcome {
    match result {
        FinishResult::Finished => ShutdownOutcome::Ready,
        FinishResult::Stopped { code } => ShutdownOutcome::BrokenPipe,
        FinishResult::Closed => ShutdownOutcome::Ready,
    }
}

/// A reset that the core reports behind bytes it has already handed over
/// does not swallow them: the poll delivers the bytes, and the next poll
/// reports the reset without asking the core again.
pub proof fn lemma_reset_after_bytes(filled: usize, code: u64, capacity: usize)
    requires
        filled > 0,
        capacity > 0,
    ensures
        read_outcome(filled, ReadEnd::Reset { code }) == (ReadOutcome::Ready { bytes: filled }),
        forall|closed: bool|
            settled_read(recv_after(ReadEnd::Reset { code }), capacity, closed) == Some(
                ReadOutcome::ConnectionReset { code },
            ),
{
}

/// A buffer without room is answered at once with zero bytes, whatever the
/// stream's state.
pub proof fn lemma_no_room_reads_nothing(state: RecvState, closed: bool)
    ensures
        settled_read(state, 0, closed) == Some(ReadOutcome::Ready { bytes: 0 }),
{
}

/// A stream handle: the stream's id and what the handle has learned so far.
pub struct QuicStream {
    id: StreamId,
    recv: RecvState,
    fin_sent: bool,
}

impl QuicStream {
    /// The stream's id.
    pub closed spec fn stream_id(&self) -> StreamId {
        self.id
    }

    /// What the handle knows of its receive side.
    pub closed spec fn recv_state(&self) -> RecvState {
        self.recv
    }

    /// Whether the handle has finished its send side.
    pub closed spec fn finished(&self) -> bool {
        self.fin_sent
    }

    /// A handle on a stream that was just opened or accepted.
    pub fn new(id: StreamId) -> (s: QuicStream)
        ensures
            s.stream_id() == id,
            s.recv_state() == RecvState::Open,
            !s.finished(),
    {
        QuicStream { id, recv: RecvState::Open, fin_sent: false }
    }

    /// The stream's phase, given whether the connection's handshake is
    /// complete.
    pub fn phase(&self, established: bool) -> (p: StreamPhase)
        ensures
            p == phase_of(self.recv_state(), self.finished(), established),
    {
        match self.recv {
            RecvState::Open => if self.fin_sent {
                StreamPhase::HalfClosedSend
            } else if established {
                StreamPhase::Established
            } else {
                StreamPhase::Opening
            },
            RecvState::Finished => if self.fin_sent {
                StreamPhase::Closed
            } else {
                StreamPhase::HalfClosedRecv
            },
            RecvState::Reset { code } => StreamPhase::Reset,
        }
    }

    /// The stream's id.
    pub fn id(&self) -> (id: StreamId)
        ensures
            id == self.stream_id(),
    {
        self.id
    }

    /// The stream's handle across connections, given the handle of its
    /// connection.
    pub fn handle(&self, conn_hdl: usize) -> (h: QuicStreamHdl)
        ensures
            h.conn_hdl == conn_hdl,
            h.stream_id == self.stream_id(),
    {
        QuicStreamHdl { conn_hdl, stream_id: self.id }
    }

    /// Takes one answer of the core into a read in progress: appends its
    /// bytes to `out` and tells how the read goes on.
    pub fn absorb(out: &mut Vec<u8>, filled: usize, capacity: usize, got: ChunkRead) -> (end: Option<
        ReadEnd,
    >)
        requires
            filled < capacity,
            read_bytes(got).len() <= capacity - filled,
        ensures
            final(out)@ == old(out)@ + read_bytes(got),
            end == read_end(got, filled as int, capacity as int),
    {
        match got {
            ChunkRead::Data { bytes } => {
                let mut bytes = bytes;
                let n: usize = bytes.len();
                out.append(&mut bytes);
                if n == 0 {
                    Some(ReadEnd::Blocked)
                } else if n >= capacity - filled {
                    Some(ReadEnd::Full)
                } else {
                    None
                }
            },
            ChunkRead::Finished => {
                Some(ReadEnd::Finished)
            },
            ChunkRead::Blocked => {
                Some(ReadEnd::Blocked)
            },
            ChunkRead::Reset { code } => {
                Some(ReadEnd::Reset { code })
            },
            ChunkRead::Closed => {
                Some(ReadEnd::Finished)
            },
        }
    }

    /// Takes one whole answer of the core into a read in progress: appends
    /// its bytes to `out`, tells how the read goes on, and notes the core's
    /// wish to transmit beside those noted before. The runner is notified
    /// after the poll if any answer carried that wish.
    pub fn take_step(
        out: &mut Vec<u8>,
        filled: usize,
        capacity: usize,
        notify: bool,
        step: ReadStep,
    ) -> (progress: ReadProgress)
        requires
            filled < capacity,
            read_bytes(step.got).len() <= capacity - filled,
        ensures
            final(out)@ == old(out)@ + read_bytes(step.got),
            progress.end == read_end(step.got, filled as int, capacity as int),
            progress.notify == (notify || step.transmit),
    {
        let ReadStep { got, transmit } = step;
        let end = Self::absorb(out, filled, capacity, got);
        ReadProgress { end, notify: notify || transmit }
    }

    /// What a read that appended `filled` bytes and ended in `end` reports.
    pub fn conclude(filled: usize, end: ReadEnd) -> (outcome: ReadOutcome)
        ensures
            outcome == read_outcome(filled, end),
    {
        if filled > 0 {
            ReadOutcome::Ready { bytes: filled }
        } else {
            match end {
                ReadEnd::Full => ReadOutcome::Ready { bytes: 0 },
                ReadEnd::Blocked => ReadOutcome::Pending,
                ReadEnd::Finished => ReadOutcome::Ready { bytes: 0 },
                ReadEnd::Reset { code } => ReadOutcome::ConnectionReset { code },
            }
        }
    }

    /// What the handle knows of its receive side after a read ended in
    /// `end`.
    pub fn settle(end: ReadEnd) -> (state: RecvState)
        ensures
            state == recv_after(end),
    {
        match end {
            ReadEnd::Full => RecvState::Open,
            ReadEnd::Blocked => RecvState::Open,
            ReadEnd::Finished => RecvState::Finished,
            ReadEnd::Reset { code } => RecvState::Reset { code },
        }
    }

    /// Reads into `out`, at most `capacity` bytes, whatever the core has
    /// ready. The caller holds the connection's lock.
    ///
    /// A buffer without room, and a stream whose end or reset the handle
    /// has already seen, are answered without asking the core and without
    /// parking anybody. Otherwise chunks are read until the buffer is full
    /// or the core has no more. With nothing read and the core blocked, the
    /// waker is parked and the poll is pending.
    pub fn poll_read(
        &mut self,
        state: &mut ConnState,
        out: &mut Vec<u8>,
        capacity: usize,
        waker: Waker,
    ) -> (poll: ReadPoll)
        ensures
            final(state).is_server() == old(state).is_server(),
            final(state).writers == old(state).writers,
            final(self).stream_id() == old(self).stream_id(),
            final(self).finished() == old(self).finished(),
            final(state).closed == old(state).closed,
            final(state).established == old(state).established,
            phase_leads_to(
                phase_of(old(self).recv_state(), old(self).finished(), old(state).established),
                phase_of(final(self).recv_state(), final(self).finished(), final(state).established),
            ),
            settled_read(old(self).recv_state(), capacity, old(state).closed) matches Some(
                outcome,
            ) ==> {
                &&& poll.outcome == outcome
                &&& !poll.notify
                &&& poll.answers@.len() == 0
                &&& final(out)@ == old(out)@
                &&& final(self).recv_state() == old(self).recv_state()
                &&& final(state).readers == old(state).readers
                &&& final(state).core == old(state).core
            },
            settled_read(old(self).recv_state(), capacity, old(state).closed) is None
                && !old(self).stream_id().readable_by(old(state).is_server()) ==> {
                &&& poll.outcome == (ReadOutcome::Ready { bytes: 0 })
                &&& !poll.notify
                &&& poll.answers@.len() == 0
                &&& final(out)@ == old(out)@
                &&& final(self).recv_state() == RecvState::Finished
                &&& final(state).readers == old(state).readers
                &&& final(state).core == old(state).core
            },
            settled_read(old(self).recv_state(), capacity, old(state).closed) is None
                && old(self).stream_id().readable_by(old(state).is_server()) ==> {
                &&& final(out)@ == old(out)@ + bytes_of(poll.answers@)
                &&& poll.notify == wants_transmit(poll.answers@)
                &&& exists|end: ReadEnd| #[trigger]
                    read_ran(poll.answers@, capacity as int, end) && poll.outcome == read_outcome(
                        bytes_of(poll.answers@).len() as usize,
                        end,
                    ) && final(self).recv_state() == recv_after(end)
            },
            poll.outcome matches ReadOutcome::Ready { bytes } ==> {
                &&& bytes <= capacity
                &&& final(out)@.len() == old(out)@.len() + bytes
                &&& final(out)@.subrange(0, old(out)@.len() as int) == old(out)@
                &&& final(state).readers == old(state).readers
            },
            poll.outcome == (ReadOutcome::Ready { bytes: 0 }) && capacity > 0 ==> final(self).recv_state() == RecvState::Finished,
            poll.outcome is Pending ==> {
                &&& final(out)@ == old(out)@
                &&& final(self).recv_state() == RecvState::Open
                &&& final(state).readers@ == parked_table(
                    old(state).readers@,
                    old(self).stream_id(),
                    waker,
                )
            },
            poll.outcome matches ReadOutcome::ConnectionReset { code } ==> {
                &&& final(out)@ == old(out)@
                &&& final(self).recv_state() == (RecvState::Reset { code })
                &&& final(state).readers == old(state).readers
            },
            poll.outcome is ConnectionLost <==> old(state).closed && capacity > 0
                && old(self).recv_state() == RecvState::Open,
    {
        let none: Ghost<Seq<ReadStep>> = Ghost(Seq::empty());
        if capacity == 0 {
            return ReadPoll { outcome: ReadOutcome::Ready { bytes: 0 }, notify: false, answers: none };
        }
        match self.recv {
            RecvState::Open => {
                if state.closed {
                    return ReadPoll {
                        outcome: ReadOutcome::ConnectionLost,
                        notify: false,
                        answers: none,
                    };
                }
            },
            RecvState::Finished => {
                return ReadPoll {
                    outcome: ReadOutcome::Ready { bytes: 0 },
                    notify: false,
                    answers: none,
                };
            },
            RecvState::Reset { code } => {
                return ReadPoll {
                    outcome: ReadOutcome::ConnectionReset { code },
                    notify: false,
                    answers: none,
                };
            },
        }
        if !self.id.can_read(state.core.server()) {
            self.recv = RecvState::Finished;
            return ReadPoll { outcome: ReadOutcome::Ready { bytes: 0 }, notify: false, answers: none };
        }
        let start: usize = out.len();
        let mut filled: usize = 0;
        let mut notify = false;
        let mut end = ReadEnd::Full;
        let ghost mut answers: Seq<ReadStep> = Seq::empty();
        while filled < capacity
            invariant_except_break
                end == ReadEnd::Full,
                forall|i: int|
                    0 <= i < answers.len() ==> read_end(
                        (#[trigger] answers[i]).got,
                        bytes_of(answers.take(i)).len() as int,
                        capacity as int,
                    ) is None,
            invariant
                filled <= capacity,
                capacity > 0,
                out@ == old(out)@ + bytes_of(answers),
                notify == wants_transmit(answers),
                start == old(out)@.len(),
                out@.len() == old(out)@.len() + filled,
                out@.subrange(0, old(out)@.len() as int) == old(out)@,
                state.is_server() == old(state).is_server(),
                state.closed == old(state).closed,
                state.established == old(state).established,
                state.readers == old(state).readers,
                state.writers == old(state).writers,
                self.id == old(self).id,
                self.id.readable_by(state.is_server()),
            ensures
                filled <= capacity,
                end is Full ==> filled > 0,
                out@ == old(out)@ + bytes_of(answers),
                notify == wants_transmit(answers),
                read_ran(answers, capacity as int, end),
                out@.len() == old(out)@.len() + filled,
                out@.subrange(0, old(out)@.len() as int) == old(out)@,
                state.is_server() == old(state).is_server(),
                state.closed == old(state).closed,
                state.established == old(state).established,
                state.readers == old(state).readers,
                state.writers == old(state).writers,
                self.id == old(self).id,
            decreases capacity - filled,
        {
            let step = state.core.read_chunk(self.id, capacity - filled);
            let ghost before = answers;
            proof {
                lemma_one_more_answer(before, step);
                answers = before.push(step);
                assert(answers.drop_last() =~= before);
                assert(answers.take(before.len() as int) =~= before);
                assert forall|i: int| 0 <= i < before.len() implies answers.take(i)
                    == before.take(i) && answers[i] == before[i] by {
                    assert(answers.take(i) =~= before.take(i));
                }
            }
            let progress = Self::take_step(out, filled, capacity, notify, step);
            notify = progress.notify;
            match progress.end {
                Some(how) => {
                    filled = out.len() - start;
                    end = how;
                    break ;
                },
                None => {
                    filled = out.len() - start;
                },
            }
        }
        self.recv = Self::settle(end);
        let outcome = Self::conclude(filled, end);
        match outcome {
            ReadOutcome::Pending => {
                state.park_reader(self.id, waker);
            },
            ReadOutcome::ConnectionReset { code } => {},
            ReadOutcome::Ready { bytes } => {},
            ReadOutcome::ConnectionLost => {},
        }
        ReadPoll { outcome, notify, answers: Ghost(answers) }
    }

    /// What a write of `len` bytes reports once the core was offered all of
    /// them.
    pub fn written(len: usize, pushed: Pushed) -> (outcome: WriteOutcome)
        ensures
            outcome == write_outcome(len, pushed),
    {
        if pushed.broken {
            WriteOutcome::BrokenPipe
        } else if pushed.taken == 0 {
            WriteOutcome::Pending
        } else {
            WriteOutcome::Ready { bytes: len }
        }
    }

    /// What is kept as the stream's tail after a write of `data` of which
    /// the core took `pushed`: nothing where the write was not accepted or
    /// the core took all of it, else the bytes behind those that it took.
    pub fn kept(data: &[u8], pushed: Pushed) -> (tail: Option<Tail>)
        ensures
            tail is Some <==> tail_kept(data@, pushed) is Some,
            tail matches Some(t) ==> !t.fin && Some(t.bytes@) == tail_kept(data@, pushed),
    {
        if !pushed.broken && 0 < pushed.taken && pushed.taken < data.len() {
            let rest = slice_to_vec(slice_subrange(data, pushed.taken, data.len()));
            assert(rest@ =~= data@.skip(pushed.taken as int));
            Some(Tail { bytes: rest, fin: false })
        } else {
            None
        }
    }

    /// Takes `data` from the writer, all of it or none. The caller holds
    /// the connection's lock.
    ///
    /// An empty write is accepted at once: the core is not asked, nobody is
    /// parked and the runner is not notified. A handle that has finished
    /// its send side, or whose stream this end cannot write, reports a
    /// broken pipe. While an earlier write of the stream still has a tail
    /// that the core has not taken, nothing is taken: the waker is parked
    /// and the write is pending, so that the core gets the bytes in the
    /// order written.
    ///
    /// Otherwise the core is offered the data. Where it takes at least one
    /// byte the write is accepted whole, the runner is notified, and what
    /// the core did not take becomes the stream's tail, which the runner
    /// offers again when the core reports the stream writable. Where the
    /// core takes nothing, the waker is parked and the write is pending.
    pub fn poll_write(&self, state: &mut ConnState, data: &[u8], waker: Waker) -> (poll:
        WritePoll)
        ensures
            final(state).is_server() == old(state).is_server(),
            final(state).closed == old(state).closed,
            final(state).readers == old(state).readers,
            poll.outcome is ConnectionLost <==> old(state).closed && data@.len() > 0,
            poll.outcome is ConnectionLost ==> {
                &&& !poll.notify
                &&& final(state).core == old(state).core
                &&& final(state).writers == old(state).writers
                &&& final(state).tails == old(state).tails
            },
            data@.len() == 0 ==> {
                &&& poll.outcome == (WriteOutcome::Ready { bytes: 0 })
                &&& !poll.notify
                &&& final(state).core == old(state).core
                &&& final(state).writers == old(state).writers
                &&& final(state).tails == old(state).tails
            },
            data@.len() > 0 && !old(state).closed && (self.finished()
                || !self.stream_id().writable_by(old(state).is_server())) ==> {
                &&& poll.outcome is BrokenPipe
                &&& final(state).core == old(state).core
            },
            data@.len() > 0 && !old(state).closed && !self.finished()
                && self.stream_id().writable_by(old(state).is_server())
                && old(state).tails@.contains_key(self.stream_id().number()) ==> {
                &&& poll.outcome is Pending
                &&& final(state).core == old(state).core
            },
            poll.outcome matches WriteOutcome::Ready { bytes } ==> {
                &&& bytes == data@.len()
                &&& poll.notify == (data@.len() > 0)
                &&& final(state).writers == old(state).writers
                &&& final(state).tails@ == old(state).tails@ || {
                    &&& final(state).tails@.contains_key(self.stream_id().number())
                    &&& final(state).tails@.remove(self.stream_id().number()) == old(state).tails@
                    &&& !final(state).tails@[self.stream_id().number()].fin
                    &&& final(state).tails@[self.stream_id().number()].bytes@.len() > 0
                    &&& final(state).tails@[self.stream_id().number()].bytes@.len() < data@.len()
                    &&& final(state).tails@[self.stream_id().number()].bytes@.is_suffix_of(
                        data@,
                    )
                }
            },
            poll.outcome is Pending ==> {
                &&& !poll.notify
                &&& final(state).tails == old(state).tails
                &&& final(state).writers@ == parked_table(
                    old(state).writers@,
                    self.stream_id(),
                    waker,
                )
            },
            poll.outcome is BrokenPipe ==> {
                &&& !poll.notify
                &&& final(state).writers == old(state).writers
                &&& final(state).tails == old(state).tails
            },
    {
        if data.len() == 0 {
            return WritePoll { outcome: WriteOutcome::Ready { bytes: 0 }, notify: false };
        }
        if state.closed {
            return WritePoll { outcome: WriteOutcome::ConnectionLost, notify: false };
        }
        if self.fin_sent || !self.id.can_write(state.core.server()) {
            return WritePoll { outcome: WriteOutcome::BrokenPipe, notify: false };
        }
        if state.tails.contains_key(&self.id.raw()) {
            state.park_writer(self.id, waker);
            return WritePoll { outcome: WriteOutcome::Pending, notify: false };
        }
        let pushed = state.push(self.id, data);
        let outcome = Self::written(data.len(), pushed);
        match outcome {
            WriteOutcome::Ready { bytes } => {
                if let Some(tail) = Self::kept(data, pushed) {
                    assert(tail.bytes@.is_suffix_of(data@)) by {
                        assert(data@.take(pushed.taken as int) + tail.bytes@ =~= data@);
                    }
                    let _ = state.tails.insert(self.id.raw(), tail);
                    assert(state.tails@.remove(self.id.number()) =~= old(state).tails@);
                }
                WritePoll { outcome, notify: true }
            },
            WriteOutcome::Pending => {
                state.park_writer(self.id, waker);
                WritePoll { outcome, notify: false }
            },
            WriteOutcome::BrokenPipe => WritePoll { outcome, notify: false },
            WriteOutcome::ConnectionLost => WritePoll { outcome, notify: false },
        }
    }

    /// Waits until the core has taken everything that the handle took from
    /// its writer. The caller holds the connection's lock.
    ///
    /// Without a tail the flush is done. While the stream has a tail, the
    /// waker is parked and the flush is not done; the runner wakes it when
    /// the core reports the stream writable or stopped.
    pub fn poll_flush(&self, state: &mut ConnState, waker: Waker) -> (done: bool)
        ensures
            done == !old(state).tails@.contains_key(self.stream_id().number()),
            final(state).core == old(state).core,
            final(state).readers == old(state).readers,
            final(state).tails == old(state).tails,
            final(state).closed == old(state).closed,
            final(state).established == old(state).established,
            done ==> final(state).writers == old(state).writers,
            !done ==> final(state).writers@ == parked_table(
                old(state).writers@,
                self.stream_id(),
                waker,
            ),
    {
        if state.tails.contains_key(&self.id.raw()) {
            state.park_writer(self.id, waker);
            false
        } else {
            true
        }
    }

    /// What a shutdown reports for the core's answer.
    pub fn shut(result: FinishResult) -> (outcome: ShutdownOutcome)
        ensures
            outcome == shutdown_outcome(result),
    {
        match result {
            FinishResult::Finished => ShutdownOutcome::Ready,
            FinishResult::Stopped { code } => ShutdownOutcome::BrokenPipe,
            FinishResult::Closed => ShutdownOutcome::Ready,
        }
    }

    /// Finishes the send side. The caller holds the connection's lock.
    ///
    /// A handle that has finished before, or whose stream this end cannot
    /// write, is done without asking the core. While the stream has a tail
    /// that the core has not taken, the finish is noted on the tail and
    /// follows it. Otherwise the core is asked to finish the stream; a
    /// stream that the peer had stopped is a broken pipe. Either way the
    /// runner is notified.
    pub fn poll_shutdown(&mut self, state: &mut ConnState) -> (poll: ShutdownPoll)
        ensures
            final(state).readers == old(state).readers,
            final(state).writers == old(state).writers,
            final(state).closed == old(state).closed,
            final(state).is_server() == old(state).is_server(),
            final(self).stream_id() == old(self).stream_id(),
            final(self).recv_state() == old(self).recv_state(),
            poll.outcome is ConnectionLost <==> old(state).closed && !old(self).finished(),
            poll.outcome is ConnectionLost ==> {
                &&& !poll.notify
                &&& !final(self).finished()
                &&& final(state).core == old(state).core
            },
            old(self).finished() ==> {
                &&& poll.outcome is Ready
                &&& !poll.notify
                &&& final(self).finished()
                &&& final(state).core == old(state).core
            },
            !old(self).finished() && !old(state).closed && !old(self).stream_id().writable_by(
                old(state).is_server(),
            ) ==> {
                &&& poll.outcome is Ready
                &&& !poll.notify
                &&& final(self).finished()
                &&& final(state).core == old(state).core
                &&& final(state).tails == old(state).tails
            },
            poll.outcome is Ready ==> final(self).finished(),
            poll.outcome is BrokenPipe ==> final(self).finished() == old(self).finished(),
            !old(self).finished() && !old(state).closed && old(self).stream_id().writable_by(
                old(state).is_server(),
            ) ==> poll.notify,
            !old(self).finished() && !old(state).closed && old(self).stream_id().writable_by(
                old(state).is_server(),
            ) ==> (if old(state).tails@.contains_key(old(self).stream_id().number()) {
                let key = old(self).stream_id().number();
                &&& poll.outcome is Ready
                &&& final(state).core == old(state).core
                &&& final(state).tails@.contains_key(key)
                &&& final(state).tails@[key].fin
                &&& final(state).tails@[key].bytes == old(state).tails@[key].bytes
                &&& final(state).tails@.remove(key) == old(state).tails@.remove(key)
            } else {
                final(state).tails@ == old(state).tails@
            }),
    {
        if self.fin_sent {
            return ShutdownPoll { outcome: ShutdownOutcome::Ready, notify: false };
        }
        if state.closed {
            return ShutdownPoll { outcome: ShutdownOutcome::ConnectionLost, notify: false };
        }
        if !self.id.can_write(state.core.server()) {
            self.fin_sent = true;
            return ShutdownPoll { outcome: ShutdownOutcome::Ready, notify: false };
        }
        if let Some(tail) = state.tails.remove(&self.id.raw()) {
            let _ = state.tails.insert(self.id.raw(), Tail { bytes: tail.bytes, fin: true });
            assert(state.tails@.remove(self.id.number()) =~= old(state).tails@.remove(
                self.id.number(),
            ));
            self.fin_sent = true;
            return ShutdownPoll { outcome: ShutdownOutcome::Ready, notify: true };
        }
        assert(state.tails@ =~= old(state).tails@);
        let outcome = Self::shut(state.core.finish(self.id));
        match outcome {
            ShutdownOutcome::Ready => {
                self.fin_sent = true;
            },
            ShutdownOutcome::BrokenPipe => {},
            ShutdownOutcome::ConnectionLost => {},
        }
        ShutdownPoll { outcome, notify: true }
    }

    /// Abandons the send side with an error code for the peer. The caller
    /// holds the connection's lock.
    ///
    /// On a connection that is gone nothing is done. Otherwise what the core
    /// has not taken of the stream's writes is dropped, the core is asked
    /// to reset the stream, if this end can write it at all, and the runner
    /// is notified; the handle's send side counts as finished.
    pub fn reset(&mut self, state: &mut ConnState, code: u32) -> (poll: ShutdownPoll)
        ensures
            final(state).readers == old(state).readers,
            final(state).writers == old(state).writers,
            final(state).closed == old(state).closed,
            final(state).is_server() == old(state).is_server(),
            final(self).stream_id() == old(self).stream_id(),
            final(self).recv_state() == old(self).recv_state(),
            poll.outcome == (if old(state).closed {
                ShutdownOutcome::ConnectionLost
            } else {
                ShutdownOutcome::Ready
            }),
            poll.notify == (!old(state).closed && old(self).stream_id().writable_by(
                old(state).is_server(),
            )),
            final(self).finished() == (old(self).finished() || !old(state).closed),
            old(state).closed ==> final(state).core == old(state).core && final(state).tails
                == old(state).tails,
            !old(state).closed ==> final(state).tails@ == old(state).tails@.remove(
                old(self).stream_id().number(),
            ),
    {
        if state.closed {
            return ShutdownPoll { outcome: ShutdownOutcome::ConnectionLost, notify: false };
        }
        self.fin_sent = true;
        let _ = state.tails.remove(&self.id.raw());
        if !self.id.can_write(state.core.server()) {
            return ShutdownPoll { outcome: ShutdownOutcome::Ready, notify: false };
        }
        let _ = state.core.reset(self.id, code);
        ShutdownPoll { outcome: ShutdownOutcome::Ready, notify: true }
    }

    /// Stops the receive side with an error code for the peer: unread data
    /// is discarded and every further read reports the end of the stream.
    /// The caller holds the connection's lock.
    ///
    /// A receive side that has already ended or was reset stays as it is,
    /// and on a connection that is gone nothing is done.
    pub fn stop(&mut self, state: &mut ConnState, code: u32) -> (notify: bool)
        ensures
            final(state).readers == old(state).readers,
            final(state).writers == old(state).writers,
            final(state).closed == old(state).closed,
            final(state).is_server() == old(state).is_server(),
            final(self).stream_id() == old(self).stream_id(),
            final(self).finished() == old(self).finished(),
            final(self).recv_state() == (if old(self).recv_state() is Open && !old(state).closed {
                RecvState::Finished
            } else {
                old(self).recv_state()
            }),
            notify == (old(self).recv_state() is Open && !old(state).closed
                && old(self).stream_id().readable_by(old(state).is_server())),
            !notify ==> final(state).core == old(state).core,
    {
        if state.closed {
            return false;
        }
        match self.recv {
            RecvState::Open => {},
            _ => {
                return false;
            },
        }
        self.recv = RecvState::Finished;
        if !self.id.can_read(state.core.server()) {
            return false;
        }
        let _ = state.core.stop(self.id, code);
        true
    }
}

} // verus!
