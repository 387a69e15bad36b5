//! The runner of one connection: what one pass over the protected state
//! does, and what the runner decides between passes.
//!
//! A pass runs under a single hold of the connection's lock and never
//! waits: it drains the inbox into the core, lets the core process a due
//! timer, serves open and close requests, takes the core's events, and
//! stages the core's datagrams. Whoever drives the runner then wakes the
//! deferred wakers and sends what is staged, letting the notifier preempt
//! the sending.

use crate::bytes_model::contents;
use crate::conn::{closed_table, ConnState, OpenRefused};
use crate::control::{ControlBlock, OpenRequest};
use crate::egress::{Datagram, Egress};
use crate::ids::{Direction, StreamId};
use crate::margins::{is_framed, BufMargins};
use crate::packet::QuicPacket;
use crate::protocol::{classify_stream, reached, CoreEvent, StreamNotice};
use crate::stream::QuicStream;
use quinn_proto::ConnectionError;
use std::collections::{HashMap, VecDeque};
use std::task::Waker;
use std::time::Instant;
use vstd::prelude::*;

verus! {

broadcast use vstd::std_specs::hash::group_hash_axioms;

/// The capacity of each accumulator of outbound datagrams.
pub const ACCUMULATOR_CAPACITY: usize = 307200;

/// How many events of the core one pass takes at most.
pub const EVENT_BUDGET: usize = 4096;

/// How many streams one `Opened` event accepts at most.
pub const ACCEPT_BUDGET: usize = 4096;

/// How many datagrams of the core one pass stages at most.
pub const TRANSMIT_BUDGET: usize = 1024;

/// One of the runner's two sinks.
#[derive(Debug, Clone, Copy, PartialEq, Eq, Structural)]
pub enum Sink {
    Packet,
    Stream,
}

/// Why a runner ends.
pub enum RunnerError {
    /// The core lost the connection.
    ConnectionReset { reason: ConnectionError },
    /// The consumer of a sink is gone.
    BrokenPipe { sink: Sink },
}

/// The answer to an open request, to be sent through the request's slot.
pub struct OpenReply<R> {
    pub reply: R,
    pub result: Result<StreamId, OpenRefused>,
}

/// What a pass did.
pub struct Pass<R> {
    /// Whether the pass changed anything, so that another should follow at
    /// once.
    pub worked: bool,
    /// Whether shutdown was asked; the pass then did nothing else.
    pub shutdown: bool,
    /// The answers to the open requests that the pass served, in the order
    /// of the requests.
    pub replies: Vec<OpenReply<R>>,
}

/// What the sending loop may wait for besides the notifier.
#[derive(Debug, Clone, Copy, PartialEq, Eq, Structural)]
pub enum SendAction {
    /// Nothing is left to send.
    Idle,
    /// Credit on the packet sink.
    Packet,
    /// Credit on the new-stream sink.
    Stream,
    /// Credit on either sink, the packet sink first.
    Both,
}

/// What the runner meets while it sends, besides credit on a sink.
#[derive(Debug, Clone, Copy, PartialEq, Eq, Structural)]
pub enum SendEvent {
    /// The notifier fired: ingress is ready.
    Notified,
    /// The core's deadline came.
    TimerFired,
    /// The consumer of a sink is gone.
    SinkClosed { sink: Sink },
}

/// How the runner goes on after such an event.
pub enum SendStep {
    /// The sending ends and the next pass follows.
    BackToPass,
    /// The runner ends.
    End { error: RunnerError },
}

/// What the runner does after a pass and its sending.
#[derive(Debug, Clone, Copy, PartialEq, Eq, Structural)]
pub enum Next {
    /// Yield to other tasks, then run the next pass.
    Restart,
    /// The core's deadline has passed: run the next pass at once and let it
    /// process the timer.
    TimeoutNow,
    /// Sleep until the notifier fires or the core's deadline comes.
    SleepUntilDeadline,
    /// Sleep until the notifier fires.
    SleepUntilNotified,
}

/// What the sending loop waits for: a sink is waited on while something is
/// queued for it, the new-stream sink only while its switch is on.
pub open spec fn spec_send_action(packets: bool, streams: bool, accepting: bool) -> SendAction {
    if packets && streams && accepting {
        SendAction::Both
    } else if packets {
        SendAction::Packet
    } else if streams && accepting {
        SendAction::Stream
    } else {
        SendAction::Idle
    }
}

/// What follows a pass: work done means another pass after a yield; no
/// work means sleep, unless the core's deadline (`due`, if there is one)
/// has already passed.
pub open spec fn spec_next(worked: bool, due: Option<bool>) -> Next {
    if worked {
        Next::Restart
    } else {
        match due {
            None => Next::SleepUntilNotified,
            Some(true) => Next::TimeoutNow,
            Some(false) => Next::SleepUntilDeadline,
        }
    }
}

/// A waker table and the list of deferred wakers after the core reported
/// stream `id` ready: the stream's waker, if one was parked, has moved from
/// the table to the end of the list.
pub open spec fn unparked(table: Map<u64, Waker>, woken: Seq<Waker>, id: u64) -> (
    Map<u64, Waker>,
    Seq<Waker>,
) {
    if table.contains_key(id) {
        (table.remove(id), woken.push(table[id]))
    } else {
        (table, woken)
    }
}

/// Every waker of `before` is still parked in `after`, under the same
/// stream, or deferred for waking in `woken`; and nobody new is parked.
pub open spec fn carried(before: Map<u64, Waker>, after: Map<u64, Waker>, woken: Seq<Waker>) -> bool {
    &&& after.submap_of(before)
    &&& forall|k: u64| #[trigger]
        before.contains_key(k) && !after.contains_key(k) ==> woken.contains(before[k])
}

/// A waker table after each stream of `ids` was closed in turn.
pub open spec fn closed_all(table: Map<u64, Waker>, ids: Seq<StreamId>) -> Map<u64, Waker>
    decreases ids.len(),
{
    if ids.len() == 0 {
        table
    } else {
        closed_all(closed_table(table, ids[0]), ids.skip(1))
    }
}

/// One more event keeps every waker carried: a waker that the event moved
/// out of its table is at the end of the deferred wakers.
proof fn lemma_carried_step(
    before: Map<u64, Waker>,
    mid: Map<u64, Waker>,
    after: Map<u64, Waker>,
    woken: Seq<Waker>,
    woken_after: Seq<Waker>,
)
    requires
        carried(before, mid, woken),
        woken.is_prefix_of(woken_after),
        after == mid || exists|id: u64| (after, woken_after) == unparked(mid, woken, id),
    ensures
        carried(before, after, woken_after),
{
    assert forall|k: u64| #[trigger]
        before.contains_key(k) && !after.contains_key(k) implies woken_after.contains(
        before[k],
    ) by {
        if mid.contains_key(k) {
            let id = choose|id: u64| (after, woken_after) == unparked(mid, woken, id);
            assert(woken_after[woken.len() as int] == mid[k]);
        } else {
            let i = choose|i: int| 0 <= i < woken.len() && woken[i] == before[k];
        }
    }
}

/// Carrying composes: what was carried up to one point and is carried on
/// from there, with the deferred wakers only growing, is carried all the
/// way.
proof fn lemma_carried_chain(
    before: Map<u64, Waker>,
    mid: Map<u64, Waker>,
    after: Map<u64, Waker>,
    woken: Seq<Waker>,
    woken_after: Seq<Waker>,
)
    requires
        carried(before, mid, woken),
        carried(mid, after, woken_after),
        woken.is_prefix_of(woken_after),
    ensures
        carried(before, after, woken_after),
{
    assert forall|k: u64| #[trigger] after.dom().contains(k) implies before.dom().contains(k)
        && after[k] == before[k] by {
        // Naming the two memberships lets the two inclusions apply to `k`.
        let in_mid = mid.dom().contains(k);
        let in_before = before.dom().contains(k);
    }
    assert forall|k: u64| #[trigger]
        before.contains_key(k) && !after.contains_key(k) implies woken_after.contains(
        before[k],
    ) by {
        if mid.contains_key(k) {
            assert(mid[k] == before[k]);
        } else {
            let i = choose|i: int| 0 <= i < woken.len() && woken[i] == before[k];
            assert(woken_after[i] == before[k]);
        }
    }
}

/// What follows a pass.
pub fn next_step(worked: bool, due: Option<bool>) -> (next: Next)
    ensures
        next == spec_next(worked, due),
{
    if worked {
        Next::Restart
    } else {
        match due {
            None => Next::SleepUntilNotified,
            Some(true) => Next::TimeoutNow,
            Some(false) => Next::SleepUntilDeadline,
        }
    }
}

/// The runner's own state between passes.
pub struct Runner {
    pub egress: Egress,
    pub pending_streams: VecDeque<StreamId>,
    pub pending_wakers: Vec<Waker>,
    pub deadline: Option<Instant>,
    pub timeout_due: bool,
    /// Whether the core may hold bidirectional streams that an earlier pass
    /// left unaccepted when its budget ran out.
    pub backlog_bi: bool,
    /// The same for unidirectional streams.
    pub backlog_uni: bool,
    pub scratch: Vec<u8>,
}

impl Runner {
    /// The outbound queue is well formed.
    pub open spec fn wf(&self) -> bool {
        self.egress.wf()
    }

    /// A runner with nothing pending, whose datagrams get `margins`.
    pub fn new(margins: BufMargins) -> (r: Runner)
        ensures
            r.wf(),
            r.egress.margins() == margins,
            r.egress.datagrams() == Seq::<Datagram>::empty(),
            r.pending_streams@ == Seq::<StreamId>::empty(),
            r.pending_wakers@ == Seq::<Waker>::empty(),
            r.deadline is None,
            !r.timeout_due,
            !r.backlog_bi && !r.backlog_uni,
    {
        Runner {
            egress: Egress::new(margins, ACCUMULATOR_CAPACITY),
            pending_streams: VecDeque::new(),
            pending_wakers: Vec::new(),
            deadline: None,
            timeout_due: false,
            backlog_bi: false,
            backlog_uni: false,
            scratch: Vec::new(),
        }
    }

    /// Hands every queued protocol event to the core, oldest first, and
    /// tells whether there was any.
    pub fn drain_inbox<R>(ctrl: &mut ControlBlock<R>, state: &mut ConnState) -> (worked: bool)
        ensures
            worked == (old(ctrl).inbox@.len() > 0),
            final(ctrl).inbox@ == Seq::<quinn_proto::ConnectionEvent>::empty(),
            final(ctrl).open_requests == old(ctrl).open_requests,
            final(ctrl).close_requests == old(ctrl).close_requests,
            final(ctrl).shutdown == old(ctrl).shutdown,
            final(state).readers == old(state).readers,
            final(state).writers == old(state).writers,
            final(state).is_server() == old(state).is_server(),
            final(state).closed == old(state).closed,
    {
        let mut worked = false;
        loop
            invariant
                worked == (old(ctrl).inbox@.len() > ctrl.inbox@.len()),
                ctrl.inbox@.len() <= old(ctrl).inbox@.len(),
                ctrl.open_requests == old(ctrl).open_requests,
                ctrl.close_requests == old(ctrl).close_requests,
                ctrl.shutdown == old(ctrl).shutdown,
                state.readers == old(state).readers,
                state.writers == old(state).writers,
                state.is_server() == old(state).is_server(),
                state.closed == old(state).closed,
            ensures
                ctrl.inbox@.len() == 0,
            decreases ctrl.inbox@.len(),
        {
            match ctrl.pop_event() {
                Some(event) => {
                    state.core.handle_event(event);
                    worked = true;
                },
                None => break ,
            }
        }
        worked
    }

    /// Lets the core process its timers if the runner was told that the
    /// deadline passed, or if `due` says so now. Tells whether it did.
    pub fn service_timeout(&mut self, state: &mut ConnState, now: Instant, due: bool) -> (fired:
        bool)
        ensures
            fired == (old(self).timeout_due || due),
            !final(self).timeout_due,
            final(self).egress == old(self).egress,
            final(self).pending_streams == old(self).pending_streams,
            final(self).pending_wakers == old(self).pending_wakers,
            final(self).deadline == old(self).deadline,
            final(state).readers == old(state).readers,
            final(state).writers == old(state).writers,
            final(state).is_server() == old(state).is_server(),
            final(state).closed == old(state).closed,
    {
        if self.timeout_due || due {
            state.core.handle_timeout(now);
            self.timeout_due = false;
            true
        } else {
            false
        }
    }

    /// Serves every queued open request, oldest first: asks the core for a
    /// stream and pairs its answer with the request's reply slot.
    pub fn service_opens<R>(ctrl: &mut ControlBlock<R>, state: &mut ConnState) -> (replies: Vec<
        OpenReply<R>,
    >)
        ensures
            final(ctrl).open_requests@ == Seq::<OpenRequest<R>>::empty(),
            final(ctrl).inbox == old(ctrl).inbox,
            final(ctrl).close_requests == old(ctrl).close_requests,
            final(ctrl).shutdown == old(ctrl).shutdown,
            final(state).readers == old(state).readers,
            final(state).writers == old(state).writers,
            final(state).is_server() == old(state).is_server(),
            final(state).closed == old(state).closed,
            replies@.len() == old(ctrl).open_requests@.len(),
            forall|i: int|
                0 <= i < replies@.len() ==> (#[trigger] replies@[i]).reply
                    == old(ctrl).open_requests@[i].reply,
            forall|i: int|
                0 <= i < replies@.len() ==> ((#[trigger] replies@[i]).result matches Err(e) ==> e
                    == OpenRefused::Exhausted),
            forall|i: int|
                0 <= i < replies@.len() ==> ((#[trigger] replies@[i]).result matches Ok(id) ==> {
                    &&& id.is_bi() == (old(ctrl).open_requests@[i].dir == Direction::Bi)
                    &&& id.by_server() == old(state).is_server()
                }),
    {
        let mut replies: Vec<OpenReply<R>> = Vec::new();
        loop
            invariant
                ctrl.inbox == old(ctrl).inbox,
                ctrl.close_requests == old(ctrl).close_requests,
                ctrl.shutdown == old(ctrl).shutdown,
                state.readers == old(state).readers,
                state.writers == old(state).writers,
                state.is_server() == old(state).is_server(),
                state.closed == old(state).closed,
                replies@.len() + ctrl.open_requests@.len() == old(ctrl).open_requests@.len(),
                ctrl.open_requests@ == old(ctrl).open_requests@.skip(replies@.len() as int),
                forall|i: int|
                    0 <= i < replies@.len() ==> (#[trigger] replies@[i]).reply
                        == old(ctrl).open_requests@[i].reply,
                forall|i: int|
                    0 <= i < replies@.len() ==> ((#[trigger] replies@[i]).result matches Err(e)
                        ==> e == OpenRefused::Exhausted),
                forall|i: int|
                    0 <= i < replies@.len() ==> ((#[trigger] replies@[i]).result matches Ok(id) ==> {
                        &&& id.is_bi() == (old(ctrl).open_requests@[i].dir == Direction::Bi)
                        &&& id.by_server() == old(state).is_server()
                    }),
            ensures
                ctrl.open_requests@.len() == 0,
            decreases ctrl.open_requests@.len(),
        {
            match ctrl.pop_open() {
                Some(request) => {
                    let result = state.open(request.dir);
                    replies.push(OpenReply { reply: request.reply, result });
                },
                None => break ,
            }
        }
        replies
    }

    /// Serves every queued close request, oldest first.
    pub fn service_closes<R>(ctrl: &mut ControlBlock<R>, state: &mut ConnState)
        ensures
            final(ctrl).close_requests@ == Seq::<StreamId>::empty(),
            final(ctrl).inbox == old(ctrl).inbox,
            final(ctrl).open_requests == old(ctrl).open_requests,
            final(ctrl).shutdown == old(ctrl).shutdown,
            final(state).readers@ == closed_all(old(state).readers@, old(ctrl).close_requests@),
            final(state).writers@ == closed_all(old(state).writers@, old(ctrl).close_requests@),
            final(state).is_server() == old(state).is_server(),
            final(state).closed == old(state).closed,
    {
        loop
            invariant
                ctrl.inbox == old(ctrl).inbox,
                ctrl.open_requests == old(ctrl).open_requests,
                ctrl.shutdown == old(ctrl).shutdown,
                state.is_server() == old(state).is_server(),
                state.closed == old(state).closed,
                closed_all(state.readers@, ctrl.close_requests@) == closed_all(
                    old(state).readers@,
                    old(ctrl).close_requests@,
                ),
                closed_all(state.writers@, ctrl.close_requests@) == closed_all(
                    old(state).writers@,
                    old(ctrl).close_requests@,
                ),
            ensures
                ctrl.close_requests@.len() == 0,
            decreases ctrl.close_requests@.len(),
        {
            match ctrl.pop_close() {
                Some(id) => {
                    state.close(id);
                },
                None => break ,
            }
        }
    }

    /// Moves the waker parked on `id`, if any, from `table` to the deferred
    /// wakers.
    fn unpark(table: &mut HashMap<u64, Waker>, woken: &mut Vec<Waker>, id: u64)
        ensures
            (final(table)@, final(woken)@) == unparked(old(table)@, old(woken)@, id),
    {
        match table.remove(&id) {
            Some(waker) => {
                woken.push(waker);
            },
            None => {},
        }
    }

    /// Accepts the streams that the peer opened in direction `dir`, as many
    /// as the core offers within the budget, and queues them for the
    /// new-stream sink behind those already queued. Each of them runs in
    /// that direction and was opened by the peer. The direction is noted as
    /// a backlog for the next pass exactly where the budget ran out, that
    /// is where `ACCEPT_BUDGET` streams were accepted; the note for the
    /// other direction stays as it is.
    pub fn accept_streams(&mut self, state: &mut ConnState, dir: Direction)
        ensures
            old(self).pending_streams@.is_prefix_of(final(self).pending_streams@),
            final(self).pending_streams@.len() <= old(self).pending_streams@.len() + ACCEPT_BUDGET,
            forall|i: int|
                old(self).pending_streams@.len() <= i < final(self).pending_streams@.len() ==> {
                    &&& (#[trigger] final(self).pending_streams@[i]).is_bi() == (dir
                        == Direction::Bi)
                    &&& final(self).pending_streams@[i].by_server() != old(state).is_server()
                },
            final(self).backlog_bi == (if dir == Direction::Bi {
                final(self).pending_streams@.len() == old(self).pending_streams@.len()
                    + ACCEPT_BUDGET
            } else {
                old(self).backlog_bi
            }),
            final(self).backlog_uni == (if dir == Direction::Uni {
                final(self).pending_streams@.len() == old(self).pending_streams@.len()
                    + ACCEPT_BUDGET
            } else {
                old(self).backlog_uni
            }),
            final(self).egress == old(self).egress,
            final(self).pending_wakers == old(self).pending_wakers,
            final(self).deadline == old(self).deadline,
            final(self).timeout_due == old(self).timeout_due,
            final(state).readers == old(state).readers,
            final(state).writers == old(state).writers,
            final(state).is_server() == old(state).is_server(),
            final(state).closed == old(state).closed,
            final(state).established == old(state).established,
            final(state).tails == old(state).tails,
    {
        let mut taken: usize = 0;
        let mut dry = false;
        while taken < ACCEPT_BUDGET
            invariant_except_break
                !dry,
            invariant
                taken <= ACCEPT_BUDGET,
                old(self).pending_streams@.is_prefix_of(self.pending_streams@),
                self.pending_streams@.len() == old(self).pending_streams@.len() + taken,
                forall|i: int|
                    old(self).pending_streams@.len() <= i < self.pending_streams@.len() ==> {
                        &&& (#[trigger] self.pending_streams@[i]).is_bi() == (dir
                            == Direction::Bi)
                        &&& self.pending_streams@[i].by_server() != old(state).is_server()
                    },
                self.backlog_bi == old(self).backlog_bi,
                self.backlog_uni == old(self).backlog_uni,
                self.egress == old(self).egress,
                self.pending_wakers == old(self).pending_wakers,
                self.deadline == old(self).deadline,
                self.timeout_due == old(self).timeout_due,
                state.readers == old(state).readers,
                state.writers == old(state).writers,
                state.is_server() == old(state).is_server(),
                state.closed == old(state).closed,
                state.established == old(state).established,
                state.tails == old(state).tails,
            ensures
                taken <= ACCEPT_BUDGET,
                dry <==> taken < ACCEPT_BUDGET,
                old(self).pending_streams@.is_prefix_of(self.pending_streams@),
                self.pending_streams@.len() == old(self).pending_streams@.len() + taken,
                forall|i: int|
                    old(self).pending_streams@.len() <= i < self.pending_streams@.len() ==> {
                        &&& (#[trigger] self.pending_streams@[i]).is_bi() == (dir
                            == Direction::Bi)
                        &&& self.pending_streams@[i].by_server() != old(state).is_server()
                    },
                self.backlog_bi == old(self).backlog_bi,
                self.backlog_uni == old(self).backlog_uni,
                self.egress == old(self).egress,
                self.pending_wakers == old(self).pending_wakers,
                self.deadline == old(self).deadline,
                self.timeout_due == old(self).timeout_due,
                state.readers == old(state).readers,
                state.writers == old(state).writers,
                state.is_server() == old(state).is_server(),
                state.closed == old(state).closed,
                state.established == old(state).established,
                state.tails == old(state).tails,
            decreases ACCEPT_BUDGET - taken,
        {
            match state.accept(dir) {
                Some(id) => {
                    self.pending_streams.push_back(id);
                },
                None => {
                    dry = true;
                    break ;
                },
            }
            taken += 1;
        }
        match dir {
            Direction::Bi => {
                self.backlog_bi = !dry;
            },
            Direction::Uni => {
                self.backlog_uni = !dry;
            },
        }
    }

    /// Accepts what an earlier pass left unaccepted.
    pub fn accept_backlog(&mut self, state: &mut ConnState) -> (any: bool)
        ensures
            any == (old(self).backlog_bi || old(self).backlog_uni),
            old(self).pending_streams@.is_prefix_of(final(self).pending_streams@),
            final(self).backlog_bi ==> old(self).backlog_bi,
            final(self).backlog_uni ==> old(self).backlog_uni,
            final(self).egress == old(self).egress,
            final(self).pending_wakers == old(self).pending_wakers,
            final(self).deadline == old(self).deadline,
            final(self).timeout_due == old(self).timeout_due,
            final(state).readers == old(state).readers,
            final(state).writers == old(state).writers,
            final(state).is_server() == old(state).is_server(),
            final(state).closed == old(state).closed,
    {
        let any = self.backlog_bi || self.backlog_uni;
        if self.backlog_bi {
            self.accept_streams(state, Direction::Bi);
        }
        if self.backlog_uni {
            self.accept_streams(state, Direction::Uni);
        }
        any
    }

    /// Takes one stream event of the core.
    ///
    /// `Readable` moves the parked reader of that stream, if there is one,
    /// to the deferred wakers. `Writable` first offers the core the
    /// stream's tail again, and then moves the parked writer likewise; a
    /// writer that finds the tail still waiting parks again. `Stopped`
    /// drops the tail and
    /// moves the parked writer, who finds the stream stopped when it polls
    /// again. `Opened` accepts the streams on offer. The other events
    /// change nothing.
    pub fn on_stream_event(&mut self, state: &mut ConnState, notice: StreamNotice)
        ensures
            final(state).is_server() == old(state).is_server(),
            final(state).closed == old(state).closed,
            final(state).established == old(state).established,
            final(self).egress == old(self).egress,
            final(self).deadline == old(self).deadline,
            final(self).timeout_due == old(self).timeout_due,
            old(self).pending_streams@.is_prefix_of(final(self).pending_streams@),
            !(notice is Opened) ==> final(self).pending_streams == old(self).pending_streams,
            !(notice is Readable) ==> final(state).readers@ == old(state).readers@,
            notice matches StreamNotice::Readable { id } ==> {
                &&& (final(state).readers@, final(self).pending_wakers@) == unparked(
                    old(state).readers@,
                    old(self).pending_wakers@,
                    id,
                )
                &&& final(state).writers@ == old(state).writers@
                &&& final(state).tails == old(state).tails
            },
            notice matches StreamNotice::Writable { id } ==> {
                &&& (final(state).writers@, final(self).pending_wakers@) == unparked(
                    old(state).writers@,
                    old(self).pending_wakers@,
                    id,
                )
                &&& final(state).tails@.contains_key(id) ==> old(state).tails@.contains_key(id)
                &&& final(state).tails@.remove(id) == old(state).tails@.remove(id)
            },
            notice matches StreamNotice::Stopped { id, code } ==> {
                &&& (final(state).writers@, final(self).pending_wakers@) == unparked(
                    old(state).writers@,
                    old(self).pending_wakers@,
                    id,
                )
                &&& final(state).tails@ == old(state).tails@.remove(id)
            },
            !(notice is Readable) && !(notice is Writable) && !(notice is Stopped) ==> {
                &&& final(state).writers@ == old(state).writers@
                &&& final(self).pending_wakers@ == old(self).pending_wakers@
                &&& final(state).tails == old(state).tails
            },
    {
        match notice {
            StreamNotice::Opened { dir } => {
                self.accept_streams(state, dir);
            },
            StreamNotice::Readable { id } => {
                Self::unpark(&mut state.readers, &mut self.pending_wakers, id);
            },
            StreamNotice::Writable { id } => {
                let _ = state.flush_tail(id);
                Self::unpark(&mut state.writers, &mut self.pending_wakers, id);
            },
            StreamNotice::Stopped { id, code } => {
                let _ = state.tails.remove(&id);
                Self::unpark(&mut state.writers, &mut self.pending_wakers, id);
            },
            StreamNotice::Finished { id } => {},
            StreamNotice::Available { dir } => {},
        }
    }

    /// Takes one event of the core and tells whether it ends the runner.
    ///
    /// A lost connection ends the runner with `ConnectionReset` and the
    /// core's reason, and changes nothing. `Connected` marks the connection
    /// established. A stream event is told apart and taken as
    /// `on_stream_event` says: no waker is dropped, and streams and deferred
    /// wakers are queued behind those queued before. Every other event
    /// changes nothing.
    pub fn on_event(&mut self, state: &mut ConnState, event: CoreEvent) -> (lost: Option<
        RunnerError,
    >)
        ensures
            final(state).is_server() == old(state).is_server(),
            final(state).closed == old(state).closed,
            final(self).egress == old(self).egress,
            final(self).deadline == old(self).deadline,
            final(self).timeout_due == old(self).timeout_due,
            event matches CoreEvent::Lost { reason } ==> lost == Some(
                RunnerError::ConnectionReset { reason },
            ),
            !(event is Lost) ==> lost is None,
            final(state).established == (old(state).established || event is Connected),
            !(event is Stream) ==> {
                &&& final(state).readers@ == old(state).readers@
                &&& final(state).writers@ == old(state).writers@
                &&& final(self).pending_wakers@ == old(self).pending_wakers@
                &&& final(self).pending_streams@ == old(self).pending_streams@
                &&& final(self).backlog_bi == old(self).backlog_bi
                &&& final(self).backlog_uni == old(self).backlog_uni
            },
            old(self).pending_streams@.is_prefix_of(final(self).pending_streams@),
            old(self).pending_wakers@.is_prefix_of(final(self).pending_wakers@),
            carried(old(state).readers@, final(state).readers@, final(self).pending_wakers@),
            carried(old(state).writers@, final(state).writers@, final(self).pending_wakers@),
    {
        match event {
            CoreEvent::Lost { reason } => Some(RunnerError::ConnectionReset { reason }),
            CoreEvent::Connected => {
                state.established = true;
                None
            },
            CoreEvent::Stream(event) => {
                self.on_stream_event(state, classify_stream(event));
                proof {
                    let woken = old(self).pending_wakers@;
                    let now_woken = self.pending_wakers@;
                    lemma_carried_step(
                        old(state).readers@,
                        old(state).readers@,
                        state.readers@,
                        woken,
                        now_woken,
                    );
                    lemma_carried_step(
                        old(state).writers@,
                        old(state).writers@,
                        state.writers@,
                        woken,
                        now_woken,
                    );
                }
                None
            },
            CoreEvent::HandshakeDataReady => None,
            CoreEvent::DatagramReceived => None,
            CoreEvent::DatagramsUnblocked => None,
        }
    }

    /// Takes the core's events, as many as it has within the budget. A lost
    /// connection ends the runner with `ConnectionReset`. Otherwise tells
    /// whether there was any event.
    ///
    /// Whatever the core reports, no waker is dropped: each is still parked
    /// or deferred for waking, behind those deferred before. Streams are
    /// queued behind those queued before, and the outbound queue is not
    /// touched. Once the core reports the handshake complete, the
    /// connection counts as established for good.
    pub fn pump_events(&mut self, state: &mut ConnState) -> (r: Result<bool, RunnerError>)
        ensures
            final(state).is_server() == old(state).is_server(),
            final(state).closed == old(state).closed,
            final(self).egress == old(self).egress,
            final(self).deadline == old(self).deadline,
            final(self).timeout_due == old(self).timeout_due,
            old(self).pending_streams@.is_prefix_of(final(self).pending_streams@),
            old(self).pending_wakers@.is_prefix_of(final(self).pending_wakers@),
            carried(old(state).readers@, final(state).readers@, final(self).pending_wakers@),
            carried(old(state).writers@, final(state).writers@, final(self).pending_wakers@),
            old(state).established ==> final(state).established,
            r matches Err(e) ==> e is ConnectionReset,
    {
        let mut seen: usize = 0;
        while seen < EVENT_BUDGET
            invariant
                state.is_server() == old(state).is_server(),
                state.closed == old(state).closed,
                self.egress == old(self).egress,
                self.deadline == old(self).deadline,
                self.timeout_due == old(self).timeout_due,
                old(self).pending_streams@.is_prefix_of(self.pending_streams@),
                old(self).pending_wakers@.is_prefix_of(self.pending_wakers@),
                carried(old(state).readers@, state.readers@, self.pending_wakers@),
                carried(old(state).writers@, state.writers@, self.pending_wakers@),
                old(state).established ==> state.established,
            decreases EVENT_BUDGET - seen,
        {
            let ghost readers = state.readers@;
            let ghost writers = state.writers@;
            let ghost woken = self.pending_wakers@;
            match state.core.poll() {
                None => {
                    return Ok(seen > 0);
                },
                Some(event) => {
                    if let Some(lost) = self.on_event(state, event) {
                        return Err(lost);
                    }
                    proof {
                        let now_woken = self.pending_wakers@;
                        lemma_carried_chain(
                            old(state).readers@,
                            readers,
                            state.readers@,
                            woken,
                            now_woken,
                        );
                        lemma_carried_chain(
                            old(state).writers@,
                            writers,
                            state.writers@,
                            woken,
                            now_woken,
                        );
                    }
                },
            }
            seen += 1;
        }
        Ok(true)
    }

    /// Stages the core's datagrams, as many as it has within the budget,
    /// seals what was staged, and notes the core's next deadline. Tells
    /// whether the budget ran out, so that more may be waiting.
    ///
    /// Whatever the core produces, the datagrams that waited before still
    /// wait, in their order and ahead of the new ones.
    pub fn emit(&mut self, state: &mut ConnState, now: Instant) -> (more: bool)
        requires
            old(self).wf(),
        ensures
            final(self).wf(),
            final(self).egress.margins() == old(self).egress.margins(),
            old(self).egress.datagrams().is_prefix_of(final(self).egress.datagrams()),
            final(self).egress.datagrams().len() <= old(self).egress.datagrams().len()
                + TRANSMIT_BUDGET,
            final(self).egress.staged_datagrams() == Seq::<Datagram>::empty(),
            more ==> final(self).egress.datagrams().len() > 0,
            final(self).pending_streams == old(self).pending_streams,
            final(self).pending_wakers == old(self).pending_wakers,
            final(self).timeout_due == old(self).timeout_due,
            final(state).readers == old(state).readers,
            final(state).writers == old(state).writers,
            final(state).is_server() == old(state).is_server(),
            final(state).closed == old(state).closed,
    {
        let mut staged: usize = 0;
        let mut polled: usize = 0;
        while polled < TRANSMIT_BUDGET
            invariant
                self.wf(),
                staged <= polled <= TRANSMIT_BUDGET,
                self.egress.margins() == old(self).egress.margins(),
                old(self).egress.datagrams().is_prefix_of(self.egress.datagrams()),
                self.egress.datagrams().len() == old(self).egress.datagrams().len() + staged,
                self.pending_streams == old(self).pending_streams,
                self.pending_wakers == old(self).pending_wakers,
                self.timeout_due == old(self).timeout_due,
                state.readers == old(state).readers,
                state.writers == old(state).writers,
                state.is_server() == old(state).is_server(),
                state.closed == old(state).closed,
            decreases TRANSMIT_BUDGET - polled,
        {
            self.scratch.clear();
            match state.core.poll_transmit(now, &mut self.scratch) {
                None => break ,
                Some(info) => {
                    if self.egress.offer(self.scratch.as_slice(), info) {
                        staged += 1;
                    }
                },
            }
            polled += 1;
        }
        self.egress.seal();
        self.deadline = state.core.poll_timeout();
        polled >= TRANSMIT_BUDGET && staged > 0
    }

    /// Wakes the deferred wakers, oldest first. This is done after the
    /// lock is released: a woken task may take the lock at once.
    pub fn wake_deferred(&mut self)
        ensures
            final(self).pending_wakers@ == Seq::<Waker>::empty(),
            final(self).egress == old(self).egress,
            final(self).pending_streams == old(self).pending_streams,
            final(self).deadline == old(self).deadline,
            final(self).timeout_due == old(self).timeout_due,
    {
        let mut wakers: Vec<Waker> = Vec::new();
        core::mem::swap(&mut self.pending_wakers, &mut wakers);
        while wakers.len() > 0
            invariant
                self.pending_wakers@ == Seq::<Waker>::empty(),
                self.egress == old(self).egress,
                self.pending_streams == old(self).pending_streams,
                self.deadline == old(self).deadline,
                self.timeout_due == old(self).timeout_due,
            decreases wakers@.len(),
        {
            let waker = wakers.remove(0);
            waker.wake();
        }
    }

    /// What the sending loop waits for besides the notifier.
    pub fn send_action(&self, accepting: bool) -> (action: SendAction)
        requires
            self.wf(),
        ensures
            action == spec_send_action(
                self.egress.datagrams().len() > 0,
                self.pending_streams@.len() > 0,
                accepting,
            ),
    {
        let packets = !self.egress.is_empty();
        let streams = self.pending_streams.len() > 0 && accepting;
        if packets && streams {
            SendAction::Both
        } else if packets {
            SendAction::Packet
        } else if streams {
            SendAction::Stream
        } else {
            SendAction::Idle
        }
    }

    /// The datagram to push once the packet sink has granted credit: the
    /// one that has waited longest, a payload of the core between the
    /// configured margins.
    pub fn next_packet(&mut self) -> (p: Option<QuicPacket>)
        requires
            old(self).wf(),
        ensures
            final(self).wf(),
            final(self).egress.margins() == old(self).egress.margins(),
            final(self).pending_streams == old(self).pending_streams,
            final(self).pending_wakers == old(self).pending_wakers,
            final(self).deadline == old(self).deadline,
            final(self).timeout_due == old(self).timeout_due,
            p is Some <==> old(self).egress.datagrams().len() > 0,
            p is None ==> final(self).egress.datagrams() == old(self).egress.datagrams(),
            p matches Some(packet) ==> {
                &&& packet.transmit == old(self).egress.datagrams()[0].route
                &&& contents(packet.payload) == old(self).egress.datagrams()[0].bytes
                &&& is_framed(contents(packet.payload), old(self).egress.margins())
                &&& final(self).egress.datagrams() == old(self).egress.datagrams().skip(1)
            },
    {
        self.egress.pop()
    }

    /// The handle to dispatch once the new-stream sink has granted credit:
    /// a fresh handle on the stream that has waited longest.
    pub fn next_stream(&mut self) -> (s: Option<QuicStream>)
        ensures
            final(self).egress == old(self).egress,
            final(self).pending_wakers == old(self).pending_wakers,
            final(self).deadline == old(self).deadline,
            final(self).timeout_due == old(self).timeout_due,
            s is Some <==> old(self).pending_streams@.len() > 0,
            s is None ==> final(self).pending_streams@ == old(self).pending_streams@,
            s matches Some(stream) ==> {
                &&& stream.stream_id() == old(self).pending_streams@[0]
                &&& stream.recv_state() == crate::stream::RecvState::Open
                &&& !stream.finished()
                &&& final(self).pending_streams@ == old(self).pending_streams@.skip(1)
            },
    {
        match self.pending_streams.pop_front() {
            Some(id) => {
                Some(QuicStream::new(id))
            },
            None => None,
        }
    }

    /// Notes that the sleep ended on the timer: the next pass lets the core
    /// process its timers.
    pub fn on_timer(&mut self)
        ensures
            final(self).timeout_due,
            final(self).egress == old(self).egress,
            final(self).pending_streams == old(self).pending_streams,
            final(self).pending_wakers == old(self).pending_wakers,
            final(self).deadline == old(self).deadline,
    {
        self.timeout_due = true;
    }

    /// What the runner does after a pass and its sending. `worked` tells
    /// whether either did anything. A deadline that has passed by `now` is
    /// noted for the next pass.
    pub fn after_pass(&mut self, worked: bool, now: Instant) -> (next: Next)
        ensures
            final(self).egress == old(self).egress,
            final(self).pending_streams == old(self).pending_streams,
            final(self).pending_wakers == old(self).pending_wakers,
            final(self).deadline == old(self).deadline,
            worked ==> next == Next::Restart,
            !worked && old(self).deadline is None ==> next == Next::SleepUntilNotified,
            !worked && old(self).deadline is Some ==> next == Next::TimeoutNow || next
                == Next::SleepUntilDeadline,
            final(self).timeout_due == (old(self).timeout_due || next == Next::TimeoutNow),
    {
        let due = match &self.deadline {
            Some(deadline) => Some(reached(deadline, &now)),
            None => None,
        };
        let next = next_step(worked, due);
        if let Next::TimeoutNow = next {
            self.timeout_due = true;
        }
        next
    }

    /// One pass over the protected state, under one hold of its lock.
    ///
    /// With shutdown asked, the pass ends the runner as `terminate` does
    /// and does nothing else. Otherwise it runs the five
    /// phases in order: the inbox is drained into the core; a due timer is
    /// processed; open requests are answered and close requests served; the
    /// core's events are taken; the core's datagrams are staged and sealed.
    /// A lost connection ends the pass, and the runner, with
    /// `ConnectionReset`: the connection is then closed and everybody who is
    /// parked is woken, and so is everybody whose wake the pass had
    /// deferred, so that each finds the connection gone on its next poll.
    pub fn advance<R>(&mut self, ctrl: &mut ControlBlock<R>, state: &mut ConnState, now: Instant) -> (r:
        Result<Pass<R>, RunnerError>)
        requires
            old(self).wf(),
        ensures
            final(self).wf(),
            final(state).is_server() == old(state).is_server(),
            final(self).egress.margins() == old(self).egress.margins(),
            final(ctrl).shutdown == old(ctrl).shutdown,
            old(self).egress.datagrams().is_prefix_of(final(self).egress.datagrams()),
            r matches Err(e) ==> e is ConnectionReset && !old(ctrl).shutdown,
            r is Err || old(ctrl).shutdown ==> {
                &&& final(state).closed
                &&& final(state).readers@ == Map::<u64, Waker>::empty()
                &&& final(state).writers@ == Map::<u64, Waker>::empty()
                &&& final(self).pending_wakers@ == Seq::<Waker>::empty()
                &&& final(self).pending_streams@ == Seq::<StreamId>::empty()
            },
            r is Ok && !old(ctrl).shutdown ==> {
                &&& old(self).pending_streams@.is_prefix_of(final(self).pending_streams@)
                &&& old(self).pending_wakers@.is_prefix_of(final(self).pending_wakers@)
            },
            r matches Ok(pass) ==> pass.shutdown == old(ctrl).shutdown,
            r is Ok ==> final(state).closed == (old(state).closed || old(ctrl).shutdown),
            r matches Ok(pass) ==> (pass.shutdown ==> {
                &&& !pass.worked
                &&& pass.replies@.len() == 0
                &&& final(state).readers@ == Map::<u64, Waker>::empty()
                &&& final(state).writers@ == Map::<u64, Waker>::empty()
                &&& final(ctrl).inbox@ == old(ctrl).inbox@
                &&& final(ctrl).open_requests@ == old(ctrl).open_requests@
                &&& final(ctrl).close_requests@ == old(ctrl).close_requests@
                &&& final(self).egress.datagrams() == old(self).egress.datagrams()
            }),
            !old(ctrl).shutdown ==> {
                &&& !final(ctrl).signalled()
                &&& final(ctrl).inbox@.len() == 0
                &&& final(ctrl).open_requests@.len() == 0
                &&& final(ctrl).close_requests@.len() == 0
            },
            r matches Ok(pass) ==> (!pass.shutdown ==> {
                &&& carried(
                    closed_all(old(state).readers@, old(ctrl).close_requests@),
                    final(state).readers@,
                    final(self).pending_wakers@,
                )
                &&& carried(
                    closed_all(old(state).writers@, old(ctrl).close_requests@),
                    final(state).writers@,
                    final(self).pending_wakers@,
                )
                &&& final(self).egress.staged_datagrams() == Seq::<Datagram>::empty()
                &&& !final(self).timeout_due
                &&& old(ctrl).inbox@.len() > 0 || old(self).timeout_due ==> pass.worked
                &&& pass.replies@.len() == old(ctrl).open_requests@.len()
                &&& forall|i: int|
                    0 <= i < pass.replies@.len() ==> (#[trigger] pass.replies@[i]).reply
                        == old(ctrl).open_requests@[i].reply
                &&& forall|i: int|
                    0 <= i < pass.replies@.len() ==> ((#[trigger] pass.replies@[i]).result matches Ok(id) ==> {
                        &&& id.is_bi() == (old(ctrl).open_requests@[i].dir == Direction::Bi)
                        &&& id.by_server() == old(state).is_server()
                    })
            }),
    {
        if ctrl.shutdown {
            self.terminate(state, now);
            return Ok(Pass { worked: false, shutdown: true, replies: Vec::new() });
        }
        let drained = Self::drain_inbox(ctrl, state);
        let backlog = self.accept_backlog(state);
        let due = match &self.deadline {
            Some(deadline) => reached(deadline, &now),
            None => false,
        };
        let fired = self.service_timeout(state, now, due);
        let replies = Self::service_opens(ctrl, state);
        Self::service_closes(ctrl, state);
        let polled = match self.pump_events(state) {
            Ok(any) => any,
            Err(e) => {
                self.terminate(state, now);
                return Err(e);
            },
        };
        let more = self.emit(state, now);
        Ok(Pass { worked: drained || backlog || fired || polled || more, shutdown: false, replies })
    }

    /// Takes what the runner met while it was sending.
    ///
    /// The notifier ends the sending and changes nothing: ingress comes
    /// before egress. The core's deadline ends the sending too, and the
    /// next pass processes the timer. A sink whose consumer is gone ends
    /// the runner with a broken pipe: the connection is closed, everybody
    /// who is parked or deferred is woken, and what is queued for the sinks
    /// is dropped.
    pub fn on_send_event(&mut self, state: &mut ConnState, event: SendEvent, now: Instant) -> (step:
        SendStep)
        ensures
            final(state).is_server() == old(state).is_server(),
            final(self).egress == old(self).egress,
            final(self).deadline == old(self).deadline,
            event is Notified ==> {
                &&& step is BackToPass
                &&& *final(self) == *old(self)
                &&& *final(state) == *old(state)
            },
            event is TimerFired ==> {
                &&& step is BackToPass
                &&& final(self).timeout_due
                &&& final(self).pending_streams == old(self).pending_streams
                &&& final(self).pending_wakers == old(self).pending_wakers
                &&& *final(state) == *old(state)
            },
            event matches SendEvent::SinkClosed { sink } ==> {
                &&& step matches SendStep::End { error: RunnerError::BrokenPipe { sink: which } }
                    && which == sink
                &&& final(state).closed
                &&& final(state).readers@ == Map::<u64, Waker>::empty()
                &&& final(state).writers@ == Map::<u64, Waker>::empty()
                &&& final(self).pending_wakers@ == Seq::<Waker>::empty()
                &&& final(self).pending_streams@ == Seq::<StreamId>::empty()
            },
    {
        match event {
            SendEvent::Notified => SendStep::BackToPass,
            SendEvent::TimerFired => {
                self.on_timer();
                SendStep::BackToPass
            },
            SendEvent::SinkClosed { sink } => {
                self.terminate(state, now);
                SendStep::End { error: RunnerError::BrokenPipe { sink } }
            },
        }
    }

    /// Ends the runner: closes the connection if it is not closed yet,
    /// wakes everybody who is parked or deferred, and drops what is queued
    /// for the sinks. Each woken task then finds the connection gone.
    pub fn terminate(&mut self, state: &mut ConnState, now: Instant)
        ensures
            final(state).closed,
            final(state).readers@ == Map::<u64, Waker>::empty(),
            final(state).writers@ == Map::<u64, Waker>::empty(),
            final(state).is_server() == old(state).is_server(),
            final(self).pending_wakers@ == Seq::<Waker>::empty(),
            final(self).pending_streams@ == Seq::<StreamId>::empty(),
            final(self).egress == old(self).egress,
            final(self).deadline == old(self).deadline,
            final(self).timeout_due == old(self).timeout_due,
    {
        state.destroy(now);
        self.wake_deferred();
        self.pending_streams.clear();
    }
}

} // verus!
