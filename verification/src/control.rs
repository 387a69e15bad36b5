//! The control block of one connection: the three queues through which the
//! endpoint and the stream handles reach the runner, and the shutdown flag.
//!
//! Every successful push is a reason to signal the runner's notifier; the
//! notifier stands for "some queue is not empty, or shutdown was asked".

use crate::ids::{Direction, StreamId};
use quinn_proto::ConnectionEvent;
use std::collections::VecDeque;
use vstd::prelude::*;

verus! {

/// How many protocol events the inbox holds at most.
pub const INBOX_CAPACITY: usize = 1024;

/// A request for a new stream and the slot through which the answer goes
/// back to the requester.
pub struct OpenRequest<R> {
    pub dir: Direction,
    pub reply: R,
}

/// The runner's input ports.
pub struct ControlBlock<R> {
    pub inbox: VecDeque<ConnectionEvent>,
    pub open_requests: VecDeque<OpenRequest<R>>,
    pub close_requests: VecDeque<StreamId>,
    pub shutdown: bool,
}

impl<R> ControlBlock<R> {
    /// Whether the runner has anything to take: what its notifier stands
    /// for.
    pub open spec fn signalled(&self) -> bool {
        ||| self.inbox@.len() > 0
        ||| self.open_requests@.len() > 0
        ||| self.close_requests@.len() > 0
        ||| self.shutdown
    }

    /// A control block with nothing queued.
    pub fn new() -> (c: ControlBlock<R>)
        ensures
            c.inbox@ == Seq::<ConnectionEvent>::empty(),
            c.open_requests@ == Seq::<OpenRequest<R>>::empty(),
            c.close_requests@ == Seq::<StreamId>::empty(),
            !c.shutdown,
            !c.signalled(),
    {
        ControlBlock {
            inbox: VecDeque::new(),
            open_requests: VecDeque::new(),
            close_requests: VecDeque::new(),
            shutdown: false,
        }
    }

    /// Queues a protocol event behind those already waiting. A full inbox
    /// takes nothing and hands the event back, for the caller to retry.
    pub fn send_event(&mut self, event: ConnectionEvent) -> (r: Result<(), ConnectionEvent>)
        ensures
            final(self).open_requests == old(self).open_requests,
            final(self).close_requests == old(self).close_requests,
            final(self).shutdown == old(self).shutdown,
            r is Ok <==> old(self).inbox@.len() < INBOX_CAPACITY,
            r is Ok ==> final(self).inbox@ == old(self).inbox@.push(event),
            r is Ok ==> final(self).signalled(),
            r matches Err(back) ==> back == event && final(self).inbox == old(self).inbox,
    {
        if self.inbox.len() >= INBOX_CAPACITY {
            return Err(event);
        }
        self.inbox.push_back(event);
        Ok(())
    }

    /// Queues a request for a new stream.
    pub fn open(&mut self, dir: Direction, reply: R)
        ensures
            final(self).open_requests@ == old(self).open_requests@.push(OpenRequest { dir, reply }),
            final(self).inbox == old(self).inbox,
            final(self).close_requests == old(self).close_requests,
            final(self).shutdown == old(self).shutdown,
            final(self).signalled(),
    {
        self.open_requests.push_back(OpenRequest { dir, reply });
    }

    /// Queues the id of a stream whose handle was dropped.
    pub fn close(&mut self, id: StreamId)
        ensures
            final(self).close_requests@ == old(self).close_requests@.push(id),
            final(self).inbox == old(self).inbox,
            final(self).open_requests == old(self).open_requests,
            final(self).shutdown == old(self).shutdown,
            final(self).signalled(),
    {
        self.close_requests.push_back(id);
    }

    /// Asks the runner to stop.
    pub fn shutdown(&mut self)
        ensures
            final(self).shutdown,
            final(self).inbox == old(self).inbox,
            final(self).open_requests == old(self).open_requests,
            final(self).close_requests == old(self).close_requests,
            final(self).signalled(),
    {
        self.shutdown = true;
    }

    /// Takes the protocol event that has waited longest.
    pub fn pop_event(&mut self) -> (event: Option<ConnectionEvent>)
        ensures
            final(self).open_requests == old(self).open_requests,
            final(self).close_requests == old(self).close_requests,
            final(self).shutdown == old(self).shutdown,
            event is Some <==> old(self).inbox@.len() > 0,
            event is None ==> final(self).inbox@ == old(self).inbox@,
            event matches Some(e) ==> e == old(self).inbox@[0],
            event is Some ==> final(self).inbox@ == old(self).inbox@.skip(1),
    {
        self.inbox.pop_front()
    }

    /// Takes the open request that has waited longest.
    pub fn pop_open(&mut self) -> (request: Option<OpenRequest<R>>)
        ensures
            final(self).inbox == old(self).inbox,
            final(self).close_requests == old(self).close_requests,
            final(self).shutdown == old(self).shutdown,
            request is Some <==> old(self).open_requests@.len() > 0,
            request is None ==> final(self).open_requests@ == old(self).open_requests@,
            request matches Some(r) ==> r == old(self).open_requests@[0],
            request is Some ==> final(self).open_requests@ == old(self).open_requests@.skip(1),
    {
        self.open_requests.pop_front()
    }

    /// Takes the close request that has waited longest.
    pub fn pop_close(&mut self) -> (id: Option<StreamId>)
        ensures
            final(self).inbox == old(self).inbox,
            final(self).open_requests == old(self).open_requests,
            final(self).shutdown == old(self).shutdown,
            id is Some <==> old(self).close_requests@.len() > 0,
            id is None ==> final(self).close_requests@ == old(self).close_requests@,
            id matches Some(i) ==> i == old(self).close_requests@[0],
            id is Some ==> final(self).close_requests@ == old(self).close_requests@.skip(1),
    {
        self.close_requests.pop_front()
    }

    /// Whether the runner has anything to take.
    pub fn has_input(&self) -> (b: bool)
        ensures
            b == self.signalled(),
    {
        self.inbox.len() > 0 || self.open_requests.len() > 0 || self.close_requests.len() > 0
            || self.shutdown
    }
}

} // verus!
