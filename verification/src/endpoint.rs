//! The endpoint: it owns the protocol core's endpoint, routes each inbound
//! datagram to what the core makes of it, and starts connections.
//!
//! The endpoint never waits. What needs a task, a lock or a channel is
//! handed back to the caller as a value: a connection to start a runner
//! for, an event for a connection's inbox, a datagram for the packet sink.

use crate::bytes_model::contents;
use crate::conn::ConnState;
use crate::ids::PeerAddr;
use crate::margins::{framed, is_framed, BufMargins};
use crate::packet::QuicPacket;
use crate::pool::PacketPool;
use crate::protocol::{
    accept_incoming, connect_to, core_endpoint, handle_datagram, transport_config, with_bbr,
    AcceptRefusal, ConnectRefusal, CoreConn, Ingress, TransmitInfo, TransportSettings,
};
use crate::registry::{unindexed, Entry, Registry};
use bytes::BytesMut;
use quinn_proto::{ClientConfig, ConnectionError, ConnectionEvent, Endpoint, ServerConfig};
use std::time::Instant;
use vstd::prelude::*;

verus! {

/// What became of an inbound datagram.
pub enum Delivery {
    /// The core had no use for it.
    Nothing,
    /// It asked for a new connection while none are accepted; the core was
    /// told to forget it, and no answer goes out.
    Dropped,
    /// It started a connection. The caller starts a runner for it and
    /// registers it.
    Established { handle: usize, state: ConnState },
    /// It belongs to a live connection: the event goes to that connection's
    /// inbox.
    Event { handle: usize, event: ConnectionEvent },
    /// The endpoint answers it directly: the datagram goes to the packet
    /// sink.
    Response { packet: QuicPacket },
}

/// Why the endpoint failed.
pub enum EndpointError {
    /// An event arrived for a connection that is not live.
    UnknownConnection { handle: usize },
    /// The core refused an incoming connection. Its answer to the peer, if
    /// it has one, goes to the packet sink.
    AcceptRefused { cause: ConnectionError, response: Option<QuicPacket> },
    /// The core refused to start a connection.
    ConnectError { refusal: ConnectRefusal },
}

/// What the core made of a datagram that asks for no new connection.
pub enum Answer {
    /// The core had no use for it.
    Nothing,
    /// It belongs to the connection with this handle.
    ConnectionEvent(usize, ConnectionEvent),
    /// The endpoint answers it directly, with the bytes that the core
    /// wrote to the front of the scratch buffer.
    Response(TransmitInfo),
}

/// Why no endpoint was made.
#[derive(Debug, Clone, Copy, PartialEq, Eq, Structural)]
pub enum ConfigRefused {
    /// The core cannot run with the settings.
    Unusable,
}

/// The connection that an `open` goes through.
pub enum Connected {
    /// A live connection to the peer.
    Existing { handle: usize },
    /// A connection that the core just started. The caller starts a runner
    /// for it and registers it.
    New { handle: usize, state: ConnState },
}

/// A scratch buffer on loan: taken out of its slot empty, and put back when
/// the work is done.
pub struct BufferGuard(pub Vec<u8>);

impl BufferGuard {
    /// Takes the buffer out of `slot` and empties it.
    pub fn new(slot: &mut Vec<u8>) -> (g: BufferGuard)
        ensures
            g.0@ == Seq::<u8>::empty(),
            final(slot)@ == Seq::<u8>::empty(),
    {
        let mut buf: Vec<u8> = Vec::new();
        core::mem::swap(slot, &mut buf);
        buf.clear();
        BufferGuard(buf)
    }

    /// Puts the buffer back into `slot`.
    pub fn restore(self, slot: &mut Vec<u8>)
        ensures
            final(slot)@ == self.0@,
    {
        let mut buf = self.0;
        core::mem::swap(slot, &mut buf);
    }
}

/// What the core's answer to an accept means for the caller. A refusal's
/// datagram for the peer is packed for the packet sink where it can be.
pub fn admitted(
    pool: &mut PacketPool,
    margins: BufMargins,
    buf: &[u8],
    answer: Result<(usize, CoreConn), AcceptRefusal>,
) -> (r: Result<Delivery, EndpointError>)
    requires
        answer matches Err(refusal) ==> (refusal.response matches Some(info) ==> info.size
            <= buf@.len()),
    ensures
        final(pool).min_capacity() == old(pool).min_capacity(),
        answer matches Ok(pair) ==> (r matches Ok(Delivery::Established { handle, state }) && {
            &&& handle == pair.0
            &&& state.core == pair.1
            &&& state.fresh()
        }),
        answer matches Err(refusal) ==> (r matches Err(
            EndpointError::AcceptRefused { cause, response },
        ) && {
            &&& cause == refusal.cause
            &&& response is Some <==> (refusal.response matches Some(info) && old(pool).can_pack(
                info.size as int,
                margins,
            ))
            &&& response matches Some(packet) ==> {
                &&& packet.transmit == refusal.response->Some_0.raw
                &&& contents(packet.payload) == framed(
                    margins,
                    buf@.subrange(0, refusal.response->Some_0.size as int),
                )
            }
        }),
{
    match answer {
        Ok((handle, core)) => Ok(Delivery::Established { handle, state: ConnState::new(core) }),
        Err(refusal) => {
            let AcceptRefusal { cause, response } = refusal;
            let response = match response {
                Some(info) => pool.try_pack_transmit(info, buf, margins),
                None => None,
            };
            Err(EndpointError::AcceptRefused { cause, response })
        },
    }
}

/// What the core's answer to a connect means for the caller.
pub fn connected(answer: Result<(usize, CoreConn), ConnectRefusal>) -> (r: Result<
    Connected,
    EndpointError,
>)
    ensures
        answer matches Ok(pair) ==> (r matches Ok(Connected::New { handle, state }) && {
            &&& handle == pair.0
            &&& state.core == pair.1
            &&& state.fresh()
        }),
        answer matches Err(refusal) ==> (r matches Err(
            EndpointError::ConnectError { refusal: why },
        ) && why == refusal),
{
    match answer {
        Ok((handle, core)) => Ok(Connected::New { handle, state: ConnState::new(core) }),
        Err(refusal) => Err(EndpointError::ConnectError { refusal }),
    }
}

/// The endpoint. `C` is the control handle through which the caller
/// reaches a connection's runner.
pub struct QuicEndpoint<C> {
    registry: Registry<C>,
    core: Endpoint,
    client_config: ClientConfig,
    margins: BufMargins,
    pool: PacketPool,
    buf: Vec<u8>,
}

impl<C> QuicEndpoint<C> {
    /// The margins put around every datagram that the endpoint emits.
    pub closed spec fn margins(&self) -> BufMargins {
        self.margins
    }

    /// The endpoint's own pool, as its packing contracts speak of it.
    pub closed spec fn pool(&self) -> PacketPool {
        self.pool
    }

    /// The index of live connections.
    pub closed spec fn index(&self) -> Registry<C> {
        self.registry
    }

    /// The index of live connections is well formed.
    pub open spec fn wf(&self) -> bool {
        self.index().wf()
    }

    /// Whether the connection with this handle is live.
    pub open spec fn live(&self, handle: usize) -> bool {
        self.index().ctrls().contains_key(handle)
    }

    /// An endpoint over the caller's configurations, whose datagrams get
    /// `margins` and whose connections run with `settings`; no connection
    /// yet. Settings that the core cannot run with are refused.
    ///
    /// The configurations bring the cryptographic session; their transport
    /// parameters are replaced by those of `settings`. The core runs the
    /// session on every datagram that `send` is given, so the session has
    /// to answer malformed bytes with an error. Without a server
    /// configuration the endpoint accepts nobody.
    pub fn with_endpoint(
        server_config: Option<ServerConfig>,
        client_config: ClientConfig,
        margins: BufMargins,
        settings: TransportSettings,
    ) -> (r: Result<QuicEndpoint<C>, ConfigRefused>)
        ensures
            r is Ok <==> settings.usable(),
            r matches Ok(e) ==> {
                &&& e.wf()
                &&& e.margins() == margins
                &&& e.index().ctrls() == Map::<usize, Entry<C>>::empty()
                &&& e.index().peers() == Map::<PeerAddr, usize>::empty()
            },
            r matches Err(e) ==> e == ConfigRefused::Unusable,
    {
        if !settings.is_usable() {
            return Err(ConfigRefused::Unusable);
        }
        let plain = transport_config(settings);
        let config = if settings.bbr {
            with_bbr(plain)
        } else {
            plain
        };
        let (core, client_config) = core_endpoint(
            config,
            settings.max_udp_payload,
            server_config,
            client_config,
        );
        Ok(
            QuicEndpoint {
                registry: Registry::new(),
                core,
                client_config,
                margins,
                pool: PacketPool::new(),
                buf: Vec::new(),
            },
        )
    }

    /// Decides what becomes of an inbound datagram that asks for no new
    /// connection, given what the core made of it. `buf` holds the bytes
    /// that the core wrote for a response.
    ///
    /// What the core had no use for changes nothing. An event goes to its
    /// connection if that is live, and is an error otherwise. A response
    /// is packed for the packet sink: the core's route, and the core's
    /// bytes between the margins; one that cannot be packed is let go.
    pub fn route(&mut self, answer: Answer, buf: &[u8]) -> (r: Result<Delivery, EndpointError>)
        requires
            old(self).wf(),
            answer matches Answer::Response(info) ==> info.size <= buf@.len(),
        ensures
            final(self).wf(),
            final(self).margins() == old(self).margins(),
            final(self).index() == old(self).index(),
            answer is Nothing ==> r matches Ok(Delivery::Nothing),
            answer matches Answer::ConnectionEvent(handle, event) ==> (if old(self).live(handle) {
                r matches Ok(Delivery::Event { handle: h, event: e }) && h == handle && e == event
            } else {
                r matches Err(EndpointError::UnknownConnection { handle: h }) && h == handle
            }),
            answer matches Answer::Response(info) ==> (if old(self).pool().can_pack(
                info.size as int,
                old(self).margins(),
            ) {
                r matches Ok(Delivery::Response { packet }) && packet.transmit == info.raw
                    && contents(packet.payload) == framed(
                    old(self).margins(),
                    buf@.subrange(0, info.size as int),
                )
            } else {
                r matches Ok(Delivery::Nothing)
            }),
    {
        match answer {
            Answer::Nothing => Ok(Delivery::Nothing),
            Answer::ConnectionEvent(handle, event) => {
                if self.registry.is_live(handle) {
                    Ok(Delivery::Event { handle, event })
                } else {
                    Err(EndpointError::UnknownConnection { handle })
                }
            },
            Answer::Response(info) => {
                match self.pool.try_pack_transmit(info, buf, self.margins) {
                    Some(packet) => Ok(Delivery::Response { packet }),
                    None => Ok(Delivery::Nothing),
                }
            },
        }
    }

    /// Decides what becomes of an inbound datagram, given what the core
    /// made of it. `accepting` tells whether the new-stream sink's switch
    /// is on.
    ///
    /// With the switch off, a datagram that asks for a new connection is
    /// dropped: the core forgets it, nothing is retained and nothing is
    /// answered. With the switch on, the core is asked to accept it. Every
    /// other datagram goes as `route` says.
    fn deliver(
        &mut self,
        made: Ingress,
        buf: &mut Vec<u8>,
        now: Instant,
        accepting: bool,
    ) -> (r: Result<Delivery, EndpointError>)
        requires
            old(self).wf(),
            made matches Ingress::Response(info) ==> info.size <= old(buf)@.len(),
        ensures
            final(self).wf(),
            final(self).margins() == old(self).margins(),
            final(self).index() == old(self).index(),
            made is Nothing ==> r matches Ok(Delivery::Nothing),
            made is NewConnection && !accepting ==> r matches Ok(Delivery::Dropped),
            made is NewConnection && accepting ==> (r matches Ok(Delivery::Established { .. })
                || r matches Err(EndpointError::AcceptRefused { .. })),
            r matches Ok(Delivery::Established { handle, state }) ==> state.fresh(),
            made matches Ingress::ConnectionEvent(handle, event) ==> (if old(self).live(handle) {
                r matches Ok(Delivery::Event { handle: h, event: e }) && h == handle && e == event
            } else {
                r matches Err(EndpointError::UnknownConnection { handle: h }) && h == handle
            }),
            made matches Ingress::Response(info) ==> (if old(self).pool().can_pack(
                info.size as int,
                old(self).margins(),
            ) {
                r matches Ok(Delivery::Response { packet }) && packet.transmit == info.raw
                    && contents(packet.payload) == framed(
                    old(self).margins(),
                    old(buf)@.subrange(0, info.size as int),
                )
            } else {
                r matches Ok(Delivery::Nothing)
            }),
    {
        match made {
            Ingress::Nothing => self.route(Answer::Nothing, buf.as_slice()),
            Ingress::NewConnection(incoming) => {
                if !accepting {
                    self.core.ignore(incoming);
                    Ok(Delivery::Dropped)
                } else {
                    buf.clear();
                    let answer = match accept_incoming(&mut self.core, incoming, now, buf) {
                        Ok((handle, conn)) => Ok((handle, CoreConn::wrap(conn))),
                        Err(refusal) => Err(refusal),
                    };
                    admitted(&mut self.pool, self.margins, buf.as_slice(), answer)
                }
            },
            Ingress::ConnectionEvent(handle, event) => {
                self.route(Answer::ConnectionEvent(handle, event), buf.as_slice())
            },
            Ingress::Response(info) => self.route(Answer::Response(info), buf.as_slice()),
        }
    }

    /// Delivers one inbound datagram from `peer` to the core and decides
    /// what becomes of it.
    pub fn send(&mut self, peer: PeerAddr, payload: BytesMut, now: Instant, accepting: bool) -> (r:
        Result<Delivery, EndpointError>)
        requires
            old(self).wf(),
        ensures
            final(self).wf(),
            final(self).margins() == old(self).margins(),
            final(self).index() == old(self).index(),
            r matches Ok(Delivery::Event { handle, event }) ==> old(self).live(handle),
            r matches Err(EndpointError::UnknownConnection { handle }) ==> !old(self).live(handle),
            r matches Ok(Delivery::Established { handle, state }) ==> accepting && state.fresh(),
            r matches Err(EndpointError::AcceptRefused { .. }) ==> accepting,
            r matches Ok(Delivery::Dropped) ==> !accepting,
            r matches Ok(Delivery::Response { packet }) ==> is_framed(
                contents(packet.payload),
                old(self).margins(),
            ),
    {
        let guard = BufferGuard::new(&mut self.buf);
        let mut buf = guard.0;
        let made = handle_datagram(&mut self.core, now, peer, payload, &mut buf);
        let r = self.deliver(made, &mut buf, now, accepting);
        BufferGuard(buf).restore(&mut self.buf);
        r
    }

    /// The connection through which a stream to `peer` is opened: the live
    /// connection to that peer if there is one, otherwise one that the core
    /// starts now.
    pub fn connect(&mut self, peer: PeerAddr, now: Instant) -> (r: Result<Connected, EndpointError>)
        requires
            old(self).wf(),
        ensures
            final(self).wf(),
            final(self).margins() == old(self).margins(),
            final(self).index() == old(self).index(),
            old(self).index().peers().contains_key(peer) ==> (r matches Ok(
                Connected::Existing { handle },
            ) && handle == old(self).index().peers()[peer]),
            !old(self).index().peers().contains_key(peer) ==> (r matches Ok(
                Connected::New { .. },
            ) || r matches Err(EndpointError::ConnectError { .. })),
            r matches Ok(Connected::New { handle, state }) ==> state.fresh(),
    {
        match self.registry.handle_of(peer) {
            Some(handle) => Ok(Connected::Existing { handle }),
            None => {
                let config = self.client_config.clone();
                let answer = match connect_to(&mut self.core, now, config, peer, "") {
                    Ok((handle, conn)) => Ok((handle, CoreConn::wrap(conn))),
                    Err(refusal) => Err(refusal),
                };
                connected(answer)
            },
        }
    }

    /// Registers a connection whose runner the caller has started, under
    /// its handle and as the latest connection to its peer.
    pub fn register(&mut self, handle: usize, peer: PeerAddr, ctrl: C) -> (stale: Option<C>)
        requires
            old(self).wf(),
        ensures
            final(self).wf(),
            final(self).margins() == old(self).margins(),
            final(self).index().ctrls() == old(self).index().ctrls().insert(
                handle,
                Entry { peer, ctrl },
            ),
            final(self).index().peers() == unindexed(old(self).index().peers(), handle).insert(
                peer,
                handle,
            ),
            stale is Some <==> old(self).live(handle),
            stale matches Some(c) ==> c == old(self).index().ctrls()[handle].ctrl,
    {
        self.registry.register(handle, peer, ctrl)
    }

    /// Takes a connection whose runner has ended out of the index: neither
    /// its handle nor its peer leads to it any more.
    pub fn remove(&mut self, handle: usize) -> (gone: Option<C>)
        requires
            old(self).wf(),
        ensures
            final(self).wf(),
            final(self).margins() == old(self).margins(),
            final(self).index().ctrls() == old(self).index().ctrls().remove(handle),
            final(self).index().peers() == unindexed(old(self).index().peers(), handle),
            !final(self).live(handle),
            gone is Some <==> old(self).live(handle),
            gone matches Some(c) ==> c == old(self).index().ctrls()[handle].ctrl,
    {
        self.registry.remove(handle)
    }

    /// The control handle of the connection with this handle, if it is
    /// live.
    pub fn ctrl(&self, handle: usize) -> (c: Option<&C>)
        requires
            self.wf(),
        ensures
            c is Some <==> self.live(handle),
            c matches Some(ctrl) ==> *ctrl == self.index().ctrls()[handle].ctrl,
    {
        self.registry.ctrl(handle)
    }

    /// The handle of the latest connection to `peer`, if one is live.
    pub fn handle_of(&self, peer: PeerAddr) -> (h: Option<usize>)
        requires
            self.wf(),
        ensures
            h is Some <==> self.index().peers().contains_key(peer),
            h matches Some(handle) ==> handle == self.index().peers()[peer] && self.live(handle),
    {
        self.registry.handle_of(peer)
    }

    /// Takes every connection out of the index and hands back their control
    /// handles, for the caller to ask each runner to stop.
    pub fn close(&mut self) -> (ctrls: Vec<C>)
        requires
            old(self).wf(),
        ensures
            final(self).wf(),
            final(self).margins() == old(self).margins(),
            final(self).index().ctrls() == Map::<usize, Entry<C>>::empty(),
            final(self).index().peers() == Map::<PeerAddr, usize>::empty(),
            ctrls@.len() == old(self).index().ctrls().dom().len(),
            forall|h: usize|
                old(self).live(h) ==> ctrls@.contains(
                    (#[trigger] old(self).index().ctrls()[h]).ctrl,
                ),
    {
        self.registry.drain()
    }
}

} // verus!
