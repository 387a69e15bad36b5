//! What this library assumes of the protocol core, `quinn_proto`, and of the
//! two std types that pass through it (`Instant`, `Waker`).
//!
//! The core is a state machine without I/O: it is fed events and polled for
//! events, transmits and deadlines. The items marked `external_body` and the
//! `assume_specification` items in this file are not proved. Each stands for
//! one function of the core and says of it only what its source shows for
//! every state of the connection. What the core answers depends on all it
//! has seen before, so most of them promise nothing about the answer: the
//! driver's verified functions take the answer as it comes.

use crate::ids::{Direction, PeerAddr, StreamId};
use bytes::BytesMut;
use quinn_proto::congestion::BbrConfig;
use quinn_proto::{
    ClientConfig, ConnectError, Connection, ConnectionError, ConnectionEvent, ConnectionHandle,
    DatagramEvent, Dir, Endpoint, Event, FinishError, Incoming, ReadError,
    ServerConfig, StreamEvent, Transmit, TransportConfig, VarInt, WriteError,
};
use std::sync::Arc;
use std::task::Waker;
use std::time::{Duration, Instant};
use vstd::prelude::*;

verus! {

#[verifier::external_type_specification]
#[verifier::external_body]
pub struct ExInstant(Instant);

#[verifier::external_type_specification]
#[verifier::external_body]
pub struct ExWaker(Waker);

#[verifier::external_type_specification]
#[verifier::external_body]
pub struct ExConnection(Connection);

#[verifier::external_type_specification]
#[verifier::external_body]
pub struct ExConnectionEvent(ConnectionEvent);

#[verifier::external_type_specification]
#[verifier::external_body]
pub struct ExConnectionError(ConnectionError);

#[verifier::external_type_specification]
#[verifier::external_body]
pub struct ExEvent(Event);

#[verifier::external_type_specification]
#[verifier::external_body]
pub struct ExStreamEvent(StreamEvent);

#[verifier::external_type_specification]
#[verifier::external_body]
pub struct ExTransmit(Transmit);

#[verifier::external_type_specification]
#[verifier::external_body]
pub struct ExIncoming(Incoming);

#[verifier::external_type_specification]
#[verifier::external_body]
pub struct ExEndpoint(Endpoint);

#[verifier::external_type_specification]
#[verifier::external_body]
pub struct ExClientConfig(ClientConfig);

#[verifier::external_type_specification]
#[verifier::external_body]
pub struct ExServerConfig(ServerConfig);

#[verifier::external_type_specification]
#[verifier::external_body]
pub struct ExTransportConfig(TransportConfig);

/// The first length that a packet with a long header cannot have: its
/// length field has 14 bits.
pub const LONG_HEADER_LIMIT: u16 = 16384;

/// The largest datagram size that a connection can start with.
pub const MAX_INITIAL_MTU: u16 = 16383;

/// The least and the largest UDP payload size that the core can be told to
/// accept.
pub const MIN_UDP_PAYLOAD: u16 = 1200;

pub const MAX_UDP_PAYLOAD: u16 = 65527;

/// The transport parameters of an endpoint, as plain numbers. Sizes are in
/// bytes, times in milliseconds; `None` switches a timer off.
#[derive(Debug, Clone, Copy, PartialEq, Eq, Structural)]
pub struct TransportSettings {
    /// The datagram size that a connection starts with.
    pub initial_mtu: u16,
    /// The datagram size that the path is taken to carry in any case.
    pub min_mtu: u16,
    /// The largest datagram accepted from peers.
    pub max_udp_payload: u16,
    pub stream_receive_window: u32,
    pub receive_window: u32,
    pub max_bidi_streams: u32,
    pub max_uni_streams: u32,
    pub keep_alive_ms: Option<u32>,
    pub idle_timeout_ms: Option<u32>,
    /// Whether congestion is controlled by BBR instead of the core's
    /// default.
    pub bbr: bool,
}

impl TransportSettings {
    /// Settings for bulk transfer over a link without loss: the largest
    /// datagrams that a connection can start with, the smallest minimum
    /// MTU, windows of 10 MiB a stream and 15 MiB a connection, 1024
    /// streams of either direction, a keep-alive every 5 s, an idle
    /// timeout of 30 s, and BBR.
    pub fn bulk() -> (settings: TransportSettings)
        ensures
            settings.usable(),
            settings == (TransportSettings {
                initial_mtu: MAX_INITIAL_MTU,
                min_mtu: MIN_UDP_PAYLOAD,
                max_udp_payload: MAX_UDP_PAYLOAD,
                stream_receive_window: 10485760,
                receive_window: 15728640,
                max_bidi_streams: 1024,
                max_uni_streams: 1024,
                keep_alive_ms: Some(5000u32),
                idle_timeout_ms: Some(30000u32),
                bbr: true,
            }),
    {
        TransportSettings {
            initial_mtu: MAX_INITIAL_MTU,
            min_mtu: MIN_UDP_PAYLOAD,
            max_udp_payload: MAX_UDP_PAYLOAD,
            stream_receive_window: 10485760,
            receive_window: 15728640,
            max_bidi_streams: 1024,
            max_uni_streams: 1024,
            keep_alive_ms: Some(5000),
            idle_timeout_ms: Some(30000),
            bbr: true,
        }
    }

    /// Whether the core can run with these settings. The core asserts
    /// that a packet with a long header is shorter than
    /// `LONG_HEADER_LIMIT`. It fills the packets of a handshake up to the
    /// datagram size that the connection starts with, which is the larger
    /// of the two MTUs, and pads the first ones to the minimum MTU. And it
    /// refuses a payload limit outside its bounds.
    pub open spec fn usable(self) -> bool {
        &&& self.initial_mtu < LONG_HEADER_LIMIT
        &&& self.min_mtu < LONG_HEADER_LIMIT
        &&& MIN_UDP_PAYLOAD <= self.max_udp_payload <= MAX_UDP_PAYLOAD
    }

    /// Whether the core can run with these settings.
    pub fn is_usable(&self) -> (ok: bool)
        ensures
            ok == self.usable(),
    {
        self.initial_mtu < LONG_HEADER_LIMIT && self.min_mtu < LONG_HEADER_LIMIT
            && MIN_UDP_PAYLOAD <= self.max_udp_payload && self.max_udp_payload
            <= MAX_UDP_PAYLOAD
    }
}

/// A datagram that the core wants sent: the core's own record of where to,
/// and how many bytes of the buffer it was written into belong to it.
pub struct TransmitInfo {
    pub size: usize,
    pub raw: Transmit,
}

/// An event of the core, by kind.
pub enum CoreEvent {
    HandshakeDataReady,
    Connected,
    Lost { reason: ConnectionError },
    Stream(StreamEvent),
    DatagramReceived,
    DatagramsUnblocked,
}

/// A stream event of the core. Ids are given by their number.
#[derive(Debug, Clone, Copy, PartialEq, Eq, Structural)]
pub enum StreamNotice {
    Opened { dir: Direction },
    Readable { id: u64 },
    Writable { id: u64 },
    Finished { id: u64 },
    Stopped { id: u64, code: u64 },
    Available { dir: Direction },
}

/// What one attempt to read a chunk from a stream gave.
pub enum ChunkRead {
    /// Bytes, in stream order.
    Data { bytes: Vec<u8> },
    /// The peer finished the stream and all of it has been read.
    Finished,
    /// Nothing to read for now.
    Blocked,
    /// The peer abandoned the stream.
    Reset { code: u64 },
    /// The stream is not open for reading in order: it was never opened,
    /// or is stopped, finished or reset, or was read out of order before.
    Closed,
}

/// One read attempt and whether the core now wants a transmit scheduled
/// (flow-control credit for the peer).
pub struct ReadStep {
    pub got: ChunkRead,
    pub transmit: bool,
}

/// What one attempt to write to a stream gave.
#[derive(Debug, Clone, Copy, PartialEq, Eq, Structural)]
pub enum WriteResult {
    Written { bytes: usize },
    Blocked,
    Stopped { code: u64 },
    Closed,
}

/// What an attempt to finish a stream gave.
#[derive(Debug, Clone, Copy, PartialEq, Eq, Structural)]
pub enum FinishResult {
    Finished,
    Stopped { code: u64 },
    Closed,
}

/// Why the core refused to start a connection.
#[derive(Debug, Clone, Copy, PartialEq, Eq, Structural)]
pub enum ConnectRefusal {
    EndpointStopping,
    CidsExhausted,
    InvalidServerName,
    InvalidRemoteAddress,
    NoDefaultClientConfig,
    UnsupportedVersion,
}

/// Why the core refused an incoming connection, and the datagram it wants
/// sent back, if any.
pub struct AcceptRefusal {
    pub cause: ConnectionError,
    pub response: Option<TransmitInfo>,
}

/// What the core made of one inbound datagram.
pub enum Ingress {
    /// Nothing to do.
    Nothing,
    /// It may start a new connection.
    NewConnection(Incoming),
    /// It belongs to the connection with this handle.
    ConnectionEvent(usize, ConnectionEvent),
    /// The endpoint answers it directly.
    Response(TransmitInfo),
}

/// `Waker::wake`: resumes the task that registered the waker.
pub assume_specification[ Waker::wake ](waker: Waker)
;

/// Whether `deadline` is not after `now`, by `Instant`'s own order. An
/// `Instant` is opaque here, so nothing is said of the answer.
#[verifier::external_body]
pub(crate) fn reached(deadline: &Instant, now: &Instant) -> (due: bool) {
    deadline <= now
}

/// `Connection::handle_event`: feeds the core one event from its endpoint.
/// The core runs the session of the endpoint's configuration on a packet
/// that the event carries, and drops a packet that the session refuses.
pub assume_specification[ Connection::handle_event ](conn: &mut Connection, event: ConnectionEvent)
;

/// `Connection::handle_timeout`: lets the core process its timers.
pub assume_specification[ Connection::handle_timeout ](conn: &mut Connection, now: Instant)
;

/// `Connection::poll_timeout`: when `handle_timeout` should next be called.
pub assume_specification[ Connection::poll_timeout ](conn: &mut Connection) -> (deadline: Option<
    Instant,
>)
;

/// `Connection::poll`: the next application-facing event, if any.
pub assume_specification[ Connection::poll ](conn: &mut Connection) -> (event: Option<Event>)
;

/// `Endpoint::ignore`: forgets an incoming connection attempt without
/// answering it.
pub assume_specification[ Endpoint::ignore ](endpoint: &mut Endpoint, incoming: Incoming)
;

/// Tells the variants of `Event` apart.
#[verifier::external_body]
pub(crate) fn classify(event: Event) -> (kind: CoreEvent) {
    match event {
        Event::HandshakeDataReady => CoreEvent::HandshakeDataReady,
        Event::Connected => CoreEvent::Connected,
        Event::ConnectionLost { reason } => CoreEvent::Lost { reason },
        Event::Stream(s) => CoreEvent::Stream(s),
        Event::DatagramReceived => CoreEvent::DatagramReceived,
        Event::DatagramsUnblocked => CoreEvent::DatagramsUnblocked,
    }
}

/// Tells the variants of `StreamEvent` apart and gives each id as its
/// number (`u64::from`) and each error code as its value.
#[verifier::external_body]
pub(crate) fn classify_stream(event: StreamEvent) -> (kind: StreamNotice) {
    match event {
        StreamEvent::Opened { dir: Dir::Bi } => StreamNotice::Opened { dir: Direction::Bi },
        StreamEvent::Opened { dir: Dir::Uni } => StreamNotice::Opened { dir: Direction::Uni },
        StreamEvent::Readable { id } => StreamNotice::Readable { id: id.into() },
        StreamEvent::Writable { id } => StreamNotice::Writable { id: id.into() },
        StreamEvent::Finished { id } => StreamNotice::Finished { id: id.into() },
        StreamEvent::Stopped { id, error_code } => {
            StreamNotice::Stopped { id: id.into(), code: error_code.into_inner() }
        },
        StreamEvent::Available { dir: Dir::Bi } => StreamNotice::Available { dir: Direction::Bi },
        StreamEvent::Available { dir: Dir::Uni } => StreamNotice::Available { dir: Direction::Uni },
    }
}

/// A connection of the core together with the side it plays, which is fixed
/// when the core creates the connection.
pub struct CoreConn {
    conn: Connection,
    server: bool,
}

impl CoreConn {
    /// Whether this end accepted the connection (the server) or started it.
    pub closed spec fn is_server(&self) -> bool {
        self.server
    }

    /// Records `Connection::side` beside the connection. Every other item
    /// that takes a `CoreConn` relies on this record being the core's own.
    #[verifier::external_body]
    pub(crate) fn wrap(conn: Connection) -> (c: CoreConn) {
        CoreConn { server: conn.side().is_server(), conn }
    }

    /// Whether this end is the server.
    pub fn server(&self) -> (b: bool)
        ensures
            b == self.is_server(),
    {
        self.server
    }

    /// Feeds the core one event from its endpoint.
    pub fn handle_event(&mut self, event: ConnectionEvent)
        ensures
            final(self).is_server() == old(self).is_server(),
    {
        self.conn.handle_event(event);
    }

    /// Lets the core process its timers.
    pub fn handle_timeout(&mut self, now: Instant)
        ensures
            final(self).is_server() == old(self).is_server(),
    {
        self.conn.handle_timeout(now);
    }

    /// When the core next wants its timers processed.
    pub fn poll_timeout(&mut self) -> (deadline: Option<Instant>)
        ensures
            final(self).is_server() == old(self).is_server(),
    {
        self.conn.poll_timeout()
    }

    /// The core's next event, if any.
    pub fn poll(&mut self) -> (event: Option<CoreEvent>)
        ensures
            final(self).is_server() == old(self).is_server(),
    {
        match self.conn.poll() {
            Some(e) => Some(classify(e)),
            None => None,
        }
    }

    /// `Connection::poll_transmit` with one datagram per transmit. The core
    /// writes the datagram into `buf`, which it expects empty, and reports
    /// the buffer's length as the transmit's size. Without a transmit the
    /// buffer may still have been written to.
    ///
    /// The core asserts that a packet with a long header is shorter than
    /// 16 KiB. Every connection here comes from an endpoint that
    /// `core_endpoint` made from a configuration of `transport_config`:
    /// no datagram of it is that long before the handshake is over, and
    /// only the handshake sends long headers.
    #[verifier::external_body]
    pub(crate) fn poll_transmit(&mut self, now: Instant, buf: &mut Vec<u8>) -> (t: Option<TransmitInfo>)
        requires
            old(buf)@.len() == 0,
        ensures
            final(self).is_server() == old(self).is_server(),
            t matches Some(info) ==> info.size == final(buf)@.len(),
    {
        self.conn.poll_transmit(now, 1, buf).map(|raw| TransmitInfo { size: raw.size, raw })
    }

    /// `Streams::open`: a new locally opened stream, or `None` while the
    /// peer's limit for that direction is used up or the connection is
    /// closed. The id is given by its number. The core makes the id with
    /// `StreamId::new` from its own side and the direction asked for, which
    /// puts the side into bit 0 (set: the server) and the direction into
    /// bit 1 (set: unidirectional).
    #[verifier::external_body]
    pub(crate) fn open(&mut self, dir: Direction) -> (id: Option<u64>)
        ensures
            final(self).is_server() == old(self).is_server(),
            id matches Some(raw) ==> (raw & 1 == 1) == old(self).is_server(),
            id matches Some(raw) ==> (raw & 2 == 0) == (dir == Direction::Bi),
    {
        let dir = match dir { Direction::Bi => Dir::Bi, Direction::Uni => Dir::Uni };
        self.conn.streams().open(dir).map(|id| id.into())
    }

    /// `Streams::accept`: the next stream that the peer opened and that was
    /// not handed out before, or `None`. The id is given by its number. The
    /// core makes the id with `StreamId::new` from the side opposite to its
    /// own and the direction asked for, which puts the side into bit 0
    /// (set: the server) and the direction into bit 1 (set:
    /// unidirectional).
    #[verifier::external_body]
    pub(crate) fn accept(&mut self, dir: Direction) -> (id: Option<u64>)
        ensures
            final(self).is_server() == old(self).is_server(),
            id matches Some(raw) ==> (raw & 1 == 1) != old(self).is_server(),
            id matches Some(raw) ==> (raw & 2 == 0) == (dir == Direction::Bi),
    {
        let dir = match dir { Direction::Bi => Dir::Bi, Direction::Uni => Dir::Uni };
        self.conn.streams().accept(dir).map(|id| id.into())
    }

    /// One ordered read of at most `max_len` bytes: `RecvStream::read`,
    /// `Chunks::next` and `Chunks::finalize`, which borrow from one another
    /// and so stand in one item. `Connection::recv_stream` panics on a
    /// stream that this side cannot read, which `requires` leaves out. A
    /// chunk is never longer than `max_len`.
    #[verifier::external_body]
    pub(crate) fn read_chunk(&mut self, id: StreamId, max_len: usize) -> (step: ReadStep)
        requires
            id.readable_by(old(self).is_server()),
        ensures
            final(self).is_server() == old(self).is_server(),
            step.got matches ChunkRead::Data { bytes } ==> bytes@.len() <= max_len,
    {
        let mut stream = self.conn.recv_stream(VarInt::from_u64(id.raw()).unwrap().into());
        let Ok(mut chunks) = stream.read(true) else {
            return ReadStep { got: ChunkRead::Closed, transmit: false };
        };
        let got = match chunks.next(max_len) {
            Ok(Some(chunk)) => ChunkRead::Data { bytes: chunk.bytes.into() },
            Ok(None) => ChunkRead::Finished,
            Err(ReadError::Blocked) => ChunkRead::Blocked,
            Err(ReadError::Reset(code)) => ChunkRead::Reset { code: code.into_inner() },
        };
        ReadStep { got, transmit: chunks.finalize().should_transmit() }
    }

    /// `RecvStream::stop`: discards unread data and asks the peer to stop
    /// sending. Tells whether the stream was still open for reading.
    #[verifier::external_body]
    pub(crate) fn stop(&mut self, id: StreamId, code: u32) -> (stopped: bool)
        requires
            id.readable_by(old(self).is_server()),
        ensures
            final(self).is_server() == old(self).is_server(),
    {
        let sid = VarInt::from_u64(id.raw()).unwrap().into();
        self.conn.recv_stream(sid).stop(VarInt::from_u32(code)).is_ok()
    }

    /// `SendStream::write`: hands the core a prefix of `data`. The core
    /// never takes more than it was given. `Connection::send_stream` panics
    /// on a stream that this side cannot write, which `requires` leaves out.
    #[verifier::external_body]
    pub(crate) fn write(&mut self, id: StreamId, data: &[u8]) -> (r: WriteResult)
        requires
            id.writable_by(old(self).is_server()),
        ensures
            final(self).is_server() == old(self).is_server(),
            r matches WriteResult::Written { bytes } ==> bytes <= data@.len(),
    {
        let sid = VarInt::from_u64(id.raw()).unwrap().into();
        match self.conn.send_stream(sid).write(data) {
            Ok(bytes) => WriteResult::Written { bytes },
            Err(WriteError::Blocked) => WriteResult::Blocked,
            Err(WriteError::Stopped(code)) => WriteResult::Stopped { code: code.into_inner() },
            Err(WriteError::ClosedStream) => WriteResult::Closed,
        }
    }

    /// `SendStream::finish`: no more data will be sent on the stream.
    #[verifier::external_body]
    pub(crate) fn finish(&mut self, id: StreamId) -> (r: FinishResult)
        requires
            id.writable_by(old(self).is_server()),
        ensures
            final(self).is_server() == old(self).is_server(),
    {
        let sid = VarInt::from_u64(id.raw()).unwrap().into();
        match self.conn.send_stream(sid).finish() {
            Ok(()) => FinishResult::Finished,
            Err(FinishError::Stopped(code)) => FinishResult::Stopped { code: code.into_inner() },
            Err(FinishError::ClosedStream) => FinishResult::Closed,
        }
    }

    /// `SendStream::reset`: abandons sending on the stream. Tells whether
    /// the stream was still open for writing.
    #[verifier::external_body]
    pub(crate) fn reset(&mut self, id: StreamId, code: u32) -> (was_open: bool)
        requires
            id.writable_by(old(self).is_server()),
        ensures
            final(self).is_server() == old(self).is_server(),
    {
        let sid = VarInt::from_u64(id.raw()).unwrap().into();
        self.conn.send_stream(sid).reset(VarInt::from_u32(code)).is_ok()
    }

    /// `Connection::close`: closes the connection at once, with an
    /// application error code and a reason for the peer.
    #[verifier::external_body]
    pub(crate) fn close(&mut self, now: Instant, code: u32, reason: &[u8])
        ensures
            final(self).is_server() == old(self).is_server(),
    {
        self.conn.close(now, VarInt::from_u32(code), bytes::Bytes::copy_from_slice(reason));
    }
}

/// `TransportConfig::default` with the setters for the settings' numbers.
/// The setters store what they are given; the two MTU setters raise a
/// value below 1200 to 1200. Both MTUs have to stay below the length that
/// a long header can encode, or a `poll_transmit` during the handshake
/// panics.
#[verifier::external_body]
pub(crate) fn transport_config(settings: TransportSettings) -> (config: TransportConfig)
    requires
        settings.initial_mtu < LONG_HEADER_LIMIT,
        settings.min_mtu < LONG_HEADER_LIMIT,
{
    let mut config = TransportConfig::default();
    config
        .initial_mtu(settings.initial_mtu)
        .min_mtu(settings.min_mtu)
        .stream_receive_window(VarInt::from_u32(settings.stream_receive_window))
        .receive_window(VarInt::from_u32(settings.receive_window))
        .max_concurrent_bidi_streams(VarInt::from_u32(settings.max_bidi_streams))
        .max_concurrent_uni_streams(VarInt::from_u32(settings.max_uni_streams))
        .keep_alive_interval(settings.keep_alive_ms.map(|ms| Duration::from_millis(ms.into())))
        .max_idle_timeout(settings.idle_timeout_ms.map(|ms| VarInt::from_u32(ms).into()));
    config
}

/// `TransportConfig::congestion_controller_factory` with
/// `BbrConfig::default`.
#[verifier::external_body]
pub(crate) fn with_bbr(config: TransportConfig) -> (with: TransportConfig) {
    let mut config = config;
    config.congestion_controller_factory(Arc::new(BbrConfig::default()));
    config
}

/// `Endpoint::new` over the caller's configurations, after
/// `ServerConfig::transport_config` and `ClientConfig::transport_config`
/// have put the given transport configuration into both, and with
/// `EndpointConfig::default` but for the payload limit; path MTU discovery
/// is off. Without a server configuration the endpoint accepts nobody.
/// `EndpointConfig::max_udp_payload_size` refuses a limit outside its
/// bounds, which `requires` leaves out.
///
/// The configurations bring the cryptographic session that the core runs
/// on the peers' bytes in `Endpoint::accept` and
/// `Connection::handle_event`. The session is the caller's: the core hands
/// its errors on, and it is for the session to answer malformed bytes with
/// an error.
#[verifier::external_body]
pub(crate) fn core_endpoint(
    config: TransportConfig,
    max_udp_payload: u16,
    server: Option<ServerConfig>,
    client: ClientConfig,
) -> (made: (Endpoint, ClientConfig))
    requires
        MIN_UDP_PAYLOAD <= max_udp_payload <= MAX_UDP_PAYLOAD,
{
    let transport = Arc::new(config);
    let server = match server {
        Some(mut server) => {
            server.transport_config(transport.clone());
            Some(Arc::new(server))
        },
        None => None,
    };
    let mut client = client;
    client.transport_config(transport);
    let mut endpoint = quinn_proto::EndpointConfig::default();
    endpoint.max_udp_payload_size(max_udp_payload).unwrap();
    (Endpoint::new(Arc::new(endpoint), server, false, None), client)
}

/// `Endpoint::handle` without a local address or congestion mark: what the
/// core makes of one inbound datagram from `peer`. It writes a response, if
/// it has one, into `buf`, which it expects empty, and reports the buffer's
/// length as the response's size.
#[verifier::external_body]
pub(crate) fn handle_datagram(
    endpoint: &mut Endpoint,
    now: Instant,
    peer: PeerAddr,
    payload: BytesMut,
    buf: &mut Vec<u8>,
) -> (made: Ingress)
    requires
        old(buf)@.len() == 0,
    ensures
        made matches Ingress::Response(info) ==> info.size == final(buf)@.len(),
{
    let remote = match peer {
        PeerAddr::V4 { v4, port } => (v4.to_be_bytes(), port).into(),
        PeerAddr::V6 { v6, port } => (v6.to_be_bytes(), port).into(),
    };
    match endpoint.handle(now, remote, None, None, payload, buf) {
        None => Ingress::Nothing,
        Some(DatagramEvent::NewConnection(incoming)) => Ingress::NewConnection(incoming),
        Some(DatagramEvent::ConnectionEvent(handle, event)) => Ingress::ConnectionEvent(handle.0, event),
        Some(DatagramEvent::Response(raw)) => Ingress::Response(TransmitInfo { size: raw.size, raw }),
    }
}

/// `Endpoint::accept` with the endpoint's own server configuration, whose
/// session the core runs on the first packet; an error of the session is
/// a refusal. On refusal the core may write a datagram for the peer into
/// `buf`, which it expects empty, and reports the buffer's length as its
/// size. `incoming` must come from this endpoint.
#[verifier::external_body]
pub(crate) fn accept_incoming(
    endpoint: &mut Endpoint,
    incoming: Incoming,
    now: Instant,
    buf: &mut Vec<u8>,
) -> (r: Result<(usize, Connection), AcceptRefusal>)
    requires
        old(buf)@.len() == 0,
    ensures
        r matches Err(refusal) ==> (refusal.response matches Some(info) ==> info.size
            == final(buf)@.len()),
{
    match endpoint.accept(incoming, now, buf, None) {
        Ok((handle, conn)) => Ok((handle.0, conn)),
        Err(e) => Err(AcceptRefusal {
            cause: e.cause,
            response: e.response.map(|raw| TransmitInfo { size: raw.size, raw }),
        }),
    }
}

/// `Endpoint::connect`: starts a connection to `peer`.
#[verifier::external_body]
pub(crate) fn connect_to(
    endpoint: &mut Endpoint,
    now: Instant,
    config: ClientConfig,
    peer: PeerAddr,
    server_name: &str,
) -> (r: Result<(usize, Connection), ConnectRefusal>) {
    let remote = match peer {
        PeerAddr::V4 { v4, port } => (v4.to_be_bytes(), port).into(),
        PeerAddr::V6 { v6, port } => (v6.to_be_bytes(), port).into(),
    };
    match endpoint.connect(now, config, remote, server_name) {
        Ok((handle, conn)) => Ok((handle.0, conn)),
        Err(ConnectError::EndpointStopping) => Err(ConnectRefusal::EndpointStopping),
        Err(ConnectError::CidsExhausted) => Err(ConnectRefusal::CidsExhausted),
        Err(ConnectError::InvalidServerName(_)) => Err(ConnectRefusal::InvalidServerName),
        Err(ConnectError::InvalidRemoteAddress(_)) => Err(ConnectRefusal::InvalidRemoteAddress),
        Err(ConnectError::NoDefaultClientConfig) => Err(ConnectRefusal::NoDefaultClientConfig),
        Err(ConnectError::UnsupportedVersion) => Err(ConnectRefusal::UnsupportedVersion),
    }
}

/// `ClientConfig::clone`: another handle on the same configuration.
pub assume_specification[ <ClientConfig as Clone>::clone ](config: &ClientConfig) -> (copy:
    ClientConfig)
;

} // verus!
