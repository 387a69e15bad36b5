use bytes::BytesMut;
use quic_driver::conn::{ConnState, OpenRefused};
use quic_driver::control::ControlBlock;
use quic_driver::endpoint::{Answer, Connected, Delivery, EndpointError, QuicEndpoint};
use quic_driver::ids::{Direction, PeerAddr, StreamId};
use quic_driver::margins::BufMargins;
use quic_driver::packet::QuicPacket;
use quic_driver::pool::unframe;
use quic_driver::protocol::{CoreEvent, TransmitInfo, TransportSettings};
use quic_driver::runner::{Next, Runner, RunnerError, SendAction, SendEvent, SendStep, Sink};
use quic_driver::stream::{QuicStream, ReadOutcome, ShutdownOutcome, StreamPhase, WriteOutcome};
use quinn_plaintext::{PlaintextClientConfig, PlaintextServerConfig};
use quinn_proto::crypto::{
    self, CryptoError, ExportKeyingMaterialError, HeaderKey, KeyPair, Keys, PacketKey, Session,
    UnsupportedVersion,
};
use quinn_proto::transport_parameters::TransportParameters;
use quinn_proto::{ClientConfig, ConnectError, ConnectionId, ServerConfig, Side, TransportError};
use std::any::Any;
use std::sync::atomic::{AtomicUsize, Ordering};
use std::sync::Arc;
use std::task::{Wake, Waker};
use std::time::{Duration, Instant};

const CLIENT: PeerAddr = PeerAddr::V4 { v4: 0x7f00_0001, port: 10000 };
const SERVER: PeerAddr = PeerAddr::V4 { v4: 0x7f00_0001, port: 4433 };

/// A packet key that answers a payload too short to hold its tag with an
/// error, and leaves everything else to the key it wraps.
struct CheckedKey(Box<dyn PacketKey>);

impl PacketKey for CheckedKey {
    fn encrypt(&self, packet: u64, buf: &mut [u8], header_len: usize) {
        self.0.encrypt(packet, buf, header_len)
    }

    fn decrypt(&self, packet: u64, header: &[u8], payload: &mut BytesMut) -> Result<(), CryptoError> {
        if payload.len() < self.0.tag_len() {
            return Err(CryptoError);
        }
        self.0.decrypt(packet, header, payload)
    }

    fn tag_len(&self) -> usize {
        self.0.tag_len()
    }

    fn confidentiality_limit(&self) -> u64 {
        self.0.confidentiality_limit()
    }

    fn integrity_limit(&self) -> u64 {
        self.0.integrity_limit()
    }
}

fn checked_pair(pair: KeyPair<Box<dyn PacketKey>>) -> KeyPair<Box<dyn PacketKey>> {
    KeyPair { local: Box::new(CheckedKey(pair.local)), remote: Box::new(CheckedKey(pair.remote)) }
}

fn checked_keys(keys: Keys) -> Keys {
    Keys { header: keys.header, packet: checked_pair(keys.packet) }
}

/// A session that answers transport parameters it cannot parse with an
/// error, hands out checked keys, and leaves everything else to the
/// session it wraps.
struct CheckedSession {
    inner: Box<dyn Session>,
    side: Side,
}

impl Session for CheckedSession {
    fn initial_keys(&self, dst_cid: &ConnectionId, side: Side) -> Keys {
        checked_keys(self.inner.initial_keys(dst_cid, side))
    }

    fn handshake_data(&self) -> Option<Box<dyn Any>> {
        self.inner.handshake_data()
    }

    fn peer_identity(&self) -> Option<Box<dyn Any>> {
        self.inner.peer_identity()
    }

    fn early_crypto(&self) -> Option<(Box<dyn HeaderKey>, Box<dyn PacketKey>)> {
        let (header, packet) = self.inner.early_crypto()?;
        Some((header, Box::new(CheckedKey(packet))))
    }

    fn early_data_accepted(&self) -> Option<bool> {
        self.inner.early_data_accepted()
    }

    fn is_handshaking(&self) -> bool {
        self.inner.is_handshaking()
    }

    fn read_handshake(&mut self, buf: &[u8]) -> Result<bool, TransportError> {
        if self.inner.transport_parameters()?.is_none() {
            let mut unread = buf;
            TransportParameters::read(self.side, &mut unread).map_err(TransportError::from)?;
        }
        self.inner.read_handshake(buf)
    }

    fn transport_parameters(&self) -> Result<Option<TransportParameters>, TransportError> {
        self.inner.transport_parameters()
    }

    fn write_handshake(&mut self, buf: &mut Vec<u8>) -> Option<Keys> {
        self.inner.write_handshake(buf).map(checked_keys)
    }

    fn next_1rtt_keys(&mut self) -> Option<KeyPair<Box<dyn PacketKey>>> {
        self.inner.next_1rtt_keys().map(checked_pair)
    }

    fn is_valid_retry(&self, orig_dst_cid: &ConnectionId, header: &[u8], payload: &[u8]) -> bool {
        self.inner.is_valid_retry(orig_dst_cid, header, payload)
    }

    fn export_keying_material(
        &self,
        output: &mut [u8],
        label: &[u8],
        context: &[u8],
    ) -> Result<(), ExportKeyingMaterialError> {
        self.inner.export_keying_material(output, label, context)
    }
}

struct CheckedServer(Arc<PlaintextServerConfig>);

impl crypto::ServerConfig for CheckedServer {
    fn initial_keys(&self, version: u32, dst_cid: &ConnectionId) -> Result<Keys, UnsupportedVersion> {
        self.0.initial_keys(version, dst_cid).map(checked_keys)
    }

    fn retry_tag(&self, version: u32, orig_dst_cid: &ConnectionId, packet: &[u8]) -> [u8; 16] {
        self.0.retry_tag(version, orig_dst_cid, packet)
    }

    fn start_session(self: Arc<Self>, version: u32, params: &TransportParameters) -> Box<dyn Session> {
        let inner = self.0.clone().start_session(version, params);
        Box::new(CheckedSession { inner, side: Side::Server })
    }
}

struct CheckedClient(Arc<PlaintextClientConfig>);

impl crypto::ClientConfig for CheckedClient {
    fn start_session(
        self: Arc<Self>,
        version: u32,
        server_name: &str,
        params: &TransportParameters,
    ) -> Result<Box<dyn Session>, ConnectError> {
        let inner = self.0.clone().start_session(version, server_name, params)?;
        Ok(Box::new(CheckedSession { inner, side: Side::Client }))
    }
}

/// A server configuration without encryption, whose session answers
/// malformed bytes with an error.
fn server_config() -> ServerConfig {
    ServerConfig::with_crypto(Arc::new(CheckedServer(Arc::new(PlaintextServerConfig::new()))))
}

/// A client configuration without encryption, whose session answers
/// malformed bytes with an error.
fn client_config() -> ClientConfig {
    ClientConfig::new(Arc::new(CheckedClient(Arc::new(PlaintextClientConfig::new()))))
}

struct Counter(AtomicUsize);

impl Wake for Counter {
    fn wake(self: Arc<Self>) {
        self.0.fetch_add(1, Ordering::SeqCst);
    }
}

fn counting_waker() -> (Arc<Counter>, Waker) {
    let counter = Arc::new(Counter(AtomicUsize::new(0)));
    (counter.clone(), Waker::from(counter))
}

fn idle_waker() -> Waker {
    counting_waker().1
}

struct Conn {
    handle: usize,
    state: ConnState,
    ctrl: ControlBlock<u32>,
    runner: Runner,
    accepted: Vec<QuicStream>,
    opened: Vec<(u32, Result<StreamId, OpenRefused>)>,
    lost: bool,
}

struct Node {
    addr: PeerAddr,
    margins: BufMargins,
    accepting: bool,
    endpoint: QuicEndpoint<usize>,
    conns: Vec<Conn>,
    outbox: Vec<QuicPacket>,
    errors: Vec<String>,
}

/// The settings of a core left at its defaults, but for the payload limit.
fn modest() -> TransportSettings {
    TransportSettings {
        initial_mtu: 1200,
        min_mtu: 1200,
        max_udp_payload: 65527,
        stream_receive_window: 1_250_000,
        receive_window: u32::MAX,
        max_bidi_streams: 100,
        max_uni_streams: 100,
        keep_alive_ms: None,
        idle_timeout_ms: Some(30_000),
        bbr: false,
    }
}

fn node(addr: PeerAddr, _server: bool, margins: BufMargins) -> Node {
    node_with(addr, modest(), margins)
}

fn node_with(addr: PeerAddr, settings: TransportSettings, margins: BufMargins) -> Node {
    Node {
        addr,
        margins,
        accepting: true,
        endpoint: QuicEndpoint::with_endpoint(
            Some(server_config()),
            client_config(),
            margins,
            settings,
        )
        .ok()
        .unwrap(),
        conns: Vec::new(),
        outbox: Vec::new(),
        errors: Vec::new(),
    }
}

/// Settings for bulk transfer over a relay without loss, with no timer
/// that the tests would have to serve.
fn bulk_transport() -> TransportSettings {
    TransportSettings { keep_alive_ms: None, ..TransportSettings::bulk() }
}

/// Like `settle`, but lets time pass: when both nodes are at rest, the
/// clock jumps to the next deadline of a runner, if one comes within
/// `patience`, so that pacing and other short timers of the core run.
fn settle_in_time(a: &mut Node, b: &mut Node, clock: &mut Instant, patience: Duration) {
    let limit = *clock + patience;
    loop {
        settle(a, b, *clock);
        let next = a
            .conns
            .iter()
            .chain(b.conns.iter())
            .filter(|conn| !conn.lost)
            .filter_map(|conn| conn.runner.deadline)
            .min();
        match next {
            Some(deadline) if deadline <= limit => {
                *clock = Instant::max(*clock, deadline);
                for conn in a.conns.iter_mut().chain(b.conns.iter_mut()) {
                    if !conn.lost {
                        let _ = conn.runner.after_pass(false, *clock);
                    }
                }
            }
            _ => return,
        }
    }
}

fn bulk_pair() -> (Node, Node, usize, Instant) {
    let now = Instant::now();
    let margins = BufMargins { header: 0, trailer: 0 };
    let mut client = node_with(CLIENT, bulk_transport(), margins);
    let mut server = node_with(SERVER, bulk_transport(), margins);
    let slot = client.connect(SERVER, now);
    let mut clock = now;
    settle_in_time(&mut client, &mut server, &mut clock, Duration::from_millis(100));
    (client, server, slot, clock)
}

/// Sends `total` zero bytes in chunks of `chunk` bytes and shuts down; the
/// other side counts what it reads up to the end of the stream.
fn stream_zeros(
    writer: &mut Node,
    slot: usize,
    reader: &mut Node,
    stream: &mut QuicStream,
    total: usize,
    chunk: usize,
    now: Instant,
) -> usize {
    let zeros = vec![0u8; chunk];
    let mut accepted: Option<QuicStream> = None;
    let mut sent = 0;
    let mut received = 0;
    let mut finished = false;
    let mut out = Vec::with_capacity(chunk);
    let mut clock = now;
    for _ in 0..100_000_000u64 {
        while sent < total {
            let len = usize::min(chunk, total - sent);
            let poll = stream.poll_write(&mut writer.conns[slot].state, &zeros[..len], idle_waker());
            match poll.outcome {
                WriteOutcome::Ready { bytes } => sent += bytes,
                WriteOutcome::Pending => break,
                other => panic!("write failed: {other:?}"),
            }
        }
        if sent == total && !finished {
            let poll = stream.poll_shutdown(&mut writer.conns[slot].state);
            assert_eq!(poll.outcome, ShutdownOutcome::Ready);
            finished = true;
        }
        settle_in_time(writer, reader, &mut clock, Duration::from_millis(100));
        if accepted.is_none() {
            accepted = reader.conns[0].accepted.pop();
        }
        if let Some(incoming) = accepted.as_mut() {
            loop {
                out.clear();
                let poll = incoming.poll_read(&mut reader.conns[0].state, &mut out, chunk, idle_waker());
                match poll.outcome {
                    ReadOutcome::Ready { bytes: 0 } => return received,
                    ReadOutcome::Ready { bytes } => {
                        assert_eq!(out.len(), bytes);
                        assert_eq!((out[0], out[bytes / 2], out[bytes - 1]), (0, 0, 0));
                        received += bytes;
                    }
                    ReadOutcome::Pending => break,
                    other => panic!("read failed: {other:?}"),
                }
            }
        }
    }
    panic!("the transfer never finished");
}

impl Node {
    fn establish(&mut self, handle: usize, peer: PeerAddr, state: ConnState) {
        let slot = self.conns.len();
        self.conns.push(Conn {
            handle,
            state,
            ctrl: ControlBlock::new(),
            runner: Runner::new(self.margins),
            accepted: Vec::new(),
            opened: Vec::new(),
            lost: false,
        });
        self.endpoint.register(handle, peer, slot);
    }

    fn connect(&mut self, peer: PeerAddr, now: Instant) -> usize {
        match self.endpoint.connect(peer, now) {
            Ok(Connected::Existing { handle }) => *self.endpoint.ctrl(handle).unwrap(),
            Ok(Connected::New { handle, state }) => {
                self.establish(handle, peer, state);
                self.conns.len() - 1
            }
            Err(_) => panic!("connect refused"),
        }
    }

    fn ingest(&mut self, from: PeerAddr, payload: BytesMut, now: Instant) {
        match self.endpoint.send(from, payload, now, self.accepting) {
            Ok(Delivery::Nothing) | Ok(Delivery::Dropped) => {}
            Ok(Delivery::Established { handle, state }) => self.establish(handle, from, state),
            Ok(Delivery::Event { handle, event }) => {
                let slot = *self.endpoint.ctrl(handle).unwrap();
                assert!(self.conns[slot].ctrl.send_event(event).is_ok());
            }
            Ok(Delivery::Response { packet }) => self.outbox.push(packet),
            Err(EndpointError::UnknownConnection { handle }) => {
                self.errors.push(format!("unknown connection {handle}"))
            }
            Err(EndpointError::AcceptRefused { response, .. }) => {
                self.errors.push("accept refused".to_string());
                if let Some(packet) = response {
                    self.outbox.push(packet);
                }
            }
            Err(EndpointError::ConnectError { .. }) => unreachable!(),
        }
    }

    /// One pass of every runner; tells whether anything was done.
    fn pass(&mut self, now: Instant) -> bool {
        let mut worked = false;
        for conn in self.conns.iter_mut() {
            if conn.lost {
                continue;
            }
            match conn.runner.advance(&mut conn.ctrl, &mut conn.state, now) {
                Ok(pass) => {
                    worked |= pass.worked;
                    for reply in pass.replies {
                        conn.opened.push((reply.reply, reply.result));
                    }
                }
                Err(RunnerError::ConnectionReset { .. }) => {
                    // The runner has ended the connection and woken everybody.
                    assert!(conn.state.closed);
                    assert!(conn.state.readers.is_empty() && conn.state.writers.is_empty());
                    assert!(conn.runner.pending_wakers.is_empty());
                    assert!(conn.runner.pending_streams.is_empty());
                    conn.lost = true;
                    self.endpoint.remove(conn.handle);
                    worked = true;
                    continue;
                }
                Err(RunnerError::BrokenPipe { .. }) => unreachable!(),
            }
            conn.runner.wake_deferred();
            loop {
                match conn.runner.send_action(self.accepting) {
                    SendAction::Idle => break,
                    SendAction::Packet | SendAction::Both => {
                        self.outbox.push(conn.runner.next_packet().unwrap());
                    }
                    SendAction::Stream => {
                        conn.accepted.push(conn.runner.next_stream().unwrap());
                    }
                }
                worked = true;
            }
        }
        worked
    }
}

/// Takes the margins off a datagram, as the outer transport would.
fn unwrap_margins(packet: QuicPacket, margins: BufMargins) -> BytesMut {
    let payload = packet.payload;
    assert_eq!(payload.len(), margins.header + packet.transmit.size + margins.trailer);
    assert!(payload[..margins.header].iter().all(|b| *b == 0));
    assert!(payload[payload.len() - margins.trailer..].iter().all(|b| *b == 0));
    unframe(payload, margins).unwrap()
}

/// Runs both nodes and relays their datagrams until neither has anything
/// left to do.
fn settle(a: &mut Node, b: &mut Node, now: Instant) {
    for _ in 0..10_000 {
        let mut worked = a.pass(now);
        worked |= b.pass(now);
        for packet in std::mem::take(&mut a.outbox) {
            b.ingest(a.addr, unwrap_margins(packet, a.margins), now);
            worked = true;
        }
        for packet in std::mem::take(&mut b.outbox) {
            a.ingest(b.addr, unwrap_margins(packet, b.margins), now);
            worked = true;
        }
        if !worked {
            return;
        }
    }
    panic!("the two nodes never came to rest");
}

fn pair(margins: BufMargins) -> (Node, Node, usize, Instant) {
    let now = Instant::now();
    let mut client = node(CLIENT, false, margins);
    let mut server = node(SERVER, true, margins);
    let slot = client.connect(SERVER, now);
    settle(&mut client, &mut server, now);
    (client, server, slot, now)
}

fn open_bi(node: &mut Node, slot: usize, other: &mut Node, now: Instant) -> QuicStream {
    let ticket = node.conns[slot].opened.len() as u32 + 100;
    node.conns[slot].ctrl.open(Direction::Bi, ticket);
    assert!(node.conns[slot].ctrl.has_input());
    settle(node, other, now);
    let (got, result) = node.conns[slot].opened.pop().unwrap();
    assert_eq!(got, ticket);
    QuicStream::new(result.unwrap())
}

fn read_all(stream: &mut QuicStream, conn: &mut Conn, capacity: usize) -> (Vec<u8>, ReadOutcome) {
    let mut out = Vec::new();
    loop {
        let before = out.len();
        let poll = stream.poll_read(&mut conn.state, &mut out, capacity, idle_waker());
        match poll.outcome {
            ReadOutcome::Ready { bytes } if bytes > 0 => {
                assert!(bytes <= capacity);
                assert_eq!(out.len(), before + bytes);
            }
            other => {
                assert_eq!(out.len(), before);
                return (out, other);
            }
        }
    }
}

#[test]
fn handshake_registers_the_connection_on_both_sides() {
    let (client, server, slot, _) = pair(BufMargins { header: 0, trailer: 0 });
    assert_eq!(slot, 0);
    assert_eq!(client.conns.len(), 1);
    assert_eq!(server.conns.len(), 1);
    assert!(client.errors.is_empty() && server.errors.is_empty());
    assert_eq!(client.endpoint.handle_of(SERVER), Some(client.conns[0].handle));
    assert_eq!(server.endpoint.handle_of(CLIENT), Some(server.conns[0].handle));
    assert!(client.endpoint.ctrl(client.conns[0].handle).is_some());
    assert!(!client.conns[0].state.core.server());
    assert!(server.conns[0].state.core.server());
}

#[test]
fn connect_reuses_the_live_connection_to_a_peer() {
    let (mut client, _server, slot, now) = pair(BufMargins { header: 0, trailer: 0 });
    let again = client.connect(SERVER, now);
    assert_eq!(again, slot);
    assert_eq!(client.conns.len(), 1);
}

#[test]
fn written_bytes_are_read_back_in_order() {
    let (mut client, mut server, slot, now) = pair(BufMargins { header: 0, trailer: 0 });
    let stream = open_bi(&mut client, slot, &mut server, now);
    let data: Vec<u8> = (0..5000u32).map(|i| (i % 251) as u8).collect();
    let mut sent = 0;
    while sent < data.len() {
        let poll = stream.poll_write(&mut client.conns[slot].state, &data[sent..], idle_waker());
        match poll.outcome {
            WriteOutcome::Ready { bytes } => {
                assert!(bytes > 0 && poll.notify);
                sent += bytes;
            }
            WriteOutcome::Pending => settle(&mut client, &mut server, now),
            WriteOutcome::BrokenPipe => panic!("broken pipe"),
            WriteOutcome::ConnectionLost => panic!("connection lost"),
        }
    }
    settle(&mut client, &mut server, now);
    assert_eq!(server.conns[0].accepted.len(), 1);
    let mut accepted = server.conns[0].accepted.pop().unwrap();
    assert_eq!(accepted.id().raw(), stream.id().raw());
    let (got, last) = read_all(&mut accepted, &mut server.conns[0], 1024);
    assert_eq!(got, data);
    assert_eq!(last, ReadOutcome::Pending);
}

#[test]
fn datagrams_carry_the_configured_margins() {
    let margins = BufMargins { header: 3, trailer: 5 };
    let now = Instant::now();
    let mut client = node(CLIENT, false, margins);
    let mut server = node(SERVER, true, margins);
    let slot = client.connect(SERVER, now);
    assert!(client.pass(now));
    assert!(!client.outbox.is_empty());
    for packet in client.outbox.iter() {
        let size = packet.transmit.size;
        assert_eq!(packet.payload.len(), 3 + size + 5);
        assert_eq!(&packet.payload[..3], &[0, 0, 0]);
        assert_eq!(&packet.payload[3 + size..], &[0, 0, 0, 0, 0]);
        assert_eq!(packet.transmit.destination.port(), 4433);
    }
    settle(&mut client, &mut server, now);
    let stream = open_bi(&mut client, slot, &mut server, now);
    let poll = stream.poll_write(&mut client.conns[slot].state, b"margins", idle_waker());
    assert_eq!(poll.outcome, WriteOutcome::Ready { bytes: 7 });
    settle(&mut client, &mut server, now);
    let mut accepted = server.conns[0].accepted.pop().unwrap();
    let (got, _) = read_all(&mut accepted, &mut server.conns[0], 64);
    assert_eq!(got, b"margins");
}

#[test]
fn shutdown_without_bytes_delivers_end_of_stream() {
    let (mut client, mut server, slot, now) = pair(BufMargins { header: 0, trailer: 0 });
    let mut stream = open_bi(&mut client, slot, &mut server, now);
    assert!(client.conns[slot].state.established);
    assert_eq!(stream.phase(true), StreamPhase::Established);
    assert_eq!(stream.phase(false), StreamPhase::Opening);
    let poll = stream.poll_shutdown(&mut client.conns[slot].state);
    assert_eq!(poll.outcome, ShutdownOutcome::Ready);
    assert!(poll.notify);
    assert_eq!(stream.phase(true), StreamPhase::HalfClosedSend);
    let again = stream.poll_shutdown(&mut client.conns[slot].state);
    assert_eq!(again.outcome, ShutdownOutcome::Ready);
    assert!(!again.notify);
    settle(&mut client, &mut server, now);
    let mut accepted = server.conns[0].accepted.pop().unwrap();
    let mut out = Vec::new();
    let poll = accepted.poll_read(&mut server.conns[0].state, &mut out, 16, idle_waker());
    assert_eq!(poll.outcome, ReadOutcome::Ready { bytes: 0 });
    assert!(out.is_empty());
    assert_eq!(accepted.phase(true), StreamPhase::HalfClosedRecv);
    let poll = accepted.poll_read(&mut server.conns[0].state, &mut out, 16, idle_waker());
    assert_eq!(poll.outcome, ReadOutcome::Ready { bytes: 0 });
    assert!(!poll.notify);
    let poll = accepted.poll_shutdown(&mut server.conns[0].state);
    assert_eq!(poll.outcome, ShutdownOutcome::Ready);
    assert_eq!(accepted.phase(true), StreamPhase::Closed);
}

#[test]
fn zero_byte_write_is_accepted_and_produces_no_transmit() {
    let (mut client, mut server, slot, now) = pair(BufMargins { header: 0, trailer: 0 });
    let stream = open_bi(&mut client, slot, &mut server, now);
    settle(&mut client, &mut server, now);
    let poll = stream.poll_write(&mut client.conns[slot].state, &[], idle_waker());
    assert_eq!(poll.outcome, WriteOutcome::Ready { bytes: 0 });
    assert!(!poll.notify);
    assert!(!client.pass(now));
    assert!(client.outbox.is_empty());
    assert!(client.conns[slot].state.writers.is_empty());
}

#[test]
fn read_into_a_buffer_without_room_returns_at_once() {
    let (mut client, mut server, slot, now) = pair(BufMargins { header: 0, trailer: 0 });
    let mut stream = open_bi(&mut client, slot, &mut server, now);
    let (count, waker) = counting_waker();
    let mut out = vec![7u8];
    let poll = stream.poll_read(&mut client.conns[slot].state, &mut out, 0, waker);
    assert_eq!(poll.outcome, ReadOutcome::Ready { bytes: 0 });
    assert!(!poll.notify);
    assert_eq!(out, vec![7u8]);
    assert!(client.conns[slot].state.readers.is_empty());
    assert_eq!(count.0.load(Ordering::SeqCst), 0);
}

#[test]
fn blocked_read_parks_one_waker_and_data_wakes_it() {
    let (mut client, mut server, slot, now) = pair(BufMargins { header: 0, trailer: 0 });
    let stream = open_bi(&mut client, slot, &mut server, now);
    let poll = stream.poll_write(&mut client.conns[slot].state, b"a", idle_waker());
    assert_eq!(poll.outcome, WriteOutcome::Ready { bytes: 1 });
    settle(&mut client, &mut server, now);
    let mut accepted = server.conns[0].accepted.pop().unwrap();
    let (got, last) = read_all(&mut accepted, &mut server.conns[0], 8);
    assert_eq!(got, b"a");
    assert_eq!(last, ReadOutcome::Pending);

    let (first, first_waker) = counting_waker();
    let (second, second_waker) = counting_waker();
    let mut out = Vec::new();
    let id = accepted.id().raw();
    let poll = accepted.poll_read(&mut server.conns[0].state, &mut out, 8, first_waker);
    assert_eq!(poll.outcome, ReadOutcome::Pending);
    let poll = accepted.poll_read(&mut server.conns[0].state, &mut out, 8, second_waker);
    assert_eq!(poll.outcome, ReadOutcome::Pending);
    assert_eq!(server.conns[0].state.readers.len(), 1);
    assert!(server.conns[0].state.readers.contains_key(&id));

    let poll = stream.poll_write(&mut client.conns[slot].state, b"bc", idle_waker());
    assert_eq!(poll.outcome, WriteOutcome::Ready { bytes: 2 });
    settle(&mut client, &mut server, now);
    assert_eq!(first.0.load(Ordering::SeqCst), 0);
    assert_eq!(second.0.load(Ordering::SeqCst), 1);
    assert!(server.conns[0].state.readers.is_empty());
    let (got, _) = read_all(&mut accepted, &mut server.conns[0], 8);
    assert_eq!(got, b"bc");
}

#[test]
fn dropped_handle_resets_the_stream_for_the_peer() {
    let (mut client, mut server, slot, now) = pair(BufMargins { header: 0, trailer: 0 });
    let stream = open_bi(&mut client, slot, &mut server, now);
    let poll = stream.poll_write(&mut client.conns[slot].state, b"x", idle_waker());
    assert_eq!(poll.outcome, WriteOutcome::Ready { bytes: 1 });
    settle(&mut client, &mut server, now);
    let mut accepted = server.conns[0].accepted.pop().unwrap();
    let (got, _) = read_all(&mut accepted, &mut server.conns[0], 8);
    assert_eq!(got, b"x");

    client.conns[slot].ctrl.close(stream.id());
    client.conns[slot].ctrl.close(stream.id());
    settle(&mut client, &mut server, now);
    let mut out = Vec::new();
    let poll = accepted.poll_read(&mut server.conns[0].state, &mut out, 8, idle_waker());
    assert_eq!(poll.outcome, ReadOutcome::ConnectionReset { code: 0 });
    assert!(out.is_empty());
    assert_eq!(accepted.phase(true), StreamPhase::Reset);
    let poll = accepted.poll_read(&mut server.conns[0].state, &mut out, 8, idle_waker());
    assert_eq!(poll.outcome, ReadOutcome::ConnectionReset { code: 0 });
    let poll = accepted.poll_write(&mut server.conns[0].state, b"y", idle_waker());
    assert_eq!(poll.outcome, WriteOutcome::BrokenPipe);
    assert!(!poll.notify);
}

#[test]
fn handshake_is_dropped_while_acceptance_is_off() {
    let margins = BufMargins { header: 0, trailer: 0 };
    let now = Instant::now();
    let mut client = node(CLIENT, false, margins);
    let mut server = node(SERVER, true, margins);
    server.accepting = false;
    client.connect(SERVER, now);
    assert!(client.pass(now));
    let first: Vec<QuicPacket> = std::mem::take(&mut client.outbox);
    assert!(!first.is_empty());
    for packet in first {
        server.ingest(CLIENT, unwrap_margins(packet, margins), now);
    }
    assert!(server.conns.is_empty());
    assert!(server.outbox.is_empty());
    assert!(server.errors.is_empty());
    assert_eq!(server.endpoint.handle_of(CLIENT), None);

    server.accepting = true;
    let mut other = node(CLIENT, false, margins);
    let slot = other.connect(SERVER, now);
    settle(&mut other, &mut server, now);
    assert_eq!(server.conns.len(), 1);
    let stream = open_bi(&mut other, slot, &mut server, now);
    let poll = stream.poll_write(&mut other.conns[slot].state, b"hi", idle_waker());
    assert_eq!(poll.outcome, WriteOutcome::Ready { bytes: 2 });
    settle(&mut other, &mut server, now);
    assert_eq!(server.conns[0].accepted.len(), 1);
}

#[test]
fn accepted_streams_wait_while_the_switch_is_off() {
    let (mut client, mut server, slot, now) = pair(BufMargins { header: 0, trailer: 0 });
    server.accepting = false;
    let stream = open_bi(&mut client, slot, &mut server, now);
    let poll = stream.poll_write(&mut client.conns[slot].state, b"q", idle_waker());
    assert_eq!(poll.outcome, WriteOutcome::Ready { bytes: 1 });
    settle(&mut client, &mut server, now);
    assert!(server.conns[0].accepted.is_empty());
    assert_eq!(server.conns[0].runner.pending_streams.len(), 1);
    assert_eq!(server.conns[0].runner.send_action(false), SendAction::Idle);
    assert_eq!(server.conns[0].runner.send_action(true), SendAction::Stream);
    server.accepting = true;
    settle(&mut client, &mut server, now);
    assert_eq!(server.conns[0].accepted.len(), 1);
}

#[test]
fn event_for_a_removed_connection_is_unknown() {
    let (mut client, mut server, slot, now) = pair(BufMargins { header: 0, trailer: 0 });
    let handle = server.conns[0].handle;
    assert_eq!(server.endpoint.remove(handle), Some(0));
    assert_eq!(server.endpoint.remove(handle), None);
    assert_eq!(server.endpoint.handle_of(CLIENT), None);
    let stream = open_bi(&mut client, slot, &mut server, now);
    let _ = stream.poll_write(&mut client.conns[slot].state, b"z", idle_waker());
    assert!(client.pass(now));
    for packet in std::mem::take(&mut client.outbox) {
        let payload = unwrap_margins(packet, client.margins);
        match server.endpoint.send(CLIENT, payload, now, true) {
            Err(EndpointError::UnknownConnection { handle: h }) => assert_eq!(h, handle),
            _ => panic!("the event should have had nowhere to go"),
        }
    }
}

#[test]
fn shutdown_wakes_the_parked_and_stops_the_runner() {
    let (mut client, mut server, slot, now) = pair(BufMargins { header: 0, trailer: 0 });
    let mut stream = open_bi(&mut client, slot, &mut server, now);
    let (count, waker) = counting_waker();
    let mut out = Vec::new();
    let poll = stream.poll_read(&mut client.conns[slot].state, &mut out, 8, waker);
    assert_eq!(poll.outcome, ReadOutcome::Pending);
    assert_eq!(stream.id().raw() & 3, 0);
    let conn = &mut client.conns[slot];
    conn.ctrl.shutdown();
    let pass = conn.runner.advance(&mut conn.ctrl, &mut conn.state, now).ok().unwrap();
    assert!(pass.shutdown && !pass.worked);
    assert_eq!(count.0.load(Ordering::SeqCst), 1);
    assert!(conn.state.readers.is_empty());
    let ctrls = client.endpoint.close();
    assert_eq!(ctrls, vec![0]);
    assert_eq!(client.endpoint.handle_of(SERVER), None);
}

#[test]
fn idle_timeout_ends_both_runners_with_connection_reset() {
    let (mut client, mut server, slot, now) = pair(BufMargins { header: 0, trailer: 0 });
    let mut stream = open_bi(&mut client, slot, &mut server, now);
    let (count, waker) = counting_waker();
    let mut out = Vec::new();
    let poll = stream.poll_read(&mut client.conns[slot].state, &mut out, 8, waker);
    assert_eq!(poll.outcome, ReadOutcome::Pending);
    assert_eq!(client.conns[slot].runner.after_pass(false, now), Next::SleepUntilDeadline);
    assert_eq!(client.conns[slot].runner.after_pass(true, now), Next::Restart);

    // The relay is severed: each side runs alone while time passes.
    let mut later = now;
    for _ in 0..200 {
        later += Duration::from_secs(1);
        if client.conns[slot].runner.after_pass(false, later) == Next::TimeoutNow {
            client.pass(later);
            client.outbox.clear();
        }
        if server.conns[0].runner.after_pass(false, later) == Next::TimeoutNow {
            server.pass(later);
            server.outbox.clear();
        }
        if client.conns[slot].lost && server.conns[0].lost {
            break;
        }
    }
    assert!(client.conns[slot].lost);
    assert!(server.conns[0].lost);
    assert_eq!(count.0.load(Ordering::SeqCst), 1);
    assert_eq!(client.endpoint.handle_of(SERVER), None);
    assert_eq!(server.endpoint.handle_of(CLIENT), None);
    assert!(client.endpoint.ctrl(client.conns[slot].handle).is_none());
    let poll = stream.poll_read(&mut client.conns[slot].state, &mut out, 8, idle_waker());
    assert_eq!(poll.outcome, ReadOutcome::ConnectionLost);
    let poll = stream.poll_write(&mut client.conns[slot].state, b"late", idle_waker());
    assert_eq!(poll.outcome, WriteOutcome::ConnectionLost);
    let poll = stream.poll_shutdown(&mut client.conns[slot].state);
    assert_eq!(poll.outcome, ShutdownOutcome::ConnectionLost);
    let mut accepted = QuicStream::new(stream.id());
    let poll = accepted.poll_read(&mut server.conns[0].state, &mut out, 8, idle_waker());
    assert_eq!(poll.outcome, ReadOutcome::ConnectionLost);
    assert!(client.conns[slot].state.readers.is_empty());
}

/// Writes `data` on `stream` while the other side reads, and gives back
/// what the other side read up to the end of the stream.
fn transfer(
    writer: &mut Node,
    slot: usize,
    reader: &mut Node,
    stream: &mut QuicStream,
    accepted: &mut Option<QuicStream>,
    data: &[u8],
    chunk: usize,
    now: Instant,
) -> Vec<u8> {
    let mut got = Vec::new();
    let mut sent = 0;
    let mut finished = false;
    let mut last = ReadOutcome::Pending;
    for _ in 0..1_000_000 {
        while sent < data.len() {
            let end = usize::min(sent + chunk, data.len());
            let poll = stream.poll_write(&mut writer.conns[slot].state, &data[sent..end], idle_waker());
            match poll.outcome {
                WriteOutcome::Ready { bytes } => sent += bytes,
                WriteOutcome::Pending => break,
                other => panic!("write failed: {other:?}"),
            }
        }
        if sent == data.len() && !finished {
            let poll = stream.poll_shutdown(&mut writer.conns[slot].state);
            assert_eq!(poll.outcome, ShutdownOutcome::Ready);
            finished = true;
        }
        settle(writer, reader, now);
        if accepted.is_none() {
            *accepted = reader.conns[0].accepted.pop();
        }
        if let Some(incoming) = accepted.as_mut() {
            let (bytes, outcome) = read_all(incoming, &mut reader.conns[0], 64 * 1024);
            got.extend_from_slice(&bytes);
            last = outcome;
            if finished && last == (ReadOutcome::Ready { bytes: 0 }) {
                return got;
            }
        }
    }
    panic!("the transfer never finished: {last:?}");
}

#[test]
fn bulk_stream_arrives_whole_and_ends() {
    let (mut client, mut server, slot, now) = pair(BufMargins { header: 0, trailer: 0 });
    let mut stream = open_bi(&mut client, slot, &mut server, now);
    let data: Vec<u8> = (0..3 * 1024 * 1024u32).map(|i| (i % 253) as u8).collect();
    let mut accepted = None;
    let got = transfer(&mut client, slot, &mut server, &mut stream, &mut accepted, &data, 64 * 1024, now);
    assert!(got == data);
    assert!(!client.conns[slot].lost && !server.conns[0].lost);
    let mut out = Vec::new();
    let poll = accepted.unwrap().poll_read(&mut server.conns[0].state, &mut out, 8, idle_waker());
    assert_eq!(poll.outcome, ReadOutcome::Ready { bytes: 0 });
}

fn open_bi_in_time(node: &mut Node, slot: usize, other: &mut Node, clock: &mut Instant) -> QuicStream {
    let ticket = node.conns[slot].opened.len() as u32 + 100;
    node.conns[slot].ctrl.open(Direction::Bi, ticket);
    settle_in_time(node, other, clock, Duration::from_millis(100));
    let (got, result) = node.conns[slot].opened.pop().unwrap();
    assert_eq!(got, ticket);
    QuicStream::new(result.unwrap())
}

#[test]
fn single_bulk_stream_of_one_gibibyte() {
    let (mut client, mut server, slot, mut clock) = bulk_pair();
    let mut stream = open_bi_in_time(&mut client, slot, &mut server, &mut clock);
    let received = stream_zeros(
        &mut client,
        slot,
        &mut server,
        &mut stream,
        1024 * 1024 * 1024,
        1024 * 1024,
        clock,
    );
    assert_eq!(received, 1_073_741_824);
    assert!(!client.conns[slot].lost && !server.conns[0].lost);
    assert!(client.errors.is_empty() && server.errors.is_empty());
}

#[test]
fn ping_pong_completes_every_round_trip() {
    let (mut client, mut server, slot, now) = pair(BufMargins { header: 0, trailer: 0 });
    let mut stream = open_bi(&mut client, slot, &mut server, now);
    let mut echo: Option<QuicStream> = None;
    let mut clock = now;
    let patience = Duration::from_millis(10);
    let mut rounds = 0u32;
    for round in 0..100_000u32 {
        let ping = [round as u8; 64];
        let poll = stream.poll_write(&mut client.conns[slot].state, &ping, idle_waker());
        assert_eq!(poll.outcome, WriteOutcome::Ready { bytes: 64 });
        settle_in_time(&mut client, &mut server, &mut clock, patience);
        if echo.is_none() {
            echo = server.conns[0].accepted.pop();
        }
        let echo = echo.as_mut().unwrap();
        let (got, _) = read_all(echo, &mut server.conns[0], 64);
        assert_eq!(got, ping);
        let poll = echo.poll_write(&mut server.conns[0].state, &got, idle_waker());
        assert_eq!(poll.outcome, WriteOutcome::Ready { bytes: 64 });
        settle_in_time(&mut client, &mut server, &mut clock, patience);
        let (pong, last) = read_all(&mut stream, &mut client.conns[slot], 64);
        assert_eq!(pong, ping);
        assert_eq!(last, ReadOutcome::Pending);
        rounds += 1;
    }
    assert_eq!(rounds, 100_000);
    assert!(!client.conns[slot].lost && !server.conns[0].lost);
}

#[test]
fn concurrent_streams_each_arrive_whole() {
    let (mut client, mut server, slot, mut clock) = bulk_pair();
    let mut streams: Vec<QuicStream> =
        (0..4).map(|_| open_bi_in_time(&mut client, slot, &mut server, &mut clock)).collect();
    let size = 128 * 1024 * 1024;
    let chunk = 1024 * 1024;
    let payloads: Vec<Vec<u8>> = (0..4u8).map(|i| vec![i + 1; chunk]).collect();
    let mut sent = [0usize; 4];
    let mut received = [0usize; 4];
    let mut ended = [false; 4];
    let mut incoming: Vec<QuicStream> = Vec::new();
    let mut out = Vec::with_capacity(chunk);
    for _ in 0..10_000_000u64 {
        for (i, stream) in streams.iter_mut().enumerate() {
            while sent[i] < size {
                let len = usize::min(chunk, size - sent[i]);
                let poll =
                    stream.poll_write(&mut client.conns[slot].state, &payloads[i][..len], idle_waker());
                match poll.outcome {
                    WriteOutcome::Ready { bytes } => sent[i] += bytes,
                    WriteOutcome::Pending => break,
                    other => panic!("write failed: {other:?}"),
                }
                if sent[i] == size {
                    let poll = stream.poll_shutdown(&mut client.conns[slot].state);
                    assert_eq!(poll.outcome, ShutdownOutcome::Ready);
                }
            }
        }
        settle_in_time(&mut client, &mut server, &mut clock, Duration::from_millis(100));
        incoming.append(&mut server.conns[0].accepted);
        for stream in incoming.iter_mut() {
            let which = streams.iter().position(|s| s.id() == stream.id()).unwrap();
            while !ended[which] {
                out.clear();
                let poll = stream.poll_read(&mut server.conns[0].state, &mut out, chunk, idle_waker());
                match poll.outcome {
                    ReadOutcome::Ready { bytes: 0 } => ended[which] = true,
                    ReadOutcome::Ready { bytes } => {
                        let mark = which as u8 + 1;
                        assert_eq!((out[0], out[bytes / 2], out[bytes - 1]), (mark, mark, mark));
                        received[which] += bytes;
                    }
                    ReadOutcome::Pending => break,
                    other => panic!("read failed: {other:?}"),
                }
            }
        }
        if ended.iter().all(|e| *e) {
            break;
        }
    }
    assert_eq!(ended, [true; 4]);
    assert_eq!(received, [size; 4]);
    assert_eq!(received.iter().sum::<usize>(), 4 * size);
    assert!(!client.conns[slot].lost && !server.conns[0].lost);
}

#[test]
fn a_full_sink_neither_spins_the_runner_nor_stops_its_timer() {
    let (mut client, mut server, slot, now) = pair(BufMargins { header: 0, trailer: 0 });
    let stream = open_bi(&mut client, slot, &mut server, now);
    let data = vec![5u8; 20_000];
    let poll = stream.poll_write(&mut client.conns[slot].state, &data, idle_waker());
    assert!(matches!(poll.outcome, WriteOutcome::Ready { .. }));
    let conn = &mut client.conns[slot];
    let pass = conn.runner.advance(&mut conn.ctrl, &mut conn.state, now).ok().unwrap();
    assert!(!pass.shutdown);
    // The sink grants no credit: nothing is sent, and the runner sleeps.
    assert_eq!(conn.runner.send_action(true), SendAction::Packet);
    assert_eq!(conn.runner.after_pass(false, now), Next::SleepUntilDeadline);
    assert_eq!(conn.runner.send_action(true), SendAction::Packet);
    // The deadline passes while the sink is still full.
    assert_eq!(conn.runner.after_pass(false, now + Duration::from_secs(60)), Next::TimeoutNow);
    assert!(conn.runner.timeout_due);
    // One credit at a time drains the queue, in order.
    let mut drained = 0;
    while conn.runner.send_action(true) == SendAction::Packet {
        let packet = conn.runner.next_packet().unwrap();
        assert_eq!(packet.payload.len(), packet.transmit.size);
        drained += 1;
    }
    assert!(drained > 1);
    assert_eq!(conn.runner.send_action(true), SendAction::Idle);
    assert!(conn.runner.next_packet().is_none());
}

#[test]
fn a_full_inbox_hands_the_event_back() {
    let (mut client, mut server, slot, now) = pair(BufMargins { header: 0, trailer: 0 });
    let stream = open_bi(&mut client, slot, &mut server, now);
    let poll = stream.poll_write(&mut client.conns[slot].state, b"flood", idle_waker());
    assert_eq!(poll.outcome, WriteOutcome::Ready { bytes: 5 });
    assert!(client.pass(now));
    let packet = client.outbox.pop().unwrap();
    let datagram = unwrap_margins(packet, client.margins);
    let mut queued = 0;
    let mut refused = 0;
    for _ in 0..1030 {
        match server.endpoint.send(CLIENT, datagram.clone(), now, true) {
            Ok(Delivery::Event { event, .. }) => match server.conns[0].ctrl.send_event(event) {
                Ok(()) => queued += 1,
                Err(_) => refused += 1,
            },
            _ => panic!("the datagram belongs to the connection"),
        }
    }
    assert_eq!(queued, 1024);
    assert_eq!(refused, 6);
    assert_eq!(server.conns[0].ctrl.inbox.len(), 1024);
    assert!(server.conns[0].ctrl.has_input());
    let conn = &mut server.conns[0];
    let pass = conn.runner.advance(&mut conn.ctrl, &mut conn.state, now).ok().unwrap();
    assert!(pass.worked);
    assert!(conn.ctrl.inbox.is_empty());
    assert!(!conn.ctrl.has_input());
}

#[test]
fn a_redundant_datagram_changes_nothing_in_the_endpoint() {
    let (_client, mut server, _slot, now) = pair(BufMargins { header: 0, trailer: 0 });
    let handle = server.conns[0].handle;
    // Too short to be a packet of any connection: the core has no use for it.
    let junk = BytesMut::from(&[0u8; 3][..]);
    assert!(matches!(server.endpoint.send(CLIENT, junk, now, true), Ok(Delivery::Nothing)));
    assert_eq!(server.endpoint.handle_of(CLIENT), Some(handle));
    assert!(server.conns[0].ctrl.inbox.is_empty());
    assert!(!server.pass(now));
    assert!(server.outbox.is_empty());
}

#[test]
fn open_is_refused_when_the_core_has_no_stream_left() {
    let (mut client, mut server, slot, now) = pair(BufMargins { header: 0, trailer: 0 });
    let mut refused = None;
    for n in 0..200u32 {
        client.conns[slot].ctrl.open(Direction::Bi, n);
    }
    settle(&mut client, &mut server, now);
    let replies = std::mem::take(&mut client.conns[slot].opened);
    assert_eq!(replies.len(), 200);
    for (n, (ticket, result)) in replies.iter().enumerate() {
        assert_eq!(*ticket, n as u32);
        if let Err(e) = result {
            refused.get_or_insert((n, *e));
        }
    }
    // The peer's settings allow 100 concurrent bidirectional streams.
    assert_eq!(refused, Some((100, OpenRefused::Exhausted)));
    assert!(replies[..100].iter().all(|(_, r)| r.is_ok()));
    assert!(replies[100..].iter().all(|(_, r)| r.is_err()));
}

#[test]
fn unidirectional_stream_flows_one_way_only() {
    let (mut client, mut server, slot, now) = pair(BufMargins { header: 0, trailer: 0 });
    client.conns[slot].ctrl.open(Direction::Uni, 1);
    settle(&mut client, &mut server, now);
    let (_, result) = client.conns[slot].opened.pop().unwrap();
    let mut stream = QuicStream::new(result.unwrap());
    assert_eq!(stream.id().dir(), Direction::Uni);
    assert!(!stream.id().opened_by_server());

    // The opener cannot read its own unidirectional stream: it reads as ended.
    let mut out = Vec::new();
    let poll = stream.poll_read(&mut client.conns[slot].state, &mut out, 8, idle_waker());
    assert_eq!(poll.outcome, ReadOutcome::Ready { bytes: 0 });
    assert!(!poll.notify);
    assert!(out.is_empty());
    assert!(client.conns[slot].state.readers.is_empty());
    assert_eq!(stream.phase(true), StreamPhase::HalfClosedRecv);

    let poll = stream.poll_write(&mut client.conns[slot].state, b"one way", idle_waker());
    assert_eq!(poll.outcome, WriteOutcome::Ready { bytes: 7 });
    settle(&mut client, &mut server, now);
    let mut accepted = server.conns[0].accepted.pop().unwrap();
    assert_eq!(accepted.id(), stream.id());
    let (got, last) = read_all(&mut accepted, &mut server.conns[0], 64);
    assert_eq!(got, b"one way");
    assert_eq!(last, ReadOutcome::Pending);

    // The receiver cannot write to it, nor finish it.
    let poll = accepted.poll_write(&mut server.conns[0].state, b"back", idle_waker());
    assert_eq!(poll.outcome, WriteOutcome::BrokenPipe);
    let poll = accepted.poll_shutdown(&mut server.conns[0].state);
    assert_eq!(poll.outcome, ShutdownOutcome::Ready);
    assert!(!poll.notify);

    // Closing it on either side touches only the half that the side has.
    server.conns[0].ctrl.close(accepted.id());
    client.conns[slot].ctrl.close(stream.id());
    settle(&mut client, &mut server, now);
    assert!(!client.conns[slot].lost && !server.conns[0].lost);
    assert!(server.conns[0].state.readers.is_empty());
}

#[test]
fn a_stopped_stream_wakes_its_blocked_writer() {
    let (mut client, mut server, slot, now) = pair(BufMargins { header: 0, trailer: 0 });
    let stream = open_bi(&mut client, slot, &mut server, now);
    let chunk = vec![1u8; 64 * 1024];
    let (count, waker) = counting_waker();
    let mut waker = Some(waker);
    // The peer does not read: the write window fills up and the writer parks.
    let mut parked = false;
    for _ in 0..10_000 {
        let poll = stream.poll_write(
            &mut client.conns[slot].state,
            &chunk,
            waker.take().unwrap_or_else(idle_waker),
        );
        match poll.outcome {
            WriteOutcome::Ready { .. } => {
                assert!(poll.notify);
                waker = Some(counting_waker().1);
                settle(&mut client, &mut server, now);
            }
            WriteOutcome::Pending => {
                assert!(!poll.notify);
                parked = true;
                break;
            }
            other => panic!("write failed: {other:?}"),
        }
    }
    assert!(parked);
    let (count, id) = {
        // Park a waker that we can watch.
        let (watch, waker) = counting_waker();
        let poll = stream.poll_write(&mut client.conns[slot].state, &chunk, waker);
        assert_eq!(poll.outcome, WriteOutcome::Pending);
        let _ = count;
        (watch, stream.id())
    };
    assert_eq!(client.conns[slot].state.writers.len(), 1);
    assert!(client.conns[slot].state.writers.contains_key(&id.raw()));

    // The peer drops its handle: the stream is stopped.
    let accepted = server.conns[0].accepted.pop().unwrap();
    server.conns[0].ctrl.close(accepted.id());
    settle(&mut client, &mut server, now);
    assert_eq!(count.0.load(Ordering::SeqCst), 1);
    assert!(client.conns[slot].state.writers.is_empty());
    let poll = stream.poll_write(&mut client.conns[slot].state, &chunk, idle_waker());
    assert_eq!(poll.outcome, WriteOutcome::BrokenPipe);
}

#[test]
fn reset_and_stop_carry_their_codes_to_the_peer() {
    let (mut client, mut server, slot, now) = pair(BufMargins { header: 0, trailer: 0 });
    let mut stream = open_bi(&mut client, slot, &mut server, now);
    let poll = stream.poll_write(&mut client.conns[slot].state, b"abc", idle_waker());
    assert_eq!(poll.outcome, WriteOutcome::Ready { bytes: 3 });
    settle(&mut client, &mut server, now);
    let mut accepted = server.conns[0].accepted.pop().unwrap();

    // The server stops reading: the client's next write is a broken pipe.
    assert!(accepted.stop(&mut server.conns[0].state, 7));
    assert!(!accepted.stop(&mut server.conns[0].state, 8));
    assert_eq!(accepted.phase(true), StreamPhase::HalfClosedRecv);
    let mut out = Vec::new();
    let poll = accepted.poll_read(&mut server.conns[0].state, &mut out, 8, idle_waker());
    assert_eq!(poll.outcome, ReadOutcome::Ready { bytes: 0 });
    settle(&mut client, &mut server, now);
    let poll = stream.poll_write(&mut client.conns[slot].state, b"def", idle_waker());
    assert_eq!(poll.outcome, WriteOutcome::BrokenPipe);
    let poll = stream.poll_shutdown(&mut client.conns[slot].state);
    assert_eq!(poll.outcome, ShutdownOutcome::BrokenPipe);
    assert!(poll.notify);

    // The server resets its send side: the client's read reports the code.
    let poll = accepted.reset(&mut server.conns[0].state, 42);
    assert_eq!(poll.outcome, ShutdownOutcome::Ready);
    assert!(poll.notify);
    assert_eq!(accepted.phase(true), StreamPhase::Closed);
    settle(&mut client, &mut server, now);
    let poll = stream.poll_read(&mut client.conns[slot].state, &mut out, 8, idle_waker());
    assert_eq!(poll.outcome, ReadOutcome::ConnectionReset { code: 42 });
    assert_eq!(stream.phase(true), StreamPhase::Reset);
    assert!(out.is_empty());
}

#[test]
fn the_endpoint_answers_an_unknown_version_itself() {
    let margins = BufMargins { header: 4, trailer: 2 };
    let now = Instant::now();
    let mut server = node(SERVER, true, margins);
    // A long-header packet of a version that nobody speaks, padded to the
    // size of an initial packet.
    let mut datagram = vec![0u8; 1200];
    datagram[0] = 0xc0;
    datagram[1..5].copy_from_slice(&[0x0a, 0x1a, 0x2a, 0x3a]);
    datagram[5] = 8;
    datagram[6..14].copy_from_slice(&[1, 2, 3, 4, 5, 6, 7, 8]);
    datagram[14] = 8;
    datagram[15..23].copy_from_slice(&[9, 10, 11, 12, 13, 14, 15, 16]);
    match server.endpoint.send(CLIENT, BytesMut::from(&datagram[..]), now, true) {
        Ok(Delivery::Response { packet }) => {
            let size = packet.transmit.size;
            assert!(size > 0);
            assert_eq!(packet.payload.len(), 4 + size + 2);
            assert_eq!(&packet.payload[..4], &[0; 4]);
            assert_eq!(&packet.payload[4 + size..], &[0; 2]);
            assert_eq!(packet.transmit.destination.port(), 10000);
            // A version negotiation packet echoes the connection ids, swapped.
            let body = &packet.payload[4..4 + size];
            assert_eq!(&body[1..5], &[0; 4]);
            assert_eq!(body[5], 8);
            assert_eq!(&body[6..14], &[9, 10, 11, 12, 13, 14, 15, 16]);
            assert_eq!(body[14], 8);
            assert_eq!(&body[15..23], &[1, 2, 3, 4, 5, 6, 7, 8]);
        }
        _ => panic!("the endpoint should have answered"),
    }
    assert!(server.conns.is_empty());
    assert_eq!(server.endpoint.handle_of(CLIENT), None);
}


#[test]
fn connect_to_an_unusable_address_is_refused() {
    let now = Instant::now();
    let mut client = node(CLIENT, false, BufMargins { header: 0, trailer: 0 });
    let nowhere = PeerAddr::V4 { v4: 0x7f00_0001, port: 0 };
    match client.endpoint.connect(nowhere, now) {
        Err(EndpointError::ConnectError { refusal }) => {
            assert_eq!(refusal, quic_driver::protocol::ConnectRefusal::InvalidRemoteAddress)
        }
        _ => panic!("port zero is no address to connect to"),
    }
    let unspecified = PeerAddr::V6 { v6: 0, port: 4433 };
    assert!(matches!(
        client.endpoint.connect(unspecified, now),
        Err(EndpointError::ConnectError { .. })
    ));
    assert_eq!(client.endpoint.handle_of(nowhere), None);
    // An address of either family is handed to the core as it is.
    let mut other = node(CLIENT, false, BufMargins { header: 0, trailer: 0 });
    let six = PeerAddr::V6 { v6: 1, port: 4433 };
    let slot = other.connect(six, now);
    assert!(other.pass(now));
    let first = other.outbox.pop().unwrap();
    assert_eq!(first.transmit.destination.to_string(), "[::1]:4433");
    let mut four = node(CLIENT, false, BufMargins { header: 0, trailer: 0 });
    four.connect(SERVER, now);
    assert!(four.pass(now));
    assert_eq!(four.outbox.pop().unwrap().transmit.destination.to_string(), "127.0.0.1:4433");
    assert_eq!(slot, 0);
}

#[test]
fn granted_streams_carry_direction_and_opener_in_their_ids() {
    let (mut client, mut server, slot, now) = pair(BufMargins { header: 0, trailer: 0 });
    // The server opens one stream of each direction towards the client.
    server.conns[0].ctrl.open(Direction::Bi, 1);
    server.conns[0].ctrl.open(Direction::Uni, 2);
    settle(&mut server, &mut client, now);
    let opened = std::mem::take(&mut server.conns[0].opened);
    assert_eq!(opened.len(), 2);
    let bi = opened[0].1.unwrap();
    let uni = opened[1].1.unwrap();
    assert_eq!((bi.dir(), bi.opened_by_server()), (Direction::Bi, true));
    assert_eq!((uni.dir(), uni.opened_by_server()), (Direction::Uni, true));
    assert_eq!((bi.raw() & 3, uni.raw() & 3), (1, 3));
    assert!(bi.can_write(true) && uni.can_write(true));

    // The client accepts them once they carry data, as streams of the peer.
    let poll = QuicStream::new(bi).poll_write(&mut server.conns[0].state, b"b", idle_waker());
    assert_eq!(poll.outcome, WriteOutcome::Ready { bytes: 1 });
    let poll = QuicStream::new(uni).poll_write(&mut server.conns[0].state, b"u", idle_waker());
    assert_eq!(poll.outcome, WriteOutcome::Ready { bytes: 1 });
    settle(&mut server, &mut client, now);
    let mut accepted: Vec<StreamId> = client.conns[slot].accepted.iter().map(|s| s.id()).collect();
    accepted.sort_by_key(|id| id.raw());
    assert_eq!(accepted, vec![bi, uni]);
    for id in accepted {
        assert!(id.opened_by_server());
        assert!(id.can_read(false));
    }
    assert!(!client.conns[slot].runner.backlog_bi && !client.conns[slot].runner.backlog_uni);

    // What the client opens carries the client's mark.
    let own = open_bi(&mut client, slot, &mut server, now);
    assert_eq!((own.id().dir(), own.id().opened_by_server()), (Direction::Bi, false));
}

#[test]
fn accepting_notes_a_backlog_only_when_the_budget_runs_out() {
    let (mut client, mut server, slot, now) = pair(BufMargins { header: 0, trailer: 0 });
    let stream = open_bi(&mut client, slot, &mut server, now);
    let poll = stream.poll_write(&mut client.conns[slot].state, b"x", idle_waker());
    assert_eq!(poll.outcome, WriteOutcome::Ready { bytes: 1 });
    settle(&mut client, &mut server, now);
    let conn = &mut server.conns[0];
    let queued = conn.runner.pending_streams.len() + conn.accepted.len();
    assert_eq!(queued, 1);
    // Nothing more is on offer: a stale note is cleared, the other stays.
    conn.runner.backlog_bi = true;
    conn.runner.backlog_uni = true;
    conn.runner.accept_streams(&mut conn.state, Direction::Bi);
    assert!(!conn.runner.backlog_bi);
    assert!(conn.runner.backlog_uni);
    assert_eq!(conn.runner.pending_streams.len() + conn.accepted.len(), 1);
    assert!(conn.runner.accept_backlog(&mut conn.state));
    assert!(!conn.runner.backlog_uni);
    assert!(!conn.runner.accept_backlog(&mut conn.state));
}

#[test]
fn each_event_of_the_core_has_its_outcome() {
    let (_client, mut server, _slot, _now) = pair(BufMargins { header: 0, trailer: 0 });
    let conn = &mut server.conns[0];
    conn.state.established = false;
    assert!(conn.runner.on_event(&mut conn.state, CoreEvent::HandshakeDataReady).is_none());
    assert!(!conn.state.established);
    assert!(conn.runner.on_event(&mut conn.state, CoreEvent::Connected).is_none());
    assert!(conn.state.established);
    assert!(conn.runner.on_event(&mut conn.state, CoreEvent::DatagramReceived).is_none());
    assert!(conn.runner.on_event(&mut conn.state, CoreEvent::DatagramsUnblocked).is_none());
    let reason = quinn_proto::ConnectionError::TimedOut;
    match conn.runner.on_event(&mut conn.state, CoreEvent::Lost { reason }) {
        Some(RunnerError::ConnectionReset { reason }) => {
            assert_eq!(reason, quinn_proto::ConnectionError::TimedOut)
        }
        _ => panic!("a lost connection ends the runner"),
    }
    assert!(conn.state.established);
    assert!(conn.runner.pending_wakers.is_empty());
    assert!(conn.state.readers.is_empty() && conn.state.writers.is_empty());
}

fn patterned(len: usize) -> Vec<u8> {
    (0..len).map(|i| (i % 251) as u8).collect()
}

/// Lets the peer read until `want` bytes have arrived or the stream has
/// ended, while time passes; gives back what was read and how it ended.
fn drain(
    writer: &mut Node,
    reader: &mut Node,
    clock: &mut Instant,
    want: usize,
) -> (Vec<u8>, ReadOutcome) {
    let mut accepted: Option<QuicStream> = None;
    let mut got = Vec::new();
    for _ in 0..100_000 {
        settle_in_time(writer, reader, clock, Duration::from_millis(100));
        if accepted.is_none() {
            accepted = reader.conns[0].accepted.pop();
        }
        if let Some(incoming) = accepted.as_mut() {
            let (bytes, end) = read_all(incoming, &mut reader.conns[0], 64 * 1024);
            got.extend_from_slice(&bytes);
            if end != ReadOutcome::Pending || got.len() >= want {
                reader.conns[0].accepted.push(accepted.take().unwrap());
                return (got, end);
            }
        }
    }
    panic!("the peer never got its bytes");
}

#[test]
fn a_write_beyond_the_window_is_taken_whole_and_flushed_later() {
    let (mut client, mut server, slot, now) = pair(BufMargins { header: 0, trailer: 0 });
    let stream = open_bi(&mut client, slot, &mut server, now);
    let id = stream.id().raw();
    let data = patterned(3_000_000);
    let poll = stream.poll_write(&mut client.conns[slot].state, &data, idle_waker());
    // Every byte counts as written, though the core took only a part.
    assert_eq!(poll.outcome, WriteOutcome::Ready { bytes: data.len() });
    assert!(poll.notify);
    let kept = client.conns[slot].state.tails[&id].bytes.len();
    assert!(0 < kept && kept < data.len());
    assert_eq!(&client.conns[slot].state.tails[&id].bytes[..], &data[data.len() - kept..]);
    assert!(!client.conns[slot].state.tails[&id].fin);

    // While the tail waits, a flush is not done and nothing more is taken.
    assert!(!stream.poll_flush(&mut client.conns[slot].state, idle_waker()));
    let (count, waker) = counting_waker();
    let poll = stream.poll_write(&mut client.conns[slot].state, b"more", waker);
    assert_eq!(poll.outcome, WriteOutcome::Pending);
    assert!(!poll.notify);
    assert_eq!(client.conns[slot].state.tails[&id].bytes.len(), kept);
    assert_eq!(client.conns[slot].state.writers.len(), 1);

    // The peer reads: the window opens, and the runner hands the tail on.
    let mut clock = now;
    let (got, end) = drain(&mut client, &mut server, &mut clock, data.len());
    assert_eq!(end, ReadOutcome::Pending);
    assert!(got == data);
    assert!(client.conns[slot].state.tails.is_empty());
    assert!(client.conns[slot].state.writers.is_empty());
    assert!(count.0.load(Ordering::SeqCst) >= 1);
    assert!(stream.poll_flush(&mut client.conns[slot].state, idle_waker()));
    assert!(client.conns[slot].state.writers.is_empty());
    let poll = stream.poll_write(&mut client.conns[slot].state, b"more", idle_waker());
    assert_eq!(poll.outcome, WriteOutcome::Ready { bytes: 4 });
    let (got, _) = drain(&mut client, &mut server, &mut clock, 4);
    assert_eq!(got, b"more");
}

#[test]
fn a_shutdown_follows_the_tail() {
    let (mut client, mut server, slot, now) = pair(BufMargins { header: 0, trailer: 0 });
    let mut stream = open_bi(&mut client, slot, &mut server, now);
    let id = stream.id().raw();
    let data = patterned(2_500_000);
    let poll = stream.poll_write(&mut client.conns[slot].state, &data, idle_waker());
    assert_eq!(poll.outcome, WriteOutcome::Ready { bytes: data.len() });
    let kept = client.conns[slot].state.tails[&id].bytes.len();
    assert!(kept > 0);
    let poll = stream.poll_shutdown(&mut client.conns[slot].state);
    assert_eq!(poll.outcome, ShutdownOutcome::Ready);
    assert!(poll.notify);
    assert!(client.conns[slot].state.tails[&id].fin);
    assert_eq!(client.conns[slot].state.tails[&id].bytes.len(), kept);
    assert_eq!(stream.phase(true), StreamPhase::HalfClosedSend);
    let poll = stream.poll_write(&mut client.conns[slot].state, b"late", idle_waker());
    assert_eq!(poll.outcome, WriteOutcome::BrokenPipe);

    // The end of the stream comes after the last byte of the tail.
    let mut clock = now;
    let (got, end) = drain(&mut client, &mut server, &mut clock, usize::MAX);
    assert_eq!(end, ReadOutcome::Ready { bytes: 0 });
    assert!(got == data);
    assert!(client.conns[slot].state.tails.is_empty());
}

#[test]
fn reset_and_stop_drop_the_tail() {
    let (mut client, mut server, slot, now) = pair(BufMargins { header: 0, trailer: 0 });
    let mut stream = open_bi(&mut client, slot, &mut server, now);
    let data = patterned(2_500_000);
    let poll = stream.poll_write(&mut client.conns[slot].state, &data, idle_waker());
    assert_eq!(poll.outcome, WriteOutcome::Ready { bytes: data.len() });
    assert_eq!(client.conns[slot].state.tails.len(), 1);
    let poll = stream.reset(&mut client.conns[slot].state, 7);
    assert!(poll.notify);
    assert!(client.conns[slot].state.tails.is_empty());
    let mut clock = now;
    let (got, end) = drain(&mut client, &mut server, &mut clock, usize::MAX);
    assert_eq!(end, ReadOutcome::ConnectionReset { code: 7 });
    assert!(got.len() < data.len());

    // A second stream, which the peer stops while its tail waits.
    let other = open_bi(&mut client, slot, &mut server, now);
    let poll = other.poll_write(&mut client.conns[slot].state, &data, idle_waker());
    assert_eq!(poll.outcome, WriteOutcome::Ready { bytes: data.len() });
    assert!(client.conns[slot].state.tails.contains_key(&other.id().raw()));
    let (count, waker) = counting_waker();
    assert!(!other.poll_flush(&mut client.conns[slot].state, waker));
    settle_in_time(&mut client, &mut server, &mut clock, Duration::from_millis(100));
    let accepted = server.conns[0]
        .accepted
        .iter()
        .position(|s| s.id() == other.id())
        .map(|at| server.conns[0].accepted.remove(at))
        .unwrap();
    server.conns[0].ctrl.close(accepted.id());
    settle_in_time(&mut client, &mut server, &mut clock, Duration::from_millis(100));
    assert!(client.conns[slot].state.tails.is_empty());
    assert!(client.conns[slot].state.writers.is_empty());
    assert_eq!(count.0.load(Ordering::SeqCst), 1);
    assert!(other.poll_flush(&mut client.conns[slot].state, idle_waker()));
    let poll = other.poll_write(&mut client.conns[slot].state, b"x", idle_waker());
    assert_eq!(poll.outcome, WriteOutcome::BrokenPipe);
}

#[test]
fn answers_without_a_new_connection_are_routed() {
    let margins = BufMargins { header: 3, trailer: 1 };
    let (mut client, mut server, slot, now) = pair(margins);
    assert!(matches!(server.endpoint.route(Answer::Nothing, &[1, 2, 3]), Ok(Delivery::Nothing)));

    // A response is packed from the front of the buffer, between the margins.
    let info = TransmitInfo {
        size: 2,
        raw: quinn_proto::Transmit {
            destination: "10.0.0.9:99".parse().unwrap(),
            ecn: None,
            size: 2,
            segment_size: None,
            src_ip: None,
        },
    };
    match server.endpoint.route(Answer::Response(info), &[7, 8, 9]) {
        Ok(Delivery::Response { packet }) => {
            assert_eq!(&packet.payload[..], &[0, 0, 0, 7, 8, 0]);
            assert_eq!(packet.transmit.destination.port(), 99);
        }
        _ => panic!("a response goes to the packet sink"),
    }

    // An event reaches its connection while that is live, and only then.
    let stream = open_bi(&mut client, slot, &mut server, now);
    let poll = stream.poll_write(&mut client.conns[slot].state, b"ping", idle_waker());
    assert_eq!(poll.outcome, WriteOutcome::Ready { bytes: 4 });
    assert!(client.pass(now));
    let handle = server.conns[0].handle;
    let mut events = Vec::new();
    for packet in std::mem::take(&mut client.outbox) {
        match server.endpoint.send(CLIENT, unwrap_margins(packet, margins), now, true) {
            Ok(Delivery::Event { handle: to, event }) => {
                assert_eq!(to, handle);
                events.push(event);
            }
            _ => panic!("a datagram of a live connection is an event for it"),
        }
    }
    let mut events = events.into_iter();
    let event = events.next().unwrap();
    match server.endpoint.route(Answer::ConnectionEvent(handle, event), &[]) {
        Ok(Delivery::Event { handle: to, .. }) => assert_eq!(to, handle),
        _ => panic!("the connection is live"),
    }
    assert_eq!(server.endpoint.remove(handle), Some(0));
    if let Some(event) = events.next() {
        match server.endpoint.route(Answer::ConnectionEvent(handle, event), &[]) {
            Err(EndpointError::UnknownConnection { handle: missing }) => assert_eq!(missing, handle),
            _ => panic!("the connection is gone"),
        }
    }
    assert!(matches!(server.endpoint.route(Answer::Nothing, &[]), Ok(Delivery::Nothing)));
}

fn made_with(settings: TransportSettings) -> bool {
    let margins = BufMargins { header: 1, trailer: 1 };
    QuicEndpoint::<usize>::with_endpoint(Some(server_config()), client_config(), margins, settings)
        .is_ok()
}

#[test]
fn an_endpoint_is_made_from_usable_settings_only() {
    let margins = BufMargins { header: 1, trailer: 1 };
    let bulk = TransportSettings::bulk();
    assert!(made_with(bulk));
    assert!(made_with(modest()));
    for refused in [
        TransportSettings { min_mtu: 16384, ..bulk },
        TransportSettings { min_mtu: 65535, ..bulk },
        TransportSettings { initial_mtu: 16384, ..bulk },
        TransportSettings { initial_mtu: 65535, min_mtu: 65535, ..bulk },
        TransportSettings { max_udp_payload: 1199, ..bulk },
        TransportSettings { max_udp_payload: 65528, ..bulk },
    ] {
        assert!(!made_with(refused));
    }
    // The largest datagrams that are accepted carry a handshake.
    let wide = TransportSettings { min_mtu: 16383, initial_mtu: 16383, bbr: true, ..modest() };
    let now = Instant::now();
    let mut client = node_with(CLIENT, wide, margins);
    let mut server = node_with(SERVER, wide, margins);
    let slot = client.connect(SERVER, now);
    settle(&mut client, &mut server, now);
    assert_eq!(server.conns.len(), 1);
    assert!(client.conns[slot].state.established);
    assert!(client.outbox.is_empty());
    // An endpoint without a server configuration accepts nobody.
    let mut deaf = Node {
        addr: SERVER,
        margins,
        accepting: true,
        endpoint: QuicEndpoint::with_endpoint(None, client_config(), margins, modest()).ok().unwrap(),
        conns: Vec::new(),
        outbox: Vec::new(),
        errors: Vec::new(),
    };
    let mut caller = node_with(CLIENT, modest(), margins);
    caller.connect(SERVER, now);
    settle(&mut caller, &mut deaf, now);
    assert!(deaf.conns.is_empty());
    assert_eq!(deaf.endpoint.handle_of(CLIENT), None);
}

/// A client session that writes bytes which are no transport parameters
/// where the handshake wants them.
struct Garbling(Box<dyn Session>);

impl Session for Garbling {
    fn initial_keys(&self, dst_cid: &ConnectionId, side: Side) -> Keys {
        self.0.initial_keys(dst_cid, side)
    }

    fn handshake_data(&self) -> Option<Box<dyn Any>> {
        self.0.handshake_data()
    }

    fn peer_identity(&self) -> Option<Box<dyn Any>> {
        self.0.peer_identity()
    }

    fn early_crypto(&self) -> Option<(Box<dyn HeaderKey>, Box<dyn PacketKey>)> {
        self.0.early_crypto()
    }

    fn early_data_accepted(&self) -> Option<bool> {
        self.0.early_data_accepted()
    }

    fn is_handshaking(&self) -> bool {
        self.0.is_handshaking()
    }

    fn read_handshake(&mut self, buf: &[u8]) -> Result<bool, TransportError> {
        self.0.read_handshake(buf)
    }

    fn transport_parameters(&self) -> Result<Option<TransportParameters>, TransportError> {
        self.0.transport_parameters()
    }

    fn write_handshake(&mut self, buf: &mut Vec<u8>) -> Option<Keys> {
        let before = buf.len();
        let keys = self.0.write_handshake(buf);
        if buf.len() > before {
            // A parameter whose length runs past the end of the message.
            buf.truncate(before);
            buf.extend_from_slice(&[0x01, 0x40]);
        }
        keys
    }

    fn next_1rtt_keys(&mut self) -> Option<KeyPair<Box<dyn PacketKey>>> {
        self.0.next_1rtt_keys()
    }

    fn is_valid_retry(&self, orig_dst_cid: &ConnectionId, header: &[u8], payload: &[u8]) -> bool {
        self.0.is_valid_retry(orig_dst_cid, header, payload)
    }

    fn export_keying_material(
        &self,
        output: &mut [u8],
        label: &[u8],
        context: &[u8],
    ) -> Result<(), ExportKeyingMaterialError> {
        self.0.export_keying_material(output, label, context)
    }
}

struct GarblingClient;

impl crypto::ClientConfig for GarblingClient {
    fn start_session(
        self: Arc<Self>,
        version: u32,
        server_name: &str,
        params: &TransportParameters,
    ) -> Result<Box<dyn Session>, ConnectError> {
        let inner = Arc::new(PlaintextClientConfig::new()).start_session(version, server_name, params)?;
        Ok(Box::new(Garbling(inner)))
    }
}

#[test]
fn malformed_transport_parameters_are_refused_not_fatal() {
    let margins = BufMargins { header: 0, trailer: 0 };
    let now = Instant::now();
    let mut server = node(SERVER, true, margins);
    let mut rogue = Node {
        addr: CLIENT,
        margins,
        accepting: true,
        endpoint: QuicEndpoint::with_endpoint(
            None,
            ClientConfig::new(Arc::new(GarblingClient)),
            margins,
            modest(),
        )
        .ok()
        .unwrap(),
        conns: Vec::new(),
        outbox: Vec::new(),
        errors: Vec::new(),
    };
    rogue.connect(SERVER, now);
    assert!(rogue.pass(now));
    let first: Vec<QuicPacket> = std::mem::take(&mut rogue.outbox);
    assert!(!first.is_empty());
    for packet in first {
        server.ingest(CLIENT, unwrap_margins(packet, margins), now);
    }
    // The handshake is refused, and nothing of it is kept.
    assert_eq!(server.errors, vec!["accept refused".to_string()]);
    assert!(server.conns.is_empty());
    assert_eq!(server.endpoint.handle_of(CLIENT), None);
    // The endpoint goes on serving others.
    let mut client = node(PeerAddr::V4 { v4: 0x7f00_0001, port: 10001 }, false, margins);
    let slot = client.connect(SERVER, now);
    settle(&mut client, &mut server, now);
    assert_eq!(server.conns.len(), 1);
    assert!(client.conns[slot].state.established);
}

/// The first datagram of a handshake whose packet has `payload` bytes
/// behind its one-byte packet number, padded to the least size of such a
/// datagram.
fn initial_with_payload(payload: usize) -> Vec<u8> {
    let mut datagram = vec![0xc0u8, 0, 0, 0, 1];
    datagram.push(8);
    datagram.extend_from_slice(&[1, 2, 3, 4, 5, 6, 7, 8]);
    datagram.push(8);
    datagram.extend_from_slice(&[9, 10, 11, 12, 13, 14, 15, 16]);
    // No token; then the length of packet number and payload.
    datagram.push(0);
    datagram.push(1 + payload as u8);
    datagram.push(0);
    datagram.resize(datagram.len() + payload, 0);
    datagram.resize(1200, 0);
    datagram
}

#[test]
fn a_packet_too_short_for_its_tag_is_refused_not_fatal() {
    let margins = BufMargins { header: 0, trailer: 0 };
    let now = Instant::now();
    for payload in 0..12usize {
        let mut server = node(SERVER, true, margins);
        let datagram = initial_with_payload(payload);
        match server.endpoint.send(CLIENT, BytesMut::from(&datagram[..]), now, true) {
            Ok(Delivery::Established { .. }) => panic!("nothing was there to accept"),
            Ok(Delivery::Event { .. }) => panic!("there is no connection"),
            _ => {}
        }
        assert_eq!(server.endpoint.handle_of(CLIENT), None);
    }

    // The same on a live connection: the front of a real packet, cut off
    // behind the first bytes of its payload.
    let (mut client, mut server, slot, now) = pair(margins);
    let stream = open_bi(&mut client, slot, &mut server, now);
    let poll = stream.poll_write(&mut client.conns[slot].state, b"whole", idle_waker());
    assert_eq!(poll.outcome, WriteOutcome::Ready { bytes: 5 });
    assert!(client.pass(now));
    let whole: Vec<QuicPacket> = std::mem::take(&mut client.outbox);
    assert!(!whole.is_empty());
    let real = unwrap_margins(whole.into_iter().next().unwrap(), margins);
    for len in 1..real.len().min(40) {
        server.ingest(CLIENT, BytesMut::from(&real[..len]), now);
        server.pass(now);
    }
    assert!(!server.conns[0].lost);
    // The whole packet still arrives.
    server.ingest(CLIENT, real, now);
    settle(&mut client, &mut server, now);
    let mut accepted = server.conns[0].accepted.pop().unwrap();
    let (got, _) = read_all(&mut accepted, &mut server.conns[0], 16);
    assert_eq!(got, b"whole");
}

#[test]
fn the_settings_reach_the_core() {
    let margins = BufMargins { header: 0, trailer: 0 };
    let now = Instant::now();
    let narrow = TransportSettings {
        max_bidi_streams: 1,
        max_uni_streams: 2,
        stream_receive_window: 4096,
        ..modest()
    };
    let mut client = node_with(CLIENT, modest(), margins);
    let mut server = node_with(SERVER, narrow, margins);
    let slot = client.connect(SERVER, now);
    settle(&mut client, &mut server, now);
    // The peer's limits bind the opener.
    for n in 0..3u32 {
        client.conns[slot].ctrl.open(Direction::Bi, n);
    }
    for n in 3..6u32 {
        client.conns[slot].ctrl.open(Direction::Uni, n);
    }
    settle(&mut client, &mut server, now);
    let replies = std::mem::take(&mut client.conns[slot].opened);
    let granted: Vec<bool> = replies.iter().map(|(_, r)| r.is_ok()).collect();
    assert_eq!(granted, vec![true, false, false, true, true, false]);
    // The peer's window for one stream is what the core takes of a write.
    let stream = QuicStream::new(replies[0].1.unwrap());
    let data = patterned(10_000);
    let poll = stream.poll_write(&mut client.conns[slot].state, &data, idle_waker());
    assert_eq!(poll.outcome, WriteOutcome::Ready { bytes: 10_000 });
    let tail = &client.conns[slot].state.tails[&stream.id().raw()];
    assert_eq!(tail.bytes.len(), 10_000 - 4096);
    assert_eq!(&tail.bytes[..], &data[4096..]);
    // The server, whose peer allows more, opens a second stream.
    for n in 0..2u32 {
        server.conns[0].ctrl.open(Direction::Bi, n);
    }
    settle(&mut client, &mut server, now);
    assert!(server.conns[0].opened.iter().all(|(_, r)| r.is_ok()));
}

#[test]
fn a_lost_connection_wakes_the_deferred_too() {
    let (mut client, mut server, slot, now) = pair(BufMargins { header: 0, trailer: 0 });
    let mut stream = open_bi(&mut client, slot, &mut server, now);
    let (parked, waker) = counting_waker();
    let mut out = Vec::new();
    let poll = stream.poll_read(&mut client.conns[slot].state, &mut out, 8, waker);
    assert_eq!(poll.outcome, ReadOutcome::Pending);
    // A wake that an earlier pass deferred and that is still due.
    let (deferred, waker) = counting_waker();
    let conn = &mut client.conns[slot];
    conn.runner.pending_wakers.push(waker);
    conn.runner.pending_streams.push_back(StreamId::new(1).unwrap());

    // The relay is cut: the runner runs alone until the core gives up.
    let mut later = now;
    let mut lost = false;
    for _ in 0..200 {
        later += Duration::from_secs(1);
        let _ = conn.runner.after_pass(false, later);
        match conn.runner.advance(&mut conn.ctrl, &mut conn.state, later) {
            Ok(pass) => {
                assert!(!pass.shutdown);
                assert_eq!(conn.runner.pending_wakers.len(), 1);
                assert_eq!(deferred.0.load(Ordering::SeqCst), 0);
                while conn.runner.next_packet().is_some() {}
            }
            Err(RunnerError::ConnectionReset { reason }) => {
                assert_eq!(reason, quinn_proto::ConnectionError::TimedOut);
                lost = true;
                break;
            }
            Err(RunnerError::BrokenPipe { .. }) => unreachable!(),
        }
    }
    assert!(lost);
    assert_eq!(parked.0.load(Ordering::SeqCst), 1);
    assert_eq!(deferred.0.load(Ordering::SeqCst), 1);
    assert!(conn.state.closed);
    assert!(conn.state.readers.is_empty() && conn.state.writers.is_empty());
    assert!(conn.runner.pending_wakers.is_empty());
    assert!(conn.runner.pending_streams.is_empty());
    let poll = stream.poll_read(&mut conn.state, &mut out, 8, idle_waker());
    assert_eq!(poll.outcome, ReadOutcome::ConnectionLost);
}

#[test]
fn what_the_runner_meets_while_sending_has_its_outcome() {
    let (mut client, mut server, slot, now) = pair(BufMargins { header: 0, trailer: 0 });
    let mut stream = open_bi(&mut client, slot, &mut server, now);
    let (parked, waker) = counting_waker();
    let mut out = Vec::new();
    let poll = stream.poll_read(&mut client.conns[slot].state, &mut out, 8, waker);
    assert_eq!(poll.outcome, ReadOutcome::Pending);
    let (deferred, waker) = counting_waker();
    let conn = &mut client.conns[slot];
    conn.runner.pending_wakers.push(waker);

    // The notifier sends the runner back to its pass and changes nothing.
    let step = conn.runner.on_send_event(&mut conn.state, SendEvent::Notified, now);
    assert!(matches!(step, SendStep::BackToPass));
    assert!(!conn.runner.timeout_due);
    assert_eq!(conn.state.readers.len(), 1);
    assert_eq!(conn.runner.pending_wakers.len(), 1);
    assert!(!conn.state.closed);

    // So does the timer, which is then due.
    let step = conn.runner.on_send_event(&mut conn.state, SendEvent::TimerFired, now);
    assert!(matches!(step, SendStep::BackToPass));
    assert!(conn.runner.timeout_due);
    assert_eq!(conn.state.readers.len(), 1);
    assert_eq!(conn.runner.pending_wakers.len(), 1);
    assert!(!conn.state.closed);
    assert_eq!((parked.0.load(Ordering::SeqCst), deferred.0.load(Ordering::SeqCst)), (0, 0));

    // A sink whose consumer is gone ends the runner and the connection.
    let closed = SendEvent::SinkClosed { sink: Sink::Stream };
    match conn.runner.on_send_event(&mut conn.state, closed, now) {
        SendStep::End { error: RunnerError::BrokenPipe { sink } } => assert_eq!(sink, Sink::Stream),
        _ => panic!("a closed sink is a broken pipe"),
    }
    assert!(conn.state.closed);
    assert!(conn.state.readers.is_empty() && conn.state.writers.is_empty());
    assert!(conn.runner.pending_wakers.is_empty());
    assert_eq!((parked.0.load(Ordering::SeqCst), deferred.0.load(Ordering::SeqCst)), (1, 1));
    let poll = stream.poll_read(&mut conn.state, &mut out, 8, idle_waker());
    assert_eq!(poll.outcome, ReadOutcome::ConnectionLost);

    let (mut client, mut server, slot, now) = pair(BufMargins { header: 0, trailer: 0 });
    let _ = &mut server;
    let conn = &mut client.conns[slot];
    let closed = SendEvent::SinkClosed { sink: Sink::Packet };
    match conn.runner.on_send_event(&mut conn.state, closed, now) {
        SendStep::End { error: RunnerError::BrokenPipe { sink } } => assert_eq!(sink, Sink::Packet),
        _ => panic!("a closed sink is a broken pipe"),
    }
    assert!(conn.state.closed);
}

#[test]
fn a_new_connection_starts_with_nothing_parked() {
    let margins = BufMargins { header: 0, trailer: 0 };
    let now = Instant::now();
    let mut client = node(CLIENT, false, margins);
    let mut server = node(SERVER, true, margins);
    match client.endpoint.connect(SERVER, now) {
        Ok(Connected::New { handle, state }) => {
            assert!(state.readers.is_empty() && state.writers.is_empty());
            assert!(state.tails.is_empty());
            assert!(!state.closed && !state.established);
            assert!(!state.core.server());
            client.establish(handle, SERVER, state);
        }
        _ => panic!("a first connect starts a connection"),
    }
    assert!(client.pass(now));
    let first = unwrap_margins(client.outbox.remove(0), margins);
    match server.endpoint.send(CLIENT, first, now, true) {
        Ok(Delivery::Established { state, .. }) => {
            assert!(state.readers.is_empty() && state.writers.is_empty());
            assert!(state.tails.is_empty());
            assert!(!state.closed && !state.established);
            assert!(state.core.server());
        }
        _ => panic!("the first datagram of a handshake starts a connection"),
    }
}
