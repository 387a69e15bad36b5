//! A driver that turns a sans-IO QUIC protocol core into byte streams with
//! backpressure: datagram assembly with caller-chosen margins, the
//! per-connection control block, and the runner's decisions.

pub mod accumulator;
pub mod bytes_model;
pub mod conn;
pub mod control;
pub mod egress;
pub mod endpoint;
pub mod ids;
pub mod keys;
pub mod margins;
pub mod monitor;
pub mod packet;
pub mod peers;
pub mod pool;
pub mod protocol;
pub mod registry;
pub mod ringbuf;
pub mod runner;
pub mod stream;
pub mod tagged;
