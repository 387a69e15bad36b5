//! Datagrams as they leave the library.

use bytes::BytesMut;
use quinn_proto::Transmit;
use vstd::prelude::*;

verus! {

/// An outbound datagram: the core's record of where it goes, and the bytes
/// with the configured margins around them.
pub struct QuicPacket {
    pub transmit: Transmit,
    pub payload: BytesMut,
}

} // verus!
