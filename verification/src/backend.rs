//! What a transport has to offer so that a client can be bound to it.

use crate::error::NetFault;
use crate::peer::{Message, PeerId, Reliability};
use vstd::prelude::*;

verus! {

/// What a relay measures of one connection, at the moment it is asked.
#[derive(Copy, Clone, Debug, PartialEq, Eq, Structural)]
pub struct ConnectionInfo {
    /// Round-trip time, in milliseconds.
    pub ping: i32,
    /// Estimated rate at which data can be sent, in bytes per second.
    pub send_rate_bytes_per_sec: i32,
    /// Bytes waiting to be sent unreliably.
    pub pending_unreliable: i32,
    /// Bytes waiting to be sent, or sent again, reliably.
    pub pending_reliable: i32,
    /// Bytes sent reliably and not acknowledged yet.
    pub sent_unacked_reliable: i32,
    /// How long a message handed over now would wait before it is sent, in
    /// microseconds.
    pub queue_time: i64,
}

/// Transport telemetry, one entry per connection, as the backend measured it
/// when it was asked.
pub struct NetworkingInfo(pub Vec<(PeerId, ConnectionInfo)>);

/// A transport that carries frames between the peers of one session.
///
/// The client promises nothing about what a backend answers: whatever a
/// method returns is passed on. None of the methods may block.
pub trait Backend {
    /// Hands `data` over for transmission to `dest`.
    fn send_raw(&self, dest: PeerId, data: &[u8], reliability: Reliability) -> Result<
        (),
        NetFault,
    >;

    /// Hands `data` over for transmission to every other peer of the session.
    fn broadcast_raw(&self, data: &[u8], reliability: Reliability) -> Result<(), NetFault>;

    /// The identity of this endpoint.
    fn my_id(&self) -> PeerId;

    /// The identity of the session's host. A transport without hosts answers
    /// with its own identity.
    fn host_id(&self) -> PeerId;

    /// How many remote peers are known.
    fn peer_len(&self) -> usize;

    /// Whether the session is up.
    fn is_connected(&self) -> bool;

    /// The name of this endpoint's user, where the transport knows names.
    fn display_name(&self) -> Option<String>;

    /// The name of the user behind `peer`, where the transport knows names.
    fn display_name_of(&self, peer: PeerId) -> Option<String>;

    /// Telemetry of the connections, where the transport measures any.
    fn info(&self) -> Option<NetworkingInfo>;

    /// Lets the transport make progress: accept peers, process
    /// acknowledgements, detect timeouts, flush what is queued.
    fn update(&mut self) -> Result<(), NetFault>;

    /// Takes out every frame that has arrived since the last call, oldest
    /// first.
    fn poll(&mut self) -> Vec<Message<Vec<u8>>>;
}

} // verus!
