//! The operations of an endpoint, as an application sees them.

use crate::error::NetFault;
use crate::mode::Mode;
use crate::peer::{Compression, PeerId, Reliability};
use vstd::prelude::*;

verus! {

/// The operations that an application has on an endpoint, whether it holds
/// the client itself or the borrowed backend that a callback was handed.
///
/// An endpoint without a backend answers every call with a neutral default
/// and reports no fault.
pub trait ClientTrait {
    /// The kind of backend behind this endpoint.
    spec fn bound_to(&self) -> Mode;

    /// Frames `data` and hands the frame over for transmission to `dest`.
    fn send(
        &self,
        dest: PeerId,
        data: &[u8],
        reliability: Reliability,
        compression: Compression,
    ) -> (r: Result<(), NetFault>)
        ensures
            self.bound_to() == Mode::Unbound ==> r is Ok,
    ;

    /// Frames `data` and hands the frame over for transmission to every
    /// other peer.
    fn broadcast(&self, data: &[u8], reliability: Reliability, compression: Compression) -> (r:
        Result<(), NetFault>)
        ensures
            self.bound_to() == Mode::Unbound ==> r is Ok,
    ;

    /// Hands `data` over for transmission to `dest`, as it is.
    fn send_raw(&self, dest: PeerId, data: &[u8], reliability: Reliability) -> (r: Result<
        (),
        NetFault,
    >)
        ensures
            self.bound_to() == Mode::Unbound ==> r is Ok,
    ;

    /// Hands `data` over for transmission to every other peer, as it is.
    fn broadcast_raw(&self, data: &[u8], reliability: Reliability) -> (r: Result<(), NetFault>)
        ensures
            self.bound_to() == Mode::Unbound ==> r is Ok,
    ;

    /// The identity of this endpoint.
    fn my_id(&self) -> (r: PeerId)
        ensures
            self.bound_to() == Mode::Unbound ==> r == PeerId(0),
    ;

    /// The identity of the session's host.
    fn host_id(&self) -> (r: PeerId)
        ensures
            self.bound_to() == Mode::Unbound ==> r == PeerId(0),
    ;

    /// Whether this endpoint is the session's host.
    fn is_host(&self) -> (r: bool)
        ensures
            self.bound_to() == Mode::Unbound ==> r,
    ;

    /// How many remote peers are known.
    fn peer_len(&self) -> (r: usize)
        ensures
            self.bound_to() == Mode::Unbound ==> r == 0,
    ;

    /// Whether a session is up.
    fn is_connected(&self) -> (r: bool)
        ensures
            self.bound_to() == Mode::Unbound ==> !r,
    ;

    /// The kind of backend behind this endpoint.
    fn mode(&self) -> (m: Mode)
        ensures
            m == self.bound_to(),
    ;

    /// The name of this endpoint's user, where the backend knows names.
    fn display_name(&self) -> (r: Option<String>)
        ensures
            self.bound_to() == Mode::Unbound ==> r is None,
    ;

    /// The name of the user behind `peer`, where the backend knows names.
    fn display_name_of(&self, peer: PeerId) -> (r: Option<String>)
        ensures
            self.bound_to() == Mode::Unbound ==> r is None,
    ;
}

} // verus!
