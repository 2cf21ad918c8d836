//! Faults that a backend reports, under one type.

use vstd::prelude::*;
use vstd::std_specs::convert::FromSpecImpl;

verus! {

/// The error of `tangled`, taken as opaque.
#[verifier::external_type_specification]
#[verifier::external_body]
pub struct ExSocketError(tangled::NetError);

/// A fault of the backend, labelled with the backend that reported it.
#[derive(Debug)]
pub enum NetFault {
    /// Reported by the direct-socket backend; its own error is carried as it
    /// came.
    Tangled(tangled::NetError),
    /// Reported by the relay backend; carried is the relay service's
    /// description of the fault.
    Steam(String),
}

impl NetFault {
    /// Whether the fault came from the direct-socket backend.
    pub fn is_socket_fault(&self) -> (r: bool)
        ensures
            r == (self is Tangled),
    {
        match self {
            NetFault::Tangled(_) => true,
            NetFault::Steam(_) => false,
        }
    }

    /// Whether the fault came from the relay backend.
    pub fn is_relay_fault(&self) -> (r: bool)
        ensures
            r == (self is Steam),
    {
        match self {
            NetFault::Tangled(_) => false,
            NetFault::Steam(_) => true,
        }
    }
}

impl From<tangled::NetError> for NetFault {
    fn from(value: tangled::NetError) -> (r: NetFault) {
        NetFault::Tangled(value)
    }
}

impl FromSpecImpl<tangled::NetError> for NetFault {
    open spec fn obeys_from_spec() -> bool {
        true
    }

    open spec fn from_spec(value: tangled::NetError) -> NetFault {
        NetFault::Tangled(value)
    }
}

} // verus!
