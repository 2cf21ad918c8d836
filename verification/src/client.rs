//! The client: at most one backend, and every call forwarded to it.

use crate::backend::{Backend, NetworkingInfo};
use crate::capability::ClientTrait;
use crate::codec::{Codec, DecodeFault};
use crate::endpoint::{reported, ClientTypeRef};
use crate::error::NetFault;
use crate::mode::{mode_after, Mode, Operation};
use crate::peer::{Compression, Message, PeerId, Reliability};
use vstd::prelude::*;

verus! {

/// The backend of a client, together with the framing that its session
/// uses.
pub enum ClientType<R, S> {
    Unbound,
    Relay(Box<R>, Codec),
    Socket(S, Codec),
}

impl<R, S> ClientType<R, S> {
    /// The kind of backend held.
    pub open spec fn kind(&self) -> Mode {
        match self {
            ClientType::Unbound => Mode::Unbound,
            ClientType::Relay(_, _) => Mode::Relay,
            ClientType::Socket(_, _) => Mode::Socket,
        }
    }

    /// The backend, borrowed; `None` where there is none.
    pub fn borrow(&self) -> (r: Option<ClientTypeRef<'_, R, S>>)
        ensures
            r == self.lent(),
    {
        match self {
            ClientType::Unbound => None,
            ClientType::Relay(backend, codec) => Some(ClientTypeRef::Relay(&**backend, *codec)),
            ClientType::Socket(backend, codec) => Some(ClientTypeRef::Socket(backend, *codec)),
        }
    }

    /// What [`ClientType::borrow`] gives.
    pub open spec fn lent(&self) -> Option<ClientTypeRef<'_, R, S>> {
        match self {
            ClientType::Unbound => None,
            ClientType::Relay(backend, codec) => Some(ClientTypeRef::Relay(&**backend, *codec)),
            ClientType::Socket(backend, codec) => Some(ClientTypeRef::Socket(backend, *codec)),
        }
    }
}

impl<R: Backend, S: Backend> ClientType<R, S> {
    /// Telemetry of the backend's connections; none without a backend.
    pub fn info(&self) -> (r: Option<NetworkingInfo>)
        ensures
            match self.lent() {
                None => r is None,
                Some(backend) => backend.measures(r),
            },
    {
        match self.borrow() {
            None => None,
            Some(backend) => backend.info(),
        }
    }

    /// Lets the backend make progress. Whatever it reports, the backend
    /// stays where it is.
    pub fn update(&mut self) -> (r: Result<(), NetFault>)
        ensures
            final(self).kind() == old(self).kind(),
            match *old(self) {
                ClientType::Unbound => r is Ok,
                ClientType::Relay(before, codec) => *final(self) matches ClientType::Relay(
                    after,
                    kept,
                ) && kept == codec && exists|backend: &mut R|
                    *backend == *before && *final(backend) == *after && call_ensures(
                        R::update,
                        (backend,),
                        r,
                    ),
                ClientType::Socket(before, codec) => *final(self) matches ClientType::Socket(
                    after,
                    kept,
                ) && kept == codec && exists|backend: &mut S|
                    *backend == before && *final(backend) == after && call_ensures(
                        S::update,
                        (backend,),
                        r,
                    ),
            },
    {
        match self {
            ClientType::Unbound => Ok(()),
            ClientType::Relay(backend, _) => {
                let inner: &mut R = &mut **backend;
                inner.update()
            },
            ClientType::Socket(backend, _) => backend.update(),
        }
    }

    /// Takes out of the backend every frame that has arrived; nothing
    /// without a backend.
    pub fn poll(&mut self) -> (items: Vec<Message<Vec<u8>>>)
        ensures
            final(self).kind() == old(self).kind(),
            match *old(self) {
                ClientType::Unbound => items@.len() == 0,
                ClientType::Relay(before, codec) => *final(self) matches ClientType::Relay(
                    after,
                    kept,
                ) && kept == codec && exists|backend: &mut R|
                    *backend == *before && *final(backend) == *after && call_ensures(
                        R::poll,
                        (backend,),
                        items,
                    ),
                ClientType::Socket(before, codec) => *final(self) matches ClientType::Socket(
                    after,
                    kept,
                ) && kept == codec && exists|backend: &mut S|
                    *backend == before && *final(backend) == after && call_ensures(
                        S::poll,
                        (backend,),
                        items,
                    ),
            },
    {
        match self {
            ClientType::Unbound => Vec::new(),
            ClientType::Relay(backend, _) => {
                let inner: &mut R = &mut **backend;
                inner.poll()
            },
            ClientType::Socket(backend, _) => backend.poll(),
        }
    }
}

impl<R: Backend, S: Backend> ClientTrait for ClientType<R, S> {
    open spec fn bound_to(&self) -> Mode {
        self.kind()
    }

    fn send(
        &self,
        dest: PeerId,
        data: &[u8],
        reliability: Reliability,
        compression: Compression,
    ) -> (r: Result<(), NetFault>)
        ensures
            match self.lent() {
                None => r is Ok,
                Some(backend) => backend.sends(dest, data@, reliability, compression, r),
            },
    {
        match self.borrow() {
            None => Ok(()),
            Some(backend) => backend.send(dest, data, reliability, compression),
        }
    }

    fn broadcast(&self, data: &[u8], reliability: Reliability, compression: Compression) -> (r:
        Result<(), NetFault>)
        ensures
            match self.lent() {
                None => r is Ok,
                Some(backend) => backend.broadcasts(data@, reliability, compression, r),
            },
    {
        match self.borrow() {
            None => Ok(()),
            Some(backend) => backend.broadcast(data, reliability, compression),
        }
    }

    fn send_raw(&self, dest: PeerId, data: &[u8], reliability: Reliability) -> (r: Result<
        (),
        NetFault,
    >)
        ensures
            match self.lent() {
                None => r is Ok,
                Some(backend) => backend.hands_over(dest, data, reliability, r),
            },
    {
        match self.borrow() {
            None => Ok(()),
            Some(backend) => backend.send_raw(dest, data, reliability),
        }
    }

    fn broadcast_raw(&self, data: &[u8], reliability: Reliability) -> (r: Result<(), NetFault>)
        ensures
            match self.lent() {
                None => r is Ok,
                Some(backend) => backend.hands_out(data, reliability, r),
            },
    {
        match self.borrow() {
            None => Ok(()),
            Some(backend) => backend.broadcast_raw(data, reliability),
        }
    }

    fn my_id(&self) -> (r: PeerId)
        ensures
            match self.lent() {
                None => r == PeerId(0),
                Some(backend) => backend.names_itself(r),
            },
    {
        match self.borrow() {
            None => PeerId(0),
            Some(backend) => backend.my_id(),
        }
    }

    fn host_id(&self) -> (r: PeerId)
        ensures
            match self.lent() {
                None => r == PeerId(0),
                Some(backend) => backend.names_host(r),
            },
    {
        match self.borrow() {
            None => PeerId(0),
            Some(backend) => backend.host_id(),
        }
    }

    fn is_host(&self) -> (r: bool)
        ensures
            match self.lent() {
                None => r,
                Some(backend) => exists|me: PeerId, host: PeerId|
                    #[trigger] backend.names_itself(me) && #[trigger] backend.names_host(host)
                        && r == (me == host),
            },
    {
        match self.borrow() {
            None => true,
            Some(backend) => backend.is_host(),
        }
    }

    fn peer_len(&self) -> (r: usize)
        ensures
            match self.lent() {
                None => r == 0,
                Some(backend) => backend.counts_peers(r),
            },
    {
        match self.borrow() {
            None => 0,
            Some(backend) => backend.peer_len(),
        }
    }

    fn is_connected(&self) -> (r: bool)
        ensures
            match self.lent() {
                None => !r,
                Some(backend) => backend.reports_connected(r),
            },
    {
        match self.borrow() {
            None => false,
            Some(backend) => backend.is_connected(),
        }
    }

    fn mode(&self) -> (m: Mode)
        ensures
            m == self.kind(),
    {
        match self {
            ClientType::Unbound => Mode::Unbound,
            ClientType::Relay(_, _) => Mode::Relay,
            ClientType::Socket(_, _) => Mode::Socket,
        }
    }

    fn display_name(&self) -> (r: Option<String>)
        ensures
            match self.lent() {
                None => r is None,
                Some(backend) => backend.names_user(r),
            },
    {
        match self.borrow() {
            None => None,
            Some(backend) => backend.display_name(),
        }
    }

    fn display_name_of(&self, peer: PeerId) -> (r: Option<String>)
        ensures
            match self.lent() {
                None => r is None,
                Some(backend) => backend.names_user_of(peer, r),
            },
    {
        match self.borrow() {
            None => None,
            Some(backend) => backend.display_name_of(peer),
        }
    }
}

/// The client that an application talks to.
pub struct Client<R, S> {
    client: ClientType<R, S>,
    app_id: u32,
}

impl<R, S> Client<R, S> {
    /// The backend held, if any.
    pub closed spec fn state(&self) -> ClientType<R, S> {
        self.client
    }

    /// The application identifier that the client was made with.
    pub closed spec fn app(&self) -> u32 {
        self.app_id
    }

    /// A client that is bound to nothing.
    pub fn new(app_id: u32) -> (c: Client<R, S>)
        ensures
            c.state() is Unbound,
            c.app() == app_id,
    {
        Client { client: ClientType::Unbound, app_id }
    }

    /// The application identifier that the client was made with.
    pub fn app_id(&self) -> (r: u32)
        ensures
            r == self.app(),
    {
        self.app_id
    }
}

impl<R: Backend, S: Backend> Client<R, S> {
    /// Binds the client to a relay backend whose session uses the framing
    /// `codec`. A client that is bound already stays as it is, and hands the
    /// backend back.
    pub fn bind_relay(&mut self, backend: R, codec: Codec) -> (r: Result<(), R>)
        ensures
            final(self).app() == old(self).app(),
            final(self).state().kind() == mode_after(
                old(self).state().kind(),
                Operation::BindRelay,
            ),
            match r {
                Ok(_) => old(self).state() is Unbound && final(self).state() == ClientType::<
                    R,
                    S,
                >::Relay(Box::new(backend), codec),
                Err(rejected) => !(old(self).state() is Unbound) && rejected == backend
                    && final(self).state() == old(self).state(),
            },
    {
        match self.client {
            ClientType::Unbound => {
                self.client = ClientType::Relay(Box::new(backend), codec);
                Ok(())
            },
            _ => Err(backend),
        }
    }

    /// Binds the client to a socket backend whose session uses the framing
    /// `codec`. A client that is bound already stays as it is, and hands the
    /// backend back.
    pub fn bind_socket(&mut self, backend: S, codec: Codec) -> (r: Result<(), S>)
        ensures
            final(self).app() == old(self).app(),
            final(self).state().kind() == mode_after(
                old(self).state().kind(),
                Operation::BindSocket,
            ),
            match r {
                Ok(_) => old(self).state() is Unbound && final(self).state() == ClientType::<
                    R,
                    S,
                >::Socket(backend, codec),
                Err(rejected) => !(old(self).state() is Unbound) && rejected == backend
                    && final(self).state() == old(self).state(),
            },
    {
        match self.client {
            ClientType::Unbound => {
                self.client = ClientType::Socket(backend, codec);
                Ok(())
            },
            _ => Err(backend),
        }
    }

    /// Lets the backend make progress. A fault that it reports is passed on;
    /// the client stays bound to the backend all the same.
    pub fn update(&mut self) -> (r: Result<(), NetFault>)
        ensures
            final(self).app() == old(self).app(),
            final(self).state().kind() == mode_after(old(self).state().kind(), Operation::Update),
            match old(self).state() {
                ClientType::Unbound => r is Ok,
                ClientType::Relay(before, codec) => final(self).state() matches ClientType::Relay(
                    after,
                    kept,
                ) && kept == codec && exists|backend: &mut R|
                    *backend == *before && *final(backend) == *after && call_ensures(
                        R::update,
                        (backend,),
                        r,
                    ),
                ClientType::Socket(before, codec) => final(self).state() matches ClientType::Socket(
                    after,
                    kept,
                ) && kept == codec && exists|backend: &mut S|
                    *backend == before && *final(backend) == after && call_ensures(
                        S::update,
                        (backend,),
                        r,
                    ),
            },
    {
        self.client.update()
    }

    /// Telemetry of the backend's connections; none where the client is
    /// unbound or the backend measures nothing.
    pub fn info(&self) -> (r: Option<NetworkingInfo>)
        ensures
            match self.state().lent() {
                None => r is None,
                Some(backend) => backend.measures(r),
            },
    {
        self.client.info()
    }

    /// Takes every frame that the backend has buffered and hands each to
    /// `f` as it came, oldest first, together with the backend.
    pub fn recv_raw<F>(&mut self, f: F) where F: FnMut(ClientTypeRef<'_, R, S>, Message<&[u8]>)
        requires
            forall|endpoint: ClientTypeRef<'_, R, S>, message: Message<&[u8]>|
                call_requires(f, (endpoint, message)),
        ensures
            final(self).app() == old(self).app(),
            final(self).state().kind() == mode_after(old(self).state().kind(), Operation::RecvRaw),
            match old(self).state() {
                ClientType::Unbound => final(self).state() is Unbound,
                ClientType::Relay(before, codec) => final(self).state() matches ClientType::Relay(
                    after,
                    kept,
                ) && kept == codec && exists|backend: &mut R, items: Vec<Message<Vec<u8>>>|
                    {
                        &&& *backend == *before && *final(backend) == *after
                        &&& call_ensures(R::poll, (backend,), items)
                        &&& forall|i: int|
                            0 <= i < items@.len() ==> ClientTypeRef::<R, S>::Relay(
                                &*after,
                                codec,
                            ).handed(#[trigger] items@[i], f)
                    },
                ClientType::Socket(before, codec) => final(self).state() matches ClientType::Socket(
                    after,
                    kept,
                ) && kept == codec && exists|backend: &mut S, items: Vec<Message<Vec<u8>>>|
                    {
                        &&& *backend == before && *final(backend) == after
                        &&& call_ensures(S::poll, (backend,), items)
                        &&& forall|i: int|
                            0 <= i < items@.len() ==> ClientTypeRef::<R, S>::Socket(
                                &after,
                                codec,
                            ).handed(#[trigger] items@[i], f)
                    },
            },
    {
        let items = self.client.poll();
        match self.client.borrow() {
            None => {},
            Some(backend) => backend.deliver_raw(&items, f),
        }
    }

    /// Takes every frame that the backend has buffered, reads the payload
    /// out of each, turns it into a value with `decode` and hands the value
    /// to `f`, oldest first, together with the backend. Frames and payloads
    /// that cannot be read are reported, each with its sender.
    pub fn recv<T, D, F>(&mut self, decode: D, f: F) -> (faults: Vec<Message<DecodeFault>>) where
        D: Fn(&[u8]) -> Option<T>,
        F: FnMut(ClientTypeRef<'_, R, S>, Message<T>),

        requires
            forall|bytes: &[u8]| call_requires(decode, (bytes,)),
            forall|endpoint: ClientTypeRef<'_, R, S>, message: Message<T>|
                call_requires(f, (endpoint, message)),
        ensures
            final(self).app() == old(self).app(),
            final(self).state().kind() == mode_after(old(self).state().kind(), Operation::Recv),
            match old(self).state() {
                ClientType::Unbound => faults@.len() == 0,
                ClientType::Relay(before, codec) => final(self).state() matches ClientType::Relay(
                    after,
                    kept,
                ) && kept == codec && exists|
                    backend: &mut R,
                    items: Vec<Message<Vec<u8>>>,
                    outcomes: Seq<Option<DecodeFault>>,
                |
                    {
                        &&& *backend == *before && *final(backend) == *after
                        &&& call_ensures(R::poll, (backend,), items)
                        &&& outcomes.len() == items@.len()
                        &&& forall|i: int|
                            0 <= i < items@.len() ==> ClientTypeRef::<R, S>::Relay(
                                &*after,
                                codec,
                            ).received(#[trigger] items@[i], decode, f, outcomes[i])
                        &&& faults@ == reported(items@, outcomes)
                    },
                ClientType::Socket(before, codec) => final(self).state() matches ClientType::Socket(
                    after,
                    kept,
                ) && kept == codec && exists|
                    backend: &mut S,
                    items: Vec<Message<Vec<u8>>>,
                    outcomes: Seq<Option<DecodeFault>>,
                |
                    {
                        &&& *backend == before && *final(backend) == after
                        &&& call_ensures(S::poll, (backend,), items)
                        &&& outcomes.len() == items@.len()
                        &&& forall|i: int|
                            0 <= i < items@.len() ==> ClientTypeRef::<R, S>::Socket(
                                &after,
                                codec,
                            ).received(#[trigger] items@[i], decode, f, outcomes[i])
                        &&& faults@ == reported(items@, outcomes)
                    },
            },
    {
        let items = self.client.poll();
        match self.client.borrow() {
            None => Vec::new(),
            Some(backend) => backend.deliver(&items, decode, f),
        }
    }
}

impl<R: Backend, S: Backend> ClientTrait for Client<R, S> {
    open spec fn bound_to(&self) -> Mode {
        self.state().kind()
    }

    fn send(
        &self,
        dest: PeerId,
        data: &[u8],
        reliability: Reliability,
        compression: Compression,
    ) -> (r: Result<(), NetFault>)
        ensures
            match self.state().lent() {
                None => r is Ok,
                Some(backend) => backend.sends(dest, data@, reliability, compression, r),
            },
    {
        self.client.send(dest, data, reliability, compression)
    }

    fn broadcast(&self, data: &[u8], reliability: Reliability, compression: Compression) -> (r:
        Result<(), NetFault>)
        ensures
            match self.state().lent() {
                None => r is Ok,
                Some(backend) => backend.broadcasts(data@, reliability, compression, r),
            },
    {
        self.client.broadcast(data, reliability, compression)
    }

    fn send_raw(&self, dest: PeerId, data: &[u8], reliability: Reliability) -> (r: Result<
        (),
        NetFault,
    >)
        ensures
            match self.state().lent() {
                None => r is Ok,
                Some(backend) => backend.hands_over(dest, data, reliability, r),
            },
    {
        self.client.send_raw(dest, data, reliability)
    }

    fn broadcast_raw(&self, data: &[u8], reliability: Reliability) -> (r: Result<(), NetFault>)
        ensures
            match self.state().lent() {
                None => r is Ok,
                Some(backend) => backend.hands_out(data, reliability, r),
            },
    {
        self.client.broadcast_raw(data, reliability)
    }

    fn my_id(&self) -> (r: PeerId)
        ensures
            match self.state().lent() {
                None => r == PeerId(0),
                Some(backend) => backend.names_itself(r),
            },
    {
        self.client.my_id()
    }

    fn host_id(&self) -> (r: PeerId)
        ensures
            match self.state().lent() {
                None => r == PeerId(0),
                Some(backend) => backend.names_host(r),
            },
    {
        self.client.host_id()
    }

    fn is_host(&self) -> (r: bool)
        ensures
            match self.state().lent() {
                None => r,
                Some(backend) => exists|me: PeerId, host: PeerId|
                    #[trigger] backend.names_itself(me) && #[trigger] backend.names_host(host)
                        && r == (me == host),
            },
    {
        self.client.is_host()
    }

    fn peer_len(&self) -> (r: usize)
        ensures
            match self.state().lent() {
                None => r == 0,
                Some(backend) => backend.counts_peers(r),
            },
    {
        self.client.peer_len()
    }

    fn is_connected(&self) -> (r: bool)
        ensures
            match self.state().lent() {
                None => !r,
                Some(backend) => backend.reports_connected(r),
            },
    {
        self.client.is_connected()
    }

    fn mode(&self) -> (m: Mode)
        ensures
            m == self.state().kind(),
    {
        self.client.mode()
    }

    fn display_name(&self) -> (r: Option<String>)
        ensures
            match self.state().lent() {
                None => r is None,
                Some(backend) => backend.names_user(r),
            },
    {
        self.client.display_name()
    }

    fn display_name_of(&self, peer: PeerId) -> (r: Option<String>)
        ensures
            match self.state().lent() {
                None => r is None,
                Some(backend) => backend.names_user_of(peer, r),
            },
    {
        self.client.display_name_of(peer)
    }
}

} // verus!
