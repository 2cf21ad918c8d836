//! A backend on loan: what the callbacks of a receive are handed, and what
//! every call of a bound client goes through.

use crate::backend::{Backend, NetworkingInfo};
use crate::capability::ClientTrait;
use crate::codec::{Codec, DecodeFault};
use crate::error::NetFault;
use crate::mode::Mode;
use crate::peer::{Compression, Message, PeerId, Reliability};
use vstd::prelude::*;

verus! {

/// A borrowed backend, as handed to the callbacks of a receive.
pub enum ClientTypeRef<'a, R, S> {
    Relay(&'a R, Codec),
    Socket(&'a S, Codec),
}

impl<'a, R, S> ClientTypeRef<'a, R, S> {
    /// The kind of backend borrowed.
    pub open spec fn kind(&self) -> Mode {
        match self {
            ClientTypeRef::Relay(_, _) => Mode::Relay,
            ClientTypeRef::Socket(_, _) => Mode::Socket,
        }
    }

    /// The framing of the backend's session.
    pub open spec fn framing(&self) -> Codec {
        match self {
            ClientTypeRef::Relay(_, codec) => *codec,
            ClientTypeRef::Socket(_, codec) => *codec,
        }
    }

    /// A second borrow of the same backend.
    pub fn reborrow(&self) -> (r: ClientTypeRef<'a, R, S>)
        ensures
            r == *self,
    {
        match self {
            ClientTypeRef::Relay(backend, codec) => ClientTypeRef::Relay(*backend, *codec),
            ClientTypeRef::Socket(backend, codec) => ClientTypeRef::Socket(*backend, *codec),
        }
    }
}

impl<'a, R: Backend, S: Backend> ClientTypeRef<'a, R, S> {
    /// Whether `r` is an answer of the backend to being handed `frame` for
    /// `dest`.
    pub open spec fn hands_over(
        &self,
        dest: PeerId,
        frame: &[u8],
        reliability: Reliability,
        r: Result<(), NetFault>,
    ) -> bool {
        match self {
            ClientTypeRef::Relay(backend, _) => call_ensures(
                R::send_raw,
                (*backend, dest, frame, reliability),
                r,
            ),
            ClientTypeRef::Socket(backend, _) => call_ensures(
                S::send_raw,
                (*backend, dest, frame, reliability),
                r,
            ),
        }
    }

    /// Whether `r` is an answer of the backend to being handed `frame` for
    /// every other peer.
    pub open spec fn hands_out(
        &self,
        frame: &[u8],
        reliability: Reliability,
        r: Result<(), NetFault>,
    ) -> bool {
        match self {
            ClientTypeRef::Relay(backend, _) => call_ensures(
                R::broadcast_raw,
                (*backend, frame, reliability),
                r,
            ),
            ClientTypeRef::Socket(backend, _) => call_ensures(
                S::broadcast_raw,
                (*backend, frame, reliability),
                r,
            ),
        }
    }

    /// Whether `r` is an answer of the backend to being handed, for `dest`,
    /// a frame of `payload`.
    pub open spec fn sends(
        &self,
        dest: PeerId,
        payload: Seq<u8>,
        reliability: Reliability,
        compression: Compression,
        r: Result<(), NetFault>,
    ) -> bool {
        exists|frame: &[u8]|
            self.framing().frames(payload, compression, frame@) && #[trigger] self.hands_over(
                dest,
                frame,
                reliability,
                r,
            )
    }

    /// Whether `r` is an answer of the backend to being handed, for every
    /// other peer, a frame of `payload`.
    pub open spec fn broadcasts(
        &self,
        payload: Seq<u8>,
        reliability: Reliability,
        compression: Compression,
        r: Result<(), NetFault>,
    ) -> bool {
        exists|frame: &[u8]|
            self.framing().frames(payload, compression, frame@) && #[trigger] self.hands_out(
                frame,
                reliability,
                r,
            )
    }

    /// Whether `id` is an answer of the backend to being asked who it is.
    pub open spec fn names_itself(&self, id: PeerId) -> bool {
        match self {
            ClientTypeRef::Relay(backend, _) => call_ensures(R::my_id, (*backend,), id),
            ClientTypeRef::Socket(backend, _) => call_ensures(S::my_id, (*backend,), id),
        }
    }

    /// Whether `id` is an answer of the backend to being asked for the host.
    pub open spec fn names_host(&self, id: PeerId) -> bool {
        match self {
            ClientTypeRef::Relay(backend, _) => call_ensures(R::host_id, (*backend,), id),
            ClientTypeRef::Socket(backend, _) => call_ensures(S::host_id, (*backend,), id),
        }
    }

    /// Whether `n` is an answer of the backend to being asked for the number
    /// of its peers.
    pub open spec fn counts_peers(&self, n: usize) -> bool {
        match self {
            ClientTypeRef::Relay(backend, _) => call_ensures(R::peer_len, (*backend,), n),
            ClientTypeRef::Socket(backend, _) => call_ensures(S::peer_len, (*backend,), n),
        }
    }

    /// Whether `up` is an answer of the backend to being asked whether the
    /// session is up.
    pub open spec fn reports_connected(&self, up: bool) -> bool {
        match self {
            ClientTypeRef::Relay(backend, _) => call_ensures(R::is_connected, (*backend,), up),
            ClientTypeRef::Socket(backend, _) => call_ensures(S::is_connected, (*backend,), up),
        }
    }

    /// Whether `name` is an answer of the backend to being asked for the
    /// local user's name.
    pub open spec fn names_user(&self, name: Option<String>) -> bool {
        match self {
            ClientTypeRef::Relay(backend, _) => call_ensures(R::display_name, (*backend,), name),
            ClientTypeRef::Socket(backend, _) => call_ensures(S::display_name, (*backend,), name),
        }
    }

    /// Whether `name` is an answer of the backend to being asked for the
    /// name of the user behind `peer`.
    pub open spec fn names_user_of(&self, peer: PeerId, name: Option<String>) -> bool {
        match self {
            ClientTypeRef::Relay(backend, _) => call_ensures(
                R::display_name_of,
                (*backend, peer),
                name,
            ),
            ClientTypeRef::Socket(backend, _) => call_ensures(
                S::display_name_of,
                (*backend, peer),
                name,
            ),
        }
    }

    /// Whether `info` is an answer of the backend to being asked for its
    /// telemetry.
    pub open spec fn measures(&self, info: Option<NetworkingInfo>) -> bool {
        match self {
            ClientTypeRef::Relay(backend, _) => call_ensures(R::info, (*backend,), info),
            ClientTypeRef::Socket(backend, _) => call_ensures(S::info, (*backend,), info),
        }
    }

    /// The framing of the backend's session.
    pub fn codec(&self) -> (c: Codec)
        ensures
            c == self.framing(),
    {
        match self {
            ClientTypeRef::Relay(_, codec) => *codec,
            ClientTypeRef::Socket(_, codec) => *codec,
        }
    }

    /// Telemetry of the backend's connections, where it measures any.
    pub fn info(&self) -> (r: Option<NetworkingInfo>)
        ensures
            self.measures(r),
    {
        match self {
            ClientTypeRef::Relay(backend, _) => backend.info(),
            ClientTypeRef::Socket(backend, _) => backend.info(),
        }
    }
}

impl<'a, R: Backend, S: Backend> ClientTrait for ClientTypeRef<'a, R, S> {
    open spec fn bound_to(&self) -> Mode {
        self.kind()
    }

    fn send(
        &self,
        dest: PeerId,
        data: &[u8],
        reliability: Reliability,
        compression: Compression,
    ) -> (r: Result<(), NetFault>)
        ensures
            self.sends(dest, data@, reliability, compression, r),
    {
        let frame = self.codec().pack(data, compression);
        self.send_raw(dest, frame.as_slice(), reliability)
    }

    fn broadcast(&self, data: &[u8], reliability: Reliability, compression: Compression) -> (r:
        Result<(), NetFault>)
        ensures
            self.broadcasts(data@, reliability, compression, r),
    {
        let frame = self.codec().pack(data, compression);
        self.broadcast_raw(frame.as_slice(), reliability)
    }

    fn send_raw(&self, dest: PeerId, data: &[u8], reliability: Reliability) -> (r: Result<
        (),
        NetFault,
    >)
        ensures
            self.hands_over(dest, data, reliability, r),
    {
        match self {
            ClientTypeRef::Relay(backend, _) => backend.send_raw(dest, data, reliability),
            ClientTypeRef::Socket(backend, _) => backend.send_raw(dest, data, reliability),
        }
    }

    fn broadcast_raw(&self, data: &[u8], reliability: Reliability) -> (r: Result<(), NetFault>)
        ensures
            self.hands_out(data, reliability, r),
    {
        match self {
            ClientTypeRef::Relay(backend, _) => backend.broadcast_raw(data, reliability),
            ClientTypeRef::Socket(backend, _) => backend.broadcast_raw(data, reliability),
        }
    }

    fn my_id(&self) -> (r: PeerId)
        ensures
            self.names_itself(r),
    {
        match self {
            ClientTypeRef::Relay(backend, _) => backend.my_id(),
            ClientTypeRef::Socket(backend, _) => backend.my_id(),
        }
    }

    fn host_id(&self) -> (r: PeerId)
        ensures
            self.names_host(r),
    {
        match self {
            ClientTypeRef::Relay(backend, _) => backend.host_id(),
            ClientTypeRef::Socket(backend, _) => backend.host_id(),
        }
    }

    fn is_host(&self) -> (r: bool)
        ensures
            exists|me: PeerId, host: PeerId|
                #[trigger] self.names_itself(me) && #[trigger] self.names_host(host) && r == (me
                    == host),
    {
        let me = self.my_id();
        let host = self.host_id();
        me == host
    }

    fn peer_len(&self) -> (r: usize)
        ensures
            self.counts_peers(r),
    {
        match self {
            ClientTypeRef::Relay(backend, _) => backend.peer_len(),
            ClientTypeRef::Socket(backend, _) => backend.peer_len(),
        }
    }

    fn is_connected(&self) -> (r: bool)
        ensures
            self.reports_connected(r),
    {
        match self {
            ClientTypeRef::Relay(backend, _) => backend.is_connected(),
            ClientTypeRef::Socket(backend, _) => backend.is_connected(),
        }
    }

    fn mode(&self) -> (m: Mode)
        ensures
            m == self.kind(),
    {
        match self {
            ClientTypeRef::Relay(_, _) => Mode::Relay,
            ClientTypeRef::Socket(_, _) => Mode::Socket,
        }
    }

    fn display_name(&self) -> (r: Option<String>)
        ensures
            self.names_user(r),
    {
        match self {
            ClientTypeRef::Relay(backend, _) => backend.display_name(),
            ClientTypeRef::Socket(backend, _) => backend.display_name(),
        }
    }

    fn display_name_of(&self, peer: PeerId) -> (r: Option<String>)
        ensures
            self.names_user_of(peer, r),
    {
        match self {
            ClientTypeRef::Relay(backend, _) => backend.display_name_of(peer),
            ClientTypeRef::Socket(backend, _) => backend.display_name_of(peer),
        }
    }
}

/// The faults among `outcomes`, each with the sender of the item that it
/// belongs to, in the order of the items.
pub open spec fn reported(items: Seq<Message<Vec<u8>>>, outcomes: Seq<Option<DecodeFault>>) -> Seq<
    Message<DecodeFault>,
>
    decreases outcomes.len(),
{
    if outcomes.len() == 0 || items.len() != outcomes.len() {
        Seq::empty()
    } else {
        let earlier = reported(items.drop_last(), outcomes.drop_last());
        match outcomes.last() {
            None => earlier,
            Some(fault) => earlier.push(Message { src: items.last().src, data: fault }),
        }
    }
}

impl<'a, R: Backend, S: Backend> ClientTypeRef<'a, R, S> {
    /// Whether the callback `f` has been handed `item` as it came, with this
    /// backend beside it.
    pub open spec fn handed<F>(&self, item: Message<Vec<u8>>, f: F) -> bool where
        F: FnMut(ClientTypeRef<'a, R, S>, Message<&[u8]>),
    {
        exists|bytes: &[u8]|
            bytes@ == item.data@ && #[trigger] call_ensures(
                f,
                (*self, Message { src: item.src, data: bytes }),
                (),
            )
    }

    /// Whether receiving `item` may end in `outcome`: in the fault that its
    /// frame has; in `Malformed` where `decode` refuses the payload of the
    /// frame; or in no fault, the callback `f` having been handed the value
    /// that `decode` made of the payload.
    pub open spec fn received<T, D, F>(
        &self,
        item: Message<Vec<u8>>,
        decode: D,
        f: F,
        outcome: Option<DecodeFault>,
    ) -> bool where D: Fn(&[u8]) -> Option<T>, F: FnMut(ClientTypeRef<'a, R, S>, Message<T>) {
        match self.framing().decoded(item.data@) {
            Err(fault) => outcome == Some(fault),
            Ok(payload) => exists|bytes: &[u8], value: Option<T>|
                bytes@ == payload && #[trigger] call_ensures(decode, (bytes,), value) && match value {
                    None => outcome == Some(DecodeFault::Malformed),
                    Some(v) => outcome is None && call_ensures(
                        f,
                        (*self, Message { src: item.src, data: v }),
                        (),
                    ),
                },
        }
    }

    /// Hands every item to the callback as it came, in the order of `items`.
    pub fn deliver_raw<F>(&self, items: &Vec<Message<Vec<u8>>>, f: F) where
        F: FnMut(ClientTypeRef<'a, R, S>, Message<&[u8]>),

        requires
            forall|endpoint: ClientTypeRef<'a, R, S>, message: Message<&[u8]>|
                call_requires(f, (endpoint, message)),
        ensures
            forall|i: int| 0 <= i < items@.len() ==> self.handed(#[trigger] items@[i], f),
    {
        let mut f = f;
        let ghost callback = f;
        let mut i: usize = 0;
        while i < items.len()
            invariant
                i <= items@.len(),
                f == callback,
                forall|endpoint: ClientTypeRef<'a, R, S>, message: Message<&[u8]>|
                    call_requires(f, (endpoint, message)),
                forall|j: int| 0 <= j < i ==> self.handed(#[trigger] items@[j], callback),
            decreases items@.len() - i,
        {
            let message = Message { src: items[i].src, data: items[i].data.as_slice() };
            f(self.reborrow(), message);
            i += 1;
        }
    }

    /// Takes every item through the codec and `decode`, and hands each value
    /// to the callback, in the order of `items`. An item that cannot be read
    /// is left out and reported; the items after it are handled all the same.
    pub fn deliver<T, D, F>(&self, items: &Vec<Message<Vec<u8>>>, decode: D, f: F) -> (faults: Vec<
        Message<DecodeFault>,
    >) where D: Fn(&[u8]) -> Option<T>, F: FnMut(ClientTypeRef<'a, R, S>, Message<T>)
        requires
            forall|bytes: &[u8]| call_requires(decode, (bytes,)),
            forall|endpoint: ClientTypeRef<'a, R, S>, message: Message<T>|
                call_requires(f, (endpoint, message)),
        ensures
            exists|outcomes: Seq<Option<DecodeFault>>|
                {
                    &&& outcomes.len() == items@.len()
                    &&& forall|i: int|
                        0 <= i < items@.len() ==> self.received(
                            #[trigger] items@[i],
                            decode,
                            f,
                            outcomes[i],
                        )
                    &&& faults@ == reported(items@, outcomes)
                },
    {
        let mut f = f;
        let ghost callback = f;
        let ghost mut outcomes: Seq<Option<DecodeFault>> = Seq::empty();
        let mut faults: Vec<Message<DecodeFault>> = Vec::new();
        let mut i: usize = 0;
        while i < items.len()
            invariant
                i <= items@.len(),
                f == callback,
                forall|bytes: &[u8]| call_requires(decode, (bytes,)),
                forall|endpoint: ClientTypeRef<'a, R, S>, message: Message<T>|
                    call_requires(f, (endpoint, message)),
                outcomes.len() == i,
                forall|j: int|
                    0 <= j < i ==> self.received(#[trigger] items@[j], decode, callback, outcomes[j]),
                faults@ == reported(items@.take(i as int), outcomes),
            decreases items@.len() - i,
        {
            let src = items[i].src;
            let ghost before = outcomes;
            match self.codec().unpack(items[i].data.as_slice()) {
                Err(fault) => {
                    faults.push(Message { src, data: fault });
                    proof {
                        outcomes = outcomes.push(Some(fault));
                    }
                },
                Ok(payload) => {
                    match decode(payload.as_slice()) {
                        None => {
                            faults.push(Message { src, data: DecodeFault::Malformed });
                            proof {
                                outcomes = outcomes.push(Some(DecodeFault::Malformed));
                            }
                        },
                        Some(value) => {
                            f(self.reborrow(), Message { src, data: value });
                            proof {
                                outcomes = outcomes.push(None);
                            }
                        },
                    }
                },
            }
            proof {
                assert(items@.take(i + 1).drop_last() == items@.take(i as int));
                assert(outcomes.drop_last() == before);
            }
            i += 1;
        }
        proof {
            assert(items@.take(i as int) == items@);
        }
        faults
    }
}

} // verus!
