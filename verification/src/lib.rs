//! A transport-agnostic client for peer sessions: typed messages are framed
//! into self-describing byte frames and handed to whichever backend the client
//! is bound to.

pub mod backend;
pub mod capability;
pub mod client;
pub mod codec;
pub mod endpoint;
pub mod error;
pub mod lz4;
pub mod mode;
pub mod peer;

pub use backend::{Backend, ConnectionInfo, NetworkingInfo};
pub use capability::ClientTrait;
pub use client::{Client, ClientType};
pub use codec::{Codec, DecodeFault, MsgType};
pub use endpoint::ClientTypeRef;
pub use error::NetFault;
pub use mode::{Mode, Operation};
pub use peer::{Compression, Message, PeerId, Reliability};
