use vstd::prelude::*;

pub mod ident;
pub mod ends;
pub mod events;
pub mod msgs;
pub mod error;
pub mod handle;
pub mod counterparty;
pub mod connection;
pub mod handshake;

verus! {

/// Enumeration of the proof-carrying connection handshake messages.
#[derive(Clone, Copy, Debug, PartialEq, Eq, Structural)]
pub enum ConnectionMsgType {
    OpenTry,
    OpenAck,
    OpenConfirm,
}

} // verus!
