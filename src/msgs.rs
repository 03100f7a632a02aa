use vstd::prelude::*;

use crate::ends::{ClientState, Counterparty, Proofs, Signer, Version};
use crate::ident::{ClientId, ConnectionId};

verus! {

/// A message in the encoding the chain expects, as a foreign client builds it.
#[derive(Clone, Debug)]
pub struct EncodedMsg {
    pub type_url: String,
    pub value: Vec<u8>,
}

/// Starts a connection handshake on the chain that receives it.
#[derive(Clone, Debug)]
pub struct MsgConnectionOpenInit {
    pub client_id: ClientId,
    pub counterparty: Counterparty,
    pub version: Version,
    pub delay_period: u64,
    pub signer: Signer,
}

/// Answers an initiated connection on the chain that receives it.
#[derive(Clone, Debug)]
pub struct MsgConnectionOpenTry {
    pub previous_connection_id: Option<ConnectionId>,
    pub client_id: ClientId,
    pub client_state: ClientState,
    pub counterparty: Counterparty,
    pub counterparty_versions: Vec<Version>,
    pub proofs: Proofs,
    pub delay_period: u64,
    pub signer: Signer,
}

/// Acknowledges the counterparty's answer, opening the receiving end.
#[derive(Clone, Debug)]
pub struct MsgConnectionOpenAck {
    pub connection_id: ConnectionId,
    pub counterparty_connection_id: ConnectionId,
    pub client_state: ClientState,
    pub proofs: Proofs,
    pub version: Version,
    pub signer: Signer,
}

/// Confirms that the counterparty end is open, opening the receiving end.
#[derive(Clone, Debug)]
pub struct MsgConnectionOpenConfirm {
    pub connection_id: ConnectionId,
    pub proofs: Proofs,
    pub signer: Signer,
}

/// A message that the handshake submits to a chain.
#[derive(Clone, Debug)]
pub enum ConnectionMsg {
    UpdateClient(EncodedMsg),
    OpenInit(MsgConnectionOpenInit),
    OpenTry(MsgConnectionOpenTry),
    OpenAck(MsgConnectionOpenAck),
    OpenConfirm(MsgConnectionOpenConfirm),
}

} // verus!
