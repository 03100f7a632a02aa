use vstd::prelude::*;

use crate::ident::{ClientId, ConnectionId, Height};

verus! {

/// The attributes that a connection handshake event carries.
#[derive(Debug)]
pub struct ConnectionAttributes {
    pub height: Height,
    pub connection_id: Option<ConnectionId>,
    pub client_id: ClientId,
    pub counterparty_connection_id: Option<ConnectionId>,
    pub counterparty_client_id: ClientId,
}

impl Clone for ConnectionAttributes {
    fn clone(&self) -> (r: Self)
        ensures
            r == *self,
    {
        ConnectionAttributes {
            height: self.height,
            connection_id: crate::ident::clone_connection_id(&self.connection_id),
            client_id: self.client_id.clone(),
            counterparty_connection_id: crate::ident::clone_connection_id(&self.counterparty_connection_id),
            counterparty_client_id: self.counterparty_client_id.clone(),
        }
    }
}

/// An event that a chain emits in answer to a submitted transaction.
#[derive(Debug)]
pub enum IbcEvent {
    OpenInitConnection(ConnectionAttributes),
    OpenTryConnection(ConnectionAttributes),
    OpenAckConnection(ConnectionAttributes),
    OpenConfirmConnection(ConnectionAttributes),
    /// The chain refused the transaction, for the given reason.
    ChainError(String),
    /// Any event that is not part of the connection handshake.
    Other(String),
}

impl Clone for IbcEvent {
    fn clone(&self) -> (r: Self)
        ensures
            r == *self,
    {
        match self {
            IbcEvent::OpenInitConnection(a) => IbcEvent::OpenInitConnection(a.clone()),
            IbcEvent::OpenTryConnection(a) => IbcEvent::OpenTryConnection(a.clone()),
            IbcEvent::OpenAckConnection(a) => IbcEvent::OpenAckConnection(a.clone()),
            IbcEvent::OpenConfirmConnection(a) => IbcEvent::OpenConfirmConnection(a.clone()),
            IbcEvent::ChainError(m) => IbcEvent::ChainError(m.clone()),
            IbcEvent::Other(m) => IbcEvent::Other(m.clone()),
        }
    }
}

impl IbcEvent {
    /// The attributes of a connection handshake event; none for other events.
    pub open spec fn attributes(&self) -> Option<ConnectionAttributes> {
        match self {
            IbcEvent::OpenInitConnection(a) => Some(*a),
            IbcEvent::OpenTryConnection(a) => Some(*a),
            IbcEvent::OpenAckConnection(a) => Some(*a),
            IbcEvent::OpenConfirmConnection(a) => Some(*a),
            _ => None,
        }
    }

    pub fn connection_attributes(&self) -> (r: Option<&ConnectionAttributes>)
        ensures
            r matches Some(a) ==> self.attributes() == Some(*a),
            r is None ==> self.attributes() is None,
    {
        match self {
            IbcEvent::OpenInitConnection(a) => Some(a),
            IbcEvent::OpenTryConnection(a) => Some(a),
            IbcEvent::OpenAckConnection(a) => Some(a),
            IbcEvent::OpenConfirmConnection(a) => Some(a),
            _ => None,
        }
    }
}

} // verus!
