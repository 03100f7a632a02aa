use vstd::prelude::*;

use crate::ends::{ConnectionState, Counterparty, PortChannelId};
use crate::events::IbcEvent;
use crate::ident::{ChainId, ChannelId, ClientId, ConnectionId, PortId};

verus! {

/// An error of the transport to a chain, as the chain handle reports it.
#[derive(Clone, Debug)]
pub struct RelayerError {
    pub detail: String,
}

/// An error of a foreign client operation, as the client reports it.
#[derive(Clone, Debug)]
pub struct ForeignClientError {
    pub detail: String,
}

/// Errors of the counterparty introspection procedures.
#[derive(Clone, Debug)]
pub enum SupervisorError {
    Relayer(RelayerError),
    ChannelUninitialized { port_id: PortId, channel_id: ChannelId, chain_id: ChainId },
    MissingConnectionHops { channel_id: ChannelId, chain_id: ChainId },
    ConnectionNotOpen { connection_id: ConnectionId, channel_id: ChannelId, chain_id: ChainId },
}

/// Errors of the channel end checks.
#[derive(Clone, Debug)]
pub enum ChannelError {
    Query { chain_id: ChainId, source: RelayerError },
    MismatchChannelEnds {
        chain_id: ChainId,
        port_channel_id: PortChannelId,
        expected_counterparty: PortChannelId,
        actual_counterparty: PortChannelId,
    },
    IncompleteChannelState { chain_id: ChainId, port_channel_id: PortChannelId },
}

/// Errors of the connection handshake engine.
#[derive(Clone, Debug)]
pub enum ConnectionError {
    Relayer(RelayerError),
    MissingLocalConnectionId,
    MissingCounterpartyConnectionIdField { counterparty: Counterparty },
    MissingCounterpartyConnectionId,
    ChainQuery { chain_id: ChainId, source: RelayerError },
    ConnectionQuery { connection_id: ConnectionId, source: RelayerError },
    ClientOperation { client_id: ClientId, chain_id: ChainId, source: ForeignClientError },
    Submit { chain_id: ChainId, source: RelayerError },
    /// The delay period, in nanoseconds, exceeds the largest one allowed.
    MaxDelayPeriod { delay_period: u64 },
    InvalidEvent { event: IbcEvent },
    TxResponse { event: String },
    ConnectionClientIdMismatch { client_id: ClientId, foreign_client_id: ClientId },
    ChainIdMismatch { source_chain_id: ChainId, destination_chain_id: ChainId },
    ConnectionNotOpen { state: ConnectionState },
    MaxRetry,
    Supervisor(SupervisorError),
    MissingConnectionId { chain_id: ChainId },
    Signer { chain_id: ChainId, source: RelayerError },
    MissingConnectionIdFromEvent,
    MissingConnectionInitEvent,
    MissingConnectionTryEvent,
    MissingConnectionAckEvent,
    MissingConnectionConfirmEvent,
    ConnectionProof(RelayerError),
    ConnectionAlreadyExist { connection_id: ConnectionId },
    /// A chain advertised no connection version where one was needed.
    MissingVersion { chain_id: ChainId },
}

} // verus!
