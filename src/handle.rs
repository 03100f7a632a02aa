use vstd::prelude::*;

use crate::ends::{
    ChannelEnd, ClientState, CommitmentPrefix, ConnectionEnd, IdentifiedChannelEnd,
    IdentifiedConnectionEnd, Proofs, Signer, Version,
};
use crate::error::{ForeignClientError, RelayerError};
use crate::events::IbcEvent;
use crate::ident::{ChainId, ChannelId, ClientId, ConnectionId, Height, PortId};
use crate::msgs::{ConnectionMsg, EncodedMsg};
use crate::ConnectionMsgType;

verus! {

/// A handle on a remote chain. Every query answers with what the chain holds when it
/// is asked, which may change from one call to the next: nothing is assumed of the
/// answers.
pub trait ChainHandle: Clone {
    /// The identifier of the chain behind this handle.
    fn id(&self) -> ChainId;

    fn query_latest_height(&self) -> Result<Height, RelayerError>;

    fn query_commitment_prefix(&self) -> Result<CommitmentPrefix, RelayerError>;

    fn query_compatible_versions(&self) -> Result<Vec<Version>, RelayerError>;

    fn query_connection(&self, connection_id: &ConnectionId, height: Height) -> Result<
        ConnectionEnd,
        RelayerError,
    >;

    fn query_client_state(&self, client_id: &ClientId, height: Height) -> Result<
        ClientState,
        RelayerError,
    >;

    /// The identifiers of the connections that use the client `client_id`.
    fn query_client_connections(&self, client_id: &ClientId) -> Result<
        Vec<ConnectionId>,
        RelayerError,
    >;

    fn query_connections(&self) -> Result<Vec<IdentifiedConnectionEnd>, RelayerError>;

    fn query_channel(&self, port_id: &PortId, channel_id: &ChannelId, height: Height) -> Result<
        ChannelEnd,
        RelayerError,
    >;

    /// The channels built on the connection `connection_id`.
    fn query_connection_channels(&self, connection_id: &ConnectionId) -> Result<
        Vec<IdentifiedChannelEnd>,
        RelayerError,
    >;

    fn build_connection_proofs_and_client_state(
        &self,
        msg_type: ConnectionMsgType,
        connection_id: &ConnectionId,
        client_id: &ClientId,
        height: Height,
    ) -> Result<(ClientState, Proofs), RelayerError>;

    fn get_signer(&self) -> Result<Signer, RelayerError>;

    /// Submits the messages in one transaction and returns the events it emitted.
    fn send_msgs(&self, msgs: Vec<ConnectionMsg>) -> Result<Vec<IbcEvent>, RelayerError>;

    /// Builds the messages that update the client `client_id`, hosted on this chain,
    /// to `target_height` of the chain that the client tracks.
    fn build_update_client(&self, client_id: &ClientId, target_height: Height) -> Result<
        Vec<EncodedMsg>,
        ForeignClientError,
    >;
}

} // verus!
