use vstd::prelude::*;

use crate::ends::{
    ChannelEnd, ChannelState, ConnectionEnd, ConnectionState, IdentifiedChannelEnd,
    IdentifiedClientState, IdentifiedConnectionEnd, PortChannelId,
};
use crate::error::{ChannelError, SupervisorError};
use crate::handle::ChainHandle;
use crate::ident::{ChainId, ChannelId, ConnectionId, Height, PortId, opt_view};

verus! {

/// Whether a connection end on the counterparty chain names `local_id` as its counterparty.
pub open spec fn points_back_to(end: ConnectionEnd, local_id: Seq<char>) -> bool {
    opt_view(end.counterparty.connection_id) == Some(local_id)
}

/// Whether a channel end on the counterparty chain names the local port and channel as
/// its counterparty.
pub open spec fn channel_points_back_to(ch: IdentifiedChannelEnd, port_id: Seq<char>, channel_id: Seq<char>) -> bool {
    &&& opt_view(ch.channel_end.remote.channel_id) == Some(channel_id)
    &&& ch.channel_end.remote.port_id@ == port_id
}

/// Whether `end` names `local_id` as its counterparty connection.
pub fn connection_points_back(end: &ConnectionEnd, local_id: &ConnectionId) -> (r: bool)
    ensures
        r == points_back_to(*end, local_id@),
{
    match &end.counterparty.connection_id {
        Some(id) => *id == *local_id,
        None => false,
    }
}

/// Returns the identifier of the chain that the connection `src_connection_id` on
/// `src_chain` connects to: the chain that the connection's client tracks.
pub fn counterparty_chain_from_connection<C: ChainHandle>(
    src_chain: &C,
    src_connection_id: &ConnectionId,
) -> (r: Result<ChainId, SupervisorError>)
    ensures
        r matches Err(e) ==> e is Relayer,
{
    let connection_end = match src_chain.query_connection(src_connection_id, Height::zero()) {
        Ok(c) => c,
        Err(e) => return Err(SupervisorError::Relayer(e)),
    };
    let client_state = match src_chain.query_client_state(&connection_end.client_id, Height::zero()) {
        Ok(c) => c,
        Err(e) => return Err(SupervisorError::Relayer(e)),
    };
    Ok(client_state.chain_id)
}

/// The state of the first of `ends` that names `local_id` as its counterparty connection;
/// `Uninitialized` where none does.
pub fn mirror_connection_state(ends: &Vec<ConnectionEnd>, local_id: &ConnectionId) -> (r: ConnectionState)
    ensures
        (forall|i: int| 0 <= i < ends@.len() ==> !points_back_to(#[trigger] ends@[i], local_id@)) ==> r
            == ConnectionState::Uninitialized,
        !(forall|i: int| 0 <= i < ends@.len() ==> !points_back_to(#[trigger] ends@[i], local_id@)) ==> exists|k: int|
            {
                &&& 0 <= k < ends@.len()
                &&& points_back_to(#[trigger] ends@[k], local_id@)
                &&& forall|j: int| 0 <= j < k ==> !points_back_to(#[trigger] ends@[j], local_id@)
                &&& r == ends@[k].state
            },
{
    let mut i: usize = 0;
    while i < ends.len()
        invariant
            i <= ends@.len(),
            forall|j: int| 0 <= j < i ==> !points_back_to(#[trigger] ends@[j], local_id@),
        decreases ends@.len() - i,
    {
        if connection_points_back(&ends[i], local_id) {
            return ends[i].state;
        }
        i = i + 1;
    }
    ConnectionState::Uninitialized
}

/// The connection ends on `chain` of the connections that use the client `client_id`.
fn client_connection_ends<C: ChainHandle>(
    client_id: &crate::ident::ClientId,
    chain: &C,
) -> (r: Result<Vec<ConnectionEnd>, SupervisorError>)
    ensures
        r matches Err(e) ==> e is Relayer,
{
    let ids = match chain.query_client_connections(client_id) {
        Ok(c) => c,
        Err(e) => return Err(SupervisorError::Relayer(e)),
    };
    let mut ends: Vec<ConnectionEnd> = Vec::new();
    let mut i: usize = 0;
    while i < ids.len()
        decreases ids@.len() - i,
    {
        match chain.query_connection(&ids[i], Height::zero()) {
            Ok(c) => ends.push(c),
            Err(e) => return Err(SupervisorError::Relayer(e)),
        }
        i = i + 1;
    }
    Ok(ends)
}

/// Returns the state of the connection on `counterparty_chain` that mirrors `connection`.
/// Where `connection` does not know the identifier of its mirror yet, the connections of
/// the counterparty client are queried and `mirror_connection_state` picks the mirror
/// among them; with none found, the state is `Uninitialized`.
pub fn connection_state_on_destination<C: ChainHandle>(
    connection: &IdentifiedConnectionEnd,
    counterparty_chain: &C,
) -> (r: Result<ConnectionState, SupervisorError>)
    ensures
        r matches Err(e) ==> e is Relayer,
{
    match &connection.connection_end.counterparty.connection_id {
        Some(remote_connection_id) => {
            match counterparty_chain.query_connection(remote_connection_id, Height::zero()) {
                Ok(end) => Ok(end.state),
                Err(e) => Err(SupervisorError::Relayer(e)),
            }
        },
        None => {
            let ends = client_connection_ends(
                &connection.connection_end.counterparty.client_id,
                counterparty_chain,
            )?;
            Ok(mirror_connection_state(&ends, &connection.connection_id))
        },
    }
}

/// A channel end, the connection end of its first hop, and the client of that connection.
#[derive(Clone, Debug)]
pub struct ChannelConnectionClient {
    pub channel: IdentifiedChannelEnd,
    pub connection: IdentifiedConnectionEnd,
    pub client: IdentifiedClientState,
}

impl ChannelConnectionClient {
    pub fn new(
        channel: IdentifiedChannelEnd,
        connection: IdentifiedConnectionEnd,
        client: IdentifiedClientState,
    ) -> (r: Self)
        ensures
            r.channel == channel,
            r.connection == connection,
            r.client == client,
    {
        ChannelConnectionClient { channel, connection, client }
    }

    /// The three parts agree: the channel is initialised and its first hop is the
    /// connection, which is open and uses the client.
    pub open spec fn consistent(&self) -> bool {
        &&& self.channel.channel_end.state != ChannelState::Uninitialized
        &&& self.channel.channel_end.connection_hops@.len() > 0
        &&& self.channel.channel_end.connection_hops@[0]@ == self.connection.connection_id@
        &&& self.connection.connection_end.state == ConnectionState::Open
        &&& self.client.client_id@ == self.connection.connection_end.client_id@
    }
}

/// The connection that `channel_end` runs over: its first connection hop. Fails where the
/// channel is uninitialised or has no connection hop.
pub fn channel_connection_hop(
    port_id: &PortId,
    channel_id: &ChannelId,
    chain_id: &ChainId,
    channel_end: &ChannelEnd,
) -> (r: Result<ConnectionId, SupervisorError>)
    ensures
        channel_end.state == ChannelState::Uninitialized <==> r matches Err(
            SupervisorError::ChannelUninitialized { .. },
        ),
        (channel_end.state != ChannelState::Uninitialized && channel_end.connection_hops@.len()
            == 0) <==> r matches Err(SupervisorError::MissingConnectionHops { .. }),
        r matches Ok(id) ==> channel_end.connection_hops@.len() > 0 && id
            == channel_end.connection_hops@[0],
        r is Ok <==> (channel_end.state != ChannelState::Uninitialized
            && channel_end.connection_hops@.len() > 0),
        r matches Err(SupervisorError::ChannelUninitialized { port_id: p, channel_id: c, chain_id: h })
            ==> p == *port_id && c == *channel_id && h == *chain_id,
        r matches Err(SupervisorError::MissingConnectionHops { channel_id: c, chain_id: h }) ==> c
            == *channel_id && h == *chain_id,
{
    if channel_end.state == ChannelState::Uninitialized {
        return Err(
            SupervisorError::ChannelUninitialized {
                port_id: port_id.clone(),
                channel_id: channel_id.clone(),
                chain_id: chain_id.clone(),
            },
        );
    }
    if channel_end.connection_hops.len() == 0 {
        return Err(
            SupervisorError::MissingConnectionHops {
                channel_id: channel_id.clone(),
                chain_id: chain_id.clone(),
            },
        );
    }
    Ok(channel_end.connection_hops[0].clone())
}

/// Succeeds exactly when `connection_end` is open.
pub fn ensure_connection_open(
    connection_id: &ConnectionId,
    channel_id: &ChannelId,
    chain_id: &ChainId,
    connection_end: &ConnectionEnd,
) -> (r: Result<(), SupervisorError>)
    ensures
        r is Ok <==> connection_end.state == ConnectionState::Open,
        r matches Err(e) ==> e == (SupervisorError::ConnectionNotOpen {
            connection_id: *connection_id,
            channel_id: *channel_id,
            chain_id: *chain_id,
        }),
{
    if connection_end.is_open() {
        Ok(())
    } else {
        Err(
            SupervisorError::ConnectionNotOpen {
                connection_id: connection_id.clone(),
                channel_id: channel_id.clone(),
                chain_id: chain_id.clone(),
            },
        )
    }
}

/// Returns the channel `channel_id` on `port_id` of `chain`, with the connection of its
/// first hop and that connection's client. The three agree with one another.
pub fn channel_connection_client<C: ChainHandle>(
    chain: &C,
    port_id: &PortId,
    channel_id: &ChannelId,
) -> (r: Result<ChannelConnectionClient, SupervisorError>)
    ensures
        r matches Ok(b) ==> {
            &&& b.consistent()
            &&& b.channel.port_id == *port_id
            &&& b.channel.channel_id == *channel_id
        },
        r matches Err(e) ==> (e is Relayer || e is ChannelUninitialized || e is MissingConnectionHops
            || e is ConnectionNotOpen),
        r matches Err(SupervisorError::ChannelUninitialized { port_id: p, channel_id: c, .. }) ==> p
            == *port_id && c == *channel_id,
        r matches Err(SupervisorError::MissingConnectionHops { channel_id: c, .. }) ==> c == *channel_id,
        r matches Err(SupervisorError::ConnectionNotOpen { channel_id: c, .. }) ==> c == *channel_id,
{
    let channel_end = match chain.query_channel(port_id, channel_id, Height::zero()) {
        Ok(c) => c,
        Err(e) => return Err(SupervisorError::Relayer(e)),
    };
    let chain_id = chain.id();
    let connection_id = channel_connection_hop(port_id, channel_id, &chain_id, &channel_end)?;
    let connection_end = match chain.query_connection(&connection_id, Height::zero()) {
        Ok(c) => c,
        Err(e) => return Err(SupervisorError::Relayer(e)),
    };
    ensure_connection_open(&connection_id, channel_id, &chain_id, &connection_end)?;
    let client_id = connection_end.client_id();
    let client_state = match chain.query_client_state(&client_id, Height::zero()) {
        Ok(c) => c,
        Err(e) => return Err(SupervisorError::Relayer(e)),
    };
    let client = IdentifiedClientState { client_id, client_state };
    let connection = IdentifiedConnectionEnd::new(connection_id, connection_end);
    let channel = IdentifiedChannelEnd {
        port_id: port_id.clone(),
        channel_id: channel_id.clone(),
        channel_end,
    };
    Ok(ChannelConnectionClient::new(channel, connection, client))
}

/// Returns the identifier of the chain that the channel connects to: the chain that the
/// client of its connection tracks.
pub fn counterparty_chain_from_channel<C: ChainHandle>(
    src_chain: &C,
    src_channel_id: &ChannelId,
    src_port_id: &PortId,
) -> (r: Result<ChainId, SupervisorError>)
    ensures
        r matches Err(e) ==> (e is Relayer || e is ChannelUninitialized || e is MissingConnectionHops
            || e is ConnectionNotOpen),
        r matches Err(SupervisorError::ChannelUninitialized { port_id: p, channel_id: c, .. }) ==> p
            == *src_port_id && c == *src_channel_id,
        r matches Err(SupervisorError::MissingConnectionHops { channel_id: c, .. }) ==> c == *src_channel_id,
        r matches Err(SupervisorError::ConnectionNotOpen { channel_id: c, .. }) ==> c == *src_channel_id,
{
    match channel_connection_client(src_chain, src_port_id, src_channel_id) {
        Ok(c) => Ok(c.client.client_state.chain_id),
        Err(e) => Err(e),
    }
}

/// The position of the first of `channels` whose counterparty is the channel `channel_id`
/// on `port_id`.
pub fn find_channel_pointing_back(
    channels: &Vec<IdentifiedChannelEnd>,
    port_id: &PortId,
    channel_id: &ChannelId,
) -> (r: Option<usize>)
    ensures
        r is None <==> forall|i: int|
            0 <= i < channels@.len() ==> !channel_points_back_to(
                #[trigger] channels@[i],
                port_id@,
                channel_id@,
            ),
        r matches Some(k) ==> {
            &&& k < channels@.len()
            &&& channel_points_back_to(channels@[k as int], port_id@, channel_id@)
            &&& forall|j: int|
                0 <= j < k ==> !channel_points_back_to(#[trigger] channels@[j], port_id@, channel_id@)
        },
{
    let mut i: usize = 0;
    while i < channels.len()
        invariant
            i <= channels@.len(),
            forall|j: int| 0 <= j < i ==> !channel_points_back_to(#[trigger] channels@[j], port_id@, channel_id@),
        decreases channels@.len() - i,
    {
        let found = match &channels[i].channel_end.remote.channel_id {
            Some(c) => *c == *channel_id && channels[i].channel_end.remote.port_id == *port_id,
            None => false,
        };
        if found {
            return Some(i);
        }
        i = i + 1;
    }
    None
}

/// The first of `channels` whose counterparty is the channel `channel_id` on `port_id`;
/// none where no channel points back.
pub fn mirror_channel(
    channels: Vec<IdentifiedChannelEnd>,
    port_id: &PortId,
    channel_id: &ChannelId,
) -> (r: Option<ChannelEnd>)
    ensures
        r is None <==> forall|i: int|
            0 <= i < channels@.len() ==> !channel_points_back_to(
                #[trigger] channels@[i],
                port_id@,
                channel_id@,
            ),
        r matches Some(ch) ==> exists|k: int|
            {
                &&& 0 <= k < channels@.len()
                &&& channel_points_back_to(#[trigger] channels@[k], port_id@, channel_id@)
                &&& forall|j: int|
                    0 <= j < k ==> !channel_points_back_to(#[trigger] channels@[j], port_id@, channel_id@)
                &&& ch == channels@[k].channel_end
            },
{
    let ghost all = channels@;
    let mut channels = channels;
    match find_channel_pointing_back(&channels, port_id, channel_id) {
        Some(k) => {
            let ch = channels.swap_remove(k);
            assert(ch == all[k as int]);
            Some(ch.channel_end)
        },
        None => None,
    }
}

/// Looks on `counterparty_chain` among the channels of the connection
/// `remote_connection_id` for the one whose counterparty is `channel_id` on `port_id`.
fn fetch_channel_on_destination<C: ChainHandle>(
    port_id: &PortId,
    channel_id: &ChannelId,
    counterparty_chain: &C,
    remote_connection_id: &ConnectionId,
) -> (r: Result<Option<ChannelEnd>, SupervisorError>)
    ensures
        r matches Err(e) ==> e is Relayer,
        r matches Ok(Some(ch)) ==> opt_view(ch.remote.channel_id) == Some(channel_id@)
            && ch.remote.port_id@ == port_id@,
{
    let counterparty_channels = match counterparty_chain.query_connection_channels(
        remote_connection_id,
    ) {
        Ok(c) => c,
        Err(e) => return Err(SupervisorError::Relayer(e)),
    };
    Ok(mirror_channel(counterparty_channels, port_id, channel_id))
}

/// Returns the channel on `counterparty_chain` that mirrors `channel`, whose connection is
/// `connection`: by identifier where `channel` knows it, else by looking among the channels
/// of the mirror connection. `None` where neither the channel nor the connection knows its
/// counterparty yet, or no channel points back.
pub fn channel_on_destination<C: ChainHandle>(
    channel: &IdentifiedChannelEnd,
    connection: &IdentifiedConnectionEnd,
    counterparty_chain: &C,
) -> (r: Result<Option<ChannelEnd>, SupervisorError>)
    ensures
        r matches Err(e) ==> e is Relayer,
        channel.channel_end.remote.channel_id is Some ==> (r is Ok ==> r->Ok_0 is Some),
        channel.channel_end.remote.channel_id is None ==> {
            &&& connection.connection_end.counterparty.connection_id is None ==> r == Ok::<
                Option<ChannelEnd>,
                SupervisorError,
            >(None)
            &&& r matches Ok(Some(ch)) ==> opt_view(ch.remote.channel_id) == Some(
                channel.channel_id@,
            ) && ch.remote.port_id@ == channel.port_id@
        },
{
    match &channel.channel_end.remote.channel_id {
        Some(remote_channel_id) => {
            match counterparty_chain.query_channel(
                &channel.channel_end.remote.port_id,
                remote_channel_id,
                Height::zero(),
            ) {
                Ok(c) => Ok(Some(c)),
                Err(e) => Err(SupervisorError::Relayer(e)),
            }
        },
        None => {
            match &connection.connection_end.counterparty.connection_id {
                Some(remote_connection_id) => fetch_channel_on_destination(
                    &channel.port_id,
                    &channel.channel_id,
                    counterparty_chain,
                    remote_connection_id,
                ),
                None => Ok(None),
            }
        },
    }
}

/// Returns the state of the channel on `counterparty_chain` that mirrors `channel`,
/// `Uninitialized` where there is none.
pub fn channel_state_on_destination<C: ChainHandle>(
    channel: &IdentifiedChannelEnd,
    connection: &IdentifiedConnectionEnd,
    counterparty_chain: &C,
) -> (r: Result<ChannelState, SupervisorError>)
    ensures
        r matches Err(e) ==> e is Relayer,
        channel.channel_end.remote.channel_id is None
            && connection.connection_end.counterparty.connection_id is None ==> r
            == Ok::<ChannelState, SupervisorError>(ChannelState::Uninitialized),
{
    let remote_channel = channel_on_destination(channel, connection, counterparty_chain)?;
    match remote_channel {
        Some(c) => Ok(c.state),
        None => Ok(ChannelState::Uninitialized),
    }
}

/// Checks the counterparty that `observed`, the channel `target_pchan` on chain
/// `chain_id`, records against `expected`.
pub fn check_observed_counterparty(
    chain_id: &ChainId,
    target_pchan: &PortChannelId,
    expected: &PortChannelId,
    observed: &ChannelEnd,
) -> (r: Result<(), ChannelError>)
    ensures
        observed.remote.channel_id is None <==> r matches Err(
            ChannelError::IncompleteChannelState { .. },
        ),
        r is Ok <==> (opt_view(observed.remote.channel_id) == Some(expected.channel_id@)
            && observed.remote.port_id@ == expected.port_id@),
        r matches Err(e) ==> (e is IncompleteChannelState || e is MismatchChannelEnds),
        r matches Err(ChannelError::IncompleteChannelState { chain_id: h, port_channel_id: t }) ==> h
            == *chain_id && t == *target_pchan,
        r matches Err(
            ChannelError::MismatchChannelEnds {
                chain_id: h,
                port_channel_id: t,
                expected_counterparty: x,
                actual_counterparty: a,
            },
        ) ==> h == *chain_id && t == *target_pchan && x == *expected && a.port_id
            == observed.remote.port_id && observed.remote.channel_id == Some(a.channel_id),
{
    match &observed.remote.channel_id {
        Some(actual_channel_id) => {
            if *actual_channel_id == expected.channel_id && observed.remote.port_id
                == expected.port_id {
                Ok(())
            } else {
                Err(
                    ChannelError::MismatchChannelEnds {
                        chain_id: chain_id.clone(),
                        port_channel_id: target_pchan.clone(),
                        expected_counterparty: expected.clone(),
                        actual_counterparty: PortChannelId {
                            port_id: observed.remote.port_id.clone(),
                            channel_id: actual_channel_id.clone(),
                        },
                    },
                )
            }
        },
        None => Err(
            ChannelError::IncompleteChannelState {
                chain_id: chain_id.clone(),
                port_channel_id: target_pchan.clone(),
            },
        ),
    }
}

/// Queries the channel `target_pchan` on `target_chain` and checks that the counterparty
/// it records is `expected`.
pub fn check_channel_counterparty<C: ChainHandle>(
    target_chain: &C,
    target_pchan: &PortChannelId,
    expected: &PortChannelId,
) -> (r: Result<(), ChannelError>)
    ensures
        r matches Err(e) ==> (e is Query || e is IncompleteChannelState || e is MismatchChannelEnds),
        r matches Err(ChannelError::IncompleteChannelState { port_channel_id: t, .. }) ==> t
            == *target_pchan,
        r matches Err(
            ChannelError::MismatchChannelEnds { port_channel_id: t, expected_counterparty: x, .. },
        ) ==> t == *target_pchan && x == *expected,
{
    let channel_end_dst = match target_chain.query_channel(
        &target_pchan.port_id,
        &target_pchan.channel_id,
        Height::zero(),
    ) {
        Ok(c) => c,
        Err(e) => return Err(ChannelError::Query { chain_id: target_chain.id(), source: e }),
    };
    check_observed_counterparty(&target_chain.id(), target_pchan, expected, &channel_end_dst)
}

} // verus!
