use vstd::prelude::*;

use crate::counterparty::connection_points_back;
use crate::ends::{ConnectionEnd, ConnectionState, IdentifiedConnectionEnd};
use crate::error::ConnectionError;
use crate::events::IbcEvent;
use crate::handle::ChainHandle;
use crate::ident::{ChainId, ClientId, ConnectionId, Height, clone_connection_id, opt_view};
use crate::ConnectionMsgType;

verus! {

/// The largest packet delay, in nanoseconds, allowed on a connection that the relayer
/// establishes: 120 seconds.
pub const MAX_PACKET_DELAY: u64 = 120_000_000_000;

/// How many times each phase of the handshake is attempted.
pub const MAX_RETRIES: usize = 5;

/// A light client hosted on `dst_chain` that tracks `src_chain`, with the identifiers
/// of the two chains as their handles reported them when the client was set up.
pub struct ForeignClient<DstChain, SrcChain> {
    pub id: ClientId,
    pub dst_chain: DstChain,
    pub src_chain: SrcChain,
    pub dst_chain_id: ChainId,
    pub src_chain_id: ChainId,
}

impl<DstChain: ChainHandle, SrcChain: ChainHandle> ForeignClient<DstChain, SrcChain> {
    pub fn new(id: ClientId, dst_chain: DstChain, src_chain: SrcChain) -> (r: Self)
        ensures
            r.id == id,
            r.dst_chain == dst_chain,
            r.src_chain == src_chain,
    {
        let dst_chain_id = dst_chain.id();
        let src_chain_id = src_chain.id();
        ForeignClient { id, dst_chain, src_chain, dst_chain_id, src_chain_id }
    }
}

/// The connection that a worker drives: its identifier on the source chain, and the
/// two chains.
#[derive(Clone, Debug)]
pub struct ConnectionObject {
    pub dst_chain_id: ChainId,
    pub src_chain_id: ChainId,
    pub src_connection_id: ConnectionId,
}

/// One side of a connection under construction: a chain, the client it hosts, and the
/// identifier of the connection end once the chain has assigned it.
#[derive(Debug)]
pub struct ConnectionSide<Chain> {
    pub chain: Chain,
    pub client_id: ClientId,
    pub connection_id: Option<ConnectionId>,
}

impl<Chain: ChainHandle> ConnectionSide<Chain> {
    pub fn new(chain: Chain, client_id: ClientId, connection_id: Option<ConnectionId>) -> (r: Self)
        ensures
            r.chain == chain,
            r.client_id == client_id,
            r.connection_id == connection_id,
    {
        ConnectionSide { chain, client_id, connection_id }
    }

    pub fn connection_id(&self) -> (r: Option<ConnectionId>)
        ensures
            r == self.connection_id,
    {
        clone_connection_id(&self.connection_id)
    }

    /// A copy of this side; the handle is cloned, the identifiers are kept.
    pub fn duplicate(&self) -> (r: Self)
        ensures
            cloned(self.chain, r.chain),
            r.client_id == self.client_id,
            r.connection_id == self.connection_id,
    {
        ConnectionSide {
            chain: self.chain.clone(),
            client_id: self.client_id.clone(),
            connection_id: clone_connection_id(&self.connection_id),
        }
    }
}

/// A connection between chain A and chain B, with its delay period in nanoseconds.
#[derive(Debug)]
pub struct Connection<ChainA, ChainB> {
    pub delay_period: u64,
    pub a_side: ConnectionSide<ChainA>,
    pub b_side: ConnectionSide<ChainB>,
}

/// The two clients serve the same two chains: each is hosted on the chain that the
/// other tracks.
pub open spec fn clients_match<A: ChainHandle, B: ChainHandle>(
    a_client: ForeignClient<A, B>,
    b_client: ForeignClient<B, A>,
) -> bool {
    &&& a_client.src_chain_id@ == b_client.dst_chain_id@
    &&& a_client.dst_chain_id@ == b_client.src_chain_id@
}

/// An existing connection end on the destination is compatible with the expected one:
/// the same clients, a state no further on, and no other counterparty connection.
pub open spec fn compatible_ends(existing: ConnectionEnd, expected: ConnectionEnd) -> bool {
    &&& existing.client_id@ == expected.client_id@
    &&& existing.counterparty.client_id@ == expected.counterparty.client_id@
    &&& existing.state.rank() <= expected.state.rank()
    &&& (existing.counterparty.connection_id is None || opt_view(
        existing.counterparty.connection_id,
    ) == opt_view(expected.counterparty.connection_id))
}

/// Every connection end is compatible with itself: a destination end that is exactly the
/// expected one never blocks the handshake.
pub proof fn compatible_with_itself(end: ConnectionEnd)
    ensures
        compatible_ends(end, end),
{
}

/// The highest state in which the destination end may be found before the given
/// message is sent. Acknowledge and Confirm both need the destination to be at most
/// in `TryOpen`.
pub open spec fn highest_expected_state(msg_type: ConnectionMsgType) -> ConnectionState {
    match msg_type {
        ConnectionMsgType::OpenAck => ConnectionState::TryOpen,
        ConnectionMsgType::OpenConfirm => ConnectionState::TryOpen,
        ConnectionMsgType::OpenTry => ConnectionState::Uninitialized,
    }
}

/// Whether the connection end `conn` on the counterparty chain is the mirror of the local
/// connection `local_id`, whose counterparty client is `client_id`.
pub open spec fn is_mirror(conn: IdentifiedConnectionEnd, local_id: Seq<char>, client_id: Seq<char>) -> bool {
    &&& conn.connection_end.client_id@ == client_id
    &&& opt_view(conn.connection_end.counterparty.connection_id) == Some(local_id)
}

/// Checks that the connection end found on the destination chain under `connection_id`
/// is compatible with the one the handshake expects there.
pub fn check_destination_connection_state(
    connection_id: &ConnectionId,
    existing_connection: &ConnectionEnd,
    expected_connection: &ConnectionEnd,
) -> (r: Result<(), ConnectionError>)
    ensures
        r is Ok <==> compatible_ends(*existing_connection, *expected_connection),
        r matches Err(e) ==> e == (ConnectionError::ConnectionAlreadyExist {
            connection_id: *connection_id,
        }),
{
    let good_client_ids = existing_connection.client_id == expected_connection.client_id
        && existing_connection.counterparty.client_id
        == expected_connection.counterparty.client_id;
    let good_state = existing_connection.state.precedes_or_equals(&expected_connection.state);
    let good_connection_ids = existing_connection.counterparty.connection_id.is_none()
        || crate::ident::same_connection_id(
        &existing_connection.counterparty.connection_id,
        &expected_connection.counterparty.connection_id,
    );
    if good_state && good_client_ids && good_connection_ids {
        Ok(())
    } else {
        Err(ConnectionError::ConnectionAlreadyExist { connection_id: connection_id.clone() })
    }
}

/// The position of the first connection among `connections` that mirrors the local
/// connection `local_id`, whose counterparty client is `counterparty_client_id`.
pub fn find_mirror_connection(
    connections: &Vec<IdentifiedConnectionEnd>,
    local_id: &ConnectionId,
    counterparty_client_id: &ClientId,
) -> (r: Option<usize>)
    ensures
        r is None <==> forall|i: int|
            0 <= i < connections@.len() ==> !is_mirror(
                #[trigger] connections@[i],
                local_id@,
                counterparty_client_id@,
            ),
        r matches Some(k) ==> {
            &&& k < connections@.len()
            &&& is_mirror(connections@[k as int], local_id@, counterparty_client_id@)
            &&& forall|j: int|
                0 <= j < k ==> !is_mirror(
                    #[trigger] connections@[j],
                    local_id@,
                    counterparty_client_id@,
                )
        },
{
    let mut i: usize = 0;
    while i < connections.len()
        invariant
            i <= connections@.len(),
            forall|j: int|
                0 <= j < i ==> !is_mirror(
                    #[trigger] connections@[j],
                    local_id@,
                    counterparty_client_id@,
                ),
        decreases connections@.len() - i,
    {
        let conn = &connections[i];
        if conn.connection_end.client_id_matches(counterparty_client_id) && connection_points_back(
            &conn.connection_end,
            local_id,
        ) {
            return Some(i);
        }
        i = i + 1;
    }
    None
}

/// The connection identifier that a handshake event reports.
pub fn extract_connection_id(event: &IbcEvent) -> (r: Result<ConnectionId, ConnectionError>)
    ensures
        r matches Ok(id) ==> event.attributes() matches Some(a) && a.connection_id == Some(id),
        r is Err <==> !(event.attributes() matches Some(a) && a.connection_id is Some),
        r matches Err(e) ==> e is MissingConnectionIdFromEvent,
{
    match event.connection_attributes() {
        Some(a) => match &a.connection_id {
            Some(id) => Ok(id.clone()),
            None => Err(ConnectionError::MissingConnectionIdFromEvent),
        },
        None => Err(ConnectionError::MissingConnectionIdFromEvent),
    }
}

impl<ChainA: ChainHandle, ChainB: ChainHandle> Connection<ChainA, ChainB> {
    /// Verifies that the two clients are mutually consistent: they serve the same two chains.
    pub fn validate_clients(
        a_client: &ForeignClient<ChainA, ChainB>,
        b_client: &ForeignClient<ChainB, ChainA>,
    ) -> (r: Result<(), ConnectionError>)
        ensures
            r is Ok <==> clients_match(*a_client, *b_client),
            a_client.src_chain_id@ != b_client.dst_chain_id@ ==> r == Err::<(), ConnectionError>(
                ConnectionError::ChainIdMismatch {
                    source_chain_id: a_client.src_chain_id,
                    destination_chain_id: b_client.dst_chain_id,
                },
            ),
            a_client.src_chain_id@ == b_client.dst_chain_id@ && a_client.dst_chain_id@
                != b_client.src_chain_id@ ==> r == Err::<(), ConnectionError>(
                ConnectionError::ChainIdMismatch {
                    source_chain_id: a_client.dst_chain_id,
                    destination_chain_id: b_client.src_chain_id,
                },
            ),
    {
        if a_client.src_chain_id != b_client.dst_chain_id {
            return Err(
                ConnectionError::ChainIdMismatch {
                    source_chain_id: a_client.src_chain_id.clone(),
                    destination_chain_id: b_client.dst_chain_id.clone(),
                },
            );
        }
        if a_client.dst_chain_id != b_client.src_chain_id {
            return Err(
                ConnectionError::ChainIdMismatch {
                    source_chain_id: a_client.dst_chain_id.clone(),
                    destination_chain_id: b_client.src_chain_id.clone(),
                },
            );
        }
        Ok(())
    }

    /// A connection between the chains of the two clients with no connection end yet,
    /// ready for the handshake. Fails where the clients do not serve the same two chains,
    /// or the delay period (in nanoseconds) exceeds `MAX_PACKET_DELAY`.
    pub fn unopened(
        a_client: ForeignClient<ChainA, ChainB>,
        b_client: ForeignClient<ChainB, ChainA>,
        delay_period: u64,
    ) -> (r: Result<Self, ConnectionError>)
        ensures
            !clients_match(a_client, b_client) ==> (r matches Err(e) && e is ChainIdMismatch),
            clients_match(a_client, b_client) && delay_period > MAX_PACKET_DELAY ==> r == Err::<
                Self,
                ConnectionError,
            >(ConnectionError::MaxDelayPeriod { delay_period }),
            r is Ok <==> clients_match(a_client, b_client) && delay_period <= MAX_PACKET_DELAY,
            r matches Ok(c) ==> {
                &&& c.delay_period == delay_period
                &&& c.a_side.chain == a_client.dst_chain
                &&& c.a_side.client_id == a_client.id
                &&& c.a_side.connection_id is None
                &&& c.b_side.chain == b_client.dst_chain
                &&& c.b_side.client_id == b_client.id
                &&& c.b_side.connection_id is None
            },
    {
        Self::validate_clients(&a_client, &b_client)?;
        if delay_period > MAX_PACKET_DELAY {
            return Err(ConnectionError::MaxDelayPeriod { delay_period });
        }
        Ok(
            Connection {
                delay_period,
                a_side: ConnectionSide::new(a_client.dst_chain, a_client.id, None),
                b_side: ConnectionSide::new(b_client.dst_chain, b_client.id, None),
            },
        )
    }

    /// Rebuilds a connection from a connection handshake event emitted on `chain`. The
    /// event does not carry the delay period, which is left at zero.
    pub fn restore_from_event(
        chain: ChainA,
        counterparty_chain: ChainB,
        connection_open_event: &IbcEvent,
    ) -> (r: Result<Self, ConnectionError>)
        ensures
            connection_open_event.attributes() is None <==> r is Err,
            r matches Err(e) ==> e == (ConnectionError::InvalidEvent { event: *connection_open_event }),
            r matches Ok(c) ==> connection_open_event.attributes() matches Some(a) && {
                &&& c.delay_period == 0
                &&& c.a_side.chain == chain
                &&& c.a_side.client_id == a.client_id
                &&& c.a_side.connection_id == a.connection_id
                &&& c.b_side.chain == counterparty_chain
                &&& c.b_side.client_id == a.counterparty_client_id
                &&& c.b_side.connection_id == a.counterparty_connection_id
            },
    {
        match connection_open_event.connection_attributes() {
            Some(a) => Ok(
                Connection {
                    delay_period: 0,
                    a_side: ConnectionSide::new(
                        chain,
                        a.client_id.clone(),
                        clone_connection_id(&a.connection_id),
                    ),
                    b_side: ConnectionSide::new(
                        counterparty_chain,
                        a.counterparty_client_id.clone(),
                        clone_connection_id(&a.counterparty_connection_id),
                    ),
                },
            ),
            None => Err(ConnectionError::InvalidEvent { event: connection_open_event.clone() }),
        }
    }

    /// Builds the connection that the local connection end `a_connection`, found under
    /// `src_connection_id` on `chain`, describes. Where that end is in `Init` and knows no
    /// counterparty connection, the counterparty is looked up in `counterparty_connections`,
    /// the connections of `counterparty_chain`.
    pub fn from_local_end(
        chain: ChainA,
        counterparty_chain: ChainB,
        src_connection_id: &ConnectionId,
        a_connection: &ConnectionEnd,
        counterparty_connections: &Vec<IdentifiedConnectionEnd>,
    ) -> (r: Self)
        ensures
            r.delay_period == a_connection.delay_period,
            r.a_side.chain == chain,
            r.a_side.client_id == a_connection.client_id,
            r.a_side.connection_id == Some(*src_connection_id),
            r.b_side.chain == counterparty_chain,
            r.b_side.client_id == a_connection.counterparty.client_id,
            !(a_connection.state == ConnectionState::Init
                && a_connection.counterparty.connection_id is None) ==> r.b_side.connection_id
                == a_connection.counterparty.connection_id,
            a_connection.state == ConnectionState::Init
                && a_connection.counterparty.connection_id is None ==> {
                &&& r.b_side.connection_id is None <==> forall|i: int|
                    0 <= i < counterparty_connections@.len() ==> !is_mirror(
                        #[trigger] counterparty_connections@[i],
                        src_connection_id@,
                        a_connection.counterparty.client_id@,
                    )
                &&& r.b_side.connection_id matches Some(id) ==> exists|k: int|
                    0 <= k < counterparty_connections@.len() && is_mirror(
                        #[trigger] counterparty_connections@[k],
                        src_connection_id@,
                        a_connection.counterparty.client_id@,
                    ) && counterparty_connections@[k].connection_id == id && forall|j: int|
                        0 <= j < k ==> !is_mirror(
                            #[trigger] counterparty_connections@[j],
                            src_connection_id@,
                            a_connection.counterparty.client_id@,
                        )
            },
    {
        let mut b_connection_id = a_connection.counterparty.connection_id();
        if a_connection.state_matches(&ConnectionState::Init) && b_connection_id.is_none() {
            match find_mirror_connection(
                counterparty_connections,
                src_connection_id,
                &a_connection.counterparty.client_id,
            ) {
                Some(k) => {
                    b_connection_id = Some(counterparty_connections[k].connection_id());
                },
                None => {},
            }
        }
        Connection {
            delay_period: a_connection.delay_period,
            a_side: ConnectionSide::new(
                chain,
                a_connection.client_id(),
                Some(src_connection_id.clone()),
            ),
            b_side: ConnectionSide::new(
                counterparty_chain,
                a_connection.counterparty.client_id(),
                b_connection_id,
            ),
        }
    }

    /// Rebuilds a connection by querying `chain` at `height` for the connection end of
    /// the worker's object, and returns it with the state of that end.
    pub fn restore_from_state(
        chain: ChainA,
        counterparty_chain: ChainB,
        connection: &ConnectionObject,
        height: Height,
    ) -> (r: Result<(Self, ConnectionState), ConnectionError>)
        ensures
            r matches Err(e) ==> e is Relayer,
            r matches Ok((c, _)) ==> {
                &&& c.a_side.chain == chain
                &&& c.a_side.connection_id == Some(connection.src_connection_id)
                &&& c.b_side.chain == counterparty_chain
            },
            r matches Ok((c, state)) ==> exists|end: ConnectionEnd|
                {
                    &&& #[trigger] end.state == state
                    &&& c.delay_period == end.delay_period
                    &&& c.a_side.client_id == end.client_id
                    &&& c.b_side.client_id == end.counterparty.client_id
                    &&& !(end.state == ConnectionState::Init && end.counterparty.connection_id is None)
                        ==> c.b_side.connection_id == end.counterparty.connection_id
                },
    {
        let a_connection = match chain.query_connection(&connection.src_connection_id, height) {
            Ok(c) => c,
            Err(e) => return Err(ConnectionError::Relayer(e)),
        };
        let counterparty_connections = if a_connection.state_matches(&ConnectionState::Init)
            && a_connection.counterparty.connection_id.is_none() {
            match counterparty_chain.query_connections() {
                Ok(c) => c,
                Err(e) => return Err(ConnectionError::Relayer(e)),
            }
        } else {
            Vec::new()
        };
        let state = a_connection.state;
        let c = Self::from_local_end(
            chain,
            counterparty_chain,
            &connection.src_connection_id,
            &a_connection,
            &counterparty_connections,
        );
        assert(c.delay_period == a_connection.delay_period && a_connection.state == state);
        Ok((c, state))
    }

    /// Rebuilds an already open connection from its end on chain A, checked against the
    /// two clients.
    pub fn find(
        a_client: ForeignClient<ChainA, ChainB>,
        b_client: ForeignClient<ChainB, ChainA>,
        conn_end_a: &IdentifiedConnectionEnd,
    ) -> (r: Result<Self, ConnectionError>)
        ensures
            !clients_match(a_client, b_client) ==> (r matches Err(e) && e is ChainIdMismatch),
            clients_match(a_client, b_client) && conn_end_a.connection_end.client_id@
                != a_client.id@ ==> r == Err::<Self, ConnectionError>(
                ConnectionError::ConnectionClientIdMismatch {
                    client_id: conn_end_a.connection_end.client_id,
                    foreign_client_id: a_client.id,
                },
            ),
            clients_match(a_client, b_client) && conn_end_a.connection_end.client_id@ == a_client.id@
                && conn_end_a.connection_end.counterparty.client_id@ != b_client.id@ ==> r == Err::<
                Self,
                ConnectionError,
            >(
                ConnectionError::ConnectionClientIdMismatch {
                    client_id: conn_end_a.connection_end.counterparty.client_id,
                    foreign_client_id: b_client.id,
                },
            ),
            clients_match(a_client, b_client) && conn_end_a.connection_end.client_id@ == a_client.id@
                && conn_end_a.connection_end.counterparty.client_id@ == b_client.id@
                && conn_end_a.connection_end.state != ConnectionState::Open ==> r == Err::<
                Self,
                ConnectionError,
            >(ConnectionError::ConnectionNotOpen { state: conn_end_a.connection_end.state }),
            clients_match(a_client, b_client) && conn_end_a.connection_end.client_id@ == a_client.id@
                && conn_end_a.connection_end.counterparty.client_id@ == b_client.id@
                && conn_end_a.connection_end.state == ConnectionState::Open
                && conn_end_a.connection_end.counterparty.connection_id is None ==> (r matches Err(
                ConnectionError::MissingCounterpartyConnectionIdField { counterparty: c },
            ) && c.client_id == conn_end_a.connection_end.counterparty.client_id && c.connection_id is None
                && c.prefix@ == conn_end_a.connection_end.counterparty.prefix@),
            r is Ok <==> {
                &&& clients_match(a_client, b_client)
                &&& conn_end_a.connection_end.client_id@ == a_client.id@
                &&& conn_end_a.connection_end.counterparty.client_id@ == b_client.id@
                &&& conn_end_a.connection_end.state == ConnectionState::Open
                &&& conn_end_a.connection_end.counterparty.connection_id is Some
            },
            r matches Ok(c) ==> {
                &&& c.delay_period == conn_end_a.connection_end.delay_period
                &&& c.a_side.chain == a_client.dst_chain
                &&& c.a_side.client_id == a_client.id
                &&& c.a_side.connection_id == Some(conn_end_a.connection_id)
                &&& c.b_side.chain == b_client.dst_chain
                &&& c.b_side.client_id == b_client.id
                &&& c.b_side.connection_id == conn_end_a.connection_end.counterparty.connection_id
            },
    {
        Self::validate_clients(&a_client, &b_client)?;
        let end_a = &conn_end_a.connection_end;
        if end_a.client_id != a_client.id {
            return Err(
                ConnectionError::ConnectionClientIdMismatch {
                    client_id: end_a.client_id(),
                    foreign_client_id: a_client.id,
                },
            );
        }
        if end_a.counterparty.client_id != b_client.id {
            return Err(
                ConnectionError::ConnectionClientIdMismatch {
                    client_id: end_a.counterparty.client_id(),
                    foreign_client_id: b_client.id,
                },
            );
        }
        if !end_a.is_open() {
            return Err(ConnectionError::ConnectionNotOpen { state: end_a.state });
        }
        let b_conn_id = match end_a.counterparty.connection_id() {
            Some(id) => id,
            None => {
                return Err(
                    ConnectionError::MissingCounterpartyConnectionIdField {
                        counterparty: end_a.counterparty(),
                    },
                );
            },
        };
        Ok(
            Connection {
                delay_period: end_a.delay_period,
                a_side: ConnectionSide::new(
                    a_client.dst_chain,
                    a_client.id,
                    Some(conn_end_a.connection_id()),
                ),
                b_side: ConnectionSide::new(b_client.dst_chain, b_client.id, Some(b_conn_id)),
            },
        )
    }

    pub fn src_chain(&self) -> (r: &ChainA)
        ensures
            *r == self.a_side.chain,
    {
        &self.a_side.chain
    }

    pub fn dst_chain(&self) -> (r: &ChainB)
        ensures
            *r == self.b_side.chain,
    {
        &self.b_side.chain
    }

    pub fn src_client_id(&self) -> (r: ClientId)
        ensures
            r == self.a_side.client_id,
    {
        self.a_side.client_id.clone()
    }

    pub fn dst_client_id(&self) -> (r: ClientId)
        ensures
            r == self.b_side.client_id,
    {
        self.b_side.client_id.clone()
    }

    pub fn src_connection_id(&self) -> (r: Option<ConnectionId>)
        ensures
            r == self.a_side.connection_id,
    {
        self.a_side.connection_id()
    }

    pub fn dst_connection_id(&self) -> (r: Option<ConnectionId>)
        ensures
            r == self.b_side.connection_id,
    {
        self.b_side.connection_id()
    }

    /// The same connection seen from chain B: the two sides swap.
    pub fn flipped(&self) -> (r: Connection<ChainB, ChainA>)
        ensures
            r.delay_period == self.delay_period,
            cloned(self.b_side.chain, r.a_side.chain),
            cloned(self.a_side.chain, r.b_side.chain),
            r.a_side.client_id == self.b_side.client_id,
            r.a_side.connection_id == self.b_side.connection_id,
            r.b_side.client_id == self.a_side.client_id,
            r.b_side.connection_id == self.a_side.connection_id,
    {
        Connection {
            delay_period: self.delay_period,
            a_side: self.b_side.duplicate(),
            b_side: self.a_side.duplicate(),
        }
    }
}

} // verus!
