use vstd::prelude::*;

use crate::ident::{ChainId, ChannelId, ClientId, ConnectionId, Height, PortId};

verus! {

/// The state of a connection end. The states are totally ordered:
/// `Uninitialized < Init < TryOpen < Open`, and a connection never regresses.
#[derive(Clone, Copy, Debug, PartialEq, Eq, Structural)]
pub enum ConnectionState {
    Uninitialized,
    Init,
    TryOpen,
    Open,
}

impl ConnectionState {
    /// The position of the state in the handshake order.
    pub open spec fn rank(self) -> nat {
        match self {
            ConnectionState::Uninitialized => 0,
            ConnectionState::Init => 1,
            ConnectionState::TryOpen => 2,
            ConnectionState::Open => 3,
        }
    }

    /// The position of the state in the handshake order, as a number.
    pub fn as_u32(&self) -> (r: u32)
        ensures
            r == self.rank(),
    {
        match self {
            ConnectionState::Uninitialized => 0,
            ConnectionState::Init => 1,
            ConnectionState::TryOpen => 2,
            ConnectionState::Open => 3,
        }
    }

    /// Whether `self` comes no later than `other` in the handshake order.
    pub fn precedes_or_equals(&self, other: &ConnectionState) -> (r: bool)
        ensures
            r == (self.rank() <= other.rank()),
    {
        self.as_u32() <= other.as_u32()
    }
}

/// The handshake order on connection states is total: of two states, either they are the
/// same or one comes strictly before the other.
pub proof fn connection_state_order_is_total(a: ConnectionState, b: ConnectionState)
    ensures
        a == b || a.rank() < b.rank() || b.rank() < a.rank(),
        a.rank() == b.rank() ==> a == b,
        a.rank() <= 3,
{
}

/// The state of a channel end.
#[derive(Clone, Copy, Debug, PartialEq, Eq, Structural)]
pub enum ChannelState {
    Uninitialized,
    Init,
    TryOpen,
    Open,
    Closed,
}

/// A connection version: an identifier and the features it supports.
#[derive(Debug)]
pub struct Version {
    pub identifier: String,
    pub features: Vec<String>,
}

impl Version {
    /// Two versions are the same when their identifiers and features are.
    pub open spec fn same_as(&self, other: Version) -> bool {
        &&& self.identifier@ == other.identifier@
        &&& self.features@.len() == other.features@.len()
        &&& forall|i: int| 0 <= i < self.features@.len() ==> #[trigger] self.features@[i]@ == other.features@[i]@
    }
}

impl Clone for Version {
    fn clone(&self) -> (r: Self)
        ensures
            r.same_as(*self),
    {
        let mut features: Vec<String> = Vec::new();
        let mut i: usize = 0;
        while i < self.features.len()
            invariant
                i <= self.features@.len(),
                features@.len() == i,
                forall|j: int| 0 <= j < i ==> #[trigger] features@[j]@ == self.features@[j]@,
            decreases self.features@.len() - i,
        {
            features.push(self.features[i].clone());
            i = i + 1;
        }
        Version { identifier: self.identifier.clone(), features }
    }
}

/// The prefix under which a chain commits its state.
#[derive(Debug)]
pub struct CommitmentPrefix(pub Vec<u8>);

impl View for CommitmentPrefix {
    type V = Seq<u8>;

    open spec fn view(&self) -> Seq<u8> {
        self.0@
    }
}

impl Clone for CommitmentPrefix {
    fn clone(&self) -> (r: Self)
        ensures
            r@ == self@,
    {
        let mut v: Vec<u8> = Vec::new();
        let mut i: usize = 0;
        while i < self.0.len()
            invariant
                i <= self.0@.len(),
                v@ == self.0@.subrange(0, i as int),
            decreases self.0@.len() - i,
        {
            v.push(self.0[i]);
            i = i + 1;
        }
        assert(v@ =~= self.0@);
        CommitmentPrefix(v)
    }
}

/// The account that signs the messages sent to a chain.
#[derive(Clone, Debug)]
pub struct Signer(pub String);

/// The view one chain has of the other end of a connection.
#[derive(Debug)]
pub struct Counterparty {
    pub client_id: ClientId,
    /// Absent while the other chain has not yet assigned its connection identifier.
    pub connection_id: Option<ConnectionId>,
    pub prefix: CommitmentPrefix,
}

impl Clone for Counterparty {
    fn clone(&self) -> (r: Self)
        ensures
            r.client_id == self.client_id,
            r.connection_id == self.connection_id,
            r.prefix@ == self.prefix@,
    {
        Counterparty {
            client_id: self.client_id.clone(),
            connection_id: crate::ident::clone_connection_id(&self.connection_id),
            prefix: self.prefix.clone(),
        }
    }
}

impl Counterparty {
    pub fn new(client_id: ClientId, connection_id: Option<ConnectionId>, prefix: CommitmentPrefix) -> (r: Self)
        ensures
            r.client_id == client_id,
            r.connection_id == connection_id,
            r.prefix == prefix,
    {
        Counterparty { client_id, connection_id, prefix }
    }

    pub fn client_id(&self) -> (r: ClientId)
        ensures
            r == self.client_id,
    {
        self.client_id.clone()
    }

    pub fn connection_id(&self) -> (r: Option<ConnectionId>)
        ensures
            r == self.connection_id,
    {
        crate::ident::clone_connection_id(&self.connection_id)
    }

    pub fn commitment_prefix(&self) -> (r: CommitmentPrefix)
        ensures
            r@ == self.prefix@,
    {
        self.prefix.clone()
    }
}

/// A connection end as stored on a chain.
#[derive(Clone, Debug)]
pub struct ConnectionEnd {
    pub state: ConnectionState,
    pub client_id: ClientId,
    pub counterparty: Counterparty,
    pub versions: Vec<Version>,
    /// The delay period, in nanoseconds.
    pub delay_period: u64,
}

impl ConnectionEnd {
    /// A connection end is well formed when its counterparty connection identifier
    /// is absent in `Init` and present from `TryOpen` on.
    pub open spec fn well_formed(&self) -> bool {
        &&& self.state == ConnectionState::Init ==> self.counterparty.connection_id is None
        &&& self.state.rank() >= 2 ==> self.counterparty.connection_id is Some
    }

    pub fn new(
        state: ConnectionState,
        client_id: ClientId,
        counterparty: Counterparty,
        versions: Vec<Version>,
        delay_period: u64,
    ) -> (r: Self)
        ensures
            r.state == state,
            r.client_id == client_id,
            r.counterparty == counterparty,
            r.versions == versions,
            r.delay_period == delay_period,
    {
        ConnectionEnd { state, client_id, counterparty, versions, delay_period }
    }

    pub fn state(&self) -> (r: ConnectionState)
        ensures
            r == self.state,
    {
        self.state
    }

    pub fn client_id(&self) -> (r: ClientId)
        ensures
            r == self.client_id,
    {
        self.client_id.clone()
    }

    pub fn counterparty(&self) -> (r: Counterparty)
        ensures
            r.client_id == self.counterparty.client_id,
            r.connection_id == self.counterparty.connection_id,
            r.prefix@ == self.counterparty.prefix@,
    {
        self.counterparty.clone()
    }

    pub fn versions(&self) -> (r: Vec<Version>)
        ensures
            r@.len() == self.versions@.len(),
            forall|i: int| 0 <= i < r@.len() ==> #[trigger] r@[i].same_as(self.versions@[i]),
    {
        let mut out: Vec<Version> = Vec::new();
        let mut i: usize = 0;
        while i < self.versions.len()
            invariant
                i <= self.versions@.len(),
                out@.len() == i,
                forall|j: int| 0 <= j < i ==> #[trigger] out@[j].same_as(self.versions@[j]),
            decreases self.versions@.len() - i,
        {
            out.push(self.versions[i].clone());
            i = i + 1;
        }
        out
    }

    pub fn delay_period(&self) -> (r: u64)
        ensures
            r == self.delay_period,
    {
        self.delay_period
    }

    pub fn state_matches(&self, other: &ConnectionState) -> (r: bool)
        ensures
            r == (self.state == *other),
    {
        self.state == *other
    }

    pub fn client_id_matches(&self, other: &ClientId) -> (r: bool)
        ensures
            r == (self.client_id@ == other@),
    {
        self.client_id == *other
    }

    pub fn is_open(&self) -> (r: bool)
        ensures
            r == (self.state == ConnectionState::Open),
    {
        self.state == ConnectionState::Open
    }
}

/// A connection end together with its identifier on the chain that stores it.
#[derive(Clone, Debug)]
pub struct IdentifiedConnectionEnd {
    pub connection_id: ConnectionId,
    pub connection_end: ConnectionEnd,
}

impl IdentifiedConnectionEnd {
    pub fn new(connection_id: ConnectionId, connection_end: ConnectionEnd) -> (r: Self)
        ensures
            r.connection_id == connection_id,
            r.connection_end == connection_end,
    {
        IdentifiedConnectionEnd { connection_id, connection_end }
    }

    pub fn connection_id(&self) -> (r: ConnectionId)
        ensures
            r == self.connection_id,
    {
        self.connection_id.clone()
    }

    pub fn connection_end(&self) -> (r: &ConnectionEnd)
        ensures
            *r == self.connection_end,
    {
        &self.connection_end
    }

    pub fn counterparty(&self) -> (r: Counterparty)
        ensures
            r.client_id == self.connection_end.counterparty.client_id,
            r.connection_id == self.connection_end.counterparty.connection_id,
            r.prefix@ == self.connection_end.counterparty.prefix@,
    {
        self.connection_end.counterparty()
    }
}

/// The other end of a channel, as one chain records it.
#[derive(Clone, Debug)]
pub struct ChannelCounterparty {
    pub port_id: PortId,
    /// Absent while the other chain has not yet assigned its channel identifier.
    pub channel_id: Option<ChannelId>,
}

/// A channel end as stored on a chain.
#[derive(Clone, Debug)]
pub struct ChannelEnd {
    pub state: ChannelState,
    pub remote: ChannelCounterparty,
    pub connection_hops: Vec<ConnectionId>,
}

/// A channel end together with its port and channel identifiers.
#[derive(Clone, Debug)]
pub struct IdentifiedChannelEnd {
    pub port_id: PortId,
    pub channel_id: ChannelId,
    pub channel_end: ChannelEnd,
}

/// A port and a channel identifier.
#[derive(Debug)]
pub struct PortChannelId {
    pub port_id: PortId,
    pub channel_id: ChannelId,
}

impl Clone for PortChannelId {
    fn clone(&self) -> (r: Self)
        ensures
            r == *self,
    {
        PortChannelId { port_id: self.port_id.clone(), channel_id: self.channel_id.clone() }
    }
}

/// The state of a light client, as far as this library reads it: the chain it tracks
/// and its latest height. The encoding is carried along for the messages that embed it.
#[derive(Clone, Debug)]
pub struct ClientState {
    pub chain_id: ChainId,
    pub latest_height: Height,
    pub encoded: Vec<u8>,
}

/// A client state together with the identifier of the client.
#[derive(Clone, Debug)]
pub struct IdentifiedClientState {
    pub client_id: ClientId,
    pub client_state: ClientState,
}

/// The proofs of a connection handshake step, taken at `height` on the chain that
/// produced them.
#[derive(Clone, Debug)]
pub struct Proofs {
    pub height: Height,
    pub encoded: Vec<u8>,
}

} // verus!
