use vstd::prelude::*;

verus! {

/// Identifier of a chain.
#[derive(Debug)]
pub struct ChainId(pub String);

/// Identifier of a light client hosted on a chain.
#[derive(Debug)]
pub struct ClientId(pub String);

/// Identifier of a connection end on a chain.
#[derive(Debug)]
pub struct ConnectionId(pub String);

/// Identifier of a channel end on a chain.
#[derive(Debug)]
pub struct ChannelId(pub String);

/// Identifier of a port on a chain.
#[derive(Debug)]
pub struct PortId(pub String);

impl View for ChainId {
    type V = Seq<char>;

    open spec fn view(&self) -> Seq<char> {
        self.0@
    }
}

impl View for ClientId {
    type V = Seq<char>;

    open spec fn view(&self) -> Seq<char> {
        self.0@
    }
}

impl View for ConnectionId {
    type V = Seq<char>;

    open spec fn view(&self) -> Seq<char> {
        self.0@
    }
}

impl View for ChannelId {
    type V = Seq<char>;

    open spec fn view(&self) -> Seq<char> {
        self.0@
    }
}

impl View for PortId {
    type V = Seq<char>;

    open spec fn view(&self) -> Seq<char> {
        self.0@
    }
}

impl Clone for ChainId {
    fn clone(&self) -> (r: Self)
        ensures
            r == *self,
    {
        ChainId(self.0.clone())
    }
}

impl Clone for ClientId {
    fn clone(&self) -> (r: Self)
        ensures
            r == *self,
    {
        ClientId(self.0.clone())
    }
}

impl Clone for ConnectionId {
    fn clone(&self) -> (r: Self)
        ensures
            r == *self,
    {
        ConnectionId(self.0.clone())
    }
}

impl Clone for ChannelId {
    fn clone(&self) -> (r: Self)
        ensures
            r == *self,
    {
        ChannelId(self.0.clone())
    }
}

impl Clone for PortId {
    fn clone(&self) -> (r: Self)
        ensures
            r == *self,
    {
        PortId(self.0.clone())
    }
}

impl PartialEq for ChainId {
    fn eq(&self, o: &ChainId) -> (r: bool) {
        self.0 == o.0
    }
}

impl vstd::std_specs::cmp::PartialEqSpecImpl for ChainId {
    open spec fn obeys_eq_spec() -> bool {
        true
    }

    open spec fn eq_spec(&self, o: &ChainId) -> bool {
        self@ == o@
    }
}

impl PartialEq for ClientId {
    fn eq(&self, o: &ClientId) -> (r: bool) {
        self.0 == o.0
    }
}

impl vstd::std_specs::cmp::PartialEqSpecImpl for ClientId {
    open spec fn obeys_eq_spec() -> bool {
        true
    }

    open spec fn eq_spec(&self, o: &ClientId) -> bool {
        self@ == o@
    }
}

impl PartialEq for ConnectionId {
    fn eq(&self, o: &ConnectionId) -> (r: bool) {
        self.0 == o.0
    }
}

impl vstd::std_specs::cmp::PartialEqSpecImpl for ConnectionId {
    open spec fn obeys_eq_spec() -> bool {
        true
    }

    open spec fn eq_spec(&self, o: &ConnectionId) -> bool {
        self@ == o@
    }
}

impl PartialEq for ChannelId {
    fn eq(&self, o: &ChannelId) -> (r: bool) {
        self.0 == o.0
    }
}

impl vstd::std_specs::cmp::PartialEqSpecImpl for ChannelId {
    open spec fn obeys_eq_spec() -> bool {
        true
    }

    open spec fn eq_spec(&self, o: &ChannelId) -> bool {
        self@ == o@
    }
}

impl PartialEq for PortId {
    fn eq(&self, o: &PortId) -> (r: bool) {
        self.0 == o.0
    }
}

impl vstd::std_specs::cmp::PartialEqSpecImpl for PortId {
    open spec fn obeys_eq_spec() -> bool {
        true
    }

    open spec fn eq_spec(&self, o: &PortId) -> bool {
        self@ == o@
    }
}

/// The view of an optional identifier: its characters, if it is there.
pub open spec fn opt_view<T: View<V = Seq<char>>>(o: Option<T>) -> Option<Seq<char>> {
    match o {
        Some(x) => Some(x@),
        None => None,
    }
}

/// Compares two optional connection identifiers by their characters.
pub fn same_connection_id(a: &Option<ConnectionId>, b: &Option<ConnectionId>) -> (r: bool)
    ensures
        r == (opt_view(*a) == opt_view(*b)),
{
    match (a, b) {
        (Some(x), Some(y)) => x == y,
        (None, None) => true,
        _ => false,
    }
}

/// Copies an optional connection identifier.
pub fn clone_connection_id(a: &Option<ConnectionId>) -> (r: Option<ConnectionId>)
    ensures
        r == *a,
{
    match a {
        Some(x) => Some(x.clone()),
        None => None,
    }
}

/// A height on a chain: a revision number and a height within that revision.
/// The zero height stands for "the latest committed height".
#[derive(Clone, Copy, Debug, PartialEq, Eq, Structural)]
pub struct Height {
    pub revision_number: u64,
    pub revision_height: u64,
}

impl Height {
    /// The height that designates the latest committed state of a chain.
    pub fn zero() -> (r: Height)
        ensures
            r.revision_number == 0,
            r.revision_height == 0,
    {
        Height { revision_number: 0, revision_height: 0 }
    }
}

} // verus!
