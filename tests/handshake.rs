use std::cell::RefCell;
use std::rc::Rc;

use relayer::connection::{find_mirror_connection, Connection, ConnectionObject, ForeignClient, MAX_PACKET_DELAY};
use relayer::counterparty::{
    channel_connection_client, channel_on_destination, connection_state_on_destination,
    counterparty_chain_from_connection,
};
use relayer::ends::{
    ChannelCounterparty, ChannelEnd, ChannelState, ClientState, CommitmentPrefix, ConnectionEnd,
    ConnectionState, Counterparty, IdentifiedChannelEnd, IdentifiedConnectionEnd, Proofs, Signer,
    Version,
};
use relayer::error::{ConnectionError, ForeignClientError, RelayerError, SupervisorError};
use relayer::events::{ConnectionAttributes, IbcEvent};
use relayer::handle::ChainHandle;
use relayer::ident::{ChainId, ChannelId, ClientId, ConnectionId, Height, PortId};
use relayer::msgs::{ConnectionMsg, EncodedMsg};
use relayer::ConnectionMsgType;

struct MockState {
    id: String,
    next_connection: u64,
    height: u64,
    connections: Vec<IdentifiedConnectionEnd>,
    clients: Vec<(String, String)>,
    channels: Vec<IdentifiedChannelEnd>,
    failing_sends: usize,
    sent: Vec<ConnectionMsg>,
}

#[derive(Clone)]
struct MockChain(Rc<RefCell<MockState>>);

fn err(detail: &str) -> RelayerError {
    RelayerError { detail: detail.to_string() }
}

fn version() -> Version {
    Version { identifier: "1".to_string(), features: vec!["ORDER_ORDERED".to_string()] }
}

fn attributes(connection_id: Option<ConnectionId>, end: &ConnectionEnd) -> ConnectionAttributes {
    ConnectionAttributes {
        height: Height { revision_number: 0, revision_height: 1 },
        connection_id,
        client_id: end.client_id.clone(),
        counterparty_connection_id: end.counterparty.connection_id.clone(),
        counterparty_client_id: end.counterparty.client_id.clone(),
    }
}

impl MockChain {
    fn new(id: &str, first_connection: u64) -> MockChain {
        MockChain(Rc::new(RefCell::new(MockState {
            id: id.to_string(),
            next_connection: first_connection,
            height: 10,
            connections: vec![],
            clients: vec![],
            channels: vec![],
            failing_sends: 0,
            sent: vec![],
        })))
    }

    fn add_client(&self, client_id: &str, tracked_chain: &str) {
        self.0.borrow_mut().clients.push((client_id.to_string(), tracked_chain.to_string()));
    }

    fn add_connection(&self, id: &str, end: ConnectionEnd) {
        self.0.borrow_mut().connections.push(IdentifiedConnectionEnd::new(cid(id), end));
    }

    fn add_channel(&self, port: &str, channel: &str, end: ChannelEnd) {
        self.0.borrow_mut().channels.push(IdentifiedChannelEnd {
            port_id: PortId(port.to_string()),
            channel_id: ChannelId(channel.to_string()),
            channel_end: end,
        });
    }

    fn state_of(&self, id: &str) -> ConnectionState {
        let st = self.0.borrow();
        st.connections.iter().find(|c| c.connection_id.0 == id).unwrap().connection_end.state
    }

    fn sent(&self) -> Vec<ConnectionMsg> {
        self.0.borrow().sent.clone()
    }

    fn new_connection(&self, end: ConnectionEnd) -> ConnectionId {
        let mut st = self.0.borrow_mut();
        let id = ConnectionId(format!("conn-{}", st.next_connection));
        st.next_connection += 1;
        st.connections.push(IdentifiedConnectionEnd::new(id.clone(), end));
        id
    }

    fn end_mut<F: FnOnce(&mut ConnectionEnd)>(&self, id: &ConnectionId, f: F) -> Option<ConnectionEnd> {
        let mut st = self.0.borrow_mut();
        let c = st.connections.iter_mut().find(|c| c.connection_id.0 == id.0)?;
        f(&mut c.connection_end);
        Some(c.connection_end.clone())
    }
}

impl ChainHandle for MockChain {
    fn id(&self) -> ChainId {
        ChainId(self.0.borrow().id.clone())
    }

    fn query_latest_height(&self) -> Result<Height, RelayerError> {
        Ok(Height { revision_number: 0, revision_height: self.0.borrow().height })
    }

    fn query_commitment_prefix(&self) -> Result<CommitmentPrefix, RelayerError> {
        Ok(CommitmentPrefix(b"ibc".to_vec()))
    }

    fn query_compatible_versions(&self) -> Result<Vec<Version>, RelayerError> {
        Ok(vec![version()])
    }

    fn query_connection(&self, connection_id: &ConnectionId, _height: Height) -> Result<ConnectionEnd, RelayerError> {
        let st = self.0.borrow();
        match st.connections.iter().find(|c| c.connection_id.0 == connection_id.0) {
            Some(c) => Ok(c.connection_end.clone()),
            None => Ok(ConnectionEnd::new(
                ConnectionState::Uninitialized,
                ClientId(String::new()),
                Counterparty::new(ClientId(String::new()), None, CommitmentPrefix(vec![])),
                vec![],
                0,
            )),
        }
    }

    fn query_client_state(&self, client_id: &ClientId, _height: Height) -> Result<ClientState, RelayerError> {
        let st = self.0.borrow();
        match st.clients.iter().find(|c| c.0 == client_id.0) {
            Some((_, target)) => Ok(ClientState {
                chain_id: ChainId(target.clone()),
                latest_height: Height { revision_number: 0, revision_height: 5 },
                encoded: vec![1, 2, 3],
            }),
            None => Err(err("no such client")),
        }
    }

    fn query_client_connections(&self, client_id: &ClientId) -> Result<Vec<ConnectionId>, RelayerError> {
        let st = self.0.borrow();
        Ok(st
            .connections
            .iter()
            .filter(|c| c.connection_end.client_id.0 == client_id.0)
            .map(|c| c.connection_id.clone())
            .collect())
    }

    fn query_connections(&self) -> Result<Vec<IdentifiedConnectionEnd>, RelayerError> {
        Ok(self.0.borrow().connections.clone())
    }

    fn query_channel(&self, port_id: &PortId, channel_id: &ChannelId, _height: Height) -> Result<ChannelEnd, RelayerError> {
        let st = self.0.borrow();
        match st.channels.iter().find(|c| c.port_id.0 == port_id.0 && c.channel_id.0 == channel_id.0) {
            Some(c) => Ok(c.channel_end.clone()),
            None => Ok(ChannelEnd {
                state: ChannelState::Uninitialized,
                remote: ChannelCounterparty { port_id: PortId(String::new()), channel_id: None },
                connection_hops: vec![],
            }),
        }
    }

    fn query_connection_channels(&self, connection_id: &ConnectionId) -> Result<Vec<IdentifiedChannelEnd>, RelayerError> {
        let st = self.0.borrow();
        Ok(st
            .channels
            .iter()
            .filter(|c| c.channel_end.connection_hops.first().map(|h| h.0 == connection_id.0).unwrap_or(false))
            .cloned()
            .collect())
    }

    fn build_connection_proofs_and_client_state(
        &self,
        _msg_type: ConnectionMsgType,
        _connection_id: &ConnectionId,
        client_id: &ClientId,
        height: Height,
    ) -> Result<(ClientState, Proofs), RelayerError> {
        let cs = self.query_client_state(client_id, height)?;
        Ok((cs, Proofs { height, encoded: vec![9] }))
    }

    fn get_signer(&self) -> Result<Signer, RelayerError> {
        Ok(Signer("relayer".to_string()))
    }

    fn send_msgs(&self, msgs: Vec<ConnectionMsg>) -> Result<Vec<IbcEvent>, RelayerError> {
        {
            let mut st = self.0.borrow_mut();
            if st.failing_sends > 0 {
                st.failing_sends -= 1;
                return Err(err("submission failed"));
            }
            st.sent.extend(msgs.iter().cloned());
            st.height += 1;
        }
        let mut events = vec![];
        for m in msgs {
            match m {
                ConnectionMsg::UpdateClient(_) => {}
                ConnectionMsg::OpenInit(m) => {
                    let end = ConnectionEnd::new(ConnectionState::Init, m.client_id, m.counterparty, vec![m.version], m.delay_period);
                    let id = self.new_connection(end.clone());
                    events.push(IbcEvent::OpenInitConnection(attributes(Some(id), &end)));
                }
                ConnectionMsg::OpenTry(m) => {
                    let end = ConnectionEnd::new(ConnectionState::TryOpen, m.client_id, m.counterparty, m.counterparty_versions, m.delay_period);
                    let id = self.new_connection(end.clone());
                    events.push(IbcEvent::OpenTryConnection(attributes(Some(id), &end)));
                }
                ConnectionMsg::OpenAck(m) => {
                    let cp = m.counterparty_connection_id.clone();
                    match self.end_mut(&m.connection_id, |e| {
                        e.state = ConnectionState::Open;
                        e.counterparty.connection_id = Some(cp);
                    }) {
                        Some(end) => events.push(IbcEvent::OpenAckConnection(attributes(Some(m.connection_id), &end))),
                        None => events.push(IbcEvent::ChainError("unknown connection".to_string())),
                    }
                }
                ConnectionMsg::OpenConfirm(m) => {
                    match self.end_mut(&m.connection_id, |e| e.state = ConnectionState::Open) {
                        Some(end) => events.push(IbcEvent::OpenConfirmConnection(attributes(Some(m.connection_id), &end))),
                        None => events.push(IbcEvent::ChainError("unknown connection".to_string())),
                    }
                }
            }
        }
        Ok(events)
    }

    fn build_update_client(&self, _client_id: &ClientId, target_height: Height) -> Result<Vec<EncodedMsg>, ForeignClientError> {
        Ok(vec![EncodedMsg {
            type_url: "/ibc.core.client.v1.MsgUpdateClient".to_string(),
            value: target_height.revision_height.to_le_bytes().to_vec(),
        }])
    }
}

fn cid(s: &str) -> ConnectionId {
    ConnectionId(s.to_string())
}

fn client(s: &str) -> ClientId {
    ClientId(s.to_string())
}

fn end(state: ConnectionState, client_id: &str, cp_client: &str, cp_conn: Option<&str>) -> ConnectionEnd {
    ConnectionEnd::new(
        state,
        client(client_id),
        Counterparty::new(client(cp_client), cp_conn.map(cid), CommitmentPrefix(b"ibc".to_vec())),
        vec![version()],
        0,
    )
}

/// Two healthy chains: chain A hosts client `07-b` of chain B, chain B hosts `07-a` of A.
fn chains() -> (MockChain, MockChain) {
    let a = MockChain::new("chain-a", 3);
    let b = MockChain::new("chain-b", 7);
    a.add_client("07-b", "chain-b");
    b.add_client("07-a", "chain-a");
    (a, b)
}

fn clients(a: &MockChain, b: &MockChain) -> (ForeignClient<MockChain, MockChain>, ForeignClient<MockChain, MockChain>) {
    (
        ForeignClient::new(client("07-b"), a.clone(), b.clone()),
        ForeignClient::new(client("07-a"), b.clone(), a.clone()),
    )
}

#[test]
fn fresh_handshake_opens_both_ends() {
    let (a, b) = chains();
    let (ca, cb) = clients(&a, &b);
    let c = Connection::new(ca, cb, 10_000_000_000).unwrap();
    assert_eq!(c.a_side.connection_id.as_ref().unwrap().0, "conn-3");
    assert_eq!(c.b_side.connection_id.as_ref().unwrap().0, "conn-7");
    assert_eq!(a.state_of("conn-3"), ConnectionState::Open);
    assert_eq!(b.state_of("conn-7"), ConnectionState::Open);
    assert_eq!(c.delay_period, 10_000_000_000);
    let a_kinds: Vec<bool> = a.sent().iter().map(|m| matches!(m, ConnectionMsg::OpenInit(_) | ConnectionMsg::OpenAck(_))).collect();
    assert!(a_kinds.iter().any(|k| *k));
    assert!(b.sent().iter().any(|m| matches!(m, ConnectionMsg::OpenTry(_))));
    assert!(b.sent().iter().any(|m| matches!(m, ConnectionMsg::OpenConfirm(_))));
}

#[test]
fn delay_at_the_bound_is_accepted() {
    let (a, b) = chains();
    let (ca, cb) = clients(&a, &b);
    let c = Connection::new(ca, cb, MAX_PACKET_DELAY).unwrap();
    assert_eq!(c.delay_period, 120_000_000_000);
}

#[test]
fn delay_over_the_bound_is_refused() {
    let (a, b) = chains();
    let (ca, cb) = clients(&a, &b);
    match Connection::new(ca, cb, MAX_PACKET_DELAY + 1) {
        Err(ConnectionError::MaxDelayPeriod { delay_period }) => assert_eq!(delay_period, 120_000_000_001),
        _ => panic!("expected a max delay period error"),
    }
    assert!(a.sent().is_empty());
}

#[test]
fn mismatched_clients_are_refused() {
    let (a, b) = chains();
    let c = MockChain::new("chain-c", 0);
    let ca = ForeignClient::new(client("07-b"), a.clone(), b.clone());
    let cb = ForeignClient::new(client("07-a"), b.clone(), c.clone());
    match Connection::new(ca, cb, 0) {
        Err(ConnectionError::ChainIdMismatch { source_chain_id, destination_chain_id }) => {
            assert_eq!(source_chain_id.0, "chain-a");
            assert_eq!(destination_chain_id.0, "chain-c");
        }
        _ => panic!("expected a chain id mismatch"),
    }
}

#[test]
fn five_failed_inits_exhaust_the_retries() {
    let (a, b) = chains();
    a.0.borrow_mut().failing_sends = 5;
    let (ca, cb) = clients(&a, &b);
    assert!(matches!(Connection::new(ca, cb, 0), Err(ConnectionError::MaxRetry)));
    assert!(b.sent().is_empty());
}

#[test]
fn four_failed_inits_then_success() {
    let (a, b) = chains();
    a.0.borrow_mut().failing_sends = 4;
    let (ca, cb) = clients(&a, &b);
    let mut c = Connection::unopened(ca, cb, 0).unwrap();
    assert!(c.a_side.connection_id.is_none());
    c.handshake().unwrap();
    assert_eq!(c.a_side.connection_id.as_ref().unwrap().0, "conn-3");
}

#[test]
fn handshake_on_open_connection_sends_nothing() {
    let (a, b) = chains();
    a.add_connection("conn-1", end(ConnectionState::Open, "07-b", "07-a", Some("conn-2")));
    b.add_connection("conn-2", end(ConnectionState::Open, "07-a", "07-b", Some("conn-1")));
    let (ca, cb) = clients(&a, &b);
    let conn_a = IdentifiedConnectionEnd::new(cid("conn-1"), end(ConnectionState::Open, "07-b", "07-a", Some("conn-2")));
    let mut c = Connection::find(ca, cb, &conn_a).unwrap();
    c.handshake().unwrap();
    assert_eq!(c.a_side.connection_id.as_ref().unwrap().0, "conn-1");
    assert_eq!(c.b_side.connection_id.as_ref().unwrap().0, "conn-2");
    assert!(a.sent().is_empty());
    assert!(b.sent().is_empty());
}

#[test]
fn restore_after_init_only_then_try() {
    let (a, b) = chains();
    a.add_connection("conn-0", end(ConnectionState::Init, "07-b", "07-a", None));
    let obj = ConnectionObject {
        dst_chain_id: ChainId("chain-b".to_string()),
        src_chain_id: ChainId("chain-a".to_string()),
        src_connection_id: cid("conn-0"),
    };
    let (c, state) = Connection::restore_from_state(a.clone(), b.clone(), &obj, Height::zero()).unwrap();
    assert_eq!(state, ConnectionState::Init);
    assert_eq!(c.a_side.connection_id.as_ref().unwrap().0, "conn-0");
    assert!(c.b_side.connection_id.is_none());
    let events = c.handshake_step(ConnectionState::Init).unwrap();
    assert_eq!(events.len(), 1);
    assert!(matches!(events[0], IbcEvent::OpenTryConnection(_)));
    assert!(b.sent().iter().any(|m| matches!(m, ConnectionMsg::OpenTry(_))));
}

#[test]
fn restore_finds_orphaned_mirror() {
    let (a, b) = chains();
    a.add_connection("conn-0", end(ConnectionState::Init, "07-b", "07-a", None));
    b.add_connection("conn-4", end(ConnectionState::TryOpen, "07-a", "07-b", Some("conn-9")));
    b.add_connection("conn-5", end(ConnectionState::TryOpen, "07-a", "07-b", Some("conn-0")));
    let obj = ConnectionObject {
        dst_chain_id: ChainId("chain-b".to_string()),
        src_chain_id: ChainId("chain-a".to_string()),
        src_connection_id: cid("conn-0"),
    };
    let (c, _) = Connection::restore_from_state(a, b, &obj, Height::zero()).unwrap();
    assert_eq!(c.b_side.connection_id.as_ref().unwrap().0, "conn-5");
    assert_eq!(c.b_side.client_id.0, "07-a");
    assert_eq!(c.a_side.client_id.0, "07-b");
}

#[test]
fn mirror_must_use_the_counterparty_client() {
    let conns = vec![
        IdentifiedConnectionEnd::new(cid("conn-5"), end(ConnectionState::TryOpen, "07-x", "07-b", Some("conn-0"))),
        IdentifiedConnectionEnd::new(cid("conn-6"), end(ConnectionState::TryOpen, "07-a", "07-b", Some("conn-0"))),
    ];
    assert_eq!(find_mirror_connection(&conns, &cid("conn-0"), &client("07-a")), Some(1));
    assert_eq!(find_mirror_connection(&conns, &cid("conn-1"), &client("07-a")), None);
}

#[test]
fn state_on_destination_by_client_connections() {
    let (a, b) = chains();
    let local = IdentifiedConnectionEnd::new(cid("conn-0"), end(ConnectionState::Init, "07-b", "07-a", None));
    assert_eq!(connection_state_on_destination(&local, &b).unwrap(), ConnectionState::Uninitialized);
    b.add_connection("conn-5", end(ConnectionState::TryOpen, "07-a", "07-b", Some("conn-0")));
    assert_eq!(connection_state_on_destination(&local, &b).unwrap(), ConnectionState::TryOpen);
    let _ = a;
}

#[test]
fn state_on_destination_by_known_id() {
    let (_a, b) = chains();
    b.add_connection("conn-5", end(ConnectionState::Open, "07-a", "07-b", Some("conn-0")));
    let local = IdentifiedConnectionEnd::new(cid("conn-0"), end(ConnectionState::Open, "07-b", "07-a", Some("conn-5")));
    assert_eq!(connection_state_on_destination(&local, &b).unwrap(), ConnectionState::Open);
}

#[test]
fn incompatible_destination_is_rejected() {
    let (a, b) = chains();
    a.add_connection("conn-0", end(ConnectionState::Init, "07-b", "07-a", None));
    b.add_connection("conn-5", end(ConnectionState::Open, "07-a", "07-zz", Some("conn-0")));
    let c = Connection {
        delay_period: 0,
        a_side: relayer::connection::ConnectionSide::new(a, client("07-b"), Some(cid("conn-0"))),
        b_side: relayer::connection::ConnectionSide::new(b, client("07-a"), Some(cid("conn-5"))),
    };
    match c.validated_expected_connection(ConnectionMsgType::OpenAck) {
        Err(ConnectionError::ConnectionAlreadyExist { connection_id }) => assert_eq!(connection_id.0, "conn-5"),
        _ => panic!("expected connection_already_exist"),
    }
}

#[test]
fn compatible_destination_is_accepted() {
    let (a, b) = chains();
    b.add_connection("conn-5", end(ConnectionState::TryOpen, "07-a", "07-b", Some("conn-0")));
    let c = Connection {
        delay_period: 0,
        a_side: relayer::connection::ConnectionSide::new(a, client("07-b"), Some(cid("conn-0"))),
        b_side: relayer::connection::ConnectionSide::new(b, client("07-a"), Some(cid("conn-5"))),
    };
    let expected = c.validated_expected_connection(ConnectionMsgType::OpenAck).unwrap();
    assert_eq!(expected.state, ConnectionState::TryOpen);
    assert_eq!(expected.client_id.0, "07-a");
    assert_eq!(expected.counterparty.client_id.0, "07-b");
    assert_eq!(expected.counterparty.connection_id.unwrap().0, "conn-0");
    assert_eq!(expected.delay_period, 0);
}

#[test]
fn missing_destination_connection() {
    let (a, b) = chains();
    let c = Connection {
        delay_period: 0,
        a_side: relayer::connection::ConnectionSide::new(a, client("07-b"), Some(cid("conn-0"))),
        b_side: relayer::connection::ConnectionSide::new(b, client("07-a"), Some(cid("conn-5"))),
    };
    match c.validated_expected_connection(ConnectionMsgType::OpenConfirm) {
        Err(ConnectionError::MissingConnectionId { chain_id }) => assert_eq!(chain_id.0, "chain-b"),
        _ => panic!("expected missing_connection_id"),
    }
}

fn channel(state: ChannelState, hops: &[&str], remote_port: &str, remote_channel: Option<&str>) -> ChannelEnd {
    ChannelEnd {
        state,
        remote: ChannelCounterparty {
            port_id: PortId(remote_port.to_string()),
            channel_id: remote_channel.map(|c| ChannelId(c.to_string())),
        },
        connection_hops: hops.iter().map(|h| cid(h)).collect(),
    }
}

#[test]
fn channel_connection_client_bundle() {
    let (a, _b) = chains();
    a.add_connection("conn-0", end(ConnectionState::Open, "07-b", "07-a", Some("conn-5")));
    a.add_channel("transfer", "channel-0", channel(ChannelState::Open, &["conn-0"], "transfer", Some("channel-3")));
    let port = PortId("transfer".to_string());
    let chan = ChannelId("channel-0".to_string());
    let bundle = channel_connection_client(&a, &port, &chan).unwrap();
    assert_eq!(bundle.connection.connection_id.0, "conn-0");
    assert_eq!(bundle.client.client_id.0, "07-b");
    assert_eq!(bundle.client.client_state.chain_id.0, "chain-b");
    assert_eq!(bundle.channel.channel_id.0, "channel-0");
}

#[test]
fn channel_connection_client_errors() {
    let (a, _b) = chains();
    let port = PortId("transfer".to_string());
    assert!(matches!(
        channel_connection_client(&a, &port, &ChannelId("channel-0".to_string())),
        Err(SupervisorError::ChannelUninitialized { .. })
    ));
    a.add_channel("transfer", "channel-1", channel(ChannelState::Init, &[], "transfer", None));
    assert!(matches!(
        channel_connection_client(&a, &port, &ChannelId("channel-1".to_string())),
        Err(SupervisorError::MissingConnectionHops { .. })
    ));
    a.add_connection("conn-1", end(ConnectionState::TryOpen, "07-b", "07-a", Some("conn-5")));
    a.add_channel("transfer", "channel-2", channel(ChannelState::Init, &["conn-1"], "transfer", None));
    match channel_connection_client(&a, &port, &ChannelId("channel-2".to_string())) {
        Err(SupervisorError::ConnectionNotOpen { connection_id, channel_id, chain_id }) => {
            assert_eq!(connection_id.0, "conn-1");
            assert_eq!(channel_id.0, "channel-2");
            assert_eq!(chain_id.0, "chain-a");
        }
        _ => panic!("expected connection_not_open"),
    }
}

#[test]
fn counterparty_chain_of_connection() {
    let (a, _b) = chains();
    a.add_connection("conn-0", end(ConnectionState::Open, "07-b", "07-a", Some("conn-5")));
    assert_eq!(counterparty_chain_from_connection(&a, &cid("conn-0")).unwrap().0, "chain-b");
}

#[test]
fn channel_mirror_found_with_or_without_remote_id() {
    let (_a, b) = chains();
    let local_conn = IdentifiedConnectionEnd::new(cid("conn-0"), end(ConnectionState::Open, "07-b", "07-a", Some("conn-5")));
    let unknown = IdentifiedChannelEnd {
        port_id: PortId("transfer".to_string()),
        channel_id: ChannelId("channel-0".to_string()),
        channel_end: channel(ChannelState::Init, &["conn-0"], "transfer", None),
    };
    assert!(channel_on_destination(&unknown, &local_conn, &b).unwrap().is_none());
    b.add_channel("transfer", "channel-3", channel(ChannelState::TryOpen, &["conn-5"], "transfer", Some("channel-0")));
    let found = channel_on_destination(&unknown, &local_conn, &b).unwrap().unwrap();
    assert_eq!(found.state, ChannelState::TryOpen);
    let known = IdentifiedChannelEnd {
        port_id: PortId("transfer".to_string()),
        channel_id: ChannelId("channel-0".to_string()),
        channel_end: channel(ChannelState::Init, &["conn-0"], "transfer", Some("channel-3")),
    };
    let found = channel_on_destination(&known, &local_conn, &b).unwrap().unwrap();
    assert_eq!(found.state, ChannelState::TryOpen);
}

#[test]
fn restore_from_init_event_reproduces_a_side() {
    let (a, b) = chains();
    let (ca, cb) = clients(&a, &b);
    let c = Connection::unopened(ca, cb, 0).unwrap();
    let event = c.flipped().build_conn_init_and_send().unwrap();
    let restored = Connection::restore_from_event(a.clone(), b.clone(), &event).unwrap();
    assert_eq!(restored.a_side.connection_id.as_ref().unwrap().0, "conn-3");
    assert_eq!(restored.a_side.client_id.0, c.a_side.client_id.0);
    assert_eq!(restored.b_side.client_id.0, c.b_side.client_id.0);
    assert!(restored.b_side.connection_id.is_none());
    assert_eq!(restored.delay_period, 0);
}

#[test]
fn restore_from_other_event_is_invalid() {
    let (a, b) = chains();
    let e = IbcEvent::Other("NewBlock".to_string());
    assert!(matches!(Connection::restore_from_event(a, b, &e), Err(ConnectionError::InvalidEvent { .. })));
}

#[test]
fn refused_submission_is_a_tx_response() {
    let (a, b) = chains();
    a.add_connection("conn-0", end(ConnectionState::Init, "07-b", "07-a", None));
    let c = Connection {
        delay_period: 0,
        a_side: relayer::connection::ConnectionSide::new(a, client("07-b"), Some(cid("conn-0"))),
        b_side: relayer::connection::ConnectionSide::new(b, client("07-a"), Some(cid("conn-99"))),
    };
    // The destination end does not exist: the Ack cannot be validated.
    assert!(matches!(c.build_conn_ack_and_send(), Err(ConnectionError::MissingConnectionId { .. })));
    // A Confirm for an unknown connection is refused by the chain.
    let msgs = c.build_conn_confirm();
    assert!(msgs.is_err());
}

#[test]
fn find_checks_the_connection_end() {
    let (a, b) = chains();
    let (ca, cb) = clients(&a, &b);
    let wrong_client = IdentifiedConnectionEnd::new(cid("conn-1"), end(ConnectionState::Open, "07-x", "07-a", Some("conn-2")));
    match Connection::find(ca, cb, &wrong_client) {
        Err(ConnectionError::ConnectionClientIdMismatch { client_id, foreign_client_id }) => {
            assert_eq!(client_id.0, "07-x");
            assert_eq!(foreign_client_id.0, "07-b");
        }
        _ => panic!("expected a client id mismatch"),
    }
    let (ca, cb) = clients(&a, &b);
    let wrong_counterparty = IdentifiedConnectionEnd::new(cid("conn-1"), end(ConnectionState::Open, "07-b", "07-y", Some("conn-2")));
    match Connection::find(ca, cb, &wrong_counterparty) {
        Err(ConnectionError::ConnectionClientIdMismatch { client_id, foreign_client_id }) => {
            assert_eq!(client_id.0, "07-y");
            assert_eq!(foreign_client_id.0, "07-a");
        }
        _ => panic!("expected a client id mismatch"),
    }
    let (ca, cb) = clients(&a, &b);
    let not_open = IdentifiedConnectionEnd::new(cid("conn-1"), end(ConnectionState::TryOpen, "07-b", "07-a", Some("conn-2")));
    assert!(matches!(
        Connection::find(ca, cb, &not_open),
        Err(ConnectionError::ConnectionNotOpen { state: ConnectionState::TryOpen })
    ));
    let (ca, cb) = clients(&a, &b);
    let no_counterparty = IdentifiedConnectionEnd::new(cid("conn-1"), end(ConnectionState::Open, "07-b", "07-a", None));
    assert!(matches!(
        Connection::find(ca, cb, &no_counterparty),
        Err(ConnectionError::MissingCounterpartyConnectionIdField { .. })
    ));
}

#[test]
fn init_message_names_the_source_client() {
    let (a, b) = chains();
    let (ca, cb) = clients(&a, &b);
    let c = Connection::unopened(ca, cb, 5).unwrap();
    let msgs = c.build_conn_init().unwrap();
    assert_eq!(msgs.len(), 1);
    match &msgs[0] {
        ConnectionMsg::OpenInit(m) => {
            assert_eq!(m.client_id.0, "07-a");
            assert_eq!(m.counterparty.client_id.0, "07-b");
            assert!(m.counterparty.connection_id.is_none());
            assert_eq!(m.counterparty.prefix.0, b"ibc".to_vec());
            assert_eq!(m.delay_period, 5);
            assert_eq!(m.version.identifier, "1");
        }
        _ => panic!("expected an OpenInit message"),
    }
}

#[test]
fn try_message_takes_the_source_delay() {
    let (a, b) = chains();
    let mut src = end(ConnectionState::Init, "07-b", "07-a", None);
    src.delay_period = 7_000_000_000;
    a.add_connection("conn-0", src);
    let c = Connection {
        delay_period: 0,
        a_side: relayer::connection::ConnectionSide::new(a.clone(), client("07-b"), Some(cid("conn-0"))),
        b_side: relayer::connection::ConnectionSide::new(b, client("07-a"), Some(cid("conn-6"))),
    };
    let msgs = c.build_conn_try().unwrap();
    assert!(msgs.len() >= 2);
    assert!(matches!(msgs[0], ConnectionMsg::UpdateClient(_)));
    match msgs.last().unwrap() {
        ConnectionMsg::OpenTry(m) => {
            assert_eq!(m.delay_period, 7_000_000_000);
            assert_eq!(m.previous_connection_id.as_ref().unwrap().0, "conn-6");
            assert_eq!(m.client_id.0, "07-a");
            assert_eq!(m.counterparty.client_id.0, "07-b");
            assert_eq!(m.counterparty.connection_id.as_ref().unwrap().0, "conn-0");
            assert_eq!(m.counterparty_versions.len(), 1);
            assert_eq!(m.client_state.chain_id.0, "chain-b");
        }
        _ => panic!("expected an OpenTry message last"),
    }
    // Chain A's client of chain B was updated first.
    assert!(matches!(a.sent()[0], ConnectionMsg::UpdateClient(_)));
}

#[test]
fn try_without_local_connection_id() {
    let (a, b) = chains();
    let (ca, cb) = clients(&a, &b);
    let c = Connection::unopened(ca, cb, 0).unwrap();
    assert!(matches!(c.build_conn_try(), Err(ConnectionError::MissingLocalConnectionId)));
    assert!(matches!(c.counterparty_state(), Err(ConnectionError::MissingLocalConnectionId)));
    assert!(matches!(c.build_conn_ack(), Err(ConnectionError::MissingLocalConnectionId)));
    assert!(matches!(c.build_conn_confirm(), Err(ConnectionError::MissingLocalConnectionId)));
    assert!(matches!(
        c.validated_expected_connection(ConnectionMsgType::OpenAck),
        Err(ConnectionError::MissingCounterpartyConnectionId)
    ));
}

#[test]
fn both_in_try_acks_a_first() {
    let (a, b) = chains();
    a.add_connection("conn-1", end(ConnectionState::TryOpen, "07-b", "07-a", Some("conn-2")));
    b.add_connection("conn-2", end(ConnectionState::TryOpen, "07-a", "07-b", Some("conn-1")));
    let mut c = Connection {
        delay_period: 0,
        a_side: relayer::connection::ConnectionSide::new(a.clone(), client("07-b"), Some(cid("conn-1"))),
        b_side: relayer::connection::ConnectionSide::new(b.clone(), client("07-a"), Some(cid("conn-2"))),
    };
    c.handshake().unwrap();
    assert!(a.sent().iter().any(|m| matches!(m, ConnectionMsg::OpenAck(_))));
    assert!(b.sent().iter().any(|m| matches!(m, ConnectionMsg::OpenConfirm(_))));
    assert!(!b.sent().iter().any(|m| matches!(m, ConnectionMsg::OpenAck(_))));
    assert_eq!(a.state_of("conn-1"), ConnectionState::Open);
    assert_eq!(b.state_of("conn-2"), ConnectionState::Open);
}

#[test]
fn step_state_retries_on_failure() {
    let (a, b) = chains();
    let (ca, cb) = clients(&a, &b);
    let c = Connection::unopened(ca, cb, 0).unwrap();
    assert_eq!(c.step_state(ConnectionState::Init, 4), relayer::handshake::RetryResult::Retry(4));
    let ev = IbcEvent::Other("NewBlock".to_string());
    assert_eq!(c.step_event(&ev, 2), relayer::handshake::RetryResult::Retry(2));
}

#[test]
fn step_event_with_nothing_to_do_succeeds() {
    let (a, b) = chains();
    a.add_connection("conn-1", end(ConnectionState::Open, "07-b", "07-a", Some("conn-2")));
    b.add_connection("conn-2", end(ConnectionState::Open, "07-a", "07-b", Some("conn-1")));
    let c = Connection {
        delay_period: 0,
        a_side: relayer::connection::ConnectionSide::new(a.clone(), client("07-b"), Some(cid("conn-1"))),
        b_side: relayer::connection::ConnectionSide::new(b.clone(), client("07-a"), Some(cid("conn-2"))),
    };
    let ev = IbcEvent::OpenConfirmConnection(attributes(Some(cid("conn-1")), &end(ConnectionState::Open, "07-b", "07-a", Some("conn-2"))));
    assert_eq!(c.step_event(&ev, 1), relayer::handshake::RetryResult::Success(()));
    assert!(b.sent().is_empty());
}

#[test]
fn assembled_messages_follow_the_source_end() {
    let (a, b) = chains();
    let c = Connection {
        delay_period: 3,
        a_side: relayer::connection::ConnectionSide::new(a, client("07-b"), Some(cid("conn-0"))),
        b_side: relayer::connection::ConnectionSide::new(b, client("07-a"), None),
    };
    let cs = ClientState { chain_id: ChainId("chain-b".to_string()), latest_height: Height::zero(), encoded: vec![] };
    let pf = Proofs { height: Height { revision_number: 0, revision_height: 12 }, encoded: vec![] };
    let v2 = Version { identifier: "2".to_string(), features: vec![] };
    // The source end lists no version: the chain's compatible versions are offered.
    let mut src = end(ConnectionState::Init, "07-b", "07-a", None);
    src.versions = vec![];
    src.delay_period = 9;
    let m = c.open_try_message(src, vec![v2.clone()], cs.clone(), pf.clone(), CommitmentPrefix(b"ibc".to_vec()), Signer("s".to_string()));
    assert_eq!(m.counterparty_versions.len(), 1);
    assert_eq!(m.counterparty_versions[0].identifier, "2");
    assert_eq!(m.delay_period, 9);
    assert!(m.previous_connection_id.is_none());
    // The source end records a counterparty: it is the previous connection.
    let src = end(ConnectionState::TryOpen, "07-b", "07-a", Some("conn-8"));
    let m = c.open_try_message(src, vec![v2.clone()], cs.clone(), pf.clone(), CommitmentPrefix(b"ibc".to_vec()), Signer("s".to_string()));
    assert_eq!(m.previous_connection_id.unwrap().0, "conn-8");
    assert_eq!(m.counterparty_versions[0].identifier, "1");
    // OpenAck needs both identifiers and a version of the source end.
    let src = end(ConnectionState::Open, "07-b", "07-a", Some("conn-8"));
    assert!(c.open_ack_message(src, cs.clone(), pf.clone(), Signer("s".to_string())).is_none());
    // OpenInit offers the first compatible version.
    let m = c.open_init_message(CommitmentPrefix(b"ibc".to_vec()), vec![v2.clone(), version()], Signer("s".to_string())).unwrap();
    assert_eq!(m.version.identifier, "2");
    assert_eq!(m.delay_period, 3);
    assert!(c.open_init_message(CommitmentPrefix(vec![]), vec![], Signer("s".to_string())).is_none());
}
