use vstd::prelude::*;

use crate::connection::{
    Connection, check_destination_connection_state, compatible_ends, extract_connection_id,
    highest_expected_state, MAX_RETRIES,
};
use crate::counterparty::connection_state_on_destination;
use crate::ends::{
    ClientState, CommitmentPrefix, ConnectionEnd, ConnectionState, Counterparty,
    IdentifiedConnectionEnd, Proofs, Signer, Version,
};
use crate::error::ConnectionError;
use crate::events::IbcEvent;
use crate::handle::ChainHandle;
use crate::ident::{ChainId, ConnectionId, Height, clone_connection_id};
use crate::msgs::{
    ConnectionMsg, EncodedMsg, MsgConnectionOpenAck, MsgConnectionOpenConfirm,
    MsgConnectionOpenInit, MsgConnectionOpenTry,
};
use crate::ConnectionMsgType;

verus! {

/// The four connection handshake events, each the answer to one handshake message.
#[derive(Clone, Copy, Debug, PartialEq, Eq, Structural)]
pub enum HandshakeEventKind {
    OpenInit,
    OpenTry,
    OpenAck,
    OpenConfirm,
}

/// Whether `e` is the handshake event of the given kind.
pub open spec fn is_event_of(e: IbcEvent, kind: HandshakeEventKind) -> bool {
    match kind {
        HandshakeEventKind::OpenInit => e is OpenInitConnection,
        HandshakeEventKind::OpenTry => e is OpenTryConnection,
        HandshakeEventKind::OpenAck => e is OpenAckConnection,
        HandshakeEventKind::OpenConfirm => e is OpenConfirmConnection,
    }
}

/// Whether `e` settles the outcome of a submission awaiting an event of the given kind:
/// it is that event, or a refusal by the chain.
pub open spec fn settles(e: IbcEvent, kind: HandshakeEventKind) -> bool {
    is_event_of(e, kind) || e is ChainError
}

/// The error for a submission whose events hold none of the given kind.
pub open spec fn missing_event_error(kind: HandshakeEventKind) -> ConnectionError {
    match kind {
        HandshakeEventKind::OpenInit => ConnectionError::MissingConnectionInitEvent,
        HandshakeEventKind::OpenTry => ConnectionError::MissingConnectionTryEvent,
        HandshakeEventKind::OpenAck => ConnectionError::MissingConnectionAckEvent,
        HandshakeEventKind::OpenConfirm => ConnectionError::MissingConnectionConfirmEvent,
    }
}

/// The position of the first of `events` that settles a submission awaiting `kind`.
pub fn first_settling_event(events: &Vec<IbcEvent>, kind: HandshakeEventKind) -> (r: Option<usize>)
    ensures
        r is None <==> forall|i: int| 0 <= i < events@.len() ==> !settles(#[trigger] events@[i], kind),
        r matches Some(k) ==> {
            &&& k < events@.len()
            &&& settles(events@[k as int], kind)
            &&& forall|j: int| 0 <= j < k ==> !settles(#[trigger] events@[j], kind)
        },
{
    let mut i: usize = 0;
    while i < events.len()
        invariant
            i <= events@.len(),
            forall|j: int| 0 <= j < i ==> !settles(#[trigger] events@[j], kind),
        decreases events@.len() - i,
    {
        let found = match (&events[i], kind) {
            (IbcEvent::OpenInitConnection(_), HandshakeEventKind::OpenInit) => true,
            (IbcEvent::OpenTryConnection(_), HandshakeEventKind::OpenTry) => true,
            (IbcEvent::OpenAckConnection(_), HandshakeEventKind::OpenAck) => true,
            (IbcEvent::OpenConfirmConnection(_), HandshakeEventKind::OpenConfirm) => true,
            (IbcEvent::ChainError(_), _) => true,
            _ => false,
        };
        if found {
            return Some(i);
        }
        i = i + 1;
    }
    None
}

/// Reads the outcome of a submission from the events it emitted: the first event of the
/// awaited kind, unless the chain refused the transaction first.
pub fn select_handshake_event(events: Vec<IbcEvent>, kind: HandshakeEventKind) -> (r: Result<
    IbcEvent,
    ConnectionError,
>)
    ensures
        (forall|i: int| 0 <= i < events@.len() ==> !settles(#[trigger] events@[i], kind)) ==> r
            == Err::<IbcEvent, ConnectionError>(missing_event_error(kind)),
        !(forall|i: int| 0 <= i < events@.len() ==> !settles(#[trigger] events@[i], kind)) ==> exists|k: int|
            {
                &&& 0 <= k < events@.len()
                &&& settles(#[trigger] events@[k], kind)
                &&& forall|j: int| 0 <= j < k ==> !settles(#[trigger] events@[j], kind)
                &&& is_event_of(events@[k], kind) ==> r == Ok::<IbcEvent, ConnectionError>(
                    events@[k],
                )
                &&& events@[k] matches IbcEvent::ChainError(reason) ==> r == Err::<
                    IbcEvent,
                    ConnectionError,
                >(ConnectionError::TxResponse { event: reason })
            },
{
    let ghost all = events@;
    let mut events = events;
    match first_settling_event(&events, kind) {
        Some(k) => {
            let e = events.swap_remove(k);
            assert(e == all[k as int]);
            match e {
                IbcEvent::ChainError(reason) => Err(ConnectionError::TxResponse { event: reason }),
                _ => Ok(e),
            }
        },
        None => match kind {
            HandshakeEventKind::OpenInit => Err(ConnectionError::MissingConnectionInitEvent),
            HandshakeEventKind::OpenTry => Err(ConnectionError::MissingConnectionTryEvent),
            HandshakeEventKind::OpenAck => Err(ConnectionError::MissingConnectionAckEvent),
            HandshakeEventKind::OpenConfirm => Err(ConnectionError::MissingConnectionConfirmEvent),
        },
    }
}

/// What the third phase of the handshake does for the states `(a, b)` of the two ends.
#[derive(Clone, Copy, Debug, PartialEq, Eq, Structural)]
pub enum OpenPhaseAction {
    /// Send an acknowledgement to chain A.
    AckOnA,
    /// Send a confirmation to chain B.
    ConfirmOnB,
    /// Send a confirmation to chain A.
    ConfirmOnA,
    /// Both ends are open.
    Done,
    /// Nothing to send; look again.
    Wait,
}

/// The step of the third handshake phase for the states of the ends on A and B.
pub open spec fn open_phase_action_of(a: ConnectionState, b: ConnectionState) -> OpenPhaseAction {
    if (a == ConnectionState::Init || a == ConnectionState::TryOpen) && b == ConnectionState::TryOpen {
        OpenPhaseAction::AckOnA
    } else if a == ConnectionState::Open && b == ConnectionState::TryOpen {
        OpenPhaseAction::ConfirmOnB
    } else if a == ConnectionState::TryOpen && b == ConnectionState::Open {
        OpenPhaseAction::ConfirmOnA
    } else if a == ConnectionState::Open && b == ConnectionState::Open {
        OpenPhaseAction::Done
    } else {
        OpenPhaseAction::Wait
    }
}

/// The step of the third handshake phase for the states of the ends on A and B. When
/// both are in `TryOpen`, A is acknowledged first.
pub fn open_phase_action(a: ConnectionState, b: ConnectionState) -> (r: OpenPhaseAction)
    ensures
        r == open_phase_action_of(a, b),
        r == OpenPhaseAction::AckOnA <==> (a == ConnectionState::Init || a
            == ConnectionState::TryOpen) && b == ConnectionState::TryOpen,
        r == OpenPhaseAction::ConfirmOnB <==> a == ConnectionState::Open && b
            == ConnectionState::TryOpen,
        r == OpenPhaseAction::ConfirmOnA <==> a == ConnectionState::TryOpen && b
            == ConnectionState::Open,
        r == OpenPhaseAction::Done <==> a == ConnectionState::Open && b == ConnectionState::Open,
{
    match (a, b) {
        (ConnectionState::Init, ConnectionState::TryOpen) => OpenPhaseAction::AckOnA,
        (ConnectionState::TryOpen, ConnectionState::TryOpen) => OpenPhaseAction::AckOnA,
        (ConnectionState::Open, ConnectionState::TryOpen) => OpenPhaseAction::ConfirmOnB,
        (ConnectionState::TryOpen, ConnectionState::Open) => OpenPhaseAction::ConfirmOnA,
        (ConnectionState::Open, ConnectionState::Open) => OpenPhaseAction::Done,
        _ => OpenPhaseAction::Wait,
    }
}

/// The message that advances a connection whose local end is in `local` and whose mirror
/// on the destination is in `remote`; none where there is nothing to send.
pub fn next_handshake_message(local: ConnectionState, remote: ConnectionState) -> (r: Option<
    ConnectionMsgType,
>)
    ensures
        r == Some(ConnectionMsgType::OpenTry) <==> local == ConnectionState::Init && (remote
            == ConnectionState::Uninitialized || remote == ConnectionState::Init),
        r == Some(ConnectionMsgType::OpenAck) <==> local == ConnectionState::TryOpen && (remote
            == ConnectionState::Init || remote == ConnectionState::TryOpen),
        r == Some(ConnectionMsgType::OpenConfirm) <==> local == ConnectionState::Open && remote
            == ConnectionState::TryOpen,
{
    match (local, remote) {
        (ConnectionState::Init, ConnectionState::Uninitialized) => Some(ConnectionMsgType::OpenTry),
        (ConnectionState::Init, ConnectionState::Init) => Some(ConnectionMsgType::OpenTry),
        (ConnectionState::TryOpen, ConnectionState::Init) => Some(ConnectionMsgType::OpenAck),
        (ConnectionState::TryOpen, ConnectionState::TryOpen) => Some(ConnectionMsgType::OpenAck),
        (ConnectionState::Open, ConnectionState::TryOpen) => Some(ConnectionMsgType::OpenConfirm),
        _ => None,
    }
}

/// The state that a connection end has reached when `event` is observed on its chain.
pub fn state_for_event(event: &IbcEvent) -> (r: ConnectionState)
    ensures
        event is OpenInitConnection ==> r == ConnectionState::Init,
        event is OpenTryConnection ==> r == ConnectionState::TryOpen,
        event is OpenAckConnection ==> r == ConnectionState::Open,
        event is OpenConfirmConnection ==> r == ConnectionState::Open,
        event.attributes() is None ==> r == ConnectionState::Uninitialized,
{
    match event {
        IbcEvent::OpenInitConnection(_) => ConnectionState::Init,
        IbcEvent::OpenTryConnection(_) => ConnectionState::TryOpen,
        IbcEvent::OpenAckConnection(_) => ConnectionState::Open,
        IbcEvent::OpenConfirmConnection(_) => ConnectionState::Open,
        _ => ConnectionState::Uninitialized,
    }
}

/// The outcome of one attempt of a step that a scheduler retries.
#[derive(Clone, Copy, Debug, PartialEq, Eq, Structural)]
pub enum RetryResult<T, E> {
    Success(T),
    Retry(E),
    Failure(E),
}

/// The identifier of the connection that an OpenTry replaces on the destination: the one
/// that the source end records, else the one already known for the destination.
pub fn previous_connection_id(
    recorded: &Option<ConnectionId>,
    known: &Option<ConnectionId>,
) -> (r: Option<ConnectionId>)
    ensures
        recorded is Some ==> r == *recorded,
        recorded is None ==> r == *known,
{
    match recorded {
        Some(_) => clone_connection_id(recorded),
        None => clone_connection_id(known),
    }
}

/// Wraps the update-client messages of a foreign client as handshake submissions.
pub fn update_client_msgs(encoded: Vec<EncodedMsg>) -> (r: Vec<ConnectionMsg>)
    ensures
        r@.len() == encoded@.len(),
        forall|i: int| 0 <= i < r@.len() ==> #[trigger] r@[i] == ConnectionMsg::UpdateClient(encoded@[i]),
{
    let ghost all = encoded@;
    let mut rest = encoded;
    let mut out: Vec<ConnectionMsg> = Vec::new();
    while rest.len() > 0
        invariant
            out@.len() + rest@.len() == all.len(),
            rest@ == all.subrange(out@.len() as int, all.len() as int),
            forall|i: int| 0 <= i < out@.len() ==> #[trigger] out@[i] == ConnectionMsg::UpdateClient(all[i]),
        decreases rest@.len(),
    {
        let m = rest.remove(0);
        out.push(ConnectionMsg::UpdateClient(m));
    }
    out
}



/// What follows one attempt of the first or second handshake phase.
#[derive(Debug)]
pub enum IdPhaseNext {
    /// Attempt again; the count of attempts made so far.
    Again(usize),
    /// The chain assigned this connection identifier.
    Learned(ConnectionId),
    /// The phase ends in this error.
    Stop(ConnectionError),
}

/// Decides, after attempt number `attempts + 1` of the OpenInit (or OpenTry) submission
/// ended in `outcome`, how the phase goes on. A failed submission is retried until
/// `MAX_RETRIES` attempts are made, then the phase fails with `MaxRetry`; a success
/// yields the connection identifier that its event reports.
pub fn id_phase_step(attempts: usize, outcome: &Result<IbcEvent, ConnectionError>) -> (r: IdPhaseNext)
    requires
        attempts < MAX_RETRIES,
    ensures
        outcome is Err && attempts + 1 < MAX_RETRIES ==> r == IdPhaseNext::Again((attempts + 1) as usize),
        outcome is Err && attempts + 1 >= MAX_RETRIES ==> r == IdPhaseNext::Stop(ConnectionError::MaxRetry),
        outcome matches Ok(e) ==> ((e.attributes() matches Some(a) && a.connection_id is Some) ==> r
            == IdPhaseNext::Learned(e.attributes()->Some_0.connection_id->Some_0)),
        outcome matches Ok(e) ==> (!(e.attributes() matches Some(a) && a.connection_id is Some) ==> r
            == IdPhaseNext::Stop(ConnectionError::MissingConnectionIdFromEvent)),
{
    match outcome {
        Err(_) => {
            if attempts + 1 < MAX_RETRIES {
                IdPhaseNext::Again(attempts + 1)
            } else {
                IdPhaseNext::Stop(ConnectionError::MaxRetry)
            }
        },
        Ok(event) => match extract_connection_id(event) {
            Ok(id) => IdPhaseNext::Learned(id),
            Err(e) => IdPhaseNext::Stop(e),
        },
    }
}

/// What follows one round of the third handshake phase.
#[derive(Debug)]
pub enum OpenRoundNext {
    /// Query both ends again; the count of rounds made so far.
    Again(usize),
    /// The handshake ends with this result.
    Stop(Result<(), ConnectionError>),
}

/// One round of the third handshake phase: round number `round + 1` saw the states of
/// the two ends (none where a query failed). Returns the step to send, and how the phase
/// goes on: done when both ends are open, `MaxRetry` once `MAX_RETRIES` rounds are over.
pub fn open_round(round: usize, states: Option<(ConnectionState, ConnectionState)>) -> (r: (
    OpenPhaseAction,
    OpenRoundNext,
))
    requires
        round < MAX_RETRIES,
    ensures
        states is None ==> r.0 == OpenPhaseAction::Wait,
        states matches Some((a, b)) ==> r.0 == open_phase_action_of(a, b),
        r.0 == OpenPhaseAction::Done ==> r.1 == OpenRoundNext::Stop(Ok(())),
        r.0 != OpenPhaseAction::Done && round + 1 < MAX_RETRIES ==> r.1 == OpenRoundNext::Again(
            (round + 1) as usize,
        ),
        r.0 != OpenPhaseAction::Done && round + 1 >= MAX_RETRIES ==> r.1 == OpenRoundNext::Stop(
            Err(ConnectionError::MaxRetry),
        ),
{
    let action = match states {
        Some((a, b)) => open_phase_action(a, b),
        None => OpenPhaseAction::Wait,
    };
    if action == OpenPhaseAction::Done {
        (action, OpenRoundNext::Stop(Ok(())))
    } else if round + 1 < MAX_RETRIES {
        (action, OpenRoundNext::Again(round + 1))
    } else {
        (action, OpenRoundNext::Stop(Err(ConnectionError::MaxRetry)))
    }
}

/// Checks the connection end found under `connection_id` on the destination chain
/// `chain_id` against the expected one: it must exist and be compatible.
pub fn check_destination_end(
    connection_id: &ConnectionId,
    chain_id: &ChainId,
    existing: &ConnectionEnd,
    expected: &ConnectionEnd,
) -> (r: Result<(), ConnectionError>)
    ensures
        existing.state == ConnectionState::Uninitialized ==> r == Err::<(), ConnectionError>(
            ConnectionError::MissingConnectionId { chain_id: *chain_id },
        ),
        existing.state != ConnectionState::Uninitialized ==> (r is Ok <==> compatible_ends(
            *existing,
            *expected,
        )),
        existing.state != ConnectionState::Uninitialized ==> (r matches Err(e) ==> e
            == (ConnectionError::ConnectionAlreadyExist { connection_id: *connection_id })),
{
    if existing.state_matches(&ConnectionState::Uninitialized) {
        return Err(ConnectionError::MissingConnectionId { chain_id: chain_id.clone() });
    }
    check_destination_connection_state(connection_id, existing, expected)
}

/// Whether every message but the last updates a client.
pub open spec fn updates_before_last(msgs: Seq<ConnectionMsg>) -> bool {
    &&& msgs.len() >= 1
    &&& forall|i: int| 0 <= i < msgs.len() - 1 ==> #[trigger] msgs[i] is UpdateClient
}

impl<ChainA: ChainHandle, ChainB: ChainHandle> Connection<ChainA, ChainB> {
    /// The messages that update the client of chain A to `height` of chain B.
    pub fn build_update_client_on_src(&self, height: Height) -> (r: Result<
        Vec<ConnectionMsg>,
        ConnectionError,
    >)
        ensures
            r matches Ok(v) ==> forall|i: int| 0 <= i < v@.len() ==> #[trigger] v@[i] is UpdateClient,
            r matches Err(e) ==> e matches ConnectionError::ClientOperation { client_id, chain_id, .. }
                && client_id == self.a_side.client_id,
    {
        match self.a_side.chain.build_update_client(&self.a_side.client_id, height) {
            Ok(v) => Ok(update_client_msgs(v)),
            Err(e) => Err(
                ConnectionError::ClientOperation {
                    client_id: self.src_client_id(),
                    chain_id: self.a_side.chain.id(),
                    source: e,
                },
            ),
        }
    }

    /// The messages that update the client of chain B to `height` of chain A.
    pub fn build_update_client_on_dst(&self, height: Height) -> (r: Result<
        Vec<ConnectionMsg>,
        ConnectionError,
    >)
        ensures
            r matches Ok(v) ==> forall|i: int| 0 <= i < v@.len() ==> #[trigger] v@[i] is UpdateClient,
            r matches Err(e) ==> e matches ConnectionError::ClientOperation { client_id, chain_id, .. }
                && client_id == self.b_side.client_id,
    {
        match self.b_side.chain.build_update_client(&self.b_side.client_id, height) {
            Ok(v) => Ok(update_client_msgs(v)),
            Err(e) => Err(
                ConnectionError::ClientOperation {
                    client_id: self.dst_client_id(),
                    chain_id: self.b_side.chain.id(),
                    source: e,
                },
            ),
        }
    }

    /// The OpenInit message for chain B, from the chains' answers: A's commitment prefix,
    /// B's compatible versions (the first is offered) and B's signer. None where B
    /// advertises no version.
    pub fn open_init_message(&self, prefix: CommitmentPrefix, versions: Vec<Version>, signer: Signer) -> (r: Option<
        MsgConnectionOpenInit,
    >)
        ensures
            r is None <==> versions@.len() == 0,
            r matches Some(m) ==> {
                &&& m.client_id == self.b_side.client_id
                &&& m.counterparty.client_id == self.a_side.client_id
                &&& m.counterparty.connection_id is None
                &&& m.counterparty.prefix == prefix
                &&& m.version == versions@[0]
                &&& m.delay_period == self.delay_period
                &&& m.signer == signer
            },
    {
        if versions.len() == 0 {
            return None;
        }
        let mut versions = versions;
        let version = versions.swap_remove(0);
        let counterparty = Counterparty::new(self.src_client_id(), None, prefix);
        Some(
            MsgConnectionOpenInit {
                client_id: self.dst_client_id(),
                counterparty,
                version,
                delay_period: self.delay_period,
                signer,
            },
        )
    }

    /// The OpenTry message for chain B, from the chains' answers: the source end on A,
    /// A's compatible versions (offered only where the source end lists none), the client
    /// state and proofs built on A, A's commitment prefix and B's signer. The delay period
    /// is the source end's, whatever the engine holds.
    pub fn open_try_message(
        &self,
        src_connection: ConnectionEnd,
        compatible_versions: Vec<Version>,
        client_state: ClientState,
        proofs: Proofs,
        prefix: CommitmentPrefix,
        signer: Signer,
    ) -> (r: MsgConnectionOpenTry)
        ensures
            src_connection.counterparty.connection_id is Some ==> r.previous_connection_id
                == src_connection.counterparty.connection_id,
            src_connection.counterparty.connection_id is None ==> r.previous_connection_id
                == self.b_side.connection_id,
            r.client_id == self.b_side.client_id,
            r.client_state == client_state,
            r.counterparty.client_id == self.a_side.client_id,
            r.counterparty.connection_id == self.a_side.connection_id,
            r.counterparty.prefix == prefix,
            src_connection.versions@.len() == 0 ==> r.counterparty_versions == compatible_versions,
            src_connection.versions@.len() > 0 ==> r.counterparty_versions == src_connection.versions,
            r.proofs == proofs,
            r.delay_period == src_connection.delay_period,
            r.signer == signer,
    {
        let previous = previous_connection_id(&src_connection.counterparty.connection_id, &self.b_side.connection_id);
        let ConnectionEnd {
            state: _,
            client_id: _,
            counterparty: _,
            versions: src_versions,
            delay_period: src_delay,
        } = src_connection;
        let counterparty_versions = if src_versions.len() == 0 {
            compatible_versions
        } else {
            src_versions
        };
        let counterparty = Counterparty::new(self.src_client_id(), self.src_connection_id(), prefix);
        MsgConnectionOpenTry {
            previous_connection_id: previous,
            client_id: self.dst_client_id(),
            client_state,
            counterparty,
            counterparty_versions,
            proofs,
            delay_period: src_delay,
            signer,
        }
    }

    /// The OpenAck message for chain B, from the chains' answers: the source end on A (its
    /// first version is chosen), the client state and proofs built on A, and B's signer.
    /// None where a connection identifier is unknown or the source end lists no version.
    pub fn open_ack_message(
        &self,
        src_connection: ConnectionEnd,
        client_state: ClientState,
        proofs: Proofs,
        signer: Signer,
    ) -> (r: Option<MsgConnectionOpenAck>)
        ensures
            r is None <==> (self.a_side.connection_id is None || self.b_side.connection_id is None
                || src_connection.versions@.len() == 0),
            r matches Some(m) ==> {
                &&& Some(m.connection_id) == self.b_side.connection_id
                &&& Some(m.counterparty_connection_id) == self.a_side.connection_id
                &&& m.client_state == client_state
                &&& m.proofs == proofs
                &&& m.version == src_connection.versions@[0]
                &&& m.signer == signer
            },
    {
        let src_connection_id = match &self.a_side.connection_id {
            Some(id) => id.clone(),
            None => return None,
        };
        let dst_connection_id = match &self.b_side.connection_id {
            Some(id) => id.clone(),
            None => return None,
        };
        let mut versions = src_connection.versions;
        if versions.len() == 0 {
            return None;
        }
        let version = versions.swap_remove(0);
        Some(
            MsgConnectionOpenAck {
                connection_id: dst_connection_id,
                counterparty_connection_id: src_connection_id,
                client_state,
                proofs,
                version,
                signer,
            },
        )
    }

    /// The end that the handshake expects on chain B before sending `msg_type` there.
    pub fn expected_destination_connection(
        &self,
        msg_type: ConnectionMsgType,
        prefix: CommitmentPrefix,
        versions: Vec<Version>,
    ) -> (r: ConnectionEnd)
        ensures
            r.state == highest_expected_state(msg_type),
            r.client_id == self.b_side.client_id,
            r.counterparty.client_id == self.a_side.client_id,
            r.counterparty.connection_id == self.a_side.connection_id,
            r.counterparty.prefix == prefix,
            r.versions == versions,
            r.delay_period == 0,
            self.a_side.connection_id is Some ==> r.well_formed(),
    {
        let highest_state = match msg_type {
            ConnectionMsgType::OpenAck => ConnectionState::TryOpen,
            ConnectionMsgType::OpenConfirm => ConnectionState::TryOpen,
            ConnectionMsgType::OpenTry => ConnectionState::Uninitialized,
        };
        let counterparty = Counterparty::new(self.src_client_id(), self.src_connection_id(), prefix);
        ConnectionEnd::new(highest_state, self.dst_client_id(), counterparty, versions, 0)
    }

    /// Retrieves the connection end on chain B and checks it against the end that the
    /// handshake expects there before sending `msg_type`; returns the expected end.
    pub fn validated_expected_connection(&self, msg_type: ConnectionMsgType) -> (r: Result<
        ConnectionEnd,
        ConnectionError,
    >)
        ensures
            self.b_side.connection_id is None <==> r == Err::<ConnectionEnd, ConnectionError>(
                ConnectionError::MissingCounterpartyConnectionId,
            ),
            r matches Ok(e) ==> {
                &&& e.state == highest_expected_state(msg_type)
                &&& e.client_id == self.b_side.client_id
                &&& e.counterparty.client_id == self.a_side.client_id
                &&& e.counterparty.connection_id == self.a_side.connection_id
                &&& e.delay_period == 0
            },
            r matches Err(e) ==> (e is MissingCounterpartyConnectionId || e is ChainQuery
                || e is MissingConnectionId || e is ConnectionAlreadyExist),
    {
        let dst_connection_id = match &self.b_side.connection_id {
            Some(id) => id,
            None => return Err(ConnectionError::MissingCounterpartyConnectionId),
        };
        let prefix = match self.a_side.chain.query_commitment_prefix() {
            Ok(p) => p,
            Err(e) => return Err(ConnectionError::ChainQuery { chain_id: self.a_side.chain.id(), source: e }),
        };
        let versions = match self.a_side.chain.query_compatible_versions() {
            Ok(v) => v,
            Err(e) => return Err(ConnectionError::ChainQuery { chain_id: self.a_side.chain.id(), source: e }),
        };
        let dst_expected_connection = self.expected_destination_connection(msg_type, prefix, versions);
        let dst_connection = match self.b_side.chain.query_connection(dst_connection_id, Height::zero()) {
            Ok(c) => c,
            Err(e) => return Err(ConnectionError::ChainQuery { chain_id: self.b_side.chain.id(), source: e }),
        };
        check_destination_end(
            dst_connection_id,
            &self.b_side.chain.id(),
            &dst_connection,
            &dst_expected_connection,
        )?;
        Ok(dst_expected_connection)
    }

    /// The state, on chain B, of the mirror of the connection end on chain A.
    pub fn counterparty_state(&self) -> (r: Result<ConnectionState, ConnectionError>)
        ensures
            self.a_side.connection_id is None <==> r == Err::<ConnectionState, ConnectionError>(
                ConnectionError::MissingLocalConnectionId,
            ),
            r matches Err(e) ==> (e is MissingLocalConnectionId || e is ConnectionQuery
                || e is Supervisor),
            r matches Err(ConnectionError::ConnectionQuery { connection_id: c, .. }) ==> self.a_side.connection_id
                == Some(c),
    {
        let connection_id = match &self.a_side.connection_id {
            Some(id) => id.clone(),
            None => return Err(ConnectionError::MissingLocalConnectionId),
        };
        let connection_end = match self.a_side.chain.query_connection(&connection_id, Height::zero()) {
            Ok(c) => c,
            Err(e) => return Err(ConnectionError::ConnectionQuery { connection_id, source: e }),
        };
        let connection = IdentifiedConnectionEnd::new(connection_id, connection_end);
        match connection_state_on_destination(&connection, &self.b_side.chain) {
            Ok(s) => Ok(s),
            Err(e) => Err(ConnectionError::Supervisor(e)),
        }
    }

    /// The OpenInit message for chain B, naming chain A's client as counterparty.
    pub fn build_conn_init(&self) -> (r: Result<Vec<ConnectionMsg>, ConnectionError>)
        ensures
            r matches Ok(msgs) ==> msgs@.len() == 1 && (msgs@[0] matches ConnectionMsg::OpenInit(m) && {
                &&& m.client_id == self.b_side.client_id
                &&& m.counterparty.client_id == self.a_side.client_id
                &&& m.counterparty.connection_id is None
                &&& m.delay_period == self.delay_period
            }),
            r matches Err(e) ==> (e is Signer || e is ChainQuery || e is MissingVersion),
    {
        let signer = match self.b_side.chain.get_signer() {
            Ok(s) => s,
            Err(e) => return Err(ConnectionError::Signer { chain_id: self.b_side.chain.id(), source: e }),
        };
        let prefix = match self.a_side.chain.query_commitment_prefix() {
            Ok(p) => p,
            Err(e) => return Err(ConnectionError::ChainQuery { chain_id: self.a_side.chain.id(), source: e }),
        };
        let versions = match self.b_side.chain.query_compatible_versions() {
            Ok(v) => v,
            Err(e) => return Err(ConnectionError::ChainQuery { chain_id: self.b_side.chain.id(), source: e }),
        };
        let new_msg = match self.open_init_message(prefix, versions, signer) {
            Some(m) => m,
            None => return Err(ConnectionError::MissingVersion { chain_id: self.b_side.chain.id() }),
        };
        let mut msgs: Vec<ConnectionMsg> = Vec::new();
        msgs.push(ConnectionMsg::OpenInit(new_msg));
        Ok(msgs)
    }

    /// Sends the OpenInit message to chain B and returns the event that reports it.
    pub fn build_conn_init_and_send(&self) -> (r: Result<IbcEvent, ConnectionError>)
        ensures
            r matches Ok(e) ==> e is OpenInitConnection,
            r matches Err(e) ==> (e is Signer || e is ChainQuery || e is MissingVersion || e is Submit
                || e is TxResponse || e is MissingConnectionInitEvent),
    {
        let dst_msgs = self.build_conn_init()?;
        let events = match self.b_side.chain.send_msgs(dst_msgs) {
            Ok(ev) => ev,
            Err(e) => return Err(ConnectionError::Submit { chain_id: self.b_side.chain.id(), source: e }),
        };
        select_handshake_event(events, HandshakeEventKind::OpenInit)
    }
}

impl<ChainA: ChainHandle, ChainB: ChainHandle> Connection<ChainA, ChainB> {
    /// The messages for chain B that answer the connection initiated on chain A: client
    /// updates, then OpenTry. Before building them, chain A's client of chain B is updated.
    /// The delay period of the source end prevails over the engine's.
    pub fn build_conn_try(&self) -> (r: Result<Vec<ConnectionMsg>, ConnectionError>)
        ensures
            self.a_side.connection_id is None <==> r == Err::<Vec<ConnectionMsg>, ConnectionError>(
                ConnectionError::MissingLocalConnectionId,
            ),
            r matches Ok(msgs) ==> updates_before_last(msgs@) && (msgs@.last() matches ConnectionMsg::OpenTry(m) && {
                &&& m.client_id == self.b_side.client_id
                &&& m.counterparty.client_id == self.a_side.client_id
                &&& m.counterparty.connection_id == self.a_side.connection_id
                &&& self.b_side.connection_id is Some ==> m.previous_connection_id is Some
            }),
            r matches Err(e) ==> (e is MissingLocalConnectionId || e is ChainQuery || e is ClientOperation
                || e is Submit || e is ConnectionProof || e is Signer),
    {
        let src_connection_id = match &self.a_side.connection_id {
            Some(id) => id,
            None => return Err(ConnectionError::MissingLocalConnectionId),
        };
        let src_connection = match self.a_side.chain.query_connection(src_connection_id, Height::zero()) {
            Ok(c) => c,
            Err(e) => return Err(ConnectionError::ChainQuery { chain_id: self.a_side.chain.id(), source: e }),
        };
        let src_client_target_height = match self.b_side.chain.query_latest_height() {
            Ok(h) => h,
            Err(e) => return Err(ConnectionError::ChainQuery { chain_id: self.b_side.chain.id(), source: e }),
        };
        let client_msgs = self.build_update_client_on_src(src_client_target_height)?;
        match self.a_side.chain.send_msgs(client_msgs) {
            Ok(_) => {},
            Err(e) => return Err(ConnectionError::Submit { chain_id: self.a_side.chain.id(), source: e }),
        }

        let query_height = match self.a_side.chain.query_latest_height() {
            Ok(h) => h,
            Err(e) => return Err(ConnectionError::ChainQuery { chain_id: self.a_side.chain.id(), source: e }),
        };
        let (client_state, proofs) = match self.a_side.chain.build_connection_proofs_and_client_state(
            ConnectionMsgType::OpenTry,
            src_connection_id,
            &self.a_side.client_id,
            query_height,
        ) {
            Ok(p) => p,
            Err(e) => return Err(ConnectionError::ConnectionProof(e)),
        };

        let mut msgs = self.build_update_client_on_dst(proofs.height)?;

        let compatible_versions = if src_connection.versions.len() == 0 {
            match self.a_side.chain.query_compatible_versions() {
                Ok(v) => v,
                Err(e) => return Err(ConnectionError::ChainQuery { chain_id: self.a_side.chain.id(), source: e }),
            }
        } else {
            Vec::new()
        };

        let signer = match self.b_side.chain.get_signer() {
            Ok(s) => s,
            Err(e) => return Err(ConnectionError::Signer { chain_id: self.b_side.chain.id(), source: e }),
        };
        let prefix = match self.a_side.chain.query_commitment_prefix() {
            Ok(p) => p,
            Err(e) => return Err(ConnectionError::ChainQuery { chain_id: self.a_side.chain.id(), source: e }),
        };
        // Where the source end and the engine disagree on the delay, the source end wins.
        let new_msg = self.open_try_message(
            src_connection,
            compatible_versions,
            client_state,
            proofs,
            prefix,
            signer,
        );
        let ghost before = msgs@;
        msgs.push(ConnectionMsg::OpenTry(new_msg));
        assert(msgs@.drop_last() == before);
        Ok(msgs)
    }

    /// Sends the OpenTry messages to chain B and returns the event that reports it.
    pub fn build_conn_try_and_send(&self) -> (r: Result<IbcEvent, ConnectionError>)
        ensures
            r matches Ok(e) ==> e is OpenTryConnection,
            self.a_side.connection_id is None <==> r == Err::<IbcEvent, ConnectionError>(
                ConnectionError::MissingLocalConnectionId,
            ),
            r matches Err(e) ==> (e is MissingLocalConnectionId || e is ChainQuery || e is ClientOperation
                || e is Submit || e is ConnectionProof || e is Signer || e is TxResponse
                || e is MissingConnectionTryEvent),
    {
        let dst_msgs = self.build_conn_try()?;
        let events = match self.b_side.chain.send_msgs(dst_msgs) {
            Ok(ev) => ev,
            Err(e) => return Err(ConnectionError::Submit { chain_id: self.b_side.chain.id(), source: e }),
        };
        select_handshake_event(events, HandshakeEventKind::OpenTry)
    }

    /// The messages for chain B that acknowledge chain A's answer: client updates, then
    /// OpenAck. The end on chain B must be compatible with the one expected there.
    pub fn build_conn_ack(&self) -> (r: Result<Vec<ConnectionMsg>, ConnectionError>)
        ensures
            self.a_side.connection_id is None <==> r == Err::<Vec<ConnectionMsg>, ConnectionError>(
                ConnectionError::MissingLocalConnectionId,
            ),
            self.a_side.connection_id is Some && self.b_side.connection_id is None ==> r == Err::<
                Vec<ConnectionMsg>,
                ConnectionError,
            >(ConnectionError::MissingCounterpartyConnectionId),
            r matches Ok(msgs) ==> updates_before_last(msgs@) && (msgs@.last() matches ConnectionMsg::OpenAck(m) && {
                &&& Some(m.connection_id) == self.b_side.connection_id
                &&& Some(m.counterparty_connection_id) == self.a_side.connection_id
            }),
            r matches Err(e) ==> (e is MissingLocalConnectionId || e is MissingCounterpartyConnectionId
                || e is ChainQuery || e is MissingConnectionId || e is ConnectionAlreadyExist
                || e is ClientOperation || e is Submit || e is ConnectionProof || e is Signer
                || e is MissingVersion),
            r == Err::<Vec<ConnectionMsg>, ConnectionError>(ConnectionError::MissingCounterpartyConnectionId)
                ==> self.b_side.connection_id is None,
    {
        let src_connection_id = match &self.a_side.connection_id {
            Some(id) => id,
            None => return Err(ConnectionError::MissingLocalConnectionId),
        };
        let dst_connection_id = match &self.b_side.connection_id {
            Some(id) => id,
            None => return Err(ConnectionError::MissingCounterpartyConnectionId),
        };
        let _expected = self.validated_expected_connection(ConnectionMsgType::OpenAck)?;

        let src_connection = match self.a_side.chain.query_connection(src_connection_id, Height::zero()) {
            Ok(c) => c,
            Err(e) => return Err(ConnectionError::ChainQuery { chain_id: self.a_side.chain.id(), source: e }),
        };

        let src_client_target_height = match self.b_side.chain.query_latest_height() {
            Ok(h) => h,
            Err(e) => return Err(ConnectionError::ChainQuery { chain_id: self.b_side.chain.id(), source: e }),
        };
        let client_msgs = self.build_update_client_on_src(src_client_target_height)?;
        match self.a_side.chain.send_msgs(client_msgs) {
            Ok(_) => {},
            Err(e) => return Err(ConnectionError::Submit { chain_id: self.a_side.chain.id(), source: e }),
        }

        let query_height = match self.a_side.chain.query_latest_height() {
            Ok(h) => h,
            Err(e) => return Err(ConnectionError::ChainQuery { chain_id: self.a_side.chain.id(), source: e }),
        };
        let (client_state, proofs) = match self.a_side.chain.build_connection_proofs_and_client_state(
            ConnectionMsgType::OpenAck,
            src_connection_id,
            &self.a_side.client_id,
            query_height,
        ) {
            Ok(p) => p,
            Err(e) => return Err(ConnectionError::ConnectionProof(e)),
        };

        let mut msgs = self.build_update_client_on_dst(proofs.height)?;

        let signer = match self.b_side.chain.get_signer() {
            Ok(s) => s,
            Err(e) => return Err(ConnectionError::Signer { chain_id: self.b_side.chain.id(), source: e }),
        };
        let new_msg = match self.open_ack_message(src_connection, client_state, proofs, signer) {
            Some(m) => m,
            None => return Err(ConnectionError::MissingVersion { chain_id: self.a_side.chain.id() }),
        };
        let ghost before = msgs@;
        msgs.push(ConnectionMsg::OpenAck(new_msg));
        assert(msgs@.drop_last() == before);
        Ok(msgs)
    }

    /// Sends the OpenAck messages to chain B and returns the event that reports it.
    pub fn build_conn_ack_and_send(&self) -> (r: Result<IbcEvent, ConnectionError>)
        ensures
            r matches Ok(e) ==> e is OpenAckConnection,
            self.a_side.connection_id is None <==> r == Err::<IbcEvent, ConnectionError>(
                ConnectionError::MissingLocalConnectionId,
            ),
            (self.a_side.connection_id is Some && self.b_side.connection_id is None) <==> r == Err::<
                IbcEvent,
                ConnectionError,
            >(ConnectionError::MissingCounterpartyConnectionId),
            r matches Err(e) ==> (e is MissingLocalConnectionId || e is MissingCounterpartyConnectionId
                || e is ChainQuery || e is MissingConnectionId || e is ConnectionAlreadyExist
                || e is ClientOperation || e is Submit || e is ConnectionProof || e is Signer
                || e is MissingVersion || e is ConnectionQuery || e is TxResponse || e is MissingConnectionAckEvent),
    {
        let dst_msgs = self.build_conn_ack()?;
        let events = match self.b_side.chain.send_msgs(dst_msgs) {
            Ok(ev) => ev,
            Err(e) => return Err(ConnectionError::Submit { chain_id: self.b_side.chain.id(), source: e }),
        };
        select_handshake_event(events, HandshakeEventKind::OpenAck)
    }

    /// The messages for chain B that confirm the end on chain A is open: client updates,
    /// then OpenConfirm. As for OpenAck, the end on chain B must be compatible with one in
    /// `TryOpen` at most.
    pub fn build_conn_confirm(&self) -> (r: Result<Vec<ConnectionMsg>, ConnectionError>)
        ensures
            self.a_side.connection_id is None <==> r == Err::<Vec<ConnectionMsg>, ConnectionError>(
                ConnectionError::MissingLocalConnectionId,
            ),
            self.a_side.connection_id is Some && self.b_side.connection_id is None ==> r == Err::<
                Vec<ConnectionMsg>,
                ConnectionError,
            >(ConnectionError::MissingCounterpartyConnectionId),
            r matches Ok(msgs) ==> updates_before_last(msgs@) && (msgs@.last() matches ConnectionMsg::OpenConfirm(m)
                && Some(m.connection_id) == self.b_side.connection_id),
            r matches Err(e) ==> (e is MissingLocalConnectionId || e is MissingCounterpartyConnectionId
                || e is ChainQuery || e is MissingConnectionId || e is ConnectionAlreadyExist
                || e is ClientOperation || e is Submit || e is ConnectionProof || e is Signer
                || e is ConnectionQuery),
            r == Err::<Vec<ConnectionMsg>, ConnectionError>(ConnectionError::MissingCounterpartyConnectionId)
                ==> self.b_side.connection_id is None,
    {
        let src_connection_id = match &self.a_side.connection_id {
            Some(id) => id,
            None => return Err(ConnectionError::MissingLocalConnectionId),
        };
        let dst_connection_id = match &self.b_side.connection_id {
            Some(id) => id,
            None => return Err(ConnectionError::MissingCounterpartyConnectionId),
        };
        let _expected = self.validated_expected_connection(ConnectionMsgType::OpenConfirm)?;

        let query_height = match self.a_side.chain.query_latest_height() {
            Ok(h) => h,
            Err(e) => return Err(ConnectionError::ChainQuery { chain_id: self.a_side.chain.id(), source: e }),
        };
        match self.a_side.chain.query_connection(src_connection_id, query_height) {
            Ok(_) => {},
            Err(e) => return Err(
                ConnectionError::ConnectionQuery { connection_id: src_connection_id.clone(), source: e },
            ),
        }
        let (_, proofs) = match self.a_side.chain.build_connection_proofs_and_client_state(
            ConnectionMsgType::OpenConfirm,
            src_connection_id,
            &self.a_side.client_id,
            query_height,
        ) {
            Ok(p) => p,
            Err(e) => return Err(ConnectionError::ConnectionProof(e)),
        };

        let mut msgs = self.build_update_client_on_dst(proofs.height)?;

        let signer = match self.b_side.chain.get_signer() {
            Ok(s) => s,
            Err(e) => return Err(ConnectionError::Signer { chain_id: self.b_side.chain.id(), source: e }),
        };
        let new_msg = MsgConnectionOpenConfirm { connection_id: dst_connection_id.clone(), proofs, signer };
        let ghost before = msgs@;
        msgs.push(ConnectionMsg::OpenConfirm(new_msg));
        assert(msgs@.drop_last() == before);
        Ok(msgs)
    }

    /// Sends the OpenConfirm messages to chain B and returns the event that reports it.
    pub fn build_conn_confirm_and_send(&self) -> (r: Result<IbcEvent, ConnectionError>)
        ensures
            r matches Ok(e) ==> e is OpenConfirmConnection,
            self.a_side.connection_id is None <==> r == Err::<IbcEvent, ConnectionError>(
                ConnectionError::MissingLocalConnectionId,
            ),
            (self.a_side.connection_id is Some && self.b_side.connection_id is None) <==> r == Err::<
                IbcEvent,
                ConnectionError,
            >(ConnectionError::MissingCounterpartyConnectionId),
            r matches Err(e) ==> (e is MissingLocalConnectionId || e is MissingCounterpartyConnectionId
                || e is ChainQuery || e is MissingConnectionId || e is ConnectionAlreadyExist
                || e is ClientOperation || e is Submit || e is ConnectionProof || e is Signer
                || e is MissingVersion || e is ConnectionQuery || e is TxResponse || e is MissingConnectionConfirmEvent),
    {
        let dst_msgs = self.build_conn_confirm()?;
        let events = match self.b_side.chain.send_msgs(dst_msgs) {
            Ok(ev) => ev,
            Err(e) => return Err(ConnectionError::Submit { chain_id: self.b_side.chain.id(), source: e }),
        };
        select_handshake_event(events, HandshakeEventKind::OpenConfirm)
    }
}

impl<ChainA: ChainHandle, ChainB: ChainHandle> Connection<ChainA, ChainB> {
    /// Drives the connection handshake to both ends `Open`. First chain A gets its end
    /// through OpenInit, then chain B through OpenTry, each attempted up to `MAX_RETRIES`
    /// times and skipped where the side already knows its connection identifier. Then, up
    /// to `MAX_RETRIES` times, both ends are queried and the step that their states call
    /// for is sent; a failed query only uses up the attempt.
    pub fn handshake(&mut self) -> (r: Result<(), ConnectionError>)
        ensures
            final(self).delay_period == old(self).delay_period,
            final(self).a_side.chain == old(self).a_side.chain,
            final(self).b_side.chain == old(self).b_side.chain,
            final(self).a_side.client_id == old(self).a_side.client_id,
            final(self).b_side.client_id == old(self).b_side.client_id,
            old(self).a_side.connection_id is Some ==> final(self).a_side.connection_id
                == old(self).a_side.connection_id,
            old(self).b_side.connection_id is Some ==> final(self).b_side.connection_id
                == old(self).b_side.connection_id,
            r is Ok ==> final(self).a_side.connection_id is Some && final(self).b_side.connection_id is Some,
            r matches Err(e) ==> (e is MaxRetry || e is MissingConnectionIdFromEvent),
    {
        let ghost start = *self;

        // Make sure the end on chain A exists.
        let mut attempts: usize = 0;
        while self.a_side.connection_id.is_none()
            invariant
                attempts < MAX_RETRIES,
                start == *old(self),
                self.delay_period == start.delay_period,
                self.a_side.chain == start.a_side.chain,
                self.a_side.client_id == start.a_side.client_id,
                start.a_side.connection_id is Some ==> self.a_side.connection_id == start.a_side.connection_id,
                self.b_side == start.b_side,
            decreases (MAX_RETRIES - attempts) * 2 + (if self.a_side.connection_id is None { 1int } else { 0int }),
        {
            let outcome = self.flipped().build_conn_init_and_send();
            match id_phase_step(attempts, &outcome) {
                IdPhaseNext::Again(n) => {
                    attempts = n;
                },
                IdPhaseNext::Learned(connection_id) => {
                    self.a_side.connection_id = Some(connection_id);
                },
                IdPhaseNext::Stop(e) => {
                    return Err(e);
                },
            }
        }

        // Make sure the end on chain B exists.
        attempts = 0;
        while self.b_side.connection_id.is_none()
            invariant
                attempts < MAX_RETRIES,
                start == *old(self),
                self.delay_period == start.delay_period,
                self.a_side.chain == start.a_side.chain,
                self.a_side.client_id == start.a_side.client_id,
                self.a_side.connection_id is Some,
                start.a_side.connection_id is Some ==> self.a_side.connection_id == start.a_side.connection_id,
                self.b_side.chain == start.b_side.chain,
                self.b_side.client_id == start.b_side.client_id,
                start.b_side.connection_id is Some ==> self.b_side.connection_id == start.b_side.connection_id,
            decreases (MAX_RETRIES - attempts) * 2 + (if self.b_side.connection_id is None { 1int } else { 0int }),
        {
            let outcome = self.build_conn_try_and_send();
            match id_phase_step(attempts, &outcome) {
                IdPhaseNext::Again(n) => {
                    attempts = n;
                },
                IdPhaseNext::Learned(connection_id) => {
                    self.b_side.connection_id = Some(connection_id);
                },
                IdPhaseNext::Stop(e) => {
                    return Err(e);
                },
            }
        }

        // Drive both ends to Open.
        let mut round: usize = 0;
        loop
            invariant
                round < MAX_RETRIES,
                start == *old(self),
                self.delay_period == start.delay_period,
                self.a_side.chain == start.a_side.chain,
                self.a_side.client_id == start.a_side.client_id,
                self.a_side.connection_id is Some,
                start.a_side.connection_id is Some ==> self.a_side.connection_id == start.a_side.connection_id,
                self.b_side.chain == start.b_side.chain,
                self.b_side.client_id == start.b_side.client_id,
                self.b_side.connection_id is Some,
                start.b_side.connection_id is Some ==> self.b_side.connection_id == start.b_side.connection_id,
            decreases MAX_RETRIES - round,
        {
            let src_connection_id = match &self.a_side.connection_id {
                Some(id) => id,
                None => return Err(ConnectionError::MissingLocalConnectionId),
            };
            let dst_connection_id = match &self.b_side.connection_id {
                Some(id) => id,
                None => return Err(ConnectionError::MissingCounterpartyConnectionId),
            };
            // A failed query only uses up the round.
            let states = match self.a_side.chain.query_connection(src_connection_id, Height::zero()) {
                Ok(a) => match self.b_side.chain.query_connection(dst_connection_id, Height::zero()) {
                    Ok(b) => Some((a.state, b.state)),
                    Err(_) => None,
                },
                Err(_) => None,
            };
            let (action, next) = open_round(round, states);
            match action {
                OpenPhaseAction::AckOnA => {
                    let _ = self.flipped().build_conn_ack_and_send();
                },
                OpenPhaseAction::ConfirmOnB => {
                    let _ = self.build_conn_confirm_and_send();
                },
                OpenPhaseAction::ConfirmOnA => {
                    let _ = self.flipped().build_conn_confirm_and_send();
                },
                _ => {},
            }
            match next {
                OpenRoundNext::Again(n) => {
                    round = n;
                },
                OpenRoundNext::Stop(result) => {
                    return result;
                },
            }
        }
    }

    /// Creates a connection between the chains of the two clients and drives its
    /// handshake until both ends are open.
    pub fn new(
        a_client: crate::connection::ForeignClient<ChainA, ChainB>,
        b_client: crate::connection::ForeignClient<ChainB, ChainA>,
        delay_period: u64,
    ) -> (r: Result<Self, ConnectionError>)
        ensures
            !crate::connection::clients_match(a_client, b_client) ==> (r matches Err(e) && e is ChainIdMismatch),
            crate::connection::clients_match(a_client, b_client) && delay_period
                > crate::connection::MAX_PACKET_DELAY ==> r == Err::<Self, ConnectionError>(
                ConnectionError::MaxDelayPeriod { delay_period },
            ),
            r matches Err(ConnectionError::MaxDelayPeriod { .. }) ==> delay_period
                > crate::connection::MAX_PACKET_DELAY,
            r matches Ok(c) ==> {
                &&& crate::connection::clients_match(a_client, b_client)
                &&& c.delay_period == delay_period
                &&& delay_period <= crate::connection::MAX_PACKET_DELAY
                &&& c.a_side.chain == a_client.dst_chain
                &&& c.a_side.client_id == a_client.id
                &&& c.a_side.connection_id is Some
                &&& c.b_side.chain == b_client.dst_chain
                &&& c.b_side.client_id == b_client.id
                &&& c.b_side.connection_id is Some
            },
    {
        let mut c = Self::unopened(a_client, b_client, delay_period)?;
        c.handshake()?;
        Ok(c)
    }

    /// Sends to chain B the message that the state of the end on chain A, `state`, and
    /// that of its mirror on chain B call for, if any; returns the events reporting it.
    pub fn handshake_step(&self, state: ConnectionState) -> (r: Result<Vec<IbcEvent>, ConnectionError>)
        ensures
            self.a_side.connection_id is None <==> r == Err::<Vec<IbcEvent>, ConnectionError>(
                ConnectionError::MissingLocalConnectionId,
            ),
            r matches Ok(events) ==> events@.len() <= 1,
            r matches Ok(events) ==> forall|i: int| 0 <= i < events@.len() ==> (#[trigger] events@[i]
                is OpenTryConnection || events@[i] is OpenAckConnection
                || events@[i] is OpenConfirmConnection),
    {
        let counterparty_state = self.counterparty_state()?;
        let mut events: Vec<IbcEvent> = Vec::new();
        match next_handshake_message(state, counterparty_state) {
            Some(ConnectionMsgType::OpenTry) => {
                events.push(self.build_conn_try_and_send()?);
            },
            Some(ConnectionMsgType::OpenAck) => {
                events.push(self.build_conn_ack_and_send()?);
            },
            Some(ConnectionMsgType::OpenConfirm) => {
                events.push(self.build_conn_confirm_and_send()?);
            },
            None => {},
        }
        Ok(events)
    }

    /// One attempt of `handshake_step`, for a scheduler: a failure asks for a retry
    /// under the same index.
    pub fn step_state(&self, state: ConnectionState, index: u64) -> (r: RetryResult<(), u64>)
        ensures
            r == RetryResult::<(), u64>::Success(()) || r == RetryResult::<(), u64>::Retry(index),
            self.a_side.connection_id is None ==> r == RetryResult::<(), u64>::Retry(index),
    {
        match self.handshake_step(state) {
            Err(_) => RetryResult::Retry(index),
            Ok(_) => RetryResult::Success(()),
        }
    }

    /// One attempt of `handshake_step` for the state that `event` reports.
    pub fn step_event(&self, event: &IbcEvent, index: u64) -> (r: RetryResult<(), u64>)
        ensures
            r == RetryResult::<(), u64>::Success(()) || r == RetryResult::<(), u64>::Retry(index),
            self.a_side.connection_id is None ==> r == RetryResult::<(), u64>::Retry(index),
    {
        let state = state_for_event(event);
        self.step_state(state, index)
    }
}

} // verus!
