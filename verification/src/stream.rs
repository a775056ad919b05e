//! The streaming connection manager.
//!
//! A connection is established by probing an ordered endpoint/adapter-set
//! candidate list with a session-creation frame; a single authoritative
//! state flag tells every task whether to keep running. The manager owns
//! the subscription registry, the FIFO outbound queue, and the two typed
//! update queues fed by the frame dispatcher. Socket I/O stays outside:
//! the transport feeds replies and inbound frames in, and drains the
//! outbound queue in enqueue order.

use vstd::prelude::*;

use crate::error::StreamError;
use crate::frames::{
    add_subscription_frame, classify_handshake, classify_inbound, delete_subscription_frame,
    heartbeat_frame, lemma_split_len, session_create_frame, spec_add_subscription_frame,
    spec_classify_handshake, spec_classify_inbound, spec_delete_subscription_frame,
    spec_heartbeat_frame, spec_session_create_frame, spec_split, spec_stream_password,
    split_char, stream_password, HandshakeClass, InboundClass,
};
use crate::models::{
    AccountUpdate, AccountUpdateV, IgSession, IgSessionV, MarketUpdate, MarketUpdateV,
    Subscription, SubscriptionType, SubscriptionV,
};
use crate::registry::{spec_reg_lookup, spec_unique_ids, SubscriptionRegistry};

verus! {

/// The single authoritative connection state; every task reads it to
/// decide whether to keep running.
#[derive(Clone, Copy, PartialEq, Eq, Structural, Debug)]
pub enum ConnectionState {
    /// No connection, or a failed one.
    Disconnected,
    /// The transport is opening a socket, before the session-creation
    /// frame is on the wire.
    Connecting,
    /// A session-creation frame is outstanding; the next reply settles it.
    AwaitingHandshakeAck,
    /// The handshake succeeded; subscriptions and heartbeats may flow.
    Established,
    /// The server demanded a reconnect; dependent calls fail fast.
    Reconnecting,
    /// Closed on purpose; background tasks terminate.
    Closed,
}

/// One endpoint/adapter-set pair of the ordered candidate list.
#[derive(Clone, Debug)]
pub struct StreamCandidate {
    pub endpoint: String,
    pub adapter_set: String,
}

/// Mathematical view of a [`StreamCandidate`].
pub struct StreamCandidateV {
    pub endpoint: Seq<char>,
    pub adapter_set: Seq<char>,
}

impl View for StreamCandidate {
    type V = StreamCandidateV;

    open spec fn view(&self) -> StreamCandidateV {
        StreamCandidateV { endpoint: self.endpoint@, adapter_set: self.adapter_set@ }
    }
}

/// A frame waiting in the outbound queue. The writer task is the only
/// owner of the socket's send half; everything goes through this queue.
#[derive(Debug)]
pub enum OutboundFrame {
    /// A text control frame.
    Text(String),
    /// A connection close, sent best-effort on disconnect.
    Close,
}

/// Mathematical view of an [`OutboundFrame`].
pub enum OutboundFrameV {
    Text(Seq<char>),
    Close,
}

impl View for OutboundFrame {
    type V = OutboundFrameV;

    open spec fn view(&self) -> OutboundFrameV {
        match self {
            OutboundFrame::Text(s) => OutboundFrameV::Text(s@),
            OutboundFrame::Close => OutboundFrameV::Close,
        }
    }
}

/// What the caller of `connect_begin`/`on_handshake_reply` must do next.
#[derive(Debug)]
pub enum ConnectStep {
    /// The connection is already established; nothing to do (idempotence).
    AlreadyEstablished,
    /// Open this endpoint and send this session-creation frame, then hand
    /// the one reply back to `on_handshake_reply`.
    Attempt { endpoint: String, frame: String },
    /// The server demanded a reconnect: wait a backoff interval, then
    /// proceed as for `Attempt`.
    RetryAfterBackoff { endpoint: String, frame: String },
    /// The handshake succeeded.
    Established,
    /// The connect attempt is over; surface this error.
    Failed(StreamError),
}

/// Mathematical view of a [`ConnectStep`].
pub enum ConnectStepV {
    AlreadyEstablished,
    Attempt { endpoint: Seq<char>, frame: Seq<char> },
    RetryAfterBackoff { endpoint: Seq<char>, frame: Seq<char> },
    Established,
    Failed(StreamError),
}

impl View for ConnectStep {
    type V = ConnectStepV;

    open spec fn view(&self) -> ConnectStepV {
        match self {
            ConnectStep::AlreadyEstablished => ConnectStepV::AlreadyEstablished,
            ConnectStep::Attempt { endpoint, frame } => ConnectStepV::Attempt {
                endpoint: endpoint@,
                frame: frame@,
            },
            ConnectStep::RetryAfterBackoff { endpoint, frame } => ConnectStepV::RetryAfterBackoff {
                endpoint: endpoint@,
                frame: frame@,
            },
            ConnectStep::Established => ConnectStepV::Established,
            ConnectStep::Failed(e) => ConnectStepV::Failed(*e),
        }
    }
}

/// What the dispatcher did with one inbound frame.
#[derive(Clone, Copy, PartialEq, Eq, Structural, Debug)]
pub enum DispatchOutcome {
    /// A server keepalive.
    Probe,
    /// A control acknowledgement.
    Control,
    /// The server demands a reconnect; the state is now `Reconnecting`.
    LoopDemand,
    /// A server error; the state is now `Disconnected`.
    ServerError,
    /// A market update was queued.
    MarketDelivered,
    /// An account update was queued.
    AccountDelivered,
    /// The frame's subscription id is not registered; dropped with no
    /// effect — the subscription may have been removed concurrently.
    DroppedUnknown,
    /// The frame does not parse for its subscription's kind; dropped with
    /// no effect. A single malformed frame never ends the stream.
    DroppedMalformed,
}

/// Mathematical view of the whole manager.
#[verifier::ext_equal]
pub struct StreamManagerV {
    pub state: ConnectionState,
    pub candidates: Seq<StreamCandidateV>,
    pub attempt: int,
    pub loop_budget: int,
    pub client_id: Seq<char>,
    pub user: Seq<char>,
    pub password: Seq<char>,
    pub registry: Seq<SubscriptionV>,
    pub outbound: Seq<OutboundFrameV>,
    pub market_queue: Seq<MarketUpdateV>,
    pub account_queue: Seq<AccountUpdateV>,
}

/// The streaming connection manager.
#[derive(Debug)]
pub struct StreamingConnectionManager {
    pub state: ConnectionState,
    pub candidates: Vec<StreamCandidate>,
    pub attempt: usize,
    pub loop_budget: u32,
    pub client_id: String,
    pub user: String,
    pub password: String,
    pub registry: SubscriptionRegistry,
    pub outbound: Vec<OutboundFrame>,
    pub market_queue: Vec<MarketUpdate>,
    pub account_queue: Vec<AccountUpdate>,
}

impl View for StreamingConnectionManager {
    type V = StreamManagerV;

    open spec fn view(&self) -> StreamManagerV {
        StreamManagerV {
            state: self.state,
            candidates: self.candidates@.map_values(|c: StreamCandidate| c@),
            attempt: self.attempt as int,
            loop_budget: self.loop_budget as int,
            client_id: self.client_id@,
            user: self.user@,
            password: self.password@,
            registry: self.registry@,
            outbound: self.outbound@.map_values(|f: OutboundFrame| f@),
            market_queue: self.market_queue@.map_values(|u: MarketUpdate| u@),
            account_queue: self.account_queue@.map_values(|u: AccountUpdate| u@),
        }
    }
}

impl StreamManagerV {
    /// Well-formedness: distinct subscription ids, and a live handshake
    /// attempt always points at a real candidate.
    pub open spec fn inv(self) -> bool {
        &&& spec_unique_ids(self.registry)
        &&& (self.state is AwaitingHandshakeAck ==> 0 <= self.attempt < self.candidates.len())
    }
}

/// The session-creation frame sent for candidate `i`.
pub open spec fn spec_candidate_frame(m: StreamManagerV, i: int) -> Seq<char> {
    spec_session_create_frame(m.client_id, m.candidates[i].adapter_set, m.user, m.password)
}

/// The transition of `connect_begin`: idempotent when established,
/// otherwise the probe starts at candidate zero.
pub open spec fn spec_connect_begin(m: StreamManagerV, s: IgSessionV) -> (
    StreamManagerV,
    ConnectStepV,
) {
    if m.state is Established {
        (m, ConnectStepV::AlreadyEstablished)
    } else if m.candidates.len() == 0 {
        (
            StreamManagerV { state: ConnectionState::Disconnected, ..m },
            ConnectStepV::Failed(StreamError::AllEndpointsFailed),
        )
    } else {
        let probing = StreamManagerV {
            state: ConnectionState::AwaitingHandshakeAck,
            attempt: 0,
            user: s.account_id,
            password: spec_stream_password(s.cst, s.token),
            ..m
        };
        (
            probing,
            ConnectStepV::Attempt {
                endpoint: m.candidates[0].endpoint,
                frame: spec_candidate_frame(probing, 0),
            },
        )
    }
}

/// The transition of `on_handshake_reply`, given the reply's class.
/// `CONOK` establishes the connection; `LOOP` restarts the probe from
/// candidate zero while the bounded budget lasts; anything else moves to
/// the next candidate, and exhausting the list is the terminal failure.
pub open spec fn spec_on_reply(m: StreamManagerV, class: HandshakeClass) -> (
    StreamManagerV,
    ConnectStepV,
) {
    match class {
        HandshakeClass::Conok => (
            StreamManagerV { state: ConnectionState::Established, ..m },
            ConnectStepV::Established,
        ),
        HandshakeClass::LoopDemand => {
            if m.loop_budget <= 0 {
                (
                    StreamManagerV { state: ConnectionState::Disconnected, ..m },
                    ConnectStepV::Failed(StreamError::ConnectFailed),
                )
            } else {
                let again = StreamManagerV { attempt: 0, loop_budget: m.loop_budget - 1, ..m };
                (
                    again,
                    ConnectStepV::RetryAfterBackoff {
                        endpoint: m.candidates[0].endpoint,
                        frame: spec_candidate_frame(again, 0),
                    },
                )
            }
        },
        HandshakeClass::Rejected => {
            if m.attempt + 1 == m.candidates.len() {
                (
                    StreamManagerV { state: ConnectionState::Disconnected, ..m },
                    ConnectStepV::Failed(StreamError::AllEndpointsFailed),
                )
            } else {
                let next = StreamManagerV { attempt: m.attempt + 1, ..m };
                (
                    next,
                    ConnectStepV::Attempt {
                        endpoint: m.candidates[m.attempt + 1].endpoint,
                        frame: spec_candidate_frame(next, m.attempt + 1),
                    },
                )
            }
        },
    }
}

/// The class a handshake reply falls under; no reply counts as rejected.
pub open spec fn spec_reply_class(reply: Option<Seq<char>>) -> HandshakeClass {
    match reply {
        Some(t) => spec_classify_handshake(t),
        None => HandshakeClass::Rejected,
    }
}

/// The transition of `dispatch_frame`. Literal protocol markers are tested
/// first; a data frame is `id|f1|f2|f3`, routed by the registered kind of
/// its id. Unknown ids and malformed frames are dropped with no effect.
pub open spec fn spec_dispatch(m: StreamManagerV, t: Seq<char>) -> (
    StreamManagerV,
    DispatchOutcome,
) {
    match spec_classify_inbound(t) {
        InboundClass::Probe => (m, DispatchOutcome::Probe),
        InboundClass::Control => (m, DispatchOutcome::Control),
        InboundClass::LoopDemand => (
            StreamManagerV { state: ConnectionState::Reconnecting, ..m },
            DispatchOutcome::LoopDemand,
        ),
        InboundClass::ServerError => (
            StreamManagerV { state: ConnectionState::Disconnected, ..m },
            DispatchOutcome::ServerError,
        ),
        InboundClass::Data => {
            let toks = spec_split(t, '|');
            match spec_reg_lookup(m.registry, toks[0]) {
                None => (m, DispatchOutcome::DroppedUnknown),
                Some(sub) => match sub.kind {
                    SubscriptionType::Market | SubscriptionType::Chart => {
                        if toks.len() == 4 {
                            (
                                StreamManagerV {
                                    market_queue: m.market_queue.push(
                                        MarketUpdateV {
                                            epic: sub.item,
                                            bid: toks[1],
                                            offer: toks[2],
                                            timestamp: toks[3],
                                        },
                                    ),
                                    ..m
                                },
                                DispatchOutcome::MarketDelivered,
                            )
                        } else {
                            (m, DispatchOutcome::DroppedMalformed)
                        }
                    },
                    SubscriptionType::Account | SubscriptionType::Trade => {
                        if toks.len() == 4 {
                            (
                                StreamManagerV {
                                    account_queue: m.account_queue.push(
                                        AccountUpdateV {
                                            account_id: toks[1],
                                            update_type: toks[2],
                                            payload: toks[3],
                                        },
                                    ),
                                    ..m
                                },
                                DispatchOutcome::AccountDelivered,
                            )
                        } else {
                            (m, DispatchOutcome::DroppedMalformed)
                        }
                    },
                },
            }
        },
    }
}

impl StreamingConnectionManager {
    /// A disconnected manager over the given candidate list. `loop_budget`
    /// bounds how many server `LOOP` demands one connect call honours.
    pub fn new(candidates: Vec<StreamCandidate>, client_id: String, loop_budget: u32) -> (r:
        StreamingConnectionManager)
        ensures
            r@.state == ConnectionState::Disconnected,
            r@.candidates == candidates@.map_values(|c: StreamCandidate| c@),
            r@.attempt == 0,
            r@.loop_budget == loop_budget as int,
            r@.client_id == client_id@,
            r@.registry == Seq::<SubscriptionV>::empty(),
            r@.outbound == Seq::<OutboundFrameV>::empty(),
            r@.market_queue == Seq::<MarketUpdateV>::empty(),
            r@.account_queue == Seq::<AccountUpdateV>::empty(),
            r@.inv(),
    {
        let r = StreamingConnectionManager {
            state: ConnectionState::Disconnected,
            candidates,
            attempt: 0,
            loop_budget,
            client_id,
            user: String::new(),
            password: String::new(),
            registry: SubscriptionRegistry::new(),
            outbound: Vec::new(),
            market_queue: Vec::new(),
            account_queue: Vec::new(),
        };
        proof {
            assert(r@.outbound =~= Seq::<OutboundFrameV>::empty());
            assert(r@.market_queue =~= Seq::<MarketUpdateV>::empty());
            assert(r@.account_queue =~= Seq::<AccountUpdateV>::empty());
        }
        r
    }

    /// Whether the manager's invariant holds. True for every manager built
    /// through `new` and mutated only through these methods; unverified
    /// callers can test it instead of assuming it.
    pub fn wf_check(&self) -> (r: bool)
        ensures
            r == self@.inv(),
    {
        let ids_ok = self.registry.ids_unique();
        let attempt_ok = !matches!(self.state, ConnectionState::AwaitingHandshakeAck)
            || self.attempt < self.candidates.len();
        ids_ok && attempt_ok
    }

    /// Assigns the streaming client id the next connect call sends; a
    /// fresh one is drawn per connect call.
    pub fn assign_client_id(&mut self, id: String)
        requires
            old(self)@.inv(),
        ensures
            final(self)@.inv(),
            final(self)@ == (StreamManagerV { client_id: id@, ..old(self)@ }),
    {
        self.client_id = id;
        proof {
            assert(self@ =~= StreamManagerV { client_id: id@, ..old(self)@ });
        }
    }

    /// True only in the `Established` state.
    pub fn is_connected(&self) -> (r: bool)
        ensures
            r == (self@.state is Established),
    {
        matches!(self.state, ConnectionState::Established)
    }

    /// The current state flag.
    pub fn connection_state(&self) -> (r: ConnectionState)
        ensures
            r == self@.state,
    {
        self.state
    }

    /// Begins a connect call: immediately done when already established,
    /// otherwise the first candidate is probed.
    pub fn connect_begin(&mut self, session: &IgSession) -> (r: ConnectStep)
        requires
            old(self)@.inv(),
        ensures
            final(self)@.inv(),
            final(self)@ == spec_connect_begin(old(self)@, session@).0,
            r@ == spec_connect_begin(old(self)@, session@).1,
    {
        if matches!(self.state, ConnectionState::Established) {
            return ConnectStep::AlreadyEstablished;
        }
        if self.candidates.len() == 0 {
            self.state = ConnectionState::Disconnected;
            proof {
                assert(self@ =~= spec_connect_begin(old(self)@, session@).0);
            }
            return ConnectStep::Failed(StreamError::AllEndpointsFailed);
        }
        self.state = ConnectionState::AwaitingHandshakeAck;
        self.attempt = 0;
        self.user = session.account_id.clone();
        self.password = stream_password(session.cst.as_str(), session.token.as_str());
        let frame = session_create_frame(
            self.client_id.as_str(),
            self.candidates[0].adapter_set.as_str(),
            self.user.as_str(),
            self.password.as_str(),
        );
        let endpoint = self.candidates[0].endpoint.clone();
        proof {
            assert(self@ =~= spec_connect_begin(old(self)@, session@).0);
        }
        ConnectStep::Attempt { endpoint, frame }
    }

    /// Feeds the one reply to the last session-creation frame back in; no
    /// reply counts as a rejection of the candidate.
    pub fn on_handshake_reply(&mut self, reply: Option<&String>) -> (r: ConnectStep)
        requires
            old(self)@.inv(),
            old(self)@.state is AwaitingHandshakeAck,
        ensures
            final(self)@.inv(),
            ({
                let class = spec_reply_class(
                    match reply {
                        Some(t) => Some(t@),
                        None => None,
                    },
                );
                final(self)@ == spec_on_reply(old(self)@, class).0 && r@ == spec_on_reply(
                    old(self)@,
                    class,
                ).1
            }),
    {
        let class = match reply {
            Some(t) => classify_handshake(t.as_str()),
            None => HandshakeClass::Rejected,
        };
        match class {
            HandshakeClass::Conok => {
                self.state = ConnectionState::Established;
                proof {
                    assert(self@ =~= spec_on_reply(old(self)@, HandshakeClass::Conok).0);
                }
                ConnectStep::Established
            },
            HandshakeClass::LoopDemand => {
                if self.loop_budget == 0 {
                    self.state = ConnectionState::Disconnected;
                    proof {
                        assert(self@ =~= spec_on_reply(old(self)@, HandshakeClass::LoopDemand).0);
                    }
                    ConnectStep::Failed(StreamError::ConnectFailed)
                } else {
                    self.loop_budget = self.loop_budget - 1;
                    self.attempt = 0;
                    let frame = session_create_frame(
                        self.client_id.as_str(),
                        self.candidates[0].adapter_set.as_str(),
                        self.user.as_str(),
                        self.password.as_str(),
                    );
                    let endpoint = self.candidates[0].endpoint.clone();
                    proof {
                        assert(self@ =~= spec_on_reply(old(self)@, HandshakeClass::LoopDemand).0);
                    }
                    ConnectStep::RetryAfterBackoff { endpoint, frame }
                }
            },
            HandshakeClass::Rejected => {
                let n = self.candidates.len();
                proof {
                    assert(self@.candidates.len() == self.candidates@.len());
                    assert(self.attempt < n);
                }
                if self.attempt + 1 == n {
                    self.state = ConnectionState::Disconnected;
                    proof {
                        assert(self@ =~= spec_on_reply(old(self)@, HandshakeClass::Rejected).0);
                    }
                    ConnectStep::Failed(StreamError::AllEndpointsFailed)
                } else {
                    self.attempt = self.attempt + 1;
                    let frame = session_create_frame(
                        self.client_id.as_str(),
                        self.candidates[self.attempt].adapter_set.as_str(),
                        self.user.as_str(),
                        self.password.as_str(),
                    );
                    let endpoint = self.candidates[self.attempt].endpoint.clone();
                    proof {
                        assert(self@ =~= spec_on_reply(old(self)@, HandshakeClass::Rejected).0);
                    }
                    ConnectStep::Attempt { endpoint, frame }
                }
            },
        }
    }

    /// Registers a subscription under a caller-supplied fresh id and
    /// enqueues its add-subscription frame. Requires `Established`.
    pub fn subscribe_with_id(&mut self, kind: SubscriptionType, item: String, id: String) -> (r:
        Result<String, StreamError>)
        requires
            old(self)@.inv(),
        ensures
            final(self)@.inv(),
            !(old(self)@.state is Established) ==> r == Err::<String, StreamError>(
                StreamError::NotConnected,
            ) && *final(self) == *old(self),
            old(self)@.state is Established ==> ({
                &&& r matches Ok(rid) && rid@ == id@
                &&& spec_reg_lookup(final(self)@.registry, id@) == Some(
                    SubscriptionV { id: id@, kind, item: item@ },
                )
                &&& forall|x: Seq<char>|
                    x != id@ ==> #[trigger] spec_reg_lookup(final(self)@.registry, x)
                        == spec_reg_lookup(old(self)@.registry, x)
                &&& final(self)@ == (StreamManagerV {
                    registry: final(self)@.registry,
                    outbound: old(self)@.outbound.push(
                        OutboundFrameV::Text(spec_add_subscription_frame(kind, id@, item@)),
                    ),
                    ..old(self)@
                })
            }),
    {
        if !matches!(self.state, ConnectionState::Established) {
            return Err(StreamError::NotConnected);
        }
        let ghost item_v = item@;
        let frame = add_subscription_frame(kind, id.as_str(), item.as_str());
        let sub = Subscription { id: id.clone(), subscription_type: kind, item };
        self.registry.insert(sub);
        let ghost outbound_before = self@.outbound;
        self.outbound.push(OutboundFrame::Text(frame));
        proof {
            assert(self@.outbound =~= outbound_before.push(
                OutboundFrameV::Text(spec_add_subscription_frame(kind, id@, item_v)),
            ));
            assert(self@ =~= StreamManagerV {
                registry: self@.registry,
                outbound: old(self)@.outbound.push(
                    OutboundFrameV::Text(spec_add_subscription_frame(kind, id@, item_v)),
                ),
                ..old(self)@
            });
        }
        Ok(id)
    }

    /// Registers a subscription under a fresh generator-assigned id and
    /// enqueues its add-subscription frame; the id is returned before the
    /// server acknowledges, which it does asynchronously via data frames.
    pub fn subscribe(&mut self, kind: SubscriptionType, item: String) -> (r: Result<
        String,
        StreamError,
    >)
        requires
            old(self)@.inv(),
        ensures
            final(self)@.inv(),
            !(old(self)@.state is Established) ==> r == Err::<String, StreamError>(
                StreamError::NotConnected,
            ) && *final(self) == *old(self),
            old(self)@.state is Established ==> ({
                &&& r matches Ok(id)
                &&& spec_reg_lookup(final(self)@.registry, id@) == Some(
                    SubscriptionV { id: id@, kind, item: item@ },
                )
                &&& forall|x: Seq<char>|
                    x != id@ ==> #[trigger] spec_reg_lookup(final(self)@.registry, x)
                        == spec_reg_lookup(old(self)@.registry, x)
                &&& final(self)@ == (StreamManagerV {
                    registry: final(self)@.registry,
                    outbound: old(self)@.outbound.push(
                        OutboundFrameV::Text(spec_add_subscription_frame(kind, id@, item@)),
                    ),
                    ..old(self)@
                })
            }),
    {
        let id = crate::transport::fresh_subscription_id(kind);
        self.subscribe_with_id(kind, item, id)
    }

    /// Subscribes to market updates for one instrument epic.
    pub fn subscribe_market(&mut self, epic: String) -> (r: Result<String, StreamError>)
        requires
            old(self)@.inv(),
        ensures
            final(self)@.inv(),
            !(old(self)@.state is Established) ==> r == Err::<String, StreamError>(
                StreamError::NotConnected,
            ) && *final(self) == *old(self),
            old(self)@.state is Established ==> ({
                &&& r matches Ok(id)
                &&& spec_reg_lookup(final(self)@.registry, id@) == Some(
                    SubscriptionV { id: id@, kind: SubscriptionType::Market, item: epic@ },
                )
                &&& forall|x: Seq<char>|
                    x != id@ ==> #[trigger] spec_reg_lookup(final(self)@.registry, x)
                        == spec_reg_lookup(old(self)@.registry, x)
                &&& final(self)@ == (StreamManagerV {
                    registry: final(self)@.registry,
                    outbound: old(self)@.outbound.push(
                        OutboundFrameV::Text(
                            spec_add_subscription_frame(SubscriptionType::Market, id@, epic@),
                        ),
                    ),
                    ..old(self)@
                })
            }),
    {
        self.subscribe(SubscriptionType::Market, epic)
    }

    /// Subscribes to updates of the account stream.
    pub fn subscribe_account(&mut self) -> (r: Result<String, StreamError>)
        requires
            old(self)@.inv(),
        ensures
            final(self)@.inv(),
            !(old(self)@.state is Established) ==> r == Err::<String, StreamError>(
                StreamError::NotConnected,
            ) && *final(self) == *old(self),
            old(self)@.state is Established ==> ({
                &&& r matches Ok(id)
                &&& spec_reg_lookup(final(self)@.registry, id@) == Some(
                    SubscriptionV {
                        id: id@,
                        kind: SubscriptionType::Account,
                        item: "ACCOUNT"@,
                    },
                )
                &&& forall|x: Seq<char>|
                    x != id@ ==> #[trigger] spec_reg_lookup(final(self)@.registry, x)
                        == spec_reg_lookup(old(self)@.registry, x)
                &&& final(self)@ == (StreamManagerV {
                    registry: final(self)@.registry,
                    outbound: old(self)@.outbound.push(
                        OutboundFrameV::Text(
                            spec_add_subscription_frame(
                                SubscriptionType::Account,
                                id@,
                                "ACCOUNT"@,
                            ),
                        ),
                    ),
                    ..old(self)@
                })
            }),
    {
        self.subscribe(SubscriptionType::Account, "ACCOUNT".to_owned())
    }

    /// Removes the subscription and enqueues its delete frame; an unknown
    /// id is `NotFound` and has no effect — in particular, nothing is
    /// enqueued for the transport.
    pub fn unsubscribe(&mut self, id: &str) -> (r: Result<(), StreamError>)
        requires
            old(self)@.inv(),
        ensures
            final(self)@.inv(),
            spec_reg_lookup(old(self)@.registry, id@) is None ==> r == Err::<(), StreamError>(
                StreamError::NotFound,
            ) && *final(self) == *old(self),
            spec_reg_lookup(old(self)@.registry, id@) is Some ==> ({
                &&& r == Ok::<(), StreamError>(())
                &&& spec_reg_lookup(final(self)@.registry, id@) is None
                &&& forall|x: Seq<char>|
                    x != id@ ==> #[trigger] spec_reg_lookup(final(self)@.registry, x)
                        == spec_reg_lookup(old(self)@.registry, x)
                &&& final(self)@ == (StreamManagerV {
                    registry: final(self)@.registry,
                    outbound: old(self)@.outbound.push(
                        OutboundFrameV::Text(spec_delete_subscription_frame(id@)),
                    ),
                    ..old(self)@
                })
            }),
    {
        match self.registry.remove(id) {
            None => Err(StreamError::NotFound),
            Some(_) => {
                let frame = delete_subscription_frame(id);
                let ghost outbound_before = self@.outbound;
                self.outbound.push(OutboundFrame::Text(frame));
                proof {
                    assert(self@.outbound =~= outbound_before.push(
                        OutboundFrameV::Text(spec_delete_subscription_frame(id@)),
                    ));
                    assert(self@ =~= StreamManagerV {
                        registry: self@.registry,
                        outbound: old(self)@.outbound.push(
                            OutboundFrameV::Text(spec_delete_subscription_frame(id@)),
                        ),
                        ..old(self)@
                    });
                }
                Ok(())
            },
        }
    }

    /// Dispatches one inbound frame; see `spec_dispatch` for the complete
    /// behaviour. A malformed or unknown data frame never ends the stream.
    pub fn dispatch_frame(&mut self, text: &str) -> (r: DispatchOutcome)
        requires
            old(self)@.inv(),
        ensures
            final(self)@.inv(),
            final(self)@ == spec_dispatch(old(self)@, text@).0,
            r == spec_dispatch(old(self)@, text@).1,
    {
        match classify_inbound(text) {
            InboundClass::Probe => DispatchOutcome::Probe,
            InboundClass::Control => DispatchOutcome::Control,
            InboundClass::LoopDemand => {
                self.state = ConnectionState::Reconnecting;
                proof {
                    assert(self@ =~= spec_dispatch(old(self)@, text@).0);
                }
                DispatchOutcome::LoopDemand
            },
            InboundClass::ServerError => {
                self.state = ConnectionState::Disconnected;
                proof {
                    assert(self@ =~= spec_dispatch(old(self)@, text@).0);
                }
                DispatchOutcome::ServerError
            },
            InboundClass::Data => {
                let toks = split_char(text, '|');
                proof {
                    lemma_split_len(text@, '|');
                    assert(toks@.len() == toks.deep_view().len());
                    assert(toks.deep_view()[0] == toks@[0]@);
                }
                let sub = match self.registry.lookup(toks[0].as_str()) {
                    None => {
                        return DispatchOutcome::DroppedUnknown;
                    },
                    Some(s) => s,
                };
                if toks.len() != 4 {
                    return DispatchOutcome::DroppedMalformed;
                }
                proof {
                    assert(toks.deep_view()[1] == toks@[1]@);
                    assert(toks.deep_view()[2] == toks@[2]@);
                    assert(toks.deep_view()[3] == toks@[3]@);
                }
                match sub.subscription_type {
                    SubscriptionType::Market | SubscriptionType::Chart => {
                        let update = MarketUpdate {
                            epic: sub.item,
                            bid: toks[1].clone(),
                            offer: toks[2].clone(),
                            timestamp: toks[3].clone(),
                        };
                        self.market_queue.push(update);
                        proof {
                            assert(self@.market_queue =~= spec_dispatch(
                                old(self)@,
                                text@,
                            ).0.market_queue);
                            assert(self@ =~= spec_dispatch(old(self)@, text@).0);
                        }
                        DispatchOutcome::MarketDelivered
                    },
                    SubscriptionType::Account | SubscriptionType::Trade => {
                        let update = AccountUpdate {
                            account_id: toks[1].clone(),
                            update_type: toks[2].clone(),
                            payload: toks[3].clone(),
                        };
                        self.account_queue.push(update);
                        proof {
                            assert(self@.account_queue =~= spec_dispatch(
                                old(self)@,
                                text@,
                            ).0.account_queue);
                            assert(self@ =~= spec_dispatch(old(self)@, text@).0);
                        }
                        DispatchOutcome::AccountDelivered
                    },
                }
            },
        }
    }

    /// Enqueues the protocol keepalive; only an established connection
    /// sends heartbeats.
    pub fn on_heartbeat_tick(&mut self) -> (r: Result<(), StreamError>)
        requires
            old(self)@.inv(),
        ensures
            final(self)@.inv(),
            !(old(self)@.state is Established) ==> r == Err::<(), StreamError>(
                StreamError::NotConnected,
            ) && *final(self) == *old(self),
            old(self)@.state is Established ==> r == Ok::<(), StreamError>(()) && final(self)@
                == (StreamManagerV {
                outbound: old(self)@.outbound.push(OutboundFrameV::Text(spec_heartbeat_frame())),
                ..old(self)@
            }),
    {
        if !matches!(self.state, ConnectionState::Established) {
            return Err(StreamError::NotConnected);
        }
        let ghost outbound_before = self@.outbound;
        self.outbound.push(OutboundFrame::Text(heartbeat_frame()));
        proof {
            assert(self@.outbound =~= outbound_before.push(
                OutboundFrameV::Text(spec_heartbeat_frame()),
            ));
            assert(self@ =~= StreamManagerV {
                outbound: old(self)@.outbound.push(OutboundFrameV::Text(spec_heartbeat_frame())),
                ..old(self)@
            });
        }
        Ok(())
    }

    /// Records that the transport failed to write or read, so dependent
    /// calls fail fast rather than hang.
    pub fn mark_disconnected(&mut self)
        requires
            old(self)@.inv(),
        ensures
            final(self)@.inv(),
            final(self)@ == (StreamManagerV { state: ConnectionState::Disconnected, ..old(self)@ }),
    {
        self.state = ConnectionState::Disconnected;
        proof {
            assert(self@ =~= StreamManagerV {
                state: ConnectionState::Disconnected,
                ..old(self)@
            });
        }
    }

    /// Closes the connection: a close frame is enqueued best-effort when
    /// established, and the state becomes `Closed` whatever it was — safe
    /// to call from any state.
    pub fn disconnect(&mut self)
        requires
            old(self)@.inv(),
        ensures
            final(self)@.inv(),
            old(self)@.state is Established ==> final(self)@ == (StreamManagerV {
                state: ConnectionState::Closed,
                outbound: old(self)@.outbound.push(OutboundFrameV::Close),
                ..old(self)@
            }),
            !(old(self)@.state is Established) ==> final(self)@ == (StreamManagerV {
                state: ConnectionState::Closed,
                ..old(self)@
            }),
    {
        if matches!(self.state, ConnectionState::Established) {
            let ghost outbound_before = self@.outbound;
            self.outbound.push(OutboundFrame::Close);
            proof {
                assert(self@.outbound =~= outbound_before.push(OutboundFrameV::Close));
            }
        }
        self.state = ConnectionState::Closed;
        proof {
            if old(self)@.state is Established {
                assert(self@ =~= StreamManagerV {
                    state: ConnectionState::Closed,
                    outbound: old(self)@.outbound.push(OutboundFrameV::Close),
                    ..old(self)@
                });
            } else {
                assert(self@ =~= StreamManagerV { state: ConnectionState::Closed, ..old(self)@ });
            }
        }
    }

    /// Hands the writer task the next frame, in enqueue order.
    pub fn next_outbound(&mut self) -> (r: Option<OutboundFrame>)
        requires
            old(self)@.inv(),
        ensures
            final(self)@.inv(),
            old(self)@.outbound.len() == 0 ==> r is None && *final(self) == *old(self),
            old(self)@.outbound.len() > 0 ==> ({
                &&& r matches Some(f) && f@ == old(self)@.outbound[0]
                &&& final(self)@ == (StreamManagerV {
                    outbound: old(self)@.outbound.drop_first(),
                    ..old(self)@
                })
            }),
    {
        if self.outbound.len() == 0 {
            return None;
        }
        let f = self.outbound.remove(0);
        proof {
            assert(self@.outbound =~= old(self)@.outbound.drop_first());
            assert(self@ =~= StreamManagerV {
                outbound: old(self)@.outbound.drop_first(),
                ..old(self)@
            });
        }
        Some(f)
    }

    /// Drains the queued market updates, in arrival order.
    pub fn market_updates(&mut self) -> (r: Vec<MarketUpdate>)
        requires
            old(self)@.inv(),
        ensures
            final(self)@.inv(),
            r@.map_values(|u: MarketUpdate| u@) == old(self)@.market_queue,
            final(self)@ == (StreamManagerV {
                market_queue: Seq::<MarketUpdateV>::empty(),
                ..old(self)@
            }),
    {
        let r = self.market_queue.split_off(0);
        proof {
            assert(r@.map_values(|u: MarketUpdate| u@) =~= old(self)@.market_queue);
            assert(self@.market_queue =~= Seq::<MarketUpdateV>::empty());
            assert(self@ =~= StreamManagerV {
                market_queue: Seq::<MarketUpdateV>::empty(),
                ..old(self)@
            });
        }
        r
    }

    /// Drains the queued account updates, in arrival order.
    pub fn account_updates(&mut self) -> (r: Vec<AccountUpdate>)
        requires
            old(self)@.inv(),
        ensures
            final(self)@.inv(),
            r@.map_values(|u: AccountUpdate| u@) == old(self)@.account_queue,
            final(self)@ == (StreamManagerV {
                account_queue: Seq::<AccountUpdateV>::empty(),
                ..old(self)@
            }),
    {
        let r = self.account_queue.split_off(0);
        proof {
            assert(r@.map_values(|u: AccountUpdate| u@) =~= old(self)@.account_queue);
            assert(self@.account_queue =~= Seq::<AccountUpdateV>::empty());
            assert(self@ =~= StreamManagerV {
                account_queue: Seq::<AccountUpdateV>::empty(),
                ..old(self)@
            });
        }
        r
    }
}

/// The manager after `k` rejected handshake replies.
pub open spec fn spec_rejected_steps(m: StreamManagerV, k: nat) -> StreamManagerV
    decreases k,
{
    if k == 0 {
        m
    } else {
        spec_on_reply(spec_rejected_steps(m, (k - 1) as nat), HandshakeClass::Rejected).0
    }
}

/// with every candidate answering a non-`CONOK`, non-`LOOP` reply, a
/// connect call tries each candidate exactly once, in list order — after
/// `k` rejections the probe stands at candidate `k`, the next rejection
/// moves it to candidate `k + 1`, and rejecting the last candidate ends
/// the call with `AllEndpointsFailed`. No candidate is retried and the
/// probe cannot loop.
pub proof fn lemma_connect_exhausts_candidates(m: StreamManagerV, k: nat)
    requires
        m.inv(),
        m.state is AwaitingHandshakeAck,
        m.attempt == 0,
        k < m.candidates.len(),
    ensures
        spec_rejected_steps(m, k) == (StreamManagerV { attempt: k as int, ..m }),
        k + 1 < m.candidates.len() ==> spec_on_reply(
            spec_rejected_steps(m, k),
            HandshakeClass::Rejected,
        ).1 == (ConnectStepV::Attempt {
            endpoint: m.candidates[k as int + 1].endpoint,
            frame: spec_candidate_frame(m, k as int + 1),
        }),
        k + 1 == m.candidates.len() ==> spec_on_reply(
            spec_rejected_steps(m, k),
            HandshakeClass::Rejected,
        ) == (
            StreamManagerV { attempt: k as int, state: ConnectionState::Disconnected, ..m },
            ConnectStepV::Failed(StreamError::AllEndpointsFailed),
        ),
    decreases k,
{
    if k == 0 {
        assert(spec_rejected_steps(m, 0) =~= StreamManagerV { attempt: 0, ..m });
    } else {
        lemma_connect_exhausts_candidates(m, (k - 1) as nat);
        let prev = spec_rejected_steps(m, (k - 1) as nat);
        assert(prev.attempt + 1 == k < m.candidates.len());
        assert(spec_rejected_steps(m, k) =~= StreamManagerV { attempt: k as int, ..m });
    }
}

/// once a subscription id has left the registry, a late data frame
/// carrying that id is dropped with a warning and no effect: no update is
/// emitted on any queue and the connection state is untouched.
/// `unsubscribe` guarantees the premise for the id it removed, and for an
/// unknown id it returns `NotFound` without enqueueing anything.
pub proof fn lemma_unsubscribed_id_emits_nothing(m: StreamManagerV, t: Seq<char>)
    requires
        spec_classify_inbound(t) is Data,
        spec_reg_lookup(m.registry, spec_split(t, '|')[0]) is None,
    ensures
        spec_dispatch(m, t) == (m, DispatchOutcome::DroppedUnknown),
{
}

/// a malformed inbound data frame for a known market subscription is
/// recovered locally: it is dropped with no effect at all, and a
/// subsequent well-formed frame for the same subscription is still
/// delivered to the market queue. A single malformed frame never ends the
/// reader.
pub proof fn lemma_malformed_frame_recovered_locally(
    m: StreamManagerV,
    bad: Seq<char>,
    good: Seq<char>,
    sub: SubscriptionV,
)
    requires
        spec_classify_inbound(bad) is Data,
        spec_reg_lookup(m.registry, spec_split(bad, '|')[0]) == Some(sub),
        spec_split(bad, '|').len() != 4,
        spec_classify_inbound(good) is Data,
        spec_reg_lookup(m.registry, spec_split(good, '|')[0]) == Some(sub),
        spec_split(good, '|').len() == 4,
        sub.kind is Market,
    ensures
        spec_dispatch(m, bad) == (m, DispatchOutcome::DroppedMalformed),
        spec_dispatch(spec_dispatch(m, bad).0, good).1 == DispatchOutcome::MarketDelivered,
        spec_dispatch(spec_dispatch(m, bad).0, good).0.market_queue == m.market_queue.push(
            MarketUpdateV {
                epic: sub.item,
                bid: spec_split(good, '|')[1],
                offer: spec_split(good, '|')[2],
                timestamp: spec_split(good, '|')[3],
            },
        ),
{
}

} // verus!
