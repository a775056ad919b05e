use ig_client::error::StreamError;
use ig_client::frames::{
    add_subscription_frame, classify_handshake, delete_subscription_frame, heartbeat_frame,
    session_create_frame, split_char, stream_password, HandshakeClass,
};
use ig_client::models::{IgSession, SubscriptionType};
use ig_client::stream::{
    ConnectStep, ConnectionState, DispatchOutcome, OutboundFrame, StreamCandidate,
    StreamingConnectionManager,
};

fn session() -> IgSession {
    IgSession {
        cst: "CSTVAL".to_string(),
        token: "XSTVAL".to_string(),
        account_id: "ACC".to_string(),
    }
}

fn candidates() -> Vec<StreamCandidate> {
    vec![
        StreamCandidate {
            endpoint: "wss://one.example/lightstreamer".to_string(),
            adapter_set: "DEMO-one".to_string(),
        },
        StreamCandidate {
            endpoint: "wss://two.example/lightstreamer".to_string(),
            adapter_set: "DEMO-two".to_string(),
        },
        StreamCandidate {
            endpoint: "wss://three.example/lightstreamer".to_string(),
            adapter_set: "PROD-three".to_string(),
        },
    ]
}

fn established_manager() -> StreamingConnectionManager {
    let mut mgr = StreamingConnectionManager::new(candidates(), "CID".to_string(), 2);
    let step = mgr.connect_begin(&session());
    assert!(matches!(step, ConnectStep::Attempt { .. }));
    let reply = "CONOK,sid,70000,5000,*".to_string();
    let step = mgr.on_handshake_reply(Some(&reply));
    assert!(matches!(step, ConnectStep::Established));
    assert!(mgr.is_connected());
    // Drain the queue so tests below see only their own frames.
    while mgr.next_outbound().is_some() {}
    mgr
}

#[test]
fn frame_layouts_are_byte_exact() {
    assert_eq!(stream_password("abc", "def"), "CST-abc|XST-def");
    assert_eq!(
        session_create_frame("id1", "DEMO-x", "ACC", "CST-a|XST-b"),
        "\r\n\r\nLS_cid=id1\r\nLS_adapter_set=DEMO-x\r\nLS_user=ACC\r\nLS_password=CST-a|XST-b\r\n"
    );
    assert_eq!(heartbeat_frame(), "\r\n\r\nLS_op=hb\r\n");
    assert_eq!(
        add_subscription_frame(SubscriptionType::Market, "MARKET-1", "IX.D.FTSE"),
        "\r\n\r\nLS_op=add\r\nLS_subId=MARKET-1\r\nLS_mode=MERGE\r\nLS_group=MARKET:IX.D.FTSE\r\nLS_schema=MARKET\r\n"
    );
    assert_eq!(
        add_subscription_frame(SubscriptionType::Account, "ACCOUNT-1", "ACCOUNT"),
        "\r\n\r\nLS_op=add\r\nLS_subId=ACCOUNT-1\r\nLS_mode=MERGE\r\nLS_group=ACCOUNT:ACCOUNT\r\nLS_schema=ACCOUNT\r\n"
    );
    assert_eq!(
        delete_subscription_frame("MARKET-1"),
        "\r\n\r\nLS_op=delete\r\nLS_subId=MARKET-1\r\n"
    );
}

#[test]
fn handshake_classification() {
    assert_eq!(classify_handshake("CONOK,sid,70000"), HandshakeClass::Conok);
    assert_eq!(classify_handshake("LOOP 0"), HandshakeClass::LoopDemand);
    assert_eq!(classify_handshake("CONERR,1,error"), HandshakeClass::Rejected);
    assert_eq!(classify_handshake("Cannot continue"), HandshakeClass::Rejected);
    assert_eq!(classify_handshake("something else"), HandshakeClass::Rejected);
    // Error markers dominate even beside CONOK.
    assert_eq!(classify_handshake("CONOK but ERROR"), HandshakeClass::Rejected);
}

#[test]
fn connect_is_idempotent_when_established() {
    let mut mgr = established_manager();
    let step = mgr.connect_begin(&session());
    assert!(matches!(step, ConnectStep::AlreadyEstablished));
    assert!(mgr.is_connected());
}

#[test]
fn connect_tries_all_candidates_once_then_fails() {
    let mut mgr = StreamingConnectionManager::new(candidates(), "CID".to_string(), 2);
    let mut attempted: Vec<String> = Vec::new();

    let mut step = mgr.connect_begin(&session());
    let reply = "CONERR,2,unrecognized".to_string();
    loop {
        match step {
            ConnectStep::Attempt { endpoint, frame } => {
                assert!(frame.starts_with("\r\n\r\nLS_cid=CID\r\n"));
                attempted.push(endpoint);
                step = mgr.on_handshake_reply(Some(&reply));
            },
            ConnectStep::Failed(e) => {
                assert_eq!(e, StreamError::AllEndpointsFailed);
                break;
            },
            other => panic!("unexpected step {:?}", other),
        }
    }
    // Each candidate was tried exactly once, in list order.
    assert_eq!(
        attempted,
        vec![
            "wss://one.example/lightstreamer".to_string(),
            "wss://two.example/lightstreamer".to_string(),
            "wss://three.example/lightstreamer".to_string(),
        ]
    );
    assert_eq!(mgr.connection_state(), ConnectionState::Disconnected);
}

#[test]
fn loop_demand_restarts_within_budget() {
    let mut mgr = StreamingConnectionManager::new(candidates(), "CID".to_string(), 1);
    let step = mgr.connect_begin(&session());
    assert!(matches!(step, ConnectStep::Attempt { .. }));

    // First LOOP: the budget allows one backoff-then-restart from
    // candidate zero.
    let reply = "LOOP 0".to_string();
    match mgr.on_handshake_reply(Some(&reply)) {
        ConnectStep::RetryAfterBackoff { endpoint, .. } => {
            assert_eq!(endpoint, "wss://one.example/lightstreamer")
        },
        other => panic!("unexpected step {:?}", other),
    }
    // Second LOOP: the budget is spent; the connect call fails.
    assert!(matches!(
        mgr.on_handshake_reply(Some(&reply)),
        ConnectStep::Failed(StreamError::ConnectFailed)
    ));
}

#[test]
fn no_reply_counts_as_rejection() {
    let mut mgr = StreamingConnectionManager::new(candidates(), "CID".to_string(), 2);
    let step = mgr.connect_begin(&session());
    assert!(matches!(step, ConnectStep::Attempt { .. }));
    match mgr.on_handshake_reply(None) {
        ConnectStep::Attempt { endpoint, .. } => {
            assert_eq!(endpoint, "wss://two.example/lightstreamer")
        },
        other => panic!("unexpected step {:?}", other),
    }
}

#[test]
fn subscribe_requires_established() {
    let mut mgr = StreamingConnectionManager::new(candidates(), "CID".to_string(), 2);
    assert!(matches!(
        mgr.subscribe_market("IX.D.FTSE".to_string()),
        Err(StreamError::NotConnected)
    ));
}

#[test]
fn subscribe_then_unsubscribe_emits_nothing_for_late_frames() {
    let mut mgr = established_manager();
    let id = mgr.subscribe_market("IX.D.FTSE".to_string()).unwrap();
    assert!(id.starts_with("MARKET-"));
    mgr.unsubscribe(id.as_str()).unwrap();

    // A data frame for the removed id arrives late: dropped, no update.
    let mut frame = id.clone();
    frame.push_str("|101.5|101.7|2024-01-01T00:00:00");
    assert_eq!(mgr.dispatch_frame(frame.as_str()), DispatchOutcome::DroppedUnknown);
    assert!(mgr.market_updates().is_empty());
    assert!(mgr.account_updates().is_empty());
    assert!(mgr.is_connected());

    // Unsubscribing an unknown id is NotFound and enqueues nothing.
    let queued_before: usize = {
        let mut n = 0;
        while mgr.next_outbound().is_some() {
            n += 1;
        }
        n
    };
    assert!(matches!(mgr.unsubscribe("MARKET-unknown"), Err(StreamError::NotFound)));
    assert!(mgr.next_outbound().is_none());
    let _ = queued_before;
}

#[test]
fn malformed_frame_does_not_close_the_reader() {
    let mut mgr = established_manager();
    let id = mgr.subscribe_market("IX.D.FTSE".to_string()).unwrap();

    // Malformed: wrong field count for a market subscription.
    let mut bad = id.clone();
    bad.push_str("|only-one-field");
    assert_eq!(mgr.dispatch_frame(bad.as_str()), DispatchOutcome::DroppedMalformed);
    assert!(mgr.is_connected());
    assert!(mgr.market_updates().is_empty());

    // A subsequent valid frame for the same subscription is delivered.
    let mut good = id.clone();
    good.push_str("|101.5|101.7|2024-01-01T00:00:00");
    assert_eq!(mgr.dispatch_frame(good.as_str()), DispatchOutcome::MarketDelivered);
    let updates = mgr.market_updates();
    assert_eq!(updates.len(), 1);
    assert_eq!(updates[0].epic, "IX.D.FTSE");
    assert_eq!(updates[0].bid, "101.5");
    assert_eq!(updates[0].offer, "101.7");
    assert_eq!(updates[0].timestamp, "2024-01-01T00:00:00");
}

#[test]
fn account_frames_reach_the_account_queue() {
    let mut mgr = established_manager();
    let id = mgr.subscribe_account().unwrap();
    assert!(id.starts_with("ACCOUNT-"));

    // The add-subscription control frame was enqueued for the transport.
    let sent = match mgr.next_outbound() {
        Some(OutboundFrame::Text(t)) => t,
        other => panic!("expected the add-subscription frame, got {:?}", other),
    };
    assert_eq!(sent, add_subscription_frame(SubscriptionType::Account, id.as_str(), "ACCOUNT"));
    assert!(sent.contains("LS_group=ACCOUNT:ACCOUNT"));
    assert!(sent.contains("LS_schema=ACCOUNT"));

    let mut frame = id.clone();
    frame.push_str("|ACC|POSITION|payload-text");
    assert_eq!(mgr.dispatch_frame(frame.as_str()), DispatchOutcome::AccountDelivered);
    let updates = mgr.account_updates();
    assert_eq!(updates.len(), 1);
    assert_eq!(updates[0].account_id, "ACC");
    assert_eq!(updates[0].update_type, "POSITION");
    assert_eq!(updates[0].payload, "payload-text");
    // Market updates were untouched.
    assert!(mgr.market_updates().is_empty());
}

#[test]
fn protocol_markers_are_tested_before_data() {
    let mut mgr = established_manager();
    assert_eq!(mgr.dispatch_frame("PROBE"), DispatchOutcome::Probe);
    assert!(mgr.is_connected());
    assert_eq!(mgr.dispatch_frame("SUBOK,1"), DispatchOutcome::Control);
    assert!(mgr.is_connected());
    assert_eq!(mgr.dispatch_frame("LOOP 0"), DispatchOutcome::LoopDemand);
    assert_eq!(mgr.connection_state(), ConnectionState::Reconnecting);

    let mut mgr = established_manager();
    assert_eq!(mgr.dispatch_frame("ERROR,something broke"), DispatchOutcome::ServerError);
    assert_eq!(mgr.connection_state(), ConnectionState::Disconnected);
}

#[test]
fn heartbeat_and_outbound_order() {
    let mut mgr = established_manager();
    mgr.on_heartbeat_tick().unwrap();
    let id = mgr.subscribe_market("EPIC".to_string()).unwrap();
    mgr.on_heartbeat_tick().unwrap();

    // Frames leave the queue in enqueue order.
    match mgr.next_outbound() {
        Some(OutboundFrame::Text(t)) => assert_eq!(t, "\r\n\r\nLS_op=hb\r\n"),
        other => panic!("unexpected frame {:?}", other),
    }
    match mgr.next_outbound() {
        Some(OutboundFrame::Text(t)) => {
            assert_eq!(t, add_subscription_frame(SubscriptionType::Market, id.as_str(), "EPIC"))
        },
        other => panic!("unexpected frame {:?}", other),
    }
    match mgr.next_outbound() {
        Some(OutboundFrame::Text(t)) => assert_eq!(t, "\r\n\r\nLS_op=hb\r\n"),
        other => panic!("unexpected frame {:?}", other),
    }
    assert!(mgr.next_outbound().is_none());

    // A heartbeat tick without a connection fails fast.
    mgr.mark_disconnected();
    assert!(matches!(mgr.on_heartbeat_tick(), Err(StreamError::NotConnected)));
}

#[test]
fn disconnect_is_safe_from_any_state() {
    let mut mgr = established_manager();
    mgr.disconnect();
    assert_eq!(mgr.connection_state(), ConnectionState::Closed);
    match mgr.next_outbound() {
        Some(OutboundFrame::Close) => {},
        other => panic!("expected a close frame, got {:?}", other),
    }

    // Never-connected managers close without enqueueing anything.
    let mut mgr = StreamingConnectionManager::new(candidates(), "CID".to_string(), 2);
    mgr.disconnect();
    assert_eq!(mgr.connection_state(), ConnectionState::Closed);
    assert!(mgr.next_outbound().is_none());
}

#[test]
fn empty_candidate_list_fails_immediately() {
    let mut mgr = StreamingConnectionManager::new(Vec::new(), "CID".to_string(), 2);
    assert!(matches!(
        mgr.connect_begin(&session()),
        ConnectStep::Failed(StreamError::AllEndpointsFailed)
    ));
}

#[test]
fn split_char_fields() {
    let toks = split_char("a|b|c", '|');
    assert_eq!(toks, vec!["a".to_string(), "b".to_string(), "c".to_string()]);
    assert_eq!(split_char("", '|'), vec!["".to_string()]);
    assert_eq!(split_char("|x|", '|'), vec!["".to_string(), "x".to_string(), "".to_string()]);
    assert_eq!(split_char("nosep", '|'), vec!["nosep".to_string()]);
}
