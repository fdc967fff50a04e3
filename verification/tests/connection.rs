use rs_connections::address::{format_address, format_ws_url};
use rs_connections::{
    ConnBuilder, ConnBuilderConfig, ConnEvent, ConnNew, ConnectError, ConnectionBaseInterface,
    ConnectionStatus, Fault, InnerWebsocket, Protocol, ReconnectStep, RecvAction, WsMessage,
    CLOSE_EVENT, CONNECTED_EVENT, CONNECTING_EVENT, DISCONNECT_EVENT, ERROR_EVENT,
    HEARTBEAT_INTERVAL, MESSAGE_EVENT, RECONNECT_EVENT,
};

fn config(host: &str, port: u16, protocol: Protocol) -> ConnBuilderConfig {
    ConnBuilderConfig {
        host: host.to_string(),
        port,
        heartbeat_time: Some(HEARTBEAT_INTERVAL),
        protocol,
    }
}

fn connected() -> InnerWebsocket {
    let mut ws = InnerWebsocket::new(config("127.0.0.1", 9673, Protocol::WEBSOCKET));
    assert_eq!(ws.begin_connect(), ConnEvent::Connecting("127.0.0.1:9673".to_string()));
    assert_eq!(
        ws.connect_established(500),
        (Ok(true), ConnEvent::Connected("127.0.0.1:9673".to_string()))
    );
    ws
}

#[test]
fn status_codes_round_trip() {
    let all = [
        ConnectionStatus::ConnectStateInit,
        ConnectionStatus::ConnectStateConnecting,
        ConnectionStatus::ConnectStateConnected,
        ConnectionStatus::ConnectStateClosed,
        ConnectionStatus::ConnectStateClosing,
        ConnectionStatus::ConnectStateReconnect,
    ];
    for (code, status) in all.iter().enumerate() {
        let v: u8 = (*status).into();
        assert_eq!(v as usize, code);
        assert_eq!(ConnectionStatus::from(v), *status);
    }
    assert_eq!(ConnectionStatus::from(6u8), ConnectionStatus::ConnectStateInit);
    assert_eq!(ConnectionStatus::from(255u8), ConnectionStatus::ConnectStateInit);
}

#[test]
fn defaults() {
    assert_eq!(Protocol::default(), Protocol::WEBSOCKET);
    let c = ConnBuilderConfig::default();
    assert_eq!(c.host, "127.0.0.1");
    assert_eq!(c.port, 9673);
    assert_eq!(c.protocol, Protocol::WEBSOCKET);
    assert_eq!(c.heartbeat_time, Some(10000));
    assert_eq!(HEARTBEAT_INTERVAL, 10000);
}

#[test]
fn event_names() {
    assert_eq!(CONNECTING_EVENT, "connecting");
    assert_eq!(CONNECTED_EVENT, "connected");
    assert_eq!(CLOSE_EVENT, "close");
    assert_eq!(DISCONNECT_EVENT, "disconnect");
    assert_eq!(ERROR_EVENT, "error");
    assert_eq!(MESSAGE_EVENT, "message");
    assert_eq!(RECONNECT_EVENT, "reconnect");
}

#[test]
fn builder_sorts_by_protocol() {
    match ConnBuilder::new(config("a", 1, Protocol::TCP)) {
        ConnBuilder::TCP(c) => assert_eq!((c.host.as_str(), c.port), ("a", 1)),
        _ => panic!("expected TCP"),
    }
    match ConnBuilder::new(config("b", 2, Protocol::UDP)) {
        ConnBuilder::UDP(c) => assert_eq!((c.host.as_str(), c.port), ("b", 2)),
        _ => panic!("expected UDP"),
    }
    match ConnBuilder::new(config("c", 3, Protocol::WEBSOCKET)) {
        ConnBuilder::WEBSOCKET(c) => assert_eq!((c.host.as_str(), c.port), ("c", 3)),
        _ => panic!("expected WEBSOCKET"),
    }
}

#[test]
fn built_connection_starts_in_init() {
    let conn = ConnBuilder::new(config("127.0.0.1", 9673, Protocol::WEBSOCKET)).build();
    assert_eq!(conn.get_address(), "127.0.0.1:9673");
    let ws = conn.into_inner();
    assert_eq!(ws.get_state(), 0);
    assert!(!ws.is_writable());
    assert_eq!(ws.protocol(), Protocol::WEBSOCKET);
    assert_eq!(ws.host(), "127.0.0.1");
    assert_eq!(ws.port(), 9673);
    assert_eq!(ws.heartbeat_interval(), 10000);
}

#[test]
fn addresses_and_urls() {
    assert_eq!(format_address("example.com", 0), "example.com:0");
    assert_eq!(format_address("h", 7), "h:7");
    assert_eq!(format_address("h", 10), "h:10");
    assert_eq!(format_address("h", 65535), "h:65535");
    assert_eq!(format_ws_url("127.0.0.1", 9673), "ws://127.0.0.1:9673");
    let ws = InnerWebsocket::new(config("localhost", 80, Protocol::WEBSOCKET));
    assert_eq!(ws.url(), "ws://localhost:80");
    assert_eq!(ws.get_address(), "localhost:80");
}

#[test]
fn error_messages() {
    let s = |t: &str| t.to_string();
    assert_eq!(ConnectError::Disconnect(s("x")).message(), "Not connected");
    assert_eq!(ConnectError::Connection(s("x")).message(), "Connection error");
    assert_eq!(ConnectError::SendError(s("x")).message(), "Send error x");
    assert_eq!(ConnectError::RecvError(s("y")).message(), "Recv error y");
    assert_eq!(ConnectError::ConnectionError(s("z")).message(), "Connection error: z");
    assert_eq!(ConnectError::ConnectionClosed(s("bye")).message(), "Connection closed: bye");
    assert_eq!(ConnectError::ConnectionTimeout.message(), "Connection timeout");
    assert_eq!(ConnectError::ConnectionRefused.message(), "Connection refused");
    assert_eq!(ConnectError::ConnectionReset.message(), "Connection reset");
    assert_eq!(ConnectError::Reconnecting.message(), "Reconnecting");
    assert_eq!(ConnectError::ReconnectFailed.message(), "Reconnect failed");
    assert_eq!(ConnectError::Unknown(s("q")).message(), "unknown data store error: q");
}

#[test]
fn faults_become_errors() {
    let s = |t: &str| t.to_string();
    assert_eq!(Fault::PingFailed.to_error(), ConnectError::SendError(s("ping error")));
    assert_eq!(Fault::PongFailed.to_error(), ConnectError::SendError(s("pong error")));
    assert_eq!(
        Fault::ChannelFailed(s("closed")).to_error(),
        ConnectError::Unknown(s("channel error: closed"))
    );
    assert_eq!(Fault::TimedOut.to_error(), ConnectError::ConnectionTimeout);
    assert_eq!(
        Fault::PeerClosed(Some(s("going away"))).to_error(),
        ConnectError::ConnectionClosed(s("going away"))
    );
    assert_eq!(Fault::PeerClosed(None).to_error(), ConnectError::ConnectionClosed(s("close")));
    assert_eq!(Fault::ReadFailed.to_error(), ConnectError::ConnectionClosed(s("close")));
    assert_eq!(Fault::SendFailed(s("broken")).to_error(), ConnectError::SendError(s("broken")));
}

#[test]
fn connect_target_parses_the_url() {
    let mut ws = InnerWebsocket::new(config("127.0.0.1", 9673, Protocol::WEBSOCKET));
    ws.begin_connect();
    assert_eq!(ws.get_state(), 1);
    assert!(ws.connect_target().is_ok());
    assert_eq!(ws.get_state(), 1);
}

#[test]
fn connect_target_rejects_a_bad_url() {
    let mut ws = InnerWebsocket::new(config("", 9673, Protocol::WEBSOCKET));
    ws.begin_connect();
    match ws.connect_target() {
        Err(ConnectError::ConnectionError(m)) => assert_eq!(m, "empty host"),
        _ => panic!("expected a parse error"),
    }
    assert_eq!(ws.get_state(), 3);
}

#[test]
fn connect_failure_closes() {
    let mut ws = InnerWebsocket::new(config("127.0.0.1", 9673, Protocol::WEBSOCKET));
    ws.begin_connect();
    let e = ws.connect_failed("refused".to_string());
    assert_eq!(e, ConnectError::ConnectionError("refused".to_string()));
    assert_eq!(ws.get_state(), 3);
}

#[test]
fn connect_established_connects_and_reads_the_clock() {
    let ws = connected();
    assert_eq!(ws.get_state(), 2);
    assert!(ws.is_writable());
    assert!(!ws.timed_out_at(500 + 10999));
    assert!(ws.timed_out_at(500 + 11000));
    let (now, lost) = ws.timeout_check();
    assert!(now > 1_600_000_000_000);
    assert!(lost);
}

#[test]
fn faults_only_interrupt_a_connected_connection() {
    let mut ws = connected();
    let timeout_event = ConnEvent::Error("Connection timeout".to_string());
    assert_eq!(
        ws.error_help(ConnectError::ConnectionTimeout),
        (Some(ConnectError::ConnectionTimeout), timeout_event)
    );
    assert_eq!(ws.get_state(), 5);
    assert_eq!(
        ws.error_help(ConnectError::ConnectionTimeout),
        (None, ConnEvent::Error("Connection timeout".to_string()))
    );
    assert_eq!(ws.get_state(), 5);

    let mut fresh = InnerWebsocket::new(config("h", 1, Protocol::WEBSOCKET));
    assert_eq!(
        fresh.error_help(ConnectError::ReconnectFailed),
        (None, ConnEvent::Error("Reconnect failed".to_string()))
    );
    assert_eq!(fresh.get_state(), 0);
}

#[test]
fn reconnect_gives_up_after_one_hundred_failures() {
    let mut ws = connected();
    ws.error_help(ConnectError::ConnectionTimeout);
    let mut failures = 0u32;
    let mut steps = 0;
    loop {
        steps += 1;
        match ws.reconnect_attempt_failed(failures) {
            ReconnectStep::Retry(n) => {
                assert_eq!(n, failures + 1);
                failures = n;
            }
            ReconnectStep::GiveUp(e) => {
                assert_eq!(e, ConnectError::ReconnectFailed);
                break;
            }
        }
    }
    assert_eq!(steps, 100);
    assert_eq!(ws.get_state(), 4);
    let (e, event) = ws.close(ConnectError::ConnectionTimeout);
    assert_eq!(e, ConnectError::ConnectionTimeout);
    assert_eq!(event, ConnEvent::Close("Connection timeout".to_string()));
    assert_eq!(event.name(), "close");
    assert_eq!(ws.get_state(), 4);
    ws.finish_close();
    assert_eq!(ws.get_state(), 3);
}

#[test]
fn reconnect_success_connects_again() {
    let mut ws = connected();
    ws.error_help(ConnectError::ConnectionTimeout);
    assert_eq!(ws.reconnect_attempt_failed(0), ReconnectStep::Retry(1));
    assert_eq!(ws.get_state(), 5);
    assert_eq!(ws.reconnect_succeeded(), ConnEvent::Reconnect("127.0.0.1:9673".to_string()));
    assert_eq!(ws.get_state(), 2);
}

#[test]
fn heartbeat_pings_only_when_connected() {
    let ws = connected();
    assert!(!ws.ping_due_at(1000, 10999));
    assert!(ws.ping_due_at(1000, 11000));
    // a clock that went back wraps around and counts as a long wait
    assert!(ws.ping_due_at(5000, 4000));
    let fresh = InnerWebsocket::new(config("h", 1, Protocol::WEBSOCKET));
    assert!(!fresh.ping_due_at(0, 50000));
    let (_, due) = ws.heartbeat_check(u64::MAX);
    assert!(due);
}

#[test]
fn silence_times_out_after_eleven_seconds() {
    let mut ws = connected();
    ws.record_activity_at(1000);
    assert!(!ws.timed_out_at(11999));
    assert!(ws.timed_out_at(12000));
}

#[test]
fn received_frames() {
    assert_eq!(
        InnerWebsocket::classify_message(WsMessage::Ping(vec![1, 2, 3])),
        RecvAction::Reply(vec![1, 2, 3])
    );
    assert_eq!(InnerWebsocket::classify_message(WsMessage::Pong(vec![9])), RecvAction::Ignore);
    assert_eq!(
        InnerWebsocket::classify_message(WsMessage::Text("hé".to_string())),
        RecvAction::Deliver(vec![b'h', 0xc3, 0xa9], ConnEvent::Message("hé".to_string()))
    );
    assert_eq!(
        InnerWebsocket::classify_message(WsMessage::Binary(vec![0, 255])),
        RecvAction::Deliver(vec![0, 255], ConnEvent::BinaryMessage(vec![0, 255]))
    );
    match InnerWebsocket::classify_message(WsMessage::Close(None)) {
        RecvAction::Report(f) => {
            assert_eq!(f.to_error(), ConnectError::ConnectionClosed("close".to_string()))
        }
        _ => panic!("expected a report"),
    }
    let mut ws = connected();
    assert_eq!(ws.on_message(90_000, WsMessage::Pong(vec![])), RecvAction::Ignore);
    assert_eq!(ws.get_state(), 2);
    assert!(!ws.timed_out_at(90_000 + 10999));
    assert!(ws.timed_out_at(90_000 + 11000));
}

#[test]
fn send_outcomes() {
    let mut ws = connected();
    assert_eq!(ws.send_outcome(Some(Ok(()))), (Ok(true), None, None));
    assert_eq!(
        ws.send_outcome(Some(Err("pipe".to_string()))),
        (
            Err(ConnectError::SendError("send error".to_string())),
            Some(ConnectError::SendError("pipe".to_string())),
            Some(ConnEvent::Error("Send error pipe".to_string()))
        )
    );
    assert_eq!(ws.get_state(), 5);
    let mut fresh = InnerWebsocket::new(config("h", 1, Protocol::WEBSOCKET));
    assert_eq!(
        fresh.send_outcome(None),
        (Err(ConnectError::SendError("send error".to_string())), None, None)
    );
}

#[test]
fn disconnect_outcomes() {
    let mut ws = connected();
    ws.begin_disconnect();
    assert_eq!(ws.get_state(), 4);
    assert_eq!(
        ws.finish_disconnect(Err("broken".to_string())),
        (Err(ConnectError::Disconnect("broken".to_string())), None)
    );
    assert_eq!(ws.get_state(), 4);
    let (result, event) = ws.finish_disconnect(Ok(()));
    assert_eq!(result, Ok(true));
    assert_eq!(event, Some(ConnEvent::Disconnect("127.0.0.1:9673".to_string())));
    assert_eq!(ws.get_state(), 3);
}

#[test]
fn receive_outcomes() {
    assert_eq!(InnerWebsocket::receive_outcome(Some(vec![4, 5])), Ok(vec![4, 5]));
    assert_eq!(InnerWebsocket::receive_outcome(None), Ok(vec![]));
}

#[test]
fn record_activity_records_the_time_it_returns() {
    let mut ws = connected();
    let now = ws.record_activity();
    assert!(now > 1_600_000_000_000);
    assert!(!ws.timed_out_at(now));
    assert!(!ws.timed_out_at(now + 10999));
    assert!(ws.timed_out_at(now + 11000));
    assert_eq!(ws.get_state(), 2);
}

#[test]
fn configured_heartbeat_time_paces_pings_and_silence() {
    let mut ws = InnerWebsocket::new(config("h", 1, Protocol::WEBSOCKET));
    let mut quick = InnerWebsocket::new(ConnBuilderConfig {
        host: "h".to_string(),
        port: 1,
        protocol: Protocol::WEBSOCKET,
        heartbeat_time: Some(1000),
    });
    assert_eq!(quick.heartbeat_interval(), 1000);
    assert_eq!(quick.heartbeat_pause(), 1000);
    quick.begin_connect();
    quick.connect_established(0);
    assert!(!quick.ping_due_at(0, 999));
    assert!(quick.ping_due_at(0, 1000));
    assert!(quick.ping_due_at(0, 3000));
    assert!(!quick.timed_out_at(1999));
    assert!(quick.timed_out_at(2000));

    let mut default = InnerWebsocket::new(ConnBuilderConfig {
        host: "h".to_string(),
        port: 1,
        protocol: Protocol::WEBSOCKET,
        heartbeat_time: None,
    });
    assert_eq!(default.heartbeat_interval(), HEARTBEAT_INTERVAL);
    assert_eq!(default.heartbeat_pause(), 5000);
    default.begin_connect();
    default.connect_established(0);
    assert!(!default.ping_due_at(0, 3000));
    assert!(default.ping_due_at(0, 10000));

    ws.begin_connect();
    ws.connect_established(0);
    assert!(!ws.ping_due_at(0, 9999));
}

#[test]
fn event_names_match_their_events() {
    let s = |t: &str| t.to_string();
    assert_eq!(ConnEvent::Connecting(s("a")).name(), CONNECTING_EVENT);
    assert_eq!(ConnEvent::Connected(s("a")).name(), CONNECTED_EVENT);
    assert_eq!(ConnEvent::Disconnect(s("a")).name(), DISCONNECT_EVENT);
    assert_eq!(ConnEvent::Reconnect(s("a")).name(), RECONNECT_EVENT);
    assert_eq!(ConnEvent::Close(s("a")).name(), CLOSE_EVENT);
    assert_eq!(ConnEvent::Error(s("a")).name(), ERROR_EVENT);
    assert_eq!(ConnEvent::Message(s("a")).name(), MESSAGE_EVENT);
    assert_eq!(ConnEvent::BinaryMessage(vec![1]).name(), MESSAGE_EVENT);
}

#[test]
fn connect_target_aims_at_the_endpoint() {
    let mut ws = InnerWebsocket::new(config("127.0.0.1", 9673, Protocol::WEBSOCKET));
    let builder = ws.connect_target().ok().unwrap().into_builder();
    let debug = format!("{:?}", builder);
    assert!(debug.contains("127.0.0.1"));
    assert!(debug.contains("9673"));
}
