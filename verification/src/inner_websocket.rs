use vstd::prelude::*;
use vstd::string::*;

use crate::address::{address_text, format_address, format_ws_url, ws_url_text};
use crate::events::{ConnEvent, EventView};
use crate::base::{status_code, ConnectionBaseInterface, ConnectionStatus, Protocol};
use crate::builder::{ConnBuilderConfig, ConnNew};
use crate::error::{error_text, ConnectError, ErrorView};
use crate::HEARTBEAT_INTERVAL;

verus! {

/// How many failed attempts a reconnect makes before it gives up.
pub const RECONNECT_LIMIT: u32 = 100;

/// The longest pause, in milliseconds, between two checks whether a ping is due.
pub const HEARTBEAT_CHECK_PAUSE: u64 = 5000;

/// Silence, beyond the heartbeat interval, after which a connection counts as lost.
pub const TIMEOUT_GRACE: u64 = 1000;

/// The client builder of the websocket crate; the connect carries it as an opaque value.
#[verifier::external_type_specification]
#[verifier::external_body]
pub struct ExClientBuilder<'u>(websocket::ClientBuilder<'u>);

/// What parsing a websocket address reports: `None` when the address parses,
/// else the text of the parse error.
pub uninterp spec fn ws_address_parse_failure(address: Seq<char>) -> Option<Seq<char>>;

/// A client builder of the websocket crate together with the address it was parsed from.
pub struct WsTarget {
    builder: websocket::ClientBuilder<'static>,
    address: Ghost<Seq<char>>,
}

impl WsTarget {
    /// The address the builder was parsed from, and so the server it connects to.
    pub closed spec fn target(&self) -> Seq<char> {
        self.address@
    }

    /// The builder, to connect with.
    pub fn into_builder(self) -> websocket::ClientBuilder<'static> {
        self.builder
    }
}

/// Parses a websocket address with `websocket::ClientBuilder::new`, which parses the
/// address as a URL and keeps it as the builder's target. Claimed: the call succeeds or
/// fails, and with which error text, as a function of the address alone; a builder that
/// comes back targets the given address. Nothing else is stated of the builder.
#[verifier::external_body]
fn client_builder_for(address: &str) -> (r: Result<WsTarget, String>)
    ensures
        match r {
            Ok(t) => ws_address_parse_failure(address@) is None && t.target() == address@,
            Err(m) => ws_address_parse_failure(address@) == Some(m@),
        },
{
    match websocket::ClientBuilder::new(address) {
        Ok(builder) => Ok(WsTarget { builder, address: Ghost(address@) }),
        Err(e) => Err(e.to_string()),
    }
}

/// Reads the wall clock through `chrono::Utc::now`, in milliseconds since the epoch.
/// Nothing is stated of the value: it depends on the time of the call.
#[verifier::external_body]
fn now_millis() -> u64 {
    chrono::Utc::now().timestamp_millis() as u64
}

/// The plain state of a websocket connection.
pub struct WebsocketView {
    pub host: Seq<char>,
    pub port: u16,
    pub protocol: Protocol,
    /// Milliseconds between two heartbeat pings.
    pub heartbeat_interval: u64,
    pub status: ConnectionStatus,
    pub last_heartbeat: u64,
    pub writable: bool,
}

impl WebsocketView {
    pub open spec fn with_status(self, status: ConnectionStatus) -> WebsocketView {
        WebsocketView { status, ..self }
    }

    /// The `host:port` address of the connection.
    pub open spec fn address(self) -> Seq<char> {
        address_text(self.host, self.port)
    }
}

/// The heartbeat interval a configuration asks for: its heartbeat time, else the default.
pub open spec fn heartbeat_interval_of(heartbeat_time: Option<u64>) -> u64 {
    match heartbeat_time {
        Some(t) => t,
        None => HEARTBEAT_INTERVAL,
    }
}

/// A fresh websocket connection to `host:port`, not yet connected.
pub open spec fn initial_view(host: Seq<char>, port: u16, heartbeat_interval: u64) -> WebsocketView {
    WebsocketView {
        host,
        port,
        protocol: Protocol::WEBSOCKET,
        heartbeat_interval,
        status: ConnectionStatus::ConnectStateInit,
        last_heartbeat: 0,
        writable: false,
    }
}

/// Two states of a connection aimed at the same endpoint, with the same heartbeat.
pub open spec fn same_endpoint(a: WebsocketView, b: WebsocketView) -> bool {
    &&& a.host == b.host
    &&& a.port == b.port
    &&& a.protocol == b.protocol
    &&& a.heartbeat_interval == b.heartbeat_interval
}

/// The state after a connect begins.
pub open spec fn connecting(v: WebsocketView) -> WebsocketView {
    v.with_status(ConnectionStatus::ConnectStateConnecting)
}

/// The state after the server was heard from at `now`.
pub open spec fn heard(v: WebsocketView, now: u64) -> WebsocketView {
    WebsocketView { last_heartbeat: now, ..v }
}

/// The state after the connection was established at `now`.
pub open spec fn established(v: WebsocketView, now: u64) -> WebsocketView {
    WebsocketView {
        status: ConnectionStatus::ConnectStateConnected,
        writable: true,
        last_heartbeat: now,
        ..v
    }
}

/// The state after a reconnect succeeded.
pub open spec fn reconnected(v: WebsocketView) -> WebsocketView {
    WebsocketView { status: ConnectionStatus::ConnectStateConnected, writable: true, ..v }
}

/// The state after a fault.
pub open spec fn faulted(v: WebsocketView) -> WebsocketView {
    v.with_status(status_after_fault(v.status))
}

/// The state while a connection is being shut: by a disconnect, or after a fault.
pub open spec fn closing(v: WebsocketView) -> WebsocketView {
    v.with_status(ConnectionStatus::ConnectStateClosing)
}

/// The state once a connection is shut.
pub open spec fn closed(v: WebsocketView) -> WebsocketView {
    v.with_status(ConnectionStatus::ConnectStateClosed)
}

/// The milliseconds from `since` to `now` on a clock of 64 bits that wraps around.
pub open spec fn elapsed(since: u64, now: u64) -> int {
    if now >= since {
        now - since
    } else {
        now - since + 0x1_0000_0000_0000_0000
    }
}

/// A ping is due once a heartbeat interval has passed, and only while connected.
pub open spec fn ping_due_spec(status: ConnectionStatus, interval: u64, start: u64, now: u64) -> bool {
    elapsed(start, now) >= interval && status == ConnectionStatus::ConnectStateConnected
}

/// A connection is lost once nothing was heard for a heartbeat interval and the grace.
pub open spec fn timed_out_spec(interval: u64, last_heartbeat: u64, now: u64) -> bool {
    elapsed(last_heartbeat, now) >= interval + TIMEOUT_GRACE
}

/// The status after a fault: a connected connection starts to reconnect;
/// in any other status the fault is ignored.
pub open spec fn status_after_fault(s: ConnectionStatus) -> ConnectionStatus {
    if s == ConnectionStatus::ConnectStateConnected {
        ConnectionStatus::ConnectStateReconnect
    } else {
        s
    }
}

/// A frame received from the server.
#[derive(Debug, PartialEq, Eq)]
pub enum WsMessage {
    Text(String),
    Binary(Vec<u8>),
    Ping(Vec<u8>),
    Pong(Vec<u8>),
    /// A close frame, with the reason the server gave, if it gave one.
    Close(Option<String>),
}

/// The faults a running connection can meet.
#[derive(Debug, PartialEq, Eq)]
pub enum Fault {
    /// A heartbeat ping could not be sent.
    PingFailed,
    /// The answer to a ping could not be sent.
    PongFailed,
    /// A received message could not be handed on; with the channel's error text.
    ChannelFailed(String),
    /// Nothing was heard from the server for too long.
    TimedOut,
    /// The server closed the connection, with its reason if it gave one.
    PeerClosed(Option<String>),
    /// Reading from the connection failed.
    ReadFailed,
    /// Sending a message failed; with the error text.
    SendFailed(String),
}

/// The error that a fault is reported as.
pub open spec fn fault_error(f: Fault) -> ErrorView {
    match f {
        Fault::PingFailed => ErrorView::SendError("ping error"@),
        Fault::PongFailed => ErrorView::SendError("pong error"@),
        Fault::ChannelFailed(e) => ErrorView::Unknown("channel error: "@ + e@),
        Fault::TimedOut => ErrorView::ConnectionTimeout,
        Fault::PeerClosed(Some(r)) => ErrorView::ConnectionClosed(r@),
        Fault::PeerClosed(None) => ErrorView::ConnectionClosed("close"@),
        Fault::ReadFailed => ErrorView::ConnectionClosed("close"@),
        Fault::SendFailed(e) => ErrorView::SendError(e@),
    }
}

impl Fault {
    /// The error this fault is reported as.
    pub fn to_error(self) -> (e: ConnectError)
        ensures
            e@ == fault_error(self),
    {
        match self {
            Fault::PingFailed => ConnectError::SendError(String::from_str("ping error")),
            Fault::PongFailed => ConnectError::SendError(String::from_str("pong error")),
            Fault::ChannelFailed(e) => {
                let mut m = String::from_str("channel error: ");
                m.append(e.as_str());
                ConnectError::Unknown(m)
            },
            Fault::TimedOut => ConnectError::ConnectionTimeout,
            Fault::PeerClosed(Some(r)) => ConnectError::ConnectionClosed(r),
            Fault::PeerClosed(None) => ConnectError::ConnectionClosed(String::from_str("close")),
            Fault::ReadFailed => ConnectError::ConnectionClosed(String::from_str("close")),
            Fault::SendFailed(e) => ConnectError::SendError(e),
        }
    }
}

/// What to do with a received frame.
#[derive(Debug, PartialEq, Eq)]
pub enum RecvAction {
    /// Answer with a pong that carries this payload.
    Reply(Vec<u8>),
    /// Nothing to do.
    Ignore,
    /// Hand these bytes to the reader of the connection, and emit this event.
    Deliver(Vec<u8>, ConnEvent),
    /// Report this fault.
    Report(Fault),
}

/// The action that a received frame calls for.
pub open spec fn recv_action_spec(msg: WsMessage, action: RecvAction) -> bool {
    match msg {
        WsMessage::Ping(p) => action matches RecvAction::Reply(q) && q@ == p@,
        WsMessage::Pong(_) => action is Ignore,
        WsMessage::Text(t) => action matches RecvAction::Deliver(b, e)
            && b@ == vstd::utf8::encode_utf8(t@) && e@ == EventView::Message(t@),
        WsMessage::Binary(d) => action matches RecvAction::Deliver(b, e) && b@ == d@
            && e@ == EventView::BinaryMessage(d@),
        WsMessage::Close(reason) => action == RecvAction::Report(Fault::PeerClosed(reason)),
    }
}

/// The next step of a reconnect after a failed attempt.
#[derive(Debug, PartialEq, Eq)]
pub enum ReconnectStep {
    /// Try again; this many attempts have failed so far.
    Retry(u32),
    /// Give up with this error.
    GiveUp(ConnectError),
}

/// A websocket connection: the endpoint and the state that its decisions read.
pub struct InnerWebsocket {
    ip: String,
    port: u16,
    protocol: Protocol,
    heartbeat_interval: u64,
    state: ConnectionStatus,
    last_heartbeat: u64,
    writable: bool,
}

impl View for InnerWebsocket {
    type V = WebsocketView;

    closed spec fn view(&self) -> WebsocketView {
        WebsocketView {
            host: self.ip@,
            port: self.port,
            protocol: self.protocol,
            heartbeat_interval: self.heartbeat_interval,
            status: self.state,
            last_heartbeat: self.last_heartbeat,
            writable: self.writable,
        }
    }
}

impl ConnNew for InnerWebsocket {
    fn new(target: ConnBuilderConfig) -> (ws: Self)
        ensures
            ws@ == initial_view(
                target.host@,
                target.port,
                heartbeat_interval_of(target.heartbeat_time),
            ),
    {
        let heartbeat_interval = match target.heartbeat_time {
            Some(t) => t,
            None => HEARTBEAT_INTERVAL,
        };
        InnerWebsocket {
            ip: target.host,
            port: target.port,
            protocol: Protocol::WEBSOCKET,
            heartbeat_interval,
            state: ConnectionStatus::ConnectStateInit,
            last_heartbeat: 0,
            writable: false,
        }
    }
}

impl ConnectionBaseInterface for InnerWebsocket {
    fn get_address(&self) -> (r: String)
        ensures
            r@ == self@.address(),
    {
        format_address(self.ip.as_str(), self.port)
    }
}

impl InnerWebsocket {
    /// The host the connection talks to.
    pub fn host(&self) -> (h: &str)
        ensures
            h@ == self@.host,
    {
        self.ip.as_str()
    }

    /// The port the connection talks to.
    pub fn port(&self) -> (p: u16)
        ensures
            p == self@.port,
    {
        self.port
    }

    /// The protocol of the connection.
    pub fn protocol(&self) -> (p: Protocol)
        ensures
            p == self@.protocol,
    {
        self.protocol
    }

    /// Milliseconds between two heartbeat pings.
    pub fn heartbeat_interval(&self) -> (t: u64)
        ensures
            t == self@.heartbeat_interval,
    {
        self.heartbeat_interval
    }

    /// The numeric code of the current status.
    pub fn get_state(&self) -> (v: u8)
        ensures
            v == status_code(self@.status),
    {
        self.state.into()
    }

    /// Whether the connection has a writer, that is, whether it was ever connected.
    pub fn is_writable(&self) -> (w: bool)
        ensures
            w == self@.writable,
    {
        self.writable
    }

    /// The websocket URL of the endpoint.
    pub fn url(&self) -> (r: String)
        ensures
            r@ == ws_url_text(self@.host, self@.port),
    {
        format_ws_url(self.ip.as_str(), self.port)
    }

    /// A connect begins; the connecting event is to be emitted.
    pub fn begin_connect(&mut self) -> (e: ConnEvent)
        ensures
            final(self)@ == connecting(old(self)@),
            e@ == EventView::Connecting(old(self)@.address()),
    {
        self.state = ConnectionStatus::ConnectStateConnecting;
        ConnEvent::Connecting(self.get_address())
    }

    /// Prepares a connect to the endpoint's websocket URL: the builder it returns
    /// targets exactly that URL. When the URL does not parse, the connection is closed and the parse error is reported.
    pub fn connect_target(&mut self) -> (r: Result<WsTarget, ConnectError>)
        ensures
            ws_address_parse_failure(ws_url_text(old(self)@.host, old(self)@.port)) is None
                ==> (r matches Ok(t) && t.target() == ws_url_text(old(self)@.host, old(self)@.port)
                && final(self)@ == old(self)@),
            ws_address_parse_failure(ws_url_text(old(self)@.host, old(self)@.port)) matches Some(m)
                ==> r matches Err(e) && e@ == ErrorView::ConnectionError(m)
                && final(self)@ == closed(old(self)@),
    {
        let url = self.url();
        match client_builder_for(url.as_str()) {
            Ok(builder) => Ok(builder),
            Err(m) => Err(self.connect_failed(m)),
        }
    }

    /// The connect to the server failed with this error text: the connection is closed.
    pub fn connect_failed(&mut self, reason: String) -> (e: ConnectError)
        ensures
            e@ == ErrorView::ConnectionError(reason@),
            final(self)@ == closed(old(self)@),
    {
        self.state = ConnectionStatus::ConnectStateClosed;
        ConnectError::ConnectionError(reason)
    }

    /// Notes that the server was heard from at `now`.
    pub fn record_activity_at(&mut self, now: u64)
        ensures
            final(self)@ == heard(old(self)@, now),
    {
        self.last_heartbeat = now;
    }

    /// Notes that the server was heard from just now: reads the wall clock, records the
    /// time read as the last heartbeat, and returns it.
    pub fn record_activity(&mut self) -> (now: u64)
        ensures
            final(self)@ == heard(old(self)@, now),
    {
        let now = now_millis();
        self.record_activity_at(now);
        now
    }

    /// The connection to the server was established and split into a reader and a
    /// writer at `now`: the connection is connected and was heard from at `now`, the
    /// connect returns `Ok(true)`, and the connected event is to be emitted.
    pub fn connect_established(&mut self, now: u64) -> (r: (Result<bool, ConnectError>, ConnEvent))
        ensures
            r.0 == Ok::<bool, ConnectError>(true),
            r.1@ == EventView::Connected(old(self)@.address()),
            final(self)@ == established(old(self)@, now),
    {
        self.record_activity_at(now);
        self.writable = true;
        self.state = ConnectionStatus::ConnectStateConnected;
        (Ok(true), ConnEvent::Connected(self.get_address()))
    }

    /// Whether a heartbeat ping is due at `now` for a heartbeat period that began at `start`.
    pub fn ping_due_at(&self, start: u64, now: u64) -> (due: bool)
        ensures
            due == ping_due_spec(self@.status, self@.heartbeat_interval, start, now),
    {
        let since = now.wrapping_sub(start);
        since >= self.heartbeat_interval && self.state == ConnectionStatus::ConnectStateConnected
    }

    /// The pause between two checks whether a ping is due: the heartbeat interval, but
    /// at least one millisecond and at most `HEARTBEAT_CHECK_PAUSE`.
    pub fn heartbeat_pause(&self) -> (ms: u64)
        ensures
            ms == (if self@.heartbeat_interval == 0 {
                1
            } else if self@.heartbeat_interval > HEARTBEAT_CHECK_PAUSE {
                HEARTBEAT_CHECK_PAUSE
            } else {
                self@.heartbeat_interval
            }),
    {
        if self.heartbeat_interval == 0 {
            1
        } else if self.heartbeat_interval > HEARTBEAT_CHECK_PAUSE {
            HEARTBEAT_CHECK_PAUSE
        } else {
            self.heartbeat_interval
        }
    }

    /// Reads the wall clock and tells whether a heartbeat ping is due, with the time read.
    pub fn heartbeat_check(&self, start: u64) -> (r: (u64, bool))
        ensures
            r.1 == ping_due_spec(self@.status, self@.heartbeat_interval, start, r.0),
    {
        let now = now_millis();
        (now, self.ping_due_at(start, now))
    }

    /// Whether, at `now`, the server has been silent for too long.
    pub fn timed_out_at(&self, now: u64) -> (lost: bool)
        ensures
            lost == timed_out_spec(self@.heartbeat_interval, self@.last_heartbeat, now),
    {
        let since = now.wrapping_sub(self.last_heartbeat);
        since >= self.heartbeat_interval && since - self.heartbeat_interval >= TIMEOUT_GRACE
    }

    /// Reads the wall clock and tells whether the server has been silent for too long,
    /// with the time read.
    pub fn timeout_check(&self) -> (r: (u64, bool))
        ensures
            r.1 == timed_out_spec(self@.heartbeat_interval, self@.last_heartbeat, r.0),
    {
        let now = now_millis();
        (now, self.timed_out_at(now))
    }

    /// A fault happened; the error event is to be emitted with its message. A connected
    /// connection starts to reconnect, and the error is handed back to be reported if the
    /// reconnect fails; otherwise the fault changes nothing.
    pub fn error_help(&mut self, error: ConnectError) -> (r: (Option<ConnectError>, ConnEvent))
        ensures
            final(self)@ == faulted(old(self)@),
            r.1@ == EventView::Error(error_text(error@)),
            old(self)@.status == ConnectionStatus::ConnectStateConnected ==> r.0 == Some(error),
            old(self)@.status != ConnectionStatus::ConnectStateConnected ==> r.0 is None,
    {
        let event = ConnEvent::Error(error.message());
        if self.state == ConnectionStatus::ConnectStateConnected {
            self.state = ConnectionStatus::ConnectStateReconnect;
            (Some(error), event)
        } else {
            (None, event)
        }
    }

    /// The action a received frame calls for.
    pub fn classify_message(msg: WsMessage) -> (action: RecvAction)
        ensures
            recv_action_spec(msg, action),
    {
        match msg {
            WsMessage::Ping(payload) => RecvAction::Reply(payload),
            WsMessage::Pong(_) => RecvAction::Ignore,
            WsMessage::Text(text) => {
                let bytes = text.as_str().as_bytes_vec();
                RecvAction::Deliver(bytes, ConnEvent::Message(text))
            },
            WsMessage::Binary(data) => {
                let copy = data.clone();
                assert(copy@ =~= data@);
                RecvAction::Deliver(data, ConnEvent::BinaryMessage(copy))
            },
            WsMessage::Close(reason) => RecvAction::Report(Fault::PeerClosed(reason)),
        }
    }

    /// A frame was received at `now`: the server was heard from at `now`, and the
    /// frame's action is returned.
    pub fn on_message(&mut self, now: u64, msg: WsMessage) -> (action: RecvAction)
        ensures
            recv_action_spec(msg, action),
            final(self)@ == heard(old(self)@, now),
    {
        self.record_activity_at(now);
        Self::classify_message(msg)
    }

    /// An attempt of a reconnect failed after `failures` earlier failed attempts.
    /// After the last allowed attempt the connection is closing and the reconnect
    /// gives up; otherwise it tries again.
    pub fn reconnect_attempt_failed(&mut self, failures: u32) -> (step: ReconnectStep)
        requires
            failures < RECONNECT_LIMIT,
        ensures
            failures + 1 >= RECONNECT_LIMIT ==> (step matches ReconnectStep::GiveUp(e)
                && e@ == ErrorView::ReconnectFailed
                && final(self)@ == closing(old(self)@)),
            failures + 1 < RECONNECT_LIMIT ==> step == ReconnectStep::Retry(
                (failures + 1) as u32,
            ) && final(self)@ == old(self)@,
    {
        let count = failures + 1;
        if count >= RECONNECT_LIMIT {
            self.state = ConnectionStatus::ConnectStateClosing;
            ReconnectStep::GiveUp(ConnectError::ReconnectFailed)
        } else {
            ReconnectStep::Retry(count)
        }
    }

    /// A reconnect succeeded with a fresh reader and writer: the connection is connected,
    /// and the reconnect event is to be emitted.
    pub fn reconnect_succeeded(&mut self) -> (e: ConnEvent)
        ensures
            final(self)@ == reconnected(old(self)@),
            e@ == EventView::Reconnect(old(self)@.address()),
    {
        self.writable = true;
        self.state = ConnectionStatus::ConnectStateConnected;
        ConnEvent::Reconnect(self.get_address())
    }

    /// The connection is given up after `error`: it is closing, the error is handed back
    /// for the error callback, and the close event is to be emitted with its message.
    /// `finish_close` completes the close once the callback has run.
    pub fn close(&mut self, error: ConnectError) -> (r: (ConnectError, ConnEvent))
        ensures
            r.0 == error,
            r.1@ == EventView::Close(error_text(error@)),
            final(self)@ == closing(old(self)@),
    {
        self.state = ConnectionStatus::ConnectStateClosing;
        let event = ConnEvent::Close(error.message());
        (error, event)
    }

    /// The close of a given-up connection is complete: the connection is closed.
    pub fn finish_close(&mut self)
        ensures
            final(self)@ == closed(old(self)@),
    {
        self.state = ConnectionStatus::ConnectStateClosed;
    }

    /// A disconnect begins: the connection is closing.
    pub fn begin_disconnect(&mut self)
        requires
            old(self)@.writable,
        ensures
            final(self)@ == closing(old(self)@),
    {
        self.state = ConnectionStatus::ConnectStateClosing;
    }

    /// The close frame of a disconnect was sent (`Ok`) or not (`Err` with the error text).
    /// Once sent, the connection is closed and the disconnect event is to be emitted.
    pub fn finish_disconnect(&mut self, sent: Result<(), String>) -> (r: (
        Result<bool, ConnectError>,
        Option<ConnEvent>,
    ))
        ensures
            sent is Ok ==> (r.1 matches Some(e) && e@ == EventView::Disconnect(old(self)@.address())
                && r.0 == Ok::<bool, ConnectError>(true) && final(self)@ == closed(old(self)@)),
            sent matches Err(m) ==> (r.0 matches Err(e) && e@ == ErrorView::Disconnect(m@)
                && r.1 is None && final(self)@ == old(self)@),
    {
        match sent {
            Ok(()) => {
                self.state = ConnectionStatus::ConnectStateClosed;
                (Ok(true), Some(ConnEvent::Disconnect(self.get_address())))
            },
            Err(m) => (Err(ConnectError::Disconnect(m)), None),
        }
    }

    /// The outcome of a send: `None` when there is no writer, else whether the writer
    /// took the message. Returns what the send returns, the error to reconnect with when
    /// the failure started a reconnect, and the error event of a failed write.
    pub fn send_outcome(&mut self, sent: Option<Result<(), String>>) -> (r: (
        Result<bool, ConnectError>,
        Option<ConnectError>,
        Option<ConnEvent>,
    ))
        ensures
            sent matches Some(Ok(())) ==> r.0 == Ok::<bool, ConnectError>(true) && r.1 is None
                && r.2 is None && final(self)@ == old(self)@,
            sent is None ==> (r.0 matches Err(e) && e@ == ErrorView::SendError("send error"@)
                && r.1 is None && r.2 is None && final(self)@ == old(self)@),
            sent matches Some(Err(m)) ==> (r.0 matches Err(e) && e@ == ErrorView::SendError(
                "send error"@,
            ) && final(self)@ == faulted(old(self)@)
                && (r.2 matches Some(ev) && ev@ == EventView::Error(
                error_text(ErrorView::SendError(m@)),
            )) && (old(self)@.status == ConnectionStatus::ConnectStateConnected ==> (r.1 matches Some(
                ee) && ee@ == ErrorView::SendError(m@)))
                && (old(self)@.status != ConnectionStatus::ConnectStateConnected ==> r.1 is None)),
    {
        match sent {
            Some(Ok(())) => (Ok(true), None, None),
            Some(Err(m)) => {
                let (pending, event) = self.error_help(ConnectError::SendError(m));
                (Err(ConnectError::SendError(String::from_str("send error"))), pending, Some(event))
            },
            None => (Err(ConnectError::SendError(String::from_str("send error"))), None, None),
        }
    }

    /// What a receive returns for an item taken from the receive queue; a closed queue
    /// gives an empty message.
    pub fn receive_outcome(item: Option<Vec<u8>>) -> (r: Result<Vec<u8>, ()>)
        ensures
            item matches Some(d) ==> r matches Ok(v) && v@ == d@,
            item is None ==> (r matches Ok(v) && v@.len() == 0),
    {
        match item {
            Some(data) => Ok(data),
            None => Ok(Vec::new()),
        }
    }
}

} // verus!

verus! {

/// A fault interrupts only a connected connection; once it reconnects, further
/// faults leave it as it is.
pub proof fn lemma_fault_interrupts_only_connected(s: ConnectionStatus)
    ensures
        status_after_fault(s) != s <==> s == ConnectionStatus::ConnectStateConnected,
        status_after_fault(status_after_fault(s)) == status_after_fault(s),
        status_after_fault(s) != ConnectionStatus::ConnectStateConnected,
{
}

/// One step of a reconnect on the count of failed attempts: the new count, or
/// `None` once the reconnect gives up.
pub open spec fn reconnect_count_step(failures: nat) -> Option<nat> {
    if failures + 1 >= RECONNECT_LIMIT {
        None
    } else {
        Some(failures + 1)
    }
}

/// The count of failed attempts after `k + 1` consecutive failures of a reconnect
/// that starts from none, feeding each count to the next step; `None` once it gave up.
pub open spec fn failure_chain(k: nat) -> Option<nat>
    decreases k,
{
    if k == 0 {
        reconnect_count_step(0)
    } else {
        match failure_chain((k - 1) as nat) {
            Some(c) => reconnect_count_step(c),
            None => None,
        }
    }
}

/// A reconnect that starts from no failures keeps trying through its first
/// `RECONNECT_LIMIT - 1` failures and gives up at failure number `RECONNECT_LIMIT`.
pub proof fn lemma_reconnect_gives_up_at_limit(k: nat)
    ensures
        k + 1 < RECONNECT_LIMIT ==> failure_chain(k) == Some(k + 1),
        k + 1 == RECONNECT_LIMIT ==> failure_chain(k) is None,
    decreases k,
{
    if k > 0 {
        lemma_reconnect_gives_up_at_limit((k - 1) as nat);
    }
}

/// A fresh connection that begins a connect, is established at `now`, and then
/// disconnects with its close frame sent (the states that `begin_connect`,
/// `connect_established`, `begin_disconnect` and `finish_disconnect` ensure) ends
/// closed, still aimed at the same endpoint, and heard from at `now`.
pub proof fn lemma_connect_then_disconnect(host: Seq<char>, port: u16, interval: u64, now: u64)
    ensures
        ({
            let fresh = initial_view(host, port, interval);
            let up = established(connecting(fresh), now);
            let down = closed(closing(up));
            &&& up.status == ConnectionStatus::ConnectStateConnected
            &&& up.writable
            &&& down.status == ConnectionStatus::ConnectStateClosed
            &&& down.last_heartbeat == now
            &&& same_endpoint(fresh, down)
            &&& down.address() == address_text(host, port)
        }),
{
}

/// Every step of the state machine keeps the endpoint and heartbeat of a connection.
pub proof fn lemma_steps_keep_endpoint(v: WebsocketView, now: u64)
    ensures
        same_endpoint(v, connecting(v)),
        same_endpoint(v, heard(v, now)),
        same_endpoint(v, established(v, now)),
        same_endpoint(v, reconnected(v)),
        same_endpoint(v, faulted(v)),
        same_endpoint(v, closing(v)),
        same_endpoint(v, closed(v)),
{
}

/// Along any run of states each of which keeps the endpoint of the one before (as every
/// step of the state machine does), the address never changes.
pub proof fn lemma_address_fixed(run: Seq<WebsocketView>)
    requires
        run.len() > 0,
        forall|i: int| 0 <= i < run.len() - 1 ==> same_endpoint(#[trigger] run[i], run[i + 1]),
    ensures
        forall|i: int| 0 <= i < run.len() ==> (#[trigger] run[i]).address() == run[0].address()
            && same_endpoint(run[0], run[i]),
    decreases run.len(),
{
    if run.len() > 1 {
        let prefix = run.drop_last();
        assert forall|i: int| 0 <= i < prefix.len() - 1 implies same_endpoint(
            #[trigger] prefix[i],
            prefix[i + 1],
        ) by {
            assert(prefix[i] == run[i]);
            assert(same_endpoint(run[i], run[i + 1]));
        }
        lemma_address_fixed(prefix);
        let last = run.len() - 1;
        assert(prefix[last - 1] == run[last - 1]);
        assert(same_endpoint(run[last - 1], run[last]));
        assert forall|i: int| 0 <= i < run.len() implies (#[trigger] run[i]).address()
            == run[0].address() && same_endpoint(run[0], run[i]) by {
            if i < last {
                assert(prefix[i] == run[i]);
            }
        }
    }
}

/// A ping is never due on a connection that is not connected, and a connection is
/// only taken as lost after more than one heartbeat interval of silence.
pub proof fn lemma_heartbeat_thresholds(
    status: ConnectionStatus,
    interval: u64,
    since: u64,
    now: u64,
)
    ensures
        ping_due_spec(status, interval, since, now) ==> status
            == ConnectionStatus::ConnectStateConnected,
        timed_out_spec(interval, since, now) ==> elapsed(since, now) > interval,
        now >= since ==> elapsed(since, now) == now - since,
{
}

} // verus!

verus! {

/// Every ping frame, whatever its payload (the empty one included), is answered with a
/// pong that carries exactly that payload; a ping is never ignored, delivered or reported.
pub proof fn lemma_every_ping_is_answered(payload: Vec<u8>, action: RecvAction)
    requires
        recv_action_spec(WsMessage::Ping(payload), action),
    ensures
        action is Reply,
        action->Reply_0@ == payload@,
        action->Reply_0@.len() == payload@.len(),
{
}

/// Every close frame, with or without a reason, is reported as the server closing the
/// connection; the error it is reported as carries the server's reason, or "close".
pub proof fn lemma_every_close_is_reported(reason: Option<String>, action: RecvAction)
    requires
        recv_action_spec(WsMessage::Close(reason), action),
    ensures
        action is Report,
        action->Report_0 == Fault::PeerClosed(reason),
        reason matches Some(r) ==> fault_error(action->Report_0) == ErrorView::ConnectionClosed(r@),
        reason is None ==> fault_error(action->Report_0) == ErrorView::ConnectionClosed(seq![
            'c',
            'l',
            'o',
            's',
            'e',
        ]),
{
    reveal_strlit("close");
    assert("close"@ =~= seq!['c', 'l', 'o', 's', 'e']);
}

/// A pong frame calls for nothing; a text frame is handed on as its UTF-8 bytes and
/// announced as a text message; a binary frame is handed on and announced unchanged.
pub proof fn lemma_data_frames_are_delivered(
    pong: Vec<u8>,
    text: String,
    data: Vec<u8>,
    a: RecvAction,
    b: RecvAction,
    c: RecvAction,
)
    requires
        recv_action_spec(WsMessage::Pong(pong), a),
        recv_action_spec(WsMessage::Text(text), b),
        recv_action_spec(WsMessage::Binary(data), c),
    ensures
        a is Ignore,
        b is Deliver && b->Deliver_0@ == vstd::utf8::encode_utf8(text@)
            && b->Deliver_1@ == EventView::Message(text@),
        c is Deliver && c->Deliver_0@ == data@ && c->Deliver_1@ == EventView::BinaryMessage(data@),
{
}

/// Without a wrap of the clock, a ping is due exactly when the connection is connected
/// and at least one heartbeat interval has passed since `start`; once due, it stays due
/// at every later time of the same connected connection.
pub proof fn lemma_ping_due_by_elapsed_time(
    status: ConnectionStatus,
    interval: u64,
    start: u64,
    now: u64,
    later: u64,
)
    requires
        start <= now <= later,
    ensures
        ping_due_spec(status, interval, start, now) <==> (now - start >= interval
            && status == ConnectionStatus::ConnectStateConnected),
        ping_due_spec(status, interval, start, now) ==> ping_due_spec(status, interval, start, later),
        now - start < interval ==> !ping_due_spec(status, interval, start, now),
{
}

/// Without a wrap of the clock, a connection is lost exactly when nothing was heard for a
/// heartbeat interval plus 1000 ms; once lost, it stays lost at every later time.
pub proof fn lemma_lost_by_silence(interval: u64, last: u64, now: u64, later: u64)
    requires
        last <= now <= later,
    ensures
        timed_out_spec(interval, last, now) <==> now - last >= interval + 1000,
        timed_out_spec(interval, last, now) ==> timed_out_spec(interval, last, later),
        now - last < interval + 1000 ==> !timed_out_spec(interval, last, now),
{
}

} // verus!
