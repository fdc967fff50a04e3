use vstd::prelude::*;

verus! {

/// The transport a connection uses.
#[derive(Debug, Clone, Copy, PartialEq, Eq, Structural)]
pub enum Protocol {
    TCP,
    UDP,
    WEBSOCKET,
}

impl Default for Protocol {
    fn default() -> (p: Self)
        ensures
            p == Protocol::WEBSOCKET,
    {
        Protocol::WEBSOCKET
    }
}

/// The life-cycle states of a connection.
#[derive(Debug, Clone, Copy, PartialEq, Eq, Structural)]
pub enum ConnectionStatus {
    ConnectStateInit,
    ConnectStateConnecting,
    ConnectStateConnected,
    ConnectStateClosed,
    ConnectStateClosing,
    ConnectStateReconnect,
}

/// The numeric code of a status, as stored and compared by a connection.
pub open spec fn status_code(s: ConnectionStatus) -> u8 {
    match s {
        ConnectionStatus::ConnectStateInit => 0,
        ConnectionStatus::ConnectStateConnecting => 1,
        ConnectionStatus::ConnectStateConnected => 2,
        ConnectionStatus::ConnectStateClosed => 3,
        ConnectionStatus::ConnectStateClosing => 4,
        ConnectionStatus::ConnectStateReconnect => 5,
    }
}

/// The status that a numeric code stands for; unknown codes read as `ConnectStateInit`.
pub open spec fn status_of_code(v: u8) -> ConnectionStatus {
    if v == 1 {
        ConnectionStatus::ConnectStateConnecting
    } else if v == 2 {
        ConnectionStatus::ConnectStateConnected
    } else if v == 3 {
        ConnectionStatus::ConnectStateClosed
    } else if v == 4 {
        ConnectionStatus::ConnectStateClosing
    } else if v == 5 {
        ConnectionStatus::ConnectStateReconnect
    } else {
        ConnectionStatus::ConnectStateInit
    }
}

impl From<u8> for ConnectionStatus {
    fn from(value: u8) -> (s: Self) {
        match value {
            0 => ConnectionStatus::ConnectStateInit,
            1 => ConnectionStatus::ConnectStateConnecting,
            2 => ConnectionStatus::ConnectStateConnected,
            3 => ConnectionStatus::ConnectStateClosed,
            4 => ConnectionStatus::ConnectStateClosing,
            5 => ConnectionStatus::ConnectStateReconnect,
            _ => ConnectionStatus::ConnectStateInit,
        }
    }
}

impl vstd::std_specs::convert::FromSpecImpl<u8> for ConnectionStatus {
    open spec fn obeys_from_spec() -> bool {
        true
    }

    open spec fn from_spec(v: u8) -> ConnectionStatus {
        status_of_code(v)
    }
}

impl From<ConnectionStatus> for u8 {
    fn from(value: ConnectionStatus) -> (v: u8) {
        match value {
            ConnectionStatus::ConnectStateInit => 0,
            ConnectionStatus::ConnectStateConnecting => 1,
            ConnectionStatus::ConnectStateConnected => 2,
            ConnectionStatus::ConnectStateClosed => 3,
            ConnectionStatus::ConnectStateClosing => 4,
            ConnectionStatus::ConnectStateReconnect => 5,
        }
    }
}

impl vstd::std_specs::convert::FromSpecImpl<ConnectionStatus> for u8 {
    open spec fn obeys_from_spec() -> bool {
        true
    }

    open spec fn from_spec(v: ConnectionStatus) -> u8 {
        status_code(v)
    }
}

/// Every status survives the trip through its numeric code, and every code below 6
/// survives the trip through its status; codes from 6 up read as `ConnectStateInit`.
pub proof fn lemma_status_code_roundtrip(s: ConnectionStatus, v: u8)
    ensures
        status_of_code(status_code(s)) == s,
        status_code(s) < 6,
        v < 6 ==> status_code(status_of_code(v)) == v,
        v >= 6 ==> status_of_code(v) == ConnectionStatus::ConnectStateInit,
{
}

} // verus!

verus! {

pub const CONNECTING_EVENT: &'static str = "connecting";

pub const CONNECTED_EVENT: &'static str = "connected";

pub const CLOSE_EVENT: &'static str = "close";

pub const DISCONNECT_EVENT: &'static str = "disconnect";

pub const ERROR_EVENT: &'static str = "error";

pub const MESSAGE_EVENT: &'static str = "message";

pub const RECONNECT_EVENT: &'static str = "reconnect";

/// What every connection can tell about itself.
pub trait ConnectionBaseInterface {
    /// The `host:port` address the connection talks to.
    fn get_address(&self) -> String;
}

} // verus!
