//! Client connections to a server: connection configuration, the builder,
//! and the verified state machine that drives a websocket connection.

pub mod address;
pub mod base;
pub mod builder;
pub mod conn;
pub mod error;
pub mod events;
pub mod inner_websocket;

pub use base::{
    ConnectionBaseInterface, ConnectionStatus, Protocol, CLOSE_EVENT, CONNECTED_EVENT,
    CONNECTING_EVENT, DISCONNECT_EVENT, ERROR_EVENT, MESSAGE_EVENT, RECONNECT_EVENT,
};
pub use builder::{ConnBuilder, ConnBuilderConfig, ConnNew, ConnectionTrait};
pub use conn::Conn;
pub use error::ConnectError;
pub use events::ConnEvent;
pub use inner_websocket::{Fault, InnerWebsocket, WsTarget, ReconnectStep, RecvAction, WsMessage};

use vstd::prelude::*;

verus! {

/// Milliseconds between two heartbeats of a connection.
pub const HEARTBEAT_INTERVAL: u64 = 10 * 1000;

} // verus!
