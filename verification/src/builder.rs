use vstd::prelude::*;
use vstd::string::*;

use crate::base::Protocol;
use crate::conn::Conn;
use crate::inner_websocket::{heartbeat_interval_of, initial_view, InnerWebsocket};
use crate::HEARTBEAT_INTERVAL;

verus! {

/// What a connection is built from.
pub struct ConnBuilderConfig {
    pub host: String,
    pub port: u16,
    pub protocol: Protocol,
    pub heartbeat_time: Option<u64>,
}

impl Default for ConnBuilderConfig {
    fn default() -> (c: Self)
        ensures
            c.host@ == "127.0.0.1"@,
            c.port == 9673,
            c.protocol == Protocol::WEBSOCKET,
            c.heartbeat_time == Some(HEARTBEAT_INTERVAL),
    {
        ConnBuilderConfig {
            host: String::from_str("127.0.0.1"),
            port: 9673,
            protocol: Protocol::WEBSOCKET,
            heartbeat_time: Some(HEARTBEAT_INTERVAL),
        }
    }
}

/// A connection that can be made from a configuration.
pub trait ConnNew: Sized {
    fn new(config: ConnBuilderConfig) -> Self;
}

/// A connection that can be made from a configuration, shared and cloned.
pub trait ConnectionTrait: ConnNew + Sync + Send + Clone {}

/// A configuration sorted by the protocol it asks for.
pub enum ConnBuilder {
    TCP(ConnBuilderConfig),
    UDP(ConnBuilderConfig),
    WEBSOCKET(ConnBuilderConfig),
}

/// The builder that a configuration gives: the variant of its protocol, holding it.
pub open spec fn builder_for(config: ConnBuilderConfig) -> ConnBuilder {
    match config.protocol {
        Protocol::TCP => ConnBuilder::TCP(config),
        Protocol::UDP => ConnBuilder::UDP(config),
        Protocol::WEBSOCKET => ConnBuilder::WEBSOCKET(config),
    }
}

impl ConnBuilder {
    pub fn new(config: ConnBuilderConfig) -> (b: Self)
        ensures
            b == builder_for(config),
    {
        match config.protocol {
            Protocol::TCP => ConnBuilder::TCP(config),
            Protocol::UDP => ConnBuilder::UDP(config),
            Protocol::WEBSOCKET => ConnBuilder::WEBSOCKET(config),
        }
    }

    /// Builds the connection; only websocket connections are supported.
    pub fn build(self) -> (c: Conn)
        requires
            self is WEBSOCKET,
        ensures
            c@ == initial_view(
                self->WEBSOCKET_0.host@,
                self->WEBSOCKET_0.port,
                heartbeat_interval_of(self->WEBSOCKET_0.heartbeat_time),
            ),
    {
        match self {
            ConnBuilder::WEBSOCKET(config) => Conn::new(InnerWebsocket::new(config)),
            _ => vstd::pervasive::unreached(),
        }
    }
}

} // verus!

verus! {

/// The builder of a configuration holds that configuration under the variant of
/// its protocol; a websocket configuration is the one that builds.
pub proof fn lemma_builder_keeps_config(config: ConnBuilderConfig)
    ensures
        builder_for(config) is WEBSOCKET <==> config.protocol == Protocol::WEBSOCKET,
        builder_for(config) is TCP <==> config.protocol == Protocol::TCP,
        builder_for(config) is UDP <==> config.protocol == Protocol::UDP,
        builder_for(config) matches ConnBuilder::WEBSOCKET(c) ==> c == config,
        builder_for(config) matches ConnBuilder::TCP(c) ==> c == config,
        builder_for(config) matches ConnBuilder::UDP(c) ==> c == config,
{
}

} // verus!
