use vstd::prelude::*;

use crate::base::{
    CLOSE_EVENT, CONNECTED_EVENT, CONNECTING_EVENT, DISCONNECT_EVENT, ERROR_EVENT, MESSAGE_EVENT,
    RECONNECT_EVENT,
};

verus! {

/// An event that a connection emits to its listeners, with its payload.
#[derive(Debug, PartialEq, Eq)]
pub enum ConnEvent {
    /// A connect begins; with the `host:port` address.
    Connecting(String),
    /// The connection is established; with the `host:port` address.
    Connected(String),
    /// The connection was closed on request; with the `host:port` address.
    Disconnect(String),
    /// The connection was established again after a fault; with the `host:port` address.
    Reconnect(String),
    /// The connection was given up; with the message of the error that ended it.
    Close(String),
    /// A fault happened; with the message of its error.
    Error(String),
    /// A text message arrived.
    Message(String),
    /// A binary message arrived.
    BinaryMessage(Vec<u8>),
}

/// An event with its payload as a sequence.
pub enum EventView {
    Connecting(Seq<char>),
    Connected(Seq<char>),
    Disconnect(Seq<char>),
    Reconnect(Seq<char>),
    Close(Seq<char>),
    Error(Seq<char>),
    Message(Seq<char>),
    BinaryMessage(Seq<u8>),
}

impl View for ConnEvent {
    type V = EventView;

    open spec fn view(&self) -> EventView {
        match self {
            ConnEvent::Connecting(s) => EventView::Connecting(s@),
            ConnEvent::Connected(s) => EventView::Connected(s@),
            ConnEvent::Disconnect(s) => EventView::Disconnect(s@),
            ConnEvent::Reconnect(s) => EventView::Reconnect(s@),
            ConnEvent::Close(s) => EventView::Close(s@),
            ConnEvent::Error(s) => EventView::Error(s@),
            ConnEvent::Message(s) => EventView::Message(s@),
            ConnEvent::BinaryMessage(b) => EventView::BinaryMessage(b@),
        }
    }
}

/// The name under which listeners of an event register.
pub open spec fn event_name(e: EventView) -> Seq<char> {
    match e {
        EventView::Connecting(_) => CONNECTING_EVENT@,
        EventView::Connected(_) => CONNECTED_EVENT@,
        EventView::Disconnect(_) => DISCONNECT_EVENT@,
        EventView::Reconnect(_) => RECONNECT_EVENT@,
        EventView::Close(_) => CLOSE_EVENT@,
        EventView::Error(_) => ERROR_EVENT@,
        EventView::Message(_) => MESSAGE_EVENT@,
        EventView::BinaryMessage(_) => MESSAGE_EVENT@,
    }
}

impl ConnEvent {
    /// The name under which listeners of this event register.
    pub fn name(&self) -> (n: &'static str)
        ensures
            n@ == event_name(self@),
    {
        match self {
            ConnEvent::Connecting(_) => CONNECTING_EVENT,
            ConnEvent::Connected(_) => CONNECTED_EVENT,
            ConnEvent::Disconnect(_) => DISCONNECT_EVENT,
            ConnEvent::Reconnect(_) => RECONNECT_EVENT,
            ConnEvent::Close(_) => CLOSE_EVENT,
            ConnEvent::Error(_) => ERROR_EVENT,
            ConnEvent::Message(_) => MESSAGE_EVENT,
            ConnEvent::BinaryMessage(_) => MESSAGE_EVENT,
        }
    }
}

} // verus!

verus! {

/// The name of an event depends only on its kind, never on its payload: each kind is
/// announced under its own listener name, and text and binary messages both under "message".
pub proof fn lemma_event_names(s: Seq<char>, b: Seq<u8>)
    ensures
        event_name(EventView::Connecting(s)) == "connecting"@,
        event_name(EventView::Connected(s)) == "connected"@,
        event_name(EventView::Disconnect(s)) == "disconnect"@,
        event_name(EventView::Reconnect(s)) == "reconnect"@,
        event_name(EventView::Close(s)) == "close"@,
        event_name(EventView::Error(s)) == "error"@,
        event_name(EventView::Message(s)) == "message"@,
        event_name(EventView::BinaryMessage(b)) == "message"@,
{
}

/// Events of different kinds (other than the two kinds of message) are announced under
/// different names, so listeners of one kind are never called for another.
pub proof fn lemma_event_names_distinct(s: Seq<char>, t: Seq<char>)
    ensures
        event_name(EventView::Reconnect(s)) != event_name(EventView::Connected(t)),
        event_name(EventView::Connecting(s)) != event_name(EventView::Connected(t)),
        event_name(EventView::Disconnect(s)) != event_name(EventView::Close(t)),
        event_name(EventView::Error(s)) != event_name(EventView::Close(t)),
        event_name(EventView::Message(s)) != event_name(EventView::Error(t)),
{
    reveal_strlit("reconnect");
    reveal_strlit("connected");
    reveal_strlit("connecting");
    reveal_strlit("disconnect");
    reveal_strlit("close");
    reveal_strlit("error");
    reveal_strlit("message");
    assert("reconnect"@[0] != "connected"@[0]);
    assert("connecting"@.len() != "connected"@.len());
    assert("disconnect"@.len() != "close"@.len());
    assert("error"@[0] != "close"@[0]);
    assert("message"@.len() != "error"@.len());
}

} // verus!
