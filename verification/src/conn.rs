use vstd::prelude::*;

use crate::base::ConnectionBaseInterface;
use crate::inner_websocket::{InnerWebsocket, WebsocketView};

verus! {

/// A connection, as handed out by the builder.
pub struct Conn(InnerWebsocket);

impl View for Conn {
    type V = WebsocketView;

    closed spec fn view(&self) -> WebsocketView {
        self.0@
    }
}

impl Conn {
    pub fn new(conn: InnerWebsocket) -> (c: Self)
        ensures
            c@ == conn@,
    {
        Conn(conn)
    }

    /// The websocket connection inside, to be driven by its runtime.
    pub fn into_inner(self) -> (ws: InnerWebsocket)
        ensures
            ws@ == self@,
    {
        self.0
    }
}

impl ConnectionBaseInterface for Conn {
    fn get_address(&self) -> (r: String)
        ensures
            r@ == self@.address(),
    {
        self.0.get_address()
    }
}

} // verus!
