use vstd::prelude::*;
use vstd::string::*;

verus! {

/// The errors a connection reports.
#[derive(Debug, Clone, PartialEq, Eq)]
pub enum ConnectError {
    Disconnect(String),
    Connection(String),
    SendError(String),
    RecvError(String),
    ConnectionError(String),
    ConnectionClosed(String),
    ConnectionTimeout,
    ConnectionRefused,
    ConnectionReset,
    Reconnecting,
    ReconnectFailed,
    Unknown(String),
}

/// A view of an error with its text payload as a sequence of characters.
pub enum ErrorView {
    Disconnect(Seq<char>),
    Connection(Seq<char>),
    SendError(Seq<char>),
    RecvError(Seq<char>),
    ConnectionError(Seq<char>),
    ConnectionClosed(Seq<char>),
    ConnectionTimeout,
    ConnectionRefused,
    ConnectionReset,
    Reconnecting,
    ReconnectFailed,
    Unknown(Seq<char>),
}

impl View for ConnectError {
    type V = ErrorView;

    open spec fn view(&self) -> ErrorView {
        match self {
            ConnectError::Disconnect(s) => ErrorView::Disconnect(s@),
            ConnectError::Connection(s) => ErrorView::Connection(s@),
            ConnectError::SendError(s) => ErrorView::SendError(s@),
            ConnectError::RecvError(s) => ErrorView::RecvError(s@),
            ConnectError::ConnectionError(s) => ErrorView::ConnectionError(s@),
            ConnectError::ConnectionClosed(s) => ErrorView::ConnectionClosed(s@),
            ConnectError::ConnectionTimeout => ErrorView::ConnectionTimeout,
            ConnectError::ConnectionRefused => ErrorView::ConnectionRefused,
            ConnectError::ConnectionReset => ErrorView::ConnectionReset,
            ConnectError::Reconnecting => ErrorView::Reconnecting,
            ConnectError::ReconnectFailed => ErrorView::ReconnectFailed,
            ConnectError::Unknown(s) => ErrorView::Unknown(s@),
        }
    }
}

/// The human-readable text of an error: a fixed phrase, followed by the payload
/// where the phrase ends in a space.
pub open spec fn error_text(e: ErrorView) -> Seq<char> {
    match e {
        ErrorView::Disconnect(_) => "Not connected"@,
        ErrorView::Connection(_) => "Connection error"@,
        ErrorView::SendError(s) => "Send error "@ + s,
        ErrorView::RecvError(s) => "Recv error "@ + s,
        ErrorView::ConnectionError(s) => "Connection error: "@ + s,
        ErrorView::ConnectionClosed(s) => "Connection closed: "@ + s,
        ErrorView::ConnectionTimeout => "Connection timeout"@,
        ErrorView::ConnectionRefused => "Connection refused"@,
        ErrorView::ConnectionReset => "Connection reset"@,
        ErrorView::Reconnecting => "Reconnecting"@,
        ErrorView::ReconnectFailed => "Reconnect failed"@,
        ErrorView::Unknown(s) => "unknown data store error: "@ + s,
    }
}

fn prefixed(prefix: &str, payload: &String) -> (r: String)
    ensures
        r@ == prefix@ + payload@,
{
    let mut r = String::from_str(prefix);
    r.append(payload.as_str());
    r
}

impl ConnectError {
    /// The error's message, as the connection reports it to users.
    pub fn message(&self) -> (r: String)
        ensures
            r@ == error_text(self@),
    {
        match self {
            ConnectError::Disconnect(_) => String::from_str("Not connected"),
            ConnectError::Connection(_) => String::from_str("Connection error"),
            ConnectError::SendError(s) => prefixed("Send error ", s),
            ConnectError::RecvError(s) => prefixed("Recv error ", s),
            ConnectError::ConnectionError(s) => prefixed("Connection error: ", s),
            ConnectError::ConnectionClosed(s) => prefixed("Connection closed: ", s),
            ConnectError::ConnectionTimeout => String::from_str("Connection timeout"),
            ConnectError::ConnectionRefused => String::from_str("Connection refused"),
            ConnectError::ConnectionReset => String::from_str("Connection reset"),
            ConnectError::Reconnecting => String::from_str("Reconnecting"),
            ConnectError::ReconnectFailed => String::from_str("Reconnect failed"),
            ConnectError::Unknown(s) => prefixed("unknown data store error: ", s),
        }
    }
}

} // verus!
