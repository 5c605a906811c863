//! The WebSocket relay: how frames cross between the client and the backend,
//! and how a session starts.
use vstd::prelude::*;
use crate::utils::{form_parse, parse_pairs};

verus! {

/// The query parameters of an upgrade request, in order, duplicates kept.
#[derive(Debug, Clone)]
pub struct QueryString {
    items: Vec<(String, String)>,
}

impl QueryString {
    pub closed spec fn view_items(&self) -> Seq<(Seq<char>, Seq<char>)> {
        self.items.deep_view()
    }

    /// The parameters given.
    pub fn new(items: Vec<(String, String)>) -> (r: QueryString)
        ensures
            r.view_items() == items.deep_view(),
    {
        QueryString { items }
    }

    /// The decoded parameters of a raw query text.
    pub fn parse(raw: &str) -> (r: QueryString)
        ensures
            r.view_items() == form_parse(raw@),
            raw@.len() == 0 ==> r.view_items().len() == 0,
    {
        QueryString { items: parse_pairs(raw) }
    }

    /// The parameters, in order.
    pub fn items(&self) -> (r: &Vec<(String, String)>)
        ensures
            r.deep_view() == self.view_items(),
    {
        &self.items
    }
}

/// What `url::Url` makes of a URL text with name/value pairs appended to its
/// query; `None` where the text is no URL.
pub uninterp spec fn url_with_pairs(url: Seq<char>, pairs: Seq<(Seq<char>, Seq<char>)>) -> Option<
    Seq<char>,
>;

/// Relies on `url::Url::parse` and `Url::query_pairs_mut().extend_pairs`:
/// the URL with the pairs encoded onto its query, or `None` where `url` does
/// not parse.
#[verifier::external_body]
fn url_with_query(url: &str, pairs: &Vec<(String, String)>) -> (r: Option<String>)
    ensures
        match r {
            Some(u) => url_with_pairs(url@, pairs.deep_view()) == Some(u@),
            None => url_with_pairs(url@, pairs.deep_view()) is None,
        },
{
    let mut url = url::Url::parse(url).ok()?;
    url.query_pairs_mut().extend_pairs(pairs);
    Some(url.into())
}

/// The backend URL of a WebSocket session: the configured destination with
/// every query parameter of the upgrade request appended, in order.
pub fn backend_ws_url(destination: &str, query: &QueryString) -> (r: Option<String>)
    ensures
        match r {
            Some(u) => url_with_pairs(destination@, query.view_items()) == Some(u@),
            None => url_with_pairs(destination@, query.view_items()) is None,
        },
{
    url_with_query(destination, query.items())
}

/// A close frame: its status code and reason.
#[derive(Debug, Clone, PartialEq, Eq)]
pub struct CloseFrame {
    pub code: u16,
    pub reason: String,
}

/// A message on the client's socket.
#[derive(Debug, Clone, PartialEq, Eq)]
pub enum ClientMessage {
    Text(String),
    Binary(Vec<u8>),
    Ping(Vec<u8>),
    Pong(Vec<u8>),
    Close(Option<CloseFrame>),
}

/// A message on the backend's socket. `Frame` is a raw protocol frame of the
/// backend's WebSocket library, never meant for the application.
#[derive(Debug, Clone, PartialEq, Eq)]
pub enum BackendMessage {
    Text(String),
    Binary(Vec<u8>),
    Ping(Vec<u8>),
    Pong(Vec<u8>),
    Close(Option<CloseFrame>),
    Frame,
}

/// A client message as the backend receives it.
pub open spec fn to_backend(msg: ClientMessage) -> BackendMessage {
    match msg {
        ClientMessage::Text(t) => BackendMessage::Text(t),
        ClientMessage::Binary(b) => BackendMessage::Binary(b),
        ClientMessage::Ping(p) => BackendMessage::Ping(p),
        ClientMessage::Pong(p) => BackendMessage::Pong(p),
        ClientMessage::Close(c) => BackendMessage::Close(c),
    }
}

/// A backend message as the client receives it; a raw frame is dropped.
pub open spec fn to_client(msg: BackendMessage) -> Option<ClientMessage> {
    match msg {
        BackendMessage::Text(t) => Some(ClientMessage::Text(t)),
        BackendMessage::Binary(b) => Some(ClientMessage::Binary(b)),
        BackendMessage::Ping(p) => Some(ClientMessage::Ping(p)),
        BackendMessage::Pong(p) => Some(ClientMessage::Pong(p)),
        BackendMessage::Close(c) => Some(ClientMessage::Close(c)),
        BackendMessage::Frame => None,
    }
}

/// Translates a client message for the backend: same kind, same payload,
/// close code and reason carried over.
pub fn into_tmessage(msg: ClientMessage) -> (r: BackendMessage)
    ensures
        r == to_backend(msg),
{
    match msg {
        ClientMessage::Text(t) => BackendMessage::Text(t),
        ClientMessage::Binary(b) => BackendMessage::Binary(b),
        ClientMessage::Ping(p) => BackendMessage::Ping(p),
        ClientMessage::Pong(p) => BackendMessage::Pong(p),
        ClientMessage::Close(c) => match c {
            Some(frame) => BackendMessage::Close(
                Some(CloseFrame { code: frame.code, reason: frame.reason }),
            ),
            None => BackendMessage::Close(None),
        },
    }
}

/// Translates a backend message for the client; `None` for a raw frame,
/// which is not forwarded.
pub fn into_amessage(msg: BackendMessage) -> (r: Option<ClientMessage>)
    ensures
        r == to_client(msg),
{
    match msg {
        BackendMessage::Text(t) => Some(ClientMessage::Text(t)),
        BackendMessage::Binary(b) => Some(ClientMessage::Binary(b)),
        BackendMessage::Ping(p) => Some(ClientMessage::Ping(p)),
        BackendMessage::Pong(p) => Some(ClientMessage::Pong(p)),
        BackendMessage::Close(c) => match c {
            Some(frame) => Some(
                ClientMessage::Close(Some(CloseFrame { code: frame.code, reason: frame.reason })),
            ),
            None => Some(ClientMessage::Close(None)),
        },
        BackendMessage::Frame => None,
    }
}

/// Messages cross the relay unchanged in both directions: a client message
/// reaches the backend and would come back as itself, a backend message
/// other than a raw frame reaches the client and would come back as itself,
/// and a raw frame never reaches the client.
pub proof fn relay_keeps_messages(c: ClientMessage, b: BackendMessage)
    ensures
        to_client(to_backend(c)) == Some(c),
        !(b is Frame) ==> to_client(b) is Some && to_backend(to_client(b).unwrap()) == b,
        b is Frame ==> to_client(b) is None,
        forall|t: String|
            to_backend(ClientMessage::Text(t)) == BackendMessage::Text(t) && to_client(
                BackendMessage::Text(t),
            ) == Some(ClientMessage::Text(t)),
{
}

/// The kind of a backend message, for the log.
#[derive(Debug, Clone, Copy, PartialEq, Eq)]
pub enum PrintableMessage {
    Text,
    Binary,
    Ping,
    Pong,
    Close,
    Frame,
}

/// The kind of a backend message.
pub open spec fn kind_of(msg: BackendMessage) -> PrintableMessage {
    match msg {
        BackendMessage::Text(_) => PrintableMessage::Text,
        BackendMessage::Binary(_) => PrintableMessage::Binary,
        BackendMessage::Ping(_) => PrintableMessage::Ping,
        BackendMessage::Pong(_) => PrintableMessage::Pong,
        BackendMessage::Close(_) => PrintableMessage::Close,
        BackendMessage::Frame => PrintableMessage::Frame,
    }
}

impl PrintableMessage {
    /// The kind of `value`.
    pub fn from(value: &BackendMessage) -> (r: PrintableMessage)
        ensures
            r == kind_of(*value),
    {
        match value {
            BackendMessage::Text(_) => PrintableMessage::Text,
            BackendMessage::Binary(_) => PrintableMessage::Binary,
            BackendMessage::Ping(_) => PrintableMessage::Ping,
            BackendMessage::Pong(_) => PrintableMessage::Pong,
            BackendMessage::Close(_) => PrintableMessage::Close,
            BackendMessage::Frame => PrintableMessage::Frame,
        }
    }

    /// The kind's name.
    pub fn name(&self) -> (r: String)
        ensures
            r@ == match self {
                PrintableMessage::Text => "Text"@,
                PrintableMessage::Binary => "Binary"@,
                PrintableMessage::Ping => "Ping"@,
                PrintableMessage::Pong => "Pong"@,
                PrintableMessage::Close => "Close"@,
                PrintableMessage::Frame => "Frame"@,
            },
    {
        match self {
            PrintableMessage::Text => String::from_str("Text"),
            PrintableMessage::Binary => String::from_str("Binary"),
            PrintableMessage::Ping => String::from_str("Ping"),
            PrintableMessage::Pong => String::from_str("Pong"),
            PrintableMessage::Close => String::from_str("Close"),
            PrintableMessage::Frame => String::from_str("Frame"),
        }
    }
}

/// The kind of a backend message, for the log.
pub fn msg_ty(msg: &BackendMessage) -> (r: PrintableMessage)
    ensures
        r == kind_of(*msg),
{
    PrintableMessage::from(msg)
}

/// The close code sent to the client when the backend cannot be reached.
pub const BACKEND_UNREACHABLE_CODE: u16 = 1014;

/// The reason sent with that code.
pub open spec fn unreachable_reason() -> Seq<char> {
    "Failed to open connection to destination server"@
}

/// What the client is sent when the backend refuses the WebSocket
/// connection: one close frame with code 1014, and nothing else.
pub fn refused_connection_messages() -> (r: Vec<ClientMessage>)
    ensures
        r@.len() == 1,
        r@[0] matches ClientMessage::Close(Some(f)) && f.code == 1014 && f.reason@
            == unreachable_reason(),
{
    let frame = CloseFrame {
        code: BACKEND_UNREACHABLE_CODE,
        reason: String::from_str("Failed to open connection to destination server"),
    };
    let mut r: Vec<ClientMessage> = Vec::new();
    r.push(ClientMessage::Close(Some(frame)));
    r
}

} // verus!
