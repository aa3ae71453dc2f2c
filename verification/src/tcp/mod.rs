//! Listener front ends: what a bound listener reports about itself, how it
//! describes its address, and what it does with each incoming connection.
pub mod tcp_listener;
pub mod unix;

use vstd::prelude::*;

use crate::time::Duration;

verus! {

/// The HTTP versions a listener speaks on its connections.
#[derive(Clone, Copy, Debug, PartialEq, Eq, Structural)]
pub enum ConnectionMode {
    /// HTTP/1.x only.
    H1Only,
    /// HTTP/2 only.
    H2Only,
    /// HTTP/2 with fallback to HTTP/1.x.
    Fallback,
}

/// What a bound listener reports about itself.
pub struct ListenInfo {
    conn_string: String,
    transport: String,
    tls: bool,
    conn_model: ConnectionMode,
}

impl ListenInfo {
    /// The address the listener serves, as text.
    pub closed spec fn conn_string_spec(&self) -> Seq<char> {
        self.conn_string@
    }

    /// The transport the listener uses.
    pub closed spec fn transport_spec(&self) -> Seq<char> {
        self.transport@
    }

    /// Whether connections are encrypted.
    pub closed spec fn tls_spec(&self) -> bool {
        self.tls
    }

    /// The HTTP versions the listener speaks.
    pub closed spec fn conn_model_spec(&self) -> ConnectionMode {
        self.conn_model
    }

    /// Listen information of the given parts.
    pub fn new(conn_string: String, transport: String, tls: bool, conn_model: ConnectionMode) -> (info:
        ListenInfo)
        ensures
            info.conn_string_spec() == conn_string@,
            info.transport_spec() == transport@,
            info.tls_spec() == tls,
            info.conn_model_spec() == conn_model,
    {
        ListenInfo { conn_string, transport, tls, conn_model }
    }

    /// The address the listener serves, as text.
    pub fn connection(&self) -> (s: &str)
        ensures
            s@ == self.conn_string_spec(),
    {
        self.conn_string.as_str()
    }

    /// The transport the listener uses.
    pub fn transport(&self) -> (s: &str)
        ensures
            s@ == self.transport_spec(),
    {
        self.transport.as_str()
    }

    /// Whether connections are encrypted.
    pub fn is_encrypted(&self) -> (b: bool)
        ensures
            b == self.tls_spec(),
    {
        self.tls
    }

    /// The HTTP versions the listener speaks.
    pub fn conn_model(&self) -> (m: ConnectionMode)
        ensures
            m == self.conn_model_spec(),
    {
        self.conn_model
    }
}

impl Clone for ListenInfo {
    fn clone(&self) -> (c: ListenInfo)
        ensures
            c.conn_string_spec() == self.conn_string_spec(),
            c.transport_spec() == self.transport_spec(),
            c.tls_spec() == self.tls_spec(),
            c.conn_model_spec() == self.conn_model_spec(),
    {
        ListenInfo {
            conn_string: self.conn_string.clone(),
            transport: self.transport.clone(),
            tls: self.tls,
            conn_model: self.conn_model,
        }
    }
}

/// What the stream of incoming connections produced.
pub enum Incoming<T> {
    /// A connection.
    Stream(T),
    /// A transient error, such as a connection reset before it was accepted.
    TransientError,
    /// Any other error.
    Error,
}

/// What a listener does with what its incoming stream produced.
pub enum AcceptAction<T> {
    /// Serve the connection over HTTP/1.x in a task of its own.
    ServeH1(T),
    /// Go on with the next incoming connection.
    Skip,
    /// Wait this long, then go on with the next incoming connection.
    Backoff(Duration),
}

/// The pause after an error of the incoming stream, in milliseconds.
pub const ACCEPT_ERROR_BACKOFF_MILLIS: u64 = 500;

/// What a listener speaking `mode` does with `incoming`: a connection is
/// served over HTTP/1.x, a transient error is skipped, and any other error
/// is followed by a pause of half a second. Connections are served over
/// HTTP/1.x only: serving one under another mode is not implemented.
pub fn accept_action<T>(mode: ConnectionMode, incoming: Incoming<T>) -> (action: AcceptAction<T>)
    requires
        incoming is Stream ==> mode == ConnectionMode::H1Only,
    ensures
        match incoming {
            Incoming::Stream(stream) => action == AcceptAction::ServeH1(stream),
            Incoming::TransientError => action is Skip,
            Incoming::Error => action matches AcceptAction::Backoff(d) && d@
                == ACCEPT_ERROR_BACKOFF_MILLIS * 1_000_000,
        },
{
    match incoming {
        Incoming::Stream(stream) => AcceptAction::ServeH1(stream),
        Incoming::TransientError => AcceptAction::Skip,
        Incoming::Error => AcceptAction::Backoff(Duration::from_millis(ACCEPT_ERROR_BACKOFF_MILLIS)),
    }
}

/// The text a listener shows before it was given anything to listen on.
pub open spec fn not_listening_text() -> Seq<char> {
    "没有监听，请检查是否成功调用了 `Listener::bind`?"@
}

/// The text a listener shows before it was given anything to listen on.
pub fn not_listening() -> (s: String)
    ensures
        s@ == not_listening_text(),
{
    String::from_str("没有监听，请检查是否成功调用了 `Listener::bind`?")
}

/// The URL of an HTTP server at `addr`.
pub open spec fn http_url_spec(addr: Seq<char>) -> Seq<char> {
    "http://"@ + addr
}

/// The URL of an HTTP server at `addr`: `http://` followed by the address.
pub fn http_url(addr: &str) -> (url: String)
    ensures
        url@ == http_url_spec(addr@),
        url@ == "http://"@ + addr@,
{
    let mut url = String::from_str("http://");
    url.append(addr);
    url
}

/// The URLs of HTTP servers at `addrs`, separated by `, `.
pub open spec fn http_urls_spec(addrs: Seq<Seq<char>>) -> Seq<char>
    decreases addrs.len(),
{
    if addrs.len() == 0 {
        Seq::empty()
    } else if addrs.len() == 1 {
        http_url_spec(addrs[0])
    } else {
        http_urls_spec(addrs.drop_last()) + ", "@ + http_url_spec(addrs.last())
    }
}

/// The URLs of HTTP servers at each of `addrs`, in order, separated by `, `.
pub fn http_urls(addrs: &Vec<String>) -> (urls: String)
    ensures
        urls@ == http_urls_spec(addrs@.map_values(|a: String| a@)),
        addrs@.len() == 0 ==> urls@ == Seq::<char>::empty(),
        addrs@.len() == 1 ==> urls@ == "http://"@ + addrs@[0]@,
{
    let ghost texts = addrs@.map_values(|a: String| a@);
    let mut urls = String::new();
    let n = addrs.len();
    for i in 0..n
        invariant
            n == addrs.len(),
            texts == addrs@.map_values(|a: String| a@),
            urls@ == http_urls_spec(texts.take(i as int)),
    {
        let url = http_url(addrs[i].as_str());
        if i != 0 {
            urls.append(", ");
        }
        urls.append(url.as_str());
        assert(texts.take(i + 1).drop_last() =~= texts.take(i as int));
    }
    assert(texts.take(n as int) =~= texts);
    urls
}

/// The URL of an HTTP server on the Unix socket at `path`.
pub open spec fn unix_url_spec(path: Seq<char>) -> Seq<char> {
    "http+unix://"@ + path
}

/// The URL of an HTTP server on the Unix socket at `path`: `http+unix://`
/// followed by the path.
pub fn unix_url(path: &str) -> (url: String)
    ensures
        url@ == unix_url_spec(path@),
        url@ == "http+unix://"@ + path@,
{
    let mut url = String::from_str("http+unix://");
    url.append(path);
    url
}

/// Joining URLs: no address gives no text, one address gives its URL, and
/// each further address adds `, ` and its URL at the end, in order.
pub proof fn lemma_http_urls_extend(addrs: Seq<Seq<char>>, addr: Seq<char>)
    ensures
        http_urls_spec(Seq::empty()) == Seq::<char>::empty(),
        http_urls_spec(seq![addr]) == "http://"@ + addr,
        addrs.len() > 0 ==> http_urls_spec(addrs.push(addr)) == http_urls_spec(addrs) + ", "@
            + "http://"@ + addr,
{
    assert(seq![addr].len() == 1);
    assert(addrs.push(addr).drop_last() =~= addrs);
    assert(addrs.push(addr).last() == addr);
}

} // verus!
