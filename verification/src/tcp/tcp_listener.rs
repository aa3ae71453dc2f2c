//! The lifecycle of a TCP listener: built from addresses or from a listener,
//! bound once to a server, then handed over to accept connections.
use vstd::prelude::*;

use crate::tcp::{http_url, http_urls, http_urls_spec, http_url_spec, not_listening,
    not_listening_text, ConnectionMode, ListenInfo};

verus! {

/// A TCP listener for a server of type `S`, given either the addresses `A`
/// to bind or an already bound listener `L`.
pub struct TcpListener<S, A, L> {
    addrs: Option<Vec<A>>,
    listener: Option<L>,
    server: Option<S>,
    info: Option<ListenInfo>,
}

impl<S, A, L> TcpListener<S, A, L> {
    /// The addresses still to be bound.
    pub closed spec fn addrs_spec(&self) -> Option<Seq<A>> {
        match self.addrs {
            Some(v) => Some(v@),
            None => None,
        }
    }

    /// The bound listener.
    pub closed spec fn listener_spec(&self) -> Option<L> {
        self.listener
    }

    /// The server the listener was bound to.
    pub closed spec fn server_spec(&self) -> Option<S> {
        self.server
    }

    /// What the listener reports about itself once bound.
    pub closed spec fn info_spec(&self) -> Option<ListenInfo> {
        self.info
    }

    /// A listener that will bind the given addresses.
    pub fn from_addrs(addrs: Vec<A>) -> (l: Self)
        ensures
            l.addrs_spec() == Some(addrs@),
            l.listener_spec() is None,
            l.server_spec() is None,
            l.info_spec() is None,
    {
        TcpListener { addrs: Some(addrs), listener: None, server: None, info: None }
    }

    /// A listener that serves on an already bound listener.
    pub fn from_listener(tcp_listener: L) -> (l: Self)
        ensures
            l.addrs_spec() is None,
            l.listener_spec() == Some(tcp_listener),
            l.server_spec() is None,
            l.info_spec() is None,
    {
        TcpListener { addrs: None, listener: Some(tcp_listener), server: None, info: None }
    }

    /// The bound listener, if any.
    pub fn listener(&self) -> (l: Option<&L>)
        ensures
            l is Some <==> self.listener_spec() is Some,
            l matches Some(x) ==> self.listener_spec() == Some(*x),
    {
        self.listener.as_ref()
    }

    /// The addresses still to be bound, if any.
    pub fn addrs(&self) -> (a: Option<&Vec<A>>)
        ensures
            a is Some <==> self.addrs_spec() is Some,
            a matches Some(v) ==> self.addrs_spec() == Some(v@),
    {
        self.addrs.as_ref()
    }

    /// Whether the listener was bound to a server.
    pub fn has_server(&self) -> (b: bool)
        ensures
            b == self.server_spec() is Some,
    {
        self.server.is_some()
    }

    /// Binds the listener to `server`, recording `conn_string` as the
    /// address it serves over TCP, without TLS, speaking HTTP/1.x only.
    /// A listener built from addresses hands them out to be bound; its
    /// listener is then set with `set_listener`. Binding twice, or a
    /// listener with neither addresses nor a listener, is not allowed.
    pub fn start_bind(&mut self, server: S, conn_string: String) -> (to_bind: Option<Vec<A>>)
        requires
            old(self).server_spec() is None,
            old(self).listener_spec() is Some || old(self).addrs_spec() is Some,
        ensures
            final(self).server_spec() == Some(server),
            final(self).info_spec() matches Some(info) && {
                &&& info.conn_string_spec() == conn_string@
                &&& info.transport_spec() == "tcp"@
                &&& !info.tls_spec()
                &&& info.conn_model_spec() == ConnectionMode::H1Only
            },
            final(self).listener_spec() == old(self).listener_spec(),
            old(self).listener_spec() is Some ==> {
                &&& to_bind is None
                &&& final(self).addrs_spec() == old(self).addrs_spec()
            },
            old(self).listener_spec() is None ==> {
                &&& to_bind matches Some(v) && old(self).addrs_spec() == Some(v@)
                &&& final(self).addrs_spec() is None
            },
    {
        self.server = Some(server);
        let transport = String::from_str("tcp");
        self.info = Some(ListenInfo::new(conn_string, transport, false, ConnectionMode::H1Only));
        if self.listener.is_none() {
            self.addrs.take()
        } else {
            None
        }
    }

    /// Records the listener bound to the addresses that `start_bind`
    /// handed out.
    pub fn set_listener(&mut self, listener: L)
        requires
            old(self).listener_spec() is None,
        ensures
            final(self).listener_spec() == Some(listener),
            final(self).addrs_spec() == old(self).addrs_spec(),
            final(self).server_spec() == old(self).server_spec(),
            final(self).info_spec() == old(self).info_spec(),
    {
        self.listener = Some(listener);
    }

    /// Hands over the server, the listener and the listen information, to
    /// accept connections; the listener keeps none of them. Accepting
    /// before binding is not allowed.
    pub fn start_accept(&mut self) -> (r: (S, L, ListenInfo))
        requires
            old(self).server_spec() is Some,
            old(self).listener_spec() is Some,
            old(self).info_spec() is Some,
        ensures
            Some(r.0) == old(self).server_spec(),
            Some(r.1) == old(self).listener_spec(),
            Some(r.2) == old(self).info_spec(),
            final(self).server_spec() is None,
            final(self).listener_spec() is None,
            final(self).info_spec() is None,
            final(self).addrs_spec() == old(self).addrs_spec(),
    {
        let server = self.server.take().unwrap();
        let listener = self.listener.take().unwrap();
        let info = self.info.take().unwrap();
        (server, listener, info)
    }

    /// The listen information: one entry once bound, none before.
    pub fn info(&self) -> (v: Vec<ListenInfo>)
        ensures
            self.info_spec() is None ==> v@.len() == 0,
            self.info_spec() matches Some(info) ==> {
                &&& v@.len() == 1
                &&& v@[0].conn_string_spec() == info.conn_string_spec()
                &&& v@[0].transport_spec() == info.transport_spec()
                &&& v@[0].tls_spec() == info.tls_spec()
                &&& v@[0].conn_model_spec() == info.conn_model_spec()
            },
    {
        match &self.info {
            Some(info) => vec![info.clone()],
            None => Vec::new(),
        }
    }
}

/// The text of a TCP listener: the URL of the bound listener's local
/// address, or else the URLs of the addresses to bind, or else a notice
/// that nothing is listened on.
pub open spec fn tcp_listener_text_spec(local_addr: Option<Seq<char>>, addrs: Option<Seq<Seq<char>>>) -> Seq<char> {
    match local_addr {
        Some(addr) => http_url_spec(addr),
        None => match addrs {
            Some(addrs) => http_urls_spec(addrs),
            None => not_listening_text(),
        },
    }
}

/// The text of a TCP listener, given the local address of its bound
/// listener, if any, and the addresses it is still to bind, if any.
pub fn tcp_listener_text(local_addr: Option<&str>, addrs: Option<&Vec<String>>) -> (s: String)
    ensures
        s@ == tcp_listener_text_spec(
            match local_addr {
                Some(a) => Some(a@),
                None => None,
            },
            match addrs {
                Some(v) => Some(v@.map_values(|a: String| a@)),
                None => None,
            },
        ),
        local_addr matches Some(a) ==> s@ == "http://"@ + a@,
        local_addr is None && addrs is Some ==> s@ == http_urls_spec(
            addrs.unwrap()@.map_values(|a: String| a@),
        ),
        local_addr is None && addrs is None ==> s@
            == "没有监听，请检查是否成功调用了 `Listener::bind`?"@,
{
    match local_addr {
        Some(addr) => http_url(addr),
        None => match addrs {
            Some(addrs) => http_urls(addrs),
            None => not_listening(),
        },
    }
}

/// The text of a TCP listener with a bound listener is the URL of that
/// listener's local address, whatever addresses are still to bind; the
/// addresses to bind are shown only without a bound listener, and the
/// not-listening notice only when there is neither.
pub proof fn lemma_tcp_listener_text_prefers_listener(
    local_addr: Option<Seq<char>>,
    addrs: Option<Seq<Seq<char>>>,
)
    ensures
        local_addr matches Some(a) ==> tcp_listener_text_spec(local_addr, addrs) == "http://"@ + a,
        local_addr is None && addrs is Some ==> tcp_listener_text_spec(local_addr, addrs)
            == http_urls_spec(addrs.unwrap()),
        local_addr is None && addrs is None ==> tcp_listener_text_spec(local_addr, addrs)
            == "没有监听，请检查是否成功调用了 `Listener::bind`?"@,
{
}

} // verus!
