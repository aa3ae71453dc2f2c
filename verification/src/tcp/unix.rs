//! The lifecycle of a Unix-socket listener: built from a path or from a
//! listener, bound once to a server, then handed over to accept connections.
use vstd::prelude::*;

use crate::tcp::{not_listening, not_listening_text, unix_url, unix_url_spec, ConnectionMode,
    ListenInfo};

verus! {

/// A Unix-socket listener for a server of type `S`, given either the path
/// `P` to bind or an already bound listener `L`.
pub struct UnixListener<S, P, L> {
    path: Option<P>,
    listener: Option<L>,
    server: Option<S>,
    info: Option<ListenInfo>,
}

impl<S, P, L> UnixListener<S, P, L> {
    /// The path still to be bound.
    pub closed spec fn path_spec(&self) -> Option<P> {
        self.path
    }

    /// The bound listener.
    pub closed spec fn listener_spec(&self) -> Option<L> {
        self.listener
    }

    /// The server the listener was bound to.
    pub closed spec fn server_spec(&self) -> Option<S> {
        self.server
    }

    /// What the listener reports about itself once bound.
    pub closed spec fn info_spec(&self) -> Option<ListenInfo> {
        self.info
    }

    /// A listener that will bind the socket at `path`.
    pub fn from_path(path: P) -> (l: Self)
        ensures
            l.path_spec() == Some(path),
            l.listener_spec() is None,
            l.server_spec() is None,
            l.info_spec() is None,
    {
        UnixListener { path: Some(path), listener: None, server: None, info: None }
    }

    /// A listener that serves on an already bound listener.
    pub fn from_listener(unix_listener: L) -> (l: Self)
        ensures
            l.path_spec() is None,
            l.listener_spec() == Some(unix_listener),
            l.server_spec() is None,
            l.info_spec() is None,
    {
        UnixListener { path: None, listener: Some(unix_listener), server: None, info: None }
    }

    /// The bound listener, if any.
    pub fn listener(&self) -> (l: Option<&L>)
        ensures
            l is Some <==> self.listener_spec() is Some,
            l matches Some(x) ==> self.listener_spec() == Some(*x),
    {
        self.listener.as_ref()
    }

    /// The path still to be bound, if any.
    pub fn path(&self) -> (p: Option<&P>)
        ensures
            p is Some <==> self.path_spec() is Some,
            p matches Some(x) ==> self.path_spec() == Some(*x),
    {
        self.path.as_ref()
    }

    /// Whether the listener was bound to a server.
    pub fn has_server(&self) -> (b: bool)
        ensures
            b == self.server_spec() is Some,
    {
        self.server.is_some()
    }

    /// Binds the listener to `server`. A listener built from a path hands
    /// the path out to be bound; its listener is then set with
    /// `set_listener`. Binding twice, or a listener with neither a path nor
    /// a listener, is not allowed.
    pub fn start_bind(&mut self, server: S) -> (to_bind: Option<P>)
        requires
            old(self).server_spec() is None,
            old(self).listener_spec() is Some || old(self).path_spec() is Some,
        ensures
            final(self).server_spec() == Some(server),
            final(self).listener_spec() == old(self).listener_spec(),
            final(self).info_spec() == old(self).info_spec(),
            old(self).listener_spec() is Some ==> {
                &&& to_bind is None
                &&& final(self).path_spec() == old(self).path_spec()
            },
            old(self).listener_spec() is None ==> {
                &&& to_bind == old(self).path_spec()
                &&& final(self).path_spec() is None
            },
    {
        self.server = Some(server);
        if self.listener.is_none() {
            self.path.take()
        } else {
            None
        }
    }

    /// Records the listener bound at the path that `start_bind` handed out.
    pub fn set_listener(&mut self, listener: L)
        requires
            old(self).listener_spec() is None,
        ensures
            final(self).listener_spec() == Some(listener),
            final(self).path_spec() == old(self).path_spec(),
            final(self).server_spec() == old(self).server_spec(),
            final(self).info_spec() == old(self).info_spec(),
    {
        self.listener = Some(listener);
    }

    /// Completes binding: records `conn_string` as the address the listener
    /// serves over a Unix domain socket, without TLS, speaking HTTP/1.x only.
    /// Only a listener bound to a server and holding its socket completes
    /// binding.
    pub fn finish_bind(&mut self, conn_string: String)
        requires
            old(self).server_spec() is Some,
            old(self).listener_spec() is Some,
        ensures
            final(self).info_spec() matches Some(info) && {
                &&& info.conn_string_spec() == conn_string@
                &&& info.transport_spec() == "uds"@
                &&& !info.tls_spec()
                &&& info.conn_model_spec() == ConnectionMode::H1Only
            },
            final(self).listener_spec() == old(self).listener_spec(),
            final(self).path_spec() == old(self).path_spec(),
            final(self).server_spec() == old(self).server_spec(),
    {
        let transport = String::from_str("uds");
        self.info = Some(ListenInfo::new(conn_string, transport, false, ConnectionMode::H1Only));
    }

    /// Hands over the server, the listener and the listen information, to
    /// accept connections; the listener keeps none of them. Accepting
    /// before binding is not allowed.
    pub fn start_accept(&mut self) -> (r: (S, L, ListenInfo))
        requires
            old(self).server_spec() is Some,
            old(self).listener_spec() is Some,
            old(self).info_spec() is Some,
        ensures
            Some(r.0) == old(self).server_spec(),
            Some(r.1) == old(self).listener_spec(),
            Some(r.2) == old(self).info_spec(),
            final(self).server_spec() is None,
            final(self).listener_spec() is None,
            final(self).info_spec() is None,
            final(self).path_spec() == old(self).path_spec(),
    {
        let server = self.server.take().unwrap();
        let listener = self.listener.take().unwrap();
        let info = self.info.take().unwrap();
        (server, listener, info)
    }

    /// The listen information: one entry once bound, none before.
    pub fn info(&self) -> (v: Vec<ListenInfo>)
        ensures
            self.info_spec() is None ==> v@.len() == 0,
            self.info_spec() matches Some(info) ==> {
                &&& v@.len() == 1
                &&& v@[0].conn_string_spec() == info.conn_string_spec()
                &&& v@[0].transport_spec() == info.transport_spec()
                &&& v@[0].tls_spec() == info.tls_spec()
                &&& v@[0].conn_model_spec() == info.conn_model_spec()
            },
    {
        match &self.info {
            Some(info) => vec![info.clone()],
            None => Vec::new(),
        }
    }
}

/// The text of a Unix-socket listener: the URL of the bound listener's
/// canonical path, or else the URL of the path to bind, or else a notice
/// that nothing is listened on.
pub open spec fn unix_listener_text_spec(listener_path: Option<Seq<char>>, path: Option<Seq<char>>) -> Seq<char> {
    match listener_path {
        Some(p) => unix_url_spec(p),
        None => match path {
            Some(p) => unix_url_spec(p),
            None => not_listening_text(),
        },
    }
}

/// The text of a Unix-socket listener, given the canonical path of its
/// bound listener, if any, and the path it is still to bind, if any.
pub fn unix_listener_text(listener_path: Option<&str>, path: Option<&str>) -> (s: String)
    ensures
        s@ == unix_listener_text_spec(
            match listener_path {
                Some(p) => Some(p@),
                None => None,
            },
            match path {
                Some(p) => Some(p@),
                None => None,
            },
        ),
        listener_path matches Some(p) ==> s@ == "http+unix://"@ + p@,
        listener_path is None && path is Some ==> s@ == "http+unix://"@ + path.unwrap()@,
        listener_path is None && path is None ==> s@
            == "没有监听，请检查是否成功调用了 `Listener::bind`?"@,
{
    match listener_path {
        Some(p) => unix_url(p),
        None => match path {
            Some(p) => unix_url(p),
            None => not_listening(),
        },
    }
}

/// The URL of a Unix socket address, given its canonical path when it has
/// one: `None` for an unnamed socket or one whose path cannot be resolved.
pub fn unix_socket_addr_text(canonical_path: Option<&str>) -> (s: Option<String>)
    ensures
        s is Some <==> canonical_path is Some,
        s matches Some(u) ==> canonical_path matches Some(p) && u@ == unix_url_spec(p@),
{
    match canonical_path {
        Some(p) => Some(unix_url(p)),
        None => None,
    }
}

/// The text of a Unix-socket listener with a bound listener is the URL of
/// that listener's path, whatever path is still to bind; the path to bind is
/// shown only without a bound listener, and the not-listening notice only
/// when there is neither.
pub proof fn lemma_unix_listener_text_prefers_listener(
    listener_path: Option<Seq<char>>,
    path: Option<Seq<char>>,
)
    ensures
        listener_path matches Some(p) ==> unix_listener_text_spec(listener_path, path)
            == "http+unix://"@ + p,
        listener_path is None && path is Some ==> unix_listener_text_spec(listener_path, path)
            == "http+unix://"@ + path.unwrap(),
        listener_path is None && path is None ==> unix_listener_text_spec(listener_path, path)
            == "没有监听，请检查是否成功调用了 `Listener::bind`?"@,
{
}

} // verus!
