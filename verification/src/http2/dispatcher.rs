//! The decisions of the HTTP/2 dispatcher: serving accepted requests and
//! keeping the connection alive with PING frames.
use vstd::prelude::*;

use crate::http2::config::{KeepAlive, Service2Options};
use crate::http2::error::DispatchError;
use crate::http2::TimerPoll;
use crate::time::{Deadline, Duration};

use std::rc::Rc;

verus! {

/// What one poll of the connection for its next request produced.
pub enum AcceptPoll<R> {
    /// A new request stream.
    Request(R),
    /// The connection closed.
    Closed,
    /// The connection failed.
    Failed(h2::Error),
    /// No request yet.
    Pending,
}

/// What one poll for the peer's pong produced.
pub enum PongPoll {
    Received,
    Failed(h2::Error),
    Pending,
}

/// What the dispatcher future answers to a poll.
pub enum DispatchAnswer<B> {
    /// The connection is finished.
    Done,
    /// The connection failed.
    Failed(DispatchError<B>),
    /// Not finished yet.
    Pending,
}

/// The next thing the dispatcher does.
pub enum DispatchStep<R, B> {
    /// Serve this request in a task of its own, then poll the connection
    /// for the next request.
    Serve(R),
    /// Poll for the pong of the ping in flight and hand the result to
    /// `on_pong`.
    PollPong,
    /// Poll the keep-alive timer and hand the result to `on_timer`.
    PollTimer,
    /// Send a ping and hand the outcome to `on_ping_sent`.
    SendPing,
    /// Reset the keep-alive timer to this deadline, then take the step
    /// that `keep_alive_probe` gives.
    ResetTimer(Deadline),
    /// Answer the poll with this.
    Answer(DispatchAnswer<B>),
}

/// How the keep-alive timer of a new dispatcher is set up.
pub enum KeepAliveTimer {
    /// Reuse the handshake's request timer, reset to this deadline.
    Reuse(Deadline),
    /// Start a fresh timer that elapses after this span.
    Fresh(Duration),
}

/// The keep-alive state of a connection: whether a ping is in flight.
#[derive(Clone, Copy, Debug, PartialEq, Eq, Structural)]
pub struct PingPongState {
    pub on_flight: bool,
}

/// Extensions of HTTP messages: a map of values by type.
#[verifier::external_type_specification]
#[verifier::external_body]
pub struct ExExtensions(http::Extensions);

/// Dispatcher for the HTTP/2 protocol: its configuration, the address `P`
/// of the peer, the data attached to the connection, and, when the
/// keep-alive policy has a timeout, the keep-alive ping state.
pub struct Dispatcher<P> {
    config: Service2Options,
    peer_addr: Option<P>,
    conn_data: Option<Rc<http::Extensions>>,
    ping_pong: Option<PingPongState>,
}

impl<P> Dispatcher<P> {
    #[verifier::type_invariant]
    spec fn ping_pong_needs_timeout(self) -> bool {
        self.ping_pong is Some ==> self.config.keep_alive_spec() is Timeout
    }

    /// The configuration of the dispatcher.
    pub closed spec fn config_spec(&self) -> Service2Options {
        self.config
    }

    /// The address of the peer, if known.
    pub closed spec fn peer_addr_spec(&self) -> Option<P> {
        self.peer_addr
    }

    /// The data attached to the connection, if any.
    pub closed spec fn conn_data_spec(&self) -> Option<http::Extensions> {
        match self.conn_data {
            Some(data) => Some(*data),
            None => None,
        }
    }

    /// The keep-alive ping state, if keep-alive pings are sent.
    pub closed spec fn ping_pong_spec(&self) -> Option<PingPongState> {
        self.ping_pong
    }

    /// The keep-alive timeout of the configuration.
    pub open spec fn keep_alive_timeout_spec(&self) -> Duration {
        self.config_spec().keep_alive_spec()->Timeout_0
    }

    /// Whether the dispatcher waits for the pong of a ping it sent.
    pub open spec fn awaiting_pong(&self) -> bool {
        self.ping_pong_spec() matches Some(p) && p.on_flight
    }

    /// Whether the dispatcher waits for its keep-alive timer to send the
    /// next ping.
    pub open spec fn awaiting_ping_time(&self) -> bool {
        self.ping_pong_spec() matches Some(p) && !p.on_flight
    }

    /// A dispatcher for a connection whose handshake completed, keeping the
    /// configuration, the peer address and the connection data. Keep-alive
    /// pings are sent exactly when the keep-alive policy has a timeout;
    /// their timer reuses the handshake's request timer when there is one
    /// and starts afresh otherwise. No ping is in flight yet.
    pub fn new(
        config: Service2Options,
        peer_addr: Option<P>,
        conn_data: Option<http::Extensions>,
        handshake_timer: Option<Deadline>,
    ) -> (r: (Dispatcher<P>, Option<KeepAliveTimer>))
        ensures
            r.0.config_spec() == config,
            r.0.peer_addr_spec() == peer_addr,
            r.0.conn_data_spec() == conn_data,
            r.0.ping_pong_spec() == (if config.keep_alive_spec() is Timeout {
                Some(PingPongState { on_flight: false })
            } else {
                None
            }),
            r.1 is Some <==> config.keep_alive_spec() is Timeout,
            r.1 matches Some(KeepAliveTimer::Reuse(d)) ==> {
                &&& handshake_timer is Some
                &&& d.timeout == config.keep_alive_spec()->Timeout_0
            },
            r.1 matches Some(KeepAliveTimer::Fresh(dur)) ==> {
                &&& handshake_timer is None
                &&& dur == config.keep_alive_spec()->Timeout_0
            },
    {
        let (ping_pong, timer) = match config.keep_alive().duration() {
            Some(dur) => {
                let timer = match handshake_timer {
                    Some(_) => KeepAliveTimer::Reuse(config.keep_alive_deadline().unwrap()),
                    None => KeepAliveTimer::Fresh(dur),
                };
                (Some(PingPongState { on_flight: false }), Some(timer))
            },
            None => (None, None),
        };
        let conn_data = match conn_data {
            Some(data) => Some(Rc::new(data)),
            None => None,
        };
        (Dispatcher { config, peer_addr, conn_data, ping_pong }, timer)
    }

    /// The address of the peer, if known.
    pub fn peer_addr(&self) -> (a: Option<&P>)
        ensures
            a is Some <==> self.peer_addr_spec() is Some,
            a matches Some(x) ==> self.peer_addr_spec() == Some(*x),
    {
        self.peer_addr.as_ref()
    }

    /// The data attached to the connection, if any.
    pub fn conn_data(&self) -> (d: Option<&http::Extensions>)
        ensures
            d is Some <==> self.conn_data_spec() is Some,
            d matches Some(x) ==> self.conn_data_spec() == Some(*x),
    {
        match &self.conn_data {
            Some(data) => Some(&**data),
            None => None,
        }
    }

    /// The keep-alive probe to take while no request arrives: poll for the
    /// pong of a ping in flight, or else poll the timer for the next ping;
    /// without keep-alive pings, answer that the connection is pending.
    pub fn keep_alive_probe<R, B>(&self) -> (step: DispatchStep<R, B>)
        ensures
            step == (match self.ping_pong_spec() {
                Some(p) => if p.on_flight {
                    DispatchStep::<R, B>::PollPong
                } else {
                    DispatchStep::PollTimer
                },
                None => DispatchStep::Answer(DispatchAnswer::Pending),
            }),
    {
        match self.ping_pong {
            Some(p) => if p.on_flight {
                DispatchStep::PollPong
            } else {
                DispatchStep::PollTimer
            },
            None => DispatchStep::Answer(DispatchAnswer::Pending),
        }
    }

    /// The step after the connection was polled for its next request: a
    /// request is served, a closed connection finishes the dispatcher, a
    /// connection error fails it, and while no request arrives the
    /// keep-alive probe is taken.
    pub fn on_accept<R, B>(&self, polled: AcceptPoll<R>) -> (step: DispatchStep<R, B>)
        ensures
            match polled {
                AcceptPoll::Request(req) => step == DispatchStep::<R, B>::Serve(req),
                AcceptPoll::Closed => step == DispatchStep::<R, B>::Answer(DispatchAnswer::Done),
                AcceptPoll::Failed(err) => step == DispatchStep::<R, B>::Answer(
                    DispatchAnswer::Failed(DispatchError::H2(err)),
                ),
                AcceptPoll::Pending => step == (match self.ping_pong_spec() {
                    Some(p) => if p.on_flight {
                        DispatchStep::<R, B>::PollPong
                    } else {
                        DispatchStep::PollTimer
                    },
                    None => DispatchStep::Answer(DispatchAnswer::Pending),
                }),
            },
    {
        match polled {
            AcceptPoll::Request(req) => DispatchStep::Serve(req),
            AcceptPoll::Closed => DispatchStep::Answer(DispatchAnswer::Done),
            AcceptPoll::Failed(err) => DispatchStep::Answer(
                DispatchAnswer::Failed(DispatchError::from(err)),
            ),
            AcceptPoll::Pending => self.keep_alive_probe(),
        }
    }

    /// The step after polling for the pong of the ping in flight: a pong
    /// ends the flight and resets the keep-alive timer to the next keep-alive
    /// deadline, measured from now; a failure fails the dispatcher; while the
    /// pong is pending the timer is polled for the keep-alive timeout.
    pub fn on_pong<R, B>(&mut self, polled: PongPoll) -> (step: DispatchStep<R, B>)
        requires
            old(self).awaiting_pong(),
        ensures
            final(self).config_spec() == old(self).config_spec(),
            final(self).peer_addr_spec() == old(self).peer_addr_spec(),
            final(self).conn_data_spec() == old(self).conn_data_spec(),
            match polled {
                PongPoll::Received => {
                    &&& final(self).awaiting_ping_time()
                    &&& step matches DispatchStep::ResetTimer(d)
                    &&& d.timeout == old(self).keep_alive_timeout_spec()
                },
                PongPoll::Failed(err) => {
                    &&& *final(self) == *old(self)
                    &&& step == DispatchStep::<R, B>::Answer(
                        DispatchAnswer::Failed(DispatchError::H2(err)),
                    )
                },
                PongPoll::Pending => {
                    &&& *final(self) == *old(self)
                    &&& step == DispatchStep::<R, B>::PollTimer
                },
            },
    {
        proof {
            use_type_invariant(&*self);
        }
        match polled {
            PongPoll::Received => {
                self.ping_pong = Some(PingPongState { on_flight: false });
                self.reset_step()
            },
            PongPoll::Failed(err) => DispatchStep::Answer(
                DispatchAnswer::Failed(DispatchError::from(err)),
            ),
            PongPoll::Pending => DispatchStep::PollTimer,
        }
    }

    /// The step after polling the keep-alive timer. While a ping is in
    /// flight, an elapsed timer means the peer missed the keep-alive
    /// deadline and the dispatcher finishes; otherwise an elapsed timer
    /// sends the next ping. A pending timer leaves the poll pending.
    pub fn on_timer<R, B>(&self, polled: TimerPoll) -> (step: DispatchStep<R, B>)
        requires
            self.ping_pong_spec() is Some,
        ensures
            step == (match polled {
                TimerPoll::Pending => DispatchStep::<R, B>::Answer(DispatchAnswer::Pending),
                TimerPoll::Elapsed => if self.awaiting_pong() {
                    DispatchStep::<R, B>::Answer(DispatchAnswer::Done)
                } else {
                    DispatchStep::SendPing
                },
            }),
    {
        match polled {
            TimerPoll::Pending => DispatchStep::Answer(DispatchAnswer::Pending),
            TimerPoll::Elapsed => if self.ping_pong.unwrap().on_flight {
                DispatchStep::Answer(DispatchAnswer::Done)
            } else {
                DispatchStep::SendPing
            },
        }
    }

    /// The step after sending a ping: once sent, the ping is in flight and
    /// the keep-alive timer is reset to the next keep-alive deadline,
    /// measured from now; a send failure fails the dispatcher.
    pub fn on_ping_sent<R, B>(&mut self, sent: Result<(), h2::Error>) -> (step: DispatchStep<R, B>)
        requires
            old(self).awaiting_ping_time(),
        ensures
            final(self).config_spec() == old(self).config_spec(),
            final(self).peer_addr_spec() == old(self).peer_addr_spec(),
            final(self).conn_data_spec() == old(self).conn_data_spec(),
            match sent {
                Ok(()) => {
                    &&& final(self).awaiting_pong()
                    &&& step matches DispatchStep::ResetTimer(d)
                    &&& d.timeout == old(self).keep_alive_timeout_spec()
                },
                Err(err) => {
                    &&& *final(self) == *old(self)
                    &&& step == DispatchStep::<R, B>::Answer(
                        DispatchAnswer::Failed(DispatchError::H2(err)),
                    )
                },
            },
    {
        proof {
            use_type_invariant(&*self);
        }
        match sent {
            Ok(()) => {
                self.ping_pong = Some(PingPongState { on_flight: true });
                self.reset_step()
            },
            Err(err) => DispatchStep::Answer(DispatchAnswer::Failed(DispatchError::from(err))),
        }
    }

    /// Resets the keep-alive timer to the keep-alive deadline measured from
    /// now; the configuration has a keep-alive timeout whenever pings are
    /// sent, so the deadline always exists.
    fn reset_step<R, B>(&self) -> (step: DispatchStep<R, B>)
        requires
            self.config_spec().keep_alive_spec() is Timeout,
        ensures
            step matches DispatchStep::ResetTimer(d),
            step matches DispatchStep::ResetTimer(d) ==> d.timeout
                == self.keep_alive_timeout_spec(),
    {
        DispatchStep::ResetTimer(self.config.keep_alive_deadline().unwrap())
    }
}

} // verus!
