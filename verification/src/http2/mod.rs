//! HTTP/2 handling: service configuration, errors, the request payload and
//! the connection handshake.
pub mod config;
pub mod dispatcher;
pub mod error;

use vstd::prelude::*;

use crate::http2::config::Service2Options;
use crate::http2::error::{DispatchError, PayloadError};
use crate::time::Deadline;

verus! {

/// The receiving half of an HTTP/2 stream.
#[verifier::external_type_specification]
#[verifier::external_body]
pub struct ExRecvStream(h2::RecvStream);

/// A cheaply cloneable chunk of bytes.
#[verifier::external_type_specification]
#[verifier::external_body]
pub struct ExBytes(bytes::Bytes);

/// The bytes that a `bytes::Bytes` holds.
pub uninterp spec fn bytes_contents(b: bytes::Bytes) -> Seq<u8>;

/// The largest window size of the HTTP/2 protocol, as `h2` bounds releases.
pub const MAX_WINDOW_SIZE: usize = 2147483647;

/// Calls `bytes::Bytes::len`: the number of bytes in the chunk.
#[verifier::external_body]
fn bytes_len(b: &bytes::Bytes) -> (n: usize)
    ensures
        n == bytes_contents(*b).len(),
{
    b.len()
}

/// The item that the payload stream yields for a data chunk, given the
/// outcome of releasing the chunk's length of flow-control capacity.
pub open spec fn chunk_item_spec(chunk: bytes::Bytes, released: Result<(), h2::Error>) -> Option<
    Result<bytes::Bytes, PayloadError>,
> {
    match released {
        Ok(()) => Some(Ok(chunk)),
        Err(err) => Some(Err(PayloadError::Http2Payload(err))),
    }
}

/// The item that the payload stream yields for a data chunk, given the
/// outcome of releasing the chunk's length of flow-control capacity: the
/// chunk itself, or the release error as an HTTP/2 payload error. Together
/// with `Payload::on_data` and `Payload::release_capacity` this is one step
/// of the payload stream.
pub fn chunk_item(chunk: bytes::Bytes, released: Result<(), h2::Error>) -> (r: Option<
    Result<bytes::Bytes, PayloadError>,
>)
    ensures
        r == chunk_item_spec(chunk, released),
        released is Ok ==> r == Some(Ok::<bytes::Bytes, PayloadError>(chunk)),
        released matches Err(err) ==> r == Some(
            Err::<bytes::Bytes, PayloadError>(PayloadError::Http2Payload(err)),
        ),
{
    match released {
        Ok(()) => Some(Ok(chunk)),
        Err(err) => Some(Err(PayloadError::from(err))),
    }
}

/// What the payload stream does with what its receive stream produced.
pub enum PayloadStep {
    /// Yield this item.
    Yield(Option<Result<bytes::Bytes, PayloadError>>),
    /// Release `size` bytes of flow-control capacity back to the peer with
    /// `Payload::release_capacity`, then yield what `chunk_item` gives for
    /// the chunk and the outcome of the release.
    Release { chunk: bytes::Bytes, size: usize },
}

/// HTTP/2 peer stream: the body of a request, with the sizes of the
/// receive-window releases it has asked for, in order, and the count of
/// bytes of receive window it has handed back to the peer.
pub struct Payload {
    stream: h2::RecvStream,
    requests: Ghost<Seq<usize>>,
    released: Ghost<nat>,
}

/// Calls `h2::FlowControl::release_capacity` on the flow control of the
/// payload's stream (`h2::RecvStream::flow_control` only hands that out),
/// handing `size` bytes of receive window back to the peer. The call asks
/// for exactly `size` bytes, once, and leaves the stream handle itself as it
/// was. On success exactly `size` bytes were released; a failed release
/// releases nothing.
/// It fails when `size` exceeds the largest window size; whether it fails
/// otherwise depends on how much data the stream has received and not yet
/// released, which is not modelled here.
#[verifier::external_body]
fn release_stream_capacity(payload: &mut Payload, size: usize) -> (r: Result<(), h2::Error>)
    ensures
        final(payload).requests@ == old(payload).requests@.push(size),
        final(payload).stream == old(payload).stream,
        size > MAX_WINDOW_SIZE ==> r is Err,
        r is Ok ==> final(payload).released@ == old(payload).released@ + size,
        r is Err ==> final(payload).released@ == old(payload).released@,
{
    payload.stream.flow_control().release_capacity(size)
}

impl Payload {
    /// The underlying receive stream.
    pub closed spec fn stream_spec(&self) -> h2::RecvStream {
        self.stream
    }

    /// The sizes of the receive-window releases asked for since the payload
    /// was built, in order.
    pub closed spec fn requests_spec(&self) -> Seq<usize> {
        self.requests@
    }

    /// The number of bytes of receive window handed back to the peer since
    /// the payload was built.
    pub closed spec fn released_spec(&self) -> nat {
        self.released@
    }

    /// A payload reading from `stream`; nothing is released yet.
    pub fn new(stream: h2::RecvStream) -> (p: Payload)
        ensures
            p.stream_spec() == stream,
            p.requests_spec() == Seq::<usize>::empty(),
            p.released_spec() == 0,
    {
        Payload { stream, requests: Ghost(Seq::empty()), released: Ghost(0) }
    }

    /// The underlying receive stream, to be polled for data.
    pub fn stream_mut(&mut self) -> (s: &mut h2::RecvStream)
        ensures
            *s == old(self).stream_spec(),
            final(self).stream_spec() == *final(s),
            final(self).requests_spec() == old(self).requests_spec(),
            final(self).released_spec() == old(self).released_spec(),
    {
        &mut self.stream
    }

    /// What the payload stream does once its receive stream has produced
    /// `polled`: the end of the stream stays the end, and a stream error
    /// becomes an HTTP/2 payload error; a data chunk is yielded only after
    /// exactly its length of capacity is released back to the peer.
    pub fn on_data(polled: Option<Result<bytes::Bytes, h2::Error>>) -> (step: PayloadStep)
        ensures
            step == (match polled {
                None => PayloadStep::Yield(None),
                Some(Err(err)) => PayloadStep::Yield(Some(Err(PayloadError::Http2Payload(err)))),
                Some(Ok(chunk)) => PayloadStep::Release {
                    chunk,
                    size: bytes_contents(chunk).len() as usize,
                },
            }),
    {
        match polled {
            Some(Ok(chunk)) => {
                let size = bytes_len(&chunk);
                PayloadStep::Release { chunk, size }
            },
            Some(Err(err)) => PayloadStep::Yield(Some(Err(PayloadError::from(err)))),
            None => PayloadStep::Yield(None),
        }
    }

    /// Hands `size` bytes of receive window of the stream back to the peer:
    /// one release of exactly `size` bytes is asked for; on success exactly
    /// `size` more bytes are released, and a failure releases nothing. It fails when `size` exceeds the largest window
    /// size; otherwise the outcome depends on how much the stream has
    /// received and not yet released.
    pub fn release_capacity(&mut self, size: usize) -> (r: Result<(), h2::Error>)
        ensures
            final(self).requests_spec() == old(self).requests_spec().push(size),
            final(self).stream_spec() == old(self).stream_spec(),
            size > MAX_WINDOW_SIZE ==> r is Err,
            r is Ok ==> final(self).released_spec() == old(self).released_spec() + size,
            r is Err ==> final(self).released_spec() == old(self).released_spec(),
    {
        release_stream_capacity(self, size)
    }
}

/// What one poll of the HTTP/2 server handshake produced.
pub enum HandshakePoll<C> {
    /// The handshake completed with this connection.
    Ready(C),
    /// The handshake failed.
    Failed(h2::Error),
    /// The handshake is still in progress.
    Pending,
}

/// What one poll of a timer produced.
#[derive(Clone, Copy, Debug, PartialEq, Eq, Structural)]
pub enum TimerPoll {
    Elapsed,
    Pending,
}

/// What the handshake future answers to a poll.
pub enum HandshakeAnswer<C, B> {
    /// The connection is established; the request timer, if there was one,
    /// is handed on so that it can be reused for keep-alive pings.
    Connected(C, Option<Deadline>),
    /// The handshake failed or timed out.
    Failed(DispatchError<B>),
    /// Not finished yet.
    Pending,
}

/// The next step of the handshake future after its handshake was polled.
pub enum HandshakeStep<C, B> {
    /// Answer the poll with this.
    Answer(HandshakeAnswer<C, B>),
    /// The handshake is pending and a request timer runs: poll the timer
    /// and hand the result to `HandshakeTimeout::on_timer`.
    PollTimer,
}

/// The timeout part of an HTTP/2 handshake: the deadline, if any, by which
/// the client has to complete the handshake.
pub struct HandshakeTimeout {
    pub timer: Option<Deadline>,
}

/// Starts the timeout of an HTTP/2 handshake: the client has until the
/// configured request deadline, or forever when the request timeout is zero.
pub fn handshake_with_timeout(config: &Service2Options) -> (t: HandshakeTimeout)
    ensures
        t.timer is Some <==> config.client_request_timeout_spec()@ != 0,
        t.timer matches Some(d) ==> d.timeout == config.client_request_timeout_spec(),
        exists|now: std::time::Instant| t.timer == #[trigger] config.client_request_deadline_spec(now),
{
    HandshakeTimeout { timer: config.client_request_deadline() }
}

impl HandshakeTimeout {
    /// The step that follows a poll of the handshake that produced `polled`:
    /// a completed handshake hands on the connection with the timer, which
    /// leaves this timeout; a failure answers with the HTTP/2 error; a
    /// pending handshake waits on the timer when there is one.
    pub fn on_handshake<C, B>(&mut self, polled: HandshakePoll<C>) -> (step: HandshakeStep<C, B>)
        ensures
            match polled {
                HandshakePoll::Ready(conn) => {
                    &&& step == HandshakeStep::<C, B>::Answer(
                        HandshakeAnswer::Connected(conn, old(self).timer),
                    )
                    &&& final(self).timer is None
                },
                HandshakePoll::Failed(err) => {
                    &&& step == HandshakeStep::<C, B>::Answer(
                        HandshakeAnswer::Failed(DispatchError::H2(err)),
                    )
                    &&& final(self).timer == old(self).timer
                },
                HandshakePoll::Pending => {
                    &&& step == (if old(self).timer is Some {
                        HandshakeStep::<C, B>::PollTimer
                    } else {
                        HandshakeStep::Answer(HandshakeAnswer::Pending)
                    })
                    &&& final(self).timer == old(self).timer
                },
            },
    {
        match polled {
            HandshakePoll::Ready(conn) => {
                let timer = self.timer.take();
                HandshakeStep::Answer(HandshakeAnswer::Connected(conn, timer))
            },
            HandshakePoll::Failed(err) => HandshakeStep::Answer(
                HandshakeAnswer::Failed(DispatchError::from(err)),
            ),
            HandshakePoll::Pending => match self.timer {
                Some(_) => HandshakeStep::PollTimer,
                None => HandshakeStep::Answer(HandshakeAnswer::Pending),
            },
        }
    }

    /// The answer to a poll whose handshake is pending, once the request
    /// timer produced `polled`.
    pub open spec fn timer_answer_spec<C, B>(&self, polled: TimerPoll) -> HandshakeAnswer<C, B> {
        match (self.timer, polled) {
            (Some(_), TimerPoll::Elapsed) => HandshakeAnswer::Failed(DispatchError::SlowRequestTimeout),
            _ => HandshakeAnswer::Pending,
        }
    }

    /// The answer to a poll whose handshake is pending, once the request
    /// timer produced `polled`: an elapsed timer is a slow-request timeout;
    /// otherwise, and when there is no timer, the handshake keeps waiting.
    pub fn on_timer<C, B>(&self, polled: TimerPoll) -> (answer: HandshakeAnswer<C, B>)
        ensures
            answer == self.timer_answer_spec::<C, B>(polled),
            self.timer is Some && polled is Elapsed ==> answer == HandshakeAnswer::<C, B>::Failed(
                DispatchError::SlowRequestTimeout,
            ),
            self.timer is None || polled is Pending ==> answer is Pending,
    {
        match self.timer {
            Some(_) => match polled {
                TimerPoll::Elapsed => HandshakeAnswer::Failed(DispatchError::SlowRequestTimeout),
                TimerPoll::Pending => HandshakeAnswer::Pending,
            },
            None => HandshakeAnswer::Pending,
        }
    }
}

/// A released chunk is yielded as it is, whatever its length and contents;
/// a failed release yields the release error as an HTTP/2 payload error.
pub proof fn lemma_released_chunk_is_yielded(chunk: bytes::Bytes, released: Result<(), h2::Error>)
    ensures
        released is Ok ==> chunk_item_spec(chunk, released) == Some(
            Ok::<bytes::Bytes, PayloadError>(chunk),
        ),
        released matches Err(err) ==> chunk_item_spec(chunk, released) == Some(
            Err::<bytes::Bytes, PayloadError>(PayloadError::Http2Payload(err)),
        ),
{
}

/// A pending handshake whose request timer has elapsed fails with a
/// slow-request timeout, whatever the timer's deadline; while the timer has
/// not elapsed, or when there is none, the handshake keeps waiting.
pub proof fn lemma_elapsed_timer_fails_handshake<C, B>(t: HandshakeTimeout, polled: TimerPoll)
    ensures
        t.timer is Some && polled is Elapsed ==> t.timer_answer_spec::<C, B>(polled)
            == HandshakeAnswer::<C, B>::Failed(DispatchError::SlowRequestTimeout),
        t.timer is None || polled is Pending ==> t.timer_answer_spec::<C, B>(polled) is Pending,
{
}

/// A handshake whose configuration has a zero request timeout has no timer,
/// and a handshake without a timer never fails with a slow-request timeout,
/// whatever its timer polls would give.
pub proof fn lemma_no_request_timeout_never_times_out<C, B>(
    config: Service2Options,
    t: HandshakeTimeout,
    polled: TimerPoll,
)
    requires
        t.timer is Some <==> config.client_request_timeout_spec()@ != 0,
        config.client_request_timeout_spec()@ == 0,
    ensures
        t.timer is None,
        t.timer_answer_spec::<C, B>(polled) is Pending,
{
}

} // verus!
