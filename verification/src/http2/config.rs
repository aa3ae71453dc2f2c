//! HTTP/2 service configuration: keep-alive policy and client timeouts.
use vstd::prelude::*;

use crate::time::{clock_now, Deadline, Duration};

verus! {

/// Connection keep-alive policy.
#[derive(Clone, Copy, Debug, PartialEq, Eq, Structural)]
pub enum KeepAlive {
    /// Keep-alive duration. A zero duration is mapped to `Disabled`.
    Timeout(Duration),
    /// Rely on the OS to shut down the TCP connection.
    Os,
    /// Keep-alive is disabled: connections are closed immediately.
    Disabled,
}

impl KeepAlive {
    /// The policy with a zero timeout mapped to `Disabled`.
    pub open spec fn normalized(self) -> KeepAlive {
        match self {
            KeepAlive::Timeout(d) => if d@ == 0 {
                KeepAlive::Disabled
            } else {
                self
            },
            _ => self,
        }
    }

    /// A policy is normal when it is not a zero timeout.
    pub open spec fn is_normal(self) -> bool {
        !(self matches KeepAlive::Timeout(d) && d@ == 0)
    }

    /// The keep-alive timeout of the policy, when it has one.
    pub open spec fn duration_spec(self) -> Option<Duration> {
        match self {
            KeepAlive::Timeout(d) => Some(d),
            _ => None,
        }
    }

    /// Whether keep-alive is enabled (anything but `Disabled`).
    pub fn enabled(&self) -> (b: bool)
        ensures
            b == !(*self is Disabled),
    {
        !matches!(self, KeepAlive::Disabled)
    }

    /// The keep-alive timeout, when the policy has one.
    pub fn duration(&self) -> (r: Option<Duration>)
        ensures
            r == self.duration_spec(),
            *self matches KeepAlive::Timeout(d) ==> r == Some(d),
            !(*self is Timeout) ==> r is None,
    {
        match self {
            KeepAlive::Timeout(dur) => Some(*dur),
            _ => None,
        }
    }

    /// Maps a zero timeout to `Disabled`; every other policy is kept.
    pub fn normalize(self) -> (r: KeepAlive)
        ensures
            r == self.normalized(),
            self matches KeepAlive::Timeout(d) && d@ != 0 ==> r == self,
            self matches KeepAlive::Timeout(d) && d@ == 0 ==> r == KeepAlive::Disabled,
            !(self is Timeout) ==> r == self,
    {
        match self {
            KeepAlive::Timeout(d) => if d.is_zero() {
                KeepAlive::Disabled
            } else {
                self
            },
            ka => ka,
        }
    }
}

impl Default for KeepAlive {
    /// A five-second keep-alive timeout.
    fn default() -> (ka: KeepAlive)
        ensures
            ka == KeepAlive::Timeout(Duration::from_secs_spec(5)),
    {
        KeepAlive::Timeout(Duration::from_secs(5))
    }
}

impl From<Duration> for KeepAlive {
    /// A timeout of `dur`, or `Disabled` when `dur` is zero.
    fn from(dur: Duration) -> (ka: KeepAlive)
        ensures
            dur@ != 0 ==> ka == KeepAlive::Timeout(dur),
            dur@ == 0 ==> ka == KeepAlive::Disabled,
    {
        KeepAlive::Timeout(dur).normalize()
    }
}

impl vstd::std_specs::convert::FromSpecImpl<Duration> for KeepAlive {
    open spec fn obeys_from_spec() -> bool {
        true
    }

    open spec fn from_spec(dur: Duration) -> KeepAlive {
        KeepAlive::Timeout(dur).normalized()
    }
}

impl From<Option<Duration>> for KeepAlive {
    /// A timeout of the given duration, or `Disabled` when there is none
    /// or it is zero.
    fn from(ka_dur: Option<Duration>) -> (ka: KeepAlive)
        ensures
            ka_dur is Some && ka_dur.unwrap()@ != 0 ==> ka == KeepAlive::Timeout(ka_dur.unwrap()),
            ka_dur is Some && ka_dur.unwrap()@ == 0 ==> ka == KeepAlive::Disabled,
            ka_dur is None ==> ka == KeepAlive::Disabled,
    {
        match ka_dur {
            Some(dur) => KeepAlive::from(dur),
            None => KeepAlive::Disabled,
        }.normalize()
    }
}

impl vstd::std_specs::convert::FromSpecImpl<Option<Duration>> for KeepAlive {
    open spec fn obeys_from_spec() -> bool {
        true
    }

    open spec fn from_spec(ka_dur: Option<Duration>) -> KeepAlive {
        match ka_dur {
            Some(dur) => KeepAlive::Timeout(dur).normalized(),
            None => KeepAlive::Disabled,
        }
    }
}

/// HTTP service configuration: the keep-alive policy and the time a client
/// has to send its first request and to disconnect.
#[derive(Clone, Copy, Debug)]
pub struct Service2Options {
    keep_alive: KeepAlive,
    client_request_timeout: Duration,
    client_disconnect_timeout: Duration,
}

impl Service2Options {
    #[verifier::type_invariant]
    spec fn keep_alive_is_normal(self) -> bool {
        self.keep_alive.is_normal()
    }

    /// The configured keep-alive policy.
    pub closed spec fn keep_alive_spec(self) -> KeepAlive {
        self.keep_alive
    }

    /// The time a client has to send the head of its first request.
    pub closed spec fn client_request_timeout_spec(self) -> Duration {
        self.client_request_timeout
    }

    /// The time a client has to disconnect.
    pub closed spec fn client_disconnect_timeout_spec(self) -> Duration {
        self.client_disconnect_timeout
    }

    /// Creates a configuration; a zero keep-alive timeout is stored as
    /// `KeepAlive::Disabled`.
    pub fn new(
        keep_alive: KeepAlive,
        client_request_timeout: Duration,
        client_disconnect_timeout: Duration,
    ) -> (opts: Service2Options)
        ensures
            opts.keep_alive_spec() == keep_alive.normalized(),
            opts.client_request_timeout_spec() == client_request_timeout,
            opts.client_disconnect_timeout_spec() == client_disconnect_timeout,
    {
        Service2Options {
            keep_alive: keep_alive.normalize(),
            client_request_timeout,
            client_disconnect_timeout,
        }
    }

    /// The connection keep-alive policy.
    pub fn keep_alive(&self) -> (ka: KeepAlive)
        ensures
            ka == self.keep_alive_spec(),
            ka.is_normal(),
    {
        proof {
            use_type_invariant(self);
        }
        self.keep_alive
    }

    /// The keep-alive deadline measured from the clock reading `now`.
    pub open spec fn keep_alive_deadline_spec(self, now: std::time::Instant) -> Option<Deadline> {
        match self.keep_alive_spec() {
            KeepAlive::Timeout(dur) => Some(Deadline { start: now, timeout: dur }),
            _ => None,
        }
    }

    /// The keep-alive deadline measured from the clock reading `now`: the
    /// keep-alive timeout after `now`, or `None` under `KeepAlive::Os` and
    /// `KeepAlive::Disabled`.
    pub fn keep_alive_deadline_from(&self, now: std::time::Instant) -> (r: Option<Deadline>)
        ensures
            r == self.keep_alive_deadline_spec(now),
            self.keep_alive_spec() matches KeepAlive::Timeout(dur) ==> r == Some(
                Deadline { start: now, timeout: dur },
            ),
            !(self.keep_alive_spec() is Timeout) ==> r is None,
    {
        match self.keep_alive() {
            KeepAlive::Timeout(dur) => Some(Deadline { start: now, timeout: dur }),
            KeepAlive::Os => None,
            KeepAlive::Disabled => None,
        }
    }

    /// The deadline of the keep-alive period of a connection, measured from
    /// the moment of the call; `None` under `KeepAlive::Os` and
    /// `KeepAlive::Disabled`.
    pub fn keep_alive_deadline(&self) -> (r: Option<Deadline>)
        ensures
            r is Some <==> self.keep_alive_spec() is Timeout,
            r matches Some(d) ==> self.keep_alive_spec() == KeepAlive::Timeout(d.timeout),
            r matches Some(d) ==> d.timeout@ > 0,
            exists|now: std::time::Instant| r == #[trigger] self.keep_alive_deadline_spec(now),
    {
        let now = clock_now();
        proof {
            use_type_invariant(self);
        }
        let r = self.keep_alive_deadline_from(now);
        assert(r == self.keep_alive_deadline_spec(now));
        r
    }

    /// The deadline by which a client has to send the head of its first
    /// request, measured from the clock reading `now`.
    pub open spec fn client_request_deadline_spec(self, now: std::time::Instant) -> Option<Deadline> {
        if self.client_request_timeout_spec()@ == 0 {
            None
        } else {
            Some(Deadline { start: now, timeout: self.client_request_timeout_spec() })
        }
    }

    /// The deadline by which a client has to disconnect, measured from the
    /// clock reading `now`.
    pub open spec fn client_disconnect_deadline_spec(self, now: std::time::Instant) -> Option<Deadline> {
        if self.client_disconnect_timeout_spec()@ == 0 {
            None
        } else {
            Some(Deadline { start: now, timeout: self.client_disconnect_timeout_spec() })
        }
    }

    /// The deadline for a client to send the head of its first request,
    /// measured from the clock reading `now`; `None` when the request
    /// timeout is zero.
    pub fn client_request_deadline_from(&self, now: std::time::Instant) -> (r: Option<Deadline>)
        ensures
            r == self.client_request_deadline_spec(now),
            self.client_request_timeout_spec()@ == 0 ==> r is None,
            self.client_request_timeout_spec()@ != 0 ==> r == Some(
                Deadline { start: now, timeout: self.client_request_timeout_spec() },
            ),
    {
        let timeout = self.client_request_timeout;
        if timeout.is_zero() {
            None
        } else {
            Some(Deadline { start: now, timeout })
        }
    }

    /// The deadline for a client to send the head of its first request,
    /// measured from the moment of the call; `None` when the request timeout
    /// is zero.
    pub fn client_request_deadline(&self) -> (r: Option<Deadline>)
        ensures
            r is Some <==> self.client_request_timeout_spec()@ != 0,
            r matches Some(d) ==> d.timeout == self.client_request_timeout_spec(),
            exists|now: std::time::Instant| r == #[trigger] self.client_request_deadline_spec(now),
    {
        let now = clock_now();
        let r = self.client_request_deadline_from(now);
        assert(r == self.client_request_deadline_spec(now));
        r
    }

    /// The deadline for a client to disconnect, measured from the clock
    /// reading `now`; `None` when the disconnect timeout is zero.
    pub fn client_disconnect_deadline_from(&self, now: std::time::Instant) -> (r: Option<Deadline>)
        ensures
            r == self.client_disconnect_deadline_spec(now),
            self.client_disconnect_timeout_spec()@ == 0 ==> r is None,
            self.client_disconnect_timeout_spec()@ != 0 ==> r == Some(
                Deadline { start: now, timeout: self.client_disconnect_timeout_spec() },
            ),
    {
        let timeout = self.client_disconnect_timeout;
        if timeout.is_zero() {
            None
        } else {
            Some(Deadline { start: now, timeout })
        }
    }

    /// The deadline for a client to disconnect, measured from the moment of
    /// the call; `None` when the disconnect timeout is zero.
    pub fn client_disconnect_deadline(&self) -> (r: Option<Deadline>)
        ensures
            r is Some <==> self.client_disconnect_timeout_spec()@ != 0,
            r matches Some(d) ==> d.timeout == self.client_disconnect_timeout_spec(),
            exists|now: std::time::Instant| r == #[trigger] self.client_disconnect_deadline_spec(now),
    {
        let now = clock_now();
        let r = self.client_disconnect_deadline_from(now);
        assert(r == self.client_disconnect_deadline_spec(now));
        r
    }
}

impl Default for Service2Options {
    /// A five-second keep-alive timeout, a five-second request timeout and
    /// no disconnect timeout.
    fn default() -> (opts: Service2Options)
        ensures
            opts.keep_alive_spec() == KeepAlive::Timeout(Duration::from_secs_spec(5)),
            opts.client_request_timeout_spec() == Duration::from_secs_spec(5),
            opts.client_disconnect_timeout_spec()@ == 0,
    {
        Self::new(KeepAlive::default(), Duration::from_secs(5), Duration::zero())
    }
}

/// Normalizing twice is normalizing once.
pub proof fn lemma_normalize_idempotent(ka: KeepAlive)
    ensures
        ka.normalized().normalized() == ka.normalized(),
{
}

/// A normalized policy is never a zero timeout, and every policy that is
/// not a zero timeout is left as it is.
pub proof fn lemma_normalize_removes_only_zero_timeouts(ka: KeepAlive)
    ensures
        ka.normalized().is_normal(),
        ka.is_normal() ==> ka.normalized() == ka,
        !ka.is_normal() ==> ka.normalized() == KeepAlive::Disabled,
{
}

/// Building a policy from a duration, with or without `Option`, gives the
/// same policy; and a policy built from a duration is normal.
pub proof fn lemma_from_duration_agrees(dur: Duration)
    ensures
        <KeepAlive as vstd::std_specs::convert::FromSpec<Option<Duration>>>::from_spec(Some(dur))
            == <KeepAlive as vstd::std_specs::convert::FromSpec<Duration>>::from_spec(dur),
        <KeepAlive as vstd::std_specs::convert::FromSpec<Duration>>::from_spec(dur).is_normal(),
{
}

/// A policy built from a duration that is not empty times out after exactly
/// that duration, however short; only the empty duration, or none at all,
/// disables keep-alive.
pub proof fn lemma_from_duration_keeps_nonzero(dur: Duration)
    ensures
        dur@ != 0 ==> <KeepAlive as vstd::std_specs::convert::FromSpec<Duration>>::from_spec(dur)
            == KeepAlive::Timeout(dur),
        dur@ == 0 ==> <KeepAlive as vstd::std_specs::convert::FromSpec<Duration>>::from_spec(dur)
            == KeepAlive::Disabled,
        dur@ != 0 ==> <KeepAlive as vstd::std_specs::convert::FromSpec<Option<Duration>>>::from_spec(
            Some(dur),
        ) == KeepAlive::Timeout(dur),
        dur@ == 0 ==> <KeepAlive as vstd::std_specs::convert::FromSpec<Option<Duration>>>::from_spec(
            Some(dur),
        ) == KeepAlive::Disabled,
        <KeepAlive as vstd::std_specs::convert::FromSpec<Option<Duration>>>::from_spec(None)
            == KeepAlive::Disabled,
{
}

/// A configuration keeps the normalized keep-alive policy it was built with,
/// and that policy is never a zero timeout.
pub proof fn lemma_new_keeps_normalized_keep_alive(keep_alive: KeepAlive, opts: Service2Options)
    requires
        opts.keep_alive_spec() == keep_alive.normalized(),
    ensures
        opts.keep_alive_spec().is_normal(),
        keep_alive.is_normal() ==> opts.keep_alive_spec() == keep_alive,
{
}

/// A keep-alive deadline exists exactly when the keep-alive policy has a
/// duration, and it lies that duration after the clock reading; keep-alive
/// is then enabled.
pub proof fn lemma_keep_alive_deadline_follows_duration(opts: Service2Options, now: std::time::Instant)
    ensures
        opts.keep_alive_deadline_spec(now) is Some <==> opts.keep_alive_spec().duration_spec() is Some,
        opts.keep_alive_deadline_spec(now) matches Some(d) ==> {
            &&& d.start == now
            &&& Some(d.timeout) == opts.keep_alive_spec().duration_spec()
            &&& !(opts.keep_alive_spec() is Disabled)
        },
{
}

/// A zero client timeout means no deadline at all; any other timeout gives
/// a deadline that lies exactly that timeout after the clock reading.
pub proof fn lemma_client_deadlines_follow_timeouts(opts: Service2Options, now: std::time::Instant)
    ensures
        opts.client_request_deadline_spec(now) is None <==> opts.client_request_timeout_spec()@ == 0,
        opts.client_disconnect_deadline_spec(now) is None <==> opts.client_disconnect_timeout_spec()@
            == 0,
        opts.client_request_deadline_spec(now) matches Some(d) ==> d.start == now && d.timeout
            == opts.client_request_timeout_spec(),
        opts.client_disconnect_deadline_spec(now) matches Some(d) ==> d.start == now && d.timeout
            == opts.client_disconnect_timeout_spec(),
{
}

} // verus!
