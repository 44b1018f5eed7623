use vstd::prelude::*;

use crate::error::{Error, ErrorView, Kind};
use crate::layers::{
    deadline, deadline_of, opt_view, AddOrigin, Request, RequestView, Uri, UriView, UserAgent,
};
use crate::limit::{ConcurrencyLimit, ConcurrencyView, RateLimit, RateView};
use crate::reconnect::{ConnStateView, Readiness, ReadinessView, Reconnect, ReconnectView, Step};

verus! {

/// How to reach an endpoint and which policies to apply to calls to it.
/// Durations and times are in the caller's clock units.
#[derive(Debug)]
pub struct EndpointConfig {
    /// The target.
    pub uri: Uri,
    /// The origin that requests are sent to, if not the target.
    pub origin: Option<Uri>,
    /// The user-agent value that requests carry, if any.
    pub user_agent: Option<String>,
    /// The longest a call may take.
    pub timeout: Option<u64>,
    /// How many calls may be outstanding at once.
    pub concurrency_limit: Option<usize>,
    /// How many calls may be made per period, and the period's length.
    pub rate_limit: Option<(u64, u64)>,
    pub init_stream_window_size: Option<u32>,
    pub init_connection_window_size: Option<u32>,
    pub http2_keep_alive_interval: Option<u64>,
    pub http2_keep_alive_timeout: Option<u64>,
    pub http2_keep_alive_while_idle: Option<bool>,
    pub http2_max_header_list_size: Option<u32>,
    pub http2_adaptive_window: Option<bool>,
}

impl EndpointConfig {
    /// A configuration for `uri` with no policy and no tuning set.
    pub fn new(uri: Uri) -> (r: Self)
        ensures
            r.uri@ == uri@,
            r.origin is None,
            r.user_agent is None,
            r.timeout is None,
            r.concurrency_limit is None,
            r.rate_limit is None,
            r.init_stream_window_size is None,
            r.init_connection_window_size is None,
            r.http2_keep_alive_interval is None,
            r.http2_keep_alive_timeout is None,
            r.http2_keep_alive_while_idle is None,
            r.http2_max_header_list_size is None,
            r.http2_adaptive_window is None,
    {
        EndpointConfig {
            uri,
            origin: None,
            user_agent: None,
            timeout: None,
            concurrency_limit: None,
            rate_limit: None,
            init_stream_window_size: None,
            init_connection_window_size: None,
            http2_keep_alive_interval: None,
            http2_keep_alive_timeout: None,
            http2_keep_alive_while_idle: None,
            http2_max_header_list_size: None,
            http2_adaptive_window: None,
        }
    }

    /// Whether a rate limit, if set, allows at least one call per non-empty
    /// period.
    pub open spec fn wf(&self) -> bool {
        match self.rate_limit {
            Some((num, per)) => num > 0 && per > 0,
            None => true,
        }
    }

    /// The origin that requests are sent to.
    pub open spec fn effective_origin(&self) -> UriView {
        match self.origin {
            Some(o) => o@,
            None => self.uri@,
        }
    }

    /// The channel built for this endpoint at time `now`: the origin, user
    /// agent, timeout and limits configured, no call outstanding, and an
    /// engine that has not connected yet.
    pub open spec fn built(&self, is_lazy: bool, now: nat) -> ConnectionView {
        ConnectionView {
            origin_scheme: self.effective_origin().scheme,
            origin_authority: self.effective_origin().authority,
            user_agent: opt_view(self.user_agent),
            timeout: self.timeout,
            concurrency: match self.concurrency_limit {
                Some(m) => Some(ConcurrencyView { max: m as nat, outstanding: 0 }),
                None => None,
            },
            rate: match self.rate_limit {
                Some((n, p)) => Some(
                    RateView { num: n as nat, per: p as nat, until: now, rem: n as nat, limited: false },
                ),
                None => None,
            },
            engine: ReconnectView { state: ConnStateView::Idle, next_handle: 0, is_lazy },
            permit: false,
            ready: false,
        }
    }
}

/// What a [`Connection`] holds.
pub ghost struct ConnectionView {
    pub origin_scheme: Option<Seq<char>>,
    pub origin_authority: Option<Seq<char>>,
    pub user_agent: Option<Seq<char>>,
    pub timeout: Option<u64>,
    pub concurrency: Option<ConcurrencyView>,
    pub rate: Option<RateView>,
    pub engine: ReconnectView,
    /// Whether a concurrency slot was taken by a readiness check for a call
    /// not made yet.
    pub permit: bool,
    /// Whether the last readiness check reported `Ready` and no call was
    /// made since.
    pub ready: bool,
}

impl ConnectionView {
    /// A held slot is counted by the limiter, the limiter is within its
    /// bound, and a connection reported ready holds a slot (if limited), has
    /// rate budget (if limited) and a live dispatcher.
    pub open spec fn inv(self) -> bool {
        &&& match self.concurrency {
            Some(c) => c.outstanding <= c.max && (self.permit ==> c.outstanding > 0),
            None => !self.permit,
        }
        &&& self.engine.wf()
        &&& self.ready ==> {
            &&& self.engine.state is Connected
            &&& (self.concurrency is Some ==> self.permit)
            &&& match self.rate {
                Some(r) => !r.limited,
                None => true,
            }
        }
    }

    /// The state after a call at time `now` has been let through: its slot
    /// turns from held for a call into outstanding, its rate budget is spent,
    /// and a new readiness check is needed.
    pub open spec fn after_call(self, now: nat) -> ConnectionView {
        ConnectionView {
            rate: match self.rate {
                Some(rv) => Some(rv.call(now)),
                None => None,
            },
            permit: false,
            ready: false,
            ..self
        }
    }

    /// The state after an outstanding call has completed: its slot is freed,
    /// unless every counted slot is the one held for a call not made yet.
    pub open spec fn complete(self) -> ConnectionView {
        let held: nat = if self.permit { 1 } else { 0 };
        match self.concurrency {
            Some(c) => if c.outstanding > held {
                ConnectionView { concurrency: Some(c.release()), ..self }
            } else {
                self
            },
            None => self,
        }
    }

    /// One readiness check at time `now`, through the concurrency limit, the
    /// rate limit and the reconnect engine in turn, each stopping the check
    /// while it holds it back. Gives the next state, what the check reports,
    /// and whether a connect attempt is to start.
    pub open spec fn poll(self, now: nat, signal: ReadinessView) -> (
        ConnectionView,
        ReadinessView,
        bool,
    ) {
        let slot = self.concurrency is None || self.permit || self.concurrency->0.admits();
        if !slot {
            (ConnectionView { ready: false, ..self }, ReadinessView::Pending, false)
        } else {
            let s1 = ConnectionView {
                concurrency: if self.permit || self.concurrency is None {
                    self.concurrency
                } else {
                    Some(self.concurrency->0.acquire())
                },
                permit: self.concurrency is Some,
                ..self
            };
            if s1.rate is Some && !s1.rate->0.admits(now) {
                (ConnectionView { ready: false, ..s1 }, ReadinessView::Pending, false)
            } else {
                let s2 = ConnectionView {
                    rate: match s1.rate {
                        Some(rv) => Some(rv.poll(now)),
                        None => None,
                    },
                    ..s1
                };
                let (e, rd, c) = s2.engine.poll(signal);
                (ConnectionView { engine: e, ready: rd == ReadinessView::Ready, ..s2 }, rd, c)
            }
        }
    }

    /// `req` as it leaves the policy layers towards the dispatcher: with the
    /// origin's scheme and authority and, if configured, the user agent.
    pub open spec fn outgoing(self, req: RequestView) -> RequestView {
        RequestView {
            uri: UriView {
                scheme: self.origin_scheme,
                authority: self.origin_authority,
                ..req.uri
            },
            user_agent: match self.user_agent {
                Some(v) => Some(v),
                None => req.user_agent,
            },
        }
    }
}

/// A call let through the policy layers: the request to send, the handle of
/// the dispatcher to send it on, and when it times out.
#[derive(Debug)]
pub struct Dispatch {
    pub request: Request,
    pub handle: u64,
    pub deadline: Option<u64>,
    /// Whether the call holds a concurrency slot, to be given back through
    /// [`Connection::complete`] when it completes.
    pub holds_slot: bool,
}

/// One logical channel to an endpoint: the policy layers around a reconnect
/// engine, behind one two-phase interface (a readiness check, then a call).
#[derive(Debug)]
pub struct Connection {
    origin: AddOrigin,
    user_agent: UserAgent,
    timeout: Option<u64>,
    concurrency: Option<ConcurrencyLimit>,
    rate: Option<RateLimit>,
    engine: Reconnect,
    permit: bool,
    ready: bool,
}

impl View for Connection {
    type V = ConnectionView;

    closed spec fn view(&self) -> ConnectionView {
        ConnectionView {
            origin_scheme: self.origin.spec_scheme(),
            origin_authority: self.origin.spec_authority(),
            user_agent: self.user_agent.spec_value(),
            timeout: self.timeout,
            concurrency: match self.concurrency {
                Some(c) => Some(c@),
                None => None,
            },
            rate: match self.rate {
                Some(r) => Some(r@),
                None => None,
            },
            engine: self.engine@,
            permit: self.permit,
            ready: self.ready,
        }
    }
}

impl Connection {
    /// Well-formed: a held slot is counted by the limiter, and a connection
    /// reported ready can take a call.
    pub open spec fn wf(&self) -> bool {
        self@.inv()
    }

    /// Builds the layers for `endpoint` at time `now`, with a reconnect engine
    /// that has not connected yet. Fails with an invalid-user-agent error,
    /// before anything else is done, if the user agent cannot be a header value.
    pub fn new(endpoint: &EndpointConfig, is_lazy: bool, now: u64) -> (r: Result<Self, Error>)
        requires
            endpoint.wf(),
        ensures
            match r {
                Ok(c) => {
                    &&& c.wf()
                    &&& endpoint.user_agent matches Some(ua) ==> crate::layers::is_header_value(ua@)
                    &&& c@ == endpoint.built(is_lazy, now as nat)
                },
                Err(e) => {
                    &&& endpoint.user_agent matches Some(ua) && !crate::layers::is_header_value(ua@)
                    &&& e@ == ErrorView::of_kind(Kind::InvalidUserAgent)
                },
            },
    {
        let ua = match &endpoint.user_agent {
            Some(s) => Some(s.as_str()),
            None => None,
        };
        let user_agent = match UserAgent::new(ua) {
            Ok(u) => u,
            Err(e) => return Err(e),
        };
        let origin = match &endpoint.origin {
            Some(o) => AddOrigin::new(o),
            None => AddOrigin::new(&endpoint.uri),
        };
        let concurrency = match endpoint.concurrency_limit {
            Some(m) => Some(ConcurrencyLimit::new(m)),
            None => None,
        };
        let rate = match endpoint.rate_limit {
            Some((n, p)) => Some(RateLimit::new(n, p, now)),
            None => None,
        };
        Ok(Connection {
            origin,
            user_agent,
            timeout: endpoint.timeout,
            concurrency,
            rate,
            engine: Reconnect::new(is_lazy),
            permit: false,
            ready: false,
        })
    }

    /// Builds a connection that makes no connect attempt until its first
    /// readiness check.
    pub fn lazy(endpoint: &EndpointConfig, now: u64) -> (r: Result<Self, Error>)
        requires
            endpoint.wf(),
        ensures
            match r {
                Ok(c) => {
                    &&& c.wf()
                    &&& endpoint.user_agent matches Some(ua) ==> crate::layers::is_header_value(ua@)
                    &&& c@ == endpoint.built(true, now as nat)
                },
                Err(e) => {
                    &&& endpoint.user_agent matches Some(ua) && !crate::layers::is_header_value(ua@)
                    &&& e@ == ErrorView::of_kind(Kind::InvalidUserAgent)
                },
            },
    {
        Connection::new(endpoint, true, now)
    }

    /// One readiness check at time `now`; see [`ConnectionView::poll`].
    /// `signal` is what the caller observed of the connect attempt in flight
    /// or of the current dispatcher.
    pub fn poll_ready(&mut self, now: u64, signal: Readiness) -> (r: Step)
        requires
            old(self).wf(),
            old(self)@.engine.next_handle < u64::MAX,
        ensures
            final(self).wf(),
            (final(self)@, r.readiness@, r.connect) == old(self)@.poll(now as nat, signal@),
    {
        if !self.permit {
            match &mut self.concurrency {
                Some(c) => {
                    if !c.poll_ready() {
                        self.ready = false;
                        return Step { readiness: Readiness::Pending, connect: false };
                    }
                    self.permit = true;
                },
                None => {},
            }
        }
        match &mut self.rate {
            Some(rl) => {
                if !rl.poll_ready(now) {
                    self.ready = false;
                    return Step { readiness: Readiness::Pending, connect: false };
                }
            },
            None => {},
        }
        let step = self.engine.poll_ready(signal);
        self.ready = match step.readiness {
            Readiness::Ready => true,
            _ => false,
        };
        step
    }

    /// Whether a readiness check may be made: the engine has handles left
    /// to give a new connection.
    pub fn can_poll(&self) -> (r: bool)
        ensures
            r == (self@.engine.next_handle < u64::MAX),
    {
        self.engine.can_poll()
    }

    /// Whether the last readiness check reported `Ready` and no call was made
    /// since.
    pub fn is_ready(&self) -> (r: bool)
        ensures
            r == self@.ready,
    {
        self.ready
    }

    /// A call at time `now`, after a readiness check that reported `Ready`.
    /// Gives the request as the layers send it, on the current dispatcher,
    /// with its deadline; or, if the origin lacks a scheme or an authority, an
    /// invalid-URI error and the connection left as it was.
    pub fn call(&mut self, req: Request, now: u64) -> (r: Result<Dispatch, Error>)
        requires
            old(self).wf(),
            old(self)@.ready,
        ensures
            final(self).wf(),
            match r {
                Ok(d) => {
                    &&& old(self)@.origin_scheme is Some
                    &&& old(self)@.origin_authority is Some
                    &&& d.request@ == old(self)@.outgoing(req@)
                    &&& old(self)@.engine.state == ConnStateView::Connected(d.handle)
                    &&& d.deadline == deadline_of(now, old(self)@.timeout)
                    &&& d.holds_slot == old(self)@.concurrency is Some
                    &&& final(self)@ == old(self)@.after_call(now as nat)
                },
                Err(e) => {
                    &&& (old(self)@.origin_scheme is None || old(self)@.origin_authority is None)
                    &&& e@ == ErrorView::of_kind(Kind::InvalidUri)
                    &&& final(self)@ == old(self)@
                },
            },
    {
        let req = match self.origin.call(req) {
            Ok(r) => r,
            Err(e) => return Err(e),
        };
        let req = self.user_agent.call(req);
        let deadline = deadline(now, self.timeout);
        let holds_slot = self.concurrency.is_some();
        self.permit = false;
        match &mut self.rate {
            Some(rl) => rl.call(now),
            None => {},
        }
        self.ready = false;
        let handle = self.engine.current_handle();
        Ok(Dispatch { request: req, handle, deadline, holds_slot })
    }

    /// Gives back the concurrency slot of a call that has completed (with a
    /// response, with an error, or abandoned). Slots held for calls not made
    /// yet are kept.
    pub fn complete(&mut self)
        requires
            old(self).wf(),
        ensures
            final(self).wf(),
            final(self)@ == old(self)@.complete(),
    {
        let keep: usize = if self.permit {
            1
        } else {
            0
        };
        match &mut self.concurrency {
            Some(c) => {
                if c.outstanding() > keep {
                    c.release();
                }
            },
            None => {},
        }
    }

    /// The load reported to a balancer: a constant baseline.
    pub fn load(&self) -> (r: usize)
        ensures
            r == 0,
    {
        0
    }
}

/// Every request that a call hands to the reconnect engine carries the
/// configured origin's scheme and authority, and the configured user agent if
/// one is set; its path is the caller's, and no layer changes these values.
pub proof fn lemma_outgoing_carries_origin(c: ConnectionView, req: RequestView)
    ensures
        c.outgoing(req).uri.scheme == c.origin_scheme,
        c.outgoing(req).uri.authority == c.origin_authority,
        c.outgoing(req).uri.path_and_query == req.uri.path_and_query,
        c.user_agent is Some ==> c.outgoing(req).user_agent == c.user_agent,
        c.user_agent is None ==> c.outgoing(req).user_agent == req.user_agent,
        c.outgoing(c.outgoing(req)) == c.outgoing(req),
{
}

/// A channel whose dispatcher is live and ready, with budget left under
/// its rate limit, if any.
pub open spec fn live_with_budget(v: ConnectionView, now: nat) -> bool {
    &&& v.engine.state is Connected
    &&& v.engine.next_handle < u64::MAX
    &&& (v.rate is Some ==> v.rate->0.admits(now))
}

/// With fewer calls outstanding than the concurrency limit allows (or a slot
/// already held), a readiness check of a live channel reports `Ready` at
/// once: none of the outstanding calls has to complete first.
pub proof fn lemma_connection_admits_below_limit(v: ConnectionView, now: nat)
    requires
        v.inv(),
        live_with_budget(v, now),
        v.concurrency is Some,
        v.permit || v.concurrency->0.outstanding < v.concurrency->0.max,
    ensures
        v.poll(now, ReadinessView::Ready).1 == ReadinessView::Ready,
        !v.poll(now, ReadinessView::Ready).2,
        v.poll(now, ReadinessView::Ready).0.inv(),
        v.poll(now, ReadinessView::Ready).0.permit,
{
}

/// While as many calls are outstanding as the concurrency limit allows, a
/// readiness check of the channel reports `Pending` (never a failure),
/// starts no connect attempt and changes nothing but the ready flag, whatever
/// it observed; so it keeps reporting `Pending` for as long as they stay
/// outstanding.
pub proof fn lemma_connection_limit_holds_back(
    v: ConnectionView,
    now: nat,
    later: nat,
    signal: ReadinessView,
    signal2: ReadinessView,
)
    requires
        v.concurrency is Some,
        !v.permit,
        v.concurrency->0.outstanding == v.concurrency->0.max,
    ensures
        v.poll(now, signal).1 == ReadinessView::Pending,
        !v.poll(now, signal).2,
        v.poll(now, signal).0 == (ConnectionView { ready: false, ..v }),
        v.poll(now, signal).0.poll(later, signal2).1 == ReadinessView::Pending,
{
}

/// When one of the outstanding calls of a channel at its concurrency limit
/// completes (with a response, an error, or abandoned), its slot is freed,
/// and the next readiness check of the live channel reports `Ready`.
pub proof fn lemma_connection_complete_frees_slot(v: ConnectionView, now: nat)
    requires
        v.inv(),
        live_with_budget(v, now),
        v.concurrency is Some,
        !v.permit,
        v.concurrency->0.outstanding == v.concurrency->0.max,
        v.concurrency->0.max > 0,
    ensures
        v.complete().concurrency == Some(v.concurrency->0.release()),
        v.complete().inv(),
        v.complete().poll(now, ReadinessView::Ready).1 == ReadinessView::Ready,
{
}

/// A channel with one slot: after a call, the next readiness check reports
/// `Pending` while that call is outstanding, and `Ready` once it completes.
pub proof fn lemma_single_slot_scenario(v: ConnectionView, t0: nat, t1: nat, t2: nat)
    requires
        v.inv(),
        v.ready,
        v.concurrency == Some(ConcurrencyView { max: 1, outstanding: 1 }),
        v.rate is None,
        v.engine.next_handle < u64::MAX,
    ensures
        ({
            let after = v.after_call(t0);
            &&& after.inv()
            &&& after.poll(t1, ReadinessView::Ready).1 == ReadinessView::Pending
            &&& after.poll(t1, ReadinessView::Ready).0.complete().poll(
                t2,
                ReadinessView::Ready,
            ).1 == ReadinessView::Ready
        }),
{
}

/// When the dispatcher of a live channel reports a terminal failure, the
/// next readiness check of the same channel starts exactly one connect
/// attempt and reports `Pending`; once that attempt succeeds, the check
/// after it reports `Ready`.
pub proof fn lemma_connection_reconnects(v: ConnectionView, now: nat, e: ErrorView)
    requires
        v.inv(),
        live_with_budget(v, now),
        v.concurrency is None || v.permit || v.concurrency->0.admits(),
    ensures
        ({
            let (v1, r1, c1) = v.poll(now, ReadinessView::Failed(e));
            &&& r1 == ReadinessView::Pending
            &&& c1
            &&& v1.engine.state == ConnStateView::Connecting
            &&& v1.inv()
            &&& (v1.rate is Some ==> v1.rate->0.admits(now))
            &&& !v1.poll(now, ReadinessView::Ready).2
            &&& v1.poll(now, ReadinessView::Ready).1 == ReadinessView::Ready
        }),
{
}

/// The deadline of a call started at `t0` under a timeout `d` is `t0 + d`
/// (held at the largest `u64`), so a call still running at that time is ended
/// by the timeout layer then, never later.
pub proof fn lemma_deadline_bound(t0: u64, d: u64)
    ensures
        deadline_of(t0, Some(d)) matches Some(x) && x <= t0 + d && x >= t0,
        t0 + d <= u64::MAX ==> deadline_of(t0, Some(d)) == Some((t0 + d) as u64),
        deadline_of(t0, None) is None,
{
}

/// A request let through a channel built for `endpoint` carries the
/// endpoint's origin (its own target when none is set) and, when set, its
/// user agent; its path is the caller's.
pub proof fn lemma_built_channel_sends_to_origin(
    endpoint: EndpointConfig,
    is_lazy: bool,
    now: nat,
    req: RequestView,
)
    ensures
        ({
            let out = endpoint.built(is_lazy, now).outgoing(req);
            &&& out.uri.scheme == endpoint.effective_origin().scheme
            &&& out.uri.authority == endpoint.effective_origin().authority
            &&& out.uri.path_and_query == req.uri.path_and_query
            &&& (endpoint.user_agent matches Some(ua) ==> out.user_agent == Some(ua@))
            &&& (endpoint.user_agent is None ==> out.user_agent == req.user_agent)
        }),
{
}

/// A channel built lazily has no connect attempt in flight, and its first
/// readiness check starts exactly one, with no slot or rate budget spent on
/// a call.
pub proof fn lemma_lazy_first_check_connects(
    endpoint: EndpointConfig,
    now: nat,
    signal: ReadinessView,
)
    requires
        endpoint.concurrency_limit matches Some(m) ==> m > 0,
    ensures
        endpoint.built(true, now).engine.state == ConnStateView::Idle,
        endpoint.built(true, now).inv(),
        ({
            let (v1, r1, c1) = endpoint.built(true, now).poll(now, signal);
            &&& c1
            &&& r1 == ReadinessView::Pending
            &&& v1.engine.state == ConnStateView::Connecting
        }),
{
}

} // verus!
