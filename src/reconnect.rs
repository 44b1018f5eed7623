use vstd::prelude::*;

use crate::error::{Error, ErrorView};

verus! {

/// The outcome of a readiness check, or what the caller observed when it
/// polled a connect attempt or a dispatcher.
#[derive(Debug)]
pub enum Readiness {
    /// A call can be made now.
    Ready,
    /// Not yet: check again later.
    Pending,
    /// Failed, for the reason given.
    Failed(Error),
}

/// What a [`Readiness`] holds.
pub ghost enum ReadinessView {
    Ready,
    Pending,
    Failed(ErrorView),
}

impl View for Readiness {
    type V = ReadinessView;

    open spec fn view(&self) -> ReadinessView {
        match self {
            Readiness::Ready => ReadinessView::Ready,
            Readiness::Pending => ReadinessView::Pending,
            Readiness::Failed(e) => ReadinessView::Failed(e@),
        }
    }
}

/// The state of the connection that a [`Reconnect`] engine manages.
#[derive(Debug)]
pub enum ConnState {
    /// No connect attempt made yet, or the last connection was dropped.
    Idle,
    /// A connect attempt is in flight.
    Connecting,
    /// Connected: calls go to the dispatcher with this handle.
    Connected(u64),
    /// The last connect attempt failed.
    Failed(Error),
}

/// What a [`ConnState`] holds.
pub ghost enum ConnStateView {
    Idle,
    Connecting,
    Connected(u64),
    Failed(ErrorView),
}

impl View for ConnState {
    type V = ConnStateView;

    open spec fn view(&self) -> ConnStateView {
        match self {
            ConnState::Idle => ConnStateView::Idle,
            ConnState::Connecting => ConnStateView::Connecting,
            ConnState::Connected(h) => ConnStateView::Connected(*h),
            ConnState::Failed(e) => ConnStateView::Failed(e@),
        }
    }
}

/// What a [`Reconnect`] engine holds: its state, the handle that the next
/// connection will get, and whether it was built lazily.
pub ghost struct ReconnectView {
    pub state: ConnStateView,
    pub next_handle: u64,
    pub is_lazy: bool,
}

/// The outcome of one readiness check of the engine.
#[derive(Debug)]
pub struct Step {
    /// What the check reports to its caller.
    pub readiness: Readiness,
    /// Whether the caller is to start a new connect attempt, whose progress
    /// it reports at the next checks.
    pub connect: bool,
}

impl ReconnectView {
    /// Handles already given out are below `next_handle`.
    pub open spec fn wf(self) -> bool {
        match self.state {
            ConnStateView::Connected(h) => h < self.next_handle,
            _ => true,
        }
    }

    /// One readiness check. `signal` is what the caller observed of the connect
    /// attempt in flight (state `Connecting`) or of the current dispatcher
    /// (state `Connected`); in other states it is not read. Gives the next
    /// state, what the check reports, and whether a connect attempt is to start.
    pub open spec fn poll(self, signal: ReadinessView) -> (ReconnectView, ReadinessView, bool) {
        match self.state {
            ConnStateView::Idle | ConnStateView::Failed(_) => (
                ReconnectView { state: ConnStateView::Connecting, ..self },
                ReadinessView::Pending,
                true,
            ),
            ConnStateView::Connecting => match signal {
                ReadinessView::Pending => (self, ReadinessView::Pending, false),
                ReadinessView::Ready => (
                    ReconnectView {
                        state: ConnStateView::Connected(self.next_handle),
                        next_handle: (self.next_handle + 1) as u64,
                        ..self
                    },
                    ReadinessView::Ready,
                    false,
                ),
                ReadinessView::Failed(e) => (
                    ReconnectView { state: ConnStateView::Failed(e), ..self },
                    ReadinessView::Failed(e),
                    false,
                ),
            },
            ConnStateView::Connected(_) => match signal {
                ReadinessView::Ready => (self, ReadinessView::Ready, false),
                ReadinessView::Pending => (self, ReadinessView::Pending, false),
                ReadinessView::Failed(_) => (
                    ReconnectView { state: ConnStateView::Connecting, ..self },
                    ReadinessView::Pending,
                    true,
                ),
            },
        }
    }
}

/// Obtains a live dispatcher on demand, keeps it, and replaces it when it is
/// found unusable. It never reconnects on its own: each transition is made by
/// a readiness check.
#[derive(Debug)]
pub struct Reconnect {
    state: ConnState,
    next_handle: u64,
    is_lazy: bool,
}

impl View for Reconnect {
    type V = ReconnectView;

    closed spec fn view(&self) -> ReconnectView {
        ReconnectView { state: self.state@, next_handle: self.next_handle, is_lazy: self.is_lazy }
    }
}

impl Reconnect {
    /// An engine with no connection and no attempt in flight. A lazy engine
    /// is left so until its first readiness check; an eager one is to be
    /// checked until ready before it is handed out.
    pub fn new(is_lazy: bool) -> (r: Self)
        ensures
            r@ == (ReconnectView { state: ConnStateView::Idle, next_handle: 0, is_lazy }),
            r@.wf(),
    {
        Reconnect { state: ConnState::Idle, next_handle: 0, is_lazy }
    }

    /// One readiness check; see [`ReconnectView::poll`].
    pub fn poll_ready(&mut self, signal: Readiness) -> (r: Step)
        requires
            old(self)@.wf(),
            old(self)@.next_handle < u64::MAX,
        ensures
            final(self)@.wf(),
            (final(self)@, r.readiness@, r.connect) == old(self)@.poll(signal@),
    {
        match &self.state {
            ConnState::Idle | ConnState::Failed(_) => {
                self.state = ConnState::Connecting;
                Step { readiness: Readiness::Pending, connect: true }
            },
            ConnState::Connecting => match signal {
                Readiness::Pending => Step { readiness: Readiness::Pending, connect: false },
                Readiness::Ready => {
                    self.state = ConnState::Connected(self.next_handle);
                    self.next_handle = self.next_handle + 1;
                    Step { readiness: Readiness::Ready, connect: false }
                },
                Readiness::Failed(e) => {
                    self.state = ConnState::Failed(e.duplicate());
                    Step { readiness: Readiness::Failed(e), connect: false }
                },
            },
            ConnState::Connected(_) => match signal {
                Readiness::Ready => Step { readiness: Readiness::Ready, connect: false },
                Readiness::Pending => Step { readiness: Readiness::Pending, connect: false },
                Readiness::Failed(_) => {
                    self.state = ConnState::Connecting;
                    Step { readiness: Readiness::Pending, connect: true }
                },
            },
        }
    }

    /// The handle of the current dispatcher, which calls go to.
    pub fn current_handle(&self) -> (r: u64)
        requires
            self@.state is Connected,
        ensures
            self@.state == ConnStateView::Connected(r),
    {
        match self.state {
            ConnState::Connected(h) => h,
            _ => 0,
        }
    }

    /// The handle of the current dispatcher, if connected.
    pub fn current(&self) -> (r: Option<u64>)
        ensures
            match r {
                Some(h) => self@.state == ConnStateView::Connected(h),
                None => !(self@.state is Connected),
            },
    {
        match self.state {
            ConnState::Connected(h) => Some(h),
            _ => None,
        }
    }

    /// Whether the engine has handles left to give a new connection.
    pub fn can_poll(&self) -> (r: bool)
        ensures
            r == (self@.next_handle < u64::MAX),
    {
        self.next_handle < u64::MAX
    }

    /// Whether no connection has been made or attempted since the last one
    /// was dropped.
    pub fn is_idle(&self) -> (r: bool)
        ensures
            r == (self@.state == ConnStateView::Idle),
    {
        match self.state {
            ConnState::Idle => true,
            _ => false,
        }
    }
}

/// After the current dispatcher reports a terminal failure, the next
/// readiness check starts a new connect attempt without the engine being
/// rebuilt, and the failed dispatcher is no longer current; once the attempt
/// succeeds the engine is connected through a handle never given out before.
pub proof fn lemma_reconnect_after_failure(v: ReconnectView, handle: u64, e: ErrorView)
    requires
        v.wf(),
        v.state == ConnStateView::Connected(handle),
    ensures
        ({
            let (v1, r1, c1) = v.poll(ReadinessView::Failed(e));
            &&& v1.state == ConnStateView::Connecting
            &&& r1 == ReadinessView::Pending
            &&& c1
            &&& v1.is_lazy == v.is_lazy
            &&& v1.poll(ReadinessView::Pending).0.state == ConnStateView::Connecting
            &&& v1.poll(ReadinessView::Ready).0.state == ConnStateView::Connected(v.next_handle)
            &&& v1.poll(ReadinessView::Ready).1 == ReadinessView::Ready
            &&& v.next_handle != handle
        }),
{
}

} // verus!
