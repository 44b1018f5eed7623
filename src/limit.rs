use vstd::prelude::*;

verus! {

/// What a [`ConcurrencyLimit`] holds: how many calls may be outstanding at
/// once, and how many are.
pub ghost struct ConcurrencyView {
    pub max: nat,
    pub outstanding: nat,
}

impl ConcurrencyView {
    /// Whether a readiness check in this state is granted a slot.
    pub open spec fn admits(self) -> bool {
        self.outstanding < self.max
    }

    /// The state after one readiness check: a slot is taken if one is free.
    pub open spec fn acquire(self) -> ConcurrencyView {
        if self.admits() {
            ConcurrencyView { outstanding: self.outstanding + 1, ..self }
        } else {
            self
        }
    }

    /// The state after one outstanding call has completed.
    pub open spec fn release(self) -> ConcurrencyView {
        ConcurrencyView { outstanding: (self.outstanding - 1) as nat, ..self }
    }

    /// The state after `n` readiness checks with no call completing.
    pub open spec fn acquire_n(self, n: nat) -> ConcurrencyView
        decreases n,
    {
        if n == 0 {
            self
        } else {
            self.acquire_n((n - 1) as nat).acquire()
        }
    }
}

/// Lets at most a fixed number of calls be outstanding at once. A readiness
/// check takes a slot, and the slot is given back when the call completes.
#[derive(Debug)]
pub struct ConcurrencyLimit {
    max: usize,
    outstanding: usize,
}

impl View for ConcurrencyLimit {
    type V = ConcurrencyView;

    closed spec fn view(&self) -> ConcurrencyView {
        ConcurrencyView { max: self.max as nat, outstanding: self.outstanding as nat }
    }
}

impl ConcurrencyLimit {
    /// Well-formed: no more calls are outstanding than the limit allows.
    pub open spec fn wf(&self) -> bool {
        self@.outstanding <= self@.max
    }

    /// A limiter that lets `max` calls be outstanding, with none outstanding.
    pub fn new(max: usize) -> (r: Self)
        ensures
            r.wf(),
            r@ == (ConcurrencyView { max: max as nat, outstanding: 0 }),
    {
        ConcurrencyLimit { max, outstanding: 0 }
    }

    /// Readiness check: takes a slot and returns `true` if one is free, else
    /// returns `false` (the caller waits for a call to complete).
    pub fn poll_ready(&mut self) -> (r: bool)
        requires
            old(self).wf(),
        ensures
            final(self).wf(),
            r == old(self)@.admits(),
            final(self)@ == old(self)@.acquire(),
    {
        if self.outstanding < self.max {
            self.outstanding = self.outstanding + 1;
            true
        } else {
            false
        }
    }

    /// Gives back the slot of a call that has completed, with success, with
    /// an error, or abandoned.
    pub fn release(&mut self)
        requires
            old(self).wf(),
            old(self)@.outstanding > 0,
        ensures
            final(self).wf(),
            final(self)@ == old(self)@.release(),
    {
        self.outstanding = self.outstanding - 1;
    }

    /// How many calls hold a slot.
    pub fn outstanding(&self) -> (r: usize)
        ensures
            r as nat == self@.outstanding,
    {
        self.outstanding
    }
}

/// Of `n` concurrent calls, with `n` at most the limit and none outstanding
/// before, each one's readiness check is granted a slot; when the limit is
/// reached, the next check is refused, and it is granted again once one call
/// has completed.
pub proof fn lemma_concurrency_admits(s: ConcurrencyView, n: nat)
    requires
        s.outstanding == 0,
        n <= s.max,
    ensures
        forall|i: nat| i < n ==> (#[trigger] s.acquire_n(i)).admits(),
        s.acquire_n(n).outstanding == n,
        s.acquire_n(n).max == s.max,
        n == s.max ==> !s.acquire_n(n).admits(),
        n == s.max && n > 0 ==> s.acquire_n(n).release().admits(),
{
    lemma_acquire_n_counts(s, n);
    assert forall|i: nat| i < n implies (#[trigger] s.acquire_n(i)).admits() by {
        lemma_acquire_n_counts(s, i);
    }
}

proof fn lemma_acquire_n_counts(s: ConcurrencyView, n: nat)
    requires
        s.outstanding == 0,
        n <= s.max,
    ensures
        s.acquire_n(n).outstanding == n,
        s.acquire_n(n).max == s.max,
    decreases n,
{
    if n > 0 {
        lemma_acquire_n_counts(s, (n - 1) as nat);
    }
}

/// What a [`RateLimit`] holds, times being in the caller's clock units.
pub ghost struct RateView {
    /// Calls allowed per period.
    pub num: nat,
    /// The length of a period.
    pub per: nat,
    /// When the current period ends.
    pub until: nat,
    /// Calls left in the current period.
    pub rem: nat,
    /// Whether the budget is spent until `until`.
    pub limited: bool,
}

/// `a + b`, held at the largest `u64`.
pub open spec fn sat_add(a: nat, b: nat) -> nat {
    if a + b > u64::MAX {
        u64::MAX as nat
    } else {
        a + b
    }
}

impl RateView {
    /// Whether a readiness check at time `now` is granted.
    pub open spec fn admits(self, now: nat) -> bool {
        !self.limited || now >= self.until
    }

    /// The state after a readiness check at time `now`: a spent budget whose
    /// period is over starts a new period with a full budget.
    pub open spec fn poll(self, now: nat) -> RateView {
        if self.limited && now >= self.until {
            RateView { until: sat_add(now, self.per), rem: self.num, limited: false, ..self }
        } else {
            self
        }
    }

    /// The state after a call at time `now`, made after a granted check.
    pub open spec fn call(self, now: nat) -> RateView {
        let (until, rem) = if now >= self.until {
            (sat_add(now, self.per), self.num)
        } else {
            (self.until, self.rem)
        };
        if rem > 1 {
            RateView { until, rem: (rem - 1) as nat, ..self }
        } else {
            RateView { until, rem, limited: true, ..self }
        }
    }
}

/// Lets at most `num` calls through in each period of length `per`; when the
/// budget is spent, readiness checks are refused until the period ends.
#[derive(Debug)]
pub struct RateLimit {
    num: u64,
    per: u64,
    until: u64,
    rem: u64,
    limited: bool,
}

impl View for RateLimit {
    type V = RateView;

    closed spec fn view(&self) -> RateView {
        RateView {
            num: self.num as nat,
            per: self.per as nat,
            until: self.until as nat,
            rem: self.rem as nat,
            limited: self.limited,
        }
    }
}

impl RateLimit {
    /// A limiter of `num` calls per `per`, whose first period has ended at
    /// `now`.
    pub fn new(num: u64, per: u64, now: u64) -> (r: Self)
        requires
            num > 0,
            per > 0,
        ensures
            r@ == (RateView { num: num as nat, per: per as nat, until: now as nat, rem: num as nat, limited: false }),
    {
        RateLimit { num, per, until: now, rem: num, limited: false }
    }

    /// Readiness check at time `now`: `false` while the budget is spent.
    pub fn poll_ready(&mut self, now: u64) -> (r: bool)
        ensures
            r == old(self)@.admits(now as nat),
            final(self)@ == old(self)@.poll(now as nat),
    {
        if self.limited {
            if now < self.until {
                return false;
            }
            self.until = now.saturating_add(self.per);
            self.rem = self.num;
            self.limited = false;
        }
        true
    }

    /// Counts a call at time `now` against the budget.
    pub fn call(&mut self, now: u64)
        requires
            !old(self)@.limited,
        ensures
            final(self)@ == old(self)@.call(now as nat),
    {
        if now >= self.until {
            self.until = now.saturating_add(self.per);
            self.rem = self.num;
        }
        if self.rem > 1 {
            self.rem = self.rem - 1;
        } else {
            self.limited = true;
        }
    }

    /// Whether the budget is spent.
    pub fn is_limited(&self) -> (r: bool)
        ensures
            r == self@.limited,
    {
        self.limited
    }
}

} // verus!
