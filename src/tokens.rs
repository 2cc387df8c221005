use vstd::prelude::*;

use crate::rate::Rate;
use crate::rate_limit_error::RateLimitError;

verus! {

/// The abstract state of a token window: how many admissions are left, and
/// the instant (in milliseconds) at which the current window started.
pub struct WindowState {
    pub available: nat,
    pub start: nat,
}

/// How long ago the window that starts at `start` began, as seen at `now`.
/// A clock that reads earlier than the start counts as no time at all.
pub open spec fn elapsed_since(start: nat, now: nat) -> nat {
    if now >= start {
        (now - start) as nat
    } else {
        0
    }
}

/// The state after a refresh at `now`: once a whole period has elapsed, the
/// pool is full again and the new window starts at the latest period
/// boundary, `now - (elapsed mod period)`.
pub open spec fn refresh_spec(s: WindowState, rate: Rate, now: nat) -> WindowState {
    let elapsed = elapsed_since(s.start, now);
    if elapsed >= rate.period() {
        WindowState { available: rate.count(), start: (now - elapsed % rate.period()) as nat }
    } else {
        s
    }
}

/// One admission attempt at `now`: refresh, then take a token if one is left.
/// The boolean tells whether the attempt was admitted.
pub open spec fn admit_spec(s: WindowState, rate: Rate, now: nat) -> (WindowState, bool) {
    let r = refresh_spec(s, rate, now);
    if r.available > 0 {
        (WindowState { available: (r.available - 1) as nat, start: r.start }, true)
    } else {
        (r, false)
    }
}

/// The outcomes of attempts made one after another at the given instants.
pub open spec fn outcomes(s: WindowState, rate: Rate, times: Seq<nat>) -> Seq<bool>
    decreases times.len(),
{
    if times.len() == 0 {
        Seq::empty()
    } else {
        let (next, ok) = admit_spec(s, rate, times[0]);
        seq![ok] + outcomes(next, rate, times.drop_first())
    }
}

/// How many of the outcomes are admissions.
pub open spec fn num_admitted(o: Seq<bool>) -> nat
    decreases o.len(),
{
    if o.len() == 0 {
        0
    } else {
        (if o[0] { 1nat } else { 0nat }) + num_admitted(o.drop_first())
    }
}

/// The shared counters of a limiter: the rate, the tokens left in the
/// current window, and when that window started.
#[derive(Debug)]
pub struct TokenWindow {
    rate: Rate,
    tokens: usize,
    last_refresh: u64,
}

impl View for TokenWindow {
    type V = WindowState;

    closed spec fn view(&self) -> WindowState {
        WindowState { available: self.tokens as nat, start: self.last_refresh as nat }
    }
}

/// What a readiness check must do next.
#[derive(Debug, Clone, Copy, PartialEq, Eq, Structural)]
pub enum ReadyStep {
    /// A permit is already held: the check goes straight to the inner handler.
    Forward,
    /// A token is left: acquire a permit, then take the token.
    Acquire,
}

impl TokenWindow {
    /// The rate that this window enforces.
    pub closed spec fn rate(self) -> Rate {
        self.rate
    }

    /// The rate is valid and the pool never holds more than one period's worth.
    pub open spec fn wf(self) -> bool {
        self.rate().wf() && self@.available <= self.rate().count()
    }

    /// A full pool whose first window starts at `now`.
    pub fn new(rate: Rate, now: u64) -> (w: TokenWindow)
        requires
            rate.wf(),
        ensures
            w.wf(),
            w.rate() == rate,
            w@ == (WindowState { available: rate.count(), start: now as nat }),
    {
        TokenWindow { rate, tokens: rate.num(), last_refresh: now }
    }

    /// The rate that this window enforces.
    pub fn get_rate(&self) -> (r: Rate)
        ensures
            r == self.rate(),
    {
        self.rate
    }

    /// The tokens left in the current window.
    pub fn tokens(&self) -> (r: usize)
        ensures
            r == self@.available,
    {
        self.tokens
    }

    /// When the current window started, in milliseconds.
    pub fn last_refresh(&self) -> (r: u64)
        ensures
            r == self@.start,
    {
        self.last_refresh
    }

    /// Refill the pool if a whole period has elapsed since the window
    /// started, keeping window boundaries aligned to the period.
    pub fn refresh_tokens(&mut self, now: u64)
        requires
            old(self).wf(),
        ensures
            final(self).wf(),
            final(self).rate() == old(self).rate(),
            final(self)@ == refresh_spec(old(self)@, old(self).rate(), now as nat),
    {
        let per = self.rate.per();
        let elapsed: u64 = if now >= self.last_refresh {
            now - self.last_refresh
        } else {
            0
        };
        if elapsed >= per {
            let remainder: u64 = elapsed % per;
            assert(remainder <= elapsed) by (nonlinear_arith)
                requires
                    remainder == elapsed % per,
                    per > 0,
            ;
            self.tokens = self.rate.num();
            self.last_refresh = now - remainder;
        }
    }

    /// Take one token from the pool.
    pub fn take_token(&mut self)
        requires
            old(self).wf(),
            old(self)@.available > 0,
        ensures
            final(self).wf(),
            final(self).rate() == old(self).rate(),
            final(self)@ == (WindowState {
                available: (old(self)@.available - 1) as nat,
                start: old(self)@.start,
            }),
    {
        self.tokens = self.tokens - 1;
    }

    /// Refresh, then take a token if one is left; fail with `RateLimitError`
    /// when the pool is empty.
    pub fn try_admit(&mut self, now: u64) -> (r: Result<(), RateLimitError>)
        requires
            old(self).wf(),
        ensures
            final(self).wf(),
            final(self).rate() == old(self).rate(),
            (final(self)@, r is Ok) == admit_spec(old(self)@, old(self).rate(), now as nat),
    {
        self.refresh_tokens(now);
        if self.tokens > 0 {
            self.take_token();
            Ok(())
        } else {
            Err(RateLimitError(()))
        }
    }

    /// The decision of a readiness check. With a permit already held nothing
    /// changes and the check is forwarded. Otherwise the pool is refreshed; if
    /// a token is left the caller is to acquire a permit and then take it,
    /// else the check fails with `RateLimitError`.
    pub fn ready_step(&mut self, holds_permit: bool, now: u64) -> (r: Result<ReadyStep, RateLimitError>)
        requires
            old(self).wf(),
        ensures
            final(self).wf(),
            final(self).rate() == old(self).rate(),
            holds_permit ==> r == Ok::<ReadyStep, RateLimitError>(ReadyStep::Forward)
                && final(self)@ == old(self)@,
            !holds_permit ==> final(self)@ == refresh_spec(old(self)@, old(self).rate(), now as nat),
            !holds_permit ==> (r == Ok::<ReadyStep, RateLimitError>(ReadyStep::Acquire)
                <==> final(self)@.available > 0),
            !holds_permit ==> (r is Err <==> final(self)@.available == 0),
    {
        if holds_permit {
            Ok(ReadyStep::Forward)
        } else {
            self.refresh_tokens(now);
            if self.tokens > 0 {
                Ok(ReadyStep::Acquire)
            } else {
                Err(RateLimitError(()))
            }
        }
    }
}

} // verus!
