//! Properties of the admission rules that hold over every input and over
//! sequences of attempts.
use vstd::prelude::*;
use vstd::arithmetic::div_mod::{lemma_fundamental_div_mod, lemma_mod_bound, lemma_mod_multiples_basic};

use crate::rate::Rate;
use crate::tokens::{WindowState, admit_spec, elapsed_since, num_admitted, outcomes, refresh_spec};

verus! {

/// Within one window that has not elapsed, attempts are admitted while
/// tokens remain and rejected afterwards: the attempt at position `i` is
/// admitted exactly when `i` is below the tokens that were left, so no more
/// than the rate's count is ever admitted, and the attempt after the last
/// token is rejected.
pub proof fn lemma_capacity_bound(s: WindowState, rate: Rate, times: Seq<nat>)
    requires
        rate.wf(),
        s.available <= rate.count(),
        forall|i: int| 0 <= i < times.len() ==> times[i] < s.start + rate.period(),
    ensures
        outcomes(s, rate, times).len() == times.len(),
        forall|i: int|
            0 <= i < times.len() ==> outcomes(s, rate, times)[i] == (i < s.available),
        num_admitted(outcomes(s, rate, times)) == if times.len() < s.available {
            times.len()
        } else {
            s.available
        },
        num_admitted(outcomes(s, rate, times)) <= rate.count(),
    decreases times.len(),
{
    if times.len() > 0 {
        let (next, ok) = admit_spec(s, rate, times[0]);
        assert(elapsed_since(s.start, times[0]) < rate.period());
        assert(refresh_spec(s, rate, times[0]) == s);
        let rest = times.drop_first();
        assert forall|i: int| 0 <= i < rest.len() implies rest[i] < next.start + rate.period() by {
            assert(rest[i] == times[i + 1]);
        }
        lemma_capacity_bound(next, rate, rest);
        let o = outcomes(s, rate, times);
        assert(o == seq![ok] + outcomes(next, rate, rest));
        assert(o.drop_first() == outcomes(next, rate, rest));
    }
}

/// Callers that attempt one after another within one fresh window, more of
/// them than the rate's count, are admitted exactly count times: no unit of
/// capacity is handed out twice and none is lost.
pub proof fn lemma_admits_exactly_count(rate: Rate, start: nat, times: Seq<nat>)
    requires
        rate.wf(),
        times.len() > rate.count(),
        forall|i: int| 0 <= i < times.len() ==> times[i] < start + rate.period(),
    ensures
        num_admitted(outcomes(WindowState { available: rate.count(), start }, rate, times))
            == rate.count(),
{
    lemma_capacity_bound(WindowState { available: rate.count(), start }, rate, times);
}

/// Once a whole period has elapsed, an attempt is admitted whatever was left
/// before, and the pool then holds one less than the rate's count.
pub proof fn lemma_window_rollover(s: WindowState, rate: Rate, now: nat)
    requires
        rate.wf(),
        s.available <= rate.count(),
        elapsed_since(s.start, now) >= rate.period(),
    ensures
        admit_spec(s, rate, now).1,
        admit_spec(s, rate, now).0.available == rate.count() - 1,
        admit_spec(s, rate, now).0.start == refresh_spec(s, rate, now).start,
{
}

/// A refill keeps windows on the period grid of the first one: the new
/// window starts a whole number of periods after the old one, at the last
/// boundary not after `now`, so windows do not drift.
pub proof fn lemma_phase_aligned(s: WindowState, rate: Rate, now: nat)
    requires
        rate.wf(),
        elapsed_since(s.start, now) >= rate.period(),
    ensures
        refresh_spec(s, rate, now).available == rate.count(),
        s.start < refresh_spec(s, rate, now).start <= now,
        now - refresh_spec(s, rate, now).start < rate.period(),
        (refresh_spec(s, rate, now).start - s.start) % (rate.period() as int) == 0,
{
    let p = rate.period() as int;
    let e = now - s.start;
    let q = e / p;
    lemma_fundamental_div_mod(e, p);
    lemma_mod_bound(e, p);
    assert(q >= 1) by (nonlinear_arith)
        requires
            e >= p,
            p > 0,
            q == e / p,
    ;
    lemma_mod_multiples_basic(q, p);
    assert(refresh_spec(s, rate, now).start - s.start == q * p) by (nonlinear_arith)
        requires
            e == p * q + e % p,
            refresh_spec(s, rate, now).start == now - e % p,
            e == now - s.start,
    ;
    assert(q * p >= p) by (nonlinear_arith)
        requires
            q >= 1,
            p > 0,
    ;
}

} // verus!
