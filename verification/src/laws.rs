//! What holds of every bucket, proved over the mathematical one.

use vstd::prelude::*;
use crate::model::{least, Admission, BucketState, Withdrawal};

verus! {

/// Nothing accrues in no time.
pub proof fn lemma_nothing_accrues_in_no_time(s: BucketState, now: nat)
    requires
        s.valid(),
        s.elapsed(now) == 0,
    ensures
        s.accrued(now) == 0,
        s.tokens_at(now) == least(s.available, s.capacity),
{
    assert((0 * s.quantum) / s.fill_interval == 0) by (nonlinear_arith)
        requires
            s.fill_interval > 0,
    ;
}

/// A bucket that is up to date at `now` and within its capacity is not
/// changed by being brought up to date at `now` once more.
pub proof fn lemma_refill_settles(s: BucketState, now: nat)
    requires
        s.valid(),
        s.settled_at(now),
    ensures
        s.refill(now) == s,
{
    lemma_nothing_accrues_in_no_time(s, now);
}

/// The capacity bounds the bucket: bringing it up to date leaves it within
/// capacity, and so does every withdrawal that asks for a token. One that
/// asks for none keeps a bucket within capacity that was so before.
pub proof fn law_capacity_bound(s: BucketState, now: nat, count: nat, max_wait: nat)
    ensures
        s.refill(now).within_capacity(),
        count > 0 || s.within_capacity() ==> s.take_available(now, count).state.within_capacity(),
        count > 0 || s.within_capacity() ==> s.take(
            now,
            count,
            max_wait,
        ).state.within_capacity(),
{
}

/// No operation changes the capacity, the quantum or the fill interval.
pub proof fn law_configuration_stays(s: BucketState, now: nat, count: nat, max_wait: nat)
    ensures
        s.take_available(now, count).state.capacity == s.capacity,
        s.take_available(now, count).state.quantum == s.quantum,
        s.take_available(now, count).state.fill_interval == s.fill_interval,
        s.take(now, count, max_wait).state.capacity == s.capacity,
        s.take(now, count, max_wait).state.quantum == s.quantum,
        s.take(now, count, max_wait).state.fill_interval == s.fill_interval,
{
}

/// Two immediate withdrawals with no time between them hand out what one
/// withdrawal of their sum would, and leave the bucket as that one would:
/// the second finds no new tokens.
pub proof fn law_take_available_twice(s: BucketState, now: nat, first: nat, second: nat)
    requires
        s.valid(),
    ensures
        ({
            let one = s.take_available(now, first);
            let two = one.state.take_available(now, second);
            let both = s.take_available(now, first + second);
            &&& first > 0 ==> two.taken == least(second, one.state.available)
            &&& one.taken + two.taken == both.taken
            &&& two.state == both.state
        }),
{
    if first > 0 {
        lemma_refill_settles(s.take_available(now, first).state, now);
    }
}

/// Every withdrawal that asks for a token leaves the bucket up to date at
/// the time of the call, whether it was admitted or not.
pub proof fn law_take_settles(s: BucketState, now: nat, count: nat, max_wait: nat)
    requires
        count > 0,
    ensures
        s.take_available(now, count).state.settled_at(now),
        s.take(now, count, max_wait).state.settled_at(now),
{
}

/// On a bucket that is up to date at `now`, an operation at `now` finds no
/// new tokens: it works on the tokens that the bucket holds.
pub proof fn law_no_time_no_tokens(s: BucketState, now: nat, count: nat, max_wait: nat)
    requires
        s.valid(),
        s.settled_at(now),
        count > 0,
    ensures
        s.refill(now) == s,
        s.take_available(now, count) == (Withdrawal {
            state: s.without(count),
            taken: least(count, s.available),
        }),
        s.take(now, count, max_wait) == if s.within_patience(count, max_wait) {
            Admission { state: s.without(count), wait: s.wait_for(count), admitted: true }
        } else {
            Admission { state: s, wait: 0, admitted: false }
        },
{
    lemma_refill_settles(s, now);
}

/// Once a full fill interval has passed, at least a quantum has accrued, and
/// an immediate withdrawal hands out what was asked for or at least a
/// quantum, as far as the capacity allows.
pub proof fn law_full_interval_refills(s: BucketState, now: nat, count: nat)
    requires
        s.valid(),
        s.elapsed(now) >= s.fill_interval,
    ensures
        s.accrued(now) >= s.quantum,
        s.tokens_at(now) >= least(s.quantum, s.capacity),
        s.take_available(now, count).taken >= least(count, least(s.quantum, s.capacity)),
{
    let e = s.elapsed(now);
    let q = s.quantum;
    let f = s.fill_interval;
    assert((e * q) / f >= q) by (nonlinear_arith)
        requires
            f > 0,
            e >= f,
            q >= 0,
    ;
}

/// The more time has passed, the more tokens the bucket holds.
pub proof fn law_refill_grows_with_time(s: BucketState, earlier: nat, later: nat)
    requires
        s.valid(),
        earlier <= later,
    ensures
        s.accrued(earlier) <= s.accrued(later),
        s.tokens_at(earlier) <= s.tokens_at(later),
{
    let a = s.elapsed(earlier);
    let b = s.elapsed(later);
    let q = s.quantum;
    let f = s.fill_interval;
    assert(a <= b);
    assert((a * q) / f <= (b * q) / f) by (nonlinear_arith)
        requires
            f > 0,
            a <= b,
            q >= 0,
    ;
}

/// A withdrawal that is refused took nothing: the bucket holds what it held
/// once brought up to date, and the same request at the same time is refused
/// again, with the same result and the same bucket.
pub proof fn law_rejection_keeps_tokens(s: BucketState, now: nat, count: nat, max_wait: nat)
    requires
        s.valid(),
        !s.take(now, count, max_wait).admitted,
    ensures
        ({
            let refused = s.take(now, count, max_wait);
            &&& refused.wait == 0
            &&& refused.state == s.refill(now)
            &&& refused.state.take(now, count, max_wait) == refused
        }),
{
    let refused = s.take(now, count, max_wait);
    lemma_refill_settles(refused.state, now);
}

/// Asking for no tokens takes none, is always admitted without a wait, and
/// leaves the bucket as it is.
pub proof fn law_zero_count(s: BucketState, now: nat, max_wait: nat)
    ensures
        s.take_available(now, 0) == (Withdrawal { state: s, taken: 0 }),
        s.take(now, 0, max_wait) == (Admission { state: s, wait: 0, admitted: true }),
{
}

/// What a bounded-wait withdrawal decides: it is admitted exactly when the
/// missing tokens accrue within the patience; the wait is nothing where the
/// tokens are there and never more than the patience; and an admitted
/// withdrawal leaves the bucket what `count` leaves of its tokens.
pub proof fn law_admission(s: BucketState, now: nat, count: nat, max_wait: nat)
    requires
        s.valid(),
        count > 0,
    ensures
        ({
            let held = s.tokens_at(now);
            let r = s.take(now, count, max_wait);
            &&& held >= count ==> r.admitted && r.wait == 0 && r.state.available == held - count
            &&& held < count ==> (r.admitted <==> s.fill_interval * (count - held) <= max_wait
                * s.quantum)
            &&& held < count && r.admitted ==> r.state.available == 0
            &&& r.wait <= max_wait
        }),
{
    let fresh = s.refill(now);
    let d = fresh.deficit(count);
    let need = s.fill_interval * d;
    let q = s.quantum;
    if d == 0 {
        assert(s.fill_interval * 0 <= max_wait * q && (s.fill_interval * 0) / q == 0)
            by (nonlinear_arith)
            requires
                q > 0,
        ;
    } else if need <= max_wait * q {
        assert(need / q <= max_wait) by (nonlinear_arith)
            requires
                q > 0,
                need <= max_wait * q,
        ;
    }
}

} // verus!
