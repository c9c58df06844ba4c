//! The executable token bucket.

use vstd::prelude::*;
use std::time::{Duration, Instant};
use crate::model::{Admission, BucketState, Withdrawal};

verus! {

/// A token bucket that fills at a fixed rate: `quantum` tokens every
/// `fill_interval` milliseconds, up to `capacity`.
///
/// The bucket keeps no timer. Each operation first brings the token count up
/// to date from the time that passed since `latest_tick`. Times are
/// milliseconds on the bucket's own clock, which starts at zero when the
/// bucket is made.
///
/// The bucket does not synchronise: callers that share one serialise their
/// calls themselves, for instance behind a mutex.
#[derive(Debug)]
pub struct Bucket {
    /// The most tokens the bucket holds.
    pub capacity: u64,
    /// The tokens in the bucket as of `latest_tick`.
    pub available_tokens: u64,
    /// The tokens added over each fill interval.
    pub quantum: u64,
    /// The time over which one quantum accrues, in milliseconds.
    pub fill_interval: u64,
    /// The time, in milliseconds on the bucket's clock, at which
    /// `available_tokens` was last brought up to date.
    pub latest_tick: u64,
    /// The instant at which the bucket's clock reads zero.
    pub epoch: Instant,
}

impl View for Bucket {
    type V = BucketState;

    open spec fn view(&self) -> BucketState {
        BucketState {
            capacity: self.capacity as nat,
            available: self.available_tokens as nat,
            quantum: self.quantum as nat,
            fill_interval: self.fill_interval as nat,
            latest_tick: self.latest_tick as nat,
        }
    }
}

/// A product of two `u64` fits in a `u128`.
proof fn lemma_product_fits(a: u64, b: u64)
    ensures
        (a as nat) * (b as nat) <= u128::MAX,
{
    assert((a as nat) * (b as nat) <= 0xFFFF_FFFF_FFFF_FFFF * 0xFFFF_FFFF_FFFF_FFFF)
        by (nonlinear_arith)
        requires
            a <= 0xFFFF_FFFF_FFFF_FFFF,
            b <= 0xFFFF_FFFF_FFFF_FFFF,
    ;
}

/// A time that is within patience, rounded down, is no longer than the
/// patience.
proof fn lemma_wait_bounded(need: nat, max_wait: nat, quantum: nat)
    by (nonlinear_arith)
    requires
        quantum > 0,
        need <= max_wait * quantum,
    ensures
        need / quantum <= max_wait,
{
}

/// Nothing is missing where nothing accrues: a zero deficit is within any
/// patience and takes no time.
proof fn lemma_no_deficit(fill_interval: nat, max_wait: nat, quantum: nat)
    by (nonlinear_arith)
    requires
        quantum > 0,
    ensures
        fill_interval * 0 <= max_wait * quantum,
        (fill_interval * 0) / quantum == 0,
{
}

impl Bucket {
    /// A bucket whose clock starts now, holding `available_tokens`.
    ///
    /// The initial count is taken as given, also where it exceeds
    /// `capacity`: the first withdrawal brings it down to the capacity.
    /// A bucket with a zero `fill_interval` or `quantum` has no rate, so both
    /// must be positive.
    pub fn new(
        fill_interval: u64,
        capacity: u64,
        quantum: u64,
        available_tokens: u64,
    ) -> (bucket: Self)
        requires
            fill_interval > 0,
            quantum > 0,
        ensures
            bucket@ == (BucketState {
                capacity: capacity as nat,
                available: available_tokens as nat,
                quantum: quantum as nat,
                fill_interval: fill_interval as nat,
                latest_tick: 0,
            }),
            bucket@.valid(),
    {
        Self {
            capacity,
            available_tokens,
            quantum,
            fill_interval,
            latest_tick: 0,
            epoch: Instant::now(),
        }
    }

    /// The time on the bucket's clock: whole milliseconds since the bucket
    /// was made, held at `u64::MAX` from there on. What it returns is for the
    /// clock to say.
    fn current_tick(&self) -> (now: u64) {
        let since_epoch: Duration = self.epoch.elapsed();
        let millis: u128 = since_epoch.as_millis();
        crate::clock::tick_of_millis(millis)
    }

    /// Brings the token count up to date at `now`.
    pub fn adjust_available_tokens(&mut self, now: u64)
        requires
            old(self)@.valid(),
        ensures
            final(self)@ == old(self)@.refill(now as nat),
            final(self)@.within_capacity(),
            final(self).epoch == old(self).epoch,
    {
        let elapsed: u64 = if now >= self.latest_tick {
            now - self.latest_tick
        } else {
            0
        };
        self.latest_tick = now;
        if self.available_tokens >= self.capacity {
            self.available_tokens = self.capacity;
            return;
        }
        let room: u64 = self.capacity - self.available_tokens;
        proof {
            lemma_product_fits(elapsed, self.quantum);
        }
        let gained: u128 = (elapsed as u128 * self.quantum as u128) / (self.fill_interval as u128);
        if gained >= room as u128 {
            self.available_tokens = self.capacity;
        } else {
            self.available_tokens = self.available_tokens + gained as u64;
        }
    }

    /// Takes up to `count` tokens at `now`, without waiting, and returns how
    /// many it took: all that were asked for, or all that the bucket held.
    pub fn take_available_at(&mut self, now: u64, count: u64) -> (taken: u64)
        requires
            old(self)@.valid(),
        ensures
            final(self)@ == old(self)@.take_available(now as nat, count as nat).state,
            taken == old(self)@.take_available(now as nat, count as nat).taken,
            count == 0 ==> taken == 0 && *final(self) == *old(self),
            count > 0 ==> final(self)@.within_capacity(),
            final(self).epoch == old(self).epoch,
    {
        if count == 0 {
            return 0;
        }
        self.adjust_available_tokens(now);
        let tokens: u64 = if count > self.available_tokens {
            self.available_tokens
        } else {
            count
        };
        self.available_tokens = self.available_tokens - tokens;
        tokens
    }

    /// Takes `count` tokens at `now` if they are there or accrue within
    /// `max_wait` milliseconds. Returns the time to wait for them, in
    /// milliseconds, and whether they were taken.
    ///
    /// A withdrawal that is admitted is committed at once, before the wait:
    /// the bucket is left with what `count` leaves of its tokens, which is
    /// nothing where the caller has to wait. One that is refused takes
    /// nothing.
    pub fn take_at(&mut self, now: u64, count: u64, max_wait: u64) -> (outcome: (u64, bool))
        requires
            old(self)@.valid(),
        ensures
            final(self)@ == old(self)@.take(now as nat, count as nat, max_wait as nat).state,
            outcome.0 == old(self)@.take(now as nat, count as nat, max_wait as nat).wait,
            outcome.1 == old(self)@.take(now as nat, count as nat, max_wait as nat).admitted,
            count == 0 ==> outcome == (0u64, true) && *final(self) == *old(self),
            count > 0 ==> final(self)@.within_capacity(),
            outcome.0 <= max_wait,
            final(self).epoch == old(self).epoch,
    {
        if count == 0 {
            return (0, true);
        }
        self.adjust_available_tokens(now);
        if self.available_tokens >= count {
            proof {
                lemma_no_deficit(self.fill_interval as nat, max_wait as nat, self.quantum as nat);
            }
            self.available_tokens = self.available_tokens - count;
            return (0, true);
        }
        let deficit: u64 = count - self.available_tokens;
        proof {
            lemma_product_fits(self.fill_interval, deficit);
            lemma_product_fits(max_wait, self.quantum);
        }
        let need: u128 = self.fill_interval as u128 * deficit as u128;
        let patience: u128 = max_wait as u128 * self.quantum as u128;
        if need > patience {
            return (0, false);
        }
        proof {
            lemma_wait_bounded(need as nat, max_wait as nat, self.quantum as nat);
        }
        let wait: u128 = need / (self.quantum as u128);
        self.available_tokens = 0;
        (wait as u64, true)
    }

    /// Takes up to `count` tokens now, without waiting, and returns how many
    /// it took; none where the bucket is empty.
    ///
    /// The clock decides the time: the call is `take_available_at` at some
    /// time `now`.
    pub fn take_available(&mut self, count: u64) -> (taken: u64)
        requires
            old(self)@.valid(),
        ensures
            exists|now: nat|
                (#[trigger] old(self)@.take_available(now, count as nat)) == (Withdrawal {
                    state: final(self)@,
                    taken: taken as nat,
                }),
            count == 0 ==> taken == 0 && *final(self) == *old(self),
            count > 0 ==> final(self)@.within_capacity(),
            taken <= count,
            final(self).epoch == old(self).epoch,
    {
        let now: u64 = self.current_tick();
        self.take_available_at(now, count)
    }

    /// Takes one token now if the bucket holds one, and returns how many it
    /// took.
    pub fn take_one_available(&mut self) -> (taken: u64)
        requires
            old(self)@.valid(),
        ensures
            exists|now: nat|
                (#[trigger] old(self)@.take_available(now, 1)) == (Withdrawal {
                    state: final(self)@,
                    taken: taken as nat,
                }),
            final(self)@.within_capacity(),
            taken <= 1,
            final(self).epoch == old(self).epoch,
    {
        self.take_available(1)
    }

    /// Takes `count` tokens now if they are there or accrue within
    /// `max_wait` milliseconds. Returns the time to wait for them, in
    /// milliseconds, and whether they were taken.
    ///
    /// The clock decides the time: the call is `take_at` at some time `now`.
    pub fn take(&mut self, count: u64, max_wait: u64) -> (outcome: (u64, bool))
        requires
            old(self)@.valid(),
        ensures
            exists|now: nat|
                (#[trigger] old(self)@.take(now, count as nat, max_wait as nat)) == (Admission {
                    state: final(self)@,
                    wait: outcome.0 as nat,
                    admitted: outcome.1,
                }),
            count == 0 ==> outcome == (0u64, true) && *final(self) == *old(self),
            count > 0 ==> final(self)@.within_capacity(),
            outcome.0 <= max_wait,
            !outcome.1 ==> outcome.0 == 0,
            final(self).epoch == old(self).epoch,
    {
        let now: u64 = self.current_tick();
        self.take_at(now, count, max_wait)
    }

    /// Like `take`: takes `count` tokens only if the wait for them is no
    /// longer than `max_wait` milliseconds. Where it would be longer, it
    /// takes nothing and reports `false`; otherwise it returns the time that
    /// the caller should wait until the tokens are there, and reports `true`.
    /// It does not wait itself.
    pub fn take_max_duration(&mut self, count: u64, max_wait: u64) -> (outcome: (u64, bool))
        requires
            old(self)@.valid(),
        ensures
            exists|now: nat|
                (#[trigger] old(self)@.take(now, count as nat, max_wait as nat)) == (Admission {
                    state: final(self)@,
                    wait: outcome.0 as nat,
                    admitted: outcome.1,
                }),
            count == 0 ==> outcome == (0u64, true) && *final(self) == *old(self),
            count > 0 ==> final(self)@.within_capacity(),
            outcome.0 <= max_wait,
            !outcome.1 ==> outcome.0 == 0,
            final(self).epoch == old(self).epoch,
    {
        self.take(count, max_wait)
    }
}

} // verus!
