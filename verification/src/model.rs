//! The mathematical token bucket that the executable one is proved against.

use vstd::prelude::*;

verus! {

/// A bucket over unbounded naturals. Times are milliseconds on one clock.
pub struct BucketState {
    /// The most tokens the bucket holds.
    pub capacity: nat,
    /// The tokens in the bucket as of `latest_tick`.
    pub available: nat,
    /// The tokens that accrue over one fill interval.
    pub quantum: nat,
    /// The time over which one quantum accrues.
    pub fill_interval: nat,
    /// The time at which `available` was last brought up to date.
    pub latest_tick: nat,
}

/// What a bounded-wait withdrawal comes to.
pub struct Admission {
    /// The bucket afterwards.
    pub state: BucketState,
    /// How long the caller has to wait before the tokens are its own.
    pub wait: nat,
    /// Whether the withdrawal took place.
    pub admitted: bool,
}

/// What an immediate withdrawal comes to.
pub struct Withdrawal {
    /// The bucket afterwards.
    pub state: BucketState,
    /// The tokens handed out.
    pub taken: nat,
}

/// The smaller of two naturals.
pub open spec fn least(a: nat, b: nat) -> nat {
    if a <= b {
        a
    } else {
        b
    }
}

impl BucketState {
    /// The configuration under which the bucket refills: both the quantum
    /// and the fill interval are positive.
    pub open spec fn valid(self) -> bool {
        self.quantum > 0 && self.fill_interval > 0
    }

    /// The bucket holds no more than its capacity.
    pub open spec fn within_capacity(self) -> bool {
        self.available <= self.capacity
    }

    /// Time passed between the latest tick and `now`; none if `now` lies
    /// before it.
    pub open spec fn elapsed(self, now: nat) -> nat {
        if now >= self.latest_tick {
            (now - self.latest_tick) as nat
        } else {
            0
        }
    }

    /// Whole tokens that accrue between the latest tick and `now`:
    /// the elapsed share of a fill interval times the quantum, rounded down.
    pub open spec fn accrued(self, now: nat) -> nat {
        (self.elapsed(now) * self.quantum) / self.fill_interval
    }

    /// The tokens in the bucket once brought up to date at `now`: a bucket at
    /// or over capacity holds exactly its capacity, any other gains what
    /// accrued, up to capacity.
    pub open spec fn tokens_at(self, now: nat) -> nat {
        if self.available >= self.capacity {
            self.capacity
        } else {
            least(self.capacity, self.available + self.accrued(now))
        }
    }

    /// The bucket brought up to date at `now`.
    pub open spec fn refill(self, now: nat) -> BucketState {
        BucketState { available: self.tokens_at(now), latest_tick: now, ..self }
    }

    /// Whether the bucket is up to date at `now`: it was last brought up to
    /// date at that very time, and holds no more than its capacity.
    pub open spec fn settled_at(self, now: nat) -> bool {
        self.latest_tick == now && self.within_capacity()
    }

    /// The bucket with `count` tokens fewer, or empty where it holds fewer
    /// than `count`.
    pub open spec fn without(self, count: nat) -> BucketState {
        BucketState { available: (self.available - least(count, self.available)) as nat, ..self }
    }

    /// An immediate withdrawal of up to `count` tokens at `now`: the bucket
    /// is brought up to date and hands out what was asked for, or all it
    /// holds. Asking for nothing leaves the bucket as it is, latest tick
    /// included.
    pub open spec fn take_available(self, now: nat, count: nat) -> Withdrawal {
        if count == 0 {
            Withdrawal { state: self, taken: 0 }
        } else {
            Withdrawal {
                state: self.refill(now).without(count),
                taken: least(count, self.tokens_at(now)),
            }
        }
    }

    /// The tokens that `count` asks for beyond what the bucket holds.
    pub open spec fn deficit(self, count: nat) -> nat {
        if count > self.available {
            (count - self.available) as nat
        } else {
            0
        }
    }

    /// Whether the deficit of `count` accrues within `max_wait`: the exact
    /// time `fill_interval * deficit / quantum` is at most `max_wait`.
    pub open spec fn within_patience(self, count: nat, max_wait: nat) -> bool {
        self.fill_interval * self.deficit(count) <= max_wait * self.quantum
    }

    /// The whole milliseconds after which the deficit of `count` has accrued.
    pub open spec fn wait_for(self, count: nat) -> nat {
        (self.fill_interval * self.deficit(count)) / self.quantum
    }

    /// A withdrawal of exactly `count` tokens at `now`, waiting at most
    /// `max_wait`. Asking for nothing is admitted and leaves the bucket as it
    /// is. Otherwise the bucket is brought up to date. If the deficit accrues
    /// within `max_wait`, the withdrawal is committed: the bucket gives up
    /// `count` tokens, or all it holds where there is a deficit, and the
    /// caller waits for the deficit. If not, the tokens stay.
    pub open spec fn take(self, now: nat, count: nat, max_wait: nat) -> Admission {
        let fresh = self.refill(now);
        if count == 0 {
            Admission { state: self, wait: 0, admitted: true }
        } else if fresh.within_patience(count, max_wait) {
            Admission { state: fresh.without(count), wait: fresh.wait_for(count), admitted: true }
        } else {
            Admission { state: fresh, wait: 0, admitted: false }
        }
    }
}

} // verus!
