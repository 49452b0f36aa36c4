//! Token-bucket throttling of outgoing remote calls.
//!
//! A [`Throttler`] holds up to `capacity` tokens; one token pays for one
//! remote call. Every `refill_interval` ticks, `quantum` tokens are added,
//! capped at `capacity`. Refills are computed lazily from a caller-supplied
//! monotonic tick count: the bucket never reads a clock itself, so tests
//! can drive it deterministically and the embedding program decides what a
//! tick is and does the actual sleeping between attempts.

use vstd::arithmetic::div_mod::lemma_basic_div;
use vstd::arithmetic::div_mod::lemma_div_by_self;
use vstd::arithmetic::div_mod::lemma_div_is_ordered;
use vstd::arithmetic::div_mod::lemma_remainder_lower;
use vstd::arithmetic::mul::lemma_mul_inequality;
use vstd::prelude::*;

verus! {

/// Default bucket size: the published per-window request quota.
pub const DEFAULT_CAPACITY: u64 = 10;

/// Default tokens added per elapsed interval.
pub const DEFAULT_QUANTUM: u64 = 1;

/// Default refill interval in ticks, for deployments where one tick is one
/// millisecond: sixty seconds.
pub const DEFAULT_REFILL_INTERVAL_TICKS: u64 = 60000;

/// A token bucket gating outgoing remote calls: at most `capacity` grants
/// per rolling `refill_interval`, replenished `quantum` tokens at a time.
pub struct Throttler {
    /// Tokens available right now; never exceeds `capacity`.
    pub available: u64,
    /// Largest number of tokens the bucket holds.
    pub capacity: u64,
    /// Tokens added per whole elapsed interval.
    pub quantum: u64,
    /// Length of one refill interval, in ticks.
    pub refill_interval: u64,
    /// Tick at which the bucket last accounted for refills.
    pub last_refill: u64,
}

impl Throttler {
    /// Well-formedness: the bucket never holds more than `capacity`, and
    /// the configuration is non-degenerate.
    pub open spec fn wf(self) -> bool {
        &&& self.available <= self.capacity
        &&& 1 <= self.quantum
        &&& 1 <= self.refill_interval
        &&& 1 <= self.capacity
    }

    /// Number of whole refill intervals elapsed at `now`.
    pub open spec fn intervals_elapsed(self, now: u64) -> int {
        if now < self.last_refill {
            0
        } else {
            (now - self.last_refill) as int / self.refill_interval as int
        }
    }

    /// The bucket after a lazy refill at `now`: `quantum` tokens per whole
    /// elapsed interval, capped at `capacity`; `last_refill` advances by
    /// exactly the intervals accounted for, so a fraction of an interval is
    /// never lost.
    pub open spec fn spec_refill(self, now: u64) -> Throttler {
        let k = self.intervals_elapsed(now);
        let filled = self.available + k * self.quantum;
        Throttler {
            available: (if filled <= self.capacity { filled } else { self.capacity as int }) as u64,
            last_refill: (self.last_refill + k * self.refill_interval) as u64,
            ..self
        }
    }

    /// One acquisition attempt at `now`: refill lazily, then take a token
    /// if one is available. The boolean says whether a token was granted.
    pub open spec fn spec_try_acquire(self, now: u64) -> (Throttler, bool) {
        let r = self.spec_refill(now);
        if r.available > 0 {
            (Throttler { available: (r.available - 1) as u64, ..r }, true)
        } else {
            (r, false)
        }
    }

    /// A bucket full at tick `now`.
    pub fn new(capacity: u64, quantum: u64, refill_interval: u64, now: u64) -> (t: Throttler)
        requires
            1 <= capacity,
            1 <= quantum,
            1 <= refill_interval,
        ensures
            t == (Throttler {
                available: capacity,
                capacity: capacity,
                quantum: quantum,
                refill_interval: refill_interval,
                last_refill: now,
            }),
            t.wf(),
    {
        Throttler { available: capacity, capacity, quantum, refill_interval, last_refill: now }
    }

    /// Account for the refills owed between `last_refill` and `now`.
    pub fn refill(&mut self, now: u64)
        requires
            old(self).wf(),
            now >= old(self).last_refill,
        ensures
            *final(self) == old(self).spec_refill(now),
            final(self).wf(),
            final(self).last_refill <= now,
    {
        let elapsed = now - self.last_refill;
        let k = elapsed / self.refill_interval;
        proof {
            lemma_remainder_lower(elapsed as int, self.refill_interval as int);
        }
        if k > 0 {
            let new_last = self.last_refill + k * self.refill_interval;
            let new_avail = match k.checked_mul(self.quantum) {
                None => self.capacity,
                Some(add) => match self.available.checked_add(add) {
                    None => self.capacity,
                    Some(total) => if total <= self.capacity {
                        total
                    } else {
                        self.capacity
                    },
                },
            };
            proof {
                let ki = old(self).intervals_elapsed(now);
                let filled = old(self).available + ki * old(self).quantum;
                assert(ki == k as int);
                assert(new_avail as int == (if filled <= old(self).capacity as int {
                    filled
                } else {
                    old(self).capacity as int
                }));
            }
            self.last_refill = new_last;
            self.available = new_avail;
        } else {
            proof {
                let ki = old(self).intervals_elapsed(now);
                assert(ki == 0);
                assert(ki * old(self).quantum == 0);
                assert(ki * old(self).refill_interval == 0);
            }
        }
    }

    /// Refill lazily, then consume one token if any is available. Returns
    /// whether a token was granted; on `false` the caller should wait
    /// [`Throttler::ticks_until_ready`] ticks and try again.
    pub fn try_acquire(&mut self, now: u64) -> (granted: bool)
        requires
            old(self).wf(),
            now >= old(self).last_refill,
        ensures
            ((*final(self), granted) == old(self).spec_try_acquire(now)),
            final(self).wf(),
            final(self).last_refill <= now,
    {
        self.refill(now);
        if self.available > 0 {
            self.available = self.available - 1;
            true
        } else {
            false
        }
    }

    /// How long to wait from `now` until the next refill makes a token
    /// available: zero when a token is already there (or a refill is
    /// already due), otherwise the remainder of the current interval.
    pub fn ticks_until_ready(&self, now: u64) -> (wait: u64)
        requires
            self.wf(),
            now >= self.last_refill,
        ensures
            wait as int == (if self.available > 0 {
                0int
            } else if now - self.last_refill >= self.refill_interval {
                0int
            } else {
                self.last_refill + self.refill_interval - now
            }),
            wait <= self.refill_interval,
            self.available > 0 || now + wait >= self.last_refill + self.refill_interval,
    {
        if self.available > 0 {
            0
        } else {
            let since = now - self.last_refill;
            if since >= self.refill_interval {
                0
            } else {
                self.refill_interval - since
            }
        }
    }
}

/// One acquisition attempt per element of `times`, threaded in order:
/// the bucket after all attempts, and how many attempts were granted.
pub open spec fn acquire_trace(t: Throttler, times: Seq<u64>) -> (Throttler, int)
    decreases times.len(),
{
    if times.len() == 0 {
        (t, 0)
    } else {
        let first = t.spec_try_acquire(times[0]);
        let rest = acquire_trace(first.0, times.skip(1));
        (rest.0, rest.1 + (if first.1 { 1int } else { 0int }))
    }
}

/// While every attempt falls before the interval starting at `last_refill`
/// ends, no refill happens: every granted token comes out of the initial
/// stock, so the stock decreases by exactly the number of grants.
pub proof fn lemma_no_refill_within_window(t: Throttler, times: Seq<u64>, t0: u64)
    requires
        t.wf(),
        t.last_refill == t0,
        forall|i: int|
            0 <= i < times.len() ==> t0 <= #[trigger] times[i] && times[i] < t0
                + t.refill_interval,
    ensures
        acquire_trace(t, times).0.last_refill == t0,
        acquire_trace(t, times).0.capacity == t.capacity,
        acquire_trace(t, times).0.refill_interval == t.refill_interval,
        acquire_trace(t, times).0.available + acquire_trace(t, times).1 == t.available,
        acquire_trace(t, times).0.wf(),
    decreases times.len(),
{
    if times.len() > 0 {
        let now = times[0];
        lemma_basic_div((now - t0) as int, t.refill_interval as int);
        let first = t.spec_try_acquire(now);
        assert(first.0.last_refill == t0);
        assert(first.0.available + (if first.1 { 1int } else { 0int }) == t.available);
        assert(forall|i: int|
            0 <= i < times.skip(1).len() ==> t0 <= #[trigger] times.skip(1)[i] && times.skip(1)[i]
                < t0 + t.refill_interval);
        lemma_no_refill_within_window(first.0, times.skip(1), t0);
    }
}

/// Across any window one refill interval long, starting from a full bucket
/// freshly refilled at the window's start, no more than `capacity`
/// acquisition attempts are granted.
pub proof fn lemma_window_grants_bounded(t: Throttler, times: Seq<u64>, t0: u64)
    requires
        t.wf(),
        t.available == t.capacity,
        t.last_refill == t0,
        forall|i: int|
            0 <= i < times.len() ==> t0 <= #[trigger] times[i] && times[i] < t0
                + t.refill_interval,
    ensures
        acquire_trace(t, times).1 <= t.capacity,
{
    lemma_no_refill_within_window(t, times, t0);
}

/// After an idle stretch whose whole elapsed intervals are worth at least
/// the missing tokens, one refill replenishes the bucket to capacity.
pub proof fn lemma_idle_refills_to_capacity(t: Throttler, now: u64)
    requires
        t.wf(),
        now >= t.last_refill,
        t.available + t.intervals_elapsed(now) * t.quantum >= t.capacity,
    ensures
        t.spec_refill(now).available == t.capacity,
{
}

/// Acquisition never fails, it only waits: an attempt is granted at once
/// while tokens remain, and otherwise as soon as a whole refill interval
/// has passed since `last_refill` — which is exactly where an attempt made
/// [`Throttler::ticks_until_ready`] ticks after `now` lands.
pub proof fn lemma_acquire_only_suspends(t: Throttler, now: u64)
    requires
        t.wf(),
        now >= t.last_refill,
        t.available > 0 || now >= t.last_refill + t.refill_interval,
    ensures
        t.spec_try_acquire(now).1,
{
    if t.available == 0 {
        let elapsed = (now - t.last_refill) as int;
        let iv = t.refill_interval as int;
        lemma_div_is_ordered(iv, elapsed, iv);
        lemma_div_by_self(iv);
        let k = t.intervals_elapsed(now);
        lemma_mul_inequality(1, k, t.quantum as int);
    }
}

/// With a refill quantum of at least the bucket's capacity, one whole idle
/// interval is enough to replenish the bucket to capacity.
pub proof fn lemma_one_idle_interval_fills(t: Throttler, now: u64)
    requires
        t.wf(),
        t.quantum >= t.capacity,
        now >= t.last_refill + t.refill_interval,
    ensures
        t.spec_refill(now).available == t.capacity,
{
    let elapsed = (now - t.last_refill) as int;
    let iv = t.refill_interval as int;
    lemma_div_is_ordered(iv, elapsed, iv);
    lemma_div_by_self(iv);
    let k = t.intervals_elapsed(now);
    assert(k >= 1);
    lemma_mul_inequality(1, k, t.quantum as int);
    lemma_idle_refills_to_capacity(t, now);
}

} // verus!
