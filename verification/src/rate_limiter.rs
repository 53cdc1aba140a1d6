use vstd::prelude::*;

use crate::rate::Rate;
use std::collections::VecDeque;

verus! {

broadcast use vstd::std_specs::vecdeque::group_vec_dequeue_axioms;

/// A timestamp is fresh when it still lies inside the sliding window that
/// ends at `now`; anything older is stale and must not count toward the
/// saturation of the limiter.
pub open spec fn is_fresh(t: u64, now: u64, per: u64) -> bool {
    t + per > now
}

/// A timestamp sequence is kept oldest-first.
pub open spec fn sorted_ts(s: Seq<u64>) -> bool {
    forall|i: int, j: int| 0 <= i <= j < s.len() ==> s[i] <= s[j]
}

/// The sequence left after the eviction pass: stale timestamps are removed
/// from the front until a fresh one (or the end) is reached.  On an
/// oldest-first sequence this removes exactly the stale entries.
pub open spec fn drop_stale(s: Seq<u64>, now: u64, per: u64) -> Seq<u64>
    decreases s.len(),
{
    if s.len() > 0 && !is_fresh(s[0], now, per) {
        drop_stale(s.drop_first(), now, per)
    } else {
        s
    }
}

/// The wait the limiter imposes on a call arriving at `now`, given the
/// recorded timestamps `s`, the capacity `num` and the window `per`:
/// no wait unless the window already holds `num` fresh requests, otherwise
/// the time until the oldest fresh request leaves the window.
pub open spec fn wait_of(s: Seq<u64>, num: usize, per: u64, now: u64) -> Option<u64> {
    if s.len() < num {
        None
    } else {
        let fresh = drop_stale(s, now, per);
        if fresh.len() < num {
            None
        } else {
            Some((per - (now - fresh[0])) as u64)
        }
    }
}

/// The timestamp sequence of a burst: `k` calls all recorded at instant `t`.
pub open spec fn burst(k: nat, t: u64) -> Seq<u64> {
    Seq::new(k, |i: int| t)
}

/// Sliding-window admission control for outbound requests.
///
/// Holds the arrival timestamps (in milliseconds) of recently admitted
/// requests, oldest first.  A call is admitted immediately while fewer than
/// `rate.num` timestamps lie within the trailing `rate.per` milliseconds;
/// otherwise the caller must wait until the oldest one leaves the window.
pub struct RateLimiter {
    pub rate: Rate,
    pub requests: VecDeque<u64>,
}

impl RateLimiter {
    /// A limiter is well formed when its rate admits at least one request
    /// and its timestamps are ordered oldest first.
    pub open spec fn wf(self) -> bool {
        &&& self.rate.wf()
        &&& sorted_ts(self.requests@)
    }

    /// No recorded timestamp lies in the future of `now`.
    pub open spec fn seen_up_to(self, now: u64) -> bool {
        forall|i: int| 0 <= i < self.requests@.len() ==> self.requests@[i] <= now
    }

    /// Create a new [`RateLimiter`] admitting `num` requests per `per`
    /// milliseconds.
    pub fn new(num: usize, per: u64) -> (r: RateLimiter)
        requires
            num > 0,
        ensures
            r.wf(),
            r.rate.num == num,
            r.rate.per == per,
            r.requests@ =~= Seq::<u64>::empty(),
    {
        RateLimiter { rate: Rate { num, per }, requests: VecDeque::new() }
    }

    /// Remove requests older than the rate duration, as seen from `now`.
    pub fn remove_stale(&mut self, now: u64)
        ensures
            final(self).rate == old(self).rate,
            final(self).requests@ == drop_stale(old(self).requests@, now, old(self).rate.per),
    {
        while self.requests.len() > 0 && !is_fresh_at(self.requests[0], now, self.rate.per)
            invariant
                self.rate == old(self).rate,
                drop_stale(self.requests@, now, self.rate.per)
                    == drop_stale(old(self).requests@, now, old(self).rate.per),
            decreases self.requests.len(),
        {
            proof {
                assert(drop_stale(self.requests@, now, self.rate.per)
                    == drop_stale(self.requests@.drop_first(), now, self.rate.per));
            }
            self.requests.pop_front();
        }
    }

    /// Get the duration in milliseconds to wait, as seen from `now`, before
    /// a request can be made; `None` if no wait is needed.
    ///
    /// Performs the eviction pass as a side effect whenever the limiter is
    /// saturated, exactly as the sliding-window discipline requires.
    pub fn get_wait_duration(&mut self, now: u64) -> (r: Option<u64>)
        requires
            old(self).wf(),
            old(self).seen_up_to(now),
        ensures
            final(self).rate == old(self).rate,
            final(self).wf(),
            final(self).seen_up_to(now),
            r == wait_of(old(self).requests@, old(self).rate.num, old(self).rate.per, now),
            final(self).requests@ == (if old(self).requests@.len() < old(self).rate.num {
                old(self).requests@
            } else {
                drop_stale(old(self).requests@, now, old(self).rate.per)
            }),
    {
        if self.requests.len() < self.rate.num {
            return None;
        }
        proof {
            lemma_drop_stale(self.requests@, now, self.rate.per);
        }
        self.remove_stale(now);
        if self.requests.len() < self.rate.num {
            return None;
        }
        let oldest = self.requests[0];
        let elapsed = now - oldest;
        Some(self.rate.per - elapsed)
    }

    /// Record an admission that happened at `now`.  When the caller had to
    /// wait, the (now expired) oldest timestamp is dropped first, exactly as
    /// the suspended path of the sliding-window discipline does.
    pub fn record(&mut self, waited: bool, now: u64)
        requires
            old(self).wf(),
            old(self).seen_up_to(now),
            waited ==> old(self).requests@.len() > 0,
        ensures
            final(self).rate == old(self).rate,
            final(self).wf(),
            final(self).seen_up_to(now),
            final(self).requests@ == (if waited {
                old(self).requests@.drop_first().push(now)
            } else {
                old(self).requests@.push(now)
            }),
    {
        if waited {
            self.requests.pop_front();
        }
        self.requests.push_back(now);
    }
}

/// Exec mirror of [`is_fresh`]; the widening to 128 bits makes the sum exact.
fn is_fresh_at(t: u64, now: u64, per: u64) -> (r: bool)
    ensures
        r == is_fresh(t, now, per),
{
    (t as u128) + (per as u128) > (now as u128)
}

/// The eviction pass drops exactly a stale prefix: what survives is a suffix
/// of the input whose dropped complement was entirely stale, and on an
/// oldest-first sequence every surviving timestamp lies within the window.
pub proof fn lemma_drop_stale(s: Seq<u64>, now: u64, per: u64)
    ensures
        drop_stale(s, now, per).len() <= s.len(),
        forall|i: int|
            0 <= i < drop_stale(s, now, per).len() ==> drop_stale(s, now, per)[i] == s[i + s.len()
                - drop_stale(s, now, per).len()],
        forall|i: int|
            0 <= i < s.len() - drop_stale(s, now, per).len() ==> !is_fresh(s[i], now, per),
        drop_stale(s, now, per).len() > 0 ==> is_fresh(drop_stale(s, now, per)[0], now, per),
        sorted_ts(s) ==> forall|i: int|
            0 <= i < drop_stale(s, now, per).len() ==> is_fresh(
                drop_stale(s, now, per)[i],
                now,
                per,
            ),
        sorted_ts(s) ==> sorted_ts(drop_stale(s, now, per)),
    decreases s.len(),
{
    if s.len() > 0 && !is_fresh(s[0], now, per) {
        lemma_drop_stale(s.drop_first(), now, per);
        assert(forall|i: int| 0 <= i < s.drop_first().len() ==> s.drop_first()[i] == s[i + 1]);
        assert forall|i: int|
            0 <= i < s.len() - drop_stale(s, now, per).len() implies !is_fresh(
            s[i],
            now,
            per,
        ) by {
            if i > 0 {
                assert(s[i] == s.drop_first()[i - 1]);
            }
        }
    }
}

/// Law (limiter window correctness): in a burst of calls arriving at one
/// instant at an initially empty limiter, each of the first `num` calls
/// observes no wait, the `num + 1`-th observes a wait of the whole window,
/// and each admission extends the burst by one timestamp.
pub proof fn lemma_burst_window(num: usize, per: u64, t: u64, k: nat)
    requires
        num > 0,
        per > 0,
        k <= num,
    ensures
        k < num ==> wait_of(burst(k, t), num, per, t) is None,
        k == num ==> wait_of(burst(k, t), num, per, t) == Some(per),
        burst(k, t).push(t) =~= burst(k + 1, t),
        sorted_ts(burst(k, t)),
{
    if k == num {
        let s = burst(k, t);
        assert(is_fresh(s[0], t, per));
        assert(drop_stale(s, t, per) == s);
        assert(wait_of(s, num, per, t) == Some((per - (t - t)) as u64));
    }
}

/// Law (admission spacing): one acquire step — computing the wait from
/// the recorded timestamps, letting it elapse, and recording the
/// admission — leaves the limiter holding at most `num` timestamps,
/// ordered oldest first, none in the future of the admission instant.
/// The intermediate and final states below are exactly those that
/// [`RateLimiter::get_wait_duration`] and [`RateLimiter::record`]
/// guarantee, and a fresh limiter starts empty, so by induction over the
/// calls no reachable state ever counts more than `num` admissions inside
/// the trailing window.
pub proof fn lemma_acquire_step_bounds(s: Seq<u64>, num: usize, per: u64, now: u64)
    requires
        num > 0,
        sorted_ts(s),
        forall|i: int| 0 <= i < s.len() ==> s[i] <= now,
        s.len() <= num,
        now + per <= u64::MAX,
    ensures
        ({
            let w = wait_of(s, num, per, now);
            let evicted = (if s.len() < num {
                s
            } else {
                drop_stale(s, now, per)
            });
            let admitted_at = (match w {
                Some(d) => (now + d) as u64,
                None => now,
            });
            let after = (match w {
                Some(d) => evicted.drop_first().push(admitted_at),
                None => evicted.push(admitted_at),
            });
            &&& now <= admitted_at
            &&& (w matches Some(d) ==> d <= per)
            &&& after.len() <= num
            &&& sorted_ts(after)
            &&& forall|i: int| 0 <= i < after.len() ==> after[i] <= admitted_at
        }),
{
    lemma_drop_stale(s, now, per);
    let w = wait_of(s, num, per, now);
    if s.len() >= num {
        let f = drop_stale(s, now, per);
        assert(forall|i: int| 0 <= i < f.len() ==> f[i] <= now);
        if f.len() >= num {
            assert(is_fresh(f[0], now, per));
            assert(w == Some((per - (now - f[0])) as u64));
        }
    }
}

/// Law (limiter eviction): timestamps older than the window are excluded
/// from the saturation count — a saturated limiter holding only stale
/// timestamps reports no wait, and the eviction pass empties it.
pub proof fn lemma_stale_all_evicted(s: Seq<u64>, num: usize, per: u64, now: u64)
    requires
        num > 0,
        forall|i: int| 0 <= i < s.len() ==> !is_fresh(s[i], now, per),
    ensures
        drop_stale(s, now, per) =~= Seq::<u64>::empty(),
        wait_of(s, num, per, now) is None,
    decreases s.len(),
{
    if s.len() > 0 {
        assert(forall|i: int|
            0 <= i < s.drop_first().len() ==> !is_fresh(s.drop_first()[i], now, per));
        lemma_stale_all_evicted(s.drop_first(), num, per, now);
    }
}

} // verus!
