use vstd::prelude::*;

use crate::error::APIError;

verus! {

/// `x` lies in the rolling one-second window ending at `t`: the half-open
/// span `(t - 1000, t]`, in milliseconds.
pub open spec fn in_window(t: int, x: u64) -> bool {
    t - 1000 < x <= t
}

/// How many entries of `s` lie in the rolling window ending at `t`.
pub open spec fn count_in_window(s: Seq<u64>, t: int) -> nat
    decreases s.len(),
{
    if s.len() == 0 {
        0
    } else {
        count_in_window(s.drop_last(), t) + (if in_window(t, s.last()) {
            1nat
        } else {
            0nat
        })
    }
}

/// The entries of `s` never decrease.
pub open spec fn sorted(s: Seq<u64>) -> bool {
    forall|i: int, j: int| 0 <= i <= j < s.len() ==> s[i] <= s[j]
}

/// Any `k + 1` consecutive entries of `s` span at least the window: entry
/// `i + k` comes no less than 1000 ms after entry `i`.
pub open spec fn spaced(s: Seq<u64>, k: int) -> bool {
    forall|i: int| 0 <= i && i + k < s.len() ==> #[trigger] s[i + k] >= s[i] + 1000
}

/// In a sorted sequence, the entries at most `x` form a prefix; this returns
/// where that prefix ends.
proof fn lemma_sorted_cut(s: Seq<u64>, x: int) -> (c: int)
    requires
        sorted(s),
    ensures
        0 <= c <= s.len(),
        forall|j: int| 0 <= j < c ==> s[j] <= x,
        forall|j: int| c <= j < s.len() ==> s[j] > x,
    decreases s.len(),
{
    if s.len() == 0 {
        0
    } else if s.last() <= x {
        assert forall|j: int| 0 <= j < s.len() implies s[j] <= x by {
            assert(s[j] <= s[s.len() - 1]);
        }
        s.len() as int
    } else {
        assert(sorted(s.drop_last())) by {
            assert forall|i: int, j: int|
                0 <= i <= j < s.drop_last().len() implies s.drop_last()[i] <= s.drop_last()[j] by {
                assert(s[i] <= s[j]);
            }
        }
        let c = lemma_sorted_cut(s.drop_last(), x);
        assert forall|j: int| 0 <= j < c implies s[j] <= x by {
            assert(s.drop_last()[j] <= x);
        }
        assert forall|j: int| c <= j < s.len() implies s[j] > x by {
            if j < s.len() - 1 {
                assert(s.drop_last()[j] > x);
            }
        }
        c
    }
}

/// When a sorted sequence's entries all lie at or before `t` and split at `c`
/// into those at most `t - 1000` and those after it, the in-window count is
/// exactly the suffix length.
proof fn lemma_count_by_cut(s: Seq<u64>, t: int, c: int)
    requires
        0 <= c <= s.len(),
        forall|j: int| 0 <= j < c ==> s[j] <= t - 1000,
        forall|j: int| c <= j < s.len() ==> s[j] > t - 1000,
        forall|j: int| 0 <= j < s.len() ==> s[j] <= t,
    ensures
        count_in_window(s, t) == s.len() - c,
    decreases s.len(),
{
    if s.len() > 0 {
        if c == s.len() {
            lemma_count_by_cut(s.drop_last(), t, s.len() - 1);
        } else {
            lemma_count_by_cut(s.drop_last(), t, c);
        }
    }
}

/// Rate bound, as a fact about any sorted, spaced record of attempt starts:
/// no rolling one-second window contains more than `k` of them.
pub proof fn lemma_window_bound(s: Seq<u64>, k: int, t: int)
    requires
        sorted(s),
        spaced(s, k),
        k >= 1,
    ensures
        count_in_window(s, t) <= k,
    decreases s.len(),
{
    if s.len() == 0 {
    } else if !in_window(t, s.last()) {
        assert(sorted(s.drop_last())) by {
            assert forall|i: int, j: int|
                0 <= i <= j < s.drop_last().len() implies s.drop_last()[i] <= s.drop_last()[j] by {
                assert(s[i] <= s[j]);
            }
        }
        assert(spaced(s.drop_last(), k)) by {
            assert forall|i: int| 0 <= i && i + k < s.drop_last().len() implies #[trigger] s
                .drop_last()[i + k] >= s.drop_last()[i] + 1000 by {
                assert(s[i + k] >= s[i] + 1000);
            }
        }
        lemma_window_bound(s.drop_last(), k, t);
    } else {
        // Every entry is at or before `t`, since the last one is.
        assert forall|j: int| 0 <= j < s.len() implies s[j] <= t by {
            assert(s[j] <= s[s.len() - 1]);
        }
        let c = lemma_sorted_cut(s, t - 1000);
        lemma_count_by_cut(s, t, c);
        if s.len() - c > k {
            // Entries c and c + k both fall in the window, yet are spaced a
            // whole window apart.
            assert(s[c + k] >= s[c] + 1000);
            assert(s[c + k] <= s[s.len() - 1]);
            assert(false);
        }
    }
}

/// A window that begins after every recorded start holds none of them.
pub proof fn lemma_window_clear(s: Seq<u64>, t: int)
    requires
        forall|i: int| 0 <= i < s.len() ==> #[trigger] s[i] + 1000 <= t,
    ensures
        count_in_window(s, t) == 0,
    decreases s.len(),
{
    if s.len() > 0 {
        lemma_window_clear(s.drop_last(), t);
    }
}

/// Caps the number of attempts started per rolling second: an attempt may
/// start only while fewer than `rate` starts lie in the second ending now.
/// The full record of granted starts is kept as a ghost history; only the
/// starts still inside the window are kept at run time.
pub struct RateLimiter {
    rate: u64,
    last_ms: u64,
    window: Vec<u64>,
    history: Ghost<Seq<u64>>,
    split: Ghost<int>,
}

impl RateLimiter {
    /// The cap on starts per rolling second.
    pub closed spec fn spec_rate(&self) -> u64 {
        self.rate
    }

    /// Every attempt start the limiter ever granted, in time order.
    pub closed spec fn starts(&self) -> Seq<u64> {
        self.history@
    }

    /// The time of the most recent acquisition call.
    pub closed spec fn spec_last(&self) -> u64 {
        self.last_ms
    }

    /// The limiter's invariant: the run-time window is the suffix of the
    /// ghost history that is still inside the rolling second, and the history
    /// is ordered and spaced so that no window ever holds more than `rate`
    /// starts.
    pub closed spec fn wf(&self) -> bool {
        &&& self.rate >= 1
        &&& 0 <= self.split@ <= self.history@.len()
        &&& self.window@ == self.history@.subrange(self.split@, self.history@.len() as int)
        &&& sorted(self.history@)
        &&& spaced(self.history@, self.rate as int)
        &&& forall|i: int| 0 <= i < self.history@.len() ==> #[trigger] self.history@[i] <= self.last_ms
        &&& forall|i: int|
            0 <= i < self.split@ ==> #[trigger] self.history@[i] + 1000 <= self.last_ms
    }

    /// A limiter for `rate_limit` starts per rolling second; a rate of zero
    /// is rejected at construction.
    pub fn new(rate_limit: u64) -> (r: Result<RateLimiter, APIError>)
        ensures
            r is Ok <==> rate_limit >= 1,
            r matches Ok(rl) ==> rl.wf() && rl.spec_rate() == rate_limit && rl.starts()
                == Seq::<u64>::empty() && rl.spec_last() == 0,
            r matches Err(e) ==> e matches APIError::Other(m) && m@
                == "Invalid rate limit value"@,
    {
        if rate_limit >= 1 {
            let rl = RateLimiter {
                rate: rate_limit,
                last_ms: 0,
                window: Vec::new(),
                history: Ghost(Seq::empty()),
                split: Ghost(0),
            };
            proof {
                assert(rl.window@ =~= rl.history@.subrange(0, 0));
            }
            Ok(rl)
        } else {
            Err(APIError::Other("Invalid rate limit value".to_owned()))
        }
    }

    /// Grant a start at time `now_ms` exactly when fewer than `rate` starts
    /// already lie in the rolling second ending now. Time never runs
    /// backwards between calls.
    pub fn try_acquire(&mut self, now_ms: u64) -> (granted: bool)
        requires
            old(self).wf(),
            now_ms >= old(self).spec_last(),
        ensures
            final(self).wf(),
            final(self).spec_rate() == old(self).spec_rate(),
            final(self).spec_last() == now_ms,
            granted <==> count_in_window(old(self).starts(), now_ms as int) < old(
                self,
            ).spec_rate(),
            granted ==> final(self).starts() == old(self).starts().push(now_ms),
            !granted ==> final(self).starts() == old(self).starts(),
    {
        let ghost h = self.history@;
        let ghost n = h.len() as int;
        // Let the starts that have aged out of the window go.
        loop
            invariant
                n == h.len() as int,
                self.rate == old(self).rate,
                self.last_ms == old(self).last_ms,
                self.history@ == h,
                now_ms >= self.last_ms,
                0 <= self.split@ <= n,
                self.window@ == h.subrange(self.split@, n),
                sorted(h),
                spaced(h, self.rate as int),
                forall|i: int| 0 <= i < n ==> #[trigger] h[i] <= self.last_ms,
                forall|i: int| 0 <= i < self.split@ ==> #[trigger] h[i] + 1000 <= now_ms,
            ensures
                self.rate == old(self).rate,
                self.last_ms == old(self).last_ms,
                self.history@ == h,
                0 <= self.split@ <= n,
                self.window@ == h.subrange(self.split@, n),
                forall|i: int| 0 <= i < self.split@ ==> #[trigger] h[i] + 1000 <= now_ms,
                self.window.len() == 0 || h[self.split@] + 1000 > now_ms,
            decreases self.window.len(),
        {
            if self.window.len() == 0 {
                break;
            }
            let front = self.window[0];
            proof {
                assert(front == h[self.split@]);
                assert(h[self.split@] <= self.last_ms);
            }
            if now_ms - front < 1000 {
                break;
            }
            self.window.remove(0);
            proof {
                self.split@ = self.split@ + 1;
                assert(self.window@ =~= h.subrange(self.split@, n));
            }
        }
        proof {
            // The remaining window is exactly the in-window suffix of the
            // history.
            assert forall|j: int| self.split@ <= j < n implies h[j] > now_ms - 1000 by {
                assert(h[self.split@] <= h[j]);
            }
            assert forall|j: int| 0 <= j < n implies h[j] <= now_ms by {
                assert(h[j] <= self.last_ms);
            }
            lemma_count_by_cut(h, now_ms as int, self.split@);
        }
        self.last_ms = now_ms;
        if (self.window.len() as u64) < self.rate {
            self.window.push(now_ms);
            proof {
                self.history@ = h.push(now_ms);
                assert(self.window@ =~= self.history@.subrange(
                    self.split@,
                    self.history@.len() as int,
                ));
                assert(sorted(self.history@)) by {
                    assert forall|i: int, j: int|
                        0 <= i <= j < self.history@.len() implies self.history@[i]
                        <= self.history@[j] by {
                        if j < n {
                            assert(h[i] <= h[j]);
                        } else if i < n {
                            assert(h[i] <= self.last_ms);
                        }
                    }
                }
                assert(spaced(self.history@, self.rate as int)) by {
                    assert forall|i: int|
                        0 <= i && i + self.rate < self.history@.len() implies #[trigger] self
                        .history@[i + self.rate] >= self.history@[i] + 1000 by {
                        if i + self.rate < n {
                            assert(h[i + self.rate] >= h[i] + 1000);
                        } else {
                            // The new start is the (rate)-th after entry i, so
                            // entry i had already aged out of the window.
                            assert(i < self.split@);
                            assert(h[i] + 1000 <= now_ms);
                        }
                    }
                }
            }
            true
        } else {
            false
        }
    }

    /// The cap on starts per rolling second.
    pub fn rate(&self) -> (r: u64)
        ensures
            r == self.spec_rate(),
    {
        self.rate
    }

    /// No start is recorded after the most recent acquisition call.
    pub proof fn lemma_starts_bounded(&self)
        requires
            self.wf(),
        ensures
            forall|i: int|
                0 <= i < self.starts().len() ==> #[trigger] self.starts()[i] <= self.spec_last(),
    {
    }

    /// The record of starts is in time order.
    pub proof fn lemma_starts_ordered(&self, i: int, j: int)
        requires
            self.wf(),
            0 <= i <= j < self.starts().len(),
        ensures
            self.starts()[i] <= self.starts()[j],
    {
    }

    /// Rate bound: at no instant does the rolling one-second window ending
    /// there contain more recorded attempt starts than the limiter's rate.
    pub proof fn lemma_rate_bound(&self, t: int)
        requires
            self.wf(),
        ensures
            count_in_window(self.starts(), t) <= self.spec_rate(),
    {
        lemma_window_bound(self.history@, self.rate as int, t);
    }
}

} // verus!
