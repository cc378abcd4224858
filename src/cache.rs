use vstd::prelude::*;

verus! {

/// A value that is rebuilt only after a bounded number of reads.
///
/// The value is produced on first access and again whenever `count` has reached
/// `threshold`; every rebuild sets `count` back to 0, every access adds 1.
pub struct RefreshCache<T> {
    pub value: Option<T>,
    pub count: usize,
    pub threshold: usize,
}

/// Whether an access made with this stored state calls the producer.
pub open spec fn refresh_due(has_value: bool, count: nat, threshold: nat) -> bool {
    !has_value || count >= threshold
}

/// How many times the producer runs during `n` accesses, starting from the given state.
pub open spec fn refreshes(has_value: bool, count: nat, threshold: nat, n: nat) -> nat
    decreases n,
{
    if n == 0 {
        0
    } else if refresh_due(has_value, count, threshold) {
        1 + refreshes(true, 1, threshold, (n - 1) as nat)
    } else {
        refreshes(true, count + 1, threshold, (n - 1) as nat)
    }
}

impl<T> RefreshCache<T> {
    pub open spec fn due(&self) -> bool {
        refresh_due(self.value.is_some(), self.count as nat, self.threshold as nat)
    }

    /// An empty cache that rebuilds its value every `threshold` accesses.
    pub fn new(threshold: usize) -> (r: Self)
        ensures
            r.value.is_none(),
            r.count == 0,
            r.threshold == threshold,
    {
        RefreshCache { value: None, count: 0, threshold }
    }

    /// Returns the stored value, first producing it anew when it is absent or
    /// has been read `threshold` times since it was produced.
    pub fn get_or_refresh<F: Fn() -> T>(&mut self, producer: F) -> (r: &T)
        requires
            producer.requires(()),
        ensures
            final(self).threshold == old(self).threshold,
            final(self).value == Some(*r),
            old(self).due() ==> final(self).count == 1 && producer.ensures((), *r),
            !old(self).due() ==> final(self).count == old(self).count + 1 && old(self).value
                == Some(*r),
    {
        if self.value.is_none() || self.count >= self.threshold {
            let v = producer();
            self.value = Some(v);
            self.count = 0;
        }
        self.count = self.count + 1;
        self.value.as_ref().unwrap()
    }
}

/// From an empty cache with threshold `t >= 1`, `n` accesses run the producer once when
/// `1 <= n <= t`, and exactly twice when `n == t + 1` (the first access and the access `t + 1`).
pub proof fn lemma_refresh_threshold(t: nat, n: nat)
    requires
        t >= 1,
        1 <= n <= t + 1,
    ensures
        n <= t ==> refreshes(false, 0, t, n) == 1,
        n == t + 1 ==> refreshes(false, 0, t, n) == 2,
{
    if n <= t {
        lemma_reuse_run(t, 1, (n - 1) as nat);
    } else {
        lemma_split_from(t, 1, (t - 1) as nat);
    }
}

/// Starting at count `c`, accesses that stay below the threshold run no producer.
proof fn lemma_reuse_run(t: nat, c: nat, k: nat)
    requires
        c + k <= t,
        c >= 1,
    ensures
        refreshes(true, c, t, k) == 0,
    decreases k,
{
    if k > 0 {
        lemma_reuse_run(t, c + 1, (k - 1) as nat);
    }
}

/// From count `c`, the `t - c` accesses that reuse the value are followed by one rebuild.
proof fn lemma_split_from(t: nat, c: nat, k: nat)
    requires
        c >= 1,
        c + k == t,
    ensures
        refreshes(true, c, t, k + 1) == 1,
    decreases k,
{
    if k == 0 {
        assert(refreshes(true, c, t, 0) == 0);
        assert(refreshes(true, 1, t, 0) == 0);
    } else {
        lemma_split_from(t, c + 1, (k - 1) as nat);
    }
}

} // verus!
