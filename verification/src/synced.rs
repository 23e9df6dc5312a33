//! Latest-value publication of the synced height, and the decisions waiters
//! apply to it.
//!
//! One writer (the sync task) publishes, any number of readers observe; only
//! the most recent value is ever visible (no queued history), which suffices
//! because the synced height is monotone and waiters only care about
//! reaching a threshold.

use vstd::prelude::*;

verus! {

/// Single-value observable carrying the synced height: `None` before the
/// first successful cycle, afterwards the last committed watermark.
pub struct SyncNotifier {
    latest: Option<u64>,
    history: Ghost<Seq<u64>>,
}

impl SyncNotifier {
    /// All values ever published, in publication order. Ghost bookkeeping:
    /// nothing of it exists at run time.
    pub closed spec fn history(&self) -> Seq<u64> {
        self.history@
    }

    /// The value a reader observes now.
    pub closed spec fn latest_spec(&self) -> Option<u64> {
        self.latest
    }

    /// The channel has only ever carried non-decreasing values, and the
    /// visible value is the newest of them.
    pub closed spec fn wf(&self) -> bool {
        &&& self.latest is None <==> self.history@.len() == 0
        &&& self.latest matches Some(h) ==> self.history@.len() > 0 && self.history@.last() == h
        &&& forall|i: int, j: int|
            0 <= i <= j < self.history@.len() ==> self.history@[i] <= self.history@[j]
    }

    /// A channel over which nothing has been published yet.
    pub fn new() -> (r: SyncNotifier)
        ensures
            r.wf(),
            r.latest_spec() is None,
            r.history() == Seq::<u64>::empty(),
    {
        SyncNotifier { latest: None, history: Ghost(Seq::empty()) }
    }

    /// Publish a new synced height, replacing the visible value. The single
    /// writer publishes only the committed watermark, which never decreases,
    /// so every call site meets the requirement.
    pub fn publish(&mut self, height: u64)
        requires
            old(self).wf(),
            old(self).latest_spec() matches Some(p) ==> p <= height,
        ensures
            final(self).wf(),
            final(self).latest_spec() == Some(height),
            final(self).history() == old(self).history().push(height),
    {
        proof {
            let pre = self.history@;
            let post = pre.push(height);
            assert forall|i: int, j: int| 0 <= i <= j < post.len() implies post[i] <= post[j] by {
                if j < pre.len() {
                } else if i < pre.len() {
                    assert(pre[i] <= pre[pre.len() - 1]);
                }
            }
        }
        self.latest = Some(height);
        self.history = Ghost(self.history@.push(height));
    }

    /// Observe the most recently published synced height, if any.
    pub fn latest(&self) -> (r: Option<u64>)
        ensures
            r == self.latest_spec(),
    {
        self.latest
    }
}

/// Decision applied by a waiter for first-time consistency: the wait is over
/// once any synced height has been published.
pub fn synced_reached(observed: &Option<u64>) -> (r: bool)
    ensures
        r <==> observed is Some,
{
    observed.is_some()
}

/// Decision applied by a waiter on a threshold: the wait is over once the
/// observed synced height is at least `height`; an unset value or a lower
/// height keeps the waiter suspended.
pub fn at_least_synced(observed: &Option<u64>, height: u64) -> (r: bool)
    ensures
        r == (observed matches Some(h) && h >= height),
{
    match observed {
        Some(h) => *h >= height,
        None => false,
    }
}

/// Monotonicity: the synced heights observable over the life of the channel
/// form a non-decreasing sequence, so no reader ever sees progress move
/// backwards.
pub proof fn lemma_synced_monotone(n: SyncNotifier, i: int, j: int)
    requires
        n.wf(),
        0 <= i <= j < n.history().len(),
    ensures
        n.history()[i] <= n.history()[j],
{
}

} // verus!
