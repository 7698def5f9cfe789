//! Instrumentation counters for the dispatcher: how many calls took the
//! optimized single-block path (hits) and a small histogram of the calls
//! that did not (misses), bucketed by approximate input size. The counters
//! are best-effort observability, not a correctness mechanism; they only
//! move upward and saturate at the top of their range instead of wrapping.

use vstd::prelude::*;

verus! {

/// Hit and miss counters for the dispatcher's routing decisions.
pub struct HashStats {
    hits: u64,
    misses: [u64; 32],
}

/// The miss bucket for a total input length: lengths are clamped to the
/// range [1, 32], and bucket `i` counts inputs of `i + 1` total bytes.
pub open spec fn miss_bucket(total: int) -> int {
    if total <= 1 {
        0
    } else if total >= 32 {
        31
    } else {
        total - 1
    }
}

/// One hit was counted between `pre` and `post`: the hit counter moved up by
/// one (saturating at the top of its range) and the miss histogram is
/// untouched.
pub open spec fn hit_recorded(pre: HashStats, post: HashStats) -> bool {
    &&& (pre.spec_hits() < u64::MAX ==> post.spec_hits() == pre.spec_hits() + 1)
    &&& (pre.spec_hits() == u64::MAX ==> post.spec_hits() == u64::MAX)
    &&& post.spec_hits() >= pre.spec_hits()
    &&& post.spec_misses() == pre.spec_misses()
}

/// One miss was counted in bucket `b` between `pre` and `post`: that bucket
/// moved up by one (saturating at the top of its range), every other bucket
/// and the hit counter are untouched.
pub open spec fn miss_recorded(pre: HashStats, post: HashStats, b: int) -> bool {
    &&& post.spec_hits() == pre.spec_hits()
    &&& post.spec_misses().len() == pre.spec_misses().len()
    &&& (pre.spec_misses()[b] < u64::MAX ==> post.spec_misses()[b] == pre.spec_misses()[b] + 1)
    &&& (pre.spec_misses()[b] == u64::MAX ==> post.spec_misses()[b] == u64::MAX)
    &&& (forall|i: int|
        0 <= i < pre.spec_misses().len() && i != b ==> post.spec_misses()[i]
            == pre.spec_misses()[i])
    &&& (forall|i: int|
        0 <= i < pre.spec_misses().len() ==> post.spec_misses()[i] >= pre.spec_misses()[i])
}

impl HashStats {
    /// The number of calls counted on the optimized path.
    pub closed spec fn spec_hits(&self) -> u64 {
        self.hits
    }

    /// The miss histogram, one bucket per clamped input size.
    pub closed spec fn spec_misses(&self) -> Seq<u64> {
        self.misses@
    }

    /// Fresh counters, all zero.
    pub fn new() -> (r: HashStats)
        ensures
            r.spec_hits() == 0,
            r.spec_misses().len() == 32,
            forall|i: int| 0 <= i < 32 ==> r.spec_misses()[i] == 0,
    {
        HashStats { hits: 0, misses: [0u64; 32] }
    }

    /// Count one call routed to the optimized path. The result says whether
    /// the periodic log line is due, which is the case on every 10000th hit,
    /// judged by the count before the increment.
    pub fn record_hit(&mut self) -> (log_due: bool)
        ensures
            hit_recorded(*old(self), *final(self)),
            log_due == (old(self).spec_hits() % 10000 == 0),
    {
        let due = self.hits % 10000 == 0;
        if self.hits < u64::MAX {
            self.hits = self.hits + 1;
        }
        due
    }

    /// Count one call that missed the optimized path, bucketed by the total
    /// input length clamped to [1, 32].
    pub fn record_miss(&mut self, total_len: usize)
        ensures
            miss_recorded(*old(self), *final(self), miss_bucket(total_len as int)),
    {
        let b: usize = if total_len <= 1 {
            0
        } else if total_len >= 32 {
            31
        } else {
            total_len - 1
        };
        let cur = self.misses[b];
        if cur < u64::MAX {
            self.misses[b] = cur + 1;
        }
    }

    /// The number of calls counted on the optimized path.
    pub fn hits(&self) -> (r: u64)
        ensures
            r == self.spec_hits(),
    {
        self.hits
    }

    /// The number of misses counted in the given bucket.
    pub fn miss_count(&self, bucket: usize) -> (r: u64)
        requires
            bucket < 32,
        ensures
            r == self.spec_misses()[bucket as int],
    {
        self.misses[bucket]
    }
}

/// Law: whichever path a recorded call took, the counters only move upward.
pub proof fn lemma_recording_monotone(pre: HashStats, post: HashStats, b: int)
    requires
        hit_recorded(pre, post) || (0 <= b < pre.spec_misses().len() && miss_recorded(
            pre,
            post,
            b,
        )),
    ensures
        post.spec_hits() >= pre.spec_hits(),
        forall|i: int| 0 <= i < pre.spec_misses().len() ==> post.spec_misses()[i]
            >= pre.spec_misses()[i],
{
}

} // verus!
