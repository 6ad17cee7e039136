use vstd::prelude::*;

verus! {

/// A monotonically increasing count of processed URLs. The consumer loop
/// increments it exactly once per iteration, whether that iteration emitted
/// a document or logged a failure, and it is read once at shutdown for the
/// run's report. Each operation's contract shows the count never decreases.
pub struct ThroughputCounter {
    count: u64,
}

impl ThroughputCounter {
    /// The current count.
    pub closed spec fn spec_count(&self) -> u64 {
        self.count
    }

    /// A fresh counter starts at zero; it is reset only at process start.
    pub fn new() -> (r: ThroughputCounter)
        ensures
            r.spec_count() == 0,
    {
        ThroughputCounter { count: 0 }
    }

    /// Record one processed URL.
    pub fn increment(&mut self)
        requires
            old(self).spec_count() < u64::MAX,
        ensures
            final(self).spec_count() == old(self).spec_count() + 1,
    {
        self.count = self.count + 1;
    }

    /// Read the count for the shutdown report.
    pub fn get(&self) -> (r: u64)
        ensures
            r == self.spec_count(),
    {
        self.count
    }
}

} // verus!
