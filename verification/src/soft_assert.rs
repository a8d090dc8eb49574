//! The latch behind a report-once assertion: the first violated check trips
//! it and asks for a report; every later violation stays quiet.

use vstd::prelude::*;

verus! {

/// Remembers whether a violation was already reported.
pub struct SoftAssert {
    tripped: bool,
}

impl SoftAssert {
    /// Whether a violation was already reported.
    pub closed spec fn spec_tripped(self) -> bool {
        self.tripped
    }

    /// A latch that has seen no violation.
    pub fn new() -> (r: Self)
        ensures
            !r.spec_tripped(),
    {
        SoftAssert { tripped: false }
    }

    /// Check one condition: asks for a report exactly when the condition is
    /// violated and nothing was reported before; a violation trips the
    /// latch for good.
    pub fn check(&mut self, condition: bool) -> (report: bool)
        ensures
            report == (!condition && !old(self).spec_tripped()),
            final(self).spec_tripped() == (old(self).spec_tripped() || !condition),
    {
        let report = !condition && !self.tripped;
        if !condition {
            self.tripped = true;
        }
        report
    }
}

} // verus!
