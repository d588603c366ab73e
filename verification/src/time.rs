use vstd::prelude::*;

verus! {

/// A span of time in whole seconds and nanoseconds; a moment is given as the
/// span since the Unix epoch.
#[derive(Clone, Copy, Debug, PartialEq, Eq, Structural, Hash)]
pub struct TimeSpan {
    secs: u64,
    nanos: u32,
}

impl TimeSpan {
    #[verifier::type_invariant]
    spec fn wf(self) -> bool {
        self.nanos < 1_000_000_000
    }

    /// The whole seconds of this span.
    pub closed spec fn spec_secs(self) -> u64 {
        self.secs
    }

    /// The nanoseconds past the whole seconds of this span.
    pub closed spec fn spec_nanos(self) -> u32 {
        self.nanos
    }

    /// A span of `secs` seconds and `nanos` nanoseconds; whole seconds in
    /// `nanos` carry into the seconds.
    pub fn new(secs: u64, nanos: u32) -> (r: Self)
        requires
            secs + nanos / 1_000_000_000 <= u64::MAX,
        ensures
            r.spec_secs() == secs + nanos / 1_000_000_000,
            r.spec_nanos() == nanos % 1_000_000_000,
    {
        TimeSpan { secs: secs + (nanos / 1_000_000_000) as u64, nanos: nanos % 1_000_000_000 }
    }

    /// A span of `secs` whole seconds.
    pub fn from_secs(secs: u64) -> (r: Self)
        ensures
            r.spec_secs() == secs,
            r.spec_nanos() == 0,
    {
        TimeSpan { secs, nanos: 0 }
    }

    /// The whole seconds of this span.
    pub fn as_secs(&self) -> (r: u64)
        ensures
            r == self.spec_secs(),
    {
        self.secs
    }

    /// The nanoseconds past the whole seconds of this span.
    pub fn subsec_nanos(&self) -> (r: u32)
        ensures
            r == self.spec_nanos(),
            r < 1_000_000_000,
    {
        proof {
            use_type_invariant(self);
        }
        self.nanos
    }

    /// The whole seconds of the sum of two spans.
    pub open spec fn spec_sum_secs(self, other: TimeSpan) -> int {
        self.spec_secs() + other.spec_secs() + (self.spec_nanos() + other.spec_nanos()) / 1_000_000_000
    }
}

} // verus!
