use vstd::prelude::*;

verus! {

/// Milliseconds in one second.
pub const MSEC_PER_SEC: usize = 1000;

/// Nanoseconds in one millisecond.
pub const NSEC_PER_MSEC: usize = 1_000_000;

/// A duration in the layout the kernel's `nanosleep` reads: whole seconds
/// plus the nanoseconds that remain.
#[derive(Clone, Copy, Debug, PartialEq, Eq, Structural)]
pub struct TimeSpec {
    /// seconds
    pub sec: usize,
    /// nano seconds
    pub nsec: usize,
}

/// The duration, in nanoseconds, that a `TimeSpec` stands for.
pub open spec fn timespec_nanos(ts: TimeSpec) -> int {
    ts.sec * 1_000_000_000 + ts.nsec
}

/// The sleep request for a pause of `period_ms` milliseconds: the whole
/// seconds in `sec`, the remaining milliseconds as nanoseconds in `nsec`.
pub fn sleep(period_ms: usize) -> (ts: TimeSpec)
    ensures
        ts.sec == period_ms / 1000,
        ts.nsec == (period_ms % 1000) * 1_000_000,
        ts.nsec < 1_000_000_000,
        timespec_nanos(ts) == period_ms * 1_000_000,
{
    let sec: usize = period_ms / MSEC_PER_SEC;
    let rem: usize = period_ms % MSEC_PER_SEC;
    assert(rem * 1_000_000 < 1_000_000_000) by (nonlinear_arith)
        requires rem < 1000;
    let nsec: usize = rem * NSEC_PER_MSEC;
    proof {
        let p = period_ms as int;
        assert(p == (p / 1000) * 1000 + p % 1000) by (nonlinear_arith);
        assert((p / 1000) * 1_000_000_000 + (p % 1000) * 1_000_000 == p * 1_000_000) by (nonlinear_arith)
            requires p == (p / 1000) * 1000 + p % 1000;
    }
    TimeSpec { sec, nsec }
}

} // verus!
