//! Kernel timekeeping: a `Duration` of whole seconds and sub-second
//! nanoseconds, advanced on every timer tick by the fixed PIT quantum.
use vstd::prelude::*;

verus! {

/// Nanoseconds in one second; the `nanos` field always stays below this.
pub const NANOS_PER_SEC: u32 = 1_000_000_000;

/// The PIT tick quantum in nanoseconds (the default 8254 divisor period).
pub const PIT_NANOS: u32 = 2_250_286;

/// A span of time: whole seconds plus nanoseconds in `[0, NANOS_PER_SEC)`.
#[derive(Clone, Copy, PartialEq, Eq, Structural, Debug)]
pub struct Duration {
    pub secs: u64,
    pub nanos: u32,
}

impl Duration {
    /// A duration is well formed when the nanosecond field is normalized.
    pub open spec fn wf(self) -> bool {
        self.nanos < NANOS_PER_SEC
    }

    /// The total length in nanoseconds, as a mathematical integer.
    pub open spec fn as_nanos(self) -> int {
        self.secs * (NANOS_PER_SEC as int) + self.nanos
    }

    /// Addition with carry from nanoseconds into seconds; the seconds
    /// field wraps around at 2^64 (never reached in practice).
    pub open spec fn spec_add(self, other: Duration) -> Duration {
        let ns = self.nanos + other.nanos;
        if ns >= NANOS_PER_SEC {
            Duration {
                secs: vstd::wrapping::u64_specs::wrapping_add(
                    vstd::wrapping::u64_specs::wrapping_add(self.secs, other.secs),
                    1,
                ),
                nanos: (ns - NANOS_PER_SEC) as u32,
            }
        } else {
            Duration {
                secs: vstd::wrapping::u64_specs::wrapping_add(self.secs, other.secs),
                nanos: ns as u32,
            }
        }
    }

    /// The zero duration, the initial value of the monotonic clock.
    pub fn zero() -> (d: Duration)
        ensures
            d.wf(),
            d.as_nanos() == 0,
            d == (Duration { secs: 0u64, nanos: 0u32 }),
    {
        Duration { secs: 0, nanos: 0 }
    }

    /// Add two durations, carrying nanoseconds and wrapping the seconds.
    pub fn plus(self, other: Duration) -> (r: Duration)
        requires
            self.wf(),
            other.wf(),
        ensures
            r == self.spec_add(other),
            r.wf(),
            self.secs + other.secs + 1 < u64::MAX ==> r.as_nanos() == self.as_nanos()
                + other.as_nanos(),
    {
        let ns = self.nanos + other.nanos;
        if ns >= NANOS_PER_SEC {
            Duration {
                secs: self.secs.wrapping_add(other.secs).wrapping_add(1),
                nanos: ns - NANOS_PER_SEC,
            }
        } else {
            Duration { secs: self.secs.wrapping_add(other.secs), nanos: ns }
        }
    }

    /// The timer quantum Q added by one delivered tick.
    pub fn pit_quantum() -> (q: Duration)
        ensures
            q == pit_duration(),
    {
        Duration { secs: 0, nanos: PIT_NANOS }
    }
}

/// The quantum Q as a spec-level constant.
pub open spec fn pit_duration() -> Duration {
    Duration { secs: 0u64, nanos: PIT_NANOS }
}

/// The clock value after `n` delivered timer ticks starting from `d`.
pub open spec fn after_ticks(d: Duration, n: nat) -> Duration
    decreases n,
{
    if n == 0 {
        d
    } else {
        after_ticks(d, (n - 1) as nat).spec_add(pit_duration())
    }
}

/// After `n` delivered timer ticks the clock equals its initial value plus
/// `n` times the quantum Q, as long as the seconds field does not wrap.
pub proof fn lemma_ticks_linear(d: Duration, n: nat)
    requires
        d.wf(),
        d.as_nanos() + n * (PIT_NANOS as int) < (u64::MAX as int) * (NANOS_PER_SEC as int),
    ensures
        after_ticks(d, n).wf(),
        after_ticks(d, n).as_nanos() == d.as_nanos() + n * (PIT_NANOS as int),
    decreases n,
{
    if n == 0 {
        assert(n * (PIT_NANOS as int) == 0);
    } else {
        let m = (n - 1) as nat;
        assert(m * (PIT_NANOS as int) <= n * (PIT_NANOS as int)) by (nonlinear_arith)
            requires m <= n,
        ;
        lemma_ticks_linear(d, m);
        let prev = after_ticks(d, m);
        assert(n * (PIT_NANOS as int) == m * (PIT_NANOS as int) + PIT_NANOS) by (nonlinear_arith)
            requires n == m + 1,
        ;
        assert(prev.secs * (NANOS_PER_SEC as int) <= prev.as_nanos());
        assert(prev.secs < u64::MAX) by (nonlinear_arith)
            requires
                prev.secs * (NANOS_PER_SEC as int) <= prev.as_nanos(),
                prev.as_nanos() < (u64::MAX as int) * (NANOS_PER_SEC as int),
        ;
    }
}

} // verus!
