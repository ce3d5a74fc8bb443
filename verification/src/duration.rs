//! Simulated time, measured in clock cycles of the device under test.

use vstd::prelude::*;

verus! {

/// Like `core::time::Duration`, but counted in cycles of the simulated
/// device's clock.
///
/// A duration is a pair of a clock frequency (in Hz) and a number of
/// cycles; every conversion from or to a real time unit is derived from
/// that pair.  Two durations may only be added or subtracted when their
/// clock frequencies agree: mixing frequencies is a caller bug, so both
/// operations require it.  Subtraction saturates at zero cycles.
#[derive(Clone, Copy, Debug, PartialEq, Eq, Structural, PartialOrd, Ord, Hash)]
pub struct AvrDuration {
    pub clock_frequency: u32,
    pub cycles: u64,
}

/// `a - b`, saturating at zero.
pub open spec fn saturating_sub(a: u64, b: u64) -> u64 {
    if a >= b {
        (a - b) as u64
    } else {
        0u64
    }
}

/// Number of cycles that `n` microseconds take at the given clock
/// frequency (whole cycles per microsecond, as the device counts them).
pub open spec fn micros_to_cycles(n: u64, clock_frequency: u32) -> int {
    n * (clock_frequency as u64 / 1_000_000)
}

/// Number of cycles that `n` milliseconds take at the given clock
/// frequency.
pub open spec fn millis_to_cycles(n: u64, clock_frequency: u32) -> int {
    n * clock_frequency / 1000
}

/// Number of cycles that `n` seconds take at the given clock frequency.
pub open spec fn secs_to_cycles(n: u64, clock_frequency: u32) -> int {
    n * clock_frequency
}

impl AvrDuration {
    /// The sum of two durations of equal clock frequency.
    pub open spec fn spec_add(self, rhs: AvrDuration) -> AvrDuration
        recommends
            self.clock_frequency == rhs.clock_frequency,
            self.cycles + rhs.cycles <= u64::MAX,
    {
        AvrDuration { clock_frequency: self.clock_frequency, cycles: (self.cycles + rhs.cycles) as u64 }
    }

    /// The difference of two durations of equal clock frequency,
    /// saturating at zero cycles.
    pub open spec fn spec_sub(self, rhs: AvrDuration) -> AvrDuration
        recommends
            self.clock_frequency == rhs.clock_frequency,
    {
        AvrDuration {
            clock_frequency: self.clock_frequency,
            cycles: if self.cycles >= rhs.cycles {
                (self.cycles - rhs.cycles) as u64
            } else {
                0u64
            },
        }
    }

    /// This duration expressed in microseconds, rounded to nearest.
    pub open spec fn spec_as_micros(self) -> int
        recommends
            self.clock_frequency > 0,
    {
        (self.cycles * 1_000_000 + self.clock_frequency / 2) / (self.clock_frequency as int)
    }

    /// This duration expressed in milliseconds, rounded to nearest.
    pub open spec fn spec_as_millis(self) -> int
        recommends
            self.clock_frequency > 0,
    {
        (self.cycles * 1000 + self.clock_frequency / 2) / (self.clock_frequency as int)
    }

    /// This duration expressed in seconds, rounded to nearest.
    pub open spec fn spec_as_secs(self) -> int
        recommends
            self.clock_frequency > 0,
    {
        (self.cycles + self.clock_frequency / 2) / (self.clock_frequency as int)
    }

    /// Creates a new duration for given clock frequency and number of
    /// cycles.
    pub fn new(clock_frequency: u32, cycles: u64) -> (r: Self)
        ensures
            r == (AvrDuration { clock_frequency, cycles }),
    {
        Self { clock_frequency, cycles }
    }

    /// Returns a new duration with increased number of cycles.
    pub fn add_cycles(self, n: u64) -> (r: Self)
        requires
            self.cycles + n <= u64::MAX,
        ensures
            r.clock_frequency == self.clock_frequency,
            r.cycles == self.cycles + n,
    {
        Self { clock_frequency: self.clock_frequency, cycles: self.cycles + n }
    }

    /// Returns a new duration with increased number of microseconds.
    pub fn add_micros(self, n: u64) -> (r: Self)
        requires
            self.cycles + micros_to_cycles(n, self.clock_frequency) <= u64::MAX,
        ensures
            r.clock_frequency == self.clock_frequency,
            r.cycles == self.cycles + micros_to_cycles(n, self.clock_frequency),
    {
        proof {
            lemma_micros_to_cycles_bounds(n, self.clock_frequency);
        }
        self.add_cycles(n * (self.clock_frequency as u64 / 1_000_000))
    }

    /// Returns a new duration with increased number of milliseconds.
    pub fn add_millis(self, millis: u64) -> (r: Self)
        requires
            millis * self.clock_frequency <= u64::MAX,
            self.cycles + millis_to_cycles(millis, self.clock_frequency) <= u64::MAX,
        ensures
            r.clock_frequency == self.clock_frequency,
            r.cycles == self.cycles + millis_to_cycles(millis, self.clock_frequency),
    {
        self.add_cycles(millis * (self.clock_frequency as u64) / 1000)
    }

    /// Returns a new duration with increased number of seconds.
    pub fn add_secs(self, secs: u64) -> (r: Self)
        requires
            secs * self.clock_frequency <= u64::MAX,
            self.cycles + secs_to_cycles(secs, self.clock_frequency) <= u64::MAX,
        ensures
            r.clock_frequency == self.clock_frequency,
            r.cycles == self.cycles + secs_to_cycles(secs, self.clock_frequency),
    {
        self.add_cycles(secs * (self.clock_frequency as u64))
    }

    /// Returns a new duration with specified number of cycles.
    pub fn with_cycles(self, n: u64) -> (r: Self)
        ensures
            r.clock_frequency == self.clock_frequency,
            r.cycles == n,
    {
        Self { clock_frequency: self.clock_frequency, cycles: n }
    }

    /// Returns a new duration with specified number of microseconds.
    pub fn with_micros(self, n: u64) -> (r: Self)
        requires
            micros_to_cycles(n, self.clock_frequency) <= u64::MAX,
        ensures
            r.clock_frequency == self.clock_frequency,
            r.cycles == micros_to_cycles(n, self.clock_frequency),
    {
        self.with_cycles(0).add_micros(n)
    }

    /// Returns a new duration with specified number of milliseconds.
    pub fn with_millis(self, n: u64) -> (r: Self)
        requires
            n * self.clock_frequency <= u64::MAX,
        ensures
            r.clock_frequency == self.clock_frequency,
            r.cycles == millis_to_cycles(n, self.clock_frequency),
    {
        proof {
            lemma_millis_to_cycles_bounds(n, self.clock_frequency);
        }
        self.with_cycles(0).add_millis(n)
    }

    /// Returns a new duration with specified number of seconds.
    pub fn with_secs(self, n: u64) -> (r: Self)
        requires
            n * self.clock_frequency <= u64::MAX,
        ensures
            r.clock_frequency == self.clock_frequency,
            r.cycles == secs_to_cycles(n, self.clock_frequency),
    {
        self.with_cycles(0).add_secs(n)
    }

    /// Returns the clock frequency associated with this duration
    /// (e.g. 16 MHz).
    pub fn clock_frequency(self) -> (r: u32)
        ensures
            r == self.clock_frequency,
    {
        self.clock_frequency
    }

    /// Returns the number of cycles contained by this duration.
    pub fn as_cycles(self) -> (r: u64)
        ensures
            r == self.cycles,
    {
        self.cycles
    }

    /// Returns the number of microseconds contained by this duration,
    /// rounded to nearest.
    pub fn as_micros(self) -> (r: u64)
        requires
            self.clock_frequency > 0,
            self.spec_as_micros() <= u64::MAX,
        ensures
            r == self.spec_as_micros(),
    {
        let n: u128 = (self.cycles as u128) * 1_000_000 + ((self.clock_frequency / 2) as u128);
        (n / (self.clock_frequency as u128)) as u64
    }

    /// Returns the number of milliseconds contained by this duration,
    /// rounded to nearest.
    pub fn as_millis(self) -> (r: u64)
        requires
            self.clock_frequency > 0,
            self.spec_as_millis() <= u64::MAX,
        ensures
            r == self.spec_as_millis(),
    {
        let n: u128 = (self.cycles as u128) * 1000 + ((self.clock_frequency / 2) as u128);
        (n / (self.clock_frequency as u128)) as u64
    }

    /// Returns the number of seconds contained by this duration, rounded
    /// to nearest.
    pub fn as_secs(self) -> (r: u64)
        requires
            self.clock_frequency > 0,
        ensures
            r == self.spec_as_secs(),
    {
        let n: u128 = (self.cycles as u128) + ((self.clock_frequency / 2) as u128);
        proof {
            assert((self.cycles + self.clock_frequency / 2) / (self.clock_frequency as int)
                <= self.cycles) by (nonlinear_arith)
                requires
                    self.clock_frequency >= 1,
                    self.cycles >= 0,
            ;
        }
        (n / (self.clock_frequency as u128)) as u64
    }

    /// Returns whether the number of cycles contained by this duration is
    /// zero.
    pub fn is_zero(self) -> (r: bool)
        ensures
            r == (self.cycles == 0),
    {
        self.cycles == 0
    }

    /// The sum of this duration and `rhs`.  Both durations must share one
    /// clock frequency: adding durations of different clocks is a caller
    /// bug, not a recoverable condition.
    pub fn add(self, rhs: Self) -> (r: Self)
        requires
            self.clock_frequency == rhs.clock_frequency,
            self.cycles + rhs.cycles <= u64::MAX,
        ensures
            r == self.spec_add(rhs),
    {
        Self { clock_frequency: self.clock_frequency, cycles: self.cycles + rhs.cycles }
    }

    /// The difference of this duration and `rhs`, saturating at zero
    /// cycles.  Both durations must share one clock frequency.
    pub fn sub(self, rhs: Self) -> (r: Self)
        requires
            self.clock_frequency == rhs.clock_frequency,
        ensures
            r == self.spec_sub(rhs),
    {
        let cycles: u64 = if self.cycles >= rhs.cycles {
            self.cycles - rhs.cycles
        } else {
            0
        };
        Self { clock_frequency: self.clock_frequency, cycles }
    }
}

/// Converting microseconds to cycles never exceeds `n * clock_frequency`.
proof fn lemma_micros_to_cycles_bounds(n: u64, clock_frequency: u32)
    ensures
        0 <= micros_to_cycles(n, clock_frequency),
        micros_to_cycles(n, clock_frequency) == n * (clock_frequency as u64 / 1_000_000),
{
    let q: int = (clock_frequency as u64 / 1_000_000) as int;
    assert(0 <= q);
    assert(n * q >= 0) by (nonlinear_arith)
        requires
            n >= 0,
            q >= 0,
    ;
}

/// Converting milliseconds to cycles divides `n * clock_frequency` by
/// 1000, which keeps the product in range.
proof fn lemma_millis_to_cycles_bounds(n: u64, clock_frequency: u32)
    requires
        n * clock_frequency <= u64::MAX,
    ensures
        0 <= millis_to_cycles(n, clock_frequency) <= n * clock_frequency,
{
    let p: int = n * clock_frequency;
    assert(p >= 0) by (nonlinear_arith)
        requires
            n >= 0,
            clock_frequency >= 0,
            p == n * clock_frequency,
    ;
    assert(0 <= p / 1000 <= p) by (nonlinear_arith)
        requires
            p >= 0,
    ;
}

/// Law: adding a duration and then subtracting it back is exact — the
/// saturating subtraction never engages when no underflow occurred, so
/// `(a + b) - b == a` for any two durations of one clock frequency.
pub proof fn lemma_add_then_sub_is_exact(a: AvrDuration, b: AvrDuration)
    requires
        a.clock_frequency == b.clock_frequency,
        a.cycles + b.cycles <= u64::MAX,
    ensures
        a.spec_add(b).spec_sub(b) == a,
{
}

/// Law: a duration of `k` milliseconds reads back as exactly `k`
/// milliseconds.  The conversion to cycles rounds down by
/// `(k * f) % 1000` cycles, so the round trip is exact precisely while
/// that loss stays within the half-cycle rounding allowance; in
/// particular it holds for every clock of at least 2 kHz.
pub proof fn lemma_millis_round_trip(clock_frequency: u32, k: u64)
    requires
        clock_frequency > 0,
        k * clock_frequency <= u64::MAX,
        (k * clock_frequency) % 1000 <= clock_frequency / 2,
    ensures
        (AvrDuration {
            clock_frequency,
            cycles: millis_to_cycles(k, clock_frequency) as u64,
        }).spec_as_millis() == k,
{
    let f: int = clock_frequency as int;
    let p: int = k * clock_frequency;
    let c: int = p / 1000;
    let m: int = p % 1000;

    assert(p >= 0) by (nonlinear_arith)
        requires
            k >= 0,
            clock_frequency >= 0,
            p == k * clock_frequency,
    ;
    vstd::arithmetic::div_mod::lemma_fundamental_div_mod(p, 1000);
    assert(0 <= m < 1000) by {
        vstd::arithmetic::div_mod::lemma_mod_bound(p, 1000);
    }
    assert(0 <= c <= p) by (nonlinear_arith)
        requires
            p >= 0,
            c == p / 1000,
    ;

    let d = AvrDuration { clock_frequency, cycles: c as u64 };
    assert(d.cycles == c);
    assert(d.cycles * 1000 + clock_frequency / 2 == k * f + (f / 2 - m));
    assert(0 <= f / 2 - m < f);
    assert((k * f + (f / 2 - m)) / f == k) by (nonlinear_arith)
        requires
            f > 0,
            0 <= f / 2 - m < f,
            k >= 0,
    ;
}

} // verus!
