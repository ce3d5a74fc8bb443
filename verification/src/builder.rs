//! Collecting the settings of a test run before it starts.

use vstd::prelude::*;

use crate::timeout::Timeout;

verus! {

/// Gathers the target device, its clock frequency and the optional test
/// timeout; the driving layer then boots the simulator from these
/// settings.
pub struct AvrTesterBuilder {
    pub mcu: String,
    pub clock: Option<u32>,
    pub timeout: Option<Timeout>,
}

impl AvrTesterBuilder {
    /// Creates a builder for the named microcontroller, with no clock
    /// and no timeout chosen yet.
    pub fn new(mcu: &str) -> (r: Self)
        ensures
            r.mcu@ == mcu@,
            r.clock is None,
            r.timeout is None,
    {
        Self { mcu: mcu.to_owned(), clock: None, timeout: None }
    }

    /// Specifies the device's clock, in Hz.
    ///
    /// This value does not affect how fast the simulation runs — it is
    /// what makes a second, a millisecond and so on mean something for
    /// the run.
    pub fn with_clock(self, clock: u32) -> (r: Self)
        ensures
            r.clock == Some(clock),
            r.mcu == self.mcu,
            r.timeout == self.timeout,
    {
        Self { mcu: self.mcu, clock: Some(clock), timeout: self.timeout }
    }

    /// See: [`Self::with_clock()`].
    pub fn with_clock_of_1_mhz(self) -> (r: Self)
        ensures
            r.clock == Some(1_000_000u32),
            r.mcu == self.mcu,
            r.timeout == self.timeout,
    {
        self.with_clock(1_000_000)
    }

    /// See: [`Self::with_clock()`].
    pub fn with_clock_of_4_mhz(self) -> (r: Self)
        ensures
            r.clock == Some(4_000_000u32),
            r.mcu == self.mcu,
            r.timeout == self.timeout,
    {
        self.with_clock(4_000_000)
    }

    /// See: [`Self::with_clock()`].
    pub fn with_clock_of_8_mhz(self) -> (r: Self)
        ensures
            r.clock == Some(8_000_000u32),
            r.mcu == self.mcu,
            r.timeout == self.timeout,
    {
        self.with_clock(8_000_000)
    }

    /// See: [`Self::with_clock()`].
    pub fn with_clock_of_12_mhz(self) -> (r: Self)
        ensures
            r.clock == Some(12_000_000u32),
            r.mcu == self.mcu,
            r.timeout == self.timeout,
    {
        self.with_clock(12_000_000)
    }

    /// See: [`Self::with_clock()`].
    pub fn with_clock_of_16_mhz(self) -> (r: Self)
        ensures
            r.clock == Some(16_000_000u32),
            r.mcu == self.mcu,
            r.timeout == self.timeout,
    {
        self.with_clock(16_000_000)
    }

    /// See: [`Self::with_clock()`].
    pub fn with_clock_of_20_mhz(self) -> (r: Self)
        ensures
            r.clock == Some(20_000_000u32),
            r.mcu == self.mcu,
            r.timeout == self.timeout,
    {
        self.with_clock(20_000_000)
    }

    /// See: [`Self::with_clock()`].
    pub fn with_clock_of_24_mhz(self) -> (r: Self)
        ensures
            r.clock == Some(24_000_000u32),
            r.mcu == self.mcu,
            r.timeout == self.timeout,
    {
        self.with_clock(24_000_000)
    }

    /// Specifies a timeout, in the simulated device's own time, after
    /// which the run is aborted as timed out.
    ///
    /// Without a timeout, a firmware that never satisfies the awaited
    /// condition keeps the test running forever; with one, the run
    /// fails deterministically on every machine, since the bound is
    /// counted in the device's cycles rather than in host time.
    pub fn with_timeout(self, timeout: Timeout) -> (r: Self)
        ensures
            r.timeout == Some(timeout),
            r.mcu == self.mcu,
            r.clock == self.clock,
    {
        Self { mcu: self.mcu, clock: self.clock, timeout: Some(timeout) }
    }

    /// Specifies a timeout in seconds (of the device's time).
    ///
    /// See: [`Self::with_timeout()`].
    pub fn with_timeout_of_s(self, s: u64) -> (r: Self)
        ensures
            r.timeout == Some((Timeout { micros: (s * 1_000_000) as u128 })),
            r.mcu == self.mcu,
            r.clock == self.clock,
    {
        self.with_timeout(Timeout::from_secs(s))
    }

    /// Specifies a timeout in milliseconds (of the device's time).
    ///
    /// See: [`Self::with_timeout()`].
    pub fn with_timeout_of_ms(self, ms: u64) -> (r: Self)
        ensures
            r.timeout == Some((Timeout { micros: (ms * 1000) as u128 })),
            r.mcu == self.mcu,
            r.clock == self.clock,
    {
        self.with_timeout(Timeout::from_millis(ms))
    }

    /// Specifies a timeout in microseconds (of the device's time).
    ///
    /// See: [`Self::with_timeout()`].
    pub fn with_timeout_of_us(self, us: u64) -> (r: Self)
        ensures
            r.timeout == Some((Timeout { micros: us as u128 })),
            r.mcu == self.mcu,
            r.clock == self.clock,
    {
        self.with_timeout(Timeout::from_micros(us))
    }
}

} // verus!
