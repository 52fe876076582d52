//! Latency histograms.
use vstd::prelude::*;

verus! {

/// The sum of two 64-bit numbers, which starts over at zero when 64 bits do not hold it.
pub open spec fn wrapping_sum(a: u64, b: u64) -> u64 {
    ((a + b) % 0x1_0000_0000_0000_0000) as u64
}

/// Adds two numbers, starting over at zero when 64 bits do not hold the sum.
pub fn add_wrapping(a: u64, b: u64) -> (sum: u64)
    ensures
        sum == wrapping_sum(a, b),
{
    a.wrapping_add(b)
}

/// Histogram data for latency tracking: the totals of the durations observed under one name,
/// in milliseconds.
#[derive(Clone, Copy, Debug)]
pub struct HistogramData {
    pub count: u64,
    pub sum_ms: u64,
    pub min_ms: u64,
    pub max_ms: u64,
}

/// Statistics from a histogram.
#[derive(Clone, Copy, Debug)]
pub struct HistogramStats {
    pub count: u64,
    pub sum_ms: u64,
    pub avg_ms: u64,
    pub min_ms: u64,
    pub max_ms: u64,
}

impl Default for HistogramData {
    fn default() -> (data: Self)
        ensures
            data == (HistogramData { count: 0, sum_ms: 0, min_ms: 0, max_ms: 0 }),
    {
        HistogramData { count: 0, sum_ms: 0, min_ms: 0, max_ms: 0 }
    }
}

impl HistogramData {
    /// The totals of no observation at all. The minimum is above every duration, so that the
    /// first observation sets it.
    pub open spec fn unobserved() -> Self {
        HistogramData { count: 0, sum_ms: 0, min_ms: u64::MAX, max_ms: 0 }
    }

    /// The totals with one more observation.
    pub open spec fn with(self, millis: u64) -> Self {
        HistogramData {
            count: wrapping_sum(self.count, 1),
            sum_ms: wrapping_sum(self.sum_ms, millis),
            min_ms: if millis < self.min_ms {
                millis
            } else {
                self.min_ms
            },
            max_ms: if millis > self.max_ms {
                millis
            } else {
                self.max_ms
            },
        }
    }

    /// The statistics of the totals. The average is rounded down, and 0 without observations.
    pub open spec fn summary(self) -> HistogramStats {
        HistogramStats {
            count: self.count,
            sum_ms: self.sum_ms,
            avg_ms: if self.count > 0 {
                self.sum_ms / self.count
            } else {
                0
            },
            min_ms: self.min_ms,
            max_ms: self.max_ms,
        }
    }

    /// A histogram that has observed nothing.
    pub fn new() -> (data: Self)
        ensures
            data == Self::unobserved(),
    {
        HistogramData { count: 0, sum_ms: 0, min_ms: u64::MAX, max_ms: 0 }
    }

    /// Adds one observation to the totals.
    pub fn record(self, millis: u64) -> (data: Self)
        ensures
            data == self.with(millis),
    {
        HistogramData {
            count: add_wrapping(self.count, 1),
            sum_ms: add_wrapping(self.sum_ms, millis),
            min_ms: if millis < self.min_ms {
                millis
            } else {
                self.min_ms
            },
            max_ms: if millis > self.max_ms {
                millis
            } else {
                self.max_ms
            },
        }
    }

    /// The statistics of the totals.
    pub fn stats(self) -> (stats: HistogramStats)
        ensures
            stats == self.summary(),
    {
        HistogramStats {
            count: self.count,
            sum_ms: self.sum_ms,
            avg_ms: if self.count > 0 {
                self.sum_ms / self.count
            } else {
                0
            },
            min_ms: self.min_ms,
            max_ms: self.max_ms,
        }
    }
}

} // verus!
