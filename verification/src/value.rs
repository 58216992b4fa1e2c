//! Metric observation values as signed fixed-point numbers of millionths,
//! so that whole counts and fractional costs share one exact representation
//! with defined saturation behaviour.

use vstd::prelude::*;

verus! {

/// Saturates an integer into the `i128` range.
pub open spec fn sat_i128(x: int) -> int {
    if x > i128::MAX as int {
        i128::MAX as int
    } else if x < i128::MIN as int {
        i128::MIN as int
    } else {
        x
    }
}

/// Saturates an integer into the `u64` range.
pub open spec fn sat_u64(x: int) -> int {
    if x > u64::MAX as int {
        u64::MAX as int
    } else if x < 0 {
        0
    } else {
        x
    }
}

/// A metric observation value: the exact number scaled by one million.
#[derive(Debug, Clone, Copy, PartialEq, Eq, Structural)]
pub struct MetricValue {
    pub micros: i128,
}

impl MetricValue {
    /// The zero value, the defined fallback for a data point that carries no
    /// numeric field.
    pub fn zero() -> (r: MetricValue)
        ensures
            r.micros == 0,
    {
        MetricValue { micros: 0 }
    }

    /// A value from a raw count of millionths.
    pub fn from_micros(micros: i128) -> (r: MetricValue)
        ensures
            r.micros == micros,
    {
        MetricValue { micros }
    }

    /// A value from a whole signed count.
    pub fn from_units(units: i64) -> (r: MetricValue)
        ensures
            r.micros == units * 1_000_000,
    {
        MetricValue { micros: (units as i128) * 1_000_000 }
    }

    /// A value from a whole unsigned count.
    pub fn from_count(count: u64) -> (r: MetricValue)
        ensures
            r.micros == count * 1_000_000,
    {
        MetricValue { micros: (count as i128) * 1_000_000 }
    }

    /// The whole part of the value as an unsigned counter increment:
    /// truncated toward zero, negative values clamped to zero, and values
    /// beyond the counter range clamped to its maximum.
    pub open spec fn spec_whole(self) -> int {
        if self.micros < 0 {
            0
        } else {
            sat_u64(self.micros as int / 1_000_000)
        }
    }

    /// The whole part of the value, clamped into the counter range.
    pub fn whole_part(&self) -> (r: u64)
        ensures
            r == self.spec_whole(),
    {
        if self.micros <= 0 {
            0
        } else {
            let q: u128 = (self.micros as u128) / 1_000_000;
            if q > u64::MAX as u128 {
                u64::MAX
            } else {
                q as u64
            }
        }
    }

    /// The sum of two values, saturating at the representation bounds.
    pub fn saturating_add(&self, other: &MetricValue) -> (r: MetricValue)
        ensures
            r.micros == sat_i128(self.micros + other.micros),
    {
        let a = self.micros;
        let b = other.micros;
        if b > 0 && a > i128::MAX - b {
            MetricValue { micros: i128::MAX }
        } else if b < 0 && a < i128::MIN - b {
            MetricValue { micros: i128::MIN }
        } else {
            MetricValue { micros: a + b }
        }
    }
}

/// The sum of two counters, saturating at the counter maximum.
pub fn sat_add_u64(a: u64, b: u64) -> (r: u64)
    ensures
        r == sat_u64(a + b),
{
    if a > u64::MAX - b {
        u64::MAX
    } else {
        a + b
    }
}

} // verus!
