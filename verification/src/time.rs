//! Points in time and durations, in microseconds.
use vstd::prelude::*;

verus! {

/// A point in time, in microseconds.
#[derive(Clone, Copy, Debug, PartialEq, Eq, PartialOrd, Ord, Structural)]
pub struct Instant {
    pub us: i64,
}

impl Instant {
    /// Create an [`Instant`] from a number of microseconds.
    pub fn from_us(us: i64) -> (r: Self)
        ensures
            r.us == us,
    {
        Self { us }
    }

    /// The number of microseconds of this [`Instant`].
    pub fn as_us(&self) -> (r: i64)
        ensures
            r == self.us,
    {
        self.us
    }

    /// The difference between two instants.
    pub fn sub(self, rhs: Instant) -> (r: Self)
        requires
            i64::MIN <= self.us - rhs.us <= i64::MAX,
        ensures
            r.us == self.us - rhs.us,
    {
        Self::from_us(self.us - rhs.us)
    }

    /// This instant moved back by a duration.
    pub fn sub_duration(self, rhs: Duration) -> (r: Self)
        requires
            i64::MIN <= self.us - rhs.0 <= i64::MAX,
        ensures
            r.us == self.us - rhs.0,
    {
        Self::from_us(self.us - rhs.0)
    }

    /// This instant moved forward by a duration.
    pub fn add(self, rhs: Duration) -> (r: Self)
        requires
            i64::MIN <= self.us + rhs.0 <= i64::MAX,
        ensures
            r.us == self.us + rhs.0,
    {
        Self::from_us(self.us + rhs.0)
    }
}

/// A duration, in microseconds.
#[derive(Clone, Copy, Debug, PartialEq, Eq, PartialOrd, Ord, Structural)]
pub struct Duration(pub i64);

impl Duration {
    /// Create a [`Duration`] from a number of microseconds.
    pub fn from_us(us: i64) -> (r: Self)
        ensures
            r.0 == us,
    {
        Self(us)
    }

    /// The number of microseconds of this [`Duration`].
    pub fn as_us(&self) -> (r: i64)
        ensures
            r == self.0,
    {
        self.0
    }

    /// The difference of two durations.
    pub fn sub(self, rhs: Duration) -> (r: Self)
        requires
            i64::MIN <= self.0 - rhs.0 <= i64::MAX,
        ensures
            r.0 == self.0 - rhs.0,
    {
        Self::from_us(self.0 - rhs.0)
    }

    /// The sum of two durations.
    pub fn add(self, rhs: Duration) -> (r: Self)
        requires
            i64::MIN <= self.0 + rhs.0 <= i64::MAX,
        ensures
            r.0 == self.0 + rhs.0,
    {
        Self::from_us(self.0 + rhs.0)
    }

    /// This duration scaled by a factor.
    pub fn mul(self, rhs: usize) -> (r: Self)
        requires
            rhs <= i64::MAX,
            i64::MIN <= self.0 * rhs <= i64::MAX,
        ensures
            r.0 == self.0 * rhs,
    {
        Self::from_us(self.0 * (rhs as i64))
    }

    /// This duration divided by a positive factor, rounded towards zero.
    pub fn div(self, rhs: usize) -> (r: Self)
        requires
            0 < rhs <= i64::MAX,
        ensures
            r.0 as int == (if self.0 >= 0 { self.0 as int / rhs as int } else { -((-(self.0 as int)) / rhs as int) }),
    {
        let d = rhs as i64;
        if self.0 >= 0 {
            Self::from_us(self.0 / d)
        } else if self.0 > i64::MIN {
            Self::from_us(-((-self.0) / d))
        } else {
            let q: u64 = 0x8000_0000_0000_0000u64 / (rhs as u64);
            if q == 0x8000_0000_0000_0000u64 {
                Self::from_us(i64::MIN)
            } else {
                Self::from_us(-(q as i64))
            }
        }
    }

    /// The larger of two durations.
    pub fn max(self, other: Duration) -> (r: Self)
        ensures
            r.0 == if self.0 >= other.0 { self.0 } else { other.0 },
    {
        if self.0 >= other.0 {
            self
        } else {
            other
        }
    }
}

} // verus!
