//! The write rate limiter's arithmetic: a refill budget per period,
//! derived from the configured rate.
//!
//! The limiter refills its byte budget once per period; the budget of one
//! period is also the largest single burst it grants. The derivation
//! guards against overflow by dividing before multiplying when the plain
//! product would not fit.

use vstd::prelude::*;

use vstd::arithmetic::div_mod::lemma_fundamental_div_mod;
use vstd::arithmetic::mul::lemma_mul_inequality;

verus! {

/// The byte budget one refill period grants at the given rate: the rate
/// scaled from seconds to the period's microseconds, with the order of
/// scaling chosen so that the computation fits.
pub open spec fn refill_bytes_per_period_spec(rate: int, period_us: int) -> int {
    if i64::MAX as int / rate < period_us {
        rate / 1000000 * period_us
    } else {
        rate * period_us / 1000000
    }
}

/// A token-bucket rate limiter reduced to the values its arithmetic
/// reads: the configured rate, the refill period, the fairness weight,
/// and the refill budget derived from them.
pub struct RateLimiter {
    rate_bytes_per_sec: i64,
    refill_period_us: i64,
    fairness: i32,
    refill_bytes_per_period: i64,
}

impl RateLimiter {
    /// The configured rate in bytes per second.
    pub closed spec fn rate_spec(&self) -> int {
        self.rate_bytes_per_sec as int
    }

    /// The refill period in microseconds.
    pub closed spec fn period_spec(&self) -> int {
        self.refill_period_us as int
    }

    /// The fairness weight.
    pub closed spec fn fairness_spec(&self) -> int {
        self.fairness as int
    }

    /// The limiter's invariant: positive configuration, and the stored
    /// refill budget is exactly the one its rate and period derive.
    pub closed spec fn wf(&self) -> bool {
        &&& 0 < self.rate_bytes_per_sec
        &&& 0 < self.refill_period_us
        &&& 0 < self.fairness
        &&& self.refill_bytes_per_period as int == refill_bytes_per_period_spec(
            self.rate_spec(),
            self.period_spec(),
        )
    }

    /// Derives the refill budget for one period.
    fn calculate_refill_bytes_per_period(rate_bytes_per_sec: i64, refill_period_us: i64) -> (r:
        i64)
        requires
            0 < rate_bytes_per_sec,
            0 < refill_period_us,
            rate_bytes_per_sec as int / 1000000 * refill_period_us as int <= i64::MAX as int,
        ensures
            r as int == refill_bytes_per_period_spec(
                rate_bytes_per_sec as int,
                refill_period_us as int,
            ),
    {
        let portion = i64::MAX / rate_bytes_per_sec;
        if portion < refill_period_us {
            rate_bytes_per_sec / 1000000 * refill_period_us
        } else {
            proof {
                lemma_fundamental_div_mod(i64::MAX as int, rate_bytes_per_sec as int);
                lemma_mul_inequality(
                    refill_period_us as int,
                    portion as int,
                    rate_bytes_per_sec as int,
                );
            }
            rate_bytes_per_sec * refill_period_us / 1000000
        }
    }

    /// A limiter over the given rate, period and fairness. The bound on
    /// the scaled product keeps the budget inside the machine word.
    pub fn new(rate_bytes_per_sec: i64, refill_period_us: i64, fairness: i32) -> (r: RateLimiter)
        requires
            0 < rate_bytes_per_sec,
            0 < refill_period_us,
            0 < fairness,
            rate_bytes_per_sec as int / 1000000 * refill_period_us as int <= i64::MAX as int,
        ensures
            r.wf(),
            r.rate_spec() == rate_bytes_per_sec as int,
            r.period_spec() == refill_period_us as int,
            r.fairness_spec() == fairness as int,
    {
        let refill_bytes_per_period = Self::calculate_refill_bytes_per_period(
            rate_bytes_per_sec,
            refill_period_us,
        );
        RateLimiter { rate_bytes_per_sec, refill_period_us, fairness, refill_bytes_per_period }
    }

    /// Reconfigures the rate; the refill budget follows it.
    pub fn set_bytes_per_second(&mut self, bytes_per_second: i64)
        requires
            old(self).wf(),
            0 < bytes_per_second,
            bytes_per_second as int / 1000000 * old(self).period_spec() <= i64::MAX as int,
        ensures
            final(self).wf(),
            final(self).rate_spec() == bytes_per_second as int,
            final(self).period_spec() == old(self).period_spec(),
            final(self).fairness_spec() == old(self).fairness_spec(),
    {
        self.rate_bytes_per_sec = bytes_per_second;
        self.refill_bytes_per_period = Self::calculate_refill_bytes_per_period(
            bytes_per_second,
            self.refill_period_us,
        );
    }

    /// The largest burst the limiter grants in one go: exactly one
    /// period's refill budget.
    pub fn get_singleburst_bytes(&self) -> (r: i64)
        requires
            self.wf(),
        ensures
            r as int == refill_bytes_per_period_spec(self.rate_spec(), self.period_spec()),
    {
        self.refill_bytes_per_period
    }
}

} // verus!
