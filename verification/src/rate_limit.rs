//! Token-bucket rate limiting, one bucket per (client address, class) pair.
//!
//! Token balances are stored scaled by the class's `per` parameter: a stored
//! balance of `a` stands for `a / per` tokens, so a refill of `rate / per`
//! tokens per elapsed second is exact integer arithmetic.

use vstd::prelude::*;

verus! {

/// The named operation classes that are rate limited; each class keeps its
/// own bucket per address, so exhausting one class never affects another.
#[derive(Clone, Copy, PartialEq, Eq, Structural, Debug)]
pub enum RateLimitClass {
    Register,
    Post,
    Message,
}

/// One token bucket. `allowance` is the scaled balance, `None` until the
/// first real check lazily initializes it to the full (scaled) capacity.
#[derive(Clone, Copy, PartialEq, Eq, Structural, Debug)]
pub struct RateLimitBucket {
    /// Seconds timestamp of the last balance update.
    pub last_checked: u64,
    /// Scaled token balance (true balance times `per`); `None` means unset.
    pub allowance: Option<u64>,
}

/// The `(rate, per_seconds)` pair configured for one class: `rate` tokens
/// of capacity, refilled at `rate / per` tokens per second.
#[derive(Clone, Copy, PartialEq, Eq, Structural, Debug)]
pub struct RateLimitParams {
    pub rate: u32,
    pub per: u32,
}

/// Configured rate-limit parameters for the three classes.
#[derive(Clone, Copy, PartialEq, Eq, Structural, Debug)]
pub struct RateLimitConfig {
    pub register: RateLimitParams,
    pub post: RateLimitParams,
    pub message: RateLimitParams,
}

impl RateLimitConfig {
    /// A refill period of zero seconds would make the refill rate undefined.
    pub open spec fn wf(&self) -> bool {
        self.register.per >= 1 && self.post.per >= 1 && self.message.per >= 1
    }

    pub open spec fn spec_params(&self, class: RateLimitClass) -> RateLimitParams {
        match class {
            RateLimitClass::Register => self.register,
            RateLimitClass::Post => self.post,
            RateLimitClass::Message => self.message,
        }
    }

    pub fn params(&self, class: RateLimitClass) -> (r: RateLimitParams)
        ensures
            r == self.spec_params(class),
    {
        match class {
            RateLimitClass::Register => self.register,
            RateLimitClass::Post => self.post,
            RateLimitClass::Message => self.message,
        }
    }
}

impl RateLimitBucket {
    /// A bucket that has never been checked: balance unset.
    pub open spec fn spec_fresh(now: u64) -> RateLimitBucket {
        RateLimitBucket { last_checked: now, allowance: None }
    }

    pub fn fresh(now: u64) -> (r: RateLimitBucket)
        ensures
            r == RateLimitBucket::spec_fresh(now),
    {
        RateLimitBucket { last_checked: now, allowance: None }
    }

    /// The scaled balance a check starts from: the stored balance, or the
    /// full scaled capacity if the bucket was never checked.
    pub open spec fn scaled_start(self, rate: u32, per: u32) -> int {
        match self.allowance {
            Option::None => rate * per,
            Option::Some(a) => a as int,
        }
    }

    /// Whole seconds since the last balance update; a clock that went
    /// backwards refills nothing.
    pub open spec fn elapsed(self, now: u64) -> int {
        if now >= self.last_checked {
            now - self.last_checked
        } else {
            0
        }
    }

    /// The scaled balance after refilling at `now`, clamped to capacity.
    pub open spec fn refilled(self, rate: u32, per: u32, now: u64) -> int {
        let total = self.scaled_start(rate, per) + self.elapsed(now) * rate;
        if total > rate * per {
            rate * per
        } else {
            total
        }
    }

    /// Whether a check at `now` admits: the refilled balance is at least one
    /// whole token (scaled: at least `per`).
    pub open spec fn admits(self, rate: u32, per: u32, now: u64) -> bool {
        self.refilled(rate, per, now) >= per
    }

    /// The bucket state after a check at `now`: refilled, stamped, and with
    /// one token deducted if the check admitted.
    pub open spec fn after_check(self, rate: u32, per: u32, now: u64) -> RateLimitBucket {
        let t = self.refilled(rate, per, now);
        RateLimitBucket {
            last_checked: now,
            allowance: Option::Some(
                if self.admits(rate, per, now) {
                    (t - per) as u64
                } else {
                    t as u64
                },
            ),
        }
    }

    /// One token-bucket check: lazily initialize the balance to capacity,
    /// refill `rate / per` tokens per elapsed second, clamp to capacity,
    /// then admit and deduct one token only if a whole token is available.
    pub fn check(&mut self, rate: u32, per: u32, now: u64) -> (admitted: bool)
        requires
            per >= 1,
        ensures
            admitted == old(self).admits(rate, per, now),
            *final(self) == old(self).after_check(rate, per, now),
    {
        proof {
            assert((rate as int) * (per as int) <= 0xffff_ffff * 0xffff_ffff) by (nonlinear_arith)
                requires
                    rate as int <= 0xffff_ffff,
                    per as int <= 0xffff_ffff,
                    0 <= rate as int,
                    0 <= per as int,
            ;
        }
        let cap: u64 = (rate as u64) * (per as u64);
        let start: u64 = match self.allowance {
            Option::Some(a) => a,
            Option::None => cap,
        };
        let elapsed: u64 = if now >= self.last_checked {
            now - self.last_checked
        } else {
            0
        };
        self.last_checked = now;
        proof {
            assert((elapsed as int) * (rate as int) <= 0xffff_ffff_ffff_ffff * 0xffff_ffff)
                by (nonlinear_arith)
                requires
                    elapsed as int <= 0xffff_ffff_ffff_ffff,
                    rate as int <= 0xffff_ffff,
                    0 <= elapsed as int,
                    0 <= rate as int,
            ;
        }
        let total: u128 = (start as u128) + (elapsed as u128) * (rate as u128);
        let t: u64 = if total > (cap as u128) {
            cap
        } else {
            total as u64
        };
        assert(t as int == old(self).refilled(rate, per, now));
        if t < per as u64 {
            self.allowance = Option::Some(t);
            false
        } else {
            self.allowance = Option::Some(t - per as u64);
            true
        }
    }
}

} // verus!
