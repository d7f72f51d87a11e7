//! Interest-rate policy: the minimum rate a loan must carry.
//!
//! The minimum is a base rate plus a tier risk premium plus a duration
//! surcharge of 10 bps for every whole 30-day period of the loan's length
//! (integer division, no proration for partial months). This value is the
//! floor a borrower's requested ceiling must reach, and the ceiling a
//! lender's chosen rate must stay under.

use vstd::prelude::*;
use crate::credit::CREDIT_TIER_A;
use crate::credit::CREDIT_TIER_B;
use crate::credit::CREDIT_TIER_C;

verus! {

// All rates are in basis points: 10000 bps = 100%.
pub const BASE_RATE: u16 = 500;

pub const TIER_A_PREMIUM: u16 = 0;

pub const TIER_B_PREMIUM: u16 = 200;

pub const TIER_C_PREMIUM: u16 = 500;

pub const TIER_D_PREMIUM: u16 = 1000;

pub const SECONDS_PER_DAY: i64 = 86400;

// Loan durations are bounded to one day through one year.
pub const MIN_LOAN_DURATION: i64 = 86400;

pub const MAX_LOAN_DURATION: i64 = 31536000;

/// The risk premium of a tier; any tier value outside A–C gets the
/// most conservative, tier-D premium.
pub open spec fn risk_premium_for_tier(credit_tier: u8) -> u16 {
    if credit_tier == CREDIT_TIER_A {
        TIER_A_PREMIUM
    } else if credit_tier == CREDIT_TIER_B {
        TIER_B_PREMIUM
    } else if credit_tier == CREDIT_TIER_C {
        TIER_C_PREMIUM
    } else {
        TIER_D_PREMIUM
    }
}

/// The minimum interest rate, in bps, for a loan of the given duration to a
/// borrower of the given tier: base rate, plus the tier's risk premium, plus
/// 10 bps for each whole 30-day period within the duration.
pub open spec fn minimum_rate(credit_tier: u8, duration_seconds: i64) -> int {
    BASE_RATE + risk_premium_for_tier(credit_tier) + (duration_seconds as int / SECONDS_PER_DAY
        as int) / 30 * 10
}

/// Computes the minimum interest rate for a tier and duration.
///
/// Durations beyond one year would ask for a surcharge the rate type cannot
/// hold, and negative durations are meaningless; loans never carry either.
pub fn calculate_interest_rate(credit_tier: u8, duration_seconds: i64) -> (rate_bps: u16)
    requires
        0 <= duration_seconds <= MAX_LOAN_DURATION,
    ensures
        rate_bps == minimum_rate(credit_tier, duration_seconds),
{
    let risk_premium: u16 = if credit_tier == CREDIT_TIER_A {
        TIER_A_PREMIUM
    } else if credit_tier == CREDIT_TIER_B {
        TIER_B_PREMIUM
    } else if credit_tier == CREDIT_TIER_C {
        TIER_C_PREMIUM
    } else {
        TIER_D_PREMIUM
    };
    let duration_days: i64 = duration_seconds / SECONDS_PER_DAY;
    let duration_factor: u16 = ((duration_days / 30) as u16) * 10;
    BASE_RATE + risk_premium + duration_factor
}

} // verus!
