//! Credit-scoring engine: scores, tiers, and borrowing caps.
//!
//! A borrower's credit score lives in `[0, 1000]`; the four tiers A–D are
//! derived from it by fixed thresholds, and each tier carries a hard ceiling
//! on how much may be borrowed. Score adjustments are fixed policy constants
//! applied with clamping at both ends of the range.

use vstd::prelude::*;

verus! {

// Credit tiers, A (best) through D (worst).
pub const CREDIT_TIER_A: u8 = 0;
pub const CREDIT_TIER_B: u8 = 1;
pub const CREDIT_TIER_C: u8 = 2;
pub const CREDIT_TIER_D: u8 = 3;

pub const INITIAL_CREDIT_SCORE: u16 = 500;
pub const MAX_CREDIT_SCORE: u16 = 1000;
pub const MIN_CREDIT_SCORE: u16 = 0;

// Lowest score of each tier; scores below `TIER_C_THRESHOLD` are tier D.
pub const TIER_A_THRESHOLD: u16 = 800;
pub const TIER_B_THRESHOLD: u16 = 600;
pub const TIER_C_THRESHOLD: u16 = 400;

// Score adjustments applied on repayment and default.
pub const ON_TIME_PAYMENT_BONUS: i16 = 50;
pub const LATE_PAYMENT_PENALTY: i16 = -30;
pub const DEFAULT_PENALTY: i16 = -150;

// Borrowing ceilings per tier, in the ledger's smallest token denomination.
pub const TIER_A_MAX_BORROW: u64 = 100_000_000_000;
pub const TIER_B_MAX_BORROW: u64 = 50_000_000_000;
pub const TIER_C_MAX_BORROW: u64 = 25_000_000_000;
pub const TIER_D_MAX_BORROW: u64 = 10_000_000_000;

/// The tier a credit score falls in: A at or above 800, B at or above 600,
/// C at or above 400, D below that.
pub open spec fn tier_of(credit_score: u16) -> u8 {
    if credit_score >= TIER_A_THRESHOLD {
        CREDIT_TIER_A
    } else if credit_score >= TIER_B_THRESHOLD {
        CREDIT_TIER_B
    } else if credit_score >= TIER_C_THRESHOLD {
        CREDIT_TIER_C
    } else {
        CREDIT_TIER_D
    }
}

/// A score after a signed adjustment, clamped to `[0, 1000]`.
pub open spec fn adjusted_score(credit_score: u16, adjustment: i16) -> int {
    let raw = credit_score + adjustment;
    if raw > MAX_CREDIT_SCORE {
        MAX_CREDIT_SCORE as int
    } else if raw < MIN_CREDIT_SCORE {
        MIN_CREDIT_SCORE as int
    } else {
        raw
    }
}

/// The borrowing ceiling of a tier; any tier value outside A–C (including
/// values no score maps to) gets the most conservative, tier-D ceiling.
pub open spec fn max_borrow_for_tier(credit_tier: u8) -> u64 {
    if credit_tier == CREDIT_TIER_A {
        TIER_A_MAX_BORROW
    } else if credit_tier == CREDIT_TIER_B {
        TIER_B_MAX_BORROW
    } else if credit_tier == CREDIT_TIER_C {
        TIER_C_MAX_BORROW
    } else {
        TIER_D_MAX_BORROW
    }
}

/// Derives the credit tier from a score. Total: every score maps to exactly
/// one of the four tiers.
pub fn calculate_credit_tier(credit_score: u16) -> (tier: u8)
    ensures
        tier == tier_of(credit_score),
        tier == CREDIT_TIER_A || tier == CREDIT_TIER_B || tier == CREDIT_TIER_C || tier
            == CREDIT_TIER_D,
{
    if credit_score >= TIER_A_THRESHOLD {
        CREDIT_TIER_A
    } else if credit_score >= TIER_B_THRESHOLD {
        CREDIT_TIER_B
    } else if credit_score >= TIER_C_THRESHOLD {
        CREDIT_TIER_C
    } else {
        CREDIT_TIER_D
    }
}

/// Applies a signed adjustment to a credit score, clamping the result to
/// `[0, 1000]`. Total: never fails, whatever the starting score.
pub fn apply_credit_adjustment(current_score: u16, adjustment: i16) -> (new_score: u16)
    ensures
        new_score == adjusted_score(current_score, adjustment),
        MIN_CREDIT_SCORE <= new_score <= MAX_CREDIT_SCORE,
{
    let raw: i32 = (current_score as i32) + (adjustment as i32);
    if raw > MAX_CREDIT_SCORE as i32 {
        MAX_CREDIT_SCORE
    } else if raw < MIN_CREDIT_SCORE as i32 {
        MIN_CREDIT_SCORE
    } else {
        raw as u16
    }
}

/// The hard ceiling on a new loan request for a borrower of the given tier.
pub fn get_max_borrow_amount(credit_tier: u8) -> (max_amount: u64)
    ensures
        max_amount == max_borrow_for_tier(credit_tier),
{
    if credit_tier == CREDIT_TIER_A {
        TIER_A_MAX_BORROW
    } else if credit_tier == CREDIT_TIER_B {
        TIER_B_MAX_BORROW
    } else if credit_tier == CREDIT_TIER_C {
        TIER_C_MAX_BORROW
    } else {
        TIER_D_MAX_BORROW
    }
}

} // verus!
