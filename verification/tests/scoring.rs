//! Credit scoring, tiers, borrowing caps, and the interest-rate policy.

use sollend_micro_protocol::credit::apply_credit_adjustment;
use sollend_micro_protocol::credit::calculate_credit_tier;
use sollend_micro_protocol::credit::get_max_borrow_amount;
use sollend_micro_protocol::credit::CREDIT_TIER_A;
use sollend_micro_protocol::credit::CREDIT_TIER_B;
use sollend_micro_protocol::credit::CREDIT_TIER_C;
use sollend_micro_protocol::credit::CREDIT_TIER_D;
use sollend_micro_protocol::credit::DEFAULT_PENALTY;
use sollend_micro_protocol::credit::LATE_PAYMENT_PENALTY;
use sollend_micro_protocol::credit::ON_TIME_PAYMENT_BONUS;
use sollend_micro_protocol::policy::calculate_interest_rate;

#[test]
fn adjustment_clamps_at_the_top() {
    assert_eq!(apply_credit_adjustment(990, ON_TIME_PAYMENT_BONUS), 1000);
    assert_eq!(apply_credit_adjustment(1000, ON_TIME_PAYMENT_BONUS), 1000);
    assert_eq!(apply_credit_adjustment(950, ON_TIME_PAYMENT_BONUS), 1000);
}

#[test]
fn adjustment_clamps_at_the_bottom() {
    assert_eq!(apply_credit_adjustment(10, DEFAULT_PENALTY), 0);
    assert_eq!(apply_credit_adjustment(0, DEFAULT_PENALTY), 0);
    assert_eq!(apply_credit_adjustment(20, LATE_PAYMENT_PENALTY), 0);
    assert_eq!(apply_credit_adjustment(149, DEFAULT_PENALTY), 0);
}

#[test]
fn adjustment_in_range_is_exact() {
    assert_eq!(apply_credit_adjustment(500, ON_TIME_PAYMENT_BONUS), 550);
    assert_eq!(apply_credit_adjustment(500, LATE_PAYMENT_PENALTY), 470);
    assert_eq!(apply_credit_adjustment(500, DEFAULT_PENALTY), 350);
    assert_eq!(apply_credit_adjustment(150, DEFAULT_PENALTY), 0);
    assert_eq!(apply_credit_adjustment(950, ON_TIME_PAYMENT_BONUS), 1000);
}

#[test]
fn tier_boundaries_are_exact() {
    assert_eq!(calculate_credit_tier(1000), CREDIT_TIER_A);
    assert_eq!(calculate_credit_tier(800), CREDIT_TIER_A);
    assert_eq!(calculate_credit_tier(799), CREDIT_TIER_B);
    assert_eq!(calculate_credit_tier(600), CREDIT_TIER_B);
    assert_eq!(calculate_credit_tier(599), CREDIT_TIER_C);
    assert_eq!(calculate_credit_tier(400), CREDIT_TIER_C);
    assert_eq!(calculate_credit_tier(399), CREDIT_TIER_D);
    assert_eq!(calculate_credit_tier(0), CREDIT_TIER_D);
}

#[test]
fn borrow_caps_per_tier() {
    assert_eq!(get_max_borrow_amount(CREDIT_TIER_A), 100_000_000_000);
    assert_eq!(get_max_borrow_amount(CREDIT_TIER_B), 50_000_000_000);
    assert_eq!(get_max_borrow_amount(CREDIT_TIER_C), 25_000_000_000);
    assert_eq!(get_max_borrow_amount(CREDIT_TIER_D), 10_000_000_000);
    // A tier value no score derives to gets the most conservative cap.
    assert_eq!(get_max_borrow_amount(7), 10_000_000_000);
}

#[test]
fn minimum_rate_tier_a_one_month() {
    // Base 500, premium 0, one whole 30-day period: 10 bps surcharge.
    assert_eq!(calculate_interest_rate(CREDIT_TIER_A, 30 * 86400), 510);
}

#[test]
fn minimum_rate_tier_d_three_months() {
    // Base 500, premium 1000, three whole 30-day periods: 30 bps surcharge.
    assert_eq!(calculate_interest_rate(CREDIT_TIER_D, 90 * 86400), 1530);
}

#[test]
fn minimum_rate_partial_month_has_no_surcharge() {
    assert_eq!(calculate_interest_rate(CREDIT_TIER_B, 29 * 86400), 700);
    assert_eq!(calculate_interest_rate(CREDIT_TIER_B, 59 * 86400), 710);
    assert_eq!(calculate_interest_rate(CREDIT_TIER_C, 86400), 1000);
}

#[test]
fn minimum_rate_full_year() {
    // 365 days hold twelve whole 30-day periods.
    assert_eq!(calculate_interest_rate(CREDIT_TIER_A, 31536000), 620);
}
