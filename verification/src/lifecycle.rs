//! The loan lifecycle state machine.
//!
//! One record per loan; transitions are driven by borrower, lender, oracle,
//! and admin actions, each validated against the protocol configuration and
//! the borrower's reputation. A transition either mutates the records it
//! declares and reports the value transfers the platform must perform, or
//! rejects the whole operation with a named error and changes nothing.
//!
//! States move only forward: `Requested` to `Funded` to `Active`, ending in
//! one of the terminal states `Repaid`, `Defaulted`, or `Cancelled`; a
//! request may also end in `Cancelled` directly. An operation against a loan
//! in any other state is rejected; no transition is reversible.

use vstd::prelude::*;
use crate::credit::DEFAULT_PENALTY;
use crate::credit::LATE_PAYMENT_PENALTY;
use crate::credit::ON_TIME_PAYMENT_BONUS;
use crate::credit::TIER_A_MAX_BORROW;
use crate::credit::adjusted_score;
use crate::credit::apply_credit_adjustment;
use crate::credit::calculate_credit_tier;
use crate::credit::get_max_borrow_amount;
use crate::credit::max_borrow_for_tier;
use crate::credit::tier_of;
use crate::policy::MAX_LOAN_DURATION;
use crate::policy::MIN_LOAN_DURATION;
use crate::policy::calculate_interest_rate;
use crate::policy::minimum_rate;
use crate::state::ErrorCode;
use crate::state::LoanAccount;
use crate::state::MAX_PROTOCOL_FEE_BPS;
use crate::state::LoanState;
use crate::state::ProtocolConfig;
use crate::state::ReputationAccount;

verus! {

// Interest and fee computations work in basis points of this whole.
pub const BPS_DENOMINATOR: u64 = 10000;

/// Whether a loan request with these terms passes every policy guard:
/// protocol live, reputation unfrozen, amount within the tier ceiling,
/// duration within one day through one year, and the borrower's rate
/// ceiling at or above the policy minimum.
pub open spec fn can_request(
    config: ProtocolConfig,
    reputation: ReputationAccount,
    amount: u64,
    duration_seconds: i64,
    max_interest_rate_bps: u16,
) -> bool {
    &&& !config.is_paused
    &&& !reputation.is_frozen
    &&& amount <= max_borrow_for_tier(reputation.credit_tier)
    &&& MIN_LOAN_DURATION <= duration_seconds <= MAX_LOAN_DURATION
    &&& max_interest_rate_bps >= minimum_rate(reputation.credit_tier, duration_seconds)
}

/// Whether a funding offer passes every guard: protocol live, the loan
/// still in `Requested`, and the lender's rate at or under the borrower's
/// ceiling.
pub open spec fn can_fund(config: ProtocolConfig, loan: LoanAccount, interest_rate_bps: u16) -> bool {
    &&& !config.is_paused
    &&& loan.state is Requested
    &&& interest_rate_bps <= loan.max_interest_rate_bps
}

/// Whether a loan may be marked defaulted: it is `Active` and the clock is
/// strictly past its due date.
pub open spec fn can_mark_default(loan: LoanAccount, now: i64) -> bool {
    loan.state is Active && now > loan.due_date
}

/// A repayment is late exactly when the clock is strictly past the due
/// date; on the due date itself it is still on time.
pub open spec fn is_late(now: i64, due_date: i64) -> bool {
    now > due_date
}

/// Interest owed on a principal at a rate in basis points, rounded down.
pub open spec fn interest_on(amount: u64, rate_bps: u16) -> int {
    (amount * rate_bps) / BPS_DENOMINATOR as int
}

/// The protocol's cut of the interest at a fee rate in basis points,
/// rounded down.
pub open spec fn fee_on(interest: int, fee_bps: u16) -> int {
    (interest * fee_bps) / BPS_DENOMINATOR as int
}

/// A loan counter one lower, stopping at zero.
pub open spec fn saturating_decrement(count: u32) -> u32 {
    if count > 0 {
        (count - 1) as u32
    } else {
        0u32
    }
}

/// The settlement of one repayment: what moves where when a loan is repaid.
/// The fee is carved out of the lender's share, not added on top of the
/// borrower's payment, so the recorded repayment is principal plus interest
/// while the lender receives that sum less the fee.
#[derive(Clone, Copy, Debug, PartialEq, Eq, Structural)]
pub struct RepaymentSettlement {
    /// Interest owed: `floor(amount * rate / 10000)`.
    pub interest: u64,
    /// The protocol's cut of the interest; transferred from the borrower to
    /// the treasury when positive, no transfer otherwise.
    pub protocol_fee: u64,
    /// Principal plus interest less the fee, transferred from the borrower
    /// to the lender.
    pub lender_amount: u64,
    /// Principal plus interest: the amount recorded on the loan.
    pub total_repayment: u64,
}

/// Creates a loan request. On success the new record starts in `Requested`
/// with the policy minimum recorded as its suggested rate; nothing else in
/// the system changes until a lender funds it.
pub fn create_loan_request(
    config: &ProtocolConfig,
    reputation: &ReputationAccount,
    borrower: u64,
    loan_id: u64,
    amount: u64,
    duration_seconds: i64,
    max_interest_rate_bps: u16,
    now: i64,
) -> (r: Result<LoanAccount, ErrorCode>)
    ensures
        r is Ok <==> reputation.owner == borrower && can_request(
            *config,
            *reputation,
            amount,
            duration_seconds,
            max_interest_rate_bps,
        ),
        reputation.owner != borrower ==> r == Err::<LoanAccount, ErrorCode>(
            ErrorCode::IdentityMismatch,
        ),
        reputation.owner == borrower ==> r == (if config.is_paused {
            Err::<LoanAccount, ErrorCode>(ErrorCode::ProtocolPaused)
        } else if reputation.is_frozen {
            Err(ErrorCode::ReputationFrozen)
        } else if amount > max_borrow_for_tier(reputation.credit_tier) {
            Err(ErrorCode::ExceedsMaxBorrowAmount)
        } else if !(MIN_LOAN_DURATION <= duration_seconds <= MAX_LOAN_DURATION) {
            Err(ErrorCode::InvalidDuration)
        } else if max_interest_rate_bps < minimum_rate(reputation.credit_tier, duration_seconds) {
            Err(ErrorCode::InterestRateTooLow)
        } else {
            Ok(
                LoanAccount {
                    borrower,
                    loan_id,
                    amount,
                    funded_amount: 0,
                    duration_seconds,
                    max_interest_rate_bps,
                    actual_interest_rate_bps: 0,
                    suggested_interest_rate_bps: minimum_rate(
                        reputation.credit_tier,
                        duration_seconds,
                    ) as u16,
                    state: LoanState::Requested,
                    created_at: now,
                    funded_at: 0,
                    due_date: 0,
                    repaid_at: 0,
                    lender: None,
                    repaid_amount: 0,
                },
            )
        }),
        r matches Ok(loan) ==> loan.wf(),
{
    if reputation.owner != borrower {
        return Err(ErrorCode::IdentityMismatch);
    }
    if config.is_paused {
        return Err(ErrorCode::ProtocolPaused);
    }
    if reputation.is_frozen {
        return Err(ErrorCode::ReputationFrozen);
    }
    let max_borrow: u64 = get_max_borrow_amount(reputation.credit_tier);
    if amount > max_borrow {
        return Err(ErrorCode::ExceedsMaxBorrowAmount);
    }
    if !(duration_seconds >= MIN_LOAN_DURATION && duration_seconds <= MAX_LOAN_DURATION) {
        return Err(ErrorCode::InvalidDuration);
    }
    let min_interest: u16 = calculate_interest_rate(reputation.credit_tier, duration_seconds);
    if max_interest_rate_bps < min_interest {
        return Err(ErrorCode::InterestRateTooLow);
    }
    Ok(
        LoanAccount {
            borrower,
            loan_id,
            amount,
            funded_amount: 0,
            duration_seconds,
            max_interest_rate_bps,
            actual_interest_rate_bps: 0,
            suggested_interest_rate_bps: min_interest,
            state: LoanState::Requested,
            created_at: now,
            funded_at: 0,
            due_date: 0,
            repaid_at: 0,
            lender: None,
            repaid_amount: 0,
        },
    )
}

/// Funds a requested loan (lender action). On success the returned amount
/// is the principal the platform must move from the lender into escrow; the
/// loan records the lender and the agreed rate, its due date is fixed once
/// and for all at `now + duration`, and the borrower's and the protocol's
/// issuance counters advance.
pub fn fund_loan(
    config: &mut ProtocolConfig,
    loan: &mut LoanAccount,
    reputation: &mut ReputationAccount,
    lender: u64,
    interest_rate_bps: u16,
    now: i64,
) -> (r: Result<u64, ErrorCode>)
    requires
        old(loan).wf(),
        now + old(loan).duration_seconds <= i64::MAX,
        old(reputation).active_loans < u32::MAX,
        old(reputation).total_loans < u32::MAX,
        old(reputation).total_borrowed + old(loan).amount <= u64::MAX,
        old(config).total_loans_issued < u64::MAX,
        old(config).total_volume + old(loan).amount <= u64::MAX,
    ensures
        r is Ok <==> old(reputation).owner == old(loan).borrower && can_fund(
            *old(config),
            *old(loan),
            interest_rate_bps,
        ),
        old(reputation).owner != old(loan).borrower ==> r == Err::<u64, ErrorCode>(
            ErrorCode::IdentityMismatch,
        ),
        old(reputation).owner == old(loan).borrower && r is Err ==> r == (if old(config).is_paused {
            Err::<u64, ErrorCode>(ErrorCode::ProtocolPaused)
        } else if !(old(loan).state is Requested) {
            Err(ErrorCode::InvalidLoanState)
        } else {
            Err(ErrorCode::InterestRateTooHigh)
        }),
        r is Err ==> *final(config) == *old(config) && *final(loan) == *old(loan) && *final(reputation) == *old(reputation),
        r is Ok ==> r == Ok::<u64, ErrorCode>(old(loan).amount) && *final(loan) == (LoanAccount {
            lender: Some(lender),
            actual_interest_rate_bps: interest_rate_bps,
            funded_amount: old(loan).amount,
            state: LoanState::Funded,
            funded_at: now,
            due_date: (now + old(loan).duration_seconds) as i64,
            ..*old(loan)
        }) && *final(reputation) == (ReputationAccount {
            active_loans: (old(reputation).active_loans + 1) as u32,
            total_loans: (old(reputation).total_loans + 1) as u32,
            total_borrowed: (old(reputation).total_borrowed + old(loan).amount) as u64,
            last_updated: now,
            ..*old(reputation)
        }) && *final(config) == (ProtocolConfig {
            total_loans_issued: (old(config).total_loans_issued + 1) as u64,
            total_volume: (old(config).total_volume + old(loan).amount) as u64,
            ..*old(config)
        }),
        r is Ok ==> final(loan).wf(),
{
    if reputation.owner != loan.borrower {
        return Err(ErrorCode::IdentityMismatch);
    }
    if config.is_paused {
        return Err(ErrorCode::ProtocolPaused);
    }
    if loan.state != LoanState::Requested {
        return Err(ErrorCode::InvalidLoanState);
    }
    if interest_rate_bps > loan.max_interest_rate_bps {
        return Err(ErrorCode::InterestRateTooHigh);
    }
    let principal: u64 = loan.amount;

    loan.lender = Some(lender);
    loan.actual_interest_rate_bps = interest_rate_bps;
    loan.funded_amount = principal;
    loan.state = LoanState::Funded;
    loan.funded_at = now;
    loan.due_date = now + loan.duration_seconds;

    reputation.active_loans = reputation.active_loans + 1;
    reputation.total_loans = reputation.total_loans + 1;
    reputation.total_borrowed = reputation.total_borrowed + principal;
    reputation.last_updated = now;

    config.total_loans_issued = config.total_loans_issued + 1;
    config.total_volume = config.total_volume + principal;

    Ok(principal)
}

/// Releases a funded loan's principal to its borrower (borrower action).
/// On success the returned amount is what the platform must move from
/// escrow to the borrower, and the loan becomes `Active`; nothing else
/// changes.
pub fn withdraw_loan(loan: &mut LoanAccount, actor: u64) -> (r: Result<u64, ErrorCode>)
    requires
        old(loan).wf(),
    ensures
        r is Ok <==> actor == old(loan).borrower && old(loan).state is Funded,
        actor != old(loan).borrower ==> r == Err::<u64, ErrorCode>(ErrorCode::IdentityMismatch),
        actor == old(loan).borrower && !(old(loan).state is Funded) ==> r == Err::<u64, ErrorCode>(
            ErrorCode::InvalidLoanState,
        ),
        r is Err ==> *final(loan) == *old(loan),
        r is Ok ==> r == Ok::<u64, ErrorCode>(old(loan).amount) && *final(loan) == (LoanAccount {
            state: LoanState::Active,
            ..*old(loan)
        }) && final(loan).wf(),
{
    if actor != loan.borrower {
        return Err(ErrorCode::IdentityMismatch);
    }
    if loan.state != LoanState::Funded {
        return Err(ErrorCode::InvalidLoanState);
    }
    loan.state = LoanState::Active;
    Ok(loan.amount)
}

/// Repays an active loan in full (borrower action). On success the
/// settlement says what the platform must move in one atomic step: the
/// lender's share from the borrower to the lender, and the fee (when
/// positive) from the borrower to the treasury. The loan ends `Repaid`;
/// the borrower's reputation records the repayment, exactly one of the
/// on-time or late branches, the adjusted score, and the recomputed tier.
pub fn repay_loan(
    config: &ProtocolConfig,
    loan: &mut LoanAccount,
    reputation: &mut ReputationAccount,
    actor: u64,
    now: i64,
) -> (r: Result<RepaymentSettlement, ErrorCode>)
    requires
        old(loan).wf(),
        config.wf(),
        actor == old(loan).borrower && old(reputation).owner == old(loan).borrower && old(loan).state is Active ==> {
            &&& old(reputation).completed_loans < u32::MAX
            &&& old(reputation).total_repaid + old(loan).amount + interest_on(
                old(loan).amount,
                old(loan).actual_interest_rate_bps,
            ) <= u64::MAX
            &&& (is_late(now, old(loan).due_date) ==> old(reputation).late_payments < u32::MAX)
            &&& (!is_late(now, old(loan).due_date) ==> old(reputation).on_time_payments < u32::MAX)
        },
    ensures
        r is Ok <==> actor == old(loan).borrower && old(reputation).owner == old(loan).borrower
            && old(loan).state is Active,
        actor != old(loan).borrower || old(reputation).owner != old(loan).borrower ==> r == Err::<
            RepaymentSettlement,
            ErrorCode,
        >(ErrorCode::IdentityMismatch),
        actor == old(loan).borrower && old(reputation).owner == old(loan).borrower && !(old(loan).state is Active) ==> r == Err::<RepaymentSettlement, ErrorCode>(
            ErrorCode::InvalidLoanState,
        ),
        r is Err ==> *final(loan) == *old(loan) && *final(reputation) == *old(reputation),
        r matches Ok(s) ==> {
            &&& s.interest == interest_on(old(loan).amount, old(loan).actual_interest_rate_bps)
            &&& s.protocol_fee == fee_on(s.interest as int, config.protocol_fee_bps)
            &&& s.protocol_fee <= s.interest
            &&& s.lender_amount == old(loan).amount + s.interest - s.protocol_fee
            &&& s.total_repayment == old(loan).amount + s.interest
            &&& *final(loan) == (LoanAccount {
                state: LoanState::Repaid,
                repaid_at: now,
                repaid_amount: (old(loan).amount + s.interest) as u64,
                ..*old(loan)
            })
            &&& *final(reputation) == (ReputationAccount {
                active_loans: saturating_decrement(old(reputation).active_loans),
                completed_loans: (old(reputation).completed_loans + 1) as u32,
                total_repaid: (old(reputation).total_repaid + old(loan).amount
                    + s.interest) as u64,
                late_payments: if is_late(now, old(loan).due_date) {
                    (old(reputation).late_payments + 1) as u32
                } else {
                    old(reputation).late_payments
                },
                on_time_payments: if is_late(now, old(loan).due_date) {
                    old(reputation).on_time_payments
                } else {
                    (old(reputation).on_time_payments + 1) as u32
                },
                credit_score: adjusted_score(
                    old(reputation).credit_score,
                    if is_late(now, old(loan).due_date) {
                        LATE_PAYMENT_PENALTY
                    } else {
                        ON_TIME_PAYMENT_BONUS
                    },
                ) as u16,
                credit_tier: tier_of(
                    adjusted_score(
                        old(reputation).credit_score,
                        if is_late(now, old(loan).due_date) {
                            LATE_PAYMENT_PENALTY
                        } else {
                            ON_TIME_PAYMENT_BONUS
                        },
                    ) as u16,
                ),
                last_updated: now,
                ..*old(reputation)
            })
            &&& final(reputation).wf()
            &&& final(loan).wf()
        },
{
    if actor != loan.borrower || reputation.owner != loan.borrower {
        return Err(ErrorCode::IdentityMismatch);
    }
    if loan.state != LoanState::Active {
        return Err(ErrorCode::InvalidLoanState);
    }
    proof {
        // The loan invariant caps the principal, so even at the largest
        // possible rate the interest product stays far below the word size.
        assert(loan.amount * loan.actual_interest_rate_bps <= TIER_A_MAX_BORROW * u16::MAX)
            by (nonlinear_arith)
            requires
                loan.amount <= TIER_A_MAX_BORROW,
                loan.actual_interest_rate_bps <= u16::MAX,
        ;
    }
    // Interest in a wide intermediate, rounded down.
    let interest_amount: u64 = (((loan.amount as u128) * (loan.actual_interest_rate_bps as u128))
        / (BPS_DENOMINATOR as u128)) as u64;
    proof {
        // The configuration invariant caps the fee rate well under the bps
        // whole, so the fee can never exceed the interest it is cut from.
        assert(interest_amount * config.protocol_fee_bps <= interest_amount
            * MAX_PROTOCOL_FEE_BPS) by (nonlinear_arith)
            requires
                config.protocol_fee_bps <= MAX_PROTOCOL_FEE_BPS,
        ;
    }
    let protocol_fee: u64 = (((interest_amount as u128) * (config.protocol_fee_bps as u128)) / (
    BPS_DENOMINATOR as u128)) as u64;

    let lender_amount: u64 = loan.amount + interest_amount - protocol_fee;
    let total_repayment: u64 = loan.amount + interest_amount;

    loan.state = LoanState::Repaid;
    loan.repaid_at = now;
    loan.repaid_amount = total_repayment;

    let late: bool = now > loan.due_date;

    reputation.active_loans = if reputation.active_loans > 0 {
        reputation.active_loans - 1
    } else {
        0
    };
    reputation.completed_loans = reputation.completed_loans + 1;
    reputation.total_repaid = reputation.total_repaid + total_repayment;

    if late {
        reputation.late_payments = reputation.late_payments + 1;
        reputation.credit_score = apply_credit_adjustment(
            reputation.credit_score,
            LATE_PAYMENT_PENALTY,
        );
    } else {
        reputation.on_time_payments = reputation.on_time_payments + 1;
        reputation.credit_score = apply_credit_adjustment(
            reputation.credit_score,
            ON_TIME_PAYMENT_BONUS,
        );
    }
    reputation.credit_tier = calculate_credit_tier(reputation.credit_score);
    reputation.last_updated = now;

    Ok(
        RepaymentSettlement {
            interest: interest_amount,
            protocol_fee,
            lender_amount,
            total_repayment,
        },
    )
}

/// Marks an active loan defaulted (oracle action), allowed only strictly
/// after the due date. The loan ends `Defaulted`; the borrower takes the
/// default penalty, the tier is recomputed, the reputation is frozen, and
/// the protocol's default counter advances. No value moves.
pub fn mark_default(
    config: &mut ProtocolConfig,
    loan: &mut LoanAccount,
    reputation: &mut ReputationAccount,
    actor: u64,
    now: i64,
) -> (r: Result<(), ErrorCode>)
    requires
        actor == old(config).oracle_authority && old(reputation).owner == old(loan).borrower
            && can_mark_default(*old(loan), now) ==> old(reputation).defaulted_loans < u32::MAX
            && old(config).total_defaults < u64::MAX,
    ensures
        r is Ok <==> actor == old(config).oracle_authority && old(reputation).owner == old(loan).borrower && can_mark_default(*old(loan), now),
        actor != old(config).oracle_authority || old(reputation).owner != old(loan).borrower ==> r
            == Err::<(), ErrorCode>(ErrorCode::IdentityMismatch),
        actor == old(config).oracle_authority && old(reputation).owner == old(loan).borrower && !(
        old(loan).state is Active) ==> r == Err::<(), ErrorCode>(ErrorCode::InvalidLoanState),
        actor == old(config).oracle_authority && old(reputation).owner == old(loan).borrower && old(loan).state is Active && now <= old(loan).due_date ==> r == Err::<(), ErrorCode>(
            ErrorCode::LoanNotDue,
        ),
        r is Err ==> *final(config) == *old(config) && *final(loan) == *old(loan) && *final(reputation) == *old(reputation),
        r is Ok ==> *final(loan) == (LoanAccount { state: LoanState::Defaulted, ..*old(loan) })
            && *final(reputation) == (ReputationAccount {
            active_loans: saturating_decrement(old(reputation).active_loans),
            defaulted_loans: (old(reputation).defaulted_loans + 1) as u32,
            credit_score: adjusted_score(old(reputation).credit_score, DEFAULT_PENALTY) as u16,
            credit_tier: tier_of(
                adjusted_score(old(reputation).credit_score, DEFAULT_PENALTY) as u16,
            ),
            is_frozen: true,
            last_updated: now,
            ..*old(reputation)
        }) && *final(config) == (ProtocolConfig {
            total_defaults: (old(config).total_defaults + 1) as u64,
            ..*old(config)
        }) && final(reputation).wf(),
{
    if actor != config.oracle_authority || reputation.owner != loan.borrower {
        return Err(ErrorCode::IdentityMismatch);
    }
    if loan.state != LoanState::Active {
        return Err(ErrorCode::InvalidLoanState);
    }
    if now <= loan.due_date {
        return Err(ErrorCode::LoanNotDue);
    }
    loan.state = LoanState::Defaulted;

    reputation.active_loans = if reputation.active_loans > 0 {
        reputation.active_loans - 1
    } else {
        0
    };
    reputation.defaulted_loans = reputation.defaulted_loans + 1;
    reputation.credit_score = apply_credit_adjustment(reputation.credit_score, DEFAULT_PENALTY);
    reputation.credit_tier = calculate_credit_tier(reputation.credit_score);
    reputation.is_frozen = true;
    reputation.last_updated = now;

    config.total_defaults = config.total_defaults + 1;

    Ok(())
}

/// Cancels a loan request (borrower action), allowed only while the loan is
/// still `Requested`. The loan ends `Cancelled`; nothing else changes.
pub fn cancel_loan_request(loan: &mut LoanAccount, actor: u64) -> (r: Result<(), ErrorCode>)
    ensures
        r is Ok <==> actor == old(loan).borrower && old(loan).state is Requested,
        actor != old(loan).borrower ==> r == Err::<(), ErrorCode>(ErrorCode::IdentityMismatch),
        actor == old(loan).borrower && !(old(loan).state is Requested) ==> r == Err::<
            (),
            ErrorCode,
        >(ErrorCode::InvalidLoanState),
        r is Err ==> *final(loan) == *old(loan),
        r is Ok ==> *final(loan) == (LoanAccount { state: LoanState::Cancelled, ..*old(loan) }),
{
    if actor != loan.borrower {
        return Err(ErrorCode::IdentityMismatch);
    }
    if loan.state != LoanState::Requested {
        return Err(ErrorCode::InvalidLoanState);
    }
    loan.state = LoanState::Cancelled;
    Ok(())
}

} // verus!
