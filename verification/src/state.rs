//! Data model: the protocol configuration, per-borrower reputation records,
//! loan records, escrow records, loan states, and the error taxonomy.
//!
//! Identities (authorities, borrowers, lenders) are plain references handed
//! in by the surrounding ledger platform, which has already authenticated
//! them; the core only ever compares them for equality. Timestamps are whole
//! seconds since an epoch, supplied per operation by the platform's clock.

use vstd::prelude::*;
use crate::credit::MAX_CREDIT_SCORE;
use crate::credit::TIER_A_MAX_BORROW;
use crate::credit::tier_of;
use crate::policy::MAX_LOAN_DURATION;
use crate::policy::MIN_LOAN_DURATION;

verus! {

// The fee a protocol may charge is capped at 10%.
pub const MAX_PROTOCOL_FEE_BPS: u16 = 1000;

/// The lifecycle state of a loan. `Repaid`, `Defaulted` and `Cancelled` are
/// terminal: no transition ever leaves them.
#[derive(Clone, Copy, Debug, PartialEq, Eq, Structural)]
pub enum LoanState {
    Requested,
    Funded,
    Active,
    Repaid,
    Defaulted,
    Cancelled,
}

/// Every way an operation can be rejected. A rejected operation commits no
/// state change at all.
#[derive(Clone, Copy, Debug, PartialEq, Eq, Structural)]
pub enum ErrorCode {
    /// The protocol is paused: new requests and funding are refused.
    ProtocolPaused,
    /// The borrower's reputation is frozen after a default.
    ReputationFrozen,
    /// The requested amount exceeds the borrower's tier ceiling.
    ExceedsMaxBorrowAmount,
    /// The requested duration is outside one day through one year.
    InvalidDuration,
    /// The borrower's rate ceiling is below the policy minimum.
    InterestRateTooLow,
    /// The lender's chosen rate is above the borrower's ceiling.
    InterestRateTooHigh,
    /// The loan is not in the state the operation requires.
    InvalidLoanState,
    /// The loan cannot be marked defaulted before its due date.
    LoanNotDue,
    /// A protocol fee above the 10% cap.
    InvalidFee,
    /// The acting identity does not match the record it must own.
    IdentityMismatch,
}

/// The protocol-wide configuration: the two privileged identities, the fee
/// taken out of lenders' interest, the pause flag, and aggregate counters.
#[derive(Clone, Copy, Debug)]
pub struct ProtocolConfig {
    /// The administrative identity: may patch the config and unfreeze
    /// reputations.
    pub authority: u64,
    /// The sole identity allowed to mark loans defaulted.
    pub oracle_authority: u64,
    /// Protocol fee in basis points, at most `MAX_PROTOCOL_FEE_BPS`.
    pub protocol_fee_bps: u16,
    pub total_loans_issued: u64,
    pub total_volume: u64,
    pub total_defaults: u64,
    /// While true, new loan requests and funding are rejected.
    pub is_paused: bool,
}

impl ProtocolConfig {
    /// The configuration's invariant: the fee never exceeds its cap.
    pub open spec fn wf(self) -> bool {
        self.protocol_fee_bps <= MAX_PROTOCOL_FEE_BPS
    }
}

/// A borrower's portable credit reputation: score, derived tier, loan
/// counters, cumulative amounts, and the freeze flag set on default.
#[derive(Clone, Copy, Debug)]
pub struct ReputationAccount {
    /// The borrower this record belongs to.
    pub owner: u64,
    /// Credit score in `[0, 1000]`.
    pub credit_score: u16,
    /// Always the tier derived from `credit_score`; never set independently.
    pub credit_tier: u8,
    pub total_loans: u32,
    /// Loans currently funded or active; decrements saturate at zero.
    pub active_loans: u32,
    pub completed_loans: u32,
    pub defaulted_loans: u32,
    pub total_borrowed: u64,
    pub total_repaid: u64,
    pub on_time_payments: u32,
    pub late_payments: u32,
    pub created_at: i64,
    pub last_updated: i64,
    /// True after any default; blocks new loan requests until the admin
    /// clears it.
    pub is_frozen: bool,
}

impl ReputationAccount {
    /// The reputation invariant: the score stays in range and the stored
    /// tier is exactly the one its score derives to.
    pub open spec fn wf(self) -> bool {
        &&& self.credit_score <= MAX_CREDIT_SCORE
        &&& self.credit_tier == tier_of(self.credit_score)
    }
}

/// One loan: its parties, terms, lifecycle state, and timestamps.
#[derive(Clone, Copy, Debug)]
pub struct LoanAccount {
    pub borrower: u64,
    pub loan_id: u64,
    /// Principal requested, within the borrower's tier ceiling.
    pub amount: u64,
    /// Zero until funded, then equal to `amount`.
    pub funded_amount: u64,
    /// Between one day and one year, in seconds.
    pub duration_seconds: i64,
    /// The borrower's ceiling on the rate a lender may choose.
    pub max_interest_rate_bps: u16,
    /// The rate the lender chose; zero until funded.
    pub actual_interest_rate_bps: u16,
    /// The policy minimum computed at creation.
    pub suggested_interest_rate_bps: u16,
    pub state: LoanState,
    pub created_at: i64,
    /// Zero until funded.
    pub funded_at: i64,
    /// Set exactly once, at funding, to `funded_at + duration_seconds`;
    /// immutable thereafter. Zero until then.
    pub due_date: i64,
    /// Zero until repaid.
    pub repaid_at: i64,
    /// The lender, absent until the loan is funded.
    pub lender: Option<u64>,
    /// Principal plus interest, recorded at repayment.
    pub repaid_amount: u64,
}

impl LoanAccount {
    /// The loan invariant: the principal respects the largest tier ceiling,
    /// the duration is in bounds, the funded amount is zero or the whole
    /// principal, and before funding there is no lender, no funded amount,
    /// and no agreed rate above the borrower's ceiling.
    pub open spec fn wf(self) -> bool {
        &&& self.amount <= TIER_A_MAX_BORROW
        &&& MIN_LOAN_DURATION <= self.duration_seconds <= MAX_LOAN_DURATION
        &&& self.funded_amount == 0 || self.funded_amount == self.amount
        &&& (self.state is Requested ==> self.lender is None && self.funded_amount == 0)
    }
}

/// The escrow record that custodially holds a loan's principal between
/// funding and the borrower's withdrawal; the balance itself lives with the
/// platform's value-transfer collaborator.
#[derive(Clone, Copy, Debug)]
pub struct EscrowAccount {
    pub loan_id: u64,
    pub borrower: u64,
}

} // verus!
