//! Protocol-wide laws, stated over the same guard predicates the
//! operations' contracts use and proved once and for all.

use vstd::prelude::*;
use crate::credit::max_borrow_for_tier;
use crate::lifecycle::can_fund;
use crate::lifecycle::can_mark_default;
use crate::lifecycle::can_request;
use crate::lifecycle::is_late;
use crate::policy::MAX_LOAN_DURATION;
use crate::policy::MIN_LOAN_DURATION;
use crate::policy::minimum_rate;
use crate::state::LoanAccount;
use crate::state::ProtocolConfig;
use crate::state::ReputationAccount;

verus! {

/// A loan is funded at most once: once it has left `Requested` — in
/// particular once it is `Funded` or `Active` — no funding offer passes
/// the funding guard again, whatever rate is offered and however the
/// configuration has changed since.
pub proof fn lemma_no_double_fund(config: ProtocolConfig, loan: LoanAccount, interest_rate_bps: u16)
    requires
        !(loan.state is Requested),
    ensures
        !can_fund(config, loan, interest_rate_bps),
{
}

/// A default is marked at most once: a loan in any state but `Active` — in
/// particular one already `Defaulted` — can never pass the default guard
/// again, at any time.
pub proof fn lemma_default_marked_once(loan: LoanAccount, now: i64)
    requires
        !(loan.state is Active),
    ensures
        !can_mark_default(loan, now),
{
}

/// A default never comes early: at or before the due date the default
/// guard rejects, whatever else holds of the loan.
pub proof fn lemma_no_early_default(loan: LoanAccount, now: i64)
    requires
        now <= loan.due_date,
    ensures
        !can_mark_default(loan, now),
{
}

/// A frozen reputation blocks every new loan request, whatever its terms,
/// until the freeze is explicitly cleared; clearing the freeze alone — it
/// touches neither score, tier, nor counters — makes the same request
/// admissible again whenever its other guards hold.
pub proof fn lemma_freeze_blocks_requests(
    config: ProtocolConfig,
    reputation: ReputationAccount,
    amount: u64,
    duration_seconds: i64,
    max_interest_rate_bps: u16,
)
    requires
        reputation.is_frozen,
    ensures
        !can_request(config, reputation, amount, duration_seconds, max_interest_rate_bps),
        can_request(
            config,
            ReputationAccount { is_frozen: false, ..reputation },
            amount,
            duration_seconds,
            max_interest_rate_bps,
        ) <==> {
            &&& !config.is_paused
            &&& amount <= max_borrow_for_tier(reputation.credit_tier)
            &&& MIN_LOAN_DURATION <= duration_seconds <= MAX_LOAN_DURATION
            &&& max_interest_rate_bps >= minimum_rate(reputation.credit_tier, duration_seconds)
        },
{
}

/// Late and on-time repayment are mutually exclusive and exhaustive, and
/// the boundary is exact: a repayment on the due date itself is on time,
/// and one a second past it is late.
pub proof fn lemma_lateness_boundary(due_date: i64)
    requires
        due_date < i64::MAX,
    ensures
        forall|now: i64| is_late(now, due_date) <==> !(now <= due_date),
        !is_late(due_date, due_date),
        is_late((due_date + 1) as i64, due_date),
{
}

} // verus!
