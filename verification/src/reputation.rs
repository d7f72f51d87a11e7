//! Borrower onboarding and rehabilitation: creating a reputation record and
//! clearing its freeze flag.

use vstd::prelude::*;
use crate::credit::INITIAL_CREDIT_SCORE;
use crate::credit::calculate_credit_tier;
use crate::credit::tier_of;
use crate::state::ErrorCode;
use crate::state::ProtocolConfig;
use crate::state::ReputationAccount;

verus! {

/// Builds a fresh reputation record for a new borrower: the initial score
/// of 500, its derived tier, zeroed counters, unfrozen.
pub fn create_reputation(owner: u64, now: i64) -> (reputation: ReputationAccount)
    ensures
        reputation == (ReputationAccount {
            owner,
            credit_score: INITIAL_CREDIT_SCORE,
            credit_tier: tier_of(INITIAL_CREDIT_SCORE),
            total_loans: 0,
            active_loans: 0,
            completed_loans: 0,
            defaulted_loans: 0,
            total_borrowed: 0,
            total_repaid: 0,
            on_time_payments: 0,
            late_payments: 0,
            created_at: now,
            last_updated: now,
            is_frozen: false,
        }),
        reputation.wf(),
{
    let credit_tier: u8 = calculate_credit_tier(INITIAL_CREDIT_SCORE);
    ReputationAccount {
        owner,
        credit_score: INITIAL_CREDIT_SCORE,
        credit_tier,
        total_loans: 0,
        active_loans: 0,
        completed_loans: 0,
        defaulted_loans: 0,
        total_borrowed: 0,
        total_repaid: 0,
        on_time_payments: 0,
        late_payments: 0,
        created_at: now,
        last_updated: now,
        is_frozen: false,
    }
}

/// Clears a borrower's freeze flag (admin only): the deliberate
/// rehabilitation path after a default. Score, tier, and every counter are
/// left exactly as they were.
pub fn unfreeze_reputation(
    config: &ProtocolConfig,
    reputation: &mut ReputationAccount,
    actor: u64,
    now: i64,
) -> (r: Result<(), ErrorCode>)
    ensures
        r is Ok <==> actor == config.authority,
        r is Err ==> r == Err::<(), ErrorCode>(ErrorCode::IdentityMismatch) && *final(reputation)
            == *old(reputation),
        r is Ok ==> *final(reputation) == (ReputationAccount {
            is_frozen: false,
            last_updated: now,
            ..*old(reputation)
        }),
{
    if actor != config.authority {
        return Err(ErrorCode::IdentityMismatch);
    }
    reputation.is_frozen = false;
    reputation.last_updated = now;
    Ok(())
}

} // verus!
