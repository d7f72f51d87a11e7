//! Administration of the protocol-wide configuration.
//!
//! `initialize_config` is the one-time creation; the storage layer, not this
//! core, enforces that the singleton is created only once. `update_config`
//! patches the configuration: each field is independently optional, and an
//! absent field is left untouched.

use vstd::prelude::*;
use crate::state::ErrorCode;
use crate::state::MAX_PROTOCOL_FEE_BPS;
use crate::state::ProtocolConfig;

verus! {

/// Builds the initial protocol configuration: the given authorities, the
/// given fee, zeroed counters, unpaused. A fee above the 10% cap is
/// rejected, so a configuration never exists outside its invariant.
pub fn initialize_config(authority: u64, oracle_authority: u64, protocol_fee_bps: u16) -> (r:
    Result<ProtocolConfig, ErrorCode>)
    ensures
        protocol_fee_bps > MAX_PROTOCOL_FEE_BPS ==> r == Err::<ProtocolConfig, ErrorCode>(
            ErrorCode::InvalidFee,
        ),
        protocol_fee_bps <= MAX_PROTOCOL_FEE_BPS ==> (r matches Ok(config) && config
            == (ProtocolConfig {
            authority,
            oracle_authority,
            protocol_fee_bps,
            total_loans_issued: 0,
            total_volume: 0,
            total_defaults: 0,
            is_paused: false,
        })),
        r matches Ok(config) ==> config.wf(),
{
    if protocol_fee_bps > MAX_PROTOCOL_FEE_BPS {
        return Err(ErrorCode::InvalidFee);
    }
    Ok(
        ProtocolConfig {
            authority,
            oracle_authority,
            protocol_fee_bps,
            total_loans_issued: 0,
            total_volume: 0,
            total_defaults: 0,
            is_paused: false,
        },
    )
}

/// Patches the configuration (admin only). Each of the oracle authority,
/// the fee, and the pause flag is applied only where present; a fee above
/// the 10% cap rejects the whole operation, leaving every field untouched.
pub fn update_config(
    config: &mut ProtocolConfig,
    actor: u64,
    oracle_authority: Option<u64>,
    protocol_fee_bps: Option<u16>,
    is_paused: Option<bool>,
) -> (r: Result<(), ErrorCode>)
    ensures
        actor != old(config).authority ==> r == Err::<(), ErrorCode>(ErrorCode::IdentityMismatch),
        actor == old(config).authority && (protocol_fee_bps matches Some(fee) && fee
            > MAX_PROTOCOL_FEE_BPS) ==> r == Err::<(), ErrorCode>(ErrorCode::InvalidFee),
        r is Err ==> *final(config) == *old(config),
        r is Ok <==> actor == old(config).authority && (protocol_fee_bps matches Some(fee) ==> fee
            <= MAX_PROTOCOL_FEE_BPS),
        r is Ok ==> *final(config) == (ProtocolConfig {
            oracle_authority: if oracle_authority is Some {
                oracle_authority->0
            } else {
                old(config).oracle_authority
            },
            protocol_fee_bps: if protocol_fee_bps is Some {
                protocol_fee_bps->0
            } else {
                old(config).protocol_fee_bps
            },
            is_paused: if is_paused is Some {
                is_paused->0
            } else {
                old(config).is_paused
            },
            ..*old(config)
        }),
{
    if actor != config.authority {
        return Err(ErrorCode::IdentityMismatch);
    }
    if let Some(fee) = protocol_fee_bps {
        if fee > MAX_PROTOCOL_FEE_BPS {
            return Err(ErrorCode::InvalidFee);
        }
    }
    if let Some(oracle) = oracle_authority {
        config.oracle_authority = oracle;
    }
    if let Some(fee) = protocol_fee_bps {
        config.protocol_fee_bps = fee;
    }
    if let Some(paused) = is_paused {
        config.is_paused = paused;
    }
    Ok(())
}

} // verus!
