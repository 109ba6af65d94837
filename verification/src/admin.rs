//! Protocol administration: one-time protocol initialization, fee-parameter
//! setters under their caps, authority transfer, the pause flag, and the
//! creator's fee-threshold and sell-fee controls with their irreversible
//! renunciations.
use vstd::prelude::*;

use crate::constants::{
    DEFAULT_BYO_MIN_SUPPLY_BPS, DEFAULT_CREATION_FEE_BPS, DEFAULT_UNWIND_FEE_BPS,
    GOVERNANCE_UNWIND_FEE, MAX_CREATION_FEE_BPS, MAX_SELL_FEE_BPS, MAX_UNWIND_FEE_BPS,
    MIN_BOND_TARGET, MIN_DEPOSIT, MIN_FEE, MIN_FEE_GROWTH_THRESHOLD, NINETY_DAYS,
};
use crate::errors::SovereignError;
use crate::state::{
    Address, CreatorFeeTracker, FeeMode, ProtocolState, SovereignState, SovereignStatus,
    SovereignType,
};

verus! {

/// One-time protocol setup with the documented defaults.
pub fn initialize_protocol(authority: Address, treasury: Address) -> (r: ProtocolState)
    ensures
        r == (ProtocolState {
            authority,
            treasury,
            creation_fee_bps: DEFAULT_CREATION_FEE_BPS,
            min_fee_lamports: MIN_FEE,
            governance_unwind_fee_lamports: GOVERNANCE_UNWIND_FEE,
            unwind_fee_bps: DEFAULT_UNWIND_FEE_BPS,
            byo_min_supply_bps: DEFAULT_BYO_MIN_SUPPLY_BPS,
            min_bond_target: MIN_BOND_TARGET,
            min_deposit: MIN_DEPOSIT,
            auto_unwind_period: NINETY_DAYS,
            min_fee_growth_threshold: MIN_FEE_GROWTH_THRESHOLD,
            fee_threshold_renounced: false,
            paused: false,
            sovereign_count: 0,
            total_fees_collected: 0,
        }),
        r.wf(),
{
    ProtocolState {
        authority,
        treasury,
        creation_fee_bps: DEFAULT_CREATION_FEE_BPS,
        min_fee_lamports: MIN_FEE,
        governance_unwind_fee_lamports: GOVERNANCE_UNWIND_FEE,
        unwind_fee_bps: DEFAULT_UNWIND_FEE_BPS,
        byo_min_supply_bps: DEFAULT_BYO_MIN_SUPPLY_BPS,
        min_bond_target: MIN_BOND_TARGET,
        min_deposit: MIN_DEPOSIT,
        auto_unwind_period: NINETY_DAYS,
        min_fee_growth_threshold: MIN_FEE_GROWTH_THRESHOLD,
        fee_threshold_renounced: false,
        paused: false,
        sovereign_count: 0,
        total_fees_collected: 0,
    }
}

/// Update protocol-level fee parameters; absent options leave their fields
/// untouched. Authority-only, and each fee respects its cap. On error
/// nothing changes.
pub fn update_protocol_fees(
    protocol: &mut ProtocolState,
    caller: Address,
    new_creation_fee_bps: Option<u16>,
    new_min_fee_lamports: Option<u64>,
    new_min_deposit: Option<u64>,
    new_min_bond_target: Option<u64>,
    new_unwind_fee_bps: Option<u16>,
    new_volume_threshold_bps: Option<u16>,
) -> (result: Result<(), SovereignError>)
    requires
        old(protocol).wf(),
    ensures
        final(protocol).wf(),
        result is Err ==> *final(protocol) == *old(protocol),
        (match result {
            Err(e) => {
                if caller != old(protocol).authority {
                    e == SovereignError::Unauthorized
                } else if new_creation_fee_bps matches Some(f) && f > MAX_CREATION_FEE_BPS {
                    e == SovereignError::FeeTooHigh
                } else if new_min_deposit matches Some(m) && m == 0 {
                    e == SovereignError::InvalidAmount
                } else if new_min_bond_target matches Some(m) && m == 0 {
                    e == SovereignError::InvalidAmount
                } else {
                    &&& e == SovereignError::FeeTooHigh
                    &&& new_unwind_fee_bps matches Some(f) && f > MAX_UNWIND_FEE_BPS
                }
            },
            Ok(_) => {
                &&& caller == old(protocol).authority
                &&& *final(protocol) == (ProtocolState {
                    creation_fee_bps: if new_creation_fee_bps is Some {
                        new_creation_fee_bps->0
                    } else {
                        old(protocol).creation_fee_bps
                    },
                    min_fee_lamports: if new_min_fee_lamports is Some {
                        new_min_fee_lamports->0
                    } else {
                        old(protocol).min_fee_lamports
                    },
                    min_deposit: if new_min_deposit is Some {
                        new_min_deposit->0
                    } else {
                        old(protocol).min_deposit
                    },
                    min_bond_target: if new_min_bond_target is Some {
                        new_min_bond_target->0
                    } else {
                        old(protocol).min_bond_target
                    },
                    unwind_fee_bps: if new_unwind_fee_bps is Some {
                        new_unwind_fee_bps->0
                    } else {
                        old(protocol).unwind_fee_bps
                    },
                    min_fee_growth_threshold: if new_volume_threshold_bps is Some {
                        new_volume_threshold_bps->0 as u128
                    } else {
                        old(protocol).min_fee_growth_threshold
                    },
                    ..*old(protocol)
                })
            },
        }),
{
    if caller != protocol.authority {
        return Err(SovereignError::Unauthorized);
    }
    if let Some(f) = new_creation_fee_bps {
        if f > MAX_CREATION_FEE_BPS {
            return Err(SovereignError::FeeTooHigh);
        }
    }
    if let Some(m) = new_min_deposit {
        if m == 0 {
            return Err(SovereignError::InvalidAmount);
        }
    }
    if let Some(m) = new_min_bond_target {
        if m == 0 {
            return Err(SovereignError::InvalidAmount);
        }
    }
    if let Some(f) = new_unwind_fee_bps {
        if f > MAX_UNWIND_FEE_BPS {
            return Err(SovereignError::FeeTooHigh);
        }
    }
    if let Some(f) = new_creation_fee_bps {
        protocol.creation_fee_bps = f;
    }
    if let Some(f) = new_min_fee_lamports {
        protocol.min_fee_lamports = f;
    }
    if let Some(m) = new_min_deposit {
        protocol.min_deposit = m;
    }
    if let Some(m) = new_min_bond_target {
        protocol.min_bond_target = m;
    }
    if let Some(f) = new_unwind_fee_bps {
        protocol.unwind_fee_bps = f;
    }
    if let Some(t) = new_volume_threshold_bps {
        protocol.min_fee_growth_threshold = t as u128;
    }
    Ok(())
}

/// Hand the protocol authority to a new address. Authority-only.
pub fn transfer_protocol_authority(
    protocol: &mut ProtocolState,
    caller: Address,
    new_authority: Address,
) -> (result: Result<(), SovereignError>)
    requires
        old(protocol).wf(),
    ensures
        final(protocol).wf(),
        (match result {
            Err(e) => e == SovereignError::Unauthorized && caller != old(protocol).authority
                && *final(protocol) == *old(protocol),
            Ok(_) => caller == old(protocol).authority && *final(protocol) == (ProtocolState {
                authority: new_authority,
                ..*old(protocol)
            }),
        }),
{
    if caller != protocol.authority {
        return Err(SovereignError::Unauthorized);
    }
    protocol.authority = new_authority;
    Ok(())
}

/// Pause or resume the protocol. Authority-only.
pub fn set_protocol_paused(protocol: &mut ProtocolState, caller: Address, paused: bool) -> (result:
    Result<(), SovereignError>)
    requires
        old(protocol).wf(),
    ensures
        final(protocol).wf(),
        (match result {
            Err(e) => e == SovereignError::Unauthorized && caller != old(protocol).authority
                && *final(protocol) == *old(protocol),
            Ok(_) => caller == old(protocol).authority && *final(protocol) == (ProtocolState {
                paused,
                ..*old(protocol)
            }),
        }),
{
    if caller != protocol.authority {
        return Err(SovereignError::Unauthorized);
    }
    protocol.paused = paused;
    Ok(())
}

/// The creator lowers their revenue-share threshold — never raises it.
/// On error nothing changes.
pub fn update_fee_threshold(
    sovereign: &mut SovereignState,
    tracker: &CreatorFeeTracker,
    caller: Address,
    new_threshold_bps: u16,
) -> (result: Result<(), SovereignError>)
    requires
        old(sovereign).wf(),
    ensures
        final(sovereign).wf(),
        crate::state::lifecycle_step(old(sovereign).state, final(sovereign).state),
        result is Err ==> *final(sovereign) == *old(sovereign),
        (match result {
            Err(e) => {
                if caller != old(sovereign).creator {
                    e == SovereignError::Unauthorized
                } else if tracker.threshold_renounced {
                    e == SovereignError::FeeThresholdRenounced
                } else {
                    e == SovereignError::CannotIncreaseFeeThreshold && new_threshold_bps > old(
                        sovereign,
                    ).fee_threshold_bps
                }
            },
            Ok(_) => {
                &&& caller == old(sovereign).creator
                &&& !tracker.threshold_renounced
                &&& new_threshold_bps <= old(sovereign).fee_threshold_bps
                &&& *final(sovereign) == (SovereignState {
                    fee_threshold_bps: new_threshold_bps,
                    ..*old(sovereign)
                })
            },
        }),
{
    if caller != sovereign.creator {
        return Err(SovereignError::Unauthorized);
    }
    if tracker.threshold_renounced {
        return Err(SovereignError::FeeThresholdRenounced);
    }
    if new_threshold_bps > sovereign.fee_threshold_bps {
        return Err(SovereignError::CannotIncreaseFeeThreshold);
    }
    sovereign.fee_threshold_bps = new_threshold_bps;
    Ok(())
}

/// The creator renounces the revenue-share threshold forever: it drops to
/// zero and can never be set again. On error nothing changes.
pub fn renounce_fee_threshold(
    sovereign: &mut SovereignState,
    tracker: &mut CreatorFeeTracker,
    caller: Address,
) -> (result: Result<(), SovereignError>)
    requires
        old(sovereign).wf(),
    ensures
        final(sovereign).wf(),
        crate::state::lifecycle_step(old(sovereign).state, final(sovereign).state),
        result is Err ==> *final(sovereign) == *old(sovereign) && *final(tracker) == *old(tracker),
        (match result {
            Err(e) => {
                if caller != old(sovereign).creator {
                    e == SovereignError::Unauthorized
                } else {
                    e == SovereignError::FeeThresholdRenounced && old(tracker).threshold_renounced
                }
            },
            Ok(_) => {
                &&& caller == old(sovereign).creator
                &&& !old(tracker).threshold_renounced
                &&& *final(sovereign) == (SovereignState {
                    fee_threshold_bps: 0,
                    ..*old(sovereign)
                })
                &&& *final(tracker) == (CreatorFeeTracker {
                    threshold_renounced: true,
                    ..*old(tracker)
                })
            },
        }),
{
    if caller != sovereign.creator {
        return Err(SovereignError::Unauthorized);
    }
    if tracker.threshold_renounced {
        return Err(SovereignError::FeeThresholdRenounced);
    }
    sovereign.fee_threshold_bps = 0;
    tracker.threshold_renounced = true;
    Ok(())
}

/// The creator adjusts the sell fee of a launched token, within its cap.
/// The host applies the same fee to the traded asset. On error nothing
/// changes.
pub fn update_sell_fee(
    sovereign: &mut SovereignState,
    caller: Address,
    new_fee_bps: u16,
) -> (result: Result<(), SovereignError>)
    requires
        old(sovereign).wf(),
    ensures
        final(sovereign).wf(),
        crate::state::lifecycle_step(old(sovereign).state, final(sovereign).state),
        result is Err ==> *final(sovereign) == *old(sovereign),
        (match result {
            Err(e) => {
                if caller != old(sovereign).creator {
                    e == SovereignError::Unauthorized
                } else if old(sovereign).sovereign_type != SovereignType::TokenLaunch {
                    e == SovereignError::InvalidSovereignType
                } else if old(sovereign).fee_control_renounced {
                    e == SovereignError::FeeControlRenounced
                } else {
                    e == SovereignError::SellFeeExceedsMax && new_fee_bps > MAX_SELL_FEE_BPS
                }
            },
            Ok(_) => {
                &&& caller == old(sovereign).creator
                &&& old(sovereign).sovereign_type == SovereignType::TokenLaunch
                &&& !old(sovereign).fee_control_renounced
                &&& new_fee_bps <= MAX_SELL_FEE_BPS
                &&& *final(sovereign) == (SovereignState {
                    sell_fee_bps: new_fee_bps,
                    ..*old(sovereign)
                })
            },
        }),
{
    if caller != sovereign.creator {
        return Err(SovereignError::Unauthorized);
    }
    if sovereign.sovereign_type != SovereignType::TokenLaunch {
        return Err(SovereignError::InvalidSovereignType);
    }
    if sovereign.fee_control_renounced {
        return Err(SovereignError::FeeControlRenounced);
    }
    if new_fee_bps > MAX_SELL_FEE_BPS {
        return Err(SovereignError::SellFeeExceedsMax);
    }
    sovereign.sell_fee_bps = new_fee_bps;
    Ok(())
}

/// The creator renounces sell-fee control forever: the fee drops to zero and
/// the host removes the fee authority from the traded asset. A fair launch
/// may renounce at any time; the other modes only once revenue sharing is
/// active. On error nothing changes.
pub fn renounce_sell_fee(sovereign: &mut SovereignState, caller: Address) -> (result: Result<
    (),
    SovereignError,
>)
    requires
        old(sovereign).wf(),
    ensures
        final(sovereign).wf(),
        crate::state::lifecycle_step(old(sovereign).state, final(sovereign).state),
        result is Err ==> *final(sovereign) == *old(sovereign),
        (match result {
            Err(e) => {
                if caller != old(sovereign).creator {
                    e == SovereignError::Unauthorized
                } else if old(sovereign).sovereign_type != SovereignType::TokenLaunch {
                    e == SovereignError::InvalidSovereignType
                } else if old(sovereign).fee_control_renounced {
                    e == SovereignError::FeeControlRenounced
                } else {
                    &&& e == SovereignError::RecoveryNotComplete
                    &&& old(sovereign).fee_mode != FeeMode::FairLaunch
                    &&& old(sovereign).state != SovereignStatus::Active
                }
            },
            Ok(_) => {
                &&& caller == old(sovereign).creator
                &&& old(sovereign).sovereign_type == SovereignType::TokenLaunch
                &&& !old(sovereign).fee_control_renounced
                &&& (old(sovereign).fee_mode == FeeMode::FairLaunch || old(sovereign).state
                    == SovereignStatus::Active)
                &&& *final(sovereign) == (SovereignState {
                    sell_fee_bps: 0,
                    fee_control_renounced: true,
                    ..*old(sovereign)
                })
            },
        }),
{
    if caller != sovereign.creator {
        return Err(SovereignError::Unauthorized);
    }
    if sovereign.sovereign_type != SovereignType::TokenLaunch {
        return Err(SovereignError::InvalidSovereignType);
    }
    if sovereign.fee_control_renounced {
        return Err(SovereignError::FeeControlRenounced);
    }
    if sovereign.fee_mode != FeeMode::FairLaunch && sovereign.state != SovereignStatus::Active {
        return Err(SovereignError::RecoveryNotComplete);
    }
    sovereign.sell_fee_bps = 0;
    sovereign.fee_control_renounced = true;
    Ok(())
}

} // verus!
