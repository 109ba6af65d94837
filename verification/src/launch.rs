//! Campaign creation: parameter validation, the creation-fee escrow, and —
//! for a launched token — the issuance parameters the host applies to the
//! traded asset.
use vstd::prelude::*;

use crate::constants::{
    BPS_DENOMINATOR, DEFAULT_FEE_THRESHOLD_BPS, MAX_BOND_DURATION, MAX_SELL_FEE_BPS,
    MIN_BOND_DURATION,
};
use crate::errors::SovereignError;
use crate::state::{
    Address, CreatorFeeTracker, FeeMode, ProtocolState, SovereignState, SovereignStatus,
    SovereignType,
};

verus! {

/// Parameters for creating a sovereign. For a token launch the token fields
/// apply; for a brought asset the deposit fields apply.
#[derive(Clone, Copy, Debug)]
pub struct CreateSovereignParams {
    /// Kind of launch.
    pub sovereign_type: SovereignType,
    /// Funding to raise, in smallest units.
    pub bond_target: u64,
    /// Bonding duration in seconds.
    pub bond_duration: i64,
    /// Supply of the token to issue (token launches).
    pub token_supply: Option<u64>,
    /// Sell fee in basis points (token launches).
    pub sell_fee_bps: Option<u16>,
    /// Fee distribution mode (token launches).
    pub fee_mode: Option<FeeMode>,
    /// Tokens the creator deposits (brought assets).
    pub deposit_amount: Option<u64>,
    /// The brought asset's reference; zero for a token launch.
    pub token_mint: Address,
    /// The brought asset's total supply.
    pub token_total_supply: u64,
    /// Pool fee-tier configuration reference.
    pub amm_config: Address,
    /// Swap fee of that tier, in basis points.
    pub swap_fee_bps: u16,
}

/// The error, if any, with which campaign creation is refused, in the order
/// the checks are made.
pub open spec fn create_check(p: ProtocolState, params: CreateSovereignParams) -> Result<
    (),
    SovereignError,
> {
    if p.paused {
        Err(SovereignError::ProtocolPaused)
    } else if params.bond_target < p.min_bond_target {
        Err(SovereignError::InvalidBondTarget)
    } else if params.bond_duration < MIN_BOND_DURATION || params.bond_duration
        > MAX_BOND_DURATION {
        Err(SovereignError::InvalidBondDuration)
    } else if params.sovereign_type == SovereignType::TokenLaunch {
        if params.token_supply is None {
            Err(SovereignError::MissingTokenParams)
        } else if params.sell_fee_bps is Some && params.sell_fee_bps->0 > MAX_SELL_FEE_BPS {
            Err(SovereignError::SellFeeExceedsMax)
        } else {
            Ok(())
        }
    } else {
        if params.deposit_amount is None {
            Err(SovereignError::MissingTokenParams)
        } else if params.token_total_supply == 0 {
            Err(SovereignError::InvalidTokenSupply)
        } else if params.deposit_amount->0 * (BPS_DENOMINATOR as int)
            / (params.token_total_supply as int) < p.byo_min_supply_bps {
            Err(SovereignError::InsufficientTokenDeposit)
        } else {
            Ok(())
        }
    }
}

/// Create a sovereign: validate the parameters, take the creation fee into
/// escrow, and set up the campaign in `Bonding` with a fresh creator
/// tracker. A brought asset must come with at least the required share of
/// its supply; the host transfers that deposit and the creation fee.
/// Returns the new sovereign, the tracker, and the creation fee to escrow.
/// On error nothing changes.
pub fn create_sovereign(
    protocol: &mut ProtocolState,
    params: CreateSovereignParams,
    creator: Address,
    now: i64,
) -> (result: Result<(SovereignState, CreatorFeeTracker, u64), SovereignError>)
    requires
        old(protocol).wf(),
        old(protocol).sovereign_count < u64::MAX,
        now <= i64::MAX - MAX_BOND_DURATION,
        now >= 0,
    ensures
        final(protocol).wf(),
        result is Err ==> *final(protocol) == *old(protocol),
        (match result {
            Err(e) => create_check(*old(protocol), params) == Err::<(), SovereignError>(e),
            Ok((sovereign, tracker, creation_fee)) => {
                let launch = params.sovereign_type == SovereignType::TokenLaunch;
                &&& create_check(*old(protocol), params) is Ok
                &&& *final(protocol) == (ProtocolState {
                    sovereign_count: (old(protocol).sovereign_count + 1) as u64,
                    ..*old(protocol)
                })
                &&& creation_fee == params.bond_target * old(protocol).creation_fee_bps / (
                BPS_DENOMINATOR as int)
                &&& sovereign.wf()
                &&& sovereign == (SovereignState {
                    sovereign_id: (old(protocol).sovereign_count + 1) as u64,
                    creator,
                    token_mint: if launch {
                        0
                    } else {
                        params.token_mint
                    },
                    sovereign_type: params.sovereign_type,
                    state: SovereignStatus::Bonding,
                    bond_target: params.bond_target,
                    bond_deadline: (now + params.bond_duration) as i64,
                    bond_duration: params.bond_duration,
                    total_deposited: 0,
                    depositor_count: 0,
                    creator_escrow: 0,
                    token_supply_deposited: if launch {
                        params.token_supply->0
                    } else {
                        params.deposit_amount->0
                    },
                    token_total_supply: if launch {
                        params.token_supply->0
                    } else {
                        params.token_total_supply
                    },
                    sell_fee_bps: if launch && params.sell_fee_bps is Some {
                        params.sell_fee_bps->0
                    } else {
                        0
                    },
                    fee_mode: if launch && params.fee_mode is Some {
                        params.fee_mode->0
                    } else {
                        FeeMode::CreatorRevenue
                    },
                    fee_control_renounced: false,
                    creation_fee_escrowed: creation_fee,
                    pool_state: 0,
                    position_mint: 0,
                    pool_restricted: true,
                    recovery_target: 0,
                    total_recovered: 0,
                    recovery_complete: false,
                    active_proposal_id: 0,
                    proposal_count: 0,
                    has_active_proposal: false,
                    fee_threshold_bps: DEFAULT_FEE_THRESHOLD_BPS,
                    total_fees_collected: 0,
                    total_supply: 0,
                    activity_check_initiated: false,
                    activity_check_initiated_at: None,
                    activity_check_timestamp: 0,
                    fee_growth_snapshot_a: 0,
                    fee_growth_snapshot_b: 0,
                    activity_check_last_cancelled: 0,
                    unwind_sol_balance: 0,
                    unwind_token_balance: 0,
                    token_redemption_pool: 0,
                    circulating_tokens_at_unwind: 0,
                    token_redemption_deadline: 0,
                    unwound_at: None,
                    last_activity: now,
                    created_at: now,
                    finalized_at: 0,
                })
                &&& tracker == (CreatorFeeTracker {
                    creator,
                    total_earned: 0,
                    total_claimed: 0,
                    pending_withdrawal: 0,
                    threshold_renounced: false,
                    failed_reclaimed: false,
                })
            },
        }),
{
    if protocol.paused {
        return Err(SovereignError::ProtocolPaused);
    }
    if params.bond_target < protocol.min_bond_target {
        return Err(SovereignError::InvalidBondTarget);
    }
    if params.bond_duration < MIN_BOND_DURATION || params.bond_duration > MAX_BOND_DURATION {
        return Err(SovereignError::InvalidBondDuration);
    }
    let launch = params.sovereign_type == SovereignType::TokenLaunch;
    let mut sell_fee_bps: u16 = 0;
    let mut fee_mode: FeeMode = FeeMode::CreatorRevenue;
    let mut token_supply_deposited: u64 = 0;
    let mut token_total_supply: u64 = 0;
    let mut token_mint: Address = 0;
    if launch {
        match params.token_supply {
            None => {
                return Err(SovereignError::MissingTokenParams);
            },
            Some(supply) => {
                if let Some(fee) = params.sell_fee_bps {
                    if fee > MAX_SELL_FEE_BPS {
                        return Err(SovereignError::SellFeeExceedsMax);
                    }
                    sell_fee_bps = fee;
                }
                if let Some(mode) = params.fee_mode {
                    fee_mode = mode;
                }
                token_supply_deposited = supply;
                token_total_supply = supply;
            },
        }
    } else {
        match params.deposit_amount {
            None => {
                return Err(SovereignError::MissingTokenParams);
            },
            Some(deposit) => {
                if params.token_total_supply == 0 {
                    return Err(SovereignError::InvalidTokenSupply);
                }
                let deposit_share = crate::math::proportional_u64(
                    BPS_DENOMINATOR as u64,
                    if deposit <= params.token_total_supply {
                        deposit
                    } else {
                        params.token_total_supply
                    },
                    params.token_total_supply,
                );
                // An oversized deposit trivially meets the share requirement;
                // compare the exact floored share otherwise.
                let meets = if deposit > params.token_total_supply {
                    true
                } else {
                    deposit_share >= protocol.byo_min_supply_bps as u64
                };
                proof {
                    if deposit <= params.token_total_supply {
                        assert(10000 * deposit == deposit * 10000) by (nonlinear_arith);
                    } else {
                        assert(deposit * 10000 >= 10000 * params.token_total_supply)
                            by (nonlinear_arith)
                            requires
                                deposit > params.token_total_supply,
                        ;
                        assert(deposit * 10000 / (params.token_total_supply as int) >= 10000) by {
                            crate::math::lemma_div_ge_iff(
                                deposit * 10000,
                                params.token_total_supply as int,
                                10000,
                            );
                            assert(10000 * (params.token_total_supply as int)
                                == (params.token_total_supply as int) * 10000)
                                by (nonlinear_arith);
                        }
                    }
                }
                if !meets {
                    return Err(SovereignError::InsufficientTokenDeposit);
                }
                token_supply_deposited = deposit;
                token_total_supply = params.token_total_supply;
                token_mint = params.token_mint;
            },
        }
    }
    let creation_fee = crate::math::bps_share(params.bond_target, protocol.creation_fee_bps);
    protocol.sovereign_count = protocol.sovereign_count + 1;
    let sovereign = SovereignState {
        sovereign_id: protocol.sovereign_count,
        creator,
        token_mint,
        sovereign_type: params.sovereign_type,
        state: SovereignStatus::Bonding,
        bond_target: params.bond_target,
        bond_deadline: now + params.bond_duration,
        bond_duration: params.bond_duration,
        total_deposited: 0,
        depositor_count: 0,
        creator_escrow: 0,
        token_supply_deposited,
        token_total_supply,
        sell_fee_bps,
        fee_mode,
        fee_control_renounced: false,
        creation_fee_escrowed: creation_fee,
        pool_state: 0,
        position_mint: 0,
        pool_restricted: true,
        recovery_target: 0,
        total_recovered: 0,
        recovery_complete: false,
        active_proposal_id: 0,
        proposal_count: 0,
        has_active_proposal: false,
        fee_threshold_bps: DEFAULT_FEE_THRESHOLD_BPS,
        total_fees_collected: 0,
        total_supply: 0,
        activity_check_initiated: false,
        activity_check_initiated_at: None,
        activity_check_timestamp: 0,
        fee_growth_snapshot_a: 0,
        fee_growth_snapshot_b: 0,
        activity_check_last_cancelled: 0,
        unwind_sol_balance: 0,
        unwind_token_balance: 0,
        token_redemption_pool: 0,
        circulating_tokens_at_unwind: 0,
        token_redemption_deadline: 0,
        unwound_at: None,
        last_activity: now,
        created_at: now,
        finalized_at: 0,
    };
    let tracker = CreatorFeeTracker::new(creator);
    Ok((sovereign, tracker, creation_fee))
}

/// Record the issuance of a launched token: validate the metadata lengths,
/// require a positive supply, and bind the new asset's reference to the
/// sovereign. The host creates the asset with the sovereign's sell fee and
/// mints the deposited supply into the vault; this returns that amount.
/// On error nothing changes.
pub fn create_token(
    sovereign: &mut SovereignState,
    name_len: usize,
    symbol_len: usize,
    uri_len: usize,
    token_mint: Address,
) -> (result: Result<u64, SovereignError>)
    requires
        old(sovereign).wf(),
    ensures
        final(sovereign).wf(),
        crate::state::lifecycle_step(old(sovereign).state, final(sovereign).state),
        result is Err ==> *final(sovereign) == *old(sovereign),
        (match result {
            Err(e) => {
                if name_len == 0 || name_len > 32 {
                    e == SovereignError::InvalidTokenName
                } else if symbol_len == 0 || symbol_len > 10 {
                    e == SovereignError::InvalidTokenSymbol
                } else if uri_len == 0 || uri_len > 200 {
                    e == SovereignError::InvalidMetadataUri
                } else {
                    e == SovereignError::InvalidTokenSupply && old(sovereign).token_total_supply
                        == 0
                }
            },
            Ok(mint_amount) => {
                &&& 0 < name_len <= 32
                &&& 0 < symbol_len <= 10
                &&& 0 < uri_len <= 200
                &&& old(sovereign).token_total_supply > 0
                &&& mint_amount == old(sovereign).token_supply_deposited
                &&& *final(sovereign) == (SovereignState { token_mint, ..*old(sovereign) })
            },
        }),
{
    if name_len == 0 || name_len > 32 {
        return Err(SovereignError::InvalidTokenName);
    }
    if symbol_len == 0 || symbol_len > 10 {
        return Err(SovereignError::InvalidTokenSymbol);
    }
    if uri_len == 0 || uri_len > 200 {
        return Err(SovereignError::InvalidMetadataUri);
    }
    if sovereign.token_total_supply == 0 {
        return Err(SovereignError::InvalidTokenSupply);
    }
    sovereign.token_mint = token_mint;
    Ok(sovereign.token_supply_deposited)
}

} // verus!
