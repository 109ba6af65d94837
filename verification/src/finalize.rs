//! Finalization, in two steps: create the pool, then commit the liquidity.
//! The pool itself — price, ticks, liquidity math — belongs to the external
//! pool collaborator; this module decides the amounts committed, accounts
//! for the traded asset's own fee withholding, initializes the custody
//! record, and performs the phase transitions into `Recovery`.
use vstd::prelude::*;

use crate::constants::{BPS_DENOMINATOR, LP_ALLOCATION_BPS};
use crate::errors::SovereignError;
use crate::math::{bps_share, bps_share_ceil, proportional_u64};
use crate::state::{
    Address, DepositRecord, PermanentLock, ProtocolState, SovereignState, SovereignStatus,
    SovereignType,
};

verus! {

/// The token side of the planned position: a launched token commits its LP
/// allocation of the vault, a brought asset the whole vault.
pub open spec fn lp_token_allocation(kind: SovereignType, vault_tokens: u64) -> int {
    if kind == SovereignType::TokenLaunch {
        vault_tokens * LP_ALLOCATION_BPS / (BPS_DENOMINATOR as int)
    } else {
        vault_tokens as int
    }
}

/// What a transfer of `sent` tokens leaves at its destination after the
/// asset's own sell fee is withheld, rounded up as the asset rounds:
/// `sent - ceil(sent * fee / 10000)`.
pub open spec fn after_transfer_fee(sent: int, sell_fee_bps: u16) -> int {
    if sell_fee_bps > 0 {
        sent - (sent * sell_fee_bps + BPS_DENOMINATOR - 1) / (BPS_DENOMINATOR as int)
    } else {
        sent
    }
}

/// The amounts the first finalization step hands to the pool creation.
#[derive(Clone, Copy, Debug, PartialEq, Eq, Structural)]
pub struct PoolPlan {
    /// Tokens that will be committed to the position.
    pub lp_tokens: u64,
    /// Tokens that will actually arrive after the asset's own fee, the
    /// figure the pool's opening price must be computed from.
    pub tokens_for_price: u64,
}

/// Step one of finalization: validate that bonding completed, bind the new
/// pool's reference, and plan the token allocation — the host creates the
/// pool at a price computed from the planned post-fee tokens against the
/// vault funding. The sovereign moves to `PoolCreated` with the pool
/// restricted to the protocol's own position. On error nothing changes.
pub fn finalize_create_pool(
    protocol: &ProtocolState,
    sovereign: &mut SovereignState,
    vault_tokens: u64,
    pool_state: Address,
) -> (result: Result<PoolPlan, SovereignError>)
    requires
        old(sovereign).wf(),
    ensures
        final(sovereign).wf(),
        crate::state::lifecycle_step(old(sovereign).state, final(sovereign).state),
        result is Err ==> *final(sovereign) == *old(sovereign),
        (match result {
            Err(e) => {
                if protocol.paused {
                    e == SovereignError::ProtocolPaused
                } else if old(sovereign).state != SovereignStatus::Finalizing {
                    e == SovereignError::InvalidState
                } else if old(sovereign).total_deposited < old(sovereign).bond_target {
                    e == SovereignError::BondTargetNotMet
                } else if old(sovereign).total_deposited == 0 {
                    e == SovereignError::NoDeposits
                } else {
                    e == SovereignError::PoolAlreadyCreated && old(sovereign).pool_state != 0
                }
            },
            Ok(plan) => {
                &&& !protocol.paused
                &&& old(sovereign).state == SovereignStatus::Finalizing
                &&& old(sovereign).total_deposited >= old(sovereign).bond_target
                &&& old(sovereign).total_deposited > 0
                &&& old(sovereign).pool_state == 0
                &&& plan.lp_tokens == lp_token_allocation(
                    old(sovereign).sovereign_type,
                    vault_tokens,
                )
                &&& plan.tokens_for_price == after_transfer_fee(
                    plan.lp_tokens as int,
                    old(sovereign).sell_fee_bps,
                )
                &&& *final(sovereign) == (SovereignState {
                    pool_state,
                    pool_restricted: true,
                    total_supply: vault_tokens,
                    state: SovereignStatus::PoolCreated,
                    ..*old(sovereign)
                })
            },
        }),
{
    if protocol.paused {
        return Err(SovereignError::ProtocolPaused);
    }
    if sovereign.state != SovereignStatus::Finalizing {
        return Err(SovereignError::InvalidState);
    }
    if sovereign.total_deposited < sovereign.bond_target {
        return Err(SovereignError::BondTargetNotMet);
    }
    if sovereign.total_deposited == 0 {
        return Err(SovereignError::NoDeposits);
    }
    if sovereign.pool_state != 0 {
        return Err(SovereignError::PoolAlreadyCreated);
    }
    let lp_tokens = if sovereign.sovereign_type == SovereignType::TokenLaunch {
        bps_share(vault_tokens, LP_ALLOCATION_BPS)
    } else {
        vault_tokens
    };
    let tokens_for_price = if sovereign.sell_fee_bps > 0 {
        lp_tokens - bps_share_ceil(lp_tokens, sovereign.sell_fee_bps)
    } else {
        lp_tokens
    };
    sovereign.pool_state = pool_state;
    sovereign.pool_restricted = true;
    sovereign.total_supply = vault_tokens;
    sovereign.state = SovereignStatus::PoolCreated;
    Ok(PoolPlan { lp_tokens, tokens_for_price })
}

/// The amounts the second finalization step commits.
#[derive(Clone, Copy, Debug, PartialEq, Eq, Structural)]
pub struct LiquidityPlan {
    /// Funding-asset amount the host wraps and commits.
    pub funding_amount: u64,
    /// Tokens the host transfers toward the position.
    pub lp_tokens: u64,
    /// Tokens that actually arrive after the asset's own fee withholding —
    /// the usable side of the position.
    pub tokens_in_position: u64,
    /// The creator escrow released for the market buy.
    pub creator_buy: u64,
}

/// Step two of finalization: commit the vault's funding and the planned
/// tokens to the pool position, initialize the custody record with the
/// liquidity the pool reports, set the recovery target to the deposits, and
/// enter `Recovery` — or straight to `Active` when there is nothing to
/// recover. The creator's escrow is released for the market buy in the same
/// step. On error nothing changes.
pub fn finalize_add_liquidity(
    protocol: &ProtocolState,
    sovereign: &mut SovereignState,
    lock: &mut PermanentLock,
    vault_funding: u64,
    vault_tokens: u64,
    position_mint: Address,
    position_liquidity: u128,
    now: i64,
) -> (result: Result<LiquidityPlan, SovereignError>)
    requires
        old(sovereign).wf(),
    ensures
        final(sovereign).wf(),
        crate::state::lifecycle_step(old(sovereign).state, final(sovereign).state),
        result is Err ==> *final(sovereign) == *old(sovereign) && *final(lock) == *old(lock),
        (match result {
            Err(e) => {
                if protocol.paused {
                    e == SovereignError::ProtocolPaused
                } else if old(sovereign).state != SovereignStatus::PoolCreated {
                    e == SovereignError::InvalidState
                } else {
                    e == SovereignError::PoolNotCreated && old(sovereign).pool_state == 0
                }
            },
            Ok(plan) => {
                &&& !protocol.paused
                &&& old(sovereign).state == SovereignStatus::PoolCreated
                &&& old(sovereign).pool_state != 0
                &&& plan.funding_amount == vault_funding
                &&& plan.lp_tokens == lp_token_allocation(
                    old(sovereign).sovereign_type,
                    vault_tokens,
                )
                &&& plan.tokens_in_position == after_transfer_fee(
                    plan.lp_tokens as int,
                    old(sovereign).sell_fee_bps,
                )
                &&& plan.creator_buy == old(sovereign).creator_escrow
                &&& *final(sovereign) == (SovereignState {
                    position_mint,
                    recovery_target: old(sovereign).total_deposited,
                    total_recovered: 0,
                    finalized_at: now,
                    creator_escrow: 0,
                    state: if old(sovereign).total_deposited == 0 {
                        SovereignStatus::Active
                    } else {
                        SovereignStatus::Recovery
                    },
                    ..*old(sovereign)
                })
                &&& *final(lock) == (PermanentLock {
                    pool_state: old(sovereign).pool_state,
                    position_mint,
                    liquidity: position_liquidity,
                    tick_lower_index: old(lock).tick_lower_index,
                    tick_upper_index: old(lock).tick_upper_index,
                    unwound: false,
                    created_at: now,
                    unwound_at: 0,
                })
            },
        }),
{
    if protocol.paused {
        return Err(SovereignError::ProtocolPaused);
    }
    if sovereign.state != SovereignStatus::PoolCreated {
        return Err(SovereignError::InvalidState);
    }
    if sovereign.pool_state == 0 {
        return Err(SovereignError::PoolNotCreated);
    }
    let lp_tokens = if sovereign.sovereign_type == SovereignType::TokenLaunch {
        bps_share(vault_tokens, LP_ALLOCATION_BPS)
    } else {
        vault_tokens
    };
    let tokens_in_position = if sovereign.sell_fee_bps > 0 {
        lp_tokens - bps_share_ceil(lp_tokens, sovereign.sell_fee_bps)
    } else {
        lp_tokens
    };
    lock.pool_state = sovereign.pool_state;
    lock.position_mint = position_mint;
    lock.liquidity = position_liquidity;
    lock.unwound = false;
    lock.created_at = now;
    lock.unwound_at = 0;
    sovereign.position_mint = position_mint;
    sovereign.recovery_target = sovereign.total_deposited;
    sovereign.total_recovered = 0;
    sovereign.finalized_at = now;
    let creator_buy = sovereign.creator_escrow;
    sovereign.creator_escrow = 0;
    if sovereign.recovery_target == 0 {
        sovereign.state = SovereignStatus::Active;
    } else {
        sovereign.state = SovereignStatus::Recovery;
    }
    Ok(
        LiquidityPlan {
            funding_amount: vault_funding,
            lp_tokens,
            tokens_in_position,
            creator_buy,
        },
    )
}

/// Issue a depositor's bearer claim token after finalization: fix the
/// position's proportional share and voting power at
/// `pledge * 10000 / total_deposited` basis points, exactly once per
/// record. The host mints the token to the depositor. Returns the fixed
/// share. On error nothing changes.
pub fn mint_genesis_nft(
    sovereign: &SovereignState,
    record: &mut DepositRecord,
    nft_mint: Address,
) -> (result: Result<u16, SovereignError>)
    requires
        old(record).amount <= sovereign.total_deposited,
    ensures
        result is Err ==> *final(record) == *old(record),
        (match result {
            Err(e) => {
                if sovereign.state != SovereignStatus::Recovery && sovereign.state
                    != SovereignStatus::Active {
                    e == SovereignError::InvalidState
                } else if old(record).nft_minted {
                    e == SovereignError::NFTAlreadyMinted
                } else {
                    e == SovereignError::ZeroDeposit && old(record).amount == 0
                }
            },
            Ok(share_bps) => {
                &&& (sovereign.state == SovereignStatus::Recovery || sovereign.state
                    == SovereignStatus::Active)
                &&& !old(record).nft_minted
                &&& old(record).amount > 0
                &&& share_bps == old(record).amount * (BPS_DENOMINATOR as int)
                    / (sovereign.total_deposited as int)
                &&& share_bps <= BPS_DENOMINATOR
                &&& *final(record) == (DepositRecord {
                    nft_minted: true,
                    nft_mint: Some(nft_mint),
                    voting_power_bps: share_bps,
                    shares_bps: share_bps,
                    ..*old(record)
                })
            },
        }),
{
    if sovereign.state != SovereignStatus::Recovery && sovereign.state != SovereignStatus::Active {
        return Err(SovereignError::InvalidState);
    }
    if record.nft_minted {
        return Err(SovereignError::NFTAlreadyMinted);
    }
    if record.amount == 0 {
        return Err(SovereignError::ZeroDeposit);
    }
    // amount > 0 and amount <= total_deposited, so the total is nonzero and
    // the share is at most the whole.
    let share = proportional_u64(BPS_DENOMINATOR as u64, record.amount, sovereign.total_deposited);
    proof {
        let a = old(record).amount as int;
        assert(10000 * a == a * 10000) by (nonlinear_arith);
    }
    let share_bps: u16 = share as u16;
    record.nft_minted = true;
    record.nft_mint = Some(nft_mint);
    record.voting_power_bps = share_bps;
    record.shares_bps = share_bps;
    Ok(share_bps)
}

} // verus!
