//! The emergency safety valve: an authority-triggered unlock reachable from
//! any non-terminal phase, a solvency-protected liquidity extraction, a
//! token-holder redemption pool for the surplus, and a timed sweep of
//! whatever goes unclaimed.
use vstd::prelude::*;

use crate::constants::TOKEN_REDEMPTION_WINDOW;
use crate::errors::SovereignError;
use crate::math::{extractable, lemma_mul_div_le, proportional_u64};
use crate::state::{
    Address, DepositRecord, PermanentLock, ProtocolState, SovereignState, SovereignStatus,
    SovereignType,
};

verus! {

use crate::state::is_terminal;

/// Pull the safety valve: the protocol authority moves the sovereign to
/// `EmergencyUnlocked` from any non-terminal phase. Irreversible and
/// forward-only. On error nothing changes.
pub fn emergency_unlock(
    protocol: &ProtocolState,
    sovereign: &mut SovereignState,
    caller: Address,
) -> (result: Result<(), SovereignError>)
    requires
        old(sovereign).wf(),
    ensures
        final(sovereign).wf(),
        crate::state::lifecycle_step(old(sovereign).state, final(sovereign).state),
        result is Err ==> *final(sovereign) == *old(sovereign),
        (match result {
            Err(e) => {
                if caller != protocol.authority {
                    e == SovereignError::Unauthorized
                } else if old(sovereign).state == SovereignStatus::EmergencyUnlocked {
                    e == SovereignError::AlreadyEmergencyUnlocked
                } else {
                    e == SovereignError::InvalidState && is_terminal(old(sovereign).state)
                }
            },
            Ok(_) => {
                &&& caller == protocol.authority
                &&& old(sovereign).state != SovereignStatus::EmergencyUnlocked
                &&& !is_terminal(old(sovereign).state)
                &&& *final(sovereign) == (SovereignState {
                    state: SovereignStatus::EmergencyUnlocked,
                    ..*old(sovereign)
                })
            },
        }),
{
    if caller != protocol.authority {
        return Err(SovereignError::Unauthorized);
    }
    if sovereign.state == SovereignStatus::EmergencyUnlocked {
        return Err(SovereignError::AlreadyEmergencyUnlocked);
    }
    if sovereign.state == SovereignStatus::Unwound || sovereign.state == SovereignStatus::Failed
        || sovereign.state == SovereignStatus::Retired {
        return Err(SovereignError::InvalidState);
    }
    sovereign.state = SovereignStatus::EmergencyUnlocked;
    Ok(())
}

/// What an emergency liquidity removal settled to.
#[derive(Clone, Copy, Debug, PartialEq, Eq, Structural)]
pub struct EmergencyRemoval {
    /// What left the pool-adjacent holding account for the settlement.
    pub extracted: u64,
    /// What was returned to the pool to preserve the solvency reserve.
    pub returned_to_pool: u64,
    /// What exceeded the deposits.
    pub surplus: u64,
    /// The surplus the host must sweep to the treasury (brought-asset
    /// sovereigns only).
    pub surplus_to_treasury: u64,
}

/// Remove the position's liquidity under the safety valve. Authority-only,
/// only while `EmergencyUnlocked`, and idempotency-guarded: the recorded
/// liquidity is zeroed exactly once. The withdrawn funding is subjected to
/// the solvency-protection formula — only what exceeds the reserve
/// `min_reserve(principal, supply, pool_tokens)` leaves, the remainder goes
/// back to the pool. No protocol fee is taken. Surplus beyond the deposits
/// seeds the token-redemption pool (token launches) at the snapshotted
/// circulating supply with a fixed redemption window, or goes to the
/// treasury (brought assets). On error nothing changes.
pub fn emergency_remove_liquidity(
    protocol: &ProtocolState,
    sovereign: &mut SovereignState,
    lock: &mut PermanentLock,
    caller: Address,
    withdrawn_funding: u64,
    pool_funding_after: u64,
    pool_tokens_after: u64,
    mint_supply: u64,
    token_vault_amount: u64,
    token_out: u64,
    now: i64,
) -> (result: Result<EmergencyRemoval, SovereignError>)
    requires
        old(sovereign).wf(),
        now <= i64::MAX - TOKEN_REDEMPTION_WINDOW,
    ensures
        final(sovereign).wf(),
        crate::state::lifecycle_step(old(sovereign).state, final(sovereign).state),
        result is Err ==> *final(sovereign) == *old(sovereign) && *final(lock) == *old(lock),
        (match result {
            Err(e) => {
                if caller != protocol.authority {
                    e == SovereignError::Unauthorized
                } else if old(sovereign).state != SovereignStatus::EmergencyUnlocked {
                    e == SovereignError::InvalidState
                } else {
                    e == SovereignError::NothingToWithdraw && old(lock).liquidity == 0
                }
            },
            Ok(r) => {
                let allowance = extractable(
                    pool_funding_after as int,
                    pool_tokens_after as int,
                    mint_supply as int,
                    old(sovereign).bond_target as int,
                );
                let extracted = if withdrawn_funding <= allowance {
                    withdrawn_funding as int
                } else {
                    allowance
                };
                let surplus = if extracted > old(sovereign).total_deposited {
                    extracted - old(sovereign).total_deposited
                } else {
                    0
                };
                let launch = old(sovereign).sovereign_type == SovereignType::TokenLaunch;
                &&& caller == protocol.authority
                &&& old(sovereign).state == SovereignStatus::EmergencyUnlocked
                &&& old(lock).liquidity > 0
                &&& r.extracted == extracted
                &&& r.returned_to_pool == withdrawn_funding - extracted
                &&& r.surplus == surplus
                &&& r.surplus_to_treasury == if launch {
                    0
                } else {
                    surplus
                }
                &&& *final(sovereign) == (SovereignState {
                    unwind_sol_balance: if launch {
                        extracted as u64
                    } else {
                        (extracted - surplus) as u64
                    },
                    unwind_token_balance: token_out,
                    token_redemption_pool: if launch && surplus > 0 {
                        surplus as u64
                    } else {
                        0
                    },
                    circulating_tokens_at_unwind: if launch && surplus > 0 {
                        (if mint_supply >= token_vault_amount + token_out {
                            mint_supply - token_vault_amount - token_out
                        } else {
                            0
                        }) as u64
                    } else {
                        0
                    },
                    token_redemption_deadline: if launch && surplus > 0 {
                        (now + TOKEN_REDEMPTION_WINDOW) as i64
                    } else {
                        old(sovereign).token_redemption_deadline
                    },
                    ..*old(sovereign)
                })
                &&& *final(lock) == (PermanentLock { liquidity: 0, ..*old(lock) })
            },
        }),
{
    if caller != protocol.authority {
        return Err(SovereignError::Unauthorized);
    }
    if sovereign.state != SovereignStatus::EmergencyUnlocked {
        return Err(SovereignError::InvalidState);
    }
    if lock.liquidity == 0 {
        return Err(SovereignError::NothingToWithdraw);
    }
    let (extracted, returned) = crate::fees::extraction_allowance(
        withdrawn_funding,
        pool_funding_after,
        pool_tokens_after,
        mint_supply,
        sovereign.bond_target,
    );
    let surplus = if extracted > sovereign.total_deposited {
        extracted - sovereign.total_deposited
    } else {
        0
    };
    let launch = sovereign.sovereign_type == SovereignType::TokenLaunch;
    if launch && surplus > 0 {
        sovereign.token_redemption_pool = surplus;
        let after_vault = if mint_supply >= token_vault_amount {
            mint_supply - token_vault_amount
        } else {
            0
        };
        let circulating = if after_vault >= token_out {
            after_vault - token_out
        } else {
            0
        };
        sovereign.circulating_tokens_at_unwind = circulating;
        sovereign.token_redemption_deadline = now + TOKEN_REDEMPTION_WINDOW;
    } else {
        sovereign.token_redemption_pool = 0;
        sovereign.circulating_tokens_at_unwind = 0;
    }
    sovereign.unwind_sol_balance = if launch {
        extracted
    } else {
        extracted - surplus
    };
    sovereign.unwind_token_balance = token_out;
    lock.liquidity = 0;
    Ok(
        EmergencyRemoval {
            extracted,
            returned_to_pool: returned,
            surplus,
            surplus_to_treasury: if launch {
                0
            } else {
                surplus
            },
        },
    )
}

/// Whether every balance the sovereign owes has been reclaimed, so it can
/// retire: an empty vault, no creator escrow, no creation-fee escrow, no
/// deposited tokens.
pub open spec fn fully_reclaimed(s: SovereignState, vault_remaining: u64) -> bool {
    vault_remaining == 0 && s.creator_escrow == 0 && s.creation_fee_escrowed == 0
        && s.token_supply_deposited == 0
}

/// An investor reclaims under the safety valve. With a bearer claim token
/// issued, the holder receives the proportional share of the settlement
/// balance capped at the original pledge (and the host burns the token);
/// before finalization, the original depositor receives the pledge back in
/// full. The record is closed either way, and the sovereign retires once
/// every balance has been reclaimed. Returns what the host must pay and
/// whether the sovereign retired. On error nothing changes.
pub fn emergency_withdraw(
    sovereign: &mut SovereignState,
    record: &mut DepositRecord,
    holder: Address,
    original_depositor: Address,
    vault_balance: u64,
) -> (result: Result<(u64, bool), SovereignError>)
    requires
        old(sovereign).wf(),
        old(record).amount <= old(sovereign).total_deposited,
        old(record).depositor == original_depositor,
    ensures
        final(sovereign).wf(),
        crate::state::lifecycle_step(old(sovereign).state, final(sovereign).state),
        result is Err ==> *final(sovereign) == *old(sovereign) && *final(record) == *old(record),
        (match result {
            Err(e) => {
                if old(sovereign).state != SovereignStatus::EmergencyUnlocked && old(
                    sovereign,
                ).state != SovereignStatus::Retired {
                    e == SovereignError::InvalidState
                } else if original_depositor == old(sovereign).creator {
                    e == SovereignError::CreatorMustUseCreatorWithdraw
                } else if old(record).amount == 0 {
                    e == SovereignError::NothingToWithdraw
                } else if old(sovereign).total_deposited == 0 {
                    e == SovereignError::NoDeposits
                } else if !old(record).nft_minted && holder != original_depositor {
                    e == SovereignError::Unauthorized
                } else {
                    let share = old(sovereign).unwind_sol_balance * old(record).amount / (old(
                        sovereign,
                    ).total_deposited as int);
                    let owed = if old(record).nft_minted {
                        if share <= old(record).amount {
                            share
                        } else {
                            old(record).amount as int
                        }
                    } else {
                        old(record).amount as int
                    };
                    e == SovereignError::InsufficientVaultBalance && vault_balance < owed
                }
            },
            Ok((paid, retired)) => {
                let share = old(sovereign).unwind_sol_balance * old(record).amount / (old(
                    sovereign,
                ).total_deposited as int);
                &&& (old(sovereign).state == SovereignStatus::EmergencyUnlocked || old(
                    sovereign,
                ).state == SovereignStatus::Retired)
                &&& original_depositor != old(sovereign).creator
                &&& old(record).amount > 0
                &&& old(sovereign).total_deposited > 0
                &&& paid == if old(record).nft_minted {
                    if share <= old(record).amount {
                        share
                    } else {
                        old(record).amount as int
                    }
                } else {
                    old(record).amount as int
                }
                &&& paid <= vault_balance
                &&& *final(record) == (DepositRecord { amount: 0, ..*old(record) })
                &&& retired == fully_reclaimed(*old(sovereign), (vault_balance - paid) as u64)
                &&& *final(sovereign) == (SovereignState {
                    state: if retired {
                        SovereignStatus::Retired
                    } else {
                        old(sovereign).state
                    },
                    ..*old(sovereign)
                })
            },
        }),
{
    if sovereign.state != SovereignStatus::EmergencyUnlocked && sovereign.state
        != SovereignStatus::Retired {
        return Err(SovereignError::InvalidState);
    }
    if original_depositor == sovereign.creator {
        return Err(SovereignError::CreatorMustUseCreatorWithdraw);
    }
    if record.amount == 0 {
        return Err(SovereignError::NothingToWithdraw);
    }
    if sovereign.total_deposited == 0 {
        return Err(SovereignError::NoDeposits);
    }
    let paid: u64 = if record.nft_minted {
        // Bearer mode: proportional share of the settlement, capped at the
        // original pledge.
        let share = proportional_u64(
            sovereign.unwind_sol_balance,
            record.amount,
            sovereign.total_deposited,
        );
        crate::math::min_u64(share, record.amount)
    } else {
        // Pre-finalization: only the original depositor, refunded in full.
        if holder != original_depositor {
            return Err(SovereignError::Unauthorized);
        }
        record.amount
    };
    if vault_balance < paid {
        return Err(SovereignError::InsufficientVaultBalance);
    }
    record.amount = 0;
    let remaining = vault_balance - paid;
    let retired = remaining == 0 && sovereign.creator_escrow == 0 && sovereign.creation_fee_escrowed
        == 0 && sovereign.token_supply_deposited == 0;
    if retired {
        sovereign.state = SovereignStatus::Retired;
    }
    Ok((paid, retired))
}

/// What to do with the creator's tokens on an emergency reclaim.
#[derive(Clone, Copy, Debug, PartialEq, Eq, Structural)]
pub enum TokenDisposal {
    /// Burn them (allowed only for tokens the protocol itself issued).
    Burn,
    /// Transfer them back to the creator.
    Transfer,
    /// There were none to handle.
    Nothing,
}

/// The creator reclaims under the safety valve: the market-buy escrow comes
/// back, the deposited tokens are burned (token launches, on request) or
/// returned, the creation fee is released, and the sovereign retires once
/// every balance has been reclaimed. Returns the escrow paid back, the token
/// disposal owed from the host, and whether the sovereign retired. On error
/// nothing changes.
pub fn emergency_withdraw_creator(
    sovereign: &mut SovereignState,
    caller: Address,
    vault_balance: u64,
    token_vault_amount: u64,
    burn_tokens: bool,
) -> (result: Result<(u64, TokenDisposal, bool), SovereignError>)
    requires
        old(sovereign).wf(),
    ensures
        final(sovereign).wf(),
        crate::state::lifecycle_step(old(sovereign).state, final(sovereign).state),
        result is Err ==> *final(sovereign) == *old(sovereign),
        (match result {
            Err(e) => {
                if caller != old(sovereign).creator {
                    e == SovereignError::Unauthorized
                } else if old(sovereign).state != SovereignStatus::EmergencyUnlocked && old(
                    sovereign,
                ).state != SovereignStatus::Retired {
                    e == SovereignError::InvalidState
                } else {
                    e == SovereignError::InsufficientVaultBalance && vault_balance < old(
                        sovereign,
                    ).creator_escrow
                }
            },
            Ok((escrow, disposal, retired)) => {
                let handled = old(sovereign).token_mint != 0 && token_vault_amount > 0;
                &&& caller == old(sovereign).creator
                &&& (old(sovereign).state == SovereignStatus::EmergencyUnlocked || old(
                    sovereign,
                ).state == SovereignStatus::Retired)
                &&& escrow == old(sovereign).creator_escrow
                &&& vault_balance >= escrow
                &&& disposal == if !handled {
                    TokenDisposal::Nothing
                } else if burn_tokens && old(sovereign).sovereign_type
                    == SovereignType::TokenLaunch {
                    TokenDisposal::Burn
                } else {
                    TokenDisposal::Transfer
                }
                &&& retired == ((vault_balance - escrow) == 0 && (handled || old(
                    sovereign,
                ).token_supply_deposited == 0))
                &&& *final(sovereign) == (SovereignState {
                    creator_escrow: 0,
                    creation_fee_escrowed: 0,
                    token_supply_deposited: if handled {
                        0
                    } else {
                        old(sovereign).token_supply_deposited
                    },
                    state: if retired {
                        SovereignStatus::Retired
                    } else {
                        old(sovereign).state
                    },
                    ..*old(sovereign)
                })
            },
        }),
{
    if caller != sovereign.creator {
        return Err(SovereignError::Unauthorized);
    }
    if sovereign.state != SovereignStatus::EmergencyUnlocked && sovereign.state
        != SovereignStatus::Retired {
        return Err(SovereignError::InvalidState);
    }
    let escrow = sovereign.creator_escrow;
    if vault_balance < escrow {
        return Err(SovereignError::InsufficientVaultBalance);
    }
    sovereign.creator_escrow = 0;
    let handled = sovereign.token_mint != 0 && token_vault_amount > 0;
    let disposal = if !handled {
        TokenDisposal::Nothing
    } else if burn_tokens && sovereign.sovereign_type == SovereignType::TokenLaunch {
        TokenDisposal::Burn
    } else {
        TokenDisposal::Transfer
    };
    if handled {
        sovereign.token_supply_deposited = 0;
    }
    sovereign.creation_fee_escrowed = 0;
    let remaining = vault_balance - escrow;
    let retired = remaining == 0 && sovereign.token_supply_deposited == 0;
    if retired {
        sovereign.state = SovereignStatus::Retired;
    }
    Ok((escrow, disposal, retired))
}

/// The payout one redemption earns: the burned share of the remaining pool
/// at the rate the remaining snapshot gives, recomputed fresh from the
/// current pool and snapshot — `burned * pool / circulating`.
pub open spec fn redemption_payout(pool: u64, circulating: u64, burned: u64) -> int {
    if circulating == 0 {
        0
    } else {
        pool * burned / (circulating as int)
    }
}

/// An outside token holder burns `burned` units against the redemption pool
/// and receives `burned * pool / circulating`, the rate recomputed fresh
/// from the current pool and snapshot; pool and snapshot are decremented in
/// the same operation, so sequential redemptions cannot drift the rate.
/// Open only within the redemption window. Returns what the host must pay
/// once it has burned the units. On error nothing changes.
pub fn emergency_token_redemption(
    sovereign: &mut SovereignState,
    burned: u64,
    vault_balance: u64,
    now: i64,
) -> (result: Result<u64, SovereignError>)
    requires
        old(sovereign).wf(),
        // the snapshot counts every externally-held unit, so no holder can
        // burn more than it has left
        burned <= old(sovereign).circulating_tokens_at_unwind,
    ensures
        final(sovereign).wf(),
        crate::state::lifecycle_step(old(sovereign).state, final(sovereign).state),
        result is Err ==> *final(sovereign) == *old(sovereign),
        (match result {
            Err(e) => {
                if old(sovereign).state != SovereignStatus::EmergencyUnlocked && old(
                    sovereign,
                ).state != SovereignStatus::Retired && old(sovereign).state
                    != SovereignStatus::Unwound {
                    e == SovereignError::InvalidState
                } else if old(sovereign).token_redemption_pool == 0 {
                    e == SovereignError::NoRedemptionPool
                } else if old(sovereign).circulating_tokens_at_unwind == 0 {
                    e == SovereignError::NoCirculatingTokens
                } else if burned == 0 {
                    e == SovereignError::NothingToWithdraw
                } else if now > old(sovereign).token_redemption_deadline {
                    e == SovereignError::RedemptionWindowExpired
                } else {
                    e == SovereignError::InsufficientVaultBalance && vault_balance
                        < redemption_payout(
                        old(sovereign).token_redemption_pool,
                        old(sovereign).circulating_tokens_at_unwind,
                        burned,
                    )
                }
            },
            Ok(payout) => {
                &&& (old(sovereign).state == SovereignStatus::EmergencyUnlocked || old(
                    sovereign,
                ).state == SovereignStatus::Retired || old(sovereign).state
                    == SovereignStatus::Unwound)
                &&& old(sovereign).token_redemption_pool > 0
                &&& old(sovereign).circulating_tokens_at_unwind > 0
                &&& burned > 0
                &&& now <= old(sovereign).token_redemption_deadline
                &&& payout == redemption_payout(
                    old(sovereign).token_redemption_pool,
                    old(sovereign).circulating_tokens_at_unwind,
                    burned,
                )
                &&& payout <= vault_balance
                &&& *final(sovereign) == (SovereignState {
                    token_redemption_pool: (old(sovereign).token_redemption_pool - payout) as u64,
                    circulating_tokens_at_unwind: (old(sovereign).circulating_tokens_at_unwind
                        - burned) as u64,
                    ..*old(sovereign)
                })
            },
        }),
{
    if sovereign.state != SovereignStatus::EmergencyUnlocked && sovereign.state
        != SovereignStatus::Retired && sovereign.state != SovereignStatus::Unwound {
        return Err(SovereignError::InvalidState);
    }
    if sovereign.token_redemption_pool == 0 {
        return Err(SovereignError::NoRedemptionPool);
    }
    if sovereign.circulating_tokens_at_unwind == 0 {
        return Err(SovereignError::NoCirculatingTokens);
    }
    if burned == 0 {
        return Err(SovereignError::NothingToWithdraw);
    }
    if now > sovereign.token_redemption_deadline {
        return Err(SovereignError::RedemptionWindowExpired);
    }
    let payout = proportional_u64(
        sovereign.token_redemption_pool,
        burned,
        sovereign.circulating_tokens_at_unwind,
    );
    if vault_balance < payout {
        return Err(SovereignError::InsufficientVaultBalance);
    }
    // Effects before interaction: decrement pool and snapshot atomically.
    sovereign.token_redemption_pool = sovereign.token_redemption_pool - payout;
    sovereign.circulating_tokens_at_unwind = sovereign.circulating_tokens_at_unwind - burned;
    Ok(payout)
}

/// After the redemption window expires, the protocol authority sweeps the
/// unclaimed pool to the treasury and permanently zeroes it. Returns what
/// the host must transfer. On error nothing changes.
pub fn sweep_redemption_pool(
    protocol: &ProtocolState,
    sovereign: &mut SovereignState,
    caller: Address,
    now: i64,
) -> (result: Result<u64, SovereignError>)
    requires
        old(sovereign).wf(),
    ensures
        final(sovereign).wf(),
        crate::state::lifecycle_step(old(sovereign).state, final(sovereign).state),
        result is Err ==> *final(sovereign) == *old(sovereign),
        (match result {
            Err(e) => {
                if caller != protocol.authority {
                    e == SovereignError::Unauthorized
                } else if old(sovereign).token_redemption_pool == 0 {
                    e == SovereignError::NoRedemptionPool
                } else {
                    e == SovereignError::RedemptionWindowNotExpired && now <= old(
                        sovereign,
                    ).token_redemption_deadline
                }
            },
            Ok(swept) => {
                &&& caller == protocol.authority
                &&& swept == old(sovereign).token_redemption_pool
                &&& swept > 0
                &&& now > old(sovereign).token_redemption_deadline
                &&& *final(sovereign) == (SovereignState {
                    token_redemption_pool: 0,
                    circulating_tokens_at_unwind: 0,
                    ..*old(sovereign)
                })
            },
        }),
{
    if caller != protocol.authority {
        return Err(SovereignError::Unauthorized);
    }
    if sovereign.token_redemption_pool == 0 {
        return Err(SovereignError::NoRedemptionPool);
    }
    if now <= sovereign.token_redemption_deadline {
        return Err(SovereignError::RedemptionWindowNotExpired);
    }
    let swept = sovereign.token_redemption_pool;
    sovereign.token_redemption_pool = 0;
    sovereign.circulating_tokens_at_unwind = 0;
    Ok(swept)
}

// ------------------------------------------------------------
// Laws of the redemption pool
// ------------------------------------------------------------

/// Pool and snapshot after one redemption, at the specification level.
pub open spec fn redemption_step(pool: u64, circulating: u64, burned: u64) -> (u64, u64) {
    (
        (pool - redemption_payout(pool, circulating, burned)) as u64,
        (circulating - burned) as u64,
    )
}

/// Pool and snapshot after a run of redemptions, applied in order.
pub open spec fn redemption_run(pool: u64, circulating: u64, burns: Seq<u64>) -> (u64, u64)
    decreases burns.len(),
{
    if burns.len() == 0 {
        (pool, circulating)
    } else {
        let stepped = redemption_step(pool, circulating, burns.first());
        redemption_run(stepped.0, stepped.1, burns.drop_first())
    }
}

/// The payouts of a run of redemptions, summed.
pub open spec fn sum_payouts(pool: u64, circulating: u64, burns: Seq<u64>) -> int
    decreases burns.len(),
{
    if burns.len() == 0 {
        0
    } else {
        let stepped = redemption_step(pool, circulating, burns.first());
        redemption_payout(pool, circulating, burns.first()) + sum_payouts(
            stepped.0,
            stepped.1,
            burns.drop_first(),
        )
    }
}

/// The burned amounts of a run, summed.
pub open spec fn sum_burns(burns: Seq<u64>) -> int
    decreases burns.len(),
{
    if burns.len() == 0 {
        0
    } else {
        burns.first() + sum_burns(burns.drop_first())
    }
}

/// A run of redemptions is feasible when each burn fits in what the
/// snapshot then has left.
pub open spec fn burns_feasible(circulating: u64, burns: Seq<u64>) -> bool
    decreases burns.len(),
{
    burns.len() == 0 || (burns.first() <= circulating && burns_feasible(
        (circulating - burns.first()) as u64,
        burns.drop_first(),
    ))
}

/// The redemption pool decrements consistently: after any feasible sequence
/// of redemptions, the pool holds exactly the initial pool less the sum of
/// the payouts, and the circulating snapshot exactly the initial snapshot
/// less the sum of the burns — with each payout's rate recomputed fresh from
/// the then-current pool and snapshot, never cached.
pub proof fn lemma_redemption_run(pool: u64, circulating: u64, burns: Seq<u64>)
    requires
        burns_feasible(circulating, burns),
    ensures
        redemption_run(pool, circulating, burns).0 == pool - sum_payouts(
            pool,
            circulating,
            burns,
        ),
        redemption_run(pool, circulating, burns).1 == circulating - sum_burns(burns),
        sum_payouts(pool, circulating, burns) <= pool,
        sum_burns(burns) <= circulating,
    decreases burns.len(),
{
    if burns.len() > 0 {
        let b = burns.first();
        if circulating > 0 {
            lemma_mul_div_le(pool as int, b as int, circulating as int);
        }
        let stepped = redemption_step(pool, circulating, b);
        lemma_redemption_run(stepped.0, stepped.1, burns.drop_first());
    }
}

} // verus!
