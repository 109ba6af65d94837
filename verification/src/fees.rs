//! The recovery engine and fee router: collected pool fees are routed to
//! creator, investors and protocol by fee mode and phase, recovery progress
//! is tracked, and the per-depositor fee-index claim is settled.
//!
//! While the sovereign is in `Recovery`, every collection is credited in full
//! to the recovery tally; the collection that reaches the recovery target
//! flips the phase to `Active` in the same unit of work and lifts the pool's
//! entry restriction. In `Active`, the creator receives their threshold share
//! and a protocol skim is taken from the investor share — never from the
//! creator share.
use vstd::prelude::*;

use crate::constants::BPS_DENOMINATOR;
use crate::errors::SovereignError;
use crate::math::{bps_share, lemma_mul_div_mono, proportional_u64};
use crate::state::{
    CreatorFeeTracker, DepositRecord, FeeMode, ProtocolState, SovereignState, SovereignStatus,
    SovereignType,
};

verus! {

/// Where the traded-asset side of collected pool fees goes.
#[derive(Clone, Copy, Debug, PartialEq, Eq, Structural)]
pub enum TokenFeeRoute {
    /// Swap into the funding asset and merge into the recovery tally.
    SwapToInvestors,
    /// Burn, to benefit remaining holders deflationarily.
    Burn,
    /// Transfer to the creator.
    SendToCreator,
}

/// Where harvested sell fees (withheld by the traded asset itself) go.
#[derive(Clone, Copy, Debug, PartialEq, Eq, Structural)]
pub enum HarvestDestination {
    /// To the creator's token account.
    Creator,
    /// To the recovery vault, to be swapped for the funding asset.
    RecoveryVault,
}

/// How one funding-asset fee collection is divided.
#[derive(Clone, Copy, Debug, PartialEq, Eq, Structural)]
pub struct FeeSplit {
    /// The creator's revenue share.
    pub creator: u64,
    /// The investors' share: the recovery tally while recovering, the
    /// fee index afterwards.
    pub investors: u64,
    /// The protocol skim, taken from the investor share.
    pub protocol: u64,
}

/// Route the traded-asset side of collected pool fees by fee mode and phase:
/// while recovering, boost modes convert it for the investors; afterwards a
/// fair launch burns it and the other modes pay the creator.
pub fn route_token_fees(fee_mode: FeeMode, state: SovereignStatus) -> (r: TokenFeeRoute)
    requires
        state == SovereignStatus::Recovery || state == SovereignStatus::Active,
    ensures
        r == TokenFeeRoute::SwapToInvestors <==> (state == SovereignStatus::Recovery && (fee_mode
            == FeeMode::RecoveryBoost || fee_mode == FeeMode::FairLaunch)),
        r == TokenFeeRoute::Burn <==> (state == SovereignStatus::Active && fee_mode
            == FeeMode::FairLaunch),
        r == TokenFeeRoute::SendToCreator <==> (fee_mode == FeeMode::CreatorRevenue || (state
            == SovereignStatus::Active && fee_mode == FeeMode::RecoveryBoost)),
{
    let is_recovery = state == SovereignStatus::Recovery;
    if is_recovery && (fee_mode == FeeMode::RecoveryBoost || fee_mode == FeeMode::FairLaunch) {
        TokenFeeRoute::SwapToInvestors
    } else if !is_recovery && fee_mode == FeeMode::FairLaunch {
        TokenFeeRoute::Burn
    } else {
        TokenFeeRoute::SendToCreator
    }
}

/// Decide where harvested sell fees (withheld by the traded asset itself)
/// go before the host collects them: always to the creator under
/// `CreatorRevenue`; to the recovery vault while recovering under the boost
/// modes; to the creator after recovery under `RecoveryBoost`; always to the
/// recovery vault under `FairLaunch`.
pub fn harvest_transfer_fees(fee_mode: FeeMode, state: SovereignStatus) -> (r: HarvestDestination)
    ensures
        r == HarvestDestination::Creator <==> (fee_mode == FeeMode::CreatorRevenue || (fee_mode
            == FeeMode::RecoveryBoost && state != SovereignStatus::Recovery)),
{
    match fee_mode {
        FeeMode::CreatorRevenue => HarvestDestination::Creator,
        FeeMode::RecoveryBoost => {
            if state == SovereignStatus::Recovery {
                HarvestDestination::RecoveryVault
            } else {
                HarvestDestination::Creator
            }
        },
        FeeMode::FairLaunch => HarvestDestination::RecoveryVault,
    }
}

/// The creator's share of an `Active`-phase collection: the threshold share
/// under `CreatorRevenue`, nothing under the boost modes.
pub open spec fn creator_share_of(fee_mode: FeeMode, fee_threshold_bps: u16, amount: u64) -> int {
    if fee_mode == FeeMode::CreatorRevenue {
        amount * fee_threshold_bps / (BPS_DENOMINATOR as int)
    } else {
        0
    }
}

/// The full split of an `Active`-phase collection, at the specification
/// level: the creator's threshold share comes off first, then the protocol
/// skim off the remainder; what is left is the investors'.
pub open spec fn active_skim_of(
    fee_mode: FeeMode,
    fee_threshold_bps: u16,
    skim_bps: u16,
    amount: u64,
) -> int {
    (amount - creator_share_of(fee_mode, fee_threshold_bps, amount)) * skim_bps / (
    BPS_DENOMINATOR as int)
}

/// The investors' part of a collection: everything while recovering; the
/// remainder after the creator share and the protocol skim in `Active`.
pub open spec fn investor_share_of(
    state: SovereignStatus,
    fee_mode: FeeMode,
    fee_threshold_bps: u16,
    skim_bps: u16,
    amount: u64,
) -> int {
    if state == SovereignStatus::Recovery {
        amount as int
    } else {
        amount - creator_share_of(fee_mode, fee_threshold_bps, amount) - active_skim_of(
            fee_mode,
            fee_threshold_bps,
            skim_bps,
            amount,
        )
    }
}

/// Whether crediting a collection would overflow one of the 64-bit tallies:
/// the creator's earned or pending tally, the lifetime fee index, or — while
/// recovering — the recovery tally.
pub open spec fn credit_overflows(
    s: SovereignState,
    t: CreatorFeeTracker,
    skim_bps: u16,
    amount: u64,
) -> bool {
    let creator = if s.state == SovereignStatus::Recovery {
        0
    } else {
        creator_share_of(s.fee_mode, s.fee_threshold_bps, amount)
    };
    let investors = investor_share_of(s.state, s.fee_mode, s.fee_threshold_bps, skim_bps, amount);
    ||| t.total_earned + creator > u64::MAX
    ||| t.pending_withdrawal + creator > u64::MAX
    ||| s.total_fees_collected + investors > u64::MAX
    ||| (s.state == SovereignStatus::Recovery && s.total_recovered + investors > u64::MAX)
}

/// Divide one funding-asset collection by phase and fee mode. While
/// recovering, everything goes to the recovery tally; in `Active`, the
/// creator's threshold share comes off first and the protocol skim is taken
/// from the remaining investor share only. The three parts always sum to the
/// whole.
pub fn route_funding_fees(
    state: SovereignStatus,
    fee_mode: FeeMode,
    fee_threshold_bps: u16,
    skim_bps: u16,
    amount: u64,
) -> (r: FeeSplit)
    requires
        state == SovereignStatus::Recovery || state == SovereignStatus::Active,
        fee_threshold_bps <= BPS_DENOMINATOR,
        skim_bps <= BPS_DENOMINATOR,
    ensures
        r.creator + r.investors + r.protocol == amount,
        state == SovereignStatus::Recovery ==> r == (FeeSplit {
            creator: 0,
            investors: amount,
            protocol: 0,
        }),
        state == SovereignStatus::Active ==> {
            &&& r.creator == creator_share_of(fee_mode, fee_threshold_bps, amount)
            &&& r.protocol == (amount - r.creator) * skim_bps / (BPS_DENOMINATOR as int)
            &&& r.investors == amount - r.creator - r.protocol
        },
{
    if state == SovereignStatus::Recovery {
        FeeSplit { creator: 0, investors: amount, protocol: 0 }
    } else {
        let creator: u64 = if fee_mode == FeeMode::CreatorRevenue {
            bps_share(amount, fee_threshold_bps)
        } else {
            0
        };
        let rest: u64 = amount - creator;
        let skim: u64 = bps_share(rest, skim_bps);
        FeeSplit { creator, investors: rest - skim, protocol: skim }
    }
}

/// The sovereign after an investor-share collection of `inv` is credited:
/// the lifetime fee index grows by `inv`; while recovering, the recovery
/// tally grows by `inv`, and the collection that reaches the recovery target
/// flips the phase to `Active`, lifts the pool restriction and — for a fair
/// launch — renounces the sell fee.
pub open spec fn recovery_credited(s: SovereignState, inv: u64) -> SovereignState {
    let s1 = SovereignState {
        total_fees_collected: (s.total_fees_collected + inv) as u64,
        ..s
    };
    if s.state == SovereignStatus::Recovery {
        let tally = (s.total_recovered + inv) as u64;
        if tally >= s.recovery_target {
            SovereignState {
                total_recovered: tally,
                state: SovereignStatus::Active,
                recovery_complete: true,
                pool_restricted: false,
                sell_fee_bps: if s.fee_mode == FeeMode::FairLaunch && !s.fee_control_renounced {
                    0
                } else {
                    s.sell_fee_bps
                },
                fee_control_renounced: s.fee_control_renounced || s.fee_mode
                    == FeeMode::FairLaunch,
                ..s1
            }
        } else {
            SovereignState { total_recovered: tally, ..s1 }
        }
    } else {
        s1
    }
}

/// What the host must do after a fee collection was recorded.
#[derive(Clone, Copy, Debug, PartialEq, Eq, Structural)]
pub struct ClaimFeesOutcome {
    /// How the collection was divided.
    pub split: FeeSplit,
    /// Whether this collection completed recovery.
    pub recovery_completed: bool,
    /// Whether the host must lift the pool's entry restriction.
    pub lift_pool_restriction: bool,
    /// Whether the host must set the traded asset's sell fee to zero.
    pub renounce_sell_fee: bool,
}

/// Record one funding-asset fee collection of `sol_fees`: divide it by phase
/// and mode, credit the creator's tracker, credit the recovery tally or fee
/// index, and flip to `Active` if the recovery target is reached. On error
/// nothing changes.
pub fn claim_fees(
    protocol: &ProtocolState,
    sovereign: &mut SovereignState,
    tracker: &mut CreatorFeeTracker,
    skim_bps: u16,
    sol_fees: u64,
) -> (result: Result<ClaimFeesOutcome, SovereignError>)
    requires
        old(sovereign).wf(),
        skim_bps <= BPS_DENOMINATOR,
    ensures
        final(sovereign).wf(),
        crate::state::lifecycle_step(old(sovereign).state, final(sovereign).state),
        result is Err ==> *final(sovereign) == *old(sovereign) && *final(tracker) == *old(tracker),
        (match result {
            Err(e) => {
                if protocol.paused {
                    e == SovereignError::ProtocolPaused
                } else if old(sovereign).state != SovereignStatus::Recovery && old(sovereign).state
                    != SovereignStatus::Active {
                    e == SovereignError::InvalidState
                } else {
                    e == SovereignError::Overflow && credit_overflows(
                        *old(sovereign),
                        *old(tracker),
                        skim_bps,
                        sol_fees,
                    )
                }
            },
            Ok(outcome) => {
                &&& !protocol.paused
                &&& (old(sovereign).state == SovereignStatus::Recovery || old(sovereign).state
                    == SovereignStatus::Active)
                &&& !credit_overflows(*old(sovereign), *old(tracker), skim_bps, sol_fees)
                &&& outcome.split.creator + outcome.split.investors + outcome.split.protocol
                    == sol_fees
                &&& old(sovereign).state == SovereignStatus::Recovery ==> outcome.split
                    == (FeeSplit { creator: 0, investors: sol_fees, protocol: 0 })
                &&& old(sovereign).state == SovereignStatus::Active ==> {
                    &&& outcome.split.creator == creator_share_of(
                        old(sovereign).fee_mode,
                        old(sovereign).fee_threshold_bps,
                        sol_fees,
                    )
                    &&& outcome.split.protocol == (sol_fees - outcome.split.creator) * skim_bps / (
                    BPS_DENOMINATOR as int)
                }
                &&& *final(sovereign) == recovery_credited(
                    *old(sovereign),
                    outcome.split.investors,
                )
                &&& *final(tracker) == (CreatorFeeTracker {
                    total_earned: (old(tracker).total_earned + outcome.split.creator) as u64,
                    pending_withdrawal: (old(tracker).pending_withdrawal
                        + outcome.split.creator) as u64,
                    ..*old(tracker)
                })
                &&& outcome.recovery_completed == (old(sovereign).state
                    == SovereignStatus::Recovery && old(sovereign).total_recovered
                    + outcome.split.investors >= old(sovereign).recovery_target)
                &&& outcome.lift_pool_restriction == outcome.recovery_completed
                &&& outcome.renounce_sell_fee == (outcome.recovery_completed && old(
                    sovereign,
                ).fee_mode == FeeMode::FairLaunch && !old(sovereign).fee_control_renounced)
            },
        }),
{
    if protocol.paused {
        return Err(SovereignError::ProtocolPaused);
    }
    if sovereign.state != SovereignStatus::Recovery && sovereign.state != SovereignStatus::Active {
        return Err(SovereignError::InvalidState);
    }
    let split = route_funding_fees(
        sovereign.state,
        sovereign.fee_mode,
        sovereign.fee_threshold_bps,
        skim_bps,
        sol_fees,
    );
    // All checked arithmetic first: fail closed with no partial effects.
    if tracker.total_earned.checked_add(split.creator).is_none() {
        return Err(SovereignError::Overflow);
    }
    if tracker.pending_withdrawal.checked_add(split.creator).is_none() {
        return Err(SovereignError::Overflow);
    }
    if sovereign.total_fees_collected.checked_add(split.investors).is_none() {
        return Err(SovereignError::Overflow);
    }
    if sovereign.state == SovereignStatus::Recovery && sovereign.total_recovered.checked_add(
        split.investors,
    ).is_none() {
        return Err(SovereignError::Overflow);
    }
    let was_renounced = sovereign.fee_control_renounced;
    tracker.total_earned = tracker.total_earned + split.creator;
    tracker.pending_withdrawal = tracker.pending_withdrawal + split.creator;
    sovereign.total_fees_collected = sovereign.total_fees_collected + split.investors;
    let mut recovery_completed = false;
    if sovereign.state == SovereignStatus::Recovery {
        sovereign.total_recovered = sovereign.total_recovered + split.investors;
        if sovereign.total_recovered >= sovereign.recovery_target {
            // Atomic transition: recovery completes in the same unit of work.
            recovery_completed = true;
            sovereign.state = SovereignStatus::Active;
            sovereign.recovery_complete = true;
            sovereign.pool_restricted = false;
            if sovereign.fee_mode == FeeMode::FairLaunch && !sovereign.fee_control_renounced {
                sovereign.sell_fee_bps = 0;
                sovereign.fee_control_renounced = true;
            }
        }
    }
    let renounce = recovery_completed && sovereign.fee_mode == FeeMode::FairLaunch
        && !was_renounced;
    Ok(
        ClaimFeesOutcome {
            split,
            recovery_completed,
            lift_pool_restriction: recovery_completed,
            renounce_sell_fee: renounce,
        },
    )
}

/// A depositor's lifetime fee entitlement under the fee-index pattern:
/// `floor(total_fees * amount / total_deposited)`.
pub open spec fn fee_entitlement(total_fees: u64, amount: u64, total_deposited: u64) -> int {
    total_fees * amount / (total_deposited as int)
}

/// Settle a depositor's fee claim against the fee index:
/// `claimable = floor(total_fees * amount / total_deposited) - already_claimed`,
/// floored at zero. The claimed tally is raised before the host transfers
/// anything, so a repeated claim with no new fees yields zero. Returns what
/// the host must pay out of the fee vault. On error nothing changes.
pub fn claim_depositor_fees(
    sovereign: &SovereignState,
    record: &mut DepositRecord,
    vault_balance: u64,
) -> (result: Result<u64, SovereignError>)
    requires
        old(record).amount <= sovereign.total_deposited,
    ensures
        result is Err ==> *final(record) == *old(record),
        (match result {
            Err(e) => {
                if sovereign.state != SovereignStatus::Recovery && sovereign.state
                    != SovereignStatus::Active {
                    e == SovereignError::InvalidState
                } else if !old(record).nft_minted {
                    e == SovereignError::NFTNotMinted
                } else if sovereign.total_deposited == 0 {
                    e == SovereignError::NoDeposits
                } else {
                    let entitlement = fee_entitlement(
                        sovereign.total_fees_collected,
                        old(record).amount,
                        sovereign.total_deposited,
                    );
                    e == SovereignError::InsufficientVaultBalance && entitlement - old(
                        record,
                    ).fees_claimed > vault_balance
                }
            },
            Ok(paid) => {
                let entitlement = fee_entitlement(
                    sovereign.total_fees_collected,
                    old(record).amount,
                    sovereign.total_deposited,
                );
                &&& (sovereign.state == SovereignStatus::Recovery || sovereign.state
                    == SovereignStatus::Active)
                &&& old(record).nft_minted
                &&& sovereign.total_deposited > 0
                &&& paid == if entitlement > old(record).fees_claimed {
                    entitlement - old(record).fees_claimed
                } else {
                    0
                }
                &&& paid <= vault_balance
                &&& *final(record) == (DepositRecord {
                    fees_claimed: (old(record).fees_claimed + paid) as u64,
                    ..*old(record)
                })
                // A claim never hands out more than the whole fee index.
                &&& old(record).fees_claimed <= entitlement ==> final(record).fees_claimed
                    == entitlement
            },
        }),
{
    if sovereign.state != SovereignStatus::Recovery && sovereign.state != SovereignStatus::Active {
        return Err(SovereignError::InvalidState);
    }
    if !record.nft_minted {
        return Err(SovereignError::NFTNotMinted);
    }
    if sovereign.total_deposited == 0 {
        return Err(SovereignError::NoDeposits);
    }
    let entitlement = proportional_u64(
        sovereign.total_fees_collected,
        record.amount,
        sovereign.total_deposited,
    );
    let claimable = if entitlement > record.fees_claimed {
        entitlement - record.fees_claimed
    } else {
        0
    };
    if claimable > vault_balance {
        return Err(SovereignError::InsufficientVaultBalance);
    }
    // Effects before interaction: record the claim before any transfer.
    record.fees_claimed = record.fees_claimed + claimable;
    Ok(claimable)
}

/// The creator withdraws their pending revenue. The pending tally is zeroed
/// and the lifetime claimed tally raised before the host transfers anything.
/// Returns what the host must pay.
pub fn withdraw_creator_fees(tracker: &mut CreatorFeeTracker) -> (result: Result<
    u64,
    SovereignError,
>)
    ensures
        result is Err ==> *final(tracker) == *old(tracker),
        (match result {
            Err(e) => {
                if old(tracker).pending_withdrawal == 0 {
                    e == SovereignError::NothingToClaim
                } else {
                    e == SovereignError::Overflow && old(tracker).total_claimed + old(
                        tracker,
                    ).pending_withdrawal > u64::MAX
                }
            },
            Ok(paid) => {
                &&& paid == old(tracker).pending_withdrawal
                &&& paid > 0
                &&& *final(tracker) == (CreatorFeeTracker {
                    pending_withdrawal: 0,
                    total_claimed: (old(tracker).total_claimed + paid) as u64,
                    ..*old(tracker)
                })
            },
        }),
{
    if tracker.pending_withdrawal == 0 {
        return Err(SovereignError::NothingToClaim);
    }
    let amount = tracker.pending_withdrawal;
    match tracker.total_claimed.checked_add(amount) {
        Some(claimed) => {
            tracker.pending_withdrawal = 0;
            tracker.total_claimed = claimed;
            Ok(amount)
        },
        None => Err(SovereignError::Overflow),
    }
}

/// The sell fee withheld on a transfer: `amount * sell_fee_bps / 10000` when
/// the transfer is a sell, nothing otherwise.
pub fn transfer_hook_fee(amount: u64, sell_fee_bps: u16, is_sell: bool) -> (r: u64)
    requires
        sell_fee_bps <= crate::constants::MAX_SELL_FEE_BPS,
    ensures
        is_sell ==> r == amount * sell_fee_bps / (BPS_DENOMINATOR as int),
        !is_sell ==> r == 0,
{
    if !is_sell {
        return 0;
    }
    bps_share(amount, sell_fee_bps)
}

/// Credit the funding-asset proceeds of a recovery-token swap to the
/// recovery tally. Only a token launch in `Recovery` under a boost mode
/// swaps harvested sell fees into the funding asset for its investors; the
/// host performs the swap and hands back what it yielded. On error nothing
/// changes.
pub fn swap_recovery_tokens(
    protocol: &ProtocolState,
    sovereign: &mut SovereignState,
    funding_received: u64,
) -> (result: Result<ClaimFeesOutcome, SovereignError>)
    requires
        old(sovereign).wf(),
    ensures
        final(sovereign).wf(),
        crate::state::lifecycle_step(old(sovereign).state, final(sovereign).state),
        result is Err ==> *final(sovereign) == *old(sovereign),
        (match result {
            Err(e) => {
                if protocol.paused {
                    e == SovereignError::ProtocolPaused
                } else if old(sovereign).state != SovereignStatus::Recovery {
                    e == SovereignError::InvalidState
                } else if old(sovereign).sovereign_type != SovereignType::TokenLaunch {
                    e == SovereignError::InvalidSovereignType
                } else if old(sovereign).fee_mode == FeeMode::CreatorRevenue {
                    e == SovereignError::InvalidFeeMode
                } else {
                    &&& e == SovereignError::Overflow
                    &&& (old(sovereign).total_fees_collected + funding_received > u64::MAX || old(
                        sovereign,
                    ).total_recovered + funding_received > u64::MAX)
                }
            },
            Ok(outcome) => {
                &&& !protocol.paused
                &&& old(sovereign).state == SovereignStatus::Recovery
                &&& old(sovereign).sovereign_type == SovereignType::TokenLaunch
                &&& (old(sovereign).fee_mode == FeeMode::RecoveryBoost || old(sovereign).fee_mode
                    == FeeMode::FairLaunch)
                &&& outcome.split == (FeeSplit {
                    creator: 0,
                    investors: funding_received,
                    protocol: 0,
                })
                &&& *final(sovereign) == recovery_credited(*old(sovereign), funding_received)
                &&& outcome.recovery_completed == (old(sovereign).total_recovered
                    + funding_received >= old(sovereign).recovery_target)
                &&& outcome.lift_pool_restriction == outcome.recovery_completed
                &&& outcome.renounce_sell_fee == (outcome.recovery_completed && old(
                    sovereign,
                ).fee_mode == FeeMode::FairLaunch && !old(sovereign).fee_control_renounced)
            },
        }),
{
    if protocol.paused {
        return Err(SovereignError::ProtocolPaused);
    }
    if sovereign.state != SovereignStatus::Recovery {
        return Err(SovereignError::InvalidState);
    }
    if sovereign.sovereign_type != SovereignType::TokenLaunch {
        return Err(SovereignError::InvalidSovereignType);
    }
    if sovereign.fee_mode == FeeMode::CreatorRevenue {
        return Err(SovereignError::InvalidFeeMode);
    }
    if sovereign.total_fees_collected.checked_add(funding_received).is_none() {
        return Err(SovereignError::Overflow);
    }
    if sovereign.total_recovered.checked_add(funding_received).is_none() {
        return Err(SovereignError::Overflow);
    }
    let was_renounced = sovereign.fee_control_renounced;
    sovereign.total_fees_collected = sovereign.total_fees_collected + funding_received;
    sovereign.total_recovered = sovereign.total_recovered + funding_received;
    let mut recovery_completed = false;
    if sovereign.total_recovered >= sovereign.recovery_target {
        recovery_completed = true;
        sovereign.state = SovereignStatus::Active;
        sovereign.recovery_complete = true;
        sovereign.pool_restricted = false;
        if sovereign.fee_mode == FeeMode::FairLaunch && !sovereign.fee_control_renounced {
            sovereign.sell_fee_bps = 0;
            sovereign.fee_control_renounced = true;
        }
    }
    let renounce = recovery_completed && sovereign.fee_mode == FeeMode::FairLaunch
        && !was_renounced;
    Ok(
        ClaimFeesOutcome {
            split: FeeSplit { creator: 0, investors: funding_received, protocol: 0 },
            recovery_completed,
            lift_pool_restriction: recovery_completed,
            renounce_sell_fee: renounce,
        },
    )
}

/// How much of a fee-collection holding of `holding` may be taken for the
/// investors, and how much must be returned to the pool to preserve the
/// solvency reserve: the extractable part of the pool balance, capped at the
/// holding; the rest of the holding goes back.
pub fn extraction_allowance(
    holding: u64,
    pool_funding: u64,
    pool_tokens: u64,
    supply: u64,
    principal: u64,
) -> (r: (u64, u64))
    ensures
        r.0 == if holding <= crate::math::extractable(
            pool_funding as int,
            pool_tokens as int,
            supply as int,
            principal as int,
        ) {
            holding as int
        } else {
            crate::math::extractable(
                pool_funding as int,
                pool_tokens as int,
                supply as int,
                principal as int,
            )
        },
        r.0 + r.1 == holding,
{
    let allowed = crate::math::solvency_extractable(pool_funding, pool_tokens, supply, principal);
    let take = crate::math::min_u64(holding, allowed);
    (take, holding - take)
}

// ------------------------------------------------------------
// Laws of the fee index
// ------------------------------------------------------------

/// The fee-index claim is idempotent and loss-free: a claim brings the
/// claimed tally up to the entitlement, so claiming again with no new fees
/// yields zero; and over two rounds with fees growing from `fees1` to
/// `fees2`, the two payouts sum to exactly the entitlement of the second
/// round — nothing is paid twice and nothing is lost.
pub proof fn lemma_claim_idempotent(
    fees1: u64,
    fees2: u64,
    amount: u64,
    total_deposited: u64,
    claimed0: u64,
)
    requires
        0 < total_deposited,
        amount <= total_deposited,
        fees1 <= fees2,
        claimed0 <= fee_entitlement(fees1, amount, total_deposited),
    ensures
        ({
            let ent1 = fee_entitlement(fees1, amount, total_deposited);
            let ent2 = fee_entitlement(fees2, amount, total_deposited);
            let paid1 = ent1 - claimed0;
            let paid2 = ent2 - ent1;
            // entitlements only grow with the fee index
            &&& ent1 <= ent2
            // a second claim with no new fees pays nothing
            &&& (fees2 == fees1 ==> paid2 == 0)
            // the two rounds together pay exactly the final entitlement
            &&& paid1 + paid2 == ent2 - claimed0
            &&& paid2 >= 0
        }),
{
    lemma_mul_div_mono(fees1 as int, fees2 as int, amount as int, total_deposited as int);
}

} // verus!
