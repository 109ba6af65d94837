//! The data model: one `SovereignState` per funding campaign, one
//! `DepositRecord` per pledger, a `CreatorFeeTracker`, governance `Proposal`s
//! and `VoteRecord`s, the `PermanentLock` custody record for the market
//! position, and the protocol-level `ProtocolState`.
//!
//! Addresses of the host runtime are held as plain identifiers compared only
//! for equality.
use vstd::prelude::*;

use crate::constants::BPS_DENOMINATOR;

verus! {

/// An account address of the host runtime, compared only for equality.
pub type Address = u64;

/// Kind of launch: a token created by the protocol, or one the creator brings.
#[derive(Clone, Copy, Debug, PartialEq, Eq, Structural)]
pub enum SovereignType {
    /// The protocol creates a new token with a sell-fee extension.
    TokenLaunch,
    /// The creator brings an existing token.
    BYOToken,
}

/// How collected fees are distributed once principal recovery is done.
#[derive(Clone, Copy, Debug, PartialEq, Eq, Structural)]
pub enum FeeMode {
    /// Fees go to the creator after recovery.
    CreatorRevenue,
    /// Fees boost recovery, then go to the creator.
    RecoveryBoost,
    /// Fees boost recovery, then the sell fee is renounced to zero.
    FairLaunch,
}

/// Lifecycle phase of a sovereign.
#[derive(Clone, Copy, Debug, PartialEq, Eq, Structural)]
pub enum SovereignStatus {
    /// Accepting pledges toward the bond target.
    Bonding,
    /// Bond target met; ready to create the pool.
    Finalizing,
    /// Pool created; ready for the liquidity deposit.
    PoolCreated,
    /// Liquidity committed; trading fees repay depositor principal.
    Recovery,
    /// Principal recovered; pool unrestricted, revenue share active.
    Active,
    /// A passed unwind vote is in its observation window.
    Unwinding,
    /// Liquidity withdrawn; claims are open.
    Unwound,
    /// Bonding missed its deadline; refunds are open.
    Failed,
    /// Safety valve pulled; participants reclaim funds.
    EmergencyUnlocked,
    /// Fully swept; no further action.
    Retired,
}

/// Status of an unwind proposal.
#[derive(Clone, Copy, Debug, PartialEq, Eq, Structural)]
pub enum ProposalStatus {
    /// Voting is open.
    Active,
    /// Voting ended and the proposal passed.
    Passed,
    /// Voting ended and the proposal failed quorum or ratio.
    Failed,
}

/// Whether a phase is terminal: no operation may move the sovereign out of
/// it, though `Unwound` keeps its claim paths and `Failed` its refund paths.
pub open spec fn is_terminal(state: SovereignStatus) -> bool {
    ||| state == SovereignStatus::Unwound
    ||| state == SovereignStatus::Failed
    ||| state == SovereignStatus::Retired
}

/// The lifecycle graph: `Bonding → Finalizing → PoolCreated → Recovery →
/// Active ⇄ Unwinding → Unwound`, with `Bonding → Failed` on a missed
/// deadline, a skip from `PoolCreated` straight to `Active` when there is
/// nothing to recover, and `any non-terminal → EmergencyUnlocked → Retired`
/// as the orthogonal escape path. Every operation's phase change is one of
/// these edges; everything else leaves the phase alone.
pub open spec fn lifecycle_step(pre: SovereignStatus, post: SovereignStatus) -> bool {
    ||| post == pre
    ||| (pre == SovereignStatus::Bonding && (post == SovereignStatus::Finalizing || post
        == SovereignStatus::Failed))
    ||| (pre == SovereignStatus::Finalizing && post == SovereignStatus::PoolCreated)
    ||| (pre == SovereignStatus::PoolCreated && (post == SovereignStatus::Recovery || post
        == SovereignStatus::Active))
    ||| (pre == SovereignStatus::Recovery && post == SovereignStatus::Active)
    ||| (pre == SovereignStatus::Active && post == SovereignStatus::Unwinding)
    ||| (pre == SovereignStatus::Unwinding && (post == SovereignStatus::Active || post
        == SovereignStatus::Unwound))
    ||| (!is_terminal(pre) && post == SovereignStatus::EmergencyUnlocked)
    ||| (pre == SovereignStatus::EmergencyUnlocked && post == SovereignStatus::Retired)
}

/// Protocol-level configuration and statistics.
#[derive(Clone, Copy, Debug)]
pub struct ProtocolState {
    /// Admin allowed to change settings and pull the safety valve.
    pub authority: Address,
    /// Treasury receiving protocol fees.
    pub treasury: Address,
    /// Creation fee in basis points of the bond target.
    pub creation_fee_bps: u16,
    /// Minimum creation fee in smallest units.
    pub min_fee_lamports: u64,
    /// Fee to open an unwind proposal.
    pub governance_unwind_fee_lamports: u64,
    /// Protocol fee taken off the top of a governance unwind, in basis points.
    pub unwind_fee_bps: u16,
    /// Minimum share of supply a bring-your-own-token launch must deposit.
    pub byo_min_supply_bps: u16,
    /// Minimum bond target.
    pub min_bond_target: u64,
    /// Minimum single deposit.
    pub min_deposit: u64,
    /// Activity-check period while Active, in seconds.
    pub auto_unwind_period: i64,
    /// Volume threshold for the unwind observation check, in basis points of
    /// the deposits; zero means the built-in default applies.
    pub min_fee_growth_threshold: u128,
    /// Whether the volume threshold is locked forever.
    pub fee_threshold_renounced: bool,
    /// Emergency pause flag.
    pub paused: bool,
    /// Number of sovereigns created.
    pub sovereign_count: u64,
    /// Lifetime protocol revenue.
    pub total_fees_collected: u64,
}

impl ProtocolState {
    /// The protocol configuration is within its documented caps.
    pub open spec fn wf(self) -> bool {
        &&& self.creation_fee_bps <= crate::constants::MAX_CREATION_FEE_BPS
        &&& self.unwind_fee_bps <= crate::constants::MAX_UNWIND_FEE_BPS
        &&& self.byo_min_supply_bps <= BPS_DENOMINATOR
    }
}

/// One funding campaign and its market position.
#[derive(Clone, Copy, Debug)]
pub struct SovereignState {
    /// Unique identifier.
    pub sovereign_id: u64,
    /// Creator's address.
    pub creator: Address,
    /// Traded-asset reference.
    pub token_mint: Address,
    /// Kind of launch.
    pub sovereign_type: SovereignType,
    /// Current lifecycle phase.
    pub state: SovereignStatus,
    /// Funding to raise, in smallest units.
    pub bond_target: u64,
    /// Deadline for bonding, as a unix timestamp.
    pub bond_deadline: i64,
    /// Bonding duration in seconds.
    pub bond_duration: i64,
    /// Total pledged by investors; excludes the creator escrow.
    pub total_deposited: u64,
    /// Number of distinct investors with a live pledge.
    pub depositor_count: u32,
    /// Creator's escrowed funds for a market buy; capped at 1% of the target.
    pub creator_escrow: u64,
    /// Tokens the creator deposited.
    pub token_supply_deposited: u64,
    /// Total supply of the traded asset.
    pub token_total_supply: u64,
    /// Sell fee in basis points.
    pub sell_fee_bps: u16,
    /// Fee distribution mode.
    pub fee_mode: FeeMode,
    /// Whether sell-fee control was renounced.
    pub fee_control_renounced: bool,
    /// Amount held in the creation-fee escrow.
    pub creation_fee_escrowed: u64,
    /// Pool reference; zero until the pool is created.
    pub pool_state: Address,
    /// Position reference.
    pub position_mint: Address,
    /// Whether outside liquidity providers are still barred from the pool.
    pub pool_restricted: bool,
    /// Funding to recover before revenue share starts; equals the deposits.
    pub recovery_target: u64,
    /// Total recovered so far during the recovery phase.
    pub total_recovered: u64,
    /// Whether recovery completed.
    pub recovery_complete: bool,
    /// Identifier of the active proposal, if any.
    pub active_proposal_id: u64,
    /// Number of proposals created.
    pub proposal_count: u64,
    /// Whether a proposal is active.
    pub has_active_proposal: bool,
    /// Creator's revenue-share threshold in basis points.
    pub fee_threshold_bps: u16,
    /// Total fees collected for investors, lifetime.
    pub total_fees_collected: u64,
    /// Token supply committed at finalization.
    pub total_supply: u64,
    /// Whether an unwind observation countdown is pending.
    pub activity_check_initiated: bool,
    /// When the pending observation countdown started.
    pub activity_check_initiated_at: Option<i64>,
    /// When the observation window ends.
    pub activity_check_timestamp: i64,
    /// Pool cumulative fee growth of the funding asset, at vote pass.
    pub fee_growth_snapshot_a: u128,
    /// Pool cumulative fee growth of the traded asset, at vote pass.
    pub fee_growth_snapshot_b: u128,
    /// When the last observation was cancelled, for the cooldown.
    pub activity_check_last_cancelled: i64,
    /// Settlement balance in the funding asset after an unwind.
    pub unwind_sol_balance: u64,
    /// Settlement balance in the traded asset after an unwind.
    pub unwind_token_balance: u64,
    /// Surplus reserved for token-holder redemption.
    pub token_redemption_pool: u64,
    /// Circulating traded-asset units snapshotted at the unwind.
    pub circulating_tokens_at_unwind: u64,
    /// Deadline for token-holder redemption.
    pub token_redemption_deadline: i64,
    /// When the sovereign was unwound, if it was.
    pub unwound_at: Option<i64>,
    /// Last recorded activity.
    pub last_activity: i64,
    /// When the sovereign was created.
    pub created_at: i64,
    /// When liquidity was committed.
    pub finalized_at: i64,
}

impl SovereignState {
    /// Phase-dependent accounting invariant: deposits never exceed the bond
    /// target while bonding (overshoot is capped, never exceeded), recovery
    /// never exceeds its target while recovering, and the creator escrow
    /// stays within its cap.
    pub open spec fn wf(self) -> bool {
        &&& self.state == SovereignStatus::Bonding ==> self.total_deposited <= self.bond_target
        &&& self.state == SovereignStatus::Recovery ==> self.total_recovered
            <= self.recovery_target
        &&& self.creator_escrow <= self.bond_target / 100
        &&& self.sell_fee_bps <= crate::constants::MAX_SELL_FEE_BPS
        &&& self.fee_threshold_bps <= BPS_DENOMINATOR
    }

    /// The creator may escrow at most 1% of the bond target.
    pub fn max_creator_buy_in(&self) -> (r: u64)
        ensures
            r == self.bond_target / 100,
    {
        self.bond_target / 100
    }

    /// Whether the bonding deadline has passed at `current_time`.
    pub fn is_deadline_passed(&self, current_time: i64) -> (r: bool)
        ensures
            r == (current_time > self.bond_deadline),
    {
        current_time > self.bond_deadline
    }

    /// Whether the bond target has been met.
    pub fn is_bond_target_met(&self) -> (r: bool)
        ensures
            r == (self.total_deposited >= self.bond_target),
    {
        self.total_deposited >= self.bond_target
    }

    /// Whether recovery has reached its target.
    pub fn is_recovery_complete(&self) -> (r: bool)
        ensures
            r == (self.total_recovered >= self.recovery_target),
    {
        self.total_recovered >= self.recovery_target
    }
}

/// One investor's pledge in a sovereign. The creator has none: their funds
/// follow the `CreatorFeeTracker`. After finalization the record is owned by
/// its bearer claim token, not by the wallet that created it.
#[derive(Clone, Copy, Debug)]
pub struct DepositRecord {
    /// The investor's wallet; authoritative only before the claim token exists.
    pub depositor: Address,
    /// Amount pledged, in smallest units.
    pub amount: u64,
    /// Proportional share in basis points, fixed at finalization.
    pub shares_bps: u16,
    /// Fees already claimed against the fee index.
    pub fees_claimed: u64,
    /// The bearer claim token's mint, once issued.
    pub nft_mint: Option<Address>,
    /// Voting power in basis points, fixed when the claim token is issued.
    pub voting_power_bps: u16,
    /// Whether the claim token has been issued.
    pub nft_minted: bool,
    /// Whether unwind proceeds were claimed.
    pub unwind_claimed: bool,
    /// Whether a failed-bonding refund was claimed.
    pub refund_claimed: bool,
    /// When the first pledge was made.
    pub deposited_at: i64,
}

impl DepositRecord {
    /// A fresh record for a depositor with no pledge yet.
    pub fn new(depositor: Address) -> (r: DepositRecord)
        ensures
            r.depositor == depositor,
            r.amount == 0,
            r.fees_claimed == 0,
            !r.nft_minted,
            !r.unwind_claimed,
            !r.refund_claimed,
    {
        DepositRecord {
            depositor,
            amount: 0,
            shares_bps: 0,
            fees_claimed: 0,
            nft_mint: None,
            voting_power_bps: 0,
            nft_minted: false,
            unwind_claimed: false,
            refund_claimed: false,
            deposited_at: 0,
        }
    }

    /// The record's claimable fees under the fee-index pattern:
    /// `floor(total_fees * amount / total_deposited) - fees_claimed`,
    /// floored at zero; zero when nothing was deposited at all.
    pub fn calculate_claimable_fees(&self, total_fees: u64, total_deposited: u64) -> (r: u64)
        requires
            self.amount <= total_deposited,
        ensures
            total_deposited == 0 ==> r == 0,
            total_deposited > 0 ==> r == ({
                let entitlement = total_fees * self.amount / (total_deposited as int);
                if entitlement > self.fees_claimed {
                    entitlement - self.fees_claimed
                } else {
                    0
                }
            }),
    {
        if total_deposited == 0 {
            return 0;
        }
        let entitlement = crate::math::proportional_u64(total_fees, self.amount, total_deposited);
        if entitlement > self.fees_claimed {
            entitlement - self.fees_claimed
        } else {
            0
        }
    }

    /// The record's share of a funding-asset fee total, by its fixed
    /// basis-point share.
    pub fn calculate_sol_share(&self, total_sol_fees: u64) -> (r: u64)
        requires
            self.shares_bps <= BPS_DENOMINATOR,
        ensures
            r == total_sol_fees * self.shares_bps / (BPS_DENOMINATOR as int),
    {
        crate::math::bps_share(total_sol_fees, self.shares_bps)
    }

    /// The record's share of a traded-asset fee total, by its fixed
    /// basis-point share.
    pub fn calculate_token_share(&self, total_token_fees: u64) -> (r: u64)
        requires
            self.shares_bps <= BPS_DENOMINATOR,
        ensures
            r == total_token_fees * self.shares_bps / (BPS_DENOMINATOR as int),
    {
        crate::math::bps_share(total_token_fees, self.shares_bps)
    }

    /// Whether the record holds a live pledge.
    pub fn has_deposit(&self) -> (r: bool)
        ensures
            r == (self.amount > 0),
    {
        self.amount > 0
    }
}

/// Tracks the creator's revenue share and reclaimable funds.
#[derive(Clone, Copy, Debug)]
pub struct CreatorFeeTracker {
    /// The creator's address.
    pub creator: Address,
    /// Total revenue accrued to the creator.
    pub total_earned: u64,
    /// Total revenue the creator has withdrawn.
    pub total_claimed: u64,
    /// Revenue accrued but not yet withdrawn.
    pub pending_withdrawal: u64,
    /// Whether the creator renounced the revenue-share threshold.
    pub threshold_renounced: bool,
    /// Whether the creator reclaimed funds after a failed bonding.
    pub failed_reclaimed: bool,
}

impl CreatorFeeTracker {
    /// A fresh tracker for a creator.
    pub fn new(creator: Address) -> (r: CreatorFeeTracker)
        ensures
            r.creator == creator,
            r.total_earned == 0,
            r.total_claimed == 0,
            r.pending_withdrawal == 0,
            !r.threshold_renounced,
            !r.failed_reclaimed,
    {
        CreatorFeeTracker {
            creator,
            total_earned: 0,
            total_claimed: 0,
            pending_withdrawal: 0,
            threshold_renounced: false,
            failed_reclaimed: false,
        }
    }
}

/// One unwind vote.
#[derive(Clone, Copy, Debug)]
pub struct Proposal {
    /// Identifier within the sovereign.
    pub proposal_id: u64,
    /// Who opened it.
    pub proposer: Address,
    /// Current status.
    pub status: ProposalStatus,
    /// Votes in favour, in basis points of all shares.
    pub votes_for_bps: u32,
    /// Votes against, in basis points of all shares.
    pub votes_against_bps: u32,
    /// Total participation, in basis points of all shares.
    pub total_voted_bps: u32,
    /// Number of distinct voters.
    pub voter_count: u32,
    /// Required participation, in basis points.
    pub quorum_bps: u16,
    /// Required share of votes cast in favour, in basis points.
    pub pass_threshold_bps: u16,
    /// When voting closes.
    pub voting_ends_at: i64,
    /// When the observation window ends, once passed.
    pub timelock_ends_at: i64,
    /// When the proposal was opened.
    pub created_at: i64,
    /// When it was executed; zero if it was not.
    pub executed_at: i64,
}

impl Proposal {
    /// The tallies are consistent: participation is the sum of both sides.
    pub open spec fn wf(self) -> bool {
        self.total_voted_bps == self.votes_for_bps + self.votes_against_bps
    }

    /// Whether voting is still open at `current_time`.
    pub fn is_voting_active(&self, current_time: i64) -> (r: bool)
        ensures
            r == (self.status == ProposalStatus::Active && current_time <= self.voting_ends_at),
    {
        self.status == ProposalStatus::Active && current_time <= self.voting_ends_at
    }

    /// Whether participation meets the quorum.
    pub fn is_quorum_met(&self) -> (r: bool)
        ensures
            r == (self.total_voted_bps >= self.quorum_bps),
    {
        self.total_voted_bps >= self.quorum_bps as u32
    }
}

/// One vote, keyed by the bearer claim token so a transferred position
/// cannot vote twice.
#[derive(Clone, Copy, Debug)]
pub struct VoteRecord {
    /// The proposal voted on.
    pub proposal_id: u64,
    /// The wallet that held the claim token when voting.
    pub voter: Address,
    /// The claim token that voted.
    pub nft_mint: Address,
    /// Voting power spent, in basis points.
    pub voting_power_bps: u16,
    /// Whether the vote was in favour.
    pub vote_for: bool,
    /// When the vote was cast.
    pub voted_at: i64,
}

/// Custody record for the market position. Its liquidity field is zeroed
/// exactly once, as a re-entry guard against double-draining.
#[derive(Clone, Copy, Debug)]
pub struct PermanentLock {
    /// The pool the position sits in.
    pub pool_state: Address,
    /// The position's token.
    pub position_mint: Address,
    /// Recorded liquidity of the position.
    pub liquidity: u128,
    /// Lower bound of the position's range.
    pub tick_lower_index: i32,
    /// Upper bound of the position's range.
    pub tick_upper_index: i32,
    /// Whether the position was unwound.
    pub unwound: bool,
    /// When the position was created.
    pub created_at: i64,
    /// When it was unwound; zero if it was not.
    pub unwound_at: i64,
}

impl PermanentLock {
    /// Whether the position still holds liquidity.
    pub fn is_active(&self) -> (r: bool)
        ensures
            r == !self.unwound,
    {
        !self.unwound
    }
}

} // verus!
