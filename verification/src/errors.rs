//! The error taxonomy: state errors, authorization errors, arithmetic errors,
//! balance errors and domain errors. Every operation reports failure through
//! one of these and leaves no partial effects.
use vstd::prelude::*;

verus! {

/// Why an operation was refused. Each verified operation's `ensures` states
/// exactly which inputs produce which variant.
#[derive(Clone, Copy, Debug, PartialEq, Eq, Structural)]
pub enum SovereignError {
    /// The sovereign is not in the phase the operation needs.
    InvalidState,
    /// The bonding deadline has passed.
    DeadlinePassed,
    /// The bonding deadline has not passed yet.
    DeadlineNotPassed,
    /// The bond target has already been reached.
    BondingComplete,
    /// The bond target was met, so bonding cannot be marked failed.
    BondTargetMet,
    /// A deposit of zero was offered.
    ZeroDeposit,
    /// A withdrawal of zero was requested.
    ZeroWithdraw,
    /// The deposit is below the protocol minimum.
    DepositTooSmall,
    /// The creator's escrow would exceed its cap.
    CreatorDepositExceedsMax,
    /// The withdrawal exceeds the recorded deposit.
    InsufficientDepositBalance,
    /// The vault does not hold enough to pay out.
    InsufficientVaultBalance,
    /// There is nothing to withdraw.
    NothingToWithdraw,
    /// There is nothing to claim.
    NothingToClaim,
    /// The creator must use the creator-specific operation.
    CreatorMustUseCreatorWithdraw,
    /// The creator cannot withdraw escrow while bonding.
    CreatorCannotWithdrawDuringBonding,
    /// The caller is not authorized.
    Unauthorized,
    /// The bearer claim token has not been issued yet.
    NFTNotMinted,
    /// The bearer claim token was already issued.
    NFTAlreadyMinted,
    /// The proposal is not open for voting.
    ProposalNotActive,
    /// The voting period has ended.
    VotingPeriodEnded,
    /// The voting period has not ended yet.
    VotingPeriodNotEnded,
    /// The proposal did not pass.
    ProposalNotPassed,
    /// The voter holds no voting power.
    NoVotingPower,
    /// Another proposal is already active for this sovereign.
    ActiveProposalExists,
    /// The observation window has not elapsed yet.
    ActivityCheckPeriodNotElapsed,
    /// An observation countdown is already pending.
    ActivityCheckAlreadyPending,
    /// No observation countdown is pending.
    NoActivityCheckPending,
    /// The cooldown after a cancelled observation has not elapsed.
    ActivityCheckCooldownNotElapsed,
    /// A checked arithmetic operation would overflow.
    Overflow,
    /// No deposits exist, so proportional shares are undefined.
    NoDeposits,
    /// The protocol is paused.
    ProtocolPaused,
    /// The unwind proceeds were already claimed with this token.
    AlreadyClaimed,
    /// There is no redemption pool to draw from.
    NoRedemptionPool,
    /// No circulating tokens were snapshotted, so the rate is undefined.
    NoCirculatingTokens,
    /// The redemption window has expired.
    RedemptionWindowExpired,
    /// The redemption window has not expired yet.
    RedemptionWindowNotExpired,
    /// The sovereign is already emergency-unlocked.
    AlreadyEmergencyUnlocked,
    /// The bond target has not been met.
    BondTargetNotMet,
    /// The pool was already created.
    PoolAlreadyCreated,
    /// The pool has not been created yet.
    PoolNotCreated,
    /// The fee threshold was already renounced.
    FeeThresholdRenounced,
    /// The fee threshold cannot be increased.
    CannotIncreaseFeeThreshold,
    /// The sell fee exceeds its cap.
    SellFeeExceedsMax,
    /// Sell-fee control was renounced.
    FeeControlRenounced,
    /// The operation does not apply to this kind of sovereign.
    InvalidSovereignType,
    /// The fee mode does not allow this operation.
    InvalidFeeMode,
    /// A fee parameter exceeds its cap.
    FeeTooHigh,
    /// A parameter is out of its allowed range.
    InvalidAmount,
    /// The bond target is below the protocol minimum.
    InvalidBondTarget,
    /// The bonding duration is out of its allowed range.
    InvalidBondDuration,
    /// A required token-launch parameter is missing.
    MissingTokenParams,
    /// The token deposit is below the required share of supply.
    InsufficientTokenDeposit,
    /// The token supply is zero or otherwise unusable.
    InvalidTokenSupply,
    /// The token name is empty or too long.
    InvalidTokenName,
    /// The token symbol is empty or too long.
    InvalidTokenSymbol,
    /// The metadata location is empty or too long.
    InvalidMetadataUri,
    /// Revenue sharing has not started yet.
    RecoveryNotComplete,
}

} // verus!
