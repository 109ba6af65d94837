//! Protocol-wide constants: time windows, basis-point caps and defaults.
use vstd::prelude::*;

verus! {

/// Smallest funding-asset unit per whole unit.
pub const LAMPORTS_PER_SOL: u64 = 1_000_000_000;

// ------------------------------------------------------------
// Time constants (seconds)
// ------------------------------------------------------------

/// One day in seconds.
pub const ONE_DAY: i64 = 86_400;

/// Seven days in seconds.
pub const SEVEN_DAYS: i64 = 7 * ONE_DAY;

/// Thirty days in seconds.
pub const THIRTY_DAYS: i64 = 30 * ONE_DAY;

/// Ninety days in seconds.
pub const NINETY_DAYS: i64 = 90 * ONE_DAY;

/// Minimum bonding period.
pub const MIN_BOND_DURATION: i64 = SEVEN_DAYS;

/// Maximum bonding period.
pub const MAX_BOND_DURATION: i64 = THIRTY_DAYS;

/// Cooldown after a cancelled unwind observation.
pub const ACTIVITY_CHECK_COOLDOWN: i64 = SEVEN_DAYS;

/// Voting period for governance proposals.
pub const VOTING_PERIOD_SECONDS: i64 = SEVEN_DAYS;

/// Post-vote observation window before an unwind may execute.
pub const UNWIND_OBSERVATION_PERIOD: i64 = NINETY_DAYS;

/// Activity-check observation period while the position is Active.
pub const ACTIVITY_CHECK_PERIOD_SECONDS: i64 = NINETY_DAYS;

/// Window during which token holders may redeem surplus after an unwind.
pub const TOKEN_REDEMPTION_WINDOW: i64 = THIRTY_DAYS;

// ------------------------------------------------------------
// Basis points
// ------------------------------------------------------------

/// 100% in basis points: the denominator of every percentage here.
pub const BPS_DENOMINATOR: u16 = 10_000;

/// Maximum sell fee (3%).
pub const MAX_SELL_FEE_BPS: u16 = 300;

/// Maximum creation fee (10%).
pub const MAX_CREATION_FEE_BPS: u16 = 1_000;

/// Maximum protocol unwind fee (20%).
pub const MAX_UNWIND_FEE_BPS: u16 = 2_000;

/// Default creation fee (0.5%).
pub const DEFAULT_CREATION_FEE_BPS: u16 = 50;

/// Default protocol unwind fee (20%).
pub const DEFAULT_UNWIND_FEE_BPS: u16 = 2_000;

/// Default minimum share of supply a bring-your-own-token launch must deposit (30%).
pub const DEFAULT_BYO_MIN_SUPPLY_BPS: u16 = 3_000;

/// Default creator revenue-share threshold (100%, lowered by the creator).
pub const DEFAULT_FEE_THRESHOLD_BPS: u16 = 10_000;

/// Quorum requirement for an unwind vote (67% of all shares).
pub const QUORUM_BPS: u16 = 6_700;

/// Pass threshold among votes cast (51%).
pub const PASS_THRESHOLD_BPS: u16 = 5_100;

/// Creator buy-in cap as a share of the bond target (1%).
pub const CREATOR_MAX_BUY_BPS: u16 = 100;

/// Share of a launched token's supply committed to the liquidity position (80%).
pub const LP_ALLOCATION_BPS: u16 = 8_000;

/// Volume threshold used by the unwind observation check when the protocol
/// has not configured one (1.25% of deposits over the window).
pub const DEFAULT_UNWIND_VOLUME_THRESHOLD_BPS: u64 = 125;

// ------------------------------------------------------------
// Protocol defaults
// ------------------------------------------------------------

/// Default minimum bond target (50 whole units).
pub const MIN_BOND_TARGET: u64 = 50_000_000_000;

/// Default minimum single deposit (0.1 whole units).
pub const MIN_DEPOSIT: u64 = 100_000_000;

/// Default minimum fee (0.05 whole units).
pub const MIN_FEE: u64 = 50_000_000;

/// Default fee to open an unwind proposal (0.05 whole units).
pub const GOVERNANCE_UNWIND_FEE: u64 = 50_000_000;

/// Floor for the configurable fee-growth threshold.
pub const MIN_FEE_GROWTH_THRESHOLD: u128 = 1_000;

} // verus!
