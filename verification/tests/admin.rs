use sovereign_liquidity::admin::{
    initialize_protocol, renounce_fee_threshold, renounce_sell_fee, set_protocol_paused,
    transfer_protocol_authority, update_fee_threshold, update_protocol_fees, update_sell_fee,
};
use sovereign_liquidity::errors::SovereignError;
use sovereign_liquidity::finalize::{
    finalize_add_liquidity, finalize_create_pool, mint_genesis_nft,
};
use sovereign_liquidity::launch::{create_sovereign, create_token, CreateSovereignParams};
use sovereign_liquidity::state::{
    CreatorFeeTracker, DepositRecord, FeeMode, PermanentLock, ProtocolState, SovereignState,
    SovereignStatus, SovereignType,
};

const AUTHORITY: u64 = 1;
const CREATOR: u64 = 11;

fn protocol() -> ProtocolState {
    initialize_protocol(AUTHORITY, 2)
}

fn launch_params() -> CreateSovereignParams {
    CreateSovereignParams {
        sovereign_type: SovereignType::TokenLaunch,
        bond_target: 100_000_000_000,
        bond_duration: 7 * 86_400,
        token_supply: Some(1_000_000_000),
        sell_fee_bps: Some(100),
        fee_mode: Some(FeeMode::FairLaunch),
        deposit_amount: None,
        token_mint: 0,
        token_total_supply: 0,
        amm_config: 3,
        swap_fee_bps: 30,
    }
}

fn empty_lock() -> PermanentLock {
    PermanentLock {
        pool_state: 0,
        position_mint: 0,
        liquidity: 0,
        tick_lower_index: -443_630,
        tick_upper_index: 443_630,
        unwound: false,
        created_at: 0,
        unwound_at: 0,
    }
}

#[test]
fn protocol_defaults() {
    let p = protocol();
    assert_eq!(p.creation_fee_bps, 50);
    assert_eq!(p.unwind_fee_bps, 2_000);
    assert_eq!(p.byo_min_supply_bps, 3_000);
    assert_eq!(p.min_bond_target, 50_000_000_000);
    assert_eq!(p.min_deposit, 100_000_000);
    assert!(!p.paused);
    assert_eq!(p.sovereign_count, 0);
}

#[test]
fn fee_updates_respect_caps() {
    let mut p = protocol();
    assert_eq!(
        update_protocol_fees(&mut p, CREATOR, None, None, None, None, None, None).unwrap_err(),
        SovereignError::Unauthorized
    );
    assert_eq!(
        update_protocol_fees(&mut p, AUTHORITY, Some(1_001), None, None, None, None, None)
            .unwrap_err(),
        SovereignError::FeeTooHigh
    );
    assert_eq!(
        update_protocol_fees(&mut p, AUTHORITY, None, None, Some(0), None, None, None).unwrap_err(),
        SovereignError::InvalidAmount
    );
    assert_eq!(
        update_protocol_fees(&mut p, AUTHORITY, None, None, None, None, Some(2_001), None)
            .unwrap_err(),
        SovereignError::FeeTooHigh
    );
    update_protocol_fees(
        &mut p,
        AUTHORITY,
        Some(100),
        Some(1),
        Some(2),
        Some(3),
        Some(1_500),
        Some(250),
    )
    .unwrap();
    assert_eq!(p.creation_fee_bps, 100);
    assert_eq!(p.min_fee_lamports, 1);
    assert_eq!(p.min_deposit, 2);
    assert_eq!(p.min_bond_target, 3);
    assert_eq!(p.unwind_fee_bps, 1_500);
    assert_eq!(p.min_fee_growth_threshold, 250);
}

#[test]
fn authority_transfer_and_pause() {
    let mut p = protocol();
    transfer_protocol_authority(&mut p, AUTHORITY, 55).unwrap();
    assert_eq!(p.authority, 55);
    assert_eq!(
        set_protocol_paused(&mut p, AUTHORITY, true).unwrap_err(),
        SovereignError::Unauthorized
    );
    set_protocol_paused(&mut p, 55, true).unwrap();
    assert!(p.paused);
}

#[test]
fn creation_escrows_the_fee_and_counts() {
    let mut p = protocol();
    let (s, tracker, fee) = create_sovereign(&mut p, launch_params(), CREATOR, 1_000).unwrap();
    // 50 bps of the 100_000_000_000 target
    assert_eq!(fee, 500_000_000);
    assert_eq!(s.creation_fee_escrowed, fee);
    assert_eq!(s.sovereign_id, 1);
    assert_eq!(p.sovereign_count, 1);
    assert_eq!(s.state, SovereignStatus::Bonding);
    assert_eq!(s.bond_deadline, 1_000 + 7 * 86_400);
    assert_eq!(s.fee_mode, FeeMode::FairLaunch);
    assert_eq!(tracker.creator, CREATOR);
    assert_eq!(tracker.pending_withdrawal, 0);
}

#[test]
fn creation_validation_ladder() {
    let mut p = protocol();
    let mut small = launch_params();
    small.bond_target = 1;
    assert_eq!(
        create_sovereign(&mut p, small, CREATOR, 1_000).unwrap_err(),
        SovereignError::InvalidBondTarget
    );
    let mut short = launch_params();
    short.bond_duration = 86_400;
    assert_eq!(
        create_sovereign(&mut p, short, CREATOR, 1_000).unwrap_err(),
        SovereignError::InvalidBondDuration
    );
    let mut missing = launch_params();
    missing.token_supply = None;
    assert_eq!(
        create_sovereign(&mut p, missing, CREATOR, 1_000).unwrap_err(),
        SovereignError::MissingTokenParams
    );
    let mut steep = launch_params();
    steep.sell_fee_bps = Some(301);
    assert_eq!(
        create_sovereign(&mut p, steep, CREATOR, 1_000).unwrap_err(),
        SovereignError::SellFeeExceedsMax
    );
}

#[test]
fn brought_asset_needs_its_supply_share() {
    let mut p = protocol();
    let mut byo = launch_params();
    byo.sovereign_type = SovereignType::BYOToken;
    byo.token_supply = None;
    byo.token_mint = 77;
    byo.token_total_supply = 1_000_000;
    byo.deposit_amount = Some(200_000);
    // 20% of supply is under the 30% floor
    assert_eq!(
        create_sovereign(&mut p, byo, CREATOR, 1_000).unwrap_err(),
        SovereignError::InsufficientTokenDeposit
    );
    byo.deposit_amount = Some(300_000);
    let (s, _, _) = create_sovereign(&mut p, byo, CREATOR, 1_000).unwrap();
    assert_eq!(s.sovereign_type, SovereignType::BYOToken);
    assert_eq!(s.token_mint, 77);
    assert_eq!(s.token_supply_deposited, 300_000);
    assert_eq!(s.sell_fee_bps, 0);
}

#[test]
fn token_issuance_validates_and_binds_the_mint() {
    let mut p = protocol();
    let (mut s, _, _) = create_sovereign(&mut p, launch_params(), CREATOR, 1_000).unwrap();
    assert_eq!(
        create_token(&mut s, 0, 4, 20, 99).unwrap_err(),
        SovereignError::InvalidTokenName
    );
    assert_eq!(
        create_token(&mut s, 4, 11, 20, 99).unwrap_err(),
        SovereignError::InvalidTokenSymbol
    );
    assert_eq!(
        create_token(&mut s, 4, 4, 201, 99).unwrap_err(),
        SovereignError::InvalidMetadataUri
    );
    let minted = create_token(&mut s, 4, 4, 20, 99).unwrap();
    assert_eq!(minted, 1_000_000_000);
    assert_eq!(s.token_mint, 99);
}

#[test]
fn finalization_commits_the_allocation_and_starts_recovery() {
    let mut p = protocol();
    let (mut s, _, _) = create_sovereign(&mut p, launch_params(), CREATOR, 1_000).unwrap();
    s.state = SovereignStatus::Finalizing;
    s.total_deposited = 100_000_000_000;
    let plan = finalize_create_pool(&p, &mut s, 1_000_000_000, 42).unwrap();
    // 80% of the vault tokens, then the 1% sell fee withheld on transfer
    assert_eq!(plan.lp_tokens, 800_000_000);
    assert_eq!(plan.tokens_for_price, 800_000_000 - 8_000_000);
    assert_eq!(s.state, SovereignStatus::PoolCreated);
    assert_eq!(s.pool_state, 42);
    let mut lock = empty_lock();
    let liquidity_plan =
        finalize_add_liquidity(&p, &mut s, &mut lock, 100_000_000_000, 1_000_000_000, 43, 5_000, 2_000)
            .unwrap();
    assert_eq!(liquidity_plan.funding_amount, 100_000_000_000);
    assert_eq!(liquidity_plan.lp_tokens, 800_000_000);
    assert_eq!(liquidity_plan.tokens_in_position, 792_000_000);
    assert_eq!(s.state, SovereignStatus::Recovery);
    assert_eq!(s.recovery_target, 100_000_000_000);
    assert_eq!(lock.liquidity, 5_000);
    assert_eq!(lock.pool_state, 42);
}

#[test]
fn claim_token_fixes_the_share_once() {
    let mut p = protocol();
    let (mut s, _, _) = create_sovereign(&mut p, launch_params(), CREATOR, 1_000).unwrap();
    s.state = SovereignStatus::Recovery;
    s.total_deposited = 1_000;
    let mut r = DepositRecord::new(5);
    r.amount = 250;
    let share = mint_genesis_nft(&s, &mut r, 9).unwrap();
    assert_eq!(share, 2_500);
    assert!(r.nft_minted);
    assert_eq!(r.voting_power_bps, 2_500);
    assert_eq!(r.shares_bps, 2_500);
    assert_eq!(
        mint_genesis_nft(&s, &mut r, 9).unwrap_err(),
        SovereignError::NFTAlreadyMinted
    );
}

#[test]
fn fee_threshold_only_ever_falls() {
    let mut p = protocol();
    let (mut s, mut t, _) = create_sovereign(&mut p, launch_params(), CREATOR, 1_000).unwrap();
    assert_eq!(s.fee_threshold_bps, 10_000);
    update_fee_threshold(&mut s, &t, CREATOR, 4_000).unwrap();
    assert_eq!(s.fee_threshold_bps, 4_000);
    assert_eq!(
        update_fee_threshold(&mut s, &t, CREATOR, 5_000).unwrap_err(),
        SovereignError::CannotIncreaseFeeThreshold
    );
    renounce_fee_threshold(&mut s, &mut t, CREATOR).unwrap();
    assert_eq!(s.fee_threshold_bps, 0);
    assert!(t.threshold_renounced);
    assert_eq!(
        update_fee_threshold(&mut s, &t, CREATOR, 0).unwrap_err(),
        SovereignError::FeeThresholdRenounced
    );
}

#[test]
fn sell_fee_control_and_renunciation() {
    let mut p = protocol();
    let (mut s, _, _) = create_sovereign(&mut p, launch_params(), CREATOR, 1_000).unwrap();
    assert_eq!(
        update_sell_fee(&mut s, 5, 200).unwrap_err(),
        SovereignError::Unauthorized
    );
    assert_eq!(
        update_sell_fee(&mut s, CREATOR, 301).unwrap_err(),
        SovereignError::SellFeeExceedsMax
    );
    update_sell_fee(&mut s, CREATOR, 200).unwrap();
    assert_eq!(s.sell_fee_bps, 200);
    // a fair launch may renounce at any phase
    renounce_sell_fee(&mut s, CREATOR).unwrap();
    assert_eq!(s.sell_fee_bps, 0);
    assert!(s.fee_control_renounced);
    assert_eq!(
        update_sell_fee(&mut s, CREATOR, 100).unwrap_err(),
        SovereignError::FeeControlRenounced
    );
}

#[test]
fn sell_fee_renounce_waits_for_active_outside_fair_launch() {
    let mut p = protocol();
    let mut params = launch_params();
    params.fee_mode = Some(FeeMode::CreatorRevenue);
    let (mut s, _, _) = create_sovereign(&mut p, params, CREATOR, 1_000).unwrap();
    assert_eq!(
        renounce_sell_fee(&mut s, CREATOR).unwrap_err(),
        SovereignError::RecoveryNotComplete
    );
    s.state = SovereignStatus::Active;
    renounce_sell_fee(&mut s, CREATOR).unwrap();
    assert!(s.fee_control_renounced);
}

#[test]
fn pool_creation_guards() {
    let mut p = protocol();
    let (mut s, _, _) = create_sovereign(&mut p, launch_params(), CREATOR, 1_000).unwrap();
    assert_eq!(
        finalize_create_pool(&p, &mut s, 1_000, 42).unwrap_err(),
        SovereignError::InvalidState
    );
    s.state = SovereignStatus::Finalizing;
    assert_eq!(
        finalize_create_pool(&p, &mut s, 1_000, 42).unwrap_err(),
        SovereignError::BondTargetNotMet
    );
    s.total_deposited = s.bond_target;
    s.pool_state = 7;
    assert_eq!(
        finalize_create_pool(&p, &mut s, 1_000, 42).unwrap_err(),
        SovereignError::PoolAlreadyCreated
    );
    // the liquidity step needs the pool first
    s.state = SovereignStatus::PoolCreated;
    s.pool_state = 0;
    let mut lock = empty_lock();
    assert_eq!(
        finalize_add_liquidity(&p, &mut s, &mut lock, 1, 1, 43, 1, 2_000).unwrap_err(),
        SovereignError::PoolNotCreated
    );
}

#[test]
fn issuance_needs_a_positive_supply() {
    let mut p = protocol();
    let (mut s, _, _) = create_sovereign(&mut p, launch_params(), CREATOR, 1_000).unwrap();
    s.token_total_supply = 0;
    assert_eq!(
        create_token(&mut s, 4, 4, 20, 99).unwrap_err(),
        SovereignError::InvalidTokenSupply
    );
}

#[test]
fn sell_fee_is_a_launch_feature() {
    let mut p = protocol();
    let mut byo = launch_params();
    byo.sovereign_type = SovereignType::BYOToken;
    byo.token_supply = None;
    byo.token_mint = 77;
    byo.token_total_supply = 1_000_000;
    byo.deposit_amount = Some(500_000);
    let (mut s, _, _) = create_sovereign(&mut p, byo, CREATOR, 1_000).unwrap();
    assert_eq!(
        update_sell_fee(&mut s, CREATOR, 100).unwrap_err(),
        SovereignError::InvalidSovereignType
    );
}
