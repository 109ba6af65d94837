use sovereign_liquidity::activity::{
    cancel_activity_check, execute_activity_check, initiate_activity_check,
};
use sovereign_liquidity::admin::initialize_protocol;
use sovereign_liquidity::emergency::{
    emergency_remove_liquidity, emergency_token_redemption, emergency_unlock, emergency_withdraw,
    emergency_withdraw_creator, sweep_redemption_pool, TokenDisposal,
};
use sovereign_liquidity::errors::SovereignError;
use sovereign_liquidity::state::{
    DepositRecord, FeeMode, PermanentLock, ProtocolState, SovereignState, SovereignStatus,
    SovereignType,
};

const AUTHORITY: u64 = 1;
const CREATOR: u64 = 11;

fn protocol() -> ProtocolState {
    initialize_protocol(AUTHORITY, 2)
}

fn sovereign_in(state: SovereignStatus) -> SovereignState {
    let mut p = protocol();
    let params = sovereign_liquidity::launch::CreateSovereignParams {
        sovereign_type: SovereignType::TokenLaunch,
        bond_target: 50_000_000_000,
        bond_duration: 7 * 86_400,
        token_supply: Some(1_000_000_000),
        sell_fee_bps: Some(100),
        fee_mode: Some(FeeMode::RecoveryBoost),
        deposit_amount: None,
        token_mint: 0,
        token_total_supply: 0,
        amm_config: 3,
        swap_fee_bps: 30,
    };
    let (mut s, _, _) = sovereign_liquidity::launch::create_sovereign(&mut p, params, CREATOR, 1_000)
        .unwrap();
    s.state = state;
    s.token_mint = 21;
    s
}

fn lock_with_liquidity() -> PermanentLock {
    PermanentLock {
        pool_state: 42,
        position_mint: 43,
        liquidity: 1_000_000,
        tick_lower_index: -443_630,
        tick_upper_index: 443_630,
        unwound: false,
        created_at: 0,
        unwound_at: 0,
    }
}

#[test]
fn unlock_is_authority_only_and_spares_terminal_phases() {
    let p = protocol();
    let mut s = sovereign_in(SovereignStatus::Recovery);
    assert_eq!(
        emergency_unlock(&p, &mut s, CREATOR).unwrap_err(),
        SovereignError::Unauthorized
    );
    emergency_unlock(&p, &mut s, AUTHORITY).unwrap();
    assert_eq!(s.state, SovereignStatus::EmergencyUnlocked);
    assert_eq!(
        emergency_unlock(&p, &mut s, AUTHORITY).unwrap_err(),
        SovereignError::AlreadyEmergencyUnlocked
    );
    let mut unwound = sovereign_in(SovereignStatus::Unwound);
    assert_eq!(
        emergency_unlock(&p, &mut unwound, AUTHORITY).unwrap_err(),
        SovereignError::InvalidState
    );
    let mut failed = sovereign_in(SovereignStatus::Failed);
    assert_eq!(
        emergency_unlock(&p, &mut failed, AUTHORITY).unwrap_err(),
        SovereignError::InvalidState
    );
}

#[test]
fn removal_applies_the_solvency_formula() {
    // principal (bond target) 1000, supply 1_000_000, pool tokens 500_000,
    // pool funding 2000 -> reserve 2002, nothing extracted
    let p = protocol();
    let mut s = sovereign_in(SovereignStatus::EmergencyUnlocked);
    s.bond_target = 1_000;
    s.total_deposited = 1_000;
    let mut lock = lock_with_liquidity();
    let removal = emergency_remove_liquidity(
        &p, &mut s, &mut lock, AUTHORITY, 1_500, 2_000, 500_000, 1_000_000, 0, 0, 50_000,
    )
    .unwrap();
    assert_eq!(removal.extracted, 0);
    assert_eq!(removal.returned_to_pool, 1_500);
    assert_eq!(s.unwind_sol_balance, 0);
    assert_eq!(lock.liquidity, 0);
    // the zeroed liquidity guards against a second drain
    assert_eq!(
        emergency_remove_liquidity(
            &p, &mut s, &mut lock, AUTHORITY, 1_500, 2_000, 500_000, 1_000_000, 0, 0, 50_000,
        )
        .unwrap_err(),
        SovereignError::NothingToWithdraw
    );
}

#[test]
fn removal_surplus_seeds_the_redemption_pool() {
    let p = protocol();
    let mut s = sovereign_in(SovereignStatus::EmergencyUnlocked);
    s.bond_target = 1_000;
    s.total_deposited = 1_000;
    let mut lock = lock_with_liquidity();
    // pool keeps its 2002 reserve; the holding of 9_000 may leave up to
    // 20_000 - 2_002, so all 9_000 is extracted; surplus is 8_000
    let removal = emergency_remove_liquidity(
        &p, &mut s, &mut lock, AUTHORITY, 9_000, 20_000, 500_000, 1_000_000, 600_000, 500, 50_000,
    )
    .unwrap();
    assert_eq!(removal.extracted, 9_000);
    assert_eq!(removal.surplus, 8_000);
    assert_eq!(removal.surplus_to_treasury, 0);
    assert_eq!(s.unwind_sol_balance, 9_000);
    assert_eq!(s.token_redemption_pool, 8_000);
    assert_eq!(s.circulating_tokens_at_unwind, 1_000_000 - 600_000 - 500);
    assert_eq!(s.token_redemption_deadline, 50_000 + 30 * 86_400);
}

#[test]
fn investor_reclaims_pledge_before_finalization() {
    let mut s = sovereign_in(SovereignStatus::EmergencyUnlocked);
    s.total_deposited = 10_000;
    let mut r = DepositRecord::new(5);
    r.amount = 4_000;
    let (paid, retired) = emergency_withdraw(&mut s, &mut r, 5, 5, 10_000).unwrap();
    assert_eq!(paid, 4_000);
    assert!(!retired);
    assert_eq!(r.amount, 0);
    // only the original depositor may reclaim before the claim token exists
    let mut r2 = DepositRecord::new(6);
    r2.amount = 1_000;
    assert_eq!(
        emergency_withdraw(&mut s, &mut r2, 7, 6, 10_000).unwrap_err(),
        SovereignError::Unauthorized
    );
}

#[test]
fn bearer_reclaim_is_proportional_and_capped() {
    let mut s = sovereign_in(SovereignStatus::EmergencyUnlocked);
    s.total_deposited = 1_000;
    s.unwind_sol_balance = 5_000;
    let mut r = DepositRecord::new(5);
    r.amount = 100;
    r.nft_minted = true;
    r.nft_mint = Some(9);
    // share 5000 * 100 / 1000 = 500, capped at the 100 pledge
    let (paid, _) = emergency_withdraw(&mut s, &mut r, 77, 5, 10_000).unwrap();
    assert_eq!(paid, 100);
}

#[test]
fn last_reclaim_retires_the_sovereign() {
    let mut s = sovereign_in(SovereignStatus::EmergencyUnlocked);
    s.total_deposited = 4_000;
    s.creation_fee_escrowed = 0;
    s.token_supply_deposited = 0;
    let mut r = DepositRecord::new(5);
    r.amount = 4_000;
    let (paid, retired) = emergency_withdraw(&mut s, &mut r, 5, 5, 4_000).unwrap();
    assert_eq!(paid, 4_000);
    assert!(retired);
    assert_eq!(s.state, SovereignStatus::Retired);
}

#[test]
fn creator_reclaims_escrow_and_tokens() {
    let mut s = sovereign_in(SovereignStatus::EmergencyUnlocked);
    s.creator_escrow = 300;
    s.token_supply_deposited = 1_000_000;
    let (escrow, disposal, retired) =
        emergency_withdraw_creator(&mut s, CREATOR, 300, 1_000_000, true).unwrap();
    assert_eq!(escrow, 300);
    assert_eq!(disposal, TokenDisposal::Burn);
    assert!(retired);
    assert_eq!(s.creator_escrow, 0);
    assert_eq!(s.creation_fee_escrowed, 0);
    assert_eq!(s.token_supply_deposited, 0);
    assert_eq!(s.state, SovereignStatus::Retired);
}

#[test]
fn brought_asset_tokens_are_never_burned() {
    let mut s = sovereign_in(SovereignStatus::EmergencyUnlocked);
    s.sovereign_type = SovereignType::BYOToken;
    s.token_supply_deposited = 500;
    let (_, disposal, _) = emergency_withdraw_creator(&mut s, CREATOR, 0, 500, true).unwrap();
    assert_eq!(disposal, TokenDisposal::Transfer);
}

#[test]
fn redemptions_decrement_pool_and_snapshot_consistently() {
    let mut s = sovereign_in(SovereignStatus::EmergencyUnlocked);
    s.token_redemption_pool = 10_000;
    s.circulating_tokens_at_unwind = 1_000;
    s.token_redemption_deadline = 100_000;
    let initial_pool = s.token_redemption_pool;
    let initial_circulating = s.circulating_tokens_at_unwind;
    let burns = [100u64, 250, 400];
    let mut paid_sum = 0u64;
    let mut burned_sum = 0u64;
    for &b in burns.iter() {
        // the rate is recomputed fresh from the current pool and snapshot
        let expected = b as u128 * s.token_redemption_pool as u128
            / s.circulating_tokens_at_unwind as u128;
        let paid = emergency_token_redemption(&mut s, b, 1_000_000, 50_000).unwrap();
        assert_eq!(paid as u128, expected);
        paid_sum += paid;
        burned_sum += b;
        assert_eq!(s.token_redemption_pool, initial_pool - paid_sum);
        assert_eq!(s.circulating_tokens_at_unwind, initial_circulating - burned_sum);
    }
}

#[test]
fn redemption_error_ladder() {
    let mut s = sovereign_in(SovereignStatus::EmergencyUnlocked);
    assert_eq!(
        emergency_token_redemption(&mut s, 0, 1_000, 0).unwrap_err(),
        SovereignError::NoRedemptionPool
    );
    s.token_redemption_pool = 1_000;
    assert_eq!(
        emergency_token_redemption(&mut s, 0, 1_000, 0).unwrap_err(),
        SovereignError::NoCirculatingTokens
    );
    s.circulating_tokens_at_unwind = 100;
    assert_eq!(
        emergency_token_redemption(&mut s, 0, 1_000, 0).unwrap_err(),
        SovereignError::NothingToWithdraw
    );
    s.token_redemption_deadline = 10;
    assert_eq!(
        emergency_token_redemption(&mut s, 50, 1_000, 11).unwrap_err(),
        SovereignError::RedemptionWindowExpired
    );
    assert_eq!(
        emergency_token_redemption(&mut s, 50, 1, 10).unwrap_err(),
        SovereignError::InsufficientVaultBalance
    );
}

#[test]
fn sweep_closes_the_window_for_good() {
    let p = protocol();
    let mut s = sovereign_in(SovereignStatus::EmergencyUnlocked);
    s.token_redemption_pool = 700;
    s.circulating_tokens_at_unwind = 50;
    s.token_redemption_deadline = 10_000;
    assert_eq!(
        sweep_redemption_pool(&p, &mut s, AUTHORITY, 9_999).unwrap_err(),
        SovereignError::RedemptionWindowNotExpired
    );
    assert_eq!(
        sweep_redemption_pool(&p, &mut s, CREATOR, 20_000).unwrap_err(),
        SovereignError::Unauthorized
    );
    let swept = sweep_redemption_pool(&p, &mut s, AUTHORITY, 20_000).unwrap();
    assert_eq!(swept, 700);
    assert_eq!(s.token_redemption_pool, 0);
    assert_eq!(s.circulating_tokens_at_unwind, 0);
    assert_eq!(
        sweep_redemption_pool(&p, &mut s, AUTHORITY, 20_001).unwrap_err(),
        SovereignError::NoRedemptionPool
    );
}

#[test]
fn activity_check_round_trip() {
    let mut s = sovereign_in(SovereignStatus::Active);
    initiate_activity_check(&mut s, 10_000).unwrap();
    assert_eq!(
        initiate_activity_check(&mut s, 10_001).unwrap_err(),
        SovereignError::ActivityCheckAlreadyPending
    );
    // the creator shows up: check cancelled, cooldown recorded
    cancel_activity_check(&mut s, CREATOR, 20_000).unwrap();
    assert_eq!(s.activity_check_last_cancelled, 20_000);
    assert_eq!(
        initiate_activity_check(&mut s, 20_100).unwrap_err(),
        SovereignError::ActivityCheckCooldownNotElapsed
    );
    // after the cooldown it can start again, and elapse into an unwind
    let restart = 20_000 + 7 * 86_400;
    initiate_activity_check(&mut s, restart).unwrap();
    assert_eq!(
        execute_activity_check(&mut s, restart + 1).unwrap_err(),
        SovereignError::ActivityCheckPeriodNotElapsed
    );
    execute_activity_check(&mut s, restart + 90 * 86_400).unwrap();
    assert_eq!(s.state, SovereignStatus::Unwinding);
}

#[test]
fn cancel_without_a_pending_check_is_refused() {
    let mut s = sovereign_in(SovereignStatus::Active);
    assert_eq!(
        cancel_activity_check(&mut s, CREATOR, 10).unwrap_err(),
        SovereignError::NoActivityCheckPending
    );
    assert_eq!(
        cancel_activity_check(&mut s, 99, 10).unwrap_err(),
        SovereignError::Unauthorized
    );
}
