use sovereign_liquidity::admin::initialize_protocol;
use sovereign_liquidity::bonding::{
    deposit, mark_bonding_failed, withdraw, withdraw_creator_failed, withdraw_failed,
};
use sovereign_liquidity::errors::SovereignError;
use sovereign_liquidity::launch::{create_sovereign, CreateSovereignParams};
use sovereign_liquidity::state::{
    CreatorFeeTracker, DepositRecord, FeeMode, ProtocolState, SovereignState, SovereignStatus,
    SovereignType,
};

const CREATOR: u64 = 11;
const TARGET: u64 = 100_000_000_000;

fn protocol() -> ProtocolState {
    initialize_protocol(1, 2)
}

fn launch_params() -> CreateSovereignParams {
    CreateSovereignParams {
        sovereign_type: SovereignType::TokenLaunch,
        bond_target: TARGET,
        bond_duration: 7 * 86_400,
        token_supply: Some(1_000_000_000),
        sell_fee_bps: Some(100),
        fee_mode: Some(FeeMode::RecoveryBoost),
        deposit_amount: None,
        token_mint: 0,
        token_total_supply: 0,
        amm_config: 3,
        swap_fee_bps: 30,
    }
}

fn new_sovereign() -> (ProtocolState, SovereignState, CreatorFeeTracker) {
    let mut p = protocol();
    let (s, t, _fee) = create_sovereign(&mut p, launch_params(), CREATOR, 1_000).unwrap();
    (p, s, t)
}

#[test]
fn pledge_counts_toward_target() {
    let (p, mut s, _) = new_sovereign();
    let mut r = DepositRecord::new(5);
    let accepted = deposit(&p, &mut s, &mut r, 5, 40_000_000_000, 1_000).unwrap();
    assert_eq!(accepted, 40_000_000_000);
    assert_eq!(s.total_deposited, 40_000_000_000);
    assert_eq!(r.amount, 40_000_000_000);
    assert_eq!(s.depositor_count, 1);
    assert_eq!(s.state, SovereignStatus::Bonding);
}

#[test]
fn pledge_sequence_flips_phase_exactly_on_crossing() {
    // Pledges summing to exactly the target: the phase flips on the pledge
    // that crosses the threshold, never before, and no pledge is accepted
    // after.
    let (p, mut s, _) = new_sovereign();
    let mut r1 = DepositRecord::new(5);
    let mut r2 = DepositRecord::new(6);
    let mut r3 = DepositRecord::new(7);
    deposit(&p, &mut s, &mut r1, 5, 30_000_000_000, 1_000).unwrap();
    assert_eq!(s.state, SovereignStatus::Bonding);
    deposit(&p, &mut s, &mut r2, 6, 30_000_000_000, 1_000).unwrap();
    assert_eq!(s.state, SovereignStatus::Bonding);
    let accepted = deposit(&p, &mut s, &mut r3, 7, 40_000_000_000, 1_000).unwrap();
    assert_eq!(accepted, 40_000_000_000);
    assert_eq!(s.total_deposited, TARGET);
    assert_eq!(s.state, SovereignStatus::Finalizing);
    // once Finalizing, a further pledge is refused and changes nothing
    let mut r4 = DepositRecord::new(8);
    let err = deposit(&p, &mut s, &mut r4, 8, 1_000_000_000, 1_000).unwrap_err();
    assert_eq!(err, SovereignError::InvalidState);
    assert_eq!(s.total_deposited, TARGET);
    assert_eq!(r4.amount, 0);
}

#[test]
fn oversized_pledge_is_capped_at_the_gap() {
    let (p, mut s, _) = new_sovereign();
    let mut r1 = DepositRecord::new(5);
    deposit(&p, &mut s, &mut r1, 5, 90_000_000_000, 1_000).unwrap();
    let mut r2 = DepositRecord::new(6);
    // the gap is 10; a pledge of 50 accepts exactly the gap
    let accepted = deposit(&p, &mut s, &mut r2, 6, 50_000_000_000, 1_000).unwrap();
    assert_eq!(accepted, 10_000_000_000);
    assert_eq!(r2.amount, 10_000_000_000);
    assert_eq!(s.total_deposited, TARGET);
    assert!(r2.amount <= s.bond_target);
    assert_eq!(s.state, SovereignStatus::Finalizing);
}

#[test]
fn ledger_sum_matches_total_after_pledges_and_withdrawals() {
    let (p, mut s, _) = new_sovereign();
    let mut r1 = DepositRecord::new(5);
    let mut r2 = DepositRecord::new(6);
    deposit(&p, &mut s, &mut r1, 5, 25_000_000_000, 1_000).unwrap();
    deposit(&p, &mut s, &mut r2, 6, 35_000_000_000, 1_000).unwrap();
    assert_eq!(r1.amount + r2.amount, s.total_deposited);
    let vault = s.total_deposited;
    withdraw(&p, &mut s, &mut r1, 5, 10_000_000_000, vault).unwrap();
    assert_eq!(r1.amount + r2.amount, s.total_deposited);
    let vault = s.total_deposited;
    withdraw(&p, &mut s, &mut r2, 6, 35_000_000_000, vault).unwrap();
    assert_eq!(r1.amount + r2.amount, s.total_deposited);
    assert_eq!(s.depositor_count, 1);
}

#[test]
fn creator_pledge_goes_to_escrow_with_one_percent_cap() {
    let (p, mut s, _) = new_sovereign();
    let mut r = DepositRecord::new(CREATOR);
    // 1% of the target is the cap
    let accepted = deposit(&p, &mut s, &mut r, CREATOR, 1_000_000_000, 1_000).unwrap();
    assert_eq!(accepted, 1_000_000_000);
    assert_eq!(s.creator_escrow, 1_000_000_000);
    assert_eq!(s.total_deposited, 0);
    let err = deposit(&p, &mut s, &mut r, CREATOR, 200_000_000, 1_000).unwrap_err();
    assert_eq!(err, SovereignError::CreatorDepositExceedsMax);
    assert_eq!(s.creator_escrow, 1_000_000_000);
}

#[test]
fn deposit_error_ladder() {
    let (p, mut s, _) = new_sovereign();
    let mut r = DepositRecord::new(5);
    let mut paused = p;
    paused.paused = true;
    assert_eq!(
        deposit(&paused, &mut s, &mut r, 5, 1_000_000_000, 1_000).unwrap_err(),
        SovereignError::ProtocolPaused
    );
    assert_eq!(
        deposit(&p, &mut s, &mut r, 5, 1_000_000_000, 700_000).unwrap_err(),
        SovereignError::DeadlinePassed
    );
    assert_eq!(
        deposit(&p, &mut s, &mut r, 5, 0, 1_000).unwrap_err(),
        SovereignError::ZeroDeposit
    );
    assert_eq!(
        deposit(&p, &mut s, &mut r, 5, 1, 1_000).unwrap_err(),
        SovereignError::DepositTooSmall
    );
    s.state = SovereignStatus::Failed;
    assert_eq!(
        deposit(&p, &mut s, &mut r, 5, 1_000_000_000, 1_000).unwrap_err(),
        SovereignError::InvalidState
    );
}

#[test]
fn withdraw_returns_funds_and_keeps_counts() {
    let (p, mut s, _) = new_sovereign();
    let mut r = DepositRecord::new(5);
    deposit(&p, &mut s, &mut r, 5, 20_000_000_000, 1_000).unwrap();
    let paid = withdraw(&p, &mut s, &mut r, 5, 5_000_000_000, 20_000_000_000).unwrap();
    assert_eq!(paid, 5_000_000_000);
    assert_eq!(r.amount, 15_000_000_000);
    assert_eq!(s.total_deposited, 15_000_000_000);
    assert_eq!(s.depositor_count, 1);
    withdraw(&p, &mut s, &mut r, 5, 15_000_000_000, 15_000_000_000).unwrap();
    assert_eq!(s.depositor_count, 0);
    assert_eq!(s.total_deposited, 0);
}

#[test]
fn withdraw_error_ladder() {
    let (p, mut s, _) = new_sovereign();
    let mut r = DepositRecord::new(5);
    deposit(&p, &mut s, &mut r, 5, 20_000_000_000, 1_000).unwrap();
    assert_eq!(
        withdraw(&p, &mut s, &mut r, 6, 1, 100).unwrap_err(),
        SovereignError::Unauthorized
    );
    assert_eq!(
        withdraw(&p, &mut s, &mut r, 5, 0, 100).unwrap_err(),
        SovereignError::ZeroWithdraw
    );
    assert_eq!(
        withdraw(&p, &mut s, &mut r, 5, 30_000_000_000, 100).unwrap_err(),
        SovereignError::InsufficientDepositBalance
    );
    assert_eq!(
        withdraw(&p, &mut s, &mut r, 5, 10_000_000_000, 100).unwrap_err(),
        SovereignError::InsufficientVaultBalance
    );
    let mut creator_record = DepositRecord::new(CREATOR);
    creator_record.amount = 1;
    assert_eq!(
        withdraw(&p, &mut s, &mut creator_record, CREATOR, 1, 100).unwrap_err(),
        SovereignError::CreatorCannotWithdrawDuringBonding
    );
}

#[test]
fn bonding_fails_only_after_deadline_with_target_unmet() {
    let (p, mut s, _) = new_sovereign();
    let mut r = DepositRecord::new(5);
    deposit(&p, &mut s, &mut r, 5, 20_000_000_000, 1_000).unwrap();
    assert_eq!(
        mark_bonding_failed(&mut s, 1_000).unwrap_err(),
        SovereignError::DeadlineNotPassed
    );
    mark_bonding_failed(&mut s, 700_000).unwrap();
    assert_eq!(s.state, SovereignStatus::Failed);
    assert_eq!(
        mark_bonding_failed(&mut s, 700_000).unwrap_err(),
        SovereignError::InvalidState
    );
}

#[test]
fn bond_target_met_blocks_failure() {
    let (p, mut s, _) = new_sovereign();
    let mut r = DepositRecord::new(5);
    deposit(&p, &mut s, &mut r, 5, TARGET, 1_000).unwrap();
    // phase already flipped, so the failure path reports the wrong phase
    assert_eq!(
        mark_bonding_failed(&mut s, 700_000).unwrap_err(),
        SovereignError::InvalidState
    );
}

#[test]
fn failed_bonding_refunds_investor_in_full() {
    let (p, mut s, _) = new_sovereign();
    let mut r = DepositRecord::new(5);
    deposit(&p, &mut s, &mut r, 5, 20_000_000_000, 1_000).unwrap();
    mark_bonding_failed(&mut s, 700_000).unwrap();
    let refund = withdraw_failed(&s, &mut r, 5, 20_000_000_000).unwrap();
    assert_eq!(refund, 20_000_000_000);
    assert_eq!(r.amount, 0);
    assert!(r.refund_claimed);
    assert_eq!(
        withdraw_failed(&s, &mut r, 5, 20_000_000_000).unwrap_err(),
        SovereignError::NothingToWithdraw
    );
}

#[test]
fn failed_bonding_returns_creator_escrow() {
    let (p, mut s, _) = new_sovereign();
    let mut cr = DepositRecord::new(CREATOR);
    deposit(&p, &mut s, &mut cr, CREATOR, 500_000_000, 1_000).unwrap();
    mark_bonding_failed(&mut s, 700_000).unwrap();
    assert_eq!(
        withdraw_creator_failed(&mut s, 5, 500_000_000).unwrap_err(),
        SovereignError::Unauthorized
    );
    let escrow = withdraw_creator_failed(&mut s, CREATOR, 500_000_000).unwrap();
    assert_eq!(escrow, 500_000_000);
    assert_eq!(s.creator_escrow, 0);
}

#[test]
fn target_already_reached_refuses_new_pledges() {
    let (p, mut s, _) = new_sovereign();
    // a total at the target with the phase not yet advanced still refuses
    s.total_deposited = TARGET;
    let mut r = DepositRecord::new(5);
    assert_eq!(
        deposit(&p, &mut s, &mut r, 5, 1_000_000_000, 1_000).unwrap_err(),
        SovereignError::BondingComplete
    );
    assert_eq!(
        mark_bonding_failed(&mut s, 700_000).unwrap_err(),
        SovereignError::BondTargetMet
    );
}

#[test]
fn creator_must_use_the_creator_refund() {
    let (p, mut s, _) = new_sovereign();
    let mut cr = DepositRecord::new(CREATOR);
    deposit(&p, &mut s, &mut cr, CREATOR, 500_000_000, 1_000).unwrap();
    mark_bonding_failed(&mut s, 700_000).unwrap();
    assert_eq!(
        withdraw_failed(&s, &mut cr, CREATOR, 1_000_000_000).unwrap_err(),
        SovereignError::CreatorMustUseCreatorWithdraw
    );
}
