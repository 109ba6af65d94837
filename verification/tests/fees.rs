use sovereign_liquidity::admin::initialize_protocol;
use sovereign_liquidity::errors::SovereignError;
use sovereign_liquidity::fees::{
    claim_depositor_fees, claim_fees, swap_recovery_tokens, extraction_allowance,
    harvest_transfer_fees, route_funding_fees, route_token_fees, transfer_hook_fee,
    withdraw_creator_fees, FeeSplit, HarvestDestination, TokenFeeRoute,
};
use sovereign_liquidity::state::{
    CreatorFeeTracker, DepositRecord, FeeMode, ProtocolState, SovereignState, SovereignStatus,
    SovereignType,
};

fn protocol() -> ProtocolState {
    initialize_protocol(1, 2)
}

fn recovery_sovereign() -> SovereignState {
    let mut p = protocol();
    let params = sovereign_liquidity::launch::CreateSovereignParams {
        sovereign_type: SovereignType::TokenLaunch,
        bond_target: 50_000_000_000,
        bond_duration: 7 * 86_400,
        token_supply: Some(1_000_000_000),
        sell_fee_bps: Some(100),
        fee_mode: Some(FeeMode::RecoveryBoost),
        deposit_amount: None,
        token_mint: 0,
        token_total_supply: 0,
        amm_config: 3,
        swap_fee_bps: 30,
    };
    let (mut s, _, _) = sovereign_liquidity::launch::create_sovereign(&mut p, params, 11, 1_000)
        .unwrap();
    s.state = SovereignStatus::Recovery;
    s.total_deposited = 1_000_000;
    s.recovery_target = 1_000_000;
    s
}

#[test]
fn token_fee_routing_table() {
    assert_eq!(
        route_token_fees(FeeMode::RecoveryBoost, SovereignStatus::Recovery),
        TokenFeeRoute::SwapToInvestors
    );
    assert_eq!(
        route_token_fees(FeeMode::FairLaunch, SovereignStatus::Recovery),
        TokenFeeRoute::SwapToInvestors
    );
    assert_eq!(
        route_token_fees(FeeMode::CreatorRevenue, SovereignStatus::Recovery),
        TokenFeeRoute::SendToCreator
    );
    assert_eq!(
        route_token_fees(FeeMode::CreatorRevenue, SovereignStatus::Active),
        TokenFeeRoute::SendToCreator
    );
    assert_eq!(
        route_token_fees(FeeMode::RecoveryBoost, SovereignStatus::Active),
        TokenFeeRoute::SendToCreator
    );
    assert_eq!(
        route_token_fees(FeeMode::FairLaunch, SovereignStatus::Active),
        TokenFeeRoute::Burn
    );
}

#[test]
fn harvest_destination_table() {
    assert_eq!(
        harvest_transfer_fees(FeeMode::CreatorRevenue, SovereignStatus::Recovery),
        HarvestDestination::Creator
    );
    assert_eq!(
        harvest_transfer_fees(FeeMode::RecoveryBoost, SovereignStatus::Recovery),
        HarvestDestination::RecoveryVault
    );
    assert_eq!(
        harvest_transfer_fees(FeeMode::RecoveryBoost, SovereignStatus::Active),
        HarvestDestination::Creator
    );
    assert_eq!(
        harvest_transfer_fees(FeeMode::FairLaunch, SovereignStatus::Active),
        HarvestDestination::RecoveryVault
    );
}

#[test]
fn funding_split_in_recovery_goes_whole_to_investors() {
    let split = route_funding_fees(SovereignStatus::Recovery, FeeMode::CreatorRevenue, 10_000, 500, 12_345);
    assert_eq!(
        split,
        FeeSplit { creator: 0, investors: 12_345, protocol: 0 }
    );
}

#[test]
fn funding_split_in_active_takes_threshold_then_skim() {
    // threshold 4000 bps of 10_000 -> creator 4_000; skim 500 bps of the
    // remaining 6_000 -> 300; investors get 5_700
    let split = route_funding_fees(SovereignStatus::Active, FeeMode::CreatorRevenue, 4_000, 500, 10_000);
    assert_eq!(split.creator, 4_000);
    assert_eq!(split.protocol, 300);
    assert_eq!(split.investors, 5_700);
    // boost modes give the creator nothing in Active
    let boost = route_funding_fees(SovereignStatus::Active, FeeMode::RecoveryBoost, 4_000, 500, 10_000);
    assert_eq!(boost.creator, 0);
    assert_eq!(boost.protocol, 500);
    assert_eq!(boost.investors, 9_500);
}

#[test]
fn recovery_completes_atomically_on_the_crossing_collection() {
    let p = protocol();
    let mut s = recovery_sovereign();
    let mut t = CreatorFeeTracker::new(11);
    let first = claim_fees(&p, &mut s, &mut t, 0, 400_000).unwrap();
    assert!(!first.recovery_completed);
    assert_eq!(s.total_recovered, 400_000);
    assert_eq!(s.state, SovereignStatus::Recovery);
    let second = claim_fees(&p, &mut s, &mut t, 0, 600_000).unwrap();
    assert!(second.recovery_completed);
    assert!(second.lift_pool_restriction);
    assert_eq!(s.state, SovereignStatus::Active);
    assert!(s.recovery_complete);
    assert!(!s.pool_restricted);
}

#[test]
fn fair_launch_renounces_sell_fee_on_recovery_completion() {
    let p = protocol();
    let mut s = recovery_sovereign();
    s.fee_mode = FeeMode::FairLaunch;
    let mut t = CreatorFeeTracker::new(11);
    let outcome = claim_fees(&p, &mut s, &mut t, 0, 1_000_000).unwrap();
    assert!(outcome.recovery_completed);
    assert!(outcome.renounce_sell_fee);
    assert_eq!(s.sell_fee_bps, 0);
    assert!(s.fee_control_renounced);
}

#[test]
fn fee_index_claim_is_idempotent() {
    let mut s = recovery_sovereign();
    s.total_fees_collected = 1_000;
    s.total_deposited = 3_000;
    let mut r = DepositRecord::new(5);
    r.amount = 1_000;
    r.nft_minted = true;
    // entitlement = floor(1000 * 1000 / 3000) = 333
    let paid1 = claim_depositor_fees(&s, &mut r, 1_000_000).unwrap();
    assert_eq!(paid1, 333);
    assert_eq!(r.fees_claimed, 333);
    // no new fees: the second claim pays zero
    let paid2 = claim_depositor_fees(&s, &mut r, 1_000_000).unwrap();
    assert_eq!(paid2, 0);
    // new fees arrive: the two claims together equal the new entitlement
    s.total_fees_collected = 4_000;
    let paid3 = claim_depositor_fees(&s, &mut r, 1_000_000).unwrap();
    assert_eq!(paid1 + paid2 + paid3, 4_000 * 1_000 / 3_000);
}

#[test]
fn depositor_claim_error_ladder() {
    let mut s = recovery_sovereign();
    s.total_fees_collected = 1_000;
    let mut r = DepositRecord::new(5);
    r.amount = 1_000;
    assert_eq!(
        claim_depositor_fees(&s, &mut r, 1_000).unwrap_err(),
        SovereignError::NFTNotMinted
    );
    r.nft_minted = true;
    s.state = SovereignStatus::Bonding;
    assert_eq!(
        claim_depositor_fees(&s, &mut r, 1_000).unwrap_err(),
        SovereignError::InvalidState
    );
    s.state = SovereignStatus::Active;
    s.total_deposited = 0;
    r.amount = 0;
    assert_eq!(
        claim_depositor_fees(&s, &mut r, 1_000).unwrap_err(),
        SovereignError::NoDeposits
    );
    s.total_deposited = 1_000;
    r.amount = 1_000;
    assert_eq!(
        claim_depositor_fees(&s, &mut r, 10).unwrap_err(),
        SovereignError::InsufficientVaultBalance
    );
}

#[test]
fn creator_withdrawal_zeroes_pending_before_transfer() {
    let mut t = CreatorFeeTracker::new(11);
    assert_eq!(
        withdraw_creator_fees(&mut t).unwrap_err(),
        SovereignError::NothingToClaim
    );
    t.pending_withdrawal = 700;
    let paid = withdraw_creator_fees(&mut t).unwrap();
    assert_eq!(paid, 700);
    assert_eq!(t.pending_withdrawal, 0);
    assert_eq!(t.total_claimed, 700);
}

#[test]
fn transfer_hook_fee_formula() {
    assert_eq!(transfer_hook_fee(10_000, 300, true), 300);
    assert_eq!(transfer_hook_fee(10_000, 300, false), 0);
    assert_eq!(transfer_hook_fee(999, 100, true), 9);
    assert_eq!(transfer_hook_fee(0, 300, true), 0);
}

#[test]
fn recovery_swap_credits_and_flips() {
    let p = protocol();
    let mut s = recovery_sovereign();
    let outcome = swap_recovery_tokens(&p, &mut s, 1_000_000).unwrap();
    assert!(outcome.recovery_completed);
    assert_eq!(s.total_recovered, 1_000_000);
    assert_eq!(s.state, SovereignStatus::Active);
    // wrong mode is refused
    let mut cr = recovery_sovereign();
    cr.fee_mode = FeeMode::CreatorRevenue;
    assert_eq!(
        swap_recovery_tokens(&p, &mut cr, 1).unwrap_err(),
        SovereignError::InvalidFeeMode
    );
}

#[test]
fn extraction_keeps_the_solvency_reserve() {
    // principal 1000, supply 1_000_000, pool tokens 500_000, pool funding
    // 2000 -> reserve 2002, nothing extractable
    let (take, back) = extraction_allowance(1_500, 2_000, 500_000, 1_000_000, 1_000);
    assert_eq!(take, 0);
    assert_eq!(back, 1_500);
    // with pool funding 3000 the excess over the reserve may leave
    let (take2, back2) = extraction_allowance(1_500, 3_000, 500_000, 1_000_000, 1_000);
    assert_eq!(take2, 3_000 - 2_002);
    assert_eq!(back2, 1_500 - take2);
    // an empty pool token side extracts nothing
    let (take3, _) = extraction_allowance(1_500, 3_000, 0, 1_000_000, 1_000);
    assert_eq!(take3, 0);
}

#[test]
fn overflowing_tallies_fail_closed() {
    let p = protocol();
    let mut s = recovery_sovereign();
    s.total_fees_collected = u64::MAX;
    let mut t = CreatorFeeTracker::new(11);
    let before = s;
    assert_eq!(
        claim_fees(&p, &mut s, &mut t, 0, 1).unwrap_err(),
        SovereignError::Overflow
    );
    // nothing changed on the failed path
    assert_eq!(s.total_recovered, before.total_recovered);
    assert_eq!(s.total_fees_collected, before.total_fees_collected);
    let mut t2 = CreatorFeeTracker::new(11);
    t2.pending_withdrawal = 2;
    t2.total_claimed = u64::MAX;
    assert_eq!(
        withdraw_creator_fees(&mut t2).unwrap_err(),
        SovereignError::Overflow
    );
    assert_eq!(t2.pending_withdrawal, 2);
}

#[test]
fn swap_credit_needs_a_token_launch() {
    let p = protocol();
    let mut s = recovery_sovereign();
    s.sovereign_type = SovereignType::BYOToken;
    assert_eq!(
        swap_recovery_tokens(&p, &mut s, 1).unwrap_err(),
        SovereignError::InvalidSovereignType
    );
}

#[test]
fn record_share_calculators() {
    let mut r = DepositRecord::new(5);
    r.amount = 1_000;
    r.shares_bps = 2_500;
    r.fees_claimed = 100;
    // entitlement floor(900 * 1000 / 3000) = 300, less the 100 claimed
    assert_eq!(r.calculate_claimable_fees(900, 3_000), 200);
    assert_eq!(r.calculate_claimable_fees(0, 3_000), 0);
    r.amount = 0;
    assert_eq!(r.calculate_claimable_fees(900, 0), 0);
    assert_eq!(r.calculate_sol_share(10_000), 2_500);
    assert_eq!(r.calculate_token_share(999), 249);
}
