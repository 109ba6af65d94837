//! The governance unwind protocol: proposal lifecycle, vote tally, the
//! quorum-and-ratio pass check, the post-pass observation window, and the
//! volume-based cancellation check that overrides a vote to exit when the
//! market proves itself viable.
//!
//! Voting power is a bearer position's fixed proportional share in basis
//! points, snapshotted at finalization. Passing needs both quorum over all
//! shares and a majority among the votes cast — abstentions are excluded
//! from the ratio's denominator.
use vstd::prelude::*;

use vstd::arithmetic::div_mod::{lemma_fundamental_div_mod, lemma_fundamental_div_mod_converse};

use crate::constants::{
    BPS_DENOMINATOR, DEFAULT_UNWIND_VOLUME_THRESHOLD_BPS, PASS_THRESHOLD_BPS, QUORUM_BPS,
    TOKEN_REDEMPTION_WINDOW, UNWIND_OBSERVATION_PERIOD, VOTING_PERIOD_SECONDS,
};
use crate::errors::SovereignError;
use crate::math::{bps_share, lemma_u64_mul_fits, proportional_u64};
use crate::state::{
    Address, DepositRecord, PermanentLock, Proposal, ProposalStatus, ProtocolState, SovereignState,
    SovereignStatus, SovereignType, VoteRecord,
};

verus! {

/// The pool's fixed-point base: fee growth is accounted per unit of
/// liquidity in 64.64 fixed point.
pub open spec fn fee_growth_base() -> int {
    0x1_0000_0000_0000_0000
}

/// The fees the position actually earned over the observation window:
/// the growth of the pool's cumulative per-liquidity fee counter since the
/// snapshot, times the position's liquidity, scaled down by the fixed-point
/// base. A counter that moved backwards counts as no growth.
pub open spec fn actual_observation_fees(current: u128, snapshot: u128, liquidity: u128) -> int {
    let delta = if current >= snapshot {
        current - snapshot
    } else {
        0
    };
    delta * liquidity / fee_growth_base()
}

/// The volume threshold that applies: the configured one, or the built-in
/// default where none is configured.
pub open spec fn effective_threshold_bps(threshold_bps: u64) -> int {
    if threshold_bps == 0 {
        DEFAULT_UNWIND_VOLUME_THRESHOLD_BPS as int
    } else {
        threshold_bps as int
    }
}

/// The fees the observation window demands as proof of life:
/// the threshold share of the deposits.
pub open spec fn required_observation_fees(total_deposited: u64, threshold_bps: u64) -> int {
    total_deposited * effective_threshold_bps(threshold_bps) / (BPS_DENOMINATOR as int)
}

/// Splitting two factors at the fixed-point base: the scaled-down product is
/// rebuilt exactly from the four limb products.
proof fn lemma_scaled_product(a: int, b: int)
    requires
        0 <= a,
        0 <= b,
    ensures
        a * b / fee_growth_base() == (a / fee_growth_base()) * (b / fee_growth_base())
            * fee_growth_base() + (a / fee_growth_base()) * (b % fee_growth_base()) + (a
            % fee_growth_base()) * (b / fee_growth_base()) + (a % fee_growth_base()) * (b
            % fee_growth_base()) / fee_growth_base(),
{
    let q = fee_growth_base();
    let a1 = a / q;
    let a0 = a % q;
    let b1 = b / q;
    let b0 = b % q;
    lemma_fundamental_div_mod(a, q);
    lemma_fundamental_div_mod(b, q);
    lemma_fundamental_div_mod(a0 * b0, q);
    let low_q = a0 * b0 / q;
    let low_r = a0 * b0 % q;
    let x = a1 * b1;
    let y = a1 * b0;
    let z = a0 * b1;
    assert((q * a1 + a0) * b == (q * a1) * b + a0 * b) by (nonlinear_arith);
    assert((q * a1) * b == q * (a1 * b)) by (nonlinear_arith);
    assert(a1 * (q * b1 + b0) == a1 * (q * b1) + a1 * b0) by (nonlinear_arith);
    assert(a1 * (q * b1) == q * (a1 * b1)) by (nonlinear_arith);
    assert(a0 * (q * b1 + b0) == a0 * (q * b1) + a0 * b0) by (nonlinear_arith);
    assert(a0 * (q * b1) == q * (a0 * b1)) by (nonlinear_arith);
    assert(q * (q * x + y) == q * q * x + q * y) by (nonlinear_arith);
    assert(a * b == q * q * x + q * y + (q * z + a0 * b0));
    assert((x * q + y + z + low_q) * q == q * q * x + q * y + q * z + q * low_q)
        by (nonlinear_arith);
    assert(a * b == (x * q + y + z + low_q) * q + low_r);
    lemma_fundamental_div_mod_converse(
        a * b,
        q,
        a1 * b1 * q + a1 * b0 + a0 * b1 + low_q,
        low_r,
    );
}

/// The observation-window volume check: the unwind is cancelled exactly when
/// the fees actually earned since the snapshot reach the required threshold
/// share of the deposits — boundary equality cancels. Exact for the full
/// 128-bit ranges: where an intermediate sum exceeds 128 bits, the earned
/// fees already exceed any possible requirement.
pub fn check_volume_threshold(
    current_growth: u128,
    snapshot: u128,
    liquidity: u128,
    total_deposited: u64,
    threshold_bps: u64,
) -> (cancel: bool)
    ensures
        cancel <==> actual_observation_fees(current_growth, snapshot, liquidity)
            >= required_observation_fees(total_deposited, threshold_bps),
{
    let threshold: u64 = if threshold_bps == 0 {
        DEFAULT_UNWIND_VOLUME_THRESHOLD_BPS
    } else {
        threshold_bps
    };
    proof {
        lemma_u64_mul_fits(total_deposited, threshold);
    }
    let required: u128 = ((total_deposited as u128) * (threshold as u128)) / (
    BPS_DENOMINATOR as u128);
    let delta: u128 = if current_growth >= snapshot {
        current_growth - snapshot
    } else {
        0
    };
    let q: u128 = 0x1_0000_0000_0000_0000;
    let a1: u128 = delta / q;
    let a0: u128 = delta % q;
    let b1: u128 = liquidity / q;
    let b0: u128 = liquidity % q;
    proof {
        lemma_scaled_product(delta as int, liquidity as int);
        assert(a1 * b1 <= u128::MAX && a1 * b0 <= u128::MAX && a0 * b1 <= u128::MAX && a0 * b0
            <= u128::MAX) by (nonlinear_arith)
            requires
                a1 < 0x1_0000_0000_0000_0000,
                a0 < 0x1_0000_0000_0000_0000,
                b1 < 0x1_0000_0000_0000_0000,
                b0 < 0x1_0000_0000_0000_0000,
        ;
    }
    let high: u128 = a1 * b1;
    if high >= q {
        // The top limb alone puts the earned fees beyond 2^128.
        proof {
            assert(high * q >= required + 1) by (nonlinear_arith)
                requires
                    high >= 0x1_0000_0000_0000_0000u128,
                    q == 0x1_0000_0000_0000_0000,
                    required <= u128::MAX,
            ;
            assert(a1 * b0 + a0 * b1 + a0 * b0 / (q as int) >= 0) by (nonlinear_arith)
                requires
                    a1 >= 0,
                    a0 >= 0,
                    b1 >= 0,
                    b0 >= 0,
                    q > 0,
            ;
        }
        return true;
    }
    let scaled_high: u128 = high * q;
    let mid1: u128 = a1 * b0;
    let mid2: u128 = a0 * b1;
    let low: u128 = (a0 * b0) / q;
    // Sum the limbs with checked arithmetic; any overflow means the earned
    // fees exceed 2^128 and so exceed any requirement.
    let s1 = match scaled_high.checked_add(mid1) {
        Some(v) => v,
        None => {
            return true;
        },
    };
    let s2 = match s1.checked_add(mid2) {
        Some(v) => v,
        None => {
            return true;
        },
    };
    let actual = match s2.checked_add(low) {
        Some(v) => v,
        None => {
            return true;
        },
    };
    actual >= required
}

/// Open an unwind proposal. Only a bearer-position holder may propose, only
/// while the sovereign is `Active`, and only one proposal may be active at a
/// time. Returns the new proposal; its identifier is the sovereign's
/// proposal counter. On error nothing changes.
pub fn propose_unwind(
    sovereign: &mut SovereignState,
    record: &DepositRecord,
    proposer: Address,
    now: i64,
) -> (result: Result<Proposal, SovereignError>)
    requires
        old(sovereign).wf(),
        now <= i64::MAX - VOTING_PERIOD_SECONDS,
    ensures
        final(sovereign).wf(),
        crate::state::lifecycle_step(old(sovereign).state, final(sovereign).state),
        result is Err ==> *final(sovereign) == *old(sovereign),
        (match result {
            Err(e) => {
                if !record.nft_minted {
                    e == SovereignError::NFTNotMinted
                } else if old(sovereign).state != SovereignStatus::Active {
                    e == SovereignError::InvalidState
                } else {
                    e == SovereignError::ActiveProposalExists && old(
                        sovereign,
                    ).has_active_proposal
                }
            },
            Ok(proposal) => {
                &&& record.nft_minted
                &&& old(sovereign).state == SovereignStatus::Active
                &&& !old(sovereign).has_active_proposal
                &&& *final(sovereign) == (SovereignState {
                    has_active_proposal: true,
                    active_proposal_id: old(sovereign).proposal_count,
                    ..*old(sovereign)
                })
                &&& proposal == (Proposal {
                    proposal_id: old(sovereign).proposal_count,
                    proposer,
                    status: ProposalStatus::Active,
                    votes_for_bps: 0,
                    votes_against_bps: 0,
                    total_voted_bps: 0,
                    voter_count: 0,
                    quorum_bps: QUORUM_BPS,
                    pass_threshold_bps: PASS_THRESHOLD_BPS,
                    voting_ends_at: (now + VOTING_PERIOD_SECONDS) as i64,
                    timelock_ends_at: 0,
                    created_at: now,
                    executed_at: 0,
                })
                &&& proposal.wf()
            },
        }),
{
    if !record.nft_minted {
        return Err(SovereignError::NFTNotMinted);
    }
    if sovereign.state != SovereignStatus::Active {
        return Err(SovereignError::InvalidState);
    }
    if sovereign.has_active_proposal {
        return Err(SovereignError::ActiveProposalExists);
    }
    sovereign.has_active_proposal = true;
    sovereign.active_proposal_id = sovereign.proposal_count;
    Ok(
        Proposal {
            proposal_id: sovereign.proposal_count,
            proposer,
            status: ProposalStatus::Active,
            votes_for_bps: 0,
            votes_against_bps: 0,
            total_voted_bps: 0,
            voter_count: 0,
            quorum_bps: QUORUM_BPS,
            pass_threshold_bps: PASS_THRESHOLD_BPS,
            voting_ends_at: now + VOTING_PERIOD_SECONDS,
            timelock_ends_at: 0,
            created_at: now,
            executed_at: 0,
        },
    )
}

/// Cast a vote with a bearer position's snapshotted voting power. The vote
/// record returned is keyed to the claim token, so the host can refuse a
/// second vote from the same position even after a transfer. Participation
/// accumulates whichever way the vote goes. On error nothing changes.
pub fn vote(
    proposal: &mut Proposal,
    record: &DepositRecord,
    holder: Address,
    nft_mint: Address,
    support: bool,
    now: i64,
) -> (result: Result<VoteRecord, SovereignError>)
    requires
        old(proposal).wf(),
        old(proposal).total_voted_bps + record.voting_power_bps <= u32::MAX,
        old(proposal).voter_count < u32::MAX,
    ensures
        final(proposal).wf(),
        result is Err ==> *final(proposal) == *old(proposal),
        (match result {
            Err(e) => {
                if !record.nft_minted {
                    e == SovereignError::NFTNotMinted
                } else if old(proposal).status != ProposalStatus::Active {
                    e == SovereignError::ProposalNotActive
                } else if now > old(proposal).voting_ends_at {
                    e == SovereignError::VotingPeriodEnded
                } else {
                    e == SovereignError::NoVotingPower && record.voting_power_bps == 0
                }
            },
            Ok(vote_record) => {
                &&& record.nft_minted
                &&& old(proposal).status == ProposalStatus::Active
                &&& now <= old(proposal).voting_ends_at
                &&& record.voting_power_bps > 0
                &&& *final(proposal) == (Proposal {
                    votes_for_bps: if support {
                        (old(proposal).votes_for_bps + record.voting_power_bps) as u32
                    } else {
                        old(proposal).votes_for_bps
                    },
                    votes_against_bps: if support {
                        old(proposal).votes_against_bps
                    } else {
                        (old(proposal).votes_against_bps + record.voting_power_bps) as u32
                    },
                    total_voted_bps: (old(proposal).total_voted_bps
                        + record.voting_power_bps) as u32,
                    voter_count: (old(proposal).voter_count + 1) as u32,
                    ..*old(proposal)
                })
                &&& vote_record == (VoteRecord {
                    proposal_id: old(proposal).proposal_id,
                    voter: holder,
                    nft_mint,
                    voting_power_bps: record.voting_power_bps,
                    vote_for: support,
                    voted_at: now,
                })
            },
        }),
{
    if !record.nft_minted {
        return Err(SovereignError::NFTNotMinted);
    }
    if proposal.status != ProposalStatus::Active {
        return Err(SovereignError::ProposalNotActive);
    }
    if now > proposal.voting_ends_at {
        return Err(SovereignError::VotingPeriodEnded);
    }
    let power = record.voting_power_bps;
    if power == 0 {
        return Err(SovereignError::NoVotingPower);
    }
    if support {
        proposal.votes_for_bps = proposal.votes_for_bps + power as u32;
    } else {
        proposal.votes_against_bps = proposal.votes_against_bps + power as u32;
    }
    proposal.total_voted_bps = proposal.total_voted_bps + power as u32;
    proposal.voter_count = proposal.voter_count + 1;
    Ok(
        VoteRecord {
            proposal_id: proposal.proposal_id,
            voter: holder,
            nft_mint,
            voting_power_bps: power,
            vote_for: support,
            voted_at: now,
        },
    )
}

/// Whether a proposal passes: participation must reach the quorum, and among
/// the votes cast — abstentions excluded — the share in favour must reach
/// the pass threshold. With no votes cast nothing passes.
pub open spec fn proposal_passes(p: Proposal) -> bool {
    let cast = p.votes_for_bps + p.votes_against_bps;
    &&& p.total_voted_bps >= p.quorum_bps
    &&& cast > 0
    &&& p.votes_for_bps * (BPS_DENOMINATOR as int) >= p.pass_threshold_bps * cast
}

impl Proposal {
    /// Whether this proposal passes under the quorum-and-ratio rule.
    pub fn is_passed(&self) -> (r: bool)
        ensures
            r == proposal_passes(*self),
    {
        let cast: u64 = self.votes_for_bps as u64 + self.votes_against_bps as u64;
        if cast == 0 {
            return false;
        }
        proof {
            assert(self.votes_for_bps * 10000 <= u32::MAX * 10000) by (nonlinear_arith)
                requires
                    self.votes_for_bps <= u32::MAX,
            ;
            assert(self.pass_threshold_bps * cast <= u16::MAX * (u32::MAX + u32::MAX))
                by (nonlinear_arith)
                requires
                    self.pass_threshold_bps <= u16::MAX,
                    cast <= u32::MAX + u32::MAX,
            ;
        }
        let for_scaled: u64 = self.votes_for_bps as u64 * BPS_DENOMINATOR as u64;
        let threshold_scaled: u64 = self.pass_threshold_bps as u64 * cast;
        self.is_quorum_met() && for_scaled >= threshold_scaled
    }

    /// Whether a passed proposal's observation window has elapsed, so the
    /// unwind may execute.
    pub fn is_executable(&self, current_time: i64) -> (r: bool)
        ensures
            r == (self.status == ProposalStatus::Passed && current_time >= self.timelock_ends_at),
    {
        self.status == ProposalStatus::Passed && current_time >= self.timelock_ends_at
    }
}

/// Close voting and decide the outcome. Passing requires both quorum and
/// ratio. On a pass, the pool's cumulative fee-growth counters are
/// snapshotted, the observation window opens, and the sovereign enters
/// `Unwinding` at once — liquidity is not yet removed. Either way the
/// sovereign's proposal slot is freed. Returns whether the proposal passed.
/// On error nothing changes.
pub fn finalize_vote(
    sovereign: &mut SovereignState,
    proposal: &mut Proposal,
    current_growth_a: u128,
    current_growth_b: u128,
    now: i64,
) -> (result: Result<bool, SovereignError>)
    requires
        old(sovereign).wf(),
        old(proposal).wf(),
        now <= i64::MAX - UNWIND_OBSERVATION_PERIOD,
        old(sovereign).proposal_count < u64::MAX,
    ensures
        final(sovereign).wf(),
        crate::state::lifecycle_step(old(sovereign).state, final(sovereign).state),
        result is Err ==> *final(sovereign) == *old(sovereign) && *final(proposal) == *old(
            proposal,
        ),
        (match result {
            Err(e) => {
                if old(sovereign).state != SovereignStatus::Active {
                    e == SovereignError::InvalidState
                } else if old(proposal).status != ProposalStatus::Active {
                    e == SovereignError::ProposalNotActive
                } else {
                    e == SovereignError::VotingPeriodNotEnded && now <= old(
                        proposal,
                    ).voting_ends_at
                }
            },
            Ok(passed) => {
                &&& old(sovereign).state == SovereignStatus::Active
                &&& old(proposal).status == ProposalStatus::Active
                &&& now > old(proposal).voting_ends_at
                &&& passed == proposal_passes(*old(proposal))
                &&& if passed {
                    &&& *final(proposal) == (Proposal {
                        status: ProposalStatus::Passed,
                        timelock_ends_at: (now + UNWIND_OBSERVATION_PERIOD) as i64,
                        ..*old(proposal)
                    })
                    &&& *final(sovereign) == (SovereignState {
                        state: SovereignStatus::Unwinding,
                        fee_growth_snapshot_a: current_growth_a,
                        fee_growth_snapshot_b: current_growth_b,
                        activity_check_timestamp: (now + UNWIND_OBSERVATION_PERIOD) as i64,
                        activity_check_initiated: true,
                        activity_check_initiated_at: Some(now),
                        has_active_proposal: false,
                        proposal_count: (old(sovereign).proposal_count + 1) as u64,
                        ..*old(sovereign)
                    })
                } else {
                    &&& *final(proposal) == (Proposal {
                        status: ProposalStatus::Failed,
                        ..*old(proposal)
                    })
                    &&& *final(sovereign) == (SovereignState {
                        has_active_proposal: false,
                        proposal_count: (old(sovereign).proposal_count + 1) as u64,
                        ..*old(sovereign)
                    })
                }
            },
        }),
{
    // Re-validate the phase: an unwind vote only binds an Active sovereign.
    if sovereign.state != SovereignStatus::Active {
        return Err(SovereignError::InvalidState);
    }
    if proposal.status != ProposalStatus::Active {
        return Err(SovereignError::ProposalNotActive);
    }
    if now <= proposal.voting_ends_at {
        return Err(SovereignError::VotingPeriodNotEnded);
    }
    let quorum_met = proposal.is_quorum_met();
    let cast: u64 = proposal.votes_for_bps as u64 + proposal.votes_against_bps as u64;
    let passed = if cast > 0 {
        proof {
            assert(proposal.votes_for_bps * 10000 <= u32::MAX * 10000) by (nonlinear_arith)
                requires
                    proposal.votes_for_bps <= u32::MAX,
            ;
            assert(proposal.pass_threshold_bps * cast <= u16::MAX * (u32::MAX + u32::MAX))
                by (nonlinear_arith)
                requires
                    proposal.pass_threshold_bps <= u16::MAX,
                    cast <= u32::MAX + u32::MAX,
            ;
        }
        let for_scaled: u64 = proposal.votes_for_bps as u64 * BPS_DENOMINATOR as u64;
        let threshold_scaled: u64 = proposal.pass_threshold_bps as u64 * cast;
        quorum_met && for_scaled >= threshold_scaled
    } else {
        false
    };
    if passed {
        proposal.status = ProposalStatus::Passed;
        sovereign.fee_growth_snapshot_a = current_growth_a;
        sovereign.fee_growth_snapshot_b = current_growth_b;
        sovereign.activity_check_timestamp = now + UNWIND_OBSERVATION_PERIOD;
        sovereign.activity_check_initiated = true;
        sovereign.activity_check_initiated_at = Some(now);
        sovereign.state = SovereignStatus::Unwinding;
        proposal.timelock_ends_at = now + UNWIND_OBSERVATION_PERIOD;
    } else {
        proposal.status = ProposalStatus::Failed;
    }
    sovereign.has_active_proposal = false;
    sovereign.proposal_count = sovereign.proposal_count + 1;
    Ok(passed)
}

/// What the observation check decided.
#[derive(Clone, Copy, Debug, PartialEq, Eq, Structural)]
pub enum UnwindDecision {
    /// Trading activity met the threshold: the unwind is cancelled and the
    /// sovereign is back in `Active` under a cooldown.
    Cancelled,
    /// Activity stayed below the threshold: the host must now remove the
    /// liquidity and settle with `settle_unwind`.
    Proceed,
}

/// Run the post-observation volume check for a passed unwind. Callable only
/// once the observation window has elapsed. If the fees earned since the
/// vote-pass snapshot reach the required threshold share of the deposits,
/// the unwind is cancelled — the sovereign returns to `Active` and a
/// cooldown timestamp is recorded; otherwise nothing changes yet and the
/// unwind proceeds to settlement. On error nothing changes.
pub fn execute_unwind(
    protocol: &ProtocolState,
    sovereign: &mut SovereignState,
    lock: &PermanentLock,
    proposal: &Proposal,
    current_growth_a: u128,
    now: i64,
) -> (result: Result<UnwindDecision, SovereignError>)
    requires
        old(sovereign).wf(),
        protocol.min_fee_growth_threshold <= u64::MAX,
    ensures
        final(sovereign).wf(),
        crate::state::lifecycle_step(old(sovereign).state, final(sovereign).state),
        result is Err ==> *final(sovereign) == *old(sovereign),
        (match result {
            Err(e) => {
                if proposal.status != ProposalStatus::Passed {
                    e == SovereignError::ProposalNotPassed
                } else if old(sovereign).state != SovereignStatus::Unwinding {
                    e == SovereignError::InvalidState
                } else if lock.liquidity == 0 {
                    e == SovereignError::NothingToWithdraw
                } else {
                    e == SovereignError::ActivityCheckPeriodNotElapsed && now < old(
                        sovereign,
                    ).activity_check_timestamp
                }
            },
            Ok(decision) => {
                let cancel = actual_observation_fees(
                    current_growth_a,
                    old(sovereign).fee_growth_snapshot_a,
                    lock.liquidity,
                ) >= required_observation_fees(
                    old(sovereign).total_deposited,
                    protocol.min_fee_growth_threshold as u64,
                );
                &&& proposal.status == ProposalStatus::Passed
                &&& old(sovereign).state == SovereignStatus::Unwinding
                &&& lock.liquidity > 0
                &&& now >= old(sovereign).activity_check_timestamp
                &&& decision == if cancel {
                    UnwindDecision::Cancelled
                } else {
                    UnwindDecision::Proceed
                }
                &&& if cancel {
                    *final(sovereign) == (SovereignState {
                        state: SovereignStatus::Active,
                        activity_check_initiated: false,
                        activity_check_initiated_at: None,
                        activity_check_last_cancelled: now,
                        ..*old(sovereign)
                    })
                } else {
                    *final(sovereign) == *old(sovereign)
                }
            },
        }),
{
    if proposal.status != ProposalStatus::Passed {
        return Err(SovereignError::ProposalNotPassed);
    }
    if sovereign.state != SovereignStatus::Unwinding {
        return Err(SovereignError::InvalidState);
    }
    if lock.liquidity == 0 {
        return Err(SovereignError::NothingToWithdraw);
    }
    if now < sovereign.activity_check_timestamp {
        return Err(SovereignError::ActivityCheckPeriodNotElapsed);
    }
    let threshold: u64 = protocol.min_fee_growth_threshold as u64;
    let cancel = check_volume_threshold(
        current_growth_a,
        sovereign.fee_growth_snapshot_a,
        lock.liquidity,
        sovereign.total_deposited,
        threshold,
    );
    if cancel {
        sovereign.state = SovereignStatus::Active;
        sovereign.activity_check_initiated = false;
        sovereign.activity_check_initiated_at = None;
        sovereign.activity_check_last_cancelled = now;
        Ok(UnwindDecision::Cancelled)
    } else {
        Ok(UnwindDecision::Proceed)
    }
}

/// How an unwind settlement was divided.
#[derive(Clone, Copy, Debug, PartialEq, Eq, Structural)]
pub struct UnwindSettlement {
    /// Protocol fee off the top, owed to the treasury.
    pub protocol_fee: u64,
    /// What remains for investor claims, capped at the deposits; any surplus
    /// sits in it until disposed of.
    pub investor_pool: u64,
    /// What exceeds the deposits after the protocol fee.
    pub surplus: u64,
    /// The surplus the host must sweep to the treasury (brought-asset
    /// sovereigns only).
    pub surplus_to_treasury: u64,
}

/// Settle an executed unwind: take the protocol fee off the withdrawn
/// funding, cap the investor pool at the deposits, and dispose of the
/// surplus — a token launch seeds the token-redemption pool with it under a
/// fixed redemption window, a brought asset sends it to the treasury. The
/// sovereign enters `Unwound` and the lock's liquidity is zeroed as the
/// re-entry guard. On error nothing changes.
pub fn settle_unwind(
    protocol: &ProtocolState,
    sovereign: &mut SovereignState,
    lock: &mut PermanentLock,
    funding_out: u64,
    token_out: u64,
    mint_supply: u64,
    token_vault_amount: u64,
    now: i64,
) -> (result: Result<UnwindSettlement, SovereignError>)
    requires
        old(sovereign).wf(),
        protocol.wf(),
        now <= i64::MAX - TOKEN_REDEMPTION_WINDOW,
    ensures
        final(sovereign).wf(),
        crate::state::lifecycle_step(old(sovereign).state, final(sovereign).state),
        result is Err ==> *final(sovereign) == *old(sovereign) && *final(lock) == *old(lock),
        (match result {
            Err(e) => {
                if old(sovereign).state != SovereignStatus::Unwinding {
                    e == SovereignError::InvalidState
                } else if old(lock).liquidity == 0 {
                    e == SovereignError::NothingToWithdraw
                } else {
                    e == SovereignError::ActivityCheckPeriodNotElapsed && now < old(
                        sovereign,
                    ).activity_check_timestamp
                }
            },
            Ok(s) => {
                let fee = funding_out * protocol.unwind_fee_bps / (BPS_DENOMINATOR as int);
                let pool = funding_out - fee;
                let surplus = if pool > old(sovereign).total_deposited {
                    pool - old(sovereign).total_deposited
                } else {
                    0
                };
                let launch = old(sovereign).sovereign_type == SovereignType::TokenLaunch;
                let circulating = if mint_supply >= token_vault_amount + token_out {
                    mint_supply - token_vault_amount - token_out
                } else {
                    0
                };
                &&& old(sovereign).state == SovereignStatus::Unwinding
                &&& old(lock).liquidity > 0
                &&& now >= old(sovereign).activity_check_timestamp
                &&& s.protocol_fee == fee
                &&& s.surplus == surplus
                &&& s.investor_pool == if launch {
                    pool
                } else {
                    pool - surplus
                }
                &&& s.surplus_to_treasury == if launch {
                    0
                } else {
                    surplus
                }
                &&& *final(sovereign) == (SovereignState {
                    state: SovereignStatus::Unwound,
                    unwound_at: Some(now),
                    unwind_sol_balance: s.investor_pool,
                    unwind_token_balance: token_out,
                    token_redemption_pool: if launch && surplus > 0 {
                        surplus as u64
                    } else {
                        0
                    },
                    circulating_tokens_at_unwind: if launch && surplus > 0 {
                        circulating as u64
                    } else {
                        0
                    },
                    token_redemption_deadline: if launch && surplus > 0 {
                        (now + TOKEN_REDEMPTION_WINDOW) as i64
                    } else {
                        old(sovereign).token_redemption_deadline
                    },
                    ..*old(sovereign)
                })
                &&& *final(lock) == (PermanentLock {
                    liquidity: 0,
                    unwound: true,
                    unwound_at: now,
                    ..*old(lock)
                })
            },
        }),
{
    if sovereign.state != SovereignStatus::Unwinding {
        return Err(SovereignError::InvalidState);
    }
    if lock.liquidity == 0 {
        return Err(SovereignError::NothingToWithdraw);
    }
    if now < sovereign.activity_check_timestamp {
        return Err(SovereignError::ActivityCheckPeriodNotElapsed);
    }
    let fee = bps_share(funding_out, protocol.unwind_fee_bps);
    let pool = funding_out - fee;
    let surplus = if pool > sovereign.total_deposited {
        pool - sovereign.total_deposited
    } else {
        0
    };
    let launch = sovereign.sovereign_type == SovereignType::TokenLaunch;
    if launch && surplus > 0 {
        sovereign.token_redemption_pool = surplus;
        let after_vault = if mint_supply >= token_vault_amount {
            mint_supply - token_vault_amount
        } else {
            0
        };
        let circulating = if after_vault >= token_out {
            after_vault - token_out
        } else {
            0
        };
        sovereign.circulating_tokens_at_unwind = circulating;
        sovereign.token_redemption_deadline = now + TOKEN_REDEMPTION_WINDOW;
    } else {
        sovereign.token_redemption_pool = 0;
        sovereign.circulating_tokens_at_unwind = 0;
    }
    let investor_pool = if launch {
        pool
    } else {
        pool - surplus
    };
    sovereign.unwind_sol_balance = investor_pool;
    sovereign.unwind_token_balance = token_out;
    sovereign.state = SovereignStatus::Unwound;
    sovereign.unwound_at = Some(now);
    lock.liquidity = 0;
    lock.unwound = true;
    lock.unwound_at = now;
    Ok(
        UnwindSettlement {
            protocol_fee: fee,
            investor_pool,
            surplus,
            surplus_to_treasury: if launch {
                0
            } else {
                surplus
            },
        },
    )
}

/// A bearer position's unwind claim: the proportional share of the
/// settlement balance, capped at the original pledge —
/// `min(balance * pledge / total, pledge)`. Anything above the cap stays
/// with the surplus accounting and never reaches the depositor. The claim
/// token is invalidated (the host burns it) in the same operation; the
/// record's claim flag blocks a second claim. Returns what the host must
/// pay. On error nothing changes.
pub fn claim_unwind(sovereign: &SovereignState, record: &mut DepositRecord) -> (result: Result<
    u64,
    SovereignError,
>)
    requires
        old(record).amount <= sovereign.total_deposited,
    ensures
        result is Err ==> *final(record) == *old(record),
        (match result {
            Err(e) => {
                if sovereign.state != SovereignStatus::Unwound {
                    e == SovereignError::InvalidState
                } else if old(record).unwind_claimed {
                    e == SovereignError::AlreadyClaimed
                } else if !old(record).nft_minted {
                    e == SovereignError::NFTNotMinted
                } else {
                    e == SovereignError::NoDeposits && sovereign.total_deposited == 0
                }
            },
            Ok(paid) => {
                let share = sovereign.unwind_sol_balance * old(record).amount
                    / (sovereign.total_deposited as int);
                &&& sovereign.state == SovereignStatus::Unwound
                &&& !old(record).unwind_claimed
                &&& old(record).nft_minted
                &&& sovereign.total_deposited > 0
                &&& paid == if share <= old(record).amount {
                    share
                } else {
                    old(record).amount as int
                }
                &&& paid <= old(record).amount
                &&& *final(record) == (DepositRecord { unwind_claimed: true, ..*old(record) })
            },
        }),
{
    if sovereign.state != SovereignStatus::Unwound {
        return Err(SovereignError::InvalidState);
    }
    if record.unwind_claimed {
        return Err(SovereignError::AlreadyClaimed);
    }
    if !record.nft_minted {
        return Err(SovereignError::NFTNotMinted);
    }
    if sovereign.total_deposited == 0 {
        return Err(SovereignError::NoDeposits);
    }
    let share = proportional_u64(
        sovereign.unwind_sol_balance,
        record.amount,
        sovereign.total_deposited,
    );
    let paid = crate::math::min_u64(share, record.amount);
    record.unwind_claimed = true;
    Ok(paid)
}

} // verus!
