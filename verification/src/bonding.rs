//! The bonding ledger: pledges toward the bond target, withdrawals while
//! bonding, the atomic target-reached transition, and the failed-bonding
//! refund path.
//!
//! A pledge larger than the remaining gap is capped at the gap — the excess is
//! never taken from the caller — so deposits can meet the target exactly but
//! never exceed it. The operation that closes the gap flips the phase to
//! `Finalizing` in the same unit of work, so no later pledge can believe it
//! was the one that completed bonding.
use vstd::prelude::*;

use crate::errors::SovereignError;
use crate::state::{Address, DepositRecord, ProtocolState, SovereignState, SovereignStatus};

verus! {

/// What is still missing to the bond target.
pub open spec fn bonding_remaining(s: SovereignState) -> int {
    s.bond_target - s.total_deposited
}

/// How much of an offered pledge is accepted: the offer, capped at the
/// remaining gap.
pub open spec fn pledge_accepted(s: SovereignState, amount: u64) -> int {
    if amount <= bonding_remaining(s) {
        amount as int
    } else {
        bonding_remaining(s)
    }
}

/// The error, if any, with which a pledge of `amount` is refused, in the
/// order the checks are made. `is_creator` selects the creator escrow path.
pub open spec fn deposit_check(
    p: ProtocolState,
    s: SovereignState,
    is_creator: bool,
    amount: u64,
    now: i64,
) -> Result<(), SovereignError> {
    if p.paused {
        Err(SovereignError::ProtocolPaused)
    } else if s.state != SovereignStatus::Bonding {
        Err(SovereignError::InvalidState)
    } else if s.total_deposited >= s.bond_target {
        Err(SovereignError::BondingComplete)
    } else if now > s.bond_deadline {
        Err(SovereignError::DeadlinePassed)
    } else if amount == 0 {
        Err(SovereignError::ZeroDeposit)
    } else if amount < p.min_deposit {
        Err(SovereignError::DepositTooSmall)
    } else if is_creator && s.creator_escrow + amount > s.bond_target / 100 {
        Err(SovereignError::CreatorDepositExceedsMax)
    } else {
        Ok(())
    }
}

/// The sovereign after an accepted investor pledge of `amount`: the accepted
/// part is added to the deposits, the depositor count grows by one for a
/// first pledge, and the phase flips to `Finalizing` exactly when the
/// deposits reach the target.
pub open spec fn invested(s: SovereignState, amount: u64, new_depositor: bool) -> SovereignState {
    let total = (s.total_deposited + pledge_accepted(s, amount)) as u64;
    SovereignState {
        total_deposited: total,
        depositor_count: if new_depositor {
            (s.depositor_count + 1) as u32
        } else {
            s.depositor_count
        },
        state: if total >= s.bond_target {
            SovereignStatus::Finalizing
        } else {
            SovereignStatus::Bonding
        },
        ..s
    }
}

/// Accept a pledge. The creator's pledge goes to a separate escrow, capped
/// at 1% of the bond target and not counted toward it; an investor's pledge
/// is capped at the remaining gap and counted. Returns the amount the host
/// must actually transfer into the vault. On error nothing changes.
pub fn deposit(
    protocol: &ProtocolState,
    sovereign: &mut SovereignState,
    record: &mut DepositRecord,
    depositor: Address,
    amount: u64,
    now: i64,
) -> (result: Result<u64, SovereignError>)
    requires
        old(sovereign).wf(),
        old(record).depositor == depositor,
        old(record).amount <= old(sovereign).total_deposited,
        old(record).amount == 0 ==> old(sovereign).depositor_count < u32::MAX,
    ensures
        final(sovereign).wf(),
        crate::state::lifecycle_step(old(sovereign).state, final(sovereign).state),
        result is Err ==> *final(sovereign) == *old(sovereign) && *final(record) == *old(record),
        (match result {
            Err(e) => deposit_check(
                *protocol,
                *old(sovereign),
                depositor == old(sovereign).creator,
                amount,
                now,
            ) == Err::<(), SovereignError>(e),
            Ok(accepted) => {
                &&& deposit_check(
                    *protocol,
                    *old(sovereign),
                    depositor == old(sovereign).creator,
                    amount,
                    now,
                ) is Ok
                &&& if depositor == old(sovereign).creator {
                    &&& accepted == amount
                    &&& *final(sovereign) == (SovereignState {
                        creator_escrow: (old(sovereign).creator_escrow + amount) as u64,
                        ..*old(sovereign)
                    })
                    &&& *final(record) == *old(record)
                } else {
                    &&& accepted == pledge_accepted(*old(sovereign), amount)
                    &&& *final(sovereign) == invested(
                        *old(sovereign),
                        amount,
                        old(record).amount == 0,
                    )
                    &&& *final(record) == (DepositRecord {
                        amount: (old(record).amount + accepted) as u64,
                        deposited_at: if old(record).amount == 0 {
                            now
                        } else {
                            old(record).deposited_at
                        },
                        ..*old(record)
                    })
                }
            },
        }),
        // The recorded pledge can never exceed the bond target.
        result is Ok ==> final(record).amount <= final(sovereign).bond_target,
{
    if protocol.paused {
        return Err(SovereignError::ProtocolPaused);
    }
    if sovereign.state != SovereignStatus::Bonding {
        return Err(SovereignError::InvalidState);
    }
    if sovereign.total_deposited >= sovereign.bond_target {
        return Err(SovereignError::BondingComplete);
    }
    if now > sovereign.bond_deadline {
        return Err(SovereignError::DeadlinePassed);
    }
    if amount == 0 {
        return Err(SovereignError::ZeroDeposit);
    }
    if amount < protocol.min_deposit {
        return Err(SovereignError::DepositTooSmall);
    }
    if depositor == sovereign.creator {
        // Creator pledge: escrow for the later market buy, capped at 1%.
        let max_buy = sovereign.max_creator_buy_in();
        if (sovereign.creator_escrow as u128) + (amount as u128) > (max_buy as u128) {
            return Err(SovereignError::CreatorDepositExceedsMax);
        }
        sovereign.creator_escrow = sovereign.creator_escrow + amount;
        Ok(amount)
    } else {
        // Investor pledge: capped at the remaining gap, counted toward the target.
        let remaining = sovereign.bond_target - sovereign.total_deposited;
        let accepted = crate::math::min_u64(amount, remaining);
        if record.amount == 0 {
            record.deposited_at = now;
            sovereign.depositor_count = sovereign.depositor_count + 1;
        }
        record.amount = record.amount + accepted;
        sovereign.total_deposited = sovereign.total_deposited + accepted;
        // Atomic transition: the pledge that reaches the target flips the
        // phase in the same unit of work, blocking any further pledge.
        if sovereign.total_deposited >= sovereign.bond_target {
            sovereign.state = SovereignStatus::Finalizing;
        }
        Ok(accepted)
    }
}

/// The error, if any, with which a bonding-phase withdrawal is refused, in
/// the order the checks are made.
pub open spec fn withdraw_check(
    p: ProtocolState,
    s: SovereignState,
    r: DepositRecord,
    depositor: Address,
    amount: u64,
    vault_balance: u64,
) -> Result<(), SovereignError> {
    if r.depositor != depositor {
        Err(SovereignError::Unauthorized)
    } else if p.paused {
        Err(SovereignError::ProtocolPaused)
    } else if s.state != SovereignStatus::Bonding {
        Err(SovereignError::InvalidState)
    } else if amount == 0 {
        Err(SovereignError::ZeroWithdraw)
    } else if r.amount < amount {
        Err(SovereignError::InsufficientDepositBalance)
    } else if vault_balance < amount {
        Err(SovereignError::InsufficientVaultBalance)
    } else if depositor == s.creator {
        Err(SovereignError::CreatorCannotWithdrawDuringBonding)
    } else {
        Ok(())
    }
}

/// Withdraw part of a pledge while bonding. The record and the total shrink
/// by the same amount; a fully-withdrawn record leaves the depositor count.
/// Returns the amount the host must pay back out of the vault.
pub fn withdraw(
    protocol: &ProtocolState,
    sovereign: &mut SovereignState,
    record: &mut DepositRecord,
    depositor: Address,
    amount: u64,
    vault_balance: u64,
) -> (result: Result<u64, SovereignError>)
    requires
        old(sovereign).wf(),
        old(record).amount <= old(sovereign).total_deposited,
        old(record).amount > 0 ==> old(sovereign).depositor_count > 0,
    ensures
        final(sovereign).wf(),
        crate::state::lifecycle_step(old(sovereign).state, final(sovereign).state),
        result is Err ==> *final(sovereign) == *old(sovereign) && *final(record) == *old(record),
        (match result {
            Err(e) => withdraw_check(
                *protocol,
                *old(sovereign),
                *old(record),
                depositor,
                amount,
                vault_balance,
            ) == Err::<(), SovereignError>(e),
            Ok(paid) => {
                &&& withdraw_check(
                    *protocol,
                    *old(sovereign),
                    *old(record),
                    depositor,
                    amount,
                    vault_balance,
                ) is Ok
                &&& paid == amount
                &&& *final(record) == (DepositRecord {
                    amount: (old(record).amount - amount) as u64,
                    ..*old(record)
                })
                &&& *final(sovereign) == (SovereignState {
                    total_deposited: (old(sovereign).total_deposited - amount) as u64,
                    depositor_count: if old(record).amount == amount {
                        (old(sovereign).depositor_count - 1) as u32
                    } else {
                        old(sovereign).depositor_count
                    },
                    ..*old(sovereign)
                })
            },
        }),
{
    if record.depositor != depositor {
        return Err(SovereignError::Unauthorized);
    }
    if protocol.paused {
        return Err(SovereignError::ProtocolPaused);
    }
    if sovereign.state != SovereignStatus::Bonding {
        return Err(SovereignError::InvalidState);
    }
    if amount == 0 {
        return Err(SovereignError::ZeroWithdraw);
    }
    if record.amount < amount {
        return Err(SovereignError::InsufficientDepositBalance);
    }
    if vault_balance < amount {
        return Err(SovereignError::InsufficientVaultBalance);
    }
    if depositor == sovereign.creator {
        return Err(SovereignError::CreatorCannotWithdrawDuringBonding);
    }
    record.amount = record.amount - amount;
    sovereign.total_deposited = sovereign.total_deposited - amount;
    if record.amount == 0 {
        sovereign.depositor_count = sovereign.depositor_count - 1;
    }
    Ok(amount)
}

/// Mark bonding as failed: callable by anyone once the deadline has passed
/// with the target unmet; irreversible.
pub fn mark_bonding_failed(sovereign: &mut SovereignState, now: i64) -> (result: Result<
    (),
    SovereignError,
>)
    requires
        old(sovereign).wf(),
    ensures
        final(sovereign).wf(),
        crate::state::lifecycle_step(old(sovereign).state, final(sovereign).state),
        result is Err ==> *final(sovereign) == *old(sovereign),
        (match result {
            Err(e) => {
                &&& (e == SovereignError::InvalidState <==> old(sovereign).state
                    != SovereignStatus::Bonding)
                &&& (e == SovereignError::DeadlineNotPassed ==> old(sovereign).state
                    == SovereignStatus::Bonding && now <= old(sovereign).bond_deadline)
                &&& (e == SovereignError::BondTargetMet ==> old(sovereign).state
                    == SovereignStatus::Bonding && now > old(sovereign).bond_deadline && old(
                    sovereign,
                ).total_deposited >= old(sovereign).bond_target)
                &&& (e == SovereignError::InvalidState || e == SovereignError::DeadlineNotPassed
                    || e == SovereignError::BondTargetMet)
            },
            Ok(_) => {
                &&& old(sovereign).state == SovereignStatus::Bonding
                &&& now > old(sovereign).bond_deadline
                &&& old(sovereign).total_deposited < old(sovereign).bond_target
                &&& *final(sovereign) == (SovereignState {
                    state: SovereignStatus::Failed,
                    ..*old(sovereign)
                })
            },
        }),
{
    if sovereign.state != SovereignStatus::Bonding {
        return Err(SovereignError::InvalidState);
    }
    if !sovereign.is_deadline_passed(now) {
        return Err(SovereignError::DeadlineNotPassed);
    }
    if sovereign.total_deposited >= sovereign.bond_target {
        return Err(SovereignError::BondTargetMet);
    }
    sovereign.state = SovereignStatus::Failed;
    Ok(())
}

/// Refund an investor after a failed bonding: the full recorded pledge is
/// paid back and the record is closed. Returns the refund the host must pay.
pub fn withdraw_failed(
    sovereign: &SovereignState,
    record: &mut DepositRecord,
    depositor: Address,
    vault_balance: u64,
) -> (result: Result<u64, SovereignError>)
    ensures
        result is Err ==> *final(record) == *old(record),
        (match result {
            Err(e) => {
                if old(record).depositor != depositor {
                    e == SovereignError::Unauthorized
                } else if sovereign.state != SovereignStatus::Failed {
                    e == SovereignError::InvalidState
                } else if depositor == sovereign.creator {
                    e == SovereignError::CreatorMustUseCreatorWithdraw
                } else if old(record).amount == 0 {
                    e == SovereignError::NothingToWithdraw
                } else {
                    e == SovereignError::InsufficientVaultBalance && vault_balance < old(
                        record,
                    ).amount
                }
            },
            Ok(refund) => {
                &&& old(record).depositor == depositor
                &&& sovereign.state == SovereignStatus::Failed
                &&& depositor != sovereign.creator
                &&& refund == old(record).amount
                &&& refund > 0
                &&& vault_balance >= refund
                &&& *final(record) == (DepositRecord {
                    amount: 0,
                    refund_claimed: true,
                    ..*old(record)
                })
            },
        }),
{
    if record.depositor != depositor {
        return Err(SovereignError::Unauthorized);
    }
    if sovereign.state != SovereignStatus::Failed {
        return Err(SovereignError::InvalidState);
    }
    if depositor == sovereign.creator {
        return Err(SovereignError::CreatorMustUseCreatorWithdraw);
    }
    let amount = record.amount;
    if amount == 0 {
        return Err(SovereignError::NothingToWithdraw);
    }
    if vault_balance < amount {
        return Err(SovereignError::InsufficientVaultBalance);
    }
    record.amount = 0;
    record.refund_claimed = true;
    Ok(amount)
}

/// Return the creator's escrow after a failed bonding; the creation-fee
/// escrow is released by the host alongside. Returns the escrow the host
/// must pay back.
pub fn withdraw_creator_failed(
    sovereign: &mut SovereignState,
    caller: Address,
    vault_balance: u64,
) -> (result: Result<u64, SovereignError>)
    requires
        old(sovereign).wf(),
    ensures
        final(sovereign).wf(),
        crate::state::lifecycle_step(old(sovereign).state, final(sovereign).state),
        result is Err ==> *final(sovereign) == *old(sovereign),
        (match result {
            Err(e) => {
                if caller != old(sovereign).creator {
                    e == SovereignError::Unauthorized
                } else if old(sovereign).state != SovereignStatus::Failed {
                    e == SovereignError::InvalidState
                } else {
                    e == SovereignError::InsufficientVaultBalance && old(sovereign).creator_escrow
                        > 0 && vault_balance < old(sovereign).creator_escrow
                }
            },
            Ok(escrow) => {
                &&& caller == old(sovereign).creator
                &&& old(sovereign).state == SovereignStatus::Failed
                &&& escrow == old(sovereign).creator_escrow
                &&& escrow > 0 ==> vault_balance >= escrow
                &&& *final(sovereign) == (SovereignState { creator_escrow: 0, ..*old(sovereign) })
            },
        }),
{
    if caller != sovereign.creator {
        return Err(SovereignError::Unauthorized);
    }
    if sovereign.state != SovereignStatus::Failed {
        return Err(SovereignError::InvalidState);
    }
    let escrow = sovereign.creator_escrow;
    if escrow > 0 && vault_balance < escrow {
        return Err(SovereignError::InsufficientVaultBalance);
    }
    sovereign.creator_escrow = 0;
    Ok(escrow)
}

// ------------------------------------------------------------
// Laws of the bonding ledger
// ------------------------------------------------------------

/// One investor pledge applied at the specification level: the sovereign
/// after the pledge if it is accepted, unchanged if it is refused. This is
/// exactly what `deposit` does to the sovereign on the investor path.
pub open spec fn pledge_step(
    p: ProtocolState,
    s: SovereignState,
    amount: u64,
    now: i64,
) -> SovereignState {
    if deposit_check(p, s, false, amount, now) is Ok {
        invested(s, amount, false)
    } else {
        s
    }
}

/// A whole run of investor pledges, applied in order.
pub open spec fn pledge_run(
    p: ProtocolState,
    s: SovereignState,
    pledges: Seq<u64>,
    now: i64,
) -> SovereignState
    decreases pledges.len(),
{
    if pledges.len() == 0 {
        s
    } else {
        pledge_run(p, pledge_step(p, s, pledges.first(), now), pledges.drop_first(), now)
    }
}

/// Over any run of investor pledges from a well-formed `Bonding` state short
/// of its target, the deposits never exceed the bond target, and the phase is
/// `Finalizing` exactly when the deposits equal the target and `Bonding`
/// otherwise. So for a run whose accepted pledges sum to exactly the bond
/// target, the phase flips to `Finalizing` once — on the pledge that crosses
/// the threshold, never before — and stays there: every later pledge is
/// refused and changes nothing.
pub proof fn lemma_bonding_run(p: ProtocolState, s: SovereignState, pledges: Seq<u64>, now: i64)
    requires
        s.wf(),
        s.state == SovereignStatus::Bonding ==> s.total_deposited < s.bond_target,
        s.state == SovereignStatus::Finalizing ==> s.total_deposited == s.bond_target,
        s.state == SovereignStatus::Bonding || s.state == SovereignStatus::Finalizing,
    ensures
        pledge_run(p, s, pledges, now).wf(),
        pledge_run(p, s, pledges, now).bond_target == s.bond_target,
        pledge_run(p, s, pledges, now).total_deposited <= s.bond_target,
        pledge_run(p, s, pledges, now).state == SovereignStatus::Finalizing <==> pledge_run(
            p,
            s,
            pledges,
            now,
        ).total_deposited == s.bond_target,
        pledge_run(p, s, pledges, now).state == SovereignStatus::Bonding <==> pledge_run(
            p,
            s,
            pledges,
            now,
        ).total_deposited < s.bond_target,
    decreases pledges.len(),
{
    if pledges.len() > 0 {
        let s1 = pledge_step(p, s, pledges.first(), now);
        lemma_bonding_run(p, s1, pledges.drop_first(), now);
    }
}

/// Once the phase has left `Bonding`, no pledge changes anything: the phase
/// flip is final for the bonding ledger.
pub proof fn lemma_no_pledge_after_bonding(
    p: ProtocolState,
    s: SovereignState,
    pledges: Seq<u64>,
    now: i64,
)
    requires
        s.state != SovereignStatus::Bonding,
    ensures
        pledge_run(p, s, pledges, now) == s,
    decreases pledges.len(),
{
    if pledges.len() > 0 {
        lemma_no_pledge_after_bonding(p, s, pledges.drop_first(), now);
    }
}

/// The sum of all recorded pledges.
pub open spec fn total_pledged(records: Seq<DepositRecord>) -> int
    decreases records.len(),
{
    if records.len() == 0 {
        0
    } else {
        records.first().amount + total_pledged(records.drop_first())
    }
}

/// Changing one record changes the sum by the difference at that index.
proof fn lemma_total_pledged_update(records: Seq<DepositRecord>, i: int, r: DepositRecord)
    requires
        0 <= i < records.len(),
    ensures
        total_pledged(records.update(i, r)) == total_pledged(records) - records[i].amount
            + r.amount,
    decreases records.len(),
{
    if i == 0 {
        assert(records.update(0, r).first() == r);
        assert(records.update(0, r).drop_first() =~= records.drop_first());
    } else {
        assert(records.update(i, r).first() == records.first());
        assert(records.update(i, r).drop_first() =~= records.drop_first().update(i - 1, r));
        lemma_total_pledged_update(records.drop_first(), i - 1, r);
    }
}

/// The ledger invariant `sum(record.amount) == total_deposited` is preserved
/// by every pledge and withdrawal: each changes exactly one record and the
/// sovereign's total by the same difference (as the contracts of `deposit`
/// and `withdraw` state), so the sum of the updated ledger equals the new
/// total.
pub proof fn lemma_ledger_sum_preserved(
    records: Seq<DepositRecord>,
    i: int,
    updated: DepositRecord,
    s_pre: SovereignState,
    s_post: SovereignState,
)
    requires
        0 <= i < records.len(),
        total_pledged(records) == s_pre.total_deposited,
        updated.amount - records[i].amount == s_post.total_deposited - s_pre.total_deposited,
    ensures
        total_pledged(records.update(i, updated)) == s_post.total_deposited,
{
    lemma_total_pledged_update(records, i, updated);
}

} // verus!
