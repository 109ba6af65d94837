//! The activity check: a protocol-controlled liveness prod for an `Active`
//! sovereign. Anyone may start the countdown; the creator cancels it by
//! showing up; if nobody does within the period, the sovereign is pushed
//! into `Unwinding`. A cancelled check leaves a cooldown against immediate
//! re-initiation.
use vstd::prelude::*;

use crate::constants::{ACTIVITY_CHECK_COOLDOWN, ACTIVITY_CHECK_PERIOD_SECONDS};
use crate::errors::SovereignError;
use crate::state::{Address, SovereignState, SovereignStatus};

verus! {

/// Start the activity-check countdown. Refused while a check or a proposal
/// is already pending, and during the cooldown after a cancelled check.
/// On error nothing changes.
pub fn initiate_activity_check(sovereign: &mut SovereignState, now: i64) -> (result: Result<
    (),
    SovereignError,
>)
    requires
        old(sovereign).wf(),
    ensures
        final(sovereign).wf(),
        crate::state::lifecycle_step(old(sovereign).state, final(sovereign).state),
        result is Err ==> *final(sovereign) == *old(sovereign),
        (match result {
            Err(e) => {
                if old(sovereign).state != SovereignStatus::Active {
                    e == SovereignError::InvalidState
                } else if old(sovereign).activity_check_initiated_at is Some {
                    e == SovereignError::ActivityCheckAlreadyPending
                } else if old(sovereign).has_active_proposal {
                    e == SovereignError::ActiveProposalExists
                } else {
                    &&& e == SovereignError::ActivityCheckCooldownNotElapsed
                    &&& old(sovereign).activity_check_last_cancelled > 0
                    &&& now - old(sovereign).activity_check_last_cancelled
                        < ACTIVITY_CHECK_COOLDOWN
                }
            },
            Ok(_) => {
                &&& old(sovereign).state == SovereignStatus::Active
                &&& old(sovereign).activity_check_initiated_at is None
                &&& !old(sovereign).has_active_proposal
                &&& (old(sovereign).activity_check_last_cancelled > 0 ==> now - old(
                    sovereign,
                ).activity_check_last_cancelled >= ACTIVITY_CHECK_COOLDOWN)
                &&& *final(sovereign) == (SovereignState {
                    activity_check_initiated: true,
                    activity_check_initiated_at: Some(now),
                    activity_check_timestamp: now,
                    ..*old(sovereign)
                })
            },
        }),
{
    if sovereign.state != SovereignStatus::Active {
        return Err(SovereignError::InvalidState);
    }
    if sovereign.activity_check_initiated_at.is_some() {
        return Err(SovereignError::ActivityCheckAlreadyPending);
    }
    if sovereign.has_active_proposal {
        return Err(SovereignError::ActiveProposalExists);
    }
    if sovereign.activity_check_last_cancelled > 0 {
        let elapsed: i128 = (now as i128) - (sovereign.activity_check_last_cancelled as i128);
        if elapsed < ACTIVITY_CHECK_COOLDOWN as i128 {
            return Err(SovereignError::ActivityCheckCooldownNotElapsed);
        }
    }
    sovereign.activity_check_initiated = true;
    sovereign.activity_check_initiated_at = Some(now);
    sovereign.activity_check_timestamp = now;
    Ok(())
}

/// The creator cancels a pending activity check, proving liveness. The
/// cancellation time is recorded for the cooldown. On error nothing changes.
pub fn cancel_activity_check(sovereign: &mut SovereignState, caller: Address, now: i64) -> (result:
    Result<(), SovereignError>)
    requires
        old(sovereign).wf(),
    ensures
        final(sovereign).wf(),
        crate::state::lifecycle_step(old(sovereign).state, final(sovereign).state),
        result is Err ==> *final(sovereign) == *old(sovereign),
        (match result {
            Err(e) => {
                if caller != old(sovereign).creator {
                    e == SovereignError::Unauthorized
                } else {
                    e == SovereignError::NoActivityCheckPending && old(
                        sovereign,
                    ).activity_check_initiated_at is None
                }
            },
            Ok(_) => {
                &&& caller == old(sovereign).creator
                &&& old(sovereign).activity_check_initiated_at is Some
                &&& *final(sovereign) == (SovereignState {
                    activity_check_initiated: false,
                    activity_check_initiated_at: None,
                    last_activity: now,
                    activity_check_last_cancelled: now,
                    ..*old(sovereign)
                })
            },
        }),
{
    if caller != sovereign.creator {
        return Err(SovereignError::Unauthorized);
    }
    if sovereign.activity_check_initiated_at.is_none() {
        return Err(SovereignError::NoActivityCheckPending);
    }
    sovereign.activity_check_initiated = false;
    sovereign.activity_check_initiated_at = None;
    sovereign.last_activity = now;
    sovereign.activity_check_last_cancelled = now;
    Ok(())
}

/// Execute an elapsed activity check: the creator failed to respond within
/// the period, so the sovereign is pushed into `Unwinding`. On error nothing
/// changes.
pub fn execute_activity_check(sovereign: &mut SovereignState, now: i64) -> (result: Result<
    (),
    SovereignError,
>)
    requires
        old(sovereign).wf(),
    ensures
        final(sovereign).wf(),
        crate::state::lifecycle_step(old(sovereign).state, final(sovereign).state),
        result is Err ==> *final(sovereign) == *old(sovereign),
        (match result {
            Err(e) => {
                if old(sovereign).state != SovereignStatus::Active {
                    e == SovereignError::InvalidState
                } else if old(sovereign).activity_check_initiated_at is None {
                    e == SovereignError::NoActivityCheckPending
                } else {
                    &&& e == SovereignError::ActivityCheckPeriodNotElapsed
                    &&& now - old(sovereign).activity_check_initiated_at->0
                        < ACTIVITY_CHECK_PERIOD_SECONDS
                }
            },
            Ok(_) => {
                &&& old(sovereign).state == SovereignStatus::Active
                &&& old(sovereign).activity_check_initiated_at is Some
                &&& now - old(sovereign).activity_check_initiated_at->0
                    >= ACTIVITY_CHECK_PERIOD_SECONDS
                &&& *final(sovereign) == (SovereignState {
                    state: SovereignStatus::Unwinding,
                    activity_check_initiated: false,
                    activity_check_initiated_at: None,
                    ..*old(sovereign)
                })
            },
        }),
{
    if sovereign.state != SovereignStatus::Active {
        return Err(SovereignError::InvalidState);
    }
    match sovereign.activity_check_initiated_at {
        None => Err(SovereignError::NoActivityCheckPending),
        Some(initiated_at) => {
            let elapsed: i128 = (now as i128) - (initiated_at as i128);
            if elapsed < ACTIVITY_CHECK_PERIOD_SECONDS as i128 {
                return Err(SovereignError::ActivityCheckPeriodNotElapsed);
            }
            sovereign.state = SovereignStatus::Unwinding;
            sovereign.activity_check_initiated = false;
            sovereign.activity_check_initiated_at = None;
            Ok(())
        },
    }
}

} // verus!
