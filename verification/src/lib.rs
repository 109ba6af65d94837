//! A liquidity-bootstrapping protocol core: participants pledge capital toward
//! a funding target during a bounded bonding window; on success the pledged
//! capital is committed to a market-making position whose trading fees first
//! repay depositor principal and are then routed to creator/investor revenue
//! share. Position holders can vote to unwind the position, subject to a
//! post-vote observation window, and a protocol-level safety valve allows
//! forced unwind with solvency-protected fund recovery.
//!
//! This crate holds the lifecycle state machine and the financial
//! distribution/unwind engine, verified: phase transitions, proportional-share
//! accounting, fee routing by mode and phase, the governance-gated unwind
//! protocol with its volume-based cancellation check, and the emergency
//! safety valve's extraction formula. The host runtime (accounts, token
//! transfers, the external liquidity pool) is a collaborator: it performs the
//! transfers and pool calls that the functions here decide on, and hands their
//! results back as plain values.
use vstd::prelude::*;

pub mod activity;
pub mod admin;
pub mod bonding;
pub mod constants;
pub mod emergency;
pub mod errors;
pub mod fees;
pub mod finalize;
pub mod governance;
pub mod launch;
pub mod math;
pub mod state;

verus! {

} // verus!
