//! Accounting core of a collateral-backed synthetic-asset bridge.
//!
//! Liquidity providers lock collateral; once an oracle has recorded a block
//! digest and an external proof verifier has accepted a deposit claim, a
//! synthetic token may be minted against that collateral up to a fixed
//! ratio, and later burned to release collateral again.
//!
//! This crate holds the state transitions and the numeric invariants only.
//! The external collaborators — the proof verifier, the asset-transfer
//! primitive that actually moves token balances, the clock and the caller
//! authentication — stay outside: their results (the verifier's verdict,
//! the current time) enter the operations as plain arguments, and the
//! operations return the amounts that the asset-transfer primitive must
//! move when the transition is committed.

use vstd::prelude::*;

pub mod laws;
pub mod ledger;
pub mod ops;
pub mod state;

verus! {

/// Required backing, as a percentage of the minted claim (150%).
pub const COLLATERAL_RATIO: u64 = 150;

/// Collateralization percentage below which a position could be liquidated.
/// Configuration only: no liquidation operation is defined here.
pub const LIQUIDATION_THRESHOLD: u64 = 120;

/// Mint fee in basis points (0.30%).
pub const MINT_FEE_BPS: u64 = 30;

/// Burn fee in basis points (0.30%).
pub const BURN_FEE_BPS: u64 = 30;

/// Upper bound on the stored verification key material, in bytes.
pub const MAX_VERIFICATION_KEY_LEN: usize = 1024;

} // verus!
