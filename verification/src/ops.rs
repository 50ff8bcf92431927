//! The per-record state transitions: registering collateral, minting
//! against a proof-gated claim, and burning to release collateral.
//!
//! Every arithmetic step is checked; any overflow or underflow rejects the
//! whole operation with [`BridgeError::Overflow`] and no state change. The
//! external asset movements are not performed here: each successful
//! transition returns the amount that the asset-transfer primitive must
//! move when the caller commits it.

use vstd::arithmetic::div_mod::{lemma_div_is_ordered, lemma_div_multiples_vanish};
use vstd::prelude::*;

use crate::state::{bytes32_eq, BlockRoot, BridgeError, BridgeState, LpPosition};
use crate::{COLLATERAL_RATIO, MINT_FEE_BPS};

verus! {

/// The collateral that must back a claim of `amount`: the amount scaled by
/// the collateral ratio, with the percentage division rounding down.
pub open spec fn collateral_for(amount: int) -> int {
    amount * (COLLATERAL_RATIO as int) / 100
}

/// The mint fee withheld from `amount`, in basis points, rounding down.
pub open spec fn mint_fee(amount: int) -> int {
    amount * (MINT_FEE_BPS as int) / 10000
}

/// The position has headroom for a further claim of `amount`: the scaled
/// already-minted claim plus the scaled new amount fit in its collateral.
pub open spec fn mint_headroom_ok(lp: LpPosition, amount: u64) -> bool {
    collateral_for(lp.minted_amount as int) + collateral_for(amount as int)
        <= lp.collateral_amount as int
}

/// Every checked arithmetic step of a mint of `amount` stays in range.
pub open spec fn mint_fits(bridge: BridgeState, lp: LpPosition, amount: u64) -> bool {
    &&& amount * COLLATERAL_RATIO <= u64::MAX
    &&& lp.minted_amount * COLLATERAL_RATIO <= u64::MAX
    &&& lp.minted_amount + amount <= u64::MAX
    &&& bridge.total_minted + amount <= u64::MAX
}

/// The gates a mint must pass before collateral is even considered: the
/// bridge is live, the amount is positive, the claimed height and output
/// root match the oracle record, and the external verifier accepted.
pub open spec fn mint_gates_pass(
    bridge: BridgeState,
    root: BlockRoot,
    amount: u64,
    proof_ok: bool,
    merkle_root: [u8; 32],
    block_height: u64,
) -> bool {
    &&& !bridge.paused
    &&& amount > 0
    &&& root.block_height == block_height
    &&& root.output_merkle_root@ == merkle_root@
    &&& proof_ok
}

/// A mint of `amount` succeeds exactly when its gates pass, its arithmetic
/// fits, and the position's headroom covers the scaled amount.
pub open spec fn mint_accepted(
    bridge: BridgeState,
    lp: LpPosition,
    root: BlockRoot,
    amount: u64,
    proof_ok: bool,
    merkle_root: [u8; 32],
    block_height: u64,
) -> bool {
    &&& mint_gates_pass(bridge, root, amount, proof_ok, merkle_root, block_height)
    &&& mint_fits(bridge, lp, amount)
    &&& mint_headroom_ok(lp, amount)
}

/// Registers a liquidity provider: creates its position and credits the
/// bridge's collateral aggregate.
///
/// On success the caller must move `initial_collateral` units of the
/// collateral asset from the provider to the vault before committing, and
/// store the returned position under the provider's identity; a transfer
/// failure discards the whole transition.
pub fn register_lp(
    bridge: &mut BridgeState,
    owner: [u8; 32],
    initial_collateral: u64,
    now: i64,
) -> (r: Result<LpPosition, BridgeError>)
    ensures
        r is Ok <==> initial_collateral > 0
            && old(bridge).total_collateral + initial_collateral <= u64::MAX,
        initial_collateral == 0 ==> r == Err::<LpPosition, BridgeError>(BridgeError::InvalidAmount),
        initial_collateral > 0 && old(bridge).total_collateral + initial_collateral > u64::MAX
            ==> r == Err::<LpPosition, BridgeError>(BridgeError::Overflow),
        r is Err ==> *final(bridge) == *old(bridge),
        r matches Ok(lp) ==> lp == (LpPosition {
            owner,
            collateral_amount: initial_collateral,
            minted_amount: 0,
            last_update: now,
        }),
        r is Ok ==> *final(bridge) == (BridgeState {
            total_collateral: (old(bridge).total_collateral + initial_collateral) as u64,
            ..*old(bridge)
        }),
{
    if initial_collateral == 0 {
        return Err(BridgeError::InvalidAmount);
    }
    let new_total: u64 = match bridge.total_collateral.checked_add(initial_collateral) {
        Some(v) => v,
        None => {
            return Err(BridgeError::Overflow);
        },
    };
    let lp = LpPosition { owner, collateral_amount: initial_collateral, minted_amount: 0, last_update: now };
    bridge.total_collateral = new_total;
    Ok(lp)
}

/// Mints synthetic units against a position, gated on a recorded oracle
/// digest and the external verifier's verdict.
///
/// `proof_ok` is that verdict, obtained by running the verifier on the
/// proof bytes and public inputs against the stored verification key; a
/// mint never proceeds without an affirmative one.
///
/// On success the caller must mint the returned amount — the request
/// minus the mint fee — of the synthetic asset to the user before
/// committing; the position's claim and the bridge's total grow by the
/// full request, so the locked collateral backs the fee as well.
pub fn mint_wxmr(
    bridge: &mut BridgeState,
    lp: &mut LpPosition,
    block_root: &BlockRoot,
    amount: u64,
    proof_ok: bool,
    merkle_root: &[u8; 32],
    block_height: u64,
    now: i64,
) -> (r: Result<u64, BridgeError>)
    ensures
        r is Ok <==> mint_accepted(
            *old(bridge), *old(lp), *block_root, amount, proof_ok, *merkle_root, block_height,
        ),
        old(bridge).paused ==> r == Err::<u64, BridgeError>(BridgeError::Paused),
        !old(bridge).paused && amount == 0
            ==> r == Err::<u64, BridgeError>(BridgeError::InvalidAmount),
        !old(bridge).paused && amount > 0 && block_root.block_height != block_height
            ==> r == Err::<u64, BridgeError>(BridgeError::InvalidBlockHeight),
        !old(bridge).paused && amount > 0 && block_root.block_height == block_height
            && block_root.output_merkle_root@ != merkle_root@
            ==> r == Err::<u64, BridgeError>(BridgeError::InvalidMerkleRoot),
        !old(bridge).paused && amount > 0 && block_root.block_height == block_height
            && block_root.output_merkle_root@ == merkle_root@ && !proof_ok
            ==> r == Err::<u64, BridgeError>(BridgeError::ProofRejected),
        mint_gates_pass(*old(bridge), *block_root, amount, proof_ok, *merkle_root, block_height)
            && amount * COLLATERAL_RATIO > u64::MAX
            ==> r == Err::<u64, BridgeError>(BridgeError::Overflow),
        mint_gates_pass(*old(bridge), *block_root, amount, proof_ok, *merkle_root, block_height)
            && amount * COLLATERAL_RATIO <= u64::MAX
            && old(lp).minted_amount * COLLATERAL_RATIO > u64::MAX
            ==> r == Err::<u64, BridgeError>(BridgeError::Overflow),
        mint_gates_pass(*old(bridge), *block_root, amount, proof_ok, *merkle_root, block_height)
            && amount * COLLATERAL_RATIO <= u64::MAX
            && old(lp).minted_amount * COLLATERAL_RATIO <= u64::MAX
            && !mint_headroom_ok(*old(lp), amount)
            ==> r == Err::<u64, BridgeError>(BridgeError::InsufficientCollateral),
        mint_gates_pass(*old(bridge), *block_root, amount, proof_ok, *merkle_root, block_height)
            && amount * COLLATERAL_RATIO <= u64::MAX
            && old(lp).minted_amount * COLLATERAL_RATIO <= u64::MAX
            && mint_headroom_ok(*old(lp), amount)
            && old(lp).minted_amount + amount > u64::MAX
            ==> r == Err::<u64, BridgeError>(BridgeError::Overflow),
        mint_gates_pass(*old(bridge), *block_root, amount, proof_ok, *merkle_root, block_height)
            && amount * COLLATERAL_RATIO <= u64::MAX
            && old(lp).minted_amount * COLLATERAL_RATIO <= u64::MAX
            && mint_headroom_ok(*old(lp), amount)
            && old(lp).minted_amount + amount <= u64::MAX
            && old(bridge).total_minted + amount > u64::MAX
            ==> r == Err::<u64, BridgeError>(BridgeError::Overflow),
        r is Err ==> *final(bridge) == *old(bridge) && *final(lp) == *old(lp),
        r matches Ok(minted_out) ==> minted_out == amount - mint_fee(amount as int),
        r is Ok ==> *final(lp) == (LpPosition {
            minted_amount: (old(lp).minted_amount + amount) as u64,
            last_update: now,
            ..*old(lp)
        }),
        r is Ok ==> *final(bridge) == (BridgeState {
            total_minted: (old(bridge).total_minted + amount) as u64,
            ..*old(bridge)
        }),
{
    if bridge.paused {
        return Err(BridgeError::Paused);
    }
    if amount == 0 {
        return Err(BridgeError::InvalidAmount);
    }
    if block_root.block_height != block_height {
        return Err(BridgeError::InvalidBlockHeight);
    }
    if !bytes32_eq(&block_root.output_merkle_root, merkle_root) {
        return Err(BridgeError::InvalidMerkleRoot);
    }
    if !proof_ok {
        return Err(BridgeError::ProofRejected);
    }

    let required_collateral: u64 = match amount.checked_mul(COLLATERAL_RATIO) {
        Some(scaled) => scaled / 100,
        None => {
            return Err(BridgeError::Overflow);
        },
    };
    let minted_scaled: u64 = match lp.minted_amount.checked_mul(COLLATERAL_RATIO) {
        Some(scaled) => scaled / 100,
        None => {
            return Err(BridgeError::Overflow);
        },
    };
    let available_collateral: u64 = match lp.collateral_amount.checked_sub(minted_scaled) {
        Some(v) => v,
        None => {
            return Err(BridgeError::InsufficientCollateral);
        },
    };
    if available_collateral < required_collateral {
        return Err(BridgeError::InsufficientCollateral);
    }

    let fee: u64 = match amount.checked_mul(MINT_FEE_BPS) {
        Some(scaled) => scaled / 10000,
        None => {
            return Err(BridgeError::Overflow);
        },
    };
    proof {
        lemma_div_is_ordered(amount as int * (MINT_FEE_BPS as int), amount as int * 10000, 10000);
        lemma_div_multiples_vanish(amount as int, 10000);
    }
    let amount_after_fee: u64 = amount - fee;

    let new_minted: u64 = match lp.minted_amount.checked_add(amount) {
        Some(v) => v,
        None => {
            return Err(BridgeError::Overflow);
        },
    };
    let new_total: u64 = match bridge.total_minted.checked_add(amount) {
        Some(v) => v,
        None => {
            return Err(BridgeError::Overflow);
        },
    };

    lp.minted_amount = new_minted;
    lp.last_update = now;
    bridge.total_minted = new_total;
    Ok(amount_after_fee)
}

/// A burn of `amount` succeeds exactly when the bridge is live, the amount
/// is positive and covered by the position's claim, the scaling fits, and
/// the vault aggregate covers the released collateral.
pub open spec fn burn_accepted(bridge: BridgeState, lp: LpPosition, amount: u64) -> bool {
    &&& !bridge.paused
    &&& amount > 0
    &&& lp.minted_amount >= amount
    &&& amount * COLLATERAL_RATIO <= u64::MAX
    &&& bridge.total_minted >= amount
    &&& bridge.total_collateral >= collateral_for(amount as int)
}

/// Burns synthetic units to release collateral.
///
/// On success the caller must burn the full `amount` of the synthetic
/// asset from the user and transfer the returned collateral — the amount
/// scaled by the collateral ratio — from the vault to the provider before
/// committing. The burn fee configured in [`crate::BURN_FEE_BPS`] is retained
/// implicitly: it alters no balance of this core.
pub fn burn_wxmr(
    bridge: &mut BridgeState,
    lp: &mut LpPosition,
    amount: u64,
    now: i64,
) -> (r: Result<u64, BridgeError>)
    ensures
        r is Ok <==> burn_accepted(*old(bridge), *old(lp), amount),
        old(bridge).paused ==> r == Err::<u64, BridgeError>(BridgeError::Paused),
        !old(bridge).paused && amount == 0
            ==> r == Err::<u64, BridgeError>(BridgeError::InvalidAmount),
        !old(bridge).paused && amount > 0 && old(lp).minted_amount < amount
            ==> r == Err::<u64, BridgeError>(BridgeError::InsufficientMinted),
        !old(bridge).paused && amount > 0 && old(lp).minted_amount >= amount
            && amount * COLLATERAL_RATIO > u64::MAX
            ==> r == Err::<u64, BridgeError>(BridgeError::Overflow),
        !old(bridge).paused && amount > 0 && old(lp).minted_amount >= amount
            && amount * COLLATERAL_RATIO <= u64::MAX
            && old(bridge).total_minted < amount
            ==> r == Err::<u64, BridgeError>(BridgeError::Overflow),
        !old(bridge).paused && amount > 0 && old(lp).minted_amount >= amount
            && amount * COLLATERAL_RATIO <= u64::MAX
            && old(bridge).total_minted >= amount
            && old(bridge).total_collateral < collateral_for(amount as int)
            ==> r == Err::<u64, BridgeError>(BridgeError::Overflow),
        r is Err ==> *final(bridge) == *old(bridge) && *final(lp) == *old(lp),
        r matches Ok(released) ==> released == collateral_for(amount as int),
        r is Ok ==> *final(lp) == (LpPosition {
            minted_amount: (old(lp).minted_amount - amount) as u64,
            last_update: now,
            ..*old(lp)
        }),
        r is Ok ==> *final(bridge) == (BridgeState {
            total_minted: (old(bridge).total_minted - amount) as u64,
            total_collateral: (old(bridge).total_collateral - collateral_for(amount as int)) as u64,
            ..*old(bridge)
        }),
{
    if bridge.paused {
        return Err(BridgeError::Paused);
    }
    if amount == 0 {
        return Err(BridgeError::InvalidAmount);
    }
    if lp.minted_amount < amount {
        return Err(BridgeError::InsufficientMinted);
    }

    let collateral_to_release: u64 = match amount.checked_mul(COLLATERAL_RATIO) {
        Some(scaled) => scaled / 100,
        None => {
            return Err(BridgeError::Overflow);
        },
    };
    let new_minted: u64 = lp.minted_amount - amount;
    let new_total_minted: u64 = match bridge.total_minted.checked_sub(amount) {
        Some(v) => v,
        None => {
            return Err(BridgeError::Overflow);
        },
    };
    let new_total_collateral: u64 = match bridge.total_collateral.checked_sub(collateral_to_release) {
        Some(v) => v,
        None => {
            return Err(BridgeError::Overflow);
        },
    };

    lp.minted_amount = new_minted;
    lp.last_update = now;
    bridge.total_minted = new_total_minted;
    bridge.total_collateral = new_total_collateral;
    Ok(collateral_to_release)
}

} // verus!
