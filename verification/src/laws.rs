//! The collateralization laws of the position arithmetic.
//!
//! A position is collateralized when its outstanding claim, scaled by the
//! collateral ratio with the percentage division rounding down, fits in
//! its locked collateral. The headroom check of a mint compares the scaled
//! old claim plus the scaled request against the collateral; because both
//! scalings round down separately, the scaled sum can exceed their sum by
//! one unit when both the old claim and the request are odd, so on that
//! exact boundary a successful mint may leave the claim one scaled unit
//! past the collateral. Away from that boundary the check preserves
//! collateralization, and a burn always preserves it.

use vstd::arithmetic::div_mod::{
    lemma_div_is_ordered, lemma_fundamental_div_mod, lemma_fundamental_div_mod_converse,
    lemma_hoist_over_denominator,
};
use vstd::prelude::*;

use crate::ops::collateral_for;

verus! {

/// The scaled backing requirement, split into its whole and rounded
/// parts: scaling `x` by 150% and rounding down yields three halves of
/// the even part of `x`, plus one for an odd remainder.
pub proof fn lemma_collateral_for_split(x: int)
    requires
        0 <= x,
    ensures
        collateral_for(x) == 3 * (x / 2) + (x % 2),
{
    lemma_fundamental_div_mod(x, 2);
    assert(x * 150 == 150 * (x % 2) + (3 * (x / 2)) * 100) by {
        assert(x == 2 * (x / 2) + (x % 2));
    };
    lemma_hoist_over_denominator(150 * (x % 2), 3 * (x / 2), 100);
}

/// A mint that passes the headroom check preserves the position's
/// collateralization, outside the one rounding boundary: when the old
/// claim and the minted amount are both odd and the collateral equals
/// the two scaled parts exactly, the combined scaling gains one unit and
/// the conclusion fails; every other accepted mint keeps the scaled new
/// claim within the collateral.
pub proof fn lemma_mint_preserves_collateralization(minted: u64, amount: u64, collateral: u64)
    requires
        collateral_for(minted as int) + collateral_for(amount as int) <= collateral,
        !(minted % 2 == 1 && amount % 2 == 1
            && collateral == collateral_for(minted as int) + collateral_for(amount as int)),
    ensures
        collateral_for(minted + amount) <= collateral,
{
    let m = minted as int;
    let a = amount as int;
    lemma_collateral_for_split(m);
    lemma_collateral_for_split(a);
    lemma_collateral_for_split(m + a);
    lemma_fundamental_div_mod(m, 2);
    lemma_fundamental_div_mod(a, 2);
    if m % 2 == 1 && a % 2 == 1 {
        lemma_fundamental_div_mod_converse(m + a, 2, m / 2 + a / 2 + 1, 0);
    } else {
        lemma_fundamental_div_mod_converse(m + a, 2, m / 2 + a / 2, m % 2 + a % 2);
    }
}

/// A burn never breaks collateralization: reducing the claim only lowers
/// the scaled backing requirement, and the locked collateral stays.
pub proof fn lemma_burn_preserves_collateralization(minted: u64, amount: u64, collateral: u64)
    requires
        amount <= minted,
        collateral_for(minted as int) <= collateral,
    ensures
        collateral_for(minted - amount) <= collateral,
{
    lemma_div_is_ordered((minted - amount) * 150, minted as int * 150, 100);
}

} // verus!
