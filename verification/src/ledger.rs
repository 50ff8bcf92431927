//! The whole-bridge ledger: the singleton state together with the keyed
//! position and oracle-record stores, and the four operations over it.
//!
//! The ledger maintains the global accounting invariants: the minted
//! aggregate always equals the sum of the outstanding claims, owners and
//! recorded block heights are unique, and the vault aggregate never
//! exceeds the collateral ever locked.

use vstd::prelude::*;

use crate::ops::{
    burn_wxmr, collateral_for, mint_fee, mint_fits, mint_headroom_ok, mint_wxmr, register_lp,
};
use crate::state::{
    bytes32_eq, initialize, submit_merkle_root, BlockRoot, BridgeError, BridgeState, LpPosition,
};
use crate::COLLATERAL_RATIO;

verus! {

/// Sum of the outstanding minted claims of a sequence of positions.
pub open spec fn sum_minted(s: Seq<LpPosition>) -> int
    decreases s.len(),
{
    if s.len() == 0 {
        0
    } else {
        sum_minted(s.drop_last()) + s.last().minted_amount
    }
}

/// Sum of the locked collateral of a sequence of positions.
pub open spec fn sum_collateral(s: Seq<LpPosition>) -> int
    decreases s.len(),
{
    if s.len() == 0 {
        0
    } else {
        sum_collateral(s.drop_last()) + s.last().collateral_amount
    }
}

/// No two positions belong to the same owner.
pub open spec fn owners_unique(s: Seq<LpPosition>) -> bool {
    forall|i: int, j: int| 0 <= i < j < s.len() ==> s[i].owner@ != s[j].owner@
}

/// No two oracle records cover the same block height.
pub open spec fn heights_unique(s: Seq<BlockRoot>) -> bool {
    forall|i: int, j: int| 0 <= i < j < s.len() ==> s[i].block_height != s[j].block_height
}

/// Some position belongs to `owner`.
pub open spec fn has_owner(s: Seq<LpPosition>, owner: [u8; 32]) -> bool {
    exists|i: int| 0 <= i < s.len() && (#[trigger] s[i]).owner@ == owner@
}

/// Some oracle record covers `height`.
pub open spec fn has_height(s: Seq<BlockRoot>, height: u64) -> bool {
    exists|i: int| 0 <= i < s.len() && (#[trigger] s[i]).block_height == height
}

/// The index of the position belonging to `owner`; with unique owners it
/// is the only one.
pub open spec fn owner_index(s: Seq<LpPosition>, owner: [u8; 32]) -> int {
    choose|i: int| 0 <= i < s.len() && (#[trigger] s[i]).owner@ == owner@
}

/// The index of the oracle record covering `height`; with unique heights
/// it is the only one.
pub open spec fn height_index(s: Seq<BlockRoot>, height: u64) -> int {
    choose|i: int| 0 <= i < s.len() && (#[trigger] s[i]).block_height == height
}

/// The position belonging to `owner`.
pub open spec fn position_for(s: Seq<LpPosition>, owner: [u8; 32]) -> LpPosition {
    s[owner_index(s, owner)]
}

/// The oracle record covering `height`.
pub open spec fn root_for(s: Seq<BlockRoot>, height: u64) -> BlockRoot {
    s[height_index(s, height)]
}

proof fn lemma_sum_minted_nonneg(s: Seq<LpPosition>)
    ensures
        sum_minted(s) >= 0,
    decreases s.len(),
{
    if s.len() > 0 {
        lemma_sum_minted_nonneg(s.drop_last());
    }
}

proof fn lemma_sums_push(s: Seq<LpPosition>, p: LpPosition)
    ensures
        sum_minted(s.push(p)) == sum_minted(s) + p.minted_amount,
        sum_collateral(s.push(p)) == sum_collateral(s) + p.collateral_amount,
{
    assert(s.push(p).drop_last() =~= s);
}

proof fn lemma_sums_update(s: Seq<LpPosition>, i: int, p: LpPosition)
    requires
        0 <= i < s.len(),
    ensures
        sum_minted(s.update(i, p)) == sum_minted(s) - s[i].minted_amount + p.minted_amount,
        sum_collateral(s.update(i, p)) == sum_collateral(s) - s[i].collateral_amount
            + p.collateral_amount,
    decreases s.len(),
{
    let t = s.update(i, p);
    if i == s.len() - 1 {
        assert(t.drop_last() =~= s.drop_last());
        assert(t.last() == p);
    } else {
        assert(t.drop_last() =~= s.drop_last().update(i, p));
        assert(t.last() == s.last());
        lemma_sums_update(s.drop_last(), i, p);
    }
}

/// Each position's claim is bounded by the sum over all positions.
proof fn lemma_sum_minted_le(s: Seq<LpPosition>, i: int)
    requires
        0 <= i < s.len(),
    ensures
        s[i].minted_amount <= sum_minted(s),
    decreases s.len(),
{
    if i == s.len() - 1 {
        lemma_sum_minted_nonneg(s.drop_last());
    } else {
        lemma_sum_minted_le(s.drop_last(), i);
    }
}

/// The gates a ledger-level mint must pass before collateral is
/// considered: bridge live, positive amount, an oracle record at the
/// claimed height whose output root matches, and an accepting verifier.
pub open spec fn mint_ledger_gates(
    b: Bridge,
    amount: u64,
    proof_ok: bool,
    merkle_root: [u8; 32],
    block_height: u64,
) -> bool {
    &&& !b.state.paused
    &&& amount > 0
    &&& has_height(b.block_roots@, block_height)
    &&& root_for(b.block_roots@, block_height).output_merkle_root@ == merkle_root@
    &&& proof_ok
}

/// A ledger-level mint succeeds exactly when its gates pass, its
/// arithmetic fits, and the owner's position has the headroom.
pub open spec fn mint_ledger_accepted(
    b: Bridge,
    owner: [u8; 32],
    amount: u64,
    proof_ok: bool,
    merkle_root: [u8; 32],
    block_height: u64,
) -> bool {
    &&& mint_ledger_gates(b, amount, proof_ok, merkle_root, block_height)
    &&& mint_fits(b.state, position_for(b.positions@, owner), amount)
    &&& mint_headroom_ok(position_for(b.positions@, owner), amount)
}

/// A ledger-level burn succeeds exactly when the bridge is live, the
/// amount is positive and covered by the owner's claim, the scaling fits,
/// and the vault aggregate covers the released collateral.
pub open spec fn burn_ledger_accepted(b: Bridge, owner: [u8; 32], amount: u64) -> bool {
    &&& !b.state.paused
    &&& amount > 0
    &&& position_for(b.positions@, owner).minted_amount >= amount
    &&& amount * COLLATERAL_RATIO <= u64::MAX
    &&& b.state.total_collateral >= collateral_for(amount as int)
}

/// One deployed bridge: its singleton state, the positions keyed by owner,
/// and the append-only oracle ledger keyed by block height.
pub struct Bridge {
    pub state: BridgeState,
    pub positions: Vec<LpPosition>,
    pub block_roots: Vec<BlockRoot>,
}

impl Bridge {
    /// The minted aggregate equals the sum of the outstanding claims.
    pub open spec fn minted_balanced(self) -> bool {
        self.state.total_minted == sum_minted(self.positions@)
    }

    /// The vault aggregate equals the sum of the locked collateral. Burns
    /// release collateral without reducing any position's locked amount,
    /// so only registration, minting and oracle recording keep this.
    pub open spec fn collateral_balanced(self) -> bool {
        self.state.total_collateral == sum_collateral(self.positions@)
    }

    /// The invariant every operation preserves.
    pub open spec fn wf(self) -> bool {
        &&& owners_unique(self.positions@)
        &&& heights_unique(self.block_roots@)
        &&& self.minted_balanced()
        &&& self.state.total_collateral <= sum_collateral(self.positions@)
        &&& self.state.verification_key@.len() <= crate::MAX_VERIFICATION_KEY_LEN
    }

    /// Creates a bridge with no positions, no oracle records and zeroed
    /// aggregates.
    pub fn new(
        authority: [u8; 32],
        wxmr_mint: [u8; 32],
        usd1_mint: [u8; 32],
        vault: [u8; 32],
        pyth_feed: [u8; 32],
        verification_key: Vec<u8>,
    ) -> (r: Bridge)
        requires
            verification_key@.len() <= crate::MAX_VERIFICATION_KEY_LEN,
        ensures
            r.wf(),
            r.collateral_balanced(),
            r.positions@.len() == 0,
            r.block_roots@.len() == 0,
            r.state.authority == authority,
            r.state.wxmr_mint == wxmr_mint,
            r.state.usd1_mint == usd1_mint,
            r.state.vault == vault,
            r.state.pyth_feed == pyth_feed,
            r.state.total_minted == 0,
            r.state.total_collateral == 0,
            !r.state.paused,
            r.state.verification_key@ == verification_key@,
    {
        let state = initialize(authority, wxmr_mint, usd1_mint, vault, pyth_feed, verification_key);
        Bridge { state, positions: Vec::new(), block_roots: Vec::new() }
    }

    /// Registers `owner` as a liquidity provider with an initial positive
    /// collateral deposit.
    ///
    /// On success the caller must move `initial_collateral` units of the
    /// collateral asset from the provider to the vault before committing;
    /// a transfer failure discards the whole transition.
    pub fn register_collateral(
        &mut self,
        owner: [u8; 32],
        initial_collateral: u64,
        now: i64,
    ) -> (r: Result<(), BridgeError>)
        requires
            old(self).wf(),
            !has_owner(old(self).positions@, owner),
        ensures
            final(self).wf(),
            r is Ok <==> initial_collateral > 0
                && old(self).state.total_collateral + initial_collateral <= u64::MAX,
            initial_collateral == 0 ==> r == Err::<(), BridgeError>(BridgeError::InvalidAmount),
            initial_collateral > 0
                && old(self).state.total_collateral + initial_collateral > u64::MAX
                ==> r == Err::<(), BridgeError>(BridgeError::Overflow),
            r is Err ==> *final(self) == *old(self),
            r is Ok ==> final(self).positions@ == old(self).positions@.push((LpPosition {
                owner,
                collateral_amount: initial_collateral,
                minted_amount: 0,
                last_update: now,
            })),
            r is Ok ==> final(self).state == (BridgeState {
                total_collateral: (old(self).state.total_collateral + initial_collateral) as u64,
                ..old(self).state
            }),
            final(self).block_roots@ == old(self).block_roots@,
            old(self).collateral_balanced() ==> final(self).collateral_balanced(),
    {
        match register_lp(&mut self.state, owner, initial_collateral, now) {
            Ok(lp) => {
                proof {
                    lemma_sums_push(self.positions@, lp);
                }
                self.positions.push(lp);
                Ok(())
            },
            Err(e) => Err(e),
        }
    }

    /// Records the digest of one external-chain block, at most once per
    /// height: a record for a height already in the ledger is refused with
    /// [`BridgeError::DuplicateRecord`], so a successful record can never
    /// be repeated for the same height.
    pub fn record_block_digest(
        &mut self,
        block_height: u64,
        block_hash: [u8; 32],
        tx_merkle_root: [u8; 32],
        output_merkle_root: [u8; 32],
        submitter: [u8; 32],
        now: i64,
    ) -> (r: Result<(), BridgeError>)
        requires
            old(self).wf(),
        ensures
            final(self).wf(),
            r is Ok <==> !has_height(old(self).block_roots@, block_height),
            r is Err ==> r == Err::<(), BridgeError>(BridgeError::DuplicateRecord)
                && *final(self) == *old(self),
            r is Ok ==> final(self).block_roots@ == old(self).block_roots@.push((BlockRoot {
                block_height,
                block_hash,
                tx_merkle_root,
                output_merkle_root,
                timestamp: now,
                submitter,
            })),
            r is Ok ==> has_height(final(self).block_roots@, block_height),
            final(self).positions@ == old(self).positions@,
            final(self).state == old(self).state,
            old(self).collateral_balanced() ==> final(self).collateral_balanced(),
    {
        match self.find_block_root(block_height) {
            Some(_) => Err(BridgeError::DuplicateRecord),
            None => {
                let record = submit_merkle_root(
                    block_height,
                    block_hash,
                    tx_merkle_root,
                    output_merkle_root,
                    submitter,
                    now,
                );
                self.block_roots.push(record);
                proof {
                    let roots = self.block_roots@;
                    assert(roots[roots.len() - 1].block_height == block_height);
                }
                Ok(())
            },
        }
    }

    /// Finds the index of the position belonging to `owner`, if any.
    pub fn find_position(&self, owner: &[u8; 32]) -> (r: Option<usize>)
        ensures
            r is Some <==> has_owner(self.positions@, *owner),
            r matches Some(i) ==> i < self.positions@.len()
                && self.positions@[i as int].owner@ == owner@,
    {
        let mut k: usize = 0;
        while k < self.positions.len()
            invariant
                k <= self.positions@.len(),
                forall|j: int| 0 <= j < k ==> (#[trigger] self.positions@[j]).owner@ != owner@,
            decreases self.positions@.len() - k,
        {
            let p = self.positions[k];
            if bytes32_eq(&p.owner, owner) {
                return Some(k);
            }
            k = k + 1;
        }
        None
    }

    /// Finds the index of the oracle record covering `height`, if any.
    pub fn find_block_root(&self, height: u64) -> (r: Option<usize>)
        ensures
            r is Some <==> has_height(self.block_roots@, height),
            r matches Some(i) ==> i < self.block_roots@.len()
                && self.block_roots@[i as int].block_height == height,
    {
        let mut k: usize = 0;
        while k < self.block_roots.len()
            invariant
                k <= self.block_roots@.len(),
                forall|j: int| 0 <= j < k
                    ==> (#[trigger] self.block_roots@[j]).block_height != height,
            decreases self.block_roots@.len() - k,
        {
            if self.block_roots[k].block_height == height {
                return Some(k);
            }
            k = k + 1;
        }
        None
    }

    /// Mints synthetic units against the position of `owner`, gated on the
    /// oracle record at `block_height` and the external verifier's verdict
    /// `proof_ok`.
    ///
    /// On success the caller must mint the returned amount — the request
    /// minus the mint fee — of the synthetic asset to the user before
    /// committing; the position's claim and the minted aggregate grow by
    /// the full request.
    pub fn mint_against_proof(
        &mut self,
        owner: [u8; 32],
        amount: u64,
        proof_ok: bool,
        merkle_root: &[u8; 32],
        block_height: u64,
        now: i64,
    ) -> (r: Result<u64, BridgeError>)
        requires
            old(self).wf(),
            has_owner(old(self).positions@, owner),
        ensures
            final(self).wf(),
            r is Ok <==> mint_ledger_accepted(
                *old(self), owner, amount, proof_ok, *merkle_root, block_height,
            ),
            old(self).state.paused ==> r == Err::<u64, BridgeError>(BridgeError::Paused),
            !old(self).state.paused && amount == 0
                ==> r == Err::<u64, BridgeError>(BridgeError::InvalidAmount),
            !old(self).state.paused && amount > 0
                && !has_height(old(self).block_roots@, block_height)
                ==> r == Err::<u64, BridgeError>(BridgeError::InvalidBlockHeight),
            !old(self).state.paused && amount > 0
                && has_height(old(self).block_roots@, block_height)
                && root_for(old(self).block_roots@, block_height).output_merkle_root@
                    != merkle_root@
                ==> r == Err::<u64, BridgeError>(BridgeError::InvalidMerkleRoot),
            !old(self).state.paused && amount > 0
                && has_height(old(self).block_roots@, block_height)
                && root_for(old(self).block_roots@, block_height).output_merkle_root@
                    == merkle_root@ && !proof_ok
                ==> r == Err::<u64, BridgeError>(BridgeError::ProofRejected),
            mint_ledger_gates(*old(self), amount, proof_ok, *merkle_root, block_height)
                && amount * COLLATERAL_RATIO > u64::MAX
                ==> r == Err::<u64, BridgeError>(BridgeError::Overflow),
            mint_ledger_gates(*old(self), amount, proof_ok, *merkle_root, block_height)
                && amount * COLLATERAL_RATIO <= u64::MAX
                && position_for(old(self).positions@, owner).minted_amount * COLLATERAL_RATIO
                    > u64::MAX
                ==> r == Err::<u64, BridgeError>(BridgeError::Overflow),
            mint_ledger_gates(*old(self), amount, proof_ok, *merkle_root, block_height)
                && amount * COLLATERAL_RATIO <= u64::MAX
                && position_for(old(self).positions@, owner).minted_amount * COLLATERAL_RATIO
                    <= u64::MAX
                && !mint_headroom_ok(position_for(old(self).positions@, owner), amount)
                ==> r == Err::<u64, BridgeError>(BridgeError::InsufficientCollateral),
            mint_ledger_gates(*old(self), amount, proof_ok, *merkle_root, block_height)
                && amount * COLLATERAL_RATIO <= u64::MAX
                && position_for(old(self).positions@, owner).minted_amount * COLLATERAL_RATIO
                    <= u64::MAX
                && mint_headroom_ok(position_for(old(self).positions@, owner), amount)
                && position_for(old(self).positions@, owner).minted_amount + amount > u64::MAX
                ==> r == Err::<u64, BridgeError>(BridgeError::Overflow),
            mint_ledger_gates(*old(self), amount, proof_ok, *merkle_root, block_height)
                && amount * COLLATERAL_RATIO <= u64::MAX
                && position_for(old(self).positions@, owner).minted_amount * COLLATERAL_RATIO
                    <= u64::MAX
                && mint_headroom_ok(position_for(old(self).positions@, owner), amount)
                && position_for(old(self).positions@, owner).minted_amount + amount <= u64::MAX
                && old(self).state.total_minted + amount > u64::MAX
                ==> r == Err::<u64, BridgeError>(BridgeError::Overflow),
            r is Err ==> *final(self) == *old(self),
            r matches Ok(minted_out) ==> minted_out == amount - mint_fee(amount as int),
            r is Ok ==> final(self).positions@ == old(self).positions@.update(
                owner_index(old(self).positions@, owner),
                (LpPosition {
                    minted_amount: (position_for(old(self).positions@, owner).minted_amount
                        + amount) as u64,
                    last_update: now,
                    ..position_for(old(self).positions@, owner)
                }),
            ),
            r is Ok ==> final(self).state == (BridgeState {
                total_minted: (old(self).state.total_minted + amount) as u64,
                ..old(self).state
            }),
            final(self).block_roots@ == old(self).block_roots@,
            old(self).collateral_balanced() ==> final(self).collateral_balanced(),
    {
        if self.state.paused {
            return Err(BridgeError::Paused);
        }
        if amount == 0 {
            return Err(BridgeError::InvalidAmount);
        }
        let root_idx: usize = match self.find_block_root(block_height) {
            Some(i) => i,
            None => {
                return Err(BridgeError::InvalidBlockHeight);
            },
        };
        let root = self.block_roots[root_idx];
        proof {
            let hi = height_index(self.block_roots@, block_height);
            assert(0 <= hi < self.block_roots@.len()
                && self.block_roots@[hi].block_height == block_height);
            assert(hi == root_idx as int);
        }
        let pos_idx: usize = match self.find_position(&owner) {
            Some(i) => i,
            None => unreached(),
        };
        proof {
            let oi = owner_index(self.positions@, owner);
            assert(0 <= oi < self.positions@.len() && self.positions@[oi].owner@ == owner@);
            assert(oi == pos_idx as int);
        }
        let mut lp = self.positions[pos_idx];
        let res = mint_wxmr(
            &mut self.state,
            &mut lp,
            &root,
            amount,
            proof_ok,
            merkle_root,
            block_height,
            now,
        );
        match res {
            Ok(minted_out) => {
                proof {
                    lemma_sums_update(self.positions@, pos_idx as int, lp);
                }
                self.positions[pos_idx] = lp;
                proof {
                    let ps = self.positions@;
                    let olds = old(self).positions@;
                    assert forall|i: int, j: int| 0 <= i < j < ps.len() implies ps[i].owner@
                        != ps[j].owner@ by {
                        assert(ps[i].owner == olds[i].owner);
                        assert(ps[j].owner == olds[j].owner);
                    }
                }
                Ok(minted_out)
            },
            Err(e) => Err(e),
        }
    }

    /// Burns synthetic units from the position of `owner` and releases the
    /// scaled collateral.
    ///
    /// On success the caller must burn the full `amount` of the synthetic
    /// asset from the user and transfer the returned collateral from the
    /// vault to the provider before committing. The released collateral
    /// leaves the vault aggregate, while the position's locked amount
    /// stays: no withdrawal operation is defined here.
    pub fn burn_and_release(
        &mut self,
        owner: [u8; 32],
        amount: u64,
        now: i64,
    ) -> (r: Result<u64, BridgeError>)
        requires
            old(self).wf(),
            has_owner(old(self).positions@, owner),
        ensures
            final(self).wf(),
            r is Ok <==> burn_ledger_accepted(*old(self), owner, amount),
            old(self).state.paused ==> r == Err::<u64, BridgeError>(BridgeError::Paused),
            !old(self).state.paused && amount == 0
                ==> r == Err::<u64, BridgeError>(BridgeError::InvalidAmount),
            !old(self).state.paused && amount > 0
                && position_for(old(self).positions@, owner).minted_amount < amount
                ==> r == Err::<u64, BridgeError>(BridgeError::InsufficientMinted),
            !old(self).state.paused && amount > 0
                && position_for(old(self).positions@, owner).minted_amount >= amount
                && amount * COLLATERAL_RATIO > u64::MAX
                ==> r == Err::<u64, BridgeError>(BridgeError::Overflow),
            !old(self).state.paused && amount > 0
                && position_for(old(self).positions@, owner).minted_amount >= amount
                && amount * COLLATERAL_RATIO <= u64::MAX
                && old(self).state.total_collateral < collateral_for(amount as int)
                ==> r == Err::<u64, BridgeError>(BridgeError::Overflow),
            r is Err ==> *final(self) == *old(self),
            r matches Ok(released) ==> released == collateral_for(amount as int),
            r is Ok ==> final(self).positions@ == old(self).positions@.update(
                owner_index(old(self).positions@, owner),
                (LpPosition {
                    minted_amount: (position_for(old(self).positions@, owner).minted_amount
                        - amount) as u64,
                    last_update: now,
                    ..position_for(old(self).positions@, owner)
                }),
            ),
            r is Ok ==> final(self).state == (BridgeState {
                total_minted: (old(self).state.total_minted - amount) as u64,
                total_collateral: (old(self).state.total_collateral
                    - collateral_for(amount as int)) as u64,
                ..old(self).state
            }),
            final(self).block_roots@ == old(self).block_roots@,
            r is Ok ==> sum_collateral(final(self).positions@)
                == sum_collateral(old(self).positions@),
    {
        let pos_idx: usize = match self.find_position(&owner) {
            Some(i) => i,
            None => unreached(),
        };
        proof {
            let oi = owner_index(self.positions@, owner);
            assert(0 <= oi < self.positions@.len() && self.positions@[oi].owner@ == owner@);
            assert(oi == pos_idx as int);
            lemma_sum_minted_le(self.positions@, pos_idx as int);
        }
        let mut lp = self.positions[pos_idx];
        let res = burn_wxmr(&mut self.state, &mut lp, amount, now);
        match res {
            Ok(released) => {
                proof {
                    lemma_sums_update(self.positions@, pos_idx as int, lp);
                }
                self.positions[pos_idx] = lp;
                proof {
                    let ps = self.positions@;
                    let olds = old(self).positions@;
                    assert forall|i: int, j: int| 0 <= i < j < ps.len() implies ps[i].owner@
                        != ps[j].owner@ by {
                        assert(ps[i].owner == olds[i].owner);
                        assert(ps[j].owner == olds[j].owner);
                    }
                }
                Ok(released)
            },
            Err(e) => Err(e),
        }
    }
}

} // verus!
