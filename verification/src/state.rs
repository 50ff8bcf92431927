//! The three record types of the bridge, its error kinds, and the
//! constructors that create records.

use vstd::prelude::*;

verus! {

/// Singleton configuration and running aggregates of one deployed bridge.
#[derive(Clone, Debug, PartialEq, Eq)]
pub struct BridgeState {
    /// Administrative authority; immutable after creation.
    pub authority: [u8; 32],
    /// Identity of the synthetic asset that the bridge mints.
    pub wxmr_mint: [u8; 32],
    /// Identity of the collateral asset that providers lock.
    pub usd1_mint: [u8; 32],
    /// Identity of the vault account holding locked collateral.
    pub vault: [u8; 32],
    /// Identity of the price feed account; configuration only.
    pub pyth_feed: [u8; 32],
    /// Sum of the outstanding minted claims of all positions.
    pub total_minted: u64,
    /// Collateral currently held by the vault.
    pub total_collateral: u64,
    /// When set, mint and burn are rejected; registration and oracle
    /// recording are unaffected.
    pub paused: bool,
    /// Material for the external proof verifier; opaque to this core.
    pub verification_key: Vec<u8>,
}

/// One liquidity provider's locked collateral and outstanding claim.
#[derive(Clone, Copy, Debug, PartialEq, Eq)]
pub struct LpPosition {
    /// The provider's identity; immutable.
    pub owner: [u8; 32],
    /// Total collateral ever locked by this provider; never decreased by
    /// the operations defined here.
    pub collateral_amount: u64,
    /// Outstanding synthetic claim minted against this position.
    pub minted_amount: u64,
    /// Time of the last mint or burn touching this position.
    pub last_update: i64,
}

/// One immutable oracle record of an external-chain block digest.
#[derive(Clone, Copy, Debug, PartialEq, Eq)]
pub struct BlockRoot {
    pub block_height: u64,
    pub block_hash: [u8; 32],
    pub tx_merkle_root: [u8; 32],
    pub output_merkle_root: [u8; 32],
    pub timestamp: i64,
    /// The oracle that submitted the record.
    pub submitter: [u8; 32],
}

/// Terminal rejection kinds; no operation is ever partially applied.
#[derive(Clone, Copy, Debug, PartialEq, Eq, Structural)]
pub enum BridgeError {
    /// The bridge is paused.
    Paused,
    /// A zero amount was supplied where a positive one is required.
    InvalidAmount,
    /// The position's headroom does not cover the requested mint.
    InsufficientCollateral,
    /// The burn amount exceeds the position's outstanding claim.
    InsufficientMinted,
    /// No oracle record exists for the claimed block height.
    InvalidBlockHeight,
    /// The oracle record's output root differs from the supplied one.
    InvalidMerkleRoot,
    /// A checked arithmetic step overflowed or underflowed.
    Overflow,
    /// The external proof verifier rejected the deposit claim.
    ProofRejected,
    /// An oracle record for this block height already exists.
    DuplicateRecord,
}

/// Byte-for-byte comparison of two 32-byte digests or identities.
pub fn bytes32_eq(a: &[u8; 32], b: &[u8; 32]) -> (r: bool)
    ensures
        r == (a@ == b@),
{
    let mut i: usize = 0;
    while i < 32
        invariant
            i <= 32,
            forall|j: int| 0 <= j < i ==> a@[j] == b@[j],
        decreases 32 - i,
    {
        if a[i] != b[i] {
            return false;
        }
        i = i + 1;
    }
    proof {
        assert(a@ =~= b@);
    }
    true
}

/// Creates the singleton bridge state with zeroed aggregates.
///
/// The account identities come from the deployment environment; the
/// verification key is bounded material for the external proof verifier.
pub fn initialize(
    authority: [u8; 32],
    wxmr_mint: [u8; 32],
    usd1_mint: [u8; 32],
    vault: [u8; 32],
    pyth_feed: [u8; 32],
    verification_key: Vec<u8>,
) -> (r: BridgeState)
    requires
        verification_key@.len() <= crate::MAX_VERIFICATION_KEY_LEN,
    ensures
        r.authority == authority,
        r.wxmr_mint == wxmr_mint,
        r.usd1_mint == usd1_mint,
        r.vault == vault,
        r.pyth_feed == pyth_feed,
        r.total_minted == 0,
        r.total_collateral == 0,
        !r.paused,
        r.verification_key@ == verification_key@,
{
    BridgeState {
        authority,
        wxmr_mint,
        usd1_mint,
        vault,
        pyth_feed,
        total_minted: 0,
        total_collateral: 0,
        paused: false,
        verification_key,
    }
}

/// Builds the immutable oracle record for one external-chain block.
///
/// Whether the record may enter the ledger — at most one per height — is
/// decided by the ledger, not here.
pub fn submit_merkle_root(
    block_height: u64,
    block_hash: [u8; 32],
    tx_merkle_root: [u8; 32],
    output_merkle_root: [u8; 32],
    submitter: [u8; 32],
    now: i64,
) -> (r: BlockRoot)
    ensures
        r == (BlockRoot {
            block_height,
            block_hash,
            tx_merkle_root,
            output_merkle_root,
            timestamp: now,
            submitter,
        }),
{
    BlockRoot { block_height, block_hash, tx_merkle_root, output_merkle_root, timestamp: now, submitter }
}

} // verus!
