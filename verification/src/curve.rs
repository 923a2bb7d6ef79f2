//! Per-launch state: the accounting record a successful launch persists and
//! the modeled ledger objects it creates alongside it.

use vstd::prelude::*;

verus! {

/// The accounting record of one launched asset, keyed by the asset's
/// identity. All fields except the settled reserves and the completion flag
/// are immutable after creation.
#[derive(Clone, Copy, Debug, PartialEq, Eq, Structural)]
pub struct BondingCurve {
    /// Identity of the launched asset.
    pub token_mint: u64,
    /// Identity of the user who launched it.
    pub creator: u64,
    /// The caller-declared reserve-lamport amount at launch. Recorded but not
    /// transferred anywhere by the launch flow itself.
    pub init_lamport: u64,
    /// The permanent total supply, fixed when mint authority is revoked.
    pub token_total_supply: u64,
    /// Curve baseline for the constant-product pricing function.
    pub virtual_sol_reserves: u64,
    /// Curve baseline for the constant-product pricing function.
    pub virtual_token_reserves: u64,
    /// Settled native reserves; zero at creation.
    pub real_sol_reserves: u64,
    /// Settled token reserves; the configuration's seed value at creation.
    pub real_token_reserves: u64,
    /// Whether the curve has migrated to external liquidity; false at
    /// creation, flipped only by out-of-scope migration logic.
    pub is_completed: bool,
}

/// The launched asset's mint identity as the launch protocol leaves it.
#[derive(Clone, Copy, Debug, PartialEq, Eq, Structural)]
pub struct MintState {
    /// Decimal precision requested at launch.
    pub decimals: u8,
    /// Units in existence; the full launch supply once minted.
    pub supply: u64,
    /// Who may mint further units; `None` once revoked, which makes the
    /// supply permanent.
    pub mint_authority: Option<u64>,
}

/// The custody holding account that keeps the launch supply under program
/// control.
#[derive(Clone, Copy, Debug, PartialEq, Eq, Structural)]
pub struct TokenAccountState {
    /// The controlling authority: the program's vault, never the creator.
    pub owner: u64,
    /// The asset this account holds.
    pub mint: u64,
    /// Units held.
    pub balance: u64,
}

/// Descriptive metadata attached to the launched asset.
pub struct TokenMetadata {
    pub name: String,
    pub symbol: String,
    pub uri: String,
    /// Who may amend the metadata: the program's vault.
    pub update_authority: u64,
    /// The metadata stays amendable by its authority alone.
    pub is_mutable: bool,
    /// Royalty share encoded with the metadata; every launch fixes it at
    /// zero.
    pub seller_fee_basis_points: u16,
    /// Whether the asset is marked as collection data; launched assets never
    /// are.
    pub is_collection: bool,
}

/// The event a successful launch emits; carried back to the host, never
/// persisted.
#[derive(Clone, Copy, Debug, PartialEq, Eq, Structural)]
pub struct LaunchEvent {
    pub creator: u64,
    pub mint: u64,
    pub bonding_curve: u64,
    pub metadata: u64,
    pub decimals: u8,
    pub token_supply: u64,
    pub reserve_lamport: u64,
    /// The configuration's settled-token seed at the time of the call.
    pub reserve_token: u64,
}

} // verus!
