//! The bonding-curve launch protocol.
//!
//! One attempt turns validated launch parameters into the complete set of
//! objects a successful launch leaves behind: the immutable-supply mint, the
//! custody holding account, the attached metadata, the accounting record and
//! the emitted event. The attempt is all-or-nothing: the first violated
//! precondition aborts it with an error and nothing else, so a failure has no
//! observable effect.

use vstd::prelude::*;
use crate::config::Config;
use crate::curve::{BondingCurve, LaunchEvent, MintState, TokenAccountState, TokenMetadata};
use crate::errors::ContractError;

verus! {

/// Ten to the `e`-th power.
pub open spec fn pow10(e: nat) -> nat
    decreases e,
{
    if e == 0 {
        1
    } else {
        10 * pow10((e - 1) as nat)
    }
}

/// Ten to any power is positive.
pub proof fn lemma_pow10_pos(e: nat)
    ensures
        pow10(e) >= 1,
    decreases e,
{
    if e > 0 {
        lemma_pow10_pos((e - 1) as nat);
    }
}

/// Ten to the power is monotone in the exponent.
pub proof fn lemma_pow10_le(a: nat, b: nat)
    requires
        a <= b,
    ensures
        pow10(a) <= pow10(b),
    decreases b,
{
    if a < b {
        lemma_pow10_le(a, (b - 1) as nat);
        lemma_pow10_pos((b - 1) as nat);
    }
}

/// The largest power of ten a 64-bit word can hold.
pub proof fn lemma_pow10_19()
    ensures
        pow10(19) == 10_000_000_000_000_000_000,
{
    reveal_with_fuel(pow10, 20);
}

/// Computes ten to the `e`-th power; every exponent up to 19 fits in 64 bits.
pub fn pow10_u64(e: u8) -> (r: u64)
    requires
        e <= 19,
    ensures
        r == pow10(e as nat),
{
    proof {
        lemma_pow10_19();
    }
    let mut r: u64 = 1;
    let mut i: u8 = 0;
    while i < e
        invariant
            i <= e,
            e <= 19,
            r == pow10(i as nat),
            pow10(19) == 10_000_000_000_000_000_000,
        decreases e - i,
    {
        proof {
            lemma_pow10_le((i + 1) as nat, 19);
        }
        r = r * 10;
        i = i + 1;
    }
    r
}

/// Everything a launch attempt reads: the committed configuration snapshot,
/// the caller, the program's vault authority, the identities the host derived
/// for the new asset, its accounting record and its metadata, and the fee
/// wallet the caller designated.
pub struct CreateBondingCurve {
    /// The configuration snapshot committed before the call began.
    pub global_config: Config,
    /// The user launching the asset.
    pub creator: u64,
    /// The program's delegated signing identity; becomes every authority.
    pub global_vault: u64,
    /// Identity of the asset being created.
    pub token_mint: u64,
    /// Deterministically derived address of the accounting record.
    pub bonding_curve_address: u64,
    /// Deterministically derived address of the metadata record.
    pub metadata_address: u64,
    /// The fee wallet the caller designated; must match the configuration.
    pub team_wallet: u64,
}

/// Everything a successful launch leaves behind.
pub struct LaunchOutcome {
    /// The new mint: requested decimals, full supply, authority revoked.
    pub mint: MintState,
    /// The custody holding account, controlled by the vault.
    pub custody: TokenAccountState,
    /// The attached metadata, amendable by the vault alone.
    pub metadata: TokenMetadata,
    /// The persisted accounting record.
    pub curve: BondingCurve,
    /// The emitted launch event.
    pub event: LaunchEvent,
}

impl CreateBondingCurve {
    /// Which launch parameters are admitted, and the error for the first
    /// violated precondition otherwise: the designated fee wallet must match
    /// the configuration, the supply must be a whole number of display units,
    /// and deposit, whole-unit supply and decimals must each lie inside their
    /// configured inclusive ranges.
    pub open spec fn launch_admitted(
        &self,
        decimals: u8,
        token_supply: u64,
        reserve_lamport: u64,
    ) -> Result<(), ContractError> {
        let scale = pow10(decimals as nat);
        if self.team_wallet != self.global_config.team_wallet {
            Err(ContractError::IncorrectAuthority)
        } else if token_supply as nat % scale != 0 {
            Err(ContractError::ValueInvalid)
        } else if !self.global_config.lamport_amount_config.contains(reserve_lamport) {
            Err(ContractError::OutOfRange)
        } else if !(self.global_config.token_supply_config.min <= token_supply as nat / scale
            && token_supply as nat / scale <= self.global_config.token_supply_config.max) {
            Err(ContractError::OutOfRange)
        } else if !self.global_config.token_decimals_config.contains(decimals as u64) {
            Err(ContractError::OutOfRange)
        } else {
            Ok(())
        }
    }

    /// Runs one launch attempt.
    ///
    /// On admitted parameters it returns the complete outcome: supply minted
    /// in full to the vault-controlled custody account, mint authority
    /// revoked for good, metadata attached under the vault's authority as
    /// zero-royalty, non-collection data, the
    /// accounting record seeded from the configuration snapshot with settled
    /// reserves at their initial values, and the launch event. On anything
    /// else it returns exactly the error [`Self::launch_admitted`] names.
    pub fn handler(
        &self,
        decimals: u8,
        token_supply: u64,
        reserve_lamport: u64,
        name: String,
        symbol: String,
        uri: String,
    ) -> (r: Result<LaunchOutcome, ContractError>)
        ensures
            self.launch_admitted(decimals, token_supply, reserve_lamport) matches Err(e) ==> r
                == Err::<LaunchOutcome, ContractError>(e),
            self.launch_admitted(decimals, token_supply, reserve_lamport) is Ok ==> r is Ok,
            r matches Ok(o) ==> {
                &&& o.mint == (MintState {
                    decimals,
                    supply: token_supply,
                    mint_authority: None,
                })
                &&& o.custody == (TokenAccountState {
                    owner: self.global_vault,
                    mint: self.token_mint,
                    balance: token_supply,
                })
                &&& o.metadata.name@ == name@
                &&& o.metadata.symbol@ == symbol@
                &&& o.metadata.uri@ == uri@
                &&& o.metadata.update_authority == self.global_vault
                &&& o.metadata.is_mutable == true
                &&& o.metadata.seller_fee_basis_points == 0
                &&& o.metadata.is_collection == false
                &&& o.curve == (BondingCurve {
                    token_mint: self.token_mint,
                    creator: self.creator,
                    init_lamport: reserve_lamport,
                    token_total_supply: token_supply,
                    virtual_sol_reserves: self.global_config.initial_virtual_sol_reserves_config,
                    virtual_token_reserves:
                        self.global_config.initial_virtual_token_reserves_config,
                    real_sol_reserves: 0,
                    real_token_reserves: self.global_config.initial_real_token_reserves_config,
                    is_completed: false,
                })
                &&& o.event == (LaunchEvent {
                    creator: self.creator,
                    mint: self.token_mint,
                    bonding_curve: self.bonding_curve_address,
                    metadata: self.metadata_address,
                    decimals,
                    token_supply,
                    reserve_lamport,
                    reserve_token: self.global_config.initial_real_token_reserves_config,
                })
            },
    {
        if self.team_wallet != self.global_config.team_wallet {
            return Err(ContractError::IncorrectAuthority);
        }
        let whole_units: u64;
        if decimals > 19 {
            // Ten to such a power exceeds any 64-bit supply, so only a supply
            // of zero is a whole number of display units — of zero of them.
            proof {
                lemma_pow10_19();
                lemma_pow10_le(20, decimals as nat);
                let scale = pow10(decimals as nat);
                vstd::arithmetic::div_mod::lemma_small_mod(token_supply as nat, scale);
                vstd::arithmetic::div_mod::lemma_basic_div(token_supply as int, scale as int);
            }
            if token_supply != 0 {
                return Err(ContractError::ValueInvalid);
            }
            whole_units = 0;
        } else {
            let decimal_multiplier = pow10_u64(decimals);
            proof {
                lemma_pow10_pos(decimals as nat);
            }
            let fractional_tokens = token_supply % decimal_multiplier;
            if fractional_tokens != 0 {
                return Err(ContractError::ValueInvalid);
            }
            whole_units = token_supply / decimal_multiplier;
        }
        self.global_config.lamport_amount_config.validate(reserve_lamport)?;
        self.global_config.token_supply_config.validate(whole_units)?;
        self.global_config.token_decimals_config.validate(decimals as u64)?;
        Ok(
            LaunchOutcome {
                mint: MintState { decimals, supply: token_supply, mint_authority: None },
                custody: TokenAccountState {
                    owner: self.global_vault,
                    mint: self.token_mint,
                    balance: token_supply,
                },
                metadata: TokenMetadata {
                    name,
                    symbol,
                    uri,
                    update_authority: self.global_vault,
                    is_mutable: true,
                    seller_fee_basis_points: 0,
                    is_collection: false,
                },
                curve: BondingCurve {
                    token_mint: self.token_mint,
                    creator: self.creator,
                    init_lamport: reserve_lamport,
                    token_total_supply: token_supply,
                    virtual_sol_reserves: self.global_config.initial_virtual_sol_reserves_config,
                    virtual_token_reserves:
                        self.global_config.initial_virtual_token_reserves_config,
                    real_sol_reserves: 0,
                    real_token_reserves: self.global_config.initial_real_token_reserves_config,
                    is_completed: false,
                },
                event: LaunchEvent {
                    creator: self.creator,
                    mint: self.token_mint,
                    bonding_curve: self.bonding_curve_address,
                    metadata: self.metadata_address,
                    decimals,
                    token_supply,
                    reserve_lamport,
                    reserve_token: self.global_config.initial_real_token_reserves_config,
                },
            },
        )
    }
}

/// Law: when the designated fee wallet is right, a supply that is not a whole
/// number of display units is rejected as `ValueInvalid`, whatever the other
/// parameters are.
pub proof fn lemma_fractional_supply_rejected(
    s: CreateBondingCurve,
    decimals: u8,
    token_supply: u64,
    reserve_lamport: u64,
)
    requires
        s.team_wallet == s.global_config.team_wallet,
        token_supply as nat % pow10(decimals as nat) != 0,
    ensures
        s.launch_admitted(decimals, token_supply, reserve_lamport) == Err::<(), ContractError>(
            ContractError::ValueInvalid,
        ),
{
}

/// Law: with the fee wallet right and the supply whole, the attempt is
/// admitted exactly when the reserve deposit, the whole-unit supply and the
/// decimal precision each lie inside their configured inclusive ranges —
/// boundary values included — and is rejected as `OutOfRange` otherwise.
pub proof fn lemma_range_gate(
    s: CreateBondingCurve,
    decimals: u8,
    token_supply: u64,
    reserve_lamport: u64,
)
    requires
        s.team_wallet == s.global_config.team_wallet,
        token_supply as nat % pow10(decimals as nat) == 0,
    ensures
        ({
            let whole = token_supply as nat / pow10(decimals as nat);
            let admitted = s.global_config.lamport_amount_config.contains(reserve_lamport)
                && s.global_config.token_supply_config.min <= whole && whole
                <= s.global_config.token_supply_config.max
                && s.global_config.token_decimals_config.contains(decimals as u64);
            s.launch_admitted(decimals, token_supply, reserve_lamport) == if admitted {
                Ok::<(), ContractError>(())
            } else {
                Err::<(), ContractError>(ContractError::OutOfRange)
            }
        }),
{
}

} // verus!
