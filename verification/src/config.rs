//! The singleton configuration record: global parameters that govern every
//! launch, together with the administrator allowed to rewrite them.

use vstd::prelude::*;
use crate::range::AmountConfig;

verus! {

/// The deployment-wide configuration record.
///
/// Exactly one live instance exists per deployment, stored in a fixed,
/// program-owned slot as a type tag followed by the serialized fields
/// (see `codec`). Only the recorded `authority` may rewrite it.
#[derive(Clone, Copy, Debug, PartialEq, Eq, Structural)]
pub struct Config {
    /// Identity permitted to update the record.
    pub authority: u64,
    /// Identity designated to receive launch-time fees; launch attempts must
    /// present exactly this identity.
    pub team_wallet: u64,
    /// Inclusive bounds on the reserve-lamport deposit declared at launch.
    pub lamport_amount_config: AmountConfig,
    /// Inclusive bounds on the whole-unit token supply of a launch.
    pub token_supply_config: AmountConfig,
    /// Inclusive bounds on the decimal precision of a launch.
    pub token_decimals_config: AmountConfig,
    /// Curve baseline copied into every new accounting record.
    pub initial_virtual_sol_reserves_config: u64,
    /// Curve baseline copied into every new accounting record.
    pub initial_virtual_token_reserves_config: u64,
    /// Settled-token seed copied into every new accounting record.
    pub initial_real_token_reserves_config: u64,
}

} // verus!
