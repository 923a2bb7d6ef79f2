//! Bounded numeric-range validation for configuration-controlled parameters.

use vstd::prelude::*;
use crate::errors::ContractError;

verus! {

/// An inclusive minimum/maximum pair used to validate launch parameters.
#[derive(Clone, Copy, Debug, PartialEq, Eq, Structural)]
pub struct AmountConfig {
    pub min: u64,
    pub max: u64,
}

impl AmountConfig {
    /// Whether `value` lies inside the inclusive bounds.
    pub open spec fn contains(&self, value: u64) -> bool {
        self.min <= value && value <= self.max
    }

    /// Accepts `value` exactly when it lies inside the inclusive bounds;
    /// boundary values pass. No side effects.
    pub fn validate(&self, value: u64) -> (r: Result<(), ContractError>)
        ensures
            r == if self.contains(value) {
                Result::<(), ContractError>::Ok(())
            } else {
                Result::<(), ContractError>::Err(ContractError::OutOfRange)
            },
    {
        if self.min <= value && value <= self.max {
            Ok(())
        } else {
            Err(ContractError::OutOfRange)
        }
    }
}

} // verus!
