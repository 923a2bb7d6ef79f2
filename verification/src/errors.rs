//! Failure taxonomy shared by the configuration store and the launch protocol.

use vstd::prelude::*;

verus! {

/// Why an administrative or launch attempt was rejected.
///
/// Every entry point aborts on the first violated precondition and leaves all
/// state untouched, so an error value is the only observable effect of a
/// failed attempt.
#[derive(Clone, Copy, Debug, PartialEq, Eq, Structural)]
pub enum ContractError {
    /// The configuration slot holds foreign or uninitialized data: its type
    /// tag is absent or wrong, or the payload cannot be decoded.
    IncorrectConfigAccount,
    /// The caller is not the recorded administrator, or the designated fee
    /// wallet does not match the configuration's recorded value.
    IncorrectAuthority,
    /// The requested supply is not a whole multiple of the decimal scale.
    ValueInvalid,
    /// A launch parameter violates a configured inclusive minimum/maximum.
    OutOfRange,
    /// An external service step (funding, account creation) could not
    /// complete; most often the caller cannot cover a required transfer.
    CollaboratorFailure,
}

} // verus!
