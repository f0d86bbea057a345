//! The ways in which an operation of the registry is refused.
use vstd::prelude::*;

verus! {

/// Why an operation of the registry was refused.
#[derive(Clone, Copy, Debug, PartialEq, Eq, Structural)]
pub enum RegistryError {
    /// The origin of the call is not a signed identity.
    Authentication,
    /// No registry is recorded under the given uid.
    NotFound,
    /// A counter has reached the largest `u64`.
    Overflow,
    /// The caller is not the validator recorded for the registry.
    Authorization,
}

} // verus!
