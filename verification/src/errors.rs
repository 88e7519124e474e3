//! The rejection reasons a mutating operation can answer with.

use vstd::prelude::*;

verus! {

/// Why a mutating operation was rejected. Every rejection is all-or-nothing:
/// the operation leaves all records exactly as they were.
#[derive(Clone, Copy, PartialEq, Eq, Structural, Debug)]
pub enum RegistryError {
    /// The library does not declare the capability the requested role needs.
    InvalidCapability,
    /// A requested migration expiry is not strictly in the future.
    InvalidExpiry,
    /// The identity is already present in the library directory.
    AlreadyRegistered,
    /// The caller is not the owner of the application it tries to configure.
    Unauthorized,
}

} // verus!
