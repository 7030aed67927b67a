//! The failures the library reports.

use vstd::prelude::*;

verus! {

/// Why a request was turned down.
#[derive(Debug, Clone, Copy, PartialEq, Eq, Structural)]
pub enum PasswordError {
    /// The requested length cannot hold the characters the tier and the
    /// special-characters flag make mandatory.
    InvalidLength,
    /// The token names none of the complexity tiers.
    UnsupportedComplexity,
}

} // verus!
