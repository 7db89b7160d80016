//! Errors of the asset-creation operations.

use vstd::prelude::*;

verus! {

/// Why an operation was refused before any batch was assembled.
#[derive(Clone, Copy, PartialEq, Eq, Structural, Debug)]
pub enum AssetError {
    /// The referenced group is not the one derivable from the supplied
    /// authority and group seed.
    GroupNotFound,
    /// Admitting one more member would take the group's size past the largest
    /// representable count.
    MemberAssetOverflow,
}

} // verus!
