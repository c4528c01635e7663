use vstd::prelude::*;

verus! {

/// Why the marketplace refuses an instruction.
#[derive(Debug, Clone, Copy, PartialEq, Eq, Structural)]
pub enum MarketplaceError {
    /// The NFT's metadata names a collection other than the given collection mint.
    CollectionMismatch,
    /// The NFT's membership of its collection has not been verified.
    CollectionNotVerified,
}

} // verus!
