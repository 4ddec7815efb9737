use vstd::prelude::*;

verus! {

/// Why an operation on the auction was rejected.
#[derive(Clone, Copy, Debug, PartialEq, Eq, Structural)]
pub enum ContractError {
    /// The bid does not exceed the current highest cumulative bid.
    SmallBid,
    /// Only the owner may do this.
    Unauthorized,
    /// The round is not closed yet.
    BiddingIsOpen,
    /// The caller has no player record.
    PlayerIsNotFound,
}

} // verus!
