//! The records that the auction keeps. Amounts are counted in the single
//! denomination that the auction accepts.
use vstd::prelude::*;

verus! {

/// Set once when the auction is created.
#[derive(Clone, Debug, PartialEq, Eq)]
pub struct State {
    pub owner: String,
    pub round_number: u128,
}

/// The round: who leads, with which cumulative amount, and who won it once
/// it is closed.
#[derive(Clone, Debug, PartialEq, Eq)]
pub struct BiddingRound {
    pub top_bidder: String,
    pub highest_bid: u128,
    pub winner: Option<String>,
}

/// What a participant may currently withdraw.
#[derive(Clone, Copy, Debug, PartialEq, Eq, Structural)]
pub struct Player {
    pub retractable_amount: u128,
}

/// One net bid of a participant.
#[derive(Clone, Copy, Debug, PartialEq, Eq, Structural)]
pub struct Bid {
    pub value: u128,
}

} // verus!
