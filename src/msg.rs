//! Requests and answers of the auction, and the transfers it asks for.
use vstd::prelude::*;

verus! {

/// The only denomination that the auction counts.
pub const DENOM: &'static str = "uatom";

/// An amount of one denomination.
#[derive(Clone, Debug, PartialEq, Eq)]
pub struct Coin {
    pub denom: String,
    pub amount: u128,
}

/// A transfer of `amount` (in `DENOM`) to `to_address`, which the host
/// carries out together with the state change that asked for it.
#[derive(Clone, Debug, PartialEq, Eq)]
pub struct BankSend {
    pub to_address: String,
    pub amount: u128,
}

#[derive(Clone, Debug, PartialEq, Eq)]
pub struct InstantiateMsg {
    pub owner: Option<String>,
}

#[derive(Clone, Debug, PartialEq, Eq)]
pub enum ExecuteMsg {
    Bid {},
    Close {},
    Retract { receiver: Option<String> },
}

#[derive(Clone, Debug, PartialEq, Eq)]
pub enum QueryMsg {
    QueryTotalBid { address: String },
    QueryHighestBid {},
    QueryWinner {},
}

#[derive(Clone, Debug, PartialEq, Eq)]
pub struct QueryTotalBidResponse {
    pub value: Coin,
}

#[derive(Clone, Debug, PartialEq, Eq)]
pub struct QueryHighestBidResponse {
    pub address: String,
    pub value: Coin,
}

#[derive(Clone, Debug, PartialEq, Eq)]
pub struct QueryWinnerResponse {
    pub address: String,
}

/// The answer to a `QueryMsg`, one variant per query.
#[derive(Clone, Debug, PartialEq, Eq)]
pub enum QueryResponse {
    TotalBid(QueryTotalBidResponse),
    HighestBid(QueryHighestBidResponse),
    Winner(QueryWinnerResponse),
}

/// The amount deposited in `DENOM`: that of the first coin of that
/// denomination, or zero.
pub open spec fn deposit_of(funds: Seq<Coin>) -> u128
    decreases funds.len(),
{
    if funds.len() == 0 {
        0
    } else if funds[0].denom@ == DENOM@ {
        funds[0].amount
    } else {
        deposit_of(funds.drop_first())
    }
}

/// A coin of `amount` in `DENOM`.
pub fn denom_coin(amount: u128) -> (r: Coin)
    ensures
        r.denom@ == DENOM@,
        r.amount == amount,
{
    Coin { denom: String::from_str(DENOM), amount }
}

/// The amount deposited in `DENOM` among `funds`.
pub fn deposited_amount(funds: &Vec<Coin>) -> (r: u128)
    ensures
        r == deposit_of(funds@),
{
    let denom = String::from_str(DENOM);
    let mut i: usize = 0;
    assert(funds@.subrange(0, funds@.len() as int) =~= funds@);
    while i < funds.len()
        invariant
            i <= funds@.len(),
            denom@ == DENOM@,
            deposit_of(funds@) == deposit_of(funds@.subrange(i as int, funds@.len() as int)),
        decreases funds@.len() - i,
    {
        let ghost rest = funds@.subrange(i as int, funds@.len() as int);
        assert(rest.drop_first() =~= funds@.subrange(i + 1, funds@.len() as int));
        if funds[i].denom == denom {
            return funds[i].amount;
        }
        i = i + 1;
    }
    0
}

} // verus!
