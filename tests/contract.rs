use std::collections::HashMap;

use bidding_platform::contract::Auction;
use bidding_platform::error::ContractError;
use bidding_platform::fee::{fee, net_amount};
use bidding_platform::msg::{
    deposited_amount, BankSend, Coin, ExecuteMsg, InstantiateMsg, QueryHighestBidResponse,
    QueryMsg, QueryResponse, QueryTotalBidResponse, QueryWinnerResponse, DENOM,
};
use bidding_platform::state::{Bid, BiddingRound, Player, State};

fn coin(amount: u128, denom: &str) -> Coin {
    Coin { denom: denom.to_string(), amount }
}

fn addr(a: &str) -> String {
    a.to_string()
}

/// Balances of the participants, moved as the auction's host would move them.
struct Bank {
    balances: HashMap<String, u128>,
}

impl Bank {
    fn new(initial: &[(&str, u128)]) -> Bank {
        let mut balances = HashMap::new();
        for (a, v) in initial {
            balances.insert(a.to_string(), *v);
        }
        Bank { balances }
    }

    fn balance(&self, a: &str) -> u128 {
        *self.balances.get(a).unwrap_or(&0)
    }

    fn pay_in(&mut self, from: &str, amount: u128) {
        let b = self.balance(from);
        assert!(b >= amount);
        self.balances.insert(from.to_string(), b - amount);
    }

    fn apply(&mut self, msgs: &[BankSend]) {
        for m in msgs {
            let b = self.balance(&m.to_address);
            self.balances.insert(m.to_address.clone(), b + m.amount);
        }
    }
}

fn open_by(owner: &str) -> Auction {
    let (auction, msgs) = Auction::instantiate(&addr(owner), &vec![], InstantiateMsg { owner: None });
    assert!(msgs.is_empty());
    auction
}

fn bid_with(auction: &mut Auction, bank: &mut Bank, who: &str, amount: u128) -> Result<(), ContractError> {
    let msgs = auction.bid(&addr(who), &vec![coin(amount, DENOM)])?;
    bank.pay_in(who, amount);
    bank.apply(&msgs);
    Ok(())
}

#[test]
fn test_bid() {
    let mut bank = Bank::new(&[("joe", 100)]);
    let mut auction = open_by("owner");
    bid_with(&mut auction, &mut bank, "joe", 100).unwrap();
    let resp = auction.query_total_bid(&addr("joe"));
    assert_eq!(resp, QueryTotalBidResponse { value: coin(95, DENOM) });
}

#[test]
fn test_double_bid() {
    let mut bank = Bank::new(&[("joe", 100), ("stable joe", 200)]);
    let mut auction = open_by("owner");
    bid_with(&mut auction, &mut bank, "joe", 100).unwrap();
    bid_with(&mut auction, &mut bank, "stable joe", 200).unwrap();
    let resp = auction.query_highest_bid();
    assert_eq!(
        resp,
        QueryHighestBidResponse { address: addr("stable joe"), value: coin(190, DENOM) }
    );
}

#[test]
fn test_close() {
    let mut bank = Bank::new(&[("joe", 100), ("stable joe", 200)]);
    let mut auction = open_by("owner");
    bid_with(&mut auction, &mut bank, "joe", 100).unwrap();
    bid_with(&mut auction, &mut bank, "stable joe", 200).unwrap();
    let msgs = auction.close(&addr("owner")).unwrap();
    bank.apply(&msgs);
    let resp = auction.query_winner();
    assert_eq!(resp, QueryWinnerResponse { address: addr("stable joe") });
}

#[test]
fn test_retract() {
    let mut bank = Bank::new(&[("joe", 100), ("stable joe", 200)]);
    let mut auction = open_by("owner");
    bid_with(&mut auction, &mut bank, "joe", 100).unwrap();
    bid_with(&mut auction, &mut bank, "stable joe", 200).unwrap();
    let msgs = auction.close(&addr("owner")).unwrap();
    bank.apply(&msgs);
    let msgs = auction.retract(&addr("joe"), Some(addr("stable joe"))).unwrap();
    bank.apply(&msgs);
    assert_eq!(bank.balance("stable joe"), 95);
}

#[test]
fn fee_is_a_twentieth_rounded_down() {
    assert_eq!(fee(0), 0);
    assert_eq!(fee(19), 0);
    assert_eq!(fee(20), 1);
    assert_eq!(fee(100), 5);
    assert_eq!(fee(200), 10);
    assert_eq!(fee(u128::MAX), u128::MAX / 20);
    assert_eq!(net_amount(100), 95);
    assert_eq!(net_amount(1), 1);
    for d in 1..500u128 {
        assert!(fee(d) < d);
        assert_eq!(fee(d) + net_amount(d), d);
    }
}

#[test]
fn deposit_counts_first_coin_of_the_denomination() {
    assert_eq!(deposited_amount(&vec![]), 0);
    assert_eq!(deposited_amount(&vec![coin(7, "other")]), 0);
    assert_eq!(deposited_amount(&vec![coin(7, "other"), coin(40, DENOM), coin(9, DENOM)]), 40);
}

#[test]
fn instantiate_without_owner_counts_whole_deposit() {
    let (auction, msgs) =
        Auction::instantiate(&addr("alice"), &vec![coin(100, DENOM)], InstantiateMsg { owner: None });
    assert!(msgs.is_empty());
    assert_eq!(auction.query_total_bid(&addr("alice")).value, coin(100, DENOM));
    assert_eq!(auction.state(), &State { owner: addr("alice"), round_number: 0 });
    assert_eq!(
        auction.round(),
        &BiddingRound { top_bidder: addr("alice"), highest_bid: 100, winner: None }
    );
    assert_eq!(auction.players(), &vec![(addr("alice"), Player { retractable_amount: 100 })]);
    assert_eq!(auction.bids(), &vec![(addr("alice"), vec![Bid { value: 100 }])]);
}

#[test]
fn instantiate_naming_self_as_owner_levies_no_fee() {
    let (auction, msgs) = Auction::instantiate(
        &addr("alice"),
        &vec![coin(100, DENOM)],
        InstantiateMsg { owner: Some(addr("alice")) },
    );
    assert!(msgs.is_empty());
    assert_eq!(auction.query_highest_bid().value, coin(100, DENOM));
}

#[test]
fn instantiate_with_other_owner_pays_fee_to_owner() {
    let (auction, msgs) = Auction::instantiate(
        &addr("alice"),
        &vec![coin(100, DENOM)],
        InstantiateMsg { owner: Some(addr("boss")) },
    );
    assert_eq!(msgs, vec![BankSend { to_address: addr("boss"), amount: 5 }]);
    assert_eq!(auction.state().owner, addr("boss"));
    assert_eq!(
        auction.query_highest_bid(),
        QueryHighestBidResponse { address: addr("alice"), value: coin(95, DENOM) }
    );
    assert_eq!(auction.query_total_bid(&addr("alice")).value.amount, 95);
}

#[test]
fn equal_cumulative_bid_is_rejected_and_changes_nothing() {
    let (mut auction, _) =
        Auction::instantiate(&addr("a0"), &vec![coin(100, DENOM)], InstantiateMsg { owner: Some(addr("owner")) });
    assert_eq!(auction.query_highest_bid().value.amount, 95);
    let players = auction.players().clone();
    let bids = auction.bids().clone();
    let round = auction.round().clone();
    assert_eq!(auction.bid(&addr("a"), &vec![coin(100, DENOM)]), Err(ContractError::SmallBid));
    assert_eq!(auction.players(), &players);
    assert_eq!(auction.bids(), &bids);
    assert_eq!(auction.round(), &round);
    let msgs = auction.bid(&addr("b"), &vec![coin(200, DENOM)]).unwrap();
    assert_eq!(msgs, vec![BankSend { to_address: addr("owner"), amount: 10 }]);
    assert_eq!(
        auction.query_highest_bid(),
        QueryHighestBidResponse { address: addr("b"), value: coin(190, DENOM) }
    );
}

#[test]
fn repeated_bids_accumulate() {
    let mut auction = open_by("owner");
    auction.bid(&addr("a"), &vec![coin(100, DENOM)]).unwrap();
    auction.bid(&addr("b"), &vec![coin(200, DENOM)]).unwrap();
    // a's second deposit alone (net 95) is smaller, but 95 + 95 = 190 only ties.
    assert_eq!(auction.bid(&addr("a"), &vec![coin(100, DENOM)]), Err(ContractError::SmallBid));
    auction.bid(&addr("a"), &vec![coin(120, DENOM)]).unwrap();
    assert_eq!(auction.query_total_bid(&addr("a")).value.amount, 95 + 114);
    assert_eq!(
        auction.query_highest_bid(),
        QueryHighestBidResponse { address: addr("a"), value: coin(209, DENOM) }
    );
    assert_eq!(auction.players()[1], (addr("a"), Player { retractable_amount: 209 }));
}

#[test]
fn close_by_non_owner_is_unauthorized() {
    let mut auction = open_by("owner");
    auction.bid(&addr("a"), &vec![coin(100, DENOM)]).unwrap();
    let round = auction.round().clone();
    assert_eq!(auction.close(&addr("a")), Err(ContractError::Unauthorized));
    assert_eq!(auction.round(), &round);
    assert_eq!(auction.query_winner().address, "");
}

#[test]
fn retract_before_close_is_refused() {
    let mut auction = open_by("owner");
    auction.bid(&addr("a"), &vec![coin(100, DENOM)]).unwrap();
    assert_eq!(auction.retract(&addr("a"), None), Err(ContractError::BiddingIsOpen));
    assert_eq!(auction.retract(&addr("nobody"), None), Err(ContractError::BiddingIsOpen));
}

#[test]
fn retract_without_player_record_is_refused() {
    let mut auction = open_by("owner");
    auction.bid(&addr("a"), &vec![coin(100, DENOM)]).unwrap();
    auction.close(&addr("owner")).unwrap();
    assert_eq!(auction.retract(&addr("nobody"), None), Err(ContractError::PlayerIsNotFound));
}

#[test]
fn close_pays_owner_and_retract_zeroes_leader_record() {
    let mut bank = Bank::new(&[("a", 100), ("b", 200)]);
    let mut auction = open_by("owner");
    bid_with(&mut auction, &mut bank, "a", 100).unwrap();
    bid_with(&mut auction, &mut bank, "b", 200).unwrap();
    let before = bank.balance("owner");
    let msgs = auction.close(&addr("owner")).unwrap();
    assert_eq!(msgs, vec![BankSend { to_address: addr("owner"), amount: 190 }]);
    bank.apply(&msgs);
    assert_eq!(bank.balance("owner"), before + 190);
    assert_eq!(auction.query_winner(), QueryWinnerResponse { address: addr("b") });
    // every history is cleared on close
    assert_eq!(auction.query_total_bid(&addr("a")).value.amount, 0);
    assert_eq!(auction.query_total_bid(&addr("b")).value.amount, 0);
    assert!(auction.bids().is_empty());

    let msgs = auction.retract(&addr("a"), Some(addr("b"))).unwrap();
    assert_eq!(msgs, vec![BankSend { to_address: addr("b"), amount: 95 }]);
    let players = auction.players();
    let a = players.iter().find(|(k, _)| k == "a").unwrap();
    let b = players.iter().find(|(k, _)| k == "b").unwrap();
    assert_eq!(a.1, Player { retractable_amount: 95 });
    assert_eq!(b.1, Player { retractable_amount: 0 });

    let msgs = auction.retract(&addr("a"), None).unwrap();
    assert_eq!(msgs, vec![BankSend { to_address: addr("a"), amount: 95 }]);
}

#[test]
fn execute_and_query_dispatch() {
    let mut auction = open_by("owner");
    let funds = vec![coin(100, DENOM)];
    assert!(auction.execute(&addr("a"), &funds, ExecuteMsg::Bid {}).is_ok());
    assert_eq!(
        auction.query(QueryMsg::QueryTotalBid { address: addr("a") }),
        QueryResponse::TotalBid(QueryTotalBidResponse { value: coin(95, DENOM) })
    );
    assert_eq!(
        auction.execute(&addr("a"), &vec![], ExecuteMsg::Retract { receiver: None }),
        Err(ContractError::BiddingIsOpen)
    );
    assert_eq!(auction.execute(&addr("a"), &vec![], ExecuteMsg::Close {}), Err(ContractError::Unauthorized));
    assert!(auction.execute(&addr("owner"), &vec![], ExecuteMsg::Close {}).is_ok());
    assert_eq!(
        auction.query(QueryMsg::QueryWinner {}),
        QueryResponse::Winner(QueryWinnerResponse { address: addr("a") })
    );
    assert_eq!(
        auction.query(QueryMsg::QueryHighestBid {}),
        QueryResponse::HighestBid(QueryHighestBidResponse { address: addr("a"), value: coin(95, DENOM) })
    );
}

#[test]
fn records_round_trip_and_overflow_is_refused() {
    let mut auction = open_by("owner");
    auction.bid(&addr("a"), &vec![coin(100, DENOM)]).unwrap();
    let rebuilt = Auction::from_records(
        auction.state().clone(),
        auction.round().clone(),
        auction.players().clone(),
        auction.bids().clone(),
    )
    .unwrap();
    assert_eq!(rebuilt.query_highest_bid(), auction.query_highest_bid());
    assert_eq!(rebuilt.query_total_bid(&addr("a")), auction.query_total_bid(&addr("a")));

    let too_much = vec![(addr("a"), vec![Bid { value: u128::MAX }, Bid { value: 1 }])];
    assert!(Auction::from_records(
        State { owner: addr("owner"), round_number: 0 },
        BiddingRound { top_bidder: addr("a"), highest_bid: 0, winner: None },
        vec![],
        too_much,
    )
    .is_none());
}
