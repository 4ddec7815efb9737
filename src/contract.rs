//! The auction ledger: one round, its players and their bid histories, and
//! the operations that move it from state to state.
use vstd::prelude::*;
use crate::error::ContractError;
use crate::fee::{fee, fee_of, net_of};
use crate::msg::{
    denom_coin, deposit_of, deposited_amount, BankSend, Coin, ExecuteMsg, InstantiateMsg,
    QueryHighestBidResponse, QueryMsg, QueryResponse, QueryTotalBidResponse, QueryWinnerResponse,
    DENOM,
};
use crate::state::{Bid, BiddingRound, Player, State};
use crate::table::{find_index, lemma_lookup_in, lookup, store};

verus! {

/// The sum of a sequence of amounts.
pub open spec fn sum(s: Seq<nat>) -> nat
    decreases s.len(),
{
    if s.len() == 0 {
        0
    } else {
        sum(s.drop_last()) + s.last()
    }
}

/// The amounts of a bid history.
pub open spec fn bid_values(bids: Seq<Bid>) -> Seq<nat> {
    bids.map_values(|b: Bid| b.value as nat)
}

pub open spec fn opt_view(a: Option<String>) -> Option<Seq<char>> {
    match a {
        Some(s) => Some(s@),
        None => None,
    }
}

/// Retractable amount of each player, by address.
pub open spec fn players_view(players: Seq<(String, Player)>) -> Map<Seq<char>, nat> {
    Map::new(
        |a: Seq<char>| lookup(players, a) is Some,
        |a: Seq<char>| lookup(players, a)->0.retractable_amount as nat,
    )
}

/// Net bid amounts of each participant, oldest first, by address.
pub open spec fn bids_view(bids: Seq<(String, Vec<Bid>)>) -> Map<Seq<char>, Seq<nat>> {
    Map::new(
        |a: Seq<char>| lookup(bids, a) is Some,
        |a: Seq<char>| bid_values(lookup(bids, a)->0@),
    )
}

/// `msgs` is exactly one transfer of `amount` to `to`.
pub open spec fn sends(msgs: Seq<BankSend>, to: Seq<char>, amount: nat) -> bool {
    msgs.len() == 1 && msgs[0].to_address@ == to && msgs[0].amount == amount
}

/// The mathematical model of the auction.
pub struct AuctionView {
    pub owner: Seq<char>,
    pub round_number: u128,
    pub top_bidder: Seq<char>,
    pub highest_bid: nat,
    pub winner: Option<Seq<char>>,
    pub players: Map<Seq<char>, nat>,
    pub bids: Map<Seq<char>, Seq<nat>>,
}

impl AuctionView {
    /// The bid history of `a`, empty where it has none.
    pub open spec fn history(self, a: Seq<char>) -> Seq<nat> {
        if self.bids.contains_key(a) {
            self.bids[a]
        } else {
            Seq::empty()
        }
    }

    /// The cumulative net amount that `a` has bid.
    pub open spec fn total(self, a: Seq<char>) -> nat {
        sum(self.history(a))
    }

    /// Every cumulative total fits in an amount.
    pub open spec fn wf(self) -> bool {
        forall|a: Seq<char>| #[trigger] self.total(a) <= u128::MAX
    }

    /// While the round is open, the highest bid is the leader's cumulative total.
    pub open spec fn leader_consistent(self) -> bool {
        self.winner is None ==> self.highest_bid == self.total(self.top_bidder)
    }

    /// The auction after `sender` has added an accepted bid worth `net`.
    pub open spec fn after_bid(self, sender: Seq<char>, net: nat) -> AuctionView {
        let t = net + self.total(sender);
        AuctionView {
            top_bidder: sender,
            highest_bid: t,
            players: self.players.insert(sender, t),
            bids: self.bids.insert(sender, self.history(sender).push(net)),
            ..self
        }
    }

    /// The auction after the owner closed the round.
    pub open spec fn after_close(self) -> AuctionView {
        AuctionView {
            winner: Some(self.top_bidder),
            players: self.players.insert(self.top_bidder, 0),
            bids: Map::empty(),
            ..self
        }
    }

    /// The auction after a retraction: the leader's record is zeroed.
    pub open spec fn after_retract(self) -> AuctionView {
        AuctionView { players: self.players.insert(self.top_bidder, 0), ..self }
    }
}

/// The auction as it stands right after it was created.
pub open spec fn opened(sender: Seq<char>, owner: Seq<char>, net: nat) -> AuctionView {
    AuctionView {
        owner,
        round_number: 0,
        top_bidder: sender,
        highest_bid: net,
        winner: None,
        players: Map::empty().insert(sender, net),
        bids: Map::empty().insert(sender, seq![net]),
    }
}

/// The model of a set of records.
pub open spec fn records_view(
    state: State,
    round: BiddingRound,
    players: Seq<(String, Player)>,
    bids: Seq<(String, Vec<Bid>)>,
) -> AuctionView {
    AuctionView {
        owner: state.owner@,
        round_number: state.round_number,
        top_bidder: round.top_bidder@,
        highest_bid: round.highest_bid as nat,
        winner: opt_view(round.winner),
        players: players_view(players),
        bids: bids_view(bids),
    }
}

/// What `bid` owes: `sender` deposited `funds`; `r` is the result.
pub open spec fn bid_post(
    pre: AuctionView,
    post: AuctionView,
    sender: Seq<char>,
    funds: Seq<Coin>,
    r: Result<Vec<BankSend>, ContractError>,
) -> bool {
    let d = deposit_of(funds) as nat;
    &&& r is Ok <==> net_of(d) + pre.total(sender) > pre.highest_bid
    &&& r is Ok ==> post == pre.after_bid(sender, net_of(d)) && sends(r->Ok_0@, pre.owner, fee_of(d))
    &&& r is Err ==> r == Err::<Vec<BankSend>, ContractError>(ContractError::SmallBid) && post == pre
}

/// What `close` owes when `sender` asks for it.
pub open spec fn close_post(
    pre: AuctionView,
    post: AuctionView,
    sender: Seq<char>,
    r: Result<Vec<BankSend>, ContractError>,
) -> bool {
    &&& sender != pre.owner ==> r == Err::<Vec<BankSend>, ContractError>(
        ContractError::Unauthorized,
    ) && post == pre
    &&& sender == pre.owner ==> r is Ok && post == pre.after_close() && sends(
        r->Ok_0@,
        pre.owner,
        pre.highest_bid,
    )
}

/// What `retract` owes when `sender` asks for it, naming `receiver` or not.
pub open spec fn retract_post(
    pre: AuctionView,
    post: AuctionView,
    sender: Seq<char>,
    receiver: Option<Seq<char>>,
    r: Result<Vec<BankSend>, ContractError>,
) -> bool {
    &&& pre.winner is None ==> r == Err::<Vec<BankSend>, ContractError>(
        ContractError::BiddingIsOpen,
    ) && post == pre
    &&& pre.winner is Some && !pre.players.contains_key(sender) ==> r == Err::<
        Vec<BankSend>,
        ContractError,
    >(ContractError::PlayerIsNotFound) && post == pre
    &&& pre.winner is Some && pre.players.contains_key(sender) ==> r is Ok && post
        == pre.after_retract() && sends(
        r->Ok_0@,
        match receiver {
            Some(x) => x,
            None => sender,
        },
        pre.players[sender],
    )
}

/// An accepted bid makes its sender the leader with exactly its new
/// cumulative net total, so the highest bid always equals the leader's total
/// after a bid, and the round stays consistent.
pub proof fn lemma_leader_total_after_bid(v: AuctionView, sender: Seq<char>, net: nat)
    ensures
        v.after_bid(sender, net).top_bidder == sender,
        v.after_bid(sender, net).highest_bid == v.after_bid(sender, net).total(sender),
        v.after_bid(sender, net).total(sender) == v.total(sender) + net,
        v.after_bid(sender, net).leader_consistent(),
{
    lemma_sum_push(v.history(sender), net);
}

/// The auction after each of `steps` (a sender and the net amount it bid)
/// was accepted, in order.
pub open spec fn after_bids(v: AuctionView, steps: Seq<(Seq<char>, nat)>) -> AuctionView
    decreases steps.len(),
{
    if steps.len() == 0 {
        v
    } else {
        after_bids(v, steps.drop_last()).after_bid(steps.last().0, steps.last().1)
    }
}

/// After any sequence of accepted bids, starting from a consistent round,
/// the highest bid equals the leader's cumulative net total.
pub proof fn lemma_leader_total_after_bids(v: AuctionView, steps: Seq<(Seq<char>, nat)>)
    requires
        v.winner is None,
        v.leader_consistent(),
    ensures
        after_bids(v, steps).highest_bid == after_bids(v, steps).total(after_bids(v, steps).top_bidder),
        after_bids(v, steps).winner is None,
    decreases steps.len(),
{
    if steps.len() > 0 {
        lemma_leader_total_after_bids(v, steps.drop_last());
        lemma_leader_total_after_bid(after_bids(v, steps.drop_last()), steps.last().0, steps.last().1);
    }
}

proof fn lemma_sum_push(s: Seq<nat>, x: nat)
    ensures
        sum(s.push(x)) == sum(s) + x,
{
    assert(s.push(x).drop_last() =~= s);
}

proof fn lemma_sum_prefix(s: Seq<nat>, k: int)
    requires
        0 <= k <= s.len(),
    ensures
        sum(s.subrange(0, k)) <= sum(s),
    decreases s.len(),
{
    if k < s.len() {
        assert(s.drop_last().subrange(0, k) =~= s.subrange(0, k));
        lemma_sum_prefix(s.drop_last(), k);
    } else {
        assert(s.subrange(0, k) =~= s);
    }
}

/// The sum of a bid history, or `None` where it does not fit in an amount.
fn sum_bids(bids: &Vec<Bid>) -> (r: Option<u128>)
    ensures
        match r {
            Some(t) => t as nat == sum(bid_values(bids@)),
            None => sum(bid_values(bids@)) > u128::MAX,
        },
{
    let ghost vals = bid_values(bids@);
    let mut total: u128 = 0;
    let mut i: usize = 0;
    assert(vals.subrange(0, 0) =~= Seq::<nat>::empty());
    while i < bids.len()
        invariant
            i <= bids@.len(),
            vals == bid_values(bids@),
            total as nat == sum(vals.subrange(0, i as int)),
        decreases bids@.len() - i,
    {
        assert(vals.subrange(0, i + 1).drop_last() =~= vals.subrange(0, i as int));
        match total.checked_add(bids[i].value) {
            Some(t) => {
                total = t;
            },
            None => {
                proof {
                    lemma_sum_prefix(vals, i + 1);
                }
                return None;
            },
        }
        i = i + 1;
    }
    assert(vals.subrange(0, bids@.len() as int) =~= vals);
    Some(total)
}

/// `history` with `b` appended.
fn appended(history: &Vec<Bid>, b: Bid) -> (r: Vec<Bid>)
    ensures
        r@ == history@.push(b),
{
    let mut r: Vec<Bid> = Vec::new();
    let mut i: usize = 0;
    while i < history.len()
        invariant
            i <= history@.len(),
            r@ == history@.subrange(0, i as int),
        decreases history@.len() - i,
    {
        r.push(history[i]);
        i = i + 1;
    }
    assert(r@ =~= history@);
    r.push(b);
    r
}

/// The auction: its global state, its single round, the players' records
/// and the participants' bid histories.
pub struct Auction {
    state: State,
    round: BiddingRound,
    players: Vec<(String, Player)>,
    bids: Vec<(String, Vec<Bid>)>,
}

impl View for Auction {
    type V = AuctionView;

    closed spec fn view(&self) -> AuctionView {
        records_view(self.state, self.round, self.players@, self.bids@)
    }
}

impl Auction {
    /// Creates the auction. `sender` holds the first bid, worth its deposit
    /// in `DENOM`; where `msg` names another owner, that owner is paid the
    /// fee on the deposit and only the rest counts as the bid.
    pub fn instantiate(sender: &String, funds: &Vec<Coin>, msg: InstantiateMsg) -> (r: (
        Auction,
        Vec<BankSend>,
    ))
        ensures
            r.0@.wf(),
            r.0@.leader_consistent(),
            ({
                let d = deposit_of(funds@) as nat;
                let owner = match msg.owner {
                    Some(o) => o@,
                    None => sender@,
                };
                let levied = owner != sender@;
                &&& r.0@ == opened(sender@, owner, if levied { net_of(d) } else { d })
                &&& levied ==> sends(r.1@, owner, fee_of(d))
                &&& !levied ==> r.1@.len() == 0
            }),
    {
        let value = deposited_amount(funds);
        let mut msgs: Vec<BankSend> = Vec::new();
        let mut fee_amount: u128 = 0;
        let owner = match msg.owner {
            Some(x) => {
                if !(x == *sender) {
                    fee_amount = fee(value);
                    msgs.push(BankSend { to_address: x.clone(), amount: fee_amount });
                }
                x
            },
            None => sender.clone(),
        };
        let net = value - fee_amount;
        let mut history: Vec<Bid> = Vec::new();
        history.push(Bid { value: net });
        let mut players: Vec<(String, Player)> = Vec::new();
        players.push((sender.clone(), Player { retractable_amount: net }));
        let mut bids: Vec<(String, Vec<Bid>)> = Vec::new();
        bids.push((sender.clone(), history));
        let auction = Auction {
            state: State { owner, round_number: 0 },
            round: BiddingRound { top_bidder: sender.clone(), highest_bid: net, winner: None },
            players,
            bids,
        };
        proof {
            let v = auction@;
            assert(auction.players@.drop_first() =~= Seq::<(String, Player)>::empty());
            assert(auction.bids@.drop_first() =~= Seq::<(String, Vec<Bid>)>::empty());
            assert forall|a: Seq<char>| #[trigger] lookup(auction.players@, a) == if a == sender@ {
                Some(Player { retractable_amount: net })
            } else {
                None
            } by {
                assert(lookup(Seq::<(String, Player)>::empty(), a) is None);
            }
            assert forall|a: Seq<char>| #[trigger] lookup(auction.bids@, a) == if a == sender@ {
                Some(history)
            } else {
                None
            } by {
                assert(lookup(Seq::<(String, Vec<Bid>)>::empty(), a) is None);
            }
            assert(v.players =~= Map::empty().insert(sender@, net as nat));
            assert(bid_values(history@) =~= seq![net as nat]);
            assert(v.bids =~= Map::empty().insert(sender@, seq![net as nat]));
            assert(seq![net as nat].drop_last() =~= Seq::<nat>::empty());
            assert(sum(Seq::<nat>::empty()) == 0);
            assert(v.total(sender@) == net);
            assert forall|a: Seq<char>| #[trigger] v.total(a) <= u128::MAX by {
                if a != sender@ {
                    assert(v.history(a) =~= Seq::<nat>::empty());
                }
            }
        }
        (auction, msgs)
    }

    /// Builds the auction from stored records; `None` where a bid history
    /// sums past the largest amount.
    pub fn from_records(
        state: State,
        round: BiddingRound,
        players: Vec<(String, Player)>,
        bids: Vec<(String, Vec<Bid>)>,
    ) -> (r: Option<Auction>)
        ensures
            r is Some <==> forall|i: int|
                0 <= i < bids@.len() ==> sum(bid_values(#[trigger] bids@[i].1@)) <= u128::MAX,
            r is Some ==> r->0@ == records_view(state, round, players@, bids@) && r->0@.wf(),
    {
        let mut i: usize = 0;
        while i < bids.len()
            invariant
                i <= bids@.len(),
                forall|j: int| 0 <= j < i ==> sum(bid_values(#[trigger] bids@[j].1@)) <= u128::MAX,
            decreases bids@.len() - i,
        {
            if sum_bids(&bids[i].1).is_none() {
                return None;
            }
            i = i + 1;
        }
        let r = Auction { state, round, players, bids };
        proof {
            assert forall|a: Seq<char>| #[trigger] r@.total(a) <= u128::MAX by {
                lemma_lookup_in(r.bids@, a);
            }
        }
        Some(r)
    }

    /// The global state record.
    pub fn state(&self) -> (r: &State)
        ensures
            r.owner@ == self@.owner,
            r.round_number == self@.round_number,
    {
        &self.state
    }

    /// The round record.
    pub fn round(&self) -> (r: &BiddingRound)
        ensures
            r.top_bidder@ == self@.top_bidder,
            r.highest_bid == self@.highest_bid,
            opt_view(r.winner) == self@.winner,
    {
        &self.round
    }

    /// The players' records.
    pub fn players(&self) -> (r: &Vec<(String, Player)>)
        ensures
            players_view(r@) == self@.players,
    {
        &self.players
    }

    /// The participants' bid histories.
    pub fn bids(&self) -> (r: &Vec<(String, Vec<Bid>)>)
        ensures
            bids_view(r@) == self@.bids,
    {
        &self.bids
    }

    /// `sender` bids what it deposited in `DENOM`, less the fee. The bid is
    /// accepted only if it raises the sender's cumulative total above the
    /// highest bid; then the sender leads with that total, its record holds
    /// the total, and the fee goes to the owner.
    pub fn bid(&mut self, sender: &String, funds: &Vec<Coin>) -> (r: Result<
        Vec<BankSend>,
        ContractError,
    >)
        requires
            old(self)@.wf(),
            net_of(deposit_of(funds@) as nat) + old(self)@.total(sender@) <= u128::MAX,
        ensures
            final(self)@.wf(),
            bid_post(old(self)@, final(self)@, sender@, funds@, r),
            old(self)@.leader_consistent() ==> final(self)@.leader_consistent(),
    {
        let value = deposited_amount(funds);
        let fee_amount = fee(value);
        let net = value - fee_amount;
        let (idx, prior) = self.total_of(sender);
        let candidate = net + prior;
        if candidate <= self.round.highest_bid {
            return Err(ContractError::SmallBid);
        }
        let msg = BankSend { to_address: self.state.owner.clone(), amount: fee_amount };
        let history = match idx {
            Some(i) => appended(&self.bids[i].1, Bid { value: net }),
            None => {
                let mut h: Vec<Bid> = Vec::new();
                h.push(Bid { value: net });
                h
            },
        };
        let ghost pre = self@;
        proof {
            assert(bid_values(history@) =~= pre.history(sender@).push(net as nat));
            lemma_sum_push(pre.history(sender@), net as nat);
        }
        self.round.top_bidder = sender.clone();
        self.round.highest_bid = candidate;
        store(&mut self.bids, sender, history);
        store(&mut self.players, sender, Player { retractable_amount: candidate });
        proof {
            assert(self@.bids =~= pre.bids.insert(sender@, pre.history(sender@).push(net as nat)));
            assert(self@.players =~= pre.players.insert(sender@, candidate as nat));
            assert(self@ == pre.after_bid(sender@, net as nat));
            lemma_leader_total_after_bid(pre, sender@, net as nat);
            assert forall|a: Seq<char>| #[trigger] self@.total(a) <= u128::MAX by {
                if a != sender@ {
                    assert(self@.history(a) == pre.history(a));
                    assert(pre.total(a) <= u128::MAX);
                }
            }
        }
        Ok(vec![msg])
    }

    /// The owner settles the round: the leader wins, the owner is paid the
    /// highest bid, the leader's record is zeroed and every bid history is
    /// cleared.
    pub fn close(&mut self, sender: &String) -> (r: Result<Vec<BankSend>, ContractError>)
        requires
            old(self)@.wf(),
        ensures
            final(self)@.wf(),
            close_post(old(self)@, final(self)@, sender@, r),
            old(self)@.leader_consistent() ==> final(self)@.leader_consistent(),
    {
        if !(*sender == self.state.owner) {
            return Err(ContractError::Unauthorized);
        }
        let msg = BankSend { to_address: self.state.owner.clone(), amount: self.round.highest_bid };
        let ghost pre = self@;
        let top = self.round.top_bidder.clone();
        self.round.winner = Some(top.clone());
        store(&mut self.players, &top, Player { retractable_amount: 0 });
        self.bids = Vec::new();
        proof {
            assert(self@.players =~= pre.players.insert(pre.top_bidder, 0));
            assert forall|a: Seq<char>| #[trigger] lookup(self.bids@, a) is None by {}
            assert(self@.bids =~= Map::empty());
            assert(self@ == pre.after_close());
            assert forall|a: Seq<char>| #[trigger] self@.total(a) <= u128::MAX by {
                assert(self@.history(a) =~= Seq::<nat>::empty());
            }
        }
        Ok(vec![msg])
    }

    /// Once the round is closed, `sender` withdraws its retractable amount,
    /// to `receiver` where one is named. The record that is zeroed is the
    /// round leader's, whoever the sender is.
    pub fn retract(&mut self, sender: &String, receiver: Option<String>) -> (r: Result<
        Vec<BankSend>,
        ContractError,
    >)
        requires
            old(self)@.wf(),
        ensures
            final(self)@.wf(),
            retract_post(old(self)@, final(self)@, sender@, opt_view(receiver), r),
            old(self)@.leader_consistent() ==> final(self)@.leader_consistent(),
    {
        if self.round.winner.is_none() {
            return Err(ContractError::BiddingIsOpen);
        }
        let amount = match find_index(&self.players, sender) {
            Some(i) => self.players[i].1.retractable_amount,
            None => {
                return Err(ContractError::PlayerIsNotFound);
            },
        };
        let to = match receiver {
            Some(x) => x,
            None => sender.clone(),
        };
        let msg = BankSend { to_address: to, amount };
        let ghost pre = self@;
        let top = self.round.top_bidder.clone();
        store(&mut self.players, &top, Player { retractable_amount: 0 });
        proof {
            assert(self@.players =~= pre.players.insert(pre.top_bidder, 0));
            assert(self@ == pre.after_retract());
            assert forall|a: Seq<char>| #[trigger] self@.total(a) <= u128::MAX by {
                assert(pre.total(a) <= u128::MAX);
            }
        }
        Ok(vec![msg])
    }

    /// Carries out one request of `sender`, who deposited `funds`.
    pub fn execute(&mut self, sender: &String, funds: &Vec<Coin>, msg: ExecuteMsg) -> (r: Result<
        Vec<BankSend>,
        ContractError,
    >)
        requires
            old(self)@.wf(),
            msg is Bid ==> net_of(deposit_of(funds@) as nat) + old(self)@.total(sender@)
                <= u128::MAX,
        ensures
            final(self)@.wf(),
            match msg {
                ExecuteMsg::Bid {  } => bid_post(old(self)@, final(self)@, sender@, funds@, r),
                ExecuteMsg::Close {  } => close_post(old(self)@, final(self)@, sender@, r),
                ExecuteMsg::Retract { receiver } => retract_post(
                    old(self)@,
                    final(self)@,
                    sender@,
                    opt_view(receiver),
                    r,
                ),
            },
    {
        match msg {
            ExecuteMsg::Bid {  } => self.bid(sender, funds),
            ExecuteMsg::Close {  } => self.close(sender),
            ExecuteMsg::Retract { receiver } => self.retract(sender, receiver),
        }
    }

    /// Answers one query.
    pub fn query(&self, msg: QueryMsg) -> (r: QueryResponse)
        requires
            self@.wf(),
        ensures
            match msg {
                QueryMsg::QueryTotalBid { address } => match r {
                    QueryResponse::TotalBid(t) => t.value.denom@ == DENOM@ && t.value.amount
                        == self@.total(address@),
                    _ => false,
                },
                QueryMsg::QueryHighestBid {  } => match r {
                    QueryResponse::HighestBid(h) => h.address@ == self@.top_bidder
                        && h.value.denom@ == DENOM@ && h.value.amount == self@.highest_bid,
                    _ => false,
                },
                QueryMsg::QueryWinner {  } => match r {
                    QueryResponse::Winner(w) => w.address@ == match self@.winner {
                        Some(x) => x,
                        None => Seq::<char>::empty(),
                    },
                    _ => false,
                },
            },
    {
        match msg {
            QueryMsg::QueryTotalBid { address } => QueryResponse::TotalBid(
                self.query_total_bid(&address),
            ),
            QueryMsg::QueryHighestBid {  } => QueryResponse::HighestBid(self.query_highest_bid()),
            QueryMsg::QueryWinner {  } => QueryResponse::Winner(self.query_winner()),
        }
    }

    /// The cumulative net amount that `address` has bid.
    pub fn query_total_bid(&self, address: &String) -> (r: QueryTotalBidResponse)
        requires
            self@.wf(),
        ensures
            r.value.denom@ == DENOM@,
            r.value.amount == self@.total(address@),
    {
        let (_, t) = self.total_of(address);
        QueryTotalBidResponse { value: denom_coin(t) }
    }

    /// The round leader and its cumulative amount.
    pub fn query_highest_bid(&self) -> (r: QueryHighestBidResponse)
        ensures
            r.address@ == self@.top_bidder,
            r.value.denom@ == DENOM@,
            r.value.amount == self@.highest_bid,
    {
        QueryHighestBidResponse {
            address: self.round.top_bidder.clone(),
            value: denom_coin(self.round.highest_bid),
        }
    }

    /// The winner's address, or the empty string while the round is open.
    pub fn query_winner(&self) -> (r: QueryWinnerResponse)
        ensures
            r.address@ == match self@.winner {
                Some(w) => w,
                None => Seq::<char>::empty(),
            },
    {
        let address = match &self.round.winner {
            Some(x) => x.clone(),
            None => String::new(),
        };
        QueryWinnerResponse { address }
    }

    /// Where the history of `a` is kept, and its total.
    fn total_of(&self, a: &String) -> (r: (Option<usize>, u128))
        requires
            self@.wf(),
        ensures
            r.1 as nat == self@.total(a@),
            match r.0 {
                Some(i) => i < self.bids@.len() && lookup(self.bids@, a@) == Some(
                    self.bids@[i as int].1,
                ),
                None => lookup(self.bids@, a@) is None,
            },
    {
        match find_index(&self.bids, a) {
            Some(i) => {
                proof {
                    assert(self@.total(a@) <= u128::MAX);
                }
                let t = sum_bids(&self.bids[i].1);
                (Some(i), t.unwrap())
            },
            None => (None, 0),
        }
    }
}

} // verus!
