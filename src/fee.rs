use vstd::prelude::*;

verus! {

/// Divisor of the protocol fee: one twentieth of every deposit.
pub const FEE_DIV: u128 = 20;

/// The protocol fee taken from a deposit of `amount`.
pub open spec fn fee_of(amount: nat) -> nat {
    amount / (FEE_DIV as nat)
}

/// What a deposit of `amount` is worth once the fee is taken.
pub open spec fn net_of(amount: nat) -> nat {
    (amount - fee_of(amount)) as nat
}

/// The fee on a deposit, rounded down.
pub fn fee(amount: u128) -> (r: u128)
    ensures
        r == fee_of(amount as nat),
        r <= amount,
{
    amount / FEE_DIV
}

/// The part of a deposit that counts as a bid.
pub fn net_amount(amount: u128) -> (r: u128)
    ensures
        r == net_of(amount as nat),
        r + fee_of(amount as nat) == amount,
{
    amount - fee(amount)
}

/// The fee is one twentieth of the deposit, rounded down, and a positive
/// deposit always keeps something after the fee.
pub proof fn lemma_fee_below_deposit(d: nat)
    ensures
        fee_of(d) == d / 20,
        fee_of(d) <= d,
        d > 0 ==> fee_of(d) < d,
        net_of(d) + fee_of(d) == d,
{
}

} // verus!
