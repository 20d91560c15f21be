//! The payout engine: how the pool of a concluded tournament is divided
//! between the winner, the royalty recipient and the deployer.

use vstd::prelude::*;
use crate::errors::JailbreakError;

verus! {

/// The three amounts paid out when a tournament is concluded.
#[derive(Clone, Copy, Debug, PartialEq, Eq, Structural)]
pub struct Payout {
    pub winner_amount: u64,
    pub royalty_amount: u64,
    pub deployer_amount: u64,
}

/// `pct` percent of `amount`, rounded down.
pub open spec fn share(amount: nat, pct: nat) -> nat {
    amount * pct / 100
}

/// What a balance holds above the minimum that its account must retain.
pub open spec fn disbursable_spec(balance: u64, reserved_minimum: u64) -> int {
    balance - reserved_minimum
}

/// Whether `p` is the split of `disbursable` by the two percentages: the
/// winner and the royalty recipient get their percentage rounded down, and
/// the deployer gets all that is left.
pub open spec fn is_split(p: Payout, disbursable: u64, winner_pct: u8, royalty_pct: u8) -> bool {
    &&& p.winner_amount == share(disbursable as nat, winner_pct as nat)
    &&& p.royalty_amount == share(disbursable as nat, royalty_pct as nat)
    &&& p.deployer_amount == disbursable - share(disbursable as nat, winner_pct as nat) - share(
        disbursable as nat,
        royalty_pct as nat,
    )
}

/// A percentage of at most one hundred yields a share of at most the amount.
pub proof fn lemma_share_bounded(amount: nat, pct: nat)
    requires
        pct <= 100,
    ensures
        share(amount, pct) <= amount,
        amount * pct <= amount * 100,
{
    assert(amount * pct <= amount * 100) by (nonlinear_arith)
        requires
            pct <= 100,
    ;
}

/// Two shares whose percentages add up to at most one hundred never exceed
/// the amount together, so the deployer's remainder is never negative; and
/// that remainder is the deployer's own percentage rounded down, plus at
/// most one unit of rounding for each of the two other shares.
pub proof fn lemma_shares_fit(amount: nat, winner_pct: nat, royalty_pct: nat)
    requires
        winner_pct + royalty_pct <= 100,
    ensures
        share(amount, winner_pct) + share(amount, royalty_pct) <= amount,
        amount - share(amount, winner_pct) - share(amount, royalty_pct) >= share(
            amount,
            (100 - winner_pct - royalty_pct) as nat,
        ),
        amount - share(amount, winner_pct) - share(amount, royalty_pct) <= share(
            amount,
            (100 - winner_pct - royalty_pct) as nat,
        ) + 2,
{
    let rest = (100 - winner_pct - royalty_pct) as nat;
    assert(amount * winner_pct + amount * royalty_pct + amount * rest == amount * 100)
        by (nonlinear_arith)
        requires
            winner_pct + royalty_pct + rest == 100,
    ;
}

/// A split conserves the balance: for percentages that add up to at most
/// one hundred, the three amounts of the split add up to the disbursable
/// balance exactly, and each of them is at most that balance.
pub proof fn lemma_split_conserves(p: Payout, disbursable: u64, winner_pct: u8, royalty_pct: u8)
    requires
        winner_pct + royalty_pct <= 100,
        is_split(p, disbursable, winner_pct, royalty_pct),
    ensures
        p.winner_amount + p.royalty_amount + p.deployer_amount == disbursable,
        p.winner_amount <= disbursable,
        p.royalty_amount <= disbursable,
        p.deployer_amount <= disbursable,
{
    lemma_shares_fit(disbursable as nat, winner_pct as nat, royalty_pct as nat);
    lemma_share_bounded(disbursable as nat, winner_pct as nat);
    lemma_share_bounded(disbursable as nat, royalty_pct as nat);
}

/// `pct` percent of `amount`, rounded down, for a percentage of at most one
/// hundred.
pub fn percentage_of(amount: u64, pct: u8) -> (r: u64)
    requires
        pct <= 100,
    ensures
        r == share(amount as nat, pct as nat),
        r <= amount,
{
    proof {
        lemma_share_bounded(amount as nat, pct as nat);
    }
    let wide: u128 = (amount as u128) * (pct as u128) / 100;
    wide as u64
}

/// The disbursable balance of an account, or `Underfunded` where the account
/// holds less than it must retain.
pub fn disbursable(balance: u64, reserved_minimum: u64) -> (r: Result<u64, JailbreakError>)
    ensures
        balance >= reserved_minimum ==> r == Ok::<u64, JailbreakError>(
            (balance - reserved_minimum) as u64,
        ),
        balance < reserved_minimum ==> r == Err::<u64, JailbreakError>(
            JailbreakError::Underfunded,
        ),
{
    if balance < reserved_minimum {
        Err(JailbreakError::Underfunded)
    } else {
        Ok(balance - reserved_minimum)
    }
}

/// Divides a disbursable balance between the three parties. Nothing is
/// lost and nothing is counted twice: the three amounts add up to the
/// balance exactly.
pub fn split(disbursable: u64, winner_pct: u8, royalty_pct: u8) -> (p: Payout)
    requires
        winner_pct + royalty_pct <= 100,
    ensures
        is_split(p, disbursable, winner_pct, royalty_pct),
        p.winner_amount + p.royalty_amount + p.deployer_amount == disbursable,
{
    proof {
        lemma_shares_fit(disbursable as nat, winner_pct as nat, royalty_pct as nat);
    }
    let winner_amount = percentage_of(disbursable, winner_pct);
    let royalty_amount = percentage_of(disbursable, royalty_pct);
    let deployer_amount = disbursable - winner_amount - royalty_amount;
    Payout { winner_amount, royalty_amount, deployer_amount }
}

/// The payout of an account that holds `balance` and must retain
/// `reserved_minimum`: the split of what it holds above the minimum, or
/// `Underfunded` where it holds less than the minimum.
pub fn compute_payout(balance: u64, reserved_minimum: u64, winner_pct: u8, royalty_pct: u8) -> (r:
    Result<Payout, JailbreakError>)
    requires
        winner_pct + royalty_pct <= 100,
    ensures
        match r {
            Ok(p) => balance >= reserved_minimum && is_split(
                p,
                (balance - reserved_minimum) as u64,
                winner_pct,
                royalty_pct,
            ) && p.winner_amount + p.royalty_amount + p.deployer_amount == balance
                - reserved_minimum,
            Err(e) => balance < reserved_minimum && e == JailbreakError::Underfunded,
        },
{
    match disbursable(balance, reserved_minimum) {
        Ok(d) => Ok(split(d, winner_pct, royalty_pct)),
        Err(e) => Err(e),
    }
}

} // verus!
