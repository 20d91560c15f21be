//! The fee model: what the submission with a given index costs, by the
//! tournament's fee kind and multiplier.

use vstd::prelude::*;
use crate::consts::{BASE_FEE, FEE_SCALE, FEE_TYPE_COMPOUND, FEE_TYPE_LINEAR, MAX_FEE};

verus! {

/// A fee, held to the cap.
pub open spec fn capped(fee: nat) -> nat {
    if fee <= MAX_FEE {
        fee
    } else {
        MAX_FEE as nat
    }
}

/// The linear fee: the base fee, plus the multiplier's fraction of the base
/// fee for each earlier submission, rounded down and capped.
pub open spec fn linear_fee(multiplier: nat, index: nat) -> nat {
    capped(BASE_FEE as nat + BASE_FEE as nat * multiplier * index / (FEE_SCALE as nat))
}

/// The fee that follows `fee` under compound growth: `fee` plus the
/// multiplier's fraction of it, rounded down and capped.
pub open spec fn compound_step(fee: nat, multiplier: nat) -> nat {
    capped(fee + fee * multiplier / (FEE_SCALE as nat))
}

/// The compound fee: the base fee for the first submission, and for each
/// later one the step from the fee before.
pub open spec fn compound_fee(multiplier: nat, index: nat) -> nat
    decreases index,
{
    if index == 0 {
        BASE_FEE as nat
    } else {
        compound_step(compound_fee(multiplier, (index - 1) as nat), multiplier)
    }
}

/// The fee of the submission with the given index, counted from zero. A
/// kind that is neither linear nor compound is flat.
pub open spec fn fee_spec(kind: u8, multiplier: u8, index: u64) -> nat {
    if kind == FEE_TYPE_LINEAR {
        linear_fee(multiplier as nat, index as nat)
    } else if kind == FEE_TYPE_COMPOUND {
        compound_fee(multiplier as nat, index as nat)
    } else {
        BASE_FEE as nat
    }
}

/// A compound fee lies between the base fee and the cap.
pub proof fn lemma_compound_bounds(multiplier: nat, index: nat)
    ensures
        BASE_FEE <= compound_fee(multiplier, index) <= MAX_FEE,
    decreases index,
{
    if index > 0 {
        lemma_compound_bounds(multiplier, (index - 1) as nat);
        let p = compound_fee(multiplier, (index - 1) as nat);
        assert(p * multiplier >= 0) by (nonlinear_arith)
            requires
                p >= 0,
                multiplier >= 0,
        ;
    }
}

/// The compound fee never falls from one submission to a later one.
pub proof fn lemma_compound_monotonic(multiplier: nat, i: nat, j: nat)
    requires
        i <= j,
    ensures
        compound_fee(multiplier, i) <= compound_fee(multiplier, j),
    decreases j,
{
    if i < j {
        lemma_compound_monotonic(multiplier, i, (j - 1) as nat);
        lemma_compound_bounds(multiplier, (j - 1) as nat);
        let p = compound_fee(multiplier, (j - 1) as nat);
        assert(p * multiplier >= 0) by (nonlinear_arith)
            requires
                p >= 0,
                multiplier >= 0,
        ;
    }
}

/// Once a step leaves the compound fee unchanged, it stays there for good.
pub proof fn lemma_compound_settles(multiplier: nat, i: nat, j: nat)
    requires
        i <= j,
        compound_step(compound_fee(multiplier, i), multiplier) == compound_fee(multiplier, i),
    ensures
        compound_fee(multiplier, j) == compound_fee(multiplier, i),
    decreases j,
{
    if i < j {
        lemma_compound_settles(multiplier, i, (j - 1) as nat);
    }
}

/// The linear fee never falls from one submission to a later one.
pub proof fn lemma_linear_monotonic(multiplier: nat, i: nat, j: nat)
    requires
        i <= j,
    ensures
        linear_fee(multiplier, i) <= linear_fee(multiplier, j),
{
    let base = BASE_FEE as nat;
    assert(base * multiplier * i <= base * multiplier * j) by (nonlinear_arith)
        requires
            i <= j,
    ;
}

/// The fee is monotonic in the submission index, for every kind and
/// multiplier: a later submission never costs less than an earlier one.
pub proof fn lemma_fee_monotonic(kind: u8, multiplier: u8, i: u64, j: u64)
    requires
        i <= j,
    ensures
        fee_spec(kind, multiplier, i) <= fee_spec(kind, multiplier, j),
{
    lemma_linear_monotonic(multiplier as nat, i as nat, j as nat);
    lemma_compound_monotonic(multiplier as nat, i as nat, j as nat);
}

/// Every fee lies between the base fee and the cap, so it fits the machine
/// word whatever the index.
pub proof fn lemma_fee_bounds(kind: u8, multiplier: u8, index: u64)
    ensures
        BASE_FEE <= fee_spec(kind, multiplier, index) <= MAX_FEE,
{
    lemma_compound_bounds(multiplier as nat, index as nat);
    let base = BASE_FEE as nat;
    let m = multiplier as nat;
    let n = index as nat;
    assert(base * m * n >= 0) by (nonlinear_arith)
        requires
            base >= 0,
            m >= 0,
            n >= 0,
    ;
}

/// The linear fee of a submission.
pub fn compute_linear_fee(multiplier: u8, index: u64) -> (fee: u64)
    ensures
        fee == linear_fee(multiplier as nat, index as nat),
{
    assert((BASE_FEE as u128) * (multiplier as u128) <= 2_550_000_000) by (nonlinear_arith)
        requires
            BASE_FEE == 10_000_000,
            multiplier <= 255,
    ;
    let per_step: u128 = (BASE_FEE as u128) * (multiplier as u128);
    assert(per_step * (index as u128) <= 2_550_000_000 * 0xffff_ffff_ffff_ffff)
        by (nonlinear_arith)
        requires
            per_step <= 2_550_000_000,
            index <= 0xffff_ffff_ffff_ffff,
    ;
    let growth: u128 = per_step * (index as u128) / (FEE_SCALE as u128);
    let total: u128 = (BASE_FEE as u128) + growth;
    if total > MAX_FEE as u128 {
        MAX_FEE
    } else {
        total as u64
    }
}

/// The fee that follows `fee` under compound growth.
pub fn next_compound_fee(fee: u64, multiplier: u8) -> (next: u64)
    ensures
        next == compound_step(fee as nat, multiplier as nat),
        next >= fee,
{
    assert((fee as u128) * (multiplier as u128) <= 0xffff_ffff_ffff_ffff * 255)
        by (nonlinear_arith)
        requires
            fee <= 0xffff_ffff_ffff_ffff,
            multiplier <= 255,
    ;
    let growth: u128 = (fee as u128) * (multiplier as u128) / (FEE_SCALE as u128);
    let total: u128 = (fee as u128) + growth;
    if total > MAX_FEE as u128 {
        MAX_FEE
    } else {
        total as u64
    }
}

/// The compound fee of a submission. The fee is followed step by step until
/// the index is reached or a step changes nothing, after which no step
/// would.
pub fn compute_compound_fee(multiplier: u8, index: u64) -> (fee: u64)
    ensures
        fee == compound_fee(multiplier as nat, index as nat),
{
    let mut fee: u64 = BASE_FEE;
    let mut i: u64 = 0;
    while i < index
        invariant
            i <= index,
            fee == compound_fee(multiplier as nat, i as nat),
        decreases index - i,
    {
        let next = next_compound_fee(fee, multiplier);
        if next == fee {
            proof {
                lemma_compound_settles(multiplier as nat, i as nat, index as nat);
            }
            return fee;
        }
        fee = next;
        i += 1;
    }
    fee
}

/// The fee of the submission with the given index, counted from zero.
/// It depends on nothing but the three arguments, never falls as the index
/// grows, and never wraps: the growth kinds stop at the cap.
pub fn compute_fee(kind: u8, multiplier: u8, index: u64) -> (fee: u64)
    ensures
        fee == fee_spec(kind, multiplier, index),
        fee >= BASE_FEE,
{
    proof {
        lemma_fee_bounds(kind, multiplier, index);
    }
    if kind == FEE_TYPE_LINEAR {
        compute_linear_fee(multiplier, index)
    } else if kind == FEE_TYPE_COMPOUND {
        compute_compound_fee(multiplier, index)
    } else {
        BASE_FEE
    }
}

} // verus!
