//! A pooled-stake tournament escrow: the lifecycle of a tournament record,
//! the entry fee charged for each submission, and the three-way split of the
//! pool when the tournament is concluded.

pub mod address;
pub mod consts;
pub mod errors;
pub mod fees;
pub mod instructions;
pub mod lifecycle;
pub mod payout;
pub mod state;

use vstd::prelude::*;
use crate::errors::JailbreakError;
use crate::instructions::conclude::ConcludeTournament;
use crate::instructions::initialize::Initialize;
use crate::instructions::initialize_admin::InitializeAdmin;
use crate::instructions::start::{GameParameters, StartTournament};
use crate::instructions::submit::SubmitSolution;
use crate::payout::Payout;

verus! {

/// Creates the admin registry with the caller as the protocol authority;
/// fails with `InvalidAuthority` while the registry exists.
pub fn initialize_admin(ctx: &mut InitializeAdmin) -> (r: Result<(), JailbreakError>)
    ensures
        InitializeAdmin::transition(*old(ctx), *final(ctx), r),
{
    instructions::initialize_admin::handler(ctx)
}

/// Allocates the tournament that the caller and `tournament_id` address, in
/// the `Created` state; fails with `DuplicateTournament` where it exists.
pub fn initialize(ctx: &mut Initialize, tournament_id: u64) -> (r: Result<(), JailbreakError>)
    ensures
        Initialize::transition(*old(ctx), *final(ctx), tournament_id, r),
{
    instructions::initialize::handler(ctx, tournament_id)
}

/// Starts a `Created` tournament on behalf of its authority: moves the seed
/// pool in, fixes the game parameters and makes it `Running`.
pub fn start_tournament(
    ctx: &mut StartTournament,
    system_prompt_hash: [u8; 32],
    initial_pool: u64,
    fee_mul_pct_x10: u8,
    winner_payout_pct: u8,
    royalty_payout_pct: u8,
    tournament_fee_type: u8,
) -> (r: Result<(), JailbreakError>)
    requires
        old(ctx).balances_fit(),
    ensures
        StartTournament::transition(
            *old(ctx),
            *final(ctx),
            (GameParameters {
                system_prompt_hash,
                initial_pool,
                fee_mul_pct_x10,
                winner_payout_pct,
                royalty_payout_pct,
                tournament_fee_type,
            }),
            r,
        ),
        r is Ok ==> final(ctx).tournament.data.wf(),
{
    instructions::start::handler(
        ctx,
        system_prompt_hash,
        initial_pool,
        fee_mul_pct_x10,
        winner_payout_pct,
        royalty_payout_pct,
        tournament_fee_type,
    )
}

/// Concludes a `Running` tournament on behalf of the protocol authority:
/// takes all that it holds above `reserved_minimum` out of its balance,
/// makes it `Concluded` and returns the three amounts to credit.
pub fn conclude_tournament(ctx: &mut ConcludeTournament, reserved_minimum: u64) -> (r: Result<
    Payout,
    JailbreakError,
>)
    requires
        old(ctx).tournament.data.wf(),
    ensures
        ConcludeTournament::transition(*old(ctx), *final(ctx), reserved_minimum, r),
        match r {
            Ok(p) => p.winner_amount + p.royalty_amount + p.deployer_amount == old(
                ctx,
            ).tournament.lamports - final(ctx).tournament.lamports,
            Err(_) => true,
        },
        final(ctx).tournament.data.wf(),
{
    instructions::conclude::handler(ctx, reserved_minimum)
}

/// Charges the entry fee of the next submission to the caller, adds it to
/// the balance of a `Running` tournament, counts the submission and records
/// its hash.
pub fn submit_solution(ctx: &mut SubmitSolution, solution_hash: [u8; 32]) -> (r: Result<
    (),
    JailbreakError,
>)
    requires
        old(ctx).fits(),
    ensures
        SubmitSolution::transition(*old(ctx), *final(ctx), solution_hash, r),
        r is Ok ==> final(ctx).tournament.data.submission_count == old(
            ctx,
        ).tournament.data.submission_count + 1,
        final(ctx).tournament.lamports >= old(ctx).tournament.lamports,
        old(ctx).tournament.data.wf() ==> final(ctx).tournament.data.wf(),
{
    instructions::submit::handler(ctx, solution_hash)
}

} // verus!
