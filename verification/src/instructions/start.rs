//! Starting a tournament.

use vstd::prelude::*;
use crate::errors::JailbreakError;
use crate::state::{Tournament, TournamentAccount, TournamentState, Wallet};

verus! {

/// The accounts of the operation that starts a tournament.
#[derive(Clone, Copy, Debug, PartialEq, Eq)]
pub struct StartTournament {
    pub tournament: TournamentAccount,
    /// The caller, who pays the seed pool.
    pub authority: Wallet,
}

/// The game parameters that a start fixes for good.
#[derive(Clone, Copy, Debug, PartialEq, Eq)]
pub struct GameParameters {
    pub system_prompt_hash: [u8; 32],
    pub initial_pool: u64,
    pub fee_mul_pct_x10: u8,
    pub winner_payout_pct: u8,
    pub royalty_payout_pct: u8,
    pub tournament_fee_type: u8,
}

impl StartTournament {
    /// Why the operation is refused, if it is. The caller is checked first,
    /// then the state, then the percentages, then the caller's funds.
    pub open spec fn rejection(self, p: GameParameters) -> Option<JailbreakError> {
        if self.authority.key != self.tournament.data.authority {
            Some(JailbreakError::InvalidAuthority)
        } else if self.tournament.data.state != TournamentState::Created {
            Some(JailbreakError::AlreadyStarted)
        } else if p.winner_payout_pct + p.royalty_payout_pct > 100 {
            Some(JailbreakError::InvalidPercentages)
        } else if self.authority.lamports < p.initial_pool {
            Some(JailbreakError::InsufficientFunds)
        } else {
            None
        }
    }

    /// The context after the operation has applied: the seed pool has moved
    /// from the caller to the tournament, the parameters are set, and the
    /// tournament is `Running`.
    pub open spec fn applied(self, p: GameParameters) -> StartTournament {
        StartTournament {
            tournament: TournamentAccount {
                lamports: (self.tournament.lamports + p.initial_pool) as u64,
                data: Tournament {
                    state: TournamentState::Running,
                    system_prompt_hash: p.system_prompt_hash,
                    fee_mul_pct_x10: p.fee_mul_pct_x10,
                    tournament_fee_type: p.tournament_fee_type,
                    winner_payout_pct: p.winner_payout_pct,
                    royalty_payout_pct: p.royalty_payout_pct,
                    ..self.tournament.data
                },
            },
            authority: Wallet {
                lamports: (self.authority.lamports - p.initial_pool) as u64,
                ..self.authority
            },
        }
    }

    /// What the operation does: on success the context is the applied one,
    /// on failure it is unchanged and the error is the rejection.
    pub open spec fn transition(
        pre: StartTournament,
        post: StartTournament,
        p: GameParameters,
        r: Result<(), JailbreakError>,
    ) -> bool {
        match r {
            Ok(_) => pre.rejection(p) is None && post == pre.applied(p),
            Err(e) => pre.rejection(p) == Some(e) && post == pre,
        }
    }

    /// The two balances of the context are balances of one ledger, whose
    /// total fits the machine word.
    pub open spec fn balances_fit(self) -> bool {
        self.tournament.lamports + self.authority.lamports <= u64::MAX
    }
}

/// Starts the tournament: moves the seed pool from the caller into it, fixes
/// the game parameters and makes it `Running`.
///
/// Fails with `InvalidAuthority` where the caller is not the tournament's
/// authority, else with `AlreadyStarted` where the tournament is not
/// `Created`, else with `InvalidPercentages` where the two percentages add
/// up to more than one hundred, else with `InsufficientFunds` where the
/// caller holds less than the seed pool. Whatever the outcome, the two
/// balances add up to what they added up to before.
pub fn handler(
    ctx: &mut StartTournament,
    system_prompt_hash: [u8; 32],
    initial_pool: u64,
    fee_mul_pct_x10: u8,
    winner_payout_pct: u8,
    royalty_payout_pct: u8,
    tournament_fee_type: u8,
) -> (r: Result<(), JailbreakError>)
    requires
        old(ctx).balances_fit(),
    ensures
        StartTournament::transition(
            *old(ctx),
            *final(ctx),
            (GameParameters {
                system_prompt_hash,
                initial_pool,
                fee_mul_pct_x10,
                winner_payout_pct,
                royalty_payout_pct,
                tournament_fee_type,
            }),
            r,
        ),
        old(ctx).tournament.data.state.may_become(final(ctx).tournament.data.state),
        r is Ok ==> final(ctx).tournament.data.wf(),
        final(ctx).tournament.lamports >= old(ctx).tournament.lamports,
        final(ctx).tournament.lamports + final(ctx).authority.lamports == old(
            ctx,
        ).tournament.lamports + old(ctx).authority.lamports,
{
    if !ctx.authority.key.same(&ctx.tournament.data.authority) {
        return Err(JailbreakError::InvalidAuthority);
    }
    if ctx.tournament.data.state != TournamentState::Created {
        return Err(JailbreakError::AlreadyStarted);
    }
    if winner_payout_pct > 100 || royalty_payout_pct > 100 - winner_payout_pct {
        return Err(JailbreakError::InvalidPercentages);
    }
    if ctx.authority.lamports < initial_pool {
        return Err(JailbreakError::InsufficientFunds);
    }
    ctx.authority.lamports = ctx.authority.lamports - initial_pool;
    ctx.tournament.lamports = ctx.tournament.lamports + initial_pool;
    ctx.tournament.data.state = TournamentState::Running;
    ctx.tournament.data.system_prompt_hash = system_prompt_hash;
    ctx.tournament.data.fee_mul_pct_x10 = fee_mul_pct_x10;
    ctx.tournament.data.tournament_fee_type = tournament_fee_type;
    ctx.tournament.data.winner_payout_pct = winner_payout_pct;
    ctx.tournament.data.royalty_payout_pct = royalty_payout_pct;
    Ok(())
}

} // verus!
