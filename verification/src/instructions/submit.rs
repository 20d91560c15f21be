//! Submitting an attempt.

use vstd::prelude::*;
use crate::errors::JailbreakError;
use crate::fees::{compute_fee, fee_spec};
use crate::state::{Tournament, TournamentAccount, TournamentState, Wallet};

verus! {

/// The accounts of the operation that submits an attempt.
#[derive(Clone, Copy, Debug, PartialEq, Eq)]
pub struct SubmitSolution {
    pub tournament: TournamentAccount,
    /// The caller, who pays the entry fee.
    pub submitter: Wallet,
}

impl SubmitSolution {
    /// The entry fee of the next submission to the tournament.
    pub open spec fn fee(self) -> nat {
        fee_spec(
            self.tournament.data.tournament_fee_type,
            self.tournament.data.fee_mul_pct_x10,
            self.tournament.data.submission_count,
        )
    }

    /// Why the operation is refused, if it is. The state is checked first,
    /// then the caller's funds.
    pub open spec fn rejection(self) -> Option<JailbreakError> {
        if self.tournament.data.state != TournamentState::Running {
            Some(JailbreakError::TournamentNotRunning)
        } else if self.submitter.lamports < self.fee() {
            Some(JailbreakError::InsufficientFunds)
        } else {
            None
        }
    }

    /// The context after the operation has applied: the fee has moved from
    /// the caller to the tournament, one more submission is counted, and
    /// the hash is recorded as the latest attempt.
    pub open spec fn applied(self, solution_hash: [u8; 32]) -> SubmitSolution {
        SubmitSolution {
            tournament: TournamentAccount {
                lamports: (self.tournament.lamports + self.fee()) as u64,
                data: Tournament {
                    submission_count: (self.tournament.data.submission_count + 1) as u64,
                    last_solution_hash: solution_hash,
                    ..self.tournament.data
                },
            },
            submitter: Wallet {
                lamports: (self.submitter.lamports - self.fee()) as u64,
                ..self.submitter
            },
        }
    }

    /// What the operation does: on success the context is the applied one,
    /// on failure it is unchanged and the error is the rejection.
    pub open spec fn transition(
        pre: SubmitSolution,
        post: SubmitSolution,
        solution_hash: [u8; 32],
        r: Result<(), JailbreakError>,
    ) -> bool {
        match r {
            Ok(_) => pre.rejection() is None && post == pre.applied(solution_hash),
            Err(e) => pre.rejection() == Some(e) && post == pre,
        }
    }

    /// The two balances of the context are balances of one ledger, whose
    /// total fits the machine word, and the counter has room for one more
    /// submission.
    pub open spec fn fits(self) -> bool {
        &&& self.tournament.lamports + self.submitter.lamports <= u64::MAX
        &&& self.tournament.data.submission_count < u64::MAX
    }
}

/// Charges the entry fee of the next submission to the caller, adds it to
/// the tournament's balance, counts the submission and records its hash.
/// The hash is not compared with the tournament's commitment.
///
/// Fails with `TournamentNotRunning` where the tournament is not `Running`,
/// else with `InsufficientFunds` where the caller holds less than the fee.
/// On success the counter has grown by exactly one and the tournament's
/// balance has not shrunk.
pub fn handler(ctx: &mut SubmitSolution, solution_hash: [u8; 32]) -> (r: Result<
    (),
    JailbreakError,
>)
    requires
        old(ctx).fits(),
    ensures
        SubmitSolution::transition(*old(ctx), *final(ctx), solution_hash, r),
        r is Ok ==> old(ctx).tournament.data.state == TournamentState::Running,
        r is Ok ==> final(ctx).tournament.data.submission_count == old(
            ctx,
        ).tournament.data.submission_count + 1,
        r is Ok ==> final(ctx).tournament.lamports == old(ctx).tournament.lamports + old(
            ctx,
        ).fee(),
        final(ctx).tournament.lamports >= old(ctx).tournament.lamports,
        final(ctx).tournament.data.submission_count >= old(ctx).tournament.data.submission_count,
        final(ctx).tournament.lamports + final(ctx).submitter.lamports == old(
            ctx,
        ).tournament.lamports + old(ctx).submitter.lamports,
        old(ctx).tournament.data.state.may_become(final(ctx).tournament.data.state),
        old(ctx).tournament.data.wf() ==> final(ctx).tournament.data.wf(),
{
    if ctx.tournament.data.state != TournamentState::Running {
        return Err(JailbreakError::TournamentNotRunning);
    }
    let fee = compute_fee(
        ctx.tournament.data.tournament_fee_type,
        ctx.tournament.data.fee_mul_pct_x10,
        ctx.tournament.data.submission_count,
    );
    if ctx.submitter.lamports < fee {
        return Err(JailbreakError::InsufficientFunds);
    }
    ctx.submitter.lamports = ctx.submitter.lamports - fee;
    ctx.tournament.lamports = ctx.tournament.lamports + fee;
    ctx.tournament.data.submission_count = ctx.tournament.data.submission_count + 1;
    ctx.tournament.data.last_solution_hash = solution_hash;
    Ok(())
}

} // verus!
