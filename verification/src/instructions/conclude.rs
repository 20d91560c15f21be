//! Concluding a tournament.

use vstd::prelude::*;
use crate::errors::JailbreakError;
use crate::payout::{compute_payout, is_split, Payout};
use crate::state::{AccountId, ProgramAdmin, Tournament, TournamentAccount, TournamentState};

verus! {

/// The accounts of the operation that concludes a tournament.
#[derive(Clone, Copy, Debug, PartialEq, Eq)]
pub struct ConcludeTournament {
    pub tournament: TournamentAccount,
    /// The admin registry; it is read only.
    pub program_admin: ProgramAdmin,
    /// Who receives the royalty: bound to the protocol authority.
    pub royalty_destination: AccountId,
    /// The caller.
    pub authority: AccountId,
    /// Who receives the winner's share. The caller names the winner; no
    /// submission binds the choice.
    pub winner_account: AccountId,
    /// Who receives the deployer's share: bound to the tournament's own
    /// authority.
    pub tournament_authority: AccountId,
}

impl ConcludeTournament {
    /// The caller is the protocol authority, and the two bound destinations
    /// are the ones that the records name.
    pub open spec fn authorized(self) -> bool {
        &&& self.program_admin.authority == self.authority
        &&& self.royalty_destination == self.program_admin.authority
        &&& self.tournament_authority == self.tournament.data.authority
    }

    /// Why the operation is refused, if it is. The identities are checked
    /// first, then the state, then the balance.
    pub open spec fn rejection(self, reserved_minimum: u64) -> Option<JailbreakError> {
        if !self.authorized() {
            Some(JailbreakError::InvalidAuthority)
        } else if self.tournament.data.state != TournamentState::Running {
            Some(JailbreakError::TournamentNotRunning)
        } else if self.tournament.lamports < reserved_minimum {
            Some(JailbreakError::Underfunded)
        } else {
            None
        }
    }

    /// The context after the operation has applied: the tournament retains
    /// the reserved minimum and nothing more, and is `Concluded`.
    pub open spec fn applied(self, reserved_minimum: u64) -> ConcludeTournament {
        ConcludeTournament {
            tournament: TournamentAccount {
                lamports: reserved_minimum,
                data: Tournament { state: TournamentState::Concluded, ..self.tournament.data },
            },
            ..self
        }
    }

    /// What the operation does: on success the context is the applied one
    /// and the payout is the split of what the tournament held above the
    /// reserved minimum; on failure the context is unchanged and the error
    /// is the rejection.
    pub open spec fn transition(
        pre: ConcludeTournament,
        post: ConcludeTournament,
        reserved_minimum: u64,
        r: Result<Payout, JailbreakError>,
    ) -> bool {
        match r {
            Ok(p) => pre.rejection(reserved_minimum) is None && post == pre.applied(
                reserved_minimum,
            ) && is_split(
                p,
                (pre.tournament.lamports - reserved_minimum) as u64,
                pre.tournament.data.winner_payout_pct,
                pre.tournament.data.royalty_payout_pct,
            ),
            Err(e) => pre.rejection(reserved_minimum) == Some(e) && post == pre,
        }
    }
}

/// Concludes the tournament: takes all that it holds above
/// `reserved_minimum` out of its balance, makes it `Concluded`, and returns
/// the three amounts to credit: to the winner account, to the royalty
/// destination and to the tournament's authority. The amounts add up to
/// what was taken, exactly. The debit and the three credits are one batch:
/// the caller of this function credits all three amounts or none.
///
/// Fails with `InvalidAuthority` where the caller is not the protocol
/// authority, the royalty destination is not the protocol authority, or the
/// deployer destination is not the tournament's authority; else with
/// `TournamentNotRunning` where the tournament is not `Running`; else with
/// `Underfunded` where it holds less than `reserved_minimum`.
pub fn handler(ctx: &mut ConcludeTournament, reserved_minimum: u64) -> (r: Result<
    Payout,
    JailbreakError,
>)
    requires
        old(ctx).tournament.data.wf(),
    ensures
        ConcludeTournament::transition(*old(ctx), *final(ctx), reserved_minimum, r),
        match r {
            Ok(p) => p.winner_amount + p.royalty_amount + p.deployer_amount == old(
                ctx,
            ).tournament.lamports - final(ctx).tournament.lamports,
            Err(_) => true,
        },
        old(ctx).tournament.data.state.may_become(final(ctx).tournament.data.state),
        final(ctx).tournament.data.wf(),
{
    let caller_ok = ctx.program_admin.authority.same(&ctx.authority);
    let royalty_ok = ctx.royalty_destination.same(&ctx.program_admin.authority);
    let deployer_ok = ctx.tournament_authority.same(&ctx.tournament.data.authority);
    if !(caller_ok && royalty_ok && deployer_ok) {
        return Err(JailbreakError::InvalidAuthority);
    }
    if ctx.tournament.data.state != TournamentState::Running {
        return Err(JailbreakError::TournamentNotRunning);
    }
    let payout = compute_payout(
        ctx.tournament.lamports,
        reserved_minimum,
        ctx.tournament.data.winner_payout_pct,
        ctx.tournament.data.royalty_payout_pct,
    );
    match payout {
        Ok(p) => {
            ctx.tournament.lamports = reserved_minimum;
            ctx.tournament.data.state = TournamentState::Concluded;
            Ok(p)
        },
        Err(e) => Err(e),
    }
}

} // verus!
