//! Allocating a tournament.

use vstd::prelude::*;
use crate::errors::JailbreakError;
use crate::state::{AccountId, ProgramAdmin, Tournament, TournamentAccount};

verus! {

/// The accounts of the operation that allocates a tournament.
#[derive(Clone, Copy, Debug, PartialEq, Eq)]
pub struct Initialize {
    /// The place that the creator and the identifier address: empty until
    /// the tournament is allocated.
    pub tournament: Option<TournamentAccount>,
    /// The admin registry, which must exist; it is read only.
    pub program_admin: ProgramAdmin,
    /// The caller, who becomes the tournament's authority.
    pub authority: AccountId,
}

impl Initialize {
    /// Why the operation is refused, if it is: the place is taken.
    pub open spec fn rejection(self) -> Option<JailbreakError> {
        if self.tournament is Some {
            Some(JailbreakError::DuplicateTournament)
        } else {
            None
        }
    }

    /// Whether `post` is this context after the operation has applied: the
    /// place holds a fresh record for the caller and the identifier, with
    /// no balance yet, and nothing else has changed.
    pub open spec fn applied(self, post: Initialize, tournament_id: u64) -> bool {
        &&& post.tournament is Some
        &&& post.tournament->Some_0.lamports == 0
        &&& post.tournament->Some_0.data.is_fresh(self.authority, tournament_id)
        &&& post.program_admin == self.program_admin
        &&& post.authority == self.authority
    }

    /// What the operation does: on success the context is the applied one,
    /// on failure it is unchanged and the error is the rejection.
    pub open spec fn transition(
        pre: Initialize,
        post: Initialize,
        tournament_id: u64,
        r: Result<(), JailbreakError>,
    ) -> bool {
        match r {
            Ok(_) => pre.rejection() is None && pre.applied(post, tournament_id),
            Err(e) => pre.rejection() == Some(e) && post == pre,
        }
    }
}

/// Allocates the tournament that the caller and `tournament_id` address, in
/// the `Created` state. Fails with `DuplicateTournament` where that
/// tournament exists already.
pub fn handler(ctx: &mut Initialize, tournament_id: u64) -> (r: Result<(), JailbreakError>)
    ensures
        Initialize::transition(*old(ctx), *final(ctx), tournament_id, r),
{
    if ctx.tournament.is_some() {
        return Err(JailbreakError::DuplicateTournament);
    }
    let data = Tournament::new(ctx.authority, tournament_id);
    ctx.tournament = Some(TournamentAccount { lamports: 0, data });
    Ok(())
}

} // verus!
