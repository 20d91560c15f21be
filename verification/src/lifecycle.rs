//! The laws of the lifecycle: what holds between a tournament record and
//! any later version of it, whatever operations were applied in between.

use vstd::prelude::*;
use crate::errors::JailbreakError;
use crate::instructions::conclude::ConcludeTournament;
use crate::instructions::start::{GameParameters, StartTournament};
use crate::instructions::submit::SubmitSolution;
use crate::payout::Payout;
use crate::state::{Tournament, TournamentState};

verus! {

/// Whether two records carry the same game parameters.
pub open spec fn same_parameters(a: Tournament, b: Tournament) -> bool {
    &&& a.system_prompt_hash == b.system_prompt_hash
    &&& a.fee_mul_pct_x10 == b.fee_mul_pct_x10
    &&& a.tournament_fee_type == b.tournament_fee_type
    &&& a.winner_payout_pct == b.winner_payout_pct
    &&& a.royalty_payout_pct == b.royalty_payout_pct
}

/// Whether `b` may be the record `a` after one operation, applied or
/// refused: the state stays or takes a legal move, the key is the same, the
/// counter has not fallen, and the game parameters of a started tournament
/// are the same.
pub open spec fn follows(a: Tournament, b: Tournament) -> bool {
    &&& a.state.may_become(b.state)
    &&& a.authority == b.authority
    &&& a.tournament_id == b.tournament_id
    &&& a.submission_count <= b.submission_count
    &&& a.state != TournamentState::Created ==> same_parameters(a, b)
}

/// Whether each record of a history follows the one before it.
pub open spec fn legal_history(h: Seq<Tournament>) -> bool {
    forall|k: int| 0 <= k < h.len() - 1 ==> follows(#[trigger] h[k], h[k + 1])
}

/// A legal move never lowers the rank of the state.
pub proof fn lemma_move_never_lowers_rank(a: TournamentState, b: TournamentState)
    requires
        a.may_become(b),
    ensures
        a.rank() <= b.rank(),
        a == TournamentState::Concluded ==> b == TournamentState::Concluded,
        b == TournamentState::Created ==> a == TournamentState::Created,
{
}

/// A start, applied or refused, leaves a record that follows the one
/// before; applied, it takes the record from `Created` to `Running`.
pub proof fn lemma_start_follows(
    pre: StartTournament,
    post: StartTournament,
    p: GameParameters,
    r: Result<(), JailbreakError>,
)
    requires
        StartTournament::transition(pre, post, p, r),
    ensures
        follows(pre.tournament.data, post.tournament.data),
        r is Ok ==> pre.tournament.data.state == TournamentState::Created
            && post.tournament.data.state == TournamentState::Running,
{
}

/// A submission, applied or refused, leaves a record that follows the one
/// before; it is applied only to a `Running` tournament, which stays
/// `Running`, and then counts exactly one more submission while the
/// tournament's balance does not fall.
pub proof fn lemma_submit_follows(
    pre: SubmitSolution,
    post: SubmitSolution,
    solution_hash: [u8; 32],
    r: Result<(), JailbreakError>,
)
    requires
        pre.fits(),
        SubmitSolution::transition(pre, post, solution_hash, r),
    ensures
        follows(pre.tournament.data, post.tournament.data),
        r is Ok ==> pre.tournament.data.state == TournamentState::Running
            && post.tournament.data.state == TournamentState::Running,
        r is Ok ==> post.tournament.data.submission_count == pre.tournament.data.submission_count
            + 1,
        post.tournament.lamports >= pre.tournament.lamports,
{
    crate::fees::lemma_fee_bounds(
        pre.tournament.data.tournament_fee_type,
        pre.tournament.data.fee_mul_pct_x10,
        pre.tournament.data.submission_count,
    );
}

/// A conclusion, applied or refused, leaves a record that follows the one
/// before; applied, it takes the record from `Running` to `Concluded`.
pub proof fn lemma_conclude_follows(
    pre: ConcludeTournament,
    post: ConcludeTournament,
    reserved_minimum: u64,
    r: Result<Payout, JailbreakError>,
)
    requires
        ConcludeTournament::transition(pre, post, reserved_minimum, r),
    ensures
        follows(pre.tournament.data, post.tournament.data),
        r is Ok ==> pre.tournament.data.state == TournamentState::Running
            && post.tournament.data.state == TournamentState::Concluded,
{
}

/// A tournament is concluded once: when a conclusion has applied, every
/// further one on the record it left fails with `TournamentNotRunning`,
/// whoever the winner and whatever the reserved minimum, as long as the
/// identities are the right ones.
pub proof fn lemma_conclude_not_repeatable(
    first: ConcludeTournament,
    reserved_minimum: u64,
    second: ConcludeTournament,
    second_minimum: u64,
)
    requires
        first.rejection(reserved_minimum) is None,
        second.tournament == first.applied(reserved_minimum).tournament,
        second.authorized(),
    ensures
        second.rejection(second_minimum) == Some(JailbreakError::TournamentNotRunning),
{
}

/// A concluded record is never concluded, whatever else holds of the
/// context: the error is `InvalidAuthority` or `TournamentNotRunning`.
pub proof fn lemma_concluded_stays_closed(ctx: ConcludeTournament, reserved_minimum: u64)
    requires
        ctx.tournament.data.state == TournamentState::Concluded,
    ensures
        ctx.rejection(reserved_minimum) is Some,
        ctx.authorized() ==> ctx.rejection(reserved_minimum) == Some(
            JailbreakError::TournamentNotRunning,
        ),
{
}

/// A conclusion never underflows: where the identities are the right ones
/// and the tournament is `Running` but holds less than the reserved
/// minimum, it is refused with `Underfunded`.
pub proof fn lemma_conclude_underfunded(ctx: ConcludeTournament, reserved_minimum: u64)
    requires
        ctx.authorized(),
        ctx.tournament.data.state == TournamentState::Running,
        ctx.tournament.lamports < reserved_minimum,
    ensures
        ctx.rejection(reserved_minimum) == Some(JailbreakError::Underfunded),
{
}

/// A start by the tournament's authority on a `Created` tournament with
/// percentages that add up to more than one hundred is refused with
/// `InvalidPercentages`.
pub proof fn lemma_start_refuses_excess_percentages(ctx: StartTournament, p: GameParameters)
    requires
        ctx.authority.key == ctx.tournament.data.authority,
        ctx.tournament.data.state == TournamentState::Created,
        p.winner_payout_pct + p.royalty_payout_pct > 100,
    ensures
        ctx.rejection(p) == Some(JailbreakError::InvalidPercentages),
{
}

/// A submission outside `Running` is refused with `TournamentNotRunning`.
pub proof fn lemma_submit_only_while_running(ctx: SubmitSolution)
    requires
        ctx.tournament.data.state != TournamentState::Running,
    ensures
        ctx.rejection() == Some(JailbreakError::TournamentNotRunning),
{
}

/// Over a legal history the state only moves forward: between any record
/// and any later one the rank of the state has not fallen, a concluded
/// record stays concluded, the key is the same, the counter has not
/// fallen, and the parameters of a started tournament are the same.
pub proof fn lemma_history_moves_forward(h: Seq<Tournament>, i: int, j: int)
    requires
        legal_history(h),
        0 <= i <= j < h.len(),
    ensures
        h[i].state.rank() <= h[j].state.rank(),
        h[i].state == TournamentState::Concluded ==> h[j].state == TournamentState::Concluded,
        h[i].authority == h[j].authority,
        h[i].tournament_id == h[j].tournament_id,
        h[i].submission_count <= h[j].submission_count,
        h[i].state != TournamentState::Created ==> same_parameters(h[i], h[j]),
    decreases j - i,
{
    if i < j {
        lemma_history_moves_forward(h, i, j - 1);
        assert(follows(h[j - 1], h[j - 1 + 1]));
        lemma_move_never_lowers_rank(h[j - 1].state, h[j].state);
    }
}

} // verus!
