//! The failure kinds of the tournament operations.

use vstd::prelude::*;

verus! {

/// Why an operation was refused. Every refusal leaves all records and
/// balances exactly as they were.
#[derive(Clone, Copy, Debug, PartialEq, Eq, Structural)]
pub enum JailbreakError {
    /// A tournament already exists under the creator and identifier given.
    DuplicateTournament,
    /// The caller, or a bound destination, is not the identity that the
    /// operation demands.
    InvalidAuthority,
    /// The winner and royalty percentages add up to more than one hundred.
    InvalidPercentages,
    /// The tournament has left the `Created` state.
    AlreadyStarted,
    /// The tournament is not in the `Running` state.
    TournamentNotRunning,
    /// The payer holds less than the amount to be charged.
    InsufficientFunds,
    /// The tournament holds less than the balance it must retain.
    Underfunded,
}

impl JailbreakError {
    /// The position of the kind in the declaration order, as a stable code
    /// for tooling.
    pub open spec fn code_spec(self) -> u32 {
        match self {
            JailbreakError::DuplicateTournament => 0,
            JailbreakError::InvalidAuthority => 1,
            JailbreakError::InvalidPercentages => 2,
            JailbreakError::AlreadyStarted => 3,
            JailbreakError::TournamentNotRunning => 4,
            JailbreakError::InsufficientFunds => 5,
            JailbreakError::Underfunded => 6,
        }
    }

    /// The stable numeric code of the kind.
    pub fn code(&self) -> (c: u32)
        ensures
            c == self.code_spec(),
    {
        match self {
            JailbreakError::DuplicateTournament => 0,
            JailbreakError::InvalidAuthority => 1,
            JailbreakError::InvalidPercentages => 2,
            JailbreakError::AlreadyStarted => 3,
            JailbreakError::TournamentNotRunning => 4,
            JailbreakError::InsufficientFunds => 5,
            JailbreakError::Underfunded => 6,
        }
    }
}

} // verus!
