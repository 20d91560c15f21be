//! The persisted records: identities, the tournament record with the balance
//! of the account that carries it, the admin registry and a paying wallet.

use vstd::prelude::*;

verus! {

/// The identity of an account: thirty-two opaque bytes.
#[derive(Clone, Copy, Debug, PartialEq, Eq)]
pub struct AccountId {
    pub bytes: [u8; 32],
}

impl View for AccountId {
    type V = Seq<u8>;

    open spec fn view(&self) -> Seq<u8> {
        self.bytes@
    }
}

impl AccountId {
    /// An identity from its bytes.
    pub fn new(bytes: [u8; 32]) -> (id: AccountId)
        ensures
            id.bytes == bytes,
    {
        AccountId { bytes }
    }

    /// Whether two identities are the same, byte for byte.
    pub fn same(&self, other: &AccountId) -> (r: bool)
        ensures
            r == (*self == *other),
            r == (self@ == other@),
    {
        let mut i: usize = 0;
        while i < 32
            invariant
                i <= 32,
                forall|j: int| 0 <= j < i ==> self.bytes[j] == other.bytes[j],
            decreases 32 - i,
        {
            if self.bytes[i] != other.bytes[i] {
                return false;
            }
            i += 1;
        }
        proof {
            assert(self.bytes =~= other.bytes);
        }
        true
    }
}

/// Where a tournament stands in its life. The only moves are from `Created`
/// to `Running` and from `Running` to `Concluded`.
#[derive(Clone, Copy, Debug, PartialEq, Eq, Structural)]
pub enum TournamentState {
    /// Allocated, not yet configured.
    Created,
    /// Configured and open to submissions.
    Running,
    /// Paid out; terminal.
    Concluded,
}

impl TournamentState {
    /// The position of the state along the lifecycle.
    pub open spec fn rank(self) -> nat {
        match self {
            TournamentState::Created => 0,
            TournamentState::Running => 1,
            TournamentState::Concluded => 2,
        }
    }

    /// Whether a record may stand in `next` directly after standing in
    /// `self`: it stays, or takes one of the two legal moves.
    pub open spec fn may_become(self, next: TournamentState) -> bool {
        self == next || (self == TournamentState::Created && next == TournamentState::Running) || (
        self == TournamentState::Running && next == TournamentState::Concluded)
    }
}

/// The structured data of a tournament record.
#[derive(Clone, Copy, Debug, PartialEq, Eq)]
pub struct Tournament {
    /// The creator and deployer; fixed at creation.
    pub authority: AccountId,
    /// The creator's identifier for this tournament; fixed at creation.
    pub tournament_id: u64,
    pub state: TournamentState,
    /// The content commitment, set when the tournament starts.
    pub system_prompt_hash: [u8; 32],
    /// The fee growth factor, in tenths of a percent.
    pub fee_mul_pct_x10: u8,
    /// The kind of fee curve.
    pub tournament_fee_type: u8,
    pub winner_payout_pct: u8,
    pub royalty_payout_pct: u8,
    /// How many submissions were charged so far.
    pub submission_count: u64,
    /// The hash of the latest submission.
    pub last_solution_hash: [u8; 32],
}

impl Tournament {
    /// The two payout percentages leave a share of zero or more to the
    /// deployer.
    pub open spec fn percentages_valid(self) -> bool {
        self.winner_payout_pct + self.royalty_payout_pct <= 100
    }

    /// What every record that the operations produce satisfies.
    pub open spec fn wf(self) -> bool {
        self.percentages_valid()
    }

    /// Whether this is the record as it is allocated under the key given:
    /// `Created`, with no submission counted and every parameter zero.
    pub open spec fn is_fresh(self, authority: AccountId, tournament_id: u64) -> bool {
        &&& self.authority == authority
        &&& self.tournament_id == tournament_id
        &&& self.state == TournamentState::Created
        &&& forall|i: int| 0 <= i < 32 ==> self.system_prompt_hash[i] == 0u8
        &&& self.fee_mul_pct_x10 == 0
        &&& self.tournament_fee_type == 0
        &&& self.winner_payout_pct == 0
        &&& self.royalty_payout_pct == 0
        &&& self.submission_count == 0
        &&& forall|i: int| 0 <= i < 32 ==> self.last_solution_hash[i] == 0u8
    }

    /// Allocates the record of a tournament for its creator.
    pub fn new(authority: AccountId, tournament_id: u64) -> (t: Tournament)
        ensures
            t.is_fresh(authority, tournament_id),
            t.wf(),
    {
        Tournament {
            authority,
            tournament_id,
            state: TournamentState::Created,
            system_prompt_hash: [0u8; 32],
            fee_mul_pct_x10: 0,
            tournament_fee_type: 0,
            winner_payout_pct: 0,
            royalty_payout_pct: 0,
            submission_count: 0,
            last_solution_hash: [0u8; 32],
        }
    }
}

/// A tournament record together with the balance held by the account that
/// carries it. The pool is that balance less the minimum the account must
/// retain; no field records it.
#[derive(Clone, Copy, Debug, PartialEq, Eq)]
pub struct TournamentAccount {
    pub lamports: u64,
    pub data: Tournament,
}

/// The registry of the protocol authority.
#[derive(Clone, Copy, Debug, PartialEq, Eq)]
pub struct ProgramAdmin {
    pub authority: AccountId,
}

/// An account that pays: its identity and its balance.
#[derive(Clone, Copy, Debug, PartialEq, Eq)]
pub struct Wallet {
    pub key: AccountId,
    pub lamports: u64,
}

} // verus!
