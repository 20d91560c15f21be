//! How the records are addressed: the seeds from which the host derives the
//! place of the admin registry and of each tournament, and the derivation
//! itself, so that anyone can find a record without an index.

use anchor_lang::solana_program::pubkey::Pubkey;
use vstd::prelude::*;
use vstd::bytes::{lemma_auto_spec_u64_to_from_le_bytes, spec_u64_to_le_bytes, u64_to_le_bytes};
use crate::state::AccountId;

verus! {

/// The bytes of the word `admin`: the one seed of the admin registry.
pub open spec fn admin_word() -> Seq<u8> {
    seq![97u8, 100u8, 109u8, 105u8, 110u8]
}

/// The bytes of the word `tournament`: the first seed of every tournament.
pub open spec fn tournament_word() -> Seq<u8> {
    seq![116u8, 111u8, 117u8, 114u8, 110u8, 97u8, 109u8, 101u8, 110u8, 116u8]
}

/// The seeds of the admin registry.
pub open spec fn admin_seeds_spec() -> Seq<Seq<u8>> {
    seq![admin_word()]
}

/// The seeds of the tournament of a creator under an identifier: the word
/// `tournament`, the creator's identity, and the identifier in little-endian
/// bytes.
pub open spec fn tournament_seeds_spec(authority: AccountId, tournament_id: u64) -> Seq<Seq<u8>> {
    seq![tournament_word(), authority@, spec_u64_to_le_bytes(tournament_id)]
}

/// The seeds of a tournament laid end to end, which is what the derivation
/// reads of them.
pub open spec fn tournament_seed_bytes(authority: AccountId, tournament_id: u64) -> Seq<u8> {
    tournament_word() + authority@ + spec_u64_to_le_bytes(tournament_id)
}

/// The address, with its bump seed, that the host derives for a program
/// from a list of seeds; `None` where it derives none.
pub uninterp spec fn program_address(seeds: Seq<Seq<u8>>, program_id: Seq<u8>) -> Option<
    (Seq<u8>, u8),
>;

/// Two tournaments have the same seed bytes only if they have the same
/// creator and the same identifier: no two keys address one place.
pub proof fn lemma_tournament_seed_injective(a: AccountId, a_id: u64, b: AccountId, b_id: u64)
    requires
        tournament_seed_bytes(a, a_id) == tournament_seed_bytes(b, b_id),
    ensures
        a == b,
        a_id == b_id,
{
    lemma_auto_spec_u64_to_from_le_bytes();
    let sa = tournament_seed_bytes(a, a_id);
    let sb = tournament_seed_bytes(b, b_id);
    assert(a@.len() == 32 && b@.len() == 32);
    assert(sa.subrange(10, 42) =~= a@);
    assert(sb.subrange(10, 42) =~= b@);
    assert(a.bytes =~= b.bytes);
    assert(sa.subrange(42, 50) =~= spec_u64_to_le_bytes(a_id));
    assert(sb.subrange(42, 50) =~= spec_u64_to_le_bytes(b_id));
}

/// The seed bytes of a tournament are fifty, so they are never those of the
/// admin registry.
pub proof fn lemma_tournament_seed_is_not_admin_seed(authority: AccountId, tournament_id: u64)
    ensures
        tournament_seed_bytes(authority, tournament_id).len() == 50,
        tournament_seed_bytes(authority, tournament_id) != admin_word(),
{
    lemma_auto_spec_u64_to_from_le_bytes();
}

/// Calls `Pubkey::try_find_program_address` of `solana_program`, which
/// anchor_lang re-exports. The contract claims only that the outcome is
/// fixed by the seeds and the program's identity: it is the derived address
/// with its bump seed, or `None` where the search finds no address or the
/// seeds are too many or too long.
#[verifier::external_body]
fn find_program_address(seeds: &Vec<Vec<u8>>, program_id: &AccountId) -> (r: Option<
    (AccountId, u8),
>)
    ensures
        match r {
            Some((address, bump)) => program_address(seeds.deep_view(), program_id@) == Some(
                (address@, bump),
            ),
            None => program_address(seeds.deep_view(), program_id@) is None,
        },
{
    let parts: Vec<&[u8]> = seeds.iter().map(Vec::as_slice).collect();
    let program = Pubkey::new_from_array(program_id.bytes);
    match Pubkey::try_find_program_address(&parts, &program) {
        Some((address, bump)) => Some((AccountId { bytes: address.to_bytes() }, bump)),
        None => None,
    }
}

/// The seeds of the admin registry.
pub fn admin_seeds() -> (seeds: Vec<Vec<u8>>)
    ensures
        seeds.deep_view() == admin_seeds_spec(),
{
    let word: [u8; 5] = [97, 100, 109, 105, 110];
    let mut first: Vec<u8> = Vec::new();
    first.extend_from_slice(word.as_slice());
    let mut seeds: Vec<Vec<u8>> = Vec::new();
    seeds.push(first);
    proof {
        assert(seeds@[0].deep_view() =~= admin_word());
        assert(seeds.deep_view() =~= admin_seeds_spec());
    }
    seeds
}

/// The seeds of the tournament of `authority` under `tournament_id`.
pub fn tournament_seeds(authority: &AccountId, tournament_id: u64) -> (seeds: Vec<Vec<u8>>)
    ensures
        seeds.deep_view() == tournament_seeds_spec(*authority, tournament_id),
{
    let word: [u8; 10] = [116, 111, 117, 114, 110, 97, 109, 101, 110, 116];
    let mut first: Vec<u8> = Vec::new();
    first.extend_from_slice(word.as_slice());
    let mut second: Vec<u8> = Vec::new();
    second.extend_from_slice(authority.bytes.as_slice());
    let third = u64_to_le_bytes(tournament_id);
    let mut seeds: Vec<Vec<u8>> = Vec::new();
    seeds.push(first);
    seeds.push(second);
    seeds.push(third);
    proof {
        assert(seeds@[0].deep_view() =~= tournament_word());
        assert(seeds@[1].deep_view() =~= authority@);
        assert(seeds@[2].deep_view() =~= spec_u64_to_le_bytes(tournament_id));
        assert(seeds.deep_view() =~= tournament_seeds_spec(*authority, tournament_id));
    }
    seeds
}

/// The address of the admin registry of a program, with its bump seed.
pub fn admin_address(program_id: &AccountId) -> (r: Option<(AccountId, u8)>)
    ensures
        match r {
            Some((address, bump)) => program_address(admin_seeds_spec(), program_id@) == Some(
                (address@, bump),
            ),
            None => program_address(admin_seeds_spec(), program_id@) is None,
        },
{
    let seeds = admin_seeds();
    find_program_address(&seeds, program_id)
}

/// The address of the tournament of `authority` under `tournament_id` in a
/// program, with its bump seed. It depends on nothing but the three
/// arguments.
pub fn tournament_address(program_id: &AccountId, authority: &AccountId, tournament_id: u64) -> (r:
    Option<(AccountId, u8)>)
    ensures
        match r {
            Some((address, bump)) => program_address(
                tournament_seeds_spec(*authority, tournament_id),
                program_id@,
            ) == Some((address@, bump)),
            None => program_address(
                tournament_seeds_spec(*authority, tournament_id),
                program_id@,
            ) is None,
        },
{
    let seeds = tournament_seeds(authority, tournament_id);
    find_program_address(&seeds, program_id)
}

} // verus!
