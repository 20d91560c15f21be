use jailbreak_pool::consts::BASE_FEE;
use jailbreak_pool::errors::JailbreakError;
use jailbreak_pool::instructions::conclude::ConcludeTournament;
use jailbreak_pool::instructions::initialize::Initialize;
use jailbreak_pool::instructions::initialize_admin::InitializeAdmin;
use jailbreak_pool::instructions::start::StartTournament;
use jailbreak_pool::instructions::submit::SubmitSolution;
use jailbreak_pool::payout::Payout;
use jailbreak_pool::state::{
    AccountId, ProgramAdmin, Tournament, TournamentAccount, TournamentState, Wallet,
};
use jailbreak_pool::{
    conclude_tournament, initialize, initialize_admin, start_tournament, submit_solution,
};

fn id(n: u8) -> AccountId {
    AccountId::new([n; 32])
}

fn admin() -> ProgramAdmin {
    ProgramAdmin { authority: id(9) }
}

fn created(lamports: u64) -> TournamentAccount {
    TournamentAccount { lamports, data: Tournament::new(id(1), 42) }
}

fn running(lamports: u64, winner_pct: u8, royalty_pct: u8, kind: u8, mul: u8) -> TournamentAccount {
    let mut ctx = StartTournament {
        tournament: created(0),
        authority: Wallet { key: id(1), lamports },
    };
    assert_eq!(start_tournament(&mut ctx, [7; 32], lamports, mul, winner_pct, royalty_pct, kind), Ok(()));
    ctx.tournament
}

fn conclusion(tournament: TournamentAccount) -> ConcludeTournament {
    ConcludeTournament {
        tournament,
        program_admin: admin(),
        royalty_destination: id(9),
        authority: id(9),
        winner_account: id(5),
        tournament_authority: id(1),
    }
}

#[test]
fn identities_compare_byte_for_byte() {
    assert!(id(3).same(&id(3)));
    assert!(!id(3).same(&id(4)));
    let mut bytes = [3u8; 32];
    bytes[31] = 4;
    assert!(!id(3).same(&AccountId::new(bytes)));
    assert_eq!(AccountId::new(bytes).bytes, bytes);
}

#[test]
fn admin_registry_is_created_once() {
    let mut ctx = InitializeAdmin { program_admin: None, authority: id(9) };
    assert_eq!(initialize_admin(&mut ctx), Ok(()));
    assert_eq!(ctx.program_admin, Some(ProgramAdmin { authority: id(9) }));
    ctx.authority = id(8);
    let before = ctx;
    assert_eq!(initialize_admin(&mut ctx), Err(JailbreakError::InvalidAuthority));
    assert_eq!(ctx, before);
}

#[test]
fn create_allocates_a_created_record() {
    let mut ctx = Initialize { tournament: None, program_admin: admin(), authority: id(1) };
    assert_eq!(initialize(&mut ctx, 42), Ok(()));
    let account = ctx.tournament.unwrap();
    assert_eq!(account.lamports, 0);
    assert_eq!(account.data.state, TournamentState::Created);
    assert_eq!(account.data.authority, id(1));
    assert_eq!(account.data.tournament_id, 42);
    assert_eq!(account.data.submission_count, 0);
    assert_eq!(account.data.system_prompt_hash, [0u8; 32]);
    assert_eq!(account.data.last_solution_hash, [0u8; 32]);
    assert_eq!(account.data.winner_payout_pct, 0);
    assert_eq!(account.data.royalty_payout_pct, 0);
    assert_eq!(account.data.fee_mul_pct_x10, 0);
    assert_eq!(account.data.tournament_fee_type, 0);
    assert_eq!(ctx.program_admin, admin());
}

#[test]
fn create_refuses_a_duplicate() {
    let mut ctx = Initialize { tournament: None, program_admin: admin(), authority: id(1) };
    assert_eq!(initialize(&mut ctx, 42), Ok(()));
    let before = ctx;
    assert_eq!(initialize(&mut ctx, 42), Err(JailbreakError::DuplicateTournament));
    assert_eq!(ctx, before);
}

#[test]
fn start_sets_parameters_and_moves_the_seed_pool() {
    let mut ctx = StartTournament {
        tournament: created(890),
        authority: Wallet { key: id(1), lamports: 5000 },
    };
    assert_eq!(start_tournament(&mut ctx, [7; 32], 3000, 15, 60, 10, 2), Ok(()));
    assert_eq!(ctx.tournament.lamports, 3890);
    assert_eq!(ctx.authority.lamports, 2000);
    assert_eq!(ctx.authority.key, id(1));
    let data = ctx.tournament.data;
    assert_eq!(data.state, TournamentState::Running);
    assert_eq!(data.system_prompt_hash, [7; 32]);
    assert_eq!(data.fee_mul_pct_x10, 15);
    assert_eq!(data.tournament_fee_type, 2);
    assert_eq!(data.winner_payout_pct, 60);
    assert_eq!(data.royalty_payout_pct, 10);
    assert_eq!(data.submission_count, 0);
    assert_eq!(data.authority, id(1));
    assert_eq!(data.tournament_id, 42);
}

#[test]
fn start_refuses_percentages_above_one_hundred() {
    let mut ctx = StartTournament {
        tournament: created(0),
        authority: Wallet { key: id(1), lamports: 5000 },
    };
    let before = ctx;
    assert_eq!(
        start_tournament(&mut ctx, [7; 32], 3000, 15, 70, 40, 0),
        Err(JailbreakError::InvalidPercentages)
    );
    assert_eq!(ctx, before);
    assert_eq!(
        start_tournament(&mut ctx, [7; 32], 3000, 15, 200, 100, 0),
        Err(JailbreakError::InvalidPercentages)
    );
    assert_eq!(
        start_tournament(&mut ctx, [7; 32], 3000, 15, 0, 101, 0),
        Err(JailbreakError::InvalidPercentages)
    );
    assert_eq!(start_tournament(&mut ctx, [7; 32], 3000, 15, 60, 40, 0), Ok(()));
}

#[test]
fn start_refuses_another_caller() {
    let mut ctx = StartTournament {
        tournament: created(0),
        authority: Wallet { key: id(2), lamports: 5000 },
    };
    let before = ctx;
    assert_eq!(
        start_tournament(&mut ctx, [7; 32], 3000, 15, 70, 40, 0),
        Err(JailbreakError::InvalidAuthority)
    );
    assert_eq!(ctx, before);
}

#[test]
fn start_refuses_a_started_tournament() {
    let mut ctx = StartTournament {
        tournament: running(100, 60, 10, 0, 0),
        authority: Wallet { key: id(1), lamports: 5000 },
    };
    let before = ctx;
    assert_eq!(
        start_tournament(&mut ctx, [8; 32], 1, 1, 1, 1, 1),
        Err(JailbreakError::AlreadyStarted)
    );
    assert_eq!(ctx, before);
    let mut done = conclusion(running(100, 60, 10, 0, 0));
    assert!(conclude_tournament(&mut done, 0).is_ok());
    ctx.tournament = done.tournament;
    assert_eq!(
        start_tournament(&mut ctx, [8; 32], 1, 1, 1, 1, 1),
        Err(JailbreakError::AlreadyStarted)
    );
}

#[test]
fn start_refuses_a_caller_without_the_seed_pool() {
    let mut ctx = StartTournament {
        tournament: created(0),
        authority: Wallet { key: id(1), lamports: 2999 },
    };
    let before = ctx;
    assert_eq!(
        start_tournament(&mut ctx, [7; 32], 3000, 15, 60, 10, 0),
        Err(JailbreakError::InsufficientFunds)
    );
    assert_eq!(ctx, before);
}

#[test]
fn submit_charges_the_fee_and_counts() {
    let mut ctx = SubmitSolution {
        tournament: running(1000, 60, 10, 1, 10),
        submitter: Wallet { key: id(3), lamports: 50_000_000 },
    };
    assert_eq!(submit_solution(&mut ctx, [1; 32]), Ok(()));
    assert_eq!(ctx.tournament.data.submission_count, 1);
    assert_eq!(ctx.tournament.lamports, 1000 + 10_000_000);
    assert_eq!(ctx.submitter.lamports, 40_000_000);
    assert_eq!(ctx.tournament.data.last_solution_hash, [1; 32]);
    assert_eq!(ctx.tournament.data.system_prompt_hash, [7; 32]);
    assert_eq!(submit_solution(&mut ctx, [2; 32]), Ok(()));
    assert_eq!(ctx.tournament.data.submission_count, 2);
    assert_eq!(ctx.tournament.lamports, 1000 + 10_000_000 + 10_100_000);
    assert_eq!(ctx.submitter.lamports, 29_900_000);
    assert_eq!(ctx.tournament.data.last_solution_hash, [2; 32]);
    assert_eq!(ctx.tournament.data.state, TournamentState::Running);
}

#[test]
fn submit_refuses_a_submitter_without_the_fee() {
    let mut ctx = SubmitSolution {
        tournament: running(1000, 60, 10, 0, 0),
        submitter: Wallet { key: id(3), lamports: BASE_FEE - 1 },
    };
    let before = ctx;
    assert_eq!(submit_solution(&mut ctx, [1; 32]), Err(JailbreakError::InsufficientFunds));
    assert_eq!(ctx, before);
    ctx.submitter.lamports = BASE_FEE;
    assert_eq!(submit_solution(&mut ctx, [1; 32]), Ok(()));
    assert_eq!(ctx.submitter.lamports, 0);
}

#[test]
fn submit_refuses_outside_running() {
    let mut ctx = SubmitSolution {
        tournament: created(1000),
        submitter: Wallet { key: id(3), lamports: 50_000_000 },
    };
    let before = ctx;
    assert_eq!(submit_solution(&mut ctx, [1; 32]), Err(JailbreakError::TournamentNotRunning));
    assert_eq!(ctx, before);
    let mut done = conclusion(running(100, 60, 10, 0, 0));
    assert!(conclude_tournament(&mut done, 0).is_ok());
    ctx.tournament = done.tournament;
    assert_eq!(submit_solution(&mut ctx, [1; 32]), Err(JailbreakError::TournamentNotRunning));
}

#[test]
fn conclude_sixty_ten() {
    let mut ctx = conclusion(running(1890, 60, 10, 0, 0));
    let r = conclude_tournament(&mut ctx, 890);
    assert_eq!(r, Ok(Payout { winner_amount: 600, royalty_amount: 100, deployer_amount: 300 }));
    assert_eq!(ctx.tournament.lamports, 890);
    assert_eq!(ctx.tournament.data.state, TournamentState::Concluded);
    assert_eq!(ctx.tournament.data.winner_payout_pct, 60);
    assert_eq!(ctx.tournament.data.system_prompt_hash, [7; 32]);
}

#[test]
fn conclude_remainder_goes_to_deployer() {
    let mut ctx = conclusion(running(7, 33, 33, 0, 0));
    let r = conclude_tournament(&mut ctx, 0);
    assert_eq!(r, Ok(Payout { winner_amount: 2, royalty_amount: 2, deployer_amount: 3 }));
    assert_eq!(ctx.tournament.lamports, 0);
}

#[test]
fn conclude_is_not_repeatable() {
    let mut ctx = conclusion(running(1890, 60, 10, 0, 0));
    assert!(conclude_tournament(&mut ctx, 890).is_ok());
    let before = ctx;
    assert_eq!(conclude_tournament(&mut ctx, 890), Err(JailbreakError::TournamentNotRunning));
    assert_eq!(ctx, before);
    assert_eq!(conclude_tournament(&mut ctx, 0), Err(JailbreakError::TournamentNotRunning));
}

#[test]
fn conclude_refuses_a_created_tournament() {
    let mut ctx = conclusion(created(5000));
    let before = ctx;
    assert_eq!(conclude_tournament(&mut ctx, 890), Err(JailbreakError::TournamentNotRunning));
    assert_eq!(ctx, before);
}

#[test]
fn conclude_underfunded() {
    let mut ctx = conclusion(running(889, 60, 10, 0, 0));
    let before = ctx;
    assert_eq!(conclude_tournament(&mut ctx, 890), Err(JailbreakError::Underfunded));
    assert_eq!(ctx, before);
    assert_eq!(conclude_tournament(&mut ctx, u64::MAX), Err(JailbreakError::Underfunded));
    assert_eq!(
        conclude_tournament(&mut ctx, 889),
        Ok(Payout { winner_amount: 0, royalty_amount: 0, deployer_amount: 0 })
    );
}

#[test]
fn conclude_refuses_the_tournament_authority_as_caller() {
    let mut ctx = conclusion(running(1890, 60, 10, 0, 0));
    ctx.authority = id(1);
    let before = ctx;
    assert_eq!(conclude_tournament(&mut ctx, 890), Err(JailbreakError::InvalidAuthority));
    assert_eq!(ctx, before);
}

#[test]
fn conclude_refuses_unbound_destinations() {
    let mut ctx = conclusion(running(1890, 60, 10, 0, 0));
    ctx.royalty_destination = id(5);
    assert_eq!(conclude_tournament(&mut ctx, 890), Err(JailbreakError::InvalidAuthority));
    let mut ctx = conclusion(running(1890, 60, 10, 0, 0));
    ctx.tournament_authority = id(9);
    assert_eq!(conclude_tournament(&mut ctx, 890), Err(JailbreakError::InvalidAuthority));
}

#[test]
fn conclude_checks_identities_before_the_state() {
    let mut ctx = conclusion(created(5000));
    ctx.authority = id(1);
    assert_eq!(conclude_tournament(&mut ctx, 890), Err(JailbreakError::InvalidAuthority));
}

#[test]
fn handlers_and_operations_agree() {
    let mut a = conclusion(running(1890, 60, 10, 0, 0));
    let mut b = a;
    let ra = conclude_tournament(&mut a, 890);
    let rb = jailbreak_pool::instructions::conclude::handler(&mut b, 890);
    assert_eq!(ra, rb);
    assert_eq!(a, b);
    let mut c = InitializeAdmin { program_admin: None, authority: id(9) };
    assert_eq!(jailbreak_pool::instructions::initialize_admin::handler(&mut c), Ok(()));
    let mut d = Initialize { tournament: None, program_admin: admin(), authority: id(1) };
    assert_eq!(jailbreak_pool::instructions::initialize::handler(&mut d, 1), Ok(()));
    assert_eq!(d.tournament.unwrap().data.tournament_id, 1);
}

fn rank(s: TournamentState) -> u8 {
    match s {
        TournamentState::Created => 0,
        TournamentState::Running => 1,
        TournamentState::Concluded => 2,
    }
}

#[test]
fn state_only_moves_forward() {
    let mut seed: u64 = 0x9e37_79b9_7f4a_7c15;
    let mut round = 0;
    while round < 200 {
        let mut account = created(0);
        let mut step = 0;
        while step < 30 {
            seed = seed.wrapping_mul(6364136223846793005).wrapping_add(1442695040888963407);
            let choice = (seed >> 33) % 3;
            let before = account;
            if choice == 0 {
                let mut ctx = StartTournament {
                    tournament: account,
                    authority: Wallet { key: id(1), lamports: 1_000 },
                };
                let w = ((seed >> 40) % 120) as u8;
                let r = ((seed >> 48) % 60) as u8;
                let res = start_tournament(&mut ctx, [7; 32], 500, 10, w, r, (seed >> 56) as u8 % 4);
                if res.is_ok() {
                    assert_eq!(before.data.state, TournamentState::Created);
                    assert!(w as u16 + r as u16 <= 100);
                }
                account = ctx.tournament;
            } else if choice == 1 {
                let mut ctx = SubmitSolution {
                    tournament: account,
                    submitter: Wallet { key: id(3), lamports: 1_000_000_000_000 },
                };
                let res = submit_solution(&mut ctx, [step as u8; 32]);
                if res.is_ok() {
                    assert_eq!(before.data.state, TournamentState::Running);
                    assert_eq!(ctx.tournament.data.submission_count, before.data.submission_count + 1);
                } else {
                    assert_ne!(before.data.state, TournamentState::Running);
                }
                assert!(ctx.tournament.lamports >= before.lamports);
                account = ctx.tournament;
            } else {
                let mut ctx = conclusion(account);
                let res = conclude_tournament(&mut ctx, 100);
                if let Ok(p) = res {
                    assert_eq!(before.data.state, TournamentState::Running);
                    assert_eq!(
                        p.winner_amount + p.royalty_amount + p.deployer_amount,
                        before.lamports - 100
                    );
                }
                account = ctx.tournament;
            }
            assert!(rank(account.data.state) >= rank(before.data.state));
            assert!(rank(account.data.state) - rank(before.data.state) <= 1);
            assert!(account.data.submission_count >= before.data.submission_count);
            assert_eq!(account.data.authority, before.data.authority);
            assert_eq!(account.data.tournament_id, before.data.tournament_id);
            step += 1;
        }
        round += 1;
    }
}
