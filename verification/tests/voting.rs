use voting_core::coordinator::cast_vote;
use voting_core::coordinator::mint_voting_pass;
use voting_core::errors::VotingError;
use voting_core::ledger::TokenLedger;
use voting_core::registry::initialize_poll;
use voting_core::registry::initialize_voter_state;
use voting_core::registry::start_poll;
use voting_core::states::Poll;
use voting_core::states::VoterState;
use voting_core::system::VotingSystem;

const ADMIN: u64 = 10;
const VOTER_A: u64 = 20;
const VOTER_B: u64 = 21;
const MINT_T: u64 = 7;

fn fresh_poll(question: &str, start_ts: i64, end_ts: i64) -> Poll {
    initialize_poll(ADMIN, 1, String::from(question), start_ts, end_ts, MINT_T).unwrap()
}

#[test]
fn end_to_end_scenario() {
    let mut sys = VotingSystem::new();
    assert_eq!(sys.initialize(ADMIN, 1, String::from("Q?"), 100, 200, MINT_T), Ok(()));
    assert_eq!(sys.start(ADMIN, 1, 150), Ok(()));
    assert!(sys.get_poll(1).unwrap().is_active);
    assert_eq!(sys.mint_pass(ADMIN, 1, VOTER_A), Ok(()));
    assert_eq!(sys.balance_of(MINT_T, VOTER_A), 1);
    assert_eq!(sys.add_voter(VOTER_A, 1), Ok(()));
    assert!(!sys.get_voter_state(1, VOTER_A).unwrap().has_voted);

    assert_eq!(sys.vote(VOTER_A, 1, 160, true), Ok(()));
    let p = sys.get_poll(1).unwrap();
    assert_eq!(p.total_yes, 1);
    assert_eq!(p.total_no, 0);
    assert_eq!(sys.balance_of(MINT_T, VOTER_A), 0);
    assert!(sys.get_voter_state(1, VOTER_A).unwrap().has_voted);

    assert_eq!(sys.vote(VOTER_A, 1, 170, false), Err(VotingError::AlreadyVoted));
    let p = sys.get_poll(1).unwrap();
    assert_eq!(p.total_yes, 1);
    assert_eq!(p.total_no, 0);
}

#[test]
fn boundary_scenario_equal_window() {
    let mut sys = VotingSystem::new();
    assert_eq!(
        sys.initialize(ADMIN, 1, String::from("Q?"), 100, 100, MINT_T),
        Err(VotingError::InvalidConfiguration)
    );
    assert!(!sys.contains_poll(1));
}

#[test]
fn creation_rejects_long_question() {
    let mut sys = VotingSystem::new();
    let long = "x".repeat(201);
    assert_eq!(
        sys.initialize(ADMIN, 1, long, 100, 200, MINT_T),
        Err(VotingError::InvalidConfiguration)
    );
    let edge = "x".repeat(200);
    assert_eq!(sys.initialize(ADMIN, 1, edge, 100, 200, MINT_T), Ok(()));
}

#[test]
fn creation_rejects_duplicate_poll() {
    let mut sys = VotingSystem::new();
    assert_eq!(sys.initialize(ADMIN, 1, String::from("Q?"), 100, 200, MINT_T), Ok(()));
    assert_eq!(
        sys.initialize(ADMIN, 1, String::from("other"), 300, 400, MINT_T),
        Err(VotingError::DuplicatePoll)
    );
    let p = sys.get_poll(1).unwrap();
    assert_eq!(p.start_ts, 100);
    assert_eq!(p.end_ts, 200);
}

#[test]
fn fresh_poll_is_inactive_with_zero_tallies() {
    let p = fresh_poll("Q?", 100, 200);
    assert_eq!(p.admin, ADMIN);
    assert_eq!(p.poll_id, 1);
    assert_eq!(p.question, "Q?");
    assert!(!p.is_active);
    assert_eq!(p.voting_mint, MINT_T);
    assert_eq!(p.total_yes, 0);
    assert_eq!(p.total_no, 0);
}

#[test]
fn start_window_enforcement() {
    let mut sys = VotingSystem::new();
    sys.initialize(ADMIN, 1, String::from("Q?"), 100, 200, MINT_T).unwrap();
    assert_eq!(sys.start(ADMIN, 1, 99), Err(VotingError::NotInTimeWindow));
    assert_eq!(sys.start(ADMIN, 1, 200), Err(VotingError::NotInTimeWindow));
    assert_eq!(sys.start(ADMIN, 1, 201), Err(VotingError::NotInTimeWindow));
    assert!(!sys.get_poll(1).unwrap().is_active);
    assert_eq!(sys.start(ADMIN, 1, 100), Ok(()));
}

#[test]
fn start_twice_fails() {
    let mut sys = VotingSystem::new();
    sys.initialize(ADMIN, 1, String::from("Q?"), 100, 200, MINT_T).unwrap();
    assert_eq!(sys.start(ADMIN, 1, 150), Ok(()));
    assert_eq!(sys.start(ADMIN, 1, 151), Err(VotingError::AlreadyActive));
}

#[test]
fn authorization_enforcement() {
    let mut sys = VotingSystem::new();
    sys.initialize(ADMIN, 1, String::from("Q?"), 100, 200, MINT_T).unwrap();
    assert_eq!(sys.start(VOTER_A, 1, 150), Err(VotingError::Unauthorized));
    assert!(!sys.get_poll(1).unwrap().is_active);
    assert_eq!(sys.mint_pass(VOTER_A, 1, VOTER_A), Err(VotingError::Unauthorized));
    assert_eq!(sys.balance_of(MINT_T, VOTER_A), 0);
}

#[test]
fn vote_requires_active_poll() {
    let mut sys = VotingSystem::new();
    sys.initialize(ADMIN, 1, String::from("Q?"), 100, 200, MINT_T).unwrap();
    sys.mint_pass(ADMIN, 1, VOTER_A).unwrap();
    sys.add_voter(VOTER_A, 1).unwrap();
    assert_eq!(sys.vote(VOTER_A, 1, 150, true), Err(VotingError::NotActive));
    assert_eq!(sys.get_poll(1).unwrap().total_yes, 0);
}

#[test]
fn vote_window_enforcement() {
    let mut sys = VotingSystem::new();
    sys.initialize(ADMIN, 1, String::from("Q?"), 100, 200, MINT_T).unwrap();
    sys.start(ADMIN, 1, 150).unwrap();
    sys.mint_pass(ADMIN, 1, VOTER_A).unwrap();
    sys.add_voter(VOTER_A, 1).unwrap();
    assert_eq!(sys.vote(VOTER_A, 1, 99, true), Err(VotingError::NotInTimeWindow));
    assert_eq!(sys.vote(VOTER_A, 1, 201, true), Err(VotingError::NotInTimeWindow));
    assert_eq!(sys.balance_of(MINT_T, VOTER_A), 1);
    // the window is inclusive at both ends
    assert_eq!(sys.vote(VOTER_A, 1, 200, true), Ok(()));
}

#[test]
fn vote_without_pass_fails() {
    let mut sys = VotingSystem::new();
    sys.initialize(ADMIN, 1, String::from("Q?"), 100, 200, MINT_T).unwrap();
    sys.start(ADMIN, 1, 150).unwrap();
    sys.add_voter(VOTER_A, 1).unwrap();
    assert_eq!(sys.vote(VOTER_A, 1, 150, true), Err(VotingError::NoPass));
    assert!(!sys.get_voter_state(1, VOTER_A).unwrap().has_voted);
}

#[test]
fn duplicate_registration_fails() {
    let mut sys = VotingSystem::new();
    sys.initialize(ADMIN, 1, String::from("Q?"), 100, 200, MINT_T).unwrap();
    assert_eq!(sys.add_voter(VOTER_A, 1), Ok(()));
    assert_eq!(sys.add_voter(VOTER_A, 1), Err(VotingError::DuplicateRegistration));
    assert_eq!(sys.add_voter(VOTER_B, 1), Ok(()));
}

#[test]
fn no_double_voting_totals() {
    let mut sys = VotingSystem::new();
    sys.initialize(ADMIN, 1, String::from("Q?"), 100, 200, MINT_T).unwrap();
    sys.start(ADMIN, 1, 150).unwrap();
    sys.mint_pass(ADMIN, 1, VOTER_A).unwrap();
    sys.mint_pass(ADMIN, 1, VOTER_A).unwrap();
    sys.add_voter(VOTER_A, 1).unwrap();
    assert_eq!(sys.balance_of(MINT_T, VOTER_A), 2);

    let first = sys.vote(VOTER_A, 1, 150, true);
    let second = sys.vote(VOTER_A, 1, 151, true);
    assert_eq!(first, Ok(()));
    assert_eq!(second, Err(VotingError::AlreadyVoted));
    let p = sys.get_poll(1).unwrap();
    assert_eq!(p.total_yes + p.total_no, 1);
    // the losing attempt consumed no pass either
    assert_eq!(sys.balance_of(MINT_T, VOTER_A), 1);
}

#[test]
fn passes_are_poll_specific() {
    let mut sys = VotingSystem::new();
    sys.initialize(ADMIN, 1, String::from("Q?"), 100, 200, 7).unwrap();
    sys.initialize(ADMIN, 2, String::from("R?"), 100, 200, 8).unwrap();
    sys.start(ADMIN, 2, 150).unwrap();
    // a pass for poll 1's class gives no vote on poll 2
    sys.mint_pass(ADMIN, 1, VOTER_A).unwrap();
    sys.add_voter(VOTER_A, 2).unwrap();
    assert_eq!(sys.vote(VOTER_A, 2, 150, true), Err(VotingError::NoPass));
}

#[test]
fn cast_vote_rejects_foreign_voter_state() {
    let mut poll = fresh_poll("Q?", 100, 200);
    poll.is_active = true;
    let mut vs = initialize_voter_state(1, VOTER_B);
    let mut ledger = TokenLedger::new();
    ledger.mint_one(MINT_T, VOTER_A).unwrap();
    assert_eq!(
        cast_vote(&mut poll, &mut vs, &mut ledger, VOTER_A, 150, true),
        Err(VotingError::Unauthorized)
    );
    assert_eq!(poll.total_yes, 0);
    assert_eq!(ledger.balance_of(MINT_T, VOTER_A), 1);
}

#[test]
fn overflow_safety_on_tally() {
    let mut poll = fresh_poll("Q?", 100, 200);
    poll.is_active = true;
    poll.total_yes = u64::MAX;
    let mut vs = initialize_voter_state(1, VOTER_A);
    let mut ledger = TokenLedger::new();
    ledger.mint_one(MINT_T, VOTER_A).unwrap();
    assert_eq!(
        cast_vote(&mut poll, &mut vs, &mut ledger, VOTER_A, 150, true),
        Err(VotingError::ArithmeticOverflow)
    );
    // the tally, the flag and the balance are all left unchanged
    assert_eq!(poll.total_yes, u64::MAX);
    assert!(!vs.has_voted);
    assert_eq!(ledger.balance_of(MINT_T, VOTER_A), 1);
    // the other tally still works
    assert_eq!(cast_vote(&mut poll, &mut vs, &mut ledger, VOTER_A, 150, false), Ok(()));
    assert_eq!(poll.total_no, 1);
}

#[test]
fn start_poll_record_level() {
    let mut poll = fresh_poll("Q?", 100, 200);
    assert_eq!(start_poll(&mut poll, VOTER_A, 150), Err(VotingError::Unauthorized));
    assert_eq!(start_poll(&mut poll, ADMIN, 99), Err(VotingError::NotInTimeWindow));
    assert_eq!(start_poll(&mut poll, ADMIN, 150), Ok(()));
    assert!(poll.is_active);
    assert_eq!(start_poll(&mut poll, ADMIN, 150), Err(VotingError::AlreadyActive));
}

#[test]
fn mint_voting_pass_record_level() {
    let poll = fresh_poll("Q?", 100, 200);
    let mut ledger = TokenLedger::new();
    assert_eq!(mint_voting_pass(&poll, &mut ledger, VOTER_A, VOTER_B), Err(VotingError::Unauthorized));
    assert_eq!(ledger.balance_of(MINT_T, VOTER_B), 0);
    assert_eq!(mint_voting_pass(&poll, &mut ledger, ADMIN, VOTER_B), Ok(()));
    assert_eq!(ledger.balance_of(MINT_T, VOTER_B), 1);
}

#[test]
fn initialize_voter_state_fields() {
    let vs = initialize_voter_state(5, VOTER_A);
    assert_eq!(vs, VoterState { poll: 5, voter: VOTER_A, has_voted: false });
}

#[test]
fn ledger_mint_and_burn() {
    let mut ledger = TokenLedger::new();
    assert_eq!(ledger.balance_of(MINT_T, VOTER_A), 0);
    assert_eq!(ledger.burn_one(MINT_T, VOTER_A), Err(VotingError::NoPass));
    assert_eq!(ledger.mint_one(MINT_T, VOTER_A), Ok(()));
    assert_eq!(ledger.mint_one(MINT_T, VOTER_A), Ok(()));
    assert_eq!(ledger.mint_one(MINT_T, VOTER_B), Ok(()));
    assert_eq!(ledger.balance_of(MINT_T, VOTER_A), 2);
    assert_eq!(ledger.balance_of(MINT_T, VOTER_B), 1);
    assert_eq!(ledger.burn_one(MINT_T, VOTER_A), Ok(()));
    assert_eq!(ledger.balance_of(MINT_T, VOTER_A), 1);
    assert_eq!(ledger.balance_of(MINT_T, VOTER_B), 1);
    assert_eq!(ledger.burn_one(9, VOTER_A), Err(VotingError::NoPass));
}

#[test]
fn mint_overflow_at_max_balance() {
    let mut ledger = TokenLedger {
        entries: vec![voting_core::ledger::LedgerEntry {
            token_class: MINT_T,
            holder: VOTER_A,
            amount: u64::MAX,
        }],
    };
    let poll = fresh_poll("Q?", 100, 200);
    assert_eq!(
        mint_voting_pass(&poll, &mut ledger, ADMIN, VOTER_A),
        Err(VotingError::ArithmeticOverflow)
    );
    assert_eq!(ledger.balance_of(MINT_T, VOTER_A), u64::MAX);
}
