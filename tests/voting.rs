use std::str::FromStr;

use anchor_lang::solana_program::pubkey::Pubkey;
use voting::{
    candidate_address, initialize_candidate, initialize_candidate_at, initialize_poll,
    poll_address, same_address, validate_poll, vote, Candidate, ErrorCode, InitializeCandidate,
    InitializePoll, Ledger, Poll, Record, Vote,
};

const NOW: u64 = 1_700_000_000;
const START: u64 = 2_000_000_000;
const END: u64 = 2_000_100_000;

fn program_id() -> [u8; 32] {
    Pubkey::from_str("F69hmYgN88iUHSmcjF74sJtB4UCDjMyq9ZsExJj1swSp")
        .unwrap()
        .to_bytes()
}

fn ledger() -> Ledger {
    Ledger::new(program_id())
}

fn votes_of(ledger: &Ledger, name: &str, poll_id: u64) -> u64 {
    let accounts = Vote::accounts(&program_id(), name, poll_id).unwrap();
    match ledger.get(&accounts.candidate) {
        Some(Record::Candidate(c)) => {
            assert_eq!(c.candidate_name, name);
            c.candidate_votes
        }
        other => panic!("no candidate at the derived address: {:?}", other),
    }
}

fn poll_of(ledger: &Ledger, poll_id: u64) -> Poll {
    let accounts = InitializePoll::accounts(&program_id(), poll_id).unwrap();
    match ledger.get(&accounts.poll) {
        Some(Record::Poll(p)) => p.clone(),
        other => panic!("no poll at the derived address: {:?}", other),
    }
}

#[test]
fn scenario_best_language() {
    let mut l = ledger();
    assert_eq!(
        initialize_poll(&mut l, NOW, 1, "Best language".to_string(), START, END),
        Ok(())
    );
    assert_eq!(initialize_candidate(&mut l, "Rust".to_string(), 1), Ok(()));
    assert_eq!(votes_of(&l, "Rust", 1), 0);
    assert_eq!(vote(&mut l, "Rust".to_string(), 1), Ok(1));
    assert_eq!(vote(&mut l, "Rust".to_string(), 1), Ok(2));
    assert_eq!(vote(&mut l, "Rust".to_string(), 1), Ok(3));
    assert_eq!(votes_of(&l, "Rust", 1), 3);
    assert_eq!(l.len(), 2);
}

#[test]
fn valid_poll_is_stored_verbatim() {
    let mut l = ledger();
    assert_eq!(
        initialize_poll(&mut l, NOW, 42, "Lunch".to_string(), START, END),
        Ok(())
    );
    assert_eq!(
        poll_of(&l, 42),
        Poll {
            poll_id: 42,
            description: "Lunch".to_string(),
            poll_start: START,
            poll_end: END,
            candidate_amount: 0,
        }
    );
}

#[test]
fn bounds_of_the_timestamp_range_are_accepted() {
    let mut l = ledger();
    assert_eq!(
        initialize_poll(&mut l, 999_999_999, 7, String::new(), 1_000_000_000, 4_000_000_000),
        Ok(())
    );
    assert_eq!(poll_of(&l, 7).poll_start, 1_000_000_000);
    assert_eq!(poll_of(&l, 7).poll_end, 4_000_000_000);
}

#[test]
fn start_not_in_the_future_is_refused() {
    let mut l = ledger();
    assert_eq!(
        initialize_poll(&mut l, START, 1, "d".to_string(), START, END),
        Err(ErrorCode::InvalidPollStart)
    );
    assert_eq!(
        initialize_poll(&mut l, START + 1, 1, "d".to_string(), START, END),
        Err(ErrorCode::InvalidPollStart)
    );
    // the start check comes before the end check
    assert_eq!(
        initialize_poll(&mut l, END, 1, "d".to_string(), START, START),
        Err(ErrorCode::InvalidPollStart)
    );
    assert_eq!(l.len(), 0);
}

#[test]
fn end_not_after_start_is_refused() {
    let mut l = ledger();
    assert_eq!(
        initialize_poll(&mut l, NOW, 1, "d".to_string(), START, START),
        Err(ErrorCode::InvalidPollEnd)
    );
    assert_eq!(
        initialize_poll(&mut l, NOW, 1, "d".to_string(), START, START - 1),
        Err(ErrorCode::InvalidPollEnd)
    );
    assert_eq!(l.len(), 0);
}

#[test]
fn timestamps_out_of_range_are_refused() {
    let mut l = ledger();
    assert_eq!(
        initialize_poll(&mut l, 0, 1, "d".to_string(), 999_999_999, END),
        Err(ErrorCode::InvalidUnixTimestamp)
    );
    assert_eq!(
        initialize_poll(&mut l, NOW, 1, "d".to_string(), START, 4_000_000_001),
        Err(ErrorCode::InvalidUnixTimestamp)
    );
    assert_eq!(
        initialize_poll(&mut l, 5, 1, "d".to_string(), 10, 20),
        Err(ErrorCode::InvalidUnixTimestamp)
    );
    assert_eq!(l.len(), 0);
}

#[test]
fn description_bound_counts_bytes() {
    let mut l = ledger();
    assert_eq!(
        initialize_poll(&mut l, NOW, 1, "a".repeat(200), START, END),
        Ok(())
    );
    assert_eq!(
        initialize_poll(&mut l, NOW, 2, "a".repeat(201), START, END),
        Err(ErrorCode::DescriptionTooLong)
    );
    assert_eq!(
        initialize_poll(&mut l, NOW, 3, "é".repeat(100), START, END),
        Ok(())
    );
    assert_eq!(
        initialize_poll(&mut l, NOW, 4, "é".repeat(101), START, END),
        Err(ErrorCode::DescriptionTooLong)
    );
    assert_eq!(l.len(), 2);
}

#[test]
fn validate_poll_checks_in_order() {
    assert_eq!(validate_poll(NOW, "x", START, END), Ok(()));
    assert_eq!(validate_poll(NOW, "x", NOW, 1), Err(ErrorCode::InvalidPollStart));
    assert_eq!(validate_poll(NOW, "x", START, NOW), Err(ErrorCode::InvalidPollEnd));
    assert_eq!(
        validate_poll(NOW, "x", START, 4_100_000_000),
        Err(ErrorCode::InvalidUnixTimestamp)
    );
    assert_eq!(
        validate_poll(NOW, &"x".repeat(300), START, END),
        Err(ErrorCode::DescriptionTooLong)
    );
}

#[test]
fn second_poll_with_same_id_is_refused() {
    let mut l = ledger();
    assert_eq!(
        initialize_poll(&mut l, NOW, 9, "first".to_string(), START, END),
        Ok(())
    );
    assert_eq!(
        initialize_poll(&mut l, NOW, 9, "second".to_string(), START + 5, END + 5),
        Err(ErrorCode::AccountAlreadyExists)
    );
    let p = poll_of(&l, 9);
    assert_eq!(p.description, "first");
    assert_eq!(p.poll_start, START);
    assert_eq!(p.poll_end, END);
    assert_eq!(l.len(), 1);
}

#[test]
fn candidate_without_poll_is_refused() {
    let mut l = ledger();
    assert_eq!(
        initialize_candidate(&mut l, "Rust".to_string(), 1),
        Err(ErrorCode::AccountNotFound)
    );
    assert_eq!(l.len(), 0);
}

#[test]
fn candidate_of_another_poll_is_refused() {
    let mut l = ledger();
    initialize_poll(&mut l, NOW, 1, "one".to_string(), START, END).unwrap();
    assert_eq!(
        initialize_candidate(&mut l, "Rust".to_string(), 2),
        Err(ErrorCode::AccountNotFound)
    );
}

#[test]
fn duplicate_candidate_is_refused() {
    let mut l = ledger();
    initialize_poll(&mut l, NOW, 1, "one".to_string(), START, END).unwrap();
    assert_eq!(initialize_candidate(&mut l, "Rust".to_string(), 1), Ok(()));
    vote(&mut l, "Rust".to_string(), 1).unwrap();
    assert_eq!(
        initialize_candidate(&mut l, "Rust".to_string(), 1),
        Err(ErrorCode::AccountAlreadyExists)
    );
    assert_eq!(votes_of(&l, "Rust", 1), 1);
}

#[test]
fn candidate_name_bound_counts_bytes() {
    let mut l = ledger();
    initialize_poll(&mut l, NOW, 1, "one".to_string(), START, END).unwrap();
    assert_eq!(initialize_candidate(&mut l, "n".repeat(32), 1), Ok(()));
    assert_eq!(
        initialize_candidate(&mut l, "n".repeat(33), 1),
        Err(ErrorCode::CandidateNameTooLong)
    );
    assert_eq!(
        initialize_candidate(&mut l, "ü".repeat(17), 1),
        Err(ErrorCode::CandidateNameTooLong)
    );
    assert_eq!(
        vote(&mut l, "n".repeat(33), 1),
        Err(ErrorCode::CandidateNameTooLong)
    );
}

#[test]
fn same_name_under_two_polls_are_two_candidates() {
    let mut l = ledger();
    initialize_poll(&mut l, NOW, 1, "one".to_string(), START, END).unwrap();
    initialize_poll(&mut l, NOW, 2, "two".to_string(), START, END).unwrap();
    initialize_candidate(&mut l, "Rust".to_string(), 1).unwrap();
    initialize_candidate(&mut l, "Rust".to_string(), 2).unwrap();
    vote(&mut l, "Rust".to_string(), 2).unwrap();
    assert_eq!(votes_of(&l, "Rust", 1), 0);
    assert_eq!(votes_of(&l, "Rust", 2), 1);
}

#[test]
fn interleaved_votes_are_counted_per_candidate() {
    let mut l = ledger();
    initialize_poll(&mut l, NOW, 1, "one".to_string(), START, END).unwrap();
    initialize_candidate(&mut l, "Rust".to_string(), 1).unwrap();
    initialize_candidate(&mut l, "Go".to_string(), 1).unwrap();
    let order = ["Rust", "Go", "Go", "Rust", "Zig", "Rust", "Go", "Rust"];
    for name in order {
        let r = vote(&mut l, name.to_string(), 1);
        if name == "Zig" {
            assert_eq!(r, Err(ErrorCode::AccountNotFound));
        } else {
            assert!(r.is_ok());
        }
    }
    assert_eq!(votes_of(&l, "Rust", 1), 4);
    assert_eq!(votes_of(&l, "Go", 1), 3);
}

#[test]
fn vote_without_candidate_or_poll_is_refused() {
    let mut l = ledger();
    assert_eq!(
        vote(&mut l, "Rust".to_string(), 1),
        Err(ErrorCode::AccountNotFound)
    );
    initialize_poll(&mut l, NOW, 1, "one".to_string(), START, END).unwrap();
    assert_eq!(
        vote(&mut l, "Rust".to_string(), 1),
        Err(ErrorCode::AccountNotFound)
    );
    assert_eq!(l.len(), 1);
}

#[test]
fn vote_ignores_the_poll_window() {
    let mut l = ledger();
    initialize_poll(&mut l, NOW, 1, "one".to_string(), START, END).unwrap();
    initialize_candidate(&mut l, "Rust".to_string(), 1).unwrap();
    assert_eq!(vote(&mut l, "Rust".to_string(), 1), Ok(1));
}

#[test]
fn tally_at_its_largest_value_is_refused() {
    let mut l = ledger();
    initialize_poll(&mut l, NOW, 1, "one".to_string(), START, END).unwrap();
    let accounts = Vote::accounts(&program_id(), "Max", 1).unwrap();
    let full = Candidate {
        candidate_name: "Max".to_string(),
        candidate_votes: u64::MAX,
    };
    assert_eq!(l.allocate(accounts.candidate, Record::Candidate(full)), Ok(()));
    assert_eq!(
        vote(&mut l, "Max".to_string(), 1),
        Err(ErrorCode::VoteCountOverflow)
    );
    assert_eq!(votes_of(&l, "Max", 1), u64::MAX);
}

#[test]
fn record_of_the_wrong_kind_is_refused() {
    let mut l = ledger();
    initialize_poll(&mut l, NOW, 1, "one".to_string(), START, END).unwrap();
    initialize_candidate(&mut l, "Rust".to_string(), 1).unwrap();
    let real = InitializeCandidate::accounts(&program_id(), "Rust", 1).unwrap();
    let other = InitializeCandidate::accounts(&program_id(), "Go", 1).unwrap();
    let crossed = InitializeCandidate {
        poll: real.candidate,
        poll_bump: real.candidate_bump,
        candidate: other.candidate,
        candidate_bump: other.candidate_bump,
    };
    assert_eq!(
        initialize_candidate_at(&mut l, &crossed, "Go".to_string()),
        Err(ErrorCode::AccountDiscriminatorMismatch)
    );
    let poll_as_candidate = Vote {
        poll: real.poll,
        poll_bump: real.poll_bump,
        candidate: real.poll,
        candidate_bump: real.poll_bump,
    };
    assert_eq!(
        voting::vote_at(&mut l, &poll_as_candidate),
        Err(ErrorCode::AccountDiscriminatorMismatch)
    );
}

#[test]
fn allocation_at_a_used_address_is_refused() {
    let mut l = ledger();
    let address = [7u8; 32];
    let c = Candidate {
        candidate_name: "a".to_string(),
        candidate_votes: 0,
    };
    assert_eq!(l.allocate(address, Record::Candidate(c.clone())), Ok(()));
    assert_eq!(
        l.allocate(address, Record::Candidate(c.clone())),
        Err(ErrorCode::AccountAlreadyExists)
    );
    assert_eq!(l.get(&address), Some(&Record::Candidate(c)));
    assert_eq!(l.get(&[8u8; 32]), None);
}

#[test]
fn derivation_is_repeatable() {
    let pid = program_id();
    assert_eq!(poll_address(&pid, 1), poll_address(&pid, 1));
    assert_eq!(
        candidate_address(&pid, 1, "Rust"),
        candidate_address(&pid, 1, "Rust")
    );
    assert_ne!(poll_address(&pid, 1), poll_address(&pid, 2));
    assert_ne!(
        candidate_address(&pid, 1, "Rust"),
        candidate_address(&pid, 1, "Go")
    );
    assert_ne!(
        candidate_address(&pid, 1, "Rust"),
        candidate_address(&pid, 2, "Rust")
    );
    let other = Pubkey::new_from_array([3u8; 32]).to_bytes();
    assert_ne!(poll_address(&pid, 1), poll_address(&other, 1));
}

#[test]
fn derived_address_matches_the_seeds() {
    let pid = program_id();
    let (poll, bump) = poll_address(&pid, 1).unwrap();
    assert_ne!(poll, pid);
    let expected = Pubkey::create_program_address(
        &[&1u64.to_le_bytes(), &[bump]],
        &Pubkey::new_from_array(pid),
    )
    .unwrap();
    assert_eq!(poll, expected.to_bytes());
    let (candidate, cbump) = candidate_address(&pid, 1, "Rust").unwrap();
    let expected = Pubkey::create_program_address(
        &[&1u64.to_le_bytes(), b"Rust", &[cbump]],
        &Pubkey::new_from_array(pid),
    )
    .unwrap();
    assert_eq!(candidate, expected.to_bytes());
    let accounts = InitializePoll::accounts(&pid, 1).unwrap();
    assert_eq!(accounts.poll, poll);
    assert_eq!(accounts.poll_bump, bump);
}

#[test]
fn same_address_compares_every_byte() {
    let a = [1u8; 32];
    let mut b = a;
    assert!(same_address(&a, &b));
    b[31] = 2;
    assert!(!same_address(&a, &b));
    b = a;
    b[0] = 0;
    assert!(!same_address(&a, &b));
}

#[test]
fn new_ledger_is_empty() {
    let l = ledger();
    assert_eq!(l.len(), 0);
    assert_eq!(l.program_id(), program_id());
}
