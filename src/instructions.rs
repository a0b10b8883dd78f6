//! The three operations of the program: create a poll, register a candidate
//! under it, and vote for a candidate.

use crate::address::{
    candidate_address, candidate_seeds, found_view, poll_address, poll_seeds, program_address,
};
use crate::state::{
    after_vote, poll_check, Candidate, ErrorCode, Ledger, Poll, Record, MAX_CANDIDATE_NAME_LEN,
    MAX_DESCRIPTION_LEN, MAX_TIMESTAMP, MIN_TIMESTAMP,
};
use vstd::prelude::*;
use vstd::utf8::encode_utf8;

verus! {

/// The derived address and bump seed of the poll `poll_id`.
pub open spec fn poll_account(program_id: Seq<u8>, poll_id: u64) -> Option<(Seq<u8>, u8)> {
    program_address(poll_seeds(poll_id), program_id)
}

/// The derived address and bump seed of the candidate `candidate_name` of
/// the poll `poll_id`.
pub open spec fn candidate_account(program_id: Seq<u8>, poll_id: u64, candidate_name: Seq<char>) -> Option<
    (Seq<u8>, u8),
> {
    program_address(candidate_seeds(poll_id, candidate_name), program_id)
}

/// Length in bytes of the UTF-8 encoding of `s`.
pub open spec fn utf8_len(s: Seq<char>) -> nat {
    encode_utf8(s).len()
}

/// Whether `t` lies in the accepted range of poll timestamps.
pub open spec fn is_valid_timestamp(t: u64) -> bool {
    MIN_TIMESTAMP <= t <= MAX_TIMESTAMP
}

/// Why a poll with these times and this description is refused at
/// `current_time`, if it is; the checks come in this order.
pub open spec fn poll_params_error(
    current_time: u64,
    description: Seq<char>,
    poll_start: u64,
    poll_end: u64,
) -> Option<ErrorCode> {
    if poll_start <= current_time {
        Some(ErrorCode::InvalidPollStart)
    } else if poll_end <= current_time || poll_end <= poll_start {
        Some(ErrorCode::InvalidPollEnd)
    } else if !(is_valid_timestamp(poll_start) && is_valid_timestamp(poll_end)) {
        Some(ErrorCode::InvalidUnixTimestamp)
    } else if utf8_len(description) > MAX_DESCRIPTION_LEN {
        Some(ErrorCode::DescriptionTooLong)
    } else {
        None
    }
}

/// The record of a new poll.
pub open spec fn new_poll(poll_id: u64, description: String, poll_start: u64, poll_end: u64) -> Record {
    Record::Poll(Poll { poll_id, description, poll_start, poll_end, candidate_amount: 0 })
}

/// The record of a new candidate.
pub open spec fn new_candidate(candidate_name: String) -> Record {
    Record::Candidate(Candidate { candidate_name, candidate_votes: 0 })
}

/// The accounts after the poll is created at `address`, or why it is refused.
pub open spec fn after_initialize_poll(
    m: Map<Seq<u8>, Record>,
    address: Seq<u8>,
    current_time: u64,
    poll_id: u64,
    description: String,
    poll_start: u64,
    poll_end: u64,
) -> Result<Map<Seq<u8>, Record>, ErrorCode> {
    match poll_params_error(current_time, description@, poll_start, poll_end) {
        Some(e) => Err(e),
        None => if m.contains_key(address) {
            Err(ErrorCode::AccountAlreadyExists)
        } else {
            Ok(m.insert(address, new_poll(poll_id, description, poll_start, poll_end)))
        },
    }
}

/// The accounts after the candidate is registered at `candidate` under the
/// poll at `poll`, or why it is refused.
pub open spec fn after_initialize_candidate(
    m: Map<Seq<u8>, Record>,
    poll: Seq<u8>,
    candidate: Seq<u8>,
    candidate_name: String,
) -> Result<Map<Seq<u8>, Record>, ErrorCode> {
    if utf8_len(candidate_name@) > MAX_CANDIDATE_NAME_LEN {
        Err(ErrorCode::CandidateNameTooLong)
    } else {
        match poll_check(m, poll) {
            Some(e) => Err(e),
            None => if m.contains_key(candidate) {
                Err(ErrorCode::AccountAlreadyExists)
            } else {
                Ok(m.insert(candidate, new_candidate(candidate_name)))
            },
        }
    }
}

/// The accounts after one vote for the candidate at `candidate` of the poll
/// at `poll`, with the new tally, or why it is refused.
pub open spec fn after_vote_at(m: Map<Seq<u8>, Record>, poll: Seq<u8>, candidate: Seq<u8>) -> Result<
    (Map<Seq<u8>, Record>, u64),
    ErrorCode,
> {
    match poll_check(m, poll) {
        Some(e) => Err(e),
        None => after_vote(m, candidate),
    }
}

/// Checks the times and the description of a new poll at `current_time`.
pub fn validate_poll(current_time: u64, description: &str, poll_start: u64, poll_end: u64) -> (r:
    Result<(), ErrorCode>)
    ensures
        r == match poll_params_error(current_time, description@, poll_start, poll_end) {
            Some(e) => Err::<(), ErrorCode>(e),
            None => Ok(()),
        },
{
    if poll_start <= current_time {
        return Err(ErrorCode::InvalidPollStart);
    }
    if poll_end <= current_time || poll_end <= poll_start {
        return Err(ErrorCode::InvalidPollEnd);
    }
    if !(MIN_TIMESTAMP <= poll_start && poll_start <= MAX_TIMESTAMP && MIN_TIMESTAMP <= poll_end
        && poll_end <= MAX_TIMESTAMP) {
        return Err(ErrorCode::InvalidUnixTimestamp);
    }
    if description.as_bytes().len() > MAX_DESCRIPTION_LEN {
        return Err(ErrorCode::DescriptionTooLong);
    }
    Ok(())
}

/// Whether an operation with result `r` took the ledger from `before` to
/// `after` as `outcome` says: on success to the accounts it gives, on a
/// refusal with its error and nothing changed.
pub open spec fn applied<T>(
    before: Map<Seq<u8>, Record>,
    after: Map<Seq<u8>, Record>,
    r: Result<T, ErrorCode>,
    outcome: Result<(Map<Seq<u8>, Record>, T), ErrorCode>,
) -> bool {
    match outcome {
        Ok((m, v)) => r == Ok::<T, ErrorCode>(v) && after == m,
        Err(e) => r == Err::<T, ErrorCode>(e) && after == before,
    }
}

/// An outcome that carries no value on success.
pub open spec fn with_unit(outcome: Result<Map<Seq<u8>, Record>, ErrorCode>) -> Result<
    (Map<Seq<u8>, Record>, ()),
    ErrorCode,
> {
    match outcome {
        Ok(m) => Ok((m, ())),
        Err(e) => Err(e),
    }
}

/// What creating the poll `poll_id` in the ledger of `program_id` does.
pub open spec fn initialize_poll_outcome(
    m: Map<Seq<u8>, Record>,
    program_id: Seq<u8>,
    current_time: u64,
    poll_id: u64,
    description: String,
    poll_start: u64,
    poll_end: u64,
) -> Result<Map<Seq<u8>, Record>, ErrorCode> {
    match poll_params_error(current_time, description@, poll_start, poll_end) {
        Some(e) => Err(e),
        None => match poll_account(program_id, poll_id) {
            Some((address, _)) => after_initialize_poll(
                m,
                address,
                current_time,
                poll_id,
                description,
                poll_start,
                poll_end,
            ),
            None => Err(ErrorCode::AddressUnavailable),
        },
    }
}

/// The derived addresses of the poll `poll_id` and of its candidate
/// `candidate_name`, where both exist.
pub open spec fn candidate_accounts(program_id: Seq<u8>, poll_id: u64, candidate_name: Seq<char>) -> Option<
    (Seq<u8>, Seq<u8>),
> {
    match (poll_account(program_id, poll_id), candidate_account(program_id, poll_id, candidate_name)) {
        (Some((poll, _)), Some((candidate, _))) => Some((poll, candidate)),
        _ => None,
    }
}

/// What registering the candidate `candidate_name` under the poll `poll_id`
/// does.
pub open spec fn initialize_candidate_outcome(
    m: Map<Seq<u8>, Record>,
    program_id: Seq<u8>,
    candidate_name: String,
    poll_id: u64,
) -> Result<Map<Seq<u8>, Record>, ErrorCode> {
    if utf8_len(candidate_name@) > MAX_CANDIDATE_NAME_LEN {
        Err(ErrorCode::CandidateNameTooLong)
    } else {
        match candidate_accounts(program_id, poll_id, candidate_name@) {
            Some((poll, candidate)) => after_initialize_candidate(m, poll, candidate, candidate_name),
            None => Err(ErrorCode::AddressUnavailable),
        }
    }
}

/// What one vote for the candidate `candidate_name` of the poll `poll_id`
/// does, with the new tally.
pub open spec fn vote_outcome(
    m: Map<Seq<u8>, Record>,
    program_id: Seq<u8>,
    candidate_name: Seq<char>,
    poll_id: u64,
) -> Result<(Map<Seq<u8>, Record>, u64), ErrorCode> {
    if utf8_len(candidate_name) > MAX_CANDIDATE_NAME_LEN {
        Err(ErrorCode::CandidateNameTooLong)
    } else {
        match candidate_accounts(program_id, poll_id, candidate_name) {
            Some((poll, candidate)) => after_vote_at(m, poll, candidate),
            None => Err(ErrorCode::AddressUnavailable),
        }
    }
}

/// The accounts that creating a poll touches.
pub struct InitializePoll {
    pub poll: [u8; 32],
    pub poll_bump: u8,
}

impl InitializePoll {
    /// Derives the accounts for the poll `poll_id` of the program `program_id`.
    pub fn accounts(program_id: &[u8; 32], poll_id: u64) -> (r: Result<InitializePoll, ErrorCode>)
        ensures
            match poll_account(program_id@, poll_id) {
                Some((poll, bump)) => r is Ok && r->Ok_0.poll@ == poll && r->Ok_0.poll_bump == bump,
                None => r is Err && r->Err_0 == ErrorCode::AddressUnavailable,
            },
    {
        match poll_address(program_id, poll_id) {
            Some((poll, poll_bump)) => Ok(InitializePoll { poll, poll_bump }),
            None => Err(ErrorCode::AddressUnavailable),
        }
    }
}

/// The accounts that registering a candidate touches.
pub struct InitializeCandidate {
    pub poll: [u8; 32],
    pub poll_bump: u8,
    pub candidate: [u8; 32],
    pub candidate_bump: u8,
}

/// Derives the addresses and bump seeds of a poll and of one of its candidates.
fn derive_candidate_accounts(program_id: &[u8; 32], candidate_name: &str, poll_id: u64) -> (r:
    Result<([u8; 32], u8, [u8; 32], u8), ErrorCode>)
    ensures
        match (
            poll_account(program_id@, poll_id),
            candidate_account(program_id@, poll_id, candidate_name@),
        ) {
            (Some((poll, poll_bump)), Some((candidate, candidate_bump))) => r is Ok && r->Ok_0.0@
                == poll && r->Ok_0.1 == poll_bump && r->Ok_0.2@ == candidate && r->Ok_0.3
                == candidate_bump,
            _ => r is Err && r->Err_0 == ErrorCode::AddressUnavailable,
        },
{
    let (poll, poll_bump) = match poll_address(program_id, poll_id) {
        Some(found) => found,
        None => return Err(ErrorCode::AddressUnavailable),
    };
    match candidate_address(program_id, poll_id, candidate_name) {
        Some((candidate, candidate_bump)) => Ok((poll, poll_bump, candidate, candidate_bump)),
        None => Err(ErrorCode::AddressUnavailable),
    }
}

impl InitializeCandidate {
    /// Derives the accounts for the candidate `candidate_name` of the poll
    /// `poll_id`.
    pub fn accounts(program_id: &[u8; 32], candidate_name: &str, poll_id: u64) -> (r: Result<
        InitializeCandidate,
        ErrorCode,
    >)
        ensures
            match candidate_accounts(program_id@, poll_id, candidate_name@) {
                Some((poll, candidate)) => r is Ok && r->Ok_0.poll@ == poll && r->Ok_0.candidate@
                    == candidate,
                None => r is Err && r->Err_0 == ErrorCode::AddressUnavailable,
            },
            r is Ok ==> poll_account(program_id@, poll_id) == Some((r->Ok_0.poll@, r->Ok_0.poll_bump))
                && candidate_account(program_id@, poll_id, candidate_name@) == Some(
                (r->Ok_0.candidate@, r->Ok_0.candidate_bump),
            ),
    {
        match derive_candidate_accounts(program_id, candidate_name, poll_id) {
            Ok((poll, poll_bump, candidate, candidate_bump)) => Ok(
                InitializeCandidate { poll, poll_bump, candidate, candidate_bump },
            ),
            Err(e) => Err(e),
        }
    }
}

/// The accounts that a vote touches.
pub struct Vote {
    pub poll: [u8; 32],
    pub poll_bump: u8,
    pub candidate: [u8; 32],
    pub candidate_bump: u8,
}

impl Vote {
    /// Derives the accounts for a vote for the candidate `candidate_name` of
    /// the poll `poll_id`.
    pub fn accounts(program_id: &[u8; 32], candidate_name: &str, poll_id: u64) -> (r: Result<
        Vote,
        ErrorCode,
    >)
        ensures
            match candidate_accounts(program_id@, poll_id, candidate_name@) {
                Some((poll, candidate)) => r is Ok && r->Ok_0.poll@ == poll && r->Ok_0.candidate@
                    == candidate,
                None => r is Err && r->Err_0 == ErrorCode::AddressUnavailable,
            },
            r is Ok ==> poll_account(program_id@, poll_id) == Some((r->Ok_0.poll@, r->Ok_0.poll_bump))
                && candidate_account(program_id@, poll_id, candidate_name@) == Some(
                (r->Ok_0.candidate@, r->Ok_0.candidate_bump),
            ),
    {
        match derive_candidate_accounts(program_id, candidate_name, poll_id) {
            Ok((poll, poll_bump, candidate, candidate_bump)) => Ok(
                Vote { poll, poll_bump, candidate, candidate_bump },
            ),
            Err(e) => Err(e),
        }
    }
}

/// Creates a poll in the account of `accounts`, at `current_time`.
pub fn initialize_poll_at(
    ledger: &mut Ledger,
    accounts: &InitializePoll,
    current_time: u64,
    poll_id: u64,
    description: String,
    poll_start: u64,
    poll_end: u64,
) -> (r: Result<(), ErrorCode>)
    requires
        old(ledger).wf(),
    ensures
        final(ledger).wf(),
        final(ledger).owner() == old(ledger).owner(),
        applied(
            old(ledger)@,
            final(ledger)@,
            r,
            with_unit(
                after_initialize_poll(
                    old(ledger)@,
                    accounts.poll@,
                    current_time,
                    poll_id,
                    description,
                    poll_start,
                    poll_end,
                ),
            ),
        ),
{
    match validate_poll(current_time, description.as_str(), poll_start, poll_end) {
        Ok(()) => {},
        Err(e) => return Err(e),
    }
    let poll = Poll { poll_id, description, poll_start, poll_end, candidate_amount: 0 };
    ledger.allocate(accounts.poll, Record::Poll(poll))
}

/// Creates the poll `poll_id` at `current_time`, at the address derived from
/// its id.
pub fn initialize_poll(
    ledger: &mut Ledger,
    current_time: u64,
    poll_id: u64,
    description: String,
    poll_start: u64,
    poll_end: u64,
) -> (r: Result<(), ErrorCode>)
    requires
        old(ledger).wf(),
    ensures
        final(ledger).wf(),
        final(ledger).owner() == old(ledger).owner(),
        applied(
            old(ledger)@,
            final(ledger)@,
            r,
            with_unit(
                initialize_poll_outcome(
                    old(ledger)@,
                    old(ledger).owner()@,
                    current_time,
                    poll_id,
                    description,
                    poll_start,
                    poll_end,
                ),
            ),
        ),
{
    match validate_poll(current_time, description.as_str(), poll_start, poll_end) {
        Ok(()) => {},
        Err(e) => return Err(e),
    }
    let program_id = ledger.program_id();
    let accounts = match InitializePoll::accounts(&program_id, poll_id) {
        Ok(accounts) => accounts,
        Err(e) => return Err(e),
    };
    initialize_poll_at(ledger, &accounts, current_time, poll_id, description, poll_start, poll_end)
}

/// Registers a candidate in the accounts of `accounts`.
pub fn initialize_candidate_at(
    ledger: &mut Ledger,
    accounts: &InitializeCandidate,
    candidate_name: String,
) -> (r: Result<(), ErrorCode>)
    requires
        old(ledger).wf(),
    ensures
        final(ledger).wf(),
        final(ledger).owner() == old(ledger).owner(),
        applied(
            old(ledger)@,
            final(ledger)@,
            r,
            with_unit(
                after_initialize_candidate(
                    old(ledger)@,
                    accounts.poll@,
                    accounts.candidate@,
                    candidate_name,
                ),
            ),
        ),
{
    if candidate_name.as_str().as_bytes().len() > MAX_CANDIDATE_NAME_LEN {
        return Err(ErrorCode::CandidateNameTooLong);
    }
    match ledger.check_poll(&accounts.poll) {
        Ok(()) => {},
        Err(e) => return Err(e),
    }
    let candidate = Candidate { candidate_name, candidate_votes: 0 };
    ledger.allocate(accounts.candidate, Record::Candidate(candidate))
}

/// Registers the candidate `candidate_name` under the existing poll
/// `poll_id`, at the address derived from both.
pub fn initialize_candidate(ledger: &mut Ledger, candidate_name: String, poll_id: u64) -> (r:
    Result<(), ErrorCode>)
    requires
        old(ledger).wf(),
    ensures
        final(ledger).wf(),
        final(ledger).owner() == old(ledger).owner(),
        applied(
            old(ledger)@,
            final(ledger)@,
            r,
            with_unit(
                initialize_candidate_outcome(
                    old(ledger)@,
                    old(ledger).owner()@,
                    candidate_name,
                    poll_id,
                ),
            ),
        ),
{
    if candidate_name.as_str().as_bytes().len() > MAX_CANDIDATE_NAME_LEN {
        return Err(ErrorCode::CandidateNameTooLong);
    }
    let program_id = ledger.program_id();
    let accounts = match InitializeCandidate::accounts(&program_id, candidate_name.as_str(), poll_id) {
        Ok(accounts) => accounts,
        Err(e) => return Err(e),
    };
    initialize_candidate_at(ledger, &accounts, candidate_name)
}

/// Adds one vote to the candidate in the accounts of `accounts`; returns its
/// new tally. The poll's start and end are not consulted.
pub fn vote_at(ledger: &mut Ledger, accounts: &Vote) -> (r: Result<u64, ErrorCode>)
    requires
        old(ledger).wf(),
    ensures
        final(ledger).wf(),
        final(ledger).owner() == old(ledger).owner(),
        applied(
            old(ledger)@,
            final(ledger)@,
            r,
            after_vote_at(old(ledger)@, accounts.poll@, accounts.candidate@),
        ),
{
    match ledger.check_poll(&accounts.poll) {
        Ok(()) => {},
        Err(e) => return Err(e),
    }
    ledger.add_vote(&accounts.candidate)
}

/// Adds one vote to the candidate `candidate_name` of the poll `poll_id`;
/// returns its new tally. The poll's start and end are not consulted.
pub fn vote(ledger: &mut Ledger, candidate_name: String, poll_id: u64) -> (r: Result<
    u64,
    ErrorCode,
>)
    requires
        old(ledger).wf(),
    ensures
        final(ledger).wf(),
        final(ledger).owner() == old(ledger).owner(),
        applied(
            old(ledger)@,
            final(ledger)@,
            r,
            vote_outcome(old(ledger)@, old(ledger).owner()@, candidate_name@, poll_id),
        ),
{
    if candidate_name.as_str().as_bytes().len() > MAX_CANDIDATE_NAME_LEN {
        return Err(ErrorCode::CandidateNameTooLong);
    }
    let program_id = ledger.program_id();
    let accounts = match Vote::accounts(&program_id, candidate_name.as_str(), poll_id) {
        Ok(accounts) => accounts,
        Err(e) => return Err(e),
    };
    vote_at(ledger, &accounts)
}

} // verus!
