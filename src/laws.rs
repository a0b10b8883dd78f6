//! Laws that relate the operations of the program.

use crate::address::{candidate_seeds, poll_seeds};
use crate::instructions::{
    candidate_account, candidate_accounts, initialize_candidate_outcome, initialize_poll_outcome,
    is_valid_timestamp, new_poll, poll_account, utf8_len, vote_outcome,
};
use crate::state::{Candidate, ErrorCode, Record, MAX_CANDIDATE_NAME_LEN, MAX_DESCRIPTION_LEN};
use vstd::bytes::lemma_auto_spec_u64_to_from_le_bytes;
use vstd::prelude::*;
use vstd::utf8::encode_utf8_decode_utf8;

verus! {

/// A poll whose description fits, which starts after the current time and
/// ends after its start, with both times in the accepted range, is created
/// at its derived address, where no account was yet, holding exactly the
/// given fields and no candidates.
pub proof fn lemma_valid_poll_is_created(
    m: Map<Seq<u8>, Record>,
    program_id: Seq<u8>,
    current_time: u64,
    poll_id: u64,
    description: String,
    poll_start: u64,
    poll_end: u64,
)
    requires
        utf8_len(description@) <= MAX_DESCRIPTION_LEN,
        current_time < poll_start < poll_end,
        is_valid_timestamp(poll_start),
        is_valid_timestamp(poll_end),
        poll_account(program_id, poll_id) is Some,
        !m.contains_key(poll_account(program_id, poll_id)->Some_0.0),
    ensures
        initialize_poll_outcome(m, program_id, current_time, poll_id, description, poll_start, poll_end)
            == Ok::<Map<Seq<u8>, Record>, ErrorCode>(
            m.insert(
                poll_account(program_id, poll_id)->Some_0.0,
                new_poll(poll_id, description, poll_start, poll_end),
            ),
        ),
        new_poll(poll_id, description, poll_start, poll_end)->Poll_0.candidate_amount == 0,
{
}

/// Creating a poll fails with `InvalidPollStart` exactly when its start is
/// not after the current time.
pub proof fn lemma_invalid_poll_start(
    m: Map<Seq<u8>, Record>,
    program_id: Seq<u8>,
    current_time: u64,
    poll_id: u64,
    description: String,
    poll_start: u64,
    poll_end: u64,
)
    ensures
        initialize_poll_outcome(m, program_id, current_time, poll_id, description, poll_start, poll_end)
            == Err::<Map<Seq<u8>, Record>, ErrorCode>(ErrorCode::InvalidPollStart) <==> poll_start
            <= current_time,
{
}

/// For a poll that starts after the current time, creating it fails with
/// `InvalidPollEnd` exactly when its end is not after the current time or
/// not after its start.
pub proof fn lemma_invalid_poll_end(
    m: Map<Seq<u8>, Record>,
    program_id: Seq<u8>,
    current_time: u64,
    poll_id: u64,
    description: String,
    poll_start: u64,
    poll_end: u64,
)
    requires
        current_time < poll_start,
    ensures
        initialize_poll_outcome(m, program_id, current_time, poll_id, description, poll_start, poll_end)
            == Err::<Map<Seq<u8>, Record>, ErrorCode>(ErrorCode::InvalidPollEnd) <==> (poll_end
            <= current_time || poll_end <= poll_start),
{
}

/// For a poll that starts after the current time and ends after its start,
/// creating it fails with `InvalidUnixTimestamp` exactly when its start or
/// its end lies outside the accepted range.
pub proof fn lemma_invalid_unix_timestamp(
    m: Map<Seq<u8>, Record>,
    program_id: Seq<u8>,
    current_time: u64,
    poll_id: u64,
    description: String,
    poll_start: u64,
    poll_end: u64,
)
    requires
        current_time < poll_start < poll_end,
    ensures
        initialize_poll_outcome(m, program_id, current_time, poll_id, description, poll_start, poll_end)
            == Err::<Map<Seq<u8>, Record>, ErrorCode>(ErrorCode::InvalidUnixTimestamp) <==> !(
        is_valid_timestamp(poll_start) && is_valid_timestamp(poll_end)),
{
}

/// Once the poll `poll_id` is created, creating it again fails, whatever
/// the other arguments, and the ledger keeps the first record.
pub proof fn lemma_poll_is_created_once(
    m: Map<Seq<u8>, Record>,
    program_id: Seq<u8>,
    poll_id: u64,
    first_time: u64,
    first_description: String,
    first_start: u64,
    first_end: u64,
    second_time: u64,
    second_description: String,
    second_start: u64,
    second_end: u64,
)
    requires
        initialize_poll_outcome(
            m,
            program_id,
            first_time,
            poll_id,
            first_description,
            first_start,
            first_end,
        ) is Ok,
    ensures
        ({
            let created = initialize_poll_outcome(
                m,
                program_id,
                first_time,
                poll_id,
                first_description,
                first_start,
                first_end,
            )->Ok_0;
            let address = poll_account(program_id, poll_id)->Some_0.0;
            &&& created[address] == new_poll(poll_id, first_description, first_start, first_end)
            &&& initialize_poll_outcome(
                created,
                program_id,
                second_time,
                poll_id,
                second_description,
                second_start,
                second_end,
            ) is Err
        }),
{
}

/// Registering a candidate under a poll that has no account at its derived
/// address fails with `AccountNotFound`.
pub proof fn lemma_candidate_needs_poll(
    m: Map<Seq<u8>, Record>,
    program_id: Seq<u8>,
    candidate_name: String,
    poll_id: u64,
)
    requires
        utf8_len(candidate_name@) <= MAX_CANDIDATE_NAME_LEN,
        candidate_accounts(program_id, poll_id, candidate_name@) is Some,
        !m.contains_key(poll_account(program_id, poll_id)->Some_0.0),
    ensures
        initialize_candidate_outcome(m, program_id, candidate_name, poll_id) == Err::<
            Map<Seq<u8>, Record>,
            ErrorCode,
        >(ErrorCode::AccountNotFound),
{
}

/// How many of `votes` name the candidate `candidate_name` of the poll `poll_id`.
pub open spec fn count_votes(votes: Seq<(u64, Seq<char>)>, poll_id: u64, candidate_name: Seq<char>) -> nat
    decreases votes.len(),
{
    if votes.len() == 0 {
        0
    } else {
        count_votes(votes.drop_last(), poll_id, candidate_name) + if votes.last() == (
        poll_id,
        candidate_name,
        ) {
            1nat
        } else {
            0nat
        }
    }
}

/// The accounts after the votes `votes`, each a poll id and a candidate's
/// name, are cast in order; a refused vote changes nothing.
pub open spec fn run_votes(
    m: Map<Seq<u8>, Record>,
    program_id: Seq<u8>,
    votes: Seq<(u64, Seq<char>)>,
) -> Map<Seq<u8>, Record>
    decreases votes.len(),
{
    if votes.len() == 0 {
        m
    } else {
        let before = run_votes(m, program_id, votes.drop_last());
        match vote_outcome(before, program_id, votes.last().1, votes.last().0) {
            Ok((after, _)) => after,
            Err(_) => before,
        }
    }
}

/// After any run of votes, a registered candidate's tally has grown by
/// exactly the number of votes that name it, however they are interleaved
/// with votes for others; provided the tally does not overflow and no other
/// key derives the same candidate address.
pub proof fn lemma_votes_are_counted(
    m: Map<Seq<u8>, Record>,
    program_id: Seq<u8>,
    poll_id: u64,
    candidate_name: Seq<char>,
    stored_name: String,
    votes_before: u64,
    votes: Seq<(u64, Seq<char>)>,
)
    requires
        utf8_len(candidate_name) <= MAX_CANDIDATE_NAME_LEN,
        candidate_accounts(program_id, poll_id, candidate_name) is Some,
        ({
            let (poll, candidate) = candidate_accounts(program_id, poll_id, candidate_name)->Some_0;
            &&& m.contains_key(poll)
            &&& m[poll] is Poll
            &&& m.contains_key(candidate)
            &&& m[candidate] == Record::Candidate(
                Candidate { candidate_name: stored_name, candidate_votes: votes_before },
            )
            &&& forall|k: int|
                0 <= k < votes.len() && votes[k] != (poll_id, candidate_name) ==> match (
                #[trigger] candidate_accounts(program_id, votes[k].0, votes[k].1)) {
                    Some((_, other)) => other != candidate,
                    None => true,
                }
        }),
        votes_before + count_votes(votes, poll_id, candidate_name) <= u64::MAX,
    ensures
        ({
            let (poll, candidate) = candidate_accounts(program_id, poll_id, candidate_name)->Some_0;
            let after = run_votes(m, program_id, votes);
            &&& after.contains_key(poll)
            &&& after[poll] == m[poll]
            &&& after.contains_key(candidate)
            &&& after[candidate] == Record::Candidate(
                Candidate {
                    candidate_name: stored_name,
                    candidate_votes: (votes_before + count_votes(
                        votes,
                        poll_id,
                        candidate_name,
                    )) as u64,
                },
            )
        }),
    decreases votes.len(),
{
    let (poll, candidate) = candidate_accounts(program_id, poll_id, candidate_name)->Some_0;
    if votes.len() > 0 {
        let rest = votes.drop_last();
        assert forall|k: int|
            0 <= k < rest.len() && rest[k] != (poll_id, candidate_name) implies match (
            #[trigger] candidate_accounts(program_id, rest[k].0, rest[k].1)) {
                Some((_, other)) => other != candidate,
                None => true,
            } by {
            assert(rest[k] == votes[k]);
        }
        lemma_votes_are_counted(
            m,
            program_id,
            poll_id,
            candidate_name,
            stored_name,
            votes_before,
            rest,
        );
        let last = votes.last();
        assert(votes[votes.len() - 1] == last);
        let before = run_votes(m, program_id, rest);
        assert(poll != candidate);
        match vote_outcome(before, program_id, last.1, last.0) {
            Ok((after, _)) => {
                let (_, other) = candidate_accounts(program_id, last.0, last.1)->Some_0;
                assert(before.contains_key(other) && before[other] is Candidate);
                assert(other != poll);
            },
            Err(_) => {},
        }
    }
}

/// `n` votes that all name one candidate count `n`.
proof fn lemma_count_repeated(n: nat, poll_id: u64, candidate_name: Seq<char>)
    ensures
        count_votes(Seq::new(n, |i: int| (poll_id, candidate_name)), poll_id, candidate_name) == n,
    decreases n,
{
    if n > 0 {
        let votes = Seq::new(n, |i: int| (poll_id, candidate_name));
        assert(votes.drop_last() =~= Seq::new((n - 1) as nat, |i: int| (poll_id, candidate_name)));
        lemma_count_repeated((n - 1) as nat, poll_id, candidate_name);
    }
}

/// Voting `n` times for a candidate registered with no votes leaves its
/// tally at exactly `n`.
pub proof fn lemma_repeated_votes(
    m: Map<Seq<u8>, Record>,
    program_id: Seq<u8>,
    poll_id: u64,
    candidate_name: Seq<char>,
    stored_name: String,
    n: nat,
)
    requires
        utf8_len(candidate_name) <= MAX_CANDIDATE_NAME_LEN,
        candidate_accounts(program_id, poll_id, candidate_name) is Some,
        ({
            let (poll, candidate) = candidate_accounts(program_id, poll_id, candidate_name)->Some_0;
            &&& m.contains_key(poll)
            &&& m[poll] is Poll
            &&& m.contains_key(candidate)
            &&& m[candidate] == Record::Candidate(
                Candidate { candidate_name: stored_name, candidate_votes: 0 },
            )
        }),
        n <= u64::MAX,
    ensures
        ({
            let candidate = candidate_accounts(program_id, poll_id, candidate_name)->Some_0.1;
            let after = run_votes(m, program_id, Seq::new(n, |i: int| (poll_id, candidate_name)));
            &&& after.contains_key(candidate)
            &&& after[candidate] == Record::Candidate(
                Candidate { candidate_name: stored_name, candidate_votes: n as u64 },
            )
        }),
{
    lemma_count_repeated(n, poll_id, candidate_name);
    lemma_votes_are_counted(
        m,
        program_id,
        poll_id,
        candidate_name,
        stored_name,
        0,
        Seq::new(n, |i: int| (poll_id, candidate_name)),
    );
}

/// Addresses are derived by a function of the keys alone, and distinct keys
/// give distinct seeds.
pub proof fn lemma_derivation_is_a_function(
    program_id: Seq<u8>,
    poll_a: u64,
    poll_b: u64,
    name_a: Seq<char>,
    name_b: Seq<char>,
)
    ensures
        poll_a == poll_b ==> poll_account(program_id, poll_a) == poll_account(program_id, poll_b),
        poll_a == poll_b && name_a == name_b ==> candidate_account(program_id, poll_a, name_a)
            == candidate_account(program_id, poll_b, name_b),
        poll_seeds(poll_a) == poll_seeds(poll_b) ==> poll_a == poll_b,
        candidate_seeds(poll_a, name_a) == candidate_seeds(poll_b, name_b) ==> poll_a == poll_b
            && name_a == name_b,
{
    lemma_auto_spec_u64_to_from_le_bytes();
    encode_utf8_decode_utf8(name_a);
    encode_utf8_decode_utf8(name_b);
    if poll_seeds(poll_a) == poll_seeds(poll_b) {
        assert(poll_seeds(poll_a)[0] == poll_seeds(poll_b)[0]);
    }
    if candidate_seeds(poll_a, name_a) == candidate_seeds(poll_b, name_b) {
        assert(candidate_seeds(poll_a, name_a)[0] == candidate_seeds(poll_b, name_b)[0]);
        assert(candidate_seeds(poll_a, name_a)[1] == candidate_seeds(poll_b, name_b)[1]);
    }
}

} // verus!
