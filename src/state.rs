//! The records of the program and the ledger of accounts that holds them.

use vstd::prelude::*;

verus! {

/// Longest description of a poll, in bytes.
pub const MAX_DESCRIPTION_LEN: usize = 200;

/// Longest name of a candidate, in bytes.
pub const MAX_CANDIDATE_NAME_LEN: usize = 32;

/// Earliest poll start or end accepted, in seconds since the Unix epoch.
pub const MIN_TIMESTAMP: u64 = 1_000_000_000;

/// Latest poll start or end accepted, in seconds since the Unix epoch.
pub const MAX_TIMESTAMP: u64 = 4_000_000_000;

/// Why an operation was refused. A refused operation changes nothing.
#[derive(Clone, Copy, Debug, PartialEq, Eq, Structural)]
pub enum ErrorCode {
    /// The poll would not start after the current time.
    InvalidPollStart,
    /// The poll would not end after the current time and after its start.
    InvalidPollEnd,
    /// A start or end lies outside the accepted range of timestamps.
    InvalidUnixTimestamp,
    /// An account already exists at the derived address.
    AccountAlreadyExists,
    /// No account exists at the derived address.
    AccountNotFound,
    /// The account at the derived address holds another kind of record.
    AccountDiscriminatorMismatch,
    /// The description is longer than its bound.
    DescriptionTooLong,
    /// The candidate's name is longer than its bound.
    CandidateNameTooLong,
    /// The candidate's tally is at its largest value.
    VoteCountOverflow,
    /// No bump seed gives an address for these keys.
    AddressUnavailable,
}

/// A timed poll. `candidate_amount` is set to zero on creation and no
/// operation changes it.
#[derive(Clone, Debug, PartialEq, Eq)]
pub struct Poll {
    pub poll_id: u64,
    pub description: String,
    pub poll_start: u64,
    pub poll_end: u64,
    pub candidate_amount: u64,
}

/// An option of a poll, with its tally.
#[derive(Clone, Debug, PartialEq, Eq)]
pub struct Candidate {
    pub candidate_name: String,
    pub candidate_votes: u64,
}

/// What an account holds; the variant is the account's discriminator.
#[derive(Clone, Debug, PartialEq, Eq)]
pub enum Record {
    Poll(Poll),
    Candidate(Candidate),
}

/// One allocated account: its address and its record.
struct AccountEntry {
    address: [u8; 32],
    record: Record,
}

/// The accounts of one program, keyed by address. At most one account is
/// ever allocated at an address, and none is ever removed.
pub struct Ledger {
    program_id: [u8; 32],
    entries: Vec<AccountEntry>,
    records: Ghost<Map<Seq<u8>, Record>>,
}

/// Whether two addresses are the same.
pub fn same_address(a: &[u8; 32], b: &[u8; 32]) -> (r: bool)
    ensures
        r == (a@ == b@),
{
    let mut i: usize = 0;
    while i < 32
        invariant
            0 <= i <= 32,
            a@.len() == 32,
            b@.len() == 32,
            forall|k: int| 0 <= k < i ==> a@[k] == b@[k],
        decreases 32 - i,
    {
        if a[i] != b[i] {
            return false;
        }
        i = i + 1;
    }
    assert(a@ =~= b@);
    true
}

/// Why the account at `address` cannot be read as a poll, if it cannot.
pub open spec fn poll_check(m: Map<Seq<u8>, Record>, address: Seq<u8>) -> Option<ErrorCode> {
    if !m.contains_key(address) {
        Some(ErrorCode::AccountNotFound)
    } else {
        match m[address] {
            Record::Poll(_) => None,
            Record::Candidate(_) => Some(ErrorCode::AccountDiscriminatorMismatch),
        }
    }
}

/// The accounts after one vote for the candidate at `address`, with its new
/// tally; or why the vote is refused.
pub open spec fn after_vote(m: Map<Seq<u8>, Record>, address: Seq<u8>) -> Result<
    (Map<Seq<u8>, Record>, u64),
    ErrorCode,
> {
    if !m.contains_key(address) {
        Err(ErrorCode::AccountNotFound)
    } else {
        match m[address] {
            Record::Candidate(c) => if c.candidate_votes == u64::MAX {
                Err(ErrorCode::VoteCountOverflow)
            } else {
                let votes = (c.candidate_votes + 1) as u64;
                Ok(
                    (
                        m.insert(
                            address,
                            Record::Candidate(
                                Candidate { candidate_name: c.candidate_name, candidate_votes: votes },
                            ),
                        ),
                        votes,
                    ),
                )
            },
            Record::Poll(_) => Err(ErrorCode::AccountDiscriminatorMismatch),
        }
    }
}

impl View for Ledger {
    type V = Map<Seq<u8>, Record>;

    /// The record at each allocated address.
    closed spec fn view(&self) -> Map<Seq<u8>, Record> {
        self.records@
    }
}

impl Ledger {
    /// The program that owns the accounts; it scopes every derived address.
    pub closed spec fn owner(&self) -> [u8; 32] {
        self.program_id
    }

    /// Addresses are unique among the entries, and the view maps each
    /// entry's address to its record and nothing else.
    pub closed spec fn wf(&self) -> bool {
        &&& forall|i: int, j: int|
            0 <= i < j < self.entries@.len() ==> #[trigger] self.entries@[i].address@
                != #[trigger] self.entries@[j].address@
        &&& forall|i: int|
            0 <= i < self.entries@.len() ==> {
                &&& self.records@.contains_key(#[trigger] self.entries@[i].address@)
                &&& self.records@[self.entries@[i].address@] == self.entries@[i].record
            }
        &&& forall|a: Seq<u8>|
            #[trigger] self.records@.contains_key(a) ==> exists|i: int|
                0 <= i < self.entries@.len() && self.entries@[i].address@ == a
    }

    /// An empty ledger of the program `program_id`.
    pub fn new(program_id: [u8; 32]) -> (r: Ledger)
        ensures
            r.wf(),
            r@ == Map::<Seq<u8>, Record>::empty(),
            r.owner() == program_id,
    {
        Ledger { program_id, entries: Vec::new(), records: Ghost(Map::empty()) }
    }

    /// The program that owns the accounts.
    pub fn program_id(&self) -> (r: [u8; 32])
        ensures
            r == self.owner(),
    {
        self.program_id
    }

    /// The number of allocated accounts.
    pub fn len(&self) -> (r: usize)
        requires
            self.wf(),
        ensures
            r == self@.len(),
    {
        proof { self.lemma_len(); }
        self.entries.len()
    }

    proof fn lemma_len(&self)
        requires
            self.wf(),
        ensures
            self@.len() == self.entries@.len(),
            self@.dom().finite(),
    {
        let addrs = self.entries@.map_values(|e: AccountEntry| e.address@);
        assert forall|i: int, j: int| 0 <= i < j < addrs.len() implies addrs[i] != addrs[j] by {
            assert(self.entries@[i].address@ != self.entries@[j].address@);
        }
        assert(addrs.no_duplicates());
        assert(self.records@.dom() =~= addrs.to_set()) by {
            assert forall|a: Seq<u8>| self.records@.contains_key(a) implies addrs.contains(a) by {
                let i = choose|i: int| 0 <= i < self.entries@.len() && self.entries@[i].address@ == a;
                assert(addrs[i] == a);
            }
            assert forall|a: Seq<u8>| addrs.contains(a) implies self.records@.contains_key(a) by {
                let i = choose|i: int| 0 <= i < addrs.len() && addrs[i] == a;
                assert(self.records@.contains_key(self.entries@[i].address@));
            }
        }
        addrs.unique_seq_to_set();
    }

    /// The position of the entry at `address`, if one is allocated there.
    fn position(&self, address: &[u8; 32]) -> (r: Option<usize>)
        requires
            self.wf(),
        ensures
            match r {
                Some(i) => i < self.entries@.len() && self.entries@[i as int].address@ == address@,
                None => !self@.contains_key(address@),
            },
    {
        let mut i: usize = 0;
        while i < self.entries.len()
            invariant
                self.wf(),
                0 <= i <= self.entries@.len(),
                forall|k: int| 0 <= k < i ==> self.entries@[k].address@ != address@,
            decreases self.entries@.len() - i,
        {
            if same_address(&self.entries[i].address, address) {
                return Some(i);
            }
            i = i + 1;
        }
        None
    }

    /// The record at `address`, if an account is allocated there.
    pub fn get(&self, address: &[u8; 32]) -> (r: Option<&Record>)
        requires
            self.wf(),
        ensures
            match r {
                Some(rec) => self@.contains_key(address@) && *rec == self@[address@],
                None => !self@.contains_key(address@),
            },
    {
        match self.position(address) {
            Some(i) => Some(&self.entries[i].record),
            None => None,
        }
    }

    /// Allocates an account holding `record` at `address`; refused where one
    /// is allocated there already.
    pub fn allocate(&mut self, address: [u8; 32], record: Record) -> (r: Result<(), ErrorCode>)
        requires
            old(self).wf(),
        ensures
            final(self).wf(),
            final(self).owner() == old(self).owner(),
            old(self)@.contains_key(address@) ==> r == Err::<(), ErrorCode>(
                ErrorCode::AccountAlreadyExists,
            ) && final(self)@ == old(self)@,
            !old(self)@.contains_key(address@) ==> r == Ok::<(), ErrorCode>(()) && final(self)@ == old(self)@.insert(
                address@,
                record,
            ),
    {
        if let Some(_) = self.position(&address) {
            return Err(ErrorCode::AccountAlreadyExists);
        }
        let ghost old_entries = self.entries@;
        let ghost old_records = self.records@;
        self.records = Ghost(self.records@.insert(address@, record));
        self.entries.push(AccountEntry { address, record });
        proof {
            let n = old_entries.len() as int;
            assert forall|i: int| 0 <= i < n implies old_entries[i].address@ != address@ by {
                assert(old_records.contains_key(old_entries[i].address@));
            }
            assert forall|a: Seq<u8>| #[trigger] self.records@.contains_key(a) implies exists|i: int|
                0 <= i < self.entries@.len() && self.entries@[i].address@ == a by {
                if a != address@ {
                    let i = choose|i: int| 0 <= i < n && old_entries[i].address@ == a;
                    assert(self.entries@[i] == old_entries[i]);
                } else {
                    assert(self.entries@[n].address@ == a);
                }
            }
        }
        Ok(())
    }
    /// Checks that the account at `address` holds a poll.
    pub fn check_poll(&self, address: &[u8; 32]) -> (r: Result<(), ErrorCode>)
        requires
            self.wf(),
        ensures
            r == match poll_check(self@, address@) {
                Some(e) => Err::<(), ErrorCode>(e),
                None => Ok(()),
            },
    {
        match self.get(address) {
            None => Err(ErrorCode::AccountNotFound),
            Some(Record::Poll(_)) => Ok(()),
            Some(Record::Candidate(_)) => Err(ErrorCode::AccountDiscriminatorMismatch),
        }
    }

    /// Adds one vote to the candidate at `address`; returns its new tally.
    pub fn add_vote(&mut self, address: &[u8; 32]) -> (r: Result<u64, ErrorCode>)
        requires
            old(self).wf(),
        ensures
            final(self).wf(),
            final(self).owner() == old(self).owner(),
            match after_vote(old(self)@, address@) {
                Ok((m, votes)) => r == Ok::<u64, ErrorCode>(votes) && final(self)@ == m,
                Err(e) => r == Err::<u64, ErrorCode>(e) && final(self)@ == old(self)@,
            },
    {
        let i = match self.position(address) {
            Some(i) => i,
            None => return Err(ErrorCode::AccountNotFound),
        };
        proof {
            assert(self.records@.contains_key(self.entries@[i as int].address@));
        }
        let updated = match &self.entries[i].record {
            Record::Poll(_) => return Err(ErrorCode::AccountDiscriminatorMismatch),
            Record::Candidate(c) => {
                if c.candidate_votes == u64::MAX {
                    return Err(ErrorCode::VoteCountOverflow);
                }
                Candidate {
                    candidate_name: c.candidate_name.clone(),
                    candidate_votes: c.candidate_votes + 1,
                }
            },
        };
        let votes = updated.candidate_votes;
        let ghost old_entries = self.entries@;
        let ghost old_records = self.records@;
        self.records = Ghost(self.records@.insert(address@, Record::Candidate(updated)));
        self.entries[i] = AccountEntry { address: *address, record: Record::Candidate(updated) };
        proof {
            assert forall|j: int| 0 <= j < old_entries.len() && j != i implies old_entries[j].address@
                != address@ by {
                if j < i {
                    assert(old_entries[j].address@ != old_entries[i as int].address@);
                } else {
                    assert(old_entries[i as int].address@ != old_entries[j].address@);
                }
            }
            assert forall|a: Seq<u8>| #[trigger] self.records@.contains_key(a) implies exists|k: int|
                0 <= k < self.entries@.len() && self.entries@[k].address@ == a by {
                let k = choose|k: int| 0 <= k < old_entries.len() && old_entries[k].address@ == a;
                assert(self.entries@[k].address@ == a);
            }
            assert(self.records@ == after_vote(old_records, address@)->Ok_0.0);
        }
        Ok(votes)
    }
}

} // verus!
