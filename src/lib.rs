//! Poll creation and vote tallying over a keyed ledger of accounts whose
//! addresses are derived deterministically from the records' keys.

pub mod address;
pub mod state;
pub mod instructions;
pub mod laws;

pub use address::{candidate_address, poll_address};
pub use instructions::{
    initialize_candidate, initialize_candidate_at, initialize_poll, initialize_poll_at,
    validate_poll, vote, vote_at, InitializeCandidate, InitializePoll, Vote,
};
pub use state::{same_address, Candidate, ErrorCode, Ledger, Poll, Record};
