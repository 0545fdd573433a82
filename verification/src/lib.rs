//! A minimal election ledger: polls with a bounded voting window, candidates
//! registered under a poll, and one ballot per voter with live tallies.

pub mod error;
pub mod history;
pub mod instructions;
pub mod ledger;
pub mod model;
pub mod preservation;
pub mod state;
pub mod tally;
pub mod theorems;

pub use error::{LedgerError, VotingError};
pub use instructions::{
    initialize_candidate, initialize_poll, vote, InitializeCandidate, InitializePoll, Vote,
    VoteReceipt,
};
pub use ledger::Ledger;
pub use state::{Candidate, Identity, Poll, VoterRecord};
