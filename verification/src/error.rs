//! The reasons for which the election rules turn an operation down.

use vstd::prelude::*;

verus! {

/// A rule of the election that an operation broke.
///
/// Every variant stands for a rejected operation: nothing was written when
/// one of them is returned.
#[derive(Clone, Copy, Debug, PartialEq, Eq, Structural)]
pub enum VotingError {
    /// A vote arrived before the poll opened.
    PollNotStarted,
    /// A vote arrived after the poll closed.
    PollEnded,
    /// The poll would close at or before the moment it opens.
    PollEndBeforeStart,
    /// The poll would open at or before the moment of its creation.
    PollStartInPast,
    /// The poll would close at or before the moment of its creation.
    PollEndInPast,
    /// The voter has already cast a ballot in this poll.
    AlreadyVoted,
    /// The closing time is not a positive timestamp.
    InvalidTimestamp,
}

impl VotingError {
    /// The sentence shown to a person for this error.
    pub open spec fn message_text(self) -> Seq<char> {
        match self {
            VotingError::PollNotStarted => "Poll has not started yet"@,
            VotingError::PollEnded => "Poll has ended"@,
            VotingError::PollEndBeforeStart => "Poll end time is before or equal to start time"@,
            VotingError::PollStartInPast => "Poll start time is in the past"@,
            VotingError::PollEndInPast => "Poll end time is in the past"@,
            VotingError::AlreadyVoted => "You have already voted in this poll"@,
            VotingError::InvalidTimestamp => "Invalid Unix timestamp"@,
        }
    }

    /// Renders the error as the sentence shown to a person.
    pub fn message(&self) -> (text: String)
        ensures
            text@ == self.message_text(),
    {
        match self {
            VotingError::PollNotStarted => "Poll has not started yet".to_owned(),
            VotingError::PollEnded => "Poll has ended".to_owned(),
            VotingError::PollEndBeforeStart => {
                "Poll end time is before or equal to start time".to_owned()
            },
            VotingError::PollStartInPast => "Poll start time is in the past".to_owned(),
            VotingError::PollEndInPast => "Poll end time is in the past".to_owned(),
            VotingError::AlreadyVoted => "You have already voted in this poll".to_owned(),
            VotingError::InvalidTimestamp => "Invalid Unix timestamp".to_owned(),
        }
    }
}

/// The reasons for which a ledger turns an operation down: a broken rule of
/// the election, or a record that is in the way, missing or too large.
///
/// Nothing was written when one of them is returned.
#[derive(Clone, Copy, Debug, PartialEq, Eq, Structural)]
pub enum LedgerError {
    /// The operation broke a rule of the election.
    Rule(VotingError),
    /// A poll with this identifier exists already.
    PollExists,
    /// No poll has this identifier.
    PollMissing,
    /// The poll already has a candidate of this name.
    CandidateExists,
    /// The poll has no candidate of this name.
    CandidateMissing,
    /// A description or a name takes more bytes than a record has room for.
    TextTooLong,
}

} // verus!
