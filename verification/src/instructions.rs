//! The three transitions of an election, each on the records that it
//! touches.
//!
//! Whoever keeps the records looks them up, hands them over in one of the
//! bundles below together with the current time, and stores them again when
//! the transition has succeeded. A transition that fails changes nothing.

use vstd::prelude::*;

use crate::error::VotingError;
use crate::state::{Candidate, CandidateView, Poll, PollView, VoterRecord};

verus! {

/// The record that the creation of a poll writes: the slot allotted to the
/// new poll.
#[derive(Debug, PartialEq, Eq)]
pub struct InitializePoll {
    pub poll: Poll,
}

/// The records that the registration of a candidate touches: the poll, and
/// the slot allotted to the new candidate.
#[derive(Debug, PartialEq, Eq)]
pub struct InitializeCandidate {
    pub poll: Poll,
    pub candidate: Candidate,
}

/// The records that a vote touches: the poll, the chosen candidate, and the
/// voter's own record in this poll.
#[derive(Debug, PartialEq, Eq)]
pub struct Vote {
    pub poll: Poll,
    pub candidate: Candidate,
    pub voter_record: VoterRecord,
}

/// What a successful vote reports: the candidate voted for and the two
/// counters as the vote left them.
///
/// The receipt is informative only; the records are the authority.
#[derive(Debug, PartialEq, Eq)]
pub struct VoteReceipt {
    pub candidate_name: String,
    pub candidate_votes: u64,
    pub total_votes: u64,
}

/// What a `VoteReceipt` holds, with the name as a sequence of characters and
/// the counters as natural numbers.
pub struct VoteReceiptView {
    pub candidate_name: Seq<char>,
    pub candidate_votes: nat,
    pub total_votes: nat,
}

impl VoteReceiptView {
    /// The receipt of a vote that left `candidate` and `poll` as given.
    pub open spec fn of(candidate: CandidateView, poll: PollView) -> VoteReceiptView {
        VoteReceiptView {
            candidate_name: candidate.candidate_name,
            candidate_votes: candidate.candidate_votes,
            total_votes: poll.total_votes,
        }
    }
}

impl View for VoteReceipt {
    type V = VoteReceiptView;

    open spec fn view(&self) -> VoteReceiptView {
        VoteReceiptView {
            candidate_name: self.candidate_name@,
            candidate_votes: self.candidate_votes as nat,
            total_votes: self.total_votes as nat,
        }
    }
}

/// The rule that a poll with the given window breaks when it is created at
/// time `now`, if it breaks one.
///
/// The rules are tried in this order: the poll must open after `now`, it
/// must close after `now`, it must close after it opens, and its closing
/// time must be positive. A window that passes the first three also passes
/// the fourth, which is kept as a safeguard.
pub open spec fn creation_fault(poll_start: u64, poll_end: u64, now: u64) -> Option<VotingError> {
    if poll_start <= now {
        Some(VotingError::PollStartInPast)
    } else if poll_end <= now {
        Some(VotingError::PollEndInPast)
    } else if poll_end <= poll_start {
        Some(VotingError::PollEndBeforeStart)
    } else if poll_end <= 0 {
        Some(VotingError::InvalidTimestamp)
    } else {
        None
    }
}

/// The rule that a vote breaks when it is cast at time `now` in `poll` by
/// the voter whose record is `record`, if it breaks one.
///
/// The window is tried first and includes both of its ends; the voter's
/// record is tried after it.
pub open spec fn ballot_fault(poll: PollView, record: VoterRecord, now: u64) -> Option<
    VotingError,
> {
    if now < poll.poll_start {
        Some(VotingError::PollNotStarted)
    } else if now > poll.poll_end {
        Some(VotingError::PollEnded)
    } else if record.has_voted {
        Some(VotingError::AlreadyVoted)
    } else {
        None
    }
}

/// Judges a vote cast at time `now` in `poll` by the voter whose record is
/// `record`, and names the rule that it breaks, if it breaks one.
pub fn check_ballot(poll: &Poll, record: &VoterRecord, now: u64) -> (fault: Option<VotingError>)
    ensures
        fault == ballot_fault(poll@, *record, now),
{
    if now < poll.poll_start {
        return Some(VotingError::PollNotStarted);
    }
    if now > poll.poll_end {
        return Some(VotingError::PollEnded);
    }
    if record.has_voted {
        return Some(VotingError::AlreadyVoted);
    }
    None
}

/// Creates a poll at time `now` in the slot that `ctx` holds.
///
/// The poll is written exactly when its window breaks no rule of
/// `creation_fault`; it then has no candidate and no vote. Otherwise the
/// broken rule is returned and the slot is left as it was.
pub fn initialize_poll(
    ctx: &mut InitializePoll,
    poll_id: u64,
    description: String,
    poll_start: u64,
    poll_end: u64,
    now: u64,
) -> (outcome: Result<(), VotingError>)
    ensures
        outcome is Ok <==> now < poll_start && poll_start < poll_end,
        match outcome {
            Ok(()) => {
                &&& creation_fault(poll_start, poll_end, now) is None
                &&& final(ctx).poll@ == PollView::fresh(
                    poll_id,
                    description@,
                    poll_start,
                    poll_end,
                )
            },
            Err(fault) => {
                &&& creation_fault(poll_start, poll_end, now) == Some(fault)
                &&& *final(ctx) == *old(ctx)
            },
        },
{
    if poll_start <= now {
        return Err(VotingError::PollStartInPast);
    }
    if poll_end <= now {
        return Err(VotingError::PollEndInPast);
    }
    if poll_end <= poll_start {
        return Err(VotingError::PollEndBeforeStart);
    }
    if poll_end <= 0 {
        return Err(VotingError::InvalidTimestamp);
    }
    ctx.poll.poll_id = poll_id;
    ctx.poll.description = description;
    ctx.poll.poll_start = poll_start;
    ctx.poll.poll_end = poll_end;
    ctx.poll.candidate_amount = 0;
    ctx.poll.total_votes = 0;
    Ok(())
}

/// Registers a candidate named `candidate_name` in the slot that `ctx`
/// holds, and counts it on the poll's roster.
///
/// Registration is turned down by no rule: neither the voting window nor an
/// earlier candidate of the same name stands in its way. The roster counter
/// must have room for one more. `_poll_id` is the key under which the poll
/// was looked up; the transition does not read it.
pub fn initialize_candidate(
    ctx: &mut InitializeCandidate,
    candidate_name: String,
    _poll_id: u64,
) -> (outcome: Result<(), VotingError>)
    requires
        old(ctx).poll.candidate_amount < u64::MAX,
    ensures
        outcome is Ok,
        final(ctx).candidate@ == CandidateView::fresh(candidate_name@),
        final(ctx).poll@ == old(ctx).poll@.with_one_more_candidate(),
{
    ctx.candidate.candidate_name = candidate_name;
    ctx.candidate.candidate_votes = 0;
    ctx.poll.candidate_amount = ctx.poll.candidate_amount + 1;
    Ok(())
}

/// Casts one vote at time `now` on the records that `ctx` holds.
///
/// The vote counts exactly when it breaks no rule of `ballot_fault`: the
/// voter's record is then marked, the candidate's tally and the poll's total
/// each grow by one, and the receipt reports the candidate with both new
/// counters. Otherwise the broken rule is returned and all three records are
/// left as they were. Where the vote counts, both counters must have room
/// for one more. `_candidate_name` and `_poll_id` are the keys under which
/// the records were looked up; the transition does not read them.
pub fn vote(ctx: &mut Vote, _candidate_name: String, _poll_id: u64, now: u64) -> (outcome: Result<
    VoteReceipt,
    VotingError,
>)
    requires
        ballot_fault(old(ctx).poll@, old(ctx).voter_record, now) is None ==> {
            &&& old(ctx).candidate.candidate_votes < u64::MAX
            &&& old(ctx).poll.total_votes < u64::MAX
        },
    ensures
        outcome is Ok <==> old(ctx).poll@.is_open_at(now) && !old(ctx).voter_record.has_voted,
        match outcome {
            Ok(receipt) => {
                &&& ballot_fault(old(ctx).poll@, old(ctx).voter_record, now) is None
                &&& final(ctx).voter_record.has_voted
                &&& final(ctx).candidate@ == old(ctx).candidate@.with_one_more_vote()
                &&& final(ctx).poll@ == old(ctx).poll@.with_one_more_vote()
                &&& receipt@ == VoteReceiptView::of(final(ctx).candidate@, final(ctx).poll@)
            },
            Err(fault) => {
                &&& ballot_fault(old(ctx).poll@, old(ctx).voter_record, now) == Some(fault)
                &&& *final(ctx) == *old(ctx)
            },
        },
{
    if let Some(fault) = check_ballot(&ctx.poll, &ctx.voter_record, now) {
        return Err(fault);
    }
    ctx.voter_record.has_voted = true;
    ctx.candidate.candidate_votes = ctx.candidate.candidate_votes + 1;
    ctx.poll.total_votes = ctx.poll.total_votes + 1;
    Ok(
        VoteReceipt {
            candidate_name: ctx.candidate.candidate_name.clone(),
            candidate_votes: ctx.candidate.candidate_votes,
            total_votes: ctx.poll.total_votes,
        },
    )
}

} // verus!
