//! The election as a mathematical state machine: what a ledger holds, what
//! each operation makes of it, and what holds of every ledger that the
//! operations can reach.

use vstd::prelude::*;

use crate::error::LedgerError;
use crate::instructions::{ballot_fault, creation_fault};
use crate::state::{CandidateView, PollView, VoterRecord};

verus! {

/// A candidate together with the poll that it belongs to.
pub struct CandidateSlot {
    pub poll_id: u64,
    pub candidate: CandidateView,
}

/// A voter's record together with the poll and the voter that it belongs to.
pub struct VoterSlot {
    pub poll_id: u64,
    pub identity: Seq<u8>,
    pub record: VoterRecord,
}

/// The number of candidates among `slots` that belong to the poll.
pub open spec fn roster_size(slots: Seq<CandidateSlot>, poll_id: u64) -> nat
    decreases slots.len(),
{
    if slots.len() == 0 {
        0
    } else {
        roster_size(slots.drop_last(), poll_id) + if slots.last().poll_id == poll_id {
            1nat
        } else {
            0nat
        }
    }
}

/// The sum of the tallies of the candidates among `slots` that belong to the
/// poll.
pub open spec fn tallied_votes(slots: Seq<CandidateSlot>, poll_id: u64) -> nat
    decreases slots.len(),
{
    if slots.len() == 0 {
        0
    } else {
        tallied_votes(slots.drop_last(), poll_id) + if slots.last().poll_id == poll_id {
            slots.last().candidate.candidate_votes
        } else {
            0nat
        }
    }
}

/// The number of records among `slots` that belong to the poll and are
/// marked as having voted.
pub open spec fn ballots_cast(slots: Seq<VoterSlot>, poll_id: u64) -> nat
    decreases slots.len(),
{
    if slots.len() == 0 {
        0
    } else {
        ballots_cast(slots.drop_last(), poll_id) + if slots.last().poll_id == poll_id
            && slots.last().record.has_voted {
            1nat
        } else {
            0nat
        }
    }
}

/// Everything that a ledger holds: its polls, its candidates and its voter
/// records, each kind in the order in which the records were created.
pub struct LedgerView {
    pub polls: Seq<PollView>,
    pub candidates: Seq<CandidateSlot>,
    pub voters: Seq<VoterSlot>,
}

impl LedgerView {
    /// The ledger that holds nothing.
    pub open spec fn empty() -> LedgerView {
        LedgerView { polls: Seq::empty(), candidates: Seq::empty(), voters: Seq::empty() }
    }

    /// Position `i` holds the poll with this identifier.
    pub open spec fn poll_at(self, i: int, poll_id: u64) -> bool {
        0 <= i < self.polls.len() && self.polls[i].poll_id == poll_id
    }

    /// The ledger holds a poll with this identifier.
    pub open spec fn has_poll(self, poll_id: u64) -> bool {
        exists|i: int| self.poll_at(i, poll_id)
    }

    /// The position of the poll with this identifier, if the ledger holds
    /// one.
    pub open spec fn poll_index(self, poll_id: u64) -> int {
        choose|i: int| self.poll_at(i, poll_id)
    }

    /// The poll with this identifier, if the ledger holds one.
    pub open spec fn poll(self, poll_id: u64) -> PollView {
        self.polls[self.poll_index(poll_id)]
    }

    /// The number of candidates that the poll counts; none where the ledger
    /// holds no such poll.
    pub open spec fn candidate_amount(self, poll_id: u64) -> nat {
        if self.has_poll(poll_id) {
            self.poll(poll_id).candidate_amount
        } else {
            0
        }
    }

    /// Position `i` holds the candidate of this name in this poll.
    pub open spec fn candidate_at(self, i: int, poll_id: u64, candidate_name: Seq<char>) -> bool {
        &&& 0 <= i < self.candidates.len()
        &&& self.candidates[i].poll_id == poll_id
        &&& self.candidates[i].candidate.candidate_name == candidate_name
    }

    /// The poll has a candidate of this name.
    pub open spec fn has_candidate(self, poll_id: u64, candidate_name: Seq<char>) -> bool {
        exists|i: int| self.candidate_at(i, poll_id, candidate_name)
    }

    /// The position of the candidate of this name in this poll, if there is
    /// one.
    pub open spec fn candidate_index(self, poll_id: u64, candidate_name: Seq<char>) -> int {
        choose|i: int| self.candidate_at(i, poll_id, candidate_name)
    }

    /// The candidate of this name in this poll, if there is one.
    pub open spec fn candidate(self, poll_id: u64, candidate_name: Seq<char>) -> CandidateView {
        self.candidates[self.candidate_index(poll_id, candidate_name)].candidate
    }

    /// Position `i` holds the record of this voter in this poll.
    pub open spec fn voter_at(self, i: int, poll_id: u64, identity: Seq<u8>) -> bool {
        &&& 0 <= i < self.voters.len()
        &&& self.voters[i].poll_id == poll_id
        &&& self.voters[i].identity == identity
    }

    /// The ledger holds a record of this voter in this poll.
    pub open spec fn has_voter(self, poll_id: u64, identity: Seq<u8>) -> bool {
        exists|i: int| self.voter_at(i, poll_id, identity)
    }

    /// The position of the record of this voter in this poll, if there is
    /// one.
    pub open spec fn voter_index(self, poll_id: u64, identity: Seq<u8>) -> int {
        choose|i: int| self.voter_at(i, poll_id, identity)
    }

    /// The record of this voter in this poll. A voter of whom the ledger
    /// holds no record has not voted.
    pub open spec fn voter_record(self, poll_id: u64, identity: Seq<u8>) -> VoterRecord {
        if self.has_voter(poll_id, identity) {
            self.voters[self.voter_index(poll_id, identity)].record
        } else {
            VoterRecord { has_voted: false }
        }
    }

    /// This voter has cast a ballot in this poll.
    pub open spec fn has_voted(self, poll_id: u64, identity: Seq<u8>) -> bool {
        self.voter_record(poll_id, identity).has_voted
    }

    /// The counters of `poll` say what the records say: as many candidates
    /// as are registered under it, and as many votes as its candidates have
    /// gathered together, which is as many as voters have cast.
    pub open spec fn counts_agree(self, poll: PollView) -> bool {
        &&& poll.candidate_amount == roster_size(self.candidates, poll.poll_id)
        &&& poll.total_votes == tallied_votes(self.candidates, poll.poll_id)
        &&& poll.total_votes == ballots_cast(self.voters, poll.poll_id)
    }

    /// What holds of every ledger that the operations can reach.
    pub open spec fn wf(self) -> bool {
        &&& forall|i: int, j: int, poll_id: u64|
            #![trigger self.poll_at(i, poll_id), self.poll_at(j, poll_id)]
            self.poll_at(i, poll_id) && self.poll_at(j, poll_id) ==> i == j
        &&& forall|i: int, j: int, poll_id: u64, candidate_name: Seq<char>|
            #![trigger self.candidate_at(i, poll_id, candidate_name), self.candidate_at(j, poll_id, candidate_name)]
            self.candidate_at(i, poll_id, candidate_name) && self.candidate_at(
                j,
                poll_id,
                candidate_name,
            ) ==> i == j
        &&& forall|i: int, j: int, poll_id: u64, identity: Seq<u8>|
            #![trigger self.voter_at(i, poll_id, identity), self.voter_at(j, poll_id, identity)]
            self.voter_at(i, poll_id, identity) && self.voter_at(j, poll_id, identity) ==> i == j
        &&& forall|i: int|
            0 <= i < self.candidates.len() ==> self.has_poll(
                (#[trigger] self.candidates[i]).poll_id,
            )
        &&& forall|i: int|
            0 <= i < self.voters.len() ==> self.has_poll((#[trigger] self.voters[i]).poll_id)
        &&& forall|i: int|
            0 <= i < self.candidates.len() ==> (#[trigger] self.candidates[i]).candidate.fits()
        &&& forall|i: int|
            #![trigger self.polls[i]]
            0 <= i < self.polls.len() ==> {
                &&& self.polls[i].window_ordered()
                &&& self.polls[i].fits()
                &&& self.counts_agree(self.polls[i])
            }
    }

    /// What the creation of a poll at time `now` makes of the ledger, or why
    /// it is turned down.
    ///
    /// The window is judged first, by `creation_fault`. A poll that passes
    /// is turned down if its identifier is taken, and then if its
    /// description is too long to be stored. Otherwise it joins the ledger
    /// with no candidate and no vote.
    pub open spec fn create(
        self,
        poll_id: u64,
        description: Seq<char>,
        poll_start: u64,
        poll_end: u64,
        now: u64,
    ) -> Result<LedgerView, LedgerError> {
        let poll = PollView::fresh(poll_id, description, poll_start, poll_end);
        match creation_fault(poll_start, poll_end, now) {
            Some(fault) => Err(LedgerError::Rule(fault)),
            None => if self.has_poll(poll_id) {
                Err(LedgerError::PollExists)
            } else if !poll.fits() {
                Err(LedgerError::TextTooLong)
            } else {
                Ok(LedgerView { polls: self.polls.push(poll), ..self })
            },
        }
    }

    /// What the registration of a candidate makes of the ledger, or why it
    /// is turned down.
    ///
    /// The poll must exist, it must have no candidate of this name yet, and
    /// the name must be short enough to be stored, in this order. The
    /// candidate then joins the ledger with no vote, and the poll counts one
    /// candidate more. The voting window plays no part.
    pub open spec fn register(self, poll_id: u64, candidate_name: Seq<char>) -> Result<
        LedgerView,
        LedgerError,
    > {
        let candidate = CandidateView::fresh(candidate_name);
        if !self.has_poll(poll_id) {
            Err(LedgerError::PollMissing)
        } else if self.has_candidate(poll_id, candidate_name) {
            Err(LedgerError::CandidateExists)
        } else if !candidate.fits() {
            Err(LedgerError::TextTooLong)
        } else {
            let p = self.poll_index(poll_id);
            Ok(
                LedgerView {
                    polls: self.polls.update(p, self.polls[p].with_one_more_candidate()),
                    candidates: self.candidates.push(CandidateSlot { poll_id, candidate }),
                    ..self
                },
            )
        }
    }

    /// What a vote cast at time `now` makes of the ledger, or why it is
    /// turned down.
    ///
    /// The poll must exist. Then the vote is judged by `ballot_fault`, on
    /// the poll's window and the voter's record. Then the candidate must
    /// exist. The vote that passes marks the voter's record, which is
    /// created if the ledger held none, and adds one to the candidate's
    /// tally and to the poll's total.
    pub open spec fn cast_vote(
        self,
        poll_id: u64,
        candidate_name: Seq<char>,
        identity: Seq<u8>,
        now: u64,
    ) -> Result<LedgerView, LedgerError> {
        if !self.has_poll(poll_id) {
            Err(LedgerError::PollMissing)
        } else {
            match ballot_fault(self.poll(poll_id), self.voter_record(poll_id, identity), now) {
                Some(fault) => Err(LedgerError::Rule(fault)),
                None => if !self.has_candidate(poll_id, candidate_name) {
                    Err(LedgerError::CandidateMissing)
                } else {
                    let p = self.poll_index(poll_id);
                    let c = self.candidate_index(poll_id, candidate_name);
                    let marked = VoterSlot {
                        poll_id,
                        identity,
                        record: VoterRecord { has_voted: true },
                    };
                    Ok(
                        LedgerView {
                            polls: self.polls.update(p, self.polls[p].with_one_more_vote()),
                            candidates: self.candidates.update(
                                c,
                                CandidateSlot {
                                    poll_id,
                                    candidate: self.candidates[c].candidate.with_one_more_vote(),
                                },
                            ),
                            voters: if self.has_voter(poll_id, identity) {
                                self.voters.update(self.voter_index(poll_id, identity), marked)
                            } else {
                                self.voters.push(marked)
                            },
                        },
                    )
                },
            }
        }
    }
}

} // verus!
