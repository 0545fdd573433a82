//! A ledger that keeps the polls, candidates and voter records of any number
//! of elections in memory, and runs the three transitions on them.
//!
//! The ledger looks the records up by their keys, lends them to the
//! transition, and stores them again when the transition has succeeded.
//! Whatever it turns down leaves it exactly as it was.

use vstd::prelude::*;

use crate::error::LedgerError;
use crate::instructions::{
    ballot_fault, check_ballot, initialize_candidate, initialize_poll, vote, InitializeCandidate,
    InitializePoll, Vote, VoteReceipt, VoteReceiptView,
};
use crate::model::{ballots_cast, tallied_votes, CandidateSlot, LedgerView, VoterSlot};
use crate::preservation::{
    lemma_candidate_found, lemma_cast_vote_keeps_wf, lemma_counted_vote_stands,
    lemma_create_keeps_wf, lemma_created_poll_stands, lemma_poll_found,
    lemma_register_keeps_wf, lemma_registered_candidate_stands, lemma_voter_found,
};
use crate::state::{
    fits_in, Candidate, CandidateView, Identity, Poll, PollView, VoterRecord,
    MAX_CANDIDATE_NAME_LEN,
};
use crate::tally::{lemma_ballots_bounded, lemma_roster_bounded, lemma_tally_covers_candidate};

verus! {

/// A candidate as the ledger stores it: under the poll that it belongs to.
struct CandidateEntry {
    poll_id: u64,
    candidate: Candidate,
}

/// A voter's record as the ledger stores it: under the poll and the voter
/// that it belongs to.
struct VoterEntry {
    poll_id: u64,
    identity: Identity,
    record: VoterRecord,
}

/// The polls, candidates and voter records of any number of elections.
pub struct Ledger {
    polls: Vec<Poll>,
    candidates: Vec<CandidateEntry>,
    voters: Vec<VoterEntry>,
}

impl View for Ledger {
    type V = LedgerView;

    closed spec fn view(&self) -> LedgerView {
        LedgerView {
            polls: Seq::new(self.polls@.len(), |i: int| self.polls@[i]@),
            candidates: Seq::new(
                self.candidates@.len(),
                |i: int|
                    CandidateSlot {
                        poll_id: self.candidates@[i].poll_id,
                        candidate: self.candidates@[i].candidate@,
                    },
            ),
            voters: Seq::new(
                self.voters@.len(),
                |i: int|
                    VoterSlot {
                        poll_id: self.voters@[i].poll_id,
                        identity: self.voters@[i].identity@,
                        record: self.voters@[i].record,
                    },
            ),
        }
    }
}

impl Ledger {
    /// The records agree with one another as `LedgerView::wf` says.
    pub open spec fn wf(&self) -> bool {
        self@.wf()
    }

    /// A ledger that holds nothing.
    pub fn new() -> (ledger: Ledger)
        ensures
            ledger@ == LedgerView::empty(),
            ledger.wf(),
    {
        let ledger = Ledger { polls: Vec::new(), candidates: Vec::new(), voters: Vec::new() };
        assert(ledger@.polls =~= Seq::empty());
        assert(ledger@.candidates =~= Seq::empty());
        assert(ledger@.voters =~= Seq::empty());
        ledger
    }

    /// Finds the position of the poll with this identifier.
    fn find_poll(&self, poll_id: u64) -> (found: Option<usize>)
        ensures
            match found {
                Some(i) => i < self.polls.len() && self@.poll_at(i as int, poll_id),
                None => !self@.has_poll(poll_id),
            },
    {
        let mut i: usize = 0;
        while i < self.polls.len()
            invariant
                i <= self.polls.len(),
                forall|k: int| 0 <= k < i ==> !self@.poll_at(k, poll_id),
            decreases self.polls.len() - i,
        {
            if self.polls[i].poll_id == poll_id {
                return Some(i);
            }
            i += 1;
        }
        None
    }

    /// Finds the position of the candidate of this name in this poll.
    fn find_candidate(&self, poll_id: u64, candidate_name: &String) -> (found: Option<usize>)
        ensures
            match found {
                Some(i) => i < self.candidates.len() && self@.candidate_at(
                    i as int,
                    poll_id,
                    candidate_name@,
                ),
                None => !self@.has_candidate(poll_id, candidate_name@),
            },
    {
        let mut i: usize = 0;
        while i < self.candidates.len()
            invariant
                i <= self.candidates.len(),
                forall|k: int| 0 <= k < i ==> !self@.candidate_at(k, poll_id, candidate_name@),
            decreases self.candidates.len() - i,
        {
            if self.candidates[i].poll_id == poll_id && self.candidates[i].candidate.candidate_name
                == *candidate_name {
                return Some(i);
            }
            i += 1;
        }
        None
    }

    /// Finds the position of the record of this voter in this poll.
    fn find_voter(&self, poll_id: u64, identity: &Identity) -> (found: Option<usize>)
        ensures
            match found {
                Some(i) => i < self.voters.len() && self@.voter_at(i as int, poll_id, identity@),
                None => !self@.has_voter(poll_id, identity@),
            },
    {
        let mut i: usize = 0;
        while i < self.voters.len()
            invariant
                i <= self.voters.len(),
                forall|k: int| 0 <= k < i ==> !self@.voter_at(k, poll_id, identity@),
            decreases self.voters.len() - i,
        {
            if self.voters[i].poll_id == poll_id && self.voters[i].identity.same_as(identity) {
                return Some(i);
            }
            i += 1;
        }
        None
    }

    /// Looks up the poll with this identifier.
    pub fn poll(&self, poll_id: u64) -> (found: Option<&Poll>)
        requires
            self.wf(),
        ensures
            match found {
                Some(poll) => self@.has_poll(poll_id) && poll@ == self@.poll(poll_id),
                None => !self@.has_poll(poll_id),
            },
    {
        match self.find_poll(poll_id) {
            Some(i) => {
                proof {
                    lemma_poll_found(self@, i as int, poll_id);
                }
                Some(&self.polls[i])
            },
            None => None,
        }
    }

    /// Looks up the candidate of this name in this poll.
    pub fn candidate(&self, poll_id: u64, candidate_name: &String) -> (found: Option<&Candidate>)
        requires
            self.wf(),
        ensures
            match found {
                Some(candidate) => self@.has_candidate(poll_id, candidate_name@) && candidate@
                    == self@.candidate(poll_id, candidate_name@),
                None => !self@.has_candidate(poll_id, candidate_name@),
            },
    {
        match self.find_candidate(poll_id, candidate_name) {
            Some(i) => {
                proof {
                    lemma_candidate_found(self@, i as int, poll_id, candidate_name@);
                }
                Some(&self.candidates[i].candidate)
            },
            None => None,
        }
    }

    /// Looks up the record of this voter in this poll. A voter of whom the
    /// ledger holds no record has not voted.
    pub fn voter_record(&self, poll_id: u64, identity: &Identity) -> (record: VoterRecord)
        requires
            self.wf(),
        ensures
            record == self@.voter_record(poll_id, identity@),
            record.has_voted == self@.has_voted(poll_id, identity@),
    {
        match self.find_voter(poll_id, identity) {
            Some(i) => {
                proof {
                    lemma_voter_found(self@, i as int, poll_id, identity@);
                }
                self.voters[i].record
            },
            None => VoterRecord::blank(),
        }
    }

    /// Creates a poll at time `now`, as `LedgerView::create` says, and
    /// returns a copy of it.
    pub fn create(
        &mut self,
        poll_id: u64,
        description: String,
        poll_start: u64,
        poll_end: u64,
        now: u64,
    ) -> (outcome: Result<Poll, LedgerError>)
        requires
            old(self).wf(),
        ensures
            final(self).wf(),
            match outcome {
                Ok(poll) => {
                    &&& old(self)@.create(poll_id, description@, poll_start, poll_end, now) == Ok::<
                        LedgerView,
                        LedgerError,
                    >(final(self)@)
                    &&& poll@ == PollView::fresh(poll_id, description@, poll_start, poll_end)
                    &&& final(self)@.has_poll(poll_id)
                    &&& final(self)@.poll(poll_id) == poll@
                },
                Err(fault) => {
                    &&& old(self)@.create(poll_id, description@, poll_start, poll_end, now) == Err::<
                        LedgerView,
                        LedgerError,
                    >(fault)
                    &&& final(self)@ == old(self)@
                },
            },
    {
        let mut ctx = InitializePoll { poll: Poll::blank() };
        match initialize_poll(&mut ctx, poll_id, description, poll_start, poll_end, now) {
            Err(fault) => Err(LedgerError::Rule(fault)),
            Ok(()) => {
                if self.find_poll(poll_id).is_some() {
                    return Err(LedgerError::PollExists);
                }
                if !ctx.poll.fits() {
                    return Err(LedgerError::TextTooLong);
                }
                let created = ctx.poll.clone();
                self.polls.push(ctx.poll);
                proof {
                    assert(self@.polls =~= old(self)@.polls.push(created@));
                    assert(self@.candidates =~= old(self)@.candidates);
                    assert(self@.voters =~= old(self)@.voters);
                    lemma_create_keeps_wf(
                        old(self)@,
                        poll_id,
                        description@,
                        poll_start,
                        poll_end,
                        now,
                    );
                    lemma_created_poll_stands(
                        old(self)@,
                        poll_id,
                        description@,
                        poll_start,
                        poll_end,
                        now,
                    );
                }
                Ok(created)
            },
        }
    }

    /// Registers a candidate in a poll, as `LedgerView::register` says, and
    /// returns a copy of it.
    pub fn register(&mut self, poll_id: u64, candidate_name: String) -> (outcome: Result<
        Candidate,
        LedgerError,
    >)
        requires
            old(self).wf(),
        ensures
            final(self).wf(),
            match outcome {
                Ok(candidate) => {
                    &&& old(self)@.register(poll_id, candidate_name@) == Ok::<
                        LedgerView,
                        LedgerError,
                    >(final(self)@)
                    &&& candidate@ == CandidateView::fresh(candidate_name@)
                    &&& final(self)@.has_candidate(poll_id, candidate_name@)
                    &&& final(self)@.candidate(poll_id, candidate_name@) == candidate@
                    &&& final(self)@.poll(poll_id) == old(self)@.poll(
                        poll_id,
                    ).with_one_more_candidate()
                },
                Err(fault) => {
                    &&& old(self)@.register(poll_id, candidate_name@) == Err::<
                        LedgerView,
                        LedgerError,
                    >(fault)
                    &&& final(self)@ == old(self)@
                },
            },
    {
        let p = match self.find_poll(poll_id) {
            Some(p) => p,
            None => {
                return Err(LedgerError::PollMissing);
            },
        };
        if self.find_candidate(poll_id, &candidate_name).is_some() {
            return Err(LedgerError::CandidateExists);
        }
        if !fits_in(candidate_name.as_str(), MAX_CANDIDATE_NAME_LEN) {
            return Err(LedgerError::TextTooLong);
        }
        // The slot is allotted before the poll counts the candidate: that the
        // list has room for it is what keeps the counter within its range.
        self.candidates.push(CandidateEntry { poll_id, candidate: Candidate::blank() });
        let slot = self.candidates.len() - 1;
        let mut ctx = InitializeCandidate {
            poll: self.polls[p].clone(),
            candidate: Candidate::blank(),
        };
        proof {
            lemma_poll_found(old(self)@, p as int, poll_id);
            lemma_roster_bounded(old(self)@.candidates, poll_id);
            assert(old(self)@.counts_agree(old(self)@.polls[p as int]));
        }
        match initialize_candidate(&mut ctx, candidate_name, poll_id) {
            Err(fault) => {
                self.candidates.pop();
                Err(LedgerError::Rule(fault))
            },
            Ok(()) => {
                let registered = ctx.candidate.clone();
                self.polls.set(p, ctx.poll);
                self.candidates.set(slot, CandidateEntry { poll_id, candidate: ctx.candidate });
                proof {
                    let next = old(self)@.register(poll_id, candidate_name@).unwrap();
                    assert(self@.polls =~= next.polls);
                    assert(self@.candidates =~= next.candidates);
                    assert(self@.voters =~= next.voters);
                    lemma_register_keeps_wf(old(self)@, poll_id, candidate_name@);
                    lemma_registered_candidate_stands(old(self)@, poll_id, candidate_name@);
                }
                Ok(registered)
            },
        }
    }

    /// Casts the vote of `identity` for a candidate at time `now`, as
    /// `LedgerView::cast_vote` says, and returns its receipt.
    ///
    /// After a vote that counted, the poll's total is the sum of its
    /// candidates' tallies and the number of its voters who have voted.
    pub fn cast_vote(
        &mut self,
        poll_id: u64,
        candidate_name: String,
        identity: Identity,
        now: u64,
    ) -> (outcome: Result<VoteReceipt, LedgerError>)
        requires
            old(self).wf(),
        ensures
            final(self).wf(),
            match outcome {
                Ok(receipt) => {
                    &&& old(self)@.cast_vote(poll_id, candidate_name@, identity@, now) == Ok::<
                        LedgerView,
                        LedgerError,
                    >(final(self)@)
                    &&& receipt@ == VoteReceiptView::of(
                        final(self)@.candidate(poll_id, candidate_name@),
                        final(self)@.poll(poll_id),
                    )
                    &&& !old(self)@.has_voted(poll_id, identity@)
                    &&& final(self)@.has_voted(poll_id, identity@)
                    &&& final(self)@.candidate(poll_id, candidate_name@) == old(self)@.candidate(
                        poll_id,
                        candidate_name@,
                    ).with_one_more_vote()
                    &&& final(self)@.poll(poll_id) == old(self)@.poll(poll_id).with_one_more_vote()
                    &&& final(self)@.poll(poll_id).total_votes == tallied_votes(
                        final(self)@.candidates,
                        poll_id,
                    )
                    &&& final(self)@.poll(poll_id).total_votes == ballots_cast(
                        final(self)@.voters,
                        poll_id,
                    )
                },
                Err(fault) => {
                    &&& old(self)@.cast_vote(poll_id, candidate_name@, identity@, now) == Err::<
                        LedgerView,
                        LedgerError,
                    >(fault)
                    &&& final(self)@ == old(self)@
                },
            },
    {
        let p = match self.find_poll(poll_id) {
            Some(p) => p,
            None => {
                return Err(LedgerError::PollMissing);
            },
        };
        let found = self.find_voter(poll_id, &identity);
        let record = match found {
            Some(v) => self.voters[v].record,
            None => VoterRecord::blank(),
        };
        proof {
            lemma_poll_found(old(self)@, p as int, poll_id);
            if let Some(v) = found {
                lemma_voter_found(old(self)@, v as int, poll_id, identity@);
            }
        }
        let c = match self.find_candidate(poll_id, &candidate_name) {
            Some(c) => c,
            None => {
                // The rules are heard before the missing candidate is.
                return match check_ballot(&self.polls[p], &record, now) {
                    Some(fault) => Err(LedgerError::Rule(fault)),
                    None => Err(LedgerError::CandidateMissing),
                };
            },
        };
        // A voter of whom the ledger holds no record gets one now. That the
        // list has room for it is what keeps the counters within their range.
        let v = match found {
            Some(v) => v,
            None => {
                self.voters.push(VoterEntry { poll_id, identity, record });
                self.voters.len() - 1
            },
        };
        let mut ctx = Vote {
            poll: self.polls[p].clone(),
            candidate: self.candidates[c].candidate.clone(),
            voter_record: record,
        };
        proof {
            lemma_candidate_found(old(self)@, c as int, poll_id, candidate_name@);
            lemma_ballots_bounded(old(self)@.voters, poll_id);
            lemma_tally_covers_candidate(old(self)@.candidates, c as int, poll_id);
            assert(old(self)@.counts_agree(old(self)@.polls[p as int]));
            if found is Some {
                assert(ballot_fault(ctx.poll@, record, now) is None ==> !old(
                    self,
                )@.voters[v as int].record.has_voted);
            }
        }
        match vote(&mut ctx, candidate_name, poll_id, now) {
            Err(fault) => {
                if found.is_none() {
                    self.voters.pop();
                }
                proof {
                    assert(self@.polls =~= old(self)@.polls);
                    assert(self@.candidates =~= old(self)@.candidates);
                    assert(self@.voters =~= old(self)@.voters);
                }
                Err(LedgerError::Rule(fault))
            },
            Ok(receipt) => {
                self.polls.set(p, ctx.poll);
                self.candidates.set(c, CandidateEntry { poll_id, candidate: ctx.candidate });
                self.voters.set(v, VoterEntry { poll_id, identity, record: ctx.voter_record });
                proof {
                    let next = old(self)@.cast_vote(
                        poll_id,
                        candidate_name@,
                        identity@,
                        now,
                    ).unwrap();
                    assert(self@.polls =~= next.polls);
                    assert(self@.candidates =~= next.candidates);
                    assert(self@.voters =~= next.voters);
                    lemma_cast_vote_keeps_wf(old(self)@, poll_id, candidate_name@, identity@, now);
                    lemma_counted_vote_stands(old(self)@, poll_id, candidate_name@, identity@, now);
                    lemma_poll_found(self@, p as int, poll_id);
                    lemma_candidate_found(self@, c as int, poll_id, candidate_name@);
                    assert(self@.counts_agree(self@.polls[p as int]));
                }
                Ok(receipt)
            },
        }
    }
}

} // verus!
