//! The three kinds of record that an election keeps, and their mathematical
//! views.

use vstd::prelude::*;
use vstd::utf8::encode_utf8;

verus! {

/// The most bytes that the description of a poll may take.
pub const MAX_DESCRIPTION_LEN: usize = 200;

/// The most bytes that the name of a candidate may take.
pub const MAX_CANDIDATE_NAME_LEN: usize = 32;

/// The number of bytes that a text takes when it is stored, which is the
/// length of its UTF-8 encoding.
pub open spec fn stored_len(text: Seq<char>) -> nat {
    encode_utf8(text).len()
}

/// Tells whether `text` takes at most `limit` bytes when it is stored.
pub fn fits_in(text: &str, limit: usize) -> (ok: bool)
    ensures
        ok == (stored_len(text@) <= limit),
{
    text.as_bytes().len() <= limit
}

/// A time-boxed election with a description and running totals.
#[derive(Debug, PartialEq, Eq)]
pub struct Poll {
    pub poll_id: u64,
    pub description: String,
    pub poll_start: u64,
    pub poll_end: u64,
    pub candidate_amount: u64,
    pub total_votes: u64,
}

/// What a `Poll` holds, with its text as a sequence of characters and its
/// counters as natural numbers.
pub struct PollView {
    pub poll_id: u64,
    pub description: Seq<char>,
    pub poll_start: u64,
    pub poll_end: u64,
    pub candidate_amount: nat,
    pub total_votes: nat,
}

impl PollView {
    /// The poll as it stands right after its creation: no candidate and no
    /// vote yet.
    pub open spec fn fresh(
        poll_id: u64,
        description: Seq<char>,
        poll_start: u64,
        poll_end: u64,
    ) -> PollView {
        PollView { poll_id, description, poll_start, poll_end, candidate_amount: 0, total_votes: 0 }
    }

    /// The voting window is not empty: the poll opens strictly before it
    /// closes.
    pub open spec fn window_ordered(self) -> bool {
        self.poll_start < self.poll_end
    }

    /// `now` lies in the voting window, whose two ends belong to it.
    pub open spec fn is_open_at(self, now: u64) -> bool {
        self.poll_start <= now && now <= self.poll_end
    }

    /// The description is short enough to be stored.
    pub open spec fn fits(self) -> bool {
        stored_len(self.description) <= MAX_DESCRIPTION_LEN
    }

    /// The same poll with one more candidate on its roster.
    pub open spec fn with_one_more_candidate(self) -> PollView {
        PollView { candidate_amount: self.candidate_amount + 1, ..self }
    }

    /// The same poll with one more vote in its total.
    pub open spec fn with_one_more_vote(self) -> PollView {
        PollView { total_votes: self.total_votes + 1, ..self }
    }
}

impl View for Poll {
    type V = PollView;

    open spec fn view(&self) -> PollView {
        PollView {
            poll_id: self.poll_id,
            description: self.description@,
            poll_start: self.poll_start,
            poll_end: self.poll_end,
            candidate_amount: self.candidate_amount as nat,
            total_votes: self.total_votes as nat,
        }
    }
}

impl Clone for Poll {
    fn clone(&self) -> (copy: Self)
        ensures
            copy == *self,
    {
        Poll {
            poll_id: self.poll_id,
            description: self.description.clone(),
            poll_start: self.poll_start,
            poll_end: self.poll_end,
            candidate_amount: self.candidate_amount,
            total_votes: self.total_votes,
        }
    }
}

impl Poll {
    /// A record with every field at zero and no text, as a newly allotted
    /// slot holds it before the poll is written into it.
    pub fn blank() -> (poll: Poll)
        ensures
            poll@ == PollView::fresh(0, Seq::<char>::empty(), 0, 0),
    {
        Poll {
            poll_id: 0,
            description: String::new(),
            poll_start: 0,
            poll_end: 0,
            candidate_amount: 0,
            total_votes: 0,
        }
    }

    /// Tells whether the description is short enough to be stored.
    pub fn fits(&self) -> (ok: bool)
        ensures
            ok == self@.fits(),
    {
        fits_in(self.description.as_str(), MAX_DESCRIPTION_LEN)
    }
}

/// An option within a poll that gathers votes.
#[derive(Debug, PartialEq, Eq)]
pub struct Candidate {
    pub candidate_name: String,
    pub candidate_votes: u64,
}

/// What a `Candidate` holds, with its name as a sequence of characters and
/// its tally as a natural number.
pub struct CandidateView {
    pub candidate_name: Seq<char>,
    pub candidate_votes: nat,
}

impl CandidateView {
    /// The candidate as it stands right after its registration.
    pub open spec fn fresh(candidate_name: Seq<char>) -> CandidateView {
        CandidateView { candidate_name, candidate_votes: 0 }
    }

    /// The name is short enough to be stored.
    pub open spec fn fits(self) -> bool {
        stored_len(self.candidate_name) <= MAX_CANDIDATE_NAME_LEN
    }

    /// The same candidate with one more vote.
    pub open spec fn with_one_more_vote(self) -> CandidateView {
        CandidateView { candidate_votes: self.candidate_votes + 1, ..self }
    }
}

impl View for Candidate {
    type V = CandidateView;

    open spec fn view(&self) -> CandidateView {
        CandidateView {
            candidate_name: self.candidate_name@,
            candidate_votes: self.candidate_votes as nat,
        }
    }
}

impl Clone for Candidate {
    fn clone(&self) -> (copy: Self)
        ensures
            copy == *self,
    {
        Candidate {
            candidate_name: self.candidate_name.clone(),
            candidate_votes: self.candidate_votes,
        }
    }
}

impl Candidate {
    /// A record with no name and no vote, as a newly allotted slot holds it
    /// before the candidate is written into it.
    pub fn blank() -> (candidate: Candidate)
        ensures
            candidate@ == CandidateView::fresh(Seq::<char>::empty()),
    {
        Candidate { candidate_name: String::new(), candidate_votes: 0 }
    }

    /// Tells whether the name is short enough to be stored.
    pub fn fits(&self) -> (ok: bool)
        ensures
            ok == self@.fits(),
    {
        fits_in(self.candidate_name.as_str(), MAX_CANDIDATE_NAME_LEN)
    }
}

/// The flag that keeps one voter from voting twice in one poll.
///
/// It starts out `false`, is set by the voter's first successful vote and
/// never goes back.
#[derive(Clone, Copy, Debug, PartialEq, Eq, Structural)]
pub struct VoterRecord {
    pub has_voted: bool,
}

impl VoterRecord {
    /// The record of a voter who has not voted yet.
    pub fn blank() -> (record: VoterRecord)
        ensures
            record == (VoterRecord { has_voted: false }),
    {
        VoterRecord { has_voted: false }
    }
}

/// Who casts a vote: an opaque token of 32 bytes that stands for one voter
/// and for no other.
///
/// The library compares identities and nothing more; that a caller is who
/// the token says is for the host to establish.
#[derive(Clone, Copy, Debug, PartialEq, Eq, Hash)]
pub struct Identity {
    pub key: [u8; 32],
}

impl View for Identity {
    type V = Seq<u8>;

    open spec fn view(&self) -> Seq<u8> {
        self.key@
    }
}

impl Identity {
    /// Tells whether two identities stand for the same voter.
    pub fn same_as(&self, other: &Identity) -> (same: bool)
        ensures
            same == (self@ == other@),
    {
        let mut i: usize = 0;
        while i < 32
            invariant
                i <= 32,
                forall|k: int| 0 <= k < i ==> self.key@[k] == other.key@[k],
            decreases 32 - i,
        {
            if self.key[i] != other.key[i] {
                return false;
            }
            i += 1;
        }
        assert(self.key@ =~= other.key@);
        true
    }
}

} // verus!
