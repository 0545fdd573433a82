//! Every operation leaves a well-formed ledger well-formed, and leaves the
//! records that it names as its description says.

use vstd::prelude::*;

use crate::model::{CandidateSlot, LedgerView, VoterSlot};
use crate::state::{CandidateView, PollView, VoterRecord};
use crate::tally::{
    lemma_candidate_added, lemma_candidate_replaced, lemma_no_candidates, lemma_no_voters,
    lemma_voter_added, lemma_voter_replaced,
};

verus! {

/// In a well-formed ledger a poll stands at one position only, which is
/// therefore the one that `poll_index` names.
pub proof fn lemma_poll_found(ledger: LedgerView, i: int, poll_id: u64)
    requires
        ledger.wf(),
        ledger.poll_at(i, poll_id),
    ensures
        ledger.has_poll(poll_id),
        ledger.poll_index(poll_id) == i,
        ledger.poll(poll_id) == ledger.polls[i],
{
    assert(ledger.poll_at(ledger.poll_index(poll_id), poll_id));
}

/// In a well-formed ledger a candidate stands at one position only, which is
/// therefore the one that `candidate_index` names.
pub proof fn lemma_candidate_found(
    ledger: LedgerView,
    i: int,
    poll_id: u64,
    candidate_name: Seq<char>,
)
    requires
        ledger.wf(),
        ledger.candidate_at(i, poll_id, candidate_name),
    ensures
        ledger.has_candidate(poll_id, candidate_name),
        ledger.candidate_index(poll_id, candidate_name) == i,
        ledger.candidate(poll_id, candidate_name) == ledger.candidates[i].candidate,
{
    assert(ledger.candidate_at(
        ledger.candidate_index(poll_id, candidate_name),
        poll_id,
        candidate_name,
    ));
}

/// In a well-formed ledger a voter's record stands at one position only,
/// which is therefore the one that `voter_index` names.
pub proof fn lemma_voter_found(ledger: LedgerView, i: int, poll_id: u64, identity: Seq<u8>)
    requires
        ledger.wf(),
        ledger.voter_at(i, poll_id, identity),
    ensures
        ledger.has_voter(poll_id, identity),
        ledger.voter_index(poll_id, identity) == i,
        ledger.voter_record(poll_id, identity) == ledger.voters[i].record,
{
    assert(ledger.voter_at(ledger.voter_index(poll_id, identity), poll_id, identity));
}

/// The creation of a poll leaves a well-formed ledger well-formed.
pub proof fn lemma_create_keeps_wf(
    ledger: LedgerView,
    poll_id: u64,
    description: Seq<char>,
    poll_start: u64,
    poll_end: u64,
    now: u64,
)
    requires
        ledger.wf(),
    ensures
        ledger.create(poll_id, description, poll_start, poll_end, now) matches Ok(next)
            ==> next.wf(),
{
    if let Ok(next) = ledger.create(poll_id, description, poll_start, poll_end, now) {
        let added = ledger.polls.len() as int;
        assert forall|i: int, j: int, id: u64|
            #![trigger next.poll_at(i, id), next.poll_at(j, id)]
            next.poll_at(i, id) && next.poll_at(j, id) implies i == j by {
            if i < added {
                assert(ledger.poll_at(i, id));
            }
            if j < added {
                assert(ledger.poll_at(j, id));
            }
        }
        assert forall|i: int, j: int, id: u64, name: Seq<char>|
            #![trigger next.candidate_at(i, id, name), next.candidate_at(j, id, name)]
            next.candidate_at(i, id, name) && next.candidate_at(j, id, name) implies i == j by {
            assert(ledger.candidate_at(i, id, name) && ledger.candidate_at(j, id, name));
        }
        assert forall|i: int, j: int, id: u64, identity: Seq<u8>|
            #![trigger next.voter_at(i, id, identity), next.voter_at(j, id, identity)]
            next.voter_at(i, id, identity) && next.voter_at(j, id, identity) implies i == j by {
            assert(ledger.voter_at(i, id, identity) && ledger.voter_at(j, id, identity));
        }
        assert forall|id: u64| ledger.has_poll(id) implies next.has_poll(id) by {
            assert(next.poll_at(ledger.poll_index(id), id));
        }
        assert forall|i: int| 0 <= i < ledger.candidates.len() implies (
        #[trigger] ledger.candidates[i]).poll_id != poll_id by {
            assert(ledger.has_poll(ledger.candidates[i].poll_id));
        }
        assert forall|i: int| 0 <= i < ledger.voters.len() implies (
        #[trigger] ledger.voters[i]).poll_id != poll_id by {
            assert(ledger.has_poll(ledger.voters[i].poll_id));
        }
        lemma_no_candidates(ledger.candidates, poll_id);
        lemma_no_voters(ledger.voters, poll_id);
        assert forall|i: int| #![trigger next.polls[i]] 0 <= i < next.polls.len() implies {
            &&& next.polls[i].window_ordered()
            &&& next.polls[i].fits()
            &&& next.counts_agree(next.polls[i])
        } by {
            if i < added {
                assert(next.polls[i] == ledger.polls[i]);
                assert(ledger.counts_agree(ledger.polls[i]));
            }
        }
    }
}

/// The registration of a candidate leaves a well-formed ledger well-formed.
pub proof fn lemma_register_keeps_wf(ledger: LedgerView, poll_id: u64, candidate_name: Seq<char>)
    requires
        ledger.wf(),
    ensures
        ledger.register(poll_id, candidate_name) matches Ok(next) ==> next.wf(),
{
    if let Ok(next) = ledger.register(poll_id, candidate_name) {
        let p = ledger.poll_index(poll_id);
        let added = ledger.candidates.len() as int;
        let slot = CandidateSlot { poll_id, candidate: CandidateView::fresh(candidate_name) };
        assert(ledger.poll_at(p, poll_id));
        assert forall|i: int, id: u64| next.poll_at(i, id) == ledger.poll_at(i, id) by {}
        assert forall|i: int, j: int, id: u64|
            #![trigger next.poll_at(i, id), next.poll_at(j, id)]
            next.poll_at(i, id) && next.poll_at(j, id) implies i == j by {
            assert(ledger.poll_at(i, id) && ledger.poll_at(j, id));
        }
        assert forall|i: int, j: int, id: u64, name: Seq<char>|
            #![trigger next.candidate_at(i, id, name), next.candidate_at(j, id, name)]
            next.candidate_at(i, id, name) && next.candidate_at(j, id, name) implies i == j by {
            if i < added {
                assert(ledger.candidate_at(i, id, name));
            }
            if j < added {
                assert(ledger.candidate_at(j, id, name));
            }
        }
        assert forall|i: int, j: int, id: u64, identity: Seq<u8>|
            #![trigger next.voter_at(i, id, identity), next.voter_at(j, id, identity)]
            next.voter_at(i, id, identity) && next.voter_at(j, id, identity) implies i == j by {
            assert(ledger.voter_at(i, id, identity) && ledger.voter_at(j, id, identity));
        }
        assert forall|id: u64| ledger.has_poll(id) implies next.has_poll(id) by {
            assert(next.poll_at(ledger.poll_index(id), id));
        }
        assert forall|i: int| 0 <= i < next.candidates.len() implies next.has_poll(
            (#[trigger] next.candidates[i]).poll_id,
        ) by {
            if i < added {
                assert(next.candidates[i] == ledger.candidates[i]);
                assert(ledger.has_poll(ledger.candidates[i].poll_id));
            }
        }
        assert forall|i: int| 0 <= i < next.voters.len() implies next.has_poll(
            (#[trigger] next.voters[i]).poll_id,
        ) by {
            assert(ledger.has_poll(ledger.voters[i].poll_id));
        }
        assert forall|i: int| 0 <= i < next.candidates.len() implies (
        #[trigger] next.candidates[i]).candidate.fits() by {
            if i < added {
                assert(next.candidates[i] == ledger.candidates[i]);
            }
        }
        assert forall|i: int| #![trigger next.polls[i]] 0 <= i < next.polls.len() implies {
            &&& next.polls[i].window_ordered()
            &&& next.polls[i].fits()
            &&& next.counts_agree(next.polls[i])
        } by {
            let id = ledger.polls[i].poll_id;
            assert(ledger.counts_agree(ledger.polls[i]));
            assert(ledger.poll_at(i, id));
            lemma_candidate_added(ledger.candidates, slot, id);
        }
    }
}

/// A vote leaves a well-formed ledger well-formed.
pub proof fn lemma_cast_vote_keeps_wf(
    ledger: LedgerView,
    poll_id: u64,
    candidate_name: Seq<char>,
    identity: Seq<u8>,
    now: u64,
)
    requires
        ledger.wf(),
    ensures
        ledger.cast_vote(poll_id, candidate_name, identity, now) matches Ok(next) ==> next.wf(),
{
    if let Ok(next) = ledger.cast_vote(poll_id, candidate_name, identity, now) {
        let p = ledger.poll_index(poll_id);
        let c = ledger.candidate_index(poll_id, candidate_name);
        let v = ledger.voter_index(poll_id, identity);
        let known = ledger.has_voter(poll_id, identity);
        let chosen = CandidateSlot {
            poll_id,
            candidate: ledger.candidates[c].candidate.with_one_more_vote(),
        };
        let marked = VoterSlot { poll_id, identity, record: VoterRecord { has_voted: true } };
        assert(ledger.poll_at(p, poll_id));
        assert(ledger.candidate_at(c, poll_id, candidate_name));
        assert(known ==> ledger.voter_at(v, poll_id, identity));
        assert(known ==> !ledger.voters[v].record.has_voted);
        assert forall|i: int, id: u64| next.poll_at(i, id) == ledger.poll_at(i, id) by {}
        assert forall|i: int, id: u64, name: Seq<char>|
            next.candidate_at(i, id, name) == ledger.candidate_at(i, id, name) by {}
        assert forall|i: int, j: int, id: u64|
            #![trigger next.poll_at(i, id), next.poll_at(j, id)]
            next.poll_at(i, id) && next.poll_at(j, id) implies i == j by {
            assert(ledger.poll_at(i, id) && ledger.poll_at(j, id));
        }
        assert forall|i: int, j: int, id: u64, name: Seq<char>|
            #![trigger next.candidate_at(i, id, name), next.candidate_at(j, id, name)]
            next.candidate_at(i, id, name) && next.candidate_at(j, id, name) implies i == j by {
            assert(ledger.candidate_at(i, id, name) && ledger.candidate_at(j, id, name));
        }
        assert forall|i: int, j: int, id: u64, who: Seq<u8>|
            #![trigger next.voter_at(i, id, who), next.voter_at(j, id, who)]
            next.voter_at(i, id, who) && next.voter_at(j, id, who) implies i == j by {
            if known {
                assert(ledger.voter_at(i, id, who) && ledger.voter_at(j, id, who));
            } else {
                if i < ledger.voters.len() {
                    assert(ledger.voter_at(i, id, who));
                }
                if j < ledger.voters.len() {
                    assert(ledger.voter_at(j, id, who));
                }
            }
        }
        assert forall|id: u64| ledger.has_poll(id) implies next.has_poll(id) by {
            assert(next.poll_at(ledger.poll_index(id), id));
        }
        assert forall|i: int| 0 <= i < next.candidates.len() implies next.has_poll(
            (#[trigger] next.candidates[i]).poll_id,
        ) by {
            assert(ledger.has_poll(ledger.candidates[i].poll_id));
        }
        assert forall|i: int| 0 <= i < next.voters.len() implies next.has_poll(
            (#[trigger] next.voters[i]).poll_id,
        ) by {
            if i < ledger.voters.len() {
                assert(ledger.has_poll(ledger.voters[i].poll_id));
            }
        }
        assert forall|i: int| 0 <= i < next.candidates.len() implies (
        #[trigger] next.candidates[i]).candidate.fits() by {
            assert(ledger.candidates[i].candidate.fits());
        }
        assert forall|i: int| #![trigger next.polls[i]] 0 <= i < next.polls.len() implies {
            &&& next.polls[i].window_ordered()
            &&& next.polls[i].fits()
            &&& next.counts_agree(next.polls[i])
        } by {
            let id = ledger.polls[i].poll_id;
            assert(ledger.counts_agree(ledger.polls[i]));
            assert(ledger.poll_at(i, id));
            lemma_candidate_replaced(ledger.candidates, c, chosen, id);
            if known {
                lemma_voter_replaced(ledger.voters, v, marked, id);
            } else {
                lemma_voter_added(ledger.voters, marked, id);
            }
        }
    }
}

/// A poll that was created stands in the ledger as it was made: with its
/// window and description, no candidate and no vote.
pub proof fn lemma_created_poll_stands(
    ledger: LedgerView,
    poll_id: u64,
    description: Seq<char>,
    poll_start: u64,
    poll_end: u64,
    now: u64,
)
    requires
        ledger.wf(),
    ensures
        ledger.create(poll_id, description, poll_start, poll_end, now) matches Ok(next) ==> {
            &&& !ledger.has_poll(poll_id)
            &&& next.has_poll(poll_id)
            &&& next.poll(poll_id) == PollView::fresh(poll_id, description, poll_start, poll_end)
        },
{
    if let Ok(next) = ledger.create(poll_id, description, poll_start, poll_end, now) {
        lemma_create_keeps_wf(ledger, poll_id, description, poll_start, poll_end, now);
        assert(next.poll_at(ledger.polls.len() as int, poll_id));
        lemma_poll_found(next, ledger.polls.len() as int, poll_id);
    }
}

/// A candidate that was registered stands in the ledger with no vote, and
/// its poll counts one candidate more and is otherwise as before.
pub proof fn lemma_registered_candidate_stands(
    ledger: LedgerView,
    poll_id: u64,
    candidate_name: Seq<char>,
)
    requires
        ledger.wf(),
    ensures
        ledger.register(poll_id, candidate_name) matches Ok(next) ==> {
            &&& !ledger.has_candidate(poll_id, candidate_name)
            &&& next.has_candidate(poll_id, candidate_name)
            &&& next.candidate(poll_id, candidate_name) == CandidateView::fresh(candidate_name)
            &&& ledger.has_poll(poll_id)
            &&& next.has_poll(poll_id)
            &&& next.poll(poll_id) == ledger.poll(poll_id).with_one_more_candidate()
        },
{
    if let Ok(next) = ledger.register(poll_id, candidate_name) {
        let p = ledger.poll_index(poll_id);
        lemma_register_keeps_wf(ledger, poll_id, candidate_name);
        assert(ledger.poll_at(p, poll_id));
        assert(next.poll_at(p, poll_id));
        lemma_poll_found(next, p, poll_id);
        assert(next.candidate_at(ledger.candidates.len() as int, poll_id, candidate_name));
        lemma_candidate_found(next, ledger.candidates.len() as int, poll_id, candidate_name);
    }
}

/// A vote that counted was cast by a voter who had not voted, and leaves
/// the voter marked, the candidate with one vote more and the poll with one
/// vote more; poll and candidate are otherwise as before.
pub proof fn lemma_counted_vote_stands(
    ledger: LedgerView,
    poll_id: u64,
    candidate_name: Seq<char>,
    identity: Seq<u8>,
    now: u64,
)
    requires
        ledger.wf(),
    ensures
        ledger.cast_vote(poll_id, candidate_name, identity, now) matches Ok(next) ==> {
            &&& !ledger.has_voted(poll_id, identity)
            &&& next.has_voted(poll_id, identity)
            &&& ledger.has_poll(poll_id)
            &&& next.has_poll(poll_id)
            &&& ledger.poll(poll_id).is_open_at(now)
            &&& next.poll(poll_id) == ledger.poll(poll_id).with_one_more_vote()
            &&& ledger.has_candidate(poll_id, candidate_name)
            &&& next.has_candidate(poll_id, candidate_name)
            &&& next.candidate(poll_id, candidate_name) == ledger.candidate(
                poll_id,
                candidate_name,
            ).with_one_more_vote()
        },
{
    if let Ok(next) = ledger.cast_vote(poll_id, candidate_name, identity, now) {
        let p = ledger.poll_index(poll_id);
        let c = ledger.candidate_index(poll_id, candidate_name);
        let v = ledger.voter_index(poll_id, identity);
        lemma_cast_vote_keeps_wf(ledger, poll_id, candidate_name, identity, now);
        assert(ledger.poll_at(p, poll_id));
        assert(next.poll_at(p, poll_id));
        lemma_poll_found(next, p, poll_id);
        assert(ledger.candidate_at(c, poll_id, candidate_name));
        assert(next.candidate_at(c, poll_id, candidate_name));
        lemma_candidate_found(next, c, poll_id, candidate_name);
        if ledger.has_voter(poll_id, identity) {
            assert(ledger.voter_at(v, poll_id, identity));
            assert(next.voter_at(v, poll_id, identity));
            lemma_voter_found(next, v, poll_id, identity);
        } else {
            assert(next.voter_at(ledger.voters.len() as int, poll_id, identity));
            lemma_voter_found(next, ledger.voters.len() as int, poll_id, identity);
        }
    }
}

} // verus!
