//! What holds of the election whatever is asked of it.

use vstd::prelude::*;

use crate::error::{LedgerError, VotingError};
use crate::history::Request;
use crate::instructions::{ballot_fault, creation_fault};
use crate::model::{ballots_cast, roster_size, tallied_votes, LedgerView};
use crate::preservation::{
    lemma_cast_vote_keeps_wf, lemma_create_keeps_wf, lemma_poll_found, lemma_register_keeps_wf,
    lemma_voter_found,
};
use crate::state::{PollView, VoterRecord};

verus! {

/// A poll is created exactly when it opens after the moment of its
/// creation and closes after it opens; it then also closes after that
/// moment. Every other window is turned down with the error of the first
/// ordering that it breaks, and no window is turned down for its closing
/// time alone.
pub proof fn theorem_creation_rules(poll_start: u64, poll_end: u64, now: u64)
    ensures
        creation_fault(poll_start, poll_end, now) is None <==> now < poll_start < poll_end,
        creation_fault(poll_start, poll_end, now) is None ==> now < poll_end,
        creation_fault(poll_start, poll_end, now) == Some(VotingError::PollStartInPast)
            <==> poll_start <= now,
        creation_fault(poll_start, poll_end, now) == Some(VotingError::PollEndInPast) <==> now
            < poll_start && poll_end <= now,
        creation_fault(poll_start, poll_end, now) == Some(VotingError::PollEndBeforeStart) <==> now
            < poll_end <= poll_start,
        creation_fault(poll_start, poll_end, now) != Some(VotingError::InvalidTimestamp),
{
}

/// A window that breaks an ordering keeps the poll out of every ledger,
/// whatever the ledger holds; and a poll that a ledger takes in has an
/// ordered window that lies after the moment of its creation.
pub proof fn theorem_creation_guarded(
    ledger: LedgerView,
    poll_id: u64,
    description: Seq<char>,
    poll_start: u64,
    poll_end: u64,
    now: u64,
)
    ensures
        creation_fault(poll_start, poll_end, now) matches Some(fault) ==> ledger.create(
            poll_id,
            description,
            poll_start,
            poll_end,
            now,
        ) == Err::<LedgerView, LedgerError>(LedgerError::Rule(fault)),
        ledger.create(poll_id, description, poll_start, poll_end, now) matches Ok(next) ==> {
            &&& now < poll_start < poll_end
            &&& next.poll_at(ledger.polls.len() as int, poll_id)
            &&& next.polls[ledger.polls.len() as int] == PollView::fresh(
                poll_id,
                description,
                poll_start,
                poll_end,
            )
        },
{
}

/// A vote cast at the moment the poll opens or at the moment it closes is
/// within the window. A vote cast one unit before the poll opens comes too
/// early, and one cast one unit after it closes comes too late.
pub proof fn theorem_window_includes_both_ends(poll: PollView, record: VoterRecord)
    requires
        poll.window_ordered(),
    ensures
        poll.is_open_at(poll.poll_start),
        poll.is_open_at(poll.poll_end),
        !record.has_voted ==> ballot_fault(poll, record, poll.poll_start) is None,
        !record.has_voted ==> ballot_fault(poll, record, poll.poll_end) is None,
        poll.poll_start > 0 ==> ballot_fault(poll, record, (poll.poll_start - 1) as u64) == Some(
            VotingError::PollNotStarted,
        ),
        poll.poll_end < u64::MAX ==> ballot_fault(poll, record, (poll.poll_end + 1) as u64) == Some(
            VotingError::PollEnded,
        ),
{
}

/// In a ledger, a voter who has not voted yet and votes for a registered
/// candidate succeeds at the moment the poll opens and at the moment it
/// closes, and fails one unit before the first and one unit after the
/// second.
pub proof fn theorem_vote_on_the_boundary(
    ledger: LedgerView,
    poll_id: u64,
    candidate_name: Seq<char>,
    identity: Seq<u8>,
)
    requires
        ledger.wf(),
        ledger.has_poll(poll_id),
        ledger.has_candidate(poll_id, candidate_name),
        !ledger.has_voted(poll_id, identity),
    ensures
        ledger.cast_vote(
            poll_id,
            candidate_name,
            identity,
            ledger.poll(poll_id).poll_start,
        ) is Ok,
        ledger.cast_vote(poll_id, candidate_name, identity, ledger.poll(poll_id).poll_end) is Ok,
        ledger.poll(poll_id).poll_start > 0 ==> ledger.cast_vote(
            poll_id,
            candidate_name,
            identity,
            (ledger.poll(poll_id).poll_start - 1) as u64,
        ) == Err::<LedgerView, LedgerError>(LedgerError::Rule(VotingError::PollNotStarted)),
        ledger.poll(poll_id).poll_end < u64::MAX ==> ledger.cast_vote(
            poll_id,
            candidate_name,
            identity,
            (ledger.poll(poll_id).poll_end + 1) as u64,
        ) == Err::<LedgerView, LedgerError>(LedgerError::Rule(VotingError::PollEnded)),
{
    assert(ledger.poll_at(ledger.poll_index(poll_id), poll_id));
    theorem_window_includes_both_ends(
        ledger.poll(poll_id),
        ledger.voter_record(poll_id, identity),
    );
}

/// Whatever request a well-formed ledger answers, it stays well-formed.
pub proof fn theorem_request_keeps_wf(ledger: LedgerView, request: Request)
    requires
        ledger.wf(),
    ensures
        ledger.after(request).wf(),
{
    match request {
        Request::Create { poll_id, description, poll_start, poll_end, now } => {
            lemma_create_keeps_wf(ledger, poll_id, description, poll_start, poll_end, now);
        },
        Request::Register { poll_id, candidate_name } => {
            lemma_register_keeps_wf(ledger, poll_id, candidate_name);
        },
        Request::CastVote { poll_id, candidate_name, identity, now } => {
            lemma_cast_vote_keeps_wf(ledger, poll_id, candidate_name, identity, now);
        },
    }
}

/// Whatever requests a well-formed ledger answers, it stays well-formed.
/// The empty ledger is well-formed, so every ledger that the requests can
/// reach is.
pub proof fn theorem_replay_keeps_wf(start: LedgerView, requests: Seq<Request>)
    requires
        start.wf(),
    ensures
        start.replay(requests).wf(),
        LedgerView::empty().wf(),
    decreases requests.len(),
{
    if requests.len() > 0 {
        theorem_replay_keeps_wf(start, requests.drop_last());
        theorem_request_keeps_wf(start.replay(requests.drop_last()), requests.last());
    }
}

/// In a well-formed ledger every poll counts as many candidates as are
/// registered under it, and its total of votes is both the sum of the
/// tallies of its candidates and the number of its voters who have voted.
pub proof fn theorem_tallies_agree(ledger: LedgerView, poll_id: u64)
    requires
        ledger.wf(),
        ledger.has_poll(poll_id),
    ensures
        ledger.poll(poll_id).candidate_amount == roster_size(ledger.candidates, poll_id),
        ledger.poll(poll_id).total_votes == tallied_votes(ledger.candidates, poll_id),
        ledger.poll(poll_id).total_votes == ballots_cast(ledger.voters, poll_id),
{
    let p = ledger.poll_index(poll_id);
    assert(ledger.poll_at(p, poll_id));
    assert(ledger.counts_agree(ledger.polls[p]));
}

/// The tallies of every poll agree after any sequence of requests, whether
/// each of them succeeded or not.
pub proof fn theorem_tallies_agree_always(
    start: LedgerView,
    requests: Seq<Request>,
    poll_id: u64,
)
    requires
        start.wf(),
        start.replay(requests).has_poll(poll_id),
    ensures
        start.replay(requests).poll(poll_id).total_votes == tallied_votes(
            start.replay(requests).candidates,
            poll_id,
        ),
        start.replay(requests).poll(poll_id).total_votes == ballots_cast(
            start.replay(requests).voters,
            poll_id,
        ),
{
    theorem_replay_keeps_wf(start, requests);
    theorem_tallies_agree(start.replay(requests), poll_id);
}

/// One request adds one to the number of candidates that a poll counts
/// where it succeeds in registering a candidate in that poll, and nothing
/// otherwise.
proof fn lemma_request_counts_registration(ledger: LedgerView, request: Request, poll_id: u64)
    requires
        ledger.wf(),
    ensures
        ledger.after(request).candidate_amount(poll_id) == ledger.candidate_amount(poll_id)
            + if request.registers_in(poll_id) && ledger.respond(request) is Ok {
            1nat
        } else {
            0nat
        },
{
    let next = ledger.after(request);
    theorem_request_keeps_wf(ledger, request);
    if ledger.respond(request) is Ok {
        if ledger.has_poll(poll_id) {
            let p = ledger.poll_index(poll_id);
            assert(ledger.poll_at(p, poll_id));
            assert(next.poll_at(p, poll_id));
            lemma_poll_found(next, p, poll_id);
            match request {
                Request::Register { poll_id: target, .. } => {
                    assert(ledger.poll_at(ledger.poll_index(target), target));
                },
                Request::CastVote { poll_id: target, .. } => {
                    assert(ledger.poll_at(ledger.poll_index(target), target));
                },
                Request::Create { .. } => {},
            }
        } else {
            if next.has_poll(poll_id) {
                let q = next.poll_index(poll_id);
                assert(next.poll_at(q, poll_id));
                match request {
                    Request::Create { .. } => {
                        if q < ledger.polls.len() {
                            assert(ledger.poll_at(q, poll_id));
                        }
                    },
                    Request::Register { .. } => {
                        assert(ledger.poll_at(q, poll_id));
                    },
                    Request::CastVote { .. } => {
                        assert(ledger.poll_at(q, poll_id));
                    },
                }
            }
        }
    }
}

/// After any sequence of requests a poll counts as many candidates more
/// than before as registrations in it succeeded. A poll that the sequence
/// itself creates therefore counts exactly as many candidates as
/// registrations in it succeeded.
pub proof fn theorem_roster_counts_registrations(
    start: LedgerView,
    requests: Seq<Request>,
    poll_id: u64,
)
    requires
        start.wf(),
    ensures
        start.replay(requests).candidate_amount(poll_id) == start.candidate_amount(poll_id)
            + start.registrations(requests, poll_id),
        !start.has_poll(poll_id) ==> start.replay(requests).candidate_amount(poll_id)
            == start.registrations(requests, poll_id),
    decreases requests.len(),
{
    if requests.len() > 0 {
        theorem_roster_counts_registrations(start, requests.drop_last(), poll_id);
        theorem_replay_keeps_wf(start, requests.drop_last());
        lemma_request_counts_registration(
            start.replay(requests.drop_last()),
            requests.last(),
            poll_id,
        );
    }
}

/// A voter who has voted in a poll is turned down whenever voting there
/// again, for whichever candidate and at whatever time; within the window
/// the reason is that the ballot was cast already.
pub proof fn theorem_repeat_vote_rejected(
    ledger: LedgerView,
    poll_id: u64,
    candidate_name: Seq<char>,
    identity: Seq<u8>,
    now: u64,
)
    requires
        ledger.has_voted(poll_id, identity),
    ensures
        ledger.cast_vote(poll_id, candidate_name, identity, now) is Err,
        ledger.after(
            Request::CastVote { poll_id, candidate_name, identity, now },
        ) == ledger,
        ledger.has_poll(poll_id) && ledger.poll(poll_id).is_open_at(now) ==> ledger.cast_vote(
            poll_id,
            candidate_name,
            identity,
            now,
        ) == Err::<LedgerView, LedgerError>(LedgerError::Rule(VotingError::AlreadyVoted)),
{
}

/// One request marks a voter as having voted in a poll exactly where it
/// succeeds in casting that voter's ballot there, which it can only for a
/// voter not marked yet; and no request takes the mark away.
proof fn lemma_request_counts_ballot(
    ledger: LedgerView,
    request: Request,
    poll_id: u64,
    identity: Seq<u8>,
)
    requires
        ledger.wf(),
    ensures
        ledger.has_voted(poll_id, identity) ==> ledger.after(request).has_voted(
            poll_id,
            identity,
        ),
        request.votes_as(poll_id, identity) && ledger.respond(request) is Ok ==> {
            &&& !ledger.has_voted(poll_id, identity)
            &&& ledger.after(request).has_voted(poll_id, identity)
        },
        !(request.votes_as(poll_id, identity) && ledger.respond(request) is Ok) ==> ledger.after(
            request,
        ).has_voted(poll_id, identity) == ledger.has_voted(poll_id, identity),
{
    let next = ledger.after(request);
    theorem_request_keeps_wf(ledger, request);
    if ledger.respond(request) is Ok {
        match request {
            Request::CastVote { poll_id: target, identity: voter, .. } => {
                let known = ledger.has_voter(target, voter);
                let v = ledger.voter_index(target, voter);
                if known {
                    assert(ledger.voter_at(v, target, voter));
                    assert(next.voter_at(v, target, voter));
                    lemma_voter_found(next, v, target, voter);
                } else {
                    assert(next.voter_at(ledger.voters.len() as int, target, voter));
                    lemma_voter_found(next, ledger.voters.len() as int, target, voter);
                }
                if !(target == poll_id && voter == identity) {
                    if ledger.has_voter(poll_id, identity) {
                        let w = ledger.voter_index(poll_id, identity);
                        assert(ledger.voter_at(w, poll_id, identity));
                        assert(next.voter_at(w, poll_id, identity));
                        lemma_voter_found(next, w, poll_id, identity);
                    } else if next.has_voter(poll_id, identity) {
                        let w = next.voter_index(poll_id, identity);
                        assert(next.voter_at(w, poll_id, identity));
                        if w < ledger.voters.len() {
                            assert(ledger.voter_at(w, poll_id, identity));
                        }
                    }
                }
            },
            _ => {
                assert(next.voters == ledger.voters);
                assert forall|i: int|
                    next.voter_at(i, poll_id, identity) == ledger.voter_at(
                        i,
                        poll_id,
                        identity,
                    ) by {}
            },
        }
    }
}

/// However many requests a ledger answers, it counts at most one ballot of
/// one voter in one poll: none of a voter who had voted before, and the
/// voter is marked as having voted afterwards exactly if the voter was
/// marked before or a ballot of the voter was counted.
pub proof fn theorem_one_ballot_per_voter(
    start: LedgerView,
    requests: Seq<Request>,
    poll_id: u64,
    identity: Seq<u8>,
)
    requires
        start.wf(),
    ensures
        start.ballots_counted(requests, poll_id, identity) <= 1,
        start.has_voted(poll_id, identity) ==> start.ballots_counted(requests, poll_id, identity)
            == 0,
        start.replay(requests).has_voted(poll_id, identity) <==> start.has_voted(poll_id, identity)
            || start.ballots_counted(requests, poll_id, identity) == 1,
    decreases requests.len(),
{
    if requests.len() > 0 {
        theorem_one_ballot_per_voter(start, requests.drop_last(), poll_id, identity);
        theorem_replay_keeps_wf(start, requests.drop_last());
        lemma_request_counts_ballot(
            start.replay(requests.drop_last()),
            requests.last(),
            poll_id,
            identity,
        );
    }
}

} // verus!
