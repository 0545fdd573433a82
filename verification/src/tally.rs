//! How the three tallies of a poll move when a record is added or replaced.

use vstd::prelude::*;

use crate::model::{ballots_cast, roster_size, tallied_votes, CandidateSlot, VoterSlot};

verus! {

/// What `slot` adds to the roster of the poll.
pub open spec fn roster_share(slot: CandidateSlot, poll_id: u64) -> nat {
    if slot.poll_id == poll_id {
        1
    } else {
        0
    }
}

/// What `slot` adds to the tallied votes of the poll.
pub open spec fn tally_share(slot: CandidateSlot, poll_id: u64) -> nat {
    if slot.poll_id == poll_id {
        slot.candidate.candidate_votes
    } else {
        0
    }
}

/// What `slot` adds to the ballots cast in the poll.
pub open spec fn ballot_share(slot: VoterSlot, poll_id: u64) -> nat {
    if slot.poll_id == poll_id && slot.record.has_voted {
        1
    } else {
        0
    }
}

/// A new candidate adds its share to the roster and to the tally.
pub proof fn lemma_candidate_added(slots: Seq<CandidateSlot>, slot: CandidateSlot, poll_id: u64)
    ensures
        roster_size(slots.push(slot), poll_id) == roster_size(slots, poll_id) + roster_share(
            slot,
            poll_id,
        ),
        tallied_votes(slots.push(slot), poll_id) == tallied_votes(slots, poll_id) + tally_share(
            slot,
            poll_id,
        ),
{
    assert(slots.push(slot).drop_last() =~= slots);
}

/// A candidate put in the place of another takes the other's share out of
/// the roster and the tally and adds its own.
pub proof fn lemma_candidate_replaced(
    slots: Seq<CandidateSlot>,
    i: int,
    slot: CandidateSlot,
    poll_id: u64,
)
    requires
        0 <= i < slots.len(),
    ensures
        roster_size(slots.update(i, slot), poll_id) + roster_share(slots[i], poll_id)
            == roster_size(slots, poll_id) + roster_share(slot, poll_id),
        tallied_votes(slots.update(i, slot), poll_id) + tally_share(slots[i], poll_id)
            == tallied_votes(slots, poll_id) + tally_share(slot, poll_id),
    decreases slots.len(),
{
    if i == slots.len() - 1 {
        assert(slots.update(i, slot).drop_last() =~= slots.drop_last());
    } else {
        assert(slots.update(i, slot).drop_last() =~= slots.drop_last().update(i, slot));
        lemma_candidate_replaced(slots.drop_last(), i, slot, poll_id);
    }
}

/// A poll to which no candidate belongs has an empty roster and no tallied
/// vote.
pub proof fn lemma_no_candidates(slots: Seq<CandidateSlot>, poll_id: u64)
    requires
        forall|i: int| 0 <= i < slots.len() ==> (#[trigger] slots[i]).poll_id != poll_id,
    ensures
        roster_size(slots, poll_id) == 0,
        tallied_votes(slots, poll_id) == 0,
    decreases slots.len(),
{
    if slots.len() > 0 {
        assert(slots.last() == slots[slots.len() - 1]);
        assert forall|i: int| 0 <= i < slots.drop_last().len() implies (
        #[trigger] slots.drop_last()[i]).poll_id != poll_id by {
            assert(slots.drop_last()[i] == slots[i]);
        }
        lemma_no_candidates(slots.drop_last(), poll_id);
    }
}

/// A roster is no longer than the list of all candidates.
pub proof fn lemma_roster_bounded(slots: Seq<CandidateSlot>, poll_id: u64)
    ensures
        roster_size(slots, poll_id) <= slots.len(),
    decreases slots.len(),
{
    if slots.len() > 0 {
        lemma_roster_bounded(slots.drop_last(), poll_id);
    }
}

/// The tallied votes of a poll are at least the tally of any one of its
/// candidates.
pub proof fn lemma_tally_covers_candidate(slots: Seq<CandidateSlot>, i: int, poll_id: u64)
    requires
        0 <= i < slots.len(),
    ensures
        tally_share(slots[i], poll_id) <= tallied_votes(slots, poll_id),
    decreases slots.len(),
{
    if i < slots.len() - 1 {
        assert(slots.drop_last()[i] == slots[i]);
        lemma_tally_covers_candidate(slots.drop_last(), i, poll_id);
    }
}

/// A new voter's record adds its share to the ballots cast.
pub proof fn lemma_voter_added(slots: Seq<VoterSlot>, slot: VoterSlot, poll_id: u64)
    ensures
        ballots_cast(slots.push(slot), poll_id) == ballots_cast(slots, poll_id) + ballot_share(
            slot,
            poll_id,
        ),
{
    assert(slots.push(slot).drop_last() =~= slots);
}

/// A record put in the place of another takes the other's share out of the
/// ballots cast and adds its own.
pub proof fn lemma_voter_replaced(slots: Seq<VoterSlot>, i: int, slot: VoterSlot, poll_id: u64)
    requires
        0 <= i < slots.len(),
    ensures
        ballots_cast(slots.update(i, slot), poll_id) + ballot_share(slots[i], poll_id)
            == ballots_cast(slots, poll_id) + ballot_share(slot, poll_id),
    decreases slots.len(),
{
    if i == slots.len() - 1 {
        assert(slots.update(i, slot).drop_last() =~= slots.drop_last());
    } else {
        assert(slots.update(i, slot).drop_last() =~= slots.drop_last().update(i, slot));
        lemma_voter_replaced(slots.drop_last(), i, slot, poll_id);
    }
}

/// A poll to which no record belongs has no ballot cast.
pub proof fn lemma_no_voters(slots: Seq<VoterSlot>, poll_id: u64)
    requires
        forall|i: int| 0 <= i < slots.len() ==> (#[trigger] slots[i]).poll_id != poll_id,
    ensures
        ballots_cast(slots, poll_id) == 0,
    decreases slots.len(),
{
    if slots.len() > 0 {
        assert(slots.last() == slots[slots.len() - 1]);
        assert forall|i: int| 0 <= i < slots.drop_last().len() implies (
        #[trigger] slots.drop_last()[i]).poll_id != poll_id by {
            assert(slots.drop_last()[i] == slots[i]);
        }
        lemma_no_voters(slots.drop_last(), poll_id);
    }
}

/// No more ballots are cast than there are records, and fewer where some
/// record is not marked.
pub proof fn lemma_ballots_bounded(slots: Seq<VoterSlot>, poll_id: u64)
    ensures
        ballots_cast(slots, poll_id) <= slots.len(),
        forall|i: int|
            0 <= i < slots.len() && !(#[trigger] slots[i]).record.has_voted ==> ballots_cast(
                slots,
                poll_id,
            ) < slots.len(),
    decreases slots.len(),
{
    if slots.len() > 0 {
        lemma_ballots_bounded(slots.drop_last(), poll_id);
        assert forall|i: int|
            0 <= i < slots.len() && !(#[trigger] slots[i]).record.has_voted implies ballots_cast(
            slots,
            poll_id,
        ) < slots.len() by {
            if i < slots.len() - 1 {
                assert(slots.drop_last()[i] == slots[i]);
            }
        }
    }
}

} // verus!
