//! Sequences of requests, and what a ledger becomes when it answers them one
//! after the other.

use vstd::prelude::*;

use crate::error::LedgerError;
use crate::model::LedgerView;

verus! {

/// One call of one of the three operations, with its arguments.
pub enum Request {
    Create { poll_id: u64, description: Seq<char>, poll_start: u64, poll_end: u64, now: u64 },
    Register { poll_id: u64, candidate_name: Seq<char> },
    CastVote { poll_id: u64, candidate_name: Seq<char>, identity: Seq<u8>, now: u64 },
}

impl Request {
    /// The request registers a candidate in this poll.
    pub open spec fn registers_in(self, poll_id: u64) -> bool {
        self matches Request::Register { poll_id: target, .. } && target == poll_id
    }

    /// The request casts the vote of this voter in this poll.
    pub open spec fn votes_as(self, poll_id: u64, identity: Seq<u8>) -> bool {
        self matches Request::CastVote { poll_id: target, identity: voter, .. } && target == poll_id
            && voter == identity
    }
}

impl LedgerView {
    /// What the request makes of the ledger, or why it is turned down.
    pub open spec fn respond(self, request: Request) -> Result<LedgerView, LedgerError> {
        match request {
            Request::Create { poll_id, description, poll_start, poll_end, now } => self.create(
                poll_id,
                description,
                poll_start,
                poll_end,
                now,
            ),
            Request::Register { poll_id, candidate_name } => self.register(
                poll_id,
                candidate_name,
            ),
            Request::CastVote { poll_id, candidate_name, identity, now } => self.cast_vote(
                poll_id,
                candidate_name,
                identity,
                now,
            ),
        }
    }

    /// The ledger after the request: changed as `respond` says where the
    /// request succeeds, and unchanged where it is turned down.
    pub open spec fn after(self, request: Request) -> LedgerView {
        match self.respond(request) {
            Ok(next) => next,
            Err(_) => self,
        }
    }

    /// The ledger after all the requests, taken in their order.
    pub open spec fn replay(self, requests: Seq<Request>) -> LedgerView
        decreases requests.len(),
    {
        if requests.len() == 0 {
            self
        } else {
            self.replay(requests.drop_last()).after(requests.last())
        }
    }

    /// How many of the requests succeed in registering a candidate in this
    /// poll, when the ledger answers them in their order.
    pub open spec fn registrations(self, requests: Seq<Request>, poll_id: u64) -> nat
        decreases requests.len(),
    {
        if requests.len() == 0 {
            0
        } else {
            let before = self.replay(requests.drop_last());
            self.registrations(requests.drop_last(), poll_id) + if requests.last().registers_in(
                poll_id,
            ) && before.respond(requests.last()) is Ok {
                1nat
            } else {
                0nat
            }
        }
    }

    /// How many of the requests succeed in casting the vote of this voter in
    /// this poll, when the ledger answers them in their order.
    pub open spec fn ballots_counted(
        self,
        requests: Seq<Request>,
        poll_id: u64,
        identity: Seq<u8>,
    ) -> nat
        decreases requests.len(),
    {
        if requests.len() == 0 {
            0
        } else {
            let before = self.replay(requests.drop_last());
            self.ballots_counted(requests.drop_last(), poll_id, identity)
                + if requests.last().votes_as(poll_id, identity) && before.respond(
                requests.last(),
            ) is Ok {
                1nat
            } else {
                0nat
            }
        }
    }
}

} // verus!
