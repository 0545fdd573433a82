use voting::error::{LedgerError, VotingError};
use voting::instructions::VoteReceipt;
use voting::ledger::Ledger;
use voting::state::{Candidate, Identity, Poll, VoterRecord};

fn voter(n: u8) -> Identity {
    Identity { key: [n; 32] }
}

fn name(text: &str) -> String {
    text.to_string()
}

/// A ledger with poll 1, open from 100 to 200, and the candidates Ada and
/// Bob.
fn election() -> Ledger {
    let mut ledger = Ledger::new();
    ledger.create(1, name("Chair"), 100, 200, 50).unwrap();
    ledger.register(1, name("Ada")).unwrap();
    ledger.register(1, name("Bob")).unwrap();
    ledger
}

fn tally(ledger: &Ledger, poll_id: u64, names: &[&str]) -> u64 {
    names.iter().map(|n| ledger.candidate(poll_id, &name(n)).unwrap().candidate_votes).sum()
}

#[test]
fn a_new_ledger_holds_nothing() {
    let ledger = Ledger::new();
    assert_eq!(ledger.poll(0), None);
    assert_eq!(ledger.poll(1), None);
    assert_eq!(ledger.candidate(1, &name("Ada")), None);
    assert_eq!(ledger.voter_record(1, &voter(1)), VoterRecord { has_voted: false });
}

#[test]
fn create_stores_and_returns_the_poll() {
    let mut ledger = Ledger::new();
    let expected = Poll {
        poll_id: 5,
        description: name("Budget"),
        poll_start: 20,
        poll_end: 30,
        candidate_amount: 0,
        total_votes: 0,
    };
    assert_eq!(ledger.create(5, name("Budget"), 20, 30, 10), Ok(expected.clone()));
    assert_eq!(ledger.poll(5), Some(&expected));
    assert_eq!(ledger.poll(6), None);
}

#[test]
fn create_rejects_each_broken_ordering_and_stores_nothing() {
    let mut ledger = Ledger::new();
    assert_eq!(
        ledger.create(1, name("x"), 10, 30, 10),
        Err(LedgerError::Rule(VotingError::PollStartInPast))
    );
    assert_eq!(
        ledger.create(1, name("x"), 20, 10, 10),
        Err(LedgerError::Rule(VotingError::PollEndInPast))
    );
    assert_eq!(
        ledger.create(1, name("x"), 30, 20, 10),
        Err(LedgerError::Rule(VotingError::PollEndBeforeStart))
    );
    assert_eq!(
        ledger.create(1, name("x"), 30, 30, 10),
        Err(LedgerError::Rule(VotingError::PollEndBeforeStart))
    );
    assert_eq!(ledger.poll(1), None);
    assert!(ledger.create(1, name("x"), 11, 12, 10).is_ok());
}

#[test]
fn create_rejects_a_taken_identifier() {
    let mut ledger = election();
    let before = ledger.poll(1).cloned();
    assert_eq!(ledger.create(1, name("Again"), 300, 400, 250), Err(LedgerError::PollExists));
    assert_eq!(ledger.poll(1).cloned(), before);
}

#[test]
fn a_broken_ordering_is_named_even_for_a_taken_identifier() {
    let mut ledger = election();
    assert_eq!(
        ledger.create(1, name("Again"), 300, 200, 250),
        Err(LedgerError::Rule(VotingError::PollEndInPast))
    );
}

#[test]
fn create_measures_the_description() {
    let mut ledger = Ledger::new();
    assert!(ledger.create(1, "d".repeat(200), 20, 30, 10).is_ok());
    assert_eq!(ledger.create(2, "d".repeat(201), 20, 30, 10), Err(LedgerError::TextTooLong));
    assert_eq!(ledger.poll(2), None);
    // 101 letters of two bytes each.
    assert_eq!(ledger.create(3, "é".repeat(101), 20, 30, 10), Err(LedgerError::TextTooLong));
    assert!(ledger.create(3, "é".repeat(100), 20, 30, 10).is_ok());
    // The identifier is looked at before the length.
    assert_eq!(ledger.create(1, "d".repeat(201), 20, 30, 10), Err(LedgerError::PollExists));
    // The window is looked at before both.
    assert_eq!(
        ledger.create(1, "d".repeat(201), 5, 30, 10),
        Err(LedgerError::Rule(VotingError::PollStartInPast))
    );
}

#[test]
fn register_stores_and_returns_the_candidate() {
    let mut ledger = Ledger::new();
    ledger.create(1, name("Chair"), 100, 200, 50).unwrap();
    let ada = Candidate { candidate_name: name("Ada"), candidate_votes: 0 };
    assert_eq!(ledger.register(1, name("Ada")), Ok(ada.clone()));
    assert_eq!(ledger.candidate(1, &name("Ada")), Some(&ada));
    assert_eq!(ledger.candidate(1, &name("Bob")), None);
    assert_eq!(ledger.candidate(2, &name("Ada")), None);
    assert_eq!(ledger.poll(1).unwrap().candidate_amount, 1);
    assert_eq!(ledger.poll(1).unwrap().total_votes, 0);
    assert_eq!(ledger.poll(1).unwrap().description, "Chair");
}

#[test]
fn register_needs_the_poll() {
    let mut ledger = election();
    assert_eq!(ledger.register(2, name("Ada")), Err(LedgerError::PollMissing));
    assert_eq!(ledger.candidate(2, &name("Ada")), None);
    assert_eq!(ledger.poll(1).unwrap().candidate_amount, 2);
}

#[test]
fn register_rejects_a_taken_name() {
    let mut ledger = election();
    assert_eq!(ledger.register(1, name("Ada")), Err(LedgerError::CandidateExists));
    assert_eq!(ledger.poll(1).unwrap().candidate_amount, 2);
}

#[test]
fn the_same_name_may_stand_in_two_polls() {
    let mut ledger = election();
    ledger.create(2, name("Treasurer"), 100, 200, 50).unwrap();
    assert!(ledger.register(2, name("Ada")).is_ok());
    assert_eq!(ledger.poll(1).unwrap().candidate_amount, 2);
    assert_eq!(ledger.poll(2).unwrap().candidate_amount, 1);
}

#[test]
fn register_measures_the_name() {
    let mut ledger = election();
    assert!(ledger.register(1, "n".repeat(32)).is_ok());
    assert_eq!(ledger.register(1, "n".repeat(33)), Err(LedgerError::TextTooLong));
    assert_eq!(ledger.candidate(1, &"n".repeat(33)), None);
    assert_eq!(ledger.poll(1).unwrap().candidate_amount, 3);
    // The poll is looked at before the length.
    assert_eq!(ledger.register(9, "n".repeat(33)), Err(LedgerError::PollMissing));
}

#[test]
fn register_ignores_the_window() {
    // Nothing tells registration the time: a poll whose window is long past
    // for every voter still takes candidates.
    let mut ledger = Ledger::new();
    ledger.create(1, name("Chair"), 1, 2, 0).unwrap();
    assert_eq!(
        ledger.cast_vote(1, name("Ada"), voter(1), 3),
        Err(LedgerError::Rule(VotingError::PollEnded))
    );
    assert!(ledger.register(1, name("Ada")).is_ok());
}

#[test]
fn n_registrations_are_counted_as_n() {
    let mut ledger = Ledger::new();
    ledger.create(1, name("Chair"), 100, 200, 50).unwrap();
    ledger.create(2, name("Other"), 100, 200, 50).unwrap();
    let mut succeeded = 0;
    for n in 0..40 {
        // Every fourth name is a repeat and is turned down.
        let candidate = format!("candidate {}", if n % 4 == 3 { n - 1 } else { n });
        if ledger.register(1, candidate).is_ok() {
            succeeded += 1;
        }
        let _ = ledger.register(2, format!("other {n}"));
        assert_eq!(ledger.poll(1).unwrap().candidate_amount, succeeded);
    }
    assert_eq!(succeeded, 30);
    assert_eq!(ledger.poll(1).unwrap().candidate_amount, 30);
    assert_eq!(ledger.poll(2).unwrap().candidate_amount, 40);
}

#[test]
fn cast_vote_counts_and_reports() {
    let mut ledger = election();
    assert_eq!(
        ledger.cast_vote(1, name("Ada"), voter(1), 150),
        Ok(VoteReceipt { candidate_name: name("Ada"), candidate_votes: 1, total_votes: 1 })
    );
    assert_eq!(
        ledger.cast_vote(1, name("Bob"), voter(2), 150),
        Ok(VoteReceipt { candidate_name: name("Bob"), candidate_votes: 1, total_votes: 2 })
    );
    assert_eq!(
        ledger.cast_vote(1, name("Ada"), voter(3), 150),
        Ok(VoteReceipt { candidate_name: name("Ada"), candidate_votes: 2, total_votes: 3 })
    );
    assert_eq!(ledger.candidate(1, &name("Ada")).unwrap().candidate_votes, 2);
    assert_eq!(ledger.candidate(1, &name("Bob")).unwrap().candidate_votes, 1);
    assert_eq!(ledger.poll(1).unwrap().total_votes, 3);
    assert_eq!(ledger.poll(1).unwrap().candidate_amount, 2);
    assert!(ledger.voter_record(1, &voter(1)).has_voted);
    assert!(ledger.voter_record(1, &voter(2)).has_voted);
    assert!(ledger.voter_record(1, &voter(3)).has_voted);
    assert!(!ledger.voter_record(1, &voter(4)).has_voted);
}

#[test]
fn cast_vote_needs_the_poll() {
    let mut ledger = election();
    assert_eq!(ledger.cast_vote(2, name("Ada"), voter(1), 150), Err(LedgerError::PollMissing));
    assert!(!ledger.voter_record(2, &voter(1)).has_voted);
}

#[test]
fn cast_vote_needs_the_candidate() {
    let mut ledger = election();
    assert_eq!(
        ledger.cast_vote(1, name("Cyd"), voter(1), 150),
        Err(LedgerError::CandidateMissing)
    );
    assert!(!ledger.voter_record(1, &voter(1)).has_voted);
    assert_eq!(ledger.poll(1).unwrap().total_votes, 0);
    // The voter may still vote.
    assert!(ledger.cast_vote(1, name("Ada"), voter(1), 150).is_ok());
}

#[test]
fn the_rules_are_heard_before_the_missing_candidate() {
    let mut ledger = election();
    assert_eq!(
        ledger.cast_vote(1, name("Cyd"), voter(1), 99),
        Err(LedgerError::Rule(VotingError::PollNotStarted))
    );
    assert_eq!(
        ledger.cast_vote(1, name("Cyd"), voter(1), 201),
        Err(LedgerError::Rule(VotingError::PollEnded))
    );
    ledger.cast_vote(1, name("Ada"), voter(1), 150).unwrap();
    assert_eq!(
        ledger.cast_vote(1, name("Cyd"), voter(1), 150),
        Err(LedgerError::Rule(VotingError::AlreadyVoted))
    );
}

#[test]
fn the_window_includes_both_ends() {
    let mut ledger = election();
    assert_eq!(
        ledger.cast_vote(1, name("Ada"), voter(1), 99),
        Err(LedgerError::Rule(VotingError::PollNotStarted))
    );
    assert!(ledger.cast_vote(1, name("Ada"), voter(1), 100).is_ok());
    assert!(ledger.cast_vote(1, name("Ada"), voter(2), 200).is_ok());
    assert_eq!(
        ledger.cast_vote(1, name("Ada"), voter(3), 201),
        Err(LedgerError::Rule(VotingError::PollEnded))
    );
    assert_eq!(ledger.poll(1).unwrap().total_votes, 2);
}

#[test]
fn a_voter_votes_once_in_each_poll() {
    let mut ledger = election();
    ledger.create(2, name("Treasurer"), 100, 200, 50).unwrap();
    ledger.register(2, name("Ada")).unwrap();
    assert!(ledger.cast_vote(1, name("Ada"), voter(1), 150).is_ok());
    assert!(ledger.cast_vote(2, name("Ada"), voter(1), 150).is_ok());
    assert_eq!(
        ledger.cast_vote(1, name("Bob"), voter(1), 160),
        Err(LedgerError::Rule(VotingError::AlreadyVoted))
    );
    assert_eq!(
        ledger.cast_vote(2, name("Ada"), voter(1), 160),
        Err(LedgerError::Rule(VotingError::AlreadyVoted))
    );
    assert_eq!(ledger.poll(1).unwrap().total_votes, 1);
    assert_eq!(ledger.poll(2).unwrap().total_votes, 1);
    assert_eq!(ledger.candidate(1, &name("Ada")).unwrap().candidate_votes, 1);
    assert_eq!(ledger.candidate(2, &name("Ada")).unwrap().candidate_votes, 1);
}

#[test]
fn retrying_changes_nothing() {
    let mut ledger = election();
    ledger.cast_vote(1, name("Ada"), voter(1), 150).unwrap();
    let poll = ledger.poll(1).cloned();
    let ada = ledger.candidate(1, &name("Ada")).cloned();
    let bob = ledger.candidate(1, &name("Bob")).cloned();
    for now in [0u64, 99, 100, 150, 200, 201, u64::MAX] {
        for choice in ["Ada", "Bob", "Cyd"] {
            assert!(ledger.cast_vote(1, name(choice), voter(1), now).is_err());
            assert_eq!(ledger.poll(1).cloned(), poll);
            assert_eq!(ledger.candidate(1, &name("Ada")).cloned(), ada);
            assert_eq!(ledger.candidate(1, &name("Bob")).cloned(), bob);
            assert!(ledger.voter_record(1, &voter(1)).has_voted);
        }
    }
}

#[test]
fn voters_differ_by_any_byte() {
    let mut ledger = election();
    let mut twin = voter(1);
    twin.key[17] = 0;
    assert!(ledger.cast_vote(1, name("Ada"), voter(1), 150).is_ok());
    assert!(!ledger.voter_record(1, &twin).has_voted);
    assert!(ledger.cast_vote(1, name("Ada"), twin, 150).is_ok());
    assert_eq!(ledger.poll(1).unwrap().total_votes, 2);
}

#[test]
fn the_three_tallies_agree_after_every_vote() {
    let mut ledger = election();
    ledger.register(1, name("Cyd")).unwrap();
    ledger.create(2, name("Treasurer"), 100, 200, 50).unwrap();
    ledger.register(2, name("Ada")).unwrap();
    let names = ["Ada", "Bob", "Cyd"];
    let mut counted = 0;
    for n in 0..60u8 {
        // Every voter tries twice, some too early, some for nobody.
        let who = voter(n / 2);
        let choice = ["Ada", "Bob", "Cyd", "Dee"][usize::from(n % 4)];
        let now = if n % 5 == 0 { 99 } else { 150 };
        if ledger.cast_vote(1, name(choice), who, now).is_ok() {
            counted += 1;
        }
        let _ = ledger.cast_vote(2, name("Ada"), voter(n), 150);
        let voted =
            (0..30u8).filter(|v| ledger.voter_record(1, &voter(*v)).has_voted).count() as u64;
        assert_eq!(ledger.poll(1).unwrap().total_votes, counted);
        assert_eq!(tally(&ledger, 1, &names), counted);
        assert_eq!(voted, counted);
    }
    assert!(counted > 0);
    assert_eq!(ledger.poll(2).unwrap().total_votes, 60);
    assert_eq!(tally(&ledger, 2, &["Ada"]), 60);
    assert_eq!(ledger.poll(1).unwrap().candidate_amount, 3);
}
