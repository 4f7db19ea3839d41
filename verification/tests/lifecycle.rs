//! End-to-end tests of the move lifecycle: open, cancel, challenge, and the
//! query operations.

use gawibawibo::fingerprint::fingerprint;
use gawibawibo::ledger::Move;
use gawibawibo::ledger::MoveError;
use gawibawibo::ledger::MoveLedger;
use gawibawibo::ledger::Status;

const ROCKS: &str = "a8241dee1b"; // Rock, Rock, Rock
const PAPERS: &str = "f070fae536"; // Paper, Paper, Paper
const SCISSORS: &str = "41f3de6eed"; // Scissors, Scissors, Scissors

#[test]
fn new_ledger_is_empty() {
    let ledger = MoveLedger::new();
    assert!(ledger.get_move(1).is_none());
    assert_eq!(ledger.records().len(), 0);
}

#[test]
fn open_records_an_unplayed_move() {
    let mut ledger = MoveLedger::new();
    let fp = fingerprint(ROCKS, "owner");
    assert_eq!(ledger.new_move(1, "owner".to_string(), fp.clone()), Ok(()));
    let m = ledger.get_move(1).expect("move must exist");
    assert_eq!(m.id, 1);
    assert_eq!(m.owner, "owner");
    assert_eq!(m.owner_fingerprint, fp);
    assert!(m.adversary.is_none());
    assert!(m.adversary_fingerprint.is_none());
    assert_eq!(m.status, Status::Unplayed);
    assert!(m.winner.is_none());
}

#[test]
fn duplicate_id_is_rejected_and_state_unchanged() {
    let mut ledger = MoveLedger::new();
    let fp = fingerprint(ROCKS, "owner");
    assert_eq!(ledger.new_move(1, "owner".to_string(), fp.clone()), Ok(()));
    let r = ledger.new_move(1, "someone-else".to_string(), "other-fp".to_string());
    assert_eq!(r, Err(MoveError::DuplicateKey));
    assert_eq!(ledger.records().len(), 1);
    let m = ledger.get_move(1).expect("move must exist");
    assert_eq!(m.owner, "owner");
    assert_eq!(m.owner_fingerprint, fp);
    assert_eq!(m.status, Status::Unplayed);
}

#[test]
fn owner_wins_played_match() {
    // Rock sweeps Scissors in all three rounds.
    let mut ledger = MoveLedger::new();
    let owner_fp = fingerprint(ROCKS, "owner-o");
    assert_eq!(ledger.new_move(1, "owner-o".to_string(), owner_fp), Ok(()));
    let adversary_fp = fingerprint(SCISSORS, "adversary-a");
    let outcome = ledger.play_move(1, "adversary-a".to_string(), adversary_fp.clone());
    assert_eq!(outcome, Ok(Some("owner-o".to_string())));
    let m = ledger.get_move(1).expect("move must exist");
    assert_eq!(m.status, Status::Played);
    assert_eq!(m.winner.as_deref(), Some("owner-o"));
    assert_eq!(m.adversary.as_deref(), Some("adversary-a"));
    assert_eq!(m.adversary_fingerprint.as_deref(), Some(adversary_fp.as_str()));
}

#[test]
fn adversary_wins_played_match() {
    // Paper sweeps Rock in all three rounds.
    let mut ledger = MoveLedger::new();
    let owner_fp = fingerprint(ROCKS, "owner-o");
    assert_eq!(ledger.new_move(2, "owner-o".to_string(), owner_fp), Ok(()));
    let adversary_fp = fingerprint(PAPERS, "adversary-a");
    let outcome = ledger.play_move(2, "adversary-a".to_string(), adversary_fp);
    assert_eq!(outcome, Ok(Some("adversary-a".to_string())));
    let m = ledger.get_move(2).expect("move must exist");
    assert_eq!(m.status, Status::Played);
    assert_eq!(m.winner.as_deref(), Some("adversary-a"));
}

#[test]
fn equal_sequences_tie() {
    let mut ledger = MoveLedger::new();
    let owner_fp = fingerprint(ROCKS, "owner-o");
    assert_eq!(ledger.new_move(3, "owner-o".to_string(), owner_fp), Ok(()));
    let adversary_fp = fingerprint(ROCKS, "adversary-a");
    let outcome = ledger.play_move(3, "adversary-a".to_string(), adversary_fp);
    assert_eq!(outcome, Ok(None));
    let m = ledger.get_move(3).expect("move must exist");
    assert_eq!(m.status, Status::Tied);
    assert!(m.winner.is_none());
    assert_eq!(m.adversary.as_deref(), Some("adversary-a"));
}

#[test]
fn self_challenge_is_denied() {
    let mut ledger = MoveLedger::new();
    let owner_fp = fingerprint(ROCKS, "owner-o");
    assert_eq!(ledger.new_move(4, "owner-o".to_string(), owner_fp), Ok(()));
    let own_fp = fingerprint(SCISSORS, "owner-o");
    let r = ledger.play_move(4, "owner-o".to_string(), own_fp);
    assert_eq!(r, Err(MoveError::PermissionDenied));
    let r2 = ledger.play_move(4, "owner-o".to_string(), "garbage".to_string());
    assert_eq!(r2, Err(MoveError::PermissionDenied));
    let m = ledger.get_move(4).expect("move must exist");
    assert_eq!(m.status, Status::Unplayed);
    assert!(m.adversary.is_none());
}

#[test]
fn challenge_on_missing_move_fails() {
    let mut ledger = MoveLedger::new();
    let r = ledger.play_move(9, "adversary-a".to_string(), "fp".to_string());
    assert_eq!(r, Err(MoveError::ValueNotFound));
}

#[test]
fn challenge_on_resolved_move_fails() {
    let mut ledger = MoveLedger::new();
    let owner_fp = fingerprint(ROCKS, "owner-o");
    assert_eq!(ledger.new_move(1, "owner-o".to_string(), owner_fp), Ok(()));
    let adversary_fp = fingerprint(PAPERS, "adversary-a");
    assert!(ledger.play_move(1, "adversary-a".to_string(), adversary_fp).is_ok());
    let late_fp = fingerprint(SCISSORS, "latecomer");
    let r = ledger.play_move(1, "latecomer".to_string(), late_fp);
    assert_eq!(r, Err(MoveError::InvalidArgument));
    let m = ledger.get_move(1).expect("move must exist");
    assert_eq!(m.status, Status::Played);
    assert_eq!(m.adversary.as_deref(), Some("adversary-a"));
}

#[test]
fn challenge_on_cancelled_move_fails() {
    let mut ledger = MoveLedger::new();
    let owner_fp = fingerprint(ROCKS, "owner-o");
    assert_eq!(ledger.new_move(1, "owner-o".to_string(), owner_fp), Ok(()));
    assert_eq!(ledger.cancel_move(1, "owner-o"), Ok(()));
    let adversary_fp = fingerprint(PAPERS, "adversary-a");
    let r = ledger.play_move(1, "adversary-a".to_string(), adversary_fp);
    assert_eq!(r, Err(MoveError::InvalidArgument));
    let m = ledger.get_move(1).expect("move must exist");
    assert_eq!(m.status, Status::Cancelled);
}

#[test]
fn unrecognized_challenge_fingerprint_ties() {
    let mut ledger = MoveLedger::new();
    let owner_fp = fingerprint(ROCKS, "owner-o");
    assert_eq!(ledger.new_move(1, "owner-o".to_string(), owner_fp), Ok(()));
    let outcome = ledger.play_move(1, "adversary-a".to_string(), "stale".to_string());
    assert_eq!(outcome, Ok(None));
    let m = ledger.get_move(1).expect("move must exist");
    assert_eq!(m.status, Status::Tied);
    assert!(m.winner.is_none());
}

#[test]
fn cancel_marks_the_move_cancelled() {
    let mut ledger = MoveLedger::new();
    let owner_fp = fingerprint(ROCKS, "owner-o");
    assert_eq!(ledger.new_move(1, "owner-o".to_string(), owner_fp.clone()), Ok(()));
    assert_eq!(ledger.cancel_move(1, "owner-o"), Ok(()));
    let m = ledger.get_move(1).expect("record is retained");
    assert_eq!(m.status, Status::Cancelled);
    assert_eq!(m.owner, "owner-o");
    assert_eq!(m.owner_fingerprint, owner_fp);
    assert!(m.adversary.is_none());
    assert!(m.winner.is_none());
}

#[test]
fn cancel_by_non_owner_is_denied() {
    let mut ledger = MoveLedger::new();
    let owner_fp = fingerprint(ROCKS, "owner-o");
    assert_eq!(ledger.new_move(1, "owner-o".to_string(), owner_fp), Ok(()));
    assert_eq!(ledger.cancel_move(1, "intruder"), Err(MoveError::PermissionDenied));
    let m = ledger.get_move(1).expect("move must exist");
    assert_eq!(m.status, Status::Unplayed);
}

#[test]
fn cancel_of_missing_move_fails() {
    let mut ledger = MoveLedger::new();
    assert_eq!(ledger.cancel_move(5, "anyone"), Err(MoveError::ValueNotFound));
}

#[test]
fn cancel_after_challenge_is_denied() {
    // The cancellation window closes the instant a challenge is accepted,
    // even when the challenge ended in a tie.
    let mut ledger = MoveLedger::new();
    let owner_fp = fingerprint(ROCKS, "owner-o");
    assert_eq!(ledger.new_move(1, "owner-o".to_string(), owner_fp), Ok(()));
    let adversary_fp = fingerprint(ROCKS, "adversary-a");
    assert_eq!(ledger.play_move(1, "adversary-a".to_string(), adversary_fp), Ok(None));
    assert_eq!(ledger.cancel_move(1, "owner-o"), Err(MoveError::PermissionDenied));
    let m = ledger.get_move(1).expect("move must exist");
    assert_eq!(m.status, Status::Tied);

    let mut ledger2 = MoveLedger::new();
    let owner_fp2 = fingerprint(ROCKS, "owner-o");
    assert_eq!(ledger2.new_move(2, "owner-o".to_string(), owner_fp2), Ok(()));
    let adversary_fp2 = fingerprint(PAPERS, "adversary-a");
    assert!(ledger2.play_move(2, "adversary-a".to_string(), adversary_fp2).is_ok());
    assert_eq!(ledger2.cancel_move(2, "owner-o"), Err(MoveError::PermissionDenied));
    let m2 = ledger2.get_move(2).expect("move must exist");
    assert_eq!(m2.status, Status::Played);
}

#[test]
fn moves_of_returns_only_the_owners_moves_in_id_order() {
    let mut ledger = MoveLedger::new();
    assert_eq!(ledger.new_move(3, "alice".to_string(), "f3".to_string()), Ok(()));
    assert_eq!(ledger.new_move(1, "bob".to_string(), "f1".to_string()), Ok(()));
    assert_eq!(ledger.new_move(2, "alice".to_string(), "f2".to_string()), Ok(()));
    let of_alice = ledger.moves_of("alice");
    assert_eq!(of_alice.len(), 2);
    assert_eq!(of_alice[0].id, 2);
    assert_eq!(of_alice[1].id, 3);
    let of_bob = ledger.moves_of("bob");
    assert_eq!(of_bob.len(), 1);
    assert_eq!(of_bob[0].id, 1);
    assert_eq!(ledger.moves_of("nobody").len(), 0);
}

#[test]
fn unplayed_moves_lists_id_and_owner_in_id_order() {
    let mut ledger = MoveLedger::new();
    assert_eq!(ledger.new_move(5, "alice".to_string(), fingerprint(ROCKS, "alice")), Ok(()));
    assert_eq!(ledger.new_move(2, "bob".to_string(), fingerprint(ROCKS, "bob")), Ok(()));
    assert_eq!(ledger.new_move(8, "carol".to_string(), fingerprint(ROCKS, "carol")), Ok(()));
    let fp = fingerprint(PAPERS, "dave");
    assert!(ledger.play_move(5, "dave".to_string(), fp).is_ok());
    assert_eq!(ledger.cancel_move(2, "bob"), Ok(()));
    let unplayed = ledger.get_unplayed_moves();
    assert_eq!(unplayed.len(), 1);
    assert_eq!(unplayed[0].0, 8);
    assert_eq!(unplayed[0].1, "carol");
}

#[test]
fn restore_accepts_what_records_produced() {
    let mut ledger = MoveLedger::new();
    assert_eq!(ledger.new_move(1, "alice".to_string(), fingerprint(ROCKS, "alice")), Ok(()));
    assert_eq!(ledger.new_move(2, "bob".to_string(), fingerprint(PAPERS, "bob")), Ok(()));
    let fp = fingerprint(SCISSORS, "carol");
    assert!(ledger.play_move(1, "carol".to_string(), fp).is_ok());
    let stored = ledger.records().clone();
    let rebuilt = MoveLedger::restore(stored).expect("stored records are well formed");
    assert_eq!(rebuilt.records().len(), 2);
    let m = rebuilt.get_move(1).expect("move must exist");
    assert_eq!(m.status, Status::Played);
    assert_eq!(m.winner.as_deref(), Some("alice"));
}

#[test]
fn restore_rejects_inconsistent_records() {
    // A winner without Played status breaks the record invariant.
    let bad = vec![Move {
        id: 1,
        owner: "alice".to_string(),
        owner_fingerprint: "fp".to_string(),
        adversary: None,
        adversary_fingerprint: None,
        status: Status::Unplayed,
        winner: Some("alice".to_string()),
    }];
    assert!(MoveLedger::restore(bad).is_none());

    // Identifiers out of order break the ledger invariant.
    let unsorted = vec![
        Move {
            id: 2,
            owner: "alice".to_string(),
            owner_fingerprint: "fp".to_string(),
            adversary: None,
            adversary_fingerprint: None,
            status: Status::Unplayed,
            winner: None,
        },
        Move {
            id: 1,
            owner: "bob".to_string(),
            owner_fingerprint: "fp".to_string(),
            adversary: None,
            adversary_fingerprint: None,
            status: Status::Unplayed,
            winner: None,
        },
    ];
    assert!(MoveLedger::restore(unsorted).is_none());
}

#[test]
fn extreme_identifiers_are_ordinary_keys() {
    let mut ledger = MoveLedger::new();
    assert_eq!(ledger.new_move(u32::MAX, "alice".to_string(), "fa".to_string()), Ok(()));
    assert_eq!(ledger.new_move(0, "bob".to_string(), "fb".to_string()), Ok(()));
    assert_eq!(
        ledger.new_move(u32::MAX, "carol".to_string(), "fc".to_string()),
        Err(MoveError::DuplicateKey)
    );
    let unplayed = ledger.get_unplayed_moves();
    assert_eq!(unplayed.len(), 2);
    assert_eq!(unplayed[0].0, 0);
    assert_eq!(unplayed[1].0, u32::MAX);
}
