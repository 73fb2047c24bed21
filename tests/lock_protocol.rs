use team_notes::{acquire, commit_edit, force_unlock, release, Lock, LockError, Note, TeamNotes};

fn edited_notes() -> TeamNotes {
    let mut n = TeamNotes::default();
    n.driving = String::from("smooth");
    n.entries.push(Note { team: 7, name: String::from("n"), content: String::from("c") });
    n.lock = Lock::Locked(String::from("stale"));
    n
}

#[test]
fn acquire_then_second_acquire_then_commit() {
    let start = Lock::Unlocked;
    let held = acquire(&start, String::from("abc")).unwrap();
    assert_eq!(held, Lock::Locked(String::from("abc")));
    assert_eq!(acquire(&held, String::from("def")), Err(LockError::AlreadyLocked));
    let committed = commit_edit(&held, &String::from("abc"), edited_notes()).unwrap();
    assert_eq!(committed.lock, Lock::Unlocked);
    assert_eq!(committed.driving, "smooth");
    assert_eq!(committed.entries.len(), 1);
}

#[test]
fn racing_acquires_have_one_winner() {
    // Both clients read the same unlocked state; the store accepts the first
    // write, and the second client re-reads and tries again.
    let stored = Lock::Unlocked;
    let first = acquire(&stored, String::from("one")).unwrap();
    let second = acquire(&stored, String::from("two")).unwrap();
    assert_ne!(first, second);
    let stored = first;
    assert_eq!(acquire(&stored, String::from("two")), Err(LockError::AlreadyLocked));
}

#[test]
fn release_with_held_token() {
    let held = Lock::Locked(String::from("abc"));
    assert_eq!(release(&held, &String::from("abc")), Ok(Lock::Unlocked));
}

#[test]
fn release_with_prefix_or_case_variant_fails() {
    let held = Lock::Locked(String::from("abc"));
    assert_eq!(release(&held, &String::from("ab")), Err(LockError::TokenMismatch));
    assert_eq!(release(&held, &String::from("ABC")), Err(LockError::TokenMismatch));
    assert_eq!(release(&held, &String::from("abcd")), Err(LockError::TokenMismatch));
    assert_eq!(release(&held, &String::new()), Err(LockError::TokenMismatch));
}

#[test]
fn release_of_unlocked_fails() {
    assert_eq!(release(&Lock::Unlocked, &String::from("abc")), Err(LockError::TokenMismatch));
}

#[test]
fn commit_with_wrong_token_fails() {
    let held = Lock::Locked(String::from("abc"));
    assert_eq!(commit_edit(&held, &String::from("Abc"), edited_notes()), Err(LockError::TokenMismatch));
    assert_eq!(commit_edit(&held, &String::from("ab"), edited_notes()), Err(LockError::TokenMismatch));
    assert_eq!(
        commit_edit(&Lock::Unlocked, &String::from("abc"), edited_notes()),
        Err(LockError::TokenMismatch)
    );
}

#[test]
fn force_unlock_needs_no_token() {
    assert_eq!(force_unlock(&Lock::Locked(String::from("x"))), Lock::Unlocked);
    assert_eq!(force_unlock(&Lock::Unlocked), Lock::Unlocked);
}

#[test]
fn lock_defaults_to_unlocked() {
    assert_eq!(Lock::default(), Lock::Unlocked);
    assert_eq!(TeamNotes::default().lock, Lock::Unlocked);
}

#[test]
fn new_team_starts_empty_and_unlocked() {
    let data = team_notes::TeamData { id: 5, number: String::from("5"), ..Default::default() };
    let team = team_notes::Team::new(data.clone());
    assert_eq!(team.data, data);
    assert_eq!(team.notes, TeamNotes::default());
    assert_eq!(team.notes.lock, Lock::Unlocked);
    assert!(team.notes.robots.is_empty() && team.notes.members.is_empty());
    assert_eq!(TeamNotes::new(), TeamNotes::default());
}
