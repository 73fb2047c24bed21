use vstd::prelude::*;
use crate::model::{TeamNotes, TeamNotesModel};

verus! {

/// The lock that guards a team's notes. The token is chosen by the client and
/// carries no meaning beyond being compared character for character.
#[derive(Clone, Debug, PartialEq, Eq, Hash)]
pub enum Lock {
    Unlocked,
    Locked(String),
}

impl Default for Lock {
    fn default() -> (r: Lock)
        ensures
            r is Unlocked,
    {
        Lock::Unlocked
    }
}

/// Why a lock operation was refused.
#[derive(Clone, Copy, Debug, PartialEq, Eq, Structural, Hash)]
pub enum LockError {
    /// `acquire` met a lock that some client already holds.
    AlreadyLocked,
    /// The token handed in is not the one the lock holds, or nothing is held.
    TokenMismatch,
}

/// What a lock looks like to contracts: the held token as characters.
pub enum LockModel {
    Unlocked,
    Locked(Seq<char>),
}

impl View for Lock {
    type V = LockModel;

    open spec fn view(&self) -> LockModel {
        match self {
            Lock::Unlocked => LockModel::Unlocked,
            Lock::Locked(t) => LockModel::Locked(t@),
        }
    }
}

/// True when `current` is held with exactly the token `token`.
pub open spec fn held_by(current: LockModel, token: Seq<char>) -> bool {
    current == LockModel::Locked(token)
}

/// The outcome of `acquire` on a lock in state `current` with a fresh token.
pub open spec fn acquire_spec(current: LockModel, token: Seq<char>) -> Result<LockModel, LockError> {
    match current {
        LockModel::Unlocked => Ok(LockModel::Locked(token)),
        LockModel::Locked(_) => Err(LockError::AlreadyLocked),
    }
}

/// The outcome of `release`: unlocked when the token is the held one.
pub open spec fn release_spec(current: LockModel, token: Seq<char>) -> Result<LockModel, LockError> {
    if held_by(current, token) {
        Ok(LockModel::Unlocked)
    } else {
        Err(LockError::TokenMismatch)
    }
}

fn same_token(held: &String, token: &String) -> (r: bool)
    ensures
        r == (held@ == token@),
{
    *held == *token
}

/// Takes the lock for the client that chose `token`. Succeeds only on an
/// unlocked record.
pub fn acquire(current: &Lock, token: String) -> (r: Result<Lock, LockError>)
    ensures
        match r {
            Ok(l) => acquire_spec(current@, token@) == Ok::<LockModel, LockError>(l@),
            Err(e) => acquire_spec(current@, token@) == Err::<LockModel, LockError>(e),
        },
        r is Ok ==> r->Ok_0 == Lock::Locked(token),
{
    match current {
        Lock::Unlocked => Ok(Lock::Locked(token)),
        Lock::Locked(_) => Err(LockError::AlreadyLocked),
    }
}

/// Gives the lock up. Only the exact held token may do so.
pub fn release(current: &Lock, token: &String) -> (r: Result<Lock, LockError>)
    ensures
        match r {
            Ok(l) => release_spec(current@, token@) == Ok::<LockModel, LockError>(l@),
            Err(e) => release_spec(current@, token@) == Err::<LockModel, LockError>(e),
        },
{
    match current {
        Lock::Locked(held) => {
            if same_token(held, token) {
                Ok(Lock::Unlocked)
            } else {
                Err(LockError::TokenMismatch)
            }
        },
        Lock::Unlocked => Err(LockError::TokenMismatch),
    }
}

/// The notes as they stand once an edit is accepted: the submitted content,
/// with the lock given up.
pub open spec fn committed(new_notes: TeamNotesModel) -> TeamNotesModel {
    TeamNotesModel { lock: LockModel::Unlocked, ..new_notes }
}

/// Accepts an edit from the holder of the lock and releases the lock in the
/// same step. Any other token, or an unlocked record, is refused.
pub fn commit_edit(current: &Lock, token: &String, new_notes: TeamNotes) -> (r: Result<
    TeamNotes,
    LockError,
>)
    ensures
        r is Ok <==> held_by(current@, token@),
        r is Ok ==> r->Ok_0@ == committed(new_notes@),
        r is Ok ==> r->Ok_0.lock is Unlocked,
        r is Err ==> r->Err_0 == LockError::TokenMismatch,
{
    match current {
        Lock::Locked(held) => {
            if same_token(held, token) {
                let mut n = new_notes;
                n.lock = Lock::Unlocked;
                Ok(n)
            } else {
                Err(LockError::TokenMismatch)
            }
        },
        Lock::Unlocked => Err(LockError::TokenMismatch),
    }
}

/// Administrative override: unlocks whatever the state, without a token.
pub fn force_unlock(current: &Lock) -> (r: Lock)
    ensures
        r is Unlocked,
{
    Lock::Unlocked
}

/// Mutual exclusion: of two clients that both find the record unlocked, the
/// one whose write lands first holds the lock, and the other, on re-reading,
/// is refused with `AlreadyLocked`, whatever the tokens.
pub proof fn lemma_acquire_exclusive(first: Seq<char>, second: Seq<char>)
    ensures
        acquire_spec(LockModel::Unlocked, first) == Ok::<LockModel, LockError>(
            LockModel::Locked(first),
        ),
        acquire_spec(LockModel::Locked(first), second) == Err::<LockModel, LockError>(
            LockError::AlreadyLocked,
        ),
{
}

/// Token exactness: a token that differs from the held one in any way, a
/// prefix or a change of case included, can neither release the lock nor
/// commit an edit.
pub proof fn lemma_token_exact(held: Seq<char>, token: Seq<char>)
    requires
        held != token,
    ensures
        release_spec(LockModel::Locked(held), token) == Err::<LockModel, LockError>(
            LockError::TokenMismatch,
        ),
        !held_by(LockModel::Locked(held), token),
{
}

} // verus!
