//! The two locks that pin the session or the directory of a search.

use vstd::prelude::*;

verus! {

/// The locks a user has set. A set lock replaces the ambient value it is
/// named after wherever a scope is turned into a filter or a title.
#[derive(Debug)]
pub struct AppState {
    pub focus_session: Option<String>,
    pub focus_dir: Option<String>,
}

/// The locks as plain text.
pub struct Locks {
    pub session: Option<Seq<char>>,
    pub dir: Option<Seq<char>>,
}

impl Locks {
    /// No lock is set.
    pub open spec fn none() -> Locks {
        Locks { session: None, dir: None }
    }

    pub open spec fn lock_session(self, session: Seq<char>) -> Locks {
        Locks { session: Some(session), ..self }
    }

    pub open spec fn unlock_session(self) -> Locks {
        Locks { session: None, ..self }
    }

    pub open spec fn lock_dir(self, dir: Seq<char>) -> Locks {
        Locks { dir: Some(dir), ..self }
    }

    pub open spec fn unlock_dir(self) -> Locks {
        Locks { dir: None, ..self }
    }

    /// The session that a search is held to: the locked one if there is
    /// one, else the ambient one.
    pub open spec fn resolve_session(self, ambient: Seq<char>) -> Seq<char> {
        match self.session {
            Some(locked) => locked,
            None => ambient,
        }
    }

    /// The directory that a search is held to: the locked one if there is
    /// one, else the ambient one.
    pub open spec fn resolve_dir(self, ambient: Seq<char>) -> Seq<char> {
        match self.dir {
            Some(locked) => locked,
            None => ambient,
        }
    }
}

impl View for AppState {
    type V = Locks;

    open spec fn view(&self) -> Locks {
        Locks { session: self.focus_session.deep_view(), dir: self.focus_dir.deep_view() }
    }
}

impl AppState {
    /// A state with no lock set.
    pub fn new() -> (state: AppState)
        ensures
            state@ == Locks::none(),
    {
        AppState { focus_session: None, focus_dir: None }
    }
}

/// Locks the search to `session`.
pub fn focus_session(state: &mut AppState, session: &str)
    ensures
        final(state)@ == old(state)@.lock_session(session@),
{
    state.focus_session = Some(String::from_str(session));
}

/// The locked session, if one is set.
pub fn get_focus_session(state: &AppState) -> (session: Option<String>)
    ensures
        session.deep_view() == state@.session,
{
    match &state.focus_session {
        Some(v) => Some(v.clone()),
        None => None,
    }
}

/// Lifts the session lock.
pub fn reset_focus_session(state: &mut AppState)
    ensures
        final(state)@ == old(state)@.unlock_session(),
{
    state.focus_session = None;
}

/// Locks the search to `dir`.
pub fn focus_dir(state: &mut AppState, dir: &str)
    ensures
        final(state)@ == old(state)@.lock_dir(dir@),
{
    state.focus_dir = Some(String::from_str(dir));
}

/// The locked directory, if one is set.
pub fn get_focus_dir(state: &AppState) -> (dir: Option<String>)
    ensures
        dir.deep_view() == state@.dir,
{
    match &state.focus_dir {
        Some(v) => Some(v.clone()),
        None => None,
    }
}

/// Lifts the directory lock.
pub fn reset_focus_dir(state: &mut AppState)
    ensures
        final(state)@ == old(state)@.unlock_dir(),
{
    state.focus_dir = None;
}

/// A lock that was set is the one that is read back, and it wins over the
/// ambient value; the other lock is untouched.
pub proof fn lemma_lock_is_read_back(locks: Locks, value: Seq<char>, ambient: Seq<char>)
    ensures
        locks.lock_session(value).session == Some(value),
        locks.lock_session(value).dir == locks.dir,
        locks.lock_session(value).resolve_session(ambient) == value,
        locks.lock_dir(value).dir == Some(value),
        locks.lock_dir(value).session == locks.session,
        locks.lock_dir(value).resolve_dir(ambient) == value,
{
}

/// A lifted lock reads back as unset and gives way to the ambient value,
/// whatever was locked before; the other lock is untouched.
pub proof fn lemma_unlock_restores_ambient(locks: Locks, ambient: Seq<char>)
    ensures
        locks.unlock_session().session is None,
        locks.unlock_session().dir == locks.dir,
        locks.unlock_session().resolve_session(ambient) == ambient,
        locks.unlock_dir().dir is None,
        locks.unlock_dir().session == locks.session,
        locks.unlock_dir().resolve_dir(ambient) == ambient,
{
}

/// Setting a lock twice keeps the later value, and the two locks do not
/// depend on the order in which they are set.
pub proof fn lemma_locks_are_independent(locks: Locks, first: Seq<char>, second: Seq<char>)
    ensures
        locks.lock_session(first).lock_session(second) == locks.lock_session(second),
        locks.lock_dir(first).lock_dir(second) == locks.lock_dir(second),
        locks.lock_session(first).lock_dir(second) == locks.lock_dir(second).lock_session(first),
        locks.lock_session(first).unlock_session() == locks.unlock_session(),
        locks.lock_dir(first).unlock_dir() == locks.unlock_dir(),
{
}

} // verus!
