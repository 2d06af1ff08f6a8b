//! The scope of a search: which part of the history is eligible.

use vstd::prelude::*;

verus! {

/// Which history rows are eligible for display.
#[derive(PartialEq, Eq, Structural, Copy, Clone, Debug)]
pub enum Location {
    /// Rows of the current shell session on this host.
    Session,
    /// Rows recorded in the current directory on this host.
    Directory,
    /// Every row recorded on this host.
    Machine,
    /// Every row of the database.
    Everywhere,
}

impl Location {
    /// The scope that follows `self` in the cycle
    /// Session, Directory, Machine, Everywhere, Session.
    pub open spec fn next(self) -> Location {
        match self {
            Location::Session => Location::Directory,
            Location::Directory => Location::Machine,
            Location::Machine => Location::Everywhere,
            Location::Everywhere => Location::Session,
        }
    }

    /// The scope that function key `key` selects, if it selects one.
    pub open spec fn of_key(key: u8) -> Option<Location> {
        if key == 1 {
            Some(Location::Session)
        } else if key == 2 {
            Some(Location::Directory)
        } else if key == 3 {
            Some(Location::Machine)
        } else if key == 4 {
            Some(Location::Everywhere)
        } else {
            None
        }
    }

    /// The position of `self` in the cycle, counted from Session.
    pub open spec fn rank(self) -> nat {
        match self {
            Location::Session => 0,
            Location::Directory => 1,
            Location::Machine => 2,
            Location::Everywhere => 3,
        }
    }

    /// Moves to the next scope of the cycle.
    pub fn advance(self) -> (next: Location)
        ensures
            next == self.next(),
    {
        match self {
            Location::Session => Location::Directory,
            Location::Directory => Location::Machine,
            Location::Machine => Location::Everywhere,
            Location::Everywhere => Location::Session,
        }
    }

    /// The scope bound to function key `key`: keys 1 to 4 name the four
    /// scopes in cycle order, any other key names none.
    pub fn direct(key: u8) -> (scope: Option<Location>)
        ensures
            scope == Location::of_key(key),
            scope is Some <==> 1 <= key <= 4,
    {
        if key == 1 {
            Some(Location::Session)
        } else if key == 2 {
            Some(Location::Directory)
        } else if key == 3 {
            Some(Location::Machine)
        } else if key == 4 {
            Some(Location::Everywhere)
        } else {
            None
        }
    }

    /// The function key that selects `self`.
    pub fn function_key(self) -> (key: u8)
        ensures
            key == self.rank() + 1,
            Location::of_key(key) == Some(self),
    {
        match self {
            Location::Session => 1,
            Location::Directory => 2,
            Location::Machine => 3,
            Location::Everywhere => 4,
        }
    }
}

/// Advancing steps through the cycle one position at a time and wraps
/// around after the last scope.
pub proof fn lemma_advance_steps_rank(scope: Location)
    ensures
        scope.next().rank() == (scope.rank() + 1) % 4,
{
}

/// Four advances lead back to the scope they started from, and fewer do not.
pub proof fn lemma_advance_is_a_four_cycle(scope: Location)
    ensures
        scope.next().next().next().next() == scope,
        scope.next() != scope,
        scope.next().next() != scope,
        scope.next().next().next() != scope,
{
}

/// A function key selects the scope whose rank is one less than the key.
pub proof fn lemma_direct_matches_rank(key: u8)
    ensures
        Location::of_key(key) matches Some(scope) ==> scope.rank() + 1 == key,
{
}

} // verus!
