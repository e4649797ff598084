//! Coordinates in the grid of pity states and the two moves between them.

use vstd::prelude::*;

verus! {

/// A state of an item under enhancement: the failure counter, the successes
/// banked so far, and the number of attempts the item was budgeted with.
#[derive(Clone, Copy, Debug, PartialEq, Eq, Structural)]
pub struct Position {
    pub failure: usize,
    pub success: usize,
    pub upgradeable_count: usize,
}

impl Position {
    pub fn new(failure: usize, success: usize, upgradeable_count: usize) -> (position: Self)
        ensures
            position == (Position { failure, success, upgradeable_count }),
    {
        Self { failure, success, upgradeable_count }
    }

    /// The source of the search: the full failure counter and no success yet.
    pub open spec fn spec_initial(upgradeable_count: usize) -> Position {
        Position { failure: upgradeable_count, success: 0, upgradeable_count }
    }

    #[verifier::when_used_as_spec(spec_initial)]
    pub fn initial(upgradeable_count: usize) -> (position: Self)
        ensures
            position == Self::spec_initial(upgradeable_count),
    {
        Self::new(upgradeable_count, 0, upgradeable_count)
    }

    pub fn get_failure(&self) -> (failure: usize)
        ensures
            failure == self.failure,
    {
        self.failure
    }

    pub fn get_success(&self) -> (success: usize)
        ensures
            success == self.success,
    {
        self.success
    }

    pub fn get_upgradeable_count(&self) -> (count: usize)
        ensures
            count == self.upgradeable_count,
    {
        self.upgradeable_count
    }

    /// Where `up` leads: one failure fewer, unless the counter is at zero.
    pub open spec fn spec_up(&self) -> Option<Position> {
        if self.failure == 0 {
            None
        } else {
            Some(
                Position {
                    failure: (self.failure - 1) as usize,
                    success: self.success,
                    upgradeable_count: self.upgradeable_count,
                },
            )
        }
    }

    /// Where `right` leads: one success more, unless that would reach the
    /// budget.
    pub open spec fn spec_right(&self) -> Option<Position> {
        if self.success + 1 >= self.upgradeable_count {
            None
        } else {
            Some(
                Position {
                    failure: self.failure,
                    success: (self.success + 1) as usize,
                    upgradeable_count: self.upgradeable_count,
                },
            )
        }
    }

    #[verifier::when_used_as_spec(spec_up)]
    pub fn up(&self) -> (next: Option<Self>)
        ensures
            next == self.spec_up(),
            next is None <==> self.failure == 0,
    {
        if self.failure == 0 {
            return None;
        }
        Some(
            Position {
                failure: self.failure - 1,
                success: self.success,
                upgradeable_count: self.upgradeable_count,
            },
        )
    }

    #[verifier::when_used_as_spec(spec_right)]
    pub fn right(&self) -> (next: Option<Self>)
        ensures
            next == self.spec_right(),
            next is None <==> self.success + 1 >= self.upgradeable_count,
    {
        if self.upgradeable_count == 0 || self.success >= self.upgradeable_count - 1 {
            return None;
        }
        Some(
            Position {
                failure: self.failure,
                success: self.success + 1,
                upgradeable_count: self.upgradeable_count,
            },
        )
    }
}

/// Neither move exists from the position.
pub open spec fn is_terminal(position: Position) -> bool {
    position.spec_up() is None && position.spec_right() is None
}

/// The number of moves in the longest walk from the position: every failure
/// left on the counter, and every success that is still short of the budget.
pub open spec fn moves_left(position: Position) -> nat {
    if position.success + 1 < position.upgradeable_count {
        (position.failure + (position.upgradeable_count - 1 - position.success)) as nat
    } else {
        position.failure as nat
    }
}

/// The moves never lead back: each takes exactly one from the moves that are
/// left, and a position is terminal when none is left.
pub proof fn lemma_moves_descend(position: Position)
    ensures
        position.spec_up() matches Some(next) ==> moves_left(next) + 1 == moves_left(position),
        position.spec_right() matches Some(next) ==> moves_left(next) + 1 == moves_left(position),
        is_terminal(position) <==> moves_left(position) == 0,
{
}

} // verus!
