//! The two players, the cells they mark, and how a game can stand.

use vstd::prelude::*;

verus! {

/// One of the two players. `A` is "player 1", `B` is "player 2".
#[derive(Clone, Copy, Debug, PartialEq, Eq, Structural)]
pub enum Player {
    A,
    B,
}

/// What a square of the board holds.
#[derive(Clone, Copy, Debug, PartialEq, Eq, Structural)]
pub enum Cell {
    Empty,
    MarkA,
    MarkB,
}

/// How a game stands: still running, won by one player, or drawn.
#[derive(Clone, Copy, Debug, PartialEq, Eq, Structural)]
pub enum Outcome {
    InProgress,
    Won(Player),
    Drawn,
}

/// The one error of the engine: the move at `index` was refused, because the
/// index is off the board, the square is taken, or the game is over.
#[derive(Clone, Copy, Debug, PartialEq, Eq, Structural)]
pub struct IllegalMoveError {
    pub index: usize,
}

impl Player {
    /// The opponent of `self`.
    pub open spec fn spec_other(self) -> Player {
        match self {
            Player::A => Player::B,
            Player::B => Player::A,
        }
    }

    /// The opponent of `self`.
    #[verifier::when_used_as_spec(spec_other)]
    pub fn other(self) -> (p: Player)
        ensures
            p == self.spec_other(),
    {
        match self {
            Player::A => Player::B,
            Player::B => Player::A,
        }
    }

    /// The cell value that `self` leaves on a square.
    pub open spec fn spec_cell(self) -> Cell {
        match self {
            Player::A => Cell::MarkA,
            Player::B => Cell::MarkB,
        }
    }

    /// The cell value that `self` leaves on a square.
    #[verifier::when_used_as_spec(spec_cell)]
    pub fn cell(self) -> (c: Cell)
        ensures
            c == self.spec_cell(),
    {
        match self {
            Player::A => Cell::MarkA,
            Player::B => Cell::MarkB,
        }
    }

    /// The player's number: 0 for `A`, 1 for `B`.
    pub open spec fn spec_index(self) -> usize {
        match self {
            Player::A => 0,
            Player::B => 1,
        }
    }

    /// The player's number: 0 for `A`, 1 for `B`.
    #[verifier::when_used_as_spec(spec_index)]
    pub fn index(self) -> (i: usize)
        ensures
            i == self.spec_index(),
    {
        match self {
            Player::A => 0,
            Player::B => 1,
        }
    }
}

impl Cell {
    /// The player whose mark the cell holds, if it holds one.
    pub open spec fn spec_owner(self) -> Option<Player> {
        match self {
            Cell::Empty => None,
            Cell::MarkA => Some(Player::A),
            Cell::MarkB => Some(Player::B),
        }
    }

    /// The player whose mark the cell holds, if it holds one.
    #[verifier::when_used_as_spec(spec_owner)]
    pub fn owner(self) -> (p: Option<Player>)
        ensures
            p == self.spec_owner(),
    {
        match self {
            Cell::Empty => None,
            Cell::MarkA => Some(Player::A),
            Cell::MarkB => Some(Player::B),
        }
    }
}

impl Outcome {
    /// Whether the game is over.
    pub open spec fn spec_is_terminal(self) -> bool {
        self != Outcome::InProgress
    }

    /// Whether the game is over.
    #[verifier::when_used_as_spec(spec_is_terminal)]
    pub fn is_terminal(self) -> (t: bool)
        ensures
            t == self.spec_is_terminal(),
    {
        match self {
            Outcome::InProgress => false,
            _ => true,
        }
    }
}

} // verus!
