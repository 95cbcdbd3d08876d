//! The mathematical model of a game: a position, the move that leads from
//! one position to the next, and what holds of every position that play can
//! reach.

use vstd::prelude::*;
use crate::board::describes;
use crate::board::empty_cells;
use crate::board::free;
use crate::board::lemma_free_bounds;
use crate::board::lemma_mark_takes_a_square;
use crate::board::full;
use crate::board::holds_line;
use crate::board::legal;
use crate::board::line_cells;
use crate::board::outcome_of;
use crate::board::row_owner;
use crate::player::Cell;
use crate::player::Outcome;
use crate::player::Player;

verus! {

/// A position: the squares, the player to move, and how the game stands.
pub struct GameState {
    pub board: Seq<Cell>,
    pub current: Player,
    pub outcome: Outcome,
}

impl GameState {
    /// The position a game starts from when `first` moves first.
    pub open spec fn fresh(first: Player) -> GameState {
        GameState { board: empty_cells(), current: first, outcome: Outcome::InProgress }
    }

    /// Whether the player to move may mark the square at `index`: the game
    /// is still in progress and the square is on the board and empty.
    pub open spec fn can_move(self, index: int) -> bool {
        self.outcome == Outcome::InProgress && legal(self.board, index)
    }

    /// The position after the player to move has marked the square at
    /// `index`. The turn passes on only while the game is still in progress.
    pub open spec fn after_move(self, index: int) -> GameState {
        let board = self.board.update(index, self.current.spec_cell());
        let outcome = outcome_of(board);
        GameState {
            board,
            current: if outcome == Outcome::InProgress {
                self.current.spec_other()
            } else {
                self.current
            },
            outcome,
        }
    }

    /// The position after an attempt to move at `index`: a move that is not
    /// allowed leaves the position as it is.
    pub open spec fn step(self, index: int) -> GameState {
        if self.can_move(index) {
            self.after_move(index)
        } else {
            self
        }
    }

    /// The position after the attempts `moves`, in order.
    pub open spec fn run(self, moves: Seq<int>) -> GameState
        decreases moves.len(),
    {
        if moves.len() == 0 {
            self
        } else {
            self.run(moves.drop_last()).step(moves.last())
        }
    }

    /// What holds of a position that play can reach: the board has nine
    /// squares, the recorded outcome is the one the squares amount to, and
    /// the two players do not both hold a complete line.
    pub open spec fn wf(self) -> bool {
        &&& self.board.len() == 9
        &&& self.outcome == outcome_of(self.board)
        &&& !(holds_line(self.board, Player::A) && holds_line(self.board, Player::B))
    }
}

/// A line that is complete after a move and does not pass through the square
/// just marked was complete before it.
proof fn lemma_line_untouched(cells: Seq<Cell>, index: int, mark: Cell, k: int, owner: Player)
    requires
        cells.len() == 9,
        0 <= index < 9,
        0 <= k < 8,
        mark != owner.spec_cell(),
        row_owner(line_cells(cells.update(index, mark), k)) == Some(owner),
    ensures
        row_owner(line_cells(cells, k)) == Some(owner),
{
}

/// A move completes no line for the opponent of the player who makes it.
pub proof fn lemma_move_gives_opponent_no_line(cells: Seq<Cell>, index: int, mover: Player)
    requires
        cells.len() == 9,
        0 <= index < 9,
        !holds_line(cells, mover.spec_other()),
    ensures
        !holds_line(cells.update(index, mover.spec_cell()), mover.spec_other()),
{
    let after = cells.update(index, mover.spec_cell());
    let opponent = mover.spec_other();
    if holds_line(after, opponent) {
        let k = choose|k: int| 0 <= k < 8 && #[trigger] row_owner(line_cells(after, k)) == Some(opponent);
        lemma_line_untouched(cells, index, mover.spec_cell(), k, opponent);
    }
}

/// The fresh position is well formed.
pub proof fn lemma_fresh_wf(first: Player)
    ensures
        GameState::fresh(first).wf(),
        GameState::fresh(first).outcome == Outcome::InProgress,
{
    let cells = empty_cells();
    assert forall|k: int| 0 <= k < 8 implies #[trigger] row_owner(line_cells(cells, k)) == None::<Player> by {}
    assert(cells[0] == Cell::Empty);
    assert(!full(cells));
}

/// A move keeps a well-formed position well formed.
pub proof fn lemma_step_wf(state: GameState, index: int)
    requires
        state.wf(),
    ensures
        state.step(index).wf(),
{
    if state.can_move(index) {
        lemma_move_gives_opponent_no_line(state.board, index, state.current);
    }
}

/// Every position that play reaches from a fresh one is well formed,
/// whatever was tried on the way.
pub proof fn lemma_reachable_wf(first: Player, moves: Seq<int>)
    ensures
        GameState::fresh(first).run(moves).wf(),
    decreases moves.len(),
{
    if moves.len() == 0 {
        lemma_fresh_wf(first);
    } else {
        lemma_reachable_wf(first, moves.drop_last());
        lemma_step_wf(GameState::fresh(first).run(moves.drop_last()), moves.last());
    }
}

/// In a well-formed position exactly one of the four outcomes describes the
/// board, and it is the recorded one; in particular the two players have not
/// both won. While the game is in progress a square is free.
pub proof fn lemma_exactly_one_outcome(state: GameState)
    requires
        state.wf(),
    ensures
        forall|outcome: Outcome| #[trigger] describes(outcome, state.board) <==> outcome == state.outcome,
        !(describes(Outcome::Won(Player::A), state.board) && describes(
            Outcome::Won(Player::B),
            state.board,
        )),
        state.outcome == Outcome::InProgress ==> exists|i: int| legal(state.board, i),
{
    if state.outcome == Outcome::InProgress {
        let i = choose|i: int| 0 <= i < 9 && #[trigger] state.board[i] == Cell::Empty;
        assert(legal(state.board, i));
    }
}

/// Of every position that play reaches from a fresh one, exactly one of the
/// four outcomes describes the board, and it is the recorded one.
pub proof fn lemma_reachable_exactly_one_outcome(first: Player, moves: Seq<int>)
    ensures
        forall|outcome: Outcome| #[trigger]
            describes(outcome, GameState::fresh(first).run(moves).board) <==> outcome
                == GameState::fresh(first).run(moves).outcome,
{
    lemma_reachable_wf(first, moves);
    lemma_exactly_one_outcome(GameState::fresh(first).run(moves));
}

/// While the game stays in progress the turn alternates: after a move that
/// is allowed and does not end the game, the other player is to move. A move
/// that ends the game leaves the turn where it was.
pub proof fn lemma_turn_alternates(state: GameState, index: int)
    requires
        state.can_move(index),
    ensures
        state.step(index).outcome == Outcome::InProgress ==> state.step(index).current
            == state.current.spec_other() && state.step(index).current != state.current,
        state.step(index).outcome != Outcome::InProgress ==> state.step(index).current
            == state.current,
{
}

/// A game that has ended stays as it is, whatever is tried: only starting
/// over leads out of a win or a draw.
pub proof fn lemma_terminal_stays(state: GameState, moves: Seq<int>)
    requires
        state.outcome != Outcome::InProgress,
    ensures
        state.run(moves) == state,
    decreases moves.len(),
{
    if moves.len() > 0 {
        lemma_terminal_stays(state, moves.drop_last());
    }
}

/// Every move that is allowed fills one square, and a well-formed position
/// without a free square has ended: a game lasts nine moves at most.
pub proof fn lemma_move_fills_a_square(state: GameState, index: int)
    requires
        state.wf(),
        state.can_move(index),
    ensures
        0 <= free(state.step(index).board) == free(state.board) - 1,
        free(state.step(index).board) == 0 ==> state.step(index).outcome != Outcome::InProgress,
{
    let after = state.step(index).board;
    lemma_mark_takes_a_square(state.board, index, state.current.spec_cell(), 9);
    lemma_free_bounds(after, 9);
    lemma_step_wf(state, index);
}

/// Only the player who moves can win by the move: after a move that is
/// allowed, the game is in progress, drawn, or won by the mover.
pub proof fn lemma_only_mover_wins(state: GameState, index: int)
    requires
        state.wf(),
        state.can_move(index),
    ensures
        state.step(index).outcome != Outcome::Won(state.current.spec_other()),
        state.step(index).board[index] == state.current.spec_cell(),
{
    lemma_move_gives_opponent_no_line(state.board, index, state.current);
    lemma_step_wf(state, index);
}

} // verus!
