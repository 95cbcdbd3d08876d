//! The game engine: a board, the player to move and the outcome, changed only
//! by moves that the rules allow.

use vstd::prelude::*;
use crate::board::holds_line;
use crate::board::legal;
use crate::board::lists_legal;
use crate::board::outcome_of;
use crate::board::Board;
use crate::chance::random_below;
use crate::player::IllegalMoveError;
use crate::player::Outcome;
use crate::player::Player;
use crate::state::lemma_exactly_one_outcome;
use crate::state::lemma_fresh_wf;
use crate::state::lemma_step_wf;
use crate::state::GameState;

verus! {

/// The number that stands for "no winner".
pub const NO_WIN: usize = 9;

/// The number that `update` returns where no move was made.
pub const NO_MOVE: usize = 9;

/// What a game is set up with: who moves first, the mark that each player is
/// shown with, and whether each player's moves are drawn at random
/// (`true`) or supplied by hand (`false`).
#[derive(Clone, Copy, Debug, PartialEq, Eq, Structural)]
pub struct GameConfig {
    pub first: Player,
    pub mark_a: char,
    pub mark_b: char,
    pub auto_a: bool,
    pub auto_b: bool,
}

impl GameConfig {
    /// `A` moves first, `A` plays `X` and `B` plays `O`, and both players
    /// move automatically.
    pub open spec fn standard() -> GameConfig {
        GameConfig { first: Player::A, mark_a: 'X', mark_b: 'O', auto_a: true, auto_b: true }
    }

    /// Whether `player` moves automatically.
    pub open spec fn spec_is_auto(self, player: Player) -> bool {
        match player {
            Player::A => self.auto_a,
            Player::B => self.auto_b,
        }
    }

    /// Whether `player` moves automatically.
    #[verifier::when_used_as_spec(spec_is_auto)]
    pub fn is_auto(self, player: Player) -> (auto: bool)
        ensures
            auto == self.spec_is_auto(player),
    {
        match player {
            Player::A => self.auto_a,
            Player::B => self.auto_b,
        }
    }

    /// The mark that `player` is shown with.
    pub open spec fn spec_mark(self, player: Player) -> char {
        match player {
            Player::A => self.mark_a,
            Player::B => self.mark_b,
        }
    }

    /// The mark that `player` is shown with.
    #[verifier::when_used_as_spec(spec_mark)]
    pub fn mark(self, player: Player) -> (mark: char)
        ensures
            mark == self.spec_mark(player),
    {
        match player {
            Player::A => self.mark_a,
            Player::B => self.mark_b,
        }
    }

    /// The configuration with the move sources replaced.
    pub open spec fn with_auto(self, auto_a: bool, auto_b: bool) -> GameConfig {
        GameConfig { auto_a, auto_b, ..self }
    }
}

impl Default for GameConfig {
    fn default() -> (config: GameConfig)
        ensures
            config == GameConfig::standard(),
    {
        GameConfig { first: Player::A, mark_a: 'X', mark_b: 'O', auto_a: true, auto_b: true }
    }
}

/// A game of tic-tac-toe.
#[derive(Debug, PartialEq, Eq)]
pub struct Game {
    board: Board,
    current: Player,
    outcome: Outcome,
    config: GameConfig,
}

impl View for Game {
    type V = GameState;

    closed spec fn view(&self) -> GameState {
        GameState { board: self.board@, current: self.current, outcome: self.outcome }
    }
}

impl Game {
    /// Every game is in a well-formed position.
    #[verifier::type_invariant]
    closed spec fn inv(self) -> bool {
        self@.wf()
    }

    /// What the game was set up with, and the move sources as last chosen.
    pub closed spec fn spec_config(self) -> GameConfig {
        self.config
    }

    /// A fresh game with the standard configuration.
    pub fn new() -> (game: Game)
        ensures
            game@ == GameState::fresh(Player::A),
            game@.wf(),
            game.spec_config() == GameConfig::standard(),
    {
        Game::with_config(GameConfig::default())
    }

    /// A fresh game with the configuration `config`: the board is empty, the
    /// game is in progress and `config.first` is to move.
    pub fn with_config(config: GameConfig) -> (game: Game)
        ensures
            game@ == GameState::fresh(config.first),
            game@.wf(),
            game.spec_config() == config,
    {
        proof {
            lemma_fresh_wf(config.first);
        }
        Game { board: Board::new(), current: config.first, outcome: Outcome::InProgress, config }
    }

    /// Chooses how each player's moves are made: automatically (`true`) or
    /// by hand (`false`). The position stays as it is.
    pub fn start(&mut self, p1_auto: bool, p2_auto: bool)
        ensures
            final(self)@ == old(self)@,
            final(self).spec_config() == old(self).spec_config().with_auto(p1_auto, p2_auto),
    {
        proof {
            use_type_invariant(&*self);
        }
        let config = GameConfig { auto_a: p1_auto, auto_b: p2_auto, ..self.config };
        *self = Game { board: self.board, current: self.current, outcome: self.outcome, config };
    }

    /// Starts over: the position is that of a fresh game with the same
    /// configuration, move sources included.
    pub fn reset(&mut self)
        ensures
            final(self)@ == GameState::fresh(old(self).spec_config().first),
            final(self)@.wf(),
            final(self).spec_config() == old(self).spec_config(),
    {
        *self = Game::with_config(self.config);
    }

    /// What the game was set up with, and the move sources as last chosen.
    pub fn config(&self) -> (config: GameConfig)
        ensures
            config == self.spec_config(),
    {
        self.config
    }

    /// The squares.
    pub fn board(&self) -> (board: Board)
        ensures
            board@ == self@.board,
            self@.wf(),
    {
        proof {
            use_type_invariant(self);
        }
        self.board
    }

    /// The player to move.
    pub fn current_player(&self) -> (player: Player)
        ensures
            player == self@.current,
    {
        self.current
    }

    /// How the game stands.
    pub fn get_outcome(&self) -> (outcome: Outcome)
        ensures
            outcome == self@.outcome,
            self@.wf(),
    {
        proof {
            use_type_invariant(self);
        }
        self.outcome
    }

    /// Whether the game has ended, by a win or a draw.
    pub fn get_end_game(&self) -> (ended: bool)
        ensures
            ended == (self@.outcome != Outcome::InProgress),
    {
        self.outcome.is_terminal()
    }

    /// The number of the winner, 0 for `A` and 1 for `B`, or `NO_WIN` where
    /// nobody has won.
    pub fn get_winner(&self) -> (winner: usize)
        ensures
            winner == match self@.outcome {
                Outcome::Won(p) => p.spec_index(),
                _ => NO_WIN,
            },
    {
        match self.outcome {
            Outcome::Won(p) => p.index(),
            _ => NO_WIN,
        }
    }

    /// Whether a mark may be placed at `index`: the index is on the board
    /// and the square is empty.
    pub fn is_legal(&self, index: usize) -> (ok: bool)
        ensures
            ok == legal(self@.board, index as int),
    {
        self.board.is_legal(index)
    }

    /// The legal indices, in ascending order.
    pub fn legal_moves(&self) -> (moves: Vec<usize>)
        ensures
            lists_legal(self@.board, moves@),
    {
        self.board.legal_moves()
    }

    /// The outcome worked out afresh from the squares. It is the recorded
    /// one, and at most one player holds a complete line.
    pub fn evaluate_outcome(&self) -> (outcome: Outcome)
        ensures
            outcome == outcome_of(self@.board),
            outcome == self@.outcome,
            !(holds_line(self@.board, Player::A) && holds_line(self@.board, Player::B)),
    {
        proof {
            use_type_invariant(self);
        }
        self.board.evaluate_outcome()
    }

    /// Places the mark of the player to move at `index`.
    ///
    /// The move is refused, and nothing changes, where the game is over, the
    /// index is off the board or the square is taken. Otherwise the square
    /// is marked, the outcome is worked out afresh, and the turn passes to
    /// the other player if the game is still in progress.
    pub fn apply_move(&mut self, index: usize) -> (res: Result<Outcome, IllegalMoveError>)
        ensures
            res is Ok <==> old(self)@.can_move(index as int),
            res matches Ok(outcome) ==> final(self)@ == old(self)@.after_move(index as int)
                && outcome == final(self)@.outcome,
            res matches Err(e) ==> final(self)@ == old(self)@ && e.index == index,
            res matches Ok(Outcome::InProgress) ==> final(self)@.current == old(
                self,
            )@.current.spec_other(),
            final(self)@ == old(self)@.step(index as int),
            final(self)@.wf(),
            final(self).spec_config() == old(self).spec_config(),
    {
        proof {
            use_type_invariant(&*self);
            lemma_step_wf(self@, index as int);
        }
        if self.outcome.is_terminal() || !self.board.is_legal(index) {
            return Err(IllegalMoveError { index });
        }
        let mut board = self.board;
        board.cells[index] = self.current.cell();
        let outcome = board.evaluate_outcome();
        let current = if outcome.is_terminal() {
            self.current
        } else {
            self.current.other()
        };
        *self = Game { board, current, outcome, config: self.config };
        Ok(outcome)
    }

    /// A legal index drawn at random, or `NO_MOVE` where every square is
    /// taken.
    pub fn auto_move(&self) -> (loc: usize)
        ensures
            loc == NO_MOVE <==> forall|i: int| !legal(self@.board, i),
            loc != NO_MOVE ==> legal(self@.board, loc as int),
    {
        let moves = self.board.legal_moves();
        if moves.len() == 0 {
            assert forall|i: int| !legal(self@.board, i) by {
                if legal(self@.board, i) {
                    let j = choose|j: int| 0 <= j < moves.len() && #[trigger] moves[j] == i;
                }
            }
            NO_MOVE
        } else {
            let drawn: usize = random_below(moves.len());
            assert(legal(self@.board, moves[drawn as int] as int));
            moves[drawn]
        }
    }

    /// The index that a player chose by hand, or `NO_MOVE` where it is off
    /// the board.
    pub fn manual_move(&self, selected_move: usize) -> (loc: usize)
        ensures
            loc == if selected_move < 9 {
                selected_move
            } else {
                NO_MOVE
            },
    {
        if selected_move < 9 {
            selected_move
        } else {
            NO_MOVE
        }
    }

    /// Lets the player to move make one move and returns its index, or
    /// `NO_MOVE` where none was made and nothing changed.
    ///
    /// A player who moves by hand plays `manual_move`; it is made if the
    /// rules allow it. A player who moves automatically plays a legal index
    /// drawn at random, so that a move is made whenever the game is in
    /// progress; `manual_move` is then not looked at.
    pub fn update(&mut self, manual_move: usize) -> (loc: usize)
        ensures
            loc == NO_MOVE || old(self)@.can_move(loc as int),
            loc == NO_MOVE ==> final(self)@ == old(self)@,
            loc != NO_MOVE ==> final(self)@ == old(self)@.after_move(loc as int),
            final(self)@.wf(),
            final(self).spec_config() == old(self).spec_config(),
            !old(self).spec_config().spec_is_auto(old(self)@.current) ==> loc == if old(
                self,
            )@.can_move(manual_move as int) {
                manual_move
            } else {
                NO_MOVE
            },
            old(self).spec_config().spec_is_auto(old(self)@.current) ==> (loc != NO_MOVE
                <==> old(self)@.outcome == Outcome::InProgress),
    {
        proof {
            use_type_invariant(&*self);
            lemma_exactly_one_outcome(self@);
        }
        let loc: usize = if self.config.is_auto(self.current) {
            self.auto_move()
        } else {
            self.manual_move(manual_move)
        };
        match self.apply_move(loc) {
            Ok(_) => loc,
            Err(_) => NO_MOVE,
        }
    }
}

} // verus!
