//! The 3x3 board: its squares, its eight winning lines, and what a position
//! amounts to.

use vstd::prelude::*;
use crate::player::Cell;
use crate::player::Outcome;
use crate::player::Player;

verus! {

/// Rows and columns of the board.
pub const SIZE: usize = 3;

/// Squares of the board.
pub const CELLS: usize = 9;

/// The eight winning lines, each as three square indices: rows, columns,
/// then the two diagonals.
pub const WIN_LINES: [[usize; 3]; 8] = [
    [0, 1, 2],
    [3, 4, 5],
    [6, 7, 8],
    [0, 3, 6],
    [1, 4, 7],
    [2, 5, 8],
    [0, 4, 8],
    [2, 4, 6],
];

/// The index of the square in row `row` and column `col`.
pub open spec fn spec_index_of(row: int, col: int) -> int {
    row * 3 + col
}

/// The row and the column of the square at `index`.
pub open spec fn spec_coords_of(index: int) -> (int, int) {
    (index / 3, index % 3)
}

/// The squares of the `k`-th winning line.
pub open spec fn win_line(k: int) -> (int, int, int) {
    if k == 0 {
        (0, 1, 2)
    } else if k == 1 {
        (3, 4, 5)
    } else if k == 2 {
        (6, 7, 8)
    } else if k == 3 {
        (0, 3, 6)
    } else if k == 4 {
        (1, 4, 7)
    } else if k == 5 {
        (2, 5, 8)
    } else if k == 6 {
        (0, 4, 8)
    } else {
        (2, 4, 6)
    }
}

/// What `cells` holds along the `k`-th winning line.
pub open spec fn line_cells(cells: Seq<Cell>, k: int) -> Seq<Cell> {
    let (a, b, c) = win_line(k);
    seq![cells[a], cells[b], cells[c]]
}

/// The player who holds all of `row`, a row of three cells, if one does.
pub open spec fn row_owner(row: Seq<Cell>) -> Option<Player> {
    if row.len() == 3 && row[0] == row[1] && row[1] == row[2] {
        row[0].spec_owner()
    } else {
        None
    }
}

/// Whether `player` holds all three squares of some winning line.
pub open spec fn holds_line(cells: Seq<Cell>, player: Player) -> bool {
    exists|k: int| 0 <= k < 8 && #[trigger] row_owner(line_cells(cells, k)) == Some(player)
}

/// Whether no square is empty.
pub open spec fn full(cells: Seq<Cell>) -> bool {
    forall|i: int| 0 <= i < 9 ==> #[trigger] cells[i] != Cell::Empty
}

/// The number of empty squares among the first `n`.
pub open spec fn free_among(cells: Seq<Cell>, n: int) -> int
    decreases n,
{
    if n <= 0 {
        0
    } else {
        free_among(cells, n - 1) + if cells[n - 1] == Cell::Empty {
            1int
        } else {
            0int
        }
    }
}

/// The number of empty squares.
pub open spec fn free(cells: Seq<Cell>) -> int {
    free_among(cells, 9)
}

/// Whether a mark may be placed at `index`: it is on the board and empty.
pub open spec fn legal(cells: Seq<Cell>, index: int) -> bool {
    0 <= index < 9 && cells[index] == Cell::Empty
}

/// The outcome that a position amounts to. A complete line wins; the lines
/// of `A` are looked at before those of `B`. Without one, a full board is a
/// draw and any other is still in play.
pub open spec fn outcome_of(cells: Seq<Cell>) -> Outcome {
    if holds_line(cells, Player::A) {
        Outcome::Won(Player::A)
    } else if holds_line(cells, Player::B) {
        Outcome::Won(Player::B)
    } else if full(cells) {
        Outcome::Drawn
    } else {
        Outcome::InProgress
    }
}

/// Whether `outcome`, taken by itself, describes `cells`: a win that the
/// winner holds a complete line, a draw that the board is full and nobody
/// holds one, a game in progress that nobody holds one and a square is free.
pub open spec fn describes(outcome: Outcome, cells: Seq<Cell>) -> bool {
    match outcome {
        Outcome::Won(player) => holds_line(cells, player),
        Outcome::Drawn => !holds_line(cells, Player::A) && !holds_line(cells, Player::B) && full(
            cells,
        ),
        Outcome::InProgress => !holds_line(cells, Player::A) && !holds_line(cells, Player::B)
            && !full(cells),
    }
}

/// Whether `moves` lists the legal indices of `cells`, each once, in
/// ascending order.
pub open spec fn lists_legal(cells: Seq<Cell>, moves: Seq<usize>) -> bool {
    &&& forall|j: int| 0 <= j < moves.len() ==> legal(cells, #[trigger] moves[j] as int)
    &&& forall|j: int, k: int| 0 <= j < k < moves.len() ==> moves[j] < moves[k]
    &&& forall|i: int| legal(cells, i) ==> exists|j: int| 0 <= j < moves.len() && #[trigger] moves[j] == i
}

/// The board with every square empty.
pub open spec fn empty_cells() -> Seq<Cell> {
    Seq::new(9, |i: int| Cell::Empty)
}

/// Where a square lies, and whether a mark may be placed on it.
#[derive(Clone, Copy, Debug, PartialEq, Eq, Structural)]
pub struct Coord {
    /// The row.
    pub x: usize,
    /// The column.
    pub y: usize,
    /// Whether the square is free.
    pub legal: bool,
}

/// The coordinates of the nine squares of `cells`, by index.
pub open spec fn coords_of_cells(cells: Seq<Cell>) -> Seq<Coord> {
    Seq::new(
        9,
        |i: int|
            Coord {
                x: spec_coords_of(i).0 as usize,
                y: spec_coords_of(i).1 as usize,
                legal: legal(cells, i),
            },
    )
}

/// The nine squares in row-major order: square `row * 3 + col` is in row
/// `row` and column `col`.
#[derive(Clone, Copy, Debug, PartialEq, Eq)]
pub struct Board {
    pub cells: [Cell; 9],
}

impl View for Board {
    type V = Seq<Cell>;

    open spec fn view(&self) -> Seq<Cell> {
        self.cells@
    }
}

impl Board {
    /// The empty board.
    pub fn new() -> (board: Board)
        ensures
            board@ == empty_cells(),
    {
        Board { cells: [Cell::Empty; 9] }
    }

    /// The linear index of the square at `(row, col)`, or `None` where the
    /// square is off the board.
    pub fn index_of(row: usize, col: usize) -> (index: Option<usize>)
        ensures
            index is Some <==> row < 3 && col < 3,
            index matches Some(i) ==> i == spec_index_of(row as int, col as int) && i < 9,
    {
        if row < SIZE && col < SIZE {
            Some(row * SIZE + col)
        } else {
            None
        }
    }

    /// The row and the column that a linear index stands for.
    pub fn coords_of(index: usize) -> (coords: (usize, usize))
        ensures
            (coords.0 as int, coords.1 as int) == spec_coords_of(index as int),
            index < 9 ==> coords.0 < 3,
            coords.1 < 3,
    {
        (index / SIZE, index % SIZE)
    }

    /// What the square at `index` holds, or `None` where it is off the board.
    pub fn get(&self, index: usize) -> (cell: Option<Cell>)
        ensures
            cell == if index < 9 {
                Some(self@[index as int])
            } else {
                None
            },
    {
        if index < CELLS {
            Some(self.cells[index])
        } else {
            None
        }
    }

    /// Whether a mark may be placed at `index`.
    pub fn is_legal(&self, index: usize) -> (ok: bool)
        ensures
            ok == legal(self@, index as int),
    {
        if index < CELLS {
            match self.cells[index] {
                Cell::Empty => true,
                _ => false,
            }
        } else {
            false
        }
    }

    /// The legal indices, in ascending order.
    pub fn legal_moves(&self) -> (moves: Vec<usize>)
        ensures
            lists_legal(self@, moves@),
    {
        let mut moves: Vec<usize> = Vec::new();
        let mut i: usize = 0;
        while i < CELLS
            invariant
                i <= 9,
                forall|j: int| 0 <= j < moves.len() ==> legal(self@, #[trigger] moves[j] as int),
                forall|j: int| 0 <= j < moves.len() ==> #[trigger] moves[j] < i,
                forall|j: int, k: int| 0 <= j < k < moves.len() ==> moves[j] < moves[k],
                forall|n: int|
                    0 <= n < i && legal(self@, n) ==> exists|j: int|
                        0 <= j < moves.len() && #[trigger] moves[j] == n,
            decreases 9 - i,
        {
            if self.is_legal(i) {
                let ghost before = moves@;
                moves.push(i);
                assert forall|n: int| 0 <= n < i + 1 && legal(self@, n) implies exists|j: int|
                    0 <= j < moves.len() && #[trigger] moves[j] == n by {
                    if n < i {
                        let j = choose|j: int| 0 <= j < before.len() && #[trigger] before[j] == n;
                        assert(moves[j] == n);
                    } else {
                        assert(moves[before.len() as int] == n);
                    }
                }
            }
            i += 1;
        }
        moves
    }

    /// The coordinates of the nine squares, by index, each with whether a
    /// mark may be placed there.
    pub fn coordinates(&self) -> (coordinates: Vec<Coord>)
        ensures
            coordinates@ == coords_of_cells(self@),
    {
        let mut coordinates: Vec<Coord> = Vec::new();
        let mut i: usize = 0;
        while i < SIZE
            invariant
                i <= 3,
                coordinates@.len() == 3 * i,
                forall|n: int| 0 <= n < 3 * i ==> #[trigger] coordinates@[n] == coords_of_cells(self@)[n],
            decreases 3 - i,
        {
            let mut j: usize = 0;
            while j < SIZE
                invariant
                    i < 3,
                    j <= 3,
                    coordinates@.len() == 3 * i + j,
                    forall|n: int|
                        0 <= n < 3 * i + j ==> #[trigger] coordinates@[n] == coords_of_cells(self@)[n],
                decreases 3 - j,
            {
                let legal = self.is_legal(i * SIZE + j);
                coordinates.push(Coord { x: i, y: j, legal });
                j += 1;
            }
            i += 1;
        }
        coordinates
    }

    /// The three cells along the `k`-th winning line.
    fn line(&self, k: usize) -> (row: Vec<Cell>)
        requires
            k < 8,
        ensures
            row@ == line_cells(self@, k as int),
    {
        let squares = WIN_LINES[k];
        let mut row: Vec<Cell> = Vec::new();
        row.push(self.cells[squares[0]]);
        row.push(self.cells[squares[1]]);
        row.push(self.cells[squares[2]]);
        row
    }

    /// The player who holds all of `row`, if `row` has three cells and one
    /// player holds them all.
    pub fn row_winner(row: &Vec<Cell>) -> (winner: Option<Player>)
        ensures
            winner == row_owner(row@),
    {
        if row.len() == SIZE && row[0] == row[1] && row[1] == row[2] {
            row[0].owner()
        } else {
            None
        }
    }

    /// Whether one player holds all of `row`.
    pub fn is_win(row: &Vec<Cell>) -> (won: bool)
        ensures
            won == row_owner(row@).is_some(),
    {
        Board::row_winner(row).is_some()
    }

    /// Whether `player` holds a complete winning line.
    pub fn has_line(&self, player: Player) -> (held: bool)
        ensures
            held == holds_line(self@, player),
    {
        let mut k: usize = 0;
        while k < 8
            invariant
                k <= 8,
                forall|n: int| 0 <= n < k ==> #[trigger] row_owner(line_cells(self@, n)) != Some(player),
            decreases 8 - k,
        {
            let row = self.line(k);
            match Board::row_winner(&row) {
                Some(p) => {
                    if p == player {
                        return true;
                    }
                },
                None => {},
            }
            k += 1;
        }
        false
    }

    /// Whether no square is empty.
    pub fn is_full(&self) -> (f: bool)
        ensures
            f == full(self@),
    {
        let mut i: usize = 0;
        while i < CELLS
            invariant
                i <= 9,
                forall|n: int| 0 <= n < i ==> #[trigger] self@[n] != Cell::Empty,
            decreases 9 - i,
        {
            if self.is_legal(i) {
                return false;
            }
            i += 1;
        }
        true
    }

    /// Whether at most one player holds a complete line. Play by the rules
    /// leads to no other position.
    pub fn is_consistent(&self) -> (ok: bool)
        ensures
            ok == !(holds_line(self@, Player::A) && holds_line(self@, Player::B)),
    {
        !(self.has_line(Player::A) && self.has_line(Player::B))
    }

    /// The outcome that the position amounts to, worked out from the squares
    /// alone. Where both players hold a line, which play by the rules never
    /// leads to, `A` is named.
    pub fn evaluate_outcome(&self) -> (outcome: Outcome)
        ensures
            outcome == outcome_of(self@),
    {
        if self.has_line(Player::A) {
            Outcome::Won(Player::A)
        } else if self.has_line(Player::B) {
            Outcome::Won(Player::B)
        } else if self.is_full() {
            Outcome::Drawn
        } else {
            Outcome::InProgress
        }
    }

    /// Whether the position is a draw: the board is full and nobody holds a
    /// line.
    pub fn is_draw(&self) -> (drawn: bool)
        ensures
            drawn == (outcome_of(self@) == Outcome::Drawn),
    {
        match self.evaluate_outcome() {
            Outcome::Drawn => true,
            _ => false,
        }
    }

    /// Whether the position ends the game, by a win or a draw.
    pub fn is_endgame(&self) -> (ended: bool)
        ensures
            ended == (outcome_of(self@) != Outcome::InProgress),
    {
        self.evaluate_outcome().is_terminal()
    }
}

/// The coordinates of the squares of an empty board: square `i` lies in row
/// `i / 3` and column `i % 3`, and every square is free.
pub fn coord_mapping() -> (coordinates: Vec<Coord>)
    ensures
        coordinates@ == coords_of_cells(empty_cells()),
{
    Board::new().coordinates()
}

/// Among the first `n` squares the free ones number between none and `n`,
/// and none is free just when none of them is empty.
pub proof fn lemma_free_bounds(cells: Seq<Cell>, n: int)
    requires
        0 <= n <= 9,
    ensures
        0 <= free_among(cells, n) <= n,
        free_among(cells, n) == 0 <==> forall|i: int| 0 <= i < n ==> #[trigger] cells[i] != Cell::Empty,
    decreases n,
{
    if n > 0 {
        lemma_free_bounds(cells, n - 1);
    }
}

/// Marking an empty square leaves one free square fewer.
pub proof fn lemma_mark_takes_a_square(cells: Seq<Cell>, index: int, mark: Cell, n: int)
    requires
        cells.len() == 9,
        legal(cells, index),
        mark != Cell::Empty,
        0 <= n <= 9,
    ensures
        free_among(cells.update(index, mark), n) == free_among(cells, n) - if index < n {
            1int
        } else {
            0int
        },
    decreases n,
{
    if n > 0 {
        lemma_mark_takes_a_square(cells, index, mark, n - 1);
    }
}

/// Going from `(row, col)` to the linear index and back gives `(row, col)`
/// again, for each of the nine squares.
pub proof fn lemma_index_round_trip(row: int, col: int)
    requires
        0 <= row < 3,
        0 <= col < 3,
    ensures
        0 <= spec_index_of(row, col) < 9,
        spec_coords_of(spec_index_of(row, col)) == (row, col),
{
}

/// Going from a linear index to `(row, col)` and back gives the index again.
pub proof fn lemma_coords_round_trip(index: int)
    requires
        0 <= index < 9,
    ensures
        0 <= spec_coords_of(index).0 < 3,
        0 <= spec_coords_of(index).1 < 3,
        spec_index_of(spec_coords_of(index).0, spec_coords_of(index).1) == index,
{
}

} // verus!
