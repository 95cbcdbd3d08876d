//! What a game looks like as text: the board as a grid of marks or of index
//! labels, the players, and the messages that end a game.

use vstd::prelude::*;
use vstd::string::StringExecFns;
use crate::game::Game;
use crate::game::GameConfig;
use crate::player::Cell;
use crate::player::Outcome;
use crate::state::GameState;

verus! {

/// `String::push` appends one character to the string.
pub assume_specification[ String::push ](text: &mut String, ch: char)
    ensures
        final(text)@ == old(text)@.push(ch),
;

/// The character that a cell is shown as: a blank for an empty one, else
/// the mark of the player who holds it.
pub open spec fn cell_mark(cell: Cell, config: GameConfig) -> char {
    match cell {
        Cell::Empty => ' ',
        Cell::MarkA => config.mark_a,
        Cell::MarkB => config.mark_b,
    }
}

/// The nine squares as the characters they are shown as.
pub open spec fn marks_of(cells: Seq<Cell>, config: GameConfig) -> Seq<char> {
    Seq::new(9, |i: int| cell_mark(cells[i], config))
}

/// The labels `0` to `8` that the squares are chosen by.
pub open spec fn index_labels() -> Seq<char> {
    seq!['0', '1', '2', '3', '4', '5', '6', '7', '8']
}

/// One row of a grid: `lead`, then the three marks of row `row` with `gap`
/// between them, then a line feed.
pub open spec fn row_text(
    marks: Seq<char>,
    row: int,
    lead: Seq<char>,
    gap: Seq<char>,
) -> Seq<char> {
    lead + seq![marks[3 * row]] + gap + seq![marks[3 * row + 1]] + gap
        + seq![marks[3 * row + 2]] + seq!['\n']
}

/// A grid: its three rows with `rule` between them.
pub open spec fn grid_text(
    marks: Seq<char>,
    lead: Seq<char>,
    gap: Seq<char>,
    rule: Seq<char>,
) -> Seq<char> {
    row_text(marks, 0, lead, gap) + rule + row_text(marks, 1, lead, gap) + rule
        + row_text(marks, 2, lead, gap)
}

/// The name of a move source.
pub open spec fn mode_name(auto: bool) -> Seq<char> {
    if auto {
        "automatic"@
    } else {
        "manual"@
    }
}

/// The two players with their marks and move sources.
pub open spec fn players_text(config: GameConfig) -> Seq<char> {
    "Player 1 :: "@ + seq![config.mark_a] + " ("@ + mode_name(config.auto_a)
        + " play)\nPlayer 2 :: "@ + seq![config.mark_b] + " ("@ + mode_name(config.auto_b)
        + " play)"@
}

/// The board of a page: marks between double lines.
pub open spec fn board_text(marks: Seq<char>) -> Seq<char> {
    grid_text(
        marks,
        "\n "@,
        " \u{2551} "@,
        "\u{2550}\u{2550}\u{2550}\u{256c}\u{2550}\u{2550}\u{2550}\u{256c}\u{2550}\u{2550}\u{2550}\n"@,
    ) + "\n"@
}

/// The index board of a page: labels with blanks between them.
pub open spec fn indexed_board_text() -> Seq<char> {
    grid_text(index_labels(), "\n "@, "   "@, "           \n"@) + "\n"@
}

/// The board of a console: marks between bars and dashes.
pub open spec fn console_board_text(marks: Seq<char>) -> Seq<char> {
    grid_text(marks, "  "@, " | "@, " -----------\n"@)
}

/// Whose turn it is, or that the game has ended.
pub open spec fn status_text(state: GameState, config: GameConfig) -> Seq<char> {
    if state.outcome == Outcome::InProgress {
        "in play, "@ + seq![config.spec_mark(state.current)] + "'s turn"@
    } else {
        "ended"@
    }
}

/// The game on a console: a heading with the status, then the board.
pub open spec fn display_text(state: GameState, config: GameConfig) -> Seq<char> {
    "\nGame "@ + status_text(state, config) + ":\n"@
        + console_board_text(marks_of(state.board, config))
}

/// The message that names the winner.
pub open spec fn winner_text(mark: char) -> Seq<char> {
    "Player "@ + seq![mark] + " is the WINNER!"@
}

/// The message for a drawn game.
pub open spec fn draw_text() -> Seq<char> {
    "DRAW: nobody wins"@
}

/// The status line: whose turn it is, who has won, or that the game is
/// drawn.
pub open spec fn outcome_text(state: GameState, config: GameConfig) -> Seq<char> {
    match state.outcome {
        Outcome::InProgress => "Game "@ + status_text(state, config),
        Outcome::Won(player) => winner_text(config.spec_mark(player)),
        Outcome::Drawn => draw_text(),
    }
}

/// Appends one row of a grid to `text`.
fn push_row(text: &mut String, marks: &[char; 9], row: usize, lead: &str, gap: &str)
    requires
        row < 3,
    ensures
        final(text)@ == old(text)@ + row_text(marks@, row as int, lead@, gap@),
{
    text.append(lead);
    text.push(marks[3 * row]);
    text.append(gap);
    text.push(marks[3 * row + 1]);
    text.append(gap);
    text.push(marks[3 * row + 2]);
    text.push('\n');
}

/// The nine marks as a grid of three rows: each row is `lead`, the marks
/// with `gap` between them and a line feed, and `rule` stands between rows.
pub fn render_grid(marks: &[char; 9], lead: &str, gap: &str, rule: &str) -> (text: String)
    ensures
        text@ == grid_text(marks@, lead@, gap@, rule@),
{
    let mut text = String::new();
    push_row(&mut text, marks, 0, lead, gap);
    text.append(rule);
    push_row(&mut text, marks, 1, lead, gap);
    text.append(rule);
    push_row(&mut text, marks, 2, lead, gap);
    text
}

/// The name of a move source: `automatic` or `manual`.
pub fn mode_str(auto: bool) -> (name: &'static str)
    ensures
        name@ == mode_name(auto),
{
    if auto {
        "automatic"
    } else {
        "manual"
    }
}

impl Game {
    /// The nine squares as the characters they are shown as.
    pub fn marks(&self) -> (marks: [char; 9])
        ensures
            marks@ == marks_of(self@.board, self.spec_config()),
    {
        let board = self.board();
        let config = self.config();
        let mut marks: [char; 9] = [' '; 9];
        let mut i: usize = 0;
        while i < 9
            invariant
                i <= 9,
                forall|n: int| 0 <= n < i ==> #[trigger] marks@[n] == cell_mark(board@[n], config),
            decreases 9 - i,
        {
            marks[i] = match board.cells[i] {
                Cell::Empty => ' ',
                Cell::MarkA => config.mark_a,
                Cell::MarkB => config.mark_b,
            };
            i += 1;
        }
        marks
    }

    /// The marks of the two players, `A` first.
    pub fn players(&self) -> (marks: [char; 2])
        ensures
            marks@ == seq![self.spec_config().mark_a, self.spec_config().mark_b],
    {
        let config = self.config();
        [config.mark_a, config.mark_b]
    }

    /// Whether each player moves automatically, `A` first.
    pub fn auto_play(&self) -> (auto: [bool; 2])
        ensures
            auto@ == seq![self.spec_config().auto_a, self.spec_config().auto_b],
    {
        let config = self.config();
        [config.auto_a, config.auto_b]
    }

    /// The names of the two players' move sources, `A` first.
    pub fn play_type_str(&self) -> (names: [String; 2])
        ensures
            names@.len() == 2,
            names@[0]@ == mode_name(self.spec_config().auto_a),
            names@[1]@ == mode_name(self.spec_config().auto_b),
    {
        let config = self.config();
        [String::from_str(mode_str(config.auto_a)), String::from_str(mode_str(config.auto_b))]
    }

    /// The two players with their marks and move sources, on two lines.
    pub fn render_players(&self) -> (text: String)
        ensures
            text@ == players_text(self.spec_config()),
    {
        let config = self.config();
        let mut text = String::new();
        text.append("Player 1 :: ");
        text.push(config.mark_a);
        text.append(" (");
        text.append(mode_str(config.auto_a));
        text.append(" play)\nPlayer 2 :: ");
        text.push(config.mark_b);
        text.append(" (");
        text.append(mode_str(config.auto_b));
        text.append(" play)");
        text
    }

    /// The board for a page: the marks between double lines.
    pub fn render_board(&self) -> (text: String)
        ensures
            text@ == board_text(marks_of(self@.board, self.spec_config())),
    {
        let marks = self.marks();
        let mut text = render_grid(
            &marks,
            "\n ",
            " \u{2551} ",
            "\u{2550}\u{2550}\u{2550}\u{256c}\u{2550}\u{2550}\u{2550}\u{256c}\u{2550}\u{2550}\u{2550}\n",
        );
        text.append("\n");
        text
    }

    /// The index board for a page: the labels `0` to `8` in place of marks.
    /// The game stays as it is.
    pub fn render_indexed_board(&mut self) -> (text: String)
        ensures
            text@ == indexed_board_text(),
            *final(self) == *old(self),
    {
        let labels: [char; 9] = ['0', '1', '2', '3', '4', '5', '6', '7', '8'];
        let mut text = render_grid(&labels, "\n ", "   ", "           \n");
        text.append("\n");
        text
    }

    /// The index board for a console: the labels `0` to `8` between bars and
    /// dashes, and two line feeds after it.
    pub fn display_indexed_board(&self) -> (text: String)
        ensures
            text@ == console_board_text(index_labels()) + "\n\n"@,
    {
        let labels: [char; 9] = ['0', '1', '2', '3', '4', '5', '6', '7', '8'];
        let mut text = render_grid(&labels, "  ", " | ", " -----------\n");
        text.append("\n\n");
        text
    }

    /// The game for a console: a heading that says whose turn it is or that
    /// the game has ended, then the board between bars and dashes.
    pub fn display(&self) -> (text: String)
        ensures
            text@ == display_text(self@, self.spec_config()),
    {
        let config = self.config();
        let marks = self.marks();
        let mut text = String::new();
        text.append("\nGame ");
        if self.get_end_game() {
            text.append("ended");
        } else {
            text.append("in play, ");
            text.push(config.mark(self.current_player()));
            text.append("'s turn");
        }
        text.append(":\n");
        let grid = render_grid(&marks, "  ", " | ", " -----------\n");
        text.append(grid.as_str());
        text
    }

    /// The message for a drawn game.
    pub fn declare_draw(&self) -> (text: String)
        ensures
            text@ == draw_text(),
    {
        String::from_str("DRAW: nobody wins")
    }

    /// The message that names the winner of a game that was won.
    pub fn declare_winner(&self) -> (text: String)
        requires
            self@.outcome is Won,
        ensures
            text@ == winner_text(self.spec_config().spec_mark(self@.outcome->Won_0)),
    {
        let config = self.config();
        let mark = match self.get_outcome() {
            Outcome::Won(player) => config.mark(player),
            _ => ' ',
        };
        let mut text = String::new();
        text.append("Player ");
        text.push(mark);
        text.append(" is the WINNER!");
        text
    }

    /// The status line: whose turn it is while the game is in progress, else
    /// the message that names the winner or the message for a draw.
    pub fn render_status(&self) -> (text: String)
        ensures
            text@ == outcome_text(self@, self.spec_config()),
    {
        match self.get_outcome() {
            Outcome::InProgress => {
                let mut text = String::new();
                text.append("Game ");
                text.append("in play, ");
                text.push(self.config().mark(self.current_player()));
                text.append("'s turn");
                text
            },
            Outcome::Won(_) => self.declare_winner(),
            Outcome::Drawn => self.declare_draw(),
        }
    }
}

} // verus!
