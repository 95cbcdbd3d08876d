use tic_tac_toe::board::coord_mapping;
use tic_tac_toe::board::Board;
use tic_tac_toe::board::Coord;
use tic_tac_toe::board::CELLS;
use tic_tac_toe::board::WIN_LINES;
use tic_tac_toe::game::Game;
use tic_tac_toe::game::GameConfig;
use tic_tac_toe::game::NO_MOVE;
use tic_tac_toe::game::NO_WIN;
use tic_tac_toe::input::parse_move;
use tic_tac_toe::player::Cell;
use tic_tac_toe::player::IllegalMoveError;
use tic_tac_toe::player::Outcome;
use tic_tac_toe::player::Player;

const E: Cell = Cell::Empty;
const A: Cell = Cell::MarkA;
const B: Cell = Cell::MarkB;

fn manual_game(first: Player) -> Game {
    Game::with_config(GameConfig { first, auto_a: false, auto_b: false, ..GameConfig::default() })
}

#[test]
fn fresh_game_is_empty_and_in_progress() {
    let game = Game::new();
    assert_eq!(game.board(), Board { cells: [E; 9] });
    assert_eq!(game.get_outcome(), Outcome::InProgress);
    assert_eq!(game.current_player(), Player::A);
    assert_eq!(game.get_end_game(), false);
    assert_eq!(game.get_winner(), NO_WIN);
    assert_eq!(game.config(), GameConfig::default());
    assert_eq!(
        GameConfig::default(),
        GameConfig { first: Player::A, mark_a: 'X', mark_b: 'O', auto_a: true, auto_b: true }
    );
}

#[test]
fn configured_first_mover_starts() {
    let game = manual_game(Player::B);
    assert_eq!(game.current_player(), Player::B);
    assert_eq!(game.get_outcome(), Outcome::InProgress);
    assert_eq!(game.board(), Board::new());
}

#[test]
fn row_of_a_wins_for_a() {
    // A takes the top row in three moves, B plays elsewhere in between.
    let mut game = Game::new();
    assert_eq!(game.apply_move(0), Ok(Outcome::InProgress));
    assert_eq!(game.apply_move(4), Ok(Outcome::InProgress));
    assert_eq!(game.apply_move(1), Ok(Outcome::InProgress));
    assert_eq!(game.apply_move(8), Ok(Outcome::InProgress));
    assert_eq!(game.apply_move(2), Ok(Outcome::Won(Player::A)));
    assert_eq!(game.get_outcome(), Outcome::Won(Player::A));
    assert_eq!(game.board(), Board { cells: [A, A, A, E, B, E, E, E, B] });
    assert_eq!(game.get_winner(), 0);
    assert_eq!(game.get_end_game(), true);
    // the turn does not pass on after the winning move
    assert_eq!(game.current_player(), Player::A);
}

#[test]
fn full_board_without_line_is_drawn() {
    let position = Board { cells: [A, B, B, B, A, A, A, A, B] };
    assert_eq!(position.has_line(Player::A), false);
    assert_eq!(position.has_line(Player::B), false);
    assert_eq!(position.is_full(), true);
    assert_eq!(position.evaluate_outcome(), Outcome::Drawn);

    // the same position reached by play: A B B / B A A / A A B
    let mut game = Game::new();
    for index in [0, 1, 4, 2, 5, 3, 6, 8] {
        assert_eq!(game.apply_move(index), Ok(Outcome::InProgress));
    }
    assert_eq!(game.apply_move(7), Ok(Outcome::Drawn));
    assert_eq!(game.board(), position);
    assert_eq!(game.get_outcome(), Outcome::Drawn);
    assert_eq!(game.evaluate_outcome(), Outcome::Drawn);
    assert_eq!(game.get_winner(), NO_WIN);
    assert_eq!(game.get_end_game(), true);
    assert_eq!(game.current_player(), Player::A);
}

#[test]
fn full_board_with_diagonal_is_won() {
    // A B B / B A A / A B A: full, and A holds the diagonal 0-4-8
    let position = Board { cells: [A, B, B, B, A, A, A, B, A] };
    assert_eq!(position.is_full(), true);
    assert_eq!(position.has_line(Player::A), true);
    assert_eq!(position.evaluate_outcome(), Outcome::Won(Player::A));
    assert_eq!(position.is_draw(), false);
}

#[test]
fn centre_is_legal_until_taken() {
    let mut game = Game::new();
    assert_eq!(game.is_legal(4), true);
    assert_eq!(game.apply_move(4), Ok(Outcome::InProgress));
    assert_eq!(game.is_legal(4), false);
}

#[test]
fn diagonal_of_b_wins_for_b() {
    let position = Board { cells: [B, A, A, E, B, E, A, E, B] };
    assert_eq!(position.evaluate_outcome(), Outcome::Won(Player::B));
    assert_eq!(position.is_endgame(), true);
    assert_eq!(position.is_draw(), false);
    assert_eq!(position.is_consistent(), true);
}

#[test]
fn each_line_wins_for_its_holder() {
    for line in WIN_LINES.iter() {
        for (player, mark) in [(Player::A, A), (Player::B, B)] {
            let mut cells = [E; 9];
            for square in line.iter() {
                cells[*square] = mark;
            }
            let position = Board { cells };
            assert_eq!(position.has_line(player), true);
            assert_eq!(position.has_line(player.other()), false);
            assert_eq!(position.evaluate_outcome(), Outcome::Won(player));
        }
    }
}

#[test]
fn win_lines_are_the_eight_lines() {
    assert_eq!(
        WIN_LINES,
        [[0, 1, 2], [3, 4, 5], [6, 7, 8], [0, 3, 6], [1, 4, 7], [2, 5, 8], [0, 4, 8], [2, 4, 6]]
    );
}

#[test]
fn two_complete_lines_name_a_and_are_inconsistent() {
    let position = Board { cells: [B, B, B, A, A, A, E, E, E] };
    assert_eq!(position.has_line(Player::A), true);
    assert_eq!(position.has_line(Player::B), true);
    assert_eq!(position.is_consistent(), false);
    assert_eq!(position.evaluate_outcome(), Outcome::Won(Player::A));
}

#[test]
fn full_board_with_line_is_won_not_drawn() {
    let position = Board { cells: [A, B, B, B, A, B, A, A, A] };
    assert_eq!(position.is_full(), true);
    assert_eq!(position.evaluate_outcome(), Outcome::Won(Player::A));
    assert_eq!(position.is_draw(), false);
    assert_eq!(position.is_endgame(), true);
}

#[test]
fn illegal_moves_change_nothing() {
    let mut game = Game::new();
    game.apply_move(4).unwrap();
    let board = game.board();
    let player = game.current_player();
    let outcome = game.get_outcome();
    let config = game.config();

    // taken square, off the board, far off the board
    for index in [4, 9, 10, usize::MAX] {
        assert_eq!(game.apply_move(index), Err(IllegalMoveError { index }));
        assert_eq!(game.board(), board);
        assert_eq!(game.current_player(), player);
        assert_eq!(game.get_outcome(), outcome);
        assert_eq!(game.config(), config);
    }
}

#[test]
fn no_move_after_the_game_has_ended() {
    let mut game = Game::new();
    for index in [0, 3, 1, 4, 2] {
        game.apply_move(index).unwrap();
    }
    assert_eq!(game.get_outcome(), Outcome::Won(Player::A));
    let board = game.board();
    // square 8 is empty, yet the game is over
    assert_eq!(game.is_legal(8), true);
    assert_eq!(game.apply_move(8), Err(IllegalMoveError { index: 8 }));
    assert_eq!(game.board(), board);
    assert_eq!(game.get_outcome(), Outcome::Won(Player::A));
    assert_eq!(game.current_player(), Player::A);
    assert_eq!(game.update(8), NO_MOVE);
    assert_eq!(game.board(), board);
}

#[test]
fn turn_alternates_while_in_progress() {
    let mut game = Game::new();
    let mut expected = Player::A;
    for index in [4, 0, 8, 2, 1] {
        assert_eq!(game.current_player(), expected);
        assert_eq!(game.apply_move(index), Ok(Outcome::InProgress));
        expected = expected.other();
        assert_eq!(game.current_player(), expected);
    }
}

#[test]
fn marks_follow_the_player_to_move() {
    let mut game = manual_game(Player::B);
    game.apply_move(0).unwrap();
    game.apply_move(1).unwrap();
    assert_eq!(game.board(), Board { cells: [B, A, E, E, E, E, E, E, E] });
    assert_eq!(game.board().get(0), Some(B));
    assert_eq!(game.board().get(1), Some(A));
    assert_eq!(game.board().get(2), Some(E));
    assert_eq!(game.board().get(9), None);
}

#[test]
fn reset_gives_a_fresh_game_and_keeps_the_configuration() {
    let config = GameConfig { first: Player::B, mark_a: 'a', mark_b: 'b', auto_a: false, auto_b: true };
    let mut game = Game::with_config(config);
    game.start(true, false);
    for index in [0, 3, 1, 4, 2] {
        game.apply_move(index).unwrap();
    }
    assert_eq!(game.get_outcome(), Outcome::Won(Player::B));
    game.reset();

    let kept = GameConfig { first: Player::B, mark_a: 'a', mark_b: 'b', auto_a: true, auto_b: false };
    assert_eq!(game, Game::with_config(kept));
    assert_eq!(game.board(), Board::new());
    assert_eq!(game.get_outcome(), Outcome::InProgress);
    assert_eq!(game.current_player(), Player::B);
    assert_eq!(game.config(), kept);
}

#[test]
fn start_changes_the_move_sources_only() {
    let mut game = Game::new();
    game.apply_move(4).unwrap();
    let board = game.board();
    game.start(false, true);
    assert_eq!(game.board(), board);
    assert_eq!(game.current_player(), Player::B);
    assert_eq!(game.get_outcome(), Outcome::InProgress);
    assert_eq!(
        game.config(),
        GameConfig { first: Player::A, mark_a: 'X', mark_b: 'O', auto_a: false, auto_b: true }
    );
    assert_eq!(game.config().is_auto(Player::A), false);
    assert_eq!(game.config().is_auto(Player::B), true);
    assert_eq!(game.config().mark(Player::A), 'X');
    assert_eq!(game.config().mark(Player::B), 'O');
}

#[test]
fn index_and_coordinates_round_trip() {
    for row in 0..3 {
        for col in 0..3 {
            let index = Board::index_of(row, col).unwrap();
            assert_eq!(index, row * 3 + col);
            assert_eq!(Board::coords_of(index), (row, col));
        }
    }
    for index in 0..9 {
        let (row, col) = Board::coords_of(index);
        assert_eq!(Board::index_of(row, col), Some(index));
    }
    assert_eq!(Board::index_of(1, 2), Some(5));
    assert_eq!(Board::coords_of(7), (2, 1));
    assert_eq!(Board::index_of(3, 0), None);
    assert_eq!(Board::index_of(0, 3), None);
    assert_eq!(Board::index_of(usize::MAX, usize::MAX), None);
}

#[test]
fn coord_mapping_is_row_major_and_all_legal() {
    let coordinates = coord_mapping();
    assert_eq!(coordinates.len(), CELLS);
    assert_eq!(coordinates[0], Coord { x: 0, y: 0, legal: true });
    assert_eq!(coordinates[5], Coord { x: 1, y: 2, legal: true });
    assert_eq!(coordinates[8], Coord { x: 2, y: 2, legal: true });
    for (index, coord) in coordinates.iter().enumerate() {
        assert_eq!(*coord, Coord { x: index / 3, y: index % 3, legal: true });
    }
}

#[test]
fn coordinates_tell_which_squares_are_free() {
    let position = Board { cells: [A, E, B, E, E, E, E, E, A] };
    let coordinates = position.coordinates();
    let legal: Vec<bool> = coordinates.iter().map(|coord| coord.legal).collect();
    assert_eq!(legal, vec![false, true, false, true, true, true, true, true, false]);
    assert_eq!(coordinates[2], Coord { x: 0, y: 2, legal: false });
}

#[test]
fn legal_moves_are_the_empty_squares_in_order() {
    assert_eq!(Board::new().legal_moves(), vec![0, 1, 2, 3, 4, 5, 6, 7, 8]);
    let position = Board { cells: [A, E, B, E, A, E, B, E, A] };
    assert_eq!(position.legal_moves(), vec![1, 3, 5, 7]);
    let full = Board { cells: [A, B, B, B, A, A, A, A, B] };
    assert_eq!(full.legal_moves(), Vec::<usize>::new());

    let mut game = Game::new();
    game.apply_move(4).unwrap();
    assert_eq!(game.legal_moves(), vec![0, 1, 2, 3, 5, 6, 7, 8]);
}

#[test]
fn is_legal_on_and_off_the_board() {
    let position = Board { cells: [A, E, B, E, E, E, E, E, E] };
    assert_eq!(position.is_legal(0), false);
    assert_eq!(position.is_legal(1), true);
    assert_eq!(position.is_legal(2), false);
    assert_eq!(position.is_legal(8), true);
    assert_eq!(position.is_legal(9), false);
    assert_eq!(position.is_legal(usize::MAX), false);
}

#[test]
fn row_winner_wants_three_equal_marks() {
    assert_eq!(Board::row_winner(&vec![A, A, A]), Some(Player::A));
    assert_eq!(Board::row_winner(&vec![B, B, B]), Some(Player::B));
    assert_eq!(Board::row_winner(&vec![E, E, E]), None);
    assert_eq!(Board::row_winner(&vec![A, A]), None);
    assert_eq!(Board::row_winner(&vec![A, A, A, A]), None);
    assert_eq!(Board::row_winner(&vec![]), None);
    assert_eq!(Board::is_win(&vec![E, E, E]), false);
    assert_eq!(Board::is_win(&vec![B, B, B, B]), false);
}

#[test]
fn players_cells_and_outcomes() {
    assert_eq!(Player::A.other(), Player::B);
    assert_eq!(Player::B.other(), Player::A);
    assert_eq!(Player::A.cell(), A);
    assert_eq!(Player::B.cell(), B);
    assert_eq!(Player::A.index(), 0);
    assert_eq!(Player::B.index(), 1);
    assert_eq!(E.owner(), None);
    assert_eq!(A.owner(), Some(Player::A));
    assert_eq!(B.owner(), Some(Player::B));
    assert_eq!(Outcome::InProgress.is_terminal(), false);
    assert_eq!(Outcome::Drawn.is_terminal(), true);
    assert_eq!(Outcome::Won(Player::B).is_terminal(), true);
}

#[test]
fn manual_update_plays_the_given_index() {
    let mut game = manual_game(Player::A);
    assert_eq!(game.update(4), 4);
    assert_eq!(game.board(), Board { cells: [E, E, E, E, A, E, E, E, E] });
    assert_eq!(game.current_player(), Player::B);
    assert_eq!(game.update(0), 0);
    assert_eq!(game.board(), Board { cells: [B, E, E, E, A, E, E, E, E] });
    assert_eq!(game.current_player(), Player::A);
}

#[test]
fn manual_update_returns_the_sentinel_for_a_move_that_is_not_allowed() {
    let mut game = manual_game(Player::A);
    assert_eq!(game.update(4), 4);
    let board = game.board();
    for index in [9, 10, 100, usize::MAX, 4] {
        assert_eq!(game.update(index), NO_MOVE);
        assert_eq!(game.board(), board);
        assert_eq!(game.current_player(), Player::B);
        assert_eq!(game.get_outcome(), Outcome::InProgress);
    }
    assert_eq!(NO_MOVE, 9);
    assert_eq!(NO_WIN, 9);
}

#[test]
fn manual_move_keeps_an_index_on_the_board() {
    let game = Game::new();
    for index in 0..9 {
        assert_eq!(game.manual_move(index), index);
    }
    assert_eq!(game.manual_move(9), NO_MOVE);
    assert_eq!(game.manual_move(usize::MAX), NO_MOVE);
}

#[test]
fn auto_move_is_always_legal() {
    for _ in 0..200 {
        let mut game = manual_game(Player::A);
        game.apply_move(4).unwrap();
        game.apply_move(0).unwrap();
        let loc = game.auto_move();
        assert!(loc < 9);
        assert!(game.is_legal(loc));
        assert!(loc != 4 && loc != 0);
    }
}

#[test]
fn auto_move_takes_the_last_free_square() {
    // one square is left: index 7
    let mut game = Game::new();
    for index in [0, 1, 4, 2, 5, 3, 6, 8] {
        game.apply_move(index).unwrap();
    }
    assert_eq!(game.legal_moves(), vec![7]);
    assert_eq!(game.auto_move(), 7);
    assert_eq!(game.update(NO_MOVE), 7);
    assert_eq!(game.get_outcome(), Outcome::Drawn);
    // nothing is left to draw from
    assert_eq!(game.auto_move(), NO_MOVE);
    assert_eq!(game.update(NO_MOVE), NO_MOVE);
}

#[test]
fn auto_move_reaches_every_free_square() {
    let game = Game::new();
    let mut seen = [false; 9];
    for _ in 0..2000 {
        seen[game.auto_move()] = true;
    }
    assert_eq!(seen, [true; 9]);
}

#[test]
fn automatic_update_ignores_the_given_index() {
    for _ in 0..50 {
        let mut game = Game::new();
        game.apply_move(4).unwrap();
        // B moves automatically: square 4 is taken, so it is never the answer
        let loc = game.update(4);
        assert!(loc < 9 && loc != 4);
        assert_eq!(game.board().get(loc), Some(B));
        assert_eq!(game.current_player(), Player::A);
    }
}

#[test]
fn automatic_games_end_consistently() {
    for _ in 0..200 {
        let mut game = Game::new();
        let mut moves = 0;
        while !game.get_end_game() {
            let loc = game.update(NO_MOVE);
            assert!(loc < 9);
            moves += 1;
            assert_eq!(game.get_outcome(), game.evaluate_outcome());
            assert!(game.board().is_consistent());
        }
        assert!(moves >= 5 && moves <= 9);
        match game.get_outcome() {
            Outcome::Won(player) => assert_eq!(game.get_winner(), player.index()),
            Outcome::Drawn => {
                assert_eq!(moves, 9);
                assert_eq!(game.get_winner(), NO_WIN);
            }
            Outcome::InProgress => panic!("the game has ended"),
        }
    }
}

#[test]
fn parse_move_reads_the_first_character() {
    assert_eq!(parse_move("0"), Some(0));
    assert_eq!(parse_move("4\n"), Some(4));
    assert_eq!(parse_move("8"), Some(8));
    assert_eq!(parse_move("12"), Some(1));
    assert_eq!(parse_move("9"), None);
    assert_eq!(parse_move(""), None);
    assert_eq!(parse_move("\n"), None);
    assert_eq!(parse_move(" 3"), None);
    assert_eq!(parse_move("x"), None);
    assert_eq!(parse_move("/"), None);
    assert_eq!(parse_move(":"), None);
    assert_eq!(parse_move("\u{2551}1"), None);
}
