use tictactoe::common::{Player, PLAYER_ONE_SYMBOL, PLAYER_TWO_SYMBOL};
use tictactoe::game::{change_cell, CellError, Game};

fn play(g: &mut Game, cells: &[(usize, usize, Player)]) {
    for &(x, y, p) in cells {
        assert!(g.set_cell(x, y, p));
    }
}

#[test]
fn new_board_is_empty_and_square() {
    let g = Game::new(3);
    assert_eq!(g.len(), 3);
    assert_eq!(g.current_player(), Player::PlayerOne);
    assert!(!g.is_over());
}

#[test]
fn set_cell_takes_free_cells_only() {
    let mut g = Game::new(3);
    assert!(g.set_cell(1, 2, Player::PlayerOne));
    assert!(!g.set_cell(1, 2, Player::PlayerTwo));
    assert!(!g.set_cell(3, 0, Player::PlayerTwo));
    assert!(!g.set_cell(0, 3, Player::PlayerTwo));
    assert!(g.set_cell(2, 1, Player::PlayerTwo));
}

#[test]
fn toggle_player_alternates_and_symbols_follow() {
    let mut g = Game::new(3);
    assert_eq!(g.current_symbol(), PLAYER_ONE_SYMBOL);
    g.toggle_player();
    assert_eq!(g.current_player(), Player::PlayerTwo);
    assert_eq!(g.current_symbol(), PLAYER_TWO_SYMBOL);
    g.toggle_player();
    assert_eq!(g.current_player(), Player::PlayerOne);
}

#[test]
fn full_first_row_is_terminal() {
    let mut g = Game::new(3);
    play(&mut g, &[(0, 0, Player::PlayerOne), (0, 1, Player::PlayerOne)]);
    assert!(!g.is_over());
    play(&mut g, &[(0, 2, Player::PlayerOne)]);
    assert!(g.is_over());
}

#[test]
fn drawn_full_board_is_not_terminal() {
    // X O X
    // X O O
    // O X X
    let mut g = Game::new(3);
    let one = Player::PlayerOne;
    let two = Player::PlayerTwo;
    play(
        &mut g,
        &[
            (0, 0, one),
            (0, 1, two),
            (0, 2, one),
            (1, 0, one),
            (1, 1, two),
            (1, 2, two),
            (2, 0, two),
            (2, 1, one),
            (2, 2, one),
        ],
    );
    assert!(!g.is_over());
}

#[test]
fn column_and_diagonals_are_terminal() {
    let mut g = Game::new(3);
    play(&mut g, &[(0, 1, Player::PlayerTwo), (1, 1, Player::PlayerTwo), (2, 1, Player::PlayerTwo)]);
    assert!(g.is_over());

    let mut g = Game::new(3);
    play(&mut g, &[(0, 0, Player::PlayerOne), (1, 1, Player::PlayerOne), (2, 2, Player::PlayerOne)]);
    assert!(g.is_over());

    let mut g = Game::new(4);
    play(
        &mut g,
        &[
            (0, 3, Player::PlayerTwo),
            (1, 2, Player::PlayerTwo),
            (2, 1, Player::PlayerTwo),
        ],
    );
    assert!(!g.is_over());
    play(&mut g, &[(3, 0, Player::PlayerTwo)]);
    assert!(g.is_over());
}

#[test]
fn mixed_line_is_not_terminal() {
    let mut g = Game::new(3);
    play(&mut g, &[(0, 0, Player::PlayerOne), (0, 1, Player::PlayerTwo), (0, 2, Player::PlayerOne)]);
    assert!(!g.is_over());
}

#[test]
fn empty_board_counts_as_terminal() {
    assert!(Game::new(0).is_over());
    assert_eq!(Game::new(0).len(), 0);
}

#[test]
fn apply_move_reports_each_error() {
    let mut g = Game::new(3);
    assert_eq!(g.apply_move(4, Player::PlayerOne), Ok(()));
    assert_eq!(g.apply_move(4, Player::PlayerTwo), Err(CellError::AlreadyOccupied));
    assert_eq!(g.apply_move(9, Player::PlayerTwo), Err(CellError::OutOfRange));
    assert_eq!(g.apply_move(8, Player::PlayerTwo), Ok(()));
    assert!(!g.set_cell(2, 2, Player::PlayerOne));
    assert!(!g.set_cell(1, 1, Player::PlayerOne));
    assert_eq!(Game::new(0).apply_move(0, Player::PlayerOne), Err(CellError::OutOfRange));
}

#[test]
fn change_cell_numbers_cells_row_by_row() {
    let mut g = Game::new(3);
    assert!(change_cell(&mut g, 5, Player::PlayerOne));
    assert!(!g.set_cell(1, 2, Player::PlayerTwo));
    assert!(!change_cell(&mut g, 5, Player::PlayerTwo));
    assert!(!change_cell(&mut g, 200, Player::PlayerTwo));
}

#[test]
fn render_empty_board() {
    let g = Game::new(3);
    let expected = "+-----+-----+-----+\n\
                    |  0  |  1  |  2  |\n\
                    +-----+-----+-----+\n\
                    |  3  |  4  |  5  |\n\
                    +-----+-----+-----+\n\
                    |  6  |  7  |  8  |\n\
                    +-----+-----+-----+\n";
    assert_eq!(g.render(), expected);
}

#[test]
fn render_shows_symbols_and_centres_two_digit_numbers() {
    let mut g = Game::new(4);
    assert!(g.set_cell(0, 1, Player::PlayerOne));
    assert!(g.set_cell(3, 3, Player::PlayerTwo));
    let text = g.render();
    let lines: Vec<&str> = text.split('\n').collect();
    assert_eq!(lines[0], "+-----+-----+-----+-----+");
    assert_eq!(lines[1], format!("|  0  |{}|  2  |  3  |", PLAYER_ONE_SYMBOL));
    assert_eq!(lines[5], "|  8  |  9  | 10  | 11  |");
    assert_eq!(lines[7], format!("| 12  | 13  | 14  |{}|", PLAYER_TWO_SYMBOL));
    assert_eq!(lines.len(), 10);
    assert_eq!(lines[9], "");
}
