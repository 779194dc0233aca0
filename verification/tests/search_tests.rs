use fourstack::ai::{FourStackRules, NaiveEvaluator, Winner};
use fourstack::board::{GameBoard, GamePiece, GRID_COLS, GRID_ROWS};
use fourstack::state::GameState;

fn bottom_row_red_three(next: GamePiece) -> GameState {
    // Red pieces in the bottom row of columns 1..=3; column 4 completes the run.
    let mut board = GameBoard::default();
    for col in 1..=3 {
        board.insert_piece(GamePiece::Red, col).unwrap();
    }
    GameState::new(board, next)
}

#[test]
fn generate_moves_on_empty_board_yields_every_column() {
    let state = GameState::default();
    let mut moves: Vec<usize> = Vec::new();
    FourStackRules::generate_moves(&state, &mut moves);
    assert_eq!(vec![1, 2, 3, 4, 5, 6, 7], moves);
}

#[test]
fn generate_moves_skips_full_columns() {
    let mut board = GameBoard::default();
    for _ in 0..GRID_ROWS {
        board.insert_piece(GamePiece::Red, 4).unwrap();
    }
    let state = GameState::new(board, GamePiece::Yellow);
    let mut moves: Vec<usize> = Vec::new();
    FourStackRules::generate_moves(&state, &mut moves);
    assert_eq!(vec![1, 2, 3, 5, 6, 7], moves);
}

#[test]
fn generate_moves_on_a_full_board_yields_nothing() {
    let mut board = GameBoard::default();
    for col in 1..=GRID_COLS {
        let mut flip = col == 4;
        for _ in 0..GRID_ROWS {
            let piece = if flip { GamePiece::Red } else { GamePiece::Yellow };
            board.insert_piece(piece, col).unwrap();
            flip = !flip;
        }
    }
    let state = GameState::new(board, GamePiece::Red);
    let mut moves: Vec<usize> = Vec::new();
    FourStackRules::generate_moves(&state, &mut moves);
    assert!(moves.is_empty());
}

#[test]
fn apply_advances_the_turn() {
    let mut state = GameState::default();
    let result = FourStackRules::apply(&mut state, 4);
    assert!(result.is_some());
    assert_eq!(&GamePiece::Yellow, state.get_next_player());
    assert_ne!(GameBoard::default(), *state.get_board());
}

#[test]
fn apply_rejects_an_illegal_column() {
    let mut state = GameState::default();
    let before = *state.get_board();
    assert!(FourStackRules::apply(&mut state, 0).is_none());
    assert_eq!(before, *state.get_board());
    assert_eq!(&GamePiece::Red, state.get_next_player());
}

#[test]
fn get_winner_on_a_running_game_is_none() {
    assert_eq!(None, FourStackRules::get_winner(&GameState::default()));
}

#[test]
fn get_winner_reports_the_side_to_move() {
    let mut board = GameBoard::default();
    for _ in 0..4 {
        board.insert_piece(GamePiece::Red, 2).unwrap();
    }
    let red_to_move = GameState::new(board, GamePiece::Red);
    assert_eq!(
        Some(Winner::PlayerToMove),
        FourStackRules::get_winner(&red_to_move)
    );
    let yellow_to_move = GameState::new(board, GamePiece::Yellow);
    assert_eq!(
        Some(Winner::PlayerJustMoved),
        FourStackRules::get_winner(&yellow_to_move)
    );
}

#[test]
fn get_winner_reports_a_draw_on_a_full_board() {
    let mut board = GameBoard::default();
    for col in 1..=GRID_COLS {
        let mut flip = col == 4;
        for _ in 0..GRID_ROWS {
            let piece = if flip { GamePiece::Red } else { GamePiece::Yellow };
            board.insert_piece(piece, col).unwrap();
            flip = !flip;
        }
    }
    let state = GameState::new(board, GamePiece::Red);
    assert_eq!(Some(Winner::Draw), FourStackRules::get_winner(&state));
}

#[test]
fn evaluate_scores_terminal_states_by_sign() {
    let evaluator = NaiveEvaluator;

    let mut board = GameBoard::default();
    for _ in 0..4 {
        board.insert_piece(GamePiece::Yellow, 6).unwrap();
    }
    let winner_to_move = GameState::new(board, GamePiece::Yellow);
    assert_eq!(1, evaluator.evaluate(&winner_to_move));
    let loser_to_move = GameState::new(board, GamePiece::Red);
    assert_eq!(-1, evaluator.evaluate(&loser_to_move));

    assert_eq!(0, evaluator.evaluate(&GameState::default()));
}

#[test]
fn choose_move_finds_the_winning_column() {
    let state = bottom_row_red_three(GamePiece::Red);
    assert_eq!(Some(4), fourstack::ai::choose_move(&state, 2));
}

#[test]
fn choose_move_on_a_terminal_state_returns_no_move() {
    let mut board = GameBoard::default();
    for _ in 0..4 {
        board.insert_piece(GamePiece::Red, 5).unwrap();
    }
    let won = GameState::new(board, GamePiece::Yellow);
    assert_eq!(None, fourstack::ai::choose_move(&won, 5));

    let mut full = GameBoard::default();
    for col in 1..=GRID_COLS {
        let mut flip = col == 4;
        for _ in 0..GRID_ROWS {
            let piece = if flip { GamePiece::Red } else { GamePiece::Yellow };
            full.insert_piece(piece, col).unwrap();
            flip = !flip;
        }
    }
    let drawn = GameState::new(full, GamePiece::Red);
    assert_eq!(None, fourstack::ai::choose_move(&drawn, 5));
}

#[test]
fn choose_move_is_deterministic() {
    let mut board = GameBoard::default();
    board.insert_piece(GamePiece::Red, 3).unwrap();
    board.insert_piece(GamePiece::Yellow, 3).unwrap();
    board.insert_piece(GamePiece::Red, 5).unwrap();
    let state = GameState::new(board, GamePiece::Yellow);

    let first = fourstack::ai::choose_move(&state, 3);
    let second = fourstack::ai::choose_move(&state, 3);
    assert_eq!(first, second);
    assert!(first.is_some());
}

#[test]
fn choose_move_returns_a_legal_column() {
    // Columns 1..=3 are full; the recommendation must still be playable.
    let mut board = GameBoard::default();
    for col in 1..=3 {
        for row in 0..GRID_ROWS {
            let piece = if row % 2 == 0 { GamePiece::Red } else { GamePiece::Yellow };
            board.insert_piece(piece, col).unwrap();
        }
    }
    let mut state = GameState::new(board, GamePiece::Red);
    let chosen = fourstack::ai::choose_move(&state, 2).unwrap();
    assert!((4..=GRID_COLS).contains(&chosen));
    assert!(FourStackRules::apply(&mut state, chosen).is_some());
}
