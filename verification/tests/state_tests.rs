use fourstack::board::{BoardSpace, GameBoard, GamePiece, GRID_COLS, GRID_ROWS};
use fourstack::state::{EndgameType, GameState};

#[test]
fn toggle_player() {
    let mut state = GameState::default();
    let initial_player = *state.get_next_player();

    state.toggle_player();
    assert_ne!(state.get_next_player(), &initial_player);

    state.toggle_player();
    assert_eq!(state.get_next_player(), &initial_player);
}

#[test]
fn check_endgame_winner() {
    let mut board = GameBoard::default();
    let piece = GamePiece::Red;
    for _ in 0..4 {
        board.insert_piece(piece, 1).unwrap();
    }

    let state = GameState::new(board, GamePiece::Red);
    assert_eq!(EndgameType::Win(piece), state.check_endgame());
}

#[test]
fn check_endgame_full() {
    let mut board = GameBoard::default();

    // Fill board in a tie (full) state
    for col in 1..=GRID_COLS {
        let mut flip = match col {
            4 => true,
            _ => false,
        };
        for _ in 0..GRID_ROWS {
            let piece = match flip {
                true => GamePiece::Red,
                false => GamePiece::Yellow,
            };
            board.insert_piece(piece, col).unwrap();
            flip = !flip;
        }
    }

    let state = GameState::new(board, GamePiece::Red);
    assert_eq!(EndgameType::Full, state.check_endgame());
}

#[test]
fn check_endgame_none() {
    let state = GameState::default();
    assert_eq!(state.check_endgame(), EndgameType::Ongoing);
}

#[test]
fn win_takes_priority_over_full() {
    // A board that is simultaneously full and won reports the win.
    let grid = [[BoardSpace::Piece(GamePiece::Red); 7]; 6];
    let board = GameBoard::new(grid);
    assert!(board.is_full());
    assert_eq!(Some(GamePiece::Red), board.is_winner());

    let state = GameState::new(board, GamePiece::Yellow);
    assert_eq!(EndgameType::Win(GamePiece::Red), state.check_endgame());
}
