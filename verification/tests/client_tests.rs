use fourstack::board::{BoardSpace, GameBoard, GamePiece};
use fourstack::client::{AiGameClient, ClientError, GameClient, LocalGameClient, process_move};
use fourstack::mode::GameMode;
use fourstack::state::{EndgameType, GameState};
use fourstack::view::ViewManager;

fn occupied_cells(board: &GameBoard) -> usize {
    board
        .grid
        .iter()
        .flatten()
        .filter(|space| **space != BoardSpace::Empty)
        .count()
}

#[test]
fn process_move_applies_and_advances_the_turn() {
    let mut state = GameState::default();
    let updated = process_move(&mut state, 4).unwrap();
    assert_eq!(1, occupied_cells(updated.get_board()));
    assert_eq!(&GamePiece::Yellow, updated.get_next_player());
}

#[test]
fn process_move_rejects_an_invalid_column() {
    let mut state = GameState::default();
    let before = *state.get_board();
    let err = process_move(&mut state, 9).unwrap_err();
    let ClientError::InvalidMove(text) = err;
    assert_eq!("Please choose a valid column number [1,7].", text);
    assert_eq!(before, *state.get_board());
    assert_eq!(&GamePiece::Red, state.get_next_player());
}

#[test]
fn client_error_message_names_the_move() {
    let err = ClientError::InvalidMove("the column is full".to_string());
    assert_eq!("Invalid move: the column is full", err.message());
}

#[test]
fn local_client_plays_one_move_per_call() {
    let mut client = LocalGameClient::default();
    let updated = client.handle_input_move(1).unwrap();
    assert_eq!(1, occupied_cells(updated.get_board()));
    assert_eq!(&GamePiece::Yellow, updated.get_next_player());
    assert_eq!(1, occupied_cells(client.get_current_state().get_board()));
}

#[test]
fn ai_client_answers_the_move() {
    let mut client = AiGameClient::default();
    let updated = client.handle_input_move(1).unwrap();
    // The user's piece and the engine's reply are both on the board, and it
    // is the user's turn again.
    assert_eq!(2, occupied_cells(updated.get_board()));
    assert_eq!(&GamePiece::Red, updated.get_next_player());
    assert_eq!(EndgameType::Ongoing, updated.check_endgame());
}

#[test]
fn ai_client_passes_when_the_users_move_ends_the_game() {
    // The board is one cell short of full, with no four-in-a-row anywhere;
    // the user's move fills it, so the engine has no reply and passes.
    let mut board = GameBoard::default();
    for col in 1..=7 {
        let mut flip = col == 4;
        let rows = if col == 7 { 5 } else { 6 };
        for _ in 0..rows {
            let piece = if flip { GamePiece::Red } else { GamePiece::Yellow };
            board.insert_piece(piece, col).unwrap();
            flip = !flip;
        }
    }
    let mut client = AiGameClient {
        game_state: GameState::new(board, GamePiece::Red),
    };
    let updated = client.handle_input_move(7).unwrap();
    assert_eq!(42, occupied_cells(updated.get_board()));
    assert_eq!(EndgameType::Full, updated.check_endgame());
}

#[test]
fn ai_client_leaves_state_untouched_on_a_bad_move() {
    let mut client = AiGameClient::default();
    assert!(client.handle_input_move(0).is_err());
    assert_eq!(0, occupied_cells(client.get_current_state().get_board()));
}

struct CountingView {
    menus: usize,
}

impl ViewManager for CountingView {
    fn main_menu(&mut self) -> GameMode {
        self.menus += 1;
        GameMode::Local
    }

    fn get_column_selection(&mut self, _board: &GameBoard, _player: &GamePiece) -> usize {
        3
    }

    fn show_error(&mut self, _error: String) {}

    fn show_endgame(&mut self, _board: &GameBoard, _state: &EndgameType) -> bool {
        false
    }
}

#[test]
fn view_manager_is_usable_from_outside_the_engine() {
    let mut view = CountingView { menus: 0 };
    assert_eq!(GameMode::Local, view.main_menu());
    assert_eq!(1, view.menus);
    let state = GameState::default();
    assert_eq!(3, view.get_column_selection(state.get_board(), state.get_next_player()));
}
