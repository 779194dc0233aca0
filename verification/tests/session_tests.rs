use fourstack::board::{GameBoard, GamePiece};
use fourstack::client::LocalGameClient;
use fourstack::error::GameError;
use fourstack::board::InsertError;
use fourstack::mode::GameMode;
use fourstack::session::{GameClient, GameManager};
use fourstack::state::EndgameType;
use fourstack::view::ViewManager;

#[derive(Clone, Copy, Default)]
struct StubViewManager {
    column: usize,
}

impl StubViewManager {
    fn set_column(&mut self, column: usize) {
        self.column = column;
    }
}

impl ViewManager for StubViewManager {
    fn main_menu(&mut self) -> GameMode {
        panic!("the stub has no menu")
    }

    fn get_column_selection(&mut self, _board: &GameBoard, _player: &GamePiece) -> usize {
        self.column
    }

    fn show_error(&mut self, _error: String) {
        panic!("the stub shows no errors")
    }

    fn show_endgame(&mut self, _board: &GameBoard, _state: &EndgameType) -> bool {
        panic!("the stub shows no endgame")
    }
}

#[test]
fn take_turn_local_updates_board() {
    let mut view_manager = StubViewManager::default();
    view_manager.set_column(1);
    let mut client = GameClient::new(GameMode::Local, view_manager);
    let board_before = *client.game_state.get_board();

    client.take_turn_local().unwrap();
    let board_after = *client.game_state.get_board();

    assert_ne!(board_before, board_after);
}

#[test]
fn take_turn_adversary_updates_board() {
    let mut client = GameClient::new(GameMode::Ai, StubViewManager::default());
    let board_before = *client.game_state.get_board();

    client.take_turn_adversary();
    let board_after = *client.game_state.get_board();

    assert_ne!(board_before, board_after);
}

#[test]
fn take_turn_local_reports_an_invalid_selection() {
    let mut view_manager = StubViewManager::default();
    view_manager.set_column(0);
    let mut client = GameClient::new(GameMode::Local, view_manager);

    let err = client.take_turn_local().unwrap_err();
    assert_eq!(
        "Invalid move: Please choose a valid column number [1,7].",
        err
    );
    assert_eq!(GameBoard::default(), *client.game_state.get_board());
}

#[test]
fn manager_holds_its_parts() {
    let manager = GameManager::new(LocalGameClient::default(), StubViewManager::default());
    assert_eq!(0, manager.view_manager.column);
    let _ = manager.client;
}

#[test]
fn game_error_wraps_an_insert_error() {
    let err = GameError::from(InsertError::FullColumn);
    assert_eq!(GameError::AddPiece(InsertError::FullColumn), err);
    assert_eq!(
        "Error placing new piece: Selected column is full, please choose another column.",
        err.message()
    );
}
