use fourstack::board::{BoardSpace, GameBoard, GamePiece};
use fourstack::manager::{AiGameManager, GameManager, LocalGameManager, ManagerError};
use fourstack::mode::GameMode;

fn occupied_cells(board: &GameBoard) -> usize {
    board
        .grid
        .iter()
        .flatten()
        .filter(|space| **space != BoardSpace::Empty)
        .count()
}

#[test]
fn local_manager_plays_one_move_per_turn() {
    let mut manager = LocalGameManager::default();
    manager.take_turn(4).unwrap();
    assert_eq!(1, occupied_cells(manager.get_state().get_board()));
    assert_eq!(&GamePiece::Yellow, manager.get_state().get_next_player());
}

#[test]
fn local_manager_rejects_an_invalid_column() {
    let mut manager = LocalGameManager::default();
    let err = manager.take_turn(0).unwrap_err();
    let ManagerError::TakeTurn(text) = err;
    assert_eq!(
        "Invalid move: Please choose a valid column number [1,7].",
        text
    );
    assert_eq!(0, occupied_cells(manager.get_state().get_board()));
}

#[test]
fn ai_manager_answers_the_move() {
    let mut manager = AiGameManager::default();
    manager.take_turn(1).unwrap();
    assert_eq!(2, occupied_cells(manager.get_state().get_board()));
    assert_eq!(&GamePiece::Red, manager.get_state().get_next_player());
}

#[test]
fn manager_error_message_passes_the_text_through() {
    let err = ManagerError::TakeTurn("no such column".to_string());
    assert_eq!("no such column", err.message());
}

#[test]
fn game_mode_try_from_menu_numbers() {
    assert_eq!(Ok(GameMode::Ai), GameMode::try_from(1));
    assert_eq!(Ok(GameMode::Local), GameMode::try_from(2));
    assert_eq!(Ok(GameMode::Online), GameMode::try_from(3));
    assert_eq!(Err(()), GameMode::try_from(0));
    assert_eq!(Err(()), GameMode::try_from(4));
    assert_eq!(GameMode::Ai, GameMode::default());
}
