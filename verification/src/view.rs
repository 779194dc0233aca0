//! The behavior of user-interface components. The engine never renders
//! anything itself: a driver supplies an implementation of this trait, and
//! the engine only passes it values to show and takes plain values back.

use crate::board::{GameBoard, GamePiece};
use crate::mode::GameMode;
use crate::state::EndgameType;
use vstd::prelude::*;

verus! {

/// Defines the behavior of UI components, mainly displaying individual
/// views/screens. Implementations live outside the engine and are free to
/// render however they like; the engine promises nothing about what they
/// return.
pub trait ViewManager {
    /// Displays the main menu, including the title splash and game mode
    /// selection menu. Returns the user-selected [`GameMode`].
    fn main_menu(&mut self) -> GameMode;

    /// Displays the game board and prompts the user for input to get a
    /// column number selection. Returns the column selection.
    fn get_column_selection(&mut self, board: &GameBoard, player: &GamePiece) -> usize;

    /// Displays an error message to the user.
    fn show_error(&mut self, error: String);

    /// Shows the endgame board state when a game is over and asks the user
    /// if they want to play again. Returns the user's choice to play again,
    /// where yes = true.
    fn show_endgame(&mut self, board: &GameBoard, state: &EndgameType) -> bool;
}

} // verus!
