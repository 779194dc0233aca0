//! Self-contained drivers that pair the engine with a user interface: a
//! single-machine game session, and a manager-driven session around a
//! [`crate::client::GameClient`]. The unbounded interaction loops that call
//! these drivers live outside the engine, since how long a user keeps
//! playing is not the engine's to bound.

use crate::ai::{choose_move, legal_col, spec_choose_move};
use crate::board::{board_empty, spec_insert, GamePiece};
use crate::client::AI_SEARCH_DEPTH;
use crate::mode::GameMode;
use crate::state::{terminal, GameState};
use crate::view::ViewManager;
use vstd::prelude::*;
use vstd::string::StringExecFns;

verus! {

broadcast use vstd::string::group_string_axioms;

/// Arbitrates the high-level workflow of one game session. This client is
/// agnostic to the game type (local, computer opponent, online) being
/// played, and has the same high-level workflow for all modes.
#[derive(Clone, Copy, Debug)]
pub struct GameClient<V> {
    pub game_mode: GameMode,
    pub player_one: GamePiece,
    pub game_state: GameState,
    pub view_manager: V,
}

impl<V> GameClient<V> {
    /// A fresh session in the given mode, rendered through the given view.
    pub fn new(game_mode: GameMode, view_manager: V) -> (r: Self)
        ensures
            r.game_mode == game_mode,
            r.player_one == GamePiece::Red,
            board_empty(r.game_state.board),
            r.game_state.next_player == GamePiece::Red,
    {
        Self {
            game_mode,
            player_one: GamePiece::Red,
            game_state: Default::default(),
            view_manager,
        }
    }
}

impl<V: ViewManager> GameClient<V> {
    /// Take a turn for a local player, including handling the UI. Used for
    /// both players in a local game, or the local machine player in other
    /// modes. The turn is not advanced here: the surrounding loop advances
    /// it once per accepted move.
    ///
    /// Returns a [`String`] error message if an invalid column is selected.
    pub fn take_turn_local(&mut self) -> (r: Result<(), String>)
        ensures
            final (self).game_mode == old(self).game_mode,
            final (self).player_one == old(self).player_one,
            final (self).game_state.next_player == old(self).game_state.next_player,
            r is Ok ==> exists|col: int|
                legal_col(old(self).game_state, col) && final (self).game_state.board
                    == spec_insert(
                    old(self).game_state.board,
                    old(self).game_state.next_player,
                    col - 1,
                ),
            r is Err ==> final (self).game_state == old(self).game_state,
            r matches Err(m) ==> (m@ == "Invalid move: "@ + crate::board::insert_error_text(
                crate::board::InsertError::InvalidColumn,
            ) || m@ == "Invalid move: "@ + crate::board::insert_error_text(
                crate::board::InsertError::FullColumn,
            )),
    {
        let column = self.view_manager.get_column_selection(
            self.game_state.get_board(),
            self.game_state.get_next_player(),
        );

        let piece = *self.game_state.get_next_player();
        match self.game_state.get_board_mut().insert_piece(piece, column) {
            Ok(_) => {
                proof {
                    assert(legal_col(old(self).game_state, column as int));
                }
                Ok(())
            },
            Err(e) => {
                let mut text = "Invalid move: ".to_string();
                text.append(e.message().as_str());
                Err(text)
            },
        }
    }

    /// Take a turn for the computer adversary: asks the engine for its
    /// move and applies it. As with `take_turn_local`, the surrounding
    /// loop advances the turn. Only the computer-opponent mode has a local
    /// adversary; a session must not call this in another mode, nor on a
    /// finished game.
    pub fn take_turn_adversary(&mut self)
        requires
            old(self).game_mode is Ai,
            !terminal(old(self).game_state),
        ensures
            final (self).game_mode == old(self).game_mode,
            final (self).player_one == old(self).player_one,
            final (self).game_state.next_player == old(self).game_state.next_player,
            spec_choose_move(old(self).game_state, AI_SEARCH_DEPTH as nat) matches Option::Some(c)
                && final (self).game_state.board == spec_insert(
                old(self).game_state.board,
                old(self).game_state.next_player,
                c - 1,
            ),
    {
        let col_choice = choose_move(&self.game_state, AI_SEARCH_DEPTH).unwrap();
        let player = *self.game_state.get_next_player();
        // The recommended column is legal, so this insertion cannot fail.
        let _ = self.game_state.get_board_mut().insert_piece(player, col_choice);
    }
}

/// Arbitrates the high-level workflow of a game driven by a
/// [`crate::client::GameClient`] implementation: the view gathers column
/// selections, the client applies them.
#[derive(Clone, Copy, Debug)]
pub struct GameManager<C, V> {
    pub client: C,
    pub view_manager: V,
}

impl<C: crate::client::GameClient, V: ViewManager> GameManager<C, V> {
    /// A manager driving the given client through the given view.
    pub fn new(client: C, view_manager: V) -> (r: Self)
        ensures
            r.client == client,
            r.view_manager == view_manager,
    {
        Self { client, view_manager }
    }
}

} // verus!
