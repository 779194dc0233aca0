//! Arbitrates the lifecycle of a game: one manager per game mode, each
//! exposing the same turn-taking interface to the driver above it.

use crate::ai::{choose_move, legal_col, spec_child};
use crate::board::{board_empty, insert_error_text, GamePiece};
use crate::client::{process_move, rejected_insert_error, ai_response, AI_SEARCH_DEPTH};
use crate::state::GameState;
use vstd::prelude::*;

verus! {

/// An error from a player's turn.
#[derive(Clone, Debug)]
pub enum ManagerError {
    /// The turn could not be taken; the payload is display text for the
    /// user. The game state is untouched.
    TakeTurn(String),
}

impl ManagerError {
    /// The display text of this error.
    pub fn message(self) -> (r: String)
        ensures
            ({
                let ManagerError::TakeTurn(m) = self;
                r@ == m@
            }),
    {
        match self {
            ManagerError::TakeTurn(m) => m,
        }
    }
}

/// Defines top-level APIs for each game manager type. There is one
/// implementation per game mode the engine can run by itself.
pub trait GameManager: Sized {
    /// The game state this manager currently holds.
    spec fn state_view(&self) -> GameState;

    /// The state this manager will hold after a legal turn in
    /// `column_selection` (for the computer-opponent manager this includes
    /// the engine's reply).
    spec fn post_state(&self, column_selection: usize) -> GameState;

    /// Workflow for a player taking a turn from start to finish: a legal
    /// column advances the game, an illegal one changes nothing and
    /// reports why.
    fn take_turn(&mut self, column_selection: usize) -> (r: Result<(), ManagerError>)
        ensures
            legal_col(old(self).state_view(), column_selection as int) ==> final (self).state_view()
                == old(self).post_state(column_selection) && r is Ok,
            !legal_col(old(self).state_view(), column_selection as int) ==> *final (self) == *old(
                self,
            ) && (r matches Err(e) && ({
                let ManagerError::TakeTurn(m) = e;
                m@ == "Invalid move: "@ + insert_error_text(rejected_insert_error(column_selection))
            })),
    ;

    /// Returns an immutable reference to the current game state; mainly
    /// used for UI.
    fn get_state(&self) -> (r: &GameState)
        ensures
            *r == self.state_view(),
    ;
}

/// Manages game logic for local player vs player games.
#[derive(Clone, Copy, Debug)]
pub struct LocalGameManager {
    pub state: GameState,
}

impl Default for LocalGameManager {
    /// A manager holding a fresh game.
    fn default() -> (r: Self)
        ensures
            board_empty(r.state.board),
            r.state.next_player == GamePiece::Red,
    {
        Self { state: Default::default() }
    }
}

impl GameManager for LocalGameManager {
    open spec fn state_view(&self) -> GameState {
        self.state
    }

    open spec fn post_state(&self, column_selection: usize) -> GameState {
        spec_child(self.state, column_selection as int)
    }

    fn take_turn(&mut self, column_selection: usize) -> Result<(), ManagerError> {
        match process_move(&mut self.state, column_selection) {
            Ok(_) => Ok(()),
            Err(e) => Err(ManagerError::TakeTurn(e.message())),
        }
    }

    fn get_state(&self) -> &GameState {
        &self.state
    }
}

/// Manages game logic for local player vs computer games: each accepted
/// turn plays the user's move and, while the game still runs, the engine's
/// reply.
#[derive(Clone, Copy, Debug)]
pub struct AiGameManager {
    pub state: GameState,
}

impl Default for AiGameManager {
    /// A manager holding a fresh game.
    fn default() -> (r: Self)
        ensures
            board_empty(r.state.board),
            r.state.next_player == GamePiece::Red,
    {
        Self { state: Default::default() }
    }
}

impl GameManager for AiGameManager {
    open spec fn state_view(&self) -> GameState {
        self.state
    }

    open spec fn post_state(&self, column_selection: usize) -> GameState {
        ai_response(spec_child(self.state, column_selection as int))
    }

    fn take_turn(&mut self, column_selection: usize) -> Result<(), ManagerError> {
        match process_move(&mut self.state, column_selection) {
            Err(e) => Err(ManagerError::TakeTurn(e.message())),
            Ok(_) => {
                match choose_move(&self.state, AI_SEARCH_DEPTH) {
                    Option::Some(ai_move) => {
                        // The recommended column is legal, so this move
                        // cannot be rejected.
                        let _ = process_move(&mut self.state, ai_move);
                        Ok(())
                    },
                    Option::None => Ok(()),
                }
            },
        }
    }

    fn get_state(&self) -> &GameState {
        &self.state
    }
}

/// Placeholder for online player vs player games: matchmaking and state
/// synchronization run over the network, outside the engine, so no manager
/// logic lives here.
#[derive(Clone, Copy, Debug, Default)]
pub struct OnlineGameManager {}

} // verus!
