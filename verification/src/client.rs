//! Handles moves and updates game state: one client per game mode, each
//! exposing the same two operations to the driver above it.

use crate::ai::{choose_move, legal_col, spec_child, spec_choose_move};
use crate::board::{board_empty, insert_error_text, GamePiece, InsertError, GRID_COLS};
use crate::state::GameState;
use vstd::prelude::*;
use vstd::string::StringExecFns;

verus! {

broadcast use vstd::string::group_string_axioms;

/// The ply budget the computer opponent explores for its reply.
pub const AI_SEARCH_DEPTH: usize = 7;

/// An error from handling a player's move.
#[derive(Clone, Debug)]
pub enum ClientError {
    /// The requested move was rejected; the payload is the display text of
    /// the underlying insertion error. The game state is untouched.
    InvalidMove(String),
}

impl ClientError {
    /// The display text of this error.
    pub fn message(self) -> (r: String)
        ensures
            ({
                let ClientError::InvalidMove(m) = self;
                r@ == "Invalid move: "@ + m@
            }),
    {
        match self {
            ClientError::InvalidMove(m) => {
                let mut text = "Invalid move: ".to_string();
                text.append(m.as_str());
                text
            },
        }
    }
}

/// The insertion error that a rejected move into `column_num` ran into: an
/// out-of-range column is invalid, an in-range one must have been full.
pub open spec fn rejected_insert_error(column_num: usize) -> InsertError {
    if 1 <= column_num <= GRID_COLS {
        InsertError::FullColumn
    } else {
        InsertError::InvalidColumn
    }
}

/// Applies the move of the side to move into 1-based column `column_num`:
/// on success the piece lands in that column, the turn advances, and the
/// updated state is returned. A column out of range or full leaves the
/// state untouched and reports the rejection.
pub fn process_move(game_state: &mut GameState, column_num: usize) -> (r: Result<
    GameState,
    ClientError,
>)
    ensures
        legal_col(*old(game_state), column_num as int) ==> *final (game_state) == spec_child(
            *old(game_state),
            column_num as int,
        ) && r == Ok::<GameState, ClientError>(*final (game_state)),
        !legal_col(*old(game_state), column_num as int) ==> *final (game_state) == *old(game_state)
            && (r matches Err(e) && ({
            let ClientError::InvalidMove(m) = e;
            m@ == insert_error_text(rejected_insert_error(column_num))
        })),
{
    let next_player = *game_state.get_next_player();
    match game_state.get_board_mut().insert_piece(next_player, column_num) {
        Ok(_) => {
            game_state.toggle_player();
            Ok(*game_state)
        },
        Err(insert_error) => Err(ClientError::InvalidMove(insert_error.message())),
    }
}

/// Public game-state client APIs to interact with different game-mode
/// drivers. A client holds the authoritative state of one running game;
/// `handle_input_move` feeds it the local player's column selection.
pub trait GameClient: Sized {
    /// The game state this client currently holds.
    spec fn state_view(&self) -> GameState;

    /// The state this client will hold after a legal move in `column_num`
    /// has been handled (for the computer-opponent client this includes the
    /// engine's reply).
    spec fn post_state(&self, column_num: usize) -> GameState;

    /// Yields the current [`GameState`].
    fn get_current_state(&self) -> (s: GameState)
        ensures
            s == self.state_view(),
    ;

    /// Handler for user-supplied input move as a column number.
    ///
    /// Returns the updated [`GameState`] upon success, or the corresponding
    /// [`ClientError`]; a rejected move leaves the client untouched.
    fn handle_input_move(&mut self, column_num: usize) -> (r: Result<GameState, ClientError>)
        ensures
            legal_col(old(self).state_view(), column_num as int) ==> final (self).state_view()
                == old(self).post_state(column_num) && r == Ok::<GameState, ClientError>(
                final (self).state_view(),
            ),
            !legal_col(old(self).state_view(), column_num as int) ==> *final (self) == *old(self)
                && (r matches Err(e) && ({
                let ClientError::InvalidMove(m) = e;
                m@ == insert_error_text(rejected_insert_error(column_num))
            })),
    ;
}

/// Runs a game for two local players: each call to `handle_input_move`
/// plays one move for whoever is next.
#[derive(Clone, Copy, Debug)]
pub struct LocalGameClient {
    pub game_state: GameState,
}

impl Default for LocalGameClient {
    /// A client holding a fresh game.
    fn default() -> (r: Self)
        ensures
            board_empty(r.game_state.board),
            r.game_state.next_player == GamePiece::Red,
    {
        Self { game_state: Default::default() }
    }
}

impl GameClient for LocalGameClient {
    open spec fn state_view(&self) -> GameState {
        self.game_state
    }

    open spec fn post_state(&self, column_num: usize) -> GameState {
        spec_child(self.game_state, column_num as int)
    }

    fn get_current_state(&self) -> GameState {
        self.game_state
    }

    fn handle_input_move(&mut self, column_num: usize) -> Result<GameState, ClientError> {
        process_move(&mut self.game_state, column_num)
    }
}

/// The state after the computer opponent answers in state `s`: unchanged if
/// `s` is already terminal (the engine passes), and otherwise the state
/// after the recommended column at the engine's search depth.
pub open spec fn ai_response(s: GameState) -> GameState {
    match spec_choose_move(s, AI_SEARCH_DEPTH as nat) {
        Option::None => s,
        Option::Some(c) => spec_child(s, c as int),
    }
}

/// Runs a game against the computer: each call to `handle_input_move`
/// plays the user's move and, if the game then still runs, the engine's
/// reply.
#[derive(Clone, Copy, Debug)]
pub struct AiGameClient {
    pub game_state: GameState,
}

impl Default for AiGameClient {
    /// A client holding a fresh game.
    fn default() -> (r: Self)
        ensures
            board_empty(r.game_state.board),
            r.game_state.next_player == GamePiece::Red,
    {
        Self { game_state: Default::default() }
    }
}

impl GameClient for AiGameClient {
    open spec fn state_view(&self) -> GameState {
        self.game_state
    }

    open spec fn post_state(&self, column_num: usize) -> GameState {
        ai_response(spec_child(self.game_state, column_num as int))
    }

    fn get_current_state(&self) -> GameState {
        self.game_state
    }

    fn handle_input_move(&mut self, column_num: usize) -> Result<GameState, ClientError> {
        // First handle the user's move
        match process_move(&mut self.game_state, column_num) {
            Err(e) => Err(e),
            Ok(_) => {
                // Now generate and handle the engine's reply
                match choose_move(&self.game_state, AI_SEARCH_DEPTH) {
                    Option::Some(ai_move) => {
                        // The recommended column is legal, so this move
                        // cannot be rejected.
                        process_move(&mut self.game_state, ai_move)
                    },
                    Option::None => {
                        // Endgame, pass
                        Ok(self.game_state)
                    },
                }
            },
        }
    }
}

} // verus!
