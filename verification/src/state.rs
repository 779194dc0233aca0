//! Game state: the board together with the player whose turn is next, and
//! the derived terminal-state classification.

use crate::board::{board_empty, board_full, has_winner, piece_wins, GameBoard, GamePiece};
use vstd::prelude::*;

verus! {

/// Defines possible end-game states.
#[derive(Clone, Copy, Debug, PartialEq, Eq, Structural)]
pub enum EndgameType {
    /// A given player represented by a [`GamePiece`] has won.
    Win(GamePiece),
    /// The board is full; draw.
    Full,
    /// No end-game state yet, play continues.
    Ongoing,
}

/// The board together with the player to move next. A plain value type:
/// every move produces a new state by value, so search can explore copies
/// freely.
#[derive(Clone, Copy, Debug)]
pub struct GameState {
    pub board: GameBoard,
    pub next_player: GamePiece,
}

/// The opponent of `p`.
pub open spec fn other(p: GamePiece) -> GamePiece {
    match p {
        GamePiece::Red => GamePiece::Yellow,
        GamePiece::Yellow => GamePiece::Red,
    }
}

/// Whether `s` is a terminal state: some player has a four-in-a-row, or the
/// board is full. No further moves are made from a terminal state.
pub open spec fn terminal(s: GameState) -> bool {
    has_winner(s.board) || board_full(s.board)
}

impl Default for GameState {
    /// A fresh game: empty board, first player to move.
    fn default() -> (r: Self)
        ensures
            board_empty(r.board),
            r.next_player == GamePiece::Red,
    {
        Self { board: Default::default(), next_player: GamePiece::Red }
    }
}

impl GameState {
    /// A state holding the given board, with the given player to move next.
    pub fn new(board: GameBoard, next_player: GamePiece) -> (r: Self)
        ensures
            r.board == board,
            r.next_player == next_player,
    {
        Self { board, next_player }
    }

    pub fn get_board(&self) -> (r: &GameBoard)
        ensures
            *r == self.board,
    {
        &self.board
    }

    pub(crate) fn get_board_mut(&mut self) -> (r: &mut GameBoard)
        ensures
            *r == old(self).board,
            final (self).board == *final (r),
            final (self).next_player == old(self).next_player,
    {
        &mut self.board
    }

    pub fn get_next_player(&self) -> (r: &GamePiece)
        ensures
            *r == self.next_player,
    {
        &self.next_player
    }

    /// Flips the player to move next. Callers are responsible for invoking
    /// this exactly once per accepted move.
    pub fn toggle_player(&mut self)
        ensures
            final (self).next_player == other(old(self).next_player),
            final (self).board == old(self).board,
    {
        self.next_player = match self.next_player {
            GamePiece::Red => GamePiece::Yellow,
            GamePiece::Yellow => GamePiece::Red,
        }
    }

    /// Derives the terminal classification of the current board. A win takes
    /// priority over a full board: a board that is simultaneously full and
    /// won reports the win.
    pub fn check_endgame(&self) -> (r: EndgameType)
        ensures
            r is Ongoing <==> !terminal(*self),
            r matches EndgameType::Win(p) ==> piece_wins(self.board, p),
            has_winner(self.board) ==> r matches EndgameType::Win(_),
            r is Full <==> (!has_winner(self.board) && board_full(self.board)),
            forall|p: GamePiece|
                piece_wins(self.board, p) && !piece_wins(self.board, other(p)) ==> r
                    == EndgameType::Win(p),
    {
        if let Some(p) = self.board.is_winner() {
            proof {
                assert forall|q: GamePiece|
                    piece_wins(self.board, q) && !piece_wins(self.board, other(q)) implies p
                    == q by {
                    if p != q {
                        assert(p == other(q));
                    }
                }
            }
            EndgameType::Win(p)
        } else if self.board.is_full() {
            EndgameType::Full
        } else {
            EndgameType::Ongoing
        }
    }
}

} // verus!
