//! The game board: a fixed six-row, seven-column grid of cells, each empty or
//! holding one player's piece, with gravity-drop insertion and four-in-a-row
//! detection.

use vstd::prelude::*;

verus! {

broadcast use vstd::array::group_array_axioms, vstd::string::group_string_axioms;

/// Number of rows in the grid. Row 0 is the top row; row `GRID_ROWS - 1` is
/// the bottom row, where dropped pieces come to rest first.
pub const GRID_ROWS: usize = 6;

/// Number of columns in the grid. Columns are addressed 1-based by callers of
/// `insert_piece`, and 0-based internally.
pub const GRID_COLS: usize = 7;

/// Why a piece could not be inserted.
#[derive(Clone, Copy, Debug, PartialEq, Eq, Structural)]
pub enum InsertError {
    /// The requested column number lies outside `1..=GRID_COLS`.
    InvalidColumn,
    /// The requested column has no empty cell left.
    FullColumn,
}

/// The display text of an insertion error, as shown to a player.
pub open spec fn insert_error_text(e: InsertError) -> Seq<char> {
    match e {
        InsertError::InvalidColumn => "Please choose a valid column number [1,7]."@,
        InsertError::FullColumn => "Selected column is full, please choose another column."@,
    }
}

impl InsertError {
    /// The display text of this error.
    pub fn message(&self) -> (r: String)
        ensures
            r@ == insert_error_text(*self),
    {
        match self {
            InsertError::InvalidColumn => "Please choose a valid column number [1,7].".to_string(),
            InsertError::FullColumn => {
                "Selected column is full, please choose another column.".to_string()
            },
        }
    }
}

/// Colored game pieces, one per player. Equality is by identity.
#[derive(Clone, Copy, Debug, PartialEq, Eq, Structural)]
pub enum GamePiece {
    Red,
    Yellow,
}

/// One cell of the grid: empty, or occupied by a player's piece.
#[derive(Clone, Copy, Debug, PartialEq, Eq, Structural)]
pub enum BoardSpace {
    Empty,
    Piece(GamePiece),
}

/// The state of the game board: a fixed grid of cells, a plain value type
/// with copy semantics, mutated only through `insert_piece`.
#[derive(Clone, Copy, Debug, PartialEq, Eq)]
#[verifier::ext_equal]
pub struct GameBoard {
    pub grid: [[BoardSpace; GRID_COLS]; GRID_ROWS],
}

/// The cell of `b` at `row` (0-based from the top) and `col` (0-based from
/// the left).
pub open spec fn cell(b: GameBoard, row: int, col: int) -> BoardSpace {
    b.grid@[row][col]
}

/// Whether `(row, col)` is a valid 0-based grid position.
pub open spec fn in_grid(row: int, col: int) -> bool {
    0 <= row < GRID_ROWS && 0 <= col < GRID_COLS
}

/// Whether every cell of `b` is empty.
pub open spec fn board_empty(b: GameBoard) -> bool {
    forall|row: int, col: int| in_grid(row, col) ==> (#[trigger] cell(b, row, col)) is Empty
}

/// The row where a piece dropped into 0-based column `col` comes to rest,
/// scanning upward from row `from`: the bottommost empty cell in the column,
/// or -1 if the column has no empty cell at or below `from`.
pub open spec fn drop_row(b: GameBoard, col: int, from: int) -> int
    recommends
        -1 <= from < GRID_ROWS,
    decreases from + 1 when from >= -1
{
    if from < 0 {
        -1
    } else if cell(b, from, col) is Empty {
        from
    } else {
        drop_row(b, col, from - 1)
    }
}

/// Whether 0-based column `col` still has room for a piece.
pub open spec fn can_insert(b: GameBoard, col: int) -> bool {
    drop_row(b, col, GRID_ROWS - 1) >= 0
}

/// The board after dropping `piece` into 0-based column `col`: the bottommost
/// empty cell of the column now holds the piece, and every other cell is
/// unchanged. Kept opaque; `lemma_insert_cells` characterizes the result
/// cell by cell.
#[verifier::opaque]
pub open spec fn spec_insert(b: GameBoard, piece: GamePiece, col: int) -> GameBoard
    recommends
        0 <= col < GRID_COLS,
        can_insert(b, col),
{
    let row = drop_row(b, col, GRID_ROWS - 1);
    GameBoard {
        grid: vstd::array::spec_array_update(
            b.grid,
            row,
            vstd::array::spec_array_update(b.grid@[row], col, BoardSpace::Piece(piece)),
        ),
    }
}

/// Whether player `p` owns the cell at `(row, col)`.
pub open spec fn owns(b: GameBoard, p: GamePiece, row: int, col: int) -> bool {
    in_grid(row, col) && cell(b, row, col) == BoardSpace::Piece(p)
}

/// A horizontal four-in-a-row of `p` whose leftmost cell is `(row, col)`.
pub open spec fn win_h(b: GameBoard, p: GamePiece, row: int, col: int) -> bool {
    owns(b, p, row, col) && owns(b, p, row, col + 1) && owns(b, p, row, col + 2) && owns(
        b,
        p,
        row,
        col + 3,
    )
}

/// A vertical four-in-a-row of `p` whose topmost cell is `(row, col)`.
pub open spec fn win_v(b: GameBoard, p: GamePiece, row: int, col: int) -> bool {
    owns(b, p, row, col) && owns(b, p, row + 1, col) && owns(b, p, row + 2, col) && owns(
        b,
        p,
        row + 3,
        col,
    )
}

/// A four-in-a-row of `p` running diagonally down-left from `(row, col)`.
pub open spec fn win_du(b: GameBoard, p: GamePiece, row: int, col: int) -> bool {
    owns(b, p, row, col) && owns(b, p, row + 1, col - 1) && owns(b, p, row + 2, col - 2) && owns(
        b,
        p,
        row + 3,
        col - 3,
    )
}

/// A four-in-a-row of `p` running diagonally up-left from `(row, col)`.
pub open spec fn win_dd(b: GameBoard, p: GamePiece, row: int, col: int) -> bool {
    owns(b, p, row, col) && owns(b, p, row - 1, col - 1) && owns(b, p, row - 2, col - 2) && owns(
        b,
        p,
        row - 3,
        col - 3,
    )
}

/// Whether player `p` has four orthogonally or diagonally aligned pieces
/// anywhere on the board.
pub open spec fn piece_wins(b: GameBoard, p: GamePiece) -> bool {
    (exists|row: int, col: int| win_h(b, p, row, col)) || (exists|row: int, col: int|
        win_v(b, p, row, col)) || (exists|row: int, col: int| win_du(b, p, row, col)) || (exists|
        row: int,
        col: int,
    | win_dd(b, p, row, col))
}

/// Whether either player has a four-in-a-row on the board.
pub open spec fn has_winner(b: GameBoard) -> bool {
    piece_wins(b, GamePiece::Red) || piece_wins(b, GamePiece::Yellow)
}

/// Whether the topmost row of `b` has no empty cell. On boards built only by
/// insertions this is equivalent to the whole board being full (see
/// `lemma_full_board_from_top_row`).
pub open spec fn board_full(b: GameBoard) -> bool {
    forall|col: int| 0 <= col < GRID_COLS ==> !(cell(b, 0, col) is Empty)
}

impl Default for GameBoard {
    /// An empty board.
    fn default() -> (r: Self)
        ensures
            board_empty(r),
    {
        GameBoard { grid: [[BoardSpace::Empty; GRID_COLS]; GRID_ROWS] }
    }
}

impl GameBoard {
    /// A board holding exactly the given grid of cells.
    pub fn new(grid: [[BoardSpace; GRID_COLS]; GRID_ROWS]) -> (r: Self)
        ensures
            r.grid == grid,
    {
        Self { grid }
    }

    /// Insert a new piece into the game board in a given 1-based column
    /// number. The piece comes to rest in the bottommost empty cell of that
    /// column. Fails with `InvalidColumn` if the column number is outside
    /// `1..=GRID_COLS`, and with `FullColumn` if the column has no empty
    /// cell; either failure leaves the board untouched.
    pub fn insert_piece(&mut self, piece: GamePiece, col_num: usize) -> (r: Result<
        (),
        InsertError,
    >)
        ensures
            !(1 <= col_num <= GRID_COLS) ==> r == Err::<(), InsertError>(
                InsertError::InvalidColumn,
            ) && *final (self) == *old(self),
            1 <= col_num <= GRID_COLS && !can_insert(*old(self), col_num - 1) ==> r == Err::<
                (),
                InsertError,
            >(InsertError::FullColumn) && *final (self) == *old(self),
            1 <= col_num <= GRID_COLS && can_insert(*old(self), col_num - 1) ==> r == Ok::<
                (),
                InsertError,
            >(()) && *final (self) == spec_insert(*old(self), piece, col_num - 1),
    {
        if col_num < 1 || col_num > GRID_COLS {
            return Err(InsertError::InvalidColumn);
        }
        let col = col_num - 1;
        let mut i: usize = GRID_ROWS;
        while i > 0
            invariant
                *self == *old(self),
                0 <= i <= GRID_ROWS,
                col == col_num - 1,
                0 <= col < GRID_COLS,
                drop_row(*old(self), col as int, GRID_ROWS - 1) == drop_row(
                    *old(self),
                    col as int,
                    i - 1,
                ),
            decreases i,
        {
            let row = i - 1;
            if let BoardSpace::Empty = self.grid[row][col] {
                self.grid[row][col] = BoardSpace::Piece(piece);
                proof {
                    reveal(spec_insert);
                    assert(drop_row(*old(self), col as int, row as int) == row);
                    assert(*self =~~= spec_insert(*old(self), piece, col as int));
                }
                return Ok(());
            }
            i = i - 1;
        }
        Err(InsertError::FullColumn)
    }

    /// Checks if there is a winner in the current game state: four like
    /// pieces in a row horizontally, vertically, or along either diagonal.
    /// Returns the piece of the winning player, or `None` if no player has a
    /// four-in-a-row. When only one player has such a run, the result is
    /// exactly that player.
    pub fn is_winner(&self) -> (r: Option<GamePiece>)
        ensures
            r is None <==> !has_winner(*self),
            r matches Some(p) ==> piece_wins(*self, p),
    {
        let b = *self;
        // Horizontal
        let mut row: usize = 0;
        while row < GRID_ROWS
            invariant
                row <= GRID_ROWS,
                b == *self,
                forall|p: GamePiece, r2: int, c2: int| r2 < row ==> !win_h(b, p, r2, c2),
            decreases GRID_ROWS - row,
        {
            let mut col: usize = 0;
            while col < GRID_COLS - 3
                invariant
                    row < GRID_ROWS,
                    col <= GRID_COLS - 3,
                    b == *self,
                    forall|p: GamePiece, r2: int, c2: int| r2 < row ==> !win_h(b, p, r2, c2),
                    forall|p: GamePiece, c2: int| c2 < col ==> !win_h(b, p, row as int, c2),
                decreases GRID_COLS - 3 - col,
            {
                match self.grid[row][col] {
                    BoardSpace::Empty => (),
                    BoardSpace::Piece(piece) => {
                        if self.grid[row][col + 1] == BoardSpace::Piece(piece) && self.grid[row][col
                            + 2] == BoardSpace::Piece(piece) && self.grid[row][col + 3]
                            == BoardSpace::Piece(piece) {
                            proof {
                                assert(win_h(b, piece, row as int, col as int));
                            }
                            return Some(piece);
                        }
                    },
                }
                col = col + 1;
            }
            row = row + 1;
        }
        proof {
            assert forall|p: GamePiece, r2: int, c2: int| !win_h(b, p, r2, c2) by {
                if win_h(b, p, r2, c2) {
                    assert(in_grid(r2, c2));
                }
            }
        }
        // Vertical
        let mut row: usize = 0;
        while row < GRID_ROWS - 3
            invariant
                row <= GRID_ROWS - 3,
                b == *self,
                forall|p: GamePiece, r2: int, c2: int| !win_h(b, p, r2, c2),
                forall|p: GamePiece, r2: int, c2: int| r2 < row ==> !win_v(b, p, r2, c2),
            decreases GRID_ROWS - 3 - row,
        {
            let mut col: usize = 0;
            while col < GRID_COLS
                invariant
                    row < GRID_ROWS - 3,
                    col <= GRID_COLS,
                    b == *self,
                    forall|p: GamePiece, r2: int, c2: int| !win_h(b, p, r2, c2),
                    forall|p: GamePiece, r2: int, c2: int| r2 < row ==> !win_v(b, p, r2, c2),
                    forall|p: GamePiece, c2: int| c2 < col ==> !win_v(b, p, row as int, c2),
                decreases GRID_COLS - col,
            {
                match self.grid[row][col] {
                    BoardSpace::Empty => (),
                    BoardSpace::Piece(piece) => {
                        if self.grid[row + 1][col] == BoardSpace::Piece(piece) && self.grid[row
                            + 2][col] == BoardSpace::Piece(piece) && self.grid[row + 3][col]
                            == BoardSpace::Piece(piece) {
                            proof {
                                assert(win_v(b, piece, row as int, col as int));
                            }
                            return Some(piece);
                        }
                    },
                }
                col = col + 1;
            }
            row = row + 1;
        }
        proof {
            assert forall|p: GamePiece, r2: int, c2: int| !win_v(b, p, r2, c2) by {
                if win_v(b, p, r2, c2) {
                    assert(in_grid(r2, c2));
                    assert(in_grid(r2 + 3, c2));
                }
            }
        }
        // Diagonal up
        let mut row: usize = 0;
        while row < GRID_ROWS - 3
            invariant
                row <= GRID_ROWS - 3,
                b == *self,
                forall|p: GamePiece, r2: int, c2: int| !win_h(b, p, r2, c2),
                forall|p: GamePiece, r2: int, c2: int| !win_v(b, p, r2, c2),
                forall|p: GamePiece, r2: int, c2: int| r2 < row ==> !win_du(b, p, r2, c2),
            decreases GRID_ROWS - 3 - row,
        {
            let mut col: usize = 3;
            while col < GRID_COLS
                invariant
                    row < GRID_ROWS - 3,
                    3 <= col <= GRID_COLS,
                    b == *self,
                    forall|p: GamePiece, r2: int, c2: int| !win_h(b, p, r2, c2),
                    forall|p: GamePiece, r2: int, c2: int| !win_v(b, p, r2, c2),
                    forall|p: GamePiece, r2: int, c2: int| r2 < row ==> !win_du(b, p, r2, c2),
                    forall|p: GamePiece, c2: int| c2 < col ==> !win_du(b, p, row as int, c2),
                decreases GRID_COLS - col,
            {
                match self.grid[row][col] {
                    BoardSpace::Empty => (),
                    BoardSpace::Piece(piece) => {
                        if self.grid[row + 1][col - 1] == BoardSpace::Piece(piece) && self.grid[row
                            + 2][col - 2] == BoardSpace::Piece(piece) && self.grid[row + 3][col - 3]
                            == BoardSpace::Piece(piece) {
                            proof {
                                assert(win_du(b, piece, row as int, col as int));
                            }
                            return Some(piece);
                        }
                    },
                }
                col = col + 1;
            }
            row = row + 1;
        }
        proof {
            assert forall|p: GamePiece, r2: int, c2: int| !win_du(b, p, r2, c2) by {
                if win_du(b, p, r2, c2) {
                    assert(in_grid(r2, c2));
                    assert(in_grid(r2 + 3, c2 - 3));
                }
            }
        }
        // Diagonal down
        let mut row: usize = 3;
        while row < GRID_ROWS
            invariant
                3 <= row <= GRID_ROWS,
                b == *self,
                forall|p: GamePiece, r2: int, c2: int| !win_h(b, p, r2, c2),
                forall|p: GamePiece, r2: int, c2: int| !win_v(b, p, r2, c2),
                forall|p: GamePiece, r2: int, c2: int| !win_du(b, p, r2, c2),
                forall|p: GamePiece, r2: int, c2: int| r2 < row ==> !win_dd(b, p, r2, c2),
            decreases GRID_ROWS - row,
        {
            let mut col: usize = 3;
            while col < GRID_COLS
                invariant
                    3 <= row < GRID_ROWS,
                    3 <= col <= GRID_COLS,
                    b == *self,
                    forall|p: GamePiece, r2: int, c2: int| !win_h(b, p, r2, c2),
                    forall|p: GamePiece, r2: int, c2: int| !win_v(b, p, r2, c2),
                    forall|p: GamePiece, r2: int, c2: int| !win_du(b, p, r2, c2),
                    forall|p: GamePiece, r2: int, c2: int| r2 < row ==> !win_dd(b, p, r2, c2),
                    forall|p: GamePiece, c2: int| c2 < col ==> !win_dd(b, p, row as int, c2),
                decreases GRID_COLS - col,
            {
                match self.grid[row][col] {
                    BoardSpace::Empty => (),
                    BoardSpace::Piece(piece) => {
                        if self.grid[row - 1][col - 1] == BoardSpace::Piece(piece) && self.grid[row
                            - 2][col - 2] == BoardSpace::Piece(piece) && self.grid[row - 3][col - 3]
                            == BoardSpace::Piece(piece) {
                            proof {
                                assert(win_dd(b, piece, row as int, col as int));
                            }
                            return Some(piece);
                        }
                    },
                }
                col = col + 1;
            }
            row = row + 1;
        }
        proof {
            assert forall|p: GamePiece, r2: int, c2: int| !win_dd(b, p, r2, c2) by {
                if win_dd(b, p, r2, c2) {
                    assert(in_grid(r2, c2));
                    assert(in_grid(r2 - 3, c2 - 3));
                }
            }
        }
        None
    }

    /// The board as display text: a header numbering the columns, then
    /// each row of cells between separator lines, with the pieces colored
    /// for a terminal.
    pub fn render(&self) -> (r: String)
        ensures
            r@ == board_text(*self),
    {
        let mut out = "+-1-+-2-+-3-+-4-+-5-+-6-+-7-+\n".to_string();
        let mut row: usize = 0;
        while row < GRID_ROWS
            invariant
                row <= GRID_ROWS,
                out@ + rows_text(*self, row as int) == board_text(*self),
            decreases GRID_ROWS - row,
        {
            proof {
                assert(out@ + (row_text(*self, row as int, 0) + rows_text(*self, row + 1)) =~= (out@
                    + row_text(*self, row as int, 0)) + rows_text(*self, row + 1));
            }
            let mut col: usize = 0;
            while col < GRID_COLS
                invariant
                    row < GRID_ROWS,
                    col <= GRID_COLS,
                    (out@ + row_text(*self, row as int, col as int)) + rows_text(*self, row + 1)
                        == board_text(*self),
                decreases GRID_COLS - col,
            {
                let ghost before = out@;
                out.append("| ");
                match self.grid[row][col] {
                    BoardSpace::Empty => out.append(" "),
                    BoardSpace::Piece(GamePiece::Red) => out.append("\u{1b}[91mR\u{1b}[0m"),
                    BoardSpace::Piece(GamePiece::Yellow) => out.append("\u{1b}[93mY\u{1b}[0m"),
                }
                out.append(" ");
                proof {
                    assert(out@ + row_text(*self, row as int, col + 1) =~= before + row_text(
                        *self,
                        row as int,
                        col as int,
                    ));
                }
                col = col + 1;
            }
            let ghost before = out@;
            out.append("|\n+---+---+---+---+---+---+---+\n");
            proof {
                assert(out@ =~= before + row_text(*self, row as int, GRID_COLS as int));
            }
            row = row + 1;
        }
        proof {
            assert(out@ + rows_text(*self, GRID_ROWS as int) =~= out@);
        }
        out
    }

    /// Checks if the board is full by seeing if the topmost row is full.
    /// On boards built only by insertions, gravity-consistency makes a full
    /// top row equivalent to a full board (`lemma_full_board_from_top_row`).
    pub fn is_full(&self) -> (r: bool)
        ensures
            r == board_full(*self),
    {
        let mut col: usize = 0;
        while col < GRID_COLS
            invariant
                col <= GRID_COLS,
                forall|c2: int| 0 <= c2 < col ==> !(cell(*self, 0, c2) is Empty),
            decreases GRID_COLS - col,
        {
            if let BoardSpace::Empty = self.grid[0][col] {
                proof {
                    assert(cell(*self, 0, col as int) is Empty);
                }
                return false;
            }
            col = col + 1;
        }
        true
    }
}

/// The one-character text of a cell, colored for a terminal: a space for
/// an empty cell, a colored letter for a piece.
pub open spec fn space_text(s: BoardSpace) -> Seq<char> {
    match s {
        BoardSpace::Empty => " "@,
        BoardSpace::Piece(GamePiece::Red) => "\u{1b}[91mR\u{1b}[0m"@,
        BoardSpace::Piece(GamePiece::Yellow) => "\u{1b}[93mY\u{1b}[0m"@,
    }
}

/// The text of row `row` from column `col` rightward: each cell between
/// vertical bars, then the row's closing bar and the separator line.
pub open spec fn row_text(b: GameBoard, row: int, col: int) -> Seq<char>
    decreases GRID_COLS - col when col <= GRID_COLS
{
    if col < 0 || col >= GRID_COLS {
        "|\n+---+---+---+---+---+---+---+\n"@
    } else {
        "| "@ + space_text(cell(b, row, col)) + " "@ + row_text(b, row, col + 1)
    }
}

/// The text of the rows of `b` from `row` downward.
pub open spec fn rows_text(b: GameBoard, row: int) -> Seq<char>
    decreases GRID_ROWS - row when row <= GRID_ROWS
{
    if row < 0 || row >= GRID_ROWS {
        Seq::empty()
    } else {
        row_text(b, row, 0) + rows_text(b, row + 1)
    }
}

/// The whole board as text: a header numbering the columns, then each row
/// of cells between separator lines.
pub open spec fn board_text(b: GameBoard) -> Seq<char> {
    "+-1-+-2-+-3-+-4-+-5-+-6-+-7-+\n"@ + rows_text(b, 0)
}

/// Occupied cells in 0-based column `col` sit on top of each other: every
/// cell below an occupied cell is occupied too. This is the
/// gravity-consistency invariant of a single column.
pub open spec fn column_gravity(b: GameBoard, col: int) -> bool {
    forall|r1: int, r2: int|
        0 <= r1 <= r2 < GRID_ROWS && !((#[trigger] cell(b, r1, col)) is Empty) ==> !((
        #[trigger] cell(b, r2, col)) is Empty)
}

/// Gravity-consistency of the whole board: every column is a contiguous
/// stack. Boards built from the empty board by insertions alone always
/// satisfy this (`lemma_insert_stacks`).
pub open spec fn gravity_consistent(b: GameBoard) -> bool {
    forall|col: int| 0 <= col < GRID_COLS ==> #[trigger] column_gravity(b, col)
}

/// `drop_row` stays within `[-1, from]`; when nonnegative it names the
/// bottommost empty cell at or below `from`, and when it is -1 the column
/// has no empty cell at or below `from`.
pub proof fn lemma_drop_row_props(b: GameBoard, col: int, from: int)
    requires
        -1 <= from < GRID_ROWS,
    ensures
        -1 <= drop_row(b, col, from) <= from,
        drop_row(b, col, from) >= 0 ==> cell(b, drop_row(b, col, from), col) is Empty,
        forall|r: int|
            drop_row(b, col, from) < r <= from ==> !(#[trigger] cell(b, r, col) is Empty),
    decreases from + 1,
{
    if from >= 0 && !(cell(b, from, col) is Empty) {
        lemma_drop_row_props(b, col, from - 1);
    }
}

/// Scanning for the landing row may skip rows known to be occupied.
proof fn lemma_drop_row_skip(b: GameBoard, col: int, from: int, to: int)
    requires
        -1 <= to <= from < GRID_ROWS,
        forall|r: int| to < r <= from ==> !(#[trigger] cell(b, r, col) is Empty),
    ensures
        drop_row(b, col, from) == drop_row(b, col, to),
    decreases from - to,
{
    if to < from {
        lemma_drop_row_skip(b, col, from - 1, to);
    }
}

/// The cells of a board after an insertion: the landing cell holds the new
/// piece, and every other cell is unchanged.
pub proof fn lemma_insert_cells(b: GameBoard, p: GamePiece, col: int)
    requires
        0 <= col < GRID_COLS,
        can_insert(b, col),
    ensures
        in_grid(drop_row(b, col, GRID_ROWS - 1), col),
        cell(spec_insert(b, p, col), drop_row(b, col, GRID_ROWS - 1), col) == BoardSpace::Piece(p),
        forall|r: int, c: int|
            in_grid(r, c) && !(r == drop_row(b, col, GRID_ROWS - 1) && c == col) ==> #[trigger] cell(
                spec_insert(b, p, col),
                r,
                c,
            ) == cell(b, r, c),
{
    reveal(spec_insert);
    lemma_drop_row_props(b, col, GRID_ROWS - 1);
}

/// Inserting a piece for `p` cannot create a four-in-a-row for the other
/// player: every run of `q` on the new board already stood on the old one.
pub proof fn lemma_insert_no_new_win(b: GameBoard, p: GamePiece, q: GamePiece, col: int)
    requires
        0 <= col < GRID_COLS,
        can_insert(b, col),
        q != p,
        !piece_wins(b, q),
    ensures
        !piece_wins(spec_insert(b, p, col), q),
{
    lemma_insert_cells(b, p, col);
    let b2 = spec_insert(b, p, col);
    assert forall|r: int, c: int| !win_h(b2, q, r, c) by {
        if win_h(b2, q, r, c) {
            assert(win_h(b, q, r, c));
        }
    }
    assert forall|r: int, c: int| !win_v(b2, q, r, c) by {
        if win_v(b2, q, r, c) {
            assert(win_v(b, q, r, c));
        }
    }
    assert forall|r: int, c: int| !win_du(b2, q, r, c) by {
        if win_du(b2, q, r, c) {
            assert(win_du(b, q, r, c));
        }
    }
    assert forall|r: int, c: int| !win_dd(b2, q, r, c) by {
        if win_dd(b2, q, r, c) {
            assert(win_dd(b, q, r, c));
        }
    }
}

/// A board whose top row has an empty cell has a column with room.
pub proof fn lemma_not_full_has_room(b: GameBoard)
    requires
        !board_full(b),
    ensures
        exists|col: int| 0 <= col < GRID_COLS && can_insert(b, col),
{
    let col = choose|col: int| 0 <= col < GRID_COLS && cell(b, 0, col) is Empty;
    lemma_drop_row_props(b, col, GRID_ROWS - 1);
    if drop_row(b, col, GRID_ROWS - 1) == -1 {
        assert(!(cell(b, 0, col) is Empty));
    }
    assert(0 <= col < GRID_COLS && can_insert(b, col));
}

/// After an insertion into a gravity-consistent column, a cell of that
/// column is empty exactly when it lies above the landing row.
proof fn lemma_insert_column_cells(b: GameBoard, p: GamePiece, col: int)
    requires
        0 <= col < GRID_COLS,
        can_insert(b, col),
        column_gravity(b, col),
    ensures
        forall|r: int|
            0 <= r < GRID_ROWS ==> ((#[trigger] cell(spec_insert(b, p, col), r, col) is Empty)
                <==> r < drop_row(b, col, GRID_ROWS - 1)),
{
    let b2 = spec_insert(b, p, col);
    let dr = drop_row(b, col, GRID_ROWS - 1);
    lemma_insert_cells(b, p, col);
    lemma_drop_row_props(b, col, GRID_ROWS - 1);
    assert forall|r: int|
        0 <= r < GRID_ROWS implies ((#[trigger] cell(b2, r, col) is Empty) <==> r < dr) by {
        if r < dr {
            assert(cell(b, dr, col) is Empty);
            assert(cell(b2, r, col) == cell(b, r, col));
        } else if r > dr {
            assert(cell(b2, r, col) == cell(b, r, col));
        } else {
            assert(cell(b2, dr, col) == BoardSpace::Piece(p));
        }
    }
}

/// A successful insertion keeps the whole board gravity-consistent and
/// raises the column's landing row by exactly one. Starting from an empty
/// column (landing row `GRID_ROWS - 1`), a column therefore accepts exactly
/// `GRID_ROWS` pieces before it is full.
pub proof fn lemma_insert_stacks(b: GameBoard, p: GamePiece, col: int)
    requires
        0 <= col < GRID_COLS,
        can_insert(b, col),
        gravity_consistent(b),
    ensures
        gravity_consistent(spec_insert(b, p, col)),
        drop_row(spec_insert(b, p, col), col, GRID_ROWS - 1) == drop_row(b, col, GRID_ROWS - 1)
            - 1,
        can_insert(spec_insert(b, p, col), col) <==> drop_row(b, col, GRID_ROWS - 1) >= 1,
{
    let b2 = spec_insert(b, p, col);
    let dr = drop_row(b, col, GRID_ROWS - 1);
    lemma_insert_cells(b, p, col);
    lemma_drop_row_props(b, col, GRID_ROWS - 1);
    lemma_insert_column_cells(b, p, col);
    assert forall|c2: int| 0 <= c2 < GRID_COLS implies #[trigger] column_gravity(b2, c2) by {
        assert(column_gravity(b, c2));
        if c2 != col {
            assert forall|r1: int, r2: int|
                0 <= r1 <= r2 < GRID_ROWS && !((#[trigger] cell(b2, r1, c2)) is Empty) implies !((
            #[trigger] cell(b2, r2, c2)) is Empty) by {
                assert(cell(b2, r1, c2) == cell(b, r1, c2));
                assert(cell(b2, r2, c2) == cell(b, r2, c2));
            }
        } else {
            assert forall|r1: int, r2: int|
                0 <= r1 <= r2 < GRID_ROWS && !((#[trigger] cell(b2, r1, col)) is Empty) implies !((
            #[trigger] cell(b2, r2, col)) is Empty) by {
                assert(!(cell(b2, r1, col) is Empty) ==> r1 >= dr);
            }
        }
    }
    lemma_drop_row_skip(b2, col, GRID_ROWS - 1, dr - 1);
    if dr - 1 >= 0 {
        assert(drop_row(b2, col, dr - 1) == dr - 1);
    }
}

/// Under gravity a full top row means the whole board is full: the check in
/// `is_full` is exact on any board reachable from the empty board.
pub proof fn lemma_full_board_from_top_row(b: GameBoard)
    requires
        gravity_consistent(b),
        board_full(b),
    ensures
        forall|r: int, c: int| in_grid(r, c) ==> !(#[trigger] cell(b, r, c) is Empty),
{
    assert forall|r: int, c: int| in_grid(r, c) implies !(#[trigger] cell(b, r, c) is Empty) by {
        assert(column_gravity(b, c));
        assert(!(cell(b, 0, c) is Empty));
    }
}

/// Conversely, under gravity a full top row leaves no column with room:
/// once `is_full` reports true, every insertion is rejected.
pub proof fn lemma_full_no_room(b: GameBoard)
    requires
        gravity_consistent(b),
        board_full(b),
    ensures
        forall|col: int| 0 <= col < GRID_COLS ==> !can_insert(b, col),
{
    lemma_full_board_from_top_row(b);
    assert forall|col: int| 0 <= col < GRID_COLS implies !can_insert(b, col) by {
        lemma_drop_row_props(b, col, GRID_ROWS - 1);
        let dr = drop_row(b, col, GRID_ROWS - 1);
        if dr >= 0 {
            assert(in_grid(dr, col));
            assert(!(cell(b, dr, col) is Empty));
        }
    }
}

/// On an empty board every column admits an insertion, and the inserted
/// piece lands in the bottommost row of that column.
pub proof fn lemma_insert_into_empty(b: GameBoard, p: GamePiece, col_num: int)
    requires
        board_empty(b),
        1 <= col_num <= GRID_COLS,
    ensures
        can_insert(b, col_num - 1),
        drop_row(b, col_num - 1, GRID_ROWS - 1) == GRID_ROWS - 1,
        cell(spec_insert(b, p, col_num - 1), GRID_ROWS - 1, col_num - 1) == BoardSpace::Piece(p),
{
    assert(cell(b, GRID_ROWS - 1, col_num - 1) is Empty);
    lemma_insert_cells(b, p, col_num - 1);
}

/// The empty board is gravity-consistent.
pub proof fn lemma_empty_gravity_consistent(b: GameBoard)
    requires
        board_empty(b),
    ensures
        gravity_consistent(b),
{
    assert forall|col: int| 0 <= col < GRID_COLS implies #[trigger] column_gravity(b, col) by {
        assert forall|r1: int, r2: int|
            0 <= r1 <= r2 < GRID_ROWS && !((#[trigger] cell(b, r1, col)) is Empty) implies !((
        #[trigger] cell(b, r2, col)) is Empty) by {
            assert(in_grid(r1, col));
        }
    }
}

} // verus!
