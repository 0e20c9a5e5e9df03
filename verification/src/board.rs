//! The board and the rules that act on it.

use vstd::prelude::*;
use crate::piece::{Color, Piece};

pub mod default;
pub mod generate_moves;
pub mod is_attacked;
pub mod is_legal;
pub mod laws;
pub mod make_move;
pub mod model;
pub mod position;

pub use self::model::BoardView;
pub use self::position::{Move, Position};

verus! {

/// The number of rows of the board.
pub const BOARD_ROW_COUNT: usize = 8;

/// The number of columns of the board.
pub const BOARD_COL_COUNT: usize = 8;

/// What is on a square: a piece, or nothing.
pub type SquareType = Option<Piece>;

/// Why a move was not made.
#[derive(Debug, Copy, Clone, PartialEq, Eq, Structural)]
pub enum BoardError {
    IllegalMove,
}

/// A chess position: the grid, where the kings stand, which castling rights
/// are left, where a pawn may be captured in passing, and whose turn it is.
#[derive(Debug, Copy, Clone)]
pub struct Board {
    board: [[SquareType; 8]; 8],
    white_king_pos: Position,
    black_king_pos: Position,
    short_castle_white: bool,
    long_castle_white: bool,
    short_castle_black: bool,
    long_castle_black: bool,
    en_passant_col: i8,
    turn: Color,
}

/// The rows of a grid, each as a sequence.
pub open spec fn grid_view(grid: [[SquareType; 8]; 8]) -> Seq<Seq<SquareType>> {
    Seq::new(8, |r: int| grid[r]@)
}

impl View for Board {
    type V = BoardView;

    closed spec fn view(&self) -> BoardView {
        BoardView {
            squares: grid_view(self.board),
            white_king_pos: self.white_king_pos,
            black_king_pos: self.black_king_pos,
            short_castle_white: self.short_castle_white,
            long_castle_white: self.long_castle_white,
            short_castle_black: self.short_castle_black,
            long_castle_black: self.long_castle_black,
            en_passant_col: self.en_passant_col as int,
            turn: self.turn,
        }
    }
}

impl Board {
    #[verifier::type_invariant]
    spec fn kings_on_board(self) -> bool {
        self.white_king_pos.on_board() && self.black_king_pos.on_board()
    }

    /// A board in the starting position.
    #[inline]
    pub fn new() -> (b: Board)
        ensures
            b@ == BoardView::start(),
            b@.sound(),
    {
        proof {
            self::laws::lemma_start_sound();
        }
        Default::default()
    }

    /// A copy of the grid.
    #[inline]
    pub fn get_board(&self) -> (grid: [[SquareType; 8]; 8])
        ensures
            self@.shaped(),
            grid_view(grid) == self@.squares,
            forall|r: int, c: int|
                0 <= r < 8 && 0 <= c < 8 ==> #[trigger] grid[r][c] == self@.at(r, c),
    {
        proof {
            use_type_invariant(self);
        }
        self.board
    }

    /// What stands on the square `p`.
    #[inline]
    pub(crate) fn at(&self, p: Position) -> (sq: SquareType)
        requires
            p.on_board(),
        ensures
            sq == self@.piece_at(p),
    {
        self.board[p.row as usize][p.col as usize]
    }

    /// The side to move.
    pub fn whose_turn(&self) -> (c: Color)
        ensures
            self@.shaped(),
            c == self@.turn,
    {
        proof {
            use_type_invariant(self);
        }
        self.turn
    }

    /// Whether the side to move has no legal move while its king is not
    /// attacked.
    pub fn is_stalemate(&self) -> (stalemate: bool)
        ensures
            stalemate == self@.stalemate(),
    {
        proof {
            use_type_invariant(self);
        }
        let king = match self.turn {
            Color::White => self.white_king_pos,
            Color::Black => self.black_king_pos,
        };
        !self.is_attacked_by_opponent(&king) && self.generate_legal_moves().is_empty()
    }

    /// Whether the side to move has no legal move while its king is
    /// attacked.
    pub fn is_checkmate(&self) -> (checkmate: bool)
        ensures
            checkmate == self@.checkmate(),
    {
        proof {
            use_type_invariant(self);
        }
        let king = match self.turn {
            Color::White => self.white_king_pos,
            Color::Black => self.black_king_pos,
        };
        self.is_attacked_by_opponent(&king) && self.generate_legal_moves().is_empty()
    }

    /// The row change of one pawn step of `color`.
    #[inline]
    pub fn dir(color: &Color) -> (d: i8)
        ensures
            d == self::model::forward(*color),
    {
        match color {
            Color::White => -1,
            Color::Black => 1,
        }
    }
}

} // verus!
