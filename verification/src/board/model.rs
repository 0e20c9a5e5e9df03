//! The mathematical model of a board, over which the rules are stated.

use vstd::prelude::*;
use crate::board::position::{in_bounds, Position};
use crate::piece::{Color, Piece, PieceType};

verus! {

/// What a board holds: eight rows of eight squares, the two recorded king
/// positions, the four castling rights, the column on which a pawn may be
/// captured in passing (or -1), and the side to move.
#[verifier::ext_equal]
pub struct BoardView {
    pub squares: Seq<Seq<Option<Piece>>>,
    pub white_king_pos: Position,
    pub black_king_pos: Position,
    pub short_castle_white: bool,
    pub long_castle_white: bool,
    pub short_castle_black: bool,
    pub long_castle_black: bool,
    pub en_passant_col: int,
    pub turn: Color,
}

/// The row change of one pawn step: White moves towards row 0, Black towards row 7.
pub open spec fn forward(color: Color) -> int {
    match color {
        Color::White => -1,
        Color::Black => 1,
    }
}

/// The row on which a side's pieces start.
pub open spec fn home_row(color: Color) -> int {
    match color {
        Color::White => 7,
        Color::Black => 0,
    }
}

/// The row on which a side's pawns start.
pub open spec fn pawn_start_row(color: Color) -> int {
    match color {
        Color::White => 6,
        Color::Black => 1,
    }
}

/// The row from which a side's pawn captures in passing.
pub open spec fn en_passant_row(color: Color) -> int {
    match color {
        Color::White => 3,
        Color::Black => 4,
    }
}

impl BoardView {
    /// The grid is eight by eight and both recorded king positions lie on it.
    pub open spec fn shaped(self) -> bool {
        &&& self.squares.len() == 8
        &&& forall|r: int| 0 <= r < 8 ==> (#[trigger] self.squares[r]).len() == 8
        &&& self.white_king_pos.on_board()
        &&& self.black_king_pos.on_board()
    }

    /// What stands on row `r`, column `c`.
    pub open spec fn at(self, r: int, c: int) -> Option<Piece>
        recommends
            in_bounds(r, c),
    {
        self.squares[r][c]
    }

    /// What stands on the square `p`.
    pub open spec fn piece_at(self, p: Position) -> Option<Piece>
        recommends
            p.on_board(),
    {
        self.at(p.row as int, p.col as int)
    }

    /// Row `r`, column `c` is a square of the board and holds a `kind` of `color`.
    pub open spec fn holds(self, r: int, c: int, kind: PieceType, color: Color) -> bool {
        in_bounds(r, c) && self.at(r, c) == Some(Piece { piece_type: kind, color })
    }

    /// Row `r`, column `c` holds a piece of `color`.
    pub open spec fn held_by(self, r: int, c: int, color: Color) -> bool {
        match self.at(r, c) {
            Some(piece) => piece.color == color,
            None => false,
        }
    }

    /// The recorded position of a side's king.
    pub open spec fn king_pos(self, color: Color) -> Position {
        match color {
            Color::White => self.white_king_pos,
            Color::Black => self.black_king_pos,
        }
    }

    /// Whether a side still has the right to castle short.
    pub open spec fn short_castle(self, color: Color) -> bool {
        match color {
            Color::White => self.short_castle_white,
            Color::Black => self.short_castle_black,
        }
    }

    /// Whether a side still has the right to castle long.
    pub open spec fn long_castle(self, color: Color) -> bool {
        match color {
            Color::White => self.long_castle_white,
            Color::Black => self.long_castle_black,
        }
    }

    /// The board with `sq` put on row `r`, column `c`.
    pub open spec fn set(self, r: int, c: int, sq: Option<Piece>) -> BoardView
        recommends
            in_bounds(r, c),
    {
        BoardView { squares: self.squares.update(r, self.squares[r].update(c, sq)), ..self }
    }
}

} // verus!
