//! The starting position.

use vstd::prelude::*;
use crate::board::model::BoardView;
use crate::board::position::Position;
use crate::board::{Board, SquareType};
use crate::piece::{Color, Piece, PieceType};

verus! {

/// The kind that starts on column `c` of a back rank.
pub open spec fn back_rank_kind(c: int) -> PieceType {
    if c == 0 || c == 7 {
        PieceType::Rook
    } else if c == 1 || c == 6 {
        PieceType::Knight
    } else if c == 2 || c == 5 {
        PieceType::Bishop
    } else if c == 3 {
        PieceType::Queen
    } else {
        PieceType::King
    }
}

/// What the starting position holds on row `r`, column `c`.
pub open spec fn start_square(r: int, c: int) -> SquareType {
    if r == 0 {
        Some(Piece { piece_type: back_rank_kind(c), color: Color::Black })
    } else if r == 1 {
        Some(Piece { piece_type: PieceType::Pawn, color: Color::Black })
    } else if r == 6 {
        Some(Piece { piece_type: PieceType::Pawn, color: Color::White })
    } else if r == 7 {
        Some(Piece { piece_type: back_rank_kind(c), color: Color::White })
    } else {
        None
    }
}

impl BoardView {
    /// The standard starting position: White to move, every castling right
    /// held, no capture in passing.
    pub open spec fn start() -> BoardView {
        BoardView {
            squares: Seq::new(8, |r: int| Seq::new(8, |c: int| start_square(r, c))),
            white_king_pos: Position { row: 7, col: 4 },
            black_king_pos: Position { row: 0, col: 4 },
            short_castle_white: true,
            long_castle_white: true,
            short_castle_black: true,
            long_castle_black: true,
            en_passant_col: -1,
            turn: Color::White,
        }
    }
}

/// The back rank of `color`, from column 0 to column 7.
fn back_rank(color: Color) -> (rank: [SquareType; 8])
    ensures
        forall|c: int| 0 <= c < 8 ==> rank[c] == Some(
            Piece { piece_type: back_rank_kind(c), color },
        ),
{
    [
        Some(Piece { piece_type: PieceType::Rook, color }),
        Some(Piece { piece_type: PieceType::Knight, color }),
        Some(Piece { piece_type: PieceType::Bishop, color }),
        Some(Piece { piece_type: PieceType::Queen, color }),
        Some(Piece { piece_type: PieceType::King, color }),
        Some(Piece { piece_type: PieceType::Bishop, color }),
        Some(Piece { piece_type: PieceType::Knight, color }),
        Some(Piece { piece_type: PieceType::Rook, color }),
    ]
}

/// A row that holds `sq` on every column.
fn row_of(sq: SquareType) -> (row: [SquareType; 8])
    ensures
        forall|c: int| 0 <= c < 8 ==> row[c] == sq,
{
    [sq, sq, sq, sq, sq, sq, sq, sq]
}

impl Default for Board {
    /// A board in the starting position.
    fn default() -> (b: Board)
        ensures
            b@ == BoardView::start(),
    {
        let black_pawn: SquareType = Some(Piece { piece_type: PieceType::Pawn, color: Color::Black });
        let white_pawn: SquareType = Some(Piece { piece_type: PieceType::Pawn, color: Color::White });
        let b = Board {
            board: [
                back_rank(Color::Black),
                row_of(black_pawn),
                row_of(None),
                row_of(None),
                row_of(None),
                row_of(None),
                row_of(white_pawn),
                back_rank(Color::White),
            ],
            black_king_pos: Position { row: 0, col: 4 },
            white_king_pos: Position { row: 7, col: 4 },
            long_castle_white: true,
            short_castle_white: true,
            long_castle_black: true,
            short_castle_black: true,
            en_passant_col: -1,
            turn: Color::White,
        };
        proof {
            let want = BoardView::start();
            assert(b.board[0]@ =~= want.squares[0]);
            assert(b.board[1]@ =~= want.squares[1]);
            assert(b.board[2]@ =~= want.squares[2]);
            assert(b.board[3]@ =~= want.squares[3]);
            assert(b.board[4]@ =~= want.squares[4]);
            assert(b.board[5]@ =~= want.squares[5]);
            assert(b.board[6]@ =~= want.squares[6]);
            assert(b.board[7]@ =~= want.squares[7]);
            assert(b@.squares =~= want.squares);
        }
        b
    }
}

} // verus!
