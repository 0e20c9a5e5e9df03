//! Applying a move to the board.

use vstd::prelude::*;
use crate::board::laws::{lemma_apply_keeps_rights_lost, lemma_legal_move_keeps_sound};
use crate::board::model::BoardView;
use crate::board::position::{abs, Move, Position};
use crate::board::{Board, BoardError};
use crate::piece::{Color, Piece, PieceType};

verus! {

impl BoardView {
    /// The board without the castling right that belongs to the corner `p`,
    /// if `p` is a corner.
    pub open spec fn revoke_at(self, p: Position) -> BoardView {
        if p.row == 7 && p.col == 7 {
            BoardView { short_castle_white: false, ..self }
        } else if p.row == 7 && p.col == 0 {
            BoardView { long_castle_white: false, ..self }
        } else if p.row == 0 && p.col == 7 {
            BoardView { short_castle_black: false, ..self }
        } else if p.row == 0 && p.col == 0 {
            BoardView { long_castle_black: false, ..self }
        } else {
            self
        }
    }

    /// What a pawn's move does beside moving the pawn. A step of two rows
    /// opens its column to a capture in passing; otherwise, on row 0 or 7 the
    /// pawn takes the kind the move names. A step to a neighbouring column
    /// that lands on an empty square removes what stands beside the pawn on
    /// that column.
    pub open spec fn pawn_effects(self, mv: Move, pawn: Piece) -> BoardView {
        let stepped = if abs(mv.to.row - mv.from.row) == 2 {
            BoardView { en_passant_col: mv.to.col as int, ..self }
        } else if (mv.to.row == 0 || mv.to.row == 7) && mv.promotion is Some {
            self.set(
                mv.from.row as int,
                mv.from.col as int,
                Some(Piece { piece_type: mv.promotion->0, color: pawn.color }),
            )
        } else {
            self
        };
        if abs(mv.to.col - mv.from.col) == 1 && stepped.piece_at(mv.to) is None {
            stepped.set(mv.from.row as int, mv.to.col as int, None)
        } else {
            stepped
        }
    }

    /// What a king's move does beside moving the king. The side's recorded
    /// king position becomes the destination and both its castling rights
    /// go. Over two columns or more, what stands in the corner on that side
    /// of the king's row comes to the square the king passes first.
    pub open spec fn king_effects(self, mv: Move, king: Piece) -> BoardView {
        let recorded = match king.color {
            Color::White => BoardView {
                white_king_pos: mv.to,
                short_castle_white: false,
                long_castle_white: false,
                ..self
            },
            Color::Black => BoardView {
                black_king_pos: mv.to,
                short_castle_black: false,
                long_castle_black: false,
                ..self
            },
        };
        if abs(mv.from.col - mv.to.col) >= 2 {
            let side: int = if mv.to.col > mv.from.col {
                1
            } else {
                -1
            };
            let corner: int = if side > 0 {
                7
            } else {
                0
            };
            recorded.set(mv.from.row as int, corner, None).set(
                mv.from.row as int,
                mv.from.col + side,
                recorded.at(mv.from.row as int, corner),
            )
        } else {
            recorded
        }
    }

    /// The board with what stood on `from` moved to `to`.
    pub open spec fn relocate(self, from: Position, to: Position) -> BoardView {
        self.set(from.row as int, from.col as int, None).set(
            to.row as int,
            to.col as int,
            self.piece_at(from),
        )
    }

    /// The board after the move, made without asking whether it is legal.
    /// The turn passes and the right to capture in passing lapses. If a
    /// piece stands on the origin: a castling right goes when the move
    /// touches its rook's corner, pawns and kings have their own effects,
    /// and the piece goes to the destination.
    pub open spec fn apply(self, mv: Move) -> BoardView {
        let passed = BoardView { turn: self.turn.opposite(), en_passant_col: -1, ..self };
        match self.piece_at(mv.from) {
            None => passed,
            Some(piece) => {
                let revoked = passed.revoke_at(mv.to).revoke_at(mv.from);
                let done = match piece.piece_type {
                    PieceType::Pawn => revoked.pawn_effects(mv, piece),
                    PieceType::King => revoked.king_effects(mv, piece),
                    _ => revoked,
                };
                done.relocate(mv.from, mv.to)
            },
        }
    }

    /// The board that an attempt to make the move leaves: the board after
    /// the move if it is legal, the same board if not.
    pub open spec fn after(self, mv: Move) -> BoardView {
        if self.legal(mv) {
            self.apply(mv)
        } else {
            self
        }
    }

    /// The board that attempts to make the moves, one after the other,
    /// leave.
    pub open spec fn after_all(self, moves: Seq<Move>) -> BoardView
        decreases moves.len(),
    {
        if moves.len() == 0 {
            self
        } else {
            self.after_all(moves.drop_last()).after(moves.last())
        }
    }

    /// A pawn that the move brings to row 0 or 7 in one step is told what to
    /// become.
    pub open spec fn names_promotion(self, mv: Move) -> bool {
        (self.piece_at(mv.from) matches Some(piece) && piece.piece_type == PieceType::Pawn && abs(
            mv.to.row - mv.from.row,
        ) != 2 && (mv.to.row == 0 || mv.to.row == 7)) ==> mv.promotion is Some
    }
}

/// The distance between two coordinates of the board.
#[inline]
fn distance(a: i8, b: i8) -> (d: i8)
    requires
        0 <= a < 8,
        0 <= b < 8,
    ensures
        d == abs(a - b),
{
    if a < b {
        b - a
    } else {
        a - b
    }
}

impl Board {
    /// Gives up the castling right that belongs to the corner `p`, if `p` is
    /// a corner.
    #[inline]
    fn revoke_castling_at(&mut self, p: Position)
        ensures
            final(self)@ == old(self)@.revoke_at(p),
    {
        proof {
            use_type_invariant(&*self);
        }
        if p.row == 7 && p.col == 7 {
            self.short_castle_white = false;
        } else if p.row == 7 && p.col == 0 {
            self.long_castle_white = false;
        } else if p.row == 0 && p.col == 7 {
            self.short_castle_black = false;
        } else if p.row == 0 && p.col == 0 {
            self.long_castle_black = false;
        }
    }

    /// Puts `sq` on the square `p`.
    #[inline]
    fn put(&mut self, p: Position, sq: Option<Piece>)
        requires
            p.on_board(),
        ensures
            final(self)@ == old(self)@.set(p.row as int, p.col as int, sq),
    {
        proof {
            use_type_invariant(&*self);
        }
        self.board[p.row as usize][p.col as usize] = sq;
        assert(self@.squares =~~= old(self)@.set(p.row as int, p.col as int, sq).squares);
    }

    /// Passes the turn and lets the right to capture in passing lapse.
    #[inline]
    fn pass_turn(&mut self)
        ensures
            final(self)@ == (BoardView {
                turn: old(self)@.turn.opposite(),
                en_passant_col: -1,
                ..old(self)@
            }),
    {
        proof {
            use_type_invariant(&*self);
        }
        self.turn = self.turn.flip();
        self.en_passant_col = -1;
    }

    /// Does what a pawn's move does beside moving the pawn.
    fn pawn_moves_on(&mut self, mv: &Move, pawn: Piece)
        requires
            mv.from.on_board(),
            mv.to.on_board(),
            (abs(mv.to.row - mv.from.row) != 2 && (mv.to.row == 0 || mv.to.row == 7))
                ==> mv.promotion is Some,
        ensures
            final(self)@ == old(self)@.pawn_effects(*mv, pawn),
    {
        proof {
            use_type_invariant(&*self);
        }
        if distance(mv.to.row, mv.from.row) == 2 {
            self.en_passant_col = mv.to.col;
        } else if mv.to.row == 0 || mv.to.row == 7 {
            match mv.promotion {
                Some(kind) => {
                    self.put(mv.from, Some(Piece { piece_type: kind, color: pawn.color }));
                },
                None => {},
            }
        }
        if distance(mv.to.col, mv.from.col) == 1 && self.at(mv.to).is_none() {
            self.put(Position { row: mv.from.row, col: mv.to.col }, None);
        }
    }

    /// Records where the king of `color` now stands and gives up both its
    /// castling rights.
    #[inline]
    fn record_king(&mut self, color: Color, to: Position)
        requires
            to.on_board(),
        ensures
            final(self)@ == match color {
                Color::White => BoardView {
                    white_king_pos: to,
                    short_castle_white: false,
                    long_castle_white: false,
                    ..old(self)@
                },
                Color::Black => BoardView {
                    black_king_pos: to,
                    short_castle_black: false,
                    long_castle_black: false,
                    ..old(self)@
                },
            },
    {
        proof {
            use_type_invariant(&*self);
        }
        match color {
            Color::White => {
                self.white_king_pos = to;
                self.short_castle_white = false;
                self.long_castle_white = false;
            },
            Color::Black => {
                self.black_king_pos = to;
                self.short_castle_black = false;
                self.long_castle_black = false;
            },
        }
    }

    /// Does what a king's move does beside moving the king.
    fn king_moves_on(&mut self, mv: &Move, king: Piece)
        requires
            mv.from.on_board(),
            mv.to.on_board(),
        ensures
            final(self)@ == old(self)@.king_effects(*mv, king),
    {
        self.record_king(king.color, mv.to);
        if distance(mv.from.col, mv.to.col) >= 2 {
            let side: i8 = if mv.to.col > mv.from.col {
                1
            } else {
                -1
            };
            let corner = Position {
                row: mv.from.row,
                col: if side > 0 {
                    7
                } else {
                    0
                },
            };
            let rook = self.at(corner);
            self.put(corner, None);
            self.put(Position { row: mv.from.row, col: mv.from.col + side }, rook);
        }
    }

    /// Moves what stands on `from` to `to`.
    #[inline]
    fn move_piece(&mut self, from: Position, to: Position)
        requires
            from.on_board(),
            to.on_board(),
        ensures
            final(self)@ == old(self)@.relocate(from, to),
    {
        let moved = self.at(from);
        self.put(from, None);
        self.put(to, moved);
    }

    /// Makes the move without asking whether it is legal. Fails, with the
    /// turn passed on all the same, when the origin is empty.
    pub(crate) fn unsafe_make_move(&mut self, mv: &Move) -> (res: Result<(), BoardError>)
        requires
            mv.from.on_board(),
            mv.to.on_board(),
            old(self)@.names_promotion(*mv),
        ensures
            final(self)@ == old(self)@.apply(*mv),
            res == if old(self)@.piece_at(mv.from) is None {
                Err::<(), BoardError>(BoardError::IllegalMove)
            } else {
                Ok::<(), BoardError>(())
            },
    {
        let piece = match self.at(mv.from) {
            None => {
                self.pass_turn();
                return Err(BoardError::IllegalMove);
            },
            Some(piece) => piece,
        };
        self.pass_turn();
        self.revoke_castling_at(mv.to);
        self.revoke_castling_at(mv.from);
        match piece.piece_type {
            PieceType::Pawn => {
                self.pawn_moves_on(mv, piece);
            },
            PieceType::King => {
                self.king_moves_on(mv, piece);
            },
            _ => {},
        }
        self.move_piece(mv.from, mv.to);
        Ok(())
    }

    /// Makes the move if it is legal; otherwise leaves the board as it is
    /// and reports the move as illegal.
    pub fn make_move(&mut self, mv: &Move) -> (res: Result<(), BoardError>)
        ensures
            final(self)@ == old(self)@.after(*mv),
            res == if old(self)@.legal(*mv) {
                Ok::<(), BoardError>(())
            } else {
                Err::<(), BoardError>(BoardError::IllegalMove)
            },
            old(self)@.has_rights_of(final(self)@),
            old(self)@.sound() ==> final(self)@.sound(),
    {
        if !self.is_legal(mv) {
            return Err(BoardError::IllegalMove);
        }
        proof {
            lemma_apply_keeps_rights_lost(self@, *mv);
            if self@.sound() {
                lemma_legal_move_keeps_sound(self@, *mv);
            }
        }
        self.unsafe_make_move(mv)
    }
}

} // verus!
