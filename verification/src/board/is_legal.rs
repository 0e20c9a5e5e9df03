//! Which moves are legal.

use vstd::prelude::*;
use crate::board::is_attacked::between;
use crate::board::model::{en_passant_row, forward, home_row, pawn_start_row, BoardView};
use crate::board::position::{abs, Move, Position};
use crate::board::Board;
use crate::piece::{Color, PieceType};

verus! {

/// What a pawn may become on the last row is named, and is neither pawn
/// nor king.
pub open spec fn promotes(promotion: Option<PieceType>) -> bool {
    match promotion {
        Some(kind) => kind != PieceType::Pawn && kind != PieceType::King,
        None => false,
    }
}

/// Two distinct squares of one row or of one column.
pub open spec fn same_rank_or_file(from: Position, to: Position) -> bool {
    (from.row == to.row) != (from.col == to.col)
}

/// Two distinct squares of one diagonal.
pub open spec fn same_diagonal(from: Position, to: Position) -> bool {
    from.row != to.row && abs(to.row - from.row) == abs(to.col - from.col)
}

impl BoardView {
    /// The square `p` is empty or holds a piece of the side not to move.
    pub open spec fn open_to_mover(self, p: Position) -> bool {
        match self.piece_at(p) {
            Some(piece) => piece.color != self.turn,
            None => true,
        }
    }

    /// Every square strictly between `from` and `to` is empty.
    pub open spec fn path_clear(self, from: Position, to: Position) -> bool {
        self.clear_between(from.row as int, from.col as int, to.row as int, to.col as int)
    }

    /// A pawn of the side to move may go from `mv.from` to `mv.to`: one step
    /// onto an empty square; two steps from its starting row over two empty
    /// squares; or one step to a neighbouring column, onto a piece of the
    /// other side or, from the row of captures in passing, onto the column
    /// open to one. On row 0 or 7 the move must name what the pawn becomes:
    /// a kind other than pawn and king.
    pub open spec fn pawn_rule(self, mv: Move) -> bool {
        let dcol = abs(mv.to.col - mv.from.col);
        let drow = mv.to.row - mv.from.row;
        let dir = forward(self.turn);
        if (mv.to.row == 0 || mv.to.row == 7) && !promotes(mv.promotion) {
            false
        } else if dcol == 0 && drow == dir {
            self.piece_at(mv.to) is None
        } else if dcol == 0 && drow == 2 * dir {
            &&& mv.from.row == pawn_start_row(self.turn)
            &&& self.at(mv.from.row + dir, mv.from.col as int) is None
            &&& self.piece_at(mv.to) is None
        } else if dcol == 1 && drow == dir {
            ||| self.held_by(mv.to.row as int, mv.to.col as int, self.turn.opposite())
            ||| (self.en_passant_col == mv.to.col && mv.from.row == en_passant_row(self.turn))
        } else {
            false
        }
    }

    /// A knight may go from `mv.from` to `mv.to`.
    pub open spec fn knight_rule(self, mv: Move) -> bool {
        let dcol = abs(mv.from.col - mv.to.col);
        let drow = abs(mv.from.row - mv.to.row);
        ((dcol == 1 && drow == 2) || (dcol == 2 && drow == 1)) && self.open_to_mover(mv.to)
    }

    /// A rook may go from `mv.from` to `mv.to`.
    pub open spec fn rook_rule(self, mv: Move) -> bool {
        same_rank_or_file(mv.from, mv.to) && self.path_clear(mv.from, mv.to) && self.open_to_mover(
            mv.to,
        )
    }

    /// A bishop may go from `mv.from` to `mv.to`.
    pub open spec fn bishop_rule(self, mv: Move) -> bool {
        same_diagonal(mv.from, mv.to) && self.path_clear(mv.from, mv.to) && self.open_to_mover(
            mv.to,
        )
    }

    /// A queen may go from `mv.from` to `mv.to`.
    pub open spec fn queen_rule(self, mv: Move) -> bool {
        self.bishop_rule(mv) || self.rook_rule(mv)
    }

    /// The side to move may castle by the king's move `mv` over two columns
    /// of one row: the square that the king passes is not attacked, the
    /// right to castle on that side is held, and the recorded king stands
    /// on its home row with nothing between it and that side's corner.
    pub open spec fn castle_rule(self, mv: Move) -> bool {
        let short = mv.to.col > mv.from.col;
        let passed = Position {
            row: mv.from.row,
            col: if short {
                (mv.from.col + 1) as i8
            } else {
                (mv.from.col - 1) as i8
            },
        };
        let corner = Position { row: home_row(self.turn) as i8, col: if short {
            7i8
        } else {
            0i8
        } };
        let king = self.king_pos(self.turn);
        &&& !self.attacked(passed, self.turn.opposite())
        &&& if short {
            self.short_castle(self.turn)
        } else {
            self.long_castle(self.turn)
        }
        &&& king.row == corner.row
        &&& king.col != corner.col
        &&& self.path_clear(corner, king)
    }

    /// A king may go from `mv.from` to `mv.to`: to a neighbouring square, or
    /// by castling.
    pub open spec fn king_rule(self, mv: Move) -> bool {
        let dcol = abs(mv.to.col - mv.from.col);
        let drow = abs(mv.to.row - mv.from.row);
        if dcol <= 1 && drow <= 1 {
            self.open_to_mover(mv.to)
        } else if dcol == 2 && drow == 0 {
            self.castle_rule(mv)
        } else {
            false
        }
    }

    /// The rule of movement for a piece of `kind`.
    pub open spec fn piece_rule(self, kind: PieceType, mv: Move) -> bool {
        match kind {
            PieceType::Pawn => self.pawn_rule(mv),
            PieceType::Rook => self.rook_rule(mv),
            PieceType::Knight => self.knight_rule(mv),
            PieceType::Bishop => self.bishop_rule(mv),
            PieceType::Queen => self.queen_rule(mv),
            PieceType::King => self.king_rule(mv),
        }
    }

    /// After the move the other side attacks the recorded king of the side
    /// that made it.
    pub open spec fn leaves_king_attacked(self, mv: Move) -> bool {
        let after = self.apply(mv);
        after.attacked(after.king_pos(self.turn), after.turn)
    }

    /// The move goes between two distinct squares of the board, moves a
    /// piece of the side to move as that piece may move, and does not leave
    /// the mover's king attacked.
    pub open spec fn legal(self, mv: Move) -> bool {
        &&& mv.from.on_board()
        &&& mv.to.on_board()
        &&& mv.from != mv.to
        &&& self.piece_at(mv.from) matches Some(piece)
        &&& piece.color == self.turn
        &&& self.piece_rule(piece.piece_type, mv)
        &&& !self.leaves_king_attacked(mv)
    }

    /// The move ends on an occupied square of the board.
    pub open spec fn capturing(self, mv: Move) -> bool {
        mv.to.on_board() && self.piece_at(mv.to) is Some
    }

    /// The test that keeps the legal moves.
    pub open spec fn legal_filter(self) -> spec_fn(Move) -> bool {
        |mv: Move| self.legal(mv)
    }

    /// The test that keeps the moves that end on an occupied square.
    pub open spec fn capturing_filter(self) -> spec_fn(Move) -> bool {
        |mv: Move| self.capturing(mv)
    }

    /// The legal moves of the side to move, in the order in which the
    /// pieces' moves are listed.
    pub open spec fn legal_moves(self) -> Seq<Move> {
        self.pseudo_moves().filter(self.legal_filter())
    }

    /// The other side attacks the recorded king of the side to move.
    pub open spec fn in_check(self) -> bool {
        self.attacked(self.king_pos(self.turn), self.turn.opposite())
    }

    /// The side to move has no legal move and its king is attacked.
    pub open spec fn checkmate(self) -> bool {
        self.legal_moves().len() == 0 && self.in_check()
    }

    /// The side to move has no legal move and its king is not attacked.
    pub open spec fn stalemate(self) -> bool {
        self.legal_moves().len() == 0 && !self.in_check()
    }

    /// The legal moves that end on an occupied square. A capture in
    /// passing ends on an empty square and is not among them.
    pub open spec fn legal_capturing_moves(self) -> Seq<Move> {
        self.pseudo_moves().filter(self.capturing_filter()).filter(self.legal_filter())
    }
}

/// Filtering a sequence with one more item at its end keeps or drops that
/// item and leaves the rest as it was.
pub proof fn lemma_filter_push<A>(s: Seq<A>, item: A, keep: spec_fn(A) -> bool)
    ensures
        s.push(item).filter(keep) == if keep(item) {
            s.filter(keep).push(item)
        } else {
            s.filter(keep)
        },
{
    reveal(Seq::filter);
    assert(s.push(item).drop_last() =~= s);
}

/// The sign of `to - from`: 1, 0 or -1.
#[inline]
fn toward(from: i8, to: i8) -> (d: i8)
    ensures
        d == if to > from {
            1int
        } else if to < from {
            -1int
        } else {
            0int
        },
{
    if to > from {
        1
    } else if to < from {
        -1
    } else {
        0
    }
}

impl Board {
    /// Keeps the legal moves among those that end on an occupied square.
    #[inline]
    pub fn retain_legal_capturing(&self, moves: Vec<Move>) -> (kept: Vec<Move>)
        ensures
            kept@ == moves@.filter(self@.capturing_filter()).filter(self@.legal_filter()),
    {
        self.retain_legal(self.retain_capturing(moves))
    }

    /// Keeps the legal moves, in their order.
    #[inline]
    pub fn retain_legal(&self, moves: Vec<Move>) -> (kept: Vec<Move>)
        ensures
            kept@ == moves@.filter(self@.legal_filter()),
    {
        let mut kept: Vec<Move> = Vec::new();
        let mut i: usize = 0;
        assert(moves@.take(0).filter(self@.legal_filter()) =~= Seq::<Move>::empty()) by {
            reveal(Seq::filter);
        }
        while i < moves.len()
            invariant
                0 <= i <= moves.len(),
                kept@ == moves@.take(i as int).filter(self@.legal_filter()),
            decreases moves.len() - i,
        {
            let mv = moves[i];
            proof {
                assert(moves@.take(i + 1) =~= moves@.take(i as int).push(mv));
                lemma_filter_push(moves@.take(i as int), mv, self@.legal_filter());
            }
            if self.is_legal(&mv) {
                kept.push(mv);
            }
            i += 1;
        }
        assert(moves@.take(i as int) =~= moves@);
        kept
    }

    /// Keeps the moves that end on an occupied square of the board, in
    /// their order.
    #[inline]
    pub fn retain_capturing(&self, moves: Vec<Move>) -> (kept: Vec<Move>)
        ensures
            kept@ == moves@.filter(self@.capturing_filter()),
    {
        let mut kept: Vec<Move> = Vec::new();
        let mut i: usize = 0;
        assert(moves@.take(0).filter(self@.capturing_filter()) =~= Seq::<Move>::empty()) by {
            reveal(Seq::filter);
        }
        while i < moves.len()
            invariant
                0 <= i <= moves.len(),
                kept@ == moves@.take(i as int).filter(self@.capturing_filter()),
            decreases moves.len() - i,
        {
            let mv = moves[i];
            proof {
                assert(moves@.take(i + 1) =~= moves@.take(i as int).push(mv));
                lemma_filter_push(moves@.take(i as int), mv, self@.capturing_filter());
            }
            if !mv.to.out_of_bounds() && self.at(mv.to).is_some() {
                kept.push(mv);
            }
            i += 1;
        }
        assert(moves@.take(i as int) =~= moves@);
        kept
    }

    /// Whether the square `p` is empty or holds a piece of the side not to
    /// move.
    #[inline]
    fn is_open_to_mover(&self, p: Position) -> (open: bool)
        requires
            p.on_board(),
        ensures
            open == self@.open_to_mover(p),
    {
        match self.at(p) {
            Some(piece) => piece.color != self.turn,
            None => true,
        }
    }

    /// Whether every square strictly between `from` and `to` is empty.
    fn is_path_clear(&self, from: Position, to: Position) -> (clear: bool)
        requires
            from.on_board(),
            to.on_board(),
            same_rank_or_file(from, to) || same_diagonal(from, to),
        ensures
            clear == self@.path_clear(from, to),
    {
        let dr = toward(from.row, to.row);
        let dc = toward(from.col, to.col);
        match self.first_on_ray(&from, dr, dc) {
            Some(p) => {
                let blocked = if dr != 0 {
                    (from.row < p.row && p.row < to.row) || (to.row < p.row && p.row < from.row)
                } else {
                    (from.col < p.col && p.col < to.col) || (to.col < p.col && p.col < from.col)
                };
                proof {
                    if blocked {
                        assert(between(
                            from.row as int,
                            from.col as int,
                            to.row as int,
                            to.col as int,
                            p.row as int,
                            p.col as int,
                        ));
                        assert(self@.at(p.row as int, p.col as int) is Some);
                    }
                }
                !blocked
            },
            None => true,
        }
    }

    /// Whether the move, made on a copy of the board, leaves the mover's
    /// king attacked by the other side.
    fn is_own_king_attacked_after_move(&self, mv: &Move) -> (hit: bool)
        requires
            mv.from.on_board(),
            mv.to.on_board(),
            self@.names_promotion(*mv),
        ensures
            hit == self@.leaves_king_attacked(*mv),
    {
        let mut board_copy = *self;
        let _ = board_copy.unsafe_make_move(mv);
        proof {
            use_type_invariant(&board_copy);
        }
        let king = match self.turn {
            Color::White => board_copy.white_king_pos,
            Color::Black => board_copy.black_king_pos,
        };
        board_copy.is_attacked_by_player(&king)
    }

    /// Whether the pawn of the side to move on `mv.from` may go to `mv.to`.
    fn is_legal_pawn(&self, mv: &Move) -> (ok: bool)
        requires
            mv.from.on_board(),
            mv.to.on_board(),
        ensures
            ok == self@.pawn_rule(*mv),
    {
        let dcol = if mv.to.col < mv.from.col {
            mv.from.col - mv.to.col
        } else {
            mv.to.col - mv.from.col
        };
        let drow = mv.to.row - mv.from.row;
        if mv.to.row == 0 || mv.to.row == 7 {
            match mv.promotion {
                None => {
                    return false;
                },
                Some(kind) => {
                    if kind == PieceType::Pawn || kind == PieceType::King {
                        return false;
                    }
                },
            }
        }
        let dir = Board::dir(&self.turn);
        if dcol == 0 && drow == dir {
            return self.at(mv.to).is_none();
        }
        if dcol == 0 && drow == 2 * dir {
            let start_row: i8 = match self.turn {
                Color::White => 6,
                Color::Black => 1,
            };
            return start_row == mv.from.row && self.at((mv.from + mv.to) / 2).is_none() && self.at(
                mv.to,
            ).is_none();
        }
        if dcol == 1 && drow == dir {
            let takes = match self.at(mv.to) {
                Some(piece) => piece.color != self.turn,
                None => false,
            };
            let passing_row: i8 = match self.turn {
                Color::White => 3,
                Color::Black => 4,
            };
            return takes || (self.en_passant_col == mv.to.col && mv.from.row == passing_row);
        }
        false
    }

    /// Whether a knight of the side to move may go from `mv.from` to `mv.to`.
    fn is_legal_knight(&self, mv: &Move) -> (ok: bool)
        requires
            mv.from.on_board(),
            mv.to.on_board(),
        ensures
            ok == self@.knight_rule(*mv),
    {
        let dpos = (mv.from - mv.to).abs();
        ((dpos.col == 1 && dpos.row == 2) || (dpos.col == 2 && dpos.row == 1))
            && self.is_open_to_mover(mv.to)
    }

    /// Whether a rook of the side to move may go from `mv.from` to `mv.to`.
    fn is_legal_rook(&self, mv: &Move) -> (ok: bool)
        requires
            mv.from.on_board(),
            mv.to.on_board(),
        ensures
            ok == self@.rook_rule(*mv),
    {
        let dpos = mv.to - mv.from;
        if (dpos.col == 0) == (dpos.row == 0) {
            return false;
        }
        self.is_path_clear(mv.from, mv.to) && self.is_open_to_mover(mv.to)
    }

    /// Whether a bishop of the side to move may go from `mv.from` to `mv.to`.
    fn is_legal_bishop(&self, mv: &Move) -> (ok: bool)
        requires
            mv.from.on_board(),
            mv.to.on_board(),
        ensures
            ok == self@.bishop_rule(*mv),
    {
        let dpos = (mv.to - mv.from).abs();
        if dpos.col != dpos.row || dpos.row == 0 {
            return false;
        }
        self.is_path_clear(mv.from, mv.to) && self.is_open_to_mover(mv.to)
    }

    /// Whether a queen of the side to move may go from `mv.from` to `mv.to`.
    fn is_legal_queen(&self, mv: &Move) -> (ok: bool)
        requires
            mv.from.on_board(),
            mv.to.on_board(),
        ensures
            ok == self@.queen_rule(*mv),
    {
        self.is_legal_bishop(mv) || self.is_legal_rook(mv)
    }

    /// Whether the king of the side to move may go from `mv.from` to `mv.to`,
    /// by a step or by castling.
    fn is_legal_king(&self, mv: &Move) -> (ok: bool)
        requires
            mv.from.on_board(),
            mv.to.on_board(),
        ensures
            ok == self@.king_rule(*mv),
    {
        proof {
            use_type_invariant(self);
        }
        let dpos = (mv.to - mv.from).abs();
        if dpos.col <= 1 && dpos.row <= 1 {
            return self.is_open_to_mover(mv.to);
        }
        let long_castle = match self.turn {
            Color::White => self.long_castle_white,
            Color::Black => self.long_castle_black,
        };
        let short_castle = match self.turn {
            Color::White => self.short_castle_white,
            Color::Black => self.short_castle_black,
        };
        let king_pos = match self.turn {
            Color::White => self.white_king_pos,
            Color::Black => self.black_king_pos,
        };
        if dpos.col == 2 && dpos.row == 0 {
            let intermediary_pos = (mv.from + mv.to) / 2;
            if self.is_attacked_by_opponent(&intermediary_pos) {
                return false;
            }
            let is_short_castle = mv.to.col > mv.from.col;
            let home: i8 = match self.turn {
                Color::White => 7,
                Color::Black => 0,
            };
            let rook_pos: Position;
            if is_short_castle {
                if !short_castle {
                    return false;
                }
                rook_pos = Position { row: home, col: 7 };
            } else {
                if !long_castle {
                    return false;
                }
                rook_pos = Position { row: home, col: 0 };
            }
            return king_pos.row == rook_pos.row && king_pos.col != rook_pos.col
                && self.is_path_clear(rook_pos, king_pos);
        }
        false
    }

    /// Whether the move is legal on this board.
    pub fn is_legal(&self, mv: &Move) -> (ok: bool)
        ensures
            ok == self@.legal(*mv),
    {
        if mv.from.out_of_bounds() || mv.to.out_of_bounds() {
            return false;
        }
        if mv.from == mv.to {
            return false;
        }
        let piece = match self.at(mv.from) {
            Some(piece) => piece,
            None => {
                return false;
            },
        };
        if piece.color != self.turn {
            return false;
        }
        (match piece.piece_type {
            PieceType::Pawn => self.is_legal_pawn(mv),
            PieceType::Rook => self.is_legal_rook(mv),
            PieceType::Knight => self.is_legal_knight(mv),
            PieceType::Bishop => self.is_legal_bishop(mv),
            PieceType::Queen => self.is_legal_queen(mv),
            PieceType::King => self.is_legal_king(mv),
        }) && !self.is_own_king_attacked_after_move(mv)
    }
}

} // verus!
