//! What holds of every board that play can reach.

use vstd::prelude::*;
use crate::board::default::start_square;
use crate::board::is_attacked::{between, diagonal_kinds, on_ray, straight_kinds};
use crate::board::model::{en_passant_row, forward, BoardView};
use crate::board::position::{abs, in_bounds, Move, Position};
use crate::piece::{Color, Piece, PieceType};

verus! {

impl BoardView {
    /// The recorded position of the king of `color` holds that king, and no
    /// other square holds a king of that side.
    pub open spec fn king_in_place(self, color: Color) -> bool {
        let king = self.king_pos(color);
        &&& self.holds(king.row as int, king.col as int, PieceType::King, color)
        &&& forall|r: int, c: int|
            in_bounds(r, c) && #[trigger] self.at(r, c) == Some(
                Piece { piece_type: PieceType::King, color },
            ) ==> r == king.row && c == king.col
    }

    /// Each king stands where it is recorded, and is the only king of its
    /// side.
    pub open spec fn kings_in_place(self) -> bool {
        self.king_in_place(Color::White) && self.king_in_place(Color::Black)
    }

    /// A side that may still castle has its king on its home square and a
    /// rook in the corner on that side.
    pub open spec fn castling_in_place(self) -> bool {
        &&& self.short_castle_white ==> self.white_king_pos == (Position { row: 7, col: 4 })
            && self.holds(7, 7, PieceType::Rook, Color::White)
        &&& self.long_castle_white ==> self.white_king_pos == (Position { row: 7, col: 4 })
            && self.holds(7, 0, PieceType::Rook, Color::White)
        &&& self.short_castle_black ==> self.black_king_pos == (Position { row: 0, col: 4 })
            && self.holds(0, 7, PieceType::Rook, Color::Black)
        &&& self.long_castle_black ==> self.black_king_pos == (Position { row: 0, col: 4 })
            && self.holds(0, 0, PieceType::Rook, Color::Black)
    }

    /// Where a capture in passing is open, the pawn that may be captured
    /// stands on that column beside the capturing row, and the square it
    /// passed over is empty.
    pub open spec fn passing_in_place(self) -> bool {
        self.en_passant_col == -1 || {
            &&& 0 <= self.en_passant_col < 8
            &&& self.holds(
                en_passant_row(self.turn),
                self.en_passant_col,
                PieceType::Pawn,
                self.turn.opposite(),
            )
            &&& self.at(en_passant_row(self.turn) + forward(self.turn), self.en_passant_col) is None
        }
    }

    /// What play keeps true of a board: its shape, the kings where they are
    /// recorded, the castling rights and the capture in passing backed by
    /// the pieces, and the king of the side that has just moved not
    /// attacked.
    pub open spec fn sound(self) -> bool {
        &&& self.shaped()
        &&& self.kings_in_place()
        &&& self.castling_in_place()
        &&& self.passing_in_place()
        &&& !self.attacked(self.king_pos(self.turn.opposite()), self.turn)
    }

    /// Each castling right that `later` holds, `self` holds too.
    pub open spec fn has_rights_of(self, later: BoardView) -> bool {
        &&& later.short_castle_white ==> self.short_castle_white
        &&& later.long_castle_white ==> self.long_castle_white
        &&& later.short_castle_black ==> self.short_castle_black
        &&& later.long_castle_black ==> self.long_castle_black
    }
}

/// A move made on the board gives back no castling right.
pub proof fn lemma_apply_keeps_rights_lost(b: BoardView, mv: Move)
    ensures
        b.has_rights_of(b.apply(mv)),
{
}

/// Once a castling right is lost, no attempt to move brings it back.
pub proof fn lemma_castling_rights_never_return(b: BoardView, moves: Seq<Move>)
    ensures
        b.has_rights_of(b.after_all(moves)),
    decreases moves.len(),
{
    if moves.len() > 0 {
        lemma_castling_rights_never_return(b, moves.drop_last());
        lemma_apply_keeps_rights_lost(b.after_all(moves.drop_last()), moves.last());
    }
}

/// After a legal move the other side does not attack the mover's king.
pub proof fn lemma_legal_move_leaves_king_safe(b: BoardView, mv: Move)
    requires
        b.legal(mv),
    ensures
        !b.apply(mv).attacked(b.apply(mv).king_pos(b.turn), b.turn.opposite()),
{
}

/// An attempt to make an illegal move leaves the board as it was.
pub proof fn lemma_illegal_move_changes_nothing(b: BoardView, mv: Move)
    requires
        !b.legal(mv),
    ensures
        b.after(mv) == b,
{
}

/// A piece of `by`, of one of `kinds`, that stands on the ray from `pos` in
/// the direction `(dr, dc)` with nothing between attacks `pos` along it.
proof fn lemma_attacker_on_ray(
    b: BoardView,
    pos: Position,
    dr: int,
    dc: int,
    kinds: Seq<PieceType>,
    by: Color,
    from: Position,
    kind: PieceType,
)
    requires
        from.on_board(),
        on_ray(pos.row as int, pos.col as int, dr, dc, from.row as int, from.col as int),
        b.path_clear(from, pos),
        b.piece_at(from) == Some(Piece { piece_type: kind, color: by }),
        kinds.contains(kind),
    ensures
        b.ray_attacked(pos, dr, dc, kinds, by),
{
    assert forall|r: int, c: int|
        in_bounds(r, c) && between(
            pos.row as int,
            pos.col as int,
            from.row as int,
            from.col as int,
            r,
            c,
        ) implies (#[trigger] b.at(r, c)) is None by {
        assert(between(from.row as int, from.col as int, pos.row as int, pos.col as int, r, c));
    }
    assert(b.at(from.row as int, from.col as int) == Some(Piece { piece_type: kind, color: by }));
}

/// A piece of the side to move that may move onto a square, other than a
/// pawn by stepping straight ahead or a king by castling, attacks that
/// square.
pub proof fn lemma_mover_attacks_target(b: BoardView, mv: Move, piece: Piece)
    requires
        mv.from.on_board(),
        mv.to.on_board(),
        mv.from != mv.to,
        b.piece_at(mv.from) == Some(piece),
        piece.color == b.turn,
        b.piece_rule(piece.piece_type, mv),
        piece.piece_type == PieceType::Pawn ==> mv.to.col != mv.from.col,
        piece.piece_type == PieceType::King ==> mv.from == b.king_pos(b.turn) && mv.to.col
            - mv.from.col != 2 && mv.from.col - mv.to.col != 2,
    ensures
        b.attacked(mv.to, b.turn),
{
    let by = b.turn;
    let dr: int = if mv.from.row > mv.to.row {
        1
    } else if mv.from.row < mv.to.row {
        -1
    } else {
        0
    };
    let dc: int = if mv.from.col > mv.to.col {
        1
    } else if mv.from.col < mv.to.col {
        -1
    } else {
        0
    };
    assert(straight_kinds()[0] == PieceType::Rook);
    assert(straight_kinds()[1] == PieceType::Queen);
    assert(diagonal_kinds()[0] == PieceType::Bishop);
    assert(diagonal_kinds()[1] == PieceType::Queen);
    match piece.piece_type {
        PieceType::Pawn => {
            assert(b.pawn_attacked(mv.to, by));
        },
        PieceType::Knight => {
            assert(b.knight_attacked(mv.to, by));
        },
        PieceType::King => {
            assert(b.king_attacked(mv.to, by));
        },
        PieceType::Rook => {
            lemma_attacker_on_ray(b, mv.to, dr, dc, straight_kinds(), by, mv.from, PieceType::Rook);
            assert(b.straight_attacked(mv.to, by));
        },
        PieceType::Bishop => {
            lemma_attacker_on_ray(
                b,
                mv.to,
                dr,
                dc,
                diagonal_kinds(),
                by,
                mv.from,
                PieceType::Bishop,
            );
            assert(b.diagonal_attacked(mv.to, by));
        },
        PieceType::Queen => {
            if b.rook_rule(mv) {
                lemma_attacker_on_ray(
                    b,
                    mv.to,
                    dr,
                    dc,
                    straight_kinds(),
                    by,
                    mv.from,
                    PieceType::Queen,
                );
                assert(b.straight_attacked(mv.to, by));
            } else {
                lemma_attacker_on_ray(
                    b,
                    mv.to,
                    dr,
                    dc,
                    diagonal_kinds(),
                    by,
                    mv.from,
                    PieceType::Queen,
                );
                assert(b.diagonal_attacked(mv.to, by));
            }
        },
    }
}

/// What a legal move of `piece` puts on its destination: the piece, or
/// what a pawn that reaches row 0 or 7 becomes.
spec fn landed(mv: Move, piece: Piece) -> Piece {
    if piece.piece_type == PieceType::Pawn && (mv.to.row == 0 || mv.to.row == 7) {
        Piece { piece_type: mv.promotion->0, color: piece.color }
    } else {
        piece
    }
}

/// What a legal move of `piece` leaves on row `r`, column `c` of a sound
/// board.
spec fn grid_after(b: BoardView, mv: Move, piece: Piece, r: int, c: int) -> Option<Piece> {
    let castles = piece.piece_type == PieceType::King && abs(mv.to.col - mv.from.col) == 2;
    let passes = piece.piece_type == PieceType::Pawn && mv.to.col != mv.from.col && b.piece_at(
        mv.to,
    ) is None;
    let side: int = if mv.to.col > mv.from.col {
        1
    } else {
        -1
    };
    let corner: int = if side > 0 {
        7
    } else {
        0
    };
    if r == mv.to.row && c == mv.to.col {
        Some(landed(mv, piece))
    } else if r == mv.from.row && c == mv.from.col {
        None
    } else if passes && r == mv.from.row && c == mv.to.col {
        None
    } else if castles && r == mv.from.row && c == corner {
        None
    } else if castles && r == mv.from.row && c == mv.from.col + side {
        b.at(mv.from.row as int, corner)
    } else {
        b.at(r, c)
    }
}

/// A legal castling move on a sound board starts on the king's home
/// square and passes over and ends on empty squares.
proof fn lemma_castling_squares(b: BoardView, mv: Move)
    requires
        b.sound(),
        b.legal(mv),
        b.piece_at(mv.from) matches Some(piece) && piece.piece_type == PieceType::King,
        abs(mv.to.col - mv.from.col) == 2,
    ensures
        mv.from == b.king_pos(b.turn),
        mv.from.col == 4,
        mv.to.row == mv.from.row,
        b.piece_at(mv.to) is None,
        b.at(mv.from.row as int, (mv.from.col + mv.to.col) / 2) is None,
        b.holds(
            mv.from.row as int,
            if mv.to.col > mv.from.col {
                7
            } else {
                0
            },
            PieceType::Rook,
            b.turn,
        ),
{
    let king = b.king_pos(b.turn);
    assert(b.king_in_place(b.turn));
    assert(b.at(mv.from.row as int, mv.from.col as int) == b.piece_at(mv.from));
    assert(mv.from == king);
    assert(b.castle_rule(mv));
    assert(b.at(mv.to.row as int, mv.to.col as int) is None);
    assert(b.at(mv.from.row as int, (mv.from.col + mv.to.col) / 2) is None);
}

/// The grid after the move of a piece that is neither pawn nor king.
proof fn lemma_grid_after_plain(b: BoardView, mv: Move, piece: Piece)
    requires
        b.shaped(),
        mv.from.on_board(),
        mv.to.on_board(),
        mv.from != mv.to,
        b.piece_at(mv.from) == Some(piece),
        piece.piece_type != PieceType::Pawn,
        piece.piece_type != PieceType::King,
    ensures
        b.apply(mv).shaped(),
        forall|r: int, c: int|
            in_bounds(r, c) ==> #[trigger] b.apply(mv).at(r, c) == grid_after(b, mv, piece, r, c),
{
    let passed = BoardView { turn: b.turn.opposite(), en_passant_col: -1, ..b };
    let revoked = passed.revoke_at(mv.to).revoke_at(mv.from);
    assert(revoked.squares == b.squares);
    assert(b.apply(mv) == revoked.relocate(mv.from, mv.to));
}

/// The grid after a pawn's move.
proof fn lemma_grid_after_pawn(b: BoardView, mv: Move, piece: Piece)
    requires
        b.shaped(),
        mv.from.on_board(),
        mv.to.on_board(),
        mv.from != mv.to,
        b.piece_at(mv.from) == Some(piece),
        piece.piece_type == PieceType::Pawn,
        abs(mv.to.row - mv.from.row) == 2 ==> mv.to.row != 0 && mv.to.row != 7 && mv.to.col
            == mv.from.col,
        mv.to.row == 0 || mv.to.row == 7 ==> mv.promotion is Some,
        abs(mv.to.col - mv.from.col) <= 1,
    ensures
        b.apply(mv).shaped(),
        forall|r: int, c: int|
            in_bounds(r, c) ==> #[trigger] b.apply(mv).at(r, c) == grid_after(b, mv, piece, r, c),
{
    let passed = BoardView { turn: b.turn.opposite(), en_passant_col: -1, ..b };
    let revoked = passed.revoke_at(mv.to).revoke_at(mv.from);
    assert(revoked.squares == b.squares);
    let done = revoked.pawn_effects(mv, piece);
    assert(b.apply(mv) == done.relocate(mv.from, mv.to));
    assert(done.shaped());
    assert(done.piece_at(mv.from) == Some(landed(mv, piece)));
}

/// The grid after a king's move.
proof fn lemma_grid_after_king(b: BoardView, mv: Move, piece: Piece)
    requires
        b.shaped(),
        mv.from.on_board(),
        mv.to.on_board(),
        mv.from != mv.to,
        b.piece_at(mv.from) == Some(piece),
        piece.piece_type == PieceType::King,
        abs(mv.to.col - mv.from.col) <= 2,
        abs(mv.to.col - mv.from.col) == 2 ==> mv.from.col == 4 && mv.to.row == mv.from.row,
    ensures
        b.apply(mv).shaped(),
        forall|r: int, c: int|
            in_bounds(r, c) ==> #[trigger] b.apply(mv).at(r, c) == grid_after(b, mv, piece, r, c),
{
    let passed = BoardView { turn: b.turn.opposite(), en_passant_col: -1, ..b };
    let revoked = passed.revoke_at(mv.to).revoke_at(mv.from);
    assert(revoked.squares == b.squares);
    let done = revoked.king_effects(mv, piece);
    assert(b.apply(mv) == done.relocate(mv.from, mv.to));
    assert(done.shaped());
    assert(done.piece_at(mv.from) == Some(piece));
}

/// The grid after a legal move on a sound board, square by square.
proof fn lemma_grid_after(b: BoardView, mv: Move, piece: Piece)
    requires
        b.sound(),
        b.legal(mv),
        b.piece_at(mv.from) == Some(piece),
    ensures
        b.apply(mv).shaped(),
        forall|r: int, c: int|
            in_bounds(r, c) ==> #[trigger] b.apply(mv).at(r, c) == grid_after(b, mv, piece, r, c),
{
    match piece.piece_type {
        PieceType::Pawn => {
            assert(b.pawn_rule(mv));
            lemma_grid_after_pawn(b, mv, piece);
        },
        PieceType::King => {
            assert(b.king_rule(mv));
            if abs(mv.to.col - mv.from.col) == 2 {
                lemma_castling_squares(b, mv);
            }
            lemma_grid_after_king(b, mv, piece);
        },
        _ => {
            lemma_grid_after_plain(b, mv, piece);
        },
    }
}

/// Whether the move of `piece` touches the corner on row `row`, column
/// `col`, or moves the king of `color`.
spec fn gives_up(mv: Move, piece: Piece, color: Color, row: int, col: int) -> bool {
    ||| mv.to.row == row && mv.to.col == col
    ||| mv.from.row == row && mv.from.col == col
    ||| piece.piece_type == PieceType::King && piece.color == color
}

/// What a move records beside the grid.
proof fn lemma_records_after(b: BoardView, mv: Move, piece: Piece)
    requires
        b.piece_at(mv.from) == Some(piece),
    ensures
        b.apply(mv).turn == b.turn.opposite(),
        b.apply(mv).en_passant_col == if piece.piece_type == PieceType::Pawn && abs(
            mv.to.row - mv.from.row,
        ) == 2 {
            mv.to.col as int
        } else {
            -1
        },
        b.apply(mv).white_king_pos == if piece.piece_type == PieceType::King && piece.color
            == Color::White {
            mv.to
        } else {
            b.white_king_pos
        },
        b.apply(mv).black_king_pos == if piece.piece_type == PieceType::King && piece.color
            == Color::Black {
            mv.to
        } else {
            b.black_king_pos
        },
        b.apply(mv).short_castle_white == (b.short_castle_white && !gives_up(
            mv,
            piece,
            Color::White,
            7,
            7,
        )),
        b.apply(mv).long_castle_white == (b.long_castle_white && !gives_up(
            mv,
            piece,
            Color::White,
            7,
            0,
        )),
        b.apply(mv).short_castle_black == (b.short_castle_black && !gives_up(
            mv,
            piece,
            Color::Black,
            0,
            7,
        )),
        b.apply(mv).long_castle_black == (b.long_castle_black && !gives_up(
            mv,
            piece,
            Color::Black,
            0,
            0,
        )),
{
}

/// A piece that may move onto an occupied square finds a piece of the other
/// side there.
proof fn lemma_target_color(b: BoardView, mv: Move, piece: Piece)
    requires
        mv.from.on_board(),
        mv.to.on_board(),
        b.piece_at(mv.from) == Some(piece),
        piece.color == b.turn,
        b.piece_rule(piece.piece_type, mv),
        b.passing_in_place(),
        piece.piece_type == PieceType::King && abs(mv.to.col - mv.from.col) == 2 ==> b.piece_at(
            mv.to,
        ) is None,
    ensures
        b.piece_at(mv.to) matches Some(taken) ==> taken.color != b.turn,
        piece.piece_type == PieceType::Pawn && mv.to.col != mv.from.col && b.piece_at(mv.to) is None
            ==> b.holds(mv.from.row as int, mv.to.col as int, PieceType::Pawn, b.turn.opposite()),
{
    match piece.piece_type {
        PieceType::Pawn => {
            assert(b.pawn_rule(mv));
        },
        PieceType::Rook => {
            assert(b.rook_rule(mv));
        },
        PieceType::Knight => {
            assert(b.knight_rule(mv));
        },
        PieceType::Bishop => {
            assert(b.bishop_rule(mv));
        },
        PieceType::Queen => {
            assert(b.queen_rule(mv));
        },
        PieceType::King => {
            assert(b.king_rule(mv));
        },
    }
}

/// A piece that may move onto an occupied square does not find there the
/// king of a side that the mover does not attack.
proof fn lemma_target_kind(b: BoardView, mv: Move, piece: Piece)
    requires
        mv.from.on_board(),
        mv.to.on_board(),
        mv.from != mv.to,
        b.piece_at(mv.from) == Some(piece),
        piece.color == b.turn,
        b.piece_rule(piece.piece_type, mv),
        b.king_in_place(b.turn.opposite()),
        !b.attacked(b.king_pos(b.turn.opposite()), b.turn),
        piece.piece_type == PieceType::King ==> mv.from == b.king_pos(b.turn),
        piece.piece_type == PieceType::King && abs(mv.to.col - mv.from.col) == 2 ==> b.piece_at(
            mv.to,
        ) is None,
        b.piece_at(mv.to) matches Some(taken) && taken.color != b.turn,
    ensures
        b.piece_at(mv.to) matches Some(taken) && taken.piece_type != PieceType::King,
{
    let other = b.turn.opposite();
    let taken = b.piece_at(mv.to)->0;
    if taken.piece_type == PieceType::King {
        assert(b.at(mv.to.row as int, mv.to.col as int) == Some(
            Piece { piece_type: PieceType::King, color: other },
        ));
        assert(mv.to == b.king_pos(other));
        if piece.piece_type == PieceType::Pawn && mv.to.col == mv.from.col {
            assert(b.pawn_rule(mv));
        } else {
            lemma_mover_attacks_target(b, mv, piece);
        }
    }
}

/// What a legal move on a sound board finds on its destination and beside
/// it: never a king, never a piece of the mover; and where a pawn captures
/// in passing, the other side's pawn beside it.
proof fn lemma_target(b: BoardView, mv: Move, piece: Piece)
    requires
        b.sound(),
        b.legal(mv),
        b.piece_at(mv.from) == Some(piece),
    ensures
        b.piece_at(mv.to) matches Some(taken) ==> taken.color != b.turn && taken.piece_type
            != PieceType::King,
        piece.piece_type == PieceType::King ==> mv.from == b.king_pos(b.turn),
        piece.piece_type == PieceType::Pawn && mv.to.col != mv.from.col && b.piece_at(mv.to) is None
            ==> b.holds(mv.from.row as int, mv.to.col as int, PieceType::Pawn, b.turn.opposite()),
{
    assert(b.king_in_place(b.turn));
    assert(b.king_in_place(b.turn.opposite()));
    assert(b.at(mv.from.row as int, mv.from.col as int) == Some(piece));
    if piece.piece_type == PieceType::King && abs(mv.to.col - mv.from.col) == 2 {
        lemma_castling_squares(b, mv);
    }
    lemma_target_color(b, mv, piece);
    if b.piece_at(mv.to) is Some {
        lemma_target_kind(b, mv, piece);
    }
}

/// A legal move leaves each king where it is recorded,
/// the only king of its side.
proof fn lemma_keeps_kings(b: BoardView, mv: Move, piece: Piece)
    requires
        b.sound(),
        b.legal(mv),
        b.piece_at(mv.from) == Some(piece),
    ensures
        b.apply(mv).kings_in_place(),
{
    let after = b.apply(mv);
    lemma_grid_after(b, mv, piece);
    lemma_records_after(b, mv, piece);
    lemma_target(b, mv, piece);
    if piece.piece_type == PieceType::King && abs(mv.to.col - mv.from.col) == 2 {
        lemma_castling_squares(b, mv);
    }
    assert(b.king_in_place(Color::White));
    assert(b.king_in_place(Color::Black));
    assert(b.at(mv.from.row as int, mv.from.col as int) == Some(piece));
    assert(landed(mv, piece).piece_type == PieceType::King ==> piece.piece_type
        == PieceType::King) by {
        if piece.piece_type == PieceType::Pawn {
            assert(b.pawn_rule(mv));
        }
    }
    assert forall|color: Color| after.king_in_place(color) by {
        let king = after.king_pos(color);
        let was = b.king_pos(color);
        assert(b.king_in_place(color));
        assert(b.at(was.row as int, was.col as int) == Some(
            Piece { piece_type: PieceType::King, color },
        ));
        assert(after.at(king.row as int, king.col as int) == grid_after(
            b,
            mv,
            piece,
            king.row as int,
            king.col as int,
        ));
        assert(after.holds(king.row as int, king.col as int, PieceType::King, color));
        assert forall|r: int, c: int|
            in_bounds(r, c) && #[trigger] after.at(r, c) == Some(
                Piece { piece_type: PieceType::King, color },
            ) implies r == king.row && c == king.col by {
            assert(after.at(r, c) == grid_after(b, mv, piece, r, c));
            if !(r == mv.to.row && c == mv.to.col) {
                assert(b.at(r, c) == Some(Piece { piece_type: PieceType::King, color }));
            }
        }
    }
}

/// A legal move leaves each castling right that is still held backed by
/// king and rook.
proof fn lemma_keeps_castling(b: BoardView, mv: Move, piece: Piece)
    requires
        b.sound(),
        b.legal(mv),
        b.piece_at(mv.from) == Some(piece),
    ensures
        b.apply(mv).castling_in_place(),
{
    let after = b.apply(mv);
    lemma_grid_after(b, mv, piece);
    lemma_records_after(b, mv, piece);
    lemma_target(b, mv, piece);
    if piece.piece_type == PieceType::King && abs(mv.to.col - mv.from.col) == 2 {
        lemma_castling_squares(b, mv);
    }
    if piece.piece_type == PieceType::Pawn {
        assert(b.pawn_rule(mv));
        assert(b.passing_in_place());
    }
    assert(after.at(7, 7) == grid_after(b, mv, piece, 7, 7));
    assert(after.at(7, 0) == grid_after(b, mv, piece, 7, 0));
    assert(after.at(0, 7) == grid_after(b, mv, piece, 0, 7));
    assert(after.at(0, 0) == grid_after(b, mv, piece, 0, 0));
}

/// A legal move leaves a capture in passing open only beside the pawn that
/// has just stepped two rows.
proof fn lemma_keeps_passing(b: BoardView, mv: Move, piece: Piece)
    requires
        b.sound(),
        b.legal(mv),
        b.piece_at(mv.from) == Some(piece),
    ensures
        b.apply(mv).passing_in_place(),
{
    let after = b.apply(mv);
    lemma_grid_after(b, mv, piece);
    lemma_records_after(b, mv, piece);
    if piece.piece_type == PieceType::Pawn && abs(mv.to.row - mv.from.row) == 2 {
        assert(b.pawn_rule(mv));
        let row = en_passant_row(after.turn);
        let col = mv.to.col as int;
        assert(row == mv.to.row);
        assert(after.at(row, col) == grid_after(b, mv, piece, row, col));
        assert(after.at(row + forward(after.turn), col) == grid_after(
            b,
            mv,
            piece,
            row + forward(after.turn),
            col,
        ));
    }
}

/// No piece attacks `pos` along a ray on which the first piece, on row
/// `br`, column `bc`, belongs to the other side.
proof fn lemma_ray_blocked(
    b: BoardView,
    pos: Position,
    dr: int,
    dc: int,
    kinds: Seq<PieceType>,
    by: Color,
    br: int,
    bc: int,
)
    requires
        in_bounds(br, bc),
        on_ray(pos.row as int, pos.col as int, dr, dc, br, bc),
        b.clear_between(pos.row as int, pos.col as int, br, bc),
        b.at(br, bc) matches Some(piece) && piece.color != by,
    ensures
        !b.ray_attacked(pos, dr, dc, kinds, by),
{
    assert forall|r: int, c: int|
        in_bounds(r, c) && on_ray(pos.row as int, pos.col as int, dr, dc, r, c) && b.clear_between(
            pos.row as int,
            pos.col as int,
            r,
            c,
        ) && (#[trigger] b.at(r, c)) is Some implies (r == br && c == bc) by {
        if !(r == br && c == bc) {
            if between(pos.row as int, pos.col as int, br, bc, r, c) {
                assert(b.at(r, c) is None);
            } else {
                assert(between(pos.row as int, pos.col as int, r, c, br, bc));
                assert(b.at(br, bc) is None);
            }
        }
    }
}

/// No piece attacks `pos` along a ray that leaves the board at its first
/// step.
proof fn lemma_ray_off_board(
    b: BoardView,
    pos: Position,
    dr: int,
    dc: int,
    kinds: Seq<PieceType>,
    by: Color,
)
    requires
        pos.on_board(),
        -1 <= dr <= 1,
        -1 <= dc <= 1,
        !in_bounds(pos.row + dr, pos.col + dc),
    ensures
        !b.ray_attacked(pos, dr, dc, kinds, by),
{
}

/// The starting position is sound.
pub proof fn lemma_start_sound()
    ensures
        BoardView::start().sound(),
{
    let b = BoardView::start();
    let king = Position { row: 0, col: 4 };
    let by = Color::White;
    assert forall|r: int, c: int| in_bounds(r, c) implies #[trigger] b.at(r, c) == start_square(
        r,
        c,
    ) by {}
    assert(b.king_in_place(Color::White));
    assert(b.king_in_place(Color::Black));
    assert(!b.pawn_attacked(king, by));
    assert(!b.knight_attacked(king, by));
    assert(!b.king_attacked(king, by));
    assert(!b.straight_attacked(king, by)) by {
        let kinds = straight_kinds();
        assert(b.at(1, 4) == start_square(1, 4));
        assert(b.at(0, 5) == start_square(0, 5));
        assert(b.at(0, 3) == start_square(0, 3));
        lemma_ray_blocked(b, king, 1, 0, kinds, by, 1, 4);
        lemma_ray_blocked(b, king, 0, 1, kinds, by, 0, 5);
        lemma_ray_off_board(b, king, -1, 0, kinds, by);
        lemma_ray_blocked(b, king, 0, -1, kinds, by, 0, 3);
    }
    assert(!b.diagonal_attacked(king, by)) by {
        let kinds = diagonal_kinds();
        assert(b.at(1, 5) == start_square(1, 5));
        assert(b.at(1, 3) == start_square(1, 3));
        lemma_ray_blocked(b, king, 1, 1, kinds, by, 1, 5);
        lemma_ray_off_board(b, king, -1, -1, kinds, by);
        lemma_ray_blocked(b, king, 1, -1, kinds, by, 1, 3);
        lemma_ray_off_board(b, king, -1, 1, kinds, by);
    }
}

/// A legal move keeps a sound board sound: the kings stay where they are
/// recorded, each the only king of its side, and the rights to castle and
/// to capture in passing stay backed by the pieces.
pub proof fn lemma_legal_move_keeps_sound(b: BoardView, mv: Move)
    requires
        b.sound(),
        b.legal(mv),
    ensures
        b.apply(mv).sound(),
{
    let piece = b.piece_at(mv.from)->0;
    lemma_grid_after(b, mv, piece);
    lemma_records_after(b, mv, piece);
    lemma_keeps_kings(b, mv, piece);
    lemma_keeps_castling(b, mv, piece);
    lemma_keeps_passing(b, mv, piece);
    assert(!b.leaves_king_attacked(mv));
}

/// Every board that attempts to move reach from a sound board is sound.
pub proof fn lemma_play_keeps_sound(b: BoardView, moves: Seq<Move>)
    requires
        b.sound(),
    ensures
        b.after_all(moves).sound(),
    decreases moves.len(),
{
    if moves.len() > 0 {
        let before = b.after_all(moves.drop_last());
        lemma_play_keeps_sound(b, moves.drop_last());
        if before.legal(moves.last()) {
            lemma_legal_move_keeps_sound(before, moves.last());
        }
    }
}

/// On every board that play reaches from the starting position, each
/// recorded king position holds that side's king, and no other square does.
pub proof fn lemma_kings_stay_recorded(moves: Seq<Move>)
    ensures
        BoardView::start().after_all(moves).kings_in_place(),
{
    lemma_start_sound();
    lemma_play_keeps_sound(BoardView::start(), moves);
}

} // verus!
