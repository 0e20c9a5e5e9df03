//! Which squares a side attacks.

use vstd::prelude::*;
use crate::board::model::{en_passant_row, forward, BoardView};
use crate::board::position::{abs, in_bounds, Position};
use crate::board::Board;
use crate::piece::{Color, Piece, PieceType};

verus! {

/// Row `r`, column `c` lies on the ray that leaves row `pr`, column `pc` in
/// the direction of the signs of `dr` and `dc`, one step at a time.
pub open spec fn on_ray(pr: int, pc: int, dr: int, dc: int, r: int, c: int) -> bool {
    &&& dr != 0 || dc != 0
    &&& if dr == 0 {
        r == pr
    } else if dr > 0 {
        r > pr
    } else {
        r < pr
    }
    &&& if dc == 0 {
        c == pc
    } else if dc > 0 {
        c > pc
    } else {
        c < pc
    }
    &&& dr != 0 && dc != 0 ==> abs(r - pr) == abs(c - pc)
}

/// Row `r`, column `c` lies strictly between two squares of one row, one
/// column or one diagonal.
pub open spec fn between(r1: int, c1: int, r2: int, c2: int, r: int, c: int) -> bool {
    if r1 == r2 {
        r == r1 && (c1 < c < c2 || c2 < c < c1)
    } else if c1 == c2 {
        c == c1 && (r1 < r < r2 || r2 < r < r1)
    } else if r2 - r1 == c2 - c1 {
        r - r1 == c - c1 && (r1 < r < r2 || r2 < r < r1)
    } else if r2 - r1 == c1 - c2 {
        r - r1 == c1 - c && (r1 < r < r2 || r2 < r < r1)
    } else {
        false
    }
}

/// The kinds that attack along rows and columns.
pub open spec fn straight_kinds() -> Seq<PieceType> {
    seq![PieceType::Rook, PieceType::Queen]
}

/// The kinds that attack along diagonals.
pub open spec fn diagonal_kinds() -> Seq<PieceType> {
    seq![PieceType::Bishop, PieceType::Queen]
}

impl BoardView {
    /// Every square strictly between the two is empty.
    pub open spec fn clear_between(self, r1: int, c1: int, r2: int, c2: int) -> bool {
        forall|r: int, c: int|
            in_bounds(r, c) && between(r1, c1, r2, c2, r, c) ==> (#[trigger] self.at(r, c)) is None
    }

    /// A pawn of `by` attacks `pos`: it stands one row behind `pos`, as `by`
    /// moves, on a neighbouring column; or `pos` holds the pawn that may be
    /// captured in passing, and the pawn of `by` stands beside it.
    pub open spec fn pawn_attacked(self, pos: Position, by: Color) -> bool {
        let pawn = PieceType::Pawn;
        ||| self.holds(pos.row - forward(by), pos.col - 1, pawn, by)
        ||| self.holds(pos.row - forward(by), pos.col + 1, pawn, by)
        ||| {
            &&& pos.col == self.en_passant_col
            &&& pos.row == en_passant_row(by)
            &&& (self.holds(pos.row as int, pos.col - 1, pawn, by) || self.holds(
                pos.row as int,
                pos.col + 1,
                pawn,
                by,
            ))
        }
    }

    /// A knight of `by` stands a knight's move away from `pos`.
    pub open spec fn knight_attacked(self, pos: Position, by: Color) -> bool {
        let knight = PieceType::Knight;
        ||| self.holds(pos.row + 1, pos.col + 2, knight, by)
        ||| self.holds(pos.row - 1, pos.col - 2, knight, by)
        ||| self.holds(pos.row + 2, pos.col + 1, knight, by)
        ||| self.holds(pos.row - 2, pos.col - 1, knight, by)
        ||| self.holds(pos.row + 1, pos.col - 2, knight, by)
        ||| self.holds(pos.row - 1, pos.col + 2, knight, by)
        ||| self.holds(pos.row + 2, pos.col - 1, knight, by)
        ||| self.holds(pos.row - 2, pos.col + 1, knight, by)
    }

    /// `pos` is at most one row and one column away from the recorded
    /// position of the king of `by`.
    pub open spec fn king_attacked(self, pos: Position, by: Color) -> bool {
        let king = self.king_pos(by);
        abs(pos.row - king.row) <= 1 && abs(pos.col - king.col) <= 1
    }

    /// On the ray that leaves `pos` in the direction `(dr, dc)` stands a
    /// piece of `by`, of one of `kinds`, with nothing between it and `pos`.
    pub open spec fn ray_attacked(
        self,
        pos: Position,
        dr: int,
        dc: int,
        kinds: Seq<PieceType>,
        by: Color,
    ) -> bool {
        exists|r: int, c: int|
            #![trigger self.at(r, c)]
            {
                &&& in_bounds(r, c)
                &&& on_ray(pos.row as int, pos.col as int, dr, dc, r, c)
                &&& self.clear_between(pos.row as int, pos.col as int, r, c)
                &&& self.at(r, c) matches Some(piece)
                &&& piece.color == by
                &&& kinds.contains(piece.piece_type)
            }
    }

    /// A rook or queen of `by` attacks `pos` along its row or column.
    pub open spec fn straight_attacked(self, pos: Position, by: Color) -> bool {
        ||| self.ray_attacked(pos, 1, 0, straight_kinds(), by)
        ||| self.ray_attacked(pos, 0, 1, straight_kinds(), by)
        ||| self.ray_attacked(pos, -1, 0, straight_kinds(), by)
        ||| self.ray_attacked(pos, 0, -1, straight_kinds(), by)
    }

    /// A bishop or queen of `by` attacks `pos` along a diagonal.
    pub open spec fn diagonal_attacked(self, pos: Position, by: Color) -> bool {
        ||| self.ray_attacked(pos, 1, 1, diagonal_kinds(), by)
        ||| self.ray_attacked(pos, -1, -1, diagonal_kinds(), by)
        ||| self.ray_attacked(pos, 1, -1, diagonal_kinds(), by)
        ||| self.ray_attacked(pos, -1, 1, diagonal_kinds(), by)
    }

    /// The side `by` attacks the square `pos`, whoever is to move.
    pub open spec fn attacked(self, pos: Position, by: Color) -> bool {
        ||| self.pawn_attacked(pos, by)
        ||| self.knight_attacked(pos, by)
        ||| self.king_attacked(pos, by)
        ||| self.straight_attacked(pos, by)
        ||| self.diagonal_attacked(pos, by)
    }
}

/// A bound on how many squares a walk from row `r`, column `c` in the
/// direction `(dr, dc)` visits before it leaves the board.
pub open spec fn ray_room(r: int, c: int, dr: int, dc: int) -> int {
    if !in_bounds(r, c) {
        0
    } else if dr > 0 {
        8 - r
    } else if dr < 0 {
        r + 1
    } else if dc > 0 {
        8 - c
    } else {
        c + 1
    }
}

/// Whether `kind` is one of `kinds`.
fn is_one_of(kinds: &[PieceType; 2], kind: PieceType) -> (found: bool)
    ensures
        found == kinds@.contains(kind),
{
    let found = kinds[0] == kind || kinds[1] == kind;
    proof {
        if found {
            if kinds[0] == kind {
                assert(kinds@[0] == kind);
            } else {
                assert(kinds@[1] == kind);
            }
        }
    }
    found
}

impl Board {
    /// Whether row `row`, column `col` is a square of the board and holds
    /// `piece`.
    #[inline]
    fn holds(&self, row: i8, col: i8, piece: Piece) -> (found: bool)
        ensures
            found == self@.holds(row as int, col as int, piece.piece_type, piece.color),
    {
        if 0 <= row && row < 8 && 0 <= col && col < 8 {
            match self.board[row as usize][col as usize] {
                Some(p) => p.piece_type == piece.piece_type && p.color == piece.color,
                None => false,
            }
        } else {
            false
        }
    }

    /// Whether the side not to move attacks `pos`.
    pub fn is_attacked_by_opponent(&self, pos: &Position) -> (hit: bool)
        requires
            pos.on_board(),
        ensures
            hit == self@.attacked(*pos, self@.turn.opposite()),
    {
        self.is_attacked(pos, &self.turn.flip())
    }

    /// Whether the side to move attacks `pos`.
    pub fn is_attacked_by_player(&self, pos: &Position) -> (hit: bool)
        requires
            pos.on_board(),
        ensures
            hit == self@.attacked(*pos, self@.turn),
    {
        self.is_attacked(pos, &self.turn)
    }

    /// Whether the side `by_color` attacks `pos`.
    pub fn is_attacked(&self, pos: &Position, by_color: &Color) -> (hit: bool)
        requires
            pos.on_board(),
        ensures
            hit == self@.attacked(*pos, *by_color),
    {
        self.is_attacked_by_pawn(pos, by_color) || self.is_attacked_by_knight(pos, by_color)
            || self.is_attacked_by_king(pos, by_color) || self.is_attacked_adjacent(pos, by_color)
            || self.is_attacked_diagonal(pos, by_color)
    }

    /// Whether a knight of `by_color` attacks `pos`.
    fn is_attacked_by_knight(&self, pos: &Position, by_color: &Color) -> (hit: bool)
        requires
            pos.on_board(),
        ensures
            hit == self@.knight_attacked(*pos, *by_color),
    {
        let knight = Piece { piece_type: PieceType::Knight, color: *by_color };
        self.holds(pos.row + 1, pos.col + 2, knight) || self.holds(pos.row - 1, pos.col - 2, knight)
            || self.holds(pos.row + 2, pos.col + 1, knight) || self.holds(
            pos.row - 2,
            pos.col - 1,
            knight,
        ) || self.holds(pos.row + 1, pos.col - 2, knight) || self.holds(
            pos.row - 1,
            pos.col + 2,
            knight,
        ) || self.holds(pos.row + 2, pos.col - 1, knight) || self.holds(
            pos.row - 2,
            pos.col + 1,
            knight,
        )
    }

    /// Whether a pawn of `by_color` attacks `pos`.
    fn is_attacked_by_pawn(&self, pos: &Position, by_color: &Color) -> (hit: bool)
        requires
            pos.on_board(),
        ensures
            hit == self@.pawn_attacked(*pos, *by_color),
    {
        let dir = Board::dir(by_color);
        let pawn = Piece { piece_type: PieceType::Pawn, color: *by_color };
        if self.holds(pos.row - dir, pos.col - 1, pawn) || self.holds(
            pos.row - dir,
            pos.col + 1,
            pawn,
        ) {
            return true;
        }
        let passing_row: i8 = match by_color {
            Color::White => 3,
            Color::Black => 4,
        };
        pos.col == self.en_passant_col && pos.row == passing_row && (self.holds(
            pos.row,
            pos.col - 1,
            pawn,
        ) || self.holds(pos.row, pos.col + 1, pawn))
    }

    /// Whether `pos` is next to, or is, the recorded position of the king of
    /// `by_color`.
    fn is_attacked_by_king(&self, pos: &Position, by_color: &Color) -> (hit: bool)
        requires
            pos.on_board(),
        ensures
            hit == self@.king_attacked(*pos, *by_color),
    {
        proof {
            use_type_invariant(self);
        }
        let king_pos = match by_color {
            Color::White => self.white_king_pos,
            Color::Black => self.black_king_pos,
        };
        let dpos = (*pos - king_pos).abs();
        dpos.row <= 1 && dpos.col <= 1
    }

    /// Whether a rook or queen of `by_color` attacks `pos` along its row or
    /// column.
    fn is_attacked_adjacent(&self, pos: &Position, by_color: &Color) -> (hit: bool)
        requires
            pos.on_board(),
        ensures
            hit == self@.straight_attacked(*pos, *by_color),
    {
        let dirs: [[i8; 2]; 4] = [[1, 0], [0, 1], [-1, 0], [0, -1]];
        let types = [PieceType::Rook, PieceType::Queen];
        assert(types@ =~= straight_kinds());
        self.is_attacked_line(pos, &dirs, &types, by_color)
    }

    /// Whether a bishop or queen of `by_color` attacks `pos` along a
    /// diagonal.
    fn is_attacked_diagonal(&self, pos: &Position, by_color: &Color) -> (hit: bool)
        requires
            pos.on_board(),
        ensures
            hit == self@.diagonal_attacked(*pos, *by_color),
    {
        let dirs: [[i8; 2]; 4] = [[1, 1], [-1, -1], [1, -1], [-1, 1]];
        let types = [PieceType::Bishop, PieceType::Queen];
        assert(types@ =~= diagonal_kinds());
        self.is_attacked_line(pos, &dirs, &types, by_color)
    }

    /// The first occupied square on the ray that leaves `pos` in the
    /// direction `(dr, dc)`, if there is one.
    pub(crate) fn first_on_ray(&self, pos: &Position, dr: i8, dc: i8) -> (hit: Option<Position>)
        requires
            pos.on_board(),
            -1 <= dr <= 1,
            -1 <= dc <= 1,
            dr != 0 || dc != 0,
        ensures
            match hit {
                Some(p) => {
                    &&& p.on_board()
                    &&& on_ray(
                        pos.row as int,
                        pos.col as int,
                        dr as int,
                        dc as int,
                        p.row as int,
                        p.col as int,
                    )
                    &&& self@.clear_between(
                        pos.row as int,
                        pos.col as int,
                        p.row as int,
                        p.col as int,
                    )
                    &&& self@.piece_at(p) is Some
                },
                None => forall|r: int, c: int|
                    in_bounds(r, c) && on_ray(
                        pos.row as int,
                        pos.col as int,
                        dr as int,
                        dc as int,
                        r,
                        c,
                    ) ==> (#[trigger] self@.at(r, c)) is None,
            },
    {
        let mut r: i8 = pos.row + dr;
        let mut c: i8 = pos.col + dc;
        while 0 <= r && r < 8 && 0 <= c && c < 8
            invariant
                pos.on_board(),
                -1 <= dr <= 1,
                -1 <= dc <= 1,
                dr != 0 || dc != 0,
                -1 <= r <= 8,
                -1 <= c <= 8,
                on_ray(pos.row as int, pos.col as int, dr as int, dc as int, r as int, c as int),
                self@.clear_between(pos.row as int, pos.col as int, r as int, c as int),
            decreases ray_room(r as int, c as int, dr as int, dc as int),
        {
            if self.board[r as usize][c as usize].is_some() {
                return Some(Position { row: r, col: c });
            }
            assert(self@.at(r as int, c as int) is None);
            r += dr;
            c += dc;
        }
        None
    }

    /// Whether, on one of the four rays that leave `pos` in the directions
    /// `dirs`, the first piece is one of `by_color` and of one of `types`.
    fn is_attacked_line(
        &self,
        pos: &Position,
        dirs: &[[i8; 2]; 4],
        types: &[PieceType; 2],
        by_color: &Color,
    ) -> (hit: bool)
        requires
            pos.on_board(),
            forall|i: int|
                0 <= i < 4 ==> -1 <= (#[trigger] dirs[i])[0] <= 1 && -1 <= dirs[i][1] <= 1 && (
                dirs[i][0] != 0 || dirs[i][1] != 0),
        ensures
            hit == exists|i: int|
                0 <= i < 4 && #[trigger] self@.ray_attacked(
                    *pos,
                    dirs[i][0] as int,
                    dirs[i][1] as int,
                    types@,
                    *by_color,
                ),
    {
        let mut i: usize = 0;
        while i < 4
            invariant
                0 <= i <= 4,
                pos.on_board(),
                forall|i: int|
                    0 <= i < 4 ==> -1 <= (#[trigger] dirs[i])[0] <= 1 && -1 <= dirs[i][1] <= 1 && (
                    dirs[i][0] != 0 || dirs[i][1] != 0),
                forall|j: int|
                    0 <= j < i ==> !#[trigger] self@.ray_attacked(
                        *pos,
                        dirs[j][0] as int,
                        dirs[j][1] as int,
                        types@,
                        *by_color,
                    ),
            decreases 4 - i,
        {
            let dr = dirs[i][0];
            let dc = dirs[i][1];
            match self.first_on_ray(pos, dr, dc) {
                Some(p) => {
                    match self.board[p.row as usize][p.col as usize] {
                        Some(piece) => {
                            if piece.color == *by_color && is_one_of(types, piece.piece_type) {
                                assert(self@.ray_attacked(
                                    *pos,
                                    dirs[i as int][0] as int,
                                    dirs[i as int][1] as int,
                                    types@,
                                    *by_color,
                                )) by {
                                    assert(self@.at(p.row as int, p.col as int) == Some(piece));
                                }
                                return true;
                            }
                            assert(!self@.ray_attacked(
                                *pos,
                                dr as int,
                                dc as int,
                                types@,
                                *by_color,
                            ));
                        },
                        None => {},
                    }
                },
                None => {},
            }
            i += 1;
        }
        false
    }
}

} // verus!
