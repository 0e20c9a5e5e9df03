//! The moves that the pieces of the side to move could make by their
//! movement patterns alone.

use vstd::prelude::*;
use crate::board::is_attacked::ray_room;
use crate::board::model::{forward, BoardView};
use crate::board::position::{in_bounds, Move, Position};
use crate::board::Board;
use crate::piece::PieceType;

verus! {

/// The move from `from` to the square `dr` rows and `dc` columns away.
pub open spec fn step(from: Position, dr: int, dc: int, promotion: Option<PieceType>) -> Move {
    Move { from, to: from.shift(dr, dc), promotion }
}

/// The eight jumps of a knight on `from`, on the board or not.
pub open spec fn knight_moves(from: Position) -> Seq<Move> {
    seq![
        step(from, 1, 2, None),
        step(from, -1, -2, None),
        step(from, 2, 1, None),
        step(from, -2, -1, None),
        step(from, 1, -2, None),
        step(from, -1, 2, None),
        step(from, 2, -1, None),
        step(from, -2, 1, None),
    ]
}

/// The steps of a king on `from` to the eight squares around it, row by
/// row, then the two castling moves, on the board or not.
pub open spec fn king_moves(from: Position) -> Seq<Move> {
    seq![
        step(from, -1, -1, None),
        step(from, -1, 0, None),
        step(from, -1, 1, None),
        step(from, 0, -1, None),
        step(from, 0, 1, None),
        step(from, 1, -1, None),
        step(from, 1, 0, None),
        step(from, 1, 1, None),
        step(from, 0, 2, None),
        step(from, 0, -2, None),
    ]
}

/// How many of a king's steps come before the one by `row` rows and `col`
/// columns, when the squares around it are counted row by row from
/// `(-1, -1)` and its own square is left out.
pub open spec fn steps_before(row: int, col: int) -> int {
    3 * (row + 1) + (col + 1) - if row > 0 || (row == 0 && col > 0) {
        1int
    } else {
        0int
    }
}

impl BoardView {
    /// The four moves of a pawn of the side to move on `from`: one step,
    /// two steps, and the two captures, each promoting to a queen.
    pub open spec fn pawn_moves(self, from: Position) -> Seq<Move> {
        let d = forward(self.turn);
        let queen = Some(PieceType::Queen);
        seq![
            step(from, d, 0, queen),
            step(from, 2 * d, 0, queen),
            step(from, d, 1, queen),
            step(from, d, -1, queen),
        ]
    }

    /// The moves from `from` to the squares of a ray, from row `r`, column
    /// `c` on in steps of `(dr, dc)`: every square up to the first occupied
    /// one, which is the last, or up to the edge of the board.
    pub open spec fn ray_moves(self, from: Position, r: int, c: int, dr: int, dc: int) -> Seq<Move>
        decreases ray_room(r, c, dr, dc),
    {
        if !in_bounds(r, c) || (dr == 0 && dc == 0) {
            Seq::empty()
        } else {
            let here = seq![Move { from, to: Position { row: r as i8, col: c as i8 }, promotion: None }];
            if self.at(r, c) is Some {
                here
            } else {
                here + self.ray_moves(from, r + dr, c + dc, dr, dc)
            }
        }
    }

    /// The moves from `from` along the rays in the directions `dirs`, one
    /// direction after the other.
    pub open spec fn line_moves(self, from: Position, dirs: Seq<[i8; 2]>) -> Seq<Move>
        decreases dirs.len(),
    {
        if dirs.len() == 0 {
            Seq::empty()
        } else {
            let d = dirs.last();
            self.line_moves(from, dirs.drop_last()) + self.ray_moves(
                from,
                from.row + d[0],
                from.col + d[1],
                d[0] as int,
                d[1] as int,
            )
        }
    }

    /// The moves from `from` along its column and row.
    pub open spec fn straight_moves(self, from: Position) -> Seq<Move> {
        self.ray_moves(from, from.row + 1, from.col as int, 1, 0) + self.ray_moves(
            from,
            from.row as int,
            from.col + 1,
            0,
            1,
        ) + self.ray_moves(from, from.row - 1, from.col as int, -1, 0) + self.ray_moves(
            from,
            from.row as int,
            from.col - 1,
            0,
            -1,
        )
    }

    /// The moves from `from` along its diagonals.
    pub open spec fn diagonal_moves(self, from: Position) -> Seq<Move> {
        self.ray_moves(from, from.row + 1, from.col + 1, 1, 1) + self.ray_moves(
            from,
            from.row - 1,
            from.col - 1,
            -1,
            -1,
        ) + self.ray_moves(from, from.row + 1, from.col - 1, 1, -1) + self.ray_moves(
            from,
            from.row - 1,
            from.col + 1,
            -1,
            1,
        )
    }

    /// The moves of the piece on `pos` by its kind, if it belongs to the
    /// side to move.
    pub open spec fn piece_moves(self, pos: Position) -> Seq<Move> {
        match self.piece_at(pos) {
            Some(piece) => if piece.color == self.turn {
                match piece.piece_type {
                    PieceType::Pawn => self.pawn_moves(pos),
                    PieceType::Rook => self.straight_moves(pos),
                    PieceType::Knight => knight_moves(pos),
                    PieceType::Bishop => self.diagonal_moves(pos),
                    PieceType::Queen => self.diagonal_moves(pos) + self.straight_moves(pos),
                    PieceType::King => king_moves(pos),
                }
            } else {
                Seq::empty()
            },
            None => Seq::empty(),
        }
    }

    /// The moves of the pieces on the first `n` squares, counted row by row
    /// from row 0, column 0.
    pub open spec fn moves_before(self, n: nat) -> Seq<Move>
        decreases n,
    {
        if n == 0 {
            Seq::empty()
        } else {
            let last = (n - 1) as int;
            self.moves_before((n - 1) as nat) + self.piece_moves(
                Position { row: (last / 8) as i8, col: (last % 8) as i8 },
            )
        }
    }

    /// Every move that a piece of the side to move could make by its
    /// movement pattern, whether or not the move is legal.
    pub open spec fn pseudo_moves(self) -> Seq<Move> {
        self.moves_before(64)
    }
}

impl Board {
    /// The legal moves of the side to move.
    pub fn generate_legal_moves(&self) -> (moves: Vec<Move>)
        ensures
            moves@ == self@.legal_moves(),
    {
        self.retain_legal(self.generate_moves())
    }

    /// The legal moves of the side to move that end on an occupied square.
    pub fn generate_legal_capturing_moves(&self) -> (moves: Vec<Move>)
        ensures
            moves@ == self@.legal_capturing_moves(),
    {
        self.retain_legal_capturing(self.generate_moves())
    }

    /// Every move that a piece of the side to move could make by its
    /// movement pattern, square by square.
    pub fn generate_moves(&self) -> (moves: Vec<Move>)
        ensures
            moves@ == self@.pseudo_moves(),
    {
        let mut moves = Vec::new();
        let mut row: i8 = 0;
        while row < 8
            invariant
                0 <= row <= 8,
                moves@ == self@.moves_before((row * 8) as nat),
            decreases 8 - row,
        {
            let mut col: i8 = 0;
            while col < 8
                invariant
                    0 <= row < 8,
                    0 <= col <= 8,
                    moves@ == self@.moves_before((row * 8 + col) as nat),
                decreases 8 - col,
            {
                let mut found = self.generate_moves_piece(&Position { row, col });
                moves.append(&mut found);
                col += 1;
            }
            row += 1;
        }
        moves
    }

    /// The moves of the piece on `pos`, if it belongs to the side to move.
    pub fn generate_moves_piece(&self, pos: &Position) -> (moves: Vec<Move>)
        requires
            pos.on_board(),
        ensures
            moves@ == self@.piece_moves(*pos),
    {
        match self.board[pos.row as usize][pos.col as usize] {
            Some(piece) => {
                if piece.color == self.turn {
                    match piece.piece_type {
                        PieceType::Pawn => self.generate_moves_pawn(pos),
                        PieceType::Rook => self.generate_moves_adjacent(pos),
                        PieceType::Knight => self.generate_moves_knight(pos),
                        PieceType::Bishop => self.generate_moves_diagonal(pos),
                        PieceType::Queen => {
                            let mut moves = self.generate_moves_diagonal(pos);
                            let mut straight = self.generate_moves_adjacent(pos);
                            moves.append(&mut straight);
                            moves
                        },
                        PieceType::King => self.generate_moves_king(pos),
                    }
                } else {
                    Vec::new()
                }
            },
            None => Vec::new(),
        }
    }

    /// The eight jumps of a knight on `from`.
    pub fn generate_moves_knight(&self, from: &Position) -> (moves: Vec<Move>)
        requires
            from.on_board(),
        ensures
            moves@ == knight_moves(*from),
    {
        let mut moves: Vec<Move> = Vec::new();
        let dirs: [[i8; 2]; 4] = [[1, 2], [2, 1], [1, -2], [2, -1]];
        let mut i: usize = 0;
        while i < 4
            invariant
                0 <= i <= 4,
                from.on_board(),
                dirs@ == seq![[1i8, 2i8], [2i8, 1i8], [1i8, -2i8], [2i8, -1i8]],
                moves@ == knight_moves(*from).take(2 * i),
            decreases 4 - i,
        {
            let dpos = Position { row: dirs[i][0], col: dirs[i][1] };
            moves.push(Move { from: *from, to: *from + dpos, promotion: None });
            moves.push(Move { from: *from, to: *from - dpos, promotion: None });
            i += 1;
        }
        moves
    }

    /// The four moves of a pawn of the side to move on `from`.
    pub fn generate_moves_pawn(&self, from: &Position) -> (moves: Vec<Move>)
        requires
            from.on_board(),
        ensures
            moves@ == self@.pawn_moves(*from),
    {
        let mut moves: Vec<Move> = Vec::new();
        let dir = Board::dir(&self.turn);
        let positions = [
            Position { row: from.row + dir, col: from.col },
            Position { row: from.row + 2 * dir, col: from.col },
            Position { row: from.row + dir, col: from.col + 1 },
            Position { row: from.row + dir, col: from.col - 1 },
        ];
        let mut i: usize = 0;
        while i < 4
            invariant
                0 <= i <= 4,
                positions@ == self@.pawn_moves(*from).map_values(|m: Move| m.to),
                forall|j: int|
                    0 <= j < 4 ==> (#[trigger] self@.pawn_moves(*from)[j]) == (Move {
                        from: *from,
                        to: positions@[j],
                        promotion: Some(PieceType::Queen),
                    }),
                moves@ == self@.pawn_moves(*from).take(i as int),
            decreases 4 - i,
        {
            moves.push(Move { from: *from, to: positions[i], promotion: Some(PieceType::Queen) });
            i += 1;
        }
        moves
    }

    /// The steps of a king on `from` to the eight squares around it, then
    /// the two castling moves.
    pub fn generate_moves_king(&self, from: &Position) -> (moves: Vec<Move>)
        requires
            from.on_board(),
        ensures
            moves@ == king_moves(*from),
    {
        let mut moves: Vec<Move> = Vec::new();
        let mut row: i8 = -1;
        while row <= 1
            invariant
                -1 <= row <= 2,
                from.on_board(),
                moves@ == king_moves(*from).take(steps_before(row as int, -1)),
            decreases 2 - row,
        {
            let mut col: i8 = -1;
            while col <= 1
                invariant
                    -1 <= row <= 1,
                    -1 <= col <= 2,
                    from.on_board(),
                    moves@ == king_moves(*from).take(steps_before(row as int, col as int)),
                decreases 2 - col,
            {
                if row != 0 || col != 0 {
                    moves.push(
                        Move { from: *from, to: *from + Position { row, col }, promotion: None },
                    );
                }
                col += 1;
            }
            row += 1;
        }
        moves.push(Move { from: *from, to: *from + Position { row: 0, col: 2 }, promotion: None });
        moves.push(Move { from: *from, to: *from + Position { row: 0, col: -2 }, promotion: None });
        moves
    }

    /// The moves from `pos` along its column and row.
    pub fn generate_moves_adjacent(&self, pos: &Position) -> (moves: Vec<Move>)
        ensures
            moves@ == self@.straight_moves(*pos),
    {
        let dirs: Vec<[i8; 2]> = vec![[1, 0], [0, 1], [-1, 0], [0, -1]];
        proof {
            reveal_with_fuel(BoardView::line_moves, 5);
            assert(dirs@.drop_last().drop_last().drop_last().drop_last().len() == 0);
        }
        self.generate_moves_line(pos, &dirs)
    }

    /// The moves from `pos` along its diagonals.
    pub fn generate_moves_diagonal(&self, pos: &Position) -> (moves: Vec<Move>)
        ensures
            moves@ == self@.diagonal_moves(*pos),
    {
        let dirs: Vec<[i8; 2]> = vec![[1, 1], [-1, -1], [1, -1], [-1, 1]];
        proof {
            reveal_with_fuel(BoardView::line_moves, 5);
            assert(dirs@.drop_last().drop_last().drop_last().drop_last().len() == 0);
        }
        self.generate_moves_line(pos, &dirs)
    }

    /// Appends to `moves` the moves from `from` along the ray in the
    /// direction `(dr, dc)`.
    fn generate_moves_ray(&self, moves: &mut Vec<Move>, from: &Position, dr: i8, dc: i8)
        ensures
            final(moves)@ == old(moves)@ + self@.ray_moves(
                *from,
                from.row + dr,
                from.col + dc,
                dr as int,
                dc as int,
            ),
    {
        if dr == 0 && dc == 0 {
            assert(moves@ + Seq::<Move>::empty() =~= moves@);
            return ;
        }
        let step_r: i16 = dr as i16;
        let step_c: i16 = dc as i16;
        let mut r: i16 = from.row as i16 + step_r;
        let mut c: i16 = from.col as i16 + step_c;
        while 0 <= r && r < 8 && 0 <= c && c < 8
            invariant
                step_r == dr,
                step_c == dc,
                dr != 0 || dc != 0,
                -256 <= r <= 256,
                -256 <= c <= 256,
                moves@ + self@.ray_moves(*from, r as int, c as int, dr as int, dc as int) == old(
                    moves,
                )@ + self@.ray_moves(*from, from.row + dr, from.col + dc, dr as int, dc as int),
            decreases ray_room(r as int, c as int, dr as int, dc as int),
        {
            let ghost before = moves@;
            let to = Position { row: r as i8, col: c as i8 };
            moves.push(Move { from: *from, to, promotion: None });
            if self.board[r as usize][c as usize].is_some() {
                assert(before + self@.ray_moves(*from, r as int, c as int, dr as int, dc as int)
                    =~= moves@);
                return ;
            }
            proof {
                let rest = self@.ray_moves(*from, r + dr, c + dc, dr as int, dc as int);
                assert(self@.at(r as int, c as int) is None);
                assert(before + self@.ray_moves(*from, r as int, c as int, dr as int, dc as int)
                    =~= moves@ + rest);
            }
            r += step_r;
            c += step_c;
        }
        assert(moves@ + Seq::<Move>::empty() =~= moves@);
    }

    /// The moves from `from` along the rays in the directions `dirs`: on
    /// each ray every square up to the first occupied one or the edge.
    pub fn generate_moves_line(&self, from: &Position, dirs: &Vec<[i8; 2]>) -> (moves: Vec<Move>)
        ensures
            moves@ == self@.line_moves(*from, dirs@),
    {
        let mut moves = Vec::new();
        let mut i: usize = 0;
        while i < dirs.len()
            invariant
                0 <= i <= dirs.len(),
                moves@ == self@.line_moves(*from, dirs@.take(i as int)),
            decreases dirs.len() - i,
        {
            assert(dirs@.take(i + 1).drop_last() =~= dirs@.take(i as int));
            self.generate_moves_ray(&mut moves, from, dirs[i][0], dirs[i][1]);
            i += 1;
        }
        assert(dirs@.take(i as int) =~= dirs@);
        moves
    }
}

} // verus!
