//! Piece kinds, colours and pieces.

use vstd::prelude::*;

verus! {

/// The six kinds of chess piece.
#[derive(Debug, Copy, Clone, PartialEq, Eq, Hash, Structural)]
pub enum PieceType {
    Pawn,
    Rook,
    Knight,
    Bishop,
    Queen,
    King,
}

/// The two sides.
#[derive(Debug, Copy, Clone, PartialEq, Eq, Hash, Structural)]
pub enum Color {
    White,
    Black,
}

impl Color {
    /// The other side.
    pub open spec fn opposite(self) -> Color {
        match self {
            Color::White => Color::Black,
            Color::Black => Color::White,
        }
    }

    /// Returns the other side.
    #[inline]
    pub fn flip(self) -> (other: Color)
        ensures
            other == self.opposite(),
    {
        match self {
            Color::White => Color::Black,
            Color::Black => Color::White,
        }
    }
}

/// A piece: its kind and the side it belongs to.
#[derive(Debug, Copy, Clone, PartialEq, Eq, Hash, Structural)]
pub struct Piece {
    pub piece_type: PieceType,
    pub color: Color,
}

/// The letter that stands for a kind of piece on a printed board, as
/// written for White.
pub open spec fn kind_letter(kind: PieceType) -> char {
    match kind {
        PieceType::Pawn => 'P',
        PieceType::Rook => 'R',
        PieceType::Knight => 'N',
        PieceType::Bishop => 'B',
        PieceType::Queen => 'Q',
        PieceType::King => 'K',
    }
}

/// The small letter that stands for `upper`, one of the six letters of the
/// pieces.
pub open spec fn small(upper: char) -> char {
    if upper == 'P' {
        'p'
    } else if upper == 'R' {
        'r'
    } else if upper == 'N' {
        'n'
    } else if upper == 'B' {
        'b'
    } else if upper == 'Q' {
        'q'
    } else {
        'k'
    }
}

impl Piece {
    /// The letter that stands for the piece on a printed board: a capital
    /// for White, a small letter for Black.
    pub open spec fn letter(self) -> char {
        match self.color {
            Color::White => kind_letter(self.piece_type),
            Color::Black => small(kind_letter(self.piece_type)),
        }
    }

    /// The letter that stands for the piece on a printed board.
    pub fn symbol(&self) -> (c: char)
        ensures
            c == self.letter(),
    {
        match self.color {
            Color::White => match self.piece_type {
                PieceType::Pawn => 'P',
                PieceType::Rook => 'R',
                PieceType::Knight => 'N',
                PieceType::Bishop => 'B',
                PieceType::Queen => 'Q',
                PieceType::King => 'K',
            },
            Color::Black => match self.piece_type {
                PieceType::Pawn => 'p',
                PieceType::Rook => 'r',
                PieceType::Knight => 'n',
                PieceType::Bishop => 'b',
                PieceType::Queen => 'q',
                PieceType::King => 'k',
            },
        }
    }
}

} // verus!
