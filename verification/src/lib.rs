//! Chess rules: board state, pseudo-legal move generation, attack detection,
//! legality filtering and move application.

use vstd::prelude::*;
use vstd::string::StrSliceExecFns;
use crate::board::{Move, Position};

pub mod board;
pub mod piece;

verus! {

/// The coordinate that a character of a move's notation stands for: the
/// column for a file `a` to `h`; for any other character, read as a rank,
/// the row, with rank `8` on row 0.
pub open spec fn coordinate(c: char) -> int {
    if 'a' <= c && c <= 'h' {
        c as u32 - 'a' as u32
    } else {
        7 - (c as u32 - '1' as u32)
    }
}

/// The move that four characters stand for: the file and rank of the
/// origin, then the file and rank of the destination. It names no
/// promotion.
pub open spec fn move_of(text: Seq<char>) -> Move {
    Move {
        from: Position { row: coordinate(text[1]) as i8, col: coordinate(text[0]) as i8 },
        to: Position { row: coordinate(text[3]) as i8, col: coordinate(text[2]) as i8 },
        promotion: None,
    }
}

/// The coordinate that a character of a move's notation, one of the first
/// 128 characters, stands for.
#[inline]
pub fn to_cordinate(c: char) -> (x: i8)
    requires
        c as u32 <= 127,
    ensures
        x == coordinate(c),
{
    if c >= 'a' && c <= 'h' {
        return (c as u32 - 'a' as u32) as i8;
    }
    (7 - (c as u32 as i32 - '1' as u32 as i32)) as i8
}

/// The move that a string such as `e2e4` stands for: its first four
/// characters are read, each one of the first 128 characters.
#[inline]
pub fn convert(mv: &str) -> (m: Move)
    requires
        mv@.len() >= 4,
        forall|i: int| 0 <= i < 4 ==> mv@[i] as u32 <= 127,
    ensures
        m == move_of(mv@),
{
    Move {
        from: Position { row: to_cordinate(mv.get_char(1)), col: to_cordinate(mv.get_char(0)) },
        to: Position { row: to_cordinate(mv.get_char(3)), col: to_cordinate(mv.get_char(2)) },
        promotion: None,
    }
}

} // verus!
