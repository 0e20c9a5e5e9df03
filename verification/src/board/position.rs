//! Board coordinates and moves.

use vstd::prelude::*;
use vstd::std_specs::ops::{AddSpecImpl, DivSpecImpl, SubSpecImpl};
use crate::piece::PieceType;

verus! {

/// Whether row `r`, column `c` names one of the 64 squares.
pub open spec fn in_bounds(r: int, c: int) -> bool {
    0 <= r < 8 && 0 <= c < 8
}

/// Whether `x` fits a coordinate.
pub open spec fn fits(x: int) -> bool {
    i8::MIN <= x <= i8::MAX
}

/// The absolute value of `x`.
pub open spec fn abs(x: int) -> int {
    if x < 0 {
        -x
    } else {
        x
    }
}

/// The quotient of `x` by `y`, rounded towards zero.
pub open spec fn quotient(x: int, y: int) -> int {
    if x >= 0 {
        x / y
    } else {
        -((-x) / y)
    }
}

/// A square, or the difference of two squares: a row and a column.
/// On the board both lie in `0..8`; row 0 is Black's back rank, row 7 White's.
#[derive(Debug, Copy, Clone, PartialEq, Eq, Hash, Structural)]
pub struct Position {
    pub row: i8,
    pub col: i8,
}

impl Position {
    /// Whether the position names one of the 64 squares.
    pub open spec fn on_board(self) -> bool {
        in_bounds(self.row as int, self.col as int)
    }

    /// The position `dr` rows and `dc` columns away.
    pub open spec fn shift(self, dr: int, dc: int) -> Position {
        Position { row: (self.row + dr) as i8, col: (self.col + dc) as i8 }
    }

    /// The absolute value of each coordinate.
    pub open spec fn spec_abs(self) -> Position {
        Position { row: abs(self.row as int) as i8, col: abs(self.col as int) as i8 }
    }

    /// The absolute value of each coordinate.
    #[inline]
    pub fn abs(&self) -> (r: Position)
        requires
            self.row > i8::MIN,
            self.col > i8::MIN,
        ensures
            r == self.spec_abs(),
    {
        Position {
            row: if self.row < 0 { -self.row } else { self.row },
            col: if self.col < 0 { -self.col } else { self.col },
        }
    }

    /// True when either coordinate lies outside `0..8`.
    #[inline]
    pub fn out_of_bounds(&self) -> (r: bool)
        ensures
            r == !self.on_board(),
    {
        self.col < 0 || self.col >= 8 || self.row < 0 || self.row >= 8
    }
}

impl core::ops::Add for Position {
    type Output = Position;

    /// The sum, coordinate by coordinate.
    #[inline]
    fn add(self, rhs: Position) -> (r: Position) {
        Position { col: self.col + rhs.col, row: self.row + rhs.row }
    }
}

impl AddSpecImpl for Position {
    open spec fn obeys_add_spec() -> bool {
        true
    }

    open spec fn add_req(self, rhs: Position) -> bool {
        fits(self.row + rhs.row) && fits(self.col + rhs.col)
    }

    open spec fn add_spec(self, rhs: Position) -> Position {
        self.shift(rhs.row as int, rhs.col as int)
    }
}

impl core::ops::Sub for Position {
    type Output = Position;

    /// The difference, coordinate by coordinate.
    #[inline]
    fn sub(self, rhs: Position) -> (r: Position) {
        Position { row: self.row - rhs.row, col: self.col - rhs.col }
    }
}

impl SubSpecImpl for Position {
    open spec fn obeys_sub_spec() -> bool {
        true
    }

    open spec fn sub_req(self, rhs: Position) -> bool {
        fits(self.row - rhs.row) && fits(self.col - rhs.col)
    }

    open spec fn sub_spec(self, rhs: Position) -> Position {
        self.shift(-(rhs.row as int), -(rhs.col as int))
    }
}

impl core::ops::AddAssign for Position {
    /// Adds `rhs`, coordinate by coordinate.
    #[inline]
    fn add_assign(&mut self, rhs: Position)
        requires
            fits(old(self).row + rhs.row),
            fits(old(self).col + rhs.col),
        ensures
            *final(self) == old(self).shift(rhs.row as int, rhs.col as int),
    {
        self.col = self.col + rhs.col;
        self.row = self.row + rhs.row;
    }
}

impl core::ops::Div<i8> for Position {
    type Output = Position;

    /// Each coordinate divided by `rhs`, rounded towards zero.
    #[inline]
    fn div(self, rhs: i8) -> (r: Position) {
        Position { col: self.col / rhs, row: self.row / rhs }
    }
}

impl DivSpecImpl<i8> for Position {
    open spec fn obeys_div_spec() -> bool {
        true
    }

    open spec fn div_req(self, rhs: i8) -> bool {
        rhs != 0 && fits(quotient(self.row as int, rhs as int)) && fits(
            quotient(self.col as int, rhs as int),
        )
    }

    open spec fn div_spec(self, rhs: i8) -> Position {
        Position {
            row: quotient(self.row as int, rhs as int) as i8,
            col: quotient(self.col as int, rhs as int) as i8,
        }
    }
}

/// A move from one square to another. `promotion` names the kind a pawn turns
/// into when the move brings it to the farthest rank; otherwise it is ignored.
#[derive(Debug, Copy, Clone, PartialEq, Eq, Hash, Structural)]
pub struct Move {
    pub from: Position,
    pub to: Position,
    pub promotion: Option<PieceType>,
}

} // verus!
