use vstd::prelude::*;
use crate::location::Location;
use crate::piece::Piece;

verus! {

/// A candidate move: the square left, the square entered, and the piece a
/// pawn turns into when the move brings it to the last rank.
#[derive(Copy, Clone, Debug)]
pub struct Move {
    pub from: Location,
    pub to: Location,
    pub promoted: Option<Piece>,
}

impl Move {
    /// Signed number of files travelled.
    pub open spec fn dx(self) -> int {
        self.to.x - self.from.x
    }

    /// Signed number of ranks travelled.
    pub open spec fn dy(self) -> int {
        self.to.y - self.from.y
    }

    pub fn new(from: Location, to: Location) -> (m: Move)
        ensures
            m == (Move { from, to, promoted: None }),
    {
        Move { from, to, promoted: None }
    }

    pub fn new_with_opt_piece(from: Location, to: Location, piece: Option<Piece>) -> (m: Move)
        ensures
            m == (Move { from, to, promoted: piece }),
    {
        Move { from, to, promoted: piece }
    }

    pub fn new_with_piece(from: Location, to: Location, piece: Piece) -> (m: Move)
        ensures
            m == (Move { from, to, promoted: Some(piece) }),
    {
        Move { from, to, promoted: Some(piece) }
    }
}

} // verus!
