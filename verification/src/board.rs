use vstd::prelude::*;
use crate::chess_move::Move;
use crate::location::{magnitude, Location};
use crate::piece::{
    castle_rook_from, castle_rook_to, castle_shape, pawn_attack, pawn_leap, pawn_reach,
    reaches_last_rank, Color, FailKind, FailReason, King, Movable, Pawn, Piece,
};

verus! {

/// One move on record: the move, the piece that stood on the square left
/// just before it, and the square on which it captured, if it captured. That
/// square is the one entered, or for a capture in passing the one beside it.
#[derive(Copy, Clone, Debug)]
pub struct Entry {
    pub mv: Move,
    pub piece: Piece,
    pub captured: Option<Location>,
}

/// What a board holds, as mathematics: which piece stands on which square,
/// and the moves made so far, the latest first.
pub struct Position {
    pub pieces: Map<Location, Piece>,
    pub history: Seq<Entry>,
}

impl Position {
    /// Pieces stand on squares of the board only, and every move on record
    /// left, entered and captured on squares of the board.
    pub open spec fn well_formed(self) -> bool {
        &&& forall|l: Location| #[trigger] self.pieces.contains_key(l) ==> l.in_bounds()
        &&& forall|i: int|
            0 <= i < self.history.len() ==> {
                &&& (#[trigger] self.history[i]).mv.from.in_bounds()
                &&& self.history[i].mv.to.in_bounds()
                &&& (self.history[i].captured matches Some(square) ==> square.in_bounds())
            }
    }

    /// Whether some move on record left or entered `square`.
    pub open spec fn touched(self, square: Location) -> bool {
        exists|i: int|
            0 <= i < self.history.len() && ((#[trigger] self.history[i]).mv.from == square
                || self.history[i].mv.to == square)
    }

    /// Whether a pawn of side `c` making the diagonal move `m` onto an empty
    /// square captures in passing: the latest move on record advanced two
    /// ranks along a file and ended beside the capturing pawn, on the file
    /// that the pawn enters, and a pawn of the other side stands there.
    pub open spec fn en_passant_open(self, m: Move, c: Color) -> bool {
        let target = Location { x: m.to.x, y: m.from.y };
        &&& self.history.len() > 0
        &&& self.history[0].mv.dx() == 0
        &&& magnitude(self.history[0].mv.dy()) == 2
        &&& self.history[0].mv.to == target
        &&& self.pieces.contains_key(target)
        &&& self.pieces[target] is Pawn
        &&& self.pieces[target].side() != c
    }

    /// What stops a pawn of side `c` from making `m`, before geometry and
    /// blocking are looked at.
    pub open spec fn pawn_fault(self, m: Move, c: Color) -> Option<FailKind> {
        if reaches_last_rank(m) && m.promoted is None {
            Some(FailKind::NeedPromotion)
        } else if pawn_attack(m, c) {
            if self.pieces.contains_key(m.to) {
                if self.pieces[m.to].side() != c {
                    None
                } else {
                    Some(FailKind::ImpossibleMove)
                }
            } else if self.en_passant_open(m, c) {
                None
            } else {
                Some(FailKind::ImpossibleMove)
            }
        } else {
            None
        }
    }

    /// What stops a king from making `m`, before geometry and blocking are
    /// looked at: it may castle only while no move on record has left or
    /// entered its own square or the corner of the rook that joins it.
    pub open spec fn king_fault(self, m: Move) -> Option<FailKind> {
        if castle_shape(m) && (self.touched(m.from) || self.touched(castle_rook_from(m))) {
            Some(FailKind::ImpossibleMove)
        } else {
            None
        }
    }

    /// What stops `piece` from making `m`, before geometry and blocking are
    /// looked at.
    pub open spec fn piece_fault(self, m: Move, piece: Piece) -> Option<FailKind> {
        match piece {
            Piece::Pawn(c) => self.pawn_fault(m, c),
            Piece::King(_) => self.king_fault(m),
            _ => None,
        }
    }

    /// Whether `square`, a square on the path of `m`, stops `piece`: any piece
    /// stops it on the way, one of its own side stops it on arrival, and the
    /// square it leaves never does.
    pub open spec fn blocks(self, m: Move, piece: Piece, square: Location) -> bool {
        &&& self.pieces.contains_key(square)
        &&& square != m.from
        &&& (square == m.to ==> self.pieces[square].side() == piece.side())
    }

    /// Whether some square on the path of `m` stops `piece`.
    pub open spec fn obstructed(self, m: Move, piece: Piece) -> bool {
        exists|i: int|
            0 <= i < piece.path(m).len() && self.blocks(m, piece, #[trigger] piece.path(m)[i])
    }

    /// The first reason, in the order in which a move is examined, for which
    /// `m` cannot be made, leaving aside whether it exposes the mover's king;
    /// `None` when there is none.
    pub open spec fn verdict(self, m: Move) -> Option<FailKind> {
        if !m.from.in_bounds() || !m.to.in_bounds() {
            Some(FailKind::OutOfBounds)
        } else if !self.pieces.contains_key(m.from) {
            Some(FailKind::NoPieceHere)
        } else if self.piece_fault(m, self.pieces[m.from]) is Some {
            self.piece_fault(m, self.pieces[m.from])
        } else if !self.pieces[m.from].reaches(m) {
            Some(FailKind::ImpossibleMove)
        } else if self.obstructed(m, self.pieces[m.from]) {
            Some(FailKind::Blocked)
        } else {
            None
        }
    }

    /// Whether `m` is a king castling.
    pub open spec fn castles(self, m: Move) -> bool {
        self.pieces.contains_key(m.from) && self.pieces[m.from] is King && castle_shape(m)
    }

    /// Whether `m` is a pawn capturing in passing.
    pub open spec fn captures_en_passant(self, m: Move) -> bool {
        &&& self.pieces.contains_key(m.from)
        &&& self.pieces[m.from] is Pawn
        &&& pawn_attack(m, self.pieces[m.from].side())
        &&& !self.pieces.contains_key(m.to)
        &&& self.en_passant_open(m, self.pieces[m.from].side())
    }

    /// The square on which `m` captures: the square entered when a piece
    /// stands on it, the square beside it for a capture in passing, and none
    /// otherwise.
    pub open spec fn capture_square(self, m: Move) -> Option<Location> {
        if self.pieces.contains_key(m.to) {
            Some(m.to)
        } else if self.captures_en_passant(m) {
            Some(Location { x: m.to.x, y: m.from.y })
        } else {
            None
        }
    }

    /// The pieces after `m` is carried out: the rook's part of a castle or
    /// the removal of a pawn captured in passing, then the move itself.
    /// Meant for moves whose `verdict` is `None`.
    pub open spec fn carried_out(self, m: Move) -> Map<Location, Piece> {
        let prepared = if self.castles(m) {
            relocated(
                self.pieces,
                Move { from: castle_rook_from(m), to: castle_rook_to(m), promoted: None },
            )
        } else if self.captures_en_passant(m) {
            self.pieces.remove(Location { x: m.to.x, y: m.from.y })
        } else {
            self.pieces
        };
        relocated(prepared, m)
    }

    /// What goes on record for `m`.
    pub open spec fn entry_for(self, m: Move) -> Entry {
        Entry { mv: m, piece: self.pieces[m.from], captured: self.capture_square(m) }
    }

    /// The position after `m`: the pieces as `carried_out` leaves them, and
    /// the move put on record in front of the others. Meant for moves whose
    /// `verdict` is `None`.
    pub open spec fn moved(self, m: Move) -> Position {
        Position {
            pieces: self.carried_out(m),
            history: seq![self.entry_for(m)] + self.history,
        }
    }

    /// Whether `king` is the square of the king of side `c` that a scan of the
    /// board file by file, and rank by rank within a file, meets first.
    pub open spec fn first_king(self, king: Location, c: Color) -> bool {
        &&& king.in_bounds()
        &&& self.pieces.get(king) == Some(Piece::King(c))
        &&& forall|other: Location|
            other.in_bounds() && #[trigger] self.pieces.get(other) == Some(Piece::King(c)) ==> 8
                * king.x + king.y <= 8 * other.x + other.y
    }

    /// Whether the piece on `from` belongs to the other side than `c` and
    /// could be moved onto `target` as far as `verdict` goes.
    pub open spec fn attacks(self, from: Location, target: Location, c: Color) -> bool {
        &&& from.in_bounds()
        &&& self.pieces.contains_key(from)
        &&& self.pieces[from].side() != c
        &&& self.verdict(Move { from, to: target, promoted: None }) is None
    }

    /// Whether side `c` is in check: it has a king, and some piece of the
    /// other side attacks the first one found. A side without a king is
    /// never in check.
    pub open spec fn in_check(self, c: Color) -> bool {
        exists|king: Location, from: Location|
            self.first_king(king, c) && #[trigger] self.attacks(from, king, c)
    }

    /// Why `make_move` turns `m` down, or `None` when it makes the move.
    pub open spec fn rejection(self, m: Move) -> Option<FailKind> {
        if self.verdict(m) is Some {
            self.verdict(m)
        } else if self.moved(m).in_check(self.pieces[m.from].side()) {
            Some(FailKind::Checked)
        } else {
            None
        }
    }

    /// The position after the latest move on record is taken back.
    ///
    /// The piece on record returns to the square it left, and the square it
    /// entered is cleared. Where a king castled, what stands on the rook's
    /// square of arrival returns to the rook's corner. Where the move
    /// captured, the square on which it captured receives what `recalled`
    /// finds for it in the rest of the record.
    ///
    /// The record does not hold the piece captured, so that last step is a
    /// guess: it gives back the piece that made the latest earlier move onto
    /// that square as it was before that move, and nothing when no earlier
    /// move ended there. A captured piece that never moved is not given
    /// back, and one that was promoted on arrival comes back unpromoted.
    ///
    /// Meant for a record that is not empty.
    pub open spec fn undone(self) -> Position {
        let latest = self.history[0];
        let rest = self.history.skip(1);
        let mover_back = self.pieces.insert(latest.mv.from, latest.piece).remove(latest.mv.to);
        let rook_back = if latest.piece is King && castle_shape(latest.mv) {
            relocated(
                mover_back,
                Move {
                    from: castle_rook_to(latest.mv),
                    to: castle_rook_from(latest.mv),
                    promoted: None,
                },
            )
        } else {
            mover_back
        };
        Position {
            pieces: match latest.captured {
                Some(square) => match recalled(rest, square, 0) {
                    Some(taken) => rook_back.insert(square, taken),
                    None => rook_back,
                },
                None => rook_back,
            },
            history: rest,
        }
    }
}

/// The pieces after the plain relocation of `m`: the square entered receives
/// the replacement that `m` names, or else whatever stood on the square left,
/// and the square left is cleared.
pub open spec fn relocated(pieces: Map<Location, Piece>, m: Move) -> Map<Location, Piece> {
    let arriving = if m.promoted is Some {
        m.promoted
    } else {
        pieces.get(m.from)
    };
    match arriving {
        Some(piece) => pieces.insert(m.to, piece).remove(m.from),
        None => pieces.remove(m.to).remove(m.from),
    }
}

/// The piece on record with the latest move, among those from index `start`
/// on, that entered `square`; `None` when no such move ended there.
pub open spec fn recalled(history: Seq<Entry>, square: Location, start: int) -> Option<Piece>
    decreases history.len() - start,
{
    if start < 0 || start >= history.len() {
        None
    } else if history[start].mv.to == square {
        Some(history[start].piece)
    } else {
        recalled(history, square, start + 1)
    }
}

/// The squares that a move passes over lie on the board when both of its
/// ends do.
pub proof fn lemma_path_in_bounds(piece: Piece, m: Move)
    requires
        m.from.in_bounds(),
        m.to.in_bounds(),
        piece.reaches(m),
    ensures
        forall|i: int| 0 <= i < piece.path(m).len() ==> (#[trigger] piece.path(m)[i]).in_bounds(),
{
}

/// The board: an 8×8 grid of squares and the record of the moves made on it.
pub struct Board {
    squares: [[Option<Piece>; 8]; 8],
    past_moves: Vec<Entry>,
}

impl View for Board {
    type V = Position;

    closed spec fn view(&self) -> Position {
        Position {
            pieces: Map::new(
                |l: Location| l.in_bounds() && self.squares[l.x as int][l.y as int] is Some,
                |l: Location| self.squares[l.x as int][l.y as int]->0,
            ),
            history: Seq::new(
                self.past_moves@.len(),
                |i: int| self.past_moves@[self.past_moves@.len() - 1 - i],
            ),
        }
    }
}

impl Board {
    /// The invariant of a board: see `Position::well_formed`.
    pub open spec fn wf(&self) -> bool {
        self@.well_formed()
    }

    /// An empty board with no move on record.
    pub fn new() -> (board: Board)
        ensures
            board.wf(),
            board@.pieces == Map::<Location, Piece>::empty(),
            board@.history == Seq::<Entry>::empty(),
    {
        let board = Board { squares: [[None; 8]; 8], past_moves: Vec::new() };
        assert(board@.pieces =~= Map::<Location, Piece>::empty());
        assert(board@.history =~= Seq::<Entry>::empty());
        board
    }

    /// Puts `piece` on `location` if that square is empty, and refuses
    /// otherwise, leaving the board as it was.
    pub fn place(&mut self, piece: Piece, location: Location) -> (res: Result<(), ()>)
        requires
            old(self).wf(),
            location.in_bounds(),
        ensures
            final(self).wf(),
            final(self)@.history == old(self)@.history,
            res is Ok <==> !old(self)@.pieces.contains_key(location),
            res is Ok ==> final(self)@.pieces == old(self)@.pieces.insert(location, piece),
            res is Err ==> final(self)@.pieces == old(self)@.pieces,
    {
        if self.squares[location.x as usize][location.y as usize].is_some() {
            Err(())
        } else {
            self.put(location, Some(piece));
            Ok(())
        }
    }

    /// The piece on `square`, if any.
    pub fn get_piece_from(&self, square: &Location) -> (piece: Option<Piece>)
        requires
            square.in_bounds(),
        ensures
            piece == self@.pieces.get(*square),
    {
        self.squares[square.x as usize][square.y as usize]
    }

    /// Whether both ends of `m` lie on the board.
    fn do_bounds_check(m: Move) -> (res: Result<(), FailReason>)
        ensures
            res is Ok <==> m.from.in_bounds() && m.to.in_bounds(),
            res matches Err(e) ==> e is OutOfBounds,
    {
        if !m.from.is_in_bounds() || !m.to.is_in_bounds() {
            Err(FailReason::OutOfBounds(String::from_str("coordinates run from 0 to 7")))
        } else {
            Ok(())
        }
    }

    fn is_promotion(m: Move) -> (b: bool)
        ensures
            b == reaches_last_rank(m),
    {
        m.to.y == 0 || m.to.y == 7
    }

    fn square_is_in_middle_of_path(taken_square: Location, m: Move) -> (b: bool)
        ensures
            b == (taken_square != m.to && taken_square != m.from),
    {
        taken_square != m.to && taken_square != m.from
    }

    /// Whether the piece on `taken_square` belongs to the other side than
    /// `piece`; `NoPieceHere` when the square is empty.
    fn is_opposite_color(&self, piece: Piece, taken_square: &Location) -> (res: Result<
        bool,
        FailReason,
    >)
        requires
            taken_square.in_bounds(),
        ensures
            match res {
                Ok(opposite) => self@.pieces.contains_key(*taken_square) && (opposite
                    <==> self@.pieces[*taken_square].side() != piece.side()),
                Err(e) => !self@.pieces.contains_key(*taken_square) && e is NoPieceHere,
            },
    {
        match self.get_piece_from(taken_square) {
            Some(other) => Ok(*other.color() != *piece.color()),
            None => Err(FailReason::NoPieceHere(String::from_str("nothing stands on that square"))),
        }
    }

    /// Whether a move on record left or entered `square`.
    fn has_touched(&self, square: Location) -> (b: bool)
        ensures
            b == self@.touched(square),
    {
        let mut i: usize = 0;
        while i < self.past_moves.len()
            invariant
                0 <= i <= self.past_moves@.len(),
                forall|j: int|
                    0 <= j < i ==> (#[trigger] self.past_moves@[j]).mv.from != square
                        && self.past_moves@[j].mv.to != square,
            decreases self.past_moves@.len() - i,
        {
            let past_move = self.past_moves[i].mv;
            if past_move.from == square || past_move.to == square {
                proof {
                    let k: int = self.past_moves@.len() - 1 - i;
                    assert(self@.history[k] == self.past_moves@[i as int]);
                }
                return true;
            }
            i = i + 1;
        }
        proof {
            assert forall|k: int| 0 <= k < self@.history.len() implies (
            #[trigger] self@.history[k]).mv.from != square && self@.history[k].mv.to != square by {
                assert(self@.history[k] == self.past_moves@[self.past_moves@.len() - 1 - k]);
            }
        }
        false
    }

    /// Whether a pawn of side `c` may make the diagonal move `m` onto an
    /// empty square, capturing in passing.
    fn check_en_passant(&self, m: &Move, c: &Color) -> (res: Result<(), FailReason>)
        requires
            m.from.in_bounds(),
            m.to.in_bounds(),
        ensures
            res is Ok <==> self@.en_passant_open(*m, *c),
            res matches Err(e) ==> e is ImpossibleMove,
    {
        let n: usize = self.past_moves.len();
        if n == 0 {
            return Err(
                FailReason::ImpossibleMove(
                    String::from_str("no move was made yet, so no pawn can be taken in passing"),
                ),
            );
        }
        let last_move = self.past_moves[n - 1].mv;
        assert(self@.history[0] == self.past_moves@[n - 1]);
        let target = Pawn::get_en_passant_target(m);
        let dy: i64 = last_move.to.y as i64 - last_move.from.y as i64;
        let two_ranks = last_move.to.x == last_move.from.x && (dy == 2 || dy == -2);
        if !two_ranks || last_move.to != target {
            return Err(
                FailReason::ImpossibleMove(
                    String::from_str("the latest move was no two-square advance beside this pawn"),
                ),
            );
        }
        match self.get_piece_from(&target) {
            Some(Piece::Pawn(other)) => {
                if other != *c {
                    Ok(())
                } else {
                    Err(
                        FailReason::ImpossibleMove(
                            String::from_str("a pawn cannot take one of its own side in passing"),
                        ),
                    )
                }
            },
            _ => Err(
                FailReason::ImpossibleMove(
                    String::from_str("no pawn stands where one could be taken in passing"),
                ),
            ),
        }
    }

    fn is_valid_pawn_move(&self, m: &Move, c: &Color) -> (res: Result<(), FailReason>)
        requires
            m.from.in_bounds(),
            m.to.in_bounds(),
            self@.pieces.get(m.from) == Some(Piece::Pawn(*c)),
        ensures
            match res {
                Ok(()) => self@.pawn_fault(*m, *c) is None,
                Err(e) => self@.pawn_fault(*m, *c) == Some(e.kind()),
            },
    {
        if Board::is_promotion(*m) && m.promoted.is_none() {
            Err(
                FailReason::NeedPromotion(
                    String::from_str("name the piece that the pawn becomes on the last rank"),
                ),
            )
        } else if Pawn::is_attacking_validly(*m, c) {
            let target = match self.get_piece_from(&m.to) {
                None => return self.check_en_passant(m, c),
                Some(target) => target,
            };
            match self.is_opposite_color(target, &m.from) {
                Ok(true) => Ok(()),
                Ok(false) => Err(
                    FailReason::ImpossibleMove(
                        String::from_str("a pawn cannot capture a piece of its own side"),
                    ),
                ),
                Err(err) => Err(err),
            }
        } else {
            Ok(())
        }
    }

    fn is_valid_king_move(&self, m: &Move) -> (res: Result<(), FailReason>)
        ensures
            match res {
                Ok(()) => self@.king_fault(*m) is None,
                Err(e) => self@.king_fault(*m) == Some(e.kind()),
            },
    {
        if King::is_castling(m) {
            if self.has_touched(m.from) {
                return Err(
                    FailReason::ImpossibleMove(
                        String::from_str("the king has moved, it can no longer castle"),
                    ),
                );
            } else {
                let rook_location = King::get_rooks_location_for_castle(m);
                if self.has_touched(rook_location) {
                    return Err(
                        FailReason::ImpossibleMove(
                            String::from_str("the rook has moved, the king cannot castle with it"),
                        ),
                    );
                }
            }
        }
        Ok(())
    }

    fn do_piece_specific_checks(&self, m: &Move, piece: Piece) -> (res: Result<(), FailReason>)
        requires
            m.from.in_bounds(),
            m.to.in_bounds(),
            self@.pieces.get(m.from) == Some(piece),
        ensures
            match res {
                Ok(()) => self@.piece_fault(*m, piece) is None,
                Err(e) => self@.piece_fault(*m, piece) == Some(e.kind()),
            },
    {
        match piece {
            Piece::Pawn(c) => self.is_valid_pawn_move(m, &c),
            Piece::King(_) => self.is_valid_king_move(m),
            _ => Ok(()),
        }
    }

    fn is_blocked(&self, m: Move, piece: Piece, square: &Location) -> (b: bool)
        requires
            square.in_bounds(),
        ensures
            b == self@.blocks(m, piece, *square),
    {
        if Board::square_is_in_middle_of_path(*square, m) {
            self.get_piece_from(square).is_some()
        } else if m.from == *square {
            false
        } else {
            match self.is_opposite_color(piece, square) {
                Ok(opposite) => !opposite,
                Err(_) => false,
            }
        }
    }

    /// Examines `m` as `Position::verdict` says, without asking whether it
    /// exposes the mover's king.
    pub fn is_valid_move(&self, m: Move) -> (res: Result<(), FailReason>)
        ensures
            match res {
                Ok(()) => self@.verdict(m) is None,
                Err(e) => self@.verdict(m) == Some(e.kind()),
            },
    {
        Board::do_bounds_check(m)?;
        let piece = match self.get_piece_from(&m.from) {
            Some(piece) => piece,
            None => {
                return Err(
                    FailReason::NoPieceHere(String::from_str("no piece stands on the square to leave")),
                );
            },
        };
        self.do_piece_specific_checks(&m, piece)?;
        let path = piece.squares_moved_over(m)?;
        proof {
            lemma_path_in_bounds(piece, m);
        }
        let mut i: usize = 0;
        while i < path.len()
            invariant
                0 <= i <= path@.len(),
                m.from.in_bounds() && m.to.in_bounds(),
                self@.pieces.get(m.from) == Some(piece),
                self@.piece_fault(m, piece) is None,
                piece.reaches(m),
                path@ == piece.path(m),
                forall|j: int| 0 <= j < path@.len() ==> (#[trigger] path@[j]).in_bounds(),
                forall|j: int| 0 <= j < i ==> !self@.blocks(m, piece, #[trigger] path@[j]),
            decreases path@.len() - i,
        {
            if self.is_blocked(m, piece, &path[i]) {
                return Err(
                    FailReason::Blocked(
                        String::from_str("a piece stands in the way, or one of the same side on arrival"),
                    ),
                );
            }
            i = i + 1;
        }
        Ok(())
    }

    /// The plain relocation of `m`, whatever the rules say of it.
    fn relocate(&mut self, m: Move)
        requires
            m.from.in_bounds(),
            m.to.in_bounds(),
        ensures
            final(self)@.history == old(self)@.history,
            final(self)@.pieces == relocated(old(self)@.pieces, m),
            old(self).wf() ==> final(self).wf(),
    {
        let arriving = match m.promoted {
            Some(promotion) => Some(promotion),
            None => self.get_piece_from(&m.from),
        };
        self.put(m.to, arriving);
        self.put(m.from, None);
    }

    /// Carries out `m` on the squares and leaves the record alone. The move
    /// is trusted to have passed `is_valid_move`: nothing is examined here
    /// but what kind of move it is.
    fn do_move(&mut self, m: Move)
        requires
            old(self).wf(),
            m.from.in_bounds(),
            m.to.in_bounds(),
            old(self)@.pieces.contains_key(m.from),
        ensures
            final(self).wf(),
            final(self)@.pieces == old(self)@.carried_out(m),
            final(self)@.history == old(self)@.history,
    {
        let piece = self.get_piece_from(&m.from).unwrap();
        match piece {
            Piece::King(_) => {
                if King::is_castling(&m) {
                    self.relocate(King::get_rooks_move_for_castle(&m));
                }
            },
            Piece::Pawn(c) => {
                if Pawn::is_attacking_validly(m, &c) && self.get_piece_from(&m.to).is_none() {
                    if let Ok(()) = self.check_en_passant(&m, &c) {
                        let target = Pawn::get_en_passant_target(&m);
                        self.put(target, None);
                    }
                }
            },
            _ => {},
        }
        self.relocate(m);
    }

    /// The square on which `m` captures: see `Position::capture_square`.
    fn capture_square(&self, m: &Move) -> (square: Option<Location>)
        requires
            m.from.in_bounds(),
            m.to.in_bounds(),
            self@.pieces.contains_key(m.from),
        ensures
            square == self@.capture_square(*m),
            square matches Some(l) ==> l.in_bounds(),
    {
        if self.get_piece_from(&m.to).is_some() {
            return Some(m.to);
        }
        if let Some(Piece::Pawn(c)) = self.get_piece_from(&m.from) {
            if Pawn::is_attacking_validly(*m, &c) {
                if let Ok(()) = self.check_en_passant(m, &c) {
                    return Some(Pawn::get_en_passant_target(m));
                }
            }
        }
        None
    }

    /// The square of the king of side `color`: see `Position::first_king`.
    pub fn find_king(&self, color: Color) -> (found: Option<Location>)
        ensures
            match found {
                Some(king) => self@.first_king(king, color),
                None => forall|l: Location|
                    l.in_bounds() ==> #[trigger] self@.pieces.get(l) != Some(Piece::King(color)),
            },
    {
        let mut x: i32 = 0;
        while x < 8
            invariant
                0 <= x <= 8,
                forall|l: Location|
                    l.in_bounds() && l.x < x ==> #[trigger] self@.pieces.get(l) != Some(
                        Piece::King(color),
                    ),
            decreases 8 - x,
        {
            let mut y: i32 = 0;
            while y < 8
                invariant
                    0 <= x < 8,
                    0 <= y <= 8,
                    forall|l: Location|
                        l.in_bounds() && (l.x < x || (l.x == x && l.y < y))
                            ==> #[trigger] self@.pieces.get(l) != Some(Piece::King(color)),
                decreases 8 - y,
            {
                let here = Location::new(x, y);
                if let Some(Piece::King(king_color)) = self.get_piece_from(&here) {
                    if color == king_color {
                        return Some(here);
                    }
                }
                y = y + 1;
            }
            x = x + 1;
        }
        None
    }

    /// Whether side `c` is in check: see `Position::in_check`.
    pub fn is_in_check(&self, c: &Color) -> (b: bool)
        ensures
            b == self@.in_check(*c),
    {
        let king_pos = match self.find_king(*c) {
            Some(king_pos) => king_pos,
            None => {
                return false;
            },
        };
        let mut x: i32 = 0;
        while x < 8
            invariant
                0 <= x <= 8,
                self@.first_king(king_pos, *c),
                forall|l: Location| l.x < x ==> !#[trigger] self@.attacks(l, king_pos, *c),
            decreases 8 - x,
        {
            let mut y: i32 = 0;
            while y < 8
                invariant
                    0 <= x < 8,
                    0 <= y <= 8,
                    self@.first_king(king_pos, *c),
                    forall|l: Location|
                        (l.x < x || (l.x == x && l.y < y)) ==> !#[trigger] self@.attacks(
                            l,
                            king_pos,
                            *c,
                        ),
                decreases 8 - y,
            {
                let here = Location::new(x, y);
                let hostile = match self.get_piece_from(&here) {
                    Some(piece) => *piece.color() != *c,
                    None => false,
                };
                if hostile {
                    if let Ok(()) = self.is_valid_move(Move::new(here, king_pos)) {
                        assert(self@.attacks(here, king_pos, *c));
                        return true;
                    }
                }
                y = y + 1;
            }
            x = x + 1;
        }
        proof {
            assert forall|king: Location, from: Location|
                self@.first_king(king, *c) implies !#[trigger] self@.attacks(from, king, *c) by {
                assert(king == king_pos);
            }
        }
        false
    }

    /// Makes `m` if the rules allow it, and otherwise leaves the board as it
    /// was and says why not: the first reason that `Position::verdict`
    /// finds, or `Checked` when the move would leave the mover's own king
    /// under attack.
    pub fn make_move(&mut self, m: Move) -> (res: Result<(), FailReason>)
        requires
            old(self).wf(),
        ensures
            final(self).wf(),
            match res {
                Ok(()) => old(self)@.rejection(m) is None && final(self)@ == old(self)@.moved(m),
                Err(e) => old(self)@.rejection(m) == Some(e.kind()) && final(self)@ == old(self)@,
            },
    {
        self.is_valid_move(m)?;
        let moving_piece = self.get_piece_from(&m.from).unwrap();
        let color = *moving_piece.color();
        let captured = self.capture_square(&m);
        let before = self.squares;
        self.do_move(m);
        self.past_moves.push(Entry { mv: m, piece: moving_piece, captured });
        let ghost tried = self@;
        proof {
            let after = old(self)@.moved(m);
            assert(tried.history =~= after.history);
            assert(tried.pieces =~= after.pieces);
        }
        if self.is_in_check(&color) {
            self.squares = before;
            self.past_moves.pop();
            proof {
                assert(self@.history =~= tried.history.skip(1));
                assert(self@.history =~= old(self)@.history);
                assert(self@.pieces =~= old(self)@.pieces);
            }
            return Err(
                FailReason::Checked(String::from_str("the move would leave the king under attack")),
            );
        }
        Ok(())
    }

    /// The piece on record with the latest move that entered `square`.
    fn recall(&self, square: Location) -> (found: Option<Piece>)
        ensures
            found == recalled(self@.history, square, 0),
    {
        let n: usize = self.past_moves.len();
        let mut i: usize = 0;
        while i < n
            invariant
                n == self.past_moves@.len(),
                0 <= i <= n,
                recalled(self@.history, square, 0) == recalled(self@.history, square, i as int),
            decreases n - i,
        {
            let past = self.past_moves[n - 1 - i];
            assert(self@.history[i as int] == self.past_moves@[n - 1 - i]);
            if past.mv.to == square {
                return Some(past.piece);
            }
            i = i + 1;
        }
        None
    }

    /// Takes back the latest move on record, as `Position::undone` says: the
    /// mover returns, a castled rook returns, and a captured piece returns as
    /// far as the rest of the record remembers it. A captured piece that
    /// never moved stays off the board, and one that was promoted on arrival
    /// comes back as what it was before.
    pub fn undo_last_move(&mut self)
        requires
            old(self).wf(),
            old(self)@.history.len() > 0,
        ensures
            final(self).wf(),
            final(self)@ == old(self)@.undone(),
    {
        let n: usize = self.past_moves.len();
        let latest = self.past_moves[n - 1];
        assert(old(self)@.history[0] == self.past_moves@[n - 1]);
        self.past_moves.pop();
        assert(self@.history =~= old(self)@.history.skip(1));
        let last_move = latest.mv;
        self.put(last_move.from, Some(latest.piece));
        self.put(last_move.to, None);
        if let Piece::King(_) = latest.piece {
            if King::is_castling(&last_move) {
                let rooks_move = King::get_rooks_move_for_castle(&last_move);
                self.relocate(Move::new(rooks_move.to, rooks_move.from));
            }
        }
        if let Some(square) = latest.captured {
            if let Some(taken_piece) = self.recall(square) {
                self.put(square, Some(taken_piece));
            }
        }
        proof {
            let after = old(self)@.undone();
            assert(self@.history =~= after.history);
            assert(self@.pieces =~= after.pieces);
        }
    }

    /// Overwrites one square of the grid.
    fn put(&mut self, square: Location, content: Option<Piece>)
        requires
            square.in_bounds(),
        ensures
            final(self)@.history == old(self)@.history,
            final(self)@.pieces == match content {
                Some(piece) => old(self)@.pieces.insert(square, piece),
                None => old(self)@.pieces.remove(square),
            },
            old(self).wf() ==> final(self).wf(),
    {
        self.squares[square.x as usize][square.y as usize] = content;
        proof {
            let expected = match content {
                Some(piece) => old(self)@.pieces.insert(square, piece),
                None => old(self)@.pieces.remove(square),
            };
            assert(self@.pieces =~= expected);
        }
    }
}

/// Taking back a move that was just made gives back the position it was made
/// in: every piece where it stood, and the record as it was. This holds of
/// every move that captures nothing, castles included, and of a move that
/// captures when the record remembers the piece captured: the latest move
/// that ended on the square of the capture was made by that very piece.
pub proof fn lemma_undo_restores_position(p: Position, m: Move)
    requires
        p.rejection(m) is None,
        p.capture_square(m) matches Some(square) ==> recalled(p.history, square, 0)
            == p.pieces.get(square),
    ensures
        p.moved(m).undone() == p,
{
    let after = p.moved(m);
    let piece = p.pieces[m.from];
    assert(after.history[0] == p.entry_for(m));
    assert(after.history.skip(1) =~= p.history);
    assert(m.from != m.to);
    if p.castles(m) {
        assert(piece.path(m)[1] == castle_rook_to(m));
        assert(!p.blocks(m, piece, piece.path(m)[1]));
    }
    assert(after.undone().pieces =~= p.pieces);
}

/// A move that captures nothing, taken back at once, leaves every piece
/// where it stood and the record as it was.
pub proof fn lemma_undo_restores_after_quiet_move(p: Position, m: Move)
    requires
        p.rejection(m) is None,
        p.capture_square(m) is None,
    ensures
        p.moved(m).undone() == p,
{
    lemma_undo_restores_position(p, m);
}

/// Carrying out a move changes no square but the two it names, the two of
/// the rook when a king castles, and the one beside the square entered when
/// a pawn captures in passing.
pub proof fn lemma_carried_out_frame(p: Position, m: Move, square: Location)
    requires
        square != m.from,
        square != m.to,
        p.castles(m) ==> square != castle_rook_from(m) && square != castle_rook_to(m),
        p.captures_en_passant(m) ==> square != (Location { x: m.to.x, y: m.from.y }),
    ensures
        p.carried_out(m).get(square) == p.pieces.get(square),
{
}

/// A pawn that has left the rank on which its side's pawns start, by a move
/// of its own, cannot advance two squares with its next move.
pub proof fn lemma_pawn_leaps_once(c: Color, first: Move, next: Move)
    requires
        first.from.y == c.pawn_rank(),
        pawn_reach(first, c),
        next.from == first.to,
    ensures
        !pawn_leap(next, c),
{
}

} // verus!
