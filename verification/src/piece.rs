use vstd::prelude::*;
use crate::chess_move::Move;
use crate::location::{magnitude, trace, Location};

verus! {

/// The two sides.
#[derive(Copy, Clone, Debug, PartialEq, Eq, Structural)]
pub enum Color {
    White,
    Black,
}

/// A piece: its kind, and the side it belongs to.
#[derive(Copy, Clone, Debug, PartialEq, Eq, Structural)]
pub enum Piece {
    Rook(Color),
    Knight(Color),
    Pawn(Color),
    King(Color),
    Queen(Color),
    Bishop(Color),
}

/// Why a move was turned down, without the message.
#[derive(Copy, Clone, Debug, PartialEq, Eq, Structural)]
pub enum FailKind {
    ImpossibleMove,
    NoPieceHere,
    Blocked,
    OutOfBounds,
    NeedPromotion,
    Checked,
}

/// Why a move was turned down. Each case carries a message for people to
/// read; the rules decide the case, never the wording.
#[derive(Debug, PartialOrd, PartialEq)]
pub enum FailReason {
    /// The geometry, or a precondition of a special move, rules the move out.
    ImpossibleMove(String),
    /// A square that has to hold a piece is empty.
    NoPieceHere(String),
    /// The geometry is fine, but a piece stands in the way.
    Blocked(String),
    /// A coordinate lies outside the board.
    OutOfBounds(String),
    /// A pawn reaches the last rank and no replacement was named.
    NeedPromotion(String),
    /// The move would leave the mover's own king under attack.
    Checked(String),
}

impl FailReason {
    /// The case of this failure.
    pub open spec fn spec_kind(&self) -> FailKind {
        match self {
            FailReason::ImpossibleMove(_) => FailKind::ImpossibleMove,
            FailReason::NoPieceHere(_) => FailKind::NoPieceHere,
            FailReason::Blocked(_) => FailKind::Blocked,
            FailReason::OutOfBounds(_) => FailKind::OutOfBounds,
            FailReason::NeedPromotion(_) => FailKind::NeedPromotion,
            FailReason::Checked(_) => FailKind::Checked,
        }
    }

    #[verifier::when_used_as_spec(spec_kind)]
    pub fn kind(&self) -> (k: FailKind)
        ensures
            k == self.spec_kind(),
    {
        match self {
            FailReason::ImpossibleMove(_) => FailKind::ImpossibleMove,
            FailReason::NoPieceHere(_) => FailKind::NoPieceHere,
            FailReason::Blocked(_) => FailKind::Blocked,
            FailReason::OutOfBounds(_) => FailKind::OutOfBounds,
            FailReason::NeedPromotion(_) => FailKind::NeedPromotion,
            FailReason::Checked(_) => FailKind::Checked,
        }
    }
}

impl Color {
    /// The direction in which this side's pawns advance: up the ranks for
    /// White, down for Black.
    pub open spec fn forward(self) -> int {
        match self {
            Color::White => 1,
            Color::Black => -1,
        }
    }

    /// Whether a change of `dy` ranks goes forward for this side's pawns.
    pub open spec fn is_ahead(self, dy: int) -> bool {
        match self {
            Color::White => dy > 0,
            Color::Black => dy < 0,
        }
    }

    /// The rank on which this side's pawns start.
    pub open spec fn pawn_rank(self) -> int {
        match self {
            Color::White => 1,
            Color::Black => 6,
        }
    }
}

impl Piece {
    /// The side this piece belongs to.
    pub open spec fn side(self) -> Color {
        match self {
            Piece::Rook(c) => c,
            Piece::Knight(c) => c,
            Piece::Pawn(c) => c,
            Piece::King(c) => c,
            Piece::Queen(c) => c,
            Piece::Bishop(c) => c,
        }
    }

    pub fn color(&self) -> (c: &Color)
        ensures
            *c == self.side(),
    {
        match self {
            Piece::Rook(c) => c,
            Piece::Knight(c) => c,
            Piece::Pawn(c) => c,
            Piece::King(c) => c,
            Piece::Queen(c) => c,
            Piece::Bishop(c) => c,
        }
    }
}

/// A rook travels along one file or one rank, at least one square.
pub open spec fn rook_reach(m: Move) -> bool {
    m.from.straight_to(m.to)
}

/// A bishop travels along one diagonal, at least one square.
pub open spec fn bishop_reach(m: Move) -> bool {
    m.from.diagonal_to(m.to)
}

/// A queen travels as a rook or as a bishop.
pub open spec fn queen_reach(m: Move) -> bool {
    rook_reach(m) || bishop_reach(m)
}

/// A knight jumps one square along one axis and two along the other.
pub open spec fn knight_reach(m: Move) -> bool {
    ||| magnitude(m.dx()) == 1 && magnitude(m.dy()) == 2
    ||| magnitude(m.dx()) == 2 && magnitude(m.dy()) == 1
}

/// The shape of a castle: the king leaves its home file and lands two files
/// away on the same rank.
pub open spec fn castle_shape(m: Move) -> bool {
    m.from.x == 4 && m.to.y == m.from.y && (m.to.x == 2 || m.to.x == 6)
}

/// Where the rook that takes part in the castle `m` stands before it.
pub open spec fn castle_rook_from(m: Move) -> Location {
    Location { x: if m.to.x == 2 { 0i32 } else { 7i32 }, y: m.to.y }
}

/// Where the rook that takes part in the castle `m` stands after it.
pub open spec fn castle_rook_to(m: Move) -> Location {
    Location { x: if m.to.x == 2 { 3i32 } else { 5i32 }, y: m.to.y }
}

/// A king steps to one of the eight neighbouring squares, or castles.
pub open spec fn king_reach(m: Move) -> bool {
    ||| m.from.distance_to(m.to) == 1
    ||| castle_shape(m)
}

/// One square straight ahead.
pub open spec fn pawn_step(m: Move, c: Color) -> bool {
    m.dx() == 0 && m.dy() == c.forward()
}

/// Two squares straight ahead, from the rank on which the side's pawns start.
pub open spec fn pawn_leap(m: Move, c: Color) -> bool {
    m.dx() == 0 && m.dy() == 2 * c.forward() && m.from.y == c.pawn_rank()
}

/// One square diagonally ahead: the way a pawn captures.
pub open spec fn pawn_attack(m: Move, c: Color) -> bool {
    magnitude(m.dx()) == 1 && m.dy() == c.forward()
}

/// A pawn steps, leaps or attacks. Whether the square attacked holds
/// something to capture is for the board to say.
pub open spec fn pawn_reach(m: Move, c: Color) -> bool {
    pawn_step(m, c) || pawn_leap(m, c) || pawn_attack(m, c)
}

/// Whether a move brings a pawn to the first or the last rank.
pub open spec fn reaches_last_rank(m: Move) -> bool {
    m.to.y == 0 || m.to.y == 7
}

/// What the board asks of anything that moves: whether the geometry of a move
/// suits it, and which squares it passes over.
pub trait Movable {
    /// Whether the geometry of `m` is one of this mover's.
    spec fn reaches(&self, m: Move) -> bool;

    /// The squares that `m` passes over, `from` first and `to` last. Meant
    /// for moves that `reaches` accepts.
    spec fn path(&self, m: Move) -> Seq<Location>;

    /// The path of `m`, or `ImpossibleMove` when the geometry does not suit.
    fn squares_moved_over(&self, m: Move) -> (res: Result<Vec<Location>, FailReason>)
        ensures
            match res {
                Ok(squares) => self.reaches(m) && squares@ == self.path(m),
                Err(e) => !self.reaches(m) && e is ImpossibleMove,
            },
    ;
}

impl Movable for Piece {
    open spec fn reaches(&self, m: Move) -> bool {
        match *self {
            Piece::Rook(_) => rook_reach(m),
            Piece::Knight(_) => knight_reach(m),
            Piece::Pawn(c) => pawn_reach(m, c),
            Piece::King(_) => king_reach(m),
            Piece::Queen(_) => queen_reach(m),
            Piece::Bishop(_) => bishop_reach(m),
        }
    }

    open spec fn path(&self, m: Move) -> Seq<Location> {
        match *self {
            Piece::Knight(_) => seq![m.from, m.to],
            _ => m.from.walk(m.to),
        }
    }

    fn squares_moved_over(&self, m: Move) -> (res: Result<Vec<Location>, FailReason>) {
        match self {
            Piece::Rook(c) => Rook::squares_moved(m, c),
            Piece::Knight(c) => Knight::squares_moved(m, c),
            Piece::Pawn(c) => Pawn::squares_moved(m, c),
            Piece::King(c) => King::squares_moved(m, c),
            Piece::Queen(c) => Queen::squares_moved(m, c),
            Piece::Bishop(c) => Bishop::squares_moved(m, c),
        }
    }
}

/// The path of a move begins on the square left and ends on the square
/// entered, which is another square.
pub proof fn lemma_path_ends(piece: Piece, m: Move)
    requires
        piece.reaches(m),
    ensures
        piece.path(m).len() >= 2,
        piece.path(m).first() == m.from,
        piece.path(m).last() == m.to,
{
}

#[derive(Copy, Clone)]
pub struct Knight;

#[derive(Copy, Clone)]
pub struct Pawn;

#[derive(Copy, Clone)]
pub struct King;

#[derive(Copy, Clone)]
pub struct Queen;

#[derive(Copy, Clone)]
pub struct Bishop;

#[derive(Copy, Clone)]
pub struct Rook;

impl Knight {
    pub fn squares_moved(m: Move, _c: &Color) -> (res: Result<Vec<Location>, FailReason>)
        ensures
            match res {
                Ok(squares) => knight_reach(m) && squares@ == seq![m.from, m.to],
                Err(e) => !knight_reach(m) && e is ImpossibleMove,
            },
    {
        let dx: i64 = m.to.x as i64 - m.from.x as i64;
        let dy: i64 = m.to.y as i64 - m.from.y as i64;
        let one_two = (dx == 1 || dx == -1) && (dy == 2 || dy == -2);
        let two_one = (dx == 2 || dx == -2) && (dy == 1 || dy == -1);
        if one_two || two_one {
            let mut squares: Vec<Location> = Vec::new();
            squares.push(m.from);
            squares.push(m.to);
            assert(squares@ =~= seq![m.from, m.to]);
            Ok(squares)
        } else {
            Err(FailReason::ImpossibleMove(String::from_str("a knight does not jump like that")))
        }
    }
}

impl Pawn {
    pub fn squares_moved(m: Move, c: &Color) -> (res: Result<Vec<Location>, FailReason>)
        ensures
            match res {
                Ok(squares) => pawn_reach(m, *c) && squares@ == m.from.walk(m.to),
                Err(e) => !pawn_reach(m, *c) && e is ImpossibleMove,
            },
    {
        let dx: i64 = m.to.x as i64 - m.from.x as i64;
        let dy: i64 = m.to.y as i64 - m.from.y as i64;
        if dx == 0 && (dy == 1 || dy == -1) {
            if Pawn::is_right_direction(m, c) {
                Ok(trace(m.from, m.to))
            } else {
                Err(FailReason::ImpossibleMove(String::from_str("a pawn only moves forward")))
            }
        } else if dx == 0 && (dy == 2 || dy == -2) {
            if Pawn::is_in_original_position(m.from, c) && Pawn::is_right_direction(m, c) {
                Ok(trace(m.from, m.to))
            } else {
                Err(
                    FailReason::ImpossibleMove(
                        String::from_str(
                            "a pawn advances two squares only forward and only from its first rank",
                        ),
                    ),
                )
            }
        } else if Pawn::moved_one_diagonal(dx, dy) && Pawn::is_attacking_validly(m, c) {
            Ok(trace(m.from, m.to))
        } else {
            Err(FailReason::ImpossibleMove(String::from_str("a pawn does not move like that")))
        }
    }

    /// The square of the pawn that an en passant capture by `pawn_move` removes:
    /// on the file entered, on the rank left.
    pub fn get_en_passant_target(pawn_move: &Move) -> (target: Location)
        ensures
            target == (Location { x: pawn_move.to.x, y: pawn_move.from.y }),
    {
        Location::new(pawn_move.to.x, pawn_move.from.y)
    }

    pub fn is_attacking_validly(m: Move, c: &Color) -> (b: bool)
        ensures
            b == pawn_attack(m, *c),
    {
        let dx: i64 = m.to.x as i64 - m.from.x as i64;
        let dy: i64 = m.to.y as i64 - m.from.y as i64;
        (dx == 1 || dx == -1) && match c {
            Color::White => dy == 1,
            Color::Black => dy == -1,
        }
    }

    /// Whether the move goes up the ranks for White, down for Black, by
    /// whatever number of ranks.
    pub fn is_right_direction(m: Move, color: &Color) -> (b: bool)
        ensures
            b == color.is_ahead(m.dy()),
    {
        let dy: i64 = m.to.y as i64 - m.from.y as i64;
        match color {
            Color::White => dy > 0,
            Color::Black => dy < 0,
        }
    }

    pub fn is_in_original_position(from: Location, color: &Color) -> (b: bool)
        ensures
            b == (from.y == color.pawn_rank()),
    {
        match color {
            Color::White => from.y == 1,
            Color::Black => from.y == 6,
        }
    }

    pub fn moved_one_diagonal(x: i64, y: i64) -> (b: bool)
        ensures
            b == (magnitude(x as int) == 1 && magnitude(y as int) == 1),
    {
        (x == 1 || x == -1) && (y == 1 || y == -1)
    }
}

impl King {
    pub fn squares_moved(m: Move, _c: &Color) -> (res: Result<Vec<Location>, FailReason>)
        ensures
            match res {
                Ok(squares) => king_reach(m) && squares@ == m.from.walk(m.to),
                Err(e) => !king_reach(m) && e is ImpossibleMove,
            },
    {
        let dx: i64 = m.to.x as i64 - m.from.x as i64;
        let dy: i64 = m.to.y as i64 - m.from.y as i64;
        let ax: i64 = if dx < 0 { -dx } else { dx };
        let ay: i64 = if dy < 0 { -dy } else { dy };
        if (ax == 1 && ay == 0) || (ax == 0 && ay == 1) || (ax == 1 && ay == 1) {
            Ok(trace(m.from, m.to))
        } else if King::is_castling(&m) {
            Ok(trace(m.from, m.to))
        } else {
            Err(FailReason::ImpossibleMove(String::from_str("a king does not move like that")))
        }
    }

    pub fn is_castling(m: &Move) -> (b: bool)
        ensures
            b == castle_shape(*m),
    {
        m.from.x == 4 && m.to.y == m.from.y && (m.to.x == 2 || m.to.x == 6)
    }

    /// The rook's part of the castle `kings_move`.
    pub fn get_rooks_move_for_castle(kings_move: &Move) -> (rooks_move: Move)
        requires
            castle_shape(*kings_move),
        ensures
            rooks_move == (Move {
                from: castle_rook_from(*kings_move),
                to: castle_rook_to(*kings_move),
                promoted: None,
            }),
    {
        let from = King::get_rooks_location_for_castle(kings_move);
        let file: i32 = if kings_move.to.x == 2 { 3 } else { 5 };
        Move::new(from, Location { x: file, y: kings_move.to.y })
    }

    /// The corner from which the rook joins the castle `kings_move`.
    pub fn get_rooks_location_for_castle(kings_move: &Move) -> (corner: Location)
        requires
            castle_shape(*kings_move),
        ensures
            corner == castle_rook_from(*kings_move),
    {
        let file: i32 = if kings_move.to.x == 2 { 0 } else { 7 };
        Location { x: file, y: kings_move.to.y }
    }
}

impl Queen {
    pub fn squares_moved(m: Move, _c: &Color) -> (res: Result<Vec<Location>, FailReason>)
        ensures
            match res {
                Ok(squares) => queen_reach(m) && squares@ == m.from.walk(m.to),
                Err(e) => !queen_reach(m) && e is ImpossibleMove,
            },
    {
        m.from.locations_between(m.to)
    }
}

impl Bishop {
    pub fn squares_moved(m: Move, _c: &Color) -> (res: Result<Vec<Location>, FailReason>)
        ensures
            match res {
                Ok(squares) => bishop_reach(m) && squares@ == m.from.walk(m.to),
                Err(e) => !bishop_reach(m) && e is ImpossibleMove,
            },
    {
        if Bishop::is_diagonal(m) {
            Ok(trace(m.from, m.to))
        } else {
            Err(FailReason::ImpossibleMove(String::from_str("a bishop keeps to its diagonals")))
        }
    }

    pub fn is_diagonal(m: Move) -> (b: bool)
        ensures
            b == bishop_reach(m),
    {
        let dx: i64 = m.to.x as i64 - m.from.x as i64;
        let dy: i64 = m.to.y as i64 - m.from.y as i64;
        dx != 0 && (dx == dy || dx == -dy)
    }
}

impl Rook {
    pub fn squares_moved(m: Move, _c: &Color) -> (res: Result<Vec<Location>, FailReason>)
        ensures
            match res {
                Ok(squares) => rook_reach(m) && squares@ == m.from.walk(m.to),
                Err(e) => !rook_reach(m) && e is ImpossibleMove,
            },
    {
        let same_file = m.to.x == m.from.x;
        let same_rank = m.to.y == m.from.y;
        if same_file != same_rank {
            Ok(trace(m.from, m.to))
        } else {
            Err(FailReason::ImpossibleMove(String::from_str("a rook keeps to its file or its rank")))
        }
    }
}

} // verus!
