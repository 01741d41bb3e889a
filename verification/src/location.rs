use vstd::prelude::*;
use crate::chess_move::Move;
use crate::piece::{Bishop, Color, FailReason, Rook};

verus! {

/// Absolute value of a mathematical integer.
pub open spec fn magnitude(i: int) -> int {
    if i < 0 {
        -i
    } else {
        i
    }
}

/// The offset reached after `i` unit steps in the direction of `delta`:
/// `i`, `-i` or `0` as `delta` is positive, negative or zero.
pub open spec fn toward(delta: int, i: int) -> int {
    if delta > 0 {
        i
    } else if delta < 0 {
        -i
    } else {
        0
    }
}

/// A square of the board, or a displacement between two squares.
#[derive(Copy, Clone, Debug, PartialEq, Eq, Structural, PartialOrd, Ord)]
pub struct Location {
    pub x: i32,
    pub y: i32,
}

impl Location {
    /// Whether both coordinates lie on the board.
    pub open spec fn in_bounds(self) -> bool {
        0 <= self.x <= 7 && 0 <= self.y <= 7
    }

    /// Whether `dest` lies on the same file or rank as `self`, and is another square.
    pub open spec fn straight_to(self, dest: Location) -> bool {
        (dest.x == self.x) != (dest.y == self.y)
    }

    /// Whether `dest` lies on a diagonal through `self`, and is another square.
    pub open spec fn diagonal_to(self, dest: Location) -> bool {
        dest.x != self.x && magnitude(dest.x - self.x) == magnitude(dest.y - self.y)
    }

    /// Number of unit steps of a straight or diagonal walk from `self` to `dest`.
    pub open spec fn distance_to(self, dest: Location) -> int {
        if magnitude(dest.x - self.x) >= magnitude(dest.y - self.y) {
            magnitude(dest.x - self.x)
        } else {
            magnitude(dest.y - self.y)
        }
    }

    /// The `i`-th square of the walk from `self` towards `dest`.
    pub open spec fn step_to(self, dest: Location, i: int) -> Location {
        Location {
            x: (self.x + toward(dest.x - self.x, i)) as i32,
            y: (self.y + toward(dest.y - self.y, i)) as i32,
        }
    }

    /// The squares from `self` to `dest`, both included, in the order in which
    /// a piece moving along the line visits them. Meant for pairs that are
    /// `straight_to` or `diagonal_to` each other.
    pub open spec fn walk(self, dest: Location) -> Seq<Location> {
        Seq::new((self.distance_to(dest) + 1) as nat, |i: int| self.step_to(dest, i))
    }

    pub fn new(x: i32, y: i32) -> (l: Location)
        ensures
            l == (Location { x, y }),
    {
        Location { x, y }
    }

    pub fn as_tup(&self) -> (t: (i32, i32))
        ensures
            t == (self.x, self.y),
    {
        (self.x, self.y)
    }

    /// The absolute values of the two coordinates.
    pub fn as_abs_tup(&self) -> (t: (i32, i32))
        requires
            self.x > i32::MIN,
            self.y > i32::MIN,
        ensures
            t.0 == magnitude(self.x as int),
            t.1 == magnitude(self.y as int),
    {
        let (x, y) = self.as_tup();
        let ax: i32 = if x < 0 { -x } else { x };
        let ay: i32 = if y < 0 { -y } else { y };
        (ax, ay)
    }

    pub fn is_in_bounds(&self) -> (b: bool)
        ensures
            b == self.in_bounds(),
    {
        let (x, y) = self.as_tup();
        x >= 0 && x <= 7 && y >= 0 && y <= 7
    }

    /// The inclusive path from `self` to `dest` along a rank, a file or a
    /// diagonal; `ImpossibleMove` when the two squares share none of them or
    /// are the same square.
    pub fn locations_between(&self, dest: Location) -> (res: Result<Vec<Location>, FailReason>)
        ensures
            match res {
                Ok(path) => (self.straight_to(dest) || self.diagonal_to(dest)) && path@ == self.walk(
                    dest,
                ),
                Err(e) => !self.straight_to(dest) && !self.diagonal_to(dest) && e is ImpossibleMove,
            },
    {
        let m = Move::new(*self, dest);
        match Rook::squares_moved(m, &Color::White) {
            Ok(rook_result) => Ok(rook_result),
            Err(_) => match Bishop::squares_moved(m, &Color::White) {
                Ok(bishop_result) => Ok(bishop_result),
                Err(_) => Err(
                    FailReason::ImpossibleMove(
                        String::from_str("the two squares share no rank, file or diagonal"),
                    ),
                ),
            },
        }
    }
}

/// Builds the walk from `from` to `dest` square by square.
pub(crate) fn trace(from: Location, dest: Location) -> (path: Vec<Location>)
    requires
        from.straight_to(dest) || from.diagonal_to(dest),
    ensures
        path@ == from.walk(dest),
{
    let dx: i64 = dest.x as i64 - from.x as i64;
    let dy: i64 = dest.y as i64 - from.y as i64;
    let ax: i64 = if dx < 0 { -dx } else { dx };
    let ay: i64 = if dy < 0 { -dy } else { dy };
    let n: i64 = if ax >= ay { ax } else { ay };
    let sx: i64 = if dx > 0 { 1 } else if dx < 0 { -1 } else { 0 };
    let sy: i64 = if dy > 0 { 1 } else if dy < 0 { -1 } else { 0 };
    let mut path: Vec<Location> = Vec::new();
    let mut x: i64 = from.x as i64;
    let mut y: i64 = from.y as i64;
    let mut i: i64 = 0;
    while i <= n
        invariant
            from.straight_to(dest) || from.diagonal_to(dest),
            dx == dest.x - from.x,
            dy == dest.y - from.y,
            n == from.distance_to(dest),
            sx == toward(dx as int, 1),
            sy == toward(dy as int, 1),
            0 <= i <= n + 1,
            x == from.x + toward(dx as int, i as int),
            y == from.y + toward(dy as int, i as int),
            path@.len() == i,
            forall|j: int| 0 <= j < i ==> path@[j] == from.step_to(dest, j),
        decreases n + 1 - i,
    {
        path.push(Location { x: x as i32, y: y as i32 });
        x = x + sx;
        y = y + sy;
        i = i + 1;
    }
    assert(path@ =~= from.walk(dest));
    path
}

impl core::ops::Add for Location {
    type Output = Location;

    fn add(self, rhs: Location) -> (sum: Location) {
        Location { x: self.x + rhs.x, y: self.y + rhs.y }
    }
}

impl vstd::std_specs::ops::AddSpecImpl for Location {
    open spec fn obeys_add_spec() -> bool {
        true
    }

    open spec fn add_req(self, rhs: Location) -> bool {
        &&& i32::MIN <= self.x + rhs.x <= i32::MAX
        &&& i32::MIN <= self.y + rhs.y <= i32::MAX
    }

    open spec fn add_spec(self, rhs: Location) -> Location {
        Location { x: (self.x + rhs.x) as i32, y: (self.y + rhs.y) as i32 }
    }
}

impl core::ops::Sub for Location {
    type Output = Location;

    fn sub(self, rhs: Location) -> (diff: Location) {
        Location { x: self.x - rhs.x, y: self.y - rhs.y }
    }
}

impl vstd::std_specs::ops::SubSpecImpl for Location {
    open spec fn obeys_sub_spec() -> bool {
        true
    }

    open spec fn sub_req(self, rhs: Location) -> bool {
        &&& i32::MIN <= self.x - rhs.x <= i32::MAX
        &&& i32::MIN <= self.y - rhs.y <= i32::MAX
    }

    open spec fn sub_spec(self, rhs: Location) -> Location {
        Location { x: (self.x - rhs.x) as i32, y: (self.y - rhs.y) as i32 }
    }
}

} // verus!
