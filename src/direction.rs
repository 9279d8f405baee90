use crate::CoordVec;
use vstd::prelude::*;

verus! {

/// Four-way directions.
///
/// These start at North and increment clockwise.
/// Use [`Self::ordinal`] to turn one into a number.
#[derive(Debug, Copy, Clone, PartialEq, Eq, PartialOrd, Ord, Hash, Structural)]
pub enum Direction4 {
    North,
    East,
    South,
    West,
}

impl Direction4 {
    /// All the directions in order.
    pub const DIRECTIONS: [Direction4; 4] = [
        Direction4::North,
        Direction4::East,
        Direction4::South,
        Direction4::West,
    ];

    /// Position in the clockwise order starting at North.
    pub open spec fn index(self) -> int {
        match self {
            Direction4::North => 0,
            Direction4::East => 1,
            Direction4::South => 2,
            Direction4::West => 3,
        }
    }

    /// The direction at position `i` (taken modulo 4) of the clockwise order.
    pub open spec fn from_index(i: int) -> Direction4 {
        let k = i % 4;
        if k == 0 {
            Direction4::North
        } else if k == 1 {
            Direction4::East
        } else if k == 2 {
            Direction4::South
        } else {
            Direction4::West
        }
    }

    /// This direction turned `steps` quarter turns clockwise (counter-clockwise when negative).
    pub open spec fn rotated(self, steps: int) -> Direction4 {
        Direction4::from_index(self.index() + steps)
    }

    /// The unit step that moving in this direction makes; `y` grows southward.
    pub open spec fn delta(self) -> CoordVec {
        match self {
            Direction4::North => CoordVec { x: 0, y: -1i32 },
            Direction4::East => CoordVec { x: 1, y: 0 },
            Direction4::South => CoordVec { x: 0, y: 1 },
            Direction4::West => CoordVec { x: -1i32, y: 0 },
        }
    }

    /// Get the "index" of this direction,
    /// in the same index as in [`Self::DIRECTIONS`].
    pub fn ordinal(self) -> (r: usize)
        ensures
            r == self.index(),
    {
        match self {
            Direction4::North => 0,
            Direction4::East => 1,
            Direction4::South => 2,
            Direction4::West => 3,
        }
    }

    /// Rotate this by the given amount.
    pub fn rotate(self, rot: Rotation) -> (r: Self)
        ensures
            r == self.rotated(rot.steps()),
    {
        self.rotate_by(rot.steps_clockwise())
    }

    /// Get this direction, rotated by this many steps clockwise.
    /// Negative numbers go counter-clockwise.
    pub fn rotate_by(self, steps_clockwise: i32) -> (r: Self)
        ensures
            r == self.rotated(steps_clockwise as int),
    {
        let turn = steps_clockwise.checked_rem_euclid(4).unwrap();
        let new_idx = (self.ordinal() + turn as usize) % 4;
        proof {
            assert((self.index() + steps_clockwise) % 4 == (self.index() + turn) % 4)
                by (nonlinear_arith)
                requires
                    turn == steps_clockwise % 4,
            ;
        }
        Self::DIRECTIONS[new_idx]
    }

    /// Flip this direction.
    pub fn flip(self) -> (r: Self)
        ensures
            r == self.rotated(2),
    {
        self.rotate_by(2)
    }

    /// How many quarter turns clockwise from East this direction lies.
    ///
    /// Multiplied by a quarter of a full turn, this is the direction's angle in the
    /// screen convention where 0 points right and angles grow clockwise.
    pub fn quarter_turns_from_east(self) -> (r: u32)
        ensures
            r == (self.index() - 1) % 4,
    {
        ((self.ordinal() + 3) % 4) as u32
    }

    /// Get the deltas a step in this direction would result in, as a CoordVec.
    pub fn deltas(self) -> (r: CoordVec)
        ensures
            r == self.delta(),
    {
        let (x, y) = match self {
            Direction4::North => (0, -1),
            Direction4::East => (1, 0),
            Direction4::South => (0, 1),
            Direction4::West => (-1, 0),
        };
        CoordVec { x, y }
    }

    /// See if this direction points horizontally (ie, is `East` or `West`).
    pub fn is_horizontal(self) -> (r: bool)
        ensures
            r == (self == Direction4::East || self == Direction4::West),
    {
        matches!(self, Direction4::East | Direction4::West)
    }

    /// See if this direction points vertically (ie, is `North` or `South`).
    pub fn is_vertical(self) -> (r: bool)
        ensures
            r == (self == Direction4::North || self == Direction4::South),
    {
        matches!(self, Direction4::North | Direction4::South)
    }
}

/// Eight-way directions.
///
/// These start at North and increment clockwise.
/// Use [`Self::ordinal`] to turn one into a number.
#[derive(Debug, Copy, Clone, PartialEq, Eq, PartialOrd, Ord, Hash, Structural)]
pub enum Direction8 {
    North,
    NorthEast,
    East,
    SouthEast,
    South,
    SouthWest,
    West,
    NorthWest,
}

impl Direction8 {
    /// All the directions in order.
    pub const DIRECTIONS: [Direction8; 8] = [
        Direction8::North,
        Direction8::NorthEast,
        Direction8::East,
        Direction8::SouthEast,
        Direction8::South,
        Direction8::SouthWest,
        Direction8::West,
        Direction8::NorthWest,
    ];

    /// Position in the clockwise order starting at North.
    pub open spec fn index(self) -> int {
        match self {
            Direction8::North => 0,
            Direction8::NorthEast => 1,
            Direction8::East => 2,
            Direction8::SouthEast => 3,
            Direction8::South => 4,
            Direction8::SouthWest => 5,
            Direction8::West => 6,
            Direction8::NorthWest => 7,
        }
    }

    /// The direction at position `i` (taken modulo 8) of the clockwise order.
    pub open spec fn from_index(i: int) -> Direction8 {
        let k = i % 8;
        if k == 0 {
            Direction8::North
        } else if k == 1 {
            Direction8::NorthEast
        } else if k == 2 {
            Direction8::East
        } else if k == 3 {
            Direction8::SouthEast
        } else if k == 4 {
            Direction8::South
        } else if k == 5 {
            Direction8::SouthWest
        } else if k == 6 {
            Direction8::West
        } else {
            Direction8::NorthWest
        }
    }

    /// This direction turned `steps` eighth turns clockwise (counter-clockwise when negative).
    pub open spec fn rotated(self, steps: int) -> Direction8 {
        Direction8::from_index(self.index() + steps)
    }

    /// The step that moving in this direction makes; `y` grows southward.
    pub open spec fn delta(self) -> CoordVec {
        match self {
            Direction8::North => CoordVec { x: 0, y: -1i32 },
            Direction8::NorthEast => CoordVec { x: 1, y: -1i32 },
            Direction8::East => CoordVec { x: 1, y: 0 },
            Direction8::SouthEast => CoordVec { x: 1, y: 1 },
            Direction8::South => CoordVec { x: 0, y: 1 },
            Direction8::SouthWest => CoordVec { x: -1i32, y: 1 },
            Direction8::West => CoordVec { x: -1i32, y: 0 },
            Direction8::NorthWest => CoordVec { x: -1i32, y: -1i32 },
        }
    }

    /// The same compass point among the four-way directions, if there is one.
    pub open spec fn from_dir4(d: Direction4) -> Direction8 {
        match d {
            Direction4::North => Direction8::North,
            Direction4::East => Direction8::East,
            Direction4::South => Direction8::South,
            Direction4::West => Direction8::West,
        }
    }

    /// Get the "index" of this direction,
    /// in the same index as in [`Self::DIRECTIONS`].
    pub fn ordinal(self) -> (r: usize)
        ensures
            r == self.index(),
    {
        match self {
            Direction8::North => 0,
            Direction8::NorthEast => 1,
            Direction8::East => 2,
            Direction8::SouthEast => 3,
            Direction8::South => 4,
            Direction8::SouthWest => 5,
            Direction8::West => 6,
            Direction8::NorthWest => 7,
        }
    }

    /// Rotate this by the given amount.
    pub fn rotate(self, rot: Rotation) -> (r: Self)
        ensures
            r == self.rotated(rot.steps()),
    {
        self.rotate_by(rot.steps_clockwise())
    }

    /// Get this direction, rotated by this many steps clockwise.
    /// Negative numbers go counter-clockwise.
    pub fn rotate_by(self, steps_clockwise: i32) -> (r: Self)
        ensures
            r == self.rotated(steps_clockwise as int),
    {
        let turn = steps_clockwise.checked_rem_euclid(8).unwrap();
        let new_idx = (self.ordinal() + turn as usize) % 8;
        proof {
            assert((self.index() + steps_clockwise) % 8 == (self.index() + turn) % 8)
                by (nonlinear_arith)
                requires
                    turn == steps_clockwise % 8,
            ;
        }
        Self::DIRECTIONS[new_idx]
    }

    /// Flip this direction.
    pub fn flip(self) -> (r: Self)
        ensures
            r == self.rotated(4),
    {
        self.rotate_by(4)
    }

    /// How many eighth turns clockwise from East this direction lies.
    ///
    /// Multiplied by an eighth of a full turn, this is the direction's angle in the
    /// screen convention where 0 points right and angles grow clockwise.
    pub fn eighth_turns_from_east(self) -> (r: u32)
        ensures
            r == (self.index() - 2) % 8,
    {
        ((self.ordinal() + 6) % 8) as u32
    }

    /// Get the deltas a step in this direction would result in,
    /// as an CoordVec.
    pub fn deltas(self) -> (r: CoordVec)
        ensures
            r == self.delta(),
    {
        let (x, y) = match self {
            Direction8::North => (0, -1),
            Direction8::NorthEast => (1, -1),
            Direction8::East => (1, 0),
            Direction8::SouthEast => (1, 1),
            Direction8::South => (0, 1),
            Direction8::SouthWest => (-1, 1),
            Direction8::West => (-1, 0),
            Direction8::NorthWest => (-1, -1),
        };
        CoordVec { x, y }
    }
}

impl From<Direction4> for Direction8 {
    fn from(d4: Direction4) -> (r: Self) {
        match d4 {
            Direction4::North => Direction8::North,
            Direction4::East => Direction8::East,
            Direction4::South => Direction8::South,
            Direction4::West => Direction8::West,
        }
    }
}

impl vstd::std_specs::convert::FromSpecImpl<Direction4> for Direction8 {
    open spec fn obeys_from_spec() -> bool {
        true
    }

    open spec fn from_spec(d4: Direction4) -> Direction8 {
        Direction8::from_dir4(d4)
    }
}

/// Nine-way directions: 8 compass points plus center.
#[derive(Debug, Copy, Clone, PartialEq, Eq, PartialOrd, Ord, Hash, Structural)]
pub enum Direction9 {
    NorthWest,
    North,
    NorthEast,
    West,
    Center,
    East,
    SouthWest,
    South,
    SouthEast,
}

impl Direction9 {
    /// All the directions.
    pub const DIRECTIONS: [Direction9; 9] = [
        Direction9::NorthWest,
        Direction9::North,
        Direction9::NorthEast,
        Direction9::West,
        Direction9::Center,
        Direction9::East,
        Direction9::SouthEast,
        Direction9::South,
        Direction9::SouthWest,
    ];

    /// The eight-way direction this one names, or `None` for `Center`.
    pub open spec fn to_dir8(self) -> Option<Direction8> {
        match self {
            Direction9::NorthWest => Some(Direction8::NorthWest),
            Direction9::North => Some(Direction8::North),
            Direction9::NorthEast => Some(Direction8::NorthEast),
            Direction9::West => Some(Direction8::West),
            Direction9::Center => None,
            Direction9::East => Some(Direction8::East),
            Direction9::SouthWest => Some(Direction8::SouthWest),
            Direction9::South => Some(Direction8::South),
            Direction9::SouthEast => Some(Direction8::SouthEast),
        }
    }

    /// The nine-way direction naming the same compass point as `d`.
    pub open spec fn from_dir8(d: Direction8) -> Direction9 {
        match d {
            Direction8::North => Direction9::North,
            Direction8::NorthEast => Direction9::NorthEast,
            Direction8::East => Direction9::East,
            Direction8::SouthEast => Direction9::SouthEast,
            Direction8::South => Direction9::South,
            Direction8::SouthWest => Direction9::SouthWest,
            Direction8::West => Direction9::West,
            Direction8::NorthWest => Direction9::NorthWest,
        }
    }

    /// This direction turned `steps` eighth turns clockwise; `Center` stays where it is.
    pub open spec fn rotated(self, steps: int) -> Direction9 {
        match self.to_dir8() {
            Some(d) => Direction9::from_dir8(d.rotated(steps)),
            None => self,
        }
    }

    /// The step that moving in this direction makes; zero for `Center`.
    pub open spec fn delta(self) -> CoordVec {
        match self.to_dir8() {
            Some(d) => d.delta(),
            None => CoordVec { x: 0, y: 0 },
        }
    }

    /// Rotate this by the given amount.
    pub fn rotate(self, rot: Rotation) -> (r: Self)
        ensures
            r == self.rotated(rot.steps()),
    {
        self.rotate_by(rot.steps_clockwise())
    }

    /// Get this direction, rotated by this many steps clockwise.
    /// Negative numbers go counter-clockwise.
    pub fn rotate_by(self, steps_clockwise: i32) -> (r: Self)
        ensures
            r == self.rotated(steps_clockwise as int),
    {
        let dir: Result<Direction8, ()> = Direction8::try_from(self);
        match dir {
            Ok(dir) => Direction9::from(dir.rotate_by(steps_clockwise)),
            Err(()) => self,
        }
    }

    /// Flip this direction.
    pub fn flip(self) -> (r: Self)
        ensures
            r == self.rotated(4),
    {
        self.rotate_by(4)
    }

    /// Get the deltas a step in this direction would result in,
    /// as an CoordVec.
    pub fn deltas(self) -> (r: CoordVec)
        ensures
            r == self.delta(),
    {
        let (x, y) = match self {
            Direction9::NorthWest => (-1, -1),
            Direction9::North => (0, -1),
            Direction9::NorthEast => (1, -1),
            Direction9::West => (-1, 0),
            Direction9::Center => (0, 0),
            Direction9::East => (1, 0),
            Direction9::SouthWest => (-1, 1),
            Direction9::South => (0, 1),
            Direction9::SouthEast => (1, 1),
        };
        CoordVec { x, y }
    }
}

impl TryFrom<Direction9> for Direction8 {
    type Error = ();

    fn try_from(value: Direction9) -> (r: Result<Self, Self::Error>) {
        match value {
            Direction9::NorthWest => Ok(Direction8::NorthWest),
            Direction9::North => Ok(Direction8::North),
            Direction9::NorthEast => Ok(Direction8::NorthEast),
            Direction9::West => Ok(Direction8::West),
            Direction9::Center => Err(()),
            Direction9::East => Ok(Direction8::East),
            Direction9::SouthEast => Ok(Direction8::SouthEast),
            Direction9::South => Ok(Direction8::South),
            Direction9::SouthWest => Ok(Direction8::SouthWest),
        }
    }
}

impl vstd::std_specs::convert::TryFromSpecImpl<Direction9> for Direction8 {
    open spec fn obeys_try_from_spec() -> bool {
        true
    }

    open spec fn try_from_spec(value: Direction9) -> Result<Direction8, ()> {
        match value.to_dir8() {
            Some(d) => Ok(d),
            None => Err(()),
        }
    }
}

impl From<Direction8> for Direction9 {
    fn from(dir: Direction8) -> (r: Self) {
        match dir {
            Direction8::North => Direction9::North,
            Direction8::NorthEast => Direction9::NorthEast,
            Direction8::East => Direction9::East,
            Direction8::SouthEast => Direction9::SouthEast,
            Direction8::South => Direction9::South,
            Direction8::SouthWest => Direction9::SouthWest,
            Direction8::West => Direction9::West,
            Direction8::NorthWest => Direction9::NorthWest,
        }
    }
}

impl vstd::std_specs::convert::FromSpecImpl<Direction8> for Direction9 {
    open spec fn obeys_from_spec() -> bool {
        true
    }

    open spec fn from_spec(dir: Direction8) -> Direction9 {
        Direction9::from_dir8(dir)
    }
}

/// 2-way rotations: clockwise or counterclockwise.
/// These don't indicate any specific angle by themselves, only in relation to something.
#[derive(Debug, Copy, Clone, PartialEq, Eq, Hash, Structural)]
pub enum Rotation {
    Clockwise,
    CounterClockwise,
}

impl Rotation {
    /// Signed number of steps clockwise this rotation makes.
    pub open spec fn steps(self) -> int {
        match self {
            Rotation::Clockwise => 1,
            Rotation::CounterClockwise => -1,
        }
    }

    /// Get the number of steps clockwise this does.
    /// - `Clockwise` is 1
    /// - `CounterClockwise` is -1
    pub fn steps_clockwise(&self) -> (r: i32)
        ensures
            r == self.steps(),
    {
        match self {
            Rotation::Clockwise => 1,
            Rotation::CounterClockwise => -1,
        }
    }
}

/// Turning a four-way direction by no steps, or by a full turn of four steps, leaves it unchanged.
pub proof fn lemma_direction4_full_turn(d: Direction4)
    ensures
        d.rotated(0) == d,
        d.rotated(4) == d,
{
}

/// Turning an eight-way direction by no steps, or by a full turn of eight steps, leaves it
/// unchanged.
pub proof fn lemma_direction8_full_turn(d: Direction8)
    ensures
        d.rotated(0) == d,
        d.rotated(8) == d,
{
}

/// Flipping a four-way direction twice gives it back.
pub proof fn lemma_direction4_flip_flip(d: Direction4)
    ensures
        d.rotated(2).rotated(2) == d,
{
}

/// Flipping an eight-way direction twice gives it back.
pub proof fn lemma_direction8_flip_flip(d: Direction8)
    ensures
        d.rotated(4).rotated(4) == d,
{
}

/// Flipping a nine-way direction twice gives it back (`Center` flips to itself).
pub proof fn lemma_direction9_flip_flip(d: Direction9)
    ensures
        d.rotated(4).rotated(4) == d,
{
}

} // verus!
