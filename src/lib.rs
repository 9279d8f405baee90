//! Geometric primitives for discrete 2D grids: unsigned coordinates, signed
//! vectors, compass directions, rectangular areas and their edges, a dense
//! grid container, and line rasterization.
mod area;
mod direction;
mod grid;
mod lines;

pub use area::{lemma_area_points, lemma_edges_points, Area, AreaIter, Edges, EdgesIter};
pub use direction::{
    lemma_direction4_flip_flip, lemma_direction4_full_turn, lemma_direction8_flip_flip,
    lemma_direction8_full_turn, lemma_direction9_flip_flip, Direction4, Direction8, Direction9,
    Rotation,
};
pub use grid::{
    coord_of_index, lemma_grid_insert_get, Grid, GridIntoIter, GridIter, GridIterMut,
};
pub use lines::{
    from_octant0, lemma_line_reaches_end, line_coord, line_octant, line_point,
    line_point_in_range, line_run_rise, line_yields, octant_of, rise_after, to_octant0,
    within_end, LineEndMode, LineIter,
};

use std::num::TryFromIntError;
use std::ops::{Add, Mul, Sub};
use vstd::prelude::*;
use vstd::std_specs::convert::{FromSpecImpl, TryFromSpecImpl};
use vstd::std_specs::ops::{AddSpecImpl, MulSpecImpl, SubSpecImpl};

verus! {

/// Unsigned-int coordinates.
///
/// The origin is the top-left corner; `x` grows to the right and `y` grows downward.
#[derive(Debug, Copy, Clone, PartialEq, Eq, Hash, Structural)]
pub struct Coord {
    pub x: u32,
    pub y: u32,
}

/// Signed-int coordinates: a displacement, or a position that may lie outside the grid.
#[derive(Debug, Copy, Clone, PartialEq, Eq, Hash, Structural)]
pub struct CoordVec {
    pub x: i32,
    pub y: i32,
}

/// The coordinate `c` moved by `d`, if it stays within the range of `Coord`.
pub open spec fn offset_coord(c: Coord, d: CoordVec) -> Option<Coord> {
    let x = c.x + d.x;
    let y = c.y + d.y;
    if 0 <= x <= u32::MAX && 0 <= y <= u32::MAX {
        Some(Coord { x: x as u32, y: y as u32 })
    } else {
        None
    }
}

/// The coordinates held in `s`, in order, with the empty slots left out.
pub open spec fn present_coords(s: Seq<Option<Coord>>) -> Seq<Coord>
    decreases s.len(),
{
    if s.len() == 0 {
        seq![]
    } else {
        let rest = present_coords(s.drop_last());
        match s.last() {
            Some(c) => rest.push(c),
            None => rest,
        }
    }
}

/// Each of the four-way directions, in clockwise order from North, applied to `c`.
pub open spec fn neighbor4_candidates(c: Coord) -> Seq<Option<Coord>> {
    Seq::new(4, |i: int| offset_coord(c, Direction4::from_index(i).delta()))
}

/// Each of the eight-way directions, in clockwise order from North, applied to `c`.
pub open spec fn neighbor8_candidates(c: Coord) -> Seq<Option<Coord>> {
    Seq::new(8, |i: int| offset_coord(c, Direction8::from_index(i).delta()))
}

impl Coord {
    /// The same position as a signed vector; components above `i32::MAX` wrap around.
    pub open spec fn as_vec(self) -> CoordVec {
        CoordVec { x: self.x as i32, y: self.y as i32 }
    }

    /// The area `width` wide and `height` tall whose top-left cell is this coordinate.
    pub fn area(self, width: u32, height: u32) -> (r: Area)
        ensures
            r.corner == self,
            r.width == width,
            r.height == height,
    {
        Area::new(self, width, height)
    }

    /// Make a new coord.
    pub fn new(x: u32, y: u32) -> (r: Self)
        ensures
            r.x == x,
            r.y == y,
    {
        Self { x, y }
    }

    /// Get this as an index into an array representing a 2d array.
    ///
    /// (AKA, `y * width + x`.)
    pub fn to_2d_idx(self, width: u32) -> (r: u32)
        requires
            self.y * width + self.x <= u32::MAX,
        ensures
            r == self.y * width + self.x,
    {
        self.y * width + self.x
    }

    /// Convert this into a signed vector.
    pub fn to_icoord(self) -> (r: CoordVec)
        ensures
            r == self.as_vec(),
    {
        CoordVec::from(self)
    }

    /// This coordinate moved by `d`, or `None` where that leaves the range of `Coord`.
    fn checked_offset(self, d: CoordVec) -> (r: Option<Coord>)
        ensures
            r == offset_coord(self, d),
    {
        let x = self.x as i64 + d.x as i64;
        let y = self.y as i64 + d.y as i64;
        if 0 <= x && x <= u32::MAX as i64 && 0 <= y && y <= u32::MAX as i64 {
            Some(Coord { x: x as u32, y: y as u32 })
        } else {
            None
        }
    }

    /// Get a list of this coordinate's orthogonal neighbors.
    /// They are given in clockwise order starting with the neighbor to the north,
    /// as if each of [`Direction4::DIRECTIONS`] had been added to them.
    ///
    /// If a neighbor is out of bounds, it is skipped in the output.
    ///
    /// There may be 2, 3, or 4 neighbors:
    /// - 2 if this is at `(0, 0)`
    /// - 3 if this is on an edge (`x` or `y` are 0)
    /// - 4 otherwise.
    pub fn neighbors4(self) -> (r: Vec<Coord>)
        ensures
            r@ == present_coords(neighbor4_candidates(self)),
    {
        let mut out: Vec<Coord> = Vec::new();
        let mut i: usize = 0;
        while i < 4
            invariant
                i <= 4,
                out@ == present_coords(neighbor4_candidates(self).take(i as int)),
            decreases 4 - i,
        {
            let dir = Direction4::DIRECTIONS[i];
            assert(dir == Direction4::from_index(i as int));
            if let Some(c) = self.checked_offset(dir.deltas()) {
                out.push(c);
            }
            assert(neighbor4_candidates(self).take(i + 1).drop_last()
                =~= neighbor4_candidates(self).take(i as int));
            i += 1;
        }
        assert(neighbor4_candidates(self).take(4) =~= neighbor4_candidates(self));
        out
    }

    /// Get a list of this coordinate's orthogonal and diagonal neighbors.
    /// They are given in clockwise order starting with the neighbor to the north,
    /// as if each of [`Direction8::DIRECTIONS`] had been added to them.
    ///
    /// If a neighbor is out of bounds, it is skipped in the output.
    ///
    /// There may be 3, 5, or 8 neighbors:
    /// - 3 if this is at `(0, 0)`
    /// - 5 if this is on an edge (`x` or `y` are 0)
    /// - 8 otherwise.
    pub fn neighbors8(self) -> (r: Vec<Coord>)
        ensures
            r@ == present_coords(neighbor8_candidates(self)),
    {
        let mut out: Vec<Coord> = Vec::new();
        let mut i: usize = 0;
        while i < 8
            invariant
                i <= 8,
                out@ == present_coords(neighbor8_candidates(self).take(i as int)),
            decreases 8 - i,
        {
            let dir = Direction8::DIRECTIONS[i];
            assert(dir == Direction8::from_index(i as int));
            if let Some(c) = self.checked_offset(dir.deltas()) {
                out.push(c);
            }
            assert(neighbor8_candidates(self).take(i + 1).drop_last()
                =~= neighbor8_candidates(self).take(i as int));
            i += 1;
        }
        assert(neighbor8_candidates(self).take(8) =~= neighbor8_candidates(self));
        out
    }
}

impl Add for Coord {
    type Output = Self;

    fn add(self, rhs: Self) -> (r: Self::Output) {
        Self { x: self.x + rhs.x, y: self.y + rhs.y }
    }
}

impl AddSpecImpl for Coord {
    open spec fn obeys_add_spec() -> bool {
        true
    }

    open spec fn add_req(self, rhs: Self) -> bool {
        self.x + rhs.x <= u32::MAX && self.y + rhs.y <= u32::MAX
    }

    open spec fn add_spec(self, rhs: Self) -> Self {
        Coord { x: (self.x + rhs.x) as u32, y: (self.y + rhs.y) as u32 }
    }
}

impl Sub for Coord {
    type Output = Self;

    fn sub(self, rhs: Self) -> (r: Self::Output) {
        Self { x: self.x - rhs.x, y: self.y - rhs.y }
    }
}

impl SubSpecImpl for Coord {
    open spec fn obeys_sub_spec() -> bool {
        true
    }

    open spec fn sub_req(self, rhs: Self) -> bool {
        self.x >= rhs.x && self.y >= rhs.y
    }

    open spec fn sub_spec(self, rhs: Self) -> Self {
        Coord { x: (self.x - rhs.x) as u32, y: (self.y - rhs.y) as u32 }
    }
}

impl Mul<u32> for Coord {
    type Output = Self;

    fn mul(self, rhs: u32) -> (r: Self::Output) {
        Self { x: self.x * rhs, y: self.y * rhs }
    }
}

impl MulSpecImpl<u32> for Coord {
    open spec fn obeys_mul_spec() -> bool {
        true
    }

    open spec fn mul_req(self, rhs: u32) -> bool {
        self.x * rhs <= u32::MAX && self.y * rhs <= u32::MAX
    }

    open spec fn mul_spec(self, rhs: u32) -> Self {
        Coord { x: (self.x * rhs) as u32, y: (self.y * rhs) as u32 }
    }
}

impl Mul<Coord> for Coord {
    type Output = Self;

    fn mul(self, rhs: Coord) -> (r: Self::Output) {
        Self { x: self.x * rhs.x, y: self.y * rhs.y }
    }
}

impl MulSpecImpl<Coord> for Coord {
    open spec fn obeys_mul_spec() -> bool {
        true
    }

    open spec fn mul_req(self, rhs: Coord) -> bool {
        self.x * rhs.x <= u32::MAX && self.y * rhs.y <= u32::MAX
    }

    open spec fn mul_spec(self, rhs: Coord) -> Self {
        Coord { x: (self.x * rhs.x) as u32, y: (self.y * rhs.y) as u32 }
    }
}

/// Try to convert a vector to a Coord.
/// Fails if the vector has a negative component.
impl TryFrom<CoordVec> for Coord {
    type Error = TryFromIntError;

    fn try_from(value: CoordVec) -> (r: Result<Self, Self::Error>) {
        let x = match u32::try_from(value.x) {
            Ok(x) => x,
            Err(e) => return Err(e),
        };
        let y = match u32::try_from(value.y) {
            Ok(y) => y,
            Err(e) => return Err(e),
        };
        Ok(Self { x, y })
    }
}

impl TryFromSpecImpl<CoordVec> for Coord {
    open spec fn obeys_try_from_spec() -> bool {
        true
    }

    open spec fn try_from_spec(value: CoordVec) -> Result<Coord, TryFromIntError> {
        if value.x >= 0 && value.y >= 0 {
            Ok(Coord { x: value.x as u32, y: value.y as u32 })
        } else {
            Err(arbitrary())
        }
    }
}

impl CoordVec {
    /// The coordinate at this position, or `None` where a component is negative.
    pub open spec fn as_coord(self) -> Option<Coord> {
        if self.x >= 0 && self.y >= 0 {
            Some(Coord { x: self.x as u32, y: self.y as u32 })
        } else {
            None
        }
    }

    /// Component-wise sum, wrapping where it leaves the range of `i32`.
    pub open spec fn plus(self, d: CoordVec) -> CoordVec {
        CoordVec { x: (self.x + d.x) as i32, y: (self.y + d.y) as i32 }
    }

    /// Whether the component-wise sum with `d` stays within the range of `i32`.
    pub open spec fn sum_fits(self, d: CoordVec) -> bool {
        i32::MIN <= self.x + d.x <= i32::MAX && i32::MIN <= self.y + d.y <= i32::MAX
    }

    /// Whether a unit step in any direction from here stays within the range of `i32`.
    pub open spec fn steps_fit(self) -> bool {
        i32::MIN < self.x < i32::MAX && i32::MIN < self.y < i32::MAX
    }

    /// Create a new vector.
    pub fn new(x: i32, y: i32) -> (r: Self)
        ensures
            r.x == x,
            r.y == y,
    {
        Self { x, y }
    }

    /// Return the quadrant this coordinate is in.
    ///
    /// - 1: +X, +Y
    /// - 2: -X, +Y
    /// - 3: -X, -Y
    /// - 4: +X, -Y
    ///
    /// Zeroes are treated as positive.
    pub fn quadrant(self) -> (r: u32)
        ensures
            r == (if self.x >= 0 {
                if self.y >= 0 { 1int } else { 4 }
            } else {
                if self.y >= 0 { 2int } else { 3 }
            }),
    {
        match (self.x >= 0, self.y >= 0) {
            (true, true) => 1,
            (false, true) => 2,
            (false, false) => 3,
            (true, false) => 4,
        }
    }

    /// Try to convert this to a Coord.
    /// Returns `None` in case any part is negative.
    pub fn to_coord(self) -> (r: Option<Coord>)
        ensures
            r == self.as_coord(),
    {
        match Coord::try_from(self) {
            Ok(c) => Some(c),
            Err(_) => None,
        }
    }

    /// Get a list of this coordinate's orthogonal neighbors.
    /// They are given in clockwise order starting with the neighbor to the north,
    /// as if each of [`Direction4::DIRECTIONS`] had been added to them.
    pub fn neighbors4(self) -> (r: [CoordVec; 4])
        requires
            self.steps_fit(),
        ensures
            forall|i: int| 0 <= i < 4 ==> r@[i] == self.plus(Direction4::from_index(i).delta()),
    {
        [
            self + Direction4::North,
            self + Direction4::East,
            self + Direction4::South,
            self + Direction4::West,
        ]
    }

    /// Get a list of this coordinate's orthogonal and diagonal neighbors.
    /// They are given in clockwise order starting with the neighbor to the north,
    /// as if each of [`Direction8::DIRECTIONS`] had been added to them.
    pub fn neighbors8(self) -> (r: [CoordVec; 8])
        requires
            self.steps_fit(),
        ensures
            forall|i: int| 0 <= i < 8 ==> r@[i] == self.plus(Direction8::from_index(i).delta()),
    {
        [
            self + Direction8::North,
            self + Direction8::NorthEast,
            self + Direction8::East,
            self + Direction8::SouthEast,
            self + Direction8::South,
            self + Direction8::SouthWest,
            self + Direction8::West,
            self + Direction8::NorthWest,
        ]
    }
}

impl Add for CoordVec {
    type Output = Self;

    fn add(self, rhs: Self) -> (r: Self::Output) {
        Self { x: self.x + rhs.x, y: self.y + rhs.y }
    }
}

impl AddSpecImpl for CoordVec {
    open spec fn obeys_add_spec() -> bool {
        true
    }

    open spec fn add_req(self, rhs: Self) -> bool {
        self.sum_fits(rhs)
    }

    open spec fn add_spec(self, rhs: Self) -> Self {
        self.plus(rhs)
    }
}

impl Sub for CoordVec {
    type Output = Self;

    fn sub(self, rhs: Self) -> (r: Self::Output) {
        Self { x: self.x - rhs.x, y: self.y - rhs.y }
    }
}

impl SubSpecImpl for CoordVec {
    open spec fn obeys_sub_spec() -> bool {
        true
    }

    open spec fn sub_req(self, rhs: Self) -> bool {
        i32::MIN <= self.x - rhs.x <= i32::MAX && i32::MIN <= self.y - rhs.y <= i32::MAX
    }

    open spec fn sub_spec(self, rhs: Self) -> Self {
        CoordVec { x: (self.x - rhs.x) as i32, y: (self.y - rhs.y) as i32 }
    }
}

impl Add<Direction4> for CoordVec {
    type Output = Self;

    fn add(self, rhs: Direction4) -> (r: Self::Output) {
        self + rhs.deltas()
    }
}

impl AddSpecImpl<Direction4> for CoordVec {
    open spec fn obeys_add_spec() -> bool {
        true
    }

    open spec fn add_req(self, rhs: Direction4) -> bool {
        self.sum_fits(rhs.delta())
    }

    open spec fn add_spec(self, rhs: Direction4) -> Self {
        self.plus(rhs.delta())
    }
}

impl Add<Direction8> for CoordVec {
    type Output = Self;

    fn add(self, rhs: Direction8) -> (r: Self::Output) {
        self + rhs.deltas()
    }
}

impl AddSpecImpl<Direction8> for CoordVec {
    open spec fn obeys_add_spec() -> bool {
        true
    }

    open spec fn add_req(self, rhs: Direction8) -> bool {
        self.sum_fits(rhs.delta())
    }

    open spec fn add_spec(self, rhs: Direction8) -> Self {
        self.plus(rhs.delta())
    }
}

impl Mul<i32> for CoordVec {
    type Output = Self;

    fn mul(self, rhs: i32) -> (r: Self::Output) {
        Self { x: self.x * rhs, y: self.y * rhs }
    }
}

impl MulSpecImpl<i32> for CoordVec {
    open spec fn obeys_mul_spec() -> bool {
        true
    }

    open spec fn mul_req(self, rhs: i32) -> bool {
        i32::MIN <= self.x * rhs <= i32::MAX && i32::MIN <= self.y * rhs <= i32::MAX
    }

    open spec fn mul_spec(self, rhs: i32) -> Self {
        CoordVec { x: (self.x * rhs) as i32, y: (self.y * rhs) as i32 }
    }
}

impl From<Coord> for CoordVec {
    fn from(value: Coord) -> (r: Self) {
        Self { x: value.x as i32, y: value.y as i32 }
    }
}

impl FromSpecImpl<Coord> for CoordVec {
    open spec fn obeys_from_spec() -> bool {
        true
    }

    open spec fn from_spec(value: Coord) -> CoordVec {
        value.as_vec()
    }
}

/// A coordinate whose components fit in `i32` comes back unchanged from a round trip through
/// a vector.
pub proof fn lemma_coord_vec_round_trip(c: Coord)
    requires
        c.x <= i32::MAX,
        c.y <= i32::MAX,
    ensures
        c.as_vec().as_coord() == Some(c),
{
}

} // verus!
