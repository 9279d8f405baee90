use aglet::{Coord, CoordVec, Direction4, Direction8};

fn pairs(v: &[Coord]) -> Vec<(u32, u32)> {
    v.iter().map(|c| (c.x, c.y)).collect()
}

#[test]
fn round_trip_through_vector() {
    for c in [Coord::new(0, 0), Coord::new(5, 9), Coord::new(i32::MAX as u32, 1)] {
        assert_eq!(CoordVec::from(c).to_coord(), Some(c));
        assert_eq!(c.to_icoord().to_coord(), Some(c));
    }
}

#[test]
fn negative_vectors_are_not_coords() {
    assert_eq!(CoordVec::new(-1, 0).to_coord(), None);
    assert_eq!(CoordVec::new(0, -1).to_coord(), None);
    assert!(Coord::try_from(CoordVec::new(3, -2)).is_err());
    assert_eq!(Coord::try_from(CoordVec::new(3, 2)), Ok(Coord::new(3, 2)));
}

#[test]
fn flat_index() {
    assert_eq!(Coord::new(3, 2).to_2d_idx(10), 23);
    assert_eq!(Coord::new(0, 0).to_2d_idx(10), 0);
}

#[test]
fn neighbors_near_the_origin() {
    assert_eq!(pairs(&Coord::new(0, 0).neighbors4()), [(1, 0), (0, 1)]);
    assert_eq!(pairs(&Coord::new(3, 0).neighbors4()), [(4, 0), (3, 1), (2, 0)]);
    assert_eq!(pairs(&Coord::new(3, 3).neighbors4()), [(3, 2), (4, 3), (3, 4), (2, 3)]);
    assert_eq!(pairs(&Coord::new(0, 0).neighbors8()), [(1, 0), (1, 1), (0, 1)]);
    assert_eq!(Coord::new(0, 4).neighbors8().len(), 5);
    assert_eq!(
        pairs(&Coord::new(2, 2).neighbors8()),
        [(2, 1), (3, 1), (3, 2), (3, 3), (2, 3), (1, 3), (1, 2), (1, 1)]
    );
}

#[test]
fn neighbors_at_the_far_edge() {
    assert_eq!(
        pairs(&Coord::new(u32::MAX, u32::MAX).neighbors4()),
        [(u32::MAX, u32::MAX - 1), (u32::MAX - 1, u32::MAX)]
    );
}

#[test]
fn vector_neighbors() {
    let v = CoordVec::new(0, 0);
    let n4 = v.neighbors4();
    assert_eq!(n4, [
        CoordVec::new(0, -1),
        CoordVec::new(1, 0),
        CoordVec::new(0, 1),
        CoordVec::new(-1, 0),
    ]);
    let n8 = v.neighbors8();
    assert_eq!(n8[1], CoordVec::new(1, -1));
    assert_eq!(n8[7], CoordVec::new(-1, -1));
}

#[test]
fn quadrants() {
    assert_eq!(CoordVec::new(0, 0).quadrant(), 1);
    assert_eq!(CoordVec::new(-1, 3).quadrant(), 2);
    assert_eq!(CoordVec::new(-1, -3).quadrant(), 3);
    assert_eq!(CoordVec::new(1, -3).quadrant(), 4);
}

#[test]
fn arithmetic() {
    assert_eq!(Coord::new(1, 2) + Coord::new(3, 4), Coord::new(4, 6));
    assert_eq!(Coord::new(5, 6) - Coord::new(3, 4), Coord::new(2, 2));
    assert_eq!(Coord::new(2, 3) * 4, Coord::new(8, 12));
    assert_eq!(Coord::new(2, 3) * Coord::new(5, 7), Coord::new(10, 21));
    assert_eq!(CoordVec::new(1, 2) + CoordVec::new(-3, 4), CoordVec::new(-2, 6));
    assert_eq!(CoordVec::new(1, 2) - CoordVec::new(3, 4), CoordVec::new(-2, -2));
    assert_eq!(CoordVec::new(1, -2) * -3, CoordVec::new(-3, 6));
    assert_eq!(CoordVec::new(1, 1) + Direction4::North, CoordVec::new(1, 0));
    assert_eq!(CoordVec::new(1, 1) + Direction8::SouthWest, CoordVec::new(0, 2));
}
