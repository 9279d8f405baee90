use std::collections::HashSet;

use aglet::{Area, Coord, Edges};

fn area_points(area: Area) -> Vec<Coord> {
    let mut it = area.into_iter();
    let mut out = Vec::new();
    while let Some(c) = it.next() {
        out.push(c);
    }
    out
}

fn edge_points(edges: Edges) -> Vec<(u32, u32)> {
    let mut it = edges.into_iter();
    let mut out = Vec::new();
    while let Some(c) = it.next() {
        out.push((c.x, c.y));
    }
    out
}

#[test]
fn areas() {
    let area = Area::new(Coord::new(0, 0), 5, 5);
    let area_vec: Vec<_> = area_points(area);
    let area_set: HashSet<_> = area_points(area).into_iter().collect();
    assert_eq!(area_vec.len(), 25);
    assert_eq!(area_set.len(), 25);
}

#[test]
fn edges() {
    let edges = edge_points(Edges::new(Coord::new(0, 0), 5, 4));
    assert_eq!(
        edges,
        [
            (0, 0),
            (1, 0),
            (2, 0),
            (3, 0),
            (4, 0),
            (4, 1),
            (4, 2),
            (4, 3),
            (3, 3),
            (2, 3),
            (1, 3),
            (0, 3),
            (0, 2),
            (0, 1)
        ]
    );

    let edges = edge_points(Edges::new(Coord::new(7, 11), 3, 4));
    assert_eq!(
        edges,
        [
            (7, 11),
            (8, 11),
            (9, 11),
            (9, 12),
            (9, 13),
            (9, 14),
            (8, 14),
            (7, 14),
            (7, 13),
            (7, 12)
        ]
    );

    let edges = edge_points(Edges::new(Coord::new(0, 0), 2, 6));
    assert_eq!(
        edges,
        [
            (0, 0),
            (1, 0),
            (1, 1),
            (1, 2),
            (1, 3),
            (1, 4),
            (1, 5),
            (0, 5),
            (0, 4),
            (0, 3),
            (0, 2),
            (0, 1)
        ]
    );
}

#[test]
fn area_with_offset_corner_covers_rectangle() {
    let corner = Coord::new(3, 7);
    let points = area_points(Area::new(corner, 5, 5));
    assert_eq!(points.len(), 25);
    let set: HashSet<_> = points.iter().copied().collect();
    assert_eq!(set.len(), 25);
    for x in 3..8 {
        for y in 7..12 {
            assert!(set.contains(&Coord::new(x, y)));
        }
    }
    assert_eq!(points[0], corner);
    assert_eq!(points[1], Coord::new(4, 7));
    assert_eq!(points[5], Coord::new(3, 8));
    assert_eq!(points[24], Coord::new(7, 11));
}

#[test]
fn area_len_counts_down() {
    let mut it = Coord::new(1, 1).area(3, 2).into_iter();
    assert_eq!(it.len(), 6);
    it.next();
    it.next();
    assert_eq!(it.len(), 4);
    while it.next().is_some() {}
    assert_eq!(it.len(), 0);
    assert_eq!(it.next(), None);
}

#[test]
fn empty_areas() {
    assert!(area_points(Area::new(Coord::new(2, 2), 0, 5)).is_empty());
    assert!(area_points(Area::new(Coord::new(2, 2), 5, 0)).is_empty());
    assert!(edge_points(Edges::new(Coord::new(2, 2), 0, 5)).is_empty());
}

#[test]
fn area_at_the_far_corner() {
    let points = area_points(Area::new(Coord::new(u32::MAX - 1, u32::MAX), 2, 1));
    assert_eq!(points, [Coord::new(u32::MAX - 1, u32::MAX), Coord::new(u32::MAX, u32::MAX)]);
}

#[test]
fn thin_edges_are_lines() {
    assert_eq!(edge_points(Edges::new(Coord::new(4, 4), 1, 1)), [(4, 4)]);
    assert_eq!(edge_points(Edges::new(Coord::new(0, 0), 3, 1)), [(0, 0), (1, 0), (2, 0)]);
    assert_eq!(edge_points(Edges::new(Coord::new(0, 0), 1, 3)), [(0, 0), (0, 1), (0, 2)]);
}

#[test]
fn edges_len_matches_perimeter() {
    let mut it = Edges::new(Coord::new(0, 0), 5, 4).into_iter();
    assert_eq!(it.len(), 2 * 5 + 2 * 4 - 4);
    it.next();
    assert_eq!(it.len(), 13);
    assert_eq!(Edges::new(Coord::new(0, 0), 2, 2).into_iter().len(), 4);
    assert_eq!(Edges::new(Coord::new(0, 0), 1, 7).into_iter().len(), 7);
}
