use aglet::{Coord, Grid};

#[test]
fn new_grid_is_empty() {
    let g: Grid<u8> = Grid::new(3, 2);
    assert_eq!(g.width(), 3);
    assert_eq!(g.height(), 2);
    for x in 0..4 {
        for y in 0..3 {
            assert!(!g.contains(Coord::new(x, y)));
            assert_eq!(g.get(Coord::new(x, y)), None);
        }
    }
}

#[test]
fn insert_then_get() {
    let mut g: Grid<String> = Grid::new(3, 2);
    assert_eq!(g.insert(Coord::new(2, 1), "a".to_string()), None);
    assert!(g.contains(Coord::new(2, 1)));
    assert_eq!(g.get(Coord::new(2, 1)), Some(&"a".to_string()));
    assert_eq!(g.insert(Coord::new(2, 1), "b".to_string()), Some("a".to_string()));
    assert_eq!(g.get(Coord::new(2, 1)), Some(&"b".to_string()));
    assert!(!g.contains(Coord::new(1, 2)));
}

#[test]
fn insert_out_of_range_is_a_no_op() {
    let mut g: Grid<u8> = Grid::new(3, 2);
    assert_eq!(g.insert(Coord::new(3, 0), 1), None);
    assert_eq!(g.insert(Coord::new(0, 2), 1), None);
    assert!(!g.contains(Coord::new(3, 0)));
    assert_eq!(g.iter().next(), None);
}

#[test]
fn get_mut_changes_the_value() {
    let mut g: Grid<u32> = Grid::new(2, 2);
    assert!(g.get_mut(Coord::new(0, 0)).is_none());
    g.insert(Coord::new(1, 1), 5);
    *g.get_mut(Coord::new(1, 1)).unwrap() += 1;
    assert_eq!(g.get(Coord::new(1, 1)), Some(&6));
}

#[test]
fn get_or_insert_variants() {
    let mut g: Grid<u32> = Grid::new(2, 2);
    *g.get_or_insert(Coord::new(0, 1), 7) += 1;
    assert_eq!(g.get(Coord::new(0, 1)), Some(&8));
    assert_eq!(*g.get_or_insert(Coord::new(0, 1), 100), 8);
    assert_eq!(*g.get_or_insert_with(Coord::new(1, 0), || 3), 3);
    assert_eq!(*g.get_or_insert_with(Coord::new(1, 0), || 99), 3);
}

#[test]
fn iteration_is_row_major_over_filled_slots() {
    let mut g: Grid<char> = Grid::new(3, 3);
    g.insert(Coord::new(2, 2), 'c');
    g.insert(Coord::new(0, 1), 'b');
    g.insert(Coord::new(1, 0), 'a');
    let mut it = g.iter();
    let mut seen = Vec::new();
    while let Some((c, v)) = it.next() {
        seen.push((c.x, c.y, *v));
    }
    assert_eq!(seen, [(1, 0, 'a'), (0, 1, 'b'), (2, 2, 'c')]);

    let mut owned = g.clone().into_iter();
    let mut taken = Vec::new();
    while let Some((c, v)) = owned.next() {
        taken.push((c.x, c.y, v));
    }
    assert_eq!(taken, [(1, 0, 'a'), (0, 1, 'b'), (2, 2, 'c')]);
    assert!(owned.next().is_none());
}

#[test]
fn iter_mut_updates_in_place() {
    let mut g: Grid<u32> = Grid::new(3, 2);
    g.insert(Coord::new(2, 0), 10);
    g.insert(Coord::new(0, 1), 20);
    let mut it = g.iter_mut();
    let mut seen = Vec::new();
    while let Some((c, v)) = it.next() {
        seen.push((c.x, c.y, *v));
        *v += 1;
    }
    assert_eq!(seen, [(2, 0, 10), (0, 1, 20)]);
    assert_eq!(g.get(Coord::new(2, 0)), Some(&11));
    assert_eq!(g.get(Coord::new(0, 1)), Some(&21));
}
