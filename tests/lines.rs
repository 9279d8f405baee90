use aglet::{Coord, LineEndMode, LineIter};

fn points(mut li: LineIter) -> Vec<(u32, u32)> {
    let mut out = Vec::new();
    while let Some(c) = li.next() {
        out.push((c.x, c.y));
    }
    out
}

fn take_points(mut li: LineIter, n: usize) -> Vec<Coord> {
    let mut out = Vec::new();
    while out.len() < n {
        match li.next() {
            Some(c) => out.push(c),
            None => break,
        }
    }
    out
}

#[test]
fn test_wp_example() {
    let li = LineIter::new(Coord::new(0, 1), Coord::new(6, 4));
    let res: Vec<_> = points(li);

    assert_eq!(res, [(0, 1), (1, 1), (2, 2), (3, 2), (4, 3), (5, 3)]);
}

#[test]
fn test_inverse_wp() {
    let li = LineIter::new(Coord::new(6, 4), Coord::new(0, 1));
    let res: Vec<_> = points(li);

    assert_eq!(res, [(6, 4), (5, 4), (4, 3), (3, 3), (2, 2), (1, 2)])
}

#[test]
fn test_straight_hline() {
    let li = LineIter::new(Coord::new(2, 3), Coord::new(5, 3));
    let res: Vec<_> = points(li);

    assert_eq!(res, [(2, 3), (3, 3), (4, 3)]);
}

#[test]
fn test_straight_vline() {
    let li = LineIter::new(Coord::new(2, 3), Coord::new(2, 6));
    let res: Vec<_> = points(li);

    assert_eq!(res, [(2, 3), (2, 4), (2, 5)]);
}

#[test]
fn test_endmode_stop_at() {
    let li = LineIter::new_with_end_mode(Coord::new(0, 1), Coord::new(6, 4), LineEndMode::StopAt);
    let res: Vec<_> = points(li);
    assert_eq!(res, [(0, 1), (1, 1), (2, 2), (3, 2), (4, 3), (5, 3), (6, 4)]);

    let li = LineIter::new_with_end_mode(Coord::new(6, 4), Coord::new(0, 1), LineEndMode::StopAt);
    let res: Vec<_> = points(li);
    assert_eq!(res, [(6, 4), (5, 4), (4, 3), (3, 3), (2, 2), (1, 2), (0, 1)]);

    let li = LineIter::new_with_end_mode(Coord::new(2, 3), Coord::new(5, 3), LineEndMode::StopAt);
    let res: Vec<_> = points(li);
    assert_eq!(res, [(2, 3), (3, 3), (4, 3), (5, 3)]);

    let li = LineIter::new_with_end_mode(Coord::new(2, 3), Coord::new(2, 6), LineEndMode::StopAt);
    let res: Vec<_> = points(li);
    assert_eq!(res, [(2, 3), (2, 4), (2, 5), (2, 6)]);
}

#[test]
fn test_endmode_stop_never() {
    let li = LineIter::new_with_end_mode(Coord::new(0, 1), Coord::new(2, 2), LineEndMode::Never);
    let res: Vec<_> = take_points(li, 7).into_iter().map(|c| (c.x, c.y)).collect();
    assert_eq!(res, [(0, 1), (1, 1), (2, 2), (3, 2), (4, 3), (5, 3), (6, 4)]);
}

#[test]
fn test_why_isnt_foxfire_working() {
    let li = LineIter::new_with_end_mode(
        Coord::new(31 * 72 + 32, 31 * 24 + 15),
        Coord::new(31 * 72 + 36, 31 * 24 + 14),
        LineEndMode::Never,
    );
    let res: Vec<_> = take_points(li, 10);
    println!("{:?}", res);
}

#[test]
fn default_end_mode_stops_before() {
    assert!(matches!(LineEndMode::default(), LineEndMode::StopBefore));
}

#[test]
fn zero_length_lines() {
    let p = Coord::new(3, 3);
    assert!(points(LineIter::new(p, p)).is_empty());
    assert_eq!(points(LineIter::new_with_end_mode(p, p, LineEndMode::StopAt)), [(3, 3)]);
    let never = take_points(LineIter::new_with_end_mode(p, p, LineEndMode::Never), 3);
    assert_eq!(never, [Coord::new(3, 3), Coord::new(4, 4), Coord::new(5, 5)]);
}

#[test]
fn steep_and_diagonal_lines() {
    assert_eq!(
        points(LineIter::new_with_end_mode(Coord::new(1, 0), Coord::new(3, 5), LineEndMode::StopAt)),
        [(1, 0), (1, 1), (1, 2), (2, 3), (2, 4), (3, 5)]
    );
    assert_eq!(
        points(LineIter::new_with_end_mode(Coord::new(4, 4), Coord::new(1, 1), LineEndMode::StopAt)),
        [(4, 4), (3, 3), (2, 2), (1, 1)]
    );
    assert_eq!(
        points(LineIter::new_with_end_mode(Coord::new(0, 3), Coord::new(3, 0), LineEndMode::StopAt)),
        [(0, 3), (1, 2), (2, 1), (3, 0)]
    );
}

#[test]
fn never_stops_at_the_edge_of_the_coordinate_range() {
    let li = LineIter::new_with_end_mode(Coord::new(2, 0), Coord::new(0, 0), LineEndMode::Never);
    assert_eq!(points(li), [(2, 0), (1, 0), (0, 0)]);
    let li = LineIter::new_with_end_mode(
        Coord::new(u32::MAX - 1, 5),
        Coord::new(u32::MAX, 5),
        LineEndMode::Never,
    );
    assert_eq!(points(li), [(u32::MAX - 1, 5), (u32::MAX, 5)]);
}

#[test]
fn lines_across_the_whole_range() {
    let mut li = LineIter::new_with_end_mode(
        Coord::new(0, 0),
        Coord::new(u32::MAX, u32::MAX / 2),
        LineEndMode::StopAt,
    );
    assert_eq!(li.next(), Some(Coord::new(0, 0)));
    assert_eq!(li.next(), Some(Coord::new(1, 0)));
    assert_eq!(li.next(), Some(Coord::new(2, 0)));
    assert_eq!(li.next(), Some(Coord::new(3, 1)));
}
