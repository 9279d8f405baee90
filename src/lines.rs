use crate::Coord;
use vstd::arithmetic::div_mod::{
    lemma_fundamental_div_mod, lemma_fundamental_div_mod_converse, lemma_mod_pos_bound,
};
use vstd::prelude::*;

verus! {

/// Which of the eight octants around the origin the displacement `(dx, dy)` points into.
///
/// The code is built from three choices: whether `dy` is negative (the displacement is first
/// turned by half a turn), whether `dx` is then negative (it is then turned by a quarter turn),
/// and whether the result is steeper than a diagonal.
pub open spec fn octant_of(dx: int, dy: int) -> int {
    let (dx1, dy1, o1) = if dy < 0 {
        (-dx, -dy, 4int)
    } else {
        (dx, dy, 0int)
    };
    let (dx2, dy2, o2) = if dx1 < 0 {
        (dy1, -dx1, o1 + 2)
    } else {
        (dx1, dy1, o1)
    };
    if dx2 < dy2 {
        o2 + 1
    } else {
        o2
    }
}

/// The map that carries octant `o` onto octant 0 (where `x >= y >= 0`), applied to `(x, y)`.
pub open spec fn to_octant0(o: int, x: int, y: int) -> (int, int) {
    if o == 0 {
        (x, y)
    } else if o == 1 {
        (y, x)
    } else if o == 2 {
        (y, -x)
    } else if o == 3 {
        (-x, y)
    } else if o == 4 {
        (-x, -y)
    } else if o == 5 {
        (-y, -x)
    } else if o == 6 {
        (-y, x)
    } else {
        (x, -y)
    }
}

/// The inverse of [`to_octant0`]: carries octant 0 back onto octant `o`.
pub open spec fn from_octant0(o: int, x: int, y: int) -> (int, int) {
    if o == 0 {
        (x, y)
    } else if o == 1 {
        (y, x)
    } else if o == 2 {
        (-y, x)
    } else if o == 3 {
        (-x, y)
    } else if o == 4 {
        (-x, -y)
    } else if o == 5 {
        (-y, -x)
    } else if o == 6 {
        (y, -x)
    } else {
        (x, -y)
    }
}

/// The octant of the line from `start` to `end`.
pub open spec fn line_octant(start: Coord, end: Coord) -> int {
    octant_of(end.x - start.x, end.y - start.y)
}

/// The displacement from `start` to `end` carried into octant 0: a run along `x` and a
/// rise along `y` with `run >= rise >= 0`.
pub open spec fn line_run_rise(start: Coord, end: Coord) -> (int, int) {
    to_octant0(line_octant(start, end), end.x - start.x, end.y - start.y)
}

/// How far the line has risen after `k` unit steps along its run: the rise scaled by `k / run`
/// and rounded down. A line of no length rises on every step.
pub open spec fn rise_after(run: int, rise: int, k: int) -> int {
    if run == 0 {
        k
    } else {
        k * rise / run
    }
}

/// The `k`th point of the line from `start` toward `end` (point 0 is `start`), which may lie
/// outside the range of `Coord`.
pub open spec fn line_point(start: Coord, end: Coord, k: int) -> (int, int) {
    let (run, rise) = line_run_rise(start, end);
    let off = from_octant0(line_octant(start, end), k, rise_after(run, rise, k));
    (start.x + off.0, start.y + off.1)
}

/// Whether the `k`th point of the line is a valid `Coord`.
pub open spec fn line_point_in_range(start: Coord, end: Coord, k: int) -> bool {
    let p = line_point(start, end, k);
    0 <= p.0 <= u32::MAX && 0 <= p.1 <= u32::MAX
}

/// The `k`th point of the line as a `Coord`.
pub open spec fn line_coord(start: Coord, end: Coord, k: int) -> Coord {
    let p = line_point(start, end, k);
    Coord { x: p.0 as u32, y: p.1 as u32 }
}

/// Whether `end_mode` lets a line whose run is `run` go on to its `k`th point.
pub open spec fn within_end(end_mode: LineEndMode, run: int, k: int) -> bool {
    match end_mode {
        LineEndMode::StopBefore => k < run,
        LineEndMode::StopAt => k <= run,
        LineEndMode::Never => true,
    }
}

/// Whether a line iterator hands out the `k`th point of its line: the end mode lets it go
/// that far and the point is a valid `Coord`.
pub open spec fn line_yields(start: Coord, end: Coord, end_mode: LineEndMode, k: int) -> bool {
    &&& within_end(end_mode, line_run_rise(start, end).0, k)
    &&& line_point_in_range(start, end, k)
}

/// Iterates over coordinates on a line using Bresenham's algorithm.
///
/// The line is carried into octant 0, where it is shallow and climbs to the right; there the
/// cursor steps one cell right at a time and one cell down whenever the accumulated error
/// says so. Each point is carried back before it is handed out.
#[derive(Debug)]
pub struct LineIter {
    cursor_x: i64,
    cursor_y: i64,
    run: i64,
    rise: i64,
    x1: i64,
    diff: i64,
    octant: Octant,
    end_mode: LineEndMode,
    start: Coord,
    end: Coord,
}

impl LineIter {
    #[verifier::type_invariant]
    spec fn well_formed(self) -> bool {
        let o = self.octant.0 as int;
        let s = to_octant0(o, self.start.x as int, self.start.y as int);
        let e = to_octant0(o, self.end.x as int, self.end.y as int);
        let k = self.cursor_x - s.0;
        let y = self.cursor_y - s.1;
        &&& o == line_octant(self.start, self.end)
        &&& self.run == e.0 - s.0
        &&& self.rise == e.1 - s.1
        &&& self.x1 == e.0
        &&& 0 <= k <= u32::MAX + 1
        &&& y == rise_after(self.run as int, self.rise as int, k)
        &&& self.diff == self.rise - self.run + k * self.rise - y * self.run
    }

    /// Where the line starts.
    pub closed spec fn start(self) -> Coord {
        self.start
    }

    /// The point the line heads for.
    pub closed spec fn end(self) -> Coord {
        self.end
    }

    /// When the iteration stops.
    pub closed spec fn end_mode(self) -> LineEndMode {
        self.end_mode
    }

    /// How many points have been handed out so far.
    pub closed spec fn emitted(self) -> int {
        self.cursor_x - to_octant0(self.octant.0 as int, self.start.x as int, self.start.y as int).0
    }

    /// Creates a new iterator. Yields intermediate points between `start`
    /// and `end`. Does include `start` but not `end`.
    pub fn new(start: Coord, end: Coord) -> (r: LineIter)
        ensures
            r.start() == start,
            r.end() == end,
            r.end_mode() == LineEndMode::StopBefore,
            r.emitted() == 0,
    {
        Self::new_with_end_mode(start, end, LineEndMode::StopBefore)
    }

    /// Creates a new iterator from `start` toward `end` that stops as `end_mode` says.
    pub fn new_with_end_mode(start: Coord, end: Coord, end_mode: LineEndMode) -> (r: LineIter)
        ensures
            r.start() == start,
            r.end() == end,
            r.end_mode() == end_mode,
            r.emitted() == 0,
    {
        let octant = Octant::from_points(start, end);
        let (sx, sy) = octant.to_octant0(start.x as i64, start.y as i64);
        let (ex, ey) = octant.to_octant0(end.x as i64, end.y as i64);
        proof {
            lemma_octant0_shallow(end.x - start.x, end.y - start.y);
        }
        let run = ex - sx;
        let rise = ey - sy;
        proof {
            assert(rise_after(run as int, rise as int, 0) == 0) by {
                if run != 0 {
                    assert(0 * rise == 0);
                }
            }
        }
        LineIter {
            cursor_x: sx,
            cursor_y: sy,
            run,
            rise,
            x1: ex,
            diff: rise - run,
            octant,
            end_mode,
            start,
            end,
        }
    }

    /// The next point of the line, or `None` once the line is done.
    ///
    /// The line is done when the end mode says so, or when the next point would leave the
    /// range of `Coord`; it then stays done.
    pub fn next(&mut self) -> (r: Option<Coord>)
        ensures
            final(self).start() == old(self).start(),
            final(self).end() == old(self).end(),
            final(self).end_mode() == old(self).end_mode(),
            line_yields(
                old(self).start(),
                old(self).end(),
                old(self).end_mode(),
                old(self).emitted(),
            ) ==> {
                &&& r == Some(line_coord(old(self).start(), old(self).end(), old(self).emitted()))
                &&& final(self).emitted() == old(self).emitted() + 1
            },
            !line_yields(
                old(self).start(),
                old(self).end(),
                old(self).end_mode(),
                old(self).emitted(),
            ) ==> {
                &&& r is None
                &&& final(self).emitted() == old(self).emitted()
            },
    {
        proof {
            use_type_invariant(&*self);
            lemma_octant0_shallow(self.end.x - self.start.x, self.end.y - self.start.y);
        }
        let stop = match self.end_mode {
            LineEndMode::StopBefore => self.cursor_x >= self.x1,
            LineEndMode::StopAt => self.cursor_x > self.x1,
            LineEndMode::Never => false,
        };
        if stop {
            return None;
        }
        let ghost k = self.emitted();
        let ghost s = to_octant0(self.octant.0 as int, self.start.x as int, self.start.y as int);
        let ghost y = self.cursor_y - s.1;
        proof {
            lemma_octant_round_trip(self.octant.0 as int, self.start, k, y);
        }
        let (px, py) = self.octant.from_octant0(self.cursor_x, self.cursor_y);
        if px < 0 || px > u32::MAX as i64 || py < 0 || py > u32::MAX as i64 {
            return None;
        }
        let out = Coord::new(px as u32, py as u32);
        proof {
            lemma_step(self.run as int, self.rise as int, k, y, self.diff as int);
        }
        let (cursor_y, diff) = if self.diff >= 0 {
            (self.cursor_y + 1, self.diff - self.run + self.rise)
        } else {
            (self.cursor_y, self.diff + self.rise)
        };
        *self = LineIter { cursor_x: self.cursor_x + 1, cursor_y, diff, ..*self };
        Some(out)
    }
}

/// Where to stop the iteration of the line.
#[derive(Debug, Clone, Copy, Default)]
pub enum LineEndMode {
    /// Stop immediately before the endpoint is reached.
    #[default]
    StopBefore,
    /// Stop once the endpoint is reached, so the iterator includes the end.
    StopAt,
    /// Just keep on going past the end point, until the line leaves the range of `Coord`.
    Never,
}

/// One of the eight octants around a point, numbered as [`octant_of`] numbers them.
#[derive(Debug, Clone, Copy)]
struct Octant(u8);

impl Octant {
    /// The octant that the displacement from `start` to `end` points into.
    fn from_points(start: Coord, end: Coord) -> (r: Octant)
        ensures
            r.0 == line_octant(start, end),
    {
        let mut dx = end.x as i64 - start.x as i64;
        let mut dy = end.y as i64 - start.y as i64;
        let mut octant: u8 = 0;
        if dy < 0 {
            dx = -dx;
            dy = -dy;
            octant += 4;
        }
        if dx < 0 {
            let tmp = dx;
            dx = dy;
            dy = -tmp;
            octant += 2;
        }
        if dx < dy {
            octant += 1;
        }
        Octant(octant)
    }

    /// `(x, y)` carried from this octant onto octant 0.
    fn to_octant0(&self, x: i64, y: i64) -> (r: (i64, i64))
        requires
            self.0 < 8,
            x > i64::MIN,
            y > i64::MIN,
        ensures
            (r.0 as int, r.1 as int) == to_octant0(self.0 as int, x as int, y as int),
    {
        match self.0 {
            0 => (x, y),
            1 => (y, x),
            2 => (y, -x),
            3 => (-x, y),
            4 => (-x, -y),
            5 => (-y, -x),
            6 => (-y, x),
            _ => (x, -y),
        }
    }

    /// `(x, y)` carried from octant 0 back onto this octant.
    fn from_octant0(&self, x: i64, y: i64) -> (r: (i64, i64))
        requires
            self.0 < 8,
            x > i64::MIN,
            y > i64::MIN,
        ensures
            (r.0 as int, r.1 as int) == from_octant0(self.0 as int, x as int, y as int),
    {
        match self.0 {
            0 => (x, y),
            1 => (y, x),
            2 => (-y, x),
            3 => (-x, y),
            4 => (-x, -y),
            5 => (-y, -x),
            6 => (y, -x),
            _ => (x, -y),
        }
    }
}

/// A displacement carried into octant 0 by its own octant is shallow and climbs to the right.
proof fn lemma_octant0_shallow(dx: int, dy: int)
    ensures
        0 <= octant_of(dx, dy) < 8,
        0 <= to_octant0(octant_of(dx, dy), dx, dy).1 <= to_octant0(octant_of(dx, dy), dx, dy).0,
{
}

/// Carrying `start` into octant `o`, stepping `(k, y)` there and carrying the result back
/// lands `(k, y)` carried back away from `start`.
proof fn lemma_octant_round_trip(o: int, start: Coord, k: int, y: int)
    requires
        0 <= o < 8,
    ensures
        ({
            let s = to_octant0(o, start.x as int, start.y as int);
            let off = from_octant0(o, k, y);
            from_octant0(o, s.0 + k, s.1 + y) == (start.x + off.0, start.y + off.1)
        }),
{
}

/// One step of the error accumulator: starting from the state after `k` steps, taking the
/// step gives the state after `k + 1` steps, and the error stays within `[rise - run, rise)`.
proof fn lemma_step(run: int, rise: int, k: int, y: int, diff: int)
    requires
        0 <= rise <= run,
        0 <= k,
        y == rise_after(run, rise, k),
        diff == rise - run + k * rise - y * run,
    ensures
        0 <= y <= k,
        run > 0 ==> rise - run <= diff < rise,
        run == 0 ==> diff == 0,
        diff >= 0 ==> {
            &&& y + 1 == rise_after(run, rise, k + 1)
            &&& diff - run + rise == rise - run + (k + 1) * rise - (y + 1) * run
        },
        diff < 0 ==> {
            &&& y == rise_after(run, rise, k + 1)
            &&& diff + rise == rise - run + (k + 1) * rise - y * run
        },
{
    if run == 0 {
        assert(rise == 0);
        assert(k * rise == 0 && y * run == 0 && (k + 1) * rise == 0 && (y + 1) * run == 0);
    } else {
        let x = k * rise;
        lemma_fundamental_div_mod(x, run);
        lemma_mod_pos_bound(x, run);
        let r = x % run;
        assert(y * run == run * y) by (nonlinear_arith);
        assert(diff == rise - run + r);
        assert((k + 1) * rise == x + rise) by (nonlinear_arith)
            requires
                x == k * rise,
        ;
        assert(x >= 0) by (nonlinear_arith)
            requires
                x == k * rise,
                k >= 0,
                rise >= 0,
        ;
        assert(y <= k) by (nonlinear_arith)
            requires
                y * run <= x,
                x == k * rise,
                rise <= run,
                run > 0,
                k >= 0,
        ;
        assert(0 <= y) by (nonlinear_arith)
            requires
                y * run + r == x,
                r < run,
                x >= 0,
                run > 0,
        ;
        if diff >= 0 {
            assert((y + 1) * run == y * run + run) by (nonlinear_arith);
            lemma_fundamental_div_mod_converse(x + rise, run, y + 1, r + rise - run);
        } else {
            lemma_fundamental_div_mod_converse(x + rise, run, y, r + rise);
        }
    }
}

/// A line's points up to its endpoint lie between `start` and `end`, so all are valid
/// coordinates; the point reached after the whole run is `end` itself. So `StopAt` hands out
/// `end` as its last point, and `StopBefore` hands out the same points without it.
pub proof fn lemma_line_reaches_end(start: Coord, end: Coord)
    ensures
        forall|k: int|
            0 <= k <= line_run_rise(start, end).0 ==> #[trigger] line_point_in_range(start, end, k),
        line_coord(start, end, line_run_rise(start, end).0) == end,
        forall|k: int|
            #![trigger line_yields(start, end, LineEndMode::StopAt, k)]
            0 <= k ==> (line_yields(start, end, LineEndMode::StopAt, k) <==> k
                <= line_run_rise(start, end).0),
        forall|k: int|
            #![trigger line_yields(start, end, LineEndMode::StopBefore, k)]
            0 <= k ==> (line_yields(start, end, LineEndMode::StopBefore, k) <==> k
                < line_run_rise(start, end).0),
{
    let dx = end.x - start.x;
    let dy = end.y - start.y;
    let o = line_octant(start, end);
    let (run, rise) = line_run_rise(start, end);
    lemma_octant0_shallow(dx, dy);
    assert(from_octant0(o, run, rise) == (dx, dy));
    assert forall|k: int| 0 <= k <= run implies #[trigger] line_point_in_range(start, end, k) by {
        let y = rise_after(run, rise, k);
        if run > 0 {
            assert(0 <= k * rise <= run * rise) by (nonlinear_arith)
                requires
                    0 <= k <= run,
                    0 <= rise,
            ;
            lemma_fundamental_div_mod(k * rise, run);
            lemma_mod_pos_bound(k * rise, run);
            assert(0 <= y <= rise) by (nonlinear_arith)
                requires
                    run * y + (k * rise) % run == k * rise,
                    0 <= (k * rise) % run < run,
                    0 <= k * rise <= run * rise,
                    run > 0,
            ;
        }
    }
    if run > 0 {
        lemma_fundamental_div_mod_converse(run * rise, run, rise, 0);
        assert(run * rise == rise * run) by (nonlinear_arith);
    }
}

} // verus!
