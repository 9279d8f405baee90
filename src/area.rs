use crate::Coord;
use vstd::arithmetic::div_mod::{
    lemma_fundamental_div_mod, lemma_fundamental_div_mod_converse, lemma_mod_pos_bound,
};
use vstd::prelude::*;

verus! {

/// An axis-aligned rectangle of coordinates, `width` wide and `height` tall,
/// whose top-left cell is `corner`.
#[derive(Clone, Copy, Debug)]
pub struct Area {
    pub corner: Coord,
    pub width: u32,
    pub height: u32,
}

impl Area {
    /// How many coordinates the area holds.
    pub open spec fn count(self) -> nat {
        (self.width * self.height) as nat
    }

    /// Whether every cell of the area is a valid `Coord`, and the cells can be counted in a `u32`.
    pub open spec fn fits(self) -> bool {
        &&& self.corner.x + self.width <= u32::MAX + 1
        &&& self.corner.y + self.height <= u32::MAX + 1
        &&& self.width * self.height <= u32::MAX
    }

    /// Whether `c` lies inside the area.
    pub open spec fn contains(self, c: Coord) -> bool {
        &&& self.corner.x <= c.x < self.corner.x + self.width
        &&& self.corner.y <= c.y < self.corner.y + self.height
    }

    /// The `i`th coordinate of the area in row-major order.
    pub open spec fn point(self, i: int) -> Coord {
        Coord {
            x: (self.corner.x + i % (self.width as int)) as u32,
            y: (self.corner.y + i / (self.width as int)) as u32,
        }
    }

    /// The area `width` wide and `height` tall whose top-left cell is `corner`.
    pub fn new(corner: Coord, width: u32, height: u32) -> (r: Self)
        ensures
            r.corner == corner,
            r.width == width,
            r.height == height,
    {
        Self { corner, width, height }
    }

    /// Start walking over the area's coordinates in row-major order.
    pub fn into_iter(self) -> (r: AreaIter)
        requires
            self.fits(),
        ensures
            r.area() == self,
            r.cursor() == 0,
    {
        AreaIter { area: self, cursor: 0 }
    }
}

/// Walks over the coordinates of an [`Area`] in row-major order, starting at its corner.
pub struct AreaIter {
    area: Area,
    cursor: u32,
}

impl AreaIter {
    #[verifier::type_invariant]
    spec fn well_formed(self) -> bool {
        &&& self.area.fits()
        &&& self.cursor <= self.area.count()
    }

    /// The area being walked.
    pub closed spec fn area(self) -> Area {
        self.area
    }

    /// How many coordinates have been handed out so far.
    pub closed spec fn cursor(self) -> nat {
        self.cursor as nat
    }

    /// The next coordinate of the area, or `None` once all have been handed out.
    pub fn next(&mut self) -> (r: Option<Coord>)
        ensures
            final(self).area() == old(self).area(),
            old(self).cursor() < old(self).area().count() ==> {
                &&& r == Some(old(self).area().point(old(self).cursor() as int))
                &&& final(self).cursor() == old(self).cursor() + 1
            },
            old(self).cursor() >= old(self).area().count() ==> {
                &&& r is None
                &&& final(self).cursor() == old(self).cursor()
            },
    {
        proof {
            use_type_invariant(&*self);
        }
        let w = self.area.width;
        let h = self.area.height;
        if self.cursor >= w * h {
            return None;
        }
        proof {
            assert(w > 0) by (nonlinear_arith)
                requires
                    self.cursor < w * h,
            ;
        }
        let x = self.cursor % w;
        let y = self.cursor / w;
        proof {
            assert(y < h) by (nonlinear_arith)
                requires
                    self.cursor < w * h,
                    y == self.cursor / w,
                    w > 0,
            ;
        }
        self.cursor = self.cursor + 1;
        Some(Coord::new(self.area.corner.x + x, self.area.corner.y + y))
    }

    /// How many coordinates are left.
    pub fn len(&self) -> (r: usize)
        ensures
            r == self.area().count() - self.cursor(),
    {
        proof {
            use_type_invariant(self);
        }
        (self.area.width * self.area.height - self.cursor) as usize
    }
}

/// The border of an axis-aligned rectangle, `width` wide and `height` tall,
/// whose top-left cell is `corner`.
#[derive(Clone, Copy, Debug)]
pub struct Edges {
    pub corner: Coord,
    pub width: u32,
    pub height: u32,
}

impl Edges {
    /// How many coordinates lie on the border.
    ///
    /// A rectangle one cell thin is a straight line, each of whose cells is counted once.
    pub open spec fn count(self) -> nat {
        let w = self.width as nat;
        let h = self.height as nat;
        if w == 0 || h == 0 {
            0
        } else if w == 1 || h == 1 {
            (w + h - 1) as nat
        } else {
            (2 * w + 2 * h - 4) as nat
        }
    }

    /// Whether every border cell is a valid `Coord`, and the cells can be counted in a `u32`.
    pub open spec fn fits(self) -> bool {
        &&& self.corner.x + self.width <= u32::MAX + 1
        &&& self.corner.y + self.height <= u32::MAX + 1
        &&& self.count() <= u32::MAX
    }

    /// Position, relative to the corner, of the `i`th border cell: rightward along the top,
    /// down the right side, leftward along the bottom, then up the left side.
    pub open spec fn offset(self, i: int) -> (int, int) {
        let w = self.width as int;
        let h = self.height as int;
        if i < w {
            (i, 0)
        } else if i < w + h - 1 {
            (w - 1, i - w + 1)
        } else if i < 2 * w + h - 2 {
            (2 * w + h - 3 - i, h - 1)
        } else {
            (0, 2 * w + 2 * h - 4 - i)
        }
    }

    /// Whether `c` lies on the border of the rectangle.
    pub open spec fn on_border(self, c: Coord) -> bool {
        &&& self.corner.x <= c.x < self.corner.x + self.width
        &&& self.corner.y <= c.y < self.corner.y + self.height
        &&& {
            ||| c.x == self.corner.x
            ||| c.x == self.corner.x + self.width - 1
            ||| c.y == self.corner.y
            ||| c.y == self.corner.y + self.height - 1
        }
    }

    /// The `i`th border cell.
    pub open spec fn point(self, i: int) -> Coord {
        Coord {
            x: (self.corner.x + self.offset(i).0) as u32,
            y: (self.corner.y + self.offset(i).1) as u32,
        }
    }

    /// The border of the rectangle `width` wide and `height` tall whose top-left cell is
    /// `corner`.
    pub fn new(corner: Coord, width: u32, height: u32) -> (r: Self)
        ensures
            r.corner == corner,
            r.width == width,
            r.height == height,
    {
        Self { corner, width, height }
    }

    /// Start walking clockwise around the border from the corner.
    pub fn into_iter(self) -> (r: EdgesIter)
        requires
            self.fits(),
        ensures
            r.edges() == self,
            r.cursor() == 0,
    {
        EdgesIter { edges: self, cursor: 0 }
    }
}

/// Walks clockwise around the border of an [`Edges`] rectangle, starting at its corner.
pub struct EdgesIter {
    edges: Edges,
    cursor: u32,
}

impl EdgesIter {
    #[verifier::type_invariant]
    spec fn well_formed(self) -> bool {
        &&& self.edges.fits()
        &&& self.cursor <= self.edges.count()
    }

    /// The rectangle whose border is being walked.
    pub closed spec fn edges(self) -> Edges {
        self.edges
    }

    /// How many coordinates have been handed out so far.
    pub closed spec fn cursor(self) -> nat {
        self.cursor as nat
    }

    /// Number of border cells of a rectangle of the given size.
    fn border_len(w: u64, h: u64) -> (r: u64)
        requires
            w <= u32::MAX,
            h <= u32::MAX,
        ensures
            r == (Edges {
                corner: Coord { x: 0, y: 0 },
                width: w as u32,
                height: h as u32,
            }).count(),
    {
        if w == 0 || h == 0 {
            0
        } else if w == 1 || h == 1 {
            w + h - 1
        } else {
            2 * w + 2 * h - 4
        }
    }

    /// The next border cell, or `None` once all have been handed out.
    pub fn next(&mut self) -> (r: Option<Coord>)
        ensures
            final(self).edges() == old(self).edges(),
            old(self).cursor() < old(self).edges().count() ==> {
                &&& r == Some(old(self).edges().point(old(self).cursor() as int))
                &&& final(self).cursor() == old(self).cursor() + 1
            },
            old(self).cursor() >= old(self).edges().count() ==> {
                &&& r is None
                &&& final(self).cursor() == old(self).cursor()
            },
    {
        proof {
            use_type_invariant(&*self);
        }
        let w = self.edges.width as u64;
        let h = self.edges.height as u64;
        let c = self.cursor as u64;
        if c >= Self::border_len(w, h) {
            return None;
        }
        let (dx, dy) = if c < w {
            (c, 0)
        } else if c < w + h - 1 {
            (w - 1, c - w + 1)
        } else if c < 2 * w + h - 2 {
            (2 * w + h - 3 - c, h - 1)
        } else {
            (0, 2 * w + 2 * h - 4 - c)
        };
        self.cursor = self.cursor + 1;
        Some(Coord::new(self.edges.corner.x + dx as u32, self.edges.corner.y + dy as u32))
    }

    /// How many border cells are left.
    pub fn len(&self) -> (r: usize)
        ensures
            r == self.edges().count() - self.cursor(),
    {
        proof {
            use_type_invariant(self);
        }
        let total = Self::border_len(self.edges.width as u64, self.edges.height as u64);
        (total - self.cursor as u64) as usize
    }
}

/// Position along the walk of the border cell at offset `(ox, oy)` from the corner: the
/// inverse of `Edges::offset`.
spec fn edge_index(w: int, h: int, ox: int, oy: int) -> int {
    if oy == 0 {
        ox
    } else if ox == w - 1 {
        w - 1 + oy
    } else if oy == h - 1 {
        2 * w + h - 3 - ox
    } else {
        2 * w + 2 * h - 4 - oy
    }
}

/// The walk around a rectangle's border hands out `count` coordinates, no two alike, each on
/// the border, and every border coordinate among them.
pub proof fn lemma_edges_points(e: Edges)
    requires
        e.fits(),
    ensures
        forall|i: int| 0 <= i < e.count() ==> e.on_border(#[trigger] e.point(i)),
        forall|i: int, j: int|
            0 <= i < e.count() && 0 <= j < e.count() && i != j ==> #[trigger] e.point(i)
                != #[trigger] e.point(j),
        forall|c: Coord| #[trigger]
            e.on_border(c) ==> exists|i: int| 0 <= i < e.count() && e.point(i) == c,
{
    let w = e.width as int;
    let h = e.height as int;
    assert forall|i: int| 0 <= i < e.count() implies {
        &&& 0 <= e.offset(i).0 < w
        &&& 0 <= e.offset(i).1 < h
        &&& edge_index(w, h, e.offset(i).0, e.offset(i).1) == i
        &&& e.on_border(#[trigger] e.point(i))
    } by {}
    assert forall|i: int, j: int|
        0 <= i < e.count() && 0 <= j < e.count() && i != j implies #[trigger] e.point(i)
        != #[trigger] e.point(j) by {
        assert(e.on_border(e.point(i)) && e.on_border(e.point(j)));
    }
    assert forall|c: Coord| #[trigger]
        e.on_border(c) implies exists|i: int| 0 <= i < e.count() && e.point(i) == c by {
        let i = edge_index(w, h, c.x - e.corner.x, c.y - e.corner.y);
        assert(0 <= i < e.count());
        assert(e.point(i) == c);
    }
}

/// An area's walk hands out `width * height` coordinates, no two alike, each inside the
/// area, and every coordinate inside the area among them.
pub proof fn lemma_area_points(a: Area)
    requires
        a.fits(),
    ensures
        forall|i: int| 0 <= i < a.count() ==> a.contains(#[trigger] a.point(i)),
        forall|i: int, j: int|
            0 <= i < a.count() && 0 <= j < a.count() && i != j ==> #[trigger] a.point(i)
                != #[trigger] a.point(j),
        forall|c: Coord| #[trigger]
            a.contains(c) ==> exists|i: int| 0 <= i < a.count() && a.point(i) == c,
{
    let w = a.width as int;
    let h = a.height as int;
    assert forall|i: int| 0 <= i < a.count() implies {
        &&& 0 <= i % w < w
        &&& 0 <= i / w < h
        &&& i == w * (i / w) + i % w
        &&& a.contains(#[trigger] a.point(i))
    } by {
        assert(w > 0) by (nonlinear_arith)
            requires
                0 <= i < w * h,
                0 <= w,
                0 <= h,
        ;
        lemma_fundamental_div_mod(i, w);
        lemma_mod_pos_bound(i, w);
        assert(0 <= i / w < h) by (nonlinear_arith)
            requires
                w * (i / w) + i % w == i,
                0 <= i % w < w,
                0 <= i < w * h,
        ;
    }
    assert forall|i: int, j: int|
        0 <= i < a.count() && 0 <= j < a.count() && i != j implies #[trigger] a.point(i)
        != #[trigger] a.point(j) by {
        assert(a.contains(a.point(i)) && a.contains(a.point(j)));
    }
    assert forall|c: Coord| #[trigger]
        a.contains(c) implies exists|i: int| 0 <= i < a.count() && a.point(i) == c by {
        let dx = c.x - a.corner.x;
        let dy = c.y - a.corner.y;
        let i = dy * w + dx;
        assert(0 <= i < w * h) by (nonlinear_arith)
            requires
                0 <= dx < w,
                0 <= dy < h,
                i == dy * w + dx,
        ;
        assert(dy * w == w * dy) by (nonlinear_arith);
        lemma_fundamental_div_mod_converse(i, w, dy, dx);
        assert(a.point(i) == c);
    }
}

} // verus!
