use crate::Coord;
use vstd::prelude::*;

verus! {

/// The coordinate of the `i`th cell, in row-major order, of a grid `width` wide.
pub open spec fn coord_of_index(i: int, width: int) -> Coord {
    Coord { x: (i % width) as u32, y: (i / width) as u32 }
}

/// Like a `HashMap<Coord, T>` but faster. Each grid point might store something.
#[derive(Debug)]
pub struct Grid<T> {
    width: u32,
    height: u32,
    spots: Vec<Option<T>>,
}

impl<T> Grid<T> {
    #[verifier::type_invariant]
    spec fn well_formed(self) -> bool {
        &&& self.width * self.height <= u32::MAX
        &&& self.spots@.len() == self.width * self.height
    }

    /// Number of columns.
    pub closed spec fn spec_width(&self) -> u32 {
        self.width
    }

    /// Number of rows.
    pub closed spec fn spec_height(&self) -> u32 {
        self.height
    }

    /// Whether `c` lies within the grid's columns and rows.
    pub open spec fn in_bounds(&self, c: Coord) -> bool {
        c.x < self.spec_width() && c.y < self.spec_height()
    }

    /// Row-major position of `c` among the grid's cells.
    pub open spec fn index_of(&self, c: Coord) -> int {
        c.y * self.spec_width() + c.x
    }

    /// The cells in row-major order, each filled or empty.
    pub closed spec fn cells(&self) -> Seq<Option<T>> {
        self.spots@
    }

    /// What the grid holds: each filled cell's coordinate, mapped to its value.
    pub open spec fn contents(&self) -> Map<Coord, T> {
        Map::new(
            |c: Coord| self.in_bounds(c) && self.cells()[self.index_of(c)] is Some,
            |c: Coord| self.cells()[self.index_of(c)]->Some_0,
        )
    }

    /// What `contents` says of one coordinate.
    proof fn lemma_contents_at(&self, c: Coord)
        ensures
            self.contents().contains_key(c) == (self.in_bounds(c) && self.cells()[self.index_of(
                c,
            )] is Some),
            self.contents().contains_key(c) ==> self.contents()[c] == self.cells()[self.index_of(
                c,
            )]->Some_0,
    {
        let dom = Set::new(|k: Coord| self.in_bounds(k) && self.cells()[self.index_of(k)] is Some);
        assert(dom.contains(c) == (self.in_bounds(c) && self.cells()[self.index_of(c)] is Some));
    }

    /// Filling the cell of an in-bounds coordinate `c` with `v` adds `c => v` to the contents.
    proof fn lemma_contents_fill(&self, before: &Self, c: Coord, v: T)
        requires
            self.spec_width() == before.spec_width(),
            self.spec_height() == before.spec_height(),
            before.in_bounds(c),
            before.cells().len() == before.spec_width() * before.spec_height(),
            self.cells() == before.cells().update(before.index_of(c), Some(v)),
        ensures
            self.contents() == before.contents().insert(c, v),
    {
        assert forall|k: Coord|
            #![trigger self.contents().contains_key(k)]
            #![trigger before.contents().insert(c, v).contains_key(k)]
            true implies self.contents().contains_key(k) == before.contents().insert(
                c,
                v,
            ).contains_key(k) && (self.contents().contains_key(k) ==> self.contents()[k]
                == before.contents().insert(c, v)[k]) by {
            self.lemma_contents_at(k);
            before.lemma_contents_at(k);
            lemma_index_in_grid(self.width as int, self.height as int, c);
            if k != c && self.in_bounds(k) {
                lemma_index_in_grid(self.width as int, self.height as int, k);
                assert(self.index_of(k) != before.index_of(c));
            }
        }
        assert(self.contents() =~= before.contents().insert(c, v));
    }

    /// Any grid of the same size whose cells are these with the cell of `c` filled by `v`
    /// holds these contents with `c => v` added.
    proof fn lemma_contents_fill_any(&self, c: Coord)
        requires
            self.in_bounds(c),
            self.cells().len() == self.spec_width() * self.spec_height(),
        ensures
            forall|g: Self|
                #![trigger g.contents()]
                g.spec_width() == self.spec_width() && g.spec_height() == self.spec_height()
                    && self.cells()[self.index_of(c)] is None
                    && g.cells() == self.cells().update(self.index_of(c), None)
                    ==> g.contents() == self.contents(),
            forall|g: Self, v: T|
                #![trigger g.contents(), self.contents().insert(c, v)]
                g.spec_width() == self.spec_width() && g.spec_height() == self.spec_height()
                    && g.cells() == self.cells().update(self.index_of(c), Some(v))
                    ==> g.contents() == self.contents().insert(c, v),
    {
        assert forall|g: Self, v: T|
            #![trigger g.contents(), self.contents().insert(c, v)]
            g.spec_width() == self.spec_width() && g.spec_height() == self.spec_height()
                && g.cells() == self.cells().update(self.index_of(c), Some(v)) implies g.contents()
            == self.contents().insert(c, v) by {
            g.lemma_contents_fill(self, c, v);
        }
        assert forall|g: Self|
            #![trigger g.contents()]
            g.spec_width() == self.spec_width() && g.spec_height() == self.spec_height()
                && self.cells()[self.index_of(c)] is None
                && g.cells() == self.cells().update(self.index_of(c), None)
                implies g.contents() == self.contents() by {
            lemma_index_in_grid(self.width as int, self.height as int, c);
            assert(g.cells() =~= self.cells());
            assert(g.contents() =~= self.contents());
        }
    }

    /// A grid `width` wide and `height` tall with every cell empty.
    pub fn new(width: u32, height: u32) -> (r: Grid<T>)
        requires
            width * height <= u32::MAX,
        ensures
            r.spec_width() == width,
            r.spec_height() == height,
            r.contents() == Map::<Coord, T>::empty(),
    {
        let n = (width * height) as usize;
        let mut spots: Vec<Option<T>> = Vec::with_capacity(n);
        let mut i: usize = 0;
        while i < n
            invariant
                i <= n,
                spots@.len() == i,
                forall|j: int| 0 <= j < i ==> spots@[j] is None,
            decreases n - i,
        {
            spots.push(None);
            i += 1;
        }
        let r = Self { width, height, spots };
        assert forall|c: Coord| !#[trigger] r.contents().contains_key(c) by {
            r.lemma_contents_at(c);
            if r.in_bounds(c) {
                lemma_index_in_grid(width as int, height as int, c);
            }
        }
        assert(r.contents() =~= Map::<Coord, T>::empty());
        r
    }

    /// Row-major position of `coord`, or `None` when it lies outside the grid.
    fn idx(&self, coord: Coord) -> (r: Option<usize>)
        ensures
            r is Some == self.in_bounds(coord),
            r is Some ==> r->Some_0 == self.index_of(coord) && r->Some_0 < self.cells().len(),
    {
        if coord.x >= self.width || coord.y >= self.height {
            None
        } else {
            proof {
                use_type_invariant(self);
                lemma_index_in_grid(self.width as int, self.height as int, coord);
            }
            Some((coord.y * self.width + coord.x) as usize)
        }
    }

    /// The value stored at `coord`, or `None` when that cell is empty or lies outside the grid.
    pub fn get(&self, coord: Coord) -> (r: Option<&T>)
        ensures
            match r {
                Some(v) => self.contents().contains_key(coord) && *v == self.contents()[coord],
                None => !self.contents().contains_key(coord),
            },
    {
        let idx = match self.idx(coord) {
            Some(idx) => idx,
            None => return None,
        };
        proof {
            self.lemma_contents_at(coord);
        }
        self.spots[idx].as_ref()
    }

    /// A mutable handle on the value stored at `coord`, or `None` when that cell is empty or
    /// lies outside the grid.
    pub fn get_mut(&mut self, coord: Coord) -> (r: Option<&mut T>)
        ensures
            final(self).spec_width() == old(self).spec_width(),
            final(self).spec_height() == old(self).spec_height(),
            r is Some ==> {
                &&& old(self).contents().contains_key(coord)
                &&& *r.unwrap() == old(self).contents()[coord]
                &&& final(self).contents() == old(self).contents().insert(
                    coord,
                    *final(r.unwrap()),
                )
            },
            r is None ==> {
                &&& !old(self).contents().contains_key(coord)
                &&& final(self).contents() == old(self).contents()
            },
    {
        let idx = match self.idx(coord) {
            Some(idx) => idx,
            None => return None,
        };
        proof {
            use_type_invariant(&*self);
            old(self).lemma_contents_at(coord);
            old(self).lemma_contents_fill_any(coord);
        }
        self.spots[idx].as_mut()
    }

    /// Stores `val` at `coord` and returns what was there before. Outside the grid this does
    /// nothing and returns `None`.
    pub fn insert(&mut self, coord: Coord, val: T) -> (r: Option<T>)
        ensures
            final(self).spec_width() == old(self).spec_width(),
            final(self).spec_height() == old(self).spec_height(),
            old(self).in_bounds(coord) ==> {
                &&& final(self).contents() == old(self).contents().insert(coord, val)
                &&& r == (if old(self).contents().contains_key(coord) {
                    Some(old(self).contents()[coord])
                } else {
                    None
                })
            },
            !old(self).in_bounds(coord) ==> {
                &&& final(self).contents() == old(self).contents()
                &&& r is None
            },
    {
        let idx = match self.idx(coord) {
            Some(idx) => idx,
            None => return None,
        };
        proof {
            use_type_invariant(&*self);
        }
        proof {
            old(self).lemma_contents_at(coord);
        }
        let mut old_val = Some(val);
        std::mem::swap(&mut self.spots[idx], &mut old_val);
        proof {
            self.lemma_contents_fill(old(self), coord, val);
        }
        old_val
    }

    /// A mutable handle on the value at `coord`, first storing the result of `fallback` there
    /// when the cell is empty.
    ///
    /// `coord` must lie inside the grid.
    pub fn get_or_insert_with<F: FnOnce() -> T>(&mut self, coord: Coord, fallback: F) -> (r:
        &mut T)
        requires
            old(self).in_bounds(coord),
            !old(self).contents().contains_key(coord) ==> fallback.requires(()),
        ensures
            final(self).spec_width() == old(self).spec_width(),
            final(self).spec_height() == old(self).spec_height(),
            old(self).contents().contains_key(coord) ==> *r == old(self).contents()[coord],
            !old(self).contents().contains_key(coord) ==> fallback.ensures((), *r),
            final(self).contents() == old(self).contents().insert(coord, *final(r)),
    {
        proof {
            use_type_invariant(&*self);
            old(self).lemma_contents_at(coord);
        }
        let idx = self.idx(coord).unwrap();
        if self.spots[idx].is_none() {
            let val = fallback();
            self.spots[idx] = Some(val);
        }
        let ghost filled = *self;
        proof {
            use_type_invariant(&*self);
            filled.lemma_contents_at(coord);
            old(self).lemma_contents_fill_any(coord);
        }
        let r = self.spots[idx].as_mut().unwrap();
        proof {
            assert forall|x: T|
                #[trigger] filled.cells().update(idx as int, Some(x)) == old(self).cells().update(
                    idx as int,
                    Some(x),
                ) by {
                assert(filled.cells().update(idx as int, Some(x)) =~= old(self).cells().update(
                    idx as int,
                    Some(x),
                ));
            }
        }
        r
    }

    /// A mutable handle on the value at `coord`, first storing `fallback` there when the cell
    /// is empty.
    ///
    /// `coord` must lie inside the grid.
    pub fn get_or_insert(&mut self, coord: Coord, fallback: T) -> (r: &mut T)
        requires
            old(self).in_bounds(coord),
        ensures
            final(self).spec_width() == old(self).spec_width(),
            final(self).spec_height() == old(self).spec_height(),
            old(self).contents().contains_key(coord) ==> *r == old(self).contents()[coord],
            !old(self).contents().contains_key(coord) ==> *r == fallback,
            final(self).contents() == old(self).contents().insert(coord, *final(r)),
    {
        proof {
            use_type_invariant(&*self);
            old(self).lemma_contents_at(coord);
        }
        let idx = self.idx(coord).unwrap();
        if self.spots[idx].is_none() {
            self.spots[idx] = Some(fallback);
        }
        let ghost filled = *self;
        proof {
            use_type_invariant(&*self);
            filled.lemma_contents_at(coord);
            old(self).lemma_contents_fill_any(coord);
        }
        let r = self.spots[idx].as_mut().unwrap();
        proof {
            assert forall|x: T|
                #[trigger] filled.cells().update(idx as int, Some(x)) == old(self).cells().update(
                    idx as int,
                    Some(x),
                ) by {
                assert(filled.cells().update(idx as int, Some(x)) =~= old(self).cells().update(
                    idx as int,
                    Some(x),
                ));
            }
        }
        r
    }

    /// Whether `coord` lies inside the grid and its cell holds a value.
    pub fn contains(&self, coord: Coord) -> (r: bool)
        ensures
            r == self.contents().contains_key(coord),
    {
        match self.idx(coord) {
            Some(idx) => {
                proof {
                    self.lemma_contents_at(coord);
                }
                self.spots[idx].is_some()
            },
            None => false,
        }
    }

    /// Iterate over all the (filled) slots in the grid, in row-major order.
    pub fn iter(&self) -> (r: GridIter<'_, T>)
        ensures
            r.grid() == *self,
            r.ahead() == self.contents(),
    {
        let r = GridIter { grid: self, index: 0 };
        assert(r.ahead() =~= self.contents());
        r
    }

    /// Iterate mutably over all the (filled) slots in the grid, in row-major order.
    ///
    /// Each handle that the iterator hands out lives until the next call of its `next`.
    pub fn iter_mut(&mut self) -> (r: GridIterMut<'_, T>)
        ensures
            *r.grid == *old(self),
            r.ahead() == old(self).contents(),
            *final(r.grid) == *final(self),
    {
        let r = GridIterMut { grid: self, index: 0 };
        assert(r.ahead() =~= r.grid.contents());
        r
    }

    /// The coordinate of the `i`th cell in row-major order.
    fn coord_at(&self, i: usize) -> (r: Coord)
        requires
            i < self.cells().len(),
        ensures
            r == coord_of_index(i as int, self.spec_width() as int),
            self.in_bounds(r),
            self.index_of(r) == i,
    {
        proof {
            use_type_invariant(self);
            lemma_coord_of_index(self.width as int, self.height as int, i as int);
        }
        Coord::new(i as u32 % self.width, i as u32 / self.width)
    }

    /// Number of columns.
    #[verifier::when_used_as_spec(spec_width)]
    pub fn width(&self) -> (r: u32)
        ensures
            r == self.spec_width(),
    {
        self.width
    }

    /// Number of rows.
    #[verifier::when_used_as_spec(spec_height)]
    pub fn height(&self) -> (r: u32)
        ensures
            r == self.spec_height(),
    {
        self.height
    }
}

impl<T> Grid<T> {
    /// Consume the grid, handing out the (filled) slots in row-major order.
    pub fn into_iter(self) -> (r: GridIntoIter<T>)
        ensures
            r.width() == self.spec_width(),
            r.ahead() == self.contents(),
    {
        GridIntoIter { grid: self, index: 0 }
    }
}

/// Borrowing iterator over the filled slots in a [`Grid`].
pub struct GridIter<'a, T> {
    grid: &'a Grid<T>,
    index: usize,
}

impl<'a, T> GridIter<'a, T> {
    #[verifier::type_invariant]
    spec fn well_formed(self) -> bool {
        self.index <= self.grid.cells().len()
    }

    /// The grid being walked.
    pub closed spec fn grid(self) -> Grid<T> {
        *self.grid
    }

    /// Row-major position of the next cell to look at.
    pub closed spec fn pos(self) -> int {
        self.index as int
    }

    /// The entries not handed out yet: those of the grid at or after the current position.
    pub open spec fn ahead(self) -> Map<Coord, T> {
        self.grid().contents().restrict(Set::new(|c: Coord| self.grid().index_of(c) >= self.pos()))
    }

    /// The next filled slot, in row-major order, with its coordinate; `None` once there are
    /// no more.
    pub fn next(&mut self) -> (r: Option<(Coord, &'a T)>)
        ensures
            final(self).grid() == old(self).grid(),
            match r {
                Some((c, v)) => {
                    &&& old(self).ahead().contains_key(c)
                    &&& *v == old(self).ahead()[c]
                    &&& forall|d: Coord| #[trigger]
                        old(self).ahead().contains_key(d) ==> old(self).grid().index_of(c)
                            <= old(self).grid().index_of(d)
                    &&& final(self).ahead() == old(self).ahead().remove(c)
                },
                None => old(self).ahead().dom() == Set::<Coord>::empty(),
            },
    {
        let grid = self.grid;
        proof {
            use_type_invariant(&*self);
            use_type_invariant(grid);
        }
        let ghost start = self.index as int;
        while self.index < grid.spots.len()
            invariant
                self.grid == grid,
                old(self).grid == *grid,
                start <= self.index <= grid.cells().len(),
                start == old(self).pos(),
                grid.cells().len() == grid.spec_width() * grid.spec_height(),
                forall|j: int| start <= j < self.index ==> grid.cells()[j] is None,
            decreases grid.cells().len() - self.index,
        {
            let i = self.index;
            self.index = i + 1;
            if let Some(v) = &grid.spots[i] {
                let c = grid.coord_at(i);
                proof {
                    grid.lemma_contents_at(c);
                    assert forall|d: Coord| #[trigger]
                        old(self).ahead().contains_key(d) implies grid.index_of(c)
                        <= grid.index_of(d)
                        && (d != c ==> grid.index_of(d) > i) by {
                        grid.lemma_contents_at(d);
                        lemma_index_in_grid(grid.width as int, grid.height as int, d);
                    }
                    assert forall|d: Coord| #[trigger]
                        self.ahead().contains_key(d) implies old(self).ahead().contains_key(d) by {
                    }
                    assert(self.ahead() =~= old(self).ahead().remove(c));
                }
                return Some((c, v));
            }
        }
        proof {
            assert forall|d: Coord| !#[trigger] old(self).ahead().contains_key(d) by {
                grid.lemma_contents_at(d);
                if grid.in_bounds(d) {
                    lemma_index_in_grid(grid.width as int, grid.height as int, d);
                }
            }
            assert(old(self).ahead().dom() =~= Set::<Coord>::empty());
        }
        None
    }
}

/// Mutably borrowing iterator over the filled slots in a [`Grid`].
///
/// It is a cursor: a handle that `next` gives out lives until `next` is called again.
pub struct GridIterMut<'a, T> {
    /// The grid being walked.
    pub grid: &'a mut Grid<T>,
    /// Row-major position of the next cell to look at.
    pub index: usize,
}

impl<'a, T> GridIterMut<'a, T> {
    /// The entries not handed out yet: those of the grid at or after the current position.
    pub open spec fn ahead(self) -> Map<Coord, T> {
        self.grid.contents().restrict(Set::new(|c: Coord| self.grid.index_of(c) >= self.index))
    }

    /// The next filled slot, in row-major order, with its coordinate and a handle on its value;
    /// `None` once there are no more.
    pub fn next(&mut self) -> (r: Option<(Coord, &mut T)>)
        ensures
            *final(final(self).grid) == *final(old(self).grid),
            match r {
                Some((c, v)) => {
                    &&& old(self).ahead().contains_key(c)
                    &&& *v == old(self).ahead()[c]
                    &&& forall|d: Coord| #[trigger]
                        old(self).ahead().contains_key(d) ==> old(self).grid.index_of(c)
                            <= old(self).grid.index_of(d)
                    &&& final(self).ahead() == old(self).ahead().remove(c)
                    &&& final(self).grid.contents() == old(self).grid.contents().insert(
                        c,
                        *final(v),
                    )
                },
                None => {
                    &&& old(self).ahead().dom() == Set::<Coord>::empty()
                    &&& *final(self).grid == *old(self).grid
                },
            },
    {
        let ghost start = self.index as int;
        let ghost g0 = *self.grid;
        proof {
            use_type_invariant(&*self.grid);
        }
        while self.index < self.grid.spots.len()
            invariant
                *self.grid == g0,
                *old(self).grid == g0,
                *final(self.grid) == *final(old(self).grid),
                start == old(self).index,
                start <= self.index,
                self.index > start ==> self.index <= g0.cells().len(),
                g0.cells().len() == g0.spec_width() * g0.spec_height(),
                forall|j: int| start <= j < self.index ==> g0.cells()[j] is None,
            decreases g0.cells().len() - self.index,
        {
            let i = self.index;
            self.index = i + 1;
            if self.grid.spots[i].is_some() {
                let c = self.grid.coord_at(i);
                proof {
                    g0.lemma_contents_at(c);
                    assert forall|d: Coord| #[trigger]
                        old(self).ahead().contains_key(d) implies g0.index_of(c) <= g0.index_of(d)
                        && (d != c ==> g0.index_of(d) > i) by {
                        g0.lemma_contents_at(d);
                        lemma_index_in_grid(g0.spec_width() as int, g0.spec_height() as int, d);
                    }
                }
                proof {
                    assert forall|it: Self|
                        #![trigger it.ahead()]
                        it.index == i + 1 && it.grid.spec_width() == g0.spec_width()
                            && it.grid.spec_height() == g0.spec_height() && it.grid.contents()
                            == g0.contents().insert(c, it.grid.contents()[c]) implies it.ahead()
                        == old(self).ahead().remove(c) by {
                        assert forall|d: Coord| #[trigger]
                            it.ahead().contains_key(d) == old(self).ahead().remove(c).contains_key(
                                d,
                            ) && (it.ahead().contains_key(d) ==> it.ahead()[d]
                                == old(self).ahead()[d]) by {
                            g0.lemma_contents_at(d);
                            if d != c && g0.in_bounds(d) {
                                let (w, h) = (g0.spec_width() as int, g0.spec_height() as int);
                                lemma_index_in_grid(w, h, d);
                            }
                        }
                        assert(it.ahead() =~= old(self).ahead().remove(c));
                    }
                }
                let v = self.grid.get_mut(c).unwrap();
                return Some((c, v));
            }
        }
        proof {
            assert forall|d: Coord| !#[trigger] old(self).ahead().contains_key(d) by {
                g0.lemma_contents_at(d);
                if g0.in_bounds(d) {
                    lemma_index_in_grid(g0.spec_width() as int, g0.spec_height() as int, d);
                }
            }
            assert(old(self).ahead().dom() =~= Set::<Coord>::empty());
        }
        None
    }
}

/// Owning iterator over the filled slots in a [`Grid`].
pub struct GridIntoIter<T> {
    grid: Grid<T>,
    index: usize,
}

impl<T> GridIntoIter<T> {
    #[verifier::type_invariant]
    spec fn well_formed(self) -> bool {
        &&& self.index <= self.grid.cells().len()
        &&& forall|j: int| 0 <= j < self.index ==> self.grid.cells()[j] is None
    }

    /// Width of the grid being taken apart.
    pub closed spec fn width(self) -> u32 {
        self.grid.spec_width()
    }

    /// The entries not handed out yet.
    pub closed spec fn ahead(self) -> Map<Coord, T> {
        self.grid.contents()
    }

    /// The next filled slot, in row-major order, with its coordinate; `None` once there are
    /// no more.
    pub fn next(&mut self) -> (r: Option<(Coord, T)>)
        ensures
            final(self).width() == old(self).width(),
            match r {
                Some((c, v)) => {
                    &&& old(self).ahead().contains_key(c)
                    &&& v == old(self).ahead()[c]
                    &&& forall|d: Coord| #[trigger]
                        old(self).ahead().contains_key(d) ==> c.y * old(self).width() + c.x <= d.y
                            * old(self).width() + d.x
                    &&& final(self).ahead() == old(self).ahead().remove(c)
                },
                None => old(self).ahead().dom() == Set::<Coord>::empty(),
            },
    {
        proof {
            use_type_invariant(&*self);
            use_type_invariant(&self.grid);
        }
        let ghost w = self.grid.width as int;
        let ghost h = self.grid.height as int;
        loop
            invariant
                self.grid.cells().len() == w * h,
                w * h <= u32::MAX,
                w == self.grid.width,
                h == self.grid.height,
                self.index <= self.grid.cells().len(),
                forall|j: int| 0 <= j < self.index ==> self.grid.cells()[j] is None,
                self.grid.cells() == old(self).grid.cells(),
                self.grid.spec_width() == old(self).grid.spec_width(),
                self.grid.spec_height() == old(self).grid.spec_height(),
            decreases self.grid.cells().len() - self.index,
        {
            if self.index >= self.grid.spots.len() {
                proof {
                    assert(self.grid.cells() =~= old(self).grid.cells());
                    assert forall|d: Coord| !#[trigger] old(self).ahead().contains_key(d) by {
                        old(self).grid.lemma_contents_at(d);
                        if old(self).grid.in_bounds(d) {
                            lemma_index_in_grid(w, h, d);
                        }
                    }
                    assert(old(self).ahead().dom() =~= Set::<Coord>::empty());
                }
                return None;
            }
            let i = self.index;
            if self.grid.spots[i].is_some() {
                let c = self.grid.coord_at(i);
                let ghost before = self.grid;
                proof {
                    before.lemma_contents_at(c);
                    before.lemma_contents_fill_any(c);
                }
                let mut slot: Option<T> = None;
                std::mem::swap(&mut self.grid.spots[i], &mut slot);
                self.index = i + 1;
                proof {
                    assert forall|d: Coord| #[trigger]
                        old(self).ahead().contains_key(d) implies c.y * w + c.x <= d.y * w
                        + d.x by {
                        before.lemma_contents_at(d);
                        lemma_index_in_grid(w, h, d);
                    }
                    assert forall|d: Coord| #[trigger]
                        self.ahead().contains_key(d) == old(self).ahead().remove(c).contains_key(d)
                        && (self.ahead().contains_key(d) ==> self.ahead()[d]
                        == old(self).ahead()[d]) by {
                        self.grid.lemma_contents_at(d);
                        before.lemma_contents_at(d);
                        if d != c && before.in_bounds(d) {
                            lemma_index_in_grid(w, h, d);
                        }
                    }
                    assert(self.ahead() =~= old(self).ahead().remove(c));
                }
                return match slot {
                    Some(v) => Some((c, v)),
                    None => None,
                };
            }
            self.index = i + 1;
        }
    }
}

impl<T: Clone> Clone for Grid<T> {
    fn clone(&self) -> (r: Self) {
        proof {
            use_type_invariant(self);
        }
        Grid { width: self.width, height: self.height, spots: self.spots.clone() }
    }
}

/// Within a grid `w` wide and `h` tall, the row-major position of `c` is one of the grid's
/// cells, and it leads back to `c`.
proof fn lemma_index_in_grid(w: int, h: int, c: Coord)
    requires
        c.x < w,
        c.y < h,
    ensures
        0 <= c.y * w + c.x < w * h,
        coord_of_index(c.y * w + c.x, w) == c,
{
    assert(0 <= c.y * w + c.x < w * h) by (nonlinear_arith)
        requires
            c.x < w,
            c.y < h,
            0 <= c.x,
            0 <= c.y,
    ;
    vstd::arithmetic::div_mod::lemma_fundamental_div_mod_converse(
        c.y * w + c.x,
        w,
        c.y as int,
        c.x as int,
    );
    assert(c.y * w == w * c.y) by (nonlinear_arith);
}

/// A new grid holds nothing, so `contains` is false at every coordinate; after `insert` of
/// `v` at an in-bounds `c`, `contains(c)` holds, `get(c)` gives `v`, and every other
/// coordinate holds what it held before.
pub proof fn lemma_grid_insert_get<T>(g: Grid<T>, c: Coord, v: T, d: Coord)
    ensures
        !Map::<Coord, T>::empty().contains_key(d),
        g.in_bounds(c) ==> {
            &&& g.contents().insert(c, v).contains_key(c)
            &&& g.contents().insert(c, v)[c] == v
        },
        g.in_bounds(c) && d != c ==> {
            &&& g.contents().insert(c, v).contains_key(d) == g.contents().contains_key(d)
            &&& g.contents().contains_key(d) ==> g.contents().insert(c, v)[d] == g.contents()[d]
        },
{
}

/// The `i`th cell, in row-major order, of a grid `w` wide and `h` tall lies within it, and its
/// coordinate leads back to `i`.
proof fn lemma_coord_of_index(w: int, h: int, i: int)
    requires
        0 <= w <= u32::MAX,
        0 <= h <= u32::MAX,
        0 <= i < w * h,
    ensures
        coord_of_index(i, w).x < w,
        coord_of_index(i, w).y < h,
        coord_of_index(i, w).y * w + coord_of_index(i, w).x == i,
{
    assert(w > 0) by (nonlinear_arith)
        requires
            0 <= i < w * h,
            0 <= w,
            0 <= h,
    ;
    vstd::arithmetic::div_mod::lemma_fundamental_div_mod(i, w);
    vstd::arithmetic::div_mod::lemma_mod_pos_bound(i, w);
    assert(0 <= i / w < h) by (nonlinear_arith)
        requires
            w * (i / w) + i % w == i,
            0 <= i % w < w,
            0 <= i < w * h,
    ;
    assert((i / w) * w == w * (i / w)) by (nonlinear_arith);
}

} // verus!
