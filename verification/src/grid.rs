//! Dense 2D grid stored in row-major order, addressed through a window: an
//! `(x_offset, y_offset)` pair shifts the grid's coordinates into a
//! conceptually larger space. Every in-window coordinate maps to exactly one
//! cell; out-of-window access yields an absent result, never a fault.

use vstd::arithmetic::div_mod::lemma_div_is_ordered;
use vstd::arithmetic::div_mod::lemma_div_pos_is_pos;
use vstd::arithmetic::div_mod::lemma_fundamental_div_mod;
use vstd::arithmetic::div_mod::lemma_fundamental_div_mod_converse_div;
use vstd::arithmetic::div_mod::lemma_fundamental_div_mod_converse_mod;
use vstd::arithmetic::div_mod::lemma_mod_bound;
use vstd::arithmetic::div_mod::lemma_multiply_divide_lt;
use vstd::prelude::*;

verus! {

/// The `k`-th coordinate, in row-major order (row outer, column inner), of a
/// window that is `width` cells wide and starts at `(x_off, y_off)`.
pub open spec fn position_at(width: int, x_off: int, y_off: int, k: int) -> (int, int) {
    (x_off + k % width, y_off + k / width)
}

/// Bounds-checked cell access shared by grid implementations. All
/// coordinates are window coordinates: an out-of-window `get` returns `None`
/// and an out-of-window `set` is a no-op.
pub trait Grid<T>: Sized {
    /// The cells in row-major order.
    spec fn model(&self) -> Seq<T>;

    /// Internal consistency of the grid.
    spec fn inv(&self) -> bool;

    /// Whether `(x, y)` lies inside the window.
    spec fn in_window(&self, x: int, y: int) -> bool;

    /// Row-major cell index of the in-window coordinate `(x, y)`.
    spec fn index_in_model(&self, x: int, y: int) -> int;

    /// Both grids present the same window.
    spec fn window_eq(&self, other: &Self) -> bool;

    fn get(&self, x: usize, y: usize) -> (r: Option<&T>)
        requires
            self.inv(),
        ensures
            match r {
                Some(v) => {
                    &&& self.in_window(x as int, y as int)
                    &&& 0 <= self.index_in_model(x as int, y as int) < self.model().len()
                    &&& *v == self.model()[self.index_in_model(x as int, y as int)]
                },
                None => !self.in_window(x as int, y as int),
            },
    ;

    fn set(&mut self, x: usize, y: usize, val: T)
        requires
            old(self).inv(),
        ensures
            final(self).inv(),
            final(self).window_eq(old(self)),
            if old(self).in_window(x as int, y as int) {
                &&& 0 <= old(self).index_in_model(x as int, y as int) < old(self).model().len()
                &&& final(self).model() == old(self).model().update(
                    old(self).index_in_model(x as int, y as int),
                    val,
                )
            } else {
                final(self).model() == old(self).model()
            },
    ;
}

/// Grid in which cells are stored in row-major order (row outer, column
/// inner), behind a window at `(x_offset, y_offset)`.
#[derive(Debug)]
pub struct RowMajorGrid<T> {
    inner_width: usize,
    inner_height: usize,
    x_offset: usize,
    y_offset: usize,
    cells: Vec<T>,
}

impl<T> View for RowMajorGrid<T> {
    type V = Seq<T>;

    closed spec fn view(&self) -> Seq<T> {
        self.cells@
    }
}

impl<T> RowMajorGrid<T> {
    /// Number of columns in the window.
    pub closed spec fn width(&self) -> int {
        self.inner_width as int
    }

    /// Number of rows in the window.
    pub closed spec fn height(&self) -> int {
        self.inner_height as int
    }

    /// Smallest addressable x coordinate.
    pub closed spec fn x_off(&self) -> int {
        self.x_offset as int
    }

    /// Smallest addressable y coordinate.
    pub closed spec fn y_off(&self) -> int {
        self.y_offset as int
    }

    /// The cell storage matches the window, and window coordinates can be
    /// computed without overflowing the machine's word.
    pub open spec fn wf(&self) -> bool {
        &&& 0 <= self.width() && 0 <= self.height() && 0 <= self.x_off() && 0 <= self.y_off()
        &&& self@.len() == self.width() * self.height()
        &&& self.width() * self.height() <= usize::MAX
        &&& self.x_off() + self.width() <= usize::MAX
        &&& self.y_off() + self.height() <= usize::MAX
    }

    /// Whether `(x, y)` lies inside the window.
    pub open spec fn spec_in_bounds(&self, x: int, y: int) -> bool {
        &&& self.x_off() <= x < self.x_off() + self.width()
        &&& self.y_off() <= y < self.y_off() + self.height()
    }

    /// Row-major cell index of the in-window coordinate `(x, y)`.
    pub open spec fn index_of(&self, x: int, y: int) -> int {
        (y - self.y_off()) * self.width() + (x - self.x_off())
    }

    /// The cell stored at the in-window coordinate `(x, y)`.
    pub open spec fn cell_at(&self, x: int, y: int) -> T {
        self@[self.index_of(x, y)]
    }

    /// Both grids have the same window: same size and same offsets.
    pub open spec fn same_window(&self, other: &Self) -> bool {
        &&& self.width() == other.width()
        &&& self.height() == other.height()
        &&& self.x_off() == other.x_off()
        &&& self.y_off() == other.y_off()
    }

    /// An in-window coordinate's row-major index lies inside the cell
    /// storage, and the mapping is injective over the window.
    pub proof fn lemma_index_of_in_range(&self, x: int, y: int)
        requires
            self.wf(),
            self.spec_in_bounds(x, y),
        ensures
            0 <= self.index_of(x, y) < self@.len(),
    {
        let xr = x - self.x_off();
        let yr = y - self.y_off();
        assert(yr * self.width() + xr < self.height() * self.width()) by (nonlinear_arith)
            requires
                0 <= xr < self.width(),
                0 <= yr < self.height(),
        ;
        assert(self.height() * self.width() == self.width() * self.height()) by (nonlinear_arith);
    }

    /// Distinct in-window coordinates map to distinct row-major indices.
    pub proof fn lemma_index_of_injective(&self, x1: int, y1: int, x2: int, y2: int)
        requires
            self.wf(),
            self.spec_in_bounds(x1, y1),
            self.spec_in_bounds(x2, y2),
            self.index_of(x1, y1) == self.index_of(x2, y2),
        ensures
            x1 == x2 && y1 == y2,
    {
        let w = self.width();
        assert(x1 == x2 && y1 == y2) by (nonlinear_arith)
            requires
                0 <= x1 - self.x_off() < w,
                0 <= x2 - self.x_off() < w,
                0 <= y1 - self.y_off(),
                0 <= y2 - self.y_off(),
                (y1 - self.y_off()) * w + (x1 - self.x_off()) == (y2 - self.y_off()) * w + (x2
                    - self.x_off()),
        ;
    }

    /// Row-major index of `(x, y)` when in-window, absent otherwise.
    pub fn index(&self, x: usize, y: usize) -> (r: Option<usize>)
        requires
            self.wf(),
        ensures
            match r {
                Some(i) => self.spec_in_bounds(x as int, y as int) && i == self.index_of(
                    x as int,
                    y as int,
                ) && i < self@.len(),
                None => !self.spec_in_bounds(x as int, y as int),
            },
    {
        let r = pos_to_index(
            x,
            y,
            self.inner_width,
            self.inner_height,
            self.x_offset,
            self.y_offset,
        );
        proof {
            if r is Some {
                self.lemma_index_of_in_range(x as int, y as int);
            }
        }
        r
    }

    /// Whether `(x, y)` lies inside the window.
    pub fn in_bounds(&self, x: usize, y: usize) -> (r: bool)
        requires
            self.wf(),
        ensures
            r == self.spec_in_bounds(x as int, y as int),
    {
        x >= self.x_offset && x < self.x_offset + self.inner_width && y >= self.y_offset && y
            < self.y_offset + self.inner_height
    }
}

impl<T: Copy> RowMajorGrid<T> {
    /// Grid whose window starts at the origin, every cell set to `default`.
    pub fn new(width: usize, height: usize, default: T) -> (r: Self)
        requires
            width * height <= usize::MAX,
        ensures
            r.wf(),
            r.width() == width,
            r.height() == height,
            r.x_off() == 0,
            r.y_off() == 0,
            r@.len() == width * height,
            forall|i: int| 0 <= i < r@.len() ==> r@[i] == default,
    {
        Self::new_sub_grid(width, height, 0, 0, default)
    }

    /// Grid whose window starts at `(x_offset, y_offset)`, every cell set to
    /// `default`.
    pub fn new_sub_grid(
        inner_width: usize,
        inner_height: usize,
        x_offset: usize,
        y_offset: usize,
        default: T,
    ) -> (r: Self)
        requires
            inner_width * inner_height <= usize::MAX,
            x_offset + inner_width <= usize::MAX,
            y_offset + inner_height <= usize::MAX,
        ensures
            r.wf(),
            r.width() == inner_width,
            r.height() == inner_height,
            r.x_off() == x_offset,
            r.y_off() == y_offset,
            r@.len() == inner_width * inner_height,
            forall|i: int| 0 <= i < r@.len() ==> r@[i] == default,
    {
        let n = inner_width * inner_height;
        let mut cells: Vec<T> = Vec::new();
        let mut i: usize = 0;
        while i < n
            invariant
                i <= n,
                cells@.len() == i,
                forall|j: int| 0 <= j < i ==> cells@[j] == default,
            decreases n - i,
        {
            cells.push(default);
            i = i + 1;
        }
        RowMajorGrid { inner_width, inner_height, x_offset, y_offset, cells }
    }
}

impl<T: Copy> RowMajorGrid<T> {
    /// The cell at the in-window coordinate `(x, y)`, absent out of window.
    pub fn get(&self, x: usize, y: usize) -> (r: Option<&T>)
        requires
            self.wf(),
        ensures
            match r {
                Some(v) => self.spec_in_bounds(x as int, y as int) && *v == self.cell_at(
                    x as int,
                    y as int,
                ),
                None => !self.spec_in_bounds(x as int, y as int),
            },
    {
        if let Some(i) = self.index(x, y) {
            Some(&self.cells[i])
        } else {
            None
        }
    }

    /// Replaces the cell at the in-window coordinate `(x, y)`; out of window
    /// the grid is left unchanged.
    pub fn set(&mut self, x: usize, y: usize, val: T)
        requires
            old(self).wf(),
        ensures
            final(self).wf(),
            final(self).same_window(old(self)),
            if old(self).spec_in_bounds(x as int, y as int) {
                final(self)@ == old(self)@.update(old(self).index_of(x as int, y as int), val)
            } else {
                final(self)@ == old(self)@
            },
    {
        if let Some(i) = self.index(x, y) {
            self.cells[i] = val;
        }
    }
}

impl<T: Copy> Grid<T> for RowMajorGrid<T> {
    open spec fn model(&self) -> Seq<T> {
        self@
    }

    open spec fn inv(&self) -> bool {
        self.wf()
    }

    open spec fn in_window(&self, x: int, y: int) -> bool {
        self.spec_in_bounds(x, y)
    }

    open spec fn index_in_model(&self, x: int, y: int) -> int {
        self.index_of(x, y)
    }

    open spec fn window_eq(&self, other: &Self) -> bool {
        self.same_window(other)
    }

    fn get(&self, x: usize, y: usize) -> (r: Option<&T>) {
        let r = RowMajorGrid::get(self, x, y);
        proof {
            if r is Some {
                self.lemma_index_of_in_range(x as int, y as int);
            }
        }
        r
    }

    fn set(&mut self, x: usize, y: usize, val: T) {
        proof {
            if old(self).spec_in_bounds(x as int, y as int) {
                old(self).lemma_index_of_in_range(x as int, y as int);
            }
        }
        RowMajorGrid::set(self, x, y, val);
    }
}

impl<T> RowMajorGrid<T> {
    /// The cell storage in row-major order.
    pub fn cells(&self) -> (r: &Vec<T>)
        ensures
            r@ == self@,
    {
        &self.cells
    }

    /// Lazy, restartable walk over every window coordinate, row by row.
    pub fn position_iter(&self) -> (r: PositionIter)
        requires
            self.wf(),
        ensures
            r.wf(),
            r.window_of(self.width(), self.height(), self.x_off(), self.y_off()),
            r.emitted() == 0,
    {
        PositionIter::new(self.inner_width, self.inner_height, self.x_offset, self.y_offset)
    }

    /// Lazy walk over the grid's cells paired with their window coordinates.
    pub fn iter(&self) -> (r: Iter<'_, T>)
        requires
            self.wf(),
        ensures
            r.wf(),
            r.grid_is(self),
            r.emitted() == 0,
    {
        Iter { grid: self, next_index: 0 }
    }

    /// Lazy walk over the grid's rows as slices.
    pub fn row_iter(&self) -> (r: RowIter<'_, T>)
        requires
            self.wf(),
        ensures
            r.wf(),
            r.grid_is(self),
            r.emitted_rows() == 0,
    {
        RowIter { grid: self, next_row: 0 }
    }
}

/// Walks the coordinates of a window in row-major order without borrowing
/// the grid that produced it.
pub struct PositionIter {
    inner_width: usize,
    inner_height: usize,
    x_offset: usize,
    y_offset: usize,
    emitted: usize,
}

impl PositionIter {
    /// Number of columns in the window being walked.
    pub closed spec fn width(&self) -> int {
        self.inner_width as int
    }

    /// Number of rows in the window being walked.
    pub closed spec fn height(&self) -> int {
        self.inner_height as int
    }

    /// Smallest addressable x coordinate of the window being walked.
    pub closed spec fn x_off(&self) -> int {
        self.x_offset as int
    }

    /// Smallest addressable y coordinate of the window being walked.
    pub closed spec fn y_off(&self) -> int {
        self.y_offset as int
    }

    /// How many coordinates have been yielded so far.
    pub closed spec fn emitted(&self) -> int {
        self.emitted as int
    }

    /// The walk never runs past the window, and coordinate arithmetic cannot
    /// overflow the machine's word.
    pub open spec fn wf(&self) -> bool {
        &&& 0 <= self.width() && 0 <= self.height() && 0 <= self.x_off() && 0 <= self.y_off()
        &&& 0 <= self.emitted() <= self.width() * self.height()
        &&& self.width() * self.height() <= usize::MAX
        &&& self.x_off() + self.width() <= usize::MAX
        &&& self.y_off() + self.height() <= usize::MAX
    }

    /// The iterator walks the window of `w` by `h` cells at `(xo, yo)`.
    pub open spec fn window_of(&self, w: int, h: int, xo: int, yo: int) -> bool {
        &&& self.width() == w
        &&& self.height() == h
        &&& self.x_off() == xo
        &&& self.y_off() == yo
    }

    /// Iterator over the window of `inner_width` by `inner_height` cells at
    /// `(x_offset, y_offset)`, positioned before the first coordinate.
    pub fn new(
        inner_width: usize,
        inner_height: usize,
        x_offset: usize,
        y_offset: usize,
    ) -> (r: Self)
        requires
            inner_width * inner_height <= usize::MAX,
            x_offset + inner_width <= usize::MAX,
            y_offset + inner_height <= usize::MAX,
        ensures
            r.wf(),
            r.window_of(inner_width as int, inner_height as int, x_offset as int, y_offset as int),
            r.emitted() == 0,
    {
        PositionIter { inner_width, inner_height, x_offset, y_offset, emitted: 0 }
    }

    /// The next window coordinate in row-major order, or `None` once all
    /// `width * height` coordinates have been yielded.
    pub fn next(&mut self) -> (r: Option<(usize, usize)>)
        requires
            old(self).wf(),
        ensures
            final(self).wf(),
            final(self).window_of(
                old(self).width(),
                old(self).height(),
                old(self).x_off(),
                old(self).y_off(),
            ),
            if old(self).emitted() < old(self).width() * old(self).height() {
                ({
                    let p = position_at(
                        old(self).width(),
                        old(self).x_off(),
                        old(self).y_off(),
                        old(self).emitted(),
                    );
                    &&& r == Some((p.0 as usize, p.1 as usize))
                    &&& final(self).emitted() == old(self).emitted() + 1
                })
            } else {
                &&& r is None
                &&& final(self).emitted() == old(self).emitted()
            },
    {
        if self.emitted < self.inner_width * self.inner_height {
            proof {
                assert(self.inner_width > 0) by (nonlinear_arith)
                    requires
                        (self.emitted as int) < (self.inner_width as int) * (
                        self.inner_height as int),
                        self.emitted >= 0,
                ;
                lemma_mod_bound(self.emitted as int, self.inner_width as int);
                lemma_div_pos_is_pos(self.emitted as int, self.inner_width as int);
                lemma_multiply_divide_lt(
                    self.emitted as int,
                    self.inner_width as int,
                    self.inner_height as int,
                );
            }
            let x = self.x_offset + self.emitted % self.inner_width;
            let y = self.y_offset + self.emitted / self.inner_width;
            self.emitted = self.emitted + 1;
            Some((x, y))
        } else {
            None
        }
    }
}

/// Every coordinate that a row-major walk of a window yields lies in the
/// window, no coordinate is yielded twice, every window coordinate is
/// yielded exactly at its row-major rank, and later ranks come row by row
/// after earlier ones.
pub proof fn lemma_position_walk_covers_window(w: int, h: int, xo: int, yo: int)
    requires
        0 < w,
        0 <= h,
    ensures
        forall|k: int|
            0 <= k < w * h ==> {
                let p = #[trigger] position_at(w, xo, yo, k);
                xo <= p.0 < xo + w && yo <= p.1 < yo + h
            },
        forall|k1: int, k2: int|
            0 <= k1 < k2 < w * h ==> position_at(w, xo, yo, k1) != position_at(w, xo, yo, k2),
        forall|x: int, y: int|
            xo <= x < xo + w && yo <= y < yo + h ==> #[trigger] position_at(
                w,
                xo,
                yo,
                (y - yo) * w + (x - xo),
            ) == (x, y),
{
    assert forall|k: int| 0 <= k < w * h implies {
        let p = #[trigger] position_at(w, xo, yo, k);
        xo <= p.0 < xo + w && yo <= p.1 < yo + h
    } by {
        lemma_mod_bound(k, w);
        lemma_div_pos_is_pos(k, w);
        lemma_multiply_divide_lt(k, w, h);
    }
    assert forall|k1: int, k2: int| 0 <= k1 < k2 < w * h implies position_at(w, xo, yo, k1)
        != position_at(w, xo, yo, k2) by {
        if position_at(w, xo, yo, k1) == position_at(w, xo, yo, k2) {
            lemma_fundamental_div_mod(k1, w);
            lemma_fundamental_div_mod(k2, w);
        }
    }
    assert forall|x: int, y: int| xo <= x < xo + w && yo <= y < yo + h implies #[trigger] position_at(
        w,
        xo,
        yo,
        (y - yo) * w + (x - xo),
    ) == (x, y) by {
        let k = (y - yo) * w + (x - xo);
        lemma_fundamental_div_mod_converse_mod(k, w, y - yo, x - xo);
        lemma_fundamental_div_mod_converse_div(k, w, y - yo, x - xo);
    }
}

/// The coordinate at rank `k` of a row-major walk lies in the window, and
/// its row-major index is `k` itself.
pub proof fn lemma_rank_roundtrip(w: int, h: int, xo: int, yo: int, k: int)
    requires
        0 < w,
        0 <= k < w * h,
    ensures
        ({
            let p = position_at(w, xo, yo, k);
            &&& xo <= p.0 < xo + w
            &&& yo <= p.1 < yo + h
            &&& (p.1 - yo) * w + (p.0 - xo) == k
        }),
{
    lemma_mod_bound(k, w);
    lemma_div_pos_is_pos(k, w);
    lemma_multiply_divide_lt(k, w, h);
    lemma_fundamental_div_mod(k, w);
    assert((k / w) * w == w * (k / w)) by (nonlinear_arith);
}

/// A row-major walk visits whole rows in order: of two ranks, the earlier
/// one lies on an earlier row, or on the same row at a smaller column.
pub proof fn lemma_position_walk_row_major(w: int, h: int, xo: int, yo: int, k1: int, k2: int)
    requires
        0 < w,
        0 <= k1 < k2 < w * h,
    ensures
        ({
            let p1 = position_at(w, xo, yo, k1);
            let p2 = position_at(w, xo, yo, k2);
            p1.1 < p2.1 || (p1.1 == p2.1 && p1.0 < p2.0)
        }),
{
    lemma_div_is_ordered(k1, k2, w);
    if k1 / w == k2 / w {
        lemma_fundamental_div_mod(k1, w);
        lemma_fundamental_div_mod(k2, w);
    }
}

/// Walks a grid's cells in row-major order, yielding each coordinate with a
/// reference to its cell.
pub struct Iter<'a, T> {
    grid: &'a RowMajorGrid<T>,
    next_index: usize,
}

impl<'a, T> Iter<'a, T> {
    /// How many cells have been yielded so far.
    pub closed spec fn emitted(&self) -> int {
        self.next_index as int
    }

    /// The grid being walked.
    pub closed spec fn walked(&self) -> RowMajorGrid<T> {
        *self.grid
    }

    /// The grid being walked.
    pub open spec fn grid_is(&self, g: &RowMajorGrid<T>) -> bool {
        self.walked() == *g
    }

    /// The walk never runs past the grid, which stays well formed.
    pub open spec fn wf(&self) -> bool {
        &&& self.walked().wf()
        &&& 0 <= self.emitted() <= self.walked()@.len()
    }

    /// The next coordinate and cell in row-major order, or `None` once every
    /// cell has been yielded.
    pub fn next(&mut self) -> (r: Option<(usize, usize, &'a T)>)
        requires
            old(self).wf(),
        ensures
            final(self).wf(),
            final(self).walked() == old(self).walked(),
            ({
                let g = old(self).walked();
                if old(self).emitted() < g@.len() {
                    ({
                        let p = position_at(g.width(), g.x_off(), g.y_off(), old(self).emitted());
                        &&& r matches Some(t) && t.0 == p.0 && t.1 == p.1 && *t.2 == g@[old(
                            self,
                        ).emitted()]
                        &&& final(self).emitted() == old(self).emitted() + 1
                    })
                } else {
                    &&& r is None
                    &&& final(self).emitted() == old(self).emitted()
                }
            }),
    {
        let g = self.grid;
        if let Some((x, y)) = index_to_pos(
            self.next_index,
            g.inner_width,
            g.inner_height,
            g.x_offset,
            g.y_offset,
        ) {
            let i = self.next_index;
            self.next_index = self.next_index + 1;
            Some((x, y, &g.cells[i]))
        } else {
            None
        }
    }
}

/// Walks a grid's rows in order, yielding each row as a slice.
pub struct RowIter<'a, T> {
    grid: &'a RowMajorGrid<T>,
    next_row: usize,
}

impl<'a, T> RowIter<'a, T> {
    /// How many rows have been yielded so far.
    pub closed spec fn emitted_rows(&self) -> int {
        self.next_row as int
    }

    /// The grid being walked.
    pub closed spec fn walked(&self) -> RowMajorGrid<T> {
        *self.grid
    }

    /// The grid being walked.
    pub open spec fn grid_is(&self, g: &RowMajorGrid<T>) -> bool {
        self.walked() == *g
    }

    /// The walk never runs past the grid, which stays well formed.
    pub open spec fn wf(&self) -> bool {
        &&& self.walked().wf()
        &&& 0 <= self.emitted_rows() <= self.walked().height()
    }

    /// The next full row of cells, or `None` once every row has been
    /// yielded.
    pub fn next(&mut self) -> (r: Option<&'a [T]>)
        requires
            old(self).wf(),
        ensures
            final(self).wf(),
            final(self).walked() == old(self).walked(),
            ({
                let g = old(self).walked();
                if old(self).emitted_rows() < g.height() {
                    ({
                        let row = old(self).emitted_rows();
                        &&& r matches Some(s) && s@ == g@.subrange(
                            row * g.width(),
                            (row + 1) * g.width(),
                        )
                        &&& final(self).emitted_rows() == row + 1
                    })
                } else {
                    &&& r is None
                    &&& final(self).emitted_rows() == old(self).emitted_rows()
                }
            }),
    {
        let g = self.grid;
        if self.next_row < g.inner_height {
            proof {
                assert((self.next_row as int) * (g.inner_width as int) + g.inner_width as int <= (
                g.inner_height as int) * (g.inner_width as int)) by (nonlinear_arith)
                    requires
                        (self.next_row as int) < (g.inner_height as int),
                        g.inner_width >= 0,
                ;
                assert((g.inner_height as int) * (g.inner_width as int) == (g.inner_width as int) * (
                g.inner_height as int)) by (nonlinear_arith);
                assert(((self.next_row as int) + 1) * (g.inner_width as int) == (
                self.next_row as int) * (g.inner_width as int) + (g.inner_width as int))
                    by (nonlinear_arith);
            }
            let start = self.next_row * g.inner_width;
            let end = start + g.inner_width;
            let s = vstd::slice::slice_subrange(g.cells.as_slice(), start, end);
            self.next_row = self.next_row + 1;
            Some(s)
        } else {
            None
        }
    }
}

/// Position `(x, y)` corresponding to the row-major `index` in a window of
/// `inner_width` by `inner_height` cells at `(x_offset, y_offset)`, absent
/// when the index lies past the window.
pub fn index_to_pos(
    index: usize,
    inner_width: usize,
    inner_height: usize,
    x_offset: usize,
    y_offset: usize,
) -> (r: Option<(usize, usize)>)
    requires
        inner_width * inner_height <= usize::MAX,
        x_offset + inner_width <= usize::MAX,
        y_offset + inner_height <= usize::MAX,
    ensures
        match r {
            Some(p) => {
                &&& index < inner_width * inner_height
                &&& p.0 == x_offset + (index as int) % (inner_width as int)
                &&& p.1 == y_offset + (index as int) / (inner_width as int)
            },
            None => index >= inner_width * inner_height,
        },
{
    if index < inner_width * inner_height {
        proof {
            assert(inner_width > 0) by (nonlinear_arith)
                requires
                    index < inner_width * inner_height,
                    index >= 0,
            ;
            assert((index as int) / (inner_width as int) < inner_height as int) by (nonlinear_arith)
                requires
                    0 < inner_width,
                    0 <= index,
                    index < inner_width * inner_height,
            ;
        }
        Some((index % inner_width + x_offset, index / inner_width + y_offset))
    } else {
        None
    }
}

/// Row-major index corresponding to the window position `(x, y)` in a window
/// of `inner_width` by `inner_height` cells at `(x_offset, y_offset)`,
/// absent when the position lies out of the window.
pub fn pos_to_index(
    x: usize,
    y: usize,
    inner_width: usize,
    inner_height: usize,
    x_offset: usize,
    y_offset: usize,
) -> (r: Option<usize>)
    requires
        inner_width * inner_height <= usize::MAX,
        x_offset + inner_width <= usize::MAX,
        y_offset + inner_height <= usize::MAX,
    ensures
        ({
            let in_window = {
                &&& x_offset <= x < x_offset + inner_width
                &&& y_offset <= y < y_offset + inner_height
            };
            match r {
                Some(i) => in_window && i == (y - y_offset) * inner_width + (x - x_offset),
                None => !in_window,
            }
        }),
{
    if x >= x_offset && x < x_offset + inner_width && y >= y_offset && y < y_offset + inner_height {
        let xr = x - x_offset;
        let yr = y - y_offset;
        proof {
            assert(yr * inner_width + xr < inner_width * inner_height) by (nonlinear_arith)
                requires
                    0 <= xr < inner_width,
                    0 <= yr < inner_height,
            ;
        }
        Some(yr * inner_width + xr)
    } else {
        None
    }
}

} // verus!
