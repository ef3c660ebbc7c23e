//! The visibility memory: one cell per map coordinate, holding when the
//! coordinate was last seen and what stood there at that moment.

use vstd::prelude::*;
use crate::change::TileInfo;
use crate::coord::{lemma_index_in_range, lemma_index_injective, Coord, Size};
use crate::vecs::copy_vec;
use crate::grid::{grid_cells, grid_dimensions, grid_get, grid_new, grid_put, grid_size};

verus! {

/// What is remembered of one coordinate. `last_updated == 0` means that the
/// coordinate was never observed.
#[derive(Debug)]
pub struct VisibilityCell {
    pub tiles: Vec<TileInfo>,
    pub last_updated: u64,
}

/// The mathematical value of a [`VisibilityCell`].
pub struct CellView {
    pub tiles: Seq<TileInfo>,
    pub last_updated: u64,
}

/// One coordinate reported by a line-of-sight query, with what the spatial
/// index holds for it: its freshness marker and the tiles that stand there.
#[derive(Debug)]
pub struct Sighting {
    pub coord: Coord,
    pub freshness: u64,
    pub tiles: Vec<TileInfo>,
}

/// The mathematical value of a [`Sighting`].
pub struct SightingView {
    pub coord: Coord,
    pub freshness: u64,
    pub tiles: Seq<TileInfo>,
}

/// Whether an observed coordinate is in sight now or only remembered.
#[derive(Clone, Copy, Debug, PartialEq, Eq, Structural)]
pub enum Visibility {
    Visible,
    Remembered,
}

pub struct VisibilityGrid {
    grid: grid_2d::Grid<VisibilityCell>,
}

/// The mathematical value of a [`VisibilityGrid`]: its size and its cells,
/// row by row.
pub struct GridView {
    pub size: Size,
    pub cells: Seq<CellView>,
}

impl View for VisibilityCell {
    type V = CellView;

    open spec fn view(&self) -> CellView {
        CellView { tiles: self.tiles@, last_updated: self.last_updated }
    }
}

impl View for Sighting {
    type V = SightingView;

    open spec fn view(&self) -> SightingView {
        SightingView { coord: self.coord, freshness: self.freshness, tiles: self.tiles@ }
    }
}

impl View for VisibilityGrid {
    type V = GridView;

    closed spec fn view(&self) -> GridView {
        GridView { size: grid_size(self.grid), cells: grid_cells(self.grid) }
    }
}

impl CellView {
    /// The cell of a coordinate that was never observed.
    pub open spec fn unseen() -> CellView {
        CellView { tiles: Seq::empty(), last_updated: 0 }
    }

    /// How a cell that was observed at some time shows at `time`; `None`
    /// for a cell that was never observed.
    pub open spec fn visibility_at(self, time: u64) -> Option<Visibility> {
        if self.last_updated == 0 {
            None
        } else if self.last_updated == time {
            Some(Visibility::Visible)
        } else {
            Some(Visibility::Remembered)
        }
    }

    /// The cell after its coordinate was sighted at `tick`: the snapshot is
    /// replaced when the sighting is fresher than the cell, and the cell is
    /// stamped with `tick` either way.
    pub open spec fn observed(self, tick: u64, s: SightingView) -> CellView {
        CellView {
            tiles: if s.freshness > self.last_updated {
                s.tiles
            } else {
                self.tiles
            },
            last_updated: tick,
        }
    }
}

impl Default for VisibilityCell {
    fn default() -> (cell: VisibilityCell)
        ensures
            cell@ == CellView::unseen(),
    {
        VisibilityCell { tiles: Vec::new(), last_updated: 0 }
    }
}

/// The views of a sequence of sightings.
pub open spec fn sighting_views(sightings: Seq<Sighting>) -> Seq<SightingView> {
    sightings.map_values(|s: Sighting| s@)
}

impl GridView {
    pub open spec fn wf(self) -> bool {
        self.size.wf() && self.cells.len() == self.size.count()
    }

    /// A grid of `size` in which nothing was ever observed.
    pub open spec fn blank(size: Size) -> GridView {
        GridView { size, cells: Seq::new(size.count(), |i: int| CellView::unseen()) }
    }

    /// The cell at a coordinate, `None` outside the grid.
    pub open spec fn get(self, c: Coord) -> Option<CellView> {
        if self.size.contains(c) {
            Some(self.cells[self.size.index_of(c)])
        } else {
            None
        }
    }

    /// The grid after one sighting at `tick`. A sighting outside the grid is
    /// ignored.
    pub open spec fn sighted(self, tick: u64, s: SightingView) -> GridView {
        if self.size.contains(s.coord) {
            let i = self.size.index_of(s.coord);
            GridView { size: self.size, cells: self.cells.update(i, self.cells[i].observed(tick, s)) }
        } else {
            self
        }
    }

    /// The grid after the sightings of one line-of-sight query were
    /// reconciled, in the order in which the query yielded them.
    pub open spec fn reconciled(self, tick: u64, sightings: Seq<SightingView>) -> GridView
        decreases sightings.len(),
    {
        if sightings.len() == 0 {
            self
        } else {
            self.reconciled(tick, sightings.drop_last()).sighted(tick, sightings.last())
        }
    }

    /// Whether a query yielded the coordinate.
    pub open spec fn yielded(sightings: Seq<SightingView>, c: Coord) -> bool {
        exists|i: int| 0 <= i < sightings.len() && (#[trigger] sightings[i]).coord == c
    }

    /// Whether the cell at row-major index `i` is listed among the visible
    /// and remembered cells: it was observed at some time.
    pub open spec fn listed(self, i: int) -> bool {
        0 <= i < self.cells.len() && self.cells[i].last_updated != 0
    }

    /// The first listed row-major index at or after `from`, or the cell
    /// count when there is none.
    pub open spec fn next_listed(self, from: int) -> int
        decreases self.cells.len() - from,
    {
        if from < 0 || from >= self.cells.len() {
            self.cells.len() as int
        } else if self.listed(from) {
            from
        } else {
            self.next_listed(from + 1)
        }
    }
}

impl VisibilityGrid {
    /// Well-formed grids have a valid size and one cell per coordinate.
    pub open spec fn wf(&self) -> bool {
        self@.wf()
    }

    /// A grid of `size` in which nothing was ever observed.
    pub fn new(size: Size) -> (g: VisibilityGrid)
        requires
            size.wf(),
        ensures
            g.wf(),
            g@ == GridView::blank(size),
    {
        VisibilityGrid { grid: grid_new(size) }
    }

    pub fn size(&self) -> (size: Size)
        ensures
            size == self@.size,
    {
        grid_dimensions(&self.grid)
    }

    /// The cell at `coord`, `None` outside the grid.
    pub fn get(&self, coord: Coord) -> (r: Option<&VisibilityCell>)
        ensures
            match r {
                Some(cell) => self@.get(coord) == Some(cell@),
                None => self@.get(coord) is None,
            },
    {
        grid_get(&self.grid, coord)
    }

    /// Resets every cell to the never-observed state.
    pub fn clear(&mut self)
        requires
            old(self).wf(),
        ensures
            final(self).wf(),
            final(self)@ == GridView::blank(old(self)@.size),
    {
        let size = self.size();
        let mut y: u32 = 0;
        while y < size.height
            invariant
                size == old(self)@.size,
                self@.size == size,
                self@.wf(),
                y <= size.height,
                forall|i: int| 0 <= i < y * size.width ==> self@.cells[i] == CellView::unseen(),
            decreases size.height - y,
        {
            let mut x: u32 = 0;
            while x < size.width
                invariant
                    self@.size == size,
                    self@.wf(),
                    y < size.height,
                    x <= size.width,
                    forall|i: int|
                        0 <= i < y * size.width + x ==> self@.cells[i] == CellView::unseen(),
                decreases size.width - x,
            {
                let c = Coord { x: x as i32, y: y as i32 };
                proof {
                    lemma_index_in_range(size, c);
                }
                grid_put(&mut self.grid, c, VisibilityCell::default());
                x += 1;
            }
            assert((y + 1) * size.width == y * size.width + size.width) by (nonlinear_arith);
            y += 1;
        }
        assert(self@.cells.len() == size.height * size.width) by (nonlinear_arith)
            requires
                self@.cells.len() == size.width * size.height,
        ;
        assert(self@.cells =~= GridView::blank(size).cells);
    }

    /// Reconciles the memory with one line-of-sight query made at `tick`.
    ///
    /// Every sighted coordinate is stamped with `tick`; its snapshot is
    /// replaced when the sighting is fresher than what was remembered.
    /// Coordinates that were not sighted keep what they had.
    pub fn reconcile(&mut self, tick: u64, sightings: &Vec<Sighting>)
        requires
            old(self).wf(),
        ensures
            final(self).wf(),
            final(self)@ == old(self)@.reconciled(tick, sighting_views(sightings@)),
    {
        let size = self.size();
        let ghost views = sighting_views(sightings@);
        let mut i: usize = 0;
        while i < sightings.len()
            invariant
                i <= sightings@.len(),
                views == sighting_views(sightings@),
                size == old(self)@.size,
                old(self)@.wf(),
                self@.wf(),
                self@ == old(self)@.reconciled(tick, views.take(i as int)),
            decreases sightings@.len() - i,
        {
            let s = &sightings[i];
            proof {
                assert(views.take(i + 1).drop_last() =~= views.take(i as int));
                assert(views.take(i + 1).last() == s@);
                lemma_reconciled_size(old(self)@, tick, views.take(i as int));
            }
            if size.is_valid(s.coord) {
                proof {
                    lemma_index_in_range(size, s.coord);
                }
                let tiles = match grid_get(&self.grid, s.coord) {
                    Some(cell) => {
                        if s.freshness > cell.last_updated {
                            copy_vec(&s.tiles)
                        } else {
                            copy_vec(&cell.tiles)
                        }
                    },
                    None => copy_vec(&s.tiles),
                };
                grid_put(&mut self.grid, s.coord, VisibilityCell { tiles, last_updated: tick });
                assert(self@.cells =~= old(self)@.reconciled(tick, views.take(i as int)).sighted(
                    tick,
                    s@,
                ).cells);
            }
            i += 1;
        }
        assert(views.take(sightings@.len() as int) =~= views);
    }

    /// A copy of the grid.
    pub fn duplicate(&self) -> (g: VisibilityGrid)
        requires
            self.wf(),
        ensures
            g.wf(),
            g@ == self@,
    {
        let size = self.size();
        let mut g = VisibilityGrid::new(size);
        let mut y: u32 = 0;
        while y < size.height
            invariant
                size == self@.size,
                self@.wf(),
                g@.size == size,
                g@.wf(),
                y <= size.height,
                forall|i: int| 0 <= i < y * size.width ==> g@.cells[i] == self@.cells[i],
            decreases size.height - y,
        {
            let mut x: u32 = 0;
            while x < size.width
                invariant
                    size == self@.size,
                    self@.wf(),
                    g@.size == size,
                    g@.wf(),
                    y < size.height,
                    x <= size.width,
                    forall|i: int|
                        0 <= i < y * size.width + x ==> g@.cells[i] == self@.cells[i],
                decreases size.width - x,
            {
                let c = Coord { x: x as i32, y: y as i32 };
                proof {
                    lemma_index_in_range(size, c);
                }
                match grid_get(&self.grid, c) {
                    Some(cell) => {
                        let copy = VisibilityCell {
                            tiles: copy_vec(&cell.tiles),
                            last_updated: cell.last_updated,
                        };
                        grid_put(&mut g.grid, c, copy);
                    },
                    None => {},
                }
                x += 1;
            }
            assert((y + 1) * size.width == y * size.width + size.width) by (nonlinear_arith);
            y += 1;
        }
        assert(g@.cells.len() == size.height * size.width) by (nonlinear_arith)
            requires
                g@.cells.len() == size.width * size.height,
        ;
        assert(g@.cells =~= self@.cells);
        g
    }
}

/// Reconciling keeps the size of the grid and the number of its cells.
pub proof fn lemma_reconciled_size(grid: GridView, tick: u64, sightings: Seq<SightingView>)
    requires
        grid.wf(),
    ensures
        grid.reconciled(tick, sightings).size == grid.size,
        grid.reconciled(tick, sightings).wf(),
    decreases sightings.len(),
{
    if sightings.len() > 0 {
        lemma_reconciled_size(grid, tick, sightings.drop_last());
        let before = grid.reconciled(tick, sightings.drop_last());
        if before.size.contains(sightings.last().coord) {
            lemma_index_in_range(before.size, sightings.last().coord);
        }
    }
}

/// A cursor over the cells that were observed at some time, row by row.
pub struct VisibilityIter<'a> {
    grid: &'a VisibilityGrid,
    index: u32,
    time: u64,
}

/// The coordinate of the cell at a row-major index.
pub open spec fn coord_at(size: Size, index: int) -> Coord {
    Coord { x: (index % size.width as int) as i32, y: (index / size.width as int) as i32 }
}

/// The coordinate of a row-major index lies in the grid and has that index.
pub proof fn lemma_coord_at(size: Size, index: int)
    requires
        size.wf(),
        0 <= index < size.count(),
    ensures
        0 <= index % (size.width as int) < size.width,
        0 <= index / (size.width as int) < size.height,
        size.contains(coord_at(size, index)),
        size.index_of(coord_at(size, index)) == index,
{
    let w = size.width as int;
    let h = size.height as int;
    assert(w > 0) by (nonlinear_arith)
        requires
            0 <= index < w * h,
            w >= 0,
    ;
    assert(0 <= index % w < w && index == (index / w) * w + index % w) by (nonlinear_arith)
        requires
            w > 0,
    ;
    assert(0 <= index / w < h) by (nonlinear_arith)
        requires
            w > 0,
            0 <= index < w * h,
            index == (index / w) * w + index % w,
            0 <= index % w < w,
    ;
}

impl<'a> VisibilityIter<'a> {
    /// The row-major index of the cell the cursor looks at next.
    pub closed spec fn position(&self) -> int {
        self.index as int
    }

    /// The tick against which cells count as visible.
    pub closed spec fn time(&self) -> u64 {
        self.time
    }

    /// The grid the cursor walks.
    pub closed spec fn grid(&self) -> GridView {
        self.grid@
    }

    pub closed spec fn wf(&self) -> bool {
        self.grid@.wf() && self.index <= self.grid@.cells.len()
    }

    /// The next cell that was observed at some time, with its coordinate
    /// and whether it is visible at the cursor's tick or only remembered.
    /// Cells that were never observed are passed over. `None` once no
    /// observed cell is left.
    pub fn next(&mut self) -> (r: Option<(&'a Vec<TileInfo>, Coord, Visibility)>)
        requires
            old(self).wf(),
        ensures
            final(self).wf(),
            final(self).grid() == old(self).grid(),
            final(self).time() == old(self).time(),
            ({
                let grid = old(self).grid();
                let found = grid.next_listed(old(self).position());
                match r {
                    Some((tiles, coord, visibility)) => {
                        &&& found < grid.cells.len()
                        &&& final(self).position() == found + 1
                        &&& coord == coord_at(grid.size, found)
                        &&& tiles@ == grid.cells[found].tiles
                        &&& Some(visibility) == grid.cells[found].visibility_at(old(self).time())
                    },
                    None => found == grid.cells.len() && final(self).position() == found,
                }
            }),
    {
        let grid: &'a VisibilityGrid = self.grid;
        let size = grid.size();
        let total: u32 = size.width * size.height;
        while self.index < total
            invariant
                self.grid == grid,
                grid == old(self).grid,
                grid@.wf(),
                size == grid@.size,
                total == grid@.cells.len(),
                self.index <= total,
                self.time == old(self).time,
                grid@.next_listed(self.index as int) == grid@.next_listed(old(self).index as int),
            decreases total - self.index,
        {
            let at = self.index;
            proof {
                lemma_coord_at(size, at as int);
            }
            let coord = Coord { x: (at % size.width) as i32, y: (at / size.width) as i32 };
            self.index = at + 1;
            match grid.get(coord) {
                Some(cell) => {
                    if cell.last_updated != 0 {
                        let visibility = if cell.last_updated == self.time {
                            Visibility::Visible
                        } else {
                            Visibility::Remembered
                        };
                        return Some((&cell.tiles, coord, visibility));
                    }
                },
                None => {},
            }
        }
        None
    }
}

impl VisibilityGrid {
    /// A cursor over the observed cells, against the tick `time`.
    pub fn iter(&self, time: u64) -> (it: VisibilityIter<'_>)
        requires
            self.wf(),
        ensures
            it.wf(),
            it.grid() == self@,
            it.time() == time,
            it.position() == 0,
    {
        VisibilityIter { grid: self, index: 0, time }
    }

    /// Replaces the cell at `coord`. Returns whether `coord` lies inside
    /// the grid; outside it nothing changes.
    pub fn put(&mut self, coord: Coord, cell: VisibilityCell) -> (inside: bool)
        requires
            old(self).wf(),
        ensures
            final(self).wf(),
            final(self)@.size == old(self)@.size,
            inside == old(self)@.size.contains(coord),
            final(self)@.cells == if inside {
                old(self)@.cells.update(old(self)@.size.index_of(coord), cell@)
            } else {
                old(self)@.cells
            },
    {
        let size = self.size();
        if size.is_valid(coord) {
            proof {
                lemma_index_in_range(size, coord);
            }
            grid_put(&mut self.grid, coord, cell);
            true
        } else {
            false
        }
    }
}

/// One sighting stamps its own cell and leaves every other cell as it was.
pub proof fn lemma_sighted(grid: GridView, tick: u64, s: SightingView, c: Coord)
    requires
        grid.wf(),
        grid.size.contains(c),
    ensures
        grid.sighted(tick, s).get(c) == if s.coord == c {
            Some(grid.get(c).unwrap().observed(tick, s))
        } else {
            grid.get(c)
        },
{
    lemma_index_in_range(grid.size, c);
    if grid.size.contains(s.coord) {
        lemma_index_in_range(grid.size, s.coord);
        if s.coord != c && grid.size.index_of(s.coord) == grid.size.index_of(c) {
            lemma_index_injective(grid.size, s.coord, c);
        }
    }
}

/// After a query is reconciled at `tick`, every coordinate the query
/// yielded is stamped with `tick`, and every other coordinate holds what it
/// held before. So a coordinate is stamped with `tick` only if the query
/// yielded it or it carried that stamp already.
pub proof fn lemma_reconciled(grid: GridView, tick: u64, sightings: Seq<SightingView>, c: Coord)
    requires
        grid.wf(),
        grid.size.contains(c),
    ensures
        GridView::yielded(sightings, c) ==> grid.reconciled(tick, sightings).get(
            c,
        ).unwrap().last_updated == tick,
        !GridView::yielded(sightings, c) ==> grid.reconciled(tick, sightings).get(c) == grid.get(c),
        grid.reconciled(tick, sightings).get(c).unwrap().last_updated == tick
            ==> GridView::yielded(sightings, c) || grid.get(c).unwrap().last_updated == tick,
    decreases sightings.len(),
{
    if sightings.len() > 0 {
        let front = sightings.drop_last();
        let last = sightings.last();
        lemma_reconciled(grid, tick, front, c);
        lemma_reconciled_size(grid, tick, front);
        lemma_sighted(grid.reconciled(tick, front), tick, last, c);
        if GridView::yielded(front, c) {
            let i = choose|i: int| 0 <= i < front.len() && (#[trigger] front[i]).coord == c;
            assert(sightings[i].coord == c);
        }
        if last.coord == c {
            assert(sightings[sightings.len() - 1].coord == c);
        }
        if GridView::yielded(sightings, c) && last.coord != c {
            let i = choose|i: int| 0 <= i < sightings.len() && (#[trigger] sightings[i]).coord == c;
            assert(front[i].coord == c);
        }
    }
}

/// One line-of-sight query: the tick it was made at and what it yielded.
pub struct Query {
    pub tick: u64,
    pub sightings: Seq<SightingView>,
}

impl GridView {
    /// The grid after a sequence of queries was reconciled, one after the
    /// other.
    pub open spec fn replayed(self, queries: Seq<Query>) -> GridView
        decreases queries.len(),
    {
        if queries.len() == 0 {
            self
        } else {
            self.replayed(queries.drop_last()).reconciled(
                queries.last().tick,
                queries.last().sightings,
            )
        }
    }
}

/// A coordinate that no query ever yielded is still in the never-observed
/// state, whatever else was seen, and so is not listed among the visible
/// and remembered cells.
pub proof fn lemma_never_yielded(size: Size, queries: Seq<Query>, c: Coord)
    requires
        size.wf(),
        size.contains(c),
        forall|k: int| 0 <= k < queries.len() ==> !GridView::yielded(
            (#[trigger] queries[k]).sightings,
            c,
        ),
    ensures
        GridView::blank(size).replayed(queries).wf(),
        GridView::blank(size).replayed(queries).size == size,
        GridView::blank(size).replayed(queries).get(c) == Some(CellView::unseen()),
        !GridView::blank(size).replayed(queries).listed(size.index_of(c)),
    decreases queries.len(),
{
    lemma_index_in_range(size, c);
    if queries.len() > 0 {
        let front = queries.drop_last();
        assert(forall|k: int| 0 <= k < front.len() ==> front[k] == queries[k]);
        lemma_never_yielded(size, front, c);
        let before = GridView::blank(size).replayed(front);
        lemma_reconciled_size(before, queries.last().tick, queries.last().sightings);
        lemma_reconciled(before, queries.last().tick, queries.last().sightings, c);
    }
}

/// With ticks that only grow, a cell that shows as visible was yielded by
/// the query of this very tick: if no cell carries the stamp `tick` before
/// the query at `tick` is reconciled, then afterwards exactly the yielded
/// coordinates carry it.
pub proof fn lemma_visible_iff_yielded(
    grid: GridView,
    tick: u64,
    sightings: Seq<SightingView>,
    c: Coord,
)
    requires
        grid.wf(),
        grid.size.contains(c),
        forall|i: int| 0 <= i < grid.cells.len() ==> (#[trigger] grid.cells[i]).last_updated != tick,
    ensures
        grid.reconciled(tick, sightings).get(c).unwrap().last_updated == tick
            <==> GridView::yielded(sightings, c),
{
    lemma_index_in_range(grid.size, c);
    lemma_reconciled(grid, tick, sightings, c);
}

} // verus!
