//! The dense grid that backs the visibility memory: `grid_2d::Grid`, seen
//! through contracts that are taken from its source and not proved here.

use vstd::prelude::*;
use crate::coord::{Coord, Size};
use crate::visibility::{CellView, VisibilityCell};

verus! {

#[verifier::external_type_specification]
#[verifier::external_body]
#[verifier::reject_recursive_types(T)]
pub struct ExGrid<T>(grid_2d::Grid<T>);

/// The cells of a grid, row by row.
pub uninterp spec fn grid_cells(g: grid_2d::Grid<VisibilityCell>) -> Seq<CellView>;

/// The size a grid was made with.
pub uninterp spec fn grid_size(g: grid_2d::Grid<VisibilityCell>) -> Size;

/// Calls `grid_2d::Grid::new_default`, which fills a grid of the given size
/// with `width * height` default cells. `UCoord::new` panics above
/// `i32::MAX` and the cell count is computed in `u32`: a valid size avoids
/// both.
#[verifier::external_body]
pub(crate) fn grid_new(size: Size) -> (g: grid_2d::Grid<VisibilityCell>)
    requires
        size.wf(),
    ensures
        grid_size(g) == size,
        grid_cells(g) == Seq::new(size.count(), |i: int| CellView::unseen()),
{
    grid_2d::Grid::new_default(grid_2d::UCoord::new(size.width, size.height))
}

/// Calls `grid_2d::Grid::size`, which returns the size the grid was made
/// with.
#[verifier::external_body]
pub(crate) fn grid_dimensions(g: &grid_2d::Grid<VisibilityCell>) -> (size: Size)
    ensures
        size == grid_size(*g),
{
    let size = g.size();
    Size { width: size.width(), height: size.height() }
}

/// Calls `grid_2d::Grid::get`, which returns the cell at row-major index
/// `y * width + x` for a coordinate inside the grid and `None` for any
/// other.
#[verifier::external_body]
pub(crate) fn grid_get(g: &grid_2d::Grid<VisibilityCell>, c: Coord) -> (r: Option<&VisibilityCell>)
    ensures
        match r {
            Some(cell) => grid_size(*g).contains(c) && cell@ == grid_cells(*g)[grid_size(
                *g,
            ).index_of(c)],
            None => !grid_size(*g).contains(c),
        },
{
    g.get(grid_2d::ICoord::new(c.x, c.y))
}

/// Calls `grid_2d::Grid::get_checked_mut`, which hands out the cell at
/// row-major index `y * width + x` and panics outside the grid, and stores
/// `cell` there. Nothing else in the grid changes.
#[verifier::external_body]
pub(crate) fn grid_put(g: &mut grid_2d::Grid<VisibilityCell>, c: Coord, cell: VisibilityCell)
    requires
        grid_size(*old(g)).contains(c),
    ensures
        grid_size(*final(g)) == grid_size(*old(g)),
        grid_cells(*final(g)) == grid_cells(*old(g)).update(
            grid_size(*old(g)).index_of(c),
            cell@,
        ),
{
    *g.get_checked_mut(grid_2d::ICoord::new(c.x, c.y)) = cell;
}

} // verus!
