//! Coordinate frames of the world lattice.
//!
//! A [`GridCoord`] addresses a cell. A [`CartCoord`] is a point of the world in
//! whole world units, with `z` as elevation. One cell spans [`GRID_SIZE`] world
//! units along `x` and along `y`.

use vstd::prelude::*;

verus! {

/// World units per grid cell.
pub const GRID_SIZE: i64 = 30;

/// Address of a grid cell.
#[derive(Debug, Clone, Copy, PartialEq, Eq, Structural)]
pub struct GridCoord {
    pub x: i32,
    pub y: i32,
}

/// A point of the world lattice, in whole world units.
#[derive(Debug, Clone, Copy, PartialEq, Eq, Structural)]
pub struct CartCoord {
    pub x: i64,
    pub y: i64,
    pub z: i64,
}

impl GridCoord {
    pub fn new(x: i32, y: i32) -> (grid: Self)
        ensures
            grid.x == x,
            grid.y == y,
    {
        GridCoord { x, y }
    }
}

impl CartCoord {
    pub fn new(x: i64, y: i64, z: i64) -> (cart: Self)
        ensures
            cart.x == x,
            cart.y == y,
            cart.z == z,
    {
        CartCoord { x, y, z }
    }
}

/// The quotient `units / GRID_SIZE` rounded to the nearest whole number, a tie
/// going away from zero.
pub open spec fn nearest_cell(units: int) -> int {
    if units >= 0 {
        (2 * units + GRID_SIZE) / (2 * GRID_SIZE)
    } else {
        -((GRID_SIZE - 2 * units) / (2 * GRID_SIZE))
    }
}

/// `v` held to the range of an `i32`.
pub open spec fn saturate_i32(v: int) -> int {
    if v < i32::MIN {
        i32::MIN as int
    } else if v > i32::MAX {
        i32::MAX as int
    } else {
        v
    }
}

/// Where a cell stands in the world: both axes scaled by the cell size, on
/// the ground.
pub open spec fn grid_to_cart(grid: GridCoord) -> CartCoord {
    CartCoord { x: (grid.x * GRID_SIZE) as i64, y: (grid.y * GRID_SIZE) as i64, z: 0 }
}

/// The cell nearest to a point of the world, each axis rounded by itself.
pub open spec fn cart_to_grid(cart: CartCoord) -> GridCoord {
    GridCoord {
        x: saturate_i32(nearest_cell(cart.x as int)) as i32,
        y: saturate_i32(nearest_cell(cart.y as int)) as i32,
    }
}

/// The cell index nearest to `units` world units along one axis, held to the
/// range of an `i32`.
pub fn quantize(units: i64) -> (cell: i32)
    ensures
        cell == saturate_i32(nearest_cell(units as int)),
{
    let size: i128 = GRID_SIZE as i128;
    let doubled: i128 = 2 * (units as i128);
    let quotient: i128 = if units >= 0 {
        (doubled + size) / (2 * size)
    } else {
        -((size - doubled) / (2 * size))
    };
    if quotient < i32::MIN as i128 {
        i32::MIN
    } else if quotient > i32::MAX as i128 {
        i32::MAX
    } else {
        quotient as i32
    }
}

/// Grid to cartesian: the corner of the cell with the lowest `x` and `y`, on
/// the ground.
impl From<GridCoord> for CartCoord {
    fn from(grid: GridCoord) -> (cart: CartCoord) {
        CartCoord { x: grid.x as i64 * GRID_SIZE, y: grid.y as i64 * GRID_SIZE, z: 0 }
    }
}

impl vstd::std_specs::convert::FromSpecImpl<GridCoord> for CartCoord {
    open spec fn obeys_from_spec() -> bool {
        true
    }

    open spec fn from_spec(grid: GridCoord) -> CartCoord {
        grid_to_cart(grid)
    }
}

/// Cartesian to grid: each of `x` and `y` goes to the nearest cell index by
/// itself, and the elevation is dropped. This loses the position inside the
/// cell, so it is no inverse of the conversion from grid to cartesian: only
/// the other way round gives the cell back.
impl From<CartCoord> for GridCoord {
    fn from(cart: CartCoord) -> (grid: GridCoord) {
        GridCoord { x: quantize(cart.x), y: quantize(cart.y) }
    }
}

impl vstd::std_specs::convert::FromSpecImpl<CartCoord> for GridCoord {
    open spec fn obeys_from_spec() -> bool {
        true
    }

    open spec fn from_spec(cart: CartCoord) -> GridCoord {
        cart_to_grid(cart)
    }
}

/// `nearest_cell` with the cell size written out.
proof fn lemma_nearest_cell_unfolded(units: int)
    ensures
        GRID_SIZE == 30,
        units >= 0 ==> nearest_cell(units) == (2 * units + 30) / 60,
        units < 0 ==> nearest_cell(units) == -((30 - 2 * units) / 60),
{
}

/// Rounding picks a nearest cell: the cell's corner is at most half a cell
/// away from the point, and where two corners are equally near, the one
/// farther from the origin is taken.
pub proof fn lemma_nearest_cell_is_nearest(units: int)
    ensures
        -GRID_SIZE <= 2 * (units - nearest_cell(units) * GRID_SIZE) <= GRID_SIZE,
        2 * (units - nearest_cell(units) * GRID_SIZE) == GRID_SIZE ==> units < 0,
        2 * (units - nearest_cell(units) * GRID_SIZE) == -GRID_SIZE ==> units > 0,
{
    lemma_nearest_cell_unfolded(units);
}

/// A whole number of cells is its own nearest cell.
pub proof fn lemma_nearest_cell_of_corner(cell: int)
    ensures
        nearest_cell(cell * GRID_SIZE) == cell,
{
    lemma_nearest_cell_unfolded(cell * 30);
}

/// Grid quantization: a cell address taken to cartesian and back is the same
/// cell address, for every cell.
pub proof fn lemma_grid_cart_grid(grid: GridCoord)
    ensures
        cart_to_grid(grid_to_cart(grid)) == grid,
{
    lemma_nearest_cell_of_corner(grid.x as int);
    lemma_nearest_cell_of_corner(grid.y as int);
}

} // verus!
