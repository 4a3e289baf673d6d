//! Keys of the sparse cell store.

use crate::pixel::Pixel;
use crate::tools::{CellTool, Grid};
use vstd::prelude::*;

verus! {

/// One cell of a grid: a (grid id, grid kind, coordinate) key into the
/// sparse store. The fields are public so that contracts can speak of them
/// directly; a `Cell` is a plain value and carries no invariant.
#[derive(Clone, Copy, PartialEq, Eq, Structural, Debug, Hash)]
pub struct Cell {
    pub grid_id: usize,
    pub grid: Grid,
    pub x: u16,
    pub y: u16,
}

impl Cell {
    /// Turns a cell-level tool application into the store key it addresses
    /// and the content it writes (`Pixel::Empty` for the eraser).
    pub fn new(key: (usize, Grid, CellTool)) -> (r: (Cell, Pixel))
        ensures
            r == Cell::spec_new(key.0, key.1, key.2),
    {
        let (grid_id, grid, tool) = key;
        match tool {
            CellTool::PixelBrush(pixel, x, y) => (
                Cell { grid_id, grid, x, y },
                Pixel::Full(pixel),
            ),
            CellTool::PixelEraser(x, y) => (
                Cell { grid_id, grid, x, y },
                Pixel::Empty,
            ),
        }
    }

    /// What `new` returns, as a function of its arguments.
    pub open spec fn spec_new(grid_id: usize, grid: Grid, tool: CellTool) -> (Cell, Pixel) {
        match tool {
            CellTool::PixelBrush(pixel, x, y) => (
                Cell { grid_id, grid, x, y },
                Pixel::Full(pixel),
            ),
            CellTool::PixelEraser(x, y) => (
                Cell { grid_id, grid, x, y },
                Pixel::Empty,
            ),
        }
    }

    /// A copy of this cell under another grid id.
    pub fn set_grid_id(&self, new_grid_id: usize) -> (r: Cell)
        ensures
            r == (Cell { grid_id: new_grid_id, ..*self }),
    {
        Cell { grid_id: new_grid_id, grid: self.grid, x: self.x, y: self.y }
    }

    pub fn get_grid_id(&self) -> (r: usize)
        ensures
            r == self.grid_id,
    {
        self.grid_id
    }

    pub fn get_grid(&self) -> (r: Grid)
        ensures
            r == self.grid,
    {
        self.grid
    }

    pub fn get_x(&self) -> (r: u16)
        ensures
            r == self.x,
    {
        self.x
    }

    pub fn get_y(&self) -> (r: u16)
        ensures
            r == self.y,
    {
        self.y
    }
}

} // verus!
