//! Immutable records of one tool application against one grid.

use crate::tools::{CellTool, Grid, Tool};
use vstd::prelude::*;

verus! {

/// A user action: one tool applied against one grid.
///
/// A cell-level action is created with coordinates in the user interface's
/// raw viewport space; `corrected` rewrites them once into store-local
/// coordinates and marks the action checked. The coordinates of a cell-level
/// action are meaningful only after that correction. The fields are public
/// so that contracts can speak of them directly.
#[derive(Clone, Copy, Debug)]
pub struct Action {
    pub grid_id: usize,
    pub grid: Grid,
    pub tool: Tool,
    /// Whether the one-time coordinate correction already happened.
    /// Equality of actions ignores this flag.
    pub checked: bool,
}

/// Action equality, which compares target grid and tool but ignores the
/// `checked` flag.
pub open spec fn action_like(a: Action, b: Action) -> bool {
    a.grid_id == b.grid_id && a.grid == b.grid && a.tool == b.tool
}

impl PartialEq for Action {
    fn eq(&self, other: &Self) -> (r: bool) {
        (self.grid_id == other.grid_id) && (self.grid == other.grid)
            && (self.tool == other.tool)
    }
}

impl vstd::std_specs::cmp::PartialEqSpecImpl for Action {
    open spec fn obeys_eq_spec() -> bool {
        true
    }

    open spec fn eq_spec(&self, other: &Self) -> bool {
        action_like(*self, *other)
    }
}

impl Action {
    /// A new, uncorrected action.
    pub fn new(target: (Grid, usize), tool: Tool) -> (r: Action)
        ensures
            r == (Action { grid_id: target.1, grid: target.0, tool, checked: false }),
    {
        let (grid, grid_id) = target;
        Action { grid_id, grid, tool, checked: false }
    }

    pub fn get_grid_id(&self) -> (r: usize)
        ensures
            r == self.grid_id,
    {
        self.grid_id
    }

    pub fn get_grid(&self) -> (r: Grid)
        ensures
            r == self.grid,
    {
        self.grid
    }

    pub fn get_tool(&self) -> (r: Tool)
        ensures
            r == self.tool,
    {
        self.tool
    }

    pub fn is_checked(&self) -> (r: bool)
        ensures
            r == self.checked,
    {
        self.checked
    }

    /// What `corrected` returns: the same action marked checked, with the
    /// viewport origin subtracted from cell-level coordinates. Correcting an
    /// already-checked action changes nothing.
    pub open spec fn spec_corrected(self, left: Option<u16>, top: Option<u16>) -> Action {
        if self.checked {
            self
        } else {
            let tool = match self.tool {
                Tool::CellSetter(CellTool::PixelBrush(pixel, x, y)) => Tool::CellSetter(
                    CellTool::PixelBrush(
                        pixel,
                        (x - left->Some_0) as u16,
                        (y - top->Some_0) as u16,
                    ),
                ),
                Tool::CellSetter(CellTool::PixelEraser(x, y)) => Tool::CellSetter(
                    CellTool::PixelEraser((x - left->Some_0) as u16, (y - top->Some_0) as u16),
                ),
                _ => self.tool,
            };
            Action { tool, checked: true, ..self }
        }
    }

    /// A copy of this action with its grid coordinates fitted to the store's
    /// coordinate system. For an unchecked cell-level action the viewport
    /// origin must be given and must not exceed the raw coordinates, as the
    /// caller establishes by its bounds check.
    pub fn corrected(&self, left: Option<u16>, top: Option<u16>) -> (r: Action)
        requires
            !self.checked && self.tool is CellSetter ==> {
                &&& left is Some
                &&& top is Some
                &&& match self.tool {
                    Tool::CellSetter(CellTool::PixelBrush(_, x, y)) => left->Some_0 <= x
                        && top->Some_0 <= y,
                    Tool::CellSetter(CellTool::PixelEraser(x, y)) => left->Some_0 <= x
                        && top->Some_0 <= y,
                    _ => true,
                }
            },
        ensures
            r == self.spec_corrected(left, top),
    {
        if !self.checked {
            Action {
                grid_id: self.grid_id,
                grid: self.grid,
                tool: match self.tool {
                    Tool::WorkspaceSetter(_) => self.tool,
                    Tool::GridSetter(_) => self.tool,
                    Tool::CellSetter(cell_tool) => {
                        match cell_tool {
                            CellTool::PixelBrush(pixel, x, y) => Tool::CellSetter(
                                CellTool::PixelBrush(pixel, x - left.unwrap(), y - top.unwrap()),
                            ),
                            CellTool::PixelEraser(x, y) => Tool::CellSetter(
                                CellTool::PixelEraser(x - left.unwrap(), y - top.unwrap()),
                            ),
                        }
                    },
                },
                checked: true,
            }
        } else {
            *self
        }
    }
}

} // verus!
