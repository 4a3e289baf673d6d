//! The closed set of editing operations.

use crate::pixel::FullPixel;
use vstd::prelude::*;

verus! {

/// Number of characters of a stored grid name; shorter names are
/// blank-padded to this width.
pub const NAME_LEN: usize = 16;

/// Grid kinds.
#[derive(Clone, Copy, PartialEq, Eq, Structural, Debug, Hash)]
pub enum Grid {
    Generation,
}

/// Workspace tools: grid management.
#[derive(Clone, Copy, Debug)]
pub enum WorkspaceTool {
    AddGrid([char; NAME_LEN]),
    RenameGrid([char; NAME_LEN]),
    DeleteGrid,
    SwitchGrid(usize),
}

/// Grid tools: grid cleaner and grid size incrementors and decrementors.
#[derive(Clone, Copy, PartialEq, Eq, Structural, Debug)]
pub enum GridTool {
    ClearGrid,
    HeightDecrementor,
    HeightIncrementor,
    WidthDecrementor,
    WidthIncrementor,
}

/// Grid cells' content setters, with coordinates.
#[derive(Clone, Copy, PartialEq, Eq, Structural, Debug)]
pub enum CellTool {
    PixelBrush(FullPixel, u16, u16),
    PixelEraser(u16, u16),
}

/// Any tool.
#[derive(Clone, Copy, Debug)]
pub enum Tool {
    WorkspaceSetter(WorkspaceTool),
    GridSetter(GridTool),
    CellSetter(CellTool),
}

/// Whether two grid name arrays hold the same characters.
pub fn names_eq(a: &[char; NAME_LEN], b: &[char; NAME_LEN]) -> (r: bool)
    ensures
        r == (*a == *b),
{
    broadcast use vstd::array::group_array_axioms;

    let mut i: usize = 0;
    while i < NAME_LEN
        invariant
            i <= NAME_LEN,
            forall|j: int| 0 <= j < i ==> a@[j] == b@[j],
        decreases NAME_LEN - i,
    {
        if a[i] != b[i] {
            assert(a@[i as int] != b@[i as int]);
            assert(!(*a =~= *b));
            return false;
        }
        i += 1;
    }
    assert(*a =~= *b);
    true
}

impl PartialEq for WorkspaceTool {
    fn eq(&self, other: &Self) -> (r: bool) {
        match (self, other) {
            (WorkspaceTool::AddGrid(a), WorkspaceTool::AddGrid(b)) => names_eq(a, b),
            (WorkspaceTool::RenameGrid(a), WorkspaceTool::RenameGrid(b)) => names_eq(a, b),
            (WorkspaceTool::DeleteGrid, WorkspaceTool::DeleteGrid) => true,
            (WorkspaceTool::SwitchGrid(a), WorkspaceTool::SwitchGrid(b)) => a == b,
            _ => false,
        }
    }
}

impl vstd::std_specs::cmp::PartialEqSpecImpl for WorkspaceTool {
    open spec fn obeys_eq_spec() -> bool {
        true
    }

    open spec fn eq_spec(&self, other: &Self) -> bool {
        *self == *other
    }
}

impl PartialEq for Tool {
    fn eq(&self, other: &Self) -> (r: bool) {
        match (self, other) {
            (Tool::WorkspaceSetter(a), Tool::WorkspaceSetter(b)) => a == b,
            (Tool::GridSetter(a), Tool::GridSetter(b)) => a == b,
            (Tool::CellSetter(a), Tool::CellSetter(b)) => a == b,
            _ => false,
        }
    }
}

impl vstd::std_specs::cmp::PartialEqSpecImpl for Tool {
    open spec fn obeys_eq_spec() -> bool {
        true
    }

    open spec fn eq_spec(&self, other: &Self) -> bool {
        *self == *other
    }
}

} // verus!
