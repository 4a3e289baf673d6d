//! The sparse multi-grid cell store.
//!
//! A `Grids` value owns the workspace structure (grid names, shared width
//! and height, scroll offsets, the current grid) and a sparse map from
//! cells to pixel content, bounded by a fixed capacity. It applies one
//! [`Action`](crate::action::Action) at a time through [`Grids::update`]
//! and reports what happened: the previous content of the touched cell,
//! and whether a paint insertion was refused because the store is full.

use crate::action::Action;
use crate::cell::Cell;
use crate::pixel::{FullPixel, Pixel};
use crate::tools::{CellTool, Grid, GridTool, Tool, WorkspaceTool, NAME_LEN};
use vstd::prelude::*;

verus! {

/// Grids narrower or shorter than one cell are refused, as are grids wider
/// or taller than this limit.
pub const SIZE_LIMIT: u16 = 512;

/// Width and height of the initial grid.
pub const DEFAULT_GRID_SIZE: u16 = 10;

/// Number of grids past which `is_full` reports saturation.
pub const MAX_GRIDS: usize = 10;

/// The greatest grid size a store accepts.
pub fn size_limit() -> (r: u16)
    ensures
        r == SIZE_LIMIT,
{
    SIZE_LIMIT
}

/// The two ways a candidate grid name can be rejected.
#[derive(Clone, Copy, PartialEq, Eq, Structural, Debug)]
pub enum NameError {
    /// The candidate was empty.
    EmptyName,
    /// The candidate, once blank-padded, is already the name of a grid.
    NameInUse,
}

/// The part of the store's state that `update` alone drives: the cell map,
/// the grid names, the shared dimensions and the capacity. Undo replays are
/// compared over this projection.
#[verifier::ext_equal]
pub ghost struct CoreV {
    pub cells: Seq<(Cell, FullPixel)>,
    pub names: Seq<Seq<char>>,
    pub width: u16,
    pub height: u16,
    pub capacity: usize,
}

/// The abstract state of a [`Grids`] value.
#[verifier::ext_equal]
pub ghost struct GridsV {
    pub core: CoreV,
    pub current_grid_id: usize,
    pub current_grid: Grid,
    pub error: Option<NameError>,
    pub scroll_x: u16,
    pub scroll_y: u16,
    pub switch_cursor: usize,
}

/// Whether some entry of `cells` has key `k`.
pub open spec fn has_key(cells: Seq<(Cell, FullPixel)>, k: Cell) -> bool {
    exists|i: int| 0 <= i < cells.len() && cells[i].0 == k
}

/// The index of the entry with key `k`; meaningful only when the keys are
/// distinct and `has_key` holds.
pub open spec fn key_idx(cells: Seq<(Cell, FullPixel)>, k: Cell) -> int {
    choose|i: int| 0 <= i < cells.len() && cells[i].0 == k
}

/// The content stored under key `k`, if any.
pub open spec fn lookup(cells: Seq<(Cell, FullPixel)>, k: Cell) -> Option<FullPixel> {
    if has_key(cells, k) {
        Some(cells[key_idx(cells, k)].1)
    } else {
        None
    }
}

/// `cells` with content `v` under key `k`: overwritten in place when the
/// key is present, appended otherwise.
pub open spec fn cells_insert(cells: Seq<(Cell, FullPixel)>, k: Cell, v: FullPixel) -> Seq<
    (Cell, FullPixel),
> {
    if has_key(cells, k) {
        cells.update(key_idx(cells, k), (k, v))
    } else {
        cells.push((k, v))
    }
}

/// `cells` without the entry under key `k`, if one was there.
pub open spec fn cells_remove(cells: Seq<(Cell, FullPixel)>, k: Cell) -> Seq<(Cell, FullPixel)> {
    if has_key(cells, k) {
        cells.remove(key_idx(cells, k))
    } else {
        cells
    }
}

/// No two entries share a key.
pub open spec fn cells_distinct(cells: Seq<(Cell, FullPixel)>) -> bool {
    forall|i: int, j: int| 0 <= i < j < cells.len() ==> cells[i].0 != cells[j].0
}

/// A sequence of `n` blanks.
pub open spec fn spaces(n: nat) -> Seq<char> {
    Seq::new(n, |i: int| ' ')
}

/// A candidate name blank-padded to the fixed width.
pub open spec fn pad_name(s: Seq<char>) -> Seq<char>
    recommends
        s.len() <= NAME_LEN,
{
    s + spaces((NAME_LEN - s.len()) as nat)
}

/// What one action does to the core state.
pub open spec fn core_update_state(c: CoreV, a: Action) -> CoreV {
    match a.tool {
        Tool::CellSetter(tool) => {
            let (key, value) = Cell::spec_new(a.grid_id, a.grid, tool);
            match value {
                Pixel::Empty => CoreV { cells: cells_remove(c.cells, key), ..c },
                Pixel::Full(content) => {
                    if has_key(c.cells, key) || c.cells.len() < c.capacity {
                        CoreV { cells: cells_insert(c.cells, key, content), ..c }
                    } else {
                        c
                    }
                },
            }
        },
        Tool::GridSetter(tool) => match tool {
            GridTool::ClearGrid => CoreV {
                cells: c.cells.filter(
                    |e: (Cell, FullPixel)| !(e.0.grid_id == a.grid_id && e.0.grid == a.grid),
                ),
                ..c
            },
            GridTool::WidthIncrementor => {
                if c.width < SIZE_LIMIT {
                    CoreV { width: (c.width + 1) as u16, ..c }
                } else {
                    c
                }
            },
            GridTool::WidthDecrementor => {
                if c.width > 1 {
                    let w = (c.width - 1) as u16;
                    CoreV {
                        width: w,
                        cells: c.cells.filter(|e: (Cell, FullPixel)| e.0.x < w),
                        ..c
                    }
                } else {
                    c
                }
            },
            GridTool::HeightIncrementor => {
                if c.height < SIZE_LIMIT {
                    CoreV { height: (c.height + 1) as u16, ..c }
                } else {
                    c
                }
            },
            GridTool::HeightDecrementor => {
                if c.height > 1 {
                    let h = (c.height - 1) as u16;
                    CoreV {
                        height: h,
                        cells: c.cells.filter(|e: (Cell, FullPixel)| e.0.y < h),
                        ..c
                    }
                } else {
                    c
                }
            },
        },
        Tool::WorkspaceSetter(tool) => match tool {
            WorkspaceTool::AddGrid(name) => CoreV { names: c.names.push(name@), ..c },
            WorkspaceTool::RenameGrid(name) => {
                if a.grid_id < c.names.len() {
                    CoreV { names: c.names.update(a.grid_id as int, name@), ..c }
                } else {
                    c
                }
            },
            WorkspaceTool::DeleteGrid => {
                if c.names.len() > 1 && a.grid_id < c.names.len() {
                    let cleared = c.cells.filter(
                        |e: (Cell, FullPixel)| !(e.0.grid_id == a.grid_id && e.0.grid == a.grid),
                    );
                    CoreV {
                        cells: cleared.map_values(
                            |e: (Cell, FullPixel)|
                                if e.0.grid_id > a.grid_id {
                                    (Cell { grid_id: (e.0.grid_id - 1) as usize, ..e.0 }, e.1)
                                } else {
                                    e
                                },
                        ),
                        names: c.names.remove(a.grid_id as int),
                        ..c
                    }
                } else {
                    c
                }
            },
            WorkspaceTool::SwitchGrid(target) => {
                let other = if target > a.grid_id {
                    target + 1
                } else {
                    target as int
                };
                if a.grid_id < c.names.len() && 0 <= other < c.names.len() {
                    CoreV {
                        cells: c.cells.map_values(
                            |e: (Cell, FullPixel)|
                                if e.0.grid_id == a.grid_id {
                                    (Cell { grid_id: other as usize, ..e.0 }, e.1)
                                } else if e.0.grid_id == other {
                                    (Cell { grid_id: a.grid_id, ..e.0 }, e.1)
                                } else {
                                    e
                                },
                        ),
                        names: c.names.update(a.grid_id as int, c.names[other]).update(
                            other,
                            c.names[a.grid_id as int],
                        ),
                        ..c
                    }
                } else {
                    c
                }
            },
        },
    }
}

/// What `update` answers for one action: the previous content of the
/// touched cell, and whether a paint insertion was refused for capacity.
pub open spec fn core_update_result(c: CoreV, a: Action) -> (Option<FullPixel>, bool) {
    match a.tool {
        Tool::CellSetter(tool) => {
            let (key, value) = Cell::spec_new(a.grid_id, a.grid, tool);
            match value {
                Pixel::Empty => (lookup(c.cells, key), false),
                Pixel::Full(content) => {
                    if has_key(c.cells, key) || c.cells.len() < c.capacity {
                        (lookup(c.cells, key), false)
                    } else {
                        (None, true)
                    }
                },
            }
        },
        _ => (None, false),
    }
}

/// Where the current grid id moves under one action.
pub open spec fn nav_update(id: usize, c: CoreV, a: Action) -> usize {
    match a.tool {
        Tool::CellSetter(_) => {
            if a.grid_id < c.names.len() {
                a.grid_id
            } else {
                id
            }
        },
        Tool::GridSetter(tool) => match tool {
            GridTool::ClearGrid => {
                if a.grid_id < c.names.len() {
                    a.grid_id
                } else {
                    id
                }
            },
            _ => id,
        },
        Tool::WorkspaceSetter(tool) => match tool {
            WorkspaceTool::AddGrid(_) => c.names.len() as usize,
            WorkspaceTool::RenameGrid(_) => {
                if a.grid_id < c.names.len() {
                    a.grid_id
                } else {
                    id
                }
            },
            WorkspaceTool::DeleteGrid => {
                if c.names.len() > 1 && a.grid_id < c.names.len() {
                    if a.grid_id + 1 >= c.names.len() {
                        (a.grid_id - 1) as usize
                    } else {
                        a.grid_id
                    }
                } else {
                    id
                }
            },
            WorkspaceTool::SwitchGrid(target) => {
                let other = if target > a.grid_id {
                    target + 1
                } else {
                    target as int
                };
                if a.grid_id < c.names.len() && 0 <= other < c.names.len() {
                    a.grid_id
                } else {
                    id
                }
            },
        },
    }
}

/// What one action does to the whole store state, together with what
/// `update` returns for it. The cell map, names and dimensions of the
/// result depend only on their old values, never on the navigation fields.
pub open spec fn spec_update(g: GridsV, a: Action) -> (GridsV, Option<FullPixel>, bool) {
    (
        GridsV {
            core: core_update_state(g.core, a),
            current_grid_id: nav_update(g.current_grid_id, g.core, a),
            ..g
        },
        core_update_result(g.core, a).0,
        core_update_result(g.core, a).1,
    )
}

/// Well-formedness of the core state: keys are distinct, the store is
/// within its capacity, the dimensions are in range and at least one grid
/// exists.
pub open spec fn wf_core(c: CoreV) -> bool {
    &&& cells_distinct(c.cells)
    &&& c.cells.len() <= c.capacity
    &&& 1 <= c.width <= SIZE_LIMIT
    &&& 1 <= c.height <= SIZE_LIMIT
    &&& c.names.len() >= 1
}

/// Well-formedness of the whole store state.
pub open spec fn wf(g: GridsV) -> bool {
    &&& wf_core(g.core)
    &&& g.current_grid_id < g.core.names.len()
}

/// The name of the initial grid, blank-padded.
pub open spec fn initial_name() -> Seq<char> {
    pad_name(seq!['G', 'r', 'i', 'd', '1'])
}

/// The state of a freshly created store.
pub open spec fn initial_grids(capacity: usize) -> GridsV {
    GridsV {
        core: CoreV {
            cells: Seq::empty(),
            names: seq![initial_name()],
            width: DEFAULT_GRID_SIZE,
            height: DEFAULT_GRID_SIZE,
            capacity: capacity,
        },
        current_grid_id: 0,
        current_grid: Grid::Generation,
        error: None,
        scroll_x: 0,
        scroll_y: 0,
        switch_cursor: 0,
    }
}

/// The cells of the current grid, as the renderer reads them: content and
/// coordinates, in storage order.
pub open spec fn current_grid_cells(g: GridsV) -> Seq<(FullPixel, u16, u16)> {
    g.core.cells.filter(
        |e: (Cell, FullPixel)| e.0.grid_id == g.current_grid_id && e.0.grid == g.current_grid,
    ).map_values(|e: (Cell, FullPixel)| (e.1, e.0.x, e.0.y))
}

/// Whether `e` is the entry shown at its coordinate in the merged view of
/// all grids: its grid exists and no cell of a lower grid covers the same
/// coordinate.
pub open spec fn is_front(cells: Seq<(Cell, FullPixel)>, nb: int, e: (Cell, FullPixel)) -> bool {
    &&& e.0.grid_id < nb
    &&& forall|j: int|
        0 <= j < cells.len() && cells[j].0.x == e.0.x && cells[j].0.y == e.0.y
            ==> e.0.grid_id <= #[trigger] cells[j].0.grid_id
}

/// The merged view of all grids: for each covered coordinate, the content
/// and grid id of the frontmost (lowest-id) cell there.
pub open spec fn merged_cells(g: GridsV) -> Seq<((u16, u16), (usize, FullPixel))> {
    g.core.cells.filter(
        |e: (Cell, FullPixel)| is_front(g.core.cells, g.core.names.len() as int, e),
    ).map_values(|e: (Cell, FullPixel)| ((e.0.x, e.0.y), (e.0.grid_id, e.1)))
}

/// Filtering distributes over push: the last element is kept exactly when
/// it satisfies the predicate.
pub proof fn lemma_filter_push<A>(s: Seq<A>, p: spec_fn(A) -> bool, e: A)
    ensures
        s.push(e).filter(p) == if p(e) {
            s.filter(p).push(e)
        } else {
            s.filter(p)
        },
{
    reveal(Seq::filter);
    assert(s.push(e).drop_last() =~= s);
    assert(s.push(e).last() == e);
    assert(s.push(e).filter(p) == if p(e) {
        s.filter(p).push(e)
    } else {
        s.filter(p)
    });
}

/// Filtering a cell sequence with distinct keys leaves the keys distinct,
/// and every kept entry comes from the original sequence.
pub proof fn lemma_filter_distinct(s: Seq<(Cell, FullPixel)>, p: spec_fn((Cell, FullPixel)) -> bool)
    requires
        cells_distinct(s),
    ensures
        cells_distinct(s.filter(p)),
        forall|i: int| 0 <= i < s.filter(p).len() ==> s.contains(#[trigger] s.filter(p)[i]),
    decreases s.len(),
{
    reveal(Seq::filter);
    if s.len() == 0 {
        assert(s.filter(p) =~= Seq::<(Cell, FullPixel)>::empty());
    } else {
        let butlast = s.drop_last();
        assert(cells_distinct(butlast));
        lemma_filter_distinct(butlast, p);
        let f = butlast.filter(p);
        assert forall|i: int| 0 <= i < f.len() implies s.contains(f[i]) by {
            assert(butlast.contains(f[i]));
            let j = choose|j: int| 0 <= j < butlast.len() && butlast[j] == f[i];
            assert(s[j] == f[i]);
        }
        if p(s.last()) {
            assert(s.filter(p) == f.push(s.last()));
            assert forall|i: int| 0 <= i < f.len() implies f[i].0 != s.last().0 by {
                assert(butlast.contains(f[i]));
                let j = choose|j: int| 0 <= j < butlast.len() && butlast[j] == f[i];
                assert(s[j] == f[i]);
                assert(s[j].0 != s[s.len() - 1].0);
            }
            assert(cells_distinct(f.push(s.last())));
            assert(s.contains(s.last()));
        } else {
            assert(s.filter(p) == f);
        }
    }
}

/// A `Grid` kind is always the single variant.
pub proof fn lemma_grid_single(g: Grid)
    ensures
        g == Grid::Generation,
{
}

/// Renumbering after a delete keeps cell keys distinct: the deleted grid's
/// id no longer occurs, and decrementing the ids above it is injective on
/// the ids that remain.
pub proof fn lemma_delete_map_distinct(s: Seq<(Cell, FullPixel)>, d: usize)
    requires
        cells_distinct(s),
        forall|i: int| 0 <= i < s.len() ==> s[i].0.grid_id != d,
    ensures
        cells_distinct(
            s.map_values(
                |e: (Cell, FullPixel)|
                    if e.0.grid_id > d {
                        (Cell { grid_id: (e.0.grid_id - 1) as usize, ..e.0 }, e.1)
                    } else {
                        e
                    },
            ),
        ),
{
    let f = |e: (Cell, FullPixel)|
        if e.0.grid_id > d {
            (Cell { grid_id: (e.0.grid_id - 1) as usize, ..e.0 }, e.1)
        } else {
            e
        };
    let m = s.map_values(f);
    assert forall|i: int, j: int| 0 <= i < j < m.len() implies m[i].0 != m[j].0 by {
        assert(m[i] == f(s[i]));
        assert(m[j] == f(s[j]));
        if m[i].0 == m[j].0 {
            assert(s[i].0.x == s[j].0.x && s[i].0.y == s[j].0.y && s[i].0.grid == s[j].0.grid);
            assert(s[i].0.grid_id == s[j].0.grid_id);
            assert(s[i].0 == s[j].0);
        }
    }
}

/// Swapping two grid ids keeps cell keys distinct: the swap is injective
/// on ids.
pub proof fn lemma_switch_map_distinct(s: Seq<(Cell, FullPixel)>, a: usize, b: usize)
    requires
        cells_distinct(s),
    ensures
        cells_distinct(
            s.map_values(
                |e: (Cell, FullPixel)|
                    if e.0.grid_id == a {
                        (Cell { grid_id: b, ..e.0 }, e.1)
                    } else if e.0.grid_id == b {
                        (Cell { grid_id: a, ..e.0 }, e.1)
                    } else {
                        e
                    },
            ),
        ),
{
    let f = |e: (Cell, FullPixel)|
        if e.0.grid_id == a {
            (Cell { grid_id: b, ..e.0 }, e.1)
        } else if e.0.grid_id == b {
            (Cell { grid_id: a, ..e.0 }, e.1)
        } else {
            e
        };
    let m = s.map_values(f);
    assert forall|i: int, j: int| 0 <= i < j < m.len() implies m[i].0 != m[j].0 by {
        assert(m[i] == f(s[i]));
        assert(m[j] == f(s[j]));
        if m[i].0 == m[j].0 {
            assert(s[i].0.x == s[j].0.x && s[i].0.y == s[j].0.y && s[i].0.grid == s[j].0.grid);
            assert(s[i].0.grid_id == s[j].0.grid_id);
            assert(s[i].0 == s[j].0);
        }
    }
}

/// The index of the entry with the given key, if one is there. With
/// distinct keys the returned index is the one `key_idx` names.
fn find_key(state: &Vec<(Cell, FullPixel)>, key: &Cell) -> (r: Option<usize>)
    requires
        cells_distinct(state@),
    ensures
        match r {
            Some(i) => {
                &&& i < state@.len()
                &&& state@[i as int].0 == *key
                &&& has_key(state@, *key)
                &&& i as int == key_idx(state@, *key)
            },
            None => !has_key(state@, *key),
        },
{
    let mut i: usize = 0;
    while i < state.len()
        invariant
            i <= state@.len(),
            cells_distinct(state@),
            forall|j: int| 0 <= j < i ==> state@[j].0 != *key,
        decreases state@.len() - i,
    {
        if state[i].0 == *key {
            proof {
                assert(has_key(state@, *key));
                let k = key_idx(state@, *key);
                assert(0 <= k < state@.len() && state@[k].0 == *key);
                assert(k == i as int);
            }
            return Some(i);
        }
        i += 1;
    }
    proof {
        assert forall|j: int| 0 <= j < state@.len() implies state@[j].0 != *key by {}
    }
    None
}

/// Removes every cell of the given grid, keeping the others in order.
#[verifier::loop_isolation(false)]
fn remove_grid_cells(state: &mut Vec<(Cell, FullPixel)>, grid_id: usize, grid: Grid)
    requires
        cells_distinct(old(state)@),
    ensures
        final(state)@ == old(state)@.filter(
            |e: (Cell, FullPixel)| !(e.0.grid_id == grid_id && e.0.grid == grid),
        ),
        cells_distinct(final(state)@),
        final(state)@.len() <= old(state)@.len(),
{
    let ghost p = |e: (Cell, FullPixel)| !(e.0.grid_id == grid_id && e.0.grid == grid);
    let ghost cells = state@;
    let mut kept: Vec<(Cell, FullPixel)> = Vec::new();
    let mut i: usize = 0;
    proof {
        reveal(Seq::filter);
        assert(cells.take(0).filter(p) =~= Seq::<(Cell, FullPixel)>::empty());
    }
    while i < state.len()
        invariant
            i <= state@.len(),
            state@ == cells,
            kept@ == cells.take(i as int).filter(p),
        decreases state@.len() - i,
    {
        let e = state[i];
        if !(e.0.grid_id == grid_id && e.0.grid == grid) {
            kept.push(e);
        }
        proof {
            lemma_filter_push(cells.take(i as int), p, e);
            assert(cells.take(i as int).push(e) =~= cells.take(i as int + 1));
        }
        i += 1;
    }
    proof {
        assert(cells.take(cells.len() as int) =~= cells);
        lemma_filter_distinct(cells, p);
        cells.lemma_filter_len(p);
    }
    *state = kept;
}

/// Removes every cell whose column is at or past the new width, keeping
/// the others in order.
#[verifier::loop_isolation(false)]
fn prune_width(state: &mut Vec<(Cell, FullPixel)>, width: u16)
    requires
        cells_distinct(old(state)@),
    ensures
        final(state)@ == old(state)@.filter(|e: (Cell, FullPixel)| e.0.x < width),
        cells_distinct(final(state)@),
        final(state)@.len() <= old(state)@.len(),
{
    let ghost p = |e: (Cell, FullPixel)| e.0.x < width;
    let ghost cells = state@;
    let mut kept: Vec<(Cell, FullPixel)> = Vec::new();
    let mut i: usize = 0;
    proof {
        reveal(Seq::filter);
        assert(cells.take(0).filter(p) =~= Seq::<(Cell, FullPixel)>::empty());
    }
    while i < state.len()
        invariant
            i <= state@.len(),
            state@ == cells,
            kept@ == cells.take(i as int).filter(p),
        decreases state@.len() - i,
    {
        let e = state[i];
        if e.0.x < width {
            kept.push(e);
        }
        proof {
            lemma_filter_push(cells.take(i as int), p, e);
            assert(cells.take(i as int).push(e) =~= cells.take(i as int + 1));
        }
        i += 1;
    }
    proof {
        assert(cells.take(cells.len() as int) =~= cells);
        lemma_filter_distinct(cells, p);
        cells.lemma_filter_len(p);
    }
    *state = kept;
}

/// Removes every cell whose row is at or past the new height, keeping the
/// others in order.
#[verifier::loop_isolation(false)]
fn prune_height(state: &mut Vec<(Cell, FullPixel)>, height: u16)
    requires
        cells_distinct(old(state)@),
    ensures
        final(state)@ == old(state)@.filter(|e: (Cell, FullPixel)| e.0.y < height),
        cells_distinct(final(state)@),
        final(state)@.len() <= old(state)@.len(),
{
    let ghost p = |e: (Cell, FullPixel)| e.0.y < height;
    let ghost cells = state@;
    let mut kept: Vec<(Cell, FullPixel)> = Vec::new();
    let mut i: usize = 0;
    proof {
        reveal(Seq::filter);
        assert(cells.take(0).filter(p) =~= Seq::<(Cell, FullPixel)>::empty());
    }
    while i < state.len()
        invariant
            i <= state@.len(),
            state@ == cells,
            kept@ == cells.take(i as int).filter(p),
        decreases state@.len() - i,
    {
        let e = state[i];
        if e.0.y < height {
            kept.push(e);
        }
        proof {
            lemma_filter_push(cells.take(i as int), p, e);
            assert(cells.take(i as int).push(e) =~= cells.take(i as int + 1));
        }
        i += 1;
    }
    proof {
        assert(cells.take(cells.len() as int) =~= cells);
        lemma_filter_distinct(cells, p);
        cells.lemma_filter_len(p);
    }
    *state = kept;
}

/// Decrements the grid id of every cell above the deleted grid's id.
#[verifier::loop_isolation(false)]
fn renumber_after_delete(state: &mut Vec<(Cell, FullPixel)>, d: usize)
    requires
        cells_distinct(old(state)@),
        forall|i: int| 0 <= i < old(state)@.len() ==> old(state)@[i].0.grid_id != d,
    ensures
        final(state)@ == old(state)@.map_values(
            |e: (Cell, FullPixel)|
                if e.0.grid_id > d {
                    (Cell { grid_id: (e.0.grid_id - 1) as usize, ..e.0 }, e.1)
                } else {
                    e
                },
        ),
        cells_distinct(final(state)@),
        final(state)@.len() == old(state)@.len(),
{
    let ghost f = |e: (Cell, FullPixel)|
        if e.0.grid_id > d {
            (Cell { grid_id: (e.0.grid_id - 1) as usize, ..e.0 }, e.1)
        } else {
            e
        };
    let ghost cells = old(state)@;
    let mut i: usize = 0;
    while i < state.len()
        invariant
            i <= state@.len(),
            state@.len() == cells.len(),
            forall|j: int| 0 <= j < i ==> state@[j] == f(cells[j]),
            forall|j: int| i <= j < cells.len() ==> state@[j] == cells[j],
        decreases state@.len() - i,
    {
        let e = state[i];
        if e.0.grid_id > d {
            state[i] = (
                Cell { grid_id: e.0.grid_id - 1, grid: e.0.grid, x: e.0.x, y: e.0.y },
                e.1,
            );
        }
        i += 1;
    }
    proof {
        assert(state@ =~= cells.map_values(f));
        lemma_delete_map_distinct(cells, d);
    }
}

/// Swaps the grid ids `a` and `b` on every cell.
#[verifier::loop_isolation(false)]
fn swap_grid_ids(state: &mut Vec<(Cell, FullPixel)>, a: usize, b: usize)
    requires
        cells_distinct(old(state)@),
    ensures
        final(state)@ == old(state)@.map_values(
            |e: (Cell, FullPixel)|
                if e.0.grid_id == a {
                    (Cell { grid_id: b, ..e.0 }, e.1)
                } else if e.0.grid_id == b {
                    (Cell { grid_id: a, ..e.0 }, e.1)
                } else {
                    e
                },
        ),
        cells_distinct(final(state)@),
        final(state)@.len() == old(state)@.len(),
{
    let ghost f = |e: (Cell, FullPixel)|
        if e.0.grid_id == a {
            (Cell { grid_id: b, ..e.0 }, e.1)
        } else if e.0.grid_id == b {
            (Cell { grid_id: a, ..e.0 }, e.1)
        } else {
            e
        };
    let ghost cells = old(state)@;
    let mut i: usize = 0;
    while i < state.len()
        invariant
            i <= state@.len(),
            state@.len() == cells.len(),
            forall|j: int| 0 <= j < i ==> state@[j] == f(cells[j]),
            forall|j: int| i <= j < cells.len() ==> state@[j] == cells[j],
        decreases state@.len() - i,
    {
        let e = state[i];
        if e.0.grid_id == a {
            state[i] = (Cell { grid_id: b, grid: e.0.grid, x: e.0.x, y: e.0.y }, e.1);
        } else if e.0.grid_id == b {
            state[i] = (Cell { grid_id: a, grid: e.0.grid, x: e.0.x, y: e.0.y }, e.1);
        }
        i += 1;
    }
    proof {
        assert(state@ =~= cells.map_values(f));
        lemma_switch_map_distinct(cells, a, b);
    }
}

/// The set of grids of one workspace.
pub struct Grids {
    current_grid_id: usize,
    current_grid: Grid,
    names: Vec<[char; NAME_LEN]>,
    error: Option<NameError>,
    height: u16,
    width: u16,
    scroll_x: u16,
    scroll_y: u16,
    state: Vec<(Cell, FullPixel)>,
    map_capacity: usize,
    switch_cursor: usize,
}

/// The abstract names held by a name vector.
pub open spec fn names_view(names: Seq<[char; NAME_LEN]>) -> Seq<Seq<char>> {
    Seq::new(names.len(), |i: int| names[i]@)
}

impl View for Grids {
    type V = GridsV;

    closed spec fn view(&self) -> GridsV {
        GridsV {
            core: CoreV {
                cells: self.state@,
                names: names_view(self.names@),
                width: self.width,
                height: self.height,
                capacity: self.map_capacity,
            },
            current_grid_id: self.current_grid_id,
            current_grid: self.current_grid,
            error: self.error,
            scroll_x: self.scroll_x,
            scroll_y: self.scroll_y,
            switch_cursor: self.switch_cursor,
        }
    }
}

impl Grids {
    /// A store with one default grid named `Grid1`, the default dimensions
    /// and the given cell capacity.
    pub fn new(map_capacity: usize) -> (r: Grids)
        ensures
            r@ == initial_grids(map_capacity),
            wf(r@),
    {
        let name: [char; NAME_LEN] = [
            'G',
            'r',
            'i',
            'd',
            '1',
            ' ',
            ' ',
            ' ',
            ' ',
            ' ',
            ' ',
            ' ',
            ' ',
            ' ',
            ' ',
            ' ',
        ];
        let mut names: Vec<[char; NAME_LEN]> = Vec::new();
        names.push(name);
        let r = Grids {
            current_grid_id: 0,
            current_grid: Grid::Generation,
            names,
            error: None,
            height: DEFAULT_GRID_SIZE,
            width: DEFAULT_GRID_SIZE,
            scroll_x: 0,
            scroll_y: 0,
            state: Vec::new(),
            map_capacity,
            switch_cursor: 0,
        };
        proof {
            assert(name@ =~= initial_name());
            assert(r@.core.names =~= seq![initial_name()]);
            assert(r@ =~= initial_grids(map_capacity));
        }
        r
    }

    /// The kind and id of the current grid.
    pub fn get_current_grid_info(&self) -> (r: (Grid, usize))
        ensures
            r == (self@.current_grid, self@.current_grid_id),
    {
        (self.current_grid, self.current_grid_id)
    }

    /// Whether the given id and kind are those of the current grid.
    pub fn is_on_current_grid(&self, id: usize, grid: Grid) -> (r: bool)
        ensures
            r == (id == self@.current_grid_id && grid == self@.current_grid),
    {
        (id == self.current_grid_id) && (grid == self.current_grid)
    }

    /// How many cells are stored, and how many the store accepts.
    pub fn get_length_capacity_state(&self) -> (r: (usize, usize))
        ensures
            r.0 == self@.core.cells.len(),
            r.1 == self@.core.capacity,
    {
        (self.state.len(), self.map_capacity)
    }

    /// How many grids exist.
    pub fn get_nb(&self) -> (r: usize)
        ensures
            r == self@.core.names.len(),
    {
        self.names.len()
    }

    /// Whether the workspace holds as many grids as the interface offers
    /// room for.
    pub fn is_full(&self) -> (r: bool)
        ensures
            r == (self@.core.names.len() >= MAX_GRIDS),
    {
        self.names.len() >= MAX_GRIDS
    }

    /// Whether a single grid is left.
    pub fn is_alone(&self) -> (r: bool)
        ensures
            r == (self@.core.names.len() == 1),
    {
        self.names.len() == 1
    }

    /// How many cells of the current grid are filled.
    #[verifier::loop_isolation(false)]
    pub fn get_nb_filledcells_current_grid(&self) -> (r: usize)
        ensures
            r == current_grid_cells(self@).len(),
    {
        let ghost p = |e: (Cell, FullPixel)| e.0.grid_id == self@.current_grid_id && e.0.grid
            == self@.current_grid;
        let ghost cells = self@.core.cells;
        let mut count: usize = 0;
        let mut i: usize = 0;
        proof {
            reveal(Seq::filter);
            assert(cells.take(0).filter(p) =~= Seq::<(Cell, FullPixel)>::empty());
        }
        while i < self.state.len()
            invariant
                i <= cells.len(),
                count == cells.take(i as int).filter(p).len(),
                count <= i,
            decreases cells.len() - i,
        {
            let e = self.state[i];
            proof {
                lemma_filter_push(cells.take(i as int), p, e);
                assert(cells.take(i as int).push(e) =~= cells.take(i as int + 1));
            }
            if self.is_on_current_grid(e.0.get_grid_id(), e.0.get_grid()) {
                count += 1;
            }
            i += 1;
        }
        proof {
            assert(cells.take(cells.len() as int) =~= cells);
        }
        count
    }

    /// Whether the last name check failed.
    pub fn error_occured(&self) -> (r: bool)
        ensures
            r == (self@.error is Some),
    {
        self.error.is_some()
    }

    /// The grid the switch cursor points at.
    pub fn get_switch_cursor(&self) -> (r: usize)
        ensures
            r == self@.switch_cursor,
    {
        self.switch_cursor
    }

    /// Moves the switch cursor forward, wrapping over the other grids.
    pub fn next_switch_cursor(&mut self)
        requires
            old(self)@.core.names.len() >= 1,
            old(self)@.switch_cursor < usize::MAX,
        ensures
            final(self)@ == (GridsV {
                switch_cursor: if old(self)@.switch_cursor + 1 >= old(self)@.core.names.len() - 1 {
                    0
                } else {
                    (old(self)@.switch_cursor + 1) as usize
                },
                ..old(self)@
            }),
    {
        self.switch_cursor += 1;
        if self.switch_cursor >= self.names.len() - 1 {
            self.switch_cursor = 0;
        }
    }

    /// Moves the switch cursor backward, wrapping over the other grids.
    pub fn previous_switch_cursor(&mut self)
        requires
            old(self)@.core.names.len() >= 2,
        ensures
            final(self)@ == (GridsV {
                switch_cursor: if old(self)@.switch_cursor == 0 {
                    (old(self)@.core.names.len() - 2) as usize
                } else {
                    (old(self)@.switch_cursor - 1) as usize
                },
                ..old(self)@
            }),
    {
        if self.switch_cursor == 0 {
            self.switch_cursor = self.names.len() - 2;
        } else {
            self.switch_cursor -= 1;
        }
    }

    /// Makes the next grid current, wrapping at the end.
    pub fn next(&mut self)
        requires
            wf(old(self)@),
        ensures
            final(self)@ == (GridsV {
                current_grid_id: if old(self)@.current_grid_id + 1 == old(self)@.core.names.len() {
                    0
                } else {
                    (old(self)@.current_grid_id + 1) as usize
                },
                ..old(self)@
            }),
            wf(final(self)@),
    {
        let nb_grids = self.names.len();
        self.current_grid_id += 1;
        if self.current_grid_id == nb_grids {
            self.current_grid_id = 0;
        }
    }

    /// Makes the previous grid current, wrapping at the start.
    pub fn previous(&mut self)
        requires
            wf(old(self)@),
        ensures
            final(self)@ == (GridsV {
                current_grid_id: if old(self)@.current_grid_id == 0 {
                    (old(self)@.core.names.len() - 1) as usize
                } else {
                    (old(self)@.current_grid_id - 1) as usize
                },
                ..old(self)@
            }),
            wf(final(self)@),
    {
        if self.current_grid_id == 0 {
            self.current_grid_id = self.names.len() - 1;
        } else {
            self.current_grid_id -= 1;
        }
    }

    /// The grids' width.
    pub fn get_grid_width(&self) -> (r: u16)
        ensures
            r == self@.core.width,
    {
        self.width
    }

    /// The grids' height.
    pub fn get_grid_height(&self) -> (r: u16)
        ensures
            r == self@.core.height,
    {
        self.height
    }

    /// The scroll offsets.
    pub fn get_scroll(&self) -> (r: (u16, u16))
        ensures
            r == (self@.scroll_x, self@.scroll_y),
    {
        (self.scroll_x, self.scroll_y)
    }

    /// Clamps the scroll offsets so the visible window never runs past the
    /// grid for the given viewport size.
    pub fn check_scroll(&mut self, area_size: &(u16, u16))
        ensures
            final(self)@ == (GridsV {
                scroll_x: if old(self)@.core.width <= area_size.0 {
                    0u16
                } else if old(self)@.scroll_x <= old(self)@.core.width - area_size.0 {
                    old(self)@.scroll_x
                } else {
                    (old(self)@.core.width - area_size.0) as u16
                },
                scroll_y: if old(self)@.core.height <= area_size.1 {
                    0u16
                } else if old(self)@.scroll_y <= old(self)@.core.height - area_size.1 {
                    old(self)@.scroll_y
                } else {
                    (old(self)@.core.height - area_size.1) as u16
                },
                ..old(self)@
            }),
    {
        let (area_width, area_height) = *area_size;
        if self.width <= area_width {
            self.scroll_x = 0;
        } else {
            let bound = self.width - area_width;
            if self.scroll_x > bound {
                self.scroll_x = bound;
            }
        }
        if self.height <= area_height {
            self.scroll_y = 0;
        } else {
            let bound = self.height - area_height;
            if self.scroll_y > bound {
                self.scroll_y = bound;
            }
        }
    }

    /// Scrolls one row up, stopping at the top.
    pub fn scroll_up(&mut self)
        ensures
            final(self)@ == (GridsV {
                scroll_y: if old(self)@.scroll_y > 0 {
                    (old(self)@.scroll_y - 1) as u16
                } else {
                    0u16
                },
                ..old(self)@
            }),
    {
        if self.scroll_y > 0 {
            self.scroll_y -= 1;
        }
    }

    /// Scrolls one row down.
    pub fn scroll_down(&mut self)
        requires
            old(self)@.scroll_y < u16::MAX,
        ensures
            final(self)@ == (GridsV {
                scroll_y: (old(self)@.scroll_y + 1) as u16,
                ..old(self)@
            }),
    {
        self.scroll_y += 1;
    }

    /// Scrolls one column left, stopping at the edge.
    pub fn scroll_left(&mut self)
        ensures
            final(self)@ == (GridsV {
                scroll_x: if old(self)@.scroll_x > 0 {
                    (old(self)@.scroll_x - 1) as u16
                } else {
                    0u16
                },
                ..old(self)@
            }),
    {
        if self.scroll_x > 0 {
            self.scroll_x -= 1;
        }
    }

    /// Checks a candidate grid name: an empty candidate and one already in
    /// use (once blank-padded to the fixed width) are rejected and leave a
    /// retrievable error; an accepted candidate clears the error and comes
    /// back blank-padded.
    #[verifier::loop_isolation(false)]
    pub fn check_name(&mut self, name: String) -> (r: Option<[char; NAME_LEN]>)
        requires
            name@.len() <= NAME_LEN,
        ensures
            name@.len() == 0 ==> r is None && final(self)@ == (GridsV {
                error: Some(NameError::EmptyName),
                ..old(self)@
            }),
            name@.len() > 0 && (exists|i: int|
                0 <= i < old(self)@.core.names.len() && old(self)@.core.names[i] == pad_name(
                    name@,
                )) ==> r is None && final(self)@ == (GridsV {
                error: Some(NameError::NameInUse),
                ..old(self)@
            }),
            name@.len() > 0 && !(exists|i: int|
                0 <= i < old(self)@.core.names.len() && old(self)@.core.names[i] == pad_name(
                    name@,
                )) ==> r is Some && r->Some_0@ == pad_name(name@) && final(self)@ == (GridsV {
                error: None,
                ..old(self)@
            }),
    {
        broadcast use vstd::array::group_array_axioms;

        if name.as_str().is_empty() {
            self.error = Some(NameError::EmptyName);
            proof {
                assert(self@ =~= (GridsV { error: Some(NameError::EmptyName), ..old(self)@ }));
            }
            return None;
        }
        let mut chars = crate::text::str_chars(name.as_str());
        while chars.len() < NAME_LEN
            invariant
                name@.len() <= chars@.len() <= NAME_LEN,
                chars@ == name@ + spaces((chars@.len() - name@.len()) as nat),
            decreases NAME_LEN - chars@.len(),
        {
            chars.push(' ');
            proof {
                assert(chars@ =~= name@ + spaces((chars@.len() - name@.len()) as nat));
            }
        }
        proof {
            assert(chars@ =~= name@ + spaces((NAME_LEN - name@.len()) as nat));
        }
        let mut arr: [char; NAME_LEN] = [' '; NAME_LEN];
        let mut i: usize = 0;
        while i < NAME_LEN
            invariant
                i <= NAME_LEN,
                chars@.len() == NAME_LEN,
                forall|j: int| 0 <= j < i ==> arr@[j] == chars@[j],
            decreases NAME_LEN - i,
        {
            arr[i] = chars[i];
            i += 1;
        }
        proof {
            assert(arr@ =~= chars@);
        }
        let mut k: usize = 0;
        while k < self.names.len()
            invariant
                *self == *old(self),
                k <= self.names@.len(),
                forall|j: int| 0 <= j < k ==> self.names@[j] != arr,
            decreases self.names@.len() - k,
        {
            if crate::tools::names_eq(&self.names[k], &arr) {
                self.error = Some(NameError::NameInUse);
                proof {
                    assert(self@.core.names[k as int] == pad_name(name@));
                    assert(self@ =~= (GridsV { error: Some(NameError::NameInUse), ..old(self)@ }));
                }
                return None;
            }
            k += 1;
        }
        self.error = None;
        proof {
            assert forall|j: int|
                0 <= j < self@.core.names.len() implies self@.core.names[j] != pad_name(
                name@,
            ) by {
                if self@.core.names[j] == pad_name(name@) {
                    assert(self.names@[j]@ == arr@);
                    assert(self.names@[j] =~= arr);
                }
            }
            assert(self@ =~= (GridsV { error: None, ..old(self)@ }));
        }
        Some(arr)
    }

    /// The message of the last name check's failure, empty when it
    /// succeeded.
    pub fn get_error(&self) -> (r: String)
        ensures
            match self@.error {
                None => r@ == Seq::<char>::empty(),
                Some(NameError::EmptyName) => r@ == "Grid name is empty"@,
                Some(NameError::NameInUse) => r@ == "This grid name is already used"@,
            },
    {
        match self.error {
            None => String::new(),
            Some(NameError::EmptyName) => String::from_str("Grid name is empty"),
            Some(NameError::NameInUse) => String::from_str("This grid name is already used"),
        }
    }

    /// The grid names, in grid id order.
    pub fn get_names(&self) -> (r: Vec<String>)
        ensures
            r@.len() == self@.core.names.len(),
            forall|i: int| 0 <= i < r@.len() ==> #[trigger] r@[i]@ == self@.core.names[i],
    {
        let mut r: Vec<String> = Vec::new();
        let mut i: usize = 0;
        while i < self.names.len()
            invariant
                i <= self.names@.len(),
                r@.len() == i,
                forall|j: int| 0 <= j < i ==> #[trigger] r@[j]@ == names_view(self.names@)[j],
            decreases self.names@.len() - i,
        {
            let name = self.names[i];
            let mut cs: Vec<char> = Vec::new();
            let mut j: usize = 0;
            while j < NAME_LEN
                invariant
                    j <= NAME_LEN,
                    cs@ =~= name@.take(j as int),
                decreases NAME_LEN - j,
            {
                cs.push(name[j]);
                j += 1;
            }
            proof {
                assert(cs@ =~= name@);
            }
            r.push(crate::text::chars_to_string(cs));
            i += 1;
        }
        r
    }

    /// The current grid's cells, as content and coordinates.
    #[verifier::loop_isolation(false)]
    pub fn get_current_grid(&self) -> (r: Vec<(FullPixel, u16, u16)>)
        ensures
            r@ == current_grid_cells(self@),
    {
        let ghost p = |e: (Cell, FullPixel)| e.0.grid_id == self@.current_grid_id && e.0.grid
            == self@.current_grid;
        let ghost m = |e: (Cell, FullPixel)| (e.1, e.0.x, e.0.y);
        let ghost cells = self@.core.cells;
        let mut r: Vec<(FullPixel, u16, u16)> = Vec::new();
        let mut i: usize = 0;
        proof {
            reveal(Seq::filter);
            assert(cells.take(0).filter(p) =~= Seq::<(Cell, FullPixel)>::empty());
            assert(r@ =~= cells.take(0).filter(p).map_values(m));
        }
        while i < self.state.len()
            invariant
                i <= cells.len(),
                r@ == cells.take(i as int).filter(p).map_values(m),
            decreases cells.len() - i,
        {
            let e = self.state[i];
            proof {
                lemma_filter_push(cells.take(i as int), p, e);
                assert(cells.take(i as int).push(e) =~= cells.take(i as int + 1));
            }
            if self.is_on_current_grid(e.0.get_grid_id(), e.0.get_grid()) {
                r.push((e.1, e.0.get_x(), e.0.get_y()));
                proof {
                    assert(r@ =~= cells.take(i as int + 1).filter(p).map_values(m));
                }
            } else {
                proof {
                    assert(r@ =~= cells.take(i as int + 1).filter(p).map_values(m));
                }
            }
            i += 1;
        }
        proof {
            assert(cells.take(cells.len() as int) =~= cells);
        }
        r
    }

    /// The merged view of all grids, as the texture generator reads it:
    /// for each covered coordinate, the grid id and content of the
    /// frontmost (lowest-id) cell there.
    #[verifier::loop_isolation(false)]
    pub fn get_grids(&self) -> (r: Vec<((u16, u16), (usize, FullPixel))>)
        ensures
            r@ == merged_cells(self@),
    {
        let ghost cells = self@.core.cells;
        let ghost nb = self@.core.names.len() as int;
        let ghost p = |e: (Cell, FullPixel)| is_front(cells, nb, e);
        let ghost m = |e: (Cell, FullPixel)| ((e.0.x, e.0.y), (e.0.grid_id, e.1));
        let mut r: Vec<((u16, u16), (usize, FullPixel))> = Vec::new();
        let mut i: usize = 0;
        proof {
            reveal(Seq::filter);
            assert(cells.take(0).filter(p) =~= Seq::<(Cell, FullPixel)>::empty());
            assert(r@ =~= cells.take(0).filter(p).map_values(m));
        }
        while i < self.state.len()
            invariant
                i <= cells.len(),
                r@ == cells.take(i as int).filter(p).map_values(m),
            decreases cells.len() - i,
        {
            let e = self.state[i];
            proof {
                lemma_filter_push(cells.take(i as int), p, e);
                assert(cells.take(i as int).push(e) =~= cells.take(i as int + 1));
            }
            let mut front = e.0.get_grid_id() < self.names.len();
            let mut j: usize = 0;
            while front && j < self.state.len()
                invariant
                    j <= cells.len(),
                    front ==> e.0.grid_id < nb,
                    front ==> forall|k: int|
                        0 <= k < j && cells[k].0.x == e.0.x && cells[k].0.y == e.0.y
                            ==> e.0.grid_id <= #[trigger] cells[k].0.grid_id,
                    !front ==> !is_front(cells, nb, e),
                decreases cells.len() - j,
            {
                let o = self.state[j];
                if o.0.get_x() == e.0.get_x() && o.0.get_y() == e.0.get_y() && o.0.get_grid_id()
                    < e.0.get_grid_id() {
                    front = false;
                }
                j += 1;
            }
            proof {
                assert(front == is_front(cells, nb, e));
            }
            if front {
                r.push(((e.0.get_x(), e.0.get_y()), (e.0.get_grid_id(), e.1)));
                proof {
                    assert(r@ =~= cells.take(i as int + 1).filter(p).map_values(m));
                }
            } else {
                proof {
                    assert(r@ =~= cells.take(i as int + 1).filter(p).map_values(m));
                }
            }
            i += 1;
        }
        proof {
            assert(cells.take(cells.len() as int) =~= cells);
        }
        r
    }

    /// A deep copy of the whole store, for snapshots.
    pub fn duplicate(&self) -> (r: Grids)
        ensures
            r@ == self@,
    {
        let mut names: Vec<[char; NAME_LEN]> = Vec::new();
        let mut i: usize = 0;
        while i < self.names.len()
            invariant
                i <= self.names@.len(),
                names@ =~= self.names@.take(i as int),
            decreases self.names@.len() - i,
        {
            names.push(self.names[i]);
            i += 1;
        }
        let mut state: Vec<(Cell, FullPixel)> = Vec::new();
        let mut j: usize = 0;
        while j < self.state.len()
            invariant
                j <= self.state@.len(),
                state@ =~= self.state@.take(j as int),
            decreases self.state@.len() - j,
        {
            state.push(self.state[j]);
            j += 1;
        }
        let r = Grids {
            current_grid_id: self.current_grid_id,
            current_grid: self.current_grid,
            names,
            error: self.error,
            height: self.height,
            width: self.width,
            scroll_x: self.scroll_x,
            scroll_y: self.scroll_y,
            state,
            map_capacity: self.map_capacity,
            switch_cursor: self.switch_cursor,
        };
        proof {
            assert(r.names@ =~= self.names@);
            assert(r.state@ =~= self.state@);
            assert(names_view(r.names@) =~= names_view(self.names@));
            assert(r@ =~= self@);
        }
        r
    }

    /// Applies one action to the store and reports what happened: the
    /// previous content of the touched cell for cell-level tools, and
    /// whether a paint insertion was refused because the store is full.
    /// The whole effect is the one [`spec_update`] describes.
    #[verifier::loop_isolation(false)]
    pub fn update(&mut self, action: &Action) -> (r: (Option<FullPixel>, bool))
        requires
            wf(old(self)@),
        ensures
            final(self)@ == spec_update(old(self)@, *action).0,
            r.0 == spec_update(old(self)@, *action).1,
            r.1 == spec_update(old(self)@, *action).2,
            wf(final(self)@),
    {
        let result: (Option<FullPixel>, bool);
        match action.get_tool() {
            Tool::CellSetter(tool) => {
                if action.get_grid_id() < self.names.len() {
                    self.current_grid_id = action.get_grid_id();
                }
                let (key, value) = Cell::new((action.get_grid_id(), action.get_grid(), tool));
                match value {
                    Pixel::Empty => {
                        match find_key(&self.state, &key) {
                            Some(i) => {
                                let prev = self.state[i].1;
                                self.state.remove(i);
                                result = (Some(prev), false);
                            },
                            None => {
                                result = (None, false);
                            },
                        }
                    },
                    Pixel::Full(content) => {
                        match find_key(&self.state, &key) {
                            Some(i) => {
                                let prev = self.state[i].1;
                                self.state[i] = (key, content);
                                proof {
                                    assert(cells_distinct(self.state@)) by {
                                        assert(forall|j: int|
                                            0 <= j < self.state@.len() && j != i ==> self.state@[j]
                                                == old(self).state@[j]);
                                    }
                                }
                                result = (Some(prev), false);
                            },
                            None => {
                                if self.state.len() < self.map_capacity {
                                    self.state.push((key, content));
                                    result = (None, false);
                                } else {
                                    result = (None, true);
                                }
                            },
                        }
                    },
                }
            },
            Tool::GridSetter(tool) => {
                match tool {
                    GridTool::ClearGrid => {
                        if action.get_grid_id() < self.names.len() {
                            self.current_grid_id = action.get_grid_id();
                        }
                        remove_grid_cells(&mut self.state, action.get_grid_id(), action.get_grid());
                    },
                    GridTool::WidthIncrementor => {
                        if self.width < SIZE_LIMIT {
                            self.width += 1;
                        }
                    },
                    GridTool::WidthDecrementor => {
                        if self.width > 1 {
                            self.width -= 1;
                            prune_width(&mut self.state, self.width);
                        }
                    },
                    GridTool::HeightIncrementor => {
                        if self.height < SIZE_LIMIT {
                            self.height += 1;
                        }
                    },
                    GridTool::HeightDecrementor => {
                        if self.height > 1 {
                            self.height -= 1;
                            prune_height(&mut self.state, self.height);
                        }
                    },
                }
                result = (None, false);
            },
            Tool::WorkspaceSetter(tool) => {
                match tool {
                    WorkspaceTool::AddGrid(name) => {
                        self.names.push(name);
                        self.current_grid_id = self.names.len() - 1;
                        proof {
                            assert(names_view(self.names@) =~= names_view(old(self).names@).push(
                                name@,
                            ));
                        }
                    },
                    WorkspaceTool::RenameGrid(name) => {
                        if action.get_grid_id() < self.names.len() {
                            self.current_grid_id = action.get_grid_id();
                            self.names[self.current_grid_id] = name;
                            proof {
                                assert(names_view(self.names@) =~= names_view(
                                    old(self).names@,
                                ).update(action.grid_id as int, name@));
                            }
                        }
                    },
                    WorkspaceTool::DeleteGrid => {
                        let d = action.get_grid_id();
                        if self.names.len() > 1 && d < self.names.len() {
                            remove_grid_cells(&mut self.state, d, action.get_grid());
                            proof {
                                let cleared = old(self).state@.filter(
                                    |e: (Cell, FullPixel)| !(e.0.grid_id == d && e.0.grid
                                        == action.grid),
                                );
                                assert forall|i: int|
                                    0 <= i < cleared.len() implies cleared[i].0.grid_id != d by {
                                    lemma_grid_single(cleared[i].0.grid);
                                    lemma_grid_single(action.grid);
                                    old(self).state@.lemma_filter_pred(
                                        |e: (Cell, FullPixel)| !(e.0.grid_id == d && e.0.grid
                                            == action.grid),
                                        i,
                                    );
                                }
                            }
                            renumber_after_delete(&mut self.state, d);
                            self.names.remove(d);
                            self.current_grid_id = d;
                            if self.current_grid_id >= self.names.len() {
                                self.current_grid_id -= 1;
                            }
                            proof {
                                assert(names_view(self.names@) =~= names_view(
                                    old(self).names@,
                                ).remove(d as int));
                            }
                        }
                    },
                    WorkspaceTool::SwitchGrid(target) => {
                        let cur = action.get_grid_id();
                        if cur < self.names.len() {
                            let other: Option<usize> = if target > cur {
                                if target < self.names.len() - 1 {
                                    Some(target + 1)
                                } else {
                                    None
                                }
                            } else {
                                Some(target)
                            };
                            if let Some(o) = other {
                                swap_grid_ids(&mut self.state, cur, o);
                                self.current_grid_id = cur;
                                let cur_name = self.names[cur];
                                let other_name = self.names[o];
                                self.names[cur] = other_name;
                                self.names[o] = cur_name;
                                proof {
                                    assert(names_view(self.names@) =~= names_view(
                                        old(self).names@,
                                    ).update(cur as int, names_view(old(self).names@)[o as int])
                                        .update(
                                        o as int,
                                        names_view(old(self).names@)[cur as int],
                                    ));
                                }
                            }
                        }
                    },
                }
                result = (None, false);
            },
        }
        proof {
            assert(self@ =~= spec_update(old(self)@, *action).0);
        }
        result
    }

    /// Scrolls one column right.
    pub fn scroll_right(&mut self)
        requires
            old(self)@.scroll_x < u16::MAX,
        ensures
            final(self)@ == (GridsV {
                scroll_x: (old(self)@.scroll_x + 1) as u16,
                ..old(self)@
            }),
    {
        self.scroll_x += 1;
    }
}

} // verus!
