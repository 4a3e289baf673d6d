//! The properties the engine promises, stated and proved over the
//! abstract model.

use crate::action::Action;
use crate::cell::Cell;
use crate::grids::{
    cells_distinct, core_update_state, has_key, key_idx, spec_update, CoreV, GridsV,
};
use crate::log::{check_spec, fold_step, recorded, replay, LogV};
use crate::pixel::{FullPixel, Pixel};
use crate::tools::{CellTool, GridTool, Tool, WorkspaceTool};
use vstd::prelude::*;

verus! {

/// The core state after replaying a sequence of actions, oldest first.
pub open spec fn replay_core(c: CoreV, acts: Seq<Action>) -> CoreV
    decreases acts.len(),
{
    if acts.len() == 0 {
        c
    } else {
        replay_core(core_update_state(c, acts[0]), acts.drop_first())
    }
}

/// A log is in sync when replaying its base snapshot through its whole
/// history reproduces the live store's core state exactly.
pub open spec fn synced(l: LogV) -> bool {
    l.live.core == replay_core(l.base.core, l.actions)
}

/// Replaying one more action is one more update, on cores.
pub proof fn lemma_replay_core_push(c: CoreV, acts: Seq<Action>, a: Action)
    ensures
        replay_core(c, acts.push(a)) == core_update_state(replay_core(c, acts), a),
    decreases acts.len(),
{
    if acts.len() == 0 {
        assert(acts.push(a)[0] == a);
        assert(acts.push(a).drop_first() =~= Seq::<Action>::empty());
        assert(replay_core(c, acts.push(a)) == replay_core(
            core_update_state(c, a),
            Seq::<Action>::empty(),
        ));
    } else {
        assert(acts.push(a)[0] == acts[0]);
        assert(acts.push(a).drop_first() =~= acts.drop_first().push(a));
        let c1 = core_update_state(c, acts[0]);
        assert(replay_core(c, acts.push(a)) == replay_core(c1, acts.drop_first().push(a)));
        lemma_replay_core_push(c1, acts.drop_first(), a);
        assert(replay_core(c, acts) == replay_core(c1, acts.drop_first()));
    }
}

/// A full replay over store states drives the cores exactly as the core
/// replay does.
pub proof fn lemma_replay_cores(g: GridsV, acts: Seq<Action>)
    ensures
        replay(g, acts).core == replay_core(g.core, acts),
    decreases acts.len(),
{
    if acts.len() > 0 {
        lemma_replay_cores(spec_update(g, acts[0]).0, acts.drop_first());
    }
}

/// Overwriting a stored key with the very content it already holds leaves
/// the cell map unchanged.
pub proof fn lemma_insert_same(cells: Seq<(Cell, FullPixel)>, k: Cell, v: FullPixel)
    requires
        has_key(cells, k),
        cells[key_idx(cells, k)].1 == v,
    ensures
        crate::grids::cells_insert(cells, k, v) == cells,
{
    let i = key_idx(cells, k);
    assert(0 <= i < cells.len() && cells[i].0 == k);
    assert(cells.update(i, (k, v)) =~= cells);
}

/// Folding never grows the history, and recording keeps it within the
/// capacity: after the fold the history is strictly under the capacity,
/// and the new action brings it back to at most the capacity.
pub proof fn lemma_record_bounds(l: LogV, tool: Tool)
    requires
        l.cap >= 1,
        l.actions.len() <= l.cap,
    ensures
        fold_step(l).actions.len() < l.cap,
        recorded(l, tool).actions.len() <= l.cap,
        recorded(l, tool).canceled.len() == 0,
{
}

/// Recording clears the undo stack: any new action invalidates the redo
/// branch.
pub proof fn lemma_record_clears_canceled(l: LogV, tool: Tool)
    ensures
        recorded(l, tool).canceled =~= Seq::<Action>::empty(),
{
}

/// The fold step keeps the log in sync: absorbing the oldest action into
/// the base snapshot is exactly the first step of the replay.
pub proof fn lemma_fold_synced(l: LogV)
    requires
        synced(l),
        l.cap >= 1,
    ensures
        synced(fold_step(l)),
    decreases l.actions.len(),
{
    if l.actions.len() >= l.cap {
        let f = fold_step(l);
        assert(f.actions =~= l.actions.drop_first());
        assert(f.base.core == core_update_state(l.base.core, l.actions[0]));
        assert(replay_core(l.base.core, l.actions) == replay_core(
            core_update_state(l.base.core, l.actions[0]),
            l.actions.drop_first(),
        ));
    }
}

/// Recording then correcting keeps the log in sync and the history
/// bounded: whatever the correction decides — keep the corrected action,
/// drop it as invisible, as a no-op, or for capacity overflow — replaying
/// the base snapshot through the history reproduces the live store's
/// core state, and the history holds at most the capacity of actions.
pub proof fn lemma_record_correct_synced(l: LogV, tool: Tool, area: (u16, u16, u16, u16))
    requires
        synced(l),
        l.cap >= 1,
        l.actions.len() <= l.cap,
    ensures
        synced(check_spec(recorded(l, tool), area)),
        check_spec(recorded(l, tool), area).actions.len() <= l.cap,
{
    lemma_fold_synced(l);
    let f = fold_step(l);
    let r = recorded(l, tool);
    let a = Action { grid_id: f.live.current_grid_id, grid: f.live.current_grid, tool, checked: false };
    assert(r.actions == f.actions.push(a));
    assert(r.actions.last() == a);
    assert(r.actions.drop_last() =~= f.actions);
    let c = check_spec(r, area);
    assert(r.live.core == replay_core(r.base.core, f.actions));
    match a.tool {
        Tool::CellSetter(CellTool::PixelBrush(pixel, x, y)) => {
            if area.0 <= x < area.1 && area.2 <= y < area.3 {
                let corr = a.spec_corrected(Some(area.0), Some(area.2));
                let res = spec_update(r.live, corr);
                lemma_replay_core_push(r.base.core, f.actions, corr);
                match res.1 {
                    Some(old_value) => {
                        if old_value == pixel {
                            let (key, value) = Cell::spec_new(corr.grid_id, corr.grid, corr.tool->CellSetter_0);
                            assert(value == Pixel::Full(pixel));
                            lemma_insert_same(r.live.core.cells, key, pixel);
                            assert(res.0.core =~= r.live.core);
                        }
                    },
                    None => {},
                }
            }
        },
        Tool::CellSetter(CellTool::PixelEraser(x, y)) => {
            if area.0 <= x < area.1 && area.2 <= y < area.3 {
                let corr = a.spec_corrected(Some(area.0), Some(area.2));
                lemma_replay_core_push(r.base.core, f.actions, corr);
            }
        },
        Tool::GridSetter(tool) => {
            let corr = a.spec_corrected(None, None);
            lemma_replay_core_push(r.base.core, f.actions, corr);
        },
        Tool::WorkspaceSetter(_) => {
            let corr = a.spec_corrected(None, None);
            lemma_replay_core_push(r.base.core, f.actions, corr);
        },
    }
}

/// One undo followed by one redo is a no-op on the store's core state and
/// on both stacks, and every undo and redo keeps the total number of
/// held actions: history and undo stack together.
pub proof fn lemma_undo_redo_roundtrip(l: LogV)
    requires
        synced(l),
        l.actions.len() > 0,
    ensures
        ({
            let u = LogV {
                actions: l.actions.drop_last(),
                canceled: l.canceled.push(l.actions.last()),
                live: replay(l.base, l.actions.drop_last()),
                ..l
            };
            let r = LogV {
                actions: u.actions.push(u.canceled.last()),
                canceled: u.canceled.drop_last(),
                live: spec_update(u.live, u.canceled.last()).0,
                ..u
            };
            &&& u.actions.len() + u.canceled.len() == l.actions.len() + l.canceled.len()
            &&& r.actions == l.actions
            &&& r.canceled == l.canceled
            &&& r.live.core == l.live.core
            &&& r.base == l.base
            &&& r.overflow == l.overflow
            &&& r.actions.len() + r.canceled.len() == l.actions.len() + l.canceled.len()
        }),
{
    let u = LogV {
        actions: l.actions.drop_last(),
        canceled: l.canceled.push(l.actions.last()),
        live: replay(l.base, l.actions.drop_last()),
        ..l
    };
    let last = l.actions.last();
    assert(u.canceled.last() == last);
    assert(u.actions.push(last) =~= l.actions);
    assert(u.canceled.drop_last() =~= l.canceled);
    crate::log::lemma_replay_push(l.base, l.actions.drop_last(), last);
    assert(spec_update(u.live, last).0 == replay(l.base, l.actions.drop_last().push(last)));
    assert(l.actions.drop_last().push(last) =~= l.actions);
    lemma_replay_cores(l.base, l.actions);
}

/// Undo leaves the log in sync by construction: the live store becomes
/// exactly the replay of the base snapshot through the shortened history.
pub proof fn lemma_undo_resynchronizes(l: LogV)
    requires
        l.actions.len() > 0,
    ensures
        synced(
            LogV {
                actions: l.actions.drop_last(),
                canceled: l.canceled.push(l.actions.last()),
                live: replay(l.base, l.actions.drop_last()),
                ..l
            },
        ),
{
    lemma_replay_cores(l.base, l.actions.drop_last());
}

/// Redo keeps the log in sync: reapplying the last undone action is
/// exactly one more step of the replay.
pub proof fn lemma_redo_synced(l: LogV)
    requires
        synced(l),
        l.canceled.len() > 0,
    ensures
        synced(
            LogV {
                actions: l.actions.push(l.canceled.last()),
                canceled: l.canceled.drop_last(),
                live: spec_update(l.live, l.canceled.last()).0,
                ..l
            },
        ),
{
    lemma_replay_core_push(l.base.core, l.actions, l.canceled.last());
}

/// Repeated corrections settle after the first one: once every action
/// left in the history is checked, correcting again changes nothing.
pub proof fn lemma_correct_settles(l: LogV, area: (u16, u16, u16, u16))
    requires
        forall|i: int| 0 <= i < l.actions.len() - 1 ==> (#[trigger] l.actions[i]).checked,
    ensures
        check_spec(check_spec(l, area), area) == check_spec(l, area),
{
    let c = check_spec(l, area);
    if l.actions.len() == 0 {
    } else if l.actions.last().checked {
    } else {
        let rest = l.actions.drop_last();
        assert(forall|i: int| 0 <= i < rest.len() ==> (#[trigger] rest[i]).checked);
        if c.actions.len() > 0 {
            assert(c.actions.last().checked) by {
                if c.actions != rest {
                    assert(c.actions.last() == l.actions.last().spec_corrected(
                        Some(area.0),
                        Some(area.2),
                    ) || c.actions.last() == l.actions.last().spec_corrected(None, None));
                }
            }
        }
    }
}

/// How one surviving cell reads after grid `d` is deleted: a cell of a
/// higher grid is renumbered one down, any other survives unchanged.
pub open spec fn delete_renumbered(e: (Cell, FullPixel), d: usize) -> (Cell, FullPixel) {
    if e.0.grid_id > d {
        (Cell { grid_id: (e.0.grid_id - 1) as usize, ..e.0 }, e.1)
    } else {
        e
    }
}

/// Whether `e` is what one of the original cells of a surviving grid
/// reads as after grid `d` is deleted.
pub open spec fn survives_from(cells: Seq<(Cell, FullPixel)>, d: usize, e: (Cell, FullPixel)) -> bool {
    exists|i: int|
        0 <= i < cells.len() && (#[trigger] cells[i]).0.grid_id != d && e == delete_renumbered(
            cells[i],
            d,
        )
}

/// Deleting a grid renumbers exactly the surviving cells: every cell of a
/// higher grid survives with its grid id decremented, every cell of a
/// lower grid survives unchanged, and everything that survives is one of
/// the original cells of another grid, so renumbered.
pub proof fn lemma_delete_renumbers(g: GridsV, a: Action)
    requires
        a.tool == Tool::WorkspaceSetter(WorkspaceTool::DeleteGrid),
        g.core.names.len() > 1,
        a.grid_id < g.core.names.len(),
        a.grid == crate::tools::Grid::Generation,
        cells_distinct(g.core.cells),
    ensures
        ({
            let out = spec_update(g, a).0.core.cells;
            &&& forall|i: int|
                0 <= i < g.core.cells.len() && (#[trigger] g.core.cells[i]).0.grid_id > a.grid_id
                    ==> out.contains(
                    (
                        Cell {
                            grid_id: (g.core.cells[i].0.grid_id - 1) as usize,
                            ..g.core.cells[i].0
                        },
                        g.core.cells[i].1,
                    ),
                )
            &&& forall|i: int|
                0 <= i < g.core.cells.len() && (#[trigger] g.core.cells[i]).0.grid_id < a.grid_id
                    ==> out.contains(g.core.cells[i])
            &&& forall|j: int|
                0 <= j < out.len() ==> survives_from(g.core.cells, a.grid_id, #[trigger] out[j])
        }),
{
    let d = a.grid_id;
    let p = |e: (Cell, FullPixel)| !(e.0.grid_id == d && e.0.grid == a.grid);
    let f = |e: (Cell, FullPixel)|
        if e.0.grid_id > d {
            (Cell { grid_id: (e.0.grid_id - 1) as usize, ..e.0 }, e.1)
        } else {
            e
        };
    let cleared = g.core.cells.filter(p);
    let out = spec_update(g, a).0.core.cells;
    assert(out == cleared.map_values(f));
    assert forall|i: int|
        0 <= i < g.core.cells.len() && (#[trigger] g.core.cells[i]).0.grid_id
            != d implies out.contains(f(g.core.cells[i])) by {
        crate::grids::lemma_grid_single(g.core.cells[i].0.grid);
        g.core.cells.lemma_filter_contains(p, i);
        let j = choose|j: int| 0 <= j < cleared.len() && cleared[j] == g.core.cells[i];
        assert(out[j] == f(g.core.cells[i]));
    }
    assert forall|i: int|
        0 <= i < g.core.cells.len() && (#[trigger] g.core.cells[i]).0.grid_id
            > d implies out.contains(
        (
            Cell { grid_id: (g.core.cells[i].0.grid_id - 1) as usize, ..g.core.cells[i].0 },
            g.core.cells[i].1,
        ),
    ) by {
        assert(out.contains(f(g.core.cells[i])));
    }
    assert forall|i: int|
        0 <= i < g.core.cells.len() && (#[trigger] g.core.cells[i]).0.grid_id
            < d implies out.contains(g.core.cells[i]) by {
        assert(f(g.core.cells[i]) == g.core.cells[i]);
        assert(out.contains(f(g.core.cells[i])));
    }
    crate::grids::lemma_filter_distinct(g.core.cells, p);
    assert forall|j: int| 0 <= j < out.len() implies survives_from(
        g.core.cells,
        d,
        out[j],
    ) by {
        assert(out[j] == f(cleared[j]));
        assert(g.core.cells.contains(cleared[j]));
        g.core.cells.lemma_filter_pred(p, j);
        let i = choose|i: int| 0 <= i < g.core.cells.len() && g.core.cells[i] == cleared[j];
        assert(cleared[j] == g.core.cells[i]);
        assert(p(cleared[j]));
        crate::grids::lemma_grid_single(g.core.cells[i].0.grid);
        assert(g.core.cells[i].0.grid_id != d);
        assert(out[j] == delete_renumbered(g.core.cells[i], d));
    }
}

/// The capacity policy of a paint: painting a fresh cell into a full
/// store is refused with the overflow signal and changes nothing; a
/// repaint of an already-present cell is always accepted and never
/// overflows; a fresh cell in a store with room is always accepted.
pub proof fn lemma_paint_capacity(g: GridsV, a: Action, pixel: FullPixel, x: u16, y: u16)
    requires
        a.tool == Tool::CellSetter(CellTool::PixelBrush(pixel, x, y)),
    ensures
        ({
            let key = Cell { grid_id: a.grid_id, grid: a.grid, x, y };
            let res = spec_update(g, a);
            &&& res.2 == (!has_key(g.core.cells, key) && g.core.cells.len() >= g.core.capacity)
            &&& res.2 ==> res.0.core == g.core
            &&& has_key(g.core.cells, key) ==> !res.2 && res.0.core.cells.len()
                == g.core.cells.len()
            &&& (!has_key(g.core.cells, key) && g.core.cells.len() < g.core.capacity) ==> !res.2
                && res.0.core.cells.len() == g.core.cells.len() + 1
        }),
{
    let key = Cell { grid_id: a.grid_id, grid: a.grid, x, y };
    if has_key(g.core.cells, key) {
        let i = key_idx(g.core.cells, key);
        assert(0 <= i < g.core.cells.len() && g.core.cells[i].0 == key);
    }
}

/// Decrementing the width prunes exactly the cells whose column falls
/// outside the narrowed grid: every cell with a smaller column survives,
/// every surviving cell has a smaller column, and nothing else appears.
pub proof fn lemma_width_decrement_prunes(g: GridsV, a: Action)
    requires
        a.tool == Tool::GridSetter(GridTool::WidthDecrementor),
        g.core.width > 1,
        cells_distinct(g.core.cells),
    ensures
        ({
            let w = (g.core.width - 1) as u16;
            let out = spec_update(g, a).0.core.cells;
            &&& spec_update(g, a).0.core.width == w
            &&& forall|i: int|
                0 <= i < g.core.cells.len() && (#[trigger] g.core.cells[i]).0.x < w
                    ==> out.contains(g.core.cells[i])
            &&& forall|j: int| 0 <= j < out.len() ==> (#[trigger] out[j]).0.x < w
            &&& forall|j: int| 0 <= j < out.len() ==> g.core.cells.contains(#[trigger] out[j])
        }),
{
    let w = (g.core.width - 1) as u16;
    let p = |e: (Cell, FullPixel)| e.0.x < w;
    let out = spec_update(g, a).0.core.cells;
    assert(out == g.core.cells.filter(p));
    assert forall|i: int|
        0 <= i < g.core.cells.len() && (#[trigger] g.core.cells[i]).0.x < w implies out.contains(
        g.core.cells[i],
    ) by {
        g.core.cells.lemma_filter_contains(p, i);
    }
    assert forall|j: int| 0 <= j < out.len() implies (#[trigger] out[j]).0.x < w by {
        g.core.cells.lemma_filter_pred(p, j);
    }
    crate::grids::lemma_filter_distinct(g.core.cells, p);
}

/// Correcting an action whose raw coordinates fall outside the viewport
/// drops it silently: the live store, the base snapshot, the undo stack
/// and the overflow flag are all untouched.
pub proof fn lemma_correct_out_of_bounds(l: LogV, area: (u16, u16, u16, u16))
    requires
        l.actions.len() > 0,
        !l.actions.last().checked,
        match l.actions.last().tool {
            Tool::CellSetter(CellTool::PixelBrush(_, x, y)) => !(area.0 <= x < area.1 && area.2
                <= y < area.3),
            Tool::CellSetter(CellTool::PixelEraser(x, y)) => !(area.0 <= x < area.1 && area.2 <= y
                < area.3),
            _ => false,
        },
    ensures
        check_spec(l, area) == (LogV { actions: l.actions.drop_last(), ..l }),
        check_spec(l, area).live == l.live,
        check_spec(l, area).overflow == l.overflow,
        check_spec(l, area).canceled == l.canceled,
{
}

/// Correcting when the newest action is already checked changes nothing,
/// so repeated corrections are harmless.
pub proof fn lemma_correct_idempotent(l: LogV, area: (u16, u16, u16, u16))
    requires
        l.actions.len() == 0 || l.actions.last().checked,
    ensures
        check_spec(l, area) == l,
{
}

} // verus!
