//! The action log: the communication interface between the user interface
//! and the grid engine.
//!
//! A `Log` owns the live cell store, a bounded history of the user's
//! actions, a stack of undone actions, and a base snapshot that absorbs
//! the actions evicted from the history. Undo resets the live store to the
//! snapshot and replays the remaining history; redo reapplies the last
//! undone action.

use crate::action::Action;
use crate::brush::{brush_pixel, brush_wf, Brush};
use crate::brushcolor::{color_set, color_wf, BrushColor};
use crate::generationnumber::{number_set, number_wf, GenerationNumber};
use crate::grids::{
    current_grid_cells, merged_cells, pad_name, spec_update, wf, Grids, GridsV, NameError,
    SIZE_LIMIT,
};
use crate::gridname::{gridname_wf, GridName};
use crate::palette::PaletteGeneration;
use crate::pixel::FullPixel;
use crate::setter::{triple_val, CursorV, StringCursorV};
use crate::texturessettings::{textures_wf, TextureFormat, TexturesSettings, NB_FORMAT};
use crate::tools::{CellTool, GridTool, Tool, WorkspaceTool, NAME_LEN};
use std::collections::VecDeque;
use vstd::prelude::*;

verus! {

/// The abstract state of a [`Log`].
#[verifier::ext_equal]
pub ghost struct LogV {
    /// The bounded history of recorded actions, oldest first.
    pub actions: Seq<Action>,
    /// The stack of undone actions, oldest first.
    pub canceled: Seq<Action>,
    /// The base snapshot: the store state before `actions[0]`.
    pub base: GridsV,
    /// The live store.
    pub live: GridsV,
    /// The one-shot overflow flag.
    pub overflow: bool,
    /// The history's capacity.
    pub cap: usize,
    pub brush: Brush,
    pub brushcolor: CursorV,
    pub generationnumber: CursorV,
    pub gridname: StringCursorV,
    pub textures: TexturesSettings,
}

/// Well-formedness of a log: the history and the undo stack together stay
/// within the capacity, both stores are well formed with one capacity,
/// and every editor buffer is well formed.
pub open spec fn log_wf(l: LogV) -> bool {
    &&& l.cap >= 1
    &&& l.actions.len() + l.canceled.len() <= l.cap
    &&& wf(l.base)
    &&& wf(l.live)
    &&& l.base.core.capacity == l.live.core.capacity
    &&& brush_wf(l.brush)
    &&& color_wf(l.brushcolor)
    &&& number_wf(l.generationnumber)
    &&& gridname_wf(l.gridname)
    &&& textures_wf(l.textures)
}

/// The store state after replaying a sequence of actions, oldest first.
pub open spec fn replay(g: GridsV, acts: Seq<Action>) -> GridsV
    decreases acts.len(),
{
    if acts.len() == 0 {
        g
    } else {
        replay(spec_update(g, acts[0]).0, acts.drop_first())
    }
}

/// Replaying one more action is one more update.
pub proof fn lemma_replay_push(g: GridsV, acts: Seq<Action>, a: Action)
    ensures
        replay(g, acts.push(a)) == spec_update(replay(g, acts), a).0,
    decreases acts.len(),
{
    if acts.len() == 0 {
        assert(acts.push(a)[0] == a);
        assert(acts.push(a).drop_first() =~= Seq::<Action>::empty());
        assert(replay(g, acts.push(a)) == replay(
            spec_update(g, a).0,
            Seq::<Action>::empty(),
        ));
        assert(replay(spec_update(g, a).0, Seq::<Action>::empty()) == spec_update(g, a).0);
        assert(replay(g, acts) == g);
    } else {
        assert(acts.push(a)[0] == acts[0]);
        assert(acts.push(a).drop_first() =~= acts.drop_first().push(a));
        let g1 = spec_update(g, acts[0]).0;
        assert(replay(g, acts.push(a)) == replay(g1, acts.drop_first().push(a)));
        lemma_replay_push(g1, acts.drop_first(), a);
        assert(replay(g1, acts.drop_first().push(a)) == spec_update(
            replay(g1, acts.drop_first()),
            a,
        ).0);
        assert(replay(g, acts) == replay(g1, acts.drop_first()));
    }
}

/// The fold step: when the history is full, its oldest action leaves it
/// and is absorbed into the base snapshot.
pub open spec fn fold_step(l: LogV) -> LogV {
    if l.actions.len() >= l.cap {
        LogV {
            actions: l.actions.subrange(1, l.actions.len() as int),
            base: spec_update(l.base, l.actions[0]).0,
            ..l
        }
    } else {
        l
    }
}

/// Appending one freshly recorded, uncorrected action against the current
/// grid: the undo stack is cleared, the live store untouched.
pub open spec fn with_action(l: LogV, tool: Tool) -> LogV {
    LogV {
        actions: l.actions.push(
            Action {
                grid_id: l.live.current_grid_id,
                grid: l.live.current_grid,
                tool,
                checked: false,
            },
        ),
        canceled: Seq::empty(),
        ..l
    }
}

/// What recording a tool does to the whole log: fold if full, then
/// append the new action.
pub open spec fn recorded(l: LogV, tool: Tool) -> LogV {
    with_action(fold_step(l), tool)
}

/// What one per-frame correction does to the whole log, for a viewport
/// `(left, right, top, bottom)`.
///
/// An already-checked newest action is reaffirmed unchanged. An unchecked
/// cell-level action whose raw coordinates fall outside the viewport is
/// dropped silently, with no store mutation and no overflow change.
/// Inside the viewport it is corrected and applied: a paint that the
/// store refuses for capacity is dropped with the overflow flag set; a
/// repaint of the same value and a miss of the eraser are dropped as
/// no-ops; anything else is kept, corrected, with the overflow flag
/// cleared. A grid-level or workspace-level action is kept only when it
/// has an observable effect — a clear only when the current grid holds a
/// cell, a resize only within the size bounds, a rename or switch only
/// when its target grid exists, a delete only when another grid remains —
/// and either way clears the overflow flag.
pub open spec fn check_spec(l: LogV, area: (u16, u16, u16, u16)) -> LogV {
    if l.actions.len() == 0 {
        l
    } else {
        let last = l.actions.last();
        let rest = l.actions.drop_last();
        if last.checked {
            l
        } else {
            match last.tool {
                Tool::CellSetter(CellTool::PixelBrush(pixel, x, y)) => {
                    if area.0 <= x < area.1 && area.2 <= y < area.3 {
                        let corr = last.spec_corrected(Some(area.0), Some(area.2));
                        let res = spec_update(l.live, corr);
                        match res.1 {
                            Some(old_value) => LogV {
                                live: res.0,
                                actions: if old_value != pixel {
                                    rest.push(corr)
                                } else {
                                    rest
                                },
                                overflow: false,
                                ..l
                            },
                            None => LogV {
                                live: res.0,
                                actions: if !res.2 {
                                    rest.push(corr)
                                } else {
                                    rest
                                },
                                overflow: res.2,
                                ..l
                            },
                        }
                    } else {
                        LogV { actions: rest, ..l }
                    }
                },
                Tool::CellSetter(CellTool::PixelEraser(x, y)) => {
                    if area.0 <= x < area.1 && area.2 <= y < area.3 {
                        let corr = last.spec_corrected(Some(area.0), Some(area.2));
                        let res = spec_update(l.live, corr);
                        LogV {
                            live: res.0,
                            actions: if res.1 is Some {
                                rest.push(corr)
                            } else {
                                rest
                            },
                            overflow: false,
                            ..l
                        }
                    } else {
                        LogV { actions: rest, ..l }
                    }
                },
                Tool::GridSetter(tool) => {
                    let corr = last.spec_corrected(None, None);
                    let keep = match tool {
                        GridTool::ClearGrid => current_grid_cells(l.live).len() > 0,
                        GridTool::WidthIncrementor => l.live.core.width < SIZE_LIMIT,
                        GridTool::WidthDecrementor => l.live.core.width > 1,
                        GridTool::HeightIncrementor => l.live.core.height < SIZE_LIMIT,
                        GridTool::HeightDecrementor => l.live.core.height > 1,
                    };
                    if keep {
                        LogV {
                            live: spec_update(l.live, corr).0,
                            actions: rest.push(corr),
                            overflow: false,
                            ..l
                        }
                    } else {
                        LogV { actions: rest, overflow: false, ..l }
                    }
                },
                Tool::WorkspaceSetter(tool) => {
                    let corr = last.spec_corrected(None, None);
                    let nb = l.live.core.names.len() as int;
                    let keep = match tool {
                        WorkspaceTool::AddGrid(_) => true,
                        WorkspaceTool::RenameGrid(_) => last.grid_id < nb,
                        WorkspaceTool::DeleteGrid => nb > 1 && last.grid_id < nb,
                        WorkspaceTool::SwitchGrid(target) => {
                            let other = if target > last.grid_id {
                                target + 1
                            } else {
                                target as int
                            };
                            last.grid_id < nb && 0 <= other < nb
                        },
                    };
                    if keep {
                        LogV {
                            live: spec_update(l.live, corr).0,
                            actions: rest.push(corr),
                            overflow: false,
                            ..l
                        }
                    } else {
                        LogV { actions: rest, overflow: false, ..l }
                    }
                },
            }
        }
    }
}

/// The name array holding the given characters.
pub open spec fn name_array(s: Seq<char>) -> [char; NAME_LEN] {
    choose|a: [char; NAME_LEN]| a@ == s
}

/// Two name arrays with the same characters are the same array.
pub proof fn lemma_name_array(a: [char; NAME_LEN])
    ensures
        name_array(a@) == a,
{
    broadcast use vstd::array::group_array_axioms;

    assert(a@ == a@);
    let b = name_array(a@);
    assert(b@ == a@);
    assert(b =~= a);
}

/// The state of a freshly created log.
pub open spec fn initial_log(map_capacity: usize, queue_capacity: usize) -> LogV {
    LogV {
        actions: Seq::empty(),
        canceled: Seq::empty(),
        base: crate::grids::initial_grids(map_capacity),
        live: crate::grids::initial_grids(map_capacity),
        overflow: false,
        cap: queue_capacity,
        brush: Brush {
            color: (255, 255, 255),
            current_action: 0,
            body_de_ratio: 50,
            body_dr_ratio: 50,
        },
        brushcolor: CursorV {
            pos: 0,
            value: seq!['2', '5', '5', '2', '5', '5', '2', '5', '5'],
            min_value: 0,
            max_value: 255,
        },
        generationnumber: CursorV {
            pos: 0,
            value: seq!['0', '0', '1'],
            min_value: 1,
            max_value: 500,
        },
        gridname: StringCursorV { pos: 0, value: Seq::empty(), max_length: NAME_LEN },
        textures: TexturesSettings {
            current_pixel_ratio: 3,
            border_ratio: 3,
            palette: PaletteGeneration::RandomPredefinedColors,
            number_generation: 1,
            current_format: 0,
        },
    }
}

/// The communication interface between the user interface and the grid
/// engine.
pub struct Log {
    /// Stocks the last user actions.
    actions: VecDeque<Action>,
    brush: Brush,
    brushcolor: BrushColor,
    /// Delayed state of grids: the base snapshot.
    delayedgrids: Grids,
    generationnumber: GenerationNumber,
    gridname: GridName,
    /// Actual state of grids.
    grids: Grids,
    texturessettings: TexturesSettings,
    /// When true, a store overflow occurred.
    overflow: bool,
    queuecapacity: usize,
    /// Stocks the last canceled actions.
    canceledactions: Vec<Action>,
}

impl View for Log {
    type V = LogV;

    closed spec fn view(&self) -> LogV {
        LogV {
            actions: self.actions@,
            canceled: self.canceledactions@,
            base: self.delayedgrids@,
            live: self.grids@,
            overflow: self.overflow,
            cap: self.queuecapacity,
            brush: self.brush,
            brushcolor: self.brushcolor@,
            generationnumber: self.generationnumber@,
            gridname: self.gridname@,
            textures: self.texturessettings,
        }
    }
}

impl Log {
    /// A log over a fresh store of the given cell capacity, with a history
    /// of the given queue capacity.
    pub fn new(map_capacity: usize, queue_capacity: usize) -> (r: Log)
        requires
            queue_capacity >= 1,
        ensures
            r@ == initial_log(map_capacity, queue_capacity),
            log_wf(r@),
    {
        let r = Log {
            actions: VecDeque::new(),
            brush: Brush::new(),
            brushcolor: BrushColor::new(),
            delayedgrids: Grids::new(map_capacity),
            generationnumber: GenerationNumber::new(),
            gridname: GridName::new(),
            grids: Grids::new(map_capacity),
            texturessettings: TexturesSettings::new(),
            overflow: false,
            queuecapacity: queue_capacity,
            canceledactions: Vec::new(),
        };
        proof {
            assert(r@.actions =~= Seq::<Action>::empty());
            assert(r@.canceled =~= Seq::<Action>::empty());
            assert(r@ =~= initial_log(map_capacity, queue_capacity));
        }
        r
    }

    /// When the history is full, folds its oldest action into the base
    /// snapshot.
    fn check_queue_size(&mut self)
        requires
            log_wf(old(self)@),
        ensures
            final(self)@ == fold_step(old(self)@),
            log_wf(final(self)@),
    {
        if self.actions.len() >= self.queuecapacity {
            match self.actions.pop_front() {
                Some(a) => {
                    let _ = self.delayedgrids.update(&a);
                },
                None => {
                    proof {
                        assert(false);
                    }
                },
            }
        }
        proof {
            assert(self@ =~= fold_step(old(self)@));
        }
    }

    /// How many actions the history holds.
    pub fn actions_len(&self) -> (r: usize)
        ensures
            r == self@.actions.len(),
    {
        self.actions.len()
    }

    /// How many undone actions the undo stack holds.
    pub fn canceled_len(&self) -> (r: usize)
        ensures
            r == self@.canceled.len(),
    {
        self.canceledactions.len()
    }

    /// The newest recorded action, if any.
    pub fn last_action(&self) -> (r: Option<Action>)
        ensures
            match r {
                Some(a) => self@.actions.len() > 0 && a == self@.actions.last(),
                None => self@.actions.len() == 0,
            },
    {
        if self.actions.len() > 0 {
            let i = self.actions.len() - 1;
            Some(self.actions[i])
        } else {
            None
        }
    }

    /// How many cells the base snapshot holds.
    pub fn delayed_nb_filledcells(&self) -> (r: usize)
        ensures
            r == self@.base.core.cells.len(),
    {
        self.delayedgrids.get_length_capacity_state().0
    }

    /// Reads and clears the one-shot overflow flag.
    pub fn overflow(&mut self) -> (r: bool)
        ensures
            r == old(self)@.overflow,
            final(self)@ == (LogV { overflow: false, ..old(self)@ }),
    {
        let res = self.overflow;
        self.overflow = false;
        res
    }

    /// Records an uncorrected paint stroke at the given viewport
    /// coordinates, shifted by the scroll offsets.
    pub fn brush(&mut self, pos: (u16, u16))
        requires
            log_wf(old(self)@),
            pos.0 + old(self)@.live.scroll_x <= u16::MAX,
            pos.1 + old(self)@.live.scroll_y <= u16::MAX,
        ensures
            final(self)@ == recorded(
                old(self)@,
                Tool::CellSetter(
                    CellTool::PixelBrush(
                        brush_pixel(old(self)@.brush.current_action, old(self)@.brush.color),
                        (pos.0 + old(self)@.live.scroll_x) as u16,
                        (pos.1 + old(self)@.live.scroll_y) as u16,
                    ),
                ),
            ),
            log_wf(final(self)@),
    {
        let (x, y) = pos;
        self.check_queue_size();
        let (scroll_x, scroll_y) = self.grids.get_scroll();
        let new_value = self.brush.get_current_action();
        let action = Action::new(
            self.grids.get_current_grid_info(),
            Tool::CellSetter(CellTool::PixelBrush(new_value, x + scroll_x, y + scroll_y)),
        );
        self.actions.push_back(action);
        self.canceledactions.clear();
        proof {
            assert(self@.canceled =~= Seq::<Action>::empty());
            assert(self@ =~= recorded(
                old(self)@,
                Tool::CellSetter(
                    CellTool::PixelBrush(
                        brush_pixel(old(self)@.brush.current_action, old(self)@.brush.color),
                        (pos.0 + old(self)@.live.scroll_x) as u16,
                        (pos.1 + old(self)@.live.scroll_y) as u16,
                    ),
                ),
            ));
        }
    }

    /// Records an uncorrected erase stroke at the given viewport
    /// coordinates, shifted by the scroll offsets.
    pub fn erase(&mut self, pos: (u16, u16))
        requires
            log_wf(old(self)@),
            pos.0 + old(self)@.live.scroll_x <= u16::MAX,
            pos.1 + old(self)@.live.scroll_y <= u16::MAX,
        ensures
            final(self)@ == recorded(
                old(self)@,
                Tool::CellSetter(
                    CellTool::PixelEraser(
                        (pos.0 + old(self)@.live.scroll_x) as u16,
                        (pos.1 + old(self)@.live.scroll_y) as u16,
                    ),
                ),
            ),
            log_wf(final(self)@),
    {
        let (x, y) = pos;
        self.check_queue_size();
        let (scroll_x, scroll_y) = self.grids.get_scroll();
        let action = Action::new(
            self.grids.get_current_grid_info(),
            Tool::CellSetter(CellTool::PixelEraser(x + scroll_x, y + scroll_y)),
        );
        self.actions.push_back(action);
        self.canceledactions.clear();
        proof {
            assert(self@.canceled =~= Seq::<Action>::empty());
            assert(self@ =~= recorded(
                old(self)@,
                Tool::CellSetter(
                    CellTool::PixelEraser(
                        (pos.0 + old(self)@.live.scroll_x) as u16,
                        (pos.1 + old(self)@.live.scroll_y) as u16,
                    ),
                ),
            ));
        }
    }

    /// Records an uncorrected clear of the current grid.
    pub fn clear(&mut self)
        requires
            log_wf(old(self)@),
        ensures
            final(self)@ == recorded(old(self)@, Tool::GridSetter(GridTool::ClearGrid)),
            log_wf(final(self)@),
    {
        self.record_grid_tool(GridTool::ClearGrid);
    }

    /// Records an uncorrected width increment.
    pub fn increment_width(&mut self)
        requires
            log_wf(old(self)@),
        ensures
            final(self)@ == recorded(old(self)@, Tool::GridSetter(GridTool::WidthIncrementor)),
            log_wf(final(self)@),
    {
        self.record_grid_tool(GridTool::WidthIncrementor);
    }

    /// Records an uncorrected width decrement.
    pub fn decrement_width(&mut self)
        requires
            log_wf(old(self)@),
        ensures
            final(self)@ == recorded(old(self)@, Tool::GridSetter(GridTool::WidthDecrementor)),
            log_wf(final(self)@),
    {
        self.record_grid_tool(GridTool::WidthDecrementor);
    }

    /// Records an uncorrected height increment.
    pub fn increment_height(&mut self)
        requires
            log_wf(old(self)@),
        ensures
            final(self)@ == recorded(old(self)@, Tool::GridSetter(GridTool::HeightIncrementor)),
            log_wf(final(self)@),
    {
        self.record_grid_tool(GridTool::HeightIncrementor);
    }

    /// Records an uncorrected height decrement.
    pub fn decrement_height(&mut self)
        requires
            log_wf(old(self)@),
        ensures
            final(self)@ == recorded(old(self)@, Tool::GridSetter(GridTool::HeightDecrementor)),
            log_wf(final(self)@),
    {
        self.record_grid_tool(GridTool::HeightDecrementor);
    }

    /// Undoes the newest recorded action: it moves onto the undo stack,
    /// the live store is reset to the base snapshot and the remaining
    /// history is replayed over it. Nothing happens when the history is
    /// empty.
    #[verifier::loop_isolation(false)]
    pub fn undo(&mut self)
        requires
            log_wf(old(self)@),
        ensures
            old(self)@.actions.len() == 0 ==> final(self)@ == old(self)@,
            old(self)@.actions.len() > 0 ==> final(self)@ == (LogV {
                actions: old(self)@.actions.drop_last(),
                canceled: old(self)@.canceled.push(old(self)@.actions.last()),
                live: replay(old(self)@.base, old(self)@.actions.drop_last()),
                ..old(self)@
            }),
            log_wf(final(self)@),
    {
        if self.actions.len() > 0 {
            self.grids = self.delayedgrids.duplicate();
            match self.actions.pop_back() {
                Some(last) => {
                    self.canceledactions.push(last);
                },
                None => {
                    proof {
                        assert(false);
                    }
                },
            }
            proof {
                assert(self.actions@ =~= old(self)@.actions.drop_last());
            }
            let ghost mid = self@;
            let mut i: usize = 0;
            while i < self.actions.len()
                invariant
                    self@ == (LogV { live: self.grids@, ..mid }),
                    i <= mid.actions.len(),
                    self.grids@ == replay(mid.base, mid.actions.take(i as int)),
                    wf(self.grids@),
                    self.grids@.core.capacity == mid.base.core.capacity,
                decreases mid.actions.len() - i,
            {
                let a = self.actions[i];
                proof {
                    assert(mid.actions.take(i as int).push(a) =~= mid.actions.take(i as int + 1));
                    lemma_replay_push(mid.base, mid.actions.take(i as int), a);
                }
                let _ = self.grids.update(&a);
                i += 1;
            }
            proof {
                assert(mid.actions.take(mid.actions.len() as int) =~= mid.actions);
                assert(self@ =~= (LogV {
                    actions: old(self)@.actions.drop_last(),
                    canceled: old(self)@.canceled.push(old(self)@.actions.last()),
                    live: replay(old(self)@.base, old(self)@.actions.drop_last()),
                    ..old(self)@
                }));
            }
        }
    }

    /// Redoes the newest undone action: it moves back into the history and
    /// is applied once to the live store. Nothing happens when the undo
    /// stack is empty.
    pub fn redo(&mut self)
        requires
            log_wf(old(self)@),
        ensures
            old(self)@.canceled.len() == 0 ==> final(self)@ == old(self)@,
            old(self)@.canceled.len() > 0 ==> final(self)@ == (LogV {
                actions: old(self)@.actions.push(old(self)@.canceled.last()),
                canceled: old(self)@.canceled.drop_last(),
                live: spec_update(old(self)@.live, old(self)@.canceled.last()).0,
                ..old(self)@
            }),
            log_wf(final(self)@),
    {
        match self.canceledactions.pop() {
            Some(a) => {
                self.actions.push_back(a);
                let _ = self.grids.update(&a);
                proof {
                    assert(old(self)@.canceled.subrange(
                        0,
                        old(self)@.canceled.len() - 1,
                    ) =~= old(self)@.canceled.drop_last());
                    assert(self@ =~= (LogV {
                        actions: old(self)@.actions.push(old(self)@.canceled.last()),
                        canceled: old(self)@.canceled.drop_last(),
                        live: spec_update(old(self)@.live, old(self)@.canceled.last()).0,
                        ..old(self)@
                    }));
                }
            },
            None => {},
        }
    }

    /// Records an uncorrected grid addition under the name typed so far,
    /// if the name check accepts it; a rejected name only leaves the
    /// store's error set.
    pub fn grids_add(&mut self)
        requires
            log_wf(old(self)@),
        ensures
            ({
                let f = fold_step(old(self)@);
                let gn = old(self)@.gridname.value;
                if gn.len() == 0 {
                    final(self)@ == (LogV {
                        live: GridsV { error: Some(NameError::EmptyName), ..f.live },
                        ..f
                    })
                } else if exists|i: int|
                    0 <= i < f.live.core.names.len() && f.live.core.names[i] == pad_name(gn) {
                    final(self)@ == (LogV {
                        live: GridsV { error: Some(NameError::NameInUse), ..f.live },
                        ..f
                    })
                } else {
                    final(self)@ == with_action(
                        LogV { live: GridsV { error: None, ..f.live }, ..f },
                        Tool::WorkspaceSetter(WorkspaceTool::AddGrid(name_array(pad_name(gn)))),
                    )
                }
            }),
            log_wf(final(self)@),
    {
        self.check_queue_size();
        match self.grids.check_name(self.gridname.get_value()) {
            Some(name) => {
                let action = Action::new(
                    self.grids.get_current_grid_info(),
                    Tool::WorkspaceSetter(WorkspaceTool::AddGrid(name)),
                );
                self.actions.push_back(action);
                self.canceledactions.clear();
                proof {
                    lemma_name_array(name);
                    assert(self@.canceled =~= Seq::<Action>::empty());
                    let f = fold_step(old(self)@);
                    assert(self@ =~= with_action(
                        LogV { live: GridsV { error: None, ..f.live }, ..f },
                        Tool::WorkspaceSetter(
                            WorkspaceTool::AddGrid(name_array(pad_name(old(self)@.gridname.value))),
                        ),
                    ));
                }
            },
            None => {},
        }
    }

    /// Records an uncorrected rename of the current grid to the name typed
    /// so far, if the name check accepts it; a rejected name only leaves
    /// the store's error set.
    pub fn grids_renamecurrentgrid(&mut self)
        requires
            log_wf(old(self)@),
        ensures
            ({
                let f = fold_step(old(self)@);
                let gn = old(self)@.gridname.value;
                if gn.len() == 0 {
                    final(self)@ == (LogV {
                        live: GridsV { error: Some(NameError::EmptyName), ..f.live },
                        ..f
                    })
                } else if exists|i: int|
                    0 <= i < f.live.core.names.len() && f.live.core.names[i] == pad_name(gn) {
                    final(self)@ == (LogV {
                        live: GridsV { error: Some(NameError::NameInUse), ..f.live },
                        ..f
                    })
                } else {
                    final(self)@ == with_action(
                        LogV { live: GridsV { error: None, ..f.live }, ..f },
                        Tool::WorkspaceSetter(WorkspaceTool::RenameGrid(name_array(pad_name(gn)))),
                    )
                }
            }),
            log_wf(final(self)@),
    {
        self.check_queue_size();
        match self.grids.check_name(self.gridname.get_value()) {
            Some(name) => {
                let action = Action::new(
                    self.grids.get_current_grid_info(),
                    Tool::WorkspaceSetter(WorkspaceTool::RenameGrid(name)),
                );
                self.actions.push_back(action);
                self.canceledactions.clear();
                proof {
                    lemma_name_array(name);
                    assert(self@.canceled =~= Seq::<Action>::empty());
                    let f = fold_step(old(self)@);
                    assert(self@ =~= with_action(
                        LogV { live: GridsV { error: None, ..f.live }, ..f },
                        Tool::WorkspaceSetter(
                            WorkspaceTool::RenameGrid(
                                name_array(pad_name(old(self)@.gridname.value)),
                            ),
                        ),
                    ));
                }
            },
            None => {},
        }
    }

    /// Records an uncorrected deletion of the current grid.
    pub fn grids_deletecurrentgrid(&mut self)
        requires
            log_wf(old(self)@),
        ensures
            final(self)@ == recorded(
                old(self)@,
                Tool::WorkspaceSetter(WorkspaceTool::DeleteGrid),
            ),
            log_wf(final(self)@),
    {
        self.check_queue_size();
        let action = Action::new(
            self.grids.get_current_grid_info(),
            Tool::WorkspaceSetter(WorkspaceTool::DeleteGrid),
        );
        self.actions.push_back(action);
        self.canceledactions.clear();
        proof {
            assert(self@.canceled =~= Seq::<Action>::empty());
            assert(self@ =~= recorded(old(self)@, Tool::WorkspaceSetter(WorkspaceTool::DeleteGrid)));
        }
    }

    /// Records an uncorrected swap of the current grid with the one the
    /// switch cursor points at.
    pub fn grids_switchorder(&mut self)
        requires
            log_wf(old(self)@),
        ensures
            final(self)@ == recorded(
                old(self)@,
                Tool::WorkspaceSetter(WorkspaceTool::SwitchGrid(old(self)@.live.switch_cursor)),
            ),
            log_wf(final(self)@),
    {
        self.check_queue_size();
        let action = Action::new(
            self.grids.get_current_grid_info(),
            Tool::WorkspaceSetter(WorkspaceTool::SwitchGrid(self.grids.get_switch_cursor())),
        );
        self.actions.push_back(action);
        self.canceledactions.clear();
        proof {
            assert(self@.canceled =~= Seq::<Action>::empty());
            assert(self@ =~= recorded(
                old(self)@,
                Tool::WorkspaceSetter(WorkspaceTool::SwitchGrid(old(self)@.live.switch_cursor)),
            ));
        }
    }

    /// Cycles the brush to its next choice.
    pub fn brush_next(&mut self)
        requires
            log_wf(old(self)@),
        ensures
            final(self)@ == (LogV {
                brush: Brush {
                    current_action: if old(self)@.brush.current_action == crate::brush::NB_BRUSH_CHOICES
                        - 1 {
                        0
                    } else {
                        (old(self)@.brush.current_action + 1) as usize
                    },
                    ..old(self)@.brush
                },
                ..old(self)@
            }),
            log_wf(final(self)@),
    {
        self.brush.next();
    }

    /// Cycles the brush to its previous choice.
    pub fn brush_previous(&mut self)
        requires
            log_wf(old(self)@),
        ensures
            final(self)@ == (LogV {
                brush: Brush {
                    current_action: if old(self)@.brush.current_action == 0 {
                        (crate::brush::NB_BRUSH_CHOICES - 1) as usize
                    } else {
                        (old(self)@.brush.current_action - 1) as usize
                    },
                    ..old(self)@.brush
                },
                ..old(self)@
            }),
            log_wf(final(self)@),
    {
        self.brush.previous();
    }

    /// The brush's explicit color.
    pub fn brush_getcolor(&self) -> (r: (u8, u8, u8))
        ensures
            r == self@.brush.color,
    {
        self.brush.get_color()
    }

    /// Commits the color editor's triplets as the brush's explicit color.
    pub fn brush_setcolor(&mut self)
        requires
            log_wf(old(self)@),
        ensures
            final(self)@ == (LogV {
                brush: Brush {
                    color: (
                        triple_val(old(self)@.brushcolor.value, 0) as u8,
                        triple_val(old(self)@.brushcolor.value, 3) as u8,
                        triple_val(old(self)@.brushcolor.value, 6) as u8,
                    ),
                    ..old(self)@.brush
                },
                ..old(self)@
            }),
            log_wf(final(self)@),
    {
        let color = self.brushcolor.get_rgb();
        self.brush.set_color(color);
    }

    /// The pixel content a paint stroke writes now.
    pub fn brush_getcurrentaction(&self) -> (r: FullPixel)
        requires
            log_wf(self@),
        ensures
            r == brush_pixel(self@.brush.current_action, self@.brush.color),
    {
        self.brush.get_current_action()
    }

    /// The brush's body-or-empty ratio, in percent; the interface divides
    /// by one hundred for display.
    pub fn brush_getbodyderatio(&self) -> (r: u8)
        ensures
            r == self@.brush.body_de_ratio,
    {
        self.brush.get_body_de_ratio()
    }

    /// Tightens the body-or-empty ratio, stopping at one percent.
    pub fn brush_incrbodyderatio(&mut self)
        requires
            log_wf(old(self)@),
        ensures
            final(self)@ == (LogV {
                brush: Brush {
                    body_de_ratio: if old(self)@.brush.body_de_ratio > 1 {
                        (old(self)@.brush.body_de_ratio - 1) as u8
                    } else {
                        old(self)@.brush.body_de_ratio
                    },
                    ..old(self)@.brush
                },
                ..old(self)@
            }),
            log_wf(final(self)@),
    {
        self.brush.incr_body_de_ratio();
    }

    /// Loosens the body-or-empty ratio, stopping at ninety-nine percent.
    pub fn brush_decrbodyderatio(&mut self)
        requires
            log_wf(old(self)@),
        ensures
            final(self)@ == (LogV {
                brush: Brush {
                    body_de_ratio: if old(self)@.brush.body_de_ratio < 99 {
                        (old(self)@.brush.body_de_ratio + 1) as u8
                    } else {
                        old(self)@.brush.body_de_ratio
                    },
                    ..old(self)@.brush
                },
                ..old(self)@
            }),
            log_wf(final(self)@),
    {
        self.brush.decr_body_de_ratio();
    }

    /// The brush's body-or-border ratio, in percent; the interface divides
    /// by one hundred for display.
    pub fn brush_getbodydrratio(&self) -> (r: u8)
        ensures
            r == self@.brush.body_dr_ratio,
    {
        self.brush.get_body_dr_ratio()
    }

    /// Tightens the body-or-border ratio, stopping at one percent.
    pub fn brush_incrbodydrratio(&mut self)
        requires
            log_wf(old(self)@),
        ensures
            final(self)@ == (LogV {
                brush: Brush {
                    body_dr_ratio: if old(self)@.brush.body_dr_ratio > 1 {
                        (old(self)@.brush.body_dr_ratio - 1) as u8
                    } else {
                        old(self)@.brush.body_dr_ratio
                    },
                    ..old(self)@.brush
                },
                ..old(self)@
            }),
            log_wf(final(self)@),
    {
        self.brush.incr_body_dr_ratio();
    }

    /// Loosens the body-or-border ratio, stopping at ninety-nine percent.
    pub fn brush_decrbodydrratio(&mut self)
        requires
            log_wf(old(self)@),
        ensures
            final(self)@ == (LogV {
                brush: Brush {
                    body_dr_ratio: if old(self)@.brush.body_dr_ratio < 99 {
                        (old(self)@.brush.body_dr_ratio + 1) as u8
                    } else {
                        old(self)@.brush.body_dr_ratio
                    },
                    ..old(self)@.brush
                },
                ..old(self)@
            }),
            log_wf(final(self)@),
    {
        self.brush.drcr_body_dr_ratio();
    }

    /// The color editor's cursor position, and whether it is lit. The
    /// second component depends on the clock alone.
    pub fn brushcolor_getcursor(&self) -> (r: (u16, bool))
        requires
            log_wf(self@),
        ensures
            r.0 == self@.brushcolor.pos,
    {
        (self.brushcolor.get_pos() as u16, self.brushcolor.cursor_is_blinking())
    }

    /// Moves the color editor's cursor one digit left.
    pub fn brushcolor_cursorleft(&mut self)
        requires
            log_wf(old(self)@),
        ensures
            final(self)@ == (LogV {
                brushcolor: CursorV {
                    pos: if old(self)@.brushcolor.pos > 0 {
                        (old(self)@.brushcolor.pos - 1) as usize
                    } else {
                        0
                    },
                    ..old(self)@.brushcolor
                },
                ..old(self)@
            }),
            log_wf(final(self)@),
    {
        self.brushcolor.cursor_left();
    }

    /// Puts the color editor's cursor back on the first digit.
    pub fn brushcolor_resetcursor(&mut self)
        requires
            log_wf(old(self)@),
        ensures
            final(self)@ == (LogV {
                brushcolor: CursorV { pos: 0, ..old(self)@.brushcolor },
                ..old(self)@
            }),
            log_wf(final(self)@),
    {
        self.brushcolor.reset_cursor();
    }

    /// Moves the color editor's cursor one digit right.
    pub fn brushcolor_cursorright(&mut self)
        requires
            log_wf(old(self)@),
        ensures
            final(self)@ == (LogV {
                brushcolor: CursorV {
                    pos: if old(self)@.brushcolor.pos + 1 < old(self)@.brushcolor.value.len() {
                        (old(self)@.brushcolor.pos + 1) as usize
                    } else {
                        old(self)@.brushcolor.pos
                    },
                    ..old(self)@.brushcolor
                },
                ..old(self)@
            }),
            log_wf(final(self)@),
    {
        self.brushcolor.cursor_right();
    }

    /// The color editor's triplets as strings: red, green and blue.
    pub fn brushcolor_getvalue(&self) -> (r: (String, String, String))
        requires
            log_wf(self@),
        ensures
            r.0@ == self@.brushcolor.value.subrange(0, 3),
            r.1@ == self@.brushcolor.value.subrange(3, 6),
            r.2@ == self@.brushcolor.value.subrange(6, 9),
    {
        self.brushcolor.get_value()
    }

    /// Hands one typed digit to the color editor.
    pub fn brushcolor_setvalue(&mut self, number: char)
        requires
            log_wf(old(self)@),
            crate::setter::is_digit(number),
        ensures
            final(self)@ == (LogV {
                brushcolor: color_set(old(self)@.brushcolor, number),
                ..old(self)@
            }),
            log_wf(final(self)@),
    {
        self.brushcolor.set_value(number);
    }

    /// The generation number editor's cursor position, and whether it is
    /// lit. The second component depends on the clock alone.
    pub fn generationnumber_getcursor(&self) -> (r: (u16, bool))
        requires
            log_wf(self@),
        ensures
            r.0 == self@.generationnumber.pos,
    {
        (self.generationnumber.get_pos() as u16, self.generationnumber.cursor_is_blinking())
    }

    /// Moves the generation number editor's cursor one digit left.
    pub fn generationnumber_cursorleft(&mut self)
        requires
            log_wf(old(self)@),
        ensures
            final(self)@ == (LogV {
                generationnumber: CursorV {
                    pos: if old(self)@.generationnumber.pos > 0 {
                        (old(self)@.generationnumber.pos - 1) as usize
                    } else {
                        0
                    },
                    ..old(self)@.generationnumber
                },
                ..old(self)@
            }),
            log_wf(final(self)@),
    {
        self.generationnumber.cursor_left();
    }

    /// Puts the generation number editor's cursor back on the first digit.
    pub fn generationnumber_resetcursor(&mut self)
        requires
            log_wf(old(self)@),
        ensures
            final(self)@ == (LogV {
                generationnumber: CursorV { pos: 0, ..old(self)@.generationnumber },
                ..old(self)@
            }),
            log_wf(final(self)@),
    {
        self.generationnumber.reset_cursor();
    }

    /// Moves the generation number editor's cursor one digit right.
    pub fn generationnumber_cursorright(&mut self)
        requires
            log_wf(old(self)@),
        ensures
            final(self)@ == (LogV {
                generationnumber: CursorV {
                    pos: if old(self)@.generationnumber.pos + 1
                        < old(self)@.generationnumber.value.len() {
                        (old(self)@.generationnumber.pos + 1) as usize
                    } else {
                        old(self)@.generationnumber.pos
                    },
                    ..old(self)@.generationnumber
                },
                ..old(self)@
            }),
            log_wf(final(self)@),
    {
        self.generationnumber.cursor_right();
    }

    /// The generation number editor's digits as a string.
    pub fn generationnumber_getvalue(&self) -> (r: String)
        requires
            log_wf(self@),
        ensures
            r@ == self@.generationnumber.value,
    {
        self.generationnumber.get_value()
    }

    /// Hands one typed digit to the generation number editor.
    pub fn generationnumber_setvalue(&mut self, number: char)
        requires
            log_wf(old(self)@),
            crate::setter::is_digit(number),
        ensures
            final(self)@ == (LogV {
                generationnumber: number_set(old(self)@.generationnumber, number),
                ..old(self)@
            }),
            log_wf(final(self)@),
    {
        self.generationnumber.set_value(number);
    }

    /// The grid name editor's cursor position, and whether it is lit. The
    /// second component depends on the clock alone.
    pub fn gridname_getcursor(&self) -> (r: (u16, bool))
        requires
            log_wf(self@),
        ensures
            r.0 == self@.gridname.pos,
    {
        (self.gridname.get_pos() as u16, self.gridname.cursor_is_blinking())
    }

    /// Moves the grid name editor's cursor one character left.
    pub fn gridname_cursorleft(&mut self)
        requires
            log_wf(old(self)@),
        ensures
            final(self)@ == (LogV {
                gridname: StringCursorV {
                    pos: if old(self)@.gridname.pos > 0 {
                        (old(self)@.gridname.pos - 1) as usize
                    } else {
                        0
                    },
                    ..old(self)@.gridname
                },
                ..old(self)@
            }),
            log_wf(final(self)@),
    {
        self.gridname.cursor_left();
    }

    /// Moves the grid name editor's cursor one character right.
    pub fn gridname_cursorright(&mut self)
        requires
            log_wf(old(self)@),
        ensures
            final(self)@ == (LogV {
                gridname: StringCursorV {
                    pos: if old(self)@.gridname.pos < old(self)@.gridname.value.len() {
                        (old(self)@.gridname.pos + 1) as usize
                    } else {
                        old(self)@.gridname.pos
                    },
                    ..old(self)@.gridname
                },
                ..old(self)@
            }),
            log_wf(final(self)@),
    {
        self.gridname.cursor_right();
    }

    /// The grid name typed so far.
    pub fn gridname_getvalue(&self) -> (r: String)
        ensures
            r@ == self@.gridname.value,
    {
        self.gridname.get_value()
    }

    /// Hands one typed character to the grid name editor.
    pub fn gridname_setvalue(&mut self, letter: char)
        requires
            log_wf(old(self)@),
        ensures
            final(self)@ == (LogV {
                gridname: if old(self)@.gridname.value.len() < NAME_LEN {
                    StringCursorV {
                        pos: (old(self)@.gridname.pos + 1) as usize,
                        value: old(self)@.gridname.value.insert(
                            old(self)@.gridname.pos as int,
                            letter,
                        ),
                        ..old(self)@.gridname
                    }
                } else {
                    old(self)@.gridname
                },
                ..old(self)@
            }),
            log_wf(final(self)@),
    {
        self.gridname.set_value(letter);
    }

    /// Removes the character left of the grid name editor's cursor.
    pub fn gridname_backspace(&mut self)
        requires
            log_wf(old(self)@),
        ensures
            final(self)@ == (LogV {
                gridname: if old(self)@.gridname.pos > 0 {
                    StringCursorV {
                        pos: (old(self)@.gridname.pos - 1) as usize,
                        value: old(self)@.gridname.value.remove(old(self)@.gridname.pos - 1),
                        ..old(self)@.gridname
                    }
                } else {
                    old(self)@.gridname
                },
                ..old(self)@
            }),
            log_wf(final(self)@),
    {
        self.gridname.backspace();
    }

    /// Empties the grid name editor.
    pub fn gridname_reset(&mut self)
        requires
            log_wf(old(self)@),
        ensures
            final(self)@ == (LogV {
                gridname: StringCursorV { pos: 0, value: Seq::empty(), ..old(self)@.gridname },
                ..old(self)@
            }),
            log_wf(final(self)@),
    {
        self.gridname.reset();
    }

    /// The grids' width.
    pub fn grids_getwidth(&self) -> (r: u16)
        ensures
            r == self@.live.core.width,
    {
        self.grids.get_grid_width()
    }

    /// The grids' height.
    pub fn grids_getheight(&self) -> (r: u16)
        ensures
            r == self@.live.core.height,
    {
        self.grids.get_grid_height()
    }

    /// How many cells are stored, and how many the store accepts.
    pub fn grids_getlengthcapacity(&self) -> (r: (usize, usize))
        ensures
            r == (self@.live.core.cells.len() as usize, self@.live.core.capacity),
    {
        self.grids.get_length_capacity_state()
    }

    /// The current grid's cells, as content and coordinates.
    pub fn grids_getcurrentgrid(&self) -> (r: Vec<(FullPixel, u16, u16)>)
        ensures
            r@ == current_grid_cells(self@.live),
    {
        self.grids.get_current_grid()
    }

    /// The merged view of all grids, as the texture generator reads it.
    pub fn grids_getgrids(&self) -> (r: Vec<((u16, u16), (usize, FullPixel))>)
        ensures
            r@ == merged_cells(self@.live),
    {
        self.grids.get_grids()
    }

    /// The grid names, in grid id order.
    pub fn grids_getnames(&self) -> (r: Vec<String>)
        ensures
            r@.len() == self@.live.core.names.len(),
            forall|i: int| 0 <= i < r@.len() ==> #[trigger] r@[i]@ == self@.live.core.names[i],
    {
        self.grids.get_names()
    }

    /// The current grid's id.
    pub fn grids_getcurrentgridid(&self) -> (r: usize)
        ensures
            r == self@.live.current_grid_id,
    {
        self.grids.get_current_grid_info().1
    }

    /// How many grids exist.
    pub fn grids_getnb(&self) -> (r: usize)
        ensures
            r == self@.live.core.names.len(),
    {
        self.grids.get_nb()
    }

    /// Whether the last name check failed.
    pub fn grids_erroroccured(&self) -> (r: bool)
        ensures
            r == (self@.live.error is Some),
    {
        self.grids.error_occured()
    }

    /// The message of the last name check's failure, empty when it
    /// succeeded.
    pub fn grids_geterror(&self) -> (r: String)
        ensures
            match self@.live.error {
                None => r@ == Seq::<char>::empty(),
                Some(NameError::EmptyName) => r@ == "Grid name is empty"@,
                Some(NameError::NameInUse) => r@ == "This grid name is already used"@,
            },
    {
        self.grids.get_error()
    }

    /// Whether the workspace holds as many grids as the interface offers
    /// room for.
    pub fn grids_isfull(&self) -> (r: bool)
        ensures
            r == (self@.live.core.names.len() >= crate::grids::MAX_GRIDS),
    {
        self.grids.is_full()
    }

    /// Whether a single grid is left.
    pub fn grids_isalone(&self) -> (r: bool)
        ensures
            r == (self@.live.core.names.len() == 1),
    {
        self.grids.is_alone()
    }

    /// Moves the switch cursor forward, wrapping over the other grids.
    pub fn grids_nextswitchcursor(&mut self)
        requires
            log_wf(old(self)@),
            old(self)@.live.switch_cursor < usize::MAX,
        ensures
            final(self)@ == (LogV {
                live: GridsV {
                    switch_cursor: if old(self)@.live.switch_cursor + 1
                        >= old(self)@.live.core.names.len() - 1 {
                        0
                    } else {
                        (old(self)@.live.switch_cursor + 1) as usize
                    },
                    ..old(self)@.live
                },
                ..old(self)@
            }),
            log_wf(final(self)@),
    {
        self.grids.next_switch_cursor();
    }

    /// Moves the switch cursor backward, wrapping over the other grids.
    pub fn grids_previousswitchcursor(&mut self)
        requires
            log_wf(old(self)@),
            old(self)@.live.core.names.len() >= 2,
        ensures
            final(self)@ == (LogV {
                live: GridsV {
                    switch_cursor: if old(self)@.live.switch_cursor == 0 {
                        (old(self)@.live.core.names.len() - 2) as usize
                    } else {
                        (old(self)@.live.switch_cursor - 1) as usize
                    },
                    ..old(self)@.live
                },
                ..old(self)@
            }),
            log_wf(final(self)@),
    {
        self.grids.previous_switch_cursor();
    }

    /// The grid the switch cursor points at.
    pub fn grids_getswitchcursor(&self) -> (r: usize)
        ensures
            r == self@.live.switch_cursor,
    {
        self.grids.get_switch_cursor()
    }

    /// Makes the next grid current, wrapping at the end.
    pub fn grids_next(&mut self)
        requires
            log_wf(old(self)@),
        ensures
            final(self)@ == (LogV {
                live: GridsV {
                    current_grid_id: if old(self)@.live.current_grid_id + 1
                        == old(self)@.live.core.names.len() {
                        0
                    } else {
                        (old(self)@.live.current_grid_id + 1) as usize
                    },
                    ..old(self)@.live
                },
                ..old(self)@
            }),
            log_wf(final(self)@),
    {
        self.grids.next();
    }

    /// Makes the previous grid current, wrapping at the start.
    pub fn grids_previous(&mut self)
        requires
            log_wf(old(self)@),
        ensures
            final(self)@ == (LogV {
                live: GridsV {
                    current_grid_id: if old(self)@.live.current_grid_id == 0 {
                        (old(self)@.live.core.names.len() - 1) as usize
                    } else {
                        (old(self)@.live.current_grid_id - 1) as usize
                    },
                    ..old(self)@.live
                },
                ..old(self)@
            }),
            log_wf(final(self)@),
    {
        self.grids.previous();
    }

    /// The scroll offsets.
    pub fn gridscroll_getscroll(&self) -> (r: (u16, u16))
        ensures
            r == (self@.live.scroll_x, self@.live.scroll_y),
    {
        self.grids.get_scroll()
    }

    /// Clamps the scroll offsets to the given viewport size.
    pub fn gridscroll_checkscroll(&mut self, area_size: &(u16, u16))
        requires
            log_wf(old(self)@),
        ensures
            final(self)@ == (LogV {
                live: GridsV {
                    scroll_x: if old(self)@.live.core.width <= area_size.0 {
                        0u16
                    } else if old(self)@.live.scroll_x <= old(self)@.live.core.width
                        - area_size.0 {
                        old(self)@.live.scroll_x
                    } else {
                        (old(self)@.live.core.width - area_size.0) as u16
                    },
                    scroll_y: if old(self)@.live.core.height <= area_size.1 {
                        0u16
                    } else if old(self)@.live.scroll_y <= old(self)@.live.core.height
                        - area_size.1 {
                        old(self)@.live.scroll_y
                    } else {
                        (old(self)@.live.core.height - area_size.1) as u16
                    },
                    ..old(self)@.live
                },
                ..old(self)@
            }),
            log_wf(final(self)@),
    {
        self.grids.check_scroll(area_size);
    }

    /// Scrolls one row up, stopping at the top.
    pub fn gridscroll_scrollup(&mut self)
        requires
            log_wf(old(self)@),
        ensures
            final(self)@ == (LogV {
                live: GridsV {
                    scroll_y: if old(self)@.live.scroll_y > 0 {
                        (old(self)@.live.scroll_y - 1) as u16
                    } else {
                        0u16
                    },
                    ..old(self)@.live
                },
                ..old(self)@
            }),
            log_wf(final(self)@),
    {
        self.grids.scroll_up();
    }

    /// Scrolls one row down.
    pub fn gridscroll_scrolldown(&mut self)
        requires
            log_wf(old(self)@),
            old(self)@.live.scroll_y < u16::MAX,
        ensures
            final(self)@ == (LogV {
                live: GridsV {
                    scroll_y: (old(self)@.live.scroll_y + 1) as u16,
                    ..old(self)@.live
                },
                ..old(self)@
            }),
            log_wf(final(self)@),
    {
        self.grids.scroll_down();
    }

    /// Scrolls one column right.
    pub fn gridscroll_scrollright(&mut self)
        requires
            log_wf(old(self)@),
            old(self)@.live.scroll_x < u16::MAX,
        ensures
            final(self)@ == (LogV {
                live: GridsV {
                    scroll_x: (old(self)@.live.scroll_x + 1) as u16,
                    ..old(self)@.live
                },
                ..old(self)@
            }),
            log_wf(final(self)@),
    {
        self.grids.scroll_right();
    }

    /// Scrolls one column left, stopping at the edge.
    pub fn gridscroll_scrollleft(&mut self)
        requires
            log_wf(old(self)@),
        ensures
            final(self)@ == (LogV {
                live: GridsV {
                    scroll_x: if old(self)@.live.scroll_x > 0 {
                        (old(self)@.live.scroll_x - 1) as u16
                    } else {
                        0u16
                    },
                    ..old(self)@.live
                },
                ..old(self)@
            }),
            log_wf(final(self)@),
    {
        self.grids.scroll_left();
    }

    /// How many texture pixels one grid cell spans.
    pub fn texturessettings_getpixelratio(&self) -> (r: u16)
        ensures
            r == crate::texturessettings::spec_pixel_ratio(self@.textures.current_pixel_ratio),
    {
        self.texturessettings.get_pixel_ratio()
    }

    /// Moves to the next pixel-ratio step, stopping at the last.
    pub fn texturessettings_incrpixelratio(&mut self)
        requires
            log_wf(old(self)@),
        ensures
            final(self)@ == (LogV {
                textures: TexturesSettings {
                    current_pixel_ratio: if old(self)@.textures.current_pixel_ratio + 1
                        < crate::texturessettings::NB_PIXEL_RATIO_SETTINGS {
                        (old(self)@.textures.current_pixel_ratio + 1) as usize
                    } else {
                        old(self)@.textures.current_pixel_ratio
                    },
                    ..old(self)@.textures
                },
                ..old(self)@
            }),
            log_wf(final(self)@),
    {
        self.texturessettings.incr_pixel_ratio();
    }

    /// Moves to the previous pixel-ratio step, stopping at the first.
    pub fn texturessettings_decrpixelratio(&mut self)
        requires
            log_wf(old(self)@),
        ensures
            final(self)@ == (LogV {
                textures: TexturesSettings {
                    current_pixel_ratio: if old(self)@.textures.current_pixel_ratio > 0 {
                        (old(self)@.textures.current_pixel_ratio - 1) as usize
                    } else {
                        0
                    },
                    ..old(self)@.textures
                },
                ..old(self)@
            }),
            log_wf(final(self)@),
    {
        self.texturessettings.decr_pixel_ratio();
    }

    /// Ratio between a border pixel's color and a body pixel's color.
    pub fn texturessettings_getborderratio(&self) -> (r: u8)
        ensures
            r == self@.textures.border_ratio,
    {
        self.texturessettings.get_border_ratio()
    }

    /// How the palette is picked.
    pub fn texturessettings_getpalette(&self) -> (r: PaletteGeneration)
        ensures
            r == self@.textures.palette,
    {
        self.texturessettings.get_palette()
    }

    /// How many textures one generation produces.
    pub fn texturessettings_getgenerationnumber(&self) -> (r: u16)
        ensures
            r == self@.textures.number_generation,
    {
        self.texturessettings.get_number()
    }

    /// Commits the generation number editor's digits as the number of
    /// textures one generation produces.
    pub fn texturessettings_setgenerationnumber(&mut self)
        requires
            log_wf(old(self)@),
        ensures
            final(self)@ == (LogV {
                textures: TexturesSettings {
                    number_generation: triple_val(old(self)@.generationnumber.value, 0) as u16,
                    ..old(self)@.textures
                },
                ..old(self)@
            }),
            log_wf(final(self)@),
    {
        let number = self.generationnumber.get_number();
        self.texturessettings.set_number(number);
    }

    /// The current texture format.
    pub fn texturessettings_getformat(&self) -> (r: TextureFormat)
        ensures
            r == crate::texturessettings::spec_format(self@.textures.current_format),
    {
        self.texturessettings.get_format()
    }

    /// Moves to the previous format in display order, stopping at the
    /// first.
    pub fn texturessettings_nextformat(&mut self)
        requires
            log_wf(old(self)@),
        ensures
            final(self)@ == (LogV {
                textures: TexturesSettings {
                    current_format: if old(self)@.textures.current_format > 0 {
                        (old(self)@.textures.current_format - 1) as usize
                    } else {
                        0
                    },
                    ..old(self)@.textures
                },
                ..old(self)@
            }),
            log_wf(final(self)@),
    {
        self.texturessettings.next_format();
    }

    /// Moves to the next format in display order, stopping at the last.
    pub fn texturessettings_previousformat(&mut self)
        requires
            log_wf(old(self)@),
        ensures
            final(self)@ == (LogV {
                textures: TexturesSettings {
                    current_format: if old(self)@.textures.current_format + 1 < NB_FORMAT {
                        (old(self)@.textures.current_format + 1) as usize
                    } else {
                        old(self)@.textures.current_format
                    },
                    ..old(self)@.textures
                },
                ..old(self)@
            }),
            log_wf(final(self)@),
    {
        self.texturessettings.previous_format();
    }

    /// The offered formats in display order, and which one is current.
    pub fn texturessettings_getformatinfo(&self) -> (r: ([TextureFormat; NB_FORMAT], usize))
        ensures
            r.0@ == seq![TextureFormat::Png, TextureFormat::Jpeg],
            r.1 == self@.textures.current_format,
    {
        self.texturessettings.get_format_info()
    }

    /// The per-frame correction checkpoint: resolves the newest recorded
    /// action against the visible viewport `(left, right, top, bottom)`,
    /// as [`check_spec`] describes. Calling it again with an
    /// already-checked newest action changes nothing.
    pub fn check_last_action(&mut self, area: (u16, u16, u16, u16))
        requires
            log_wf(old(self)@),
        ensures
            final(self)@ == check_spec(old(self)@, area),
            log_wf(final(self)@),
    {
        let (left, right, top, bottom) = area;
        match self.actions.pop_back() {
            Some(last) => {
                if !last.is_checked() {
                    match last.get_tool() {
                        Tool::CellSetter(tool) => {
                            match tool {
                                CellTool::PixelBrush(pixel, x, y) => {
                                    if (x >= left) && (x < right) && (y >= top) && (y < bottom) {
                                        let corrected_last_action = last.corrected(
                                            Some(left),
                                            Some(top),
                                        );
                                        let (prev, ovf) = self.grids.update(&corrected_last_action);
                                        match prev {
                                            Some(old_value) => {
                                                if old_value != pixel {
                                                    self.actions.push_back(corrected_last_action);
                                                }
                                                self.overflow = false;
                                            },
                                            None => {
                                                if !ovf {
                                                    self.actions.push_back(corrected_last_action);
                                                }
                                                self.overflow = ovf;
                                            },
                                        }
                                    }
                                },
                                CellTool::PixelEraser(x, y) => {
                                    if (x >= left) && (x < right) && (y >= top) && (y < bottom) {
                                        let corrected_last_action = last.corrected(
                                            Some(left),
                                            Some(top),
                                        );
                                        let (prev, _) = self.grids.update(&corrected_last_action);
                                        match prev {
                                            Some(_) => {
                                                self.actions.push_back(corrected_last_action);
                                            },
                                            None => {},
                                        }
                                        self.overflow = false;
                                    }
                                },
                            }
                        },
                        Tool::GridSetter(tool) => {
                            let corrected_last_action = last.corrected(None, None);
                            match tool {
                                GridTool::ClearGrid => {
                                    if self.grids.get_nb_filledcells_current_grid() > 0 {
                                        let _ = self.grids.update(&corrected_last_action);
                                        self.actions.push_back(corrected_last_action);
                                    }
                                },
                                GridTool::WidthIncrementor => {
                                    if self.grids.get_grid_width() < crate::grids::size_limit() {
                                        let _ = self.grids.update(&corrected_last_action);
                                        self.actions.push_back(corrected_last_action);
                                    }
                                },
                                GridTool::WidthDecrementor => {
                                    if self.grids.get_grid_width() > 1 {
                                        let _ = self.grids.update(&corrected_last_action);
                                        self.actions.push_back(corrected_last_action);
                                    }
                                },
                                GridTool::HeightIncrementor => {
                                    if self.grids.get_grid_height() < crate::grids::size_limit() {
                                        let _ = self.grids.update(&corrected_last_action);
                                        self.actions.push_back(corrected_last_action);
                                    }
                                },
                                GridTool::HeightDecrementor => {
                                    if self.grids.get_grid_height() > 1 {
                                        let _ = self.grids.update(&corrected_last_action);
                                        self.actions.push_back(corrected_last_action);
                                    }
                                },
                            }
                            self.overflow = false;
                        },
                        Tool::WorkspaceSetter(tool) => {
                            let corrected_last_action = last.corrected(None, None);
                            let nb = self.grids.get_nb();
                            let keep = match tool {
                                WorkspaceTool::AddGrid(_) => true,
                                WorkspaceTool::RenameGrid(_) => last.get_grid_id() < nb,
                                WorkspaceTool::DeleteGrid => nb > 1 && last.get_grid_id() < nb,
                                WorkspaceTool::SwitchGrid(target) => {
                                    let cur = last.get_grid_id();
                                    cur < nb && (target <= cur || target < nb - 1)
                                },
                            };
                            if keep {
                                let _ = self.grids.update(&corrected_last_action);
                                self.actions.push_back(corrected_last_action);
                            }
                            self.overflow = false;
                        },
                    }
                } else {
                    self.actions.push_back(last);
                }
            },
            None => {},
        }
        proof {
            if old(self)@.actions.len() > 0 {
                assert(old(self)@.actions.subrange(
                    0,
                    old(self)@.actions.len() - 1,
                ) =~= old(self)@.actions.drop_last());
                assert(old(self)@.actions.drop_last().push(
                    old(self)@.actions.last(),
                ) =~= old(self)@.actions);
            }
            assert(self@ =~= check_spec(old(self)@, area));
        }
    }

    /// Records an uncorrected grid-level tool application.
    fn record_grid_tool(&mut self, tool: GridTool)
        requires
            log_wf(old(self)@),
        ensures
            final(self)@ == recorded(old(self)@, Tool::GridSetter(tool)),
            log_wf(final(self)@),
    {
        self.check_queue_size();
        let action = Action::new(self.grids.get_current_grid_info(), Tool::GridSetter(tool));
        self.actions.push_back(action);
        self.canceledactions.clear();
        proof {
            assert(self@.canceled =~= Seq::<Action>::empty());
            assert(self@ =~= recorded(old(self)@, Tool::GridSetter(tool)));
        }
    }
}

} // verus!
