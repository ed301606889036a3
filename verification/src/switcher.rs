//! The orchestrator: ties the grid, the window manager and the command
//! vocabulary together.
//!
//! [`GridSwitcher`] owns the [`Grid`], one grid position per participating
//! monitor (always kept in lock-step), the in-flight swipe accumulator and
//! the gesture configuration.  It consumes [`Command`]s, mutates its own
//! state first, and then issues best-effort window-manager calls: a
//! backend failure is surfaced but never rolls back local state.

use vstd::prelude::*;
use std::sync::mpsc::Sender;
use crate::command::{Command, Direction, MonitorIndex, MonitorInfo};
use crate::command::find_monitor_in_direction;
use crate::gestures::{
    dominant_direction,
    dominant_direction_spec,
    normalised_swipe_offset,
    normalised_offset_spec,
    sat_add,
    GestureConfig,
};
use crate::grid::{grow_spec, has_down, has_right, step_spec, Grid};
use crate::text::str_eq;
use crate::traits::{
    send_event,
    VisualizerEvent,
    VisualizerShowPayload,
    VisualizerState,
    WindowManager,
};
use vstd::string::StringExecFns;

verus! {

/// Errors surfaced by the switcher.
#[derive(Debug, Clone, PartialEq, Eq)]
pub enum SwitcherError {
    /// The window manager returned an error; the payload is its message.
    WindowManager(String),
}

impl SwitcherError {
    /// A user-readable description of the error.
    pub fn message(&self) -> (r: String)
        ensures
            self matches SwitcherError::WindowManager(m) ==> r@ == "window manager error: "@
                + m@,
    {
        match self {
            SwitcherError::WindowManager(m) => {
                let mut s = String::from_str("window manager error: ");
                s.append(m.as_str());
                s
            }
        }
    }
}

/// Per-monitor position in the shared grid.
#[derive(Debug, Clone)]
pub struct MonitorGridPosition {
    pub name: String,
    pub col: usize,
    pub row: usize,
}

/// State of an in-flight touchpad swipe gesture; deltas in thousandths of
/// a pixel.
#[derive(Debug, Clone, Copy, PartialEq, Eq, Structural)]
pub struct ActiveSwipe {
    pub fingers: u32,
    pub dx: i64,
    pub dy: i64,
}

// ---------------------------------------------------------------------
// Workspace identifier allocation
// ---------------------------------------------------------------------

/// The `n`-th triangular number.
pub open spec fn tri(n: int) -> int
    decreases n,
{
    if n <= 0 {
        0
    } else {
        tri(n - 1) + n
    }
}

/// Cantor pairing of a grid cell: `tri(col + row) + row`.
pub open spec fn cantor_pair(col: int, row: int) -> int {
    tri(col + row) + row
}

/// The deterministic workspace id for a cell and monitor: one contiguous
/// block of ids per cell, one id per monitor, starting at 1, saturated
/// into the backend's id range.
pub open spec fn workspace_id_spec(col: int, row: int, idx: int, mc: int) -> int {
    let id = cantor_pair(col, row) * mc + idx + 1;
    if id > i32::MAX {
        i32::MAX as int
    } else {
        id
    }
}

/// Twice a triangular number is the familiar product.
proof fn lemma_tri_is_half(n: int)
    requires
        n >= 0,
    ensures
        2 * tri(n) == n * (n + 1),
    decreases n,
{
    if n > 0 {
        lemma_tri_is_half(n - 1);
        assert(tri(n) == tri(n - 1) + n);
        assert(2 * tri(n) == n * (n + 1)) by (nonlinear_arith)
            requires
                tri(n) == tri(n - 1) + n,
                2 * tri(n - 1) == (n - 1) * n,
        ;
    } else {
        assert(tri(n) == 0);
        assert(2 * tri(n) == n * (n + 1)) by (nonlinear_arith)
            requires
                n == 0,
                tri(n) == 0,
        ;
    }
}

/// Triangular numbers are monotone.
proof fn lemma_tri_mono(a: int, b: int)
    requires
        0 <= a <= b,
    ensures
        tri(a) <= tri(b),
    decreases b - a,
{
    if a < b {
        lemma_tri_mono(a, b - 1);
    }
}

/// Triangular numbers are non-negative.
proof fn lemma_tri_nonneg(n: int)
    ensures
        tri(n) >= 0,
    decreases n,
{
    if n > 0 {
        lemma_tri_nonneg(n - 1);
    }
}

/// The Cantor pairing is injective on the non-negative quadrant.
proof fn lemma_cantor_injective(c1: int, r1: int, c2: int, r2: int)
    requires
        0 <= c1,
        0 <= r1,
        0 <= c2,
        0 <= r2,
        (c1, r1) != (c2, r2),
    ensures
        cantor_pair(c1, r1) != cantor_pair(c2, r2),
{
    let s1 = c1 + r1;
    let s2 = c2 + r2;
    if s1 == s2 {
        // Same diagonal: the row decides.
        assert(r1 != r2);
    } else if s1 < s2 {
        // cantor(c1, r1) <= tri(s1) + s1 < tri(s1 + 1) <= tri(s2).
        assert(tri(s1 + 1) == tri(s1) + s1 + 1);
        lemma_tri_mono(s1 + 1, s2);
        lemma_tri_nonneg(s2);
    } else {
        assert(tri(s2 + 1) == tri(s2) + s2 + 1);
        lemma_tri_mono(s2 + 1, s1);
        lemma_tri_nonneg(s1);
    }
}

/// For cells up to 500×500 and up to 4286 monitors, distinct
/// `(col, row, monitor_index)` triples receive distinct workspace ids:
/// the formula stays below the id type's maximum, so no saturation can
/// collide two ids.
pub proof fn lemma_workspace_ids_distinct(
    c1: int,
    r1: int,
    i1: int,
    c2: int,
    r2: int,
    i2: int,
    mc: int,
)
    requires
        0 <= c1 <= 500,
        0 <= r1 <= 500,
        0 <= c2 <= 500,
        0 <= r2 <= 500,
        0 <= i1 < mc,
        0 <= i2 < mc,
        mc <= 4286,
        (c1, r1, i1) != (c2, r2, i2),
    ensures
        workspace_id_spec(c1, r1, i1, mc) != workspace_id_spec(c2, r2, i2, mc),
{
    lemma_cantor_in_range(c1, r1);
    lemma_cantor_in_range(c2, r2);
    let p1 = cantor_pair(c1, r1);
    let p2 = cantor_pair(c2, r2);
    // No saturation: both raw ids stay below the id type's maximum.
    assert(p1 * mc + i1 + 1 <= 501000 * 4286 + 4286) by (nonlinear_arith)
        requires
            0 <= p1 <= 501000,
            0 <= i1 < mc <= 4286,
    ;
    assert(p2 * mc + i2 + 1 <= 501000 * 4286 + 4286) by (nonlinear_arith)
        requires
            0 <= p2 <= 501000,
            0 <= i2 < mc <= 4286,
    ;
    if p1 == p2 {
        assert((c1, r1) == (c2, r2)) by {
            if (c1, r1) != (c2, r2) {
                lemma_cantor_injective(c1, r1, c2, r2);
            }
        }
        assert(i1 != i2);
    } else {
        lemma_cantor_injective(c1, r1, c2, r2);
        // Distinct pairs differ by at least one full block of ids.
        assert(p1 * mc + i1 != p2 * mc + i2) by (nonlinear_arith)
            requires
                p1 != p2,
                0 <= i1 < mc,
                0 <= i2 < mc,
        ;
    }
}

/// The Cantor pair of a cell within 500×500 is at most 501000.
proof fn lemma_cantor_in_range(c: int, r: int)
    requires
        0 <= c <= 500,
        0 <= r <= 500,
    ensures
        0 <= cantor_pair(c, r) <= 501000,
{
    lemma_tri_nonneg(c + r);
    lemma_tri_mono(c + r, 1000);
    lemma_tri_is_half(1000);
}

/// Deterministically compute a workspace id for a grid cell and monitor
/// index: a Cantor pairing assigns a unique integer to each `(col, row)`,
/// which is scaled by the monitor count and offset by the monitor index
/// so that every `(col, row, monitor_index)` triple receives a unique,
/// stable id (ids start at 1 and saturate at the id type's maximum).
pub fn compute_workspace_id(
    col: usize,
    row: usize,
    monitor_index: usize,
    monitor_count: usize,
) -> (id: i32)
    requires
        1 <= monitor_count,
        monitor_index < monitor_count,
    ensures
        id as int == workspace_id_spec(
            col as int,
            row as int,
            monitor_index as int,
            monitor_count as int,
        ),
{
    proof {
        lemma_tri_nonneg(col + row);
    }
    if col > 65535 || row > 65535 {
        // The pair alone already exceeds the id range.
        proof {
            let s = col + row;
            lemma_tri_mono(65536, s);
            lemma_tri_is_half(65536);
            let p = cantor_pair(col as int, row as int);
            assert(p * monitor_count >= p) by (nonlinear_arith)
                requires
                    p >= 0,
                    monitor_count >= 1,
            ;
        }
        return i32::MAX;
    }
    let s: i64 = (col as i64) + (row as i64);
    proof {
        assert(0 <= s * (s + 1) <= 131070 * 131071) by (nonlinear_arith)
            requires
                0 <= s <= 131070,
        ;
        lemma_tri_is_half(s as int);
        assert((2 * tri(s as int)) / 2 == tri(s as int));
    }
    let pair: i64 = (s * (s + 1)) / 2 + (row as i64);
    proof {
        assert(pair as int == cantor_pair(col as int, row as int));
        let p = pair as i128;
        assert(0 <= p * (monitor_count as i128) <= 8589803520 * 0x1_0000_0000_0000_0000i128)
            by (nonlinear_arith)
            requires
                0 <= p <= 8589803520,
                1 <= (monitor_count as i128) <= 0x1_0000_0000_0000_0000i128,
        ;
    }
    let t: i128 = (pair as i128) * (monitor_count as i128) + (monitor_index as i128) + 1;
    if t > 0x7FFF_FFFFi128 {
        i32::MAX
    } else {
        t as i32
    }
}

/// The monitor at position `idx` of the window manager's listing, or the
/// error the switcher reports for an index out of range.
pub fn monitor_at_index(monitors: &Vec<MonitorInfo>, idx: usize) -> (r: Result<
    &MonitorInfo,
    SwitcherError,
>)
    ensures
        r is Ok <==> idx < monitors@.len(),
        r matches Ok(m) ==> *m == monitors@[idx as int],
        r is Err ==> (r matches Err(SwitcherError::WindowManager(_))),
{
    if idx < monitors.len() {
        Ok(&monitors[idx])
    } else {
        let mut msg = String::from_str("monitor index ");
        crate::text::append_usize(&mut msg, idx);
        msg.append(" out of range (have ");
        crate::text::append_usize(&mut msg, monitors.len());
        msg.append(")");
        Err(SwitcherError::WindowManager(msg))
    }
}

// ---------------------------------------------------------------------
// The switcher
// ---------------------------------------------------------------------

/// All positions moved in lock-step to the cell `(c, r)`.
pub open spec fn positions_at(ps: Seq<MonitorGridPosition>, c: usize, r: usize) -> Seq<
    MonitorGridPosition,
> {
    ps.map_values(|p: MonitorGridPosition| (MonitorGridPosition { name: p.name, col: c, row: r }))
}

/// First index bound to `name` in a switch plan, scanning from `i`; `-1`
/// when absent.
pub open spec fn entry_idx_from(s: Seq<(String, i32)>, name: Seq<char>, i: int) -> int
    decreases s.len() - i,
{
    if i < 0 || i >= s.len() {
        -1
    } else if s[i].0@ == name {
        i
    } else {
        entry_idx_from(s, name, i + 1)
    }
}

/// Reorder a per-monitor switch plan so that the entry of the focused
/// monitor comes last: the backend's focus follows the last-touched
/// monitor, so touching the focused one last keeps the user's on-screen
/// focus where it was.  Everything else keeps its relative order.
#[verifier::loop_isolation(false)]
pub fn reorder_active_last(entries: &mut Vec<(String, i32)>, active: &str)
    ensures
        ({
            let p = entry_idx_from(old(entries)@, active@, 0);
            if p == -1 {
                final(entries)@ == old(entries)@
            } else {
                final(entries)@ == old(entries)@.remove(p).push(old(entries)@[p])
            }
        }),
{
    let ghost orig = old(entries)@;
    let n = entries.len();
    let mut k: usize = 0;
    while k < n
        invariant
            entries@ == orig,
            n == orig.len(),
            k <= n,
            entry_idx_from(orig, active@, 0) == entry_idx_from(orig, active@, k as int),
        decreases n - k,
    {
        if str_eq(entries[k].0.as_str(), active) {
            proof {
                assert(entry_idx_from(orig, active@, 0) == k);
            }
            let e = entries.remove(k);
            entries.push(e);
            return ;
        }
        k = k + 1;
    }
}

/// Orchestrates grid navigation and window-manager calls.
///
/// The switcher is generic over any [`WindowManager`] implementation,
/// keeping it independent of any concrete compositor.  It updates its own
/// state first and treats backend calls as best-effort: a failure is
/// surfaced, never rolled back.
pub struct GridSwitcher<W: WindowManager> {
    wm: W,
    grid: Grid,
    monitor_positions: Vec<MonitorGridPosition>,
    vis_tx: Option<Sender<VisualizerEvent>>,
    gesture_config: GestureConfig,
    active_swipe: Option<ActiveSwipe>,
}

impl<W: WindowManager> GridSwitcher<W> {
    /// The window manager backend.
    pub closed spec fn spec_wm(&self) -> W {
        self.wm
    }

    /// The owned grid.
    pub closed spec fn spec_grid(&self) -> Grid {
        self.grid
    }

    /// The per-monitor positions.
    pub closed spec fn spec_positions(&self) -> Seq<MonitorGridPosition> {
        self.monitor_positions@
    }

    /// The attached visualizer channel, if any.
    pub closed spec fn spec_vis(&self) -> Option<Sender<VisualizerEvent>> {
        self.vis_tx
    }

    /// The gesture configuration.
    pub closed spec fn spec_config(&self) -> GestureConfig {
        self.gesture_config
    }

    /// The in-flight swipe accumulator, if any.
    pub closed spec fn spec_swipe(&self) -> Option<ActiveSwipe> {
        self.active_swipe
    }

    /// The shared grid position: that of the first monitor, `(0, 0)` when
    /// no monitor participates.
    pub open spec fn spec_position(&self) -> (usize, usize) {
        if self.spec_positions().len() == 0 {
            (0usize, 0usize)
        } else {
            (self.spec_positions()[0].col, self.spec_positions()[0].row)
        }
    }

    /// Well-formedness: the grid and configuration are well-formed, every
    /// monitor entry holds the same position, and that position lies
    /// within the grid bounds.
    pub open spec fn wf(&self) -> bool {
        &&& self.spec_grid().wf()
        &&& self.spec_config().wf()
        &&& forall|i: int|
            0 <= i < self.spec_positions().len() ==> (#[trigger] self.spec_positions()[i]).col
                == self.spec_position().0 && self.spec_positions()[i].row == self.spec_position().1
        &&& self.spec_position().0 < self.spec_grid().spec_cols()
        &&& self.spec_position().1 < self.spec_grid().spec_rows()
    }

    /// The backend, configuration and visualizer channel are unchanged.
    pub open spec fn frame(&self, pre: &Self) -> bool {
        &&& self.spec_wm() == pre.spec_wm()
        &&& self.spec_config() == pre.spec_config()
        &&& self.spec_vis() == pre.spec_vis()
    }

    /// Grid and monitor positions are unchanged.
    pub open spec fn core_unchanged(&self, pre: &Self) -> bool {
        &&& self.spec_grid() == pre.spec_grid()
        &&& self.spec_positions() == pre.spec_positions()
    }

    /// The effect of navigating to cell `(c, r)`: the grid bounds grow
    /// exactly enough to contain it, everything else of the grid is
    /// untouched, and every monitor position moves there in lock-step.
    pub open spec fn nav_post(&self, pre: &Self, c: usize, r: usize) -> bool {
        &&& (self.spec_grid().spec_cols() as int, self.spec_grid().spec_rows() as int)
            == grow_spec(
            pre.spec_grid().spec_cols() as int,
            pre.spec_grid().spec_rows() as int,
            c as int,
            r as int,
        )
        &&& self.spec_grid().spec_col() == pre.spec_grid().spec_col()
        &&& self.spec_grid().spec_row() == pre.spec_grid().spec_row()
        &&& self.spec_grid().spec_cells() == pre.spec_grid().spec_cells()
        &&& self.spec_grid().spec_monitors() == pre.spec_grid().spec_monitors()
        &&& self.spec_grid().spec_next_id() == pre.spec_grid().spec_next_id()
        &&& self.spec_positions() == positions_at(pre.spec_positions(), c, r)
    }

    /// The effect of one step in direction `d` from the pre-state's
    /// position.
    pub open spec fn stepped(&self, pre: &Self, d: Direction) -> bool {
        let (tc, tr) = step_spec(d, pre.spec_position().0 as int, pre.spec_position().1 as int);
        self.nav_post(pre, tc as usize, tr as usize)
    }

    /// The machine limits a command must respect: growing the grid must
    /// keep both dimensions within `usize`.
    pub open spec fn cmd_bounds(&self, cmd: Command) -> bool {
        match cmd {
            Command::SwitchTo(t) => t.x < usize::MAX && t.y < usize::MAX,
            Command::Go(d) => self.dir_bounds(d),
            Command::CommitMove(d) => self.dir_bounds(d),
            Command::MoveWindowAndGo(d) => self.dir_bounds(d),
            Command::SwipeUpdate { .. } => self.spec_swipe() is Some ==> self.spec_grid().spec_cols()
                < usize::MAX && self.spec_grid().spec_rows() < usize::MAX,
            Command::SwipeEnd => self.spec_swipe() is Some ==> self.spec_grid().spec_cols()
                < usize::MAX && self.spec_grid().spec_rows() < usize::MAX,
            _ => true,
        }
    }

    /// Stepping in direction `d` keeps the grid dimensions within `usize`.
    pub open spec fn dir_bounds(&self, d: Direction) -> bool {
        &&& has_right(d) ==> self.spec_grid().spec_cols() < usize::MAX
        &&& has_down(d) ==> self.spec_grid().spec_rows() < usize::MAX
    }

    /// The grid snapshot the visualizer is shown for gesture offsets
    /// `(ox, oy)`: the target cell is set only once the offset reaches the
    /// commit threshold.
    pub open spec fn vis_state_spec(&self, ox: i64, oy: i64) -> VisualizerState {
        VisualizerState {
            cols: self.spec_grid().spec_cols(),
            rows: self.spec_grid().spec_rows(),
            col: self.spec_position().0,
            row: self.spec_position().1,
            offset_x: ox,
            offset_y: oy,
            target_cell: match dominant_direction_spec(
                ox as int,
                oy as int,
                self.spec_config().commit_threshold as int,
            ) {
                Some(d) => {
                    let (tc, tr) = step_spec(
                        d,
                        self.spec_position().0 as int,
                        self.spec_position().1 as int,
                    );
                    Some((tc as usize, tr as usize))
                },
                None => None,
            },
        }
    }

    /// What `handle` does to the switcher's own state for each command,
    /// and when it must succeed.  Backend calls are opaque, so commands
    /// that depend on them promise a deterministic state change and tie
    /// success to it where possible.
    pub open spec fn handle_post(
        &self,
        pre: &Self,
        cmd: Command,
        r: Result<(), SwitcherError>,
    ) -> bool {
        match cmd {
            Command::SwitchTo(t) => self.nav_post(pre, t.x, t.y) && self.spec_swipe()
                == pre.spec_swipe() && r is Ok,
            Command::Go(d) => self.stepped(pre, d) && self.spec_swipe() == pre.spec_swipe(),
            Command::CommitMove(d) => self.stepped(pre, d) && self.spec_swipe()
                == pre.spec_swipe(),
            Command::MoveWindowAndGo(d) => {
                &&& self.spec_swipe() == pre.spec_swipe()
                &&& (self.core_unchanged(pre) || self.stepped(pre, d))
                &&& (r is Ok ==> self.stepped(pre, d))
            },
            Command::MoveWindowToMonitor(_) => self.core_unchanged(pre) && self.spec_swipe()
                == pre.spec_swipe(),
            Command::MoveWindowToMonitorIndex(_) => self.core_unchanged(pre) && self.spec_swipe()
                == pre.spec_swipe(),
            Command::PrepareMove { .. } => self.core_unchanged(pre) && self.spec_swipe()
                == pre.spec_swipe() && r is Ok,
            Command::CancelMove => self.nav_post(pre, pre.spec_position().0, pre.spec_position().1)
                && self.spec_swipe() == pre.spec_swipe() && r is Ok,
            Command::ToggleVisualizer => self.core_unchanged(pre) && self.spec_swipe()
                == pre.spec_swipe() && r is Ok,
            Command::SwipeBegin { fingers } => {
                &&& self.core_unchanged(pre)
                &&& r is Ok
                &&& self.spec_swipe() == (if fingers == pre.spec_config().switch_fingers || fingers
                    == pre.spec_config().move_fingers {
                    Some(ActiveSwipe { fingers, dx: 0, dy: 0 })
                } else {
                    pre.spec_swipe()
                })
            },
            Command::SwipeUpdate { fingers: _, dx, dy } => self.swipe_update_post(pre, dx, dy, r),
            Command::SwipeEnd => self.swipe_end_post(pre, r),
        }
    }

    /// The effect of a `SwipeUpdate`: accumulate, preview, and commit
    /// early if the drag threshold is configured and crossed.
    pub open spec fn swipe_update_post(
        &self,
        pre: &Self,
        dx: i64,
        dy: i64,
        r: Result<(), SwitcherError>,
    ) -> bool {
        let cfg = pre.spec_config();
        match pre.spec_swipe() {
            None => self.core_unchanged(pre) && self.spec_swipe() is None && r is Ok,
            Some(sw) => {
                let ndx = sat_add(sw.dx as int, dx as int);
                let ndy = sat_add(sw.dy as int, dy as int);
                let nxy = normalised_offset_spec(ndx, ndy, cfg.sensitivity as int,
                    cfg.natural_swiping);
                let commit = match cfg.commit_while_dragging_threshold {
                    Some(t) => dominant_direction_spec(nxy.0, nxy.1, t as int),
                    None => None,
                };
                match commit {
                    None => {
                        &&& self.core_unchanged(pre)
                        &&& self.spec_swipe() == Some(
                            ActiveSwipe { fingers: sw.fingers, dx: ndx as i64, dy: ndy as i64 },
                        )
                        &&& r is Ok
                    },
                    Some(d) => {
                        &&& self.spec_swipe() is None
                        &&& r is Ok
                        &&& (if sw.fingers == cfg.move_fingers {
                            self.core_unchanged(pre) || self.stepped(pre, d)
                        } else {
                            self.stepped(pre, d)
                        })
                    },
                }
            },
        }
    }

    /// The effect of a `SwipeEnd`: classify the accumulated offset and
    /// commit, move-and-commit, or snap back; the accumulator is cleared
    /// unconditionally.
    pub open spec fn swipe_end_post(&self, pre: &Self, r: Result<(), SwitcherError>) -> bool {
        let cfg = pre.spec_config();
        match pre.spec_swipe() {
            None => self.core_unchanged(pre) && self.spec_swipe() is None && r is Ok,
            Some(sw) => {
                let nxy = normalised_offset_spec(sw.dx as int, sw.dy as int,
                    cfg.sensitivity as int, cfg.natural_swiping);
                &&& self.spec_swipe() is None
                &&& match dominant_direction_spec(nxy.0, nxy.1, cfg.commit_threshold as int) {
                    Some(d) => if sw.fingers == cfg.move_fingers {
                        (self.core_unchanged(pre) || self.stepped(pre, d)) && (r is Ok
                            ==> self.stepped(pre, d))
                    } else {
                        self.stepped(pre, d)
                    },
                    None => self.nav_post(pre, pre.spec_position().0, pre.spec_position().1)
                        && r is Ok,
                }
            },
        }
    }

    /// Every monitor entry of a well-formed switcher holds the same grid
    /// cell: the grid is one shared virtual surface, and `handle` keeps
    /// this invariant because it always moves the entries in lock-step.
    pub proof fn lemma_positions_in_lockstep(&self)
        requires
            self.wf(),
        ensures
            forall|i: int, j: int|
                0 <= i < self.spec_positions().len() && 0 <= j < self.spec_positions().len()
                    ==> (#[trigger] self.spec_positions()[i]).col == (
                #[trigger] self.spec_positions()[j]).col && self.spec_positions()[i].row
                    == self.spec_positions()[j].row,
    {
    }

    /// Create a new switcher around a backend.
    ///
    /// `monitors` lists the (distinct) monitor names that switch in
    /// unison.  The grid starts 1×1 at `(0, 0)`, with default gesture
    /// settings, no visualizer and no active swipe.
    pub fn new(wm: W, monitors: Vec<String>) -> (r: Self)
        requires
            monitors@.len() < i32::MAX,
            forall|i: int, j: int|
                0 <= i < j < monitors@.len() ==> (#[trigger] monitors@[i])@ != (
                #[trigger] monitors@[j])@,
        ensures
            r.wf(),
            r.spec_wm() == wm,
            r.spec_positions().len() == monitors@.len(),
            forall|i: int|
                0 <= i < monitors@.len() ==> (#[trigger] r.spec_positions()[i]).name
                    == monitors@[i] && r.spec_positions()[i].col == 0
                    && r.spec_positions()[i].row == 0,
            r.spec_grid().spec_cols() == 1,
            r.spec_grid().spec_rows() == 1,
            r.spec_vis() is None,
            r.spec_swipe() is None,
            r.spec_config() == (GestureConfig {
                sensitivity: 200_000,
                commit_threshold: 300,
                commit_while_dragging_threshold: None,
                switch_fingers: 3,
                move_fingers: 4,
                natural_swiping: true,
            }),
    {
        let n = monitors.len();
        let mut positions: Vec<MonitorGridPosition> = Vec::new();
        let mut i: usize = 0;
        while i < n
            invariant
                n == monitors@.len(),
                i <= n,
                positions@.len() == i,
                forall|j: int|
                    0 <= j < i ==> (#[trigger] positions@[j]).name == monitors@[j]
                        && positions@[j].col == 0 && positions@[j].row == 0,
            decreases n - i,
        {
            let name = monitors[i].clone();
            positions.push(MonitorGridPosition { name, col: 0, row: 0 });
            i = i + 1;
        }
        GridSwitcher {
            wm,
            grid: Grid::new(monitors),
            monitor_positions: positions,
            vis_tx: None,
            gesture_config: GestureConfig::default(),
            active_swipe: None,
        }
    }

    /// Set the gesture configuration.  Only affects the processing of raw
    /// `SwipeBegin` / `SwipeUpdate` / `SwipeEnd` commands.
    pub fn set_gesture_config(&mut self, config: GestureConfig)
        requires
            old(self).wf(),
            config.wf(),
        ensures
            final(self).wf(),
            final(self).spec_config() == config,
            final(self).core_unchanged(old(self)),
            final(self).spec_wm() == old(self).spec_wm(),
            final(self).spec_vis() == old(self).spec_vis(),
            final(self).spec_swipe() == old(self).spec_swipe(),
    {
        self.gesture_config = config;
    }

    /// Attach a visualizer event channel.  The switcher will send
    /// [`VisualizerEvent::ShowAuto`] during navigation and gestures,
    /// [`VisualizerEvent::ToggleManual`] for `ToggleVisualizer`, and
    /// [`VisualizerEvent::Hide`] when a navigation path finishes.
    pub fn set_visualizer(&mut self, tx: Sender<VisualizerEvent>)
        requires
            old(self).wf(),
        ensures
            final(self).wf(),
            final(self).spec_vis() == Some(tx),
            final(self).core_unchanged(old(self)),
            final(self).spec_wm() == old(self).spec_wm(),
            final(self).spec_config() == old(self).spec_config(),
            final(self).spec_swipe() == old(self).spec_swipe(),
    {
        self.vis_tx = Some(tx);
    }

    /// A shared reference to the window manager backend.
    pub fn wm_ref(&self) -> (r: &W)
        ensures
            *r == self.spec_wm(),
    {
        &self.wm
    }

    /// A shared reference to the underlying grid.
    pub fn grid(&self) -> (r: &Grid)
        ensures
            *r == self.spec_grid(),
    {
        &self.grid
    }

    /// Current grid position `(col, row)`; all monitors share it.
    pub fn position(&self) -> (r: (usize, usize))
        ensures
            r == self.spec_position(),
    {
        if self.monitor_positions.len() == 0 {
            (0, 0)
        } else {
            (self.monitor_positions[0].col, self.monitor_positions[0].row)
        }
    }

    /// The name of the currently focused monitor, if any; delegates to the
    /// backend, whose failure text is wrapped in the window-manager error.
    pub fn active_monitor(&self) -> (r: Result<Option<String>, SwitcherError>)
        ensures
            r is Err ==> (r matches Err(SwitcherError::WindowManager(_))),
    {
        match self.wm.active_monitor() {
            Ok(m) => Ok(m),
            Err(e) => Err(SwitcherError::WindowManager(e)),
        }
    }

    /// The monitors the backend knows about; delegates to the backend,
    /// whose failure text is wrapped in the window-manager error.
    pub fn monitors(&self) -> (r: Result<Vec<MonitorInfo>, SwitcherError>)
        ensures
            r is Err ==> (r matches Err(SwitcherError::WindowManager(_))),
    {
        match self.wm.monitors() {
            Ok(m) => Ok(m),
            Err(e) => Err(SwitcherError::WindowManager(e)),
        }
    }

    /// Build the visualizer's grid snapshot for gesture offsets
    /// `(offset_x, offset_y)` in thousandths of a cell.
    pub fn visualizer_state(&self, offset_x: i64, offset_y: i64) -> (r: VisualizerState)
        requires
            self.wf(),
        ensures
            r == self.vis_state_spec(offset_x, offset_y),
    {
        let (cols, rows) = self.grid.dimensions();
        let (col, row) = self.position();
        let target_cell = match dominant_direction(
            offset_x,
            offset_y,
            self.gesture_config.commit_threshold,
        ) {
            Some(d) => Some(Grid::get_abs_from(d, col, row)),
            None => None,
        };
        VisualizerState { cols, rows, col, row, offset_x, offset_y, target_cell }
    }

    /// Build the payload for a visualizer show event: the grid snapshot
    /// plus whatever monitor information the backend offers.
    fn visualizer_show_payload(&self, offset_x: i64, offset_y: i64) -> (r: VisualizerShowPayload)
        requires
            self.wf(),
        ensures
            r.state == self.vis_state_spec(offset_x, offset_y),
    {
        let state = self.visualizer_state(offset_x, offset_y);
        let active_monitor_name = match self.wm.active_monitor() {
            Ok(m) => m,
            Err(_) => None,
        };
        let monitors = match self.wm.monitors() {
            Ok(m) => m,
            Err(_) => Vec::new(),
        };
        VisualizerShowPayload { state, active_monitor_name, monitors }
    }

    /// Send an automatic show event carrying the given offsets, if a
    /// visualizer is attached.
    fn show_visualizer(&self, offset_x: i64, offset_y: i64)
        requires
            self.wf(),
    {
        match &self.vis_tx {
            Some(tx) => {
                let payload = self.visualizer_show_payload(offset_x, offset_y);
                send_event(tx, VisualizerEvent::ShowAuto(payload));
            }
            None => {}
        }
    }

    /// Send a manual toggle event for the current grid state, if a
    /// visualizer is attached.
    fn toggle_manual_visualizer(&self)
        requires
            self.wf(),
    {
        match &self.vis_tx {
            Some(tx) => {
                let payload = self.visualizer_show_payload(0, 0);
                send_event(tx, VisualizerEvent::ToggleManual(payload));
            }
            None => {}
        }
    }

    /// Request that the visualizer be hidden, if one is attached.
    fn hide_visualizer(&self)
    {
        match &self.vis_tx {
            Some(tx) => {
                send_event(tx, VisualizerEvent::Hide);
            }
            None => {}
        }
    }

    /// Move every monitor entry to the cell `(c, r)`.
    fn set_positions(&mut self, c: usize, r: usize)
        ensures
            final(self).spec_positions() == positions_at(old(self).spec_positions(), c, r),
            final(self).spec_grid() == old(self).spec_grid(),
            final(self).spec_wm() == old(self).spec_wm(),
            final(self).spec_vis() == old(self).spec_vis(),
            final(self).spec_config() == old(self).spec_config(),
            final(self).spec_swipe() == old(self).spec_swipe(),
    {
        let n = self.monitor_positions.len();
        let mut i: usize = 0;
        while i < n
            invariant
                n == self.spec_positions().len(),
                i <= n,
                self.spec_grid() == old(self).spec_grid(),
                self.spec_wm() == old(self).spec_wm(),
                self.spec_vis() == old(self).spec_vis(),
                self.spec_config() == old(self).spec_config(),
                self.spec_swipe() == old(self).spec_swipe(),
                forall|j: int|
                    i <= j < n ==> #[trigger] self.spec_positions()[j] == old(
                        self,
                    ).spec_positions()[j],
                forall|j: int|
                    0 <= j < i ==> #[trigger] self.spec_positions()[j] == (MonitorGridPosition {
                        name: old(self).spec_positions()[j].name,
                        col: c,
                        row: r,
                    }),
            decreases n - i,
        {
            let name = self.monitor_positions[i].name.clone();
            self.monitor_positions.set(i, MonitorGridPosition { name, col: c, row: r });
            i = i + 1;
        }
        proof {
            assert(self.spec_positions() =~= positions_at(old(self).spec_positions(), c, r));
        }
    }

    /// Tell the backend to switch every monitor to the workspace id
    /// derived from the current grid cell, the focused monitor last so
    /// the backend's focus-follows-last-touched behaviour keeps the
    /// user's focus where it was.  Requires a focused monitor.
    fn apply_current_workspace(&self) -> (r: Result<(), SwitcherError>)
        requires
            self.wf(),
        ensures
            r is Err ==> (r matches Err(SwitcherError::WindowManager(_))),
    {
        let (col, row) = self.position();

        let active = match self.wm.active_monitor() {
            Err(e) => {
                return Err(SwitcherError::WindowManager(e));
            }
            Ok(None) => {
                return Err(SwitcherError::WindowManager(String::from_str("no active monitor")));
            }
            Ok(Some(a)) => a,
        };

        let n = self.monitor_positions.len();
        let mut entries: Vec<(String, i32)> = Vec::new();
        let mut i: usize = 0;
        while i < n
            invariant
                n == self.spec_positions().len(),
                i <= n,
                entries@.len() == i,
            decreases n - i,
        {
            let name = self.monitor_positions[i].name.clone();
            let id = compute_workspace_id(col, row, i, n);
            entries.push((name, id));
            i = i + 1;
        }

        // Touch the focused monitor last.
        reorder_active_last(&mut entries, active.as_str());

        let m2 = entries.len();
        let mut j: usize = 0;
        while j < m2
            invariant
                m2 == entries@.len(),
                j <= m2,
            decreases m2 - j,
        {
            match self.wm.switch_workspace(entries[j].0.as_str(), entries[j].1) {
                Ok(()) => {}
                Err(e) => {
                    return Err(SwitcherError::WindowManager(e));
                }
            }
            j = j + 1;
        }
        Ok(())
    }

    /// Jump every monitor to the cell `(x, y)`: grow the grid, move the
    /// positions, best-effort switch the backend when the cell actually
    /// changed, and flash the visualizer so the UI finalizes either way.
    fn nav_apply(&mut self, x: usize, y: usize)
        requires
            old(self).wf(),
            x < usize::MAX,
            y < usize::MAX,
        ensures
            final(self).wf(),
            final(self).frame(old(self)),
            final(self).nav_post(old(self), x, y),
            final(self).spec_swipe() == old(self).spec_swipe(),
    {
        let already_there = {
            let p = self.position();
            p.0 == x && p.1 == y
        };
        self.grid.grow_to_contain(x, y);
        self.set_positions(x, y);
        if !already_there {
            // Best-effort: a backend failure does not roll back the local
            // state that already moved.
            let _ignored = self.apply_current_workspace();
        }
        self.show_visualizer(0, 0);
        self.hide_visualizer();
    }

    /// One discrete move in `dir`: step the shared position, grow the
    /// grid, flash the visualizer, and switch the backend's workspaces.
    fn go_impl(&mut self, dir: Direction) -> (r: Result<(), SwitcherError>)
        requires
            old(self).wf(),
            old(self).dir_bounds(dir),
        ensures
            final(self).wf(),
            final(self).frame(old(self)),
            final(self).stepped(old(self), dir),
            final(self).spec_swipe() == old(self).spec_swipe(),
            r is Err ==> (r matches Err(SwitcherError::WindowManager(_))),
    {
        let (col0, row0) = self.position();
        let (c, r) = Grid::get_abs_from(dir, col0, row0);
        self.grid.grow_to_contain(c, r);
        self.set_positions(c, r);
        self.show_visualizer(0, 0);
        self.hide_visualizer();
        self.apply_current_workspace()
    }

    /// Move the focused window to the workspace the target cell has on
    /// the focused monitor, then perform the same step as `Go`.  The
    /// focused monitor is resolved *before* the window moves, so the
    /// window cannot land under another monitor's workspace id.
    fn move_window_then_go(&mut self, dir: Direction) -> (r: Result<(), SwitcherError>)
        requires
            old(self).wf(),
            old(self).dir_bounds(dir),
        ensures
            final(self).wf(),
            final(self).frame(old(self)),
            final(self).spec_swipe() == old(self).spec_swipe(),
            final(self).core_unchanged(old(self)) || final(self).stepped(old(self), dir),
            r is Ok ==> final(self).stepped(old(self), dir),
            r is Err ==> (r matches Err(SwitcherError::WindowManager(_))),
    {
        let (col, row) = self.position();
        let (tc, tr) = Grid::get_abs_from(dir, col, row);

        // Resolve which monitor the user's attention is on, first.
        let active = match self.wm.active_monitor() {
            Err(e) => {
                return Err(SwitcherError::WindowManager(e));
            }
            Ok(None) => {
                return Err(SwitcherError::WindowManager(String::from_str("no active monitor")));
            }
            Ok(Some(a)) => a,
        };

        let n = self.monitor_positions.len();
        let mut active_index: Option<usize> = None;
        let mut i: usize = 0;
        while i < n
            invariant
                n == self.spec_positions().len(),
                i <= n,
                active_index matches Some(p) ==> p < n,
            decreases n - i,
        {
            if active_index.is_none() && str_eq(
                self.monitor_positions[i].name.as_str(),
                active.as_str(),
            ) {
                active_index = Some(i);
            }
            i = i + 1;
        }
        let idx = match active_index {
            Some(p) => p,
            None => {
                let mut msg = String::from_str("active monitor ");
                msg.append(active.as_str());
                msg.append(" has no grid mapping");
                return Err(SwitcherError::WindowManager(msg));
            }
        };

        let target_ws = compute_workspace_id(tc, tr, idx, n);
        match self.wm.move_window_to_workspace(target_ws) {
            Err(e) => {
                return Err(SwitcherError::WindowManager(e));
            }
            Ok(()) => {}
        }

        self.go_impl(dir)
    }

    /// Commit a swipe in `dir`: a plain step, or move-the-window-first
    /// when the gesture used the move-finger count.
    fn execute_swipe_commit(&mut self, dir: Direction, move_window: bool) -> (r: Result<
        (),
        SwitcherError,
    >)
        requires
            old(self).wf(),
            old(self).dir_bounds(dir),
        ensures
            final(self).wf(),
            final(self).frame(old(self)),
            final(self).spec_swipe() == old(self).spec_swipe(),
            move_window ==> (final(self).core_unchanged(old(self)) || final(self).stepped(
                old(self),
                dir,
            )) && (r is Ok ==> final(self).stepped(old(self), dir)),
            !move_window ==> final(self).stepped(old(self), dir),
    {
        if move_window {
            self.move_window_then_go(dir)
        } else {
            self.go_impl(dir)
        }
    }

    /// Process a single [`Command`].
    ///
    /// The switcher is optimistic: its own grid state moves first and a
    /// backend failure is surfaced without rolling anything back, so on
    /// `Err` the state is still exactly what [`handle_post`] promises.
    pub fn handle(&mut self, cmd: Command) -> (r: Result<(), SwitcherError>)
        requires
            old(self).wf(),
            old(self).cmd_bounds(cmd),
        ensures
            final(self).wf(),
            final(self).frame(old(self)),
            final(self).handle_post(old(self), cmd, r),
            r is Err ==> (r matches Err(SwitcherError::WindowManager(_))),
    {
        match cmd {
            Command::SwitchTo(t) => {
                self.nav_apply(t.x, t.y);
                Ok(())
            }
            Command::Go(dir) => self.go_impl(dir),
            Command::MoveWindowAndGo(dir) => self.move_window_then_go(dir),
            Command::MoveWindowToMonitor(dir) => {
                let monitors = match self.wm.monitors() {
                    Ok(m) => m,
                    Err(e) => {
                        return Err(SwitcherError::WindowManager(e));
                    }
                };
                let active = match self.wm.active_window() {
                    Ok(a) => a,
                    Err(e) => {
                        return Err(SwitcherError::WindowManager(e));
                    }
                };
                match active {
                    Some(win) => {
                        match find_monitor_in_direction(&monitors, win.monitor.as_str(), dir) {
                            Some(target) => {
                                match self.wm.move_window_to_monitor(target.name.as_str()) {
                                    Ok(()) => Ok(()),
                                    Err(e) => Err(SwitcherError::WindowManager(e)),
                                }
                            }
                            // No monitor in that direction: a silent no-op.
                            None => Ok(()),
                        }
                    }
                    // No focused window: nothing to move.
                    None => Ok(()),
                }
            }
            Command::MoveWindowToMonitorIndex(MonitorIndex(idx)) => {
                let monitors = match self.wm.monitors() {
                    Ok(m) => m,
                    Err(e) => {
                        return Err(SwitcherError::WindowManager(e));
                    }
                };
                let target = match monitor_at_index(&monitors, idx) {
                    Ok(m) => m,
                    Err(e) => {
                        return Err(e);
                    }
                };
                match self.wm.move_window_to_monitor(target.name.as_str()) {
                    Ok(()) => Ok(()),
                    Err(e) => Err(SwitcherError::WindowManager(e)),
                }
            }
            Command::PrepareMove { dx, dy } => {
                self.show_visualizer(dx, dy);
                Ok(())
            }
            Command::CancelMove => {
                let p = self.position();
                self.nav_apply(p.0, p.1);
                Ok(())
            }
            Command::CommitMove(dir) => self.go_impl(dir),
            Command::ToggleVisualizer => {
                self.toggle_manual_visualizer();
                Ok(())
            }
            Command::SwipeBegin { fingers } => {
                if fingers == self.gesture_config.switch_fingers || fingers
                    == self.gesture_config.move_fingers {
                    self.active_swipe = Some(ActiveSwipe { fingers, dx: 0, dy: 0 });
                }
                Ok(())
            }
            Command::SwipeUpdate { fingers: _, dx, dy } => {
                let sw = match self.active_swipe {
                    None => {
                        return Ok(());
                    }
                    Some(sw) => sw,
                };
                let ndx = crate::gestures::sat_add_i64(sw.dx, dx);
                let ndy = crate::gestures::sat_add_i64(sw.dy, dy);
                self.active_swipe = Some(ActiveSwipe { fingers: sw.fingers, dx: ndx, dy: ndy });
                let (nx, ny) = normalised_swipe_offset(
                    ndx,
                    ndy,
                    self.gesture_config.sensitivity,
                    self.gesture_config.natural_swiping,
                );
                self.show_visualizer(nx, ny);
                let commit = match self.gesture_config.commit_while_dragging_threshold {
                    Some(t) => dominant_direction(nx, ny, t),
                    None => None,
                };
                match commit {
                    Some(dir) => {
                        let move_window = sw.fingers == self.gesture_config.move_fingers;
                        // Best-effort: an early-commit failure is dropped.
                        let _ignored = self.execute_swipe_commit(dir, move_window);
                        self.active_swipe = None;
                        Ok(())
                    }
                    None => Ok(()),
                }
            }
            Command::SwipeEnd => {
                let sw = match self.active_swipe {
                    None => {
                        return Ok(());
                    }
                    Some(sw) => sw,
                };
                self.active_swipe = None;
                let (nx, ny) = normalised_swipe_offset(
                    sw.dx,
                    sw.dy,
                    self.gesture_config.sensitivity,
                    self.gesture_config.natural_swiping,
                );
                match dominant_direction(nx, ny, self.gesture_config.commit_threshold) {
                    Some(dir) => {
                        let move_window = sw.fingers == self.gesture_config.move_fingers;
                        self.execute_swipe_commit(dir, move_window)
                    }
                    None => {
                        let p = self.position();
                        self.nav_apply(p.0, p.1);
                        Ok(())
                    }
                }
            }
        }
    }
}

} // verus!
